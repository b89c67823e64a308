//! The chain of migrations that brings a stored value to the current version
//! of its kind.

use vstd::prelude::*;
use vstd::string::*;
use crate::error::{Error, ErrorView, Key, Kind, result_view};
use crate::json::{
    find_member, lemma_first_is_unique, lemma_object_view, member, member_of, members_view,
    remove_member, set_member, with_member, without_member, Json, JsonView, Member,
    lemma_array_view,
};
use crate::text::same_text;

verus! {

/// The version that a value says it is in.
pub open spec fn version_of(e: JsonView) -> Result<Seq<char>, ErrorView> {
    match e.field("apiVersion"@) {
        Some(JsonView::Str(v)) => Ok(v),
        _ => Err(ErrorView::MissingKey(Key::ApiVersion)),
    }
}

/// An entity of the given version and kind with the given metadata and spec.
pub open spec fn entity_of(
    version: Seq<char>,
    kind: Seq<char>,
    metadata: JsonView,
    spec: Seq<(Seq<char>, JsonView)>,
) -> JsonView {
    JsonView::Object(
        seq![
            ("apiVersion"@, JsonView::Str(version)),
            ("kind"@, JsonView::Str(kind)),
            ("metadata"@, metadata),
            ("spec"@, JsonView::Object(spec)),
        ],
    )
}

/// From the first version of a guest to the second: the guest is attached
/// to the bridge `tvbr0`.
pub open spec fn migrated_v1alpha1(e: JsonView) -> Result<JsonView, ErrorView> {
    match e.field("spec"@) {
        None => Err(ErrorView::MissingKey(Key::Spec)),
        Some(JsonView::Object(spec)) => match e.field("metadata"@) {
            None => Err(ErrorView::MissingKey(Key::Metadata)),
            Some(metadata) => Ok(
                entity_of(
                    "v1alpha2"@,
                    "VirtualMachine"@,
                    metadata,
                    with_member(spec, "bridge"@, JsonView::Str("tvbr0"@)),
                ),
            ),
        },
        Some(_) => Err(ErrorView::NotAnObject),
    }
}

/// From the second version of a guest to the third: its one disk becomes a
/// list of disks.
pub open spec fn migrated_v1alpha2(e: JsonView) -> Result<JsonView, ErrorView> {
    match e.field("spec"@) {
        None => Err(ErrorView::MissingKey(Key::Spec)),
        Some(JsonView::Object(spec)) => match member_of(spec, "disk"@) {
            None => Err(ErrorView::MissingKey(Key::Disk)),
            Some(disk) => match e.field("metadata"@) {
                None => Err(ErrorView::MissingKey(Key::Metadata)),
                Some(metadata) => Ok(
                    entity_of(
                        "v1alpha3"@,
                        "VirtualMachine"@,
                        metadata,
                        with_member(
                            without_member(spec, "disk"@),
                            "disks"@,
                            JsonView::Array(seq![disk]),
                        ),
                    ),
                ),
            },
        },
        Some(_) => Err(ErrorView::NotAnObject),
    }
}

/// The value in the current version of its kind: itself where it is there
/// already, else what the chain of migrations makes of it.
pub open spec fn migrated(kind: Kind, e: JsonView) -> Result<JsonView, ErrorView> {
    match version_of(e) {
        Err(x) => Err(x),
        Ok(v) => if v == kind.current_version() {
            Ok(e)
        } else if kind == Kind::VirtualMachine && v == "v1alpha1"@ {
            match migrated_v1alpha1(e) {
                Err(x) => Err(x),
                Ok(e2) => migrated_v1alpha2(e2),
            }
        } else if kind == Kind::VirtualMachine && v == "v1alpha2"@ {
            migrated_v1alpha2(e)
        } else {
            Err(ErrorView::FailedMigration { kind, from: v })
        },
    }
}

/// Takes the spec and the metadata out of an entity.
fn take_parts(entity: Json) -> (r: Result<(Vec<Member>, Json), Error>)
    ensures
        match entity@.field("spec"@) {
            None => r is Err && r->Err_0@ == ErrorView::MissingKey(Key::Spec),
            Some(JsonView::Object(spec)) => match entity@.field("metadata"@) {
                None => r is Err && r->Err_0@ == ErrorView::MissingKey(Key::Metadata),
                Some(metadata) => r is Ok && members_view(r->Ok_0.0@) == spec && r->Ok_0.1@
                    == metadata,
            },
            Some(_) => r is Err && r->Err_0@ == ErrorView::NotAnObject,
        },
{
    let mut members = match entity {
        Json::Object(members) => {
            proof {
                lemma_object_view(members);
            }
            members
        },
        _ => {
            return Err(Error::MissingKey(Key::Spec));
        },
    };
    let ghost ms = members_view(members@);
    let i = match find_member(&members, "spec") {
        Some(i) => i,
        None => {
            return Err(Error::MissingKey(Key::Spec));
        },
    };
    proof {
        lemma_first_is_unique(ms, "spec"@, i as int);
    }
    match &members[i].value {
        Json::Object(sm) => {
            proof {
                lemma_object_view(*sm);
            }
        },
        _ => {
            return Err(Error::NotAnObject);
        },
    }
    let j = match find_member(&members, "metadata") {
        Some(j) => j,
        None => {
            return Err(Error::MissingKey(Key::Metadata));
        },
    };
    proof {
        lemma_first_is_unique(ms, "metadata"@, j as int);
        reveal_strlit("spec");
        reveal_strlit("metadata");
        assert("spec"@.len() != "metadata"@.len());
        assert(i != j);
    }
    let (spec, metadata) = if i < j {
        let m = members.remove(j);
        let s = members.remove(i);
        (s.value, m.value)
    } else {
        let s = members.remove(i);
        let m = members.remove(j);
        (s.value, m.value)
    };
    match spec {
        Json::Object(sm) => {
            proof {
                lemma_object_view(sm);
            }
            Ok((sm, metadata))
        },
        _ => Err(Error::NotAnObject),
    }
}

/// Puts an entity together.
pub fn make_entity(version: &str, kind: &str, metadata: Json, spec: Vec<Member>) -> (r: Json)
    ensures
        r@ == entity_of(version@, kind@, metadata@, members_view(spec@)),
{
    let mut members: Vec<Member> = Vec::new();
    members.push(member("apiVersion", Json::string(version)));
    members.push(member("kind", Json::string(kind)));
    members.push(member("metadata", metadata));
    members.push(member("spec", Json::object(spec)));
    let r = Json::object(members);
    proof {
        assert(members_view(members@) =~= seq![
            ("apiVersion"@, JsonView::Str(version@)),
            ("kind"@, JsonView::Str(kind@)),
            ("metadata"@, metadata@),
            ("spec"@, JsonView::Object(members_view(spec@))),
        ]);
    }
    r
}

/// From the first version of a guest to the second.
pub fn migrate_v1alpha1(entity: Json) -> (r: Result<Json, Error>)
    ensures
        result_view(r) == migrated_v1alpha1(entity@),
{
    let (mut spec, metadata) = match take_parts(entity) {
        Ok(parts) => parts,
        Err(e) => {
            return Err(e);
        },
    };
    set_member(&mut spec, "bridge", Json::string("tvbr0"));
    Ok(make_entity("v1alpha2", "VirtualMachine", metadata, spec))
}

/// From the second version of a guest to the third.
pub fn migrate_v1alpha2(entity: Json) -> (r: Result<Json, Error>)
    ensures
        result_view(r) == migrated_v1alpha2(entity@),
{
    let found = match entity.get("spec") {
        Some(Json::Object(sm)) => {
            proof {
                lemma_object_view(*sm);
            }
            find_member(sm, "disk").is_some()
        },
        _ => true,
    };
    if !found {
        return Err(Error::MissingKey(Key::Disk));
    }
    let (mut spec, metadata) = match take_parts(entity) {
        Ok(parts) => parts,
        Err(e) => {
            return Err(e);
        },
    };
    let disk = match remove_member(&mut spec, "disk") {
        Some(disk) => disk,
        None => {
            return Err(Error::MissingKey(Key::Disk));
        },
    };
    let mut disks: Vec<Json> = Vec::new();
    disks.push(disk);
    proof {
        lemma_array_view(disks);
        assert(crate::json::items_view(disks@) =~= seq![disk@]);
    }
    set_member(&mut spec, "disks", Json::Array(disks));
    Ok(make_entity("v1alpha3", "VirtualMachine", metadata, spec))
}

/// The entity that `entity_of` puts together says the version it was given.
pub proof fn lemma_entity_version(
    version: Seq<char>,
    kind: Seq<char>,
    metadata: JsonView,
    spec: Seq<(Seq<char>, JsonView)>,
)
    ensures
        version_of(entity_of(version, kind, metadata, spec)) == Ok::<Seq<char>, ErrorView>(version),
{
    let ms = entity_of(version, kind, metadata, spec)->Object_0;
    assert(ms[0].0 == "apiVersion"@);
    lemma_first_is_unique(ms, "apiVersion"@, 0);
}

/// The three versions of a guest are three different texts.
pub proof fn lemma_versions_differ()
    ensures
        "v1alpha1"@ != "v1alpha2"@,
        "v1alpha1"@ != "v1alpha3"@,
        "v1alpha2"@ != "v1alpha3"@,
{
    reveal_strlit("v1alpha1");
    reveal_strlit("v1alpha2");
    reveal_strlit("v1alpha3");
    assert("v1alpha1"@[7] == '1');
    assert("v1alpha2"@[7] == '2');
    assert("v1alpha3"@[7] == '3');
}

/// One step of a chain of migrations.
#[derive(Clone, Copy, Debug, PartialEq, Eq, Structural)]
pub enum Migrator {
    /// Leaves the value as it is.
    Keep,
    /// From the first version of a guest to the second.
    AttachBridge,
    /// From the second version of a guest to the third.
    ListDisks,
    /// Fails: the value is in the last version.
    Last,
}

/// The step that begins at the given version of the kind.
pub open spec fn migrator_of(kind: Kind, version: Seq<char>) -> Option<Migrator> {
    match kind {
        Kind::Bridge => if version == "v1alpha1"@ {
            Some(Migrator::Keep)
        } else {
            None
        },
        Kind::VirtualMachine => if version == "v1alpha1"@ {
            Some(Migrator::AttachBridge)
        } else if version == "v1alpha2"@ {
            Some(Migrator::ListDisks)
        } else if version == "v1alpha3"@ {
            Some(Migrator::Last)
        } else {
            None
        },
    }
}

/// What a step makes of a value of the kind.
pub open spec fn step_of(m: Migrator, kind: Kind, e: JsonView) -> Result<JsonView, ErrorView> {
    match m {
        Migrator::Keep => Ok(e),
        Migrator::AttachBridge => migrated_v1alpha1(e),
        Migrator::ListDisks => migrated_v1alpha2(e),
        Migrator::Last => Err(ErrorView::NoMigrationAvailable { kind }),
    }
}

/// The step that begins at the given version of the kind, if there is one.
pub fn get_migrator(kind: Kind, version: &str) -> (r: Option<Migrator>)
    ensures
        r == migrator_of(kind, version@),
{
    match kind {
        Kind::Bridge => if same_text(version, "v1alpha1") {
            Some(Migrator::Keep)
        } else {
            None
        },
        Kind::VirtualMachine => if same_text(version, "v1alpha1") {
            Some(Migrator::AttachBridge)
        } else if same_text(version, "v1alpha2") {
            Some(Migrator::ListDisks)
        } else if same_text(version, "v1alpha3") {
            Some(Migrator::Last)
        } else {
            None
        },
    }
}

impl Migrator {
    /// Applies the step to a value of the kind.
    pub fn migrate(self, kind: Kind, entity: Json) -> (r: Result<Json, Error>)
        ensures
            result_view(r) == step_of(self, kind, entity@),
    {
        match self {
            Migrator::Keep => Ok(entity),
            Migrator::AttachBridge => migrate_v1alpha1(entity),
            Migrator::ListDisks => migrate_v1alpha2(entity),
            Migrator::Last => Err(Error::NoMigrationAvailable { kind }),
        }
    }
}

/// How many steps lie between a version of a guest and the current one.
pub open spec fn steps_left(e: JsonView) -> nat {
    match version_of(e) {
        Ok(v) => if v == "v1alpha1"@ {
            2
        } else if v == "v1alpha2"@ {
            1
        } else {
            0
        },
        Err(_) => 0,
    }
}

/// Brings a stored value to the current version of its kind, step by step.
/// A value in the current version comes back as it is. A value without a
/// version, or in a version at which no step begins, is refused.
pub fn migrate_version(kind: Kind, entity: Json) -> (r: Result<Json, Error>)
    ensures
        result_view(r) == migrated(kind, entity@),
        r is Ok ==> version_of(r->Ok_0@) == Ok::<Seq<char>, ErrorView>(kind.current_version()),
    decreases steps_left(entity@),
{
    let version = match entity.get_existing(Key::ApiVersion) {
        Ok(v) => match v.as_str() {
            Some(s) => String::from_str(s),
            None => {
                return Err(Error::MissingKey(Key::ApiVersion));
            },
        },
        Err(e) => {
            return Err(e);
        },
    };
    if same_text(version.as_str(), kind.api_version()) {
        return Ok(entity);
    }
    proof {
        lemma_versions_differ();
    }
    let migrator = match get_migrator(kind, version.as_str()) {
        Some(m) => m,
        None => {
            return Err(Error::FailedMigration { kind, from: version });
        },
    };
    let ghost before = entity@;
    match migrator.migrate(kind, entity) {
        Err(e) => Err(e),
        Ok(next) => {
            proof {
                let spec = before.field("spec"@)->Some_0->Object_0;
                let metadata = before.field("metadata"@)->Some_0;
                if migrator == Migrator::AttachBridge {
                    lemma_entity_version(
                        "v1alpha2"@,
                        "VirtualMachine"@,
                        metadata,
                        with_member(spec, "bridge"@, JsonView::Str("tvbr0"@)),
                    );
                } else {
                    let disk = member_of(spec, "disk"@)->Some_0;
                    lemma_entity_version(
                        "v1alpha3"@,
                        "VirtualMachine"@,
                        metadata,
                        with_member(
                            without_member(spec, "disk"@),
                            "disks"@,
                            JsonView::Array(seq![disk]),
                        ),
                    );
                }
            }
            migrate_version(kind, next)
        },
    }
}

/// A value comes out of the chain in the current version of its kind, and
/// the chain leaves what it made as it is: to run it twice is to run it once.
pub proof fn lemma_migration_settles(kind: Kind, e: JsonView)
    requires
        migrated(kind, e) is Ok,
    ensures
        version_of(migrated(kind, e)->Ok_0) == Ok::<Seq<char>, ErrorView>(kind.current_version()),
        migrated(kind, migrated(kind, e)->Ok_0) == migrated(kind, e),
{
    lemma_versions_differ();
    let v = version_of(e)->Ok_0;
    if v != kind.current_version() {
        let last = if v == "v1alpha1"@ {
            migrated_v1alpha1(e)->Ok_0
        } else {
            e
        };
        let spec = last.field("spec"@)->Some_0->Object_0;
        let metadata = last.field("metadata"@)->Some_0;
        let disk = member_of(spec, "disk"@)->Some_0;
        lemma_entity_version(
            "v1alpha3"@,
            "VirtualMachine"@,
            metadata,
            with_member(without_member(spec, "disk"@), "disks"@, JsonView::Array(seq![disk])),
        );
    }
}

} // verus!
