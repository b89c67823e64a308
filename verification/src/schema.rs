//! Entities as JSON values, and the shapes that their fields must have.

use vstd::prelude::*;
use vstd::string::*;
use crate::entity::{
    texts, Bridge, BridgeSpec, BridgeSpecView, BridgeView, Metadata, VirtualMachine,
    VirtualMachineSpec, VirtualMachineSpecView, VirtualMachineView,
};
use crate::error::{Error, ErrorView, Field, Kind, result_view};
use crate::json::{
    find_member, items_view, lemma_array_view, lemma_first_is_unique, lemma_object_view, member,
    member_of, members_view, Json, JsonView, Member,
};
use crate::patterns::{
    is_dns_name, is_ipv4, is_ipv4_net, is_mac, is_memory_size, matches_dns_name, matches_ipv4,
    matches_ipv4_net, matches_mac, matches_memory_size,
};
use crate::migrate::{entity_of, make_entity};
use crate::text::same_text;

verus! {

/// The text under `key`, where a text stands there.
pub open spec fn text_at(ms: Seq<(Seq<char>, JsonView)>, key: Seq<char>) -> Option<Seq<char>> {
    match member_of(ms, key) {
        Some(JsonView::Str(s)) => Some(s),
        _ => None,
    }
}

/// The members under `key`, where an object stands there.
pub open spec fn object_at(ms: Seq<(Seq<char>, JsonView)>, key: Seq<char>) -> Option<
    Seq<(Seq<char>, JsonView)>,
> {
    match member_of(ms, key) {
        Some(JsonView::Object(inner)) => Some(inner),
        _ => None,
    }
}

/// Whether every item is a text.
pub open spec fn all_texts(items: Seq<JsonView>) -> bool {
    forall|i: int| 0 <= i < items.len() ==> #[trigger] items[i] is Str
}

/// The texts of items that are texts.
pub open spec fn texts_of(items: Seq<JsonView>) -> Seq<Seq<char>> {
    Seq::new(items.len(), |i: int| items[i]->Str_0)
}

/// The texts under `key`, where an array of texts stands there.
pub open spec fn texts_at(ms: Seq<(Seq<char>, JsonView)>, key: Seq<char>) -> Option<
    Seq<Seq<char>>,
> {
    match member_of(ms, key) {
        Some(JsonView::Array(items)) => if all_texts(items) {
            Some(texts_of(items))
        } else {
            None
        },
        _ => None,
    }
}

/// The count under `key`, where an integer from 0 to 255 stands there.
pub open spec fn count_at(ms: Seq<(Seq<char>, JsonView)>, key: Seq<char>) -> Option<u8> {
    match member_of(ms, key) {
        Some(JsonView::PosInt(n)) => if n <= 255 {
            Some(n as u8)
        } else {
            None
        },
        _ => None,
    }
}

/// The name under `metadata`.
pub open spec fn name_at(ms: Seq<(Seq<char>, JsonView)>) -> Result<Seq<char>, ErrorView> {
    match object_at(ms, "metadata"@) {
        None => Err(ErrorView::Serialize(Field::Metadata)),
        Some(md) => match text_at(md, "name"@) {
            None => Err(ErrorView::Serialize(Field::Name)),
            Some(name) => Ok(name),
        },
    }
}

/// The spec of a guest that a JSON object gives. A guest without a MAC
/// address gets `default_mac`.
pub open spec fn vm_spec_of_json(ms: Seq<(Seq<char>, JsonView)>, default_mac: Seq<char>) -> Result<
    VirtualMachineSpecView,
    ErrorView,
> {
    if count_at(ms, "cpus"@) is None {
        Err(ErrorView::Serialize(Field::Cpus))
    } else if text_at(ms, "memory"@) is None {
        Err(ErrorView::Serialize(Field::Memory))
    } else if texts_at(ms, "disks"@) is None {
        Err(ErrorView::Serialize(Field::Disks))
    } else if text_at(ms, "ip"@) is None {
        Err(ErrorView::Serialize(Field::Ip))
    } else if member_of(ms, "mac"@) is Some && text_at(ms, "mac"@) is None {
        Err(ErrorView::Serialize(Field::Mac))
    } else if text_at(ms, "bridge"@) is None {
        Err(ErrorView::Serialize(Field::Bridge))
    } else {
        Ok(
            VirtualMachineSpecView {
                cpus: count_at(ms, "cpus"@)->Some_0,
                memory: text_at(ms, "memory"@)->Some_0,
                disks: texts_at(ms, "disks"@)->Some_0,
                ip: text_at(ms, "ip"@)->Some_0,
                mac: if member_of(ms, "mac"@) is Some {
                    text_at(ms, "mac"@)->Some_0
                } else {
                    default_mac
                },
                bridge: text_at(ms, "bridge"@)->Some_0,
            },
        )
    }
}

/// The guest that a JSON value gives.
pub open spec fn vm_of_json(j: JsonView, default_mac: Seq<char>) -> Result<
    VirtualMachineView,
    ErrorView,
> {
    match j {
        JsonView::Object(ms) => match object_at(ms, "spec"@) {
            None => Err(ErrorView::Serialize(Field::Spec)),
            Some(sm) => match vm_spec_of_json(sm, default_mac) {
                Err(e) => Err(e),
                Ok(spec) => if text_at(ms, "apiVersion"@) is None {
                    Err(ErrorView::Serialize(Field::ApiVersion))
                } else if text_at(ms, "kind"@) is None {
                    Err(ErrorView::Serialize(Field::Kind))
                } else {
                    match name_at(ms) {
                        Err(e) => Err(e),
                        Ok(name) => Ok(
                            VirtualMachineView {
                                spec,
                                api_version: text_at(ms, "apiVersion"@)->Some_0,
                                kind: text_at(ms, "kind"@)->Some_0,
                                name,
                            },
                        ),
                    }
                },
            },
        },
        _ => Err(ErrorView::NotAnObject),
    }
}

/// The spec of a bridge that a JSON object gives.
pub open spec fn bridge_spec_of_json(ms: Seq<(Seq<char>, JsonView)>) -> Result<
    BridgeSpecView,
    ErrorView,
> {
    if text_at(ms, "address"@) is None {
        Err(ErrorView::Serialize(Field::Address))
    } else if text_at(ms, "dns_zone"@) is None {
        Err(ErrorView::Serialize(Field::DnsZone))
    } else if text_at(ms, "dns_server"@) is None {
        Err(ErrorView::Serialize(Field::DnsServer))
    } else {
        Ok(
            BridgeSpecView {
                address: text_at(ms, "address"@)->Some_0,
                dns_zone: text_at(ms, "dns_zone"@)->Some_0,
                dns_server: text_at(ms, "dns_server"@)->Some_0,
            },
        )
    }
}

/// The bridge that a JSON value gives.
pub open spec fn bridge_of_json(j: JsonView) -> Result<BridgeView, ErrorView> {
    match j {
        JsonView::Object(ms) => match object_at(ms, "spec"@) {
            None => Err(ErrorView::Serialize(Field::Spec)),
            Some(sm) => match bridge_spec_of_json(sm) {
                Err(e) => Err(e),
                Ok(spec) => if text_at(ms, "apiVersion"@) is None {
                    Err(ErrorView::Serialize(Field::ApiVersion))
                } else if text_at(ms, "kind"@) is None {
                    Err(ErrorView::Serialize(Field::Kind))
                } else {
                    match name_at(ms) {
                        Err(e) => Err(e),
                        Ok(name) => Ok(
                            BridgeView {
                                spec,
                                api_version: text_at(ms, "apiVersion"@)->Some_0,
                                kind: text_at(ms, "kind"@)->Some_0,
                                name,
                            },
                        ),
                    }
                },
            },
        },
        _ => Err(ErrorView::NotAnObject),
    }
}

fn text_member(members: &Vec<Member>, key: &str) -> (r: Option<String>)
    ensures
        r is Some == text_at(members_view(members@), key@) is Some,
        r is Some ==> r->Some_0@ == text_at(members_view(members@), key@)->Some_0,
{
    match find_member(members, key) {
        Some(i) => {
            proof {
                lemma_first_is_unique(members_view(members@), key@, i as int);
            }
            match &members[i].value {
                Json::Str(s) => Some(s.clone()),
                _ => None,
            }
        },
        None => None,
    }
}

fn object_member<'a>(members: &'a Vec<Member>, key: &str) -> (r: Option<&'a Vec<Member>>)
    ensures
        r is Some == object_at(members_view(members@), key@) is Some,
        r is Some ==> members_view(r->Some_0@) == object_at(members_view(members@), key@)->Some_0,
{
    match find_member(members, key) {
        Some(i) => {
            proof {
                lemma_first_is_unique(members_view(members@), key@, i as int);
            }
            match &members[i].value {
                Json::Object(inner) => {
                    proof {
                        lemma_object_view(*inner);
                    }
                    Some(inner)
                },
                _ => None,
            }
        },
        None => None,
    }
}

fn count_member(members: &Vec<Member>, key: &str) -> (r: Option<u8>)
    ensures
        r == count_at(members_view(members@), key@),
{
    match find_member(members, key) {
        Some(i) => {
            proof {
                lemma_first_is_unique(members_view(members@), key@, i as int);
            }
            match &members[i].value {
                Json::PosInt(n) => if *n <= 255 {
                    Some(*n as u8)
                } else {
                    None
                },
                _ => None,
            }
        },
        None => None,
    }
}

fn texts_member(members: &Vec<Member>, key: &str) -> (r: Option<Vec<String>>)
    ensures
        r is Some == texts_at(members_view(members@), key@) is Some,
        r is Some ==> texts(r->Some_0@) == texts_at(members_view(members@), key@)->Some_0,
{
    match find_member(members, key) {
        Some(i) => {
            proof {
                lemma_first_is_unique(members_view(members@), key@, i as int);
            }
            match &members[i].value {
                Json::Array(items) => {
                    proof {
                        lemma_array_view(*items);
                    }
                    let ghost iv = items_view(items@);
                    let mut out: Vec<String> = Vec::new();
                    let mut k: usize = 0;
                    while k < items.len()
                        invariant
                            0 <= k <= items@.len(),
                            iv == items_view(items@),
                            member_of(members_view(members@), key@) == Some(JsonView::Array(iv)),
                            out@.len() == k,
                            forall|j: int| 0 <= j < k ==> #[trigger] iv[j] is Str,
                            forall|j: int| 0 <= j < k ==> (#[trigger] out@[j])@ == iv[j]->Str_0,
                        decreases items@.len() - k,
                    {
                        match &items[k] {
                            Json::Str(s) => {
                                assert(iv[k as int] == items@[k as int]@);
                                out.push(s.clone());
                            },
                            _ => {
                                assert(iv[k as int] == items@[k as int]@);
                                assert(!(iv[k as int] is Str));
                                assert(!all_texts(iv));
                                return None;
                            },
                        }
                        k = k + 1;
                    }
                    proof {
                        assert(all_texts(iv));
                        assert(texts(out@) =~= texts_of(iv));
                    }
                    Some(out)
                },
                _ => None,
            }
        },
        None => None,
    }
}

fn name_member(members: &Vec<Member>) -> (r: Result<String, Error>)
    ensures
        r is Ok == name_at(members_view(members@)) is Ok,
        r is Ok ==> r->Ok_0@ == name_at(members_view(members@))->Ok_0,
        r is Err ==> r->Err_0@ == name_at(members_view(members@))->Err_0,
{
    match object_member(members, "metadata") {
        None => Err(Error::Serialize(Field::Metadata)),
        Some(md) => match text_member(md, "name") {
            None => Err(Error::Serialize(Field::Name)),
            Some(name) => Ok(name),
        },
    }
}

impl VirtualMachineSpec {
    /// Reads the spec of a guest from the members of a JSON object.
    pub fn from_members(members: &Vec<Member>, default_mac: &str) -> (r: Result<
        VirtualMachineSpec,
        Error,
    >)
        ensures
            result_view(r) == vm_spec_of_json(members_view(members@), default_mac@),
    {
        let cpus = match count_member(members, "cpus") {
            Some(n) => n,
            None => {
                return Err(Error::Serialize(Field::Cpus));
            },
        };
        let memory = match text_member(members, "memory") {
            Some(s) => s,
            None => {
                return Err(Error::Serialize(Field::Memory));
            },
        };
        let disks = match texts_member(members, "disks") {
            Some(s) => s,
            None => {
                return Err(Error::Serialize(Field::Disks));
            },
        };
        let ip = match text_member(members, "ip") {
            Some(s) => s,
            None => {
                return Err(Error::Serialize(Field::Ip));
            },
        };
        let mac = match find_member(members, "mac") {
            None => String::from_str(default_mac),
            Some(_) => match text_member(members, "mac") {
                Some(s) => s,
                None => {
                    return Err(Error::Serialize(Field::Mac));
                },
            },
        };
        let bridge = match text_member(members, "bridge") {
            Some(s) => s,
            None => {
                return Err(Error::Serialize(Field::Bridge));
            },
        };
        Ok(VirtualMachineSpec { cpus, memory, disks, ip, mac, bridge })
    }
}

impl VirtualMachine {
    /// Reads a guest from a JSON value. Members that the schema does not
    /// know are passed over.
    pub fn from_json(j: &Json, default_mac: &str) -> (r: Result<VirtualMachine, Error>)
        ensures
            result_view(r) == vm_of_json(j@, default_mac@),
    {
        let members = match j.as_object() {
            Some(m) => m,
            None => {
                return Err(Error::NotAnObject);
            },
        };
        let sm = match object_member(members, "spec") {
            Some(sm) => sm,
            None => {
                return Err(Error::Serialize(Field::Spec));
            },
        };
        let spec = match VirtualMachineSpec::from_members(sm, default_mac) {
            Ok(s) => s,
            Err(e) => {
                return Err(e);
            },
        };
        let api_version = match text_member(members, "apiVersion") {
            Some(s) => s,
            None => {
                return Err(Error::Serialize(Field::ApiVersion));
            },
        };
        let kind = match text_member(members, "kind") {
            Some(s) => s,
            None => {
                return Err(Error::Serialize(Field::Kind));
            },
        };
        let name = match name_member(members) {
            Ok(s) => s,
            Err(e) => {
                return Err(e);
            },
        };
        Ok(VirtualMachine { spec, api_version, kind, metadata: Metadata { name } })
    }
}

impl BridgeSpec {
    /// Reads the spec of a bridge from the members of a JSON object.
    pub fn from_members(members: &Vec<Member>) -> (r: Result<BridgeSpec, Error>)
        ensures
            result_view(r) == bridge_spec_of_json(members_view(members@)),
    {
        let address = match text_member(members, "address") {
            Some(s) => s,
            None => {
                return Err(Error::Serialize(Field::Address));
            },
        };
        let dns_zone = match text_member(members, "dns_zone") {
            Some(s) => s,
            None => {
                return Err(Error::Serialize(Field::DnsZone));
            },
        };
        let dns_server = match text_member(members, "dns_server") {
            Some(s) => s,
            None => {
                return Err(Error::Serialize(Field::DnsServer));
            },
        };
        Ok(BridgeSpec { address, dns_zone, dns_server })
    }
}

impl Bridge {
    /// Reads a bridge from a JSON value. Members that the schema does not
    /// know are passed over.
    pub fn from_json(j: &Json) -> (r: Result<Bridge, Error>)
        ensures
            result_view(r) == bridge_of_json(j@),
    {
        let members = match j.as_object() {
            Some(m) => m,
            None => {
                return Err(Error::NotAnObject);
            },
        };
        let sm = match object_member(members, "spec") {
            Some(sm) => sm,
            None => {
                return Err(Error::Serialize(Field::Spec));
            },
        };
        let spec = match BridgeSpec::from_members(sm) {
            Ok(s) => s,
            Err(e) => {
                return Err(e);
            },
        };
        let api_version = match text_member(members, "apiVersion") {
            Some(s) => s,
            None => {
                return Err(Error::Serialize(Field::ApiVersion));
            },
        };
        let kind = match text_member(members, "kind") {
            Some(s) => s,
            None => {
                return Err(Error::Serialize(Field::Kind));
            },
        };
        let name = match name_member(members) {
            Ok(s) => s,
            Err(e) => {
                return Err(e);
            },
        };
        Ok(Bridge { spec, api_version, kind, metadata: Metadata { name } })
    }
}

/// The texts as JSON strings.
pub open spec fn json_of_texts(v: Seq<Seq<char>>) -> Seq<JsonView> {
    Seq::new(v.len(), |i: int| JsonView::Str(v[i]))
}

/// The members that stand for the spec of a guest.
pub open spec fn json_of_vm_spec(s: VirtualMachineSpecView) -> Seq<(Seq<char>, JsonView)> {
    seq![
        ("bridge"@, JsonView::Str(s.bridge)),
        ("cpus"@, JsonView::PosInt(s.cpus as u64)),
        ("disks"@, JsonView::Array(json_of_texts(s.disks))),
        ("ip"@, JsonView::Str(s.ip)),
        ("mac"@, JsonView::Str(s.mac)),
        ("memory"@, JsonView::Str(s.memory)),
    ]
}

/// The members that stand for the spec of a bridge.
pub open spec fn json_of_bridge_spec(s: BridgeSpecView) -> Seq<(Seq<char>, JsonView)> {
    seq![
        ("address"@, JsonView::Str(s.address)),
        ("dns_server"@, JsonView::Str(s.dns_server)),
        ("dns_zone"@, JsonView::Str(s.dns_zone)),
    ]
}

/// The metadata of an entity with the given name.
pub open spec fn json_of_name(name: Seq<char>) -> JsonView {
    JsonView::Object(seq![("name"@, JsonView::Str(name))])
}

/// The JSON value that stands for a guest.
pub open spec fn json_of_vm(v: VirtualMachineView) -> JsonView {
    entity_of(v.api_version, v.kind, json_of_name(v.name), json_of_vm_spec(v.spec))
}

/// The JSON value that stands for a bridge.
pub open spec fn json_of_bridge(v: BridgeView) -> JsonView {
    entity_of(v.api_version, v.kind, json_of_name(v.name), json_of_bridge_spec(v.spec))
}

fn name_json(name: &str) -> (r: Json)
    ensures
        r@ == json_of_name(name@),
{
    let mut md: Vec<Member> = Vec::new();
    md.push(member("name", Json::string(name)));
    proof {
        assert(members_view(md@) =~= seq![("name"@, JsonView::Str(name@))]);
    }
    Json::object(md)
}

impl VirtualMachine {
    /// The JSON value that stands for the guest.
    pub fn to_json(&self) -> (r: Json)
        ensures
            r@ == json_of_vm(self@),
    {
        let mut disks: Vec<Json> = Vec::new();
        let mut i: usize = 0;
        while i < self.spec.disks.len()
            invariant
                0 <= i <= self.spec.disks@.len(),
                disks@.len() == i,
                forall|j: int|
                    0 <= j < i ==> (#[trigger] disks@[j])@ == JsonView::Str(self.spec.disks@[j]@),
            decreases self.spec.disks@.len() - i,
        {
            disks.push(Json::string(self.spec.disks[i].as_str()));
            i = i + 1;
        }
        proof {
            lemma_array_view(disks);
            assert(items_view(disks@) =~= json_of_texts(self@.spec.disks));
        }
        let mut spec: Vec<Member> = Vec::new();
        spec.push(member("bridge", Json::string(self.spec.bridge.as_str())));
        spec.push(member("cpus", Json::PosInt(self.spec.cpus as u64)));
        spec.push(member("disks", Json::Array(disks)));
        spec.push(member("ip", Json::string(self.spec.ip.as_str())));
        spec.push(member("mac", Json::string(self.spec.mac.as_str())));
        spec.push(member("memory", Json::string(self.spec.memory.as_str())));
        proof {
            assert(members_view(spec@) =~= json_of_vm_spec(self@.spec));
        }
        make_entity(
            self.api_version.as_str(),
            self.kind.as_str(),
            name_json(self.metadata.name.as_str()),
            spec,
        )
    }
}

impl Bridge {
    /// The JSON value that stands for the bridge.
    pub fn to_json(&self) -> (r: Json)
        ensures
            r@ == json_of_bridge(self@),
    {
        let mut spec: Vec<Member> = Vec::new();
        spec.push(member("address", Json::string(self.spec.address.as_str())));
        spec.push(member("dns_server", Json::string(self.spec.dns_server.as_str())));
        spec.push(member("dns_zone", Json::string(self.spec.dns_zone.as_str())));
        proof {
            assert(members_view(spec@) =~= json_of_bridge_spec(self@.spec));
        }
        make_entity(
            self.api_version.as_str(),
            self.kind.as_str(),
            name_json(self.metadata.name.as_str()),
            spec,
        )
    }
}

/// The keys of an entity are different texts.
pub proof fn lemma_entity_keys(
    version: Seq<char>,
    kind: Seq<char>,
    metadata: JsonView,
    spec: Seq<(Seq<char>, JsonView)>,
)
    ensures
        member_of(entity_of(version, kind, metadata, spec)->Object_0, "apiVersion"@) == Some(
            JsonView::Str(version),
        ),
        member_of(entity_of(version, kind, metadata, spec)->Object_0, "kind"@) == Some(
            JsonView::Str(kind),
        ),
        member_of(entity_of(version, kind, metadata, spec)->Object_0, "metadata"@) == Some(
            metadata,
        ),
        member_of(entity_of(version, kind, metadata, spec)->Object_0, "spec"@) == Some(
            JsonView::Object(spec),
        ),
{
    let ms = entity_of(version, kind, metadata, spec)->Object_0;
    reveal_strlit("apiVersion");
    reveal_strlit("kind");
    reveal_strlit("metadata");
    reveal_strlit("spec");
    assert("apiVersion"@[0] == 'a' && "kind"@[0] == 'k' && "metadata"@[0] == 'm' && "spec"@[0]
        == 's');
    assert(ms[0].0 == "apiVersion"@ && ms[1].0 == "kind"@ && ms[2].0 == "metadata"@ && ms[3].0
        == "spec"@);
    lemma_first_is_unique(ms, "apiVersion"@, 0);
    lemma_first_is_unique(ms, "kind"@, 1);
    lemma_first_is_unique(ms, "metadata"@, 2);
    lemma_first_is_unique(ms, "spec"@, 3);
}

/// The metadata of an entity gives its name back.
pub proof fn lemma_name_key(name: Seq<char>)
    ensures
        text_at(json_of_name(name)->Object_0, "name"@) == Some(name),
{
    let ms = json_of_name(name)->Object_0;
    assert(ms[0].0 == "name"@);
    lemma_first_is_unique(ms, "name"@, 0);
}

/// A guest that is written as JSON and read again is the same guest,
/// whatever the default MAC address.
pub proof fn lemma_vm_round_trip(v: VirtualMachineView, default_mac: Seq<char>)
    ensures
        vm_of_json(json_of_vm(v), default_mac) == Ok::<VirtualMachineView, ErrorView>(v),
{
    lemma_entity_keys(v.api_version, v.kind, json_of_name(v.name), json_of_vm_spec(v.spec));
    lemma_name_key(v.name);
    let sm = json_of_vm_spec(v.spec);
    reveal_strlit("bridge");
    reveal_strlit("cpus");
    reveal_strlit("disks");
    reveal_strlit("ip");
    reveal_strlit("mac");
    reveal_strlit("memory");
    assert("bridge"@[0] == 'b' && "cpus"@[0] == 'c' && "disks"@[0] == 'd' && "ip"@[0] == 'i'
        && "mac"@[1] == 'a' && "memory"@[1] == 'e');
    assert(sm[0].0 == "bridge"@ && sm[1].0 == "cpus"@ && sm[2].0 == "disks"@ && sm[3].0 == "ip"@
        && sm[4].0 == "mac"@ && sm[5].0 == "memory"@);
    lemma_first_is_unique(sm, "bridge"@, 0);
    lemma_first_is_unique(sm, "cpus"@, 1);
    lemma_first_is_unique(sm, "disks"@, 2);
    lemma_first_is_unique(sm, "ip"@, 3);
    lemma_first_is_unique(sm, "mac"@, 4);
    lemma_first_is_unique(sm, "memory"@, 5);
    assert(all_texts(json_of_texts(v.spec.disks)));
    assert(texts_of(json_of_texts(v.spec.disks)) =~= v.spec.disks);
    assert((v.spec.cpus as u64) as u8 == v.spec.cpus);
}

/// A bridge that is written as JSON and read again is the same bridge.
pub proof fn lemma_bridge_round_trip(v: BridgeView)
    ensures
        bridge_of_json(json_of_bridge(v)) == Ok::<BridgeView, ErrorView>(v),
{
    lemma_entity_keys(v.api_version, v.kind, json_of_name(v.name), json_of_bridge_spec(v.spec));
    lemma_name_key(v.name);
    let sm = json_of_bridge_spec(v.spec);
    reveal_strlit("address");
    reveal_strlit("dns_server");
    reveal_strlit("dns_zone");
    assert("address"@[0] == 'a' && "dns_server"@[4] == 's' && "dns_zone"@[4] == 'z');
    assert(sm[0].0 == "address"@ && sm[1].0 == "dns_server"@ && sm[2].0 == "dns_zone"@);
    lemma_first_is_unique(sm, "address"@, 0);
    lemma_first_is_unique(sm, "dns_server"@, 1);
    lemma_first_is_unique(sm, "dns_zone"@, 2);
}

/// The first field of a guest that has not the shape that the schema asks
/// for. Whether the disks exist is no matter of shape.
pub open spec fn first_invalid_vm(v: VirtualMachineView) -> Option<Field> {
    if v.spec.cpus < 1 {
        Some(Field::Cpus)
    } else if !is_memory_size(v.spec.memory) {
        Some(Field::Memory)
    } else if !is_ipv4(v.spec.ip) {
        Some(Field::Ip)
    } else if !is_mac(v.spec.mac) {
        Some(Field::Mac)
    } else if !is_dns_name(v.spec.bridge) {
        Some(Field::Bridge)
    } else if v.api_version != Kind::VirtualMachine.current_version() {
        Some(Field::ApiVersion)
    } else if v.kind != Kind::VirtualMachine.name_of() {
        Some(Field::Kind)
    } else if !is_dns_name(v.name) {
        Some(Field::Name)
    } else {
        None
    }
}

/// The first field of a bridge that has not the shape that the schema asks
/// for.
pub open spec fn first_invalid_bridge(v: BridgeView) -> Option<Field> {
    if !is_ipv4_net(v.spec.address) {
        Some(Field::Address)
    } else if !is_dns_name(v.spec.dns_zone) {
        Some(Field::DnsZone)
    } else if !is_ipv4(v.spec.dns_server) {
        Some(Field::DnsServer)
    } else if v.api_version != Kind::Bridge.current_version() {
        Some(Field::ApiVersion)
    } else if v.kind != Kind::Bridge.name_of() {
        Some(Field::Kind)
    } else if !is_dns_name(v.name) {
        Some(Field::Name)
    } else {
        None
    }
}

/// Whether the disk `i` is known to be there: a disk without a flag is not.
pub open spec fn disk_present(present: Seq<bool>, i: int) -> bool {
    0 <= i < present.len() && present[i]
}

/// The disk `i` is the first of `count` disks that is not known to be there.
pub open spec fn first_missing_disk(count: nat, present: Seq<bool>, i: int) -> bool {
    &&& 0 <= i < count
    &&& !disk_present(present, i)
    &&& forall|j: int| 0 <= j < i ==> #[trigger] disk_present(present, j)
}

impl VirtualMachine {
    /// Holds the guest to its schema: fails with the first field that has
    /// not the shape asked for.
    pub fn validate(&self) -> (r: Result<(), Error>)
        ensures
            match first_invalid_vm(self@) {
                None => r is Ok,
                Some(f) => r is Err && r->Err_0@ == ErrorView::SerializeValidation(f),
            },
    {
        if self.spec.cpus < 1 {
            Err(Error::SerializeValidation(Field::Cpus))
        } else if !matches_memory_size(self.spec.memory.as_str()) {
            Err(Error::SerializeValidation(Field::Memory))
        } else if !matches_ipv4(self.spec.ip.as_str()) {
            Err(Error::SerializeValidation(Field::Ip))
        } else if !matches_mac(self.spec.mac.as_str()) {
            Err(Error::SerializeValidation(Field::Mac))
        } else if !matches_dns_name(self.spec.bridge.as_str()) {
            Err(Error::SerializeValidation(Field::Bridge))
        } else if !same_text(self.api_version.as_str(), Kind::VirtualMachine.api_version()) {
            Err(Error::SerializeValidation(Field::ApiVersion))
        } else if !same_text(self.kind.as_str(), Kind::VirtualMachine.name()) {
            Err(Error::SerializeValidation(Field::Kind))
        } else if !matches_dns_name(self.metadata.name.as_str()) {
            Err(Error::SerializeValidation(Field::Name))
        } else {
            Ok(())
        }
    }
}

impl Bridge {
    /// Holds the bridge to its schema: fails with the first field that has
    /// not the shape asked for.
    pub fn validate(&self) -> (r: Result<(), Error>)
        ensures
            match first_invalid_bridge(self@) {
                None => r is Ok,
                Some(f) => r is Err && r->Err_0@ == ErrorView::SerializeValidation(f),
            },
    {
        if !matches_ipv4_net(self.spec.address.as_str()) {
            Err(Error::SerializeValidation(Field::Address))
        } else if !matches_dns_name(self.spec.dns_zone.as_str()) {
            Err(Error::SerializeValidation(Field::DnsZone))
        } else if !matches_ipv4(self.spec.dns_server.as_str()) {
            Err(Error::SerializeValidation(Field::DnsServer))
        } else if !same_text(self.api_version.as_str(), Kind::Bridge.api_version()) {
            Err(Error::SerializeValidation(Field::ApiVersion))
        } else if !same_text(self.kind.as_str(), Kind::Bridge.name()) {
            Err(Error::SerializeValidation(Field::Kind))
        } else if !matches_dns_name(self.metadata.name.as_str()) {
            Err(Error::SerializeValidation(Field::Name))
        } else {
            Ok(())
        }
    }
}

/// Holds the disks of a guest to what was found on the host: `present[i]`
/// says whether the disk `i` is there, and a disk without a flag counts as
/// missing. Fails with the place of the first missing disk.
pub fn disks_path_validation(paths: &Vec<String>, present: &Vec<bool>) -> (r: Result<(), usize>)
    ensures
        r is Ok ==> forall|j: int| 0 <= j < paths@.len() ==> #[trigger] disk_present(present@, j),
        r is Err ==> first_missing_disk(paths@.len(), present@, r->Err_0 as int),
{
    let mut i: usize = 0;
    while i < paths.len()
        invariant
            0 <= i <= paths@.len(),
            forall|j: int| 0 <= j < i ==> #[trigger] disk_present(present@, j),
        decreases paths@.len() - i,
    {
        if !(i < present.len() && present[i]) {
            return Err(i);
        }
        i = i + 1;
    }
    Ok(())
}

impl VirtualMachine {
    /// Holds the disks of the guest to what was found on the host, as
    /// `disks_path_validation` does: one disk that is not known to be there
    /// fails the guest.
    pub fn validate_disks(&self, present: &Vec<bool>) -> (r: Result<(), Error>)
        ensures
            r is Ok <==> forall|j: int|
                0 <= j < self@.spec.disks.len() ==> #[trigger] disk_present(present@, j),
            r is Err ==> r->Err_0@ == ErrorView::SerializeValidation(Field::Disks),
    {
        match disks_path_validation(&self.spec.disks, present) {
            Ok(_) => Ok(()),
            Err(i) => {
                assert(!disk_present(present@, i as int));
                Err(Error::SerializeValidation(Field::Disks))
            },
        }
    }
}

} // verus!
