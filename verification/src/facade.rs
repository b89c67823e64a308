//! Reading, listing and creating entities, between the store's raw values
//! and the typed entities.

use vstd::prelude::*;
use crate::entity::{Bridge, BridgeView, VirtualMachine, VirtualMachineView};
use crate::error::{Error, ErrorView, Kind, result_view};
use crate::json::{Json, JsonView};
use crate::migrate::{migrate_version, migrated};
use crate::schema::{
    bridge_of_json, first_invalid_bridge, first_invalid_vm, json_of_bridge,
    json_of_bridge_spec, json_of_name, json_of_vm, json_of_vm_spec, lemma_entity_keys,
    lemma_name_key, vm_of_json,
};
use crate::store::{key, key_of, kind_and_name_of};

verus! {

/// The guest that a value holds once it is valid in shape.
pub open spec fn vm_checked(j: JsonView, default_mac: Seq<char>) -> Result<
    VirtualMachineView,
    ErrorView,
> {
    match vm_of_json(j, default_mac) {
        Err(x) => Err(x),
        Ok(v) => match first_invalid_vm(v) {
            Some(f) => Err(ErrorView::SerializeValidation(f)),
            None => Ok(v),
        },
    }
}

/// The bridge that a value holds once it is valid in shape.
pub open spec fn bridge_checked(j: JsonView) -> Result<BridgeView, ErrorView> {
    match bridge_of_json(j) {
        Err(x) => Err(x),
        Ok(v) => match first_invalid_bridge(v) {
            Some(f) => Err(ErrorView::SerializeValidation(f)),
            None => Ok(v),
        },
    }
}

/// The guest that a stored value gives: brought to the current version,
/// read, and held to the schema.
pub open spec fn vm_read(e: JsonView, default_mac: Seq<char>) -> Result<
    VirtualMachineView,
    ErrorView,
> {
    match migrated(Kind::VirtualMachine, e) {
        Err(x) => Err(x),
        Ok(m) => vm_checked(m, default_mac),
    }
}

/// The bridge that a stored value gives: brought to the current version,
/// read, and held to the schema.
pub open spec fn bridge_read(e: JsonView) -> Result<BridgeView, ErrorView> {
    match migrated(Kind::Bridge, e) {
        Err(x) => Err(x),
        Ok(m) => bridge_checked(m),
    }
}

/// The stored values `0..i` all give a guest.
pub open spec fn vms_readable(stored: Seq<Json>, default_mac: Seq<char>, i: int) -> bool {
    forall|j: int| 0 <= j < i ==> (#[trigger] vm_read(stored[j]@, default_mac)) is Ok
}

/// The stored values `0..i` all give a bridge.
pub open spec fn bridges_readable(stored: Seq<Json>, i: int) -> bool {
    forall|j: int| 0 <= j < i ==> (#[trigger] bridge_read(stored[j]@)) is Ok
}

impl VirtualMachine {
    /// Reads a guest from a value that a caller sent, and holds it to the
    /// schema. The value must be in the current version already.
    pub fn from_json_value(j: &Json, default_mac: &str) -> (r: Result<VirtualMachine, Error>)
        ensures
            result_view(r) == vm_checked(j@, default_mac@),
    {
        let vm = match VirtualMachine::from_json(j, default_mac) {
            Ok(vm) => vm,
            Err(e) => {
                return Err(e);
            },
        };
        match vm.validate() {
            Ok(_) => Ok(vm),
            Err(e) => Err(e),
        }
    }

    /// Reads one stored value.
    pub fn read(stored: Json, default_mac: &str) -> (r: Result<VirtualMachine, Error>)
        ensures
            result_view(r) == vm_read(stored@, default_mac@),
            r is Ok ==> r->Ok_0@.api_version == Kind::VirtualMachine.current_version(),
    {
        match migrate_version(Kind::VirtualMachine, stored) {
            Ok(m) => VirtualMachine::from_json_value(&m, default_mac),
            Err(e) => Err(e),
        }
    }

    /// What the store found under a name, as a guest: nothing found is
    /// `NotFound`.
    pub fn get(found: Option<Json>, default_mac: &str) -> (r: Result<VirtualMachine, Error>)
        ensures
            found is None ==> r is Err && r->Err_0@ == ErrorView::NotFound,
            found is Some ==> result_view(r) == vm_read(found->Some_0@, default_mac@),
            r is Ok ==> r->Ok_0@.api_version == Kind::VirtualMachine.current_version(),
    {
        match found {
            None => Err(Error::NotFound),
            Some(stored) => VirtualMachine::read(stored, default_mac),
        }
    }

    /// All the stored values of the kind, as guests, in their order. One
    /// value that gives no guest fails the whole list, with the error of the
    /// first such value.
    pub fn list(stored: Vec<Json>, default_mac: &str) -> (r: Result<Vec<VirtualMachine>, Error>)
        ensures
            r is Ok <==> vms_readable(stored@, default_mac@, stored@.len() as int),
            r is Ok ==> r->Ok_0@.len() == stored@.len() && forall|i: int|
                0 <= i < stored@.len() ==> Ok::<VirtualMachineView, ErrorView>(
                    (#[trigger] r->Ok_0@[i])@,
                ) == vm_read(stored@[i]@, default_mac@) && r->Ok_0@[i]@.api_version
                    == Kind::VirtualMachine.current_version(),
            r is Err ==> exists|i: int|
                0 <= i < stored@.len() && vms_readable(stored@, default_mac@, i) && (
                #[trigger] vm_read(stored@[i]@, default_mac@)) == Err::<
                    VirtualMachineView,
                    ErrorView,
                >(r->Err_0@),
    {
        let ghost all = stored@;
        let mut rest = stored;
        let mut out: Vec<VirtualMachine> = Vec::new();
        let n = rest.len();
        let mut i: usize = 0;
        while i < n
            invariant
                0 <= i <= n,
                n == all.len(),
                all == stored@,
                rest@ == all.subrange(i as int, n as int),
                out@.len() == i,
                vms_readable(all, default_mac@, i as int),
                forall|j: int|
                    0 <= j < i ==> Ok::<VirtualMachineView, ErrorView>((#[trigger] out@[j])@)
                        == vm_read(all[j]@, default_mac@) && out@[j]@.api_version
                        == Kind::VirtualMachine.current_version(),
            decreases n - i,
        {
            let e = rest.remove(0);
            assert(e == all[i as int]);
            assert(rest@ =~= all.subrange(i + 1, n as int));
            match VirtualMachine::read(e, default_mac) {
                Ok(vm) => {
                    out.push(vm);
                },
                Err(x) => {
                    assert(vm_read(all[i as int]@, default_mac@) == Err::<
                        VirtualMachineView,
                        ErrorView,
                    >(x@));
                    assert(!vms_readable(all, default_mac@, all.len() as int));
                    return Err(x);
                },
            }
            i = i + 1;
        }
        Ok(out)
    }

    /// What a create writes: the key, and the value under it. A guest that
    /// is not valid in shape is not written.
    pub fn create(&self) -> (r: Result<(String, Json), Error>)
        ensures
            match first_invalid_vm(self@) {
                Some(f) => r is Err && r->Err_0@ == ErrorView::SerializeValidation(f),
                None => r is Ok && r->Ok_0.0@ == key_of(self@.kind, self@.name) && r->Ok_0.1@
                    == json_of_vm(self@),
            },
    {
        match self.validate() {
            Err(e) => Err(e),
            Ok(_) => Ok(
                (key(self.kind.as_str(), self.metadata.name.as_str()), self.to_json()),
            ),
        }
    }
}

impl Bridge {
    /// Reads a bridge from a value that a caller sent, and holds it to the
    /// schema. The value must be in the current version already.
    pub fn from_json_value(j: &Json) -> (r: Result<Bridge, Error>)
        ensures
            result_view(r) == bridge_checked(j@),
    {
        let bridge = match Bridge::from_json(j) {
            Ok(b) => b,
            Err(e) => {
                return Err(e);
            },
        };
        match bridge.validate() {
            Ok(_) => Ok(bridge),
            Err(e) => Err(e),
        }
    }

    /// Reads one stored value.
    pub fn read(stored: Json) -> (r: Result<Bridge, Error>)
        ensures
            result_view(r) == bridge_read(stored@),
            r is Ok ==> r->Ok_0@.api_version == Kind::Bridge.current_version(),
    {
        match migrate_version(Kind::Bridge, stored) {
            Ok(m) => Bridge::from_json_value(&m),
            Err(e) => Err(e),
        }
    }

    /// What the store found under a name, as a bridge: nothing found is
    /// `NotFound`.
    pub fn get(found: Option<Json>) -> (r: Result<Bridge, Error>)
        ensures
            found is None ==> r is Err && r->Err_0@ == ErrorView::NotFound,
            found is Some ==> result_view(r) == bridge_read(found->Some_0@),
            r is Ok ==> r->Ok_0@.api_version == Kind::Bridge.current_version(),
    {
        match found {
            None => Err(Error::NotFound),
            Some(stored) => Bridge::read(stored),
        }
    }

    /// All the stored values of the kind, as bridges, in their order. One
    /// value that gives no bridge fails the whole list, with the error of
    /// the first such value.
    pub fn list(stored: Vec<Json>) -> (r: Result<Vec<Bridge>, Error>)
        ensures
            r is Ok <==> bridges_readable(stored@, stored@.len() as int),
            r is Ok ==> r->Ok_0@.len() == stored@.len() && forall|i: int|
                0 <= i < stored@.len() ==> Ok::<BridgeView, ErrorView>((#[trigger] r->Ok_0@[i])@)
                    == bridge_read(stored@[i]@) && r->Ok_0@[i]@.api_version
                    == Kind::Bridge.current_version(),
            r is Err ==> exists|i: int|
                0 <= i < stored@.len() && bridges_readable(stored@, i) && (#[trigger] bridge_read(
                    stored@[i]@,
                )) == Err::<BridgeView, ErrorView>(r->Err_0@),
    {
        let ghost all = stored@;
        let mut rest = stored;
        let mut out: Vec<Bridge> = Vec::new();
        let n = rest.len();
        let mut i: usize = 0;
        while i < n
            invariant
                0 <= i <= n,
                n == all.len(),
                all == stored@,
                rest@ == all.subrange(i as int, n as int),
                out@.len() == i,
                bridges_readable(all, i as int),
                forall|j: int|
                    0 <= j < i ==> Ok::<BridgeView, ErrorView>((#[trigger] out@[j])@)
                        == bridge_read(all[j]@) && out@[j]@.api_version
                        == Kind::Bridge.current_version(),
            decreases n - i,
        {
            let e = rest.remove(0);
            assert(e == all[i as int]);
            assert(rest@ =~= all.subrange(i + 1, n as int));
            match Bridge::read(e) {
                Ok(b) => {
                    out.push(b);
                },
                Err(x) => {
                    assert(bridge_read(all[i as int]@) == Err::<BridgeView, ErrorView>(x@));
                    assert(!bridges_readable(all, all.len() as int));
                    return Err(x);
                },
            }
            i = i + 1;
        }
        Ok(out)
    }

    /// What a create writes: the key, and the value under it. A bridge that
    /// is not valid in shape is not written.
    pub fn create(&self) -> (r: Result<(String, Json), Error>)
        ensures
            match first_invalid_bridge(self@) {
                Some(f) => r is Err && r->Err_0@ == ErrorView::SerializeValidation(f),
                None => r is Ok && r->Ok_0.0@ == key_of(self@.kind, self@.name) && r->Ok_0.1@
                    == json_of_bridge(self@),
            },
    {
        match self.validate() {
            Err(e) => Err(e),
            Ok(_) => Ok(
                (key(self.kind.as_str(), self.metadata.name.as_str()), self.to_json()),
            ),
        }
    }
}

/// The value that a create writes for a guest gives, for its key, the kind
/// and the name of the guest: it is read back under the key it was written
/// under.
pub proof fn lemma_created_vm_key(v: VirtualMachineView)
    ensures
        kind_and_name_of(json_of_vm(v)) == Ok::<(Seq<char>, Seq<char>), ErrorView>(
            (v.kind, v.name),
        ),
{
    lemma_entity_keys(v.api_version, v.kind, json_of_name(v.name), json_of_vm_spec(v.spec));
    lemma_name_key(v.name);
}

/// The value that a create writes for a bridge gives, for its key, the kind
/// and the name of the bridge.
pub proof fn lemma_created_bridge_key(v: BridgeView)
    ensures
        kind_and_name_of(json_of_bridge(v)) == Ok::<(Seq<char>, Seq<char>), ErrorView>(
            (v.kind, v.name),
        ),
{
    lemma_entity_keys(v.api_version, v.kind, json_of_name(v.name), json_of_bridge_spec(v.spec));
    lemma_name_key(v.name);
}

} // verus!
