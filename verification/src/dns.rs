//! The zones that the DNS server answers for.

use vstd::prelude::*;
use vstd::string::*;
use crate::entity::{Bridge, VirtualMachine, VirtualMachineView};
use crate::unitserver::vm_views;

verus! {

/// The time to live of every address record, in seconds.
pub const RECORD_TTL: u32 = 500;

/// The address record of a guest.
#[derive(Clone, Debug, PartialEq, Eq)]
pub struct Record {
    pub owner: String,
    pub ttl: u32,
    pub address: String,
}

/// The zone of a bridge with the records of its guests.
#[derive(Clone, Debug, PartialEq, Eq)]
pub struct Zone {
    pub origin: String,
    pub records: Vec<Record>,
}

pub struct RecordView {
    pub owner: Seq<char>,
    pub ttl: u32,
    pub address: Seq<char>,
}

impl View for Record {
    type V = RecordView;

    open spec fn view(&self) -> RecordView {
        RecordView { owner: self.owner@, ttl: self.ttl, address: self.address@ }
    }
}

/// The records as the contracts speak of them.
pub open spec fn records_view(v: Seq<Record>) -> Seq<RecordView> {
    Seq::new(v.len(), |i: int| v[i]@)
}

/// The record of a guest in a zone: its name, a dot and the zone own it.
pub open spec fn record_of(vm: VirtualMachineView, zone: Seq<char>) -> RecordView {
    RecordView { owner: vm.name + "."@ + zone, ttl: RECORD_TTL, address: vm.spec.ip }
}

/// One record for each guest that is attached to the bridge, in the order of
/// the guests.
pub open spec fn records_on(vms: Seq<VirtualMachineView>, bridge: Seq<char>, zone: Seq<char>) -> Seq<
    RecordView,
>
    decreases vms.len(),
{
    if vms.len() == 0 {
        seq![]
    } else {
        let rest = records_on(vms.drop_last(), bridge, zone);
        if vms.last().spec.bridge == bridge {
            rest.push(record_of(vms.last(), zone))
        } else {
            rest
        }
    }
}

/// The records of the guests that are attached to the bridge `bridge`,
/// which serves the zone `zone`.
pub fn records_for(vms: &Vec<VirtualMachine>, bridge: &str, zone: &str) -> (r: Vec<Record>)
    ensures
        records_view(r@) == records_on(vm_views(vms@), bridge@, zone@),
{
    let mut out: Vec<Record> = Vec::new();
    let mut i: usize = 0;
    assert(vm_views(vms@).subrange(0, 0) =~= seq![]);
    while i < vms.len()
        invariant
            0 <= i <= vms@.len(),
            records_view(out@) == records_on(vm_views(vms@).subrange(0, i as int), bridge@, zone@),
        decreases vms@.len() - i,
    {
        let ghost before = vm_views(vms@).subrange(0, i as int);
        let ghost after = vm_views(vms@).subrange(0, i + 1);
        assert(after.drop_last() =~= before);
        assert(after.last() == vms@[i as int]@);
        let ghost old_out = records_view(out@);
        if crate::text::same_text(vms[i].spec.bridge.as_str(), bridge) {
            let mut owner = vms[i].metadata.name.clone();
            owner.append(".");
            owner.append(zone);
            out.push(Record { owner, ttl: RECORD_TTL, address: vms[i].spec.ip.clone() });
            assert(records_view(out@) =~= old_out.push(record_of(vms@[i as int]@, zone@)));
        }
        i = i + 1;
    }
    assert(vm_views(vms@).subrange(0, vms@.len() as int) =~= vm_views(vms@));
    out
}

/// One zone for each bridge, in the order of the bridges: its origin is the
/// zone that the bridge serves, and it holds one record for each guest that
/// is attached to the bridge.
pub fn zones(bridges: &Vec<Bridge>, vms: &Vec<VirtualMachine>) -> (r: Vec<Zone>)
    ensures
        r@.len() == bridges@.len(),
        forall|i: int|
            0 <= i < bridges@.len() ==> (#[trigger] r@[i]).origin@ == bridges@[i]@.spec.dns_zone
                && records_view(r@[i].records@) == records_on(
                vm_views(vms@),
                bridges@[i]@.name,
                bridges@[i]@.spec.dns_zone,
            ),
{
    let mut out: Vec<Zone> = Vec::new();
    let mut i: usize = 0;
    while i < bridges.len()
        invariant
            0 <= i <= bridges@.len(),
            out@.len() == i,
            forall|j: int|
                0 <= j < i ==> (#[trigger] out@[j]).origin@ == bridges@[j]@.spec.dns_zone
                    && records_view(out@[j].records@) == records_on(
                    vm_views(vms@),
                    bridges@[j]@.name,
                    bridges@[j]@.spec.dns_zone,
                ),
        decreases bridges@.len() - i,
    {
        let bridge = &bridges[i];
        let records = records_for(
            vms,
            bridge.metadata.name.as_str(),
            bridge.spec.dns_zone.as_str(),
        );
        out.push(Zone { origin: bridge.spec.dns_zone.clone(), records });
        i = i + 1;
    }
    out
}

/// The place of the first colon of a text, or its length where it has none.
pub open spec fn host_end(listen: Seq<char>, end: int) -> bool {
    &&& 0 <= end <= listen.len()
    &&& forall|i: int| 0 <= i < end ==> #[trigger] listen[i] != ':'
    &&& end < listen.len() ==> listen[end] == ':'
}

/// The host on which the DNS server listens: of its address, what
/// stands before the first colon.
pub fn dns_listener(listen_dns: &str) -> (r: String)
    ensures
        exists|end: int| #[trigger]
            host_end(listen_dns@, end) && r@ == listen_dns@.subrange(0, end),
{
    let n = listen_dns.unicode_len();
    let mut i: usize = 0;
    while i < n && listen_dns.get_char(i) != ':'
        invariant
            0 <= i <= n,
            n == listen_dns@.len(),
            forall|j: int| 0 <= j < i ==> #[trigger] listen_dns@[j] != ':',
        decreases n - i,
    {
        i = i + 1;
    }
    assert(host_end(listen_dns@, i as int));
    String::from_str(listen_dns.substring_char(0, i))
}

} // verus!
