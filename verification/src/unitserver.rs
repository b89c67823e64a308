//! One pass of the reconciler: what the host should hold for the bridges and
//! guests of a snapshot, and what has to be done for it.

use vstd::prelude::*;
use vstd::string::*;
use crate::entity::{Bridge, BridgeView, VirtualMachine, VirtualMachineView};
use crate::systemd::{
    bridge_netdev_of, bridge_network_of, create_bridge, create_bridge_network, differs,
    generate_vm_service, get_unit_path, has_diffs, ipv4_net_texts, leases_view, network_path_of,
    pairs_view, read_view, tap_service_of, unit_path_of, vm_service_of, Lease, LeaseView,
    SystemdUnitCreationError, UnitFile,
};

verus! {

/// The guests as the contracts speak of them.
pub open spec fn vm_views(v: Seq<VirtualMachine>) -> Seq<VirtualMachineView> {
    Seq::new(v.len(), |i: int| v[i]@)
}

/// The bridges as the contracts speak of them.
pub open spec fn bridge_views(v: Seq<Bridge>) -> Seq<BridgeView> {
    Seq::new(v.len(), |i: int| v[i]@)
}

/// One lease for each guest that is attached to the bridge, in the order of
/// the guests.
pub open spec fn leases_on(vms: Seq<VirtualMachineView>, bridge: Seq<char>) -> Seq<LeaseView>
    decreases vms.len(),
{
    if vms.len() == 0 {
        seq![]
    } else {
        let rest = leases_on(vms.drop_last(), bridge);
        if vms.last().spec.bridge == bridge {
            rest.push(LeaseView { mac: vms.last().spec.mac, ip: vms.last().spec.ip })
        } else {
            rest
        }
    }
}

/// One lease for each guest that is attached to the bridge. A guest whose
/// bridge is not there has no lease anywhere.
pub fn leases_for(vms: &Vec<VirtualMachine>, bridge: &str) -> (r: Vec<Lease>)
    ensures
        leases_view(r@) == leases_on(vm_views(vms@), bridge@),
{
    let mut out: Vec<Lease> = Vec::new();
    let mut i: usize = 0;
    assert(vm_views(vms@).subrange(0, 0) =~= seq![]);
    while i < vms.len()
        invariant
            0 <= i <= vms@.len(),
            leases_view(out@) == leases_on(vm_views(vms@).subrange(0, i as int), bridge@),
        decreases vms@.len() - i,
    {
        let ghost before = vm_views(vms@).subrange(0, i as int);
        let ghost after = vm_views(vms@).subrange(0, i + 1);
        assert(after.drop_last() =~= before);
        assert(after.last() == vms@[i as int]@);
        let ghost old_out = leases_view(out@);
        if crate::text::same_text(vms[i].spec.bridge.as_str(), bridge) {
            out.push(Lease { mac: vms[i].spec.mac.clone(), ip: vms[i].spec.ip.clone() });
            assert(leases_view(out@) =~= old_out.push(
                LeaseView { mac: vms@[i as int]@.spec.mac, ip: vms@[i as int]@.spec.ip },
            ));
        }
        i = i + 1;
    }
    assert(vm_views(vms@).subrange(0, vms@.len() as int) =~= vm_views(vms@));
    out
}

/// Whether `r` is what one pass owes for a bridge with the given leases: its
/// device unit and its network unit, or the first error on the way.
pub open spec fn bridge_units_match(
    r: Result<(UnitFile, UnitFile), SystemdUnitCreationError>,
    bridge: BridgeView,
    leases: Seq<LeaseView>,
    dns_listener: Seq<char>,
) -> bool {
    match bridge_netdev_of(bridge.name) {
        None => r == Err::<(UnitFile, UnitFile), SystemdUnitCreationError>(
            SystemdUnitCreationError::Handlebars,
        ),
        Some(netdev) => match ipv4_net_texts(bridge.spec.address) {
            None => r == Err::<(UnitFile, UnitFile), SystemdUnitCreationError>(
                SystemdUnitCreationError::Address,
            ),
            Some(net) => match bridge_network_of(
                bridge.name,
                bridge.spec.dns_zone,
                net.0,
                net.1,
                dns_listener,
                bridge.spec.dns_server,
                leases,
            ) {
                None => r == Err::<(UnitFile, UnitFile), SystemdUnitCreationError>(
                    SystemdUnitCreationError::Handlebars,
                ),
                Some(network) => {
                    &&& r is Ok
                    &&& r->Ok_0.0.path@ == network_path_of(bridge.name, "netdev"@)
                    &&& r->Ok_0.0.body@ == netdev
                    &&& r->Ok_0.1.path@ == network_path_of(bridge.name, "network"@)
                    &&& r->Ok_0.1.body@ == network
                },
            },
        },
    }
}

/// The two units of a bridge: what they hold depends on the bridge, on the
/// guests attached to it and on the DNS listener, and on nothing else.
pub fn reconcile_bridge(bridge: &Bridge, vms: &Vec<VirtualMachine>, dns_listener: &str) -> (r:
    Result<(UnitFile, UnitFile), SystemdUnitCreationError>)
    ensures
        bridge_units_match(
            r,
            bridge@,
            leases_on(vm_views(vms@), bridge@.name),
            dns_listener@,
        ),
{
    let name = bridge.metadata.name.as_str();
    let leases = leases_for(vms, name);
    let netdev = match create_bridge(name) {
        Ok(unit) => unit,
        Err(e) => {
            return Err(e);
        },
    };
    match create_bridge_network(
        name,
        bridge.spec.dns_zone.as_str(),
        bridge.spec.address.as_str(),
        dns_listener,
        bridge.spec.dns_server.as_str(),
        &leases,
    ) {
        Ok(network) => Ok((netdev, network)),
        Err(e) => Err(e),
    }
}

/// One pass over the bridges: for each bridge its units or its error, in
/// the order of the bridges. The error of one bridge leaves the others as
/// they are.
pub fn reconcile_bridges(bridges: &Vec<Bridge>, vms: &Vec<VirtualMachine>, dns_listener: &str) -> (r:
    Vec<Result<(UnitFile, UnitFile), SystemdUnitCreationError>>)
    ensures
        r@.len() == bridges@.len(),
        forall|i: int|
            0 <= i < bridges@.len() ==> bridge_units_match(
                #[trigger] r@[i],
                bridges@[i]@,
                leases_on(vm_views(vms@), bridges@[i]@.name),
                dns_listener@,
            ),
{
    let mut out: Vec<Result<(UnitFile, UnitFile), SystemdUnitCreationError>> = Vec::new();
    let mut i: usize = 0;
    while i < bridges.len()
        invariant
            0 <= i <= bridges@.len(),
            out@.len() == i,
            forall|j: int|
                0 <= j < i ==> bridge_units_match(
                    #[trigger] out@[j],
                    bridges@[j]@,
                    leases_on(vm_views(vms@), bridges@[j]@.name),
                    dns_listener@,
                ),
        decreases bridges@.len() - i,
    {
        out.push(reconcile_bridge(&bridges[i], vms, dns_listener));
        i = i + 1;
    }
    out
}

/// The mode in which the unit of a guest is started.
pub const START_MODE: &'static str = "replace";

/// A service unit: the name under which systemd loads it, where it is
/// written, and what it holds.
#[derive(Clone, Debug, PartialEq, Eq)]
pub struct ServiceUnit {
    pub unit: String,
    pub path: String,
    pub body: String,
}

/// What one pass does for a guest.
#[derive(Clone, Debug, PartialEq, Eq)]
pub enum VmAction {
    /// The units are on the host as they should be.
    Skip,
    /// Write and load each of `files`, then start the unit `start` in the
    /// mode `START_MODE`.
    Apply { files: Vec<ServiceUnit>, start: String },
}

/// Whether `u` is the service unit with the given key and body.
pub open spec fn is_service_unit(u: ServiceUnit, key: Seq<char>, body: Seq<char>) -> bool {
    &&& u.unit@ == key + ".service"@
    &&& u.path@ == unit_path_of(key)
    &&& u.body@ == body
}

/// Whether `a` is what one pass owes for a guest. Units that cannot be
/// rendered are not written, and the guest is started all the same.
pub open spec fn vm_action_matches(
    a: VmAction,
    name: Seq<char>,
    bridge: Seq<char>,
    self_exe: Seq<char>,
    on_disk: Seq<Option<Seq<char>>>,
) -> bool {
    match (vm_service_of(name, bridge, self_exe), tap_service_of(name, bridge, self_exe)) {
        (Some(vm), Some(tap)) => if differs(
            seq![("tinyvmi-"@ + name, vm), ("tinyvmi-tap-"@ + name, tap)],
            on_disk,
        ) {
            &&& a is Apply
            &&& a->start@ == "tinyvmi-"@ + name + ".service"@
            &&& a->files@.len() == 2
            &&& is_service_unit(a->files@[0], "tinyvmi-"@ + name, vm)
            &&& is_service_unit(a->files@[1], "tinyvmi-tap-"@ + name, tap)
        } else {
            a is Skip
        },
        _ => a is Apply && a->files@.len() == 0 && a->start@ == "tinyvmi-"@ + name + ".service"@,
    }
}

/// The paths of the two units of a guest: first that of its service, then
/// that of the service of its tap.
pub fn vm_unit_paths(name: &str) -> (r: Vec<String>)
    ensures
        r@.len() == 2,
        r@[0]@ == unit_path_of("tinyvmi-"@ + name@),
        r@[1]@ == unit_path_of("tinyvmi-tap-"@ + name@),
{
    let mut out: Vec<String> = Vec::new();
    out.push(get_unit_path(crate::systemd::get_systemd_unit_name(name).as_str()));
    out.push(get_unit_path(crate::systemd::get_systemd_tap_unit_name(name).as_str()));
    out
}

/// What one pass does for the guest `vm`. `on_disk` holds what was read at
/// the paths of its two units, nothing where a read failed. A guest whose
/// units are on the host byte for byte is passed over.
pub fn reconcile_vm(vm: &VirtualMachine, self_exe: &str, on_disk: &Vec<Option<String>>) -> (r:
    VmAction)
    ensures
        vm_action_matches(r, vm@.name, vm@.spec.bridge, self_exe@, read_view(on_disk@)),
{
    let name = vm.metadata.name.as_str();
    let mut start = crate::systemd::get_systemd_unit_name(name);
    start.append(".service");
    let mut units = match generate_vm_service(name, vm.spec.bridge.as_str(), self_exe) {
        Ok(units) => units,
        Err(_) => {
            return VmAction::Apply { files: Vec::new(), start };
        },
    };
    if !has_diffs(&units, on_disk) {
        return VmAction::Skip;
    }
    let ghost rendered = pairs_view(units@);
    let tap = units.remove(1);
    let vmu = units.remove(0);
    assert(tap.0@ == rendered[1].0 && tap.1@ == rendered[1].1);
    assert(vmu.0@ == rendered[0].0 && vmu.1@ == rendered[0].1);
    let mut files: Vec<ServiceUnit> = Vec::new();
    files.push(service_unit(vmu.0, vmu.1));
    files.push(service_unit(tap.0, tap.1));
    VmAction::Apply { files, start }
}

/// The service unit with the given key and body.
fn service_unit(key: String, body: String) -> (u: ServiceUnit)
    ensures
        is_service_unit(u, key@, body@),
{
    let path = get_unit_path(key.as_str());
    let mut unit = key;
    unit.append(".service");
    ServiceUnit { unit, path, body }
}

/// After a pass has written the units of a guest, a second pass over the
/// same state passes the guest over.
pub proof fn lemma_second_pass_skips(
    a: VmAction,
    name: Seq<char>,
    bridge: Seq<char>,
    self_exe: Seq<char>,
)
    requires
        vm_service_of(name, bridge, self_exe) is Some,
        tap_service_of(name, bridge, self_exe) is Some,
        vm_action_matches(
            a,
            name,
            bridge,
            self_exe,
            seq![vm_service_of(name, bridge, self_exe), tap_service_of(name, bridge, self_exe)],
        ),
    ensures
        a is Skip,
{
    let units = seq![
        ("tinyvmi-"@ + name, vm_service_of(name, bridge, self_exe)->Some_0),
        ("tinyvmi-tap-"@ + name, tap_service_of(name, bridge, self_exe)->Some_0),
    ];
    let on_disk = seq![
        vm_service_of(name, bridge, self_exe),
        tap_service_of(name, bridge, self_exe),
    ];
    assert forall|i: int| 0 <= i < units.len() implies !#[trigger] crate::systemd::unit_differs(
        units,
        on_disk,
        i,
    ) by {}
}

} // verus!
