//! What holds of a stored guest of an earlier version when it is read.

use vstd::prelude::*;
use crate::entity::{VirtualMachineSpecView, VirtualMachineView};
use crate::error::{ErrorView, Kind};
use crate::facade::{vm_checked, vm_read};
use crate::json::{
    lemma_absent, lemma_first_is_unique, member_of, with_member, without_member,
    JsonView,
};
use crate::migrate::{
    entity_of, lemma_versions_differ, migrated, migrated_v1alpha1, migrated_v1alpha2, version_of,
};
use crate::patterns::{is_dns_name, is_ipv4, is_mac, is_memory_size};
use crate::schema::{
    all_texts, first_invalid_vm, json_of_name, lemma_entity_keys, lemma_name_key, texts_of,
    vm_of_json, vm_spec_of_json,
};

verus! {

/// The spec of a guest as the first version of the schema writes it.
pub open spec fn first_version_spec(
    cpus: u8,
    memory: Seq<char>,
    disk: Seq<char>,
    ip: Seq<char>,
    mac: Seq<char>,
) -> Seq<(Seq<char>, JsonView)> {
    seq![
        ("cpus"@, JsonView::PosInt(cpus as u64)),
        ("disk"@, JsonView::Str(disk)),
        ("ip"@, JsonView::Str(ip)),
        ("mac"@, JsonView::Str(mac)),
        ("memory"@, JsonView::Str(memory)),
    ]
}

/// The spec of a guest as the second version of the schema writes it.
pub open spec fn second_version_spec(
    cpus: u8,
    memory: Seq<char>,
    disk: Seq<char>,
    ip: Seq<char>,
    mac: Seq<char>,
    bridge: Seq<char>,
) -> Seq<(Seq<char>, JsonView)> {
    first_version_spec(cpus, memory, disk, ip, mac).push(("bridge"@, JsonView::Str(bridge)))
}

/// The spec that the chain makes of `second_version_spec`.
pub open spec fn current_spec(
    cpus: u8,
    memory: Seq<char>,
    disk: Seq<char>,
    ip: Seq<char>,
    mac: Seq<char>,
    bridge: Seq<char>,
) -> Seq<(Seq<char>, JsonView)> {
    seq![
        ("cpus"@, JsonView::PosInt(cpus as u64)),
        ("ip"@, JsonView::Str(ip)),
        ("mac"@, JsonView::Str(mac)),
        ("memory"@, JsonView::Str(memory)),
        ("bridge"@, JsonView::Str(bridge)),
        ("disks"@, JsonView::Array(seq![JsonView::Str(disk)])),
    ]
}

/// The keys of a spec are different texts.
proof fn lemma_spec_keys_differ()
    ensures
        "cpus"@ != "disk"@,
        "cpus"@ != "ip"@,
        "cpus"@ != "mac"@,
        "cpus"@ != "memory"@,
        "cpus"@ != "bridge"@,
        "cpus"@ != "disks"@,
        "disk"@ != "ip"@,
        "disk"@ != "mac"@,
        "disk"@ != "memory"@,
        "disk"@ != "bridge"@,
        "disk"@ != "disks"@,
        "ip"@ != "mac"@,
        "ip"@ != "memory"@,
        "ip"@ != "bridge"@,
        "ip"@ != "disks"@,
        "mac"@ != "memory"@,
        "mac"@ != "bridge"@,
        "mac"@ != "disks"@,
        "memory"@ != "bridge"@,
        "memory"@ != "disks"@,
        "bridge"@ != "disks"@,
{
    reveal_strlit("cpus");
    reveal_strlit("disk");
    reveal_strlit("ip");
    reveal_strlit("mac");
    reveal_strlit("memory");
    reveal_strlit("bridge");
    reveal_strlit("disks");
    assert("cpus"@[0] == 'c' && "disk"@[0] == 'd' && "memory"@[0] == 'm' && "bridge"@[0] == 'b');
    assert("cpus"@.len() == 4 && "disk"@.len() == 4 && "ip"@.len() == 2 && "mac"@.len() == 3
        && "memory"@.len() == 6 && "bridge"@.len() == 6 && "disks"@.len() == 5);
}

/// The legacy bridge has a name that the schema admits.
proof fn lemma_legacy_bridge_is_a_name()
    ensures
        is_dns_name("tvbr0"@),
{
    reveal_strlit("tvbr0");
    let s = "tvbr0"@;
    assert(s[0] == 't' && s[1] == 'v' && s[2] == 'b' && s[3] == 'r' && s[4] == '0');
}

/// The first step of the chain takes a spec of the first version to the
/// second.
proof fn lemma_first_step_on_spec(
    cpus: u8,
    memory: Seq<char>,
    disk: Seq<char>,
    ip: Seq<char>,
    mac: Seq<char>,
)
    ensures
        with_member(
            first_version_spec(cpus, memory, disk, ip, mac),
            "bridge"@,
            JsonView::Str("tvbr0"@),
        ) == second_version_spec(cpus, memory, disk, ip, mac, "tvbr0"@),
{
    lemma_spec_keys_differ();
    let s1 = first_version_spec(cpus, memory, disk, ip, mac);
    assert(s1[0].0 == "cpus"@ && s1[1].0 == "disk"@ && s1[2].0 == "ip"@ && s1[3].0 == "mac"@
        && s1[4].0 == "memory"@);
    lemma_absent(s1, "bridge"@);
}

/// The second step of the chain takes a spec of the second version to the
/// current one.
proof fn lemma_second_step_on_spec(
    cpus: u8,
    memory: Seq<char>,
    disk: Seq<char>,
    ip: Seq<char>,
    mac: Seq<char>,
    bridge: Seq<char>,
)
    ensures
        member_of(second_version_spec(cpus, memory, disk, ip, mac, bridge), "disk"@) == Some(
            JsonView::Str(disk),
        ),
        with_member(
            without_member(second_version_spec(cpus, memory, disk, ip, mac, bridge), "disk"@),
            "disks"@,
            JsonView::Array(seq![JsonView::Str(disk)]),
        ) == current_spec(cpus, memory, disk, ip, mac, bridge),
{
    lemma_spec_keys_differ();
    let s2 = second_version_spec(cpus, memory, disk, ip, mac, bridge);
    assert(s2.len() == 6);
    assert(s2[0].0 == "cpus"@ && s2[1].0 == "disk"@ && s2[2].0 == "ip"@ && s2[3].0 == "mac"@
        && s2[4].0 == "memory"@ && s2[5].0 == "bridge"@);
    lemma_first_is_unique(s2, "disk"@, 1);
    let s3 = without_member(s2, "disk"@);
    assert(s3 == s2.remove(1));
    assert(s3.len() == 5);
    assert(s3[0].0 == "cpus"@ && s3[1].0 == "ip"@ && s3[2].0 == "mac"@ && s3[3].0 == "memory"@
        && s3[4].0 == "bridge"@);
    lemma_absent(s3, "disks"@);
    let s4 = with_member(s3, "disks"@, JsonView::Array(seq![JsonView::Str(disk)]));
    assert(s4 =~= current_spec(cpus, memory, disk, ip, mac, bridge));
}

/// The current spec reads as the guest that it stands for.
proof fn lemma_current_spec_reads(
    cpus: u8,
    memory: Seq<char>,
    disk: Seq<char>,
    ip: Seq<char>,
    mac: Seq<char>,
    bridge: Seq<char>,
    default_mac: Seq<char>,
)
    ensures
        vm_spec_of_json(current_spec(cpus, memory, disk, ip, mac, bridge), default_mac) == Ok::<
            VirtualMachineSpecView,
            ErrorView,
        >(VirtualMachineSpecView { cpus, memory, disks: seq![disk], ip, mac, bridge }),
{
    lemma_spec_keys_differ();
    let sm = current_spec(cpus, memory, disk, ip, mac, bridge);
    assert(sm[0].0 == "cpus"@ && sm[1].0 == "ip"@ && sm[2].0 == "mac"@ && sm[3].0 == "memory"@
        && sm[4].0 == "bridge"@ && sm[5].0 == "disks"@);
    lemma_first_is_unique(sm, "cpus"@, 0);
    lemma_first_is_unique(sm, "ip"@, 1);
    lemma_first_is_unique(sm, "mac"@, 2);
    lemma_first_is_unique(sm, "memory"@, 3);
    lemma_first_is_unique(sm, "bridge"@, 4);
    lemma_first_is_unique(sm, "disks"@, 5);
    let items = seq![JsonView::Str(disk)];
    assert(all_texts(items));
    assert(texts_of(items) =~= seq![disk]);
    assert((cpus as u64) as u8 == cpus);
}

/// A stored guest of the second version whose fields have the shapes that
/// the schema asks for is read as a valid guest of the current version: its
/// one disk is its list of disks.
pub proof fn lemma_second_version_is_read(
    name: Seq<char>,
    cpus: u8,
    memory: Seq<char>,
    disk: Seq<char>,
    ip: Seq<char>,
    mac: Seq<char>,
    bridge: Seq<char>,
    default_mac: Seq<char>,
)
    requires
        is_dns_name(name),
        cpus >= 1,
        is_memory_size(memory),
        is_ipv4(ip),
        is_mac(mac),
        is_dns_name(bridge),
    ensures
        vm_read(
            entity_of(
                "v1alpha2"@,
                "VirtualMachine"@,
                json_of_name(name),
                second_version_spec(cpus, memory, disk, ip, mac, bridge),
            ),
            default_mac,
        ) == Ok::<VirtualMachineView, ErrorView>(
            VirtualMachineView {
                spec: VirtualMachineSpecView { cpus, memory, disks: seq![disk], ip, mac, bridge },
                api_version: "v1alpha3"@,
                kind: "VirtualMachine"@,
                name,
            },
        ),
{
    lemma_versions_differ();
    let md = json_of_name(name);
    let s2 = second_version_spec(cpus, memory, disk, ip, mac, bridge);
    let e2 = entity_of("v1alpha2"@, "VirtualMachine"@, md, s2);
    lemma_entity_keys("v1alpha2"@, "VirtualMachine"@, md, s2);
    assert(version_of(e2) == Ok::<Seq<char>, ErrorView>("v1alpha2"@));
    lemma_second_step_on_spec(cpus, memory, disk, ip, mac, bridge);
    let s4 = current_spec(cpus, memory, disk, ip, mac, bridge);
    let e3 = entity_of("v1alpha3"@, "VirtualMachine"@, md, s4);
    assert(migrated_v1alpha2(e2) == Ok::<JsonView, ErrorView>(e3));
    assert(migrated(Kind::VirtualMachine, e2) == Ok::<JsonView, ErrorView>(e3));
    lemma_entity_keys("v1alpha3"@, "VirtualMachine"@, md, s4);
    lemma_name_key(name);
    lemma_current_spec_reads(cpus, memory, disk, ip, mac, bridge, default_mac);
    let v = VirtualMachineView {
        spec: VirtualMachineSpecView { cpus, memory, disks: seq![disk], ip, mac, bridge },
        api_version: "v1alpha3"@,
        kind: "VirtualMachine"@,
        name,
    };
    assert(vm_of_json(e3, default_mac) == Ok::<VirtualMachineView, ErrorView>(v));
    assert(first_invalid_vm(v) is None);
    assert(vm_checked(e3, default_mac) == Ok::<VirtualMachineView, ErrorView>(v));
}

/// A stored guest of the first version whose fields have the shapes that
/// the schema asks for is read as a valid guest of the current version: it
/// is attached to the bridge `tvbr0`, and its one disk is its list of disks.
pub proof fn lemma_first_version_is_read(
    name: Seq<char>,
    cpus: u8,
    memory: Seq<char>,
    disk: Seq<char>,
    ip: Seq<char>,
    mac: Seq<char>,
    default_mac: Seq<char>,
)
    requires
        is_dns_name(name),
        cpus >= 1,
        is_memory_size(memory),
        is_ipv4(ip),
        is_mac(mac),
    ensures
        vm_read(
            entity_of(
                "v1alpha1"@,
                "VirtualMachine"@,
                json_of_name(name),
                first_version_spec(cpus, memory, disk, ip, mac),
            ),
            default_mac,
        ) == Ok::<VirtualMachineView, ErrorView>(
            VirtualMachineView {
                spec: VirtualMachineSpecView {
                    cpus,
                    memory,
                    disks: seq![disk],
                    ip,
                    mac,
                    bridge: "tvbr0"@,
                },
                api_version: "v1alpha3"@,
                kind: "VirtualMachine"@,
                name,
            },
        ),
{
    lemma_versions_differ();
    lemma_legacy_bridge_is_a_name();
    let md = json_of_name(name);
    let s1 = first_version_spec(cpus, memory, disk, ip, mac);
    let e1 = entity_of("v1alpha1"@, "VirtualMachine"@, md, s1);
    lemma_entity_keys("v1alpha1"@, "VirtualMachine"@, md, s1);
    assert(version_of(e1) == Ok::<Seq<char>, ErrorView>("v1alpha1"@));
    lemma_first_step_on_spec(cpus, memory, disk, ip, mac);
    let s2 = second_version_spec(cpus, memory, disk, ip, mac, "tvbr0"@);
    let e2 = entity_of("v1alpha2"@, "VirtualMachine"@, md, s2);
    assert(migrated_v1alpha1(e1) == Ok::<JsonView, ErrorView>(e2));
    lemma_entity_keys("v1alpha2"@, "VirtualMachine"@, md, s2);
    assert(version_of(e2) == Ok::<Seq<char>, ErrorView>("v1alpha2"@));
    lemma_second_version_is_read(name, cpus, memory, disk, ip, mac, "tvbr0"@, default_mac);
    assert(migrated(Kind::VirtualMachine, e2) == migrated_v1alpha2(e2));
    assert(migrated(Kind::VirtualMachine, e1) == migrated_v1alpha2(e2));
}

} // verus!
