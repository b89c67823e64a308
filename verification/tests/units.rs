use tinyvmm::dns::{dns_listener, records_for, zones, Record, Zone};
use tinyvmm::entity::{Bridge, BridgeSpec, Metadata, VirtualMachine, VirtualMachineSpec};
use tinyvmm::systemd::{
    create_bridge, create_bridge_network, create_tap, create_tap_network, destroy_netdev,
    generate_vm_service, get_network_unit_path, get_systemd_tap_unit_name, get_systemd_unit_name,
    get_unit_path, has_diffs, join_path, netdev_files, vm_mac_to_tap_mac, Lease,
    SystemdUnitCreationError,
};
use tinyvmm::unitserver::{
    leases_for, reconcile_bridge, reconcile_bridges, reconcile_vm, vm_unit_paths, VmAction,
    START_MODE,
};

fn guest(name: &str, bridge: &str, ip: &str, mac: &str) -> VirtualMachine {
    VirtualMachine {
        spec: VirtualMachineSpec {
            cpus: 1,
            memory: "1G".to_string(),
            disks: vec![],
            ip: ip.to_string(),
            mac: mac.to_string(),
            bridge: bridge.to_string(),
        },
        api_version: "v1alpha3".to_string(),
        kind: "VirtualMachine".to_string(),
        metadata: Metadata { name: name.to_string() },
    }
}

fn bridge(name: &str, address: &str, zone: &str) -> Bridge {
    Bridge {
        spec: BridgeSpec {
            address: address.to_string(),
            dns_zone: zone.to_string(),
            dns_server: "10.0.0.1".to_string(),
        },
        api_version: "v1alpha1".to_string(),
        kind: "Bridge".to_string(),
        metadata: Metadata { name: name.to_string() },
    }
}

const NETWORK_HEAD: &str = "[Match]\nName=tvbr0\n\n[Network]\nAddress=10.0.0.1/24\nDNS=10.0.0.53\nDomains=~vm.local\nConfigureWithoutCarrier=yes\nIgnoreCarrierLoss=yes\nDHCPServer=yes\n\n[DHCPServer]\nEmitDNS=yes\nDNS=10.0.0.1\nEmitRouter=yes\nRouter=10.0.0.1\n\n";

const VM_SERVICE: &str = "[Unit]\nRequires=sys-subsystem-net-devices-tvbr0.device\nRequires=tinyvmi-tap-alpha.service\nAfter=sys-subsystem-net-devices-tvbr0.device\nAfter=tinyvmi-tap-alpha.service\n\n[Service]\nType=simple\nExecStart=/run/wrappers/bin/cloud-hypervisor --api-socket=${RUNTIME_DIRECTORY}/api.sock -v\n\nExecStartPost=/usr/bin/tinyvmm systemd bootstrap-post alpha\nExecStartPost=/usr/bin/tinyvmm start alpha\n\nExecStop=/usr/bin/tinyvmm stop alpha\n\nRuntimeDirectory=tinyvmi-alpha\n";

const TAP_SERVICE: &str = "[Unit]\n# Requires=sys-subsystem-net-devices-tvbr0.device\n# After=sys-subsystem-net-devices-tvbr0.device\nPartOf=tinyvmi-alpha.service\n\n[Service]\nType=oneshot\nRemainAfterExit=yes\nExecStart=/usr/bin/tinyvmm systemd bootstrap-pre alpha\nExecStop=/usr/bin/tinyvmm systemd teardown alpha\n";

#[test]
fn unit_names_and_paths() {
    assert_eq!(get_systemd_unit_name("alpha"), "tinyvmi-alpha");
    assert_eq!(get_systemd_tap_unit_name("alpha"), "tinyvmi-tap-alpha");
    assert_eq!(get_unit_path("tinyvmi-alpha"), "/run/systemd/system/tinyvmi-alpha.service");
    assert_eq!(get_network_unit_path("tvbr0", "netdev"), "/run/systemd/network/tvbr0.netdev");
    assert_eq!(get_network_unit_path("tvbr0", "network"), "/run/systemd/network/tvbr0.network");
    assert_eq!(
        vm_unit_paths("alpha"),
        vec![
            "/run/systemd/system/tinyvmi-alpha.service".to_string(),
            "/run/systemd/system/tinyvmi-tap-alpha.service".to_string(),
        ]
    );
}

#[test]
fn an_absolute_file_stands_for_itself() {
    assert_eq!(join_path("/run/systemd/system", "a.service"), "/run/systemd/system/a.service");
    assert_eq!(join_path("/run/systemd/system", "/etc/a.service"), "/etc/a.service");
    assert_eq!(join_path("/run/systemd/system", ""), "/run/systemd/system/");
    assert_eq!(get_unit_path("/etc/a"), "/etc/a.service");
}

#[test]
fn tap_mac_keeps_all_but_the_first_byte() {
    assert_eq!(vm_mac_to_tap_mac("66:aa:bb:cc:dd:ee"), "76:aa:bb:cc:dd:ee");
    assert_eq!(vm_mac_to_tap_mac("66:"), "76:");
}

#[test]
fn bridge_device_unit() {
    let unit = create_bridge("tvbr0").unwrap();
    assert_eq!(unit.path, "/run/systemd/network/tvbr0.netdev");
    assert_eq!(unit.body, "[NetDev]\nName=tvbr0\nKind=bridge\n");
}

#[test]
fn bridge_network_unit_without_leases() {
    let unit =
        create_bridge_network("tvbr0", "vm.local", "10.0.0.1/24", "10.0.0.53", "10.0.0.1", &vec![])
            .unwrap();
    assert_eq!(unit.path, "/run/systemd/network/tvbr0.network");
    assert_eq!(unit.body, NETWORK_HEAD);
}

#[test]
fn bridge_network_unit_with_leases() {
    let leases = vec![
        Lease { mac: "66:aa:bb:cc:dd:ee".to_string(), ip: "10.0.0.10".to_string() },
        Lease { mac: "66:00:00:00:00:01".to_string(), ip: "10.0.0.11".to_string() },
    ];
    let unit =
        create_bridge_network("tvbr0", "vm.local", "10.0.0.1/24", "10.0.0.53", "10.0.0.1", &leases)
            .unwrap();
    let expected = format!(
        "{}{}{}",
        NETWORK_HEAD,
        "[DHCPServerStaticLease]\nMACAddress=66:aa:bb:cc:dd:ee\nAddress=10.0.0.10\n",
        "[DHCPServerStaticLease]\nMACAddress=66:00:00:00:00:01\nAddress=10.0.0.11\n"
    );
    assert_eq!(unit.body, expected);
}

#[test]
fn bridge_network_unit_refuses_an_address_that_is_no_network() {
    for address in ["not-an-ip", "10.0.0.1", "300.0.0.1/24", "10.0.0.1/33", ""] {
        assert_eq!(
            create_bridge_network("tvbr0", "vm.local", address, "10.0.0.53", "10.0.0.1", &vec![]),
            Err(SystemdUnitCreationError::Address),
            "{}",
            address
        );
    }
}

#[test]
fn tap_units() {
    let network = create_tap_network("vmialpha8ed3f", "tvbr0", "66:aa:bb:cc:dd:ee").unwrap();
    assert_eq!(network.path, "/run/systemd/network/vmialpha8ed3f.network");
    assert_eq!(
        network.body,
        "[Match]\nName=vmialpha8ed3f\n\n[Network]\nBridge=tvbr0\n\n[Link]\nMACAddress=76:aa:bb:cc:dd:ee\n"
    );
    let netdev = create_tap("vmialpha8ed3f", "66:aa:bb:cc:dd:ee").unwrap();
    assert_eq!(netdev.path, "/run/systemd/network/vmialpha8ed3f.netdev");
    assert_eq!(
        netdev.body,
        "[NetDev]\nName=vmialpha8ed3f\nKind=tap\n# MACAddress=76:aa:bb:cc:dd:ee\n"
    );
}

#[test]
fn guest_service_units() {
    let units = generate_vm_service("alpha", "tvbr0", "/usr/bin/tinyvmm").unwrap();
    assert_eq!(
        units,
        vec![
            ("tinyvmi-alpha".to_string(), VM_SERVICE.to_string()),
            ("tinyvmi-tap-alpha".to_string(), TAP_SERVICE.to_string()),
        ]
    );
}

#[test]
fn rendering_escapes_markup_in_values() {
    let units = generate_vm_service("alpha", "tvbr0", "/opt/a&b/tinyvmm").unwrap();
    assert!(units[1].1.contains("ExecStart=/opt/a&amp;b/tinyvmm systemd bootstrap-pre alpha\n"));
}

#[test]
fn rendering_is_the_same_for_the_same_state() {
    let vms = vec![guest("alpha", "tvbr0", "10.0.0.10", "66:aa:bb:cc:dd:ee")];
    let b = bridge("tvbr0", "10.0.0.1/24", "vm.local");
    assert_eq!(reconcile_bridge(&b, &vms, "10.0.0.53"), reconcile_bridge(&b, &vms, "10.0.0.53"));
    assert_eq!(
        generate_vm_service("alpha", "tvbr0", "/usr/bin/tinyvmm"),
        generate_vm_service("alpha", "tvbr0", "/usr/bin/tinyvmm")
    );
}

#[test]
fn units_differ_where_one_is_missing_or_changed() {
    let units = vec![("a".to_string(), "A".to_string()), ("b".to_string(), "B".to_string())];
    assert!(!has_diffs(&units, &vec![Some("A".to_string()), Some("B".to_string())]));
    assert!(has_diffs(&units, &vec![Some("A".to_string()), Some("b".to_string())]));
    assert!(has_diffs(&units, &vec![None, Some("B".to_string())]));
    assert!(has_diffs(&units, &vec![Some("A".to_string())]));
    assert!(has_diffs(&units, &vec![]));
    assert!(!has_diffs(&vec![], &vec![]));
    assert!(!has_diffs(
        &units,
        &vec![Some("A".to_string()), Some("B".to_string()), Some("C".to_string())]
    ));
}

#[test]
fn leases_are_those_of_the_guests_on_the_bridge() {
    let vms = vec![
        guest("alpha", "tvbr0", "10.0.0.10", "66:aa:bb:cc:dd:ee"),
        guest("beta", "other", "10.1.0.10", "66:00:00:00:00:02"),
        guest("gamma", "tvbr0", "10.0.0.12", "66:00:00:00:00:03"),
    ];
    assert_eq!(
        leases_for(&vms, "tvbr0"),
        vec![
            Lease { mac: "66:aa:bb:cc:dd:ee".to_string(), ip: "10.0.0.10".to_string() },
            Lease { mac: "66:00:00:00:00:03".to_string(), ip: "10.0.0.12".to_string() },
        ]
    );
    assert_eq!(leases_for(&vms, "missing"), vec![]);
    assert_eq!(leases_for(&vec![], "tvbr0"), vec![]);
}

#[test]
fn bridge_pass_writes_both_units() {
    let vms = vec![
        guest("alpha", "tvbr0", "10.0.0.10", "66:aa:bb:cc:dd:ee"),
        guest("beta", "other", "10.1.0.10", "66:00:00:00:00:02"),
    ];
    let (netdev, network) =
        reconcile_bridge(&bridge("tvbr0", "10.0.0.1/24", "vm.local"), &vms, "10.0.0.53").unwrap();
    assert_eq!(netdev.path, "/run/systemd/network/tvbr0.netdev");
    assert_eq!(netdev.body, "[NetDev]\nName=tvbr0\nKind=bridge\n");
    assert_eq!(network.path, "/run/systemd/network/tvbr0.network");
    assert_eq!(
        network.body,
        format!(
            "{}{}",
            NETWORK_HEAD,
            "[DHCPServerStaticLease]\nMACAddress=66:aa:bb:cc:dd:ee\nAddress=10.0.0.10\n"
        )
    );
}

#[test]
fn bridge_pass_goes_on_after_an_error() {
    let bridges =
        vec![bridge("bad", "500.0.0.1/24", "bad.local"), bridge("tvbr0", "10.0.0.1/24", "vm.local")];
    let results = reconcile_bridges(&bridges, &vec![], "10.0.0.53");
    assert_eq!(results.len(), 2);
    assert_eq!(results[0], Err(SystemdUnitCreationError::Address));
    assert_eq!(results[1].as_ref().unwrap().1.body, NETWORK_HEAD);
}

#[test]
fn guest_pass_writes_missing_units_and_starts_the_guest() {
    let vm = guest("alpha", "tvbr0", "10.0.0.10", "66:aa:bb:cc:dd:ee");
    let action = reconcile_vm(&vm, "/usr/bin/tinyvmm", &vec![None, None]);
    match action {
        VmAction::Apply { files, start } => {
            assert_eq!(start, "tinyvmi-alpha.service");
            assert_eq!(START_MODE, "replace");
            assert_eq!(files.len(), 2);
            assert_eq!(files[0].unit, "tinyvmi-alpha.service");
            assert_eq!(files[0].path, "/run/systemd/system/tinyvmi-alpha.service");
            assert_eq!(files[0].body, VM_SERVICE);
            assert_eq!(files[1].unit, "tinyvmi-tap-alpha.service");
            assert_eq!(files[1].path, "/run/systemd/system/tinyvmi-tap-alpha.service");
            assert_eq!(files[1].body, TAP_SERVICE);
        }
        VmAction::Skip => panic!("the units are missing"),
    }
}

#[test]
fn second_guest_pass_changes_nothing() {
    let vm = guest("alpha", "tvbr0", "10.0.0.10", "66:aa:bb:cc:dd:ee");
    let first = reconcile_vm(&vm, "/usr/bin/tinyvmm", &vec![None, None]);
    let on_disk = match first {
        VmAction::Apply { files, .. } => files.into_iter().map(|f| Some(f.body)).collect(),
        VmAction::Skip => panic!("the units are missing"),
    };
    assert_eq!(reconcile_vm(&vm, "/usr/bin/tinyvmm", &on_disk), VmAction::Skip);
}

#[test]
fn guest_pass_writes_a_changed_unit_again() {
    let vm = guest("alpha", "tvbr0", "10.0.0.10", "66:aa:bb:cc:dd:ee");
    let on_disk = vec![Some(VM_SERVICE.to_string()), Some(format!("{} ", TAP_SERVICE))];
    assert!(matches!(
        reconcile_vm(&vm, "/usr/bin/tinyvmm", &on_disk),
        VmAction::Apply { .. }
    ));
}

#[test]
fn guest_pass_with_a_broken_read() {
    let vm = guest("alpha", "tvbr0", "10.0.0.10", "66:aa:bb:cc:dd:ee");
    let on_disk = vec![Some(VM_SERVICE.to_string()), None];
    assert!(matches!(
        reconcile_vm(&vm, "/usr/bin/tinyvmm", &on_disk),
        VmAction::Apply { .. }
    ));
}

#[test]
fn zone_records_of_the_guests_on_a_bridge() {
    let vms = vec![
        guest("alpha", "tvbr0", "10.0.0.10", "66:aa:bb:cc:dd:ee"),
        guest("beta", "other", "10.1.0.10", "66:00:00:00:00:02"),
    ];
    assert_eq!(
        records_for(&vms, "tvbr0", "vm.local"),
        vec![Record {
            owner: "alpha.vm.local".to_string(),
            ttl: 500,
            address: "10.0.0.10".to_string()
        }]
    );
    let bridges =
        vec![bridge("tvbr0", "10.0.0.1/24", "vm.local"), bridge("empty", "10.2.0.1/24", "e.local")];
    assert_eq!(
        zones(&bridges, &vms),
        vec![
            Zone {
                origin: "vm.local".to_string(),
                records: vec![Record {
                    owner: "alpha.vm.local".to_string(),
                    ttl: 500,
                    address: "10.0.0.10".to_string()
                }]
            },
            Zone { origin: "e.local".to_string(), records: vec![] },
        ]
    );
}

#[test]
fn the_listener_is_the_host_of_the_dns_address() {
    assert_eq!(dns_listener("10.0.0.53:53"), "10.0.0.53");
    assert_eq!(dns_listener("10.0.0.53"), "10.0.0.53");
    assert_eq!(dns_listener(":53"), "");
    assert_eq!(dns_listener(""), "");
    assert_eq!(dns_listener("a:b:c"), "a");
}

#[test]
fn taking_down_a_network_device() {
    assert_eq!(
        netdev_files("vmialpha8ed3f"),
        (
            "/run/systemd/network/vmialpha8ed3f.network".to_string(),
            "/run/systemd/network/vmialpha8ed3f.netdev".to_string()
        )
    );
    assert_eq!(destroy_netdev("tvbr0", true), Ok(()));
    assert_eq!(
        destroy_netdev("tvbr0", false),
        Err(SystemdUnitCreationError::LinkNotFound("tvbr0".to_string()))
    );
}
