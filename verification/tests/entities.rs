use tinyvmm::apiserver::{error_status, response_status, scope};
use tinyvmm::client::{Client, Error as ClientError, VirtualMachineClient};
use tinyvmm::entity::{Bridge, BridgeSpec, Metadata, VirtualMachine, VirtualMachineSpec};
use tinyvmm::error::{Error, Field, Key, Kind};
use tinyvmm::json::{find_member, member, remove_member, set_member, Json, Member};
use tinyvmm::migrate::{
    get_migrator, migrate_v1alpha1, migrate_v1alpha2, migrate_version, Migrator,
};
use tinyvmm::schema::disks_path_validation;
use tinyvmm::store::{create_key, create_outcome, key, kind_and_name, kind_range};

fn s(text: &str) -> Json {
    Json::Str(text.to_string())
}

fn m(key: &str, value: Json) -> Member {
    Member { key: key.to_string(), value }
}

fn obj(members: Vec<Member>) -> Json {
    Json::Object(members)
}

fn entity(version: &str, kind: &str, name: &str, spec: Vec<Member>) -> Json {
    obj(vec![
        m("apiVersion", s(version)),
        m("kind", s(kind)),
        m("metadata", obj(vec![m("name", s(name))])),
        m("spec", obj(spec)),
    ])
}

fn old_spec() -> Vec<Member> {
    vec![
        m("cpus", Json::PosInt(1)),
        m("memory", s("1G")),
        m("disk", s("/tmp/d.img")),
        m("ip", s("10.0.0.11")),
        m("mac", s("66:00:00:00:00:01")),
    ]
}

fn current_spec(cpus: u64) -> Vec<Member> {
    vec![
        m("bridge", s("tvbr0")),
        m("cpus", Json::PosInt(cpus)),
        m("disks", Json::Array(vec![s("/tmp/d.img")])),
        m("ip", s("10.0.0.10")),
        m("mac", s("66:aa:bb:cc:dd:ee")),
        m("memory", s("2G")),
    ]
}

fn alpha() -> VirtualMachine {
    VirtualMachine {
        spec: VirtualMachineSpec {
            cpus: 2,
            memory: "2G".to_string(),
            disks: vec!["/tmp/d.img".to_string()],
            ip: "10.0.0.10".to_string(),
            mac: "66:aa:bb:cc:dd:ee".to_string(),
            bridge: "tvbr0".to_string(),
        },
        api_version: "v1alpha3".to_string(),
        kind: "VirtualMachine".to_string(),
        metadata: Metadata { name: "alpha".to_string() },
    }
}

fn tvbr0() -> Bridge {
    Bridge {
        spec: BridgeSpec {
            address: "10.0.0.1/24".to_string(),
            dns_zone: "vm.local".to_string(),
            dns_server: "10.0.0.1".to_string(),
        },
        api_version: "v1alpha1".to_string(),
        kind: "Bridge".to_string(),
        metadata: Metadata { name: "tvbr0".to_string() },
    }
}

fn bridge_json(address: &str) -> Json {
    entity(
        "v1alpha1",
        "Bridge",
        "tvbr0",
        vec![
            m("address", s(address)),
            m("dns_server", s("10.0.0.1")),
            m("dns_zone", s("vm.local")),
        ],
    )
}

#[test]
fn members_are_found_by_their_key() {
    let members = vec![m("a", Json::Null), m("b", Json::Bool(true)), m("a", Json::PosInt(1))];
    assert_eq!(find_member(&members, "a"), Some(0));
    assert_eq!(find_member(&members, "b"), Some(1));
    assert_eq!(find_member(&members, "c"), None);
    let value = obj(members);
    assert_eq!(value.get("a"), Some(&Json::Null));
    assert_eq!(value.get("c"), None);
    assert_eq!(Json::Null.get("a"), None);
    assert_eq!(s("x").as_str(), Some("x"));
    assert_eq!(Json::PosInt(1).as_str(), None);
    assert!(Json::Array(vec![]).as_object().is_none());
    assert_eq!(member("k", Json::Null), m("k", Json::Null));
}

#[test]
fn members_are_set_in_place_or_added() {
    let mut members = vec![m("a", Json::Null), m("b", Json::Null)];
    set_member(&mut members, "a", Json::PosInt(1));
    set_member(&mut members, "c", Json::PosInt(2));
    assert_eq!(
        members,
        vec![m("a", Json::PosInt(1)), m("b", Json::Null), m("c", Json::PosInt(2))]
    );
    assert_eq!(remove_member(&mut members, "b"), Some(Json::Null));
    assert_eq!(remove_member(&mut members, "b"), None);
    assert_eq!(members, vec![m("a", Json::PosInt(1)), m("c", Json::PosInt(2))]);
}

#[test]
fn a_guest_written_and_read_is_the_same_guest() {
    let vm = alpha();
    assert_eq!(VirtualMachine::from_json(&vm.to_json(), "66:00:00:00:00:00"), Ok(vm));
}

#[test]
fn a_bridge_written_and_read_is_the_same_bridge() {
    let bridge = tvbr0();
    assert_eq!(Bridge::from_json(&bridge.to_json()), Ok(bridge));
}

#[test]
fn a_guest_as_json() {
    assert_eq!(alpha().to_json(), entity("v1alpha3", "VirtualMachine", "alpha", current_spec(2)));
    assert_eq!(tvbr0().to_json(), bridge_json("10.0.0.1/24"));
}

#[test]
fn a_guest_without_a_mac_gets_the_default() {
    let mut spec = current_spec(2);
    spec.remove(4);
    let vm = VirtualMachine::from_json(
        &entity("v1alpha3", "VirtualMachine", "alpha", spec),
        "66:01:02:03:04:05",
    )
    .unwrap();
    assert_eq!(vm.spec.mac, "66:01:02:03:04:05");
}

#[test]
fn unknown_members_are_passed_over() {
    let mut spec = current_spec(2);
    spec.push(m("colour", s("blue")));
    assert_eq!(
        VirtualMachine::from_json(
            &entity("v1alpha3", "VirtualMachine", "alpha", spec),
            "66:00:00:00:00:00"
        ),
        Ok(alpha())
    );
}

#[test]
fn parts_of_the_wrong_type_are_refused() {
    let read = |spec: Vec<Member>| {
        VirtualMachine::from_json(&entity("v1alpha3", "VirtualMachine", "alpha", spec), "")
    };
    let with = |i: usize, value: Json| {
        let mut spec = current_spec(2);
        spec[i].value = value;
        spec
    };
    assert_eq!(read(with(0, Json::Null)), Err(Error::Serialize(Field::Bridge)));
    assert_eq!(read(with(1, Json::PosInt(256))), Err(Error::Serialize(Field::Cpus)));
    assert_eq!(read(with(1, Json::NegInt(-1))), Err(Error::Serialize(Field::Cpus)));
    assert_eq!(read(with(1, s("2"))), Err(Error::Serialize(Field::Cpus)));
    assert_eq!(read(with(2, s("/tmp/d.img"))), Err(Error::Serialize(Field::Disks)));
    assert_eq!(
        read(with(2, Json::Array(vec![s("a"), Json::Null]))),
        Err(Error::Serialize(Field::Disks))
    );
    assert_eq!(read(with(3, Json::Bool(true))), Err(Error::Serialize(Field::Ip)));
    assert_eq!(read(with(4, Json::PosInt(1))), Err(Error::Serialize(Field::Mac)));
    assert_eq!(read(with(5, Json::Float(0))), Err(Error::Serialize(Field::Memory)));
    assert_eq!(VirtualMachine::from_json(&Json::Null, ""), Err(Error::NotAnObject));
    assert_eq!(Bridge::from_json(&Json::Array(vec![])), Err(Error::NotAnObject));
    assert_eq!(
        VirtualMachine::from_json(&obj(vec![m("spec", Json::Null)]), ""),
        Err(Error::Serialize(Field::Spec))
    );
    assert_eq!(
        VirtualMachine::from_json(&obj(vec![m("spec", obj(current_spec(1)))]), ""),
        Err(Error::Serialize(Field::ApiVersion))
    );
    assert_eq!(
        VirtualMachine::from_json(
            &obj(vec![m("spec", obj(current_spec(1))), m("apiVersion", s("v1alpha3"))]),
            ""
        ),
        Err(Error::Serialize(Field::Kind))
    );
    assert_eq!(
        VirtualMachine::from_json(
            &obj(vec![
                m("spec", obj(current_spec(1))),
                m("apiVersion", s("v1alpha3")),
                m("kind", s("VirtualMachine")),
            ]),
            ""
        ),
        Err(Error::Serialize(Field::Metadata))
    );
    assert_eq!(
        VirtualMachine::from_json(
            &obj(vec![
                m("spec", obj(current_spec(1))),
                m("apiVersion", s("v1alpha3")),
                m("kind", s("VirtualMachine")),
                m("metadata", obj(vec![])),
            ]),
            ""
        ),
        Err(Error::Serialize(Field::Name))
    );
    assert_eq!(
        Bridge::from_json(&entity("v1alpha1", "Bridge", "b", vec![])),
        Err(Error::Serialize(Field::Address))
    );
    assert_eq!(
        Bridge::from_json(&entity("v1alpha1", "Bridge", "b", vec![m("address", s("1.1.1.1/1"))])),
        Err(Error::Serialize(Field::DnsZone))
    );
    assert_eq!(
        Bridge::from_json(&entity(
            "v1alpha1",
            "Bridge",
            "b",
            vec![m("address", s("1.1.1.1/1")), m("dns_zone", s("z"))]
        )),
        Err(Error::Serialize(Field::DnsServer))
    );
}

#[test]
fn a_valid_guest_and_a_valid_bridge() {
    assert_eq!(alpha().validate(), Ok(()));
    assert_eq!(tvbr0().validate(), Ok(()));
}

#[test]
fn each_field_of_a_guest_is_held_to_its_shape() {
    let check = |change: fn(&mut VirtualMachine), field: Field| {
        let mut vm = alpha();
        change(&mut vm);
        assert_eq!(vm.validate(), Err(Error::SerializeValidation(field)));
    };
    check(|vm| vm.spec.cpus = 0, Field::Cpus);
    check(|vm| vm.spec.memory = "2".to_string(), Field::Memory);
    check(|vm| vm.spec.ip = "10.0.0".to_string(), Field::Ip);
    check(|vm| vm.spec.mac = "66:AA:bb:cc:dd:ee".to_string(), Field::Mac);
    check(|vm| vm.spec.bridge = "-br".to_string(), Field::Bridge);
    check(|vm| vm.api_version = "v1alpha2".to_string(), Field::ApiVersion);
    check(|vm| vm.kind = "virtualmachine".to_string(), Field::Kind);
    check(|vm| vm.metadata.name = "Alpha".to_string(), Field::Name);
    check(
        |vm| {
            vm.spec.cpus = 0;
            vm.metadata.name = "".to_string();
        },
        Field::Cpus,
    );
}

#[test]
fn each_field_of_a_bridge_is_held_to_its_shape() {
    let check = |change: fn(&mut Bridge), field: Field| {
        let mut bridge = tvbr0();
        change(&mut bridge);
        assert_eq!(bridge.validate(), Err(Error::SerializeValidation(field)));
    };
    check(|b| b.spec.address = "not-an-ip".to_string(), Field::Address);
    check(|b| b.spec.dns_zone = "vm..local".to_string(), Field::DnsZone);
    check(|b| b.spec.dns_server = "10.0.0.1/24".to_string(), Field::DnsServer);
    check(|b| b.api_version = "v1".to_string(), Field::ApiVersion);
    check(|b| b.kind = "VirtualMachine".to_string(), Field::Kind);
    check(|b| b.metadata.name = "a.".to_string(), Field::Name);
}

#[test]
fn disks_must_be_there() {
    let paths = vec!["/a".to_string(), "/b".to_string()];
    assert_eq!(disks_path_validation(&paths, &vec![true, true]), Ok(()));
    assert_eq!(disks_path_validation(&paths, &vec![true, false]), Err(1));
    assert_eq!(disks_path_validation(&paths, &vec![false, false]), Err(0));
    assert_eq!(disks_path_validation(&paths, &vec![true]), Err(1));
    assert_eq!(disks_path_validation(&vec![], &vec![]), Ok(()));
    assert_eq!(alpha().validate_disks(&vec![true]), Ok(()));
    assert_eq!(alpha().validate_disks(&vec![false]), Err(Error::SerializeValidation(Field::Disks)));
    assert_eq!(alpha().validate_disks(&vec![]), Err(Error::SerializeValidation(Field::Disks)));
}

#[test]
fn a_posted_guest_with_no_cpus_is_refused() {
    let r = VirtualMachine::from_json_value(
        &entity("v1alpha3", "VirtualMachine", "alpha", current_spec(0)),
        "66:00:00:00:00:00",
    );
    assert_eq!(r, Err(Error::SerializeValidation(Field::Cpus)));
    assert_eq!(error_status(&r.unwrap_err()), 400);
}

#[test]
fn a_posted_bridge_with_a_bad_address_is_refused() {
    let r = Bridge::from_json_value(&bridge_json("not-an-ip"));
    assert_eq!(r, Err(Error::SerializeValidation(Field::Address)));
    assert_eq!(response_status(&r), 400);
}

#[test]
fn a_posted_guest_is_stored_and_read_back() {
    let posted = entity("v1alpha3", "VirtualMachine", "alpha", current_spec(2));
    let vm = VirtualMachine::from_json_value(&posted, "66:00:00:00:00:00").unwrap();
    let (key, value) = vm.create().unwrap();
    assert_eq!(key, "/VirtualMachine/alpha");
    assert_eq!(value, posted);
    assert_eq!(VirtualMachine::get(Some(value), "66:00:00:00:00:00"), Ok(alpha()));
    let bridge = Bridge::from_json_value(&bridge_json("10.0.0.1/24")).unwrap();
    let (key, value) = bridge.create().unwrap();
    assert_eq!(key, "/Bridge/tvbr0");
    assert_eq!(Bridge::get(Some(value)), Ok(tvbr0()));
}

#[test]
fn an_invalid_entity_is_not_written() {
    let mut vm = alpha();
    vm.spec.cpus = 0;
    assert_eq!(vm.create(), Err(Error::SerializeValidation(Field::Cpus)));
    let mut bridge = tvbr0();
    bridge.spec.address = "not-an-ip".to_string();
    assert_eq!(bridge.create(), Err(Error::SerializeValidation(Field::Address)));
}

#[test]
fn nothing_found_is_not_found() {
    assert_eq!(VirtualMachine::get(None, ""), Err(Error::NotFound));
    assert_eq!(Bridge::get(None), Err(Error::NotFound));
    assert_eq!(error_status(&Error::NotFound), 404);
}

#[test]
fn a_guest_of_the_first_version_is_read_in_the_current_one() {
    let stored = entity("v1alpha1", "VirtualMachine", "old", old_spec());
    let migrated = migrate_version(Kind::VirtualMachine, stored).unwrap();
    assert_eq!(migrated.get("apiVersion"), Some(&s("v1alpha3")));
    let spec = migrated.get("spec").unwrap();
    assert_eq!(spec.get("bridge"), Some(&s("tvbr0")));
    assert_eq!(spec.get("disks"), Some(&Json::Array(vec![s("/tmp/d.img")])));
    assert_eq!(spec.get("disk"), None);
    let vm = VirtualMachine::get(
        Some(entity("v1alpha1", "VirtualMachine", "old", old_spec())),
        "66:00:00:00:00:00",
    )
    .unwrap();
    assert_eq!(vm.api_version, "v1alpha3");
    assert_eq!(vm.spec.bridge, "tvbr0");
    assert_eq!(vm.spec.disks, vec!["/tmp/d.img".to_string()]);
    assert_eq!(vm.metadata.name, "old");
    assert_eq!(vm.spec.cpus, 1);
    assert_eq!(vm.spec.mac, "66:00:00:00:00:01");
}

#[test]
fn the_first_step_attaches_the_legacy_bridge() {
    assert_eq!(
        migrate_v1alpha1(entity("v1alpha1", "VirtualMachine", "old", old_spec())),
        Ok(entity("v1alpha2", "VirtualMachine", "old", {
            let mut spec = old_spec();
            spec.push(m("bridge", s("tvbr0")));
            spec
        }))
    );
}

#[test]
fn the_second_step_lists_the_disk() {
    let mut spec = old_spec();
    spec.push(m("bridge", s("br1")));
    assert_eq!(
        migrate_v1alpha2(entity("v1alpha2", "VirtualMachine", "old", spec)),
        Ok(entity(
            "v1alpha3",
            "VirtualMachine",
            "old",
            vec![
                m("cpus", Json::PosInt(1)),
                m("memory", s("1G")),
                m("ip", s("10.0.0.11")),
                m("mac", s("66:00:00:00:00:01")),
                m("bridge", s("br1")),
                m("disks", Json::Array(vec![s("/tmp/d.img")])),
            ]
        ))
    );
}

#[test]
fn migration_of_a_current_value_changes_nothing() {
    let once = migrate_version(
        Kind::VirtualMachine,
        entity("v1alpha1", "VirtualMachine", "old", old_spec()),
    )
    .unwrap();
    let again = migrate_version(
        Kind::VirtualMachine,
        migrate_version(
            Kind::VirtualMachine,
            entity("v1alpha1", "VirtualMachine", "old", old_spec()),
        )
        .unwrap(),
    )
    .unwrap();
    assert_eq!(once, again);
    assert_eq!(
        migrate_version(Kind::Bridge, bridge_json("10.0.0.1/24")),
        Ok(bridge_json("10.0.0.1/24"))
    );
}

#[test]
fn migration_errors() {
    assert_eq!(
        migrate_version(Kind::VirtualMachine, entity("v0", "VirtualMachine", "x", vec![])),
        Err(Error::FailedMigration { kind: Kind::VirtualMachine, from: "v0".to_string() })
    );
    assert_eq!(
        migrate_version(Kind::Bridge, entity("v1alpha2", "Bridge", "x", vec![])),
        Err(Error::FailedMigration { kind: Kind::Bridge, from: "v1alpha2".to_string() })
    );
    assert_eq!(
        migrate_version(Kind::VirtualMachine, Json::Null),
        Err(Error::MissingKey(Key::ApiVersion))
    );
    assert_eq!(
        migrate_version(Kind::VirtualMachine, obj(vec![m("apiVersion", Json::PosInt(1))])),
        Err(Error::MissingKey(Key::ApiVersion))
    );
    assert_eq!(
        migrate_version(Kind::VirtualMachine, obj(vec![m("apiVersion", s("v1alpha1"))])),
        Err(Error::MissingKey(Key::Spec))
    );
    assert_eq!(
        migrate_version(
            Kind::VirtualMachine,
            obj(vec![m("apiVersion", s("v1alpha1")), m("spec", Json::Null)])
        ),
        Err(Error::NotAnObject)
    );
    assert_eq!(
        migrate_version(
            Kind::VirtualMachine,
            obj(vec![m("apiVersion", s("v1alpha1")), m("spec", obj(vec![]))])
        ),
        Err(Error::MissingKey(Key::Metadata))
    );
    assert_eq!(
        migrate_version(
            Kind::VirtualMachine,
            obj(vec![m("apiVersion", s("v1alpha2")), m("spec", obj(vec![]))])
        ),
        Err(Error::MissingKey(Key::Disk))
    );
    assert_eq!(
        migrate_version(
            Kind::VirtualMachine,
            obj(vec![m("apiVersion", s("v1alpha2")), m("spec", obj(vec![m("disk", s("/d"))]))])
        ),
        Err(Error::MissingKey(Key::Metadata))
    );
    assert_eq!(error_status(&Error::MissingKey(Key::Spec)), 400);
    assert_eq!(
        error_status(&Error::FailedMigration { kind: Kind::Bridge, from: "v0".to_string() }),
        500
    );
}

#[test]
fn the_steps_of_each_kind() {
    assert_eq!(get_migrator(Kind::VirtualMachine, "v1alpha1"), Some(Migrator::AttachBridge));
    assert_eq!(get_migrator(Kind::VirtualMachine, "v1alpha2"), Some(Migrator::ListDisks));
    assert_eq!(get_migrator(Kind::VirtualMachine, "v1alpha3"), Some(Migrator::Last));
    assert_eq!(get_migrator(Kind::VirtualMachine, "v1alpha4"), None);
    assert_eq!(get_migrator(Kind::Bridge, "v1alpha1"), Some(Migrator::Keep));
    assert_eq!(get_migrator(Kind::Bridge, "v1alpha3"), None);
    assert_eq!(
        Migrator::Last.migrate(Kind::VirtualMachine, Json::Null),
        Err(Error::NoMigrationAvailable { kind: Kind::VirtualMachine })
    );
    assert_eq!(Migrator::Keep.migrate(Kind::Bridge, Json::Null), Ok(Json::Null));
    assert_eq!(
        error_status(&Error::NoMigrationAvailable { kind: Kind::VirtualMachine }),
        500
    );
}

#[test]
fn a_list_holds_every_entity_in_the_current_version() {
    let stored = vec![
        entity("v1alpha3", "VirtualMachine", "alpha", current_spec(2)),
        entity("v1alpha1", "VirtualMachine", "old", old_spec()),
    ];
    let vms = VirtualMachine::list(stored, "66:00:00:00:00:00").unwrap();
    assert_eq!(vms.len(), 2);
    assert_eq!(vms[0], alpha());
    assert_eq!(vms[1].metadata.name, "old");
    for vm in &vms {
        assert_eq!(vm.api_version, "v1alpha3");
    }
    assert_eq!(VirtualMachine::list(vec![], ""), Ok(vec![]));
    assert_eq!(Bridge::list(vec![bridge_json("10.0.0.1/24")]), Ok(vec![tvbr0()]));
}

#[test]
fn one_bad_value_fails_the_whole_list() {
    let stored = vec![
        entity("v1alpha3", "VirtualMachine", "alpha", current_spec(2)),
        entity("v1alpha3", "VirtualMachine", "beta", current_spec(0)),
        entity("v0", "VirtualMachine", "gamma", vec![]),
    ];
    assert_eq!(
        VirtualMachine::list(stored, ""),
        Err(Error::SerializeValidation(Field::Cpus))
    );
    assert_eq!(
        Bridge::list(vec![bridge_json("10.0.0.1/24"), bridge_json("not-an-ip")]),
        Err(Error::SerializeValidation(Field::Address))
    );
}

#[test]
fn keys_of_the_store() {
    assert_eq!(key("Bridge", "tvbr0"), "/Bridge/tvbr0");
    assert_eq!(key("", ""), "//");
    assert_eq!(kind_range("Bridge"), ("/Bridge/".to_string(), "/Bridge0".to_string()));
    let (start, end) = kind_range("VirtualMachine");
    let inside = key("VirtualMachine", "alpha");
    assert!(start <= inside && inside < end);
    let outside = key("VirtualMachines", "alpha");
    assert!(!(start <= outside && outside < end));
}

#[test]
fn the_key_of_a_value() {
    let value = entity("v1alpha1", "Bridge", "tvbr0", vec![]);
    assert_eq!(kind_and_name(&value), Ok(("Bridge".to_string(), "tvbr0".to_string())));
    assert_eq!(create_key(&value), Ok("/Bridge/tvbr0".to_string()));
    assert_eq!(create_key(&Json::Null), Err(Error::MissingKey(Key::Kind)));
    assert_eq!(create_key(&obj(vec![])), Err(Error::MissingKey(Key::Kind)));
    assert_eq!(
        create_key(&obj(vec![m("kind", Json::PosInt(1))])),
        Err(Error::MissingKey(Key::Kind))
    );
    assert_eq!(
        create_key(&obj(vec![m("kind", s("Bridge"))])),
        Err(Error::MissingKey(Key::Metadata))
    );
    assert_eq!(
        create_key(&obj(vec![m("kind", s("Bridge")), m("metadata", s("x"))])),
        Err(Error::NotAnObject)
    );
    assert_eq!(
        create_key(&obj(vec![m("kind", s("Bridge")), m("metadata", obj(vec![]))])),
        Err(Error::MissingKey(Key::Name))
    );
    assert_eq!(
        create_key(&obj(vec![
            m("kind", s("Bridge")),
            m("metadata", obj(vec![m("name", Json::Null)]))
        ])),
        Err(Error::MissingKey(Key::Name))
    );
}

#[test]
fn a_second_create_of_the_same_name_is_a_conflict() {
    assert_eq!(create_outcome("Bridge".to_string(), "tvbr0".to_string(), true), Ok(()));
    let second = create_outcome("Bridge".to_string(), "tvbr0".to_string(), false);
    assert_eq!(
        second,
        Err(Error::KeyExists { kind: "Bridge".to_string(), name: "tvbr0".to_string() })
    );
    assert_eq!(response_status(&second), 409);
}

#[test]
fn status_of_each_outcome() {
    assert_eq!(response_status(&Ok::<(), Error>(())), 200);
    assert_eq!(error_status(&Error::Serialize(Field::Cpus)), 400);
    assert_eq!(error_status(&Error::NotAnObject), 400);
    assert_eq!(error_status(&Error::Storage("disk full".to_string())), 500);
    assert_eq!(scope(Kind::Bridge), "/api/v1/bridges");
    assert_eq!(scope(Kind::VirtualMachine), "/api/v1/virtualmachines");
}

#[test]
fn the_client_asks_under_the_paths_of_the_server() {
    let client = Client::new("/run/tinyvmm.sock".to_string()).virtualmachines();
    assert_eq!(client.api_server(), "/run/tinyvmm.sock");
    assert_eq!(client.list_path(), "/api/v1/virtualmachines");
    assert_eq!(client.get_path("alpha"), "/api/v1/virtualmachines/alpha");
    assert_eq!(VirtualMachineClient::http_get(200, "{}".to_string()), Ok("{}".to_string()));
    assert_eq!(
        VirtualMachineClient::http_get(404, "gone".to_string()),
        Err(ClientError::HttpNoSuccess(404, "gone".to_string()))
    );
}

#[test]
fn members_that_must_be_there() {
    let value = entity("v1alpha1", "Bridge", "tvbr0", vec![]);
    assert_eq!(value.get_existing(Key::Kind), Ok(&s("Bridge")));
    assert_eq!(value.get_existing(Key::Disk), Err(Error::MissingKey(Key::Disk)));
    assert_eq!(Json::Null.get_existing(Key::Kind), Err(Error::MissingKey(Key::Kind)));
    assert_eq!(value.as_map().map(|members| members.len()), Ok(4));
    assert_eq!(s("x").as_map(), Err(Error::NotAnObject));
    assert_eq!(value.is_version("v1alpha1"), Ok(true));
    assert_eq!(value.is_version("v1alpha2"), Ok(false));
    assert_eq!(Json::Null.is_version("v1alpha1"), Err(Error::NotAnObject));
    assert_eq!(obj(vec![]).is_version("v1alpha1"), Err(Error::MissingKey(Key::ApiVersion)));
    assert_eq!(obj(vec![m("apiVersion", Json::PosInt(1))]).is_version("1"), Ok(false));
    assert_eq!(Key::ApiVersion.text(), "apiVersion");
}

#[test]
fn entities_of_different_kind_or_name_have_different_keys() {
    let keys = [
        key("Bridge", "a"),
        key("Bridge", "b"),
        key("VirtualMachine", "a"),
        key("VirtualMachine", "a.b"),
        key("Bridg", "ea"),
    ];
    for i in 0..keys.len() {
        for j in 0..keys.len() {
            assert_eq!(keys[i] == keys[j], i == j);
        }
    }
}
