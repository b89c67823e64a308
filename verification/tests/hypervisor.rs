use tinyvmm::ch::{
    api_socket_path, bootstrap_vm, check_response, create_step, digest, get_vm_tap_name,
    memory_bytes, plan_with_memory, request_headers, runtime_file, shutdown_step, shutdown_vm,
    start_vm, Attempt, CreateStep, Error, Operation, ShutdownStep,
};
use tinyvmm::entity::{Metadata, VirtualMachine, VirtualMachineSpec};

fn guest(memory: &str, disks: Vec<&str>) -> VirtualMachine {
    VirtualMachine {
        spec: VirtualMachineSpec {
            cpus: 2,
            memory: memory.to_string(),
            disks: disks.into_iter().map(|d| d.to_string()).collect(),
            ip: "10.0.0.10".to_string(),
            mac: "66:aa:bb:cc:dd:ee".to_string(),
            bridge: "tvbr0".to_string(),
        },
        api_version: "v1alpha3".to_string(),
        kind: "VirtualMachine".to_string(),
        metadata: Metadata { name: "alpha".to_string() },
    }
}

#[test]
fn tap_name_of_a_long_name_keeps_eight_characters() {
    assert_eq!(get_vm_tap_name("alphabeta"), "vmialphabeta4c4a");
}

#[test]
fn tap_name_of_a_short_name_keeps_the_name() {
    assert_eq!(get_vm_tap_name("alpha"), "vmialpha8ed3f");
    assert_eq!(get_vm_tap_name("a"), "vmiaca978");
}

#[test]
fn tap_name_is_at_most_sixteen_bytes() {
    for name in ["a", "alpha", "alphabet", "alphabeta", "a-very-long-name.example"] {
        assert!(get_vm_tap_name(name).len() <= 16);
    }
}

#[test]
fn tap_name_is_the_same_for_the_same_name() {
    assert_eq!(get_vm_tap_name("alphabeta"), get_vm_tap_name("alphabeta"));
    assert_ne!(get_vm_tap_name("alphabeta"), get_vm_tap_name("alphabetb"));
}

#[test]
fn tap_name_counts_characters() {
    let tap = get_vm_tap_name("äöüäöüäöüäöü");
    assert!(tap.starts_with("vmiäöüäöüäö"));
    assert_eq!(tap.chars().count(), 16);
}

#[test]
fn disk_id_is_the_upper_case_digest_of_the_path() {
    assert_eq!(
        digest("/tmp/d.img"),
        "D200935876CEFF335D9BD1A92AD7BF4111686C70F40D82A0AAF9915067B538D4"
    );
}

#[test]
fn runtime_files_lie_under_the_guest_directory() {
    assert_eq!(runtime_file("alpha", "serial"), "/run/tinyvmi-alpha/serial");
    assert_eq!(api_socket_path("alpha"), "/run/tinyvmi-alpha/api.sock");
}

#[test]
fn memory_is_read_in_binary_units() {
    assert_eq!(memory_bytes("2G"), Some(2_147_483_648));
    assert_eq!(memory_bytes("512M"), Some(536_870_912));
    assert_eq!(memory_bytes("1G"), Some(1_073_741_824));
    assert_eq!(memory_bytes("lots"), None);
    assert_eq!(memory_bytes(""), None);
}

#[test]
fn plan_of_a_guest_with_two_gigabytes() {
    let plan = bootstrap_vm(&guest("2G", vec!["/tmp/d.img"]), "alpha").unwrap();
    assert_eq!(plan.boot_vcpus, 2);
    assert_eq!(plan.max_vcpus, 2);
    assert_eq!(plan.memory_size, 1_073_741_824);
    assert_eq!(plan.hotplug_size, 34_359_738_368);
    assert_eq!(plan.hotplugged_size, 1_073_741_824);
    assert_eq!(plan.kernel, "/var/lib/tinyvmm/hypervisor");
    assert_eq!(plan.disks.len(), 1);
    assert_eq!(plan.disks[0].path, "/tmp/d.img");
    assert_eq!(
        plan.disks[0].id,
        "D200935876CEFF335D9BD1A92AD7BF4111686C70F40D82A0AAF9915067B538D4"
    );
    assert_eq!(plan.net.tap, "vmialpha8ed3f");
    assert_eq!(plan.net.mac, "66:aa:bb:cc:dd:ee");
    assert_eq!(plan.serial_file, "/run/tinyvmi-alpha/serial");
    assert_eq!(plan.console_file, "/run/tinyvmi-alpha/console");
}

#[test]
fn plan_of_a_guest_with_exactly_the_boot_memory() {
    let plan = bootstrap_vm(&guest("1G", vec![]), "alpha").unwrap();
    assert_eq!(plan.hotplugged_size, 0);
    assert!(plan.disks.is_empty());
}

#[test]
fn plan_refuses_less_than_a_gigabyte() {
    assert_eq!(
        bootstrap_vm(&guest("512M", vec![]), "alpha"),
        Err(Error::NotEnoughRam(536_870_912))
    );
    assert_eq!(
        plan_with_memory(&guest("1G", vec![]), "alpha", Some(1_073_741_823)),
        Err(Error::NotEnoughRam(1_073_741_823))
    );
}

#[test]
fn plan_refuses_a_memory_size_that_is_none() {
    assert_eq!(bootstrap_vm(&guest("plenty", vec![]), "alpha"), Err(Error::Parse));
    assert_eq!(plan_with_memory(&guest("1G", vec![]), "alpha", None), Err(Error::Parse));
}

#[test]
fn answers_of_success_pass() {
    assert_eq!(check_response(200, String::new()), Ok(()));
    assert_eq!(check_response(204, "".to_string()), Ok(()));
    assert_eq!(check_response(299, "x".to_string()), Ok(()));
}

#[test]
fn other_answers_fail_with_status_and_body() {
    assert_eq!(
        check_response(500, "boom".to_string()),
        Err(Error::HttpNoSuccess(500, "boom".to_string()))
    );
    assert_eq!(
        check_response(199, "".to_string()),
        Err(Error::HttpNoSuccess(199, "".to_string()))
    );
    assert_eq!(
        check_response(300, "".to_string()),
        Err(Error::HttpNoSuccess(300, "".to_string()))
    );
}

#[test]
fn create_is_tried_again_for_a_minute() {
    assert_eq!(create_step(Attempt::Failed("refused".to_string()), 0), CreateStep::Retry);
    assert_eq!(create_step(Attempt::Failed("refused".to_string()), 60), CreateStep::Retry);
    assert_eq!(
        create_step(Attempt::Failed("refused".to_string()), 61),
        CreateStep::GiveUp("refused".to_string())
    );
}

#[test]
fn create_ends_with_the_first_answer() {
    assert_eq!(create_step(Attempt::Answered(204, String::new()), 5), CreateStep::Done);
    assert_eq!(
        create_step(Attempt::Answered(500, "no".to_string()), 5),
        CreateStep::Refused(Error::HttpNoSuccess(500, "no".to_string()))
    );
}

#[test]
fn shutdown_waits_for_the_socket_to_go() {
    assert_eq!(shutdown_step(0, false), ShutdownStep::Down);
    assert_eq!(shutdown_step(0, true), ShutdownStep::Wait);
    assert_eq!(shutdown_step(238, true), ShutdownStep::Wait);
    assert_eq!(shutdown_step(239, true), ShutdownStep::TimedOut);
    assert_eq!(shutdown_step(239, false), ShutdownStep::Down);
    assert_eq!(shutdown_step(u32::MAX, true), ShutdownStep::TimedOut);
}

#[test]
fn requests_to_the_hypervisor() {
    assert_eq!(Operation::Create.path(), "/api/v1/vm.create");
    assert_eq!(Operation::Boot.path(), "/api/v1/vm.boot");
    assert_eq!(Operation::PowerButton.path(), "/api/v1/vm.power-button");
    assert!(Operation::Create.is_retried());
    assert!(!Operation::Boot.is_retried());
    assert!(!Operation::PowerButton.is_retried());
    assert_eq!(request_headers(), vec![("host", "localhost"), ("accept", "*/*")]);
}

#[test]
fn boot_and_power_button_are_judged_by_their_answer() {
    assert_eq!(start_vm(200, String::new()), Ok(()));
    assert_eq!(start_vm(404, "no".to_string()), Err(Error::HttpNoSuccess(404, "no".to_string())));
    assert_eq!(shutdown_vm(204, String::new()), Ok(ShutdownStep::Wait));
    assert_eq!(
        shutdown_vm(500, "no".to_string()),
        Err(Error::HttpNoSuccess(500, "no".to_string()))
    );
}
