//! The per-guest hypervisor: derived names, the bootstrap plan and the
//! decisions of its client.

use vstd::prelude::*;
use vstd::string::*;
use crate::entity::{VirtualMachine, VirtualMachineView};
use crate::hashing::{hex_lower, hex_of, hex_upper, lemma_hex_is_ascii, sha256, sha256_of};

verus! {

/// The boot memory of every guest, and the least a guest may ask for: 1 GiB.
pub const BOOT_MEMORY: u64 = 1_073_741_824;

/// The most memory that can be plugged into a running guest: 32 GiB.
pub const HOTPLUG_LIMIT: u64 = 34_359_738_368;

#[derive(Clone, Debug, PartialEq, Eq)]
pub enum Error {
    /// The memory size is no byte size.
    Parse,
    /// The guest asks for less memory, in bytes, than the boot memory.
    NotEnoughRam(u64),
    /// The hypervisor answered with a status outside 200..=299.
    HttpNoSuccess(u16, String),
}

#[derive(Clone, Debug, PartialEq, Eq)]
pub struct DiskPlan {
    pub path: String,
    pub id: String,
}

#[derive(Clone, Debug, PartialEq, Eq)]
pub struct NetPlan {
    pub tap: String,
    pub mac: String,
}

/// What the hypervisor is asked to create for one guest.
#[derive(Clone, Debug, PartialEq, Eq)]
pub struct VmPlan {
    pub boot_vcpus: u8,
    pub max_vcpus: u8,
    pub memory_size: u64,
    pub hotplug_size: u64,
    pub hotplugged_size: u64,
    pub kernel: String,
    pub disks: Vec<DiskPlan>,
    pub net: NetPlan,
    pub serial_file: String,
    pub console_file: String,
}

/// The first `n` items of `s`, or all of it where it is shorter.
pub open spec fn prefix_of(s: Seq<char>, n: nat) -> Seq<char> {
    if s.len() <= n {
        s
    } else {
        s.subrange(0, n as int)
    }
}

/// The tap device of a guest: `vmi`, then up to eight characters of the
/// guest's name, then the first five hexadecimal digits of the name's digest.
pub open spec fn tap_name_of(name: Seq<char>) -> Seq<char> {
    seq!['v', 'm', 'i'] + prefix_of(name, 8) + hex_of(
        sha256_of(vstd::utf8::encode_utf8(name)),
        false,
    ).subrange(0, 5)
}

/// The identifier of a disk: the digest of its path, in upper case.
pub open spec fn disk_id_of(path: Seq<char>) -> Seq<char> {
    hex_of(sha256_of(vstd::utf8::encode_utf8(path)), true)
}

/// A file in the runtime directory of a guest.
pub open spec fn runtime_file_of(name: Seq<char>, file: Seq<char>) -> Seq<char> {
    "/run/tinyvmi-"@ + name + "/"@ + file
}

/// The size that `byte_unit` reads from a text, where it reads one.
pub uninterp spec fn byte_size_of(text: Seq<char>) -> Option<u128>;

/// The memory of a guest in bytes: its size with `iB` appended, read as a
/// byte size and cut to 64 bits.
pub open spec fn memory_bytes_of(memory: Seq<char>) -> Option<u64> {
    match byte_size_of(memory + "iB"@) {
        Some(n) => Some(n as u64),
        None => None,
    }
}

#[verifier::external_type_specification]
#[verifier::external_body]
pub struct ExByteError(byte_unit::ByteError);

/// Calls `byte_unit::Byte::from_str` and, where it succeeds, `get_bytes`.
/// Trusted: the outcome depends on the text alone.
#[verifier::external_body]
fn parse_byte_size(text: &str) -> (r: Result<u128, byte_unit::ByteError>)
    ensures
        r.is_ok() == byte_size_of(text@).is_some(),
        r.is_ok() ==> r.unwrap() == byte_size_of(text@).unwrap(),
{
    match byte_unit::Byte::from_str(text) {
        Ok(b) => Ok(b.get_bytes()),
        Err(e) => Err(e),
    }
}
/// The name of the tap device of the guest `name`: short enough for a
/// network device where the name is ASCII, and the same for the same name.

pub fn get_vm_tap_name(name: &str) -> (tap: String)
    ensures
        tap@ == tap_name_of(name@),
        tap@.len() <= 16,
        is_ascii(name) ==> tap.is_ascii() && vstd::utf8::encode_utf8(tap@).len() <= 16,
{
    let digest = sha256(name.as_bytes());
    let hash = hex_lower(digest.as_slice());
    proof {
        lemma_hex_is_ascii(digest@, false);
    }
    let n = name.unicode_len();
    let keep: usize = if n < 8 { n } else { 8 };
    let mut tap = String::from_str("vmi");
    proof {
        reveal_strlit("vmi");
    }
    tap.append(name.substring_char(0, keep));
    tap.append(hash.as_str().substring_char(0, 5));
    proof {
        assert(tap@ =~= tap_name_of(name@));
        if is_ascii(name) {
            assert(vstd::utf8::is_ascii_chars(tap@));
            vstd::utf8::is_ascii_chars_encode_utf8(tap@);
        }
    }
    tap
}

/// The identifier under which a disk is handed to the hypervisor.
pub fn digest(path: &str) -> (id: String)
    ensures
        id@ == disk_id_of(path@),
        id@.len() == 64,
{
    let d = sha256(path.as_bytes());
    proof {
        lemma_hex_is_ascii(d@, true);
    }
    hex_upper(d.as_slice())
}

/// A file in the runtime directory of the guest `name`.
pub fn runtime_file(name: &str, file: &str) -> (path: String)
    ensures
        path@ == runtime_file_of(name@, file@),
{
    let mut path = String::from_str("/run/tinyvmi-");
    path.append(name);
    path.append("/");
    path.append(file);
    path
}

/// The socket on which the hypervisor of the guest `name` listens.
pub fn api_socket_path(name: &str) -> (path: String)
    ensures
        path@ == runtime_file_of(name@, "api.sock"@),
{
    runtime_file(name, "api.sock")
}

/// What `plan` must hold for the guest `vm` called `name` with `memory` bytes.
pub open spec fn plan_for(plan: VmPlan, vm: VirtualMachineView, name: Seq<char>, memory: u64) -> bool {
    &&& plan.boot_vcpus == vm.spec.cpus
    &&& plan.max_vcpus == vm.spec.cpus
    &&& plan.memory_size == BOOT_MEMORY
    &&& plan.hotplug_size == HOTPLUG_LIMIT
    &&& plan.hotplugged_size == memory - BOOT_MEMORY
    &&& plan.kernel@ == "/var/lib/tinyvmm/hypervisor"@
    &&& plan.disks@.len() == vm.spec.disks.len()
    &&& forall|i: int|
        0 <= i < plan.disks@.len() ==> (#[trigger] plan.disks@[i]).path@ == vm.spec.disks[i]
            && plan.disks@[i].id@ == disk_id_of(vm.spec.disks[i])
    &&& plan.net.tap@ == tap_name_of(name)
    &&& plan.net.mac@ == vm.spec.mac
    &&& plan.serial_file@ == runtime_file_of(name, "serial"@)
    &&& plan.console_file@ == runtime_file_of(name, "console"@)
}

/// The plan for a guest whose memory size has been read already: `None`
/// where the text was no byte size.
pub fn plan_with_memory(vm: &VirtualMachine, name: &str, memory: Option<u64>) -> (r: Result<
    VmPlan,
    Error,
>)
    ensures
        memory is None ==> r is Err && r->Err_0 is Parse,
        memory is Some && memory->Some_0 < BOOT_MEMORY ==> r is Err && r->Err_0
            == Error::NotEnoughRam(memory->Some_0),
        memory is Some && memory->Some_0 >= BOOT_MEMORY ==> r is Ok && plan_for(
            r->Ok_0,
            vm@,
            name@,
            memory->Some_0,
        ),
{
    let mem_size = match memory {
        None => {
            return Err(Error::Parse);
        },
        Some(m) => m,
    };
    if mem_size < BOOT_MEMORY {
        return Err(Error::NotEnoughRam(mem_size));
    }
    let mut disks: Vec<DiskPlan> = Vec::new();
    let mut i: usize = 0;
    while i < vm.spec.disks.len()
        invariant
            0 <= i <= vm.spec.disks@.len(),
            disks@.len() == i,
            forall|j: int|
                0 <= j < i ==> (#[trigger] disks@[j]).path@ == vm.spec.disks@[j]@ && disks@[j].id@
                    == disk_id_of(vm.spec.disks@[j]@),
        decreases vm.spec.disks@.len() - i,
    {
        let path = &vm.spec.disks[i];
        disks.push(DiskPlan { path: path.clone(), id: digest(path.as_str()) });
        i = i + 1;
    }
    Ok(
        VmPlan {
            boot_vcpus: vm.spec.cpus,
            max_vcpus: vm.spec.cpus,
            memory_size: BOOT_MEMORY,
            hotplug_size: HOTPLUG_LIMIT,
            hotplugged_size: mem_size - BOOT_MEMORY,
            kernel: String::from_str("/var/lib/tinyvmm/hypervisor"),
            disks,
            net: NetPlan { tap: get_vm_tap_name(name), mac: vm.spec.mac.clone() },
            serial_file: runtime_file(name, "serial"),
            console_file: runtime_file(name, "console"),
        },
    )
}

/// The memory of a guest in bytes, read from its size text.
pub fn memory_bytes(memory: &str) -> (r: Option<u64>)
    ensures
        r == memory_bytes_of(memory@),
{
    let mut text = String::from_str(memory);
    text.append("iB");
    match parse_byte_size(text.as_str()) {
        Ok(n) => Some(#[verifier::truncate] (n as u64)),
        Err(_) => None,
    }
}

/// What the hypervisor is asked to create for the guest `vm` called `name`:
/// an error where its memory size cannot be read or is under the boot
/// memory, else the plan.
pub fn bootstrap_vm(vm: &VirtualMachine, name: &str) -> (r: Result<VmPlan, Error>)
    ensures
        memory_bytes_of(vm@.spec.memory) is None ==> r is Err && r->Err_0 is Parse,
        memory_bytes_of(vm@.spec.memory) is Some && memory_bytes_of(vm@.spec.memory)->Some_0
            < BOOT_MEMORY ==> r is Err && r->Err_0 == Error::NotEnoughRam(
            memory_bytes_of(vm@.spec.memory)->Some_0,
        ),
        memory_bytes_of(vm@.spec.memory) is Some && memory_bytes_of(vm@.spec.memory)->Some_0
            >= BOOT_MEMORY ==> r is Ok && plan_for(
            r->Ok_0,
            vm@,
            name@,
            memory_bytes_of(vm@.spec.memory)->Some_0,
        ),
{
    let memory = memory_bytes(vm.spec.memory.as_str());
    plan_with_memory(vm, name, memory)
}

/// Whether a status is one of success.
pub open spec fn is_success(status: u16) -> bool {
    200 <= status < 300
}

/// Judges the answer of the hypervisor: anything but a status of success
/// fails the call, with the status and the body's text.
pub fn check_response(status: u16, body: String) -> (r: Result<(), Error>)
    ensures
        is_success(status) ==> r is Ok,
        !is_success(status) ==> r is Err && r->Err_0 == Error::HttpNoSuccess(status, body),
{
    if 200 <= status && status < 300 {
        Ok(())
    } else {
        Err(Error::HttpNoSuccess(status, body))
    }
}

/// The longest that the client goes on asking the hypervisor to create a
/// guest, in seconds.
pub const CREATE_RETRY_SECONDS: u64 = 60;

/// How often the client looks for the socket of a guest that shuts down.
pub const SHUTDOWN_PROBES: u32 = 240;

/// What came of one try to ask the hypervisor.
#[derive(Clone, Debug, PartialEq, Eq)]
pub enum Attempt {
    /// No answer came: the connection or the request failed, with this
    /// message.
    Failed(String),
    /// The hypervisor answered with a status and a body.
    Answered(u16, String),
}

/// What the client does after one try to create a guest.
#[derive(Clone, Debug, PartialEq, Eq)]
pub enum CreateStep {
    /// The guest is created.
    Done,
    /// Wait, and try again.
    Retry,
    /// Give up with the message of the last failure.
    GiveUp(String),
    /// The hypervisor refused: the call fails with its answer.
    Refused(Error),
}

/// Decides what follows one try to create a guest, `elapsed` seconds after
/// the first. A try without an answer is made again until the time is up.
/// An answer ends the tries, whatever it says.
pub fn create_step(attempt: Attempt, elapsed: u64) -> (r: CreateStep)
    ensures
        match attempt {
            Attempt::Failed(message) => if elapsed <= CREATE_RETRY_SECONDS {
                r is Retry
            } else {
                r is GiveUp && r->GiveUp_0 == message
            },
            Attempt::Answered(status, body) => if is_success(status) {
                r is Done
            } else {
                r is Refused && r->Refused_0 == Error::HttpNoSuccess(status, body)
            },
        },
{
    match attempt {
        Attempt::Failed(message) => if elapsed <= CREATE_RETRY_SECONDS {
            CreateStep::Retry
        } else {
            CreateStep::GiveUp(message)
        },
        Attempt::Answered(status, body) => match check_response(status, body) {
            Ok(_) => CreateStep::Done,
            Err(e) => CreateStep::Refused(e),
        },
    }
}

/// What the client does after it has looked for the socket of a guest that
/// shuts down.
#[derive(Clone, Copy, Debug, PartialEq, Eq, Structural)]
pub enum ShutdownStep {
    /// The socket is gone: the guest is down.
    Down,
    /// Sleep a second, and look again.
    Wait,
    /// The socket was there at every look: stop waiting.
    TimedOut,
}

/// Decides what follows a look for the socket of a guest that shuts down,
/// after `probes` earlier looks.
pub fn shutdown_step(probes: u32, socket_present: bool) -> (r: ShutdownStep)
    ensures
        !socket_present ==> r == ShutdownStep::Down,
        socket_present && probes + 1 < SHUTDOWN_PROBES ==> r == ShutdownStep::Wait,
        socket_present && probes + 1 >= SHUTDOWN_PROBES ==> r == ShutdownStep::TimedOut,
{
    if !socket_present {
        ShutdownStep::Down
    } else if probes < SHUTDOWN_PROBES - 1 {
        ShutdownStep::Wait
    } else {
        ShutdownStep::TimedOut
    }
}

/// What the client asks of the hypervisor of a guest.
#[derive(Clone, Copy, Debug, PartialEq, Eq, Structural)]
pub enum Operation {
    /// Create the guest from its plan.
    Create,
    /// Boot the guest.
    Boot,
    /// Press the power button of the guest.
    PowerButton,
}

impl Operation {
    /// The path of the request, which is a `PUT`.
    pub open spec fn path_of(self) -> Seq<char> {
        match self {
            Operation::Create => "/api/v1/vm.create"@,
            Operation::Boot => "/api/v1/vm.boot"@,
            Operation::PowerButton => "/api/v1/vm.power-button"@,
        }
    }

    /// The path of the request, which is a `PUT`.
    pub fn path(self) -> (r: &'static str)
        ensures
            r@ == self.path_of(),
    {
        match self {
            Operation::Create => "/api/v1/vm.create",
            Operation::Boot => "/api/v1/vm.boot",
            Operation::PowerButton => "/api/v1/vm.power-button",
        }
    }

    /// Whether a request that got no answer is made again: only the create
    /// is, since the hypervisor may still be starting when it is asked.
    pub fn is_retried(self) -> (r: bool)
        ensures
            r == (self == Operation::Create),
    {
        match self {
            Operation::Create => true,
            _ => false,
        }
    }
}

/// Starts the guest: judges the answer of the hypervisor to the boot.
pub fn start_vm(status: u16, body: String) -> (r: Result<(), Error>)
    ensures
        is_success(status) ==> r is Ok,
        !is_success(status) ==> r is Err && r->Err_0 == Error::HttpNoSuccess(status, body),
{
    check_response(status, body)
}

/// Shuts the guest down: judges the answer of the hypervisor to the power
/// button. After an answer of success the client waits for the socket to
/// go, step by step.
pub fn shutdown_vm(status: u16, body: String) -> (r: Result<ShutdownStep, Error>)
    ensures
        is_success(status) ==> r == Ok::<ShutdownStep, Error>(ShutdownStep::Wait),
        !is_success(status) ==> r is Err && r->Err_0 == Error::HttpNoSuccess(status, body),
{
    match check_response(status, body) {
        Ok(_) => Ok(ShutdownStep::Wait),
        Err(e) => Err(e),
    }
}

/// The headers that every request to the hypervisor carries: the host
/// `localhost`, and that any answer is accepted.
pub fn request_headers() -> (r: Vec<(&'static str, &'static str)>)
    ensures
        r@.len() == 2,
        r@[0].0@ == "host"@,
        r@[0].1@ == "localhost"@,
        r@[1].0@ == "accept"@,
        r@[1].1@ == "*/*"@,
{
    let mut r: Vec<(&'static str, &'static str)> = Vec::new();
    r.push(("host", "localhost"));
    r.push(("accept", "*/*"));
    r
}

} // verus!
