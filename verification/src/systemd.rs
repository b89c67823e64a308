//! The units that stand for bridges, taps and guests on the host.

use vstd::prelude::*;
use vstd::string::*;

verus! {

/// A static DHCP lease of a guest on its bridge.
#[derive(Clone, Debug, PartialEq, Eq)]
pub struct Lease {
    pub mac: String,
    pub ip: String,
}

/// A file to be written on the host.
#[derive(Clone, Debug, PartialEq, Eq)]
pub struct UnitFile {
    pub path: String,
    pub body: String,
}

#[derive(Clone, Debug, PartialEq, Eq)]
pub enum SystemdUnitCreationError {
    /// The template of the unit could not be rendered.
    Handlebars,
    /// The address of the bridge is no IPv4 network.
    Address,
    /// The kernel has no link of that name.
    LinkNotFound(String),
}

pub const NETWORK_DIR: &'static str = "/run/systemd/network";

pub const SYSTEM_DIR: &'static str = "/run/systemd/system";

pub const BRIDGE_NETDEV: &'static str = "[NetDev]\nName={{name}}\nKind=bridge\n";

pub const BRIDGE_NETWORK: &'static str =
    "[Match]\nName={{name}}\n\n[Network]\nAddress={{address}}\nDNS={{dns}}\nDomains={{domains}}\nConfigureWithoutCarrier=yes\nIgnoreCarrierLoss=yes\nDHCPServer=yes\n\n[DHCPServer]\nEmitDNS=yes\nDNS={{dns_server}}\nEmitRouter=yes\nRouter={{router}}\n\n{{#each leases as |l|}}\n[DHCPServerStaticLease]\nMACAddress={{l.mac}}\nAddress={{l.ip}}\n{{/each}}\n";

pub const TAP_NETWORK: &'static str =
    "[Match]\nName={{name}}\n\n[Network]\nBridge={{bridge}}\n\n[Link]\nMACAddress={{mac}}\n";

pub const TAP_NETDEV: &'static str = "[NetDev]\nName={{name}}\nKind=tap\n# MACAddress={{mac}}\n";

pub const VM_SERVICE: &'static str =
    "[Unit]\nRequires=sys-subsystem-net-devices-{{netbr}}.device\nRequires={{netdev}}.service\nAfter=sys-subsystem-net-devices-{{netbr}}.device\nAfter={{netdev}}.service\n\n[Service]\nType=simple\nExecStart=/run/wrappers/bin/cloud-hypervisor --api-socket=${RUNTIME_DIRECTORY}/api.sock -v\n\nExecStartPost={{self_exe}} systemd bootstrap-post {{name}}\nExecStartPost={{self_exe}} start {{name}}\n\nExecStop={{self_exe}} stop {{name}}\n\nRuntimeDirectory=tinyvmi-{{name}}\n";

pub const TAP_SERVICE: &'static str =
    "[Unit]\n# Requires=sys-subsystem-net-devices-{{netbr}}.device\n# After=sys-subsystem-net-devices-{{netbr}}.device\nPartOf={{vmservice}}.service\n\n[Service]\nType=oneshot\nRemainAfterExit=yes\nExecStart={{self_exe}} systemd bootstrap-pre {{name}}\nExecStop={{self_exe}} systemd teardown {{name}}\n";

pub struct LeaseView {
    pub mac: Seq<char>,
    pub ip: Seq<char>,
}

impl View for Lease {
    type V = LeaseView;

    open spec fn view(&self) -> LeaseView {
        LeaseView { mac: self.mac@, ip: self.ip@ }
    }
}

/// Keys with their values, as the contracts speak of them.
pub open spec fn pairs_view(v: Seq<(String, String)>) -> Seq<(Seq<char>, Seq<char>)> {
    Seq::new(v.len(), |i: int| (v[i].0@, v[i].1@))
}

/// Rows of keys with their values, as the contracts speak of them.
pub open spec fn rows_view(v: Seq<Vec<(String, String)>>) -> Seq<Seq<(Seq<char>, Seq<char>)>> {
    Seq::new(v.len(), |i: int| pairs_view(v[i]@))
}

/// What Handlebars makes of a template over an object that holds each key of
/// `fields` with its value, and under the key `list` one object for each
/// row; nothing where it fails.
pub uninterp spec fn rendered_of(
    template: Seq<char>,
    fields: Seq<(Seq<char>, Seq<char>)>,
    list: Seq<char>,
    rows: Seq<Seq<(Seq<char>, Seq<char>)>>,
) -> Option<Seq<char>>;

/// An IPv4 network as `ipnet` reads it from a text: how it prints the
/// network, and how its address prints; nothing where it reads none.
pub uninterp spec fn ipv4_net_texts(text: Seq<char>) -> Option<(Seq<char>, Seq<char>)>;

#[verifier::external_type_specification]
#[verifier::external_body]
pub struct ExRenderError(handlebars::RenderError);

#[verifier::external_type_specification]
#[verifier::external_body]
pub struct ExAddrParseError(ipnet::AddrParseError);

/// Calls `handlebars::Handlebars::new().render_template` on a JSON object
/// built from `fields`, with the rows as an array of objects under `list`.
/// Trusted: the outcome depends on the four arguments alone.
#[verifier::external_body]
fn render_template(
    template: &str,
    fields: &Vec<(String, String)>,
    list: &str,
    rows: &Vec<Vec<(String, String)>>,
) -> (r: Result<String, handlebars::RenderError>)
    ensures
        r is Ok == rendered_of(template@, pairs_view(fields@), list@, rows_view(rows@)) is Some,
        r is Ok ==> r->Ok_0@ == rendered_of(
            template@,
            pairs_view(fields@),
            list@,
            rows_view(rows@),
        )->Some_0,
{
    let object = |f: &Vec<(String, String)>|
        serde_json::Value::Object(
            f.iter().map(|p| (p.0.clone(), serde_json::Value::String(p.1.clone()))).collect(),
        );
    let mut data = object(fields);
    data[list] = serde_json::Value::Array(rows.iter().map(object).collect());
    handlebars::Handlebars::new().render_template(template, &data)
}

/// Calls `str::parse` for `ipnet::Ipv4Net`, and prints the network and its
/// address. Trusted: the outcome depends on the text alone.
#[verifier::external_body]
fn parse_ipv4_net(text: &str) -> (r: Result<(String, String), ipnet::AddrParseError>)
    ensures
        r is Ok == ipv4_net_texts(text@) is Some,
        r is Ok ==> r->Ok_0.0@ == ipv4_net_texts(text@)->Some_0.0 && r->Ok_0.1@ == ipv4_net_texts(
            text@,
        )->Some_0.1,
{
    match text.parse::<ipnet::Ipv4Net>() {
        Ok(net) => Ok((format!("{}", net), format!("{}", net.addr()))),
        Err(e) => Err(e),
    }
}

/// A key with its value.
fn field(key: &str, value: &str) -> (r: (String, String))
    ensures
        r.0@ == key@,
        r.1@ == value@,
{
    (String::from_str(key), String::from_str(value))
}

/// `dir` with `file` under it; an absolute `file` stands for itself.
pub open spec fn joined_of(dir: Seq<char>, file: Seq<char>) -> Seq<char> {
    if file.len() > 0 && file[0] == '/' {
        file
    } else {
        dir + "/"@ + file
    }
}

/// `dir` with `file` under it, as a path is joined: an absolute `file`
/// stands for itself.
pub fn join_path(dir: &str, file: &str) -> (r: String)
    ensures
        r@ == joined_of(dir@, file@),
{
    if file.unicode_len() > 0 && file.get_char(0) == '/' {
        String::from_str(file)
    } else {
        let mut r = String::from_str(dir);
        r.append("/");
        r.append(file);
        r
    }
}

/// The path of the service unit called `name`.
pub open spec fn unit_path_of(name: Seq<char>) -> Seq<char> {
    joined_of(SYSTEM_DIR@, name + ".service"@)
}

/// The path of the network unit called `name`, of the given type.
pub open spec fn network_path_of(name: Seq<char>, unit_type: Seq<char>) -> Seq<char> {
    joined_of(NETWORK_DIR@, name + "."@ + unit_type)
}
/// The path of the service unit called `name`.

pub fn get_unit_path(name: &str) -> (r: String)
    ensures
        r@ == unit_path_of(name@),
{
    let mut unit_name = String::from_str(name);
    unit_name.append(".service");
    join_path(SYSTEM_DIR, unit_name.as_str())
}
/// The path of the network unit called `name`, of the given type.

pub fn get_network_unit_path(name: &str, unit_type: &str) -> (r: String)
    ensures
        r@ == network_path_of(name@, unit_type@),
{
    let mut unit_name = String::from_str(name);
    unit_name.append(".");
    unit_name.append(unit_type);
    join_path(NETWORK_DIR, unit_name.as_str())
}
/// The name of the service unit of the guest `name`.

pub fn get_systemd_unit_name(name: &str) -> (r: String)
    ensures
        r@ == "tinyvmi-"@ + name@,
{
    let mut r = String::from_str("tinyvmi-");
    r.append(name);
    r
}
/// The name of the service unit of the tap of the guest `name`.

pub fn get_systemd_tap_unit_name(name: &str) -> (r: String)
    ensures
        r@ == "tinyvmi-tap-"@ + name@,
{
    let mut r = String::from_str("tinyvmi-tap-");
    r.append(name);
    r
}

/// The MAC address of the tap of a guest: that of the guest with `76` for
/// its first byte.
pub fn vm_mac_to_tap_mac(vm_mac: &str) -> (r: String)
    requires
        vm_mac@.len() >= 3,
    ensures
        r@ == "76:"@ + vm_mac@.subrange(3, vm_mac@.len() as int),
{
    let n = vm_mac.unicode_len();
    let mut r = String::from_str("76:");
    r.append(vm_mac.substring_char(3, n));
    r
}

/// The leases as the contracts speak of them.
pub open spec fn leases_view(v: Seq<Lease>) -> Seq<LeaseView> {
    Seq::new(v.len(), |i: int| v[i]@)
}

/// One row for each lease, with its MAC address and its IP address.
pub open spec fn lease_rows(leases: Seq<LeaseView>) -> Seq<Seq<(Seq<char>, Seq<char>)>> {
    Seq::new(leases.len(), |i: int| seq![("mac"@, leases[i].mac), ("ip"@, leases[i].ip)])
}

/// The body of the device unit of a bridge.
pub open spec fn bridge_netdev_of(name: Seq<char>) -> Option<Seq<char>> {
    rendered_of(BRIDGE_NETDEV@, seq![("name"@, name)], "leases"@, seq![])
}

/// The body of the network unit of a bridge whose address prints as
/// `address` and has the router `router`.
pub open spec fn bridge_network_of(
    name: Seq<char>,
    domain: Seq<char>,
    address: Seq<char>,
    router: Seq<char>,
    dns_listener: Seq<char>,
    dns_server: Seq<char>,
    leases: Seq<LeaseView>,
) -> Option<Seq<char>> {
    rendered_of(
        BRIDGE_NETWORK@,
        seq![
            ("name"@, name),
            ("address"@, address),
            ("dns"@, dns_listener),
            ("dns_server"@, dns_server),
            ("router"@, router),
            ("domains"@, "~"@ + domain),
        ],
        "leases"@,
        lease_rows(leases),
    )
}

/// The body of the network unit of a tap.
pub open spec fn tap_network_of(name: Seq<char>, bridge: Seq<char>, mac: Seq<char>) -> Option<
    Seq<char>,
> {
    rendered_of(
        TAP_NETWORK@,
        seq![("name"@, name), ("bridge"@, bridge), ("mac"@, mac)],
        "leases"@,
        seq![],
    )
}

/// The body of the device unit of a tap.
pub open spec fn tap_netdev_of(name: Seq<char>, mac: Seq<char>) -> Option<Seq<char>> {
    rendered_of(TAP_NETDEV@, seq![("name"@, name), ("mac"@, mac)], "leases"@, seq![])
}

/// The body of the service unit of a guest.
pub open spec fn vm_service_of(name: Seq<char>, bridge: Seq<char>, self_exe: Seq<char>) -> Option<
    Seq<char>,
> {
    rendered_of(
        VM_SERVICE@,
        seq![
            ("name"@, name),
            ("self_exe"@, self_exe),
            ("netbr"@, bridge),
            ("netdev"@, "tinyvmi-tap-"@ + name),
        ],
        "leases"@,
        seq![],
    )
}

/// The body of the service unit of the tap of a guest.
pub open spec fn tap_service_of(name: Seq<char>, bridge: Seq<char>, self_exe: Seq<char>) -> Option<
    Seq<char>,
> {
    rendered_of(
        TAP_SERVICE@,
        seq![
            ("name"@, name),
            ("self_exe"@, self_exe),
            ("netbr"@, bridge),
            ("vmservice"@, "tinyvmi-"@ + name),
        ],
        "leases"@,
        seq![],
    )
}

/// Renders a template over the fields alone.
fn render_fields(template: &str, fields: &Vec<(String, String)>) -> (r: Result<
    String,
    SystemdUnitCreationError,
>)
    ensures
        match rendered_of(template@, pairs_view(fields@), "leases"@, seq![]) {
            Some(body) => r is Ok && r->Ok_0@ == body,
            None => r == Err::<String, SystemdUnitCreationError>(
                SystemdUnitCreationError::Handlebars,
            ),
        },
{
    let rows: Vec<Vec<(String, String)>> = Vec::new();
    assert(rows_view(rows@) =~= seq![]);
    match render_template(template, fields, "leases", &rows) {
        Ok(body) => Ok(body),
        Err(_) => Err(SystemdUnitCreationError::Handlebars),
    }
}

/// The device unit of the bridge `name`.
pub fn create_bridge(name: &str) -> (r: Result<UnitFile, SystemdUnitCreationError>)
    ensures
        match bridge_netdev_of(name@) {
            Some(body) => r is Ok && r->Ok_0.body@ == body && r->Ok_0.path@ == network_path_of(
                name@,
                "netdev"@,
            ),
            None => r == Err::<UnitFile, SystemdUnitCreationError>(
                SystemdUnitCreationError::Handlebars,
            ),
        },
{
    let mut fields: Vec<(String, String)> = Vec::new();
    fields.push(field("name", name));
    assert(pairs_view(fields@) =~= seq![("name"@, name@)]);
    match render_fields(BRIDGE_NETDEV, &fields) {
        Ok(body) => Ok(UnitFile { path: get_network_unit_path(name, "netdev"), body }),
        Err(e) => Err(e),
    }
}

/// The network unit of the bridge `name`, which serves the zone `domain` on
/// the network `address`, with one static lease for each of `leases`. An
/// address that is no IPv4 network is refused.
pub fn create_bridge_network(
    name: &str,
    domain: &str,
    address: &str,
    dns_listener: &str,
    dns_server: &str,
    leases: &Vec<Lease>,
) -> (r: Result<UnitFile, SystemdUnitCreationError>)
    ensures
        match ipv4_net_texts(address@) {
            None => r == Err::<UnitFile, SystemdUnitCreationError>(
                SystemdUnitCreationError::Address,
            ),
            Some(net) => match bridge_network_of(
                name@,
                domain@,
                net.0,
                net.1,
                dns_listener@,
                dns_server@,
                leases_view(leases@),
            ) {
                Some(body) => r is Ok && r->Ok_0.body@ == body && r->Ok_0.path@
                    == network_path_of(name@, "network"@),
                None => r == Err::<UnitFile, SystemdUnitCreationError>(
                    SystemdUnitCreationError::Handlebars,
                ),
            },
        },
{
    let (net, router) = match parse_ipv4_net(address) {
        Ok(texts) => texts,
        Err(_) => {
            return Err(SystemdUnitCreationError::Address);
        },
    };
    let mut domains = String::from_str("~");
    domains.append(domain);
    let mut fields: Vec<(String, String)> = Vec::new();
    fields.push(field("name", name));
    fields.push(field("address", net.as_str()));
    fields.push(field("dns", dns_listener));
    fields.push(field("dns_server", dns_server));
    fields.push(field("router", router.as_str()));
    fields.push(field("domains", domains.as_str()));
    assert(pairs_view(fields@) =~= seq![
        ("name"@, name@),
        ("address"@, net@),
        ("dns"@, dns_listener@),
        ("dns_server"@, dns_server@),
        ("router"@, router@),
        ("domains"@, "~"@ + domain@),
    ]);
    let mut rows: Vec<Vec<(String, String)>> = Vec::new();
    let mut i: usize = 0;
    while i < leases.len()
        invariant
            0 <= i <= leases@.len(),
            rows@.len() == i,
            forall|j: int|
                0 <= j < i ==> pairs_view((#[trigger] rows@[j])@) == seq![
                    ("mac"@, leases@[j].mac@),
                    ("ip"@, leases@[j].ip@),
                ],
        decreases leases@.len() - i,
    {
        let mut row: Vec<(String, String)> = Vec::new();
        row.push(field("mac", leases[i].mac.as_str()));
        row.push(field("ip", leases[i].ip.as_str()));
        assert(pairs_view(row@) =~= seq![
            ("mac"@, leases@[i as int].mac@),
            ("ip"@, leases@[i as int].ip@),
        ]);
        rows.push(row);
        i = i + 1;
    }
    assert(rows_view(rows@) =~= lease_rows(leases_view(leases@)));
    match render_template(BRIDGE_NETWORK, &fields, "leases", &rows) {
        Ok(body) => Ok(UnitFile { path: get_network_unit_path(name, "network"), body }),
        Err(_) => Err(SystemdUnitCreationError::Handlebars),
    }
}

/// The network unit of the tap `name` on the bridge `bridge`, with the MAC
/// address of the tap of the guest whose address is `mac`.
pub fn create_tap_network(name: &str, bridge: &str, mac: &str) -> (r: Result<
    UnitFile,
    SystemdUnitCreationError,
>)
    requires
        mac@.len() >= 3,
    ensures
        match tap_network_of(name@, bridge@, "76:"@ + mac@.subrange(3, mac@.len() as int)) {
            Some(body) => r is Ok && r->Ok_0.body@ == body && r->Ok_0.path@ == network_path_of(
                name@,
                "network"@,
            ),
            None => r == Err::<UnitFile, SystemdUnitCreationError>(
                SystemdUnitCreationError::Handlebars,
            ),
        },
{
    let tap_mac = vm_mac_to_tap_mac(mac);
    let mut fields: Vec<(String, String)> = Vec::new();
    fields.push(field("name", name));
    fields.push(field("bridge", bridge));
    fields.push(field("mac", tap_mac.as_str()));
    assert(pairs_view(fields@) =~= seq![("name"@, name@), ("bridge"@, bridge@), ("mac"@, tap_mac@)]);
    match render_fields(TAP_NETWORK, &fields) {
        Ok(body) => Ok(UnitFile { path: get_network_unit_path(name, "network"), body }),
        Err(e) => Err(e),
    }
}

/// The device unit of the tap `name`.
pub fn create_tap(name: &str, mac: &str) -> (r: Result<UnitFile, SystemdUnitCreationError>)
    requires
        mac@.len() >= 3,
    ensures
        match tap_netdev_of(name@, "76:"@ + mac@.subrange(3, mac@.len() as int)) {
            Some(body) => r is Ok && r->Ok_0.body@ == body && r->Ok_0.path@ == network_path_of(
                name@,
                "netdev"@,
            ),
            None => r == Err::<UnitFile, SystemdUnitCreationError>(
                SystemdUnitCreationError::Handlebars,
            ),
        },
{
    let tap_mac = vm_mac_to_tap_mac(mac);
    let mut fields: Vec<(String, String)> = Vec::new();
    fields.push(field("name", name));
    fields.push(field("mac", tap_mac.as_str()));
    assert(pairs_view(fields@) =~= seq![("name"@, name@), ("mac"@, tap_mac@)]);
    match render_fields(TAP_NETDEV, &fields) {
        Ok(body) => Ok(UnitFile { path: get_network_unit_path(name, "netdev"), body }),
        Err(e) => Err(e),
    }
}

/// The two units of a guest, each with the name of the unit and its body:
/// first the service of the guest, then the service of its tap. `self_exe`
/// is the path of the program that the units call.
pub fn generate_vm_service(name: &str, bridge_name: &str, self_exe: &str) -> (r: Result<
    Vec<(String, String)>,
    SystemdUnitCreationError,
>)
    ensures
        match (
            vm_service_of(name@, bridge_name@, self_exe@),
            tap_service_of(name@, bridge_name@, self_exe@),
        ) {
            (Some(vm), Some(tap)) => r is Ok && pairs_view(r->Ok_0@) == seq![
                ("tinyvmi-"@ + name@, vm),
                ("tinyvmi-tap-"@ + name@, tap),
            ],
            _ => r == Err::<Vec<(String, String)>, SystemdUnitCreationError>(
                SystemdUnitCreationError::Handlebars,
            ),
        },
{
    let vm_unit = get_systemd_unit_name(name);
    let tap_unit = get_systemd_tap_unit_name(name);
    let mut fields: Vec<(String, String)> = Vec::new();
    fields.push(field("name", name));
    fields.push(field("self_exe", self_exe));
    fields.push(field("netbr", bridge_name));
    fields.push(field("netdev", tap_unit.as_str()));
    assert(pairs_view(fields@) =~= seq![
        ("name"@, name@),
        ("self_exe"@, self_exe@),
        ("netbr"@, bridge_name@),
        ("netdev"@, "tinyvmi-tap-"@ + name@),
    ]);
    let vm_body = match render_fields(VM_SERVICE, &fields) {
        Ok(body) => body,
        Err(e) => {
            return Err(e);
        },
    };
    let mut fields: Vec<(String, String)> = Vec::new();
    fields.push(field("name", name));
    fields.push(field("self_exe", self_exe));
    fields.push(field("netbr", bridge_name));
    fields.push(field("vmservice", vm_unit.as_str()));
    assert(pairs_view(fields@) =~= seq![
        ("name"@, name@),
        ("self_exe"@, self_exe@),
        ("netbr"@, bridge_name@),
        ("vmservice"@, "tinyvmi-"@ + name@),
    ]);
    let tap_body = match render_fields(TAP_SERVICE, &fields) {
        Ok(body) => body,
        Err(e) => {
            return Err(e);
        },
    };
    let mut units: Vec<(String, String)> = Vec::new();
    units.push((vm_unit, vm_body));
    units.push((tap_unit, tap_body));
    assert(pairs_view(units@) =~= seq![
        ("tinyvmi-"@ + name@, vm_body@),
        ("tinyvmi-tap-"@ + name@, tap_body@),
    ]);
    Ok(units)
}

/// Whether some unit is not on the host as it should be: `on_disk[i]` holds
/// what was read of the unit `i`, or nothing where the read failed.
pub open spec fn differs(units: Seq<(Seq<char>, Seq<char>)>, on_disk: Seq<Option<Seq<char>>>) -> bool {
    exists|i: int| 0 <= i < units.len() && #[trigger] unit_differs(units, on_disk, i)
}

/// Whether the unit `i` is not on the host as it should be.
pub open spec fn unit_differs(
    units: Seq<(Seq<char>, Seq<char>)>,
    on_disk: Seq<Option<Seq<char>>>,
    i: int,
) -> bool {
    !(i < on_disk.len() && on_disk[i] == Some(units[i].1))
}

/// What was read of the units, as the contracts speak of it.
pub open spec fn read_view(v: Seq<Option<String>>) -> Seq<Option<Seq<char>>> {
    Seq::new(
        v.len(),
        |i: int|
            match v[i] {
                Some(s) => Some(s@),
                None => None,
            },
    )
}

/// Whether the units of a guest have to be written: whether one of them is
/// missing on the host, or differs there in one byte from its body.
pub fn has_diffs(units: &Vec<(String, String)>, on_disk: &Vec<Option<String>>) -> (r: bool)
    ensures
        r == differs(pairs_view(units@), read_view(on_disk@)),
{
    let mut i: usize = 0;
    while i < units.len()
        invariant
            0 <= i <= units@.len(),
            forall|j: int|
                0 <= j < i ==> !#[trigger] unit_differs(
                    pairs_view(units@),
                    read_view(on_disk@),
                    j,
                ),
        decreases units@.len() - i,
    {
        if i >= on_disk.len() {
            assert(unit_differs(pairs_view(units@), read_view(on_disk@), i as int));
            return true;
        }
        match &on_disk[i] {
            None => {
                assert(unit_differs(pairs_view(units@), read_view(on_disk@), i as int));
                return true;
            },
            Some(contents) => {
                if !crate::text::same_text(contents.as_str(), units[i].1.as_str()) {
                    assert(unit_differs(pairs_view(units@), read_view(on_disk@), i as int));
                    return true;
                }
            },
        }
        i = i + 1;
    }
    false
}

/// Units that are on the host as they were rendered need no second write.
pub proof fn lemma_written_units_settle(units: Seq<(Seq<char>, Seq<char>)>)
    ensures
        !differs(units, Seq::new(units.len(), |i: int| Some(units[i].1))),
{
}

/// The unit files of a network device that is taken down, in the order in
/// which they are removed: first its network unit, then its device unit.
pub fn netdev_files(name: &str) -> (r: (String, String))
    ensures
        r.0@ == network_path_of(name@, "network"@),
        r.1@ == network_path_of(name@, "netdev"@),
{
    (get_network_unit_path(name, "network"), get_network_unit_path(name, "netdev"))
}

/// What taking down the network device `name` has come to, once its unit
/// files are gone and networkd has reloaded: a link that the kernel does
/// not have cannot be deleted.
pub fn destroy_netdev(name: &str, link_found: bool) -> (r: Result<(), SystemdUnitCreationError>)
    ensures
        link_found ==> r is Ok,
        !link_found ==> r is Err && r->Err_0 is LinkNotFound && r->Err_0->LinkNotFound_0@ == name@,
{
    if link_found {
        Ok(())
    } else {
        Err(SystemdUnitCreationError::LinkNotFound(String::from_str(name)))
    }
}

} // verus!
