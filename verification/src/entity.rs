//! The two kinds of resource that the control plane manages.

use vstd::prelude::*;

verus! {

#[derive(Clone, Debug, PartialEq, Eq)]
pub struct Metadata {
    pub name: String,
}

#[derive(Clone, Debug, PartialEq, Eq)]
pub struct BridgeSpec {
    pub address: String,
    pub dns_zone: String,
    pub dns_server: String,
}

/// A host network segment with its DHCP and DNS settings.
#[derive(Clone, Debug, PartialEq, Eq)]
pub struct Bridge {
    pub spec: BridgeSpec,
    pub api_version: String,
    pub kind: String,
    pub metadata: Metadata,
}

#[derive(Clone, Debug, PartialEq, Eq)]
pub struct VirtualMachineSpec {
    pub cpus: u8,
    pub memory: String,
    pub disks: Vec<String>,
    pub ip: String,
    pub mac: String,
    pub bridge: String,
}

/// A guest, in the current version of its schema.
#[derive(Clone, Debug, PartialEq, Eq)]
pub struct VirtualMachine {
    pub spec: VirtualMachineSpec,
    pub api_version: String,
    pub kind: String,
    pub metadata: Metadata,
}

/// The texts of a list of strings.
pub open spec fn texts(v: Seq<String>) -> Seq<Seq<char>> {
    Seq::new(v.len(), |i: int| v[i]@)
}

pub struct BridgeSpecView {
    pub address: Seq<char>,
    pub dns_zone: Seq<char>,
    pub dns_server: Seq<char>,
}

pub struct BridgeView {
    pub spec: BridgeSpecView,
    pub api_version: Seq<char>,
    pub kind: Seq<char>,
    pub name: Seq<char>,
}

pub struct VirtualMachineSpecView {
    pub cpus: u8,
    pub memory: Seq<char>,
    pub disks: Seq<Seq<char>>,
    pub ip: Seq<char>,
    pub mac: Seq<char>,
    pub bridge: Seq<char>,
}

pub struct VirtualMachineView {
    pub spec: VirtualMachineSpecView,
    pub api_version: Seq<char>,
    pub kind: Seq<char>,
    pub name: Seq<char>,
}

impl View for BridgeSpec {
    type V = BridgeSpecView;

    open spec fn view(&self) -> BridgeSpecView {
        BridgeSpecView {
            address: self.address@,
            dns_zone: self.dns_zone@,
            dns_server: self.dns_server@,
        }
    }
}

impl View for Bridge {
    type V = BridgeView;

    open spec fn view(&self) -> BridgeView {
        BridgeView {
            spec: self.spec@,
            api_version: self.api_version@,
            kind: self.kind@,
            name: self.metadata.name@,
        }
    }
}

impl View for VirtualMachineSpec {
    type V = VirtualMachineSpecView;

    open spec fn view(&self) -> VirtualMachineSpecView {
        VirtualMachineSpecView {
            cpus: self.cpus,
            memory: self.memory@,
            disks: texts(self.disks@),
            ip: self.ip@,
            mac: self.mac@,
            bridge: self.bridge@,
        }
    }
}

impl View for VirtualMachine {
    type V = VirtualMachineView;

    open spec fn view(&self) -> VirtualMachineView {
        VirtualMachineView {
            spec: self.spec@,
            api_version: self.api_version@,
            kind: self.kind@,
            name: self.metadata.name@,
        }
    }
}

} // verus!
