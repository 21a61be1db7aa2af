//! Open vSwitch pieces of a chassis: the system settings, bridges and ports.

use vstd::prelude::*;
use crate::ovn::OvnCommand;
use crate::ovn::components::OvnIpAddr;
use crate::text::{owned, concat2, views};

verus! {

/// The OVS settings of an OVN chassis.
pub struct OvsSystem {
    pub system_id: String,
    pub ovn_encap_type: String,
    /// Must be a plain address.
    pub ovn_encap_ip: OvnIpAddr,
    pub ovn_remote_unix: String,
    pub ovn_bridge: String,
    pub ovn_bridge_mappings: Option<String>,
}

/// An OVS bridge of a chassis.
pub struct OvsBridge {
    pub name: String,
    pub bridge_type: OvsBridgeType,
}

/// A bridge is the integration bridge or a provider bridge.
pub enum OvsBridgeType {
    Integration,
    Provider { provider_network_name: String, ip: OvnIpAddr },
}

/// A port on the integration bridge, bound to a logical switch port through its external id.
#[derive(Debug, Clone)]
pub struct OvsPort {
    pub name: String,
    pub integration_bridge_name: String,
    pub lsp_name: String,
    pub chassis: String,
}

/// The command that creates an internal OVS port bound to its logical switch port.
pub open spec fn ovs_port_create_cmd(p: OvsPort) -> Seq<Seq<char>> {
    seq![
        "ovs-vsctl"@, "--may-exist"@, "add-port"@, p.integration_bridge_name@, p.name@, "--"@, "set"@,
        "Interface"@, p.name@, "type=internal"@, "--"@, "set"@, "Interface"@, p.name@,
        "external_ids:iface-id="@ + p.lsp_name@,
    ]
}

/// The command that deletes an OVS port.
pub open spec fn ovs_port_destroy_cmd(p: OvsPort) -> Seq<Seq<char>> {
    seq!["ovs-vsctl"@, "del-port"@, p.integration_bridge_name@, p.name@]
}

impl OvsPort {
    /// A port named `name` on the integration bridge, for logical switch port `lsp_name`.
    pub fn new(name: String, integration_bridge_name: String, lsp_name: String, chassis: String) -> (r: OvsPort)
        ensures
            r == (OvsPort { name, integration_bridge_name, lsp_name, chassis }),
    {
        OvsPort { name, integration_bridge_name, lsp_name, chassis }
    }

    /// An identical copy.
    pub fn duplicate(&self) -> (r: OvsPort)
        ensures
            r == *self,
    {
        OvsPort {
            name: self.name.clone(),
            integration_bridge_name: self.integration_bridge_name.clone(),
            lsp_name: self.lsp_name.clone(),
            chassis: self.chassis.clone(),
        }
    }
}

impl OvnCommand for OvsPort {
    open spec fn create_words(&self) -> Seq<Seq<char>> {
        ovs_port_create_cmd(*self)
    }

    open spec fn destroy_words(&self) -> Seq<Seq<char>> {
        ovs_port_destroy_cmd(*self)
    }

    /// The command that creates this port.
    fn create_command(&self) -> (r: Vec<String>) {
        let mut cmd: Vec<String> = Vec::new();
        cmd.push(owned("ovs-vsctl"));
        cmd.push(owned("--may-exist"));
        cmd.push(owned("add-port"));
        cmd.push(self.integration_bridge_name.clone());
        cmd.push(self.name.clone());
        cmd.push(owned("--"));
        cmd.push(owned("set"));
        cmd.push(owned("Interface"));
        cmd.push(self.name.clone());
        cmd.push(owned("type=internal"));
        cmd.push(owned("--"));
        cmd.push(owned("set"));
        cmd.push(owned("Interface"));
        cmd.push(self.name.clone());
        cmd.push(concat2("external_ids:iface-id=", self.lsp_name.as_str()));
        proof { assert(views(cmd@) =~= ovs_port_create_cmd(*self)); }
        cmd
    }

    /// The command that deletes this port.
    fn destroy_command(&self) -> (r: Vec<String>) {
        let mut cmd: Vec<String> = Vec::new();
        cmd.push(owned("ovs-vsctl"));
        cmd.push(owned("del-port"));
        cmd.push(self.integration_bridge_name.clone());
        cmd.push(self.name.clone());
        proof { assert(views(cmd@) =~= ovs_port_destroy_cmd(*self)); }
        cmd
    }
}

} // verus!
