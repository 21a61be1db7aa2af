//! A logical router port configured as an external gateway on a chassis.

use vstd::prelude::*;
use crate::ovn::OvnCommand;
use crate::text::{owned, views};

verus! {

/// Sets a logical router port as the external gateway port on a chassis.
#[derive(Debug, Clone)]
pub struct OvnExternalGateway {
    pub router_port_name: String,
    pub chassis_name: String,
}

/// The command that binds the gateway port to its chassis, with priority 20.
pub open spec fn gateway_create_cmd(port: Seq<char>, chassis: Seq<char>) -> Seq<Seq<char>> {
    seq!["ovn-nbctl"@, "--may-exist"@, "lrp-set-gateway-chassis"@, port, chassis, "20"@]
}

/// The command that unbinds the gateway port from its chassis.
pub open spec fn gateway_destroy_cmd(port: Seq<char>, chassis: Seq<char>) -> Seq<Seq<char>> {
    seq!["ovn-nbctl"@, "lrp-del-gateway-chassis"@, port, chassis]
}

impl OvnExternalGateway {
    /// The gateway configuration for a router port on a chassis.
    pub fn new(router_port_name: String, chassis_name: String) -> (r: OvnExternalGateway)
        ensures
            r.router_port_name == router_port_name,
            r.chassis_name == chassis_name,
    {
        OvnExternalGateway { router_port_name, chassis_name }
    }

    /// An identical copy.
    pub fn duplicate(&self) -> (r: OvnExternalGateway)
        ensures
            r == *self,
    {
        OvnExternalGateway {
            router_port_name: self.router_port_name.clone(),
            chassis_name: self.chassis_name.clone(),
        }
    }
}

impl OvnCommand for OvnExternalGateway {
    open spec fn create_words(&self) -> Seq<Seq<char>> {
        gateway_create_cmd(self.router_port_name@, self.chassis_name@)
    }

    open spec fn destroy_words(&self) -> Seq<Seq<char>> {
        gateway_destroy_cmd(self.router_port_name@, self.chassis_name@)
    }

    /// The command that applies this configuration.
    fn create_command(&self) -> (r: Vec<String>) {
        let mut cmd: Vec<String> = Vec::new();
        cmd.push(owned("ovn-nbctl"));
        cmd.push(owned("--may-exist"));
        cmd.push(owned("lrp-set-gateway-chassis"));
        cmd.push(self.router_port_name.clone());
        cmd.push(self.chassis_name.clone());
        cmd.push(owned("20"));
        proof { assert(views(cmd@) =~= gateway_create_cmd(self.router_port_name@, self.chassis_name@)); }
        cmd
    }

    /// The command that removes this configuration.
    fn destroy_command(&self) -> (r: Vec<String>) {
        let mut cmd: Vec<String> = Vec::new();
        cmd.push(owned("ovn-nbctl"));
        cmd.push(owned("lrp-del-gateway-chassis"));
        cmd.push(self.router_port_name.clone());
        cmd.push(self.chassis_name.clone());
        proof { assert(views(cmd@) =~= gateway_destroy_cmd(self.router_port_name@, self.chassis_name@)); }
        cmd
    }
}

} // verus!
