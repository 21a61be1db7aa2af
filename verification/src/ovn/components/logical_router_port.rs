//! The OVN logical router port.

use vstd::prelude::*;
use crate::ovn::OvnCommand;
use crate::ovn::components::{MacAddress, OvnIpAddr, ovn_ip_text};
use crate::ip_addr::IpAddr;
use crate::text::{owned, views, copy_opt};

verus! {

/// A port of a logical router, with its address and subnet.
#[derive(Debug, Clone)]
pub struct LogicalRouterPort {
    pub name: String,
    pub parent_router: String,
    pub mac_address: MacAddress,
    /// Always an address with its mask.
    pub ip: OvnIpAddr,
    /// Set to make this a gateway router port.
    pub chassis_name: Option<String>,
}

/// The command that creates a router port.
pub open spec fn router_port_create_cmd(p: LogicalRouterPort) -> Seq<Seq<char>> {
    seq![
        "ovn-nbctl"@, "--may-exist"@, "lrp-add"@, p.parent_router@, p.name@, p.mac_address.address@,
        ovn_ip_text(p.ip),
    ]
}

/// The command that deletes a router port.
pub open spec fn router_port_destroy_cmd(name: Seq<char>) -> Seq<Seq<char>> {
    seq!["ovn-nbctl"@, "lrp-del"@, name]
}

impl LogicalRouterPort {
    /// A router port with address `ip/mask`.
    pub fn new(
        name: String,
        parent_router: String,
        mac_address: MacAddress,
        ip: IpAddr,
        mask: u16,
        chassis_name: Option<String>,
    ) -> (r: LogicalRouterPort)
        ensures
            r == (LogicalRouterPort {
                name,
                parent_router,
                mac_address,
                ip: OvnIpAddr::Subnet { ip, mask },
                chassis_name,
            }),
    {
        LogicalRouterPort { name, parent_router, mac_address, ip: OvnIpAddr::Subnet { ip, mask }, chassis_name }
    }

    /// An identical copy.
    pub fn duplicate(&self) -> (r: LogicalRouterPort)
        ensures
            r == *self,
    {
        LogicalRouterPort {
            name: self.name.clone(),
            parent_router: self.parent_router.clone(),
            mac_address: self.mac_address.duplicate(),
            ip: self.ip,
            chassis_name: copy_opt(&self.chassis_name),
        }
    }
}

impl OvnCommand for LogicalRouterPort {
    open spec fn create_words(&self) -> Seq<Seq<char>> {
        router_port_create_cmd(*self)
    }

    open spec fn destroy_words(&self) -> Seq<Seq<char>> {
        router_port_destroy_cmd(self.name@)
    }

    /// The command that creates this port.
    fn create_command(&self) -> (r: Vec<String>) {
        let mut cmd: Vec<String> = Vec::new();
        cmd.push(owned("ovn-nbctl"));
        cmd.push(owned("--may-exist"));
        cmd.push(owned("lrp-add"));
        cmd.push(self.parent_router.clone());
        cmd.push(self.name.clone());
        cmd.push(self.mac_address.get_string());
        cmd.push(self.ip.to_string());
        proof { assert(views(cmd@) =~= router_port_create_cmd(*self)); }
        cmd
    }

    /// The command that deletes this port.
    fn destroy_command(&self) -> (r: Vec<String>) {
        let mut cmd: Vec<String> = Vec::new();
        cmd.push(owned("ovn-nbctl"));
        cmd.push(owned("lrp-del"));
        cmd.push(self.name.clone());
        proof { assert(views(cmd@) =~= router_port_destroy_cmd(self.name@)); }
        cmd
    }
}

} // verus!
