//! The OVN logical switch.

use vstd::prelude::*;
use crate::ovn::OvnCommand;
use crate::ovn::components::{OvnIpAddr, ovn_ip_text};
use crate::ovn::configuration::dhcp::SwitchDhcpOptions;
use crate::ip_addr::IpAddr;
use crate::text::{owned, concat2, views};

verus! {

/// An OVN logical switch, serving one subnet.
#[derive(Debug, Clone)]
pub struct LogicalSwitch {
    pub name: String,
    /// Must be a subnet.
    pub subnet: OvnIpAddr,
    pub dhcp: Option<SwitchDhcpOptions>,
}

/// The command that creates a switch, setting its subnet and, when DHCP is configured, the
/// addresses DHCP must not hand out.
pub open spec fn switch_create_cmd(name: Seq<char>, subnet: OvnIpAddr, dhcp: Option<Seq<char>>) -> Seq<Seq<char>> {
    let base = seq![
        "ovn-nbctl"@, "--may-exist"@, "ls-add"@, name, "--"@, "set"@, "Logical_Switch"@, name,
        "other_config:subnet="@ + ovn_ip_text(subnet),
    ];
    match dhcp {
        Some(ex) => base.push("other_config:exclude_ips="@ + ex),
        None => base,
    }
}

/// The command that deletes a switch.
pub open spec fn switch_destroy_cmd(name: Seq<char>) -> Seq<Seq<char>> {
    seq!["ovn-nbctl"@, "ls-del"@, name]
}

impl LogicalSwitch {
    /// A switch for the subnet `subnet/mask`, without DHCP.
    pub fn new(name: String, subnet: IpAddr, mask: u16) -> (r: LogicalSwitch)
        ensures
            r.name == name,
            r.subnet == (OvnIpAddr::Subnet { ip: subnet, mask }),
            r.dhcp is None,
    {
        LogicalSwitch { name, subnet: OvnIpAddr::Subnet { ip: subnet, mask }, dhcp: None }
    }

    /// An identical copy.
    pub fn duplicate(&self) -> (r: LogicalSwitch)
        ensures
            r == *self,
    {
        LogicalSwitch {
            name: self.name.clone(),
            subnet: self.subnet,
            dhcp: match &self.dhcp {
                Some(d) => Some(d.duplicate()),
                None => None,
            },
        }
    }

    /// The excluded-address range of the DHCP configuration, if any.
    pub open spec fn dhcp_view(self) -> Option<Seq<char>> {
        match self.dhcp {
            Some(d) => Some(d.exclude_ips@),
            None => None,
        }
    }
}

impl OvnCommand for LogicalSwitch {
    open spec fn create_words(&self) -> Seq<Seq<char>> {
        switch_create_cmd(self.name@, self.subnet, self.dhcp_view())
    }

    open spec fn destroy_words(&self) -> Seq<Seq<char>> {
        switch_destroy_cmd(self.name@)
    }

    /// The command that creates this switch.
    fn create_command(&self) -> (r: Vec<String>) {
        let mut cmd: Vec<String> = Vec::new();
        cmd.push(owned("ovn-nbctl"));
        cmd.push(owned("--may-exist"));
        cmd.push(owned("ls-add"));
        cmd.push(self.name.clone());
        cmd.push(owned("--"));
        cmd.push(owned("set"));
        cmd.push(owned("Logical_Switch"));
        cmd.push(self.name.clone());
        cmd.push(concat2("other_config:subnet=", self.subnet.to_string().as_str()));
        match &self.dhcp {
            Some(d) => {
                cmd.push(concat2("other_config:exclude_ips=", d.exclude_ips.as_str()));
            },
            None => {},
        }
        proof { assert(views(cmd@) =~= switch_create_cmd(self.name@, self.subnet, self.dhcp_view())); }
        cmd
    }

    /// The command that deletes this switch.
    fn destroy_command(&self) -> (r: Vec<String>) {
        let mut cmd: Vec<String> = Vec::new();
        cmd.push(owned("ovn-nbctl"));
        cmd.push(owned("ls-del"));
        cmd.push(self.name.clone());
        proof { assert(views(cmd@) =~= switch_destroy_cmd(self.name@)); }
        cmd
    }
}

} // verus!
