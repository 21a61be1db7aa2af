//! The OVN logical switch port, in its three kinds.

use vstd::prelude::*;
use crate::ovn::OvnCommand;
use crate::ovn::components::{MacAddress, OvnIpAddr, ovn_ip_text};
use crate::text::{owned, concat2, views, push_char, push_str, copy_opt, opt_view};

verus! {

/// The kind of a switch port and the data it needs.
#[derive(Debug, Clone)]
pub enum LogicalSwitchPortType {
    /// A port for a guest interface.
    Internal {
        ovs_port_name: String,
        /// Must be a plain address or dynamic.
        ip: OvnIpAddr,
        chassis_name: Option<String>,
        mac_address: MacAddress,
        provider_network_name: Option<String>,
    },
    /// The switch side of a link to a logical router port.
    Router { router_port_name: String, mac_address: MacAddress },
    /// A port onto a local network of a chassis.
    LocalNet { provider_network_name: String },
}

impl LogicalSwitchPortType {
    /// An internal port.
    pub fn new_internal(
        ovs_port_name: String,
        ip: OvnIpAddr,
        chassis_name: Option<String>,
        mac_address: MacAddress,
        provider_network_name: Option<String>,
    ) -> (r: LogicalSwitchPortType)
        ensures
            r == (LogicalSwitchPortType::Internal {
                ovs_port_name,
                ip,
                chassis_name,
                mac_address,
                provider_network_name,
            }),
    {
        LogicalSwitchPortType::Internal { ovs_port_name, ip, chassis_name, mac_address, provider_network_name }
    }

    /// A port linked to a router port.
    pub fn new_router(router_port_name: String, mac_address: MacAddress) -> (r: LogicalSwitchPortType)
        ensures
            r == (LogicalSwitchPortType::Router { router_port_name, mac_address }),
    {
        LogicalSwitchPortType::Router { router_port_name, mac_address }
    }

    /// A port onto a provider network.
    pub fn new_localnet(provider_network_name: String) -> (r: LogicalSwitchPortType)
        ensures
            r == (LogicalSwitchPortType::LocalNet { provider_network_name }),
    {
        LogicalSwitchPortType::LocalNet { provider_network_name }
    }

    /// An identical copy.
    pub fn duplicate(&self) -> (r: LogicalSwitchPortType)
        ensures
            r == *self,
    {
        match self {
            LogicalSwitchPortType::Internal { ovs_port_name, ip, chassis_name, mac_address, provider_network_name } => {
                LogicalSwitchPortType::Internal {
                    ovs_port_name: ovs_port_name.clone(),
                    ip: *ip,
                    chassis_name: copy_opt(chassis_name),
                    mac_address: mac_address.duplicate(),
                    provider_network_name: copy_opt(provider_network_name),
                }
            },
            LogicalSwitchPortType::Router { router_port_name, mac_address } => {
                LogicalSwitchPortType::Router {
                    router_port_name: router_port_name.clone(),
                    mac_address: mac_address.duplicate(),
                }
            },
            LogicalSwitchPortType::LocalNet { provider_network_name } => {
                LogicalSwitchPortType::LocalNet { provider_network_name: provider_network_name.clone() }
            },
        }
    }
}

/// A logical switch port on its parent switch.
#[derive(Debug, Clone)]
pub struct LogicalSwitchPort {
    pub name: String,
    pub parent_switch: String,
    pub port_type: LogicalSwitchPortType,
    /// The key of the DHCP table entry this port uses, if any.
    pub dhcp_options_uuid: Option<u64>,
}

/// The `options:` argument of an internal port: the provider network (followed by a comma)
/// and the chassis, each when given.
pub open spec fn internal_options(provider: Option<Seq<char>>, chassis: Option<Seq<char>>) -> Seq<char> {
    "options:"@ + match provider {
        Some(p) => "network_name="@ + p + seq![','],
        None => Seq::empty(),
    } + match chassis {
        Some(c) => "chassis="@ + c,
        None => Seq::empty(),
    }
}

/// The command that creates a switch port of the given kind.
pub open spec fn switch_port_create_cmd(name: Seq<char>, parent: Seq<char>, t: LogicalSwitchPortType) -> Seq<Seq<char>> {
    let head = seq![
        "ovn-nbctl"@, "--may-exist"@, "lsp-add"@, parent, name, "--"@, "set"@, "Logical_Switch_Port"@,
        name,
    ];
    match t {
        LogicalSwitchPortType::Internal { ip, chassis_name, mac_address, provider_network_name, .. } => {
            head.push("addresses=\""@ + mac_address.address@ + seq![' '] + ovn_ip_text(ip) + seq!['"']).push(
                internal_options(opt_view(provider_network_name), opt_view(chassis_name)),
            )
        },
        LogicalSwitchPortType::Router { router_port_name, mac_address } => {
            head.push("type=router"@).push("options:router-port="@ + router_port_name@).push(
                "addresses=\""@ + mac_address.address@ + seq!['"'],
            )
        },
        LogicalSwitchPortType::LocalNet { provider_network_name } => {
            head.push("type=localnet"@).push("options:network_name="@ + provider_network_name@).push(
                "addresses=\"unknown\""@,
            )
        },
    }
}

/// The command that deletes a switch port.
pub open spec fn switch_port_destroy_cmd(name: Seq<char>) -> Seq<Seq<char>> {
    seq!["ovn-nbctl"@, "lsp-del"@, name]
}

impl LogicalSwitchPort {
    /// A port of the given kind on `parent_switch`, not yet linked to DHCP.
    pub fn new(name: String, parent_switch: String, port_type: LogicalSwitchPortType) -> (r: LogicalSwitchPort)
        ensures
            r == (LogicalSwitchPort { name, parent_switch, port_type, dhcp_options_uuid: None }),
    {
        LogicalSwitchPort { name, parent_switch, port_type, dhcp_options_uuid: None }
    }

    /// An identical copy.
    pub fn duplicate(&self) -> (r: LogicalSwitchPort)
        ensures
            r == *self,
    {
        LogicalSwitchPort {
            name: self.name.clone(),
            parent_switch: self.parent_switch.clone(),
            port_type: self.port_type.duplicate(),
            dhcp_options_uuid: self.dhcp_options_uuid,
        }
    }
}

impl OvnCommand for LogicalSwitchPort {
    open spec fn create_words(&self) -> Seq<Seq<char>> {
        switch_port_create_cmd(self.name@, self.parent_switch@, self.port_type)
    }

    open spec fn destroy_words(&self) -> Seq<Seq<char>> {
        switch_port_destroy_cmd(self.name@)
    }

    /// The command that creates this port.
    fn create_command(&self) -> (r: Vec<String>) {
        let mut cmd: Vec<String> = Vec::new();
        cmd.push(owned("ovn-nbctl"));
        cmd.push(owned("--may-exist"));
        cmd.push(owned("lsp-add"));
        cmd.push(self.parent_switch.clone());
        cmd.push(self.name.clone());
        cmd.push(owned("--"));
        cmd.push(owned("set"));
        cmd.push(owned("Logical_Switch_Port"));
        cmd.push(self.name.clone());
        match &self.port_type {
            LogicalSwitchPortType::Internal { ip, chassis_name, mac_address, provider_network_name, .. } => {
                let mut addresses = owned("addresses=\"");
                push_str(&mut addresses, mac_address.address.as_str());
                push_char(&mut addresses, ' ');
                push_str(&mut addresses, ip.to_string().as_str());
                push_char(&mut addresses, '"');
                proof {
                    assert(addresses@ =~= "addresses=\""@ + mac_address.address@ + seq![' '] + ovn_ip_text(*ip) + seq!['"']);
                }
                cmd.push(addresses);
                let mut options = owned("options:");
                match provider_network_name {
                    Some(p) => {
                        push_str(&mut options, "network_name=");
                        push_str(&mut options, p.as_str());
                        push_char(&mut options, ',');
                    },
                    None => {},
                }
                match chassis_name {
                    Some(c) => {
                        push_str(&mut options, "chassis=");
                        push_str(&mut options, c.as_str());
                    },
                    None => {},
                }
                proof {
                    assert(options@ =~= internal_options(opt_view(*provider_network_name), opt_view(*chassis_name)));
                }
                cmd.push(options);
            },
            LogicalSwitchPortType::Router { router_port_name, mac_address } => {
                cmd.push(owned("type=router"));
                cmd.push(concat2("options:router-port=", router_port_name.as_str()));
                let mut addresses = owned("addresses=\"");
                push_str(&mut addresses, mac_address.address.as_str());
                push_char(&mut addresses, '"');
                proof {
                    assert(addresses@ =~= "addresses=\""@ + mac_address.address@ + seq!['"']);
                }
                cmd.push(addresses);
            },
            LogicalSwitchPortType::LocalNet { provider_network_name } => {
                cmd.push(owned("type=localnet"));
                cmd.push(concat2("options:network_name=", provider_network_name.as_str()));
                cmd.push(owned("addresses=\"unknown\""));
            },
        }
        proof { assert(views(cmd@) =~= switch_port_create_cmd(self.name@, self.parent_switch@, self.port_type)); }
        cmd
    }

    /// The command that deletes this port.
    fn destroy_command(&self) -> (r: Vec<String>) {
        let mut cmd: Vec<String> = Vec::new();
        cmd.push(owned("ovn-nbctl"));
        cmd.push(owned("lsp-del"));
        cmd.push(self.name.clone());
        proof { assert(views(cmd@) =~= switch_port_destroy_cmd(self.name@)); }
        cmd
    }
}

} // verus!
