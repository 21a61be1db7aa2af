//! Static routes of logical routers.

use vstd::prelude::*;
use crate::ovn::OvnCommand;
use crate::ovn::components::{OvnIpAddr, ovn_ip_text};
use crate::ip_addr::IpAddr;
use crate::text::{owned, views};

verus! {

/// A static route of a logical router.
#[derive(Debug, Clone)]
pub struct OvnRoute {
    pub router_name: String,
    /// A plain IP address or a subnet.
    pub prefix: OvnIpAddr,
    /// Always a plain IP address.
    pub next_hop: OvnIpAddr,
}

/// Why a route was refused: its prefix is dynamic.
#[derive(Debug, Clone, Copy, PartialEq, Eq)]
pub enum OvnRouteError {
    DynamicIp,
}

/// The command that adds a route.
pub open spec fn route_create_cmd(r: OvnRoute) -> Seq<Seq<char>> {
    seq![
        "ovn-nbctl"@, "--may-exist"@, "lr-route-add"@, r.router_name@, ovn_ip_text(r.prefix),
        ovn_ip_text(r.next_hop),
    ]
}

/// The command that deletes a route.
pub open spec fn route_destroy_cmd(r: OvnRoute) -> Seq<Seq<char>> {
    seq!["ovn-nbctl"@, "lr-route-del"@, r.router_name@, ovn_ip_text(r.prefix), ovn_ip_text(r.next_hop)]
}

impl OvnRoute {
    /// A route to `prefix` via `next_hop`; a dynamic prefix is refused.
    pub fn new(router_name: String, prefix: OvnIpAddr, next_hop: IpAddr) -> (r: Result<OvnRoute, OvnRouteError>)
        ensures
            prefix is Dynamic <==> r is Err,
            r matches Ok(rt) ==> rt.router_name == router_name && rt.prefix == prefix && rt.next_hop
                == OvnIpAddr::Ip(next_hop),
    {
        match prefix {
            OvnIpAddr::Dynamic => Err(OvnRouteError::DynamicIp),
            _ => Ok(OvnRoute { router_name, prefix, next_hop: OvnIpAddr::Ip(next_hop) }),
        }
    }

    /// An identical copy.
    pub fn duplicate(&self) -> (r: OvnRoute)
        ensures
            r == *self,
    {
        OvnRoute { router_name: self.router_name.clone(), prefix: self.prefix, next_hop: self.next_hop }
    }
}

impl OvnCommand for OvnRoute {
    open spec fn create_words(&self) -> Seq<Seq<char>> {
        route_create_cmd(*self)
    }

    open spec fn destroy_words(&self) -> Seq<Seq<char>> {
        route_destroy_cmd(*self)
    }

    /// The command that adds this route.
    fn create_command(&self) -> (r: Vec<String>) {
        let mut cmd: Vec<String> = Vec::new();
        cmd.push(owned("ovn-nbctl"));
        cmd.push(owned("--may-exist"));
        cmd.push(owned("lr-route-add"));
        cmd.push(self.router_name.clone());
        cmd.push(self.prefix.to_string());
        cmd.push(self.next_hop.to_string());
        proof { assert(views(cmd@) =~= route_create_cmd(*self)); }
        cmd
    }

    /// The command that deletes this route.
    fn destroy_command(&self) -> (r: Vec<String>) {
        let mut cmd: Vec<String> = Vec::new();
        cmd.push(owned("ovn-nbctl"));
        cmd.push(owned("lr-route-del"));
        cmd.push(self.router_name.clone());
        cmd.push(self.prefix.to_string());
        cmd.push(self.next_hop.to_string());
        proof { assert(views(cmd@) =~= route_destroy_cmd(*self)); }
        cmd
    }
}

/// The commands of a route follow ovn-nbctl's `lr-route-add ROUTER PREFIX NEXTHOP` and
/// `lr-route-del ROUTER PREFIX NEXTHOP`: the router, then the route's prefix, then its next hop.
pub proof fn law_route_command_words(r: OvnRoute)
    ensures
        r.create_words().len() == 6,
        r.create_words()[0] == "ovn-nbctl"@,
        r.create_words()[1] == "--may-exist"@,
        r.create_words()[2] == "lr-route-add"@,
        r.create_words()[3] == r.router_name@,
        r.create_words()[4] == ovn_ip_text(r.prefix),
        r.create_words()[5] == ovn_ip_text(r.next_hop),
        r.destroy_words().len() == 5,
        r.destroy_words()[1] == "lr-route-del"@,
        r.destroy_words()[2] == r.router_name@,
        r.destroy_words()[3] == ovn_ip_text(r.prefix),
        r.destroy_words()[4] == ovn_ip_text(r.next_hop),
{
}

} // verus!
