//! The logical network model: the components and configuration the testbed will create in OVN,
//! kept consistent as components are added and removed.

use vstd::prelude::*;
use crate::ip_addr::{IpAddr, ip_text, ip_debug};
use crate::ovn::LogicalOperationResult;
use crate::ovn::components::{MacAddress, OvnIpAddr, ovn_ip_text, ovn_ip_debug};
use crate::ovn::components::logical_switch::LogicalSwitch;
use crate::ovn::components::logical_switch_port::{LogicalSwitchPort, LogicalSwitchPortType};
use crate::ovn::components::logical_router::{LogicalRouter, RoutingMap, ExternalGatewayMap, NatMap};
use crate::ovn::components::logical_router_port::LogicalRouterPort;
use crate::ovn::components::ovs::OvsPort;
use crate::ovn::components::acl::{ACLRecordType, ACLRule, LogicalACLRecord};
use crate::ovn::configuration::dhcp::{ports_with_dhcp, DhcpDatabaseEntry, DhcpEntryView, SwitchDhcpOptions, dhcp_entry_hash, hash_dhcp_entry};
use crate::text::{owned, push_str, debug_string, debug_text};
use crate::ovn::configuration::route::OvnRoute;
use crate::ovn::configuration::external_gateway::OvnExternalGateway;
use crate::ovn::configuration::nat_rule::{OvnNat, OvnNatType, OvnNatError, nat_check, nat_type_text, nat_type_debug};

verus! {

/// The first position at which `n` occurs.
pub open spec fn first_index(names: Seq<Seq<char>>, n: Seq<char>) -> Option<int>
    decreases names.len(),
{
    if names.len() == 0 {
        None
    } else {
        match first_index(names.drop_last(), n) {
            Some(i) => Some(i),
            None => if names.last() == n { Some(names.len() - 1) } else { None },
        }
    }
}

/// What the first position is.
pub proof fn lemma_first_index(names: Seq<Seq<char>>, n: Seq<char>)
    ensures
        match first_index(names, n) {
            Some(i) => 0 <= i < names.len() && names[i] == n && forall|j: int| 0 <= j < i ==> names[j] != n,
            None => forall|j: int| 0 <= j < names.len() ==> names[j] != n,
        },
    decreases names.len(),
{
    if names.len() > 0 {
        lemma_first_index(names.drop_last(), n);
        let p = names.drop_last();
        assert forall|j: int| 0 <= j < p.len() implies p[j] == names[j] by {}
    }
}

/// A position with no earlier occurrence is the first.
pub proof fn lemma_first_index_found(names: Seq<Seq<char>>, n: Seq<char>, i: int)
    requires
        0 <= i < names.len(),
        names[i] == n,
        forall|j: int| 0 <= j < i ==> names[j] != n,
    ensures
        first_index(names, n) == Some(i),
{
    lemma_first_index(names, n);
    match first_index(names, n) {
        Some(k) => {
            if k < i {
                assert(names[k] != n);
            }
        },
        None => {
            assert(names[i] != n);
        },
    }
}

/// A name that never occurs has no first position.
pub proof fn lemma_first_index_absent(names: Seq<Seq<char>>, n: Seq<char>)
    requires
        forall|j: int| 0 <= j < names.len() ==> names[j] != n,
    ensures
        first_index(names, n) is None,
{
    lemma_first_index(names, n);
    if let Some(k) = first_index(names, n) {
        assert(names[k] == n);
    }
}

/// A position as an integer.
pub open spec fn as_pos(r: Option<usize>) -> Option<int> {
    match r {
        Some(i) => Some(i as int),
        None => None,
    }
}

/// No name occurs twice.
pub open spec fn unique(names: Seq<Seq<char>>) -> bool {
    forall|i: int, j: int| 0 <= i < j < names.len() ==> names[i] != names[j]
}

/// The names of a list of LogicalSwitch values.
pub open spec fn switch_names(s: Seq<LogicalSwitch>) -> Seq<Seq<char>> {
    s.map_values(|x: LogicalSwitch| x.name@)
}

/// The names of a list of LogicalSwitchPort values.
pub open spec fn lsp_names(s: Seq<LogicalSwitchPort>) -> Seq<Seq<char>> {
    s.map_values(|x: LogicalSwitchPort| x.name@)
}

/// The names of a list of LogicalRouter values.
pub open spec fn router_names(s: Seq<LogicalRouter>) -> Seq<Seq<char>> {
    s.map_values(|x: LogicalRouter| x.name@)
}

/// The names of a list of LogicalRouterPort values.
pub open spec fn lrp_names(s: Seq<LogicalRouterPort>) -> Seq<Seq<char>> {
    s.map_values(|x: LogicalRouterPort| x.name@)
}

/// The names of a list of OvsPort values.
pub open spec fn ovs_names(s: Seq<OvsPort>) -> Seq<Seq<char>> {
    s.map_values(|x: OvsPort| x.name@)
}

/// The keys of the ACL records.
pub open spec fn acl_names(s: Seq<(String, LogicalACLRecord)>) -> Seq<Seq<char>> {
    s.map_values(|x: (String, LogicalACLRecord)| x.0@)
}

/// The OVN logical network of a testbed: components (switches, routers, their ports, OVS ports
/// and ACL records) and DHCP table entries. Each kind of component is a list in which names do
/// not repeat.
#[derive(Debug, Clone)]
pub struct OvnNetwork {
    pub switches: Vec<LogicalSwitch>,
    pub switch_ports: Vec<LogicalSwitchPort>,
    pub routers: Vec<LogicalRouter>,
    pub router_ports: Vec<LogicalRouterPort>,
    pub ovs_ports: Vec<OvsPort>,
    /// ACL records under their names.
    pub acl: Vec<(String, LogicalACLRecord)>,
    pub dhcp_options: Vec<DhcpDatabaseEntry>,
}

/// The contents of the logical network.
pub struct OvnNetworkView {
    pub switches: Seq<LogicalSwitch>,
    pub switch_ports: Seq<LogicalSwitchPort>,
    pub routers: Seq<LogicalRouter>,
    pub router_ports: Seq<LogicalRouterPort>,
    pub ovs_ports: Seq<OvsPort>,
    pub acl: Seq<(String, LogicalACLRecord)>,
    pub dhcp_options: Seq<DhcpDatabaseEntry>,
}

impl View for OvnNetwork {
    type V = OvnNetworkView;

    open spec fn view(&self) -> OvnNetworkView {
        OvnNetworkView {
            switches: self.switches@,
            switch_ports: self.switch_ports@,
            routers: self.routers@,
            router_ports: self.router_ports@,
            ovs_ports: self.ovs_ports@,
            acl: self.acl@,
            dhcp_options: self.dhcp_options@,
        }
    }
}

/// Whether a switch of that name exists.
pub open spec fn has_switch(v: OvnNetworkView, n: Seq<char>) -> bool {
    first_index(switch_names(v.switches), n) is Some
}

/// Whether a router of that name exists.
pub open spec fn has_router(v: OvnNetworkView, n: Seq<char>) -> bool {
    first_index(router_names(v.routers), n) is Some
}

/// Whether some switch port names that switch as its parent.
pub open spec fn switch_has_children(v: OvnNetworkView, n: Seq<char>) -> bool {
    exists|i: int| 0 <= i < v.switch_ports.len() && (#[trigger] v.switch_ports[i]).parent_switch@ == n
}

/// Whether some router port names that router as its parent.
pub open spec fn router_has_children(v: OvnNetworkView, n: Seq<char>) -> bool {
    exists|i: int| 0 <= i < v.router_ports.len() && (#[trigger] v.router_ports[i]).parent_router@ == n
}

/// Every port's parent exists: each switch port's switch and each router port's router.
pub open spec fn parents_exist(v: OvnNetworkView) -> bool {
    &&& forall|i: int| 0 <= i < v.switch_ports.len() ==> has_switch(v, (#[trigger] v.switch_ports[i]).parent_switch@)
    &&& forall|i: int| 0 <= i < v.router_ports.len() ==> has_router(v, (#[trigger] v.router_ports[i]).parent_router@)
}

/// Names do not repeat within each kind of component, router maps hold no repeated key, and
/// no DHCP entry is held twice.
pub open spec fn network_wf(v: OvnNetworkView) -> bool {
    &&& unique(switch_names(v.switches))
    &&& unique(lsp_names(v.switch_ports))
    &&& unique(router_names(v.routers))
    &&& unique(lrp_names(v.router_ports))
    &&& unique(ovs_names(v.ovs_ports))
    &&& unique(acl_names(v.acl))
    &&& forall|i: int| 0 <= i < v.routers.len() ==> (#[trigger] v.routers[i]).wf()
    &&& forall|i: int, j: int| 0 <= i < j < v.dhcp_options.len() ==> v.dhcp_options[i]@ != v.dhcp_options[j]@
}

/// Adding a switch: refused if the name is taken; otherwise a switch for the subnet, without
/// DHCP, is added at the end.
pub open spec fn add_switch_spec(v: OvnNetworkView, name: String, ip: IpAddr, mask: u16) -> (Result<(), LogicalOperationResult>, OvnNetworkView) {
    if has_switch(v, name@) {
        (Err(LogicalOperationResult::AlreadyExists { name }), v)
    } else {
        (Ok(()), OvnNetworkView {
            switches: v.switches.push(LogicalSwitch { name, subnet: OvnIpAddr::Subnet { ip, mask }, dhcp: None }),
            ..v
        })
    }
}

/// Deleting a switch: refused if it does not exist or if a switch port still names it as its
/// parent; otherwise it is removed.
pub open spec fn del_switch_spec(v: OvnNetworkView, name: String) -> (Result<(), LogicalOperationResult>, OvnNetworkView) {
    match first_index(switch_names(v.switches), name@) {
        None => (Err(LogicalOperationResult::DoesNotExist { name }), v),
        Some(i) => if switch_has_children(v, name@) {
            (Err(LogicalOperationResult::HasChildren { name }), v)
        } else {
            (Ok(()), OvnNetworkView { switches: v.switches.remove(i), ..v })
        },
    }
}

/// Adding a switch port of some kind: refused if its parent switch does not exist (checked
/// first) or its name is taken; otherwise it is added at the end, not yet linked to DHCP.
pub open spec fn add_lsp_spec(v: OvnNetworkView, name: String, parent: String, t: LogicalSwitchPortType) -> (Result<(), LogicalOperationResult>, OvnNetworkView) {
    if !has_switch(v, parent@) {
        (Err(LogicalOperationResult::ParentDoesNotExist { name, parent }), v)
    } else if first_index(lsp_names(v.switch_ports), name@) is Some {
        (Err(LogicalOperationResult::AlreadyExists { name }), v)
    } else {
        (Ok(()), OvnNetworkView {
            switch_ports: v.switch_ports.push(LogicalSwitchPort { name, parent_switch: parent, port_type: t, dhcp_options_uuid: None }),
            ..v
        })
    }
}

/// Deleting a switch port: refused if it does not exist; otherwise it is removed.
pub open spec fn del_lsp_spec(v: OvnNetworkView, name: String) -> (Result<(), LogicalOperationResult>, OvnNetworkView) {
    match first_index(lsp_names(v.switch_ports), name@) {
        None => (Err(LogicalOperationResult::DoesNotExist { name }), v),
        Some(i) => (Ok(()), OvnNetworkView { switch_ports: v.switch_ports.remove(i), ..v }),
    }
}

/// Adding a router: refused if the name is taken; otherwise a router without routes, gateways
/// or translation rules is added at the end.
pub open spec fn add_router_post(v: OvnNetworkView, name: String, r: Result<(), LogicalOperationResult>, w: OvnNetworkView) -> bool {
    if has_router(v, name@) {
        r == Err::<(), LogicalOperationResult>(LogicalOperationResult::AlreadyExists { name }) && w == v
    } else {
        &&& r is Ok
        &&& w.routers.len() == v.routers.len() + 1
        &&& w.routers.drop_last() == v.routers
        &&& w.routers.last().name == name
        &&& w.routers.last().routing.0@.len() == 0
        &&& w.routers.last().external_gateway.0@.len() == 0
        &&& w.routers.last().nat.0@.len() == 0
        &&& w == OvnNetworkView { routers: w.routers, ..v }
    }
}

/// Deleting a router: refused if it does not exist or if a router port still names it as its
/// parent; otherwise it is removed.
pub open spec fn del_router_spec(v: OvnNetworkView, name: String) -> (Result<(), LogicalOperationResult>, OvnNetworkView) {
    match first_index(router_names(v.routers), name@) {
        None => (Err(LogicalOperationResult::DoesNotExist { name }), v),
        Some(i) => if router_has_children(v, name@) {
            (Err(LogicalOperationResult::HasChildren { name }), v)
        } else {
            (Ok(()), OvnNetworkView { routers: v.routers.remove(i), ..v })
        },
    }
}

/// Adding a router port: refused if its parent router does not exist (checked first) or its
/// name is taken; otherwise the port, with address `ip/mask`, is added at the end.
pub open spec fn add_lrp_spec(
    v: OvnNetworkView,
    name: String,
    parent: String,
    mac: MacAddress,
    ip: IpAddr,
    mask: u16,
    chassis: Option<String>,
) -> (Result<(), LogicalOperationResult>, OvnNetworkView) {
    if !has_router(v, parent@) {
        (Err(LogicalOperationResult::ParentDoesNotExist { name, parent }), v)
    } else if first_index(lrp_names(v.router_ports), name@) is Some {
        (Err(LogicalOperationResult::AlreadyExists { name }), v)
    } else {
        (Ok(()), OvnNetworkView {
            router_ports: v.router_ports.push(LogicalRouterPort {
                name,
                parent_router: parent,
                mac_address: mac,
                ip: OvnIpAddr::Subnet { ip, mask },
                chassis_name: chassis,
            }),
            ..v
        })
    }
}

/// Deleting a router port: refused if it does not exist; otherwise it is removed.
pub open spec fn del_lrp_spec(v: OvnNetworkView, name: String) -> (Result<(), LogicalOperationResult>, OvnNetworkView) {
    match first_index(lrp_names(v.router_ports), name@) {
        None => (Err(LogicalOperationResult::DoesNotExist { name }), v),
        Some(i) => (Ok(()), OvnNetworkView { router_ports: v.router_ports.remove(i), ..v }),
    }
}

/// Adding an OVS port: refused if the name is taken; otherwise added at the end.
pub open spec fn add_ovs_spec(v: OvnNetworkView, name: String, bridge: String, lsp: String, chassis: String) -> (Result<(), LogicalOperationResult>, OvnNetworkView) {
    if first_index(ovs_names(v.ovs_ports), name@) is Some {
        (Err(LogicalOperationResult::AlreadyExists { name }), v)
    } else {
        (Ok(()), OvnNetworkView {
            ovs_ports: v.ovs_ports.push(OvsPort { name, integration_bridge_name: bridge, lsp_name: lsp, chassis }),
            ..v
        })
    }
}

/// Deleting an OVS port: refused if it does not exist; otherwise it is removed.
pub open spec fn del_ovs_spec(v: OvnNetworkView, name: String) -> (Result<(), LogicalOperationResult>, OvnNetworkView) {
    match first_index(ovs_names(v.ovs_ports), name@) {
        None => (Err(LogicalOperationResult::DoesNotExist { name }), v),
        Some(i) => (Ok(()), OvnNetworkView { ovs_ports: v.ovs_ports.remove(i), ..v }),
    }
}

/// Adding an ACL record: refused if a record of that name exists; otherwise the record built
/// from the rule is added at the end under the name.
pub open spec fn add_acl_spec(v: OvnNetworkView, acl_name: String, entity: String, t: ACLRecordType, rule: ACLRule) -> (Result<(), LogicalOperationResult>, OvnNetworkView) {
    if first_index(acl_names(v.acl), acl_name@) is Some {
        (Err(LogicalOperationResult::AlreadyExists { name: acl_name }), v)
    } else {
        (Ok(()), OvnNetworkView {
            acl: v.acl.push((acl_name, LogicalACLRecord {
                entity_name: entity,
                _type: t,
                direction: rule.direction,
                priority: rule.priority,
                _match: rule._match,
                action: rule.action,
            })),
            ..v
        })
    }
}

/// Keeping names unique in a list that gains one more, new, name.
proof fn lemma_unique_push(names: Seq<Seq<char>>, n: Seq<char>)
    requires
        unique(names),
        first_index(names, n) is None,
    ensures
        unique(names.push(n)),
{
    lemma_first_index(names, n);
    let m = names.push(n);
    assert forall|i: int, j: int| 0 <= i < j < m.len() implies m[i] != m[j] by {
        if j == names.len() {
            assert(m[i] == names[i]);
        } else {
            assert(m[i] == names[i] && m[j] == names[j]);
        }
    }
}

/// Keeping names unique in a list that loses one.
proof fn lemma_unique_remove(names: Seq<Seq<char>>, k: int)
    requires
        unique(names),
        0 <= k < names.len(),
    ensures
        unique(names.remove(k)),
{
    let m = names.remove(k);
    assert forall|i: int, j: int| 0 <= i < j < m.len() implies m[i] != m[j] by {
        let i2 = if i < k { i } else { i + 1 };
        let j2 = if j < k { j } else { j + 1 };
        assert(m[i] == names[i2] && m[j] == names[j2]);
    }
}


/// An occurrence stays first when a name is added at the end.
proof fn lemma_first_index_push_some(names: Seq<Seq<char>>, x: Seq<char>, n: Seq<char>)
    requires
        first_index(names, n) is Some,
    ensures
        first_index(names.push(x), n) == first_index(names, n),
{
    lemma_first_index(names, n);
    let i = first_index(names, n).unwrap();
    let m = names.push(x);
    assert(m[i] == names[i]);
    assert forall|j: int| 0 <= j < i implies m[j] != n by { assert(m[j] == names[j]); }
    lemma_first_index_found(m, n, i);
}

/// A name that occurs away from the removed position still occurs.
proof fn lemma_present_after_remove(names: Seq<Seq<char>>, k: int, n: Seq<char>)
    requires
        0 <= k < names.len(),
        first_index(names, n) is Some,
        names[k] != n,
    ensures
        first_index(names.remove(k), n) is Some,
{
    lemma_first_index(names, n);
    let i = first_index(names, n).unwrap();
    let m = names.remove(k);
    let i2 = if i < k { i } else { i - 1 };
    assert(m[i2] == n);
    lemma_first_index(m, n);
}

/// Parents are kept when a switch is added.
proof fn lemma_parents_kept_switch_added(v: OvnNetworkView, w: OvnNetworkView, n: Seq<char>)
    requires
        switch_names(w.switches) == switch_names(v.switches).push(n),
        w.switch_ports == v.switch_ports,
        w.routers == v.routers,
        w.router_ports == v.router_ports,
    ensures
        parents_exist(v) ==> parents_exist(w),
{
    if parents_exist(v) {
        assert forall|i: int| 0 <= i < w.switch_ports.len() implies has_switch(w, (#[trigger] w.switch_ports[i]).parent_switch@) by {
            assert(has_switch(v, v.switch_ports[i].parent_switch@));
            lemma_first_index_push_some(switch_names(v.switches), n, w.switch_ports[i].parent_switch@);
        }
        assert forall|i: int| 0 <= i < w.router_ports.len() implies has_router(w, (#[trigger] w.router_ports[i]).parent_router@) by {
            assert(has_router(v, v.router_ports[i].parent_router@));
        }
    }
}

/// Parents are kept when a switch that no port names is removed.
proof fn lemma_parents_kept_switch_removed(v: OvnNetworkView, w: OvnNetworkView, k: int)
    requires
        0 <= k < v.switches.len(),
        !switch_has_children(v, v.switches[k].name@),
        switch_names(w.switches) == switch_names(v.switches).remove(k),
        w.switch_ports == v.switch_ports,
        w.routers == v.routers,
        w.router_ports == v.router_ports,
    ensures
        parents_exist(v) ==> parents_exist(w),
{
    if parents_exist(v) {
        assert forall|i: int| 0 <= i < w.switch_ports.len() implies has_switch(w, (#[trigger] w.switch_ports[i]).parent_switch@) by {
            assert(has_switch(v, v.switch_ports[i].parent_switch@));
            assert(switch_names(v.switches)[k] == v.switches[k].name@);
            lemma_present_after_remove(switch_names(v.switches), k, w.switch_ports[i].parent_switch@);
        }
        assert forall|i: int| 0 <= i < w.router_ports.len() implies has_router(w, (#[trigger] w.router_ports[i]).parent_router@) by {
            assert(has_router(v, v.router_ports[i].parent_router@));
        }
    }
}

/// Parents are kept when a switch port whose switch exists is added.
proof fn lemma_parents_kept_lsp_added(v: OvnNetworkView, w: OvnNetworkView, p: LogicalSwitchPort)
    requires
        w.switches == v.switches,
        w.switch_ports == v.switch_ports.push(p),
        w.routers == v.routers,
        w.router_ports == v.router_ports,
        has_switch(v, p.parent_switch@),
    ensures
        parents_exist(v) ==> parents_exist(w),
{
    if parents_exist(v) {
        assert forall|i: int| 0 <= i < w.switch_ports.len() implies has_switch(w, (#[trigger] w.switch_ports[i]).parent_switch@) by {
            if i < v.switch_ports.len() {
                assert(has_switch(v, v.switch_ports[i].parent_switch@));
            }
        }
        assert forall|i: int| 0 <= i < w.router_ports.len() implies has_router(w, (#[trigger] w.router_ports[i]).parent_router@) by {
            assert(has_router(v, v.router_ports[i].parent_router@));
        }
    }
}

/// Parents are kept when a switch port is removed.
proof fn lemma_parents_kept_lsp_removed(v: OvnNetworkView, w: OvnNetworkView, k: int)
    requires
        0 <= k < v.switch_ports.len(),
        w.switches == v.switches,
        w.switch_ports == v.switch_ports.remove(k),
        w.routers == v.routers,
        w.router_ports == v.router_ports,
    ensures
        parents_exist(v) ==> parents_exist(w),
{
    if parents_exist(v) {
        assert forall|i: int| 0 <= i < w.switch_ports.len() implies has_switch(w, (#[trigger] w.switch_ports[i]).parent_switch@) by {
            let i2 = if i < k { i } else { i + 1 };
            assert(w.switch_ports[i] == v.switch_ports[i2]);
            assert(has_switch(v, v.switch_ports[i2].parent_switch@));
        }
        assert forall|i: int| 0 <= i < w.router_ports.len() implies has_router(w, (#[trigger] w.router_ports[i]).parent_router@) by {
            assert(has_router(v, v.router_ports[i].parent_router@));
        }
    }
}

/// Parents are kept when a router is added.
proof fn lemma_parents_kept_router_added(v: OvnNetworkView, w: OvnNetworkView, n: Seq<char>)
    requires
        w.switches == v.switches,
        w.switch_ports == v.switch_ports,
        router_names(w.routers) == router_names(v.routers).push(n),
        w.router_ports == v.router_ports,
    ensures
        parents_exist(v) ==> parents_exist(w),
{
    if parents_exist(v) {
        assert forall|i: int| 0 <= i < w.switch_ports.len() implies has_switch(w, (#[trigger] w.switch_ports[i]).parent_switch@) by {
            assert(has_switch(v, v.switch_ports[i].parent_switch@));
        }
        assert forall|i: int| 0 <= i < w.router_ports.len() implies has_router(w, (#[trigger] w.router_ports[i]).parent_router@) by {
            assert(has_router(v, v.router_ports[i].parent_router@));
            lemma_first_index_push_some(router_names(v.routers), n, w.router_ports[i].parent_router@);
        }
    }
}

/// Parents are kept when a router that no port names is removed.
proof fn lemma_parents_kept_router_removed(v: OvnNetworkView, w: OvnNetworkView, k: int)
    requires
        0 <= k < v.routers.len(),
        !router_has_children(v, v.routers[k].name@),
        w.switches == v.switches,
        w.switch_ports == v.switch_ports,
        router_names(w.routers) == router_names(v.routers).remove(k),
        w.router_ports == v.router_ports,
    ensures
        parents_exist(v) ==> parents_exist(w),
{
    if parents_exist(v) {
        assert forall|i: int| 0 <= i < w.switch_ports.len() implies has_switch(w, (#[trigger] w.switch_ports[i]).parent_switch@) by {
            assert(has_switch(v, v.switch_ports[i].parent_switch@));
        }
        assert forall|i: int| 0 <= i < w.router_ports.len() implies has_router(w, (#[trigger] w.router_ports[i]).parent_router@) by {
            assert(has_router(v, v.router_ports[i].parent_router@));
            assert(router_names(v.routers)[k] == v.routers[k].name@);
            lemma_present_after_remove(router_names(v.routers), k, w.router_ports[i].parent_router@);
        }
    }
}

/// Parents are kept when a router port whose router exists is added.
proof fn lemma_parents_kept_lrp_added(v: OvnNetworkView, w: OvnNetworkView, p: LogicalRouterPort)
    requires
        w.switches == v.switches,
        w.switch_ports == v.switch_ports,
        w.routers == v.routers,
        w.router_ports == v.router_ports.push(p),
        has_router(v, p.parent_router@),
    ensures
        parents_exist(v) ==> parents_exist(w),
{
    if parents_exist(v) {
        assert forall|i: int| 0 <= i < w.switch_ports.len() implies has_switch(w, (#[trigger] w.switch_ports[i]).parent_switch@) by {
            assert(has_switch(v, v.switch_ports[i].parent_switch@));
        }
        assert forall|i: int| 0 <= i < w.router_ports.len() implies has_router(w, (#[trigger] w.router_ports[i]).parent_router@) by {
            if i < v.router_ports.len() {
                assert(has_router(v, v.router_ports[i].parent_router@));
            }
        }
    }
}

/// Parents are kept when a router port is removed.
proof fn lemma_parents_kept_lrp_removed(v: OvnNetworkView, w: OvnNetworkView, k: int)
    requires
        0 <= k < v.router_ports.len(),
        w.switches == v.switches,
        w.switch_ports == v.switch_ports,
        w.routers == v.routers,
        w.router_ports == v.router_ports.remove(k),
    ensures
        parents_exist(v) ==> parents_exist(w),
{
    if parents_exist(v) {
        assert forall|i: int| 0 <= i < w.switch_ports.len() implies has_switch(w, (#[trigger] w.switch_ports[i]).parent_switch@) by {
            assert(has_switch(v, v.switch_ports[i].parent_switch@));
        }
        assert forall|i: int| 0 <= i < w.router_ports.len() implies has_router(w, (#[trigger] w.router_ports[i]).parent_router@) by {
            let i2 = if i < k { i } else { i + 1 };
            assert(w.router_ports[i] == v.router_ports[i2]);
            assert(has_router(v, v.router_ports[i2].parent_router@));
        }
    }
}

/// Only the router at `i` may differ, and it keeps its name; the other components are left as
/// they are.
pub open spec fn only_router_changed(v: OvnNetworkView, w: OvnNetworkView, i: int) -> bool {
    &&& w == OvnNetworkView { routers: w.routers, ..v }
    &&& w.routers.len() == v.routers.len()
    &&& forall|j: int| 0 <= j < v.routers.len() && j != i ==> w.routers[j] == v.routers[j]
    &&& w.routers[i].name == v.routers[i].name
}

/// The message given when a route to a dynamic prefix is refused.
pub open spec fn route_error_text() -> Seq<char> {
    "Could not create OvnRoute, incorrect configuration: Err(cannot be dynamic ip)"@
}

/// How a route is named when its router is missing.
pub open spec fn route_name_text(prefix: OvnIpAddr, next_hop: IpAddr) -> Seq<char> {
    "Route(prefix: "@ + ovn_ip_debug(prefix) + ", next hop: "@ + ip_debug(next_hop) + ")"@
}

/// Adding a static route: refused if the prefix is dynamic (checked first) or the router is
/// missing; otherwise the route is stored in the router's routes under (router, prefix, next
/// hop), replacing a route with the same key.
pub open spec fn route_add_post(
    v: OvnNetworkView,
    router_name: String,
    prefix: OvnIpAddr,
    next_hop: IpAddr,
    r: Result<(), LogicalOperationResult>,
    w: OvnNetworkView,
) -> bool {
    if prefix is Dynamic {
        &&& r matches Err(LogicalOperationResult::Error { msg }) && msg@ == route_error_text()
        &&& w == v
    } else {
        match first_index(router_names(v.routers), router_name@) {
            None => {
                &&& r matches Err(LogicalOperationResult::ParentDoesNotExist { name, parent })
                    && name@ == route_name_text(prefix, next_hop) && parent == router_name
                &&& w == v
            },
            Some(i) => {
                &&& r is Ok
                &&& only_router_changed(v, w, i)
                &&& w.routers[i].external_gateway == v.routers[i].external_gateway
                &&& w.routers[i].nat == v.routers[i].nat
                &&& exists|k: (String, String, String)|
                    k.0 == router_name && k.1@ == ovn_ip_text(prefix) && k.2@ == ip_text(next_hop)
                        && #[trigger] RoutingMap::put(v.routers[i].routing.0@, k, OvnRoute {
                        router_name,
                        prefix,
                        next_hop: OvnIpAddr::Ip(next_hop),
                    }) == w.routers[i].routing.0@
            },
        }
    }
}

/// How an external gateway is named when its router is missing.
pub open spec fn gateway_name_text(router_port_name: Seq<char>, chassis_name: Seq<char>) -> Seq<char> {
    "ExternalGateway(router_port_name: "@ + debug_text(router_port_name) + ", chassis_name: "@
        + debug_text(chassis_name) + ")"@
}

/// Adding an external gateway: refused if the router is missing; otherwise the gateway is stored
/// in the router's gateways under (router port, chassis), replacing one with the same key.
pub open spec fn gateway_add_post(
    v: OvnNetworkView,
    router_name: String,
    router_port_name: String,
    chassis_name: String,
    r: Result<(), LogicalOperationResult>,
    w: OvnNetworkView,
) -> bool {
    match first_index(router_names(v.routers), router_name@) {
        None => {
            &&& r matches Err(LogicalOperationResult::ParentDoesNotExist { name, parent })
                && name@ == gateway_name_text(router_port_name@, chassis_name@) && parent == router_name
            &&& w == v
        },
        Some(i) => {
            &&& r is Ok
            &&& only_router_changed(v, w, i)
            &&& w.routers[i].routing == v.routers[i].routing
            &&& w.routers[i].nat == v.routers[i].nat
            &&& w.routers[i].external_gateway.0@ == ExternalGatewayMap::put(
                v.routers[i].external_gateway.0@,
                (router_port_name, chassis_name),
                OvnExternalGateway { router_port_name, chassis_name },
            )
        },
    }
}

/// The message given when a translation rule is refused.
pub open spec fn nat_error_text(e: OvnNatError) -> Seq<char> {
    match e {
        OvnNatError::DynamicIp => "Could not create OvnNat, incorrect configuration: Err(cannot be dynamic ip)"@,
        OvnNatError::SubnetIp => "Could not create OvnNat, incorrect configuration: Err(cannot be subnet ip)"@,
    }
}

/// How a translation rule is named when its router is missing.
pub open spec fn nat_name_text(external_ip: OvnIpAddr, logical_ip: OvnIpAddr, nat_type: OvnNatType) -> Seq<char> {
    "ExternalGateway(external_ip: "@ + ovn_ip_debug(external_ip) + ", logical_ip: "@
        + ovn_ip_debug(logical_ip) + " nat_type: "@ + nat_type_debug(nat_type) + ")"@
}

/// Adding a translation rule: refused if its addresses fail [`nat_check`] (checked first) or
/// the router is missing; otherwise the rule is stored in the router's rules under (router,
/// kind, external address), replacing one with the same key.
pub open spec fn nat_add_post(
    v: OvnNetworkView,
    router_name: String,
    nat_type: OvnNatType,
    external_ip: OvnIpAddr,
    logical_ip: OvnIpAddr,
    r: Result<(), LogicalOperationResult>,
    w: OvnNetworkView,
) -> bool {
    match nat_check(external_ip, logical_ip) {
        Err(e) => {
            &&& r matches Err(LogicalOperationResult::Error { msg }) && msg@ == nat_error_text(e)
            &&& w == v
        },
        Ok(_) => match first_index(router_names(v.routers), router_name@) {
            None => {
                &&& r matches Err(LogicalOperationResult::ParentDoesNotExist { name, parent })
                    && name@ == nat_name_text(external_ip, logical_ip, nat_type) && parent == router_name
                &&& w == v
            },
            Some(i) => {
                &&& r is Ok
                &&& only_router_changed(v, w, i)
                &&& w.routers[i].routing == v.routers[i].routing
                &&& w.routers[i].external_gateway == v.routers[i].external_gateway
                &&& exists|k: (String, String, String)|
                    k.0 == router_name && k.1@ == nat_type_text(nat_type) && k.2@ == ovn_ip_text(external_ip)
                        && #[trigger] NatMap::put(v.routers[i].nat.0@, k, OvnNat {
                        logical_router_name: router_name,
                        external_ip,
                        logical_ip,
                        nat_type,
                    }) == w.routers[i].nat.0@
            },
        },
    }
}

/// Parents are kept when every name stays the same.
proof fn lemma_parents_kept_same_names(v: OvnNetworkView, w: OvnNetworkView)
    requires
        w.switches == v.switches,
        w.switch_ports == v.switch_ports,
        router_names(w.routers) == router_names(v.routers),
        w.router_ports == v.router_ports,
    ensures
        parents_exist(v) ==> parents_exist(w),
{
    if parents_exist(v) {
        assert forall|i: int| 0 <= i < w.switch_ports.len() implies has_switch(w, (#[trigger] w.switch_ports[i]).parent_switch@) by {
            assert(has_switch(v, v.switch_ports[i].parent_switch@));
        }
        assert forall|i: int| 0 <= i < w.router_ports.len() implies has_router(w, (#[trigger] w.router_ports[i]).parent_router@) by {
            assert(has_router(v, v.router_ports[i].parent_router@));
        }
    }
}

/// The invariant is kept when only one router changes, keeping its name and its own invariant.
proof fn lemma_wf_router_changed(v: OvnNetworkView, w: OvnNetworkView, i: int)
    requires
        network_wf(v),
        0 <= i < v.routers.len(),
        only_router_changed(v, w, i),
        w.routers[i].wf(),
    ensures
        network_wf(w),
        router_names(w.routers) == router_names(v.routers),
{
    assert(router_names(w.routers) =~= router_names(v.routers)) by {
        assert forall|j: int| 0 <= j < v.routers.len() implies router_names(w.routers)[j] == router_names(v.routers)[j] by {
            if j != i {
                assert(w.routers[j] == v.routers[j]);
            }
        }
    }
    assert forall|j: int| 0 <= j < w.routers.len() implies (#[trigger] w.routers[j]).wf() by {
        if j != i {
            assert(w.routers[j] == v.routers[j]);
        }
    }
}

/// The first position of an item that has the property `f`.
pub open spec fn first_where<T>(s: Seq<T>, f: spec_fn(T) -> bool) -> Option<int>
    decreases s.len(),
{
    if s.len() == 0 {
        None
    } else {
        match first_where(s.drop_last(), f) {
            Some(i) => Some(i),
            None => if f(s.last()) { Some(s.len() - 1) } else { None },
        }
    }
}

/// What the first position with a property is.
pub proof fn lemma_first_where<T>(s: Seq<T>, f: spec_fn(T) -> bool)
    ensures
        match first_where(s, f) {
            Some(i) => 0 <= i < s.len() && f(s[i]) && forall|j: int| 0 <= j < i ==> !f(#[trigger] s[j]),
            None => forall|j: int| 0 <= j < s.len() ==> !f(#[trigger] s[j]),
        },
    decreases s.len(),
{
    if s.len() > 0 {
        lemma_first_where(s.drop_last(), f);
        let p = s.drop_last();
        assert forall|j: int| 0 <= j < p.len() implies p[j] == s[j] by {}
    }
}

/// A position with the property and none before it is the first.
pub proof fn lemma_first_where_found<T>(s: Seq<T>, f: spec_fn(T) -> bool, i: int)
    requires
        0 <= i < s.len(),
        f(s[i]),
        forall|j: int| 0 <= j < i ==> !f(#[trigger] s[j]),
    ensures
        first_where(s, f) == Some(i),
{
    lemma_first_where(s, f);
    match first_where(s, f) {
        Some(k) => {
            if k < i {
                assert(!f(s[k]));
            }
        },
        None => {
            assert(!f(s[i]));
        },
    }
}

/// With no item having the property there is no first position.
pub proof fn lemma_first_where_absent<T>(s: Seq<T>, f: spec_fn(T) -> bool)
    requires
        forall|j: int| 0 <= j < s.len() ==> !f(#[trigger] s[j]),
    ensures
        first_where(s, f) is None,
{
    lemma_first_where(s, f);
    if let Some(k) = first_where(s, f) {
        assert(!f(s[k]));
    }
}

/// A router port of router `rt` named `port`.
pub open spec fn lrp_matches(rt: Seq<char>, port: Seq<char>) -> spec_fn(LogicalRouterPort) -> bool {
    |p: LogicalRouterPort| p.parent_router@ == rt && p.name@ == port
}

/// The router port a switch port links to, by name (empty for other kinds of port).
pub open spec fn linked_port(p: LogicalSwitchPort) -> Seq<char> {
    match p.port_type {
        LogicalSwitchPortType::Router { router_port_name, .. } => router_port_name@,
        _ => Seq::empty(),
    }
}

/// A switch port of switch `sw` that links to a router port of router `rt`.
pub open spec fn lsp_pairs(lrps: Seq<LogicalRouterPort>, sw: Seq<char>, rt: Seq<char>) -> spec_fn(LogicalSwitchPort) -> bool {
    |p: LogicalSwitchPort|
        p.parent_switch@ == sw && p.port_type is Router && first_where(lrps, lrp_matches(rt, linked_port(p))) is Some
}

/// The positions of the switch port and router port linking switch `sw` to router `rt`: the
/// first such switch port, and the first port of the router with the name it links to.
pub open spec fn pair_spec(v: OvnNetworkView, sw: Seq<char>, rt: Seq<char>) -> Option<(int, int)> {
    match first_where(v.switch_ports, lsp_pairs(v.router_ports, sw, rt)) {
        Some(i) => Some((i, first_where(v.router_ports, lrp_matches(rt, linked_port(v.switch_ports[i]))).unwrap())),
        None => None,
    }
}

/// The message given when a switch and a router are not linked.
pub open spec fn pair_error_text(sw: Seq<char>, rt: Seq<char>) -> Seq<char> {
    "Could not find LSP type route and LRP pair for switch "@ + sw + " and router "@ + rt
}

/// What finding the link between a switch and a router gives: the switch must exist, then the
/// router, then the link (see [`pair_spec`]).
pub open spec fn pair_result(v: OvnNetworkView, sw: String, rt: String, r: Result<(LogicalSwitchPort, LogicalRouterPort), LogicalOperationResult>) -> bool {
    if !has_switch(v, sw@) {
        r == Err::<(LogicalSwitchPort, LogicalRouterPort), LogicalOperationResult>(LogicalOperationResult::DoesNotExist { name: sw })
    } else if !has_router(v, rt@) {
        r == Err::<(LogicalSwitchPort, LogicalRouterPort), LogicalOperationResult>(LogicalOperationResult::DoesNotExist { name: rt })
    } else {
        match pair_spec(v, sw@, rt@) {
            Some((i, j)) => r == Ok::<(LogicalSwitchPort, LogicalRouterPort), LogicalOperationResult>((v.switch_ports[i], v.router_ports[j])),
            None => r matches Err(LogicalOperationResult::Error { msg }) && msg@ == pair_error_text(sw@, rt@),
        }
    }
}

/// An internal port of switch `sw` whose address is dynamic.
pub open spec fn dynamic_child(sw: Seq<char>) -> spec_fn(LogicalSwitchPort) -> bool {
    |p: LogicalSwitchPort|
        p.parent_switch@ == sw && match p.port_type {
            LogicalSwitchPortType::Internal { ip, .. } => ip is Dynamic,
            _ => false,
        }
}

/// The IP address of a port address (unspecified for a dynamic one).
pub open spec fn address_ip(a: OvnIpAddr) -> IpAddr {
    match a {
        OvnIpAddr::Ip(ip) => ip,
        OvnIpAddr::Subnet { ip, .. } => ip,
        OvnIpAddr::Dynamic => arbitrary(),
    }
}

/// The DHCP entry for a switch's subnet served through a router port: an hour's lease, with the
/// router port's address as router and server and its MAC address as the server's.
pub open spec fn dhcp_entry_spec(subnet: OvnIpAddr, lrp: LogicalRouterPort) -> DhcpEntryView {
    DhcpEntryView {
        cidr: subnet,
        lease_time: "3600"@,
        router: ip_text(address_ip(lrp.ip)),
        server_id: ip_text(address_ip(lrp.ip)),
        server_mac: lrp.mac_address.address@,
        server_mac_bytes: lrp.mac_address.as_bytes,
    }
}

/// The values of a list of DHCP entries.
pub open spec fn dhcp_views(s: Seq<DhcpDatabaseEntry>) -> Seq<DhcpEntryView> {
    s.map_values(|e: DhcpDatabaseEntry| e@)
}

/// A port after DHCP is set up on switch `sw` with the entry of key `h`: a dynamic internal
/// port of the switch is linked to the entry; any other port is left as it is.
pub open spec fn dhcp_linked(p: LogicalSwitchPort, sw: Seq<char>, h: u64) -> LogicalSwitchPort {
    if dynamic_child(sw)(p) {
        LogicalSwitchPort { dhcp_options_uuid: Some(h), ..p }
    } else {
        p
    }
}

/// The router port linking a switch with dynamic ports to the router carries an address with
/// a subnet mask, from which the DHCP entry takes its router address.
pub open spec fn dhcp_pair_has_subnet(v: OvnNetworkView, sw: Seq<char>, rt: Seq<char>) -> bool {
    (has_switch(v, sw) && has_router(v, rt) && first_where(v.switch_ports, dynamic_child(sw)) is Some) ==> match pair_spec(v, sw, rt) {
        Some((_, j)) => v.router_ports[j].ip is Subnet,
        None => true,
    }
}

/// The message given when a switch has no dynamic internal port.
pub open spec fn no_dynamic_text(sw: Seq<char>) -> Seq<char> {
    "the switch "@ + sw + " did not have any internal switch ports with a dynamic ip"@
}

/// Setting up DHCP on switch `sw` through router `rt`: refused if the switch is missing, the
/// router is missing, they are not linked, or the switch has no dynamic internal port, in that
/// order. Otherwise the DHCP entry for the switch's subnet is kept in the table (once), every
/// dynamic internal port of the switch is linked to the entry's key, and the switch records the
/// excluded addresses.
pub open spec fn dhcp_add_post(
    v: OvnNetworkView,
    rt: String,
    sw: String,
    exclude: Seq<char>,
    r: Result<(), LogicalOperationResult>,
    w: OvnNetworkView,
) -> bool {
    if !has_switch(v, sw@) {
        r == Err::<(), LogicalOperationResult>(LogicalOperationResult::DoesNotExist { name: sw }) && w == v
    } else if !has_router(v, rt@) {
        r == Err::<(), LogicalOperationResult>(LogicalOperationResult::DoesNotExist { name: rt }) && w == v
    } else {
        match pair_spec(v, sw@, rt@) {
            None => r matches Err(LogicalOperationResult::Error { msg }) && msg@ == pair_error_text(sw@, rt@) && w == v,
            Some((_, j)) => if first_where(v.switch_ports, dynamic_child(sw@)) is None {
                r matches Err(LogicalOperationResult::Error { msg }) && msg@ == no_dynamic_text(sw@) && w == v
            } else {
                let si = first_index(switch_names(v.switches), sw@).unwrap();
                let e = dhcp_entry_spec(v.switches[si].subnet, v.router_ports[j]);
                let h = dhcp_entry_hash(e);
                &&& r is Ok
                &&& w.switch_ports.len() == v.switch_ports.len()
                &&& forall|k: int| 0 <= k < v.switch_ports.len() ==> w.switch_ports[k] == dhcp_linked(#[trigger] v.switch_ports[k], sw@, h)
                &&& w.switches.len() == v.switches.len()
                &&& forall|k: int| 0 <= k < v.switches.len() && k != si ==> w.switches[k] == v.switches[k]
                &&& w.switches[si].name == v.switches[si].name
                &&& w.switches[si].subnet == v.switches[si].subnet
                &&& w.switches[si].dhcp matches Some(d) && d.exclude_ips@ == exclude
                &&& dhcp_views(w.dhcp_options) == if dhcp_views(v.dhcp_options).contains(e) {
                    dhcp_views(v.dhcp_options)
                } else {
                    dhcp_views(v.dhcp_options).push(e)
                }
                &&& w.routers == v.routers
                &&& w.router_ports == v.router_ports
                &&& w.ovs_ports == v.ovs_ports
                &&& w.acl == v.acl
            },
        }
    }
}

/// Parents and names are kept when only the switches' DHCP settings and the ports' DHCP keys
/// change.
proof fn lemma_kept_dhcp(v: OvnNetworkView, w: OvnNetworkView)
    requires
        network_wf(v),
        switch_names(w.switches) == switch_names(v.switches),
        w.switch_ports.len() == v.switch_ports.len(),
        forall|k: int| 0 <= k < v.switch_ports.len() ==> (#[trigger] w.switch_ports[k]).parent_switch == v.switch_ports[k].parent_switch
            && w.switch_ports[k].name == v.switch_ports[k].name,
        w.routers == v.routers,
        w.router_ports == v.router_ports,
        w.ovs_ports == v.ovs_ports,
        w.acl == v.acl,
        forall|i: int, j: int| 0 <= i < j < w.dhcp_options.len() ==> w.dhcp_options[i]@ != w.dhcp_options[j]@,
    ensures
        network_wf(w),
        parents_exist(v) ==> parents_exist(w),
{
    assert(lsp_names(w.switch_ports) =~= lsp_names(v.switch_ports)) by {
        assert forall|k: int| 0 <= k < v.switch_ports.len() implies lsp_names(w.switch_ports)[k] == lsp_names(v.switch_ports)[k] by {
            assert(w.switch_ports[k].name == v.switch_ports[k].name);
        }
    }
    if parents_exist(v) {
        assert forall|i: int| 0 <= i < w.switch_ports.len() implies has_switch(w, (#[trigger] w.switch_ports[i]).parent_switch@) by {
            assert(has_switch(v, v.switch_ports[i].parent_switch@));
            assert(w.switch_ports[i].parent_switch == v.switch_ports[i].parent_switch);
        }
        assert forall|i: int| 0 <= i < w.router_ports.len() implies has_router(w, (#[trigger] w.router_ports[i]).parent_router@) by {
            assert(has_router(v, v.router_ports[i].parent_router@));
        }
    }
}

/// The addresses that must not repeat among switch ports, with the port names: those of
/// internal ports that are not dynamic, in order.
pub open spec fn lsp_address_entries(lsps: Seq<LogicalSwitchPort>) -> Seq<(Seq<char>, OvnIpAddr)>
    decreases lsps.len(),
{
    if lsps.len() == 0 {
        Seq::empty()
    } else {
        let rest = lsp_address_entries(lsps.drop_last());
        let p = lsps.last();
        match p.port_type {
            LogicalSwitchPortType::Internal { ip, .. } => if ip is Dynamic { rest } else { rest.push((p.name@, ip)) },
            _ => rest,
        }
    }
}

/// The addresses of router ports that are not dynamic, as plain addresses (a subnet's mask is
/// dropped), with the port names, in order.
pub open spec fn lrp_address_entries(lrps: Seq<LogicalRouterPort>) -> Seq<(Seq<char>, OvnIpAddr)>
    decreases lrps.len(),
{
    if lrps.len() == 0 {
        Seq::empty()
    } else {
        let rest = lrp_address_entries(lrps.drop_last());
        let p = lrps.last();
        match p.ip {
            OvnIpAddr::Dynamic => rest,
            OvnIpAddr::Ip(ip) => rest.push((p.name@, OvnIpAddr::Ip(ip))),
            OvnIpAddr::Subnet { ip, .. } => rest.push((p.name@, OvnIpAddr::Ip(ip))),
        }
    }
}

/// The addresses checked for repeats: switch ports first, then router ports.
pub open spec fn address_entries(v: OvnNetworkView) -> Seq<(Seq<char>, OvnIpAddr)> {
    lsp_address_entries(v.switch_ports) + lrp_address_entries(v.router_ports)
}

/// An entry with address `a`.
pub open spec fn has_address(a: OvnIpAddr) -> spec_fn((Seq<char>, OvnIpAddr)) -> bool {
    |e: (Seq<char>, OvnIpAddr)| e.1 == a
}

/// The first repeat: the first entry whose address an earlier entry has, with that earlier
/// entry.
pub open spec fn first_repeat(s: Seq<(Seq<char>, OvnIpAddr)>) -> Option<(int, int)>
    decreases s.len(),
{
    if s.len() == 0 {
        None
    } else {
        match first_repeat(s.drop_last()) {
            Some(p) => Some(p),
            None => match first_where(s.drop_last(), has_address(s.last().1)) {
                Some(i) => Some((i, s.len() - 1)),
                None => None,
            },
        }
    }
}

/// The message given for a repeated address.
pub open spec fn repeat_text(a: Seq<char>, b: Seq<char>, ip: OvnIpAddr) -> Seq<char> {
    "ports "@ + a + " and "@ + b + " both have the same ip "@ + ovn_ip_text(ip)
}

/// What validation gives: refused, naming the two ports, at the first repeated address.
pub open spec fn validate_result(v: OvnNetworkView, r: Result<(), String>) -> bool {
    let s = address_entries(v);
    match first_repeat(s) {
        None => r is Ok,
        Some((i, j)) => r matches Err(m) && m@ == repeat_text(s[i].0, s[j].0, s[j].1),
    }
}

/// Names and addresses taken pairwise.
pub open spec fn entry_list(names: Seq<String>, ips: Seq<OvnIpAddr>) -> Seq<(Seq<char>, OvnIpAddr)> {
    Seq::new(names.len(), |k: int| (names[k]@, ips[k]))
}

/// A repeat found in a prefix is the first repeat.
proof fn lemma_first_repeat_prefix(s: Seq<(Seq<char>, OvnIpAddr)>, k: int)
    requires
        0 <= k <= s.len(),
        first_repeat(s.take(k)) is Some,
    ensures
        first_repeat(s) == first_repeat(s.take(k)),
    decreases s.len(),
{
    if k == s.len() {
        assert(s.take(k) =~= s);
    } else {
        assert(s.drop_last().take(k) =~= s.take(k));
        lemma_first_repeat_prefix(s.drop_last(), k);
    }
}

/// Taking one more entry.
proof fn lemma_take_one_more<T>(s: Seq<T>, k: int)
    requires
        0 <= k < s.len(),
    ensures
        s.take(k + 1).drop_last() == s.take(k),
        s.take(k + 1).last() == s[k],
{
    assert(s.take(k + 1).drop_last() =~= s.take(k));
}

/// A new name added at the end is found there.
proof fn lemma_first_index_push_new(names: Seq<Seq<char>>, n: Seq<char>)
    requires
        first_index(names, n) is None,
    ensures
        first_index(names.push(n), n) == Some(names.len() as int),
{
    lemma_first_index(names, n);
    let m = names.push(n);
    assert forall|j: int| 0 <= j < names.len() implies m[j] != n by { assert(m[j] == names[j]); }
    lemma_first_index_found(m, n, names.len() as int);
}

/// Adding a switch and then deleting it gives back the network it was added to, when every
/// switch port's switch exists.
pub proof fn law_switch_add_del(v: OvnNetworkView, name: String, ip: IpAddr, mask: u16)
    requires
        parents_exist(v),
        add_switch_spec(v, name, ip, mask).0 is Ok,
    ensures
        del_switch_spec(add_switch_spec(v, name, ip, mask).1, name) == (Ok::<(), LogicalOperationResult>(()), v),
{
    let w = add_switch_spec(v, name, ip, mask).1;
    assert(switch_names(w.switches) =~= switch_names(v.switches).push(name@));
    lemma_first_index_push_new(switch_names(v.switches), name@);
    if switch_has_children(w, name@) {
        let i = choose|i: int| 0 <= i < w.switch_ports.len() && (#[trigger] w.switch_ports[i]).parent_switch@ == name@;
        assert(has_switch(v, v.switch_ports[i].parent_switch@));
    }
    assert(w.switches.remove(v.switches.len() as int) =~= v.switches);
}

/// Adding a switch port and then deleting it gives back the network it was added to.
pub proof fn law_lsp_add_del(v: OvnNetworkView, name: String, parent: String, t: LogicalSwitchPortType)
    requires
        add_lsp_spec(v, name, parent, t).0 is Ok,
    ensures
        del_lsp_spec(add_lsp_spec(v, name, parent, t).1, name) == (Ok::<(), LogicalOperationResult>(()), v),
{
    let w = add_lsp_spec(v, name, parent, t).1;
    assert(lsp_names(w.switch_ports) =~= lsp_names(v.switch_ports).push(name@));
    lemma_first_index_push_new(lsp_names(v.switch_ports), name@);
    assert(w.switch_ports.remove(v.switch_ports.len() as int) =~= v.switch_ports);
}

/// Adding a router and then deleting it gives back the network it was added to, when every
/// router port's router exists.
pub proof fn law_router_add_del(v: OvnNetworkView, name: String, r: Result<(), LogicalOperationResult>, w: OvnNetworkView)
    requires
        parents_exist(v),
        add_router_post(v, name, r, w),
        r is Ok,
    ensures
        del_router_spec(w, name) == (Ok::<(), LogicalOperationResult>(()), v),
{
    assert(router_names(w.routers) =~= router_names(v.routers).push(name@)) by {
        assert(router_names(w.routers.drop_last()) =~= router_names(v.routers));
    }
    lemma_first_index_push_new(router_names(v.routers), name@);
    if router_has_children(w, name@) {
        let i = choose|i: int| 0 <= i < w.router_ports.len() && (#[trigger] w.router_ports[i]).parent_router@ == name@;
        assert(has_router(v, v.router_ports[i].parent_router@));
    }
    assert(w.routers.remove(v.routers.len() as int) =~= v.routers);
}

/// Adding a router port and then deleting it gives back the network it was added to.
pub proof fn law_lrp_add_del(v: OvnNetworkView, name: String, parent: String, mac: MacAddress, ip: IpAddr, mask: u16, chassis: Option<String>)
    requires
        add_lrp_spec(v, name, parent, mac, ip, mask, chassis).0 is Ok,
    ensures
        del_lrp_spec(add_lrp_spec(v, name, parent, mac, ip, mask, chassis).1, name) == (Ok::<(), LogicalOperationResult>(()), v),
{
    let w = add_lrp_spec(v, name, parent, mac, ip, mask, chassis).1;
    assert(lrp_names(w.router_ports) =~= lrp_names(v.router_ports).push(name@));
    lemma_first_index_push_new(lrp_names(v.router_ports), name@);
    assert(w.router_ports.remove(v.router_ports.len() as int) =~= v.router_ports);
}

/// Adding an OVS port and then deleting it gives back the network it was added to.
pub proof fn law_ovs_add_del(v: OvnNetworkView, name: String, bridge: String, lsp: String, chassis: String)
    requires
        add_ovs_spec(v, name, bridge, lsp, chassis).0 is Ok,
    ensures
        del_ovs_spec(add_ovs_spec(v, name, bridge, lsp, chassis).1, name) == (Ok::<(), LogicalOperationResult>(()), v),
{
    let w = add_ovs_spec(v, name, bridge, lsp, chassis).1;
    assert(ovs_names(w.ovs_ports) =~= ovs_names(v.ovs_ports).push(name@));
    lemma_first_index_push_new(ovs_names(v.ovs_ports), name@);
    assert(w.ovs_ports.remove(v.ovs_ports.len() as int) =~= v.ovs_ports);
}

/// A second addition under a name that was just added is refused as already existing, and
/// leaves the network as it is.
pub proof fn law_switch_add_twice(v: OvnNetworkView, name: String, ip: IpAddr, mask: u16, ip2: IpAddr, mask2: u16)
    requires
        add_switch_spec(v, name, ip, mask).0 is Ok,
    ensures
        add_switch_spec(add_switch_spec(v, name, ip, mask).1, name, ip2, mask2)
            == (Err::<(), LogicalOperationResult>(LogicalOperationResult::AlreadyExists { name }), add_switch_spec(v, name, ip, mask).1),
{
    let w = add_switch_spec(v, name, ip, mask).1;
    assert(switch_names(w.switches) =~= switch_names(v.switches).push(name@));
    lemma_first_index_push_new(switch_names(v.switches), name@);
}

/// A second switch port under a name just added, on any existing switch, is refused as already
/// existing and leaves the network as it is.
pub proof fn law_lsp_add_twice(v: OvnNetworkView, name: String, parent: String, t: LogicalSwitchPortType, parent2: String, t2: LogicalSwitchPortType)
    requires
        add_lsp_spec(v, name, parent, t).0 is Ok,
        has_switch(v, parent2@),
    ensures
        add_lsp_spec(add_lsp_spec(v, name, parent, t).1, name, parent2, t2)
            == (Err::<(), LogicalOperationResult>(LogicalOperationResult::AlreadyExists { name }), add_lsp_spec(v, name, parent, t).1),
{
    let w = add_lsp_spec(v, name, parent, t).1;
    assert(lsp_names(w.switch_ports) =~= lsp_names(v.switch_ports).push(name@));
    lemma_first_index_push_new(lsp_names(v.switch_ports), name@);
}

/// Whether the entry of a router's routes under the key `kv` is `route`: the key is stored, and
/// every entry under it holds `route`.
pub open spec fn route_stored(w: OvnNetworkView, router_name: Seq<char>, kv: (Seq<char>, Seq<char>, Seq<char>), route: OvnRoute) -> bool {
    match first_index(router_names(w.routers), router_name) {
        None => false,
        Some(i) => {
            &&& w.routers[i].routing.has_key(kv)
            &&& forall|j: int| 0 <= j < w.routers[i].routing.0@.len()
                && RoutingMap::key_view(#[trigger] w.routers[i].routing.0@[j].0) == kv
                ==> w.routers[i].routing.0@[j].1 == route
        },
    }
}

/// A route just added is found again: after `lr_route_add` succeeds, the router's routes hold,
/// under (router, prefix, next hop), the route to the prefix via the next hop, which is what
/// `route_rule_get` then returns.
pub proof fn law_route_add_then_get(
    v: OvnNetworkView,
    router_name: String,
    prefix: OvnIpAddr,
    next_hop: IpAddr,
    r: Result<(), LogicalOperationResult>,
    w: OvnNetworkView,
)
    requires
        route_add_post(v, router_name, prefix, next_hop, r, w),
        r is Ok,
    ensures
        route_stored(w, router_name@, (router_name@, ovn_ip_text(prefix), ip_text(next_hop)),
            OvnRoute { router_name, prefix, next_hop: OvnIpAddr::Ip(next_hop) }),
{
    let i = first_index(router_names(v.routers), router_name@).unwrap();
    assert(router_names(w.routers) =~= router_names(v.routers)) by {
        assert forall|j: int| 0 <= j < v.routers.len() implies router_names(w.routers)[j] == router_names(v.routers)[j] by {
            if j != i {
                assert(w.routers[j] == v.routers[j]);
            }
        }
    }
    let route = OvnRoute { router_name, prefix, next_hop: OvnIpAddr::Ip(next_hop) };
    let kv = (router_name@, ovn_ip_text(prefix), ip_text(next_hop));
    let k = choose|k: (String, String, String)|
        k.0 == router_name && k.1@ == ovn_ip_text(prefix) && k.2@ == ip_text(next_hop)
            && #[trigger] RoutingMap::put(v.routers[i].routing.0@, k, route) == w.routers[i].routing.0@;
    let es = v.routers[i].routing.0@;
    let ws = w.routers[i].routing.0@;
    assert(RoutingMap::key_view(k) == kv);
    if exists|j: int| 0 <= j < es.len() && RoutingMap::key_view(#[trigger] es[j].0) == RoutingMap::key_view(k) {
        let j0 = choose|j: int| 0 <= j < es.len() && RoutingMap::key_view(#[trigger] es[j].0) == RoutingMap::key_view(k);
        assert(ws[j0] == (k, route));
        assert(RoutingMap::key_view(ws[j0].0) == kv);
        assert forall|j: int| 0 <= j < ws.len() && RoutingMap::key_view(#[trigger] ws[j].0) == kv implies ws[j].1 == route by {
            if RoutingMap::key_view(es[j].0) != kv {
                assert(ws[j] == es[j]);
            }
        }
    } else {
        assert(ws == es.push((k, route)));
        assert(RoutingMap::key_view(ws[es.len() as int].0) == kv);
        assert forall|j: int| 0 <= j < ws.len() && RoutingMap::key_view(#[trigger] ws[j].0) == kv implies ws[j].1 == route by {
            if j < es.len() {
                assert(ws[j] == es[j]);
            }
        }
    }
}

/// A switch just added is found under its name, with the subnet of the given address and mask
/// and no DHCP.
pub proof fn law_switch_add_then_get(v: OvnNetworkView, name: String, ip: IpAddr, mask: u16)
    requires
        add_switch_spec(v, name, ip, mask).0 is Ok,
    ensures
        ({
            let w = add_switch_spec(v, name, ip, mask).1;
            &&& first_index(switch_names(w.switches), name@) matches Some(i)
                && w.switches[i].name == name
                && w.switches[i].subnet == (OvnIpAddr::Subnet { ip, mask })
                && w.switches[i].dhcp is None
            &&& w.switches.len() == v.switches.len() + 1
            &&& forall|j: int| 0 <= j < v.switches.len() ==> w.switches[j] == v.switches[j]
        }),
{
    let w = add_switch_spec(v, name, ip, mask).1;
    lemma_first_index(switch_names(v.switches), name@);
    let n = v.switches.len() as int;
    assert forall|j: int| 0 <= j < n implies switch_names(w.switches)[j] != name@ by {
        assert(switch_names(w.switches)[j] == w.switches[j].name@);
        assert(switch_names(v.switches)[j] == v.switches[j].name@);
    }
    assert(switch_names(w.switches)[n] == name@);
    lemma_first_index_found(switch_names(w.switches), name@, n);
}

/// A second router under a name just added is refused as already existing, and leaves the
/// network as it is.
pub proof fn law_router_add_twice(v: OvnNetworkView, name: String, r: Result<(), LogicalOperationResult>, w: OvnNetworkView, r2: Result<(), LogicalOperationResult>, w2: OvnNetworkView)
    requires
        add_router_post(v, name, r, w),
        r is Ok,
        add_router_post(w, name, r2, w2),
    ensures
        r2 == Err::<(), LogicalOperationResult>(LogicalOperationResult::AlreadyExists { name }),
        w2 == w,
{
    assert(router_names(w.routers) =~= router_names(v.routers).push(name@)) by {
        assert(router_names(w.routers.drop_last()) =~= router_names(v.routers));
    }
    lemma_first_index_push_new(router_names(v.routers), name@);
}

/// A second router port under a name just added, on any existing router, is refused as already
/// existing and leaves the network as it is.
pub proof fn law_lrp_add_twice(
    v: OvnNetworkView,
    name: String,
    parent: String,
    mac: MacAddress,
    ip: IpAddr,
    mask: u16,
    chassis: Option<String>,
    parent2: String,
    mac2: MacAddress,
    ip2: IpAddr,
    mask2: u16,
    chassis2: Option<String>,
)
    requires
        add_lrp_spec(v, name, parent, mac, ip, mask, chassis).0 is Ok,
        has_router(v, parent2@),
    ensures
        add_lrp_spec(add_lrp_spec(v, name, parent, mac, ip, mask, chassis).1, name, parent2, mac2, ip2, mask2, chassis2)
            == (Err::<(), LogicalOperationResult>(LogicalOperationResult::AlreadyExists { name }), add_lrp_spec(v, name, parent, mac, ip, mask, chassis).1),
{
    let w = add_lrp_spec(v, name, parent, mac, ip, mask, chassis).1;
    assert(lrp_names(w.router_ports) =~= lrp_names(v.router_ports).push(name@));
    lemma_first_index_push_new(lrp_names(v.router_ports), name@);
}

/// A second OVS port under a name just added is refused as already existing, and leaves the
/// network as it is.
pub proof fn law_ovs_add_twice(v: OvnNetworkView, name: String, bridge: String, lsp: String, chassis: String, bridge2: String, lsp2: String, chassis2: String)
    requires
        add_ovs_spec(v, name, bridge, lsp, chassis).0 is Ok,
    ensures
        add_ovs_spec(add_ovs_spec(v, name, bridge, lsp, chassis).1, name, bridge2, lsp2, chassis2)
            == (Err::<(), LogicalOperationResult>(LogicalOperationResult::AlreadyExists { name }), add_ovs_spec(v, name, bridge, lsp, chassis).1),
{
    let w = add_ovs_spec(v, name, bridge, lsp, chassis).1;
    assert(ovs_names(w.ovs_ports) =~= ovs_names(v.ovs_ports).push(name@));
    lemma_first_index_push_new(ovs_names(v.ovs_ports), name@);
}

/// The names of the dynamic internal ports of switch `sw`, in order.
pub open spec fn dynamic_names(ports: Seq<LogicalSwitchPort>, sw: Seq<char>) -> Seq<Seq<char>>
    decreases ports.len(),
{
    if ports.len() == 0 {
        Seq::empty()
    } else {
        let rest = dynamic_names(ports.drop_last(), sw);
        if dynamic_child(sw)(ports.last()) { rest.push(ports.last().name@) } else { rest }
    }
}

/// The key DHCP set up on switch `sw` through router `rt` links ports to.
pub open spec fn dhcp_key(v: OvnNetworkView, sw: Seq<char>, rt: Seq<char>) -> u64 {
    let si = first_index(switch_names(v.switches), sw).unwrap();
    let j = pair_spec(v, sw, rt).unwrap().1;
    dhcp_entry_hash(dhcp_entry_spec(v.switches[si].subnet, v.router_ports[j]))
}

/// Linking the dynamic ports of a switch, pointwise, links exactly those ports.
proof fn lemma_linked_ports(a: Seq<LogicalSwitchPort>, b: Seq<LogicalSwitchPort>, sw: Seq<char>, h: u64)
    requires
        a.len() == b.len(),
        forall|k: int| 0 <= k < a.len() ==> b[k] == dhcp_linked(#[trigger] a[k], sw, h),
        forall|k: int| 0 <= k < a.len() ==> (#[trigger] a[k]).dhcp_options_uuid != Some(h),
    ensures
        ports_with_dhcp(b, h) == dynamic_names(a, sw),
    decreases a.len(),
{
    if a.len() > 0 {
        let a2 = a.drop_last();
        let b2 = b.drop_last();
        assert forall|k: int| 0 <= k < a2.len() implies b2[k] == dhcp_linked(#[trigger] a2[k], sw, h) by {
            assert(b2[k] == b[k] && a2[k] == a[k]);
        }
        assert forall|k: int| 0 <= k < a2.len() implies (#[trigger] a2[k]).dhcp_options_uuid != Some(h) by {
            assert(a2[k] == a[k]);
        }
        lemma_linked_ports(a2, b2, sw, h);
        assert(b.last() == dhcp_linked(a.last(), sw, h));
    }
}

/// After DHCP is set up on a switch, the ports linked to the new entry's key are exactly the
/// switch's dynamic internal ports, when no port was linked to that key before.
pub proof fn law_dhcp_links_dynamic_ports(
    v: OvnNetworkView,
    rt: String,
    sw: String,
    exclude: Seq<char>,
    r: Result<(), LogicalOperationResult>,
    w: OvnNetworkView,
)
    requires
        dhcp_add_post(v, rt, sw, exclude, r, w),
        r is Ok,
        forall|k: int| 0 <= k < v.switch_ports.len() ==> (#[trigger] v.switch_ports[k]).dhcp_options_uuid != Some(dhcp_key(v, sw@, rt@)),
    ensures
        ports_with_dhcp(w.switch_ports, dhcp_key(v, sw@, rt@)) == dynamic_names(v.switch_ports, sw@),
{
    lemma_linked_ports(v.switch_ports, w.switch_ports, sw@, dhcp_key(v, sw@, rt@));
}

impl OvnNetwork {
    /// The network holds the invariant of [`network_wf`].
    pub open spec fn wf(&self) -> bool {
        network_wf(self@)
    }

    /// An empty network.
    pub fn new() -> (r: OvnNetwork)
        ensures
            r@.switches.len() == 0,
            r@.switch_ports.len() == 0,
            r@.routers.len() == 0,
            r@.router_ports.len() == 0,
            r@.ovs_ports.len() == 0,
            r@.acl.len() == 0,
            r@.dhcp_options.len() == 0,
            r.wf(),
    {
        OvnNetwork {
            switches: Vec::new(),
            switch_ports: Vec::new(),
            routers: Vec::new(),
            router_ports: Vec::new(),
            ovs_ports: Vec::new(),
            acl: Vec::new(),
            dhcp_options: Vec::new(),
        }
    }

    /// The position of the LogicalSwitch named `name`, if any.
    fn find_switch(&self, name: &String) -> (r: Option<usize>)
        ensures
            as_pos(r) == first_index(switch_names(self.switches@), name@),
            r matches Some(i) ==> i < self.switches@.len() && self.switches@[i as int].name@ == name@,
    {
        let mut i: usize = 0;
        while i < self.switches.len()
            invariant
                i <= self.switches@.len(),
                forall|j: int| 0 <= j < i ==> #[trigger] switch_names(self.switches@)[j] != name@,
            decreases self.switches@.len() - i,
        {
            if self.switches[i].name == *name {
                proof { lemma_first_index_found(switch_names(self.switches@), name@, i as int); }
                return Some(i);
            }
            i = i + 1;
        }
        proof { lemma_first_index_absent(switch_names(self.switches@), name@); }
        None
    }

    /// The position of the LogicalSwitchPort named `name`, if any.
    fn find_lsp(&self, name: &String) -> (r: Option<usize>)
        ensures
            as_pos(r) == first_index(lsp_names(self.switch_ports@), name@),
            r matches Some(i) ==> i < self.switch_ports@.len() && self.switch_ports@[i as int].name@ == name@,
    {
        let mut i: usize = 0;
        while i < self.switch_ports.len()
            invariant
                i <= self.switch_ports@.len(),
                forall|j: int| 0 <= j < i ==> #[trigger] lsp_names(self.switch_ports@)[j] != name@,
            decreases self.switch_ports@.len() - i,
        {
            if self.switch_ports[i].name == *name {
                proof { lemma_first_index_found(lsp_names(self.switch_ports@), name@, i as int); }
                return Some(i);
            }
            i = i + 1;
        }
        proof { lemma_first_index_absent(lsp_names(self.switch_ports@), name@); }
        None
    }

    /// The position of the LogicalRouter named `name`, if any.
    fn find_router(&self, name: &String) -> (r: Option<usize>)
        ensures
            as_pos(r) == first_index(router_names(self.routers@), name@),
            r matches Some(i) ==> i < self.routers@.len() && self.routers@[i as int].name@ == name@,
    {
        let mut i: usize = 0;
        while i < self.routers.len()
            invariant
                i <= self.routers@.len(),
                forall|j: int| 0 <= j < i ==> #[trigger] router_names(self.routers@)[j] != name@,
            decreases self.routers@.len() - i,
        {
            if self.routers[i].name == *name {
                proof { lemma_first_index_found(router_names(self.routers@), name@, i as int); }
                return Some(i);
            }
            i = i + 1;
        }
        proof { lemma_first_index_absent(router_names(self.routers@), name@); }
        None
    }

    /// The position of the LogicalRouterPort named `name`, if any.
    fn find_lrp(&self, name: &String) -> (r: Option<usize>)
        ensures
            as_pos(r) == first_index(lrp_names(self.router_ports@), name@),
            r matches Some(i) ==> i < self.router_ports@.len() && self.router_ports@[i as int].name@ == name@,
    {
        let mut i: usize = 0;
        while i < self.router_ports.len()
            invariant
                i <= self.router_ports@.len(),
                forall|j: int| 0 <= j < i ==> #[trigger] lrp_names(self.router_ports@)[j] != name@,
            decreases self.router_ports@.len() - i,
        {
            if self.router_ports[i].name == *name {
                proof { lemma_first_index_found(lrp_names(self.router_ports@), name@, i as int); }
                return Some(i);
            }
            i = i + 1;
        }
        proof { lemma_first_index_absent(lrp_names(self.router_ports@), name@); }
        None
    }

    /// The position of the OvsPort named `name`, if any.
    fn find_ovs(&self, name: &String) -> (r: Option<usize>)
        ensures
            as_pos(r) == first_index(ovs_names(self.ovs_ports@), name@),
            r matches Some(i) ==> i < self.ovs_ports@.len() && self.ovs_ports@[i as int].name@ == name@,
    {
        let mut i: usize = 0;
        while i < self.ovs_ports.len()
            invariant
                i <= self.ovs_ports@.len(),
                forall|j: int| 0 <= j < i ==> #[trigger] ovs_names(self.ovs_ports@)[j] != name@,
            decreases self.ovs_ports@.len() - i,
        {
            if self.ovs_ports[i].name == *name {
                proof { lemma_first_index_found(ovs_names(self.ovs_ports@), name@, i as int); }
                return Some(i);
            }
            i = i + 1;
        }
        proof { lemma_first_index_absent(ovs_names(self.ovs_ports@), name@); }
        None
    }

    /// The position of the ACL record named `name`, if any.
    fn find_acl(&self, name: &String) -> (r: Option<usize>)
        ensures
            as_pos(r) == first_index(acl_names(self.acl@), name@),
            r matches Some(i) ==> i < self.acl@.len() && self.acl@[i as int].0@ == name@,
    {
        let mut i: usize = 0;
        while i < self.acl.len()
            invariant
                i <= self.acl@.len(),
                forall|j: int| 0 <= j < i ==> #[trigger] acl_names(self.acl@)[j] != name@,
            decreases self.acl@.len() - i,
        {
            if self.acl[i].0 == *name {
                proof { lemma_first_index_found(acl_names(self.acl@), name@, i as int); }
                return Some(i);
            }
            i = i + 1;
        }
        proof { lemma_first_index_absent(acl_names(self.acl@), name@); }
        None
    }

    /// Whether a switch port names this switch as its parent.
    fn switch_has_ports(&self, name: &String) -> (b: bool)
        ensures
            b == switch_has_children(self@, name@),
    {
        let mut i: usize = 0;
        while i < self.switch_ports.len()
            invariant
                i <= self.switch_ports@.len(),
                forall|j: int| 0 <= j < i ==> (#[trigger] self.switch_ports@[j]).parent_switch@ != name@,
            decreases self.switch_ports@.len() - i,
        {
            if self.switch_ports[i].parent_switch == *name {
                return true;
            }
            i = i + 1;
        }
        false
    }

    /// Whether a router port names this router as its parent.
    fn router_has_ports(&self, name: &String) -> (b: bool)
        ensures
            b == router_has_children(self@, name@),
    {
        let mut i: usize = 0;
        while i < self.router_ports.len()
            invariant
                i <= self.router_ports@.len(),
                forall|j: int| 0 <= j < i ==> (#[trigger] self.router_ports@[j]).parent_router@ != name@,
            decreases self.router_ports@.len() - i,
        {
            if self.router_ports[i].parent_router == *name {
                return true;
            }
            i = i + 1;
        }
        false
    }

    /// Adds a logical switch for the subnet `subnet_ip/subnet_mask`; an existing switch of the
    /// same name is left as it is and the addition refused.
    pub fn add_switch(&mut self, name: String, subnet_ip: IpAddr, subnet_mask: u16) -> (r: Result<(), LogicalOperationResult>)
        requires
            old(self).wf(),
        ensures
            (r, final(self)@) == add_switch_spec(old(self)@, name, subnet_ip, subnet_mask),
            final(self).wf(),
            parents_exist(old(self)@) ==> parents_exist(final(self)@),
    {
        if self.find_switch(&name).is_some() {
            return Err(LogicalOperationResult::AlreadyExists { name });
        }
        let ghost v = self@;
        proof { lemma_unique_push(switch_names(v.switches), name@); }
        self.switches.push(LogicalSwitch::new(name, subnet_ip, subnet_mask));
        proof {
            assert(switch_names(self.switches@) =~= switch_names(v.switches).push(name@));
            assert(self@ == add_switch_spec(v, name, subnet_ip, subnet_mask).1);
            lemma_parents_kept_switch_added(v, self@, name@);
        }
        Ok(())
    }

    /// Deletes a logical switch; refused if it does not exist or still has ports.
    pub fn del_switch(&mut self, name: &String) -> (r: Result<(), LogicalOperationResult>)
        requires
            old(self).wf(),
        ensures
            (r, final(self)@) == del_switch_spec(old(self)@, *name),
            final(self).wf(),
            parents_exist(old(self)@) ==> parents_exist(final(self)@),
    {
        let ghost v = self@;
        match self.find_switch(name) {
            None => Err(LogicalOperationResult::DoesNotExist { name: name.clone() }),
            Some(i) => {
                if self.switch_has_ports(name) {
                    return Err(LogicalOperationResult::HasChildren { name: name.clone() });
                }
                self.switches.remove(i);
                proof {
                    assert(switch_names(self.switches@) =~= switch_names(v.switches).remove(i as int));
                    lemma_unique_remove(switch_names(v.switches), i as int);
                    lemma_parents_kept_switch_removed(v, self@, i as int);
                }
                Ok(())
            },
        }
    }

    /// Adds a switch port of kind `port_type` unless its switch is missing or its name taken.
    fn add_lsp(&mut self, name: String, parent_switch: String, port_type: LogicalSwitchPortType) -> (r: Result<(), LogicalOperationResult>)
        requires
            old(self).wf(),
        ensures
            (r, final(self)@) == add_lsp_spec(old(self)@, name, parent_switch, port_type),
            final(self).wf(),
            parents_exist(old(self)@) ==> parents_exist(final(self)@),
    {
        if self.find_switch(&parent_switch).is_none() {
            return Err(LogicalOperationResult::ParentDoesNotExist { name, parent: parent_switch });
        }
        if self.find_lsp(&name).is_some() {
            return Err(LogicalOperationResult::AlreadyExists { name });
        }
        let ghost v = self@;
        proof { lemma_unique_push(lsp_names(v.switch_ports), name@); }
        let lsp = LogicalSwitchPort::new(name, parent_switch, port_type);
        self.switch_ports.push(lsp);
        proof {
            assert(lsp_names(self.switch_ports@) =~= lsp_names(v.switch_ports).push(name@));
            assert(self@ == add_lsp_spec(v, name, parent_switch, port_type).1);
            lemma_parents_kept_lsp_added(v, self@, lsp);
        }
        Ok(())
    }

    /// Adds a switch port for a guest interface; refused if the parent switch is missing or the
    /// name is taken, in that order.
    pub fn add_lsp_internal(
        &mut self,
        name: String,
        parent_switch: String,
        ovs_port_name: String,
        ip: OvnIpAddr,
        chassis_name: Option<String>,
        mac_address: MacAddress,
        provider_network_name: Option<String>,
    ) -> (r: Result<(), LogicalOperationResult>)
        requires
            old(self).wf(),
        ensures
            (r, final(self)@) == add_lsp_spec(old(self)@, name, parent_switch, LogicalSwitchPortType::Internal {
                ovs_port_name,
                ip,
                chassis_name,
                mac_address,
                provider_network_name,
            }),
            final(self).wf(),
            parents_exist(old(self)@) ==> parents_exist(final(self)@),
    {
        let port_type = LogicalSwitchPortType::new_internal(ovs_port_name, ip, chassis_name, mac_address, provider_network_name);
        self.add_lsp(name, parent_switch, port_type)
    }

    /// Adds the switch side of a link to the router port `router_port_name`; refused if the
    /// parent switch is missing or the name is taken, in that order.
    pub fn add_lsp_router(
        &mut self,
        name: String,
        parent_switch: String,
        mac_address: MacAddress,
        router_port_name: String,
    ) -> (r: Result<(), LogicalOperationResult>)
        requires
            old(self).wf(),
        ensures
            (r, final(self)@) == add_lsp_spec(old(self)@, name, parent_switch, LogicalSwitchPortType::Router { router_port_name, mac_address }),
            final(self).wf(),
            parents_exist(old(self)@) ==> parents_exist(final(self)@),
    {
        let port_type = LogicalSwitchPortType::new_router(router_port_name, mac_address);
        self.add_lsp(name, parent_switch, port_type)
    }

    /// Adds a port onto the provider network `provider_network_name`; refused if the parent
    /// switch is missing or the name is taken, in that order.
    pub fn add_lsp_localnet(&mut self, name: String, parent_switch: String, provider_network_name: String) -> (r: Result<(), LogicalOperationResult>)
        requires
            old(self).wf(),
        ensures
            (r, final(self)@) == add_lsp_spec(old(self)@, name, parent_switch, LogicalSwitchPortType::LocalNet { provider_network_name }),
            final(self).wf(),
            parents_exist(old(self)@) ==> parents_exist(final(self)@),
    {
        let port_type = LogicalSwitchPortType::new_localnet(provider_network_name);
        self.add_lsp(name, parent_switch, port_type)
    }

    /// Deletes a switch port; refused if it does not exist.
    pub fn del_lsp(&mut self, name: &String) -> (r: Result<(), LogicalOperationResult>)
        requires
            old(self).wf(),
        ensures
            (r, final(self)@) == del_lsp_spec(old(self)@, *name),
            final(self).wf(),
            parents_exist(old(self)@) ==> parents_exist(final(self)@),
    {
        let ghost v = self@;
        match self.find_lsp(name) {
            None => Err(LogicalOperationResult::DoesNotExist { name: name.clone() }),
            Some(i) => {
                self.switch_ports.remove(i);
                proof {
                    assert(lsp_names(self.switch_ports@) =~= lsp_names(v.switch_ports).remove(i as int));
                    lemma_unique_remove(lsp_names(v.switch_ports), i as int);
                    lemma_parents_kept_lsp_removed(v, self@, i as int);
                }
                Ok(())
            },
        }
    }

    /// Adds a logical router with no routes, gateways or translation rules; an existing router
    /// of the same name is left as it is and the addition refused.
    pub fn add_router(&mut self, name: String) -> (r: Result<(), LogicalOperationResult>)
        requires
            old(self).wf(),
        ensures
            add_router_post(old(self)@, name, r, final(self)@),
            final(self).wf(),
            parents_exist(old(self)@) ==> parents_exist(final(self)@),
    {
        if self.find_router(&name).is_some() {
            return Err(LogicalOperationResult::AlreadyExists { name });
        }
        let ghost v = self@;
        proof { lemma_unique_push(router_names(v.routers), name@); }
        let router = LogicalRouter::new(name);
        self.routers.push(router);
        proof {
            assert(router_names(self.routers@) =~= router_names(v.routers).push(name@));
            assert(self.routers@.drop_last() =~= v.routers);
            assert forall|i: int| 0 <= i < self.routers@.len() implies (#[trigger] self.routers@[i]).wf() by {
                if i < v.routers.len() {
                    assert(self.routers@[i] == v.routers[i]);
                }
            }
            lemma_parents_kept_router_added(v, self@, name@);
        }
        Ok(())
    }

    /// Deletes a logical router; refused if it does not exist or still has ports.
    pub fn del_router(&mut self, name: &String) -> (r: Result<(), LogicalOperationResult>)
        requires
            old(self).wf(),
        ensures
            (r, final(self)@) == del_router_spec(old(self)@, *name),
            final(self).wf(),
            parents_exist(old(self)@) ==> parents_exist(final(self)@),
    {
        let ghost v = self@;
        match self.find_router(name) {
            None => Err(LogicalOperationResult::DoesNotExist { name: name.clone() }),
            Some(i) => {
                if self.router_has_ports(name) {
                    return Err(LogicalOperationResult::HasChildren { name: name.clone() });
                }
                self.routers.remove(i);
                proof {
                    assert(router_names(self.routers@) =~= router_names(v.routers).remove(i as int));
                    lemma_unique_remove(router_names(v.routers), i as int);
                    assert forall|j: int| 0 <= j < self.routers@.len() implies (#[trigger] self.routers@[j]).wf() by {
                        let j2 = if j < i { j } else { j + 1 };
                        assert(self.routers@[j] == v.routers[j2]);
                    }
                    lemma_parents_kept_router_removed(v, self@, i as int);
                }
                Ok(())
            },
        }
    }

    /// Adds a router port with address `ip/mask`; refused if the parent router is missing or
    /// the name is taken, in that order.
    pub fn add_lrp(
        &mut self,
        name: String,
        parent_router: String,
        mac_address: MacAddress,
        ip: IpAddr,
        mask: u16,
        chassis_name: Option<String>,
    ) -> (r: Result<(), LogicalOperationResult>)
        requires
            old(self).wf(),
        ensures
            (r, final(self)@) == add_lrp_spec(old(self)@, name, parent_router, mac_address, ip, mask, chassis_name),
            final(self).wf(),
            parents_exist(old(self)@) ==> parents_exist(final(self)@),
    {
        if self.find_router(&parent_router).is_none() {
            return Err(LogicalOperationResult::ParentDoesNotExist { name, parent: parent_router });
        }
        if self.find_lrp(&name).is_some() {
            return Err(LogicalOperationResult::AlreadyExists { name });
        }
        let ghost v = self@;
        proof { lemma_unique_push(lrp_names(v.router_ports), name@); }
        let lrp = LogicalRouterPort::new(name, parent_router, mac_address, ip, mask, chassis_name);
        self.router_ports.push(lrp);
        proof {
            assert(lrp_names(self.router_ports@) =~= lrp_names(v.router_ports).push(name@));
            assert(self@ == add_lrp_spec(v, name, parent_router, mac_address, ip, mask, chassis_name).1);
            lemma_parents_kept_lrp_added(v, self@, lrp);
        }
        Ok(())
    }

    /// Deletes a router port; refused if it does not exist.
    pub fn del_lrp(&mut self, name: &String) -> (r: Result<(), LogicalOperationResult>)
        requires
            old(self).wf(),
        ensures
            (r, final(self)@) == del_lrp_spec(old(self)@, *name),
            final(self).wf(),
            parents_exist(old(self)@) ==> parents_exist(final(self)@),
    {
        let ghost v = self@;
        match self.find_lrp(name) {
            None => Err(LogicalOperationResult::DoesNotExist { name: name.clone() }),
            Some(i) => {
                self.router_ports.remove(i);
                proof {
                    assert(lrp_names(self.router_ports@) =~= lrp_names(v.router_ports).remove(i as int));
                    lemma_unique_remove(lrp_names(v.router_ports), i as int);
                    lemma_parents_kept_lrp_removed(v, self@, i as int);
                }
                Ok(())
            },
        }
    }

    /// Adds an OVS port; refused if the name is taken.
    pub fn ovs_add_port(&mut self, name: String, integration_bridge_name: String, lsp_name: String, chassis: String) -> (r: Result<(), LogicalOperationResult>)
        requires
            old(self).wf(),
        ensures
            (r, final(self)@) == add_ovs_spec(old(self)@, name, integration_bridge_name, lsp_name, chassis),
            final(self).wf(),
            parents_exist(old(self)@) ==> parents_exist(final(self)@),
    {
        if self.find_ovs(&name).is_some() {
            return Err(LogicalOperationResult::AlreadyExists { name });
        }
        let ghost v = self@;
        proof { lemma_unique_push(ovs_names(v.ovs_ports), name@); }
        self.ovs_ports.push(OvsPort::new(name, integration_bridge_name, lsp_name, chassis));
        proof {
            assert(ovs_names(self.ovs_ports@) =~= ovs_names(v.ovs_ports).push(name@));
            assert(self@ == add_ovs_spec(v, name, integration_bridge_name, lsp_name, chassis).1);
        }
        Ok(())
    }

    /// Deletes an OVS port; refused if it does not exist.
    pub fn ovs_del_port(&mut self, name: &String) -> (r: Result<(), LogicalOperationResult>)
        requires
            old(self).wf(),
        ensures
            (r, final(self)@) == del_ovs_spec(old(self)@, *name),
            final(self).wf(),
            parents_exist(old(self)@) ==> parents_exist(final(self)@),
    {
        let ghost v = self@;
        match self.find_ovs(name) {
            None => Err(LogicalOperationResult::DoesNotExist { name: name.clone() }),
            Some(i) => {
                self.ovs_ports.remove(i);
                proof {
                    assert(ovs_names(self.ovs_ports@) =~= ovs_names(v.ovs_ports).remove(i as int));
                    lemma_unique_remove(ovs_names(v.ovs_ports), i as int);
                }
                Ok(())
            },
        }
    }

    /// Adds the ACL record built from `acl_rule` under `acl_name`; refused if a record of that
    /// name exists.
    pub fn add_switch_acl(&mut self, acl_name: &String, entity_name: String, _type: ACLRecordType, acl_rule: &ACLRule) -> (r: Result<(), LogicalOperationResult>)
        requires
            old(self).wf(),
        ensures
            (r, final(self)@) == add_acl_spec(old(self)@, *acl_name, entity_name, _type, *acl_rule),
            final(self).wf(),
            parents_exist(old(self)@) ==> parents_exist(final(self)@),
    {
        if self.find_acl(acl_name).is_some() {
            return Err(LogicalOperationResult::AlreadyExists { name: acl_name.clone() });
        }
        let ghost v = self@;
        proof { lemma_unique_push(acl_names(v.acl), acl_name@); }
        let record = LogicalACLRecord::new(
            entity_name,
            _type,
            acl_rule.direction,
            acl_rule.priority,
            acl_rule._match.clone(),
            acl_rule.action,
        );
        self.acl.push((acl_name.clone(), record));
        proof {
            assert(acl_names(self.acl@) =~= acl_names(v.acl).push(acl_name@));
            assert(self@ == add_acl_spec(v, *acl_name, entity_name, _type, *acl_rule).1);
        }
        Ok(())
    }

    /// Adds a static route to `prefix` via `next_hop` on a router; refused if the prefix is
    /// dynamic or the router is missing, in that order.
    pub fn lr_route_add(&mut self, router_name: String, prefix: OvnIpAddr, next_hop: IpAddr) -> (r: Result<(), LogicalOperationResult>)
        requires
            old(self).wf(),
        ensures
            route_add_post(old(self)@, router_name, prefix, next_hop, r, final(self)@),
            final(self).wf(),
            parents_exist(old(self)@) ==> parents_exist(final(self)@),
    {
        let route = match OvnRoute::new(router_name.clone(), prefix, next_hop) {
            Ok(rt) => rt,
            Err(_) => {
                return Err(LogicalOperationResult::Error {
                    msg: owned("Could not create OvnRoute, incorrect configuration: Err(cannot be dynamic ip)"),
                });
            },
        };
        match self.find_router(&router_name) {
            None => {
                let mut name = owned("Route(prefix: ");
                push_str(&mut name, prefix.to_debug_string().as_str());
                push_str(&mut name, ", next hop: ");
                push_str(&mut name, next_hop.to_debug_string().as_str());
                push_str(&mut name, ")");
                proof { assert(name@ =~= route_name_text(prefix, next_hop)); }
                Err(LogicalOperationResult::ParentDoesNotExist { name, parent: router_name })
            },
            Some(i) => {
                let ghost v = self@;
                let key = (router_name.clone(), prefix.to_string(), next_hop.to_string());
                let ghost k = key;
                proof { assert(v.routers[i as int].wf()); }
                self.routers[i].routing.insert(key, route);
                proof {
                    assert(RoutingMap::put(v.routers[i as int].routing.0@, k, route) == self.routers@[i as int].routing.0@);
                    lemma_wf_router_changed(v, self@, i as int);
                    lemma_parents_kept_same_names(v, self@);
                }
                Ok(())
            },
        }
    }

    /// Makes `router_port_name` on `chassis_name` an external gateway of a router; refused if the
    /// router is missing.
    pub fn lrp_add_external_gateway(&mut self, router_name: String, router_port_name: String, chassis_name: String) -> (r: Result<(), LogicalOperationResult>)
        requires
            old(self).wf(),
        ensures
            gateway_add_post(old(self)@, router_name, router_port_name, chassis_name, r, final(self)@),
            final(self).wf(),
            parents_exist(old(self)@) ==> parents_exist(final(self)@),
    {
        match self.find_router(&router_name) {
            None => {
                let mut name = owned("ExternalGateway(router_port_name: ");
                push_str(&mut name, debug_string(router_port_name.as_str()).as_str());
                push_str(&mut name, ", chassis_name: ");
                push_str(&mut name, debug_string(chassis_name.as_str()).as_str());
                push_str(&mut name, ")");
                proof { assert(name@ =~= gateway_name_text(router_port_name@, chassis_name@)); }
                Err(LogicalOperationResult::ParentDoesNotExist { name, parent: router_name })
            },
            Some(i) => {
                let ghost v = self@;
                let key = (router_port_name.clone(), chassis_name.clone());
                let gateway = OvnExternalGateway::new(router_port_name, chassis_name);
                proof { assert(v.routers[i as int].wf()); }
                self.routers[i].external_gateway.insert(key, gateway);
                proof {
                    lemma_wf_router_changed(v, self@, i as int);
                    lemma_parents_kept_same_names(v, self@);
                }
                Ok(())
            },
        }
    }

    /// Adds an address translation rule to a router; refused if its addresses fail
    /// [`nat_check`] or the router is missing, in that order.
    pub fn lr_add_nat(&mut self, logical_router_name: String, nat_type: OvnNatType, external_ip: OvnIpAddr, logical_ip: OvnIpAddr) -> (r: Result<(), LogicalOperationResult>)
        requires
            old(self).wf(),
        ensures
            nat_add_post(old(self)@, logical_router_name, nat_type, external_ip, logical_ip, r, final(self)@),
            final(self).wf(),
            parents_exist(old(self)@) ==> parents_exist(final(self)@),
    {
        let rule = match OvnNat::new(logical_router_name.clone(), external_ip, logical_ip, nat_type) {
            Ok(n) => n,
            Err(OvnNatError::DynamicIp) => {
                return Err(LogicalOperationResult::Error {
                    msg: owned("Could not create OvnNat, incorrect configuration: Err(cannot be dynamic ip)"),
                });
            },
            Err(OvnNatError::SubnetIp) => {
                return Err(LogicalOperationResult::Error {
                    msg: owned("Could not create OvnNat, incorrect configuration: Err(cannot be subnet ip)"),
                });
            },
        };
        match self.find_router(&logical_router_name) {
            None => {
                let mut name = owned("ExternalGateway(external_ip: ");
                push_str(&mut name, external_ip.to_debug_string().as_str());
                push_str(&mut name, ", logical_ip: ");
                push_str(&mut name, logical_ip.to_debug_string().as_str());
                push_str(&mut name, " nat_type: ");
                push_str(&mut name, nat_type.to_debug_string().as_str());
                push_str(&mut name, ")");
                proof { assert(name@ =~= nat_name_text(external_ip, logical_ip, nat_type)); }
                Err(LogicalOperationResult::ParentDoesNotExist { name, parent: logical_router_name })
            },
            Some(i) => {
                let ghost v = self@;
                let key = (logical_router_name.clone(), nat_type.to_string(), external_ip.to_string());
                let ghost k = key;
                proof {
                    assert(v.routers[i as int].wf());
                    assert(rule == OvnNat { logical_router_name, external_ip, logical_ip, nat_type });
                }
                self.routers[i].nat.insert(key, rule);
                proof {
                    assert(NatMap::put(v.routers[i as int].nat.0@, k, rule) == self.routers@[i as int].nat.0@);
                    lemma_wf_router_changed(v, self@, i as int);
                    lemma_parents_kept_same_names(v, self@);
                }
                Ok(())
            },
        }
    }

    /// The switch named `name`.
    pub fn switch_get(&self, name: &String) -> (r: Result<&LogicalSwitch, LogicalOperationResult>)
        ensures
            match first_index(switch_names(self.switches@), name@) {
                Some(i) => r matches Ok(x) && *x == self.switches@[i],
                None => r matches Err(e) && e == (LogicalOperationResult::DoesNotExist { name: *name }),
            },
    {
        match self.find_switch(name) {
            Some(i) => Ok(&self.switches[i]),
            None => Err(LogicalOperationResult::DoesNotExist { name: name.clone() }),
        }
    }

    /// The switch named `name`, to be changed in place.
    pub fn switch_get_mut(&mut self, name: &String) -> (r: Result<&mut LogicalSwitch, LogicalOperationResult>)
        ensures
            match first_index(switch_names(old(self).switches@), name@) {
                Some(i) => r matches Ok(x) && *x == old(self).switches@[i]
                    && final(self)@ == (OvnNetworkView { switches: old(self).switches@.update(i, *final(x)), ..old(self)@ }),
                None => r matches Err(e) && e == (LogicalOperationResult::DoesNotExist { name: *name })
                    && *final(self) == *old(self),
            },
    {
        match self.find_switch(name) {
            Some(i) => Ok(&mut self.switches[i]),
            None => Err(LogicalOperationResult::DoesNotExist { name: name.clone() }),
        }
    }

    /// The switch port named `name`.
    pub fn switch_port_get(&self, name: &String) -> (r: Result<&LogicalSwitchPort, LogicalOperationResult>)
        ensures
            match first_index(lsp_names(self.switch_ports@), name@) {
                Some(i) => r matches Ok(x) && *x == self.switch_ports@[i],
                None => r matches Err(e) && e == (LogicalOperationResult::DoesNotExist { name: *name }),
            },
    {
        match self.find_lsp(name) {
            Some(i) => Ok(&self.switch_ports[i]),
            None => Err(LogicalOperationResult::DoesNotExist { name: name.clone() }),
        }
    }

    /// The switch port named `name`, to be changed in place.
    pub fn switch_port_get_mut(&mut self, name: &String) -> (r: Result<&mut LogicalSwitchPort, LogicalOperationResult>)
        ensures
            match first_index(lsp_names(old(self).switch_ports@), name@) {
                Some(i) => r matches Ok(x) && *x == old(self).switch_ports@[i]
                    && final(self)@ == (OvnNetworkView { switch_ports: old(self).switch_ports@.update(i, *final(x)), ..old(self)@ }),
                None => r matches Err(e) && e == (LogicalOperationResult::DoesNotExist { name: *name })
                    && *final(self) == *old(self),
            },
    {
        match self.find_lsp(name) {
            Some(i) => Ok(&mut self.switch_ports[i]),
            None => Err(LogicalOperationResult::DoesNotExist { name: name.clone() }),
        }
    }

    /// The router named `name`.
    pub fn router_get(&self, name: &String) -> (r: Result<&LogicalRouter, LogicalOperationResult>)
        ensures
            match first_index(router_names(self.routers@), name@) {
                Some(i) => r matches Ok(x) && *x == self.routers@[i],
                None => r matches Err(e) && e == (LogicalOperationResult::DoesNotExist { name: *name }),
            },
    {
        match self.find_router(name) {
            Some(i) => Ok(&self.routers[i]),
            None => Err(LogicalOperationResult::DoesNotExist { name: name.clone() }),
        }
    }

    /// The router named `name`, to be changed in place.
    pub fn router_get_mut(&mut self, name: &String) -> (r: Result<&mut LogicalRouter, LogicalOperationResult>)
        ensures
            match first_index(router_names(old(self).routers@), name@) {
                Some(i) => r matches Ok(x) && *x == old(self).routers@[i]
                    && final(self)@ == (OvnNetworkView { routers: old(self).routers@.update(i, *final(x)), ..old(self)@ }),
                None => r matches Err(e) && e == (LogicalOperationResult::DoesNotExist { name: *name })
                    && *final(self) == *old(self),
            },
    {
        match self.find_router(name) {
            Some(i) => Ok(&mut self.routers[i]),
            None => Err(LogicalOperationResult::DoesNotExist { name: name.clone() }),
        }
    }

    /// The router port named `name`.
    pub fn router_port_get(&self, name: &String) -> (r: Result<&LogicalRouterPort, LogicalOperationResult>)
        ensures
            match first_index(lrp_names(self.router_ports@), name@) {
                Some(i) => r matches Ok(x) && *x == self.router_ports@[i],
                None => r matches Err(e) && e == (LogicalOperationResult::DoesNotExist { name: *name }),
            },
    {
        match self.find_lrp(name) {
            Some(i) => Ok(&self.router_ports[i]),
            None => Err(LogicalOperationResult::DoesNotExist { name: name.clone() }),
        }
    }

    /// The router port named `name`, to be changed in place.
    pub fn router_port_get_mut(&mut self, name: &String) -> (r: Result<&mut LogicalRouterPort, LogicalOperationResult>)
        ensures
            match first_index(lrp_names(old(self).router_ports@), name@) {
                Some(i) => r matches Ok(x) && *x == old(self).router_ports@[i]
                    && final(self)@ == (OvnNetworkView { router_ports: old(self).router_ports@.update(i, *final(x)), ..old(self)@ }),
                None => r matches Err(e) && e == (LogicalOperationResult::DoesNotExist { name: *name })
                    && *final(self) == *old(self),
            },
    {
        match self.find_lrp(name) {
            Some(i) => Ok(&mut self.router_ports[i]),
            None => Err(LogicalOperationResult::DoesNotExist { name: name.clone() }),
        }
    }

    /// The OVS port named `name`.
    pub fn ovs_port_get(&self, name: &String) -> (r: Result<&OvsPort, LogicalOperationResult>)
        ensures
            match first_index(ovs_names(self.ovs_ports@), name@) {
                Some(i) => r matches Ok(x) && *x == self.ovs_ports@[i],
                None => r matches Err(e) && e == (LogicalOperationResult::DoesNotExist { name: *name }),
            },
    {
        match self.find_ovs(name) {
            Some(i) => Ok(&self.ovs_ports[i]),
            None => Err(LogicalOperationResult::DoesNotExist { name: name.clone() }),
        }
    }

    /// The OVS port named `name`, to be changed in place.
    pub fn ovs_port_get_mut(&mut self, name: &String) -> (r: Result<&mut OvsPort, LogicalOperationResult>)
        ensures
            match first_index(ovs_names(old(self).ovs_ports@), name@) {
                Some(i) => r matches Ok(x) && *x == old(self).ovs_ports@[i]
                    && final(self)@ == (OvnNetworkView { ovs_ports: old(self).ovs_ports@.update(i, *final(x)), ..old(self)@ }),
                None => r matches Err(e) && e == (LogicalOperationResult::DoesNotExist { name: *name })
                    && *final(self) == *old(self),
            },
    {
        match self.find_ovs(name) {
            Some(i) => Ok(&mut self.ovs_ports[i]),
            None => Err(LogicalOperationResult::DoesNotExist { name: name.clone() }),
        }
    }

    /// The route of router `router_name` stored under (router, prefix, next hop).
    pub fn route_rule_get(&self, router_name: &String, prefix: &OvnIpAddr, next_hop: &IpAddr) -> (r: Result<&OvnRoute, LogicalOperationResult>)
        requires
            self.wf(),
        ensures
            match first_index(router_names(self.routers@), router_name@) {
                None => r matches Err(e) && e == (LogicalOperationResult::DoesNotExist { name: *router_name }),
                Some(i) => {
                    let kv = (router_name@, ovn_ip_text(*prefix), ip_text(*next_hop));
                    let entries = self.routers@[i].routing.0@;
                    if self.routers@[i].routing.has_key(kv) {
                        r matches Ok(x) && exists|j: int| 0 <= j < entries.len() && RoutingMap::key_view(#[trigger] entries[j].0) == kv && entries[j].1 == *x
                    } else {
                        r matches Err(LogicalOperationResult::DoesNotExist { name }) && name@ == route_name_text(*prefix, *next_hop)
                    }
                },
            },
    {
        match self.find_router(router_name) {
            None => Err(LogicalOperationResult::DoesNotExist { name: router_name.clone() }),
            Some(i) => {
                proof { assert(self.routers@[i as int].wf()); }
                let key = (router_name.clone(), prefix.to_string(), next_hop.to_string());
                match self.routers[i].routing.get(&key) {
                    Some(x) => Ok(x),
                    None => {
                        let mut name = owned("Route(prefix: ");
                        push_str(&mut name, prefix.to_debug_string().as_str());
                        push_str(&mut name, ", next hop: ");
                        push_str(&mut name, next_hop.to_debug_string().as_str());
                        push_str(&mut name, ")");
                        proof { assert(name@ =~= route_name_text(*prefix, *next_hop)); }
                        Err(LogicalOperationResult::DoesNotExist { name })
                    },
                }
            },
        }
    }

    /// The route of router `router_name` stored under (router, prefix, next hop), to be changed
    /// in place.
    pub fn route_rule_get_mut(&mut self, router_name: &String, prefix: &OvnIpAddr, next_hop: &IpAddr) -> (r: Result<&mut OvnRoute, LogicalOperationResult>)
        requires
            old(self).wf(),
        ensures
            match first_index(router_names(old(self).routers@), router_name@) {
                None => r matches Err(e) && e == (LogicalOperationResult::DoesNotExist { name: *router_name })
                    && *final(self) == *old(self),
                Some(i) => {
                    let kv = (router_name@, ovn_ip_text(*prefix), ip_text(*next_hop));
                    let entries = old(self).routers@[i].routing.0@;
                    if old(self).routers@[i].routing.has_key(kv) {
                        r matches Ok(x) && exists|j: int| 0 <= j < entries.len() && RoutingMap::key_view(#[trigger] entries[j].0) == kv
                            && entries[j].1 == *x
                            && only_router_changed(old(self)@, final(self)@, i)
                            && final(self).routers@[i].external_gateway == old(self).routers@[i].external_gateway
                            && final(self).routers@[i].nat == old(self).routers@[i].nat
                            && final(self).routers@[i].routing.0@ == entries.update(j, (entries[j].0, *final(x)))
                    } else {
                        r matches Err(LogicalOperationResult::DoesNotExist { name }) && name@ == route_name_text(*prefix, *next_hop)
                            && *final(self) == *old(self)
                    }
                },
            },
    {
        match self.find_router(router_name) {
            None => Err(LogicalOperationResult::DoesNotExist { name: router_name.clone() }),
            Some(i) => {
                proof { assert(self.routers@[i as int].wf()); }
                let key = (router_name.clone(), prefix.to_string(), next_hop.to_string());
                match self.routers[i].routing.position(&key) {
                    Some(j) => Ok(&mut self.routers[i].routing.0[j].1),
                    None => {
                        let mut name = owned("Route(prefix: ");
                        push_str(&mut name, prefix.to_debug_string().as_str());
                        push_str(&mut name, ", next hop: ");
                        push_str(&mut name, next_hop.to_debug_string().as_str());
                        push_str(&mut name, ")");
                        proof { assert(name@ =~= route_name_text(*prefix, *next_hop)); }
                        Err(LogicalOperationResult::DoesNotExist { name })
                    },
                }
            },
        }
    }

    /// The position of the first port of router `rt` named `port`, if any.
    fn find_lrp_for(&self, rt: &String, port: &String) -> (r: Option<usize>)
        ensures
            as_pos(r) == first_where(self.router_ports@, lrp_matches(rt@, port@)),
            r matches Some(j) ==> j < self.router_ports@.len(),
    {
        let mut j: usize = 0;
        while j < self.router_ports.len()
            invariant
                j <= self.router_ports@.len(),
                forall|k: int| 0 <= k < j ==> !lrp_matches(rt@, port@)(#[trigger] self.router_ports@[k]),
            decreases self.router_ports@.len() - j,
        {
            if self.router_ports[j].parent_router == *rt && self.router_ports[j].name == *port {
                proof { lemma_first_where_found(self.router_ports@, lrp_matches(rt@, port@), j as int); }
                return Some(j);
            }
            j = j + 1;
        }
        proof { lemma_first_where_absent(self.router_ports@, lrp_matches(rt@, port@)); }
        None
    }

    /// The positions of the switch port and router port linking switch `sw` to router `rt`, if
    /// any (see [`pair_spec`]).
    fn pair_positions(&self, sw: &String, rt: &String) -> (r: Option<(usize, usize)>)
        ensures
            match (r, pair_spec(self@, sw@, rt@)) {
                (Some((i, j)), Some((a, b))) => i == a && j == b && i < self.switch_ports@.len() && j < self.router_ports@.len(),
                (None, None) => true,
                _ => false,
            },
    {
        let ghost f = lsp_pairs(self.router_ports@, sw@, rt@);
        let mut i: usize = 0;
        while i < self.switch_ports.len()
            invariant
                i <= self.switch_ports@.len(),
                f == lsp_pairs(self.router_ports@, sw@, rt@),
                forall|k: int| 0 <= k < i ==> !f(#[trigger] self.switch_ports@[k]),
            decreases self.switch_ports@.len() - i,
        {
            if self.switch_ports[i].parent_switch == *sw {
                match &self.switch_ports[i].port_type {
                    LogicalSwitchPortType::Router { router_port_name, .. } => {
                        match self.find_lrp_for(rt, router_port_name) {
                            Some(j) => {
                                proof {
                                    assert(linked_port(self.switch_ports@[i as int]) == router_port_name@);
                                    lemma_first_where_found(self.switch_ports@, f, i as int);
                                }
                                return Some((i, j));
                            },
                            None => {
                                proof { assert(linked_port(self.switch_ports@[i as int]) == router_port_name@); }
                            },
                        }
                    },
                    _ => {},
                }
            }
            i = i + 1;
        }
        proof { lemma_first_where_absent(self.switch_ports@, f); }
        None
    }

    /// The switch port and router port linking switch `switch_name` to router `router_name`;
    /// refused if the switch is missing, the router is missing, or they are not linked, in that
    /// order.
    pub fn get_lsp_lrp_pair(&self, switch_name: &String, router_name: &String) -> (r: Result<(&LogicalSwitchPort, &LogicalRouterPort), LogicalOperationResult>)
        ensures
            pair_result(self@, *switch_name, *router_name, match r {
                Ok((a, b)) => Ok((*a, *b)),
                Err(e) => Err(e),
            }),
    {
        if self.find_switch(switch_name).is_none() {
            return Err(LogicalOperationResult::DoesNotExist { name: switch_name.clone() });
        }
        if self.find_router(router_name).is_none() {
            return Err(LogicalOperationResult::DoesNotExist { name: router_name.clone() });
        }
        match self.pair_positions(switch_name, router_name) {
            Some((i, j)) => Ok((&self.switch_ports[i], &self.router_ports[j])),
            None => {
                let mut msg = owned("Could not find LSP type route and LRP pair for switch ");
                push_str(&mut msg, switch_name.as_str());
                push_str(&mut msg, " and router ");
                push_str(&mut msg, router_name.as_str());
                proof { assert(msg@ =~= pair_error_text(switch_name@, router_name@)); }
                Err(LogicalOperationResult::Error { msg })
            },
        }
    }

    /// Whether a port is a dynamic internal port of switch `sw`.
    fn is_dynamic_child(p: &LogicalSwitchPort, sw: &String) -> (b: bool)
        ensures
            b == dynamic_child(sw@)(*p),
    {
        if p.parent_switch != *sw {
            return false;
        }
        match &p.port_type {
            LogicalSwitchPortType::Internal { ip, .. } => match ip {
                OvnIpAddr::Dynamic => true,
                _ => false,
            },
            _ => false,
        }
    }

    /// Whether the DHCP table holds an entry with the same values.
    fn has_dhcp_entry(&self, e: &DhcpDatabaseEntry) -> (b: bool)
        ensures
            b == dhcp_views(self.dhcp_options@).contains(e@),
    {
        let mut i: usize = 0;
        while i < self.dhcp_options.len()
            invariant
                i <= self.dhcp_options@.len(),
                forall|k: int| 0 <= k < i ==> (#[trigger] self.dhcp_options@[k])@ != e@,
            decreases self.dhcp_options@.len() - i,
        {
            if self.dhcp_options[i].same(e) {
                proof { assert(dhcp_views(self.dhcp_options@)[i as int] == e@); }
                return true;
            }
            i = i + 1;
        }
        proof {
            assert forall|k: int| 0 <= k < dhcp_views(self.dhcp_options@).len() implies dhcp_views(self.dhcp_options@)[k] != e@ by {
                assert(self.dhcp_options@[k]@ != e@);
            }
        }
        false
    }

    /// Sets up DHCP on switch `switch_name` through router `router_name`: the DHCP entry for the
    /// switch's subnet is kept in the table, every dynamic internal port of the switch is linked
    /// to it by the entry's key, and the switch records `exclude_ips`. Refused if the switch is
    /// missing, the router is missing, they are not linked, or the switch has no dynamic
    /// internal port, in that order.
    pub fn add_dhcp_option(&mut self, router_name: &String, switch_name: &String, exclude_ips: &str) -> (r: Result<(), LogicalOperationResult>)
        requires
            old(self).wf(),
            dhcp_pair_has_subnet(old(self)@, switch_name@, router_name@),
        ensures
            dhcp_add_post(old(self)@, *router_name, *switch_name, exclude_ips@, r, final(self)@),
            final(self).wf(),
            parents_exist(old(self)@) ==> parents_exist(final(self)@),
    {
        let ghost v = self@;
        let si = match self.find_switch(switch_name) {
            None => { return Err(LogicalOperationResult::DoesNotExist { name: switch_name.clone() }); },
            Some(i) => i,
        };
        if self.find_router(router_name).is_none() {
            return Err(LogicalOperationResult::DoesNotExist { name: router_name.clone() });
        }
        let j = match self.pair_positions(switch_name, router_name) {
            None => {
                let mut msg = owned("Could not find LSP type route and LRP pair for switch ");
                push_str(&mut msg, switch_name.as_str());
                push_str(&mut msg, " and router ");
                push_str(&mut msg, router_name.as_str());
                proof { assert(msg@ =~= pair_error_text(switch_name@, router_name@)); }
                return Err(LogicalOperationResult::Error { msg });
            },
            Some((_, j)) => j,
        };
        let ghost f = dynamic_child(switch_name@);
        let mut any_dynamic = false;
        let mut k: usize = 0;
        while k < self.switch_ports.len()
            invariant
                k <= self.switch_ports@.len(),
                f == dynamic_child(switch_name@),
                !any_dynamic ==> forall|m: int| 0 <= m < k ==> !f(#[trigger] self.switch_ports@[m]),
                any_dynamic ==> exists|m: int| 0 <= m < self.switch_ports@.len() && f(#[trigger] self.switch_ports@[m]),
            decreases self.switch_ports@.len() - k,
        {
            if Self::is_dynamic_child(&self.switch_ports[k], switch_name) {
                any_dynamic = true;
            }
            k = k + 1;
        }
        proof { lemma_first_where(self.switch_ports@, f); }
        if !any_dynamic {
            let mut msg = owned("the switch ");
            push_str(&mut msg, switch_name.as_str());
            push_str(&mut msg, " did not have any internal switch ports with a dynamic ip");
            proof { assert(msg@ =~= no_dynamic_text(switch_name@)); }
            return Err(LogicalOperationResult::Error { msg });
        }
        let lrp_ip = match self.router_ports[j].ip {
            OvnIpAddr::Subnet { ip, .. } => ip,
            _ => vstd::pervasive::unreached(),
        };
        let entry = DhcpDatabaseEntry::new(
            self.switches[si].subnet,
            owned("3600"),
            lrp_ip.to_string(),
            lrp_ip.to_string(),
            self.router_ports[j].mac_address.duplicate(),
        );
        let ghost e = dhcp_entry_spec(v.switches[si as int].subnet, v.router_ports[j as int]);
        proof { assert(entry@ == e); }
        let h = hash_dhcp_entry(&entry);
        if !self.has_dhcp_entry(&entry) {
            proof {
                assert forall|a: int, b: int| 0 <= a < b < self.dhcp_options@.push(entry).len()
                    implies self.dhcp_options@.push(entry)[a]@ != self.dhcp_options@.push(entry)[b]@ by {
                    if b == self.dhcp_options@.len() {
                        assert(dhcp_views(self.dhcp_options@)[a] == self.dhcp_options@[a]@);
                        assert(!dhcp_views(self.dhcp_options@).contains(entry@));
                        assert(self.dhcp_options@.push(entry)[b] == entry);
                        assert(self.dhcp_options@.push(entry)[a] == self.dhcp_options@[a]);
                    } else {
                        assert(self.dhcp_options@.push(entry)[a] == self.dhcp_options@[a]);
                        assert(self.dhcp_options@.push(entry)[b] == self.dhcp_options@[b]);
                        assert(network_wf(v));
                        assert(v.dhcp_options[a]@ != v.dhcp_options[b]@);
                    }
                }
            }
            self.dhcp_options.push(entry);
            proof { assert(dhcp_views(self.dhcp_options@) =~= dhcp_views(v.dhcp_options).push(e)); }
        }
        let ghost mid = self@;
        let mut k: usize = 0;
        while k < self.switch_ports.len()
            invariant
                k <= self.switch_ports@.len(),
                self.switch_ports@.len() == mid.switch_ports.len(),
                forall|m: int| 0 <= m < k ==> self.switch_ports@[m] == dhcp_linked(#[trigger] mid.switch_ports[m], switch_name@, h),
                forall|m: int| k <= m < self.switch_ports@.len() ==> self.switch_ports@[m] == #[trigger] mid.switch_ports[m],
                self@ == (OvnNetworkView { switch_ports: self.switch_ports@, ..mid }),
            decreases self.switch_ports@.len() - k,
        {
            if Self::is_dynamic_child(&self.switch_ports[k], switch_name) {
                self.switch_ports[k].dhcp_options_uuid = Some(h);
            }
            k = k + 1;
        }
        self.switches[si].dhcp = Some(SwitchDhcpOptions::new(owned(exclude_ips)));
        proof {
            assert(switch_names(self.switches@) =~= switch_names(v.switches)) by {
                assert forall|m: int| 0 <= m < v.switches.len() implies switch_names(self.switches@)[m] == switch_names(v.switches)[m] by {
                    if m != si as int {
                        assert(self.switches@[m] == v.switches[m]);
                    }
                }
            }
            assert forall|m: int| 0 <= m < v.switch_ports.len() implies (#[trigger] self.switch_ports@[m]).parent_switch == v.switch_ports[m].parent_switch
                && self.switch_ports@[m].name == v.switch_ports[m].name by {
                assert(self.switch_ports@[m] == dhcp_linked(mid.switch_ports[m], switch_name@, h));
            }
            lemma_kept_dhcp(v, self@);
        }
        Ok(())
    }

    /// Checks that no two ports share an address: internal switch ports that are not dynamic,
    /// then router ports by their address without mask. The first repeat is reported with both
    /// port names and the address.
    pub fn validate(&self) -> (r: Result<(), String>)
        ensures
            validate_result(self@, r),
    {
        let mut names: Vec<String> = Vec::new();
        let mut ips: Vec<OvnIpAddr> = Vec::new();
        let mut i: usize = 0;
        while i < self.switch_ports.len()
            invariant
                i <= self.switch_ports@.len(),
                names@.len() == ips@.len(),
                entry_list(names@, ips@) == lsp_address_entries(self.switch_ports@.take(i as int)),
            decreases self.switch_ports@.len() - i,
        {
            proof { lemma_take_one_more(self.switch_ports@, i as int); }
            let ghost before = entry_list(names@, ips@);
            let p = &self.switch_ports[i];
            match &p.port_type {
                LogicalSwitchPortType::Internal { ip, .. } => {
                    match ip {
                        OvnIpAddr::Dynamic => {},
                        _ => {
                            names.push(p.name.clone());
                            ips.push(*ip);
                            proof { assert(entry_list(names@, ips@) =~= before.push((p.name@, *ip))); }
                        },
                    }
                },
                _ => {},
            }
            i = i + 1;
        }
        proof { assert(self.switch_ports@.take(self.switch_ports@.len() as int) =~= self.switch_ports@); }
        let mut i: usize = 0;
        while i < self.router_ports.len()
            invariant
                i <= self.router_ports@.len(),
                names@.len() == ips@.len(),
                entry_list(names@, ips@) == lsp_address_entries(self.switch_ports@) + lrp_address_entries(self.router_ports@.take(i as int)),
            decreases self.router_ports@.len() - i,
        {
            proof { lemma_take_one_more(self.router_ports@, i as int); }
            let ghost before = entry_list(names@, ips@);
            let p = &self.router_ports[i];
            match p.ip {
                OvnIpAddr::Dynamic => {},
                OvnIpAddr::Ip(ip) => {
                    names.push(p.name.clone());
                    ips.push(OvnIpAddr::Ip(ip));
                    proof { assert(entry_list(names@, ips@) =~= before.push((p.name@, OvnIpAddr::Ip(ip)))); }
                },
                OvnIpAddr::Subnet { ip, .. } => {
                    names.push(p.name.clone());
                    ips.push(OvnIpAddr::Ip(ip));
                    proof { assert(entry_list(names@, ips@) =~= before.push((p.name@, OvnIpAddr::Ip(ip)))); }
                },
            }
            i = i + 1;
            proof {
                assert(lsp_address_entries(self.switch_ports@) + lrp_address_entries(self.router_ports@.take(i as int))
                    =~= if p.ip is Dynamic { before } else { before.push((p.name@, OvnIpAddr::Ip(address_ip(p.ip)))) });
            }
        }
        proof { assert(self.router_ports@.take(self.router_ports@.len() as int) =~= self.router_ports@); }
        let ghost s = address_entries(self@);
        proof {
            assert forall|k: int| 0 <= k < s.len() implies (#[trigger] s[k]) == (names@[k]@, ips@[k]) by {
                assert(s[k] == entry_list(names@, ips@)[k]);
            }
        }
        let mut j: usize = 0;
        while j < ips.len()
            invariant
                j <= ips@.len(),
                s.len() == ips@.len(),
                names@.len() == ips@.len(),
                s == address_entries(self@),
                forall|k: int| 0 <= k < s.len() ==> (#[trigger] s[k]) == (names@[k]@, ips@[k]),
                first_repeat(s.take(j as int)) is None,
            decreases ips@.len() - j,
        {
            proof { lemma_take_one_more(s, j as int); }
            let ghost f = has_address(ips@[j as int]);
            let mut i: usize = 0;
            while i < j
                invariant
                    i <= j < ips@.len(),
                    s.len() == ips@.len(),
                    names@.len() == ips@.len(),
                    f == has_address(ips@[j as int]),
                    forall|k: int| 0 <= k < s.len() ==> (#[trigger] s[k]) == (names@[k]@, ips@[k]),
                    first_repeat(s.take(j as int)) is None,
                    s == address_entries(self@),
                    s.take(j as int + 1).drop_last() == s.take(j as int),
                    s.take(j as int + 1).last() == s[j as int],
                    forall|k: int| 0 <= k < i ==> !f(#[trigger] s.take(j as int)[k]),
                decreases j - i,
            {
                if ips[i].same(&ips[j]) {
                    proof {
                        assert(s.take(j as int)[i as int] == s[i as int]);
                        lemma_first_where_found(s.take(j as int), f, i as int);
                        assert(s[j as int].1 == ips@[j as int]);
                        assert(first_repeat(s.take(j as int + 1)) == Some((i as int, j as int)));
                        lemma_first_repeat_prefix(s, j as int + 1);
                    }
                    let mut msg = owned("ports ");
                    push_str(&mut msg, names[i].as_str());
                    push_str(&mut msg, " and ");
                    push_str(&mut msg, names[j].as_str());
                    push_str(&mut msg, " both have the same ip ");
                    push_str(&mut msg, ips[j].to_string().as_str());
                    proof { assert(msg@ =~= repeat_text(s[i as int].0, s[j as int].0, s[j as int].1)); }
                    return Err(msg);
                }
                proof { assert(s.take(j as int)[i as int] == s[i as int]); }
                i = i + 1;
            }
            proof { lemma_first_where_absent(s.take(j as int), f); }
            j = j + 1;
        }
        proof { assert(s.take(s.len() as int) =~= s); }
        Ok(())
    }
}

} // verus!
