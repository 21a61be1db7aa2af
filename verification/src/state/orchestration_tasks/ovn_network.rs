//! Orchestration of the OVN network: which testbed host runs a chassis's commands, and checks
//! made before ACL rules are applied again.

use vstd::prelude::*;
use vstd::multiset::Multiset;
use crate::orchestration::{common_wf, names_unique, OrchestrationCommon, TestbedHostSshConfig};
use crate::ovn::components::acl::LogicalACLRecord;
use crate::ovn::components::logical_router::LogicalRouter;
use crate::ovn::components::logical_switch::LogicalSwitch;
use crate::ovn::ovn_state::{OvnNetwork, OvnNetworkView};
use crate::state::StateNetwork;
use crate::ovn::ovn_state::first_where;
use crate::ovn::ovn_state::{lemma_first_where_found, lemma_first_where_absent};
use crate::text::{owned, push_str};

verus! {

/// Whether some string of the list has the value `n`.
pub open spec fn names_contain(current: Seq<String>, n: Seq<char>) -> bool {
    exists|j: int| 0 <= j < current.len() && (#[trigger] current[j])@ == n
}

/// Whether every switch named by the ACL rules exists.
pub open spec fn acl_switches_exist(current: Seq<String>, yaml: Seq<String>) -> bool {
    forall|i: int| 0 <= i < yaml.len() ==> names_contain(current, (#[trigger] yaml[i])@)
}

/// Checks that the switches the ACL rules of the testbed description name all exist in the
/// current state; refused otherwise.
pub fn ensure_yaml_acl_switches_already_exist(current_switch_list: &Vec<String>, yaml_acl_switch_list: &Vec<String>) -> (r: Result<(), String>)
    ensures
        r is Ok <==> acl_switches_exist(current_switch_list@, yaml_acl_switch_list@),
        r matches Err(m) ==> m@ == "there are switches in the ACL list that don't exist in the current state"@,
{
    let mut i: usize = 0;
    while i < yaml_acl_switch_list.len()
        invariant
            i <= yaml_acl_switch_list@.len(),
            forall|k: int| 0 <= k < i ==> names_contain(current_switch_list@, (#[trigger] yaml_acl_switch_list@[k])@),
        decreases yaml_acl_switch_list@.len() - i,
    {
        let mut found = false;
        let mut j: usize = 0;
        while j < current_switch_list.len()
            invariant
                i < yaml_acl_switch_list@.len(),
                j <= current_switch_list@.len(),
                found ==> exists|m: int| 0 <= m < current_switch_list@.len() && (#[trigger] current_switch_list@[m])@ == yaml_acl_switch_list@[i as int]@,
                !found ==> forall|m: int| 0 <= m < j ==> (#[trigger] current_switch_list@[m])@ != yaml_acl_switch_list@[i as int]@,
            decreases current_switch_list@.len() - j,
        {
            if current_switch_list[j] == yaml_acl_switch_list[i] {
                found = true;
            }
            j = j + 1;
        }
        if !found {
            proof { assert(!names_contain(current_switch_list@, yaml_acl_switch_list@[i as int]@)); }
            return Err(owned("there are switches in the ACL list that don't exist in the current state"));
        }
        i = i + 1;
    }
    Ok(())
}

/// A host whose OVN chassis has the given name.
pub open spec fn has_chassis(chassis: Seq<char>) -> spec_fn((String, TestbedHostSshConfig)) -> bool {
    |e: (String, TestbedHostSshConfig)| e.1.ovn.chassis_name@ == chassis
}

/// The message given when no host has the chassis.
pub open spec fn no_chassis_text(chassis: Seq<char>) -> Seq<char> {
    "could not find chassis "@ + chassis + " in kvm-compose-config"@
}

/// The name of the first testbed host whose OVN chassis is `chassis`; refused if there is none.
pub fn chassis_to_tb_host(chassis: &String, orchestration_common: &OrchestrationCommon) -> (r: Result<String, String>)
    ensures
        match first_where(orchestration_common.kvm_compose_config.testbed_host_ssh_config@, has_chassis(chassis@)) {
            Some(i) => r matches Ok(n) && n@ == orchestration_common.kvm_compose_config.testbed_host_ssh_config@[i].0@,
            None => r matches Err(m) && m@ == no_chassis_text(chassis@),
        },
{
    let ghost f = has_chassis(chassis@);
    let mut i: usize = 0;
    while i < orchestration_common.kvm_compose_config.testbed_host_ssh_config.len()
        invariant
            i <= orchestration_common.kvm_compose_config.testbed_host_ssh_config@.len(),
            f == has_chassis(chassis@),
            forall|k: int| 0 <= k < i ==> !f(#[trigger] orchestration_common.kvm_compose_config.testbed_host_ssh_config@[k]),
        decreases orchestration_common.kvm_compose_config.testbed_host_ssh_config@.len() - i,
    {
        if orchestration_common.kvm_compose_config.testbed_host_ssh_config[i].1.ovn.chassis_name == *chassis {
            proof { lemma_first_where_found(orchestration_common.kvm_compose_config.testbed_host_ssh_config@, f, i as int); }
            let n = orchestration_common.kvm_compose_config.testbed_host_ssh_config[i].0.clone();
            proof { assert(n@ == orchestration_common.kvm_compose_config.testbed_host_ssh_config@[i as int].0@); }
            return Ok(n);
        }
        i = i + 1;
    }
    proof { lemma_first_where_absent(orchestration_common.kvm_compose_config.testbed_host_ssh_config@, f); }
    let mut m = owned("could not find chassis ");
    push_str(&mut m, chassis.as_str());
    push_str(&mut m, " in kvm-compose-config");
    proof { assert(m@ =~= no_chassis_text(chassis@)); }
    Err(m)
}


/// One component of the OVN network, by its position: routes, gateways and translation rules
/// by their router's position and their own.
#[derive(Debug, Clone, Copy, PartialEq, Eq)]
pub enum NetworkItem {
    Switch(usize),
    SwitchPort(usize),
    Router(usize),
    RouterPort(usize),
    OvsPort(usize),
    Route(usize, usize),
    ExternalGateway(usize, usize),
    Nat(usize, usize),
    DhcpOption(usize),
    Acl(usize),
}

/// The kinds of component, for listing them.
#[derive(Debug, Clone, Copy, PartialEq, Eq)]
pub enum ItemKind {
    Switch,
    SwitchPort,
    Router,
    RouterPort,
    OvsPort,
    Route,
    ExternalGateway,
    Nat,
    DhcpOption,
    Acl,
}

/// The item of a kind that sits directly in the network, at position `i`.
pub open spec fn top_item(k: ItemKind, i: int) -> NetworkItem {
    match k {
        ItemKind::Switch => NetworkItem::Switch(i as usize),
        ItemKind::SwitchPort => NetworkItem::SwitchPort(i as usize),
        ItemKind::Router => NetworkItem::Router(i as usize),
        ItemKind::RouterPort => NetworkItem::RouterPort(i as usize),
        ItemKind::OvsPort => NetworkItem::OvsPort(i as usize),
        ItemKind::DhcpOption => NetworkItem::DhcpOption(i as usize),
        ItemKind::Acl => NetworkItem::Acl(i as usize),
        ItemKind::Route => NetworkItem::Route(0, i as usize),
        ItemKind::ExternalGateway => NetworkItem::ExternalGateway(0, i as usize),
        ItemKind::Nat => NetworkItem::Nat(0, i as usize),
    }
}

/// The number of components of a kind sitting directly in the network.
pub open spec fn top_count(v: OvnNetworkView, k: ItemKind) -> nat {
    match k {
        ItemKind::Switch => v.switches.len(),
        ItemKind::SwitchPort => v.switch_ports.len(),
        ItemKind::Router => v.routers.len(),
        ItemKind::RouterPort => v.router_ports.len(),
        ItemKind::OvsPort => v.ovs_ports.len(),
        ItemKind::DhcpOption => v.dhcp_options.len(),
        ItemKind::Acl => v.acl.len(),
        _ => 0,
    }
}

/// The components of a kind sitting directly in the network, in order.
pub open spec fn top_items(v: OvnNetworkView, k: ItemKind) -> Seq<NetworkItem> {
    Seq::new(top_count(v, k), |i: int| top_item(k, i))
}

/// The number of entries of a kind a router holds.
pub open spec fn router_count(r: LogicalRouter, k: ItemKind) -> nat {
    match k {
        ItemKind::Route => r.routing.0@.len(),
        ItemKind::ExternalGateway => r.external_gateway.0@.len(),
        ItemKind::Nat => r.nat.0@.len(),
        _ => 0,
    }
}

/// An entry of a kind held by router `i`, at position `j`.
pub open spec fn router_item(k: ItemKind, i: int, j: int) -> NetworkItem {
    match k {
        ItemKind::Route => NetworkItem::Route(i as usize, j as usize),
        ItemKind::ExternalGateway => NetworkItem::ExternalGateway(i as usize, j as usize),
        _ => NetworkItem::Nat(i as usize, j as usize),
    }
}

/// The entries of a kind held by the routers, router by router, in order.
pub open spec fn router_items(routers: Seq<LogicalRouter>, k: ItemKind) -> Seq<NetworkItem>
    decreases routers.len(),
{
    if routers.len() == 0 {
        Seq::empty()
    } else {
        let i = routers.len() - 1;
        router_items(routers.drop_last(), k) + Seq::new(router_count(routers.last(), k), |j: int| router_item(k, i, j))
    }
}

/// The components of a kind, in order.
pub open spec fn items_of(v: OvnNetworkView, k: ItemKind) -> Seq<NetworkItem> {
    match k {
        ItemKind::Route | ItemKind::ExternalGateway | ItemKind::Nat => router_items(v.routers, k),
        _ => top_items(v, k),
    }
}

/// The components of several kinds, kind after kind.
pub open spec fn items_in_order(v: OvnNetworkView, kinds: Seq<ItemKind>) -> Seq<NetworkItem>
    decreases kinds.len(),
{
    if kinds.len() == 0 {
        Seq::empty()
    } else {
        items_in_order(v, kinds.drop_last()) + items_of(v, kinds.last())
    }
}

/// The order in which components are created directly.
pub open spec fn create_order() -> Seq<ItemKind> {
    seq![ItemKind::Switch, ItemKind::SwitchPort, ItemKind::Router, ItemKind::RouterPort, ItemKind::OvsPort,
        ItemKind::Route, ItemKind::ExternalGateway, ItemKind::Nat, ItemKind::DhcpOption]
}

/// The order in which components are destroyed directly.
pub open spec fn destroy_order() -> Seq<ItemKind> {
    seq![ItemKind::DhcpOption, ItemKind::Route, ItemKind::ExternalGateway, ItemKind::Nat, ItemKind::SwitchPort,
        ItemKind::RouterPort, ItemKind::Switch, ItemKind::Router, ItemKind::OvsPort]
}

/// The order in which testbed hosts are asked to create components.
pub open spec fn request_create_order() -> Seq<ItemKind> {
    seq![ItemKind::Switch, ItemKind::SwitchPort, ItemKind::Router, ItemKind::RouterPort, ItemKind::OvsPort,
        ItemKind::Route, ItemKind::ExternalGateway, ItemKind::Nat, ItemKind::DhcpOption, ItemKind::Acl]
}

/// The order in which testbed hosts are asked to destroy components.
pub open spec fn request_destroy_order() -> Seq<ItemKind> {
    seq![ItemKind::Acl, ItemKind::Switch, ItemKind::SwitchPort, ItemKind::Router, ItemKind::RouterPort,
        ItemKind::Route, ItemKind::ExternalGateway, ItemKind::Nat, ItemKind::DhcpOption, ItemKind::OvsPort]
}

/// The components of several kinds, counted, kind after kind.
pub open spec fn kinds_multiset(v: OvnNetworkView, kinds: Seq<ItemKind>) -> Multiset<NetworkItem>
    decreases kinds.len(),
{
    if kinds.len() == 0 {
        Multiset::empty()
    } else {
        kinds_multiset(v, kinds.drop_last()).add(items_of(v, kinds.last()).to_multiset())
    }
}

/// Counting the components of several kinds in order is counting them kind by kind.
proof fn lemma_items_multiset(v: OvnNetworkView, kinds: Seq<ItemKind>)
    ensures
        items_in_order(v, kinds).to_multiset() == kinds_multiset(v, kinds),
    decreases kinds.len(),
{
    broadcast use vstd::seq_lib::group_to_multiset_ensures;
    if kinds.len() == 0 {
        assert(items_in_order(v, kinds).to_multiset() =~= Multiset::<NetworkItem>::empty());
    } else {
        lemma_items_multiset(v, kinds.drop_last());
        vstd::seq_lib::lemma_multiset_commutative(items_in_order(v, kinds.drop_last()), items_of(v, kinds.last()));
    }
}

/// Whatever the network holds, the plan that destroys it takes down exactly the components the
/// plan that creates it puts up, each as often; the same holds of the plans the testbed hosts
/// are asked to carry out.
pub proof fn law_destroy_plan_matches_create_plan(v: OvnNetworkView)
    ensures
        items_in_order(v, destroy_order()).to_multiset() == items_in_order(v, create_order()).to_multiset(),
        items_in_order(v, request_destroy_order()).to_multiset() == items_in_order(v, request_create_order()).to_multiset(),
{
    lemma_items_multiset(v, create_order());
    lemma_items_multiset(v, destroy_order());
    lemma_items_multiset(v, request_create_order());
    lemma_items_multiset(v, request_destroy_order());
    reveal_with_fuel(kinds_multiset, 11);
    assert(create_order().len() == 9);
    assert(kinds_multiset(v, create_order()) =~= kinds_multiset(v, destroy_order())) by {
        assert(create_order().drop_last() =~= seq![ItemKind::Switch, ItemKind::SwitchPort, ItemKind::Router, ItemKind::RouterPort, ItemKind::OvsPort,
            ItemKind::Route, ItemKind::ExternalGateway, ItemKind::Nat]);
    }
    assert(kinds_multiset(v, request_create_order()) =~= kinds_multiset(v, request_destroy_order()));
}

/// Appends the components of one kind (see [`items_of`]).
fn push_items(net: &OvnNetwork, k: ItemKind, out: &mut Vec<NetworkItem>)
    ensures
        final(out)@ == old(out)@ + items_of(net@, k),
{
    match k {
        ItemKind::Route | ItemKind::ExternalGateway | ItemKind::Nat => {
            let mut i: usize = 0;
            let ghost start = out@;
            while i < net.routers.len()
                invariant
                    i <= net.routers@.len(),
                    k == ItemKind::Route || k == ItemKind::ExternalGateway || k == ItemKind::Nat,
                    out@ == start + router_items(net.routers@.subrange(0, i as int), k),
                decreases net.routers@.len() - i,
            {
                let n = match k {
                    ItemKind::Route => net.routers[i].routing.0.len(),
                    ItemKind::ExternalGateway => net.routers[i].external_gateway.0.len(),
                    _ => net.routers[i].nat.0.len(),
                };
                let ghost mid = out@;
                let mut j: usize = 0;
                while j < n
                    invariant
                        j <= n,
                        n == router_count(net.routers@[i as int], k),
                        k == ItemKind::Route || k == ItemKind::ExternalGateway || k == ItemKind::Nat,
                        out@ == mid + Seq::new(j as nat, |x: int| router_item(k, i as int, x)),
                    decreases n - j,
                {
                    let item = match k {
                        ItemKind::Route => NetworkItem::Route(i, j),
                        ItemKind::ExternalGateway => NetworkItem::ExternalGateway(i, j),
                        _ => NetworkItem::Nat(i, j),
                    };
                    out.push(item);
                    proof {
                        assert(out@ =~= mid + Seq::new((j + 1) as nat, |x: int| router_item(k, i as int, x)));
                    }
                    j = j + 1;
                }
                proof {
                    let rs = net.routers@.subrange(0, i + 1);
                    assert(rs.drop_last() =~= net.routers@.subrange(0, i as int));
                    assert(rs.last() == net.routers@[i as int]);
                    assert(out@ =~= start + router_items(rs, k));
                }
                i = i + 1;
            }
            proof { assert(net.routers@.subrange(0, net.routers@.len() as int) =~= net.routers@); }
        },
        _ => {
            let n = match k {
                ItemKind::Switch => net.switches.len(),
                ItemKind::SwitchPort => net.switch_ports.len(),
                ItemKind::Router => net.routers.len(),
                ItemKind::RouterPort => net.router_ports.len(),
                ItemKind::OvsPort => net.ovs_ports.len(),
                ItemKind::DhcpOption => net.dhcp_options.len(),
                _ => net.acl.len(),
            };
            let ghost start = out@;
            let mut i: usize = 0;
            while i < n
                invariant
                    i <= n,
                    n == top_count(net@, k),
                    !(k == ItemKind::Route || k == ItemKind::ExternalGateway || k == ItemKind::Nat),
                    out@ == start + Seq::new(i as nat, |x: int| top_item(k, x)),
                decreases n - i,
            {
                let item = match k {
                    ItemKind::Switch => NetworkItem::Switch(i),
                    ItemKind::SwitchPort => NetworkItem::SwitchPort(i),
                    ItemKind::Router => NetworkItem::Router(i),
                    ItemKind::RouterPort => NetworkItem::RouterPort(i),
                    ItemKind::OvsPort => NetworkItem::OvsPort(i),
                    ItemKind::DhcpOption => NetworkItem::DhcpOption(i),
                    _ => NetworkItem::Acl(i),
                };
                out.push(item);
                proof { assert(out@ =~= start + Seq::new((i + 1) as nat, |x: int| top_item(k, x))); }
                i = i + 1;
            }
            proof { assert(Seq::new(n as nat, |x: int| top_item(k, x)) =~= top_items(net@, k)); }
        },
    }
}

/// The components of several kinds, kind after kind (see [`items_in_order`]).
fn items_in(net: &OvnNetwork, kinds: &Vec<ItemKind>) -> (r: Vec<NetworkItem>)
    ensures
        r@ == items_in_order(net@, kinds@),
{
    let mut out: Vec<NetworkItem> = Vec::new();
    let mut i: usize = 0;
    while i < kinds.len()
        invariant
            i <= kinds@.len(),
            out@ == items_in_order(net@, kinds@.subrange(0, i as int)),
        decreases kinds@.len() - i,
    {
        proof { assert(kinds@.subrange(0, i + 1).drop_last() =~= kinds@.subrange(0, i as int)); }
        push_items(net, kinds[i], &mut out);
        i = i + 1;
    }
    proof { assert(kinds@.subrange(0, kinds@.len() as int) =~= kinds@); }
    out
}

impl StateNetwork {
    /// The components of an OVN network in the order they are created directly: switches,
    /// switch ports, routers, router ports, OVS ports, routes, gateways, translation rules and
    /// DHCP entries.
    pub fn create_action(&self) -> (r: Vec<NetworkItem>)
        requires
            self is Ovn,
        ensures
            r@ == items_in_order(self->Ovn_0@, create_order()),
    {
        match self {
            StateNetwork::Ovn(net) => {
                let kinds = vec![ItemKind::Switch, ItemKind::SwitchPort, ItemKind::Router, ItemKind::RouterPort, ItemKind::OvsPort,
                    ItemKind::Route, ItemKind::ExternalGateway, ItemKind::Nat, ItemKind::DhcpOption];
                proof { assert(kinds@ =~= create_order()); }
                items_in(net, &kinds)
            },
            StateNetwork::Ovs(_) => vstd::pervasive::unreached(),
        }
    }

    /// The components of an OVN network in the order they are destroyed directly: DHCP entries,
    /// routes, gateways, translation rules, switch ports, router ports, switches, routers and
    /// OVS ports.
    pub fn destroy_action(&self) -> (r: Vec<NetworkItem>)
        requires
            self is Ovn,
        ensures
            r@ == items_in_order(self->Ovn_0@, destroy_order()),
    {
        match self {
            StateNetwork::Ovn(net) => {
                let kinds = vec![ItemKind::DhcpOption, ItemKind::Route, ItemKind::ExternalGateway, ItemKind::Nat, ItemKind::SwitchPort,
                    ItemKind::RouterPort, ItemKind::Switch, ItemKind::Router, ItemKind::OvsPort];
                proof { assert(kinds@ =~= destroy_order()); }
                items_in(net, &kinds)
            },
            StateNetwork::Ovs(_) => vstd::pervasive::unreached(),
        }
    }

    /// The components of an OVN network in the order testbed hosts are asked to create them:
    /// as [`StateNetwork::create_action`], then the ACL records.
    pub fn request_create_action(&self) -> (r: Vec<NetworkItem>)
        requires
            self is Ovn,
        ensures
            r@ == items_in_order(self->Ovn_0@, request_create_order()),
    {
        match self {
            StateNetwork::Ovn(net) => {
                let kinds = vec![ItemKind::Switch, ItemKind::SwitchPort, ItemKind::Router, ItemKind::RouterPort, ItemKind::OvsPort,
                    ItemKind::Route, ItemKind::ExternalGateway, ItemKind::Nat, ItemKind::DhcpOption, ItemKind::Acl];
                proof { assert(kinds@ =~= request_create_order()); }
                items_in(net, &kinds)
            },
            StateNetwork::Ovs(_) => vstd::pervasive::unreached(),
        }
    }

    /// The components of an OVN network in the order testbed hosts are asked to destroy them:
    /// ACL records, switches, switch ports, routers, router ports, routes, gateways, translation
    /// rules, DHCP entries and OVS ports.
    pub fn request_destroy_action(&self) -> (r: Vec<NetworkItem>)
        requires
            self is Ovn,
        ensures
            r@ == items_in_order(self->Ovn_0@, request_destroy_order()),
    {
        match self {
            StateNetwork::Ovn(net) => {
                let kinds = vec![ItemKind::Acl, ItemKind::Switch, ItemKind::SwitchPort, ItemKind::Router, ItemKind::RouterPort,
                    ItemKind::Route, ItemKind::ExternalGateway, ItemKind::Nat, ItemKind::DhcpOption, ItemKind::OvsPort];
                proof { assert(kinds@ =~= request_destroy_order()); }
                items_in(net, &kinds)
            },
            StateNetwork::Ovs(_) => vstd::pervasive::unreached(),
        }
    }
}

/// The names of the switches of a network.
pub open spec fn switch_name_strings(o: OvnNetwork) -> Seq<String> {
    o.switches@.map_values(|x: LogicalSwitch| x.name)
}

/// The switches the ACL records of a network apply to, in order.
pub open spec fn acl_entity_names(o: OvnNetwork) -> Seq<String> {
    o.acl@.map_values(|e: (String, LogicalACLRecord)| e.1.entity_name)
}

/// The ACL records of a network, in order.
pub open spec fn acl_records(o: OvnNetwork) -> Seq<LogicalACLRecord> {
    o.acl@.map_values(|e: (String, LogicalACLRecord)| e.1)
}

/// The ACL records removed and added when the ACL rules of a testbed are applied again.
#[derive(Debug, Clone)]
pub struct AclReapplyPlan {
    pub destroy: Vec<LogicalACLRecord>,
    pub deploy: Vec<LogicalACLRecord>,
}

/// Plans applying the ACL rules of a new description of the testbed to its current network:
/// both networks must be OVN and every switch the new rules name must exist in the current
/// network; then every current record is removed and every new one added, in order.
pub fn reapply_acl_plan(current: &StateNetwork, new: &StateNetwork) -> (r: Result<AclReapplyPlan, String>)
    ensures
        match (*current, *new) {
            (StateNetwork::Ovs(_), _) => r matches Err(e) && e@ == "acl not implemented for ovs"@,
            (StateNetwork::Ovn(_), StateNetwork::Ovs(_)) => r matches Err(e) && e@ == "no OVN network defined in yaml"@,
            (StateNetwork::Ovn(c), StateNetwork::Ovn(n)) => if acl_switches_exist(switch_name_strings(c), acl_entity_names(n)) {
                r matches Ok(p) && p.destroy@ == acl_records(c) && p.deploy@ == acl_records(n)
            } else {
                r matches Err(e) && e@ == "there are switches in the ACL list that don't exist in the current state"@
            },
        },
{
    let c = match current {
        StateNetwork::Ovn(c) => c,
        StateNetwork::Ovs(_) => { return Err(owned("acl not implemented for ovs")); },
    };
    let n = match new {
        StateNetwork::Ovn(n) => n,
        StateNetwork::Ovs(_) => { return Err(owned("no OVN network defined in yaml")); },
    };
    let mut switches: Vec<String> = Vec::new();
    let mut i: usize = 0;
    while i < c.switches.len()
        invariant
            i <= c.switches@.len(),
            switches@ == switch_name_strings(*c).subrange(0, i as int),
        decreases c.switches@.len() - i,
    {
        switches.push(c.switches[i].name.clone());
        i = i + 1;
        proof { assert(switches@ =~= switch_name_strings(*c).subrange(0, i as int)); }
    }
    proof { assert(switches@ =~= switch_name_strings(*c)); }
    let mut entities: Vec<String> = Vec::new();
    let mut j: usize = 0;
    while j < n.acl.len()
        invariant
            j <= n.acl@.len(),
            entities@ == acl_entity_names(*n).subrange(0, j as int),
        decreases n.acl@.len() - j,
    {
        entities.push(n.acl[j].1.entity_name.clone());
        j = j + 1;
        proof { assert(entities@ =~= acl_entity_names(*n).subrange(0, j as int)); }
    }
    proof { assert(entities@ =~= acl_entity_names(*n)); }
    ensure_yaml_acl_switches_already_exist(&switches, &entities)?;
    let mut destroy: Vec<LogicalACLRecord> = Vec::new();
    let mut k: usize = 0;
    while k < c.acl.len()
        invariant
            k <= c.acl@.len(),
            destroy@ == acl_records(*c).subrange(0, k as int),
        decreases c.acl@.len() - k,
    {
        destroy.push(c.acl[k].1.duplicate());
        k = k + 1;
        proof { assert(destroy@ =~= acl_records(*c).subrange(0, k as int)); }
    }
    let mut deploy: Vec<LogicalACLRecord> = Vec::new();
    let mut l: usize = 0;
    while l < n.acl.len()
        invariant
            l <= n.acl@.len(),
            deploy@ == acl_records(*n).subrange(0, l as int),
        decreases n.acl@.len() - l,
    {
        deploy.push(n.acl[l].1.duplicate());
        l = l + 1;
        proof { assert(deploy@ =~= acl_records(*n).subrange(0, l as int)); }
    }
    proof {
        assert(destroy@ =~= acl_records(*c));
        assert(deploy@ =~= acl_records(*n));
    }
    Ok(AclReapplyPlan { destroy, deploy })
}

} // verus!
