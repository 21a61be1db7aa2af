//! Android virtual device guests: the commands that give a device its network namespace and
//! port, start its emulator and stop it.

use vstd::prelude::*;
use crate::orchestration::{common_wf, names_unique, OrchestrationCommon};
use crate::ovn::components::logical_switch_port::LogicalSwitchPortType;
use crate::ovn::ovn_state::{first_index, lemma_first_index_absent, lemma_first_index_found, lsp_names, OvnNetwork};
use crate::state::StateNetwork;
use crate::state::orchestration_tasks::{get_host_bridge, get_host_guest_name, has_host_config, host_bridge, host_guest_name};
use crate::state::orchestration_tasks::docker::{first_port_index, first_port_internal, first_port_name, get_first_port_name};
use crate::state::orchestration_tasks::guests::{get_master_testbed_name, master_index, master_name};
use crate::state::schema::guest::StateTestbedGuest;
use crate::state::orchestration_tasks::guests::{dynamic_ip_query, dynamic_ip_result, dynamic_query_spec, parse_dynamic_ip};
use crate::state::orchestration_tasks::steps::{guest_action_view, reply_at, GuestAction, GuestNext};
use crate::ovn::configuration::dhcp::replies_text;
use crate::text::{command_views, copy_words, concat2, concat3, owned, push_arg, push_lit, push_str, views};

verus! {

/// The network namespace of a device: `<project>-<guest>-nmspc`.
pub open spec fn namespace_name(project: Seq<char>, guest: Seq<char>) -> Seq<char> {
    project + "-"@ + guest + "-nmspc"@
}

/// The network namespace of a device (see [`namespace_name`]).
pub fn get_namespace_name(common: &OrchestrationCommon, g: &StateTestbedGuest) -> (r: String)
    ensures
        r@ == namespace_name(common.project_name@, g.guest_type.name@),
{
    let mut r = concat3(common.project_name.as_str(), "-", g.guest_type.name.as_str());
    push_str(&mut r, "-nmspc");
    proof { assert(r@ =~= namespace_name(common.project_name@, g.guest_type.name@)); }
    r
}

/// `ip netns exec <namespace>` followed by a command.
pub open spec fn in_ns(ns: Seq<char>, cmd: Seq<Seq<char>>) -> Seq<Seq<char>> {
    seq!["ip"@, "netns"@, "exec"@, ns] + cmd
}

/// Starts a command run in a namespace.
fn ns_command(ns: &String) -> (r: Vec<String>)
    ensures
        views(r@) == in_ns(ns@, Seq::empty()),
{
    let mut v: Vec<String> = Vec::new();
    push_lit(&mut v, "ip");
    push_lit(&mut v, "netns");
    push_lit(&mut v, "exec");
    push_arg(&mut v, ns.clone());
    proof { assert(views(v@) =~= in_ns(ns@, Seq::empty())); }
    v
}

/// The text of the error when a device is placed on another host than the master.
pub open spec fn remote_android_text() -> Seq<char> {
    "currently dont support AVD guests on remote testbed hosts"@
}

/// The text of the error when a device has no network.
pub open spec fn no_android_network_text() -> Seq<char> {
    "getting guest network in android create action"@
}

/// The text of the error when the port of a device is missing.
pub open spec fn android_lsp_missing_text(guest: Seq<char>) -> Seq<char> {
    "Getting LSP for android guest "@ + guest
}

/// The text of the error when a device's interface has no gateway.
pub open spec fn no_gateway_text() -> Seq<char> {
    "android guest was not given a gateway"@
}

/// The commands that give a device (only on the master) the internal port of its first
/// interface `iface`, bound to its OVN port, and a network namespace holding that port with the
/// port's MAC; before its address is set. None for a device without interfaces.
pub open spec fn android_setup_spec(common: OrchestrationCommon, g: StateTestbedGuest, iface: Seq<char>) -> Result<Seq<Seq<Seq<char>>>, Seq<char>> {
    let ns = namespace_name(common.project_name@, g.guest_type.name@);
    if g.testbed_host->0@ != master_name(common) {
        Err(remote_android_text())
    } else {
        match g.guest_type.network {
            None => Err(no_android_network_text()),
            Some(net) => if net@.len() == 0 {
                Ok(Seq::empty())
            } else {
                match first_port_index(common, g) {
                    None => Err(android_lsp_missing_text(g.guest_type.name@)),
                    Some(i) => if net@[0].gateway is None {
                        Err(no_gateway_text())
                    } else {
                        let port = first_port_name(common.project_name@, net@[0].switch@, g.guest_type.name@);
                        let mac = (common.network->Ovn_0).switch_ports@[i].port_type->Internal_mac_address.address@;
                        Ok(seq![
                            seq![
                                "ovs-vsctl"@, "--may-exist"@, "add-port"@, host_bridge(common, g.testbed_host->0@), iface,
                                "--"@, "set"@, "Interface"@, iface, "type=internal"@,
                                "--"@, "set"@, "Interface"@, iface, "external_ids:iface-id="@ + port,
                            ],
                            seq!["ip"@, "netns"@, "add"@, ns],
                            in_ns(ns, seq!["ip"@, "link"@, "set"@, "dev"@, "lo"@, "up"@]),
                            seq!["ip"@, "link"@, "set"@, iface, "netns"@, ns],
                            in_ns(ns, seq!["ip"@, "link"@, "set"@, iface, "address"@, mac]),
                        ])
                    },
                }
            },
        }
    }
}

/// What the setup of a device needs: it is placed on a host, a master exists, the network is
/// OVN, the port of its first interface is internal where it exists, and the host is in the
/// cluster configuration when the port is to be made.
pub open spec fn android_setup_ready(common: OrchestrationCommon, g: StateTestbedGuest) -> bool {
    &&& g.testbed_host is Some
    &&& master_index(common) is Some
    &&& common.network is Ovn
    &&& first_port_internal(common, g)
    &&& first_port_index(common, g) is Some ==> has_host_config(common, g.testbed_host->0@)
}

/// The position of a switch port by name.
fn find_switch_port(ovn: &OvnNetwork, name: &String) -> (r: Option<usize>)
    ensures
        match (r, first_index(lsp_names(ovn.switch_ports@), name@)) {
            (Some(i), Some(k)) => i == k && i < ovn.switch_ports@.len(),
            (None, None) => true,
            _ => false,
        },
{
    let mut i: usize = 0;
    while i < ovn.switch_ports.len()
        invariant
            i <= ovn.switch_ports@.len(),
            forall|k: int| 0 <= k < i ==> lsp_names(ovn.switch_ports@)[k] != name@,
        decreases ovn.switch_ports@.len() - i,
    {
        if ovn.switch_ports[i].name == *name {
            proof { lemma_first_index_found(lsp_names(ovn.switch_ports@), name@, i as int); }
            return Some(i);
        }
        i = i + 1;
    }
    proof { lemma_first_index_absent(lsp_names(ovn.switch_ports@), name@); }
    None
}

/// The commands that set a device's port and namespace up (see [`android_setup_spec`]);
/// `iface` is the name of the device's first interface on its host.
pub fn android_setup_commands(common: &OrchestrationCommon, g: &StateTestbedGuest, iface: &String) -> (r: Result<Vec<Vec<String>>, String>)
    requires
        common_wf(*common),
        android_setup_ready(*common, *g),
    ensures
        match (r, android_setup_spec(*common, *g, iface@)) {
            (Ok(v), Ok(s)) => command_views(v@) == s,
            (Err(e), Err(s)) => e@ == s,
            _ => false,
        },
{
    let host = match &g.testbed_host {
        Some(h) => h,
        None => { return vstd::pervasive::unreached(); },
    };
    let master = get_master_testbed_name(common);
    if *host != master {
        return Err(owned("currently dont support AVD guests on remote testbed hosts"));
    }
    let ns = get_namespace_name(common, g);
    let net = match &g.guest_type.network {
        Some(n) => n,
        None => { return Err(owned("getting guest network in android create action")); },
    };
    let mut out: Vec<Vec<String>> = Vec::new();
    if net.len() == 0 {
        proof { assert(command_views(out@) =~= Seq::<Seq<Seq<char>>>::empty()); }
        return Ok(out);
    }
    let ovn = match &common.network {
        StateNetwork::Ovn(o) => o,
        _ => { return vstd::pervasive::unreached(); },
    };
    let port = get_first_port_name(common, &net[0].switch, g);
    let i = match find_switch_port(ovn, &port) {
        Some(i) => i,
        None => { return Err(concat2("Getting LSP for android guest ", g.guest_type.name.as_str())); },
    };
    let mac = match &ovn.switch_ports[i].port_type {
        LogicalSwitchPortType::Internal { mac_address, .. } => mac_address.address.clone(),
        _ => { return vstd::pervasive::unreached(); },
    };
    if net[0].gateway.is_none() {
        return Err(owned("android guest was not given a gateway"));
    }
    let mut add: Vec<String> = Vec::new();
    push_lit(&mut add, "ovs-vsctl");
    push_lit(&mut add, "--may-exist");
    push_lit(&mut add, "add-port");
    push_arg(&mut add, get_host_bridge(common, host));
    push_arg(&mut add, iface.clone());
    push_lit(&mut add, "--");
    push_lit(&mut add, "set");
    push_lit(&mut add, "Interface");
    push_arg(&mut add, iface.clone());
    push_lit(&mut add, "type=internal");
    push_lit(&mut add, "--");
    push_lit(&mut add, "set");
    push_lit(&mut add, "Interface");
    push_arg(&mut add, iface.clone());
    push_arg(&mut add, concat2("external_ids:iface-id=", port.as_str()));
    let mut netns: Vec<String> = Vec::new();
    push_lit(&mut netns, "ip");
    push_lit(&mut netns, "netns");
    push_lit(&mut netns, "add");
    push_arg(&mut netns, ns.clone());
    let mut lo = ns_command(&ns);
    push_lit(&mut lo, "ip");
    push_lit(&mut lo, "link");
    push_lit(&mut lo, "set");
    push_lit(&mut lo, "dev");
    push_lit(&mut lo, "lo");
    push_lit(&mut lo, "up");
    let mut move_port: Vec<String> = Vec::new();
    push_lit(&mut move_port, "ip");
    push_lit(&mut move_port, "link");
    push_lit(&mut move_port, "set");
    push_arg(&mut move_port, iface.clone());
    push_lit(&mut move_port, "netns");
    push_arg(&mut move_port, ns.clone());
    let mut set_mac = ns_command(&ns);
    push_lit(&mut set_mac, "ip");
    push_lit(&mut set_mac, "link");
    push_lit(&mut set_mac, "set");
    push_arg(&mut set_mac, iface.clone());
    push_lit(&mut set_mac, "address");
    push_arg(&mut set_mac, mac);
    let ghost s = android_setup_spec(*common, *g, iface@)->Ok_0;
    proof {
        assert(views(add@) =~= s[0]);
        assert(views(netns@) =~= s[1]);
        assert(views(lo@) =~= s[2]);
        assert(views(move_port@) =~= s[3]);
        assert(views(set_mac@) =~= s[4]);
    }
    out.push(add);
    out.push(netns);
    out.push(lo);
    out.push(move_port);
    out.push(set_mac);
    proof { assert(command_views(out@) =~~= s); }
    Ok(out)
}

/// The port whose address OVN must be asked for before a device's address is set: that of its
/// first interface when the interface's address is `dynamic`.
pub fn android_dynamic_port(common: &OrchestrationCommon, g: &StateTestbedGuest) -> (r: Option<String>)
    ensures
        match r {
            Some(n) => g.guest_type.network is Some && g.guest_type.network->0@.len() > 0
                && g.guest_type.network->0@[0].ip@ == "dynamic"@
                && n@ == first_port_name(common.project_name@, g.guest_type.network->0@[0].switch@, g.guest_type.name@),
            None => !(g.guest_type.network is Some && g.guest_type.network->0@.len() > 0
                && g.guest_type.network->0@[0].ip@ == "dynamic"@),
        },
{
    match &g.guest_type.network {
        Some(net) => {
            if net.len() > 0 && net[0].ip == owned("dynamic") {
                Some(get_first_port_name(common, &net[0].switch, g))
            } else {
                None
            }
        },
        None => None,
    }
}

/// The commands that give a device's interface `iface` its address (`dynamic_ip` when the
/// interface's address is `dynamic`, with a /24 mask), bring it up and route through its gateway,
/// all in the device's namespace.
pub open spec fn android_address_spec(common: OrchestrationCommon, g: StateTestbedGuest, iface: Seq<char>, dynamic_ip: Seq<char>) -> Seq<Seq<Seq<char>>> {
    let net = g.guest_type.network->0@;
    let ns = namespace_name(common.project_name@, g.guest_type.name@);
    let ip = if net[0].ip@ == "dynamic"@ { dynamic_ip } else { net[0].ip@ };
    seq![
        in_ns(ns, seq!["ip"@, "addr"@, "add"@, ip + "/24"@, "dev"@, iface]),
        in_ns(ns, seq!["ip"@, "link"@, "set"@, iface, "up"@]),
        in_ns(ns, seq!["ip"@, "route"@, "add"@, "default"@, "via"@, net[0].gateway->0@, "dev"@, iface]),
    ]
}

/// The commands that address a device's interface (see [`android_address_spec`]); the device's
/// first interface has a gateway.
pub fn android_address_commands(common: &OrchestrationCommon, g: &StateTestbedGuest, iface: &String, dynamic_ip: &String) -> (r: Vec<Vec<String>>)
    requires
        g.guest_type.network is Some,
        g.guest_type.network->0@.len() > 0,
        g.guest_type.network->0@[0].gateway is Some,
    ensures
        command_views(r@) == android_address_spec(*common, *g, iface@, dynamic_ip@),
{
    let net = match &g.guest_type.network {
        Some(n) => n,
        None => { return vstd::pervasive::unreached(); },
    };
    let gateway = match &net[0].gateway {
        Some(gw) => gw,
        None => { return vstd::pervasive::unreached(); },
    };
    let ns = get_namespace_name(common, g);
    let ip = if net[0].ip == owned("dynamic") { dynamic_ip.clone() } else { net[0].ip.clone() };
    let mut addr = ns_command(&ns);
    push_lit(&mut addr, "ip");
    push_lit(&mut addr, "addr");
    push_lit(&mut addr, "add");
    push_arg(&mut addr, concat2(ip.as_str(), "/24"));
    push_lit(&mut addr, "dev");
    push_arg(&mut addr, iface.clone());
    let mut up = ns_command(&ns);
    push_lit(&mut up, "ip");
    push_lit(&mut up, "link");
    push_lit(&mut up, "set");
    push_arg(&mut up, iface.clone());
    push_lit(&mut up, "up");
    let mut route = ns_command(&ns);
    push_lit(&mut route, "ip");
    push_lit(&mut route, "route");
    push_lit(&mut route, "add");
    push_lit(&mut route, "default");
    push_lit(&mut route, "via");
    push_arg(&mut route, gateway.clone());
    push_lit(&mut route, "dev");
    push_arg(&mut route, iface.clone());
    let ghost s = android_address_spec(*common, *g, iface@, dynamic_ip@);
    proof {
        assert(views(addr@) =~= s[0]);
        assert(views(up@) =~= s[1]);
        assert(views(route@) =~= s[2]);
    }
    let mut out: Vec<Vec<String>> = Vec::new();
    out.push(addr);
    out.push(up);
    out.push(route);
    proof { assert(command_views(out@) =~~= s); }
    out
}

/// The command that starts a device's emulator in its namespace, in the background.
pub fn android_emulator_command(common: &OrchestrationCommon, g: &StateTestbedGuest) -> (r: Vec<String>)
    ensures
        views(r@) == in_ns(
            namespace_name(common.project_name@, g.guest_type.name@),
            seq!["/opt/android-sdk/emulator/emulator"@, "-avd"@, host_guest_name(common.project_name@, g.guest_type.name@)],
        ),
{
    let ns = get_namespace_name(common, g);
    let mut v = ns_command(&ns);
    push_lit(&mut v, "/opt/android-sdk/emulator/emulator");
    push_lit(&mut v, "-avd");
    push_arg(&mut v, get_host_guest_name(common, g));
    proof {
        assert(views(v@) =~= in_ns(ns@, seq!["/opt/android-sdk/emulator/emulator"@, "-avd"@, host_guest_name(common.project_name@, g.guest_type.name@)]));
    }
    v
}

/// The commands that stop a device, whose failures are ignored: its emulator killed through
/// `adb` in its namespace, its port `iface` removed from the integration bridge, its namespace
/// deleted.
pub open spec fn android_destroy_spec(common: OrchestrationCommon, g: StateTestbedGuest, iface: Seq<char>) -> Seq<Seq<Seq<char>>> {
    let ns = namespace_name(common.project_name@, g.guest_type.name@);
    seq![
        in_ns(ns, seq!["/opt/android-sdk/platform-tools/adb"@, "-s"@, "emulator-5554"@, "emu"@, "kill"@]),
        seq!["ovs-vsctl"@, "del-port"@, host_bridge(common, g.testbed_host->0@), iface],
        seq!["ip"@, "netns"@, "delete"@, ns],
    ]
}

/// The commands that stop a device (see [`android_destroy_spec`]); it is placed on a host of the
/// cluster configuration.
pub fn android_destroy_commands(common: &OrchestrationCommon, g: &StateTestbedGuest, iface: &String) -> (r: Vec<Vec<String>>)
    requires
        common_wf(*common),
        g.testbed_host is Some,
        has_host_config(*common, g.testbed_host->0@),
    ensures
        command_views(r@) == android_destroy_spec(*common, *g, iface@),
{
    let host = match &g.testbed_host {
        Some(h) => h,
        None => { return vstd::pervasive::unreached(); },
    };
    let ns = get_namespace_name(common, g);
    let mut kill = ns_command(&ns);
    push_lit(&mut kill, "/opt/android-sdk/platform-tools/adb");
    push_lit(&mut kill, "-s");
    push_lit(&mut kill, "emulator-5554");
    push_lit(&mut kill, "emu");
    push_lit(&mut kill, "kill");
    let mut del: Vec<String> = Vec::new();
    push_lit(&mut del, "ovs-vsctl");
    push_lit(&mut del, "del-port");
    push_arg(&mut del, get_host_bridge(common, host));
    push_arg(&mut del, iface.clone());
    let mut rm: Vec<String> = Vec::new();
    push_lit(&mut rm, "ip");
    push_lit(&mut rm, "netns");
    push_lit(&mut rm, "delete");
    push_arg(&mut rm, ns);
    let ghost s = android_destroy_spec(*common, *g, iface@);
    proof {
        assert(views(kill@) =~= s[0]);
        assert(views(del@) =~= s[1]);
        assert(views(rm@) =~= s[2]);
    }
    let mut out: Vec<Vec<String>> = Vec::new();
    out.push(kill);
    out.push(del);
    out.push(rm);
    proof { assert(command_views(out@) =~~= s); }
    out
}

/// Starting the emulator, its reply at position `k`: a failure stops the deployment with its
/// error; otherwise it is done.
pub open spec fn android_emulator_next(common: OrchestrationCommon, g: StateTestbedGuest, rs: Seq<Result<Seq<char>, Seq<char>>>, k: int) -> GuestNext {
    if rs.len() <= k {
        GuestNext::Run(in_ns(
            namespace_name(common.project_name@, g.guest_type.name@),
            seq!["/opt/android-sdk/emulator/emulator"@, "-avd"@, host_guest_name(common.project_name@, g.guest_type.name@)],
        ))
    } else {
        match rs[k] {
            Err(e) => GuestNext::Fail(e),
            Ok(_) => GuestNext::Done,
        }
    }
}

/// Addressing the interface from reply position `i` on: the three commands of
/// [`android_address_spec`] run in order, their failures let the deployment go on; then the
/// emulator is started.
pub open spec fn android_address_next(common: OrchestrationCommon, g: StateTestbedGuest, iface: Seq<char>, ip: Seq<char>, rs: Seq<Result<Seq<char>, Seq<char>>>, i: int) -> GuestNext {
    if rs.len() < i + 3 {
        GuestNext::Run(android_address_spec(common, g, iface, ip)[rs.len() - i])
    } else {
        android_emulator_next(common, g, rs, i + 3)
    }
}

/// The deployment of a device, given the replies so far: the setup commands of
/// [`android_setup_spec`] (whose errors stop it before any command) run in order, their failures
/// letting it go on; a device with an interface then has the address OVN gave a dynamic port
/// asked for (a failure stops it) and its interface addressed; finally the emulator is started.
pub open spec fn android_create_next(common: OrchestrationCommon, g: StateTestbedGuest, iface: Seq<char>, rs: Seq<Result<Seq<char>, Seq<char>>>) -> GuestNext {
    match android_setup_spec(common, g, iface) {
        Err(e) => GuestNext::Fail(e),
        Ok(setup) => {
            let n = setup.len() as int;
            let net = g.guest_type.network->0@;
            if rs.len() < n {
                GuestNext::Run(setup[rs.len() as int])
            } else if net.len() == 0 {
                android_emulator_next(common, g, rs, n)
            } else if net[0].ip@ == "dynamic"@ {
                let port = first_port_name(common.project_name@, net[0].switch@, g.guest_type.name@);
                if rs.len() == n {
                    GuestNext::Run(dynamic_query_spec(port))
                } else {
                    match rs[n] {
                        Err(e) => GuestNext::Fail(e),
                        Ok(out) => match dynamic_ip_result(out, port) {
                            Err(e) => GuestNext::Fail(e),
                            Ok(ip) => android_address_next(common, g, iface, ip, rs, n + 1),
                        },
                    }
                }
            } else {
                android_address_next(common, g, iface, Seq::empty(), rs, n)
            }
        },
    }
}

/// The next step of deploying a device (see [`android_create_next`]), given the replies to the
/// commands run so far on its host; `iface` names its first interface.
pub fn android_create_step(common: &OrchestrationCommon, g: &StateTestbedGuest, iface: &String, replies: &Vec<Result<String, String>>) -> (r: GuestAction)
    requires
        common_wf(*common),
        android_setup_ready(*common, *g),
    ensures
        guest_action_view(r) == android_create_next(*common, *g, iface@, replies_text(replies@)),
{
    let ghost rs = replies_text(replies@);
    let setup = match android_setup_commands(common, g, iface) {
        Ok(c) => c,
        Err(e) => { return GuestAction::Fail(e); },
    };
    let n = setup.len();
    if replies.len() < n {
        proof { assert(command_views(setup@)[replies@.len() as int] == views(setup@[replies@.len() as int]@)); }
        return GuestAction::Run(copy_words(&setup[replies.len()]));
    }
    let net = match &g.guest_type.network {
        Some(net) => net,
        None => { return vstd::pervasive::unreached(); },
    };
    let mut i = n;
    let ip = if net.len() == 0 {
        return android_emulator_step(common, g, replies, n);
    } else {
        match android_dynamic_port(common, g) {
            Some(port) => {
                if replies.len() == n {
                    return GuestAction::Run(dynamic_ip_query(&port));
                }
                match reply_at(replies, n) {
                    Err(e) => { return GuestAction::Fail(e.clone()); },
                    Ok(out) => match parse_dynamic_ip(out, &port) {
                        Err(e) => { return GuestAction::Fail(e); },
                        Ok(ip) => { i = n + 1; ip },
                    },
                }
            },
            None => String::new(),
        }
    };
    proof {
        if net@[0].ip@ != "dynamic"@ {
            assert(ip@ =~= Seq::<char>::empty());
        }
    }
    let addr = android_address_commands(common, g, iface, &ip);
    proof {
        assert(command_views(addr@).len() == addr@.len());
        assert(addr@.len() == 3);
        assert(i <= replies@.len());
    }
    if replies.len() < i + 3 {
        let k = replies.len() - i;
        proof { assert(command_views(addr@)[k as int] == views(addr@[k as int]@)); }
        return GuestAction::Run(copy_words(&addr[k]));
    }
    android_emulator_step(common, g, replies, i + 3)
}

/// The emulator step at reply position `k` (see [`android_emulator_next`]).
fn android_emulator_step(common: &OrchestrationCommon, g: &StateTestbedGuest, replies: &Vec<Result<String, String>>, k: usize) -> (r: GuestAction)
    ensures
        guest_action_view(r) == android_emulator_next(*common, *g, replies_text(replies@), k as int),
{
    if replies.len() <= k {
        return GuestAction::Run(android_emulator_command(common, g));
    }
    match reply_at(replies, k) {
        Err(e) => GuestAction::Fail(e.clone()),
        Ok(_) => GuestAction::Done,
    }
}

/// A device's stop commands remove the port and delete the namespace its setup made: the same
/// bridge, interface and namespace.
pub proof fn law_android_destroy_matches_setup(common: OrchestrationCommon, g: StateTestbedGuest, iface: Seq<char>)
    ensures
        android_setup_spec(common, g, iface) matches Ok(cmds) ==> (cmds.len() > 0 ==> ({
            let d = android_destroy_spec(common, g, iface);
            &&& cmds[0][3] == d[1][2]
            &&& cmds[0][4] == d[1][3]
            &&& cmds[1][3] == d[2][3]
        })),
{
}

} // verus!
