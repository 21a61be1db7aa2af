//! Docker guests: the command lines that start a container, attach it to the testbed network
//! and stop it, the files pushed to a remote host for it, and how the replies of the testbed
//! hosts decide the next step.

use vstd::prelude::*;
use crate::orchestration::{common_wf, names_unique, OrchestrationCommon};
use crate::ovn::ovn_state::first_where;
use crate::state::orchestration_tasks::{
    failure_expected, get_host_bridge, get_host_guest_name, has_host_config, host_bridge, host_guest_name,
    is_expected_failure,
};
use crate::state::orchestration_tasks::guests::{
    dynamic_ip_query, dynamic_ip_result, dynamic_query_spec, get_master_testbed_name, get_remote_project_folder,
    host_named, master_index, master_name, parse_dynamic_ip, remote_project_folder,
};
use crate::state::orchestration_tasks::steps::{guest_action_view, run_all_from, run_all_step, reply_at, GuestAction, GuestNext};
use crate::ovn::configuration::dhcp::replies_text;
use crate::state::schema::guest::{StateMachineNetwork, StateTestbedGuest};
use crate::state::schema::machines::docker::{StateDockerMachine, Volume};
use crate::snapshot::qemu_img::{contains_text, text_contains};
use crate::text::{command_views, concat2, concat3, owned, push_arg, push_lit, push_str, replace_all, replace_text, views};
use crate::ovn::ovn_state::{first_index, lemma_first_index_absent, lemma_first_index_found, lsp_names, OvnNetwork};
use crate::ovn::components::logical_switch_port::LogicalSwitchPortType;
use crate::state::StateNetwork;

verus! {

/// The switch port of a guest's first interface: `<project>-<switch>-<guest>-0`.
pub open spec fn first_port_name(project: Seq<char>, switch: Seq<char>, guest: Seq<char>) -> Seq<char> {
    project + "-"@ + switch + "-"@ + guest + "-0"@
}

/// `-e NAME=VALUE` for each variable, in order.
pub open spec fn env_args(env: Seq<(String, String)>) -> Seq<Seq<char>>
    decreases env.len(),
{
    if env.len() == 0 {
        Seq::empty()
    } else {
        env_args(env.drop_last()) + seq!["-e"@, env.last().0@ + "="@ + env.last().1@]
    }
}

/// `--device=DEVICE` for each device, in order.
pub open spec fn device_args(devices: Seq<String>) -> Seq<Seq<char>>
    decreases devices.len(),
{
    if devices.len() == 0 {
        Seq::empty()
    } else {
        device_args(devices.drop_last()).push("--device="@ + devices.last()@)
    }
}

/// The host side of a volume: `${PWD}` stands for the project folder, there being no shell to
/// expand it.
pub open spec fn volume_source(source: Seq<char>, project_dir: Seq<char>) -> Seq<char> {
    if contains_text(source, "${PWD}"@) {
        replace_all(source, "${PWD}"@, project_dir)
    } else {
        source
    }
}

/// `-v SOURCE:TARGET` for each volume, in order.
pub open spec fn volume_args(volumes: Seq<Volume>, project_dir: Seq<char>) -> Seq<Seq<char>>
    decreases volumes.len(),
{
    if volumes.len() == 0 {
        Seq::empty()
    } else {
        volume_args(volumes.drop_last(), project_dir)
            + seq!["-v"@, volume_source(volumes.last().source@, project_dir) + ":"@ + volumes.last().target@]
    }
}

/// The options of `docker run` before the env file: the container's name, entrypoint,
/// environment, devices and privileges.
pub open spec fn run_head(m: StateDockerMachine, name: Seq<char>) -> Seq<Seq<char>> {
    seq!["sudo"@, "docker"@, "run"@, "--rm"@, "--name"@, name, "-it"@, "-d"@]
        + (match m.entrypoint { Some(e) => seq!["--entrypoint"@, e@], None => Seq::empty() })
        + (match m.environment { Some(v) => env_args(v@), None => Seq::empty() })
        + (match m.device { Some(v) => device_args(v@), None => Seq::empty() })
        + (if m.privileged is Some { seq!["--privileged"@] } else { Seq::empty() })
}

/// The text of the error when a testbed host is not in the state.
pub open spec fn no_host_text() -> Seq<char> {
    "Could not find remote testbed in config"@
}

/// The text of the error when a container guest has no network.
pub open spec fn no_network_text() -> Seq<char> {
    "getting guest network in docker create action"@
}

/// The env file option: the file as named on the master host; elsewhere under the project
/// folder on that host.
pub open spec fn env_file_args(m: StateDockerMachine, common: OrchestrationCommon, host: Seq<char>) -> Result<Seq<Seq<char>>, Seq<char>> {
    match m.env_file {
        None => Ok(Seq::empty()),
        Some(f) => if host == master_name(common) {
            Ok(seq!["--env-file"@, f@])
        } else {
            match first_where(common.testbed_hosts@, host_named(host)) {
                Some(i) => Ok(seq![
                    "--env-file"@,
                    remote_project_folder(common.testbed_hosts@[i].1.username@, common.project_name@) + "/"@ + "/"@ + f@,
                ]),
                None => Err(no_host_text()),
            }
        },
    }
}

/// `--dns=GATEWAY` when the first interface has a gateway.
pub open spec fn dns_args(net: Seq<StateMachineNetwork>) -> Seq<Seq<char>> {
    if net.len() > 0 && net[0].gateway is Some {
        seq!["--dns="@ + net[0].gateway.unwrap()@]
    } else {
        Seq::empty()
    }
}

/// The options of `docker run` after the network: DNS, user, host name, image and command.
pub open spec fn run_tail(m: StateDockerMachine, net: Seq<StateMachineNetwork>, name: Seq<char>) -> Seq<Seq<char>> {
    dns_args(net)
        + (match m.user { Some(u) => seq!["-u"@, u@], None => Seq::empty() })
        + seq!["-h"@, name, m.image@]
        + (match m.command { Some(c) => seq![c@], None => Seq::empty() })
}

/// The `docker run` command line of a container guest, detached from docker's networking, or
/// the error that stops it.
pub open spec fn docker_run_spec(m: StateDockerMachine, common: OrchestrationCommon, g: StateTestbedGuest) -> Result<Seq<Seq<char>>, Seq<char>> {
    let name = host_guest_name(common.project_name@, g.guest_type.name@);
    match env_file_args(m, common, g.testbed_host.unwrap()@) {
        Err(e) => Err(e),
        Ok(ef) => match g.guest_type.network {
            None => Err(no_network_text()),
            Some(net) => Ok(run_head(m, name) + ef + seq!["--net=none"@]
                + (match m.volumes { Some(v) => volume_args(v@, common.project_working_dir@), None => Seq::empty() })
                + run_tail(m, net@, name)),
        },
    }
}

/// Appends the environment options.
fn push_env_args(v: &mut Vec<String>, env: &Vec<(String, String)>)
    ensures
        views(final(v)@) == views(old(v)@) + env_args(env@),
{
    let mut i: usize = 0;
    proof { assert(views(v@) =~= views(old(v)@) + env_args(env@.subrange(0, 0))); }
    while i < env.len()
        invariant
            i <= env@.len(),
            views(v@) == views(old(v)@) + env_args(env@.subrange(0, i as int)),
        decreases env@.len() - i,
    {
        proof { assert(env@.subrange(0, i + 1).drop_last() =~= env@.subrange(0, i as int)); }
        push_lit(v, "-e");
        push_arg(v, concat3(env[i].0.as_str(), "=", env[i].1.as_str()));
        i = i + 1;
        proof { assert(views(v@) =~= views(old(v)@) + env_args(env@.subrange(0, i as int))); }
    }
    proof { assert(env@.subrange(0, env@.len() as int) =~= env@); }
}

/// Appends the device options.
fn push_device_args(v: &mut Vec<String>, devices: &Vec<String>)
    ensures
        views(final(v)@) == views(old(v)@) + device_args(devices@),
{
    let mut i: usize = 0;
    proof { assert(views(v@) =~= views(old(v)@) + device_args(devices@.subrange(0, 0))); }
    while i < devices.len()
        invariant
            i <= devices@.len(),
            views(v@) == views(old(v)@) + device_args(devices@.subrange(0, i as int)),
        decreases devices@.len() - i,
    {
        proof { assert(devices@.subrange(0, i + 1).drop_last() =~= devices@.subrange(0, i as int)); }
        push_arg(v, concat2("--device=", devices[i].as_str()));
        i = i + 1;
        proof { assert(views(v@) =~= views(old(v)@) + device_args(devices@.subrange(0, i as int))); }
    }
    proof { assert(devices@.subrange(0, devices@.len() as int) =~= devices@); }
}

/// The host side of a volume (see [`volume_source`]).
pub fn host_volume_source(source: &String, project_dir: &String) -> (r: String)
    ensures
        r@ == volume_source(source@, project_dir@),
{
    if text_contains(source.as_str(), "${PWD}") {
        proof { reveal_strlit("${PWD}"); }
        replace_text(source.as_str(), "${PWD}", project_dir.as_str())
    } else {
        source.clone()
    }
}

/// Appends the volume options.
fn push_volume_args(v: &mut Vec<String>, volumes: &Vec<Volume>, project_dir: &String)
    ensures
        views(final(v)@) == views(old(v)@) + volume_args(volumes@, project_dir@),
{
    let mut i: usize = 0;
    proof { assert(views(v@) =~= views(old(v)@) + volume_args(volumes@.subrange(0, 0), project_dir@)); }
    while i < volumes.len()
        invariant
            i <= volumes@.len(),
            views(v@) == views(old(v)@) + volume_args(volumes@.subrange(0, i as int), project_dir@),
        decreases volumes@.len() - i,
    {
        proof { assert(volumes@.subrange(0, i + 1).drop_last() =~= volumes@.subrange(0, i as int)); }
        push_lit(v, "-v");
        let source = host_volume_source(&volumes[i].source, project_dir);
        push_arg(v, concat3(source.as_str(), ":", volumes[i].target.as_str()));
        i = i + 1;
        proof { assert(views(v@) =~= views(old(v)@) + volume_args(volumes@.subrange(0, i as int), project_dir@)); }
    }
    proof { assert(volumes@.subrange(0, volumes@.len() as int) =~= volumes@); }
}

/// The options of `docker run` before the env file (see [`run_head`]).
fn run_head_args(m: &StateDockerMachine, name: &String) -> (v: Vec<String>)
    ensures
        views(v@) == run_head(*m, name@),
{
    let mut v: Vec<String> = Vec::new();
    push_lit(&mut v, "sudo");
    push_lit(&mut v, "docker");
    push_lit(&mut v, "run");
    push_lit(&mut v, "--rm");
    push_lit(&mut v, "--name");
    push_arg(&mut v, name.clone());
    push_lit(&mut v, "-it");
    push_lit(&mut v, "-d");
    if let Some(e) = &m.entrypoint {
        push_lit(&mut v, "--entrypoint");
        push_arg(&mut v, e.clone());
    }
    if let Some(env) = &m.environment {
        push_env_args(&mut v, env);
    }
    if let Some(d) = &m.device {
        push_device_args(&mut v, d);
    }
    if m.privileged.is_some() {
        push_lit(&mut v, "--privileged");
    }
    proof { assert(views(v@) =~= run_head(*m, name@)); }
    v
}

/// The env file option (see [`env_file_args`]).
fn env_file_part(m: &StateDockerMachine, common: &OrchestrationCommon, host: &String) -> (r: Result<Vec<String>, String>)
    requires
        common_wf(*common),
        master_index(*common) is Some,
    ensures
        match (r, env_file_args(*m, *common, host@)) {
            (Ok(v), Ok(s)) => views(v@) == s,
            (Err(e), Err(s)) => e@ == s,
            _ => false,
        },
{
    let mut v: Vec<String> = Vec::new();
    if let Some(f) = &m.env_file {
        push_lit(&mut v, "--env-file");
        let master = get_master_testbed_name(common);
        if *host == master {
            push_arg(&mut v, f.clone());
        } else {
            match get_remote_project_folder(common, host) {
                Ok(folder) => {
                    push_arg(&mut v, concat3(folder.as_str(), "/", f.as_str()));
                    proof {
                        let i = first_where(common.testbed_hosts@, host_named(host@)).unwrap();
                        assert(folder@ + "/"@ + f@ =~= remote_project_folder(common.testbed_hosts@[i].1.username@, common.project_name@) + "/"@ + "/"@ + f@);
                    }
                },
                Err(e) => { return Err(e); },
            }
        }
    }
    proof { assert(views(v@) =~= env_file_args(*m, *common, host@)->Ok_0); }
    Ok(v)
}

/// Appends the options of `docker run` after the network (see [`run_tail`]).
fn push_run_tail(v: &mut Vec<String>, m: &StateDockerMachine, net: &Vec<StateMachineNetwork>, name: &String)
    ensures
        views(final(v)@) == views(old(v)@) + run_tail(*m, net@, name@),
{
    if net.len() > 0 {
        if let Some(gw) = &net[0].gateway {
            push_arg(v, concat2("--dns=", gw.as_str()));
        }
    }
    if let Some(u) = &m.user {
        push_lit(v, "-u");
        push_arg(v, u.clone());
    }
    push_lit(v, "-h");
    push_arg(v, name.clone());
    push_arg(v, m.image.clone());
    if let Some(c) = &m.command {
        push_arg(v, c.clone());
    }
    proof { assert(views(v@) =~= views(old(v)@) + run_tail(*m, net@, name@)); }
}

/// Appends a list of strings to another.
fn append_args(v: &mut Vec<String>, w: Vec<String>)
    ensures
        views(final(v)@) == views(old(v)@) + views(w@),
{
    let ghost w0 = w@;
    let mut w = w;
    v.append(&mut w);
    proof { assert(views(v@) =~= views(old(v)@) + views(w0)); }
}

/// The `docker run` command line that starts a container guest (see [`docker_run_spec`]); the
/// guest must be placed on a host and a master host must exist.
pub fn docker_run_command(m: &StateDockerMachine, common: &OrchestrationCommon, g: &StateTestbedGuest) -> (r: Result<Vec<String>, String>)
    requires
        common_wf(*common),
        g.testbed_host is Some,
        master_index(*common) is Some,
    ensures
        match (r, docker_run_spec(*m, *common, *g)) {
            (Ok(v), Ok(s)) => views(v@) == s,
            (Err(e), Err(s)) => e@ == s,
            _ => false,
        },
{
    let host = match &g.testbed_host {
        Some(h) => h,
        None => { return vstd::pervasive::unreached(); },
    };
    let name = get_host_guest_name(common, g);
    let mut v = run_head_args(m, &name);
    let ef = env_file_part(m, common, host)?;
    append_args(&mut v, ef);
    let net = match &g.guest_type.network {
        Some(n) => n,
        None => { return Err(owned("getting guest network in docker create action")); },
    };
    push_lit(&mut v, "--net=none");
    if let Some(vols) = &m.volumes {
        push_volume_args(&mut v, vols, &common.project_working_dir);
    }
    push_run_tail(&mut v, m, net, &name);
    proof { assert(views(v@) =~= docker_run_spec(*m, *common, *g)->Ok_0); }
    Ok(v)
}

/// The position, among the OVN switch ports, of the port of a guest's first interface, if the
/// network is OVN and both exist.
pub open spec fn first_port_index(common: OrchestrationCommon, g: StateTestbedGuest) -> Option<int> {
    match (common.network, g.guest_type.network) {
        (StateNetwork::Ovn(ovn), Some(net)) => if net@.len() > 0 {
            first_index(lsp_names(ovn.switch_ports@), first_port_name(common.project_name@, net@[0].switch@, g.guest_type.name@))
        } else {
            None
        },
        _ => None,
    }
}

/// The port of a guest's first interface, where it exists, is an internal port.
pub open spec fn first_port_internal(common: OrchestrationCommon, g: StateTestbedGuest) -> bool {
    match (common.network, first_port_index(common, g)) {
        (StateNetwork::Ovn(ovn), Some(i)) => ovn.switch_ports@[i].port_type is Internal,
        _ => true,
    }
}

/// The text of the error when the port of a container is missing.
pub open spec fn lsp_missing_text(name: Seq<char>) -> Seq<char> {
    "Getting LSP for docker guest "@ + name
}

/// `--gateway=GATEWAY` when the first interface has a gateway.
pub open spec fn gateway_args(net: Seq<StateMachineNetwork>) -> Seq<Seq<char>> {
    if net.len() > 0 && net[0].gateway is Some {
        seq!["--gateway="@ + net[0].gateway.unwrap()@]
    } else {
        Seq::empty()
    }
}

/// The `ovs-docker add-port` command line that attaches a container to the host's integration
/// bridge, with the address and MAC of its port; `dynamic_ip` is the address OVN gave a port
/// whose address is `dynamic`.
pub open spec fn add_port_spec(common: OrchestrationCommon, g: StateTestbedGuest, dynamic_ip: Seq<char>) -> Result<Seq<Seq<char>>, Seq<char>> {
    let name = host_guest_name(common.project_name@, g.guest_type.name@);
    let base = seq!["sudo"@, "ovs-docker"@, "add-port"@, host_bridge(common, g.testbed_host.unwrap()@), "eth0"@, name];
    match g.guest_type.network {
        None => Err(no_network_text()),
        Some(net) => if net@.len() == 0 {
            Ok(base)
        } else {
            match first_port_index(common, g) {
                None => Err(lsp_missing_text(name)),
                Some(i) => {
                    let ip = if net@[0].ip@ == "dynamic"@ { dynamic_ip } else { net@[0].ip@ };
                    let mac = (common.network->Ovn_0).switch_ports@[i].port_type->Internal_mac_address.address@;
                    Ok(base + seq!["--ipaddress="@ + ip + "/24"@, "--macaddress="@ + mac] + gateway_args(net@))
                },
            }
        },
    }
}

/// The position of a switch port by name (see [`first_index`]).
fn find_port(ovn: &OvnNetwork, name: &String) -> (r: Option<usize>)
    ensures
        match (r, first_index(lsp_names(ovn.switch_ports@), name@)) {
            (Some(i), Some(k)) => i == k && i < ovn.switch_ports@.len(),
            (None, None) => true,
            _ => false,
        },
{
    let mut i: usize = 0;
    while i < ovn.switch_ports.len()
        invariant
            i <= ovn.switch_ports@.len(),
            forall|k: int| 0 <= k < i ==> lsp_names(ovn.switch_ports@)[k] != name@,
        decreases ovn.switch_ports@.len() - i,
    {
        if ovn.switch_ports[i].name == *name {
            proof { lemma_first_index_found(lsp_names(ovn.switch_ports@), name@, i as int); }
            return Some(i);
        }
        i = i + 1;
    }
    proof { lemma_first_index_absent(lsp_names(ovn.switch_ports@), name@); }
    None
}

/// The name of the port of a guest's first interface (see [`first_port_name`]).
pub fn get_first_port_name(common: &OrchestrationCommon, switch: &String, g: &StateTestbedGuest) -> (r: String)
    ensures
        r@ == first_port_name(common.project_name@, switch@, g.guest_type.name@),
{
    let mut r = concat3(common.project_name.as_str(), "-", switch.as_str());
    push_str(&mut r, "-");
    push_str(&mut r, g.guest_type.name.as_str());
    push_str(&mut r, "-0");
    proof { assert(r@ =~= first_port_name(common.project_name@, switch@, g.guest_type.name@)); }
    r
}

/// The port whose address OVN must be asked for before a container is attached: that of the
/// guest's first interface when its address is `dynamic` and the port exists.
pub fn docker_dynamic_port(common: &OrchestrationCommon, g: &StateTestbedGuest) -> (r: Option<String>)
    ensures
        match r {
            Some(n) => first_port_index(*common, *g) is Some
                && g.guest_type.network->0@[0].ip@ == "dynamic"@
                && n@ == first_port_name(common.project_name@, g.guest_type.network->0@[0].switch@, g.guest_type.name@),
            None => first_port_index(*common, *g) is None || g.guest_type.network->0@[0].ip@ != "dynamic"@,
        },
{
    match (&common.network, &g.guest_type.network) {
        (StateNetwork::Ovn(ovn), Some(net)) => {
            if net.len() == 0 {
                return None;
            }
            let port = get_first_port_name(common, &net[0].switch, g);
            match find_port(ovn, &port) {
                None => None,
                Some(_) => {
                    let dynamic = owned("dynamic");
                    if net[0].ip == dynamic { Some(port) } else { None }
                },
            }
        },
        _ => None,
    }
}

/// The `ovs-docker add-port` command line of a container (see [`add_port_spec`]); the guest
/// must be placed on a host of the cluster configuration, the network must be OVN, and the
/// port of the guest's first interface, if it exists, internal.
pub fn ovs_docker_add_port_command(common: &OrchestrationCommon, g: &StateTestbedGuest, dynamic_ip: &String) -> (r: Result<Vec<String>, String>)
    requires
        common_wf(*common),
        g.testbed_host is Some,
        has_host_config(*common, g.testbed_host->0@),
        common.network is Ovn,
        first_port_internal(*common, *g),
    ensures
        match (r, add_port_spec(*common, *g, dynamic_ip@)) {
            (Ok(v), Ok(s)) => views(v@) == s,
            (Err(e), Err(s)) => e@ == s,
            _ => false,
        },
{
    let host = match &g.testbed_host {
        Some(h) => h,
        None => { return vstd::pervasive::unreached(); },
    };
    let ovn = match &common.network {
        StateNetwork::Ovn(o) => o,
        _ => { return vstd::pervasive::unreached(); },
    };
    let name = get_host_guest_name(common, g);
    let mut v: Vec<String> = Vec::new();
    push_lit(&mut v, "sudo");
    push_lit(&mut v, "ovs-docker");
    push_lit(&mut v, "add-port");
    push_arg(&mut v, get_host_bridge(common, host));
    push_lit(&mut v, "eth0");
    push_arg(&mut v, name.clone());
    let net = match &g.guest_type.network {
        Some(n) => n,
        None => { return Err(owned("getting guest network in docker create action")); },
    };
    if net.len() == 0 {
        proof { assert(views(v@) =~= add_port_spec(*common, *g, dynamic_ip@)->Ok_0); }
        return Ok(v);
    }
    let port = get_first_port_name(common, &net[0].switch, g);
    let i = match find_port(ovn, &port) {
        Some(i) => i,
        None => { return Err(concat2("Getting LSP for docker guest ", name.as_str())); },
    };
    let dynamic = owned("dynamic");
    let ip = if net[0].ip == dynamic { dynamic_ip.clone() } else { net[0].ip.clone() };
    push_arg(&mut v, concat3("--ipaddress=", ip.as_str(), "/24"));
    match &ovn.switch_ports[i].port_type {
        LogicalSwitchPortType::Internal { mac_address, .. } => {
            push_arg(&mut v, concat2("--macaddress=", mac_address.address.as_str()));
        },
        _ => { return vstd::pervasive::unreached(); },
    }
    if let Some(gw) = &net[0].gateway {
        push_arg(&mut v, concat2("--gateway=", gw.as_str()));
    }
    proof { assert(views(v@) =~= add_port_spec(*common, *g, dynamic_ip@)->Ok_0); }
    Ok(v)
}

/// `docker container inspect` of a container's running state.
pub open spec fn inspect_spec(name: Seq<char>) -> Seq<Seq<char>> {
    seq!["docker"@, "container"@, "inspect"@, "-f"@, "{{.State.Running}}"@, name]
}

/// The command that asks a host whether a container guest exists and runs (see
/// [`inspect_spec`]).
pub fn docker_inspect_command(common: &OrchestrationCommon, g: &StateTestbedGuest) -> (r: Vec<String>)
    ensures
        views(r@) == inspect_spec(host_guest_name(common.project_name@, g.guest_type.name@)),
{
    let mut v: Vec<String> = Vec::new();
    push_lit(&mut v, "docker");
    push_lit(&mut v, "container");
    push_lit(&mut v, "inspect");
    push_lit(&mut v, "-f");
    push_lit(&mut v, "{{.State.Running}}");
    push_arg(&mut v, get_host_guest_name(common, g));
    proof { assert(views(v@) =~= inspect_spec(host_guest_name(common.project_name@, g.guest_type.name@))); }
    v
}

/// What happens before a container guest is created.
#[derive(Debug, Clone)]
pub struct DockerCreatePlan {
    /// Commands that remove an earlier container and its port, run in order.
    pub cleanup: Vec<Vec<String>>,
    /// Whether the container is then created.
    pub create: bool,
}

/// The command that removes an earlier container: a stopped one (its state reads `false`) as
/// it is, a running one by force.
pub open spec fn remove_spec(inspected: Seq<char>, name: Seq<char>) -> Seq<Seq<char>> {
    if contains_text(inspected, "false"@) {
        seq!["docker"@, "container"@, "rm"@, name]
    } else {
        seq!["docker"@, "container"@, "rm"@, "-f"@, name]
    }
}

/// The command that removes the port of an earlier container, when the guest has an interface.
pub open spec fn del_port_spec(common: OrchestrationCommon, g: StateTestbedGuest) -> Seq<Seq<Seq<char>>> {
    let net = g.guest_type.network->0@;
    if net.len() > 0 {
        let name = host_guest_name(common.project_name@, g.guest_type.name@);
        seq![seq!["ovs-docker"@, "del-port"@, first_port_name(common.project_name@, net[0].switch@, g.guest_type.name@), "eth0"@, name]]
    } else {
        Seq::empty()
    }
}

/// What the reply to the inspection decides: when a container exists, it is removed (with its
/// port) and created again if provisioning is forced, and kept otherwise; when the host says
/// there is no such container, it is created; any other failure stops the deployment with its
/// text.
pub open spec fn create_plan_spec(inspected: Result<Seq<char>, Seq<char>>, force: bool, common: OrchestrationCommon, g: StateTestbedGuest) -> Result<(Seq<Seq<Seq<char>>>, bool), Seq<char>> {
    let name = host_guest_name(common.project_name@, g.guest_type.name@);
    match inspected {
        Ok(out) => if force {
            Ok((seq![remove_spec(out, name)] + del_port_spec(common, g), true))
        } else {
            Ok((Seq::empty(), false))
        },
        Err(e) => if contains_text(e, "No such container"@) { Ok((Seq::empty(), true)) } else { Err(e) },
    }
}

/// The view of an inspection reply.
pub open spec fn reply_view(r: Result<String, String>) -> Result<Seq<char>, Seq<char>> {
    match r {
        Ok(s) => Ok(s@),
        Err(e) => Err(e@),
    }
}

/// Decides, from the reply to the inspection (see [`create_plan_spec`]), what happens before a
/// container guest is created; the guest has a network.
pub fn docker_create_plan(inspected: &Result<String, String>, force: bool, common: &OrchestrationCommon, g: &StateTestbedGuest) -> (r: Result<DockerCreatePlan, String>)
    requires
        g.guest_type.network is Some,
    ensures
        match (r, create_plan_spec(reply_view(*inspected), force, *common, *g)) {
            (Ok(p), Ok(s)) => command_views(p.cleanup@) == s.0 && p.create == s.1,
            (Err(e), Err(s)) => e@ == s,
            _ => false,
        },
{
    let name = get_host_guest_name(common, g);
    match inspected {
        Ok(out) => {
            let mut cleanup: Vec<Vec<String>> = Vec::new();
            if !force {
                proof { assert(command_views(cleanup@) =~= Seq::<Seq<Seq<char>>>::empty()); }
                return Ok(DockerCreatePlan { cleanup, create: false });
            }
            let mut rm: Vec<String> = Vec::new();
            push_lit(&mut rm, "docker");
            push_lit(&mut rm, "container");
            push_lit(&mut rm, "rm");
            if !text_contains(out.as_str(), "false") {
                push_lit(&mut rm, "-f");
            }
            push_arg(&mut rm, name.clone());
            proof { assert(views(rm@) =~= remove_spec(out@, name@)); }
            cleanup.push(rm);
            let net = match &g.guest_type.network {
                Some(n) => n,
                None => { return vstd::pervasive::unreached(); },
            };
            if net.len() > 0 {
                let mut del: Vec<String> = Vec::new();
                push_lit(&mut del, "ovs-docker");
                push_lit(&mut del, "del-port");
                push_arg(&mut del, get_first_port_name(common, &net[0].switch, g));
                push_lit(&mut del, "eth0");
                push_arg(&mut del, name);
                proof { assert(views(del@) =~= del_port_spec(*common, *g)[0]); }
                cleanup.push(del);
            }
            proof { assert(command_views(cleanup@) =~= seq![remove_spec(out@, name@)] + del_port_spec(*common, *g)); }
            Ok(DockerCreatePlan { cleanup, create: true })
        },
        Err(e) => {
            if text_contains(e.as_str(), "No such container") {
                let cleanup: Vec<Vec<String>> = Vec::new();
                proof { assert(command_views(cleanup@) =~= Seq::<Seq<Seq<char>>>::empty()); }
                Ok(DockerCreatePlan { cleanup, create: true })
            } else {
                Err(e.clone())
            }
        },
    }
}

/// The reply of `docker run` when a container of that name exists already.
pub open spec fn name_conflict_text(name: Seq<char>) -> Seq<char> {
    "Conflict. The container name \"/"@ + name + "\" is already in use by con"@
}

/// Whether the creation of a container failed only because it exists already; the deployment
/// goes on after such a failure and stops after any other.
pub fn docker_create_conflict(failure: &String, common: &OrchestrationCommon, g: &StateTestbedGuest) -> (b: bool)
    ensures
        b == failure_expected(failure@, name_conflict_text(host_guest_name(common.project_name@, g.guest_type.name@))),
{
    let name = get_host_guest_name(common, g);
    let expected = concat3("Conflict. The container name \"/", name.as_str(), "\" is already in use by con");
    is_expected_failure(failure, expected.as_str())
}

/// The command that finds the integration bridge interface `ovs-docker` made for a container.
pub open spec fn port_lookup_spec(name: Seq<char>) -> Seq<Seq<char>> {
    seq![
        "ovs-vsctl"@, "--data=bare"@, "--no-heading"@, "--columns=name"@, "find"@, "interface"@,
        "external_ids:container_id="@ + name, "external_ids:container_iface=eth0"@,
    ]
}

/// The command that finds a container's interface (see [`port_lookup_spec`]).
pub fn docker_port_lookup_command(common: &OrchestrationCommon, g: &StateTestbedGuest) -> (r: Vec<String>)
    ensures
        views(r@) == port_lookup_spec(host_guest_name(common.project_name@, g.guest_type.name@)),
{
    let name = get_host_guest_name(common, g);
    let mut v: Vec<String> = Vec::new();
    push_lit(&mut v, "ovs-vsctl");
    push_lit(&mut v, "--data=bare");
    push_lit(&mut v, "--no-heading");
    push_lit(&mut v, "--columns=name");
    push_lit(&mut v, "find");
    push_lit(&mut v, "interface");
    push_arg(&mut v, concat2("external_ids:container_id=", name.as_str()));
    push_lit(&mut v, "external_ids:container_iface=eth0");
    proof { assert(views(v@) =~= port_lookup_spec(name@)); }
    v
}

/// The interface name in the reply to the lookup: the reply without its final newline, which it
/// must end with.
pub fn docker_port_from_reply(reply: &String) -> (r: Result<String, String>)
    ensures
        match r {
            Ok(s) => reply@.len() > 0 && reply@.last() == '\n' && s@ == reply@.drop_last(),
            Err(e) => !(reply@.len() > 0 && reply@.last() == '\n') && e@ == "stripping newline from docker port uuid"@,
        },
{
    let c = crate::text::chars_of(reply.as_str());
    if c.len() > 0 && c[c.len() - 1] == '\n' {
        let mut s = String::new();
        let mut i: usize = 0;
        while i < c.len() - 1
            invariant
                c@ == reply@,
                c@.len() > 0,
                i <= c@.len() - 1,
                s@ == c@.subrange(0, i as int),
            decreases c@.len() - 1 - i,
        {
            crate::text::push_char(&mut s, c[i]);
            i = i + 1;
            proof { assert(s@ =~= c@.subrange(0, i as int)); }
        }
        proof { assert(s@ =~= reply@.drop_last()); }
        Ok(s)
    } else {
        Err(owned("stripping newline from docker port uuid"))
    }
}

/// The command that binds a container's interface to the guest's OVN port, when the guest has an
/// interface.
pub open spec fn bind_port_spec(common: OrchestrationCommon, g: StateTestbedGuest, iface: Seq<char>) -> Option<Seq<Seq<char>>> {
    let net = g.guest_type.network->0@;
    if net.len() > 0 {
        Some(seq![
            "ovs-vsctl"@, "set"@, "interface"@, iface,
            "external_ids:iface-id="@ + first_port_name(common.project_name@, net[0].switch@, g.guest_type.name@),
        ])
    } else {
        None
    }
}

/// The command that binds a container's interface `iface` to its OVN port (see
/// [`bind_port_spec`]); the guest has a network.
pub fn docker_bind_port_command(common: &OrchestrationCommon, g: &StateTestbedGuest, iface: &String) -> (r: Option<Vec<String>>)
    requires
        g.guest_type.network is Some,
    ensures
        match (r, bind_port_spec(*common, *g, iface@)) {
            (Some(v), Some(s)) => views(v@) == s,
            (None, None) => true,
            _ => false,
        },
{
    let net = match &g.guest_type.network {
        Some(n) => n,
        None => { return vstd::pervasive::unreached(); },
    };
    if net.len() == 0 {
        return None;
    }
    let mut v: Vec<String> = Vec::new();
    push_lit(&mut v, "ovs-vsctl");
    push_lit(&mut v, "set");
    push_lit(&mut v, "interface");
    push_arg(&mut v, iface.clone());
    let port = get_first_port_name(common, &net[0].switch, g);
    push_arg(&mut v, concat2("external_ids:iface-id=", port.as_str()));
    proof { assert(views(v@) =~= bind_port_spec(*common, *g, iface@)->Some_0); }
    Some(v)
}

/// The commands that stop a container guest: detach it from the integration bridge, then stop
/// it.
pub open spec fn docker_destroy_spec(common: OrchestrationCommon, g: StateTestbedGuest) -> (Seq<Seq<char>>, Seq<Seq<char>>) {
    let name = host_guest_name(common.project_name@, g.guest_type.name@);
    (
        seq!["sudo"@, "ovs-docker"@, "del-port"@, host_bridge(common, g.testbed_host->0@), "eth0"@, name],
        seq!["sudo"@, "docker"@, "stop"@, name],
    )
}

/// The commands that stop a container guest (see [`docker_destroy_spec`]); the guest is placed on
/// a host of the cluster configuration.
pub fn docker_destroy_commands(common: &OrchestrationCommon, g: &StateTestbedGuest) -> (r: (Vec<String>, Vec<String>))
    requires
        common_wf(*common),
        g.testbed_host is Some,
        has_host_config(*common, g.testbed_host->0@),
    ensures
        views(r.0@) == docker_destroy_spec(*common, *g).0,
        views(r.1@) == docker_destroy_spec(*common, *g).1,
{
    let host = match &g.testbed_host {
        Some(h) => h,
        None => { return vstd::pervasive::unreached(); },
    };
    let name = get_host_guest_name(common, g);
    let mut del: Vec<String> = Vec::new();
    push_lit(&mut del, "sudo");
    push_lit(&mut del, "ovs-docker");
    push_lit(&mut del, "del-port");
    push_arg(&mut del, get_host_bridge(common, host));
    push_lit(&mut del, "eth0");
    push_arg(&mut del, name.clone());
    let mut stop: Vec<String> = Vec::new();
    push_lit(&mut stop, "sudo");
    push_lit(&mut stop, "docker");
    push_lit(&mut stop, "stop");
    push_arg(&mut stop, name);
    proof {
        assert(views(del@) =~= docker_destroy_spec(*common, *g).0);
        assert(views(stop@) =~= docker_destroy_spec(*common, *g).1);
    }
    (del, stop)
}

/// Whether detaching a container failed only because it was detached already.
pub fn docker_port_gone(failure: &String) -> (b: bool)
    ensures
        b == failure_expected(failure@, "Failed to find any attached port for CONTAINER"@),
{
    is_expected_failure(failure, "Failed to find any attached port for CONTAINER")
}

/// Whether stopping a container failed only because it was gone already.
pub fn docker_container_gone(failure: &String, common: &OrchestrationCommon, g: &StateTestbedGuest) -> (b: bool)
    ensures
        b == failure_expected(failure@, "No such container: "@ + host_guest_name(common.project_name@, g.guest_type.name@)),
{
    let name = get_host_guest_name(common, g);
    let expected = concat2("No such container: ", name.as_str());
    is_expected_failure(failure, expected.as_str())
}

/// The local path of a volume to copy to a remote host: `${PWD}` stands for the project
/// folder; a path without it is under the project folder.
pub open spec fn volume_local_path(source: Seq<char>, project_dir: Seq<char>) -> Seq<char> {
    if contains_text(source, "${PWD}"@) {
        replace_all(source, "${PWD}"@, project_dir)
    } else {
        project_dir + "/"@ + source
    }
}

/// The copies of the volumes, each to `remote`.
pub open spec fn volume_pushes(volumes: Seq<Volume>, project_dir: Seq<char>, remote: Seq<char>) -> Seq<(Seq<char>, Seq<char>)>
    decreases volumes.len(),
{
    if volumes.len() == 0 {
        Seq::empty()
    } else {
        volume_pushes(volumes.drop_last(), project_dir, remote).push((volume_local_path(volumes.last().source@, project_dir), remote))
    }
}

/// The files to copy to the host of a container guest, each as a local path and the folder it
/// goes to: none on the master host; elsewhere the env file and the volumes, to the project
/// folder on that host.
pub open spec fn docker_push_spec(m: StateDockerMachine, common: OrchestrationCommon, g: StateTestbedGuest) -> Result<Seq<(Seq<char>, Seq<char>)>, Seq<char>> {
    let host = g.testbed_host->0@;
    let dir = common.project_working_dir@;
    if host == master_name(common) {
        Ok(Seq::empty())
    } else {
        match first_where(common.testbed_hosts@, host_named(host)) {
            None => Err(no_host_text()),
            Some(i) => {
                let remote = remote_project_folder(common.testbed_hosts@[i].1.username@, common.project_name@) + "/"@;
                Ok((match m.env_file { Some(f) => seq![(dir + "/"@ + f@, remote)], None => Seq::empty() })
                    + (match m.volumes { Some(v) => volume_pushes(v@, dir, remote), None => Seq::empty() }))
            },
        }
    }
}

/// The views of a list of copies.
pub open spec fn push_views(v: Seq<(String, String)>) -> Seq<(Seq<char>, Seq<char>)> {
    v.map_values(|p: (String, String)| (p.0@, p.1@))
}

/// Appends a copy to a list of copies.
fn push_copy(v: &mut Vec<(String, String)>, local: String, remote: String)
    ensures
        push_views(final(v)@) == push_views(old(v)@).push((local@, remote@)),
{
    v.push((local, remote));
    proof { assert(push_views(v@) =~= push_views(old(v)@).push((local@, remote@))); }
}

/// The files to copy to the host of a container guest (see [`docker_push_spec`]); the guest is
/// placed on a host and a master host exists.
pub fn docker_push_files(m: &StateDockerMachine, common: &OrchestrationCommon, g: &StateTestbedGuest) -> (r: Result<Vec<(String, String)>, String>)
    requires
        common_wf(*common),
        g.testbed_host is Some,
        master_index(*common) is Some,
    ensures
        match (r, docker_push_spec(*m, *common, *g)) {
            (Ok(v), Ok(s)) => push_views(v@) == s,
            (Err(e), Err(s)) => e@ == s,
            _ => false,
        },
{
    let host = match &g.testbed_host {
        Some(h) => h,
        None => { return vstd::pervasive::unreached(); },
    };
    let mut v: Vec<(String, String)> = Vec::new();
    let master = get_master_testbed_name(common);
    if *host == master {
        proof { assert(push_views(v@) =~= Seq::<(Seq<char>, Seq<char>)>::empty()); }
        return Ok(v);
    }
    let remote = get_remote_project_folder(common, host)?;
    let dir = &common.project_working_dir;
    if let Some(f) = &m.env_file {
        push_copy(&mut v, concat3(dir.as_str(), "/", f.as_str()), remote.clone());
    }
    let ghost with_env = push_views(v@);
    if let Some(vols) = &m.volumes {
        let mut i: usize = 0;
        proof { assert(push_views(v@) =~= with_env + volume_pushes(vols@.subrange(0, 0), dir@, remote@)); }
        while i < vols.len()
            invariant
                i <= vols@.len(),
                push_views(v@) == with_env + volume_pushes(vols@.subrange(0, i as int), dir@, remote@),
            decreases vols@.len() - i,
        {
            proof { assert(vols@.subrange(0, i + 1).drop_last() =~= vols@.subrange(0, i as int)); }
            let source = &vols[i].source;
            let local = if text_contains(source.as_str(), "${PWD}") {
                proof { reveal_strlit("${PWD}"); }
                replace_text(source.as_str(), "${PWD}", dir.as_str())
            } else {
                concat3(dir.as_str(), "/", source.as_str())
            };
            push_copy(&mut v, local, remote.clone());
            i = i + 1;
            proof { assert(push_views(v@) =~= with_env + volume_pushes(vols@.subrange(0, i as int), dir@, remote@)); }
        }
        proof { assert(vols@.subrange(0, vols@.len() as int) =~= vols@); }
    }
    proof { assert(push_views(v@) =~= docker_push_spec(*m, *common, *g)->Ok_0); }
    Ok(v)
}

/// Whether the address of a guest's first port must first be asked of OVN: the port exists
/// and the interface's address is `dynamic`.
pub open spec fn docker_needs_dynamic(common: OrchestrationCommon, g: StateTestbedGuest) -> bool {
    first_port_index(common, g) is Some && g.guest_type.network->0@[0].ip@ == "dynamic"@
}

/// After the container is created (or found to exist already): the bridge interface
/// `ovs-docker` made is looked up; its name, without the trailing newline, is bound to the
/// guest's OVN port when the guest has an interface.
pub open spec fn docker_lookup_next(common: OrchestrationCommon, g: StateTestbedGuest, rs: Seq<Result<Seq<char>, Seq<char>>>, k: int) -> GuestNext {
    if rs.len() <= k {
        GuestNext::Run(port_lookup_spec(host_guest_name(common.project_name@, g.guest_type.name@)))
    } else {
        match rs[k] {
            Err(e) => GuestNext::Fail(e),
            Ok(out) => if out.len() > 0 && out.last() == '\n' {
                match bind_port_spec(common, g, out.drop_last()) {
                    None => GuestNext::Done,
                    Some(b) => match run_all_from(seq![b], rs, k + 1) {
                        Some(n) => n,
                        None => GuestNext::Done,
                    },
                }
            } else {
                GuestNext::Fail("stripping newline from docker port uuid"@)
            },
        }
    }
}

/// Creating the container: `docker run`; when it succeeds the container is attached to the
/// bridge by `add`; when it fails because the name is taken the deployment goes on; any other
/// failure stops it.
pub open spec fn docker_run_next(common: OrchestrationCommon, g: StateTestbedGuest, run: Seq<Seq<char>>, add: Seq<Seq<char>>, rs: Seq<Result<Seq<char>, Seq<char>>>, j: int) -> GuestNext {
    if rs.len() <= j {
        GuestNext::Run(run)
    } else {
        match rs[j] {
            Ok(_) => match run_all_from(seq![add], rs, j + 1) {
                Some(n) => n,
                None => docker_lookup_next(common, g, rs, j + 2),
            },
            Err(e) => if failure_expected(e, name_conflict_text(host_guest_name(common.project_name@, g.guest_type.name@))) {
                docker_lookup_next(common, g, rs, j + 1)
            } else {
                GuestNext::Fail(e)
            },
        }
    }
}

/// From the inspection on: the container is inspected; its reply decides (see
/// [`create_plan_spec`]) the cleanup commands, run in order, and whether the container is then
/// created; when it is not, nothing more is run.
pub open spec fn docker_inspect_next(common: OrchestrationCommon, g: StateTestbedGuest, force: bool, run: Seq<Seq<char>>, add: Seq<Seq<char>>, rs: Seq<Result<Seq<char>, Seq<char>>>, i: int) -> GuestNext {
    if rs.len() <= i {
        GuestNext::Run(inspect_spec(host_guest_name(common.project_name@, g.guest_type.name@)))
    } else {
        match create_plan_spec(rs[i], force, common, g) {
            Err(e) => GuestNext::Fail(e),
            Ok(p) => match run_all_from(p.0, rs, i + 1) {
                Some(n) => n,
                None => if !p.1 {
                    GuestNext::Done
                } else {
                    docker_run_next(common, g, run, add, rs, i + 1 + p.0.len())
                },
            },
        }
    }
}

/// The deployment of a container guest, given the replies so far: the `docker run` command line
/// and the port's attachment are worked out first (their errors stop it before any command);
/// the address OVN gave a dynamic port is asked for; then the container is inspected, cleaned
/// up, created, attached, looked up and bound as the steps above say.
pub open spec fn docker_create_next(m: StateDockerMachine, common: OrchestrationCommon, g: StateTestbedGuest, force: bool, rs: Seq<Result<Seq<char>, Seq<char>>>) -> GuestNext {
    match docker_run_spec(m, common, g) {
        Err(e) => GuestNext::Fail(e),
        Ok(run) => match add_port_spec(common, g, Seq::empty()) {
            Err(e) => GuestNext::Fail(e),
            Ok(add0) => if docker_needs_dynamic(common, g) {
                let port = first_port_name(common.project_name@, g.guest_type.network->0@[0].switch@, g.guest_type.name@);
                if rs.len() == 0 {
                    GuestNext::Run(dynamic_query_spec(port))
                } else {
                    match rs[0] {
                        Err(e) => GuestNext::Fail(e),
                        Ok(out) => match dynamic_ip_result(out, port) {
                            Err(e) => GuestNext::Fail(e),
                            Ok(ip) => docker_inspect_next(common, g, force, run, add_port_spec(common, g, ip)->Ok_0, rs, 1),
                        },
                    }
                }
            } else {
                docker_inspect_next(common, g, force, run, add0, rs, 0)
            },
        },
    }
}

/// One command as a list of commands.
fn single(c: Vec<String>) -> (r: Vec<Vec<String>>)
    ensures
        command_views(r@) == seq![views(c@)],
{
    let mut r: Vec<Vec<String>> = Vec::new();
    r.push(c);
    proof { assert(command_views(r@) =~= seq![views(c@)]); }
    r
}

/// The next step of deploying a container guest (see [`docker_create_next`]), given the replies
/// to the commands run so far on its host; `force` tells whether provisioning is forced.
pub fn docker_create_step(
    m: &StateDockerMachine,
    common: &OrchestrationCommon,
    g: &StateTestbedGuest,
    force: bool,
    replies: &Vec<Result<String, String>>,
) -> (r: GuestAction)
    requires
        common_wf(*common),
        g.testbed_host is Some,
        master_index(*common) is Some,
        has_host_config(*common, g.testbed_host->0@),
        common.network is Ovn,
        first_port_internal(*common, *g),
    ensures
        guest_action_view(r) == docker_create_next(*m, *common, *g, force, replies_text(replies@)),
{
    let ghost rs = replies_text(replies@);
    let run = match docker_run_command(m, common, g) {
        Ok(v) => v,
        Err(e) => { return GuestAction::Fail(e); },
    };
    let empty = String::new();
    let add0 = match ovs_docker_add_port_command(common, g, &empty) {
        Ok(v) => v,
        Err(e) => { return GuestAction::Fail(e); },
    };
    proof { assert(empty@ =~= Seq::<char>::empty()); }
    let mut i: usize = 0;
    let add = match docker_dynamic_port(common, g) {
        Some(port) => {
            if replies.len() == 0 {
                return GuestAction::Run(dynamic_ip_query(&port));
            }
            match reply_at(replies, 0) {
                Err(e) => { return GuestAction::Fail(e.clone()); },
                Ok(out) => match parse_dynamic_ip(out, &port) {
                    Err(e) => { return GuestAction::Fail(e); },
                    Ok(ip) => {
                        i = 1;
                        match ovs_docker_add_port_command(common, g, &ip) {
                            Ok(v) => v,
                            Err(_) => { return vstd::pervasive::unreached(); },
                        }
                    },
                },
            }
        },
        None => add0,
    };
    if replies.len() <= i {
        return GuestAction::Run(docker_inspect_command(common, g));
    }
    let plan = match docker_create_plan(reply_at(replies, i), force, common, g) {
        Err(e) => { return GuestAction::Fail(e); },
        Ok(p) => p,
    };
    match run_all_step(&plan.cleanup, replies, i + 1) {
        Some(a) => { return a; },
        None => {},
    }
    if !plan.create {
        return GuestAction::Done;
    }
    let j = i + 1 + plan.cleanup.len();
    if replies.len() <= j {
        return GuestAction::Run(run);
    }
    let k = match reply_at(replies, j) {
        Ok(_) => {
            match run_all_step(&single(add), replies, j + 1) {
                Some(a) => { return a; },
                None => j + 2,
            }
        },
        Err(e) => {
            if docker_create_conflict(e, common, g) {
                j + 1
            } else {
                return GuestAction::Fail(e.clone());
            }
        },
    };
    if replies.len() <= k {
        return GuestAction::Run(docker_port_lookup_command(common, g));
    }
    match reply_at(replies, k) {
        Err(e) => GuestAction::Fail(e.clone()),
        Ok(out) => match docker_port_from_reply(out) {
            Err(t) => GuestAction::Fail(t),
            Ok(port) => match docker_bind_port_command(common, g, &port) {
                None => GuestAction::Done,
                Some(b) => match run_all_step(&single(b), replies, k + 1) {
                    Some(a) => a,
                    None => GuestAction::Done,
                },
            },
        },
    }
}

/// The length of the environment options: two words per variable.
proof fn lemma_env_args_len(env: Seq<(String, String)>)
    ensures
        env_args(env).len() == 2 * env.len(),
    decreases env.len(),
{
    if env.len() > 0 {
        lemma_env_args_len(env.drop_last());
    }
}

/// The two words of the `i`-th variable.
proof fn lemma_env_args_at(env: Seq<(String, String)>, i: int)
    requires
        0 <= i < env.len(),
    ensures
        env_args(env)[2 * i] == "-e"@,
        env_args(env)[2 * i + 1] == env[i].0@ + "="@ + env[i].1@,
    decreases env.len(),
{
    let p = env.drop_last();
    lemma_env_args_len(p);
    let ea = env_args(p);
    assert(env_args(env) == ea + seq!["-e"@, env.last().0@ + "="@ + env.last().1@]);
    if i < p.len() {
        lemma_env_args_at(p, i);
        assert(env[i] == p[i]);
    }
}

/// The two words a variable is passed as.
pub open spec fn env_words_at(words: Seq<Seq<char>>, k: int, var: (String, String)) -> bool {
    words[k] == "-e"@ && words[k + 1] == var.0@ + "="@ + var.1@
}

/// `-e NAME=VALUE` for every variable, in order: two words per variable.
pub proof fn law_env_args_every_variable(env: Seq<(String, String)>)
    ensures
        env_args(env).len() == 2 * env.len(),
        forall|i: int| 0 <= i < env.len() ==> #[trigger] env_words_at(env_args(env), 2 * i, env[i]),
{
    lemma_env_args_len(env);
    assert forall|i: int| 0 <= i < env.len() implies #[trigger] env_words_at(env_args(env), 2 * i, env[i]) by {
        lemma_env_args_at(env, i);
    }
}

/// The `docker run` command passes every environment variable of the machine, in order, as
/// `-e NAME=VALUE` right after the container's name options and entrypoint.
pub proof fn law_docker_run_passes_every_variable(m: StateDockerMachine, common: OrchestrationCommon, g: StateTestbedGuest)
    ensures
        docker_run_spec(m, common, g) matches Ok(run) ==> (m.environment matches Some(env) ==> ({
            let p: int = if m.entrypoint is Some { 10 } else { 8 };
            forall|i: int| 0 <= i < env@.len() ==> #[trigger] env_words_at(run, p + 2 * i, env@[i])
        })),
{
    if let Ok(run) = docker_run_spec(m, common, g) {
        if let Some(env) = m.environment {
            law_env_args_every_variable(env@);
            let name = host_guest_name(common.project_name@, g.guest_type.name@);
            let base = seq!["sudo"@, "docker"@, "run"@, "--rm"@, "--name"@, name, "-it"@, "-d"@];
            let ep: Seq<Seq<char>> = match m.entrypoint { Some(e) => seq!["--entrypoint"@, e@], None => Seq::empty() };
            let ea = env_args(env@);
            let head = run_head(m, name);
            let front = base + ep;
            assert(front.len() == (if m.entrypoint is Some { 10int } else { 8int }));
            let p: int = if m.entrypoint is Some { 10 } else { 8 };
            assert(head == front + ea + (match m.device { Some(v) => device_args(v@), None => Seq::empty() })
                + (if m.privileged is Some { seq!["--privileged"@] } else { Seq::empty() }));
            let ef = env_file_args(m, common, g.testbed_host.unwrap()@)->Ok_0;
            let net = g.guest_type.network->0;
            assert(run == head + ef + seq!["--net=none"@]
                + (match m.volumes { Some(v) => volume_args(v@, common.project_working_dir@), None => Seq::empty() })
                + run_tail(m, net@, name));
            assert forall|i: int| 0 <= i < env@.len() implies #[trigger] env_words_at(run, p + 2 * i, env@[i]) by {
                lemma_env_args_at(env@, i);
                assert(head[p + 2 * i] == ea[2 * i]);
                assert(head[p + 2 * i + 1] == ea[2 * i + 1]);
                assert(run[p + 2 * i] == head[p + 2 * i]);
                assert(run[p + 2 * i + 1] == head[p + 2 * i + 1]);
            }
        }
    }
}

/// The container a guest's stop commands detach and stop is the one its start commands run and
/// attach, on the same bridge.
pub proof fn law_docker_stop_matches_start(m: StateDockerMachine, common: OrchestrationCommon, g: StateTestbedGuest, dynamic_ip: Seq<char>)
    ensures
        docker_run_spec(m, common, g) matches Ok(run) ==> run[5] == docker_destroy_spec(common, g).1[3],
        add_port_spec(common, g, dynamic_ip) matches Ok(add) ==> add[3] == docker_destroy_spec(common, g).0[3]
            && add[5] == docker_destroy_spec(common, g).0[5],
{
    let name = host_guest_name(common.project_name@, g.guest_type.name@);
    if let Ok(run) = docker_run_spec(m, common, g) {
        let head = run_head(m, name);
        assert(head[5] == name);
        assert(run[5] == head[5]);
    }
}

} // verus!
