//! Libvirt guests: the commands that start, stop, set up and rebase a virtual machine, the files
//! copied between the master and the other hosts for it, and how the replies of the hosts decide
//! the next step.

use vstd::prelude::*;
use crate::orchestration::{common_wf, names_unique, OrchestrationCommon};
use crate::ovn::ovn_state::first_where;
use crate::snapshot::qemu_img::{contains_text, parent_of, path_parent, text_contains};
use crate::state::orchestration_tasks::{
    failure_expected, get_host_bridge, get_host_guest_name, has_host_config, host_bridge, host_guest_name,
    is_expected_failure,
};
use crate::state::orchestration_tasks::guests::{
    file_name, get_master_testbed_name, get_remote_project_folder, host_named, master_index, master_name,
    path_file_name, remote_project_folder,
};
use crate::state::schema::guest::StateTestbedGuest;
use crate::state::schema::machines::libvirt::{StateLibvirtGuestOptions, StateLibvirtMachine};
use crate::state::orchestration_tasks::steps::{answered, first_err_between, guest_action_view, run_all_step, reply_at, GuestAction, GuestNext};
use crate::ovn::configuration::dhcp::replies_text;
use crate::text::{command_views, concat2, concat3, decimal, decimal_string, owned, push_arg, push_lit, push_str, views};

verus! {

/// The host is the master or a testbed host of the state.
pub open spec fn host_known(common: OrchestrationCommon, host: Seq<char>) -> bool {
    host == master_name(common) || first_where(common.testbed_hosts@, host_named(host)) is Some
}

/// The project folder on a guest's host: the project folder itself on the master,
/// `/home/<user>/testbed-projects/<project>/` on another host.
pub open spec fn host_project_path(common: OrchestrationCommon, host: Seq<char>) -> Seq<char> {
    if host == master_name(common) {
        common.project_working_dir@
    } else {
        remote_project_folder(
            common.testbed_hosts@[first_where(common.testbed_hosts@, host_named(host)).unwrap()].1.username@,
            common.project_name@,
        ) + "/"@
    }
}

/// The project folder on a host (see [`host_project_path`]).
pub fn get_host_project_path(common: &OrchestrationCommon, host: &String) -> (r: String)
    requires
        common_wf(*common),
        master_index(*common) is Some,
        host_known(*common, host@),
    ensures
        r@ == host_project_path(*common, host@),
{
    let master = get_master_testbed_name(common);
    if *host == master {
        common.project_working_dir.clone()
    } else {
        match get_remote_project_folder(common, host) {
            Ok(f) => f,
            Err(_) => vstd::pervasive::unreached(),
        }
    }
}

/// The `virsh create` command that starts a guest from its domain definition, in the artefacts
/// folder of the project on its host.
pub open spec fn virsh_create_spec(common: OrchestrationCommon, g: StateTestbedGuest) -> Seq<Seq<char>> {
    seq![
        "virsh"@, "create"@,
        host_project_path(common, g.testbed_host->0@) + "/artefacts/"@ + "/"@ + g.guest_type.name@ + "-domain.xml"@,
    ]
}

/// The command that starts a guest (see [`virsh_create_spec`]); the guest is placed on a known
/// host and a master host exists.
pub fn libvirt_create_command(common: &OrchestrationCommon, g: &StateTestbedGuest) -> (r: Vec<String>)
    requires
        common_wf(*common),
        g.testbed_host is Some,
        master_index(*common) is Some,
        host_known(*common, g.testbed_host->0@),
    ensures
        views(r@) == virsh_create_spec(*common, *g),
{
    let host = match &g.testbed_host {
        Some(h) => h,
        None => { return vstd::pervasive::unreached(); },
    };
    let mut xml = get_host_project_path(common, host);
    push_str(&mut xml, "/artefacts/");
    push_str(&mut xml, "/");
    push_str(&mut xml, g.guest_type.name.as_str());
    push_str(&mut xml, "-domain.xml");
    let mut v: Vec<String> = Vec::new();
    push_lit(&mut v, "virsh");
    push_lit(&mut v, "create");
    push_arg(&mut v, xml);
    proof { assert(views(v@) =~= virsh_create_spec(*common, *g)); }
    v
}

/// Whether starting a guest failed only because it runs already; the guest's deployment then
/// ends there, its ports being in place.
pub fn libvirt_guest_running(failure: &String) -> (b: bool)
    ensures
        b == failure_expected(failure@, "already exists with uuid"@),
{
    is_expected_failure(failure, "already exists with uuid")
}

/// The OVN port of a guest's interface: `<project>-<switch>-<guest>-<position>`.
pub open spec fn interface_port_name(project: Seq<char>, switch: Seq<char>, guest: Seq<char>, idx: nat) -> Seq<char> {
    project + "-"@ + switch + "-"@ + guest + "-"@ + decimal(idx)
}

/// The command that adds a guest's interface to a bridge, bound to an OVN port.
pub open spec fn add_interface_spec(bridge: Seq<char>, iface: Seq<char>, port: Seq<char>) -> Seq<Seq<char>> {
    seq![
        "ovs-vsctl"@, "add-port"@, bridge, iface, "--"@, "set"@, "Interface"@, iface,
        "external_ids:iface-id="@ + port,
    ]
}

/// The text of the error when a libvirt guest has no network.
pub open spec fn no_libvirt_network_text() -> Seq<char> {
    "getting guest network in libvirt create action"@
}

/// The commands that attach a started guest's interfaces to its host's integration bridge, one
/// per interface in order, each bound to the interface's OVN port; none for a backing image
/// (one with scaling). `interfaces` are the names the guest's interfaces have on its host.
pub open spec fn libvirt_ports_spec(m: StateLibvirtMachine, common: OrchestrationCommon, g: StateTestbedGuest, interfaces: Seq<Seq<char>>) -> Result<Seq<Seq<Seq<char>>>, Seq<char>> {
    if m.scaling is Some {
        Ok(Seq::empty())
    } else {
        match g.guest_type.network {
            None => Err(no_libvirt_network_text()),
            Some(net) => Ok(Seq::new(net@.len(), |i: int| add_interface_spec(
                host_bridge(common, g.testbed_host->0@),
                interfaces[i],
                interface_port_name(common.project_name@, net@[i].switch@, g.guest_type.name@, i as nat),
            ))),
        }
    }
}

/// The commands that attach a guest's interfaces (see [`libvirt_ports_spec`]); `interfaces`
/// names each interface of the guest, and the guest's host is in the cluster configuration when
/// there is an interface to attach.
pub fn libvirt_port_commands(m: &StateLibvirtMachine, common: &OrchestrationCommon, g: &StateTestbedGuest, interfaces: &Vec<String>) -> (r: Result<Vec<Vec<String>>, String>)
    requires
        common_wf(*common),
        g.testbed_host is Some,
        g.guest_type.network is Some ==> interfaces@.len() == g.guest_type.network->0@.len(),
        (m.scaling is None && g.guest_type.network is Some && g.guest_type.network->0@.len() > 0)
            ==> has_host_config(*common, g.testbed_host->0@),
    ensures
        match (r, libvirt_ports_spec(*m, *common, *g, views(interfaces@))) {
            (Ok(v), Ok(s)) => command_views(v@) == s,
            (Err(e), Err(s)) => e@ == s,
            _ => false,
        },
{
    let mut out: Vec<Vec<String>> = Vec::new();
    if m.scaling.is_some() {
        proof { assert(command_views(out@) =~= Seq::<Seq<Seq<char>>>::empty()); }
        return Ok(out);
    }
    let net = match &g.guest_type.network {
        Some(n) => n,
        None => { return Err(owned("getting guest network in libvirt create action")); },
    };
    let host = match &g.testbed_host {
        Some(h) => h,
        None => { return vstd::pervasive::unreached(); },
    };
    let ghost spec_cmds = libvirt_ports_spec(*m, *common, *g, views(interfaces@))->Ok_0;
    let mut i: usize = 0;
    while i < net.len()
        invariant
            i <= net@.len(),
            interfaces@.len() == net@.len(),
            m.scaling is None,
            g.guest_type.network == Some(*net),
            g.testbed_host == Some(*host),
            net@.len() > 0 ==> has_host_config(*common, host@),
            common_wf(*common),
            spec_cmds == libvirt_ports_spec(*m, *common, *g, views(interfaces@))->Ok_0,
            spec_cmds.len() == net@.len(),
            out@.len() == i,
            command_views(out@) == spec_cmds.subrange(0, i as int),
        decreases net@.len() - i,
    {
        let bridge = get_host_bridge(common, host);
        let mut port = concat3(common.project_name.as_str(), "-", net[i].switch.as_str());
        push_str(&mut port, "-");
        push_str(&mut port, g.guest_type.name.as_str());
        push_str(&mut port, "-");
        push_str(&mut port, decimal_string(i as u64).as_str());
        let mut cmd: Vec<String> = Vec::new();
        push_lit(&mut cmd, "ovs-vsctl");
        push_lit(&mut cmd, "add-port");
        push_arg(&mut cmd, bridge);
        push_arg(&mut cmd, interfaces[i].clone());
        push_lit(&mut cmd, "--");
        push_lit(&mut cmd, "set");
        push_lit(&mut cmd, "Interface");
        push_arg(&mut cmd, interfaces[i].clone());
        push_arg(&mut cmd, concat2("external_ids:iface-id=", port.as_str()));
        proof {
            assert(port@ =~= interface_port_name(common.project_name@, net@[i as int].switch@, g.guest_type.name@, i as nat));
            assert(views(interfaces@)[i as int] == interfaces@[i as int]@);
            assert(views(cmd@) =~= spec_cmds[i as int]);
        }
        let ghost prev = out@;
        let ghost cv = views(cmd@);
        out.push(cmd);
        proof {
            assert forall|k: int| 0 <= k < i + 1 implies command_views(out@)[k] == spec_cmds[k] by {
                if k < i {
                    assert(out@[k] == prev[k]);
                    assert(command_views(prev)[k] == spec_cmds.subrange(0, i as int)[k]);
                } else {
                    assert(views(out@[k]@) == cv);
                }
            }
            assert(command_views(out@) =~= spec_cmds.subrange(0, i + 1));
        }
        i = i + 1;
    }
    proof { assert(spec_cmds.subrange(0, net@.len() as int) =~= spec_cmds); }
    Ok(out)
}

/// Whether attaching an interface failed only because it is attached already; the guest's
/// deployment then ends there.
pub fn libvirt_port_attached(failure: &String) -> (b: bool)
    ensures
        b == failure_expected(failure@, "already exists on bridge"@),
{
    is_expected_failure(failure, "already exists on bridge")
}

/// The commands that stop a guest: `virsh destroy`, then, for a guest that is not a backing
/// image and has a network, the removal of the port of its first interface (`first_interface`)
/// from the bridge; only that port is removed, however many interfaces the guest has.
pub open spec fn libvirt_destroy_spec(common: OrchestrationCommon, g: StateTestbedGuest, first_interface: Seq<char>) -> (Seq<Seq<char>>, Seq<Seq<Seq<char>>>) {
    (
        seq!["virsh"@, "destroy"@, host_guest_name(common.project_name@, g.guest_type.name@)],
        if g.is_golden_image || g.guest_type.network is None {
            Seq::empty()
        } else {
            seq![seq!["ovs-vsctl"@, "del-port"@, first_interface]]
        },
    )
}

/// The commands that stop a guest (see [`libvirt_destroy_spec`]); failures of either are
/// ignored.
pub fn libvirt_destroy_commands(common: &OrchestrationCommon, g: &StateTestbedGuest, first_interface: &String) -> (r: (Vec<String>, Vec<Vec<String>>))
    ensures
        views(r.0@) == libvirt_destroy_spec(*common, *g, first_interface@).0,
        command_views(r.1@) == libvirt_destroy_spec(*common, *g, first_interface@).1,
{
    let mut destroy: Vec<String> = Vec::new();
    push_lit(&mut destroy, "virsh");
    push_lit(&mut destroy, "destroy");
    push_arg(&mut destroy, get_host_guest_name(common, g));
    let mut ports: Vec<Vec<String>> = Vec::new();
    if !g.is_golden_image && g.guest_type.network.is_some() {
        let mut del: Vec<String> = Vec::new();
        push_lit(&mut del, "ovs-vsctl");
        push_lit(&mut del, "del-port");
        push_arg(&mut del, first_interface.clone());
        ports.push(del);
    }
    proof {
        assert(views(destroy@) =~= libvirt_destroy_spec(*common, *g, first_interface@).0);
        assert(command_views(ports@) =~~= libvirt_destroy_spec(*common, *g, first_interface@).1);
    }
    (destroy, ports)
}

/// The command that asks a host about a guest's domain.
pub fn libvirt_dominfo_command(common: &OrchestrationCommon, g: &StateTestbedGuest) -> (r: Vec<String>)
    ensures
        views(r@) == seq!["virsh"@, "dominfo"@, host_guest_name(common.project_name@, g.guest_type.name@)],
{
    let mut v: Vec<String> = Vec::new();
    push_lit(&mut v, "virsh");
    push_lit(&mut v, "dominfo");
    push_arg(&mut v, get_host_guest_name(common, g));
    proof { assert(views(v@) =~= seq!["virsh"@, "dominfo"@, host_guest_name(common.project_name@, g.guest_type.name@)]); }
    v
}

/// Whether a guest runs, read from the answer about its domain: it runs if the answer says
/// `running`, is off if it says `shut off`; otherwise the guest has no domain.
pub open spec fn is_up_spec(reply: Seq<char>, name: Seq<char>) -> Result<bool, Seq<char>> {
    if contains_text(reply, "running"@) {
        Ok(true)
    } else if contains_text(reply, "shut off"@) {
        Ok(false)
    } else {
        Err("for guest "@ + name + " could not find libvirt definition"@)
    }
}

/// Reads whether a guest runs from the answer about its domain (see [`is_up_spec`]).
pub fn libvirt_is_up(reply: &String, common: &OrchestrationCommon, g: &StateTestbedGuest) -> (r: Result<bool, String>)
    ensures
        match (r, is_up_spec(reply@, host_guest_name(common.project_name@, g.guest_type.name@))) {
            (Ok(a), Ok(b)) => a == b,
            (Err(a), Err(b)) => a@ == b,
            _ => false,
        },
{
    if text_contains(reply.as_str(), "running") {
        Ok(true)
    } else if text_contains(reply.as_str(), "shut off") {
        Ok(false)
    } else {
        let name = get_host_guest_name(common, g);
        Err(concat3("for guest ", name.as_str(), " could not find libvirt definition"))
    }
}

/// The setup script of a guest from a cloud image: the script's path, the user it is copied to
/// the guest as (into `/tmp`), and the command that runs it there.
pub open spec fn setup_script_spec(m: StateLibvirtMachine) -> Option<(Seq<char>, Seq<char>, Seq<Seq<char>>)> {
    match m.libvirt_type {
        StateLibvirtGuestOptions::CloudImage { setup_script: Some(s), .. } =>
            Some((s@, m.username->0@, seq!["sudo"@, "bash"@, "/tmp/"@ + s@])),
        _ => None,
    }
}

/// The setup script of a guest, if it has one (see [`setup_script_spec`]); a guest with a setup
/// script has a user name.
pub fn libvirt_setup_script(m: &StateLibvirtMachine) -> (r: Option<(String, String, Vec<String>)>)
    requires
        setup_script_spec(*m) is Some ==> m.username is Some,
    ensures
        match (r, setup_script_spec(*m)) {
            (Some((a, b, c)), Some((x, y, z))) => a@ == x && b@ == y && views(c@) == z,
            (None, None) => true,
            _ => false,
        },
{
    match &m.libvirt_type {
        StateLibvirtGuestOptions::CloudImage { setup_script: Some(s), .. } => {
            let user = match &m.username {
                Some(u) => u.clone(),
                None => { return vstd::pervasive::unreached(); },
            };
            let mut cmd: Vec<String> = Vec::new();
            push_lit(&mut cmd, "sudo");
            push_lit(&mut cmd, "bash");
            push_arg(&mut cmd, concat2("/tmp/", s.as_str()));
            proof { assert(views(cmd@) =~= seq!["sudo"@, "bash"@, "/tmp/"@ + s@]); }
            Some((s.clone(), user, cmd))
        },
        _ => None,
    }
}

/// The path of a guest's disk image on its host.
pub open spec fn disk_path(m: StateLibvirtMachine) -> Seq<char> {
    match m.libvirt_type {
        StateLibvirtGuestOptions::CloudImage { path, .. } => path->0@,
        StateLibvirtGuestOptions::ExistingDisk { path, .. } => path@,
        StateLibvirtGuestOptions::IsoGuest { path, .. } => path@,
    }
}

/// A cloud image guest has its image path.
pub open spec fn has_disk_path(m: StateLibvirtMachine) -> bool {
    m.libvirt_type matches StateLibvirtGuestOptions::CloudImage { path, .. } ==> path is Some
}

/// The path of a guest's disk image (see [`disk_path`]).
pub(crate) fn get_disk_path(m: &StateLibvirtMachine) -> (r: String)
    requires
        has_disk_path(*m),
    ensures
        r@ == disk_path(*m),
{
    match &m.libvirt_type {
        StateLibvirtGuestOptions::CloudImage { path, .. } => match path {
            Some(p) => p.clone(),
            None => vstd::pervasive::unreached(),
        },
        StateLibvirtGuestOptions::ExistingDisk { path, .. } => path.clone(),
        StateLibvirtGuestOptions::IsoGuest { path, .. } => path.clone(),
    }
}

/// Where a guest's image is fetched from and put when it is brought back to the master: nothing
/// for a guest on the master; otherwise its disk image on its host, into the project's
/// artefacts folder.
pub open spec fn pull_spec(m: StateLibvirtMachine, common: OrchestrationCommon, g: StateTestbedGuest) -> Option<(Seq<char>, Seq<char>)> {
    if g.testbed_host->0@ == master_name(common) {
        None
    } else {
        Some((common.project_working_dir@ + "/artefacts/"@, disk_path(m)))
    }
}

/// The folder on the master and the image path on the guest's host for bringing a guest's
/// image back (see [`pull_spec`]).
pub fn libvirt_pull_paths(m: &StateLibvirtMachine, common: &OrchestrationCommon, g: &StateTestbedGuest) -> (r: Option<(String, String)>)
    requires
        g.testbed_host is Some,
        master_index(*common) is Some,
        has_disk_path(*m),
    ensures
        match (r, pull_spec(*m, *common, *g)) {
            (Some((a, b)), Some((x, y))) => a@ == x && b@ == y,
            (None, None) => true,
            _ => false,
        },
{
    let host = match &g.testbed_host {
        Some(h) => h,
        None => { return vstd::pervasive::unreached(); },
    };
    let master = get_master_testbed_name(common);
    if *host == master {
        return None;
    }
    Some((concat2(common.project_working_dir.as_str(), "/artefacts/"), get_disk_path(m)))
}

/// Whether a clone's image must be rebased onto the copy of its backing image: when it is not on
/// the master.
pub fn libvirt_rebase_needed(common: &OrchestrationCommon, g: &StateTestbedGuest) -> (b: bool)
    requires
        g.testbed_host is Some,
        master_index(*common) is Some,
    ensures
        b == (g.testbed_host->0@ != master_name(*common)),
{
    let master = get_master_testbed_name(common);
    match &g.testbed_host {
        Some(h) => *h != master,
        None => vstd::pervasive::unreached(),
    }
}

/// The command that rebases a clone's image onto the backing image at `backing`.
pub open spec fn rebase_spec(m: StateLibvirtMachine, backing: Seq<char>) -> Seq<Seq<char>> {
    seq!["qemu-img"@, "rebase"@, "-u"@, "-f"@, "qcow2"@, "-b"@, backing, "-F"@, "qcow2"@, disk_path(m)]
}

/// The command that rebases a clone's image (see [`rebase_spec`]); the guest is from a cloud
/// image with a path or from an existing disk.
pub fn libvirt_rebase_command(m: &StateLibvirtMachine, backing: &String) -> (r: Vec<String>)
    requires
        has_disk_path(*m),
        !(m.libvirt_type is IsoGuest),
    ensures
        views(r@) == rebase_spec(*m, backing@),
{
    let mut v: Vec<String> = Vec::new();
    push_lit(&mut v, "qemu-img");
    push_lit(&mut v, "rebase");
    push_lit(&mut v, "-u");
    push_lit(&mut v, "-f");
    push_lit(&mut v, "qcow2");
    push_lit(&mut v, "-b");
    push_arg(&mut v, backing.clone());
    push_lit(&mut v, "-F");
    push_lit(&mut v, "qcow2");
    push_arg(&mut v, get_disk_path(m));
    proof { assert(views(v@) =~= rebase_spec(*m, backing@)); }
    v
}

/// The paths of a guest's image have what copying it needs: a cloud image's path has a folder;
/// an existing disk's path has a folder and a file name.
pub open spec fn push_paths_named(m: StateLibvirtMachine) -> bool {
    match m.libvirt_type {
        StateLibvirtGuestOptions::CloudImage { path, .. } => path is Some && path_parent(path->0@) is Some,
        StateLibvirtGuestOptions::ExistingDisk { path, .. } => path_parent(path@) is Some && path_file_name(path@) is Some,
        StateLibvirtGuestOptions::IsoGuest { .. } => false,
    }
}

/// The files copied to the host of a guest that is not on the master, each with the folder it
/// goes to (that of the guest's disk image on its host): for a cloud image guest its disk (the
/// linked clone for a clone), its domain definition and its cloud-init ISO; for an existing
/// disk its image and its domain definition. Nothing for a guest on the master.
pub open spec fn libvirt_push_spec(m: StateLibvirtMachine, common: OrchestrationCommon, g: StateTestbedGuest) -> Seq<(Seq<char>, Seq<char>)> {
    let folder = common.project_working_dir@ + "/artefacts/"@;
    let name = g.guest_type.name@;
    let xml = folder + "/"@ + name + "-domain.xml"@;
    if g.testbed_host->0@ == master_name(common) {
        Seq::empty()
    } else {
        match m.libvirt_type {
            StateLibvirtGuestOptions::CloudImage { path, .. } => {
                let dst = path_parent(path->0@)->0;
                let clone = m.is_clone_of is Some;
                let image = if clone { name + "-linked-clone.qcow2"@ } else { name + "-cloud-disk.img"@ };
                let iso = if clone { name + "-linked-clone.iso"@ } else { name + "-cloud-init.iso"@ };
                seq![(folder + "/"@ + image, dst), (xml, dst), (folder + "/"@ + iso, dst)]
            },
            StateLibvirtGuestOptions::ExistingDisk { path, .. } => {
                let dst = path_parent(path@)->0;
                seq![(folder + "/"@ + path_file_name(path@)->0, dst), (xml, dst)]
            },
            StateLibvirtGuestOptions::IsoGuest { .. } => Seq::empty(),
        }
    }
}

/// The views of a list of copies.
pub open spec fn copy_views(v: Seq<(String, String)>) -> Seq<(Seq<char>, Seq<char>)> {
    v.map_values(|p: (String, String)| (p.0@, p.1@))
}

/// The files copied to a guest's host (see [`libvirt_push_spec`]); a guest that is not on the
/// master has image paths as [`push_paths_named`] asks.
pub fn libvirt_push_files(m: &StateLibvirtMachine, common: &OrchestrationCommon, g: &StateTestbedGuest) -> (r: Vec<(String, String)>)
    requires
        g.testbed_host is Some,
        master_index(*common) is Some,
        g.testbed_host->0@ != master_name(*common) ==> push_paths_named(*m),
    ensures
        copy_views(r@) == libvirt_push_spec(*m, *common, *g),
{
    let host = match &g.testbed_host {
        Some(h) => h,
        None => { return vstd::pervasive::unreached(); },
    };
    let mut out: Vec<(String, String)> = Vec::new();
    let master = get_master_testbed_name(common);
    if *host == master {
        proof { assert(copy_views(out@) =~= libvirt_push_spec(*m, *common, *g)); }
        return out;
    }
    let folder = concat2(common.project_working_dir.as_str(), "/artefacts/");
    let name = &g.guest_type.name;
    let xml = concat3(folder.as_str(), "/", name.as_str());
    let mut xml = xml;
    push_str(&mut xml, "-domain.xml");
    match &m.libvirt_type {
        StateLibvirtGuestOptions::CloudImage { path, .. } => {
            let p = match path {
                Some(p) => p,
                None => { return vstd::pervasive::unreached(); },
            };
            let dst = match parent_of(p.as_str()) {
                Some(d) => d,
                None => { return vstd::pervasive::unreached(); },
            };
            let clone = m.is_clone_of.is_some();
            let image = if clone { concat2(name.as_str(), "-linked-clone.qcow2") } else { concat2(name.as_str(), "-cloud-disk.img") };
            let iso = if clone { concat2(name.as_str(), "-linked-clone.iso") } else { concat2(name.as_str(), "-cloud-init.iso") };
            out.push((concat3(folder.as_str(), "/", image.as_str()), dst.clone()));
            out.push((xml, dst.clone()));
            out.push((concat3(folder.as_str(), "/", iso.as_str()), dst));
        },
        StateLibvirtGuestOptions::ExistingDisk { path, .. } => {
            let dst = match parent_of(path.as_str()) {
                Some(d) => d,
                None => { return vstd::pervasive::unreached(); },
            };
            let f = match file_name(path.as_str()) {
                Some(f) => f,
                None => { return vstd::pervasive::unreached(); },
            };
            out.push((concat3(folder.as_str(), "/", f.as_str()), dst.clone()));
            out.push((xml, dst));
        },
        StateLibvirtGuestOptions::IsoGuest { .. } => { return vstd::pervasive::unreached(); },
    }
    proof { assert(copy_views(out@) =~= libvirt_push_spec(*m, *common, *g)); }
    out
}

/// The files copied to a guest's host (see [`libvirt_push_files`]) when its image paths have
/// what copying needs; `None` when the guest is not on the master and they do not. The guest is
/// from a cloud image with a path or from an existing disk.
pub fn libvirt_push_files_if_named(m: &StateLibvirtMachine, common: &OrchestrationCommon, g: &StateTestbedGuest) -> (r: Option<Vec<(String, String)>>)
    requires
        g.testbed_host is Some,
        master_index(*common) is Some,
        has_disk_path(*m),
        !(m.libvirt_type is IsoGuest),
    ensures
        match r {
            Some(v) => (g.testbed_host->0@ != master_name(*common) ==> push_paths_named(*m))
                && copy_views(v@) == libvirt_push_spec(*m, *common, *g),
            None => g.testbed_host->0@ != master_name(*common) && !push_paths_named(*m),
        },
{
    let host = match &g.testbed_host {
        Some(h) => h,
        None => { return vstd::pervasive::unreached(); },
    };
    let master = get_master_testbed_name(common);
    if *host != master {
        let p = get_disk_path(m);
        if parent_of(p.as_str()).is_none() {
            return None;
        }
        if let StateLibvirtGuestOptions::ExistingDisk { .. } = &m.libvirt_type {
            if file_name(p.as_str()).is_none() {
                return None;
            }
        }
    }
    Some(libvirt_push_files(m, common, g))
}

/// What is done to a guest's image before the guest is deployed.
#[derive(Debug, Clone)]
pub enum LibvirtImageSetup {
    /// Nothing.
    Nothing,
    /// A backing image runs its shared setup script: the guest is started, the script at `script`
    /// copied into its `/tmp` as `user` and run there with `command`, and the guest stopped.
    SharedSetup { script: String, user: String, command: Vec<String> },
    /// A linked clone is made on the master at `clone_path`, backed by the first image that
    /// matches the file pattern `pattern`.
    LinkedClone { pattern: String, clone_path: String },
}

/// The text of the error when a backing image has no scaling settings.
pub open spec fn no_scaling_text() -> Seq<char> {
    "getting scaling config for libvirt guest"@
}

/// What is done to a guest's image before deployment: a backing image (which has scaling
/// settings) with a shared setup script runs it; a clone gets its linked clone image from the
/// backing image in the project's artefacts folder; nothing else is done.
pub open spec fn image_setup_result(m: StateLibvirtMachine, common: OrchestrationCommon, g: StateTestbedGuest, r: Result<LibvirtImageSetup, String>) -> bool {
    let dir = common.project_working_dir@;
    if g.is_golden_image {
        match m.scaling {
            None => r matches Err(e) && e@ == no_scaling_text(),
            Some(sc) => match sc.shared_setup {
                Some(script) => r matches Ok(LibvirtImageSetup::SharedSetup { script: p, user, command })
                    && p@ == dir + "/"@ + script@
                    && user@ == m.username->0@
                    && views(command@) == seq!["sudo"@, "bash"@, "/tmp/"@ + script@],
                None => r matches Ok(LibvirtImageSetup::Nothing),
            },
        }
    } else if m.is_clone_of is Some {
        r matches Ok(LibvirtImageSetup::LinkedClone { pattern, clone_path })
            && pattern@ == dir + "/artefacts/"@ + "/"@ + m.is_clone_of->0@ + "-*.img"@
            && clone_path@ == dir + "/artefacts/"@ + g.guest_type.name@ + "-linked-clone.qcow2"@
    } else {
        r matches Ok(LibvirtImageSetup::Nothing)
    }
}

/// A backing image with a shared setup script is from a cloud image and has a user name.
pub open spec fn shared_setup_ready(m: StateLibvirtMachine, g: StateTestbedGuest) -> bool {
    (g.is_golden_image && m.scaling is Some && m.scaling->0.shared_setup is Some)
        ==> (m.libvirt_type is CloudImage && m.username is Some)
}

/// Decides what is done to a guest's image before deployment (see [`image_setup_result`]).
pub fn libvirt_image_setup(m: &StateLibvirtMachine, common: &OrchestrationCommon, g: &StateTestbedGuest) -> (r: Result<LibvirtImageSetup, String>)
    requires
        shared_setup_ready(*m, *g),
    ensures
        image_setup_result(*m, *common, *g, r),
{
    let dir = &common.project_working_dir;
    if g.is_golden_image {
        match &m.scaling {
            None => Err(owned("getting scaling config for libvirt guest")),
            Some(sc) => match &sc.shared_setup {
                Some(script) => {
                    let user = match &m.username {
                        Some(u) => u.clone(),
                        None => { return vstd::pervasive::unreached(); },
                    };
                    let mut command: Vec<String> = Vec::new();
                    push_lit(&mut command, "sudo");
                    push_lit(&mut command, "bash");
                    push_arg(&mut command, concat2("/tmp/", script.as_str()));
                    proof { assert(views(command@) =~= seq!["sudo"@, "bash"@, "/tmp/"@ + script@]); }
                    Ok(LibvirtImageSetup::SharedSetup { script: concat3(dir.as_str(), "/", script.as_str()), user, command })
                },
                None => Ok(LibvirtImageSetup::Nothing),
            },
        }
    } else {
        match &m.is_clone_of {
            Some(backing) => {
                let mut pattern = concat3(dir.as_str(), "/artefacts/", "/");
                push_str(&mut pattern, backing.as_str());
                push_str(&mut pattern, "-*.img");
                let mut clone_path = concat3(dir.as_str(), "/artefacts/", g.guest_type.name.as_str());
                push_str(&mut clone_path, "-linked-clone.qcow2");
                proof {
                    assert(pattern@ =~= dir@ + "/artefacts/"@ + "/"@ + backing@ + "-*.img"@);
                    assert(clone_path@ =~= dir@ + "/artefacts/"@ + g.guest_type.name@ + "-linked-clone.qcow2"@);
                }
                Ok(LibvirtImageSetup::LinkedClone { pattern, clone_path })
            },
            None => Ok(LibvirtImageSetup::Nothing),
        }
    }
}

/// The backing image a linked clone is made from: the first of the files that match its
/// pattern; refused when none does.
pub fn first_backing_image(matches: &Vec<String>) -> (r: Result<String, String>)
    ensures
        match r {
            Ok(s) => matches@.len() > 0 && s@ == matches@[0]@,
            Err(e) => matches@.len() == 0 && e@ == "could not find image"@,
        },
{
    if matches.len() > 0 {
        Ok(matches[0].clone())
    } else {
        Err(owned("could not find image"))
    }
}

/// The command that makes a linked clone image at `clone_path` backed by `backing`.
pub fn linked_clone_command(backing: &String, clone_path: &String) -> (r: Vec<String>)
    ensures
        views(r@) == seq!["qemu-img"@, "create"@, "-f"@, "qcow2"@, "-b"@, backing@, "-F"@, "qcow2"@, clone_path@],
{
    let mut v: Vec<String> = Vec::new();
    push_lit(&mut v, "qemu-img");
    push_lit(&mut v, "create");
    push_lit(&mut v, "-f");
    push_lit(&mut v, "qcow2");
    push_lit(&mut v, "-b");
    push_arg(&mut v, backing.clone());
    push_lit(&mut v, "-F");
    push_lit(&mut v, "qcow2");
    push_arg(&mut v, clone_path.clone());
    proof { assert(views(v@) =~= seq!["qemu-img"@, "create"@, "-f"@, "qcow2"@, "-b"@, backing@, "-F"@, "qcow2"@, clone_path@]); }
    v
}

/// Whether making a linked clone failed only because the clone runs already; the guest's image
/// setup then ends there.
pub fn libvirt_image_in_use(failure: &String) -> (b: bool)
    ensures
        b == failure_expected(failure@, "Is another process using the image"@),
{
    is_expected_failure(failure, "Is another process using the image")
}

/// Attaching the interfaces, their replies from position one on: the first failure stops the
/// deployment, successfully when the interface is attached already; otherwise the next
/// interface is attached; done once all are.
pub open spec fn libvirt_ports_next(cmds: Seq<Seq<Seq<char>>>, rs: Seq<Result<Seq<char>, Seq<char>>>) -> GuestNext {
    let a = answered(cmds.len() as int, rs.len() as int, 1);
    match first_err_between(rs, 1, 1 + a) {
        Some(e) => if failure_expected(e, "already exists on bridge"@) { GuestNext::Done } else { GuestNext::Fail(e) },
        None => if a < cmds.len() { GuestNext::Run(cmds[a]) } else { GuestNext::Done },
    }
}

/// The deployment of a libvirt guest, given the replies so far: it is started with `virsh
/// create` (a guest that runs already ends the deployment successfully, any other failure stops
/// it); then the interfaces of a guest that is not a backing image are attached in order (see
/// [`libvirt_ports_next`]).
pub open spec fn libvirt_create_next(m: StateLibvirtMachine, common: OrchestrationCommon, g: StateTestbedGuest, interfaces: Seq<Seq<char>>, rs: Seq<Result<Seq<char>, Seq<char>>>) -> GuestNext {
    if rs.len() == 0 {
        GuestNext::Run(virsh_create_spec(common, g))
    } else {
        match rs[0] {
            Err(e) => if failure_expected(e, "already exists with uuid"@) { GuestNext::Done } else { GuestNext::Fail(e) },
            Ok(_) => match libvirt_ports_spec(m, common, g, interfaces) {
                Err(e) => GuestNext::Fail(e),
                Ok(cmds) => libvirt_ports_next(cmds, rs),
            },
        }
    }
}

/// The next step of deploying a libvirt guest (see [`libvirt_create_next`]), given the replies to
/// the commands run so far on its host; `interfaces` names each interface of the guest.
pub fn libvirt_create_step(
    m: &StateLibvirtMachine,
    common: &OrchestrationCommon,
    g: &StateTestbedGuest,
    interfaces: &Vec<String>,
    replies: &Vec<Result<String, String>>,
) -> (r: GuestAction)
    requires
        common_wf(*common),
        g.testbed_host is Some,
        master_index(*common) is Some,
        host_known(*common, g.testbed_host->0@),
        g.guest_type.network is Some ==> interfaces@.len() == g.guest_type.network->0@.len(),
        (m.scaling is None && g.guest_type.network is Some && g.guest_type.network->0@.len() > 0)
            ==> has_host_config(*common, g.testbed_host->0@),
    ensures
        guest_action_view(r) == libvirt_create_next(*m, *common, *g, views(interfaces@), replies_text(replies@)),
{
    if replies.len() == 0 {
        return GuestAction::Run(libvirt_create_command(common, g));
    }
    match reply_at(replies, 0) {
        Err(e) => {
            if libvirt_guest_running(e) {
                return GuestAction::Done;
            }
            return GuestAction::Fail(e.clone());
        },
        Ok(_) => {},
    }
    let cmds = match libvirt_port_commands(m, common, g, interfaces) {
        Ok(c) => c,
        Err(e) => { return GuestAction::Fail(e); },
    };
    match run_all_step(&cmds, replies, 1) {
        Some(GuestAction::Fail(e)) => {
            if libvirt_port_attached(&e) { GuestAction::Done } else { GuestAction::Fail(e) }
        },
        Some(a) => a,
        None => GuestAction::Done,
    }
}

} // verus!
