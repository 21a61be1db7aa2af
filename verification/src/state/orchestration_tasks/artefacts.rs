//! The artefacts a libvirt guest needs before deployment: the settings of its domain
//! definition, how its disk image is prepared, and the cloud-init files of a cloud image guest.

use vstd::prelude::*;
use crate::orchestration::{common_wf, names_unique, OrchestrationCommon};
use crate::ovn::ovn_state::{first_where, lemma_first_where_absent, lemma_first_where_found};
use crate::state::orchestration_tasks::{get_host_guest_name, has_host_config, host_guest_name, join_path, path_join, ssh_config_named};
use crate::state::orchestration_tasks::guests::{file_name, get_master_testbed_name, has_master, master_index, master_name, path_file_name};
use crate::state::orchestration_tasks::libvirt::{disk_path, get_disk_path, has_disk_path};
use crate::state::schema::guest::{StateMachineNetwork, StateTestbedGuest};
use crate::state::schema::machines::libvirt::{StateLibvirtGuestOptions, StateLibvirtMachine};
use crate::text::{concat2, concat3, decimal, decimal_string, owned, push_arg, push_lit, push_str, views};

verus! {

/// The project's artefacts folder on the master.
pub open spec fn artefacts_folder(common: OrchestrationCommon) -> Seq<char> {
    path_join(common.project_working_dir@, "artefacts"@)
}

/// The user a host is reached as, by the cluster configuration.
pub open spec fn ssh_user(common: OrchestrationCommon, host: Seq<char>) -> Seq<char> {
    let cfg = common.kvm_compose_config.testbed_host_ssh_config@;
    cfg[first_where(cfg, ssh_config_named(host)).unwrap()].1.user@
}

/// The artefacts folder on the guest's host, where its domain definition finds its files: the
/// master's artefacts folder on the master, `/home/<user>/testbed-projects/<project>/artefacts/`
/// elsewhere.
pub open spec fn final_artefacts_folder(common: OrchestrationCommon, host: Seq<char>) -> Seq<char> {
    if host == master_name(common) {
        artefacts_folder(common)
    } else {
        "/home/"@ + ssh_user(common, host) + "/testbed-projects/"@ + common.project_name@ + "/artefacts/"@
    }
}

/// The interfaces of a domain: each interface's name on the host, its MAC, and its position as
/// two digits.
pub open spec fn interface_entries(net: Seq<StateMachineNetwork>, interfaces: Seq<Seq<char>>) -> Seq<(Seq<char>, Seq<char>, Seq<char>)> {
    Seq::new(net.len(), |i: int| (interfaces[i], net[i].mac@, "0"@ + decimal(i as nat)))
}

/// The settings a domain definition is made from.
#[derive(Debug, Clone)]
pub struct DomainSettings {
    /// The domain's name.
    pub guest_name: String,
    pub vcpu: String,
    pub memory: String,
    /// The format of the main disk.
    pub disk_driver: String,
    pub disk_path: String,
    /// The cloud-init ISO of a cloud image guest, on its host.
    pub cloud_init_iso: Option<String>,
    pub tcp_tty_port: Option<u32>,
    /// Each interface's name, MAC and two-digit position, when there are interfaces to attach.
    pub interfaces: Option<Vec<(String, String, String)>>,
    /// Whether the domain gets the graphics a desktop needs.
    pub extended_graphics_support: bool,
    /// The project bridge a backing image is attached to.
    pub backing_image_network: Option<String>,
}

/// What is made for a libvirt guest before deployment.
#[derive(Debug, Clone)]
pub struct LibvirtArtefacts {
    pub domain: DomainSettings,
    /// Where the domain definition is written.
    pub xml_dest: String,
    /// Where the guest's disk image is on the master.
    pub disk_path_on_master: String,
    /// By how many gigabytes the disk is grown.
    pub disk_expand: u16,
}

/// A guest attaches interfaces: it has a network and is not a backing image.
pub open spec fn attaches_interfaces(m: StateLibvirtMachine, g: StateTestbedGuest) -> bool {
    m.scaling is None && g.guest_type.network is Some
}

/// The views of a list of interface entries.
pub open spec fn entry_views(v: Seq<(String, String, String)>) -> Seq<(Seq<char>, Seq<char>, Seq<char>)> {
    v.map_values(|e: (String, String, String)| (e.0@, e.1@, e.2@))
}

/// By how many gigabytes a guest's disk is grown.
pub open spec fn disk_expand_spec(m: StateLibvirtMachine) -> u16 {
    match m.libvirt_type {
        StateLibvirtGuestOptions::CloudImage { expand_gigabytes, .. } => match expand_gigabytes { Some(e) => e, None => 0 },
        StateLibvirtGuestOptions::ExistingDisk { .. } => 0,
        StateLibvirtGuestOptions::IsoGuest { expand_gigabytes, .. } => match expand_gigabytes { Some(e) => e, None => 0 },
    }
}

/// The artefacts made for a placed guest whose disk has the file name `f`.
pub open spec fn artefacts_fields(m: StateLibvirtMachine, common: OrchestrationCommon, g: StateTestbedGuest, interfaces: Seq<Seq<char>>, host: Seq<char>, f: Seq<char>, a: LibvirtArtefacts) -> bool {
    let name = g.guest_type.name@;
    let d = a.domain;
    &&& d.guest_name@ == host_guest_name(common.project_name@, name)
    &&& d.vcpu@ == decimal(m.cpus as nat)
    &&& d.memory@ == decimal(m.memory_mb as nat)
    &&& d.disk_driver@ == "qcow2"@
    &&& d.disk_path@ == disk_path(m)
    &&& (match m.libvirt_type {
        StateLibvirtGuestOptions::CloudImage { .. } => d.cloud_init_iso matches Some(iso) && iso@ == final_artefacts_folder(common, host) + "/"@ + name
            + (if m.is_clone_of is Some { "-linked-clone.iso"@ } else { "-cloud-init.iso"@ }),
        _ => d.cloud_init_iso is None,
    })
    &&& d.tcp_tty_port == m.tcp_tty_port
    &&& (if attaches_interfaces(m, g) && g.guest_type.network->0@.len() > 0 {
        d.interfaces matches Some(v) && entry_views(v@) == interface_entries(g.guest_type.network->0@, interfaces)
    } else {
        d.interfaces is None
    })
    &&& d.extended_graphics_support == !(m.libvirt_type is CloudImage)
    &&& (match m.scaling {
        Some(_) => d.backing_image_network matches Some(b) && b@ == common.project_name@ + "-testbedos"@,
        None => d.backing_image_network is None,
    })
    &&& a.xml_dest@ == artefacts_folder(common) + "/"@ + name + "-domain.xml"@
    &&& a.disk_path_on_master@ == artefacts_folder(common) + "/"@ + f
    &&& a.disk_expand == disk_expand_spec(m)
}

/// What is made for a guest, or why it cannot be: the guest must be placed, a cloud image must
/// have a path, the disk path a file name, and a guest attaches at most ten interfaces.
pub open spec fn artefacts_result(m: StateLibvirtMachine, common: OrchestrationCommon, g: StateTestbedGuest, interfaces: Seq<Seq<char>>, r: Result<LibvirtArtefacts, String>) -> bool {
    if master_index(common) is None {
        r matches Err(e) && e@ == no_master_text()
    } else {
    match g.testbed_host {
        None => r matches Err(e) && e@ == "getting guest's testbed host"@,
        Some(h) => if !has_disk_path(m) {
            r matches Err(e) && e@ == "getting disk path for libvirt cloud-image guest"@
        } else {
            match path_file_name(disk_path(m)) {
                None => r matches Err(e) && e@ == "could not get guest's filename and extension"@,
                Some(f) => if attaches_interfaces(m, g) && g.guest_type.network->0@.len() > 10 {
                    r matches Err(e) && e@ == "currently don't support a guest with more than 10 interfaces"@
                } else {
                    r matches Ok(a) && artefacts_fields(m, common, g, interfaces, h@, f, a)
                },
            }
        },
    }
    }
}

/// The error given when no testbed host is marked as the master.
pub open spec fn no_master_text() -> Seq<char> {
    "could not find the master testbed host"@
}

/// The user a host is reached as (see [`ssh_user`]).
fn get_ssh_user(common: &OrchestrationCommon, host: &String) -> (r: String)
    requires
        common_wf(*common),
        has_host_config(*common, host@),
    ensures
        r@ == ssh_user(*common, host@),
{
    let ghost f = ssh_config_named(host@);
    let mut i: usize = 0;
    while i < common.kvm_compose_config.testbed_host_ssh_config.len()
        invariant
            i <= common.kvm_compose_config.testbed_host_ssh_config@.len(),
            f == ssh_config_named(host@),
            first_where(common.kvm_compose_config.testbed_host_ssh_config@, f) is Some,
            forall|k: int| 0 <= k < i ==> !f(#[trigger] common.kvm_compose_config.testbed_host_ssh_config@[k]),
        decreases common.kvm_compose_config.testbed_host_ssh_config@.len() - i,
    {
        if common.kvm_compose_config.testbed_host_ssh_config[i].0 == *host {
            proof { lemma_first_where_found(common.kvm_compose_config.testbed_host_ssh_config@, f, i as int); }
            return common.kvm_compose_config.testbed_host_ssh_config[i].1.user.clone();
        }
        i = i + 1;
    }
    proof { lemma_first_where_absent(common.kvm_compose_config.testbed_host_ssh_config@, f); }
    vstd::pervasive::unreached()
}

/// The artefacts folder on a host (see [`final_artefacts_folder`]).
fn get_final_artefacts_folder(common: &OrchestrationCommon, host: &String) -> (r: String)
    requires
        common_wf(*common),
        master_index(*common) is Some,
        host@ != master_name(*common) ==> has_host_config(*common, host@),
    ensures
        r@ == final_artefacts_folder(*common, host@),
{
    let master = get_master_testbed_name(common);
    if *host == master {
        join_path(common.project_working_dir.as_str(), "artefacts")
    } else {
        let mut r = concat3("/home/", get_ssh_user(common, host).as_str(), "/testbed-projects/");
        push_str(&mut r, common.project_name.as_str());
        push_str(&mut r, "/artefacts/");
        proof { assert(r@ =~= final_artefacts_folder(*common, host@)); }
        r
    }
}

/// The interface entries of a domain (see [`interface_entries`]); at most ten interfaces.
fn make_interface_entries(net: &Vec<StateMachineNetwork>, interfaces: &Vec<String>) -> (r: Vec<(String, String, String)>)
    requires
        net@.len() <= 10,
        interfaces@.len() == net@.len(),
    ensures
        entry_views(r@) == interface_entries(net@, views(interfaces@)),
{
    let mut out: Vec<(String, String, String)> = Vec::new();
    let mut i: usize = 0;
    while i < net.len()
        invariant
            i <= net@.len(),
            net@.len() <= 10,
            interfaces@.len() == net@.len(),
            out@.len() == i,
            forall|k: int| 0 <= k < i ==> entry_views(out@)[k] == interface_entries(net@, views(interfaces@))[k],
        decreases net@.len() - i,
    {
        let digits = decimal_string(i as u64);
        let id = concat2("0", digits.as_str());
        proof { assert(id@ == "0"@ + decimal(i as nat)); }
        let ghost prev = out@;
        out.push((interfaces[i].clone(), net[i].mac.clone(), id));
        proof {
            assert forall|k: int| 0 <= k < i + 1 implies entry_views(out@)[k] == interface_entries(net@, views(interfaces@))[k] by {
                if k < i {
                    assert(out@[k] == prev[k]);
                    assert(entry_views(prev)[k] == interface_entries(net@, views(interfaces@))[k]);
                    assert(entry_views(prev)[k] == (prev[k].0@, prev[k].1@, prev[k].2@));
                } else {
                    assert(views(interfaces@)[k] == interfaces@[k]@);
                    assert(out@[k].0@ == interfaces@[k]@);
                    assert(out@[k].1@ == net@[k].mac@);
                    assert(out@[k].2@ == "0"@ + decimal(k as nat));
                }
                assert(entry_views(out@)[k] == (out@[k].0@, out@[k].1@, out@[k].2@));
                assert(interface_entries(net@, views(interfaces@))[k] == (views(interfaces@)[k], net@[k].mac@, "0"@ + decimal(k as nat)));
            }
        }
        i = i + 1;
    }
    proof { assert(entry_views(out@) =~= interface_entries(net@, views(interfaces@))); }
    out
}

/// Works out what is made for a libvirt guest (see [`artefacts_result`]); `interfaces` names each
/// interface of the guest on its host. When there is a master, a guest on another host has that
/// host in the cluster configuration.
pub fn libvirt_artefacts(m: &StateLibvirtMachine, common: &OrchestrationCommon, g: &StateTestbedGuest, interfaces: &Vec<String>) -> (r: Result<LibvirtArtefacts, String>)
    requires
        common_wf(*common),
        master_index(*common) is Some && g.testbed_host is Some && g.testbed_host->0@ != master_name(*common)
            ==> has_host_config(*common, g.testbed_host->0@),
        g.guest_type.network is Some ==> interfaces@.len() == g.guest_type.network->0@.len(),
    ensures
        artefacts_result(*m, *common, *g, views(interfaces@), r),
{
    if !has_master(common) {
        return Err(owned("could not find the master testbed host"));
    }
    let folder = join_path(common.project_working_dir.as_str(), "artefacts");
    let host = match &g.testbed_host {
        Some(h) => h,
        None => { return Err(owned("getting guest's testbed host")); },
    };
    let final_folder = get_final_artefacts_folder(common, host);
    let name = &g.guest_type.name;
    let has_path = match &m.libvirt_type {
        StateLibvirtGuestOptions::CloudImage { path, .. } => path.is_some(),
        _ => true,
    };
    if !has_path {
        return Err(owned("getting disk path for libvirt cloud-image guest"));
    }
    let disk = get_disk_path(m);
    let cloud_init_iso = match &m.libvirt_type {
        StateLibvirtGuestOptions::CloudImage { .. } => {
            let mut iso = concat3(final_folder.as_str(), "/", name.as_str());
            if m.is_clone_of.is_some() {
                push_str(&mut iso, "-linked-clone.iso");
            } else {
                push_str(&mut iso, "-cloud-init.iso");
            }
            Some(iso)
        },
        _ => None,
    };
    let f = match file_name(disk.as_str()) {
        Some(f) => f,
        None => { return Err(owned("could not get guest's filename and extension")); },
    };
    let mut entries: Option<Vec<(String, String, String)>> = None;
    if m.scaling.is_none() {
        if let Some(net) = &g.guest_type.network {
            if net.len() > 10 {
                return Err(owned("currently don't support a guest with more than 10 interfaces"));
            }
            if net.len() > 0 {
                entries = Some(make_interface_entries(net, interfaces));
            }
        }
    }
    let extended = match &m.libvirt_type {
        StateLibvirtGuestOptions::CloudImage { .. } => false,
        _ => true,
    };
    let backing_network = match &m.scaling {
        Some(_) => Some(concat2(common.project_name.as_str(), "-testbedos")),
        None => None,
    };
    let mut xml_dest = concat3(folder.as_str(), "/", name.as_str());
    push_str(&mut xml_dest, "-domain.xml");
    let expand: u16 = match &m.libvirt_type {
        StateLibvirtGuestOptions::CloudImage { expand_gigabytes, .. } => match expand_gigabytes { Some(e) => *e, None => 0 },
        StateLibvirtGuestOptions::ExistingDisk { .. } => 0,
        StateLibvirtGuestOptions::IsoGuest { expand_gigabytes, .. } => match expand_gigabytes { Some(e) => *e, None => 0 },
    };
    let domain = DomainSettings {
        guest_name: get_host_guest_name(common, g),
        vcpu: decimal_string(m.cpus as u64),
        memory: decimal_string(m.memory_mb as u64),
        disk_driver: owned("qcow2"),
        disk_path: disk,
        cloud_init_iso,
        tcp_tty_port: m.tcp_tty_port,
        interfaces: entries,
        extended_graphics_support: extended,
        backing_image_network: backing_network,
    };
    let a = LibvirtArtefacts {
        domain,
        xml_dest,
        disk_path_on_master: concat3(folder.as_str(), "/", f.as_str()),
        disk_expand: expand,
    };
    proof {
        if let StateLibvirtGuestOptions::CloudImage { .. } = m.libvirt_type {
            let iso = a.domain.cloud_init_iso->0;
            assert(iso@ =~= final_artefacts_folder(*common, host@) + "/"@ + name@
                + (if m.is_clone_of is Some { "-linked-clone.iso"@ } else { "-cloud-init.iso"@ }));
        }
        assert(a.xml_dest@ =~= artefacts_folder(*common) + "/"@ + name@ + "-domain.xml"@);
    }
    Ok(a)
}

/// How a guest's disk image is prepared on the master.
#[derive(Debug, Clone)]
pub enum DiskPreparation {
    /// The disk is left as it is.
    Keep,
    /// The guest's cloud image, from the testbed's images, is copied to the disk path.
    CopyCloudImage,
    /// The reference image at `source` is copied to the disk path.
    CopyReference { source: String },
    /// A linked clone of the reference image is made at the disk path by `command`, run on the
    /// master.
    LinkedClone { command: Vec<String> },
}

/// How a guest's disk is prepared, and whether it is then grown.
#[derive(Debug, Clone)]
pub struct DiskPlan {
    pub preparation: DiskPreparation,
    pub resize: bool,
}

/// How a guest's disk is prepared: a clone's disk is made at deployment (an ISO guest cannot be
/// cloned), and a disk that exists is kept unless provisioning is forced; otherwise a cloud
/// image is copied, an existing disk's reference image copied or cloned, an ISO guest's
/// reference image copied. A prepared disk is grown when it is to be.
pub open spec fn disk_plan_result(m: StateLibvirtMachine, g: StateTestbedGuest, disk_path_on_master: Seq<char>, disk_exists: bool, force: bool, r: Result<DiskPlan, String>) -> bool {
    let fresh = !disk_exists || force;
    let clone = m.is_clone_of is Some;
    let grow = disk_expand_spec(m) > 0;
    match m.libvirt_type {
        StateLibvirtGuestOptions::CloudImage { .. } => if clone || !fresh {
            r matches Ok(p) && p.preparation is Keep && !p.resize
        } else {
            r matches Ok(p) && p.preparation is CopyCloudImage && p.resize == grow
        },
        StateLibvirtGuestOptions::ExistingDisk { create_deep_copy, .. } => if clone || !fresh {
            r matches Ok(p) && p.preparation is Keep && !p.resize
        } else {
            match g.extra_info.reference_image {
                None => r matches Err(e) && e@ == "getting reference image for existing disk, must exist"@,
                Some(refi) => if create_deep_copy {
                    r matches Ok(p) && p.preparation matches DiskPreparation::CopyReference { source } && source@ == refi@ && p.resize == grow
                } else {
                    r matches Ok(p) && p.preparation matches DiskPreparation::LinkedClone { command }
                        && views(command@) == seq!["qemu-img"@, "create"@, "-f"@, "qcow2"@, "-b"@, refi@, "-F"@, "qcow2"@, disk_path_on_master]
                        && p.resize == grow
                },
            }
        },
        StateLibvirtGuestOptions::IsoGuest { .. } => if clone {
            r matches Err(e) && e@ == "scaling is not supported currently for libvirt iso guests"@
        } else if !fresh {
            r matches Ok(p) && p.preparation is Keep && !p.resize
        } else {
            match g.extra_info.reference_image {
                None => r matches Err(e) && e@ == "getting reference image for iso guest, must exist"@,
                Some(refi) => r matches Ok(p) && p.preparation matches DiskPreparation::CopyReference { source }
                    && source@ == refi@ && p.resize == grow,
            }
        },
    }
}

/// Decides how a guest's disk is prepared (see [`disk_plan_result`]); `disk_exists` tells
/// whether the disk is on the master already.
pub fn libvirt_disk_plan(m: &StateLibvirtMachine, g: &StateTestbedGuest, disk_path_on_master: &String, disk_exists: bool, force: bool) -> (r: Result<DiskPlan, String>)
    ensures
        disk_plan_result(*m, *g, disk_path_on_master@, disk_exists, force, r),
{
    let fresh = !disk_exists || force;
    let clone = m.is_clone_of.is_some();
    let keep = DiskPlan { preparation: DiskPreparation::Keep, resize: false };
    match &m.libvirt_type {
        StateLibvirtGuestOptions::CloudImage { expand_gigabytes, .. } => {
            if clone || !fresh {
                return Ok(keep);
            }
            let grow = match expand_gigabytes { Some(e) => *e > 0, None => false };
            Ok(DiskPlan { preparation: DiskPreparation::CopyCloudImage, resize: grow })
        },
        StateLibvirtGuestOptions::ExistingDisk { create_deep_copy, .. } => {
            if clone || !fresh {
                return Ok(keep);
            }
            let refi = match &g.extra_info.reference_image {
                Some(r) => r,
                None => { return Err(owned("getting reference image for existing disk, must exist")); },
            };
            if *create_deep_copy {
                Ok(DiskPlan { preparation: DiskPreparation::CopyReference { source: refi.clone() }, resize: false })
            } else {
                let mut command: Vec<String> = Vec::new();
                push_lit(&mut command, "qemu-img");
                push_lit(&mut command, "create");
                push_lit(&mut command, "-f");
                push_lit(&mut command, "qcow2");
                push_lit(&mut command, "-b");
                push_arg(&mut command, refi.clone());
                push_lit(&mut command, "-F");
                push_lit(&mut command, "qcow2");
                push_arg(&mut command, disk_path_on_master.clone());
                proof {
                    assert(views(command@) =~= seq!["qemu-img"@, "create"@, "-f"@, "qcow2"@, "-b"@, refi@, "-F"@, "qcow2"@, disk_path_on_master@]);
                }
                Ok(DiskPlan { preparation: DiskPreparation::LinkedClone { command }, resize: false })
            }
        },
        StateLibvirtGuestOptions::IsoGuest { expand_gigabytes, .. } => {
            if clone {
                return Err(owned("scaling is not supported currently for libvirt iso guests"));
            }
            if !fresh {
                return Ok(keep);
            }
            let refi = match &g.extra_info.reference_image {
                Some(r) => r,
                None => { return Err(owned("getting reference image for iso guest, must exist")); },
            };
            let grow = match expand_gigabytes { Some(e) => *e > 0, None => false };
            Ok(DiskPlan { preparation: DiskPreparation::CopyReference { source: refi.clone() }, resize: grow })
        },
    }
}

/// The cloud-init ISO of a cloud image guest.
#[derive(Debug, Clone)]
pub struct CloudInitIso {
    /// Where the ISO is made.
    pub dest: String,
    /// The files that go into it, in order; they are removed once it is made.
    pub inputs: Vec<String>,
    /// The folder archived into the `context.tar` input, if any.
    pub context: Option<String>,
}

/// What the cloud-init setup of a cloud image guest writes.
#[derive(Debug, Clone)]
pub struct CloudInitPlan {
    /// Where the meta-data file is written, if it is.
    pub meta_data: Option<String>,
    /// Where the user-data file is written, if it is.
    pub user_data: Option<String>,
    /// Where the network configuration is written, if it is.
    pub network_config: Option<String>,
    /// The ISO made when all three files were written.
    pub iso: Option<CloudInitIso>,
}

/// The path of a file when it is (re)written: when it does not exist or provisioning is forced.
pub open spec fn written(path: Seq<char>, present: bool, force: bool) -> Option<Seq<char>> {
    if !present || force { Some(path) } else { None }
}

/// The view of an optional path.
pub open spec fn opt_path(p: Option<String>) -> Option<Seq<char>> {
    match p {
        Some(s) => Some(s@),
        None => None,
    }
}

/// What the cloud-init setup writes in the project's artefacts folder: each of the meta-data,
/// user-data and network-config files when it does not exist there or provisioning is forced;
/// when all three are written, the ISO (`<guest>-linked-clone.iso` for a clone,
/// `<guest>-cloud-init.iso` otherwise) made of them and of the archive of the guest's context
/// folder, if it has one.
pub open spec fn cloud_init_result(m: StateLibvirtMachine, common: OrchestrationCommon, g: StateTestbedGuest, present: (bool, bool, bool), force: bool, p: CloudInitPlan) -> bool {
    let folder = artefacts_folder(common);
    let meta = folder + "/meta-data"@;
    let user = folder + "/user-data"@;
    let netc = folder + "/network-config"@;
    let all = (!present.0 || force) && (!present.1 || force) && (!present.2 || force);
    let context = m.libvirt_type->CloudImage_context;
    &&& opt_path(p.meta_data) == written(meta, present.0, force)
    &&& opt_path(p.user_data) == written(user, present.1, force)
    &&& opt_path(p.network_config) == written(netc, present.2, force)
    &&& (if all {
        p.iso matches Some(iso)
            && iso.dest@ == folder + "/"@ + g.guest_type.name@
                + (if m.is_clone_of is Some { "-linked-clone.iso"@ } else { "-cloud-init.iso"@ })
            && views(iso.inputs@) == seq![meta, user, netc] + (if context is Some { seq![folder + "/context.tar"@] } else { Seq::empty() })
            && opt_path(iso.context) == opt_path(context)
    } else {
        p.iso is None
    })
}

/// Works out what the cloud-init setup of a cloud image guest writes (see
/// [`cloud_init_result`]); `present` tells whether each of the three files is in the artefacts
/// folder already.
pub fn cloud_init_plan(m: &StateLibvirtMachine, common: &OrchestrationCommon, g: &StateTestbedGuest, present: (bool, bool, bool), force: bool) -> (p: CloudInitPlan)
    requires
        m.libvirt_type is CloudImage,
    ensures
        cloud_init_result(*m, *common, *g, present, force, p),
{
    let folder = join_path(common.project_working_dir.as_str(), "artefacts");
    let meta = concat2(folder.as_str(), "/meta-data");
    let user = concat2(folder.as_str(), "/user-data");
    let netc = concat2(folder.as_str(), "/network-config");
    proof {
        assert(meta@ =~= artefacts_folder(*common) + "/meta-data"@);
        assert(user@ =~= artefacts_folder(*common) + "/user-data"@);
        assert(netc@ =~= artefacts_folder(*common) + "/network-config"@);
    }
    let meta_data = if !present.0 || force { Some(meta.clone()) } else { None };
    let user_data = if !present.1 || force { Some(user.clone()) } else { None };
    let network_config = if !present.2 || force { Some(netc.clone()) } else { None };
    let iso = if meta_data.is_some() && user_data.is_some() && network_config.is_some() {
        let mut dest = concat3(folder.as_str(), "/", g.guest_type.name.as_str());
        if m.is_clone_of.is_some() {
            push_str(&mut dest, "-linked-clone.iso");
        } else {
            push_str(&mut dest, "-cloud-init.iso");
        }
        let mut inputs: Vec<String> = Vec::new();
        push_arg(&mut inputs, meta);
        push_arg(&mut inputs, user);
        push_arg(&mut inputs, netc);
        let context = match &m.libvirt_type {
            StateLibvirtGuestOptions::CloudImage { context, .. } => match context {
                Some(c) => {
                    push_arg(&mut inputs, concat2(folder.as_str(), "/context.tar"));
                    Some(c.clone())
                },
                None => None,
            },
            _ => { return vstd::pervasive::unreached(); },
        };
        proof {
            let ctx = m.libvirt_type->CloudImage_context;
            assert(views(inputs@) =~= seq![meta@, user@, netc@] + (if ctx is Some { seq![folder@ + "/context.tar"@] } else { Seq::empty() }));
            assert(dest@ =~= folder@ + "/"@ + g.guest_type.name@
                + (if m.is_clone_of is Some { "-linked-clone.iso"@ } else { "-cloud-init.iso"@ }));
        }
        Some(CloudInitIso { dest, inputs, context })
    } else {
        None
    };
    CloudInitPlan { meta_data, user_data, network_config, iso }
}

/// What happens next while the artefacts of a libvirt guest are made.
#[derive(Debug, Clone)]
pub enum ArtefactAction {
    /// Render the domain definition from these settings and write it; report whether that
    /// succeeded.
    WriteDomain(LibvirtArtefacts),
    /// Prepare the disk at `disk_path_on_master` of these artefacts as the plan says; report
    /// whether that succeeded.
    PrepareDisk(LibvirtArtefacts, DiskPlan),
    /// Write the cloud-init files and ISO as the plan says; report whether that succeeded.
    WriteCloudInit(CloudInitPlan),
    /// The artefacts are made.
    Done,
    /// Making the artefacts stopped with this error.
    Fail(String),
}

/// The plain values of the outcomes reported so far.
pub open spec fn outcomes_text(rs: Seq<Result<(), String>>) -> Seq<Result<(), Seq<char>>> {
    rs.map_values(|r: Result<(), String>| match r {
        Ok(_) => Ok::<(), Seq<char>>(()),
        Err(e) => Err(e@),
    })
}

/// After the domain definition of artefacts `a` was written: the failure that stops the work
/// is `e` (the writing failed with it, the disk plan is refused with it, the disk preparation
/// failed with it, or the cloud-init files of a cloud image guest failed with it).
pub open spec fn failed_after_domain(
    m: StateLibvirtMachine,
    g: StateTestbedGuest,
    a: LibvirtArtefacts,
    disk_exists: bool,
    force: bool,
    rs: Seq<Result<(), Seq<char>>>,
    e: Seq<char>,
) -> bool {
    &&& rs.len() >= 1
    &&& (rs[0] == Err::<(), Seq<char>>(e) || (rs[0] is Ok && (
        (exists|d: String| d@ == e && #[trigger] disk_plan_result(m, g, a.disk_path_on_master@, disk_exists, force, Err(d)))
        || (rs.len() >= 2 && (rs[1] == Err::<(), Seq<char>>(e) || (rs[1] is Ok && m.libvirt_type is CloudImage
            && rs.len() >= 3 && rs[2] == Err::<(), Seq<char>>(e))))
    )))
}

/// The artefacts are made and the disk planned: `a` and `p` are what the guest gets.
pub open spec fn planned(
    m: StateLibvirtMachine,
    common: OrchestrationCommon,
    g: StateTestbedGuest,
    interfaces: Seq<Seq<char>>,
    disk_exists: bool,
    force: bool,
    a: LibvirtArtefacts,
    p: DiskPlan,
) -> bool {
    &&& artefacts_result(m, common, g, interfaces, Ok(a))
    &&& disk_plan_result(m, g, a.disk_path_on_master@, disk_exists, force, Ok(p))
}

/// The next step of making a libvirt guest's artefacts, given the outcomes reported so far:
/// a guest refused by [`libvirt_artefacts`] stops at once, with nothing written; otherwise the
/// domain definition is written, then the disk prepared by [`libvirt_disk_plan`], then, for a
/// cloud image guest, the cloud-init files of [`cloud_init_plan`]; the first failure stops
/// the work. `disk_exists` tells whether the disk is on the master already, `present` which
/// cloud-init files exist, `force` whether provisioning is forced.
pub fn libvirt_artefacts_step(
    m: &StateLibvirtMachine,
    common: &OrchestrationCommon,
    g: &StateTestbedGuest,
    interfaces: &Vec<String>,
    disk_exists: bool,
    present: (bool, bool, bool),
    force: bool,
    outcomes: &Vec<Result<(), String>>,
) -> (r: ArtefactAction)
    requires
        common_wf(*common),
        master_index(*common) is Some && g.testbed_host is Some && g.testbed_host->0@ != master_name(*common)
            ==> has_host_config(*common, g.testbed_host->0@),
        g.guest_type.network is Some ==> interfaces@.len() == g.guest_type.network->0@.len(),
    ensures
        ({
            let ifs = views(interfaces@);
            let rs = outcomes_text(outcomes@);
            match r {
                ArtefactAction::Fail(e) => artefacts_result(*m, *common, *g, ifs, Err(e))
                    || exists|a: LibvirtArtefacts| #[trigger] artefacts_result(*m, *common, *g, ifs, Ok(a))
                        && failed_after_domain(*m, *g, a, disk_exists, force, rs, e@),
                ArtefactAction::WriteDomain(a) => rs.len() == 0 && artefacts_result(*m, *common, *g, ifs, Ok(a)),
                ArtefactAction::PrepareDisk(a, p) => rs.len() == 1 && rs[0] is Ok
                    && planned(*m, *common, *g, ifs, disk_exists, force, a, p),
                ArtefactAction::WriteCloudInit(c) => rs.len() == 2 && rs[0] is Ok && rs[1] is Ok
                    && m.libvirt_type is CloudImage
                    && (exists|a: LibvirtArtefacts, p: DiskPlan| #[trigger] planned(*m, *common, *g, ifs, disk_exists, force, a, p))
                    && cloud_init_result(*m, *common, *g, present, force, c),
                ArtefactAction::Done => rs.len() >= 2 && rs[0] is Ok && rs[1] is Ok
                    && (exists|a: LibvirtArtefacts, p: DiskPlan| #[trigger] planned(*m, *common, *g, ifs, disk_exists, force, a, p))
                    && (m.libvirt_type is CloudImage ==> rs.len() >= 3 && rs[2] is Ok),
            }
        }),
{
    let ghost rs = outcomes_text(outcomes@);
    let a = match libvirt_artefacts(m, common, g, interfaces) {
        Ok(a) => a,
        Err(e) => { return ArtefactAction::Fail(e); },
    };
    if outcomes.len() == 0 {
        return ArtefactAction::WriteDomain(a);
    }
    proof { assert(rs[0] == (match outcomes@[0] { Ok(_) => Ok::<(), Seq<char>>(()), Err(e) => Err(e@) })); }
    match &outcomes[0] {
        Err(e) => { return ArtefactAction::Fail(e.clone()); },
        Ok(_) => {},
    }
    let p = match libvirt_disk_plan(m, g, &a.disk_path_on_master, disk_exists, force) {
        Ok(p) => p,
        Err(e) => {
            proof { assert(failed_after_domain(*m, *g, a, disk_exists, force, rs, e@)); }
            return ArtefactAction::Fail(e);
        },
    };
    proof { assert(planned(*m, *common, *g, views(interfaces@), disk_exists, force, a, p)); }
    if outcomes.len() == 1 {
        return ArtefactAction::PrepareDisk(a, p);
    }
    proof { assert(rs[1] == (match outcomes@[1] { Ok(_) => Ok::<(), Seq<char>>(()), Err(e) => Err(e@) })); }
    match &outcomes[1] {
        Err(e) => {
            proof { assert(failed_after_domain(*m, *g, a, disk_exists, force, rs, e@)); }
            return ArtefactAction::Fail(e.clone());
        },
        Ok(_) => {},
    }
    match &m.libvirt_type {
        StateLibvirtGuestOptions::CloudImage { .. } => {
            if outcomes.len() == 2 {
                return ArtefactAction::WriteCloudInit(cloud_init_plan(m, common, g, present, force));
            }
            proof { assert(rs[2] == (match outcomes@[2] { Ok(_) => Ok::<(), Seq<char>>(()), Err(e) => Err(e@) })); }
            match &outcomes[2] {
                Err(e) => {
                    proof { assert(failed_after_domain(*m, *g, a, disk_exists, force, rs, e@)); }
                    ArtefactAction::Fail(e.clone())
                },
                Ok(_) => ArtefactAction::Done,
            }
        },
        _ => ArtefactAction::Done,
    }
}

} // verus!
