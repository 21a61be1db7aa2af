//! The order in which a testbed is brought up, torn down and cleared, and the checks and
//! temporary network that go with it.

use vstd::prelude::*;
use crate::orchestration::{common_wf, names_unique, OrchestrationCommon};
use crate::state::{State, StateTestbedHost};
use crate::state::orchestration_tasks::{check_provision_temporary_network, has_shared_setup, host_guest_name};
use crate::state::schema::guest::{StateGuestType, StateTestbedGuest};
use crate::text::{concat2, concat3, owned, push_arg, push_lit, push_str, views};
use crate::snapshot::qemu_img::{contains_text, text_contains};

verus! {

/// A step of bringing a testbed up or down, in the order it is taken.
#[derive(Debug, Clone, Copy, PartialEq, Eq)]
pub enum DeploymentStep {
    /// Check that the testbed hosts answer.
    TestbedHostCheck,
    /// Prepare the hosts.
    Setup,
    /// Create the network components.
    CreateNetwork,
    /// Destroy the network components.
    DestroyNetwork,
    /// Create the temporary network backing images are set up on.
    CreateTempNetwork,
    /// Destroy the temporary network.
    DestroyTempNetwork,
    SetupBackingImages,
    SetupLinkedClones,
    PushGuestImages,
    PushBackingGuestImages,
    RebaseCloneImages,
    DeployGuests,
    DestroyGuests,
    RunGuestSetupScripts,
    RunGuestRunScripts,
}

/// Whether some backing image runs a shared setup script.
pub open spec fn needs_temp_network(s: State) -> bool {
    exists|i: int| 0 <= i < s.testbed_guests.0@.len() && has_shared_setup(#[trigger] s.testbed_guests.0@[i].1)
}

/// The steps that bring a testbed up: the host check, setup and network; backing images (on the
/// temporary network while a shared setup script runs) and linked clones unless the guests were
/// provisioned before and provisioning is not forced; images pushed and clones rebased; guests
/// deployed; setup scripts unless the guests were provisioned and scripts are not to be run
/// again; run scripts always.
pub open spec fn request_create_steps(s: State, force_provisioning: bool, force_rerun_scripts: bool) -> Seq<DeploymentStep> {
    let provision = !s.state_provisioning.guests_provisioned || force_provisioning;
    let temp = needs_temp_network(s);
    seq![DeploymentStep::TestbedHostCheck, DeploymentStep::Setup, DeploymentStep::CreateNetwork]
        + (if provision {
            (if temp { seq![DeploymentStep::CreateTempNetwork] } else { Seq::empty() })
                + seq![DeploymentStep::SetupBackingImages]
                + (if temp { seq![DeploymentStep::DestroyTempNetwork] } else { Seq::empty() })
                + seq![DeploymentStep::SetupLinkedClones]
        } else {
            Seq::empty()
        })
        + seq![
            DeploymentStep::PushGuestImages, DeploymentStep::PushBackingGuestImages,
            DeploymentStep::RebaseCloneImages, DeploymentStep::DeployGuests,
        ]
        + (if !s.state_provisioning.guests_provisioned || force_rerun_scripts { seq![DeploymentStep::RunGuestSetupScripts] } else { Seq::empty() })
        + seq![DeploymentStep::RunGuestRunScripts]
}

/// The steps that bring a testbed up (see [`request_create_steps`]).
pub fn request_create_plan(s: &State, common: &OrchestrationCommon) -> (r: Vec<DeploymentStep>)
    ensures
        r@ == request_create_steps(*s, common.force_provisioning, common.force_rerun_scripts),
{
    let mut r: Vec<DeploymentStep> = Vec::new();
    r.push(DeploymentStep::TestbedHostCheck);
    r.push(DeploymentStep::Setup);
    r.push(DeploymentStep::CreateNetwork);
    let ghost head = r@;
    if !s.state_provisioning.guests_provisioned || common.force_provisioning {
        let temp = check_provision_temporary_network(&s.testbed_guests);
        if temp {
            r.push(DeploymentStep::CreateTempNetwork);
        }
        r.push(DeploymentStep::SetupBackingImages);
        if temp {
            r.push(DeploymentStep::DestroyTempNetwork);
        }
        r.push(DeploymentStep::SetupLinkedClones);
    }
    r.push(DeploymentStep::PushGuestImages);
    r.push(DeploymentStep::PushBackingGuestImages);
    r.push(DeploymentStep::RebaseCloneImages);
    r.push(DeploymentStep::DeployGuests);
    if !s.state_provisioning.guests_provisioned || common.force_rerun_scripts {
        r.push(DeploymentStep::RunGuestSetupScripts);
    }
    r.push(DeploymentStep::RunGuestRunScripts);
    proof { assert(r@ =~= request_create_steps(*s, common.force_provisioning, common.force_rerun_scripts)); }
    r
}

/// The steps that bring a testbed down: the host check, the guests destroyed, the temporary
/// network made sure to be down, the network components destroyed.
pub open spec fn request_destroy_steps() -> Seq<DeploymentStep> {
    seq![
        DeploymentStep::TestbedHostCheck, DeploymentStep::DestroyGuests,
        DeploymentStep::DestroyTempNetwork, DeploymentStep::DestroyNetwork,
    ]
}

/// The steps that bring a testbed down (see [`request_destroy_steps`]); destroying a testbed
/// before its artefacts are cleared takes the same steps.
pub fn request_destroy_plan() -> (r: Vec<DeploymentStep>)
    ensures
        r@ == request_destroy_steps(),
{
    let mut r: Vec<DeploymentStep> = Vec::new();
    r.push(DeploymentStep::TestbedHostCheck);
    r.push(DeploymentStep::DestroyGuests);
    r.push(DeploymentStep::DestroyTempNetwork);
    r.push(DeploymentStep::DestroyNetwork);
    proof { assert(r@ =~= request_destroy_steps()); }
    r
}

/// The name of the temporary network: `<project>-testbedos`.
pub open spec fn temp_network_name(project: Seq<char>) -> Seq<char> {
    project + "-testbedos"@
}

/// Where the definition of the temporary network is written.
pub open spec fn temp_network_xml(project_folder: Seq<char>) -> Seq<char> {
    project_folder + "/artefacts/temporary-network.xml"@
}

/// The temporary network: its name, the name of its bridge, where its definition is written and
/// the command that creates it from there.
pub fn temp_network_on(project_name: &String, project_folder: &String) -> (r: (String, String, String, Vec<String>))
    ensures
        r.0@ == temp_network_name(project_name@),
        r.1@ == "temp-net-tbos"@,
        r.2@ == temp_network_xml(project_folder@),
        views(r.3@) == seq!["virsh"@, "net-create"@, temp_network_xml(project_folder@)],
{
    let name = concat2(project_name.as_str(), "-testbedos");
    let xml = concat2(project_folder.as_str(), "/artefacts/temporary-network.xml");
    let mut cmd: Vec<String> = Vec::new();
    push_lit(&mut cmd, "virsh");
    push_lit(&mut cmd, "net-create");
    push_arg(&mut cmd, xml.clone());
    proof { assert(views(cmd@) =~= seq!["virsh"@, "net-create"@, temp_network_xml(project_folder@)]); }
    (name, owned("temp-net-tbos"), xml, cmd)
}

/// Taking the temporary network down: the command that destroys it, and its definition, which is
/// then removed.
pub fn temp_network_off(project_name: &String, project_folder: &String) -> (r: (Vec<String>, String))
    ensures
        views(r.0@) == seq!["virsh"@, "net-destroy"@, temp_network_name(project_name@)],
        r.1@ == temp_network_xml(project_folder@),
{
    let mut cmd: Vec<String> = Vec::new();
    push_lit(&mut cmd, "virsh");
    push_lit(&mut cmd, "net-destroy");
    push_arg(&mut cmd, concat2(project_name.as_str(), "-testbedos"));
    proof { assert(views(cmd@) =~= seq!["virsh"@, "net-destroy"@, temp_network_name(project_name@)]); }
    (cmd, concat2(project_folder.as_str(), "/artefacts/temporary-network.xml"))
}

/// The hosts checked before a deployment: those other than the master, in order, each with the
/// arguments of the `curl` request that asks for its status.
pub open spec fn host_checks_spec(hosts: Seq<(String, StateTestbedHost)>) -> Seq<(Seq<char>, Seq<Seq<char>>)>
    decreases hosts.len(),
{
    if hosts.len() == 0 {
        Seq::empty()
    } else {
        let rest = host_checks_spec(hosts.drop_last());
        let (name, h) = hosts.last();
        if h.is_master_host {
            rest
        } else {
            rest.push((name@, seq!["-s"@, "http://"@ + h.ip@ + ":3355/api/config/status"@]))
        }
    }
}

/// The views of a list of host checks.
pub open spec fn check_views(v: Seq<(String, Vec<String>)>) -> Seq<(Seq<char>, Seq<Seq<char>>)> {
    v.map_values(|c: (String, Vec<String>)| (c.0@, views(c.1@)))
}

/// The hosts checked before a deployment (see [`host_checks_spec`]).
pub fn host_check_requests(common: &OrchestrationCommon) -> (r: Vec<(String, Vec<String>)>)
    ensures
        check_views(r@) == host_checks_spec(common.testbed_hosts@),
{
    let mut r: Vec<(String, Vec<String>)> = Vec::new();
    let mut i: usize = 0;
    proof { assert(common.testbed_hosts@.subrange(0, 0) =~= Seq::<(String, StateTestbedHost)>::empty()); }
    while i < common.testbed_hosts.len()
        invariant
            i <= common.testbed_hosts@.len(),
            check_views(r@) == host_checks_spec(common.testbed_hosts@.subrange(0, i as int)),
        decreases common.testbed_hosts@.len() - i,
    {
        proof { assert(common.testbed_hosts@.subrange(0, i + 1).drop_last() =~= common.testbed_hosts@.subrange(0, i as int)); }
        let h = &common.testbed_hosts[i].1;
        if !h.is_master_host {
            let mut args: Vec<String> = Vec::new();
            push_lit(&mut args, "-s");
            push_arg(&mut args, concat3("http://", h.ip.as_str(), ":3355/api/config/status"));
            proof { assert(views(args@) =~= seq!["-s"@, "http://"@ + h.ip@ + ":3355/api/config/status"@]); }
            let ghost prev = r@;
            let ghost entry = (common.testbed_hosts@[i as int].0@, views(args@));
            r.push((common.testbed_hosts[i].0.clone(), args));
            proof { assert(check_views(r@) =~= check_views(prev).push(entry)); }
        }
        proof {
            let s1 = common.testbed_hosts@.subrange(0, i + 1);
            assert(s1.last() == common.testbed_hosts@[i as int]);
        }
        i = i + 1;
    }
    proof { assert(common.testbed_hosts@.subrange(0, common.testbed_hosts@.len() as int) =~= common.testbed_hosts@); }
    r
}

/// What the status request of a host says: refused when it could not connect, or failed.
pub open spec fn host_check_spec(name: Seq<char>, reply: Result<Seq<char>, Seq<char>>) -> Result<(), Seq<char>> {
    match reply {
        Ok(out) => if contains_text(out, "Failed to connect to"@) {
            Err("could not reach client testbed host "@ + name + ", is the client testbed server running?"@)
        } else {
            Ok(())
        },
        Err(e) => Err("could not reach client testbed host "@ + name + " with err "@ + e),
    }
}

/// Reads the answer to a host's status request (see [`host_check_spec`]).
pub fn host_check_result(name: &String, reply: &Result<String, String>) -> (r: Result<(), String>)
    ensures
        match (r, host_check_spec(name@, match *reply { Ok(s) => Ok(s@), Err(e) => Err(e@) })) {
            (Ok(_), Ok(_)) => true,
            (Err(a), Err(b)) => a@ == b,
            _ => false,
        },
{
    match reply {
        Ok(out) => {
            if text_contains(out.as_str(), "Failed to connect to") {
                Err(concat3("could not reach client testbed host ", name.as_str(), ", is the client testbed server running?"))
            } else {
                Ok(())
            }
        },
        Err(e) => {
            let mut m = concat3("could not reach client testbed host ", name.as_str(), " with err ");
            push_str(&mut m, e.as_str());
            Err(m)
        },
    }
}

/// The devices whose virtual devices are deleted when the artefacts are cleared: every Android
/// guest but the templates of scaled devices, each with its host and the `avdmanager` command.
pub open spec fn avd_deletions_spec(project: Seq<char>, guests: Seq<(String, StateTestbedGuest)>) -> Seq<(Seq<char>, Seq<Seq<char>>)>
    decreases guests.len(),
{
    if guests.len() == 0 {
        Seq::empty()
    } else {
        let rest = avd_deletions_spec(project, guests.drop_last());
        let (name, g) = guests.last();
        match g.guest_type.guest_type {
            StateGuestType::Android(a) => if a.scaling is None {
                rest.push((g.testbed_host->0@, seq![
                    "/opt/android-sdk/cmdline-tools/latest/bin/avdmanager"@, "delete"@, "avd"@, "-n"@,
                    host_guest_name(project, name@),
                ]))
            } else {
                rest
            },
            _ => rest,
        }
    }
}

/// Android guests are placed.
pub open spec fn android_guests_placed(guests: Seq<(String, StateTestbedGuest)>) -> bool {
    forall|i: int| 0 <= i < guests.len() && (#[trigger] guests[i]).1.guest_type.guest_type is Android
        ==> guests[i].1.testbed_host is Some
}

/// The virtual devices deleted when the artefacts are cleared (see [`avd_deletions_spec`]).
pub fn avd_deletions(common: &OrchestrationCommon, s: &State) -> (r: Vec<(String, Vec<String>)>)
    requires
        android_guests_placed(s.testbed_guests.0@),
    ensures
        check_views(r@) == avd_deletions_spec(common.project_name@, s.testbed_guests.0@),
{
    let list = &s.testbed_guests.0;
    let mut r: Vec<(String, Vec<String>)> = Vec::new();
    let mut i: usize = 0;
    proof { assert(list@.subrange(0, 0) =~= Seq::<(String, StateTestbedGuest)>::empty()); }
    while i < list.len()
        invariant
            i <= list@.len(),
            list == &s.testbed_guests.0,
            android_guests_placed(list@),
            check_views(r@) == avd_deletions_spec(common.project_name@, list@.subrange(0, i as int)),
        decreases list@.len() - i,
    {
        proof { assert(list@.subrange(0, i + 1).drop_last() =~= list@.subrange(0, i as int)); }
        let g = &list[i].1;
        match &g.guest_type.guest_type {
            StateGuestType::Android(a) => {
                if a.scaling.is_none() {
                    let host = match &g.testbed_host {
                        Some(h) => h.clone(),
                        None => { proof { assert(list@[i as int].1.guest_type.guest_type is Android); } return vstd::pervasive::unreached(); },
                    };
                    let mut cmd: Vec<String> = Vec::new();
                    push_lit(&mut cmd, "/opt/android-sdk/cmdline-tools/latest/bin/avdmanager");
                    push_lit(&mut cmd, "delete");
                    push_lit(&mut cmd, "avd");
                    push_lit(&mut cmd, "-n");
                    push_arg(&mut cmd, concat3(common.project_name.as_str(), "-", list[i].0.as_str()));
                    proof {
                        assert(views(cmd@) =~= seq![
                            "/opt/android-sdk/cmdline-tools/latest/bin/avdmanager"@, "delete"@, "avd"@, "-n"@,
                            host_guest_name(common.project_name@, list@[i as int].0@),
                        ]);
                    }
                    let ghost prev = r@;
                    let ghost entry = (host@, views(cmd@));
                    r.push((host, cmd));
                    proof { assert(check_views(r@) =~= check_views(prev).push(entry)); }
                }
            },
            _ => {},
        }
        proof {
            let s1 = list@.subrange(0, i + 1);
            assert(s1.last() == list@[i as int]);
        }
        i = i + 1;
    }
    proof { assert(list@.subrange(0, list@.len() as int) =~= list@); }
    r
}

} // verus!
