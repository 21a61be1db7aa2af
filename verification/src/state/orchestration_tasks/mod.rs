//! Orchestration of a testbed from its state: the decisions taken while deploying and
//! destroying it.

pub mod android;
pub mod artefacts;
pub mod deployment;
pub mod ovn_network;
pub mod docker;
pub mod guests;
pub mod libvirt;
pub mod stages;
pub mod steps;

use vstd::prelude::*;
use crate::orchestration::{common_wf, names_unique, OrchestrationCommon, TestbedClusterConfig, TestbedHostSshConfig};
use crate::ovn::ovn_state::{first_where, lemma_first_where_absent, lemma_first_where_found};
use crate::snapshot::qemu_img::{contains_text, text_contains};
use crate::state::{State, StateTestbedGuestList};
use crate::state::schema::guest::{StateGuestType, StateTestbedGuest};
use crate::state::state_evaluation::{trim, trim_text};
use crate::text::{concat3, push_str};

verus! {

/// The settings shared by the orchestration steps of a testbed: its hosts, guest settings, name,
/// folder and network from its state, the flags of the request, the cluster configuration, and
/// the owner (user and group ids) that the project folder is given. Hosts named once in the
/// state and the configuration stay named once.
pub fn get_orchestration_common(
    state: State,
    force_provisioning: bool,
    force_rerun_scripts: bool,
    reapply_acl: bool,
    kvm_compose_config: TestbedClusterConfig,
    fs_user: u32,
    fs_group: u32,
) -> (r: OrchestrationCommon)
    ensures
        r.testbed_hosts == state.testbed_hosts.0,
        r.testbed_guest_shared_config == state.testbed_guest_shared_config,
        r.project_name == state.project_name,
        r.project_working_dir == state.project_working_dir,
        r.force_provisioning == force_provisioning,
        r.force_rerun_scripts == force_rerun_scripts,
        r.reapply_acl == reapply_acl,
        r.kvm_compose_config == kvm_compose_config,
        r.network == state.network,
        r.fs_user == fs_user,
        r.fs_group == fs_group,
        names_unique(state.testbed_hosts.0@) && names_unique(kvm_compose_config.testbed_host_ssh_config@)
            ==> common_wf(r),
{
    OrchestrationCommon {
        testbed_hosts: state.testbed_hosts.0,
        testbed_guest_shared_config: state.testbed_guest_shared_config,
        project_name: state.project_name,
        project_working_dir: state.project_working_dir,
        force_provisioning,
        force_rerun_scripts,
        reapply_acl,
        kvm_compose_config,
        network: state.network,
        fs_user,
        fs_group,
    }
}

/// `base` with `p` adjoined, as `std::path::Path::join` gives it on Unix: an absolute `p`
/// replaces `base`; otherwise a separator is put between them unless `base` is empty or ends
/// with one.
pub open spec fn path_join(base: Seq<char>, p: Seq<char>) -> Seq<char> {
    if p.len() > 0 && p[0] == '/' {
        p
    } else if base.len() > 0 && base.last() != '/' {
        base + seq!['/'] + p
    } else {
        base + p
    }
}

/// Adjoins `p` to `base` (see [`path_join`]).
pub fn join_path(base: &str, p: &str) -> (r: String)
    ensures
        r@ == path_join(base@, p@),
{
    let pc = crate::text::chars_of(p);
    if pc.len() > 0 && pc[0] == '/' {
        return crate::text::owned(p);
    }
    let bc = crate::text::chars_of(base);
    let mut r = crate::text::owned(base);
    if bc.len() > 0 && bc[bc.len() - 1] != '/' {
        crate::text::push_char(&mut r, '/');
    }
    push_str(&mut r, p);
    proof { assert(r@ =~= path_join(base@, p@)); }
    r
}

/// The path a file named in the testbed description refers to, before it is made canonical:
/// an absolute path as it is, a relative one under the project folder.
pub fn parse_path_with_deployment_config(path: &String, common: &OrchestrationCommon) -> (r: String)
    ensures
        r@ == path_join(common.project_working_dir@, path@),
{
    join_path(common.project_working_dir.as_str(), path.as_str())
}

/// A backing image guest with a shared setup script.
pub open spec fn has_shared_setup(g: StateTestbedGuest) -> bool {
    match g.guest_type.guest_type {
        StateGuestType::Libvirt(l) => match l.scaling {
            Some(s) => s.shared_setup is Some,
            None => false,
        },
        _ => false,
    }
}

/// Whether a temporary network is needed while backing images are set up: when some libvirt
/// backing image guest has a shared setup script.
pub fn check_provision_temporary_network(list: &StateTestbedGuestList) -> (b: bool)
    ensures
        b == exists|i: int| 0 <= i < list.0@.len() && has_shared_setup(#[trigger] list.0@[i].1),
{
    let mut i: usize = 0;
    while i < list.0.len()
        invariant
            i <= list.0@.len(),
            forall|k: int| 0 <= k < i ==> !has_shared_setup(#[trigger] list.0@[k].1),
        decreases list.0@.len() - i,
    {
        let g = &list.0[i].1;
        let shared = match &g.guest_type.guest_type {
            StateGuestType::Libvirt(l) => match &l.scaling {
                Some(s) => s.shared_setup.is_some(),
                None => false,
            },
            _ => false,
        };
        if shared {
            return true;
        }
        i = i + 1;
    }
    false
}

/// The name of a guest on its testbed host: `<project>-<guest>`.
pub open spec fn host_guest_name(project: Seq<char>, guest: Seq<char>) -> Seq<char> {
    project + "-"@ + guest
}

/// The name of a guest on its testbed host (see [`host_guest_name`]).
pub fn get_host_guest_name(common: &OrchestrationCommon, g: &StateTestbedGuest) -> (r: String)
    ensures
        r@ == host_guest_name(common.project_name@, g.guest_type.name@),
{
    concat3(common.project_name.as_str(), "-", g.guest_type.name.as_str())
}

/// A host of the given name in the cluster configuration.
pub open spec fn ssh_config_named(n: Seq<char>) -> spec_fn((String, TestbedHostSshConfig)) -> bool {
    |e: (String, TestbedHostSshConfig)| e.0@ == n
}

/// Whether the cluster configuration has the host.
pub open spec fn has_host_config(common: OrchestrationCommon, host: Seq<char>) -> bool {
    first_where(common.kvm_compose_config.testbed_host_ssh_config@, ssh_config_named(host)) is Some
}

/// The integration bridge of a host in the cluster configuration.
pub open spec fn host_bridge(common: OrchestrationCommon, host: Seq<char>) -> Seq<char> {
    let cfg = common.kvm_compose_config.testbed_host_ssh_config@;
    cfg[first_where(cfg, ssh_config_named(host)).unwrap()].1.ovn.bridge@
}

/// The integration bridge of a host (see [`host_bridge`]).
pub fn get_host_bridge(common: &OrchestrationCommon, host: &String) -> (r: String)
    requires
        common_wf(*common),
        has_host_config(*common, host@),
    ensures
        r@ == host_bridge(*common, host@),
{
    let ghost f = ssh_config_named(host@);
    let mut i: usize = 0;
    while i < common.kvm_compose_config.testbed_host_ssh_config.len()
        invariant
            i <= common.kvm_compose_config.testbed_host_ssh_config@.len(),
            f == ssh_config_named(host@),
            first_where(common.kvm_compose_config.testbed_host_ssh_config@, f) is Some,
            forall|k: int| 0 <= k < i ==> !f(#[trigger] common.kvm_compose_config.testbed_host_ssh_config@[k]),
        decreases common.kvm_compose_config.testbed_host_ssh_config@.len() - i,
    {
        if common.kvm_compose_config.testbed_host_ssh_config[i].0 == *host {
            proof { lemma_first_where_found(common.kvm_compose_config.testbed_host_ssh_config@, f, i as int); }
            return common.kvm_compose_config.testbed_host_ssh_config[i].1.ovn.bridge.clone();
        }
        i = i + 1;
    }
    proof { lemma_first_where_absent(common.kvm_compose_config.testbed_host_ssh_config@, f); }
    vstd::pervasive::unreached()
}

/// Whether a failure text, trimmed, contains the expected text: the failures the orchestration
/// expects and goes on after.
pub open spec fn failure_expected(failure: Seq<char>, expected: Seq<char>) -> bool {
    contains_text(trim_text(failure), expected)
}

/// Whether a failure is the expected one (see [`failure_expected`]).
pub fn is_expected_failure(failure: &String, expected: &str) -> (b: bool)
    ensures
        b == failure_expected(failure@, expected@),
{
    let t = trim(failure.as_str());
    text_contains(t.as_str(), expected)
}

} // verus!
