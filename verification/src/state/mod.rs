//! The testbed state: the definitive description of a deployed testbed, its hosts, guests and
//! network, from which orchestration deploys and destroys it.

pub mod schema;
pub mod load_balancing;
pub mod delta;
pub mod state_evaluation;
pub mod orchestration_tasks;

pub use crate::state::schema::guest::{StateTestbedGuest, StateTestbedGuestExtraInfo};

use vstd::prelude::*;
use crate::ovn::ovn_state::OvnNetwork;

verus! {

/// A testbed host: how it is reached and whether it is the master host.
#[derive(Debug, Clone)]
pub struct StateTestbedHost {
    pub username: String,
    pub ssh_private_key_location: String,
    pub ip: String,
    pub testbed_nic: String,
    pub is_master_host: bool,
}

/// The testbed hosts by name, in the order of their names.
#[derive(Debug, Clone)]
pub struct StateTestbedHostList(pub Vec<(String, StateTestbedHost)>);

/// The guests by name, in the order of their names.
#[derive(Debug, Clone)]
pub struct StateTestbedGuestList(pub Vec<(String, StateTestbedGuest)>);

/// Configuration shared by the testbed hosts.
#[derive(Debug, Clone)]
pub struct StateTestbedHostSharedConfig {}

/// Configuration shared by the guests: the SSH key pair they are reached with.
#[derive(Debug, Clone, Default)]
pub struct StateTestbedGuestSharedConfig {
    pub ssh_public_key_location: String,
    pub ssh_private_key_location: String,
}

/// The testbed network, by the kind of network.
#[derive(Debug, Clone)]
pub enum StateNetwork {
    Ovn(OvnNetwork),
    Ovs(StateOvsNetwork),
}

/// An OVS-only network.
#[derive(Debug, Clone)]
pub struct StateOvsNetwork {}

/// Whether the guests have been provisioned, so that a deployment is not provisioned twice.
#[derive(Debug, Clone)]
pub struct StateProvisioning {
    pub guests_provisioned: bool,
}

/// The whole testbed state.
#[derive(Debug, Clone)]
pub struct State {
    pub project_name: String,
    pub creation_date: String,
    pub project_working_dir: String,
    pub testbed_hosts: StateTestbedHostList,
    pub testbed_guests: StateTestbedGuestList,
    pub testbed_host_shared_config: StateTestbedHostSharedConfig,
    pub testbed_guest_shared_config: StateTestbedGuestSharedConfig,
    pub network: StateNetwork,
    pub state_provisioning: StateProvisioning,
}

/// An empty OVN network.
impl Default for StateNetwork {
    fn default() -> (r: StateNetwork)
        ensures
            r matches StateNetwork::Ovn(n) && n@.switches.len() == 0 && n@.switch_ports.len() == 0
                && n@.routers.len() == 0 && n@.router_ports.len() == 0 && n@.ovs_ports.len() == 0
                && n@.acl.len() == 0 && n@.dhcp_options.len() == 0,
    {
        StateNetwork::Ovn(OvnNetwork::new())
    }
}

/// Where the state of a project is saved: `<project folder>/<project>-state.json`.
pub fn state_file_path(project_path: &String, project_name: &String) -> (r: String)
    ensures
        r@ == project_path@ + "/"@ + project_name@ + "-state.json"@,
{
    let mut r = crate::text::concat3(project_path.as_str(), "/", project_name.as_str());
    crate::text::push_str(&mut r, "-state.json");
    r
}

} // verus!
