//! Docker guests in the testbed state.

use vstd::prelude::*;
use crate::state::schema::machines::StateScalingInterface;

verus! {

/// A volume mounted into a container: a host path and the path inside the container.
#[derive(Debug, Clone)]
pub struct Volume {
    pub source: String,
    pub target: String,
}

/// A docker container guest.
#[derive(Debug, Clone)]
pub struct StateDockerMachine {
    pub image: String,
    pub command: Option<String>,
    pub entrypoint: Option<String>,
    /// Environment variables, in the order of their names.
    pub environment: Option<Vec<(String, String)>>,
    pub env_file: Option<String>,
    pub volumes: Option<Vec<Volume>>,
    pub privileged: Option<bool>,
    pub scaling: Option<StateDockerScaling>,
    pub user: Option<String>,
    pub device: Option<Vec<String>>,
    pub static_ip: Option<String>,
}

/// Copies of a container, with their interfaces by name.
#[derive(Debug, Clone)]
pub struct StateDockerScaling {
    /// At least one.
    pub count: u32,
    /// At least one interface.
    pub interfaces: Vec<(String, StateScalingInterface)>,
}

} // verus!
