//! An OVN chassis: a testbed host taking part in the logical network.

use vstd::prelude::*;
use crate::ovn::components::ovs::{OvsBridge, OvsSystem};

verus! {

/// An OVN chassis with its OVS settings and bridges.
pub struct OvnChassis {
    pub name: String,
    pub ovs_system: OvsSystem,
    /// The bridge guests attach to.
    pub integration_bridge: OvsBridge,
    /// The bridge that connects the logical network with a network of the host.
    pub provider_bridge: Option<OvsBridge>,
}

} // verus!
