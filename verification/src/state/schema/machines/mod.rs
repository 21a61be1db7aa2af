//! How guests of each kind are described in the testbed state, and their scaling settings.

pub mod libvirt;
pub mod docker;
pub mod avd;

use vstd::prelude::*;

verus! {

/// A network interface given to a set of clones.
#[derive(Debug, Clone)]
pub struct StateScalingInterface {
    pub clones: Vec<u32>,
    pub gateway: Option<String>,
    pub ip_type: StateScalingIpType,
    pub mac_range: StateScalingMacRange,
}

/// How clones get their addresses.
#[derive(Debug, Clone)]
pub enum StateScalingIpType {
    IpRange(StateScalingIpRange),
    Dynamic,
}

/// A range of IP addresses, by its first and last address.
#[derive(Debug, Clone)]
pub struct StateScalingIpRange {
    pub from: String,
    pub to: String,
}

/// A range of MAC addresses, by its first and last address.
#[derive(Debug, Clone)]
pub struct StateScalingMacRange {
    pub from: String,
    pub to: String,
}

} // verus!
