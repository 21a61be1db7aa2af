//! Android virtual device guests in the testbed state.

use vstd::prelude::*;
use crate::state::schema::machines::StateScalingInterface;

verus! {

/// An Android virtual device guest.
#[derive(Debug, Clone)]
pub struct StateAVDMachine {
    /// The address of the virtual ethernet pair in the device's namespace.
    pub static_ip: Option<String>,
    pub avd_type: StateAVDGuestOptions,
    pub scaling: Option<StateAndroidScaling>,
}

/// A device to create, or an existing one.
#[derive(Debug, Clone)]
pub enum StateAVDGuestOptions {
    Avd {
        android_api_version: u8,
        playstore_enabled: bool,
        setup_script: Option<String>,
        run_script: Option<String>,
    },
    ExistingAvd { path: String, run_script: Option<String> },
}

/// Copies of a device, with their interfaces by name.
#[derive(Debug, Clone)]
pub struct StateAndroidScaling {
    /// At least one.
    pub count: u32,
    /// At least one interface.
    pub interfaces: Vec<(String, StateScalingInterface)>,
}

} // verus!
