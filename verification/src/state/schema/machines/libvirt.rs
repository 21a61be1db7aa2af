//! Libvirt guests in the testbed state.

use vstd::prelude::*;
use crate::state::schema::machines::StateScalingInterface;

verus! {

/// A libvirt virtual machine guest.
#[derive(Debug, Clone)]
pub struct StateLibvirtMachine {
    pub memory_mb: u32,
    pub cpus: u32,
    pub libvirt_type: StateLibvirtGuestOptions,
    pub username: Option<String>,
    pub password: Option<String>,
    pub hostname: String,
    pub ssh_address: String,
    /// Set on a backing image that clones are made from.
    pub scaling: Option<StateScaling>,
    /// The backing image guest this guest is a linked clone of.
    pub is_clone_of: Option<String>,
    pub tcp_tty_port: Option<u32>,
    pub static_ip: Option<String>,
}

/// Where a libvirt guest's disk comes from.
#[derive(Debug, Clone)]
pub enum StateLibvirtGuestOptions {
    /// A cloud image, by name, set up with cloud-init.
    CloudImage {
        name: String,
        expand_gigabytes: Option<u16>,
        path: Option<String>,
        run_script: Option<String>,
        setup_script: Option<String>,
        setup_script_timeout_s: u16,
        context: Option<String>,
        environment: Vec<(String, String)>,
    },
    /// An existing disk image.
    ExistingDisk {
        path: String,
        driver_type: StateDiskDriverType,
        device_type: StateDiskDeviceType,
        readonly: bool,
        /// Whether a full copy is made rather than a linked clone of the image.
        create_deep_copy: bool,
    },
    /// A guest installed from an ISO image.
    IsoGuest {
        path: String,
        expand_gigabytes: Option<u16>,
        driver_type: StateDiskDriverType,
        device_type: StateDiskDeviceType,
        readonly: bool,
    },
}

/// The format of a disk image.
#[derive(Debug, Clone, Copy, PartialEq, Eq)]
pub enum StateDiskDriverType {
    Raw,
    QCow2,
}

/// How a disk is presented to the guest.
#[derive(Debug, Clone, Copy, PartialEq, Eq)]
pub enum StateDiskDeviceType {
    Disk,
    CdRom,
}

/// Clones made from a backing image guest.
#[derive(Debug, Clone)]
pub struct StateScaling {
    /// At least one.
    pub count: u32,
    /// A script run once on the backing image before cloning.
    pub shared_setup: Option<String>,
    /// At least one interface.
    pub interfaces: Vec<(String, StateScalingInterface)>,
    pub clone_setup: Option<Vec<StateScalingSetup>>,
    pub clone_run: Option<Vec<StateScalingRun>>,
}

/// A setup script for some of the clones.
#[derive(Debug, Clone)]
pub struct StateScalingSetup {
    pub script: String,
    pub clones: Vec<u32>,
}

/// A run script for some of the clones.
#[derive(Debug, Clone)]
pub struct StateScalingRun {
    pub script: String,
    pub clones: Vec<u32>,
}

/// The address given to one clone.
#[derive(Debug, Clone)]
pub struct StateScalingIp {
    pub clone: u32,
    pub ip: String,
}

/// The format used when none is given: raw.
impl Default for StateDiskDriverType {
    fn default() -> (r: StateDiskDriverType)
        ensures
            r == StateDiskDriverType::Raw,
    {
        StateDiskDriverType::Raw
    }
}

/// The presentation used when none is given: a disk.
impl Default for StateDiskDeviceType {
    fn default() -> (r: StateDiskDeviceType)
        ensures
            r == StateDiskDeviceType::Disk,
    {
        StateDiskDeviceType::Disk
    }
}

} // verus!
