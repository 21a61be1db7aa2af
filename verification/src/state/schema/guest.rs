//! Guests in the testbed state.

use vstd::prelude::*;
use crate::state::schema::machines::avd::StateAVDMachine;
use crate::state::schema::machines::docker::StateDockerMachine;
use crate::state::schema::machines::libvirt::StateLibvirtMachine;
use crate::text::owned;

verus! {

/// A guest as placed on the testbed.
#[derive(Debug, Clone)]
pub struct StateTestbedGuest {
    pub guest_type: StateMachine,
    /// The testbed host the guest runs on, once load balancing has placed it.
    pub testbed_host: Option<String>,
    /// Whether the guest is a backing image for linked clones.
    pub is_golden_image: bool,
    /// A unique identifier of the guest in the state.
    pub guest_id: u32,
    pub extra_info: StateTestbedGuestExtraInfo,
}

/// A guest machine: its name, interfaces and kind.
#[derive(Debug, Clone)]
pub struct StateMachine {
    pub name: String,
    pub network: Option<Vec<StateMachineNetwork>>,
    pub guest_type: StateGuestType,
}

/// One network interface of a guest.
#[derive(Debug, Clone)]
pub struct StateMachineNetwork {
    pub switch: String,
    pub gateway: Option<String>,
    pub mac: String,
    /// An address, or `dynamic`.
    pub ip: String,
    pub network_name: Option<String>,
}

/// The kind of a guest, with its settings.
#[derive(Debug, Clone)]
pub enum StateGuestType {
    Libvirt(StateLibvirtMachine),
    Docker(StateDockerMachine),
    Android(StateAVDMachine),
}

/// The name of a kind of guest.
pub open spec fn guest_type_name(t: StateGuestType) -> Seq<char> {
    match t {
        StateGuestType::Libvirt(_) => "Libvirt"@,
        StateGuestType::Docker(_) => "Docker"@,
        StateGuestType::Android(_) => "Android"@,
    }
}

impl StateGuestType {
    /// The name of this kind of guest.
    pub fn name(&self) -> (r: String)
        ensures
            r@ == guest_type_name(*self),
    {
        match self {
            StateGuestType::Libvirt(_) => owned("Libvirt"),
            StateGuestType::Docker(_) => owned("Docker"),
            StateGuestType::Android(_) => owned("Android"),
        }
    }
}

/// What the testbed adds to a guest's description: the image or ISO a guest is based on.
#[derive(Debug, Clone)]
pub struct StateTestbedGuestExtraInfo {
    pub reference_image: Option<String>,
}

} // verus!
