//! What every orchestration step is given: the testbed's hosts and configuration, and the
//! resources it asks testbed hosts to create or destroy.

use vstd::prelude::*;
use crate::ovn::components::acl::LogicalACLRecord;
use crate::ovn::components::logical_router::LogicalRouter;
use crate::ovn::components::logical_router_port::LogicalRouterPort;
use crate::ovn::components::logical_switch::LogicalSwitch;
use crate::ovn::components::logical_switch_port::LogicalSwitchPort;
use crate::ovn::components::ovs::OvsPort;
use crate::ovn::configuration::dhcp::DhcpDatabaseEntry;
use crate::ovn::configuration::external_gateway::OvnExternalGateway;
use crate::ovn::configuration::nat_rule::OvnNat;
use crate::ovn::configuration::route::OvnRoute;
use crate::state::{StateNetwork, StateTestbedGuestSharedConfig, StateTestbedHost};
use crate::state::schema::guest::StateTestbedGuest;

verus! {

/// The OVN settings of a testbed host.
#[derive(Debug, Clone)]
pub struct OvnHostConfig {
    /// The chassis name the host has in OVN.
    pub chassis_name: String,
    /// The integration bridge guests attach to.
    pub bridge: String,
}

/// How a testbed host is reached, and its role.
#[derive(Debug, Clone)]
pub struct TestbedHostSshConfig {
    pub ip: String,
    pub user: String,
    pub identity_file: String,
    pub testbed_nic: String,
    pub is_master_host: Option<bool>,
    pub ovn: OvnHostConfig,
}

/// The configuration of the cluster of testbed hosts.
#[derive(Debug, Clone)]
pub struct TestbedClusterConfig {
    /// The hosts by name.
    pub testbed_host_ssh_config: Vec<(String, TestbedHostSshConfig)>,
    pub ssh_public_key_location: String,
    pub ssh_private_key_location: String,
}

/// No name occurs twice among the entries of a list keyed by name.
pub open spec fn names_unique<V>(s: Seq<(String, V)>) -> bool {
    forall|i: int, j: int| 0 <= i < j < s.len() ==> (#[trigger] s[i]).0@ != (#[trigger] s[j]).0@
}

/// The hosts and the cluster configuration each name a host once.
pub open spec fn common_wf(c: OrchestrationCommon) -> bool {
    &&& names_unique(c.testbed_hosts@)
    &&& names_unique(c.kvm_compose_config.testbed_host_ssh_config@)
}

/// What every orchestration step is given about the testbed.
#[derive(Debug, Clone)]
pub struct OrchestrationCommon {
    /// The testbed hosts by name, in the order of their names.
    pub testbed_hosts: Vec<(String, StateTestbedHost)>,
    pub testbed_guest_shared_config: StateTestbedGuestSharedConfig,
    pub project_name: String,
    pub project_working_dir: String,
    pub force_provisioning: bool,
    pub force_rerun_scripts: bool,
    pub reapply_acl: bool,
    pub kvm_compose_config: TestbedClusterConfig,
    pub network: StateNetwork,
    /// The owner of the project folder.
    pub fs_user: u32,
    pub fs_group: u32,
}

/// A resource that an orchestration step creates or destroys.
#[derive(Debug, Clone)]
pub enum OrchestrationResource {
    Network(OrchestrationResourceNetworkType),
    Guest(StateTestbedGuest),
}

/// A network resource, by the kind of network.
#[derive(Debug, Clone)]
pub enum OrchestrationResourceNetworkType {
    Ovn(OrchestrationResourceNetwork),
}

/// An OVN network resource.
#[derive(Debug, Clone)]
pub enum OrchestrationResourceNetwork {
    Switch(LogicalSwitch),
    SwitchPort(LogicalSwitchPort),
    Router(LogicalRouter),
    RouterPort(LogicalRouterPort),
    OvsPort(OvsPort),
    Route(OvnRoute),
    ExternalGateway(OvnExternalGateway),
    Nat(OvnNat),
    DhcpOption(DhcpDatabaseEntry),
    ACL(LogicalACLRecord),
}

/// An OVN resource wrapped as an orchestration resource.
pub open spec fn ovn_resource(r: OrchestrationResourceNetwork) -> OrchestrationResource {
    OrchestrationResource::Network(OrchestrationResourceNetworkType::Ovn(r))
}

/// Wraps an OVN resource as an orchestration resource.
pub fn to_ovn_resource(r: OrchestrationResourceNetwork) -> (o: OrchestrationResource)
    ensures
        o == ovn_resource(r),
{
    OrchestrationResource::Network(OrchestrationResourceNetworkType::Ovn(r))
}


impl LogicalSwitch {
    /// The switch as an orchestration resource.
    pub fn to_orchestration_resource(&self) -> (r: OrchestrationResource)
        ensures
            r == ovn_resource(OrchestrationResourceNetwork::Switch(*self)),
    {
        to_ovn_resource(OrchestrationResourceNetwork::Switch(self.duplicate()))
    }
}

impl LogicalSwitchPort {
    /// The switch port as an orchestration resource.
    pub fn to_orchestration_resource(&self) -> (r: OrchestrationResource)
        ensures
            r == ovn_resource(OrchestrationResourceNetwork::SwitchPort(*self)),
    {
        to_ovn_resource(OrchestrationResourceNetwork::SwitchPort(self.duplicate()))
    }
}

impl LogicalRouter {
    /// The router as an orchestration resource, holding a copy of it with the same values.
    pub fn to_orchestration_resource(&self) -> (r: OrchestrationResource)
        ensures
            r matches OrchestrationResource::Network(OrchestrationResourceNetworkType::Ovn(
                OrchestrationResourceNetwork::Router(x),
            )) && x.same_as(*self),
    {
        to_ovn_resource(OrchestrationResourceNetwork::Router(self.duplicate()))
    }
}

impl LogicalRouterPort {
    /// The router port as an orchestration resource.
    pub fn to_orchestration_resource(&self) -> (r: OrchestrationResource)
        ensures
            r == ovn_resource(OrchestrationResourceNetwork::RouterPort(*self)),
    {
        to_ovn_resource(OrchestrationResourceNetwork::RouterPort(self.duplicate()))
    }
}

impl OvsPort {
    /// The OVS port as an orchestration resource.
    pub fn to_orchestration_resource(&self) -> (r: OrchestrationResource)
        ensures
            r == ovn_resource(OrchestrationResourceNetwork::OvsPort(*self)),
    {
        to_ovn_resource(OrchestrationResourceNetwork::OvsPort(self.duplicate()))
    }
}

impl OvnRoute {
    /// The route as an orchestration resource.
    pub fn to_orchestration_resource(&self) -> (r: OrchestrationResource)
        ensures
            r == ovn_resource(OrchestrationResourceNetwork::Route(*self)),
    {
        to_ovn_resource(OrchestrationResourceNetwork::Route(self.duplicate()))
    }
}

impl OvnExternalGateway {
    /// The external gateway as an orchestration resource.
    pub fn to_orchestration_resource(&self) -> (r: OrchestrationResource)
        ensures
            r == ovn_resource(OrchestrationResourceNetwork::ExternalGateway(*self)),
    {
        to_ovn_resource(OrchestrationResourceNetwork::ExternalGateway(self.duplicate()))
    }
}

impl OvnNat {
    /// The translation rule as an orchestration resource.
    pub fn to_orchestration_resource(&self) -> (r: OrchestrationResource)
        ensures
            r == ovn_resource(OrchestrationResourceNetwork::Nat(*self)),
    {
        to_ovn_resource(OrchestrationResourceNetwork::Nat(self.duplicate()))
    }
}

impl DhcpDatabaseEntry {
    /// The DHCP entry as an orchestration resource.
    pub fn to_orchestration_resource(&self) -> (r: OrchestrationResource)
        ensures
            r == ovn_resource(OrchestrationResourceNetwork::DhcpOption(*self)),
    {
        to_ovn_resource(OrchestrationResourceNetwork::DhcpOption(self.duplicate()))
    }
}

impl LogicalACLRecord {
    /// The ACL record as an orchestration resource.
    pub fn to_orchestration_resource(&self) -> (r: OrchestrationResource)
        ensures
            r == ovn_resource(OrchestrationResourceNetwork::ACL(*self)),
    {
        to_ovn_resource(OrchestrationResourceNetwork::ACL(self.duplicate()))
    }
}

} // verus!
