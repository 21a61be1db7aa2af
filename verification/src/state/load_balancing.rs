//! How bridges and guests are spread over the testbed hosts.

use vstd::prelude::*;

verus! {

/// A connection between two bridges: a virtual ethernet pair on one host, or a tunnel between
/// two hosts.
#[derive(Debug, Clone)]
pub enum BridgeConnection {
    Ovs {
        name: String,
        source_br: String,
        target_br: String,
        source_veth: String,
        target_veth: String,
        ip: Option<String>,
        testbed_host: String,
    },
    Tunnel {
        source_br: String,
        target_br: String,
        source_remote_ip: Option<String>,
        target_remote_ip: Option<String>,
        key: Option<String>,
        source_br_ip: Option<String>,
        target_br_ip: Option<String>,
        testbed_host_source: String,
        testbed_host_target: String,
    },
}

/// The host each bridge and each guest is placed on, in the order of their names.
#[derive(Debug, Clone)]
pub struct LoadBalancedTopology {
    pub bridge_host_map: Vec<(String, String)>,
    pub guest_host_map: Vec<(String, String)>,
}

} // verus!
