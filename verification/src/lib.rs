//! Verified core of the kvm-compose testbed orchestrator: the OVN logical network model,
//! the commands that realise it, and the decisions taken while deploying guests.

pub mod text;
pub mod ip_addr;
pub mod ovn;
pub mod orchestration;
pub mod state;
pub mod snapshot;
pub mod packet_capture;
pub mod docker_client;
pub mod client;

