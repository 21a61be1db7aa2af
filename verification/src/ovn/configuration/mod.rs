//! Optional configuration applied to OVN components: DHCP, external gateways, NAT and routes.

pub mod dhcp;
pub mod external_gateway;
pub mod nat_rule;
pub mod route;
