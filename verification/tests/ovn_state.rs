use kvm_compose::ip_addr::{IpAddr, Ipv4Addr};
use kvm_compose::ovn::LogicalOperationResult;
use kvm_compose::ovn::components::{MacAddress, OvnIpAddr};
use kvm_compose::ovn::components::acl::{ACLAction, ACLDirection, ACLRecordType, ACLRule};
use kvm_compose::ovn::configuration::dhcp::DhcpDatabaseEntry;
use std::collections::hash_map::DefaultHasher;
use std::hash::{Hash, Hasher};
use kvm_compose::ovn::configuration::nat_rule::OvnNatType;
use kvm_compose::ovn::ovn_state::OvnNetwork;

fn hash_of(entry: &DhcpDatabaseEntry) -> u64 {
    let mut s = DefaultHasher::new();
    entry.hash(&mut s);
    s.finish()
}

fn v4(a: u8, b: u8, c: u8, d: u8) -> IpAddr {
    IpAddr::V4(Ipv4Addr::new(a, b, c, d))
}

#[test]
fn test_switch_and_ports() -> Result<(), LogicalOperationResult> {
    let mut ovn = OvnNetwork::new();
    ovn.add_switch("sw0".into(), v4(10, 0, 0, 0), 24)?;
    let op_res = ovn.add_switch("sw0".into(), v4(20, 10, 10, 0), 24);
    assert_eq!(op_res, Err(LogicalOperationResult::AlreadyExists { name: "sw0".to_string() }));
    ovn.add_lsp_internal(
        "sw0-port0".into(),
        "sw0".into(),
        "ovs-sw0-port0".into(),
        OvnIpAddr::Ip(v4(10, 0, 0, 2)),
        Some("ovn".into()),
        MacAddress::new("00:00:00:00:00:01".into()).unwrap(),
        Some("public".into()),
    )?;
    let op_res = ovn.add_lsp_internal(
        "sw0-port0".into(),
        "sw0".into(),
        "ovs-sw0-port0".into(),
        OvnIpAddr::Ip(v4(10, 0, 0, 2)),
        Some("ovn".into()),
        MacAddress::new("00:00:00:00:00:02".into()).unwrap(),
        Some("public".into()),
    );
    assert_eq!(op_res, Err(LogicalOperationResult::AlreadyExists { name: "sw0-port0".to_string() }));
    let op_res = ovn.add_lsp_internal(
        "sw1-port0".into(),
        "sw1".into(),
        "ovs-sw1-port0".into(),
        OvnIpAddr::Ip(v4(10, 0, 0, 2)),
        Some("ovn".into()),
        MacAddress::new("00:00:00:00:00:02".into()).unwrap(),
        Some("public".into()),
    );
    assert_eq!(op_res, Err(LogicalOperationResult::ParentDoesNotExist { name: "sw1-port0".to_string(), parent: "sw1".to_string() }));
    ovn.add_lsp_router("sw0-port1".into(), "sw0".into(), MacAddress::new("00:00:00:00:00:02".into()).unwrap(), "lr0-port0".into())?;
    let op_res = ovn.add_lsp_router("sw0-port1".into(), "sw0".into(), MacAddress::new("00:00:00:00:00:02".into()).unwrap(), "lr0-port0".into());
    assert_eq!(op_res, Err(LogicalOperationResult::AlreadyExists { name: "sw0-port1".to_string() }));
    let op_res = ovn.add_lsp_router("sw0-port1".into(), "sw1".into(), MacAddress::new("00:00:00:00:00:02".into()).unwrap(), "lr0-port0".into());
    assert_eq!(op_res, Err(LogicalOperationResult::ParentDoesNotExist { name: "sw0-port1".to_string(), parent: "sw1".to_string() }));
    ovn.add_lsp_localnet("sw0-port2".into(), "sw0".into(), "public".into())?;
    let op_res = ovn.add_lsp_localnet("sw0-port2".into(), "sw0".into(), "public".into());
    assert_eq!(op_res, Err(LogicalOperationResult::AlreadyExists { name: "sw0-port2".to_string() }));
    let op_res = ovn.add_lsp_localnet("sw0-port2".into(), "sw1".into(), "public".into());
    assert_eq!(op_res, Err(LogicalOperationResult::ParentDoesNotExist { name: "sw0-port2".to_string(), parent: "sw1".to_string() }));

    let op_res = ovn.del_switch(&"sw0".into());
    assert_eq!(op_res, Err(LogicalOperationResult::HasChildren { name: "sw0".to_string() }));
    ovn.del_lsp(&"sw0-port2".into())?;
    ovn.del_lsp(&"sw0-port1".into())?;
    ovn.del_lsp(&"sw0-port0".into())?;
    let op_res = ovn.del_lsp(&"sw0-port0".into());
    assert_eq!(op_res, Err(LogicalOperationResult::DoesNotExist { name: "sw0-port0".to_string() }));
    ovn.del_switch(&"sw0".into())?;
    let op_res = ovn.del_switch(&"sw0".into());
    assert_eq!(op_res, Err(LogicalOperationResult::DoesNotExist { name: "sw0".to_string() }));
    Ok(())
}

#[test]
fn test_router_and_ports() -> Result<(), LogicalOperationResult> {
    let mut ovn = OvnNetwork::new();
    ovn.add_router("lr0".into())?;
    let op_res = ovn.add_router("lr0".into());
    assert_eq!(op_res, Err(LogicalOperationResult::AlreadyExists { name: "lr0".to_string() }));
    ovn.add_lrp("lr0-port0".into(), "lr0".into(), MacAddress::new("00:00:00:00:00:01".into()).unwrap(), v4(10, 0, 0, 1), 24, Some("ovn".into()))?;
    let op_res = ovn.add_lrp("lr0-port0".into(), "lr0".into(), MacAddress::new("00:00:00:00:00:02".into()).unwrap(), v4(10, 0, 0, 1), 24, Some("ovn".into()));
    assert_eq!(op_res, Err(LogicalOperationResult::AlreadyExists { name: "lr0-port0".to_string() }));
    let op_res = ovn.add_lrp("lr0-port0".into(), "lr1".into(), MacAddress::new("00:00:00:00:00:03".into()).unwrap(), v4(10, 0, 0, 1), 24, Some("ovn".into()));
    assert_eq!(op_res, Err(LogicalOperationResult::ParentDoesNotExist { name: "lr0-port0".to_string(), parent: "lr1".to_string() }));
    let op_res = ovn.del_router(&"lr0".into());
    assert_eq!(op_res, Err(LogicalOperationResult::HasChildren { name: "lr0".to_string() }));
    ovn.del_lrp(&"lr0-port0".into())?;
    let op_res = ovn.del_lrp(&"lr0-port0".into());
    assert_eq!(op_res, Err(LogicalOperationResult::DoesNotExist { name: "lr0-port0".to_string() }));
    ovn.del_router(&"lr0".into())?;
    let op_res = ovn.del_router(&"lr0".into());
    assert_eq!(op_res, Err(LogicalOperationResult::DoesNotExist { name: "lr0".to_string() }));
    Ok(())
}

#[test]
fn ovn_state_test_ovs_port() -> Result<(), LogicalOperationResult> {
    let mut ovn = OvnNetwork::new();
    ovn.ovs_add_port("ovs-sw0-port0".into(), "br-int".into(), "sw0-port0".into(), "ovn".into())?;
    let op_res = ovn.ovs_add_port("ovs-sw0-port0".into(), "br-int".into(), "sw0-port0".into(), "ovn".into());
    assert_eq!(op_res, Err(LogicalOperationResult::AlreadyExists { name: "ovs-sw0-port0".to_string() }));
    ovn.ovs_del_port(&"ovs-sw0-port0".into())?;
    let op_res = ovn.ovs_del_port(&"ovs-sw0-port0".into());
    assert_eq!(op_res, Err(LogicalOperationResult::DoesNotExist { name: "ovs-sw0-port0".to_string() }));
    Ok(())
}

#[test]
fn test_dhcp() -> Result<(), LogicalOperationResult> {
    let mut ovn = OvnNetwork::new();
    ovn.add_switch("sw0".into(), v4(10, 0, 0, 0), 24)?;
    ovn.add_lsp_internal("sw0-port0".into(), "sw0".into(), "ovs-sw0-port0".into(), OvnIpAddr::Dynamic, Some("ovn".into()),
        MacAddress::new("00:00:00:00:00:01".into()).unwrap(), Some("public".into()))?;
    ovn.add_lsp_internal("sw0-port1".into(), "sw0".into(), "ovs-sw0-port1".into(), OvnIpAddr::Ip(v4(10, 0, 0, 10)), Some("ovn".into()),
        MacAddress::new("00:00:00:00:00:02".into()).unwrap(), Some("public".into()))?;
    ovn.add_lsp_internal("sw0-port2".into(), "sw0".into(), "ovs-sw0-port0".into(), OvnIpAddr::Dynamic, Some("ovn".into()),
        MacAddress::new("00:00:00:00:00:03".into()).unwrap(), Some("public".into()))?;
    ovn.add_router("lr0".into())?;
    ovn.add_lrp("lr0-port0".into(), "lr0".into(), MacAddress::new("00:00:00:00:00:04".into()).unwrap(), v4(10, 0, 0, 1), 24, Some("ovn".into()))?;
    ovn.add_lsp_router("sw0-port3".into(), "sw0".into(), MacAddress::new("router".into()).unwrap(), "lr0-port0".into())?;
    ovn.add_dhcp_option(&"lr0".into(), &"sw0".into(), "10.0.0.1..10.0.0.10")?;
    ovn.switch_get(&"sw0".into()).unwrap();
    let switch_port_1 = ovn.switch_port_get(&"sw0-port0".into()).unwrap();
    let switch_port_2 = ovn.switch_port_get(&"sw0-port1".into()).unwrap();
    let switch_port_3 = ovn.switch_port_get(&"sw0-port2".into()).unwrap();
    assert_eq!(ovn.dhcp_options.len(), 1);
    let dhcp_option = &ovn.dhcp_options[0];
    println!("{:?}", dhcp_option);
    let dhcp_hash = hash_of(dhcp_option);
    assert_eq!(switch_port_1.dhcp_options_uuid.unwrap(), dhcp_hash);
    assert!(switch_port_2.dhcp_options_uuid.is_none());
    assert_eq!(switch_port_3.dhcp_options_uuid.unwrap(), dhcp_hash);
    let dhcp = DhcpDatabaseEntry {
        cidr: OvnIpAddr::Subnet { ip: v4(10, 0, 0, 0), mask: 24 },
        lease_time: "3600".to_string(),
        router: "10.0.0.1".into(),
        server_id: "10.0.0.1".into(),
        server_mac: MacAddress::new("00:00:00:00:00:04".into()).unwrap(),
    };
    let dhcp_hash = hash_of(&dhcp);
    assert_eq!(switch_port_1.dhcp_options_uuid.unwrap(), dhcp_hash);
    assert_eq!(switch_port_3.dhcp_options_uuid.unwrap(), dhcp_hash);

    let res = ovn.add_dhcp_option(&"lr1".into(), &"sw0".into(), "10.0.0.1..10.0.0.10");
    assert!(res.is_err());
    let res = ovn.add_dhcp_option(&"lr0".into(), &"sw1".into(), "10.0.0.1..10.0.0.10");
    assert!(res.is_err());
    Ok(())
}

#[test]
fn test_lsp_pair() -> Result<(), LogicalOperationResult> {
    let mut ovn = OvnNetwork::new();
    ovn.add_switch("sw0".into(), v4(10, 0, 0, 0), 24)?;
    ovn.add_router("lr0".into())?;
    ovn.add_lrp("lr0-port0".into(), "lr0".into(), MacAddress::new("00:00:00:00:00:01".into()).unwrap(), v4(10, 0, 0, 1), 24, Some("ovn".into()))?;
    ovn.add_lsp_router("sw0-port0".into(), "sw0".into(), MacAddress::new("00:00:00:00:00:01".into()).unwrap(), "lr0-port0".into())?;
    let pair = ovn.get_lsp_lrp_pair(&"sw0".into(), &"lr0".into())?;
    assert_eq!(pair.0.name, "sw0-port0".to_string());
    assert_eq!(pair.1.name, "lr0-port0".to_string());
    ovn.add_switch("sw1".into(), v4(20, 0, 0, 0), 24)?;
    ovn.add_lrp("lr0-port1".into(), "lr0".into(), MacAddress::new("00:00:00:00:00:02".into()).unwrap(), v4(10, 0, 0, 1), 24, Some("ovn".into()))?;
    ovn.add_lsp_router("sw1-port0".into(), "sw1".into(), MacAddress::new("00:00:00:00:00:02".into()).unwrap(), "lr0-port1".into())?;
    let pair = ovn.get_lsp_lrp_pair(&"sw0".into(), &"lr0".into())?;
    assert_eq!(pair.0.name, "sw0-port0".to_string());
    assert_eq!(pair.1.name, "lr0-port0".to_string());
    let pair = ovn.get_lsp_lrp_pair(&"sw1".into(), &"lr0".into())?;
    assert_eq!(pair.0.name, "sw1-port0".to_string());
    assert_eq!(pair.1.name, "lr0-port1".to_string());
    ovn.add_router("lr1".into())?;
    let pair = ovn.get_lsp_lrp_pair(&"sw0".into(), &"lr1".into());
    assert!(pair.is_err());
    let pair = ovn.get_lsp_lrp_pair(&"sw0".into(), &"lr0".into())?;
    assert_eq!(pair.0.name, "sw0-port0".to_string());
    assert_eq!(pair.1.name, "lr0-port0".to_string());
    let pair = ovn.get_lsp_lrp_pair(&"sw1".into(), &"lr0".into())?;
    assert_eq!(pair.0.name, "sw1-port0".to_string());
    assert_eq!(pair.1.name, "lr0-port1".to_string());
    Ok(())
}

fn drop_rule() -> ACLRule {
    ACLRule { direction: ACLDirection::ToLport, priority: 10, _match: "".to_string(), action: ACLAction::AllowRelated }
}

#[test]
fn test_acl_success() -> Result<(), LogicalOperationResult> {
    let mut ovn = OvnNetwork::new();
    let acl_name = "ovn-sw0-to-lport-drop-10".to_string();
    let rule = drop_rule();
    ovn.add_switch_acl(&acl_name, "sw0".to_string(), ACLRecordType::Switch, &rule)?;
    Ok(())
}

#[test]
fn test_acl_fail() -> Result<(), LogicalOperationResult> {
    let mut ovn = OvnNetwork::new();
    let acl_name = "ovn-sw0-to-lport-drop-10".to_string();
    let rule = drop_rule();
    ovn.add_switch_acl(&acl_name, "sw0".to_string(), ACLRecordType::Switch, &rule)?;
    let res = ovn.add_switch_acl(&acl_name, "sw0".to_string(), ACLRecordType::Switch, &rule);
    assert_eq!(res, Err(LogicalOperationResult::AlreadyExists { name: "ovn-sw0-to-lport-drop-10".to_string() }));
    Ok(())
}

#[test]
fn switch_add_then_delete_leaves_network_empty() {
    let mut ovn = OvnNetwork::new();
    ovn.add_switch("sw0".into(), v4(10, 0, 0, 0), 24).unwrap();
    assert_eq!(ovn.switches.len(), 1);
    ovn.del_switch(&"sw0".into()).unwrap();
    assert!(ovn.switches.is_empty());
}

#[test]
fn dhcp_errors_follow_the_order_of_checks() {
    let mut ovn = OvnNetwork::new();
    assert_eq!(ovn.add_dhcp_option(&"lr0".into(), &"sw0".into(), "x"), Err(LogicalOperationResult::DoesNotExist { name: "sw0".into() }));
    ovn.add_switch("sw0".into(), v4(10, 0, 0, 0), 24).unwrap();
    assert_eq!(ovn.add_dhcp_option(&"lr0".into(), &"sw0".into(), "x"), Err(LogicalOperationResult::DoesNotExist { name: "lr0".into() }));
    ovn.add_router("lr0".into()).unwrap();
    assert_eq!(
        ovn.add_dhcp_option(&"lr0".into(), &"sw0".into(), "x"),
        Err(LogicalOperationResult::Error { msg: "Could not find LSP type route and LRP pair for switch sw0 and router lr0".into() })
    );
    ovn.add_lrp("lr0-port0".into(), "lr0".into(), MacAddress::new("00:00:00:00:00:04".into()).unwrap(), v4(10, 0, 0, 1), 24, None).unwrap();
    ovn.add_lsp_router("sw0-port3".into(), "sw0".into(), MacAddress::new("router".into()).unwrap(), "lr0-port0".into()).unwrap();
    assert_eq!(
        ovn.add_dhcp_option(&"lr0".into(), &"sw0".into(), "x"),
        Err(LogicalOperationResult::Error { msg: "the switch sw0 did not have any internal switch ports with a dynamic ip".into() })
    );
}

#[test]
fn routes_gateways_and_nat_rules() {
    let mut ovn = OvnNetwork::new();
    let prefix = OvnIpAddr::Subnet { ip: v4(20, 0, 0, 0), mask: 24 };
    let res = ovn.lr_route_add("lr0".into(), prefix, v4(10, 0, 0, 254));
    assert_eq!(res, Err(LogicalOperationResult::ParentDoesNotExist {
        name: "Route(prefix: Subnet { ip: V4(20.0.0.0), mask: 24 }, next hop: V4(10.0.0.254))".into(),
        parent: "lr0".into(),
    }));
    let res = ovn.lr_route_add("lr0".into(), OvnIpAddr::Dynamic, v4(10, 0, 0, 254));
    assert_eq!(res, Err(LogicalOperationResult::Error { msg: "Could not create OvnRoute, incorrect configuration: Err(cannot be dynamic ip)".into() }));
    ovn.add_router("lr0".into()).unwrap();
    ovn.lr_route_add("lr0".into(), prefix, v4(10, 0, 0, 254)).unwrap();
    ovn.lr_route_add("lr0".into(), prefix, v4(10, 0, 0, 254)).unwrap();
    assert_eq!(ovn.routers[0].routing.0.len(), 1);
    let route = ovn.route_rule_get(&"lr0".into(), &prefix, &v4(10, 0, 0, 254)).unwrap();
    assert_eq!(route.next_hop, OvnIpAddr::Ip(v4(10, 0, 0, 254)));
    assert!(ovn.route_rule_get(&"lr0".into(), &prefix, &v4(10, 0, 0, 253)).is_err());

    let res = ovn.lrp_add_external_gateway("lr9".into(), "lr9-public".into(), "ovn".into());
    assert_eq!(res, Err(LogicalOperationResult::ParentDoesNotExist {
        name: "ExternalGateway(router_port_name: \"lr9-public\", chassis_name: \"ovn\")".into(),
        parent: "lr9".into(),
    }));
    ovn.lrp_add_external_gateway("lr0".into(), "lr0-public".into(), "ovn".into()).unwrap();
    assert_eq!(ovn.routers[0].external_gateway.0.len(), 1);

    let ext = OvnIpAddr::Ip(v4(172, 16, 0, 10));
    let res = ovn.lr_add_nat("lr0".into(), OvnNatType::SNat, OvnIpAddr::Subnet { ip: v4(172, 16, 0, 0), mask: 24 }, prefix);
    assert_eq!(res, Err(LogicalOperationResult::Error { msg: "Could not create OvnNat, incorrect configuration: Err(cannot be subnet ip)".into() }));
    let res = ovn.lr_add_nat("lr0".into(), OvnNatType::SNat, ext, OvnIpAddr::Dynamic);
    assert_eq!(res, Err(LogicalOperationResult::Error { msg: "Could not create OvnNat, incorrect configuration: Err(cannot be dynamic ip)".into() }));
    let res = ovn.lr_add_nat("lr9".into(), OvnNatType::DnatSNat, ext, prefix);
    assert_eq!(res, Err(LogicalOperationResult::ParentDoesNotExist {
        name: "ExternalGateway(external_ip: Ip(V4(172.16.0.10)), logical_ip: Subnet { ip: V4(20.0.0.0), mask: 24 } nat_type: DnatSNat)".into(),
        parent: "lr9".into(),
    }));
    ovn.lr_add_nat("lr0".into(), OvnNatType::SNat, ext, prefix).unwrap();
    assert_eq!(ovn.routers[0].nat.0.len(), 1);
    assert_eq!(ovn.routers[0].nat.0[0].0 .1, "snat");
}

#[test]
fn validate_reports_the_first_shared_address() {
    let mut ovn = OvnNetwork::new();
    ovn.add_switch("sw0".into(), v4(10, 0, 0, 0), 24).unwrap();
    ovn.add_lsp_internal("a".into(), "sw0".into(), "ovs-a".into(), OvnIpAddr::Dynamic, None,
        MacAddress::new("00:00:00:00:00:01".into()).unwrap(), None).unwrap();
    ovn.add_lsp_internal("b".into(), "sw0".into(), "ovs-b".into(), OvnIpAddr::Dynamic, None,
        MacAddress::new("00:00:00:00:00:02".into()).unwrap(), None).unwrap();
    ovn.add_lsp_internal("c".into(), "sw0".into(), "ovs-c".into(), OvnIpAddr::Ip(v4(10, 0, 0, 1)), None,
        MacAddress::new("00:00:00:00:00:03".into()).unwrap(), None).unwrap();
    assert!(ovn.validate().is_ok());
    ovn.add_router("lr0".into()).unwrap();
    ovn.add_lrp("lr0-port0".into(), "lr0".into(), MacAddress::new("00:00:00:00:00:04".into()).unwrap(), v4(10, 0, 0, 1), 24, None).unwrap();
    assert_eq!(ovn.validate(), Err("ports c and lr0-port0 both have the same ip 10.0.0.1".to_string()));
}

#[test]
fn getters_report_missing_components() {
    let mut ovn = OvnNetwork::new();
    assert_eq!(ovn.router_get(&"lr0".into()).err(), Some(LogicalOperationResult::DoesNotExist { name: "lr0".into() }));
    ovn.add_lrp("p".into(), "lr0".into(), MacAddress::new("00:00:00:00:00:04".into()).unwrap(), v4(10, 0, 0, 1), 24, None).unwrap_err();
    ovn.ovs_add_port("o".into(), "br-int".into(), "p".into(), "ovn".into()).unwrap();
    ovn.ovs_port_get_mut(&"o".into()).unwrap().chassis = "other".into();
    assert_eq!(ovn.ovs_port_get(&"o".into()).unwrap().chassis, "other");
}

#[test]
fn components_are_changed_in_place_through_their_getters() {
    let mut ovn = OvnNetwork::new();
    ovn.add_switch("sw0".into(), v4(10, 0, 0, 0), 24).unwrap();
    ovn.switch_get_mut(&"sw0".into()).unwrap().subnet = OvnIpAddr::Subnet { ip: v4(10, 1, 0, 0), mask: 16 };
    assert_eq!(ovn.switches[0].subnet.to_string(), "10.1.0.0/16");
    ovn.add_lsp_localnet("sw0-public".into(), "sw0".into(), "public".into()).unwrap();
    ovn.switch_port_get_mut(&"sw0-public".into()).unwrap().dhcp_options_uuid = Some(9);
    assert_eq!(ovn.switch_ports[0].dhcp_options_uuid, Some(9));
    ovn.add_router("lr0".into()).unwrap();
    ovn.router_get_mut(&"lr0".into()).unwrap().name = "lr0".into();
    assert!(ovn.router_get_mut(&"lr1".into()).is_err());
    ovn.add_lrp("lr0-port0".into(), "lr0".into(), MacAddress::new("00:00:00:00:00:04".into()).unwrap(), v4(10, 0, 0, 1), 24, None).unwrap();
    assert_eq!(ovn.router_port_get(&"lr0-port0".into()).unwrap().parent_router, "lr0");
    assert_eq!(ovn.router_port_get(&"lr0-port1".into()).err(), Some(LogicalOperationResult::DoesNotExist { name: "lr0-port1".into() }));
    ovn.router_port_get_mut(&"lr0-port0".into()).unwrap().chassis_name = Some("ovn".into());
    assert_eq!(ovn.router_ports[0].chassis_name, Some("ovn".to_string()));
    let prefix = OvnIpAddr::Subnet { ip: v4(20, 0, 0, 0), mask: 24 };
    ovn.lr_route_add("lr0".into(), prefix, v4(10, 0, 0, 254)).unwrap();
    let route = ovn.route_rule_get_mut(&"lr0".into(), &prefix, &v4(10, 0, 0, 254)).unwrap();
    assert_eq!(route.router_name, "lr0");
    assert!(ovn.route_rule_get_mut(&"lr0".into(), &prefix, &v4(10, 0, 0, 253)).is_err());
}
