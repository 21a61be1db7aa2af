use kvm_compose::ip_addr::{IpAddr, Ipv4Addr};
use kvm_compose::ovn::LogicalOperationResult;
use kvm_compose::ovn::components::{MacAddress, OvnIpAddr};
use kvm_compose::ovn::configuration::nat_rule::OvnNatType;
use kvm_compose::ovn::ovn_state::OvnNetwork;
use kvm_compose::state::StateNetwork;

fn v4(a: u8, b: u8, c: u8, d: u8) -> IpAddr {
    IpAddr::V4(Ipv4Addr::new(a, b, c, d))
}

fn mac(text: &str) -> MacAddress {
    MacAddress::new(text.into()).unwrap()
}

#[test]
fn each_component_added_then_deleted_leaves_the_network_as_it_was() {
    let mut ovn = OvnNetwork::new();
    ovn.add_router("lr0".into()).unwrap();
    ovn.del_router(&"lr0".into()).unwrap();
    assert!(ovn.routers.is_empty());

    ovn.add_switch("sw0".into(), v4(10, 0, 0, 0), 24).unwrap();
    ovn.add_lsp_localnet("sw0-public".into(), "sw0".into(), "public".into()).unwrap();
    ovn.del_lsp(&"sw0-public".into()).unwrap();
    assert!(ovn.switch_ports.is_empty());
    assert_eq!(ovn.switches.len(), 1);

    ovn.add_router("lr0".into()).unwrap();
    ovn.add_lrp("lr0-port0".into(), "lr0".into(), mac("00:00:00:00:00:04"), v4(10, 0, 0, 1), 24, None).unwrap();
    ovn.del_lrp(&"lr0-port0".into()).unwrap();
    assert!(ovn.router_ports.is_empty());
    assert_eq!(ovn.routers.len(), 1);

    ovn.ovs_add_port("ovs0".into(), "br-int".into(), "sw0-port0".into(), "chassis0".into()).unwrap();
    ovn.ovs_del_port(&"ovs0".into()).unwrap();
    assert!(ovn.ovs_ports.is_empty());
}

#[test]
fn a_second_add_under_the_same_name_is_refused_and_changes_nothing() {
    let mut ovn = OvnNetwork::new();
    ovn.add_router("lr0".into()).unwrap();
    assert_eq!(ovn.add_router("lr0".into()), Err(LogicalOperationResult::AlreadyExists { name: "lr0".into() }));
    assert_eq!(ovn.routers.len(), 1);

    ovn.add_lrp("lr0-port0".into(), "lr0".into(), mac("00:00:00:00:00:04"), v4(10, 0, 0, 1), 24, None).unwrap();
    assert_eq!(
        ovn.add_lrp("lr0-port0".into(), "lr0".into(), mac("00:00:00:00:00:05"), v4(10, 0, 1, 1), 24, None),
        Err(LogicalOperationResult::AlreadyExists { name: "lr0-port0".into() })
    );
    assert_eq!(ovn.router_ports.len(), 1);
    assert_eq!(ovn.router_ports[0].mac_address, mac("00:00:00:00:00:04"));

    ovn.ovs_add_port("ovs0".into(), "br-int".into(), "sw0-port0".into(), "chassis0".into()).unwrap();
    assert_eq!(
        ovn.ovs_add_port("ovs0".into(), "br-ex".into(), "sw0-port1".into(), "chassis1".into()),
        Err(LogicalOperationResult::AlreadyExists { name: "ovs0".into() })
    );
    assert_eq!(ovn.ovs_ports.len(), 1);
    assert_eq!(ovn.ovs_ports[0].integration_bridge_name, "br-int");
}

#[test]
fn the_destroy_plan_holds_the_items_of_the_create_plan() {
    let mut ovn = OvnNetwork::new();
    ovn.add_switch("sw0".into(), v4(10, 0, 0, 0), 24).unwrap();
    ovn.add_router("lr0".into()).unwrap();
    ovn.add_lrp("lr0-port0".into(), "lr0".into(), mac("00:00:00:00:00:04"), v4(10, 0, 0, 1), 24, None).unwrap();
    ovn.add_lsp_router("sw0-port0".into(), "sw0".into(), mac("router"), "lr0-port0".into()).unwrap();
    ovn.add_lsp_localnet("sw0-public".into(), "sw0".into(), "public".into()).unwrap();
    ovn.ovs_add_port("ovs0".into(), "br-int".into(), "sw0-port0".into(), "chassis0".into()).unwrap();
    ovn.lr_route_add("lr0".into(), OvnIpAddr::Subnet { ip: v4(20, 0, 0, 0), mask: 24 }, v4(10, 0, 0, 254)).unwrap();
    ovn.lr_add_nat("lr0".into(), OvnNatType::SNat, OvnIpAddr::Ip(v4(172, 16, 0, 1)), OvnIpAddr::Subnet { ip: v4(10, 0, 0, 0), mask: 24 })
        .unwrap();
    let net = StateNetwork::Ovn(ovn);
    let create = net.create_action();
    let destroy = net.destroy_action();
    assert_eq!(create.len(), 8);
    assert_eq!(create.len(), destroy.len());
    for item in create.iter() {
        assert_eq!(create.iter().filter(|i| *i == item).count(), destroy.iter().filter(|i| *i == item).count());
    }
}

#[test]
fn a_mac_address_built_from_a_number_reads_back_as_that_number() {
    for n in [1u64, 255, 0xabcdef, 280375465082880, 0xffff_ffff_ffff, 0x1_0000_0000_0001] {
        let built = MacAddress::from_u64(n).unwrap();
        let read = MacAddress::new(built.address.clone()).unwrap();
        assert_eq!(read, built);
        assert_eq!(read.as_bytes, Some(n % 0x1_0000_0000_0000));
    }
}

#[test]
fn a_route_just_added_is_found_again() {
    let mut ovn = OvnNetwork::new();
    ovn.add_router("lr0".into()).unwrap();
    let prefix = OvnIpAddr::Subnet { ip: v4(20, 0, 0, 0), mask: 24 };
    ovn.lr_route_add("lr0".into(), prefix, v4(10, 0, 0, 254)).unwrap();
    let route = ovn.route_rule_get(&"lr0".into(), &prefix, &v4(10, 0, 0, 254)).unwrap();
    assert_eq!(route.router_name, "lr0");
    assert_eq!(route.prefix, prefix);
    assert_eq!(route.next_hop, OvnIpAddr::Ip(v4(10, 0, 0, 254)));
}
