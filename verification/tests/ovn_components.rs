use kvm_compose::ovn::OvnCommand;
use kvm_compose::ip_addr::{IpAddr, Ipv4Addr};
use kvm_compose::ovn::components::{MacAddress, MacAddressError, OvnIpAddr, validate_mac};
use kvm_compose::ovn::components::acl::{ACLAction, ACLDirection, ACLRecordType, LogicalACLRecord};
use kvm_compose::ovn::components::logical_router::LogicalRouter;
use kvm_compose::ovn::components::logical_router_port::LogicalRouterPort;
use kvm_compose::ovn::components::logical_switch::LogicalSwitch;
use kvm_compose::ovn::components::logical_switch_port::{LogicalSwitchPort, LogicalSwitchPortType};
use kvm_compose::ovn::components::ovs::OvsPort;
use kvm_compose::ovn::configuration::dhcp::SwitchDhcpOptions;
use kvm_compose::ovn::configuration::external_gateway::OvnExternalGateway;
use kvm_compose::text::join_words;

fn words(v: &[&str]) -> String {
    v.join(" ")
}

#[test]
fn test_create_mac() {
    let mac = MacAddress::new("00:00:00:00:00:03".into());
    assert!(mac.is_ok());
    assert_eq!(mac.as_ref().unwrap().address, "00:00:00:00:00:03".to_string());
    assert!(mac.as_ref().unwrap().as_bytes.is_some());
    assert_eq!(mac.unwrap().as_bytes.unwrap(), 3u64);

    let mac = MacAddress::new("router".into());
    assert!(mac.is_ok());
    assert_eq!(mac.as_ref().unwrap().address, "router".to_string());
    assert!(mac.as_ref().unwrap().as_bytes.is_none());

    let mac = MacAddress::new("asdf".into());
    assert!(mac.is_err());
}

#[test]
fn test_get_octets_48bit_mac() {
    let mac = vec!["00", "00", "00", "00", "00", "00"];
    let mac_bytes = MacAddress::get_octets(mac);
    let expected_mac = [0, 0, 0, 0, 0, 0];
    assert_eq!(mac_bytes, expected_mac);

    let mac = vec!["ff", "ff", "ff", "ff", "ff", "ff"];
    let mac_bytes = MacAddress::get_octets(mac);
    let expected_mac = [255, 255, 255, 255, 255, 255];
    assert_eq!(mac_bytes, expected_mac);
}

#[test]
fn test_mac_as_bytes_48bit() {
    let mac_bytes = MacAddress::get_mac_as_bytes(&"00:00:00:00:00:00".into());
    assert!(mac_bytes.is_ok());
    assert_eq!(mac_bytes.unwrap(), 0u64);

    let mac_bytes = MacAddress::get_mac_as_bytes(&"00:00:00:00:00:ff".into());
    assert!(mac_bytes.is_ok());
    assert_eq!(mac_bytes.unwrap(), 255u64);

    let mac_bytes = MacAddress::get_mac_as_bytes(&"ff:00:00:00:00:00".into());
    assert!(mac_bytes.is_ok());
    assert_eq!(mac_bytes.unwrap(), 280375465082880u64);
}

#[test]
fn test_bad_mac_as_bytes() {
    let mac_bytes = MacAddress::get_mac_as_bytes(&"00:00:00:00:00".into());
    assert!(mac_bytes.is_err());
    let mac_bytes = MacAddress::get_mac_as_bytes(&"00:00:00:00:00:00:00:00:00".into());
    assert!(mac_bytes.is_err());
    let mac_bytes = MacAddress::get_mac_as_bytes(&"00;00;00;00;00;00;00".into());
    assert!(mac_bytes.is_err());
}

#[test]
fn test_from_u64() {
    let mac = MacAddress::from_u64(1u64);
    assert!(mac.is_ok());
    assert_eq!(mac.as_ref().unwrap().address, "00:00:00:00:00:01".to_string());
    assert!(mac.as_ref().unwrap().as_bytes.is_some());
    assert_eq!(mac.unwrap().as_bytes.unwrap(), 1u64);

    let mac = MacAddress::from_u64(280375465082880u64);
    assert!(mac.is_ok());
    assert_eq!(mac.as_ref().unwrap().address, "ff:00:00:00:00:00".to_string());
    assert!(mac.as_ref().unwrap().as_bytes.is_some());
    assert_eq!(mac.unwrap().as_bytes.unwrap(), 280375465082880u64);
}

#[test]
fn test_mac_cant_be_0() {
    let mac = MacAddress::new("00:00:00:00:00:00".into());
    assert!(mac.is_err());
    let mac = MacAddress::from_u64(0u64);
    assert!(mac.is_err());
}

#[test]
fn mac_errors_name_the_reason() {
    assert_eq!(MacAddress::new("00:00:00:00:00:00".into()).unwrap_err(), MacAddressError::AllZero);
    assert_eq!(MacAddress::new("asdf".into()).unwrap_err(), MacAddressError::OctetLength);
    assert_eq!(MacAddress::new("00:00:00:00:01".into()).unwrap_err(), MacAddressError::NotSixOctets);
    let not_hex = MacAddress::new("zz:00:00:00:00:01".to_string());
    assert!(not_hex.is_err());
    assert_eq!(not_hex.unwrap_err(), MacAddressError::NotHexadecimal);
    assert_eq!(MacAddress::get_mac_as_bytes(&"00:00:00:00:00:g1".to_string()), Err(MacAddressError::NotHexadecimal));
    assert_eq!(MacAddress::from_u64(0).unwrap_err(), MacAddressError::ZeroNumber);
    assert_eq!(MacAddress::from_u64(1u64 << 48).unwrap_err(), MacAddressError::AllZero);
}

#[test]
fn mac_from_u64_keeps_low_48_bits_and_reads_back() {
    let mac = MacAddress::from_u64((1u64 << 48) + 0x0a0b0c0d0e0f).unwrap();
    assert_eq!(mac.address, "0a:0b:0c:0d:0e:0f");
    assert_eq!(mac.as_bytes, Some(0x0a0b0c0d0e0f));
    let back = MacAddress::new(mac.get_string()).unwrap();
    assert_eq!(back.as_bytes, Some(0x0a0b0c0d0e0f));
}

#[test]
fn mac_validation_checks_two_byte_octets() {
    assert!(validate_mac(&"00:11:22:33:44:55".to_string()));
    assert!(!validate_mac(&"0:11:22:33:44:55".to_string()));
    assert!(!validate_mac(&"001:11:22:33:44:55".to_string()));
}

#[test]
fn ovn_ip_text_forms() {
    let ip = IpAddr::V4(Ipv4Addr::new(10, 0, 0, 1));
    assert_eq!(OvnIpAddr::Ip(ip).to_string(), "10.0.0.1");
    assert_eq!(OvnIpAddr::Dynamic.to_string(), "dynamic");
    assert_eq!(OvnIpAddr::Subnet { ip, mask: 24 }.to_string(), "10.0.0.1/24");
    assert_eq!(OvnIpAddr::Subnet { ip, mask: 24 }.to_debug_string(), "Subnet { ip: V4(10.0.0.1), mask: 24 }");
    assert_eq!(OvnIpAddr::Ip(ip).to_debug_string(), "Ip(V4(10.0.0.1))");
}

#[test]
fn test_logical_switch() {
    let ls = LogicalSwitch::new("sw0".into(), IpAddr::V4(Ipv4Addr::new(10, 0, 0, 0)), 24);
    let expected_add = words(&["ovn-nbctl", "--may-exist", "ls-add", "sw0", "--", "set", "Logical_Switch", "sw0", "other_config:subnet=10.0.0.0/24"]);
    assert_eq!(expected_add, join_words(&ls.create_command()));
    let expected_del = words(&["ovn-nbctl", "ls-del", "sw0"]);
    assert_eq!(expected_del, join_words(&ls.destroy_command()));
}

#[test]
fn test_logical_switch_dhcp() {
    let mut ls = LogicalSwitch::new("sw0".into(), IpAddr::V4(Ipv4Addr::new(10, 0, 0, 0)), 24);
    ls.dhcp = Some(SwitchDhcpOptions { exclude_ips: "10.0.0.1..10.0.0.10".to_string() });
    let expected_add = words(&["ovn-nbctl", "--may-exist", "ls-add", "sw0", "--", "set", "Logical_Switch", "sw0", "other_config:subnet=10.0.0.0/24", "other_config:exclude_ips=10.0.0.1..10.0.0.10"]);
    assert_eq!(expected_add, join_words(&ls.create_command()));
    let expected_del = words(&["ovn-nbctl", "ls-del", "sw0"]);
    assert_eq!(expected_del, join_words(&ls.destroy_command()));
}

#[test]
fn test_logical_router() {
    let lr0 = LogicalRouter::new("lr0".into());
    let create_cmd = join_words(&lr0.create_command());
    let expected_cmd = words(&["ovn-nbctl", "--may-exist", "lr-add", "lr0"]);
    assert_eq!(create_cmd, expected_cmd);
    let destroy_cmd = join_words(&lr0.destroy_command());
    let expected_cmd = words(&["ovn-nbctl", "lr-del", "lr0"]);
    assert_eq!(destroy_cmd, expected_cmd);
}

#[test]
fn test_logical_router_port() {
    let lrp0 = LogicalRouterPort::new(
        "lr0-port0".into(),
        "lr0".into(),
        MacAddress::new("00:00:00:00:ff:01".into()).unwrap(),
        IpAddr::V4(Ipv4Addr::new(10, 0, 0, 1)),
        24,
        None,
    );
    let create_cmd = join_words(&lrp0.create_command());
    let expected_cmd = words(&["ovn-nbctl", "--may-exist", "lrp-add", "lr0", "lr0-port0", "00:00:00:00:ff:01", "10.0.0.1/24"]);
    assert_eq!(create_cmd, expected_cmd);
}

#[test]
fn test_logical_switch_port_internal() {
    let internal = LogicalSwitchPortType::new_internal(
        "ovs-sw0-port0".to_string(),
        OvnIpAddr::Ip(IpAddr::V4(Ipv4Addr::new(10, 0, 0, 2))),
        Some("ovn".to_string()),
        MacAddress::new("00:00:00:00:00:01".into()).unwrap(),
        None,
    );
    let lsp = LogicalSwitchPort::new("sw0-port0".into(), "sw0".into(), internal);
    let expected_cmd = words(&[
        "ovn-nbctl", "--may-exist", "lsp-add", "sw0", "sw0-port0",
        "--", "set", "Logical_Switch_Port", "sw0-port0",
        "addresses=\"00:00:00:00:00:01 10.0.0.2\"", "options:chassis=ovn",
    ]);
    assert_eq!(join_words(&lsp.create_command()), expected_cmd);
    let expected_cmd = words(&["ovn-nbctl", "lsp-del", "sw0-port0"]);
    assert_eq!(join_words(&lsp.destroy_command()), expected_cmd);
}

#[test]
fn test_logical_switch_port_internal_with_provider() {
    let internal = LogicalSwitchPortType::new_internal(
        "ovs-sw0-port0".to_string(),
        OvnIpAddr::Ip(IpAddr::V4(Ipv4Addr::new(10, 0, 0, 2))),
        Some("ovn".to_string()),
        MacAddress::new("00:00:00:00:00:01".into()).unwrap(),
        Some("public".into()),
    );
    let lsp = LogicalSwitchPort::new("sw0-port0".into(), "sw0".into(), internal);
    let expected_cmd = words(&[
        "ovn-nbctl", "--may-exist", "lsp-add", "sw0", "sw0-port0",
        "--", "set", "Logical_Switch_Port", "sw0-port0",
        "addresses=\"00:00:00:00:00:01 10.0.0.2\"", "options:network_name=public,chassis=ovn",
    ]);
    assert_eq!(join_words(&lsp.create_command()), expected_cmd);
    let expected_cmd = words(&["ovn-nbctl", "lsp-del", "sw0-port0"]);
    assert_eq!(join_words(&lsp.destroy_command()), expected_cmd);
}

#[test]
fn test_logical_switch_port_router() {
    let router = LogicalSwitchPortType::new_router("lr0-port0".into(), MacAddress::new("00:00:00:00:ff:01".into()).unwrap());
    let lsp = LogicalSwitchPort::new("sw0-port0".into(), "sw0".into(), router);
    let expected_cmd = words(&[
        "ovn-nbctl", "--may-exist", "lsp-add", "sw0", "sw0-port0",
        "--", "set", "Logical_Switch_Port", "sw0-port0", "type=router",
        "options:router-port=lr0-port0", "addresses=\"00:00:00:00:ff:01\"",
    ]);
    assert_eq!(join_words(&lsp.create_command()), expected_cmd);
    let expected_cmd = words(&["ovn-nbctl", "lsp-del", "sw0-port0"]);
    assert_eq!(join_words(&lsp.destroy_command()), expected_cmd);
}

#[test]
fn test_logical_switch_port_localnet() {
    let localnet = LogicalSwitchPortType::new_localnet("public".into());
    let lsp = LogicalSwitchPort::new("sw0-port0".into(), "sw0".into(), localnet);
    let expected_cmd = words(&[
        "ovn-nbctl", "--may-exist", "lsp-add", "sw0", "sw0-port0",
        "--", "set", "Logical_Switch_Port", "sw0-port0", "type=localnet",
        "options:network_name=public", "addresses=\"unknown\"",
    ]);
    assert_eq!(join_words(&lsp.create_command()), expected_cmd);
    let expected_cmd = words(&["ovn-nbctl", "lsp-del", "sw0-port0"]);
    assert_eq!(join_words(&lsp.destroy_command()), expected_cmd);
}

#[test]
fn ovs_test_ovs_port() {
    let port = OvsPort::new("ovs-port".into(), "br-int".into(), "sw0-port0".into(), "ovn".into());
    let expected_cmd = words(&[
        "ovs-vsctl", "--may-exist", "add-port", "br-int", "ovs-port",
        "--", "set", "Interface", "ovs-port", "type=internal",
        "--", "set", "Interface", "ovs-port", "external_ids:iface-id=sw0-port0",
    ]);
    assert_eq!(join_words(&port.create_command()), expected_cmd);
    let expected_cmd = words(&["ovs-vsctl", "del-port", "br-int", "ovs-port"]);
    assert_eq!(join_words(&port.destroy_command()), expected_cmd);
}

#[test]
fn test_logical_acl_record() {
    let record = LogicalACLRecord::new(
        "ovn-sw0".to_string(),
        ACLRecordType::Switch,
        ACLDirection::ToLport,
        10,
        "match".to_string(),
        ACLAction::Drop,
    );
    let expected_add = words(&["ovn-nbctl", "--may-exist", "acl-add", "ovn-sw0", "to-lport", "10", "match", "drop"]);
    assert_eq!(expected_add, join_words(&record.create_command()));
    let expected_del = words(&["ovn-nbctl", "acl-del", "ovn-sw0", "to-lport", "10", "match", "drop"]);
    assert_eq!(expected_del, join_words(&record.destroy_command()));
}

#[test]
fn test_external_gateway() {
    let gw = OvnExternalGateway::new("lr0-public".into(), "ovn".into());
    let expected_cmd = words(&["ovn-nbctl", "--may-exist", "lrp-set-gateway-chassis", "lr0-public", "ovn", "20"]);
    assert_eq!(join_words(&gw.create_command()), expected_cmd);
    let expected_cmd = words(&["ovn-nbctl", "lrp-del-gateway-chassis", "lr0-public", "ovn"]);
    assert_eq!(join_words(&gw.destroy_command()), expected_cmd);
}
