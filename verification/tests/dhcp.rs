use kvm_compose::ip_addr::{IpAddr, Ipv4Addr};
use kvm_compose::ovn::components::logical_switch_port::{LogicalSwitchPort, LogicalSwitchPortType};
use kvm_compose::ovn::components::{MacAddress, OvnIpAddr};
use kvm_compose::ovn::configuration::dhcp::{
    destroy_rule_command, dhcp_ports, rule_uuid_from_output, rule_uuids_from_output, set_dhcp_command, DhcpDatabaseEntry,
    DhcpAction, DhcpError,
};
use std::collections::hash_map::DefaultHasher;
use std::hash::{Hash, Hasher};

fn entry() -> DhcpDatabaseEntry {
    DhcpDatabaseEntry::new(
        OvnIpAddr::Subnet { ip: IpAddr::V4(Ipv4Addr::new(10, 0, 0, 0)), mask: 24 },
        "3600".to_string(),
        "10.0.0.1".to_string(),
        "10.0.0.1".to_string(),
        MacAddress::new("00:00:00:00:00:04".into()).unwrap(),
    )
}

const OPTIONS: &str = "options=\"lease_time\"=\"3600\" \"router\"=\"10.0.0.1\" \"server_id\"=\"10.0.0.1\" \"server_mac\"=\"00:00:00:00:00:04\" \"dns_server\"=\"{8.8.8.8}\"";

#[test]
fn dhcp_entry_is_created_and_looked_up_with_its_options() {
    let e = entry();
    assert_eq!(
        e.create_rule_command(&"proj".to_string()),
        vec!["ovn-nbctl", "create", "dhcp_options", "cidr=10.0.0.0/24", OPTIONS, "external_ids:testbedos-project=proj"]
    );
    assert_eq!(
        e.lookup_command(&"proj".to_string()),
        vec![
            "ovn-nbctl", "--bare", "--columns=_uuid", "find", "dhcp_options", "cidr=\"10.0.0.0/24\"", OPTIONS,
            "external_ids:testbedos-project=proj",
        ]
    );
}

#[test]
fn dhcp_entry_ids_are_read_from_the_output() {
    assert_eq!(rule_uuid_from_output(&"abc\n".to_string()), Ok("abc".to_string()));
    assert_eq!(rule_uuid_from_output(&String::new()), Ok(String::new()));
    assert_eq!(rule_uuid_from_output(&"abc".to_string()), Err(DhcpError::MissingNewline));
    assert_eq!(rule_uuids_from_output(&"a\n\nb\n".to_string()), vec!["a".to_string(), "b".to_string()]);
    assert_eq!(rule_uuids_from_output(&"a\n".to_string()), vec!["a".to_string()]);
}

#[test]
fn dhcp_entries_are_linked_to_their_ports_and_destroyed() {
    assert_eq!(set_dhcp_command(&"sw0-port0".to_string(), &"u1".to_string()), vec!["ovn-nbctl", "lsp-set-dhcpv4-options", "sw0-port0", "u1"]);
    assert_eq!(destroy_rule_command(&"u1".to_string()), vec!["ovn-nbctl", "destroy", "dhcp_options", "u1"]);
    let mut p0 = LogicalSwitchPort::new("p0".into(), "sw0".into(), LogicalSwitchPortType::new_localnet("public".into()));
    let p1 = LogicalSwitchPort::new("p1".into(), "sw0".into(), LogicalSwitchPortType::new_localnet("public".into()));
    let mut p2 = LogicalSwitchPort::new("p2".into(), "sw0".into(), LogicalSwitchPortType::new_localnet("public".into()));
    p0.dhcp_options_uuid = Some(7);
    p2.dhcp_options_uuid = Some(7);
    assert_eq!(dhcp_ports(&vec![p0, p1, p2], 7), vec!["p0".to_string(), "p2".to_string()]);
}

fn run(words: &[&str]) -> DhcpAction {
    DhcpAction::Run(words.iter().map(|w| w.to_string()).collect())
}

fn ok(s: &str) -> Result<String, String> {
    Ok(s.to_string())
}

fn err(s: &str) -> Result<String, String> {
    Err(s.to_string())
}

#[test]
fn creating_a_dhcp_entry_links_its_ports_one_by_one() {
    let e = entry();
    let mut h = DefaultHasher::new();
    e.hash(&mut h);
    let key = h.finish();
    let mut p0 = LogicalSwitchPort::new("p0".into(), "sw0".into(), LogicalSwitchPortType::new_localnet("public".into()));
    let p1 = LogicalSwitchPort::new("p1".into(), "sw0".into(), LogicalSwitchPortType::new_localnet("public".into()));
    let mut p2 = LogicalSwitchPort::new("p2".into(), "sw0".into(), LogicalSwitchPortType::new_localnet("public".into()));
    p0.dhcp_options_uuid = Some(key);
    p2.dhcp_options_uuid = Some(key);
    let ports = vec![p0, p1, p2];
    let proj = "proj".to_string();
    assert_eq!(e.create_step(&proj, &ports, &vec![]), DhcpAction::Run(e.create_rule_command(&proj)));
    assert_eq!(
        e.create_step(&proj, &ports, &vec![err("boom")]),
        DhcpAction::Fail("could not create DHCP Options database rule cidr: 10.0.0.0/24 router: 10.0.0.1, with err: boom".to_string())
    );
    assert_eq!(e.create_step(&proj, &ports, &vec![ok("u1")]), DhcpAction::Fail("stripping newline from DHCP options uuid".to_string()));
    assert_eq!(e.create_step(&proj, &ports, &vec![ok("u1\n")]), run(&["ovn-nbctl", "lsp-set-dhcpv4-options", "p0", "u1"]));
    assert_eq!(e.create_step(&proj, &ports, &vec![ok("u1\n"), ok("")]), run(&["ovn-nbctl", "lsp-set-dhcpv4-options", "p2", "u1"]));
    assert_eq!(e.create_step(&proj, &ports, &vec![ok("u1\n"), ok(""), ok("")]), DhcpAction::Done);
    assert_eq!(e.create_step(&proj, &ports, &vec![ok("u1\n"), err("no port")]), DhcpAction::Fail("no port".to_string()));
}

#[test]
fn destroying_a_dhcp_entry_removes_every_copy() {
    let e = entry();
    let proj = "proj".to_string();
    assert_eq!(e.destroy_step(&proj, &vec![]), DhcpAction::Run(e.lookup_command(&proj)));
    assert_eq!(
        e.destroy_step(&proj, &vec![err("down")]),
        DhcpAction::Fail("could not find the UUID for the DHCP cidr: 10.0.0.0/24 router: 10.0.0.1, with err: down".to_string())
    );
    assert_eq!(e.destroy_step(&proj, &vec![ok("a\n\nb\n")]), run(&["ovn-nbctl", "destroy", "dhcp_options", "a"]));
    assert_eq!(e.destroy_step(&proj, &vec![ok("a\n\nb\n"), ok("")]), run(&["ovn-nbctl", "destroy", "dhcp_options", "b"]));
    assert_eq!(e.destroy_step(&proj, &vec![ok("a\n\nb\n"), ok(""), ok("")]), DhcpAction::Done);
    assert_eq!(e.destroy_step(&proj, &vec![ok("a\n"), err("busy")]), DhcpAction::Fail("busy".to_string()));
}
