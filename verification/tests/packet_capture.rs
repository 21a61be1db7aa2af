use kvm_compose::packet_capture::{file_consumer_check, name_step, NameStep};
use kvm_compose::packet_capture::{generate_mirror_name, generate_name, OVSConfig, TCPDumpConfig, TCPDumpConsumer};

#[test]
fn test_generate_interface_name_length_constraint_short_input() {
    let test = generate_name("short");
    assert!(test.len() <= 15);
}

#[test]
fn test_generate_interface_name_length_constraint_long_input() {
    let test = generate_name("alonginputnameoverfifteen");
    assert!(test.len() <= 15);
}

#[test]
fn interface_name_is_prefix_hyphen_and_random_letters() {
    let short = generate_name("short");
    assert_eq!(short.len(), 15);
    assert!(short.starts_with("mishort-"));
    assert!(short["mishort-".len()..].chars().all(|c| c.is_ascii_alphanumeric()));
    let long = generate_name("alonginputnameoverfifteen");
    assert_eq!(long.len(), 15);
    assert!(long.starts_with("mialonginp-"));
}

#[test]
fn mirror_name_joins_both_interfaces() {
    assert_eq!(generate_mirror_name("sw0-port0", "mishort-abc"), "mirror-sw0-port0-to-mishort-abc");
    assert_eq!(TCPDumpConfig::generate_mirror_name("a", "b"), "mirror-a-to-b");
}

#[test]
fn mirroring_is_set_up_and_torn_down() {
    let c = TCPDumpConfig::new(
        "sw0-port0".to_string(),
        false,
        vec!["-n".to_string()],
        "mishort-abcdef".to_string(),
        TCPDumpConsumer::File("/tmp/cap.pcap".to_string()),
    );
    assert_eq!(c.mirror_name, "mirror-sw0-port0-to-mishort-abcdef");
    let setup = OVSConfig::setup_commands(&c);
    assert_eq!(setup.len(), 4);
    assert_eq!(setup[0], vec!["sudo", "ip", "link", "add", "mishort-abcdef", "type", "dummy"]);
    assert!(setup[3].contains(&"select-all=false".to_string()));
    let teardown = OVSConfig::teardown_commands(&c);
    assert_eq!(teardown[2], vec!["sudo", "ip", "link", "del", "mishort-abcdef"]);
}

#[test]
fn capture_checks_and_filter() {
    let c = TCPDumpConfig::new(
        "sw0-port0".to_string(),
        true,
        vec!["tcp".to_string(), "port".to_string(), "80".to_string()],
        "mishort-abcdef".to_string(),
        TCPDumpConsumer::File("/tmp/cap.pcap".to_string()),
    );
    assert_eq!(c.bpf_filter(), Some("tcp port 80".to_string()));
    assert_eq!(TCPDumpConfig::name_check_command(&"mi-x".to_string()), vec!["sudo", "ip", "link", "show", "dev", "mi-x"]);
    assert_eq!(c.port_check_command(), vec!["sudo", "ovs-vsctl", "--id=@target", "get", "port", "sw0-port0"]);
    assert_eq!(c.mirror_check_command(), vec!["sudo", "ovs-vsctl", "--id=@target", "get", "mirror", "mishort-abcdef"]);
    assert_eq!(c.mirror_check_result(true), Err("Mirror port mishort-abcdef already exists".to_string()));
    assert_eq!(c.mirror_check_result(false), Ok(()));
    assert_eq!(name_step(1, true), NameStep::Use);
    assert_eq!(name_step(3, false), NameStep::Retry { next: 4 });
    assert_eq!(
        name_step(10, false),
        NameStep::GiveUp("could not generate an interface name without a collision 10 times".to_string())
    );
    assert_eq!(file_consumer_check(&"/tmp/cap.pcap".to_string(), true), Err("File already exists: \"/tmp/cap.pcap\"".to_string()));
    assert!(setup_has_span(&c));
}

fn setup_has_span(c: &TCPDumpConfig) -> bool {
    OVSConfig::setup_commands(c)[3].contains(&"select-all=true".to_string())
}
