use kvm_compose::ip_addr::{IpAddr, Ipv4Addr};
use kvm_compose::orchestration::{OrchestrationCommon, OvnHostConfig, TestbedClusterConfig, TestbedHostSshConfig};
use kvm_compose::ovn::components::{MacAddress, OvnIpAddr};
use kvm_compose::ovn::ovn_state::OvnNetwork;
use kvm_compose::state::{
    State, StateNetwork, StateProvisioning, StateTestbedGuestList, StateTestbedGuestSharedConfig, StateTestbedHost,
    StateTestbedHostList, StateTestbedHostSharedConfig,
};
use kvm_compose::state::orchestration_tasks::{check_provision_temporary_network, get_orchestration_common, parse_path_with_deployment_config};
use kvm_compose::state::orchestration_tasks::steps::GuestAction;
use kvm_compose::state::orchestration_tasks::docker::{
    docker_create_step,
    docker_bind_port_command, docker_container_gone, docker_create_conflict, docker_create_plan, docker_destroy_commands,
    docker_dynamic_port, docker_inspect_command, docker_port_from_reply, docker_port_gone, docker_port_lookup_command,
    docker_push_files, docker_run_command, ovs_docker_add_port_command,
};
use kvm_compose::state::orchestration_tasks::guests::{
    calculate_backing_images_to_push, get_backing_image_local_path, get_backing_image_remote_path,
    dynamic_ip_query, get_local_image_folder_path, get_master_testbed_name, get_remote_project_folder, get_xml_path,
    parse_dynamic_ip,
};
use kvm_compose::state::orchestration_tasks::ovn_network::{chassis_to_tb_host, ensure_yaml_acl_switches_already_exist, NetworkItem};
use kvm_compose::state::orchestration_tasks::stages::{
    deploy_guest_stage, destroy_guest_stage, push_backing_guest_images_stage, push_guest_images_stage,
    rebase_clone_images_stage, run_guest_setup_scripts_stage, setup_backing_image_stage, setup_linked_clones_stage,
};
use kvm_compose::state::schema::guest::{StateGuestType, StateMachine, StateMachineNetwork, StateTestbedGuest, StateTestbedGuestExtraInfo};
use kvm_compose::state::schema::machines::docker::{StateDockerMachine, Volume};
use kvm_compose::state::schema::machines::libvirt::{StateLibvirtGuestOptions, StateLibvirtMachine, StateScaling};
use kvm_compose::state::state_evaluation::{status_from_output, trim, StateComponentStatus};

fn names(v: &[&str]) -> Vec<String> {
    v.iter().map(|s| s.to_string()).collect()
}

fn host(user: &str, master: bool) -> StateTestbedHost {
    StateTestbedHost {
        username: user.to_string(),
        ssh_private_key_location: "/keys/id".to_string(),
        ip: "10.10.0.1".to_string(),
        testbed_nic: "eth0".to_string(),
        is_master_host: master,
    }
}

fn ssh(chassis: &str, bridge: &str, master: bool) -> TestbedHostSshConfig {
    TestbedHostSshConfig {
        ip: "10.10.0.1".to_string(),
        user: "user".to_string(),
        identity_file: "/keys/id".to_string(),
        testbed_nic: "eth0".to_string(),
        is_master_host: Some(master),
        ovn: OvnHostConfig { chassis_name: chassis.to_string(), bridge: bridge.to_string() },
    }
}

fn common(network: StateNetwork) -> OrchestrationCommon {
    OrchestrationCommon {
        testbed_hosts: vec![("tb0".to_string(), host("alice", true)), ("tb1".to_string(), host("bob", false))],
        testbed_guest_shared_config: StateTestbedGuestSharedConfig::default(),
        project_name: "proj".to_string(),
        project_working_dir: "/work/proj".to_string(),
        force_provisioning: false,
        force_rerun_scripts: false,
        reapply_acl: false,
        kvm_compose_config: TestbedClusterConfig {
            testbed_host_ssh_config: vec![
                ("tb0".to_string(), ssh("ovn-main", "br-int", true)),
                ("tb1".to_string(), ssh("ovn-remote", "br-int1", false)),
            ],
            ssh_public_key_location: "/keys/id.pub".to_string(),
            ssh_private_key_location: "/keys/id".to_string(),
        },
        network,
        fs_user: 1000,
        fs_group: 1000,
    }
}

fn docker_machine() -> StateDockerMachine {
    StateDockerMachine {
        image: "nginx".to_string(),
        command: Some("serve".to_string()),
        entrypoint: Some("/bin/sh".to_string()),
        environment: Some(vec![("A".to_string(), "1".to_string())]),
        env_file: Some("app.env".to_string()),
        volumes: Some(vec![
            Volume { source: "${PWD}/data".to_string(), target: "/data".to_string() },
            Volume { source: "conf".to_string(), target: "/conf".to_string() },
        ]),
        privileged: Some(true),
        scaling: None,
        user: Some("www".to_string()),
        device: Some(vec!["/dev/net/tun".to_string()]),
        static_ip: None,
    }
}

fn interface(switch: &str, ip: &str, gateway: Option<&str>) -> StateMachineNetwork {
    StateMachineNetwork {
        switch: switch.to_string(),
        gateway: gateway.map(|g| g.to_string()),
        mac: "00:00:00:00:00:05".to_string(),
        ip: ip.to_string(),
        network_name: None,
    }
}

fn guest(name: &str, host: Option<&str>, net: Option<Vec<StateMachineNetwork>>, t: StateGuestType) -> StateTestbedGuest {
    StateTestbedGuest {
        guest_type: StateMachine { name: name.to_string(), network: net, guest_type: t },
        testbed_host: host.map(|h| h.to_string()),
        is_golden_image: false,
        guest_id: 1,
        extra_info: StateTestbedGuestExtraInfo { reference_image: None },
    }
}

fn cloud_libvirt(path: &str, clone_of: Option<&str>, scaling: bool) -> StateLibvirtMachine {
    StateLibvirtMachine {
        memory_mb: 1024,
        cpus: 1,
        libvirt_type: StateLibvirtGuestOptions::CloudImage {
            name: "ubuntu".to_string(),
            expand_gigabytes: None,
            path: Some(path.to_string()),
            run_script: None,
            setup_script: None,
            setup_script_timeout_s: 30,
            context: None,
            environment: Vec::new(),
        },
        username: Some("ubuntu".to_string()),
        password: None,
        hostname: "vm".to_string(),
        ssh_address: "10.0.0.5".to_string(),
        scaling: if scaling {
            Some(StateScaling { count: 2, shared_setup: None, interfaces: Vec::new(), clone_setup: None, clone_run: None })
        } else {
            None
        },
        is_clone_of: clone_of.map(|c| c.to_string()),
        tcp_tty_port: None,
        static_ip: None,
    }
}

fn ovn_with_docker_port(dynamic: bool) -> StateNetwork {
    let mut ovn = OvnNetwork::new();
    ovn.add_switch("sw0".into(), IpAddr::V4(Ipv4Addr::new(10, 0, 0, 0)), 24).unwrap();
    let ip = if dynamic { OvnIpAddr::Dynamic } else { OvnIpAddr::Ip(IpAddr::V4(Ipv4Addr::new(10, 0, 0, 3))) };
    ovn.add_lsp_internal(
        "proj-sw0-web-0".into(),
        "sw0".into(),
        "ovs-web".into(),
        ip,
        Some("ovn-main".into()),
        MacAddress::new("00:00:00:00:00:07".into()).unwrap(),
        None,
    )
    .unwrap();
    StateNetwork::Ovn(ovn)
}

#[test]
fn test_validate_yaml_acl_switches_already_exist_use_some() -> Result<(), String> {
    let current_switches = names(&["sw0", "sw1", "sw2"]);
    let acl_list = names(&["sw0"]);
    ensure_yaml_acl_switches_already_exist(&current_switches, &acl_list)?;
    Ok(())
}

#[test]
fn test_validate_yaml_acl_switches_already_exist_use_exact() -> Result<(), String> {
    let current_switches = names(&["sw0", "sw1", "sw2"]);
    let acl_list = names(&["sw0", "sw1", "sw2"]);
    ensure_yaml_acl_switches_already_exist(&current_switches, &acl_list)?;
    Ok(())
}

#[test]
fn test_validate_yaml_acl_switches_already_exist_use_more() -> Result<(), String> {
    let current_switches = names(&["sw0", "sw1", "sw2"]);
    let acl_list = names(&["sw3"]);
    let res = ensure_yaml_acl_switches_already_exist(&current_switches, &acl_list);
    match res {
        Ok(_) => Err("should not have been Ok".to_string()),
        Err(_) => Ok(()),
    }
}

#[test]
fn acl_switch_check_accepts_an_empty_acl_list() {
    assert!(ensure_yaml_acl_switches_already_exist(&names(&[]), &names(&[])).is_ok());
}

#[test]
fn chassis_lookup_finds_the_host_or_names_the_chassis() {
    let c = common(StateNetwork::default());
    assert_eq!(chassis_to_tb_host(&"ovn-remote".to_string(), &c), Ok("tb1".to_string()));
    assert_eq!(
        chassis_to_tb_host(&"ovn-x".to_string(), &c),
        Err("could not find chassis ovn-x in kvm-compose-config".to_string())
    );
}

#[test]
fn master_and_remote_folders() {
    let c = common(StateNetwork::default());
    assert_eq!(get_master_testbed_name(&c), "tb0");
    assert_eq!(get_remote_project_folder(&c, &"tb1".to_string()), Ok("/home/bob/testbed-projects/proj/".to_string()));
    assert_eq!(
        get_remote_project_folder(&c, &"tb9".to_string()),
        Err("Could not find remote testbed in config".to_string())
    );
    let folder = get_local_image_folder_path(&"/work/proj".to_string());
    assert_eq!(folder, "/work/proj/artefacts/");
    let g = guest("vm", Some("tb0"), None, StateGuestType::Libvirt(cloud_libvirt("/i/vm.img", None, false)));
    assert_eq!(get_xml_path(&folder, &g), "/work/proj/artefacts//vm-domain.xml");
}

#[test]
fn relative_paths_are_under_the_project_folder() {
    let c = common(StateNetwork::default());
    assert_eq!(parse_path_with_deployment_config(&"scripts/a.sh".to_string(), &c), "/work/proj/scripts/a.sh");
    assert_eq!(parse_path_with_deployment_config(&"/abs/a.sh".to_string(), &c), "/abs/a.sh");
}

#[test]
fn dynamic_ip_is_read_from_the_answer() {
    let lsp = "proj-sw0-vm-0".to_string();
    assert_eq!(parse_dynamic_ip(&"00:00:00:00:00:01 10.0.0.4\n".to_string(), &lsp), Ok("10.0.0.4".to_string()));
    assert_eq!(
        parse_dynamic_ip(&"00:00:00:00:00:01 10.0.0.4".to_string(), &lsp),
        Err("stripping newline from dynamic ip".to_string())
    );
    assert_eq!(
        parse_dynamic_ip(&"\n".to_string(), &lsp),
        Err("could not get the dynamic ip for lsp proj-sw0-vm-0 as result from NB DB was \n".to_string())
    );
}

#[test]
fn backing_images_are_pushed_once_per_remote_host() {
    let c = common(StateNetwork::default());
    let base = guest("base", Some("tb0"), None, StateGuestType::Libvirt(cloud_libvirt("/i/base-cloud-disk.img", None, true)));
    let c1 = guest("c1", Some("tb1"), None, StateGuestType::Libvirt(cloud_libvirt("/i/c1.qcow2", Some("base"), false)));
    let c2 = guest("c2", Some("tb1"), None, StateGuestType::Libvirt(cloud_libvirt("/i/c2.qcow2", Some("base"), false)));
    let c3 = guest("c3", Some("tb0"), None, StateGuestType::Libvirt(cloud_libvirt("/i/c3.qcow2", Some("base"), false)));
    let list = StateTestbedGuestList(vec![
        ("base".to_string(), base),
        ("c1".to_string(), c1),
        ("c2".to_string(), c2),
        ("c3".to_string(), c3),
    ]);
    assert_eq!(calculate_backing_images_to_push(&list, &c), vec![("base".to_string(), "tb1".to_string())]);
    assert_eq!(get_backing_image_local_path(&list, &"base".to_string()), "/i/base-cloud-disk.img");
    assert_eq!(
        get_backing_image_remote_path(&c, &list, &"base".to_string(), &"tb1".to_string()),
        Ok("/home/bob/testbed-projects/proj/artefacts/base-cloud-disk.img".to_string())
    );
}

#[test]
fn trimmed_check_output_gives_the_status() {
    assert_eq!(trim("  running\n"), "running");
    assert!(matches!(status_from_output("running\n"), StateComponentStatus::Up));
    assert!(matches!(status_from_output(" does_not_exist "), StateComponentStatus::DoesNotExist));
    assert!(matches!(status_from_output("shut off\n"), StateComponentStatus::Down(s) if s == "shut off"));
}

#[test]
fn docker_run_command_on_a_remote_host() {
    let c = common(ovn_with_docker_port(false));
    let g = guest("web", Some("tb1"), Some(vec![interface("sw0", "10.0.0.3", Some("10.0.0.1"))]), StateGuestType::Docker(docker_machine()));
    let cmd = docker_run_command(&docker_machine(), &c, &g).unwrap();
    assert_eq!(
        cmd,
        names(&[
            "sudo", "docker", "run", "--rm", "--name", "proj-web", "-it", "-d", "--entrypoint", "/bin/sh", "-e", "A=1",
            "--device=/dev/net/tun", "--privileged", "--env-file", "/home/bob/testbed-projects/proj//app.env",
            "--net=none", "-v", "/work/proj/data:/data", "-v", "conf:/conf", "--dns=10.0.0.1", "-u", "www", "-h",
            "proj-web", "nginx", "serve",
        ])
    );
}

#[test]
fn docker_run_command_on_the_master_and_without_network() {
    let c = common(ovn_with_docker_port(false));
    let mut m = docker_machine();
    m.entrypoint = None;
    m.environment = None;
    m.device = None;
    m.privileged = None;
    m.volumes = None;
    m.user = None;
    m.command = None;
    let g = guest("web", Some("tb0"), Some(Vec::new()), StateGuestType::Docker(m.clone()));
    assert_eq!(
        docker_run_command(&m, &c, &g).unwrap(),
        names(&["sudo", "docker", "run", "--rm", "--name", "proj-web", "-it", "-d", "--env-file", "app.env", "--net=none", "-h", "proj-web", "nginx"])
    );
    let g = guest("web", Some("tb0"), None, StateGuestType::Docker(m.clone()));
    assert_eq!(docker_run_command(&m, &c, &g), Err("getting guest network in docker create action".to_string()));
    let g = guest("web", Some("tb7"), None, StateGuestType::Docker(m.clone()));
    assert_eq!(docker_run_command(&m, &c, &g), Err("Could not find remote testbed in config".to_string()));
}

#[test]
fn docker_add_port_uses_the_port_address() {
    let c = common(ovn_with_docker_port(false));
    let g = guest("web", Some("tb1"), Some(vec![interface("sw0", "10.0.0.3", Some("10.0.0.1"))]), StateGuestType::Docker(docker_machine()));
    assert_eq!(docker_dynamic_port(&c, &g), None);
    assert_eq!(
        ovs_docker_add_port_command(&c, &g, &String::new()).unwrap(),
        names(&[
            "sudo", "ovs-docker", "add-port", "br-int1", "eth0", "proj-web", "--ipaddress=10.0.0.3/24",
            "--macaddress=00:00:00:00:00:07", "--gateway=10.0.0.1",
        ])
    );
}

#[test]
fn docker_add_port_with_a_dynamic_address() {
    let c = common(ovn_with_docker_port(true));
    let g = guest("web", Some("tb0"), Some(vec![interface("sw0", "dynamic", None)]), StateGuestType::Docker(docker_machine()));
    assert_eq!(docker_dynamic_port(&c, &g), Some("proj-sw0-web-0".to_string()));
    assert_eq!(
        ovs_docker_add_port_command(&c, &g, &"10.0.0.9".to_string()).unwrap(),
        names(&["sudo", "ovs-docker", "add-port", "br-int", "eth0", "proj-web", "--ipaddress=10.0.0.9/24", "--macaddress=00:00:00:00:00:07"])
    );
    let other = guest("db", Some("tb0"), Some(vec![interface("sw0", "dynamic", None)]), StateGuestType::Docker(docker_machine()));
    assert_eq!(docker_dynamic_port(&c, &other), None);
    assert_eq!(
        ovs_docker_add_port_command(&c, &other, &String::new()),
        Err("Getting LSP for docker guest proj-db".to_string())
    );
}

#[test]
fn docker_inspection_decides_the_creation() {
    let c = common(ovn_with_docker_port(false));
    let g = guest("web", Some("tb0"), Some(vec![interface("sw0", "10.0.0.3", None)]), StateGuestType::Docker(docker_machine()));
    assert_eq!(docker_inspect_command(&c, &g), names(&["docker", "container", "inspect", "-f", "{{.State.Running}}", "proj-web"]));
    let kept = docker_create_plan(&Ok("true\n".to_string()), false, &c, &g).unwrap();
    assert!(kept.cleanup.is_empty() && !kept.create);
    let forced = docker_create_plan(&Ok("false\n".to_string()), true, &c, &g).unwrap();
    assert!(forced.create);
    assert_eq!(
        forced.cleanup,
        vec![
            names(&["docker", "container", "rm", "proj-web"]),
            names(&["ovs-docker", "del-port", "proj-sw0-web-0", "eth0", "proj-web"]),
        ]
    );
    let running = docker_create_plan(&Ok("true\n".to_string()), true, &c, &g).unwrap();
    assert_eq!(running.cleanup[0], names(&["docker", "container", "rm", "-f", "proj-web"]));
    let absent = docker_create_plan(&Err("Error: No such container: proj-web".to_string()), false, &c, &g).unwrap();
    assert!(absent.cleanup.is_empty() && absent.create);
    assert_eq!(
        docker_create_plan(&Err("permission denied".to_string()), false, &c, &g).map(|p| p.create),
        Err("permission denied".to_string())
    );
}

#[test]
fn docker_attachment_and_removal() {
    let c = common(ovn_with_docker_port(false));
    let g = guest("web", Some("tb1"), Some(vec![interface("sw0", "10.0.0.3", None)]), StateGuestType::Docker(docker_machine()));
    assert!(docker_create_conflict(
        &"docker: Error response from daemon: Conflict. The container name \"/proj-web\" is already in use by container abc.\n".to_string(),
        &c,
        &g
    ));
    assert!(!docker_create_conflict(&"docker: image not found".to_string(), &c, &g));
    assert_eq!(
        docker_port_lookup_command(&c, &g),
        names(&[
            "ovs-vsctl", "--data=bare", "--no-heading", "--columns=name", "find", "interface",
            "external_ids:container_id=proj-web", "external_ids:container_iface=eth0",
        ])
    );
    assert_eq!(docker_port_from_reply(&"a1b2_l\n".to_string()), Ok("a1b2_l".to_string()));
    assert_eq!(docker_port_from_reply(&"a1b2_l".to_string()), Err("stripping newline from docker port uuid".to_string()));
    assert_eq!(
        docker_bind_port_command(&c, &g, &"a1b2_l".to_string()),
        Some(names(&["ovs-vsctl", "set", "interface", "a1b2_l", "external_ids:iface-id=proj-sw0-web-0"]))
    );
    let (del, stop) = docker_destroy_commands(&c, &g);
    assert_eq!(del, names(&["sudo", "ovs-docker", "del-port", "br-int1", "eth0", "proj-web"]));
    assert_eq!(stop, names(&["sudo", "docker", "stop", "proj-web"]));
    let run = docker_run_command(&docker_machine(), &c, &g).unwrap();
    assert_eq!(run[5], stop[3]);
    let add = ovs_docker_add_port_command(&c, &g, &String::new()).unwrap();
    assert_eq!((&add[3], &add[5]), (&del[3], &del[5]));
    assert!(docker_port_gone(&"  Failed to find any attached port for CONTAINER=proj-web\n".to_string()));
    assert!(docker_container_gone(&"Error response from daemon: No such container: proj-web\n".to_string(), &c, &g));
    assert!(!docker_container_gone(&"Error: timeout".to_string(), &c, &g));
}

#[test]
fn docker_files_go_to_remote_hosts_only() {
    let c = common(ovn_with_docker_port(false));
    let m = docker_machine();
    let remote = guest("web", Some("tb1"), None, StateGuestType::Docker(m.clone()));
    let folder = "/home/bob/testbed-projects/proj/".to_string();
    assert_eq!(
        docker_push_files(&m, &c, &remote),
        Ok(vec![
            ("/work/proj/app.env".to_string(), folder.clone()),
            ("/work/proj/data".to_string(), folder.clone()),
            ("/work/proj/conf".to_string(), folder.clone()),
        ])
    );
    let local = guest("web", Some("tb0"), None, StateGuestType::Docker(m.clone()));
    assert_eq!(docker_push_files(&m, &c, &local), Ok(Vec::new()));
}

fn state_with(guests: Vec<(String, StateTestbedGuest)>) -> State {
    State {
        project_name: "proj".to_string(),
        creation_date: "today".to_string(),
        project_working_dir: "/work/proj".to_string(),
        testbed_hosts: StateTestbedHostList(vec![("tb0".to_string(), host("alice", true))]),
        testbed_guests: StateTestbedGuestList(guests),
        testbed_host_shared_config: StateTestbedHostSharedConfig {},
        testbed_guest_shared_config: StateTestbedGuestSharedConfig::default(),
        network: StateNetwork::default(),
        state_provisioning: StateProvisioning { guests_provisioned: false },
    }
}

#[test]
fn stages_select_their_guests() {
    let c = common(StateNetwork::default());
    let mut base = guest("base", Some("tb0"), None, StateGuestType::Libvirt(cloud_libvirt("/i/base.img", None, true)));
    base.is_golden_image = true;
    let clone = guest("c1", Some("tb1"), None, StateGuestType::Libvirt(cloud_libvirt("/i/c1.qcow2", Some("base"), false)));
    let web = guest("web", Some("tb0"), None, StateGuestType::Docker(docker_machine()));
    let s = state_with(vec![("base".to_string(), base), ("c1".to_string(), clone), ("web".to_string(), web)]);
    assert_eq!(deploy_guest_stage(&s), vec![1, 2]);
    assert_eq!(setup_backing_image_stage(&s), vec![0]);
    assert_eq!(setup_linked_clones_stage(&s), vec![1]);
    assert_eq!(push_backing_guest_images_stage(&s, &c), vec![1]);
    assert_eq!(destroy_guest_stage(&s), vec![1, 2]);
    assert_eq!(push_guest_images_stage(&s), vec![0, 1, 2]);
    assert_eq!(rebase_clone_images_stage(&s, &c), vec![1]);
    assert_eq!(run_guest_setup_scripts_stage(&s), vec![0, 1]);
    assert!(!check_provision_temporary_network(&s.testbed_guests));
}

#[test]
fn network_plan_puts_switches_before_their_ports() {
    let mut ovn = OvnNetwork::new();
    ovn.add_switch("sw0".into(), IpAddr::V4(Ipv4Addr::new(10, 0, 0, 0)), 24).unwrap();
    ovn.add_router("lr0".into()).unwrap();
    ovn.add_lsp_localnet("sw0-public".into(), "sw0".into(), "public".into()).unwrap();
    let net = StateNetwork::Ovn(ovn);
    let create = net.create_action();
    let destroy = net.destroy_action();
    assert_eq!(create.len(), 3);
    assert_eq!(destroy.len(), 3);
    assert!(create.iter().position(|i| matches!(i, NetworkItem::Switch(_))).unwrap()
        < create.iter().position(|i| matches!(i, NetworkItem::SwitchPort(_))).unwrap());
    assert!(destroy.iter().position(|i| matches!(i, NetworkItem::SwitchPort(_))).unwrap()
        < destroy.iter().position(|i| matches!(i, NetworkItem::Switch(_))).unwrap());
}

#[test]
fn orchestration_settings_come_from_the_state_and_the_request() {
    let config = common(StateNetwork::default()).kvm_compose_config;
    let c = get_orchestration_common(state_with(Vec::new()), true, false, true, config, 1001, 1002);
    assert_eq!(c.project_name, "proj");
    assert_eq!(c.project_working_dir, "/work/proj");
    assert_eq!(c.testbed_hosts.len(), 1);
    assert_eq!(c.testbed_hosts[0].0, "tb0");
    assert!(c.force_provisioning);
    assert!(!c.force_rerun_scripts);
    assert!(c.reapply_acl);
    assert_eq!(c.kvm_compose_config.testbed_host_ssh_config.len(), 2);
    assert_eq!((c.fs_user, c.fs_group), (1001, 1002));
}

fn replies(rs: &[Result<&str, &str>]) -> Vec<Result<String, String>> {
    rs.iter().map(|r| r.map(|s| s.to_string()).map_err(|e| e.to_string())).collect()
}

#[test]
fn a_container_that_exists_leaves_only_the_inspection() {
    let c = common(ovn_with_docker_port(false));
    let m = docker_machine();
    let g = guest("web", Some("tb0"), Some(vec![interface("sw0", "10.0.0.3", None)]), StateGuestType::Docker(m.clone()));
    let step = |rs: &[Result<&str, &str>], force: bool| docker_create_step(&m, &c, &g, force, &replies(rs));
    assert_eq!(step(&[], false), GuestAction::Run(docker_inspect_command(&c, &g)));
    assert_eq!(step(&[Ok("true\n")], false), GuestAction::Done);
    assert_eq!(step(&[Err("permission denied")], false), GuestAction::Fail("permission denied".to_string()));
}

#[test]
fn a_new_container_is_run_attached_looked_up_and_bound_in_order() {
    let c = common(ovn_with_docker_port(false));
    let m = docker_machine();
    let g = guest("web", Some("tb0"), Some(vec![interface("sw0", "10.0.0.3", None)]), StateGuestType::Docker(m.clone()));
    let step = |rs: &[Result<&str, &str>]| docker_create_step(&m, &c, &g, false, &replies(rs));
    let nsc = Err("Error: No such container: proj-web");
    assert_eq!(step(&[nsc]), GuestAction::Run(docker_run_command(&m, &c, &g).unwrap()));
    assert_eq!(step(&[nsc, Ok("id\n")]), GuestAction::Run(ovs_docker_add_port_command(&c, &g, &String::new()).unwrap()));
    assert_eq!(step(&[nsc, Ok("id\n"), Err("no bridge")]), GuestAction::Fail("no bridge".to_string()));
    assert_eq!(step(&[nsc, Ok("id\n"), Ok("")]), GuestAction::Run(docker_port_lookup_command(&c, &g)));
    assert_eq!(
        step(&[nsc, Ok("id\n"), Ok(""), Ok("a1b2_l\n")]),
        GuestAction::Run(names(&["ovs-vsctl", "set", "interface", "a1b2_l", "external_ids:iface-id=proj-sw0-web-0"]))
    );
    assert_eq!(
        step(&[nsc, Ok("id\n"), Ok(""), Ok("a1b2_l")]),
        GuestAction::Fail("stripping newline from docker port uuid".to_string())
    );
    assert_eq!(step(&[nsc, Ok("id\n"), Ok(""), Ok("a1b2_l\n"), Ok("")]), GuestAction::Done);
    let conflict = Err("docker: Conflict. The container name \"/proj-web\" is already in use by container abc.");
    assert_eq!(step(&[nsc, conflict]), GuestAction::Run(docker_port_lookup_command(&c, &g)));
    assert_eq!(step(&[nsc, Err("no image")]), GuestAction::Fail("no image".to_string()));
}

#[test]
fn a_forced_container_is_removed_before_it_is_run_again() {
    let c = common(ovn_with_docker_port(false));
    let m = docker_machine();
    let g = guest("web", Some("tb0"), Some(vec![interface("sw0", "10.0.0.3", None)]), StateGuestType::Docker(m.clone()));
    let step = |rs: &[Result<&str, &str>]| docker_create_step(&m, &c, &g, true, &replies(rs));
    assert_eq!(step(&[Ok("false\n")]), GuestAction::Run(names(&["docker", "container", "rm", "proj-web"])));
    assert_eq!(
        step(&[Ok("false\n"), Ok("")]),
        GuestAction::Run(names(&["ovs-docker", "del-port", "proj-sw0-web-0", "eth0", "proj-web"]))
    );
    assert_eq!(step(&[Ok("false\n"), Err("busy")]), GuestAction::Fail("busy".to_string()));
    assert_eq!(step(&[Ok("false\n"), Ok(""), Ok("")]), GuestAction::Run(docker_run_command(&m, &c, &g).unwrap()));
}

#[test]
fn a_dynamic_container_address_is_asked_first() {
    let c = common(ovn_with_docker_port(true));
    let m = docker_machine();
    let g = guest("web", Some("tb0"), Some(vec![interface("sw0", "dynamic", None)]), StateGuestType::Docker(m.clone()));
    let step = |rs: &[Result<&str, &str>]| docker_create_step(&m, &c, &g, false, &replies(rs));
    assert_eq!(step(&[]), GuestAction::Run(dynamic_ip_query(&"proj-sw0-web-0".to_string())));
    assert_eq!(step(&[Err("no db")]), GuestAction::Fail("no db".to_string()));
    assert_eq!(step(&[Ok("00:00:00:00:00:07 10.0.0.9\n")]), GuestAction::Run(docker_inspect_command(&c, &g)));
    let nsc = Err("No such container");
    assert_eq!(
        step(&[Ok("00:00:00:00:00:07 10.0.0.9\n"), nsc, Ok("")]),
        GuestAction::Run(ovs_docker_add_port_command(&c, &g, &"10.0.0.9".to_string()).unwrap())
    );
}
