use kvm_compose::ip_addr::{IpAddr, Ipv4Addr};
use kvm_compose::orchestration::{OrchestrationCommon, OvnHostConfig, TestbedClusterConfig, TestbedHostSshConfig};
use kvm_compose::ovn::components::acl::{ACLAction, ACLDirection, ACLRecordType, ACLRule};
use kvm_compose::ovn::components::{MacAddress, OvnIpAddr};
use kvm_compose::ovn::ovn_state::OvnNetwork;
use kvm_compose::state::{
    state_file_path, State, StateNetwork, StateOvsNetwork, StateProvisioning, StateTestbedGuestList,
    StateTestbedGuestSharedConfig, StateTestbedHost, StateTestbedHostList, StateTestbedHostSharedConfig,
};
use kvm_compose::state::orchestration_tasks::android::{
    android_create_step,    android_address_commands, android_destroy_commands, android_dynamic_port, android_emulator_command,
    android_setup_commands,
};
use kvm_compose::state::orchestration_tasks::artefacts::{
    cloud_init_plan, libvirt_artefacts, libvirt_artefacts_step, libvirt_disk_plan, ArtefactAction, DiskPreparation,
};
use kvm_compose::state::orchestration_tasks::steps::GuestAction;
use kvm_compose::state::orchestration_tasks::deployment::{
    avd_deletions, host_check_requests, host_check_result, request_create_plan, request_destroy_plan, temp_network_off,
    temp_network_on, DeploymentStep,
};
use kvm_compose::state::orchestration_tasks::guests::{dynamic_ip_query, wait_step, WaitStep};
use kvm_compose::state::orchestration_tasks::libvirt::{
    first_backing_image, libvirt_create_command, libvirt_create_step, libvirt_destroy_commands, libvirt_dominfo_command, libvirt_guest_running,
    libvirt_image_in_use, libvirt_image_setup, libvirt_is_up, libvirt_port_attached, libvirt_port_commands,
    libvirt_pull_paths, libvirt_push_files, libvirt_rebase_command, libvirt_rebase_needed, libvirt_setup_script,
    linked_clone_command, LibvirtImageSetup,
};
use kvm_compose::state::orchestration_tasks::ovn_network::reapply_acl_plan;
use kvm_compose::state::schema::guest::{StateGuestType, StateMachine, StateMachineNetwork, StateTestbedGuest, StateTestbedGuestExtraInfo};
use kvm_compose::state::schema::machines::avd::{StateAVDGuestOptions, StateAVDMachine};
use kvm_compose::state::schema::machines::libvirt::{
    StateDiskDeviceType, StateDiskDriverType, StateLibvirtGuestOptions, StateLibvirtMachine, StateScaling,
};

fn names(v: &[&str]) -> Vec<String> {
    v.iter().map(|s| s.to_string()).collect()
}

fn host(user: &str, ip: &str, master: bool) -> StateTestbedHost {
    StateTestbedHost {
        username: user.to_string(),
        ssh_private_key_location: "/keys/id".to_string(),
        ip: ip.to_string(),
        testbed_nic: "eth0".to_string(),
        is_master_host: master,
    }
}

fn ssh(user: &str, bridge: &str) -> TestbedHostSshConfig {
    TestbedHostSshConfig {
        ip: "10.10.0.1".to_string(),
        user: user.to_string(),
        identity_file: "/keys/id".to_string(),
        testbed_nic: "eth0".to_string(),
        is_master_host: None,
        ovn: OvnHostConfig { chassis_name: "ovn".to_string(), bridge: bridge.to_string() },
    }
}

fn common(network: StateNetwork) -> OrchestrationCommon {
    OrchestrationCommon {
        testbed_hosts: vec![
            ("tb0".to_string(), host("alice", "10.10.0.1", true)),
            ("tb1".to_string(), host("bob", "10.10.0.2", false)),
        ],
        testbed_guest_shared_config: StateTestbedGuestSharedConfig::default(),
        project_name: "proj".to_string(),
        project_working_dir: "/work/proj".to_string(),
        force_provisioning: false,
        force_rerun_scripts: false,
        reapply_acl: false,
        kvm_compose_config: TestbedClusterConfig {
            testbed_host_ssh_config: vec![
                ("tb0".to_string(), ssh("alice", "br-int")),
                ("tb1".to_string(), ssh("carol", "br-int1")),
            ],
            ssh_public_key_location: "/keys/id.pub".to_string(),
            ssh_private_key_location: "/keys/id".to_string(),
        },
        network,
        fs_user: 1000,
        fs_group: 1000,
    }
}

fn interface(switch: &str, ip: &str, gateway: Option<&str>) -> StateMachineNetwork {
    StateMachineNetwork {
        switch: switch.to_string(),
        gateway: gateway.map(|g| g.to_string()),
        mac: "00:00:00:00:00:05".to_string(),
        ip: ip.to_string(),
        network_name: None,
    }
}

fn guest(name: &str, host: Option<&str>, net: Option<Vec<StateMachineNetwork>>, t: StateGuestType) -> StateTestbedGuest {
    StateTestbedGuest {
        guest_type: StateMachine { name: name.to_string(), network: net, guest_type: t },
        testbed_host: host.map(|h| h.to_string()),
        is_golden_image: false,
        guest_id: 1,
        extra_info: StateTestbedGuestExtraInfo { reference_image: Some("/images/ref.qcow2".to_string()) },
    }
}

fn cloud(path: Option<&str>, clone_of: Option<&str>, scaling: Option<StateScaling>) -> StateLibvirtMachine {
    StateLibvirtMachine {
        memory_mb: 2048,
        cpus: 2,
        libvirt_type: StateLibvirtGuestOptions::CloudImage {
            name: "ubuntu".to_string(),
            expand_gigabytes: Some(5),
            path: path.map(|p| p.to_string()),
            run_script: None,
            setup_script: Some("setup.sh".to_string()),
            setup_script_timeout_s: 30,
            context: Some("ctx".to_string()),
            environment: Vec::new(),
        },
        username: Some("ubuntu".to_string()),
        password: None,
        hostname: "vm".to_string(),
        ssh_address: "10.0.0.5".to_string(),
        scaling,
        is_clone_of: clone_of.map(|c| c.to_string()),
        tcp_tty_port: None,
        static_ip: None,
    }
}

fn existing(path: &str, deep: bool) -> StateLibvirtMachine {
    let mut m = cloud(None, None, None);
    m.libvirt_type = StateLibvirtGuestOptions::ExistingDisk {
        path: path.to_string(),
        driver_type: StateDiskDriverType::QCow2,
        device_type: StateDiskDeviceType::Disk,
        readonly: false,
        create_deep_copy: deep,
    };
    m
}

fn ovn_with_port(port: &str) -> StateNetwork {
    let mut ovn = OvnNetwork::new();
    ovn.add_switch("sw0".into(), IpAddr::V4(Ipv4Addr::new(10, 0, 0, 0)), 24).unwrap();
    ovn.add_lsp_internal(
        port.to_string(),
        "sw0".into(),
        "ovs-port".into(),
        OvnIpAddr::Ip(IpAddr::V4(Ipv4Addr::new(10, 0, 0, 4))),
        Some("ovn".into()),
        MacAddress::new("00:00:00:00:00:09".into()).unwrap(),
        None,
    )
    .unwrap();
    StateNetwork::Ovn(ovn)
}

#[test]
fn libvirt_guest_starts_from_its_domain_definition() {
    let c = common(StateNetwork::default());
    let m = cloud(Some("/images/vm.img"), None, None);
    let local = guest("vm", Some("tb0"), None, StateGuestType::Libvirt(m.clone()));
    assert_eq!(libvirt_create_command(&c, &local), names(&["virsh", "create", "/work/proj/artefacts//vm-domain.xml"]));
    let remote = guest("vm", Some("tb1"), None, StateGuestType::Libvirt(m.clone()));
    assert_eq!(
        libvirt_create_command(&c, &remote),
        names(&["virsh", "create", "/home/bob/testbed-projects/proj//artefacts//vm-domain.xml"])
    );
    assert!(libvirt_guest_running(&"error: domain 'proj-vm' already exists with uuid 1234\n".to_string()));
    assert!(!libvirt_guest_running(&"error: failed to get domain".to_string()));
}

#[test]
fn libvirt_interfaces_are_bound_to_their_ports() {
    let c = common(StateNetwork::default());
    let m = cloud(Some("/images/vm.img"), None, None);
    let g = guest("vm", Some("tb1"), Some(vec![interface("sw0", "10.0.0.4", None), interface("sw1", "10.0.1.4", None)]), StateGuestType::Libvirt(m.clone()));
    let cmds = libvirt_port_commands(&m, &c, &g, &names(&["tap0", "tap1"])).unwrap();
    assert_eq!(
        cmds,
        vec![
            names(&["ovs-vsctl", "add-port", "br-int1", "tap0", "--", "set", "Interface", "tap0", "external_ids:iface-id=proj-sw0-vm-0"]),
            names(&["ovs-vsctl", "add-port", "br-int1", "tap1", "--", "set", "Interface", "tap1", "external_ids:iface-id=proj-sw1-vm-1"]),
        ]
    );
    let backing = cloud(Some("/images/vm.img"), None, Some(StateScaling { count: 2, shared_setup: None, interfaces: Vec::new(), clone_setup: None, clone_run: None }));
    assert_eq!(libvirt_port_commands(&backing, &c, &g, &names(&["tap0", "tap1"])), Ok(Vec::new()));
    let none = guest("vm", Some("tb1"), None, StateGuestType::Libvirt(m.clone()));
    assert_eq!(libvirt_port_commands(&m, &c, &none, &Vec::new()), Err("getting guest network in libvirt create action".to_string()));
    assert!(libvirt_port_attached(&"ovs-vsctl: cannot create a port named tap0 because a port named tap0 already exists on bridge br-int".to_string()));
}

#[test]
fn libvirt_guest_stops_and_reports_its_state() {
    let c = common(StateNetwork::default());
    let m = cloud(Some("/images/vm.img"), None, None);
    let g = guest("vm", Some("tb0"), Some(vec![interface("sw0", "10.0.0.4", None), interface("sw1", "10.0.1.4", None)]), StateGuestType::Libvirt(m.clone()));
    let (destroy, ports) = libvirt_destroy_commands(&c, &g, &"tap0".to_string());
    assert_eq!(destroy, names(&["virsh", "destroy", "proj-vm"]));
    assert_eq!(ports, vec![names(&["ovs-vsctl", "del-port", "tap0"])]);
    let mut golden = g.clone();
    golden.is_golden_image = true;
    assert!(libvirt_destroy_commands(&c, &golden, &"tap0".to_string()).1.is_empty());
    assert_eq!(libvirt_dominfo_command(&c, &g), names(&["virsh", "dominfo", "proj-vm"]));
    assert_eq!(libvirt_is_up(&"State: running\n".to_string(), &c, &g), Ok(true));
    assert_eq!(libvirt_is_up(&"State: shut off\n".to_string(), &c, &g), Ok(false));
    assert_eq!(
        libvirt_is_up(&"error".to_string(), &c, &g),
        Err("for guest proj-vm could not find libvirt definition".to_string())
    );
}

#[test]
fn libvirt_images_move_between_hosts() {
    let c = common(StateNetwork::default());
    let m = cloud(Some("/images/vm.img"), None, None);
    let remote = guest("vm", Some("tb1"), None, StateGuestType::Libvirt(m.clone()));
    assert_eq!(
        libvirt_push_files(&m, &c, &remote),
        vec![
            ("/work/proj/artefacts//vm-cloud-disk.img".to_string(), "/images".to_string()),
            ("/work/proj/artefacts//vm-domain.xml".to_string(), "/images".to_string()),
            ("/work/proj/artefacts//vm-cloud-init.iso".to_string(), "/images".to_string()),
        ]
    );
    let disk = existing("/disks/win.qcow2", false);
    let remote_disk = guest("win", Some("tb1"), None, StateGuestType::Libvirt(disk.clone()));
    assert_eq!(
        libvirt_push_files(&disk, &c, &remote_disk),
        vec![
            ("/work/proj/artefacts//win.qcow2".to_string(), "/disks".to_string()),
            ("/work/proj/artefacts//win-domain.xml".to_string(), "/disks".to_string()),
        ]
    );
    let local = guest("vm", Some("tb0"), None, StateGuestType::Libvirt(m.clone()));
    assert!(libvirt_push_files(&m, &c, &local).is_empty());
    assert_eq!(libvirt_pull_paths(&m, &c, &local), None);
    assert_eq!(
        libvirt_pull_paths(&m, &c, &remote),
        Some(("/work/proj/artefacts/".to_string(), "/images/vm.img".to_string()))
    );
    assert!(libvirt_rebase_needed(&c, &remote));
    assert!(!libvirt_rebase_needed(&c, &local));
    assert_eq!(
        libvirt_rebase_command(&m, &"/remote/base.img".to_string()),
        names(&["qemu-img", "rebase", "-u", "-f", "qcow2", "-b", "/remote/base.img", "-F", "qcow2", "/images/vm.img"])
    );
}

#[test]
fn libvirt_images_are_set_up_before_deployment() {
    let c = common(StateNetwork::default());
    let with_setup = StateScaling { count: 2, shared_setup: Some("shared.sh".to_string()), interfaces: Vec::new(), clone_setup: None, clone_run: None };
    let base = cloud(Some("/images/base.img"), None, Some(with_setup));
    let mut g = guest("base", Some("tb0"), None, StateGuestType::Libvirt(base.clone()));
    g.is_golden_image = true;
    match libvirt_image_setup(&base, &c, &g).unwrap() {
        LibvirtImageSetup::SharedSetup { script, user, command } => {
            assert_eq!(script, "/work/proj/shared.sh");
            assert_eq!(user, "ubuntu");
            assert_eq!(command, names(&["sudo", "bash", "/tmp/shared.sh"]));
        }
        other => panic!("unexpected {other:?}"),
    }
    let no_scaling = cloud(Some("/images/base.img"), None, None);
    assert_eq!(
        libvirt_image_setup(&no_scaling, &c, &g).map(|_| ()),
        Err("getting scaling config for libvirt guest".to_string())
    );
    let clone = cloud(Some("/images/c1.qcow2"), Some("base"), None);
    let cg = guest("c1", Some("tb0"), None, StateGuestType::Libvirt(clone.clone()));
    match libvirt_image_setup(&clone, &c, &cg).unwrap() {
        LibvirtImageSetup::LinkedClone { pattern, clone_path } => {
            assert_eq!(pattern, "/work/proj/artefacts//base-*.img");
            assert_eq!(clone_path, "/work/proj/artefacts/c1-linked-clone.qcow2");
        }
        other => panic!("unexpected {other:?}"),
    }
    assert_eq!(first_backing_image(&Vec::new()), Err("could not find image".to_string()));
    assert_eq!(first_backing_image(&names(&["/a/base-1.img", "/a/base-2.img"])), Ok("/a/base-1.img".to_string()));
    assert_eq!(
        linked_clone_command(&"/a/base-1.img".to_string(), &"/a/c1.qcow2".to_string()),
        names(&["qemu-img", "create", "-f", "qcow2", "-b", "/a/base-1.img", "-F", "qcow2", "/a/c1.qcow2"])
    );
    assert!(libvirt_image_in_use(&"qemu-img: Failed to get write lock\nIs another process using the image [c1]?\n".to_string()));
    let (script, user, cmd) = libvirt_setup_script(&clone).unwrap();
    assert_eq!((script.as_str(), user.as_str()), ("setup.sh", "ubuntu"));
    assert_eq!(cmd, names(&["sudo", "bash", "/tmp/setup.sh"]));
}

#[test]
fn guest_polls_give_up_after_enough_failures() {
    let c = common(StateNetwork::default());
    let g = guest("vm", Some("tb0"), None, StateGuestType::Libvirt(cloud(Some("/images/vm.img"), None, None)));
    assert_eq!(wait_step(&c, &g, 0, true), WaitStep::Up);
    assert_eq!(wait_step(&c, &g, 3, false), WaitStep::Retry { next: 4 });
    assert_eq!(wait_step(&c, &g, 24, false), WaitStep::Retry { next: 25 });
    assert_eq!(
        wait_step(&c, &g, 25, false),
        WaitStep::GiveUp("could not connect to guest proj-vm to check if it is up, might not have booted successfully".to_string())
    );
    assert_eq!(
        dynamic_ip_query(&"proj-sw0-vm-0".to_string()),
        names(&["ovn-nbctl", "--bare", "--columns=dynamic_addresses", "find", "Logical_Switch_Port", "name=proj-sw0-vm-0"])
    );
}

#[test]
fn domain_settings_of_a_cloud_image_guest() {
    let c = common(StateNetwork::default());
    let m = cloud(Some("/images/vm-cloud-disk.img"), None, None);
    let g = guest("vm", Some("tb1"), Some(vec![interface("sw0", "10.0.0.4", None)]), StateGuestType::Libvirt(m.clone()));
    let a = libvirt_artefacts(&m, &c, &g, &names(&["tap0"])).unwrap();
    assert_eq!(a.domain.guest_name, "proj-vm");
    assert_eq!((a.domain.vcpu.as_str(), a.domain.memory.as_str()), ("2", "2048"));
    assert_eq!(a.domain.disk_path, "/images/vm-cloud-disk.img");
    assert_eq!(a.domain.cloud_init_iso, Some("/home/carol/testbed-projects/proj/artefacts//vm-cloud-init.iso".to_string()));
    assert_eq!(a.domain.interfaces, Some(vec![("tap0".to_string(), "00:00:00:00:00:05".to_string(), "00".to_string())]));
    assert!(!a.domain.extended_graphics_support);
    assert_eq!(a.domain.backing_image_network, None);
    assert_eq!(a.xml_dest, "/work/proj/artefacts/vm-domain.xml");
    assert_eq!(a.disk_path_on_master, "/work/proj/artefacts/vm-cloud-disk.img");
    assert_eq!(a.disk_expand, 5);
    let unplaced = guest("vm", None, None, StateGuestType::Libvirt(m.clone()));
    assert_eq!(libvirt_artefacts(&m, &c, &unplaced, &Vec::new()).map(|_| ()), Err("getting guest's testbed host".to_string()));
    let no_path = cloud(None, None, None);
    assert_eq!(
        libvirt_artefacts(&no_path, &c, &g, &names(&["tap0"])).map(|_| ()),
        Err("getting disk path for libvirt cloud-image guest".to_string())
    );
    let many: Vec<StateMachineNetwork> = (0..11).map(|_| interface("sw0", "dynamic", None)).collect();
    let busy = guest("vm", Some("tb0"), Some(many), StateGuestType::Libvirt(m.clone()));
    let ifs: Vec<String> = (0..11).map(|i| format!("tap{i}")).collect();
    assert_eq!(
        libvirt_artefacts(&m, &c, &busy, &ifs).map(|_| ()),
        Err("currently don't support a guest with more than 10 interfaces".to_string())
    );
    let mut no_master = common(StateNetwork::default());
    for h in no_master.testbed_hosts.iter_mut() {
        h.1.is_master_host = false;
    }
    assert_eq!(
        libvirt_artefacts(&m, &no_master, &g, &names(&["tap0"])).map(|_| ()),
        Err("could not find the master testbed host".to_string())
    );
}

#[test]
fn disks_are_prepared_by_kind() {
    let m = cloud(Some("/images/vm.img"), None, None);
    let g = guest("vm", Some("tb0"), None, StateGuestType::Libvirt(m.clone()));
    let dest = "/work/proj/artefacts/vm.img".to_string();
    let p = libvirt_disk_plan(&m, &g, &dest, false, false).unwrap();
    assert!(matches!(p.preparation, DiskPreparation::CopyCloudImage) && p.resize);
    let kept = libvirt_disk_plan(&m, &g, &dest, true, false).unwrap();
    assert!(matches!(kept.preparation, DiskPreparation::Keep) && !kept.resize);
    let forced = libvirt_disk_plan(&m, &g, &dest, true, true).unwrap();
    assert!(matches!(forced.preparation, DiskPreparation::CopyCloudImage));
    let disk = existing("/disks/win.qcow2", false);
    let dg = guest("win", Some("tb0"), None, StateGuestType::Libvirt(disk.clone()));
    match libvirt_disk_plan(&disk, &dg, &dest, false, false).unwrap().preparation {
        DiskPreparation::LinkedClone { command } => assert_eq!(
            command,
            names(&["qemu-img", "create", "-f", "qcow2", "-b", "/images/ref.qcow2", "-F", "qcow2", "/work/proj/artefacts/vm.img"])
        ),
        other => panic!("unexpected {other:?}"),
    }
    let mut no_ref = dg.clone();
    no_ref.extra_info.reference_image = None;
    assert_eq!(
        libvirt_disk_plan(&disk, &no_ref, &dest, false, false).map(|_| ()),
        Err("getting reference image for existing disk, must exist".to_string())
    );
}

#[test]
fn cloud_init_files_and_iso() {
    let c = common(StateNetwork::default());
    let m = cloud(Some("/images/vm.img"), None, None);
    let g = guest("vm", Some("tb0"), None, StateGuestType::Libvirt(m.clone()));
    let p = cloud_init_plan(&m, &c, &g, (false, false, false), false);
    assert_eq!(p.meta_data, Some("/work/proj/artefacts/meta-data".to_string()));
    let iso = p.iso.unwrap();
    assert_eq!(iso.dest, "/work/proj/artefacts/vm-cloud-init.iso");
    assert_eq!(
        iso.inputs,
        names(&["/work/proj/artefacts/meta-data", "/work/proj/artefacts/user-data", "/work/proj/artefacts/network-config", "/work/proj/artefacts/context.tar"])
    );
    assert_eq!(iso.context, Some("ctx".to_string()));
    let partial = cloud_init_plan(&m, &c, &g, (true, false, false), false);
    assert!(partial.meta_data.is_none() && partial.user_data.is_some() && partial.iso.is_none());
}

#[test]
fn android_device_gets_a_namespace_and_port() {
    let c = common(ovn_with_port("proj-sw0-phone-0"));
    let avd = StateAVDMachine {
        static_ip: None,
        avd_type: StateAVDGuestOptions::Avd { android_api_version: 30, playstore_enabled: false, setup_script: None, run_script: None },
        scaling: None,
    };
    let g = guest("phone", Some("tb0"), Some(vec![interface("sw0", "dynamic", Some("10.0.0.1"))]), StateGuestType::Android(avd.clone()));
    let iface = "veth0".to_string();
    let setup = android_setup_commands(&c, &g, &iface).unwrap();
    assert_eq!(setup[1], names(&["ip", "netns", "add", "proj-phone-nmspc"]));
    assert_eq!(setup[4], names(&["ip", "netns", "exec", "proj-phone-nmspc", "ip", "link", "set", "veth0", "address", "00:00:00:00:00:09"]));
    assert_eq!(android_dynamic_port(&c, &g), Some("proj-sw0-phone-0".to_string()));
    let addr = android_address_commands(&c, &g, &iface, &"10.0.0.7".to_string());
    assert_eq!(addr[0], names(&["ip", "netns", "exec", "proj-phone-nmspc", "ip", "addr", "add", "10.0.0.7/24", "dev", "veth0"]));
    assert_eq!(addr[2], names(&["ip", "netns", "exec", "proj-phone-nmspc", "ip", "route", "add", "default", "via", "10.0.0.1", "dev", "veth0"]));
    assert_eq!(
        android_emulator_command(&c, &g),
        names(&["ip", "netns", "exec", "proj-phone-nmspc", "/opt/android-sdk/emulator/emulator", "-avd", "proj-phone"])
    );
    let destroy = android_destroy_commands(&c, &g, &iface);
    assert_eq!(destroy[1], names(&["ovs-vsctl", "del-port", "br-int", "veth0"]));
    assert_eq!(destroy[2], names(&["ip", "netns", "delete", "proj-phone-nmspc"]));
    assert_eq!((&setup[0][3], &setup[0][4]), (&destroy[1][2], &destroy[1][3]));
    assert_eq!(setup[1][3], destroy[2][3]);
    let remote = guest("phone", Some("tb1"), None, StateGuestType::Android(avd.clone()));
    assert_eq!(
        android_setup_commands(&c, &remote, &iface),
        Err("currently dont support AVD guests on remote testbed hosts".to_string())
    );
    let no_gw = guest("phone", Some("tb0"), Some(vec![interface("sw0", "10.0.0.4", None)]), StateGuestType::Android(avd));
    assert_eq!(android_setup_commands(&c, &no_gw, &iface), Err("android guest was not given a gateway".to_string()));
}

fn state(guests: Vec<(String, StateTestbedGuest)>, provisioned: bool) -> State {
    State {
        project_name: "proj".to_string(),
        creation_date: "today".to_string(),
        project_working_dir: "/work/proj".to_string(),
        testbed_hosts: StateTestbedHostList(vec![("tb0".to_string(), host("alice", "10.10.0.1", true))]),
        testbed_guests: StateTestbedGuestList(guests),
        testbed_host_shared_config: StateTestbedHostSharedConfig {},
        testbed_guest_shared_config: StateTestbedGuestSharedConfig::default(),
        network: StateNetwork::default(),
        state_provisioning: StateProvisioning { guests_provisioned: provisioned },
    }
}

#[test]
fn deployment_steps_follow_provisioning() {
    let mut c = common(StateNetwork::default());
    let with_setup = StateScaling { count: 2, shared_setup: Some("shared.sh".to_string()), interfaces: Vec::new(), clone_setup: None, clone_run: None };
    let mut base = guest("base", Some("tb0"), None, StateGuestType::Libvirt(cloud(Some("/i/b.img"), None, Some(with_setup))));
    base.is_golden_image = true;
    let fresh = state(vec![("base".to_string(), base)], false);
    assert_eq!(
        request_create_plan(&fresh, &c),
        vec![
            DeploymentStep::TestbedHostCheck, DeploymentStep::Setup, DeploymentStep::CreateNetwork, DeploymentStep::CreateTempNetwork, DeploymentStep::SetupBackingImages, DeploymentStep::DestroyTempNetwork,
            DeploymentStep::SetupLinkedClones, DeploymentStep::PushGuestImages, DeploymentStep::PushBackingGuestImages, DeploymentStep::RebaseCloneImages, DeploymentStep::DeployGuests,
            DeploymentStep::RunGuestSetupScripts, DeploymentStep::RunGuestRunScripts,
        ]
    );
    let done = state(Vec::new(), true);
    assert_eq!(
        request_create_plan(&done, &c),
        vec![DeploymentStep::TestbedHostCheck, DeploymentStep::Setup, DeploymentStep::CreateNetwork, DeploymentStep::PushGuestImages, DeploymentStep::PushBackingGuestImages, DeploymentStep::RebaseCloneImages, DeploymentStep::DeployGuests, DeploymentStep::RunGuestRunScripts]
    );
    c.force_rerun_scripts = true;
    assert!(request_create_plan(&done, &c).contains(&DeploymentStep::RunGuestSetupScripts));
    assert_eq!(request_destroy_plan(), vec![DeploymentStep::TestbedHostCheck, DeploymentStep::DestroyGuests, DeploymentStep::DestroyTempNetwork, DeploymentStep::DestroyNetwork]);
}

#[test]
fn hosts_checks_temporary_network_and_devices_to_delete() {
    let c = common(StateNetwork::default());
    assert_eq!(
        host_check_requests(&c),
        vec![("tb1".to_string(), names(&["-s", "http://10.10.0.2:3355/api/config/status"]))]
    );
    assert_eq!(host_check_result(&"tb1".to_string(), &Ok("{}".to_string())), Ok(()));
    assert_eq!(
        host_check_result(&"tb1".to_string(), &Ok("curl: (7) Failed to connect to 10.10.0.2".to_string())),
        Err("could not reach client testbed host tb1, is the client testbed server running?".to_string())
    );
    assert_eq!(
        host_check_result(&"tb1".to_string(), &Err("timeout".to_string())),
        Err("could not reach client testbed host tb1 with err timeout".to_string())
    );
    let (name, bridge, xml, cmd) = temp_network_on(&"proj".to_string(), &"/work/proj".to_string());
    assert_eq!((name.as_str(), bridge.as_str(), xml.as_str()), ("proj-testbedos", "temp-net-tbos", "/work/proj/artefacts/temporary-network.xml"));
    assert_eq!(cmd, names(&["virsh", "net-create", "/work/proj/artefacts/temporary-network.xml"]));
    let (off, file) = temp_network_off(&"proj".to_string(), &"/work/proj".to_string());
    assert_eq!(off, names(&["virsh", "net-destroy", "proj-testbedos"]));
    assert_eq!(file, xml);
    let avd = StateAVDMachine {
        static_ip: None,
        avd_type: StateAVDGuestOptions::ExistingAvd { path: "/avd".to_string(), run_script: None },
        scaling: None,
    };
    let s = state(vec![("phone".to_string(), guest("phone", Some("tb0"), None, StateGuestType::Android(avd)))], true);
    assert_eq!(
        avd_deletions(&c, &s),
        vec![("tb0".to_string(), names(&["/opt/android-sdk/cmdline-tools/latest/bin/avdmanager", "delete", "avd", "-n", "proj-phone"]))]
    );
    assert_eq!(state_file_path(&"/work/proj".to_string(), &"proj".to_string()), "/work/proj/proj-state.json");
}

#[test]
fn acl_rules_are_reapplied_only_to_existing_switches() {
    let rule = ACLRule { direction: ACLDirection::ToLport, priority: 10, _match: "ip".to_string(), action: ACLAction::Drop };
    let mut current = OvnNetwork::new();
    current.add_switch("sw0".into(), IpAddr::V4(Ipv4Addr::new(10, 0, 0, 0)), 24).unwrap();
    current.add_switch_acl(&"old".to_string(), "sw0".into(), ACLRecordType::Switch, &rule).unwrap();
    let mut new = OvnNetwork::new();
    new.add_switch("sw0".into(), IpAddr::V4(Ipv4Addr::new(10, 0, 0, 0)), 24).unwrap();
    new.add_switch_acl(&"new".to_string(), "sw0".into(), ACLRecordType::Switch, &rule).unwrap();
    let plan = reapply_acl_plan(&StateNetwork::Ovn(current.clone()), &StateNetwork::Ovn(new)).unwrap();
    assert_eq!(plan.destroy.len(), 1);
    assert_eq!(plan.deploy.len(), 1);
    assert_eq!(plan.deploy[0].entity_name, "sw0");
    let mut elsewhere = OvnNetwork::new();
    elsewhere.add_switch("sw9".into(), IpAddr::V4(Ipv4Addr::new(10, 0, 0, 0)), 24).unwrap();
    elsewhere.add_switch_acl(&"x".to_string(), "sw9".into(), ACLRecordType::Switch, &rule).unwrap();
    assert_eq!(
        reapply_acl_plan(&StateNetwork::Ovn(current.clone()), &StateNetwork::Ovn(elsewhere)).map(|_| ()),
        Err("there are switches in the ACL list that don't exist in the current state".to_string())
    );
    assert_eq!(
        reapply_acl_plan(&StateNetwork::Ovs(StateOvsNetwork {}), &StateNetwork::Ovn(current.clone())).map(|_| ()),
        Err("acl not implemented for ovs".to_string())
    );
    assert_eq!(
        reapply_acl_plan(&StateNetwork::Ovn(current), &StateNetwork::Ovs(StateOvsNetwork {})).map(|_| ()),
        Err("no OVN network defined in yaml".to_string())
    );
}

fn replies(rs: &[Result<&str, &str>]) -> Vec<Result<String, String>> {
    rs.iter().map(|r| r.map(|s| s.to_string()).map_err(|e| e.to_string())).collect()
}

#[test]
fn a_libvirt_guest_starts_then_attaches_each_interface() {
    let c = common(StateNetwork::default());
    let m = cloud(Some("/images/vm.img"), None, None);
    let g = guest("vm", Some("tb1"), Some(vec![interface("sw0", "10.0.0.4", None), interface("sw1", "10.0.1.4", None)]), StateGuestType::Libvirt(m.clone()));
    let ifs = names(&["tap0", "tap1"]);
    let step = |rs: &[Result<&str, &str>]| libvirt_create_step(&m, &c, &g, &ifs, &replies(rs));
    let ports = libvirt_port_commands(&m, &c, &g, &ifs).unwrap();
    assert_eq!(step(&[]), GuestAction::Run(libvirt_create_command(&c, &g)));
    assert_eq!(step(&[Err("error: domain 'proj-vm' already exists with uuid 12")]), GuestAction::Done);
    assert_eq!(step(&[Err("error: no such file")]), GuestAction::Fail("error: no such file".to_string()));
    assert_eq!(step(&[Ok("")]), GuestAction::Run(ports[0].clone()));
    assert_eq!(step(&[Ok(""), Ok("")]), GuestAction::Run(ports[1].clone()));
    assert_eq!(step(&[Ok(""), Err("tap0 already exists on bridge br-int1")]), GuestAction::Done);
    assert_eq!(step(&[Ok(""), Err("ovs down")]), GuestAction::Fail("ovs down".to_string()));
    assert_eq!(step(&[Ok(""), Ok(""), Ok("")]), GuestAction::Done);
}

#[test]
fn a_device_is_set_up_addressed_and_started_in_order() {
    let c = common(ovn_with_port("proj-sw0-phone-0"));
    let avd = StateAVDMachine {
        static_ip: None,
        avd_type: StateAVDGuestOptions::Avd { android_api_version: 30, playstore_enabled: false, setup_script: None, run_script: None },
        scaling: None,
    };
    let g = guest("phone", Some("tb0"), Some(vec![interface("sw0", "dynamic", Some("10.0.0.1"))]), StateGuestType::Android(avd.clone()));
    let iface = "veth0".to_string();
    let setup = android_setup_commands(&c, &g, &iface).unwrap();
    let step = |rs: &[Result<&str, &str>]| android_create_step(&c, &g, &iface, &replies(rs));
    assert_eq!(step(&[]), GuestAction::Run(setup[0].clone()));
    assert_eq!(step(&[Err("exists")]), GuestAction::Run(setup[1].clone()));
    let done: Vec<Result<&str, &str>> = vec![Ok(""); setup.len()];
    assert_eq!(step(&done), GuestAction::Run(dynamic_ip_query(&"proj-sw0-phone-0".to_string())));
    let mut with_ip = done.clone();
    with_ip.push(Ok("00:00:00:00:00:09 10.0.0.7\n"));
    let addr = android_address_commands(&c, &g, &iface, &"10.0.0.7".to_string());
    assert_eq!(step(&with_ip), GuestAction::Run(addr[0].clone()));
    let mut all = with_ip.clone();
    all.extend([Err("ignored"), Ok(""), Ok("")]);
    assert_eq!(step(&all), GuestAction::Run(android_emulator_command(&c, &g)));
    let mut started = all.clone();
    started.push(Ok(""));
    assert_eq!(step(&started), GuestAction::Done);
    all.push(Err("no emulator"));
    assert_eq!(step(&all), GuestAction::Fail("no emulator".to_string()));
    let mut lost = done.clone();
    lost.push(Err("no db"));
    assert_eq!(step(&lost), GuestAction::Fail("no db".to_string()));
    let remote = guest("phone", Some("tb1"), None, StateGuestType::Android(avd));
    assert_eq!(
        android_create_step(&c, &remote, &iface, &Vec::new()),
        GuestAction::Fail("currently dont support AVD guests on remote testbed hosts".to_string())
    );
}

fn outcomes(rs: &[Result<(), &str>]) -> Vec<Result<(), String>> {
    rs.iter().map(|r| r.map_err(|e| e.to_string())).collect()
}

#[test]
fn artefacts_are_written_in_order_and_nothing_after_a_refusal() {
    let c = common(StateNetwork::default());
    let m = cloud(Some("/images/vm-cloud-disk.img"), None, None);
    let g = guest("vm", Some("tb1"), Some(vec![interface("sw0", "10.0.0.4", None)]), StateGuestType::Libvirt(m.clone()));
    let ifs = names(&["tap0"]);
    let step = |rs: &[Result<(), &str>]| libvirt_artefacts_step(&m, &c, &g, &ifs, false, (false, false, false), false, &outcomes(rs));
    match step(&[]) {
        ArtefactAction::WriteDomain(a) => assert_eq!(a.xml_dest, "/work/proj/artefacts/vm-domain.xml"),
        other => panic!("unexpected {other:?}"),
    }
    assert!(matches!(step(&[Err("disk full")]), ArtefactAction::Fail(e) if e == "disk full"));
    match step(&[Ok(())]) {
        ArtefactAction::PrepareDisk(a, p) => {
            assert_eq!(a.disk_path_on_master, "/work/proj/artefacts/vm-cloud-disk.img");
            assert!(matches!(p.preparation, DiskPreparation::CopyCloudImage));
        },
        other => panic!("unexpected {other:?}"),
    }
    match step(&[Ok(()), Ok(())]) {
        ArtefactAction::WriteCloudInit(p) => assert_eq!(p.meta_data, Some("/work/proj/artefacts/meta-data".to_string())),
        other => panic!("unexpected {other:?}"),
    }
    assert!(matches!(step(&[Ok(()), Err("copy failed")]), ArtefactAction::Fail(e) if e == "copy failed"));
    assert!(matches!(step(&[Ok(()), Ok(()), Ok(())]), ArtefactAction::Done));
    let many: Vec<StateMachineNetwork> = (0..11).map(|_| interface("sw0", "dynamic", None)).collect();
    let busy = guest("vm", Some("tb0"), Some(many), StateGuestType::Libvirt(m.clone()));
    let ifs11: Vec<String> = (0..11).map(|i| format!("tap{i}")).collect();
    assert!(matches!(
        libvirt_artefacts_step(&m, &c, &busy, &ifs11, false, (false, false, false), false, &Vec::new()),
        ArtefactAction::Fail(e) if e == "currently don't support a guest with more than 10 interfaces"
    ));
}
