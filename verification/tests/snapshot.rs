use kvm_compose::snapshot::qemu_img::{disk_plan, running_from_reply, stop_wait_step, DiskAction, StopWaitStep};
use kvm_compose::orchestration::{OrchestrationCommon, TestbedClusterConfig};
use kvm_compose::snapshot::testbed_snapshot::{snapshot_libvirt_guests, snapshot_pull_guests, snapshot_targets, zip_command};
use kvm_compose::state::{State, StateNetwork, StateProvisioning, StateTestbedGuestSharedConfig, StateTestbedHost, StateTestbedHostList, StateTestbedHostSharedConfig};
use kvm_compose::state::schema::guest::{StateGuestType, StateMachine, StateTestbedGuest, StateTestbedGuestExtraInfo};
use kvm_compose::state::schema::machines::libvirt::{StateDiskDeviceType, StateDiskDriverType, StateLibvirtGuestOptions, StateLibvirtMachine};
use kvm_compose::snapshot::{GuestDiskSnapshot, GuestSnapshots, TestbedSnapshots};
use kvm_compose::snapshot::qemu_img::{domain_xml_path_from, QemuImg, QemuImgSnapshot, SnapshotError};
use kvm_compose::snapshot::snapshot_cmd::{
    done_message, group_snapshot_name, group_snapshot_report, snapshot_step, SnapshotCreate, SnapshotList, SnapshotStep,
    SnapshotSubCommand,
};
use kvm_compose::state::StateTestbedGuestList;

fn snap(name: &str, id: &str, date_sec: i64) -> QemuImgSnapshot {
    QemuImgSnapshot { name: name.to_string(), id: id.to_string(), date_sec }
}

fn img(snapshots: Option<Vec<QemuImgSnapshot>>) -> QemuImg {
    QemuImg { snapshots, filename: "/work/proj/artefacts/vm-cloud-disk.img".to_string() }
}

#[test]
fn guest_names_get_the_project_prefix_once() {
    let p = "proj".to_string();
    assert_eq!(TestbedSnapshots::guest_name_helper(&p, &"vm".to_string()), "proj-vm");
    assert_eq!(TestbedSnapshots::guest_name_helper(&p, &"proj-vm".to_string()), "proj-vm");
}

#[test]
fn domain_definition_is_found_from_the_image_name() {
    assert_eq!(domain_xml_path_from("/a", "vm-cloud-disk"), Ok("/a/vm-domain.xml".to_string()));
    assert_eq!(domain_xml_path_from("/a", "vm-linked-clone"), Ok("/a/vm-domain.xml".to_string()));
    assert_eq!(domain_xml_path_from("/a", "x-iso-guest-iso-guest"), Ok("/a/x-iso-guest-domain.xml".to_string()));
    assert_eq!(domain_xml_path_from("/a", "vm"), Err(SnapshotError::NoGuestName));
    assert_eq!(img(None).get_domain_xml_path(), Ok("/work/proj/artefacts/vm-domain.xml".to_string()));
}

#[test]
fn the_most_recent_snapshot_is_the_last_with_the_latest_date() {
    let i = img(Some(vec![snap("a", "1", 10), snap("b", "2", 30), snap("c", "3", 30), snap("d", "4", 20)]));
    assert_eq!(i.get_most_recent_snapshot(), Some("c".to_string()));
    assert_eq!(img(Some(Vec::new())).get_most_recent_snapshot(), None);
    assert_eq!(img(None).get_most_recent_snapshot(), None);
    assert_eq!(i.list(), Some(vec!["a".to_string(), "b".to_string(), "c".to_string(), "d".to_string()]));
}

#[test]
fn snapshots_print_with_utc_dates() {
    assert!(snap("epoch", "0", 0).to_string().ends_with("date = 1970-01-01 00:00:00 UTC\n"));
    assert!(snap("first day", "0", -8334601228800).to_string().ends_with("date = -262143-01-01 00:00:00 UTC\n"));
    assert!(snap("last second", "0", 8210266876799).to_string().ends_with("date = +262142-12-31 23:59:59 UTC\n"));
    let s = snap("first", "1", 86400);
    assert_eq!(s.to_string(), "\nSnapshot:\n\tname = first\n\tid = 1\n\tdate = 1970-01-02 00:00:00 UTC\n");
    let i = img(Some(vec![s.clone()]));
    assert_eq!(i.info_one(&"first".to_string()), Some(s.to_string()));
    assert_eq!(i.info_one(&"second".to_string()), None);
    assert_eq!(img(None).print_list(), vec!["\nno snapshots...".to_string()]);
    assert_eq!(
        img(None).to_string(),
        "\nQemu Img:\nfilename = \"/work/proj/artefacts/vm-cloud-disk.img\"\nSnapshot list:\n\n\tNo snapshots."
    );
}

#[test]
fn listing_every_guest() {
    let empty = TestbedSnapshots { project_name: "proj".to_string(), guests: Vec::new() };
    assert_eq!(empty.list_all_snapshots(), "No snapshots to list");
    let g = GuestSnapshots { guest_name: "proj-vm".to_string(), testbed_host: "tb0".to_string(), snapshot: img(None) };
    let t = TestbedSnapshots { project_name: "proj".to_string(), guests: vec![g] };
    assert_eq!(t.list_all_snapshots(), "Guest name: proj-vm\nno snapshots...\n");
    assert_eq!(t.list_snapshots(&"vm".to_string()), Ok("Guest name: proj-vm\nno snapshots...".to_string()));
    assert_eq!(t.info(&"other".to_string()), Err("Getting name of guest to give disk info".to_string()));
}

#[test]
fn group_snapshots_are_reported_per_guest() {
    assert_eq!(group_snapshot_name("2024"), "group-snapshot-2024");
    let s = snap("group-snapshot-2024", "1", 0);
    let g1 = GuestSnapshots { guest_name: "proj-a".to_string(), testbed_host: "tb0".to_string(), snapshot: img(Some(vec![s.clone()])) };
    let g2 = GuestSnapshots { guest_name: "proj-b".to_string(), testbed_host: "tb0".to_string(), snapshot: img(None) };
    let ok = TestbedSnapshots { project_name: "proj".to_string(), guests: vec![g1.clone()] };
    assert_eq!(group_snapshot_report(&ok, &"group-snapshot-2024".to_string()), Ok(vec![s.to_string()]));
    let bad = TestbedSnapshots { project_name: "proj".to_string(), guests: vec![g1, g2] };
    assert_eq!(
        group_snapshot_report(&bad, &"group-snapshot-2024".to_string()),
        Err("could not find group-snapshot-2024 for proj-b".to_string())
    );
}

#[test]
fn snapshot_commands_come_to_their_steps() {
    let guests = StateTestbedGuestList(Vec::new());
    let create = SnapshotSubCommand::Create(SnapshotCreate { all: false, name: Some("vm".to_string()), snapshot: None });
    assert_eq!(snapshot_step(&create, &guests), Err("must supply both the guest name and snapshot name".to_string()));
    let create = SnapshotSubCommand::Create(SnapshotCreate { all: false, name: Some("vm".to_string()), snapshot: Some("s".to_string()) });
    let step = snapshot_step(&create, &guests).unwrap();
    assert_eq!(step, SnapshotStep::Create { guest: "vm".to_string(), snapshot: "s".to_string() });
    assert_eq!(done_message(&step), Some("snapshot created".to_string()));
    let list = SnapshotSubCommand::List(SnapshotList { all: false, name: None });
    assert_eq!(snapshot_step(&list, &guests), Err("no guest name specified".to_string()));
    let list_all = SnapshotSubCommand::List(SnapshotList { all: true, name: None });
    assert_eq!(snapshot_step(&list_all, &guests), Ok(SnapshotStep::ListAll));
    assert_eq!(done_message(&SnapshotStep::ListAll), None);
    let delete = SnapshotSubCommand::Delete { name: None, snapshot: None, all: true };
    assert_eq!(snapshot_step(&delete, &guests), Err("Getting guest name for delete command".to_string()));
}

#[test]
fn snapshot_actions_find_their_guest_and_plan_around_a_running_guest() {
    let g = GuestSnapshots { guest_name: "proj-vm".to_string(), testbed_host: "tb0".to_string(), snapshot: img(Some(vec![snap("a", "1", 1)])) };
    let empty = GuestSnapshots { guest_name: "proj-db".to_string(), testbed_host: "tb0".to_string(), snapshot: img(None) };
    let t = TestbedSnapshots { project_name: "proj".to_string(), guests: vec![g, empty] };
    assert_eq!(t.create_target(&"vm".to_string()), Ok(0));
    assert_eq!(t.restore_target(&"proj-db".to_string()), Ok(1));
    assert_eq!(t.delete_target(&"x".to_string()), Err("Getting name of guest to delete snapshot".to_string()));
    assert_eq!(t.delete_all_target(&"vm".to_string()), Ok(Some(0)));
    assert_eq!(t.delete_all_target(&"db".to_string()), Ok(None));
    let cmd = t.guests[0].snapshot.snapshot_command("-d", &"a".to_string());
    let plan = disk_plan(vec![cmd.clone()], true);
    assert_eq!(plan.len(), 3);
    assert!(matches!(plan[0], DiskAction::StopGuest));
    assert!(matches!(&plan[1], DiskAction::Run(c) if *c == cmd));
    assert!(matches!(plan[2], DiskAction::StartGuest));
    assert_eq!(disk_plan(vec![cmd.clone()], false).len(), 1);
    assert!(running_from_reply(&Ok("State: running".to_string())));
    assert!(!running_from_reply(&Err("no domain".to_string())));
    assert_eq!(stop_wait_step(0, true), StopWaitStep::Retry { next: 1 });
    assert_eq!(stop_wait_step(3, false), StopWaitStep::Stopped);
    assert_eq!(stop_wait_step(13, false), StopWaitStep::GiveUp("could not ensure guest was down, too slow or issue?".to_string()));
    assert_eq!(QemuImg::info_command(&"/i/vm.img".to_string()), vec!["qemu-img", "info", "--output=json", "/i/vm.img", "--force-share"]);
    assert_eq!(QemuImg::stop_command(&"proj-vm".to_string()), vec!["virsh", "shutdown", "proj-vm"]);
    assert_eq!(img(None).start_command(), Some(Ok(vec!["virsh".to_string(), "create".to_string(), "/work/proj/artefacts/vm-domain.xml".to_string()])));
}

#[test]
fn testbed_snapshot_guests_and_archive() {
    let h = |m: bool| StateTestbedHost { username: "u".into(), ssh_private_key_location: "k".into(), ip: "i".into(), testbed_nic: "n".into(), is_master_host: m };
    let common = OrchestrationCommon {
        testbed_hosts: vec![("tb0".to_string(), h(true)), ("tb1".to_string(), h(false))],
        testbed_guest_shared_config: StateTestbedGuestSharedConfig::default(),
        project_name: "proj".into(),
        project_working_dir: "/work/proj".into(),
        force_provisioning: false,
        force_rerun_scripts: false,
        reapply_acl: false,
        kvm_compose_config: TestbedClusterConfig { testbed_host_ssh_config: Vec::new(), ssh_public_key_location: String::new(), ssh_private_key_location: String::new() },
        network: StateNetwork::default(),
        fs_user: 0,
        fs_group: 0,
    };
    let vm = |host: &str| StateTestbedGuest {
        guest_type: StateMachine {
            name: "vm".into(),
            network: None,
            guest_type: StateGuestType::Libvirt(StateLibvirtMachine {
                memory_mb: 1, cpus: 1,
                libvirt_type: StateLibvirtGuestOptions::ExistingDisk { path: "/d/vm.qcow2".into(), driver_type: StateDiskDriverType::QCow2, device_type: StateDiskDeviceType::Disk, readonly: false, create_deep_copy: false },
                username: None, password: None, hostname: "vm".into(), ssh_address: String::new(), scaling: None, is_clone_of: None, tcp_tty_port: None, static_ip: None,
            }),
        },
        testbed_host: Some(host.to_string()),
        is_golden_image: false,
        guest_id: 0,
        extra_info: StateTestbedGuestExtraInfo { reference_image: None },
    };
    let s = State {
        project_name: "proj".into(),
        creation_date: String::new(),
        project_working_dir: "/work/proj".into(),
        testbed_hosts: StateTestbedHostList(Vec::new()),
        testbed_guests: kvm_compose::state::StateTestbedGuestList(vec![("a".to_string(), vm("tb0")), ("b".to_string(), vm("tb1"))]),
        testbed_host_shared_config: StateTestbedHostSharedConfig {},
        testbed_guest_shared_config: StateTestbedGuestSharedConfig::default(),
        network: StateNetwork::default(),
        state_provisioning: StateProvisioning { guests_provisioned: true },
    };
    assert_eq!(snapshot_libvirt_guests(&s), vec![0, 1]);
    assert_eq!(snapshot_pull_guests(&s, &common), Ok(vec![1]));
    assert_eq!(
        snapshot_targets(&s, &common),
        Ok(vec![
            ("proj-a".to_string(), "tb0".to_string(), "/d/vm.qcow2".to_string()),
            ("proj-b".to_string(), "tb1".to_string(), "/d/vm.qcow2".to_string()),
        ])
    );
    let (host, cmd, folder) = zip_command(&common, "2024-01-01T00:00:00+00:00");
    assert_eq!(host, "tb0");
    assert_eq!(cmd, vec!["zip", "-r", "proj-snapshot-2024-01-01T00:00:00+00:00.zip", ".", "-x", "proj-state.json", "-b", "/tmp"]);
    assert_eq!(folder, "/work/proj");
}
