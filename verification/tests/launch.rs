use krunvm::config::{KrunvmConfig, NetworkMode, VmConfig};
use krunvm::create::{prepare_create, register_vm, CreateCmdArgs};
use krunvm::start::{
    build_env, build_launch_plan, build_mount_wrapper, lock_path, mount_script_contents,
    mount_script_host_path, shared_fs_entries, start_init, start_step, ConfigStep, MountStyle,
    NetworkPlan, SharedFsEntry, StartAction, StartEvent, StartFailure, StartMachine, StartPhase,
    VolumePlan,
};

fn demo_vm() -> VmConfig {
    VmConfig {
        name: "demo".to_string(),
        cpus: 2,
        mem: 512,
        container: "c1".to_string(),
        workdir: String::new(),
        dns: "1.1.1.1".to_string(),
        network_mode: NetworkMode::Tsi,
        mapped_volumes: Vec::new(),
        mapped_ports: Vec::new(),
    }
}

#[test]
fn the_launch_plan_pins_the_guest_configuration() {
    let vm = demo_vm();
    let rootfs = "/mnt/demo".to_string();
    let plan = build_launch_plan(
        &vm,
        &rootfs,
        Some("echo".to_string()),
        vec!["hi".to_string()],
        &Vec::new(),
        MountStyle::BindMount,
    );
    assert_eq!(plan.cpus, 2);
    assert_eq!(plan.mem, 512);
    assert_eq!(plan.rootfs, "/mnt/demo");
    assert!(plan.workdir.is_none());
    assert_eq!(plan.env, vec!["HOSTNAME=demo", "HOME=/root"]);
    let gc = plan.guest_command.unwrap();
    assert_eq!(gc.command, "echo");
    assert_eq!(gc.args, vec!["hi"]);
    match plan.network {
        NetworkPlan::PortMap(table) => assert!(table.is_empty()),
        NetworkPlan::SocketAttached { .. } => panic!("port forwarding was configured"),
    }
    match plan.volumes {
        VolumePlan::Bind(mounts) => assert!(mounts.is_empty()),
        VolumePlan::Shared(_) => panic!("bind mounts were configured"),
    }
}

#[test]
fn the_launch_plan_builds_the_port_table_in_order() {
    let vm = VmConfig {
        mapped_ports: vec![
            ("80".to_string(), "8080".to_string()),
            ("443".to_string(), "8443".to_string()),
        ],
        mapped_volumes: vec![("/data".to_string(), "/a".to_string())],
        workdir: "/w".to_string(),
        ..demo_vm()
    };
    let rootfs = "/mnt/demo".to_string();
    let plan = build_launch_plan(&vm, &rootfs, None, Vec::new(), &Vec::new(), MountStyle::BindMount);
    assert!(plan.guest_command.is_none());
    assert_eq!(plan.workdir, Some("/w".to_string()));
    match plan.network {
        NetworkPlan::PortMap(table) => assert_eq!(table, vec!["80:8080", "443:8443"]),
        NetworkPlan::SocketAttached { .. } => panic!("port forwarding was configured"),
    }
    match plan.volumes {
        VolumePlan::Bind(mounts) => {
            assert_eq!(mounts.len(), 1);
            assert_eq!(mounts[0].host, "/data");
            assert_eq!(mounts[0].target, "/mnt/demo/a");
        }
        VolumePlan::Shared(_) => panic!("bind mounts were configured"),
    }
}

#[test]
fn the_socket_attached_backend_joins_the_mappings() {
    let vm = VmConfig {
        network_mode: NetworkMode::Passt,
        mapped_ports: vec![
            ("80".to_string(), "8080".to_string()),
            ("443".to_string(), "8443".to_string()),
        ],
        ..demo_vm()
    };
    let rootfs = "/mnt/demo".to_string();
    let plan = build_launch_plan(&vm, &rootfs, None, Vec::new(), &Vec::new(), MountStyle::BindMount);
    match plan.network {
        NetworkPlan::SocketAttached { ports_arg } => {
            assert_eq!(ports_arg, Some("80:8080,443:8443".to_string()));
        }
        NetworkPlan::PortMap(_) => panic!("the socket backend was configured"),
    }

    let none = VmConfig {
        network_mode: NetworkMode::Passt,
        ..demo_vm()
    };
    let plan = build_launch_plan(&none, &rootfs, None, Vec::new(), &Vec::new(), MountStyle::BindMount);
    match plan.network {
        NetworkPlan::SocketAttached { ports_arg } => assert_eq!(ports_arg, None),
        NetworkPlan::PortMap(_) => panic!("the socket backend was configured"),
    }
}

#[test]
fn shared_filesystem_entries_are_tagged_by_position() {
    let volumes = vec![
        ("/data".to_string(), "/a".to_string()),
        ("/logs".to_string(), "/b".to_string()),
    ];
    let entries = shared_fs_entries(&volumes);
    assert_eq!(entries.len(), 2);
    assert_eq!(entries[0].tag, "krunvm0");
    assert_eq!(entries[0].host, "/data");
    assert_eq!(entries[0].guest, "/a");
    assert_eq!(entries[1].tag, "krunvm1");
    assert_eq!(entries[1].guest, "/b");
}

#[test]
fn the_environment_is_synthesized_before_user_entries() {
    let env = build_env(
        &"demo".to_string(),
        &vec!["K=V".to_string(), "A=B".to_string()],
    );
    assert_eq!(env, vec!["HOSTNAME=demo", "HOME=/root", "K=V", "A=B"]);
}

#[test]
fn the_mount_helper_script_is_exact() {
    let mounts = vec![
        SharedFsEntry {
            tag: "krunvm0".to_string(),
            host: "/data".to_string(),
            guest: "/a".to_string(),
        },
    ];
    assert_eq!(
        mount_script_contents(&mounts),
        "#!/bin/sh\nset -e\nmount -t virtiofs krunvm0 /a\nexec \"$@\"\n"
    );
    assert_eq!(
        mount_script_host_path(&"/mnt/demo".to_string()),
        "/mnt/demo/.krunvm-mount.sh"
    );
}

#[test]
fn the_mount_wrapper_takes_over_the_entry_point() {
    let mounts = vec![SharedFsEntry {
        tag: "krunvm0".to_string(),
        host: "/data".to_string(),
        guest: "/a".to_string(),
    }];
    let (path, args) = build_mount_wrapper(
        &Some("echo".to_string()),
        &vec!["hi".to_string()],
        &mounts,
    )
    .unwrap();
    assert_eq!(path, "/.krunvm-mount.sh");
    assert_eq!(args, vec!["echo", "hi"]);

    let (_, args) = build_mount_wrapper(&None, &Vec::new(), &mounts).unwrap();
    assert_eq!(args, vec!["/bin/sh"]);

    assert!(build_mount_wrapper(&None, &Vec::new(), &Vec::new()).is_none());
}

#[test]
fn the_lock_lives_inside_the_mounted_rootfs() {
    assert_eq!(lock_path(&"/mnt/demo".to_string()), "/mnt/demo/.krunvm.lock");
}

fn run_machine(events: &[StartEvent]) -> (StartMachine, Vec<StartAction>) {
    let (mut m, first) = start_init();
    let mut actions = vec![first];
    for ev in events {
        let (m2, a) = start_step(m, *ev);
        m = m2;
        actions.push(a);
    }
    (m, actions)
}

#[test]
fn a_clean_start_runs_each_step_once_and_in_order() {
    let (m, actions) = run_machine(&[
        StartEvent::StaleUnmountDone(true),
        StartEvent::MountDone(true),
        StartEvent::LimitsDone(true),
        StartEvent::LockDone(true),
        StartEvent::NetworkDone(true),
        StartEvent::HandoffDone(Ok(0)),
        StartEvent::FinalUnmountDone(true),
    ]);
    assert_eq!(
        actions,
        vec![
            StartAction::UnmountStale,
            StartAction::Mount,
            StartAction::RaiseLimits,
            StartAction::AcquireLock,
            StartAction::PrepareNetwork,
            StartAction::ConfigureAndHandOff,
            StartAction::UnmountFinal,
            StartAction::Finish,
        ]
    );
    assert_eq!(m.phase, StartPhase::Done);
    assert!(!m.mounted);
    assert!(m.ever_mounted);
    assert_eq!(m.outcome, Some(Ok(0)));
}

#[test]
fn a_stale_unmount_failure_is_tolerated() {
    let (m, actions) = run_machine(&[StartEvent::StaleUnmountDone(false)]);
    assert_eq!(m.phase, StartPhase::Mounting);
    assert_eq!(actions.last(), Some(&StartAction::Mount));
}

#[test]
fn a_failed_mount_ends_the_attempt_without_teardown() {
    let (m, actions) = run_machine(&[
        StartEvent::StaleUnmountDone(true),
        StartEvent::MountDone(false),
    ]);
    assert_eq!(m.phase, StartPhase::Done);
    assert!(!m.ever_mounted);
    assert_eq!(m.outcome, Some(Err(StartFailure::MountFailed)));
    assert!(!actions.contains(&StartAction::UnmountFinal));
}

#[test]
fn a_held_lock_fails_at_once_with_the_contention_error() {
    // Two invocations race for the same VM: the loser of the file lock
    // learns it immediately, under an error of its own kind, and still
    // tears its mount down; the winner proceeds.
    let winner = run_machine(&[
        StartEvent::StaleUnmountDone(true),
        StartEvent::MountDone(true),
        StartEvent::LimitsDone(true),
        StartEvent::LockDone(true),
    ]);
    assert_eq!(winner.0.phase, StartPhase::PreparingNetwork);
    assert_eq!(winner.1.last(), Some(&StartAction::PrepareNetwork));

    let loser = run_machine(&[
        StartEvent::StaleUnmountDone(true),
        StartEvent::MountDone(true),
        StartEvent::LimitsDone(true),
        StartEvent::LockDone(false),
        StartEvent::FinalUnmountDone(true),
    ]);
    assert_eq!(loser.0.phase, StartPhase::Done);
    assert_eq!(loser.0.outcome, Some(Err(StartFailure::AlreadyRunning)));
    assert!(loser.1.contains(&StartAction::UnmountFinal));
    // The lock is acquired once and never retried.
    assert_eq!(
        loser.1.iter().filter(|a| **a == StartAction::AcquireLock).count(),
        1
    );
}

#[test]
fn a_failed_configuration_step_still_unmounts() {
    let (m, actions) = run_machine(&[
        StartEvent::StaleUnmountDone(true),
        StartEvent::MountDone(true),
        StartEvent::LimitsDone(true),
        StartEvent::LockDone(true),
        StartEvent::NetworkDone(true),
        StartEvent::HandoffDone(Err(ConfigStep::SetRoot)),
        StartEvent::FinalUnmountDone(true),
    ]);
    assert_eq!(m.phase, StartPhase::Done);
    assert!(!m.mounted);
    assert_eq!(
        m.outcome,
        Some(Err(StartFailure::HypervisorConfig(ConfigStep::SetRoot)))
    );
    let unmount_at = actions
        .iter()
        .position(|a| *a == StartAction::UnmountFinal)
        .unwrap();
    let handoff_at = actions
        .iter()
        .position(|a| *a == StartAction::ConfigureAndHandOff)
        .unwrap();
    assert!(handoff_at < unmount_at);
}

#[test]
fn the_final_unmount_does_not_mask_the_guest_exit() {
    let (m, _) = run_machine(&[
        StartEvent::StaleUnmountDone(true),
        StartEvent::MountDone(true),
        StartEvent::LimitsDone(true),
        StartEvent::LockDone(true),
        StartEvent::NetworkDone(true),
        StartEvent::HandoffDone(Ok(7)),
        StartEvent::FinalUnmountDone(false),
    ]);
    assert_eq!(m.phase, StartPhase::Done);
    assert_eq!(m.outcome, Some(Ok(7)));
}

#[test]
fn create_then_start_drives_the_collaborators_once_each() {
    // One creation, then one start of `echo hi`: the hand-off carries
    // the created resources, and the collaborator sees one mount, one
    // hand-off and one final unmount, in that order.
    let mut cfg = KrunvmConfig::default();
    let args = CreateCmdArgs {
        image: "alpine".to_string(),
        name: Some("demo".to_string()),
        cpus: Some(2),
        mem: Some(512),
        dns: None,
        workdir: String::new(),
        volumes: Vec::new(),
        ports: Vec::new(),
    };
    let (pending, from_args) = prepare_create(&cfg, args).unwrap();
    assert_eq!(from_args, vec!["from", "alpine"]);
    let vm = pending.into_vm("c1".to_string());
    register_vm(&mut cfg, vm).unwrap();

    let vm = &cfg.vmconfig_map[0];
    let rootfs = "/mnt/demo".to_string();
    let plan = build_launch_plan(
        vm,
        &rootfs,
        Some("echo".to_string()),
        vec!["hi".to_string()],
        &Vec::new(),
        MountStyle::BindMount,
    );
    assert_eq!(plan.cpus, 2);
    assert_eq!(plan.mem, 512);
    let gc = plan.guest_command.unwrap();
    assert_eq!(gc.command, "echo");
    assert_eq!(gc.args, vec!["hi"]);

    let (m, actions) = run_machine(&[
        StartEvent::StaleUnmountDone(true),
        StartEvent::MountDone(true),
        StartEvent::LimitsDone(true),
        StartEvent::LockDone(true),
        StartEvent::NetworkDone(true),
        StartEvent::HandoffDone(Ok(0)),
        StartEvent::FinalUnmountDone(true),
    ]);
    assert_eq!(m.phase, StartPhase::Done);
    let count = |a: StartAction| actions.iter().filter(|x| **x == a).count();
    assert_eq!(count(StartAction::Mount), 1);
    assert_eq!(count(StartAction::ConfigureAndHandOff), 1);
    assert_eq!(count(StartAction::UnmountFinal), 1);
    let mount_at = actions.iter().position(|a| *a == StartAction::Mount).unwrap();
    let handoff_at = actions
        .iter()
        .position(|a| *a == StartAction::ConfigureAndHandOff)
        .unwrap();
    let unmount_at = actions
        .iter()
        .position(|a| *a == StartAction::UnmountFinal)
        .unwrap();
    assert!(mount_at < handoff_at && handoff_at < unmount_at);
}

#[test]
fn a_start_request_carries_its_entry_point_into_the_plan() {
    let vm = demo_vm();
    let rootfs = "/mnt/demo".to_string();
    let cmd = krunvm::start::StartCmd {
        name: "demo".to_string(),
        command: Some("echo".to_string()),
        args: vec!["hi".to_string()],
        cpus: None,
        mem: None,
        envs: Some(vec!["K=V".to_string()]),
    };
    let plan = cmd.into_plan(&vm, &rootfs, MountStyle::BindMount);
    assert_eq!(plan.cpus, 2);
    assert_eq!(plan.env, vec!["HOSTNAME=demo", "HOME=/root", "K=V"]);
    let gc = plan.guest_command.unwrap();
    assert_eq!(gc.command, "echo");
    assert_eq!(gc.args, vec!["hi"]);
}
