use krunvm::changevm::{changevm, ChangeVmCmd, ChangeVmCmdArgs};
use krunvm::config::{KrunvmConfig, NetworkMode, UserInputError, VmConfig};
use krunvm::config_cmd::{config, ConfigCmd, ConfigCmdArgs};
use krunvm::create::{prepare_create, register_vm, resolv_conf_contents, CreateCmdArgs};
use krunvm::delete::DeleteCmd;
use krunvm::inspect::InspectCmd;
use krunvm::utils::{PathPair, PortPair};

fn create_args(image: &str, name: Option<&str>, cpus: Option<u32>, mem: Option<u32>) -> CreateCmdArgs {
    CreateCmdArgs {
        image: image.to_string(),
        name: name.map(|s| s.to_string()),
        cpus,
        mem,
        dns: None,
        workdir: String::new(),
        volumes: Vec::new(),
        ports: Vec::new(),
    }
}

fn plain_change(name: &str) -> ChangeVmCmd {
    ChangeVmCmd {
        name: name.to_string(),
        new_name: None,
        cpus: None,
        mem: None,
        workdir: None,
        remove_volumes: false,
        volumes: Vec::new(),
        remove_ports: false,
        ports: Vec::new(),
        net: None,
    }
}

fn create_vm(cfg: &mut KrunvmConfig, name: &str, container: &str) {
    let (pending, _) = prepare_create(cfg, create_args("alpine", Some(name), None, None)).unwrap();
    register_vm(cfg, pending.into_vm(container.to_string())).unwrap();
}

#[test]
fn create_resolves_defaults_and_registers() {
    let mut cfg = KrunvmConfig::default();
    let (pending, from_args) =
        prepare_create(&cfg, create_args("alpine", Some("demo"), None, None)).unwrap();
    assert_eq!(from_args, vec!["from", "alpine"]);
    assert_eq!(pending.cpus, 2);
    assert_eq!(pending.mem, 1024);
    assert_eq!(pending.dns, "1.1.1.1");
    assert_eq!(pending.network_mode, NetworkMode::Tsi);

    let vm = pending.into_vm("c0ffee1".to_string());
    assert_eq!(vm.name, "demo");
    assert_eq!(vm.container, "c0ffee1");
    register_vm(&mut cfg, vm).unwrap();
    assert_eq!(cfg.vmconfig_map.len(), 1);
}

#[test]
fn create_names_the_vm_after_its_container_when_unnamed() {
    let cfg = KrunvmConfig::default();
    let (pending, _) = prepare_create(&cfg, create_args("alpine", None, None, None)).unwrap();
    let vm = pending.into_vm("1c0ffee".to_string());
    assert_eq!(vm.name, "1c0ffee");
}

#[test]
fn create_rejects_duplicate_names() {
    let mut cfg = KrunvmConfig::default();
    create_vm(&mut cfg, "demo", "c1");
    let r = prepare_create(&cfg, create_args("alpine", Some("demo"), None, None));
    assert!(matches!(r, Err(UserInputError::DuplicateName)));
}

#[test]
fn create_enforces_the_numeric_bounds() {
    let cfg = KrunvmConfig::default();
    assert!(prepare_create(&cfg, create_args("a", None, Some(8), Some(16384))).is_ok());
    assert!(matches!(
        prepare_create(&cfg, create_args("a", None, Some(9), None)),
        Err(UserInputError::CpusOutOfRange)
    ));
    assert!(matches!(
        prepare_create(&cfg, create_args("a", None, Some(0), None)),
        Err(UserInputError::CpusOutOfRange)
    ));
    assert!(matches!(
        prepare_create(&cfg, create_args("a", None, None, Some(16385))),
        Err(UserInputError::MemOutOfRange)
    ));
}

#[test]
fn changevm_enforces_the_numeric_bounds() {
    let mut cfg = KrunvmConfig::default();
    create_vm(&mut cfg, "demo", "c1");

    let ok = ChangeVmCmd {
        cpus: Some(8),
        mem: Some(16384),
        ..plain_change("demo")
    };
    assert_eq!(ok.run(&mut cfg), Ok(true));
    assert_eq!(cfg.vmconfig_map[0].cpus, 8);
    assert_eq!(cfg.vmconfig_map[0].mem, 16384);

    let too_many = ChangeVmCmd {
        cpus: Some(9),
        ..plain_change("demo")
    };
    assert_eq!(too_many.run(&mut cfg), Err(UserInputError::CpusOutOfRange));

    let too_much = ChangeVmCmd {
        mem: Some(16385),
        ..plain_change("demo")
    };
    assert_eq!(too_much.run(&mut cfg), Err(UserInputError::MemOutOfRange));
}

#[test]
fn a_rejected_change_leaves_the_configuration_untouched() {
    let mut cfg = KrunvmConfig::default();
    create_vm(&mut cfg, "demo", "c1");
    let before = cfg.clone();

    let cmd = ChangeVmCmd {
        cpus: Some(9),
        workdir: Some("/tmp".to_string()),
        net: Some(NetworkMode::Passt),
        ..plain_change("demo")
    };
    assert!(cmd.run(&mut cfg).is_err());
    assert_eq!(cfg, before);
}

#[test]
fn changevm_applies_the_requested_changes() {
    let mut cfg = KrunvmConfig::default();
    create_vm(&mut cfg, "demo", "c1");

    let cmd = ChangeVmCmd {
        workdir: Some("/work".to_string()),
        net: Some(NetworkMode::Passt),
        volumes: vec![PathPair::from_str("/data:/a").unwrap()],
        ports: vec![PortPair::from_str("80:8080").unwrap()],
        ..plain_change("demo")
    };
    assert_eq!(cmd.run(&mut cfg), Ok(true));
    let vm = &cfg.vmconfig_map[0];
    assert_eq!(vm.workdir, "/work");
    assert_eq!(vm.network_mode, NetworkMode::Passt);
    assert_eq!(vm.mapped_volumes, vec![("/data".to_string(), "/a".to_string())]);
    assert_eq!(vm.mapped_ports, vec![("80".to_string(), "8080".to_string())]);

    let clear = ChangeVmCmd {
        remove_volumes: true,
        remove_ports: true,
        ..plain_change("demo")
    };
    assert_eq!(clear.run(&mut cfg), Ok(true));
    let vm = &cfg.vmconfig_map[0];
    assert!(vm.mapped_volumes.is_empty());
    assert!(vm.mapped_ports.is_empty());
}

#[test]
fn changevm_without_requests_changes_nothing() {
    let mut cfg = KrunvmConfig::default();
    create_vm(&mut cfg, "demo", "c1");
    let before = cfg.clone();
    assert_eq!(plain_change("demo").run(&mut cfg), Ok(false));
    assert_eq!(cfg, before);
}

#[test]
fn changevm_reports_an_unknown_vm() {
    let mut cfg = KrunvmConfig::default();
    assert_eq!(
        plain_change("ghost").run(&mut cfg),
        Err(UserInputError::NoSuchVm)
    );
}

#[test]
fn renames_keep_names_unique() {
    let mut cfg = KrunvmConfig::default();
    create_vm(&mut cfg, "one", "c1");
    create_vm(&mut cfg, "two", "c2");

    let taken = ChangeVmCmd {
        new_name: Some("two".to_string()),
        ..plain_change("one")
    };
    assert_eq!(taken.run(&mut cfg), Err(UserInputError::DuplicateName));

    let fresh = ChangeVmCmd {
        new_name: Some("three".to_string()),
        ..plain_change("one")
    };
    assert_eq!(fresh.run(&mut cfg), Ok(true));
    let mut names: Vec<String> = cfg.vmconfig_map.iter().map(|vm| vm.name.clone()).collect();
    names.sort();
    assert_eq!(names, vec!["three".to_string(), "two".to_string()]);
}

#[test]
fn the_earlier_change_surface_behaves_the_same() {
    let mut cfg = KrunvmConfig::default();
    create_vm(&mut cfg, "demo", "c1");
    let args = ChangeVmCmdArgs {
        name: "demo".to_string(),
        new_name: None,
        cpus: Some(4),
        mem: None,
        workdir: None,
        remove_volumes: false,
        volumes: Vec::new(),
        remove_ports: false,
        ports: Vec::new(),
    };
    assert_eq!(changevm(&mut cfg, args), Ok(true));
    assert_eq!(cfg.vmconfig_map[0].cpus, 4);
    assert_eq!(cfg.vmconfig_map[0].network_mode, NetworkMode::Tsi);
}

#[test]
fn config_updates_the_defaults() {
    let mut cfg = KrunvmConfig::default();
    let cmd = ConfigCmd {
        cpus: Some(4),
        mem: Some(2048),
        dns: Some("9.9.9.9".to_string()),
        net: Some(NetworkMode::Passt),
    };
    assert_eq!(cmd.run(&mut cfg), Ok(true));
    assert_eq!(cfg.default_cpus, 4);
    assert_eq!(cfg.default_mem, 2048);
    assert_eq!(cfg.default_dns, "9.9.9.9");
    assert_eq!(cfg.default_network_mode, NetworkMode::Passt);
}

#[test]
fn config_enforces_the_numeric_bounds() {
    let mut cfg = KrunvmConfig::default();
    let before = cfg.clone();
    let cmd = ConfigCmd {
        cpus: Some(9),
        mem: None,
        dns: None,
        net: None,
    };
    assert_eq!(cmd.run(&mut cfg), Err(UserInputError::CpusOutOfRange));
    let cmd = ConfigCmd {
        cpus: None,
        mem: Some(16385),
        dns: None,
        net: None,
    };
    assert_eq!(cmd.run(&mut cfg), Err(UserInputError::MemOutOfRange));
    assert_eq!(cfg, before);
}

#[test]
fn setting_the_same_network_mode_is_no_change() {
    let mut cfg = KrunvmConfig::default();
    let args = ConfigCmdArgs {
        cpus: None,
        mem: None,
        dns: None,
    };
    assert_eq!(config(&mut cfg, args), Ok(false));
    let cmd = ConfigCmd {
        cpus: None,
        mem: None,
        dns: None,
        net: Some(NetworkMode::Tsi),
    };
    assert_eq!(cmd.run(&mut cfg), Ok(false));
}

#[test]
fn delete_removes_the_vm_and_orders_the_teardown() {
    let mut cfg = KrunvmConfig::default();
    create_vm(&mut cfg, "demo", "c1");
    let (vm, umount_args, rm_args) = DeleteCmd {
        name: "demo".to_string(),
    }
    .run(&mut cfg)
    .unwrap();
    assert_eq!(vm.name, "demo");
    assert!(cfg.vmconfig_map.is_empty());
    // The container must leave the mount before its record is removed.
    assert_eq!(umount_args, vec!["umount", "c1"]);
    assert_eq!(rm_args, vec!["rm", "c1"]);
}

#[test]
fn delete_reports_an_unknown_vm() {
    let mut cfg = KrunvmConfig::default();
    let r = DeleteCmd {
        name: "ghost".to_string(),
    }
    .run(&mut cfg);
    assert!(matches!(r, Err(UserInputError::NoSuchVm)));
}

#[test]
fn inspect_builds_the_request_for_the_container() {
    let mut cfg = KrunvmConfig::default();
    create_vm(&mut cfg, "demo", "c1");
    let args = InspectCmd {
        name: "demo".to_string(),
    }
    .run(&cfg)
    .unwrap();
    assert_eq!(args, vec!["inspect", "c1"]);
    let r = InspectCmd {
        name: "ghost".to_string(),
    }
    .run(&cfg);
    assert!(matches!(r, Err(UserInputError::NoSuchVm)));
}

#[test]
fn resolver_configuration_names_the_chosen_dns() {
    assert_eq!(
        resolv_conf_contents(&"1.1.1.1".to_string()),
        "options use-vc\nnameserver 1.1.1.1\n"
    );
}

#[test]
fn a_vm_definition_survives_the_schema_migration_losslessly() {
    let old = krunvm::config_v1::VmConfig {
        name: "demo".to_string(),
        cpus: 3,
        mem: 777,
        container: "c9".to_string(),
        workdir: "/w".to_string(),
        dns: "8.8.4.4".to_string(),
        mapped_volumes: vec![("/h".to_string(), "/g".to_string())],
        mapped_ports: vec![("80".to_string(), "8080".to_string())],
    };
    let new: VmConfig = old.into();
    assert_eq!(new.name, "demo");
    assert_eq!(new.cpus, 3);
    assert_eq!(new.mem, 777);
    assert_eq!(new.container, "c9");
    assert_eq!(new.workdir, "/w");
    assert_eq!(new.dns, "8.8.4.4");
    assert_eq!(new.network_mode, NetworkMode::Tsi);
    assert_eq!(new.mapped_volumes, vec![("/h".to_string(), "/g".to_string())]);
    assert_eq!(new.mapped_ports, vec![("80".to_string(), "8080".to_string())]);
}
