use confy::ConfyError;
use krunvm::config::{KrunvmConfig, NetworkMode, VmConfig};
use krunvm::config_v1;
use krunvm::migrate::{migrate_and_load_impl, LoadError};

fn default_v2() -> KrunvmConfig {
    KrunvmConfig::default()
}

fn default_v1() -> config_v1::KrunvmConfig {
    config_v1::KrunvmConfig::default()
}

#[test]
fn load_without_migrate() {
    let cfg = KrunvmConfig {
        default_dns: "8.8.8.8".into(),
        ..default_v2()
    };

    let returned_cfg = migrate_and_load_impl(
        || Ok::<KrunvmConfig, ConfyError>(cfg.clone()),
        || panic!("Loading v1 should not be attempted"),
        |_| panic!("Migration should not occur"),
    )
    .unwrap();
    assert_eq!(returned_cfg, cfg);
}

#[test]
fn load_migrating_to_v2() {
    let v1_vms = vec![config_v1::VmConfig {
        name: "fedora".to_string(),
        mapped_ports: Vec::new(),
        cpus: 2,
        dns: "1.1.1.1".to_string(),
        mapped_volumes: Vec::new(),
        workdir: "/".to_string(),
        container: "fedora".to_string(),
        mem: 8192,
    }];

    let v1_cfg = config_v1::KrunvmConfig {
        default_dns: "8.8.8.8".into(),
        vmconfig_map: v1_vms,
        ..default_v1()
    };

    let result_v2_vms = vec![VmConfig {
        name: "fedora".to_string(),
        mapped_ports: Vec::new(),
        cpus: 2,
        dns: "1.1.1.1".to_string(),
        mapped_volumes: Vec::new(),
        workdir: "/".to_string(),
        container: "fedora".to_string(),
        mem: 8192,
        network_mode: NetworkMode::Tsi,
    }];

    let result_v2_cfg = KrunvmConfig {
        default_dns: "8.8.8.8".into(),
        vmconfig_map: result_v2_vms,
        default_network_mode: NetworkMode::Tsi,
        ..default_v2()
    };

    let mut load_v2_called = false;
    let mut load_v1_called = false;
    let mut save_called = false;

    let returned_cfg = migrate_and_load_impl(
        || {
            load_v2_called = true;
            Err(ConfyError::BadConfigDirectory(String::new()))
        },
        || {
            load_v1_called = true;
            Ok(v1_cfg)
        },
        |migrated: &KrunvmConfig| {
            save_called = true;
            assert_eq!(migrated, &result_v2_cfg);
            Ok(())
        },
    )
    .unwrap();

    assert!(load_v2_called, "Load v2 must be called");
    assert!(load_v1_called, "Load v1 must be called");
    assert!(save_called, "Save must be called");

    assert_eq!(returned_cfg, result_v2_cfg);
}

#[test]
fn load_rejects_wrong_version_in_current_schema() {
    let bad = KrunvmConfig {
        version: 1,
        ..default_v2()
    };
    let r = migrate_and_load_impl(
        || Ok::<KrunvmConfig, ConfyError>(bad),
        || panic!("Loading v1 should not be attempted"),
        |_| panic!("Migration should not occur"),
    );
    match r {
        Err(LoadError::VersionMismatch { found, expected }) => {
            assert_eq!(found, 1);
            assert_eq!(expected, 2);
        }
        other => panic!("expected a version mismatch, got {:?}", other.map(|_| ())),
    }
}

#[test]
fn load_rejects_wrong_version_in_older_schema() {
    let bad = config_v1::KrunvmConfig {
        version: 7,
        ..default_v1()
    };
    let r = migrate_and_load_impl(
        || Err(ConfyError::BadConfigDirectory(String::new())),
        || Ok(bad),
        |_| panic!("Migration of a mis-tagged file should not be persisted"),
    );
    match r {
        Err(LoadError::VersionMismatch { found, expected }) => {
            assert_eq!(found, 7);
            assert_eq!(expected, 1);
        }
        other => panic!("expected a version mismatch, got {:?}", other.map(|_| ())),
    }
}

#[test]
fn load_reports_both_errors_when_both_schemas_fail() {
    let r: Result<KrunvmConfig, LoadError<&'static str>> = migrate_and_load_impl(
        || Err("newer failed"),
        || Err("older failed"),
        |_| panic!("Migration should not occur"),
    );
    match r {
        Err(LoadError::BothFailed(newer, older)) => {
            assert_eq!(newer, "newer failed");
            assert_eq!(older, "older failed");
        }
        other => panic!("expected both errors, got {:?}", other.map(|_| ())),
    }
}

#[test]
fn load_reports_save_failure_during_migration() {
    let r: Result<KrunvmConfig, LoadError<&'static str>> = migrate_and_load_impl(
        || Err("newer failed"),
        || Ok(default_v1()),
        |_| Err(()),
    );
    assert!(matches!(r, Err(LoadError::SaveFailed)));
}

#[test]
fn migration_roundtrip_is_idempotent() {
    // A migrated value loads back unchanged: no second migration runs.
    let v1_cfg = config_v1::KrunvmConfig {
        default_dns: "9.9.9.9".into(),
        ..default_v1()
    };
    let first = migrate_and_load_impl(
        || Err(ConfyError::BadConfigDirectory(String::new())),
        || Ok(v1_cfg),
        |_| Ok(()),
    )
    .unwrap();
    assert_eq!(first.version, 2);

    let second = migrate_and_load_impl(
        || Ok::<KrunvmConfig, ConfyError>(first.clone()),
        || panic!("Loading v1 should not be attempted again"),
        |_| panic!("A second migration should not occur"),
    )
    .unwrap();
    assert_eq!(second, first);
}
