//! Loading the persisted configuration, migrating an older schema when
//! the current one cannot be read.
//!
//! The attempts themselves — reading the store at either schema and
//! persisting the migrated value — are handed in as closures, so the
//! loader owns only the decision: try the current schema first, check
//! the version number found inside against the schema it was read at,
//! migrate and persist on a successful older read, and fail with both
//! diagnostics when neither attempt parsed.

use vstd::prelude::*;

use crate::config::{is_migration_of, migrate, KrunvmConfig};
use crate::config_v1;

verus! {

/// Why a load failed.
#[derive(Debug, Clone, PartialEq, Eq)]
pub enum LoadError<E> {
    /// A file parsed at some schema carried a different version number
    /// inside; both numbers are named.  The store is not silently
    /// patched up.
    VersionMismatch { found: u8, expected: u8 },
    /// The migrated value could not be persisted.
    SaveFailed,
    /// Neither schema could be read; the two underlying errors, the
    /// current schema's first.
    BothFailed(E, E),
}

/// What a load resolves to once the current-schema attempt has parsed:
/// the value itself if it carries the current version number, else the
/// mismatch.
pub open spec fn resolve_current<E>(c: KrunvmConfig) -> Result<KrunvmConfig, LoadError<E>> {
    if c.version == 2 {
        Ok(c)
    } else {
        Err(LoadError::VersionMismatch { found: c.version, expected: 2 })
    }
}

/// Loads the configuration: the current schema is attempted first and
/// returned as found; on its failure the immediately-previous schema is
/// attempted, its version number checked, and the migrated value
/// persisted before it is returned; when both attempts fail, both
/// underlying errors come back.  The closures do the reading and
/// writing; every outcome they can produce is accounted for here.
pub fn migrate_and_load_impl<E, F2, F1, S>(load_v2: F2, load_v1: F1, save_v2: S) -> (r: Result<
    KrunvmConfig,
    LoadError<E>,
>) where
    F2: FnOnce() -> Result<KrunvmConfig, E>,
    F1: FnOnce() -> Result<config_v1::KrunvmConfig, E>,
    S: FnOnce(&KrunvmConfig) -> Result<(), ()>,

    requires
        call_requires(load_v2, ()),
        call_requires(load_v1, ()),
        forall|c: &KrunvmConfig| call_requires(save_v2, (c,)),
    ensures
        exists|v2r: Result<KrunvmConfig, E>|
            {
                &&& #[trigger] call_ensures(load_v2, (), v2r)
                &&& match v2r {
                    Ok(c2) => r == resolve_current::<E>(c2),
                    Err(e2) => exists|v1r: Result<config_v1::KrunvmConfig, E>|
                        {
                            &&& #[trigger] call_ensures(load_v1, (), v1r)
                            &&& match v1r {
                                Ok(c1) => {
                                    if c1.version != 1 {
                                        r == Err::<KrunvmConfig, LoadError<E>>(
                                            LoadError::VersionMismatch {
                                                found: c1.version,
                                                expected: 1,
                                            },
                                        )
                                    } else {
                                        exists|m: KrunvmConfig, sr: Result<(), ()>|
                                            {
                                                &&& is_migration_of(m, c1)
                                                &&& #[trigger] call_ensures(save_v2, (&m,), sr)
                                                &&& match sr {
                                                    Ok(_) => r == Ok::<
                                                        KrunvmConfig,
                                                        LoadError<E>,
                                                    >(m),
                                                    Err(_) => r == Err::<
                                                        KrunvmConfig,
                                                        LoadError<E>,
                                                    >(LoadError::SaveFailed),
                                                }
                                            }
                                    }
                                },
                                Err(e1) => r == Err::<KrunvmConfig, LoadError<E>>(
                                    LoadError::BothFailed(e2, e1),
                                ),
                            }
                        },
                }
            },
{
    let v2_result = load_v2();
    let v2_load_err = match v2_result {
        Ok(conf) => {
            if conf.version == 2 {
                return Ok(conf);
            }
            return Err(LoadError::VersionMismatch { found: conf.version, expected: 2 });
        },
        Err(e) => e,
    };

    let v1_result = load_v1();
    let v1_load_err = match v1_result {
        Ok(cfg) => {
            if cfg.version != 1 {
                return Err(LoadError::VersionMismatch { found: cfg.version, expected: 1 });
            }
            let v2_config = migrate(cfg);
            match save_v2(&v2_config) {
                Ok(_) => {
                    return Ok(v2_config);
                },
                Err(_) => {
                    return Err(LoadError::SaveFailed);
                },
            }
        },
        Err(e) => e,
    };

    Err(LoadError::BothFailed(v2_load_err, v1_load_err))
}

/// Schema migration round-trip: what migration produces carries the
/// current version number, so a later load that reads it back at the
/// current schema returns it unchanged — no second migration and no
/// rewrite.  Loading, saving and loading again thus yields the first
/// migration's output, provided the store hands back what was saved.
pub proof fn lemma_migration_roundtrip<E>(old: config_v1::KrunvmConfig, migrated: KrunvmConfig)
    requires
        is_migration_of(migrated, old),
    ensures
        resolve_current::<E>(migrated) == Ok::<KrunvmConfig, LoadError<E>>(migrated),
{
}

} // verus!
