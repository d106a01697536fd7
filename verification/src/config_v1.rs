//! The older persisted configuration schema.
//!
//! Values of this schema are still found on disk; `migrate` lifts them
//! into the current schema.  The schema is tagged with version number 1.

use vstd::prelude::*;

verus! {

/// One persisted VM definition in the older schema.
pub struct VmConfig {
    pub name: String,
    pub cpus: u32,
    pub mem: u32,
    pub container: String,
    pub workdir: String,
    pub dns: String,
    pub mapped_volumes: Vec<(String, String)>,
    pub mapped_ports: Vec<(String, String)>,
}

/// The whole persisted state in the older schema.
pub struct KrunvmConfig {
    pub version: u8,
    pub default_cpus: u32,
    pub default_mem: u32,
    pub default_dns: String,
    pub storage_volume: String,
    pub vmconfig_map: Vec<VmConfig>,
}

impl Default for KrunvmConfig {
    /// A fresh older-schema value: version tag 1 and the stock defaults.
    fn default() -> (cfg: KrunvmConfig)
        ensures
            cfg.version == 1,
            cfg.default_cpus == 2,
            cfg.default_mem == 1024,
            cfg.default_dns@ == "1.1.1.1"@,
            cfg.storage_volume@ == Seq::<char>::empty(),
            cfg.vmconfig_map@ == Seq::<VmConfig>::empty(),
    {
        KrunvmConfig {
            version: 1,
            default_cpus: 2,
            default_mem: 1024,
            default_dns: "1.1.1.1".to_owned(),
            storage_volume: String::new(),
            vmconfig_map: Vec::new(),
        }
    }
}

} // verus!
