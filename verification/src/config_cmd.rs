//! Changing the global defaults for newly created VMs.
//!
//! As with per-VM changes, every requested value is validated first and
//! a rejected request leaves the configuration untouched.

use vstd::prelude::*;

use crate::config::{KrunvmConfig, NetworkMode, UserInputError, MAX_CPUS, MAX_MEM_MIB};

verus! {

/// A request to change the global defaults.
pub struct ConfigCmd {
    /// Default number of vCPUs for newly created VMs.
    pub cpus: Option<u32>,
    /// Default amount of RAM in MiB for newly created VMs.
    pub mem: Option<u32>,
    /// Default DNS server for newly created VMs.
    pub dns: Option<String>,
    /// Default network connection mode for newly created VMs.
    pub net: Option<NetworkMode>,
}

/// Which error, if any, the request is rejected with.
pub open spec fn spec_config_check(cmd: ConfigCmd) -> Result<(), UserInputError> {
    if match cmd.cpus {
        Some(c) => c < 1 || c > MAX_CPUS,
        None => false,
    } {
        Err(UserInputError::CpusOutOfRange)
    } else if match cmd.mem {
        Some(m) => m > MAX_MEM_MIB,
        None => false,
    } {
        Err(UserInputError::MemOutOfRange)
    } else {
        Ok(())
    }
}

/// The whole behaviour of a defaults change: a rejected request returns
/// the matching error and leaves the configuration untouched; an
/// accepted one rewrites exactly the given defaults and reports whether
/// anything must be persisted (setting the network mode it already has
/// is no change).
pub open spec fn config_post(
    cfg0: KrunvmConfig,
    cmd: ConfigCmd,
    cfg1: KrunvmConfig,
    r: Result<bool, UserInputError>,
) -> bool {
    match r {
        Err(e) => cfg1 == cfg0 && spec_config_check(cmd) == Err::<(), UserInputError>(e),
        Ok(changed) => {
            &&& spec_config_check(cmd) == Ok::<(), UserInputError>(())
            &&& cfg1.version == cfg0.version
            &&& cfg1.storage_volume == cfg0.storage_volume
            &&& cfg1.vmconfig_map == cfg0.vmconfig_map
            &&& cfg1.default_cpus == (match cmd.cpus {
                Some(c) => c,
                None => cfg0.default_cpus,
            })
            &&& cfg1.default_mem == (match cmd.mem {
                Some(m) => m,
                None => cfg0.default_mem,
            })
            &&& cfg1.default_dns == (match cmd.dns {
                Some(d) => d,
                None => cfg0.default_dns,
            })
            &&& cfg1.default_network_mode == (match cmd.net {
                Some(nm) => nm,
                None => cfg0.default_network_mode,
            })
            &&& changed == (cmd.cpus is Some || cmd.mem is Some || cmd.dns is Some || (
            match cmd.net {
                Some(nm) => nm != cfg0.default_network_mode,
                None => false,
            }))
        },
    }
}

impl ConfigCmd {
    /// Validates and applies the defaults change.  Nothing is touched
    /// on a rejection; on success the returned flag says whether the
    /// caller has to persist the configuration.
    pub fn run(self, cfg: &mut KrunvmConfig) -> (r: Result<bool, UserInputError>)
        requires
            old(cfg).wf(),
        ensures
            final(cfg).wf(),
            config_post(*old(cfg), self, *final(cfg), r),
    {
        match self.cpus {
            Some(c) => {
                if c < 1 || c > MAX_CPUS {
                    return Err(UserInputError::CpusOutOfRange);
                }
            },
            None => {},
        }
        match self.mem {
            Some(m) => {
                if m > MAX_MEM_MIB {
                    return Err(UserInputError::MemOutOfRange);
                }
            },
            None => {},
        }

        let mut changed = false;
        match self.cpus {
            Some(c) => {
                cfg.default_cpus = c;
                changed = true;
            },
            None => {},
        }
        match self.mem {
            Some(m) => {
                cfg.default_mem = m;
                changed = true;
            },
            None => {},
        }
        match self.dns {
            Some(d) => {
                cfg.default_dns = d;
                changed = true;
            },
            None => {},
        }
        match self.net {
            Some(nm) => {
                if nm != cfg.default_network_mode {
                    cfg.default_network_mode = nm;
                    changed = true;
                }
            },
            None => {},
        }
        Ok(changed)
    }
}

/// A defaults change of the reduced command surface, which cannot set
/// a network mode.
pub struct ConfigCmdArgs {
    /// Default number of vCPUs for newly created VMs.
    pub cpus: Option<u32>,
    /// Default amount of RAM in MiB for newly created VMs.
    pub mem: Option<u32>,
    /// Default DNS server for newly created VMs.
    pub dns: Option<String>,
}

/// The full request the reduced one stands for.
pub open spec fn spec_config_of_args(args: ConfigCmdArgs) -> ConfigCmd {
    ConfigCmd { cpus: args.cpus, mem: args.mem, dns: args.dns, net: None }
}

/// Validates and applies a defaults change of the reduced command
/// surface.
pub fn config(cfg: &mut KrunvmConfig, args: ConfigCmdArgs) -> (r: Result<bool, UserInputError>)
    requires
        old(cfg).wf(),
    ensures
        final(cfg).wf(),
        config_post(*old(cfg), spec_config_of_args(args), *final(cfg), r),
{
    let ConfigCmdArgs { cpus, mem, dns } = args;
    let cmd = ConfigCmd { cpus, mem, dns, net: None };
    cmd.run(cfg)
}

} // verus!
