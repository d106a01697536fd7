//! Changing the configuration of one VM definition.
//!
//! Every requested change is validated first; a rejected request leaves
//! the configuration untouched, so no partial state can be persisted.

use vstd::prelude::*;

use crate::config::{
    has_vm, unique_names, vm_index, KrunvmConfig, NetworkMode, UserInputError, VmConfig, MAX_CPUS,
    MAX_MEM_MIB,
};
use crate::config::{find_vm, lemma_vm_index_unique};
use crate::utils::{path_pairs_to_hash_map, paths_assoc, port_pairs_to_hash_map, ports_assoc};
use crate::utils::{PathPair, PortPair};

verus! {

/// A request to change the configuration of one VM definition.
pub struct ChangeVmCmd {
    /// Name of the VM to be modified.
    pub name: String,
    /// Assign a new name to the VM.
    pub new_name: Option<String>,
    /// Number of vCPUs.
    pub cpus: Option<u32>,
    /// Amount of RAM in MiB.
    pub mem: Option<u32>,
    /// Working directory inside the microVM.
    pub workdir: Option<String>,
    /// Remove all volume mappings.
    pub remove_volumes: bool,
    /// Volumes to be exposed to the guest; replaces the current set if
    /// non-empty.
    pub volumes: Vec<PathPair>,
    /// Remove all port mappings.
    pub remove_ports: bool,
    /// Ports to be exposed to the host; replaces the current set if
    /// non-empty.
    pub ports: Vec<PortPair>,
    /// Set the network connection mode.
    pub net: Option<NetworkMode>,
}

/// Which error, if any, the request is rejected with, in the order the
/// checks are made.
pub open spec fn spec_changevm_check(vms: Seq<VmConfig>, cmd: ChangeVmCmd) -> Result<
    (),
    UserInputError,
> {
    if match cmd.new_name {
        Some(n) => has_vm(vms, n@),
        None => false,
    } {
        Err(UserInputError::DuplicateName)
    } else if !has_vm(vms, cmd.name@) {
        Err(UserInputError::NoSuchVm)
    } else if match cmd.cpus {
        Some(c) => c < 1 || c > MAX_CPUS,
        None => false,
    } {
        Err(UserInputError::CpusOutOfRange)
    } else if match cmd.mem {
        Some(m) => m > MAX_MEM_MIB,
        None => false,
    } {
        Err(UserInputError::MemOutOfRange)
    } else {
        Ok(())
    }
}

/// Whether the request changes anything that must be persisted.
pub open spec fn spec_changevm_changed(cmd: ChangeVmCmd) -> bool {
    ||| cmd.new_name is Some
    ||| cmd.cpus is Some
    ||| cmd.mem is Some
    ||| cmd.remove_volumes
    ||| cmd.volumes@.len() > 0
    ||| cmd.remove_ports
    ||| cmd.ports@.len() > 0
    ||| cmd.workdir is Some
    ||| cmd.net is Some
}

/// How the accepted request rewrites the targeted VM definition.
pub open spec fn vm_updated(vm0: VmConfig, cmd: ChangeVmCmd, vm: VmConfig) -> bool {
    &&& vm.name == (match cmd.new_name {
        Some(n) => n,
        None => vm0.name,
    })
    &&& vm.cpus == (match cmd.cpus {
        Some(c) => c,
        None => vm0.cpus,
    })
    &&& vm.mem == (match cmd.mem {
        Some(m) => m,
        None => vm0.mem,
    })
    &&& vm.container == vm0.container
    &&& vm.dns == vm0.dns
    &&& vm.workdir == (match cmd.workdir {
        Some(w) => w,
        None => vm0.workdir,
    })
    &&& vm.network_mode == (match cmd.net {
        Some(nm) => nm,
        None => vm0.network_mode,
    })
    &&& vm.mapped_volumes@ == (if cmd.remove_volumes {
        Seq::<(String, String)>::empty()
    } else if cmd.volumes@.len() > 0 {
        paths_assoc(cmd.volumes@)
    } else {
        vm0.mapped_volumes@
    })
    &&& vm.mapped_ports@ == (if cmd.remove_ports {
        Seq::<(String, String)>::empty()
    } else if cmd.ports@.len() > 0 {
        ports_assoc(cmd.ports@)
    } else {
        vm0.mapped_ports@
    })
}

/// The whole behaviour of a change request: a rejected request returns
/// the matching error and leaves the configuration untouched; an
/// accepted one rewrites exactly the targeted definition (moving it to
/// the end on a rename) and reports whether anything must be persisted.
pub open spec fn changevm_post(
    cfg0: KrunvmConfig,
    cmd: ChangeVmCmd,
    cfg1: KrunvmConfig,
    r: Result<bool, UserInputError>,
) -> bool {
    &&& cfg1.version == cfg0.version
    &&& cfg1.default_cpus == cfg0.default_cpus
    &&& cfg1.default_mem == cfg0.default_mem
    &&& cfg1.default_dns == cfg0.default_dns
    &&& cfg1.default_network_mode == cfg0.default_network_mode
    &&& cfg1.storage_volume == cfg0.storage_volume
    &&& match r {
        Err(e) => cfg1 == cfg0 && spec_changevm_check(cfg0.vmconfig_map@, cmd) == Err::<
            (),
            UserInputError,
        >(e),
        Ok(changed) => {
            let vms0 = cfg0.vmconfig_map@;
            let vms1 = cfg1.vmconfig_map@;
            let i = vm_index(vms0, cmd.name@);
            &&& spec_changevm_check(vms0, cmd) == Ok::<(), UserInputError>(())
            &&& changed == spec_changevm_changed(cmd)
            &&& vms1.len() == vms0.len()
            &&& if cmd.new_name is Some {
                &&& vms1 == vms0.remove(i).push(vms1.last())
                &&& vm_updated(vms0[i], cmd, vms1.last())
            } else {
                &&& vms1 == vms0.update(i, vms1[i])
                &&& vm_updated(vms0[i], cmd, vms1[i])
            }
        },
    }
}

impl ChangeVmCmd {
    /// Validates and applies the change request.  Nothing is touched on
    /// a rejection, so the persisted state never holds a partial
    /// change; on success the returned flag says whether the caller has
    /// to persist the configuration.
    pub fn run(self, cfg: &mut KrunvmConfig) -> (r: Result<bool, UserInputError>)
        requires
            old(cfg).wf(),
        ensures
            final(cfg).wf(),
            changevm_post(*old(cfg), self, *final(cfg), r),
    {
        let ghost vms0 = cfg.vmconfig_map@;
        match &self.new_name {
            Some(n) => {
                if find_vm(&cfg.vmconfig_map, n).is_some() {
                    return Err(UserInputError::DuplicateName);
                }
            },
            None => {},
        }
        let i = match find_vm(&cfg.vmconfig_map, &self.name) {
            None => {
                return Err(UserInputError::NoSuchVm);
            },
            Some(i) => i,
        };
        proof {
            lemma_vm_index_unique(vms0, self.name@, i as int);
        }
        match self.cpus {
            Some(c) => {
                if c < 1 || c > MAX_CPUS {
                    return Err(UserInputError::CpusOutOfRange);
                }
            },
            None => {},
        }
        match self.mem {
            Some(m) => {
                if m > MAX_MEM_MIB {
                    return Err(UserInputError::MemOutOfRange);
                }
            },
            None => {},
        }

        let ChangeVmCmd {
            name: _,
            new_name,
            cpus,
            mem,
            workdir,
            remove_volumes,
            volumes,
            remove_ports,
            ports,
            net,
        } = self;
        let renamed = new_name.is_some();
        let changed = renamed || cpus.is_some() || mem.is_some() || remove_volumes
            || volumes.len() > 0 || remove_ports || ports.len() > 0 || workdir.is_some()
            || net.is_some();

        let vm0 = cfg.vmconfig_map.remove(i);
        let vm1 = VmConfig {
            name: match new_name {
                Some(n) => n,
                None => vm0.name,
            },
            cpus: match cpus {
                Some(c) => c,
                None => vm0.cpus,
            },
            mem: match mem {
                Some(m) => m,
                None => vm0.mem,
            },
            container: vm0.container,
            dns: vm0.dns,
            workdir: match workdir {
                Some(w) => w,
                None => vm0.workdir,
            },
            network_mode: match net {
                Some(nm) => nm,
                None => vm0.network_mode,
            },
            mapped_volumes: if remove_volumes {
                Vec::new()
            } else if volumes.len() > 0 {
                path_pairs_to_hash_map(volumes)
            } else {
                vm0.mapped_volumes
            },
            mapped_ports: if remove_ports {
                Vec::new()
            } else if ports.len() > 0 {
                port_pairs_to_hash_map(ports)
            } else {
                vm0.mapped_ports
            },
        };

        if renamed {
            cfg.vmconfig_map.push(vm1);
            proof {
                let vms1 = cfg.vmconfig_map@;
                assert(vms1 =~= vms0.remove(i as int).push(vms1.last()));
                assert forall|a: int, b: int|
                    0 <= a < b < vms1.len() implies vms1[a].name@ != vms1[b].name@ by {
                    if b < vms1.len() - 1 {
                        lemma_remove_pair(vms0, i as int, a, b);
                    } else {
                        lemma_remove_member(vms0, i as int, a);
                    }
                }
            }
        } else {
            cfg.vmconfig_map.insert(i, vm1);
            proof {
                let vms1 = cfg.vmconfig_map@;
                assert(vms1 =~= vms0.update(i as int, vms1[i as int]));
                assert(vms1[i as int].name@ == vms0[i as int].name@);
                assert forall|a: int, b: int|
                    0 <= a < b < vms1.len() implies vms1[a].name@ != vms1[b].name@ by {
                    assert(vms0[a].name@ != vms0[b].name@);
                }
            }
        }
        Ok(changed)
    }
}

/// A change request of the reduced command surface, which cannot set
/// a network mode.
pub struct ChangeVmCmdArgs {
    /// Name of the VM to be modified.
    pub name: String,
    /// Assign a new name to the VM.
    pub new_name: Option<String>,
    /// Number of vCPUs.
    pub cpus: Option<u32>,
    /// Amount of RAM in MiB.
    pub mem: Option<u32>,
    /// Working directory inside the microVM.
    pub workdir: Option<String>,
    /// Remove all volume mappings.
    pub remove_volumes: bool,
    /// Volumes to be exposed to the guest; replaces the current set if
    /// non-empty.
    pub volumes: Vec<PathPair>,
    /// Remove all port mappings.
    pub remove_ports: bool,
    /// Ports to be exposed to the host; replaces the current set if
    /// non-empty.
    pub ports: Vec<PortPair>,
}

/// The full request the reduced one stands for: the same changes and no
/// touch of the network mode.
pub open spec fn spec_cmd_of_args(args: ChangeVmCmdArgs) -> ChangeVmCmd {
    ChangeVmCmd {
        name: args.name,
        new_name: args.new_name,
        cpus: args.cpus,
        mem: args.mem,
        workdir: args.workdir,
        remove_volumes: args.remove_volumes,
        volumes: args.volumes,
        remove_ports: args.remove_ports,
        ports: args.ports,
        net: None,
    }
}

/// Validates and applies a change request of the reduced command
/// surface.
pub fn changevm(cfg: &mut KrunvmConfig, args: ChangeVmCmdArgs) -> (r: Result<
    bool,
    UserInputError,
>)
    requires
        old(cfg).wf(),
    ensures
        final(cfg).wf(),
        changevm_post(*old(cfg), spec_cmd_of_args(args), *final(cfg), r),
{
    let ChangeVmCmdArgs {
        name,
        new_name,
        cpus,
        mem,
        workdir,
        remove_volumes,
        volumes,
        remove_ports,
        ports,
    } = args;
    let cmd = ChangeVmCmd {
        name,
        new_name,
        cpus,
        mem,
        workdir,
        remove_volumes,
        volumes,
        remove_ports,
        ports,
        net: None,
    };
    cmd.run(cfg)
}

/// An accepted change request rewrites the store in one of the ways
/// that keep names unique: a rename moves the definition to the end
/// under a name no other definition carries, any other change rewrites
/// it in place keeping its name.
pub proof fn lemma_changevm_is_store_step(
    cfg0: KrunvmConfig,
    cmd: ChangeVmCmd,
    cfg1: KrunvmConfig,
    changed: bool,
)
    requires
        cfg0.wf(),
        changevm_post(cfg0, cmd, cfg1, Ok(changed)),
    ensures
        crate::config::store_step(cfg0.vmconfig_map@, cfg1.vmconfig_map@),
{
    let vms0 = cfg0.vmconfig_map@;
    let vms1 = cfg1.vmconfig_map@;
    let i = vm_index(vms0, cmd.name@);
    assert(has_vm(vms0, cmd.name@));
    assert(0 <= i < vms0.len() && vms0[i].name@ == cmd.name@);
    match cmd.new_name {
        Some(n) => {
            assert(!has_vm(vms0, n@));
            assert(vms1.last().name == n);
            assert(0 <= i < vms0.len() && !has_vm(vms0, vms1.last().name@) && vms1 == vms0.remove(
                i,
            ).push(vms1.last()));
        },
        None => {
            assert(vms1[i].name == vms0[i].name);
            assert(0 <= i < vms0.len() && vms1[i].name@ == vms0[i].name@ && vms1 == vms0.update(
                i,
                vms1[i],
            ));
        },
    }
}

/// Two entries of a sequence with one position removed are two distinct
/// entries of the original.
proof fn lemma_remove_pair(vms: Seq<VmConfig>, i: int, a: int, b: int)
    requires
        unique_names(vms),
        0 <= i < vms.len(),
        0 <= a < b < vms.len() - 1,
    ensures
        vms.remove(i)[a].name@ != vms.remove(i)[b].name@,
{
    let ra = if a < i {
        a
    } else {
        a + 1
    };
    let rb = if b < i {
        b
    } else {
        b + 1
    };
    assert(vms.remove(i)[a] == vms[ra]);
    assert(vms.remove(i)[b] == vms[rb]);
    assert(vms[ra].name@ != vms[rb].name@);
}

/// Every entry of a sequence with one position removed is an entry of
/// the original.
proof fn lemma_remove_member(vms: Seq<VmConfig>, i: int, a: int)
    requires
        0 <= i < vms.len(),
        0 <= a < vms.len() - 1,
    ensures
        exists|q: int|
            0 <= q < vms.len() && vms[q].name@ == #[trigger] vms.remove(i)[a].name@,
{
    let ra = if a < i {
        a
    } else {
        a + 1
    };
    assert(vms.remove(i)[a] == vms[ra]);
}

} // verus!
