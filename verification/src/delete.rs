//! Deleting a VM definition.
//!
//! Deletion removes the definition from the configuration and hands the
//! caller the two rootfs-manager requests that must follow it, in the
//! order they must run: the container is unmounted first and removed
//! second, since removal must not be attempted while mounted.

use vstd::prelude::*;

use crate::config::{find_vm, has_vm, lemma_unique_names_remove, lemma_vm_index_unique, vm_index,
    KrunvmConfig, UserInputError, VmConfig};
use crate::utils::{buildah_request, buildah_verb, BuildahCommand};

verus! {

/// A request to delete one VM definition.
pub struct DeleteCmd {
    /// Name of the microVM to be deleted.
    pub name: String,
}

impl DeleteCmd {
    /// Removes the definition carrying the requested name.  On success
    /// the removed definition comes back together with the two requests
    /// to tear its container down, unmount first, removal second.
    pub fn run(self, cfg: &mut KrunvmConfig) -> (r: Result<
        (VmConfig, Vec<String>, Vec<String>),
        UserInputError,
    >)
        requires
            old(cfg).wf(),
        ensures
            final(cfg).wf(),
            final(cfg).version == old(cfg).version,
            final(cfg).default_cpus == old(cfg).default_cpus,
            final(cfg).default_mem == old(cfg).default_mem,
            final(cfg).default_dns == old(cfg).default_dns,
            final(cfg).default_network_mode == old(cfg).default_network_mode,
            final(cfg).storage_volume == old(cfg).storage_volume,
            match r {
                Err(e) => {
                    &&& *final(cfg) == *old(cfg)
                    &&& e == UserInputError::NoSuchVm
                    &&& !has_vm(old(cfg).vmconfig_map@, self.name@)
                },
                Ok((vm, umount_args, rm_args)) => {
                    let vms0 = old(cfg).vmconfig_map@;
                    let i = vm_index(vms0, self.name@);
                    &&& has_vm(vms0, self.name@)
                    &&& vm == vms0[i]
                    &&& final(cfg).vmconfig_map@ == vms0.remove(i)
                    &&& umount_args@.len() == 2
                    &&& umount_args@[0]@ == buildah_verb(BuildahCommand::Unmount)
                    &&& umount_args@[1]@ == vm.container@
                    &&& rm_args@.len() == 2
                    &&& rm_args@[0]@ == buildah_verb(BuildahCommand::Remove)
                    &&& rm_args@[1]@ == vm.container@
                },
            },
    {
        let ghost vms0 = cfg.vmconfig_map@;
        let i = match find_vm(&cfg.vmconfig_map, &self.name) {
            None => {
                return Err(UserInputError::NoSuchVm);
            },
            Some(i) => i,
        };
        proof {
            lemma_vm_index_unique(vms0, self.name@, i as int);
        }
        let vm = cfg.vmconfig_map.remove(i);
        proof {
            lemma_unique_names_remove(vms0, i as int);
        }
        let umount_args = buildah_request(cfg, BuildahCommand::Unmount, &vm.container);
        let rm_args = buildah_request(cfg, BuildahCommand::Remove, &vm.container);
        Ok((vm, umount_args, rm_args))
    }
}

/// A deletion rewrites the store in the one way a removal may: exactly
/// the resolved definition leaves.
pub proof fn lemma_delete_is_store_step(vms0: Seq<VmConfig>, i: int)
    requires
        0 <= i < vms0.len(),
    ensures
        crate::config::store_step(vms0, vms0.remove(i)),
{
}

} // verus!
