//! Inspecting the container behind a VM definition.
//!
//! The library resolves the name and builds the request; the caller
//! runs the external tool and shows its payload.

use vstd::prelude::*;

use crate::config::{find_vm, has_vm, lemma_vm_index_unique, vm_index, KrunvmConfig,
    UserInputError};
use crate::utils::{buildah_request, buildah_verb, BuildahCommand};

verus! {

/// A request to inspect one VM's container.
pub struct InspectCmd {
    /// Name of the microVM to be inspected.
    pub name: String,
}

impl InspectCmd {
    /// Resolves the name and builds the inspection request for the VM's
    /// container.
    pub fn run(&self, cfg: &KrunvmConfig) -> (r: Result<Vec<String>, UserInputError>)
        requires
            cfg.wf(),
        ensures
            match r {
                Err(e) => e == UserInputError::NoSuchVm && !has_vm(cfg.vmconfig_map@, self.name@),
                Ok(args) => {
                    let i = vm_index(cfg.vmconfig_map@, self.name@);
                    &&& has_vm(cfg.vmconfig_map@, self.name@)
                    &&& args@.len() == 2
                    &&& args@[0]@ == buildah_verb(BuildahCommand::Inspect)
                    &&& args@[1]@ == cfg.vmconfig_map@[i].container@
                },
            },
    {
        let i = match find_vm(&cfg.vmconfig_map, &self.name) {
            None => {
                return Err(UserInputError::NoSuchVm);
            },
            Some(i) => i,
        };
        proof {
            lemma_vm_index_unique(cfg.vmconfig_map@, self.name@, i as int);
        }
        Ok(buildah_request(cfg, BuildahCommand::Inspect, &cfg.vmconfig_map[i].container))
    }
}

} // verus!
