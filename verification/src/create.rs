//! Creating a new VM definition.
//!
//! Creation proceeds in two verified steps around the external rootfs
//! instantiation: first the request is validated against the current
//! configuration and defaults are resolved, then the definition built
//! from the returned container id is registered under a still-unique
//! name.  The caller drives the external tool in between.

use vstd::prelude::*;

use crate::config::{has_vm, KrunvmConfig, NetworkMode, UserInputError, VmConfig, MAX_CPUS,
    MAX_MEM_MIB};
use crate::config::find_vm;
use crate::utils::{buildah_verb, get_buildah_args, path_pairs_to_hash_map, paths_assoc,
    port_pairs_to_hash_map, ports_assoc, BuildahCommand, PathPair, PortPair};

verus! {

/// A request to create a new VM definition from an OCI image.
pub struct CreateCmdArgs {
    /// OCI image to use as template.
    pub image: String,
    /// Assign a name to the VM; the fresh container id is used when
    /// none is given.
    pub name: Option<String>,
    /// Number of vCPUs; the global default is used when none is given.
    pub cpus: Option<u32>,
    /// Amount of RAM in MiB; the global default is used when none is
    /// given.
    pub mem: Option<u32>,
    /// DNS server to use in the microVM; the global default is used
    /// when none is given.
    pub dns: Option<String>,
    /// Working directory inside the microVM.
    pub workdir: String,
    /// Volumes to be exposed to the guest.
    pub volumes: Vec<PathPair>,
    /// Ports to be exposed to the host.
    pub ports: Vec<PortPair>,
}

/// A validated creation with its defaults resolved, waiting for the
/// container id of the freshly instantiated rootfs.
pub struct PendingVm {
    pub name: Option<String>,
    pub cpus: u32,
    pub mem: u32,
    pub dns: String,
    pub workdir: String,
    pub network_mode: NetworkMode,
    pub mapped_volumes: Vec<(String, String)>,
    pub mapped_ports: Vec<(String, String)>,
}

/// The vCPU count the request asks for, after resolving the default.
pub open spec fn resolved_cpus(cfg: KrunvmConfig, args: CreateCmdArgs) -> u32 {
    match args.cpus {
        Some(c) => c,
        None => cfg.default_cpus,
    }
}

/// The RAM size the request asks for, after resolving the default.
pub open spec fn resolved_mem(cfg: KrunvmConfig, args: CreateCmdArgs) -> u32 {
    match args.mem {
        Some(m) => m,
        None => cfg.default_mem,
    }
}

/// Which error, if any, the creation request is rejected with.
pub open spec fn spec_create_check(cfg: KrunvmConfig, args: CreateCmdArgs) -> Result<
    (),
    UserInputError,
> {
    if match args.name {
        Some(n) => has_vm(cfg.vmconfig_map@, n@),
        None => false,
    } {
        Err(UserInputError::DuplicateName)
    } else if resolved_cpus(cfg, args) < 1 || resolved_cpus(cfg, args) > MAX_CPUS {
        Err(UserInputError::CpusOutOfRange)
    } else if resolved_mem(cfg, args) > MAX_MEM_MIB {
        Err(UserInputError::MemOutOfRange)
    } else {
        Ok(())
    }
}

/// Validates a creation request against the configuration, resolves the
/// defaults, and hands back the request for the external rootfs
/// instantiation: the fixed verb followed by the image reference.
/// Numeric bounds are enforced here, before anything is persisted.
pub fn prepare_create(cfg: &KrunvmConfig, args: CreateCmdArgs) -> (r: Result<
    (PendingVm, Vec<String>),
    UserInputError,
>)
    ensures
        match r {
            Err(e) => spec_create_check(*cfg, args) == Err::<(), UserInputError>(e),
            Ok((pending, from_args)) => {
                &&& spec_create_check(*cfg, args) == Ok::<(), UserInputError>(())
                &&& pending.name == args.name
                &&& pending.cpus == resolved_cpus(*cfg, args)
                &&& pending.mem == resolved_mem(*cfg, args)
                &&& pending.dns == (match args.dns {
                    Some(d) => d,
                    None => cfg.default_dns,
                })
                &&& pending.workdir == args.workdir
                &&& pending.network_mode == cfg.default_network_mode
                &&& pending.mapped_volumes@ == paths_assoc(args.volumes@)
                &&& pending.mapped_ports@ == ports_assoc(args.ports@)
                &&& from_args@.len() == 2
                &&& from_args@[0]@ == buildah_verb(BuildahCommand::From)
                &&& from_args@[1]@ == args.image@
            },
        },
{
    match &args.name {
        Some(n) => {
            if find_vm(&cfg.vmconfig_map, n).is_some() {
                return Err(UserInputError::DuplicateName);
            }
        },
        None => {},
    }
    let CreateCmdArgs { image, name, cpus, mem, dns, workdir, volumes, ports } = args;
    let cpus = match cpus {
        Some(c) => c,
        None => cfg.default_cpus,
    };
    if cpus < 1 || cpus > MAX_CPUS {
        return Err(UserInputError::CpusOutOfRange);
    }
    let mem = match mem {
        Some(m) => m,
        None => cfg.default_mem,
    };
    if mem > MAX_MEM_MIB {
        return Err(UserInputError::MemOutOfRange);
    }
    let dns = match dns {
        Some(d) => d,
        None => cfg.default_dns.clone(),
    };
    let mut from_args = get_buildah_args(cfg, BuildahCommand::From);
    from_args.push(image);
    let pending = PendingVm {
        name,
        cpus,
        mem,
        dns,
        workdir,
        network_mode: cfg.default_network_mode,
        mapped_volumes: path_pairs_to_hash_map(volumes),
        mapped_ports: port_pairs_to_hash_map(ports),
    };
    Ok((pending, from_args))
}

impl PendingVm {
    /// Builds the definition once the rootfs manager has produced a
    /// container: a VM named as requested, or after its container when
    /// no name was given.
    pub fn into_vm(self, container: String) -> (vm: VmConfig)
        ensures
            vm.name == (match self.name {
                Some(n) => n,
                None => container,
            }),
            vm.cpus == self.cpus,
            vm.mem == self.mem,
            vm.container == container,
            vm.dns == self.dns,
            vm.workdir == self.workdir,
            vm.network_mode == self.network_mode,
            vm.mapped_volumes == self.mapped_volumes,
            vm.mapped_ports == self.mapped_ports,
    {
        let name = match self.name {
            Some(n) => n,
            None => container.clone(),
        };
        VmConfig {
            name,
            cpus: self.cpus,
            mem: self.mem,
            container,
            dns: self.dns,
            workdir: self.workdir,
            network_mode: self.network_mode,
            mapped_volumes: self.mapped_volumes,
            mapped_ports: self.mapped_ports,
        }
    }
}

/// Adds a freshly created definition to the configuration.  Rejected
/// exactly when the name is already taken, so that names stay unique at
/// rest; nothing is touched on a rejection.
pub fn register_vm(cfg: &mut KrunvmConfig, vm: VmConfig) -> (r: Result<(), UserInputError>)
    requires
        old(cfg).wf(),
    ensures
        final(cfg).wf(),
        match r {
            Err(e) => *final(cfg) == *old(cfg) && e == UserInputError::DuplicateName && has_vm(
                old(cfg).vmconfig_map@,
                vm.name@,
            ),
            Ok(()) => {
                &&& !has_vm(old(cfg).vmconfig_map@, vm.name@)
                &&& final(cfg).vmconfig_map@ == old(cfg).vmconfig_map@.push(vm)
                &&& final(cfg).version == old(cfg).version
                &&& final(cfg).default_cpus == old(cfg).default_cpus
                &&& final(cfg).default_mem == old(cfg).default_mem
                &&& final(cfg).default_dns == old(cfg).default_dns
                &&& final(cfg).default_network_mode == old(cfg).default_network_mode
                &&& final(cfg).storage_volume == old(cfg).storage_volume
            },
        },
{
    if find_vm(&cfg.vmconfig_map, &vm.name).is_some() {
        return Err(UserInputError::DuplicateName);
    }
    let ghost vms0 = cfg.vmconfig_map@;
    cfg.vmconfig_map.push(vm);
    proof {
        let vms1 = cfg.vmconfig_map@;
        assert forall|a: int, b: int|
            0 <= a < b < vms1.len() implies vms1[a].name@ != vms1[b].name@ by {
            if b < vms1.len() - 1 {
                assert(vms0[a].name@ != vms0[b].name@);
            } else {
                assert(vms1[a] == vms0[a]);
            }
        }
    }
    Ok(())
}

/// A successful registration rewrites the store in the one way a
/// creation may: a definition under a fresh name is appended.
pub proof fn lemma_register_is_store_step(vms0: Seq<VmConfig>, vm: VmConfig)
    requires
        !has_vm(vms0, vm.name@),
    ensures
        crate::config::store_step(vms0, vms0.push(vm)),
{
}

/// The contents written to the guest's resolver configuration: the
/// stated options line and the chosen DNS server.
pub fn resolv_conf_contents(dns: &String) -> (s: String)
    ensures
        s@ == "options use-vc\nnameserver "@ + dns@ + "\n"@,
{
    let mut s = "options use-vc\nnameserver ".to_owned();
    s.append(dns.as_str());
    s.append("\n");
    s
}

/// Where the inspected image configuration is written inside a mounted
/// rootfs.
pub fn krun_config_path(rootfs: &String) -> (p: String)
    ensures
        p@ == rootfs@ + "/.krun_config.json"@,
{
    let mut p = rootfs.clone();
    p.append("/.krun_config.json");
    p
}

/// The directory that holds the guest's resolver configuration.
pub fn resolv_conf_dir(rootfs: &String) -> (p: String)
    ensures
        p@ == rootfs@ + "/etc/"@,
{
    let mut p = rootfs.clone();
    p.append("/etc/");
    p
}

/// Where the guest's resolver configuration is written.
pub fn resolv_conf_path(rootfs: &String) -> (p: String)
    ensures
        p@ == rootfs@ + "/etc/resolv.conf"@,
{
    let mut p = rootfs.clone();
    p.append("/etc/resolv.conf");
    p
}

} // verus!
