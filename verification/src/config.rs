//! The current persisted configuration schema, tagged with version
//! number 2, together with the migration from the older schema.
//!
//! The set of VM definitions is kept as a vector whose well-formedness
//! invariant is that no two entries share a name; every mutating
//! operation of the library preserves it.

use vstd::prelude::*;

use crate::config_v1;

verus! {

/// Largest accepted vCPU count.
pub const MAX_CPUS: u32 = 8;

/// Largest accepted guest RAM size, in MiB.
pub const MAX_MEM_MIB: u32 = 16384;

/// How the guest is attached to the network: user-space port
/// forwarding over transparent socket impersonation, or a virtio-net
/// device served over a socket by an external helper process.
#[derive(Clone, Copy, Debug, PartialEq, Eq, Structural)]
pub enum NetworkMode {
    Tsi,
    Passt,
}

impl Default for NetworkMode {
    fn default() -> (m: NetworkMode)
        ensures
            m == NetworkMode::Tsi,
    {
        NetworkMode::Tsi
    }
}

/// One persisted VM definition.
#[derive(Debug, Clone, PartialEq, Eq)]
pub struct VmConfig {
    pub name: String,
    pub cpus: u32,
    pub mem: u32,
    pub container: String,
    pub workdir: String,
    pub dns: String,
    pub network_mode: NetworkMode,
    pub mapped_volumes: Vec<(String, String)>,
    pub mapped_ports: Vec<(String, String)>,
}

/// The whole persisted state in the current schema.
#[derive(Debug, Clone, PartialEq, Eq)]
pub struct KrunvmConfig {
    pub version: u8,
    pub default_cpus: u32,
    pub default_mem: u32,
    pub default_dns: String,
    pub default_network_mode: NetworkMode,
    pub storage_volume: String,
    pub vmconfig_map: Vec<VmConfig>,
}

/// The character's code with an ASCII capital letter folded to its
/// small form; anything else keeps its own code.
pub open spec fn lower_code(c: char) -> int {
    if 65 <= c as u32 <= 90 {
        c as u32 + 32
    } else {
        c as u32 as int
    }
}

/// The two sequences are the same writing up to ASCII case.
pub open spec fn eq_ignore_ascii_case(a: Seq<char>, b: Seq<char>) -> bool {
    a.len() == b.len() && forall|i: int|
        0 <= i < a.len() ==> lower_code(#[trigger] a[i]) == lower_code(b[i])
}

fn ieq_char(a: char, b: char) -> (r: bool)
    ensures
        r == (lower_code(a) == lower_code(b)),
{
    let ca = a as u32;
    let cb = b as u32;
    let la = if 65 <= ca && ca <= 90 {
        ca + 32
    } else {
        ca
    };
    let lb = if 65 <= cb && cb <= 90 {
        cb + 32
    } else {
        cb
    };
    la == lb
}

impl NetworkMode {
    /// Reads a network mode name, ASCII case not mattering; anything
    /// else is rejected.
    pub fn from_str(s: &str) -> (r: Result<NetworkMode, &'static str>)
        ensures
            match r {
                Ok(m) => (m == NetworkMode::Tsi && eq_ignore_ascii_case(s@, "tsi"@)) || (m
                    == NetworkMode::Passt && eq_ignore_ascii_case(s@, "passt"@)),
                Err(e) => {
                    &&& !eq_ignore_ascii_case(s@, "tsi"@)
                    &&& !eq_ignore_ascii_case(s@, "passt"@)
                    &&& e@ == "Invalid network mode"@
                },
            },
    {
        proof {
            reveal_strlit("tsi");
            reveal_strlit("passt");
        }
        let n = s.unicode_len();
        if n == 3 && ieq_char(s.get_char(0), 't') && ieq_char(s.get_char(1), 's') && ieq_char(
            s.get_char(2),
            'i',
        ) {
            proof {
                assert forall|i: int|
                    0 <= i < s@.len() implies lower_code(#[trigger] s@[i]) == lower_code(
                    "tsi"@[i],
                ) by {
                    if i == 0 {
                    } else if i == 1 {
                    } else {
                    }
                }
            }
            Ok(NetworkMode::Tsi)
        } else if n == 5 && ieq_char(s.get_char(0), 'p') && ieq_char(s.get_char(1), 'a')
            && ieq_char(s.get_char(2), 's') && ieq_char(s.get_char(3), 's') && ieq_char(
            s.get_char(4),
            't',
        ) {
            proof {
                assert forall|i: int|
                    0 <= i < s@.len() implies lower_code(#[trigger] s@[i]) == lower_code(
                    "passt"@[i],
                ) by {
                    if i == 0 {
                    } else if i == 1 {
                    } else if i == 2 {
                    } else if i == 3 {
                    } else {
                    }
                }
            }
            Ok(NetworkMode::Passt)
        } else {
            Err("Invalid network mode")
        }
    }
}

/// No two VM definitions share a name.
pub open spec fn unique_names(vms: Seq<VmConfig>) -> bool {
    forall|i: int, j: int| 0 <= i < j < vms.len() ==> vms[i].name@ != vms[j].name@
}

/// Some VM definition carries the given name.
pub open spec fn has_vm(vms: Seq<VmConfig>, name: Seq<char>) -> bool {
    exists|i: int| 0 <= i < vms.len() && vms[i].name@ == name
}

/// The position of the VM definition carrying the given name.
pub open spec fn vm_index(vms: Seq<VmConfig>, name: Seq<char>) -> int {
    choose|i: int| 0 <= i < vms.len() && vms[i].name@ == name
}

/// Under unique names, any position whose entry carries the name is the
/// one `vm_index` picks.
pub proof fn lemma_vm_index_unique(vms: Seq<VmConfig>, name: Seq<char>, i: int)
    requires
        unique_names(vms),
        0 <= i < vms.len(),
        vms[i].name@ == name,
    ensures
        vm_index(vms, name) == i,
        has_vm(vms, name),
{
    assert(has_vm(vms, name));
    let j = vm_index(vms, name);
    assert(0 <= j < vms.len() && vms[j].name@ == name);
    if i < j {
        assert(vms[i].name@ != vms[j].name@);
    } else if j < i {
        assert(vms[j].name@ != vms[i].name@);
    }
}

/// Removing an entry keeps the remaining names unique.
pub proof fn lemma_unique_names_remove(vms: Seq<VmConfig>, i: int)
    requires
        unique_names(vms),
        0 <= i < vms.len(),
    ensures
        unique_names(vms.remove(i)),
{
    let vms1 = vms.remove(i);
    assert forall|a: int, b: int| 0 <= a < b < vms1.len() implies vms1[a].name@ != vms1[b].name@ by {
        let ra = if a < i {
            a
        } else {
            a + 1
        };
        let rb = if b < i {
            b
        } else {
            b + 1
        };
        assert(vms1[a] == vms[ra]);
        assert(vms1[b] == vms[rb]);
        assert(vms[ra].name@ != vms[rb].name@);
    }
}

/// A rejected user input, named after what was wrong with it.
#[derive(Clone, Copy, Debug, PartialEq, Eq, Structural)]
pub enum UserInputError {
    /// No VM definition carries the requested name.
    NoSuchVm,
    /// A VM definition with the requested name already exists.
    DuplicateName,
    /// A vCPU count outside 1 through `MAX_CPUS`.
    CpusOutOfRange,
    /// A RAM size above `MAX_MEM_MIB`.
    MemOutOfRange,
}

impl VmConfig {
    /// The numeric bounds that are enforced before a definition is
    /// persisted.
    pub open spec fn bounds_ok(&self) -> bool {
        &&& 1 <= self.cpus <= MAX_CPUS
        &&& self.mem <= MAX_MEM_MIB
    }
}

impl KrunvmConfig {
    /// Well-formedness of the persisted state: names are unique.
    pub open spec fn wf(&self) -> bool {
        unique_names(self.vmconfig_map@)
    }
}

impl Default for KrunvmConfig {
    /// A fresh current-schema value: version tag 2 and the stock
    /// defaults.
    fn default() -> (cfg: KrunvmConfig)
        ensures
            cfg.version == 2,
            cfg.default_cpus == 2,
            cfg.default_mem == 1024,
            cfg.default_dns@ == "1.1.1.1"@,
            cfg.default_network_mode == NetworkMode::Tsi,
            cfg.storage_volume@ == Seq::<char>::empty(),
            cfg.vmconfig_map@ == Seq::<VmConfig>::empty(),
            cfg.wf(),
    {
        KrunvmConfig {
            version: 2,
            default_cpus: 2,
            default_mem: 1024,
            default_dns: "1.1.1.1".to_owned(),
            default_network_mode: NetworkMode::Tsi,
            storage_volume: String::new(),
            vmconfig_map: Vec::new(),
        }
    }
}

/// What migration makes of one older-schema VM definition: every field
/// is carried over unchanged, and the newly introduced network mode is
/// filled with its stated default.
pub open spec fn spec_migrate_vm(old: config_v1::VmConfig) -> VmConfig {
    VmConfig {
        name: old.name,
        cpus: old.cpus,
        mem: old.mem,
        container: old.container,
        workdir: old.workdir,
        dns: old.dns,
        network_mode: NetworkMode::Tsi,
        mapped_volumes: old.mapped_volumes,
        mapped_ports: old.mapped_ports,
    }
}

impl From<config_v1::VmConfig> for VmConfig {
    fn from(old: config_v1::VmConfig) -> (vm: VmConfig) {
        VmConfig {
            name: old.name,
            cpus: old.cpus,
            mem: old.mem,
            container: old.container,
            workdir: old.workdir,
            dns: old.dns,
            network_mode: NetworkMode::Tsi,
            mapped_volumes: old.mapped_volumes,
            mapped_ports: old.mapped_ports,
        }
    }
}

impl vstd::std_specs::convert::FromSpecImpl<config_v1::VmConfig> for VmConfig {
    open spec fn obeys_from_spec() -> bool {
        true
    }

    open spec fn from_spec(old: config_v1::VmConfig) -> VmConfig {
        spec_migrate_vm(old)
    }
}

/// The value is what migration makes of the given older-schema value:
/// every default and definition carried over losslessly, the newly
/// introduced network modes filled with their stated default, and the
/// version re-stamped.
pub open spec fn is_migration_of(cfg: KrunvmConfig, old: config_v1::KrunvmConfig) -> bool {
    &&& cfg.version == 2
    &&& cfg.default_cpus == old.default_cpus
    &&& cfg.default_mem == old.default_mem
    &&& cfg.default_dns == old.default_dns
    &&& cfg.default_network_mode == NetworkMode::Tsi
    &&& cfg.storage_volume == old.storage_volume
    &&& cfg.vmconfig_map@ == old.vmconfig_map@.map(
        |i: int, vm: config_v1::VmConfig| spec_migrate_vm(vm),
    )
}

/// Migration of a whole older-schema value: defaults and definitions
/// are carried over losslessly, the newly introduced default network
/// mode is filled with its stated default, and the version is
/// re-stamped.
pub fn migrate(old: config_v1::KrunvmConfig) -> (cfg: KrunvmConfig)
    ensures
        is_migration_of(cfg, old),
{
    let config_v1::KrunvmConfig {
        version: _,
        default_cpus,
        default_mem,
        default_dns,
        storage_volume,
        vmconfig_map,
    } = old;

    let ghost old_vms = vmconfig_map@;
    let mut remaining = vmconfig_map;
    let mut migrated: Vec<VmConfig> = Vec::new();
    while remaining.len() > 0
        invariant
            remaining@ == old_vms.subrange(migrated@.len() as int, old_vms.len() as int),
            migrated@ == old_vms.subrange(0, migrated@.len() as int).map(
                |i: int, vm: config_v1::VmConfig| spec_migrate_vm(vm),
            ),
            migrated@.len() <= old_vms.len(),
        decreases remaining@.len(),
    {
        let vm = remaining.remove(0);
        migrated.push(VmConfig::from(vm));
        proof {
            assert(old_vms.subrange(0, migrated@.len() as int).map(
                |i: int, vm: config_v1::VmConfig| spec_migrate_vm(vm),
            ) =~= old_vms.subrange(0, migrated@.len() - 1).map(
                |i: int, vm: config_v1::VmConfig| spec_migrate_vm(vm),
            ).push(spec_migrate_vm(old_vms[migrated@.len() - 1])));
        }
    }
    proof {
        assert(migrated@ =~= old_vms.map(|i: int, vm: config_v1::VmConfig| spec_migrate_vm(vm)));
    }

    KrunvmConfig {
        version: 2,
        default_cpus,
        default_mem,
        default_dns,
        default_network_mode: NetworkMode::Tsi,
        storage_volume,
        vmconfig_map: migrated,
    }
}

/// One rewrite of the definition set, as the library's operations make
/// them: a creation appends a definition under a fresh name; a rename
/// moves a definition to the end under a fresh name; any other change
/// rewrites a definition in place keeping its name; a deletion removes
/// one.
pub open spec fn store_step(vms0: Seq<VmConfig>, vms1: Seq<VmConfig>) -> bool {
    ||| (exists|vm: VmConfig| !has_vm(vms0, vm.name@) && vms1 == vms0.push(vm))
    ||| (exists|i: int, vm: VmConfig|
        0 <= i < vms0.len() && !has_vm(vms0, vm.name@) && vms1 == vms0.remove(i).push(vm))
    ||| (exists|i: int, vm: VmConfig|
        0 <= i < vms0.len() && vm.name@ == vms0[i].name@ && vms1 == vms0.update(i, vm))
    ||| (exists|i: int| 0 <= i < vms0.len() && vms1 == vms0.remove(i))
}

/// One rewrite keeps names unique.
pub proof fn lemma_step_keeps_unique(vms0: Seq<VmConfig>, vms1: Seq<VmConfig>)
    requires
        unique_names(vms0),
        store_step(vms0, vms1),
    ensures
        unique_names(vms1),
{
    if exists|vm: VmConfig| !has_vm(vms0, vm.name@) && vms1 == vms0.push(vm) {
        let vm = choose|vm: VmConfig| !has_vm(vms0, vm.name@) && vms1 == vms0.push(vm);
        assert forall|a: int, b: int|
            0 <= a < b < vms1.len() implies vms1[a].name@ != vms1[b].name@ by {
            if b < vms1.len() - 1 {
                assert(vms0[a].name@ != vms0[b].name@);
            } else {
                assert(vms1[a] == vms0[a]);
            }
        }
    } else if exists|i: int, vm: VmConfig|
        0 <= i < vms0.len() && !has_vm(vms0, vm.name@) && vms1 == vms0.remove(i).push(vm) {
        let (i, vm) = choose|i: int, vm: VmConfig|
            0 <= i < vms0.len() && !has_vm(vms0, vm.name@) && vms1 == vms0.remove(i).push(vm);
        lemma_unique_names_remove(vms0, i);
        let removed = vms0.remove(i);
        assert forall|a: int, b: int|
            0 <= a < b < vms1.len() implies vms1[a].name@ != vms1[b].name@ by {
            if b < vms1.len() - 1 {
                assert(removed[a].name@ != removed[b].name@);
            } else {
                let ra = if a < i {
                    a
                } else {
                    a + 1
                };
                assert(vms1[a] == vms0[ra]);
                assert(vms1[b] == vm);
            }
        }
    } else if exists|i: int, vm: VmConfig|
        0 <= i < vms0.len() && vm.name@ == vms0[i].name@ && vms1 == vms0.update(i, vm) {
        let (i, vm) = choose|i: int, vm: VmConfig|
            0 <= i < vms0.len() && vm.name@ == vms0[i].name@ && vms1 == vms0.update(i, vm);
        assert forall|a: int, b: int|
            0 <= a < b < vms1.len() implies vms1[a].name@ != vms1[b].name@ by {
            assert(vms0[a].name@ != vms0[b].name@);
            assert(vms1[a].name@ == vms0[a].name@);
            assert(vms1[b].name@ == vms0[b].name@);
        }
    } else {
        let i = choose|i: int| 0 <= i < vms0.len() && vms1 == vms0.remove(i);
        lemma_unique_names_remove(vms0, i);
    }
}

/// A history of the definition set: it begins empty and each state
/// follows from the one before by one of the library's rewrites.
pub open spec fn store_trace(states: Seq<Seq<VmConfig>>) -> bool {
    &&& states.len() > 0
    &&& states[0] == Seq::<VmConfig>::empty()
    &&& forall|k: int|
        0 <= k < states.len() - 1 ==> store_step(#[trigger] states[k], states[k + 1])
}

/// Uniqueness at rest: along any history of creations, changes, renames
/// and deletions, no two VM definitions ever share a name.
#[verifier::rlimit(60)]
pub proof fn lemma_uniqueness_at_rest(states: Seq<Seq<VmConfig>>)
    requires
        store_trace(states),
    ensures
        forall|k: int| 0 <= k < states.len() ==> unique_names(#[trigger] states[k]),
    decreases states.len(),
{
    if states.len() == 1 {
        assert(unique_names(states[0]));
    } else {
        let front = states.drop_last();
        assert(front[0] == states[0]);
        assert forall|k: int|
            0 <= k < front.len() - 1 implies store_step(#[trigger] front[k], front[k + 1]) by {
            assert(front[k] == states[k]);
            assert(front[k + 1] == states[k + 1]);
            assert(store_step(states[k], states[k + 1]));
        }
        lemma_uniqueness_at_rest(front);
        assert(front[front.len() - 1] == states[states.len() - 2]);
        assert(unique_names(front[front.len() - 1]));
        assert(store_step(states[states.len() - 2], states[states.len() - 1]));
        lemma_step_keeps_unique(states[states.len() - 2], states[states.len() - 1]);
        assert forall|k: int| 0 <= k < states.len() implies unique_names(#[trigger] states[k]) by {
            if k < states.len() - 1 {
                assert(front[k] == states[k]);
                assert(unique_names(front[k]));
            } else {
                assert(unique_names(states[states.len() - 1]));
            }
        }
    }
}

/// The position of the VM definition carrying the given name, if any.
pub fn find_vm(vms: &Vec<VmConfig>, name: &String) -> (r: Option<usize>)
    ensures
        match r {
            Some(i) => i < vms@.len() && vms@[i as int].name@ == name@,
            None => !has_vm(vms@, name@),
        },
{
    let mut i: usize = 0;
    while i < vms.len()
        invariant
            i <= vms@.len(),
            forall|k: int| 0 <= k < i ==> vms@[k].name@ != name@,
        decreases vms@.len() - i,
    {
        if vms[i].name == *name {
            return Some(i);
        }
        i += 1;
    }
    None
}

} // verus!
