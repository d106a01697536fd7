//! Starting a VM: the hypervisor launch plan.
//!
//! The launch plan is everything the hypervisor context must be fed,
//! computed and pinned down here as plain values; the caller walks the
//! plan and makes the foreign configuration calls in the stated order,
//! aborting at the first failure.

use vstd::prelude::*;

use crate::config::{NetworkMode, VmConfig};
use crate::utils::{dec_string, spec_dec};

verus! {

/// How volume mappings are applied on this deployment: recursive bind
/// mounts made on the host, or shared-filesystem entries declared to
/// the hypervisor, each under a tag.
#[derive(Clone, Copy, Debug, PartialEq, Eq, Structural)]
pub enum MountStyle {
    BindMount,
    SharedFs,
}

/// One recursive bind mount from a host path onto a directory inside
/// the mounted rootfs (created if absent).
pub struct BindMount {
    pub host: String,
    pub target: String,
}

/// One shared-filesystem entry declared to the hypervisor under a tag;
/// the guest mounts the tag at the guest path.
pub struct SharedFsEntry {
    pub tag: String,
    pub host: String,
    pub guest: String,
}

/// The volume part of a launch plan, per mount style.
pub enum VolumePlan {
    Bind(Vec<BindMount>),
    Shared(Vec<SharedFsEntry>),
}

/// The network part of a launch plan: the port-mapping table handed to
/// the hypervisor, or a socket endpoint whose helper process receives
/// the mappings as one comma-joined argument.
pub enum NetworkPlan {
    PortMap(Vec<String>),
    SocketAttached { ports_arg: Option<String> },
}

/// The guest entry point, when an explicit command was given.
pub struct GuestCommand {
    pub command: String,
    pub args: Vec<String>,
}

/// Everything the hypervisor context is configured with, in the order
/// the calls are made: vCPU count and memory, the rootfs path, the
/// volume mappings, the network backend's result, the working directory
/// if any, the environment, and the entry point if any.
pub struct LaunchPlan {
    pub cpus: u8,
    pub mem: u32,
    pub rootfs: String,
    pub volumes: VolumePlan,
    pub network: NetworkPlan,
    pub workdir: Option<String>,
    pub env: Vec<String>,
    pub guest_command: Option<GuestCommand>,
}

/// The table entry for one port mapping.
pub open spec fn port_map_entry(p: (String, String)) -> Seq<char> {
    p.0@ + ":"@ + p.1@
}

/// The comma-joined list of port mappings handed to the network helper.
pub open spec fn comma_joined(ps: Seq<(String, String)>) -> Seq<char>
    decreases ps.len(),
{
    if ps.len() == 0 {
        Seq::empty()
    } else if ps.len() == 1 {
        port_map_entry(ps[0])
    } else {
        comma_joined(ps.drop_last()) + ","@ + port_map_entry(ps.last())
    }
}

/// The tag of the shared-filesystem entry at one position.
pub open spec fn volume_tag(i: int) -> Seq<char> {
    "krunvm"@ + spec_dec(i)
}

fn port_map_string(p: &(String, String)) -> (s: String)
    ensures
        s@ == port_map_entry(*p),
{
    let mut s = p.0.clone();
    s.append(":");
    s.append(p.1.as_str());
    s
}

/// Builds the port-mapping table, one `host:guest` entry per mapping,
/// in order.
pub fn port_map_table(ports: &Vec<(String, String)>) -> (t: Vec<String>)
    ensures
        t@.len() == ports@.len(),
        forall|i: int| 0 <= i < t@.len() ==> #[trigger] t@[i]@ == port_map_entry(ports@[i]),
{
    let mut t: Vec<String> = Vec::new();
    let mut i: usize = 0;
    while i < ports.len()
        invariant
            i <= ports@.len(),
            t@.len() == i,
            forall|k: int| 0 <= k < i ==> #[trigger] t@[k]@ == port_map_entry(ports@[k]),
        decreases ports@.len() - i,
    {
        t.push(port_map_string(&ports[i]));
        i += 1;
    }
    t
}

/// Joins the port mappings into the helper's single argument; no
/// argument when there is no mapping.
pub fn joined_ports_arg(ports: &Vec<(String, String)>) -> (r: Option<String>)
    ensures
        match r {
            None => ports@.len() == 0,
            Some(s) => ports@.len() > 0 && s@ == comma_joined(ports@),
        },
{
    if ports.len() == 0 {
        return None;
    }
    let mut s = port_map_string(&ports[0]);
    proof {
        assert(ports@.subrange(0, 1) =~= seq![ports@[0]]);
        assert(comma_joined(ports@.subrange(0, 1)) == port_map_entry(ports@[0]));
    }
    let mut i: usize = 1;
    while i < ports.len()
        invariant
            1 <= i <= ports@.len(),
            s@ == comma_joined(ports@.subrange(0, i as int)),
        decreases ports@.len() - i,
    {
        s.append(",");
        let entry = port_map_string(&ports[i]);
        s.append(entry.as_str());
        proof {
            let pre = ports@.subrange(0, i as int);
            let post = ports@.subrange(0, i + 1);
            assert(post.drop_last() =~= pre);
            assert(post.last() == ports@[i as int]);
            assert(post.len() > 1);
        }
        i += 1;
    }
    proof {
        assert(ports@.subrange(0, ports@.len() as int) =~= ports@);
    }
    Some(s)
}

/// Builds the bind-mount list: each mapping is mounted from its host
/// path onto the guest path inside the mounted rootfs.
pub fn bind_mounts(volumes: &Vec<(String, String)>, rootfs: &String) -> (v: Vec<BindMount>)
    ensures
        v@.len() == volumes@.len(),
        forall|i: int|
            0 <= i < v@.len() ==> (#[trigger] v@[i].host)@ == volumes@[i].0@ && v@[i].target@
                == rootfs@ + volumes@[i].1@,
{
    let mut v: Vec<BindMount> = Vec::new();
    let mut i: usize = 0;
    while i < volumes.len()
        invariant
            i <= volumes@.len(),
            v@.len() == i,
            forall|k: int|
                0 <= k < i ==> (#[trigger] v@[k].host)@ == volumes@[k].0@ && v@[k].target@
                    == rootfs@ + volumes@[k].1@,
        decreases volumes@.len() - i,
    {
        let mut target = rootfs.clone();
        target.append(volumes[i].1.as_str());
        v.push(BindMount { host: volumes[i].0.clone(), target });
        i += 1;
    }
    v
}

/// Builds the shared-filesystem list: each mapping is declared under
/// the tag carrying its position.
pub fn shared_fs_entries(volumes: &Vec<(String, String)>) -> (v: Vec<SharedFsEntry>)
    ensures
        v@.len() == volumes@.len(),
        forall|i: int|
            0 <= i < v@.len() ==> (#[trigger] v@[i].tag)@ == volume_tag(i) && v@[i].host@
                == volumes@[i].0@ && v@[i].guest@ == volumes@[i].1@,
{
    let mut v: Vec<SharedFsEntry> = Vec::new();
    let mut i: usize = 0;
    while i < volumes.len()
        invariant
            i <= volumes@.len(),
            v@.len() == i,
            forall|k: int|
                0 <= k < i ==> (#[trigger] v@[k].tag)@ == volume_tag(k) && v@[k].host@
                    == volumes@[k].0@ && v@[k].guest@ == volumes@[k].1@,
        decreases volumes@.len() - i,
    {
        let mut tag = "krunvm".to_owned();
        tag.append(dec_string(i as u64).as_str());
        v.push(
            SharedFsEntry { tag, host: volumes[i].0.clone(), guest: volumes[i].1.clone() },
        );
        i += 1;
    }
    v
}

/// The environment always starts with the synthesized hostname and home
/// entries; the user-supplied pairs follow.
pub fn build_env(name: &String, envs: &Vec<String>) -> (env: Vec<String>)
    ensures
        env@.len() == 2 + envs@.len(),
        env@[0]@ == "HOSTNAME="@ + name@,
        env@[1]@ == "HOME=/root"@,
        forall|i: int| 0 <= i < envs@.len() ==> env@[2 + i] == #[trigger] envs@[i],
{
    let mut env: Vec<String> = Vec::new();
    let mut hostname = "HOSTNAME=".to_owned();
    hostname.append(name.as_str());
    env.push(hostname);
    env.push("HOME=/root".to_owned());
    let mut i: usize = 0;
    while i < envs.len()
        invariant
            i <= envs@.len(),
            env@.len() == 2 + i,
            env@[0]@ == "HOSTNAME="@ + name@,
            env@[1]@ == "HOME=/root"@,
            forall|k: int| 0 <= k < i ==> env@[2 + k] == #[trigger] envs@[k],
        decreases envs@.len() - i,
    {
        env.push(envs[i].clone());
        i += 1;
    }
    env
}

/// The plan is exactly what the definition, the mounted rootfs, the
/// requested entry point and environment, and the deployment's mount
/// style ask for: every configuration value is pinned.
pub open spec fn plan_matches(
    vmcfg: VmConfig,
    rootfs: String,
    command: Option<String>,
    args: Seq<String>,
    envs: Seq<String>,
    style: MountStyle,
    plan: LaunchPlan,
) -> bool {
    &&& plan.cpus as u32 == vmcfg.cpus
    &&& plan.mem == vmcfg.mem
    &&& plan.rootfs == rootfs
    &&& match plan.volumes {
        VolumePlan::Bind(v) => {
            &&& style == MountStyle::BindMount
            &&& v@.len() == vmcfg.mapped_volumes@.len()
            &&& forall|i: int|
                0 <= i < v@.len() ==> (#[trigger] v@[i].host)@ == vmcfg.mapped_volumes@[i].0@
                    && v@[i].target@ == rootfs@ + vmcfg.mapped_volumes@[i].1@
        },
        VolumePlan::Shared(v) => {
            &&& style == MountStyle::SharedFs
            &&& v@.len() == vmcfg.mapped_volumes@.len()
            &&& forall|i: int|
                0 <= i < v@.len() ==> (#[trigger] v@[i].tag)@ == volume_tag(i) && v@[i].host@
                    == vmcfg.mapped_volumes@[i].0@ && v@[i].guest@ == vmcfg.mapped_volumes@[i].1@
        },
    }
    &&& match plan.network {
        NetworkPlan::PortMap(t) => {
            &&& vmcfg.network_mode == NetworkMode::Tsi
            &&& t@.len() == vmcfg.mapped_ports@.len()
            &&& forall|i: int|
                0 <= i < t@.len() ==> (#[trigger] t@[i])@ == port_map_entry(
                    vmcfg.mapped_ports@[i],
                )
        },
        NetworkPlan::SocketAttached { ports_arg } => {
            &&& vmcfg.network_mode == NetworkMode::Passt
            &&& match ports_arg {
                None => vmcfg.mapped_ports@.len() == 0,
                Some(s) => vmcfg.mapped_ports@.len() > 0 && s@ == comma_joined(
                    vmcfg.mapped_ports@,
                ),
            }
        },
    }
    &&& match plan.workdir {
        None => vmcfg.workdir@.len() == 0,
        Some(w) => vmcfg.workdir@.len() > 0 && w == vmcfg.workdir,
    }
    &&& plan.env@.len() == 2 + envs.len()
    &&& plan.env@[0]@ == "HOSTNAME="@ + vmcfg.name@
    &&& plan.env@[1]@ == "HOME=/root"@
    &&& forall|i: int| 0 <= i < envs.len() ==> plan.env@[2 + i] == #[trigger] envs[i]
    &&& match plan.guest_command {
        None => command is None,
        Some(gc) => command == Some(gc.command) && gc.args@ == args,
    }
}

/// Assembles the launch plan for one start attempt.  The definition is
/// assumed pre-validated, as the store enforces its bounds before
/// persisting it; only presence is examined here.
pub fn build_launch_plan(
    vmcfg: &VmConfig,
    rootfs: &String,
    command: Option<String>,
    args: Vec<String>,
    envs: &Vec<String>,
    style: MountStyle,
) -> (plan: LaunchPlan)
    requires
        vmcfg.cpus <= 255,
    ensures
        plan_matches(*vmcfg, *rootfs, command, args@, envs@, style, plan),
{
    let volumes = match style {
        MountStyle::BindMount => {
            let v = bind_mounts(&vmcfg.mapped_volumes, rootfs);
            proof {
                assert(v@.len() == vmcfg.mapped_volumes@.len());
                assert forall|i: int|
                    0 <= i < v@.len() implies (#[trigger] v@[i].host)@
                    == vmcfg.mapped_volumes@[i].0@ && v@[i].target@ == rootfs@
                    + vmcfg.mapped_volumes@[i].1@ by {
                    assert((v@[i].host)@ == vmcfg.mapped_volumes@[i].0@);
                }
            }
            VolumePlan::Bind(v)
        },
        MountStyle::SharedFs => VolumePlan::Shared(shared_fs_entries(&vmcfg.mapped_volumes)),
    };
    let network = match vmcfg.network_mode {
        NetworkMode::Tsi => NetworkPlan::PortMap(port_map_table(&vmcfg.mapped_ports)),
        NetworkMode::Passt => NetworkPlan::SocketAttached {
            ports_arg: joined_ports_arg(&vmcfg.mapped_ports),
        },
    };
    let workdir = if vmcfg.workdir.as_str().unicode_len() == 0 {
        None
    } else {
        Some(vmcfg.workdir.clone())
    };
    let env = build_env(&vmcfg.name, envs);
    let guest_command = match command {
        Some(c) => Some(GuestCommand { command: c, args }),
        None => None,
    };
    LaunchPlan {
        cpus: (vmcfg.cpus % 256) as u8,
        mem: vmcfg.mem,
        rootfs: rootfs.clone(),
        volumes,
        network,
        workdir,
        env,
        guest_command,
    }
}

/// A request to start one VM.
pub struct StartCmd {
    /// Name of the microVM.
    pub name: String,
    /// Command to run inside the VM; the image's own entry point runs
    /// when none is given.
    pub command: Option<String>,
    /// Arguments to be passed to the command executed in the VM.
    pub args: Vec<String>,
    /// Number of vCPUs; accepted on the command line but not applied —
    /// the persisted definition decides.
    pub cpus: Option<u8>,
    /// Amount of RAM in MiB; accepted on the command line but not
    /// applied — the persisted definition decides.
    pub mem: Option<usize>,
    /// Environment entries in `key=value` form to be exposed to the VM.
    pub envs: Option<Vec<String>>,
}

impl StartCmd {
    /// The environment entries this request supplies.
    pub open spec fn spec_envs(&self) -> Seq<String> {
        match self.envs {
            Some(e) => e@,
            None => Seq::empty(),
        }
    }

    /// Assembles the launch plan this request asks for, against the
    /// resolved definition and the freshly mounted rootfs.
    pub fn into_plan(self, vmcfg: &VmConfig, rootfs: &String, style: MountStyle) -> (plan:
        LaunchPlan)
        requires
            vmcfg.cpus <= 255,
        ensures
            plan_matches(*vmcfg, *rootfs, self.command, self.args@, self.spec_envs(), style, plan),
    {
        let envs = match self.envs {
            Some(e) => e,
            None => Vec::new(),
        };
        build_launch_plan(vmcfg, rootfs, self.command, self.args, &envs, style)
    }
}

/// Where the execution lock lives inside a mounted rootfs.
pub fn lock_path(rootfs: &String) -> (p: String)
    ensures
        p@ == rootfs@ + "/.krunvm.lock"@,
{
    let mut p = rootfs.clone();
    p.append("/.krunvm.lock");
    p
}

/// The named configuration step at which a hypervisor hand-off failed.
#[derive(Clone, Copy, Debug, PartialEq, Eq, Structural)]
pub enum ConfigStep {
    CreateContext,
    SetVmConfig,
    SetRoot,
    ApplyVolumes,
    ApplyNetwork,
    SetWorkdir,
    SetEnv,
    SetExec,
    StartEnter,
}

/// What ends a start attempt short of a clean guest exit.
#[derive(Clone, Copy, Debug, PartialEq, Eq, Structural)]
pub enum StartFailure {
    /// The rootfs could not be mounted.
    MountFailed,
    /// The file-descriptor ceiling could not be raised.
    LimitsFailed,
    /// The execution lock is already held: another instance of this VM
    /// is running.  Never retried.
    AlreadyRunning,
    /// The network backend could not be prepared.
    NetworkFailed,
    /// A hypervisor configuration call reported failure at the named
    /// step.  Never retried.
    HypervisorConfig(ConfigStep),
}

/// The phases of one start attempt, in the order they are entered.
#[derive(Clone, Copy, Debug, PartialEq, Eq, Structural)]
pub enum StartPhase {
    /// Clearing a stale mount left by an earlier run; its failure is
    /// tolerated.
    ClearingStale,
    /// Waiting for the fresh mount.
    Mounting,
    /// Raising the process's file-descriptor ceiling.
    RaisingLimits,
    /// Acquiring the execution lock on the mounted path.
    Locking,
    /// Preparing the network backend.
    PreparingNetwork,
    /// Configuration handed to the hypervisor; waiting for the guest to
    /// exit or for a configuration step to fail.
    Configuring,
    /// Final unmount, best effort.
    Unmounting,
    /// The attempt is over.
    Done,
}

/// What the caller reports back to the machine.
#[derive(Clone, Copy, Debug, PartialEq, Eq)]
pub enum StartEvent {
    /// The stale unmount finished; its success does not matter.
    StaleUnmountDone(bool),
    /// The fresh mount finished.
    MountDone(bool),
    /// The file-descriptor ceiling was (not) raised.
    LimitsDone(bool),
    /// The execution lock was (not) acquired.
    LockDone(bool),
    /// The network backend is (not) ready.
    NetworkDone(bool),
    /// The hand-off came back: the guest exited with a status, or a
    /// configuration step failed.
    HandoffDone(Result<i32, ConfigStep>),
    /// The final unmount finished; its success does not matter.
    FinalUnmountDone(bool),
}

/// What the caller must do next.
#[derive(Clone, Copy, Debug, PartialEq, Eq, Structural)]
pub enum StartAction {
    /// Unmount a possible stale mount for this container.
    UnmountStale,
    /// Mount the container's rootfs.
    Mount,
    /// Raise the file-descriptor ceiling to its maximum.
    RaiseLimits,
    /// Acquire the execution lock, non-blocking.
    AcquireLock,
    /// Prepare the network backend.
    PrepareNetwork,
    /// Build the hypervisor context and hand off execution.
    ConfigureAndHandOff,
    /// Unmount the rootfs, best effort.
    UnmountFinal,
    /// Report the recorded outcome and exit.
    Finish,
    /// The event did not belong to the phase; nothing changes.
    Ignore,
}

/// The control state of one start attempt.
#[derive(Clone, Copy, Debug, PartialEq, Eq)]
pub struct StartMachine {
    pub phase: StartPhase,
    /// The rootfs is currently mounted by this attempt.
    pub mounted: bool,
    /// A mount has succeeded at some point of this attempt.
    pub ever_mounted: bool,
    /// The recorded end of the attempt: the guest's exit status or the
    /// failure, fixed before the final unmount and not masked by it.
    pub outcome: Option<Result<i32, StartFailure>>,
}

/// The first state and action of a start attempt: clear any stale mount.
pub open spec fn spec_start_init() -> (StartMachine, StartAction) {
    (
        StartMachine {
            phase: StartPhase::ClearingStale,
            mounted: false,
            ever_mounted: false,
            outcome: None,
        },
        StartAction::UnmountStale,
    )
}

/// One transition of the start flow.  Every failure after a successful
/// mount leads through the final unmount; no failure is retried.
pub open spec fn spec_start_step(m: StartMachine, ev: StartEvent) -> (StartMachine, StartAction) {
    match (m.phase, ev) {
        (StartPhase::ClearingStale, StartEvent::StaleUnmountDone(_)) => (
            StartMachine { phase: StartPhase::Mounting, ..m },
            StartAction::Mount,
        ),
        (StartPhase::Mounting, StartEvent::MountDone(ok)) => if ok {
            (
                StartMachine {
                    phase: StartPhase::RaisingLimits,
                    mounted: true,
                    ever_mounted: true,
                    ..m
                },
                StartAction::RaiseLimits,
            )
        } else {
            (
                StartMachine {
                    phase: StartPhase::Done,
                    outcome: Some(Err(StartFailure::MountFailed)),
                    ..m
                },
                StartAction::Finish,
            )
        },
        (StartPhase::RaisingLimits, StartEvent::LimitsDone(ok)) => if ok {
            (StartMachine { phase: StartPhase::Locking, ..m }, StartAction::AcquireLock)
        } else {
            (
                StartMachine {
                    phase: StartPhase::Unmounting,
                    outcome: Some(Err(StartFailure::LimitsFailed)),
                    ..m
                },
                StartAction::UnmountFinal,
            )
        },
        (StartPhase::Locking, StartEvent::LockDone(ok)) => if ok {
            (
                StartMachine { phase: StartPhase::PreparingNetwork, ..m },
                StartAction::PrepareNetwork,
            )
        } else {
            (
                StartMachine {
                    phase: StartPhase::Unmounting,
                    outcome: Some(Err(StartFailure::AlreadyRunning)),
                    ..m
                },
                StartAction::UnmountFinal,
            )
        },
        (StartPhase::PreparingNetwork, StartEvent::NetworkDone(ok)) => if ok {
            (
                StartMachine { phase: StartPhase::Configuring, ..m },
                StartAction::ConfigureAndHandOff,
            )
        } else {
            (
                StartMachine {
                    phase: StartPhase::Unmounting,
                    outcome: Some(Err(StartFailure::NetworkFailed)),
                    ..m
                },
                StartAction::UnmountFinal,
            )
        },
        (StartPhase::Configuring, StartEvent::HandoffDone(res)) => (
            StartMachine {
                phase: StartPhase::Unmounting,
                outcome: Some(
                    match res {
                        Ok(status) => Ok(status),
                        Err(step) => Err(StartFailure::HypervisorConfig(step)),
                    },
                ),
                ..m
            },
            StartAction::UnmountFinal,
        ),
        (StartPhase::Unmounting, StartEvent::FinalUnmountDone(_)) => (
            StartMachine { phase: StartPhase::Done, mounted: false, ..m },
            StartAction::Finish,
        ),
        _ => (m, StartAction::Ignore),
    }
}

/// Begins a start attempt.
pub fn start_init() -> (r: (StartMachine, StartAction))
    ensures
        r == spec_start_init(),
{
    (
        StartMachine {
            phase: StartPhase::ClearingStale,
            mounted: false,
            ever_mounted: false,
            outcome: None,
        },
        StartAction::UnmountStale,
    )
}

/// Advances a start attempt by one reported event.
pub fn start_step(m: StartMachine, ev: StartEvent) -> (r: (StartMachine, StartAction))
    ensures
        r == spec_start_step(m, ev),
{
    match (m.phase, ev) {
        (StartPhase::ClearingStale, StartEvent::StaleUnmountDone(_)) => (
            StartMachine { phase: StartPhase::Mounting, ..m },
            StartAction::Mount,
        ),
        (StartPhase::Mounting, StartEvent::MountDone(ok)) => if ok {
            (
                StartMachine {
                    phase: StartPhase::RaisingLimits,
                    mounted: true,
                    ever_mounted: true,
                    ..m
                },
                StartAction::RaiseLimits,
            )
        } else {
            (
                StartMachine {
                    phase: StartPhase::Done,
                    outcome: Some(Err(StartFailure::MountFailed)),
                    ..m
                },
                StartAction::Finish,
            )
        },
        (StartPhase::RaisingLimits, StartEvent::LimitsDone(ok)) => if ok {
            (StartMachine { phase: StartPhase::Locking, ..m }, StartAction::AcquireLock)
        } else {
            (
                StartMachine {
                    phase: StartPhase::Unmounting,
                    outcome: Some(Err(StartFailure::LimitsFailed)),
                    ..m
                },
                StartAction::UnmountFinal,
            )
        },
        (StartPhase::Locking, StartEvent::LockDone(ok)) => if ok {
            (
                StartMachine { phase: StartPhase::PreparingNetwork, ..m },
                StartAction::PrepareNetwork,
            )
        } else {
            (
                StartMachine {
                    phase: StartPhase::Unmounting,
                    outcome: Some(Err(StartFailure::AlreadyRunning)),
                    ..m
                },
                StartAction::UnmountFinal,
            )
        },
        (StartPhase::PreparingNetwork, StartEvent::NetworkDone(ok)) => if ok {
            (
                StartMachine { phase: StartPhase::Configuring, ..m },
                StartAction::ConfigureAndHandOff,
            )
        } else {
            (
                StartMachine {
                    phase: StartPhase::Unmounting,
                    outcome: Some(Err(StartFailure::NetworkFailed)),
                    ..m
                },
                StartAction::UnmountFinal,
            )
        },
        (StartPhase::Configuring, StartEvent::HandoffDone(res)) => (
            StartMachine {
                phase: StartPhase::Unmounting,
                outcome: Some(
                    match res {
                        Ok(status) => Ok(status),
                        Err(step) => Err(StartFailure::HypervisorConfig(step)),
                    },
                ),
                ..m
            },
            StartAction::UnmountFinal,
        ),
        (StartPhase::Unmounting, StartEvent::FinalUnmountDone(_)) => (
            StartMachine { phase: StartPhase::Done, mounted: false, ..m },
            StartAction::Finish,
        ),
        _ => (m, StartAction::Ignore),
    }
}

/// The phases during which the rootfs is mounted by this attempt.
pub open spec fn mounted_phase(p: StartPhase) -> bool {
    ||| p == StartPhase::RaisingLimits
    ||| p == StartPhase::Locking
    ||| p == StartPhase::PreparingNetwork
    ||| p == StartPhase::Configuring
    ||| p == StartPhase::Unmounting
}

/// What holds of every reachable control state.
pub open spec fn machine_inv(m: StartMachine) -> bool {
    &&& m.mounted == mounted_phase(m.phase)
    &&& (mounted_phase(m.phase) ==> m.ever_mounted)
    &&& ((m.phase == StartPhase::ClearingStale || m.phase == StartPhase::Mounting)
        ==> !m.ever_mounted)
}

/// The machine run over a sequence of reported events, together with
/// every action it issued, the initial one first.
pub open spec fn spec_start_run(events: Seq<StartEvent>) -> (StartMachine, Seq<StartAction>)
    decreases events.len(),
{
    if events.len() == 0 {
        let (m, a) = spec_start_init();
        (m, seq![a])
    } else {
        let (m, acts) = spec_start_run(events.drop_last());
        let (m2, a) = spec_start_step(m, events.last());
        (m2, acts.push(a))
    }
}

/// What holds of every reachable pair of control state and issued
/// actions: once a mount has succeeded, either it is still held or the
/// final unmount has been issued.
pub open spec fn run_inv(m: StartMachine, acts: Seq<StartAction>) -> bool {
    &&& machine_inv(m)
    &&& (m.phase == StartPhase::Unmounting ==> acts.contains(StartAction::UnmountFinal))
    &&& ((m.ever_mounted && !m.mounted) ==> acts.contains(StartAction::UnmountFinal))
}

proof fn lemma_step_preserves_run_inv(m: StartMachine, acts: Seq<StartAction>, ev: StartEvent)
    requires
        run_inv(m, acts),
    ensures
        run_inv(spec_start_step(m, ev).0, acts.push(spec_start_step(m, ev).1)),
{
    let (m2, a) = spec_start_step(m, ev);
    let acts2 = acts.push(a);
    if acts.contains(StartAction::UnmountFinal) {
        let i = choose|i: int| 0 <= i < acts.len() && acts[i] == StartAction::UnmountFinal;
        assert(acts2[i] == StartAction::UnmountFinal);
        assert(acts2.contains(StartAction::UnmountFinal));
    }
    if a == StartAction::UnmountFinal {
        assert(acts2.last() == StartAction::UnmountFinal);
        assert(acts2.contains(StartAction::UnmountFinal));
    }
}

/// Teardown guarantee: however a start attempt proceeds — in particular
/// when a hypervisor configuration step fails and the hand-off comes
/// back with that failure — once the attempt is done after a successful
/// mount, the final unmount action has been issued and the mount is no
/// longer held.
pub proof fn lemma_teardown_guarantee(events: Seq<StartEvent>)
    ensures
        run_inv(spec_start_run(events).0, spec_start_run(events).1),
        ({
            let (m, acts) = spec_start_run(events);
            m.phase == StartPhase::Done && m.ever_mounted ==> !m.mounted && acts.contains(
                StartAction::UnmountFinal,
            )
        }),
    decreases events.len(),
{
    if events.len() == 0 {
        let (m, a) = spec_start_init();
        assert(spec_start_run(events).1 == seq![a]);
    } else {
        lemma_teardown_guarantee(events.drop_last());
        let (m, acts) = spec_start_run(events.drop_last());
        lemma_step_preserves_run_inv(m, acts, events.last());
    }
}

/// Lock exclusion, as far as it is this library's to give: failing to
/// acquire the execution lock ends the attempt at once with the
/// contention failure — a variant of its own, distinct from every other
/// failure — and leads straight to the final unmount; the lock is never
/// retried.  That exactly one of two concurrent invocations acquires
/// the lock itself is the exclusive file lock's guarantee, taken at the
/// process boundary.
pub proof fn lemma_lock_exclusion(m: StartMachine)
    requires
        m.phase == StartPhase::Locking,
    ensures
        spec_start_step(m, StartEvent::LockDone(false)).0.outcome == Some(
            Err::<i32, StartFailure>(StartFailure::AlreadyRunning),
        ),
        spec_start_step(m, StartEvent::LockDone(false)).0.phase == StartPhase::Unmounting,
        spec_start_step(m, StartEvent::LockDone(false)).1 == StartAction::UnmountFinal,
        spec_start_step(m, StartEvent::LockDone(true)).1 == StartAction::PrepareNetwork,
        forall|f: StartFailure|
            f != StartFailure::AlreadyRunning ==> Some(Err::<i32, StartFailure>(f))
                != spec_start_step(m, StartEvent::LockDone(false)).0.outcome,
{
}

/// Past the hand-off the attempt only winds down: from the unmounting
/// and done phases no event mounts, locks or configures again, and the
/// recorded outcome is never masked — the best-effort final unmount
/// reports the guest's own end either way.
pub proof fn lemma_winddown_preserves_outcome(m: StartMachine, ev: StartEvent)
    requires
        m.phase == StartPhase::Unmounting || m.phase == StartPhase::Done,
    ensures
        ({
            let (m2, a) = spec_start_step(m, ev);
            &&& m2.phase == StartPhase::Unmounting || m2.phase == StartPhase::Done
            &&& m2.outcome == m.outcome
            &&& a != StartAction::Mount
            &&& a != StartAction::AcquireLock
            &&& a != StartAction::ConfigureAndHandOff
        }),
{
}

/// The body of the helper script that mounts the shared filesystems
/// inside the guest before handing over to the requested command: one
/// mount line per entry.
pub open spec fn mount_line(e: SharedFsEntry) -> Seq<char> {
    "mount -t virtiofs "@ + e.tag@ + " "@ + e.guest@ + "\n"@
}

/// The mount lines for all entries, in order.
pub open spec fn mount_lines(ms: Seq<SharedFsEntry>) -> Seq<char>
    decreases ms.len(),
{
    if ms.len() == 0 {
        Seq::empty()
    } else {
        mount_lines(ms.drop_last()) + mount_line(ms.last())
    }
}

/// Writes the helper script that mounts the shared filesystems inside
/// the guest and then hands over to its arguments.
pub fn mount_script_contents(mounts: &Vec<SharedFsEntry>) -> (s: String)
    ensures
        s@ == "#!/bin/sh\nset -e\n"@ + mount_lines(mounts@) + "exec \"$@\"\n"@,
{
    let mut s = "#!/bin/sh\nset -e\n".to_owned();
    let mut i: usize = 0;
    while i < mounts.len()
        invariant
            i <= mounts@.len(),
            s@ == "#!/bin/sh\nset -e\n"@ + mount_lines(mounts@.subrange(0, i as int)),
        decreases mounts@.len() - i,
    {
        s.append("mount -t virtiofs ");
        s.append(mounts[i].tag.as_str());
        s.append(" ");
        s.append(mounts[i].guest.as_str());
        s.append("\n");
        proof {
            let pre = mounts@.subrange(0, i as int);
            let post = mounts@.subrange(0, i + 1);
            assert(post.drop_last() =~= pre);
            assert(post.last() == mounts@[i as int]);
            assert(s@ =~= "#!/bin/sh\nset -e\n"@ + mount_lines(post));
        }
        i += 1;
    }
    proof {
        assert(mounts@.subrange(0, mounts@.len() as int) =~= mounts@);
    }
    s.append("exec \"$@\"\n");
    s
}

/// Where the helper script is written inside the mounted rootfs.
pub fn mount_script_host_path(rootfs: &String) -> (p: String)
    ensures
        p@ == rootfs@ + "/.krunvm-mount.sh"@,
{
    let mut p = rootfs.clone();
    p.append("/.krunvm-mount.sh");
    p
}

/// Wraps the guest entry point in the helper script when shared
/// filesystems must be mounted first: the guest runs the script, which
/// receives the requested command — or the stock shell when none was
/// given — and its arguments.
pub fn build_mount_wrapper(
    command: &Option<String>,
    args: &Vec<String>,
    mounts: &Vec<SharedFsEntry>,
) -> (r: Option<(String, Vec<String>)>)
    ensures
        match r {
            None => mounts@.len() == 0,
            Some((path, exec_args)) => {
                &&& mounts@.len() > 0
                &&& path@ == "/.krunvm-mount.sh"@
                &&& exec_args@.len() == 1 + args@.len()
                &&& exec_args@[0]@ == (match command {
                    Some(c) => c@,
                    None => "/bin/sh"@,
                })
                &&& forall|i: int|
                    0 <= i < args@.len() ==> exec_args@[1 + i] == #[trigger] args@[i]
            },
        },
{
    if mounts.len() == 0 {
        return None;
    }
    let mut exec_args: Vec<String> = Vec::new();
    match command {
        Some(c) => exec_args.push(c.clone()),
        None => exec_args.push("/bin/sh".to_owned()),
    }
    let mut i: usize = 0;
    while i < args.len()
        invariant
            i <= args@.len(),
            exec_args@.len() == 1 + i,
            exec_args@[0]@ == (match command {
                Some(c) => c@,
                None => "/bin/sh"@,
            }),
            forall|k: int| 0 <= k < i ==> exec_args@[1 + k] == #[trigger] args@[k],
        decreases args@.len() - i,
    {
        exec_args.push(args[i].clone());
        i += 1;
    }
    Some(("/.krunvm-mount.sh".to_owned(), exec_args))
}

} // verus!
