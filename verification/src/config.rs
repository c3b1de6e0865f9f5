use crate::language::argv_view;
use crate::limits::ResourceLimits;
use vstd::prelude::*;

verus! {

/// What the daemon does when the sandbox's process ends.
#[derive(Clone, Copy, Debug, PartialEq, Eq, Structural)]
pub enum RestartPolicy {
    No,
    Always,
    UnlessStopped,
    OnFailure,
}

/// An in-memory filesystem mounted into the sandbox.
#[derive(Debug, PartialEq, Eq)]
pub struct TmpfsMount {
    pub target: String,
    pub options: String,
}

/// The constraints under which a sandbox runs.
#[derive(Debug, PartialEq, Eq)]
pub struct IsolationConfig {
    pub memory_bytes: u64,
    pub nano_cpus: i64,
    pub network_mode: String,
    pub read_only_root_fs: bool,
    pub tmpfs: Vec<TmpfsMount>,
    pub cap_drop: Vec<String>,
    pub restart_policy: RestartPolicy,
}

/// Everything the daemon is told when a sandbox is created.
#[derive(Debug, PartialEq, Eq)]
pub struct SandboxConfig {
    pub image: String,
    pub command: Vec<String>,
    pub working_dir: String,
    pub user: String,
    pub attach_stdout: bool,
    pub attach_stderr: bool,
    pub tty: bool,
    pub isolation: IsolationConfig,
}

/// Mathematical model of a [`TmpfsMount`].
pub ghost struct TmpfsMountView {
    pub target: Seq<char>,
    pub options: Seq<char>,
}

/// Mathematical model of an [`IsolationConfig`].
pub ghost struct IsolationConfigView {
    pub memory_bytes: u64,
    pub nano_cpus: i64,
    pub network_mode: Seq<char>,
    pub read_only_root_fs: bool,
    pub tmpfs: Seq<TmpfsMountView>,
    pub cap_drop: Seq<Seq<char>>,
    pub restart_policy: RestartPolicy,
}

/// Mathematical model of a [`SandboxConfig`].
pub ghost struct SandboxConfigView {
    pub image: Seq<char>,
    pub command: Seq<Seq<char>>,
    pub working_dir: Seq<char>,
    pub user: Seq<char>,
    pub attach_stdout: bool,
    pub attach_stderr: bool,
    pub tty: bool,
    pub isolation: IsolationConfigView,
}

impl View for TmpfsMount {
    type V = TmpfsMountView;

    open spec fn view(&self) -> TmpfsMountView {
        TmpfsMountView { target: self.target@, options: self.options@ }
    }
}

impl View for IsolationConfig {
    type V = IsolationConfigView;

    open spec fn view(&self) -> IsolationConfigView {
        IsolationConfigView {
            memory_bytes: self.memory_bytes,
            nano_cpus: self.nano_cpus,
            network_mode: self.network_mode@,
            read_only_root_fs: self.read_only_root_fs,
            tmpfs: Seq::new(self.tmpfs@.len(), |i: int| self.tmpfs@[i]@),
            cap_drop: argv_view(self.cap_drop@),
            restart_policy: self.restart_policy,
        }
    }
}

impl View for SandboxConfig {
    type V = SandboxConfigView;

    open spec fn view(&self) -> SandboxConfigView {
        SandboxConfigView {
            image: self.image@,
            command: argv_view(self.command@),
            working_dir: self.working_dir@,
            user: self.user@,
            attach_stdout: self.attach_stdout,
            attach_stderr: self.attach_stderr,
            tty: self.tty,
            isolation: self.isolation@,
        }
    }
}

/// The scratch filesystem of every sandbox: `/tmp`, capped at 100 MiB.
pub open spec fn scratch_mount() -> TmpfsMountView {
    TmpfsMountView { target: "/tmp"@, options: "size=100m"@ }
}

/// The isolation settings that follow from a limit tuple. Only the two
/// ceilings vary; everything else is fixed.
pub open spec fn isolation_of(limits: ResourceLimits) -> IsolationConfigView {
    IsolationConfigView {
        memory_bytes: limits.memory_bytes,
        nano_cpus: limits.cpu_quota_nanos,
        network_mode: "none"@,
        read_only_root_fs: true,
        tmpfs: seq![scratch_mount()],
        cap_drop: seq!["ALL"@],
        restart_policy: RestartPolicy::No,
    }
}

/// The configuration of a sandbox that runs `command` on `image` under
/// `limits`.
pub open spec fn config_of(
    image: Seq<char>,
    command: Seq<Seq<char>>,
    limits: ResourceLimits,
) -> SandboxConfigView {
    SandboxConfigView {
        image,
        command,
        working_dir: "/workspace"@,
        user: "1000:1000"@,
        attach_stdout: true,
        attach_stderr: true,
        tty: false,
        isolation: isolation_of(limits),
    }
}

impl IsolationConfig {
    /// Derives the isolation settings from the limits of a request.
    pub fn from_limits(limits: &ResourceLimits) -> (isolation: IsolationConfig)
        ensures
            isolation@ == isolation_of(*limits),
    {
        let mut tmpfs: Vec<TmpfsMount> = Vec::new();
        tmpfs.push(TmpfsMount { target: "/tmp".to_owned(), options: "size=100m".to_owned() });
        let mut cap_drop: Vec<String> = Vec::new();
        cap_drop.push("ALL".to_owned());
        let isolation = IsolationConfig {
            memory_bytes: limits.memory_bytes,
            nano_cpus: limits.cpu_quota_nanos,
            network_mode: "none".to_owned(),
            read_only_root_fs: true,
            tmpfs,
            cap_drop,
            restart_policy: RestartPolicy::No,
        };
        assert(isolation@.tmpfs =~= seq![scratch_mount()]);
        assert(isolation@.cap_drop =~= seq!["ALL"@]);
        isolation
    }
}

impl SandboxConfig {
    /// Assembles the configuration sent with the create request.
    pub fn build(image: String, command: Vec<String>, limits: &ResourceLimits) -> (config:
        SandboxConfig)
        ensures
            config@ == config_of(image@, argv_view(command@), *limits),
    {
        SandboxConfig {
            image,
            command,
            working_dir: "/workspace".to_owned(),
            user: "1000:1000".to_owned(),
            attach_stdout: true,
            attach_stderr: true,
            tty: false,
            isolation: IsolationConfig::from_limits(limits),
        }
    }
}

/// Whatever the limits, the sandbox has no network, a read-only root
/// filesystem, one scratch mount, no capability left, no automatic restart,
/// and exactly the two ceilings of the limits.
pub proof fn lemma_isolation_is_fixed(limits: ResourceLimits)
    ensures
        isolation_of(limits).memory_bytes == limits.memory_bytes,
        isolation_of(limits).nano_cpus == limits.cpu_quota_nanos,
        isolation_of(limits).network_mode == "none"@,
        isolation_of(limits).read_only_root_fs,
        isolation_of(limits).tmpfs.len() == 1,
        isolation_of(limits).tmpfs[0] == scratch_mount(),
        isolation_of(limits).cap_drop.len() == 1,
        isolation_of(limits).cap_drop[0] == "ALL"@,
        isolation_of(limits).restart_policy == RestartPolicy::No,
{
}

/// Two limit tuples give isolation settings that differ in the two
/// ceilings at most.
pub proof fn lemma_isolation_varies_in_ceilings_only(a: ResourceLimits, b: ResourceLimits)
    ensures
        isolation_of(a) == (IsolationConfigView {
            memory_bytes: a.memory_bytes,
            nano_cpus: a.cpu_quota_nanos,
            ..isolation_of(b)
        }),
{
}

} // verus!
