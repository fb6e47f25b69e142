//! The zygote protocol: what `igloo` asks of the in-container zygote, and
//! how the zygote turns a request into the setup of a judged process.

use vstd::prelude::*;
use crate::text::{push_char, str_has_char};

verus! {

/// User id that judged processes run as.
pub const UID: u32 = 65534;
/// Group id that judged processes run as.
pub const GID: u32 = 65534;

/// Signal number delivered to the parent when a cloned child exits.
pub const SIGCHLD: u64 = 17;

pub const VM: u64 = 256;
pub const FS: u64 = 512;
pub const FILES: u64 = 1024;
pub const SIGHAND: u64 = 2048;
pub const PIDFD: u64 = 4096;
pub const PTRACE: u64 = 8192;
pub const VFORK: u64 = 16384;
pub const PARENT: u64 = 32768;
pub const THREAD: u64 = 65536;
pub const NEWNS: u64 = 131072;
pub const SYSVSEM: u64 = 262144;
pub const SETTLS: u64 = 524288;
pub const PARENT_SETTID: u64 = 1048576;
pub const CHILD_CLEARTID: u64 = 2097152;
pub const DETACHED: u64 = 4194304;
pub const UNTRACED: u64 = 8388608;
pub const CHILD_SETTID: u64 = 16777216;
pub const NEWCGROUP: u64 = 33554432;
pub const NEWUTS: u64 = 67108864;
pub const NEWIPC: u64 = 134217728;
pub const NEWUSER: u64 = 268435456;
pub const NEWPID: u64 = 536870912;
pub const NEWNET: u64 = 1073741824;
pub const IO_FLAG: u64 = 2147483648;
pub const CLEAR_SIGHAND: u64 = 4294967296;
pub const INTO_CGROUP: u64 = 8589934592;
pub const NEWTIME: u64 = 128;

/// Outcome of a judged run.
#[derive(Debug, Clone, Copy, PartialEq, Eq, Structural)]
pub enum Verdict {
    MLE,
    TLE,
    OLE,
    RTE,
}

/// A time limit, split into whole seconds and the nanoseconds beyond them.
#[derive(Debug, Clone, Copy, PartialEq, Eq, Structural)]
pub struct TimeLimit {
    pub secs: u64,
    pub nanos: u32,
}

/// Resource limits of one judged process.
#[derive(Debug, Clone, Copy, PartialEq, Eq, Structural)]
pub struct RLimit {
    pub time: TimeLimit,
    pub mem: u32,
    pub output: u32,
}

/// Where a judged program reads and writes: a named file inside the
/// working directory, or (when `None`) its standard stream.
#[derive(Debug)]
pub struct IO {
    pub f_inp: Option<String>,
    pub f_out: Option<String>,
}

/// A request from `igloo` to the zygote.
///
/// `Compile`: descriptor 0 is the cgroup, 1 the source file, 2 the
/// compiler output. `Exec`: descriptor 0 is the cgroup, 1 the input,
/// 2 the output.
#[derive(Debug)]
pub enum Req {
    Compile(RLimit, Vec<String>),
    Exec(RLimit, IO, Vec<String>),
}

/// The argument block of the `clone3` system call.
#[derive(Debug, Clone, Copy, PartialEq, Eq, Structural)]
pub struct RawCloneArgs {
    pub flags: u64,
    pub pidfd: u64,
    pub child_tid: u64,
    pub parent_tid: u64,
    pub exit_signal: u64,
    pub stack: u64,
    pub stack_size: u64,
    pub tls: u64,
    pub set_tid: u64,
    pub set_tid_size: u64,
    pub cgroup: u64,
}

/// The all-zero argument block.
pub open spec fn zero_clone_args() -> RawCloneArgs {
    RawCloneArgs {
        flags: 0,
        pidfd: 0,
        child_tid: 0,
        parent_tid: 0,
        exit_signal: 0,
        stack: 0,
        stack_size: 0,
        tls: 0,
        set_tid: 0,
        set_tid_size: 0,
        cgroup: 0,
    }
}

impl Default for RawCloneArgs {
    fn default() -> (r: Self)
        ensures
            r == zero_clone_args(),
    {
        RawCloneArgs {
            flags: 0,
            pidfd: 0,
            child_tid: 0,
            parent_tid: 0,
            exit_signal: 0,
            stack: 0,
            stack_size: 0,
            tls: 0,
            set_tid: 0,
            set_tid_size: 0,
            cgroup: 0,
        }
    }
}

/// Which side of a `clone3` the caller is on.
#[derive(Debug, Clone, Copy, PartialEq, Eq, Structural)]
pub enum Fork {
    Child,
    Parent(u32),
}

/// How the return value of `clone3` is read: zero in the child, the pid in
/// the parent, and a negated error number on failure.
pub open spec fn spec_fork_outcome(ret: i64) -> Result<Fork, i32> {
    if ret == 0 {
        Ok(Fork::Child)
    } else if ret > 0 {
        Ok(Fork::Parent(ret as u32))
    } else {
        Err((-ret) as i32)
    }
}

/// Reads the return value of `clone3`; the error is the raw OS error number.
pub fn fork_outcome(ret: i64) -> (r: Result<Fork, i32>)
    requires
        ret != i64::MIN,
    ensures
        r == spec_fork_outcome(ret),
        ret == 0 <==> r == Ok::<Fork, i32>(Fork::Child),
        ret > 0 ==> r matches Ok(Fork::Parent(_)),
        0 < ret <= u32::MAX ==> r == Ok::<Fork, i32>(Fork::Parent(ret as u32)),
        ret < 0 ==> r is Err,
        -(i32::MAX as int) <= ret < 0 ==> r == Err::<Fork, i32>((-ret) as i32),
{
    if ret == 0 {
        Ok(Fork::Child)
    } else if ret > 0 {
        Ok(Fork::Parent(ret as u32))
    } else {
        Err((-ret) as i32)
    }
}

/// The `clone3` arguments for a judged process: placed straight into the
/// cgroup open at `cgroup_fd`, reporting its exit with SIGCHLD.
pub fn spawn_clone_args(cgroup_fd: i32) -> (r: RawCloneArgs)
    requires
        cgroup_fd >= 0,
    ensures
        r == (RawCloneArgs {
            flags: INTO_CGROUP,
            cgroup: cgroup_fd as u64,
            exit_signal: SIGCHLD,
            ..zero_clone_args()
        }),
{
    RawCloneArgs {
        flags: INTO_CGROUP,
        cgroup: cgroup_fd as u64,
        exit_signal: SIGCHLD,
        ..RawCloneArgs::default()
    }
}

/// A process resource whose limit the zygote sets.
#[derive(Debug, Clone, Copy, PartialEq, Eq, Structural)]
pub enum Resource {
    Cpu,
    Nproc,
    Core,
    Fsize,
    As,
}

/// One soft/hard limit pair.
#[derive(Debug, Clone, Copy, PartialEq, Eq, Structural)]
pub struct RlimitSetting {
    pub resource: Resource,
    pub soft: u64,
    pub hard: u64,
}

/// CPU seconds allowed: the time limit rounded down (soft) and up (hard).
pub open spec fn cpu_limits(t: TimeLimit) -> (u64, u64) {
    let hard = if t.nanos > 0 && t.secs < u64::MAX { (t.secs + 1) as u64 } else { t.secs };
    (t.secs, hard)
}

/// The limits set on a judged process, in the order they are applied.
pub open spec fn spec_rlimits(rlm: RLimit) -> Seq<RlimitSetting> {
    seq![
        RlimitSetting { resource: Resource::Cpu, soft: cpu_limits(rlm.time).0, hard: cpu_limits(rlm.time).1 },
        RlimitSetting { resource: Resource::Nproc, soft: 1, hard: 1 },
        RlimitSetting { resource: Resource::Core, soft: 0, hard: 0 },
        RlimitSetting { resource: Resource::Fsize, soft: rlm.output as u64, hard: rlm.output as u64 },
        RlimitSetting { resource: Resource::As, soft: rlm.mem as u64, hard: rlm.mem as u64 },
    ]
}

/// Whether `s` is the setting of resource `res` with both limits `v`.
pub open spec fn sets_both(s: RlimitSetting, res: Resource, v: u64) -> bool {
    s.resource == res && s.soft == v && s.hard == v
}

/// What the limits of a judged process are, in terms of the request: one
/// setting per resource, CPU first; the CPU soft limit is the time limit's
/// whole seconds and the hard limit those seconds rounded up to cover the
/// rest (saturating at the largest value); one process; no core dump;
/// files no larger than the output limit; an address space no larger than
/// the memory limit.
pub open spec fn limits_follow_request(r: Seq<RlimitSetting>, rlm: RLimit) -> bool {
    &&& r.len() == 5
    &&& r[0].resource == Resource::Cpu
    &&& r[0].soft == rlm.time.secs
    &&& r[0].hard as int == if rlm.time.nanos == 0 || rlm.time.secs == u64::MAX {
            rlm.time.secs as int
        } else {
            rlm.time.secs + 1
        }
    &&& sets_both(r[1], Resource::Nproc, 1)
    &&& sets_both(r[2], Resource::Core, 0)
    &&& sets_both(r[3], Resource::Fsize, rlm.output as u64)
    &&& sets_both(r[4], Resource::As, rlm.mem as u64)
}

/// The limits follow the request: each resource is limited by the part of
/// the request it stands for, and the CPU limits bracket the time limit:
/// soft seconds at most the time limit, hard seconds at least it, and
/// never more than one apart.
pub proof fn rlimits_follow_request(rlm: RLimit)
    requires
        rlm.time.nanos < 1_000_000_000,
    ensures
        limits_follow_request(spec_rlimits(rlm), rlm),
        ({
            let cpu = spec_rlimits(rlm)[0];
            let total = rlm.time.secs * 1_000_000_000 + rlm.time.nanos;
            &&& cpu.soft * 1_000_000_000 <= total
            &&& total < (cpu.soft + 1) * 1_000_000_000
            &&& (rlm.time.secs < u64::MAX ==> total <= cpu.hard * 1_000_000_000)
            &&& cpu.hard - cpu.soft <= 1
        }),
{
}

/// The resource limits that a judged process runs under.
pub fn rlimit_settings(rlm: &RLimit) -> (r: Vec<RlimitSetting>)
    ensures
        r@ == spec_rlimits(*rlm),
        limits_follow_request(r@, *rlm),
{
    let secs = rlm.time.secs;
    let hard = if rlm.time.nanos > 0 && secs < u64::MAX { secs + 1 } else { secs };
    let mut r: Vec<RlimitSetting> = Vec::new();
    r.push(RlimitSetting { resource: Resource::Cpu, soft: secs, hard });
    r.push(RlimitSetting { resource: Resource::Nproc, soft: 1, hard: 1 });
    r.push(RlimitSetting { resource: Resource::Core, soft: 0, hard: 0 });
    r.push(RlimitSetting { resource: Resource::Fsize, soft: rlm.output as u64, hard: rlm.output as u64 });
    r.push(RlimitSetting { resource: Resource::As, soft: rlm.mem as u64, hard: rlm.mem as u64 });
    assert(r@ =~= spec_rlimits(*rlm));
    r
}

/// Why the argument vector of a judged process cannot be executed.
#[derive(Debug, Clone, Copy, PartialEq, Eq, Structural)]
pub enum ArgvError {
    /// An argument holds a NUL character, so it has no C string form.
    InteriorNul,
    /// There is no program to execute.
    Empty,
}

/// Whether some argument holds a NUL character.
pub open spec fn argv_has_nul(args: Seq<String>) -> bool {
    exists|i: int| 0 <= i < args.len() && #[trigger] args[i]@.contains('\0')
}

/// The check made in the child before `execve`: every argument must have a
/// C string form, and there must be a program to run.
pub open spec fn spec_argv_check(args: Seq<String>) -> Result<(), ArgvError> {
    if argv_has_nul(args) {
        Err(ArgvError::InteriorNul)
    } else if args.len() == 0 {
        Err(ArgvError::Empty)
    } else {
        Ok(())
    }
}

/// Checks an argument vector as the child does before `execve`.
pub fn check_argv(args: &Vec<String>) -> (r: Result<(), ArgvError>)
    ensures
        r == spec_argv_check(args@),
        r is Ok <==> (args@.len() > 0 && forall|i: int| 0 <= i < args@.len() ==> !(#[trigger] args@[i]@).contains('\0')),
        r == Err::<(), ArgvError>(ArgvError::InteriorNul) <==> exists|i: int| 0 <= i < args@.len() && (#[trigger] args@[i]@).contains('\0'),
{
    let mut i: usize = 0;
    while i < args.len()
        invariant
            i <= args.len(),
            forall|j: int| 0 <= j < i ==> !(#[trigger] args@[j]@.contains('\0')),
        decreases args.len() - i,
    {
        if str_has_char(args[i].as_str(), '\0') {
            assert(args@[i as int]@.contains('\0'));
            return Err(ArgvError::InteriorNul);
        }
        i += 1;
    }
    if args.len() == 0 {
        Err(ArgvError::Empty)
    } else {
        Ok(())
    }
}

/// Mount flags, with the bit values of the Linux `MS_*` constants.
pub const MS_RDONLY: u64 = 1;
pub const MS_NOEXEC: u64 = 8;

/// File permission bits: read, and write, for the owner.
pub const MODE_RUSR: u32 = 256;
pub const MODE_WUSR: u32 = 128;

/// A step of the child's setup before it executes the judged program.
/// Descriptor indices refer to the descriptors sent with the request.
#[derive(Debug)]
pub enum ChildStep {
    /// Make descriptor `fd` the standard input.
    DupStdin(usize),
    /// Make descriptor `fd` the standard output.
    DupStdout(usize),
    /// Make descriptor `fd` the standard error.
    DupStderr(usize),
    /// Create an empty file at `target`, bind-mount descriptor `fd` over it,
    /// remount it with `flags` and set its permission bits to `mode`.
    BindFd { fd: usize, target: String, flags: u64, mode: u32 },
}

/// What the zygote does once the child is running.
#[derive(Debug, Clone, Copy, PartialEq, Eq, Structural)]
pub enum ParentStep {
    /// Wait for the child and send its exit status back.
    ReportExitStatus,
    /// Go back to serving requests at once.
    Detach,
}

/// Everything the zygote needs to run one request.
#[derive(Debug)]
pub struct SpawnPlan {
    /// Index of the descriptor of the cgroup the child is placed in.
    pub cgroup_fd: usize,
    pub limits: Vec<RlimitSetting>,
    pub argv: Vec<String>,
    pub argv_check: Result<(), ArgvError>,
    pub steps: Vec<ChildStep>,
    pub parent: ParentStep,
}

/// The step that wires the judged program's input.
pub open spec fn input_step_ok(step: ChildStep, f_inp: Option<String>, wd: Seq<char>) -> bool {
    match f_inp {
        Some(name) => step matches ChildStep::BindFd { fd, target, flags, mode }
            && fd == 1 && target@ == wd + seq!['/'] + name@
            && flags == (MS_NOEXEC | MS_RDONLY) && mode == MODE_RUSR,
        None => step == ChildStep::DupStdin(1),
    }
}

/// The step that wires the judged program's output.
pub open spec fn output_step_ok(step: ChildStep, f_out: Option<String>, wd: Seq<char>) -> bool {
    match f_out {
        Some(name) => step matches ChildStep::BindFd { fd, target, flags, mode }
            && fd == 2 && target@ == wd + seq!['/'] + name@
            && flags == MS_NOEXEC && mode == MODE_WUSR,
        None => step == ChildStep::DupStdout(2),
    }
}

/// The child setup and parent behaviour that a request calls for.
pub open spec fn plan_ok(plan: SpawnPlan, req: Req, wd: Seq<char>) -> bool {
    &&& plan.cgroup_fd == 0
    &&& match req {
        Req::Compile(rlm, args) => {
            &&& plan.limits@ == spec_rlimits(rlm)
            &&& plan.argv@ == args@
            &&& plan.argv_check == spec_argv_check(args@)
            &&& plan.steps@.len() == 2
            &&& plan.steps@[0] == ChildStep::DupStdout(2)
            &&& plan.steps@[1] == ChildStep::DupStderr(2)
            &&& plan.parent == ParentStep::ReportExitStatus
        },
        Req::Exec(rlm, io, args) => {
            &&& plan.limits@ == spec_rlimits(rlm)
            &&& plan.argv@ == args@
            &&& plan.argv_check == spec_argv_check(args@)
            &&& plan.steps@.len() == 2
            &&& input_step_ok(plan.steps@[0], io.f_inp, wd)
            &&& output_step_ok(plan.steps@[1], io.f_out, wd)
            &&& plan.parent == ParentStep::Detach
        },
    }
}

fn bind_target(wd: &str, name: &String) -> (r: String)
    ensures
        r@ == wd@ + seq!['/'] + name@,
{
    let mut r = wd.to_owned();
    push_char(&mut r, '/');
    r.append(name.as_str());
    r
}

fn clone_args_vec(args: &Vec<String>) -> (r: Vec<String>)
    ensures
        r@ == args@,
{
    let mut r: Vec<String> = Vec::new();
    let mut i: usize = 0;
    while i < args.len()
        invariant
            i <= args.len(),
            r@ == args@.take(i as int),
        decreases args.len() - i,
    {
        let s = args[i].clone();
        r.push(s);
        assert(r@ =~= args@.take(i + 1));
        i += 1;
    }
    assert(args@.take(args.len() as int) =~= args@);
    r
}

/// Whether `step` binds descriptor `fd` over the file `name` in `wd`,
/// never executable, read-only exactly when `read_only`, with the
/// permission bits `mode`.
pub open spec fn binds_file(step: ChildStep, fd: usize, wd: Seq<char>, name: Seq<char>, read_only: bool, mode: u32) -> bool {
    step matches ChildStep::BindFd { fd: f, target, flags, mode: m } && {
        &&& f == fd
        &&& target@ == wd + seq!['/'] + name
        &&& flags & 8 == 8
        &&& (flags & 1 == 1) == read_only
        &&& m == mode
    }
}

/// What a plan does with the judged program's files: the child always
/// goes into the cgroup of descriptor 0 under the limits the request
/// asks for and runs the request's arguments. A compiler writes both its
/// output and its errors to descriptor 2 and the zygote reports its exit
/// status. A program's named input is bound from descriptor 1 read-only
/// and not executable, readable by its owner only; its named output from
/// descriptor 2 writable and not executable, writable by its owner only;
/// an unnamed one is its standard stream; the zygote does not wait for it.
pub proof fn plan_protects_files(plan: SpawnPlan, req: Req, wd: Seq<char>)
    requires
        plan_ok(plan, req, wd),
    ensures
        plan.cgroup_fd == 0,
        match req {
            Req::Compile(rlm, args) => {
                &&& limits_follow_request(plan.limits@, rlm)
                &&& plan.argv@ == args@
                &&& plan.steps@ == seq![ChildStep::DupStdout(2), ChildStep::DupStderr(2)]
                &&& plan.parent == ParentStep::ReportExitStatus
            },
            Req::Exec(rlm, io, args) => {
                &&& limits_follow_request(plan.limits@, rlm)
                &&& plan.argv@ == args@
                &&& plan.steps@.len() == 2
                &&& match io.f_inp {
                    Some(n) => binds_file(plan.steps@[0], 1, wd, n@, true, 0o400),
                    None => plan.steps@[0] == ChildStep::DupStdin(1),
                }
                &&& match io.f_out {
                    Some(n) => binds_file(plan.steps@[1], 2, wd, n@, false, 0o200),
                    None => plan.steps@[1] == ChildStep::DupStdout(2),
                }
                &&& plan.parent == ParentStep::Detach
            },
        },
{
    assert((8u64 | 1u64) & 8u64 == 8u64 && (8u64 | 1u64) & 1u64 == 1u64) by (bit_vector);
    assert(8u64 & 8u64 == 8u64 && 8u64 & 1u64 == 0u64) by (bit_vector);
    match req {
        Req::Compile(rlm, args) => {
            assert(plan.steps@ =~= seq![ChildStep::DupStdout(2), ChildStep::DupStderr(2)]);
        },
        Req::Exec(rlm, io, args) => {},
    }
}

/// Turns a request into the setup of the judged process. `wd` is the
/// zygote's working directory, where named input and output files live.
pub fn request_plan(req: &Req, wd: &str) -> (plan: SpawnPlan)
    ensures
        plan_ok(plan, *req, wd@),
{
    match req {
        Req::Compile(rlm, args) => {
            let mut steps: Vec<ChildStep> = Vec::new();
            steps.push(ChildStep::DupStdout(2));
            steps.push(ChildStep::DupStderr(2));
            SpawnPlan {
                cgroup_fd: 0,
                limits: rlimit_settings(rlm),
                argv: clone_args_vec(args),
                argv_check: check_argv(args),
                steps,
                parent: ParentStep::ReportExitStatus,
            }
        },
        Req::Exec(rlm, io, args) => {
            let mut steps: Vec<ChildStep> = Vec::new();
            match &io.f_inp {
                Some(name) => steps.push(ChildStep::BindFd {
                    fd: 1,
                    target: bind_target(wd, name),
                    flags: MS_NOEXEC | MS_RDONLY,
                    mode: MODE_RUSR,
                }),
                None => steps.push(ChildStep::DupStdin(1)),
            }
            match &io.f_out {
                Some(name) => steps.push(ChildStep::BindFd {
                    fd: 2,
                    target: bind_target(wd, name),
                    flags: MS_NOEXEC,
                    mode: MODE_WUSR,
                }),
                None => steps.push(ChildStep::DupStdout(2)),
            }
            SpawnPlan {
                cgroup_fd: 0,
                limits: rlimit_settings(rlm),
                argv: clone_args_vec(args),
                argv_check: check_argv(args),
                steps,
                parent: ParentStep::Detach,
            }
        },
    }
}

/// Where the zygote stands in its conversation with `igloo`.
#[derive(Debug, Clone, Copy, PartialEq, Eq, Structural)]
pub enum ZygoteState {
    /// Not yet announced to `igloo`.
    Starting,
    /// Announced, and waiting for requests.
    Serving,
    /// The connection is closed; nothing more is done.
    Finished,
}

/// What the zygote learned from the outside.
#[derive(Debug)]
pub enum ZygoteEvent {
    /// The zygote process has started on its socket.
    Started,
    /// The next message on the socket is this many bytes long.
    Pending(usize),
    /// A request was received and decoded.
    Received(Req),
}

/// What the zygote does next.
#[derive(Debug)]
pub enum ZygoteAction {
    /// Send the one-byte ready packet.
    SendReady,
    /// Receive a message of this many bytes, with its descriptors.
    Receive(usize),
    /// Run a judged process.
    Spawn(SpawnPlan),
    /// Leave the serving loop.
    Stop,
}

/// The transition of the zygote's serving loop.
pub open spec fn zygote_step_ok(state: ZygoteState, ev: ZygoteEvent, wd: Seq<char>, next: ZygoteState, act: ZygoteAction) -> bool {
    match (state, ev) {
        (ZygoteState::Starting, ZygoteEvent::Started) => next == ZygoteState::Serving && act is SendReady,
        (ZygoteState::Serving, ZygoteEvent::Pending(n)) =>
            if n == 0 {
                next == ZygoteState::Finished && act is Stop
            } else {
                next == ZygoteState::Serving && act == ZygoteAction::Receive(n)
            },
        (ZygoteState::Serving, ZygoteEvent::Received(req)) =>
            next == ZygoteState::Serving && (act matches ZygoteAction::Spawn(plan) && plan_ok(plan, req, wd)),
        _ => next == ZygoteState::Finished && act is Stop,
    }
}

/// One step of the zygote: announce readiness once, then for each message
/// receive it and run the request in it, until an empty message closes the
/// conversation. Out-of-order events end it as well.
pub fn zygote_step(state: ZygoteState, ev: ZygoteEvent, wd: &str) -> (r: (ZygoteState, ZygoteAction))
    ensures
        zygote_step_ok(state, ev, wd@, r.0, r.1),
        state == ZygoteState::Finished ==> r.0 == ZygoteState::Finished && r.1 is Stop,
{
    match (state, ev) {
        (ZygoteState::Starting, ZygoteEvent::Started) => (ZygoteState::Serving, ZygoteAction::SendReady),
        (ZygoteState::Serving, ZygoteEvent::Pending(n)) => {
            if n == 0 {
                (ZygoteState::Finished, ZygoteAction::Stop)
            } else {
                (ZygoteState::Serving, ZygoteAction::Receive(n))
            }
        },
        (ZygoteState::Serving, ZygoteEvent::Received(req)) => {
            let plan = request_plan(&req, wd);
            (ZygoteState::Serving, ZygoteAction::Spawn(plan))
        },
        _ => (ZygoteState::Finished, ZygoteAction::Stop),
    }
}

} // verus!
