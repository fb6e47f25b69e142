//! Creation of a container: the arguments of its `clone3`, its environment
//! and the arguments of the zygote that runs in it.

use vstd::prelude::*;
use crate::cryo::{
    zero_clone_args, RawCloneArgs, GID, NEWIPC, NEWNET, NEWNS, NEWPID, NEWTIME, NEWUSER, NEWUTS,
    PIDFD, SIGCHLD, UID,
};
use crate::igloo::config::Env;
use crate::igloo::creds::{mask, spec_id_map};
use crate::igloo::FileWrite;
use crate::text::{push_char, str_has_char};

verus! {

/// The namespaces a container gets, and a pidfd for the zygote.
pub open spec fn container_flags() -> u64 {
    NEWNS | NEWPID | NEWUTS | NEWIPC | NEWNET | NEWTIME | NEWUSER | PIDFD
}

/// The `clone3` arguments that create a container: fresh mount, pid, uts,
/// ipc, net, time and user namespaces, a pidfd stored at `pidfd_addr`, and
/// SIGCHLD on exit.
pub fn container_clone_args(pidfd_addr: u64) -> (r: RawCloneArgs)
    ensures
        r == (RawCloneArgs {
            flags: container_flags(),
            exit_signal: SIGCHLD,
            pidfd: pidfd_addr,
            ..zero_clone_args()
        }),
{
    RawCloneArgs {
        flags: NEWNS | NEWPID | NEWUTS | NEWIPC | NEWNET | NEWTIME | NEWUSER | PIDFD,
        exit_signal: SIGCHLD,
        pidfd: pidfd_addr,
        ..RawCloneArgs::default()
    }
}

/// A string holds a NUL character, so it has no C string form.
#[derive(Debug, Clone, Copy, PartialEq, Eq, Structural)]
pub struct InteriorNul;

/// The `KEY=VALUE` form of an environment variable.
pub open spec fn env_entry(e: Env) -> Seq<char> {
    e.key@ + "="@ + e.value@
}

/// The environment of the zygote: `KEY=VALUE` for each configured variable,
/// refused when one of them has no C string form.
pub fn env_entries(vars: &Vec<Env>) -> (r: Result<Vec<String>, InteriorNul>)
    ensures
        r is Err <==> exists|i: int| 0 <= i < vars@.len() && #[trigger] env_entry(vars@[i]).contains('\0'),
        r matches Ok(v) ==> v@.len() == vars@.len()
            && forall|i: int| 0 <= i < vars@.len() ==> #[trigger] v@[i]@ == env_entry(vars@[i]),
{
    let mut out: Vec<String> = Vec::new();
    let mut i: usize = 0;
    while i < vars.len()
        invariant
            i <= vars.len(),
            out@.len() == i,
            forall|j: int| 0 <= j < i ==> #[trigger] out@[j]@ == env_entry(vars@[j]),
            forall|j: int| 0 <= j < i ==> !(#[trigger] env_entry(vars@[j])).contains('\0'),
        decreases vars.len() - i,
    {
        let e = &vars[i];
        let mut s = e.key.clone();
        push_char(&mut s, '=');
        s.append(e.value.as_str());
        proof {
            reveal_strlit("=");
            assert(s@ =~= env_entry(vars@[i as int]));
        }
        if str_has_char(s.as_str(), '\0') {
            return Err(InteriorNul);
        }
        out.push(s);
        i += 1;
    }
    Ok(out)
}

/// The arguments of the zygote: its working directory, then the container
/// id; refused when one of them has no C string form.
pub fn zygote_argv(wd: &str, id: &str) -> (r: Result<Vec<String>, InteriorNul>)
    ensures
        r is Err <==> wd@.contains('\0') || id@.contains('\0'),
        r matches Ok(v) ==> v@.len() == 2 && v@[0]@ == wd@ && v@[1]@ == id@,
{
    if str_has_char(wd, '\0') || str_has_char(id, '\0') {
        return Err(InteriorNul);
    }
    let mut v: Vec<String> = Vec::new();
    v.push(wd.to_owned());
    v.push(id.to_owned());
    Ok(v)
}

/// A step of a new container's setup, taken inside it, in order, before
/// its zygote runs.
#[derive(Debug)]
pub enum SetupStep {
    /// Write a file (the user and group maps).
    Write(FileWrite),
    /// Set the host name.
    SetHostname(String),
    /// Set the domain name.
    SetDomainname(String),
    /// Make the container's end of the socket its standard input.
    SocketToStdin,
    /// Execute the zygote program with these arguments and environment.
    ExecZygote { argv: Vec<String>, envp: Vec<String> },
}

/// Whether `step` writes `content` to `path`.
pub open spec fn writes(step: SetupStep, path: Seq<char>, content: Seq<char>) -> bool {
    step matches SetupStep::Write(w) && w.path@ == path && w.content@ == content
}

/// The setup of a container `id` in domain `domain`, started by the user
/// `cuid` and group `cgid`: map them to root and keep the judged ids, deny
/// `setgroups` before the group map; name the host and the domain; take
/// the socket as standard input; then execute the zygote with the working
/// directory `wd` and the id as arguments and the configured environment.
pub open spec fn setup_ok(steps: Seq<SetupStep>, cuid: u32, cgid: u32, id: Seq<char>, domain: Seq<char>, wd: Seq<char>, vars: Seq<Env>) -> bool {
    &&& steps.len() == 7
    &&& writes(steps[0], "/proc/self/uid_map"@, spec_id_map(cuid, UID))
    &&& writes(steps[1], "/proc/self/setgroups"@, "deny"@)
    &&& writes(steps[2], "/proc/self/gid_map"@, spec_id_map(cgid, GID))
    &&& steps[3] matches SetupStep::SetHostname(h) && h@ == id
    &&& steps[4] matches SetupStep::SetDomainname(d) && d@ == domain
    &&& steps[5] is SocketToStdin
    &&& steps[6] matches SetupStep::ExecZygote { argv, envp } && {
        &&& argv@.len() == 2 && argv@[0]@ == wd && argv@[1]@ == id
        &&& envp@.len() == vars.len()
        &&& forall|i: int| 0 <= i < vars.len() ==> #[trigger] envp@[i]@ == env_entry(vars[i])
    }
}

/// The setup of a new container; refused when the working directory, the
/// id or an environment variable has no C string form.
pub fn container_setup(cuid: u32, cgid: u32, id: &str, domain: &str, wd: &str, vars: &Vec<Env>) -> (r: Result<Vec<SetupStep>, InteriorNul>)
    ensures
        r is Err <==> (exists|i: int| 0 <= i < vars@.len() && #[trigger] env_entry(vars@[i]).contains('\0'))
            || wd@.contains('\0') || id@.contains('\0'),
        r matches Ok(steps) ==> setup_ok(steps@, cuid, cgid, id@, domain@, wd@, vars@),
{
    let envp = match env_entries(vars) {
        Ok(e) => e,
        Err(e) => return Err(e),
    };
    let argv = match zygote_argv(wd, id) {
        Ok(a) => a,
        Err(e) => return Err(e),
    };
    let mut maps = mask(cuid, cgid, UID, GID);
    let mut steps: Vec<SetupStep> = Vec::new();
    let gid_map = maps.pop().unwrap();
    let setgroups = maps.pop().unwrap();
    let uid_map = maps.pop().unwrap();
    steps.push(SetupStep::Write(uid_map));
    steps.push(SetupStep::Write(setgroups));
    steps.push(SetupStep::Write(gid_map));
    steps.push(SetupStep::SetHostname(id.to_owned()));
    steps.push(SetupStep::SetDomainname(domain.to_owned()));
    steps.push(SetupStep::SocketToStdin);
    steps.push(SetupStep::ExecZygote { argv, envp });
    Ok(steps)
}

} // verus!
