//! The sandbox interface: options of an isolated environment and of one
//! execution inside it.

use vstd::prelude::*;
use std::time::Duration;

verus! {

/// Options of an isolated environment.
#[derive(Clone)]
pub struct Options {
    pub workdir: String,
    pub hostname: String,
    pub domainname: String,
}

/// Options of one execution inside an environment.
pub struct ExecOptions {
    pub argv0: String,
    pub argv: Vec<String>,
    pub mem_limit: usize,
    pub output_limit: usize,
    pub time_limit: Duration,
}

/// An isolated environment in which programs are executed.
pub trait Environment: Sized {
    /// Creates the environment named `id`.
    fn new(opts: Options, id: String) -> Self;

    /// Executes one program in the environment.
    fn exec(&mut self, opts: ExecOptions);
}

/// Prepares the host for environments. On Linux this has nothing to set up
/// beyond what each environment does itself, and always succeeds.
fn linux_init() -> (r: Result<(), ()>)
    ensures
        r is Ok,
{
    Ok(())
}

/// Prepares the host for environments.
pub fn init() {
    let r = linux_init();
    match r {
        Ok(()) => {},
        Err(()) => {},
    }
}

/// The cgroup controllers that an environment enables.
pub fn controllers() -> (r: Vec<String>)
    ensures
        r@.len() == 3,
        r@[0]@ == "cpu"@,
        r@[1]@ == "cpuset"@,
        r@[2]@ == "pid"@,
{
    let mut r: Vec<String> = Vec::new();
    r.push("cpu".to_owned());
    r.push("cpuset".to_owned());
    r.push("pid".to_owned());
    r
}

/// The path, relative to the cgroup root, of the cgroup of environment `id`.
pub fn scope_name(id: &str) -> (r: String)
    ensures
        r@ == "igloo.slice/"@ + id@ + ".scope"@,
{
    let mut r = "igloo.slice/".to_owned();
    r.append(id);
    r.append(".scope");
    r
}

} // verus!
