//! Configuration of the judge server and of its containers.

use vstd::prelude::*;
use crate::cryo::MS_RDONLY;

verus! {

/// Configuration of the judge server.
#[derive(Debug)]
pub struct Config {
    pub sandbox: SandboxConfig,
}

/// A judging worker, pinned to one CPU.
#[derive(Debug)]
pub struct Worker {
    pub id: String,
    pub cpu: u16,
}

/// Configuration of every container.
#[derive(Debug)]
pub struct SandboxConfig {
    pub domain_name: String,
    pub uid: u32,
    pub gid: u32,
    pub env_vars: Vec<Env>,
    pub fs: FS,
}

/// The filesystem seen inside a container.
#[derive(Debug)]
pub struct FS {
    pub root: String,
    pub file_binds: Vec<Bind>,
    pub dir_binds: Vec<Bind>,
    pub wd: String,
    pub mounts: Vec<Mount>,
    pub masks: Vec<String>,
    pub files: Vec<File>,
}

/// A host file or directory bound into the container.
#[derive(Debug, Clone)]
pub struct Bind {
    pub path: String,
    pub rw: Option<bool>,
    pub executable: Option<bool>,
}

/// A filesystem mounted in the container.
#[derive(Debug)]
pub struct Mount {
    pub name: String,
    pub path: String,
    pub ty: String,
    pub opts: String,
}

/// A file created in the container.
#[derive(Debug)]
pub struct File {
    pub path: String,
    pub buf: String,
    pub perm: u16,
}

/// An environment variable of the container.
#[derive(Debug)]
pub struct Env {
    pub key: String,
    pub value: String,
}

impl Bind {
    /// Whether the bind is writable; it is read-only unless `rw` says so.
    pub open spec fn spec_writable(&self) -> bool {
        self.rw == Some(true)
    }

    /// Mount flags of the bind: read-only unless it is writable.
    pub fn flags(&self) -> (f: u64)
        ensures
            f == if self.spec_writable() { 0 } else { MS_RDONLY },
    {
        let mut f: u64 = MS_RDONLY;
        let rw = match self.rw {
            Some(b) => b,
            None => false,
        };
        if rw {
            f = f ^ MS_RDONLY;
            assert(MS_RDONLY ^ MS_RDONLY == 0) by (bit_vector);
        }
        f
    }

    /// Mount options of the bind: "rw" when writable, else "ro".
    pub fn opts(&self) -> (s: String)
        ensures
            s@ == if self.spec_writable() { "rw"@ } else { "ro"@ },
    {
        let rw = match self.rw {
            Some(b) => b,
            None => false,
        };
        if rw { "rw".to_owned() } else { "ro".to_owned() }
    }
}

/// The mount flags and the mount options of a bind agree: the flags say
/// read-only exactly when the options say "ro".
pub proof fn bind_flags_agree_with_opts(b: Bind, flags: u64, opts: Seq<char>)
    requires
        flags == if b.spec_writable() { 0 } else { MS_RDONLY },
        opts == if b.spec_writable() { "rw"@ } else { "ro"@ },
    ensures
        (flags == MS_RDONLY) <==> (opts == "ro"@),
{
    reveal_strlit("rw");
    reveal_strlit("ro");
    assert("rw"@[1] != "ro"@[1]);
}

} // verus!
