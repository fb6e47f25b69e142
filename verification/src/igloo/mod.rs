//! The judge server: cgroups, containers and language runtimes.

pub mod cg;
pub mod config;
pub mod container;
pub mod creds;
pub mod isolate;
pub mod manager;
pub mod output;
pub mod runtime;

use vstd::prelude::*;

verus! {

/// A write of `content` to the file at `path`.
#[derive(Debug)]
pub struct FileWrite {
    pub path: String,
    pub content: String,
}

} // verus!
