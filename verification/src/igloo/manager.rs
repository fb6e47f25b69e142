//! The container manager.

use vstd::prelude::*;
use crate::text::{i64_to_decimal, push_char, signed_decimal};

verus! {

/// Creates containers under the configured root directory.
pub struct Manager;

/// `Path::join` on Unix: an absolute `name` replaces `base`; otherwise a
/// '/' separates them unless `base` is empty or already ends in one.
pub open spec fn spec_path_join(base: Seq<char>, name: Seq<char>) -> Seq<char> {
    if name.len() > 0 && name[0] == '/' {
        name
    } else if base.len() == 0 || base.last() == '/' {
        base + name
    } else {
        base + seq!['/'] + name
    }
}

/// Joins a path and a name as `Path::join` does on Unix.
pub fn path_join(base: &str, name: &str) -> (r: String)
    ensures
        r@ == spec_path_join(base@, name@),
{
    let bn = base.unicode_len();
    let nn = name.unicode_len();
    if nn > 0 && name.get_char(0) == '/' {
        return name.to_owned();
    }
    let mut r = base.to_owned();
    if !(bn == 0 || base.get_char(bn - 1) == '/') {
        push_char(&mut r, '/');
    }
    r.append(name);
    r
}

/// The name of a container's directory: its id and the creation time in
/// milliseconds, joined by '_'.
pub open spec fn spec_container_dir_name(id: Seq<char>, millis: i64) -> Seq<char> {
    id + seq!['_'] + signed_decimal(millis as int)
}

impl Manager {
    /// Creates the manager.
    pub fn new() -> (m: Manager) {
        Manager
    }

    /// The directory of a new container `id`, created at `millis`
    /// milliseconds since the epoch, under the containers' `root`.
    pub fn container_root(&self, root: &str, id: &str, millis: i64) -> (r: String)
        ensures
            r@ == spec_path_join(root@, spec_container_dir_name(id@, millis)),
    {
        let mut name = id.to_owned();
        push_char(&mut name, '_');
        let d = i64_to_decimal(millis);
        name.append(d.as_str());
        proof {
            assert(name@ =~= spec_container_dir_name(id@, millis));
        }
        path_join(root, name.as_str())
    }
}

/// A container's directory lies inside the containers' root: the path
/// starts with the root and continues below it, unless the id is itself an
/// absolute path.
pub proof fn container_root_inside(root: Seq<char>, id: Seq<char>, millis: i64)
    requires
        root.len() > 0,
        id.len() == 0 || id[0] != '/',
    ensures
        ({
            let p = spec_path_join(root, spec_container_dir_name(id, millis));
            &&& p.len() > root.len()
            &&& p.take(root.len() as int) == root
            &&& (root.last() == '/' || p[root.len() as int] == '/')
        }),
{
    let name = spec_container_dir_name(id, millis);
    assert(name.len() > 0);
    if id.len() == 0 {
        assert(name[0] == '_');
    } else {
        assert(name[0] == id[0]);
    }
    let p = spec_path_join(root, name);
    if root.last() == '/' {
        assert(p =~= root + name);
    } else {
        assert(p =~= root + seq!['/'] + name);
    }
    assert(p.take(root.len() as int) =~= root);
}

} // verus!
