//! Mapping the container's root user and group onto the host's.

use vstd::prelude::*;
use crate::igloo::FileWrite;
use crate::text::{decimal, push_decimal};
use crate::igloo::cg::{all_digits, digits_value, lemma_decimal_digits};

verus! {

/// An id map of two lines: inside id 0 is the outside id `outside`, and
/// the id `inside` is itself.
pub open spec fn spec_id_map(outside: u32, inside: u32) -> Seq<char> {
    "0 "@ + decimal(outside as nat) + " 1\n"@ + decimal(inside as nat) + " "@ + decimal(inside as nat) + " 1"@
}

/// Whether `d` is a non-empty string of decimal digits worth `n`.
pub open spec fn reads_as(d: Seq<char>, n: nat) -> bool {
    d.len() > 0 && all_digits(d) && digits_value(d) == n
}

/// Whether `m` is an id map of two lines, "0 <o> 1" and "<i> <i> 1", whose
/// numbers read back as `outside` and `inside`.
pub open spec fn maps_ids(m: Seq<char>, outside: nat, inside: nat) -> bool {
    exists|o: Seq<char>, i: Seq<char>|
        #![trigger reads_as(o, outside), reads_as(i, inside)]
        reads_as(o, outside) && reads_as(i, inside)
            && m == "0 "@ + o + " 1\n"@ + i + " "@ + i + " 1"@
}

/// Reading an id map back gives the ranges (0, outside, 1) and
/// (inside, inside, 1), for every outside and inside id, zero included:
/// each number is written with at least one digit.
pub proof fn id_map_reads_back(outside: u32, inside: u32)
    ensures
        maps_ids(spec_id_map(outside, inside), outside as nat, inside as nat),
{
    let o = decimal(outside as nat);
    let i = decimal(inside as nat);
    lemma_decimal_digits(outside as nat);
    lemma_decimal_digits(inside as nat);
    assert(reads_as(o, outside as nat) && reads_as(i, inside as nat));
}

/// Renders an id map as written to `/proc/self/uid_map` or `gid_map`.
pub fn id_map(outside: u32, inside: u32) -> (s: String)
    ensures
        s@ == spec_id_map(outside, inside),
        maps_ids(s@, outside as nat, inside as nat),
{
    proof {
        id_map_reads_back(outside, inside);
    }
    let mut s = "0 ".to_owned();
    push_decimal(&mut s, outside as u64);
    s.append(" 1\n");
    push_decimal(&mut s, inside as u64);
    s.append(" ");
    push_decimal(&mut s, inside as u64);
    s.append(" 1");
    proof {
        assert(s@ =~= spec_id_map(outside, inside));
    }
    s
}

/// The writes that map the current user `cuid` and group `cgid` to root
/// inside a new user namespace, keep the ids `uid` and `gid` as themselves,
/// and deny `setgroups` as the kernel asks before a gid map is written.
pub fn mask(cuid: u32, cgid: u32, uid: u32, gid: u32) -> (r: Vec<FileWrite>)
    ensures
        r@.len() == 3,
        r@[0].path@ == "/proc/self/uid_map"@,
        r@[0].content@ == spec_id_map(cuid, uid),
        r@[1].path@ == "/proc/self/setgroups"@,
        r@[1].content@ == "deny"@,
        r@[2].path@ == "/proc/self/gid_map"@,
        r@[2].content@ == spec_id_map(cgid, gid),
{
    let mut r: Vec<FileWrite> = Vec::new();
    r.push(FileWrite { path: "/proc/self/uid_map".to_owned(), content: id_map(cuid, uid) });
    r.push(FileWrite { path: "/proc/self/setgroups".to_owned(), content: "deny".to_owned() });
    r.push(FileWrite { path: "/proc/self/gid_map".to_owned(), content: id_map(cgid, gid) });
    r
}

} // verus!
