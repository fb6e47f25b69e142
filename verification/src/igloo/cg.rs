//! The cgroup tree that judged processes are placed in.

use vstd::prelude::*;
use crate::text::{decimal, digit_char, find_char_from, index_of, lemma_index_of_is, slash_join};
use crate::igloo::FileWrite;

verus! {

/// Oldest kernel release (major, minor) with the cgroup features used.
pub const TARGET_MAJOR: u8 = 5;
pub const TARGET_MINOR: u8 = 19;
/// The cgroup under which every container's cgroup is made.
pub const ROOT_SLICE: &'static str = "/sys/fs/cgroup/igloo.slice";
/// The controllers enabled for the children of the root slice.
pub const CTRLS: &'static str = "+memory +pids +cpu +cpuset +io";
/// Filesystem magic number of cgroup v2.
pub const CGV2_SUPER_MAGIC: i64 = 1667723888;

/// Whether `c` is an ASCII decimal digit.
pub open spec fn is_digit(c: char) -> bool {
    '0' <= c && c <= '9'
}

/// The value of a string of decimal digits.
pub open spec fn digits_value(d: Seq<char>) -> nat
    decreases d.len(),
{
    if d.len() == 0 {
        0
    } else {
        digits_value(d.drop_last()) * 10 + ((d.last() as int - '0' as int) as nat)
    }
}

/// The digits of an unsigned number: the text after an optional '+'.
pub open spec fn strip_plus(s: Seq<char>) -> Seq<char> {
    if s.len() > 0 && s[0] == '+' { s.drop_first() } else { s }
}

/// Whether every character is a decimal digit.
pub open spec fn all_digits(d: Seq<char>) -> bool {
    forall|i: int| 0 <= i < d.len() ==> is_digit(#[trigger] d[i])
}

/// `u8::from_str`: an optional '+' followed by one or more decimal digits
/// whose value fits in a byte.
pub open spec fn parse_u8(s: Seq<char>) -> Option<u8> {
    let d = strip_plus(s);
    if d.len() > 0 && all_digits(d) && digits_value(d) <= 255 {
        Some(digits_value(d) as u8)
    } else {
        None
    }
}

/// The (major, minor) version read from the first two dot-separated fields
/// of a kernel release string; `None` where there is no second field or a
/// field is not a number that fits in a byte.
pub open spec fn spec_kernel_version(release: Seq<char>) -> Option<(u8, u8)> {
    let i = index_of(release, '.');
    if i >= release.len() {
        None
    } else {
        let rest = release.skip(i + 1);
        let j = index_of(rest, '.');
        match (parse_u8(release.take(i)), parse_u8(rest.take(j))) {
            (Some(a), Some(b)) => Some((a, b)),
            _ => None,
        }
    }
}

proof fn lemma_digits_prefix_le(d: Seq<char>, k: int)
    requires
        0 <= k <= d.len(),
        forall|i: int| 0 <= i < d.len() ==> is_digit(#[trigger] d[i]),
    ensures
        digits_value(d.take(k)) <= digits_value(d),
    decreases d.len(),
{
    if k < d.len() {
        lemma_digits_prefix_le(d.drop_last(), k);
        assert(d.drop_last().take(k) =~= d.take(k));
    } else {
        assert(d.take(k) =~= d);
    }
}

/// `u8::from_str` on the characters `s@[start..end]`.
fn parse_u8_range(s: &str, start: usize, end: usize) -> (r: Option<u8>)
    requires
        start <= end <= s@.len(),
    ensures
        r == parse_u8(s@.subrange(start as int, end as int)),
{
    let ghost f = s@.subrange(start as int, end as int);
    let mut b = start;
    if start < end && s.get_char(start) == '+' {
        b = start + 1;
    }
    let ghost d = s@.subrange(b as int, end as int);
    proof {
        if f.len() > 0 && f[0] == '+' {
            assert(d =~= f.drop_first());
        } else {
            assert(d =~= f);
        }
    }
    if b >= end {
        return None;
    }
    let mut v: u32 = 0;
    let mut i = b;
    while i < end
        invariant
            b <= i <= end,
            end <= s@.len(),
            d == s@.subrange(b as int, end as int),
            f == s@.subrange(start as int, end as int),
            d == strip_plus(f),
            d.len() > 0,
            forall|j: int| 0 <= j < i - b ==> is_digit(#[trigger] d[j]),
            v == digits_value(d.take(i - b)),
            v <= 255,
        decreases end - i,
    {
        let c = s.get_char(i);
        if !('0' <= c && c <= '9') {
            assert(!is_digit(d[i - b]));
            return None;
        }
        let dv: u32 = (c as u32) - ('0' as u32);
        proof {
            let p = d.take(i - b + 1);
            assert(p.drop_last() =~= d.take(i - b));
            assert(p.last() == c);
        }
        v = v * 10 + dv;
        if v > 255 {
            proof {
                if all_digits(d) {
                    lemma_digits_prefix_le(d, i - b + 1);
                }
            }
            return None;
        }
        i += 1;
    }
    proof {
        assert(d.take(end - b) =~= d);
    }
    Some(v as u8)
}

/// Reads (major, minor) from a kernel release string such as "6.8.0-45".
pub fn kernel_version(release: &str) -> (r: Option<(u8, u8)>)
    ensures
        r == spec_kernel_version(release@),
{
    let n = release.unicode_len();
    let i = find_char_from(release, 0, '.');
    proof {
        assert(release@.skip(0) =~= release@);
    }
    if i >= n {
        return None;
    }
    let j = find_char_from(release, i + 1, '.');
    let a = parse_u8_range(release, 0, i);
    let b = parse_u8_range(release, i + 1, j);
    proof {
        let rest = release@.skip(i + 1);
        assert(release@.subrange(0, i as int) =~= release@.take(i as int));
        assert(release@.subrange(i + 1, j as int) =~= rest.take(j - i - 1));
        assert(index_of(release@, '.') == i);
        assert(index_of(rest, '.') == j - i - 1);
    }
    match (a, b) {
        (Some(a), Some(b)) => Some((a, b)),
        _ => None,
    }
}

/// Whether a kernel version is at least the target release.
pub open spec fn spec_kernel_supported(v: (u8, u8)) -> bool {
    v.0 > TARGET_MAJOR || (v.0 == TARGET_MAJOR && v.1 >= TARGET_MINOR)
}

/// Whether a kernel version is at least the target release, comparing
/// (major, minor) lexicographically.
pub fn kernel_supported(v: (u8, u8)) -> (r: bool)
    ensures
        r == spec_kernel_supported(v),
{
    v.0 > TARGET_MAJOR || (v.0 == TARGET_MAJOR && v.1 >= TARGET_MINOR)
}

/// Why the host cannot run containers.
#[derive(Debug, Clone, Copy, PartialEq, Eq, Structural)]
pub enum HostError {
    /// The kernel release string has no readable (major, minor) version.
    UnreadableRelease,
    /// The kernel is older than the target release.
    OldKernel,
    /// The cgroup filesystem is not cgroup v2.
    NotCgroup2,
}

/// The host check: a kernel at least as new as the target, and cgroup v2
/// mounted at the cgroup root (`fs_type` is its filesystem magic number).
pub open spec fn spec_check_host(release: Seq<char>, fs_type: i64) -> Result<(), HostError> {
    match spec_kernel_version(release) {
        None => Err(HostError::UnreadableRelease),
        Some(v) => if !spec_kernel_supported(v) {
            Err(HostError::OldKernel)
        } else if fs_type != CGV2_SUPER_MAGIC {
            Err(HostError::NotCgroup2)
        } else {
            Ok(())
        },
    }
}

/// Whether the release string reads as kernel version 5.19 or newer.
pub open spec fn release_at_least_5_19(release: Seq<char>) -> bool {
    match spec_kernel_version(release) {
        Some(v) => v.0 > 5 || (v.0 == 5 && v.1 >= 19),
        None => false,
    }
}

/// The host check passes exactly on a kernel release that reads as version
/// 5.19 or newer with cgroup v2 (filesystem magic 0x63677270) mounted at
/// the cgroup root; any other filesystem there is refused as not cgroup v2
/// once the kernel is new enough.
pub proof fn host_check_needs_cgroup2(release: Seq<char>, fs_type: i64)
    ensures
        spec_check_host(release, fs_type) is Ok <==> (fs_type == 0x63677270 && release_at_least_5_19(release)),
        (release_at_least_5_19(release) && fs_type != 0x63677270)
            ==> spec_check_host(release, fs_type) == Err::<(), HostError>(HostError::NotCgroup2),
        spec_kernel_version(release) is None
            ==> spec_check_host(release, fs_type) == Err::<(), HostError>(HostError::UnreadableRelease),
{
}

/// Checks that the host can run containers.
pub fn check_host(release: &str, fs_type: i64) -> (r: Result<(), HostError>)
    ensures
        r == spec_check_host(release@, fs_type),
        r is Ok ==> fs_type == 0x63677270,
        r is Ok <==> (fs_type == 0x63677270 && release_at_least_5_19(release@)),
{
    proof {
        host_check_needs_cgroup2(release@, fs_type);
    }
    match kernel_version(release) {
        None => Err(HostError::UnreadableRelease),
        Some(v) => if !kernel_supported(v) {
            Err(HostError::OldKernel)
        } else if fs_type != CGV2_SUPER_MAGIC {
            Err(HostError::NotCgroup2)
        } else {
            Ok(())
        },
    }
}

/// The write that kills every process in the cgroup at `dir`.
pub fn kill_write(dir: &str) -> (w: FileWrite)
    ensures
        w.path@ == dir@ + "/cgroup.kill"@,
        w.content@ == "1"@,
{
    let path = slash_join(dir, "cgroup.kill");
    proof {
        reveal_strlit("cgroup.kill");
        reveal_strlit("/cgroup.kill");
        assert(path@ =~= dir@ + "/cgroup.kill"@);
    }
    FileWrite { path, content: "1".to_owned() }
}

/// The writes that set up the root slice once it is created: enable the
/// controllers for its children and allow two levels below it.
pub fn init_writes() -> (r: Vec<FileWrite>)
    ensures
        r@.len() == 2,
        r@[0].path@ == ROOT_SLICE@ + "/cgroup.subtree_control"@,
        r@[0].content@ == CTRLS@,
        r@[1].path@ == ROOT_SLICE@ + "/cgroup.max.depth"@,
        r@[1].content@ == "2"@,
{
    let p0 = slash_join(ROOT_SLICE, "cgroup.subtree_control");
    let p1 = slash_join(ROOT_SLICE, "cgroup.max.depth");
    proof {
        reveal_strlit("cgroup.subtree_control");
        reveal_strlit("/cgroup.subtree_control");
        reveal_strlit("cgroup.max.depth");
        reveal_strlit("/cgroup.max.depth");
        assert(p0@ =~= ROOT_SLICE@ + "/cgroup.subtree_control"@);
        assert(p1@ =~= ROOT_SLICE@ + "/cgroup.max.depth"@);
    }
    let mut r: Vec<FileWrite> = Vec::new();
    r.push(FileWrite { path: p0, content: CTRLS.to_owned() });
    r.push(FileWrite { path: p1, content: "2".to_owned() });
    r
}

/// The cgroup of one container, under the root slice.
#[derive(Debug)]
pub struct CG {
    path: String,
    cpu: String,
}

impl CG {
    /// Path of the cgroup.
    pub closed spec fn spec_path(&self) -> Seq<char> {
        self.path@
    }

    /// CPUs the cgroup is pinned to.
    pub closed spec fn spec_cpu(&self) -> Seq<char> {
        self.cpu@
    }

    /// The cgroup `<root slice>/<id>.scope`, pinned to the CPU list `cpu`.
    pub fn new(id: &str, cpu: &str) -> (cg: CG)
        ensures
            cg.spec_path() == ROOT_SLICE@ + "/"@ + id@ + ".scope"@,
            cg.spec_cpu() == cpu@,
    {
        let mut path = slash_join(ROOT_SLICE, id);
        path.append(".scope");
        proof {
            reveal_strlit("/");
            assert(path@ =~= ROOT_SLICE@ + "/"@ + id@ + ".scope"@);
        }
        CG { path, cpu: cpu.to_owned() }
    }

    /// Path of the cgroup directory.
    pub fn path(&self) -> (r: &str)
        ensures
            r@ == self.spec_path(),
    {
        self.path.as_str()
    }

    /// The write that pins the cgroup to its CPUs, made once it is created.
    pub fn setup_write(&self) -> (w: FileWrite)
        ensures
            w.path@ == self.spec_path() + "/cpuset.cpus"@,
            w.content@ == self.spec_cpu(),
    {
        let path = slash_join(self.path.as_str(), "cpuset.cpus");
        proof {
            reveal_strlit("cpuset.cpus");
            reveal_strlit("/cpuset.cpus");
            assert(path@ =~= self.spec_path() + "/cpuset.cpus"@);
        }
        FileWrite { path, content: self.cpu.clone() }
    }

    /// The write that kills the cgroup's processes before it is removed.
    pub fn teardown_write(&self) -> (w: FileWrite)
        ensures
            w.path@ == self.spec_path() + "/cgroup.kill"@,
            w.content@ == "1"@,
    {
        kill_write(self.path.as_str())
    }
}

proof fn lemma_digit_char(k: nat)
    requires
        k < 10,
    ensures
        is_digit(digit_char(k)),
        digit_char(k) as int - '0' as int == k,
{
    let ds = seq!['0', '1', '2', '3', '4', '5', '6', '7', '8', '9'];
    assert(digit_char(k) == ds[k as int]);
    if k == 0 { assert(ds[0] == '0'); }
    else if k == 1 { assert(ds[1] == '1'); }
    else if k == 2 { assert(ds[2] == '2'); }
    else if k == 3 { assert(ds[3] == '3'); }
    else if k == 4 { assert(ds[4] == '4'); }
    else if k == 5 { assert(ds[5] == '5'); }
    else if k == 6 { assert(ds[6] == '6'); }
    else if k == 7 { assert(ds[7] == '7'); }
    else if k == 8 { assert(ds[8] == '8'); }
    else { assert(ds[9] == '9'); }
}

/// The decimal rendering of a number is a string of digits worth it.
pub proof fn lemma_decimal_digits(n: nat)
    ensures
        decimal(n).len() > 0,
        all_digits(decimal(n)),
        digits_value(decimal(n)) == n,
        decimal(n)[0] != '+',
    decreases n,
{
    let d = decimal(n);
    if n < 10 {
        lemma_digit_char(n);
        assert(d =~= seq![digit_char(n)]);
        assert(d.drop_last() =~= Seq::<char>::empty());
        assert(digits_value(d.drop_last()) == 0);
        assert(d.last() == digit_char(n));
    } else {
        lemma_digit_char(n % 10);
        lemma_decimal_digits(n / 10);
        let p = decimal(n / 10);
        assert(d =~= p.push(digit_char(n % 10)));
        assert(d.drop_last() =~= p);
        assert forall|i: int| 0 <= i < d.len() implies is_digit(#[trigger] d[i]) by {
            if i < p.len() {
                assert(d[i] == p[i]);
            }
        }
        assert(d[0] == p[0]);
        assert(d.last() == digit_char(n % 10));
        assert(digits_value(d) == digits_value(p) * 10 + (n % 10));
        assert((n / 10) * 10 + n % 10 == n);
    }
}

/// A number that fits in a byte is read back from its decimal rendering.
pub proof fn lemma_parse_u8_decimal(n: u8)
    ensures
        parse_u8(decimal(n as nat)) == Some(n),
{
    lemma_decimal_digits(n as nat);
}

/// A digit string holds no '.'.
proof fn lemma_digits_no_dot(d: Seq<char>)
    requires
        all_digits(d),
    ensures
        forall|i: int| 0 <= i < d.len() ==> d[i] != '.',
{
    assert forall|i: int| 0 <= i < d.len() implies d[i] != '.' by {
        assert(is_digit(d[i]));
    }
}

/// The version is read back from any release string that starts with the
/// rendered major and minor numbers: "<major>.<minor>" followed by nothing
/// or by '.' and anything.
pub proof fn kernel_version_roundtrip(major: u8, minor: u8, tail: Seq<char>)
    requires
        tail.len() == 0 || tail[0] == '.',
    ensures
        spec_kernel_version(decimal(major as nat) + seq!['.'] + decimal(minor as nat) + tail)
            == Some((major, minor)),
{
    let a = decimal(major as nat);
    let b = decimal(minor as nat);
    let release = a + seq!['.'] + b + tail;
    lemma_decimal_digits(major as nat);
    lemma_decimal_digits(minor as nat);
    lemma_digits_no_dot(a);
    lemma_digits_no_dot(b);
    assert forall|j: int| 0 <= j < a.len() implies release[j] != '.' by {
        assert(release[j] == a[j]);
    }
    assert(release[a.len() as int] == '.');
    lemma_index_of_is(release, '.', a.len() as int);
    let rest = release.skip(a.len() as int + 1);
    assert(rest =~= b + tail);
    assert forall|j: int| 0 <= j < b.len() implies rest[j] != '.' by {
        assert(rest[j] == b[j]);
    }
    if tail.len() == 0 {
        assert(rest =~= b);
        lemma_index_of_is(rest, '.', b.len() as int);
    } else {
        assert(rest[b.len() as int] == '.');
        lemma_index_of_is(rest, '.', b.len() as int);
    }
    assert(release.take(a.len() as int) =~= a);
    assert(rest.take(b.len() as int) =~= b);
    lemma_parse_u8_decimal(major);
    lemma_parse_u8_decimal(minor);
}

/// Support is monotone: a kernel at least as new as a supported one is
/// supported.
pub proof fn kernel_support_monotone(v: (u8, u8), w: (u8, u8))
    requires
        spec_kernel_supported(v),
        w.0 > v.0 || (w.0 == v.0 && w.1 >= v.1),
    ensures
        spec_kernel_supported(w),
{
}

} // verus!
