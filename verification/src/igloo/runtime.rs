//! Language runtimes (compilers and interpreters) and their self-tests.

use vstd::prelude::*;
use vstd::utf8::{decode_utf8, valid_utf8};
use crate::igloo::output::{
    first_line, is_whitespace, lines, read_first_line, split_whitespace, str_lines, utf8_decode,
    ws_tokens, ws_tokens_are_words,
};
use crate::text::opt_view;
use crate::igloo::cg::is_digit;

verus! {

/// Why a runtime cannot be used.
#[derive(Debug, Clone, Copy, PartialEq, Eq, Structural)]
pub enum SelfTestErr {
    NotFound,
    NotExecutable,
    Corrupted,
}

impl SelfTestErr {
    /// The message that describes the failure.
    pub fn message(&self) -> (m: &'static str)
        ensures
            m@ == match self {
                SelfTestErr::NotFound => "couldn't find executable in PATH"@,
                SelfTestErr::NotExecutable => "program is not executable"@,
                SelfTestErr::Corrupted => "program is corrupted"@,
            },
    {
        match self {
            SelfTestErr::NotFound => "couldn't find executable in PATH",
            SelfTestErr::NotExecutable => "program is not executable",
            SelfTestErr::Corrupted => "program is corrupted",
        }
    }
}

/// Description of a runtime.
#[derive(Debug)]
pub struct RtDesc {
    pub id: String,
}

/// The result of a self-test, given where the program was found, whether
/// it is executable, and what its version query printed (`None` when the
/// query could not be run). `version` reads the printed output.
pub open spec fn spec_self_test(
    argv0: Option<Seq<char>>,
    executable: bool,
    output: Option<Seq<u8>>,
    version: spec_fn(Seq<u8>) -> Option<Seq<char>>,
    r: Result<String, SelfTestErr>,
) -> bool {
    match argv0 {
        None => r == Err::<String, SelfTestErr>(SelfTestErr::NotFound),
        Some(_) => if !executable {
            r == Err::<String, SelfTestErr>(SelfTestErr::NotExecutable)
        } else {
            match output {
                None => r == Err::<String, SelfTestErr>(SelfTestErr::Corrupted),
                Some(o) => match version(o) {
                    None => r == Err::<String, SelfTestErr>(SelfTestErr::Corrupted),
                    Some(v) => r matches Ok(s) && s@ == v,
                },
            }
        },
    }
}

/// A compiler or interpreter that submissions are run with.
pub trait Runtime {
    /// Identifier of the runtime.
    spec fn spec_id(&self) -> Seq<char>;

    /// Where its program was found, if it was.
    spec fn spec_argv0(&self) -> Option<Seq<char>>;

    /// Whether its version can be read from `out` without a panic.
    spec fn version_defined(&self, out: Seq<u8>) -> bool;

    /// The version read from what its version query printed.
    spec fn spec_version(&self, out: Seq<u8>) -> Option<Seq<char>>;

    /// Describes the runtime.
    fn desc(&self) -> (d: RtDesc)
        ensures
            d.id@ == self.spec_id(),
    ;

    /// Where its program was found.
    fn argv0(&self) -> (r: Option<String>)
        ensures
            opt_view(r) == self.spec_argv0(),
    ;

    /// Whether the version can be read from `out`.
    fn version_readable(&self, out: &[u8]) -> (r: bool)
        ensures
            r == self.version_defined(out@),
    ;

    /// Reads the version from what the program printed for `--version`.
    fn get_version(&self, out: &[u8]) -> (r: Option<String>)
        requires
            self.version_defined(out@),
        ensures
            opt_view(r) == self.spec_version(out@),
    ;

    /// Decides the self-test: the program must have been found, be
    /// executable, and print a version.
    fn self_test(&self, executable: bool, output: Option<Vec<u8>>) -> (r: Result<String, SelfTestErr>)
        requires
            output matches Some(o) ==> self.version_defined(o@),
        ensures
            spec_self_test(
                self.spec_argv0(),
                executable,
                match output { Some(o) => Some(o@), None => None },
                |o: Seq<u8>| self.spec_version(o),
                r,
            ),
    ;
}

/// The version that `g++ --version` prints first, as in
/// "g++ (GCC) 15.2.1 20251112": the third word of the first line.
pub open spec fn spec_gcc_version(out: Seq<u8>) -> Option<Seq<char>> {
    match first_line(out) {
        Some(Some(l)) => if ws_tokens(l).len() > 2 { Some(ws_tokens(l)[2]) } else { None },
        _ => None,
    }
}

/// Whether the first line, when it is text, has a third word.
pub open spec fn gcc_version_defined(out: Seq<u8>) -> bool {
    match first_line(out) {
        Some(Some(l)) => ws_tokens(l).len() > 2,
        _ => true,
    }
}

/// Reads the version that `g++ --version` printed; `None` when there is
/// no output, the first line is not text, or it has no third word.
pub fn gcc_version(out: &[u8]) -> (r: Option<String>)
    ensures
        opt_view(r) == spec_gcc_version(out@),
        forall|l: Seq<char>| #[trigger] first_line(out@) == Some(Some(l)) ==> {
            &&& ws_tokens(l).len() > 2 ==> (r matches Some(v) && v@ == ws_tokens(l)[2])
            &&& ws_tokens(l).len() <= 2 ==> r is None
        },
        !(first_line(out@) matches Some(Some(_))) ==> r is None,
        r matches Some(v) ==> v@.len() > 0 && forall|j: int| 0 <= j < v@.len() ==> !is_whitespace(#[trigger] v@[j]),
{
    proof {
        lemma_gcc_version_is_third_word(out@);
    }
    match read_first_line(out) {
        Some(Some(l)) => {
            let words = split_whitespace(l.as_str());
            if words.len() > 2 {
                Some(words[2].clone())
            } else {
                None
            }
        },
        _ => None,
    }
}

/// g++'s version is the third word of the first line of its banner,
/// however many words follow it; there is none when the output is empty,
/// its first line is not text, or that line has fewer than three words.
pub proof fn lemma_gcc_version_is_third_word(out: Seq<u8>)
    ensures
        forall|l: Seq<char>| #[trigger] first_line(out) == Some(Some(l)) ==> {
            &&& ws_tokens(l).len() > 2 ==> spec_gcc_version(out) == Some(ws_tokens(l)[2])
            &&& ws_tokens(l).len() <= 2 ==> spec_gcc_version(out) is None
        },
        !(first_line(out) matches Some(Some(_))) ==> spec_gcc_version(out) is None,
        spec_gcc_version(out) matches Some(v) ==> v.len() > 0
            && forall|j: int| 0 <= j < v.len() ==> !is_whitespace(#[trigger] v[j]),
{
    if let Some(Some(l)) = first_line(out) {
        ws_tokens_are_words(l);
        if ws_tokens(l).len() > 2 {
            assert(ws_tokens(l)[2].len() > 0);
        }
    }
}

/// The GNU C++ compiler.
#[derive(Debug)]
pub struct GCC {
    pub argv0: Option<String>,
}

/// Name of the GNU C++ compiler's program.
pub const GCC_BIN: &'static str = "g++";

impl Runtime for GCC {
    open spec fn spec_id(&self) -> Seq<char> {
        "gcc"@
    }

    open spec fn spec_argv0(&self) -> Option<Seq<char>> {
        opt_view(self.argv0)
    }

    open spec fn version_defined(&self, out: Seq<u8>) -> bool {
        gcc_version_defined(out)
    }

    open spec fn spec_version(&self, out: Seq<u8>) -> Option<Seq<char>> {
        spec_gcc_version(out)
    }

    fn desc(&self) -> (d: RtDesc) {
        RtDesc { id: "gcc".to_owned() }
    }

    fn argv0(&self) -> (r: Option<String>) {
        match &self.argv0 {
            Some(p) => Some(p.clone()),
            None => None,
        }
    }

    fn version_readable(&self, out: &[u8]) -> (r: bool) {
        match read_first_line(out) {
            Some(Some(l)) => split_whitespace(l.as_str()).len() > 2,
            _ => true,
        }
    }

    fn get_version(&self, out: &[u8]) -> (r: Option<String>) {
        gcc_version(out)
    }

    fn self_test(&self, executable: bool, output: Option<Vec<u8>>) -> (r: Result<String, SelfTestErr>) {
        match &self.argv0 {
            None => Err(SelfTestErr::NotFound),
            Some(_) => if !executable {
                Err(SelfTestErr::NotExecutable)
            } else {
                match output {
                    None => Err(SelfTestErr::Corrupted),
                    Some(o) => match self.get_version(o.as_slice()) {
                        Some(v) => Ok(v),
                        None => Err(SelfTestErr::Corrupted),
                    },
                }
            },
        }
    }
}

/// Creates the GNU C++ runtime, given where its program was found.
pub fn new(argv0: Option<String>) -> (g: GCC)
    ensures
        opt_view(g.argv0) == opt_view(argv0),
{
    GCC { argv0 }
}

/// The number of ASCII digits at the front of `s`.
pub open spec fn digit_run(s: Seq<char>) -> nat
    decreases s.len(),
{
    if s.len() > 0 && is_digit(s[0]) {
        1 + digit_run(s.drop_first())
    } else {
        0
    }
}

/// The length of the match of `[0-9]+\.[0-9]+` at the front of `s`, if
/// there is one: two runs of digits, each as long as it goes, with a '.'
/// between them.
pub open spec fn two_part_len(s: Seq<char>) -> Option<nat> {
    let a = digit_run(s);
    if a >= 1 && a < s.len() && s[a as int] == '.' {
        let b = digit_run(s.skip(a + 1 as int));
        if b >= 1 { Some((a + 1 + b) as nat) } else { None }
    } else {
        None
    }
}

/// The length of the match of `[0-9]\.[0-9]+\.[0-9]+` at the front of
/// `s`, if there is one: one digit, a '.', then `[0-9]+\.[0-9]+`.
pub open spec fn version_len(s: Seq<char>) -> Option<nat> {
    if s.len() >= 2 && is_digit(s[0]) && s[1] == '.' {
        match two_part_len(s.skip(2)) {
            Some(k) => Some((k + 2) as nat),
            None => None,
        }
    } else {
        None
    }
}

/// Whether `[0-9]+\.[0-9]+\.[0-9]+` matches at the front of `s`.
pub open spec fn three_part_at(s: Seq<char>) -> bool {
    match two_part_len(s) {
        Some(k) => k < s.len() && s[k as int] == '.' && digit_run(s.skip(k + 1 as int)) >= 1,
        None => false,
    }
}

/// The group "py" of `PY_PATTERN` in `text`: the version after a leading
/// "Python ".
pub open spec fn py_capture(text: Seq<char>) -> Option<Seq<char>> {
    let head = "Python "@;
    if text.len() >= head.len() && text.take(head.len() as int) == head {
        let rest = text.skip(head.len() as int);
        match version_len(rest) {
            Some(n) => Some(rest.take(n as int)),
            None => None,
        }
    } else {
        None
    }
}

/// The group "pypy" of `PYPY_PATTERN` in `text`: the version after a
/// leading "[PyPy ", where " with GCC " and a GCC version follow it.
pub open spec fn pypy_capture(text: Seq<char>) -> Option<Seq<char>> {
    let head = "[PyPy "@;
    let mid = " with GCC "@;
    if text.len() >= head.len() && text.take(head.len() as int) == head {
        let rest = text.skip(head.len() as int);
        match version_len(rest) {
            Some(n) => {
                let after = rest.skip(n as int);
                if after.len() >= mid.len() && after.take(mid.len() as int) == mid
                    && three_part_at(after.skip(mid.len() as int)) {
                    Some(rest.take(n as int))
                } else {
                    None
                }
            },
            None => None,
        }
    } else {
        None
    }
}

/// Runs one of the two version patterns (`regex::Regex::new`, then
/// `captures` and `name`) and returns the text of its named group. Claimed:
/// for `PY_PATTERN` and group "py" the result is `py_capture` of the text,
/// for `PYPY_PATTERN` and group "pypy" it is `pypy_capture`: the regex is
/// anchored at the start of the text, `[0-9]` is an ASCII digit, and each
/// digit run can only match as far as it goes, since a digit is never the
/// '.' or ' ' that follows it.
#[verifier::external_body]
fn capture_named(pattern: &str, text: &str, group: &str) -> (r: Option<String>)
    requires
        (pattern@ == PY_PATTERN@ && group@ == "py"@) || (pattern@ == PYPY_PATTERN@ && group@ == "pypy"@),
    ensures
        pattern@ == PY_PATTERN@ ==> opt_view(r) == py_capture(text@),
        pattern@ == PYPY_PATTERN@ ==> opt_view(r) == pypy_capture(text@),
{
    match regex::Regex::new(pattern) {
        Ok(re) => re.captures(text).and_then(|caps| caps.name(group)).map(|m| m.as_str().to_owned()),
        Err(_) => None,
    }
}

/// The first line that CPython prints for `--version`.
pub const PY_PATTERN: &'static str = "^Python (?<py>[0-9]\\.[0-9]+\\.[0-9]+)";
/// The second line that PyPy prints for `--version`.
pub const PYPY_PATTERN: &'static str = "^\\[PyPy (?<pypy>[0-9]\\.[0-9]+\\.[0-9]+) with GCC (?<gcc>[0-9]+\\.[0-9]+\\.[0-9]+)";

/// Flavours of Python.
#[derive(Debug, Clone, Copy, PartialEq, Eq, Structural)]
pub enum PyType {
    PyPy2,
    PyPy3,
    Py2,
    Py3,
}

/// The version reported by a Python, given the CPython version `py`
/// captured from the first line and the PyPy version `pypy` captured from
/// the second: CPython reports `py`, PyPy reports "`pypy` with Python `py`".
pub open spec fn spec_combine_version(ty: PyType, py: Option<Seq<char>>, pypy: Option<Seq<char>>) -> Option<Seq<char>> {
    match py {
        None => None,
        Some(p) => match ty {
            PyType::Py3 => Some(p),
            PyType::PyPy3 => match pypy {
                Some(q) => Some(q + " with Python "@ + p),
                None => None,
            },
            _ => None,
        },
    }
}

/// Puts together the version of a Python from what its banner matched.
pub fn combine_version(ty: PyType, py: Option<String>, pypy: Option<String>) -> (r: Option<String>)
    ensures
        opt_view(r) == spec_combine_version(ty, opt_view(py), opt_view(pypy)),
{
    match py {
        None => None,
        Some(p) => match ty {
            PyType::Py3 => Some(p),
            PyType::PyPy3 => match pypy {
                Some(q) => {
                    let mut v = q;
                    v.append(" with Python ");
                    v.append(p.as_str());
                    Some(v)
                },
                None => None,
            },
            _ => None,
        },
    }
}

/// The lines of the output, when it is text.
pub open spec fn output_lines(out: Seq<u8>) -> Option<Seq<Seq<char>>> {
    if valid_utf8(out) { Some(str_lines(decode_utf8(out))) } else { None }
}

/// The version a Python reports for `--version`: CPython prints one line,
/// PyPy a second one about itself.
pub open spec fn spec_python_version(ty: PyType, out: Seq<u8>) -> Option<Seq<char>> {
    match output_lines(out) {
        None => None,
        Some(o) => if (ty == PyType::Py3 && o.len() == 0) || (ty == PyType::PyPy3 && o.len() < 2) {
            None
        } else {
            let py = py_capture(o[0]);
            let pypy = if ty == PyType::PyPy3 && py is Some {
                pypy_capture(o[1])
            } else {
                None
            };
            spec_combine_version(ty, py, pypy)
        },
    }
}

/// A Python 2 flavour's banner is only read when there is a first line.
pub open spec fn python_version_defined(ty: PyType, out: Seq<u8>) -> bool {
    match output_lines(out) {
        None => true,
        Some(o) => !((ty == PyType::Py2 || ty == PyType::PyPy2) && o.len() == 0),
    }
}

/// Reads the version a Python printed for `--version`.
pub fn python_version(ty: PyType, out: &[u8]) -> (r: Option<String>)
    requires
        python_version_defined(ty, out@),
    ensures
        opt_view(r) == spec_python_version(ty, out@),
{
    let text = match utf8_decode(out) {
        Some(t) => t,
        None => return None,
    };
    let o = lines(text.as_str());
    proof {
        assert(o@.len() == str_lines(decode_utf8(out@)).len());
    }
    let short = match ty {
        PyType::Py3 => o.len() == 0,
        PyType::PyPy3 => o.len() < 2,
        _ => false,
    };
    if short {
        return None;
    }
    let py = capture_named(PY_PATTERN, o[0].as_str(), "py");
    let pypy = match (ty, &py) {
        (PyType::PyPy3, Some(_)) => capture_named(PYPY_PATTERN, o[1].as_str(), "pypy"),
        _ => None,
    };
    combine_version(ty, py, pypy)
}

/// A Python interpreter.
#[derive(Debug)]
pub struct Python {
    pub ty: PyType,
    pub argv0: Option<String>,
}

/// The identifier of a Python flavour.
pub open spec fn python_id(ty: PyType) -> Seq<char> {
    match ty {
        PyType::PyPy2 => "pypy2"@,
        PyType::PyPy3 => "pypy3"@,
        PyType::Py2 => "python2"@,
        PyType::Py3 => "python3"@,
    }
}

impl Runtime for Python {
    open spec fn spec_id(&self) -> Seq<char> {
        python_id(self.ty)
    }

    open spec fn spec_argv0(&self) -> Option<Seq<char>> {
        opt_view(self.argv0)
    }

    open spec fn version_defined(&self, out: Seq<u8>) -> bool {
        python_version_defined(self.ty, out)
    }

    open spec fn spec_version(&self, out: Seq<u8>) -> Option<Seq<char>> {
        spec_python_version(self.ty, out)
    }

    fn desc(&self) -> (d: RtDesc) {
        let id = match self.ty {
            PyType::PyPy2 => "pypy2",
            PyType::PyPy3 => "pypy3",
            PyType::Py2 => "python2",
            PyType::Py3 => "python3",
        };
        RtDesc { id: id.to_owned() }
    }

    fn argv0(&self) -> (r: Option<String>) {
        match &self.argv0 {
            Some(p) => Some(p.clone()),
            None => None,
        }
    }

    fn version_readable(&self, out: &[u8]) -> (r: bool) {
        match utf8_decode(out) {
            Some(t) => {
                let n = lines(t.as_str()).len();
                !((self.ty == PyType::Py2 || self.ty == PyType::PyPy2) && n == 0)
            },
            None => true,
        }
    }

    fn get_version(&self, out: &[u8]) -> (r: Option<String>) {
        python_version(self.ty, out)
    }

    fn self_test(&self, executable: bool, output: Option<Vec<u8>>) -> (r: Result<String, SelfTestErr>) {
        match &self.argv0 {
            None => Err(SelfTestErr::NotFound),
            Some(_) => if !executable {
                Err(SelfTestErr::NotExecutable)
            } else {
                match output {
                    None => Err(SelfTestErr::Corrupted),
                    Some(o) => match self.get_version(o.as_slice()) {
                        Some(v) => Ok(v),
                        None => Err(SelfTestErr::Corrupted),
                    },
                }
            },
        }
    }
}

/// Name of CPython 3's program.
pub const PYTHON3_BIN: &'static str = "python3";
/// Name of PyPy 3's program.
pub const PYPY3_BIN: &'static str = "pypy3";

/// CPython 3, given where `python3` was found.
pub fn python3(argv0: Option<String>) -> (p: Python)
    ensures
        p.ty == PyType::Py3,
        opt_view(p.argv0) == opt_view(argv0),
{
    Python { ty: PyType::Py3, argv0 }
}

/// PyPy 3, given where `pypy3` was found.
pub fn pypy3(argv0: Option<String>) -> (p: Python)
    ensures
        p.ty == PyType::PyPy3,
        opt_view(p.argv0) == opt_view(argv0),
{
    Python { ty: PyType::PyPy3, argv0 }
}

/// Any of the runtimes the judge knows.
#[derive(Debug)]
pub enum AnyRuntime {
    Gcc(GCC),
    Python(Python),
}

impl Runtime for AnyRuntime {
    open spec fn spec_id(&self) -> Seq<char> {
        match self {
            AnyRuntime::Gcc(g) => g.spec_id(),
            AnyRuntime::Python(p) => p.spec_id(),
        }
    }

    open spec fn spec_argv0(&self) -> Option<Seq<char>> {
        match self {
            AnyRuntime::Gcc(g) => g.spec_argv0(),
            AnyRuntime::Python(p) => p.spec_argv0(),
        }
    }

    open spec fn version_defined(&self, out: Seq<u8>) -> bool {
        match self {
            AnyRuntime::Gcc(g) => g.version_defined(out),
            AnyRuntime::Python(p) => p.version_defined(out),
        }
    }

    open spec fn spec_version(&self, out: Seq<u8>) -> Option<Seq<char>> {
        match self {
            AnyRuntime::Gcc(g) => g.spec_version(out),
            AnyRuntime::Python(p) => p.spec_version(out),
        }
    }

    fn desc(&self) -> (d: RtDesc) {
        match self {
            AnyRuntime::Gcc(g) => g.desc(),
            AnyRuntime::Python(p) => p.desc(),
        }
    }

    fn argv0(&self) -> (r: Option<String>) {
        match self {
            AnyRuntime::Gcc(g) => g.argv0(),
            AnyRuntime::Python(p) => p.argv0(),
        }
    }

    fn version_readable(&self, out: &[u8]) -> (r: bool) {
        match self {
            AnyRuntime::Gcc(g) => g.version_readable(out),
            AnyRuntime::Python(p) => p.version_readable(out),
        }
    }

    fn get_version(&self, out: &[u8]) -> (r: Option<String>) {
        match self {
            AnyRuntime::Gcc(g) => g.get_version(out),
            AnyRuntime::Python(p) => p.get_version(out),
        }
    }

    fn self_test(&self, executable: bool, output: Option<Vec<u8>>) -> (r: Result<String, SelfTestErr>) {
        match self {
            AnyRuntime::Gcc(g) => g.self_test(executable, output),
            AnyRuntime::Python(p) => p.self_test(executable, output),
        }
    }
}

/// The runtimes the judge tests at start-up, given where `g++`, `python3`
/// and `pypy3` were found: GCC, CPython 3 and PyPy 3, in that order.
pub fn runtimes(gcc: Option<String>, py3: Option<String>, pypy: Option<String>) -> (r: Vec<AnyRuntime>)
    ensures
        r@.len() == 3,
        r@[0] matches AnyRuntime::Gcc(g) && opt_view(g.argv0) == opt_view(gcc),
        r@[1] matches AnyRuntime::Python(p) && p.ty == PyType::Py3 && opt_view(p.argv0) == opt_view(py3),
        r@[2] matches AnyRuntime::Python(p) && p.ty == PyType::PyPy3 && opt_view(p.argv0) == opt_view(pypy),
{
    let mut r: Vec<AnyRuntime> = Vec::new();
    r.push(AnyRuntime::Gcc(new(gcc)));
    r.push(AnyRuntime::Python(python3(py3)));
    r.push(AnyRuntime::Python(pypy3(pypy)));
    r
}

/// Whether a file is executable, from its metadata (`None` when it could
/// not be read): a regular file with an execute bit set for someone.
pub fn is_executable(meta: Option<(bool, u32)>) -> (r: bool)
    ensures
        r == match meta {
            Some((is_file, mode)) => is_file && (mode & 0o111u32) != 0,
            None => false,
        },
{
    match meta {
        Some((is_file, mode)) => is_file && (mode & 0o111u32) != 0,
        None => false,
    }
}

/// The self-test of a compiled-language executor: the version printed by
/// its program, or `None` when the program could not be run or printed no
/// readable version.
pub fn executor_self_test(output: Option<Vec<u8>>) -> (r: Option<String>)
    ensures
        opt_view(r) == match output {
            Some(o) => spec_gcc_version(o@),
            None => None,
        },
{
    match output {
        Some(o) => gcc_version(o.as_slice()),
        None => None,
    }
}

} // verus!
