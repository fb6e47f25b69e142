use std::io::BufRead;
use arcticoj::igloo::output::{lines, read_first_line, split_whitespace};
use arcticoj::igloo::runtime::{
    combine_version, executor_self_test, gcc_version, is_executable, new, pypy3, python3,
    python_version, runtimes, AnyRuntime, PyType, Runtime, SelfTestErr,
};

#[test]
fn whitespace_words_match_std() {
    for s in ["", "  a  b\tc\n", "g++ (GCC) 15.2.1 20251112", "x\u{3000}y\u{85}z", "one"] {
        let want: Vec<String> = s.split_whitespace().map(|w| w.to_string()).collect();
        assert_eq!(split_whitespace(s), want);
    }
}

#[test]
fn lines_match_std() {
    for s in ["", "a", "a\n", "a\r\nb", "a\n\nb\n", "x\r", "\n", "a\rb\r\n"] {
        let want: Vec<String> = s.lines().map(|l| l.to_string()).collect();
        assert_eq!(lines(s), want, "input {:?}", s);
    }
}

#[test]
fn first_line_matches_bufread() {
    for b in [&b""[..], b"abc", b"abc\r\ndef", b"\n", b"x\ry\n", b"\xff\xfe\nok"] {
        let want = b.lines().next().map(|r| r.ok());
        assert_eq!(read_first_line(b), want);
    }
}

#[test]
fn gcc_version_is_third_word() {
    assert_eq!(gcc_version(b"g++ (GCC) 15.2.1 20251112\nCopyright\n"), Some("15.2.1".to_string()));
    assert_eq!(gcc_version(b"g++ (GCC)\n"), None);
    assert_eq!(gcc_version(b""), None);
    assert_eq!(gcc_version(b"\xff\xff 1 2\n"), None);
    assert_eq!(executor_self_test(None), None);
    assert_eq!(executor_self_test(Some(b"g++ (GCC) 13.1.0".to_vec())), Some("13.1.0".to_string()));
}

#[test]
fn python_versions() {
    assert_eq!(python_version(PyType::Py3, b"Python 3.12.4\n"), Some("3.12.4".to_string()));
    assert_eq!(python_version(PyType::Py3, b""), None);
    assert_eq!(python_version(PyType::Py3, b"Jython 2.7\n"), None);
    let pypy = b"Python 3.10.14 (75b3de9d9035, Apr 21 2024, 10:54:48)\n[PyPy 7.3.16 with GCC 13.2.1 20240316]\n";
    assert_eq!(
        python_version(PyType::PyPy3, pypy),
        Some("7.3.16 with Python 3.10.14".to_string())
    );
    assert_eq!(python_version(PyType::PyPy3, b"Python 3.10.14\n"), None);
    assert_eq!(python_version(PyType::Py2, b"Python 2.7.18\n"), None);
    assert_eq!(python_version(PyType::Py3, b"Python 3.13.0rc1\n"), Some("3.13.0".to_string()));
    assert_eq!(python_version(PyType::Py3, b"Python 3.13\n"), None);
    assert_eq!(python_version(PyType::Py3, b"Python 10.1.2\n"), None);
    assert_eq!(python_version(PyType::Py3, b" Python 3.1.2\n"), None);
    let no_gcc = b"Python 3.10.14\n[PyPy 7.3.16 with clang 17.0.1]\n";
    assert_eq!(python_version(PyType::PyPy3, no_gcc), None);
}

#[test]
fn combining_versions() {
    assert_eq!(combine_version(PyType::Py3, Some("3.1.2".to_string()), None), Some("3.1.2".to_string()));
    assert_eq!(
        combine_version(PyType::PyPy3, Some("3.9.1".to_string()), Some("7.3.0".to_string())),
        Some("7.3.0 with Python 3.9.1".to_string())
    );
    assert_eq!(combine_version(PyType::PyPy3, Some("3.9.1".to_string()), None), None);
    assert_eq!(combine_version(PyType::PyPy3, None, Some("7.3.0".to_string())), None);
    assert_eq!(combine_version(PyType::Py2, Some("2.7.1".to_string()), None), None);
}

#[test]
fn self_test_outcomes() {
    let g = new(None);
    assert_eq!(g.self_test(true, None), Err(SelfTestErr::NotFound));
    let g = new(Some("/usr/bin/g++".to_string()));
    assert_eq!(g.desc().id, "gcc");
    assert_eq!(g.argv0(), Some("/usr/bin/g++".to_string()));
    assert_eq!(g.self_test(false, None), Err(SelfTestErr::NotExecutable));
    assert_eq!(g.self_test(true, None), Err(SelfTestErr::Corrupted));
    assert_eq!(g.self_test(true, Some(b"garbage\n".to_vec())), Err(SelfTestErr::Corrupted));
    assert_eq!(g.self_test(true, Some(b"g++ (GCC) 15.2.1 20251112\n".to_vec())), Ok("15.2.1".to_string()));
    let p = python3(Some("/usr/bin/python3".to_string()));
    assert_eq!(p.desc().id, "python3");
    assert_eq!(p.self_test(true, Some(b"Python 3.11.2\n".to_vec())), Ok("3.11.2".to_string()));
    assert_eq!(pypy3(None).desc().id, "pypy3");
}

#[test]
fn self_test_messages() {
    assert_eq!(SelfTestErr::NotFound.message(), "couldn't find executable in PATH");
    assert_eq!(SelfTestErr::NotExecutable.message(), "program is not executable");
    assert_eq!(SelfTestErr::Corrupted.message(), "program is corrupted");
}

#[test]
fn runtime_list() {
    let r = runtimes(Some("/g".to_string()), None, Some("/p".to_string()));
    assert_eq!(r.len(), 3);
    assert!(matches!(&r[0], AnyRuntime::Gcc(_)));
    assert_eq!(r[1].desc().id, "python3");
    assert_eq!(r[1].argv0(), None);
    assert_eq!(r[2].desc().id, "pypy3");
    assert_eq!(r[2].argv0(), Some("/p".to_string()));
}

#[test]
fn executable_metadata() {
    assert!(is_executable(Some((true, 0o755))));
    assert!(is_executable(Some((true, 0o100))));
    assert!(!is_executable(Some((true, 0o644))));
    assert!(!is_executable(Some((false, 0o755))));
    assert!(!is_executable(None));
}
