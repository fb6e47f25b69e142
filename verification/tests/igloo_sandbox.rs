use arcticoj::igloo::cg::{
    check_host, init_writes, kernel_supported, kernel_version, kill_write, HostError, CG,
    CGV2_SUPER_MAGIC, CTRLS, ROOT_SLICE,
};
use arcticoj::igloo::config::Bind;
use arcticoj::igloo::config::Env;
use arcticoj::igloo::container::{
    container_clone_args, container_setup, env_entries, zygote_argv, InteriorNul, SetupStep,
};
use arcticoj::igloo::creds::{id_map, mask};
use arcticoj::igloo::isolate::mask_ug;
use arcticoj::igloo::manager::{path_join, Manager};
use arcticoj::cryo::{MS_RDONLY, NEWIPC, NEWNET, NEWNS, NEWPID, NEWTIME, NEWUSER, NEWUTS, PIDFD, SIGCHLD};
use arcticoj::text::{i64_to_decimal, u64_to_decimal};

#[test]
fn decimal_rendering() {
    assert_eq!(u64_to_decimal(0), "0");
    assert_eq!(u64_to_decimal(1667723888), "1667723888");
    assert_eq!(u64_to_decimal(u64::MAX), u64::MAX.to_string());
    assert_eq!(i64_to_decimal(-42), "-42");
    assert_eq!(i64_to_decimal(i64::MIN), i64::MIN.to_string());
}

#[test]
fn kernel_version_is_read_from_release() {
    assert_eq!(kernel_version("6.8.0-45-generic"), Some((6, 8)));
    assert_eq!(kernel_version("5.19"), Some((5, 19)));
    assert_eq!(kernel_version("+5.19.1"), Some((5, 19)));
    assert_eq!(kernel_version("6"), None);
    assert_eq!(kernel_version("6.x.1"), None);
    assert_eq!(kernel_version("300.1"), None);
    assert_eq!(kernel_version("6..1"), None);
}

#[test]
fn kernel_support_is_lexicographic() {
    assert!(kernel_supported((5, 19)));
    assert!(kernel_supported((6, 0)));
    assert!(!kernel_supported((5, 18)));
    assert!(!kernel_supported((4, 99)));
}

#[test]
fn host_check_errors() {
    assert_eq!(check_host("6.1.0", CGV2_SUPER_MAGIC), Ok(()));
    assert_eq!(check_host("5.4.0", CGV2_SUPER_MAGIC), Err(HostError::OldKernel));
    assert_eq!(check_host("6.1.0", 0x9123683e), Err(HostError::NotCgroup2));
    assert_eq!(check_host("linux", CGV2_SUPER_MAGIC), Err(HostError::UnreadableRelease));
}

#[test]
fn cgroup_paths_and_writes() {
    let w = init_writes();
    assert_eq!(w[0].path, "/sys/fs/cgroup/igloo.slice/cgroup.subtree_control");
    assert_eq!(w[0].content, CTRLS);
    assert_eq!(w[1].path, "/sys/fs/cgroup/igloo.slice/cgroup.max.depth");
    assert_eq!(w[1].content, "2");
    let k = kill_write(ROOT_SLICE);
    assert_eq!(k.path, "/sys/fs/cgroup/igloo.slice/cgroup.kill");
    assert_eq!(k.content, "1");
    let cg = CG::new("uwu", "6");
    assert_eq!(cg.path(), "/sys/fs/cgroup/igloo.slice/uwu.scope");
    let s = cg.setup_write();
    assert_eq!(s.path, "/sys/fs/cgroup/igloo.slice/uwu.scope/cpuset.cpus");
    assert_eq!(s.content, "6");
    assert_eq!(cg.teardown_write().path, "/sys/fs/cgroup/igloo.slice/uwu.scope/cgroup.kill");
}

#[test]
fn bind_is_read_only_unless_rw() {
    let ro = Bind { path: "/usr".to_string(), rw: None, executable: None };
    assert_eq!(ro.flags(), MS_RDONLY);
    assert_eq!(ro.opts(), "ro");
    let ro2 = Bind { path: "/usr".to_string(), rw: Some(false), executable: Some(true) };
    assert_eq!(ro2.flags(), MS_RDONLY);
    let rw = Bind { path: "/tmp".to_string(), rw: Some(true), executable: None };
    assert_eq!(rw.flags(), 0);
    assert_eq!(rw.opts(), "rw");
}

#[test]
fn id_maps_for_user_namespace() {
    assert_eq!(id_map(1000, 65534), "0 1000 1\n65534 65534 1");
    let w = mask(1000, 100, 65534, 65534);
    assert_eq!(w[0].path, "/proc/self/uid_map");
    assert_eq!(w[0].content, "0 1000 1\n65534 65534 1");
    assert_eq!((w[1].path.as_str(), w[1].content.as_str()), ("/proc/self/setgroups", "deny"));
    assert_eq!(w[2].path, "/proc/self/gid_map");
    assert_eq!(w[2].content, "0 100 1\n65534 65534 1");
    assert!(mask_ug().is_ok());
}

#[test]
fn container_creation_arguments() {
    let a = container_clone_args(0x1000);
    assert_eq!(a.flags, NEWNS | NEWPID | NEWUTS | NEWIPC | NEWNET | NEWTIME | NEWUSER | PIDFD);
    assert_eq!(a.exit_signal, SIGCHLD);
    assert_eq!(a.pidfd, 0x1000);
    let vars = vec![
        Env { key: "PATH".to_string(), value: "/usr/bin".to_string() },
        Env { key: "LANG".to_string(), value: "C".to_string() },
    ];
    assert_eq!(env_entries(&vars), Ok(vec!["PATH=/usr/bin".to_string(), "LANG=C".to_string()]));
    let bad = vec![Env { key: "A".to_string(), value: "x\0y".to_string() }];
    assert_eq!(env_entries(&bad), Err(InteriorNul));
    assert_eq!(zygote_argv("/work", "uwu"), Ok(vec!["/work".to_string(), "uwu".to_string()]));
    assert_eq!(zygote_argv("/wo\0rk", "uwu"), Err(InteriorNul));
}

#[test]
fn container_setup_order() {
    let vars = vec![Env { key: "PATH".to_string(), value: "/usr/bin".to_string() }];
    let steps = container_setup(1000, 100, "uwu", "judge.local", "/work", &vars).unwrap();
    assert_eq!(steps.len(), 7);
    assert!(matches!(&steps[0], SetupStep::Write(w) if w.path == "/proc/self/uid_map" && w.content == "0 1000 1\n65534 65534 1"));
    assert!(matches!(&steps[1], SetupStep::Write(w) if w.path == "/proc/self/setgroups" && w.content == "deny"));
    assert!(matches!(&steps[2], SetupStep::Write(w) if w.path == "/proc/self/gid_map" && w.content == "0 100 1\n65534 65534 1"));
    assert!(matches!(&steps[3], SetupStep::SetHostname(h) if h == "uwu"));
    assert!(matches!(&steps[4], SetupStep::SetDomainname(d) if d == "judge.local"));
    assert!(matches!(&steps[5], SetupStep::SocketToStdin));
    assert!(matches!(&steps[6], SetupStep::ExecZygote { argv, envp }
        if argv == &vec!["/work".to_string(), "uwu".to_string()] && envp == &vec!["PATH=/usr/bin".to_string()]));
    assert!(container_setup(1000, 100, "u\0wu", "d", "/work", &vars).is_err());
    let bad = vec![Env { key: "A".to_string(), value: "x\0y".to_string() }];
    assert!(container_setup(1000, 100, "uwu", "d", "/work", &bad).is_err());
}

#[test]
fn container_directories() {
    assert_eq!(path_join("/srv/root", "a"), "/srv/root/a");
    assert_eq!(path_join("/srv/root/", "a"), "/srv/root/a");
    assert_eq!(path_join("", "a"), "a");
    assert_eq!(path_join("/srv", "/etc"), "/etc");
    let m = Manager::new();
    assert_eq!(m.container_root("/srv/root", "uwu", 1700000000123), "/srv/root/uwu_1700000000123");
    assert_eq!(m.container_root("/srv/root", "x", -5), "/srv/root/x_-5");
    let expected = std::path::Path::new("/srv/root").join("uwu_42");
    assert_eq!(m.container_root("/srv/root", "uwu", 42), expected.to_string_lossy());
}
