use arcticoj::cryo::{
    check_argv, fork_outcome, request_plan, rlimit_settings, spawn_clone_args, zygote_step, ArgvError,
    ChildStep, Fork, ParentStep, RLimit, RawCloneArgs, Req, Resource, TimeLimit, ZygoteAction,
    ZygoteEvent, ZygoteState, INTO_CGROUP, IO, MODE_RUSR, MODE_WUSR, MS_NOEXEC, MS_RDONLY, SIGCHLD,
};

fn limit(secs: u64, nanos: u32) -> RLimit {
    RLimit { time: TimeLimit { secs, nanos }, mem: 256 << 20, output: 1 << 20 }
}

#[test]
fn fork_outcome_reads_child_parent_and_error() {
    assert_eq!(fork_outcome(0), Ok(Fork::Child));
    assert_eq!(fork_outcome(4242), Ok(Fork::Parent(4242)));
    assert_eq!(fork_outcome(-38), Err(38));
}

#[test]
fn default_clone_args_are_zero() {
    let a = RawCloneArgs::default();
    assert_eq!(a.flags, 0);
    assert_eq!(a.cgroup, 0);
    assert_eq!(a.exit_signal, 0);
}

#[test]
fn spawn_clone_args_target_cgroup() {
    let a = spawn_clone_args(7);
    assert_eq!(a.flags, INTO_CGROUP);
    assert_eq!(a.cgroup, 7);
    assert_eq!(a.exit_signal, SIGCHLD);
    assert_eq!(a.pidfd, 0);
}

#[test]
fn cpu_limit_rounds_down_and_up() {
    let r = rlimit_settings(&limit(2, 500_000_000));
    assert_eq!(r.len(), 5);
    assert_eq!(r[0].resource, Resource::Cpu);
    assert_eq!((r[0].soft, r[0].hard), (2, 3));
    let r = rlimit_settings(&limit(3, 0));
    assert_eq!((r[0].soft, r[0].hard), (3, 3));
    assert_eq!((r[1].resource, r[1].soft, r[1].hard), (Resource::Nproc, 1, 1));
    assert_eq!((r[2].resource, r[2].soft, r[2].hard), (Resource::Core, 0, 0));
    assert_eq!((r[3].resource, r[3].soft), (Resource::Fsize, 1 << 20));
    assert_eq!((r[4].resource, r[4].hard), (Resource::As, 256 << 20));
}

#[test]
fn argv_check_refuses_nul_and_empty() {
    assert_eq!(check_argv(&vec!["/bin/true".to_string()]), Ok(()));
    assert_eq!(check_argv(&vec![]), Err(ArgvError::Empty));
    assert_eq!(check_argv(&vec!["a".to_string(), "b\0c".to_string()]), Err(ArgvError::InteriorNul));
}

#[test]
fn compile_plan_redirects_output_and_reports() {
    let req = Req::Compile(limit(1, 0), vec!["g++".to_string(), "main.cpp".to_string()]);
    let plan = request_plan(&req, "/work");
    assert_eq!(plan.cgroup_fd, 0);
    assert!(matches!(plan.steps[0], ChildStep::DupStdout(2)));
    assert!(matches!(plan.steps[1], ChildStep::DupStderr(2)));
    assert_eq!(plan.steps.len(), 2);
    assert_eq!(plan.parent, ParentStep::ReportExitStatus);
    assert_eq!(plan.argv, vec!["g++".to_string(), "main.cpp".to_string()]);
}

#[test]
fn exec_plan_binds_named_files() {
    let io = IO { f_inp: Some("in.txt".to_string()), f_out: Some("out.txt".to_string()) };
    let plan = request_plan(&Req::Exec(limit(1, 0), io, vec!["./a.out".to_string()]), "/work");
    match &plan.steps[0] {
        ChildStep::BindFd { fd, target, flags, mode } => {
            assert_eq!((*fd, target.as_str(), *flags, *mode), (1, "/work/in.txt", MS_NOEXEC | MS_RDONLY, MODE_RUSR));
        }
        _ => panic!("input is not bound"),
    }
    match &plan.steps[1] {
        ChildStep::BindFd { fd, target, flags, mode } => {
            assert_eq!((*fd, target.as_str(), *flags, *mode), (2, "/work/out.txt", MS_NOEXEC, MODE_WUSR));
        }
        _ => panic!("output is not bound"),
    }
    assert_eq!(plan.parent, ParentStep::Detach);
}

#[test]
fn exec_plan_uses_standard_streams() {
    let io = IO { f_inp: None, f_out: None };
    let plan = request_plan(&Req::Exec(limit(1, 0), io, vec!["./a.out".to_string()]), "/work");
    assert!(matches!(plan.steps[0], ChildStep::DupStdin(1)));
    assert!(matches!(plan.steps[1], ChildStep::DupStdout(2)));
}

#[test]
fn zygote_serves_until_empty_message() {
    let (s, a) = zygote_step(ZygoteState::Starting, ZygoteEvent::Started, "/work");
    assert_eq!(s, ZygoteState::Serving);
    assert!(matches!(a, ZygoteAction::SendReady));
    let (s, a) = zygote_step(s, ZygoteEvent::Pending(12), "/work");
    assert_eq!(s, ZygoteState::Serving);
    assert!(matches!(a, ZygoteAction::Receive(12)));
    let req = Req::Compile(limit(1, 0), vec!["cc".to_string()]);
    let (s, a) = zygote_step(s, ZygoteEvent::Received(req), "/work");
    assert_eq!(s, ZygoteState::Serving);
    assert!(matches!(a, ZygoteAction::Spawn(_)));
    let (s, a) = zygote_step(s, ZygoteEvent::Pending(0), "/work");
    assert_eq!(s, ZygoteState::Finished);
    assert!(matches!(a, ZygoteAction::Stop));
    let (s, a) = zygote_step(s, ZygoteEvent::Pending(5), "/work");
    assert_eq!(s, ZygoteState::Finished);
    assert!(matches!(a, ZygoteAction::Stop));
}
