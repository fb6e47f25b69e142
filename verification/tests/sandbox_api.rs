use arcticoj::sandbox::{controllers, init, scope_name, Options};

#[test]
fn sandbox_init_and_names() {
    init();
    assert_eq!(controllers(), vec!["cpu".to_string(), "cpuset".to_string(), "pid".to_string()]);
    assert_eq!(scope_name("w1"), "igloo.slice/w1.scope");
    let o = Options { workdir: "/w".to_string(), hostname: "h".to_string(), domainname: "d".to_string() };
    assert_eq!(o.clone().workdir, "/w");
}
