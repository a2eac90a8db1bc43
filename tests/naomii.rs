use naomii::{
    after_first_attempt, copy_file_name, decimal_string, destination_for, get_free_port,
    instance_address, launch_plan, listen_address, plan_copy, plan_setup, port_from, prepare_launch,
    random_token, resolve_port, Action, Reply, RouterState, ScalePolicy, ServiceError,
    SetupAttempt, DEFAULT_THRESHOLD, TOKEN_LEN,
};

fn is_token(t: &str) -> bool {
    t.chars().count() == TOKEN_LEN && t.chars().all(|c| c.is_ascii_alphanumeric())
}

fn target_of(action: &Action) -> Option<String> {
    match action {
        Action::RedirectTo(t) => Some(t.clone()),
        Action::Provision(_) => None,
    }
}

#[test]
fn decimal_string_writes_digits() {
    assert_eq!(decimal_string(0), "0");
    assert_eq!(decimal_string(7), "7");
    assert_eq!(decimal_string(80), "80");
    assert_eq!(decimal_string(65535), "65535");
    assert_eq!(decimal_string(4294967295), "4294967295");
}

#[test]
fn free_port_is_in_range() {
    for _ in 0..5 {
        let p = get_free_port().expect("the host has a free port");
        assert!(p >= 1);
    }
}

#[test]
fn token_is_sixteen_alphanumerics() {
    let t = random_token();
    assert!(is_token(&t), "{}", t);
}

#[test]
fn tokens_do_not_collide() {
    let a = random_token();
    let b = random_token();
    assert_ne!(a, b);
}

#[test]
fn copy_name_with_extension() {
    let n = copy_file_name("app", Some("exe"), "abcdEFGH01234567");
    assert_eq!(n, "SUBPROCESS_app_abcdEFGH01234567.exe");
}

#[test]
fn copy_name_without_extension() {
    let n = copy_file_name("app", None, "abcdEFGH01234567");
    assert_eq!(n, "SUBPROCESS_app_abcdEFGH01234567");
}

#[test]
fn copy_name_with_empty_extension() {
    let n = copy_file_name("app", Some(""), "abcdEFGH01234567");
    assert_eq!(n, "SUBPROCESS_app_abcdEFGH01234567.");
}

#[test]
fn destination_keeps_directory_and_extension() {
    let d = destination_for("/srv/bin/server.bin", "abcdEFGH01234567");
    assert_eq!(d, "/srv/bin/SUBPROCESS_server_abcdEFGH01234567.bin");
}

#[test]
fn destination_without_extension() {
    let d = destination_for("/bin/app", "ZZZZzzzz99999999");
    assert_eq!(d, "/bin/SUBPROCESS_app_ZZZZzzzz99999999");
}

#[test]
fn destination_uses_final_dot() {
    let d = destination_for("dir/app.tar.gz", "abcdEFGH01234567");
    assert_eq!(d, "dir/SUBPROCESS_app.tar_abcdEFGH01234567.gz");
}

#[test]
fn destination_of_hidden_file_has_no_extension() {
    let d = destination_for("/opt/.runner", "abcdEFGH01234567");
    assert_eq!(d, "/opt/SUBPROCESS_.runner_abcdEFGH01234567");
}

#[test]
fn plan_copy_names_copy_after_its_token() {
    let plan = plan_copy("/srv/bin/server.bin");
    assert_eq!(plan.source, "/srv/bin/server.bin");
    assert!(is_token(&plan.token));
    assert_eq!(
        plan.destination,
        format!("/srv/bin/SUBPROCESS_server_{}.bin", plan.token)
    );
}

#[test]
fn two_copy_plans_never_share_a_destination() {
    let a = plan_copy("/bin/app");
    let b = plan_copy("/bin/app");
    assert_ne!(a.destination, b.destination);
}

#[test]
fn address_of_instance() {
    assert_eq!(instance_address(8080), "http://localhost:8080");
    assert_eq!(instance_address(1), "http://localhost:1");
    assert_eq!(instance_address(65535), "http://localhost:65535");
}

#[test]
fn launch_plan_runs_copy_from_its_directory() {
    let plan = launch_plan("/srv/bin/SUBPROCESS_app_abcdEFGH01234567", 4242).unwrap();
    assert_eq!(plan.program, "/srv/bin/SUBPROCESS_app_abcdEFGH01234567");
    assert_eq!(plan.working_dir, "/srv/bin");
    assert_eq!(plan.port, 4242);
    assert_eq!(plan.port_arg, "4242");
    assert_eq!(plan.address, "http://localhost:4242");
}

#[test]
fn launch_plan_without_directory_is_spawn_error() {
    assert!(matches!(launch_plan("/", 4242), Err(ServiceError::Spawn)));
    assert!(matches!(launch_plan("", 4242), Err(ServiceError::Spawn)));
}

#[test]
fn prepare_launch_reports_the_allocated_port() {
    let plan = prepare_launch("/srv/bin/SUBPROCESS_app_abcdEFGH01234567").unwrap();
    assert!(plan.port >= 1);
    assert_eq!(plan.port_arg, plan.port.to_string());
    assert_eq!(plan.address, format!("http://localhost:{}", plan.port));
    assert_eq!(plan.working_dir, "/srv/bin");
}

#[test]
fn prepare_launch_without_directory_is_spawn_error() {
    assert!(matches!(prepare_launch("/"), Err(ServiceError::Spawn)));
}

#[test]
fn threshold_scenario_redirects_then_provisions() {
    let mut state = RouterState::new(
        "http://example.local/app".to_string(),
        "/srv/bin/server".to_string(),
    );
    assert_eq!(DEFAULT_THRESHOLD, 5);
    for n in 1..=5u64 {
        let d = state.on_request();
        assert_eq!(d.ticket, n);
        assert_eq!(target_of(&d.action).as_deref(), Some("http://example.local/app"));
    }
    let d = state.on_request();
    assert_eq!(d.ticket, 6);
    match d.action {
        Action::Provision(src) => assert_eq!(src, "/srv/bin/server"),
        Action::RedirectTo(t) => panic!("expected provisioning, got redirect to {}", t),
    }
    let reply = state.on_provisioned(Ok(instance_address(40123)));
    assert_eq!(reply.status(), 307);
    match reply {
        Reply::TemporaryRedirect(l) => assert_eq!(l, "http://localhost:40123"),
        Reply::Unavailable(e) => panic!("unexpected {:?}", e),
    }
}

#[test]
fn each_request_policy_provisions_every_time_past_threshold() {
    let mut state = RouterState::new("http://x".to_string(), "/bin/app".to_string());
    for _ in 0..5 {
        state.on_request();
    }
    for n in 6..=9u64 {
        let d = state.on_request();
        assert_eq!(d.ticket, n);
        assert!(matches!(d.action, Action::Provision(_)));
        state.on_provisioned(Ok(instance_address(5000 + n as u16)));
    }
    assert_eq!(state.target(), "http://x");
    assert_eq!(state.users(), 9);
}

#[test]
fn once_policy_switches_target_after_success() {
    let mut state = RouterState::with_policy(
        "http://x".to_string(),
        "/bin/app".to_string(),
        2,
        ScalePolicy::Once,
    );
    assert_eq!(target_of(&state.on_request().action).as_deref(), Some("http://x"));
    assert_eq!(target_of(&state.on_request().action).as_deref(), Some("http://x"));
    let d = state.on_request();
    assert!(matches!(d.action, Action::Provision(_)));
    state.on_provisioned(Ok("http://localhost:7001".to_string()));
    let d = state.on_request();
    assert_eq!(d.ticket, 4);
    assert_eq!(target_of(&d.action).as_deref(), Some("http://localhost:7001"));
    assert_eq!(state.target(), "http://localhost:7001");
}

#[test]
fn once_policy_keeps_target_after_failure() {
    let mut state = RouterState::with_policy(
        "http://x".to_string(),
        "/bin/app".to_string(),
        0,
        ScalePolicy::Once,
    );
    assert!(matches!(state.on_request().action, Action::Provision(_)));
    let reply = state.on_provisioned(Err(ServiceError::Copy));
    assert_eq!(reply.status(), 503);
    assert!(matches!(reply, Reply::Unavailable(ServiceError::Copy)));
    assert_eq!(target_of(&state.on_request().action).as_deref(), Some("http://x"));
}

#[test]
fn failed_provisioning_is_unavailable() {
    let mut state = RouterState::new("http://x".to_string(), "/bin/app".to_string());
    let reply = state.on_provisioned(Err(ServiceError::Spawn));
    assert_eq!(reply.status(), 503);
    assert!(matches!(reply, Reply::Unavailable(ServiceError::Spawn)));
    let reply = state.on_provisioned(Err(ServiceError::Allocation));
    assert!(matches!(reply, Reply::Unavailable(ServiceError::Allocation)));
}

#[test]
fn tickets_are_one_to_n_across_provisionings() {
    let mut state = RouterState::new("http://x".to_string(), "/bin/app".to_string());
    let mut seen = Vec::new();
    for i in 0..40u64 {
        let d = state.on_request();
        seen.push(d.ticket);
        if i % 3 == 0 {
            state.on_provisioned(Ok("http://localhost:9".to_string()));
        }
    }
    let expected: Vec<u64> = (1..=40).collect();
    assert_eq!(seen, expected);
}

#[test]
fn resolve_port_choices() {
    let p = resolve_port(0).expect("a free port");
    assert!(p >= 1);
    assert_eq!(resolve_port(80), Ok(80));
    assert_eq!(resolve_port(65535), Ok(65535));
    assert_eq!(resolve_port(65536), Err(ServiceError::Bind));
    assert_eq!(resolve_port(70000), Err(ServiceError::Bind));
}

#[test]
fn listen_address_on_every_interface() {
    assert_eq!(listen_address(80), "0.0.0.0:80");
    assert_eq!(listen_address(3000), "0.0.0.0:3000");
}

#[test]
fn setup_with_auto_port_reports_the_port() {
    let plan = plan_setup(0, "http://x".to_string(), "/bin/app".to_string()).unwrap();
    assert!(plan.port >= 1);
    assert_eq!(plan.address, format!("0.0.0.0:{}", plan.port));
    assert_eq!(plan.state.users(), 0);
    assert_eq!(plan.state.target(), "http://x");
}

#[test]
fn setup_with_requested_port() {
    let plan = plan_setup(8080, "http://x".to_string(), "/bin/app".to_string()).unwrap();
    assert_eq!(plan.port, 8080);
    assert_eq!(plan.address, "0.0.0.0:8080");
}

#[test]
fn setup_with_port_out_of_range_is_bind_error() {
    let r = plan_setup(70000, "http://x".to_string(), "/bin/app".to_string());
    assert!(matches!(r, Err(ServiceError::Bind)));
}

/// Stands for the listener: a port that is occupied cannot be bound.
fn stub_setup(port: u16, occupied: u16) -> Result<(), ServiceError> {
    if port == occupied {
        Err(ServiceError::Bind)
    } else {
        Ok(())
    }
}

#[test]
fn occupied_port_is_retried_on_a_free_one() {
    let first = stub_setup(80, 80);
    assert_eq!(first, Err(ServiceError::Bind));
    match after_first_attempt(&first) {
        SetupAttempt::RetryOn(p) => {
            assert!(p >= 1);
            assert_eq!(stub_setup(p, 80), Ok(()));
        }
        other => panic!("expected a retry, got {:?}", other),
    }
}

#[test]
fn successful_setup_is_not_retried() {
    assert_eq!(after_first_attempt(&Ok(())), SetupAttempt::Finished);
}

#[test]
fn port_from_reads_the_allocator_answer() {
    assert_eq!(port_from(Some(8080)), Ok(8080));
    assert_eq!(port_from(Some(1)), Ok(1));
    assert_eq!(port_from(Some(65535)), Ok(65535));
    assert_eq!(port_from(Some(0)), Err(ServiceError::Allocation));
    assert_eq!(port_from(None), Err(ServiceError::Allocation));
}

#[test]
fn copy_destination_file_name_is_the_copy_name() {
    let plan = plan_copy("/srv/bin/server.bin");
    let name = std::path::Path::new(&plan.destination)
        .file_name()
        .map(|n| n.to_string_lossy().into_owned());
    assert_eq!(name, Some(format!("SUBPROCESS_server_{}.bin", plan.token)));
}
