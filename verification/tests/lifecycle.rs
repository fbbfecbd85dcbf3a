use vagent::{Agent, AgentError, KillOutcome, SpawnCommand, SpawnOutcome, State};

/// Runs a spawn command the way an embedding runtime would: spawn the
/// program with its arguments and environment, and report what it came to.
fn run_spawn(cmd: &SpawnCommand) -> SpawnOutcome {
    let rt = tokio::runtime::Builder::new_current_thread()
        .enable_all()
        .build()
        .unwrap();
    rt.block_on(async {
        let mut command = tokio::process::Command::new(&cmd.program);
        command.args(&cmd.args);
        for (name, value) in &cmd.env {
            command.env(name, value);
        }
        match command.spawn() {
            Ok(mut child) => match child.id() {
                Some(pid) => SpawnOutcome::Spawned { pid },
                None => match child.wait().await {
                    Ok(status) => SpawnOutcome::NoPid {
                        status: format!("{:?}", status),
                    },
                    Err(e) => SpawnOutcome::Failed {
                        message: e.to_string(),
                    },
                },
            },
            Err(e) => SpawnOutcome::Failed {
                message: e.to_string(),
            },
        }
    })
}

#[test]
fn create_empty_is_blank_and_off() {
    let a = Agent::create_empty();
    assert_eq!(a.agent_path.as_str(), "");
    assert_eq!(a.endpoint.as_str(), "");
    assert_eq!(a.debug.as_str(), "");
    assert_eq!(a.backends.as_str(), "");
    assert_eq!(a.backends_library.as_str(), "");
    assert_eq!(a.state, State::OFF);
}

#[test]
fn create_stores_config_and_is_off() {
    let a = Agent::create(
        "/bin/agent".to_string(),
        "unix://x_1".to_string(),
        "3".to_string(),
        "one,two".to_string(),
        "/usr/lib/".to_string(),
    );
    assert_eq!(a.agent_path.as_str(), "/bin/agent");
    assert_eq!(a.endpoint.as_str(), "unix://x_1");
    assert_eq!(a.debug.as_str(), "3");
    assert_eq!(a.backends.as_str(), "one,two");
    assert_eq!(a.backends_library.as_str(), "/usr/lib/");
    assert_eq!(a.state, State::OFF);
}

#[test]
fn stop_on_fresh_agent_succeeds_without_signalling() {
    let mut a = Agent::create_empty();
    assert!(a.stop().is_ok());
    assert_eq!(a.state, State::OFF);
}

#[test]
fn stop_on_patched_agent_succeeds() {
    let mut a = Agent::create_empty();
    let patched = a.patch(
        "/bin/agent".to_string(),
        "vsock://2:5000".to_string(),
        "1".to_string(),
        "noop".to_string(),
        "/lib/".to_string(),
    );
    assert!(patched.is_ok());
    assert_eq!(a.state, State::OFF);
    assert_eq!(a.endpoint.as_str(), "vsock://2:5000");
    assert!(a.stop().is_ok());
    assert_eq!(a.state, State::OFF);
}

#[test]
fn start_command_is_exact() {
    let a = Agent::create(
        "/bin/agent".to_string(),
        "unix://x_1".to_string(),
        "3".to_string(),
        "one,two".to_string(),
        "/usr/lib/".to_string(),
    );
    let cmd = a.start_command();
    assert_eq!(cmd.program.as_str(), "/bin/agent");
    assert_eq!(cmd.args, vec!["-a".to_string(), "unix://x_1".to_string()]);
    assert_eq!(
        cmd.env,
        vec![
            ("VACCEL_DEBUG_LEVEL".to_string(), "3".to_string()),
            (
                "VACCEL_BACKENDS".to_string(),
                "/usr/lib/libvaccel-one.so:/usr/lib/libvaccel-two.so".to_string()
            ),
        ]
    );
}

#[test]
fn backends_path_single_and_empty() {
    assert_eq!(
        vagent::backends::build_backends_path("/l/", "b"),
        "/l/libvaccel-b.so"
    );
    // An empty backend list still yields one (empty-named) entry, as the
    // comma split of the empty string holds one empty element.
    assert_eq!(
        vagent::backends::build_backends_path("/l/", ""),
        "/l/libvaccel-.so"
    );
    assert_eq!(
        vagent::backends::build_backends_path("", "x,y,z"),
        "libvaccel-x.so:libvaccel-y.so:libvaccel-z.so"
    );
}

#[test]
fn spawn_failure_on_missing_program_leaves_state_off() {
    let mut a = Agent::create(
        "/no/such/binary/anywhere".to_string(),
        "unix://x_1".to_string(),
        "0".to_string(),
        "noop".to_string(),
        "/lib/".to_string(),
    );
    let outcome = run_spawn(&a.start_command());
    assert!(matches!(outcome, SpawnOutcome::Failed { .. }));
    let r = a.apply_spawn_outcome(outcome);
    assert!(matches!(r, Err(AgentError::SpawnFailure { .. })));
    assert_eq!(a.state, State::OFF);
}

#[test]
fn start_then_stop_twice_is_idempotent() {
    let mut a = Agent::create(
        "/bin/sleep".to_string(),
        "30".to_string(),
        "0".to_string(),
        "noop".to_string(),
        "/lib/".to_string(),
    );
    let outcome = run_spawn(&a.start_command());
    let pid = match outcome {
        SpawnOutcome::Spawned { pid } => pid,
        _ => panic!("spawning /bin/sleep must yield a tracked process"),
    };
    assert!(a.apply_spawn_outcome(SpawnOutcome::Spawned { pid }).is_ok());
    assert_eq!(a.state, State::ON { pid });
    // First stop signals the process (or finds it already gone) and resets
    // the state; the second stop is a successful no-op.
    assert!(a.stop().is_ok());
    assert_eq!(a.state, State::OFF);
    assert!(a.stop().is_ok());
    assert_eq!(a.state, State::OFF);
}

#[test]
fn no_pid_outcome_is_a_spawn_failure() {
    let mut a = Agent::create_empty();
    let r = a.apply_spawn_outcome(SpawnOutcome::NoPid {
        status: "exit status: 1".to_string(),
    });
    match r {
        Err(AgentError::SpawnFailure { detail }) => assert_eq!(detail.as_str(), "exit status: 1"),
        _ => panic!("an untrackable child must be a spawn failure"),
    }
    assert_eq!(a.state, State::OFF);
}

#[test]
fn failed_signal_surfaces_pid_and_errno() {
    let mut a = Agent::create_empty();
    assert!(a
        .apply_spawn_outcome(SpawnOutcome::Spawned { pid: 4242 })
        .is_ok());
    let r = a.apply_stop_outcome(4242, KillOutcome::Failed { errno: 1 });
    match r {
        Err(AgentError::SignalFailure { pid, errno }) => {
            assert_eq!(pid, 4242);
            assert_eq!(errno, 1);
        }
        _ => panic!("a failed delivery must surface as a signal failure"),
    }
    assert_eq!(a.state, State::ON { pid: 4242 });
}

#[test]
fn stop_outcome_already_gone_counts_as_success() {
    let mut a = Agent::create_empty();
    assert!(a
        .apply_spawn_outcome(SpawnOutcome::Spawned { pid: 4242 })
        .is_ok());
    assert!(a.apply_stop_outcome(4242, KillOutcome::NoSuchProcess).is_ok());
    assert_eq!(a.state, State::OFF);
}
