use daemon_supervisor::probe::DaemonProbe;
use daemon_supervisor::rpc::{RpcMethod, RpcParams};
use daemon_supervisor::shutdown::{
    kill_start, kill_step, shutdown_rpc_step, status_after_stop, stop_error_after_escalation,
    stop_error_after_wait, stop_probe_decision, wait_shutdown_step, KillCmd, KillEvent, KillState,
    ShutdownRpcCmd, ShutdownRpcEvent, ShutdownRpcState, StopDecision, WaitStep,
    KILL_WAIT_POLLS, SHUTDOWN_WAIT_POLLS, TERM_WAIT_POLLS,
};
use daemon_supervisor::status::{TcpDaemonState, TcpDaemonStatus};

fn running_status() -> TcpDaemonStatus {
    TcpDaemonStatus {
        state: TcpDaemonState::Running,
        pid: Some(42),
        started_at_ms: Some(7),
        last_error: None,
        listen_addr: Some("0.0.0.0:4732".to_string()),
    }
}

#[test]
fn shutdown_conversation_happy_path() {
    let state = ShutdownRpcState::Connecting;
    let (state, cmd) = shutdown_rpc_step(&state, &ShutdownRpcEvent::Connected, None, "127.0.0.1:4732");
    assert!(matches!(
        cmd,
        ShutdownRpcCmd::Call { id: 1, method: RpcMethod::Ping, params: RpcParams::Empty }
    ));
    let ok = ShutdownRpcEvent::CallOutcome { outcome: Ok(()) };
    let (state, cmd) = shutdown_rpc_step(&state, &ok, None, "127.0.0.1:4732");
    assert!(matches!(
        cmd,
        ShutdownRpcCmd::Call { id: 3, method: RpcMethod::DaemonShutdown, params: RpcParams::Empty }
    ));
    let (state, _) = shutdown_rpc_step(&state, &ok, None, "127.0.0.1:4732");
    assert!(matches!(state, ShutdownRpcState::Done { result: Ok(()) }));
}

#[test]
fn shutdown_connect_failures_name_the_address() {
    let state = ShutdownRpcState::Connecting;
    let (done, _) =
        shutdown_rpc_step(&state, &ShutdownRpcEvent::ConnectTimedOut, None, "127.0.0.1:9");
    match done {
        ShutdownRpcState::Done { result: Err(m) } => {
            assert_eq!(m, "Timed out connecting to daemon at 127.0.0.1:9");
        }
        _ => panic!("expected a timeout error"),
    }
    let err = ShutdownRpcEvent::ConnectError { error: "refused".to_string() };
    let (done, _) = shutdown_rpc_step(&state, &err, None, "127.0.0.1:9");
    match done {
        ShutdownRpcState::Done { result: Err(m) } => {
            assert_eq!(m, "Failed to connect to daemon at 127.0.0.1:9: refused");
        }
        _ => panic!("expected a connect error"),
    }
}

#[test]
fn shutdown_authenticates_when_asked() {
    let state = ShutdownRpcState::Connecting;
    let (state, _) = shutdown_rpc_step(&state, &ShutdownRpcEvent::Connected, Some(" t "), "a");
    let unauthorized = ShutdownRpcEvent::CallOutcome { outcome: Err("unauthorized".to_string()) };
    let (state, cmd) = shutdown_rpc_step(&state, &unauthorized, Some(" t "), "a");
    match &cmd {
        ShutdownRpcCmd::Call { id: 2, method: RpcMethod::Auth, params: RpcParams::Token { token } } => {
            assert_eq!(token, "t");
        }
        other => panic!("expected the auth call, got {other:?}"),
    }
    let rejected = ShutdownRpcEvent::CallOutcome { outcome: Err("invalid token".to_string()) };
    let (done, _) = shutdown_rpc_step(&state, &rejected, Some(" t "), "a");
    match done {
        ShutdownRpcState::Done { result: Err(m) } => {
            assert_eq!(m, "Daemon authentication failed: invalid token");
        }
        _ => panic!("expected an authentication failure"),
    }
}

#[test]
fn shutdown_without_token_fails_on_auth_demand() {
    let state = ShutdownRpcState::Connecting;
    let (state, _) = shutdown_rpc_step(&state, &ShutdownRpcEvent::Connected, None, "a");
    let unauthorized = ShutdownRpcEvent::CallOutcome { outcome: Err("unauthorized".to_string()) };
    let (done, _) = shutdown_rpc_step(&state, &unauthorized, None, "a");
    match done {
        ShutdownRpcState::Done { result: Err(m) } => {
            assert_eq!(m, "Daemon is running but requires a remote backend token.");
        }
        _ => panic!("expected the missing-token failure"),
    }
}

#[test]
fn shutdown_failures_name_the_failed_step() {
    let ping_failed = ShutdownRpcEvent::CallOutcome { outcome: Err("garbled".to_string()) };
    let (done, _) = shutdown_rpc_step(&ShutdownRpcState::AwaitPing, &ping_failed, None, "a");
    match done {
        ShutdownRpcState::Done { result: Err(m) } => assert_eq!(m, "Daemon ping failed: garbled"),
        _ => panic!("expected the ping failure"),
    }
    let request_failed = ShutdownRpcEvent::CallOutcome { outcome: Err("nope".to_string()) };
    let (done, _) = shutdown_rpc_step(&ShutdownRpcState::AwaitShutdown, &request_failed, None, "a");
    match done {
        ShutdownRpcState::Done { result: Err(m) } => {
            assert_eq!(m, "Daemon shutdown request failed: nope");
        }
        _ => panic!("expected the request failure"),
    }
}

#[test]
fn escalation_runs_term_then_kill_then_gives_up() {
    let (mut state, cmd) = kill_start();
    assert!(matches!(cmd, KillCmd::SendTerm));
    let (next, cmd) = kill_step(&state, &KillEvent::SignalOk, 42);
    assert!(matches!(cmd, KillCmd::CheckAlive));
    state = next;
    // The process never dies: all graceful polls are spent.
    let mut sent_kill = false;
    for _ in 0..TERM_WAIT_POLLS {
        let (next, cmd) = kill_step(&state, &KillEvent::Alive, 42);
        state = next;
        if matches!(cmd, KillCmd::SendKill) {
            sent_kill = true;
            break;
        }
    }
    assert!(sent_kill, "the graceful budget must end in the forced signal");
    let (next, _) = kill_step(&state, &KillEvent::SignalOk, 42);
    state = next;
    let mut gave_up = None;
    for _ in 0..KILL_WAIT_POLLS {
        let (next, _) = kill_step(&state, &KillEvent::Alive, 42);
        state = next;
        if let KillState::Done { result } = &state {
            gave_up = Some(result.clone());
            break;
        }
    }
    match gave_up {
        Some(Err(m)) => assert_eq!(m, "Daemon process 42 is still running."),
        other => panic!("expected the final error, got {other:?}"),
    }
}

#[test]
fn escalation_stops_as_soon_as_the_process_is_gone() {
    let (state, _) = kill_start();
    let (state, _) = kill_step(&state, &KillEvent::SignalOk, 7);
    let (done, _) = kill_step(&state, &KillEvent::Gone, 7);
    assert!(matches!(done, KillState::Done { result: Ok(()) }));

    let (state, _) = kill_start();
    let (done, _) = kill_step(&state, &KillEvent::SignalNoProcess, 7);
    assert!(matches!(done, KillState::Done { result: Ok(()) }));
}

#[test]
fn escalation_signal_errors_name_the_pid() {
    let (state, _) = kill_start();
    let err = KillEvent::SignalError { error: "EPERM".to_string() };
    let (done, _) = kill_step(&state, &err, 42);
    match done {
        KillState::Done { result: Err(m) } => {
            assert_eq!(m, "Failed to stop daemon process 42: EPERM");
        }
        _ => panic!("expected the graceful-signal error"),
    }
    let err = KillEvent::SignalError { error: "EPERM".to_string() };
    let (done, _) = kill_step(&KillState::KillSent, &err, 42);
    match done {
        KillState::Done { result: Err(m) } => {
            assert_eq!(m, "Failed to force-stop daemon process 42: EPERM");
        }
        _ => panic!("expected the forced-signal error"),
    }
}

#[test]
fn wait_for_shutdown_counts_down_and_reports() {
    assert!(matches!(
        wait_shutdown_step(SHUTDOWN_WAIT_POLLS, &DaemonProbe::NotReachable),
        WaitStep::Finished { stopped: true }
    ));
    let still = DaemonProbe::Running { auth_ok: true, auth_error: None };
    assert!(matches!(
        wait_shutdown_step(5, &still),
        WaitStep::Continue { polls_left: 4 }
    ));
    assert!(matches!(wait_shutdown_step(1, &still), WaitStep::Finished { stopped: false }));
}

#[test]
fn stop_refuses_foreign_listeners() {
    match stop_probe_decision(&DaemonProbe::NotDaemon, 4545) {
        StopDecision::Conflict { message } => {
            assert_eq!(message, "Port 4545 is in use by a non-daemon process; refusing to stop it.");
        }
        _ => panic!("a foreign listener must be a conflict"),
    }
    assert!(matches!(
        stop_probe_decision(&DaemonProbe::Running { auth_ok: true, auth_error: None }, 1),
        StopDecision::RequestShutdown
    ));
    assert!(matches!(
        stop_probe_decision(&DaemonProbe::NotReachable, 1),
        StopDecision::NothingRunning
    ));
}

#[test]
fn escalation_outcome_combines_stop_errors() {
    assert_eq!(stop_error_after_escalation("rpc failed", &None).as_deref(), Some("rpc failed"));
    assert_eq!(stop_error_after_escalation("rpc failed", &Some(Ok(()))), None);
    assert_eq!(
        stop_error_after_escalation("rpc failed", &Some(Err("kill failed".to_string()))).as_deref(),
        Some("rpc failed; kill failed")
    );
}

#[test]
fn unacknowledged_shutdown_is_reported_as_inconsistency() {
    assert_eq!(stop_error_after_wait(true), None);
    assert_eq!(
        stop_error_after_wait(false).as_deref(),
        Some("Daemon acknowledged shutdown but is still reachable.")
    );
}

#[test]
fn stopping_when_already_stopped_returns_stopped_without_error() {
    let prev = running_status();
    let status = status_after_stop(&DaemonProbe::NotReachable, None, &prev, None);
    assert!(matches!(status.state, TcpDaemonState::Stopped));
    assert_eq!(status.pid, None);
    assert_eq!(status.started_at_ms, None);
    assert_eq!(status.last_error, None);
    assert_eq!(status.listen_addr.as_deref(), Some("0.0.0.0:4732"));
}

#[test]
fn still_reachable_after_stop_is_an_error_status() {
    let prev = running_status();
    let probe = DaemonProbe::Running { auth_ok: true, auth_error: None };
    let status = status_after_stop(&probe, Some(42), &prev, Some("rpc failed".to_string()));
    assert!(matches!(status.state, TcpDaemonState::Error));
    assert_eq!(status.pid, Some(42));
    assert_eq!(status.last_error.as_deref(), Some("rpc failed"));

    let unauth = DaemonProbe::Running { auth_ok: false, auth_error: Some("token?".to_string()) };
    let status = status_after_stop(&unauth, Some(42), &prev, None);
    assert_eq!(status.last_error.as_deref(), Some("token?"));

    let silent = DaemonProbe::Running { auth_ok: true, auth_error: None };
    let status = status_after_stop(&silent, None, &prev, None);
    assert_eq!(status.last_error.as_deref(), Some("Daemon is still running after stop attempt."));
}

#[test]
fn foreign_listener_after_stop_is_an_error_status() {
    let prev = running_status();
    let status = status_after_stop(&DaemonProbe::NotDaemon, Some(9), &prev, None);
    assert!(matches!(status.state, TcpDaemonState::Error));
    assert_eq!(
        status.last_error.as_deref(),
        Some("Configured port is now occupied by a non-daemon process.")
    );
}
