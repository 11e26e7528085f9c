use daemon_supervisor::probe::DaemonProbe;
use daemon_supervisor::status::{
    reconcile_daemon_exit, ChildExit, TcpDaemonState, TcpDaemonStatus,
};
use daemon_supervisor::shutdown::status_after_stop;
use daemon_supervisor::supervisor::{
    daemon_listen_port, daemon_spawn_args, listen_addr_unavailable_message,
    listener_pid_from_output, require_remote_backend_token, spawn_failure_message, spawned_status,
    start_probe_decision, status_probe_reconcile, StartProbeOutcome,
};

fn stopped_status() -> TcpDaemonStatus {
    TcpDaemonStatus {
        state: TcpDaemonState::Stopped,
        pid: None,
        started_at_ms: None,
        last_error: None,
        listen_addr: None,
    }
}

#[test]
fn start_requires_a_usable_token() {
    assert_eq!(require_remote_backend_token(Some("  tok  ")), Ok("tok".to_string()));
    assert_eq!(
        require_remote_backend_token(None),
        Err("Set a Remote backend token before starting mobile access daemon.".to_string())
    );
    assert_eq!(
        require_remote_backend_token(Some("   ")),
        Err("Set a Remote backend token before starting mobile access daemon.".to_string())
    );
}

#[test]
fn listen_port_errors_name_the_address() {
    assert_eq!(daemon_listen_port("0.0.0.0:4732"), Ok(4732));
    assert_eq!(
        daemon_listen_port("nonsense"),
        Err("Invalid daemon listen address: nonsense".to_string())
    );
}

#[test]
fn start_adopts_an_authenticated_daemon() {
    let prev = stopped_status();
    let probe = DaemonProbe::Running { auth_ok: true, auth_error: None };
    match start_probe_decision(&prev, &probe, Some(77), "0.0.0.0:4732") {
        StartProbeOutcome::Adopt { status, auth_failure } => {
            assert!(matches!(status.state, TcpDaemonState::Running));
            assert_eq!(status.pid, Some(77));
            assert_eq!(status.listen_addr.as_deref(), Some("0.0.0.0:4732"));
            assert_eq!(auth_failure, None);
        }
        other => panic!("expected adoption, got {other:?}"),
    }
}

#[test]
fn start_records_but_fails_an_unauthenticated_daemon() {
    let prev = stopped_status();
    let probe = DaemonProbe::Running {
        auth_ok: false,
        auth_error: Some("Daemon is running but requires a remote backend token.".to_string()),
    };
    match start_probe_decision(&prev, &probe, None, "0.0.0.0:4732") {
        StartProbeOutcome::Adopt { status, auth_failure } => {
            assert!(matches!(status.state, TcpDaemonState::Running));
            assert_eq!(
                status.last_error.as_deref(),
                Some("Daemon is running but requires a remote backend token.")
            );
            assert_eq!(
                auth_failure.as_deref(),
                Some("Daemon is running but requires a remote backend token.")
            );
        }
        other => panic!("expected adoption with an auth failure, got {other:?}"),
    }

    let silent = DaemonProbe::Running { auth_ok: false, auth_error: None };
    match start_probe_decision(&prev, &silent, None, "0.0.0.0:4732") {
        StartProbeOutcome::Adopt { auth_failure, .. } => {
            assert_eq!(
                auth_failure.as_deref(),
                Some("Daemon is already running but authentication failed.")
            );
        }
        other => panic!("expected adoption, got {other:?}"),
    }
}

#[test]
fn start_refuses_a_foreign_listener_without_spawning() {
    let prev = stopped_status();
    match start_probe_decision(&prev, &DaemonProbe::NotDaemon, None, "0.0.0.0:4732") {
        StartProbeOutcome::Conflict { message } => {
            assert_eq!(
                message,
                "Cannot start mobile access daemon because 0.0.0.0:4732 is already in use by \
                 another process."
            );
        }
        other => panic!("expected the conflict, got {other:?}"),
    }
    assert!(matches!(
        start_probe_decision(&prev, &DaemonProbe::NotReachable, None, "0.0.0.0:4732"),
        StartProbeOutcome::ProceedToSpawn
    ));
}

#[test]
fn preflight_and_spawn_failures_have_fixed_shapes() {
    assert_eq!(
        listen_addr_unavailable_message("0.0.0.0:4732", "address in use"),
        "Cannot start mobile access daemon because 0.0.0.0:4732 is unavailable: address in use"
    );
    assert!(listen_addr_unavailable_message("a", "b").contains("unavailable"));
    assert_eq!(
        spawn_failure_message("no such file"),
        "Failed to start mobile access daemon: no such file"
    );
}

#[test]
fn spawn_arguments_follow_the_contract() {
    let args = daemon_spawn_args("0.0.0.0:4732", "/data", "tok");
    assert_eq!(args, ["--listen", "0.0.0.0:4732", "--data-dir", "/data", "--token", "tok"]);
}

#[test]
fn second_start_keeps_pid_and_start_time() {
    // The first start spawned the daemon and recorded its status.
    let first = spawned_status(Some(42), 1111, "0.0.0.0:4732");
    assert!(matches!(first.state, TcpDaemonState::Running));
    assert_eq!(first.started_at_ms, Some(1111));

    // A second start first reconciles the owned handle, which still runs and
    // reports the same pid; the reconciled record is identical, and a start
    // that sees Running returns it unchanged without spawning.
    let reconciled = reconcile_daemon_exit(&first, &ChildExit::StillRunning { pid: Some(42) });
    assert!(matches!(reconciled.state, TcpDaemonState::Running));
    assert_eq!(reconciled.pid, first.pid);
    assert_eq!(reconciled.started_at_ms, first.started_at_ms);
    assert_eq!(reconciled.last_error, first.last_error);
    assert_eq!(reconciled.listen_addr, first.listen_addr);
}

#[test]
fn status_adopts_detects_and_keeps_quiet() {
    let prev = TcpDaemonStatus {
        state: TcpDaemonState::Stopped,
        pid: None,
        started_at_ms: None,
        last_error: None,
        listen_addr: Some("0.0.0.0:4732".to_string()),
    };
    let probe = DaemonProbe::Running { auth_ok: true, auth_error: None };
    let r = status_probe_reconcile(&prev, &probe, Some(8), "0.0.0.0:4732");
    assert!(matches!(r.state, TcpDaemonState::Running));
    assert_eq!(r.pid, Some(8));

    let r = status_probe_reconcile(&prev, &DaemonProbe::NotDaemon, Some(8), "0.0.0.0:4732");
    assert!(matches!(r.state, TcpDaemonState::Error));
    assert_eq!(
        r.last_error.as_deref(),
        Some("Configured daemon port 0.0.0.0:4732 is occupied by a non-daemon process.")
    );

    let r = status_probe_reconcile(&prev, &DaemonProbe::NotReachable, None, "0.0.0.0:4732");
    assert!(matches!(r.state, TcpDaemonState::Stopped));
    assert_eq!(r.listen_addr.as_deref(), Some("0.0.0.0:4732"));
}

#[test]
fn start_then_stop_round_trip_over_the_machines() {
    // A freshly freed port probes unreachable, so start proceeds to spawn and
    // records Running with a pid and a start time.
    let prev = stopped_status();
    assert!(matches!(
        start_probe_decision(&prev, &DaemonProbe::NotReachable, None, "0.0.0.0:4732"),
        StartProbeOutcome::ProceedToSpawn
    ));
    let started = spawned_status(Some(4242), 999, "0.0.0.0:4732");
    assert!(matches!(started.state, TcpDaemonState::Running));
    assert!(started.pid.is_some());
    assert!(started.started_at_ms.is_some());

    // The subsequent stop kills the owned child; the post-stop probe finds
    // the port unreachable, and the status comes back Stopped with no pid.
    let stopped = status_after_stop(&DaemonProbe::NotReachable, None, &started, None);
    assert!(matches!(stopped.state, TcpDaemonState::Stopped));
    assert_eq!(stopped.pid, None);
    assert_eq!(stopped.last_error, None);
}

#[test]
fn listener_pid_comes_from_the_first_numeric_line() {
    let lines = vec!["garbage".to_string(), "  314 ".to_string(), "200".to_string()];
    assert_eq!(listener_pid_from_output(true, &lines), Some(314));
    assert_eq!(listener_pid_from_output(false, &lines), None);
    assert_eq!(listener_pid_from_output(true, &vec![]), None);
    assert_eq!(listener_pid_from_output(true, &vec!["-1".to_string()]), None);
}
