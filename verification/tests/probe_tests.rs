use daemon_supervisor::probe::{
    is_auth_error_message, probe_start, probe_step, DaemonProbe, ProbeCmd, ProbeEvent, ProbeState,
};
use daemon_supervisor::rpc::{RpcMethod, RpcParams};

#[test]
fn auth_error_sniffing_matches_pinned_triggers() {
    assert!(is_auth_error_message("unauthorized"));
    assert!(is_auth_error_message("Request was UNAUTHORIZED today"));
    assert!(is_auth_error_message("token check: Invalid Token supplied"));
    assert!(!is_auth_error_message("invalid  token"));
    assert!(!is_auth_error_message("connection refused"));
    assert!(!is_auth_error_message(""));
}

#[test]
fn closed_port_probes_as_unreachable() {
    let (state, cmd) = probe_start();
    assert!(matches!(cmd, ProbeCmd::Connect));
    let (done, cmd) = probe_step(&state, &ProbeEvent::ConnectFailed, None);
    assert!(matches!(cmd, ProbeCmd::Finish));
    match done {
        ProbeState::Done { probe: DaemonProbe::NotReachable } => {}
        _ => panic!("a refused connection must classify as NotReachable"),
    }
}

#[test]
fn cooperating_daemon_answers_first_ping() {
    let (state, _) = probe_start();
    let (state, cmd) = probe_step(&state, &ProbeEvent::Connected, None);
    match &cmd {
        ProbeCmd::Call { id: 1, method: RpcMethod::Ping, params: RpcParams::Empty } => {}
        other => panic!("expected the first ping, got {other:?}"),
    }
    let (done, _) = probe_step(&state, &ProbeEvent::CallOutcome { outcome: Ok(()) }, None);
    match done {
        ProbeState::Done { probe: DaemonProbe::Running { auth_ok: true, auth_error: None } } => {}
        _ => panic!("a successful ping must classify as authenticated Running"),
    }
}

#[test]
fn foreign_listener_probes_as_not_daemon() {
    let (state, _) = probe_start();
    let (state, _) = probe_step(&state, &ProbeEvent::Connected, None);
    // A listener that answers with valid JSON of an unrelated schema makes
    // the call fail with the missing-result protocol violation, which is no
    // authorization error.
    let event = ProbeEvent::CallOutcome { outcome: Err("daemon response missing result".to_string()) };
    let (done, _) = probe_step(&state, &event, Some("token"));
    match done {
        ProbeState::Done { probe: DaemonProbe::NotDaemon } => {}
        _ => panic!("a non-protocol listener must classify as NotDaemon"),
    }
}

#[test]
fn auth_flow_reaches_authenticated_running() {
    let (state, _) = probe_start();
    let (state, _) = probe_step(&state, &ProbeEvent::Connected, Some("  secret  "));
    let unauthorized = ProbeEvent::CallOutcome { outcome: Err("unauthorized".to_string()) };
    let (state, cmd) = probe_step(&state, &unauthorized, Some("  secret  "));
    match &cmd {
        ProbeCmd::Call { id: 2, method: RpcMethod::Auth, params: RpcParams::Token { token } } => {
            assert_eq!(token, "secret");
        }
        other => panic!("expected the auth call with the trimmed token, got {other:?}"),
    }
    let (state, cmd) = probe_step(&state, &ProbeEvent::CallOutcome { outcome: Ok(()) }, None);
    match &cmd {
        ProbeCmd::Call { id: 3, method: RpcMethod::Ping, params: RpcParams::Empty } => {}
        other => panic!("expected the re-ping, got {other:?}"),
    }
    let (done, _) = probe_step(&state, &ProbeEvent::CallOutcome { outcome: Ok(()) }, None);
    match done {
        ProbeState::Done { probe: DaemonProbe::Running { auth_ok: true, auth_error: None } } => {}
        _ => panic!("an accepted token must classify as authenticated Running"),
    }
}

#[test]
fn missing_token_stops_before_auth() {
    let (state, _) = probe_start();
    let (state, _) = probe_step(&state, &ProbeEvent::Connected, None);
    let unauthorized = ProbeEvent::CallOutcome { outcome: Err("unauthorized".to_string()) };
    let (done, _) = probe_step(&state, &unauthorized, Some("   "));
    match done {
        ProbeState::Done { probe: DaemonProbe::Running { auth_ok: false, auth_error: Some(e) } } => {
            assert_eq!(e, "Daemon is running but requires a remote backend token.");
        }
        _ => panic!("a blank token must end the probe unauthenticated"),
    }
}

#[test]
fn rejected_token_is_running_unauthenticated() {
    let (state, _) = probe_start();
    let (state, _) = probe_step(&state, &ProbeEvent::Connected, Some("tok"));
    let unauthorized = ProbeEvent::CallOutcome { outcome: Err("unauthorized".to_string()) };
    let (state, _) = probe_step(&state, &unauthorized, Some("tok"));
    let rejected = ProbeEvent::CallOutcome { outcome: Err("invalid token".to_string()) };
    let (done, _) = probe_step(&state, &rejected, Some("tok"));
    match done {
        ProbeState::Done { probe: DaemonProbe::Running { auth_ok: false, auth_error: Some(e) } } => {
            assert_eq!(e, "Daemon is running but token authentication failed: invalid token");
        }
        _ => panic!("a rejected token must stay classified Running"),
    }
}

#[test]
fn strange_auth_failure_is_not_daemon() {
    let (state, _) = probe_start();
    let (state, _) = probe_step(&state, &ProbeEvent::Connected, Some("tok"));
    let unauthorized = ProbeEvent::CallOutcome { outcome: Err("unauthorized".to_string()) };
    let (state, _) = probe_step(&state, &unauthorized, Some("tok"));
    let odd = ProbeEvent::CallOutcome { outcome: Err("unexpected method".to_string()) };
    let (done, _) = probe_step(&state, &odd, Some("tok"));
    assert!(matches!(done, ProbeState::Done { probe: DaemonProbe::NotDaemon }));
}

#[test]
fn failed_reping_keeps_running_with_detail() {
    let (state, _) = probe_start();
    let (state, _) = probe_step(&state, &ProbeEvent::Connected, Some("tok"));
    let unauthorized = ProbeEvent::CallOutcome { outcome: Err("unauthorized".to_string()) };
    let (state, _) = probe_step(&state, &unauthorized, Some("tok"));
    let (state, _) = probe_step(&state, &ProbeEvent::CallOutcome { outcome: Ok(()) }, Some("tok"));
    let failed = ProbeEvent::CallOutcome { outcome: Err("timed out waiting for daemon response".to_string()) };
    let (done, _) = probe_step(&state, &failed, Some("tok"));
    match done {
        ProbeState::Done { probe: DaemonProbe::Running { auth_ok: false, auth_error: Some(e) } } => {
            assert_eq!(
                e,
                "Daemon is running but ping failed after auth: timed out waiting for daemon response"
            );
        }
        _ => panic!("a failed re-ping must stay classified Running"),
    }
}
