//! Status records for the two supervised processes and the reconciliation of
//! an owned child handle's exit state into them.

use vstd::prelude::*;
use vstd::string::*;

verus! {

#[derive(Clone, Copy, Debug, PartialEq, Eq, Structural)]
pub enum TcpDaemonState {
    Stopped,
    Running,
    Error,
}

/// The daemon supervisor's status snapshot, replaced wholesale on every
/// transition.
#[derive(Clone, Debug)]
pub struct TcpDaemonStatus {
    pub state: TcpDaemonState,
    pub pid: Option<u32>,
    pub started_at_ms: Option<i64>,
    pub last_error: Option<String>,
    pub listen_addr: Option<String>,
}

/// The mathematical value of a daemon status record.
pub ghost struct StatusView {
    pub state: TcpDaemonState,
    pub pid: Option<u32>,
    pub started_at_ms: Option<i64>,
    pub last_error: Option<Seq<char>>,
    pub listen_addr: Option<Seq<char>>,
}

impl View for TcpDaemonStatus {
    type V = StatusView;

    open spec fn view(&self) -> StatusView {
        StatusView {
            state: self.state,
            pid: self.pid,
            started_at_ms: self.started_at_ms,
            last_error: self.last_error.deep_view(),
            listen_addr: self.listen_addr.deep_view(),
        }
    }
}

#[derive(Clone, Copy, Debug, PartialEq, Eq, Structural)]
pub enum OrbitRunnerState {
    Stopped,
    Running,
    Error,
}

/// The runner supervisor's status snapshot: the same shape as the daemon's,
/// with a remote endpoint URL in place of a listen address.
#[derive(Clone, Debug)]
pub struct OrbitRunnerStatus {
    pub state: OrbitRunnerState,
    pub pid: Option<u32>,
    pub started_at_ms: Option<i64>,
    pub last_error: Option<String>,
    pub orbit_url: Option<String>,
}

/// The mathematical value of a runner status record.
pub ghost struct RunnerView {
    pub state: OrbitRunnerState,
    pub pid: Option<u32>,
    pub started_at_ms: Option<i64>,
    pub last_error: Option<Seq<char>>,
    pub orbit_url: Option<Seq<char>>,
}

impl View for OrbitRunnerStatus {
    type V = RunnerView;

    open spec fn view(&self) -> RunnerView {
        RunnerView {
            state: self.state,
            pid: self.pid,
            started_at_ms: self.started_at_ms,
            last_error: self.last_error.deep_view(),
            orbit_url: self.orbit_url.deep_view(),
        }
    }
}

/// A Running status that already records a listen address: the one case in
/// which the address is sticky and reconfiguration does not touch it.
pub open spec fn keeps_listen_addr(v: StatusView) -> bool {
    v.state == TcpDaemonState::Running && v.listen_addr is Some
}

/// Writes the configured listen address into `status` unless the daemon is
/// Running with an address already recorded: once Running, the address is
/// sticky until the daemon stops.
pub fn sync_tcp_daemon_listen_addr(status: &mut TcpDaemonStatus, configured_listen_addr: &str)
    ensures
        keeps_listen_addr(old(status)@) ==> final(status)@ == old(status)@,
        !keeps_listen_addr(old(status)@) ==> final(status)@ == (StatusView {
            listen_addr: Some(configured_listen_addr@),
            ..old(status)@
        }),
{
    if matches!(status.state, TcpDaemonState::Running) && status.listen_addr.is_some() {
        return ;
    }
    status.listen_addr = Some(String::from_str(configured_listen_addr));
}

/// Writes the configured endpoint URL into a runner status that has none.
pub fn sync_runner_orbit_url(status: &mut OrbitRunnerStatus, configured: Option<String>)
    ensures
        old(status)@.orbit_url is Some ==> final(status)@ == old(status)@,
        old(status)@.orbit_url is None ==> final(status)@ == (RunnerView {
            orbit_url: configured.deep_view(),
            ..old(status)@
        }),
{
    if status.orbit_url.is_none() {
        status.orbit_url = configured;
    }
}

/// What a non-blocking exit check of an owned child handle yielded.
#[derive(Debug)]
pub enum ChildExit {
    StillRunning { pid: Option<u32> },
    Exited { pid: Option<u32>, success: bool, code: Option<i32>, status_text: String },
    CheckFailed { pid: Option<u32>, error: String },
}

/// The hint appended to an exit-failure message for exit codes with a known
/// reading; code 101 is the abort-on-panic convention, which for this daemon
/// usually means its listen port was already taken.
pub open spec fn exit_hint_spec(code: Option<i32>) -> Seq<char> {
    if code == Some(101i32) {
        " This usually indicates a startup panic (often due to an unavailable listen port)."@
    } else {
        Seq::empty()
    }
}

pub fn exit_failure_hint(code: Option<i32>) -> (r: String)
    ensures
        r@ == exit_hint_spec(code),
{
    match code {
        Some(c) if c == 101 => String::from_str(
            " This usually indicates a startup panic (often due to an unavailable listen port).",
        ),
        _ => String::new(),
    }
}

/// The daemon status after reconciling an owned handle's exit check: still
/// running refreshes the pid and clears the error; a clean exit yields
/// Stopped with pid and start time cleared; a failed exit yields Error with
/// the exit status and hint recorded; a failed check yields Error wrapping
/// the inspection failure.
pub fn reconcile_daemon_exit(prev: &TcpDaemonStatus, exit: &ChildExit) -> (r: TcpDaemonStatus)
    ensures
        (*exit) matches ChildExit::StillRunning { pid } ==> r@ == (StatusView {
            state: TcpDaemonState::Running,
            pid: pid,
            last_error: None,
            ..prev@
        }),
        (*exit) matches ChildExit::Exited { pid, success: true, .. } ==> r@ == (StatusView {
            state: TcpDaemonState::Stopped,
            pid: None,
            started_at_ms: None,
            last_error: None,
            listen_addr: prev@.listen_addr,
        }),
        (*exit) matches ChildExit::Exited { pid, success: false, code, status_text } ==> r@
            == (StatusView {
            state: TcpDaemonState::Error,
            pid: pid,
            started_at_ms: prev@.started_at_ms,
            last_error: Some(
                "Daemon exited with status: "@ + status_text@ + "."@ + exit_hint_spec(code),
            ),
            listen_addr: prev@.listen_addr,
        }),
        (*exit) matches ChildExit::CheckFailed { pid, error } ==> r@ == (StatusView {
            state: TcpDaemonState::Error,
            pid: pid,
            started_at_ms: prev@.started_at_ms,
            last_error: Some("Failed to inspect daemon process: "@ + error@),
            listen_addr: prev@.listen_addr,
        }),
{
    match exit {
        ChildExit::StillRunning { pid } => TcpDaemonStatus {
            state: TcpDaemonState::Running,
            pid: *pid,
            last_error: None,
            started_at_ms: prev.started_at_ms,
            listen_addr: prev.listen_addr.clone(),
        },
        ChildExit::Exited { pid, success, code, status_text } => {
            if *success {
                TcpDaemonStatus {
                    state: TcpDaemonState::Stopped,
                    pid: None,
                    started_at_ms: None,
                    last_error: None,
                    listen_addr: prev.listen_addr.clone(),
                }
            } else {
                let mut msg = String::from_str("Daemon exited with status: ");
                msg.append(status_text.as_str());
                msg.append(".");
                let hint = exit_failure_hint(*code);
                msg.append(hint.as_str());
                TcpDaemonStatus {
                    state: TcpDaemonState::Error,
                    pid: *pid,
                    started_at_ms: prev.started_at_ms,
                    last_error: Some(msg),
                    listen_addr: prev.listen_addr.clone(),
                }
            }
        },
        ChildExit::CheckFailed { pid, error } => {
            let mut msg = String::from_str("Failed to inspect daemon process: ");
            msg.append(error.as_str());
            TcpDaemonStatus {
                state: TcpDaemonState::Error,
                pid: *pid,
                started_at_ms: prev.started_at_ms,
                last_error: Some(msg),
                listen_addr: prev.listen_addr.clone(),
            }
        },
    }
}

/// The daemon status when no child handle is owned: Stopped with no pid, the
/// rest of the record kept.
pub fn reconcile_daemon_no_child(prev: &TcpDaemonStatus) -> (r: TcpDaemonStatus)
    ensures
        r@ == (StatusView { state: TcpDaemonState::Stopped, pid: None, ..prev@ }),
{
    TcpDaemonStatus {
        state: TcpDaemonState::Stopped,
        pid: None,
        started_at_ms: prev.started_at_ms,
        last_error: prev.last_error.clone(),
        listen_addr: prev.listen_addr.clone(),
    }
}

/// The runner's reconciliation of an owned handle's exit check: the same rule
/// as the daemon's, without the exit-code hint.
pub fn reconcile_runner_exit(prev: &OrbitRunnerStatus, exit: &ChildExit) -> (r: OrbitRunnerStatus)
    ensures
        (*exit) matches ChildExit::StillRunning { pid } ==> r@ == (RunnerView {
            state: OrbitRunnerState::Running,
            pid: pid,
            last_error: None,
            ..prev@
        }),
        (*exit) matches ChildExit::Exited { pid, success: true, .. } ==> r@ == (RunnerView {
            state: OrbitRunnerState::Stopped,
            pid: None,
            started_at_ms: None,
            last_error: None,
            orbit_url: prev@.orbit_url,
        }),
        (*exit) matches ChildExit::Exited { pid, success: false, code, status_text } ==> r@
            == (RunnerView {
            state: OrbitRunnerState::Error,
            pid: pid,
            started_at_ms: prev@.started_at_ms,
            last_error: Some("Runner exited with status: "@ + status_text@),
            orbit_url: prev@.orbit_url,
        }),
        (*exit) matches ChildExit::CheckFailed { pid, error } ==> r@ == (RunnerView {
            state: OrbitRunnerState::Error,
            pid: pid,
            started_at_ms: prev@.started_at_ms,
            last_error: Some("Failed to inspect runner process: "@ + error@),
            orbit_url: prev@.orbit_url,
        }),
{
    match exit {
        ChildExit::StillRunning { pid } => OrbitRunnerStatus {
            state: OrbitRunnerState::Running,
            pid: *pid,
            last_error: None,
            started_at_ms: prev.started_at_ms,
            orbit_url: prev.orbit_url.clone(),
        },
        ChildExit::Exited { pid, success, code: _, status_text } => {
            if *success {
                OrbitRunnerStatus {
                    state: OrbitRunnerState::Stopped,
                    pid: None,
                    started_at_ms: None,
                    last_error: None,
                    orbit_url: prev.orbit_url.clone(),
                }
            } else {
                let mut msg = String::from_str("Runner exited with status: ");
                msg.append(status_text.as_str());
                OrbitRunnerStatus {
                    state: OrbitRunnerState::Error,
                    pid: *pid,
                    started_at_ms: prev.started_at_ms,
                    last_error: Some(msg),
                    orbit_url: prev.orbit_url.clone(),
                }
            }
        },
        ChildExit::CheckFailed { pid, error } => {
            let mut msg = String::from_str("Failed to inspect runner process: ");
            msg.append(error.as_str());
            OrbitRunnerStatus {
                state: OrbitRunnerState::Error,
                pid: *pid,
                started_at_ms: prev.started_at_ms,
                last_error: Some(msg),
                orbit_url: prev.orbit_url.clone(),
            }
        },
    }
}

/// The runner status when no child handle is owned.
pub fn reconcile_runner_no_child(prev: &OrbitRunnerStatus) -> (r: OrbitRunnerStatus)
    ensures
        r@ == (RunnerView { state: OrbitRunnerState::Stopped, pid: None, ..prev@ }),
{
    OrbitRunnerStatus {
        state: OrbitRunnerState::Stopped,
        pid: None,
        started_at_ms: prev.started_at_ms,
        last_error: prev.last_error.clone(),
        orbit_url: prev.orbit_url.clone(),
    }
}

/// Relies on `std::time::SystemTime::now`: reads the wall clock as
/// milliseconds since the Unix epoch, zero when the clock reads before it;
/// nothing is assumed of the value.
#[verifier::external_body]
pub fn now_unix_ms() -> i64 {
    std::time::SystemTime::now().duration_since(std::time::UNIX_EPOCH).map(
        |duration| duration.as_millis() as i64,
    ).unwrap_or(0)
}

} // verus!
