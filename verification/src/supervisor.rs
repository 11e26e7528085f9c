//! The daemon lifecycle supervisor's decisions for `start` and `status`:
//! token and address validation, adopting or refusing what a probe found,
//! the spawn argument vector, and the status recorded after a spawn.

use vstd::prelude::*;
use vstd::string::*;

use crate::probe::DaemonProbe;
use crate::status::{StatusView, TcpDaemonState, TcpDaemonStatus};
use crate::text::{trim_spec, trim_to_non_empty, usable_value};

verus! {

/// The trimmed remote backend token, or the fixed error asking for one: the
/// daemon is never started without a token to hand it.
pub fn require_remote_backend_token(token: Option<&str>) -> (r: Result<String, String>)
    ensures
        usable_value(token) ==> (r is Ok && (r->Ok_0)@ == trim_spec((token->Some_0)@)),
        !usable_value(token) ==> (r is Err && (r->Err_0)@
            == "Set a Remote backend token before starting mobile access daemon."@),
{
    match trim_to_non_empty(token) {
        Some(t) => Ok(t),
        None => Err(
            String::from_str("Set a Remote backend token before starting mobile access daemon."),
        ),
    }
}

/// The port of a derived listen address, or the error naming the address
/// when none can be read from it.
pub fn daemon_listen_port(listen_addr: &str) -> (r: Result<u16, String>)
    ensures
        crate::addr::port_of_host(listen_addr@) matches Some(p) ==> (r is Ok && r->Ok_0 == p),
        crate::addr::port_of_host(listen_addr@) is None ==> (r is Err && (r->Err_0)@
            == "Invalid daemon listen address: "@ + listen_addr@),
{
    match crate::addr::parse_port_from_remote_host(listen_addr) {
        Some(p) => Ok(p),
        None => {
            let mut msg = String::from_str("Invalid daemon listen address: ");
            msg.append(listen_addr);
            Err(msg)
        },
    }
}

/// What `start` does about the listener a probe of the configured address
/// found.
#[derive(Debug)]
pub enum StartProbeOutcome {
    /// A cooperating daemon already runs: adopt it without taking ownership.
    /// `status` is recorded either way; when the daemon is not
    /// authenticated, `auth_failure` carries the error the start call fails
    /// with after recording it.
    Adopt { status: TcpDaemonStatus, auth_failure: Option<String> },
    /// A foreign process owns the port: fail without spawning.
    Conflict { message: String },
    /// Nothing listens: proceed to the bind preflight and spawn.
    ProceedToSpawn,
}

/// Decides `start` from a probe of the configured listen address, with the
/// PID resolved for a running listener. An authenticated daemon is adopted
/// as Running; an unauthenticated one is recorded Running but fails the
/// start with the authentication detail; a foreign listener is a port
/// conflict and nothing is spawned; a free port proceeds to spawning.
pub fn start_probe_decision(
    prev: &TcpDaemonStatus,
    probe: &DaemonProbe,
    pid: Option<u32>,
    listen_addr: &str,
) -> (r: StartProbeOutcome)
    ensures
        (*probe) is Running ==> (r is Adopt && (r->status)@ == (StatusView {
            state: TcpDaemonState::Running,
            pid: pid,
            started_at_ms: prev@.started_at_ms,
            last_error: (*probe)->auth_error.deep_view(),
            listen_addr: Some(listen_addr@),
        })),
        ((*probe) is Running && (*probe)->auth_ok) ==> r->auth_failure is None,
        ((*probe) is Running && !(*probe)->auth_ok) ==> (r->auth_failure is Some && (
        r->auth_failure->Some_0)@ == (if (*probe)->auth_error is Some {
            ((*probe)->auth_error->Some_0)@
        } else {
            "Daemon is already running but authentication failed."@
        })),
        (*probe) is NotDaemon ==> (r is Conflict && (r->message)@
            == "Cannot start mobile access daemon because "@ + listen_addr@
            + " is already in use by another process."@),
        (*probe) is NotReachable ==> r is ProceedToSpawn,
{
    match probe {
        DaemonProbe::Running { auth_ok, auth_error } => {
            let status = TcpDaemonStatus {
                state: TcpDaemonState::Running,
                pid,
                started_at_ms: prev.started_at_ms,
                last_error: auth_error.clone(),
                listen_addr: Some(String::from_str(listen_addr)),
            };
            let auth_failure = if *auth_ok {
                None
            } else {
                match auth_error {
                    Some(detail) => Some(detail.clone()),
                    None => Some(
                        String::from_str("Daemon is already running but authentication failed."),
                    ),
                }
            };
            StartProbeOutcome::Adopt { status, auth_failure }
        },
        DaemonProbe::NotDaemon => {
            let mut msg = String::from_str("Cannot start mobile access daemon because ");
            msg.append(listen_addr);
            msg.append(" is already in use by another process.");
            StartProbeOutcome::Conflict { message: msg }
        },
        DaemonProbe::NotReachable => StartProbeOutcome::ProceedToSpawn,
    }
}

/// The error reported when the bind preflight finds the listen address
/// taken.
pub fn listen_addr_unavailable_message(listen_addr: &str, err: &str) -> (r: String)
    ensures
        r@ == "Cannot start mobile access daemon because "@ + listen_addr@ + " is unavailable: "@
            + err@,
{
    let mut msg = String::from_str("Cannot start mobile access daemon because ");
    msg.append(listen_addr);
    msg.append(" is unavailable: ");
    msg.append(err);
    msg
}

/// The error reported when spawning the daemon process fails.
pub fn spawn_failure_message(err: &str) -> (r: String)
    ensures
        r@ == "Failed to start mobile access daemon: "@ + err@,
{
    let mut msg = String::from_str("Failed to start mobile access daemon: ");
    msg.append(err);
    msg
}

/// The daemon's argument vector: `--listen <addr> --data-dir <dir> --token
/// <token>`, in this order.
pub fn daemon_spawn_args(listen_addr: &str, data_dir: &str, token: &str) -> (r: Vec<String>)
    ensures
        r.deep_view() =~= seq![
            "--listen"@,
            listen_addr@,
            "--data-dir"@,
            data_dir@,
            "--token"@,
            token@,
        ],
{
    let mut args: Vec<String> = Vec::new();
    args.push(String::from_str("--listen"));
    args.push(String::from_str(listen_addr));
    args.push(String::from_str("--data-dir"));
    args.push(String::from_str(data_dir));
    args.push(String::from_str("--token"));
    args.push(String::from_str(token));
    args
}

/// The status recorded right after this supervisor spawns the daemon: it is
/// Running and owned, with the spawn time and the address it was told to
/// listen on, and no error.
pub fn spawned_status(pid: Option<u32>, now_ms: i64, listen_addr: &str) -> (r: TcpDaemonStatus)
    ensures
        r@ == (StatusView {
            state: TcpDaemonState::Running,
            pid: pid,
            started_at_ms: Some(now_ms),
            last_error: None,
            listen_addr: Some(listen_addr@),
        }),
{
    TcpDaemonStatus {
        state: TcpDaemonState::Running,
        pid,
        started_at_ms: Some(now_ms),
        last_error: None,
        listen_addr: Some(String::from_str(listen_addr)),
    }
}

/// The status recorded by a `status` call that probed the network because no
/// owned handle reports Running: a cooperating daemon is Running with the
/// resolved PID and any authentication detail; a foreign listener is an
/// Error naming the configured address; an unreachable port leaves the
/// reconciled record unchanged. `status` never spawns.
pub fn status_probe_reconcile(
    prev: &TcpDaemonStatus,
    probe: &DaemonProbe,
    pid: Option<u32>,
    configured_listen_addr: &str,
) -> (r: TcpDaemonStatus)
    ensures
        (*probe) is Running ==> r@ == (StatusView {
            state: TcpDaemonState::Running,
            pid: pid,
            started_at_ms: prev@.started_at_ms,
            last_error: (*probe)->auth_error.deep_view(),
            listen_addr: prev@.listen_addr,
        }),
        (*probe) is NotDaemon ==> r@ == (StatusView {
            state: TcpDaemonState::Error,
            pid: pid,
            started_at_ms: prev@.started_at_ms,
            last_error: Some(
                "Configured daemon port "@ + configured_listen_addr@
                    + " is occupied by a non-daemon process."@,
            ),
            listen_addr: prev@.listen_addr,
        }),
        (*probe) is NotReachable ==> r@ == prev@,
{
    match probe {
        DaemonProbe::Running { auth_ok: _, auth_error } => TcpDaemonStatus {
            state: TcpDaemonState::Running,
            pid,
            started_at_ms: prev.started_at_ms,
            last_error: auth_error.clone(),
            listen_addr: prev.listen_addr.clone(),
        },
        DaemonProbe::NotDaemon => {
            let mut msg = String::from_str("Configured daemon port ");
            msg.append(configured_listen_addr);
            msg.append(" is occupied by a non-daemon process.");
            TcpDaemonStatus {
                state: TcpDaemonState::Error,
                pid,
                started_at_ms: prev.started_at_ms,
                last_error: Some(msg),
                listen_addr: prev.listen_addr.clone(),
            }
        },
        DaemonProbe::NotReachable => TcpDaemonStatus {
            state: prev.state,
            pid: prev.pid,
            started_at_ms: prev.started_at_ms,
            last_error: prev.last_error.clone(),
            listen_addr: prev.listen_addr.clone(),
        },
    }
}

/// The first line that reads as a PID, scanning in order: how the listener's
/// PID is picked out of the port inspector's terse output.
pub open spec fn first_pid_spec(lines: Seq<Seq<char>>) -> Option<u32>
    decreases lines.len(),
{
    if lines.len() == 0 {
        None
    } else {
        match crate::text::parse_uint_spec(trim_spec(lines[0]), 0xFFFF_FFFF) {
            Some(v) => Some(v as u32),
            None => first_pid_spec(lines.drop_first()),
        }
    }
}

/// The PID of the process bound to the configured port, read from the port
/// inspector's output lines: nothing on a failed inspection, else the first
/// line that trims to a decimal `u32`.
pub fn listener_pid_from_output(success: bool, lines: &Vec<String>) -> (r: Option<u32>)
    ensures
        !success ==> r is None,
        success ==> r == first_pid_spec(lines.deep_view()),
{
    if !success {
        return None;
    }
    let n = lines.len();
    proof {
        assert(lines.deep_view().subrange(0, n as int) =~= lines.deep_view());
    }
    let mut i: usize = 0;
    while i < n
        invariant
            success,
            i <= n,
            n == lines.deep_view().len(),
            first_pid_spec(lines.deep_view()) == first_pid_spec(
                lines.deep_view().subrange(i as int, n as int),
            ),
        decreases n - i,
    {
        let chars = crate::text::str_chars(lines[i].as_str());
        let trimmed = crate::text::trim_chars(&chars);
        proof {
            assert(lines.deep_view().subrange(i as int, n as int)[0] == lines@[i as int]@);
        }
        match crate::text::parse_uint_chars(&trimmed, 0, 0xFFFF_FFFF) {
            Some(v) => {
                proof {
                    assert(trimmed@.subrange(0, trimmed@.len() as int) =~= trimmed@);
                }
                return Some(v as u32);
            },
            None => {
                proof {
                    assert(trimmed@.subrange(0, trimmed@.len() as int) =~= trimmed@);
                    assert(lines.deep_view().subrange(i as int, n as int).drop_first()
                        =~= lines.deep_view().subrange(i + 1 as int, n as int));
                }
            },
        }
        i += 1;
    }
    proof {
        assert(lines.deep_view().subrange(n as int, n as int).len() == 0);
    }
    None
}

/// Starting twice in sequence without a stop changes nothing the second
/// time: a spawn records a Running status with no error, reconciling the
/// still-running owned handle (which reports the recorded pid) maps that
/// record to itself — `reconcile_daemon_exit` pins exactly this transform —
/// and a `start` that finds the reconciled record Running returns it
/// unchanged, so the pid and start time of the first call survive the
/// second.
pub proof fn lemma_second_start_keeps_status(v: StatusView)
    requires
        v.state == TcpDaemonState::Running,
        v.last_error is None,
    ensures
        (StatusView { state: TcpDaemonState::Running, pid: v.pid, last_error: None, ..v }) == v,
{
}

} // verus!
