//! Stopping the daemon: the in-protocol shutdown conversation, the bounded
//! wait for the port to free, the escalation to OS signals, and the
//! authoritative status computed from the post-stop probe.

use vstd::prelude::*;
use vstd::string::*;

use crate::probe::{is_auth_error_message, is_auth_error_spec, DaemonProbe};
use crate::rpc::{RpcMethod, RpcParams};
use crate::status::{StatusView, TcpDaemonState, TcpDaemonStatus};
use crate::text::{dec_str, trim_spec, trim_to_non_empty, u64_to_string, usable_value};

verus! {

/// How many times the port is re-probed, at the poll interval, after an
/// acknowledged in-protocol shutdown.
pub const SHUTDOWN_WAIT_POLLS: u8 = 20;

/// How many liveness checks follow the graceful termination signal.
pub const TERM_WAIT_POLLS: u8 = 12;

/// How many liveness checks follow the forced kill signal.
pub const KILL_WAIT_POLLS: u8 = 8;

/// The interval, in milliseconds, between liveness or reachability polls.
pub const STOP_POLL_INTERVAL_MS: u64 = 100;

/// Where the in-protocol shutdown conversation stands.
#[derive(Debug)]
pub enum ShutdownRpcState {
    /// Opening the connection.
    Connecting,
    /// Sent `ping`, awaiting its outcome.
    AwaitPing,
    /// Sent `auth`, awaiting its outcome.
    AwaitAuth,
    /// Sent `daemon_shutdown`, awaiting its outcome.
    AwaitShutdown,
    /// The conversation is over.
    Done { result: Result<(), String> },
}

/// What the transport reports back to the shutdown conversation.
#[derive(Debug)]
pub enum ShutdownRpcEvent {
    /// The connect attempt timed out.
    ConnectTimedOut,
    /// The connect attempt failed; the error's display text.
    ConnectError { error: String },
    /// The connection is open.
    Connected,
    /// An issued call succeeded, or failed with the given message.
    CallOutcome { outcome: Result<(), String> },
}

/// What the transport is asked to do next.
#[derive(Debug)]
pub enum ShutdownRpcCmd {
    /// Send the request and await the response with the same id.
    Call { id: u64, method: RpcMethod, params: RpcParams },
    /// The conversation is over; discard the connection.
    Finish,
}

/// The events a shutdown-conversation state can be given.
pub open spec fn shutdown_event_fits(state: ShutdownRpcState, event: ShutdownRpcEvent) -> bool {
    match state {
        ShutdownRpcState::Connecting => event is ConnectTimedOut || event is ConnectError
            || event is Connected,
        ShutdownRpcState::Done { .. } => false,
        _ => event is CallOutcome,
    }
}

/// One transition of the shutdown conversation: `ping`, then `auth` when the
/// ping reports an authorization failure and a token is configured, then
/// `daemon_shutdown`; every failure ends the conversation with a message
/// naming the step that failed.
pub fn shutdown_rpc_step(
    state: &ShutdownRpcState,
    event: &ShutdownRpcEvent,
    token: Option<&str>,
    connect_addr: &str,
) -> (r: (ShutdownRpcState, ShutdownRpcCmd))
    requires
        shutdown_event_fits(*state, *event),
    ensures
        (*state) is Connecting && (*event) is ConnectTimedOut ==> (r.0 is Done
            && r.0->result is Err && (r.0->result->Err_0)@ == "Timed out connecting to daemon at "@
            + connect_addr@ && r.1 is Finish),
        (*state) is Connecting && (*event) is ConnectError ==> (r.0 is Done && r.0->result is Err
            && (r.0->result->Err_0)@ == "Failed to connect to daemon at "@ + connect_addr@ + ": "@
            + ((*event)->error)@ && r.1 is Finish),
        (*state) is Connecting && (*event) is Connected ==> (r.0 is AwaitPing && r.1 is Call
            && r.1->id == 1 && r.1->method == RpcMethod::Ping && r.1->params is Empty),
        ((*state) is AwaitPing && (*event) is CallOutcome && (*event)->outcome is Ok) ==> (
        r.0 is AwaitShutdown && r.1 is Call && r.1->id == 3 && r.1->method
            == RpcMethod::DaemonShutdown && r.1->params is Empty),
        ((*state) is AwaitPing && (*event) is CallOutcome && (*event)->outcome is Err
            && is_auth_error_spec(((*event)->outcome->Err_0)@) && usable_value(token)) ==> (
        r.0 is AwaitAuth && r.1 is Call && r.1->id == 2 && r.1->method == RpcMethod::Auth
            && r.1->params is Token && (r.1->params->token)@ == trim_spec((token->Some_0)@)),
        ((*state) is AwaitPing && (*event) is CallOutcome && (*event)->outcome is Err
            && is_auth_error_spec(((*event)->outcome->Err_0)@) && !usable_value(token)) ==> (
        r.0 is Done && r.0->result is Err && (r.0->result->Err_0)@
            == "Daemon is running but requires a remote backend token."@ && r.1 is Finish),
        ((*state) is AwaitPing && (*event) is CallOutcome && (*event)->outcome is Err
            && !is_auth_error_spec(((*event)->outcome->Err_0)@)) ==> (r.0 is Done
            && r.0->result is Err && (r.0->result->Err_0)@ == "Daemon ping failed: "@
            + ((*event)->outcome->Err_0)@ && r.1 is Finish),
        ((*state) is AwaitAuth && (*event) is CallOutcome && (*event)->outcome is Ok) ==> (
        r.0 is AwaitShutdown && r.1 is Call && r.1->id == 3 && r.1->method
            == RpcMethod::DaemonShutdown && r.1->params is Empty),
        ((*state) is AwaitAuth && (*event) is CallOutcome && (*event)->outcome is Err) ==> (
        r.0 is Done && r.0->result is Err && (r.0->result->Err_0)@
            == "Daemon authentication failed: "@ + ((*event)->outcome->Err_0)@ && r.1 is Finish),
        ((*state) is AwaitShutdown && (*event) is CallOutcome && (*event)->outcome is Ok) ==> (
        r.0 is Done && r.0->result is Ok && r.1 is Finish),
        ((*state) is AwaitShutdown && (*event) is CallOutcome && (*event)->outcome is Err) ==> (
        r.0 is Done && r.0->result is Err && (r.0->result->Err_0)@
            == "Daemon shutdown request failed: "@ + ((*event)->outcome->Err_0)@
            && r.1 is Finish),
{
    match state {
        ShutdownRpcState::Connecting => match event {
            ShutdownRpcEvent::ConnectTimedOut => {
                let mut msg = String::from_str("Timed out connecting to daemon at ");
                msg.append(connect_addr);
                (ShutdownRpcState::Done { result: Err(msg) }, ShutdownRpcCmd::Finish)
            },
            ShutdownRpcEvent::ConnectError { error } => {
                let mut msg = String::from_str("Failed to connect to daemon at ");
                msg.append(connect_addr);
                msg.append(": ");
                msg.append(error.as_str());
                (ShutdownRpcState::Done { result: Err(msg) }, ShutdownRpcCmd::Finish)
            },
            _ => (
                ShutdownRpcState::AwaitPing,
                ShutdownRpcCmd::Call { id: 1, method: RpcMethod::Ping, params: RpcParams::Empty },
            ),
        },
        ShutdownRpcState::AwaitPing => match event {
            ShutdownRpcEvent::CallOutcome { outcome: Ok(_) } => (
                ShutdownRpcState::AwaitShutdown,
                ShutdownRpcCmd::Call {
                    id: 3,
                    method: RpcMethod::DaemonShutdown,
                    params: RpcParams::Empty,
                },
            ),
            ShutdownRpcEvent::CallOutcome { outcome: Err(m) } => {
                if is_auth_error_message(m.as_str()) {
                    match trim_to_non_empty(token) {
                        Some(auth_token) => (
                            ShutdownRpcState::AwaitAuth,
                            ShutdownRpcCmd::Call {
                                id: 2,
                                method: RpcMethod::Auth,
                                params: RpcParams::Token { token: auth_token },
                            },
                        ),
                        None => (
                            ShutdownRpcState::Done {
                                result: Err(
                                    String::from_str(
                                        "Daemon is running but requires a remote backend token.",
                                    ),
                                ),
                            },
                            ShutdownRpcCmd::Finish,
                        ),
                    }
                } else {
                    let mut msg = String::from_str("Daemon ping failed: ");
                    msg.append(m.as_str());
                    (ShutdownRpcState::Done { result: Err(msg) }, ShutdownRpcCmd::Finish)
                }
            },
            _ => (
                ShutdownRpcState::Done {
                    result: Err(String::from_str("Daemon ping failed: ")),
                },
                ShutdownRpcCmd::Finish,
            ),
        },
        ShutdownRpcState::AwaitAuth => match event {
            ShutdownRpcEvent::CallOutcome { outcome: Ok(_) } => (
                ShutdownRpcState::AwaitShutdown,
                ShutdownRpcCmd::Call {
                    id: 3,
                    method: RpcMethod::DaemonShutdown,
                    params: RpcParams::Empty,
                },
            ),
            ShutdownRpcEvent::CallOutcome { outcome: Err(m) } => {
                let mut msg = String::from_str("Daemon authentication failed: ");
                msg.append(m.as_str());
                (ShutdownRpcState::Done { result: Err(msg) }, ShutdownRpcCmd::Finish)
            },
            _ => (
                ShutdownRpcState::Done {
                    result: Err(String::from_str("Daemon authentication failed: ")),
                },
                ShutdownRpcCmd::Finish,
            ),
        },
        ShutdownRpcState::AwaitShutdown => match event {
            ShutdownRpcEvent::CallOutcome { outcome: Ok(_) } => (
                ShutdownRpcState::Done { result: Ok(()) },
                ShutdownRpcCmd::Finish,
            ),
            ShutdownRpcEvent::CallOutcome { outcome: Err(m) } => {
                let mut msg = String::from_str("Daemon shutdown request failed: ");
                msg.append(m.as_str());
                (ShutdownRpcState::Done { result: Err(msg) }, ShutdownRpcCmd::Finish)
            },
            _ => (
                ShutdownRpcState::Done {
                    result: Err(String::from_str("Daemon shutdown request failed: ")),
                },
                ShutdownRpcCmd::Finish,
            ),
        },
        ShutdownRpcState::Done { .. } => (
            ShutdownRpcState::Done { result: Ok(()) },
            ShutdownRpcCmd::Finish,
        ),
    }
}

/// Where the signal escalation of one PID stands.
#[derive(Debug)]
pub enum KillState {
    /// The graceful termination signal was just sent.
    TermSent,
    /// Awaiting the process's disappearance after the graceful signal, with
    /// this many liveness checks left.
    TermWait { polls_left: u8 },
    /// The forced kill signal was just sent.
    KillSent,
    /// Awaiting the process's disappearance after the forced signal.
    KillWait { polls_left: u8 },
    /// The escalation is over.
    Done { result: Result<(), String> },
}

/// What the platform layer reports back to the escalation.
#[derive(Debug)]
pub enum KillEvent {
    /// The signal was delivered.
    SignalOk,
    /// The signal found no such process: it is already gone.
    SignalNoProcess,
    /// Sending the signal failed; the error's display text.
    SignalError { error: String },
    /// A liveness check found the process still running. The driver sleeps
    /// the poll interval after reporting this.
    Alive,
    /// A liveness check found the process gone.
    Gone,
}

/// What the platform layer is asked to do next.
#[derive(Debug)]
pub enum KillCmd {
    /// Send the graceful termination signal to the PID.
    SendTerm,
    /// Send the forced kill signal to the PID.
    SendKill,
    /// Check whether the PID still runs.
    CheckAlive,
    /// The escalation is over.
    Finish,
}

/// The events a kill state can be given.
pub open spec fn kill_event_fits(state: KillState, event: KillEvent) -> bool {
    match state {
        KillState::TermSent => event is SignalOk || event is SignalNoProcess
            || event is SignalError,
        KillState::KillSent => event is SignalOk || event is SignalNoProcess
            || event is SignalError,
        KillState::TermWait { .. } => event is Alive || event is Gone,
        KillState::KillWait { .. } => event is Alive || event is Gone,
        KillState::Done { .. } => false,
    }
}

/// A well-formed kill state never waits with a zero poll budget.
pub open spec fn kill_state_wf(state: KillState) -> bool {
    match state {
        KillState::TermWait { polls_left } => polls_left >= 1,
        KillState::KillWait { polls_left } => polls_left >= 1,
        _ => true,
    }
}

/// The escalation's initial state and first action: the graceful signal.
pub fn kill_start() -> (r: (KillState, KillCmd))
    ensures
        r.0 is TermSent,
        r.1 is SendTerm,
{
    (KillState::TermSent, KillCmd::SendTerm)
}

/// One transition of the signal escalation: after the graceful signal, a
/// bounded poll for the process to disappear; if it stays, the forced
/// signal and another bounded poll; an already-gone process is success at
/// every step, and a still-running process after both signals is the final
/// error. Every `Alive` event strictly shrinks the remaining poll budget.
pub fn kill_step(state: &KillState, event: &KillEvent, pid: u32) -> (r: (KillState, KillCmd))
    requires
        kill_event_fits(*state, *event),
        kill_state_wf(*state),
    ensures
        kill_state_wf(r.0),
        (*state) is TermSent && (*event) is SignalOk ==> (r.0 is TermWait && r.0->TermWait_polls_left
            == TERM_WAIT_POLLS && r.1 is CheckAlive),
        (*state) is TermSent && (*event) is SignalNoProcess ==> (r.0 is Done && r.0->result is Ok
            && r.1 is Finish),
        (*state) is TermSent && (*event) is SignalError ==> (r.0 is Done && r.0->result is Err
            && (r.0->result->Err_0)@ == "Failed to stop daemon process "@ + dec_str(pid as nat)
            + ": "@ + ((*event)->error)@ && r.1 is Finish),
        (*state) is TermWait && (*event) is Gone ==> (r.0 is Done && r.0->result is Ok
            && r.1 is Finish),
        ((*state) is TermWait && (*event) is Alive && (*state)->TermWait_polls_left > 1) ==> (
        r.0 is TermWait && r.0->TermWait_polls_left == (*state)->TermWait_polls_left - 1
            && r.1 is CheckAlive),
        ((*state) is TermWait && (*event) is Alive && (*state)->TermWait_polls_left == 1) ==> (
        r.0 is KillSent && r.1 is SendKill),
        (*state) is KillSent && ((*event) is SignalOk || (*event) is SignalNoProcess) ==> (
        r.0 is KillWait && r.0->KillWait_polls_left == KILL_WAIT_POLLS && r.1 is CheckAlive),
        (*state) is KillSent && (*event) is SignalError ==> (r.0 is Done && r.0->result is Err
            && (r.0->result->Err_0)@ == "Failed to force-stop daemon process "@
            + dec_str(pid as nat) + ": "@ + ((*event)->error)@ && r.1 is Finish),
        (*state) is KillWait && (*event) is Gone ==> (r.0 is Done && r.0->result is Ok
            && r.1 is Finish),
        ((*state) is KillWait && (*event) is Alive && (*state)->KillWait_polls_left > 1) ==> (
        r.0 is KillWait && r.0->KillWait_polls_left == (*state)->KillWait_polls_left - 1
            && r.1 is CheckAlive),
        ((*state) is KillWait && (*event) is Alive && (*state)->KillWait_polls_left == 1) ==> (
        r.0 is Done && r.0->result is Err && (r.0->result->Err_0)@ == "Daemon process "@
            + dec_str(pid as nat) + " is still running."@ && r.1 is Finish),
{
    match state {
        KillState::TermSent => match event {
            KillEvent::SignalOk => (
                KillState::TermWait { polls_left: TERM_WAIT_POLLS },
                KillCmd::CheckAlive,
            ),
            KillEvent::SignalNoProcess => (KillState::Done { result: Ok(()) }, KillCmd::Finish),
            _ => {
                let error = kill_event_error_text(event);
                let mut msg = String::from_str("Failed to stop daemon process ");
                let pid_text = u64_to_string(pid as u64);
                msg.append(pid_text.as_str());
                msg.append(": ");
                msg.append(error.as_str());
                (KillState::Done { result: Err(msg) }, KillCmd::Finish)
            },
        },
        KillState::TermWait { polls_left } => match event {
            KillEvent::Gone => (KillState::Done { result: Ok(()) }, KillCmd::Finish),
            _ => {
                if *polls_left > 1 {
                    (KillState::TermWait { polls_left: *polls_left - 1 }, KillCmd::CheckAlive)
                } else {
                    (KillState::KillSent, KillCmd::SendKill)
                }
            },
        },
        KillState::KillSent => match event {
            KillEvent::SignalOk | KillEvent::SignalNoProcess => (
                KillState::KillWait { polls_left: KILL_WAIT_POLLS },
                KillCmd::CheckAlive,
            ),
            _ => {
                let error = kill_event_error_text(event);
                let mut msg = String::from_str("Failed to force-stop daemon process ");
                let pid_text = u64_to_string(pid as u64);
                msg.append(pid_text.as_str());
                msg.append(": ");
                msg.append(error.as_str());
                (KillState::Done { result: Err(msg) }, KillCmd::Finish)
            },
        },
        KillState::KillWait { polls_left } => match event {
            KillEvent::Gone => (KillState::Done { result: Ok(()) }, KillCmd::Finish),
            _ => {
                if *polls_left > 1 {
                    (KillState::KillWait { polls_left: *polls_left - 1 }, KillCmd::CheckAlive)
                } else {
                    let mut msg = String::from_str("Daemon process ");
                    let pid_text = u64_to_string(pid as u64);
                    msg.append(pid_text.as_str());
                    msg.append(" is still running.");
                    (KillState::Done { result: Err(msg) }, KillCmd::Finish)
                }
            },
        },
        KillState::Done { .. } => (KillState::Done { result: Ok(()) }, KillCmd::Finish),
    }
}

fn kill_event_error_text(event: &KillEvent) -> (r: String)
    ensures
        (*event) is SignalError ==> r@ == ((*event)->error)@,
{
    match event {
        KillEvent::SignalError { error } => error.clone(),
        _ => String::new(),
    }
}

/// One poll of the wait for an acknowledged shutdown to free the port.
#[derive(Debug)]
pub enum WaitStep {
    /// Still reachable; poll again after the interval, with this budget.
    Continue { polls_left: u8 },
    /// The wait is over: `stopped` tells whether the port became unreachable
    /// within the budget.
    Finished { stopped: bool },
}

/// Folds one re-probe into the bounded wait for the daemon to disappear:
/// unreachable ends the wait with success, a still-reachable port spends one
/// poll, and an exhausted budget ends it with failure.
pub fn wait_shutdown_step(polls_left: u8, probe: &DaemonProbe) -> (r: WaitStep)
    requires
        polls_left >= 1,
    ensures
        (*probe) is NotReachable ==> (r is Finished && r->stopped),
        !((*probe) is NotReachable) && polls_left > 1 ==> (r is Continue && r->polls_left
            == polls_left - 1),
        !((*probe) is NotReachable) && polls_left == 1 ==> (r is Finished && !r->stopped),
{
    if matches!(probe, DaemonProbe::NotReachable) {
        WaitStep::Finished { stopped: true }
    } else if polls_left > 1 {
        WaitStep::Continue { polls_left: polls_left - 1 }
    } else {
        WaitStep::Finished { stopped: false }
    }
}

/// What a `stop` does about the listener the probe found.
#[derive(Debug)]
pub enum StopDecision {
    /// A cooperating daemon listens: ask it to shut down over the protocol.
    RequestShutdown,
    /// A foreign process owns the port: refuse to touch it.
    Conflict { message: String },
    /// Nothing listens: there is nothing to stop.
    NothingRunning,
}

/// Decides the stop path from a probe of the configured port, refusing to
/// touch a port owned by a process that does not speak this protocol.
pub fn stop_probe_decision(probe: &DaemonProbe, port: u16) -> (r: StopDecision)
    ensures
        (*probe) is Running ==> r is RequestShutdown,
        (*probe) is NotDaemon ==> (r is Conflict && (r->message)@ == "Port "@ + dec_str(
            port as nat,
        ) + " is in use by a non-daemon process; refusing to stop it."@),
        (*probe) is NotReachable ==> r is NothingRunning,
{
    match probe {
        DaemonProbe::Running { .. } => StopDecision::RequestShutdown,
        DaemonProbe::NotDaemon => {
            let mut msg = String::from_str("Port ");
            let port_text = u64_to_string(port as u64);
            msg.append(port_text.as_str());
            msg.append(" is in use by a non-daemon process; refusing to stop it.");
            StopDecision::Conflict { message: msg }
        },
        DaemonProbe::NotReachable => StopDecision::NothingRunning,
    }
}

/// The stop error after signal escalation: a successful escalation clears
/// the in-protocol failure, a failed one is appended to it, and when no PID
/// could be resolved the in-protocol failure stands alone.
pub fn stop_error_after_escalation(shutdown_error: &str, kill_result: &Option<Result<(), String>>)
    -> (r: Option<String>)
    ensures
        (*kill_result) is None ==> (r is Some && (r->Some_0)@ == shutdown_error@),
        ((*kill_result) is Some && (*kill_result)->Some_0 is Ok) ==> r is None,
        ((*kill_result) is Some && (*kill_result)->Some_0 is Err) ==> (r is Some && (r->Some_0)@
            == shutdown_error@ + "; "@ + ((*kill_result)->Some_0->Err_0)@),
{
    match kill_result {
        None => Some(String::from_str(shutdown_error)),
        Some(Ok(_)) => None,
        Some(Err(e)) => {
            let mut msg = String::from_str(shutdown_error);
            msg.append("; ");
            msg.append(e.as_str());
            Some(msg)
        },
    }
}

/// The stop error after the post-acknowledgement wait: none when the port
/// freed, else the fixed inconsistency message.
pub fn stop_error_after_wait(stopped: bool) -> (r: Option<String>)
    ensures
        stopped ==> r is None,
        !stopped ==> (r is Some && (r->Some_0)@
            == "Daemon acknowledged shutdown but is still reachable."@),
{
    if stopped {
        None
    } else {
        Some(String::from_str("Daemon acknowledged shutdown but is still reachable."))
    }
}

/// The message recorded when the post-stop probe still finds the daemon.
pub open spec fn stop_failure_message(
    stop_error: Option<Seq<char>>,
    auth_error: Option<Seq<char>>,
) -> Seq<char> {
    if stop_error is Some {
        stop_error->Some_0
    } else if auth_error is Some {
        auth_error->Some_0
    } else {
        "Daemon is still running after stop attempt."@
    }
}

/// The authoritative status after a `stop`, computed from a final probe of
/// the configured port regardless of which stop path ran: a port still owned
/// by a cooperating daemon is an Error carrying the stop or authentication
/// failure; a port owned by a foreign process is an Error naming the
/// conflict; an unreachable port is Stopped, with any residual stop error
/// kept for information. Stopping an already-stopped daemon thus yields
/// Stopped with no error recorded.
pub fn status_after_stop(
    probe_after: &DaemonProbe,
    pid_after: Option<u32>,
    prev: &TcpDaemonStatus,
    stop_error: Option<String>,
) -> (r: TcpDaemonStatus)
    ensures
        (*probe_after) is Running ==> r@ == (StatusView {
            state: TcpDaemonState::Error,
            pid: pid_after,
            started_at_ms: prev@.started_at_ms,
            last_error: Some(
                stop_failure_message(stop_error.deep_view(), (*probe_after)->auth_error.deep_view()),
            ),
            listen_addr: prev@.listen_addr,
        }),
        (*probe_after) is NotDaemon ==> r@ == (StatusView {
            state: TcpDaemonState::Error,
            pid: pid_after,
            started_at_ms: prev@.started_at_ms,
            last_error: Some(
                if stop_error is Some {
                    stop_error->Some_0@
                } else {
                    "Configured port is now occupied by a non-daemon process."@
                },
            ),
            listen_addr: prev@.listen_addr,
        }),
        (*probe_after) is NotReachable ==> r@ == (StatusView {
            state: TcpDaemonState::Stopped,
            pid: None,
            started_at_ms: None,
            last_error: stop_error.deep_view(),
            listen_addr: prev@.listen_addr,
        }),
{
    match probe_after {
        DaemonProbe::Running { auth_ok: _, auth_error } => {
            let message = match stop_error {
                Some(e) => e,
                None => match auth_error {
                    Some(a) => a.clone(),
                    None => String::from_str("Daemon is still running after stop attempt."),
                },
            };
            TcpDaemonStatus {
                state: TcpDaemonState::Error,
                pid: pid_after,
                started_at_ms: prev.started_at_ms,
                last_error: Some(message),
                listen_addr: prev.listen_addr.clone(),
            }
        },
        DaemonProbe::NotDaemon => {
            let message = match stop_error {
                Some(e) => e,
                None => String::from_str(
                    "Configured port is now occupied by a non-daemon process.",
                ),
            };
            TcpDaemonStatus {
                state: TcpDaemonState::Error,
                pid: pid_after,
                started_at_ms: prev.started_at_ms,
                last_error: Some(message),
                listen_addr: prev.listen_addr.clone(),
            }
        },
        DaemonProbe::NotReachable => TcpDaemonStatus {
            state: TcpDaemonState::Stopped,
            pid: None,
            started_at_ms: None,
            last_error: stop_error,
            listen_addr: prev.listen_addr.clone(),
        },
    }
}

} // verus!
