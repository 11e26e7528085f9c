//! The daemon probe protocol: a ping, an optional authentication exchange and
//! a re-ping over one connection, classifying what listens on the configured
//! port as unreachable, a cooperating daemon, or a foreign process.

use vstd::prelude::*;
use vstd::string::*;

use crate::rpc::{RpcMethod, RpcParams};
use crate::text::{
    ascii_lower, ascii_lower_chars, contains_chars, contains_seq, str_chars, trim_spec,
    trim_to_non_empty, usable_value,
};

verus! {

/// Whether an RPC failure message reports an authorization failure: a
/// case-insensitive match on the pinned trigger substrings `unauthorized`
/// and `invalid token`. A deliberate, isolated heuristic: the daemon reports
/// authorization failures only through its error text.
pub open spec fn is_auth_error_spec(m: Seq<char>) -> bool {
    contains_seq(ascii_lower(m), "unauthorized"@) || contains_seq(ascii_lower(m), "invalid token"@)
}

/// Whether `message` reads as an authorization failure.
pub fn is_auth_error_message(message: &str) -> (r: bool)
    ensures
        r == is_auth_error_spec(message@),
{
    let chars = str_chars(message);
    let lower = ascii_lower_chars(&chars);
    let needle_a = str_chars("unauthorized");
    if contains_chars(&lower, &needle_a) {
        return true;
    }
    let needle_b = str_chars("invalid token");
    contains_chars(&lower, &needle_b)
}

/// The terminal classification of one probe.
#[derive(Clone, Debug)]
pub enum DaemonProbe {
    /// Nothing accepted the connection: the port is free.
    NotReachable,
    /// A cooperating daemon answered; `auth_ok` tells whether it accepted the
    /// exchange, with the failure detail in `auth_error` when it did not.
    Running { auth_ok: bool, auth_error: Option<String> },
    /// Something listens but does not speak this protocol.
    NotDaemon,
}

/// Where one probe conversation stands.
#[derive(Debug)]
pub enum ProbeState {
    /// Opening the connection.
    Connecting,
    /// Sent the first `ping`, awaiting its outcome.
    AwaitPing,
    /// Sent `auth`, awaiting its outcome.
    AwaitAuth,
    /// Sent the post-authentication `ping`, awaiting its outcome.
    AwaitPingAfterAuth,
    /// The probe is classified.
    Done { probe: DaemonProbe },
}

/// What the transport reports back to the probe.
#[derive(Debug)]
pub enum ProbeEvent {
    /// The connection could not be opened within the timeout.
    ConnectFailed,
    /// The connection is open.
    Connected,
    /// An issued call succeeded, or failed with the given message.
    CallOutcome { outcome: Result<(), String> },
}

/// What the transport is asked to do next.
#[derive(Debug)]
pub enum ProbeCmd {
    /// Open a fresh connection to the daemon's connect address.
    Connect,
    /// Send the request and await the response with the same id.
    Call { id: u64, method: RpcMethod, params: RpcParams },
    /// The conversation is over; discard the connection.
    Finish,
}

/// The events a probe state can be given.
pub open spec fn probe_event_fits(state: ProbeState, event: ProbeEvent) -> bool {
    match state {
        ProbeState::Connecting => event is ConnectFailed || event is Connected,
        ProbeState::Done { .. } => false,
        _ => event is CallOutcome,
    }
}

/// The probe's initial state and first action: connect.
pub fn probe_start() -> (r: (ProbeState, ProbeCmd))
    ensures
        r.0 is Connecting,
        r.1 is Connect,
{
    (ProbeState::Connecting, ProbeCmd::Connect)
}

/// One transition of the probe conversation. Failure to connect classifies
/// the port as unreachable, never as an error. A first ping that succeeds
/// classifies a cooperating, authenticated daemon; one that fails with
/// anything but an authorization error classifies a foreign listener. An
/// authorization error leads to `auth` with the trimmed configured token when
/// there is one, else the probe ends as running-but-unauthenticated. After a
/// successful `auth`, a second `ping` decides; a rejected `auth` that reads
/// as an authorization error means the token was rejected, and any other
/// `auth` failure again classifies a foreign listener.
pub fn probe_step(state: &ProbeState, event: &ProbeEvent, token: Option<&str>) -> (r: (
    ProbeState,
    ProbeCmd,
))
    requires
        probe_event_fits(*state, *event),
    ensures
        (*state) is Connecting && (*event) is ConnectFailed ==> (r.0 is Done
            && r.0->probe is NotReachable && r.1 is Finish),
        (*state) is Connecting && (*event) is Connected ==> (r.0 is AwaitPing && r.1 is Call
            && r.1->id == 1 && r.1->method == RpcMethod::Ping && r.1->params is Empty),
        ((*state) is AwaitPing && (*event) is CallOutcome
            && (*event)->outcome is Ok) ==> (r.0 is Done && r.0->probe is Running && r.0->probe->auth_ok
            && r.0->probe->auth_error is None && r.1 is Finish),
        ((*state) is AwaitPing && (*event) is CallOutcome
            && (*event)->outcome is Err && !is_auth_error_spec(((*event)->outcome->Err_0)@)) ==> (r.0 is Done
            && r.0->probe is NotDaemon && r.1 is Finish),
        ((*state) is AwaitPing && (*event) is CallOutcome
            && (*event)->outcome is Err && is_auth_error_spec(((*event)->outcome->Err_0)@)
            && !usable_value(token)) ==> (
        r.0 is Done && r.0->probe is Running && !r.0->probe->auth_ok
            && r.0->probe->auth_error is Some && (r.0->probe->auth_error->Some_0)@
            == "Daemon is running but requires a remote backend token."@ && r.1 is Finish),
        ((*state) is AwaitPing && (*event) is CallOutcome
            && (*event)->outcome is Err && is_auth_error_spec(((*event)->outcome->Err_0)@)
            && usable_value(token)) ==> (
        r.0 is AwaitAuth && r.1 is Call && r.1->id == 2 && r.1->method == RpcMethod::Auth
            && r.1->params is Token && (r.1->params->token)@ == trim_spec((token->Some_0)@)),
        ((*state) is AwaitAuth && (*event) is CallOutcome
            && (*event)->outcome is Ok) ==> (r.0 is AwaitPingAfterAuth && r.1 is Call && r.1->id == 3
            && r.1->method == RpcMethod::Ping && r.1->params is Empty),
        ((*state) is AwaitAuth && (*event) is CallOutcome
            && (*event)->outcome is Err && is_auth_error_spec(((*event)->outcome->Err_0)@)) ==> (r.0 is Done
            && r.0->probe is Running && !r.0->probe->auth_ok && r.0->probe->auth_error is Some
            && (r.0->probe->auth_error->Some_0)@
            == "Daemon is running but token authentication failed: "@
            + ((*event)->outcome->Err_0)@ && r.1 is Finish),
        ((*state) is AwaitAuth && (*event) is CallOutcome
            && (*event)->outcome is Err && !is_auth_error_spec(((*event)->outcome->Err_0)@)) ==> (r.0 is Done
            && r.0->probe is NotDaemon && r.1 is Finish),
        ((*state) is AwaitPingAfterAuth && (*event) is CallOutcome
            && (*event)->outcome is Ok) ==> (r.0 is Done && r.0->probe is Running && r.0->probe->auth_ok
            && r.0->probe->auth_error is None && r.1 is Finish),
        ((*state) is AwaitPingAfterAuth && (*event) is CallOutcome
            && (*event)->outcome is Err) ==> (r.0 is Done && r.0->probe is Running
            && !r.0->probe->auth_ok && r.0->probe->auth_error is Some
            && (r.0->probe->auth_error->Some_0)@
            == "Daemon is running but ping failed after auth: "@
            + ((*event)->outcome->Err_0)@ && r.1 is Finish),
{
    match state {
        ProbeState::Connecting => match event {
            ProbeEvent::ConnectFailed => (
                ProbeState::Done { probe: DaemonProbe::NotReachable },
                ProbeCmd::Finish,
            ),
            _ => (
                ProbeState::AwaitPing,
                ProbeCmd::Call { id: 1, method: RpcMethod::Ping, params: RpcParams::Empty },
            ),
        },
        ProbeState::AwaitPing => match event {
            ProbeEvent::CallOutcome { outcome: Ok(_) } => (
                ProbeState::Done {
                    probe: DaemonProbe::Running { auth_ok: true, auth_error: None },
                },
                ProbeCmd::Finish,
            ),
            ProbeEvent::CallOutcome { outcome: Err(m) } => {
                if !is_auth_error_message(m.as_str()) {
                    (ProbeState::Done { probe: DaemonProbe::NotDaemon }, ProbeCmd::Finish)
                } else {
                    match trim_to_non_empty(token) {
                        None => (
                            ProbeState::Done {
                                probe: DaemonProbe::Running {
                                    auth_ok: false,
                                    auth_error: Some(
                                        String::from_str(
                                            "Daemon is running but requires a remote backend token.",
                                        ),
                                    ),
                                },
                            },
                            ProbeCmd::Finish,
                        ),
                        Some(auth_token) => (
                            ProbeState::AwaitAuth,
                            ProbeCmd::Call {
                                id: 2,
                                method: RpcMethod::Auth,
                                params: RpcParams::Token { token: auth_token },
                            },
                        ),
                    }
                }
            },
            _ => (ProbeState::Done { probe: DaemonProbe::NotDaemon }, ProbeCmd::Finish),
        },
        ProbeState::AwaitAuth => match event {
            ProbeEvent::CallOutcome { outcome: Ok(_) } => (
                ProbeState::AwaitPingAfterAuth,
                ProbeCmd::Call { id: 3, method: RpcMethod::Ping, params: RpcParams::Empty },
            ),
            ProbeEvent::CallOutcome { outcome: Err(m) } => {
                if is_auth_error_message(m.as_str()) {
                    let mut detail = String::from_str(
                        "Daemon is running but token authentication failed: ",
                    );
                    detail.append(m.as_str());
                    (
                        ProbeState::Done {
                            probe: DaemonProbe::Running {
                                auth_ok: false,
                                auth_error: Some(detail),
                            },
                        },
                        ProbeCmd::Finish,
                    )
                } else {
                    (ProbeState::Done { probe: DaemonProbe::NotDaemon }, ProbeCmd::Finish)
                }
            },
            _ => (ProbeState::Done { probe: DaemonProbe::NotDaemon }, ProbeCmd::Finish),
        },
        ProbeState::AwaitPingAfterAuth => match event {
            ProbeEvent::CallOutcome { outcome: Ok(_) } => (
                ProbeState::Done {
                    probe: DaemonProbe::Running { auth_ok: true, auth_error: None },
                },
                ProbeCmd::Finish,
            ),
            ProbeEvent::CallOutcome { outcome: Err(m) } => {
                let mut detail = String::from_str("Daemon is running but ping failed after auth: ");
                detail.append(m.as_str());
                (
                    ProbeState::Done {
                        probe: DaemonProbe::Running { auth_ok: false, auth_error: Some(detail) },
                    },
                    ProbeCmd::Finish,
                )
            },
            _ => (
                ProbeState::Done {
                    probe: DaemonProbe::Running { auth_ok: true, auth_error: None },
                },
                ProbeCmd::Finish,
            ),
        },
        ProbeState::Done { .. } => (
            ProbeState::Done { probe: DaemonProbe::NotReachable },
            ProbeCmd::Finish,
        ),
    }
}

} // verus!
