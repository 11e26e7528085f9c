//! The line-delimited RPC wire format: one JSON object per line, requests
//! framed exactly as the daemon expects them, and responses classified by
//! their id, error and result members.

use vstd::prelude::*;
use vstd::string::*;

use crate::text::{
    dec_str, hex_digit_char, hex_digit_char_exec, push_dec_u64, push_str_chars, str_chars,
    string_from_chars, trim_chars, trim_spec,
};

verus! {

/// The fixed bound, in milliseconds, on connecting to the daemon and on the
/// whole wait for one matching response frame.
pub const DAEMON_RPC_TIMEOUT_MS: u64 = 700;

#[verifier::external_type_specification]
#[verifier::external_body]
pub struct ExValue(serde_json::Value);

/// Whether `serde_json::from_str::<Value>` accepts `s` as one JSON document;
/// which strings it accepts depends on the text alone.
pub uninterp spec fn json_parses(s: Seq<char>) -> bool;

/// Relies on `serde_json::from_str::<Value>`: parses one JSON document from
/// the text; the parse error, when there is one, is handed back as its
/// display text.
#[verifier::external_body]
fn json_from_str(line: &str) -> (r: Result<serde_json::Value, String>)
    ensures
        r is Ok <==> json_parses(line@),
{
    serde_json::from_str::<serde_json::Value>(line).map_err(|err| err.to_string())
}

/// Relies on `serde_json::Value::get`: the member under `key` when the value
/// is an object that has one, else `None`.
#[verifier::external_body]
fn json_get<'a>(v: &'a serde_json::Value, key: &str) -> (r: Option<&'a serde_json::Value>) {
    v.get(key)
}

/// Relies on `serde_json::Value::as_u64`: the value as a `u64` when it is a
/// number representable as one.
#[verifier::external_body]
fn json_as_u64(v: &serde_json::Value) -> (r: Option<u64>) {
    v.as_u64()
}

/// Relies on `serde_json::Value::as_str`: the value's text when it is a JSON
/// string, copied out.
#[verifier::external_body]
fn json_as_str(v: &serde_json::Value) -> (r: Option<String>) {
    v.as_str().map(|s| s.to_string())
}

/// The methods of the daemon's control protocol.
#[derive(Clone, Copy, Debug, PartialEq, Eq, Structural)]
pub enum RpcMethod {
    Ping,
    Auth,
    DaemonShutdown,
}

impl RpcMethod {
    /// The method name as it appears on the wire.
    pub open spec fn name_spec(self) -> Seq<char> {
        match self {
            RpcMethod::Ping => "ping"@,
            RpcMethod::Auth => "auth"@,
            RpcMethod::DaemonShutdown => "daemon_shutdown"@,
        }
    }
}

/// The parameter object of a request: empty, or the configured token.
#[derive(Clone, Debug)]
pub enum RpcParams {
    Empty,
    Token { token: String },
}

/// How one character appears inside a JSON string literal: quote, backslash
/// and control characters escaped exactly as `serde_json` writes them.
pub open spec fn esc_char(c: char) -> Seq<char> {
    let u = c as u32;
    if c == '"' {
        seq!['\\', '"']
    } else if c == '\\' {
        seq!['\\', '\\']
    } else if u == 0x08 {
        seq!['\\', 'b']
    } else if u == 0x09 {
        seq!['\\', 't']
    } else if u == 0x0A {
        seq!['\\', 'n']
    } else if u == 0x0C {
        seq!['\\', 'f']
    } else if u == 0x0D {
        seq!['\\', 'r']
    } else if u < 0x20 {
        seq!['\\', 'u', '0', '0', hex_digit_char((u / 16) as int), hex_digit_char((u % 16) as int)]
    } else {
        seq![c]
    }
}

/// The body of a JSON string literal holding `s`.
pub open spec fn json_escaped(s: Seq<char>) -> Seq<char>
    decreases s.len(),
{
    if s.len() == 0 {
        Seq::empty()
    } else {
        json_escaped(s.drop_last()) + esc_char(s.last())
    }
}

fn push_esc_char(out: &mut Vec<char>, c: char)
    ensures
        final(out)@ == old(out)@ + esc_char(c),
{
    let u = c as u32;
    if c == '"' {
        out.push('\\');
        out.push('"');
    } else if c == '\\' {
        out.push('\\');
        out.push('\\');
    } else if u == 0x08 {
        out.push('\\');
        out.push('b');
    } else if u == 0x09 {
        out.push('\\');
        out.push('t');
    } else if u == 0x0A {
        out.push('\\');
        out.push('n');
    } else if u == 0x0C {
        out.push('\\');
        out.push('f');
    } else if u == 0x0D {
        out.push('\\');
        out.push('r');
    } else if u < 0x20 {
        out.push('\\');
        out.push('u');
        out.push('0');
        out.push('0');
        out.push(hex_digit_char_exec(u / 16));
        out.push(hex_digit_char_exec(u % 16));
    } else {
        out.push(c);
    }
    proof {
        assert(out@ =~= old(out)@ + esc_char(c));
    }
}

fn push_json_escaped(out: &mut Vec<char>, s: &Vec<char>)
    ensures
        final(out)@ == old(out)@ + json_escaped(s@),
{
    let n = s.len();
    let mut i: usize = 0;
    while i < n
        invariant
            n == s@.len(),
            i <= n,
            out@ == old(out)@ + json_escaped(s@.subrange(0, i as int)),
        decreases n - i,
    {
        push_esc_char(out, s[i]);
        proof {
            let p = s@.subrange(0, i + 1 as int);
            assert(p.drop_last() =~= s@.subrange(0, i as int));
            assert(p.last() == s@[i as int]);
            assert(out@ =~= old(out)@ + json_escaped(p));
        }
        i += 1;
    }
    proof {
        assert(s@.subrange(0, n as int) =~= s@);
    }
}

/// The parameter object as it appears on the wire.
pub open spec fn params_json_spec(p: RpcParams) -> Seq<char> {
    match p {
        RpcParams::Empty => "{}"@,
        RpcParams::Token { token } => "{\"token\":\""@ + json_escaped(token@) + "\"}"@,
    }
}

/// One request frame: `{"id":<id>,"method":"<m>","params":<p>}` and the
/// terminating newline, byte for byte what `serde_json` would write for it.
pub open spec fn rpc_request_line_spec(id: u64, method: RpcMethod, params: RpcParams) -> Seq<
    char,
> {
    "{\"id\":"@ + dec_str(id as nat) + ",\"method\":\""@ + method.name_spec() + "\",\"params\":"@
        + params_json_spec(params) + "}\n"@
}

/// Serializes one request as a newline-terminated JSON object line.
pub fn rpc_request_line(id: u64, method: RpcMethod, params: &RpcParams) -> (r: String)
    ensures
        r@ == rpc_request_line_spec(id, method, *params),
{
    let mut out: Vec<char> = Vec::new();
    push_str_chars(&mut out, "{\"id\":");
    push_dec_u64(id, &mut out);
    push_str_chars(&mut out, ",\"method\":\"");
    match method {
        RpcMethod::Ping => push_str_chars(&mut out, "ping"),
        RpcMethod::Auth => push_str_chars(&mut out, "auth"),
        RpcMethod::DaemonShutdown => push_str_chars(&mut out, "daemon_shutdown"),
    }
    push_str_chars(&mut out, "\",\"params\":");
    match params {
        RpcParams::Empty => push_str_chars(&mut out, "{}"),
        RpcParams::Token { token } => {
            push_str_chars(&mut out, "{\"token\":\"");
            let tc = str_chars(token.as_str());
            push_json_escaped(&mut out, &tc);
            push_str_chars(&mut out, "\"}");
        },
    }
    push_str_chars(&mut out, "}\n");
    proof {
        assert(out@ =~= rpc_request_line_spec(id, method, *params));
    }
    string_from_chars(&out)
}

/// The `error.message` text of a response frame, when the frame carries one.
pub fn parse_daemon_error_message(response: &serde_json::Value) -> (r: Option<String>) {
    match json_get(response, "error") {
        Some(error) => match json_get(error, "message") {
            Some(message) => json_as_str(message),
            None => None,
        },
        None => None,
    }
}

/// What one matching-or-not response frame means for a pending call: `None`
/// skips a frame whose id is not the awaited one; an `error.message` member
/// fails the call with that text; a missing `result` member is a protocol
/// violation; otherwise the call succeeded.
pub fn classify_frame(
    id: Option<u64>,
    expected_id: u64,
    error_message: Option<String>,
    has_result: bool,
) -> (r: Option<Result<(), String>>)
    ensures
        id != Some(expected_id) ==> r is None,
        id == Some(expected_id) ==> match error_message {
            Some(m) => r matches Some(Err(e)) && e@ == m@,
            None => {
                if has_result {
                    r matches Some(Ok(u)) && u == ()
                } else {
                    r matches Some(Err(e)) && e@ == "daemon response missing result"@
                }
            },
        },
{
    match id {
        Some(found) if found == expected_id => {
            match error_message {
                Some(m) => Some(Err(m)),
                None => {
                    if has_result {
                        Some(Ok(()))
                    } else {
                        Some(Err(String::from_str("daemon response missing result")))
                    }
                },
            }
        },
        _ => None,
    }
}

/// What reading one line did to the wait for a response frame.
#[derive(Debug)]
pub enum LineStep {
    /// The line is blank or belongs to another id: keep reading.
    Skip,
    /// The call is decided: it succeeded, or failed with the given message.
    Done(Result<(), String>),
}

/// Classifies one received line while awaiting the response with
/// `expected_id`: blank lines and frames with another id are skipped, an
/// unparsable line fails the call with the parse error, and a matching frame
/// is read as `classify_frame` says.
pub fn rpc_response_line_step(line: &str, expected_id: u64) -> (r: LineStep)
    ensures
        trim_spec(line@).len() == 0 ==> r matches LineStep::Skip,
        trim_spec(line@).len() > 0 && !json_parses(line@) ==> (r matches LineStep::Done(res)
            && res is Err),
{
    let chars = str_chars(line);
    let trimmed = trim_chars(&chars);
    if trimmed.len() == 0 {
        return LineStep::Skip;
    }
    match json_from_str(line) {
        Err(e) => LineStep::Done(Err(e)),
        Ok(v) => {
            let id = match json_get(&v, "id") {
                Some(member) => json_as_u64(member),
                None => None,
            };
            let error_message = parse_daemon_error_message(&v);
            let has_result = match json_get(&v, "result") {
                Some(_) => true,
                None => false,
            };
            match classify_frame(id, expected_id, error_message, has_result) {
                None => LineStep::Skip,
                Some(res) => LineStep::Done(res),
            }
        },
    }
}

/// One event of the response wait, as the transport reports it.
#[derive(Debug)]
pub enum ReadEvent {
    /// A full line arrived.
    Line { text: String },
    /// The connection closed before a matching frame arrived.
    Closed,
    /// The fixed timeout elapsed over the whole wait.
    TimedOut,
    /// Reading failed; the error's display text.
    IoError { error: String },
}

/// Folds one transport event into the wait for the response with
/// `expected_id`: a closed connection, a timeout and a read error each fail
/// the call with their fixed or carried message; a line is classified as
/// `rpc_response_line_step` says.
pub fn rpc_read_event_step(event: &ReadEvent, expected_id: u64) -> (r: LineStep)
    ensures
        (*event) matches ReadEvent::Closed ==> (r matches LineStep::Done(res) && res matches Err(
            e,
        ) && e@ == "connection closed"@),
        (*event) matches ReadEvent::TimedOut ==> (r matches LineStep::Done(res) && res matches Err(
            e,
        ) && e@ == "timed out waiting for daemon response"@),
        (*event) matches ReadEvent::IoError { error } ==> (r matches LineStep::Done(res)
            && res matches Err(e) && e@ == error@),
        ((*event) matches ReadEvent::Line { text } && trim_spec(text@).len() == 0) ==> (r matches
            LineStep::Skip),
{
    match event {
        ReadEvent::Line { text } => rpc_response_line_step(text.as_str(), expected_id),
        ReadEvent::Closed => LineStep::Done(Err(String::from_str("connection closed"))),
        ReadEvent::TimedOut => LineStep::Done(
            Err(String::from_str("timed out waiting for daemon response")),
        ),
        ReadEvent::IoError { error } => LineStep::Done(Err(error.clone())),
    }
}

} // verus!
