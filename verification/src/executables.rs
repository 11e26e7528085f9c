//! Names and messages for the helper executables the supervisors launch or
//! consult: the sidecar daemon binary beside the application, and the
//! Tailscale command-line tool.

use vstd::prelude::*;
use vstd::string::*;

verus! {

/// The file names the daemon binary is looked for under, beside the running
/// executable, underscored name first; Windows builds append an `.exe`
/// suffix to each.
pub fn daemon_binary_candidates() -> (r: Vec<String>)
    ensures
        r.deep_view() =~= seq!["codex_monitor_daemon"@, "codex-monitor-daemon"@],
{
    let mut candidates: Vec<String> = Vec::new();
    candidates.push(String::from_str("codex_monitor_daemon"));
    candidates.push(String::from_str("codex-monitor-daemon"));
    candidates
}

/// The error reported when no candidate name resolves to a file beside the
/// running executable.
pub fn daemon_binary_missing_message(dir: &str) -> (r: String)
    ensures
        r@ == "Unable to locate daemon binary in "@ + dir@
            + " (tried: codex_monitor_daemon, codex-monitor-daemon)"@,
{
    let mut msg = String::from_str("Unable to locate daemon binary in ");
    msg.append(dir);
    msg.append(" (tried: codex_monitor_daemon, codex-monitor-daemon)");
    msg
}

/// The error reported when every candidate Tailscale binary failed to run
/// for a reason other than being absent, one failure per candidate.
pub fn tailscale_resolve_failure_message(failures: &Vec<String>) -> (r: String)
    ensures
        r@ == "Failed to run tailscale version from candidate paths: "@ + crate::text::join_spec(
            failures.deep_view(),
            " | "@,
        ),
{
    let mut msg = String::from_str("Failed to run tailscale version from candidate paths: ");
    let joined = crate::text::join_with(failures, " | ");
    msg.append(joined.as_str());
    msg
}

/// The message reported when the Tailscale command-line tool is found
/// neither on the search path nor in the standard install locations; builds
/// for platforms with well-known application bundles name those too.
pub fn missing_tailscale_message() -> (r: String)
    ensures
        r@ == "Tailscale CLI not found on PATH or standard install paths."@,
{
    String::from_str("Tailscale CLI not found on PATH or standard install paths.")
}

} // verus!
