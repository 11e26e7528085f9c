//! The runner supervisor: the simpler auxiliary process managed purely by
//! exit-status polling, with its spawn argument vector of optional flags.

use vstd::prelude::*;
use vstd::string::*;

use crate::status::{OrbitRunnerState, OrbitRunnerStatus, RunnerView};
use crate::text::{push_str_chars, str_chars, string_from_chars, trim_chars, trim_spec, usable_value};

verus! {

/// The pair a usable optional setting contributes to the argument vector:
/// its flag and its trimmed value; an absent or blank setting contributes
/// nothing.
pub open spec fn opt_flag_args(flag: Seq<char>, value: Option<&str>) -> Seq<Seq<char>> {
    if usable_value(value) {
        seq![flag, trim_spec((value->Some_0)@)]
    } else {
        Seq::empty()
    }
}

fn push_opt_flag(args: &mut Vec<String>, flag: &str, value: Option<&str>)
    ensures
        final(args).deep_view() == old(args).deep_view() + opt_flag_args(flag@, value),
{
    match value {
        Some(v) => {
            let chars = str_chars(v);
            let trimmed = trim_chars(&chars);
            if trimmed.len() > 0 {
                let mut f: Vec<char> = Vec::new();
                push_str_chars(&mut f, flag);
                args.push(string_from_chars(&f));
                args.push(string_from_chars(&trimmed));
                proof {
                    assert(args.deep_view() =~= old(args).deep_view() + opt_flag_args(
                        flag@,
                        value,
                    ));
                }
            } else {
                proof {
                    assert(args.deep_view() =~= old(args).deep_view() + opt_flag_args(
                        flag@,
                        value,
                    ));
                }
            }
        },
        None => {
            proof {
                assert(args.deep_view() =~= old(args).deep_view() + opt_flag_args(flag@, value));
            }
        },
    }
}

/// The runner's argument vector: `--data-dir <dir> --orbit-url <url>`, then
/// `--orbit-token`, `--orbit-auth-url` and `--orbit-runner-name` for each of
/// those settings that is present and non-blank after trimming, in this
/// order.
pub fn runner_spawn_args(
    data_dir: &str,
    orbit_url: &str,
    token: Option<&str>,
    auth_url: Option<&str>,
    runner_name: Option<&str>,
) -> (r: Vec<String>)
    ensures
        r.deep_view() == seq!["--data-dir"@, data_dir@, "--orbit-url"@, orbit_url@]
            + opt_flag_args("--orbit-token"@, token) + opt_flag_args("--orbit-auth-url"@, auth_url)
            + opt_flag_args("--orbit-runner-name"@, runner_name),
{
    let mut args: Vec<String> = Vec::new();
    args.push(String::from_str("--data-dir"));
    args.push(String::from_str(data_dir));
    args.push(String::from_str("--orbit-url"));
    args.push(String::from_str(orbit_url));
    proof {
        assert(args.deep_view() =~= seq!["--data-dir"@, data_dir@, "--orbit-url"@, orbit_url@]);
    }
    push_opt_flag(&mut args, "--orbit-token", token);
    push_opt_flag(&mut args, "--orbit-auth-url", auth_url);
    push_opt_flag(&mut args, "--orbit-runner-name", runner_name);
    args
}

/// The error reported when spawning the runner process fails.
pub fn runner_spawn_failure_message(err: &str) -> (r: String)
    ensures
        r@ == "Failed to start Orbit runner daemon: "@ + err@,
{
    let mut msg = String::from_str("Failed to start Orbit runner daemon: ");
    msg.append(err);
    msg
}

/// The status recorded right after this supervisor spawns the runner.
pub fn runner_spawned_status(pid: Option<u32>, now_ms: i64, orbit_url: &str) -> (r:
    OrbitRunnerStatus)
    ensures
        r@ == (RunnerView {
            state: OrbitRunnerState::Running,
            pid: pid,
            started_at_ms: Some(now_ms),
            last_error: None,
            orbit_url: Some(orbit_url@),
        }),
{
    OrbitRunnerStatus {
        state: OrbitRunnerState::Running,
        pid,
        started_at_ms: Some(now_ms),
        last_error: None,
        orbit_url: Some(String::from_str(orbit_url)),
    }
}

/// The status after stopping the runner: Stopped with pid, start time and
/// error cleared, keeping the recorded endpoint URL.
pub fn runner_stopped_status(prev: &OrbitRunnerStatus) -> (r: OrbitRunnerStatus)
    ensures
        r@ == (RunnerView {
            state: OrbitRunnerState::Stopped,
            pid: None,
            started_at_ms: None,
            last_error: None,
            orbit_url: prev@.orbit_url,
        }),
{
    OrbitRunnerStatus {
        state: OrbitRunnerState::Stopped,
        pid: None,
        started_at_ms: None,
        last_error: None,
        orbit_url: prev.orbit_url.clone(),
    }
}

} // verus!
