//! The slice of the application settings the supervisors read, and the
//! helpers that resolve the configuration directory they hand to spawned
//! processes.

use vstd::prelude::*;
use vstd::string::*;

use crate::addr::{daemon_listen_addr, daemon_listen_addr_spec};
use crate::text::{opt_str, trim_to_non_empty, trim_spec, usable_setting};

verus! {

/// What the supervisors read from the application settings: the remote host
/// the listen port is derived from, the backend token, and the runner's
/// endpoint configuration.
#[derive(Clone, Debug)]
pub struct AppSettings {
    pub remote_backend_host: String,
    pub remote_backend_token: Option<String>,
    pub orbit_ws_url: Option<String>,
    pub orbit_auth_url: Option<String>,
    pub orbit_runner_name: Option<String>,
}

/// The daemon listen address derived from the configured remote host.
pub fn configured_daemon_listen_addr(settings: &AppSettings) -> (r: String)
    ensures
        r@ == daemon_listen_addr_spec(settings.remote_backend_host@),
{
    daemon_listen_addr(settings.remote_backend_host.as_str())
}

/// The runner endpoint URL a `status` call writes into a record that has
/// none: the configured URL, trimmed, when it is not blank.
pub fn configured_orbit_url(settings: &AppSettings) -> (r: Option<String>)
    ensures
        usable_setting(settings.orbit_ws_url.deep_view()) ==> (r is Some && (r->Some_0)@
            == trim_spec(settings.orbit_ws_url.deep_view()->Some_0)),
        !usable_setting(settings.orbit_ws_url.deep_view()) ==> r is None,
{
    trim_to_non_empty(opt_str(&settings.orbit_ws_url))
}

/// The configuration home handed down by the platform layer, or the fixed
/// error when none could be resolved.
pub fn resolve_default_codex_home(resolved: Option<String>) -> (r: Result<String, String>)
    ensures
        resolved is Some ==> (r is Ok && r->Ok_0 == resolved->Some_0),
        resolved is None ==> (r is Err && (r->Err_0)@ == "Unable to resolve CODEX_HOME"@),
{
    match resolved {
        Some(p) => Ok(p),
        None => Err(String::from_str("Unable to resolve CODEX_HOME")),
    }
}

/// Relies on `std::path::Path::exists`: whether something exists on disk at
/// the path; the answer depends on the file system of the moment.
#[verifier::external_body]
fn path_exists(path: &str) -> bool {
    std::path::Path::new(path).exists()
}

/// Relies on `std::path::Path::canonicalize`: the canonical absolute form of
/// an existing path, read lossily as text; the outcome depends on the file
/// system of the moment. The error is returned as its display text.
#[verifier::external_body]
fn canonicalize_path(path: &str) -> Result<String, String> {
    match std::path::Path::new(path).canonicalize() {
        Ok(p) => Ok(p.to_string_lossy().into_owned()),
        Err(e) => Err(e.to_string()),
    }
}

/// Relies on `std::path::Path::is_dir`: whether the path names a directory;
/// the answer depends on the file system of the moment.
#[verifier::external_body]
fn path_is_dir(path: &str) -> bool {
    std::path::Path::new(path).is_dir()
}

/// What a canonicalization outcome means for the configuration home: a
/// failed canonicalization is reported with its cause, a canonical path that
/// is no directory is rejected, and a canonical directory is the answer.
pub fn canonical_dir_outcome(canonical: Result<String, String>, is_dir: bool) -> (r: Result<
    Option<String>,
    String,
>)
    ensures
        canonical is Err ==> (r is Err && (r->Err_0)@ == "Failed to resolve CODEX_HOME: "@ + (
        canonical->Err_0)@),
        canonical is Ok && !is_dir ==> (r is Err && (r->Err_0)@
            == "CODEX_HOME is not a directory"@),
        canonical is Ok && is_dir ==> (r is Ok && r->Ok_0 is Some && (r->Ok_0->Some_0)@ == (
        canonical->Ok_0)@),
{
    match canonical {
        Err(e) => {
            let mut msg = String::from_str("Failed to resolve CODEX_HOME: ");
            msg.append(e.as_str());
            Err(msg)
        },
        Ok(c) => {
            if is_dir {
                Ok(Some(c))
            } else {
                Err(String::from_str("CODEX_HOME is not a directory"))
            }
        },
    }
}

/// The canonical form of the configuration home when it exists: `None` for a
/// path not on disk, the canonical directory for one that is, and an error
/// when it cannot be canonicalized or is no directory. The disk decides the
/// branch; `canonical_dir_outcome` states what each branch reports.
pub fn canonical_existing_dir(path: &str) -> (r: Result<Option<String>, String>) {
    if !path_exists(path) {
        return Ok(None);
    }
    let canonical = canonicalize_path(path);
    let is_dir = match &canonical {
        Ok(c) => path_is_dir(c.as_str()),
        Err(_) => false,
    };
    canonical_dir_outcome(canonical, is_dir)
}

} // verus!
