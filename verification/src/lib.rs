//! Supervision of a locally spawned sidecar daemon: address derivation for its
//! TCP control socket, the line-delimited RPC protocol used to probe and shut
//! it down, and the lifecycle state machines that reconcile what is running
//! with what this process spawned.

use vstd::prelude::*;

pub mod addr;
pub mod executables;
pub mod probe;
pub mod rpc;
pub mod runner;
pub mod settings;
pub mod shutdown;
pub mod status;
pub mod supervisor;
pub mod text;

verus! {

/// The port used for the daemon's listen address when the configured host
/// string names no explicit port.
pub const DEFAULT_DAEMON_PORT: u16 = 4732;

} // verus!
