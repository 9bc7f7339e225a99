use crate::text::has_prefix;
use vstd::prelude::*;
use vstd::string::StringExecFns;

verus! {

/// Lifecycle of the supervised engine.
#[derive(Debug, Clone, Copy, PartialEq, Eq, Structural)]
pub enum SidecarState {
    Stopped,
    Starting,
    Running,
    Crashed { attempts: u32 },
    Restarting { backoff_ms: u64 },
    Stopping,
}

#[verifier::external_type_specification]
#[verifier::external_body]
pub struct ExIoError(std::io::Error);

/// Relies on `<std::io::Error as Display>::to_string` for the text of a
/// lower-level failure; that text comes from the platform, so nothing is
/// stated of it.
#[verifier::external_body]
fn io_error_text(e: &std::io::Error) -> (r: String) {
    e.to_string()
}

/// The closed set of failures of the supervisor and its bridge.
#[derive(Debug)]
pub enum SidecarError {
    SpawnFailed { binary: String, reason: String },
    NoChild,
    ProcessNotRunning(String),
    PortDiscoveryFailed(std::io::Error),
    Serialization(String),
    Io(std::io::Error),
    Cancelled,
}

/// The text of a spawn failure.
pub open spec fn spawn_failed_text(binary: Seq<char>, reason: Seq<char>) -> Seq<char> {
    "Failed to spawn sidecar binary '"@ + binary + "': "@ + reason
}

impl SidecarError {
    /// The human-readable text of the error.
    pub fn message(&self) -> (r: String)
        ensures
            match self {
                SidecarError::SpawnFailed { binary, reason } => r@ == spawn_failed_text(binary@, reason@),
                SidecarError::NoChild => r@ == "Sidecar process not running"@,
                SidecarError::ProcessNotRunning(d) => r@ == "Sidecar process not running: "@ + d@,
                SidecarError::PortDiscoveryFailed(_) => has_prefix(r@, "Port discovery failed: "@),
                SidecarError::Serialization(d) => r@ == "Serialization error: "@ + d@,
                SidecarError::Io(_) => has_prefix(r@, "IO error: "@),
                SidecarError::Cancelled => r@ == "Operation cancelled"@,
            },
    {
        match self {
            SidecarError::SpawnFailed { binary, reason } => {
                let mut r = String::from_str("Failed to spawn sidecar binary '");
                r.append(binary.as_str());
                r.append("': ");
                r.append(reason.as_str());
                assert(r@ =~= spawn_failed_text(binary@, reason@));
                r
            },
            SidecarError::NoChild => String::from_str("Sidecar process not running"),
            SidecarError::ProcessNotRunning(d) => {
                let mut r = String::from_str("Sidecar process not running: ");
                r.append(d.as_str());
                r
            },
            SidecarError::PortDiscoveryFailed(e) => {
                let mut r = String::from_str("Port discovery failed: ");
                let t = io_error_text(e);
                r.append(t.as_str());
                assert(r@.subrange(0, "Port discovery failed: "@.len() as int) =~= "Port discovery failed: "@);
                r
            },
            SidecarError::Serialization(d) => {
                let mut r = String::from_str("Serialization error: ");
                r.append(d.as_str());
                r
            },
            SidecarError::Io(e) => {
                let mut r = String::from_str("IO error: ");
                let t = io_error_text(e);
                r.append(t.as_str());
                assert(r@.subrange(0, "IO error: "@.len() as int) =~= "IO error: "@);
                r
            },
            SidecarError::Cancelled => String::from_str("Operation cancelled"),
        }
    }
}

} // verus!
