use crate::backoff::{RestartPolicy, MULTIPLIER_SCALE};
use vstd::prelude::*;
use vstd::string::StringExecFns;

verus! {

/// Name of the engine binary when nothing more specific is found.
pub const ENGINE_BINARY: &'static str = "pryx-core";

/// Name of the engine's database file when none is configured.
pub const DEFAULT_DB_PATH: &'static str = "pryx.db";

pub const DEFAULT_START_TIMEOUT_MS: u64 = 3000;

pub const DEFAULT_MAX_RESTARTS: u32 = 10;

pub const DEFAULT_INITIAL_BACKOFF_MS: u64 = 1000;

pub const DEFAULT_MAX_BACKOFF_MS: u64 = 30000;

/// A factor of 2.0, in thousandths.
pub const DEFAULT_BACKOFF_MULTIPLIER_MILLI: u32 = 2000;

pub const DEFAULT_PORT_DISCOVERY_TIMEOUT_SECS: u64 = 10;

/// Startup parameters of one supervised engine.
#[derive(Debug, Clone)]
pub struct SidecarConfig {
    pub binary: String,
    pub args: Vec<String>,
    /// Environment of the engine, one `(name, value)` pair per variable.
    pub env: Vec<(String, String)>,
    pub cwd: String,
    pub db_path: String,
    pub start_timeout_ms: u64,
    pub max_restarts: u32,
    pub initial_backoff_ms: u64,
    pub max_backoff_ms: Option<u64>,
    /// Growth factor between consecutive restart delays, in thousandths.
    pub backoff_multiplier_milli: u32,
    pub port_discovery_timeout_secs: u64,
}

impl SidecarConfig {
    /// A configuration whose restart policy is usable.
    pub open spec fn wf(&self) -> bool {
        &&& self.initial_backoff_ms > 0
        &&& self.backoff_multiplier_milli > MULTIPLIER_SCALE
    }

    /// A configuration for `binary` run in `cwd` with its database at
    /// `db_path`, and the default timeouts and restart policy.
    pub fn new(binary: String, cwd: String, db_path: String) -> (r: SidecarConfig)
        ensures
            r.binary@ == binary@,
            r.cwd@ == cwd@,
            r.db_path@ == db_path@,
            r.args@.len() == 0,
            r.env@.len() == 0,
            r.start_timeout_ms == DEFAULT_START_TIMEOUT_MS,
            r.max_restarts == DEFAULT_MAX_RESTARTS,
            r.initial_backoff_ms == DEFAULT_INITIAL_BACKOFF_MS,
            r.max_backoff_ms == Some(DEFAULT_MAX_BACKOFF_MS),
            r.backoff_multiplier_milli == DEFAULT_BACKOFF_MULTIPLIER_MILLI,
            r.port_discovery_timeout_secs == DEFAULT_PORT_DISCOVERY_TIMEOUT_SECS,
            r.wf(),
    {
        SidecarConfig {
            binary,
            args: Vec::new(),
            env: Vec::new(),
            cwd,
            db_path,
            start_timeout_ms: DEFAULT_START_TIMEOUT_MS,
            max_restarts: DEFAULT_MAX_RESTARTS,
            initial_backoff_ms: DEFAULT_INITIAL_BACKOFF_MS,
            max_backoff_ms: Some(DEFAULT_MAX_BACKOFF_MS),
            backoff_multiplier_milli: DEFAULT_BACKOFF_MULTIPLIER_MILLI,
            port_discovery_timeout_secs: DEFAULT_PORT_DISCOVERY_TIMEOUT_SECS,
        }
    }

    /// The default configuration, given what was found of the engine binary
    /// and the current directory: the binary found, else the bare engine
    /// name; the database file under its default name.
    pub fn with_defaults(found_binary: Option<String>, cwd: String) -> (r: SidecarConfig)
        ensures
            found_binary matches Some(b) ==> r.binary@ == b@,
            found_binary is None ==> r.binary@ == ENGINE_BINARY@,
            r.cwd@ == cwd@,
            r.db_path@ == DEFAULT_DB_PATH@,
            r.args@.len() == 0,
            r.wf(),
    {
        let binary = match found_binary {
            Some(b) => b,
            None => String::from_str(ENGINE_BINARY),
        };
        SidecarConfig::new(binary, cwd, String::from_str(DEFAULT_DB_PATH))
    }

    /// The restart policy these parameters describe.
    pub fn restart_policy(&self) -> (r: RestartPolicy)
        ensures
            r.max_restarts == self.max_restarts,
            r.initial_backoff_ms == self.initial_backoff_ms,
            r.max_backoff_ms == self.max_backoff_ms,
            r.backoff_multiplier_milli == self.backoff_multiplier_milli,
            self.wf() ==> r.wf(),
    {
        RestartPolicy {
            max_restarts: self.max_restarts,
            initial_backoff_ms: self.initial_backoff_ms,
            max_backoff_ms: self.max_backoff_ms,
            backoff_multiplier_milli: self.backoff_multiplier_milli,
        }
    }
}

} // verus!
