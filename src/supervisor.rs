use crate::backoff::{backoff_ms, backoff_spec, RestartPolicy};
use crate::types::SidecarState;
use vstd::prelude::*;

verus! {

/// A read-only snapshot of a supervisor, for observers.
#[derive(Debug, Clone)]
pub struct SidecarStatus {
    pub state: SidecarState,
    pub pid: Option<u32>,
    pub port: Option<u16>,
    /// Seconds since the last successful start, while running.
    pub uptime_secs: Option<u64>,
    /// Crashes over the whole supervised lifetime.
    pub crash_count: u32,
    /// RFC 3339 text of the last successful start.
    pub started_at: Option<String>,
}

/// The RFC 3339 text of an instant, given in seconds since the epoch (UTC).
pub uninterp spec fn rfc3339_utc(secs: int) -> Seq<char>;

/// Relies on chrono's `DateTime::<Utc>::from_timestamp`, which gives `None`
/// out of chrono's range, and `DateTime::to_rfc3339`, which writes the
/// instant as RFC 3339 text; both depend on the seconds alone.
#[verifier::external_body]
fn rfc3339_of(secs: i64) -> (r: Option<String>)
    ensures
        r matches Some(t) ==> t@ == rfc3339_utc(secs as int),
{
    match chrono::DateTime::from_timestamp(secs, 0) {
        Some(d) => Some(d.to_rfc3339()),
        None => None,
    }
}

/// What happened to the supervised engine, or what a caller asked for.
#[derive(Debug, Clone, Copy, PartialEq, Eq, Structural)]
pub enum SupervisorEvent {
    /// A caller asked for the engine to run.
    StartRequested,
    /// The engine process was created.
    Spawned { pid: u32 },
    /// The engine process could not be created.
    SpawnFailed,
    /// The engine announced its endpoint.
    EndpointDiscovered { port: u16, now_secs: u64 },
    /// The start timeout elapsed before any endpoint was announced.
    StartTimedOut,
    /// The engine process ended.
    ProcessExited,
    /// A caller asked for the engine to stop.
    StopRequested,
    /// The restart policy is to be applied to the current crash.
    RestartPolicyDue,
    /// The backoff delay before a restart has passed.
    BackoffElapsed,
    /// A caller cancelled every operation in progress.
    CancelRequested,
}

/// What the driver of the supervisor must do after a transition.
#[derive(Debug, Clone, Copy, PartialEq, Eq, Structural)]
pub enum SupervisorAction {
    Nothing,
    /// Launch the engine, then report `Spawned` or `SpawnFailed`.
    Spawn,
    /// Kill the leftover process when `kill` holds, then report `RestartPolicyDue`.
    CheckRestart { kill: bool },
    /// Ask the engine to shut down gracefully, forcing it after the grace period.
    Terminate,
    /// Wait `ms` milliseconds, then report `BackoffElapsed`.
    WaitBackoff { ms: u64 },
    /// The restart cap was reached: report a permanent failure to the caller.
    GiveUp,
    /// Fail every operation in flight with `Cancelled`; kill the process when `kill` holds.
    Cancel { kill: bool },
}

/// The mathematical state of a supervisor.
pub struct SupervisorView {
    pub state: SidecarState,
    /// Consecutive failed attempts in the current crash episode.
    pub attempts: u32,
    /// Crashes over the whole supervised lifetime.
    pub crash_count: u32,
    pub pid: Option<u32>,
    pub port: Option<u16>,
    /// Time of the last successful start, in seconds since the epoch.
    pub started_at: Option<u64>,
    pub policy: RestartPolicy,
}

pub open spec fn sat_inc(n: u32) -> u32 {
    if n == u32::MAX {
        n
    } else {
        (n + 1) as u32
    }
}

/// The supervisor state a value of it may be in.
pub open spec fn supervisor_wf(s: SupervisorView) -> bool {
    &&& s.policy.wf()
    &&& s.state is Crashed ==> s.state->attempts == s.attempts && s.attempts >= 1
    &&& s.state is Running ==> s.attempts == 0
}

/// A failure of the current attempt: the episode counter and the lifetime
/// crash count both grow, and the process and endpoint are gone.
pub open spec fn crash_of(s: SupervisorView, kill: bool) -> (SupervisorView, SupervisorAction) {
    let n = sat_inc(s.attempts);
    (
        SupervisorView {
            state: SidecarState::Crashed { attempts: n },
            attempts: n,
            crash_count: sat_inc(s.crash_count),
            pid: None,
            port: None,
            ..s
        },
        SupervisorAction::CheckRestart { kill },
    )
}

/// The transition table of the supervisor. Any pair it does not list
/// leaves the state as it is and asks for nothing.
pub open spec fn transition(s: SupervisorView, e: SupervisorEvent) -> (SupervisorView, SupervisorAction) {
    let unchanged = (s, SupervisorAction::Nothing);
    match e {
        SupervisorEvent::CancelRequested => (
            SupervisorView { state: SidecarState::Stopped, pid: None, port: None, ..s },
            SupervisorAction::Cancel { kill: s.pid is Some },
        ),
        SupervisorEvent::StartRequested => if s.state is Stopped {
            (SupervisorView { state: SidecarState::Starting, ..s }, SupervisorAction::Spawn)
        } else {
            unchanged
        },
        SupervisorEvent::Spawned { pid } => if s.state is Starting {
            (SupervisorView { pid: Some(pid), ..s }, SupervisorAction::Nothing)
        } else {
            unchanged
        },
        SupervisorEvent::SpawnFailed => if s.state is Starting {
            crash_of(s, false)
        } else {
            unchanged
        },
        SupervisorEvent::EndpointDiscovered { port, now_secs } => if s.state is Starting {
            (
                SupervisorView {
                    state: SidecarState::Running,
                    attempts: 0,
                    port: Some(port),
                    started_at: Some(now_secs),
                    ..s
                },
                SupervisorAction::Nothing,
            )
        } else {
            unchanged
        },
        SupervisorEvent::StartTimedOut => if s.state is Starting {
            crash_of(s, s.pid is Some)
        } else {
            unchanged
        },
        SupervisorEvent::ProcessExited => if s.state is Starting || s.state is Running {
            crash_of(s, false)
        } else if s.state is Stopping {
            (
                SupervisorView { state: SidecarState::Stopped, pid: None, port: None, ..s },
                SupervisorAction::Nothing,
            )
        } else {
            unchanged
        },
        SupervisorEvent::StopRequested => if s.state is Running {
            (SupervisorView { state: SidecarState::Stopping, ..s }, SupervisorAction::Terminate)
        } else {
            unchanged
        },
        SupervisorEvent::RestartPolicyDue => match s.state {
            SidecarState::Crashed { attempts } => if attempts < s.policy.max_restarts {
                let ms = backoff_spec(s.policy, attempts as nat) as u64;
                (
                    SupervisorView { state: SidecarState::Restarting { backoff_ms: ms }, ..s },
                    SupervisorAction::WaitBackoff { ms },
                )
            } else {
                (SupervisorView { state: SidecarState::Stopped, ..s }, SupervisorAction::GiveUp)
            },
            _ => unchanged,
        },
        SupervisorEvent::BackoffElapsed => if s.state is Restarting {
            (SupervisorView { state: SidecarState::Starting, ..s }, SupervisorAction::Spawn)
        } else {
            unchanged
        },
    }
}

/// Reaching `Running` leaves the episode's attempt counter at zero, and no
/// event ever lowers the lifetime crash count.
pub proof fn law_running_resets_attempts(s: SupervisorView, e: SupervisorEvent)
    requires
        supervisor_wf(s),
    ensures
        transition(s, e).0.state is Running ==> transition(s, e).0.attempts == 0,
        transition(s, e).0.crash_count >= s.crash_count,
        supervisor_wf(transition(s, e).0),
{
}

/// One attempt whose process exits as soon as it is spawned, followed by the
/// restart policy.
pub open spec fn after_failed_attempt(s: SupervisorView, pid: u32) -> SupervisorView {
    let spawned = transition(s, SupervisorEvent::Spawned { pid }).0;
    let exited = transition(spawned, SupervisorEvent::ProcessExited).0;
    transition(exited, SupervisorEvent::RestartPolicyDue).0
}

/// A fresh supervisor asked to start an engine that exits at once on every
/// attempt: the state after the first attempt and `k` restarts.
pub open spec fn crash_loop(p: RestartPolicy, pid: u32, k: nat) -> SupervisorView
    decreases k,
{
    if k == 0 {
        after_failed_attempt(transition(fresh(p), SupervisorEvent::StartRequested).0, pid)
    } else {
        after_failed_attempt(
            transition(crash_loop(p, pid, (k - 1) as nat), SupervisorEvent::BackoffElapsed).0,
            pid,
        )
    }
}

/// With an engine that exits at once on every attempt and `max_restarts = N`,
/// the supervisor crashes `max(N, 1)` times: after each of the first `N - 1`
/// crashes it waits the policy's backoff for that failure and restarts, and
/// the last crash leaves it `Stopped` with a crash count of `max(N, 1)`, where
/// a further backoff event starts nothing.
pub proof fn law_crash_loop_gives_up(p: RestartPolicy, pid: u32, k: nat)
    requires
        p.wf(),
        k == 0 || k < p.max_restarts,
    ensures
        crash_loop(p, pid, k).policy == p,
        crash_loop(p, pid, k).attempts == k + 1,
        crash_loop(p, pid, k).crash_count == k + 1,
        k + 1 < p.max_restarts ==> crash_loop(p, pid, k).state == (SidecarState::Restarting {
            backoff_ms: backoff_spec(p, (k + 1) as nat) as u64,
        }),
        k + 1 >= p.max_restarts ==> crash_loop(p, pid, k).state is Stopped,
        k + 1 >= p.max_restarts ==> transition(
            crash_loop(p, pid, k),
            SupervisorEvent::BackoffElapsed,
        ).0 == crash_loop(p, pid, k),
    decreases k,
{
    let start = if k == 0 {
        transition(fresh(p), SupervisorEvent::StartRequested).0
    } else {
        law_crash_loop_gives_up(p, pid, (k - 1) as nat);
        transition(crash_loop(p, pid, (k - 1) as nat), SupervisorEvent::BackoffElapsed).0
    };
    assert(start.state is Starting && start.attempts == k && start.crash_count == k);
    assert(start.policy == p);
    let spawned = transition(start, SupervisorEvent::Spawned { pid }).0;
    let exited = transition(spawned, SupervisorEvent::ProcessExited).0;
    assert(exited.state == (SidecarState::Crashed { attempts: (k + 1) as u32 }));
    assert(exited.attempts == k + 1 && exited.crash_count == k + 1);
    assert(exited.policy == p);
}

/// A supervisor of one engine: the single owner of its lifecycle state.
pub struct Supervisor {
    state: SidecarState,
    attempts: u32,
    crash_count: u32,
    pid: Option<u32>,
    port: Option<u16>,
    started_at: Option<u64>,
    policy: RestartPolicy,
}

impl View for Supervisor {
    type V = SupervisorView;

    closed spec fn view(&self) -> SupervisorView {
        SupervisorView {
            state: self.state,
            attempts: self.attempts,
            crash_count: self.crash_count,
            pid: self.pid,
            port: self.port,
            started_at: self.started_at,
            policy: self.policy,
        }
    }
}

/// The supervisor before anything happened.
pub open spec fn fresh(policy: RestartPolicy) -> SupervisorView {
    SupervisorView {
        state: SidecarState::Stopped,
        attempts: 0,
        crash_count: 0,
        pid: None,
        port: None,
        started_at: None,
        policy,
    }
}

fn sat_inc_exec(n: u32) -> (r: u32)
    ensures
        r == sat_inc(n),
{
    if n == u32::MAX {
        n
    } else {
        n + 1
    }
}

impl Supervisor {
    pub fn new(policy: RestartPolicy) -> (r: Supervisor)
        requires
            policy.wf(),
        ensures
            r@ == fresh(policy),
            supervisor_wf(r@),
    {
        Supervisor {
            state: SidecarState::Stopped,
            attempts: 0,
            crash_count: 0,
            pid: None,
            port: None,
            started_at: None,
            policy,
        }
    }

    fn crash(&mut self, kill: bool) -> (a: SupervisorAction)
        ensures
            (final(self)@, a) == crash_of(old(self)@, kill),
    {
        let n = sat_inc_exec(self.attempts);
        self.state = SidecarState::Crashed { attempts: n };
        self.attempts = n;
        self.crash_count = sat_inc_exec(self.crash_count);
        self.pid = None;
        self.port = None;
        SupervisorAction::CheckRestart { kill }
    }

    /// Applies one event: the new state and the action are those of the
    /// transition table.
    pub fn step(&mut self, event: SupervisorEvent) -> (a: SupervisorAction)
        requires
            supervisor_wf(old(self)@),
        ensures
            (final(self)@, a) == transition(old(self)@, event),
            supervisor_wf(final(self)@),
    {
        match event {
            SupervisorEvent::CancelRequested => {
                let kill = self.pid.is_some();
                self.state = SidecarState::Stopped;
                self.pid = None;
                self.port = None;
                SupervisorAction::Cancel { kill }
            },
            SupervisorEvent::StartRequested => {
                if let SidecarState::Stopped = self.state {
                    self.state = SidecarState::Starting;
                    SupervisorAction::Spawn
                } else {
                    SupervisorAction::Nothing
                }
            },
            SupervisorEvent::Spawned { pid } => {
                if let SidecarState::Starting = self.state {
                    self.pid = Some(pid);
                }
                SupervisorAction::Nothing
            },
            SupervisorEvent::SpawnFailed => {
                if let SidecarState::Starting = self.state {
                    self.crash(false)
                } else {
                    SupervisorAction::Nothing
                }
            },
            SupervisorEvent::EndpointDiscovered { port, now_secs } => {
                if let SidecarState::Starting = self.state {
                    self.state = SidecarState::Running;
                    self.attempts = 0;
                    self.port = Some(port);
                    self.started_at = Some(now_secs);
                }
                SupervisorAction::Nothing
            },
            SupervisorEvent::StartTimedOut => {
                if let SidecarState::Starting = self.state {
                    let kill = self.pid.is_some();
                    self.crash(kill)
                } else {
                    SupervisorAction::Nothing
                }
            },
            SupervisorEvent::ProcessExited => {
                match self.state {
                    SidecarState::Starting | SidecarState::Running => self.crash(false),
                    SidecarState::Stopping => {
                        self.state = SidecarState::Stopped;
                        self.pid = None;
                        self.port = None;
                        SupervisorAction::Nothing
                    },
                    _ => SupervisorAction::Nothing,
                }
            },
            SupervisorEvent::StopRequested => {
                if let SidecarState::Running = self.state {
                    self.state = SidecarState::Stopping;
                    SupervisorAction::Terminate
                } else {
                    SupervisorAction::Nothing
                }
            },
            SupervisorEvent::RestartPolicyDue => {
                if let SidecarState::Crashed { attempts } = self.state {
                    if attempts < self.policy.max_restarts {
                        let ms = backoff_ms(&self.policy, attempts);
                        self.state = SidecarState::Restarting { backoff_ms: ms };
                        SupervisorAction::WaitBackoff { ms }
                    } else {
                        self.state = SidecarState::Stopped;
                        SupervisorAction::GiveUp
                    }
                } else {
                    SupervisorAction::Nothing
                }
            },
            SupervisorEvent::BackoffElapsed => {
                if let SidecarState::Restarting { .. } = self.state {
                    self.state = SidecarState::Starting;
                    SupervisorAction::Spawn
                } else {
                    SupervisorAction::Nothing
                }
            },
        }
    }

    /// A snapshot of the supervisor at `now_secs` (seconds since the epoch).
    pub fn status(&self, now_secs: u64) -> (r: SidecarStatus)
        ensures
            r.state == self@.state,
            r.pid == self@.pid,
            r.port == self@.port,
            r.crash_count == self@.crash_count,
            r.uptime_secs == (if self@.state is Running && self@.started_at is Some {
                let t = self@.started_at->0;
                Some(if now_secs >= t { (now_secs - t) as u64 } else { 0u64 })
            } else {
                None::<u64>
            }),
            r.started_at matches Some(t) ==> self@.started_at matches Some(secs) && t@
                == rfc3339_utc(secs as int),
            self@.started_at is None ==> r.started_at is None,
    {
        let uptime_secs = match (self.state, self.started_at) {
            (SidecarState::Running, Some(t)) => Some(if now_secs >= t { now_secs - t } else { 0 }),
            _ => None,
        };
        let started_at = match self.started_at {
            Some(secs) => if secs <= i64::MAX as u64 {
                rfc3339_of(secs as i64)
            } else {
                None
            },
            None => None,
        };
        SidecarStatus {
            state: self.state,
            pid: self.pid,
            port: self.port,
            uptime_secs,
            crash_count: self.crash_count,
            started_at,
        }
    }

    pub fn state(&self) -> (r: SidecarState)
        ensures
            r == self@.state,
    {
        self.state
    }

    pub fn attempts(&self) -> (r: u32)
        ensures
            r == self@.attempts,
    {
        self.attempts
    }

    pub fn crash_count(&self) -> (r: u32)
        ensures
            r == self@.crash_count,
    {
        self.crash_count
    }

    pub fn pid(&self) -> (r: Option<u32>)
        ensures
            r == self@.pid,
    {
        self.pid
    }

    pub fn port(&self) -> (r: Option<u16>)
        ensures
            r == self@.port,
    {
        self.port
    }
}

} // verus!
