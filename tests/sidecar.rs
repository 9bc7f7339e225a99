use pryx_host::backoff::{backoff_ms, RestartPolicy};
use pryx_host::binary::{ancestor_candidates, find_pryx_core_binary, search_ancestors};
use pryx_host::config::SidecarConfig;
use pryx_host::discovery::parse_port_line;
use pryx_host::supervisor::{Supervisor, SupervisorAction, SupervisorEvent};
use pryx_host::types::{SidecarError, SidecarState};

fn policy(max_restarts: u32, initial: u64, max: Option<u64>, milli: u32) -> RestartPolicy {
    RestartPolicy {
        max_restarts,
        initial_backoff_ms: initial,
        max_backoff_ms: max,
        backoff_multiplier_milli: milli,
    }
}

#[test]
fn test_default_config() {
    let config = SidecarConfig::with_defaults(None, "/work".to_string());
    assert!(config.binary.ends_with("pryx-core") || config.binary == "pryx-core");
    assert_eq!(config.db_path, "pryx.db");
}

#[test]
fn test_config_validation() {
    let mut config = SidecarConfig::with_defaults(None, String::new());
    config.binary = "custom-bin".to_string();
    assert_eq!(config.binary, "custom-bin");
}

#[test]
fn test_sidecar_config_default() {
    let config = SidecarConfig::with_defaults(None, String::new());
    assert!(config.binary.ends_with("pryx-core") || config.binary == "pryx-core");
    assert!(config.args.is_empty());
}

#[test]
fn test_sidecar_config_new() {
    let config = SidecarConfig::new(
        "/usr/bin/pryx-core".to_string(),
        "/tmp".to_string(),
        "/tmp/pryx.db".to_string(),
    );
    assert_eq!(config.binary, "/usr/bin/pryx-core");
    assert_eq!(config.cwd, "/tmp");
    assert!(config.args.is_empty());
}

#[test]
fn test_sidecar_error_display() {
    let err = SidecarError::ProcessNotRunning("test".into());
    let msg = err.message();
    assert!(msg.contains("test"));
}

#[test]
fn test_sidecar_error_io() {
    let io_err = std::io::Error::new(std::io::ErrorKind::NotFound, "not found");
    let err = SidecarError::Io(io_err);
    let msg = format!("{:?}", err);
    assert!(msg.contains("Io"));
}

#[test]
fn sidecar_error_messages() {
    let spawn = SidecarError::SpawnFailed { binary: "eng".into(), reason: "denied".into() };
    assert_eq!(spawn.message(), "Failed to spawn sidecar binary 'eng': denied");
    assert_eq!(SidecarError::NoChild.message(), "Sidecar process not running");
    assert_eq!(SidecarError::Cancelled.message(), "Operation cancelled");
    assert_eq!(SidecarError::Serialization("bad".into()).message(), "Serialization error: bad");
    let io = SidecarError::Io(std::io::Error::new(std::io::ErrorKind::Other, "disk"));
    assert!(io.message().starts_with("IO error: "));
    assert!(io.message().contains("disk"));
    let pd = SidecarError::PortDiscoveryFailed(std::io::Error::new(std::io::ErrorKind::TimedOut, "late"));
    assert!(pd.message().starts_with("Port discovery failed: "));
}

#[test]
fn test_sidecar_config_defaults() {
    let config = SidecarConfig::with_defaults(None, String::new());
    assert_eq!(config.binary, "pryx-core");
    assert_eq!(config.max_restarts, 10);
    assert_eq!(config.initial_backoff_ms, 1000);
    assert_eq!(config.max_backoff_ms, Some(30000));
    assert_eq!(config.backoff_multiplier_milli, 2000);
    assert_eq!(config.port_discovery_timeout_secs, 10);
}

#[test]
fn test_sidecar_status_stopped() {
    let status = SidecarState::Stopped;
    assert!(matches!(status, SidecarState::Stopped));
}

#[test]
fn test_sidecar_status_running() {
    let status = SidecarState::Running;
    assert!(matches!(status, SidecarState::Running));
}

#[test]
fn test_find_pryx_core_binary_fallback() {
    let path = find_pryx_core_binary(None, false, None, None);
    assert!(path.contains("pryx-core"));
}

#[test]
fn override_path_wins_when_it_exists() {
    let found = find_pryx_core_binary(
        Some("/opt/engine/pryx-core-custom".to_string()),
        true,
        Some("/a/apps/runtime/pryx-core".to_string()),
        Some("/b/dist/pryx-core".to_string()),
    );
    assert_eq!(found, "/opt/engine/pryx-core-custom");
}

#[test]
fn missing_override_falls_back_to_searches() {
    let found = find_pryx_core_binary(
        Some("/nowhere".to_string()),
        false,
        None,
        Some("/b/dist/pryx-core".to_string()),
    );
    assert_eq!(found, "/b/dist/pryx-core");
    let near_exe = find_pryx_core_binary(None, false, Some("/a/x".to_string()), Some("/b/y".to_string()));
    assert_eq!(near_exe, "/a/x");
}

#[test]
fn candidates_climb_the_ancestors() {
    let c = ancestor_candidates("/a/b");
    assert_eq!(
        c,
        vec![
            "/a/b/apps/runtime/pryx-core",
            "/a/b/dist/pryx-core",
            "/a/apps/runtime/pryx-core",
            "/a/dist/pryx-core",
            "/apps/runtime/pryx-core",
            "/dist/pryx-core",
        ]
    );
}

#[test]
fn candidates_stop_after_eight_directories() {
    let c = ancestor_candidates("/1/2/3/4/5/6/7/8/9/10");
    assert_eq!(c.len(), 16);
    assert_eq!(c[0], "/1/2/3/4/5/6/7/8/9/10/apps/runtime/pryx-core");
    assert_eq!(c[15], "/1/2/3/dist/pryx-core");
}

#[test]
fn search_takes_first_present_candidate() {
    let c = ancestor_candidates("/a/b");
    let present = vec![false, false, false, true, true, false];
    assert_eq!(search_ancestors(&c, &present), Some("/a/dist/pryx-core".to_string()));
    assert_eq!(search_ancestors(&c, &vec![false; 6]), None);
}

#[test]
fn third_failure_backoff_is_four_seconds() {
    let config = SidecarConfig::new("e".into(), "/".into(), "db".into());
    let p = config.restart_policy();
    assert_eq!(p.max_restarts, 10);
    assert_eq!(backoff_ms(&p, 3), 4000);
}

#[test]
fn backoff_sequence_doubles_up_to_the_cap() {
    let p = policy(10, 1000, Some(30000), 2000);
    let seq: Vec<u64> = (1..=7).map(|k| backoff_ms(&p, k)).collect();
    assert_eq!(seq, vec![1000, 2000, 4000, 8000, 16000, 30000, 30000]);
}

#[test]
fn backoff_with_fractional_multiplier_rounds_down() {
    let p = policy(10, 1000, None, 1500);
    assert_eq!(backoff_ms(&p, 1), 1000);
    assert_eq!(backoff_ms(&p, 2), 1500);
    assert_eq!(backoff_ms(&p, 3), 2250);
    assert_eq!(backoff_ms(&p, 4), 3375);
}

#[test]
fn backoff_without_cap_saturates() {
    let p = policy(u32::MAX, u64::MAX / 2, None, 4000);
    assert_eq!(backoff_ms(&p, 3), u64::MAX);
}

#[test]
fn discovery_timeout_crashes_with_one_attempt() {
    let mut s = Supervisor::new(policy(10, 1000, Some(30000), 2000));
    assert_eq!(s.step(SupervisorEvent::StartRequested), SupervisorAction::Spawn);
    assert_eq!(s.step(SupervisorEvent::Spawned { pid: 42 }), SupervisorAction::Nothing);
    assert_eq!(s.state(), SidecarState::Starting);
    assert_eq!(s.step(SupervisorEvent::StartTimedOut), SupervisorAction::CheckRestart { kill: true });
    assert_eq!(s.state(), SidecarState::Crashed { attempts: 1 });
    assert_eq!(s.crash_count(), 1);
    assert_eq!(s.pid(), None);
}

#[test]
fn crash_loop_gives_up_after_max_restarts() {
    let n: u32 = 3;
    let mut s = Supervisor::new(policy(n, 1000, Some(30000), 2000));
    let mut restarts = 0;
    let mut backoffs = vec![];
    assert_eq!(s.step(SupervisorEvent::StartRequested), SupervisorAction::Spawn);
    loop {
        s.step(SupervisorEvent::Spawned { pid: 7 });
        s.step(SupervisorEvent::ProcessExited);
        match s.step(SupervisorEvent::RestartPolicyDue) {
            SupervisorAction::WaitBackoff { ms } => {
                backoffs.push(ms);
                restarts += 1;
                assert_eq!(s.step(SupervisorEvent::BackoffElapsed), SupervisorAction::Spawn);
            }
            SupervisorAction::GiveUp => break,
            other => panic!("unexpected action {:?}", other),
        }
    }
    assert_eq!(restarts, n - 1);
    assert_eq!(backoffs, vec![1000, 2000]);
    assert_eq!(s.state(), SidecarState::Stopped);
    assert_eq!(s.crash_count(), n);
    assert_eq!(s.step(SupervisorEvent::BackoffElapsed), SupervisorAction::Nothing);
    assert_eq!(s.state(), SidecarState::Stopped);
}

#[test]
fn running_resets_attempts_but_not_crash_count() {
    let mut s = Supervisor::new(policy(10, 500, None, 2000));
    s.step(SupervisorEvent::StartRequested);
    s.step(SupervisorEvent::SpawnFailed);
    assert_eq!(s.state(), SidecarState::Crashed { attempts: 1 });
    assert_eq!(s.step(SupervisorEvent::RestartPolicyDue), SupervisorAction::WaitBackoff { ms: 500 });
    s.step(SupervisorEvent::BackoffElapsed);
    s.step(SupervisorEvent::Spawned { pid: 9 });
    s.step(SupervisorEvent::ProcessExited);
    assert_eq!(s.attempts(), 2);
    assert_eq!(s.step(SupervisorEvent::RestartPolicyDue), SupervisorAction::WaitBackoff { ms: 1000 });
    s.step(SupervisorEvent::BackoffElapsed);
    s.step(SupervisorEvent::Spawned { pid: 10 });
    s.step(SupervisorEvent::EndpointDiscovered { port: 4100, now_secs: 100 });
    assert_eq!(s.state(), SidecarState::Running);
    assert_eq!(s.attempts(), 0);
    assert_eq!(s.crash_count(), 2);
    assert_eq!(s.port(), Some(4100));
    s.step(SupervisorEvent::ProcessExited);
    assert_eq!(s.state(), SidecarState::Crashed { attempts: 1 });
    assert_eq!(s.crash_count(), 3);
}

#[test]
fn stop_and_cancel() {
    let mut s = Supervisor::new(policy(10, 500, None, 2000));
    s.step(SupervisorEvent::StartRequested);
    s.step(SupervisorEvent::Spawned { pid: 5 });
    s.step(SupervisorEvent::EndpointDiscovered { port: 1, now_secs: 0 });
    assert_eq!(s.step(SupervisorEvent::StopRequested), SupervisorAction::Terminate);
    assert_eq!(s.state(), SidecarState::Stopping);
    s.step(SupervisorEvent::ProcessExited);
    assert_eq!(s.state(), SidecarState::Stopped);
    assert_eq!(s.crash_count(), 0);
    s.step(SupervisorEvent::StartRequested);
    s.step(SupervisorEvent::Spawned { pid: 6 });
    assert_eq!(s.step(SupervisorEvent::CancelRequested), SupervisorAction::Cancel { kill: true });
    assert_eq!(s.state(), SidecarState::Stopped);
    assert_eq!(s.pid(), None);
}

#[test]
fn status_reports_uptime_and_start_time() {
    let mut s = Supervisor::new(policy(10, 500, None, 2000));
    s.step(SupervisorEvent::StartRequested);
    s.step(SupervisorEvent::Spawned { pid: 77 });
    s.step(SupervisorEvent::EndpointDiscovered { port: 9000, now_secs: 86400 });
    let st = s.status(86460);
    assert_eq!(st.state, SidecarState::Running);
    assert_eq!(st.pid, Some(77));
    assert_eq!(st.port, Some(9000));
    assert_eq!(st.uptime_secs, Some(60));
    assert_eq!(st.crash_count, 0);
    assert_eq!(st.started_at.as_deref(), Some("1970-01-02T00:00:00+00:00"));
    let fresh = Supervisor::new(policy(1, 1, None, 2000)).status(5);
    assert_eq!(fresh.state, SidecarState::Stopped);
    assert!(fresh.uptime_secs.is_none());
    assert!(fresh.started_at.is_none());
}

#[test]
fn port_announcement_parsing() {
    assert_eq!(parse_port_line("PORT=4100"), Some(4100));
    assert_eq!(parse_port_line("PORT=65535"), Some(65535));
    assert_eq!(parse_port_line("PORT=65536"), None);
    assert_eq!(parse_port_line("PORT=0"), None);
    assert_eq!(parse_port_line("PORT="), None);
    assert_eq!(parse_port_line("PORT=12a"), None);
    assert_eq!(parse_port_line("PORT=9999999999"), None);
    assert_eq!(parse_port_line("port=80"), None);
    assert_eq!(parse_port_line("listening"), None);
}
