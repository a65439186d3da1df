use vm_agent::agent::bootstrap::GrpcCode;
use vm_agent::agent::registry::{
    assignment_from_response, assignment_moved, assignment_request, heartbeat_period,
    session_step, stream_id_at, telemetry_schedule, AssignmentFallback, AssignmentResponse,
    ConnectLoop, RuntimeTargetSelector, SessionEvent, SessionFailure, SessionStep,
};
use vm_agent::clock::Duration;
use vm_agent::config::agent::AgentConfig;
use vm_agent::config::app::{AppEnvironment, AppSection};
use vm_agent::config::grpc::GrpcConfig;
use vm_agent::config::runtime::RuntimeConfig;
use vm_agent::config::worker::WorkerConfig;
use vm_agent::config::{AppConfig, LogConfig};
use vm_agent::model::host::HostFacts;

fn app_config() -> AppConfig {
    AppConfig {
        app: AppSection {
            name: "agent".to_string(),
            environment: AppEnvironment::Prod,
            node_id: "node-1".to_string(),
            zone_id: "zone-a".to_string(),
            shutdown_timeout: Duration::from_secs(15),
        },
        agent: AgentConfig {
            enabled: true,
            bootstrap_target_addr: "https://cp.example:9443".to_string(),
            runtime_target_addr: String::new(),
            runtime_target_state_path: "/tmp/runtime-target".to_string(),
            server_name: String::new(),
            ca_path: "/tmp/ca.crt".to_string(),
            cert_path: "/tmp/client.crt".to_string(),
            key_path: "/tmp/client.key".to_string(),
            bootstrap_token: "bootstrap".to_string(),
            heartbeat_interval: Duration::from_secs(10),
            telemetry_interval: Duration::from_secs(2),
            connect_timeout: Duration::from_secs(3),
            failover_base_backoff: Duration::from_millis(200),
            failover_max_backoff: Duration::from_millis(1000),
            version: "test".to_string(),
            command_ledger_path: "/tmp/ledger.db".to_string(),
        },
        grpc: GrpcConfig { bind_addr: "0.0.0.0:8081".to_string() },
        runtime: RuntimeConfig { driver: "kvm".to_string(), redis_url: "redis://x".to_string() },
        worker: WorkerConfig { max_workers: 4 },
        log: LogConfig {
            level: "INFO".to_string(),
            format: "json".to_string(),
            service: "agent".to_string(),
            environment: "prod".to_string(),
            host_id: "node-1".to_string(),
        },
    }
}

fn facts() -> HostFacts {
    HostFacts {
        agent_id: "agent-1".to_string(),
        host_id: "node-1".to_string(),
        hostname: "node-1".to_string(),
        private_ip: "127.0.0.1".to_string(),
        hypervisor_type: "kvm".to_string(),
        agent_version: "test".to_string(),
        capabilities_json: "{}".to_string(),
        cpu_cores: 4,
        cpu_threads: 4,
        memory_bytes: 0,
        disk_bytes: 0,
        gpu_cores: 0,
        gpu_memory_gib: 0,
        cpu_packages: Vec::new(),
        memory_modules: Vec::new(),
        gpu_devices: Vec::new(),
        network_interfaces: Vec::new(),
    }
}

fn response(candidates: &[&str], preferred: &str, refresh: i64) -> AssignmentResponse {
    AssignmentResponse {
        preferred_dp_id: "dp-1".to_string(),
        preferred_dp_addr: preferred.to_string(),
        candidate_grpc_addrs: candidates.iter().map(|s| s.to_string()).collect(),
        assignment_epoch: 7,
        refresh_after_sec: refresh,
    }
}

fn targets(n: usize) -> Vec<String> {
    (0..n).map(|i| format!("dp-{i}:9443")).collect()
}

#[test]
fn selector_walks_each_target_once() {
    let mut s = RuntimeTargetSelector::new(
        targets(3),
        Duration::from_millis(100),
        Duration::from_millis(250),
    );
    assert_eq!(s.current(), Some("dp-0:9443"));
    s.advance();
    assert_eq!(s.current(), Some("dp-1:9443"));
    assert_eq!(s.failover_delay_at(0).as_millis(), 200);
    s.advance();
    assert_eq!(s.current(), Some("dp-2:9443"));
    assert_eq!(s.failover_delay_at(0).as_millis(), 250);
    s.advance();
    assert_eq!(s.current(), None);
    s.advance();
    assert_eq!(s.current(), None);
}

#[test]
fn failover_delay_adds_bounded_jitter() {
    let s = RuntimeTargetSelector::new(targets(1), Duration::from_millis(1000), Duration::from_millis(5000));
    assert_eq!(s.failover_delay_at(0).as_millis(), 1000);
    assert_eq!(s.failover_delay_at(199).as_millis(), 1199);
    assert_eq!(s.failover_delay_at(200).as_millis(), 1000);
    let d = s.failover_delay().as_millis();
    assert!((1000..1200).contains(&d));
    let tiny = RuntimeTargetSelector::new(targets(1), Duration::from_millis(3), Duration::from_millis(5));
    assert_eq!(tiny.failover_delay_at(12345).as_millis(), 3);
}

#[test]
fn long_backoffs_are_not_capped() {
    let longest = Duration::from_secs(u64::MAX);
    let s = RuntimeTargetSelector::new(targets(1), longest, longest);
    assert_eq!(s.failover_delay_at(7).as_millis(), u64::MAX as u128 * 1000 + 7);
    let huge = RuntimeTargetSelector::new(
        targets(1),
        Duration::from_millis(u64::MAX),
        Duration::from_millis(u64::MAX),
    );
    assert_eq!(huge.failover_delay_at(999).as_millis(), u64::MAX as u128 + 999);
}

#[test]
fn long_refresh_periods_are_kept_exactly() {
    let a = assignment_from_response(&response(&["dp-a:1"], "", 100_000_000_000_000_000), 5).unwrap();
    assert_eq!(a.refresh_after.as_secs(), 100_000_000_000_000_000);
    assert_eq!(a.refresh_after.as_millis(), 100_000_000_000_000_000_000);
    assert_eq!(a.expires_at, 5 + 200_000_000_000_000_000_000);
}

#[test]
fn reset_backoff_returns_to_base() {
    let mut s = RuntimeTargetSelector::new(targets(3), Duration::from_millis(100), Duration::from_millis(800));
    s.advance();
    s.advance();
    assert_eq!(s.failover_delay_at(0).as_millis(), 400);
    s.reset_backoff();
    assert_eq!(s.failover_delay_at(0).as_millis(), 100);
    assert_eq!(s.current(), Some("dp-2:9443"));
}

#[test]
fn assignment_uses_candidates_or_the_preferred_address() {
    let a = assignment_from_response(&response(&[" dp-a:1 ", "", "dp-b:2"], "dp-p:3", 60), 1_000).unwrap();
    assert_eq!(a.candidates, vec!["dp-a:1".to_string(), "dp-b:2".to_string()]);
    assert_eq!(a.refresh_after.as_secs(), 60);
    assert_eq!(a.expires_at, 1_000 + 120_000);
    assert_eq!(a.assignment_epoch, 7);
    let b = assignment_from_response(&response(&["  "], " dp-p:3 ", 1), 0).unwrap();
    assert_eq!(b.candidates, vec!["dp-p:3".to_string()]);
    assert_eq!(b.refresh_after.as_secs(), 5);
    assert_eq!(b.expires_at, 10_000);
    assert_eq!(
        assignment_from_response(&response(&[], " ", 30), 0).unwrap_err(),
        "runtime assignment returned no dataplane candidates"
    );
}

#[test]
fn assignment_request_names_the_held_assignment() {
    let cfg = app_config();
    let r = assignment_request(&cfg, &facts(), None);
    assert_eq!(r.last_assignment_epoch, 0);
    assert_eq!(r.current_dp_id, "");
    assert_eq!(r.zone_id, "zone-a");
    let a = assignment_from_response(&response(&["dp-a:1"], "dp-a:1", 60), 0).unwrap();
    let r = assignment_request(&cfg, &facts(), Some(&a));
    assert_eq!(r.last_assignment_epoch, 7);
    assert_eq!(r.current_dp_id, "dp-1");
    assert!(!assignment_moved(&a, "dp-a:1"));
    assert!(assignment_moved(&a, "dp-b:1"));
}

#[test]
fn connect_loop_falls_back_to_cache_then_backs_off() {
    let cfg = app_config();
    let mut l = ConnectLoop::new(&cfg);
    match l.assignment_failed(0) {
        AssignmentFallback::Retry(d) => assert_eq!(d.as_millis(), 200),
        _ => panic!("expected retry"),
    }
    match l.assignment_failed(0) {
        AssignmentFallback::Retry(d) => assert_eq!(d.as_millis(), 400),
        _ => panic!("expected retry"),
    }
    let a = assignment_from_response(&response(&["dp-a:1", "dp-b:2"], "", 60), 0).unwrap();
    let sel = l.assignment_resolved(&a);
    assert_eq!(sel.current(), Some("dp-a:1"));
    assert_eq!(l.cached().unwrap().candidates.len(), 2);
    match l.assignment_failed(1_000) {
        AssignmentFallback::UseCached(c) => assert_eq!(c.candidates[1], "dp-b:2"),
        _ => panic!("expected cached assignment"),
    }
    match l.assignment_failed(120_000) {
        AssignmentFallback::Retry(d) => assert_eq!(d.as_millis(), 800),
        _ => panic!("expected retry once expired"),
    }
    match l.assignment_failed(120_000) {
        AssignmentFallback::Retry(d) => assert_eq!(d.as_millis(), 1000),
        _ => panic!("expected retry"),
    }
}

#[test]
fn failed_sessions_move_through_the_targets() {
    let cfg = app_config();
    let mut l = ConnectLoop::new(&cfg);
    let a = assignment_from_response(&response(&["dp-a:1", "dp-b:2"], "", 60), 0).unwrap();
    let mut sel = l.assignment_resolved(&a);
    assert_eq!(
        l.session_failed(&mut sel, Some(GrpcCode::Unauthenticated), 0),
        SessionFailure::Fatal
    );
    assert_eq!(sel.current(), Some("dp-a:1"));
    match l.session_failed(&mut sel, Some(GrpcCode::PermissionDenied), 0) {
        SessionFailure::Retry { clear_identity, wait } => {
            assert!(clear_identity);
            assert_eq!(wait.as_millis(), 200);
        }
        other => panic!("unexpected {other:?}"),
    }
    assert_eq!(sel.current(), Some("dp-b:2"));
    match l.session_failed(&mut sel, Some(GrpcCode::Unavailable), 0) {
        SessionFailure::Exhausted { clear_identity } => assert!(!clear_identity),
        other => panic!("unexpected {other:?}"),
    }
    assert!(l.cached().is_none());
    let mut sel = l.assignment_resolved(&a);
    l.session_succeeded(&mut sel);
    match l.assignment_failed(999_999_999) {
        AssignmentFallback::Retry(d) => assert_eq!(d.as_millis(), 200),
        _ => panic!("expected retry from the base backoff"),
    }
}

#[test]
fn session_events_decide_how_a_session_goes_on() {
    assert!(matches!(session_step(SessionEvent::ShutdownRequested), SessionStep::Finish));
    assert!(matches!(session_step(SessionEvent::StreamClosed), SessionStep::Finish));
    assert!(matches!(session_step(SessionEvent::FrameHandled), SessionStep::Continue));
    match session_step(SessionEvent::AssignmentChanged) {
        SessionStep::Fail(e) => assert_eq!(e, "runtime assignment changed"),
        _ => panic!("expected failure"),
    }
    match session_step(SessionEvent::StreamFailed("reset".to_string())) {
        SessionStep::Fail(e) => assert_eq!(e, "reset"),
        _ => panic!("expected failure"),
    }
}

#[test]
fn schedules_and_stream_ids() {
    let mut cfg = app_config();
    let (zone, period) = telemetry_schedule(&cfg).unwrap();
    assert_eq!(zone, "zone-a");
    assert_eq!(period.as_secs(), 5);
    cfg.agent.telemetry_interval = Duration::from_secs(30);
    assert_eq!(telemetry_schedule(&cfg).unwrap().1.as_secs(), 30);
    cfg.app.zone_id = " ".to_string();
    assert!(telemetry_schedule(&cfg).is_none());
    assert_eq!(heartbeat_period(Duration::from_millis(10)).as_millis(), 1000);
    assert_eq!(heartbeat_period(Duration::from_secs(10)).as_secs(), 10);
    assert_eq!(stream_id_at("agent-1", 1700000000), "agent-1-1700000000");
    assert_eq!(stream_id_at("a", 0), "a-0");
}
