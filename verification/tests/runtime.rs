use vm_agent::agent::command_handler::{execute_agent_command, extract_target, parse_payload};
use vm_agent::agent::command_ledger::{BeginOrGet, LedgerRecord};
use vm_agent::agent::frames::{
    heartbeat_frame, host_inventory_frame, register_frame, system_time_to_timestamp,
    timestamp_from_parts, AgentMessage,
};
use vm_agent::agent::payload::parse_json;
use vm_agent::agent::registration::{command_outcome, command_result_frame, HypervisorCommand};
use vm_agent::app::lifecycle::{
    phase_budget, phase_has_time, shutdown_outcome, ShutdownAction, ShutdownResult, ShutdownSequence,
};
use vm_agent::app::state::{code_of, state_from_code, AppState, AppStateStore};
use vm_agent::clock::{unix_now_millis, Duration};
use vm_agent::config::LogConfig;
use vm_agent::agent::frames::now_timestamp;
use vm_agent::agent::command_ledger::unix_now;
use vm_agent::model::host::{HostFacts, NetworkInterface, StoragePool};
use vm_agent::service::host::host_registration_from_facts;
use vm_agent::telemetry::logging::{
    app_span, effective_filter, is_json_format, level_allowed, parse_level_filter, redact, stderr_accepts,
    stdout_accepts, LevelFilter, LogLevel,
};
use vm_agent::worker::dispatcher::WorkerDispatcher;
use vm_agent::worker::pool::{finish_job_count, pool_capacity, start_job_count};

fn facts() -> HostFacts {
    HostFacts {
        agent_id: "agent-1".to_string(),
        host_id: "node-1".to_string(),
        hostname: "node-1".to_string(),
        private_ip: "10.0.0.1".to_string(),
        hypervisor_type: "kvm".to_string(),
        agent_version: "test".to_string(),
        capabilities_json: "{}".to_string(),
        cpu_cores: 4,
        cpu_threads: 8,
        memory_bytes: 1,
        disk_bytes: 2,
        gpu_cores: 3,
        gpu_memory_gib: 4,
        cpu_packages: Vec::new(),
        memory_modules: Vec::new(),
        gpu_devices: Vec::new(),
        network_interfaces: vec![NetworkInterface {
            name: "eth0".to_string(),
            mac_address: "aa".to_string(),
            ipv4_address: "10.0.0.1".to_string(),
            ipv6_address: String::new(),
            speed_mbps: 1000,
            status: "up".to_string(),
        }],
    }
}

fn record(status: &str, result: &str, error: &str) -> LedgerRecord {
    LedgerRecord {
        command_id: "cmd-1".to_string(),
        command_type: "start".to_string(),
        payload_hash: "h".to_string(),
        resource_key: None,
        status: status.to_string(),
        result_json: result.to_string(),
        error_message: error.to_string(),
    }
}

fn command(kind: &str, payload: &str) -> HypervisorCommand {
    HypervisorCommand {
        command_id: " cmd-1 ".to_string(),
        command_type: kind.to_string(),
        payload_json: payload.to_string(),
    }
}

#[test]
fn level_filters_parse_and_order() {
    assert_eq!(parse_level_filter(" warning "), Some(LevelFilter::Warn));
    assert_eq!(parse_level_filter("trace"), Some(LevelFilter::Trace));
    assert_eq!(parse_level_filter("off"), Some(LevelFilter::Off));
    assert_eq!(parse_level_filter("loud"), None);
    assert_eq!(effective_filter("loud"), LevelFilter::Info);
    assert_eq!(effective_filter("Debug"), LevelFilter::Debug);
    assert!(level_allowed(LogLevel::Error, LevelFilter::Error));
    assert!(!level_allowed(LogLevel::Warn, LevelFilter::Error));
    assert!(!level_allowed(LogLevel::Error, LevelFilter::Off));
    assert!(level_allowed(LogLevel::Info, LevelFilter::Debug));
    assert!(!level_allowed(LogLevel::Trace, LevelFilter::Debug));
    assert!(stdout_accepts(LogLevel::Warn, LevelFilter::Info));
    assert!(!stdout_accepts(LogLevel::Info, LevelFilter::Info));
    assert!(!stdout_accepts(LogLevel::Warn, LevelFilter::Error));
    assert!(stderr_accepts(LogLevel::Info, LevelFilter::Info));
    assert!(!stderr_accepts(LogLevel::Debug, LevelFilter::Info));
    assert!(is_json_format(" JSON "));
    assert!(!is_json_format("text"));
}

#[test]
fn secrets_are_redacted() {
    assert_eq!(redact(""), "");
    assert_eq!(redact("abc"), "***");
    assert_eq!(redact("abcdef"), "***");
    assert_eq!(redact("abcdefg"), "abc***efg");
    assert_eq!(redact("bootstrap-token-123"), "boo***123");
    assert_eq!(redact("abc€def"), "abc***def");
}

#[test]
fn pool_counts_stay_within_capacity() {
    assert_eq!(pool_capacity(0), 1);
    assert_eq!(pool_capacity(4), 4);
    assert_eq!(start_job_count(true, 0, 2), Some(1));
    assert_eq!(start_job_count(true, 2, 2), None);
    assert_eq!(start_job_count(false, 0, 2), None);
    assert_eq!(finish_job_count(2), (Some(1), false));
    assert_eq!(finish_job_count(1), (Some(0), true));
    assert_eq!(finish_job_count(0), (None, true));
}

#[test]
fn app_state_round_trips_through_its_code() {
    for s in [AppState::Starting, AppState::Running, AppState::ShuttingDown, AppState::Stopped] {
        assert_eq!(state_from_code(code_of(s)), s);
    }
    assert_eq!(state_from_code(200), AppState::Starting);
    let store = AppStateStore::new();
    assert_eq!(store.get(), AppState::Starting);
    let other = store.clone();
    other.set(AppState::ShuttingDown);
    assert_eq!(store.get(), AppState::ShuttingDown);
    let d = WorkerDispatcher::new();
    let d2 = d.clone();
    assert!(d.is_polling());
    d2.stop_polling();
    assert!(!d.is_polling());
}

#[test]
fn shutdown_budget_and_outcome() {
    let t = Duration::from_secs(15);
    assert_eq!(phase_budget(t, Duration::from_secs(4)).as_secs(), 11);
    assert!(phase_budget(t, Duration::from_secs(20)).is_zero());
    assert!(phase_has_time(Duration::from_millis(1)));
    assert!(!phase_has_time(Duration::zero()));
    assert_eq!(shutdown_outcome(true, true, true, Duration::from_secs(15), t), ShutdownResult::Clean);
    assert_eq!(shutdown_outcome(true, true, true, Duration::from_millis(15_001), t), ShutdownResult::TimedOut);
    assert_eq!(shutdown_outcome(true, false, true, Duration::zero(), t), ShutdownResult::TimedOut);
}

#[test]
fn commands_are_refused_with_the_first_reason() {
    assert_eq!(execute_agent_command("  ", "{}").unwrap_err(), "agent command type is required");
    assert!(execute_agent_command("start", "{oops").unwrap_err().starts_with("invalid command payload json: "));
    assert_eq!(
        execute_agent_command("Teleport", "{}").unwrap_err(),
        "agent command type 'teleport' is unsupported"
    );
    assert_eq!(
        execute_agent_command(" START ", r#"{"vps_id":"vps-1"}"#).unwrap_err(),
        "agent command 'start' for target 'vps-1' is not implemented by kvm runtime yet"
    );
    assert_eq!(
        execute_agent_command("stop", "").unwrap_err(),
        "agent command 'stop' for target 'unknown-target' is not implemented by kvm runtime yet"
    );
    let p = parse_payload("   ").unwrap();
    assert_eq!(extract_target(&p), "unknown-target");
    let p = parse_json(r#"{"instance_id":" i-9 "}"#).unwrap();
    assert_eq!(extract_target(&p), "i-9");
}

#[test]
fn command_outcomes_follow_the_ledger() {
    let c = command("start", r#"{"vps_id":"vps-1"}"#);
    let out = command_outcome(BeginOrGet::New(record("running", "{}", "")), &c);
    assert_eq!(out.reply.status, "failed");
    assert_eq!(out.reply.result_json, "{}");
    assert_eq!(
        out.reply.error_message,
        "agent command 'start' for target 'vps-1' is not implemented by kvm runtime yet"
    );
    let done = out.completion.unwrap();
    assert_eq!(done.command_id, "cmd-1");
    assert_eq!(done.status, "failed");

    let out = command_outcome(BeginOrGet::Existing(record("running", "{\"x\":1}", "e")), &c);
    assert_eq!((out.reply.status.as_str(), out.reply.result_json.as_str(), out.reply.error_message.as_str()), ("running", "{}", ""));
    assert!(out.completion.is_none());
    let out = command_outcome(BeginOrGet::Existing(record("succeeded", "{\"ok\":true}", "")), &c);
    assert_eq!((out.reply.status.as_str(), out.reply.result_json.as_str()), ("succeeded", "{\"ok\":true}"));
    let out = command_outcome(BeginOrGet::Existing(record("weird", "{}", "boom")), &c);
    assert_eq!((out.reply.status.as_str(), out.reply.error_message.as_str()), ("failed", "boom"));
    let out = command_outcome(BeginOrGet::PayloadMismatch(record("running", "{}", "")), &c);
    assert_eq!(out.reply.error_message, "command_id_payload_mismatch");
    assert!(out.completion.is_none());
}

#[test]
fn frames_carry_the_host() {
    let f = facts();
    let frame = register_frame(&f, "s-1", 1);
    assert_eq!(frame.stream_id, "s-1");
    assert_eq!(frame.seq, 1);
    match frame.message {
        Some(AgentMessage::RegisterHost(r)) => {
            assert_eq!(r.agent_id, "agent-1");
            assert_eq!(r.cpu_threads, 8);
            assert_eq!(r.gpu_memory_gib, 4);
        }
        _ => panic!("expected registration"),
    }
    let at = std::time::UNIX_EPOCH + std::time::Duration::new(1_700_000_000, 123_456_789);
    let ts = system_time_to_timestamp(at);
    assert_eq!(ts.seconds, 1_700_000_000);
    assert_eq!(ts.nanos, 123_456_789);
    let before = std::time::UNIX_EPOCH - std::time::Duration::from_secs(5);
    assert_eq!(system_time_to_timestamp(before), timestamp_from_parts(0, 0));
    assert_eq!(timestamp_from_parts(u64::MAX, 1).seconds, -1);
    let reg = host_registration_from_facts(&f);
    match heartbeat_frame(&reg, "s-1", 2, ts).message {
        Some(AgentMessage::Heartbeat(h)) => {
            assert_eq!(h.status, "online");
            assert_eq!(h.last_seen_at, Some(ts));
        }
        _ => panic!("expected heartbeat"),
    }
    let pools = vec![StoragePool {
        name: "root".to_string(),
        driver: "dir".to_string(),
        path: "/".to_string(),
        total_bytes: 10,
        used_bytes: 5,
        status: "active".to_string(),
        metadata_json: "{\"device\":\"/dev/sda1\"}".to_string(),
    }];
    match host_inventory_frame(&f, "s-1", 3, &pools, ts).message {
        Some(AgentMessage::HostInventory(inv)) => {
            assert_eq!(inv.network_interfaces.len(), 1);
            assert_eq!(inv.network_interfaces[0].metadata_json, "{}");
            assert_eq!(inv.network_interfaces[0].speed_mbps, 1000);
            assert_eq!(inv.storage_pools[0].used_bytes, 5);
            assert_eq!(inv.collected_at, Some(ts));
        }
        _ => panic!("expected inventory"),
    }
    let out = command_outcome(BeginOrGet::PayloadMismatch(record("running", "{}", "")), &command("start", "{}"));
    match command_result_frame(&f, "s-1", 4, "cmd-1", out.reply, ts).message {
        Some(AgentMessage::CommandResult(m)) => {
            assert_eq!(m.command_id, "cmd-1");
            assert_eq!(m.status, "failed");
            assert_eq!(m.completed_at, Some(ts));
        }
        _ => panic!("expected command result"),
    }
}

#[test]
fn root_span_and_clock() {
    let cfg = LogConfig {
        level: "INFO".to_string(),
        format: "json".to_string(),
        service: "svc".to_string(),
        environment: "prod".to_string(),
        host_id: "node-1".to_string(),
    };
    let span = app_span(&cfg);
    assert_eq!((span.service.as_str(), span.environment.as_str(), span.host_id.as_str()), ("svc", "prod", "node-1"));
    let ms = unix_now_millis();
    assert!(ms > 1_600_000_000_000);
    let secs = unix_now();
    assert!((secs - (ms / 1000) as i64).abs() <= 2);
    let ts = now_timestamp();
    assert!((ts.seconds - secs).abs() <= 2);
    assert!(ts.nanos >= 0 && ts.nanos < 1_000_000_000);
}

#[test]
fn shutdown_with_zero_timeout_times_out() {
    let mut seq = ShutdownSequence::new(Duration::zero());
    assert_eq!(seq.step(Duration::zero(), true), Some(ShutdownAction::Quiesce));
    assert_eq!(seq.step(Duration::zero(), true), Some(ShutdownAction::DrainTasks(Duration::zero())));
    assert_eq!(
        seq.step(Duration::zero(), true),
        Some(ShutdownAction::CloseTransports(Duration::zero()))
    );
    assert_eq!(
        seq.step(Duration::zero(), true),
        Some(ShutdownAction::CloseDependencies(Duration::zero()))
    );
    assert_eq!(
        seq.step(Duration::zero(), true),
        Some(ShutdownAction::Finish(ShutdownResult::TimedOut))
    );
    assert_eq!(seq.step(Duration::zero(), true), None);
}

#[test]
fn shutdown_phase_left_without_time_fails() {
    let mut seq = ShutdownSequence::new(Duration::from_secs(10));
    let mut last = None;
    for (elapsed, ok) in [(0, true), (0, true), (10, true), (10, true), (10, true)] {
        last = seq.step(Duration::from_secs(elapsed), ok);
    }
    assert_eq!(last, Some(ShutdownAction::Finish(ShutdownResult::TimedOut)));
}

#[test]
fn shutdown_sequence_runs_each_phase_once() {
    let mut seq = ShutdownSequence::new(Duration::from_secs(10));
    assert_eq!(seq.step(Duration::zero(), true), Some(ShutdownAction::Quiesce));
    assert_eq!(
        seq.step(Duration::from_secs(1), true),
        Some(ShutdownAction::DrainTasks(Duration::from_secs(9)))
    );
    assert_eq!(
        seq.step(Duration::from_secs(4), true),
        Some(ShutdownAction::CloseTransports(Duration::from_secs(6)))
    );
    assert_eq!(
        seq.step(Duration::from_secs(12), true),
        Some(ShutdownAction::CloseDependencies(Duration::zero()))
    );
    assert_eq!(
        seq.step(Duration::from_secs(12), true),
        Some(ShutdownAction::Finish(ShutdownResult::TimedOut))
    );
    assert_eq!(seq.step(Duration::from_secs(13), true), None);

    let mut seq = ShutdownSequence::new(Duration::from_secs(10));
    let mut last = None;
    for (elapsed, ok) in [(0, true), (0, true), (1, true), (2, true), (3, true)] {
        last = seq.step(Duration::from_secs(elapsed), ok);
    }
    assert_eq!(last, Some(ShutdownAction::Finish(ShutdownResult::Clean)));

    let mut seq = ShutdownSequence::new(Duration::from_secs(10));
    let mut last = None;
    for (elapsed, ok) in [(0, true), (0, true), (1, false), (2, true), (3, true)] {
        last = seq.step(Duration::from_secs(elapsed), ok);
    }
    assert_eq!(last, Some(ShutdownAction::Finish(ShutdownResult::TimedOut)));
}
