use vm_agent::agent::bootstrap::{
    bootstrap_transport, check_enrollment_response, controlplane_target, enrollment_request,
    is_auth_failure, is_fatal_bootstrap_error, mtls_transport, normalize_bootstrap_endpoint,
    normalize_mtls_endpoint, server_name_for_target, GrpcCode,
};
use vm_agent::clock::Duration;
use vm_agent::config::agent::AgentConfig;
use vm_agent::config::app::{AppEnvironment, AppSection};
use vm_agent::config::grpc::GrpcConfig;
use vm_agent::config::runtime::RuntimeConfig;
use vm_agent::config::worker::WorkerConfig;
use vm_agent::config::{AppConfig, LogConfig};
use vm_agent::model::host::{AgentIdentityState, HostFacts};

fn app_config() -> AppConfig {
    AppConfig {
        app: AppSection {
            name: "agent".to_string(),
            environment: AppEnvironment::Prod,
            node_id: "node-1".to_string(),
            zone_id: "zone-a".to_string(),
            shutdown_timeout: Duration::from_secs(15),
        },
        agent: AgentConfig {
            enabled: true,
            bootstrap_target_addr: "https://cp.example:9443".to_string(),
            runtime_target_addr: String::new(),
            runtime_target_state_path: "/tmp/runtime-target".to_string(),
            server_name: String::new(),
            ca_path: "/tmp/ca.crt".to_string(),
            cert_path: "/tmp/client.crt".to_string(),
            key_path: "/tmp/client.key".to_string(),
            bootstrap_token: "bootstrap".to_string(),
            heartbeat_interval: Duration::from_secs(10),
            telemetry_interval: Duration::from_secs(15),
            connect_timeout: Duration::from_secs(3),
            failover_base_backoff: Duration::from_millis(200),
            failover_max_backoff: Duration::from_millis(3000),
            version: "test".to_string(),
            command_ledger_path: "/tmp/ledger.db".to_string(),
        },
        grpc: GrpcConfig { bind_addr: "0.0.0.0:8081".to_string() },
        runtime: RuntimeConfig { driver: "kvm".to_string(), redis_url: "redis://x".to_string() },
        worker: WorkerConfig { max_workers: 4 },
        log: LogConfig {
            level: "INFO".to_string(),
            format: "json".to_string(),
            service: "agent".to_string(),
            environment: "prod".to_string(),
            host_id: "node-1".to_string(),
        },
    }
}

fn identity(runtime_target: Option<&str>) -> AgentIdentityState {
    AgentIdentityState {
        client_cert_pem: b"cert".to_vec(),
        client_key_pem: b"key".to_vec(),
        ca_bundle_pem: b"ca".to_vec(),
        cert_not_after: None,
        runtime_target_addr: runtime_target.map(|s| s.to_string()),
    }
}

fn facts() -> HostFacts {
    HostFacts {
        agent_id: "agent-1".to_string(),
        host_id: "node-1".to_string(),
        hostname: "node-1".to_string(),
        private_ip: "127.0.0.1".to_string(),
        hypervisor_type: "kvm".to_string(),
        agent_version: "test".to_string(),
        capabilities_json: "{}".to_string(),
        cpu_cores: 4,
        cpu_threads: 4,
        memory_bytes: 8 * 1024 * 1024 * 1024,
        disk_bytes: 50 * 1024 * 1024 * 1024,
        gpu_cores: 0,
        gpu_memory_gib: 0,
        cpu_packages: Vec::new(),
        memory_modules: Vec::new(),
        gpu_devices: Vec::new(),
        network_interfaces: Vec::new(),
    }
}

#[test]
fn bootstrap_endpoint_defaults_to_plaintext_when_scheme_missing() {
    assert_eq!(
        normalize_bootstrap_endpoint("controlplane.local:9090").unwrap(),
        "http://controlplane.local:9090"
    );
}

#[test]
fn bootstrap_endpoint_preserves_plaintext() {
    assert_eq!(
        normalize_bootstrap_endpoint("http://127.0.0.1:9090").unwrap(),
        "http://127.0.0.1:9090"
    );
}

#[test]
fn bootstrap_endpoint_preserves_tls() {
    assert_eq!(
        normalize_bootstrap_endpoint("https://127.0.0.1:9443").unwrap(),
        "https://127.0.0.1:9443"
    );
}

#[test]
fn bootstrap_endpoint_scheme_is_case_insensitive() {
    assert_eq!(normalize_bootstrap_endpoint("HTTPS://h:1").unwrap(), "HTTPS://h:1");
    assert_eq!(normalize_bootstrap_endpoint(" Http://h:2 ").unwrap(), "Http://h:2");
    assert_eq!(normalize_bootstrap_endpoint("httpx://h:3").unwrap(), "http://httpx://h:3");
}

#[test]
fn bootstrap_endpoint_trims_and_refuses_blank() {
    assert_eq!(normalize_bootstrap_endpoint("  cp:1  ").unwrap(), "http://cp:1");
    assert_eq!(
        normalize_bootstrap_endpoint(" \t ").unwrap_err(),
        "AGENT_BOOTSTRAP_TARGET_ADDR must not be empty"
    );
}

#[test]
fn mtls_endpoint_is_always_https() {
    assert_eq!(normalize_mtls_endpoint("http://dp:9443"), "https://dp:9443");
    assert_eq!(normalize_mtls_endpoint("http://http://dp"), "https://dp");
    assert_eq!(normalize_mtls_endpoint(" https://dp:1 "), "https://dp:1");
    assert_eq!(normalize_mtls_endpoint("dp:9443"), "https://dp:9443");
}

#[test]
fn server_name_comes_from_override_or_target_host() {
    let mut cfg = app_config();
    assert_eq!(server_name_for_target(&cfg, "https://dp.example:9443/path"), "dp.example");
    assert_eq!(server_name_for_target(&cfg, "dp2.example:1"), "dp2.example");
    cfg.agent.server_name = " override.example ".to_string();
    assert_eq!(server_name_for_target(&cfg, "https://dp.example:9443"), "override.example");
}

#[test]
fn controlplane_target_prefers_enrolled_then_configured_then_bootstrap() {
    let mut cfg = app_config();
    assert_eq!(controlplane_target(&cfg, &identity(Some(" dp:1 "))), "dp:1");
    cfg.agent.runtime_target_addr = "rt:2".to_string();
    assert_eq!(controlplane_target(&cfg, &identity(Some("  "))), "rt:2");
    cfg.agent.runtime_target_addr = String::new();
    assert_eq!(controlplane_target(&cfg, &identity(None)), "https://cp.example:9443");
}

#[test]
fn fatal_and_auth_failures_are_classified_by_status() {
    assert!(is_fatal_bootstrap_error(Some(GrpcCode::Unauthenticated)));
    assert!(is_fatal_bootstrap_error(Some(GrpcCode::InvalidArgument)));
    assert!(!is_fatal_bootstrap_error(Some(GrpcCode::Unavailable)));
    assert!(!is_fatal_bootstrap_error(None));
    assert!(is_auth_failure(Some(GrpcCode::PermissionDenied)));
    assert!(is_auth_failure(Some(GrpcCode::Unauthenticated)));
    assert!(!is_auth_failure(Some(GrpcCode::Internal)));
    assert!(!is_auth_failure(None));
}

#[test]
fn bootstrap_transport_is_plain_for_http_and_tls_otherwise() {
    let mut cfg = app_config();
    let t = bootstrap_transport(&cfg).unwrap();
    assert_eq!(t.endpoint, "https://cp.example:9443");
    let tls = t.tls.unwrap();
    assert_eq!(tls.server_name, "cp.example");
    assert_eq!(tls.ca_path, "/tmp/ca.crt");
    cfg.agent.bootstrap_target_addr = "cp.example:9090".to_string();
    let t = bootstrap_transport(&cfg).unwrap();
    assert_eq!(t.endpoint, "http://cp.example:9090");
    assert!(t.tls.is_none());
    assert_eq!(t.connect_timeout.as_secs(), 3);
    cfg.agent.bootstrap_target_addr = "HTTP://cp:1".to_string();
    let t = bootstrap_transport(&cfg).unwrap();
    assert_eq!(t.endpoint, "HTTP://cp:1");
    assert!(t.tls.is_none());
    cfg.agent.bootstrap_target_addr = "HTTPS://cp:2".to_string();
    let t = bootstrap_transport(&cfg).unwrap();
    assert_eq!(t.endpoint, "HTTPS://cp:2");
    assert!(t.tls.is_some());
}

#[test]
fn mtls_transport_needs_the_whole_identity() {
    let cfg = app_config();
    let t = mtls_transport(&cfg, "http://dp:9443", &identity(None)).unwrap();
    assert_eq!(t.endpoint, "https://dp:9443");
    assert_eq!(t.server_name, "dp");
    let mut id = identity(None);
    id.ca_bundle_pem.clear();
    assert_eq!(
        mtls_transport(&cfg, "dp", &id).unwrap_err(),
        "missing CA bundle for mTLS controlplane/dataplane connection"
    );
    let mut id = identity(None);
    id.client_key_pem.clear();
    assert_eq!(
        mtls_transport(&cfg, "dp", &id).unwrap_err(),
        "missing client certificate or private key for mTLS controlplane/dataplane connection"
    );
}

#[test]
fn enrollment_request_needs_a_token() {
    let mut cfg = app_config();
    let req = enrollment_request(&cfg, &facts()).unwrap();
    assert_eq!(req.csr_common_name, "vm-agent:agent-1");
    assert_eq!(req.requested_agent_id, "agent-1");
    assert_eq!(req.hostname, "node-1");
    cfg.agent.bootstrap_token = " ".to_string();
    assert_eq!(
        enrollment_request(&cfg, &facts()).unwrap_err(),
        "bootstrap token is required until the first enrollment succeeds"
    );
}

#[test]
fn enrollment_response_needs_id_and_target() {
    assert!(check_enrollment_response("agent-1", "dp:1").is_ok());
    assert_eq!(
        check_enrollment_response(" ", "dp:1").unwrap_err(),
        "bootstrap enrollment returned empty agent id"
    );
    assert_eq!(
        check_enrollment_response("agent-1", "").unwrap_err(),
        "bootstrap enrollment returned empty runtime target addr"
    );
}
