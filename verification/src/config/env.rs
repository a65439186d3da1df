use vstd::prelude::*;

use crate::clock::{imin, Duration};
use crate::config::agent::{agent_config_error, AgentConfig};
use crate::config::app::{app_section_error, AppEnvironment, AppSection};
use crate::config::grpc::GrpcConfig;
use crate::config::runtime::{runtime_config_error, RuntimeConfig};
use crate::config::worker::WorkerConfig;
use crate::config::{AppConfig, LogConfig};
use crate::text::{blank, concat2, concat3, is_blank, parse_u64, parse_u64_spec, str_eq, str_to_string, trim_spec};

verus! {

/// The value the environment holds for `key` (the first entry named so).
pub open spec fn env_value(vars: Seq<(String, String)>, key: Seq<char>) -> Option<Seq<char>>
    decreases vars.len(),
{
    if vars.len() == 0 {
        None
    } else if vars[0].0@ == key {
        Some(vars[0].1@)
    } else {
        env_value(vars.drop_first(), key)
    }
}

/// An optional variable: present only when set to a non-blank value.
pub open spec fn optional_env_spec(vars: Seq<(String, String)>, key: Seq<char>) -> Option<Seq<char>> {
    match env_value(vars, key) {
        Some(v) if !is_blank(v) => Some(v),
        _ => None,
    }
}

/// An optional variable's value, or `default`.
pub open spec fn env_or(vars: Seq<(String, String)>, key: Seq<char>, default: Seq<char>) -> Seq<char> {
    match optional_env_spec(vars, key) {
        Some(v) => v,
        None => default,
    }
}

/// An optional variable reads as its default when the environment does not
/// hold it or holds only a blank value for it, and as the held value
/// otherwise.
pub proof fn law_blank_optional_reads_as_default(
    vars: Seq<(String, String)>,
    key: Seq<char>,
    default: Seq<char>,
)
    ensures
        env_value(vars, key) is None ==> env_or(vars, key, default) == default,
        env_value(vars, key) matches Some(v) ==> (trim_spec(v).len() == 0 ==> env_or(
            vars,
            key,
            default,
        ) == default),
        env_value(vars, key) matches Some(v) ==> (trim_spec(v).len() > 0 ==> env_or(
            vars,
            key,
            default,
        ) == v),
{
}

/// A required variable's value, or why it is missing.
pub open spec fn required_env_spec(vars: Seq<(String, String)>, key: Seq<char>) -> Result<
    Seq<char>,
    Seq<char>,
> {
    match env_value(vars, key) {
        None => Err("missing required environment variable "@ + key),
        Some(v) => if is_blank(v) {
            Err("required environment variable "@ + key + " must not be empty"@)
        } else {
            Ok(v)
        },
    }
}

pub open spec fn secs_ms(secs: u64) -> int {
    secs * 1000
}

pub open spec fn num(vars: Seq<(String, String)>, key: Seq<char>, default: Seq<char>) -> Option<u64> {
    parse_u64_spec(env_or(vars, key, default))
}

pub open spec fn worker_max_spec(vars: Seq<(String, String)>) -> Option<u64> {
    match num(vars, "WORKER_MAX"@, "4"@) {
        Some(v) if v <= usize::MAX => Some(v),
        _ => None,
    }
}

/// The first problem of a configuration read from the environment, in the
/// order the settings are read; `None` when there is none.
pub open spec fn env_config_error(vars: Seq<(String, String)>, default_version: Seq<char>) -> Option<
    Seq<char>,
> {
    let node = required_env_spec(vars, "APP_NODE_ID"@);
    let shutdown = num(vars, "SHUTDOWN_TIMEOUT_SEC"@, "15"@);
    let heartbeat = num(vars, "AGENT_HEARTBEAT_INTERVAL_SEC"@, "10"@);
    let telemetry = num(vars, "AGENT_TELEMETRY_INTERVAL_SEC"@, "15"@);
    let connect = num(vars, "AGENT_CONNECT_TIMEOUT_SEC"@, "5"@);
    let base = num(vars, "AGENT_FAILOVER_BASE_BACKOFF_MS"@, "500"@);
    let max = num(vars, "AGENT_FAILOVER_MAX_BACKOFF_MS"@, "30000"@);
    if node is Err {
        Some(node->Err_0)
    } else if shutdown is None {
        Some("invalid SHUTDOWN_TIMEOUT_SEC, expected unsigned integer seconds"@)
    } else if app_section_error(
        env_or(vars, "APP_NAME"@, "aurora-kvm-agent"@),
        node->Ok_0,
        env_or(vars, "APP_ZONE_ID"@, Seq::empty()),
        secs_ms(shutdown->0),
    ) is Some {
        app_section_error(
            env_or(vars, "APP_NAME"@, "aurora-kvm-agent"@),
            node->Ok_0,
            env_or(vars, "APP_ZONE_ID"@, Seq::empty()),
            secs_ms(shutdown->0),
        )
    } else if is_blank(env_or(vars, "GRPC_BIND_ADDR"@, "0.0.0.0:8081"@)) {
        Some("GRPC_BIND_ADDR must not be empty"@)
    } else if heartbeat is None {
        Some("invalid AGENT_HEARTBEAT_INTERVAL_SEC, expected unsigned integer seconds"@)
    } else if telemetry is None {
        Some("invalid AGENT_TELEMETRY_INTERVAL_SEC, expected unsigned integer seconds"@)
    } else if connect is None {
        Some("invalid AGENT_CONNECT_TIMEOUT_SEC, expected unsigned integer seconds"@)
    } else if base is None {
        Some("invalid AGENT_FAILOVER_BASE_BACKOFF_MS, expected unsigned integer milliseconds"@)
    } else if max is None {
        Some("invalid AGENT_FAILOVER_MAX_BACKOFF_MS, expected unsigned integer milliseconds"@)
    } else if agent_config_error(
        env_or(vars, "AGENT_BOOTSTRAP_TARGET_ADDR"@, "https://127.0.0.1:9443"@),
        env_or(vars, "AGENT_CA_PATH"@, "/etc/vm-agent/tls/ca.crt"@),
        env_or(vars, "AGENT_CERT_PATH"@, "/etc/vm-agent/tls/client.crt"@),
        env_or(vars, "AGENT_KEY_PATH"@, "/etc/vm-agent/tls/client.key"@),
        secs_ms(heartbeat->0),
        secs_ms(telemetry->0),
        secs_ms(connect->0),
        base->0 as int,
        max->0 as int,
        env_or(vars, "AGENT_VERSION"@, default_version),
        env_or(vars, "AGENT_COMMAND_LEDGER_PATH"@, "/var/lib/vm-agent/command-ledger.db"@),
        env_or(vars, "AGENT_RUNTIME_TARGET_STATE_PATH"@, "/var/lib/vm-agent/runtime-target"@),
    ) is Some {
        agent_config_error(
            env_or(vars, "AGENT_BOOTSTRAP_TARGET_ADDR"@, "https://127.0.0.1:9443"@),
            env_or(vars, "AGENT_CA_PATH"@, "/etc/vm-agent/tls/ca.crt"@),
            env_or(vars, "AGENT_CERT_PATH"@, "/etc/vm-agent/tls/client.crt"@),
            env_or(vars, "AGENT_KEY_PATH"@, "/etc/vm-agent/tls/client.key"@),
            secs_ms(heartbeat->0),
            secs_ms(telemetry->0),
            secs_ms(connect->0),
            base->0 as int,
            max->0 as int,
            env_or(vars, "AGENT_VERSION"@, default_version),
            env_or(vars, "AGENT_COMMAND_LEDGER_PATH"@, "/var/lib/vm-agent/command-ledger.db"@),
            env_or(vars, "AGENT_RUNTIME_TARGET_STATE_PATH"@, "/var/lib/vm-agent/runtime-target"@),
        )
    } else if runtime_config_error(
        env_or(vars, "RUNTIME_DRIVER"@, "kvm"@),
        env_or(vars, "REDIS_URL"@, "redis://127.0.0.1:6379/0"@),
    ) is Some {
        runtime_config_error(
            env_or(vars, "RUNTIME_DRIVER"@, "kvm"@),
            env_or(vars, "REDIS_URL"@, "redis://127.0.0.1:6379/0"@),
        )
    } else if worker_max_spec(vars) is None {
        Some("invalid WORKER_MAX, expected unsigned integer"@)
    } else if worker_max_spec(vars)->0 == 0 {
        Some("WORKER_MAX must be > 0"@)
    } else {
        None
    }
}

fn env_lookup<'a>(vars: &'a Vec<(String, String)>, key: &str) -> (r: Option<&'a String>)
    ensures
        match r {
            Some(v) => env_value(vars@, key@) == Some(v@),
            None => env_value(vars@, key@) is None,
        },
{
    let mut i: usize = 0;
    assert(vars@.subrange(0, vars@.len() as int) =~= vars@);
    while i < vars.len()
        invariant
            i <= vars.len(),
            env_value(vars@, key@) == env_value(vars@.subrange(i as int, vars@.len() as int), key@),
        decreases vars.len() - i,
    {
        let ghost rest = vars@.subrange(i as int, vars@.len() as int);
        assert(rest[0] == vars@[i as int]);
        if str_eq(vars[i].0.as_str(), key) {
            return Some(&vars[i].1);
        }
        assert(rest.drop_first() =~= vars@.subrange(i + 1, vars@.len() as int));
        i = i + 1;
    }
    None
}

/// `optional_env(key)` with a default.
fn env_or_default(vars: &Vec<(String, String)>, key: &str, default: &str) -> (r: String)
    ensures
        r@ == env_or(vars@, key@, default@),
{
    match env_lookup(vars, key) {
        Some(v) => {
            if !blank(v.as_str()) {
                return v.clone();
            }
        },
        None => {},
    }
    str_to_string(default)
}

fn required_env(vars: &Vec<(String, String)>, key: &str) -> (r: Result<String, String>)
    ensures
        match r {
            Ok(v) => required_env_spec(vars@, key@) == Ok::<Seq<char>, Seq<char>>(v@),
            Err(e) => required_env_spec(vars@, key@) == Err::<Seq<char>, Seq<char>>(e@),
        },
{
    match env_lookup(vars, key) {
        None => Err(concat2("missing required environment variable ", key)),
        Some(v) => {
            if blank(v.as_str()) {
                Err(concat3("required environment variable ", key, " must not be empty"))
            } else {
                Ok(v.clone())
            }
        },
    }
}

fn env_number(vars: &Vec<(String, String)>, key: &str, default: &str, message: &str) -> (r: Result<
    u64,
    String,
>)
    ensures
        match r {
            Ok(v) => num(vars@, key@, default@) == Some(v),
            Err(e) => num(vars@, key@, default@) is None && e@ == message@,
        },
{
    let raw = env_or_default(vars, key, default);
    match parse_u64(raw.as_str()) {
        Some(v) => Ok(v),
        None => Err(str_to_string(message)),
    }
}

/// The agent configuration from the environment: every variable optional
/// (with its default) but `APP_NODE_ID`; durations in whole seconds, the
/// failover backoffs in milliseconds. `default_version` is the version
/// reported when `AGENT_VERSION` is unset. Refused with the first problem
/// found, in the order the settings are read.
pub fn load_from_env(vars: &Vec<(String, String)>, default_version: &str) -> (r: Result<
    AppConfig,
    String,
>)
    ensures
        match r {
            Ok(c) => {
                &&& env_config_error(vars@, default_version@) is None
                &&& c.app.validation_error() is None
                &&& !is_blank(c.grpc.bind_addr@)
                &&& c.agent.validation_error() is None
                &&& c.runtime.validation_error() is None
                &&& c.worker.max_workers > 0
                &&& c.log.validation_error() is None
                &&& c.app.name@ == env_or(vars@, "APP_NAME"@, "aurora-kvm-agent"@)
                &&& required_env_spec(vars@, "APP_NODE_ID"@) == Ok::<Seq<char>, Seq<char>>(
                    c.app.node_id@,
                )
                &&& c.app.zone_id@ == env_or(vars@, "APP_ZONE_ID"@, Seq::empty())
                &&& c.app.environment == AppEnvironment::Prod
                &&& c.app.shutdown_timeout@ == secs_ms(
                    num(vars@, "SHUTDOWN_TIMEOUT_SEC"@, "15"@)->0,
                )
                &&& c.grpc.bind_addr@ == env_or(vars@, "GRPC_BIND_ADDR"@, "0.0.0.0:8081"@)
                &&& c.agent.enabled
                &&& c.agent.bootstrap_target_addr@ == env_or(
                    vars@,
                    "AGENT_BOOTSTRAP_TARGET_ADDR"@,
                    "https://127.0.0.1:9443"@,
                )
                &&& c.agent.runtime_target_addr@ == env_or(
                    vars@,
                    "AGENT_RUNTIME_TARGET_ADDR"@,
                    Seq::empty(),
                )
                &&& c.agent.runtime_target_state_path@ == env_or(
                    vars@,
                    "AGENT_RUNTIME_TARGET_STATE_PATH"@,
                    "/var/lib/vm-agent/runtime-target"@,
                )
                &&& c.agent.server_name@ == env_or(vars@, "AGENT_SERVER_NAME"@, Seq::empty())
                &&& c.agent.ca_path@ == env_or(vars@, "AGENT_CA_PATH"@, "/etc/vm-agent/tls/ca.crt"@)
                &&& c.agent.cert_path@ == env_or(
                    vars@,
                    "AGENT_CERT_PATH"@,
                    "/etc/vm-agent/tls/client.crt"@,
                )
                &&& c.agent.key_path@ == env_or(
                    vars@,
                    "AGENT_KEY_PATH"@,
                    "/etc/vm-agent/tls/client.key"@,
                )
                &&& c.agent.bootstrap_token@ == env_or(
                    vars@,
                    "AGENT_BOOTSTRAP_TOKEN"@,
                    "bootstrap"@,
                )
                &&& c.agent.heartbeat_interval@ == secs_ms(
                    num(vars@, "AGENT_HEARTBEAT_INTERVAL_SEC"@, "10"@)->0,
                )
                &&& c.agent.telemetry_interval@ == secs_ms(
                    num(vars@, "AGENT_TELEMETRY_INTERVAL_SEC"@, "15"@)->0,
                )
                &&& c.agent.connect_timeout@ == secs_ms(
                    num(vars@, "AGENT_CONNECT_TIMEOUT_SEC"@, "5"@)->0,
                )
                &&& c.agent.failover_base_backoff@ == num(
                    vars@,
                    "AGENT_FAILOVER_BASE_BACKOFF_MS"@,
                    "500"@,
                )->0
                &&& c.agent.failover_max_backoff@ == num(
                    vars@,
                    "AGENT_FAILOVER_MAX_BACKOFF_MS"@,
                    "30000"@,
                )->0
                &&& c.agent.version@ == env_or(vars@, "AGENT_VERSION"@, default_version@)
                &&& c.agent.command_ledger_path@ == env_or(
                    vars@,
                    "AGENT_COMMAND_LEDGER_PATH"@,
                    "/var/lib/vm-agent/command-ledger.db"@,
                )
                &&& c.runtime.driver@ == env_or(vars@, "RUNTIME_DRIVER"@, "kvm"@)
                &&& c.runtime.redis_url@ == env_or(
                    vars@,
                    "REDIS_URL"@,
                    "redis://127.0.0.1:6379/0"@,
                )
                &&& c.worker.max_workers == worker_max_spec(vars@)->0
                &&& c.log.level@ == "INFO"@
                &&& c.log.format@ == "json"@
                &&& c.log.service@ == c.app.name@
                &&& c.log.environment@ == "prod"@
                &&& c.log.host_id@ == c.app.node_id@
            },
            Err(e) => env_config_error(vars@, default_version@) == Some(e@),
        },
{
    let app_name = env_or_default(vars, "APP_NAME", "aurora-kvm-agent");
    let node_id = required_env(vars, "APP_NODE_ID")?;
    let shutdown_secs = env_number(
        vars,
        "SHUTDOWN_TIMEOUT_SEC",
        "15",
        "invalid SHUTDOWN_TIMEOUT_SEC, expected unsigned integer seconds",
    )?;
    let app = AppSection {
        name: app_name.clone(),
        environment: AppEnvironment::Prod,
        node_id: node_id.clone(),
        zone_id: env_or_default(vars, "APP_ZONE_ID", ""),
        shutdown_timeout: Duration::from_secs(shutdown_secs),
    };
    proof {
        reveal_strlit("");
    }
    app.validate()?;
    let grpc = GrpcConfig { bind_addr: env_or_default(vars, "GRPC_BIND_ADDR", "0.0.0.0:8081") };
    grpc.validate()?;
    let heartbeat = env_number(
        vars,
        "AGENT_HEARTBEAT_INTERVAL_SEC",
        "10",
        "invalid AGENT_HEARTBEAT_INTERVAL_SEC, expected unsigned integer seconds",
    )?;
    let telemetry = env_number(
        vars,
        "AGENT_TELEMETRY_INTERVAL_SEC",
        "15",
        "invalid AGENT_TELEMETRY_INTERVAL_SEC, expected unsigned integer seconds",
    )?;
    let connect = env_number(
        vars,
        "AGENT_CONNECT_TIMEOUT_SEC",
        "5",
        "invalid AGENT_CONNECT_TIMEOUT_SEC, expected unsigned integer seconds",
    )?;
    let base = env_number(
        vars,
        "AGENT_FAILOVER_BASE_BACKOFF_MS",
        "500",
        "invalid AGENT_FAILOVER_BASE_BACKOFF_MS, expected unsigned integer milliseconds",
    )?;
    let max = env_number(
        vars,
        "AGENT_FAILOVER_MAX_BACKOFF_MS",
        "30000",
        "invalid AGENT_FAILOVER_MAX_BACKOFF_MS, expected unsigned integer milliseconds",
    )?;
    let agent = AgentConfig {
        enabled: true,
        bootstrap_target_addr: env_or_default(
            vars,
            "AGENT_BOOTSTRAP_TARGET_ADDR",
            "https://127.0.0.1:9443",
        ),
        runtime_target_addr: env_or_default(vars, "AGENT_RUNTIME_TARGET_ADDR", ""),
        runtime_target_state_path: env_or_default(
            vars,
            "AGENT_RUNTIME_TARGET_STATE_PATH",
            "/var/lib/vm-agent/runtime-target",
        ),
        server_name: env_or_default(vars, "AGENT_SERVER_NAME", ""),
        ca_path: env_or_default(vars, "AGENT_CA_PATH", "/etc/vm-agent/tls/ca.crt"),
        cert_path: env_or_default(vars, "AGENT_CERT_PATH", "/etc/vm-agent/tls/client.crt"),
        key_path: env_or_default(vars, "AGENT_KEY_PATH", "/etc/vm-agent/tls/client.key"),
        bootstrap_token: env_or_default(vars, "AGENT_BOOTSTRAP_TOKEN", "bootstrap"),
        heartbeat_interval: Duration::from_secs(heartbeat),
        telemetry_interval: Duration::from_secs(telemetry),
        connect_timeout: Duration::from_secs(connect),
        failover_base_backoff: Duration::from_millis(base),
        failover_max_backoff: Duration::from_millis(max),
        version: env_or_default(vars, "AGENT_VERSION", default_version),
        command_ledger_path: env_or_default(
            vars,
            "AGENT_COMMAND_LEDGER_PATH",
            "/var/lib/vm-agent/command-ledger.db",
        ),
    };
    agent.validate()?;
    let runtime = RuntimeConfig {
        driver: env_or_default(vars, "RUNTIME_DRIVER", "kvm"),
        redis_url: env_or_default(vars, "REDIS_URL", "redis://127.0.0.1:6379/0"),
    };
    runtime.validate()?;
    let workers = env_number(vars, "WORKER_MAX", "4", "invalid WORKER_MAX, expected unsigned integer")?;
    if workers > usize::MAX as u64 {
        return Err(str_to_string("invalid WORKER_MAX, expected unsigned integer"));
    }
    let worker = WorkerConfig { max_workers: workers as usize };
    worker.validate()?;
    let log = LogConfig {
        level: str_to_string("INFO"),
        format: str_to_string("json"),
        service: app_name,
        environment: str_to_string("prod"),
        host_id: node_id,
    };
    proof {
        reveal_strlit("INFO");
        reveal_strlit("json");
        crate::text::lemma_trim_fixed("INFO"@);
        crate::text::lemma_trim_fixed("json"@);
        assert(crate::text::upper_seq("INFO"@) =~= "INFO"@);
        assert(crate::text::lower_seq("json"@) =~= "json"@);
    }
    Ok(AppConfig { app, agent, grpc, runtime, worker, log })
}

} // verus!
