use vstd::prelude::*;

use crate::clock::Duration;
use crate::text::{blank, has_prefix, is_blank, lower_seq, str_to_string, trim_spec, trimmed_lower, vec_has_prefix};

verus! {

/// Settings of the agent's connection to the control plane.
#[derive(Clone, Debug)]
pub struct AgentConfig {
    pub enabled: bool,
    pub bootstrap_target_addr: String,
    pub runtime_target_addr: String,
    pub runtime_target_state_path: String,
    pub server_name: String,
    pub ca_path: String,
    pub cert_path: String,
    pub key_path: String,
    pub bootstrap_token: String,
    pub heartbeat_interval: Duration,
    pub telemetry_interval: Duration,
    pub connect_timeout: Duration,
    pub failover_base_backoff: Duration,
    pub failover_max_backoff: Duration,
    pub version: String,
    pub command_ledger_path: String,
}

/// Whether an address names the `https` scheme, case-insensitively.
pub open spec fn is_https_addr(addr: Seq<char>) -> bool {
    has_prefix(lower_seq(trim_spec(addr)), "https://"@)
}

/// The first rule that agent settings break, as the message that reports
/// it; `None` when every rule holds.
pub open spec fn agent_config_error(
    bootstrap_target_addr: Seq<char>,
    ca_path: Seq<char>,
    cert_path: Seq<char>,
    key_path: Seq<char>,
    heartbeat_interval: int,
    telemetry_interval: int,
    connect_timeout: int,
    failover_base_backoff: int,
    failover_max_backoff: int,
    version: Seq<char>,
    command_ledger_path: Seq<char>,
    runtime_target_state_path: Seq<char>,
) -> Option<Seq<char>> {
    if is_blank(bootstrap_target_addr) {
        Some("AGENT_BOOTSTRAP_TARGET_ADDR must not be empty"@)
    } else if is_https_addr(bootstrap_target_addr) && is_blank(ca_path) {
        Some("AGENT_CA_PATH must not be empty for https bootstrap"@)
    } else if is_blank(cert_path) {
        Some("AGENT_CERT_PATH must not be empty"@)
    } else if is_blank(key_path) {
        Some("AGENT_KEY_PATH must not be empty"@)
    } else if heartbeat_interval == 0 {
        Some("AGENT_HEARTBEAT_INTERVAL_SEC must be > 0"@)
    } else if telemetry_interval == 0 {
        Some("AGENT_TELEMETRY_INTERVAL_SEC must be > 0"@)
    } else if connect_timeout == 0 {
        Some("AGENT_CONNECT_TIMEOUT_SEC must be > 0"@)
    } else if failover_base_backoff == 0 {
        Some("AGENT_FAILOVER_BASE_BACKOFF_MS must be > 0"@)
    } else if failover_max_backoff < failover_base_backoff {
        Some("AGENT_FAILOVER_MAX_BACKOFF_MS must be >= AGENT_FAILOVER_BASE_BACKOFF_MS"@)
    } else if is_blank(version) {
        Some("AGENT_VERSION must not be empty"@)
    } else if is_blank(command_ledger_path) {
        Some("AGENT_COMMAND_LEDGER_PATH must not be empty"@)
    } else if is_blank(runtime_target_state_path) {
        Some("AGENT_RUNTIME_TARGET_STATE_PATH must not be empty"@)
    } else {
        None
    }
}

impl AgentConfig {
    /// The first rule that the configuration breaks, as the message that
    /// reports it; `None` when every rule holds.
    pub open spec fn validation_error(&self) -> Option<Seq<char>> {
        agent_config_error(
            self.bootstrap_target_addr@,
            self.ca_path@,
            self.cert_path@,
            self.key_path@,
            self.heartbeat_interval@,
            self.telemetry_interval@,
            self.connect_timeout@,
            self.failover_base_backoff@,
            self.failover_max_backoff@,
            self.version@,
            self.command_ledger_path@,
            self.runtime_target_state_path@,
        )
    }

    pub fn validate(&self) -> (r: Result<(), String>)
        ensures
            match r {
                Ok(_) => self.validation_error() is None,
                Err(e) => self.validation_error() == Some(e@),
            },
    {
        if blank(self.bootstrap_target_addr.as_str()) {
            return Err(str_to_string("AGENT_BOOTSTRAP_TARGET_ADDR must not be empty"));
        }
        let bootstrap_target = trimmed_lower(self.bootstrap_target_addr.as_str());
        if vec_has_prefix(&bootstrap_target, "https://") && blank(self.ca_path.as_str()) {
            return Err(str_to_string("AGENT_CA_PATH must not be empty for https bootstrap"));
        }
        if blank(self.cert_path.as_str()) {
            return Err(str_to_string("AGENT_CERT_PATH must not be empty"));
        }
        if blank(self.key_path.as_str()) {
            return Err(str_to_string("AGENT_KEY_PATH must not be empty"));
        }
        if self.heartbeat_interval.is_zero() {
            return Err(str_to_string("AGENT_HEARTBEAT_INTERVAL_SEC must be > 0"));
        }
        if self.telemetry_interval.is_zero() {
            return Err(str_to_string("AGENT_TELEMETRY_INTERVAL_SEC must be > 0"));
        }
        if self.connect_timeout.is_zero() {
            return Err(str_to_string("AGENT_CONNECT_TIMEOUT_SEC must be > 0"));
        }
        if self.failover_base_backoff.is_zero() {
            return Err(str_to_string("AGENT_FAILOVER_BASE_BACKOFF_MS must be > 0"));
        }
        if self.failover_max_backoff.as_millis() < self.failover_base_backoff.as_millis() {
            return Err(
                str_to_string(
                    "AGENT_FAILOVER_MAX_BACKOFF_MS must be >= AGENT_FAILOVER_BASE_BACKOFF_MS",
                ),
            );
        }
        if blank(self.version.as_str()) {
            return Err(str_to_string("AGENT_VERSION must not be empty"));
        }
        if blank(self.command_ledger_path.as_str()) {
            return Err(str_to_string("AGENT_COMMAND_LEDGER_PATH must not be empty"));
        }
        if blank(self.runtime_target_state_path.as_str()) {
            return Err(str_to_string("AGENT_RUNTIME_TARGET_STATE_PATH must not be empty"));
        }
        Ok(())
    }
}

} // verus!
