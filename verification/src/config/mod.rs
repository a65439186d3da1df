pub mod agent;
pub mod app;
pub mod env;
pub mod grpc;
pub mod runtime;
pub mod worker;

pub use crate::config::env::load_from_env;

use vstd::prelude::*;

use crate::config::agent::AgentConfig;
use crate::config::app::AppSection;
use crate::config::grpc::GrpcConfig;
use crate::config::runtime::RuntimeConfig;
use crate::config::worker::WorkerConfig;
use crate::text::{concat3, lower_seq, trim_spec, trimmed_lower, trimmed_upper, upper_seq, vec_is};

verus! {

/// How and where the agent writes its structured logs.
#[derive(Clone, Debug)]
pub struct LogConfig {
    pub level: String,
    pub format: String,
    pub service: String,
    pub environment: String,
    pub host_id: String,
}

/// The log levels `LOG_LEVEL` accepts, compared after trimming and ASCII
/// upper-casing.
pub open spec fn is_known_level(raw: Seq<char>) -> bool {
    let u = upper_seq(trim_spec(raw));
    u == "TRACE"@ || u == "DEBUG"@ || u == "INFO"@ || u == "WARN"@ || u == "WARNING"@ || u
        == "ERROR"@ || u == "OFF"@
}

/// The formats `LOG_FORMAT` accepts, compared after trimming and ASCII
/// lower-casing.
pub open spec fn is_known_format(raw: Seq<char>) -> bool {
    let l = lower_seq(trim_spec(raw));
    l == "json"@ || l == "text"@
}

impl LogConfig {
    pub open spec fn validation_error(&self) -> Option<Seq<char>> {
        if !is_known_level(self.level@) {
            Some(
                "invalid LOG_LEVEL value '"@ + self.level@
                    + "', expected TRACE|DEBUG|INFO|WARN|ERROR|OFF"@,
            )
        } else if !is_known_format(self.format@) {
            Some("invalid LOG_FORMAT value '"@ + self.format@ + "', expected json|text"@)
        } else {
            None
        }
    }

    pub fn validate(&self) -> (r: Result<(), String>)
        ensures
            match r {
                Ok(_) => self.validation_error() is None,
                Err(e) => self.validation_error() == Some(e@),
            },
    {
        let level = trimmed_upper(self.level.as_str());
        if !(vec_is(&level, "TRACE") || vec_is(&level, "DEBUG") || vec_is(&level, "INFO")
            || vec_is(&level, "WARN") || vec_is(&level, "WARNING") || vec_is(&level, "ERROR")
            || vec_is(&level, "OFF")) {
            return Err(
                concat3(
                    "invalid LOG_LEVEL value '",
                    self.level.as_str(),
                    "', expected TRACE|DEBUG|INFO|WARN|ERROR|OFF",
                ),
            );
        }
        let format = trimmed_lower(self.format.as_str());
        if vec_is(&format, "json") || vec_is(&format, "text") {
            Ok(())
        } else {
            Err(concat3("invalid LOG_FORMAT value '", self.format.as_str(), "', expected json|text"))
        }
    }
}

/// The whole configuration of the agent process.
#[derive(Clone, Debug)]
pub struct AppConfig {
    pub app: AppSection,
    pub agent: AgentConfig,
    pub grpc: GrpcConfig,
    pub runtime: RuntimeConfig,
    pub worker: WorkerConfig,
    pub log: LogConfig,
}

} // verus!
