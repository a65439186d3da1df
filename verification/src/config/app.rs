use vstd::prelude::*;

use crate::clock::Duration;
use crate::text::{blank, concat3, is_blank, lower_seq, str_to_string, trim_spec, trimmed_lower, vec_is};

verus! {

/// The deployment environment the agent runs in.
#[derive(Clone, Copy, Debug, PartialEq, Eq, Structural)]
pub enum AppEnvironment {
    Dev,
    Prod,
}

impl AppEnvironment {
    /// The environment a raw `APP_ENV` value names, ignoring surrounding
    /// whitespace and ASCII case.
    pub open spec fn parse_spec(raw: Seq<char>) -> Option<AppEnvironment> {
        let k = lower_seq(trim_spec(raw));
        if k == "dev"@ || k == "development"@ {
            Some(AppEnvironment::Dev)
        } else if k == "prod"@ || k == "production"@ {
            Some(AppEnvironment::Prod)
        } else {
            None
        }
    }

    pub fn parse(raw: &str) -> (r: Result<AppEnvironment, String>)
        ensures
            match r {
                Ok(env) => Self::parse_spec(raw@) == Some(env),
                Err(e) => Self::parse_spec(raw@) is None && e@ == "invalid APP_ENV value '"@
                    + raw@ + "', expected dev|development|prod|production"@,
            },
    {
        let k = trimmed_lower(raw);
        if vec_is(&k, "dev") || vec_is(&k, "development") {
            Ok(AppEnvironment::Dev)
        } else if vec_is(&k, "prod") || vec_is(&k, "production") {
            Ok(AppEnvironment::Prod)
        } else {
            Err(
                concat3(
                    "invalid APP_ENV value '",
                    raw,
                    "', expected dev|development|prod|production",
                ),
            )
        }
    }

    pub open spec fn name_spec(self) -> Seq<char> {
        match self {
            AppEnvironment::Dev => "dev"@,
            AppEnvironment::Prod => "prod"@,
        }
    }

    pub fn as_str(&self) -> (s: &'static str)
        ensures
            s@ == self.name_spec(),
    {
        match self {
            AppEnvironment::Dev => "dev",
            AppEnvironment::Prod => "prod",
        }
    }
}

/// The first rule that the process settings break, as the message that
/// reports it.
pub open spec fn app_section_error(
    name: Seq<char>,
    node_id: Seq<char>,
    zone_id: Seq<char>,
    shutdown_timeout: int,
) -> Option<Seq<char>> {
    if is_blank(name) {
        Some("APP_NAME must not be empty"@)
    } else if is_blank(node_id) {
        Some("APP_NODE_ID must not be empty"@)
    } else if is_blank(zone_id) {
        Some("APP_ZONE_ID must not be empty"@)
    } else if shutdown_timeout == 0 {
        Some("SHUTDOWN_TIMEOUT_SEC must be > 0"@)
    } else {
        None
    }
}

/// The name of an environment parses back to that environment.
pub proof fn law_environment_name_roundtrip(env: AppEnvironment)
    ensures
        AppEnvironment::parse_spec(env.name_spec()) == Some(env),
{
    reveal_strlit("dev");
    reveal_strlit("prod");
    reveal_strlit("development");
    reveal_strlit("production");
    let n = env.name_spec();
    crate::text::lemma_trim_fixed(n);
    assert(lower_seq(n) =~= n);
    if env == AppEnvironment::Prod {
        assert(n != "dev"@);
        assert(n.len() != "development"@.len());
    }
}

/// Identity of this agent process and its shutdown budget.
#[derive(Clone, Debug)]
pub struct AppSection {
    pub name: String,
    pub environment: AppEnvironment,
    pub node_id: String,
    pub zone_id: String,
    pub shutdown_timeout: Duration,
}

impl AppSection {
    pub open spec fn validation_error(&self) -> Option<Seq<char>> {
        app_section_error(self.name@, self.node_id@, self.zone_id@, self.shutdown_timeout@)
    }

    pub fn validate(&self) -> (r: Result<(), String>)
        ensures
            match r {
                Ok(_) => self.validation_error() is None,
                Err(e) => self.validation_error() == Some(e@),
            },
    {
        if blank(self.name.as_str()) {
            return Err(str_to_string("APP_NAME must not be empty"));
        }
        if blank(self.node_id.as_str()) {
            return Err(str_to_string("APP_NODE_ID must not be empty"));
        }
        if blank(self.zone_id.as_str()) {
            return Err(str_to_string("APP_ZONE_ID must not be empty"));
        }
        if self.shutdown_timeout.is_zero() {
            return Err(str_to_string("SHUTDOWN_TIMEOUT_SEC must be > 0"));
        }
        Ok(())
    }
}

} // verus!
