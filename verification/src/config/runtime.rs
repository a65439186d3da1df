use vstd::prelude::*;

use crate::text::{blank, is_blank, str_to_string};

verus! {

pub open spec fn runtime_config_error(driver: Seq<char>, redis_url: Seq<char>) -> Option<Seq<char>> {
    if is_blank(driver) {
        Some("RUNTIME_DRIVER must not be empty"@)
    } else if is_blank(redis_url) {
        Some("REDIS_URL must not be empty"@)
    } else {
        None
    }
}

/// The VM runtime driver and the queue it is fed from.
#[derive(Clone, Debug)]
pub struct RuntimeConfig {
    pub driver: String,
    pub redis_url: String,
}

impl RuntimeConfig {
    pub open spec fn validation_error(&self) -> Option<Seq<char>> {
        runtime_config_error(self.driver@, self.redis_url@)
    }

    pub fn validate(&self) -> (r: Result<(), String>)
        ensures
            match r {
                Ok(_) => self.validation_error() is None,
                Err(e) => self.validation_error() == Some(e@),
            },
    {
        if blank(self.driver.as_str()) {
            return Err(str_to_string("RUNTIME_DRIVER must not be empty"));
        }
        if blank(self.redis_url.as_str()) {
            return Err(str_to_string("REDIS_URL must not be empty"));
        }
        Ok(())
    }
}

} // verus!
