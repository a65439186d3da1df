use vstd::prelude::*;

use crate::text::str_to_string;

verus! {

/// How many background jobs may run at once.
#[derive(Clone, Debug)]
pub struct WorkerConfig {
    pub max_workers: usize,
}

impl WorkerConfig {
    pub fn validate(&self) -> (r: Result<(), String>)
        ensures
            match r {
                Ok(_) => self.max_workers > 0,
                Err(e) => self.max_workers == 0 && e@ == "WORKER_MAX must be > 0"@,
            },
    {
        if self.max_workers == 0 {
            return Err(str_to_string("WORKER_MAX must be > 0"));
        }
        Ok(())
    }
}

} // verus!
