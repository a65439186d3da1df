use vstd::prelude::*;

use crate::text::{blank, is_blank, str_to_string};

verus! {

/// Where the agent's own gRPC server listens.
#[derive(Clone, Debug)]
pub struct GrpcConfig {
    pub bind_addr: String,
}

impl GrpcConfig {
    pub fn validate(&self) -> (r: Result<(), String>)
        ensures
            match r {
                Ok(_) => !is_blank(self.bind_addr@),
                Err(e) => is_blank(self.bind_addr@) && e@ == "GRPC_BIND_ADDR must not be empty"@,
            },
    {
        if blank(self.bind_addr.as_str()) {
            return Err(str_to_string("GRPC_BIND_ADDR must not be empty"));
        }
        Ok(())
    }
}

} // verus!
