//! The brain executor.
use vstd::prelude::*;

use crate::RuntimeOutcome;
use crate::RuntimeSio;
use crate::Telemetry;

verus! {

/// Something that executes runtime requests.
pub trait RuntimeExecutor {
    fn execute(&self, sio: RuntimeSio) -> Result<RuntimeOutcome, &'static str>;
}

/// An executor that accepts every request.
pub struct BrainExecutor;

impl BrainExecutor {
    pub fn new() -> Self {
        BrainExecutor
    }

    /// Accepts every request and answers with an empty `"executed"` outcome.
    pub fn execute(&self, sio: RuntimeSio) -> (r: Result<RuntimeOutcome, &'static str>)
        ensures
            r matches Ok(o) && o.status@ == "executed"@ && o.result@.len() == 0
                && o.telemetry == (Telemetry { latency_ms: 0, tokens_used: 0 }),
    {
        let _ = sio;
        Ok(RuntimeOutcome {
            status: String::from_str("executed"),
            result: Vec::new(),
            telemetry: Telemetry::default(),
        })
    }
}

impl RuntimeExecutor for BrainExecutor {
    fn execute(&self, sio: RuntimeSio) -> (r: Result<RuntimeOutcome, &'static str>)
        ensures
            r matches Ok(o) && o.status@ == "executed"@ && o.result@.len() == 0
                && o.telemetry == (Telemetry { latency_ms: 0, tokens_used: 0 }),
    {
        BrainExecutor::execute(self, sio)
    }
}

impl Default for BrainExecutor {
    fn default() -> Self {
        Self::new()
    }
}

} // verus!
