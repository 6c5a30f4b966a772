//! Bridge to the Hacetral workflow engine.
use vstd::prelude::*;

use crate::bridges::RuntimeBridge;
use crate::RuntimeOutcome;
use crate::RuntimeSio;
use crate::Telemetry;

verus! {

/// What the Hacetral bridge answers every request with: status `"workflow"`,
/// no tokens and zero telemetry.
pub open spec fn workflow_answer(o: RuntimeOutcome) -> bool {
    &&& o.status@ == "workflow"@
    &&& o.result@.len() == 0
    &&& o.telemetry == (Telemetry { latency_ms: 0, tokens_used: 0 })
}

/// Bridge to the Hacetral workflow engine.
pub struct HacetralBridge;

impl RuntimeBridge for HacetralBridge {
    /// Accepts every request and answers with an empty `"workflow"` outcome.
    fn invoke(&self, sio: RuntimeSio) -> (r: Result<RuntimeOutcome, &'static str>)
        ensures
            r matches Ok(o) && workflow_answer(o),
    {
        let _ = sio;
        Ok(RuntimeOutcome {
            status: String::from_str("workflow"),
            result: Vec::new(),
            telemetry: Telemetry::default(),
        })
    }
}

} // verus!
