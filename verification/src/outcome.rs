//! Builds runtime outcomes.
use vstd::prelude::*;

use crate::RuntimeOutcome;
pub use crate::Telemetry;

verus! {

pub struct OutcomeBuilder;

impl OutcomeBuilder {
    /// An outcome with the given status, no tokens and zero telemetry.
    pub fn build(status: &str) -> (r: RuntimeOutcome)
        ensures
            r.status@ == status@,
            r.result@.len() == 0,
            r.telemetry == (Telemetry { latency_ms: 0, tokens_used: 0 }),
    {
        RuntimeOutcome {
            status: String::from_str(status),
            result: Vec::new(),
            telemetry: Telemetry::default(),
        }
    }
}

} // verus!
