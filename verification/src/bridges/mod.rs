//! Bridges from the runtime to the compute engines.
use vstd::prelude::*;

use crate::RuntimeOutcome;
use crate::RuntimeSio;

mod hacedle;
mod hacetral;

pub use hacedle::{
    echo_tokens, hacedle_answer, hacedle_tokens, lemma_ascii_prompt_echoes_chars,
    lemma_hacedle_answer_is_prompt_bytes,    lemma_hacedle_tokens_within_budget, request_budget, request_prompt, truncated,
    HacedleBridge, DEFAULT_MAX_TOKENS,
};
pub use hacetral::{workflow_answer, HacetralBridge};

verus! {

/// A compute engine that answers runtime requests.
pub trait RuntimeBridge {
    fn invoke(&self, sio: RuntimeSio) -> Result<RuntimeOutcome, &'static str>;
}

} // verus!
