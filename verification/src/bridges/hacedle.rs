//! Bridge to the Hacedle CE for edge LLM inference.
//!
//! This build carries no inference engine: loading a model is refused, and
//! requests are answered by echoing the prompt's bytes as tokens, which
//! exercises the whole chain from request to outcome.
use vstd::prelude::*;

use crate::bridges::RuntimeBridge;
use crate::RuntimeOutcome;
use crate::RuntimeSio;
use crate::Telemetry;

verus! {

/// Token budget of a request that names none.
pub const DEFAULT_MAX_TOKENS: u32 = 64;

/// The echo tokens of a byte string: each byte as one token.
pub open spec fn echo_tokens(bytes: Seq<u8>) -> Seq<u32> {
    bytes.map_values(|b: u8| b as u32)
}

/// `s` cut to at most `n` items.
pub open spec fn truncated<T>(s: Seq<T>, n: nat) -> Seq<T> {
    if n < s.len() {
        s.take(n as int)
    } else {
        s
    }
}

/// The prompt text of a request; a missing prompt is the empty text.
pub open spec fn request_prompt(sio: RuntimeSio) -> Seq<char> {
    match sio.prompt {
        Some(p) => p@,
        None => Seq::empty(),
    }
}

/// The token budget of a request.
pub open spec fn request_budget(sio: RuntimeSio) -> u32 {
    match sio.max_tokens {
        Some(n) => n,
        None => DEFAULT_MAX_TOKENS,
    }
}

/// The tokens that the Hacedle bridge answers a request with: the echo tokens
/// of the prompt's UTF-8 bytes, cut to the request's token budget.
pub open spec fn hacedle_tokens(sio: RuntimeSio) -> Seq<u32> {
    truncated(echo_tokens(vstd::utf8::encode_utf8(request_prompt(sio))), request_budget(sio) as nat)
}

/// What the Hacedle bridge answers a request with: status `"success"`, the
/// request's Hacedle tokens, zero latency, and as many tokens used as returned.
pub open spec fn hacedle_answer(o: RuntimeOutcome, sio: RuntimeSio) -> bool {
    &&& o.status@ == "success"@
    &&& o.result@ == hacedle_tokens(sio)
    &&& o.telemetry.latency_ms == 0
    &&& o.telemetry.tokens_used as nat == o.result@.len()
}

/// Bridge to the Hacedle CE for edge LLM inference.
pub struct HacedleBridge {
    model_path: Option<String>,
}

impl HacedleBridge {
    /// The path of the model that was loaded, if any.
    pub closed spec fn spec_model_path(&self) -> Option<Seq<char>> {
        match self.model_path {
            Some(p) => Some(p@),
            None => None,
        }
    }

    pub fn new() -> (r: Self)
        ensures
            r.spec_model_path() is None,
    {
        HacedleBridge { model_path: None }
    }

    /// A bridge for the model at `path`; the model is not loaded here.
    pub fn with_model(path: &str) -> (r: Self)
        ensures
            r.spec_model_path() is None,
    {
        let _ = path;
        Self::new()
    }

    /// Load a model into the engine. This build has no engine, so loading is
    /// always refused and the bridge stays as it was.
    pub fn load_model(&mut self, path: &str) -> (r: Result<(), &'static str>)
        ensures
            r matches Err(e) && e@ == "hacedle_feature_not_enabled"@,
            final(self).spec_model_path() == old(self).spec_model_path(),
    {
        let _ = path;
        Err("hacedle_feature_not_enabled")
    }

    /// Mock inference: the prompt's bytes, each as one token.
    pub fn execute_mock(&self, prompt: &str) -> (r: Result<Vec<u32>, &'static str>)
        ensures
            r matches Ok(v) && v@ == echo_tokens(vstd::utf8::encode_utf8(prompt@)),
    {
        let bytes = prompt.as_bytes();
        let mut out: Vec<u32> = Vec::new();
        let mut i: usize = 0;
        while i < bytes.len()
            invariant
                bytes@ == vstd::utf8::encode_utf8(prompt@),
                i <= bytes@.len(),
                out@ == echo_tokens(bytes@.take(i as int)),
            decreases bytes@.len() - i,
        {
            let b = bytes[i];
            out.push(b as u32);
            assert(bytes@.take(i + 1) =~= bytes@.take(i as int).push(b));
            i = i + 1;
        }
        assert(bytes@.take(i as int) =~= bytes@);
        Ok(out)
    }

    /// Inference on the loaded engine. No engine is ever loaded in this build,
    /// so the call is refused.
    pub fn execute_inference(&self, prompt: &str, max_tokens: u32) -> (r: Result<Vec<u32>, &'static str>)
        ensures
            r matches Err(e) && e@ == "engine_not_loaded"@,
    {
        let _ = prompt;
        let _ = max_tokens;
        Err("engine_not_loaded")
    }
}

impl Default for HacedleBridge {
    fn default() -> (r: Self)
        ensures
            r.spec_model_path() is None,
    {
        Self::new()
    }
}

impl RuntimeBridge for HacedleBridge {
    /// Answers with the echo tokens of the prompt, cut to the token budget
    /// (64 where the request names none), with status `"success"`.
    fn invoke(&self, sio: RuntimeSio) -> (r: Result<RuntimeOutcome, &'static str>)
        ensures
            r matches Ok(o) && hacedle_answer(o, sio),
    {
        let ghost request = sio;
        let max_tokens = match sio.max_tokens {
            Some(n) => n,
            None => DEFAULT_MAX_TOKENS,
        };
        let prompt = match sio.prompt {
            Some(p) => p,
            None => String::new(),
        };
        let tokens = self.execute_mock(prompt.as_str())?;
        let mut result_tokens = tokens;
        result_tokens.truncate(max_tokens as usize);
        let used = result_tokens.len();
        assert(used <= max_tokens);
        assert(result_tokens@ == hacedle_tokens(request));
        Ok(RuntimeOutcome {
            status: String::from_str("success"),
            result: result_tokens,
            telemetry: Telemetry { latency_ms: 0, tokens_used: used as u32 },
        })
    }
}

/// The Hacedle bridge answers with as many tokens as the prompt has bytes, but
/// never more than the token budget.
pub proof fn lemma_hacedle_tokens_within_budget(sio: RuntimeSio)
    ensures
        hacedle_tokens(sio).len() <= request_budget(sio),
        hacedle_tokens(sio).len() <= vstd::utf8::encode_utf8(request_prompt(sio)).len(),
        hacedle_tokens(sio).len() == request_budget(sio)
            || hacedle_tokens(sio).len() == vstd::utf8::encode_utf8(request_prompt(sio)).len(),
{
}

/// For an ASCII prompt the echo tokens are the prompt's characters, in order.
pub proof fn lemma_ascii_prompt_echoes_chars(sio: RuntimeSio)
    requires
        vstd::utf8::is_ascii_chars(request_prompt(sio)),
    ensures
        forall|i: int|
            0 <= i < hacedle_tokens(sio).len() ==> #[trigger] hacedle_tokens(sio)[i]
                == request_prompt(sio)[i] as u32,
{
    let p = request_prompt(sio);
    vstd::utf8::is_ascii_chars_encode_utf8(p);
    vstd::utf8::is_ascii_chars_nat_bound(p);
    assert forall|i: int| 0 <= i < hacedle_tokens(sio).len() implies #[trigger] hacedle_tokens(sio)[i]
        == p[i] as u32 by {
        let b: u32 = p[i] as u32;
        assert(b < 128);
        assert((b as u8) as u32 == b) by (bit_vector)
            requires
                b < 128,
        ;
    }
}

/// The Hacedle answer is the prompt's UTF-8 bytes, one token per byte and in
/// order, for every prompt (a missing prompt being empty): the answer has
/// `min(budget, byte count)` tokens, the budget being `max_tokens` or 64, and
/// the token at each position is the byte at that position.
pub proof fn lemma_hacedle_answer_is_prompt_bytes(sio: RuntimeSio)
    ensures
        ({
            let prompt: Seq<char> = match sio.prompt {
                Some(p) => p@,
                None => Seq::empty(),
            };
            let budget: nat = match sio.max_tokens {
                Some(n) => n as nat,
                None => 64,
            };
            let bytes = vstd::utf8::encode_utf8(prompt);
            let t = hacedle_tokens(sio);
            &&& t.len() == (if budget < bytes.len() { budget } else { bytes.len() })
            &&& forall|i: int| 0 <= i < t.len() ==> #[trigger] t[i] == bytes[i] as u32
        }),
{
}

} // verus!
