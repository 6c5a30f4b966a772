//! Sends each request to the bridge that its provider names.
use vstd::prelude::*;

use crate::bridges::{hacedle_answer, workflow_answer, HacedleBridge, HacetralBridge, RuntimeBridge};
use crate::router::{spec_route_target, RouteTarget};
use crate::text::str_eq;
use crate::RuntimeOutcome;
use crate::RuntimeSio;

verus! {

/// Holds one bridge per compute engine and picks one per request.
pub struct RuntimeDispatcher {
    hacedle_bridge: HacedleBridge,
    hacetral_bridge: HacetralBridge,
}

impl RuntimeDispatcher {
    /// The Hacedle bridge held.
    pub closed spec fn spec_hacedle(&self) -> HacedleBridge {
        self.hacedle_bridge
    }

    pub fn new() -> (r: Self)
        ensures
            r.spec_hacedle().spec_model_path() is None,
    {
        RuntimeDispatcher { hacedle_bridge: HacedleBridge::new(), hacetral_bridge: HacetralBridge }
    }

    /// Load a model into the Hacedle bridge; refused in this build.
    pub fn load_hacedle_model(&mut self, path: &str) -> (r: Result<(), &'static str>)
        ensures
            r matches Err(e) && e@ == "hacedle_feature_not_enabled"@,
            final(self).spec_hacedle().spec_model_path() == old(self).spec_hacedle().spec_model_path(),
    {
        self.hacedle_bridge.load_model(path)
    }

    /// Select the bridge by the request's provider: `"hacetral"` goes to the
    /// Hacetral bridge, `"hacedle"` and every other name to the Hacedle bridge.
    pub fn dispatch(&self, sio: RuntimeSio) -> (r: Result<RuntimeOutcome, &'static str>)
        ensures
            sio.runtime.provider@ == "hacetral"@ ==> (r matches Ok(o) && workflow_answer(o)),
            sio.runtime.provider@ != "hacetral"@ ==> (r matches Ok(o) && hacedle_answer(o, sio)),
    {
        if str_eq(sio.runtime.provider.as_str(), "hacedle") {
            proof {
                reveal_strlit("hacedle");
                reveal_strlit("hacetral");
                assert("hacedle"@[4] != "hacetral"@[4]);
            }
            self.hacedle_bridge.invoke(sio)
        } else if str_eq(sio.runtime.provider.as_str(), "hacetral") {
            self.hacetral_bridge.invoke(sio)
        } else {
            self.hacedle_bridge.invoke(sio)
        }
    }
}

impl Default for RuntimeDispatcher {
    fn default() -> (r: Self)
        ensures
            r.spec_hacedle().spec_model_path() is None,
    {
        Self::new()
    }
}

/// The dispatcher and the brain router agree: a request is served by the
/// Hacetral bridge exactly when the router routes its provider to Hacetral.
pub proof fn lemma_dispatch_agrees_with_router(provider: Seq<char>)
    ensures
        (provider == "hacetral"@) <==> spec_route_target(provider) == RouteTarget::Hacetral,
{
    reveal_strlit("hacetral");
    reveal_strlit("hacetime");
    reveal_strlit("haceto");
    if provider == "hacetime"@ {
        assert("hacetime"@[5] != "hacetral"@[5]);
    }
    if provider == "haceto"@ {
        assert("haceto"@.len() != "hacetral"@.len());
    }
}

} // verus!
