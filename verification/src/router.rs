//! Names the runtime that a request's provider selects.
use vstd::prelude::*;

use crate::text::str_eq;
use crate::RuntimeSio;

verus! {

/// A runtime that a request can be routed to.
#[derive(Debug, Clone, Copy, PartialEq, Eq, Structural)]
pub enum RouteTarget {
    Hacedle,
    Hacetral,
    Hacetime,
    Haceto,
}

/// The runtime named by a provider; any name but the three others is Hacedle.
pub open spec fn spec_route_target(provider: Seq<char>) -> RouteTarget {
    if provider == "hacetral"@ {
        RouteTarget::Hacetral
    } else if provider == "hacetime"@ {
        RouteTarget::Hacetime
    } else if provider == "haceto"@ {
        RouteTarget::Haceto
    } else {
        RouteTarget::Hacedle
    }
}

pub struct BrainRouter;

impl BrainRouter {
    pub fn route(sio: &RuntimeSio) -> (r: RouteTarget)
        ensures
            r == spec_route_target(sio.runtime.provider@),
    {
        let provider = sio.runtime.provider.as_str();
        if str_eq(provider, "hacetral") {
            RouteTarget::Hacetral
        } else if str_eq(provider, "hacetime") {
            RouteTarget::Hacetime
        } else if str_eq(provider, "haceto") {
            RouteTarget::Haceto
        } else {
            RouteTarget::Hacedle
        }
    }
}

/// Each named runtime is chosen exactly for its own name, and every other
/// provider name goes to Hacedle.
pub proof fn lemma_route_target_by_name(provider: Seq<char>)
    ensures
        (spec_route_target(provider) == RouteTarget::Hacetral) <==> provider == "hacetral"@,
        (spec_route_target(provider) == RouteTarget::Hacetime) <==> provider == "hacetime"@,
        (spec_route_target(provider) == RouteTarget::Haceto) <==> provider == "haceto"@,
        (spec_route_target(provider) == RouteTarget::Hacedle) <==> (provider != "hacetral"@
            && provider != "hacetime"@ && provider != "haceto"@),
{
    reveal_strlit("hacetral");
    reveal_strlit("hacetime");
    reveal_strlit("haceto");
    assert("hacetral"@[5] != "hacetime"@[5]);
    assert("haceto"@.len() != "hacetral"@.len());
    assert("haceto"@.len() != "hacetime"@.len());
}

} // verus!
