//! Wraps a request into the context that the runtime works in.
use vstd::prelude::*;

use crate::RuntimeSio;

verus! {

pub struct ContextBuilder;

impl ContextBuilder {
    pub fn build(sio: RuntimeSio) -> (r: RuntimeContext)
        ensures
            r.sio == sio,
            r.initialized,
    {
        RuntimeContext { sio, initialized: true }
    }
}

/// A request together with whether the runtime has been set up for it.
pub struct RuntimeContext {
    pub sio: RuntimeSio,
    pub initialized: bool,
}

} // verus!
