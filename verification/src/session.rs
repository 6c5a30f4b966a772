//! Sessions of the runtime, keyed by their id.
use vstd::prelude::*;

use std::collections::BTreeMap;

verus! {

/// Where a session stands.
#[derive(Debug, Clone, Copy, PartialEq, Eq, Structural)]
pub enum SessionState {
    Pending,
    Running,
    Completed,
}

pub struct Session {
    pub id: String,
    pub state: SessionState,
}

pub struct SessionManager {
    sessions: BTreeMap<String, Session>,
}

impl SessionManager {
    /// The sessions held, by id.
    pub closed spec fn spec_sessions(&self) -> Map<String, Session> {
        self.sessions@
    }

    pub fn new() -> (r: Self)
        ensures
            r.spec_sessions() == Map::<String, Session>::empty(),
    {
        SessionManager { sessions: BTreeMap::new() }
    }
}

} // verus!
