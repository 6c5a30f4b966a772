//! The conversation that a prompt is assembled from.
use vstd::prelude::*;

verus! {

/// The texts of a message history, in order.
pub open spec fn history_texts(history: Seq<String>) -> Seq<Seq<char>> {
    history.map_values(|m: String| m@)
}

/// A system message, earlier user messages and the current user message.
#[derive(Debug, Clone)]
pub struct PromptContext {
    pub system: String,
    pub user: String,
    pub history: Vec<String>,
}

impl PromptContext {
    pub fn new(system: String, user: String) -> (r: Self)
        ensures
            r.system == system,
            r.user == user,
            r.history@.len() == 0,
    {
        PromptContext { system, user, history: Vec::new() }
    }

    /// The same context with its history replaced by `history`.
    pub fn with_history(self, history: Vec<String>) -> (r: Self)
        ensures
            r.system == self.system,
            r.user == self.user,
            r.history@ == history@,
    {
        let mut s = self;
        s.history = history;
        s
    }

    /// Append `msg` to the end of the history.
    pub fn add_history(&mut self, msg: String)
        ensures
            final(self).system == old(self).system,
            final(self).user == old(self).user,
            final(self).history@ == old(self).history@.push(msg),
    {
        self.history.push(msg);
    }
}

} // verus!
