use vstd::prelude::*;

use crate::domain::chat::ChatHistory;

verus! {

/// A policy that cuts a history down once it has grown too long.
pub trait ChatTrimmingService {
    /// A valid history of the same user that is no longer too long: its
    /// system prompt is not empty, whatever the prompt was before.
    fn trim(&self, chat_history: ChatHistory) -> (trimmed: ChatHistory)
        ensures
            !trimmed@.too_long(),
            trimmed@.user == chat_history@.user,
            trimmed@.well_formed(),
    ;
}

} // verus!
