use vstd::prelude::*;

use crate::domain::chat::{ChatHistory, ChatHistoryView};

verus! {

/// The storage behind a repository failed. That a conversation has no
/// history yet is no fault: it is an absent value.
#[derive(Clone, Copy, Debug, PartialEq, Eq, Structural)]
pub struct StorageFault;

/// What a lookup of `id` gives in a store that holds `entries`.
pub open spec fn stored(entries: Map<i64, ChatHistoryView>, id: i64) -> Option<ChatHistoryView> {
    if entries.contains_key(id) {
        Some(entries[id])
    } else {
        None
    }
}

/// The value of an optional history.
pub open spec fn found_view(found: Option<ChatHistory>) -> Option<ChatHistoryView> {
    match found {
        Some(history) => Some(history@),
        None => None,
    }
}

/// The store of histories, one for each conversation id.
pub trait ChatRepository {
    /// The histories that the store holds, by conversation id.
    spec fn entries(&self) -> Map<i64, ChatHistoryView>;

    /// The history of conversation `id`, if there is one.
    fn find(&self, id: i64) -> (found: Result<Option<ChatHistory>, StorageFault>)
        ensures
            found matches Ok(history) ==> found_view(history) == stored(self.entries(), id),
    ;

    /// Stores `chat` as the history of conversation `id`, in place of the one
    /// that was there, if any. The write is all or nothing: where it fails,
    /// the store holds what it held.
    fn save(&mut self, id: i64, chat: ChatHistory) -> (saved: Result<(), StorageFault>)
        ensures
            saved is Ok ==> final(self).entries() == old(self).entries().insert(id, chat@),
            saved is Err ==> final(self).entries() == old(self).entries(),
    ;
}

/// A history that was saved is what a lookup of the same id finds, whatever
/// was there before, and the histories of the other conversations stay as
/// they were. Saving replaces: of two histories saved under one id the
/// later one alone is left, and saving the same history twice is saving it
/// once. A store that holds nothing finds nothing.
pub proof fn law_save_then_find(
    entries: Map<i64, ChatHistoryView>,
    id: i64,
    chat: ChatHistoryView,
    earlier: ChatHistoryView,
    other: i64,
)
    ensures
        stored(entries.insert(id, chat), id) == Some(chat),
        other != id ==> stored(entries.insert(id, chat), other) == stored(entries, other),
        entries.insert(id, earlier).insert(id, chat) == entries.insert(id, chat),
        entries.insert(id, chat).insert(id, chat) == entries.insert(id, chat),
        stored(Map::empty(), id) is None,
{
}

} // verus!
