use std::collections::HashMap;
use vstd::prelude::*;

use crate::domain::chat::{ChatHistory, ChatHistoryView};
use crate::outbound::repo::{ChatRepository, StorageFault};

verus! {

/// A repository that keeps the histories in memory. What it holds is gone
/// when it is dropped.
pub struct InMemoryChatRepository {
    store: HashMap<i64, ChatHistory>,
}

impl InMemoryChatRepository {
    /// A repository that holds no history.
    pub fn new() -> (repo: Self)
        ensures
            repo.entries() == Map::<i64, ChatHistoryView>::empty(),
    {
        let repo = Self { store: HashMap::new() };
        repo
    }
}

impl ChatRepository for InMemoryChatRepository {
    closed spec fn entries(&self) -> Map<i64, ChatHistoryView> {
        self.store@.map_values(|history: ChatHistory| history@)
    }

    /// Never fails.
    fn find(&self, id: i64) -> (found: Result<Option<ChatHistory>, StorageFault>)
        ensures
            found is Ok,
    {
        match self.store.get(&id) {
            Some(history) => Ok(Some(history.clone())),
            None => Ok(None),
        }
    }

    /// Never fails.
    fn save(&mut self, id: i64, chat: ChatHistory) -> (saved: Result<(), StorageFault>)
        ensures
            saved is Ok,
    {
        self.store.insert(id, chat);
        Ok(())
    }
}

} // verus!
