use vstd::prelude::*;

use super::user::{User, UserView};

verus! {

/// Who wrote a message. A message has exactly one of the two roles.
#[derive(Clone, Copy, Debug, PartialEq, Eq, Structural)]
pub enum ChatMessageSender {
    User,
    Assistant,
}

/// The mathematical value of a [`ChatMessage`].
pub struct ChatMessageView {
    pub sender: ChatMessageSender,
    pub content: Seq<char>,
}

/// One turn of a conversation.
#[derive(Debug, PartialEq, Eq)]
pub struct ChatMessage {
    pub sender: ChatMessageSender,
    pub content: String,
}

impl View for ChatMessage {
    type V = ChatMessageView;

    open spec fn view(&self) -> ChatMessageView {
        ChatMessageView { sender: self.sender, content: self.content@ }
    }
}

impl Clone for ChatMessage {
    fn clone(&self) -> (copy: Self)
        ensures
            copy@ == self@,
    {
        ChatMessage { sender: self.sender, content: self.content.clone() }
    }
}

impl ChatMessage {
    /// A message written by the user, with `msg` as its text.
    pub fn new_from_user(msg: String) -> (message: Self)
        ensures
            message@ == (ChatMessageView { sender: ChatMessageSender::User, content: msg@ }),
    {
        Self { sender: ChatMessageSender::User, content: msg }
    }
}

/// The mathematical value of a [`ChatHistory`]: the owning user, the system
/// prompt and the messages in the order of the conversation.
pub struct ChatHistoryView {
    pub user: UserView,
    pub system_prompt: Seq<char>,
    pub messages: Seq<ChatMessageView>,
}

impl ChatHistoryView {
    /// The history of a conversation in which nothing has been said yet.
    pub open spec fn fresh(user: UserView, system_prompt: Seq<char>) -> Self {
        ChatHistoryView { user, system_prompt, messages: Seq::empty() }
    }

    /// This history with `message` added at its tail.
    pub open spec fn with_message(self, message: ChatMessageView) -> Self {
        ChatHistoryView { messages: self.messages.push(message), ..self }
    }

    /// A valid history carries a system prompt that is not empty.
    pub open spec fn well_formed(self) -> bool {
        self.system_prompt.len() > 0
    }
}

/// The values of the messages of a list, in the same order.
pub open spec fn messages_view(messages: Seq<ChatMessage>) -> Seq<ChatMessageView> {
    Seq::new(messages.len(), |i: int| messages[i]@)
}

/// A conversation: whom it belongs to, the system prompt it runs under and
/// what has been said so far. The system prompt is never one of the
/// messages.
#[derive(Debug, PartialEq, Eq)]
pub struct ChatHistory {
    pub user: User,
    pub system_prompt: String,
    pub messages: Vec<ChatMessage>,
}

impl View for ChatHistory {
    type V = ChatHistoryView;

    open spec fn view(&self) -> ChatHistoryView {
        ChatHistoryView {
            user: self.user@,
            system_prompt: self.system_prompt@,
            messages: messages_view(self.messages@),
        }
    }
}

impl Clone for ChatHistory {
    fn clone(&self) -> (copy: Self)
        ensures
            copy@ == self@,
    {
        let mut messages: Vec<ChatMessage> = Vec::new();
        let mut i: usize = 0;
        while i < self.messages.len()
            invariant
                i <= self.messages.len(),
                messages.len() == i,
                forall|j: int| 0 <= j < i ==> messages[j]@ == self.messages[j]@,
            decreases self.messages.len() - i,
        {
            messages.push(self.messages[i].clone());
            i += 1;
        }
        assert(messages_view(messages@) =~= messages_view(self.messages@));
        ChatHistory {
            user: self.user.clone(),
            system_prompt: self.system_prompt.clone(),
            messages,
        }
    }
}

impl ChatHistory {
    /// A new conversation of `user` under `system_prompt`, without messages.
    pub fn new(user: User, system_prompt: String) -> (history: Self)
        ensures
            history@ == ChatHistoryView::fresh(user@, system_prompt@),
    {
        let history = Self { user, system_prompt, messages: Vec::new() };
        assert(messages_view(history.messages@) =~= Seq::empty());
        history
    }

    /// Adds `message` at the tail. Nothing is reordered and nothing is
    /// dropped, not even a message that is already there.
    pub fn push_message(&mut self, message: ChatMessage)
        ensures
            final(self)@ == old(self)@.with_message(message@),
    {
        self.messages.push(message);
        assert(messages_view(self.messages@) =~= messages_view(old(self).messages@).push(
            message@,
        ));
    }
}

} // verus!
