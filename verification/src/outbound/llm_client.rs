use vstd::prelude::*;

use crate::domain::chat::{ChatHistory, ChatMessage, ChatMessageSender};

verus! {

/// Why the language model gave no message.
#[derive(Clone, Copy, Debug, PartialEq, Eq, Structural)]
pub enum LlmFault {
    /// The backend could not be reached.
    Transport,
    /// The backend answered with an error of its own.
    Backend,
    /// The backend answered, and the answer holds no text.
    EmptyResponse,
}

/// The language model behind the relay.
pub trait LlmClient {
    /// The model's next message for `history`, system prompt included. The
    /// message is the assistant's and has text: an answer without text is
    /// an [`LlmFault::EmptyResponse`], never a blank message.
    fn get_response(&self, history: &ChatHistory) -> (response: Result<ChatMessage, LlmFault>)
        ensures
            response matches Ok(message) ==> message.sender == ChatMessageSender::Assistant
                && message.content@.len() > 0,
    ;
}

} // verus!
