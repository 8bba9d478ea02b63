//! What a chat-completion backend is asked and how its answer is read. The
//! call itself is made elsewhere: this module frames the request and picks
//! the message out of the response.

use vstd::prelude::*;

use crate::domain::chat::{
    ChatHistory, ChatHistoryView, ChatMessage, ChatMessageSender, ChatMessageView,
};
use crate::outbound::llm_client::LlmFault;

verus! {

/// The model that completions are asked of.
pub const MODEL: &'static str = "google/gemini-2.5-pro";

/// The role under which a message goes to the backend.
#[derive(Clone, Copy, Debug, PartialEq, Eq, Structural)]
pub enum CompletionRole {
    System,
    User,
    Assistant,
}

/// The mathematical value of a [`CompletionMessage`].
pub struct CompletionMessageView {
    pub role: CompletionRole,
    pub content: Seq<char>,
}

/// One message of a completion request.
#[derive(Debug, PartialEq, Eq)]
pub struct CompletionMessage {
    pub role: CompletionRole,
    pub content: String,
}

impl View for CompletionMessage {
    type V = CompletionMessageView;

    open spec fn view(&self) -> CompletionMessageView {
        CompletionMessageView { role: self.role, content: self.content@ }
    }
}

/// The role under which a message of `sender` goes to the backend.
pub open spec fn role_of(sender: ChatMessageSender) -> CompletionRole {
    match sender {
        ChatMessageSender::User => CompletionRole::User,
        ChatMessageSender::Assistant => CompletionRole::Assistant,
    }
}

/// A message of the conversation as the backend gets it: same text, the
/// sender's role.
pub open spec fn request_message(message: ChatMessageView) -> CompletionMessageView {
    CompletionMessageView { role: role_of(message.sender), content: message.content }
}

/// The messages of a completion request for `history`: the system prompt
/// first, under the system role, then every message in the order of the
/// conversation.
pub open spec fn request_messages(history: ChatHistoryView) -> Seq<CompletionMessageView> {
    Seq::new(
        history.messages.len() + 1,
        |i: int|
            if i == 0 {
                CompletionMessageView { role: CompletionRole::System, content: history.system_prompt }
            } else {
                request_message(history.messages[i - 1])
            },
    )
}

/// The values of the messages of a request, in the same order.
pub open spec fn completion_view(messages: Seq<CompletionMessage>) -> Seq<CompletionMessageView> {
    Seq::new(messages.len(), |i: int| messages[i]@)
}

/// The messages of a completion request for `history`.
pub fn completion_messages(history: &ChatHistory) -> (messages: Vec<CompletionMessage>)
    ensures
        completion_view(messages@) == request_messages(history@),
{
    let mut messages: Vec<CompletionMessage> = Vec::new();
    messages.push(
        CompletionMessage { role: CompletionRole::System, content: history.system_prompt.clone() },
    );
    let mut i: usize = 0;
    while i < history.messages.len()
        invariant
            i <= history.messages.len(),
            messages.len() == i + 1,
            forall|j: int| 0 <= j <= i ==> messages[j]@ == #[trigger] request_messages(history@)[j],
        decreases history.messages.len() - i,
    {
        let message = &history.messages[i];
        let role = match message.sender {
            ChatMessageSender::User => CompletionRole::User,
            ChatMessageSender::Assistant => CompletionRole::Assistant,
        };
        messages.push(CompletionMessage { role, content: message.content.clone() });
        i += 1;
    }
    messages
}

impl ChatHistory {
    /// The messages of a completion request for this history.
    pub fn into_openai(self) -> (messages: Vec<CompletionMessage>)
        ensures
            completion_view(messages@) == request_messages(self@),
    {
        completion_messages(&self)
    }
}

/// The values of the contents of a response's choices, in the same order.
pub open spec fn choices_view(choices: Seq<Option<String>>) -> Seq<Option<Seq<char>>> {
    Seq::new(
        choices.len(),
        |i: int|
            match choices[i] {
                Some(content) => Some(content@),
                None => None,
            },
    )
}

/// Why a response holds no message.
#[derive(Clone, Copy, Debug, PartialEq, Eq, Structural)]
pub enum ResponseGap {
    /// The response has no choices.
    NoChoices,
    /// The first choice of the response has no content, or content without
    /// any text.
    NoContent,
}

impl ResponseGap {
    /// The gap in words.
    pub fn describe(self) -> (words: &'static str)
        ensures
            words@ == match self {
                ResponseGap::NoChoices => "no choices in openai response"@,
                ResponseGap::NoContent => "no content in choice"@,
            },
    {
        match self {
            ResponseGap::NoChoices => "no choices in openai response",
            ResponseGap::NoContent => "no content in choice",
        }
    }

    /// The fault that a response with a gap is: an empty response, whatever
    /// the gap.
    pub fn fault(self) -> (fault: LlmFault)
        ensures
            fault == LlmFault::EmptyResponse,
    {
        LlmFault::EmptyResponse
    }
}

/// What a response says: the content of its first choice, as a message of
/// the assistant. A response without choices, or whose first choice has no
/// content or an empty one, says nothing, and that is a fault: no blank
/// turn is made up, and none is passed on.
pub open spec fn response_message(choices: Seq<Option<Seq<char>>>) -> Result<
    ChatMessageView,
    ResponseGap,
> {
    if choices.len() == 0 {
        Err(ResponseGap::NoChoices)
    } else {
        match choices[0] {
            Some(content) => if content.len() > 0 {
                Ok(ChatMessageView { sender: ChatMessageSender::Assistant, content })
            } else {
                Err(ResponseGap::NoContent)
            },
            None => Err(ResponseGap::NoContent),
        }
    }
}

/// The value of a message, or the gap in its place.
pub open spec fn message_result_view(result: Result<ChatMessage, ResponseGap>) -> Result<
    ChatMessageView,
    ResponseGap,
> {
    match result {
        Ok(message) => Ok(message@),
        Err(gap) => Err(gap),
    }
}

/// Reads the assistant's message out of a response, given the contents of
/// the response's choices in their order. A message that comes out of this
/// has text.
pub fn message_from_choices(choices: Vec<Option<String>>) -> (message: Result<
    ChatMessage,
    ResponseGap,
>)
    ensures
        message_result_view(message) == response_message(choices_view(choices@)),
{
    let mut choices = choices;
    if choices.len() == 0 {
        return Err(ResponseGap::NoChoices);
    }
    let first = choices.swap_remove(0);
    match first {
        Some(content) => {
            if content.as_str().is_empty() {
                Err(ResponseGap::NoContent)
            } else {
                Ok(ChatMessage { sender: ChatMessageSender::Assistant, content })
            }
        },
        None => Err(ResponseGap::NoContent),
    }
}

/// How a call of the backend failed, short of an answer.
#[derive(Clone, Copy, Debug, PartialEq, Eq, Structural)]
pub enum CallFailure {
    /// The HTTP exchange failed.
    Http,
    /// The stream of the answer broke off.
    Stream,
    /// The backend answered with an error object.
    Api,
    /// The backend's answer could not be read.
    Unreadable,
    /// The request was refused as invalid before it was sent.
    InvalidArgument,
    /// Something else went wrong on this side of the call.
    Other,
}

/// The fault that a failed call is. The backend was not reached where the
/// exchange or the stream failed; every other failure is the backend's.
pub open spec fn call_fault(failure: CallFailure) -> LlmFault {
    match failure {
        CallFailure::Http => LlmFault::Transport,
        CallFailure::Stream => LlmFault::Transport,
        _ => LlmFault::Backend,
    }
}

impl CallFailure {
    /// The fault that this failure is.
    pub fn fault(self) -> (fault: LlmFault)
        ensures
            fault == call_fault(self),
    {
        match self {
            CallFailure::Http => LlmFault::Transport,
            CallFailure::Stream => LlmFault::Transport,
            CallFailure::Api => LlmFault::Backend,
            CallFailure::Unreadable => LlmFault::Backend,
            CallFailure::InvalidArgument => LlmFault::Backend,
            CallFailure::Other => LlmFault::Backend,
        }
    }
}

} // verus!
