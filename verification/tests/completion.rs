use chat_relay::domain::chat::{ChatHistory, ChatMessage, ChatMessageSender};
use chat_relay::domain::user::User;
use chat_relay::infra::completion::{
    completion_messages, message_from_choices, CallFailure, CompletionMessage, CompletionRole,
    ResponseGap, MODEL,
};
use chat_relay::outbound::llm_client::LlmFault;

fn dan() -> User {
    User { id: "1".to_string(), name: "Dan".to_string(), preferred_language: None }
}

fn message(role: CompletionRole, content: &str) -> CompletionMessage {
    CompletionMessage { role, content: content.to_string() }
}

fn talk() -> ChatHistory {
    let mut history = ChatHistory::new(dan(), "be brief".to_string());
    history.push_message(ChatMessage::new_from_user("hi".to_string()));
    history.push_message(ChatMessage { sender: ChatMessageSender::Assistant, content: "hello".to_string() });
    history.push_message(ChatMessage::new_from_user("bye".to_string()));
    history
}

#[test]
fn the_model_is_named() {
    assert_eq!(MODEL, "google/gemini-2.5-pro");
}

#[test]
fn a_request_starts_with_the_system_prompt() {
    let history = ChatHistory::new(dan(), "be brief".to_string());
    assert_eq!(completion_messages(&history), vec![message(CompletionRole::System, "be brief")]);
}

#[test]
fn a_request_keeps_order_and_roles() {
    let expected = vec![
        message(CompletionRole::System, "be brief"),
        message(CompletionRole::User, "hi"),
        message(CompletionRole::Assistant, "hello"),
        message(CompletionRole::User, "bye"),
    ];
    assert_eq!(completion_messages(&talk()), expected);
    assert_eq!(talk().into_openai(), expected);
}

#[test]
fn the_first_choice_is_the_answer() {
    let answer = message_from_choices(vec![Some("one".to_string()), Some("two".to_string()), None]);
    assert_eq!(answer, Ok(ChatMessage { sender: ChatMessageSender::Assistant, content: "one".to_string() }));
}

#[test]
fn no_choice_is_an_empty_response() {
    assert_eq!(message_from_choices(Vec::new()), Err(ResponseGap::NoChoices));
    assert_eq!(ResponseGap::NoChoices.fault(), LlmFault::EmptyResponse);
    assert_eq!(ResponseGap::NoChoices.describe(), "no choices in openai response");
}

#[test]
fn a_first_choice_without_content_is_an_empty_response() {
    assert_eq!(message_from_choices(vec![None]), Err(ResponseGap::NoContent));
    assert_eq!(message_from_choices(vec![None, Some("late".to_string())]), Err(ResponseGap::NoContent));
    assert_eq!(ResponseGap::NoContent.fault(), LlmFault::EmptyResponse);
    assert_eq!(ResponseGap::NoContent.describe(), "no content in choice");
}

#[test]
fn an_empty_text_is_no_answer() {
    assert_eq!(message_from_choices(vec![Some(String::new())]), Err(ResponseGap::NoContent));
    assert_eq!(
        message_from_choices(vec![Some(String::new()), Some("late".to_string())]),
        Err(ResponseGap::NoContent)
    );
}

#[test]
fn a_single_space_is_an_answer() {
    let answer = message_from_choices(vec![Some(" ".to_string())]);
    assert_eq!(answer, Ok(ChatMessage { sender: ChatMessageSender::Assistant, content: " ".to_string() }));
}

#[test]
fn a_call_that_did_not_get_through_is_a_transport_fault() {
    assert_eq!(CallFailure::Http.fault(), LlmFault::Transport);
    assert_eq!(CallFailure::Stream.fault(), LlmFault::Transport);
}

#[test]
fn every_other_failed_call_is_the_backends_fault() {
    for failure in [CallFailure::Api, CallFailure::Unreadable, CallFailure::InvalidArgument, CallFailure::Other] {
        assert_eq!(failure.fault(), LlmFault::Backend);
    }
}
