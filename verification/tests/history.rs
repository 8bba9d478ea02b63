use chat_relay::domain::chat::{ChatHistory, ChatMessage, ChatMessageSender};
use chat_relay::domain::size::MAX_CONTENT_LEN;
use chat_relay::domain::user::User;

fn someone() -> User {
    User { id: "1".to_string(), name: "User".to_string(), preferred_language: Some("Klingon".to_string()) }
}

fn assistant(text: &str) -> ChatMessage {
    ChatMessage { sender: ChatMessageSender::Assistant, content: text.to_string() }
}

#[test]
fn new_history_has_no_messages() {
    let history = ChatHistory::new(someone(), "be kind".to_string());
    assert_eq!(history.user, someone());
    assert_eq!(history.system_prompt, "be kind");
    assert!(history.messages.is_empty());
}

#[test]
fn new_from_user_tags_the_user() {
    let message = ChatMessage::new_from_user("hello".to_string());
    assert_eq!(message.sender, ChatMessageSender::User);
    assert_eq!(message.content, "hello");
}

#[test]
fn push_message_appends_at_the_tail() {
    let mut history = ChatHistory::new(someone(), "be kind".to_string());
    history.push_message(ChatMessage::new_from_user("one".to_string()));
    history.push_message(assistant("two"));
    history.push_message(ChatMessage::new_from_user("one".to_string()));
    assert_eq!(
        history.messages,
        vec![
            ChatMessage::new_from_user("one".to_string()),
            assistant("two"),
            ChatMessage::new_from_user("one".to_string()),
        ]
    );
    assert_eq!(history.user, someone());
    assert_eq!(history.system_prompt, "be kind");
}

#[test]
fn clone_keeps_every_field() {
    let mut history = ChatHistory::new(someone(), "be kind".to_string());
    history.push_message(ChatMessage::new_from_user("one".to_string()));
    history.push_message(assistant("two"));
    assert_eq!(history.clone(), history);
}

#[test]
fn exactly_at_the_threshold_is_not_too_long() {
    assert_eq!(MAX_CONTENT_LEN, 10000);
    let mut history = ChatHistory::new(someone(), "be kind".to_string());
    history.push_message(ChatMessage::new_from_user("a".repeat(4000)));
    history.push_message(assistant(&"b".repeat(6000)));
    assert!(!history.is_too_long());
}

#[test]
fn one_over_the_threshold_is_too_long() {
    let mut history = ChatHistory::new(someone(), "be kind".to_string());
    history.push_message(ChatMessage::new_from_user("a".repeat(4000)));
    history.push_message(assistant(&"b".repeat(6001)));
    assert!(history.is_too_long());
}

#[test]
fn an_empty_history_is_not_too_long() {
    let history = ChatHistory::new(someone(), "p".repeat(20000));
    assert!(!history.is_too_long());
}

#[test]
fn content_is_measured_in_bytes() {
    // 'é' takes two bytes: 5000 of them fill the threshold, one more 'a' passes it.
    let mut history = ChatHistory::new(someone(), "be kind".to_string());
    history.push_message(ChatMessage::new_from_user("é".repeat(5000)));
    assert!(!history.is_too_long());
    history.push_message(assistant("a"));
    assert!(history.is_too_long());
}

#[test]
fn a_single_huge_message_is_too_long() {
    let mut history = ChatHistory::new(someone(), "be kind".to_string());
    history.push_message(assistant(&"x".repeat(10001)));
    history.push_message(assistant(""));
    assert!(history.is_too_long());
}
