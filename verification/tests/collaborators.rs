use std::cell::RefCell;

use chat_relay::domain::chat::{ChatHistory, ChatMessage, ChatMessageSender};
use chat_relay::domain::user::User;
use chat_relay::infra::mem_repo::InMemoryChatRepository;
use chat_relay::infra::reset_trimming::{ChatResettingService, FALLBACK_SYSTEM_PROMPT};
use chat_relay::outbound::chat_client::{ChatClient, DeliveryFault, LivenessSignalFault};
use chat_relay::outbound::llm_client::{LlmClient, LlmFault};
use chat_relay::outbound::prompts::{PromptFault, SystemPromptSource};
use chat_relay::outbound::repo::ChatRepository;
use chat_relay::outbound::trimming::ChatTrimmingService;

struct FixedPrompt(Result<String, PromptFault>);

impl SystemPromptSource for FixedPrompt {
    fn render(&self, _user: &User) -> Result<String, PromptFault> {
        self.0.clone()
    }
}

struct Echo;

impl LlmClient for Echo {
    fn get_response(&self, history: &ChatHistory) -> Result<ChatMessage, LlmFault> {
        match history.messages.last() {
            Some(last) => Ok(ChatMessage { sender: ChatMessageSender::Assistant, content: last.content.clone() }),
            None => Err(LlmFault::EmptyResponse),
        }
    }
}

struct Outbox(RefCell<Vec<(i64, String)>>);

impl ChatClient for Outbox {
    fn send(&self, chat_id: i64, message: &ChatMessage) -> Result<(), DeliveryFault> {
        self.0.borrow_mut().push((chat_id, message.content.clone()));
        Ok(())
    }

    fn typing(&self, _chat_id: i64) -> Result<(), LivenessSignalFault> {
        Err(LivenessSignalFault)
    }
}

fn ada() -> User {
    User { id: "7".to_string(), name: "Ada".to_string(), preferred_language: None }
}

#[test]
fn find_on_an_id_never_saved_is_absent() {
    let repo = InMemoryChatRepository::new();
    assert_eq!(repo.find(1), Ok(None));
    assert_eq!(repo.find(-1), Ok(None));
}

#[test]
fn save_then_find_returns_what_was_saved() {
    let mut repo = InMemoryChatRepository::new();
    let mut history = ChatHistory::new(ada(), "prompt".to_string());
    history.push_message(ChatMessage::new_from_user("hi".to_string()));
    assert_eq!(repo.save(42, history.clone()), Ok(()));
    assert_eq!(repo.find(42), Ok(Some(history)));
    assert_eq!(repo.find(43), Ok(None));
}

#[test]
fn save_replaces_the_prior_value() {
    let mut repo = InMemoryChatRepository::new();
    let first = ChatHistory::new(ada(), "first".to_string());
    let second = ChatHistory::new(ada(), "second".to_string());
    assert_eq!(repo.save(42, first.clone()), Ok(()));
    assert_eq!(repo.save(7, first.clone()), Ok(()));
    assert_eq!(repo.save(42, second.clone()), Ok(()));
    assert_eq!(repo.save(42, second.clone()), Ok(()));
    assert_eq!(repo.find(42), Ok(Some(second)));
    assert_eq!(repo.find(7), Ok(Some(first)));
}

#[test]
fn reset_drops_the_messages_and_takes_the_fresh_prompt() {
    let service = ChatResettingService::new(FixedPrompt(Ok("fresh".to_string())));
    let mut history = ChatHistory::new(ada(), "stale".to_string());
    history.push_message(ChatMessage::new_from_user("x".repeat(20000)));
    let trimmed = service.trim(history);
    assert_eq!(trimmed, ChatHistory::new(ada(), "fresh".to_string()));
    assert!(!trimmed.is_too_long());
}

#[test]
fn reset_keeps_the_old_prompt_when_none_can_be_rendered() {
    let mut history = ChatHistory::new(ada(), "stale".to_string());
    history.push_message(ChatMessage::new_from_user("hello".to_string()));
    let failing = ChatResettingService::new(FixedPrompt(Err(PromptFault)));
    assert_eq!(failing.trim(history.clone()), ChatHistory::new(ada(), "stale".to_string()));
    let blank = ChatResettingService::new(FixedPrompt(Ok(String::new())));
    assert_eq!(blank.trim(history), ChatHistory::new(ada(), "stale".to_string()));
}

#[test]
fn reset_never_leaves_a_history_without_a_prompt() {
    assert_eq!(FALLBACK_SYSTEM_PROMPT, "You are a helpful assistant.");
    let mut history = ChatHistory::new(ada(), String::new());
    history.push_message(ChatMessage::new_from_user("hello".to_string()));
    let failing = ChatResettingService::new(FixedPrompt(Err(PromptFault)));
    assert_eq!(
        failing.trim(history.clone()),
        ChatHistory::new(ada(), "You are a helpful assistant.".to_string())
    );
    let blank = ChatResettingService::new(FixedPrompt(Ok(String::new())));
    assert_eq!(
        blank.trim(history.clone()),
        ChatHistory::new(ada(), "You are a helpful assistant.".to_string())
    );
    let fresh = ChatResettingService::new(FixedPrompt(Ok("fresh".to_string())));
    assert_eq!(fresh.trim(history), ChatHistory::new(ada(), "fresh".to_string()));
}

#[test]
fn reset_takes_the_rendered_result_as_it_is_given() {
    let history = ChatHistory::new(ada(), "stale".to_string());
    assert_eq!(
        ChatResettingService::<FixedPrompt>::reset(history.clone(), Ok("fresh".to_string())),
        ChatHistory::new(ada(), "fresh".to_string())
    );
    assert_eq!(
        ChatResettingService::<FixedPrompt>::reset(history, Err(PromptFault)),
        ChatHistory::new(ada(), "stale".to_string())
    );
}

#[test]
fn collaborators_can_be_written_outside() {
    let outbox = Outbox(RefCell::new(Vec::new()));
    let mut history = ChatHistory::new(ada(), "prompt".to_string());
    history.push_message(ChatMessage::new_from_user("ping".to_string()));
    let answer = Echo.get_response(&history).unwrap();
    assert_eq!(outbox.send(5, &answer), Ok(()));
    assert_eq!(outbox.typing(5), Err(LivenessSignalFault));
    assert_eq!(outbox.0.borrow().clone(), vec![(5, "ping".to_string())]);
}
