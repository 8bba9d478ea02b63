use std::cell::RefCell;
use std::rc::Rc;

use chat_relay::domain::chat::{ChatHistory, ChatMessage, ChatMessageSender};
use chat_relay::domain::user::User;
use chat_relay::infra::mem_repo::InMemoryChatRepository;
use chat_relay::infra::reset_trimming::ChatResettingService;
use chat_relay::outbound::chat_client::{ChatClient, DeliveryFault, LivenessSignalFault};
use chat_relay::outbound::llm_client::{LlmClient, LlmFault};
use chat_relay::outbound::prompts::{PromptFault, SystemPromptSource};
use chat_relay::outbound::repo::ChatRepository;
use chat_relay::usecase::chat::{ChatUseCase, ChatUseCaseImpl};
use chat_relay::usecase::cycle::ReplyError;

/// What the collaborators were asked, in order.
type Log = Rc<RefCell<Vec<String>>>;

struct Prompts {
    answer: Result<String, PromptFault>,
    log: Log,
}

impl SystemPromptSource for Prompts {
    fn render(&self, user: &User) -> Result<String, PromptFault> {
        self.log.borrow_mut().push(format!("render {}", user.id));
        self.answer.clone()
    }
}

struct Model {
    answer: Result<String, LlmFault>,
    seen: Rc<RefCell<Vec<ChatHistory>>>,
    log: Log,
}

impl LlmClient for Model {
    fn get_response(&self, history: &ChatHistory) -> Result<ChatMessage, LlmFault> {
        self.log.borrow_mut().push("generate".to_string());
        self.seen.borrow_mut().push(history.clone());
        match &self.answer {
            Ok(text) => Ok(ChatMessage { sender: ChatMessageSender::Assistant, content: text.clone() }),
            Err(fault) => Err(*fault),
        }
    }
}

struct Chat {
    send_answer: Result<(), DeliveryFault>,
    typing_answer: Result<(), LivenessSignalFault>,
    sent: Rc<RefCell<Vec<(i64, ChatMessage)>>>,
    log: Log,
}

impl ChatClient for Chat {
    fn send(&self, chat_id: i64, message: &ChatMessage) -> Result<(), DeliveryFault> {
        self.log.borrow_mut().push(format!("send {}", chat_id));
        self.sent.borrow_mut().push((chat_id, message.clone()));
        self.send_answer
    }

    fn typing(&self, chat_id: i64) -> Result<(), LivenessSignalFault> {
        self.log.borrow_mut().push(format!("typing {}", chat_id));
        self.typing_answer
    }
}

struct Bench {
    use_case: ChatUseCaseImpl<InMemoryChatRepository, Model, Chat, ChatResettingService<Prompts>, Prompts>,
    sent: Rc<RefCell<Vec<(i64, ChatMessage)>>>,
    seen: Rc<RefCell<Vec<ChatHistory>>>,
    log: Log,
}

fn bench(
    prompt: Result<String, PromptFault>,
    model: Result<String, LlmFault>,
    send_answer: Result<(), DeliveryFault>,
    typing_answer: Result<(), LivenessSignalFault>,
) -> Bench {
    let log: Log = Rc::new(RefCell::new(Vec::new()));
    let sent = Rc::new(RefCell::new(Vec::new()));
    let seen = Rc::new(RefCell::new(Vec::new()));
    let use_case = ChatUseCaseImpl::new(
        InMemoryChatRepository::new(),
        Model { answer: model, seen: seen.clone(), log: log.clone() },
        Chat { send_answer, typing_answer, sent: sent.clone(), log: log.clone() },
        ChatResettingService::new(Prompts { answer: Ok("fresh prompt".to_string()), log: log.clone() }),
        Prompts { answer: prompt, log: log.clone() },
    );
    Bench { use_case, sent, seen, log }
}

fn smooth(model: &str) -> Bench {
    bench(Ok("system prompt".to_string()), Ok(model.to_string()), Ok(()), Ok(()))
}

fn ada() -> User {
    User { id: "7".to_string(), name: "Ada".to_string(), preferred_language: Some("English".to_string()) }
}

fn from_user(text: &str) -> ChatMessage {
    ChatMessage::new_from_user(text.to_string())
}

fn from_assistant(text: &str) -> ChatMessage {
    ChatMessage { sender: ChatMessageSender::Assistant, content: text.to_string() }
}

#[test]
fn happy_path_in_an_empty_repository() {
    let mut bench = smooth("hello Ada");
    assert_eq!(bench.use_case.reply(5, ada(), from_user("hi")), Ok(()));
    assert_eq!(bench.sent.borrow().clone(), vec![(5, from_assistant("hello Ada"))]);
    let stored = bench.use_case.repo.find(5).unwrap().unwrap();
    assert_eq!(stored.user, ada());
    assert_eq!(stored.system_prompt, "system prompt");
    assert_eq!(stored.messages, vec![from_user("hi"), from_assistant("hello Ada")]);
    assert_eq!(bench.use_case.repo.find(6), Ok(None));
}

#[test]
fn the_cycle_calls_its_collaborators_in_order() {
    let mut bench = smooth("hello Ada");
    assert_eq!(bench.use_case.reply(5, ada(), from_user("hi")), Ok(()));
    assert_eq!(
        bench.log.borrow().clone(),
        vec!["render 7".to_string(), "typing 5".to_string(), "generate".to_string(), "send 5".to_string()]
    );
}

#[test]
fn the_model_sees_the_prompt_and_the_inbound_message() {
    let mut bench = smooth("hello Ada");
    assert_eq!(bench.use_case.reply(5, ada(), from_user("hi")), Ok(()));
    let mut expected = ChatHistory::new(ada(), "system prompt".to_string());
    expected.push_message(from_user("hi"));
    assert_eq!(bench.seen.borrow().clone(), vec![expected]);
}

#[test]
fn a_known_conversation_grows_by_two_messages() {
    let mut bench = smooth("second answer");
    let mut history = ChatHistory::new(ada(), "older prompt".to_string());
    history.push_message(from_user("first"));
    history.push_message(from_assistant("first answer"));
    assert_eq!(bench.use_case.repo.save(5, history), Ok(()));
    assert_eq!(bench.use_case.reply(5, ada(), from_user("second")), Ok(()));
    let stored = bench.use_case.repo.find(5).unwrap().unwrap();
    assert_eq!(stored.system_prompt, "older prompt");
    assert_eq!(
        stored.messages,
        vec![
            from_user("first"),
            from_assistant("first answer"),
            from_user("second"),
            from_assistant("second answer"),
        ]
    );
    assert_eq!(
        bench.log.borrow().clone(),
        vec!["typing 5".to_string(), "generate".to_string(), "send 5".to_string()]
    );
}

#[test]
fn a_failed_delivery_leaves_a_new_conversation_absent() {
    let mut bench = bench(Ok("system prompt".to_string()), Ok("lost".to_string()), Err(DeliveryFault), Ok(()));
    assert_eq!(bench.use_case.reply(5, ada(), from_user("hi")), Err(ReplyError::DeliveryFault));
    assert_eq!(bench.use_case.repo.find(5), Ok(None));
    assert_eq!(bench.sent.borrow().len(), 1);
}

#[test]
fn a_failed_delivery_leaves_a_known_conversation_unchanged() {
    let mut bench = bench(Ok("system prompt".to_string()), Ok("lost".to_string()), Err(DeliveryFault), Ok(()));
    let mut history = ChatHistory::new(ada(), "older prompt".to_string());
    history.push_message(from_user("first"));
    history.push_message(from_assistant("first answer"));
    assert_eq!(bench.use_case.repo.save(5, history.clone()), Ok(()));
    assert_eq!(bench.use_case.reply(5, ada(), from_user("second")), Err(ReplyError::DeliveryFault));
    assert_eq!(bench.use_case.repo.find(5), Ok(Some(history)));
}

#[test]
fn a_history_that_grows_too_long_is_reset() {
    let mut bench = smooth(&"r".repeat(1500));
    let mut history = ChatHistory::new(ada(), "older prompt".to_string());
    for turn in 0..8 {
        if turn % 2 == 0 {
            history.push_message(from_user(&"u".repeat(1000)));
        } else {
            history.push_message(from_assistant(&"a".repeat(1000)));
        }
    }
    assert!(!history.is_too_long());
    assert_eq!(bench.use_case.repo.save(5, history), Ok(()));
    assert_eq!(bench.use_case.reply(5, ada(), from_user(&"u".repeat(1000))), Ok(()));
    assert_eq!(bench.seen.borrow()[0].messages.len(), 9);
    assert_eq!(bench.sent.borrow().clone(), vec![(5, from_assistant(&"r".repeat(1500)))]);
    let stored = bench.use_case.repo.find(5).unwrap().unwrap();
    assert_eq!(stored, ChatHistory::new(ada(), "fresh prompt".to_string()));
    assert!(stored.messages.is_empty());
    assert!(!stored.system_prompt.is_empty());
    assert_eq!(stored.user, ada());
    assert_eq!(bench.log.borrow().iter().filter(|line| line.starts_with("send")).count(), 1);
    assert_eq!(
        bench.log.borrow().clone(),
        vec!["typing 5".to_string(), "generate".to_string(), "send 5".to_string(), "render 7".to_string()]
    );
}

#[test]
fn a_history_exactly_at_the_threshold_is_kept() {
    let mut bench = smooth(&"r".repeat(1000));
    let mut history = ChatHistory::new(ada(), "older prompt".to_string());
    for _ in 0..8 {
        history.push_message(from_user(&"u".repeat(1000)));
    }
    assert_eq!(bench.use_case.repo.save(5, history), Ok(()));
    assert_eq!(bench.use_case.reply(5, ada(), from_user(&"u".repeat(1000))), Ok(()));
    let stored = bench.use_case.repo.find(5).unwrap().unwrap();
    assert_eq!(stored.messages.len(), 10);
    assert_eq!(stored.system_prompt, "older prompt");
}

#[test]
fn a_missed_liveness_signal_does_not_stop_the_cycle() {
    let mut bench = bench(Ok("system prompt".to_string()), Ok("hello".to_string()), Ok(()), Err(LivenessSignalFault));
    assert_eq!(bench.use_case.reply(5, ada(), from_user("hi")), Ok(()));
    let stored = bench.use_case.repo.find(5).unwrap().unwrap();
    assert_eq!(stored.messages, vec![from_user("hi"), from_assistant("hello")]);
    assert_eq!(bench.log.borrow().iter().filter(|line| line.starts_with("typing")).count(), 1);
}

#[test]
fn model_faults_end_the_cycle_before_anything_is_sent_or_stored() {
    let cases = vec![
        (LlmFault::Transport, ReplyError::ModelTransportFault),
        (LlmFault::Backend, ReplyError::ModelBackendFault),
        (LlmFault::EmptyResponse, ReplyError::ModelEmptyResponse),
    ];
    for (fault, error) in cases {
        let mut bench = bench(Ok("system prompt".to_string()), Err(fault), Ok(()), Ok(()));
        assert_eq!(bench.use_case.reply(5, ada(), from_user("hi")), Err(error));
        assert!(bench.sent.borrow().is_empty());
        assert_eq!(bench.use_case.repo.find(5), Ok(None));
    }
}

#[test]
fn a_new_conversation_without_a_prompt_is_a_fault() {
    let mut failing = bench(Err(PromptFault), Ok("hello".to_string()), Ok(()), Ok(()));
    assert_eq!(failing.use_case.reply(5, ada(), from_user("hi")), Err(ReplyError::PromptFault));
    assert_eq!(failing.log.borrow().clone(), vec!["render 7".to_string()]);
    assert_eq!(failing.use_case.repo.find(5), Ok(None));

    let mut blank = bench(Ok(String::new()), Ok("hello".to_string()), Ok(()), Ok(()));
    assert_eq!(blank.use_case.reply(5, ada(), from_user("hi")), Err(ReplyError::PromptFault));
    assert!(blank.sent.borrow().is_empty());
    assert_eq!(blank.use_case.repo.find(5), Ok(None));
}

#[test]
fn conversations_do_not_touch_each_other() {
    let mut bench = smooth("hello");
    assert_eq!(bench.use_case.reply(1, ada(), from_user("one")), Ok(()));
    assert_eq!(bench.use_case.reply(-2, ada(), from_user("two")), Ok(()));
    assert_eq!(
        bench.use_case.repo.find(1).unwrap().unwrap().messages,
        vec![from_user("one"), from_assistant("hello")]
    );
    assert_eq!(
        bench.use_case.repo.find(-2).unwrap().unwrap().messages,
        vec![from_user("two"), from_assistant("hello")]
    );
    assert_eq!(bench.sent.borrow().iter().map(|(id, _)| *id).collect::<Vec<i64>>(), vec![1, -2]);
}
