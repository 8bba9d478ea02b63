//! One reply cycle as a state machine. The machine does no work of its own:
//! it is told what a collaborator answered and says what is to be asked
//! next. Whoever runs it makes the calls, on whatever kind of thread or
//! task, and may signal liveness for as long as the model is thinking.

use vstd::prelude::*;

use crate::domain::chat::{ChatHistory, ChatHistoryView, ChatMessage, ChatMessageView};
use crate::domain::user::{User, UserView};
use crate::outbound::chat_client::{DeliveryFault, LivenessSignalFault};
use crate::outbound::llm_client::LlmFault;
use crate::outbound::prompts::PromptFault;
use crate::outbound::repo::StorageFault;

verus! {

/// How long to wait between two liveness signals, in milliseconds. A chat
/// service shows a typing cue for a few seconds; this keeps it alive.
pub const LIVENESS_INTERVAL_MS: u64 = 4500;

/// Why a reply cycle ended without a reply on record.
#[derive(Clone, Copy, Debug, PartialEq, Eq, Structural)]
pub enum ReplyError {
    /// The repository failed to load or to store the history.
    StorageFault,
    /// A new conversation got no system prompt.
    PromptFault,
    /// The model could not be reached.
    ModelTransportFault,
    /// The model's backend reported an error.
    ModelBackendFault,
    /// The model answered without text.
    ModelEmptyResponse,
    /// The reply could not be delivered.
    DeliveryFault,
}

/// The error that ends a cycle whose model call failed with `fault`.
pub open spec fn model_error(fault: LlmFault) -> ReplyError {
    match fault {
        LlmFault::Transport => ReplyError::ModelTransportFault,
        LlmFault::Backend => ReplyError::ModelBackendFault,
        LlmFault::EmptyResponse => ReplyError::ModelEmptyResponse,
    }
}

/// The mathematical value of a [`Stage`].
pub enum StageView {
    Loading { user: UserView, inbound: ChatMessageView },
    Prompting { user: UserView, inbound: ChatMessageView },
    Generating { history: ChatHistoryView },
    Delivering { history: ChatHistoryView, response: ChatMessageView },
    Trimming,
    Persisting,
    Finished { outcome: Result<(), ReplyError> },
}

/// What a reply cycle is waiting for.
#[derive(Debug, PartialEq, Eq)]
pub enum Stage {
    /// For the repository to look the conversation up.
    Loading { user: User, inbound: ChatMessage },
    /// For a system prompt: the conversation is new.
    Prompting { user: User, inbound: ChatMessage },
    /// For the model to answer `history`, which ends with the inbound
    /// message.
    Generating { history: ChatHistory },
    /// For the chat service to deliver `response`.
    Delivering { history: ChatHistory, response: ChatMessage },
    /// For the trimming policy to cut the history down.
    Trimming,
    /// For the repository to store the history.
    Persisting,
    /// For nothing: the cycle is over.
    Finished { outcome: Result<(), ReplyError> },
}

impl View for Stage {
    type V = StageView;

    open spec fn view(&self) -> StageView {
        match *self {
            Stage::Loading { user, inbound } => StageView::Loading {
                user: user@,
                inbound: inbound@,
            },
            Stage::Prompting { user, inbound } => StageView::Prompting {
                user: user@,
                inbound: inbound@,
            },
            Stage::Generating { history } => StageView::Generating { history: history@ },
            Stage::Delivering { history, response } => StageView::Delivering {
                history: history@,
                response: response@,
            },
            Stage::Trimming => StageView::Trimming,
            Stage::Persisting => StageView::Persisting,
            Stage::Finished { outcome } => StageView::Finished { outcome },
        }
    }
}

/// The mathematical value of a [`ReplyCycle`].
pub struct ReplyCycleView {
    pub chat_id: i64,
    pub stage: StageView,
}

/// A reply cycle under way: the conversation it is about and what it is
/// waiting for.
#[derive(Debug, PartialEq, Eq)]
pub struct ReplyCycle {
    pub chat_id: i64,
    pub stage: Stage,
}

impl View for ReplyCycle {
    type V = ReplyCycleView;

    open spec fn view(&self) -> ReplyCycleView {
        ReplyCycleView { chat_id: self.chat_id, stage: self.stage@ }
    }
}

/// The mathematical value of a [`ReplyEvent`].
pub enum ReplyEventView {
    Loaded(Result<Option<ChatHistoryView>, StorageFault>),
    PromptRendered(Result<Seq<char>, PromptFault>),
    LivenessDue,
    LivenessSignalled(Result<(), LivenessSignalFault>),
    ModelAnswered(Result<ChatMessageView, LlmFault>),
    Delivered(Result<(), DeliveryFault>),
    Trimmed(ChatHistoryView),
    Saved(Result<(), StorageFault>),
}

/// Something that happened outside and that a cycle is told of.
#[derive(Debug, PartialEq, Eq)]
pub enum ReplyEvent {
    /// The repository answered the lookup.
    Loaded(Result<Option<ChatHistory>, StorageFault>),
    /// The prompt source answered.
    PromptRendered(Result<String, PromptFault>),
    /// It is time for a liveness signal.
    LivenessDue,
    /// The chat service answered a liveness signal.
    LivenessSignalled(Result<(), LivenessSignalFault>),
    /// The model answered.
    ModelAnswered(Result<ChatMessage, LlmFault>),
    /// The chat service answered the delivery of the reply.
    Delivered(Result<(), DeliveryFault>),
    /// The trimming policy gave the history back.
    Trimmed(ChatHistory),
    /// The repository answered the request to store the history.
    Saved(Result<(), StorageFault>),
}

impl View for ReplyEvent {
    type V = ReplyEventView;

    open spec fn view(&self) -> ReplyEventView {
        match *self {
            ReplyEvent::Loaded(Ok(Some(history))) => ReplyEventView::Loaded(Ok(Some(history@))),
            ReplyEvent::Loaded(Ok(None)) => ReplyEventView::Loaded(Ok(None)),
            ReplyEvent::Loaded(Err(fault)) => ReplyEventView::Loaded(Err(fault)),
            ReplyEvent::PromptRendered(Ok(text)) => ReplyEventView::PromptRendered(Ok(text@)),
            ReplyEvent::PromptRendered(Err(fault)) => ReplyEventView::PromptRendered(Err(fault)),
            ReplyEvent::LivenessDue => ReplyEventView::LivenessDue,
            ReplyEvent::LivenessSignalled(answer) => ReplyEventView::LivenessSignalled(answer),
            ReplyEvent::ModelAnswered(Ok(message)) => ReplyEventView::ModelAnswered(Ok(message@)),
            ReplyEvent::ModelAnswered(Err(fault)) => ReplyEventView::ModelAnswered(Err(fault)),
            ReplyEvent::Delivered(answer) => ReplyEventView::Delivered(answer),
            ReplyEvent::Trimmed(history) => ReplyEventView::Trimmed(history@),
            ReplyEvent::Saved(answer) => ReplyEventView::Saved(answer),
        }
    }
}

/// The mathematical value of a [`ReplyAction`].
pub enum ReplyActionView {
    Find { chat_id: i64 },
    RenderPrompt { user: UserView },
    Generate { history: ChatHistoryView },
    SignalLiveness { chat_id: i64 },
    Send { chat_id: i64, message: ChatMessageView },
    Trim { history: ChatHistoryView },
    Save { chat_id: i64, history: ChatHistoryView },
    Wait,
    Finish { outcome: Result<(), ReplyError> },
}

/// What a cycle asks for next.
#[derive(Debug, PartialEq, Eq)]
pub enum ReplyAction {
    /// Look the conversation up in the repository.
    Find { chat_id: i64 },
    /// Render a system prompt for `user`.
    RenderPrompt { user: User },
    /// Ask the model to answer `history`. While it has not answered, a
    /// liveness signal is due at once and then every
    /// [`LIVENESS_INTERVAL_MS`]; once it has answered, none is due any more.
    Generate { history: ChatHistory },
    /// Tell the conversation that work is in progress.
    SignalLiveness { chat_id: i64 },
    /// Deliver `message` to the conversation.
    Send { chat_id: i64, message: ChatMessage },
    /// Hand `history` to the trimming policy.
    Trim { history: ChatHistory },
    /// Store `history` as the conversation's history.
    Save { chat_id: i64, history: ChatHistory },
    /// Nothing: go on waiting for what is outstanding.
    Wait,
    /// Nothing more: the cycle is over, with this outcome.
    Finish { outcome: Result<(), ReplyError> },
}

impl View for ReplyAction {
    type V = ReplyActionView;

    open spec fn view(&self) -> ReplyActionView {
        match *self {
            ReplyAction::Find { chat_id } => ReplyActionView::Find { chat_id },
            ReplyAction::RenderPrompt { user } => ReplyActionView::RenderPrompt { user: user@ },
            ReplyAction::Generate { history } => ReplyActionView::Generate { history: history@ },
            ReplyAction::SignalLiveness { chat_id } => ReplyActionView::SignalLiveness { chat_id },
            ReplyAction::Send { chat_id, message } => ReplyActionView::Send {
                chat_id,
                message: message@,
            },
            ReplyAction::Trim { history } => ReplyActionView::Trim { history: history@ },
            ReplyAction::Save { chat_id, history } => ReplyActionView::Save {
                chat_id,
                history: history@,
            },
            ReplyAction::Wait => ReplyActionView::Wait,
            ReplyAction::Finish { outcome } => ReplyActionView::Finish { outcome },
        }
    }
}

/// A cycle as it begins: it waits for the lookup of the conversation, and
/// the lookup is what it asks for.
pub open spec fn begin(chat_id: i64, user: UserView, inbound: ChatMessageView) -> (
    ReplyCycleView,
    ReplyActionView,
) {
    (
        ReplyCycleView { chat_id, stage: StageView::Loading { user, inbound } },
        ReplyActionView::Find { chat_id },
    )
}

/// The inbound message goes onto the history, and the model is asked to
/// answer the history.
pub open spec fn ask_model(chat_id: i64, history: ChatHistoryView, inbound: ChatMessageView) -> (
    ReplyCycleView,
    ReplyActionView,
) {
    let history = history.with_message(inbound);
    (
        ReplyCycleView { chat_id, stage: StageView::Generating { history } },
        ReplyActionView::Generate { history },
    )
}

/// The cycle ends with `outcome`.
pub open spec fn finish(chat_id: i64, outcome: Result<(), ReplyError>) -> (
    ReplyCycleView,
    ReplyActionView,
) {
    (
        ReplyCycleView { chat_id, stage: StageView::Finished { outcome } },
        ReplyActionView::Finish { outcome },
    )
}

/// The reply was delivered: it goes onto the history, and the history is
/// stored, by way of the trimming policy if it has grown too long.
pub open spec fn settle(chat_id: i64, history: ChatHistoryView, response: ChatMessageView) -> (
    ReplyCycleView,
    ReplyActionView,
) {
    let history = history.with_message(response);
    if history.too_long() {
        (ReplyCycleView { chat_id, stage: StageView::Trimming }, ReplyActionView::Trim { history })
    } else {
        (
            ReplyCycleView { chat_id, stage: StageView::Persisting },
            ReplyActionView::Save { chat_id, history },
        )
    }
}

/// The cycle after `event`, and what it asks for next.
///
/// Each stage waits for one answer and moves on when that answer comes: to
/// the next stage if all went well, to the end with an error if not. A
/// prompt that is empty is no prompt, and a message of the model without
/// text is an empty response. While the model is thinking, a
/// liveness signal is sent whenever one is due, and whether it got through
/// changes nothing. An event that the stage does not wait for changes
/// nothing either and asks for nothing.
pub open spec fn next(cycle: ReplyCycleView, event: ReplyEventView) -> (
    ReplyCycleView,
    ReplyActionView,
) {
    let chat_id = cycle.chat_id;
    match (cycle.stage, event) {
        (StageView::Loading { user, inbound }, ReplyEventView::Loaded(Ok(Some(history)))) => ask_model(
            chat_id,
            history,
            inbound,
        ),
        (StageView::Loading { user, inbound }, ReplyEventView::Loaded(Ok(None))) => (
            ReplyCycleView { chat_id, stage: StageView::Prompting { user, inbound } },
            ReplyActionView::RenderPrompt { user },
        ),
        (StageView::Loading { .. }, ReplyEventView::Loaded(Err(_))) => finish(
            chat_id,
            Err(ReplyError::StorageFault),
        ),
        (StageView::Prompting { user, inbound }, ReplyEventView::PromptRendered(Ok(text))) => if text.len()
            > 0 {
            ask_model(chat_id, ChatHistoryView::fresh(user, text), inbound)
        } else {
            finish(chat_id, Err(ReplyError::PromptFault))
        },
        (StageView::Prompting { .. }, ReplyEventView::PromptRendered(Err(_))) => finish(
            chat_id,
            Err(ReplyError::PromptFault),
        ),
        (StageView::Generating { .. }, ReplyEventView::LivenessDue) => (
            cycle,
            ReplyActionView::SignalLiveness { chat_id },
        ),
        (StageView::Generating { history }, ReplyEventView::ModelAnswered(Ok(response))) => if response.content.len()
            > 0 {
            (
                ReplyCycleView { chat_id, stage: StageView::Delivering { history, response } },
                ReplyActionView::Send { chat_id, message: response },
            )
        } else {
            finish(chat_id, Err(ReplyError::ModelEmptyResponse))
        },
        (StageView::Generating { .. }, ReplyEventView::ModelAnswered(Err(fault))) => finish(
            chat_id,
            Err(model_error(fault)),
        ),
        (StageView::Delivering { history, response }, ReplyEventView::Delivered(Ok(_))) => settle(
            chat_id,
            history,
            response,
        ),
        (StageView::Delivering { .. }, ReplyEventView::Delivered(Err(_))) => finish(
            chat_id,
            Err(ReplyError::DeliveryFault),
        ),
        (StageView::Trimming, ReplyEventView::Trimmed(history)) => (
            ReplyCycleView { chat_id, stage: StageView::Persisting },
            ReplyActionView::Save { chat_id, history },
        ),
        (StageView::Persisting, ReplyEventView::Saved(Ok(_))) => finish(chat_id, Ok(())),
        (StageView::Persisting, ReplyEventView::Saved(Err(_))) => finish(
            chat_id,
            Err(ReplyError::StorageFault),
        ),
        _ => (cycle, ReplyActionView::Wait),
    }
}

impl ReplyCycle {
    /// Begins a cycle for the message `inbound` that `user` sent to
    /// conversation `chat_id`.
    pub fn start(chat_id: i64, user: User, inbound: ChatMessage) -> (begun: (ReplyCycle, ReplyAction))
        ensures
            (begun.0@, begun.1@) == begin(chat_id, user@, inbound@),
    {
        (ReplyCycle { chat_id, stage: Stage::Loading { user, inbound } }, ReplyAction::Find { chat_id })
    }

    /// Whether the cycle is over, and how it ended.
    pub fn outcome(&self) -> (outcome: Option<Result<(), ReplyError>>)
        ensures
            outcome == match self@.stage {
                StageView::Finished { outcome } => Some(outcome),
                _ => None,
            },
    {
        match &self.stage {
            Stage::Finished { outcome } => Some(*outcome),
            _ => None,
        }
    }

    /// Tells the cycle of `event`. Gives the cycle as it stands afterwards
    /// and what it asks for next.
    pub fn step(self, event: ReplyEvent) -> (stepped: (ReplyCycle, ReplyAction))
        ensures
            (stepped.0@, stepped.1@) == next(self@, event@),
    {
        let chat_id = self.chat_id;
        match (self.stage, event) {
            (Stage::Loading { user, inbound }, ReplyEvent::Loaded(Ok(Some(history)))) => {
                Self::ask_model(chat_id, history, inbound)
            },
            (Stage::Loading { user, inbound }, ReplyEvent::Loaded(Ok(None))) => {
                let action = ReplyAction::RenderPrompt { user: user.clone() };
                (ReplyCycle { chat_id, stage: Stage::Prompting { user, inbound } }, action)
            },
            (Stage::Loading { .. }, ReplyEvent::Loaded(Err(_))) => {
                Self::finish(chat_id, Err(ReplyError::StorageFault))
            },
            (Stage::Prompting { user, inbound }, ReplyEvent::PromptRendered(Ok(text))) => {
                if text.as_str().is_empty() {
                    Self::finish(chat_id, Err(ReplyError::PromptFault))
                } else {
                    Self::ask_model(chat_id, ChatHistory::new(user, text), inbound)
                }
            },
            (Stage::Prompting { .. }, ReplyEvent::PromptRendered(Err(_))) => {
                Self::finish(chat_id, Err(ReplyError::PromptFault))
            },
            (Stage::Generating { history }, ReplyEvent::LivenessDue) => {
                (
                    ReplyCycle { chat_id, stage: Stage::Generating { history } },
                    ReplyAction::SignalLiveness { chat_id },
                )
            },
            (Stage::Generating { history }, ReplyEvent::ModelAnswered(Ok(response))) => {
                if response.content.as_str().is_empty() {
                    Self::finish(chat_id, Err(ReplyError::ModelEmptyResponse))
                } else {
                    let action = ReplyAction::Send { chat_id, message: response.clone() };
                    (ReplyCycle { chat_id, stage: Stage::Delivering { history, response } }, action)
                }
            },
            (Stage::Generating { .. }, ReplyEvent::ModelAnswered(Err(fault))) => {
                let error = match fault {
                    LlmFault::Transport => ReplyError::ModelTransportFault,
                    LlmFault::Backend => ReplyError::ModelBackendFault,
                    LlmFault::EmptyResponse => ReplyError::ModelEmptyResponse,
                };
                Self::finish(chat_id, Err(error))
            },
            (Stage::Delivering { history, response }, ReplyEvent::Delivered(Ok(_))) => {
                let mut history = history;
                history.push_message(response);
                if history.is_too_long() {
                    (ReplyCycle { chat_id, stage: Stage::Trimming }, ReplyAction::Trim { history })
                } else {
                    (
                        ReplyCycle { chat_id, stage: Stage::Persisting },
                        ReplyAction::Save { chat_id, history },
                    )
                }
            },
            (Stage::Delivering { .. }, ReplyEvent::Delivered(Err(_))) => {
                Self::finish(chat_id, Err(ReplyError::DeliveryFault))
            },
            (Stage::Trimming, ReplyEvent::Trimmed(history)) => {
                (
                    ReplyCycle { chat_id, stage: Stage::Persisting },
                    ReplyAction::Save { chat_id, history },
                )
            },
            (Stage::Persisting, ReplyEvent::Saved(Ok(_))) => Self::finish(chat_id, Ok(())),
            (Stage::Persisting, ReplyEvent::Saved(Err(_))) => {
                Self::finish(chat_id, Err(ReplyError::StorageFault))
            },
            (stage, _) => (ReplyCycle { chat_id, stage }, ReplyAction::Wait),
        }
    }

    fn ask_model(chat_id: i64, history: ChatHistory, inbound: ChatMessage) -> (asked: (
        ReplyCycle,
        ReplyAction,
    ))
        ensures
            (asked.0@, asked.1@) == ask_model(chat_id, history@, inbound@),
    {
        let mut history = history;
        history.push_message(inbound);
        let action = ReplyAction::Generate { history: history.clone() };
        (ReplyCycle { chat_id, stage: Stage::Generating { history } }, action)
    }

    fn finish(chat_id: i64, outcome: Result<(), ReplyError>) -> (finished: (ReplyCycle, ReplyAction))
        ensures
            (finished.0@, finished.1@) == finish(chat_id, outcome),
    {
        (ReplyCycle { chat_id, stage: Stage::Finished { outcome } }, ReplyAction::Finish { outcome })
    }
}

} // verus!
