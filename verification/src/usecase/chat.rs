//! The reply use case run to its end in one call, for collaborators that
//! answer on the spot.

use vstd::pervasive::unreached;
use vstd::prelude::*;

use crate::domain::chat::{
    ChatHistory, ChatHistoryView, ChatMessage, ChatMessageSender, ChatMessageView,
};
use crate::domain::user::{User, UserView};
use crate::outbound::chat_client::{ChatClient, DeliveryFault, LivenessSignalFault};
use crate::outbound::llm_client::{LlmClient, LlmFault};
use crate::outbound::prompts::{PromptFault, SystemPromptSource};
use crate::outbound::repo::{stored, ChatRepository, StorageFault};
use crate::outbound::trimming::ChatTrimmingService;
use crate::usecase::cycle::{
    model_error, ReplyAction, ReplyActionView, ReplyCycle, ReplyCycleView, ReplyError, ReplyEvent,
    StageView,
};
use crate::usecase::laws::{grown, progress};

verus! {

/// Answering a message of a conversation.
pub trait ChatUseCase {
    /// Runs one reply cycle for the `message` that `user` sent to
    /// conversation `chat_id`.
    fn reply(&mut self, chat_id: i64, user: User, message: ChatMessage) -> Result<(), ReplyError>;
}

/// The reply use case over its five collaborators.
pub struct ChatUseCaseImpl<R, L, C, T, P> {
    pub repo: R,
    pub llm: L,
    pub chat_client: C,
    pub trimming_svc: T,
    pub prompts: P,
}

/// Whether `saved` is what a cycle may store for a conversation whose
/// history was `found` when `user` sent `inbound`, given the prompt that a
/// new conversation got and the model's `response`: the history, or a new
/// one under `prompt`, with `inbound` and `response` at its tail; or, if
/// that is too long, what the trimming policy made of it.
pub open spec fn settles_with(
    found: Option<ChatHistoryView>,
    user: UserView,
    inbound: ChatMessageView,
    prompt: Seq<char>,
    response: ChatMessageView,
    saved: ChatHistoryView,
) -> bool {
    let base = match found {
        Some(history) => history,
        None => ChatHistoryView::fresh(user, prompt),
    };
    let full = grown(base, inbound, response);
    &&& found is None ==> prompt.len() > 0
    &&& response.sender == ChatMessageSender::Assistant
    &&& response.content.len() > 0
    &&& if full.too_long() {
        &&& !saved.too_long()
        &&& saved.user == full.user
        &&& saved.well_formed()
    } else {
        saved == full
    }
}

/// Whether `saved` is what a cycle may store for a conversation whose
/// history was `found` when `user` sent `inbound`, for some prompt and some
/// response of the model.
pub open spec fn settles(
    found: Option<ChatHistoryView>,
    user: UserView,
    inbound: ChatMessageView,
    saved: ChatHistoryView,
) -> bool {
    exists|prompt: Seq<char>, response: ChatMessageView| #[trigger]
        settles_with(found, user, inbound, prompt, response, saved)
}

/// What a cycle stores is never too long, and it belongs to the user of the
/// history that was found or, in a new conversation, to the user who wrote.
/// It is valid whenever the history that was found was valid; in a new
/// conversation it always is.
pub proof fn law_stored_history_is_bounded(
    found: Option<ChatHistoryView>,
    user: UserView,
    inbound: ChatMessageView,
    saved: ChatHistoryView,
)
    requires
        settles(found, user, inbound, saved),
    ensures
        !saved.too_long(),
        saved.user == match found {
            Some(history) => history.user,
            None => user,
        },
        (found matches Some(history) ==> history.well_formed()) ==> saved.well_formed(),
{
    let (prompt, response) = choose|prompt: Seq<char>, response: ChatMessageView| #[trigger]
        settles_with(found, user, inbound, prompt, response, saved);
    assert(settles_with(found, user, inbound, prompt, response, saved));
}

/// What a finished cycle has done to the repository, which held `before`
/// and holds `after`: on success the conversation's history was replaced by
/// one that settles the cycle and nothing else changed; on an error nothing
/// changed at all.
pub open spec fn cycle_effect(
    outcome: Result<(), ReplyError>,
    before: Map<i64, ChatHistoryView>,
    after: Map<i64, ChatHistoryView>,
    chat_id: i64,
    user: UserView,
    inbound: ChatMessageView,
) -> bool {
    match outcome {
        Ok(_) => exists|saved: ChatHistoryView|
            #![trigger before.insert(chat_id, saved)]
            settles(stored(before, chat_id), user, inbound, saved) && after == before.insert(
                chat_id,
                saved,
            ),
        Err(_) => after == before,
    }
}

/// What the collaborators were handed and what they answered in one cycle,
/// call by call. A cycle that ends early leaves the later entries open.
pub struct ReplyTrace {
    /// The repository's answer to the lookup.
    pub found: Result<Option<ChatHistory>, StorageFault>,
    /// The user for whom a prompt was asked.
    pub whom: User,
    /// The prompt source's answer.
    pub rendered: Result<String, PromptFault>,
    /// The history that the model was asked to answer.
    pub asked: ChatHistory,
    /// The chat service's answer to the liveness signal.
    pub signalled: Result<(), LivenessSignalFault>,
    /// The model's answer.
    pub answer: Result<ChatMessage, LlmFault>,
    /// The message that was handed to the chat service.
    pub message: ChatMessage,
    /// The chat service's answer to the delivery.
    pub sent: Result<(), DeliveryFault>,
    /// The history that was handed to the trimming policy.
    pub grown: ChatHistory,
    /// The trimming policy's answer.
    pub trimmed: ChatHistory,
    /// The repository's answer to the request to store the history.
    pub stored: Result<(), StorageFault>,
}

impl ReplyTrace {
    /// Whether the prompt source answered with a prompt that can head a
    /// history: one that is not empty.
    pub open spec fn prompt_usable(self) -> bool {
        self.rendered matches Ok(text) && text@.len() > 0
    }

    /// Whether the cycle came as far as the delivery of the model's message
    /// and the delivery succeeded: from there on the history is on its way
    /// to the repository.
    pub open spec fn delivered(self) -> bool {
        &&& self.found matches Ok(found)
        &&& found is None ==> self.prompt_usable()
        &&& self.answer matches Ok(message)
        &&& message@.content.len() > 0
        &&& self.sent is Ok
    }

    /// The history that the cycle starts from: the one that was found or,
    /// in a new conversation, a fresh one of `user` under the rendered
    /// prompt.
    pub open spec fn base(self, user: UserView) -> ChatHistoryView {
        match self.found {
            Ok(Some(history)) => history@,
            _ => ChatHistoryView::fresh(user, self.rendered->Ok_0@),
        }
    }

    /// The history with the inbound message and the model's message at its
    /// tail.
    pub open spec fn full(self, user: UserView, inbound: ChatMessageView) -> ChatHistoryView {
        grown(self.base(user), inbound, self.answer->Ok_0@)
    }

    /// The history that goes to the repository: the full one or, if that is
    /// too long, what the trimming policy made of it.
    pub open spec fn settled(self, user: UserView, inbound: ChatMessageView) -> ChatHistoryView {
        if self.full(user, inbound).too_long() {
            self.trimmed@
        } else {
            self.full(user, inbound)
        }
    }
}

/// The cycle ended with `error` and left the repository as it was.
pub open spec fn ended(
    outcome: Result<(), ReplyError>,
    error: ReplyError,
    before: Map<i64, ChatHistoryView>,
    after: Map<i64, ChatHistoryView>,
) -> bool {
    outcome == Err::<(), ReplyError>(error) && after == before
}

/// The repository was asked for the history of the conversation and gave
/// the answer on record.
pub open spec fn asked_repository<R: ChatRepository, L, C, T, P>(
    use_case: ChatUseCaseImpl<R, L, C, T, P>,
    chat_id: i64,
    trace: ReplyTrace,
) -> bool {
    call_ensures(R::find, (&use_case.repo, chat_id), trace.found)
}

/// The prompt source was asked for a prompt for `user` and gave the answer
/// on record.
pub open spec fn asked_prompt<R, L, C, T, P: SystemPromptSource>(
    use_case: ChatUseCaseImpl<R, L, C, T, P>,
    user: UserView,
    trace: ReplyTrace,
) -> bool {
    &&& trace.whom@ == user
    &&& call_ensures(P::render, (&use_case.prompts, &trace.whom), trace.rendered)
}

/// The history with the inbound message at its tail went to the model, a
/// liveness signal for the conversation went out while it was thinking, and
/// both calls gave the answers on record.
pub open spec fn asked_model<R, L: LlmClient, C: ChatClient, T, P>(
    use_case: ChatUseCaseImpl<R, L, C, T, P>,
    chat_id: i64,
    user: UserView,
    inbound: ChatMessageView,
    trace: ReplyTrace,
) -> bool {
    &&& trace.asked@ == trace.base(user).with_message(inbound)
    &&& call_ensures(C::typing, (&use_case.chat_client, chat_id), trace.signalled)
    &&& call_ensures(L::get_response, (&use_case.llm, &trace.asked), trace.answer)
}

/// The model's message, and nothing else, went to the chat service for the
/// conversation, and the chat service gave the answer on record.
pub open spec fn asked_delivery<R, L, C: ChatClient, T, P>(
    use_case: ChatUseCaseImpl<R, L, C, T, P>,
    chat_id: i64,
    trace: ReplyTrace,
) -> bool {
    &&& trace.message@ == trace.answer->Ok_0@
    &&& call_ensures(C::send, (&use_case.chat_client, chat_id, &trace.message), trace.sent)
}

/// The full history went to the trimming policy, which gave the answer on
/// record.
pub open spec fn asked_trimming<R, L, C, T: ChatTrimmingService, P>(
    use_case: ChatUseCaseImpl<R, L, C, T, P>,
    user: UserView,
    inbound: ChatMessageView,
    trace: ReplyTrace,
) -> bool {
    &&& trace.grown@ == trace.full(user, inbound)
    &&& call_ensures(T::trim, (&use_case.trimming_svc, trace.grown), trace.trimmed)
}

/// Whether a cycle for `inbound`, which `user` sent to conversation
/// `chat_id`, went as `trace` records and so came to `outcome`, leaving the
/// repository with `after`.
///
/// The repository is asked for the history; a storage fault ends the cycle.
/// If there is no history, the prompt source is asked for a prompt for the
/// user; no prompt, or an empty one, ends the cycle with a prompt fault.
/// The history with the inbound message goes to the model, with a liveness
/// signal on the way whose fate changes nothing; a fault of the model ends
/// the cycle with the error that belongs to it, and so does a message
/// without text. The model's message goes to
/// the chat service; a delivery fault ends the cycle. Then the history, now
/// with the model's message too, goes to the trimming policy if it is too
/// long, and what comes of it is stored under the conversation's id; the
/// cycle succeeds if the repository stored it and ends with a storage fault
/// if not. Whenever the cycle ends with an error, the repository holds what
/// it held.
pub open spec fn follows<
    R: ChatRepository,
    L: LlmClient,
    C: ChatClient,
    T: ChatTrimmingService,
    P: SystemPromptSource,
>(
    use_case: ChatUseCaseImpl<R, L, C, T, P>,
    chat_id: i64,
    user: UserView,
    inbound: ChatMessageView,
    trace: ReplyTrace,
    outcome: Result<(), ReplyError>,
    after: Map<i64, ChatHistoryView>,
) -> bool {
    let before = use_case.repo.entries();
    &&& asked_repository(use_case, chat_id, trace)
    &&& match trace.found {
        Err(_) => ended(outcome, ReplyError::StorageFault, before, after),
        Ok(found) => {
            &&& found is None ==> asked_prompt(use_case, user, trace)
            &&& if found is None && !trace.prompt_usable() {
                ended(outcome, ReplyError::PromptFault, before, after)
            } else {
                &&& asked_model(use_case, chat_id, user, inbound, trace)
                &&& match trace.answer {
                    Err(fault) => ended(outcome, model_error(fault), before, after),
                    Ok(message) => if message@.content.len() == 0 {
                        ended(outcome, ReplyError::ModelEmptyResponse, before, after)
                    } else {
                        &&& asked_delivery(use_case, chat_id, trace)
                        &&& match trace.sent {
                            Err(_) => ended(outcome, ReplyError::DeliveryFault, before, after),
                            Ok(_) => {
                                &&& trace.full(user, inbound).too_long() ==> asked_trimming(
                                    use_case,
                                    user,
                                    inbound,
                                    trace,
                                )
                                &&& match trace.stored {
                                    Err(_) => ended(
                                        outcome,
                                        ReplyError::StorageFault,
                                        before,
                                        after,
                                    ),
                                    Ok(_) => outcome is Ok && after == before.insert(
                                        chat_id,
                                        trace.settled(user, inbound),
                                    ),
                                }
                            },
                        }
                    },
                }
            }
        },
    }
}

/// What is on record of a cycle that is under way, given what it asks for
/// next.
spec fn traced<
    R: ChatRepository,
    L: LlmClient,
    C: ChatClient,
    T: ChatTrimmingService,
    P: SystemPromptSource,
>(
    use_case: ChatUseCaseImpl<R, L, C, T, P>,
    chat_id: i64,
    user: UserView,
    inbound: ChatMessageView,
    trace: ReplyTrace,
    cycle: ReplyCycleView,
    action: ReplyActionView,
    now: Map<i64, ChatHistoryView>,
) -> bool {
    let loaded = asked_repository(use_case, chat_id, trace);
    let opened = {
        &&& loaded
        &&& trace.found is Ok
        &&& trace.found->Ok_0 is None ==> asked_prompt(use_case, user, trace)
            && trace.prompt_usable()
    };
    let answered = {
        &&& opened
        &&& asked_model(use_case, chat_id, user, inbound, trace)
        &&& trace.answer is Ok
        &&& trace.answer->Ok_0@.content.len() > 0
    };
    let delivered = {
        &&& answered
        &&& asked_delivery(use_case, chat_id, trace)
        &&& trace.sent is Ok
    };
    match action {
        ReplyActionView::Find { .. } => true,
        ReplyActionView::RenderPrompt { .. } => {
            &&& loaded
            &&& trace.found is Ok
            &&& trace.found->Ok_0 is None
        },
        ReplyActionView::Generate { history } => {
            &&& opened
            &&& history == trace.base(user).with_message(inbound)
        },
        ReplyActionView::Send { message, .. } => {
            &&& answered
            &&& message == trace.answer->Ok_0@
            &&& cycle.stage == StageView::Delivering { history: trace.asked@, response: message }
        },
        ReplyActionView::Trim { history } => {
            &&& delivered
            &&& history == trace.full(user, inbound)
            &&& history.too_long()
        },
        ReplyActionView::Save { history, .. } => {
            &&& delivered
            &&& trace.full(user, inbound).too_long() ==> asked_trimming(
                use_case,
                user,
                inbound,
                trace,
            )
            &&& history == trace.settled(user, inbound)
        },
        ReplyActionView::Finish { outcome } => {
            &&& !trace.delivered()
            &&& follows(use_case, chat_id, user, inbound, trace, outcome, now)
        },
        ReplyActionView::SignalLiveness { .. } => false,
        ReplyActionView::Wait => false,
    }
}

/// Whether a cycle that is run for `inbound` of `user` stands where it
/// should, given what it asks for next.
spec fn on_course(
    cycle: ReplyCycleView,
    action: ReplyActionView,
    before: Map<i64, ChatHistoryView>,
    now: Map<i64, ChatHistoryView>,
    user: UserView,
    inbound: ChatMessageView,
    prompt: Seq<char>,
    response: ChatMessageView,
) -> bool {
    let chat_id = cycle.chat_id;
    let found = stored(before, chat_id);
    let base = match found {
        Some(history) => history,
        None => ChatHistoryView::fresh(user, prompt),
    };
    let prompted = found is None ==> prompt.len() > 0;
    let answered = response.sender == ChatMessageSender::Assistant && response.content.len() > 0;
    match action {
        ReplyActionView::Find { chat_id: id } => {
            &&& id == chat_id
            &&& cycle.stage == StageView::Loading { user, inbound }
            &&& now == before
        },
        ReplyActionView::RenderPrompt { user: whom } => {
            &&& whom == user
            &&& cycle.stage == StageView::Prompting { user, inbound }
            &&& found is None
            &&& now == before
        },
        ReplyActionView::Generate { history } => {
            &&& history == base.with_message(inbound)
            &&& cycle.stage == StageView::Generating { history }
            &&& prompted
            &&& now == before
        },
        ReplyActionView::Send { chat_id: id, message } => {
            &&& id == chat_id
            &&& message == response
            &&& cycle.stage == StageView::Delivering { history: base.with_message(inbound), response }
            &&& prompted
            &&& answered
            &&& now == before
        },
        ReplyActionView::Trim { history } => {
            &&& history == grown(base, inbound, response)
            &&& history.too_long()
            &&& cycle.stage is Trimming
            &&& prompted
            &&& answered
            &&& now == before
        },
        ReplyActionView::Save { chat_id: id, history } => {
            &&& id == chat_id
            &&& cycle.stage is Persisting
            &&& settles_with(found, user, inbound, prompt, response, history)
            &&& now == before
        },
        ReplyActionView::Finish { outcome } => {
            &&& cycle.stage == StageView::Finished { outcome }
            &&& cycle_effect(outcome, before, now, chat_id, user, inbound)
        },
        ReplyActionView::SignalLiveness { .. } => false,
        ReplyActionView::Wait => false,
    }
}

impl<R, L, C, T, P> ChatUseCaseImpl<R, L, C, T, P> {
    /// The use case over these collaborators.
    pub fn new(repo: R, llm: L, chat_client: C, trimming_svc: T, prompts: P) -> (use_case: Self)
        ensures
            use_case.repo == repo,
            use_case.llm == llm,
            use_case.chat_client == chat_client,
            use_case.trimming_svc == trimming_svc,
            use_case.prompts == prompts,
    {
        Self { repo, llm, chat_client, trimming_svc, prompts }
    }
}

impl<
    R: ChatRepository,
    L: LlmClient,
    C: ChatClient,
    T: ChatTrimmingService,
    P: SystemPromptSource,
> ChatUseCase for ChatUseCaseImpl<R, L, C, T, P> {
    /// Loads the history of the conversation, or begins one under a fresh
    /// system prompt; adds the message; signals liveness and asks the model
    /// for its answer; delivers the answer; adds it to the history; has the
    /// history trimmed if it is too long; stores it. The first failure ends
    /// the cycle and leaves the repository as it was. Of the collaborators
    /// only the repository is changed, and only by the one request to store
    /// the history.
    fn reply(&mut self, chat_id: i64, user: User, message: ChatMessage) -> (outcome: Result<
        (),
        ReplyError,
    >)
        ensures
            exists|trace: ReplyTrace|
                {
                    &&& #[trigger] follows(
                        *old(self),
                        chat_id,
                        user@,
                        message@,
                        trace,
                        outcome,
                        final(self).repo.entries(),
                    )
                    &&& trace.delivered() ==> exists|repo: &mut R, chat: ChatHistory|
                        {
                            &&& *repo == old(self).repo
                            &&& *final(repo) == final(self).repo
                            &&& chat@ == trace.settled(user@, message@)
                            &&& #[trigger] call_ensures(
                                R::save,
                                (repo, chat_id, chat),
                                trace.stored,
                            )
                        }
                },
            cycle_effect(
                outcome,
                old(self).repo.entries(),
                final(self).repo.entries(),
                chat_id,
                user@,
                message@,
            ),
            final(self).llm == old(self).llm,
            final(self).chat_client == old(self).chat_client,
            final(self).trimming_svc == old(self).trimming_svc,
            final(self).prompts == old(self).prompts,
    {
        let ghost before = self.repo.entries();
        let ghost mut prompt: Seq<char> = Seq::empty();
        let ghost mut response: ChatMessageView = message@;
        let ghost mut trace: ReplyTrace = arbitrary();
        let (mut cycle, mut action) = ReplyCycle::start(chat_id, user, message);
        loop
            invariant
                before == old(self).repo.entries(),
                self.llm == old(self).llm,
                self.chat_client == old(self).chat_client,
                self.trimming_svc == old(self).trimming_svc,
                self.prompts == old(self).prompts,
                self.repo == old(self).repo,
                cycle@.chat_id == chat_id,
                on_course(
                    cycle@,
                    action@,
                    before,
                    self.repo.entries(),
                    user@,
                    message@,
                    prompt,
                    response,
                ),
                traced(
                    *old(self),
                    chat_id,
                    user@,
                    message@,
                    trace,
                    cycle@,
                    action@,
                    self.repo.entries(),
                ),
            decreases 6 - progress(cycle@.stage),
        {
            let event = match action {
                ReplyAction::Find { chat_id } => {
                    let found = self.repo.find(chat_id);
                    proof {
                        trace = ReplyTrace { found, ..trace };
                    }
                    ReplyEvent::Loaded(found)
                },
                ReplyAction::RenderPrompt { user } => {
                    let rendered = self.prompts.render(&user);
                    proof {
                        if rendered is Ok {
                            prompt = rendered->Ok_0@;
                        }
                        trace = ReplyTrace { whom: user, rendered, ..trace };
                    }
                    ReplyEvent::PromptRendered(rendered)
                },
                ReplyAction::Generate { history } => {
                    let (waiting, signal) = cycle.step(ReplyEvent::LivenessDue);
                    cycle = waiting;
                    if let ReplyAction::SignalLiveness { chat_id } = signal {
                        let signalled = self.chat_client.typing(chat_id);
                        proof {
                            trace = ReplyTrace { signalled, ..trace };
                        }
                        let (waiting, _) = cycle.step(ReplyEvent::LivenessSignalled(signalled));
                        cycle = waiting;
                    }
                    let answer = self.llm.get_response(&history);
                    proof {
                        if answer is Ok {
                            response = answer->Ok_0@;
                        }
                        trace = ReplyTrace { asked: history, answer, ..trace };
                    }
                    ReplyEvent::ModelAnswered(answer)
                },
                ReplyAction::Send { chat_id, message } => {
                    let sent = self.chat_client.send(chat_id, &message);
                    proof {
                        trace = ReplyTrace { message, sent, ..trace };
                    }
                    ReplyEvent::Delivered(sent)
                },
                ReplyAction::Trim { history } => {
                    let ghost grown = history;
                    let trimmed = self.trimming_svc.trim(history);
                    proof {
                        trace = ReplyTrace { grown, trimmed, ..trace };
                    }
                    ReplyEvent::Trimmed(trimmed)
                },
                ReplyAction::Save { chat_id: id, history } => {
                    let ghost chat = history;
                    let stored = self.repo.save(id, history);
                    proof {
                        trace = ReplyTrace { stored, ..trace };
                    }
                    let (over, last) = cycle.step(ReplyEvent::Saved(stored));
                    cycle = over;
                    match last {
                        ReplyAction::Finish { outcome } => {
                            proof {
                                assert(follows(
                                    *old(self),
                                    chat_id,
                                    user@,
                                    message@,
                                    trace,
                                    outcome,
                                    self.repo.entries(),
                                ));
                                assert(exists|repo: &mut R, chat: ChatHistory|
                                    {
                                        &&& *repo == old(self).repo
                                        &&& *final(repo) == self.repo
                                        &&& chat@ == trace.settled(user@, message@)
                                        &&& #[trigger] call_ensures(
                                            R::save,
                                            (repo, chat_id, chat),
                                            trace.stored,
                                        )
                                    });
                            }
                            return outcome;
                        },
                        _ => unreached(),
                    }
                },
                ReplyAction::Finish { outcome } => { return outcome; },
                ReplyAction::SignalLiveness { .. } => unreached(),
                ReplyAction::Wait => unreached(),
            };
            let (stepped, asked) = cycle.step(event);
            cycle = stepped;
            action = asked;
        }
    }
}

} // verus!
