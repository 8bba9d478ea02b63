//! What holds of every reply cycle, whatever the collaborators answer and in
//! whatever order the answers come.

use vstd::prelude::*;

use crate::domain::chat::{ChatHistoryView, ChatMessageSender, ChatMessageView};
use crate::domain::size::{
    content_len, lemma_total_content_len_push, total_content_len, MAX_CONTENT_LEN,
};
use crate::domain::user::UserView;
use crate::infra::reset_trimming::{law_reset_bounds_history, reset_history};
use crate::outbound::chat_client::DeliveryFault;
use crate::outbound::repo::stored;
use crate::usecase::cycle::{
    begin, next, ReplyActionView, ReplyCycleView, ReplyError, ReplyEventView, StageView,
};

verus! {

/// How far a cycle has come: stages in the order in which a cycle passes
/// them.
pub open spec fn progress(stage: StageView) -> nat {
    match stage {
        StageView::Loading { .. } => 0,
        StageView::Prompting { .. } => 1,
        StageView::Generating { .. } => 2,
        StageView::Delivering { .. } => 3,
        StageView::Trimming => 4,
        StageView::Persisting => 5,
        StageView::Finished { .. } => 6,
    }
}

/// Whether the model call of the cycle has resolved: the cycle is past the
/// stage in which it waits for the model.
pub open spec fn model_resolved(stage: StageView) -> bool {
    progress(stage) > 2
}

/// Whether the cycle still waits for its reply to be delivered, or for
/// something before that.
pub open spec fn before_delivery(stage: StageView) -> bool {
    progress(stage) <= 3
}

/// Whether `event` tells of a delivery that succeeded.
pub open spec fn delivery_succeeded(event: ReplyEventView) -> bool {
    event matches ReplyEventView::Delivered(Ok(_))
}

/// The cycle after a run of events, and what it asked for on the way, in
/// order: one action for each event.
pub open spec fn run(cycle: ReplyCycleView, events: Seq<ReplyEventView>) -> (
    ReplyCycleView,
    Seq<ReplyActionView>,
)
    decreases events.len(),
{
    if events.len() == 0 {
        (cycle, Seq::empty())
    } else {
        let (stepped, action) = next(cycle, events[0]);
        let (last, actions) = run(stepped, events.drop_first());
        (last, seq![action] + actions)
    }
}

/// A cycle never goes back to an earlier stage, and never changes the
/// conversation it is about. A cycle that is over stays as it is and asks
/// for nothing.
pub proof fn law_cycle_only_advances(cycle: ReplyCycleView, event: ReplyEventView)
    ensures
        progress(next(cycle, event).0.stage) >= progress(cycle.stage),
        next(cycle, event).0.chat_id == cycle.chat_id,
        cycle.stage is Finished ==> next(cycle, event) == (cycle, ReplyActionView::Wait),
{
}

/// While the model is thinking, each time a liveness signal is due the
/// cycle asks for one, and goes on waiting for the model whether or not the
/// signal got through. In no other stage does the cycle ask for a liveness
/// signal.
pub proof fn law_liveness_only_while_generating(cycle: ReplyCycleView, event: ReplyEventView)
    ensures
        cycle.stage is Generating ==> next(cycle, ReplyEventView::LivenessDue) == (
            cycle,
            ReplyActionView::SignalLiveness { chat_id: cycle.chat_id },
        ),
        event is LivenessSignalled ==> next(cycle, event) == (cycle, ReplyActionView::Wait),
        next(cycle, event).1 is SignalLiveness ==> cycle.stage is Generating && event
            == ReplyEventView::LivenessDue,
{
}

/// Whether `event` belongs to the liveness signalling: a signal is due, or
/// the chat service answered one.
pub open spec fn liveness_event(event: ReplyEventView) -> bool {
    event is LivenessDue || event is LivenessSignalled
}

/// What the cycle asks for on a liveness event while the model is thinking:
/// a signal when one is due, nothing when one was answered.
pub open spec fn liveness_action(chat_id: i64, event: ReplyEventView) -> ReplyActionView {
    if event is LivenessDue {
        ReplyActionView::SignalLiveness { chat_id }
    } else {
        ReplyActionView::Wait
    }
}

/// The liveness signalling never wins over the model: however long the
/// model thinks and however many signals fall due, get through or fail in
/// the meantime, the cycle stays as it is, waiting for the model's answer
/// to the same history; and it asks for one signal each time one is due.
pub proof fn law_liveness_leaves_generation_alone(
    cycle: ReplyCycleView,
    events: Seq<ReplyEventView>,
)
    requires
        cycle.stage is Generating,
        forall|i: int| 0 <= i < events.len() ==> liveness_event(#[trigger] events[i]),
    ensures
        run(cycle, events).0 == cycle,
        run(cycle, events).1.len() == events.len(),
        forall|i: int|
            0 <= i < events.len() ==> #[trigger] run(cycle, events).1[i] == liveness_action(
                cycle.chat_id,
                events[i],
            ),
    decreases events.len(),
{
    if events.len() > 0 {
        let rest = events.drop_first();
        assert forall|i: int| 0 <= i < rest.len() implies liveness_event(#[trigger] rest[i]) by {
            assert(rest[i] == events[i + 1]);
        }
        law_liveness_leaves_generation_alone(cycle, rest);
        assert forall|i: int| 0 <= i < events.len() implies #[trigger] run(cycle, events).1[i]
            == liveness_action(cycle.chat_id, events[i]) by {
            if i > 0 {
                assert(rest[i - 1] == events[i]);
            }
        }
    }
}

/// Once the model call has resolved, no run of events makes the cycle ask
/// for a liveness signal again.
pub proof fn law_no_liveness_once_model_resolved(cycle: ReplyCycleView, events: Seq<ReplyEventView>)
    requires
        model_resolved(cycle.stage),
    ensures
        model_resolved(run(cycle, events).0.stage),
        forall|i: int|
            0 <= i < run(cycle, events).1.len() ==> !(#[trigger] run(cycle, events).1[i]
                is SignalLiveness),
    decreases events.len(),
{
    if events.len() > 0 {
        law_cycle_only_advances(cycle, events[0]);
        law_no_liveness_once_model_resolved(next(cycle, events[0]).0, events.drop_first());
    }
}

/// A history is handed to the trimming policy or to the repository only
/// once the reply has been delivered: as long as no delivery has succeeded,
/// whatever else happens, the cycle asks neither to trim nor to save.
pub proof fn law_nothing_stored_before_delivery(cycle: ReplyCycleView, events: Seq<ReplyEventView>)
    requires
        before_delivery(cycle.stage),
        forall|i: int| 0 <= i < events.len() ==> !delivery_succeeded(#[trigger] events[i]),
    ensures
        forall|i: int|
            0 <= i < run(cycle, events).1.len() ==> !(#[trigger] run(cycle, events).1[i] is Save)
                && !(run(cycle, events).1[i] is Trim),
{
    lemma_nothing_stored_before_delivery(cycle, events);
}

proof fn lemma_nothing_stored_before_delivery(cycle: ReplyCycleView, events: Seq<ReplyEventView>)
    requires
        before_delivery(cycle.stage) || cycle.stage is Finished,
        forall|i: int| 0 <= i < events.len() ==> !delivery_succeeded(#[trigger] events[i]),
    ensures
        forall|i: int|
            0 <= i < run(cycle, events).1.len() ==> !(#[trigger] run(cycle, events).1[i] is Save)
                && !(run(cycle, events).1[i] is Trim),
    decreases events.len(),
{
    if events.len() > 0 {
        let rest = events.drop_first();
        assert forall|i: int| 0 <= i < rest.len() implies !delivery_succeeded(
            #[trigger] rest[i],
        ) by {
            assert(rest[i] == events[i + 1]);
        }
        lemma_nothing_stored_before_delivery(next(cycle, events[0]).0, rest);
    }
}

/// A delivery that fails ends the cycle with a delivery fault, and nothing
/// that happens afterwards makes the cycle ask to trim or to save: the
/// repository keeps what it held, be that nothing or the history as it was
/// before the cycle.
pub proof fn law_failed_delivery_stores_nothing(
    cycle: ReplyCycleView,
    fault: DeliveryFault,
    events: Seq<ReplyEventView>,
)
    requires
        cycle.stage is Delivering,
    ensures
        next(cycle, ReplyEventView::Delivered(Err(fault))) == (
            ReplyCycleView {
                chat_id: cycle.chat_id,
                stage: StageView::Finished { outcome: Err(ReplyError::DeliveryFault) },
            },
            ReplyActionView::Finish { outcome: Err(ReplyError::DeliveryFault) },
        ),
        forall|i: int|
            0 <= i < run(next(cycle, ReplyEventView::Delivered(Err(fault))).0, events).1.len() ==> (
            #[trigger] run(next(cycle, ReplyEventView::Delivered(Err(fault))).0, events).1[i])
                == ReplyActionView::Wait,
{
    let over = next(cycle, ReplyEventView::Delivered(Err(fault))).0;
    lemma_finished_only_waits(over, events);
}

proof fn lemma_finished_only_waits(cycle: ReplyCycleView, events: Seq<ReplyEventView>)
    requires
        cycle.stage is Finished,
    ensures
        run(cycle, events).0 == cycle,
        forall|i: int|
            0 <= i < run(cycle, events).1.len() ==> (#[trigger] run(cycle, events).1[i])
                == ReplyActionView::Wait,
    decreases events.len(),
{
    if events.len() > 0 {
        lemma_finished_only_waits(cycle, events.drop_first());
    }
}

/// The history that a cycle stores when all goes well and nothing needs
/// trimming: the history it started from with the inbound message and the
/// reply at its tail, in that order.
pub open spec fn grown(
    history: ChatHistoryView,
    inbound: ChatMessageView,
    response: ChatMessageView,
) -> ChatHistoryView {
    history.with_message(inbound).with_message(response)
}

/// The events of a cycle in which every collaborator answers well: the
/// lookup, the prompt if the conversation is new, liveness signals while
/// the model thinks, the model's answer, the delivery and the storing.
pub open spec fn smooth_events(
    found: Option<ChatHistoryView>,
    prompt: Seq<char>,
    response: ChatMessageView,
) -> Seq<ReplyEventView> {
    let loaded = match found {
        Some(history) => seq![ReplyEventView::Loaded(Ok(Some(history)))],
        None => seq![
            ReplyEventView::Loaded(Ok(None)),
            ReplyEventView::PromptRendered(Ok(prompt)),
        ],
    };
    loaded + seq![
        ReplyEventView::LivenessDue,
        ReplyEventView::LivenessSignalled(Ok(())),
        ReplyEventView::ModelAnswered(Ok(response)),
        ReplyEventView::Delivered(Ok(())),
        ReplyEventView::Saved(Ok(())),
    ]
}

/// The happy path. In a new conversation, with every collaborator answering
/// well and a reply with text that leaves the history short enough, the cycle asks in
/// turn for a prompt, for the model's answer to the inbound message, for a
/// liveness signal, for the delivery of just the model's message and for
/// the storing of a history that holds exactly the inbound message and the
/// reply, in that order; then it is over without error. It asks to send
/// once. A repository that stores that history finds it again under the
/// conversation's id.
pub proof fn law_new_conversation_happy_path(
    chat_id: i64,
    user: UserView,
    inbound: ChatMessageView,
    prompt: Seq<char>,
    response: ChatMessageView,
    entries: Map<i64, ChatHistoryView>,
)
    requires
        prompt.len() > 0,
        response.sender == ChatMessageSender::Assistant,
        response.content.len() > 0,
        !grown(ChatHistoryView::fresh(user, prompt), inbound, response).too_long(),
    ensures
        ({
            let opened = ChatHistoryView::fresh(user, prompt).with_message(inbound);
            let settled = grown(ChatHistoryView::fresh(user, prompt), inbound, response);
            let ran = run(begin(chat_id, user, inbound).0, smooth_events(None, prompt, response));
            &&& ran.0.stage == StageView::Finished { outcome: Ok(()) }
            &&& ran.1 == seq![
                ReplyActionView::RenderPrompt { user },
                ReplyActionView::Generate { history: opened },
                ReplyActionView::SignalLiveness { chat_id },
                ReplyActionView::Wait,
                ReplyActionView::Send { chat_id, message: response },
                ReplyActionView::Save { chat_id, history: settled },
                ReplyActionView::Finish { outcome: Ok(()) },
            ]
            &&& settled.messages == seq![inbound, response]
            &&& settled.user == user
            &&& settled.system_prompt == prompt
            &&& stored(entries.insert(chat_id, settled), chat_id) == Some(settled)
        }),
{
    let opened = ChatHistoryView::fresh(user, prompt).with_message(inbound);
    let settled = grown(ChatHistoryView::fresh(user, prompt), inbound, response);
    let ran = run(begin(chat_id, user, inbound).0, smooth_events(None, prompt, response));
    reveal_with_fuel(run, 8);
    assert(ran.1 =~= seq![
        ReplyActionView::RenderPrompt { user },
        ReplyActionView::Generate { history: opened },
        ReplyActionView::SignalLiveness { chat_id },
        ReplyActionView::Wait,
        ReplyActionView::Send { chat_id, message: response },
        ReplyActionView::Save { chat_id, history: settled },
        ReplyActionView::Finish { outcome: Ok(()) },
    ]);
}

/// The happy path of a conversation that has a history: the cycle asks for
/// no prompt, and what it stores is the history that was found with the
/// inbound message and the reply at its tail.
pub proof fn law_known_conversation_happy_path(
    chat_id: i64,
    user: UserView,
    inbound: ChatMessageView,
    history: ChatHistoryView,
    response: ChatMessageView,
)
    requires
        response.content.len() > 0,
        !grown(history, inbound, response).too_long(),
    ensures
        ({
            let ran = run(
                begin(chat_id, user, inbound).0,
                smooth_events(Some(history), Seq::empty(), response),
            );
            &&& ran.0.stage == StageView::Finished { outcome: Ok(()) }
            &&& ran.1 == seq![
                ReplyActionView::Generate { history: history.with_message(inbound) },
                ReplyActionView::SignalLiveness { chat_id },
                ReplyActionView::Wait,
                ReplyActionView::Send { chat_id, message: response },
                ReplyActionView::Save { chat_id, history: grown(history, inbound, response) },
                ReplyActionView::Finish { outcome: Ok(()) },
            ]
        }),
{
    let events = smooth_events(Some(history), Seq::empty(), response);
    reveal_with_fuel(run, 7);
    assert(run(begin(chat_id, user, inbound).0, events).1 =~= seq![
        ReplyActionView::Generate { history: history.with_message(inbound) },
        ReplyActionView::SignalLiveness { chat_id },
        ReplyActionView::Wait,
        ReplyActionView::Send { chat_id, message: response },
        ReplyActionView::Save { chat_id, history: grown(history, inbound, response) },
        ReplyActionView::Finish { outcome: Ok(()) },
    ]);
}

/// A reply that makes the history too long. Where the contents of the
/// history, of the inbound message and of the reply add up to more than
/// [`MAX_CONTENT_LEN`], the delivered reply goes onto the history and the
/// history goes to the trimming policy, once; what the policy gives back is
/// stored as it is, with nothing added to it. With the policy that starts
/// over, whatever prompt was rendered for it, the stored history holds no
/// message, belongs to the same user, has a system prompt that is not empty
/// and is not too long.
pub proof fn law_overlong_history_is_reset(
    chat_id: i64,
    history: ChatHistoryView,
    inbound: ChatMessageView,
    response: ChatMessageView,
    fresh_prompt: Option<Seq<char>>,
)
    requires
        total_content_len(history.messages) + content_len(inbound) + content_len(response)
            > MAX_CONTENT_LEN,
    ensures
        ({
            let delivering = ReplyCycleView {
                chat_id,
                stage: StageView::Delivering { history: history.with_message(inbound), response },
            };
            let full = grown(history, inbound, response);
            let fresh = reset_history(full, fresh_prompt);
            let ran = run(
                delivering,
                seq![
                    ReplyEventView::Delivered(Ok(())),
                    ReplyEventView::Trimmed(fresh),
                    ReplyEventView::Saved(Ok(())),
                ],
            );
            &&& full.too_long()
            &&& ran.0.stage == StageView::Finished { outcome: Ok(()) }
            &&& ran.1 == seq![
                ReplyActionView::Trim { history: full },
                ReplyActionView::Save { chat_id, history: fresh },
                ReplyActionView::Finish { outcome: Ok(()) },
            ]
            &&& fresh.messages.len() == 0
            &&& fresh.user == history.user
            &&& fresh.system_prompt.len() > 0
            &&& !fresh.too_long()
        }),
{
    let delivering = ReplyCycleView {
        chat_id,
        stage: StageView::Delivering { history: history.with_message(inbound), response },
    };
    let full = grown(history, inbound, response);
    let fresh = reset_history(full, fresh_prompt);
    lemma_total_content_len_push(history.messages, inbound);
    lemma_total_content_len_push(history.messages.push(inbound), response);
    law_reset_bounds_history(full, fresh_prompt);
    reveal_with_fuel(run, 4);
    assert(run(
        delivering,
        seq![
            ReplyEventView::Delivered(Ok(())),
            ReplyEventView::Trimmed(fresh),
            ReplyEventView::Saved(Ok(())),
        ],
    ).1 =~= seq![
        ReplyActionView::Trim { history: full },
        ReplyActionView::Save { chat_id, history: fresh },
        ReplyActionView::Finish { outcome: Ok(()) },
    ]);
}

} // verus!
