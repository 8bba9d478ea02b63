use vstd::prelude::*;

use crate::domain::chat::{ChatHistory, ChatHistoryView};
use crate::outbound::prompts::{PromptFault, SystemPromptSource};
use crate::outbound::trimming::ChatTrimmingService;

verus! {

/// The text that rendering gave, where it gave any.
pub open spec fn rendered_text(rendered: Result<String, PromptFault>) -> Option<Seq<char>> {
    match rendered {
        Ok(text) => Some(text@),
        Err(_) => None,
    }
}

/// The system prompt of last resort: a history that would otherwise be left
/// without any prompt is started over under this one.
pub const FALLBACK_SYSTEM_PROMPT: &'static str = "You are a helpful assistant.";

/// A history started over: the same user, no messages, and the fresh prompt
/// in place of the old one. Where no prompt was rendered, or an empty one,
/// the old one stays; where the old one is empty too,
/// [`FALLBACK_SYSTEM_PROMPT`] takes its place.
pub open spec fn reset_history(history: ChatHistoryView, fresh_prompt: Option<Seq<char>>) -> ChatHistoryView {
    ChatHistoryView::fresh(
        history.user,
        if fresh_prompt matches Some(text) && text.len() > 0 {
            fresh_prompt->0
        } else if history.system_prompt.len() > 0 {
            history.system_prompt
        } else {
            FALLBACK_SYSTEM_PROMPT@
        },
    )
}

/// Starting over always gives a valid history of the same user that holds
/// no message and is not too long: its system prompt is never empty.
pub proof fn law_reset_bounds_history(history: ChatHistoryView, fresh_prompt: Option<Seq<char>>)
    ensures
        reset_history(history, fresh_prompt).messages.len() == 0,
        reset_history(history, fresh_prompt).user == history.user,
        !reset_history(history, fresh_prompt).too_long(),
        reset_history(history, fresh_prompt).well_formed(),
        reset_history(history, fresh_prompt).system_prompt.len() > 0,
{
    reveal_strlit("You are a helpful assistant.");
}

/// A trimming policy that forgets: it drops every message and starts the
/// conversation over under a freshly rendered system prompt.
pub struct ChatResettingService<P> {
    pub prompts: P,
}

impl<P: SystemPromptSource> ChatResettingService<P> {
    /// A policy that takes its system prompts from `prompts`.
    pub fn new(prompts: P) -> (service: Self)
        ensures
            service.prompts == prompts,
    {
        Self { prompts }
    }

    /// `history` started over under the prompt that was `rendered` for it.
    pub fn reset(history: ChatHistory, rendered: Result<String, PromptFault>) -> (fresh: ChatHistory)
        ensures
            fresh@ == reset_history(history@, rendered_text(rendered)),
    {
        let ChatHistory { user, system_prompt, messages: _ } = history;
        let prompt = match rendered {
            Ok(text) => {
                if text.as_str().is_empty() {
                    system_prompt
                } else {
                    text
                }
            },
            Err(_) => system_prompt,
        };
        if prompt.as_str().is_empty() {
            ChatHistory::new(user, FALLBACK_SYSTEM_PROMPT.to_owned())
        } else {
            ChatHistory::new(user, prompt)
        }
    }
}

impl<P: SystemPromptSource> ChatTrimmingService for ChatResettingService<P> {
    /// Asks the prompt source for a prompt for the history's user and
    /// starts the history over under what it answered.
    fn trim(&self, chat_history: ChatHistory) -> (trimmed: ChatHistory)
        ensures
            exists|rendered: Result<String, PromptFault>|
                #![trigger call_ensures(P::render, (&self.prompts, &chat_history.user), rendered)]
                call_ensures(P::render, (&self.prompts, &chat_history.user), rendered)
                    && trimmed@ == reset_history(chat_history@, rendered_text(rendered)),
            trimmed@.messages.len() == 0,
    {
        let rendered = self.prompts.render(&chat_history.user);
        proof {
            law_reset_bounds_history(chat_history@, rendered_text(rendered));
        }
        Self::reset(chat_history, rendered)
    }
}

} // verus!
