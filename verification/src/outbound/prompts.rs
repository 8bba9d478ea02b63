use vstd::prelude::*;

use crate::domain::user::User;

verus! {

/// No system prompt could be rendered.
#[derive(Clone, Copy, Debug, PartialEq, Eq, Structural)]
pub struct PromptFault;

/// Where system prompts come from. What a prompt says is this source's
/// business alone: it may name the user, the user's language or the time of
/// day.
pub trait SystemPromptSource {
    /// A system prompt for a conversation with `user`.
    fn render(&self, user: &User) -> Result<String, PromptFault>;
}

} // verus!
