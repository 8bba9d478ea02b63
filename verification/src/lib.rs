//! A conversational relay: it keeps one message history per conversation,
//! hands that history to a language model, relays the generated reply and
//! bounds the growth of the history.

pub mod domain;
pub mod gate;
pub mod infra;
pub mod outbound;
pub mod usecase;
