use vstd::prelude::*;

use crate::domain::chat::ChatMessage;

verus! {

/// The chat service did not take what was sent to it.
#[derive(Clone, Copy, Debug, PartialEq, Eq, Structural)]
pub struct DeliveryFault;

/// A liveness signal did not get through. Nothing depends on it: a missed
/// signal is a missed typing cue and no more.
#[derive(Clone, Copy, Debug, PartialEq, Eq, Structural)]
pub struct LivenessSignalFault;

/// A client for interacting with a chat service or app such as telegram
pub trait ChatClient {
    /// Send a message
    fn send(&self, chat_id: i64, message: &ChatMessage) -> Result<(), DeliveryFault>;

    /// Send a typing action
    ///
    /// This is typically used to show a "user is typing" message. You can use it
    /// to give the user some feedback during reasoning
    fn typing(&self, chat_id: i64) -> Result<(), LivenessSignalFault>;
}

} // verus!
