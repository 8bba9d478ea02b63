//! The reply use case: what happens, step by step, when a message comes in.

pub mod chat;
pub mod cycle;
pub mod laws;
