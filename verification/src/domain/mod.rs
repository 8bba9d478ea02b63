//! The conversation aggregate and the values it is made of.

pub mod chat;
pub mod size;
pub mod user;
