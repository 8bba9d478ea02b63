//! The collaborators that a reply cycle calls: the store of histories, the
//! language model, the chat service, the trimming policy and the source of
//! system prompts.

pub mod chat_client;
pub mod llm_client;
pub mod prompts;
pub mod repo;
pub mod trimming;
