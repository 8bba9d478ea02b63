//! The collaborators that the relay brings along.

pub mod completion;
pub mod mem_repo;
pub mod platform_user;
pub mod reset_trimming;
