//! What a provider is written with: the context of a call, the names of operations and
//! subjects, and the traits that a provider implements.

pub mod context;
pub mod events;
pub mod handler;
pub mod topic;
pub mod wit;
