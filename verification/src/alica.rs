//! Plain messages of an agent.

pub mod messages;
