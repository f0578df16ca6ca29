//! A chat conversation as a verified state machine: the log of messages, the
//! draft being typed, and the turns whose replies are still on their way.

pub mod conversation;
pub mod message;
pub mod laws;
pub mod provider;
