//! Conversations: sessions of messages, the context facts extracted from
//! them, the tools the assistant may call, and their errors.

pub mod message;
pub mod session;
pub mod context;
pub mod error;
pub mod tool;
