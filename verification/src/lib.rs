//! Conversation history, completion exchange and dispatch coordination for an
//! interactive chat client.

pub mod message;
pub mod store;
pub mod client;
pub mod dispatch;
pub mod text;
pub mod prompt;
pub mod glyphs;
pub mod config;
