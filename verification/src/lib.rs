//! Core of a chat-platform slash command that returns callout images for
//! game maps: the command contract, case-insensitive argument matching,
//! store-lookup resolution with a layered fallback chain, and reply
//! construction. Every fallback becomes a well-formed text reply, so the
//! handlers are total and never surface an error to the dispatcher.

pub mod argument;
pub mod callout;
pub mod command;
pub mod error;
pub mod interaction;
pub mod laws;
pub mod store;
