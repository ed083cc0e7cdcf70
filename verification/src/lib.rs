//! Session-scoped conversation engine for a short-lived, turn-based chat
//! game against a language-model persona: per-session state, message-history
//! assembly, the wire contract with the completion provider, and a resilient
//! retry layer over an unreliable upstream. The network itself stays outside;
//! every decision the engine takes is stated in contracts and verified.

pub mod app_error;
pub mod prompt;
pub mod strutil;
pub mod json;
pub mod message;
pub mod gpt;
pub mod game;
pub mod store;
