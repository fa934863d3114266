//! The deriver: explicit facts out of messages.

pub mod laws;
pub mod prompts;
