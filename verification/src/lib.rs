//! Prompts and run decisions of the memory agents: the deriver, which extracts
//! explicit facts from messages, and the two dream specialists, which reason
//! over the observations gathered so far.

pub mod deriver;
pub mod dreamer;
pub mod json;
pub mod text;
