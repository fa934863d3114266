//! The dreamer: reasoning over the observations gathered so far.

pub mod laws;
pub mod prompt_laws;
pub mod run;
pub mod run_laws;
pub mod specialists;
