//! The use cases: what is asked of the application and what it answers.

pub mod chat;
pub mod comparing_prompt;
pub mod prompt_manager;
