//! The domain: what a prompt manager, a setting, a run and a chat are.

pub mod chat;
pub mod comparing_prompt;
pub mod comparing_prompt_setting;
pub mod prompt_manager;
pub mod settings;
