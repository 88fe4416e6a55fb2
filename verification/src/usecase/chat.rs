//! Asking for a chat completion.

use crate::common::text::{clone_opt_text, opt_text};
use crate::domain::chat::{ChatSettings, ChatSettingsView};
use vstd::prelude::*;

verus! {

/// A request for a chat completion.
#[derive(Debug)]
pub struct ChatRequest {
    pub user_prompt: String,
    pub system_prompt: String,
    pub model: String,
    /// The sampling temperature, in thousandths.
    pub temperature: i32,
    pub response_format: Option<String>,
}

/// The mathematical value of a [`ChatRequest`].
pub struct ChatRequestView {
    pub user_prompt: Seq<char>,
    pub system_prompt: Seq<char>,
    pub model: Seq<char>,
    pub temperature: i32,
    pub response_format: Option<Seq<char>>,
}

impl View for ChatRequest {
    type V = ChatRequestView;

    open spec fn view(&self) -> ChatRequestView {
        ChatRequestView {
            user_prompt: self.user_prompt@,
            system_prompt: self.system_prompt@,
            model: self.model@,
            temperature: self.temperature,
            response_format: opt_text(self.response_format),
        }
    }
}

impl ChatRequest {
    /// The settings that the request asks for: its own fields, no token
    /// limit, and id 0.
    pub fn settings(&self) -> (settings: ChatSettings)
        ensures
            settings@ == (ChatSettingsView {
                id: 0,
                user_prompt: self@.user_prompt,
                system_prompt: self@.system_prompt,
                model: self@.model,
                temperature: self@.temperature,
                max_tokens: None,
                response_format: self@.response_format,
            }),
    {
        ChatSettings {
            id: 0,
            user_prompt: self.user_prompt.clone(),
            system_prompt: self.system_prompt.clone(),
            model: self.model.clone(),
            temperature: self.temperature,
            max_tokens: None,
            response_format: clone_opt_text(&self.response_format),
        }
    }
}

} // verus!
