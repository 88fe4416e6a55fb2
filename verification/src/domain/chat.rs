//! What a chat completion is asked with.

use crate::common::text::{clone_opt_text, opt_text};
use vstd::prelude::*;

verus! {

/// The settings of one chat completion.
#[derive(Debug)]
pub struct ChatSettings {
    pub id: i32,
    pub user_prompt: String,
    pub system_prompt: String,
    pub model: String,
    /// The sampling temperature, in thousandths.
    pub temperature: i32,
    pub max_tokens: Option<u16>,
    pub response_format: Option<String>,
}

/// The mathematical value of a [`ChatSettings`].
pub struct ChatSettingsView {
    pub id: i32,
    pub user_prompt: Seq<char>,
    pub system_prompt: Seq<char>,
    pub model: Seq<char>,
    pub temperature: i32,
    pub max_tokens: Option<u16>,
    pub response_format: Option<Seq<char>>,
}

impl View for ChatSettings {
    type V = ChatSettingsView;

    open spec fn view(&self) -> ChatSettingsView {
        ChatSettingsView {
            id: self.id,
            user_prompt: self.user_prompt@,
            system_prompt: self.system_prompt@,
            model: self.model@,
            temperature: self.temperature,
            max_tokens: self.max_tokens,
            response_format: opt_text(self.response_format),
        }
    }
}

impl Clone for ChatSettings {
    fn clone(&self) -> (r: Self)
        ensures
            r == *self,
    {
        ChatSettings {
            id: self.id,
            user_prompt: self.user_prompt.clone(),
            system_prompt: self.system_prompt.clone(),
            model: self.model.clone(),
            temperature: self.temperature,
            max_tokens: self.max_tokens,
            response_format: clone_opt_text(&self.response_format),
        }
    }
}

} // verus!
