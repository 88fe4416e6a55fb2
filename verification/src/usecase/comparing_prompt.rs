//! Comparing prompts: adding and reading settings, and running a chat.

use crate::common::text::{clone_opt_text, opt_text, views};
use crate::domain::chat::{ChatSettings, ChatSettingsView};
use crate::domain::comparing_prompt::{ComparingPromptSettingModel, ComparingPromptSettingModelView};
use vstd::prelude::*;

verus! {

/// A request to add a setting to a manager.
#[derive(Clone, Copy, Debug, PartialEq, Eq, Structural)]
pub struct AddComparingPromptSettingRequest {
    pub manager_id: i32,
}

/// The answer to [`AddComparingPromptSettingRequest`]: the id of the new
/// setting.
#[derive(Clone, Copy, Debug, PartialEq, Eq, Structural)]
pub struct AddComparingPromptSettingResponse {
    pub id: i32,
}

/// A request for one setting.
#[derive(Clone, Copy, Debug, PartialEq, Eq, Structural)]
pub struct GetComparingPromptSettingRequest {
    pub id: i32,
}

/// The answer to [`GetComparingPromptSettingRequest`].
pub type GetComparingPromptSettingResponse = ComparingPromptSettingItem;

/// A request for the settings of a manager.
#[derive(Clone, Copy, Debug, PartialEq, Eq, Structural)]
pub struct GetComparingPromptSettingsRequest {
    pub manager_id: i32,
}

/// The answer to [`GetComparingPromptSettingsRequest`].
#[derive(Debug)]
pub struct GetComparingPromptSettingsResponse {
    pub settings: Vec<ComparingPromptSettingItem>,
}

/// A setting as the user interface lists it.
#[derive(Debug)]
pub struct ComparingPromptSettingItem {
    pub id: i32,
    pub manager_id: i32,
    pub version: i32,
    pub system_prompt: String,
}

/// The mathematical value of a [`ComparingPromptSettingItem`].
pub struct ComparingPromptSettingItemView {
    pub id: i32,
    pub manager_id: i32,
    pub version: i32,
    pub system_prompt: Seq<char>,
}

impl View for ComparingPromptSettingItem {
    type V = ComparingPromptSettingItemView;

    open spec fn view(&self) -> ComparingPromptSettingItemView {
        ComparingPromptSettingItemView {
            id: self.id,
            manager_id: self.manager_id,
            version: self.version,
            system_prompt: self.system_prompt@,
        }
    }
}

/// The item for a setting: its id, its manager, its current version, and an
/// empty prompt.
pub open spec fn item_of() -> spec_fn(
    ComparingPromptSettingModelView,
) -> ComparingPromptSettingItemView {
    |s: ComparingPromptSettingModelView|
        ComparingPromptSettingItemView {
            id: s.id,
            manager_id: s.manager_id,
            version: s.current_version,
            system_prompt: Seq::empty(),
        }
}

impl ComparingPromptSettingItem {
    /// The item for a setting.
    pub fn from_model(setting: &ComparingPromptSettingModel) -> (item: Self)
        ensures
            item@ == item_of()(setting@),
    {
        ComparingPromptSettingItem {
            id: setting.id,
            manager_id: setting.manager_id,
            version: setting.current_version,
            system_prompt: String::new(),
        }
    }
}

impl GetComparingPromptSettingsResponse {
    /// The answer that lists these settings, in their order.
    pub fn from_models(settings: &Vec<ComparingPromptSettingModel>) -> (response: Self)
        ensures
            views(response.settings@) == views(settings@).map_values(item_of()),
    {
        let mut items: Vec<ComparingPromptSettingItem> = Vec::new();
        let mut i: usize = 0;
        while i < settings.len()
            invariant
                i <= settings.len(),
                items@.len() == i,
                forall|j: int| 0 <= j < i ==> items@[j]@ == item_of()(settings@[j]@),
            decreases settings.len() - i,
        {
            items.push(ComparingPromptSettingItem::from_model(&settings[i]));
            i += 1;
        }
        GetComparingPromptSettingsResponse { settings: items }
    }
}

/// A request to run a chat for a comparison.
#[derive(Debug)]
pub struct RunChatRequest {
    pub run_id: i32,
    pub user_prompt: String,
    pub system_prompt: String,
    pub model: String,
    /// The sampling temperature, in thousandths.
    pub temperature: i32,
    pub max_tokens: Option<u16>,
    pub response_format: Option<String>,
}

/// The mathematical value of a [`RunChatRequest`].
pub struct RunChatRequestView {
    pub run_id: i32,
    pub user_prompt: Seq<char>,
    pub system_prompt: Seq<char>,
    pub model: Seq<char>,
    pub temperature: i32,
    pub max_tokens: Option<u16>,
    pub response_format: Option<Seq<char>>,
}

impl View for RunChatRequest {
    type V = RunChatRequestView;

    open spec fn view(&self) -> RunChatRequestView {
        RunChatRequestView {
            run_id: self.run_id,
            user_prompt: self.user_prompt@,
            system_prompt: self.system_prompt@,
            model: self.model@,
            temperature: self.temperature,
            max_tokens: self.max_tokens,
            response_format: opt_text(self.response_format),
        }
    }
}

impl RunChatRequest {
    /// The settings that the request asks for: its own fields, and id 0.
    pub fn settings(&self) -> (settings: ChatSettings)
        ensures
            settings@ == (ChatSettingsView {
                id: 0,
                user_prompt: self@.user_prompt,
                system_prompt: self@.system_prompt,
                model: self@.model,
                temperature: self@.temperature,
                max_tokens: self@.max_tokens,
                response_format: self@.response_format,
            }),
    {
        ChatSettings {
            id: 0,
            user_prompt: self.user_prompt.clone(),
            system_prompt: self.system_prompt.clone(),
            model: self.model.clone(),
            temperature: self.temperature,
            max_tokens: self.max_tokens,
            response_format: clone_opt_text(&self.response_format),
        }
    }
}

/// The answer to [`RunChatRequest`].
#[derive(Debug)]
pub struct RunChatResponse {
    pub answer: String,
}

} // verus!
