//! The records of each table, as storage hands them over.

use crate::common::text::{clone_opt_text, opt_text, views};
use vstd::prelude::*;

verus! {

/// A stored prompt manager.
#[derive(Debug)]
pub struct PromptManagerRow {
    /// The surrogate key.
    pub id: i32,
    /// The title.
    pub title: String,
    /// The canonical name of the attached action, if any.
    pub action_type: Option<String>,
    /// The canonical name of the API, if any.
    pub api_type: Option<String>,
    /// When the manager was logically deleted, if it was.
    pub deleted_at: Option<String>,
}

/// The mathematical value of a [`PromptManagerRow`].
pub struct PromptManagerRowView {
    pub id: i32,
    pub title: Seq<char>,
    pub action_type: Option<Seq<char>>,
    pub api_type: Option<Seq<char>>,
    pub deleted_at: Option<Seq<char>>,
}

impl View for PromptManagerRow {
    type V = PromptManagerRowView;

    open spec fn view(&self) -> PromptManagerRowView {
        PromptManagerRowView {
            id: self.id,
            title: self.title@,
            action_type: opt_text(self.action_type),
            api_type: opt_text(self.api_type),
            deleted_at: opt_text(self.deleted_at),
        }
    }
}

impl Clone for PromptManagerRow {
    fn clone(&self) -> (r: Self)
        ensures
            r == *self,
    {
        PromptManagerRow {
            id: self.id,
            title: self.title.clone(),
            action_type: clone_opt_text(&self.action_type),
            api_type: clone_opt_text(&self.api_type),
            deleted_at: clone_opt_text(&self.deleted_at),
        }
    }
}

/// A stored tag. No two stored tags share a value.
#[derive(Debug)]
pub struct TagRow {
    /// The surrogate key.
    pub id: i32,
    /// The tag's text.
    pub value: String,
}

/// The mathematical value of a [`TagRow`].
pub struct TagRowView {
    pub id: i32,
    pub value: Seq<char>,
}

impl View for TagRow {
    type V = TagRowView;

    open spec fn view(&self) -> TagRowView {
        TagRowView {
            id: self.id,
            value: self.value@,
        }
    }
}

impl Clone for TagRow {
    fn clone(&self) -> (r: Self)
        ensures
            r == *self,
    {
        TagRow {
            id: self.id,
            value: self.value.clone(),
        }
    }
}

/// A stored comparing-prompt setting.
#[derive(Debug)]
pub struct ComparingPromptSettingRow {
    /// The surrogate key.
    pub id: i32,
    /// The manager that owns the setting, through its comparing-prompt extension row.
    pub manager_id: i32,
    /// The number of the version that is active.
    pub current_version: i32,
    /// When the setting was logically deleted, if it was.
    pub deleted_at: Option<String>,
}

/// The mathematical value of a [`ComparingPromptSettingRow`].
pub struct ComparingPromptSettingRowView {
    pub id: i32,
    pub manager_id: i32,
    pub current_version: i32,
    pub deleted_at: Option<Seq<char>>,
}

impl View for ComparingPromptSettingRow {
    type V = ComparingPromptSettingRowView;

    open spec fn view(&self) -> ComparingPromptSettingRowView {
        ComparingPromptSettingRowView {
            id: self.id,
            manager_id: self.manager_id,
            current_version: self.current_version,
            deleted_at: opt_text(self.deleted_at),
        }
    }
}

impl Clone for ComparingPromptSettingRow {
    fn clone(&self) -> (r: Self)
        ensures
            r == *self,
    {
        ComparingPromptSettingRow {
            id: self.id,
            manager_id: self.manager_id,
            current_version: self.current_version,
            deleted_at: clone_opt_text(&self.deleted_at),
        }
    }
}

/// A stored version of a setting. Versions are only ever added.
#[derive(Debug)]
pub struct ComparingPromptSettingVersionRow {
    /// The surrogate key.
    pub id: i32,
    /// The setting the version belongs to.
    pub setting_id: i32,
    /// The version number, unique within the setting.
    pub version: i32,
    /// The prompt text of this version.
    pub system_prompt: String,
}

/// The mathematical value of a [`ComparingPromptSettingVersionRow`].
pub struct ComparingPromptSettingVersionRowView {
    pub id: i32,
    pub setting_id: i32,
    pub version: i32,
    pub system_prompt: Seq<char>,
}

impl View for ComparingPromptSettingVersionRow {
    type V = ComparingPromptSettingVersionRowView;

    open spec fn view(&self) -> ComparingPromptSettingVersionRowView {
        ComparingPromptSettingVersionRowView {
            id: self.id,
            setting_id: self.setting_id,
            version: self.version,
            system_prompt: self.system_prompt@,
        }
    }
}

impl Clone for ComparingPromptSettingVersionRow {
    fn clone(&self) -> (r: Self)
        ensures
            r == *self,
    {
        ComparingPromptSettingVersionRow {
            id: self.id,
            setting_id: self.setting_id,
            version: self.version,
            system_prompt: self.system_prompt.clone(),
        }
    }
}

/// A stored run: the parameters one execution was made with.
#[derive(Debug)]
pub struct ComparingPromptRunRow {
    /// The surrogate key.
    pub id: i32,
    /// The manager the run belongs to, through its comparing-prompt extension row.
    pub manager_id: i32,
    /// The canonical name of the provider.
    pub provider_type: String,
    /// The user's prompt.
    pub user_prompt: String,
    /// The model's name.
    pub model: String,
    /// The sampling temperature, in thousandths.
    pub temperature: i32,
    /// The token limit, if one was set.
    pub max_token: Option<i32>,
}

/// The mathematical value of a [`ComparingPromptRunRow`].
pub struct ComparingPromptRunRowView {
    pub id: i32,
    pub manager_id: i32,
    pub provider_type: Seq<char>,
    pub user_prompt: Seq<char>,
    pub model: Seq<char>,
    pub temperature: i32,
    pub max_token: Option<i32>,
}

impl View for ComparingPromptRunRow {
    type V = ComparingPromptRunRowView;

    open spec fn view(&self) -> ComparingPromptRunRowView {
        ComparingPromptRunRowView {
            id: self.id,
            manager_id: self.manager_id,
            provider_type: self.provider_type@,
            user_prompt: self.user_prompt@,
            model: self.model@,
            temperature: self.temperature,
            max_token: self.max_token,
        }
    }
}

impl Clone for ComparingPromptRunRow {
    fn clone(&self) -> (r: Self)
        ensures
            r == *self,
    {
        ComparingPromptRunRow {
            id: self.id,
            manager_id: self.manager_id,
            provider_type: self.provider_type.clone(),
            user_prompt: self.user_prompt.clone(),
            model: self.model.clone(),
            temperature: self.temperature,
            max_token: self.max_token,
        }
    }
}

/// A stored association of a tag with a manager.
#[derive(Clone, Copy, Debug, PartialEq, Eq, Structural)]
pub struct PromptManagerTagRow {
    /// The surrogate key.
    pub id: i32,
    /// The manager.
    pub prompt_manager_id: i32,
    /// The tag.
    pub tag_id: i32,
}

/// A manager together with the tags associated with it.
#[derive(Debug)]
pub struct ManagerWithTags {
    pub manager: PromptManagerRow,
    pub tags: Vec<TagRow>,
}

/// The mathematical value of a [`ManagerWithTags`].
pub struct ManagerWithTagsView {
    pub manager: PromptManagerRowView,
    pub tags: Seq<TagRowView>,
}

impl View for ManagerWithTags {
    type V = ManagerWithTagsView;

    open spec fn view(&self) -> ManagerWithTagsView {
        ManagerWithTagsView { manager: self.manager@, tags: views(self.tags@) }
    }
}

impl Clone for ManagerWithTags {
    fn clone(&self) -> (r: Self)
        ensures
            r@ == self@,
    {
        let tags = self.tags.clone();
        ManagerWithTags { manager: self.manager.clone(), tags }
    }
}

/// A setting together with all of its versions.
#[derive(Debug)]
pub struct SettingWithVersions {
    pub setting: ComparingPromptSettingRow,
    pub versions: Vec<ComparingPromptSettingVersionRow>,
}

/// The mathematical value of a [`SettingWithVersions`].
pub struct SettingWithVersionsView {
    pub setting: ComparingPromptSettingRowView,
    pub versions: Seq<ComparingPromptSettingVersionRowView>,
}

impl View for SettingWithVersions {
    type V = SettingWithVersionsView;

    open spec fn view(&self) -> SettingWithVersionsView {
        SettingWithVersionsView { setting: self.setting@, versions: views(self.versions@) }
    }
}

impl Clone for SettingWithVersions {
    fn clone(&self) -> (r: Self)
        ensures
            r@ == self@,
    {
        let versions = self.versions.clone();
        SettingWithVersions { setting: self.setting.clone(), versions }
    }
}

} // verus!
