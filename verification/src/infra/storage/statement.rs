//! The statements a repository issues and the replies storage gives.
//!
//! A repository never touches storage itself. It names the next statement,
//! whoever holds the connection runs it and hands back the reply, and the
//! repository decides on that reply what comes next.

use crate::common::text::views;
use crate::domain::prompt_manager::ActionType;
use crate::infra::storage::rows::{
    ComparingPromptRunRow, ComparingPromptRunRowView, ComparingPromptSettingRow,
    ComparingPromptSettingRowView, ComparingPromptSettingVersionRow,
    ComparingPromptSettingVersionRowView, ManagerWithTags, ManagerWithTagsView, PromptManagerRow,
    PromptManagerRowView, SettingWithVersions, SettingWithVersionsView, TagRow, TagRowView,
};
use vstd::prelude::*;

verus! {

/// One statement for storage to run.
#[derive(Debug)]
pub enum Statement {
    /// Open a transaction.
    Begin,
    /// Make the open transaction's writes permanent.
    Commit,
    /// Undo the open transaction's writes.
    Rollback,
    /// Select the manager with this id.
    FindManager { id: i32 },
    /// Select the tags associated with a manager.
    FindTagsOfManager { manager_id: i32 },
    /// Select every manager that is not logically deleted, each with its tags.
    FindActiveManagers,
    /// Insert a manager with this title, no action, no API and no deletion
    /// time.
    InsertManager { title: String },
    /// Replace the manager that has the row's id by the row.
    UpdateManager { row: PromptManagerRow },
    /// Delete the extension row of a manager from the table of an action.
    DeleteExtension { action_type: ActionType, manager_id: i32 },
    /// Insert the extension row of a manager into the table of an action.
    InsertExtension { action_type: ActionType, manager_id: i32 },
    /// Select the tag with this value.
    FindTag { value: String },
    /// Insert a tag with this value.
    InsertTag { value: String },
    /// Delete every association of a manager with a tag.
    DeleteManagerTags { manager_id: i32 },
    /// Insert the association of a manager with a tag.
    InsertManagerTag { manager_id: i32, tag_id: i32 },
    /// Insert a setting that is not deleted.
    InsertSetting { manager_id: i32, current_version: i32 },
    /// Insert a version of a setting.
    InsertSettingVersion { setting_id: i32, version: i32, system_prompt: String },
    /// Select the setting with this id.
    FindSetting { id: i32 },
    /// Select the version of a setting that has this number.
    FindSettingVersion { setting_id: i32, version: i32 },
    /// Select the settings of a manager that are not logically deleted, each
    /// with all of its versions.
    FindSettingsOfManager { manager_id: i32 },
    /// Insert a run. Storage assigns the id: the id of `run` is not read.
    InsertRun { run: ComparingPromptRunRow },
    /// Select the run with this id.
    FindRun { id: i32 },
}

/// The mathematical value of a [`Statement`].
pub enum StatementView {
    Begin,
    Commit,
    Rollback,
    FindManager { id: i32 },
    FindTagsOfManager { manager_id: i32 },
    FindActiveManagers,
    InsertManager { title: Seq<char> },
    UpdateManager { row: PromptManagerRowView },
    DeleteExtension { action_type: ActionType, manager_id: i32 },
    InsertExtension { action_type: ActionType, manager_id: i32 },
    FindTag { value: Seq<char> },
    InsertTag { value: Seq<char> },
    DeleteManagerTags { manager_id: i32 },
    InsertManagerTag { manager_id: i32, tag_id: i32 },
    InsertSetting { manager_id: i32, current_version: i32 },
    InsertSettingVersion { setting_id: i32, version: i32, system_prompt: Seq<char> },
    FindSetting { id: i32 },
    FindSettingVersion { setting_id: i32, version: i32 },
    FindSettingsOfManager { manager_id: i32 },
    InsertRun { run: ComparingPromptRunRowView },
    FindRun { id: i32 },
}

impl View for Statement {
    type V = StatementView;

    open spec fn view(&self) -> StatementView {
        match *self {
            Statement::Begin => StatementView::Begin,
            Statement::Commit => StatementView::Commit,
            Statement::Rollback => StatementView::Rollback,
            Statement::FindManager { id } => StatementView::FindManager { id },
            Statement::FindTagsOfManager { manager_id } => StatementView::FindTagsOfManager {
                manager_id,
            },
            Statement::FindActiveManagers => StatementView::FindActiveManagers,
            Statement::InsertManager { title } => StatementView::InsertManager { title: title@ },
            Statement::UpdateManager { row } => StatementView::UpdateManager { row: row@ },
            Statement::DeleteExtension { action_type, manager_id } => {
                StatementView::DeleteExtension { action_type, manager_id }
            },
            Statement::InsertExtension { action_type, manager_id } => {
                StatementView::InsertExtension { action_type, manager_id }
            },
            Statement::FindTag { value } => StatementView::FindTag { value: value@ },
            Statement::InsertTag { value } => StatementView::InsertTag { value: value@ },
            Statement::DeleteManagerTags { manager_id } => StatementView::DeleteManagerTags {
                manager_id,
            },
            Statement::InsertManagerTag { manager_id, tag_id } => {
                StatementView::InsertManagerTag { manager_id, tag_id }
            },
            Statement::InsertSetting { manager_id, current_version } => {
                StatementView::InsertSetting { manager_id, current_version }
            },
            Statement::InsertSettingVersion { setting_id, version, system_prompt } => {
                StatementView::InsertSettingVersion {
                    setting_id,
                    version,
                    system_prompt: system_prompt@,
                }
            },
            Statement::FindSetting { id } => StatementView::FindSetting { id },
            Statement::FindSettingVersion { setting_id, version } => {
                StatementView::FindSettingVersion { setting_id, version }
            },
            Statement::FindSettingsOfManager { manager_id } => {
                StatementView::FindSettingsOfManager { manager_id }
            },
            Statement::InsertRun { run } => StatementView::InsertRun { run: run@ },
            Statement::FindRun { id } => StatementView::FindRun { id },
        }
    }
}

/// What storage answers to one statement.
#[derive(Debug)]
pub enum Reply {
    /// The statement ran and has nothing to report.
    Done,
    /// The insert ran: the id of the new record.
    Inserted(i32),
    /// The manager that was selected, if there is one.
    Manager(Option<PromptManagerRow>),
    /// The managers that were selected, each with its tags.
    Managers(Vec<ManagerWithTags>),
    /// The tags that were selected.
    Tags(Vec<TagRow>),
    /// The tag that was selected, if there is one.
    Tag(Option<TagRow>),
    /// The setting that was selected, if there is one.
    Setting(Option<ComparingPromptSettingRow>),
    /// The version that was selected, if there is one.
    Version(Option<ComparingPromptSettingVersionRow>),
    /// The settings that were selected, each with its versions.
    Settings(Vec<SettingWithVersions>),
    /// The run that was selected, if there is one.
    Run(Option<ComparingPromptRunRow>),
    /// The statement broke a uniqueness constraint and changed nothing.
    Conflict(String),
    /// The statement failed in another way and changed nothing.
    Failed(String),
}

/// The view of an optional value.
pub open spec fn opt_view<T: View>(o: Option<T>) -> Option<T::V> {
    match o {
        Some(x) => Some(x@),
        None => None,
    }
}

/// The mathematical value of a [`Reply`].
pub enum ReplyView {
    Done,
    Inserted(i32),
    Manager(Option<PromptManagerRowView>),
    Managers(Seq<ManagerWithTagsView>),
    Tags(Seq<TagRowView>),
    Tag(Option<TagRowView>),
    Setting(Option<ComparingPromptSettingRowView>),
    Version(Option<ComparingPromptSettingVersionRowView>),
    Settings(Seq<SettingWithVersionsView>),
    Run(Option<ComparingPromptRunRowView>),
    Conflict(Seq<char>),
    Failed(Seq<char>),
}

impl View for Reply {
    type V = ReplyView;

    open spec fn view(&self) -> ReplyView {
        match *self {
            Reply::Done => ReplyView::Done,
            Reply::Inserted(id) => ReplyView::Inserted(id),
            Reply::Manager(o) => ReplyView::Manager(opt_view(o)),
            Reply::Managers(v) => ReplyView::Managers(views(v@)),
            Reply::Tags(v) => ReplyView::Tags(views(v@)),
            Reply::Tag(o) => ReplyView::Tag(opt_view(o)),
            Reply::Setting(o) => ReplyView::Setting(opt_view(o)),
            Reply::Version(o) => ReplyView::Version(opt_view(o)),
            Reply::Settings(v) => ReplyView::Settings(views(v@)),
            Reply::Run(o) => ReplyView::Run(opt_view(o)),
            Reply::Conflict(m) => ReplyView::Conflict(m@),
            Reply::Failed(m) => ReplyView::Failed(m@),
        }
    }
}

} // verus!
