//! What the statements mean: a model of the storage engine.
//!
//! The model is a relational store with one sequence of records per table,
//! kept in the order of insertion. Surrogate keys count upwards and are never
//! used twice. Uniqueness and foreign keys are checked where the schema
//! declares them, and a statement that breaks one changes nothing. A
//! transaction keeps a copy of the tables as they were when it began and puts
//! it back on rollback.

use crate::common::selection::first_match;
use crate::domain::prompt_manager::ActionType;
use crate::infra::storage::rows::{
    ComparingPromptRunRowView, ComparingPromptSettingRowView, ComparingPromptSettingVersionRowView,
    ManagerWithTagsView, PromptManagerRowView, PromptManagerTagRow, SettingWithVersionsView,
    TagRowView,
};
use crate::infra::storage::statement::{ReplyView, StatementView};
use vstd::prelude::*;

verus! {

/// The managers with this id.
pub open spec fn manager_with_id(id: i32) -> spec_fn(PromptManagerRowView) -> bool {
    |r: PromptManagerRowView| r.id == id
}

/// The managers that are not logically deleted.
pub open spec fn manager_live() -> spec_fn(PromptManagerRowView) -> bool {
    |r: PromptManagerRowView| r.deleted_at is None
}

/// The tags with this id.
pub open spec fn tag_with_id(id: i32) -> spec_fn(TagRowView) -> bool {
    |r: TagRowView| r.id == id
}

/// The tags with this value.
pub open spec fn tag_with_value(value: Seq<char>) -> spec_fn(TagRowView) -> bool {
    |r: TagRowView| r.value == value
}

/// The associations of any manager but this one.
pub open spec fn link_of_other(manager_id: i32) -> spec_fn(PromptManagerTagRow) -> bool {
    |j: PromptManagerTagRow| j.prompt_manager_id != manager_id
}

/// Any manager id but this one.
pub open spec fn other_than(manager_id: i32) -> spec_fn(i32) -> bool {
    |m: i32| m != manager_id
}

/// This manager id.
pub open spec fn same_as(manager_id: i32) -> spec_fn(i32) -> bool {
    |m: i32| m == manager_id
}

/// The settings with this id.
pub open spec fn setting_with_id(id: i32) -> spec_fn(ComparingPromptSettingRowView) -> bool {
    |r: ComparingPromptSettingRowView| r.id == id
}

/// The settings of this manager, deleted or not.
pub open spec fn setting_of(manager_id: i32) -> spec_fn(ComparingPromptSettingRowView) -> bool {
    |r: ComparingPromptSettingRowView| r.manager_id == manager_id
}

/// The settings of this manager that are not logically deleted.
pub open spec fn setting_live_of(manager_id: i32) -> spec_fn(
    ComparingPromptSettingRowView,
) -> bool {
    |r: ComparingPromptSettingRowView| r.manager_id == manager_id && r.deleted_at is None
}

/// The versions of this setting.
pub open spec fn version_of(setting_id: i32) -> spec_fn(
    ComparingPromptSettingVersionRowView,
) -> bool {
    |r: ComparingPromptSettingVersionRowView| r.setting_id == setting_id
}

/// The versions of this setting with this number.
pub open spec fn version_numbered(setting_id: i32, version: i32) -> spec_fn(
    ComparingPromptSettingVersionRowView,
) -> bool {
    |r: ComparingPromptSettingVersionRowView| r.setting_id == setting_id && r.version == version
}

/// The runs with this id.
pub open spec fn run_with_id(id: i32) -> spec_fn(ComparingPromptRunRowView) -> bool {
    |r: ComparingPromptRunRowView| r.id == id
}

/// The runs of this manager.
pub open spec fn run_of(manager_id: i32) -> spec_fn(ComparingPromptRunRowView) -> bool {
    |r: ComparingPromptRunRowView| r.manager_id == manager_id
}

/// The tag that an association stands for, where the association belongs to
/// the manager and its tag exists among `tags`.
pub open spec fn tag_linked_to(tags: Seq<TagRowView>, manager_id: i32) -> spec_fn(
    PromptManagerTagRow,
) -> Option<TagRowView> {
    |j: PromptManagerTagRow|
        if j.prompt_manager_id == manager_id {
            first_match(tags, tag_with_id(j.tag_id))
        } else {
            None
        }
}

/// The detail of the failure when the ids of a table are used up.
pub open spec fn full() -> Seq<char> {
    "database or disk is full"@
}

/// The detail of the failure when a record points at one that is missing, or
/// a record that others point at is to be deleted.
pub open spec fn foreign_key() -> Seq<char> {
    "FOREIGN KEY constraint failed"@
}

/// The detail of the conflict when a value that must be unique exists.
pub open spec fn unique() -> Seq<char> {
    "UNIQUE constraint failed"@
}

/// The detail of the failure when an update finds no record.
pub open spec fn not_updated() -> Seq<char> {
    "None of the records are updated"@
}

/// The detail of the failure when a transaction is opened inside another.
pub open spec fn nested() -> Seq<char> {
    "cannot start a transaction within a transaction"@
}

/// The detail of the failure when there is no transaction to end.
pub open spec fn no_transaction() -> Seq<char> {
    "no transaction is active"@
}

/// The tables of the store.
pub struct Tables {
    pub prompt_managers: Seq<PromptManagerRowView>,
    /// The greatest manager id handed out so far.
    pub last_prompt_manager_id: i32,
    pub tags: Seq<TagRowView>,
    /// The greatest tag id handed out so far.
    pub last_tag_id: i32,
    pub prompt_manager_tags: Seq<PromptManagerTagRow>,
    /// The greatest association id handed out so far.
    pub last_prompt_manager_tag_id: i32,
    /// The extension table of `ComparingPrompt`: the ids of the managers it
    /// is attached to.
    pub comparing_prompt_managers: Seq<i32>,
    /// The extension table of `ComparingModel`.
    pub comparing_model_managers: Seq<i32>,
    pub settings: Seq<ComparingPromptSettingRowView>,
    /// The greatest setting id handed out so far.
    pub last_setting_id: i32,
    pub versions: Seq<ComparingPromptSettingVersionRowView>,
    /// The greatest version id handed out so far.
    pub last_version_id: i32,
    pub runs: Seq<ComparingPromptRunRowView>,
    /// The greatest run id handed out so far.
    pub last_run_id: i32,
}

impl Tables {
    /// The store with nothing in it. The first id of each table is 1.
    pub open spec fn empty() -> Tables {
        Tables {
            prompt_managers: Seq::empty(),
            last_prompt_manager_id: 0,
            tags: Seq::empty(),
            last_tag_id: 0,
            prompt_manager_tags: Seq::empty(),
            last_prompt_manager_tag_id: 0,
            comparing_prompt_managers: Seq::empty(),
            comparing_model_managers: Seq::empty(),
            settings: Seq::empty(),
            last_setting_id: 0,
            versions: Seq::empty(),
            last_version_id: 0,
            runs: Seq::empty(),
            last_run_id: 0,
        }
    }

    /// The manager with this id.
    pub open spec fn find_manager(self, id: i32) -> Option<PromptManagerRowView> {
        first_match(self.prompt_managers, manager_with_id(id))
    }

    /// The tag with this id.
    pub open spec fn find_tag(self, id: i32) -> Option<TagRowView> {
        first_match(self.tags, tag_with_id(id))
    }

    /// The tag with this value.
    pub open spec fn find_tag_by_value(self, value: Seq<char>) -> Option<TagRowView> {
        first_match(self.tags, tag_with_value(value))
    }

    /// The setting with this id.
    pub open spec fn find_setting(self, id: i32) -> Option<ComparingPromptSettingRowView> {
        first_match(self.settings, setting_with_id(id))
    }

    /// The version of a setting with this number.
    pub open spec fn find_version(self, setting_id: i32, version: i32) -> Option<
        ComparingPromptSettingVersionRowView,
    > {
        first_match(self.versions, version_numbered(setting_id, version))
    }

    /// The run with this id.
    pub open spec fn find_run(self, id: i32) -> Option<ComparingPromptRunRowView> {
        first_match(self.runs, run_with_id(id))
    }

    /// The extension table of an action.
    pub open spec fn extension(self, action_type: ActionType) -> Seq<i32> {
        match action_type {
            ActionType::ComparingPrompt => self.comparing_prompt_managers,
            ActionType::ComparingModel => self.comparing_model_managers,
        }
    }

    /// The same tables with the extension table of an action replaced.
    pub open spec fn with_extension(self, action_type: ActionType, rows: Seq<i32>) -> Tables {
        match action_type {
            ActionType::ComparingPrompt => Tables { comparing_prompt_managers: rows, ..self },
            ActionType::ComparingModel => Tables { comparing_model_managers: rows, ..self },
        }
    }

    /// Whether the action is attached to the manager.
    pub open spec fn attached(self, action_type: ActionType, manager_id: i32) -> bool {
        first_match(self.extension(action_type), same_as(manager_id)) is Some
    }

    /// Whether a setting or a run points at the extension row of an action
    /// for this manager. Only `ComparingPrompt` has such records.
    pub open spec fn extension_in_use(self, action_type: ActionType, manager_id: i32) -> bool {
        action_type == ActionType::ComparingPrompt && (first_match(
            self.settings,
            setting_of(manager_id),
        ) is Some || first_match(self.runs, run_of(manager_id)) is Some)
    }

    /// The tags associated with a manager, in the order of the associations.
    pub open spec fn tags_of(self, manager_id: i32) -> Seq<TagRowView> {
        self.prompt_manager_tags.filter_map(tag_linked_to(self.tags, manager_id))
    }

    /// A manager put together with its tags.
    pub open spec fn with_tags(self) -> spec_fn(PromptManagerRowView) -> ManagerWithTagsView {
        |r: PromptManagerRowView| ManagerWithTagsView { manager: r, tags: self.tags_of(r.id) }
    }

    /// A setting put together with all of its versions.
    pub open spec fn with_versions(self) -> spec_fn(
        ComparingPromptSettingRowView,
    ) -> SettingWithVersionsView {
        |s: ComparingPromptSettingRowView|
            SettingWithVersionsView {
                setting: s,
                versions: self.versions.filter(version_of(s.id)),
            }
    }

    /// Insert a manager.
    pub open spec fn insert_manager(self, title: Seq<char>) -> (Tables, ReplyView) {
        if self.last_prompt_manager_id < i32::MAX {
            let id = (self.last_prompt_manager_id + 1) as i32;
            let row = PromptManagerRowView {
                id,
                title,
                action_type: None,
                api_type: None,
                deleted_at: None,
            };
            (
                Tables {
                    prompt_managers: self.prompt_managers.push(row),
                    last_prompt_manager_id: id,
                    ..self
                },
                ReplyView::Inserted(id),
            )
        } else {
            (self, ReplyView::Failed(full()))
        }
    }

    /// The row, in place of a manager that has its id.
    pub open spec fn replaced_by(row: PromptManagerRowView) -> spec_fn(
        PromptManagerRowView,
    ) -> PromptManagerRowView {
        |r: PromptManagerRowView|
            if r.id == row.id {
                row
            } else {
                r
            }
    }

    /// Replace the manager that has the row's id.
    pub open spec fn update_manager(self, row: PromptManagerRowView) -> (Tables, ReplyView) {
        if self.find_manager(row.id) is Some {
            (
                Tables {
                    prompt_managers: self.prompt_managers.map_values(Tables::replaced_by(row)),
                    ..self
                },
                ReplyView::Done,
            )
        } else {
            (self, ReplyView::Failed(not_updated()))
        }
    }

    /// Delete an extension row. Fails where a setting or a run points at it.
    pub open spec fn delete_extension(self, action_type: ActionType, manager_id: i32) -> (
        Tables,
        ReplyView,
    ) {
        if self.attached(action_type, manager_id) && self.extension_in_use(
            action_type,
            manager_id,
        ) {
            (self, ReplyView::Failed(foreign_key()))
        } else {
            (
                self.with_extension(
                    action_type,
                    self.extension(action_type).filter(other_than(manager_id)),
                ),
                ReplyView::Done,
            )
        }
    }

    /// Insert an extension row. The manager id is the table's key, and the
    /// manager must exist.
    pub open spec fn insert_extension(self, action_type: ActionType, manager_id: i32) -> (
        Tables,
        ReplyView,
    ) {
        if self.attached(action_type, manager_id) {
            (self, ReplyView::Conflict(unique()))
        } else if self.find_manager(manager_id) is None {
            (self, ReplyView::Failed(foreign_key()))
        } else {
            (
                self.with_extension(action_type, self.extension(action_type).push(manager_id)),
                ReplyView::Done,
            )
        }
    }

    /// Insert a tag. Values are unique.
    pub open spec fn insert_tag(self, value: Seq<char>) -> (Tables, ReplyView) {
        if self.last_tag_id >= i32::MAX {
            (self, ReplyView::Failed(full()))
        } else if self.find_tag_by_value(value) is Some {
            (self, ReplyView::Conflict(unique()))
        } else {
            let id = (self.last_tag_id + 1) as i32;
            (
                Tables { tags: self.tags.push(TagRowView { id, value }), last_tag_id: id, ..self },
                ReplyView::Inserted(id),
            )
        }
    }

    /// Delete the associations of a manager.
    pub open spec fn delete_manager_tags(self, manager_id: i32) -> (Tables, ReplyView) {
        (
            Tables {
                prompt_manager_tags: self.prompt_manager_tags.filter(link_of_other(manager_id)),
                ..self
            },
            ReplyView::Done,
        )
    }

    /// Insert an association. The manager and the tag must exist.
    pub open spec fn insert_manager_tag(self, manager_id: i32, tag_id: i32) -> (
        Tables,
        ReplyView,
    ) {
        if self.last_prompt_manager_tag_id >= i32::MAX {
            (self, ReplyView::Failed(full()))
        } else if self.find_manager(manager_id) is None || self.find_tag(tag_id) is None {
            (self, ReplyView::Failed(foreign_key()))
        } else {
            let id = (self.last_prompt_manager_tag_id + 1) as i32;
            (
                Tables {
                    prompt_manager_tags: self.prompt_manager_tags.push(
                        PromptManagerTagRow { id, prompt_manager_id: manager_id, tag_id },
                    ),
                    last_prompt_manager_tag_id: id,
                    ..self
                },
                ReplyView::Inserted(id),
            )
        }
    }

    /// Insert a setting. The manager must have `ComparingPrompt` attached.
    pub open spec fn insert_setting(self, manager_id: i32, current_version: i32) -> (
        Tables,
        ReplyView,
    ) {
        if self.last_setting_id >= i32::MAX {
            (self, ReplyView::Failed(full()))
        } else if !self.attached(ActionType::ComparingPrompt, manager_id) {
            (self, ReplyView::Failed(foreign_key()))
        } else {
            let id = (self.last_setting_id + 1) as i32;
            (
                Tables {
                    settings: self.settings.push(
                        ComparingPromptSettingRowView {
                            id,
                            manager_id,
                            current_version,
                            deleted_at: None,
                        },
                    ),
                    last_setting_id: id,
                    ..self
                },
                ReplyView::Inserted(id),
            )
        }
    }

    /// Insert a version. The setting must exist, and a setting has no two
    /// versions with one number.
    pub open spec fn insert_setting_version(
        self,
        setting_id: i32,
        version: i32,
        system_prompt: Seq<char>,
    ) -> (Tables, ReplyView) {
        if self.last_version_id >= i32::MAX {
            (self, ReplyView::Failed(full()))
        } else if self.find_version(setting_id, version) is Some {
            (self, ReplyView::Conflict(unique()))
        } else if self.find_setting(setting_id) is None {
            (self, ReplyView::Failed(foreign_key()))
        } else {
            let id = (self.last_version_id + 1) as i32;
            (
                Tables {
                    versions: self.versions.push(
                        ComparingPromptSettingVersionRowView {
                            id,
                            setting_id,
                            version,
                            system_prompt,
                        },
                    ),
                    last_version_id: id,
                    ..self
                },
                ReplyView::Inserted(id),
            )
        }
    }

    /// Insert a run. The manager must have `ComparingPrompt` attached.
    pub open spec fn insert_run(self, run: ComparingPromptRunRowView) -> (Tables, ReplyView) {
        if self.last_run_id >= i32::MAX {
            (self, ReplyView::Failed(full()))
        } else if !self.attached(ActionType::ComparingPrompt, run.manager_id) {
            (self, ReplyView::Failed(foreign_key()))
        } else {
            let id = (self.last_run_id + 1) as i32;
            (
                Tables {
                    runs: self.runs.push(ComparingPromptRunRowView { id, ..run }),
                    last_run_id: id,
                    ..self
                },
                ReplyView::Inserted(id),
            )
        }
    }

    /// What a statement other than the three of transaction control does to
    /// the tables, and the reply it gets.
    pub open spec fn execute(self, statement: StatementView) -> (Tables, ReplyView) {
        match statement {
            StatementView::FindManager { id } => (self, ReplyView::Manager(self.find_manager(id))),
            StatementView::FindTagsOfManager { manager_id } => (
                self,
                ReplyView::Tags(self.tags_of(manager_id)),
            ),
            StatementView::FindActiveManagers => (
                self,
                ReplyView::Managers(
                    self.prompt_managers.filter(manager_live()).map_values(self.with_tags()),
                ),
            ),
            StatementView::InsertManager { title } => self.insert_manager(title),
            StatementView::UpdateManager { row } => self.update_manager(row),
            StatementView::DeleteExtension { action_type, manager_id } => self.delete_extension(
                action_type,
                manager_id,
            ),
            StatementView::InsertExtension { action_type, manager_id } => self.insert_extension(
                action_type,
                manager_id,
            ),
            StatementView::FindTag { value } => (
                self,
                ReplyView::Tag(self.find_tag_by_value(value)),
            ),
            StatementView::InsertTag { value } => self.insert_tag(value),
            StatementView::DeleteManagerTags { manager_id } => self.delete_manager_tags(
                manager_id,
            ),
            StatementView::InsertManagerTag { manager_id, tag_id } => self.insert_manager_tag(
                manager_id,
                tag_id,
            ),
            StatementView::InsertSetting { manager_id, current_version } => self.insert_setting(
                manager_id,
                current_version,
            ),
            StatementView::InsertSettingVersion { setting_id, version, system_prompt } => {
                self.insert_setting_version(setting_id, version, system_prompt)
            },
            StatementView::FindSetting { id } => (self, ReplyView::Setting(self.find_setting(id))),
            StatementView::FindSettingVersion { setting_id, version } => (
                self,
                ReplyView::Version(self.find_version(setting_id, version)),
            ),
            StatementView::FindSettingsOfManager { manager_id } => (
                self,
                ReplyView::Settings(
                    self.settings.filter(setting_live_of(manager_id)).map_values(
                        self.with_versions(),
                    ),
                ),
            ),
            StatementView::InsertRun { run } => self.insert_run(run),
            StatementView::FindRun { id } => (self, ReplyView::Run(self.find_run(id))),
            StatementView::Begin | StatementView::Commit | StatementView::Rollback => (
                self,
                ReplyView::Failed(no_transaction()),
            ),
        }
    }
}

/// The store: its tables, and the tables as they were when the open
/// transaction began.
pub struct Database {
    pub tables: Tables,
    /// The copy that a rollback puts back. `None` while no transaction is
    /// open.
    pub saved: Option<Tables>,
}

impl Database {
    /// The store with nothing in it and no transaction open.
    pub open spec fn empty() -> Database {
        Database { tables: Tables::empty(), saved: None }
    }

    /// What a statement does to the store, and the reply it gets.
    pub open spec fn execute(self, statement: StatementView) -> (Database, ReplyView) {
        match statement {
            StatementView::Begin => if self.saved is Some {
                (self, ReplyView::Failed(nested()))
            } else {
                (Database { tables: self.tables, saved: Some(self.tables) }, ReplyView::Done)
            },
            StatementView::Commit => if self.saved is Some {
                (Database { tables: self.tables, saved: None }, ReplyView::Done)
            } else {
                (self, ReplyView::Failed(no_transaction()))
            },
            StatementView::Rollback => match self.saved {
                Some(tables) => (Database { tables, saved: None }, ReplyView::Done),
                None => (self, ReplyView::Failed(no_transaction())),
            },
            _ => {
                let (tables, reply) = self.tables.execute(statement);
                (Database { tables, saved: self.saved }, reply)
            },
        }
    }
}

} // verus!
