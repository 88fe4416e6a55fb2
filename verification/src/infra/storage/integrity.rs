//! The integrity of the store: what holds of the keys whatever statements
//! are run.
//!
//! In every table with surrogate keys, the keys grow with the order of
//! insertion and none exceeds the greatest key handed out. No two tags have
//! one value. A record that points at a manager, at a tag or at a setting
//! points at a key that was handed out.

use crate::common::selection::{first_match, lemma_first_match};
use crate::infra::storage::rows::{
    ComparingPromptRunRowView, ComparingPromptSettingRowView, ComparingPromptSettingVersionRowView,
    PromptManagerRowView, PromptManagerTagRow, TagRowView,
};
use crate::infra::storage::statement::StatementView;
use crate::infra::storage::tables::{
    Database, link_of_other, manager_with_id, other_than, setting_with_id, Tables, tag_with_id,
    tag_with_value,
};
use vstd::prelude::*;

verus! {

/// The keys grow, are positive, and none exceeds `last`.
pub open spec fn keys_in_order(keys: Seq<i32>, last: i32) -> bool {
    &&& forall|i: int| 0 <= i < keys.len() ==> 0 < #[trigger] keys[i] <= last
    &&& forall|i: int, j: int| 0 <= i < j < keys.len() ==> #[trigger] keys[i] < #[trigger] keys[j]
}

/// Every one of the keys was handed out: it is positive and does not exceed
/// `last`.
pub open spec fn keys_handed_out(keys: Seq<i32>, last: i32) -> bool {
    forall|i: int| 0 <= i < keys.len() ==> 0 < #[trigger] keys[i] <= last
}

/// The id of a manager.
pub open spec fn manager_id() -> spec_fn(PromptManagerRowView) -> i32 {
    |r: PromptManagerRowView| r.id
}

/// The id of a tag.
pub open spec fn tag_id() -> spec_fn(TagRowView) -> i32 {
    |r: TagRowView| r.id
}

/// The id of a setting.
pub open spec fn setting_id() -> spec_fn(ComparingPromptSettingRowView) -> i32 {
    |r: ComparingPromptSettingRowView| r.id
}

/// The id of a version.
pub open spec fn version_id() -> spec_fn(ComparingPromptSettingVersionRowView) -> i32 {
    |r: ComparingPromptSettingVersionRowView| r.id
}

/// The setting that a version points at.
pub open spec fn version_setting() -> spec_fn(ComparingPromptSettingVersionRowView) -> i32 {
    |r: ComparingPromptSettingVersionRowView| r.setting_id
}

/// The id of a run.
pub open spec fn run_id() -> spec_fn(ComparingPromptRunRowView) -> i32 {
    |r: ComparingPromptRunRowView| r.id
}

/// The manager that an association points at.
pub open spec fn link_manager() -> spec_fn(PromptManagerTagRow) -> i32 {
    |j: PromptManagerTagRow| j.prompt_manager_id
}

/// The value of a tag.
pub open spec fn tag_value() -> spec_fn(TagRowView) -> Seq<char> {
    |r: TagRowView| r.value
}

/// The tag that an association points at.
pub open spec fn link_tag() -> spec_fn(PromptManagerTagRow) -> i32 {
    |j: PromptManagerTagRow| j.tag_id
}

impl Tables {
    /// The integrity of the tables.
    pub open spec fn wf(self) -> bool {
        &&& keys_in_order(
            self.prompt_managers.map_values(manager_id()),
            self.last_prompt_manager_id,
        )
        &&& keys_in_order(self.tags.map_values(tag_id()), self.last_tag_id)
        &&& self.tags.map_values(tag_value()).no_duplicates()
        &&& keys_in_order(self.settings.map_values(setting_id()), self.last_setting_id)
        &&& keys_in_order(self.versions.map_values(version_id()), self.last_version_id)
        &&& keys_in_order(self.runs.map_values(run_id()), self.last_run_id)
        &&& keys_handed_out(
            self.prompt_manager_tags.map_values(link_manager()),
            self.last_prompt_manager_id,
        )
        &&& keys_handed_out(self.prompt_manager_tags.map_values(link_tag()), self.last_tag_id)
        &&& keys_handed_out(self.comparing_prompt_managers, self.last_prompt_manager_id)
        &&& keys_handed_out(self.comparing_model_managers, self.last_prompt_manager_id)
        &&& keys_handed_out(self.versions.map_values(version_setting()), self.last_setting_id)
        &&& 0 <= self.last_prompt_manager_id
        &&& 0 <= self.last_tag_id
        &&& 0 <= self.last_prompt_manager_tag_id
        &&& 0 <= self.last_setting_id
        &&& 0 <= self.last_version_id
        &&& 0 <= self.last_run_id
    }
}

impl Database {
    /// The integrity of the store: that of its tables, and of the copy that
    /// a rollback puts back.
    pub open spec fn wf(self) -> bool {
        &&& self.tables.wf()
        &&& self.saved matches Some(saved) ==> saved.wf()
    }
}

/// A selection of keys that were handed out holds only such keys.
pub proof fn lemma_filter_handed_out(keys: Seq<i32>, p: spec_fn(i32) -> bool, last: i32)
    requires
        keys_handed_out(keys, last),
    ensures
        keys_handed_out(keys.filter(p), last),
{
    let kept = keys.filter(p);
    assert forall|i: int| 0 <= i < kept.len() implies 0 < #[trigger] kept[i] <= last by {
        keys.lemma_filter_contains_rev(p, kept[i]);
    }
}

/// The empty store has its integrity.
pub proof fn lemma_empty_wf()
    ensures
        Database::empty().wf(),
{
}

/// Keys in order stay in order when a greater key is appended.
pub proof fn lemma_keys_push(keys: Seq<i32>, last: i32, key: i32)
    requires
        keys_in_order(keys, last),
        0 <= last < key,
    ensures
        keys_in_order(keys.push(key), key),
{
}

/// Keys that were handed out stay handed out when more keys are.
pub proof fn lemma_handed_out_more(keys: Seq<i32>, last: i32, more: i32)
    requires
        keys_handed_out(keys, last),
        last <= more,
    ensures
        keys_handed_out(keys, more),
{
}

/// A key that is found among keys in order was handed out.
pub proof fn lemma_found_key<T>(
    rows: Seq<T>,
    key_of: spec_fn(T) -> i32,
    p: spec_fn(T) -> bool,
    last: i32,
)
    requires
        keys_in_order(rows.map_values(key_of), last),
        first_match(rows, p) is Some,
    ensures
        0 < key_of(first_match(rows, p)->Some_0) <= last,
{
    lemma_first_match(rows, p);
    let row = first_match(rows, p)->Some_0;
    let i = choose|i: int| 0 <= i < rows.len() && rows[i] == row;
    assert(rows.map_values(key_of)[i] == key_of(row));
}

/// The tables keep their integrity whatever statement is run.
pub proof fn lemma_tables_execute_wf(t: Tables, statement: StatementView)
    requires
        t.wf(),
    ensures
        t.execute(statement).0.wf(),
{
    let after = t.execute(statement).0;
    let inserted = t.execute(statement).1 is Inserted;
    match statement {
        StatementView::InsertManager { title } => {
            if inserted {
                let id = (t.last_prompt_manager_id + 1) as i32;
                lemma_keys_push(
                    t.prompt_managers.map_values(manager_id()),
                    t.last_prompt_manager_id,
                    id,
                );
                assert(after.prompt_managers.map_values(manager_id())
                    =~= t.prompt_managers.map_values(manager_id()).push(id));
                lemma_handed_out_more(
                    t.prompt_manager_tags.map_values(link_manager()),
                    t.last_prompt_manager_id,
                    id,
                );
                lemma_handed_out_more(t.comparing_prompt_managers, t.last_prompt_manager_id, id);
                lemma_handed_out_more(t.comparing_model_managers, t.last_prompt_manager_id, id);
            }
        },
        StatementView::UpdateManager { row } => {
            assert(after.prompt_managers.map_values(manager_id()) =~= t.prompt_managers.map_values(
                manager_id(),
            ));
        },
        StatementView::DeleteExtension { action_type, manager_id } => {
            lemma_filter_handed_out(
                t.extension(action_type),
                other_than(manager_id),
                t.last_prompt_manager_id,
            );
        },
        StatementView::InsertExtension { action_type, manager_id: m } => {
            if t.find_manager(m) is Some {
                lemma_found_key(
                    t.prompt_managers,
                    manager_id(),
                    manager_with_id(m),
                    t.last_prompt_manager_id,
                );
                lemma_first_match(t.prompt_managers, manager_with_id(m));
            }
        },
        StatementView::InsertTag { value } => {
            if inserted {
                let id = (t.last_tag_id + 1) as i32;
                lemma_keys_push(t.tags.map_values(tag_id()), t.last_tag_id, id);
                assert(after.tags.map_values(tag_id()) =~= t.tags.map_values(tag_id()).push(id));
                lemma_handed_out_more(
                    t.prompt_manager_tags.map_values(link_tag()),
                    t.last_tag_id,
                    id,
                );
                lemma_first_match(t.tags, tag_with_value(value));
                let values = t.tags.map_values(tag_value());
                assert(after.tags.map_values(tag_value()) =~= values.push(value));
                assert forall|i: int| 0 <= i < values.len() implies #[trigger] values[i]
                    != value by {
                    assert(!tag_with_value(value)(t.tags[i]));
                }
            }
        },
        StatementView::DeleteManagerTags { manager_id: m } => {
            let kept = t.prompt_manager_tags.filter(link_of_other(m));
            let keys = kept.map_values(link_manager());
            assert forall|i: int| 0 <= i < keys.len() implies 0 < #[trigger] keys[i]
                <= t.last_prompt_manager_id by {
                t.prompt_manager_tags.lemma_filter_contains_rev(link_of_other(m), kept[i]);
                let j = choose|j: int|
                    0 <= j < t.prompt_manager_tags.len() && t.prompt_manager_tags[j] == kept[i];
                assert(t.prompt_manager_tags.map_values(link_manager())[j]
                    == kept[i].prompt_manager_id);
            }
            let tags = kept.map_values(link_tag());
            assert forall|i: int| 0 <= i < tags.len() implies 0 < #[trigger] tags[i]
                <= t.last_tag_id by {
                t.prompt_manager_tags.lemma_filter_contains_rev(link_of_other(m), kept[i]);
                let j = choose|j: int|
                    0 <= j < t.prompt_manager_tags.len() && t.prompt_manager_tags[j] == kept[i];
                assert(t.prompt_manager_tags.map_values(link_tag())[j] == kept[i].tag_id);
            }
        },
        StatementView::InsertManagerTag { manager_id: m, tag_id: tag } => {
            if inserted {
                lemma_found_key(t.tags, tag_id(), tag_with_id(tag), t.last_tag_id);
                lemma_first_match(t.tags, tag_with_id(tag));
                assert(after.prompt_manager_tags.map_values(link_tag())
                    =~= t.prompt_manager_tags.map_values(link_tag()).push(tag));
                lemma_found_key(
                    t.prompt_managers,
                    manager_id(),
                    manager_with_id(m),
                    t.last_prompt_manager_id,
                );
                lemma_first_match(t.prompt_managers, manager_with_id(m));
                assert(after.prompt_manager_tags.map_values(link_manager())
                    =~= t.prompt_manager_tags.map_values(link_manager()).push(m));
            }
        },
        StatementView::InsertSetting { manager_id, current_version } => {
            if inserted {
                let id = (t.last_setting_id + 1) as i32;
                lemma_keys_push(t.settings.map_values(setting_id()), t.last_setting_id, id);
                assert(after.settings.map_values(setting_id()) =~= t.settings.map_values(
                    setting_id(),
                ).push(id));
                lemma_handed_out_more(
                    t.versions.map_values(version_setting()),
                    t.last_setting_id,
                    id,
                );
            }
        },
        StatementView::InsertSettingVersion { setting_id: s, version, system_prompt } => {
            if inserted {
                let id = (t.last_version_id + 1) as i32;
                lemma_found_key(t.settings, setting_id(), setting_with_id(s), t.last_setting_id);
                lemma_first_match(t.settings, setting_with_id(s));
                lemma_keys_push(t.versions.map_values(version_id()), t.last_version_id, id);
                assert(after.versions.map_values(version_id()) =~= t.versions.map_values(
                    version_id(),
                ).push(id));
                assert(after.versions.map_values(version_setting()) =~= t.versions.map_values(
                    version_setting(),
                ).push(s));
            }
        },
        StatementView::InsertRun { run } => {
            if inserted {
                let id = (t.last_run_id + 1) as i32;
                lemma_keys_push(t.runs.map_values(run_id()), t.last_run_id, id);
                assert(after.runs.map_values(run_id()) =~= t.runs.map_values(run_id()).push(id));
            }
        },
        _ => {},
    }
}

/// The store keeps its integrity whatever statement is run.
pub proof fn lemma_execute_wf(db: Database, statement: StatementView)
    requires
        db.wf(),
    ensures
        db.execute(statement).0.wf(),
{
    lemma_tables_execute_wf(db.tables, statement);
}

} // verus!
