//! An engine in memory that runs the statements as the model says.

use crate::common::selection::{
    first_match, lemma_filter_step, lemma_first_match_at, lemma_first_match_none,
};
use crate::common::text::{lemma_views_push, views};
use crate::domain::prompt_manager::ActionType;
use crate::infra::storage::integrity::lemma_execute_wf;
use crate::infra::storage::rows::{
    ComparingPromptRunRow, ComparingPromptSettingRow, ComparingPromptSettingRowView,
    ComparingPromptSettingVersionRow, ComparingPromptSettingVersionRowView, ManagerWithTags,
    PromptManagerRow, PromptManagerRowView, PromptManagerTagRow, SettingWithVersions, TagRow,
};
use crate::infra::storage::statement::{opt_view, Reply, Statement};
use crate::infra::storage::tables::{
    Database, link_of_other, manager_live, manager_with_id, other_than, run_of, run_with_id,
    same_as, setting_live_of, setting_of, setting_with_id, Tables, tag_linked_to, tag_with_id,
    tag_with_value, version_numbered, version_of,
};
use vstd::prelude::*;

verus! {

/// The first manager with this id.
fn find_manager(rows: &Vec<PromptManagerRow>, id: i32) -> (found: Option<PromptManagerRow>)
    ensures
        opt_view(found) == first_match(views(rows@), manager_with_id(id)),
{
    let mut i: usize = 0;
    while i < rows.len()
        invariant
            i <= rows.len(),
            forall|j: int| 0 <= j < i ==> !manager_with_id(id)(#[trigger] views(rows@)[j]),
        decreases rows.len() - i,
    {
        if rows[i].id == id {
            proof {
                lemma_first_match_at(views(rows@), manager_with_id(id), i as int);
            }
            return Some(rows[i].clone());
        }
        i += 1;
    }
    proof {
        lemma_first_match_none(views(rows@), manager_with_id(id));
    }
    None
}

/// The first tag with this id.
fn find_tag(rows: &Vec<TagRow>, id: i32) -> (found: Option<TagRow>)
    ensures
        opt_view(found) == first_match(views(rows@), tag_with_id(id)),
{
    let mut i: usize = 0;
    while i < rows.len()
        invariant
            i <= rows.len(),
            forall|j: int| 0 <= j < i ==> !tag_with_id(id)(#[trigger] views(rows@)[j]),
        decreases rows.len() - i,
    {
        if rows[i].id == id {
            proof {
                lemma_first_match_at(views(rows@), tag_with_id(id), i as int);
            }
            return Some(rows[i].clone());
        }
        i += 1;
    }
    proof {
        lemma_first_match_none(views(rows@), tag_with_id(id));
    }
    None
}

/// The first setting with this id.
fn find_setting(rows: &Vec<ComparingPromptSettingRow>, id: i32) -> (found: Option<
    ComparingPromptSettingRow,
>)
    ensures
        opt_view(found) == first_match(views(rows@), setting_with_id(id)),
{
    let mut i: usize = 0;
    while i < rows.len()
        invariant
            i <= rows.len(),
            forall|j: int| 0 <= j < i ==> !setting_with_id(id)(#[trigger] views(rows@)[j]),
        decreases rows.len() - i,
    {
        if rows[i].id == id {
            proof {
                lemma_first_match_at(views(rows@), setting_with_id(id), i as int);
            }
            return Some(rows[i].clone());
        }
        i += 1;
    }
    proof {
        lemma_first_match_none(views(rows@), setting_with_id(id));
    }
    None
}

/// The first setting of this manager.
fn find_setting_of(rows: &Vec<ComparingPromptSettingRow>, manager_id: i32) -> (found: Option<
    ComparingPromptSettingRow,
>)
    ensures
        opt_view(found) == first_match(views(rows@), setting_of(manager_id)),
{
    let mut i: usize = 0;
    while i < rows.len()
        invariant
            i <= rows.len(),
            forall|j: int| 0 <= j < i ==> !setting_of(manager_id)(#[trigger] views(rows@)[j]),
        decreases rows.len() - i,
    {
        if rows[i].manager_id == manager_id {
            proof {
                lemma_first_match_at(views(rows@), setting_of(manager_id), i as int);
            }
            return Some(rows[i].clone());
        }
        i += 1;
    }
    proof {
        lemma_first_match_none(views(rows@), setting_of(manager_id));
    }
    None
}

/// The first version of this setting with this number.
fn find_version(
    rows: &Vec<ComparingPromptSettingVersionRow>,
    setting_id: i32,
    version: i32,
) -> (found: Option<ComparingPromptSettingVersionRow>)
    ensures
        opt_view(found) == first_match(views(rows@), version_numbered(setting_id, version)),
{
    let mut i: usize = 0;
    while i < rows.len()
        invariant
            i <= rows.len(),
            forall|j: int|
                0 <= j < i ==> !version_numbered(setting_id, version)(#[trigger] views(rows@)[j]),
        decreases rows.len() - i,
    {
        if rows[i].setting_id == setting_id && rows[i].version == version {
            proof {
                lemma_first_match_at(views(rows@), version_numbered(setting_id, version), i as int);
            }
            return Some(rows[i].clone());
        }
        i += 1;
    }
    proof {
        lemma_first_match_none(views(rows@), version_numbered(setting_id, version));
    }
    None
}

/// The first run with this id.
fn find_run(rows: &Vec<ComparingPromptRunRow>, id: i32) -> (found: Option<ComparingPromptRunRow>)
    ensures
        opt_view(found) == first_match(views(rows@), run_with_id(id)),
{
    let mut i: usize = 0;
    while i < rows.len()
        invariant
            i <= rows.len(),
            forall|j: int| 0 <= j < i ==> !run_with_id(id)(#[trigger] views(rows@)[j]),
        decreases rows.len() - i,
    {
        if rows[i].id == id {
            proof {
                lemma_first_match_at(views(rows@), run_with_id(id), i as int);
            }
            return Some(rows[i].clone());
        }
        i += 1;
    }
    proof {
        lemma_first_match_none(views(rows@), run_with_id(id));
    }
    None
}

/// The first run of this manager.
fn find_run_of(rows: &Vec<ComparingPromptRunRow>, manager_id: i32) -> (found: Option<
    ComparingPromptRunRow,
>)
    ensures
        opt_view(found) == first_match(views(rows@), run_of(manager_id)),
{
    let mut i: usize = 0;
    while i < rows.len()
        invariant
            i <= rows.len(),
            forall|j: int| 0 <= j < i ==> !run_of(manager_id)(#[trigger] views(rows@)[j]),
        decreases rows.len() - i,
    {
        if rows[i].manager_id == manager_id {
            proof {
                lemma_first_match_at(views(rows@), run_of(manager_id), i as int);
            }
            return Some(rows[i].clone());
        }
        i += 1;
    }
    proof {
        lemma_first_match_none(views(rows@), run_of(manager_id));
    }
    None
}

/// The first tag with this value.
fn find_tag_by_value(rows: &Vec<TagRow>, value: &String) -> (found: Option<TagRow>)
    ensures
        opt_view(found) == first_match(views(rows@), tag_with_value(value@)),
{
    let mut i: usize = 0;
    while i < rows.len()
        invariant
            i <= rows.len(),
            forall|j: int| 0 <= j < i ==> !tag_with_value(value@)(#[trigger] views(rows@)[j]),
        decreases rows.len() - i,
    {
        if rows[i].value == *value {
            proof {
                lemma_first_match_at(views(rows@), tag_with_value(value@), i as int);
            }
            return Some(rows[i].clone());
        }
        i += 1;
    }
    proof {
        lemma_first_match_none(views(rows@), tag_with_value(value@));
    }
    None
}

/// Whether the extension table holds this manager.
fn holds_manager(rows: &Vec<i32>, manager_id: i32) -> (found: bool)
    ensures
        found == (first_match(rows@, same_as(manager_id)) is Some),
{
    let mut i: usize = 0;
    while i < rows.len()
        invariant
            i <= rows.len(),
            forall|j: int| 0 <= j < i ==> !same_as(manager_id)(#[trigger] rows@[j]),
        decreases rows.len() - i,
    {
        if rows[i] == manager_id {
            proof {
                lemma_first_match_at(rows@, same_as(manager_id), i as int);
            }
            return true;
        }
        i += 1;
    }
    proof {
        lemma_first_match_none(rows@, same_as(manager_id));
    }
    false
}

/// The extension table without this manager.
fn without_manager(rows: &Vec<i32>, manager_id: i32) -> (kept: Vec<i32>)
    ensures
        kept@ == rows@.filter(other_than(manager_id)),
{
    let mut kept: Vec<i32> = Vec::new();
    let mut i: usize = 0;
    assert(rows@.take(0).filter(other_than(manager_id)) == Seq::<i32>::empty()) by {
        lemma_first_match_none(rows@.take(0), other_than(manager_id));
    }
    while i < rows.len()
        invariant
            i <= rows.len(),
            kept@ == rows@.take(i as int).filter(other_than(manager_id)),
        decreases rows.len() - i,
    {
        proof {
            lemma_filter_step(rows@, other_than(manager_id), i as int);
        }
        if rows[i] != manager_id {
            kept.push(rows[i]);
        }
        i += 1;
    }
    assert(rows@.take(rows.len() as int) == rows@);
    kept
}

/// The associations of every manager but this one.
fn without_links_of(rows: &Vec<PromptManagerTagRow>, manager_id: i32) -> (kept: Vec<
    PromptManagerTagRow,
>)
    ensures
        kept@ == rows@.filter(link_of_other(manager_id)),
{
    let mut kept: Vec<PromptManagerTagRow> = Vec::new();
    let mut i: usize = 0;
    assert(rows@.take(0).filter(link_of_other(manager_id)) == Seq::<
        PromptManagerTagRow,
    >::empty()) by {
        lemma_first_match_none(rows@.take(0), link_of_other(manager_id));
    }
    while i < rows.len()
        invariant
            i <= rows.len(),
            kept@ == rows@.take(i as int).filter(link_of_other(manager_id)),
        decreases rows.len() - i,
    {
        proof {
            lemma_filter_step(rows@, link_of_other(manager_id), i as int);
        }
        if rows[i].prompt_manager_id != manager_id {
            kept.push(rows[i]);
        }
        i += 1;
    }
    assert(rows@.take(rows.len() as int) == rows@);
    kept
}

/// The versions of this setting.
fn versions_of(rows: &Vec<ComparingPromptSettingVersionRow>, setting_id: i32) -> (kept: Vec<
    ComparingPromptSettingVersionRow,
>)
    ensures
        views(kept@) == views(rows@).filter(version_of(setting_id)),
{
    let mut kept: Vec<ComparingPromptSettingVersionRow> = Vec::new();
    let mut i: usize = 0;
    let ghost all = views(rows@);
    assert(all.take(0).filter(version_of(setting_id)) == Seq::<
        ComparingPromptSettingVersionRowView,
    >::empty()) by {
        lemma_first_match_none(all.take(0), version_of(setting_id));
    }
    while i < rows.len()
        invariant
            i <= rows.len(),
            all == views(rows@),
            views(kept@) == all.take(i as int).filter(version_of(setting_id)),
        decreases rows.len() - i,
    {
        proof {
            lemma_filter_step(all, version_of(setting_id), i as int);
        }
        if rows[i].setting_id == setting_id {
            proof {
                lemma_views_push(kept@, rows@[i as int]);
            }
            kept.push(rows[i].clone());
        }
        i += 1;
    }
    assert(all.take(rows.len() as int) == all);
    kept
}

/// Puts `row` in place of every manager that has its id.
fn replace_manager(rows: &mut Vec<PromptManagerRow>, row: &PromptManagerRow)
    ensures
        views(final(rows)@) == views(old(rows)@).map_values(Tables::replaced_by(row@)),
{
    let ghost before = views(rows@);
    let mut i: usize = 0;
    while i < rows.len()
        invariant
            i <= rows.len(),
            rows@.len() == before.len(),
            forall|j: int| 0 <= j < i ==> views(rows@)[j] == Tables::replaced_by(row@)(before[j]),
            forall|j: int| i <= j < rows.len() ==> views(rows@)[j] == before[j],
        decreases rows.len() - i,
    {
        let ghost previous = views(rows@);
        assert(previous[i as int] == before[i as int]);
        if rows[i].id == row.id {
            rows.set(i, row.clone());
        }
        assert forall|j: int| 0 <= j < rows.len() implies #[trigger] views(rows@)[j] == (if j
            == i {
            Tables::replaced_by(row@)(before[j])
        } else {
            previous[j]
        }) by {
            assert(views(rows@)[j] == rows@[j]@);
        }
        i += 1;
    }
    assert(views(rows@) =~= before.map_values(Tables::replaced_by(row@)));
}

/// The tables of the engine.
#[derive(Debug)]
struct MemoryTables {
    prompt_managers: Vec<PromptManagerRow>,
    last_prompt_manager_id: i32,
    tags: Vec<TagRow>,
    last_tag_id: i32,
    prompt_manager_tags: Vec<PromptManagerTagRow>,
    last_prompt_manager_tag_id: i32,
    comparing_prompt_managers: Vec<i32>,
    comparing_model_managers: Vec<i32>,
    settings: Vec<ComparingPromptSettingRow>,
    last_setting_id: i32,
    versions: Vec<ComparingPromptSettingVersionRow>,
    last_version_id: i32,
    runs: Vec<ComparingPromptRunRow>,
    last_run_id: i32,
}

impl View for MemoryTables {
    type V = Tables;

    closed spec fn view(&self) -> Tables {
        Tables {
            prompt_managers: views(self.prompt_managers@),
            last_prompt_manager_id: self.last_prompt_manager_id,
            tags: views(self.tags@),
            last_tag_id: self.last_tag_id,
            prompt_manager_tags: self.prompt_manager_tags@,
            last_prompt_manager_tag_id: self.last_prompt_manager_tag_id,
            comparing_prompt_managers: self.comparing_prompt_managers@,
            comparing_model_managers: self.comparing_model_managers@,
            settings: views(self.settings@),
            last_setting_id: self.last_setting_id,
            versions: views(self.versions@),
            last_version_id: self.last_version_id,
            runs: views(self.runs@),
            last_run_id: self.last_run_id,
        }
    }
}

impl Clone for MemoryTables {
    fn clone(&self) -> (copy: Self)
        ensures
            copy@ == self@,
    {
        let prompt_managers = self.prompt_managers.clone();
        let tags = self.tags.clone();
        let prompt_manager_tags = self.prompt_manager_tags.clone();
        let comparing_prompt_managers = self.comparing_prompt_managers.clone();
        let comparing_model_managers = self.comparing_model_managers.clone();
        let settings = self.settings.clone();
        let versions = self.versions.clone();
        let runs = self.runs.clone();
        MemoryTables {
            prompt_managers,
            last_prompt_manager_id: self.last_prompt_manager_id,
            tags,
            last_tag_id: self.last_tag_id,
            prompt_manager_tags,
            last_prompt_manager_tag_id: self.last_prompt_manager_tag_id,
            comparing_prompt_managers,
            comparing_model_managers,
            settings,
            last_setting_id: self.last_setting_id,
            versions,
            last_version_id: self.last_version_id,
            runs,
            last_run_id: self.last_run_id,
        }
    }
}

impl MemoryTables {
    fn new() -> (tables: Self)
        ensures
            tables@ == Tables::empty(),
    {
        let tables = MemoryTables {
            prompt_managers: Vec::new(),
            last_prompt_manager_id: 0,
            tags: Vec::new(),
            last_tag_id: 0,
            prompt_manager_tags: Vec::new(),
            last_prompt_manager_tag_id: 0,
            comparing_prompt_managers: Vec::new(),
            comparing_model_managers: Vec::new(),
            settings: Vec::new(),
            last_setting_id: 0,
            versions: Vec::new(),
            last_version_id: 0,
            runs: Vec::new(),
            last_run_id: 0,
        };
        assert(tables@.prompt_managers =~= Seq::empty());
        assert(tables@.tags =~= Seq::empty());
        assert(tables@.settings =~= Seq::empty());
        assert(tables@.versions =~= Seq::empty());
        assert(tables@.runs =~= Seq::empty());
        tables
    }

    fn attached(&self, action_type: ActionType, manager_id: i32) -> (held: bool)
        ensures
            held == self@.attached(action_type, manager_id),
    {
        match action_type {
            ActionType::ComparingPrompt => holds_manager(
                &self.comparing_prompt_managers,
                manager_id,
            ),
            ActionType::ComparingModel => holds_manager(&self.comparing_model_managers, manager_id),
        }
    }

    fn extension_in_use(&self, action_type: ActionType, manager_id: i32) -> (used: bool)
        ensures
            used == self@.extension_in_use(action_type, manager_id),
    {
        match action_type {
            ActionType::ComparingPrompt => {
                find_setting_of(&self.settings, manager_id).is_some() || find_run_of(
                    &self.runs,
                    manager_id,
                ).is_some()
            },
            ActionType::ComparingModel => false,
        }
    }

    fn tags_of(&self, manager_id: i32) -> (found: Vec<TagRow>)
        ensures
            views(found@) == self@.tags_of(manager_id),
    {
        let mut found: Vec<TagRow> = Vec::new();
        let ghost links = self.prompt_manager_tags@;
        let ghost pick = tag_linked_to(self@.tags, manager_id);
        let mut i: usize = 0;
        while i < self.prompt_manager_tags.len()
            invariant
                i <= self.prompt_manager_tags.len(),
                links == self.prompt_manager_tags@,
                pick == tag_linked_to(self@.tags, manager_id),
                views(found@) == links.take(i as int).filter_map(pick),
            decreases self.prompt_manager_tags.len() - i,
        {
            proof {
                links.lemma_filter_map_take_succ(pick, i as int);
            }
            let link = self.prompt_manager_tags[i];
            if link.prompt_manager_id == manager_id {
                match find_tag(&self.tags, link.tag_id) {
                    Some(tag) => {
                        proof {
                            lemma_views_push(found@, tag);
                        }
                        found.push(tag);
                    },
                    None => {},
                }
            }
            i += 1;
        }
        assert(links.take(links.len() as int) == links);
        found
    }

    fn active_managers(&self) -> (found: Vec<ManagerWithTags>)
        ensures
            views(found@) == self@.prompt_managers.filter(manager_live()).map_values(
                self@.with_tags(),
            ),
    {
        let mut found: Vec<ManagerWithTags> = Vec::new();
        let ghost all = self@.prompt_managers;
        let ghost join = self@.with_tags();
        let mut i: usize = 0;
        assert(all.take(0).filter(manager_live()) == Seq::<PromptManagerRowView>::empty()) by {
            lemma_first_match_none(all.take(0), manager_live());
        }
        while i < self.prompt_managers.len()
            invariant
                i <= self.prompt_managers.len(),
                all == self@.prompt_managers,
                all == views(self.prompt_managers@),
                join == self@.with_tags(),
                views(found@) == all.take(i as int).filter(manager_live()).map_values(join),
            decreases self.prompt_managers.len() - i,
        {
            proof {
                lemma_filter_step(all, manager_live(), i as int);
            }
            if self.prompt_managers[i].deleted_at.is_none() {
                let manager = self.prompt_managers[i].clone();
                let tags = self.tags_of(manager.id);
                let entry = ManagerWithTags { manager, tags };
                proof {
                    lemma_views_push(found@, entry);
                    all.take(i as int).filter(manager_live()).lemma_push_map_commute(
                        join,
                        all[i as int],
                    );
                }
                found.push(entry);
            }
            i += 1;
        }
        assert(all.take(all.len() as int) == all);
        found
    }

    fn settings_of(&self, manager_id: i32) -> (found: Vec<SettingWithVersions>)
        ensures
            views(found@) == self@.settings.filter(setting_live_of(manager_id)).map_values(
                self@.with_versions(),
            ),
    {
        let mut found: Vec<SettingWithVersions> = Vec::new();
        let ghost all = self@.settings;
        let ghost join = self@.with_versions();
        let ghost wanted = setting_live_of(manager_id);
        let mut i: usize = 0;
        assert(all.take(0).filter(wanted) == Seq::<
            ComparingPromptSettingRowView,
        >::empty()) by {
            lemma_first_match_none(all.take(0), wanted);
        }
        while i < self.settings.len()
            invariant
                i <= self.settings.len(),
                all == self@.settings,
                all == views(self.settings@),
                join == self@.with_versions(),
                wanted == setting_live_of(manager_id),
                views(found@) == all.take(i as int).filter(wanted).map_values(join),
            decreases self.settings.len() - i,
        {
            proof {
                lemma_filter_step(all, wanted, i as int);
            }
            if self.settings[i].manager_id == manager_id && self.settings[i].deleted_at.is_none() {
                let setting = self.settings[i].clone();
                let versions = versions_of(&self.versions, setting.id);
                let entry = SettingWithVersions { setting, versions };
                proof {
                    lemma_views_push(found@, entry);
                    all.take(i as int).filter(wanted).lemma_push_map_commute(join, all[i as int]);
                }
                found.push(entry);
            }
            i += 1;
        }
        assert(all.take(all.len() as int) == all);
        found
    }

    fn insert_manager(&mut self, title: &String) -> (reply: Reply)
        ensures
            (final(self)@, reply@) == old(self)@.insert_manager(title@),
    {
        if self.last_prompt_manager_id < i32::MAX {
            let id: i32 = self.last_prompt_manager_id + 1;
            let row = PromptManagerRow {
                id,
                title: title.clone(),
                action_type: None,
                api_type: None,
                deleted_at: None,
            };
            proof {
                lemma_views_push(self.prompt_managers@, row);
            }
            self.prompt_managers.push(row);
            self.last_prompt_manager_id = id;
            Reply::Inserted(id)
        } else {
            Reply::Failed("database or disk is full".to_string())
        }
    }

    fn update_manager(&mut self, row: &PromptManagerRow) -> (reply: Reply)
        ensures
            (final(self)@, reply@) == old(self)@.update_manager(row@),
    {
        if find_manager(&self.prompt_managers, row.id).is_some() {
            replace_manager(&mut self.prompt_managers, row);
            Reply::Done
        } else {
            Reply::Failed("None of the records are updated".to_string())
        }
    }

    fn delete_extension(&mut self, action_type: ActionType, manager_id: i32) -> (reply: Reply)
        ensures
            (final(self)@, reply@) == old(self)@.delete_extension(action_type, manager_id),
    {
        if self.attached(action_type, manager_id) && self.extension_in_use(
            action_type,
            manager_id,
        ) {
            Reply::Failed("FOREIGN KEY constraint failed".to_string())
        } else {
            match action_type {
                ActionType::ComparingPrompt => {
                    self.comparing_prompt_managers = without_manager(
                        &self.comparing_prompt_managers,
                        manager_id,
                    );
                },
                ActionType::ComparingModel => {
                    self.comparing_model_managers = without_manager(
                        &self.comparing_model_managers,
                        manager_id,
                    );
                },
            }
            Reply::Done
        }
    }

    fn insert_extension(&mut self, action_type: ActionType, manager_id: i32) -> (reply: Reply)
        ensures
            (final(self)@, reply@) == old(self)@.insert_extension(action_type, manager_id),
    {
        if self.attached(action_type, manager_id) {
            Reply::Conflict("UNIQUE constraint failed".to_string())
        } else if find_manager(&self.prompt_managers, manager_id).is_none() {
            Reply::Failed("FOREIGN KEY constraint failed".to_string())
        } else {
            match action_type {
                ActionType::ComparingPrompt => {
                    self.comparing_prompt_managers.push(manager_id);
                },
                ActionType::ComparingModel => {
                    self.comparing_model_managers.push(manager_id);
                },
            }
            Reply::Done
        }
    }

    fn insert_tag(&mut self, value: &String) -> (reply: Reply)
        ensures
            (final(self)@, reply@) == old(self)@.insert_tag(value@),
    {
        if self.last_tag_id >= i32::MAX {
            Reply::Failed("database or disk is full".to_string())
        } else if find_tag_by_value(&self.tags, value).is_some() {
            Reply::Conflict("UNIQUE constraint failed".to_string())
        } else {
            let id: i32 = self.last_tag_id + 1;
            let row = TagRow { id, value: value.clone() };
            proof {
                lemma_views_push(self.tags@, row);
            }
            self.tags.push(row);
            self.last_tag_id = id;
            Reply::Inserted(id)
        }
    }

    fn delete_manager_tags(&mut self, manager_id: i32) -> (reply: Reply)
        ensures
            (final(self)@, reply@) == old(self)@.delete_manager_tags(manager_id),
    {
        self.prompt_manager_tags = without_links_of(&self.prompt_manager_tags, manager_id);
        Reply::Done
    }

    fn insert_manager_tag(&mut self, manager_id: i32, tag_id: i32) -> (reply: Reply)
        ensures
            (final(self)@, reply@) == old(self)@.insert_manager_tag(manager_id, tag_id),
    {
        if self.last_prompt_manager_tag_id >= i32::MAX {
            Reply::Failed("database or disk is full".to_string())
        } else if find_manager(&self.prompt_managers, manager_id).is_none() || find_tag(
            &self.tags,
            tag_id,
        ).is_none() {
            Reply::Failed("FOREIGN KEY constraint failed".to_string())
        } else {
            let id: i32 = self.last_prompt_manager_tag_id + 1;
            self.prompt_manager_tags.push(
                PromptManagerTagRow { id, prompt_manager_id: manager_id, tag_id },
            );
            self.last_prompt_manager_tag_id = id;
            Reply::Inserted(id)
        }
    }

    fn insert_setting(&mut self, manager_id: i32, current_version: i32) -> (reply: Reply)
        ensures
            (final(self)@, reply@) == old(self)@.insert_setting(manager_id, current_version),
    {
        if self.last_setting_id >= i32::MAX {
            Reply::Failed("database or disk is full".to_string())
        } else if !self.attached(ActionType::ComparingPrompt, manager_id) {
            Reply::Failed("FOREIGN KEY constraint failed".to_string())
        } else {
            let id: i32 = self.last_setting_id + 1;
            let row = ComparingPromptSettingRow {
                id,
                manager_id,
                current_version,
                deleted_at: None,
            };
            proof {
                lemma_views_push(self.settings@, row);
            }
            self.settings.push(row);
            self.last_setting_id = id;
            Reply::Inserted(id)
        }
    }

    fn insert_setting_version(
        &mut self,
        setting_id: i32,
        version: i32,
        system_prompt: &String,
    ) -> (reply: Reply)
        ensures
            (final(self)@, reply@) == old(self)@.insert_setting_version(
                setting_id,
                version,
                system_prompt@,
            ),
    {
        if self.last_version_id >= i32::MAX {
            Reply::Failed("database or disk is full".to_string())
        } else if find_version(&self.versions, setting_id, version).is_some() {
            Reply::Conflict("UNIQUE constraint failed".to_string())
        } else if find_setting(&self.settings, setting_id).is_none() {
            Reply::Failed("FOREIGN KEY constraint failed".to_string())
        } else {
            let id: i32 = self.last_version_id + 1;
            let row = ComparingPromptSettingVersionRow {
                id,
                setting_id,
                version,
                system_prompt: system_prompt.clone(),
            };
            proof {
                lemma_views_push(self.versions@, row);
            }
            self.versions.push(row);
            self.last_version_id = id;
            Reply::Inserted(id)
        }
    }

    fn insert_run(&mut self, run: &ComparingPromptRunRow) -> (reply: Reply)
        ensures
            (final(self)@, reply@) == old(self)@.insert_run(run@),
    {
        if self.last_run_id >= i32::MAX {
            Reply::Failed("database or disk is full".to_string())
        } else if !self.attached(ActionType::ComparingPrompt, run.manager_id) {
            Reply::Failed("FOREIGN KEY constraint failed".to_string())
        } else {
            let id: i32 = self.last_run_id + 1;
            let mut row = run.clone();
            row.id = id;
            proof {
                lemma_views_push(self.runs@, row);
            }
            self.runs.push(row);
            self.last_run_id = id;
            Reply::Inserted(id)
        }
    }

    fn execute(&mut self, statement: &Statement) -> (reply: Reply)
        ensures
            (final(self)@, reply@) == old(self)@.execute(statement@),
    {
        match statement {
            Statement::FindManager { id } => Reply::Manager(
                find_manager(&self.prompt_managers, *id),
            ),
            Statement::FindTagsOfManager { manager_id } => Reply::Tags(self.tags_of(*manager_id)),
            Statement::FindActiveManagers => Reply::Managers(self.active_managers()),
            Statement::InsertManager { title } => self.insert_manager(title),
            Statement::UpdateManager { row } => self.update_manager(row),
            Statement::DeleteExtension { action_type, manager_id } => self.delete_extension(
                *action_type,
                *manager_id,
            ),
            Statement::InsertExtension { action_type, manager_id } => self.insert_extension(
                *action_type,
                *manager_id,
            ),
            Statement::FindTag { value } => Reply::Tag(find_tag_by_value(&self.tags, value)),
            Statement::InsertTag { value } => self.insert_tag(value),
            Statement::DeleteManagerTags { manager_id } => self.delete_manager_tags(*manager_id),
            Statement::InsertManagerTag { manager_id, tag_id } => self.insert_manager_tag(
                *manager_id,
                *tag_id,
            ),
            Statement::InsertSetting { manager_id, current_version } => self.insert_setting(
                *manager_id,
                *current_version,
            ),
            Statement::InsertSettingVersion { setting_id, version, system_prompt } => {
                self.insert_setting_version(*setting_id, *version, system_prompt)
            },
            Statement::FindSetting { id } => Reply::Setting(find_setting(&self.settings, *id)),
            Statement::FindSettingVersion { setting_id, version } => Reply::Version(
                find_version(&self.versions, *setting_id, *version),
            ),
            Statement::FindSettingsOfManager { manager_id } => Reply::Settings(
                self.settings_of(*manager_id),
            ),
            Statement::InsertRun { run } => self.insert_run(run),
            Statement::FindRun { id } => Reply::Run(find_run(&self.runs, *id)),
            Statement::Begin | Statement::Commit | Statement::Rollback => Reply::Failed(
                "no transaction is active".to_string(),
            ),
        }
    }
}

/// A storage engine in memory. It runs every statement as the model says,
/// so that a plan can be run, and proved, without a database.
#[derive(Debug)]
pub struct MemoryStore {
    tables: MemoryTables,
    saved: Option<MemoryTables>,
}

impl View for MemoryStore {
    type V = Database;

    closed spec fn view(&self) -> Database {
        Database { tables: self.tables@, saved: opt_view(self.saved) }
    }
}

impl MemoryStore {
    /// A store with nothing in it and no transaction open.
    pub fn new() -> (store: Self)
        ensures
            store@ == Database::empty(),
            store@.wf(),
    {
        MemoryStore { tables: MemoryTables::new(), saved: None }
    }

    /// Runs one statement. The store keeps its integrity.
    pub fn execute(&mut self, statement: &Statement) -> (reply: Reply)
        ensures
            (final(self)@, reply@) == old(self)@.execute(statement@),
            old(self)@.wf() ==> final(self)@.wf(),
    {
        proof {
            if self@.wf() {
                lemma_execute_wf(self@, statement@);
            }
        }
        match statement {
            Statement::Begin => {
                if self.saved.is_some() {
                    Reply::Failed("cannot start a transaction within a transaction".to_string())
                } else {
                    self.saved = Some(self.tables.clone());
                    Reply::Done
                }
            },
            Statement::Commit => {
                if self.saved.is_some() {
                    self.saved = None;
                    Reply::Done
                } else {
                    Reply::Failed("no transaction is active".to_string())
                }
            },
            Statement::Rollback => {
                match self.saved.take() {
                    Some(tables) => {
                        self.tables = tables;
                        Reply::Done
                    },
                    None => Reply::Failed("no transaction is active".to_string()),
                }
            },
            _ => self.tables.execute(statement),
        }
    }
}

} // verus!
