//! What holds of the repository operations taken together.
//!
//! The laws are stated over the model of the store, so they hold of every
//! run against storage that behaves as the model does, the engine in memory
//! among them.

use crate::common::errors::ApplicationErrorView;
use crate::common::selection::{
    first_match, increasing, lemma_filter_increasing, lemma_filter_map_after_filter,
    lemma_filter_map_agree, lemma_filter_map_passed_over, lemma_first_match, lemma_first_match_at,
    lemma_first_match_none, lemma_found_if_present,
};
use crate::domain::comparing_prompt::{
    ComparingPromptSettingModelView, ComparingPromptSettingRunModelView,
    ComparingPromptSettingVersionModelView,
};
use crate::domain::prompt_manager::{ActionType, APIType, PromptManagerModelView};
use crate::infra::repository::comparing_prompt_setting::{
    entry_live, found_comparing_prompt_settings_spec, setting_model, version_model,
};
use crate::infra::repository::outcome::{
    after_attach, after_clear, after_detach, after_resolve, after_write,
    create_comparing_prompt_run_outcome, create_comparing_prompt_setting_outcome,
    create_prompt_manager_outcome, find_all_comparing_prompt_settings_outcome,
    find_all_prompt_managers_outcome, find_comparing_prompt_run_outcome,
    find_comparing_prompt_setting_outcome, find_prompt_manager_outcome, link_row,
    logical_delete_prompt_manager_outcome, stored_action, update_outcome, updated,
};
use crate::infra::repository::prompt_manager::{models_of, parsed_action, value_of};
use crate::infra::repository::support::{
    lemma_absent_from_extension, lemma_fresh_key, lemma_no_tags_of, lemma_occurrences_without,
    lemma_replace_keeps_others, lemma_resolve_all, lemma_tags_of_linked, lemma_updated_extensions,
    value_under,
};
use crate::infra::repository::update::PromptManagerUpdateView;
use crate::infra::storage::integrity::{
    lemma_found_key, lemma_tables_execute_wf, link_manager, link_tag, manager_id, run_id,
    setting_id, tag_id, tag_value, version_setting,
};
use crate::infra::storage::rows::{
    ComparingPromptSettingRowView, ManagerWithTagsView, PromptManagerRowView,
    SettingWithVersionsView, TagRowView,
};
use crate::infra::storage::statement::{ReplyView, StatementView};
use crate::infra::storage::tables::{
    Database, link_of_other, manager_live, manager_with_id, run_with_id, same_as, setting_live_of,
    setting_with_id, Tables, tag_linked_to, tag_with_id, version_numbered, version_of,
};
use vstd::prelude::*;

verus! {

/// How often a manager stands in an extension table.
pub open spec fn occurrences(rows: Seq<i32>, manager_id: i32) -> nat {
    rows.filter(same_as(manager_id)).len()
}

/// One manager and its extension rows agree: the stored action name stands
/// for an action or for none, the table of that action holds the manager
/// once, and no other table holds it.
pub open spec fn manager_consistent(t: Tables, row: PromptManagerRowView) -> bool {
    match parsed_action(row.action_type) {
        Ok(action) => {
            &&& occurrences(t.comparing_prompt_managers, row.id) == if action == Some(
                ActionType::ComparingPrompt,
            ) {
                1nat
            } else {
                0nat
            }
            &&& occurrences(t.comparing_model_managers, row.id) == if action == Some(
                ActionType::ComparingModel,
            ) {
                1nat
            } else {
                0nat
            }
        },
        Err(_) => false,
    }
}

/// Every manager and its extension rows agree.
pub open spec fn consistent(t: Tables) -> bool {
    forall|i: int|
        0 <= i < t.prompt_managers.len() ==> manager_consistent(t, #[trigger] t.prompt_managers[i])
}

/// Every setting points at exactly one of its versions: one version of the
/// setting, and no more, has the number that the setting names as current.
pub open spec fn versioned(t: Tables) -> bool {
    forall|i: int|
        0 <= i < t.settings.len() ==> t.versions.filter(
            version_numbered((#[trigger] t.settings[i]).id, t.settings[i].current_version),
        ).len() == 1
}

/// What is seen of a manager: its title, its action, its API and the set of
/// its tag values, or the error that finding it gives.
pub open spec fn seen(t: Tables, id: i32) -> Result<
    (Seq<char>, Option<ActionType>, Option<APIType>, Set<Seq<char>>),
    ApplicationErrorView,
> {
    match find_prompt_manager_outcome(t, id) {
        Ok(m) => Ok((m.title, m.action_type, m.api_type, m.tags.to_set())),
        Err(e) => Err(e),
    }
}

/// In the empty store every manager and its extension rows agree.
pub proof fn lemma_empty_consistent()
    ensures
        consistent(Tables::empty()),
{
}

/// A manager that was just created is found with no action and no tags.
pub proof fn lemma_created_manager_is_bare(t: Tables, title: Seq<char>)
    requires
        t.wf(),
        create_prompt_manager_outcome(t, title).1 is Ok,
    ensures
        ({
            let (after, id) = create_prompt_manager_outcome(t, title);
            find_prompt_manager_outcome(after, id->Ok_0) == Ok::<
                PromptManagerModelView,
                ApplicationErrorView,
            >(
                PromptManagerModelView {
                    id: id->Ok_0,
                    title,
                    action_type: None,
                    api_type: None,
                    tags: Seq::empty(),
                },
            )
        }),
{
    let (after, id) = create_prompt_manager_outcome(t, title);
    let id = id->Ok_0;
    lemma_fresh_key(
        t.prompt_managers,
        manager_id(),
        manager_with_id(id),
        t.last_prompt_manager_id,
        id,
    );
    lemma_first_match(t.prompt_managers, manager_with_id(id));
    lemma_first_match_at(
        after.prompt_managers,
        manager_with_id(id),
        t.prompt_managers.len() as int,
    );
    assert forall|i: int| 0 <= i < t.prompt_manager_tags.len() implies (
    #[trigger] t.prompt_manager_tags[i]).prompt_manager_id != id by {
        assert(t.prompt_manager_tags.map_values(link_manager())[i] <= t.last_prompt_manager_id);
    }
    lemma_no_tags_of(t.prompt_manager_tags, t.tags, id);
    assert(Seq::<TagRowView>::empty().map_values(value_of()) =~= Seq::<Seq<char>>::empty());
}

/// Creating a manager keeps every manager and its extension rows in
/// agreement.
pub proof fn lemma_create_keeps_consistent(t: Tables, title: Seq<char>)
    requires
        t.wf(),
        consistent(t),
    ensures
        consistent(create_prompt_manager_outcome(t, title).0),
{
    let (after, r) = create_prompt_manager_outcome(t, title);
    if r is Ok {
        let id = r->Ok_0;
        lemma_absent_from_extension(t.comparing_prompt_managers, t.last_prompt_manager_id, id);
        lemma_absent_from_extension(t.comparing_model_managers, t.last_prompt_manager_id, id);
    }
}

/// What an update that succeeds leaves: the store keeps its integrity, and
/// the manager is found with the title, the action and the API that the
/// update gave, and with exactly the tag values that the update gave, each
/// of them once.
pub proof fn lemma_updated_manager(t: Tables, u: PromptManagerUpdateView)
    requires
        t.wf(),
        updated(t, u) is Ok,
    ensures
        ({
            let after = updated(t, u)->Ok_0;
            &&& after.wf()
            &&& find_prompt_manager_outcome(after, u.id) matches Ok(m)
            &&& m.id == u.id
            &&& m.title == u.title
            &&& m.action_type == u.action_type
            &&& m.api_type == u.api_type
            &&& m.tags.to_set() == u.tags.to_set()
            &&& m.tags.no_duplicates()
        }),
{
    let after = updated(t, u)->Ok_0;
    let detached = after_detach(t, u)->Ok_0;
    let written = after_write(t, u)->Ok_0;
    let attached = after_attach(t, u)->Ok_0;
    let (resolved_tables, ids) = after_resolve(t, u, u.tags.len() as int)->Ok_0;
    let cleared = after_clear(t, u)->Ok_0.0;
    assert(u.tags.take(u.tags.len() as int) == u.tags);
    // Integrity, stage by stage.
    if let Ok(Some(old)) = stored_action(t, u.id) {
        lemma_tables_execute_wf(
            t,
            StatementView::DeleteExtension {
                action_type: old,
                manager_id: u.id,
            },
        );
    }
    lemma_tables_execute_wf(
        detached,
        StatementView::UpdateManager { row: u.row() },
    );
    if let Some(action) = u.action_type {
        lemma_tables_execute_wf(
            written,
            StatementView::InsertExtension {
                action_type: action,
                manager_id: u.id,
            },
        );
    }
    lemma_resolve_all(attached, u.tags);
    lemma_tables_execute_wf(
        resolved_tables,
        StatementView::DeleteManagerTags { manager_id: u.id },
    );
    // The manager's row.
    let rows = t.prompt_managers;
    let mapped = rows.map_values(Tables::replaced_by(u.row()));
    lemma_first_match(rows, manager_with_id(u.id));
    let i = choose|i: int| 0 <= i < rows.len() && rows[i] == t.find_manager(u.id)->Some_0;
    lemma_found_if_present(mapped, manager_with_id(u.id), i);
    lemma_first_match(mapped, manager_with_id(u.id));
    let found = first_match(mapped, manager_with_id(u.id))->Some_0;
    let k = choose|k: int| 0 <= k < mapped.len() && mapped[k] == found;
    assert(mapped[k] == u.row());
    lemma_found_key(
        rows,
        manager_id(),
        manager_with_id(u.id),
        t.last_prompt_manager_id,
    );
    // Its action and API.
    if let Some(a) = u.action_type {
        a.lemma_name_round_trip();
    }
    if let Some(a) = u.api_type {
        a.lemma_name_round_trip();
    }
    // Its tags.
    assert forall|i: int| 0 <= i < cleared.prompt_manager_tags.len() implies (
    #[trigger] cleared.prompt_manager_tags[i]).prompt_manager_id != u.id by {
        resolved_tables.prompt_manager_tags.lemma_filter_pred(link_of_other(u.id), i);
    }
    assert forall|k: int| 0 <= k < ids.len() implies cleared.find_tag(
        #[trigger] ids[k],
    ) is Some by {
        assert(value_under(resolved_tables, ids[k]) is Some);
    }
    lemma_tags_of_linked(cleared, u.id, ids, ids.len() as int);
    assert(ids.take(ids.len() as int) == ids);
    let tags = after.tags_of(u.id);
    let values = tags.map_values(value_of());
    assert(values.to_set() =~= u.tags.to_set()) by {
        assert forall|v: Seq<char>| values.to_set().contains(v) implies u.tags.to_set().contains(
            v,
        ) by {
            let k = choose|k: int| 0 <= k < values.len() && values[k] == v;
            assert(value_under(resolved_tables, ids[k]) is Some);
        }
        assert forall|v: Seq<char>| u.tags.to_set().contains(v) implies values.to_set().contains(
            v,
        ) by {
            let j = choose|j: int| 0 <= j < u.tags.len() && u.tags[j] == v;
            let k = choose|k: int|
                0 <= k < ids.len() && #[trigger] value_under(resolved_tables, ids[k]) == Some(
                    u.tags[j],
                );
            assert(values[k] == v);
        }
    }
    assert forall|a: int, b: int|
        0 <= a < values.len() && 0 <= b < values.len() && a != b implies values[a]
        != values[b] by {
        let first = cleared.find_tag(ids[a])->Some_0;
        let second = cleared.find_tag(ids[b])->Some_0;
        assert(cleared.find_tag(ids[a]) is Some && cleared.find_tag(ids[b]) is Some);
        lemma_first_match(cleared.tags, tag_with_id(ids[a]));
        lemma_first_match(cleared.tags, tag_with_id(ids[b]));
        let i = choose|i: int| 0 <= i < cleared.tags.len() && cleared.tags[i] == first;
        let j = choose|j: int| 0 <= j < cleared.tags.len() && cleared.tags[j] == second;
        assert(first.id == ids[a] && second.id == ids[b]);
        assert(i != j);
        let stored = cleared.tags.map_values(tag_value());
        assert(stored[i] != stored[j]);
    }
    // The integrity of the associations.
    assert(after.prompt_manager_tags.map_values(link_manager())
        =~= cleared.prompt_manager_tags.map_values(link_manager()) + Seq::new(
        ids.len(),
        |j: int| u.id,
    ));
    assert(after.prompt_manager_tags.map_values(link_tag())
        =~= cleared.prompt_manager_tags.map_values(link_tag()) + ids);
    assert forall|k: int| 0 <= k < ids.len() implies 0 < #[trigger] ids[k]
        <= cleared.last_tag_id by {
        lemma_found_key(
            cleared.tags,
            tag_id(),
            tag_with_id(ids[k]),
            cleared.last_tag_id,
        );
        lemma_first_match(cleared.tags, tag_with_id(ids[k]));
    }
}

/// An update that succeeds keeps every manager and its extension rows in
/// agreement: whatever action a manager has, exactly one extension row
/// exists for it in the table of that action and none in any other.
pub proof fn lemma_update_keeps_consistent(t: Tables, u: PromptManagerUpdateView)
    requires
        t.wf(),
        consistent(t),
        updated(t, u) is Ok,
    ensures
        consistent(updated(t, u)->Ok_0),
{
    let after = updated(t, u)->Ok_0;
    lemma_updated_extensions(t, u, ActionType::ComparingPrompt);
    lemma_updated_extensions(t, u, ActionType::ComparingModel);
    lemma_first_match(t.prompt_managers, manager_with_id(u.id));
    if let Some(a) = u.action_type {
        a.lemma_name_round_trip();
    }
    assert forall|i: int| 0 <= i < after.prompt_managers.len() implies manager_consistent(
        after,
        #[trigger] after.prompt_managers[i],
    ) by {}
}

/// After an update that changes the action from one to another, the
/// extension row of the old action is gone and exactly one of the new action
/// exists, and the manager is found with the new action and with exactly the
/// tag values that the update gave, each of them once.
pub proof fn lemma_action_switched(
    t: Tables,
    u: PromptManagerUpdateView,
    old: ActionType,
    new: ActionType,
)
    requires
        t.wf(),
        stored_action(t, u.id) == Ok::<Option<ActionType>, ApplicationErrorView>(Some(old)),
        u.action_type == Some(new),
        old != new,
        updated(t, u) is Ok,
    ensures
        ({
            let after = updated(t, u)->Ok_0;
            &&& occurrences(after.extension(old), u.id) == 0
            &&& occurrences(after.extension(new), u.id) == 1
            &&& find_prompt_manager_outcome(after, u.id) matches Ok(m)
            &&& m.action_type == Some(new)
            &&& m.tags.to_set() == u.tags.to_set()
            &&& m.tags.no_duplicates()
        }),
{
    lemma_updated_extensions(t, u, old);
    lemma_updated_extensions(t, u, new);
    lemma_updated_manager(t, u);
    lemma_occurrences_without(t.extension(old), u.id, u.id);
}

/// An update that succeeds leaves every other manager as it was: what is
/// found under another id is what was found before.
pub proof fn lemma_update_leaves_others(t: Tables, u: PromptManagerUpdateView, id: i32)
    requires
        t.wf(),
        updated(t, u) is Ok,
        id != u.id,
    ensures
        find_prompt_manager_outcome(updated(t, u)->Ok_0, id) == find_prompt_manager_outcome(t, id),
{
    let after = updated(t, u)->Ok_0;
    let detached = after_detach(t, u)->Ok_0;
    let written = after_write(t, u)->Ok_0;
    let attached = after_attach(t, u)->Ok_0;
    let (resolved_tables, ids) = after_resolve(t, u, u.tags.len() as int)->Ok_0;
    let cleared = after_clear(t, u)->Ok_0.0;
    assert(u.tags.take(u.tags.len() as int) == u.tags);
    if let Ok(Some(old)) = stored_action(t, u.id) {
        lemma_tables_execute_wf(
            t,
            StatementView::DeleteExtension {
                action_type: old,
                manager_id: u.id,
            },
        );
    }
    lemma_tables_execute_wf(
        detached,
        StatementView::UpdateManager { row: u.row() },
    );
    if let Some(action) = u.action_type {
        lemma_tables_execute_wf(
            written,
            StatementView::InsertExtension {
                action_type: action,
                manager_id: u.id,
            },
        );
    }
    lemma_resolve_all(attached, u.tags);
    // The row.
    lemma_replace_keeps_others(t.prompt_managers, u.row(), id);
    // The tags.
    let links = t.prompt_manager_tags;
    let before = tag_linked_to(t.tags, id);
    let now = tag_linked_to(after.tags, id);
    let added = Seq::new(ids.len(), |j: int| link_row(cleared, u.id, ids, j));
    lemma_filter_map_passed_over(links.filter(link_of_other(u.id)), added, now);
    lemma_filter_map_after_filter(links, link_of_other(u.id), now);
    assert forall|i: int| 0 <= i < links.len() implies now(#[trigger] links[i]) == before(
        links[i],
    ) by {
        assert(links.map_values(link_tag())[i] <= t.last_tag_id);
        assert(attached.find_tag(links[i].tag_id) == t.find_tag(links[i].tag_id));
    }
    lemma_filter_map_agree(links, now, before);
}

/// Updating a manager twice with the same content shows the same as
/// updating it once: the manager itself, and every other manager.
pub proof fn lemma_update_idempotent(db: Database, u: PromptManagerUpdateView, id: i32)
    requires
        db.wf(),
    ensures
        ({
            let once = update_outcome(db, u).0;
            let twice = update_outcome(once, u).0;
            seen(twice.tables, id) == seen(once.tables, id)
        }),
{
    let once = update_outcome(db, u).0;
    if db.saved is None && updated(db.tables, u) is Ok {
        lemma_updated_manager(db.tables, u);
        if updated(once.tables, u) is Ok {
            if id == u.id {
                lemma_updated_manager(once.tables, u);
            } else {
                lemma_update_leaves_others(once.tables, u, id);
            }
        }
    }
}

/// An update leaves the store with its integrity, whether it succeeds or
/// fails.
pub proof fn lemma_update_wf(db: Database, u: PromptManagerUpdateView)
    requires
        db.wf(),
    ensures
        update_outcome(db, u).0.wf(),
{
    if db.saved is None && updated(db.tables, u) is Ok {
        lemma_updated_manager(db.tables, u);
    }
}

/// Deleting a manager logically keeps every manager and its extension rows
/// in agreement: the row keeps its action, and no extension row is touched.
pub proof fn lemma_delete_keeps_consistent(t: Tables, id: i32, deleted_at: Seq<char>)
    requires
        t.wf(),
        consistent(t),
    ensures
        consistent(logical_delete_prompt_manager_outcome(t, id, deleted_at).0),
{
    let (after, r) = logical_delete_prompt_manager_outcome(t, id, deleted_at);
    if r is Ok {
        lemma_first_match(t.prompt_managers, manager_with_id(id));
        assert forall|i: int| 0 <= i < after.prompt_managers.len() implies manager_consistent(
            after,
            #[trigger] after.prompt_managers[i],
        ) by {}
    }
}

/// A manager that is deleted logically stays in storage, with the time of
/// its deletion and otherwise as it was, and is not found any more.
pub proof fn lemma_deleted_manager_hidden(t: Tables, id: i32, deleted_at: Seq<char>)
    requires
        logical_delete_prompt_manager_outcome(t, id, deleted_at).1 is Ok,
    ensures
        ({
            let after = logical_delete_prompt_manager_outcome(t, id, deleted_at).0;
            &&& after.prompt_managers.len() == t.prompt_managers.len()
            &&& after.find_manager(id) == Some(
                PromptManagerRowView { deleted_at: Some(deleted_at), ..t.find_manager(id)->Some_0 },
            )
            &&& find_prompt_manager_outcome(after, id) == Err::<
                PromptManagerModelView,
                ApplicationErrorView,
            >(ApplicationErrorView::NotFoundError)
        }),
{
    let first = t.find_manager(id)->Some_0;
    let row = PromptManagerRowView { deleted_at: Some(deleted_at), ..first };
    let rows = t.prompt_managers;
    let mapped = rows.map_values(Tables::replaced_by(row));
    lemma_first_match(rows, manager_with_id(id));
    let i = choose|i: int| 0 <= i < rows.len() && rows[i] == first;
    assert(mapped[i] == row);
    lemma_found_if_present(mapped, manager_with_id(id), i);
    lemma_first_match(mapped, manager_with_id(id));
    let found = first_match(mapped, manager_with_id(id))->Some_0;
    let k = choose|k: int| 0 <= k < mapped.len() && mapped[k] == found;
    assert(mapped[k] == row);
}

/// A setting that was just created has current version 1 and exactly one
/// version, which has number 1 and an empty prompt, and the setting is found
/// with that version.
pub proof fn lemma_created_setting(db: Database, manager_id: i32)
    requires
        db.wf(),
        create_comparing_prompt_setting_outcome(db, manager_id).1 is Ok,
    ensures
        ({
            let (after, id) = create_comparing_prompt_setting_outcome(db, manager_id);
            let id = id->Ok_0;
            let versions = after.tables.versions.filter(
                version_of(id),
            );
            &&& after.tables.find_setting(id) == Some(
                ComparingPromptSettingRowView {
                    id,
                    manager_id,
                    current_version: 1,
                    deleted_at: None,
                },
            )
            &&& versions.len() == 1
            &&& versions[0].version == 1
            &&& versions[0].system_prompt == Seq::<char>::empty()
            &&& find_comparing_prompt_setting_outcome(after.tables, id) == Ok::<
                ComparingPromptSettingModelView,
                ApplicationErrorView,
            >(
                ComparingPromptSettingModelView {
                    id,
                    manager_id,
                    current_version: 1,
                    versions: seq![
                        ComparingPromptSettingVersionModelView {
                            id: versions[0].id,
                            setting_id: id,
                            version: 1,
                            system_prompt: Seq::empty(),
                        },
                    ],
                },
            )
        }),
{
    let t = db.tables;
    let (after, id) = create_comparing_prompt_setting_outcome(db, manager_id);
    let id = id->Ok_0;
    let with_setting = t.insert_setting(manager_id, 1).0;
    let by_setting = version_of(id);
    let numbered = version_numbered(id, 1);
    let by_id = setting_with_id(id);
    lemma_fresh_key(t.settings, setting_id(), by_id, t.last_setting_id, id);
    lemma_first_match(t.settings, by_id);
    lemma_first_match_at(with_setting.settings, by_id, t.settings.len() as int);
    assert forall|j: int| 0 <= j < t.versions.len() implies !by_setting(#[trigger] t.versions[j])
        && !numbered(t.versions[j]) by {
        assert(t.versions.map_values(version_setting())[j] <= t.last_setting_id);
    }
    lemma_first_match_none(t.versions, by_setting);
    lemma_first_match_none(t.versions, numbered);
    let version = after.tables.versions[t.versions.len() as int];
    t.versions.lemma_filter_push(version, by_setting);
    lemma_first_match_at(after.tables.versions, numbered, t.versions.len() as int);
    assert(seq![version].map_values(
        version_model(),
    ) =~= seq![
        ComparingPromptSettingVersionModelView {
            id: version.id,
            setting_id: id,
            version: 1,
            system_prompt: Seq::empty(),
        },
    ]);
}

/// Creating a setting keeps every setting pointing at exactly one of its
/// versions, the new setting among them.
pub proof fn lemma_create_setting_keeps_versioned(db: Database, manager_id: i32)
    requires
        db.wf(),
        versioned(db.tables),
    ensures
        versioned(create_comparing_prompt_setting_outcome(db, manager_id).0.tables),
{
    let t = db.tables;
    let (after, r) = create_comparing_prompt_setting_outcome(db, manager_id);
    if r is Ok {
        let id = r->Ok_0;
        lemma_created_setting(db, manager_id);
        let version = after.tables.versions[t.versions.len() as int];
        let settings = after.tables.settings;
        let versions = after.tables.versions;
        assert forall|i: int| 0 <= i < settings.len() implies versions.filter(
            version_numbered((#[trigger] settings[i]).id, settings[i].current_version),
        ).len() == 1 by {
            let setting = settings[i];
            let numbered = version_numbered(setting.id, setting.current_version);
            t.versions.lemma_filter_push(version, numbered);
            if i >= t.settings.len() {
                assert forall|j: int| 0 <= j < t.versions.len() implies !numbered(
                    #[trigger] t.versions[j],
                ) by {
                    assert(t.versions.map_values(version_setting())[j] <= t.last_setting_id);
                }
                lemma_first_match_none(t.versions, numbered);
            }
        }
    }
}

/// The settings that are found for a manager are settings of that manager
/// that are not logically deleted.
pub proof fn lemma_found_settings_are_live(t: Tables, manager_id: i32, i: int)
    requires
        0 <= i < find_all_comparing_prompt_settings_outcome(t, manager_id).len(),
    ensures
        exists|j: int|
            0 <= j < t.settings.len() && (#[trigger] t.settings[j]).id
                == find_all_comparing_prompt_settings_outcome(t, manager_id)[i].id
                && t.settings[j].manager_id == manager_id && t.settings[j].deleted_at is None,
{
    let live = t.settings.filter(setting_live_of(manager_id));
    t.settings.lemma_filter_pred(setting_live_of(manager_id), i);
    assert(live.contains(live[i]));
    t.settings.lemma_filter_contains_rev(setting_live_of(manager_id), live[i]);
    let j = choose|j: int| 0 <= j < t.settings.len() && t.settings[j] == live[i];
    assert(t.settings[j].id == find_all_comparing_prompt_settings_outcome(t, manager_id)[i].id);
}

/// Whatever storage replies, no setting that the reply marks as logically
/// deleted is among the settings that are read from it.
pub proof fn lemma_read_settings_are_live(entries: Seq<SettingWithVersionsView>, i: int)
    requires
        0 <= i < found_comparing_prompt_settings_spec(ReplyView::Settings(entries))->Ok_0.len(),
    ensures
        exists|j: int|
            0 <= j < entries.len() && (#[trigger] entries[j]).setting.deleted_at is None
                && found_comparing_prompt_settings_spec(ReplyView::Settings(entries))->Ok_0[i]
                == setting_model(entries[j].setting, entries[j].versions),
{
    let live = entries.filter(entry_live());
    entries.lemma_filter_pred(entry_live(), i);
    assert(live.contains(live[i]));
    entries.lemma_filter_contains_rev(entry_live(), live[i]);
    let j = choose|j: int| 0 <= j < entries.len() && entries[j] == live[i];
    assert(entries[j].setting.deleted_at is None);
}

/// A run that was just recorded is found as it was given: with the same
/// provider, under the id that storage assigned, and without a response
/// format.
pub proof fn lemma_run_round_trip(t: Tables, run: ComparingPromptSettingRunModelView)
    requires
        t.wf(),
        create_comparing_prompt_run_outcome(t, run).1 is Ok,
    ensures
        ({
            let (after, id) = create_comparing_prompt_run_outcome(t, run);
            find_comparing_prompt_run_outcome(after, id->Ok_0) == Ok::<
                ComparingPromptSettingRunModelView,
                ApplicationErrorView,
            >(ComparingPromptSettingRunModelView { id: id->Ok_0, response_format: None, ..run })
        }),
{
    let (after, id) = create_comparing_prompt_run_outcome(t, run);
    let id = id->Ok_0;
    let by_id = run_with_id(id);
    lemma_fresh_key(t.runs, run_id(), by_id, t.last_run_id, id);
    lemma_first_match(t.runs, by_id);
    lemma_first_match_at(after.runs, by_id, t.runs.len() as int);
    run.provider_type.lemma_name_round_trip();
}

/// The operations on settings and runs leave every manager and its
/// extension rows in agreement: they touch neither.
pub proof fn lemma_settings_and_runs_keep_consistent(
    db: Database,
    manager_id: i32,
    run: ComparingPromptSettingRunModelView,
)
    requires
        consistent(db.tables),
    ensures
        consistent(create_comparing_prompt_setting_outcome(db, manager_id).0.tables),
        consistent(create_comparing_prompt_run_outcome(db.tables, run).0),
{
}

/// An id that no manager has is a `NotFoundError` for finding, for deleting
/// and for updating, and the store stays as it was.
pub proof fn lemma_missing_manager(db: Database, u: PromptManagerUpdateView, deleted_at: Seq<char>)
    requires
        db.tables.find_manager(u.id) is None,
    ensures
        find_prompt_manager_outcome(db.tables, u.id) == Err::<
            PromptManagerModelView,
            ApplicationErrorView,
        >(ApplicationErrorView::NotFoundError),
        logical_delete_prompt_manager_outcome(db.tables, u.id, deleted_at) == (
            db.tables,
            Err::<(), ApplicationErrorView>(ApplicationErrorView::NotFoundError),
        ),
        db.saved is None ==> update_outcome(db, u) == (
            db,
            Err::<(), ApplicationErrorView>(ApplicationErrorView::NotFoundError),
        ),
{
}

/// An id that no setting or run has is a `NotFoundError` for finding it.
pub proof fn lemma_missing_setting_or_run(t: Tables, id: i32)
    ensures
        t.find_setting(id) is None ==> find_comparing_prompt_setting_outcome(t, id) == Err::<
            ComparingPromptSettingModelView,
            ApplicationErrorView,
        >(ApplicationErrorView::NotFoundError),
        t.find_run(id) is None ==> find_comparing_prompt_run_outcome(t, id) == Err::<
            ComparingPromptSettingRunModelView,
            ApplicationErrorView,
        >(ApplicationErrorView::NotFoundError),
{
}

/// An update never changes or removes a tag: every tag that was found
/// under an id is found under it afterwards.
pub proof fn lemma_update_keeps_tags(t: Tables, u: PromptManagerUpdateView, id: i32)
    requires
        t.wf(),
        updated(t, u) is Ok,
        t.find_tag(id) is Some,
    ensures
        updated(t, u)->Ok_0.find_tag(id) == t.find_tag(id),
{
    let detached = after_detach(t, u)->Ok_0;
    let written = after_write(t, u)->Ok_0;
    let attached = after_attach(t, u)->Ok_0;
    assert(u.tags.take(u.tags.len() as int) == u.tags);
    if let Ok(Some(old)) = stored_action(t, u.id) {
        lemma_tables_execute_wf(
            t,
            StatementView::DeleteExtension { action_type: old, manager_id: u.id },
        );
    }
    lemma_tables_execute_wf(detached, StatementView::UpdateManager { row: u.row() });
    if let Some(action) = u.action_type {
        lemma_tables_execute_wf(
            written,
            StatementView::InsertExtension { action_type: action, manager_id: u.id },
        );
    }
    lemma_resolve_all(attached, u.tags);
    assert(attached.find_tag(id) == t.find_tag(id));
}

/// Versions are only ever added: creating a setting leaves every version
/// that was there in its place.
pub proof fn lemma_create_setting_keeps_versions(db: Database, manager_id: i32)
    ensures
        ({
            let after = create_comparing_prompt_setting_outcome(db, manager_id).0;
            &&& db.tables.versions.len() <= after.tables.versions.len()
            &&& after.tables.versions.take(db.tables.versions.len() as int) == db.tables.versions
            &&& db.tables.settings.len() <= after.tables.settings.len()
            &&& after.tables.settings.take(db.tables.settings.len() as int) == db.tables.settings
        }),
{
    let after = create_comparing_prompt_setting_outcome(db, manager_id).0;
    assert(after.tables.versions.take(db.tables.versions.len() as int) =~= db.tables.versions);
    assert(after.tables.settings.take(db.tables.settings.len() as int) =~= db.tables.settings);
}

/// The id of a manager as it is listed.
pub open spec fn listed_id() -> spec_fn(PromptManagerModelView) -> i32 {
    |m: PromptManagerModelView| m.id
}

/// Entries that are all live are listed one for one, each under the id of
/// its row.
pub proof fn lemma_models_of_live(entries: Seq<ManagerWithTagsView>)
    requires
        models_of(entries) is Ok,
        forall|i: int|
            0 <= i < entries.len() ==> (#[trigger] entries[i]).manager.deleted_at is None,
    ensures
        models_of(entries)->Ok_0.len() == entries.len(),
        forall|i: int|
            0 <= i < entries.len() ==> (#[trigger] models_of(entries)->Ok_0[i]).id
                == entries[i].manager.id,
    decreases entries.len(),
{
    if entries.len() > 0 {
        let front = entries.drop_last();
        assert forall|i: int| 0 <= i < front.len() implies (
        #[trigger] front[i]).manager.deleted_at is None by {
            assert(front[i] == entries[i]);
        }
        lemma_models_of_live(front);
        assert(entries.last() == entries[entries.len() - 1]);
    }
}

/// The managers are listed in the order of their ids.
pub proof fn lemma_managers_listed_in_order(t: Tables)
    requires
        t.wf(),
        find_all_prompt_managers_outcome(t) is Ok,
    ensures
        increasing(find_all_prompt_managers_outcome(t)->Ok_0, listed_id()),
{
    let live = t.prompt_managers.filter(manager_live());
    let entries = live.map_values(t.with_tags());
    let models = find_all_prompt_managers_outcome(t)->Ok_0;
    assert forall|i: int, j: int| 0 <= i < j < t.prompt_managers.len() implies manager_id()(
        #[trigger] t.prompt_managers[i],
    ) < manager_id()(#[trigger] t.prompt_managers[j]) by {
        let keys = t.prompt_managers.map_values(manager_id());
        assert(keys[i] < keys[j]);
    }
    lemma_filter_increasing(t.prompt_managers, manager_live(), manager_id());
    assert forall|i: int| 0 <= i < entries.len() implies (
    #[trigger] entries[i]).manager.deleted_at is None by {
        t.prompt_managers.lemma_filter_pred(manager_live(), i);
    }
    lemma_models_of_live(entries);
    assert forall|i: int, j: int| 0 <= i < j < models.len() implies listed_id()(
        #[trigger] models[i],
    ) < listed_id()(#[trigger] models[j]) by {
        assert(entries[i].manager == live[i] && entries[j].manager == live[j]);
        assert(manager_id()(live[i]) < manager_id()(live[j]));
    }
}

} // verus!
