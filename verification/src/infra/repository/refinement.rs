//! What holds between the moves of a plan when storage answers as the model
//! does.
//!
//! A plan is run one statement at a time. For each plan this module states
//! what holds of the store while the plan is under way, and proves that one
//! more move keeps it. What holds once the plan has finished is the outcome
//! that [`crate::infra::repository::outcome`] states.

use crate::common::errors::ApplicationErrorView;
use crate::common::selection::{
    lemma_filter_all, lemma_first_match, lemma_found_after_push, lemma_found_if_present,
};
use crate::domain::comparing_prompt::ComparingPromptSettingModelView;
use crate::domain::prompt_manager::PromptManagerModelView;
use crate::infra::repository::comparing_prompt_setting::{
    CreateComparingPromptSettingView, entry_live, entry_model, FindComparingPromptSettingView,
};
use crate::infra::repository::outcome::{
    after_attach, after_clear, after_detach, after_resolve, after_write,
    create_comparing_prompt_setting_outcome, find_all_comparing_prompt_settings_outcome,
    find_comparing_prompt_setting_outcome, find_prompt_manager_outcome, linked,
    logical_delete_prompt_manager_outcome, resolve_all, resolve_or_create,
    resolve_or_create_outcome, stored_action, update_outcome, updated, with_all_versions,
};
use crate::infra::repository::plan::StepView;
use crate::infra::repository::prompt_manager::{
    FindPromptManagerView, LogicalDeletePromptManagerView,
};
use crate::infra::repository::tag::{ResolvePhase, ResolveTagView};
use crate::infra::repository::update::{
    PromptManagerUpdateView, push_unique, UpdatePhaseView, UpdatePromptManagerView,
};
use crate::infra::storage::rows::{PromptManagerRowView, PromptManagerTagRow, TagRowView};
use crate::infra::storage::statement::{ReplyView, StatementView};
use crate::infra::storage::tables::{
    Database, manager_with_id, setting_live_of, Tables, tag_with_id, tag_with_value,
};
use vstd::prelude::*;

verus! {

/// Every one of the ids is the id of a tag.
pub open spec fn tags_exist(t: Tables, ids: Seq<i32>) -> bool {
    forall|k: int| 0 <= k < ids.len() ==> t.find_tag(#[trigger] ids[k]) is Some
}

/// Writing a manager's row keeps every manager findable.
pub proof fn lemma_manager_kept(t: Tables, row: PromptManagerRowView, id: i32)
    requires
        t.find_manager(id) is Some,
    ensures
        t.update_manager(row).0.find_manager(id) is Some,
{
    lemma_first_match(t.prompt_managers, manager_with_id(id));
    let found = t.find_manager(id)->Some_0;
    let i = choose|i: int| 0 <= i < t.prompt_managers.len() && t.prompt_managers[i] == found;
    let after = t.update_manager(row).0;
    if t.find_manager(row.id) is Some {
        lemma_found_if_present(after.prompt_managers, manager_with_id(id), i);
    }
}

/// Once a tag cannot be resolved, no longer list of the values can be.
pub proof fn lemma_resolve_all_fails(t: Tables, values: Seq<Seq<char>>, k: int, n: int)
    requires
        0 <= k <= n <= values.len(),
        resolve_all(t, values.take(k)).1 is None,
    ensures
        resolve_all(t, values.take(n)).1 is None,
    decreases n - k,
{
    if k < n {
        lemma_resolve_all_fails(t, values, k, n - 1);
        assert(values.take(n).drop_last() == values.take(n - 1));
    }
}

/// Resolving one more value, where the values before are resolved.
pub proof fn lemma_resolve_all_step(t: Tables, values: Seq<Seq<char>>, n: int)
    requires
        0 <= n < values.len(),
    ensures
        resolve_all(t, values.take(n + 1)) == match resolve_all(t, values.take(n)) {
            (before, Some(ids)) => match resolve_or_create(before, values[n]) {
                (after, Some(id)) => (after, Some(push_unique(ids, id))),
                (after, None) => (after, None),
            },
            (before, None) => (before, None),
        },
{
    assert(values.take(n + 1).drop_last() == values.take(n));
}

/// Inserting the next association extends the associations inserted so far.
pub proof fn lemma_linked_step(t: Tables, manager_id: i32, ids: Seq<i32>, n: int)
    requires
        0 <= n < ids.len(),
        t.last_prompt_manager_tag_id + n < i32::MAX,
        t.find_manager(manager_id) is Some,
        t.find_tag(ids[n]) is Some,
    ensures
        linked(t, manager_id, ids.take(n)).insert_manager_tag(manager_id, ids[n]) == (
            linked(t, manager_id, ids.take(n + 1)),
            ReplyView::Inserted((t.last_prompt_manager_tag_id + n + 1) as i32),
        ),
{
    let before = linked(t, manager_id, ids.take(n));
    let after = linked(t, manager_id, ids.take(n + 1));
    let row = PromptManagerTagRow {
        id: (t.last_prompt_manager_tag_id + n + 1) as i32,
        prompt_manager_id: manager_id,
        tag_id: ids[n],
    };
    assert(before.prompt_manager_tags.push(row) =~= after.prompt_manager_tags);
}

/// Inserting no association changes nothing.
pub proof fn lemma_linked_none(t: Tables, manager_id: i32, ids: Seq<i32>)
    ensures
        linked(t, manager_id, ids.take(0)) == t,
{
}

/// What holds of the tables while an update runs inside its transaction:
/// they are the tables that the stage reached so far leaves, and the
/// statement at hand is the one that the stage calls for.
pub open spec fn update_stage(
    t0: Tables,
    u: PromptManagerUpdateView,
    t: Tables,
    s: UpdatePromptManagerView,
    statement: StatementView,
) -> bool {
    match s.phase {
        UpdatePhaseView::Begin => false,
        UpdatePhaseView::Load => t == t0 && statement == (StatementView::FindManager { id: u.id }),
        UpdatePhaseView::Detach => {
            &&& t == t0
            &&& stored_action(t0, u.id) matches Ok(Some(old))
            &&& statement == (StatementView::DeleteExtension {
                action_type: old,
                manager_id: u.id,
            })
        },
        UpdatePhaseView::Write => {
            &&& after_detach(t0, u) == Ok::<Tables, ApplicationErrorView>(t)
            &&& t.find_manager(u.id) is Some
            &&& statement == (StatementView::UpdateManager { row: u.row() })
        },
        UpdatePhaseView::Attach => {
            &&& after_write(t0, u) == Ok::<Tables, ApplicationErrorView>(t)
            &&& t.find_manager(u.id) is Some
            &&& u.action_type matches Some(action)
            &&& statement == (StatementView::InsertExtension {
                action_type: action,
                manager_id: u.id,
            })
        },
        UpdatePhaseView::Resolve { index, tag } => {
            &&& after_resolve(t0, u, index) == Ok::<(Tables, Seq<i32>), ApplicationErrorView>(
                (t, s.tag_ids),
            )
            &&& t.find_manager(u.id) is Some
            &&& tags_exist(t, s.tag_ids)
            &&& tag.value == u.tags[index]
            &&& match tag.phase {
                ResolvePhase::Find => statement == (StatementView::FindTag { value: tag.value }),
                ResolvePhase::Create => {
                    &&& t.find_tag_by_value(tag.value) is None
                    &&& statement == (StatementView::InsertTag { value: tag.value })
                },
                ResolvePhase::FindAgain => false,
            }
        },
        UpdatePhaseView::Clear => {
            &&& after_resolve(t0, u, u.tags.len() as int) == Ok::<
                (Tables, Seq<i32>),
                ApplicationErrorView,
            >((t, s.tag_ids))
            &&& t.find_manager(u.id) is Some
            &&& tags_exist(t, s.tag_ids)
            &&& statement == (StatementView::DeleteManagerTags { manager_id: u.id })
        },
        UpdatePhaseView::Link { index } => {
            &&& after_clear(t0, u) matches Ok((cleared, ids))
            &&& ids == s.tag_ids
            &&& cleared.last_prompt_manager_tag_id + index <= i32::MAX
            &&& t == linked(cleared, u.id, ids.take(index))
            &&& t.find_manager(u.id) is Some
            &&& tags_exist(t, ids)
            &&& statement == (StatementView::InsertManagerTag {
                manager_id: u.id,
                tag_id: ids[index],
            })
        },
        UpdatePhaseView::Commit => {
            &&& updated(t0, u) == Ok::<Tables, ApplicationErrorView>(t)
            &&& statement == StatementView::Commit
        },
        UpdatePhaseView::Abort { error } => {
            &&& updated(t0, u) == Err::<Tables, ApplicationErrorView>(error)
            &&& statement == StatementView::Rollback
        },
    }
}

/// What holds between the moves of an update that started on `db0`.
pub open spec fn update_holds(
    db0: Database,
    u: PromptManagerUpdateView,
    db: Database,
    step: StepView<UpdatePromptManagerView, ()>,
) -> bool {
    match step {
        StepView::Finish(r) => (db, r) == update_outcome(db0, u),
        StepView::Issue(s, statement) => {
            &&& s.update == u
            &&& s.wf()
            &&& if s.phase is Begin {
                db == db0 && statement == StatementView::Begin
            } else {
                &&& db0.saved is None
                &&& db.saved == Some(db0.tables)
                &&& update_stage(db0.tables, u, db.tables, s, statement)
            }
        },
    }
}

/// The moves up to the attaching of the new action, and the two that end
/// the transaction, keep what holds between the moves.
proof fn lemma_update_step_outer(
    db0: Database,
    u: PromptManagerUpdateView,
    db: Database,
    s: UpdatePromptManagerView,
    statement: StatementView,
)
    requires
        update_holds(db0, u, db, StepView::Issue(s, statement)),
        !(s.phase is Resolve),
        !(s.phase is Clear),
        !(s.phase is Link),
    ensures
        update_holds(db0, u, db.execute(statement).0, s.next(db.execute(statement).1)),
{
    let t = db.tables;
    match s.phase {
        UpdatePhaseView::Write => {
            lemma_manager_kept(t, u.row(), u.id);
            assert(u.tags.take(0) =~= Seq::<Seq<char>>::empty());
            assert(s.tag_ids =~= Seq::<i32>::empty());
        },
        UpdatePhaseView::Attach => {
            assert(u.tags.take(0) =~= Seq::<Seq<char>>::empty());
            assert(s.tag_ids =~= Seq::<i32>::empty());
        },
        _ => {},
    }
}

/// The moves that resolve a tag keep what holds between the moves.
proof fn lemma_update_step_resolve(
    db0: Database,
    u: PromptManagerUpdateView,
    db: Database,
    s: UpdatePromptManagerView,
    statement: StatementView,
)
    requires
        update_holds(db0, u, db, StepView::Issue(s, statement)),
        s.phase is Resolve,
    ensures
        update_holds(db0, u, db.execute(statement).0, s.next(db.execute(statement).1)),
{
    let t0 = db0.tables;
    let t = db.tables;
    let index = s.phase->Resolve_index;
    let tag = s.phase->Resolve_tag;
    let attached = after_attach(t0, u)->Ok_0;
    let (after, reply) = db.execute(statement);
    lemma_resolve_all_step(attached, u.tags, index);
    lemma_first_match(t.tags, tag_with_value(tag.value));
    match tag.phase {
        ResolvePhase::Find => {
            if let Some(row) = t.find_tag_by_value(tag.value) {
                let i = choose|i: int| 0 <= i < t.tags.len() && t.tags[i] == row;
                lemma_found_if_present(t.tags, tag_with_id(row.id), i);
            }
        },
        ResolvePhase::Create => {
            if t.last_tag_id >= i32::MAX {
                lemma_resolve_all_fails(attached, u.tags, index + 1, u.tags.len() as int);
            } else {
                let id = (t.last_tag_id + 1) as i32;
                let row = TagRowView { id, value: tag.value };
                let ids = push_unique(s.tag_ids, id);
                assert forall|k: int| 0 <= k < ids.len() implies after.tables.find_tag(
                    #[trigger] ids[k],
                ) is Some by {
                    if k < s.tag_ids.len() {
                        lemma_found_after_push(t.tags, tag_with_id(s.tag_ids[k]), row);
                    } else {
                        lemma_found_if_present(
                            t.tags.push(row),
                            tag_with_id(id),
                            t.tags.len() as int,
                        );
                    }
                }
            }
        },
        ResolvePhase::FindAgain => {},
    }
}

/// The moves that replace the associations keep what holds between the
/// moves.
proof fn lemma_update_step_link(
    db0: Database,
    u: PromptManagerUpdateView,
    db: Database,
    s: UpdatePromptManagerView,
    statement: StatementView,
)
    requires
        update_holds(db0, u, db, StepView::Issue(s, statement)),
        s.phase is Clear || s.phase is Link,
    ensures
        update_holds(db0, u, db.execute(statement).0, s.next(db.execute(statement).1)),
{
    let t0 = db0.tables;
    let t = db.tables;
    let ids = s.tag_ids;
    assert(ids.take(ids.len() as int) == ids);
    match s.phase {
        UpdatePhaseView::Clear => {
            let cleared = t.delete_manager_tags(u.id).0;
            lemma_linked_none(cleared, u.id, ids);
        },
        UpdatePhaseView::Link { index } => {
            let cleared = after_clear(t0, u)->Ok_0.0;
            if cleared.last_prompt_manager_tag_id + index < i32::MAX {
                lemma_linked_step(cleared, u.id, ids, index);
            }
        },
        _ => {},
    }
}

/// One move of an update on the model keeps what holds between its moves.
pub proof fn lemma_update_step(
    db0: Database,
    u: PromptManagerUpdateView,
    db: Database,
    s: UpdatePromptManagerView,
    statement: StatementView,
)
    requires
        update_holds(db0, u, db, StepView::Issue(s, statement)),
    ensures
        update_holds(db0, u, db.execute(statement).0, s.next(db.execute(statement).1)),
{
    if s.phase is Resolve {
        lemma_update_step_resolve(db0, u, db, s, statement);
    } else if s.phase is Clear || s.phase is Link {
        lemma_update_step_link(db0, u, db, s, statement);
    } else {
        lemma_update_step_outer(db0, u, db, s, statement);
    }
}

/// What holds between the moves of resolving a tag value on `t0`.
pub open spec fn resolve_holds(
    t0: Tables,
    value: Seq<char>,
    t: Tables,
    step: StepView<ResolveTagView, i32>,
) -> bool {
    match step {
        StepView::Finish(r) => (t, r) == resolve_or_create_outcome(t0, value),
        StepView::Issue(s, statement) => {
            &&& t == t0
            &&& s.value == value
            &&& match s.phase {
                ResolvePhase::Find => statement == (StatementView::FindTag { value }),
                ResolvePhase::Create => {
                    &&& t0.find_tag_by_value(value) is None
                    &&& statement == (StatementView::InsertTag { value })
                },
                ResolvePhase::FindAgain => false,
            }
        },
    }
}

/// What holds between the moves of finding a manager.
pub open spec fn find_manager_holds(
    t: Tables,
    id: i32,
    step: StepView<FindPromptManagerView, PromptManagerModelView>,
) -> bool {
    match step {
        StepView::Finish(r) => r == find_prompt_manager_outcome(t, id),
        StepView::Issue(FindPromptManagerView::Load, statement) => statement == (
            StatementView::FindManager { id }),
        StepView::Issue(FindPromptManagerView::Tags { row }, statement) => {
            &&& t.find_manager(id) == Some(row)
            &&& row.deleted_at is None
            &&& statement == (StatementView::FindTagsOfManager { manager_id: row.id })
        },
    }
}

/// What holds between the moves of deleting a manager logically.
pub open spec fn delete_holds(
    t0: Tables,
    id: i32,
    deleted_at: Seq<char>,
    t: Tables,
    step: StepView<LogicalDeletePromptManagerView, ()>,
) -> bool {
    match step {
        StepView::Finish(r) => (t, r) == logical_delete_prompt_manager_outcome(t0, id, deleted_at),
        StepView::Issue(LogicalDeletePromptManagerView::Load { deleted_at: at }, statement) => {
            &&& t == t0
            &&& at == deleted_at
            &&& statement == (StatementView::FindManager { id })
        },
        StepView::Issue(LogicalDeletePromptManagerView::Write, statement) => {
            &&& t == t0
            &&& t0.find_manager(id) matches Some(row)
            &&& row.deleted_at is None
            &&& statement == (StatementView::UpdateManager {
                row: PromptManagerRowView { deleted_at: Some(deleted_at), ..row },
            })
        },
    }
}

/// What holds between the moves of creating a setting on `db0`.
pub open spec fn create_setting_holds(
    db0: Database,
    manager_id: i32,
    db: Database,
    step: StepView<CreateComparingPromptSettingView, i32>,
) -> bool {
    match step {
        StepView::Finish(r) => (db, r) == create_comparing_prompt_setting_outcome(db0, manager_id),
        StepView::Issue(CreateComparingPromptSettingView::Begin { manager_id: m }, statement) => {
            &&& m == manager_id
            &&& db == db0
            &&& statement == StatementView::Begin
        },
        StepView::Issue(s, statement) => {
            &&& db0.saved is None
            &&& db.saved == Some(db0.tables)
            &&& match s {
                CreateComparingPromptSettingView::Begin { .. } => false,
                CreateComparingPromptSettingView::Setting => {
                    &&& db.tables == db0.tables
                    &&& statement == (StatementView::InsertSetting {
                        manager_id,
                        current_version: 1,
                    })
                },
                CreateComparingPromptSettingView::Version { id } => {
                    &&& db0.tables.insert_setting(manager_id, 1) == (
                        db.tables,
                        ReplyView::Inserted(id),
                    )
                    &&& statement == (StatementView::InsertSettingVersion {
                        setting_id: id,
                        version: 1,
                        system_prompt: Seq::empty(),
                    })
                },
                CreateComparingPromptSettingView::Commit { id } => {
                    &&& create_comparing_prompt_setting_outcome(db0, manager_id) == (
                        Database { tables: db.tables, saved: None },
                        Ok::<i32, ApplicationErrorView>(id),
                    )
                    &&& statement == StatementView::Commit
                },
                CreateComparingPromptSettingView::Abort { error } => {
                    &&& create_comparing_prompt_setting_outcome(db0, manager_id) == (
                        db0,
                        Err::<i32, ApplicationErrorView>(error),
                    )
                    &&& statement == StatementView::Rollback
                },
            }
        },
    }
}

/// What holds between the moves of finding a setting.
pub open spec fn find_setting_holds(
    t: Tables,
    id: i32,
    step: StepView<FindComparingPromptSettingView, ComparingPromptSettingModelView>,
) -> bool {
    match step {
        StepView::Finish(r) => r == find_comparing_prompt_setting_outcome(t, id),
        StepView::Issue(FindComparingPromptSettingView::Load, statement) => statement == (
            StatementView::FindSetting { id }),
        StepView::Issue(FindComparingPromptSettingView::Version { setting }, statement) => {
            &&& t.find_setting(id) == Some(setting)
            &&& setting.deleted_at is None
            &&& statement == (StatementView::FindSettingVersion {
                setting_id: setting.id,
                version: setting.current_version,
            })
        },
    }
}

/// The settings that storage selects for a manager, read as models, are the
/// manager's live settings with all their versions.
pub proof fn lemma_settings_selected(t: Tables, manager_id: i32)
    ensures
        t.settings.filter(setting_live_of(manager_id)).map_values(t.with_versions()).filter(
            entry_live(),
        ).map_values(entry_model()) == find_all_comparing_prompt_settings_outcome(t, manager_id),
{
    let live = t.settings.filter(setting_live_of(manager_id));
    let entries = live.map_values(t.with_versions());
    assert forall|i: int| 0 <= i < entries.len() implies entry_live()(#[trigger] entries[i]) by {
        t.settings.lemma_filter_pred(setting_live_of(manager_id), i);
    }
    lemma_filter_all(entries, entry_live());
}

} // verus!
