//! What each repository operation does to the store, said over the model.
//!
//! A plan only names statements. What the run of a whole plan amounts to
//! depends on what storage does with them. This module says it for storage
//! that behaves as the model does: the result of each operation and the
//! tables it leaves.

use crate::common::errors::ApplicationErrorView;
use crate::domain::comparing_prompt::{
    ComparingPromptSettingModelView, ComparingPromptSettingRunModelView,
};
use crate::domain::prompt_manager::{ActionType, PromptManagerModelView};
use crate::infra::repository::comparing_prompt_run::{run_model, run_row};
use crate::infra::repository::comparing_prompt_setting::setting_model;
use crate::infra::repository::prompt_manager::{empty_title, model_of, models_of, parsed_action};
use crate::infra::repository::update::{PromptManagerUpdateView, push_unique};
use crate::infra::storage::rows::{
    ComparingPromptSettingRowView, PromptManagerRowView, PromptManagerTagRow,
};
use crate::infra::storage::statement::ReplyView;
use crate::infra::storage::tables::{
    Database, full, manager_live, nested, setting_live_of, Tables, version_of,
};
use vstd::prelude::*;

verus! {

/// Resolving one tag value: the id of the tag that has the value, which is
/// inserted where it is missing. `None` where the tag is missing and the ids
/// of the table are used up.
pub open spec fn resolve_or_create(t: Tables, value: Seq<char>) -> (Tables, Option<i32>) {
    match t.find_tag_by_value(value) {
        Some(row) => (t, Some(row.id)),
        None => match t.insert_tag(value) {
            (inserted, ReplyView::Inserted(id)) => (inserted, Some(id)),
            _ => (t, None),
        },
    }
}

/// Resolving tag values one after the other: the ids they resolve to, each
/// once, in the order in which they first come. `None` as soon as one value
/// cannot be resolved.
pub open spec fn resolve_all(t: Tables, values: Seq<Seq<char>>) -> (Tables, Option<Seq<i32>>)
    decreases values.len(),
{
    if values.len() == 0 {
        (t, Some(Seq::empty()))
    } else {
        match resolve_all(t, values.drop_last()) {
            (before, Some(ids)) => match resolve_or_create(before, values.last()) {
                (after, Some(id)) => (after, Some(push_unique(ids, id))),
                (after, None) => (after, None),
            },
            (before, None) => (before, None),
        }
    }
}

/// The association that is inserted for the tag id at `j`.
pub open spec fn link_row(t: Tables, manager_id: i32, tag_ids: Seq<i32>, j: int)
    -> PromptManagerTagRow {
    PromptManagerTagRow {
        id: (t.last_prompt_manager_tag_id + 1 + j) as i32,
        prompt_manager_id: manager_id,
        tag_id: tag_ids[j],
    }
}

/// The tables after one association of the manager is inserted for each tag
/// id, in order.
pub open spec fn linked(t: Tables, manager_id: i32, tag_ids: Seq<i32>) -> Tables {
    Tables {
        prompt_manager_tags: t.prompt_manager_tags + Seq::new(
            tag_ids.len(),
            |j: int| link_row(t, manager_id, tag_ids, j),
        ),
        last_prompt_manager_tag_id: (t.last_prompt_manager_tag_id + tag_ids.len()) as i32,
        ..t
    }
}

/// The action that the stored manager has, read from its stored name. A
/// manager that is missing or logically deleted is a `NotFoundError`, and a
/// stored name that is no action's a `ParseError`.
pub open spec fn stored_action(t: Tables, id: i32) -> Result<
    Option<ActionType>,
    ApplicationErrorView,
> {
    match t.find_manager(id) {
        None => Err(ApplicationErrorView::NotFoundError),
        Some(row) => if row.deleted_at is Some {
            Err(ApplicationErrorView::NotFoundError)
        } else {
            parsed_action(row.action_type)
        },
    }
}

/// The tables after the manager's old action is detached.
pub open spec fn after_detach(t: Tables, u: PromptManagerUpdateView) -> Result<
    Tables,
    ApplicationErrorView,
> {
    match stored_action(t, u.id) {
        Err(e) => Err(e),
        Ok(None) => Ok(t),
        Ok(Some(old)) => match detach_outcome(t, u.id, old) {
            (detached, Ok(_)) => Ok(detached),
            (_, Err(e)) => Err(e),
        },
    }
}

/// The tables after the manager's row is written as well.
pub open spec fn after_write(t: Tables, u: PromptManagerUpdateView) -> Result<
    Tables,
    ApplicationErrorView,
> {
    match after_detach(t, u) {
        Err(e) => Err(e),
        Ok(detached) => Ok(detached.update_manager(u.row()).0),
    }
}

/// The tables after the manager's new action is attached as well.
pub open spec fn after_attach(t: Tables, u: PromptManagerUpdateView) -> Result<
    Tables,
    ApplicationErrorView,
> {
    match after_write(t, u) {
        Err(e) => Err(e),
        Ok(written) => match u.action_type {
            None => Ok(written),
            Some(action) => match attach_outcome(written, u.id, action) {
                (attached, Ok(_)) => Ok(attached),
                (_, Err(e)) => Err(e),
            },
        },
    }
}

/// The tables after the first `n` tags are resolved as well, and the ids
/// they resolve to.
pub open spec fn after_resolve(t: Tables, u: PromptManagerUpdateView, n: int) -> Result<
    (Tables, Seq<i32>),
    ApplicationErrorView,
> {
    match after_attach(t, u) {
        Err(e) => Err(e),
        Ok(attached) => match resolve_all(attached, u.tags.take(n)) {
            (resolved, Some(ids)) => Ok((resolved, ids)),
            (_, None) => Err(ApplicationErrorView::DBError(full())),
        },
    }
}

/// The tables after the manager's old associations are deleted as well.
pub open spec fn after_clear(t: Tables, u: PromptManagerUpdateView) -> Result<
    (Tables, Seq<i32>),
    ApplicationErrorView,
> {
    match after_resolve(t, u, u.tags.len() as int) {
        Err(e) => Err(e),
        Ok((resolved, ids)) => Ok((resolved.delete_manager_tags(u.id).0, ids)),
    }
}

/// The tables that an update leaves where it succeeds, and its error where
/// it fails.
///
/// The update fails with a `NotFoundError` where the manager is missing or
/// logically deleted, with a `ParseError` where its stored action name is no
/// action's, with a `DBError` where the old action cannot be detached
/// because settings or runs point at it, with a `ConflictError` where the
/// new action is attached already, and with a `DBError` where the ids of the
/// tags or of the associations are used up. Where it succeeds, the old
/// action is detached, the row is written, the new action is attached, every
/// tag value is resolved, and the manager's associations are replaced by one
/// for each resolved tag.
pub open spec fn updated(t: Tables, u: PromptManagerUpdateView) -> Result<
    Tables,
    ApplicationErrorView,
> {
    match after_clear(t, u) {
        Err(e) => Err(e),
        Ok((cleared, ids)) => if cleared.last_prompt_manager_tag_id + ids.len() <= i32::MAX {
            Ok(linked(cleared, u.id, ids))
        } else {
            Err(ApplicationErrorView::DBError(full()))
        },
    }
}

/// The store that an update leaves and its result. An update that fails
/// leaves the store as it was. With a transaction open already, the update
/// fails with a `DBError`.
pub open spec fn update_outcome(db: Database, u: PromptManagerUpdateView) -> (
    Database,
    Result<(), ApplicationErrorView>,
) {
    if db.saved is Some {
        (db, Err(ApplicationErrorView::DBError(nested())))
    } else {
        match updated(db.tables, u) {
            Ok(tables) => (Database { tables, saved: None }, Ok(())),
            Err(e) => (db, Err(e)),
        }
    }
}

/// What resolving a tag value does, as a result: the id of the tag that has
/// the value, which is inserted where it is missing. Where it is missing and
/// the ids of the table are used up, the result is a `DBError`.
pub open spec fn resolve_or_create_outcome(t: Tables, value: Seq<char>) -> (
    Tables,
    Result<i32, ApplicationErrorView>,
) {
    match t.find_tag_by_value(value) {
        Some(row) => (t, Ok(row.id)),
        None => match t.insert_tag(value) {
            (inserted, ReplyView::Inserted(id)) => (inserted, Ok(id)),
            (same, reply) => (same, Err(reply.failure())),
        },
    }
}

/// What attaching an action to a manager does: the extension row is
/// inserted. An action that is attached already is a `ConflictError`, and a
/// manager that does not exist a `DBError`.
pub open spec fn attach_outcome(t: Tables, manager_id: i32, action_type: ActionType) -> (
    Tables,
    Result<(), ApplicationErrorView>,
) {
    match t.insert_extension(action_type, manager_id) {
        (attached, ReplyView::Done) => (attached, Ok(())),
        (same, ReplyView::Conflict(detail)) => (
            same,
            Err(ApplicationErrorView::ConflictError(detail)),
        ),
        (same, reply) => (same, Err(reply.failure())),
    }
}

/// What detaching an action from a manager does: the extension row is
/// deleted, and nothing happens where there is none. An extension row that
/// settings or runs point at is a `DBError`.
pub open spec fn detach_outcome(t: Tables, manager_id: i32, action_type: ActionType) -> (
    Tables,
    Result<(), ApplicationErrorView>,
) {
    match t.delete_extension(action_type, manager_id) {
        (detached, ReplyView::Done) => (detached, Ok(())),
        (same, reply) => (same, Err(reply.failure())),
    }
}

/// The manager that is found under an id. A manager that is missing or
/// logically deleted is a `NotFoundError`, and a stored name that stands for
/// no variant a `ParseError`.
pub open spec fn find_prompt_manager_outcome(t: Tables, id: i32) -> Result<
    PromptManagerModelView,
    ApplicationErrorView,
> {
    match t.find_manager(id) {
        None => Err(ApplicationErrorView::NotFoundError),
        Some(row) => if row.deleted_at is Some {
            Err(ApplicationErrorView::NotFoundError)
        } else {
            model_of(row, t.tags_of(row.id))
        },
    }
}

/// The managers that are not logically deleted, in the order of their
/// insertion, each with the values of its tags.
pub open spec fn find_all_prompt_managers_outcome(t: Tables) -> Result<
    Seq<PromptManagerModelView>,
    ApplicationErrorView,
> {
    models_of(t.prompt_managers.filter(manager_live()).map_values(t.with_tags()))
}

/// What creating a manager does: a row with the title, no action, no API
/// and no deletion time is inserted, and its id is the result. An empty
/// title is a `ValidationError`.
pub open spec fn create_prompt_manager_outcome(t: Tables, title: Seq<char>) -> (
    Tables,
    Result<i32, ApplicationErrorView>,
) {
    if title.len() == 0 {
        (t, Err(ApplicationErrorView::ValidationError(empty_title())))
    } else {
        match t.insert_manager(title) {
            (inserted, ReplyView::Inserted(id)) => (inserted, Ok(id)),
            (same, reply) => (same, Err(reply.failure())),
        }
    }
}

/// What deleting a manager logically does: the time of deletion is written
/// into its row. A manager that is missing, or deleted already, is a
/// `NotFoundError`.
pub open spec fn logical_delete_prompt_manager_outcome(
    t: Tables,
    id: i32,
    deleted_at: Seq<char>,
) -> (Tables, Result<(), ApplicationErrorView>) {
    match t.find_manager(id) {
        None => (t, Err(ApplicationErrorView::NotFoundError)),
        Some(row) => if row.deleted_at is Some {
            (t, Err(ApplicationErrorView::NotFoundError))
        } else {
            (
                t.update_manager(PromptManagerRowView { deleted_at: Some(deleted_at), ..row }).0,
                Ok(()),
            )
        },
    }
}

/// What creating a setting does: a setting with current version 1 is
/// inserted, and its version 1 with an empty prompt, both or neither. With
/// a transaction open already, and where the manager has no comparing-prompt
/// extension row, the creation fails with a `DBError`.
pub open spec fn create_comparing_prompt_setting_outcome(db: Database, manager_id: i32) -> (
    Database,
    Result<i32, ApplicationErrorView>,
) {
    if db.saved is Some {
        (db, Err(ApplicationErrorView::DBError(nested())))
    } else {
        match db.tables.insert_setting(manager_id, 1) {
            (with_setting, ReplyView::Inserted(id)) => match with_setting.insert_setting_version(
                id,
                1,
                Seq::empty(),
            ) {
                (tables, ReplyView::Inserted(_)) => (Database { tables, saved: None }, Ok(id)),
                (_, reply) => (db, Err(reply.failure())),
            },
            (_, reply) => (db, Err(reply.failure())),
        }
    }
}

/// The setting that is found under an id, with the one version that it
/// points at. A setting that is missing or logically deleted is a
/// `NotFoundError`, and so is one whose current version is missing.
pub open spec fn find_comparing_prompt_setting_outcome(t: Tables, id: i32) -> Result<
    ComparingPromptSettingModelView,
    ApplicationErrorView,
> {
    match t.find_setting(id) {
        None => Err(ApplicationErrorView::NotFoundError),
        Some(setting) => if setting.deleted_at is Some {
            Err(ApplicationErrorView::NotFoundError)
        } else {
            match t.find_version(setting.id, setting.current_version) {
                None => Err(ApplicationErrorView::NotFoundError),
                Some(version) => Ok(setting_model(setting, seq![version])),
            }
        },
    }
}

/// A setting with all of its versions.
pub open spec fn with_all_versions(t: Tables) -> spec_fn(
    ComparingPromptSettingRowView,
) -> ComparingPromptSettingModelView {
    |s: ComparingPromptSettingRowView| setting_model(s, t.versions.filter(version_of(s.id)))
}

/// The settings of a manager that are not logically deleted, in the order
/// of their insertion, each with all of its versions.
pub open spec fn find_all_comparing_prompt_settings_outcome(t: Tables, manager_id: i32) -> Seq<
    ComparingPromptSettingModelView,
> {
    t.settings.filter(setting_live_of(manager_id)).map_values(with_all_versions(t))
}

/// What recording a run does: its record is inserted, and the record's id
/// is the result. A manager without a comparing-prompt extension row is a
/// `DBError`.
pub open spec fn create_comparing_prompt_run_outcome(
    t: Tables,
    run: ComparingPromptSettingRunModelView,
) -> (Tables, Result<i32, ApplicationErrorView>) {
    match t.insert_run(run_row(run)) {
        (inserted, ReplyView::Inserted(id)) => (inserted, Ok(id)),
        (same, reply) => (same, Err(reply.failure())),
    }
}

/// The run that is found under an id. A run that is missing is a
/// `NotFoundError`, and a stored provider name that stands for no provider a
/// `ParseError`.
pub open spec fn find_comparing_prompt_run_outcome(t: Tables, id: i32) -> Result<
    ComparingPromptSettingRunModelView,
    ApplicationErrorView,
> {
    match t.find_run(id) {
        None => Err(ApplicationErrorView::NotFoundError),
        Some(row) => run_model(row),
    }
}

} // verus!
