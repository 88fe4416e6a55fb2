//! The action extension manager.
//!
//! Each action has a table of its own that holds one marker row for every
//! manager the action is attached to. Attaching inserts that row and
//! detaching deletes it. A manager has at most one action, so whoever changes
//! it detaches the old action before attaching the new one.

use crate::common::errors::{ApplicationError, ApplicationErrorView};
use crate::domain::prompt_manager::ActionType;
use crate::infra::repository::plan::result_view;
use crate::infra::storage::statement::{Reply, ReplyView, Statement, StatementView};
use vstd::prelude::*;

verus! {

/// What attaching amounts to, given the reply to the insert.
pub open spec fn attached_spec(reply: ReplyView) -> Result<(), ApplicationErrorView> {
    match reply {
        ReplyView::Done => Ok(()),
        ReplyView::Conflict(m) => Err(ApplicationErrorView::ConflictError(m)),
        _ => Err(reply.failure()),
    }
}

/// What detaching amounts to, given the reply to the delete.
pub open spec fn detached_spec(reply: ReplyView) -> Result<(), ApplicationErrorView> {
    match reply {
        ReplyView::Done => Ok(()),
        _ => Err(reply.failure()),
    }
}

/// The statement that attaches an action to a manager.
pub fn attach(manager_id: i32, action_type: ActionType) -> (st: Statement)
    ensures
        st@ == (StatementView::InsertExtension { action_type, manager_id }),
{
    Statement::InsertExtension { action_type, manager_id }
}

/// Reads the reply to [`attach`]. A row that exists already is a
/// `ConflictError`; any other failure is reported as storage gave it.
pub fn attached(reply: Reply) -> (r: Result<(), ApplicationError>)
    ensures
        result_view(r) == attached_spec(reply@),
{
    match reply {
        Reply::Done => Ok(()),
        Reply::Conflict(m) => Err(ApplicationError::ConflictError(m)),
        other => Err(other.into_failure()),
    }
}

/// The statement that detaches an action from a manager. Where nothing is
/// attached, the statement deletes nothing and succeeds.
pub fn detach(manager_id: i32, action_type: ActionType) -> (st: Statement)
    ensures
        st@ == (StatementView::DeleteExtension { action_type, manager_id }),
{
    Statement::DeleteExtension { action_type, manager_id }
}

/// Reads the reply to [`detach`].
pub fn detached(reply: Reply) -> (r: Result<(), ApplicationError>)
    ensures
        result_view(r) == detached_spec(reply@),
{
    match reply {
        Reply::Done => Ok(()),
        other => Err(other.into_failure()),
    }
}

} // verus!
