//! What a plan hands back after each decision.

use crate::common::errors::{ApplicationError, ApplicationErrorView};
use crate::common::text::views;
use crate::infra::storage::statement::{Reply, ReplyView, Statement, StatementView};
use vstd::prelude::*;

verus! {

/// The next move of a plan.
#[derive(Debug)]
pub enum Step<S, T> {
    /// Run the statement and hand its reply to the plan, which is now in the
    /// given state.
    Issue(S, Statement),
    /// The operation is over, with this result.
    Finish(Result<T, ApplicationError>),
}

/// The mathematical value of a [`Step`].
pub enum StepView<S, T> {
    Issue(S, StatementView),
    Finish(Result<T, ApplicationErrorView>),
}

/// The view of a result.
pub open spec fn result_view<T: View>(r: Result<T, ApplicationError>) -> Result<
    T::V,
    ApplicationErrorView,
> {
    match r {
        Ok(x) => Ok(x@),
        Err(e) => Err(e@),
    }
}

/// The view of a result that holds a list.
pub open spec fn list_view<T: View>(r: Result<Vec<T>, ApplicationError>) -> Result<
    Seq<T::V>,
    ApplicationErrorView,
> {
    match r {
        Ok(list) => Ok(views(list@)),
        Err(e) => Err(e@),
    }
}

impl<S: View, T: View> View for Step<S, T> {
    type V = StepView<S::V, T::V>;

    open spec fn view(&self) -> StepView<S::V, T::V> {
        match *self {
            Step::Issue(s, st) => StepView::Issue(s@, st@),
            Step::Finish(r) => StepView::Finish(result_view(r)),
        }
    }
}

impl ReplyView {
    /// The detail of the error for a reply that does not answer the
    /// statement that was issued.
    pub open spec fn unexpected() -> Seq<char> {
        "unexpected reply from storage"@
    }

    /// The error that a reply stands for when the statement did not succeed:
    /// a storage failure keeps its detail, and any other reply is out of
    /// place.
    pub open spec fn failure(self) -> ApplicationErrorView {
        match self {
            ReplyView::Failed(m) => ApplicationErrorView::DBError(m),
            ReplyView::Conflict(m) => ApplicationErrorView::DBError(m),
            _ => ApplicationErrorView::UnknownError(ReplyView::unexpected()),
        }
    }
}

impl Reply {
    /// The error that the reply stands for when the statement did not
    /// succeed.
    pub fn into_failure(self) -> (e: ApplicationError)
        ensures
            e@ == self@.failure(),
    {
        match self {
            Reply::Failed(m) => ApplicationError::DBError(m),
            Reply::Conflict(m) => ApplicationError::DBError(m),
            _ => ApplicationError::UnknownError("unexpected reply from storage".to_string()),
        }
    }
}

} // verus!
