//! The tag registry: from a tag's text to its id.
//!
//! A tag is created the first time its value is used and never changed
//! afterwards. Resolving a value looks the tag up and inserts it where it is
//! missing. Where the insert breaks the uniqueness of values, somebody else
//! inserted the tag in between: the lookup is made once more and its answer
//! counts as success.

use crate::common::errors::{ApplicationError, ApplicationErrorView};
use crate::infra::repository::plan::{Step, StepView};
use crate::infra::storage::statement::{Reply, ReplyView, Statement, StatementView};
use vstd::prelude::*;

verus! {

/// Where resolving a tag stands.
#[derive(Clone, Copy, Debug, PartialEq, Eq, Structural)]
pub enum ResolvePhase {
    /// The lookup was issued.
    Find,
    /// The insert was issued.
    Create,
    /// The lookup after a uniqueness conflict was issued.
    FindAgain,
}

/// The plan that resolves one tag value to a tag id.
#[derive(Debug)]
pub struct ResolveTag {
    value: String,
    phase: ResolvePhase,
}

/// The mathematical value of a [`ResolveTag`].
pub struct ResolveTagView {
    pub value: Seq<char>,
    pub phase: ResolvePhase,
}

impl View for ResolveTag {
    type V = ResolveTagView;

    closed spec fn view(&self) -> ResolveTagView {
        ResolveTagView { value: self.value@, phase: self.phase }
    }
}

impl ResolveTagView {
    /// The detail of the error for a tag that is reported as existing and
    /// cannot be found.
    pub open spec fn vanished() -> Seq<char> {
        "tag not found after a uniqueness conflict"@
    }

    /// The first move: look the value up.
    pub open spec fn start(value: Seq<char>) -> (ResolveTagView, StatementView) {
        (ResolveTagView { value, phase: ResolvePhase::Find }, StatementView::FindTag { value })
    }

    /// The move that follows a reply.
    pub open spec fn next(self, reply: ReplyView) -> StepView<ResolveTagView, i32> {
        match self.phase {
            ResolvePhase::Find => match reply {
                ReplyView::Tag(Some(row)) => StepView::Finish(Ok(row.id)),
                ReplyView::Tag(None) => StepView::Issue(
                    ResolveTagView { value: self.value, phase: ResolvePhase::Create },
                    StatementView::InsertTag { value: self.value },
                ),
                _ => StepView::Finish(Err(reply.failure())),
            },
            ResolvePhase::Create => match reply {
                ReplyView::Inserted(id) => StepView::Finish(Ok(id)),
                ReplyView::Conflict(_) => StepView::Issue(
                    ResolveTagView { value: self.value, phase: ResolvePhase::FindAgain },
                    StatementView::FindTag { value: self.value },
                ),
                _ => StepView::Finish(Err(reply.failure())),
            },
            ResolvePhase::FindAgain => match reply {
                ReplyView::Tag(Some(row)) => StepView::Finish(Ok(row.id)),
                ReplyView::Tag(None) => StepView::Finish(
                    Err(ApplicationErrorView::DBError(ResolveTagView::vanished())),
                ),
                _ => StepView::Finish(Err(reply.failure())),
            },
        }
    }

    /// A bound on the number of statements still to come.
    pub open spec fn rank(self) -> nat {
        match self.phase {
            ResolvePhase::Find => 3,
            ResolvePhase::Create => 2,
            ResolvePhase::FindAgain => 1,
        }
    }
}

impl ResolveTag {
    /// Starts resolving `value`: the plan and its first statement.
    pub fn start(value: String) -> (first: (ResolveTag, Statement))
        ensures
            (first.0@, first.1@) == ResolveTagView::start(value@),
    {
        let statement = Statement::FindTag { value: value.clone() };
        (ResolveTag { value, phase: ResolvePhase::Find }, statement)
    }

    /// Decides on the reply to the statement that was issued last.
    pub fn next(self, reply: Reply) -> (step: Step<ResolveTag, i32>)
        ensures
            step@ == self@.next(reply@),
    {
        let ResolveTag { value, phase } = self;
        match phase {
            ResolvePhase::Find => match reply {
                Reply::Tag(Some(row)) => Step::Finish(Ok(row.id)),
                Reply::Tag(None) => {
                    let statement = Statement::InsertTag { value: value.clone() };
                    Step::Issue(ResolveTag { value, phase: ResolvePhase::Create }, statement)
                },
                other => Step::Finish(Err(other.into_failure())),
            },
            ResolvePhase::Create => match reply {
                Reply::Inserted(id) => Step::Finish(Ok(id)),
                Reply::Conflict(_) => {
                    let statement = Statement::FindTag { value: value.clone() };
                    Step::Issue(ResolveTag { value, phase: ResolvePhase::FindAgain }, statement)
                },
                other => Step::Finish(Err(other.into_failure())),
            },
            ResolvePhase::FindAgain => match reply {
                Reply::Tag(Some(row)) => Step::Finish(Ok(row.id)),
                Reply::Tag(None) => Step::Finish(
                    Err(
                        ApplicationError::DBError(
                            "tag not found after a uniqueness conflict".to_string(),
                        ),
                    ),
                ),
                other => Step::Finish(Err(other.into_failure())),
            },
        }
    }
}

} // verus!
