//! The update of a prompt manager.
//!
//! A manager, the single extension row of its action and its tag
//! associations form one aggregate. The update plan rewrites all three inside
//! one transaction: it detaches the old action, writes the manager, attaches
//! the new action, resolves every tag, and replaces the associations. Any
//! failure rolls the transaction back.

use crate::common::errors::{ApplicationError, ApplicationErrorView};
use crate::common::text::views;
use crate::domain::prompt_manager::{action_name, ActionType, api_name, APIType};
use crate::infra::repository::extension::{
    attach, attached, attached_spec, detach, detached, detached_spec,
};
use crate::infra::repository::plan::{Step, StepView};
use crate::infra::repository::tag::{ResolveTag, ResolveTagView};
use crate::infra::storage::rows::{PromptManagerRow, PromptManagerRowView};
use crate::infra::storage::statement::{Reply, ReplyView, Statement, StatementView};
use vstd::prelude::*;

verus! {

/// Whether `ids` holds `id`.
pub fn holds_id(ids: &Vec<i32>, id: i32) -> (r: bool)
    ensures
        r == ids@.contains(id),
{
    let mut i: usize = 0;
    while i < ids.len()
        invariant
            i <= ids.len(),
            forall|j: int| 0 <= j < i ==> ids@[j] != id,
        decreases ids.len() - i,
    {
        if ids[i] == id {
            return true;
        }
        i += 1;
    }
    false
}

/// `ids` with `id` at its end, unless `ids` holds it already.
pub open spec fn push_unique(ids: Seq<i32>, id: i32) -> Seq<i32> {
    if ids.contains(id) {
        ids
    } else {
        ids.push(id)
    }
}

/// The new content of a manager.
#[derive(Debug)]
pub struct PromptManagerUpdate {
    /// The manager to update.
    pub id: i32,
    /// Its new title.
    pub title: String,
    /// Its new action, if any.
    pub action_type: Option<ActionType>,
    /// Its new API, if any.
    pub api_type: Option<APIType>,
    /// The values of its new tags. A value that occurs twice counts once.
    pub tags: Vec<String>,
}

/// The mathematical value of a [`PromptManagerUpdate`].
pub struct PromptManagerUpdateView {
    pub id: i32,
    pub title: Seq<char>,
    pub action_type: Option<ActionType>,
    pub api_type: Option<APIType>,
    pub tags: Seq<Seq<char>>,
}

impl View for PromptManagerUpdate {
    type V = PromptManagerUpdateView;

    open spec fn view(&self) -> PromptManagerUpdateView {
        PromptManagerUpdateView {
            id: self.id,
            title: self.title@,
            action_type: self.action_type,
            api_type: self.api_type,
            tags: views(self.tags@),
        }
    }
}

impl PromptManagerUpdateView {
    /// The row that the update writes: the new title, the canonical names of
    /// the new action and API, and no deletion time.
    pub open spec fn row(self) -> PromptManagerRowView {
        PromptManagerRowView {
            id: self.id,
            title: self.title,
            action_type: action_name(self.action_type),
            api_type: api_name(self.api_type),
            deleted_at: None,
        }
    }
}

impl PromptManagerUpdate {
    /// The row that the update writes.
    pub fn row(&self) -> (row: PromptManagerRow)
        ensures
            row@ == self@.row(),
    {
        PromptManagerRow {
            id: self.id,
            title: self.title.clone(),
            action_type: match self.action_type {
                Some(a) => Some(a.to_string()),
                None => None,
            },
            api_type: match self.api_type {
                Some(a) => Some(a.to_string()),
                None => None,
            },
            deleted_at: None,
        }
    }
}

/// Where an update stands: the statement that was issued last.
#[derive(Debug)]
pub enum UpdatePhase {
    /// The transaction is being opened.
    Begin,
    /// The manager is being loaded.
    Load,
    /// The old action is being detached.
    Detach,
    /// The manager's row is being written.
    Write,
    /// The new action is being attached.
    Attach,
    /// The tag at `index` is being resolved.
    Resolve { index: usize, tag: ResolveTag },
    /// The old associations are being deleted.
    Clear,
    /// The association with the tag id at `index` is being inserted.
    Link { index: usize },
    /// The transaction is being committed.
    Commit,
    /// The transaction is being rolled back because of `error`.
    Abort { error: ApplicationError },
}

/// The mathematical value of an [`UpdatePhase`].
pub enum UpdatePhaseView {
    Begin,
    Load,
    Detach,
    Write,
    Attach,
    Resolve { index: int, tag: ResolveTagView },
    Clear,
    Link { index: int },
    Commit,
    Abort { error: ApplicationErrorView },
}

impl View for UpdatePhase {
    type V = UpdatePhaseView;

    open spec fn view(&self) -> UpdatePhaseView {
        match *self {
            UpdatePhase::Begin => UpdatePhaseView::Begin,
            UpdatePhase::Load => UpdatePhaseView::Load,
            UpdatePhase::Detach => UpdatePhaseView::Detach,
            UpdatePhase::Write => UpdatePhaseView::Write,
            UpdatePhase::Attach => UpdatePhaseView::Attach,
            UpdatePhase::Resolve { index, tag } => UpdatePhaseView::Resolve {
                index: index as int,
                tag: tag@,
            },
            UpdatePhase::Clear => UpdatePhaseView::Clear,
            UpdatePhase::Link { index } => UpdatePhaseView::Link { index: index as int },
            UpdatePhase::Commit => UpdatePhaseView::Commit,
            UpdatePhase::Abort { error } => UpdatePhaseView::Abort { error: error@ },
        }
    }
}

/// The plan that updates a manager with its action and its tags.
#[derive(Debug)]
pub struct UpdatePromptManager {
    update: PromptManagerUpdate,
    tag_ids: Vec<i32>,
    phase: UpdatePhase,
}

/// The mathematical value of an [`UpdatePromptManager`].
pub struct UpdatePromptManagerView {
    /// What the manager is to become.
    pub update: PromptManagerUpdateView,
    /// The ids of the tags resolved so far, each once, in the order in which
    /// they first came.
    pub tag_ids: Seq<i32>,
    /// Where the plan stands.
    pub phase: UpdatePhaseView,
}

impl View for UpdatePromptManager {
    type V = UpdatePromptManagerView;

    closed spec fn view(&self) -> UpdatePromptManagerView {
        UpdatePromptManagerView {
            update: self.update@,
            tag_ids: self.tag_ids@,
            phase: self.phase@,
        }
    }
}

impl UpdatePromptManagerView {
    /// The indices that a phase holds lie within the lists they point into.
    pub open spec fn wf(self) -> bool {
        &&& self.tag_ids.len() <= self.update.tags.len()
        &&& match self.phase {
            UpdatePhaseView::Resolve { index, tag } => {
                &&& 0 <= index < self.update.tags.len()
                &&& self.tag_ids.len() <= index
            },
            UpdatePhaseView::Link { index } => 0 <= index < self.tag_ids.len(),
            UpdatePhaseView::Clear
            | UpdatePhaseView::Commit
            | UpdatePhaseView::Abort { .. } => true,
            _ => self.tag_ids.len() == 0,
        }
    }

    /// The same plan in another phase.
    pub open spec fn at(self, phase: UpdatePhaseView) -> UpdatePromptManagerView {
        UpdatePromptManagerView { phase, ..self }
    }

    /// Roll back, and report `error` afterwards.
    pub open spec fn abort(self, error: ApplicationErrorView) -> StepView<
        UpdatePromptManagerView,
        (),
    > {
        StepView::Issue(self.at(UpdatePhaseView::Abort { error }), StatementView::Rollback)
    }

    /// Write the manager's row.
    pub open spec fn write(self) -> StepView<UpdatePromptManagerView, ()> {
        StepView::Issue(
            self.at(UpdatePhaseView::Write),
            StatementView::UpdateManager { row: self.update.row() },
        )
    }

    /// Resolve the tag at `index`, or delete the old associations once every
    /// tag is resolved.
    pub open spec fn resolve(self, index: int) -> StepView<UpdatePromptManagerView, ()> {
        if 0 <= index < self.update.tags.len() {
            let (tag, statement) = ResolveTagView::start(self.update.tags[index]);
            StepView::Issue(self.at(UpdatePhaseView::Resolve { index, tag }), statement)
        } else {
            StepView::Issue(
                self.at(UpdatePhaseView::Clear),
                StatementView::DeleteManagerTags { manager_id: self.update.id },
            )
        }
    }

    /// Insert the association with the tag id at `index`, or commit once
    /// every association is inserted.
    pub open spec fn link(self, index: int) -> StepView<UpdatePromptManagerView, ()> {
        if 0 <= index < self.tag_ids.len() {
            StepView::Issue(
                self.at(UpdatePhaseView::Link { index }),
                StatementView::InsertManagerTag {
                    manager_id: self.update.id,
                    tag_id: self.tag_ids[index],
                },
            )
        } else {
            StepView::Issue(self.at(UpdatePhaseView::Commit), StatementView::Commit)
        }
    }

    /// The first move: open the transaction.
    pub open spec fn start(update: PromptManagerUpdateView) -> StepView<
        UpdatePromptManagerView,
        (),
    > {
        StepView::Issue(
            UpdatePromptManagerView {
                update,
                tag_ids: Seq::empty(),
                phase: UpdatePhaseView::Begin,
            },
            StatementView::Begin,
        )
    }

    /// The move that follows a reply.
    pub open spec fn next(self, reply: ReplyView) -> StepView<UpdatePromptManagerView, ()> {
        match self.phase {
            UpdatePhaseView::Begin => match reply {
                ReplyView::Done => StepView::Issue(
                    self.at(UpdatePhaseView::Load),
                    StatementView::FindManager { id: self.update.id },
                ),
                _ => StepView::Finish(Err(reply.failure())),
            },
            UpdatePhaseView::Load => match reply {
                ReplyView::Manager(Some(row)) => if row.deleted_at is Some {
                    self.abort(ApplicationErrorView::NotFoundError)
                } else {
                    match row.action_type {
                        None => self.write(),
                        Some(name) => match ActionType::parse(name) {
                            Some(old) => StepView::Issue(
                                self.at(UpdatePhaseView::Detach),
                                StatementView::DeleteExtension {
                                    action_type: old,
                                    manager_id: self.update.id,
                                },
                            ),
                            None => self.abort(
                                ApplicationErrorView::ParseError(ActionType::parse_failure()),
                            ),
                        },
                    }
                },
                ReplyView::Manager(None) => self.abort(ApplicationErrorView::NotFoundError),
                _ => self.abort(reply.failure()),
            },
            UpdatePhaseView::Detach => match detached_spec(reply) {
                Ok(_) => self.write(),
                Err(e) => self.abort(e),
            },
            UpdatePhaseView::Write => match reply {
                ReplyView::Done => match self.update.action_type {
                    Some(a) => StepView::Issue(
                        self.at(UpdatePhaseView::Attach),
                        StatementView::InsertExtension {
                            action_type: a,
                            manager_id: self.update.id,
                        },
                    ),
                    None => self.resolve(0),
                },
                _ => self.abort(reply.failure()),
            },
            UpdatePhaseView::Attach => match attached_spec(reply) {
                Ok(_) => self.resolve(0),
                Err(e) => self.abort(e),
            },
            UpdatePhaseView::Resolve { index, tag } => match tag.next(reply) {
                StepView::Issue(tag, statement) => StepView::Issue(
                    self.at(UpdatePhaseView::Resolve { index, tag }),
                    statement,
                ),
                StepView::Finish(Ok(tag_id)) => UpdatePromptManagerView {
                    tag_ids: push_unique(self.tag_ids, tag_id),
                    ..self
                }.resolve(index + 1),
                StepView::Finish(Err(e)) => self.abort(e),
            },
            UpdatePhaseView::Clear => match reply {
                ReplyView::Done => self.link(0),
                _ => self.abort(reply.failure()),
            },
            UpdatePhaseView::Link { index } => match reply {
                ReplyView::Inserted(_) => self.link(index + 1),
                _ => self.abort(reply.failure()),
            },
            UpdatePhaseView::Commit => match reply {
                ReplyView::Done => StepView::Finish(Ok(())),
                _ => self.abort(reply.failure()),
            },
            UpdatePhaseView::Abort { error } => StepView::Finish(Err(error)),
        }
    }

    /// A bound on the number of statements still to come.
    pub open spec fn rank(self) -> nat {
        let t = self.update.tags.len();
        match self.phase {
            UpdatePhaseView::Abort { .. } => 1,
            UpdatePhaseView::Commit => 2,
            UpdatePhaseView::Link { index } => (2 + (t - index)) as nat,
            UpdatePhaseView::Clear => t + 3,
            UpdatePhaseView::Resolve { index, tag } => (t + 4 + 4 * (t - index - 1)
                + tag.rank()) as nat,
            UpdatePhaseView::Attach => 5 * t + 4,
            UpdatePhaseView::Write => 5 * t + 5,
            UpdatePhaseView::Detach => 5 * t + 6,
            UpdatePhaseView::Load => 5 * t + 7,
            UpdatePhaseView::Begin => 5 * t + 8,
        }
    }

    /// Every move keeps the plan well formed and brings it nearer its end.
    pub proof fn lemma_next_progress(self, reply: ReplyView)
        requires
            self.wf(),
        ensures
            self.next(reply) matches StepView::Issue(s, _) ==> s.wf() && s.rank() < self.rank(),
    {
    }
}

impl UpdatePromptManager {
    #[verifier::type_invariant]
    spec fn inv(self) -> bool {
        self@.wf()
    }

    /// Starts an update: the plan and its first statement.
    pub fn begin(update: PromptManagerUpdate) -> (step: Step<UpdatePromptManager, ()>)
        ensures
            step@ == UpdatePromptManagerView::start(update@),
    {
        Step::Issue(
            UpdatePromptManager { update, tag_ids: Vec::new(), phase: UpdatePhase::Begin },
            Statement::Begin,
        )
    }

    /// Starts the update of manager `id`: the plan and its first statement.
    pub fn start(
        id: i32,
        title: &str,
        action_type: Option<ActionType>,
        api_type: Option<APIType>,
        tags: Vec<String>,
    ) -> (step: Step<UpdatePromptManager, ()>)
        ensures
            step@ == UpdatePromptManagerView::start(
                PromptManagerUpdateView {
                    id,
                    title: title@,
                    action_type,
                    api_type,
                    tags: views(tags@),
                },
            ),
    {
        UpdatePromptManager::begin(
            PromptManagerUpdate { id, title: title.to_string(), action_type, api_type, tags },
        )
    }

    fn abort(
        update: PromptManagerUpdate,
        tag_ids: Vec<i32>,
        error: ApplicationError,
    ) -> (step: Step<UpdatePromptManager, ()>)
        requires
            tag_ids@.len() <= update.tags@.len(),
        ensures
            step@ == (UpdatePromptManagerView {
                update: update@,
                tag_ids: tag_ids@,
                phase: UpdatePhaseView::Begin,
            }).abort(error@),
    {
        Step::Issue(
            UpdatePromptManager { update, tag_ids, phase: UpdatePhase::Abort { error } },
            Statement::Rollback,
        )
    }

    fn write(update: PromptManagerUpdate, tag_ids: Vec<i32>) -> (step: Step<
        UpdatePromptManager,
        (),
    >)
        requires
            tag_ids@.len() == 0,
        ensures
            step@ == (UpdatePromptManagerView {
                update: update@,
                tag_ids: tag_ids@,
                phase: UpdatePhaseView::Begin,
            }).write(),
    {
        let row = update.row();
        Step::Issue(
            UpdatePromptManager { update, tag_ids, phase: UpdatePhase::Write },
            Statement::UpdateManager { row },
        )
    }

    fn resolve(
        update: PromptManagerUpdate,
        tag_ids: Vec<i32>,
        index: usize,
    ) -> (step: Step<UpdatePromptManager, ()>)
        requires
            tag_ids@.len() <= index <= update.tags@.len(),
        ensures
            step@ == (UpdatePromptManagerView {
                update: update@,
                tag_ids: tag_ids@,
                phase: UpdatePhaseView::Begin,
            }).resolve(index as int),
    {
        if index < update.tags.len() {
            let (tag, statement) = ResolveTag::start(update.tags[index].clone());
            Step::Issue(
                UpdatePromptManager { update, tag_ids, phase: UpdatePhase::Resolve { index, tag } },
                statement,
            )
        } else {
            let statement = Statement::DeleteManagerTags { manager_id: update.id };
            Step::Issue(
                UpdatePromptManager { update, tag_ids, phase: UpdatePhase::Clear },
                statement,
            )
        }
    }

    fn link(
        update: PromptManagerUpdate,
        tag_ids: Vec<i32>,
        index: usize,
    ) -> (step: Step<UpdatePromptManager, ()>)
        requires
            tag_ids@.len() <= update.tags@.len(),
        ensures
            step@ == (UpdatePromptManagerView {
                update: update@,
                tag_ids: tag_ids@,
                phase: UpdatePhaseView::Begin,
            }).link(index as int),
    {
        if index < tag_ids.len() {
            let statement = Statement::InsertManagerTag {
                manager_id: update.id,
                tag_id: tag_ids[index],
            };
            Step::Issue(
                UpdatePromptManager { update, tag_ids, phase: UpdatePhase::Link { index } },
                statement,
            )
        } else {
            Step::Issue(
                UpdatePromptManager { update, tag_ids, phase: UpdatePhase::Commit },
                Statement::Commit,
            )
        }
    }

    /// Decides on the reply to the statement that was issued last.
    pub fn next(self, reply: Reply) -> (step: Step<UpdatePromptManager, ()>)
        ensures
            step@ == self@.next(reply@),
    {
        proof {
            use_type_invariant(&self);
        }
        let UpdatePromptManager { update, tag_ids, phase } = self;
        match phase {
            UpdatePhase::Begin => match reply {
                Reply::Done => {
                    let statement = Statement::FindManager { id: update.id };
                    Step::Issue(
                        UpdatePromptManager { update, tag_ids, phase: UpdatePhase::Load },
                        statement,
                    )
                },
                other => Step::Finish(Err(other.into_failure())),
            },
            UpdatePhase::Load => match reply {
                Reply::Manager(Some(row)) => {
                    if row.deleted_at.is_some() {
                        UpdatePromptManager::abort(update, tag_ids, ApplicationError::NotFoundError)
                    } else {
                        match row.action_type {
                            None => UpdatePromptManager::write(update, tag_ids),
                            Some(name) => match ActionType::from_str(name.as_str()) {
                                Ok(old) => {
                                    let statement = detach(update.id, old);
                                    Step::Issue(
                                        UpdatePromptManager {
                                            update,
                                            tag_ids,
                                            phase: UpdatePhase::Detach,
                                        },
                                        statement,
                                    )
                                },
                                Err(e) => UpdatePromptManager::abort(update, tag_ids, e),
                            },
                        }
                    }
                },
                Reply::Manager(None) => UpdatePromptManager::abort(
                    update,
                    tag_ids,
                    ApplicationError::NotFoundError,
                ),
                other => UpdatePromptManager::abort(update, tag_ids, other.into_failure()),
            },
            UpdatePhase::Detach => match detached(reply) {
                Ok(_) => UpdatePromptManager::write(update, tag_ids),
                Err(e) => UpdatePromptManager::abort(update, tag_ids, e),
            },
            UpdatePhase::Write => match reply {
                Reply::Done => match update.action_type {
                    Some(a) => {
                        let statement = attach(update.id, a);
                        Step::Issue(
                            UpdatePromptManager { update, tag_ids, phase: UpdatePhase::Attach },
                            statement,
                        )
                    },
                    None => UpdatePromptManager::resolve(update, tag_ids, 0),
                },
                other => UpdatePromptManager::abort(update, tag_ids, other.into_failure()),
            },
            UpdatePhase::Attach => match attached(reply) {
                Ok(_) => UpdatePromptManager::resolve(update, tag_ids, 0),
                Err(e) => UpdatePromptManager::abort(update, tag_ids, e),
            },
            UpdatePhase::Resolve { index, tag } => match tag.next(reply) {
                Step::Issue(tag, statement) => Step::Issue(
                    UpdatePromptManager {
                        update,
                        tag_ids,
                        phase: UpdatePhase::Resolve { index, tag },
                    },
                    statement,
                ),
                Step::Finish(Ok(tag_id)) => {
                    let mut tag_ids = tag_ids;
                    if !holds_id(&tag_ids, tag_id) {
                        tag_ids.push(tag_id);
                    }
                    let count = update.tags.len();
                    assert(index < count);
                    UpdatePromptManager::resolve(update, tag_ids, index + 1)
                },
                Step::Finish(Err(e)) => UpdatePromptManager::abort(update, tag_ids, e),
            },
            UpdatePhase::Clear => match reply {
                Reply::Done => UpdatePromptManager::link(update, tag_ids, 0),
                other => UpdatePromptManager::abort(update, tag_ids, other.into_failure()),
            },
            UpdatePhase::Link { index } => match reply {
                Reply::Inserted(_) => {
                    let count = tag_ids.len();
                    assert(index < count);
                    UpdatePromptManager::link(update, tag_ids, index + 1)
                },
                other => UpdatePromptManager::abort(update, tag_ids, other.into_failure()),
            },
            UpdatePhase::Commit => match reply {
                Reply::Done => Step::Finish(Ok(())),
                other => UpdatePromptManager::abort(update, tag_ids, other.into_failure()),
            },
            UpdatePhase::Abort { error } => Step::Finish(Err(error)),
        }
    }
}

} // verus!
