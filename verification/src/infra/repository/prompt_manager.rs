//! Reading, creating and deleting prompt managers.
//!
//! A manager is never removed from storage. Deleting one writes the time of
//! deletion into its row, and from then on no operation finds it.

use crate::common::clock::utc_now;
use crate::common::errors::{ApplicationError, ApplicationErrorView};
use crate::common::text::{lemma_views_push, opt_text, views};
use crate::domain::prompt_manager::{
    ActionType, APIType, PromptManagerModel, PromptManagerModelView,
};
use crate::infra::repository::plan::{list_view, result_view, Step, StepView};
use crate::infra::storage::rows::{
    ManagerWithTagsView, PromptManagerRow, PromptManagerRowView, TagRow, TagRowView,
};
use crate::infra::storage::statement::{Reply, ReplyView, Statement, StatementView};
use vstd::prelude::*;

verus! {

/// The action that a stored name stands for. A name that is no action's is a
/// `ParseError`.
pub open spec fn parsed_action(name: Option<Seq<char>>) -> Result<
    Option<ActionType>,
    ApplicationErrorView,
> {
    match name {
        None => Ok(None),
        Some(name) => match ActionType::parse(name) {
            Some(action) => Ok(Some(action)),
            None => Err(ApplicationErrorView::ParseError(ActionType::parse_failure())),
        },
    }
}

/// The API that a stored name stands for. A name that is no API's is a
/// `ParseError`.
pub open spec fn parsed_api(name: Option<Seq<char>>) -> Result<
    Option<APIType>,
    ApplicationErrorView,
> {
    match name {
        None => Ok(None),
        Some(name) => match APIType::parse(name) {
            Some(api) => Ok(Some(api)),
            None => Err(ApplicationErrorView::ParseError(APIType::parse_failure())),
        },
    }
}

/// The value of a tag.
pub open spec fn value_of() -> spec_fn(TagRowView) -> Seq<char> {
    |t: TagRowView| t.value
}

/// The manager that a row and its tags stand for: the row's id and title,
/// the action and the API that its stored names stand for, and the values of
/// the tags in their order.
pub open spec fn model_of(row: PromptManagerRowView, tags: Seq<TagRowView>) -> Result<
    PromptManagerModelView,
    ApplicationErrorView,
> {
    match parsed_action(row.action_type) {
        Err(e) => Err(e),
        Ok(action_type) => match parsed_api(row.api_type) {
            Err(e) => Err(e),
            Ok(api_type) => Ok(
                PromptManagerModelView {
                    id: row.id,
                    title: row.title,
                    action_type,
                    api_type,
                    tags: tags.map_values(value_of()),
                },
            ),
        },
    }
}

/// The managers that the entries stand for, in their order, without those
/// that are logically deleted. The first entry that stands for no manager
/// decides the error.
pub open spec fn models_of(entries: Seq<ManagerWithTagsView>) -> Result<
    Seq<PromptManagerModelView>,
    ApplicationErrorView,
>
    decreases entries.len(),
{
    if entries.len() == 0 {
        Ok(Seq::empty())
    } else {
        match models_of(entries.drop_last()) {
            Err(e) => Err(e),
            Ok(models) => if entries.last().manager.deleted_at is Some {
                Ok(models)
            } else {
                match model_of(entries.last().manager, entries.last().tags) {
                    Err(e) => Err(e),
                    Ok(model) => Ok(models.push(model)),
                }
            },
        }
    }
}

/// An entry that stands for no manager makes every longer list fail in the
/// same way.
pub proof fn lemma_models_of_fails(entries: Seq<ManagerWithTagsView>, k: int, n: int)
    requires
        0 <= k <= n <= entries.len(),
        models_of(entries.take(k)) is Err,
    ensures
        models_of(entries.take(n)) == models_of(entries.take(k)),
    decreases n - k,
{
    if k < n {
        lemma_models_of_fails(entries, k, n - 1);
        assert(entries.take(n).drop_last() == entries.take(n - 1));
    }
}

fn read_action(name: &Option<String>) -> (r: Result<Option<ActionType>, ApplicationError>)
    ensures
        match parsed_action(opt_text(*name)) {
            Ok(a) => r == Ok::<Option<ActionType>, ApplicationError>(a),
            Err(e) => r is Err && r->Err_0@ == e,
        },
{
    match name {
        None => Ok(None),
        Some(name) => match ActionType::from_str(name.as_str()) {
            Ok(action) => Ok(Some(action)),
            Err(e) => Err(e),
        },
    }
}

fn read_api(name: &Option<String>) -> (r: Result<Option<APIType>, ApplicationError>)
    ensures
        match parsed_api(opt_text(*name)) {
            Ok(a) => r == Ok::<Option<APIType>, ApplicationError>(a),
            Err(e) => r is Err && r->Err_0@ == e,
        },
{
    match name {
        None => Ok(None),
        Some(name) => match APIType::from_str(name.as_str()) {
            Ok(api) => Ok(Some(api)),
            Err(e) => Err(e),
        },
    }
}

fn values_of(tags: &Vec<TagRow>) -> (values: Vec<String>)
    ensures
        views(values@) == views(tags@).map_values(value_of()),
{
    let mut values: Vec<String> = Vec::new();
    let mut i: usize = 0;
    while i < tags.len()
        invariant
            i <= tags.len(),
            values@.len() == i,
            forall|j: int| 0 <= j < i ==> values@[j]@ == tags@[j].value@,
        decreases tags.len() - i,
    {
        values.push(tags[i].value.clone());
        i += 1;
    }
    values
}

/// The manager that a row and its tags stand for.
pub fn manager_model(row: PromptManagerRow, tags: &Vec<TagRow>) -> (r: Result<
    PromptManagerModel,
    ApplicationError,
>)
    ensures
        result_view(r) == model_of(row@, views(tags@)),
{
    let action_type = match read_action(&row.action_type) {
        Ok(a) => a,
        Err(e) => {
            return Err(e);
        },
    };
    let api_type = match read_api(&row.api_type) {
        Ok(a) => a,
        Err(e) => {
            return Err(e);
        },
    };
    Ok(
        PromptManagerModel {
            id: row.id,
            title: row.title,
            action_type,
            api_type,
            tags: values_of(tags),
        },
    )
}

/// The plan that finds one manager: load the row, and its tags after it.
#[derive(Debug)]
pub enum FindPromptManager {
    /// The row was asked for.
    Load,
    /// The tags of the row were asked for.
    Tags { row: PromptManagerRow },
}

/// The mathematical value of a [`FindPromptManager`].
pub enum FindPromptManagerView {
    Load,
    Tags { row: PromptManagerRowView },
}

impl View for FindPromptManager {
    type V = FindPromptManagerView;

    open spec fn view(&self) -> FindPromptManagerView {
        match *self {
            FindPromptManager::Load => FindPromptManagerView::Load,
            FindPromptManager::Tags { row } => FindPromptManagerView::Tags { row: row@ },
        }
    }
}

impl FindPromptManagerView {
    /// The first move: ask for the row.
    pub open spec fn start(id: i32) -> StepView<FindPromptManagerView, PromptManagerModelView> {
        StepView::Issue(FindPromptManagerView::Load, StatementView::FindManager { id })
    }

    /// The move that follows a reply. A manager that is missing or logically
    /// deleted is a `NotFoundError`.
    pub open spec fn next(self, reply: ReplyView) -> StepView<
        FindPromptManagerView,
        PromptManagerModelView,
    > {
        match self {
            FindPromptManagerView::Load => match reply {
                ReplyView::Manager(Some(row)) => if row.deleted_at is Some {
                    StepView::Finish(Err(ApplicationErrorView::NotFoundError))
                } else {
                    StepView::Issue(
                        FindPromptManagerView::Tags { row },
                        StatementView::FindTagsOfManager { manager_id: row.id },
                    )
                },
                ReplyView::Manager(None) => StepView::Finish(
                    Err(ApplicationErrorView::NotFoundError),
                ),
                _ => StepView::Finish(Err(reply.failure())),
            },
            FindPromptManagerView::Tags { row } => match reply {
                ReplyView::Tags(tags) => StepView::Finish(model_of(row, tags)),
                _ => StepView::Finish(Err(reply.failure())),
            },
        }
    }

    /// A bound on the number of statements still to come.
    pub open spec fn rank(self) -> nat {
        match self {
            FindPromptManagerView::Load => 2,
            FindPromptManagerView::Tags { .. } => 1,
        }
    }
}

impl FindPromptManager {
    /// Starts finding manager `id`: the plan and its first statement.
    pub fn start(id: i32) -> (step: Step<FindPromptManager, PromptManagerModel>)
        ensures
            step@ == FindPromptManagerView::start(id),
    {
        Step::Issue(FindPromptManager::Load, Statement::FindManager { id })
    }

    /// Decides on the reply to the statement that was issued last.
    pub fn next(self, reply: Reply) -> (step: Step<FindPromptManager, PromptManagerModel>)
        ensures
            step@ == self@.next(reply@),
    {
        match self {
            FindPromptManager::Load => match reply {
                Reply::Manager(Some(row)) => {
                    if row.deleted_at.is_some() {
                        Step::Finish(Err(ApplicationError::NotFoundError))
                    } else {
                        let statement = Statement::FindTagsOfManager { manager_id: row.id };
                        Step::Issue(FindPromptManager::Tags { row }, statement)
                    }
                },
                Reply::Manager(None) => Step::Finish(Err(ApplicationError::NotFoundError)),
                other => Step::Finish(Err(other.into_failure())),
            },
            FindPromptManager::Tags { row } => match reply {
                Reply::Tags(tags) => Step::Finish(manager_model(row, &tags)),
                other => Step::Finish(Err(other.into_failure())),
            },
        }
    }
}

/// The statement that selects every manager that is not logically deleted.
pub fn find_all_prompt_managers() -> (statement: Statement)
    ensures
        statement@ == StatementView::FindActiveManagers,
{
    Statement::FindActiveManagers
}

/// What the reply to [`find_all_prompt_managers`] amounts to.
pub open spec fn found_prompt_managers_spec(reply: ReplyView) -> Result<
    Seq<PromptManagerModelView>,
    ApplicationErrorView,
> {
    match reply {
        ReplyView::Managers(entries) => models_of(entries),
        _ => Err(reply.failure()),
    }
}

/// Reads the reply to [`find_all_prompt_managers`]: the managers in the
/// order of the reply. An entry that is logically deleted is left out, also
/// where storage sent it.
pub fn found_prompt_managers(reply: Reply) -> (r: Result<
    Vec<PromptManagerModel>,
    ApplicationError,
>)
    ensures
        list_view(r) == found_prompt_managers_spec(reply@),
{
    match reply {
        Reply::Managers(entries) => {
            let mut models: Vec<PromptManagerModel> = Vec::new();
            let ghost all = views(entries@);
            let mut i: usize = 0;
            assert(views(models@) =~= Seq::<PromptManagerModelView>::empty());
            while i < entries.len()
                invariant
                    i <= entries.len(),
                    all == views(entries@),
                    reply@ == ReplyView::Managers(all),
                    models_of(all.take(i as int)) == Ok::<
                        Seq<PromptManagerModelView>,
                        ApplicationErrorView,
                    >(views(models@)),
                decreases entries.len() - i,
            {
                proof {
                    assert(all.take(i + 1).drop_last() == all.take(i as int));
                }
                if entries[i].manager.deleted_at.is_none() {
                    match manager_model(entries[i].manager.clone(), &entries[i].tags) {
                        Ok(model) => {
                            proof {
                                lemma_views_push(models@, model);
                            }
                            models.push(model);
                        },
                        Err(e) => {
                            proof {
                                lemma_models_of_fails(all, i + 1, all.len() as int);
                                assert(all.take(all.len() as int) == all);
                            }
                            return Err(e);
                        },
                    }
                }
                i += 1;
            }
            assert(all.take(all.len() as int) == all);
            Ok(models)
        },
        other => Err(other.into_failure()),
    }
}

/// The detail of the error for an empty title.
pub open spec fn empty_title() -> Seq<char> {
    "title must not be empty"@
}

/// The statement that creates a manager with this title. An empty title is
/// a `ValidationError`, and nothing is to be run.
pub fn create_prompt_manager(title: &str) -> (r: Result<Statement, ApplicationError>)
    ensures
        title@.len() > 0 ==> r is Ok && r->Ok_0@ == (StatementView::InsertManager {
            title: title@,
        }),
        title@.len() == 0 ==> r is Err && r->Err_0@ == ApplicationErrorView::ValidationError(
            empty_title(),
        ),
{
    if title.is_empty() {
        Err(ApplicationError::ValidationError("title must not be empty".to_string()))
    } else {
        Ok(Statement::InsertManager { title: title.to_string() })
    }
}

/// What the reply to an insert amounts to: the new id.
pub open spec fn created_spec(reply: ReplyView) -> Result<i32, ApplicationErrorView> {
    match reply {
        ReplyView::Inserted(id) => Ok(id),
        _ => Err(reply.failure()),
    }
}

/// Reads the reply to an insert: the id of the new record.
pub fn created(reply: Reply) -> (r: Result<i32, ApplicationError>)
    ensures
        result_view(r) == created_spec(reply@),
{
    match reply {
        Reply::Inserted(id) => Ok(id),
        other => Err(other.into_failure()),
    }
}

/// The plan that deletes a manager logically: load the row, and write it
/// back with the time of deletion.
#[derive(Debug)]
pub enum LogicalDeletePromptManager {
    /// The row was asked for.
    Load { deleted_at: String },
    /// The row is being written.
    Write,
}

/// The mathematical value of a [`LogicalDeletePromptManager`].
pub enum LogicalDeletePromptManagerView {
    Load { deleted_at: Seq<char> },
    Write,
}

impl View for LogicalDeletePromptManager {
    type V = LogicalDeletePromptManagerView;

    open spec fn view(&self) -> LogicalDeletePromptManagerView {
        match *self {
            LogicalDeletePromptManager::Load { deleted_at } => {
                LogicalDeletePromptManagerView::Load { deleted_at: deleted_at@ }
            },
            LogicalDeletePromptManager::Write => LogicalDeletePromptManagerView::Write,
        }
    }
}

impl LogicalDeletePromptManagerView {
    /// The first move: ask for the row.
    pub open spec fn start(id: i32, deleted_at: Seq<char>) -> StepView<
        LogicalDeletePromptManagerView,
        (),
    > {
        StepView::Issue(
            LogicalDeletePromptManagerView::Load { deleted_at },
            StatementView::FindManager { id },
        )
    }

    /// The move that follows a reply. A manager that is missing, or deleted
    /// already, is a `NotFoundError`: the time of the first deletion stays.
    pub open spec fn next(self, reply: ReplyView) -> StepView<
        LogicalDeletePromptManagerView,
        (),
    > {
        match self {
            LogicalDeletePromptManagerView::Load { deleted_at } => match reply {
                ReplyView::Manager(Some(row)) => if row.deleted_at is Some {
                    StepView::Finish(Err(ApplicationErrorView::NotFoundError))
                } else {
                    StepView::Issue(
                        LogicalDeletePromptManagerView::Write,
                        StatementView::UpdateManager {
                            row: PromptManagerRowView { deleted_at: Some(deleted_at), ..row },
                        },
                    )
                },
                ReplyView::Manager(None) => StepView::Finish(
                    Err(ApplicationErrorView::NotFoundError),
                ),
                _ => StepView::Finish(Err(reply.failure())),
            },
            LogicalDeletePromptManagerView::Write => match reply {
                ReplyView::Done => StepView::Finish(Ok(())),
                _ => StepView::Finish(Err(reply.failure())),
            },
        }
    }

    /// A bound on the number of statements still to come.
    pub open spec fn rank(self) -> nat {
        match self {
            LogicalDeletePromptManagerView::Load { .. } => 2,
            LogicalDeletePromptManagerView::Write => 1,
        }
    }
}

impl LogicalDeletePromptManager {
    /// Starts deleting manager `id` at the time `deleted_at`: the plan and
    /// its first statement.
    pub fn start(id: i32, deleted_at: String) -> (step: Step<LogicalDeletePromptManager, ()>)
        ensures
            step@ == LogicalDeletePromptManagerView::start(id, deleted_at@),
    {
        Step::Issue(
            LogicalDeletePromptManager::Load { deleted_at },
            Statement::FindManager { id },
        )
    }

    /// Starts deleting manager `id` at the current time.
    pub fn start_now(id: i32) -> (step: Step<LogicalDeletePromptManager, ()>)
        ensures
            exists|now: Seq<char>| step@ == LogicalDeletePromptManagerView::start(id, now),
    {
        let now = utc_now();
        LogicalDeletePromptManager::start(id, now)
    }

    /// Decides on the reply to the statement that was issued last.
    pub fn next(self, reply: Reply) -> (step: Step<LogicalDeletePromptManager, ()>)
        ensures
            step@ == self@.next(reply@),
    {
        match self {
            LogicalDeletePromptManager::Load { deleted_at } => match reply {
                Reply::Manager(Some(row)) => {
                    if row.deleted_at.is_some() {
                        Step::Finish(Err(ApplicationError::NotFoundError))
                    } else {
                        let mut row = row;
                        row.deleted_at = Some(deleted_at);
                        Step::Issue(
                            LogicalDeletePromptManager::Write,
                            Statement::UpdateManager { row },
                        )
                    }
                },
                Reply::Manager(None) => Step::Finish(Err(ApplicationError::NotFoundError)),
                other => Step::Finish(Err(other.into_failure())),
            },
            LogicalDeletePromptManager::Write => match reply {
                Reply::Done => Step::Finish(Ok(())),
                other => Step::Finish(Err(other.into_failure())),
            },
        }
    }
}

} // verus!
