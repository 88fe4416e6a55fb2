//! The recorder of comparing-prompt runs.
//!
//! A run holds the parameters one execution was made with. It is written
//! once and never changed. The provider is stored under its canonical name
//! and read back from it.

use crate::common::errors::{ApplicationError, ApplicationErrorView};
use crate::domain::comparing_prompt::{
    ComparingPromptSettingRunModel, ComparingPromptSettingRunModelView, ProviderType,
};
use crate::infra::repository::plan::result_view;
use crate::infra::storage::rows::{ComparingPromptRunRow, ComparingPromptRunRowView};
use crate::infra::storage::statement::{Reply, ReplyView, Statement, StatementView};
use vstd::prelude::*;

verus! {

/// The record that a run is stored as. The response format is not stored.
pub open spec fn run_row(run: ComparingPromptSettingRunModelView) -> ComparingPromptRunRowView {
    ComparingPromptRunRowView {
        id: run.id,
        manager_id: run.manager_id,
        provider_type: run.provider_type.name(),
        user_prompt: run.user_prompt,
        model: run.model,
        temperature: run.temperature,
        max_token: run.max_tokens,
    }
}

/// The run that a record stands for. A provider name that is no provider's
/// is a `ParseError`.
pub open spec fn run_model(row: ComparingPromptRunRowView) -> Result<
    ComparingPromptSettingRunModelView,
    ApplicationErrorView,
> {
    match ProviderType::parse(row.provider_type) {
        Some(provider_type) => Ok(
            ComparingPromptSettingRunModelView {
                id: row.id,
                manager_id: row.manager_id,
                user_prompt: row.user_prompt,
                provider_type,
                model: row.model,
                temperature: row.temperature,
                max_tokens: row.max_token,
                response_format: None,
            },
        ),
        None => Err(ApplicationErrorView::ParseError(ProviderType::parse_failure())),
    }
}

/// The statement that records a run. Storage assigns the id.
pub fn create_comparing_prompt_run(param: ComparingPromptSettingRunModel) -> (statement: Statement)
    ensures
        statement@ == (StatementView::InsertRun { run: run_row(param@) }),
{
    Statement::InsertRun {
        run: ComparingPromptRunRow {
            id: param.id,
            manager_id: param.manager_id,
            provider_type: param.provider_type.to_string(),
            user_prompt: param.user_prompt,
            model: param.model,
            temperature: param.temperature,
            max_token: param.max_tokens,
        },
    }
}

/// The statement that selects the run with this id.
pub fn find_comparing_prompt_run_by_id(id: i32) -> (statement: Statement)
    ensures
        statement@ == (StatementView::FindRun { id }),
{
    Statement::FindRun { id }
}

/// What the reply to [`find_comparing_prompt_run_by_id`] amounts to. A run
/// that is missing is a `NotFoundError`.
pub open spec fn found_comparing_prompt_run_spec(reply: ReplyView) -> Result<
    ComparingPromptSettingRunModelView,
    ApplicationErrorView,
> {
    match reply {
        ReplyView::Run(Some(row)) => run_model(row),
        ReplyView::Run(None) => Err(ApplicationErrorView::NotFoundError),
        _ => Err(reply.failure()),
    }
}

/// Reads the reply to [`find_comparing_prompt_run_by_id`].
pub fn found_comparing_prompt_run(reply: Reply) -> (r: Result<
    ComparingPromptSettingRunModel,
    ApplicationError,
>)
    ensures
        result_view(r) == found_comparing_prompt_run_spec(reply@),
{
    match reply {
        Reply::Run(Some(row)) => match ProviderType::from_str(row.provider_type.as_str()) {
            Ok(provider_type) => Ok(
                ComparingPromptSettingRunModel {
                    id: row.id,
                    manager_id: row.manager_id,
                    user_prompt: row.user_prompt,
                    provider_type,
                    model: row.model,
                    temperature: row.temperature,
                    max_tokens: row.max_token,
                    response_format: None,
                },
            ),
            Err(e) => Err(e),
        },
        Reply::Run(None) => Err(ApplicationError::NotFoundError),
        other => Err(other.into_failure()),
    }
}

/// A provider that is written with a run is the provider that is read back
/// from the record.
pub proof fn lemma_provider_round_trip(run: ComparingPromptSettingRunModelView)
    ensures
        run_model(run_row(run)) matches Ok(back) && back.provider_type == run.provider_type,
{
    run.provider_type.lemma_name_round_trip();
}

} // verus!
