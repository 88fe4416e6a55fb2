//! The versioner of comparing-prompt settings.
//!
//! A setting points at one of its versions as the current one. Versions are
//! only ever added. A setting is created together with its version 1, whose
//! prompt is empty, in one transaction: either both records exist afterwards
//! or neither.

use crate::common::errors::{ApplicationError, ApplicationErrorView};
use crate::common::selection::lemma_first_match_none;
use crate::common::text::{lemma_views_push, views};
use crate::domain::comparing_prompt::{
    ComparingPromptSettingModel, ComparingPromptSettingModelView,
    ComparingPromptSettingVersionModel, ComparingPromptSettingVersionModelView,
};
use crate::infra::repository::plan::{list_view, Step, StepView};
use crate::infra::storage::rows::{
    ComparingPromptSettingRow, ComparingPromptSettingRowView, ComparingPromptSettingVersionRow,
    ComparingPromptSettingVersionRowView, SettingWithVersionsView,
};
use crate::infra::storage::statement::{Reply, ReplyView, Statement, StatementView};
use vstd::prelude::*;

verus! {

/// The version that a record stands for.
pub open spec fn version_model() -> spec_fn(
    ComparingPromptSettingVersionRowView,
) -> ComparingPromptSettingVersionModelView {
    |v: ComparingPromptSettingVersionRowView|
        ComparingPromptSettingVersionModelView {
            id: v.id,
            setting_id: v.setting_id,
            version: v.version,
            system_prompt: v.system_prompt,
        }
}

/// The setting that a record and the given versions stand for.
pub open spec fn setting_model(
    setting: ComparingPromptSettingRowView,
    versions: Seq<ComparingPromptSettingVersionRowView>,
) -> ComparingPromptSettingModelView {
    ComparingPromptSettingModelView {
        id: setting.id,
        manager_id: setting.manager_id,
        current_version: setting.current_version,
        versions: versions.map_values(version_model()),
    }
}

/// The setting that an entry stands for.
pub open spec fn entry_model() -> spec_fn(
    SettingWithVersionsView,
) -> ComparingPromptSettingModelView {
    |e: SettingWithVersionsView| setting_model(e.setting, e.versions)
}

/// The entries that are not logically deleted.
pub open spec fn entry_live() -> spec_fn(SettingWithVersionsView) -> bool {
    |e: SettingWithVersionsView| e.setting.deleted_at is None
}

fn to_version(row: ComparingPromptSettingVersionRow) -> (model: ComparingPromptSettingVersionModel)
    ensures
        model@ == version_model()(row@),
{
    ComparingPromptSettingVersionModel {
        id: row.id,
        setting_id: row.setting_id,
        version: row.version,
        system_prompt: row.system_prompt,
    }
}

fn to_versions(rows: &Vec<ComparingPromptSettingVersionRow>) -> (models: Vec<
    ComparingPromptSettingVersionModel,
>)
    ensures
        views(models@) == views(rows@).map_values(version_model()),
{
    let mut models: Vec<ComparingPromptSettingVersionModel> = Vec::new();
    let mut i: usize = 0;
    while i < rows.len()
        invariant
            i <= rows.len(),
            models@.len() == i,
            forall|j: int| 0 <= j < i ==> models@[j]@ == version_model()(rows@[j]@),
        decreases rows.len() - i,
    {
        models.push(to_version(rows[i].clone()));
        i += 1;
    }
    models
}

/// The plan that creates a setting with its first version. Its value says
/// where the creation stands: which statement was issued last.
#[derive(Debug)]
pub enum CreateComparingPromptSetting {
    /// The transaction is being opened, for a setting of this manager.
    Begin { manager_id: i32 },
    /// The setting is being inserted.
    Setting,
    /// Version 1 of the setting with this id is being inserted.
    Version { id: i32 },
    /// The transaction is being committed.
    Commit { id: i32 },
    /// The transaction is being rolled back because of `error`.
    Abort { error: ApplicationError },
}

/// The mathematical value of a [`CreateComparingPromptSetting`].
pub enum CreateComparingPromptSettingView {
    Begin { manager_id: i32 },
    Setting,
    Version { id: i32 },
    Commit { id: i32 },
    Abort { error: ApplicationErrorView },
}

impl View for CreateComparingPromptSetting {
    type V = CreateComparingPromptSettingView;

    open spec fn view(&self) -> CreateComparingPromptSettingView {
        match *self {
            CreateComparingPromptSetting::Begin { manager_id } => {
                CreateComparingPromptSettingView::Begin { manager_id }
            },
            CreateComparingPromptSetting::Setting => CreateComparingPromptSettingView::Setting,
            CreateComparingPromptSetting::Version { id } => {
                CreateComparingPromptSettingView::Version { id }
            },
            CreateComparingPromptSetting::Commit { id } => {
                CreateComparingPromptSettingView::Commit { id }
            },
            CreateComparingPromptSetting::Abort { error } => {
                CreateComparingPromptSettingView::Abort { error: error@ }
            },
        }
    }
}

impl CreateComparingPromptSettingView {
    /// Roll back, and report `error` afterwards.
    pub open spec fn abort(error: ApplicationErrorView) -> StepView<
        CreateComparingPromptSettingView,
        i32,
    > {
        StepView::Issue(CreateComparingPromptSettingView::Abort { error }, StatementView::Rollback)
    }

    /// The first move: open the transaction.
    pub open spec fn start(manager_id: i32) -> StepView<CreateComparingPromptSettingView, i32> {
        StepView::Issue(
            CreateComparingPromptSettingView::Begin { manager_id },
            StatementView::Begin,
        )
    }

    /// The move that follows a reply. The setting is inserted with current
    /// version 1, and its version 1 after it with an empty prompt.
    pub open spec fn next(self, reply: ReplyView) -> StepView<
        CreateComparingPromptSettingView,
        i32,
    > {
        match self {
            CreateComparingPromptSettingView::Begin { manager_id } => match reply {
                ReplyView::Done => StepView::Issue(
                    CreateComparingPromptSettingView::Setting,
                    StatementView::InsertSetting { manager_id, current_version: 1 },
                ),
                _ => StepView::Finish(Err(reply.failure())),
            },
            CreateComparingPromptSettingView::Setting => match reply {
                ReplyView::Inserted(id) => StepView::Issue(
                    CreateComparingPromptSettingView::Version { id },
                    StatementView::InsertSettingVersion {
                        setting_id: id,
                        version: 1,
                        system_prompt: Seq::empty(),
                    },
                ),
                _ => CreateComparingPromptSettingView::abort(reply.failure()),
            },
            CreateComparingPromptSettingView::Version { id } => match reply {
                ReplyView::Inserted(_) => StepView::Issue(
                    CreateComparingPromptSettingView::Commit { id },
                    StatementView::Commit,
                ),
                _ => CreateComparingPromptSettingView::abort(reply.failure()),
            },
            CreateComparingPromptSettingView::Commit { id } => match reply {
                ReplyView::Done => StepView::Finish(Ok(id)),
                _ => CreateComparingPromptSettingView::abort(reply.failure()),
            },
            CreateComparingPromptSettingView::Abort { error } => StepView::Finish(Err(error)),
        }
    }

    /// A bound on the number of statements still to come.
    pub open spec fn rank(self) -> nat {
        match self {
            CreateComparingPromptSettingView::Begin { .. } => 5,
            CreateComparingPromptSettingView::Setting => 4,
            CreateComparingPromptSettingView::Version { .. } => 3,
            CreateComparingPromptSettingView::Commit { .. } => 2,
            CreateComparingPromptSettingView::Abort { .. } => 1,
        }
    }
}

impl CreateComparingPromptSetting {
    /// Starts creating a setting for a manager: the plan and its first
    /// statement.
    pub fn start(manager_id: i32) -> (step: Step<CreateComparingPromptSetting, i32>)
        ensures
            step@ == CreateComparingPromptSettingView::start(manager_id),
    {
        Step::Issue(CreateComparingPromptSetting::Begin { manager_id }, Statement::Begin)
    }

    fn abort(error: ApplicationError) -> (step: Step<CreateComparingPromptSetting, i32>)
        ensures
            step@ == CreateComparingPromptSettingView::abort(error@),
    {
        Step::Issue(CreateComparingPromptSetting::Abort { error }, Statement::Rollback)
    }

    /// Decides on the reply to the statement that was issued last.
    pub fn next(self, reply: Reply) -> (step: Step<CreateComparingPromptSetting, i32>)
        ensures
            step@ == self@.next(reply@),
    {
        match self {
            CreateComparingPromptSetting::Begin { manager_id } => match reply {
                Reply::Done => Step::Issue(
                    CreateComparingPromptSetting::Setting,
                    Statement::InsertSetting { manager_id, current_version: 1 },
                ),
                other => Step::Finish(Err(other.into_failure())),
            },
            CreateComparingPromptSetting::Setting => match reply {
                Reply::Inserted(id) => Step::Issue(
                    CreateComparingPromptSetting::Version { id },
                    Statement::InsertSettingVersion {
                        setting_id: id,
                        version: 1,
                        system_prompt: String::new(),
                    },
                ),
                other => CreateComparingPromptSetting::abort(other.into_failure()),
            },
            CreateComparingPromptSetting::Version { id } => match reply {
                Reply::Inserted(_) => Step::Issue(
                    CreateComparingPromptSetting::Commit { id },
                    Statement::Commit,
                ),
                other => CreateComparingPromptSetting::abort(other.into_failure()),
            },
            CreateComparingPromptSetting::Commit { id } => match reply {
                Reply::Done => Step::Finish(Ok(id)),
                other => CreateComparingPromptSetting::abort(other.into_failure()),
            },
            CreateComparingPromptSetting::Abort { error } => Step::Finish(Err(error)),
        }
    }
}

/// The plan that finds one setting with its current version: load the
/// setting, and the version that it points at after it.
#[derive(Debug)]
pub enum FindComparingPromptSetting {
    /// The setting was asked for.
    Load,
    /// The current version of the setting was asked for.
    Version { setting: ComparingPromptSettingRow },
}

/// The mathematical value of a [`FindComparingPromptSetting`].
pub enum FindComparingPromptSettingView {
    Load,
    Version { setting: ComparingPromptSettingRowView },
}

impl View for FindComparingPromptSetting {
    type V = FindComparingPromptSettingView;

    open spec fn view(&self) -> FindComparingPromptSettingView {
        match *self {
            FindComparingPromptSetting::Load => FindComparingPromptSettingView::Load,
            FindComparingPromptSetting::Version { setting } => {
                FindComparingPromptSettingView::Version { setting: setting@ }
            },
        }
    }
}

impl FindComparingPromptSettingView {
    /// The first move: ask for the setting.
    pub open spec fn start(id: i32) -> StepView<
        FindComparingPromptSettingView,
        ComparingPromptSettingModelView,
    > {
        StepView::Issue(FindComparingPromptSettingView::Load, StatementView::FindSetting { id })
    }

    /// The move that follows a reply. A setting that is missing or logically
    /// deleted is a `NotFoundError`, and so is a setting whose current
    /// version is missing.
    pub open spec fn next(self, reply: ReplyView) -> StepView<
        FindComparingPromptSettingView,
        ComparingPromptSettingModelView,
    > {
        match self {
            FindComparingPromptSettingView::Load => match reply {
                ReplyView::Setting(Some(setting)) => if setting.deleted_at is Some {
                    StepView::Finish(Err(ApplicationErrorView::NotFoundError))
                } else {
                    StepView::Issue(
                        FindComparingPromptSettingView::Version { setting },
                        StatementView::FindSettingVersion {
                            setting_id: setting.id,
                            version: setting.current_version,
                        },
                    )
                },
                ReplyView::Setting(None) => StepView::Finish(
                    Err(ApplicationErrorView::NotFoundError),
                ),
                _ => StepView::Finish(Err(reply.failure())),
            },
            FindComparingPromptSettingView::Version { setting } => match reply {
                ReplyView::Version(Some(version)) => StepView::Finish(
                    Ok(setting_model(setting, seq![version])),
                ),
                ReplyView::Version(None) => StepView::Finish(
                    Err(ApplicationErrorView::NotFoundError),
                ),
                _ => StepView::Finish(Err(reply.failure())),
            },
        }
    }

    /// A bound on the number of statements still to come.
    pub open spec fn rank(self) -> nat {
        match self {
            FindComparingPromptSettingView::Load => 2,
            FindComparingPromptSettingView::Version { .. } => 1,
        }
    }
}

impl FindComparingPromptSetting {
    /// Starts finding setting `id`: the plan and its first statement.
    pub fn start(id: i32) -> (step: Step<FindComparingPromptSetting, ComparingPromptSettingModel>)
        ensures
            step@ == FindComparingPromptSettingView::start(id),
    {
        Step::Issue(FindComparingPromptSetting::Load, Statement::FindSetting { id })
    }

    /// Decides on the reply to the statement that was issued last.
    pub fn next(self, reply: Reply) -> (step: Step<
        FindComparingPromptSetting,
        ComparingPromptSettingModel,
    >)
        ensures
            step@ == self@.next(reply@),
    {
        match self {
            FindComparingPromptSetting::Load => match reply {
                Reply::Setting(Some(setting)) => {
                    if setting.deleted_at.is_some() {
                        Step::Finish(Err(ApplicationError::NotFoundError))
                    } else {
                        let statement = Statement::FindSettingVersion {
                            setting_id: setting.id,
                            version: setting.current_version,
                        };
                        Step::Issue(FindComparingPromptSetting::Version { setting }, statement)
                    }
                },
                Reply::Setting(None) => Step::Finish(Err(ApplicationError::NotFoundError)),
                other => Step::Finish(Err(other.into_failure())),
            },
            FindComparingPromptSetting::Version { setting } => match reply {
                Reply::Version(Some(version)) => {
                    let mut versions: Vec<ComparingPromptSettingVersionModel> = Vec::new();
                    versions.push(to_version(version));
                    let model = ComparingPromptSettingModel {
                        id: setting.id,
                        manager_id: setting.manager_id,
                        current_version: setting.current_version,
                        versions,
                    };
                    assert(model@.versions =~= seq![version@].map_values(version_model()));
                    Step::Finish(Ok(model))
                },
                Reply::Version(None) => Step::Finish(Err(ApplicationError::NotFoundError)),
                other => Step::Finish(Err(other.into_failure())),
            },
        }
    }
}

/// The statement that selects the settings of a manager that are not
/// logically deleted, each with all of its versions.
pub fn find_all_comparing_prompt_settings_by_manager_id(manager_id: i32) -> (statement: Statement)
    ensures
        statement@ == (StatementView::FindSettingsOfManager { manager_id }),
{
    Statement::FindSettingsOfManager { manager_id }
}

/// What the reply to [`find_all_comparing_prompt_settings_by_manager_id`]
/// amounts to: the settings of the reply that are not logically deleted, in
/// their order, each with every version that came with it.
pub open spec fn found_comparing_prompt_settings_spec(reply: ReplyView) -> Result<
    Seq<ComparingPromptSettingModelView>,
    ApplicationErrorView,
> {
    match reply {
        ReplyView::Settings(entries) => Ok(entries.filter(entry_live()).map_values(entry_model())),
        _ => Err(reply.failure()),
    }
}

/// Reads the reply to [`find_all_comparing_prompt_settings_by_manager_id`].
/// A setting that is logically deleted is left out, also where storage sent
/// it.
pub fn found_comparing_prompt_settings(reply: Reply) -> (r: Result<
    Vec<ComparingPromptSettingModel>,
    ApplicationError,
>)
    ensures
        list_view(r) == found_comparing_prompt_settings_spec(reply@),
{
    match reply {
        Reply::Settings(entries) => {
            let mut models: Vec<ComparingPromptSettingModel> = Vec::new();
            let ghost all = views(entries@);
            let mut i: usize = 0;
            assert(all.take(0).filter(entry_live()) == Seq::<SettingWithVersionsView>::empty())
                by {
                lemma_first_match_none(all.take(0), entry_live());
            }
            while i < entries.len()
                invariant
                    i <= entries.len(),
                    all == views(entries@),
                    views(models@) == all.take(i as int).filter(entry_live()).map_values(
                        entry_model(),
                    ),
                decreases entries.len() - i,
            {
                proof {
                    all.lemma_take_succ_push(i as int);
                    all.take(i as int).lemma_filter_push(all[i as int], entry_live());
                }
                if entries[i].setting.deleted_at.is_none() {
                    let model = ComparingPromptSettingModel {
                        id: entries[i].setting.id,
                        manager_id: entries[i].setting.manager_id,
                        current_version: entries[i].setting.current_version,
                        versions: to_versions(&entries[i].versions),
                    };
                    proof {
                        lemma_views_push(models@, model);
                        all.take(i as int).filter(entry_live()).lemma_push_map_commute(
                            entry_model(),
                            all[i as int],
                        );
                    }
                    models.push(model);
                }
                i += 1;
            }
            assert(all.take(all.len() as int) == all);
            Ok(models)
        },
        other => Err(other.into_failure()),
    }
}

} // verus!
