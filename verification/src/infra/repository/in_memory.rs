//! The repositories on the engine in memory.
//!
//! Each operation runs its plan against a [`MemoryStore`] until the plan
//! finishes, and is proved to leave the store and give the result that
//! [`crate::infra::repository::outcome`] states.

use crate::common::clock::utc_now;
use crate::common::errors::{ApplicationError, ApplicationErrorView};
use crate::common::selection::lemma_first_match;
use crate::common::text::views;
use crate::domain::comparing_prompt::{
    ComparingPromptSettingModel, ComparingPromptSettingModelView, ComparingPromptSettingRunModel,
};
use crate::domain::prompt_manager::{ActionType, APIType, PromptManagerModel};
use crate::infra::repository::comparing_prompt_run::{
    create_comparing_prompt_run, find_comparing_prompt_run_by_id, found_comparing_prompt_run,
};
use crate::infra::repository::comparing_prompt_setting::{
    CreateComparingPromptSetting, find_all_comparing_prompt_settings_by_manager_id,
    FindComparingPromptSetting, found_comparing_prompt_settings,
};
use crate::infra::repository::extension::{attach, attached, detach, detached};
use crate::infra::repository::laws::{
    consistent, lemma_create_keeps_consistent, lemma_delete_keeps_consistent,
    lemma_update_keeps_consistent,
};
use crate::infra::repository::outcome::{
    attach_outcome, create_comparing_prompt_run_outcome, create_comparing_prompt_setting_outcome,
    create_prompt_manager_outcome, detach_outcome, find_all_comparing_prompt_settings_outcome,
    find_all_prompt_managers_outcome, find_comparing_prompt_run_outcome,
    find_comparing_prompt_setting_outcome, find_prompt_manager_outcome,
    logical_delete_prompt_manager_outcome, resolve_or_create_outcome, update_outcome,
};
use crate::infra::repository::plan::{list_view, result_view, Step, StepView};
use crate::infra::repository::prompt_manager::{
    create_prompt_manager, created, find_all_prompt_managers, FindPromptManager,
    found_prompt_managers, LogicalDeletePromptManager,
};
use crate::infra::repository::refinement::{
    create_setting_holds, delete_holds, find_manager_holds, find_setting_holds,
    lemma_settings_selected, lemma_update_step, resolve_holds, update_holds,
};
use crate::infra::repository::tag::ResolveTag;
use crate::infra::repository::update::{PromptManagerUpdateView, UpdatePromptManager};
use crate::infra::storage::memory::MemoryStore;
use crate::infra::storage::tables::{manager_with_id, setting_with_id};
use vstd::prelude::*;

verus! {

impl MemoryStore {
    /// Updates a manager with its action and its tags, all or nothing.
    ///
    /// The manager gets the new title, action and API. The extension row of
    /// its old action is deleted and that of its new action inserted. Every
    /// tag value is resolved to a tag, which is created where it is missing,
    /// and the manager's associations are replaced by one for each of these
    /// tags. Where any of this fails, the store stays as it was.
    pub fn update_prompt_manager(
        &mut self,
        id: i32,
        title: &str,
        action_type: Option<ActionType>,
        api_type: Option<APIType>,
        tags: Vec<String>,
    ) -> (r: Result<(), ApplicationError>)
        ensures
            old(self)@.wf() ==> final(self)@.wf(),
            old(self)@.wf() && consistent(old(self)@.tables) ==> consistent(final(self)@.tables),
            (final(self)@, result_view(r)) == update_outcome(
                old(self)@,
                PromptManagerUpdateView {
                    id,
                    title: title@,
                    action_type,
                    api_type,
                    tags: views(tags@),
                },
            ),
    {
        let ghost db0 = self@;
        let ghost u = PromptManagerUpdateView {
            id,
            title: title@,
            action_type,
            api_type,
            tags: views(tags@),
        };
        proof {
            if db0.wf() && consistent(db0.tables) && update_outcome(db0, u).1 is Ok {
                lemma_update_keeps_consistent(db0.tables, u);
            }
        }
        let mut step = UpdatePromptManager::start(id, title, action_type, api_type, tags);
        loop
            invariant
                old(self)@.wf() ==> self@.wf(),
                db0 == old(self)@,
                u == (PromptManagerUpdateView {
                    id,
                    title: title@,
                    action_type,
                    api_type,
                    tags: views(tags@),
                }),
                update_holds(db0, u, self@, step@),
                db0.wf() && consistent(db0.tables) ==> consistent(update_outcome(db0, u).0.tables),
            decreases
                match step@ {
                    StepView::Issue(s, _) => s.rank(),
                    StepView::Finish(_) => 0,
                },
        {
            match step {
                Step::Finish(r) => {
                    return r;
                },
                Step::Issue(plan, statement) => {
                    proof {
                        lemma_update_step(db0, u, self@, plan@, statement@);
                        plan@.lemma_next_progress(self@.execute(statement@).1);
                    }
                    let reply = self.execute(&statement);
                    step = plan.next(reply);
                },
            }
        }
    }
}

impl MemoryStore {
    /// Resolves a tag value to the id of its tag, which is created where it
    /// is missing.
    pub fn resolve_or_create(&mut self, value: &str) -> (r: Result<i32, ApplicationError>)
        ensures
            old(self)@.wf() ==> final(self)@.wf(),
            final(self)@.saved == old(self)@.saved,
            (final(self)@.tables, result_view(r)) == resolve_or_create_outcome(
                old(self)@.tables,
                value@,
            ),
    {
        let ghost db0 = self@;
        let (plan, statement) = ResolveTag::start(value.to_string());
        let mut step: Step<ResolveTag, i32> = Step::Issue(plan, statement);
        loop
            invariant
                old(self)@.wf() ==> self@.wf(),
                db0 == old(self)@,
                self@.saved == db0.saved,
                resolve_holds(db0.tables, value@, self@.tables, step@),
            decreases
                match step@ {
                    StepView::Issue(s, _) => s.rank(),
                    StepView::Finish(_) => 0,
                },
        {
            match step {
                Step::Finish(r) => {
                    return r;
                },
                Step::Issue(plan, statement) => {
                    let reply = self.execute(&statement);
                    step = plan.next(reply);
                },
            }
        }
    }

    /// Attaches an action to a manager.
    pub fn attach(&mut self, manager_id: i32, action_type: ActionType) -> (r: Result<
        (),
        ApplicationError,
    >)
        ensures
            old(self)@.wf() ==> final(self)@.wf(),
            final(self)@.saved == old(self)@.saved,
            (final(self)@.tables, result_view(r)) == attach_outcome(
                old(self)@.tables,
                manager_id,
                action_type,
            ),
    {
        let statement = attach(manager_id, action_type);
        let reply = self.execute(&statement);
        attached(reply)
    }

    /// Detaches an action from a manager.
    pub fn detach(&mut self, manager_id: i32, action_type: ActionType) -> (r: Result<
        (),
        ApplicationError,
    >)
        ensures
            old(self)@.wf() ==> final(self)@.wf(),
            final(self)@.saved == old(self)@.saved,
            (final(self)@.tables, result_view(r)) == detach_outcome(
                old(self)@.tables,
                manager_id,
                action_type,
            ),
    {
        let statement = detach(manager_id, action_type);
        let reply = self.execute(&statement);
        detached(reply)
    }

    /// Finds the manager with this id, with its action and the values of its
    /// tags.
    pub fn find_prompt_manager_by_id(&mut self, id: i32) -> (r: Result<
        PromptManagerModel,
        ApplicationError,
    >)
        ensures
            old(self)@.wf() ==> final(self)@.wf(),
            final(self)@ == old(self)@,
            result_view(r) == find_prompt_manager_outcome(old(self)@.tables, id),
    {
        let mut step = FindPromptManager::start(id);
        loop
            invariant
                old(self)@.wf() ==> self@.wf(),
                self@ == old(self)@,
                find_manager_holds(self@.tables, id, step@),
            decreases
                match step@ {
                    StepView::Issue(s, _) => s.rank(),
                    StepView::Finish(_) => 0,
                },
        {
            match step {
                Step::Finish(r) => {
                    return r;
                },
                Step::Issue(plan, statement) => {
                    proof {
                        lemma_first_match(self@.tables.prompt_managers, manager_with_id(id));
                    }
                    let reply = self.execute(&statement);
                    step = plan.next(reply);
                },
            }
        }
    }

    /// Finds every manager that is not logically deleted.
    pub fn find_all_prompt_managers(&mut self) -> (r: Result<
        Vec<PromptManagerModel>,
        ApplicationError,
    >)
        ensures
            old(self)@.wf() ==> final(self)@.wf(),
            final(self)@ == old(self)@,
            list_view(r) == find_all_prompt_managers_outcome(old(self)@.tables),
    {
        let statement = find_all_prompt_managers();
        let reply = self.execute(&statement);
        found_prompt_managers(reply)
    }

    /// Creates a manager with this title and gives its id.
    pub fn create_prompt_manager(&mut self, title: &str) -> (r: Result<i32, ApplicationError>)
        ensures
            old(self)@.wf() ==> final(self)@.wf(),
            old(self)@.wf() && consistent(old(self)@.tables) ==> consistent(final(self)@.tables),
            final(self)@.saved == old(self)@.saved,
            (final(self)@.tables, result_view(r)) == create_prompt_manager_outcome(
                old(self)@.tables,
                title@,
            ),
    {
        proof {
            if self@.wf() && consistent(self@.tables) {
                lemma_create_keeps_consistent(self@.tables, title@);
            }
        }
        match create_prompt_manager(title) {
            Ok(statement) => {
                let reply = self.execute(&statement);
                created(reply)
            },
            Err(e) => Err(e),
        }
    }

    /// Deletes a manager logically, with `deleted_at` as the time of
    /// deletion.
    pub fn logical_delete_prompt_manager_at(&mut self, id: i32, deleted_at: String) -> (r: Result<
        (),
        ApplicationError,
    >)
        ensures
            old(self)@.wf() ==> final(self)@.wf(),
            old(self)@.wf() && consistent(old(self)@.tables) ==> consistent(final(self)@.tables),
            final(self)@.saved == old(self)@.saved,
            (final(self)@.tables, result_view(r)) == logical_delete_prompt_manager_outcome(
                old(self)@.tables,
                id,
                deleted_at@,
            ),
    {
        let ghost db0 = self@;
        let ghost at = deleted_at@;
        proof {
            if db0.wf() && consistent(db0.tables) {
                lemma_delete_keeps_consistent(db0.tables, id, at);
            }
        }
        let mut step = LogicalDeletePromptManager::start(id, deleted_at);
        loop
            invariant
                old(self)@.wf() ==> self@.wf(),
                db0.wf() && consistent(db0.tables) ==> consistent(
                    logical_delete_prompt_manager_outcome(db0.tables, id, at).0,
                ),
                db0 == old(self)@,
                at == deleted_at@,
                self@.saved == db0.saved,
                delete_holds(db0.tables, id, at, self@.tables, step@),
            decreases
                match step@ {
                    StepView::Issue(s, _) => s.rank(),
                    StepView::Finish(_) => 0,
                },
        {
            match step {
                Step::Finish(r) => {
                    return r;
                },
                Step::Issue(plan, statement) => {
                    let reply = self.execute(&statement);
                    step = plan.next(reply);
                },
            }
        }
    }

    /// Deletes a manager logically, with the current time as the time of
    /// deletion.
    pub fn logical_delete_prompt_manager(&mut self, id: i32) -> (r: Result<(), ApplicationError>)
        ensures
            old(self)@.wf() ==> final(self)@.wf(),
            old(self)@.wf() && consistent(old(self)@.tables) ==> consistent(final(self)@.tables),
            final(self)@.saved == old(self)@.saved,
            exists|now: Seq<char>|
                (final(self)@.tables, result_view(r))
                    == #[trigger] logical_delete_prompt_manager_outcome(old(self)@.tables, id, now),
    {
        let now = utc_now();
        self.logical_delete_prompt_manager_at(id, now)
    }

    /// Creates a setting for a manager, with its version 1, and gives the
    /// setting's id.
    pub fn create_comparing_prompt_setting(&mut self, manager_id: i32) -> (r: Result<
        i32,
        ApplicationError,
    >)
        ensures
            old(self)@.wf() ==> final(self)@.wf(),
            (final(self)@, result_view(r)) == create_comparing_prompt_setting_outcome(
                old(self)@,
                manager_id,
            ),
    {
        let ghost db0 = self@;
        let mut step = CreateComparingPromptSetting::start(manager_id);
        loop
            invariant
                old(self)@.wf() ==> self@.wf(),
                db0 == old(self)@,
                create_setting_holds(db0, manager_id, self@, step@),
            decreases
                match step@ {
                    StepView::Issue(s, _) => s.rank(),
                    StepView::Finish(_) => 0,
                },
        {
            match step {
                Step::Finish(r) => {
                    return r;
                },
                Step::Issue(plan, statement) => {
                    let reply = self.execute(&statement);
                    step = plan.next(reply);
                },
            }
        }
    }

    /// Finds the setting with this id, with the version that it points at.
    pub fn find_comparing_prompt_setting_by_id(&mut self, id: i32) -> (r: Result<
        ComparingPromptSettingModel,
        ApplicationError,
    >)
        ensures
            old(self)@.wf() ==> final(self)@.wf(),
            final(self)@ == old(self)@,
            result_view(r) == find_comparing_prompt_setting_outcome(old(self)@.tables, id),
    {
        let mut step = FindComparingPromptSetting::start(id);
        loop
            invariant
                old(self)@.wf() ==> self@.wf(),
                self@ == old(self)@,
                find_setting_holds(self@.tables, id, step@),
            decreases
                match step@ {
                    StepView::Issue(s, _) => s.rank(),
                    StepView::Finish(_) => 0,
                },
        {
            match step {
                Step::Finish(r) => {
                    return r;
                },
                Step::Issue(plan, statement) => {
                    proof {
                        lemma_first_match(
                            self@.tables.settings,
                            setting_with_id(id),
                        );
                    }
                    let reply = self.execute(&statement);
                    step = plan.next(reply);
                },
            }
        }
    }

    /// Finds the settings of a manager that are not logically deleted, each
    /// with all of its versions.
    pub fn find_all_comparing_prompt_settings_by_manager_id(&mut self, manager_id: i32) -> (r:
        Result<Vec<ComparingPromptSettingModel>, ApplicationError>)
        ensures
            old(self)@.wf() ==> final(self)@.wf(),
            final(self)@ == old(self)@,
            list_view(r) == Ok::<Seq<ComparingPromptSettingModelView>, ApplicationErrorView>(
                find_all_comparing_prompt_settings_outcome(old(self)@.tables, manager_id),
            ),
    {
        proof {
            lemma_settings_selected(self@.tables, manager_id);
        }
        let statement = find_all_comparing_prompt_settings_by_manager_id(manager_id);
        let reply = self.execute(&statement);
        found_comparing_prompt_settings(reply)
    }

    /// Records a run and gives its id.
    pub fn create_comparing_prompt_run(&mut self, param: ComparingPromptSettingRunModel) -> (r:
        Result<i32, ApplicationError>)
        ensures
            old(self)@.wf() ==> final(self)@.wf(),
            final(self)@.saved == old(self)@.saved,
            (final(self)@.tables, result_view(r)) == create_comparing_prompt_run_outcome(
                old(self)@.tables,
                param@,
            ),
    {
        let statement = create_comparing_prompt_run(param);
        let reply = self.execute(&statement);
        created(reply)
    }

    /// Finds the run with this id.
    pub fn find_comparing_prompt_run_by_id(&mut self, id: i32) -> (r: Result<
        ComparingPromptSettingRunModel,
        ApplicationError,
    >)
        ensures
            old(self)@.wf() ==> final(self)@.wf(),
            final(self)@ == old(self)@,
            result_view(r) == find_comparing_prompt_run_outcome(old(self)@.tables, id),
    {
        let statement = find_comparing_prompt_run_by_id(id);
        let reply = self.execute(&statement);
        found_comparing_prompt_run(reply)
    }
}

} // verus!
