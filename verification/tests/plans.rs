use promptory::common::errors::ApplicationError;
use promptory::domain::prompt_manager::{APIType, ActionType};
use promptory::infra::repository::comparing_prompt_setting::{
    CreateComparingPromptSetting, FindComparingPromptSetting,
};
use promptory::infra::repository::extension::{attach, attached, detach, detached};
use promptory::infra::repository::plan::Step;
use promptory::infra::repository::prompt_manager::{
    create_prompt_manager, created, found_prompt_managers, FindPromptManager,
    LogicalDeletePromptManager,
};
use promptory::infra::repository::tag::ResolveTag;
use promptory::infra::repository::update::UpdatePromptManager;
use promptory::infra::storage::rows::{
    ComparingPromptSettingRow, ManagerWithTags, PromptManagerRow, TagRow,
};
use promptory::infra::storage::statement::{Reply, Statement};

fn issued<S, T: std::fmt::Debug>(step: Step<S, T>) -> (S, Statement) {
    match step {
        Step::Issue(state, statement) => (state, statement),
        Step::Finish(result) => panic!("the plan finished early: {:?}", result),
    }
}

fn finished<S, T>(step: Step<S, T>) -> Result<T, ApplicationError> {
    match step {
        Step::Finish(result) => result,
        Step::Issue(_, statement) => panic!("the plan goes on with {:?}", statement),
    }
}

fn live_manager(id: i32, action_type: Option<&str>) -> PromptManagerRow {
    PromptManagerRow {
        id,
        title: "old".to_string(),
        action_type: action_type.map(|a| a.to_string()),
        api_type: None,
        deleted_at: None,
    }
}

#[test]
fn resolving_a_known_tag_takes_one_statement() {
    let (plan, statement) = ResolveTag::start("x".to_string());
    assert!(matches!(statement, Statement::FindTag { ref value } if value == "x"));
    let step = plan.next(Reply::Tag(Some(TagRow { id: 7, value: "x".to_string() })));
    assert_eq!(finished(step), Ok(7));
}

#[test]
fn resolving_a_new_tag_inserts_it() {
    let (plan, _) = ResolveTag::start("x".to_string());
    let (plan, statement) = issued(plan.next(Reply::Tag(None)));
    assert!(matches!(statement, Statement::InsertTag { ref value } if value == "x"));
    assert_eq!(finished(plan.next(Reply::Inserted(3))), Ok(3));
}

#[test]
fn a_conflict_on_insert_is_answered_by_looking_again() {
    let (plan, _) = ResolveTag::start("x".to_string());
    let (plan, _) = issued(plan.next(Reply::Tag(None)));
    let (plan, statement) = issued(plan.next(Reply::Conflict("UNIQUE constraint failed".to_string())));
    assert!(matches!(statement, Statement::FindTag { ref value } if value == "x"));
    let step = plan.next(Reply::Tag(Some(TagRow { id: 9, value: "x".to_string() })));
    assert_eq!(finished(step), Ok(9));
}

#[test]
fn a_tag_that_stays_missing_after_a_conflict_is_a_db_error() {
    let (plan, _) = ResolveTag::start("x".to_string());
    let (plan, _) = issued(plan.next(Reply::Tag(None)));
    let (plan, _) = issued(plan.next(Reply::Conflict("UNIQUE constraint failed".to_string())));
    assert_eq!(
        finished(plan.next(Reply::Tag(None))),
        Err(ApplicationError::DBError("tag not found after a uniqueness conflict".to_string()))
    );
}

#[test]
fn a_storage_failure_while_resolving_is_passed_on() {
    let (plan, _) = ResolveTag::start("x".to_string());
    assert_eq!(
        finished(plan.next(Reply::Failed("disk I/O error".to_string()))),
        Err(ApplicationError::DBError("disk I/O error".to_string()))
    );
    let (plan, _) = ResolveTag::start("x".to_string());
    assert_eq!(
        finished(plan.next(Reply::Done)),
        Err(ApplicationError::UnknownError("unexpected reply from storage".to_string()))
    );
}

#[test]
fn attach_and_detach_name_the_extension_row() {
    assert!(matches!(
        attach(4, ActionType::ComparingModel),
        Statement::InsertExtension { action_type: ActionType::ComparingModel, manager_id: 4 }
    ));
    assert!(matches!(
        detach(4, ActionType::ComparingPrompt),
        Statement::DeleteExtension { action_type: ActionType::ComparingPrompt, manager_id: 4 }
    ));
    assert_eq!(attached(Reply::Done), Ok(()));
    assert_eq!(
        attached(Reply::Conflict("taken".to_string())),
        Err(ApplicationError::ConflictError("taken".to_string()))
    );
    assert_eq!(
        attached(Reply::Failed("gone".to_string())),
        Err(ApplicationError::DBError("gone".to_string()))
    );
    assert_eq!(detached(Reply::Done), Ok(()));
    assert_eq!(
        detached(Reply::Failed("in use".to_string())),
        Err(ApplicationError::DBError("in use".to_string()))
    );
    assert_eq!(
        detached(Reply::Inserted(1)),
        Err(ApplicationError::UnknownError("unexpected reply from storage".to_string()))
    );
}

#[test]
fn an_update_runs_its_statements_in_order() {
    let tags = vec!["x".to_string(), "y".to_string(), "x".to_string()];
    let step = UpdatePromptManager::start(
        5,
        "new",
        Some(ActionType::ComparingModel),
        Some(APIType::Chat),
        tags,
    );
    let (plan, statement) = issued(step);
    assert!(matches!(statement, Statement::Begin));
    let (plan, statement) = issued(plan.next(Reply::Done));
    assert!(matches!(statement, Statement::FindManager { id: 5 }));
    let (plan, statement) =
        issued(plan.next(Reply::Manager(Some(live_manager(5, Some("ComparingPrompt"))))));
    assert!(matches!(
        statement,
        Statement::DeleteExtension { action_type: ActionType::ComparingPrompt, manager_id: 5 }
    ));
    let (plan, statement) = issued(plan.next(Reply::Done));
    match statement {
        Statement::UpdateManager { row } => {
            assert_eq!(row.id, 5);
            assert_eq!(row.title, "new");
            assert_eq!(row.action_type, Some("ComparingModel".to_string()));
            assert_eq!(row.api_type, Some("Chat".to_string()));
            assert_eq!(row.deleted_at, None);
        },
        other => panic!("{:?}", other),
    }
    let (plan, statement) = issued(plan.next(Reply::Done));
    assert!(matches!(
        statement,
        Statement::InsertExtension { action_type: ActionType::ComparingModel, manager_id: 5 }
    ));
    // "x" exists with id 8, "y" is new and gets id 9, the second "x" is id 8 again.
    let (plan, statement) = issued(plan.next(Reply::Done));
    assert!(matches!(statement, Statement::FindTag { ref value } if value == "x"));
    let (plan, statement) =
        issued(plan.next(Reply::Tag(Some(TagRow { id: 8, value: "x".to_string() }))));
    assert!(matches!(statement, Statement::FindTag { ref value } if value == "y"));
    let (plan, statement) = issued(plan.next(Reply::Tag(None)));
    assert!(matches!(statement, Statement::InsertTag { ref value } if value == "y"));
    let (plan, statement) = issued(plan.next(Reply::Inserted(9)));
    assert!(matches!(statement, Statement::FindTag { ref value } if value == "x"));
    let (plan, statement) =
        issued(plan.next(Reply::Tag(Some(TagRow { id: 8, value: "x".to_string() }))));
    assert!(matches!(statement, Statement::DeleteManagerTags { manager_id: 5 }));
    let (plan, statement) = issued(plan.next(Reply::Done));
    assert!(matches!(statement, Statement::InsertManagerTag { manager_id: 5, tag_id: 8 }));
    let (plan, statement) = issued(plan.next(Reply::Inserted(1)));
    assert!(matches!(statement, Statement::InsertManagerTag { manager_id: 5, tag_id: 9 }));
    let (plan, statement) = issued(plan.next(Reply::Inserted(2)));
    assert!(matches!(statement, Statement::Commit));
    assert_eq!(finished(plan.next(Reply::Done)), Ok(()));
}

#[test]
fn an_update_without_action_and_tags_skips_those_statements() {
    let (plan, _) = issued(UpdatePromptManager::start(5, "new", None, None, Vec::new()));
    let (plan, _) = issued(plan.next(Reply::Done));
    let (plan, statement) = issued(plan.next(Reply::Manager(Some(live_manager(5, None)))));
    assert!(matches!(statement, Statement::UpdateManager { .. }));
    let (plan, statement) = issued(plan.next(Reply::Done));
    assert!(matches!(statement, Statement::DeleteManagerTags { manager_id: 5 }));
    let (plan, statement) = issued(plan.next(Reply::Done));
    assert!(matches!(statement, Statement::Commit));
    assert_eq!(finished(plan.next(Reply::Done)), Ok(()));
}

#[test]
fn an_update_rolls_back_on_a_missing_manager() {
    let (plan, _) = issued(UpdatePromptManager::start(5, "new", None, None, Vec::new()));
    let (plan, _) = issued(plan.next(Reply::Done));
    let (plan, statement) = issued(plan.next(Reply::Manager(None)));
    assert!(matches!(statement, Statement::Rollback));
    assert_eq!(finished(plan.next(Reply::Done)), Err(ApplicationError::NotFoundError));
}

#[test]
fn an_update_rolls_back_on_any_failure() {
    // The transaction cannot be opened: nothing to roll back.
    let (plan, _) = issued(UpdatePromptManager::start(5, "new", None, None, Vec::new()));
    assert_eq!(
        finished(plan.next(Reply::Failed("locked".to_string()))),
        Err(ApplicationError::DBError("locked".to_string()))
    );
    // The attach conflicts.
    let (plan, _) = issued(
        UpdatePromptManager::start(5, "new", Some(ActionType::ComparingPrompt), None, Vec::new()),
    );
    let (plan, _) = issued(plan.next(Reply::Done));
    let (plan, _) = issued(plan.next(Reply::Manager(Some(live_manager(5, None)))));
    let (plan, _) = issued(plan.next(Reply::Done));
    let (plan, statement) = issued(plan.next(Reply::Conflict("taken".to_string())));
    assert!(matches!(statement, Statement::Rollback));
    // Whatever the rollback replies, the first error is the result.
    assert_eq!(
        finished(plan.next(Reply::Failed("rollback failed".to_string()))),
        Err(ApplicationError::ConflictError("taken".to_string()))
    );
    // The commit fails.
    let (plan, _) = issued(UpdatePromptManager::start(5, "new", None, None, Vec::new()));
    let (plan, _) = issued(plan.next(Reply::Done));
    let (plan, _) = issued(plan.next(Reply::Manager(Some(live_manager(5, None)))));
    let (plan, _) = issued(plan.next(Reply::Done));
    let (plan, _) = issued(plan.next(Reply::Done));
    let (plan, statement) = issued(plan.next(Reply::Failed("busy".to_string())));
    assert!(matches!(statement, Statement::Rollback));
    assert_eq!(
        finished(plan.next(Reply::Done)),
        Err(ApplicationError::DBError("busy".to_string()))
    );
}

#[test]
fn finding_a_manager_asks_for_its_tags() {
    let (plan, statement) = issued(FindPromptManager::start(3));
    assert!(matches!(statement, Statement::FindManager { id: 3 }));
    let (plan, statement) =
        issued(plan.next(Reply::Manager(Some(live_manager(3, Some("ComparingModel"))))));
    assert!(matches!(statement, Statement::FindTagsOfManager { manager_id: 3 }));
    let tags = vec![
        TagRow { id: 2, value: "b".to_string() },
        TagRow { id: 1, value: "a".to_string() },
    ];
    let manager = finished(plan.next(Reply::Tags(tags))).unwrap();
    assert_eq!(manager.id, 3);
    assert_eq!(manager.title, "old");
    assert_eq!(manager.action_type, Some(ActionType::ComparingModel));
    assert_eq!(manager.api_type, None);
    assert_eq!(manager.tags, vec!["b".to_string(), "a".to_string()]);
}

#[test]
fn finding_a_deleted_manager_is_not_found() {
    let (plan, _) = issued(FindPromptManager::start(3));
    let mut row = live_manager(3, None);
    row.deleted_at = Some("then".to_string());
    assert_eq!(
        finished(plan.next(Reply::Manager(Some(row)))).unwrap_err(),
        ApplicationError::NotFoundError
    );
}

#[test]
fn listing_leaves_out_deleted_managers_that_storage_sent() {
    let mut gone = live_manager(2, None);
    gone.deleted_at = Some("then".to_string());
    let entries = vec![
        ManagerWithTags { manager: live_manager(1, None), tags: Vec::new() },
        ManagerWithTags { manager: gone, tags: Vec::new() },
        ManagerWithTags {
            manager: live_manager(3, Some("ComparingPrompt")),
            tags: vec![TagRow { id: 1, value: "t".to_string() }],
        },
    ];
    let managers = found_prompt_managers(Reply::Managers(entries)).unwrap();
    assert_eq!(managers.len(), 2);
    assert_eq!(managers[0].id, 1);
    assert_eq!(managers[1].id, 3);
    assert_eq!(managers[1].action_type, Some(ActionType::ComparingPrompt));
    assert_eq!(managers[1].tags, vec!["t".to_string()]);
    assert_eq!(
        found_prompt_managers(Reply::Failed("db error".to_string())).unwrap_err(),
        ApplicationError::DBError("db error".to_string())
    );
}

#[test]
fn creating_a_manager_names_the_insert() {
    let statement = create_prompt_manager("Test title").unwrap();
    assert!(matches!(statement, Statement::InsertManager { ref title } if title == "Test title"));
    assert_eq!(created(Reply::Inserted(1)), Ok(1));
    assert_eq!(
        created(Reply::Failed("db error".to_string())),
        Err(ApplicationError::DBError("db error".to_string()))
    );
    assert!(create_prompt_manager("").is_err());
}

#[test]
fn deleting_writes_the_row_back_with_the_time() {
    let (plan, statement) = issued(LogicalDeletePromptManager::start(3, "now".to_string()));
    assert!(matches!(statement, Statement::FindManager { id: 3 }));
    let (plan, statement) =
        issued(plan.next(Reply::Manager(Some(live_manager(3, Some("ComparingPrompt"))))));
    match statement {
        Statement::UpdateManager { row } => {
            assert_eq!(row.id, 3);
            assert_eq!(row.title, "old");
            assert_eq!(row.action_type, Some("ComparingPrompt".to_string()));
            assert_eq!(row.deleted_at, Some("now".to_string()));
        },
        other => panic!("{:?}", other),
    }
    assert_eq!(finished(plan.next(Reply::Done)), Ok(()));
}

#[test]
fn deleting_now_starts_by_loading_the_manager() {
    let (plan, statement) = issued(LogicalDeletePromptManager::start_now(3));
    assert!(matches!(statement, Statement::FindManager { id: 3 }));
    let (_, statement) = issued(plan.next(Reply::Manager(Some(live_manager(3, None)))));
    match statement {
        Statement::UpdateManager { row } => assert!(row.deleted_at.unwrap().ends_with(" UTC")),
        other => panic!("{:?}", other),
    }
}

#[test]
fn creating_a_setting_inserts_version_one_in_the_same_transaction() {
    let (plan, statement) = issued(CreateComparingPromptSetting::start(4));
    assert!(matches!(statement, Statement::Begin));
    let (plan, statement) = issued(plan.next(Reply::Done));
    assert!(matches!(statement, Statement::InsertSetting { manager_id: 4, current_version: 1 }));
    let (plan, statement) = issued(plan.next(Reply::Inserted(12)));
    match statement {
        Statement::InsertSettingVersion { setting_id, version, system_prompt } => {
            assert_eq!((setting_id, version), (12, 1));
            assert_eq!(system_prompt, "");
        },
        other => panic!("{:?}", other),
    }
    let (plan, statement) = issued(plan.next(Reply::Inserted(30)));
    assert!(matches!(statement, Statement::Commit));
    assert_eq!(finished(plan.next(Reply::Done)), Ok(12));
}

#[test]
fn a_failed_version_insert_rolls_the_setting_back() {
    let (plan, _) = issued(CreateComparingPromptSetting::start(4));
    let (plan, _) = issued(plan.next(Reply::Done));
    let (plan, _) = issued(plan.next(Reply::Inserted(12)));
    let (plan, statement) = issued(plan.next(Reply::Failed("disk full".to_string())));
    assert!(matches!(statement, Statement::Rollback));
    assert_eq!(
        finished(plan.next(Reply::Done)),
        Err(ApplicationError::DBError("disk full".to_string()))
    );
}

#[test]
fn finding_a_setting_asks_for_its_current_version() {
    let (plan, statement) = issued(FindComparingPromptSetting::start(6));
    assert!(matches!(statement, Statement::FindSetting { id: 6 }));
    let setting =
        ComparingPromptSettingRow { id: 6, manager_id: 2, current_version: 4, deleted_at: None };
    let (plan, statement) = issued(plan.next(Reply::Setting(Some(setting))));
    assert!(matches!(statement, Statement::FindSettingVersion { setting_id: 6, version: 4 }));
    assert_eq!(
        finished(plan.next(Reply::Version(None))).unwrap_err(),
        ApplicationError::NotFoundError
    );
    let (plan, _) = issued(FindComparingPromptSetting::start(6));
    let deleted = ComparingPromptSettingRow {
        id: 6,
        manager_id: 2,
        current_version: 4,
        deleted_at: Some("then".to_string()),
    };
    assert_eq!(
        finished(plan.next(Reply::Setting(Some(deleted)))).unwrap_err(),
        ApplicationError::NotFoundError
    );
}
