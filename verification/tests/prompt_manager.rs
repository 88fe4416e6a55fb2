use promptory::common::errors::{ApplicationError, ErrorKind};
use promptory::domain::prompt_manager::{APIType, ActionType};
use promptory::infra::storage::memory::MemoryStore;
use promptory::infra::storage::rows::PromptManagerRow;
use promptory::infra::storage::statement::{Reply, Statement};

fn insert_manager(store: &mut MemoryStore, title: &str, action_type: Option<String>) -> i32 {
    let id = match store.execute(&Statement::InsertManager { title: title.to_string() }) {
        Reply::Inserted(id) => id,
        other => panic!("Failed to insert prompt manager: {:?}", other),
    };
    if action_type.is_some() {
        let row = PromptManagerRow {
            id,
            title: title.to_string(),
            action_type,
            api_type: None,
            deleted_at: None,
        };
        assert!(matches!(store.execute(&Statement::UpdateManager { row }), Reply::Done));
    }
    id
}

fn insert_tag(store: &mut MemoryStore, value: &str) -> i32 {
    match store.execute(&Statement::InsertTag { value: value.to_string() }) {
        Reply::Inserted(id) => id,
        other => panic!("Failed to insert tag: {:?}", other),
    }
}

fn manager_row(store: &mut MemoryStore, id: i32) -> Option<PromptManagerRow> {
    match store.execute(&Statement::FindManager { id }) {
        Reply::Manager(row) => row,
        other => panic!("Failed to fetch prompt manager: {:?}", other),
    }
}

fn extension_exists(store: &mut MemoryStore, action_type: ActionType, manager_id: i32) -> bool {
    // Inserting the row again conflicts exactly when it exists. The probe runs
    // inside a transaction that is rolled back.
    assert!(matches!(store.execute(&Statement::Begin), Reply::Done));
    let reply = store.execute(&Statement::InsertExtension { action_type, manager_id });
    assert!(matches!(store.execute(&Statement::Rollback), Reply::Done));
    matches!(reply, Reply::Conflict(_))
}

fn sorted(mut values: Vec<String>) -> Vec<String> {
    values.sort();
    values
}

#[test]
fn test_find_prompt_manager_by_id() {
    let mut store = MemoryStore::new();
    let prompt_manager_id = insert_manager(
        &mut store,
        "test_title",
        Some(ActionType::ComparingPrompt.to_string()),
    );
    let tag_id = insert_tag(&mut store, "test_tag");
    let reply = store.execute(
        &Statement::InsertManagerTag { manager_id: prompt_manager_id, tag_id },
    );
    assert!(matches!(reply, Reply::Inserted(_)), "Failed to insert into prompt_manager_tag");

    let result = store.find_prompt_manager_by_id(prompt_manager_id);
    assert!(result.is_ok());
    let manager = result.unwrap();

    assert_eq!(manager.title, "test_title");
    assert_eq!(manager.action_type, Some(ActionType::ComparingPrompt));
    assert_eq!(manager.api_type, None);
    assert_eq!(manager.tags[0], "test_tag");
}

#[test]
fn test_find_prompt_manager_by_id_not_found_error() {
    let mut store = MemoryStore::new();
    let result = store.find_prompt_manager_by_id(9999);
    assert!(result.is_err());
    assert_eq!(result.unwrap_err(), ApplicationError::NotFoundError);
}

#[test]
fn test_find_all_prompt_managers() {
    let mut store = MemoryStore::new();
    let prompt_manager_id = insert_manager(
        &mut store,
        "test_title",
        Some(ActionType::ComparingPrompt.to_string()),
    );
    let tag_id = insert_tag(&mut store, "test_tag");
    let reply = store.execute(
        &Statement::InsertManagerTag { manager_id: prompt_manager_id, tag_id },
    );
    assert!(matches!(reply, Reply::Inserted(_)), "Failed to insert into prompt_manager_tag");

    let result = store.find_all_prompt_managers();
    assert!(result.is_ok());
    let managers = result.unwrap();

    assert_eq!(managers.len(), 1);
    assert_eq!(managers[0].title, "test_title");
    assert_eq!(managers[0].action_type, Some(ActionType::ComparingPrompt));
    assert_eq!(managers[0].api_type, None);
    assert_eq!(managers[0].tags[0], "test_tag");
}

#[test]
fn test_create_prompt_managers() {
    let mut store = MemoryStore::new();
    let result = store.create_prompt_manager("test_title");
    assert!(result.is_ok());
    let id = result.unwrap();

    let settings = manager_row(&mut store, id).unwrap();
    assert_eq!(settings.title, "test_title");
    assert_eq!(settings.action_type, None);
}

#[test]
fn test_update_prompt_manager() {
    let mut store = MemoryStore::new();
    let prompt_manager_id = insert_manager(
        &mut store,
        "test_title",
        Some(ActionType::ComparingPrompt.to_string()),
    );
    let reply = store.execute(
        &Statement::InsertExtension {
            action_type: ActionType::ComparingPrompt,
            manager_id: prompt_manager_id,
        },
    );
    assert!(matches!(reply, Reply::Done), "Failed to insert comparing_prompt_manager");

    let result = store.update_prompt_manager(
        prompt_manager_id,
        "test_title2",
        Some(ActionType::ComparingPrompt),
        Some(APIType::Chat),
        vec!["test_tag".to_string()],
    );
    assert!(result.is_ok());

    let prompt_manager = manager_row(&mut store, prompt_manager_id).unwrap();
    assert_eq!(prompt_manager.title, "test_title2");
    assert_eq!(prompt_manager.action_type, Some(ActionType::ComparingPrompt.to_string()));
    assert_eq!(prompt_manager.api_type, Some(APIType::Chat.to_string()));

    assert!(extension_exists(&mut store, ActionType::ComparingPrompt, prompt_manager_id));

    let tags = match store.execute(
        &Statement::FindTagsOfManager { manager_id: prompt_manager_id },
    ) {
        Reply::Tags(tags) => tags,
        other => panic!("Failed to fetch prompt_manager_tags: {:?}", other),
    };
    assert_eq!(tags.len(), 1);
    assert_eq!(tags[0].id, 1);
    assert_eq!(tags[0].value, "test_tag");

    let tag = match store.execute(&Statement::FindTag { value: "test_tag".to_string() }) {
        Reply::Tag(tag) => tag,
        other => panic!("Failed to fetch tag: {:?}", other),
    };
    assert!(tag.is_some());
    assert_eq!(tag.unwrap().id, 1);
}

#[test]
fn test_update_prompt_manager_not_found_error() {
    let mut store = MemoryStore::new();
    let result = store.update_prompt_manager(
        9999,
        "test_title2",
        Some(ActionType::ComparingModel),
        Some(APIType::Chat),
        vec!["test_tag".to_string()],
    );
    assert!(result.is_err());
    assert_eq!(result.unwrap_err(), ApplicationError::NotFoundError);
    // Nothing was written: not even the tag.
    assert!(matches!(
        store.execute(&Statement::FindTag { value: "test_tag".to_string() }),
        Reply::Tag(None)
    ));
}

#[test]
fn test_logical_delete_prompt_managers() {
    let mut store = MemoryStore::new();
    let _ = insert_manager(&mut store, "test_title", Some(ActionType::ComparingPrompt.to_string()));

    let result = store.logical_delete_prompt_manager(1);
    assert!(result.is_ok());

    let prompt_manager = manager_row(&mut store, 1);
    assert!(prompt_manager.is_some());
    assert!(prompt_manager.unwrap().deleted_at.is_some());
}

#[test]
fn test_logical_delete_prompt_managers_not_found_error() {
    let mut store = MemoryStore::new();
    let result = store.logical_delete_prompt_manager(9999);
    assert!(result.is_err());
    assert_eq!(result.unwrap_err(), ApplicationError::NotFoundError);
}

#[test]
fn logical_delete_writes_the_current_time() {
    let mut store = MemoryStore::new();
    let id = store.create_prompt_manager("A").unwrap();
    store.logical_delete_prompt_manager(id).unwrap();
    let deleted_at = manager_row(&mut store, id).unwrap().deleted_at.unwrap();
    // The clock prints a date, a time and the offset: "2024-01-31 12:00:00.123 UTC".
    assert!(deleted_at.ends_with(" UTC"));
    assert!(deleted_at.len() >= "2024-01-31 12:00:00 UTC".len());
    assert_eq!(&deleted_at[4..5], "-");
}

#[test]
fn logical_delete_keeps_the_given_time_and_hides_the_manager() {
    let mut store = MemoryStore::new();
    let first = store.create_prompt_manager("first").unwrap();
    let second = store.create_prompt_manager("second").unwrap();
    store.logical_delete_prompt_manager_at(first, "2024-05-01 10:00:00 UTC".to_string()).unwrap();

    let row = manager_row(&mut store, first).unwrap();
    assert_eq!(row.deleted_at, Some("2024-05-01 10:00:00 UTC".to_string()));
    assert_eq!(row.title, "first");

    assert_eq!(store.find_prompt_manager_by_id(first).unwrap_err(), ApplicationError::NotFoundError);
    let all = store.find_all_prompt_managers().unwrap();
    assert_eq!(all.len(), 1);
    assert_eq!(all[0].id, second);
}

#[test]
fn deleting_twice_is_not_found_and_keeps_the_first_time() {
    let mut store = MemoryStore::new();
    let id = store.create_prompt_manager("A").unwrap();
    store.logical_delete_prompt_manager_at(id, "first".to_string()).unwrap();
    let again = store.logical_delete_prompt_manager_at(id, "second".to_string());
    assert_eq!(again.unwrap_err(), ApplicationError::NotFoundError);
    assert_eq!(manager_row(&mut store, id).unwrap().deleted_at, Some("first".to_string()));
}

#[test]
fn update_of_a_deleted_manager_is_not_found() {
    let mut store = MemoryStore::new();
    let id = store.create_prompt_manager("A").unwrap();
    store.logical_delete_prompt_manager_at(id, "gone".to_string()).unwrap();
    let result = store.update_prompt_manager(id, "B", None, None, vec!["x".to_string()]);
    assert_eq!(result.unwrap_err(), ApplicationError::NotFoundError);
    assert_eq!(manager_row(&mut store, id).unwrap().title, "A");
}

#[test]
fn created_manager_has_no_action_and_no_tags() {
    let mut store = MemoryStore::new();
    let id = store.create_prompt_manager("A").unwrap();
    assert_eq!(id, 1);
    let manager = store.find_prompt_manager_by_id(id).unwrap();
    assert_eq!(manager.id, 1);
    assert_eq!(manager.title, "A");
    assert_eq!(manager.action_type, None);
    assert_eq!(manager.api_type, None);
    assert!(manager.tags.is_empty());
    assert!(!extension_exists(&mut store, ActionType::ComparingPrompt, id));
    assert!(!extension_exists(&mut store, ActionType::ComparingModel, id));
}

#[test]
fn create_rejects_an_empty_title() {
    let mut store = MemoryStore::new();
    let result = store.create_prompt_manager("");
    let error = result.unwrap_err();
    assert_eq!(error, ApplicationError::ValidationError("title must not be empty".to_string()));
    assert_eq!(error.kind(), ErrorKind::Validation);
    assert!(store.find_all_prompt_managers().unwrap().is_empty());
    // The id was not used up.
    assert_eq!(store.create_prompt_manager("A").unwrap(), 1);
}

#[test]
fn ids_count_upwards_from_one() {
    let mut store = MemoryStore::new();
    assert_eq!(store.create_prompt_manager("A").unwrap(), 1);
    assert_eq!(store.create_prompt_manager("B").unwrap(), 2);
    assert_eq!(store.create_prompt_manager("C").unwrap(), 3);
    let all = store.find_all_prompt_managers().unwrap();
    let titles: Vec<&str> = all.iter().map(|m| m.title.as_str()).collect();
    assert_eq!(titles, vec!["A", "B", "C"]);
}

#[test]
fn scenario_attach_tag_and_retag() {
    let mut store = MemoryStore::new();
    let id = store.create_prompt_manager("A").unwrap();

    store
        .update_prompt_manager(
            id,
            "A",
            Some(ActionType::ComparingPrompt),
            None,
            vec!["x".to_string(), "y".to_string()],
        )
        .unwrap();
    let manager = store.find_prompt_manager_by_id(id).unwrap();
    assert_eq!(manager.action_type, Some(ActionType::ComparingPrompt));
    assert_eq!(sorted(manager.tags), vec!["x".to_string(), "y".to_string()]);
    assert!(extension_exists(&mut store, ActionType::ComparingPrompt, id));
    assert!(!extension_exists(&mut store, ActionType::ComparingModel, id));

    store
        .update_prompt_manager(id, "A", Some(ActionType::ComparingPrompt), None, vec!["y".to_string()])
        .unwrap();
    let manager = store.find_prompt_manager_by_id(id).unwrap();
    assert_eq!(manager.tags, vec!["y".to_string()]);
    let tags = match store.execute(&Statement::FindTagsOfManager { manager_id: id }) {
        Reply::Tags(tags) => tags,
        other => panic!("{:?}", other),
    };
    assert_eq!(tags.len(), 1);
    assert_eq!(tags[0].value, "y");
    // The tag "x" itself is still there.
    assert!(matches!(
        store.execute(&Statement::FindTag { value: "x".to_string() }),
        Reply::Tag(Some(_))
    ));
    assert!(extension_exists(&mut store, ActionType::ComparingPrompt, id));
}

#[test]
fn switching_the_action_moves_the_extension_row() {
    let mut store = MemoryStore::new();
    let id = store.create_prompt_manager("A").unwrap();
    store
        .update_prompt_manager(id, "A", Some(ActionType::ComparingPrompt), None, Vec::new())
        .unwrap();
    store
        .update_prompt_manager(
            id,
            "B",
            Some(ActionType::ComparingModel),
            Some(APIType::Assistant),
            vec!["b".to_string(), "a".to_string(), "b".to_string()],
        )
        .unwrap();
    assert!(!extension_exists(&mut store, ActionType::ComparingPrompt, id));
    assert!(extension_exists(&mut store, ActionType::ComparingModel, id));
    let manager = store.find_prompt_manager_by_id(id).unwrap();
    assert_eq!(manager.title, "B");
    assert_eq!(manager.action_type, Some(ActionType::ComparingModel));
    assert_eq!(manager.api_type, Some(APIType::Assistant));
    // Each value once, in the order in which it first came.
    assert_eq!(manager.tags, vec!["b".to_string(), "a".to_string()]);
    let row = manager_row(&mut store, id).unwrap();
    assert_eq!(row.action_type, Some("ComparingModel".to_string()));
    assert_eq!(row.api_type, Some("Assistant".to_string()));
}

#[test]
fn removing_the_action_removes_the_extension_row() {
    let mut store = MemoryStore::new();
    let id = store.create_prompt_manager("A").unwrap();
    store
        .update_prompt_manager(id, "A", Some(ActionType::ComparingModel), None, Vec::new())
        .unwrap();
    store.update_prompt_manager(id, "A", None, None, Vec::new()).unwrap();
    assert!(!extension_exists(&mut store, ActionType::ComparingPrompt, id));
    assert!(!extension_exists(&mut store, ActionType::ComparingModel, id));
    assert_eq!(store.find_prompt_manager_by_id(id).unwrap().action_type, None);
    assert_eq!(manager_row(&mut store, id).unwrap().action_type, None);
}

#[test]
fn updating_twice_shows_the_same_manager() {
    let mut store = MemoryStore::new();
    let id = store.create_prompt_manager("A").unwrap();
    let other = store.create_prompt_manager("other").unwrap();
    store
        .update_prompt_manager(other, "other", None, None, vec!["x".to_string()])
        .unwrap();
    let tags = vec!["x".to_string(), "z".to_string(), "x".to_string()];
    store
        .update_prompt_manager(id, "T", Some(ActionType::ComparingPrompt), Some(APIType::Chat), tags.clone())
        .unwrap();
    let once = store.find_prompt_manager_by_id(id).unwrap();
    store
        .update_prompt_manager(id, "T", Some(ActionType::ComparingPrompt), Some(APIType::Chat), tags)
        .unwrap();
    let twice = store.find_prompt_manager_by_id(id).unwrap();
    assert_eq!(once.title, twice.title);
    assert_eq!(once.action_type, twice.action_type);
    assert_eq!(once.api_type, twice.api_type);
    assert_eq!(once.tags, twice.tags);
    assert_eq!(twice.tags, vec!["x".to_string(), "z".to_string()]);
    assert!(extension_exists(&mut store, ActionType::ComparingPrompt, id));
    // The other manager is untouched.
    let untouched = store.find_prompt_manager_by_id(other).unwrap();
    assert_eq!(untouched.tags, vec!["x".to_string()]);
    assert_eq!(untouched.title, "other");
}

#[test]
fn tags_are_shared_between_managers() {
    let mut store = MemoryStore::new();
    let a = store.create_prompt_manager("A").unwrap();
    let b = store.create_prompt_manager("B").unwrap();
    store.update_prompt_manager(a, "A", None, None, vec!["x".to_string(), "y".to_string()]).unwrap();
    store.update_prompt_manager(b, "B", None, None, vec!["y".to_string(), "w".to_string()]).unwrap();
    let ids = |store: &mut MemoryStore, manager_id: i32| -> Vec<i32> {
        match store.execute(&Statement::FindTagsOfManager { manager_id }) {
            Reply::Tags(tags) => tags.iter().map(|t| t.id).collect(),
            other => panic!("{:?}", other),
        }
    };
    assert_eq!(ids(&mut store, a), vec![1, 2]);
    assert_eq!(ids(&mut store, b), vec![2, 3]);
    assert_eq!(store.resolve_or_create("w").unwrap(), 3);
    assert_eq!(store.resolve_or_create("new").unwrap(), 4);
    assert_eq!(store.resolve_or_create("new").unwrap(), 4);
}

#[test]
fn a_stored_name_that_is_no_action_is_a_parse_error() {
    let mut store = MemoryStore::new();
    let id = insert_manager(&mut store, "A", Some("ComparingNothing".to_string()));
    let expected = ApplicationError::ParseError(
        "failed to convert string to enum ActionType".to_string(),
    );
    assert_eq!(store.find_prompt_manager_by_id(id).unwrap_err(), expected);
    assert_eq!(store.find_all_prompt_managers().unwrap_err(), expected);
    let result = store.update_prompt_manager(id, "B", None, None, vec!["x".to_string()]);
    assert_eq!(result.unwrap_err(), expected);
    // The update changed nothing.
    assert_eq!(manager_row(&mut store, id).unwrap().title, "A");
    assert!(matches!(
        store.execute(&Statement::FindTag { value: "x".to_string() }),
        Reply::Tag(None)
    ));
}

#[test]
fn a_stored_name_that_is_no_api_is_a_parse_error() {
    let mut store = MemoryStore::new();
    let id = store.create_prompt_manager("A").unwrap();
    let row = PromptManagerRow {
        id,
        title: "A".to_string(),
        action_type: None,
        api_type: Some("Telepathy".to_string()),
        deleted_at: None,
    };
    assert!(matches!(store.execute(&Statement::UpdateManager { row }), Reply::Done));
    assert_eq!(
        store.find_prompt_manager_by_id(id).unwrap_err(),
        ApplicationError::ParseError("failed to convert string to enum APIType".to_string())
    );
}

#[test]
fn attaching_twice_is_a_conflict() {
    let mut store = MemoryStore::new();
    let id = store.create_prompt_manager("A").unwrap();
    assert!(store.attach(id, ActionType::ComparingPrompt).is_ok());
    let again = store.attach(id, ActionType::ComparingPrompt);
    assert_eq!(
        again.unwrap_err(),
        ApplicationError::ConflictError("UNIQUE constraint failed".to_string())
    );
    // The other action's table is independent.
    assert!(store.attach(id, ActionType::ComparingModel).is_ok());
}

#[test]
fn attaching_to_a_missing_manager_is_a_db_error() {
    let mut store = MemoryStore::new();
    let result = store.attach(7, ActionType::ComparingPrompt);
    assert_eq!(
        result.unwrap_err(),
        ApplicationError::DBError("FOREIGN KEY constraint failed".to_string())
    );
}

#[test]
fn detaching_what_is_not_attached_does_nothing() {
    let mut store = MemoryStore::new();
    let id = store.create_prompt_manager("A").unwrap();
    assert!(store.detach(id, ActionType::ComparingPrompt).is_ok());
    assert!(store.attach(id, ActionType::ComparingPrompt).is_ok());
    assert!(store.detach(id, ActionType::ComparingModel).is_ok());
    assert!(extension_exists(&mut store, ActionType::ComparingPrompt, id));
    assert!(store.detach(id, ActionType::ComparingPrompt).is_ok());
    assert!(!extension_exists(&mut store, ActionType::ComparingPrompt, id));
}

#[test]
fn update_conflicts_where_the_new_action_is_attached_already() {
    let mut store = MemoryStore::new();
    let id = store.create_prompt_manager("A").unwrap();
    // An extension row without the action in the manager's row.
    assert!(store.attach(id, ActionType::ComparingModel).is_ok());
    let result = store.update_prompt_manager(
        id,
        "B",
        Some(ActionType::ComparingModel),
        None,
        vec!["x".to_string()],
    );
    assert_eq!(result.unwrap_err().kind(), ErrorKind::Conflict);
    assert_eq!(manager_row(&mut store, id).unwrap().title, "A");
}

#[test]
fn update_fails_whole_where_settings_hold_the_old_action() {
    let mut store = MemoryStore::new();
    let id = store.create_prompt_manager("A").unwrap();
    store
        .update_prompt_manager(id, "A", Some(ActionType::ComparingPrompt), None, vec!["x".to_string()])
        .unwrap();
    store.create_comparing_prompt_setting(id).unwrap();
    let result = store.update_prompt_manager(
        id,
        "B",
        Some(ActionType::ComparingModel),
        None,
        vec!["y".to_string()],
    );
    assert_eq!(
        result.unwrap_err(),
        ApplicationError::DBError("FOREIGN KEY constraint failed".to_string())
    );
    let manager = store.find_prompt_manager_by_id(id).unwrap();
    assert_eq!(manager.title, "A");
    assert_eq!(manager.action_type, Some(ActionType::ComparingPrompt));
    assert_eq!(manager.tags, vec!["x".to_string()]);
    assert!(extension_exists(&mut store, ActionType::ComparingPrompt, id));
}

#[test]
fn update_inside_an_open_transaction_is_a_db_error() {
    let mut store = MemoryStore::new();
    let id = store.create_prompt_manager("A").unwrap();
    assert!(matches!(store.execute(&Statement::Begin), Reply::Done));
    let result = store.update_prompt_manager(id, "B", None, None, Vec::new());
    assert_eq!(
        result.unwrap_err(),
        ApplicationError::DBError("cannot start a transaction within a transaction".to_string())
    );
    // The caller's transaction is still open and can be rolled back.
    assert!(matches!(store.execute(&Statement::Rollback), Reply::Done));
    assert_eq!(manager_row(&mut store, id).unwrap().title, "A");
}

#[test]
fn rollback_puts_the_tables_back() {
    let mut store = MemoryStore::new();
    let id = store.create_prompt_manager("A").unwrap();
    assert!(matches!(store.execute(&Statement::Begin), Reply::Done));
    assert_eq!(store.create_prompt_manager("B").unwrap(), 2);
    assert!(store.attach(id, ActionType::ComparingPrompt).is_ok());
    assert!(matches!(store.execute(&Statement::Rollback), Reply::Done));
    assert_eq!(store.find_all_prompt_managers().unwrap().len(), 1);
    assert!(!extension_exists(&mut store, ActionType::ComparingPrompt, id));
    assert!(matches!(store.execute(&Statement::Rollback), Reply::Failed(_)));
    assert!(matches!(store.execute(&Statement::Commit), Reply::Failed(_)));
}
