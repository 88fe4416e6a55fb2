use promptory::common::errors::ApplicationError;
use promptory::domain::comparing_prompt::{ComparingPromptSettingRunModel, ProviderType};
use promptory::domain::prompt_manager::ActionType;
use promptory::infra::repository::comparing_prompt_setting::found_comparing_prompt_settings;
use promptory::infra::storage::memory::MemoryStore;
use promptory::infra::storage::rows::{
    ComparingPromptRunRow, ComparingPromptSettingRow, ComparingPromptSettingVersionRow,
    SettingWithVersions,
};
use promptory::infra::storage::statement::{Reply, Statement};

fn seed_prompt_manager(store: &mut MemoryStore) -> i32 {
    match store.execute(&Statement::InsertManager { title: "test_title".to_string() }) {
        Reply::Inserted(id) => id,
        other => panic!("Failed to insert prompt manager: {:?}", other),
    }
}

fn seed_comparing_prompt_manager(store: &mut MemoryStore, manager_id: i32) {
    let reply = store.execute(
        &Statement::InsertExtension { action_type: ActionType::ComparingPrompt, manager_id },
    );
    assert!(matches!(reply, Reply::Done), "Failed to insert comparing_prompt_manager");
}

fn run(manager_id: i32, provider_type: ProviderType) -> ComparingPromptSettingRunModel {
    ComparingPromptSettingRunModel {
        id: 0,
        manager_id,
        user_prompt: "test_user_prompt".to_string(),
        provider_type,
        model: "test_model".to_string(),
        temperature: 0,
        max_tokens: None,
        response_format: None,
    }
}

#[test]
fn test_create_comparing_prompt_run() {
    let mut store = MemoryStore::new();
    let manager_id = seed_prompt_manager(&mut store);
    seed_comparing_prompt_manager(&mut store, manager_id);

    let result = store.create_comparing_prompt_run(run(manager_id, ProviderType::OpenAI));

    assert!(result.is_ok());
    let new_id = result.unwrap();
    let new_item = match store.execute(&Statement::FindRun { id: new_id }) {
        Reply::Run(row) => row,
        other => panic!("{:?}", other),
    };
    assert!(new_item.is_some());
    let new_item = new_item.unwrap();
    assert_eq!(new_item.id, new_id);
    assert_eq!(new_item.manager_id, manager_id);
    assert_eq!(new_item.user_prompt, "test_user_prompt");
    assert_eq!(new_item.provider_type, ProviderType::OpenAI.to_string().as_str());
    assert_eq!(new_item.model, "test_model");
    assert_eq!(new_item.temperature, 0);
    assert_eq!(new_item.max_token, None);
}

#[test]
fn test_find_comparing_prompt_setting_by_id() {
    let mut store = MemoryStore::new();
    let manager_id = seed_prompt_manager(&mut store);
    seed_comparing_prompt_manager(&mut store, manager_id);
    let id = match store.execute(&Statement::InsertSetting { manager_id, current_version: 1 }) {
        Reply::Inserted(id) => id,
        other => panic!("Failed to insert comparing_prompt_setting: {:?}", other),
    };
    let reply = store.execute(
        &Statement::InsertSettingVersion { setting_id: id, version: 1, system_prompt: "".to_string() },
    );
    assert!(matches!(reply, Reply::Inserted(_)), "Failed to insert comparing_prompt_setting_version");

    let result = store.find_comparing_prompt_setting_by_id(id);

    assert!(result.is_ok());
    let result = result.unwrap();
    assert_eq!(result.id, id);
    assert_eq!(result.manager_id, manager_id);
    assert_eq!(result.current_version, 1);
    assert_eq!(result.versions.len(), 1);
    assert_eq!(result.versions[0].system_prompt, "");
}

#[test]
fn test_find_all_comparing_prompt_settings_by_manager_id() {
    let mut store = MemoryStore::new();
    let manager_id = seed_prompt_manager(&mut store);
    seed_comparing_prompt_manager(&mut store, manager_id);
    let id = match store.execute(&Statement::InsertSetting { manager_id, current_version: 1 }) {
        Reply::Inserted(id) => id,
        other => panic!("Failed to insert comparing_prompt_setting: {:?}", other),
    };
    let reply = store.execute(
        &Statement::InsertSettingVersion { setting_id: id, version: 1, system_prompt: "".to_string() },
    );
    assert!(matches!(reply, Reply::Inserted(_)), "Failed to insert comparing_prompt_setting_version");

    let result = store.find_all_comparing_prompt_settings_by_manager_id(manager_id);

    assert!(result.is_ok());
    let result = result.unwrap();
    assert_eq!(result.len(), 1);
    assert_eq!(result[0].id, id);
    assert_eq!(result[0].manager_id, manager_id);
    assert_eq!(result[0].current_version, 1);
    assert_eq!(result[0].versions.len(), 1);
    assert_eq!(result[0].versions[0].system_prompt, "");
}

#[test]
fn test_create_comparing_prompt_setting() {
    let mut store = MemoryStore::new();
    let manager_id = seed_prompt_manager(&mut store);
    seed_comparing_prompt_manager(&mut store, manager_id);

    let result = store.create_comparing_prompt_setting(manager_id);

    assert!(result.is_ok());
    let new_id = result.unwrap();
    let new_item = store.find_comparing_prompt_setting_by_id(new_id).unwrap();
    assert_eq!(new_item.id, new_id);
    assert_eq!(new_item.manager_id, manager_id);
    assert_eq!(new_item.current_version, 1);

    let version_result = match store.execute(
        &Statement::FindSettingVersion { setting_id: new_id, version: 1 },
    ) {
        Reply::Version(row) => row,
        other => panic!("Failed to fetch comparing_prompt_setting_version: {:?}", other),
    };
    assert!(version_result.is_some());
    let version = version_result.unwrap();
    assert_eq!(version.setting_id, new_id);
    assert_eq!(version.version, 1);
}

#[test]
fn created_setting_has_exactly_version_one_with_an_empty_prompt() {
    let mut store = MemoryStore::new();
    let manager_id = seed_prompt_manager(&mut store);
    seed_comparing_prompt_manager(&mut store, manager_id);
    let first = store.create_comparing_prompt_setting(manager_id).unwrap();
    let second = store.create_comparing_prompt_setting(manager_id).unwrap();
    assert_eq!((first, second), (1, 2));

    let all = store.find_all_comparing_prompt_settings_by_manager_id(manager_id).unwrap();
    assert_eq!(all.len(), 2);
    for (setting, id) in all.iter().zip([first, second]) {
        assert_eq!(setting.id, id);
        assert_eq!(setting.current_version, 1);
        assert_eq!(setting.versions.len(), 1);
        assert_eq!(setting.versions[0].setting_id, id);
        assert_eq!(setting.versions[0].version, 1);
        assert_eq!(setting.versions[0].system_prompt, "");
    }
    let found = store.find_comparing_prompt_setting_by_id(second).unwrap();
    assert_eq!(found.versions.len(), 1);
    assert_eq!(found.versions[0].id, 2);
    assert_eq!(found.versions[0].system_prompt, "");
}

#[test]
fn creating_a_setting_without_the_extension_row_leaves_nothing() {
    let mut store = MemoryStore::new();
    let manager_id = seed_prompt_manager(&mut store);
    let result = store.create_comparing_prompt_setting(manager_id);
    assert_eq!(
        result.unwrap_err(),
        ApplicationError::DBError("FOREIGN KEY constraint failed".to_string())
    );
    assert!(matches!(store.execute(&Statement::FindSetting { id: 1 }), Reply::Setting(None)));
    // No transaction is left open.
    assert!(matches!(store.execute(&Statement::Begin), Reply::Done));
}

#[test]
fn find_all_shows_every_version_and_find_by_id_the_current_one() {
    let mut store = MemoryStore::new();
    let manager_id = seed_prompt_manager(&mut store);
    seed_comparing_prompt_manager(&mut store, manager_id);
    let id = store.create_comparing_prompt_setting(manager_id).unwrap();
    let reply = store.execute(
        &Statement::InsertSettingVersion {
            setting_id: id,
            version: 2,
            system_prompt: "be brief".to_string(),
        },
    );
    assert!(matches!(reply, Reply::Inserted(2)));
    // The same number twice breaks the uniqueness of versions.
    let reply = store.execute(
        &Statement::InsertSettingVersion { setting_id: id, version: 2, system_prompt: "".to_string() },
    );
    assert!(matches!(reply, Reply::Conflict(_)));

    let all = store.find_all_comparing_prompt_settings_by_manager_id(manager_id).unwrap();
    assert_eq!(all.len(), 1);
    let versions: Vec<(i32, &str)> =
        all[0].versions.iter().map(|v| (v.version, v.system_prompt.as_str())).collect();
    assert_eq!(versions, vec![(1, ""), (2, "be brief")]);

    let current = store.find_comparing_prompt_setting_by_id(id).unwrap();
    assert_eq!(current.current_version, 1);
    assert_eq!(current.versions.len(), 1);
    assert_eq!(current.versions[0].version, 1);
}

#[test]
fn find_all_is_restricted_to_the_manager() {
    let mut store = MemoryStore::new();
    let first = seed_prompt_manager(&mut store);
    let second = seed_prompt_manager(&mut store);
    seed_comparing_prompt_manager(&mut store, first);
    seed_comparing_prompt_manager(&mut store, second);
    store.create_comparing_prompt_setting(first).unwrap();
    store.create_comparing_prompt_setting(second).unwrap();
    store.create_comparing_prompt_setting(first).unwrap();
    let ids = |store: &mut MemoryStore, manager_id: i32| -> Vec<i32> {
        store
            .find_all_comparing_prompt_settings_by_manager_id(manager_id)
            .unwrap()
            .iter()
            .map(|s| s.id)
            .collect()
    };
    assert_eq!(ids(&mut store, first), vec![1, 3]);
    assert_eq!(ids(&mut store, second), vec![2]);
    assert!(ids(&mut store, 99).is_empty());
}

#[test]
fn deleted_settings_are_never_returned() {
    let live = SettingWithVersions {
        setting: ComparingPromptSettingRow {
            id: 1,
            manager_id: 5,
            current_version: 2,
            deleted_at: None,
        },
        versions: vec![
            ComparingPromptSettingVersionRow {
                id: 10,
                setting_id: 1,
                version: 1,
                system_prompt: "".to_string(),
            },
            ComparingPromptSettingVersionRow {
                id: 11,
                setting_id: 1,
                version: 2,
                system_prompt: "two".to_string(),
            },
        ],
    };
    let deleted = SettingWithVersions {
        setting: ComparingPromptSettingRow {
            id: 2,
            manager_id: 5,
            current_version: 1,
            deleted_at: Some("2024-01-01 00:00:00 UTC".to_string()),
        },
        versions: Vec::new(),
    };
    let later = SettingWithVersions {
        setting: ComparingPromptSettingRow {
            id: 3,
            manager_id: 5,
            current_version: 1,
            deleted_at: None,
        },
        versions: Vec::new(),
    };
    let models = found_comparing_prompt_settings(Reply::Settings(vec![live, deleted, later])).unwrap();
    assert_eq!(models.len(), 2);
    assert_eq!(models[0].id, 1);
    assert_eq!(models[0].manager_id, 5);
    assert_eq!(models[0].current_version, 2);
    assert_eq!(models[0].versions.len(), 2);
    assert_eq!(models[0].versions[1].id, 11);
    assert_eq!(models[0].versions[1].system_prompt, "two");
    assert_eq!(models[1].id, 3);
    assert!(models[1].versions.is_empty());
}

#[test]
fn finding_a_missing_setting_or_run_is_not_found() {
    let mut store = MemoryStore::new();
    assert_eq!(
        store.find_comparing_prompt_setting_by_id(1).unwrap_err(),
        ApplicationError::NotFoundError
    );
    assert_eq!(
        store.find_comparing_prompt_run_by_id(1).unwrap_err(),
        ApplicationError::NotFoundError
    );
}

#[test]
fn a_setting_without_its_current_version_is_not_found() {
    let mut store = MemoryStore::new();
    let manager_id = seed_prompt_manager(&mut store);
    seed_comparing_prompt_manager(&mut store, manager_id);
    let id = match store.execute(&Statement::InsertSetting { manager_id, current_version: 3 }) {
        Reply::Inserted(id) => id,
        other => panic!("{:?}", other),
    };
    let reply = store.execute(
        &Statement::InsertSettingVersion { setting_id: id, version: 1, system_prompt: "".to_string() },
    );
    assert!(matches!(reply, Reply::Inserted(_)));
    assert_eq!(
        store.find_comparing_prompt_setting_by_id(id).unwrap_err(),
        ApplicationError::NotFoundError
    );
}

#[test]
fn provider_round_trips_for_every_variant() {
    let mut store = MemoryStore::new();
    let manager_id = seed_prompt_manager(&mut store);
    seed_comparing_prompt_manager(&mut store, manager_id);
    for provider_type in [ProviderType::OpenAI, ProviderType::Gemini] {
        let mut param = run(manager_id, provider_type);
        param.temperature = 700;
        param.max_tokens = Some(256);
        param.response_format = Some("json".to_string());
        let id = store.create_comparing_prompt_run(param).unwrap();
        let back = store.find_comparing_prompt_run_by_id(id).unwrap();
        assert_eq!(back.id, id);
        assert_eq!(back.manager_id, manager_id);
        assert_eq!(back.provider_type, provider_type);
        assert_eq!(back.user_prompt, "test_user_prompt");
        assert_eq!(back.model, "test_model");
        assert_eq!(back.temperature, 700);
        assert_eq!(back.max_tokens, Some(256));
        // The response format is not stored.
        assert_eq!(back.response_format, None);
    }
    let stored = match store.execute(&Statement::FindRun { id: 2 }) {
        Reply::Run(Some(row)) => row,
        other => panic!("{:?}", other),
    };
    assert_eq!(stored.provider_type, "Gemini");
}

#[test]
fn a_run_for_an_unknown_manager_is_a_db_error() {
    let mut store = MemoryStore::new();
    let result = store.create_comparing_prompt_run(run(42, ProviderType::OpenAI));
    assert_eq!(
        result.unwrap_err(),
        ApplicationError::DBError("FOREIGN KEY constraint failed".to_string())
    );
    assert_eq!(
        store.find_comparing_prompt_run_by_id(1).unwrap_err(),
        ApplicationError::NotFoundError
    );
}

#[test]
fn a_stored_provider_that_is_none_is_a_parse_error() {
    let mut store = MemoryStore::new();
    let manager_id = seed_prompt_manager(&mut store);
    seed_comparing_prompt_manager(&mut store, manager_id);
    let row = ComparingPromptRunRow {
        id: 0,
        manager_id,
        provider_type: "Oracle".to_string(),
        user_prompt: "p".to_string(),
        model: "m".to_string(),
        temperature: 0,
        max_token: None,
    };
    assert!(matches!(store.execute(&Statement::InsertRun { run: row }), Reply::Inserted(1)));
    assert_eq!(
        store.find_comparing_prompt_run_by_id(1).unwrap_err(),
        ApplicationError::ParseError("failed to convert string to enum ProviderType".to_string())
    );
}
