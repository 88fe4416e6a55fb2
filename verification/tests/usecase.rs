use promptory::common::errors::ApplicationError;
use promptory::domain::comparing_prompt::{
    ComparingPromptSettingModel, ComparingPromptSettingVersionModel,
};
use promptory::domain::prompt_manager::{APIType, ActionType, PromptManagerModel};
use promptory::infra::chat::{build_messages, chat_failure, first_answer, ChatRole};
use promptory::infra::repository::comparing_prompt_setting::found_comparing_prompt_settings;
use promptory::infra::repository::plan::Step;
use promptory::infra::repository::prompt_manager::{
    create_prompt_manager, created, found_prompt_managers,
};
use promptory::infra::repository::update::UpdatePromptManager;
use promptory::infra::storage::memory::MemoryStore;
use promptory::infra::storage::statement::{Reply, Statement};
use promptory::usecase::chat::ChatRequest;
use promptory::usecase::comparing_prompt::{
    AddComparingPromptSettingRequest, AddComparingPromptSettingResponse,
    ComparingPromptSettingItem, GetComparingPromptSettingRequest,
    GetComparingPromptSettingsRequest, GetComparingPromptSettingsResponse, RunChatRequest,
    RunChatResponse,
};
use promptory::usecase::prompt_manager::{
    CreatePromptManagerRequest, CreatePromptManagerResponse, DeletePromptManagerRequest,
    GetPromptManagerRequest, GetPromptManagerResponse, PromptManagerItem,
    UpdatePromptManagerRequest, UpdatePromptManagerResponse,
};

fn store_with_comparing_prompt_manager() -> (MemoryStore, i32) {
    let mut store = MemoryStore::new();
    let id = store.create_prompt_manager("Test title").unwrap();
    store.attach(id, ActionType::ComparingPrompt).unwrap();
    (store, id)
}

#[test]
fn test_get_prompt_managers() {
    let mut store = MemoryStore::new();
    let _request = GetPromptManagerRequest {};
    let result = store
        .find_all_prompt_managers()
        .map(|managers| GetPromptManagerResponse::from_models(&managers));
    assert!(result.is_ok());
    assert_eq!(result.unwrap().managers.len(), 0);
}

#[test]
fn test_get_prompt_managers_error() {
    let result = found_prompt_managers(Reply::Failed("db error".to_string()))
        .map(|managers| GetPromptManagerResponse::from_models(&managers));
    assert!(result.is_err());
}

#[test]
fn test_create_prompt_manager() {
    let mut store = MemoryStore::new();
    let request = CreatePromptManagerRequest {
        title: "Test title".to_string(),
        api_type: Option::from(APIType::Chat),
    };
    let result = store
        .create_prompt_manager(request.title.as_str())
        .map(|id| CreatePromptManagerResponse { id });
    assert!(result.is_ok());
    assert_eq!(result.unwrap().id, 1);
}

#[test]
fn test_create_prompt_manager_error() {
    let request = CreatePromptManagerRequest {
        title: "Test title".to_string(),
        api_type: Option::from(APIType::Chat),
    };
    let statement = create_prompt_manager(request.title.as_str());
    assert!(statement.is_ok());
    let result = created(Reply::Failed("db error".to_string()))
        .map(|id| CreatePromptManagerResponse { id });
    assert!(result.is_err());
}

#[test]
fn prompt_manager_test_update_prompt_manager() {
    let mut store = MemoryStore::new();
    let id = store.create_prompt_manager("old").unwrap();
    let request = UpdatePromptManagerRequest {
        id,
        title: "Test title".to_string(),
        action_type: ActionType::ComparingPrompt,
        api_type: Option::from(APIType::Chat),
    };
    let update = request.into_update();
    let result = store
        .update_prompt_manager(
            update.id,
            update.title.as_str(),
            update.action_type,
            update.api_type,
            update.tags,
        )
        .map(|_| UpdatePromptManagerResponse {});
    assert!(result.is_ok());
    let manager = store.find_prompt_manager_by_id(id).unwrap();
    assert_eq!(manager.title, "Test title");
    assert_eq!(manager.action_type, Some(ActionType::ComparingPrompt));
    assert_eq!(manager.api_type, Some(APIType::Chat));
    assert!(manager.tags.is_empty());
}

#[test]
fn test_update_prompt_manager_error() {
    let request = UpdatePromptManagerRequest {
        id: 1,
        title: "Test title".to_string(),
        action_type: ActionType::ComparingPrompt,
        api_type: Option::from(APIType::Chat),
    };
    let step = UpdatePromptManager::begin(request.into_update());
    let plan = match step {
        Step::Issue(plan, Statement::Begin) => plan,
        other => panic!("{:?}", other),
    };
    let result = match plan.next(Reply::Failed("db error".to_string())) {
        Step::Finish(result) => result.map(|_| UpdatePromptManagerResponse {}),
        other => panic!("{:?}", other),
    };
    assert!(result.is_err());
}

#[test]
fn prompt_manager_test_logical_delete_prompt_managers() {
    let mut store = MemoryStore::new();
    let id = store.create_prompt_manager("Test title").unwrap();
    let request = DeletePromptManagerRequest { id };
    let result = store.logical_delete_prompt_manager(request.id);
    assert!(result.is_ok());
}

#[test]
fn test_logical_delete_prompt_managers_error() {
    let mut store = MemoryStore::new();
    let request = DeletePromptManagerRequest { id: 1 };
    let result = store.logical_delete_prompt_manager(request.id);
    assert!(result.is_err());
}

#[test]
fn test_add_comparing_prompt_setting() {
    let (mut store, manager_id) = store_with_comparing_prompt_manager();
    let request = AddComparingPromptSettingRequest { manager_id };
    let result = store
        .create_comparing_prompt_setting(request.manager_id)
        .map(|id| AddComparingPromptSettingResponse { id });
    assert!(result.is_ok());
    assert_eq!(result.unwrap(), AddComparingPromptSettingResponse { id: 1 });
}

#[test]
fn test_add_comparing_prompt_setting_error() {
    let mut store = MemoryStore::new();
    let request = AddComparingPromptSettingRequest { manager_id: 1 };
    let result = store
        .create_comparing_prompt_setting(request.manager_id)
        .map(|id| AddComparingPromptSettingResponse { id });
    assert!(result.is_err());
}

#[test]
fn test_get_comparing_prompt_setting() {
    let (mut store, manager_id) = store_with_comparing_prompt_manager();
    let id = store.create_comparing_prompt_setting(manager_id).unwrap();
    let request = GetComparingPromptSettingRequest { id };
    let result = store
        .find_comparing_prompt_setting_by_id(request.id)
        .map(|setting| ComparingPromptSettingItem::from_model(&setting));
    assert!(result.is_ok());
    let item = result.unwrap();
    assert_eq!((item.id, item.manager_id, item.version), (id, manager_id, 1));
    assert_eq!(item.system_prompt, "");
}

#[test]
fn test_get_comparing_prompt_setting_error() {
    let mut store = MemoryStore::new();
    let request = GetComparingPromptSettingRequest { id: 1 };
    let result = store
        .find_comparing_prompt_setting_by_id(request.id)
        .map(|setting| ComparingPromptSettingItem::from_model(&setting));
    assert!(result.is_err());
}

#[test]
fn test_get_all_comparing_prompt_settings() {
    let mut store = MemoryStore::new();
    let request = GetComparingPromptSettingsRequest { manager_id: 1 };
    let result = store
        .find_all_comparing_prompt_settings_by_manager_id(request.manager_id)
        .map(|settings| GetComparingPromptSettingsResponse::from_models(&settings));
    assert!(result.is_ok());
    assert!(result.unwrap().settings.is_empty());
}

#[test]
fn test_get_all_comparing_prompt_settings_error() {
    let result = found_comparing_prompt_settings(Reply::Failed("db error".to_string()))
        .map(|settings| GetComparingPromptSettingsResponse::from_models(&settings));
    assert!(result.is_err());
    assert_eq!(result.unwrap_err(), ApplicationError::DBError("db error".to_string()));
}

#[test]
fn test_run_chat() {
    let request = RunChatRequest {
        run_id: 1,
        user_prompt: "Test prompt".to_string(),
        system_prompt: "".to_string(),
        model: "".to_string(),
        temperature: 0,
        max_tokens: None,
        response_format: None,
    };
    let settings = request.settings();
    assert_eq!(settings.id, 0);
    assert_eq!(settings.user_prompt, "Test prompt");
    assert_eq!(settings.max_tokens, None);
    let result = first_answer(vec![Some("Test response".to_string())])
        .map(|answer| RunChatResponse { answer });
    assert!(result.is_ok());
    assert_eq!(result.unwrap().answer, "Test response");
}

#[test]
fn test_run_chat_error() {
    let result: Result<RunChatResponse, ApplicationError> =
        Err(chat_failure("open ai error".to_string())).map(|answer| RunChatResponse { answer });
    assert!(result.is_err());
    assert_eq!(result.unwrap_err(), ApplicationError::OpenAPIError("open ai error".to_string()));
}

#[test]
fn test_post_chat() {
    let request = ChatRequest {
        user_prompt: "Test prompt".to_string(),
        system_prompt: "".to_string(),
        model: "".to_string(),
        temperature: 0,
        response_format: None,
    };
    let settings = request.settings();
    assert_eq!(settings.user_prompt, "Test prompt");
    let result = first_answer(vec![Some("Test response".to_string())]);
    assert!(result.is_ok());
    assert_eq!(result.unwrap(), "Test response");
}

#[test]
fn test_post_chat_error_do_chat() {
    let result: Result<String, ApplicationError> = Err(chat_failure("open ai error".to_string()));
    assert!(result.is_err());
}

#[test]
fn test_do_chat() {
    let settings = RunChatRequest {
        run_id: 0,
        user_prompt: "User prompt".to_string(),
        system_prompt: "System prompt".to_string(),
        model: "gpt-4-1106-preview".to_string(),
        temperature: 0,
        max_tokens: None,
        response_format: None,
    }
    .settings();
    let messages = build_messages(settings);
    assert_eq!(messages.len(), 2);
    assert_eq!(messages[0].role, ChatRole::System);
    assert_eq!(messages[0].content, "System prompt");
    assert_eq!(messages[1].role, ChatRole::User);
    assert_eq!(messages[1].content, "User prompt");
    let result = first_answer(vec![Some("Test message".to_string())]);
    assert_eq!(result.unwrap(), "Test message");
}

fn internal_server_error() -> async_openai::error::OpenAIError {
    let error: async_openai::error::ApiError =
        serde_json::from_str("{\"message\": \"Internal Server Error\"}").unwrap();
    async_openai::error::OpenAIError::ApiError(error)
}

#[test]
fn test_do_chat_error() {
    let result: Result<String, ApplicationError> =
        Err(chat_failure(internal_server_error().to_string()));
    assert!(result.is_err());
    assert_eq!(
        result.unwrap_err(),
        ApplicationError::OpenAPIError(internal_server_error().to_string())
    );
    let message = chat_failure(internal_server_error().to_string()).to_string();
    assert!(message.starts_with("openai api error: "));
    assert!(message.ends_with("Internal Server Error"));
}

#[test]
fn an_answer_needs_a_first_choice_with_content() {
    assert_eq!(first_answer(Vec::new()), Err(ApplicationError::EmptyResult));
    assert_eq!(
        first_answer(vec![None, Some("late".to_string())]),
        Err(ApplicationError::EmptyResult)
    );
    assert_eq!(
        first_answer(vec![Some("first".to_string()), Some("second".to_string())]),
        Ok("first".to_string())
    );
}

#[test]
fn chat_requests_become_settings() {
    let request = ChatRequest {
        user_prompt: "u".to_string(),
        system_prompt: "s".to_string(),
        model: "m".to_string(),
        temperature: 1500,
        response_format: Some("json".to_string()),
    };
    let settings = request.settings();
    assert_eq!(settings.id, 0);
    assert_eq!(settings.user_prompt, "u");
    assert_eq!(settings.system_prompt, "s");
    assert_eq!(settings.model, "m");
    assert_eq!(settings.temperature, 1500);
    assert_eq!(settings.max_tokens, None);
    assert_eq!(settings.response_format, Some("json".to_string()));
    let request = RunChatRequest {
        run_id: 3,
        user_prompt: "u".to_string(),
        system_prompt: "s".to_string(),
        model: "m".to_string(),
        temperature: 200,
        max_tokens: Some(64),
        response_format: None,
    };
    let settings = request.settings();
    assert_eq!(settings.max_tokens, Some(64));
    assert_eq!(settings.temperature, 200);
    assert_eq!(settings.response_format, None);
}

#[test]
fn items_show_no_tags_and_no_prompt() {
    let manager = PromptManagerModel {
        id: 4,
        title: "T".to_string(),
        action_type: Some(ActionType::ComparingModel),
        api_type: Some(APIType::Chat),
        tags: vec!["x".to_string()],
    };
    let item = PromptManagerItem::from_model(&manager);
    assert_eq!(item.id, 4);
    assert_eq!(item.title, "T");
    assert_eq!(item.action_type, Some(ActionType::ComparingModel));
    assert!(item.tags.is_empty());
    let response = GetPromptManagerResponse::from_models(&vec![manager.clone(), manager]);
    assert_eq!(response.managers.len(), 2);
    assert_eq!(response.managers[1].id, 4);

    let setting = ComparingPromptSettingModel {
        id: 2,
        manager_id: 4,
        current_version: 3,
        versions: vec![ComparingPromptSettingVersionModel {
            id: 9,
            setting_id: 2,
            version: 3,
            system_prompt: "hidden".to_string(),
        }],
    };
    let item = ComparingPromptSettingItem::from_model(&setting);
    assert_eq!((item.id, item.manager_id, item.version), (2, 4, 3));
    assert_eq!(item.system_prompt, "");
    let response = GetComparingPromptSettingsResponse::from_models(&vec![setting]);
    assert_eq!(response.settings.len(), 1);
    assert_eq!(response.settings[0].version, 3);
}

#[test]
fn test_post_chat_error_create_settings() {
    let request = ChatRequest {
        user_prompt: "Test prompt".to_string(),
        system_prompt: "system prompt".to_string(),
        model: "test_model".to_string(),
        temperature: 0,
        response_format: None,
    };
    let _settings = request.settings();
    // The chat answers, and storing afterwards fails: the failure is the result.
    let result = first_answer(vec![Some("Test response".to_string())]).and_then(|answer| {
        let statement = create_prompt_manager("title");
        assert!(statement.is_ok());
        created(Reply::Failed("db error".to_string())).map(|_| answer)
    });
    assert!(result.is_err());
}
