use promptory::common::dir::{
    get_app_home_path, get_db_path_by_os, get_test_home_path, join, TargetOs,
};
use promptory::common::errors::{ApplicationError, ErrorKind};
use promptory::domain::comparing_prompt::ProviderType;
use promptory::domain::prompt_manager::{APIType, ActionType};

#[test]
fn error_messages() {
    let cases = vec![
        (ApplicationError::UnknownError("x".to_string()), "unknown error. detail: x"),
        (ApplicationError::EmptyResult, "result is empty"),
        (ApplicationError::OpenAPIError("down".to_string()), "openai api error: down"),
        (ApplicationError::DBError("locked".to_string()), "db error: locked"),
        (ApplicationError::DBEntityError("bad".to_string()), "entity error: bad"),
        (ApplicationError::ParseError("what".to_string()), "parse error: what"),
        (ApplicationError::ValidationError("empty".to_string()), "validation error: empty"),
        (ApplicationError::NotFoundError, "not found"),
        (ApplicationError::ConflictError("taken".to_string()), "conflict: taken"),
    ];
    for (error, message) in cases {
        assert_eq!(error.to_string(), message);
        assert_eq!(error.clone(), error);
    }
}

#[test]
fn error_kinds() {
    assert_eq!(ApplicationError::UnknownError("x".to_string()).kind(), ErrorKind::Unknown);
    assert_eq!(ApplicationError::EmptyResult.kind(), ErrorKind::EmptyResult);
    assert_eq!(ApplicationError::OpenAPIError("x".to_string()).kind(), ErrorKind::OpenAPI);
    assert_eq!(ApplicationError::DBError("x".to_string()).kind(), ErrorKind::DB);
    assert_eq!(ApplicationError::DBEntityError("x".to_string()).kind(), ErrorKind::DBEntity);
    assert_eq!(ApplicationError::ParseError("x".to_string()).kind(), ErrorKind::Parse);
    assert_eq!(ApplicationError::ValidationError("x".to_string()).kind(), ErrorKind::Validation);
    assert_eq!(ApplicationError::NotFoundError.kind(), ErrorKind::NotFound);
    assert_eq!(ApplicationError::ConflictError("x".to_string()).kind(), ErrorKind::Conflict);
}

#[test]
fn enum_names_round_trip() {
    for action in [ActionType::ComparingPrompt, ActionType::ComparingModel] {
        assert_eq!(ActionType::from_str(&action.to_string()), Ok(action));
    }
    for api in [APIType::Chat, APIType::Assistant] {
        assert_eq!(APIType::from_str(&api.to_string()), Ok(api));
    }
    for provider in [ProviderType::OpenAI, ProviderType::Gemini] {
        assert_eq!(ProviderType::from_str(&provider.to_string()), Ok(provider));
    }
    assert_eq!(ActionType::ComparingPrompt.to_string(), "ComparingPrompt");
    assert_eq!(ActionType::ComparingModel.to_string(), "ComparingModel");
    assert_eq!(APIType::Chat.to_string(), "Chat");
    assert_eq!(APIType::Assistant.to_string(), "Assistant");
    assert_eq!(ProviderType::OpenAI.to_string(), "OpenAI");
    assert_eq!(ProviderType::Gemini.to_string(), "Gemini");
}

#[test]
fn unknown_names_are_parse_errors() {
    assert_eq!(
        ActionType::from_str("comparingprompt"),
        Err(ApplicationError::ParseError("failed to convert string to enum ActionType".to_string()))
    );
    assert_eq!(
        APIType::from_str(""),
        Err(ApplicationError::ParseError("failed to convert string to enum APIType".to_string()))
    );
    assert_eq!(
        ProviderType::from_str("OpenAI "),
        Err(ApplicationError::ParseError("failed to convert string to enum ProviderType".to_string()))
    );
}

#[test]
fn test_home_path() {
    assert_eq!(get_test_home_path(), Ok("../data/test".to_string()));
}

#[test]
fn app_home_path() {
    assert_eq!(get_app_home_path(true, None, TargetOs::Linux), Ok("../data".to_string()));
    assert_eq!(
        get_app_home_path(true, Some("/home/u"), TargetOs::Windows),
        Ok("../data".to_string())
    );
    assert_eq!(
        get_app_home_path(false, Some("/home/u"), TargetOs::Linux),
        Ok("/home/u/.config/darq/promptory".to_string())
    );
    assert_eq!(
        get_app_home_path(false, Some("/Users/u/"), TargetOs::MacOs),
        Ok("/Users/u/Library/Application Support/darq/promptory".to_string())
    );
    assert_eq!(
        get_app_home_path(false, Some("C:\\Users\\u"), TargetOs::Windows),
        Ok("C:\\Users\\u\\AppData\\Roaming\\darq\\promptory".to_string())
    );
    assert_eq!(
        get_app_home_path(false, None, TargetOs::Linux),
        Err(ApplicationError::UnknownError("Cannot find home directory".to_string()))
    );
}

#[test]
fn db_path() {
    assert_eq!(
        get_db_path_by_os("../data", TargetOs::Linux),
        Ok("../data/db/database.db".to_string())
    );
    assert_eq!(
        get_db_path_by_os("../data", TargetOs::MacOs),
        Ok("../data/db/database.db".to_string())
    );
    assert_eq!(
        get_db_path_by_os("C:\\app", TargetOs::Windows),
        Ok("C:\\app\\db\\database.db".to_string())
    );
    assert_eq!(get_db_path_by_os("", TargetOs::Linux), Ok("db/database.db".to_string()));
}

#[test]
fn join_leaves_out_a_second_separator() {
    assert_eq!(join("a", "b", TargetOs::Linux), "a/b");
    assert_eq!(join("a/", "b", TargetOs::Linux), "a/b");
    assert_eq!(join("", "b", TargetOs::Linux), "b");
    assert_eq!(join("a\\", "b", TargetOs::Linux), "a\\/b");
    assert_eq!(join("a\\", "b", TargetOs::Windows), "a\\b");
    assert_eq!(join("a/", "b", TargetOs::Windows), "a/b");
    assert_eq!(join("a", "b", TargetOs::Windows), "a\\b");
    assert_eq!(join("データ", "b", TargetOs::MacOs), "データ/b");
}
