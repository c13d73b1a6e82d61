use std::sync::Arc;

use forbidden_library::commands::{
    add_message, archive_conversation, create_conversation, create_persona, delete_api_config,
    delete_conversation, delete_persona, export_markdown, get_api_config, get_app_version,
    get_conversation, get_conversations, get_messages, get_persona, get_personas, greet,
    parse_role, search_conversations, store_api_config, update_persona,
};
use forbidden_library::manager::DatabaseManager;
use forbidden_library::models::{Conversation, Message, MessageRole};
use forbidden_library::services::Services;

fn services() -> Services {
    Services::new(Arc::new(DatabaseManager::new_in_memory().unwrap()))
}

#[test]
fn test_greet_command() {
    let result = greet("Test User");
    assert!(result.is_ok());
    assert_eq!(result.unwrap(), "Hello, Test User! Welcome to the Forbidden Library.");
}

#[test]
fn test_greet_command_empty_name() {
    let result = greet("");
    assert!(result.is_ok());
    assert_eq!(result.unwrap(), "Hello, ! Welcome to the Forbidden Library.");
}

#[test]
fn test_get_app_version() {
    let result = get_app_version();
    assert!(result.is_ok());
    let app_info = result.unwrap();
    assert_eq!(app_info.name, "forbidden-library-native");
    assert!(!app_info.version.is_empty());
}

#[test]
fn conversation_is_created_by_command() {
    let state = services();
    let result = create_conversation(&state, "Test Conversation".to_string(), None);
    assert!(result.is_ok());
    let conversation = result.unwrap();
    assert_eq!(conversation.title, "Test Conversation");
    assert!(conversation.id.is_some());
}

#[test]
fn conversation_with_persona_is_created_by_command() {
    let state = services();
    create_persona(&state, "Helper".to_string(), None, "Be kind.".to_string()).unwrap();
    let result = create_conversation(&state, "Test Conversation".to_string(), Some(1));
    assert!(result.is_ok());
    let conversation = result.unwrap();
    assert_eq!(conversation.title, "Test Conversation");
    assert_eq!(conversation.persona_id, Some(1));
}

#[test]
fn conversations_are_listed_by_command() {
    let state = services();
    create_conversation(&state, "Test Conversation".to_string(), None).unwrap();
    let result = get_conversations(&state, None, None);
    assert!(result.is_ok());
    assert!(!result.unwrap().is_empty());
}

#[test]
fn conversation_is_read_by_command() {
    let state = services();
    let created = create_conversation(&state, "Test Conversation".to_string(), None).unwrap();
    let result = get_conversation(&state, created.id.unwrap());
    assert!(result.is_ok());
    let conversation = result.unwrap();
    assert!(conversation.is_some());
    assert_eq!(conversation.unwrap().title, "Test Conversation");
}

#[test]
fn conversation_is_deleted_by_command() {
    let state = services();
    let created = create_conversation(&state, "Test Conversation".to_string(), None).unwrap();
    let result = delete_conversation(&state, created.id.unwrap());
    assert!(result.is_ok());
    let get_result = get_conversation(&state, created.id.unwrap());
    assert!(get_result.is_ok());
    assert!(get_result.unwrap().is_none());
}

#[test]
fn conversation_is_archived_by_command() {
    let state = services();
    let created = create_conversation(&state, "Test Conversation".to_string(), None).unwrap();
    let result = archive_conversation(&state, created.id.unwrap(), true);
    assert!(result.is_ok());
    let get_result = get_conversation(&state, created.id.unwrap());
    assert!(get_result.is_ok());
    let conversation = get_result.unwrap().unwrap();
    assert!(conversation.archived);
}

#[test]
fn message_is_added_by_command() {
    let state = services();
    let created = create_conversation(&state, "Test Conversation".to_string(), None).unwrap();
    let result = add_message(
        &state,
        created.id.unwrap(),
        "user".to_string(),
        "Test message".to_string(),
        None,
        None,
    );
    assert!(result.is_ok());
    let message = result.unwrap();
    assert_eq!(message.content, "Test message");
    assert_eq!(message.role, MessageRole::User);
}

#[test]
fn messages_are_listed_by_command() {
    let state = services();
    let created = create_conversation(&state, "Test Conversation".to_string(), None).unwrap();
    add_message(
        &state,
        created.id.unwrap(),
        "user".to_string(),
        "Test message".to_string(),
        None,
        None,
    )
    .unwrap();
    let result = get_messages(&state, created.id.unwrap());
    assert!(result.is_ok());
    let messages = result.unwrap();
    assert_eq!(messages.len(), 1);
    assert_eq!(messages[0].content, "Test message");
}

#[test]
fn persona_is_created_by_command() {
    let state = services();
    let result = create_persona(
        &state,
        "Test Persona".to_string(),
        Some("A test persona".to_string()),
        "You are a test assistant.".to_string(),
    );
    assert!(result.is_ok());
    let persona = result.unwrap();
    assert_eq!(persona.name, "Test Persona");
    assert_eq!(persona.description, Some("A test persona".to_string()));
}

#[test]
fn personas_are_listed_by_command() {
    let state = services();
    create_persona(&state, "Test Persona".to_string(), None, "Prompt.".to_string()).unwrap();
    let result = get_personas(&state);
    assert!(result.is_ok());
    assert!(!result.unwrap().is_empty());
}

#[test]
fn persona_is_read_by_command() {
    let state = services();
    let created =
        create_persona(&state, "Test Persona".to_string(), None, "Prompt.".to_string()).unwrap();
    let result = get_persona(&state, created.id.unwrap());
    assert!(result.is_ok());
    let persona = result.unwrap();
    assert!(persona.is_some());
    assert_eq!(persona.unwrap().name, "Test Persona");
}

#[test]
fn persona_is_updated_by_command() {
    let state = services();
    let created =
        create_persona(&state, "Test Persona".to_string(), None, "Prompt.".to_string()).unwrap();
    let result = update_persona(
        &state,
        created.id.unwrap(),
        Some("Updated Persona".to_string()),
        Some("An updated test persona".to_string()),
        None,
    );
    assert!(result.is_ok());
    let persona = get_persona(&state, created.id.unwrap()).unwrap().unwrap();
    assert_eq!(persona.name, "Updated Persona");
    assert_eq!(persona.description, Some("An updated test persona".to_string()));
}

#[test]
fn persona_is_deleted_by_command() {
    let state = services();
    let created =
        create_persona(&state, "Test Persona".to_string(), None, "Prompt.".to_string()).unwrap();
    let result = delete_persona(&state, created.id.unwrap());
    assert!(result.is_ok());
    let get_result = get_persona(&state, created.id.unwrap());
    assert!(get_result.is_ok());
    assert!(get_result.unwrap().is_none());
}

#[test]
fn api_config_is_stored_by_command() {
    let state = services();
    let result = store_api_config(
        &state,
        "openai".to_string(),
        "test_api_key".to_string(),
        Some("https://api.openai.com".to_string()),
    );
    assert!(result.is_ok());
}

#[test]
fn api_config_is_read_by_command() {
    let state = services();
    store_api_config(&state, "openai".to_string(), "test_api_key".to_string(), None).unwrap();
    let result = get_api_config(&state, "openai".to_string());
    assert!(result.is_ok());
    let retrieved_config = result.unwrap();
    assert!(retrieved_config.is_some());
    assert_eq!(retrieved_config.unwrap().0, "test_api_key");
}

#[test]
fn api_config_is_switched_off_by_command() {
    let state = services();
    store_api_config(&state, "openai".to_string(), "test_api_key".to_string(), None).unwrap();
    let result = delete_api_config(&state, "openai".to_string());
    assert!(result.is_ok());
    let get_result = get_api_config(&state, "openai".to_string());
    assert!(get_result.is_ok());
    assert!(get_result.unwrap().is_none());
}

#[test]
fn refused_input_is_reported_and_not_stored() {
    let state = services();
    assert_eq!(
        create_conversation(&state, "   ".to_string(), None).unwrap_err(),
        "Invalid conversation title: Validation error: Conversation title cannot be empty"
    );
    assert_eq!(
        create_conversation(&state, "<script>alert(1)</script>".to_string(), None).unwrap_err(),
        "Invalid conversation title: Validation error: Conversation title contains invalid characters"
    );
    assert!(get_conversations(&state, None, None).unwrap().is_empty());
    let trimmed = create_conversation(&state, "  Tidy  ".to_string(), None).unwrap();
    assert_eq!(trimmed.title, "Tidy");

    let id = trimmed.id.unwrap();
    assert_eq!(
        add_message(&state, id, "user".to_string(), " ".to_string(), None, None).unwrap_err(),
        "Invalid message content: Validation error: Message content cannot be empty"
    );
    assert_eq!(
        add_message(&state, id, "robot".to_string(), "hi".to_string(), None, None).unwrap_err(),
        "Invalid role: robot"
    );
    assert!(get_messages(&state, id).unwrap().is_empty());
    let clean =
        add_message(&state, id, "system".to_string(), "a\u{0}b".to_string(), Some(3), None)
            .unwrap();
    assert_eq!(clean.content, "ab");
    assert_eq!(clean.role, MessageRole::System);

    assert_eq!(
        create_persona(&state, "Bad@Name".to_string(), None, "p".to_string()).unwrap_err(),
        "Invalid persona name: Validation error: Persona name can only contain letters, numbers, spaces, hyphens, and underscores"
    );
    assert_eq!(
        create_persona(&state, "Good".to_string(), None, "  ".to_string()).unwrap_err(),
        "Invalid system prompt: Validation error: System prompt cannot be empty"
    );
    assert!(get_personas(&state).unwrap().is_empty());
    assert_eq!(
        store_api_config(&state, "p".to_string(), "bad key".to_string(), None).unwrap_err(),
        "Invalid API key: Validation error: API key contains invalid characters"
    );
    assert_eq!(
        store_api_config(&state, "p".to_string(), "key".to_string(), Some("ftp://x".to_string()))
            .unwrap_err(),
        "Invalid base URL: Validation error: Invalid URL format"
    );
    assert!(get_api_config(&state, "p".to_string()).unwrap().is_none());
    assert_eq!(
        delete_conversation(&state, 999).unwrap_err(),
        "Failed to delete conversation: Not found: Conversation 999 does not exist"
    );
}

#[test]
fn blank_search_lists_everything() {
    let state = services();
    create_conversation(&state, "Alpha".to_string(), None).unwrap();
    create_conversation(&state, "Beta".to_string(), None).unwrap();
    assert_eq!(search_conversations(&state, "  ".to_string(), None).unwrap().len(), 2);
    assert_eq!(search_conversations(&state, "  ".to_string(), Some(1)).unwrap().len(), 1);
    assert_eq!(search_conversations(&state, "lph".to_string(), None).unwrap().len(), 1);
}

#[test]
fn roles_are_parsed_exactly() {
    assert_eq!(parse_role("user"), Some(MessageRole::User));
    assert_eq!(parse_role("assistant"), Some(MessageRole::Assistant));
    assert_eq!(parse_role("system"), Some(MessageRole::System));
    assert_eq!(parse_role("User"), None);
    assert_eq!(parse_role(""), None);
}

#[test]
fn conversation_is_exported_as_markdown() {
    let conversation = Conversation::created("Trip".to_string(), None, "u".to_string(), 0);
    let messages = vec![
        Message::created(1, MessageRole::User, "Where to?".to_string(), 1),
        Message::created(1, MessageRole::Assistant, "North.".to_string(), 2),
        Message::created(1, MessageRole::System, "Noted.".to_string(), 3),
    ];
    let text = export_markdown(&conversation, "1970-01-01 00:00:00 UTC", &messages);
    assert_eq!(
        text,
        "# Trip\n\n**Created:** 1970-01-01 00:00:00 UTC\n\n\
         **User:** Where to?\n\n---\n\n\
         **Assistant:** North.\n\n---\n\n\
         **System:** Noted.\n\n---\n\n"
    );
    assert_eq!(
        export_markdown(&conversation, "t", &Vec::new()),
        "# Trip\n\n**Created:** t\n\n"
    );
}

#[test]
fn service_results_are_reported_as_they_are() {
    use_reported();
}

fn use_reported() {
    let kept: Result<i32, String> =
        forbidden_library::commands::reported("Failed to count", Ok(7));
    assert_eq!(kept, Ok(7));
    let failed: Result<i32, String> = forbidden_library::commands::reported(
        "Failed to count",
        Err(forbidden_library::errors::AppError::not_found("Thing 3 does not exist")),
    );
    assert_eq!(failed, Err("Failed to count: Not found: Thing 3 does not exist".to_string()));
    let state = services();
    assert_eq!(
        archive_conversation(&state, 12, true).unwrap_err(),
        "Failed to archive conversation: Not found: Conversation 12 does not exist"
    );
    assert!(update_persona(&state, 5, None, None, None).is_ok());
    assert!(delete_persona(&state, 5).is_ok());
    assert!(delete_api_config(&state, "nobody".to_string()).is_ok());
}
