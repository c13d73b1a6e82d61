use forbidden_library::keychain::KeychainManager;
use forbidden_library::models::{
    Conversation, ConversationPriority, Grimoire, Message, MessageRole, Persona, ResponseStyle,
};
use forbidden_library::errors::ErrorKind;
use forbidden_library::providers::{
    gemini_role, split_system, summed_tokens, token_count, AIProvider, ChatMessage, Header,
};

#[test]
fn test_provider_creation() {
    let lm_studio = AIProvider::lm_studio(None);
    assert!(matches!(lm_studio, AIProvider::LMStudio { .. }));

    let ollama = AIProvider::ollama(Some(11434));
    assert!(matches!(ollama, AIProvider::Ollama { .. }));
}

#[test]
fn local_providers_have_their_addresses() {
    match AIProvider::lm_studio(None) {
        AIProvider::LMStudio { base_url } => assert_eq!(base_url, "http://localhost:1234"),
        _ => panic!("expected LM Studio"),
    }
    match AIProvider::lm_studio(Some(0)) {
        AIProvider::LMStudio { base_url } => assert_eq!(base_url, "http://localhost:0"),
        _ => panic!("expected LM Studio"),
    }
    match AIProvider::ollama(None) {
        AIProvider::Ollama { base_url } => assert_eq!(base_url, "http://localhost:11434"),
        _ => panic!("expected Ollama"),
    }
    match AIProvider::ollama(Some(65535)) {
        AIProvider::Ollama { base_url } => assert_eq!(base_url, "http://localhost:65535"),
        _ => panic!("expected Ollama"),
    }
}

#[test]
fn remote_providers_keep_what_they_are_given() {
    match AIProvider::openai("k".to_string(), Some("org".to_string())) {
        AIProvider::OpenAI { api_key, organization } => {
            assert_eq!(api_key, "k");
            assert_eq!(organization, Some("org".to_string()));
        }
        _ => panic!("expected OpenAI"),
    }
    assert!(matches!(AIProvider::anthropic("k".to_string()), AIProvider::Anthropic { .. }));
    assert!(matches!(AIProvider::google_gemini("k".to_string()), AIProvider::GoogleGemini { .. }));
    match AIProvider::azure_openai("k".to_string(), "https://e".to_string(), "d".to_string(), None) {
        AIProvider::AzureOpenAI { api_version, deployment_name, .. } => {
            assert_eq!(api_version, "2024-02-15-preview");
            assert_eq!(deployment_name, "d");
        }
        _ => panic!("expected Azure"),
    }
    match AIProvider::azure_openai(
        "k".to_string(),
        "https://e".to_string(),
        "d".to_string(),
        Some("2025-01-01".to_string()),
    ) {
        AIProvider::AzureOpenAI { api_version, .. } => assert_eq!(api_version, "2025-01-01"),
        _ => panic!("expected Azure"),
    }
    match AIProvider::openai_compatible("http://h".to_string(), None) {
        AIProvider::OpenAICompatible { base_url, api_key } => {
            assert_eq!(base_url, "http://h");
            assert_eq!(api_key, None);
        }
        _ => panic!("expected a compatible service"),
    }
}

#[test]
fn availability_addresses() {
    assert_eq!(
        AIProvider::openai("k".to_string(), None).availability_url(),
        "https://api.openai.com/v1/models"
    );
    assert_eq!(
        AIProvider::google_gemini("abc".to_string()).availability_url(),
        "https://generativelanguage.googleapis.com/v1beta/models?key=abc"
    );
    assert_eq!(AIProvider::lm_studio(None).availability_url(), "http://localhost:1234/v1/models");
    assert_eq!(AIProvider::ollama(None).availability_url(), "http://localhost:11434/api/tags");
    assert_eq!(
        AIProvider::openai_compatible("http://h".to_string(), None).availability_url(),
        "http://h/v1/models"
    );
    let azure =
        AIProvider::azure_openai("k".to_string(), "https://e".to_string(), "dep".to_string(), None);
    assert_eq!(azure.availability_url(), "https://e");
    assert!(azure.available_when_reachable());
    assert!(AIProvider::anthropic("k".to_string()).available_when_reachable());
    assert!(!AIProvider::ollama(None).available_when_reachable());
    assert_eq!(azure.known_models(), Some(vec!["dep".to_string()]));
    assert_eq!(AIProvider::ollama(None).known_models(), None);
}

#[test]
fn new_conversation_is_unsaved_and_consistent() {
    let conversation = Conversation::new("My First Chat".to_string(), Some(5));
    assert_eq!(conversation.title, "My First Chat");
    assert_eq!(conversation.persona_id, Some(5));
    assert_eq!(conversation.id, None);
    assert!(!conversation.archived);
    assert_eq!(conversation.created_at, conversation.updated_at);
    assert_eq!(conversation.uuid.len(), 36);
    let other = Conversation::new("Other".to_string(), None);
    assert_ne!(conversation.uuid, other.uuid);
}

#[test]
fn conversation_updates_never_move_backward() {
    let mut conversation = Conversation::created("T".to_string(), None, "u".to_string(), 100);
    conversation.touch(50);
    assert_eq!(conversation.updated_at, 100);
    conversation.touch(150);
    assert_eq!(conversation.updated_at, 150);
    assert_eq!(conversation.created_at, 100);
    conversation.set_archived(false, 200);
    assert_eq!(conversation.updated_at, 150);
    conversation.set_archived(true, 200);
    assert!(conversation.archived);
    assert_eq!(conversation.updated_at, 200);
    conversation.set_archived(false, 10);
    assert!(!conversation.archived);
    assert_eq!(conversation.updated_at, 200);
}

#[test]
fn new_message_and_persona() {
    let message = Message::new(1, MessageRole::User, "What is Rust?".to_string());
    assert_eq!(message.id, None);
    assert_eq!(message.conversation_id, 1);
    assert_eq!(message.role, MessageRole::User);
    assert_eq!(message.content, "What is Rust?");
    assert_eq!(message.tokens_used, None);
    assert_eq!(message.model_used, None);
    let stamped = Message::created(2, MessageRole::System, "s".to_string(), 77);
    assert_eq!(stamped.created_at, 77);

    let persona = Persona::new("Code Helper".to_string(), None, "You are an expert.".to_string());
    assert_eq!(persona.name, "Code Helper");
    assert!(persona.active);
    assert_eq!(persona.created_at, persona.updated_at);
    assert_eq!(persona.avatar_path, None);
}

#[test]
fn roles_and_defaults() {
    assert_eq!(MessageRole::User.as_str(), "user");
    assert_eq!(MessageRole::Assistant.as_str(), "assistant");
    assert_eq!(MessageRole::System.as_str(), "system");
    assert_eq!(MessageRole::from_stored("assistant"), MessageRole::Assistant);
    assert_eq!(MessageRole::from_stored("system"), MessageRole::System);
    assert_eq!(MessageRole::from_stored("user"), MessageRole::User);
    assert_eq!(MessageRole::from_stored("other"), MessageRole::User);
    assert_eq!(ConversationPriority::default(), ConversationPriority::Normal);
    assert_eq!(ResponseStyle::default(), ResponseStyle::Conversational);
}

#[test]
fn keychain_requests_are_checked() {
    let manager = KeychainManager::new();
    assert_eq!(manager.service(), "com.voidcat.forbidden-library");
    assert_eq!(KeychainManager::default().service(), "com.voidcat.forbidden-library");
    let custom = KeychainManager::with_service("test.service".to_string());
    assert_eq!(custom.service(), "test.service");
    assert!(manager.check_api_key("openai", "sk-1").is_ok());
    assert_eq!(
        manager.check_api_key("", "key").unwrap_err().message(),
        "Provider name cannot be empty"
    );
    assert_eq!(
        manager.check_api_key("provider", "").unwrap_err().message(),
        "API key cannot be empty"
    );
    assert!(manager.check_provider_name("openai").is_ok());
    assert!(manager.check_provider_name("").is_err());
}

#[test]
fn chat_addresses_and_headers() {
    fn pairs(headers: Vec<Header>) -> Vec<(String, String)> {
        headers.into_iter().map(|h| (h.name, h.value)).collect()
    }
    fn pair(name: &str, value: &str) -> (String, String) {
        (name.to_string(), value.to_string())
    }
    let openai = AIProvider::openai("k".to_string(), Some("org".to_string()));
    assert_eq!(openai.chat_url("m"), "https://api.openai.com/v1/chat/completions");
    assert_eq!(
        pairs(openai.chat_headers()),
        vec![pair("Authorization", "Bearer k"), pair("OpenAI-Organization", "org")]
    );
    assert_eq!(
        pairs(AIProvider::openai("k".to_string(), None).chat_headers()),
        vec![pair("Authorization", "Bearer k")]
    );
    let anthropic = AIProvider::anthropic("k".to_string());
    assert_eq!(anthropic.chat_url("m"), "https://api.anthropic.com/v1/messages");
    assert_eq!(
        pairs(anthropic.chat_headers()),
        vec![pair("x-api-key", "k"), pair("anthropic-version", "2023-06-01")]
    );
    let gemini = AIProvider::google_gemini("key".to_string());
    assert_eq!(
        gemini.chat_url("gemini-pro"),
        "https://generativelanguage.googleapis.com/v1beta/models/gemini-pro:generateContent?key=key"
    );
    assert!(gemini.chat_headers().is_empty());
    let azure = AIProvider::azure_openai(
        "k".to_string(),
        "https://e.example///".to_string(),
        "dep".to_string(),
        Some("v1".to_string()),
    );
    assert_eq!(
        azure.chat_url("ignored"),
        "https://e.example/openai/deployments/dep/chat/completions?api-version=v1"
    );
    assert_eq!(pairs(azure.chat_headers()), vec![pair("api-key", "k")]);
    assert_eq!(AIProvider::lm_studio(None).chat_url("m"), "http://localhost:1234/v1/chat/completions");
    assert_eq!(AIProvider::ollama(None).chat_url("m"), "http://localhost:11434/api/chat");
    let compatible = AIProvider::openai_compatible("http://h".to_string(), Some("s".to_string()));
    assert_eq!(compatible.chat_url("m"), "http://h/v1/chat/completions");
    assert_eq!(pairs(compatible.chat_headers()), vec![pair("Authorization", "Bearer s")]);
}

#[test]
fn chat_is_split_and_roles_are_mapped() {
    fn message(role: &str, content: &str) -> ChatMessage {
        ChatMessage { role: role.to_string(), content: content.to_string() }
    }
    let chat = vec![
        message("system", "first rule"),
        message("user", "hello"),
        message("assistant", "hi"),
        message("system", "second rule"),
        message("user", "bye"),
    ];
    let (system, rest) = split_system(&chat);
    assert_eq!(system, Some("second rule".to_string()));
    let contents: Vec<&str> = rest.iter().map(|m| m.content.as_str()).collect();
    assert_eq!(contents, vec!["hello", "hi", "bye"]);
    let (none, all) = split_system(&vec![message("user", "only")]);
    assert_eq!(none, None);
    assert_eq!(all.len(), 1);
    assert_eq!(gemini_role("assistant"), "model");
    assert_eq!(gemini_role("user"), "user");
    assert_eq!(gemini_role("system"), "user");
}

#[test]
fn answers_and_failures() {
    assert_eq!(token_count(Some(42)), Some(42));
    assert_eq!(token_count(Some(i64::from(i32::MAX) + 1)), None);
    assert_eq!(token_count(None), None);
    assert_eq!(summed_tokens(Some(10), Some(5)), Some(15));
    assert_eq!(summed_tokens(Some(10), None), None);
    assert_eq!(summed_tokens(Some(i64::MAX), Some(1)), None);

    let openai = AIProvider::openai("k".to_string(), None);
    let answer = openai.answer(Some("text".to_string()), "m".to_string(), Some(3)).unwrap();
    assert_eq!(answer.content, "text");
    assert_eq!(answer.model, "m");
    assert_eq!(answer.tokens_used, Some(3));
    let error = openai.answer(None, "m".to_string(), None).unwrap_err();
    assert_eq!(error.kind(), ErrorKind::Api);
    assert_eq!(error.message(), "Invalid OpenAI response format");
    assert_eq!(
        openai.request_failure("401 Unauthorized", "bad key").message(),
        "OpenAI API request failed with status 401 Unauthorized: bad key"
    );
    let azure =
        AIProvider::azure_openai("k".to_string(), "https://e".to_string(), "dep".to_string(), None);
    assert_eq!(azure.answer(Some("t".to_string()), "m".to_string(), None).unwrap().model, "dep");
    assert_eq!(
        azure.answer(None, "m".to_string(), None).unwrap_err().message(),
        "Invalid Azure OpenAI response format"
    );
    let ollama = AIProvider::ollama(None);
    assert_eq!(
        ollama.request_failure("500", "x").message(),
        "Ollama request failed with status 500: x"
    );
    assert_eq!(
        ollama.answer(None, "m".to_string(), None).unwrap_err().message(),
        "Invalid Ollama response format"
    );
    let compatible = AIProvider::lm_studio(None);
    assert_eq!(
        compatible.request_failure("404", "").message(),
        "API request failed with status 404: "
    );
    assert_eq!(
        compatible.answer(None, "m".to_string(), None).unwrap_err().message(),
        "Invalid response format"
    );
    assert_eq!(
        AIProvider::anthropic("k".to_string()).request_failure("429", "slow").message(),
        "Anthropic API request failed with status 429: slow"
    );
    assert_eq!(
        AIProvider::google_gemini("k".to_string()).answer(None, "m".to_string(), None).unwrap_err().message(),
        "Invalid Gemini response format"
    );
}

#[test]
fn new_knowledge_source() {
    let source = Grimoire::new("Docs".to_string(), None, "/srv/docs".to_string());
    assert_eq!(source.id, None);
    assert_eq!(source.name, "Docs");
    assert_eq!(source.server_path, "/srv/docs");
    assert!(source.enabled);
    assert_eq!(source.accessed_count, 0);
    assert_eq!(source.last_accessed, None);
    assert_eq!(Grimoire::created("D".to_string(), None, "p".to_string(), 5).created_at, 5);
}

#[test]
fn listed_models_are_offered_by_the_rule_of_the_service() {
    let entries = vec![
        "gpt-4".to_string(),
        "models/gemini-pro".to_string(),
        "whisper-1".to_string(),
        "models/".to_string(),
        "gpt-".to_string(),
    ];
    let openai = AIProvider::openai("k".to_string(), None);
    assert_eq!(openai.offered_models(&entries), ["gpt-4", "gpt-"]);
    assert_eq!(openai.model_list_fields(), ("data", "id"));
    assert_eq!(openai.offered("text-davinci"), None);

    let gemini = AIProvider::google_gemini("k".to_string());
    assert_eq!(gemini.offered_models(&entries), ["gemini-pro", ""]);
    assert_eq!(gemini.model_list_fields(), ("models", "name"));
    assert_eq!(gemini.offered("models/gémini-1.5"), Some("gémini-1.5".to_string()));

    let ollama = AIProvider::ollama(None);
    assert_eq!(ollama.offered_models(&entries), entries);
    assert_eq!(ollama.model_list_fields(), ("models", "name"));

    let studio = AIProvider::lm_studio(None);
    assert_eq!(studio.offered_models(&entries), entries);
    assert_eq!(studio.model_list_fields(), ("data", "id"));
    assert!(studio.offered_models(&Vec::new()).is_empty());
}
