//! The requests that a user interface makes: each checks what it was given,
//! calls the service that does the work, and reports a failure as text.

use vstd::prelude::*;
use crate::errors::{AppError, ErrorKind};
use crate::models::{AppInfo, Conversation, Message, MessageRole, Persona};
use crate::services::Services;
use crate::text::{join2, join3, lowercased, push_text, str_eq, trim, trimmed};
use crate::validation::{
    content_outcome, format_outcome, pattern_matches, prompt_outcome, title_outcome,
    InputValidator, ValidationLimits, API_KEY_PATTERN, PERSONA_NAME_PATTERN, URL_PATTERN,
};

verus! {

/// The name of the application.
pub const APP_NAME: &'static str = "forbidden-library-native";

/// The version of the application.
pub const APP_VERSION: &'static str = "0.1.0";

/// The text that reports a failed step: what was attempted, then the
/// error's technical text.
pub open spec fn explained(attempt: Seq<char>, e: AppError) -> Seq<char> {
    attempt + ": "@ + AppError::kind_label(e.spec_kind()) + e.spec_message()
}

/// `text` reports that the attempt failed in the database.
pub open spec fn failed_in_database(attempt: Seq<char>, text: Seq<char>) -> bool {
    exists|e: AppError|
        e.spec_kind() == ErrorKind::Database && text == #[trigger] explained(attempt, e)
}

/// The text that reports that the attempt failed with an error of this
/// category and message.
pub open spec fn failure_text(attempt: Seq<char>, kind: ErrorKind, message: Seq<char>) -> Seq<
    char,
> {
    attempt + ": "@ + AppError::kind_label(kind) + message
}

/// The text that reports that the attempt failed because the clock gave a
/// time that cannot be written.
pub open spec fn clock_failure(attempt: Seq<char>) -> Seq<char> {
    failure_text(attempt, ErrorKind::Validation, "Timestamp is out of range"@)
}

/// The answer to a request, from what the service returned: its value as
/// it is, or its error as text behind what was attempted.
pub fn reported<T>(attempt: &str, result: crate::errors::AppResult<T>) -> (r: Result<T, String>)
    ensures
        match result {
            Ok(value) => r == Ok::<T, String>(value),
            Err(e) => r matches Err(text) && text@ == explained(attempt@, e),
        },
{
    match result {
        Ok(value) => Ok(value),
        Err(e) => Err(explain(attempt, &e)),
    }
}

/// The text that reports an input that validation refused.
pub open spec fn refused(attempt: Seq<char>, message: Seq<char>) -> Seq<char> {
    attempt + ": "@ + "Validation error: "@ + message
}

fn explain(attempt: &str, e: &AppError) -> (text: String)
    ensures
        text@ == explained(attempt@, *e),
{
    let detail = e.technical_message();
    join3(attempt, ": ", detail.as_str())
}

/// The greeting for a name.
pub fn greet(name: &str) -> (r: Result<String, String>)
    ensures
        r matches Ok(text) && text@ == "Hello, "@ + name@ + "! Welcome to the Forbidden Library."@,
{
    Ok(join3("Hello, ", name, "! Welcome to the Forbidden Library."))
}

/// Name and version of the application.
pub fn get_app_version() -> (r: Result<AppInfo, String>)
    ensures
        r matches Ok(info) && info.name@ == APP_NAME@ && info.version@ == APP_VERSION@,
{
    Ok(AppInfo { version: String::from_str(APP_VERSION), name: String::from_str(APP_NAME) })
}

/// Creates a conversation with the trimmed title. A title that validation
/// refuses is reported and nothing is stored.
pub fn create_conversation(services: &Services, title: String, persona_id: Option<i64>) -> (r:
    Result<Conversation, String>)
    ensures
        match title_outcome(
            trimmed(title@),
            lowercased(trimmed(title@)),
            ValidationLimits::spec_default().conversation_title,
        ) {
            Err(message) => r matches Err(text) && text@ == refused(
                "Invalid conversation title"@,
                message,
            ),
            Ok(accepted) => {
                &&& r matches Ok(c) ==> c.title@ == accepted && c.persona_id == persona_id
                    && c.id is Some && !c.archived
                &&& r matches Err(text) ==> failed_in_database(
                    "Failed to create conversation"@,
                    text@,
                ) || text@ == clock_failure("Failed to create conversation"@)
            },
        },
{
    let validator = InputValidator::default();
    let validated_title = match validator.validate_conversation_title(title.as_str()) {
        Ok(validated) => validated,
        Err(e) => {
            return Err(explain("Invalid conversation title", &e));
        },
    };
    match services.conversations.create_conversation(validated_title, persona_id) {
        Ok(conversation) => Ok(conversation),
        Err(e) => Err(explain("Failed to create conversation", &e)),
    }
}

/// The conversations, most recently updated first.
pub fn get_conversations(services: &Services, limit: Option<i32>, offset: Option<i32>) -> (r: Result<
    Vec<Conversation>,
    String,
>)
    ensures
        r matches Ok(list) ==> crate::services::all_stored(list@) && list@.len()
            <= crate::search::row_cap(crate::search::limit_or(limit, crate::services::NO_LIMIT)),
        r matches Err(text) ==> failed_in_database("Failed to get conversations"@, text@),
{
    reported("Failed to get conversations", services.conversations.get_conversations(limit, offset))
}

/// The conversations that contain the text; a blank text lists them all.
pub fn search_conversations(services: &Services, query_text: String, limit: Option<i32>) -> (r:
    Result<Vec<Conversation>, String>)
    ensures
        r matches Ok(list) ==> crate::services::all_stored(list@),
        r matches Err(text) ==> failed_in_database(
            if trimmed(query_text@).len() == 0 {
                "Failed to get conversations"@
            } else {
                "Failed to search conversations"@
            },
            text@,
        ),
{
    if trim(query_text.as_str()).is_empty() {
        reported("Failed to get conversations", services.conversations.get_conversations(limit, None))
    } else {
        reported(
            "Failed to search conversations",
            services.conversations.search_conversations(query_text.as_str(), limit),
        )
    }
}

/// The conversation with this identifier, if there is one.
pub fn get_conversation(services: &Services, id: i64) -> (r: Result<Option<Conversation>, String>)
    ensures
        r matches Ok(Some(c)) ==> c.id is Some && c.wf(),
        r matches Err(text) ==> failed_in_database("Failed to get conversation"@, text@),
{
    reported("Failed to get conversation", services.conversations.get_conversation(id))
}

/// Deletes a conversation with its messages.
pub fn delete_conversation(services: &Services, id: i64) -> (r: Result<(), String>)
    ensures
        r matches Err(text) ==> failed_in_database("Failed to delete conversation"@, text@) || text@
            == failure_text(
            "Failed to delete conversation"@,
            ErrorKind::NotFound,
            crate::services::missing("Conversation"@, id),
        ),
{
    reported("Failed to delete conversation", services.conversations.delete_conversation(id))
}

/// Archives or restores a conversation.
pub fn archive_conversation(services: &Services, id: i64, archived: bool) -> (r: Result<
    (),
    String,
>)
    ensures
        r matches Err(text) ==> failed_in_database("Failed to archive conversation"@, text@)
            || text@ == failure_text(
            "Failed to archive conversation"@,
            ErrorKind::NotFound,
            crate::services::missing("Conversation"@, id),
        ) || text@ == clock_failure("Failed to archive conversation"@),
{
    reported(
        "Failed to archive conversation",
        services.conversations.set_conversation_archived(id, archived),
    )
}

/// The role that a request names, if it names one.
pub fn parse_role(role: &str) -> (parsed: Option<MessageRole>)
    ensures
        parsed == (if role@ == "user"@ {
            Some(MessageRole::User)
        } else if role@ == "assistant"@ {
            Some(MessageRole::Assistant)
        } else if role@ == "system"@ {
            Some(MessageRole::System)
        } else {
            None
        }),
{
    if str_eq(role, "user") {
        Some(MessageRole::User)
    } else if str_eq(role, "assistant") {
        Some(MessageRole::Assistant)
    } else if str_eq(role, "system") {
        Some(MessageRole::System)
    } else {
        None
    }
}

/// Appends a message with sanitized content to a conversation. Content that
/// validation refuses, and a role that is none of `user`, `assistant` and
/// `system`, are reported and nothing is stored.
pub fn add_message(
    services: &Services,
    conversation_id: i64,
    role: String,
    content: String,
    tokens_used: Option<i32>,
    model_used: Option<String>,
) -> (r: Result<Message, String>)
    ensures
        match content_outcome(
            content@,
            trimmed(content@),
            ValidationLimits::spec_default().message_content,
        ) {
            Err(message) => r matches Err(text) && text@ == refused(
                "Invalid message content"@,
                message,
            ),
            Ok(clean) => {
                &&& !crate::validation::is_role(role@) ==> (r matches Err(text) && text@
                    == "Invalid role: "@ + role@)
                &&& r matches Ok(m) ==> m.content@ == clean && m.conversation_id == conversation_id
                    && m.role.spec_as_str() == role@ && m.tokens_used == tokens_used
                &&& crate::validation::is_role(role@) ==> (r matches Err(text)
                    ==> failed_in_database("Failed to add message"@, text@) || text@
                    == clock_failure("Failed to add message"@))
            },
        },
{
    let validator = InputValidator::default();
    let validated_content = match validator.validate_message_content(content.as_str()) {
        Ok(validated) => validated,
        Err(e) => {
            return Err(explain("Invalid message content", &e));
        },
    };
    let message_role = match parse_role(role.as_str()) {
        Some(parsed) => parsed,
        None => {
            return Err(join2("Invalid role: ", role.as_str()));
        },
    };
    match services.conversations.add_message(
        conversation_id,
        message_role,
        validated_content,
        tokens_used,
        model_used,
    ) {
        Ok(message) => Ok(message),
        Err(e) => Err(explain("Failed to add message", &e)),
    }
}

/// The messages of a conversation, oldest first.
pub fn get_messages(services: &Services, conversation_id: i64) -> (r: Result<Vec<Message>, String>)
    ensures
        r matches Ok(list) ==> forall|i: int|
            0 <= i < list@.len() ==> (#[trigger] list@[i]).id is Some,
        r matches Err(text) ==> failed_in_database("Failed to get messages"@, text@),
{
    reported("Failed to get messages", services.conversations.get_messages(conversation_id))
}

/// Creates a persona with the trimmed name and the sanitized prompt. A name
/// or a prompt that validation refuses is reported and nothing is stored.
pub fn create_persona(
    services: &Services,
    name: String,
    description: Option<String>,
    system_prompt: String,
) -> (r: Result<Persona, String>)
    ensures
        match format_outcome(
            trimmed(name@),
            Some(ValidationLimits::spec_default().persona_name),
            pattern_matches(PERSONA_NAME_PATTERN@, trimmed(name@)),
            trimmed(name@),
            "Persona name"@,
            "Persona name can only contain letters, numbers, spaces, hyphens, and underscores"@,
        ) {
            Err(message) => r matches Err(text) && text@ == refused("Invalid persona name"@, message),
            Ok(accepted_name) => match prompt_outcome(
                system_prompt@,
                trimmed(system_prompt@),
                ValidationLimits::spec_default().system_prompt,
            ) {
                Err(message) => r matches Err(text) && text@ == refused(
                    "Invalid system prompt"@,
                    message,
                ),
                Ok(accepted_prompt) => {
                    &&& r matches Ok(p) ==> p.name@ == accepted_name && p.system_prompt@
                        == accepted_prompt && p.description == description && p.id is Some
                    &&& r matches Err(text) ==> failed_in_database(
                        "Failed to create persona"@,
                        text@,
                    ) || text@ == clock_failure("Failed to create persona"@)
                },
            },
        },
{
    let validator = InputValidator::default();
    let validated_name = match validator.validate_persona_name(name.as_str()) {
        Ok(validated) => validated,
        Err(e) => {
            return Err(explain("Invalid persona name", &e));
        },
    };
    let validated_prompt = match validator.validate_system_prompt(system_prompt.as_str()) {
        Ok(validated) => validated,
        Err(e) => {
            return Err(explain("Invalid system prompt", &e));
        },
    };
    match services.personas.create_persona(validated_name, description, validated_prompt) {
        Ok(persona) => Ok(persona),
        Err(e) => Err(explain("Failed to create persona", &e)),
    }
}

/// The active personas, by name.
pub fn get_personas(services: &Services) -> (r: Result<Vec<Persona>, String>)
    ensures
        r matches Ok(list) ==> forall|i: int|
            0 <= i < list@.len() ==> (#[trigger] list@[i]).id is Some,
        r matches Err(text) ==> failed_in_database("Failed to get personas"@, text@),
{
    reported("Failed to get personas", services.personas.get_personas())
}

/// The persona with this identifier, if there is one.
pub fn get_persona(services: &Services, id: i64) -> (r: Result<Option<Persona>, String>)
    ensures
        r matches Ok(Some(p)) ==> p.id is Some,
        r matches Err(text) ==> failed_in_database("Failed to get persona"@, text@),
{
    reported("Failed to get persona", services.personas.get_persona(id))
}

/// Changes the given fields of a persona.
pub fn update_persona(
    services: &Services,
    id: i64,
    name: Option<String>,
    description: Option<String>,
    system_prompt: Option<String>,
) -> (r: Result<(), String>)
    ensures
        !crate::services::changes_persona(name, description, system_prompt) ==> r is Ok,
        r matches Err(text) ==> failed_in_database("Failed to update persona"@, text@) || text@
            == clock_failure("Failed to update persona"@),
{
    reported(
        "Failed to update persona",
        services.personas.update_persona(id, name, description, system_prompt),
    )
}

/// Deletes a persona.
pub fn delete_persona(services: &Services, id: i64) -> (r: Result<(), String>)
    ensures
        r matches Err(text) ==> failed_in_database("Failed to delete persona"@, text@),
{
    reported("Failed to delete persona", services.personas.delete_persona(id))
}

/// `text` reports that storing a configuration failed in the database, or
/// because the clock gave a time that cannot be written.
pub open spec fn store_failed(text: Seq<char>) -> bool {
    failed_in_database("Failed to store API config"@, text) || text == clock_failure(
        "Failed to store API config"@,
    )
}

/// Stores the trimmed key and address of a provider. A key or an address
/// that validation refuses is reported and nothing is stored.
pub fn store_api_config(
    services: &Services,
    provider: String,
    api_key: String,
    base_url: Option<String>,
) -> (r: Result<(), String>)
    ensures
        match format_outcome(
            trimmed(api_key@),
            Some(ValidationLimits::spec_default().api_key),
            pattern_matches(API_KEY_PATTERN@, trimmed(api_key@)),
            trimmed(api_key@),
            "API key"@,
            "API key contains invalid characters"@,
        ) {
            Err(message) => r matches Err(text) && text@ == refused("Invalid API key"@, message),
            Ok(_) => match base_url {
                Some(url) => match format_outcome(
                    trimmed(url@),
                    Some(ValidationLimits::spec_default().url),
                    pattern_matches(URL_PATTERN@, trimmed(url@)),
                    trimmed(url@),
                    "URL"@,
                    "Invalid URL format"@,
                ) {
                    Err(message) => r matches Err(text) && text@ == refused(
                        "Invalid base URL"@,
                        message,
                    ),
                    Ok(_) => r matches Err(text) ==> store_failed(text@),
                },
                None => r matches Err(text) ==> store_failed(text@),
            },
        },
{
    let validator = InputValidator::default();
    let validated_api_key = match validator.validate_api_key(api_key.as_str()) {
        Ok(validated) => validated,
        Err(e) => {
            return Err(explain("Invalid API key", &e));
        },
    };
    let validated_base_url = match base_url {
        Some(url) => match validator.validate_url(url.as_str()) {
            Ok(validated) => Some(validated),
            Err(e) => {
                return Err(explain("Invalid base URL", &e));
            },
        },
        None => None,
    };
    match services.apis.store_api_config(provider, validated_api_key, validated_base_url) {
        Ok(_) => Ok(()),
        Err(e) => Err(explain("Failed to store API config", &e)),
    }
}

/// The key and the address of a provider, if it is configured.
pub fn get_api_config(services: &Services, provider: String) -> (r: Result<
    Option<(String, Option<String>)>,
    String,
>)
    ensures
        r matches Ok(Some(config)) ==> (config.1 matches Some(url) ==> url@.len() > 0),
        r matches Err(text) ==> failed_in_database("Failed to get API config"@, text@),
{
    reported("Failed to get API config", services.apis.get_api_config(provider.as_str()))
}

/// Switches the configuration of a provider off.
pub fn delete_api_config(services: &Services, provider: String) -> (r: Result<(), String>)
    ensures
        r matches Err(text) ==> failed_in_database("Failed to delete API config"@, text@) || text@
            == clock_failure("Failed to delete API config"@),
{
    reported("Failed to delete API config", services.apis.delete_api_config(provider.as_str()))
}

/// The heading under which a message of a role is exported.
pub open spec fn role_heading(role: MessageRole) -> Seq<char> {
    match role {
        MessageRole::User => "**User:**"@,
        MessageRole::Assistant => "**Assistant:**"@,
        MessageRole::System => "**System:**"@,
    }
}

/// The exported form of one message: heading, content, and a rule.
pub open spec fn message_markdown(role: MessageRole, content: Seq<char>) -> Seq<char> {
    role_heading(role) + " "@ + content + "\n\n---\n\n"@
}

/// The exported form of the first `n` messages.
pub open spec fn messages_markdown(messages: Seq<Message>, n: int) -> Seq<char>
    decreases n,
{
    if n <= 0 {
        Seq::empty()
    } else {
        messages_markdown(messages, n - 1) + message_markdown(
            messages[n - 1].role,
            messages[n - 1].content@,
        )
    }
}

/// The exported form of a conversation: its title as heading, the time of
/// its creation, then its messages.
pub open spec fn conversation_markdown(title: Seq<char>, created: Seq<char>, messages: Seq<Message>)
    -> Seq<char> {
    "# "@ + title + "\n\n**Created:** "@ + created + "\n\n"@ + messages_markdown(
        messages,
        messages.len() as int,
    )
}

/// Writes a conversation and its messages as Markdown. `created` is the
/// time of creation as it is to be shown.
pub fn export_markdown(conversation: &Conversation, created: &str, messages: &Vec<Message>) -> (text:
    String)
    ensures
        text@ == conversation_markdown(conversation.title@, created@, messages@),
{
    let mut text = join3("# ", conversation.title.as_str(), "\n\n**Created:** ");
    push_text(&mut text, created);
    push_text(&mut text, "\n\n");
    let ghost head = text@;
    let mut i: usize = 0;
    assert(text@ =~= head + messages_markdown(messages@, 0));
    while i < messages.len()
        invariant
            i <= messages.len(),
            text@ == head + messages_markdown(messages@, i as int),
        decreases messages.len() - i,
    {
        let heading = match messages[i].role {
            MessageRole::User => "**User:**",
            MessageRole::Assistant => "**Assistant:**",
            MessageRole::System => "**System:**",
        };
        push_text(&mut text, heading);
        push_text(&mut text, " ");
        push_text(&mut text, messages[i].content.as_str());
        push_text(&mut text, "\n\n---\n\n");
        assert(text@ =~= head + messages_markdown(messages@, i + 1));
        i += 1;
    }
    text
}

} // verus!
