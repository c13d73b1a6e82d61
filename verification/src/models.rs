//! The persisted entities and their small value types.
//!
//! Timestamps are milliseconds since the Unix epoch and identifiers of rows
//! are assigned by the database on insert.

use vstd::prelude::*;

verus! {

/// Trusted: `chrono::Utc::now` and `DateTime::timestamp_millis`, the wall
/// clock in milliseconds since the Unix epoch.
#[verifier::external_body]
pub(crate) fn wall_clock_millis() -> (millis: i64) {
    chrono::Utc::now().timestamp_millis()
}

/// The text that chrono writes for a time in milliseconds since the Unix
/// epoch, in RFC 3339 with three decimals and `Z`; `None` for a time that
/// chrono cannot hold.
pub uninterp spec fn rfc3339_text(millis: i64) -> Option<Seq<char>>;

/// The time in milliseconds since the Unix epoch that chrono reads from a
/// text in RFC 3339; `None` for any other text.
pub uninterp spec fn rfc3339_millis(text: Seq<char>) -> Option<i64>;

/// Trusted: `DateTime::from_timestamp_millis` and `to_rfc3339_opts` with
/// millisecond precision and `Z`. The result is named, not described.
#[verifier::external_body]
pub(crate) fn format_rfc3339(millis: i64) -> (text: Option<String>)
    ensures
        match rfc3339_text(millis) {
            Some(t) => text matches Some(s) && s@ == t,
            None => text is None,
        },
{
    chrono::DateTime::from_timestamp_millis(millis)
        .map(|t| t.to_rfc3339_opts(chrono::SecondsFormat::Millis, true))
}

/// Trusted: `DateTime::parse_from_rfc3339` and `timestamp_millis`. The
/// result is named, not described.
#[verifier::external_body]
pub(crate) fn parse_rfc3339(text: &str) -> (millis: Option<i64>)
    ensures
        millis == rfc3339_millis(text@),
{
    chrono::DateTime::parse_from_rfc3339(text).ok().map(|t| t.timestamp_millis())
}

/// Trusted: `uuid::Uuid::new_v4` in its hyphenated text form, a fresh random
/// identifier.
#[verifier::external_body]
pub(crate) fn new_uuid() -> (uuid: String) {
    uuid::Uuid::new_v4().to_string()
}

/// How urgent a conversation is.
#[derive(Debug, Clone, Copy, PartialEq, Eq, Structural)]
pub enum ConversationPriority {
    Low,
    Normal,
    High,
    Critical,
}

impl Default for ConversationPriority {
    fn default() -> (p: Self)
        ensures
            p == ConversationPriority::Normal,
    {
        ConversationPriority::Normal
    }
}

/// Who wrote a message.
#[derive(Debug, Clone, Copy, PartialEq, Eq, Structural)]
pub enum MessageRole {
    User,
    Assistant,
    System,
}

impl MessageRole {
    /// The text stored for a role; the schema admits exactly these three.
    pub open spec fn spec_as_str(self) -> Seq<char> {
        match self {
            MessageRole::User => "user"@,
            MessageRole::Assistant => "assistant"@,
            MessageRole::System => "system"@,
        }
    }

    /// The text stored for a role.
    pub fn as_str(self) -> (text: &'static str)
        ensures
            text@ == self.spec_as_str(),
    {
        match self {
            MessageRole::User => "user",
            MessageRole::Assistant => "assistant",
            MessageRole::System => "system",
        }
    }

    /// The role that a stored text stands for; any other text reads as a
    /// user's message.
    pub fn from_stored(text: &str) -> (role: Self)
        ensures
            role == if text@ == "assistant"@ {
                MessageRole::Assistant
            } else if text@ == "system"@ {
                MessageRole::System
            } else {
                MessageRole::User
            },
    {
        if crate::text::str_eq(text, "assistant") {
            MessageRole::Assistant
        } else if crate::text::str_eq(text, "system") {
            MessageRole::System
        } else {
            MessageRole::User
        }
    }
}

/// A file attached to a message.
#[derive(Debug, Clone)]
pub struct MessageAttachment {
    pub id: String,
    pub filename: String,
    pub file_type: String,
    pub size_bytes: i64,
    pub file_path: String,
}

/// The manner in which a persona answers.
#[derive(Debug, Clone, Copy, PartialEq, Eq, Structural)]
pub enum ResponseStyle {
    Concise,
    Detailed,
    Creative,
    Technical,
    Conversational,
    Formal,
}

impl Default for ResponseStyle {
    fn default() -> (s: Self)
        ensures
            s == ResponseStyle::Conversational,
    {
        ResponseStyle::Conversational
    }
}

/// The kind of server behind a knowledge entry.
#[derive(Debug, Clone, Copy, PartialEq, Eq, Structural)]
pub enum GrimoireServerType {
    MCP,
    HTTP,
    WebSocket,
    Local,
    Plugin,
}

/// How a server is authenticated against.
#[derive(Debug, Clone, Copy, PartialEq, Eq, Structural)]
pub enum AuthType {
    NoAuth,
    ApiKey,
    Bearer,
    Basic,
    OAuth2,
}

/// Credentials for a server, as pairs of name and value.
#[derive(Debug, Clone)]
pub struct AuthenticationConfig {
    pub auth_type: AuthType,
    pub credentials: Vec<(String, String)>,
}

/// How a server is reached.
#[derive(Debug, Clone)]
pub struct ConnectionSettings {
    pub host: Option<String>,
    pub port: Option<u16>,
    pub authentication: Option<AuthenticationConfig>,
    pub timeout_ms: Option<u32>,
    pub retry_attempts: Option<u8>,
}

/// What a server can be asked to do.
#[derive(Debug, Clone, Copy, PartialEq, Eq, Structural)]
pub enum GrimoireCapability {
    ResourceAccess,
    ToolExecution,
    FileManagement,
    DatabaseAccess,
    NetworkRequest,
    SystemIntegration,
}

/// The vendor of a remote model service.
#[derive(Debug, Clone)]
pub enum ApiProviderType {
    OpenAI,
    Anthropic,
    Google,
    Cohere,
    HuggingFace,
    LocalLM,
    Custom(String),
}

/// What a model supports.
#[derive(Debug, Clone, Copy, PartialEq, Eq)]
pub struct ModelCapabilities {
    pub supports_vision: bool,
    pub supports_function_calling: bool,
    pub supports_streaming: bool,
    pub context_window: u32,
    pub max_tokens: u32,
    pub supports_system_messages: bool,
    pub supports_tool_use: bool,
}

/// Quotas of a remote model service.
#[derive(Debug, Clone, Copy, PartialEq, Eq)]
pub struct RateLimits {
    pub requests_per_minute: Option<i32>,
    pub tokens_per_minute: Option<i32>,
    pub requests_per_day: Option<i32>,
    pub tokens_per_day: Option<i32>,
}

/// Where a project stands.
#[derive(Debug, Clone, Copy, PartialEq, Eq, Structural)]
pub enum ProjectStatus {
    Active,
    Paused,
    Completed,
    Archived,
}

/// A conversation.
#[derive(Debug, Clone)]
pub struct Conversation {
    pub id: Option<i64>,
    pub uuid: String,
    pub title: String,
    pub persona_id: Option<i64>,
    pub created_at: i64,
    pub updated_at: i64,
    pub archived: bool,
}

impl Conversation {
    /// The invariant of every conversation: it was not updated before it was
    /// created.
    pub open spec fn wf(&self) -> bool {
        self.updated_at >= self.created_at
    }

    /// A conversation made at `now` with the given stable identifier: not yet
    /// stored, not archived, and never updated since.
    pub fn created(title: String, persona_id: Option<i64>, uuid: String, now: i64) -> (c: Self)
        ensures
            c.id is None,
            c.uuid == uuid,
            c.title == title,
            c.persona_id == persona_id,
            c.created_at == now,
            c.updated_at == now,
            !c.archived,
            c.wf(),
    {
        Conversation {
            id: None,
            uuid,
            title,
            persona_id,
            created_at: now,
            updated_at: now,
            archived: false,
        }
    }

    /// A conversation made now, with a fresh stable identifier.
    pub fn new(title: String, persona_id: Option<i64>) -> (c: Self)
        ensures
            c.id is None,
            c.title == title,
            c.persona_id == persona_id,
            c.created_at == c.updated_at,
            !c.archived,
            c.wf(),
    {
        Self::created(title, persona_id, new_uuid(), wall_clock_millis())
    }

    /// Notes a change at `now`: the time of the last update moves forward to
    /// `now` and never backward.
    pub fn touch(&mut self, now: i64)
        requires
            old(self).wf(),
        ensures
            final(self).updated_at == if now > old(self).updated_at {
                now
            } else {
                old(self).updated_at
            },
            final(self).created_at == old(self).created_at,
            final(self).id == old(self).id,
            final(self).uuid == old(self).uuid,
            final(self).title == old(self).title,
            final(self).persona_id == old(self).persona_id,
            final(self).archived == old(self).archived,
            final(self).wf(),
    {
        if now > self.updated_at {
            self.updated_at = now;
        }
    }

    /// Archives or restores the conversation at `now`; a change of the flag
    /// counts as an update.
    pub fn set_archived(&mut self, archived: bool, now: i64)
        requires
            old(self).wf(),
        ensures
            final(self).archived == archived,
            final(self).updated_at == if archived != old(self).archived && now > old(
                self,
            ).updated_at {
                now
            } else {
                old(self).updated_at
            },
            final(self).created_at == old(self).created_at,
            final(self).wf(),
    {
        if archived != self.archived {
            self.archived = archived;
            self.touch(now);
        }
    }
}

/// A message of a conversation.
#[derive(Debug, Clone)]
pub struct Message {
    pub id: Option<i64>,
    pub conversation_id: i64,
    pub role: MessageRole,
    pub content: String,
    pub created_at: i64,
    pub tokens_used: Option<i32>,
    pub model_used: Option<String>,
}

impl Message {
    /// A message made at `now`: not yet stored, without token count or model.
    pub fn created(conversation_id: i64, role: MessageRole, content: String, now: i64) -> (m: Self)
        ensures
            m.id is None,
            m.conversation_id == conversation_id,
            m.role == role,
            m.content == content,
            m.created_at == now,
            m.tokens_used is None,
            m.model_used is None,
    {
        Message {
            id: None,
            conversation_id,
            role,
            content,
            created_at: now,
            tokens_used: None,
            model_used: None,
        }
    }

    /// A message made now.
    pub fn new(conversation_id: i64, role: MessageRole, content: String) -> (m: Self)
        ensures
            m.id is None,
            m.conversation_id == conversation_id,
            m.role == role,
            m.content == content,
            m.tokens_used is None,
            m.model_used is None,
    {
        Self::created(conversation_id, role, content, wall_clock_millis())
    }
}

/// A character profile.
#[derive(Debug, Clone)]
pub struct Persona {
    pub id: Option<i64>,
    pub name: String,
    pub description: Option<String>,
    pub system_prompt: String,
    pub avatar_path: Option<String>,
    pub created_at: i64,
    pub updated_at: i64,
    pub active: bool,
}

impl Persona {
    /// A persona made at `now`: not yet stored, active, without avatar.
    pub fn created(name: String, description: Option<String>, system_prompt: String, now: i64) -> (p:
        Self)
        ensures
            p.id is None,
            p.name == name,
            p.description == description,
            p.system_prompt == system_prompt,
            p.avatar_path is None,
            p.created_at == now,
            p.updated_at == now,
            p.active,
    {
        Persona {
            id: None,
            name,
            description,
            system_prompt,
            avatar_path: None,
            created_at: now,
            updated_at: now,
            active: true,
        }
    }

    /// A persona made now.
    pub fn new(name: String, description: Option<String>, system_prompt: String) -> (p: Self)
        ensures
            p.id is None,
            p.name == name,
            p.description == description,
            p.system_prompt == system_prompt,
            p.created_at == p.updated_at,
            p.active,
    {
        Self::created(name, description, system_prompt, wall_clock_millis())
    }
}

/// A knowledge source served by a local or remote server.
#[derive(Debug, Clone)]
pub struct Grimoire {
    pub id: Option<i64>,
    pub name: String,
    pub description: Option<String>,
    pub server_path: String,
    pub enabled: bool,
    pub created_at: i64,
    pub accessed_count: i32,
    pub last_accessed: Option<i64>,
}

impl Grimoire {
    /// A knowledge source made at `now`: not yet stored, enabled, and never
    /// accessed.
    pub fn created(name: String, description: Option<String>, server_path: String, now: i64) -> (g:
        Self)
        ensures
            g.id is None,
            g.name == name,
            g.description == description,
            g.server_path == server_path,
            g.enabled,
            g.created_at == now,
            g.accessed_count == 0,
            g.last_accessed is None,
    {
        Grimoire {
            id: None,
            name,
            description,
            server_path,
            enabled: true,
            created_at: now,
            accessed_count: 0,
            last_accessed: None,
        }
    }

    /// A knowledge source made now.
    pub fn new(name: String, description: Option<String>, server_path: String) -> (g: Self)
        ensures
            g.id is None,
            g.name == name,
            g.description == description,
            g.server_path == server_path,
            g.enabled,
            g.accessed_count == 0,
            g.last_accessed is None,
    {
        Self::created(name, description, server_path, wall_clock_millis())
    }
}

/// Name and version of the application.
#[derive(Debug, Clone)]
pub struct AppInfo {
    pub version: String,
    pub name: String,
}

/// The answer of a remote model, as handed to the user interface.
#[derive(Debug, Clone)]
pub struct AiResponse {
    pub content: String,
    pub model_used: String,
    pub tokens_used: i32,
    pub processing_time_ms: i64,
}

} // verus!
