//! The statements of the data-access services, each with the values of its
//! placeholders. A service hands the engine exactly what these functions
//! make.

use vstd::prelude::*;
use crate::models::MessageRole;
use crate::search::{param_views, SearchQuery};
use crate::sqlite::{SqlParam, SqlParamView};
use crate::text::join3;

verus! {

/// The columns of a conversation, in the order in which rows are read.
pub const CONVERSATION_COLUMNS: &'static str =
    "id, uuid, title, CAST(persona_id AS INTEGER), created_at, updated_at, archived";

/// The columns of a persona, in the order in which rows are read.
pub const PERSONA_COLUMNS: &'static str =
    "CAST(id AS INTEGER), name, description, system_prompt, avatar_path, created_at, updated_at, active";

/// The statement that stores a conversation.
pub const INSERT_CONVERSATION: &'static str =
    "INSERT INTO conversations (uuid, title, persona_id, created_at, updated_at, archived)
             VALUES (?1, ?2, ?3, ?4, ?5, ?6)";

/// What follows the columns in the statement that lists conversations.
pub const CONVERSATIONS_BY_UPDATE: &'static str =
    " FROM conversations ORDER BY updated_at DESC LIMIT ?1 OFFSET ?2";

/// What follows the columns in the statement that reads one conversation.
pub const CONVERSATION_BY_ID: &'static str = " FROM conversations WHERE id = ?1";

/// The statement that finds conversations by a text in their title or in
/// their messages.
pub const FIND_CONVERSATIONS: &'static str =
    "SELECT DISTINCT c.id, c.uuid, c.title, CAST(c.persona_id AS INTEGER), c.created_at,
                    c.updated_at, c.archived
             FROM conversations c
             LEFT JOIN messages m ON c.id = m.conversation_id
             WHERE c.title LIKE ?1 OR m.content LIKE ?1
             ORDER BY c.updated_at DESC
             LIMIT ?2";

/// The statement that stores a message. The message is keyed by the text of
/// its row identifier, so that its shadow row can be joined to it.
pub const INSERT_MESSAGE: &'static str =
    "INSERT INTO messages (id, conversation_id, role, content, timestamp, tokens_used, model_used)
     VALUES ((SELECT COALESCE(MAX(rowid), 0) + 1 FROM messages), ?1, ?2, ?3, ?4, ?5, ?6)";

/// The statement that notes a conversation as updated.
pub const TOUCH_CONVERSATION: &'static str =
    "UPDATE conversations SET updated_at = ?1 WHERE id = ?2";

/// The statement that reads the messages of a conversation, oldest first.
pub const MESSAGES_OF_CONVERSATION: &'static str =
    "SELECT rowid, CAST(conversation_id AS INTEGER), role, content, timestamp,
                    tokens_used, model_used
             FROM messages
             WHERE conversation_id = ?1
             ORDER BY timestamp ASC, rowid ASC";

/// The statement that deletes a conversation.
pub const DELETE_CONVERSATION: &'static str = "DELETE FROM conversations WHERE id = ?1";

/// The statement that archives or restores a conversation.
pub const ARCHIVE_CONVERSATION: &'static str =
    "UPDATE conversations SET archived = ?1, updated_at = ?2 WHERE id = ?3";

/// The statement that stores a persona.
pub const INSERT_PERSONA: &'static str =
    "INSERT INTO personas (id, name, description, system_prompt, created_at, updated_at, active)
             VALUES ((SELECT COALESCE(MAX(rowid), 0) + 1 FROM personas), ?1, ?2, ?3, ?4, ?5, ?6)";

/// What follows the columns in the statement that lists the active personas.
pub const ACTIVE_PERSONAS: &'static str = " FROM personas WHERE active = 1 ORDER BY name ASC";

/// What follows the columns in the statement that reads one persona.
pub const PERSONA_BY_ID: &'static str = " FROM personas WHERE id = ?1 LIMIT 1";

/// The statement that deletes a persona.
pub const DELETE_PERSONA: &'static str = "DELETE FROM personas WHERE id = ?1";

/// The statement that stores the configuration of a provider in place of
/// the one that is there.
pub const STORE_API_CONFIG: &'static str =
    "INSERT OR REPLACE INTO api_configs
                 (id, provider, api_key, base_url, created_at, updated_at, active)
             VALUES (?1, ?1, ?2, ?3, ?4, ?4, 1)";

/// The statement that reads the active configuration of a provider.
pub const ACTIVE_API_CONFIG: &'static str =
    "SELECT api_key, base_url FROM api_configs WHERE provider = ?1 AND active = 1";

/// The statement that switches the configuration of a provider off.
pub const DEACTIVATE_API_CONFIG: &'static str =
    "UPDATE api_configs SET active = 0, updated_at = ?1 WHERE provider = ?2";

/// The value bound for an optional integer: the integer, or null.
pub open spec fn integer_or_null(value: Option<int>) -> SqlParamView {
    match value {
        Some(n) => SqlParamView::Integer(n),
        None => SqlParamView::Null,
    }
}

/// The value bound for an optional text that is stored as null when absent.
pub open spec fn text_or_null(value: Option<String>) -> SqlParamView {
    match value {
        Some(text) => SqlParamView::Text(text@),
        None => SqlParamView::Null,
    }
}

/// The value bound for an optional text that is stored as the empty text
/// when absent.
pub open spec fn text_or_empty(value: Option<String>) -> SqlParamView {
    match value {
        Some(text) => SqlParamView::Text(text@),
        None => SqlParamView::Text(Seq::empty()),
    }
}

/// An optional identifier as a mathematical integer.
pub open spec fn wide(value: Option<i64>) -> Option<int> {
    match value {
        Some(n) => Some(n as int),
        None => None,
    }
}

/// An optional count as a mathematical integer.
pub open spec fn wide_count(value: Option<i32>) -> Option<int> {
    match value {
        Some(n) => Some(n as int),
        None => None,
    }
}

/// The text that matches every text containing `needle`.
pub open spec fn containing(needle: Seq<char>) -> Seq<char> {
    "%"@ + needle + "%"@
}

/// Whether `q` is the statement `sql` with the placeholder values `values`.
pub open spec fn is_statement(q: SearchQuery, sql: Seq<char>, values: Seq<SqlParamView>) -> bool {
    q.sql@ == sql && param_views(q.params@) == values
}

/// The parameter bound for an optional identifier.
fn bind_integer(value: Option<i64>) -> (p: SqlParam)
    ensures
        p@ == integer_or_null(wide(value)),
{
    match value {
        Some(n) => SqlParam::Integer(n),
        None => SqlParam::Null,
    }
}

/// The parameter bound for an optional count.
fn bind_count(value: Option<i32>) -> (p: SqlParam)
    ensures
        p@ == integer_or_null(wide_count(value)),
{
    match value {
        Some(n) => SqlParam::Integer(n as i64),
        None => SqlParam::Null,
    }
}

/// The parameter bound for an optional text, null when absent.
fn bind_text_or_null(value: Option<String>) -> (p: SqlParam)
    ensures
        p@ == text_or_null(value),
{
    match value {
        Some(text) => SqlParam::Text(text),
        None => SqlParam::Null,
    }
}

/// The parameter bound for an optional text, empty when absent.
fn bind_text_or_empty(value: Option<String>) -> (p: SqlParam)
    ensures
        p@ == text_or_empty(value),
{
    match value {
        Some(text) => SqlParam::Text(text),
        None => SqlParam::Text(String::new()),
    }
}

/// Stores a conversation that is not archived, created and updated at the
/// time that `stamp` stands for.
pub fn insert_conversation(uuid: String, title: String, persona_id: Option<i64>, stamp: String) -> (q:
    SearchQuery)
    ensures
        is_statement(
            q,
            INSERT_CONVERSATION@,
            seq![
                SqlParamView::Text(uuid@),
                SqlParamView::Text(title@),
                integer_or_null(wide(persona_id)),
                SqlParamView::Text(stamp@),
                SqlParamView::Text(stamp@),
                SqlParamView::Flag(false),
            ],
        ),
{
    let mut params: Vec<SqlParam> = Vec::new();
    params.push(SqlParam::Text(uuid));
    params.push(SqlParam::Text(title));
    params.push(bind_integer(persona_id));
    params.push(SqlParam::Text(stamp.clone()));
    params.push(SqlParam::Text(stamp));
    params.push(SqlParam::Flag(false));
    assert(param_views(params@) =~= seq![
        SqlParamView::Text(uuid@),
        SqlParamView::Text(title@),
        integer_or_null(wide(persona_id)),
        SqlParamView::Text(stamp@),
        SqlParamView::Text(stamp@),
        SqlParamView::Flag(false),
    ]);
    SearchQuery { sql: String::from_str(INSERT_CONVERSATION), params }
}

/// Lists the conversations, most recently updated first: `limit` of them
/// after skipping `offset`. The engine reads a negative limit as none.
pub fn select_conversations(limit: i32, offset: i32) -> (q: SearchQuery)
    ensures
        is_statement(
            q,
            "SELECT "@ + CONVERSATION_COLUMNS@ + CONVERSATIONS_BY_UPDATE@,
            seq![SqlParamView::Integer(limit as int), SqlParamView::Integer(offset as int)],
        ),
{
    let mut params: Vec<SqlParam> = Vec::new();
    params.push(SqlParam::Integer(limit as i64));
    params.push(SqlParam::Integer(offset as i64));
    assert(param_views(params@) =~= seq![
        SqlParamView::Integer(limit as int),
        SqlParamView::Integer(offset as int),
    ]);
    SearchQuery { sql: join3("SELECT ", CONVERSATION_COLUMNS, CONVERSATIONS_BY_UPDATE), params }
}

/// Reads the conversation with this identifier.
pub fn select_conversation(id: i64) -> (q: SearchQuery)
    ensures
        is_statement(
            q,
            "SELECT "@ + CONVERSATION_COLUMNS@ + CONVERSATION_BY_ID@,
            seq![SqlParamView::Integer(id as int)],
        ),
{
    let mut params: Vec<SqlParam> = Vec::new();
    params.push(SqlParam::Integer(id));
    assert(param_views(params@) =~= seq![SqlParamView::Integer(id as int)]);
    SearchQuery { sql: join3("SELECT ", CONVERSATION_COLUMNS, CONVERSATION_BY_ID), params }
}

/// Finds at most `limit` conversations whose title or whose messages
/// contain `needle`.
pub fn find_conversations(needle: &str, limit: i32) -> (q: SearchQuery)
    ensures
        is_statement(
            q,
            FIND_CONVERSATIONS@,
            seq![SqlParamView::Text(containing(needle@)), SqlParamView::Integer(limit as int)],
        ),
{
    let mut params: Vec<SqlParam> = Vec::new();
    params.push(SqlParam::Text(join3("%", needle, "%")));
    params.push(SqlParam::Integer(limit as i64));
    assert(param_views(params@) =~= seq![
        SqlParamView::Text(containing(needle@)),
        SqlParamView::Integer(limit as int),
    ]);
    SearchQuery { sql: String::from_str(FIND_CONVERSATIONS), params }
}

/// Stores a message of a conversation, made at the time that `stamp` stands
/// for.
pub fn insert_message(
    conversation_id: i64,
    role: MessageRole,
    content: String,
    stamp: String,
    tokens_used: Option<i32>,
    model_used: Option<String>,
) -> (q: SearchQuery)
    ensures
        is_statement(
            q,
            INSERT_MESSAGE@,
            seq![
                SqlParamView::Integer(conversation_id as int),
                SqlParamView::Text(role.spec_as_str()),
                SqlParamView::Text(content@),
                SqlParamView::Text(stamp@),
                integer_or_null(wide_count(tokens_used)),
                text_or_null(model_used),
            ],
        ),
{
    let mut params: Vec<SqlParam> = Vec::new();
    params.push(SqlParam::Integer(conversation_id));
    params.push(SqlParam::Text(String::from_str(role.as_str())));
    params.push(SqlParam::Text(content));
    params.push(SqlParam::Text(stamp));
    params.push(bind_count(tokens_used));
    params.push(bind_text_or_null(model_used));
    assert(param_views(params@) =~= seq![
        SqlParamView::Integer(conversation_id as int),
        SqlParamView::Text(role.spec_as_str()),
        SqlParamView::Text(content@),
        SqlParamView::Text(stamp@),
        integer_or_null(wide_count(tokens_used)),
        text_or_null(model_used),
    ]);
    SearchQuery { sql: String::from_str(INSERT_MESSAGE), params }
}

/// Notes a conversation as updated at the time that `stamp` stands for.
pub fn touch_conversation(conversation_id: i64, stamp: String) -> (q: SearchQuery)
    ensures
        is_statement(
            q,
            TOUCH_CONVERSATION@,
            seq![SqlParamView::Text(stamp@), SqlParamView::Integer(conversation_id as int)],
        ),
{
    let mut params: Vec<SqlParam> = Vec::new();
    params.push(SqlParam::Text(stamp));
    params.push(SqlParam::Integer(conversation_id));
    assert(param_views(params@) =~= seq![
        SqlParamView::Text(stamp@),
        SqlParamView::Integer(conversation_id as int),
    ]);
    SearchQuery { sql: String::from_str(TOUCH_CONVERSATION), params }
}

/// Reads the messages of a conversation, oldest first.
pub fn select_messages(conversation_id: i64) -> (q: SearchQuery)
    ensures
        is_statement(
            q,
            MESSAGES_OF_CONVERSATION@,
            seq![SqlParamView::Integer(conversation_id as int)],
        ),
{
    let mut params: Vec<SqlParam> = Vec::new();
    params.push(SqlParam::Integer(conversation_id));
    assert(param_views(params@) =~= seq![SqlParamView::Integer(conversation_id as int)]);
    SearchQuery { sql: String::from_str(MESSAGES_OF_CONVERSATION), params }
}

/// Deletes the conversation with this identifier. The schema lets its
/// messages go with it.
pub fn remove_conversation(id: i64) -> (q: SearchQuery)
    ensures
        is_statement(q, DELETE_CONVERSATION@, seq![SqlParamView::Integer(id as int)]),
{
    let mut params: Vec<SqlParam> = Vec::new();
    params.push(SqlParam::Integer(id));
    assert(param_views(params@) =~= seq![SqlParamView::Integer(id as int)]);
    SearchQuery { sql: String::from_str(DELETE_CONVERSATION), params }
}

/// Archives or restores a conversation and notes it as updated at the time
/// that `stamp` stands for.
pub fn set_archived(id: i64, archived: bool, stamp: String) -> (q: SearchQuery)
    ensures
        is_statement(
            q,
            ARCHIVE_CONVERSATION@,
            seq![
                SqlParamView::Flag(archived),
                SqlParamView::Text(stamp@),
                SqlParamView::Integer(id as int),
            ],
        ),
{
    let mut params: Vec<SqlParam> = Vec::new();
    params.push(SqlParam::Flag(archived));
    params.push(SqlParam::Text(stamp));
    params.push(SqlParam::Integer(id));
    assert(param_views(params@) =~= seq![
        SqlParamView::Flag(archived),
        SqlParamView::Text(stamp@),
        SqlParamView::Integer(id as int),
    ]);
    SearchQuery { sql: String::from_str(ARCHIVE_CONVERSATION), params }
}

/// Stores an active persona, created and updated at the time that `stamp`
/// stands for. A persona without a description is stored with an empty one.
pub fn insert_persona(
    name: String,
    description: Option<String>,
    system_prompt: String,
    stamp: String,
) -> (q: SearchQuery)
    ensures
        is_statement(
            q,
            INSERT_PERSONA@,
            seq![
                SqlParamView::Text(name@),
                text_or_empty(description),
                SqlParamView::Text(system_prompt@),
                SqlParamView::Text(stamp@),
                SqlParamView::Text(stamp@),
                SqlParamView::Flag(true),
            ],
        ),
{
    let mut params: Vec<SqlParam> = Vec::new();
    params.push(SqlParam::Text(name));
    params.push(bind_text_or_empty(description));
    params.push(SqlParam::Text(system_prompt));
    params.push(SqlParam::Text(stamp.clone()));
    params.push(SqlParam::Text(stamp));
    params.push(SqlParam::Flag(true));
    assert(param_views(params@) =~= seq![
        SqlParamView::Text(name@),
        text_or_empty(description),
        SqlParamView::Text(system_prompt@),
        SqlParamView::Text(stamp@),
        SqlParamView::Text(stamp@),
        SqlParamView::Flag(true),
    ]);
    SearchQuery { sql: String::from_str(INSERT_PERSONA), params }
}

/// Lists the active personas, by name.
pub fn select_personas() -> (q: SearchQuery)
    ensures
        is_statement(
            q,
            "SELECT "@ + PERSONA_COLUMNS@ + ACTIVE_PERSONAS@,
            Seq::<SqlParamView>::empty(),
        ),
{
    let params: Vec<SqlParam> = Vec::new();
    assert(param_views(params@) =~= Seq::<SqlParamView>::empty());
    SearchQuery { sql: join3("SELECT ", PERSONA_COLUMNS, ACTIVE_PERSONAS), params }
}

/// Reads the persona with this identifier.
pub fn select_persona(id: i64) -> (q: SearchQuery)
    ensures
        is_statement(
            q,
            "SELECT "@ + PERSONA_COLUMNS@ + PERSONA_BY_ID@,
            seq![SqlParamView::Integer(id as int)],
        ),
{
    let mut params: Vec<SqlParam> = Vec::new();
    params.push(SqlParam::Integer(id));
    assert(param_views(params@) =~= seq![SqlParamView::Integer(id as int)]);
    SearchQuery { sql: join3("SELECT ", PERSONA_COLUMNS, PERSONA_BY_ID), params }
}

/// Deletes the persona with this identifier.
pub fn remove_persona(id: i64) -> (q: SearchQuery)
    ensures
        is_statement(q, DELETE_PERSONA@, seq![SqlParamView::Integer(id as int)]),
{
    let mut params: Vec<SqlParam> = Vec::new();
    params.push(SqlParam::Integer(id));
    assert(param_views(params@) =~= seq![SqlParamView::Integer(id as int)]);
    SearchQuery { sql: String::from_str(DELETE_PERSONA), params }
}

/// Stores the key and the address of a provider, created and updated at
/// the time that `stamp` stands for. A provider without an address is
/// stored with an empty one.
pub fn replace_api_config(provider: String, api_key: String, base_url: Option<String>, stamp: String) -> (q:
    SearchQuery)
    ensures
        is_statement(
            q,
            STORE_API_CONFIG@,
            seq![
                SqlParamView::Text(provider@),
                SqlParamView::Text(api_key@),
                text_or_empty(base_url),
                SqlParamView::Text(stamp@),
            ],
        ),
{
    let mut params: Vec<SqlParam> = Vec::new();
    params.push(SqlParam::Text(provider));
    params.push(SqlParam::Text(api_key));
    params.push(bind_text_or_empty(base_url));
    params.push(SqlParam::Text(stamp));
    assert(param_views(params@) =~= seq![
        SqlParamView::Text(provider@),
        SqlParamView::Text(api_key@),
        text_or_empty(base_url),
        SqlParamView::Text(stamp@),
    ]);
    SearchQuery { sql: String::from_str(STORE_API_CONFIG), params }
}

/// Reads the active configuration of a provider.
pub fn select_api_config(provider: &str) -> (q: SearchQuery)
    ensures
        is_statement(q, ACTIVE_API_CONFIG@, seq![SqlParamView::Text(provider@)]),
{
    let mut params: Vec<SqlParam> = Vec::new();
    params.push(SqlParam::Text(String::from_str(provider)));
    assert(param_views(params@) =~= seq![SqlParamView::Text(provider@)]);
    SearchQuery { sql: String::from_str(ACTIVE_API_CONFIG), params }
}

/// Switches the configuration of a provider off and notes it as updated at
/// the time that `stamp` stands for.
pub fn deactivate_api_config(provider: &str, stamp: String) -> (q: SearchQuery)
    ensures
        is_statement(
            q,
            DEACTIVATE_API_CONFIG@,
            seq![SqlParamView::Text(stamp@), SqlParamView::Text(provider@)],
        ),
{
    let mut params: Vec<SqlParam> = Vec::new();
    params.push(SqlParam::Text(stamp));
    params.push(SqlParam::Text(String::from_str(provider)));
    assert(param_views(params@) =~= seq![
        SqlParamView::Text(stamp@),
        SqlParamView::Text(provider@),
    ]);
    SearchQuery { sql: String::from_str(DEACTIVATE_API_CONFIG), params }
}

} // verus!
