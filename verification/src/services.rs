//! The data-access services: conversations with their messages, personas,
//! and the configurations of model services. Every service works through
//! the pool of one [`DatabaseManager`].

use vstd::prelude::*;
use std::sync::Arc;
use crate::errors::{AppError, AppResult, ErrorKind};
use crate::manager::DatabaseManager;
use crate::models::{
    format_rfc3339, new_uuid, parse_rfc3339, wall_clock_millis, Conversation, Message, MessageRole,
    Persona,
};
use crate::search::{
    if_present, join_slices, join_with, limit_or, param_views, push_condition, row_cap, slices,
    SearchQuery, DEFAULT_RESULT_LIMIT,
};
use crate::sqlite::{
    last_insert_rowid, next_conversation_row, next_message_row, next_persona_row, next_text_pair,
    prepare, query, run, transaction_connection, SqlParam, SqlParamView,
};
use crate::statements::{
    deactivate_api_config, find_conversations, insert_conversation, insert_message,
    insert_persona, remove_conversation, remove_persona, replace_api_config, select_api_config,
    select_conversation, select_conversations, select_messages, select_persona, select_personas,
    set_archived, touch_conversation,
};
use crate::text::{join3, push_signed_decimal, push_text};

verus! {

/// A row of the conversations table, as the engine returned it.
#[derive(Debug)]
pub struct ConversationRow {
    pub id: i64,
    pub uuid: String,
    pub title: String,
    pub persona_id: Option<i64>,
    pub created_at: String,
    pub updated_at: String,
    pub archived: bool,
}

/// A row of the messages table, as the engine returned it.
#[derive(Debug)]
pub struct MessageRow {
    pub id: i64,
    pub conversation_id: i64,
    pub role: String,
    pub content: String,
    pub timestamp: String,
    pub tokens_used: Option<i32>,
    pub model_used: Option<String>,
}

/// A row of the personas table, as the engine returned it.
#[derive(Debug)]
pub struct PersonaRow {
    pub id: i64,
    pub name: String,
    pub description: Option<String>,
    pub system_prompt: String,
    pub avatar_path: Option<String>,
    pub created_at: String,
    pub updated_at: String,
    pub active: bool,
}

/// The time that a stored text stands for: what was read from it, or the
/// epoch if it is not a time.
pub open spec fn time_or_epoch(read: Option<i64>) -> i64 {
    match read {
        Some(millis) => millis,
        None => 0,
    }
}

/// The later of two times.
pub open spec fn later(a: i64, b: i64) -> i64 {
    if a >= b {
        a
    } else {
        b
    }
}

/// The conversation that a row stands for, given the times read from its
/// texts. A row whose update precedes its creation reads as never updated,
/// so that every conversation handed out is well-formed.
pub fn conversation_from_row(row: ConversationRow, created: Option<i64>, updated: Option<i64>) -> (c:
    Conversation)
    ensures
        c.id == Some(row.id),
        c.uuid == row.uuid,
        c.title == row.title,
        c.persona_id == row.persona_id,
        c.created_at == time_or_epoch(created),
        c.updated_at == later(time_or_epoch(updated), time_or_epoch(created)),
        c.archived == row.archived,
        c.wf(),
{
    let created_at: i64 = match created {
        Some(millis) => millis,
        None => 0,
    };
    let read_update: i64 = match updated {
        Some(millis) => millis,
        None => 0,
    };
    let updated_at: i64 = if read_update >= created_at {
        read_update
    } else {
        created_at
    };
    Conversation {
        id: Some(row.id),
        uuid: row.uuid,
        title: row.title,
        persona_id: row.persona_id,
        created_at,
        updated_at,
        archived: row.archived,
    }
}

/// The message that reports a thing that does not exist.
pub open spec fn missing(what: Seq<char>, id: i64) -> Seq<char> {
    what + " "@ + crate::text::decimal_text(id as int) + " does not exist"@
}

/// Succeeds exactly when a statement changed a row; otherwise the thing it
/// was meant for does not exist.
pub fn require_changed(rows: usize, what: &str, id: i64) -> (r: AppResult<()>)
    ensures
        rows > 0 ==> r is Ok,
        rows == 0 ==> (r matches Err(e) && e.is(ErrorKind::NotFound, missing(what@, id))),
{
    if rows == 0 {
        let mut message = crate::text::join2(what, " ");
        push_signed_decimal(&mut message, id);
        push_text(&mut message, " does not exist");
        Err(AppError::NotFound { message })
    } else {
        Ok(())
    }
}

/// Whether `r` is the stored form of a time: its text in RFC 3339, or the
/// validation error for a time that cannot be written.
pub open spec fn is_stored_time(millis: i64, r: AppResult<String>) -> bool {
    match crate::models::rfc3339_text(millis) {
        Some(text) => r matches Ok(s) && s@ == text,
        None => r matches Err(e) && e.is(ErrorKind::Validation, "Timestamp is out of range"@),
    }
}

/// The text stored for a time, or a validation error for a time that cannot
/// be written.
fn stored_time(millis: i64) -> (r: AppResult<String>)
    ensures
        is_stored_time(millis, r),
{
    match format_rfc3339(millis) {
        Some(text) => Ok(text),
        None => Err(AppError::validation("Timestamp is out of range")),
    }
}

/// Runs a statement that changes rows and returns how many it changed.
fn execute_on(conn: &rusqlite::Connection, sql: &str, params: &Vec<SqlParam>) -> (r: AppResult<
    usize,
>)
    ensures
        r matches Err(e) ==> e.spec_kind() == ErrorKind::Database,
{
    let mut stmt = match prepare(conn, sql) {
        Ok(stmt) => stmt,
        Err(e) => {
            return Err(AppError::from(e));
        },
    };
    match run(&mut stmt, params) {
        Ok(rows) => Ok(rows),
        Err(e) => Err(AppError::from(e)),
    }
}

/// The limit that the engine reads as "no limit".
pub const NO_LIMIT: i32 = -1;

/// Whether every conversation is stored and well-formed.
pub open spec fn all_stored(list: Seq<Conversation>) -> bool {
    forall|i: int| 0 <= i < list.len() ==> (#[trigger] list[i]).id is Some && list[i].wf()
}

/// Runs a statement that selects conversations and collects at most `cap`
/// of them, in the engine's order.
fn collect_conversations(conn: &rusqlite::Connection, sql: &str, params: &Vec<SqlParam>, cap: usize) -> (r:
    AppResult<Vec<Conversation>>)
    ensures
        r matches Ok(list) ==> list@.len() <= cap && all_stored(list@),
        r matches Err(e) ==> e.spec_kind() == ErrorKind::Database,
{
    let mut stmt = match prepare(conn, sql) {
        Ok(stmt) => stmt,
        Err(e) => {
            return Err(AppError::from(e));
        },
    };
    let mut rows = match query(&mut stmt, params) {
        Ok(rows) => rows,
        Err(e) => {
            return Err(AppError::from(e));
        },
    };
    let mut list: Vec<Conversation> = Vec::new();
    while list.len() < cap
        invariant
            list@.len() <= cap,
            all_stored(list@),
        decreases cap - list.len(),
    {
        match next_conversation_row(&mut rows) {
            Err(e) => {
                return Err(AppError::from(e));
            },
            Ok(None) => {
                return Ok(list);
            },
            Ok(Some(row)) => {
                let created = parse_rfc3339(row.created_at.as_str());
                let updated = parse_rfc3339(row.updated_at.as_str());
                list.push(conversation_from_row(row, created, updated));
            },
        }
    }
    Ok(list)
}

/// Chat sessions and their messages.
pub struct ConversationService {
    db: Arc<DatabaseManager>,
}

impl ConversationService {
    /// The database that the service works on.
    pub closed spec fn database(&self) -> Arc<DatabaseManager> {
        self.db
    }

    /// A service on the given database.
    pub fn new(db: Arc<DatabaseManager>) -> (service: Self)
        ensures
            service.database() == db,
    {
        ConversationService { db }
    }

    /// Stores a new conversation and returns it with the identifier that the
    /// database assigned. The engine is handed [`insert_conversation`].
    pub fn create_conversation(&self, title: String, persona_id: Option<i64>) -> (r: AppResult<
        Conversation,
    >)
        ensures
            r matches Ok(c) ==> c.id is Some && c.title@ == title@ && c.persona_id == persona_id
                && !c.archived && c.created_at == c.updated_at && c.wf(),
            r matches Err(e) ==> e.spec_kind() == ErrorKind::Database || e.is(
                ErrorKind::Validation,
                "Timestamp is out of range"@,
            ),
    {
        let now = wall_clock_millis();
        let stamp = match stored_time(now) {
            Ok(text) => text,
            Err(e) => {
                return Err(e);
            },
        };
        let uuid = new_uuid();
        let conn = match self.db.get_connection() {
            Ok(conn) => conn,
            Err(e) => {
                return Err(e);
            },
        };
        let insert = insert_conversation(uuid.clone(), title.clone(), persona_id, stamp);
        match execute_on(&conn, insert.sql.as_str(), &insert.params) {
            Ok(_) => {},
            Err(e) => {
                return Err(e);
            },
        }
        let mut conversation = Conversation::created(title, persona_id, uuid, now);
        conversation.id = Some(last_insert_rowid(&conn));
        Ok(conversation)
    }

    /// The conversations, most recently updated first: at most `limit` of
    /// them after skipping `offset`. Without a limit, or with a negative
    /// one, all of them are returned. The engine is handed
    /// [`select_conversations`].
    pub fn get_conversations(&self, limit: Option<i32>, offset: Option<i32>) -> (r: AppResult<
        Vec<Conversation>,
    >)
        ensures
            r matches Ok(list) ==> list@.len() <= row_cap(limit_or(limit, NO_LIMIT)) && all_stored(
                list@,
            ),
            r matches Err(e) ==> e.spec_kind() == ErrorKind::Database,
    {
        let limit_value: i32 = match limit {
            Some(n) => n,
            None => NO_LIMIT,
        };
        let offset_value: i32 = match offset {
            Some(n) => n,
            None => 0,
        };
        let conn = match self.db.get_connection() {
            Ok(conn) => conn,
            Err(e) => {
                return Err(e);
            },
        };
        let select = select_conversations(limit_value, offset_value);
        collect_conversations(&conn, select.sql.as_str(), &select.params, cap_for(limit_value))
    }

    /// The conversation with this identifier, or `None` if there is none:
    /// a lookup that finds nothing is no error. The engine is handed
    /// [`select_conversation`].
    pub fn get_conversation(&self, id: i64) -> (r: AppResult<Option<Conversation>>)
        ensures
            r matches Ok(Some(c)) ==> c.id is Some && c.wf(),
            r matches Err(e) ==> e.spec_kind() == ErrorKind::Database,
    {
        let conn = match self.db.get_connection() {
            Ok(conn) => conn,
            Err(e) => {
                return Err(e);
            },
        };
        let select = select_conversation(id);
        match collect_conversations(&conn, select.sql.as_str(), &select.params, 1) {
            Ok(mut list) => {
                let ghost before = list@;
                let found = list.pop();
                proof {
                    if found is Some {
                        assert(found->0 == before[before.len() - 1]);
                    }
                }
                Ok(found)
            },
            Err(e) => Err(e),
        }
    }

    /// The conversations whose title or whose messages contain the text,
    /// most recently updated first, at most `limit` of them (50 when no
    /// limit is given). The engine is handed [`find_conversations`].
    pub fn search_conversations(&self, query_text: &str, limit: Option<i32>) -> (r: AppResult<
        Vec<Conversation>,
    >)
        ensures
            r matches Ok(list) ==> list@.len() <= row_cap(limit_or(limit, DEFAULT_RESULT_LIMIT))
                && all_stored(list@),
            r matches Err(e) ==> e.spec_kind() == ErrorKind::Database,
    {
        let limit_value: i32 = match limit {
            Some(n) => n,
            None => DEFAULT_RESULT_LIMIT,
        };
        let conn = match self.db.get_connection() {
            Ok(conn) => conn,
            Err(e) => {
                return Err(e);
            },
        };
        let find = find_conversations(query_text, limit_value);
        collect_conversations(&conn, find.sql.as_str(), &find.params, cap_for(limit_value))
    }

    /// Appends a message to a conversation and notes the conversation as
    /// updated, both or neither. The message is returned with the
    /// identifier that the database assigned. A failure is the engine's, or
    /// the validation error for a clock whose time cannot be written.
    pub fn add_message(
        &self,
        conversation_id: i64,
        role: MessageRole,
        content: String,
        tokens_used: Option<i32>,
        model_used: Option<String>,
    ) -> (r: AppResult<Message>)
        ensures
            r matches Ok(m) ==> m.id is Some && m.conversation_id == conversation_id && m.role
                == role && m.content@ == content@ && m.tokens_used == tokens_used && m.model_used
                == model_used,
            r matches Err(e) ==> e.spec_kind() == ErrorKind::Database || e.is(
                ErrorKind::Validation,
                "Timestamp is out of range"@,
            ),
    {
        self.add_message_at(
            conversation_id,
            role,
            content,
            tokens_used,
            model_used,
            wall_clock_millis(),
        )
    }

    /// Appends a message made at `now` to a conversation and notes the
    /// conversation as updated at `now`, both or neither.
    ///
    /// A time that cannot be written is a validation error, and then the
    /// database is not asked. Every other failure is the engine's, and
    /// leaves nothing of the message behind. On success the message is
    /// returned as it was given, with the identifier that the database
    /// assigned. The engine is handed [`insert_message`], then
    /// [`touch_conversation`], in one transaction.
    pub fn add_message_at(
        &self,
        conversation_id: i64,
        role: MessageRole,
        content: String,
        tokens_used: Option<i32>,
        model_used: Option<String>,
        now: i64,
    ) -> (r: AppResult<Message>)
        ensures
            crate::models::rfc3339_text(now) is None ==> (r matches Err(e) && e.is(
                ErrorKind::Validation,
                "Timestamp is out of range"@,
            )),
            crate::models::rfc3339_text(now) is Some ==> (r matches Err(e) ==> e.spec_kind()
                == ErrorKind::Database),
            r matches Ok(m) ==> m.id is Some && m.conversation_id == conversation_id && m.role
                == role && m.content@ == content@ && m.tokens_used == tokens_used && m.model_used
                == model_used && m.created_at == now,
    {
        let stamp = match stored_time(now) {
            Ok(text) => text,
            Err(e) => {
                return Err(e);
            },
        };
        let insert = insert_message(
            conversation_id,
            role,
            content.clone(),
            stamp.clone(),
            tokens_used,
            model_used.clone(),
        );
        let touch = touch_conversation(conversation_id, stamp);
        let store = |tx: &mut rusqlite::Transaction| -> (stored: AppResult<i64>)
            ensures
                stored matches Err(e) ==> e.spec_kind() == ErrorKind::Database,
            {
                let conn = transaction_connection(tx);
                match execute_on(conn, insert.sql.as_str(), &insert.params) {
                    Ok(_) => {},
                    Err(e) => {
                        return Err(e);
                    },
                }
                let id = last_insert_rowid(conn);
                match execute_on(conn, touch.sql.as_str(), &touch.params) {
                    Ok(_) => Ok(id),
                    Err(e) => Err(e),
                }
            };
        match self.db.with_transaction(store) {
            Ok(id) => {
                let mut message = Message::created(conversation_id, role, content, now);
                message.id = Some(id);
                message.tokens_used = tokens_used;
                message.model_used = model_used;
                Ok(message)
            },
            Err(e) => Err(e),
        }
    }

    /// The messages of a conversation, oldest first. The engine is handed
    /// [`select_messages`].
    pub fn get_messages(&self, conversation_id: i64) -> (r: AppResult<Vec<Message>>)
        ensures
            r matches Ok(list) ==> forall|i: int|
                0 <= i < list@.len() ==> (#[trigger] list@[i]).id is Some,
            r matches Err(e) ==> e.spec_kind() == ErrorKind::Database,
    {
        let conn = match self.db.get_connection() {
            Ok(conn) => conn,
            Err(e) => {
                return Err(e);
            },
        };
        let select = select_messages(conversation_id);
        let mut stmt = match prepare(&conn, select.sql.as_str()) {
            Ok(stmt) => stmt,
            Err(e) => {
                return Err(AppError::from(e));
            },
        };
        let mut rows = match query(&mut stmt, &select.params) {
            Ok(rows) => rows,
            Err(e) => {
                return Err(AppError::from(e));
            },
        };
        let mut list: Vec<Message> = Vec::new();
        while list.len() < usize::MAX
            invariant
                forall|i: int| 0 <= i < list@.len() ==> (#[trigger] list@[i]).id is Some,
            decreases usize::MAX - list.len(),
        {
            match next_message_row(&mut rows) {
                Err(e) => {
                    return Err(AppError::from(e));
                },
                Ok(None) => {
                    return Ok(list);
                },
                Ok(Some(row)) => {
                    let created = parse_rfc3339(row.timestamp.as_str());
                    list.push(message_from_row(row, created));
                },
            }
        }
        Ok(list)
    }

    /// Deletes a conversation; its messages and all shadow rows go with it.
    /// A conversation that does not exist is reported as not found. The
    /// engine is handed [`remove_conversation`], and the result is
    /// [`require_changed`] of the number of rows it changed.
    pub fn delete_conversation(&self, id: i64) -> (r: AppResult<()>)
        ensures
            r matches Err(e) ==> e.spec_kind() == ErrorKind::Database || e.is(
                ErrorKind::NotFound,
                missing("Conversation"@, id),
            ),
    {
        let conn = match self.db.get_connection() {
            Ok(conn) => conn,
            Err(e) => {
                return Err(e);
            },
        };
        let delete = remove_conversation(id);
        match execute_on(&conn, delete.sql.as_str(), &delete.params) {
            Ok(rows) => require_changed(rows, "Conversation", id),
            Err(e) => Err(e),
        }
    }

    /// Archives or restores a conversation and notes it as updated. A
    /// conversation that does not exist is reported as not found. The engine
    /// is handed [`set_archived`], and the result is [`require_changed`] of
    /// the number of rows it changed.
    pub fn set_conversation_archived(&self, id: i64, archived: bool) -> (r: AppResult<()>)
        ensures
            r matches Err(e) ==> e.spec_kind() == ErrorKind::Database || e.is(
                ErrorKind::NotFound,
                missing("Conversation"@, id),
            ) || e.is(ErrorKind::Validation, "Timestamp is out of range"@),
    {
        let stamp = match stored_time(wall_clock_millis()) {
            Ok(text) => text,
            Err(e) => {
                return Err(e);
            },
        };
        let conn = match self.db.get_connection() {
            Ok(conn) => conn,
            Err(e) => {
                return Err(e);
            },
        };
        let update = set_archived(id, archived, stamp);
        match execute_on(&conn, update.sql.as_str(), &update.params) {
            Ok(rows) => require_changed(rows, "Conversation", id),
            Err(e) => Err(e),
        }
    }
}

fn cap_for(limit: i32) -> (cap: usize)
    ensures
        cap == row_cap(limit),
{
    if limit < 0 {
        usize::MAX
    } else {
        limit as usize
    }
}

/// A text that is present and not empty.
pub open spec fn non_empty(text: Option<String>) -> Option<Seq<char>> {
    match text {
        Some(t) => if t@.len() > 0 {
            Some(t@)
        } else {
            None
        },
        None => None,
    }
}

/// The views of an optional text.
pub open spec fn text_view(text: Option<String>) -> Option<Seq<char>> {
    match text {
        Some(t) => Some(t@),
        None => None,
    }
}

/// The text, or none for an empty one.
pub fn keep_non_empty(text: Option<String>) -> (kept: Option<String>)
    ensures
        text_view(kept) == non_empty(text),
{
    match text {
        Some(t) => {
            if t.as_str().is_empty() {
                None
            } else {
                Some(t)
            }
        },
        None => None,
    }
}

/// The message that a row stands for, given the time read from its text. A
/// role that is not known reads as the user's, and an empty model name as
/// none.
pub fn message_from_row(row: MessageRow, created: Option<i64>) -> (m: Message)
    ensures
        m.id == Some(row.id),
        m.conversation_id == row.conversation_id,
        m.role == (if row.role@ == "assistant"@ {
            MessageRole::Assistant
        } else if row.role@ == "system"@ {
            MessageRole::System
        } else {
            MessageRole::User
        }),
        m.content == row.content,
        m.created_at == time_or_epoch(created),
        m.tokens_used == row.tokens_used,
        text_view(m.model_used) == non_empty(row.model_used),
{
    Message {
        id: Some(row.id),
        conversation_id: row.conversation_id,
        role: MessageRole::from_stored(row.role.as_str()),
        content: row.content,
        created_at: match created {
            Some(millis) => millis,
            None => 0,
        },
        tokens_used: row.tokens_used,
        model_used: keep_non_empty(row.model_used),
    }
}

/// The persona that a row stands for, given the times read from its texts.
/// An empty description reads as none.
pub fn persona_from_row(row: PersonaRow, created: Option<i64>, updated: Option<i64>) -> (p: Persona)
    ensures
        p.id == Some(row.id),
        p.name == row.name,
        text_view(p.description) == non_empty(row.description),
        p.system_prompt == row.system_prompt,
        p.avatar_path == row.avatar_path,
        p.created_at == time_or_epoch(created),
        p.updated_at == time_or_epoch(updated),
        p.active == row.active,
{
    Persona {
        id: Some(row.id),
        name: row.name,
        description: keep_non_empty(row.description),
        system_prompt: row.system_prompt,
        avatar_path: row.avatar_path,
        created_at: match created {
            Some(millis) => millis,
            None => 0,
        },
        updated_at: match updated {
            Some(millis) => millis,
            None => 0,
        },
        active: row.active,
    }
}

/// The assignments of a persona update: one for each field that is given,
/// in the order name, description, system prompt, then the time of update.
pub open spec fn persona_assignments(
    name: Option<String>,
    description: Option<String>,
    system_prompt: Option<String>,
) -> Seq<Seq<char>> {
    Seq::<Seq<char>>::empty() + if_present(name is Some, "name = ?"@) + if_present(
        description is Some,
        "description = ?"@,
    ) + if_present(system_prompt is Some, "system_prompt = ?"@) + seq!["updated_at = ?"@]
}

/// The placeholder values of a persona update: the given fields in the same
/// order, the time of update, then the identifier.
pub open spec fn persona_update_values(
    id: i64,
    name: Option<String>,
    description: Option<String>,
    system_prompt: Option<String>,
    stamp: Seq<char>,
) -> Seq<SqlParamView> {
    Seq::<SqlParamView>::empty() + if_present(name is Some, SqlParamView::Text(name->0@)) + if_present(
        description is Some,
        SqlParamView::Text(description->0@),
    ) + if_present(system_prompt is Some, SqlParamView::Text(system_prompt->0@)) + seq![
        SqlParamView::Text(stamp),
        SqlParamView::Integer(id as int),
    ]
}

/// Whether a persona update changes anything.
pub open spec fn changes_persona(
    name: Option<String>,
    description: Option<String>,
    system_prompt: Option<String>,
) -> bool {
    name is Some || description is Some || system_prompt is Some
}

/// Builds the statement that changes the given fields of a persona, or
/// `None` when no field is given.
pub fn build_persona_update(
    id: i64,
    name: Option<String>,
    description: Option<String>,
    system_prompt: Option<String>,
    stamp: String,
) -> (update: Option<SearchQuery>)
    ensures
        update is Some <==> changes_persona(name, description, system_prompt),
        update matches Some(q) ==> q.sql@ == "UPDATE personas SET "@ + join_with(
            persona_assignments(name, description, system_prompt),
            ", "@,
        ) + " WHERE id = ?"@ && param_views(q.params@) == persona_update_values(
            id,
            name,
            description,
            system_prompt,
            stamp@,
        ),
{
    if name.is_none() && description.is_none() && system_prompt.is_none() {
        return None;
    }
    let mut parts: Vec<&'static str> = Vec::new();
    let mut params: Vec<SqlParam> = Vec::new();
    assert(slices(parts@) =~= Seq::<Seq<char>>::empty());
    assert(param_views(params@) =~= Seq::<SqlParamView>::empty());
    let name_value = match name {
        Some(t) => Some(SqlParam::Text(t)),
        None => None,
    };
    push_condition(&mut parts, &mut params, "name = ?", name_value);
    let description_value = match description {
        Some(t) => Some(SqlParam::Text(t)),
        None => None,
    };
    push_condition(&mut parts, &mut params, "description = ?", description_value);
    let prompt_value = match system_prompt {
        Some(t) => Some(SqlParam::Text(t)),
        None => None,
    };
    push_condition(&mut parts, &mut params, "system_prompt = ?", prompt_value);
    let ghost before_parts = slices(parts@);
    let ghost before_params = param_views(params@);
    parts.push("updated_at = ?");
    params.push(SqlParam::Text(stamp));
    params.push(SqlParam::Integer(id));
    assert(slices(parts@) =~= before_parts + seq!["updated_at = ?"@]);
    assert(param_views(params@) =~= before_params + seq![
        SqlParamView::Text(stamp@),
        SqlParamView::Integer(id as int),
    ]);
    let assignments = join_slices(&parts, ", ");
    let sql = join3("UPDATE personas SET ", assignments.as_str(), " WHERE id = ?");
    Some(SearchQuery { sql, params })
}

/// Character profiles.
pub struct PersonaService {
    db: Arc<DatabaseManager>,
}

impl PersonaService {
    /// The database that the service works on.
    pub closed spec fn database(&self) -> Arc<DatabaseManager> {
        self.db
    }

    /// A service on the given database.
    pub fn new(db: Arc<DatabaseManager>) -> (service: Self)
        ensures
            service.database() == db,
    {
        PersonaService { db }
    }

    /// Stores a new persona and returns it with the identifier that the
    /// database assigned. The engine is handed [`insert_persona`].
    pub fn create_persona(&self, name: String, description: Option<String>, system_prompt: String) -> (r:
        AppResult<Persona>)
        ensures
            r matches Ok(p) ==> p.id is Some && p.name@ == name@ && p.description == description
                && p.system_prompt@ == system_prompt@ && p.active && p.created_at == p.updated_at,
            r matches Err(e) ==> e.spec_kind() == ErrorKind::Database || e.is(
                ErrorKind::Validation,
                "Timestamp is out of range"@,
            ),
    {
        let now = wall_clock_millis();
        let stamp = match stored_time(now) {
            Ok(text) => text,
            Err(e) => {
                return Err(e);
            },
        };
        let conn = match self.db.get_connection() {
            Ok(conn) => conn,
            Err(e) => {
                return Err(e);
            },
        };
        let insert = insert_persona(
            name.clone(),
            description.clone(),
            system_prompt.clone(),
            stamp,
        );
        match execute_on(&conn, insert.sql.as_str(), &insert.params) {
            Ok(_) => {},
            Err(e) => {
                return Err(e);
            },
        }
        let mut persona = Persona::created(name, description, system_prompt, now);
        persona.id = Some(last_insert_rowid(&conn));
        Ok(persona)
    }

    /// Runs a statement that selects personas and collects them.
    fn collect(&self, sql: &str, params: &Vec<SqlParam>) -> (r: AppResult<Vec<Persona>>)
        ensures
            r matches Ok(list) ==> forall|i: int|
                0 <= i < list@.len() ==> (#[trigger] list@[i]).id is Some,
            r matches Err(e) ==> e.spec_kind() == ErrorKind::Database,
    {
        let conn = match self.db.get_connection() {
            Ok(conn) => conn,
            Err(e) => {
                return Err(e);
            },
        };
        let mut stmt = match prepare(&conn, sql) {
            Ok(stmt) => stmt,
            Err(e) => {
                return Err(AppError::from(e));
            },
        };
        let mut rows = match query(&mut stmt, params) {
            Ok(rows) => rows,
            Err(e) => {
                return Err(AppError::from(e));
            },
        };
        let mut list: Vec<Persona> = Vec::new();
        while list.len() < usize::MAX
            invariant
                forall|i: int| 0 <= i < list@.len() ==> (#[trigger] list@[i]).id is Some,
            decreases usize::MAX - list.len(),
        {
            match next_persona_row(&mut rows) {
                Err(e) => {
                    return Err(AppError::from(e));
                },
                Ok(None) => {
                    return Ok(list);
                },
                Ok(Some(row)) => {
                    let created = parse_rfc3339(row.created_at.as_str());
                    let updated = parse_rfc3339(row.updated_at.as_str());
                    list.push(persona_from_row(row, created, updated));
                },
            }
        }
        Ok(list)
    }

    /// The active personas, by name. The engine is handed
    /// [`select_personas`].
    pub fn get_personas(&self) -> (r: AppResult<Vec<Persona>>)
        ensures
            r matches Ok(list) ==> forall|i: int|
                0 <= i < list@.len() ==> (#[trigger] list@[i]).id is Some,
            r matches Err(e) ==> e.spec_kind() == ErrorKind::Database,
    {
        let select = select_personas();
        self.collect(select.sql.as_str(), &select.params)
    }

    /// The persona with this identifier, or `None` if there is none. The
    /// engine is handed [`select_persona`].
    pub fn get_persona(&self, id: i64) -> (r: AppResult<Option<Persona>>)
        ensures
            r matches Ok(Some(p)) ==> p.id is Some,
            r matches Err(e) ==> e.spec_kind() == ErrorKind::Database,
    {
        let select = select_persona(id);
        match self.collect(select.sql.as_str(), &select.params) {
            Ok(mut list) => {
                if list.len() == 0 {
                    Ok(None)
                } else {
                    let first = list.swap_remove(0);
                    Ok(Some(first))
                }
            },
            Err(e) => Err(e),
        }
    }

    /// Changes the given fields of a persona and notes it as updated; with
    /// no field given nothing is done. The engine is handed
    /// [`build_persona_update`].
    pub fn update_persona(
        &self,
        id: i64,
        name: Option<String>,
        description: Option<String>,
        system_prompt: Option<String>,
    ) -> (r: AppResult<()>)
        ensures
            !changes_persona(name, description, system_prompt) ==> r is Ok,
            r matches Err(e) ==> e.spec_kind() == ErrorKind::Database || e.is(
                ErrorKind::Validation,
                "Timestamp is out of range"@,
            ),
    {
        if name.is_none() && description.is_none() && system_prompt.is_none() {
            return Ok(());
        }
        let stamp = match stored_time(wall_clock_millis()) {
            Ok(text) => text,
            Err(e) => {
                return Err(e);
            },
        };
        match build_persona_update(id, name, description, system_prompt, stamp) {
            None => Ok(()),
            Some(update) => {
                let conn = match self.db.get_connection() {
                    Ok(conn) => conn,
                    Err(e) => {
                        return Err(e);
                    },
                };
                match execute_on(&conn, update.sql.as_str(), &update.params) {
                    Ok(_) => Ok(()),
                    Err(e) => Err(e),
                }
            },
        }
    }

    /// Deletes a persona. The engine is handed [`remove_persona`].
    pub fn delete_persona(&self, id: i64) -> (r: AppResult<()>)
        ensures
            r matches Err(e) ==> e.spec_kind() == ErrorKind::Database,
    {
        let conn = match self.db.get_connection() {
            Ok(conn) => conn,
            Err(e) => {
                return Err(e);
            },
        };
        let delete = remove_persona(id);
        match execute_on(&conn, delete.sql.as_str(), &delete.params) {
            Ok(_) => Ok(()),
            Err(e) => Err(e),
        }
    }
}

/// Configurations of model services, one per provider.
pub struct ApiService {
    db: Arc<DatabaseManager>,
}

impl ApiService {
    /// The database that the service works on.
    pub closed spec fn database(&self) -> Arc<DatabaseManager> {
        self.db
    }

    /// A service on the given database.
    pub fn new(db: Arc<DatabaseManager>) -> (service: Self)
        ensures
            service.database() == db,
    {
        ApiService { db }
    }

    /// Stores the key and the address of a provider, replacing what is
    /// there. The engine is handed [`replace_api_config`].
    pub fn store_api_config(&self, provider: String, api_key: String, base_url: Option<String>) -> (r:
        AppResult<()>)
        ensures
            r matches Err(e) ==> e.spec_kind() == ErrorKind::Database || e.is(
                ErrorKind::Validation,
                "Timestamp is out of range"@,
            ),
    {
        let stamp = match stored_time(wall_clock_millis()) {
            Ok(text) => text,
            Err(e) => {
                return Err(e);
            },
        };
        let conn = match self.db.get_connection() {
            Ok(conn) => conn,
            Err(e) => {
                return Err(e);
            },
        };
        let store = replace_api_config(provider, api_key, base_url, stamp);
        match execute_on(&conn, store.sql.as_str(), &store.params) {
            Ok(_) => Ok(()),
            Err(e) => Err(e),
        }
    }

    /// The key and the address of a provider, or `None` if the provider has
    /// no active configuration. An empty address reads as none. The engine
    /// is handed [`select_api_config`].
    pub fn get_api_config(&self, provider: &str) -> (r: AppResult<Option<(String, Option<String>)>>)
        ensures
            r matches Ok(Some(config)) ==> (config.1 matches Some(url) ==> url@.len() > 0),
            r matches Err(e) ==> e.spec_kind() == ErrorKind::Database,
    {
        let conn = match self.db.get_connection() {
            Ok(conn) => conn,
            Err(e) => {
                return Err(e);
            },
        };
        let select = select_api_config(provider);
        let mut stmt = match prepare(&conn, select.sql.as_str()) {
            Ok(stmt) => stmt,
            Err(e) => {
                return Err(AppError::from(e));
            },
        };
        let mut rows = match query(&mut stmt, &select.params) {
            Ok(rows) => rows,
            Err(e) => {
                return Err(AppError::from(e));
            },
        };
        match next_text_pair(&mut rows) {
            Err(e) => Err(AppError::from(e)),
            Ok(None) => Ok(None),
            Ok(Some(pair)) => {
                let base_url = keep_non_empty(pair.1);
                Ok(Some((pair.0, base_url)))
            },
        }
    }

    /// Switches the configuration of a provider off. The engine is handed
    /// [`deactivate_api_config`].
    pub fn delete_api_config(&self, provider: &str) -> (r: AppResult<()>)
        ensures
            r matches Err(e) ==> e.spec_kind() == ErrorKind::Database || e.is(
                ErrorKind::Validation,
                "Timestamp is out of range"@,
            ),
    {
        let stamp = match stored_time(wall_clock_millis()) {
            Ok(text) => text,
            Err(e) => {
                return Err(e);
            },
        };
        let conn = match self.db.get_connection() {
            Ok(conn) => conn,
            Err(e) => {
                return Err(e);
            },
        };
        let update = deactivate_api_config(provider, stamp);
        match execute_on(&conn, update.sql.as_str(), &update.params) {
            Ok(_) => Ok(()),
            Err(e) => Err(e),
        }
    }
}

/// The services, sharing one database manager.
pub struct Services {
    pub conversations: ConversationService,
    pub personas: PersonaService,
    pub apis: ApiService,
}

/// Trusted: `Arc::clone`, another pointer to the same database manager.
#[verifier::external_body]
fn share(db: &Arc<DatabaseManager>) -> (shared: Arc<DatabaseManager>)
    ensures
        shared == *db,
{
    db.clone()
}

impl Services {
    /// The services on the given database: all three work on the one
    /// manager that is given.
    pub fn new(db: Arc<DatabaseManager>) -> (services: Self)
        ensures
            services.conversations.database() == db,
            services.personas.database() == db,
            services.apis.database() == db,
    {
        Services {
            conversations: ConversationService::new(share(&db)),
            personas: PersonaService::new(share(&db)),
            apis: ApiService::new(db),
        }
    }
}

} // verus!
