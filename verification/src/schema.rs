//! The database schema: base tables, indices, full-text shadow tables and the
//! triggers that keep the shadow tables in step with the base tables.
//!
//! Every creating statement is idempotent (`IF NOT EXISTS`), so each list can
//! be run on a database any number of times.

use vstd::prelude::*;
use crate::errors::{AppError, AppResult, ErrorKind};
use crate::sqlite::execute;
use crate::text::join2;

verus! {
pub const CREATE_CONVERSATIONS_TABLE: &'static str =
    "CREATE TABLE IF NOT EXISTS conversations (
                id INTEGER PRIMARY KEY AUTOINCREMENT,
                uuid TEXT NOT NULL UNIQUE,
                title TEXT NOT NULL,
                persona_id TEXT,
                created_at DATETIME DEFAULT CURRENT_TIMESTAMP,
                updated_at DATETIME DEFAULT CURRENT_TIMESTAMP,
                archived BOOLEAN DEFAULT FALSE,
                metadata TEXT,
                FOREIGN KEY (persona_id) REFERENCES personas (id)
            );";
pub const CREATE_MESSAGES_TABLE: &'static str =
    "CREATE TABLE IF NOT EXISTS messages (
                id TEXT PRIMARY KEY,
                conversation_id TEXT NOT NULL,
                role TEXT NOT NULL CHECK (role IN ('user', 'assistant', 'system')),
                content TEXT NOT NULL,
                timestamp DATETIME DEFAULT CURRENT_TIMESTAMP,
                tokens_used INTEGER DEFAULT 0,
                model_used TEXT,
                metadata TEXT,
                FOREIGN KEY (conversation_id) REFERENCES conversations (id) ON DELETE CASCADE
            );";
pub const CREATE_PERSONAS_TABLE: &'static str =
    "CREATE TABLE IF NOT EXISTS personas (
                id TEXT PRIMARY KEY,
                name TEXT NOT NULL UNIQUE,
                description TEXT,
                system_prompt TEXT NOT NULL,
                avatar_path TEXT,
                created_at DATETIME DEFAULT CURRENT_TIMESTAMP,
                updated_at DATETIME DEFAULT CURRENT_TIMESTAMP,
                active BOOLEAN DEFAULT TRUE,
                preferences TEXT
            );";
pub const CREATE_GRIMOIRE_ENTRIES_TABLE: &'static str =
    "CREATE TABLE IF NOT EXISTS grimoire_entries (
                id TEXT PRIMARY KEY,
                title TEXT NOT NULL,
                content TEXT NOT NULL,
                category TEXT,
                tags TEXT,
                created_at DATETIME DEFAULT CURRENT_TIMESTAMP,
                updated_at DATETIME DEFAULT CURRENT_TIMESTAMP,
                accessed_count INTEGER DEFAULT 0,
                last_accessed DATETIME,
                encrypted BOOLEAN DEFAULT FALSE
            );";
pub const CREATE_API_CONFIGS_TABLE: &'static str =
    "CREATE TABLE IF NOT EXISTS api_configs (
                id TEXT PRIMARY KEY,
                provider TEXT NOT NULL,
                api_key TEXT NOT NULL,
                base_url TEXT,
                model_preferences TEXT,
                rate_limits TEXT,
                created_at DATETIME DEFAULT CURRENT_TIMESTAMP,
                updated_at DATETIME DEFAULT CURRENT_TIMESTAMP,
                active BOOLEAN DEFAULT TRUE
            );";
pub const CREATE_PROJECTS_TABLE: &'static str =
    "CREATE TABLE IF NOT EXISTS projects (
                id TEXT PRIMARY KEY,
                name TEXT NOT NULL,
                description TEXT,
                repository_url TEXT,
                status TEXT DEFAULT 'active',
                created_at DATETIME DEFAULT CURRENT_TIMESTAMP,
                updated_at DATETIME DEFAULT CURRENT_TIMESTAMP,
                metadata TEXT
            );";
pub const CREATE_IDX_CONVERSATIONS_PERSONA: &'static str =
    "CREATE INDEX IF NOT EXISTS idx_conversations_persona ON conversations(persona_id);";
pub const CREATE_IDX_MESSAGES_CONVERSATION: &'static str =
    "CREATE INDEX IF NOT EXISTS idx_messages_conversation ON messages(conversation_id);";
pub const CREATE_IDX_MESSAGES_TIMESTAMP: &'static str =
    "CREATE INDEX IF NOT EXISTS idx_messages_timestamp ON messages(timestamp);";
pub const CREATE_IDX_GRIMOIRE_CATEGORY: &'static str =
    "CREATE INDEX IF NOT EXISTS idx_grimoire_category ON grimoire_entries(category);";
pub const CREATE_IDX_GRIMOIRE_TAGS: &'static str =
    "CREATE INDEX IF NOT EXISTS idx_grimoire_tags ON grimoire_entries(tags);";
pub const CREATE_CONVERSATIONS_FTS: &'static str =
    "CREATE VIRTUAL TABLE IF NOT EXISTS conversations_fts USING fts5(
            conversation_id UNINDEXED,
            title,
            metadata,
            tokenize = 'porter unicode61'
        )";
pub const CREATE_MESSAGES_FTS: &'static str =
    "CREATE VIRTUAL TABLE IF NOT EXISTS messages_fts USING fts5(
            message_id UNINDEXED,
            conversation_id UNINDEXED,
            content,
            role UNINDEXED,
            tokenize = 'porter unicode61'
        )";
pub const CREATE_TRIGGER_CONVERSATIONS_AI: &'static str =
    "CREATE TRIGGER IF NOT EXISTS conversations_ai AFTER INSERT ON conversations BEGIN
            INSERT INTO conversations_fts(conversation_id, title, metadata)
            VALUES (new.id, new.title, new.metadata);
        END";
pub const CREATE_TRIGGER_CONVERSATIONS_AU: &'static str =
    "CREATE TRIGGER IF NOT EXISTS conversations_au AFTER UPDATE ON conversations BEGIN
            UPDATE conversations_fts
            SET title = new.title, metadata = new.metadata
            WHERE conversation_id = new.id;
        END";
pub const CREATE_TRIGGER_CONVERSATIONS_AD: &'static str =
    "CREATE TRIGGER IF NOT EXISTS conversations_ad AFTER DELETE ON conversations BEGIN
            DELETE FROM conversations_fts WHERE conversation_id = old.id;
        END";
pub const CREATE_TRIGGER_MESSAGES_AI: &'static str =
    "CREATE TRIGGER IF NOT EXISTS messages_ai AFTER INSERT ON messages BEGIN
            INSERT INTO messages_fts(message_id, conversation_id, content, role)
            VALUES (new.id, new.conversation_id, new.content, new.role);
        END";
pub const CREATE_TRIGGER_MESSAGES_AU: &'static str =
    "CREATE TRIGGER IF NOT EXISTS messages_au AFTER UPDATE ON messages BEGIN
            UPDATE messages_fts
            SET content = new.content, role = new.role
            WHERE message_id = new.id;
        END";
pub const CREATE_TRIGGER_MESSAGES_AD: &'static str =
    "CREATE TRIGGER IF NOT EXISTS messages_ad AFTER DELETE ON messages BEGIN
            DELETE FROM messages_fts WHERE message_id = old.id;
        END";
pub const CLEAR_CONVERSATIONS_FTS: &'static str =
    "DELETE FROM conversations_fts";
pub const CLEAR_MESSAGES_FTS: &'static str =
    "DELETE FROM messages_fts";
pub const FILL_CONVERSATIONS_FTS: &'static str =
    "INSERT INTO conversations_fts(conversation_id, title, metadata)
         SELECT id, title, metadata FROM conversations";
pub const FILL_MESSAGES_FTS: &'static str =
    "INSERT INTO messages_fts(message_id, conversation_id, content, role)
         SELECT id, conversation_id, content, role FROM messages";
pub const OPTIMIZE_CONVERSATIONS_FTS: &'static str =
    "INSERT INTO conversations_fts(conversations_fts) VALUES('optimize')";
pub const OPTIMIZE_MESSAGES_FTS: &'static str =
    "INSERT INTO messages_fts(messages_fts) VALUES('optimize')";
pub const CREATE_IDX_CONVERSATIONS_ARCHIVED: &'static str =
    "CREATE INDEX IF NOT EXISTS idx_conversations_archived ON conversations(archived) WHERE archived = FALSE;";
pub const CREATE_IDX_CONVERSATIONS_CREATED_AT: &'static str =
    "CREATE INDEX IF NOT EXISTS idx_conversations_created_at ON conversations(created_at);";
pub const CREATE_IDX_CONVERSATIONS_UPDATED_AT: &'static str =
    "CREATE INDEX IF NOT EXISTS idx_conversations_updated_at ON conversations(updated_at);";
pub const CREATE_IDX_MESSAGES_ROLE: &'static str =
    "CREATE INDEX IF NOT EXISTS idx_messages_role ON messages(role);";
pub const CREATE_IDX_MESSAGES_TOKENS_USED: &'static str =
    "CREATE INDEX IF NOT EXISTS idx_messages_tokens_used ON messages(tokens_used);";
pub const CREATE_IDX_MESSAGES_MODEL_USED: &'static str =
    "CREATE INDEX IF NOT EXISTS idx_messages_model_used ON messages(model_used);";
pub const CREATE_IDX_PERSONAS_NAME: &'static str =
    "CREATE INDEX IF NOT EXISTS idx_personas_name ON personas(name);";
pub const CREATE_IDX_PERSONAS_ACTIVE: &'static str =
    "CREATE INDEX IF NOT EXISTS idx_personas_active ON personas(active) WHERE active = TRUE;";
pub const CREATE_IDX_GRIMOIRE_LAST_ACCESSED: &'static str =
    "CREATE INDEX IF NOT EXISTS idx_grimoire_last_accessed ON grimoire_entries(last_accessed);";
pub const CREATE_IDX_GRIMOIRE_ACCESSED_COUNT: &'static str =
    "CREATE INDEX IF NOT EXISTS idx_grimoire_accessed_count ON grimoire_entries(accessed_count);";
pub const CREATE_IDX_API_CONFIGS_PROVIDER: &'static str =
    "CREATE INDEX IF NOT EXISTS idx_api_configs_provider ON api_configs(provider);";
pub const CREATE_IDX_API_CONFIGS_ACTIVE: &'static str =
    "CREATE INDEX IF NOT EXISTS idx_api_configs_active ON api_configs(active) WHERE active = TRUE;";
pub const CREATE_IDX_MESSAGES_CONVERSATION_TIMESTAMP: &'static str =
    "CREATE INDEX IF NOT EXISTS idx_messages_conversation_timestamp
         ON messages(conversation_id, timestamp);";
pub const CREATE_IDX_CONVERSATIONS_PERSONA_UPDATED: &'static str =
    "CREATE INDEX IF NOT EXISTS idx_conversations_persona_updated
         ON conversations(persona_id, updated_at);";
/// One statement of a schema, with the purpose that is reported if it fails.
#[derive(Clone, Copy, Debug)]
pub struct SchemaStep {
    pub purpose: &'static str,
    pub sql: &'static str,
}

/// The prefix of every schema failure's message.
pub const SCHEMA_FAILED: &'static str = "Schema initialization failed: ";

/// The statements of a list of steps, in order.
pub open spec fn statements(steps: Seq<SchemaStep>) -> Seq<Seq<char>> {
    Seq::new(steps.len(), |i: int| steps[i].sql@)
}

/// The purposes of a list of steps, in order.
pub open spec fn purposes(steps: Seq<SchemaStep>) -> Seq<Seq<char>> {
    Seq::new(steps.len(), |i: int| steps[i].purpose@)
}

/// `e` reports that one of `steps` failed: a database error that names the
/// purpose of a step and nothing of its text.
pub open spec fn is_schema_failure(e: AppError, steps: Seq<SchemaStep>) -> bool {
    exists|k: int|
        0 <= k < steps.len() && e.is(
            ErrorKind::Database,
            SCHEMA_FAILED@ + (#[trigger] steps[k]).purpose@,
        )
}
/// The base tables: conversations, messages, personas, and the auxiliary
/// tables for knowledge entries, provider configurations and projects.
pub open spec fn spec_base_tables() -> Seq<SchemaStep> {
    seq![
        (SchemaStep { purpose: "create table conversations", sql: CREATE_CONVERSATIONS_TABLE }),
        (SchemaStep { purpose: "create table messages", sql: CREATE_MESSAGES_TABLE }),
        (SchemaStep { purpose: "create table personas", sql: CREATE_PERSONAS_TABLE }),
        (SchemaStep { purpose: "create table grimoire_entries", sql: CREATE_GRIMOIRE_ENTRIES_TABLE }),
        (SchemaStep { purpose: "create table api_configs", sql: CREATE_API_CONFIGS_TABLE }),
        (SchemaStep { purpose: "create table projects", sql: CREATE_PROJECTS_TABLE }),
    ]
}

/// The base tables: conversations, messages, personas, and the auxiliary
/// tables for knowledge entries, provider configurations and projects.
pub fn base_tables() -> (steps: Vec<SchemaStep>)
    ensures
        steps@ == spec_base_tables(),
{
    let mut steps: Vec<SchemaStep> = Vec::new();
    steps.push(SchemaStep { purpose: "create table conversations", sql: CREATE_CONVERSATIONS_TABLE });
    steps.push(SchemaStep { purpose: "create table messages", sql: CREATE_MESSAGES_TABLE });
    steps.push(SchemaStep { purpose: "create table personas", sql: CREATE_PERSONAS_TABLE });
    steps.push(SchemaStep { purpose: "create table grimoire_entries", sql: CREATE_GRIMOIRE_ENTRIES_TABLE });
    steps.push(SchemaStep { purpose: "create table api_configs", sql: CREATE_API_CONFIGS_TABLE });
    steps.push(SchemaStep { purpose: "create table projects", sql: CREATE_PROJECTS_TABLE });
    assert(steps@ =~= spec_base_tables());
    steps
}

/// The secondary indices for listing conversations and messages.
pub open spec fn spec_performance_indices() -> Seq<SchemaStep> {
    seq![
        (SchemaStep { purpose: "create index idx_conversations_persona", sql: CREATE_IDX_CONVERSATIONS_PERSONA }),
        (SchemaStep { purpose: "create index idx_messages_conversation", sql: CREATE_IDX_MESSAGES_CONVERSATION }),
        (SchemaStep { purpose: "create index idx_messages_timestamp", sql: CREATE_IDX_MESSAGES_TIMESTAMP }),
        (SchemaStep { purpose: "create index idx_grimoire_category", sql: CREATE_IDX_GRIMOIRE_CATEGORY }),
        (SchemaStep { purpose: "create index idx_grimoire_tags", sql: CREATE_IDX_GRIMOIRE_TAGS }),
    ]
}

/// The secondary indices for listing conversations and messages.
pub fn performance_indices() -> (steps: Vec<SchemaStep>)
    ensures
        steps@ == spec_performance_indices(),
{
    let mut steps: Vec<SchemaStep> = Vec::new();
    steps.push(SchemaStep { purpose: "create index idx_conversations_persona", sql: CREATE_IDX_CONVERSATIONS_PERSONA });
    steps.push(SchemaStep { purpose: "create index idx_messages_conversation", sql: CREATE_IDX_MESSAGES_CONVERSATION });
    steps.push(SchemaStep { purpose: "create index idx_messages_timestamp", sql: CREATE_IDX_MESSAGES_TIMESTAMP });
    steps.push(SchemaStep { purpose: "create index idx_grimoire_category", sql: CREATE_IDX_GRIMOIRE_CATEGORY });
    steps.push(SchemaStep { purpose: "create index idx_grimoire_tags", sql: CREATE_IDX_GRIMOIRE_TAGS });
    assert(steps@ =~= spec_performance_indices());
    steps
}

/// The two full-text shadow tables, then the six triggers (insert, update,
/// delete on each base table) that keep them in step with the base tables.
pub open spec fn spec_shadow_schema() -> Seq<SchemaStep> {
    seq![
        (SchemaStep { purpose: "create shadow table conversations_fts", sql: CREATE_CONVERSATIONS_FTS }),
        (SchemaStep { purpose: "create shadow table messages_fts", sql: CREATE_MESSAGES_FTS }),
        (SchemaStep { purpose: "create trigger conversations_ai", sql: CREATE_TRIGGER_CONVERSATIONS_AI }),
        (SchemaStep { purpose: "create trigger conversations_au", sql: CREATE_TRIGGER_CONVERSATIONS_AU }),
        (SchemaStep { purpose: "create trigger conversations_ad", sql: CREATE_TRIGGER_CONVERSATIONS_AD }),
        (SchemaStep { purpose: "create trigger messages_ai", sql: CREATE_TRIGGER_MESSAGES_AI }),
        (SchemaStep { purpose: "create trigger messages_au", sql: CREATE_TRIGGER_MESSAGES_AU }),
        (SchemaStep { purpose: "create trigger messages_ad", sql: CREATE_TRIGGER_MESSAGES_AD }),
    ]
}

/// The two full-text shadow tables, then the six triggers (insert, update,
/// delete on each base table) that keep them in step with the base tables.
pub fn shadow_schema() -> (steps: Vec<SchemaStep>)
    ensures
        steps@ == spec_shadow_schema(),
{
    let mut steps: Vec<SchemaStep> = Vec::new();
    steps.push(SchemaStep { purpose: "create shadow table conversations_fts", sql: CREATE_CONVERSATIONS_FTS });
    steps.push(SchemaStep { purpose: "create shadow table messages_fts", sql: CREATE_MESSAGES_FTS });
    steps.push(SchemaStep { purpose: "create trigger conversations_ai", sql: CREATE_TRIGGER_CONVERSATIONS_AI });
    steps.push(SchemaStep { purpose: "create trigger conversations_au", sql: CREATE_TRIGGER_CONVERSATIONS_AU });
    steps.push(SchemaStep { purpose: "create trigger conversations_ad", sql: CREATE_TRIGGER_CONVERSATIONS_AD });
    steps.push(SchemaStep { purpose: "create trigger messages_ai", sql: CREATE_TRIGGER_MESSAGES_AI });
    steps.push(SchemaStep { purpose: "create trigger messages_au", sql: CREATE_TRIGGER_MESSAGES_AU });
    steps.push(SchemaStep { purpose: "create trigger messages_ad", sql: CREATE_TRIGGER_MESSAGES_AD });
    assert(steps@ =~= spec_shadow_schema());
    steps
}

/// A full rebuild of the shadow tables: clear both, fill both from the base
/// tables, then compact both indices.
pub open spec fn spec_rebuild_steps() -> Seq<SchemaStep> {
    seq![
        (SchemaStep { purpose: "clear shadow table conversations_fts", sql: CLEAR_CONVERSATIONS_FTS }),
        (SchemaStep { purpose: "clear shadow table messages_fts", sql: CLEAR_MESSAGES_FTS }),
        (SchemaStep { purpose: "fill shadow table conversations_fts", sql: FILL_CONVERSATIONS_FTS }),
        (SchemaStep { purpose: "fill shadow table messages_fts", sql: FILL_MESSAGES_FTS }),
        (SchemaStep { purpose: "optimize shadow table conversations_fts", sql: OPTIMIZE_CONVERSATIONS_FTS }),
        (SchemaStep { purpose: "optimize shadow table messages_fts", sql: OPTIMIZE_MESSAGES_FTS }),
    ]
}

/// A full rebuild of the shadow tables: clear both, fill both from the base
/// tables, then compact both indices.
pub fn rebuild_steps() -> (steps: Vec<SchemaStep>)
    ensures
        steps@ == spec_rebuild_steps(),
{
    let mut steps: Vec<SchemaStep> = Vec::new();
    steps.push(SchemaStep { purpose: "clear shadow table conversations_fts", sql: CLEAR_CONVERSATIONS_FTS });
    steps.push(SchemaStep { purpose: "clear shadow table messages_fts", sql: CLEAR_MESSAGES_FTS });
    steps.push(SchemaStep { purpose: "fill shadow table conversations_fts", sql: FILL_CONVERSATIONS_FTS });
    steps.push(SchemaStep { purpose: "fill shadow table messages_fts", sql: FILL_MESSAGES_FTS });
    steps.push(SchemaStep { purpose: "optimize shadow table conversations_fts", sql: OPTIMIZE_CONVERSATIONS_FTS });
    steps.push(SchemaStep { purpose: "optimize shadow table messages_fts", sql: OPTIMIZE_MESSAGES_FTS });
    assert(steps@ =~= spec_rebuild_steps());
    steps
}

/// Further indices for filtered search and for the common listings.
pub open spec fn spec_additional_indices() -> Seq<SchemaStep> {
    seq![
        (SchemaStep { purpose: "create index idx_conversations_archived", sql: CREATE_IDX_CONVERSATIONS_ARCHIVED }),
        (SchemaStep { purpose: "create index idx_conversations_created_at", sql: CREATE_IDX_CONVERSATIONS_CREATED_AT }),
        (SchemaStep { purpose: "create index idx_conversations_updated_at", sql: CREATE_IDX_CONVERSATIONS_UPDATED_AT }),
        (SchemaStep { purpose: "create index idx_messages_role", sql: CREATE_IDX_MESSAGES_ROLE }),
        (SchemaStep { purpose: "create index idx_messages_tokens_used", sql: CREATE_IDX_MESSAGES_TOKENS_USED }),
        (SchemaStep { purpose: "create index idx_messages_model_used", sql: CREATE_IDX_MESSAGES_MODEL_USED }),
        (SchemaStep { purpose: "create index idx_personas_name", sql: CREATE_IDX_PERSONAS_NAME }),
        (SchemaStep { purpose: "create index idx_personas_active", sql: CREATE_IDX_PERSONAS_ACTIVE }),
        (SchemaStep { purpose: "create index idx_grimoire_last_accessed", sql: CREATE_IDX_GRIMOIRE_LAST_ACCESSED }),
        (SchemaStep { purpose: "create index idx_grimoire_accessed_count", sql: CREATE_IDX_GRIMOIRE_ACCESSED_COUNT }),
        (SchemaStep { purpose: "create index idx_api_configs_provider", sql: CREATE_IDX_API_CONFIGS_PROVIDER }),
        (SchemaStep { purpose: "create index idx_api_configs_active", sql: CREATE_IDX_API_CONFIGS_ACTIVE }),
        (SchemaStep { purpose: "create index idx_messages_conversation_timestamp", sql: CREATE_IDX_MESSAGES_CONVERSATION_TIMESTAMP }),
        (SchemaStep { purpose: "create index idx_conversations_persona_updated", sql: CREATE_IDX_CONVERSATIONS_PERSONA_UPDATED }),
    ]
}

/// Further indices for filtered search and for the common listings.
pub fn additional_indices() -> (steps: Vec<SchemaStep>)
    ensures
        steps@ == spec_additional_indices(),
{
    let mut steps: Vec<SchemaStep> = Vec::new();
    steps.push(SchemaStep { purpose: "create index idx_conversations_archived", sql: CREATE_IDX_CONVERSATIONS_ARCHIVED });
    steps.push(SchemaStep { purpose: "create index idx_conversations_created_at", sql: CREATE_IDX_CONVERSATIONS_CREATED_AT });
    steps.push(SchemaStep { purpose: "create index idx_conversations_updated_at", sql: CREATE_IDX_CONVERSATIONS_UPDATED_AT });
    steps.push(SchemaStep { purpose: "create index idx_messages_role", sql: CREATE_IDX_MESSAGES_ROLE });
    steps.push(SchemaStep { purpose: "create index idx_messages_tokens_used", sql: CREATE_IDX_MESSAGES_TOKENS_USED });
    steps.push(SchemaStep { purpose: "create index idx_messages_model_used", sql: CREATE_IDX_MESSAGES_MODEL_USED });
    steps.push(SchemaStep { purpose: "create index idx_personas_name", sql: CREATE_IDX_PERSONAS_NAME });
    steps.push(SchemaStep { purpose: "create index idx_personas_active", sql: CREATE_IDX_PERSONAS_ACTIVE });
    steps.push(SchemaStep { purpose: "create index idx_grimoire_last_accessed", sql: CREATE_IDX_GRIMOIRE_LAST_ACCESSED });
    steps.push(SchemaStep { purpose: "create index idx_grimoire_accessed_count", sql: CREATE_IDX_GRIMOIRE_ACCESSED_COUNT });
    steps.push(SchemaStep { purpose: "create index idx_api_configs_provider", sql: CREATE_IDX_API_CONFIGS_PROVIDER });
    steps.push(SchemaStep { purpose: "create index idx_api_configs_active", sql: CREATE_IDX_API_CONFIGS_ACTIVE });
    steps.push(SchemaStep { purpose: "create index idx_messages_conversation_timestamp", sql: CREATE_IDX_MESSAGES_CONVERSATION_TIMESTAMP });
    steps.push(SchemaStep { purpose: "create index idx_conversations_persona_updated", sql: CREATE_IDX_CONVERSATIONS_PERSONA_UPDATED });
    assert(steps@ =~= spec_additional_indices());
    steps
}

/// The error for a step that the engine refused: a database error that
/// carries the step's purpose, and neither its statement nor the engine's
/// message.
pub fn step_failure(step: &SchemaStep) -> (e: AppError)
    ensures
        e.is(ErrorKind::Database, SCHEMA_FAILED@ + step.purpose@),
{
    let message = join2(SCHEMA_FAILED, step.purpose);
    AppError::Database { message }
}

/// Runs the steps in order on `conn` and stops at the first that fails. The
/// failure is reported as a database error that carries the purpose of the
/// failing step, and neither the statement nor the engine's message.
pub fn run_steps(conn: &rusqlite::Connection, steps: &Vec<SchemaStep>) -> (r: AppResult<()>)
    ensures
        r matches Err(e) ==> is_schema_failure(e, steps@),
        steps@.len() == 0 ==> r is Ok,
{
    let mut i: usize = 0;
    while i < steps.len()
        invariant
            i <= steps.len(),
        decreases steps.len() - i,
    {
        match execute(conn, steps[i].sql) {
            Ok(_) => {},
            Err(_) => {
                return Err(step_failure(&steps[i]));
            },
        }
        i += 1;
    }
    Ok(())
}

/// Brings a database to the expected structure: base tables, their indices,
/// then the shadow tables and their triggers. Safe to repeat.
pub fn initialize_schema(conn: &rusqlite::Connection) -> (r: AppResult<()>)
    ensures
        r matches Err(e) ==> is_schema_failure(
            e,
            spec_base_tables() + spec_performance_indices() + spec_shadow_schema(),
        ),
{
    let tables = base_tables();
    let indices = performance_indices();
    let shadow = shadow_schema();
    let ghost all = spec_base_tables() + spec_performance_indices() + spec_shadow_schema();
    match run_steps(conn, &tables) {
        Ok(_) => {},
        Err(e) => {
            proof {
                lemma_failure_in_part(e, tables@, all, 0);
            }
            return Err(e);
        },
    }
    match run_steps(conn, &indices) {
        Ok(_) => {},
        Err(e) => {
            proof {
                lemma_failure_in_part(e, indices@, all, tables@.len() as int);
            }
            return Err(e);
        },
    }
    match run_steps(conn, &shadow) {
        Ok(_) => {},
        Err(e) => {
            proof {
                lemma_failure_in_part(e, shadow@, all, (tables@.len() + indices@.len()) as int);
            }
            return Err(e);
        },
    }
    Ok(())
}

/// A failure of a part of a list is a failure of the list.
proof fn lemma_failure_in_part(e: AppError, part: Seq<SchemaStep>, all: Seq<SchemaStep>, at: int)
    requires
        is_schema_failure(e, part),
        0 <= at,
        at + part.len() <= all.len(),
        all.subrange(at, at + part.len()) =~= part,
    ensures
        is_schema_failure(e, all),
{
    let k = choose|k: int|
        0 <= k < part.len() && e.is(ErrorKind::Database, SCHEMA_FAILED@ + (#[trigger] part[k]).purpose@);
    assert(all[at + k] == all.subrange(at, at + part.len())[k]);
}

/// Creates the full-text shadow tables and the triggers that maintain them.
/// Safe to repeat.
pub fn initialize_fts_tables(conn: &rusqlite::Connection) -> (r: AppResult<()>)
    ensures
        r matches Err(e) ==> is_schema_failure(e, spec_shadow_schema()),
{
    let steps = shadow_schema();
    run_steps(conn, &steps)
}

/// Rebuilds both shadow tables from the base tables in one pass and compacts
/// the indices. For recovery after bulk imports or detected drift; ordinary
/// writes are kept in step by the triggers.
pub fn rebuild_fts_indices(conn: &rusqlite::Connection) -> (r: AppResult<()>)
    ensures
        r matches Err(e) ==> is_schema_failure(e, spec_rebuild_steps()),
{
    let steps = rebuild_steps();
    run_steps(conn, &steps)
}

/// Creates the further indices. Safe to repeat.
pub fn create_additional_indices(conn: &rusqlite::Connection) -> (r: AppResult<()>)
    ensures
        r matches Err(e) ==> is_schema_failure(e, spec_additional_indices()),
{
    let steps = additional_indices();
    run_steps(conn, &steps)
}

} // verus!
