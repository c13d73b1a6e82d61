//! The boundary to SQLite and to the connection pool.
//!
//! Everything in this module that is marked `external_body` is trusted: Verus
//! believes its contract and does not read its body. Each such function makes
//! one call into `rusqlite`, `r2d2` or `r2d2_sqlite` and converts between the
//! library's plain values and the outside types. What a statement does to the
//! database depends on the database, so no contract here speaks of it.

use vstd::prelude::*;
use crate::search::SearchResult;
use crate::services::{ConversationRow, MessageRow, PersonaRow};

verus! {

#[verifier::external_type_specification]
#[verifier::external_body]
pub struct ExConnection(rusqlite::Connection);

#[verifier::external_type_specification]
#[verifier::external_body]
pub struct ExTransaction<'conn>(rusqlite::Transaction<'conn>);

#[verifier::external_type_specification]
#[verifier::external_body]
pub struct ExSavepoint<'conn>(rusqlite::Savepoint<'conn>);

#[verifier::external_type_specification]
#[verifier::external_body]
pub struct ExStatement<'conn>(rusqlite::Statement<'conn>);

#[verifier::external_type_specification]
#[verifier::external_body]
pub struct ExRows<'stmt>(rusqlite::Rows<'stmt>);

#[verifier::external_type_specification]
#[verifier::external_body]
pub struct ExSqliteError(rusqlite::Error);

#[verifier::external_type_specification]
#[verifier::external_body]
pub struct ExPoolError(r2d2::Error);

#[verifier::external_type_specification]
#[verifier::external_body]
pub struct ExSqliteConnectionManager(r2d2_sqlite::SqliteConnectionManager);

/// A bounded pool of SQLite connections (`r2d2::Pool` over
/// `r2d2_sqlite::SqliteConnectionManager`). Opaque to Verus.
#[verifier::external_body]
pub struct ConnectionPool {
    inner: r2d2::Pool<r2d2_sqlite::SqliteConnectionManager>,
}

/// A connection checked out of a [`ConnectionPool`]
/// (`r2d2::PooledConnection`). It goes back to the pool when dropped.
#[verifier::external_body]
pub struct PooledSqliteConnection {
    inner: r2d2::PooledConnection<r2d2_sqlite::SqliteConnectionManager>,
}

/// Trusted: `PooledConnection::deref`, the connection that was checked out.
#[verifier::external_body]
fn pooled_ref(pooled: &PooledSqliteConnection) -> (conn: &rusqlite::Connection) {
    &pooled.inner
}

/// Trusted: `PooledConnection::deref_mut`, the connection that was checked
/// out, for operations that need it exclusively.
#[verifier::external_body]
fn pooled_mut(pooled: &mut PooledSqliteConnection) -> (conn: &mut rusqlite::Connection) {
    &mut pooled.inner
}

impl std::ops::Deref for PooledSqliteConnection {
    type Target = rusqlite::Connection;

    /// The connection that was checked out.
    fn deref(&self) -> (conn: &rusqlite::Connection) {
        pooled_ref(self)
    }
}

impl PooledSqliteConnection {
    /// The connection that was checked out, for operations that need it
    /// exclusively, such as beginning a transaction.
    pub fn connection_mut(&mut self) -> (conn: &mut rusqlite::Connection) {
        pooled_mut(self)
    }
}

/// A value bound to a `?` placeholder of a statement.
#[derive(Debug)]
pub enum SqlParam {
    Null,
    Text(String),
    Integer(i64),
    Flag(bool),
}

/// The plain content of a [`SqlParam`].
pub enum SqlParamView {
    Null,
    Text(Seq<char>),
    Integer(int),
    Flag(bool),
}

impl View for SqlParam {
    type V = SqlParamView;

    open spec fn view(&self) -> SqlParamView {
        match self {
            SqlParam::Null => SqlParamView::Null,
            SqlParam::Text(s) => SqlParamView::Text(s@),
            SqlParam::Integer(i) => SqlParamView::Integer(*i as int),
            SqlParam::Flag(b) => SqlParamView::Flag(*b),
        }
    }
}

/// Trusted: `Connection::execute_batch`, which runs every statement of `sql`
/// and reports the first failure.
#[verifier::external_body]
pub(crate) fn execute_batch(conn: &rusqlite::Connection, sql: &str) -> (r: Result<
    (),
    rusqlite::Error,
>) {
    conn.execute_batch(sql)
}

/// Trusted: `Connection::execute` without parameters, which runs one
/// statement and returns the number of rows it changed.
#[verifier::external_body]
pub(crate) fn execute(conn: &rusqlite::Connection, sql: &str) -> (r: Result<
    usize,
    rusqlite::Error,
>) {
    conn.execute(sql, [])
}

/// Trusted: `Connection::is_autocommit`. SQLite is in autocommit mode exactly
/// when no transaction is open on the connection.
#[verifier::external_body]
pub(crate) fn is_autocommit(conn: &rusqlite::Connection) -> (r: bool) {
    conn.is_autocommit()
}

/// Trusted: `Connection::prepare`.
#[verifier::external_body]
pub(crate) fn prepare<'c>(conn: &'c rusqlite::Connection, sql: &str) -> (r: Result<
    rusqlite::Statement<'c>,
    rusqlite::Error,
>) {
    conn.prepare(sql)
}

/// Trusted: `Statement::query` with the parameters bound in order
/// (`params_from_iter`). Text binds as text, integers as integers, flags as
/// SQLite's 0 and 1, and the null parameter as `NULL`.
#[verifier::external_body]
pub(crate) fn query<'s, 'c>(stmt: &'s mut rusqlite::Statement<'c>, params: &Vec<SqlParam>) -> (r:
    Result<rusqlite::Rows<'s>, rusqlite::Error>) {
    stmt.query(rusqlite::params_from_iter(params.iter().map(|p| match p {
        SqlParam::Null => rusqlite::types::Value::Null,
        SqlParam::Text(s) => rusqlite::types::Value::Text(s.clone()),
        SqlParam::Integer(i) => rusqlite::types::Value::Integer(*i),
        SqlParam::Flag(b) => rusqlite::types::Value::from(*b),
    })))
}

/// Trusted: `Statement::execute` with the parameters bound as in [`query`];
/// the number of rows that the statement changed.
#[verifier::external_body]
pub(crate) fn run(stmt: &mut rusqlite::Statement<'_>, params: &Vec<SqlParam>) -> (r: Result<
    usize,
    rusqlite::Error,
>) {
    stmt.execute(rusqlite::params_from_iter(params.iter().map(|p| match p {
        SqlParam::Null => rusqlite::types::Value::Null,
        SqlParam::Text(s) => rusqlite::types::Value::Text(s.clone()),
        SqlParam::Integer(i) => rusqlite::types::Value::Integer(*i),
        SqlParam::Flag(b) => rusqlite::types::Value::from(*b),
    })))
}

/// Trusted: `Connection::last_insert_rowid`, the row identifier of the most
/// recent successful insert on the connection.
#[verifier::external_body]
pub(crate) fn last_insert_rowid(conn: &rusqlite::Connection) -> (id: i64) {
    conn.last_insert_rowid()
}

/// Trusted: `Rows::next` and `Row::get` for the seven columns of a
/// conversation. `None` when the rows are exhausted.
#[verifier::external_body]
pub(crate) fn next_conversation_row(rows: &mut rusqlite::Rows<'_>) -> (r: Result<
    Option<ConversationRow>,
    rusqlite::Error,
>) {
    let Some(row) = rows.next()? else { return Ok(None) };
    Ok(Some(ConversationRow {
        id: row.get(0)?,
        uuid: row.get(1)?,
        title: row.get(2)?,
        persona_id: row.get(3)?,
        created_at: row.get(4)?,
        updated_at: row.get(5)?,
        archived: row.get(6)?,
    }))
}

/// Trusted: `Rows::next` and `Row::get` for the seven columns of a message.
/// `None` when the rows are exhausted.
#[verifier::external_body]
pub(crate) fn next_message_row(rows: &mut rusqlite::Rows<'_>) -> (r: Result<
    Option<MessageRow>,
    rusqlite::Error,
>) {
    let Some(row) = rows.next()? else { return Ok(None) };
    Ok(Some(MessageRow {
        id: row.get(0)?,
        conversation_id: row.get(1)?,
        role: row.get(2)?,
        content: row.get(3)?,
        timestamp: row.get(4)?,
        tokens_used: row.get(5)?,
        model_used: row.get(6)?,
    }))
}

/// Trusted: `Rows::next` and `Row::get` for the eight columns of a persona.
/// `None` when the rows are exhausted.
#[verifier::external_body]
pub(crate) fn next_persona_row(rows: &mut rusqlite::Rows<'_>) -> (r: Result<
    Option<PersonaRow>,
    rusqlite::Error,
>) {
    let Some(row) = rows.next()? else { return Ok(None) };
    Ok(Some(PersonaRow {
        id: row.get(0)?,
        name: row.get(1)?,
        description: row.get(2)?,
        system_prompt: row.get(3)?,
        avatar_path: row.get(4)?,
        created_at: row.get(5)?,
        updated_at: row.get(6)?,
        active: row.get(7)?,
    }))
}

/// Trusted: `Rows::next` and `Row::get` for a text column followed by a text
/// column that may be null. `None` when the rows are exhausted.
#[verifier::external_body]
pub(crate) fn next_text_pair(rows: &mut rusqlite::Rows<'_>) -> (r: Result<
    Option<(String, Option<String>)>,
    rusqlite::Error,
>) {
    let Some(row) = rows.next()? else { return Ok(None) };
    Ok(Some((row.get(0)?, row.get(1)?)))
}

/// Trusted: `Rows::next` and `Row::get` for the seven columns of a search
/// hit. `None` when the rows are exhausted; an error when SQLite fails or a
/// column does not hold the expected type. The score is handed over as the
/// bit pattern of the floating-point value that SQLite computed.
#[verifier::external_body]
pub(crate) fn next_search_result(rows: &mut rusqlite::Rows<'_>) -> (r: Result<
    Option<SearchResult>,
    rusqlite::Error,
>) {
    let Some(row) = rows.next()? else { return Ok(None) };
    Ok(Some(SearchResult {
        conversation_id: row.get(0)?,
        message_id: row.get(1)?,
        title: row.get(2)?,
        content: row.get(3)?,
        relevance_score_bits: row.get_ref(4)?.as_f64()?.to_bits(),
        created_at: row.get(5)?,
        snippet: row.get(6)?,
    }))
}

/// Trusted: `Rows::next` and `Row::get` for one text column. `None` when the
/// rows are exhausted.
#[verifier::external_body]
pub(crate) fn next_text(rows: &mut rusqlite::Rows<'_>, column: usize) -> (r: Result<
    Option<String>,
    rusqlite::Error,
>) {
    let Some(row) = rows.next()? else { return Ok(None) };
    Ok(Some(row.get(column)?))
}

/// Trusted: `Connection::query_row` for a statement without parameters whose
/// first column of the first row is an integer.
#[verifier::external_body]
pub(crate) fn query_integer(conn: &rusqlite::Connection, sql: &str) -> (r: Result<
    i64,
    rusqlite::Error,
>) {
    conn.query_row(sql, [], |row| row.get(0))
}

/// Trusted: `Connection::transaction`, which issues `BEGIN`.
#[verifier::external_body]
pub(crate) fn begin<'c>(conn: &'c mut rusqlite::Connection) -> (r: Result<
    rusqlite::Transaction<'c>,
    rusqlite::Error,
>) {
    conn.transaction()
}

/// Trusted: `Transaction::commit`, which issues `COMMIT`.
#[verifier::external_body]
pub(crate) fn commit_transaction(tx: rusqlite::Transaction<'_>) -> (r: Result<
    (),
    rusqlite::Error,
>) {
    tx.commit()
}

/// Trusted: `Transaction::rollback`, which issues `ROLLBACK`.
#[verifier::external_body]
pub(crate) fn rollback_transaction(tx: rusqlite::Transaction<'_>) -> (r: Result<
    (),
    rusqlite::Error,
>) {
    tx.rollback()
}

/// Trusted: `Transaction::savepoint_with_name`, which issues `SAVEPOINT`.
#[verifier::external_body]
pub(crate) fn open_savepoint<'t, 'c>(tx: &'t mut rusqlite::Transaction<'c>, name: &str) -> (r:
    Result<rusqlite::Savepoint<'t>, rusqlite::Error>) {
    tx.savepoint_with_name(name)
}

/// Trusted: `Savepoint::savepoint_with_name`, which issues `SAVEPOINT` inside
/// an open savepoint.
#[verifier::external_body]
pub(crate) fn open_nested_savepoint<'s, 'c>(sp: &'s mut rusqlite::Savepoint<'c>, name: &str) -> (r:
    Result<rusqlite::Savepoint<'s>, rusqlite::Error>) {
    sp.savepoint_with_name(name)
}

/// Trusted: `Savepoint::commit`, which issues `RELEASE`.
#[verifier::external_body]
pub(crate) fn release_savepoint(sp: rusqlite::Savepoint<'_>) -> (r: Result<(), rusqlite::Error>) {
    sp.commit()
}

/// Trusted: `Savepoint::rollback`, which issues `ROLLBACK TO`. The savepoint
/// stays open; dropping it afterwards releases it.
#[verifier::external_body]
pub(crate) fn rollback_savepoint(sp: &mut rusqlite::Savepoint<'_>) -> (r: Result<
    (),
    rusqlite::Error,
>) {
    sp.rollback()
}

/// Trusted: `Transaction::deref`, the connection the transaction runs on.
#[verifier::external_body]
pub(crate) fn transaction_connection<'t>(tx: &'t rusqlite::Transaction<'_>) -> (conn:
    &'t rusqlite::Connection) {
    tx
}

/// Trusted: the `Display` text of a `rusqlite::Error`.
#[verifier::external_body]
pub(crate) fn sqlite_error_text(error: &rusqlite::Error) -> (text: String) {
    error.to_string()
}

/// Trusted: the `Display` text of an `r2d2::Error`.
#[verifier::external_body]
pub(crate) fn pool_error_text(error: &r2d2::Error) -> (text: String) {
    error.to_string()
}

/// Trusted: `SqliteConnectionManager::file`, a manager whose connections
/// open the database file at `path`.
#[verifier::external_body]
pub(crate) fn file_manager(path: &str) -> (manager: r2d2_sqlite::SqliteConnectionManager) {
    r2d2_sqlite::SqliteConnectionManager::file(path)
}

/// Trusted: `SqliteConnectionManager::memory`, a manager whose connections
/// share one in-memory database.
#[verifier::external_body]
pub(crate) fn memory_manager() -> (manager: r2d2_sqlite::SqliteConnectionManager) {
    r2d2_sqlite::SqliteConnectionManager::memory()
}

/// Trusted: `SqliteConnectionManager::with_init`. Every connection that the
/// manager opens runs [`apply_setup`] with `statements` before first use, and
/// is discarded if that fails.
#[verifier::external_body]
pub(crate) fn manager_with_setup(
    manager: r2d2_sqlite::SqliteConnectionManager,
    statements: Vec<String>,
) -> (configured: r2d2_sqlite::SqliteConnectionManager) {
    manager.with_init(move |conn| apply_setup(conn, &statements))
}

/// The longest timeout that a pool is built with, in seconds. The pool adds
/// its timeout to the clock's reading, and a deadline this far away can
/// still be held by the clock of every platform.
pub const MAX_POOL_TIMEOUT_SECONDS: u64 = 4294967295;

/// The largest number of connections that a pool opens: what `Pool::max_size`
/// returns for it.
pub uninterp spec fn pool_max_size(pool: &ConnectionPool) -> nat;

/// How long an acquisition from a pool waits, in whole seconds: what
/// `Pool::connection_timeout` returns for it.
pub uninterp spec fn pool_timeout_seconds(pool: &ConnectionPool) -> nat;

/// Trusted: `Pool::builder` with `max_size`, `min_idle`, `connection_timeout`
/// and `build`. The builder panics on a zero size, a zero timeout and a
/// minimum above the maximum, and the pool adds the timeout to the current
/// instant, which panics when the sum cannot be held; those inputs are
/// excluded. `build` waits until the minimum number of connections is open
/// and fails when the timeout passes first. A pool that was built keeps the
/// size and the timeout it was given as its configuration.
#[verifier::external_body]
pub(crate) fn build_pool(
    manager: r2d2_sqlite::SqliteConnectionManager,
    max_size: u32,
    min_idle: Option<u32>,
    timeout_seconds: u64,
) -> (r: Result<ConnectionPool, r2d2::Error>)
    requires
        max_size > 0,
        0 < timeout_seconds <= MAX_POOL_TIMEOUT_SECONDS,
        min_idle matches Some(n) ==> n <= max_size,
    ensures
        r matches Ok(pool) ==> pool_max_size(&pool) == max_size && pool_timeout_seconds(&pool)
            == timeout_seconds,
{
    let inner = r2d2::Pool::builder()
        .max_size(max_size)
        .min_idle(min_idle)
        .connection_timeout(std::time::Duration::from_secs(timeout_seconds))
        .build(manager)?;
    Ok(ConnectionPool { inner })
}

/// Trusted: `Pool::max_size`, the configured largest number of connections.
#[verifier::external_body]
pub(crate) fn max_size_of(pool: &ConnectionPool) -> (n: u32)
    ensures
        n == pool_max_size(pool),
{
    pool.inner.max_size()
}

/// Trusted: `Pool::connection_timeout` and `Duration::as_secs`, the whole
/// seconds of the configured timeout of an acquisition.
#[verifier::external_body]
pub(crate) fn timeout_seconds_of(pool: &ConnectionPool) -> (seconds: u64)
    ensures
        seconds == pool_timeout_seconds(pool),
{
    pool.inner.connection_timeout().as_secs()
}

/// Trusted: `Pool::get`, which waits for a free connection up to the pool's
/// timeout and fails when none became free.
#[verifier::external_body]
pub(crate) fn pool_get(pool: &ConnectionPool) -> (r: Result<PooledSqliteConnection, r2d2::Error>) {
    let inner = pool.inner.get()?;
    Ok(PooledSqliteConnection { inner })
}

/// Runs the setup statements on a fresh connection, in order, and stops at
/// the first failure, which is returned as the engine gave it. Without
/// statements there is nothing to fail.
pub(crate) fn apply_setup(conn: &rusqlite::Connection, statements: &Vec<String>) -> (r: Result<
    (),
    rusqlite::Error,
>)
    ensures
        statements@.len() == 0 ==> r is Ok,
{
    let mut i: usize = 0;
    while i < statements.len()
        invariant
            i <= statements.len(),
        decreases statements.len() - i,
    {
        match execute_batch(conn, statements[i].as_str()) {
            Ok(_) => {},
            Err(e) => {
                return Err(e);
            },
        }
        i += 1;
    }
    Ok(())
}

} // verus!
