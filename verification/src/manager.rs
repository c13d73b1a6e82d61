//! The database manager: owns the connection pool and hands out connections
//! and transactional scopes.

use vstd::prelude::*;
use crate::config::{key_is_well_formed, make_key_statement, DatabaseConfig};
use crate::errors::{AppError, AppResult, ErrorKind};
use crate::schema::initialize_schema;
use crate::sqlite::{
    build_pool, execute_batch, file_manager, is_autocommit, manager_with_setup, memory_manager,
    max_size_of, pool_error_text, pool_get, pool_max_size, pool_timeout_seconds,
    sqlite_error_text, timeout_seconds_of, ConnectionPool, PooledSqliteConnection,
    MAX_POOL_TIMEOUT_SECONDS,
};
use crate::text::{join2, join3, push_text, str_eq};
use crate::transaction::{
    is_database_failure, run_nested_savepoint, run_savepoint, run_transaction,
    savepoint_thunk_returns, transaction_thunk_returns,
};

verus! {

/// The path that names a private in-memory database.
pub const MEMORY_PATH: &'static str = ":memory:";

/// Owner of the connection pool of one database.
pub struct DatabaseManager {
    pool: ConnectionPool,
    db_path: String,
    config: DatabaseConfig,
}

/// A database error whose message is `context` followed by the text of the
/// pool's error.
fn pool_failure(context: &str, error: &r2d2::Error) -> (e: AppError)
    ensures
        is_database_failure(e, context@),
{
    let detail = pool_error_text(error);
    let message = join2(context, detail.as_str());
    assert(message@.subrange(0, context@.len() as int) =~= context@);
    AppError::Database { message }
}

/// The message of the database error for a timeout that no pool can be built
/// with.
pub const TIMEOUT_BEYOND_CLOCK: &'static str =
    "Failed to create connection pool: timeout exceeds 4294967295 seconds";

/// Whether a pool can be built with this timeout: the deadline of an
/// acquisition, the clock's reading plus the timeout, must be a time that
/// the clock can hold.
pub open spec fn timeout_fits_clock(timeout_seconds: u64) -> bool {
    timeout_seconds <= MAX_POOL_TIMEOUT_SECONDS
}

/// Checks that a pool can be built with this timeout, and otherwise reports
/// a database error that says so.
pub fn check_pool_timeout(timeout_seconds: u64) -> (r: AppResult<()>)
    ensures
        timeout_fits_clock(timeout_seconds) ==> r is Ok,
        !timeout_fits_clock(timeout_seconds) ==> (r matches Err(e) && e.is(
            ErrorKind::Database,
            TIMEOUT_BEYOND_CLOCK@,
        )),
{
    if timeout_seconds > MAX_POOL_TIMEOUT_SECONDS {
        Err(AppError::database(TIMEOUT_BEYOND_CLOCK))
    } else {
        Ok(())
    }
}

/// The statement of the manager's maintenance: it reclaims free space, then
/// refreshes the planner's statistics.
pub fn maintenance_statement() -> (statement: String)
    ensures
        statement@ == "VACUUM; ANALYZE;"@,
{
    String::from_str("VACUUM; ANALYZE;")
}

/// Whether a transaction is open on a connection, from whether the
/// connection commits by itself: one is open exactly when it does not.
pub fn transaction_is_open(autocommit: bool) -> (open: bool)
    ensures
        open == !autocommit,
{
    !autocommit
}

impl DatabaseManager {
    /// The path this manager was opened with.
    pub closed spec fn spec_db_path(&self) -> Seq<char> {
        self.db_path@
    }

    /// The configuration this manager was opened with.
    pub closed spec fn spec_config(&self) -> DatabaseConfig {
        self.config
    }

    /// The largest number of connections that the manager's pool opens.
    pub closed spec fn spec_pool_limit(&self) -> nat {
        pool_max_size(&self.pool)
    }

    /// How long an acquisition from the manager's pool waits, in seconds.
    pub closed spec fn spec_pool_timeout(&self) -> nat {
        pool_timeout_seconds(&self.pool)
    }

    /// The largest number of connections that the manager's pool opens.
    pub fn pool_limit(&self) -> (n: u32)
        ensures
            n == self.spec_pool_limit(),
    {
        max_size_of(&self.pool)
    }

    /// How long an acquisition from the manager's pool waits, in seconds.
    pub fn pool_timeout(&self) -> (seconds: u64)
        ensures
            seconds == self.spec_pool_timeout(),
    {
        timeout_seconds_of(&self.pool)
    }

    /// Opens the database at `db_path` with the given configuration.
    ///
    /// The configuration is checked before anything is opened: a broken pool
    /// rule is a validation error, a malformed encryption key an encryption
    /// error. A valid timeout too long for the clock to keep the deadline of
    /// an acquisition is a database error, as every failure to build the pool
    /// is. Then the pool is built, with every connection running the
    /// configuration's setup statements before first use, and the schema is
    /// brought up to date. The path `:memory:` gives an in-memory database
    /// that all connections of the pool share. The pool of the manager is
    /// built with the maximum size and the timeout of the configuration.
    pub fn new_with_config(db_path: String, config: DatabaseConfig) -> (r: AppResult<Self>)
        ensures
            config.pool_config.fault() matches Some(fault) ==> (r matches Err(e) && e.is(
                ErrorKind::Validation,
                fault.message(),
            )),
            config.pool_config.fault() is None && !key_is_well_formed(config.encryption_key@)
                ==> (r matches Err(e) && e.spec_kind() == ErrorKind::Encryption),
            config.pool_config.is_valid() && key_is_well_formed(config.encryption_key@)
                && !timeout_fits_clock(config.pool_config.timeout_seconds) ==> (r matches Err(e)
                && e.is(ErrorKind::Database, TIMEOUT_BEYOND_CLOCK@)),
            r matches Ok(manager) ==> manager.spec_db_path() == db_path@ && manager.spec_config()
                == config,
            r matches Ok(manager) ==> manager.spec_pool_limit() == config.pool_config.max_size
                && manager.spec_pool_timeout() == config.pool_config.timeout_seconds,
            r matches Err(e) ==> e.spec_kind() == ErrorKind::Validation || e.spec_kind()
                == ErrorKind::Encryption || e.spec_kind() == ErrorKind::Database,
            r matches Err(e) && e.spec_kind() == ErrorKind::Validation
                ==> !config.pool_config.is_valid(),
            r matches Err(e) && e.spec_kind() == ErrorKind::Encryption ==> !key_is_well_formed(
                config.encryption_key@,
            ),
    {
        match config.validate() {
            Ok(_) => {},
            Err(e) => {
                return Err(e);
            },
        }
        match config.validate_encryption_key() {
            Ok(_) => {},
            Err(e) => {
                return Err(e);
            },
        }
        match check_pool_timeout(config.pool_config.timeout_seconds) {
            Ok(_) => {},
            Err(e) => {
                return Err(e);
            },
        }
        let source = if str_eq(db_path.as_str(), MEMORY_PATH) {
            memory_manager()
        } else {
            file_manager(db_path.as_str())
        };
        let connection_manager = manager_with_setup(source, config.setup_statements());
        let pool = match build_pool(
            connection_manager,
            config.pool_config.max_size,
            config.pool_config.min_idle,
            config.pool_config.timeout_seconds,
        ) {
            Ok(pool) => pool,
            Err(e) => {
                return Err(pool_failure("Failed to create connection pool: ", &e));
            },
        };
        let manager = DatabaseManager { pool, db_path, config };
        match manager.initialize_schema() {
            Ok(_) => {},
            Err(e) => {
                return Err(e);
            },
        }
        Ok(manager)
    }

    /// Opens the database file at `db_path` with the interactive preset.
    pub fn new(db_path: String) -> (r: AppResult<Self>)
        ensures
            r matches Ok(manager) ==> manager.spec_db_path() == db_path@,
            r matches Err(e) ==> e.spec_kind() == ErrorKind::Database,
    {
        Self::new_with_config(db_path, DatabaseConfig::default())
    }

    /// Opens an in-memory database with the in-memory preset.
    pub fn new_in_memory() -> (r: AppResult<Self>)
        ensures
            r matches Ok(manager) ==> manager.spec_db_path() == MEMORY_PATH@,
            r matches Err(e) ==> e.spec_kind() == ErrorKind::Database,
    {
        Self::new_with_config(String::from_str(MEMORY_PATH), DatabaseConfig::in_memory())
    }

    /// Takes a connection from the pool. Waits for a free one up to the
    /// configured timeout and then fails with a database error; it never
    /// waits longer and never panics.
    pub fn get_connection(&self) -> (r: AppResult<PooledSqliteConnection>)
        ensures
            r matches Err(e) ==> is_database_failure(e, "Failed to get connection from pool: "@),
    {
        match pool_get(&self.pool) {
            Ok(conn) => Ok(conn),
            Err(e) => Err(pool_failure("Failed to get connection from pool: ", &e)),
        }
    }

    /// Runs the configuration's pragmas, then its key statement if a key is
    /// configured, on one connection of the pool. A failing pragma is a
    /// database error; a malformed key or a failing key statement is an
    /// encryption error.
    pub fn apply_pragma_settings(&self) -> (r: AppResult<()>)
        ensures
            r matches Err(e) ==> e.spec_kind() == ErrorKind::Database || e.spec_kind()
                == ErrorKind::Encryption,
            r is Ok ==> key_is_well_formed(self.spec_config().encryption_key@),
    {
        let conn = match self.get_connection() {
            Ok(conn) => conn,
            Err(e) => {
                return Err(e);
            },
        };
        let mut i: usize = 0;
        while i < self.config.pragma_settings.len()
            invariant
                i <= self.config.pragma_settings.len(),
            decreases self.config.pragma_settings.len() - i,
        {
            let pragma = self.config.pragma_settings[i].as_str();
            match execute_batch(&conn, pragma) {
                Ok(_) => {},
                Err(e) => {
                    let mut message = join3("Failed to apply pragma '", pragma, "': ");
                    let detail = sqlite_error_text(&e);
                    push_text(&mut message, detail.as_str());
                    return Err(AppError::Database { message });
                },
            }
            i += 1;
        }
        match self.config.validate_encryption_key() {
            Ok(_) => {},
            Err(e) => {
                return Err(e);
            },
        }
        if !self.config.encryption_key.as_str().is_empty() {
            let statement = make_key_statement(self.config.encryption_key.as_str());
            match execute_batch(&conn, statement.as_str()) {
                Ok(_) => {},
                Err(e) => {
                    let detail = sqlite_error_text(&e);
                    let message = join2("Failed to set encryption key: ", detail.as_str());
                    return Err(AppError::Encryption { message });
                },
            }
        }
        Ok(())
    }

    /// The path this manager was opened with.
    pub fn db_path(&self) -> (path: &String)
        ensures
            path@ == self.spec_db_path(),
    {
        &self.db_path
    }

    /// The configuration this manager was opened with.
    pub fn config(&self) -> (config: &DatabaseConfig)
        ensures
            *config == self.spec_config(),
    {
        &self.config
    }

    /// Brings the schema up to date on one connection of the pool. A failure
    /// is that of the pool, or names the purpose of the step that failed.
    fn initialize_schema(&self) -> (r: AppResult<()>)
        ensures
            r matches Err(e) ==> is_database_failure(e, "Failed to get connection from pool: "@)
                || crate::schema::is_schema_failure(
                e,
                crate::schema::spec_base_tables() + crate::schema::spec_performance_indices()
                    + crate::schema::spec_shadow_schema(),
            ),
    {
        match self.get_connection() {
            Ok(conn) => initialize_schema(&conn),
            Err(e) => Err(e),
        }
    }

    /// Reclaims free space and refreshes the planner's statistics: runs
    /// [`maintenance_statement`] on one connection of the pool. A failure is
    /// that of the pool or of the engine, a database error either way.
    pub fn optimize(&self) -> (r: AppResult<()>)
        ensures
            r matches Err(e) ==> e.spec_kind() == ErrorKind::Database,
    {
        let conn = match self.get_connection() {
            Ok(conn) => conn,
            Err(e) => {
                return Err(e);
            },
        };
        let statement = maintenance_statement();
        match execute_batch(&conn, statement.as_str()) {
            Ok(_) => Ok(()),
            Err(e) => Err(AppError::from(e)),
        }
    }

    /// The file to copy for a backup. An in-memory database has none: that is
    /// a validation error.
    pub fn backup_source(&self) -> (r: AppResult<&String>)
        ensures
            self.spec_db_path() == MEMORY_PATH@ ==> (r matches Err(e) && e.is(
                ErrorKind::Validation,
                "Cannot backup in-memory database"@,
            )),
            self.spec_db_path() != MEMORY_PATH@ ==> (r matches Ok(path) && path@
                == self.spec_db_path()),
    {
        if str_eq(self.db_path.as_str(), MEMORY_PATH) {
            Err(AppError::validation("Cannot backup in-memory database"))
        } else {
            Ok(&self.db_path)
        }
    }

    /// Runs `f` inside a transaction on a connection of the pool, which stays
    /// checked out until the transaction has ended.
    ///
    /// When `f` returns `Ok` the transaction is committed and the value
    /// returned. When `f` returns an error the transaction is rolled back and
    /// the error returned unchanged. Any other failure (no connection, begin,
    /// commit) is a database error, and then nothing of `f`'s work is kept.
    pub fn with_transaction<T, F>(&self, f: F) -> (r: AppResult<T>) where
        F: FnOnce(&mut rusqlite::Transaction) -> AppResult<T>,

        requires
            forall|tx: &mut rusqlite::Transaction| call_requires(f, (tx,)),
        ensures
            r is Ok ==> transaction_thunk_returns(f, r),
            r matches Err(e) ==> transaction_thunk_returns(f, r) || e.spec_kind()
                == ErrorKind::Database,
    {
        let mut conn = match self.get_connection() {
            Ok(conn) => conn,
            Err(e) => {
                return Err(e);
            },
        };
        let outcome = run_transaction(conn.connection_mut(), f);
        outcome.result
    }

    /// Runs `f` inside a named savepoint of the open transaction `tx`.
    ///
    /// When `f` returns `Ok` the savepoint is released and the value
    /// returned. When `f` returns an error only the work since the savepoint
    /// is rolled back, and the error is returned unchanged to the enclosing
    /// scope, which decides whether to go on, retry or fail. A savepoint uses
    /// the transaction's connection and takes none from the pool.
    pub fn with_savepoint<T, F>(tx: &mut rusqlite::Transaction, savepoint_name: &str, f: F) -> (r:
        AppResult<T>) where F: FnOnce(&mut rusqlite::Savepoint) -> AppResult<T>
        requires
            forall|sp: &mut rusqlite::Savepoint| call_requires(f, (sp,)),
        ensures
            r is Ok ==> savepoint_thunk_returns(f, r),
            r matches Err(e) ==> savepoint_thunk_returns(f, r) || e.spec_kind()
                == ErrorKind::Database,
    {
        let outcome = run_savepoint(tx, savepoint_name, f);
        outcome.result
    }

    /// Runs `f` inside a named savepoint nested in the open savepoint `outer`,
    /// with the rule of [`DatabaseManager::with_savepoint`].
    pub fn with_nested_savepoint<T, F>(
        outer: &mut rusqlite::Savepoint,
        savepoint_name: &str,
        f: F,
    ) -> (r: AppResult<T>) where F: FnOnce(&mut rusqlite::Savepoint) -> AppResult<T>
        requires
            forall|sp: &mut rusqlite::Savepoint| call_requires(f, (sp,)),
        ensures
            r is Ok ==> savepoint_thunk_returns(f, r),
            r matches Err(e) ==> savepoint_thunk_returns(f, r) || e.spec_kind()
                == ErrorKind::Database,
    {
        let outcome = run_nested_savepoint(outer, savepoint_name, f);
        outcome.result
    }

    /// Whether a transaction is open on `conn`. Asking changes nothing. The
    /// engine says whether the connection commits by itself; the answer is
    /// [`transaction_is_open`] of what it says.
    pub fn is_in_transaction(conn: &rusqlite::Connection) -> (open: bool) {
        transaction_is_open(is_autocommit(conn))
    }
}

} // verus!
