use forbidden_library::config::{DatabaseConfig, PoolConfig};
use forbidden_library::errors::{AppError, ErrorKind};
use forbidden_library::manager::{check_pool_timeout, DatabaseManager};
use forbidden_library::schema::{initialize_fts_tables, rebuild_fts_indices};
use forbidden_library::transaction::{
    run_savepoint, run_transaction, SavepointState, TransactionState,
};

fn count(conn: &rusqlite::Connection, table: &str) -> i64 {
    conn.query_row(&format!("SELECT COUNT(*) FROM {}", table), [], |row| row.get(0)).unwrap()
}

fn manager_with_table(sql: &str) -> DatabaseManager {
    let db_manager = DatabaseManager::new_in_memory().unwrap();
    {
        let conn = db_manager.get_connection().unwrap();
        conn.execute(sql, []).unwrap();
    }
    db_manager
}

#[test]
fn test_transaction_commit() {
    let db_manager =
        manager_with_table("CREATE TABLE test_users (id INTEGER PRIMARY KEY, name TEXT NOT NULL)");

    let result = db_manager.with_transaction(|tx| {
        tx.execute("INSERT INTO test_users (name) VALUES (?)", ["Alice"])?;
        tx.execute("INSERT INTO test_users (name) VALUES (?)", ["Bob"])?;
        Ok(())
    });

    assert!(result.is_ok());

    let conn = db_manager.get_connection().unwrap();
    assert_eq!(count(&conn, "test_users"), 2);
}

#[test]
fn test_transaction_rollback_on_error() {
    let db_manager =
        manager_with_table("CREATE TABLE test_users (id INTEGER PRIMARY KEY, name TEXT NOT NULL)");

    let result: Result<(), AppError> = db_manager.with_transaction(|tx| {
        tx.execute("INSERT INTO test_users (name) VALUES (?)", ["Alice"])?;
        Err(AppError::validation("Test error - should rollback"))
    });

    assert!(result.is_err());
    let error = result.unwrap_err();
    assert_eq!(error.kind(), ErrorKind::Validation);
    assert_eq!(error.message(), "Test error - should rollback");

    let conn = db_manager.get_connection().unwrap();
    assert_eq!(count(&conn, "test_users"), 0);
}

#[test]
fn test_transaction_rollback_on_constraint_violation() {
    let db_manager = manager_with_table(
        "CREATE TABLE test_users (id INTEGER PRIMARY KEY, email TEXT NOT NULL UNIQUE)",
    );

    let result1 = db_manager.with_transaction(|tx| {
        tx.execute("INSERT INTO test_users (email) VALUES (?)", ["test@example.com"])?;
        Ok(())
    });
    assert!(result1.is_ok());

    let result2 = db_manager.with_transaction(|tx| {
        tx.execute("INSERT INTO test_users (email) VALUES (?)", ["test@example.com"])?;
        Ok(())
    });
    assert!(result2.is_err());

    let conn = db_manager.get_connection().unwrap();
    assert_eq!(count(&conn, "test_users"), 1);
}

#[test]
fn test_transaction_with_return_value() {
    let db_manager =
        manager_with_table("CREATE TABLE test_users (id INTEGER PRIMARY KEY, name TEXT NOT NULL)");

    let user_id = db_manager.with_transaction(|tx| {
        tx.execute("INSERT INTO test_users (name) VALUES (?)", ["Alice"])?;
        let id: i64 = tx.last_insert_rowid();
        Ok(id)
    });

    assert!(user_id.is_ok());
    assert_eq!(user_id.unwrap(), 1);
}

#[test]
fn test_savepoint_commit() {
    let db_manager =
        manager_with_table("CREATE TABLE test_data (id INTEGER PRIMARY KEY, value TEXT)");

    let mut conn = db_manager.get_connection().unwrap();
    let mut tx = conn.connection_mut().transaction().unwrap();

    tx.execute("INSERT INTO test_data (value) VALUES (?)", ["before_savepoint"]).unwrap();

    let result = DatabaseManager::with_savepoint(&mut tx, "sp1", |sp| {
        sp.execute("INSERT INTO test_data (value) VALUES (?)", ["in_savepoint"])?;
        Ok(())
    });

    assert!(result.is_ok());
    tx.commit().unwrap();

    assert_eq!(count(&conn, "test_data"), 2);
}

#[test]
fn test_savepoint_rollback() {
    let db_manager =
        manager_with_table("CREATE TABLE test_data (id INTEGER PRIMARY KEY, value TEXT)");

    let mut conn = db_manager.get_connection().unwrap();
    let mut tx = conn.connection_mut().transaction().unwrap();

    tx.execute("INSERT INTO test_data (value) VALUES (?)", ["before_savepoint"]).unwrap();

    let result: Result<(), AppError> = DatabaseManager::with_savepoint(&mut tx, "sp1", |sp| {
        sp.execute("INSERT INTO test_data (value) VALUES (?)", ["in_savepoint"])?;
        Err(AppError::validation("Savepoint test error"))
    });

    assert!(result.is_err());
    tx.commit().unwrap();

    assert_eq!(count(&conn, "test_data"), 1);

    let value: String =
        conn.query_row("SELECT value FROM test_data", [], |row| row.get(0)).unwrap();
    assert_eq!(value, "before_savepoint");
}

#[test]
fn test_is_in_transaction() {
    let db_manager = DatabaseManager::new_in_memory().unwrap();
    let mut conn = db_manager.get_connection().unwrap();

    assert!(!DatabaseManager::is_in_transaction(&conn));

    let tx = conn.connection_mut().transaction().unwrap();
    assert!(DatabaseManager::is_in_transaction(&tx));

    tx.commit().unwrap();

    assert!(!DatabaseManager::is_in_transaction(&conn));
}

#[test]
fn test_nested_transactions_via_savepoints() {
    let db_manager =
        manager_with_table("CREATE TABLE test_levels (id INTEGER PRIMARY KEY, level INTEGER)");

    let result = db_manager.with_transaction(|tx| {
        tx.execute("INSERT INTO test_levels (level) VALUES (?)", [1])?;

        DatabaseManager::with_savepoint(tx, "level2", |sp1| {
            sp1.execute("INSERT INTO test_levels (level) VALUES (?)", [2])?;

            DatabaseManager::with_nested_savepoint(sp1, "level3", |sp2| {
                sp2.execute("INSERT INTO test_levels (level) VALUES (?)", [3])?;
                Ok(())
            })?;

            Ok(())
        })?;

        Ok(())
    });

    assert!(result.is_ok());

    let conn = db_manager.get_connection().unwrap();
    assert_eq!(count(&conn, "test_levels"), 3);
}

#[test]
fn nested_savepoint_failure_keeps_enclosing_work() {
    let db_manager =
        manager_with_table("CREATE TABLE test_levels (id INTEGER PRIMARY KEY, level INTEGER)");

    let result = db_manager.with_transaction(|tx| {
        tx.execute("INSERT INTO test_levels (level) VALUES (?)", [1])?;
        DatabaseManager::with_savepoint(tx, "outer", |sp1| {
            sp1.execute("INSERT INTO test_levels (level) VALUES (?)", [2])?;
            let inner: Result<(), AppError> =
                DatabaseManager::with_nested_savepoint(sp1, "inner", |sp2| {
                    sp2.execute("INSERT INTO test_levels (level) VALUES (?)", [3])?;
                    Err(AppError::validation("inner unit failed"))
                });
            assert!(inner.is_err());
            Ok(())
        })?;
        Ok(())
    });
    assert!(result.is_ok());

    let conn = db_manager.get_connection().unwrap();
    assert_eq!(count(&conn, "test_levels"), 2);
    let highest: i64 =
        conn.query_row("SELECT MAX(level) FROM test_levels", [], |row| row.get(0)).unwrap();
    assert_eq!(highest, 2);
}

#[test]
fn transaction_outcome_reports_how_the_scope_ended() {
    let db_manager =
        manager_with_table("CREATE TABLE test_users (id INTEGER PRIMARY KEY, name TEXT NOT NULL)");
    let mut conn = db_manager.get_connection().unwrap();

    let kept = run_transaction(conn.connection_mut(), |tx| {
        tx.execute("INSERT INTO test_users (name) VALUES (?)", ["Alice"])?;
        Ok(7)
    });
    assert_eq!(kept.state, TransactionState::Committed);
    assert_eq!(kept.result.unwrap(), 7);

    let undone: forbidden_library::transaction::TransactionOutcome<()> =
        run_transaction(conn.connection_mut(), |tx| {
            tx.execute("INSERT INTO test_users (name) VALUES (?)", ["Bob"])?;
            Err(AppError::not_found("nobody"))
        });
    assert_eq!(undone.state, TransactionState::RolledBack);
    assert_eq!(undone.result.unwrap_err().kind(), ErrorKind::NotFound);
    assert!(!DatabaseManager::is_in_transaction(&conn));
    assert_eq!(count(&conn, "test_users"), 1);
}

#[test]
fn savepoint_outcome_reports_how_the_scope_ended() {
    let db_manager =
        manager_with_table("CREATE TABLE test_data (id INTEGER PRIMARY KEY, value TEXT)");
    let mut conn = db_manager.get_connection().unwrap();
    let mut tx = conn.connection_mut().transaction().unwrap();

    let kept = run_savepoint(&mut tx, "kept", |sp| {
        sp.execute("INSERT INTO test_data (value) VALUES (?)", ["a"])?;
        Ok("done")
    });
    assert_eq!(kept.state, SavepointState::Released);
    assert_eq!(kept.result.unwrap(), "done");

    let undone: forbidden_library::transaction::SavepointOutcome<()> =
        run_savepoint(&mut tx, "undone", |sp| {
            sp.execute("INSERT INTO test_data (value) VALUES (?)", ["b"])?;
            Err(AppError::validation("no"))
        });
    assert_eq!(undone.state, SavepointState::RolledBack);
    assert!(DatabaseManager::is_in_transaction(&tx));
    tx.commit().unwrap();
    assert_eq!(count(&conn, "test_data"), 1);
}

#[test]
fn savepoint_name_is_not_read_as_a_statement() {
    let db_manager =
        manager_with_table("CREATE TABLE test_data (id INTEGER PRIMARY KEY, value TEXT)");
    let mut conn = db_manager.get_connection().unwrap();
    let mut tx = conn.connection_mut().transaction().unwrap();
    let result = DatabaseManager::with_savepoint(&mut tx, "x; DROP TABLE test_data; --", |sp| {
        sp.execute("INSERT INTO test_data (value) VALUES (?)", ["kept"])?;
        Ok(())
    });
    assert!(result.is_ok());
    tx.commit().unwrap();
    assert_eq!(count(&conn, "test_data"), 1);
}

#[test]
fn invalid_pool_configuration_fails_construction() {
    let mut config = DatabaseConfig::in_memory();
    config.pool_config.max_size = 0;
    let error = DatabaseManager::new_with_config(":memory:".to_string(), config).err().unwrap();
    assert_eq!(error.kind(), ErrorKind::Validation);
    assert_eq!(error.message(), "Pool max_size must be greater than 0");

    let mut config = DatabaseConfig::in_memory();
    config.pool_config.timeout_seconds = 0;
    let error = DatabaseManager::new_with_config(":memory:".to_string(), config).err().unwrap();
    assert_eq!(error.message(), "Pool timeout must be greater than 0");

    let mut config = DatabaseConfig::in_memory();
    config.pool_config.min_idle = Some(6);
    let error = DatabaseManager::new_with_config(":memory:".to_string(), config).err().unwrap();
    assert_eq!(error.message(), "min_idle cannot be greater than max_size");
}

#[test]
fn pool_is_built_with_the_configured_bounds() {
    let manager = DatabaseManager::new_in_memory().unwrap();
    assert_eq!(manager.pool_limit(), 5);
    assert_eq!(manager.pool_timeout(), 10);

    let mut config = DatabaseConfig::in_memory();
    config.pool_config = PoolConfig { max_size: 3, min_idle: None, timeout_seconds: 7 };
    let manager = DatabaseManager::new_with_config(":memory:".to_string(), config).unwrap();
    assert_eq!(manager.pool_limit(), 3);
    assert_eq!(manager.pool_timeout(), 7);
}

#[test]
fn timeout_beyond_the_clock_is_a_database_error() {
    let mut config = DatabaseConfig::in_memory();
    config.pool_config.timeout_seconds = 4294967296;
    assert!(config.validate().is_ok());
    let error = DatabaseManager::new_with_config(":memory:".to_string(), config).err().unwrap();
    assert_eq!(error.kind(), ErrorKind::Database);
    assert_eq!(
        error.message(),
        "Failed to create connection pool: timeout exceeds 4294967295 seconds"
    );
    assert!(check_pool_timeout(4294967295).is_ok());
    assert!(check_pool_timeout(u64::MAX).is_err());

    let mut config = DatabaseConfig::in_memory();
    config.pool_config.timeout_seconds = 4294967295;
    assert!(DatabaseManager::new_with_config(":memory:".to_string(), config).is_ok());
}

#[test]
fn malformed_encryption_key_fails_construction() {
    let mut config = DatabaseConfig::in_memory();
    config.encryption_key = "key'; DROP TABLE conversations; --".to_string();
    let error = DatabaseManager::new_with_config(":memory:".to_string(), config).err().unwrap();
    assert_eq!(error.kind(), ErrorKind::Encryption);
    assert!(!error.message().contains("DROP TABLE"));
    assert!(!error.user_message().contains("DROP TABLE"));
}

#[test]
fn well_formed_encryption_key_is_accepted() {
    let mut config = DatabaseConfig::in_memory();
    config.encryption_key = "abc-DEF_123".to_string();
    assert!(config.validate_encryption_key().is_ok());
    let statements = config.setup_statements();
    assert_eq!(statements.len(), 4);
    assert_eq!(statements[3], "PRAGMA key = 'abc-DEF_123';");
    let manager = DatabaseManager::new_with_config(":memory:".to_string(), config).unwrap();
    assert!(manager.apply_pragma_settings().is_ok());
    assert_eq!(manager.config().encryption_key, "abc-DEF_123");
}

#[test]
fn manager_keeps_path_and_configuration() {
    let manager = DatabaseManager::new_in_memory().unwrap();
    assert_eq!(manager.db_path(), ":memory:");
    assert_eq!(manager.config().pool_config.max_size, 5);
    assert_eq!(manager.config().pool_config.min_idle, Some(1));
    assert_eq!(manager.config().pool_config.timeout_seconds, 10);
    let error = manager.backup_source().err().unwrap();
    assert_eq!(error.kind(), ErrorKind::Validation);
    assert_eq!(error.message(), "Cannot backup in-memory database");
    assert!(manager.optimize().is_ok());
}

#[test]
fn every_pooled_connection_is_set_up_and_sees_the_schema() {
    let manager = DatabaseManager::new_in_memory().unwrap();
    let first = manager.get_connection().unwrap();
    let second = manager.get_connection().unwrap();
    let third = manager.get_connection().unwrap();
    for conn in [&first, &second, &third] {
        let foreign_keys: i64 =
            conn.query_row("PRAGMA foreign_keys", [], |row| row.get(0)).unwrap();
        assert_eq!(foreign_keys, 1);
        assert_eq!(count(conn, "conversations"), 0);
        assert_eq!(count(conn, "messages_fts"), 0);
    }
}

#[test]
fn pool_hands_out_distinct_connections_and_times_out_when_exhausted() {
    let config = DatabaseConfig {
        encryption_key: String::new(),
        pragma_settings: vec!["PRAGMA foreign_keys = ON".to_string()],
        backup_enabled: false,
        pool_config: PoolConfig { max_size: 2, min_idle: Some(1), timeout_seconds: 1 },
    };
    let manager = DatabaseManager::new_with_config(":memory:".to_string(), config).unwrap();
    let first = manager.get_connection().unwrap();
    let second = manager.get_connection().unwrap();

    first.execute_batch("BEGIN").unwrap();
    assert!(DatabaseManager::is_in_transaction(&first));
    assert!(!DatabaseManager::is_in_transaction(&second));

    let third = manager.get_connection();
    let error = third.err().unwrap();
    assert_eq!(error.kind(), ErrorKind::Database);
    assert!(error.message().starts_with("Failed to get connection from pool: "));

    first.execute_batch("ROLLBACK").unwrap();
    drop(first);
    let again = manager.get_connection();
    assert!(again.is_ok());
}

#[test]
fn schema_initialization_is_idempotent() {
    let manager = DatabaseManager::new_in_memory().unwrap();
    let conn = manager.get_connection().unwrap();
    assert!(forbidden_library::schema::initialize_schema(&conn).is_ok());
    assert!(forbidden_library::schema::initialize_schema(&conn).is_ok());
    assert!(forbidden_library::schema::create_additional_indices(&conn).is_ok());
    assert!(forbidden_library::schema::create_additional_indices(&conn).is_ok());
    let tables: i64 = conn
        .query_row(
            "SELECT COUNT(*) FROM sqlite_master WHERE type='table' AND name IN
             ('conversations','messages','personas','grimoire_entries','api_configs','projects')",
            [],
            |row| row.get(0),
        )
        .unwrap();
    assert_eq!(tables, 6);
    let triggers: i64 = conn
        .query_row("SELECT COUNT(*) FROM sqlite_master WHERE type='trigger'", [], |row| row.get(0))
        .unwrap();
    assert_eq!(triggers, 6);
}

#[test]
fn schema_failure_names_the_purpose_and_not_the_statement() {
    let conn = rusqlite::Connection::open_in_memory().unwrap();
    conn.execute("CREATE TABLE conversations_fts (x)", []).unwrap();
    conn.execute("CREATE TABLE messages_fts (x)", []).unwrap();
    let error = rebuild_fts_indices(&conn).err().unwrap();
    assert_eq!(error.kind(), ErrorKind::Database);
    assert_eq!(
        error.message(),
        "Schema initialization failed: fill shadow table conversations_fts"
    );
    assert!(!error.message().contains("INSERT"));
}

#[test]
fn message_role_check_constraint_is_enforced() {
    let manager = DatabaseManager::new_in_memory().unwrap();
    let conn = manager.get_connection().unwrap();
    conn.execute("INSERT INTO conversations (uuid, title) VALUES ('u1', 'T')", []).unwrap();
    let bad = conn.execute(
        "INSERT INTO messages (id, conversation_id, role, content) VALUES ('m1', 1, 'robot', 'x')",
        [],
    );
    assert!(bad.is_err());
    let orphan = conn.execute(
        "INSERT INTO messages (id, conversation_id, role, content) VALUES ('m2', 99, 'user', 'x')",
        [],
    );
    assert!(orphan.is_err());
}

#[test]
fn test_fts_initialization() {
    let db = DatabaseManager::new_in_memory().unwrap();
    let conn = db.get_connection().unwrap();

    let result = initialize_fts_tables(&conn);
    assert!(result.is_ok());

    let tables: Vec<String> = conn
        .prepare("SELECT name FROM sqlite_master WHERE type='table' AND name LIKE '%_fts'")
        .unwrap()
        .query_map([], |row| row.get(0))
        .unwrap()
        .collect::<Result<Vec<_>, _>>()
        .unwrap();

    assert!(tables.contains(&"conversations_fts".to_string()));
    assert!(tables.contains(&"messages_fts".to_string()));
}

#[test]
fn shadow_rows_follow_every_write_on_messages() {
    let db = DatabaseManager::new_in_memory().unwrap();
    let conn = db.get_connection().unwrap();
    conn.execute("INSERT INTO conversations (uuid, title) VALUES ('u1', 'First')", []).unwrap();
    assert_eq!(count(&conn, "conversations_fts"), count(&conn, "conversations"));

    for i in 0..4 {
        conn.execute(
            "INSERT INTO messages (id, conversation_id, role, content) VALUES (?1, 1, 'user', ?2)",
            [format!("m{}", i), format!("content number {}", i)],
        )
        .unwrap();
        assert_eq!(count(&conn, "messages_fts"), count(&conn, "messages"));
    }
    assert_eq!(count(&conn, "messages"), 4);

    conn.execute("UPDATE messages SET content = 'rewritten text' WHERE id = 'm1'", []).unwrap();
    assert_eq!(count(&conn, "messages_fts"), 4);
    let shadow: String = conn
        .query_row("SELECT content FROM messages_fts WHERE message_id = 'm1'", [], |row| row.get(0))
        .unwrap();
    assert_eq!(shadow, "rewritten text");

    conn.execute("DELETE FROM messages WHERE id = 'm2'", []).unwrap();
    assert_eq!(count(&conn, "messages"), 3);
    assert_eq!(count(&conn, "messages_fts"), 3);

    conn.execute("UPDATE conversations SET title = 'Renamed' WHERE id = 1", []).unwrap();
    let title: String = conn
        .query_row("SELECT title FROM conversations_fts WHERE conversation_id = 1", [], |row| {
            row.get(0)
        })
        .unwrap();
    assert_eq!(title, "Renamed");
}

#[test]
fn rebuild_is_idempotent() {
    let db = DatabaseManager::new_in_memory().unwrap();
    let conn = db.get_connection().unwrap();
    conn.execute("INSERT INTO conversations (uuid, title) VALUES ('u1', 'First')", []).unwrap();
    conn.execute("INSERT INTO conversations (uuid, title) VALUES ('u2', 'Second')", []).unwrap();
    for i in 0..3 {
        conn.execute(
            "INSERT INTO messages (id, conversation_id, role, content) VALUES (?1, 1, 'user', 'text')",
            [format!("m{}", i)],
        )
        .unwrap();
    }
    conn.execute("DELETE FROM messages_fts", []).unwrap();
    assert_eq!(count(&conn, "messages_fts"), 0);

    rebuild_fts_indices(&conn).unwrap();
    let first = (count(&conn, "conversations_fts"), count(&conn, "messages_fts"));
    rebuild_fts_indices(&conn).unwrap();
    let second = (count(&conn, "conversations_fts"), count(&conn, "messages_fts"));

    assert_eq!(first, (2, 3));
    assert_eq!(second, first);
    assert_eq!(second, (count(&conn, "conversations"), count(&conn, "messages")));
}

#[test]
fn database_file_is_opened_with_the_interactive_preset() {
    let dir = tempfile::tempdir().unwrap();
    let path = dir.path().join("library.db").to_str().unwrap().to_string();
    let manager = DatabaseManager::new(path.clone()).unwrap();
    assert_eq!(manager.db_path(), &path);
    assert_eq!(manager.backup_source().unwrap(), &path);
    assert_eq!(manager.config().pool_config.max_size, 10);
    assert!(manager.apply_pragma_settings().is_ok());
    {
        let conn = manager.get_connection().unwrap();
        let mode: String = conn.query_row("PRAGMA journal_mode", [], |row| row.get(0)).unwrap();
        assert_eq!(mode, "wal");
        let foreign_keys: i64 =
            conn.query_row("PRAGMA foreign_keys", [], |row| row.get(0)).unwrap();
        assert_eq!(foreign_keys, 1);
        conn.execute("INSERT INTO conversations (uuid, title) VALUES ('u', 'Kept')", []).unwrap();
    }
    assert!(manager.optimize().is_ok());
    drop(manager);

    let reopened =
        DatabaseManager::new_with_config(path, DatabaseConfig::production("key-1".to_string()))
            .unwrap();
    let conn = reopened.get_connection().unwrap();
    assert_eq!(count(&conn, "conversations"), 1);
    assert_eq!(count(&conn, "conversations_fts"), 1);
    assert_eq!(reopened.config().pool_config.max_size, 20);
}

#[test]
fn failing_setup_statement_fails_construction() {
    let config = DatabaseConfig {
        encryption_key: String::new(),
        pragma_settings: vec!["THIS IS NOT SQL".to_string()],
        backup_enabled: false,
        pool_config: PoolConfig { max_size: 1, min_idle: Some(1), timeout_seconds: 1 },
    };
    let error = DatabaseManager::new_with_config(":memory:".to_string(), config).err().unwrap();
    assert_eq!(error.kind(), ErrorKind::Database);
    assert!(error.message().starts_with("Failed to create connection pool: "));
}

#[test]
fn fault_signalled_by_the_thunk_rolls_the_transaction_back() {
    let db_manager =
        manager_with_table("CREATE TABLE test_users (id INTEGER PRIMARY KEY, name TEXT NOT NULL)");
    let result: Result<(), AppError> = db_manager.with_transaction(|tx| {
        tx.execute("INSERT INTO test_users (name) VALUES (?)", ["Alice"])?;
        Err(AppError::fault("thunk aborted"))
    });
    let error = result.unwrap_err();
    assert!(error.is_fault());
    assert_eq!(error.message(), "Fault: thunk aborted");
    let conn = db_manager.get_connection().unwrap();
    assert_eq!(count(&conn, "test_users"), 0);
    assert!(!DatabaseManager::is_in_transaction(&conn));
}

#[test]
fn transaction_is_open_exactly_without_autocommit() {
    assert!(forbidden_library::manager::transaction_is_open(false));
    assert!(!forbidden_library::manager::transaction_is_open(true));
}

#[test]
fn step_failure_names_the_purpose() {
    let step = forbidden_library::schema::SchemaStep {
        purpose: "create table things",
        sql: "CREATE TABLE IF NOT EXISTS things (secret TEXT)",
    };
    let error = forbidden_library::schema::step_failure(&step);
    assert_eq!(error.kind(), ErrorKind::Database);
    assert_eq!(error.message(), "Schema initialization failed: create table things");
    let conn = rusqlite::Connection::open_in_memory().unwrap();
    assert!(forbidden_library::schema::run_steps(&conn, &vec![step, step]).is_ok());
    assert!(forbidden_library::schema::run_steps(&conn, &Vec::new()).is_ok());
    let broken = forbidden_library::schema::SchemaStep { purpose: "break", sql: "NOT SQL" };
    let error = forbidden_library::schema::run_steps(&conn, &vec![step, broken, step]).unwrap_err();
    assert_eq!(error.message(), "Schema initialization failed: break");
}
