use forbidden_library::config::{key_char_is_allowed, DatabaseConfig, PoolConfig};
use forbidden_library::errors::{AppError, DatabaseError, ErrorKind};

#[test]
fn test_error_creation() {
    let db_error = AppError::database("Connection failed");
    assert!(matches!(db_error, AppError::Database { .. }));
    assert!(db_error.is_critical());
}

#[test]
fn test_error_conversion() {
    let sqlite_error = rusqlite::Error::InvalidColumnName("test".to_string());
    let app_error: AppError = sqlite_error.into();
    assert!(matches!(app_error, AppError::Database { .. }));
}

#[test]
fn test_user_friendly_messages() {
    let validation_error = AppError::validation("Invalid email format");
    assert_eq!(validation_error.user_message(), "Invalid email format");

    let database_error = AppError::database("Connection timeout");
    assert_eq!(
        database_error.user_message(),
        "A database error occurred. Please try again or contact support."
    );
}

#[test]
fn every_kind_has_its_messages() {
    let cases = [
        (AppError::database("d"), ErrorKind::Database, true, "Database error: d"),
        (AppError::io("i"), ErrorKind::Io, false, "I/O error: i"),
        (AppError::validation("v"), ErrorKind::Validation, false, "Validation error: v"),
        (AppError::not_found("n"), ErrorKind::NotFound, false, "Not found: n"),
        (AppError::api("a"), ErrorKind::Api, false, "API error: a"),
        (AppError::encryption("e"), ErrorKind::Encryption, true, "Encryption error: e"),
        (AppError::unexpected("u"), ErrorKind::Unexpected, true, "Unexpected error: u"),
    ];
    for (error, kind, critical, technical) in cases {
        assert_eq!(error.kind(), kind);
        assert_eq!(error.is_critical(), critical);
        assert_eq!(error.technical_message(), technical);
        assert_eq!(error.to_string(), technical);
    }
    assert_eq!(AppError::not_found("No such persona").user_message(), "No such persona");
    assert_eq!(
        AppError::io("disk").user_message(),
        "A file or network error occurred. Please check your connection and try again."
    );
    assert_eq!(
        AppError::api("x").user_message(),
        "The AI service is temporarily unavailable. Please try again later."
    );
    assert_eq!(
        AppError::encryption("secret-key-material").user_message(),
        "A security error occurred. Please restart the application."
    );
    assert_eq!(
        AppError::unexpected("x").user_message(),
        "An unexpected error occurred. Please try again or contact support."
    );
}

#[test]
fn conversions_from_text() {
    let from_string: AppError = "went wrong".to_string().into();
    assert_eq!(from_string.kind(), ErrorKind::Unexpected);
    assert_eq!(from_string.message(), "went wrong");
    let from_str: AppError = "also wrong".into();
    assert_eq!(from_str.kind(), ErrorKind::Unexpected);
    assert_eq!(from_str.message(), "also wrong");
    let from_sqlite = AppError::from(rusqlite::Error::QueryReturnedNoRows);
    assert_eq!(from_sqlite.message(), "Query returned no rows");
}

#[test]
fn platform_suggestions() {
    assert_eq!(
        AppError::io("open: Permission denied (os error 13)").platform_suggestion(),
        Some("Check file permissions or try running with sudo.".to_string())
    );
    assert_eq!(
        AppError::database("database is locked").platform_suggestion(),
        Some("Close other applications that might be accessing the database.".to_string())
    );
    assert_eq!(AppError::io("database is locked").platform_suggestion(), None);
    assert_eq!(AppError::database("Permission denied").platform_suggestion(), None);
    assert_eq!(AppError::validation("locked Permission denied").platform_suggestion(), None);
}

#[test]
fn database_error_prints_its_stage() {
    assert_eq!(
        DatabaseError::ConnectionFailed("x".to_string()).to_string(),
        "Database connection failed: x"
    );
    assert_eq!(
        DatabaseError::SchemaFailed("x".to_string()).to_string(),
        "Schema initialization failed: x"
    );
    assert_eq!(
        DatabaseError::QueryFailed("x".to_string()).to_string(),
        "Query execution failed: x"
    );
    assert_eq!(
        DatabaseError::EncryptionFailed("x".to_string()).to_string(),
        "Encryption setup failed: x"
    );
}

#[test]
fn configuration_presets() {
    let default = DatabaseConfig::default();
    assert_eq!(default.encryption_key, "");
    assert_eq!(
        default.pragma_settings,
        vec![
            "PRAGMA foreign_keys = ON",
            "PRAGMA journal_mode = WAL",
            "PRAGMA synchronous = NORMAL",
            "PRAGMA cache_size = 10000",
            "PRAGMA temp_store = MEMORY",
        ]
    );
    assert!(!default.backup_enabled);
    assert_eq!(default.pool_config.max_size, 10);
    assert_eq!(default.pool_config.min_idle, Some(2));
    assert_eq!(default.pool_config.timeout_seconds, 30);
    assert!(default.validate().is_ok());

    let production = DatabaseConfig::production("key-1".to_string());
    assert_eq!(production.encryption_key, "key-1");
    assert_eq!(production.pragma_settings.len(), 6);
    assert_eq!(production.pragma_settings[2], "PRAGMA synchronous = FULL");
    assert_eq!(production.pragma_settings[5], "PRAGMA secure_delete = ON");
    assert!(production.backup_enabled);
    assert_eq!(production.pool_config.max_size, 20);
    assert_eq!(production.pool_config.min_idle, Some(5));
    assert_eq!(production.pool_config.timeout_seconds, 60);
    assert!(production.validate().is_ok());

    let memory = DatabaseConfig::in_memory();
    assert_eq!(
        memory.pragma_settings,
        vec!["PRAGMA foreign_keys = ON", "PRAGMA temp_store = MEMORY", "PRAGMA cache_size = 10000"]
    );
    assert_eq!(memory.pool_config.max_size, 5);
    assert_eq!(memory.pool_config.min_idle, Some(1));
    assert_eq!(memory.pool_config.timeout_seconds, 10);
    assert_eq!(memory.setup_statements(), memory.pragma_settings);

    let pool = PoolConfig::default();
    assert_eq!((pool.max_size, pool.min_idle, pool.timeout_seconds), (10, Some(2), 30));
}

#[test]
fn configuration_validation_reports_the_first_broken_rule() {
    let mut config = DatabaseConfig::default();
    config.pool_config = PoolConfig { max_size: 0, min_idle: Some(3), timeout_seconds: 0 };
    assert_eq!(config.validate().unwrap_err().message(), "Pool max_size must be greater than 0");
    config.pool_config = PoolConfig { max_size: 2, min_idle: Some(3), timeout_seconds: 0 };
    assert_eq!(config.validate().unwrap_err().message(), "Pool timeout must be greater than 0");
    config.pool_config =
        PoolConfig { max_size: 2, min_idle: Some(3), timeout_seconds: 4294967296 };
    assert_eq!(
        config.validate().unwrap_err().message(),
        "min_idle cannot be greater than max_size"
    );
    config.pool_config = PoolConfig { max_size: 1, min_idle: None, timeout_seconds: u64::MAX };
    assert!(config.validate().is_ok());
    assert_eq!(config.pool_config.timeout_seconds, u64::MAX);
    config.pool_config = PoolConfig { max_size: 2, min_idle: Some(3), timeout_seconds: 1 };
    let error = config.validate().unwrap_err();
    assert_eq!(error.kind(), ErrorKind::Validation);
    assert_eq!(error.message(), "min_idle cannot be greater than max_size");
    config.pool_config = PoolConfig { max_size: 2, min_idle: Some(2), timeout_seconds: 1 };
    assert!(config.validate().is_ok());
    config.pool_config = PoolConfig { max_size: 1, min_idle: None, timeout_seconds: 1 };
    assert!(config.validate().is_ok());
}

#[test]
fn encryption_key_characters() {
    let mut config = DatabaseConfig::default();
    for good in ["", "abc", "A-b_9", "schlüssel"] {
        config.encryption_key = good.to_string();
        assert!(config.validate_encryption_key().is_ok(), "{}", good);
    }
    for bad in ["a b", "a'b", "a;b", "a\"b", "key=1", "a\nb"] {
        config.encryption_key = bad.to_string();
        let error = config.validate_encryption_key().unwrap_err();
        assert_eq!(error.kind(), ErrorKind::Encryption);
        assert!(!error.message().contains(bad));
    }
}

#[test]
fn key_characters_are_decided_from_their_class() {
    assert!(key_char_is_allowed('a', true));
    assert!(key_char_is_allowed('-', false));
    assert!(key_char_is_allowed('_', false));
    assert!(!key_char_is_allowed('\'', false));
    assert!(!key_char_is_allowed(' ', false));
    assert!(!key_char_is_allowed(';', false));
}

#[test]
fn faults_are_marked() {
    let fault = AppError::fault("index out of bounds");
    assert_eq!(fault.kind(), ErrorKind::Unexpected);
    assert_eq!(fault.message(), "Fault: index out of bounds");
    assert!(fault.is_fault());
    assert!(fault.is_critical());
    assert!(!AppError::unexpected("plain").is_fault());
    assert!(!AppError::database("Fault: not this kind").is_fault());
    assert_eq!(
        fault.user_message(),
        "An unexpected error occurred. Please try again or contact support."
    );
}
