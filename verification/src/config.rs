//! Configuration of the database and of its connection pool.

use vstd::prelude::*;
use crate::errors::{AppError, AppResult, ErrorKind};
use crate::text::{is_alphanumeric, is_alphanumeric_char, join3};

verus! {

/// The characters of each string of a sequence.
pub open spec fn texts(v: Seq<String>) -> Seq<Seq<char>> {
    Seq::new(v.len(), |i: int| v[i]@)
}

/// Bounds of the connection pool.
#[derive(Debug, Clone, Copy)]
pub struct PoolConfig {
    /// Largest number of connections the pool opens.
    pub max_size: u32,
    /// Number of idle connections the pool tries to keep, if set.
    pub min_idle: Option<u32>,
    /// How long an acquisition waits for a free connection, in seconds.
    pub timeout_seconds: u64,
}

/// Settings applied to the database and to each of its connections.
#[derive(Debug, Clone)]
pub struct DatabaseConfig {
    /// Encryption key; empty for an unencrypted database.
    pub encryption_key: String,
    /// Pragma statements run on every connection before first use.
    pub pragma_settings: Vec<String>,
    /// Whether backups are taken automatically.
    pub backup_enabled: bool,
    /// Bounds of the connection pool.
    pub pool_config: PoolConfig,
}

/// Why a pool configuration is rejected.
#[derive(Clone, Copy, Debug, PartialEq, Eq, Structural)]
pub enum ConfigFault {
    ZeroMaxSize,
    ZeroTimeout,
    MinIdleAboveMaxSize,
}

impl ConfigFault {
    /// The message reported for this fault.
    pub open spec fn message(self) -> Seq<char> {
        match self {
            ConfigFault::ZeroMaxSize => "Pool max_size must be greater than 0"@,
            ConfigFault::ZeroTimeout => "Pool timeout must be greater than 0"@,
            ConfigFault::MinIdleAboveMaxSize => "min_idle cannot be greater than max_size"@,
        }
    }
}

impl PoolConfig {
    /// The first rule that this configuration breaks, if any: the maximum
    /// size is positive, the timeout is positive, and the minimum number of
    /// idle connections, where one is set, does not exceed the maximum size.
    pub open spec fn fault(&self) -> Option<ConfigFault> {
        if self.max_size == 0 {
            Some(ConfigFault::ZeroMaxSize)
        } else if self.timeout_seconds == 0 {
            Some(ConfigFault::ZeroTimeout)
        } else if self.min_idle matches Some(n) && n > self.max_size {
            Some(ConfigFault::MinIdleAboveMaxSize)
        } else {
            None
        }
    }

    /// The configuration breaks no rule.
    pub open spec fn is_valid(&self) -> bool {
        &&& self.max_size > 0
        &&& self.timeout_seconds > 0
        &&& self.min_idle matches Some(n) ==> n <= self.max_size
    }
}

impl Default for PoolConfig {
    /// Ten connections, two of them kept idle, thirty seconds of patience.
    fn default() -> (c: Self)
        ensures
            c.max_size == 10,
            c.min_idle == Some(2u32),
            c.timeout_seconds == 30,
    {
        PoolConfig { max_size: 10, min_idle: Some(2), timeout_seconds: 30 }
    }
}

/// Pragmas of the interactive preset: moderate durability.
pub open spec fn interactive_pragmas() -> Seq<Seq<char>> {
    seq![
        "PRAGMA foreign_keys = ON"@,
        "PRAGMA journal_mode = WAL"@,
        "PRAGMA synchronous = NORMAL"@,
        "PRAGMA cache_size = 10000"@,
        "PRAGMA temp_store = MEMORY"@,
    ]
}

/// Pragmas of the hardened preset: full durability and secure deletion.
pub open spec fn hardened_pragmas() -> Seq<Seq<char>> {
    seq![
        "PRAGMA foreign_keys = ON"@,
        "PRAGMA journal_mode = WAL"@,
        "PRAGMA synchronous = FULL"@,
        "PRAGMA cache_size = 20000"@,
        "PRAGMA temp_store = MEMORY"@,
        "PRAGMA secure_delete = ON"@,
    ]
}

/// Pragmas of the in-memory preset: no durability pragmas.
pub open spec fn ephemeral_pragmas() -> Seq<Seq<char>> {
    seq![
        "PRAGMA foreign_keys = ON"@,
        "PRAGMA temp_store = MEMORY"@,
        "PRAGMA cache_size = 10000"@,
    ]
}

/// Whether a character may occur in an encryption key: letters, digits,
/// hyphen and underscore.
pub open spec fn key_char_allowed(c: char) -> bool {
    is_alphanumeric_char(c) || c == '-' || c == '_'
}

/// Whether a character may occur in an encryption key, given whether it is
/// a letter or a digit.
pub open spec fn allowed_given(c: char, alphanumeric: bool) -> bool {
    alphanumeric || c == '-' || c == '_'
}

/// Decides whether a character may occur in an encryption key, given
/// whether it is a letter or a digit.
pub fn key_char_is_allowed(c: char, alphanumeric: bool) -> (allowed: bool)
    ensures
        allowed == allowed_given(c, alphanumeric),
{
    alphanumeric || c == '-' || c == '_'
}

/// Whether every character of a key is allowed.
pub open spec fn key_is_well_formed(key: Seq<char>) -> bool {
    forall|i: int| 0 <= i < key.len() ==> key_char_allowed(#[trigger] key[i])
}

/// The statement that hands a key to the database.
pub open spec fn key_statement(key: Seq<char>) -> Seq<char> {
    "PRAGMA key = '"@ + key + "';"@
}

/// Makes the statement that hands a key to the database.
pub fn make_key_statement(key: &str) -> (statement: String)
    ensures
        statement@ == key_statement(key@),
{
    join3("PRAGMA key = '", key, "';")
}

impl Default for DatabaseConfig {
    /// The interactive preset: no encryption, moderate durability, the
    /// default pool.
    fn default() -> (c: Self)
        ensures
            c.encryption_key@.len() == 0,
            texts(c.pragma_settings@) == interactive_pragmas(),
            !c.backup_enabled,
            c.pool_config.max_size == 10,
            c.pool_config.min_idle == Some(2u32),
            c.pool_config.timeout_seconds == 30,
            c.pool_config.is_valid(),
    {
        let mut pragmas: Vec<String> = Vec::new();
        pragmas.push(String::from_str("PRAGMA foreign_keys = ON"));
        pragmas.push(String::from_str("PRAGMA journal_mode = WAL"));
        pragmas.push(String::from_str("PRAGMA synchronous = NORMAL"));
        pragmas.push(String::from_str("PRAGMA cache_size = 10000"));
        pragmas.push(String::from_str("PRAGMA temp_store = MEMORY"));
        assert(texts(pragmas@) =~= interactive_pragmas());
        DatabaseConfig {
            encryption_key: String::new(),
            pragma_settings: pragmas,
            backup_enabled: false,
            pool_config: PoolConfig { max_size: 10, min_idle: Some(2), timeout_seconds: 30 },
        }
    }
}

impl DatabaseConfig {
    /// Checks the pool bounds. Succeeds exactly on a valid pool configuration
    /// and otherwise reports the first broken rule as a validation error. The
    /// configuration is left as it is: a value that breaks a rule is never
    /// replaced by one that keeps it.
    pub fn validate(&self) -> (r: AppResult<()>)
        ensures
            match self.pool_config.fault() {
                None => r is Ok,
                Some(fault) => r matches Err(e) && e.is(ErrorKind::Validation, fault.message()),
            },
            r is Ok <==> self.pool_config.is_valid(),
    {
        if self.pool_config.max_size == 0 {
            return Err(AppError::validation("Pool max_size must be greater than 0"));
        }
        if self.pool_config.timeout_seconds == 0 {
            return Err(AppError::validation("Pool timeout must be greater than 0"));
        }
        match self.pool_config.min_idle {
            Some(min_idle) => {
                if min_idle > self.pool_config.max_size {
                    return Err(AppError::validation("min_idle cannot be greater than max_size"));
                }
            },
            None => {},
        }
        Ok(())
    }

    /// The hardened preset: the given key, full durability, backups, and a
    /// pool of twenty connections with five kept idle and a minute of patience.
    pub fn production(encryption_key: String) -> (c: Self)
        ensures
            c.encryption_key@ == encryption_key@,
            texts(c.pragma_settings@) == hardened_pragmas(),
            c.backup_enabled,
            c.pool_config.max_size == 20,
            c.pool_config.min_idle == Some(5u32),
            c.pool_config.timeout_seconds == 60,
            c.pool_config.is_valid(),
    {
        let mut pragmas: Vec<String> = Vec::new();
        pragmas.push(String::from_str("PRAGMA foreign_keys = ON"));
        pragmas.push(String::from_str("PRAGMA journal_mode = WAL"));
        pragmas.push(String::from_str("PRAGMA synchronous = FULL"));
        pragmas.push(String::from_str("PRAGMA cache_size = 20000"));
        pragmas.push(String::from_str("PRAGMA temp_store = MEMORY"));
        pragmas.push(String::from_str("PRAGMA secure_delete = ON"));
        assert(texts(pragmas@) =~= hardened_pragmas());
        DatabaseConfig {
            encryption_key,
            pragma_settings: pragmas,
            backup_enabled: true,
            pool_config: PoolConfig { max_size: 20, min_idle: Some(5), timeout_seconds: 60 },
        }
    }

    /// The in-memory preset: no encryption, no durability pragmas, and a pool
    /// of five connections with one kept idle and ten seconds of patience.
    pub fn in_memory() -> (c: Self)
        ensures
            c.encryption_key@.len() == 0,
            texts(c.pragma_settings@) == ephemeral_pragmas(),
            !c.backup_enabled,
            c.pool_config.max_size == 5,
            c.pool_config.min_idle == Some(1u32),
            c.pool_config.timeout_seconds == 10,
            c.pool_config.is_valid(),
    {
        let mut pragmas: Vec<String> = Vec::new();
        pragmas.push(String::from_str("PRAGMA foreign_keys = ON"));
        pragmas.push(String::from_str("PRAGMA temp_store = MEMORY"));
        pragmas.push(String::from_str("PRAGMA cache_size = 10000"));
        assert(texts(pragmas@) =~= ephemeral_pragmas());
        DatabaseConfig {
            encryption_key: String::new(),
            pragma_settings: pragmas,
            backup_enabled: false,
            pool_config: PoolConfig { max_size: 5, min_idle: Some(1), timeout_seconds: 10 },
        }
    }

    /// Whether a key is configured.
    pub open spec fn has_key(&self) -> bool {
        self.encryption_key@.len() > 0
    }

    /// Checks the encryption key before it is written into a statement.
    /// Succeeds exactly when every character of the key is a letter, a digit,
    /// a hyphen or an underscore (an empty key passes); otherwise reports an
    /// encryption error whose text does not contain the key.
    pub fn validate_encryption_key(&self) -> (r: AppResult<()>)
        ensures
            r is Ok <==> key_is_well_formed(self.encryption_key@),
            r matches Err(e) ==> e.is(
                ErrorKind::Encryption,
                "Encryption key contains invalid characters. Only alphanumeric, hyphens, and underscores allowed."@,
            ),
    {
        let key = self.encryption_key.as_str();
        let mut all_allowed = true;
        for c in it: key.chars()
            invariant
                it.seq() == key@,
                all_allowed <==> forall|j: int| 0 <= j < it.index() ==> key_char_allowed(#[trigger] key@[j]),
        {
            if !key_char_is_allowed(c, is_alphanumeric(c)) {
                all_allowed = false;
            }
        }
        if all_allowed {
            Ok(())
        } else {
            Err(
                AppError::encryption(
                    "Encryption key contains invalid characters. Only alphanumeric, hyphens, and underscores allowed.",
                ),
            )
        }
    }

    /// The statements of a connection's setup: the pragmas in order, then the
    /// key statement if a key is configured.
    pub open spec fn spec_setup_statements(&self) -> Seq<Seq<char>> {
        if self.has_key() {
            texts(self.pragma_settings@).push(key_statement(self.encryption_key@))
        } else {
            texts(self.pragma_settings@)
        }
    }

    /// The statements that every connection runs before first use.
    pub fn setup_statements(&self) -> (statements: Vec<String>)
        ensures
            texts(statements@) == self.spec_setup_statements(),
    {
        let mut statements: Vec<String> = Vec::new();
        let mut i: usize = 0;
        while i < self.pragma_settings.len()
            invariant
                i <= self.pragma_settings.len(),
                statements@.len() == i,
                texts(statements@) == texts(self.pragma_settings@).subrange(0, i as int),
            decreases self.pragma_settings.len() - i,
        {
            let ghost before = statements@;
            let piece = self.pragma_settings[i].clone();
            statements.push(piece);
            assert(statements@ == before.push(piece));
            assert forall|j: int| 0 <= j < i + 1 implies texts(statements@)[j] == texts(
                self.pragma_settings@,
            )[j] by {
                if j < i {
                    assert(texts(before)[j] == texts(self.pragma_settings@).subrange(0, i as int)[j]);
                    assert(statements@[j] == before[j]);
                } else {
                    assert(statements@[j] == piece);
                }
            }
            assert(texts(statements@) =~= texts(self.pragma_settings@).subrange(0, i + 1));
            i += 1;
        }
        assert(texts(self.pragma_settings@).subrange(0, i as int) =~= texts(
            self.pragma_settings@,
        ));
        if !self.encryption_key.as_str().is_empty() {
            statements.push(make_key_statement(self.encryption_key.as_str()));
            assert(texts(statements@) =~= self.spec_setup_statements());
        }
        statements
    }
}

} // verus!
