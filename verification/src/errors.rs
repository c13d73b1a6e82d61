//! The error type shared by every component.

use vstd::prelude::*;
use crate::sqlite::sqlite_error_text;
use crate::text::{contains, is_substring, join2};

verus! {

/// The category of an [`AppError`].
#[derive(Clone, Copy, Debug, PartialEq, Eq, Structural)]
pub enum ErrorKind {
    Database,
    Io,
    Validation,
    NotFound,
    Api,
    Encryption,
    Unexpected,
}

/// Unified error of the library: a category and a message.
#[derive(Debug)]
pub enum AppError {
    /// Connection, query and schema failures.
    Database { message: String },
    /// File and network failures.
    Io { message: String },
    /// Rejected input or configuration.
    Validation { message: String },
    /// A lookup found nothing.
    NotFound { message: String },
    /// A remote service failed.
    Api { message: String },
    /// Key material or encryption setup failed.
    Encryption { message: String },
    /// A fault or any failure without a category of its own.
    Unexpected { message: String },
}

/// Result with [`AppError`] as its error.
pub type AppResult<T> = Result<T, AppError>;

/// Failures of the database layer, by stage.
#[derive(Debug)]
pub enum DatabaseError {
    ConnectionFailed(String),
    SchemaFailed(String),
    QueryFailed(String),
    EncryptionFailed(String),
}

impl AppError {
    /// The category of this error.
    pub open spec fn spec_kind(&self) -> ErrorKind {
        match self {
            AppError::Database { .. } => ErrorKind::Database,
            AppError::Io { .. } => ErrorKind::Io,
            AppError::Validation { .. } => ErrorKind::Validation,
            AppError::NotFound { .. } => ErrorKind::NotFound,
            AppError::Api { .. } => ErrorKind::Api,
            AppError::Encryption { .. } => ErrorKind::Encryption,
            AppError::Unexpected { .. } => ErrorKind::Unexpected,
        }
    }

    /// The characters of this error's message.
    pub open spec fn spec_message(&self) -> Seq<char> {
        match self {
            AppError::Database { message } => message@,
            AppError::Io { message } => message@,
            AppError::Validation { message } => message@,
            AppError::NotFound { message } => message@,
            AppError::Api { message } => message@,
            AppError::Encryption { message } => message@,
            AppError::Unexpected { message } => message@,
        }
    }

    /// This error has the given category and message.
    pub open spec fn is(&self, kind: ErrorKind, message: Seq<char>) -> bool {
        self.spec_kind() == kind && self.spec_message() == message
    }

    /// The category of this error.
    #[verifier::when_used_as_spec(spec_kind)]
    pub fn kind(&self) -> (k: ErrorKind)
        ensures
            k == self.spec_kind(),
    {
        match self {
            AppError::Database { .. } => ErrorKind::Database,
            AppError::Io { .. } => ErrorKind::Io,
            AppError::Validation { .. } => ErrorKind::Validation,
            AppError::NotFound { .. } => ErrorKind::NotFound,
            AppError::Api { .. } => ErrorKind::Api,
            AppError::Encryption { .. } => ErrorKind::Encryption,
            AppError::Unexpected { .. } => ErrorKind::Unexpected,
        }
    }

    /// The message of this error.
    pub fn message(&self) -> (m: &String)
        ensures
            m@ == self.spec_message(),
    {
        match self {
            AppError::Database { message } => message,
            AppError::Io { message } => message,
            AppError::Validation { message } => message,
            AppError::NotFound { message } => message,
            AppError::Api { message } => message,
            AppError::Encryption { message } => message,
            AppError::Unexpected { message } => message,
        }
    }

    /// A database error with the given message.
    pub fn database(message: &str) -> (e: Self)
        ensures
            e.is(ErrorKind::Database, message@),
    {
        AppError::Database { message: String::from_str(message) }
    }

    /// A validation error with the given message.
    pub fn validation(message: &str) -> (e: Self)
        ensures
            e.is(ErrorKind::Validation, message@),
    {
        AppError::Validation { message: String::from_str(message) }
    }

    /// A not-found error with the given message.
    pub fn not_found(message: &str) -> (e: Self)
        ensures
            e.is(ErrorKind::NotFound, message@),
    {
        AppError::NotFound { message: String::from_str(message) }
    }

    /// A remote-service error with the given message.
    pub fn api(message: &str) -> (e: Self)
        ensures
            e.is(ErrorKind::Api, message@),
    {
        AppError::Api { message: String::from_str(message) }
    }

    /// An encryption error with the given message.
    pub fn encryption(message: &str) -> (e: Self)
        ensures
            e.is(ErrorKind::Encryption, message@),
    {
        AppError::Encryption { message: String::from_str(message) }
    }

    /// An I/O error with the given message.
    pub fn io(message: &str) -> (e: Self)
        ensures
            e.is(ErrorKind::Io, message@),
    {
        AppError::Io { message: String::from_str(message) }
    }

    /// An unexpected error with the given message.
    pub fn unexpected(message: &str) -> (e: Self)
        ensures
            e.is(ErrorKind::Unexpected, message@),
    {
        AppError::Unexpected { message: String::from_str(message) }
    }

    /// The message of a fault: the marker `Fault: `, then what the fault said.
    pub open spec fn fault_message(detail: Seq<char>) -> Seq<char> {
        "Fault: "@ + detail
    }

    /// The error that stands for a fault (a panic or an abort) inside a
    /// supervised thunk. The boundary that isolates the fault makes it, so
    /// that a scope sees a fault as a failure like any other and undoes the
    /// work.
    pub fn fault(detail: &str) -> (e: Self)
        ensures
            e.is(ErrorKind::Unexpected, Self::fault_message(detail@)),
            e.spec_is_fault(),
    {
        let message = join2("Fault: ", detail);
        assert(message@.subrange(0, "Fault: "@.len() as int) =~= "Fault: "@);
        AppError::Unexpected { message }
    }

    /// Whether this error stands for a fault.
    pub open spec fn spec_is_fault(&self) -> bool {
        self.spec_kind() == ErrorKind::Unexpected && crate::text::is_prefix(
            "Fault: "@,
            self.spec_message(),
        )
    }

    /// Whether this error stands for a fault.
    pub fn is_fault(&self) -> (yes: bool)
        ensures
            yes == self.spec_is_fault(),
    {
        match self {
            AppError::Unexpected { message } => crate::text::starts_with(message.as_str(), "Fault: "),
            _ => false,
        }
    }

    /// Whether a category is logged at error level: database, encryption and
    /// unexpected failures are, the others are warnings.
    pub open spec fn kind_is_critical(kind: ErrorKind) -> bool {
        kind == ErrorKind::Database || kind == ErrorKind::Encryption || kind
            == ErrorKind::Unexpected
    }

    /// Whether this error is logged at error level.
    pub fn is_critical(&self) -> (critical: bool)
        ensures
            critical == Self::kind_is_critical(self.spec_kind()),
    {
        match self {
            AppError::Database { .. } => true,
            AppError::Encryption { .. } => true,
            AppError::Unexpected { .. } => true,
            _ => false,
        }
    }

    /// The text shown to a user for an error of this category and message.
    /// Only validation and not-found errors show their own message; the other
    /// categories show a fixed sentence, so that no technical detail leaks.
    pub open spec fn spec_user_message(kind: ErrorKind, message: Seq<char>) -> Seq<char> {
        match kind {
            ErrorKind::Database => "A database error occurred. Please try again or contact support."@,
            ErrorKind::Io => "A file or network error occurred. Please check your connection and try again."@,
            ErrorKind::Validation => message,
            ErrorKind::NotFound => message,
            ErrorKind::Api => "The AI service is temporarily unavailable. Please try again later."@,
            ErrorKind::Encryption => "A security error occurred. Please restart the application."@,
            ErrorKind::Unexpected => "An unexpected error occurred. Please try again or contact support."@,
        }
    }

    /// The text shown to a user for this error.
    pub fn user_message(&self) -> (text: String)
        ensures
            text@ == Self::spec_user_message(self.spec_kind(), self.spec_message()),
    {
        match self {
            AppError::Database { .. } => String::from_str(
                "A database error occurred. Please try again or contact support.",
            ),
            AppError::Io { .. } => String::from_str(
                "A file or network error occurred. Please check your connection and try again.",
            ),
            AppError::Validation { message } => message.clone(),
            AppError::NotFound { message } => message.clone(),
            AppError::Api { .. } => String::from_str(
                "The AI service is temporarily unavailable. Please try again later.",
            ),
            AppError::Encryption { .. } => String::from_str(
                "A security error occurred. Please restart the application.",
            ),
            AppError::Unexpected { .. } => String::from_str(
                "An unexpected error occurred. Please try again or contact support.",
            ),
        }
    }

    /// The label that precedes the message in the technical text.
    pub open spec fn kind_label(kind: ErrorKind) -> Seq<char> {
        match kind {
            ErrorKind::Database => "Database error: "@,
            ErrorKind::Io => "I/O error: "@,
            ErrorKind::Validation => "Validation error: "@,
            ErrorKind::NotFound => "Not found: "@,
            ErrorKind::Api => "API error: "@,
            ErrorKind::Encryption => "Encryption error: "@,
            ErrorKind::Unexpected => "Unexpected error: "@,
        }
    }

    /// The text written to logs: the category's label, then the message.
    pub fn technical_message(&self) -> (text: String)
        ensures
            text@ == Self::kind_label(self.spec_kind()) + self.spec_message(),
    {
        match self {
            AppError::Database { message } => join2("Database error: ", message.as_str()),
            AppError::Io { message } => join2("I/O error: ", message.as_str()),
            AppError::Validation { message } => join2("Validation error: ", message.as_str()),
            AppError::NotFound { message } => join2("Not found: ", message.as_str()),
            AppError::Api { message } => join2("API error: ", message.as_str()),
            AppError::Encryption { message } => join2("Encryption error: ", message.as_str()),
            AppError::Unexpected { message } => join2("Unexpected error: ", message.as_str()),
        }
    }

    /// The same text as [`AppError::technical_message`]: what the error prints as.
    pub fn to_string(&self) -> (text: String)
        ensures
            text@ == Self::kind_label(self.spec_kind()) + self.spec_message(),
    {
        self.technical_message()
    }

    /// The hint for an error of this category and message, if there is one.
    pub open spec fn spec_platform_suggestion(kind: ErrorKind, message: Seq<char>) -> Option<
        Seq<char>,
    > {
        if kind == ErrorKind::Io && is_substring("Permission denied"@, message) {
            Some("Check file permissions or try running with sudo."@)
        } else if kind == ErrorKind::Database && is_substring("locked"@, message) {
            Some("Close other applications that might be accessing the database."@)
        } else {
            None
        }
    }

    /// A hint on how to recover, for the failures that have a common cause:
    /// an I/O error that mentions a denied permission and a database error
    /// that mentions a lock.
    pub fn platform_suggestion(&self) -> (hint: Option<String>)
        ensures
            match Self::spec_platform_suggestion(self.spec_kind(), self.spec_message()) {
                Some(text) => hint matches Some(h) && h@ == text,
                None => hint is None,
            },
    {
        match self {
            AppError::Io { message } => {
                if contains(message.as_str(), "Permission denied") {
                    Some(String::from_str("Check file permissions or try running with sudo."))
                } else {
                    None
                }
            },
            AppError::Database { message } => {
                if contains(message.as_str(), "locked") {
                    Some(
                        String::from_str(
                            "Close other applications that might be accessing the database.",
                        ),
                    )
                } else {
                    None
                }
            },
            _ => None,
        }
    }
}

impl DatabaseError {
    /// The label that precedes the detail in the printed form.
    pub open spec fn label(&self) -> Seq<char> {
        match self {
            DatabaseError::ConnectionFailed(_) => "Database connection failed: "@,
            DatabaseError::SchemaFailed(_) => "Schema initialization failed: "@,
            DatabaseError::QueryFailed(_) => "Query execution failed: "@,
            DatabaseError::EncryptionFailed(_) => "Encryption setup failed: "@,
        }
    }

    /// The detail carried by this error.
    pub open spec fn detail(&self) -> Seq<char> {
        match self {
            DatabaseError::ConnectionFailed(d) => d@,
            DatabaseError::SchemaFailed(d) => d@,
            DatabaseError::QueryFailed(d) => d@,
            DatabaseError::EncryptionFailed(d) => d@,
        }
    }

    /// What the error prints as: the stage's label, then the detail.
    pub fn to_string(&self) -> (text: String)
        ensures
            text@ == self.label() + self.detail(),
    {
        match self {
            DatabaseError::ConnectionFailed(d) => join2("Database connection failed: ", d.as_str()),
            DatabaseError::SchemaFailed(d) => join2("Schema initialization failed: ", d.as_str()),
            DatabaseError::QueryFailed(d) => join2("Query execution failed: ", d.as_str()),
            DatabaseError::EncryptionFailed(d) => join2("Encryption setup failed: ", d.as_str()),
        }
    }
}

impl From<String> for AppError {
    /// A bare message is an unexpected error.
    fn from(message: String) -> (e: Self) {
        AppError::Unexpected { message }
    }
}

impl vstd::std_specs::convert::FromSpecImpl<String> for AppError {
    open spec fn obeys_from_spec() -> bool {
        true
    }

    open spec fn from_spec(message: String) -> Self {
        AppError::Unexpected { message }
    }
}

impl From<rusqlite::Error> for AppError {
    /// A failure reported by SQLite is a database error with the engine's text.
    fn from(error: rusqlite::Error) -> (e: Self)
        ensures
            e.spec_kind() == ErrorKind::Database,
    {
        AppError::Database { message: sqlite_error_text(&error) }
    }
}

impl vstd::std_specs::convert::FromSpecImpl<rusqlite::Error> for AppError {
    open spec fn obeys_from_spec() -> bool {
        false
    }

    open spec fn from_spec(error: rusqlite::Error) -> Self {
        arbitrary()
    }
}

impl<'a> From<&'a str> for AppError {
    /// A bare message is an unexpected error.
    fn from(message: &'a str) -> (e: Self)
        ensures
            e.is(ErrorKind::Unexpected, message@),
    {
        AppError::Unexpected { message: String::from_str(message) }
    }
}

impl<'a> vstd::std_specs::convert::FromSpecImpl<&'a str> for AppError {
    open spec fn obeys_from_spec() -> bool {
        false
    }

    open spec fn from_spec(message: &'a str) -> Self {
        arbitrary()
    }
}

} // verus!
