//! All-or-nothing scopes on one connection: transactions, and savepoints
//! nested inside them.

use vstd::prelude::*;
use crate::errors::{AppError, AppResult, ErrorKind};
use crate::sqlite::{
    begin, commit_transaction, open_nested_savepoint, open_savepoint, release_savepoint,
    rollback_savepoint, rollback_transaction, sqlite_error_text,
};
use crate::text::join2;

verus! {

/// Where a transaction scope stands.
#[derive(Clone, Copy, Debug, PartialEq, Eq, Structural)]
pub enum TransactionState {
    /// No transaction was opened.
    Idle,
    /// The transaction is open and pins its connection.
    InTransaction,
    /// The work of the scope is durable.
    Committed,
    /// The work of the scope was undone.
    RolledBack,
}

/// Where a savepoint scope stands.
#[derive(Clone, Copy, Debug, PartialEq, Eq, Structural)]
pub enum SavepointState {
    /// The savepoint could not be opened.
    Unopened,
    /// The savepoint is open.
    Open,
    /// The work since the savepoint was kept and handed to the enclosing scope.
    Released,
    /// The work since the savepoint was undone; earlier work of the enclosing
    /// scope is untouched.
    RolledBack,
}

/// What happens to an open scope once its thunk has returned.
#[derive(Clone, Copy, Debug, PartialEq, Eq, Structural)]
pub enum ScopeAction {
    /// Keep the work: commit the transaction or release the savepoint.
    Keep,
    /// Undo the work: roll the transaction or the savepoint back.
    Undo,
}

/// The rule of every scope: the work is kept exactly when the thunk
/// succeeded, and undone in every other case.
pub open spec fn action_for<T>(thunk_result: AppResult<T>) -> ScopeAction {
    if thunk_result is Ok {
        ScopeAction::Keep
    } else {
        ScopeAction::Undo
    }
}

/// Decides what to do with a scope from what its thunk returned.
pub fn decide<T>(thunk_result: &AppResult<T>) -> (action: ScopeAction)
    ensures
        action == action_for(*thunk_result),
{
    match thunk_result {
        Ok(_) => ScopeAction::Keep,
        Err(_) => ScopeAction::Undo,
    }
}

/// What a transaction scope returned and how it ended.
pub struct TransactionOutcome<T> {
    pub result: AppResult<T>,
    pub state: TransactionState,
}

/// What a savepoint scope returned and how it ended.
pub struct SavepointOutcome<T> {
    pub result: AppResult<T>,
    pub state: SavepointState,
}

/// A database error whose message is `context` followed by the text of the
/// SQLite error.
pub fn database_failure(context: &str, error: &rusqlite::Error) -> (e: AppError)
    ensures
        is_database_failure(e, context@),
{
    let detail = sqlite_error_text(error);
    let message = join2(context, detail.as_str());
    assert(message@.subrange(0, context@.len() as int) =~= context@);
    AppError::Database { message }
}

/// `out` is a value that the thunk `f` can return when it runs inside a
/// transaction.
pub open spec fn transaction_thunk_returns<T, F: FnOnce(&mut rusqlite::Transaction) -> AppResult<
    T,
>>(f: F, out: AppResult<T>) -> bool {
    exists|tx: &mut rusqlite::Transaction| call_ensures(f, (tx,), out)
}

/// How a transaction scope may end, for the value it returns: with the
/// thunk's own value and the work committed, with the thunk's own error and
/// the work rolled back, or with a database error because the transaction
/// could not be begun (nothing was done) or committed (nothing is kept).
pub open spec fn transaction_scope_ends<T, F: FnOnce(&mut rusqlite::Transaction) -> AppResult<T>>(
    f: F,
    outcome: TransactionOutcome<T>,
) -> bool {
    match outcome.result {
        Ok(_) => transaction_thunk_returns(f, outcome.result) && outcome.state
            == TransactionState::Committed,
        Err(e) => {
            ||| transaction_thunk_returns(f, outcome.result) && outcome.state
                == TransactionState::RolledBack
            ||| is_database_failure(e, "Failed to begin transaction: "@) && outcome.state
                == TransactionState::Idle
            ||| is_database_failure(e, "Failed to commit transaction: "@) && outcome.state
                == TransactionState::RolledBack
        },
    }
}

/// `e` is the database error reported when the step named by `context` fails.
pub open spec fn is_database_failure(e: AppError, context: Seq<char>) -> bool {
    e.spec_kind() == ErrorKind::Database && crate::text::is_prefix(context, e.spec_message())
}

/// Runs `f` inside a transaction on `conn`.
///
/// The transaction is committed exactly when `f` returns `Ok`, and then the
/// value of `f` is returned. When `f` returns an error the transaction is
/// rolled back and that error is returned unchanged. A failure to begin or to
/// commit is a database error, and after a failed commit nothing is kept.
pub fn run_transaction<T, F>(conn: &mut rusqlite::Connection, f: F) -> (outcome:
    TransactionOutcome<T>) where F: FnOnce(&mut rusqlite::Transaction) -> AppResult<T>
    requires
        forall|tx: &mut rusqlite::Transaction| call_requires(f, (tx,)),
    ensures
        transaction_scope_ends(f, outcome),
{
    match begin(conn) {
        Err(e) => TransactionOutcome {
            result: Err(database_failure("Failed to begin transaction: ", &e)),
            state: TransactionState::Idle,
        },
        Ok(mut tx) => {
            let thunk_result = f(&mut tx);
            assert(transaction_thunk_returns(f, thunk_result));
            match decide(&thunk_result) {
                ScopeAction::Keep => match commit_transaction(tx) {
                    Ok(_) => TransactionOutcome {
                        result: thunk_result,
                        state: TransactionState::Committed,
                    },
                    Err(e) => TransactionOutcome {
                        result: Err(database_failure("Failed to commit transaction: ", &e)),
                        state: TransactionState::RolledBack,
                    },
                },
                ScopeAction::Undo => {
                    let _ = rollback_transaction(tx);
                    TransactionOutcome { result: thunk_result, state: TransactionState::RolledBack }
                },
            }
        },
    }
}

/// `out` is a value that the thunk `f` can return when it runs inside a
/// savepoint.
pub open spec fn savepoint_thunk_returns<T, F: FnOnce(&mut rusqlite::Savepoint) -> AppResult<T>>(
    f: F,
    out: AppResult<T>,
) -> bool {
    exists|sp: &mut rusqlite::Savepoint| call_ensures(f, (sp,), out)
}

/// How a savepoint scope may end, for the value it returns: with the thunk's
/// own value and the work released, with the thunk's own error and the work
/// since the savepoint undone, or with a database error because the
/// savepoint could not be opened or released.
pub open spec fn savepoint_scope_ends<T, F: FnOnce(&mut rusqlite::Savepoint) -> AppResult<T>>(
    f: F,
    outcome: SavepointOutcome<T>,
) -> bool {
    match outcome.result {
        Ok(_) => savepoint_thunk_returns(f, outcome.result) && outcome.state
            == SavepointState::Released,
        Err(e) => {
            ||| savepoint_thunk_returns(f, outcome.result) && outcome.state
                == SavepointState::RolledBack
            ||| is_database_failure(e, "Failed to create savepoint: "@) && outcome.state
                == SavepointState::Unopened
            ||| is_database_failure(e, "Failed to commit savepoint: "@) && outcome.state
                == SavepointState::RolledBack
        },
    }
}

/// Closes an open savepoint according to what its thunk returned: released
/// when the thunk succeeded, rolled back otherwise.
fn close_savepoint<T>(mut sp: rusqlite::Savepoint<'_>, thunk_result: AppResult<T>) -> (outcome:
    SavepointOutcome<T>)
    ensures
        match thunk_result {
            Ok(_) => {
                ||| outcome.result == thunk_result && outcome.state == SavepointState::Released
                ||| outcome.result matches Err(e) && is_database_failure(
                    e,
                    "Failed to commit savepoint: "@,
                ) && outcome.state == SavepointState::RolledBack
            },
            Err(_) => outcome.result == thunk_result && outcome.state
                == SavepointState::RolledBack,
        },
{
    match decide(&thunk_result) {
        ScopeAction::Keep => match release_savepoint(sp) {
            Ok(_) => SavepointOutcome { result: thunk_result, state: SavepointState::Released },
            Err(e) => SavepointOutcome {
                result: Err(database_failure("Failed to commit savepoint: ", &e)),
                state: SavepointState::RolledBack,
            },
        },
        ScopeAction::Undo => {
            let _ = rollback_savepoint(&mut sp);
            SavepointOutcome { result: thunk_result, state: SavepointState::RolledBack }
        },
    }
}

/// Runs `f` inside a savepoint of the open transaction `tx`.
///
/// The savepoint is released exactly when `f` returns `Ok`. When `f` returns
/// an error, only the work since the savepoint is rolled back and the error
/// is returned unchanged: the transaction stays open and its earlier work is
/// untouched, so the caller may go on, retry or fail.
pub fn run_savepoint<T, F>(tx: &mut rusqlite::Transaction, name: &str, f: F) -> (outcome:
    SavepointOutcome<T>) where F: FnOnce(&mut rusqlite::Savepoint) -> AppResult<T>
    requires
        forall|sp: &mut rusqlite::Savepoint| call_requires(f, (sp,)),
    ensures
        savepoint_scope_ends(f, outcome),
{
    match open_savepoint(tx, name) {
        Err(e) => SavepointOutcome {
            result: Err(database_failure("Failed to create savepoint: ", &e)),
            state: SavepointState::Unopened,
        },
        Ok(mut sp) => {
            let thunk_result = f(&mut sp);
            assert(savepoint_thunk_returns(f, thunk_result));
            close_savepoint(sp, thunk_result)
        },
    }
}

/// Runs `f` inside a savepoint nested in the open savepoint `outer`, with the
/// same rule as [`run_savepoint`]: a failure undoes the inner work only.
pub fn run_nested_savepoint<T, F>(outer: &mut rusqlite::Savepoint, name: &str, f: F) -> (outcome:
    SavepointOutcome<T>) where F: FnOnce(&mut rusqlite::Savepoint) -> AppResult<T>
    requires
        forall|sp: &mut rusqlite::Savepoint| call_requires(f, (sp,)),
    ensures
        savepoint_scope_ends(f, outcome),
{
    match open_nested_savepoint(outer, name) {
        Err(e) => SavepointOutcome {
            result: Err(database_failure("Failed to create savepoint: ", &e)),
            state: SavepointState::Unopened,
        },
        Ok(mut sp) => {
            let thunk_result = f(&mut sp);
            assert(savepoint_thunk_returns(f, thunk_result));
            close_savepoint(sp, thunk_result)
        },
    }
}

/// A transaction scope ends committed exactly when it returns a value; in
/// every other case nothing of its work is kept, and no scope stays open.
pub proof fn lemma_commit_exactly_on_success<T, F: FnOnce(&mut rusqlite::Transaction) -> AppResult<
    T,
>>(f: F, outcome: TransactionOutcome<T>)
    requires
        transaction_scope_ends(f, outcome),
    ensures
        outcome.result is Ok <==> outcome.state == TransactionState::Committed,
        outcome.result is Err ==> outcome.state == TransactionState::RolledBack || outcome.state
            == TransactionState::Idle,
        outcome.state != TransactionState::InTransaction,
{
}

/// A savepoint scope ends released exactly when it returns a value; an error
/// leaves the work since the savepoint undone, and no savepoint stays open.
pub proof fn lemma_release_exactly_on_success<T, F: FnOnce(&mut rusqlite::Savepoint) -> AppResult<
    T,
>>(f: F, outcome: SavepointOutcome<T>)
    requires
        savepoint_scope_ends(f, outcome),
    ensures
        outcome.result is Ok <==> outcome.state == SavepointState::Released,
        outcome.result is Err ==> outcome.state == SavepointState::RolledBack || outcome.state
            == SavepointState::Unopened,
        outcome.state != SavepointState::Open,
{
}

/// An error that is not of the database layer came from the thunk, unchanged.
pub proof fn lemma_foreign_error_is_the_thunks<T, F: FnOnce(&mut rusqlite::Transaction) -> AppResult<
    T,
>>(f: F, outcome: TransactionOutcome<T>)
    requires
        transaction_scope_ends(f, outcome),
        outcome.result matches Err(e) && e.spec_kind() != ErrorKind::Database,
    ensures
        transaction_thunk_returns(f, outcome.result),
        outcome.state == TransactionState::RolledBack,
{
}

} // verus!
