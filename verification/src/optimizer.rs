//! Maintenance helpers: batched inserts, query plans and compaction.

use vstd::prelude::*;
use vstd::slice::slice_subrange;
use crate::config::texts;
use crate::errors::{AppError, AppResult, ErrorKind};
use crate::manager::DatabaseManager;
use crate::sqlite::{
    execute_batch, next_text, prepare, query, query_integer, transaction_connection, SqlParam,
};
use crate::text::{join2, push_char, push_text};

verus! {

/// Splits bulk inserts into batches, each in a transaction of its own.
#[derive(Debug, Clone, Copy)]
pub struct BatchInserter {
    batch_size: usize,
}

/// The items split into batches of `batch_size` from the front; the last
/// batch holds what is left.
pub open spec fn batches<T>(items: Seq<T>, batch_size: nat) -> Seq<Seq<T>>
    decreases items.len(),
{
    if items.len() == 0 || batch_size == 0 {
        Seq::empty()
    } else if items.len() <= batch_size {
        seq![items]
    } else {
        seq![items.take(batch_size as int)] + batches(items.skip(batch_size as int), batch_size)
    }
}

/// The sum of the counts.
pub open spec fn sum_counts(counts: Seq<usize>) -> nat
    decreases counts.len(),
{
    if counts.len() == 0 {
        0
    } else {
        sum_counts(counts.drop_last()) + counts.last() as nat
    }
}

/// `count` is what `insert_fn` can report for a batch with these items.
pub open spec fn batch_reports<T, F: Fn(&rusqlite::Connection, &[T]) -> AppResult<usize>>(
    insert_fn: F,
    items: Seq<T>,
    count: usize,
) -> bool {
    exists|conn: &rusqlite::Connection, batch: &[T]|
        batch@ == items && call_ensures(insert_fn, (conn, batch), Ok::<usize, AppError>(count))
}

/// `counts` are what `insert_fn` can report for the batches, one by one.
pub open spec fn all_reported<T, F: Fn(&rusqlite::Connection, &[T]) -> AppResult<usize>>(
    insert_fn: F,
    parts: Seq<Seq<T>>,
    counts: Seq<usize>,
) -> bool {
    counts.len() == parts.len() && forall|k: int|
        0 <= k < counts.len() ==> batch_reports(insert_fn, #[trigger] parts[k], counts[k])
}

impl BatchInserter {
    /// The number of items per batch.
    pub closed spec fn spec_batch_size(&self) -> nat {
        self.batch_size as nat
    }

    /// An inserter with the given number of items per batch.
    pub fn new(batch_size: usize) -> (inserter: Self)
        ensures
            inserter.spec_batch_size() == batch_size,
    {
        BatchInserter { batch_size }
    }

    /// The number of items per batch.
    pub fn batch_size(&self) -> (size: usize)
        ensures
            size == self.spec_batch_size(),
    {
        self.batch_size
    }

    /// Inserts the items batch by batch. Each batch runs `insert_fn` in a
    /// transaction of its own, so a failing batch leaves nothing of itself
    /// behind; the batches before it stay committed and the error is
    /// returned. The result is the sum of what `insert_fn` reported for the
    /// batches.
    ///
    /// A batch size of zero is a validation error, and a sum that does not
    /// fit the result type is an unexpected error.
    pub fn batch_insert<T, F>(&self, db: &DatabaseManager, items: Vec<T>, insert_fn: F) -> (r:
        AppResult<usize>) where F: Fn(&rusqlite::Connection, &[T]) -> AppResult<usize>
        requires
            forall|conn: &rusqlite::Connection, batch: &[T]| call_requires(insert_fn, (conn, batch)),
        ensures
            self.spec_batch_size() == 0 ==> (r matches Err(e) && e.is(
                ErrorKind::Validation,
                "Batch size must be greater than 0"@,
            )),
            self.spec_batch_size() > 0 && items@.len() == 0 ==> r == Ok::<usize, AppError>(0usize),
            r matches Ok(total) ==> exists|counts: Seq<usize>|
                total == #[trigger] sum_counts(counts) && all_reported(
                    insert_fn,
                    batches(items@, self.spec_batch_size()),
                    counts,
                ),
    {
        if self.batch_size == 0 {
            return Err(AppError::validation("Batch size must be greater than 0"));
        }
        let mut total: usize = 0;
        let mut start: usize = 0;
        let ghost mut counts: Seq<usize> = Seq::empty();
        let ghost mut done: Seq<Seq<T>> = Seq::empty();
        proof {
            assert(items@.skip(0) =~= items@);
            assert(done + batches(items@, self.batch_size as nat) =~= batches(
                items@,
                self.batch_size as nat,
            ));
        }
        while start < items.len()
            invariant
                start <= items.len(),
                self.batch_size > 0,
                total == sum_counts(counts),
                start == 0 ==> total == 0,
                all_reported(insert_fn, done, counts),
                batches(items@, self.batch_size as nat) == done + batches(
                    items@.skip(start as int),
                    self.batch_size as nat,
                ),
                forall|conn: &rusqlite::Connection, batch: &[T]|
                    call_requires(insert_fn, (conn, batch)),
            decreases items.len() - start,
        {
            let end: usize = if items.len() - start > self.batch_size {
                start + self.batch_size
            } else {
                items.len()
            };
            let batch = slice_subrange(items.as_slice(), start, end);
            let ghost rest = items@.skip(start as int);
            proof {
                if items.len() - start > self.batch_size {
                    assert(batch@ =~= rest.take(self.batch_size as int));
                    assert(rest.skip(self.batch_size as int) =~= items@.skip(end as int));
                } else {
                    assert(batch@ =~= rest);
                    assert(items@.skip(end as int) =~= Seq::<T>::empty());
                }
                assert(batches(rest, self.batch_size as nat) =~= seq![batch@] + batches(
                    items@.skip(end as int),
                    self.batch_size as nat,
                ));
            }
            let thunk = |tx: &mut rusqlite::Transaction| -> (reported: AppResult<usize>)
                ensures
                    reported is Ok ==> batch_reports(insert_fn, batch@, reported->Ok_0),
                {
                    let conn = transaction_connection(tx);
                    let reported = insert_fn(conn, batch);
                    assert(call_ensures(insert_fn, (conn, batch), reported));
                    reported
                };
            let inserted = db.with_transaction(thunk);
            match inserted {
                Err(e) => {
                    return Err(e);
                },
                Ok(n) => {
                    assert(batch_reports(insert_fn, batch@, n));
                    if n > usize::MAX - total {
                        return Err(AppError::unexpected("Inserted row count is out of range"));
                    }
                    proof {
                        let longer = counts.push(n);
                        assert(longer.drop_last() =~= counts);
                        let more = done.push(batch@);
                        assert forall|k: int| 0 <= k < longer.len() implies batch_reports(
                            insert_fn,
                            #[trigger] more[k],
                            longer[k],
                        ) by {
                            if k < counts.len() {
                                assert(more[k] == done[k]);
                            }
                        }
                        assert(done + (seq![batch@] + batches(
                            items@.skip(end as int),
                            self.batch_size as nat,
                        )) =~= more + batches(items@.skip(end as int), self.batch_size as nat));
                        counts = longer;
                        done = more;
                    }
                    total = total + n;
                },
            }
            start = end;
        }
        proof {
            assert(items@.skip(start as int) =~= Seq::<T>::empty());
            assert(done + Seq::<Seq<T>>::empty() =~= done);
        }
        Ok(total)
    }
}

/// The text of a query plan: each line of detail followed by a line break.
pub open spec fn plan_text(lines: Seq<Seq<char>>) -> Seq<char>
    decreases lines.len(),
{
    if lines.len() == 0 {
        Seq::empty()
    } else {
        plan_text(lines.drop_last()) + lines.last() + seq!['\n']
    }
}

/// Appends one line of detail to a plan.
pub fn push_plan_line(plan: &mut String, detail: &str)
    ensures
        final(plan)@ == old(plan)@ + detail@ + seq!['\n'],
{
    push_text(plan, detail);
    push_char(plan, '\n');
    assert(plan@ =~= old(plan)@ + detail@ + seq!['\n']);
}

/// The statement that asks the engine how it would run `query_text`.
pub fn explain_statement(query_text: &str) -> (statement: String)
    ensures
        statement@ == "EXPLAIN QUERY PLAN "@ + query_text@,
{
    join2("EXPLAIN QUERY PLAN ", query_text)
}

/// Asks the engine how it would run `query` and returns the plan, one line
/// of detail per step: the engine is handed [`explain_statement`], and each
/// row it gives is appended by [`push_plan_line`]. Every failure of the
/// engine is a database error.
pub fn analyze_query_plan(conn: &rusqlite::Connection, query_text: &str) -> (r: AppResult<String>)
    ensures
        r matches Ok(plan) ==> exists|lines: Seq<Seq<char>>| plan@ == #[trigger] plan_text(lines),
        r matches Err(e) ==> e.spec_kind() == ErrorKind::Database,
{
    let explain = explain_statement(query_text);
    let mut stmt = match prepare(conn, explain.as_str()) {
        Ok(stmt) => stmt,
        Err(e) => {
            return Err(AppError::from(e));
        },
    };
    let no_params: Vec<SqlParam> = Vec::new();
    let mut rows = match query(&mut stmt, &no_params) {
        Ok(rows) => rows,
        Err(e) => {
            return Err(AppError::from(e));
        },
    };
    let mut plan = String::new();
    let ghost mut lines: Seq<Seq<char>> = Seq::empty();
    let mut steps: usize = 0;
    while steps < usize::MAX
        invariant
            plan@ == plan_text(lines),
        decreases usize::MAX - steps,
    {
        match next_text(&mut rows, 3) {
            Err(e) => {
                return Err(AppError::from(e));
            },
            Ok(None) => {
                return Ok(plan);
            },
            Ok(Some(detail)) => {
                push_plan_line(&mut plan, detail.as_str());
                proof {
                    let longer = lines.push(detail@);
                    assert(longer.drop_last() =~= lines);
                    lines = longer;
                }
            },
        }
        steps += 1;
    }
    Ok(plan)
}

/// The size of the database file before and after compaction, in bytes.
#[derive(Debug, Clone, Copy, PartialEq, Eq)]
pub struct SizeReport {
    pub size_before: i64,
    pub size_after: i64,
}

impl SizeReport {
    /// The bytes that compaction freed, if the difference is representable.
    pub fn saved_bytes(&self) -> (saved: Option<i64>)
        ensures
            match saved {
                Some(n) => n == self.size_before - self.size_after,
                None => self.size_before - self.size_after > i64::MAX || self.size_before
                    - self.size_after < i64::MIN,
            },
    {
        self.size_before.checked_sub(self.size_after)
    }
}

/// The statement that measures the size of the database file.
pub const DATABASE_SIZE: &'static str =
    "SELECT page_count * page_size as size FROM pragma_page_count(), pragma_page_size()";

/// The statements of a compaction, in the order they run: refresh the
/// planner's statistics, measure the file, rebuild it into the least space,
/// measure it again.
pub open spec fn spec_compaction_statements() -> Seq<Seq<char>> {
    seq!["ANALYZE;"@, DATABASE_SIZE@, "VACUUM;"@, DATABASE_SIZE@]
}

/// The statements of a compaction, in the order they run.
pub fn compaction_statements() -> (steps: Vec<String>)
    ensures
        texts(steps@) == spec_compaction_statements(),
{
    let mut steps: Vec<String> = Vec::new();
    steps.push(String::from_str("ANALYZE;"));
    steps.push(String::from_str(DATABASE_SIZE));
    steps.push(String::from_str("VACUUM;"));
    steps.push(String::from_str(DATABASE_SIZE));
    assert(texts(steps@) =~= spec_compaction_statements());
    steps
}

/// The report of a compaction, from the two sizes measured.
pub fn size_report(before: i64, after: i64) -> (r: SizeReport)
    ensures
        r.size_before == before,
        r.size_after == after,
{
    SizeReport { size_before: before, size_after: after }
}

/// Refreshes the planner's statistics, then rebuilds the database file into
/// the least space, and reports the size before and after the rebuild. The
/// statements are those of [`compaction_statements`], run in order, and the
/// report is [`size_report`] of the two sizes the engine gave. Every failure
/// of the engine is a database error.
pub fn optimize_database(conn: &rusqlite::Connection) -> (r: AppResult<SizeReport>)
    ensures
        r matches Err(e) ==> e.spec_kind() == ErrorKind::Database,
{
    let steps = compaction_statements();
    assert(steps@.len() == texts(steps@).len());
    match execute_batch(conn, steps[0].as_str()) {
        Ok(_) => {},
        Err(e) => {
            return Err(AppError::from(e));
        },
    }
    let size_before = match query_integer(conn, steps[1].as_str()) {
        Ok(size) => size,
        Err(e) => {
            return Err(AppError::from(e));
        },
    };
    match execute_batch(conn, steps[2].as_str()) {
        Ok(_) => {},
        Err(e) => {
            return Err(AppError::from(e));
        },
    }
    let size_after = match query_integer(conn, steps[3].as_str()) {
        Ok(size) => size,
        Err(e) => {
            return Err(AppError::from(e));
        },
    };
    Ok(size_report(size_before, size_after))
}

} // verus!
