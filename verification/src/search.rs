//! Ranked full-text search over messages and conversation titles.
//!
//! Each search builds its statement and parameters in verified code, runs the
//! statement on the given connection, and collects the rows. What the rows
//! hold is the database's answer; what is asked, how many rows are taken and
//! how they are shaped is decided here.

use vstd::prelude::*;
use crate::errors::{AppError, AppResult, ErrorKind};
use crate::sqlite::{next_search_result, next_text, prepare, query, SqlParam, SqlParamView};
use crate::text::{
    decimal_digits, decimal_text, join2, join3, push_decimal, push_signed_decimal, push_text,
    str_eq,
};

verus! {

/// Number of results returned when the caller names no limit.
pub const DEFAULT_RESULT_LIMIT: i32 = 50;

/// Number of suggestions returned when the caller names no limit.
pub const DEFAULT_SUGGESTION_LIMIT: i32 = 10;

/// The statement of a message search up to the size of its snippets.
pub const MESSAGE_SEARCH_SELECT: &'static str =
    "SELECT
            c.id as conversation_id,
            m.id as message_id,
            c.title,
            m.content,
            bm25(messages_fts) as score,
            m.timestamp,
            snippet(messages_fts, 2, '<mark>', '</mark>', '...', ";

/// The statement of a message search from the size of its snippets up to
/// its `WHERE` clause.
pub const MESSAGE_SEARCH_FROM: &'static str =
    ") as snippet
        FROM messages_fts
        INNER JOIN messages m ON messages_fts.message_id = m.id
        INNER JOIN conversations c ON m.conversation_id = c.id
        ";

/// The size of a snippet when the caller names none: the largest that the
/// engine makes, in tokens.
pub const DEFAULT_SNIPPET_WINDOW: u32 = 64;

/// The statement of a message search after its `WHERE` clause.
pub const MESSAGE_SEARCH_TAIL: &'static str =
    "
        ORDER BY score
        LIMIT ?";

/// The statement of a phrase search.
pub const PHRASE_SEARCH: &'static str =
    "SELECT
            c.id as conversation_id,
            m.id as message_id,
            c.title,
            m.content,
            bm25(messages_fts) as score,
            m.timestamp,
            snippet(messages_fts, 2, '<mark>', '</mark>', '...', 64) as snippet
        FROM messages_fts
        INNER JOIN messages m ON messages_fts.message_id = m.id
        INNER JOIN conversations c ON m.conversation_id = c.id
        WHERE messages_fts MATCH ?
        ORDER BY score
        LIMIT ?";

/// The statement of a title search.
pub const TITLE_SEARCH: &'static str =
    "SELECT
            c.id as conversation_id,
            NULL as message_id,
            c.title,
            '' as content,
            bm25(conversations_fts) as score,
            c.created_at as timestamp,
            snippet(conversations_fts, 1, '<mark>', '</mark>', '...', 64) as snippet
        FROM conversations_fts
        INNER JOIN conversations c ON conversations_fts.conversation_id = c.id
        WHERE conversations_fts MATCH ?
        ORDER BY score
        LIMIT ?";

/// The statement of a prefix suggestion.
pub const SUGGESTION_SEARCH: &'static str =
    "SELECT DISTINCT
            snippet(messages_fts, 2, '', '', '', 5) as suggestion
        FROM messages_fts
        WHERE messages_fts MATCH ?
        LIMIT ?";

/// One search hit. The relevance score orders the hits: a lower score is a
/// better match. It is a score of the ranking function, not a confidence
/// between 0 and 1, and is held as the bit pattern of the 64-bit
/// floating-point value that the engine computed.
#[derive(Debug, Clone)]
pub struct SearchResult {
    pub conversation_id: i64,
    pub message_id: Option<String>,
    pub title: String,
    pub content: String,
    pub relevance_score_bits: u64,
    pub created_at: String,
    /// The matched text with `<mark>` and `</mark>` around each match.
    pub snippet: String,
}

/// Structured filters of a message search. An unset filter restricts nothing.
#[derive(Debug, Clone)]
pub struct SearchFilters {
    pub persona_id: Option<i64>,
    pub date_from: Option<String>,
    pub date_to: Option<String>,
    pub archived: Option<bool>,
    pub min_tokens: Option<i32>,
    pub max_tokens: Option<i32>,
}

/// A statement with the values of its placeholders, in order.
#[derive(Debug)]
pub struct SearchQuery {
    pub sql: String,
    pub params: Vec<SqlParam>,
}

/// The characters of each string slice of a sequence.
pub open spec fn slices(v: Seq<&'static str>) -> Seq<Seq<char>> {
    Seq::new(v.len(), |i: int| v[i]@)
}

/// The plain content of each parameter of a sequence.
pub open spec fn param_views(v: Seq<SqlParam>) -> Seq<SqlParamView> {
    Seq::new(v.len(), |i: int| v[i]@)
}

/// The parts with `sep` between each two neighbours.
pub open spec fn join_with(parts: Seq<Seq<char>>, sep: Seq<char>) -> Seq<char>
    decreases parts.len(),
{
    if parts.len() == 0 {
        Seq::empty()
    } else if parts.len() == 1 {
        parts[0]
    } else {
        join_with(parts.drop_last(), sep) + sep + parts.last()
    }
}

/// The sequence with `item` if `present`, the empty sequence otherwise.
pub open spec fn if_present<A>(present: bool, item: A) -> Seq<A> {
    if present {
        seq![item]
    } else {
        Seq::empty()
    }
}

impl SearchFilters {
    /// `base` followed by the conditions that the set filters add to the
    /// `WHERE` clause, in the order persona, earliest date, latest date,
    /// archived flag, least and most tokens.
    pub open spec fn extend_conditions(&self, base: Seq<Seq<char>>) -> Seq<Seq<char>> {
        base + if_present(self.persona_id is Some, "c.persona_id = ?"@) + if_present(
            self.date_from is Some,
            "c.created_at >= ?"@,
        ) + if_present(self.date_to is Some, "c.created_at <= ?"@) + if_present(
            self.archived is Some,
            "c.archived = ?"@,
        ) + if_present(self.min_tokens is Some, "m.tokens_used >= ?"@) + if_present(
            self.max_tokens is Some,
            "m.tokens_used <= ?"@,
        )
    }

    /// `base` followed by the values of the placeholders that
    /// [`SearchFilters::extend_conditions`] adds, in the same order.
    pub open spec fn extend_values(&self, base: Seq<SqlParamView>) -> Seq<SqlParamView> {
        base + if_present(self.persona_id is Some, SqlParamView::Integer(self.persona_id->0 as int))
            + if_present(self.date_from is Some, SqlParamView::Text(self.date_from->0@)) + if_present(
            self.date_to is Some,
            SqlParamView::Text(self.date_to->0@),
        ) + if_present(self.archived is Some, SqlParamView::Flag(self.archived->0)) + if_present(
            self.min_tokens is Some,
            SqlParamView::Integer(self.min_tokens->0 as int),
        ) + if_present(self.max_tokens is Some, SqlParamView::Integer(self.max_tokens->0 as int))
    }
}

/// The conditions of a message search: the match itself, then those of the
/// filters.
pub open spec fn full_text_conditions(filters: Option<SearchFilters>) -> Seq<Seq<char>> {
    match filters {
        Some(f) => f.extend_conditions(seq!["messages_fts MATCH ?"@]),
        None => seq!["messages_fts MATCH ?"@],
    }
}

/// The limit in force: the caller's, or the default.
pub open spec fn limit_or(limit: Option<i32>, default: i32) -> i32 {
    match limit {
        Some(n) => n,
        None => default,
    }
}

/// Whether the engine makes snippets of this size: one token at least, and
/// 64 at most.
pub open spec fn window_is_valid(window: u32) -> bool {
    1 <= window <= 64
}

/// The statement of a message search with the given filters and size of
/// snippets.
pub open spec fn full_text_sql(filters: Option<SearchFilters>, window: u32) -> Seq<char> {
    MESSAGE_SEARCH_SELECT@ + decimal_digits(window as nat) + MESSAGE_SEARCH_FROM@ + "WHERE "@
        + join_with(full_text_conditions(filters), " AND "@) + MESSAGE_SEARCH_TAIL@
}

/// The placeholder values of a message search: the query text, the values
/// of the filters, then the limit.
pub open spec fn full_text_params(query: Seq<char>, filters: Option<SearchFilters>, limit: i32)
    -> Seq<SqlParamView> {
    match filters {
        Some(f) => f.extend_values(seq![SqlParamView::Text(query)]).push(
            SqlParamView::Integer(limit as int),
        ),
        None => seq![SqlParamView::Text(query), SqlParamView::Integer(limit as int)],
    }
}

/// The text that asks for the words of `phrase` next to each other.
pub open spec fn phrase_text(phrase: Seq<char>) -> Seq<char> {
    seq!['"'] + phrase + seq!['"']
}

/// The text that asks for terms beginning with `partial`.
pub open spec fn prefix_text(partial: Seq<char>) -> Seq<char> {
    partial + seq!['*']
}

/// The placeholder values of a search that takes one text and a limit; the
/// limit is bound as decimal text.
pub open spec fn text_and_limit(text: Seq<char>, limit: i32) -> Seq<SqlParamView> {
    seq![SqlParamView::Text(text), SqlParamView::Text(decimal_text(limit as int))]
}

/// Joins the parts with `sep` between each two neighbours.
pub fn join_slices(parts: &Vec<&'static str>, sep: &str) -> (joined: String)
    ensures
        joined@ == join_with(slices(parts@), sep@),
{
    let mut joined = String::new();
    let mut i: usize = 0;
    while i < parts.len()
        invariant
            i <= parts.len(),
            joined@ == join_with(slices(parts@).subrange(0, i as int), sep@),
        decreases parts.len() - i,
    {
        let ghost before = slices(parts@).subrange(0, i as int);
        let ghost after = slices(parts@).subrange(0, i + 1);
        assert(after.drop_last() =~= before);
        assert(after.last() == parts@[i as int]@);
        if i > 0 {
            push_text(&mut joined, sep);
        }
        push_text(&mut joined, parts[i]);
        assert(joined@ =~= join_with(after, sep@));
        i += 1;
    }
    assert(slices(parts@).subrange(0, i as int) =~= slices(parts@));
    joined
}

/// Pushing a slice extends the texts by its characters.
proof fn lemma_push_slice(v: Seq<&'static str>, s: &'static str)
    ensures
        slices(v.push(s)) == slices(v).push(s@),
{
    assert(slices(v.push(s)) =~= slices(v).push(s@));
}

/// Pushing a parameter extends the views by its view.
proof fn lemma_push_param(v: Seq<SqlParam>, p: SqlParam)
    ensures
        param_views(v.push(p)) == param_views(v).push(p@),
{
    assert(param_views(v.push(p)) =~= param_views(v).push(p@));
}

/// Adds one condition and its value, if the value is set.
pub(crate) fn push_condition(
    clauses: &mut Vec<&'static str>,
    params: &mut Vec<SqlParam>,
    clause: &'static str,
    value: Option<SqlParam>,
)
    ensures
        slices(final(clauses)@) == slices(old(clauses)@) + if_present(value is Some, clause@),
        param_views(final(params)@) == param_views(old(params)@) + if_present(
            value is Some,
            value->0@,
        ),
{
    match value {
        Some(v) => {
            proof {
                lemma_push_slice(clauses@, clause);
                lemma_push_param(params@, v);
            }
            clauses.push(clause);
            params.push(v);
            assert(slices(clauses@) =~= slices(old(clauses)@) + seq![clause@]);
            assert(param_views(params@) =~= param_views(old(params)@) + seq![v@]);
        },
        None => {
            assert(slices(clauses@) =~= slices(old(clauses)@) + Seq::<Seq<char>>::empty());
            assert(param_views(params@) =~= param_views(old(params)@) + Seq::<
                SqlParamView,
            >::empty());
        },
    }
}

/// Adds the conditions and values of the set filters.
fn push_filters(filters: SearchFilters, clauses: &mut Vec<&'static str>, params: &mut Vec<SqlParam>)
    ensures
        slices(final(clauses)@) == filters.extend_conditions(slices(old(clauses)@)),
        param_views(final(params)@) == filters.extend_values(param_views(old(params)@)),
{
    let persona = match filters.persona_id {
        Some(n) => Some(SqlParam::Integer(n)),
        None => None,
    };
    push_condition(clauses, params, "c.persona_id = ?", persona);
    let earliest = match filters.date_from {
        Some(t) => Some(SqlParam::Text(t)),
        None => None,
    };
    push_condition(clauses, params, "c.created_at >= ?", earliest);
    let latest = match filters.date_to {
        Some(t) => Some(SqlParam::Text(t)),
        None => None,
    };
    push_condition(clauses, params, "c.created_at <= ?", latest);
    let archived = match filters.archived {
        Some(b) => Some(SqlParam::Flag(b)),
        None => None,
    };
    push_condition(clauses, params, "c.archived = ?", archived);
    let least = match filters.min_tokens {
        Some(n) => Some(SqlParam::Integer(n as i64)),
        None => None,
    };
    push_condition(clauses, params, "m.tokens_used >= ?", least);
    let most = match filters.max_tokens {
        Some(n) => Some(SqlParam::Integer(n as i64)),
        None => None,
    };
    push_condition(clauses, params, "m.tokens_used <= ?", most);
}

/// Builds the statement and the placeholder values of a message search
/// with snippets of the default size. The limit is the caller's, or 50.
pub fn build_full_text_query(query: &str, filters: Option<SearchFilters>, limit: Option<i32>) -> (q:
    SearchQuery)
    ensures
        q.sql@ == full_text_sql(filters, DEFAULT_SNIPPET_WINDOW),
        param_views(q.params@) == full_text_params(
            query@,
            filters,
            limit_or(limit, DEFAULT_RESULT_LIMIT),
        ),
{
    build_windowed_query(query, filters, limit, DEFAULT_SNIPPET_WINDOW)
}

/// Builds the statement and the placeholder values of a message search
/// whose snippets hold at most `window` tokens. The limit is the caller's,
/// or 50.
pub fn build_windowed_query(
    query: &str,
    filters: Option<SearchFilters>,
    limit: Option<i32>,
    window: u32,
) -> (q: SearchQuery)
    ensures
        q.sql@ == full_text_sql(filters, window),
        param_views(q.params@) == full_text_params(
            query@,
            filters,
            limit_or(limit, DEFAULT_RESULT_LIMIT),
        ),
{
    let limit_value: i32 = match limit {
        Some(n) => n,
        None => DEFAULT_RESULT_LIMIT,
    };
    let mut clauses: Vec<&'static str> = Vec::new();
    let mut params: Vec<SqlParam> = Vec::new();
    clauses.push("messages_fts MATCH ?");
    params.push(SqlParam::Text(String::from_str(query)));
    assert(slices(clauses@) =~= seq!["messages_fts MATCH ?"@]);
    assert(param_views(params@) =~= seq![SqlParamView::Text(query@)]);
    match filters {
        None => {},
        Some(f) => {
            push_filters(f, &mut clauses, &mut params);
        },
    }
    assert(slices(clauses@) == full_text_conditions(filters));
    proof {
        lemma_push_param(params@, SqlParam::Integer(limit_value as i64));
    }
    params.push(SqlParam::Integer(limit_value as i64));
    assert(param_views(params@) =~= full_text_params(query@, filters, limit_value));
    let where_clause = join_slices(&clauses, " AND ");
    let mut sql = String::from_str(MESSAGE_SEARCH_SELECT);
    push_decimal(&mut sql, window as u128);
    push_text(&mut sql, MESSAGE_SEARCH_FROM);
    push_text(&mut sql, "WHERE ");
    push_text(&mut sql, where_clause.as_str());
    push_text(&mut sql, MESSAGE_SEARCH_TAIL);
    SearchQuery { sql, params }
}

/// A parameter list of one text and a limit bound as decimal text.
fn text_and_limit_params(text: String, limit: i32) -> (params: Vec<SqlParam>)
    ensures
        param_views(params@) == text_and_limit(text@, limit),
{
    let mut limit_text = String::new();
    push_signed_decimal(&mut limit_text, limit as i64);
    let mut params: Vec<SqlParam> = Vec::new();
    params.push(SqlParam::Text(text));
    params.push(SqlParam::Text(limit_text));
    assert(param_views(params@) =~= text_and_limit(text@, limit));
    params
}

/// Builds the statement and the placeholder values of a phrase search: the
/// phrase is wrapped in double quotes so that only contiguous terms match.
/// The limit is the caller's, or 50.
pub fn build_phrase_query(phrase: &str, limit: Option<i32>) -> (q: SearchQuery)
    ensures
        q.sql@ == PHRASE_SEARCH@,
        param_views(q.params@) == text_and_limit(
            phrase_text(phrase@),
            limit_or(limit, DEFAULT_RESULT_LIMIT),
        ),
{
    let limit_value: i32 = match limit {
        Some(n) => n,
        None => DEFAULT_RESULT_LIMIT,
    };
    proof {
        reveal_strlit("\"");
        assert("\""@ =~= seq!['"']);
    }
    let quoted = join3("\"", phrase, "\"");
    SearchQuery {
        sql: String::from_str(PHRASE_SEARCH),
        params: text_and_limit_params(quoted, limit_value),
    }
}

/// Builds the statement and the placeholder values of a title search. The
/// limit is the caller's, or 50.
pub fn build_title_query(query: &str, limit: Option<i32>) -> (q: SearchQuery)
    ensures
        q.sql@ == TITLE_SEARCH@,
        param_views(q.params@) == text_and_limit(query@, limit_or(limit, DEFAULT_RESULT_LIMIT)),
{
    let limit_value: i32 = match limit {
        Some(n) => n,
        None => DEFAULT_RESULT_LIMIT,
    };
    SearchQuery {
        sql: String::from_str(TITLE_SEARCH),
        params: text_and_limit_params(String::from_str(query), limit_value),
    }
}

/// Builds the statement and the placeholder values of a prefix suggestion:
/// the partial term is followed by `*`. The limit is the caller's, or 10.
pub fn build_suggestion_query(partial_query: &str, limit: Option<i32>) -> (q: SearchQuery)
    ensures
        q.sql@ == SUGGESTION_SEARCH@,
        param_views(q.params@) == text_and_limit(
            prefix_text(partial_query@),
            limit_or(limit, DEFAULT_SUGGESTION_LIMIT),
        ),
{
    let limit_value: i32 = match limit {
        Some(n) => n,
        None => DEFAULT_SUGGESTION_LIMIT,
    };
    proof {
        reveal_strlit("*");
        assert("*"@ =~= seq!['*']);
    }
    let starred = join2(partial_query, "*");
    SearchQuery {
        sql: String::from_str(SUGGESTION_SEARCH),
        params: text_and_limit_params(starred, limit_value),
    }
}

/// The largest number of rows taken for a limit: the limit itself, or no
/// bound for a negative limit, which the engine reads as "no limit".
pub open spec fn row_cap(limit: i32) -> nat {
    if limit < 0 {
        usize::MAX as nat
    } else {
        limit as nat
    }
}

fn compute_row_cap(limit: i32) -> (cap: usize)
    ensures
        cap == row_cap(limit),
{
    if limit < 0 {
        usize::MAX
    } else {
        limit as usize
    }
}

/// A title hit carries no message: its content is empty and it names no
/// message, whatever the row held.
pub fn title_hit(hit: SearchResult) -> (shaped: SearchResult)
    ensures
        shaped.message_id is None,
        shaped.content@.len() == 0,
        shaped.conversation_id == hit.conversation_id,
        shaped.title == hit.title,
        shaped.relevance_score_bits == hit.relevance_score_bits,
        shaped.created_at == hit.created_at,
        shaped.snippet == hit.snippet,
{
    SearchResult {
        conversation_id: hit.conversation_id,
        message_id: None,
        title: hit.title,
        content: String::new(),
        relevance_score_bits: hit.relevance_score_bits,
        created_at: hit.created_at,
        snippet: hit.snippet,
    }
}

/// Whether every hit is shaped as a title hit.
pub open spec fn all_title_hits(hits: Seq<SearchResult>) -> bool {
    forall|i: int|
        0 <= i < hits.len() ==> (#[trigger] hits[i]).message_id is None && hits[i].content@.len()
            == 0
}

/// Runs a search statement and collects at most `cap` hits, in the order in
/// which the engine returns them. With `titles_only`, every hit is shaped by
/// [`title_hit`].
fn collect_hits(conn: &rusqlite::Connection, q: &SearchQuery, cap: usize, titles_only: bool) -> (r:
    AppResult<Vec<SearchResult>>)
    ensures
        r matches Ok(hits) ==> hits@.len() <= cap && (titles_only ==> all_title_hits(hits@)),
        r matches Err(e) ==> e.spec_kind() == ErrorKind::Database,
{
    let mut stmt = match prepare(conn, q.sql.as_str()) {
        Ok(stmt) => stmt,
        Err(e) => {
            return Err(AppError::from(e));
        },
    };
    let mut rows = match query(&mut stmt, &q.params) {
        Ok(rows) => rows,
        Err(e) => {
            return Err(AppError::from(e));
        },
    };
    let mut hits: Vec<SearchResult> = Vec::new();
    while hits.len() < cap
        invariant
            hits@.len() <= cap,
            titles_only ==> all_title_hits(hits@),
        decreases cap - hits.len(),
    {
        match next_search_result(&mut rows) {
            Err(e) => {
                return Err(AppError::from(e));
            },
            Ok(None) => {
                return Ok(hits);
            },
            Ok(Some(hit)) => {
                if titles_only {
                    hits.push(title_hit(hit));
                } else {
                    hits.push(hit);
                }
            },
        }
    }
    Ok(hits)
}

/// Whether `text` is one of `list`.
pub open spec fn has_text(list: Seq<String>, text: Seq<char>) -> bool {
    exists|i: int| 0 <= i < list.len() && (#[trigger] list[i])@ == text
}

/// Whether no text occurs twice in `list`.
pub open spec fn all_distinct(list: Seq<String>) -> bool {
    forall|i: int, j: int| 0 <= i < j < list.len() ==> (#[trigger] list[i])@ != (#[trigger] list[j])@
}

/// Adds a suggestion to the list unless the list already holds it.
pub fn add_suggestion(list: &mut Vec<String>, suggestion: String)
    requires
        all_distinct(old(list)@),
    ensures
        all_distinct(final(list)@),
        has_text(old(list)@, suggestion@) ==> final(list)@ == old(list)@,
        !has_text(old(list)@, suggestion@) ==> final(list)@ == old(list)@.push(suggestion),
{
    let mut i: usize = 0;
    while i < list.len()
        invariant
            i <= list.len(),
            *list == *old(list),
            all_distinct(old(list)@),
            forall|k: int| 0 <= k < i ==> (#[trigger] list@[k])@ != suggestion@,
        decreases list.len() - i,
    {
        if str_eq(list[i].as_str(), suggestion.as_str()) {
            assert(old(list)@[i as int]@ == suggestion@);
            return ;
        }
        i += 1;
    }
    list.push(suggestion);
}

/// Runs a suggestion statement and collects at most `cap` distinct texts.
fn collect_suggestions(conn: &rusqlite::Connection, q: &SearchQuery, cap: usize) -> (r: AppResult<
    Vec<String>,
>)
    ensures
        r matches Ok(list) ==> list@.len() <= cap && all_distinct(list@),
        r matches Err(e) ==> e.spec_kind() == ErrorKind::Database,
{
    let mut stmt = match prepare(conn, q.sql.as_str()) {
        Ok(stmt) => stmt,
        Err(e) => {
            return Err(AppError::from(e));
        },
    };
    let mut rows = match query(&mut stmt, &q.params) {
        Ok(rows) => rows,
        Err(e) => {
            return Err(AppError::from(e));
        },
    };
    let mut list: Vec<String> = Vec::new();
    let mut taken: usize = 0;
    while taken < cap
        invariant
            list@.len() <= taken <= cap,
            all_distinct(list@),
        decreases cap - taken,
    {
        match next_text(&mut rows, 0) {
            Err(e) => {
                return Err(AppError::from(e));
            },
            Ok(None) => {
                return Ok(list);
            },
            Ok(Some(suggestion)) => {
                add_suggestion(&mut list, suggestion);
                taken += 1;
            },
        }
    }
    Ok(list)
}

/// Searches the message index for `query`, restricted by the filters, and
/// returns the hits in the engine's order of relevance, best match first.
/// Each hit carries a snippet of at most 64 tokens around the match.
///
/// At most `limit` hits are returned (50 when no limit is given; a negative
/// limit means no bound). A query without matches gives an empty list, not an
/// error; an empty query text is the caller's to reject. Every failure of
/// the engine is a database error.
pub fn search_full_text(
    conn: &rusqlite::Connection,
    query: &str,
    filters: Option<SearchFilters>,
    limit: Option<i32>,
) -> (r: AppResult<Vec<SearchResult>>)
    ensures
        r matches Ok(hits) ==> hits@.len() <= row_cap(limit_or(limit, DEFAULT_RESULT_LIMIT)),
        r matches Err(e) ==> e.spec_kind() == ErrorKind::Database,
{
    search_full_text_windowed(conn, query, filters, limit, DEFAULT_SNIPPET_WINDOW)
}

/// As [`search_full_text`], with snippets of at most `window` tokens. A
/// window that the engine does not make (none, or more than 64 tokens) is a
/// validation error.
pub fn search_full_text_windowed(
    conn: &rusqlite::Connection,
    query: &str,
    filters: Option<SearchFilters>,
    limit: Option<i32>,
    window: u32,
) -> (r: AppResult<Vec<SearchResult>>)
    ensures
        !window_is_valid(window) ==> (r matches Err(e) && e.is(
            ErrorKind::Validation,
            "Snippet window must be between 1 and 64 tokens"@,
        )),
        window_is_valid(window) ==> (r matches Err(e) ==> e.spec_kind() == ErrorKind::Database),
        r matches Ok(hits) ==> hits@.len() <= row_cap(limit_or(limit, DEFAULT_RESULT_LIMIT)),
{
    if window < 1 || window > 64 {
        return Err(AppError::validation("Snippet window must be between 1 and 64 tokens"));
    }
    let limit_value: i32 = match limit {
        Some(n) => n,
        None => DEFAULT_RESULT_LIMIT,
    };
    let q = build_windowed_query(query, filters, limit, window);
    collect_hits(conn, &q, compute_row_cap(limit_value), false)
}

/// Searches the message index for the exact phrase: the words must occur
/// next to each other. Limits and failures as in [`search_full_text`].
pub fn search_phrases(conn: &rusqlite::Connection, phrase: &str, limit: Option<i32>) -> (r:
    AppResult<Vec<SearchResult>>)
    ensures
        r matches Ok(hits) ==> hits@.len() <= row_cap(limit_or(limit, DEFAULT_RESULT_LIMIT)),
        r matches Err(e) ==> e.spec_kind() == ErrorKind::Database,
{
    let limit_value: i32 = match limit {
        Some(n) => n,
        None => DEFAULT_RESULT_LIMIT,
    };
    let q = build_phrase_query(phrase, limit);
    collect_hits(conn, &q, compute_row_cap(limit_value), false)
}

/// Searches the conversation titles only; messages are not searched. Every
/// hit has empty content, names no message, and carries a snippet of the
/// title. Limits and failures as in [`search_full_text`].
pub fn search_titles(conn: &rusqlite::Connection, query: &str, limit: Option<i32>) -> (r: AppResult<
    Vec<SearchResult>,
>)
    ensures
        r matches Ok(hits) ==> hits@.len() <= row_cap(limit_or(limit, DEFAULT_RESULT_LIMIT))
            && all_title_hits(hits@),
        r matches Err(e) ==> e.spec_kind() == ErrorKind::Database,
{
    let limit_value: i32 = match limit {
        Some(n) => n,
        None => DEFAULT_RESULT_LIMIT,
    };
    let q = build_title_query(query, limit);
    collect_hits(conn, &q, compute_row_cap(limit_value), true)
}

/// Completions for a partial term, drawn from the matching messages: at most
/// `limit` short texts (10 when no limit is given), none of them twice.
pub fn get_search_suggestions(
    conn: &rusqlite::Connection,
    partial_query: &str,
    limit: Option<i32>,
) -> (r: AppResult<Vec<String>>)
    ensures
        r matches Ok(list) ==> list@.len() <= row_cap(limit_or(limit, DEFAULT_SUGGESTION_LIMIT))
            && all_distinct(list@),
        r matches Err(e) ==> e.spec_kind() == ErrorKind::Database,
{
    let limit_value: i32 = match limit {
        Some(n) => n,
        None => DEFAULT_SUGGESTION_LIMIT,
    };
    let q = build_suggestion_query(partial_query, limit);
    collect_suggestions(conn, &q, compute_row_cap(limit_value))
}

} // verus!
