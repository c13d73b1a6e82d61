use forbidden_library::manager::DatabaseManager;
use forbidden_library::schema::initialize_fts_tables;
use forbidden_library::search::{
    build_full_text_query, build_phrase_query, build_suggestion_query, build_title_query,
    build_windowed_query, get_search_suggestions, search_full_text, search_full_text_windowed,
    search_phrases, search_titles, SearchFilters, MESSAGE_SEARCH_FROM, MESSAGE_SEARCH_SELECT,
    MESSAGE_SEARCH_TAIL, PHRASE_SEARCH,
};

fn head(window: u32) -> String {
    format!("{}{}{}", MESSAGE_SEARCH_SELECT, window, MESSAGE_SEARCH_FROM)
}
use forbidden_library::sqlite::SqlParam;

fn text_of(param: &SqlParam) -> String {
    match param {
        SqlParam::Text(s) => s.clone(),
        _ => panic!("expected text"),
    }
}

fn integer_of(param: &SqlParam) -> i64 {
    match param {
        SqlParam::Integer(i) => *i,
        _ => panic!("expected an integer"),
    }
}

fn add_conversation(conn: &rusqlite::Connection, uuid: &str, title: &str) -> i64 {
    conn.execute("INSERT INTO conversations (uuid, title) VALUES (?1, ?2)", [uuid, title]).unwrap();
    conn.last_insert_rowid()
}

fn add_message(conn: &rusqlite::Connection, id: &str, conversation: i64, content: &str) {
    conn.execute(
        "INSERT INTO messages (id, conversation_id, role, content, tokens_used)
         VALUES (?1, ?2, 'user', ?3, 10)",
        [id.to_string(), conversation.to_string(), content.to_string()],
    )
    .unwrap();
}

#[test]
fn test_fts_search() {
    let db = DatabaseManager::new_in_memory().unwrap();
    let conn = db.get_connection().unwrap();

    initialize_fts_tables(&conn).unwrap();

    conn.execute(
        "INSERT INTO conversations (uuid, title) VALUES ('test-uuid', 'Test Conversation')",
        [],
    )
    .unwrap();

    conn.execute(
        "INSERT INTO messages (id, conversation_id, role, content) VALUES ('msg1', 1, 'user', 'Hello world this is a test')",
        [],
    )
    .unwrap();

    let results = search_full_text(&conn, "test", None, Some(10)).unwrap();
    assert!(!results.is_empty());
    assert_eq!(results[0].conversation_id, 1);
}

#[test]
fn term_in_one_message_gives_one_marked_hit() {
    let db = DatabaseManager::new_in_memory().unwrap();
    let conn = db.get_connection().unwrap();
    let first = add_conversation(&conn, "u1", "Gardening");
    let second = add_conversation(&conn, "u2", "Cooking");
    add_message(&conn, "m1", first, "tomatoes need a lot of sun");
    add_message(&conn, "m2", second, "simmer the saffron risotto slowly");
    add_message(&conn, "m3", second, "salt the water");

    let hits = search_full_text(&conn, "saffron", None, None).unwrap();
    assert_eq!(hits.len(), 1);
    assert_eq!(hits[0].conversation_id, second);
    assert_eq!(hits[0].message_id, Some("m2".to_string()));
    assert_eq!(hits[0].title, "Cooking");
    assert_eq!(hits[0].content, "simmer the saffron risotto slowly");
    assert!(!hits[0].snippet.is_empty());
    assert!(hits[0].snippet.contains("<mark>saffron</mark>"));
    let score = f64::from_bits(hits[0].relevance_score_bits);
    assert!(score.is_finite());
}

#[test]
fn no_match_is_an_empty_list() {
    let db = DatabaseManager::new_in_memory().unwrap();
    let conn = db.get_connection().unwrap();
    let id = add_conversation(&conn, "u1", "Gardening");
    add_message(&conn, "m1", id, "tomatoes need a lot of sun");
    assert!(search_full_text(&conn, "zeppelin", None, None).unwrap().is_empty());
    assert!(search_phrases(&conn, "sun tomatoes", None).unwrap().is_empty());
    assert!(search_titles(&conn, "zeppelin", None).unwrap().is_empty());
    assert!(get_search_suggestions(&conn, "zep", None).unwrap().is_empty());
}

#[test]
fn hits_come_best_first_and_respect_the_limit() {
    let db = DatabaseManager::new_in_memory().unwrap();
    let conn = db.get_connection().unwrap();
    let id = add_conversation(&conn, "u1", "Birds");
    add_message(&conn, "m1", id, "owl");
    add_message(&conn, "m2", id, "the owl is a bird that hunts at night and sleeps by day");
    add_message(&conn, "m3", id, "owl owl owl");
    add_message(&conn, "m4", id, "a sparrow");

    let hits = search_full_text(&conn, "owl", None, None).unwrap();
    assert_eq!(hits.len(), 3);
    for pair in hits.windows(2) {
        let better = f64::from_bits(pair[0].relevance_score_bits);
        let worse = f64::from_bits(pair[1].relevance_score_bits);
        assert!(better <= worse);
    }
    let limited = search_full_text(&conn, "owl", None, Some(2)).unwrap();
    assert_eq!(limited.len(), 2);
    assert_eq!(limited[0].message_id, hits[0].message_id);
    let none = search_full_text(&conn, "owl", None, Some(0)).unwrap();
    assert!(none.is_empty());
}

#[test]
fn filters_restrict_the_hits() {
    let db = DatabaseManager::new_in_memory().unwrap();
    let conn = db.get_connection().unwrap();
    let open = add_conversation(&conn, "u1", "Open");
    let archived = add_conversation(&conn, "u2", "Archived");
    conn.execute("UPDATE conversations SET archived = 1 WHERE id = ?1", [archived]).unwrap();
    add_message(&conn, "m1", open, "the heron waits");
    add_message(&conn, "m2", archived, "the heron flies");
    conn.execute("UPDATE messages SET tokens_used = 500 WHERE id = 'm2'", []).unwrap();

    let filters = SearchFilters {
        persona_id: None,
        date_from: None,
        date_to: None,
        archived: Some(true),
        min_tokens: None,
        max_tokens: None,
    };
    let hits = search_full_text(&conn, "heron", Some(filters), None).unwrap();
    assert_eq!(hits.len(), 1);
    assert_eq!(hits[0].conversation_id, archived);

    let filters = SearchFilters {
        persona_id: None,
        date_from: Some("2000-01-01".to_string()),
        date_to: Some("2999-01-01".to_string()),
        archived: None,
        min_tokens: Some(0),
        max_tokens: Some(100),
    };
    let hits = search_full_text(&conn, "heron", Some(filters), None).unwrap();
    assert_eq!(hits.len(), 1);
    assert_eq!(hits[0].conversation_id, open);
}

#[test]
fn phrase_search_needs_contiguous_terms() {
    let db = DatabaseManager::new_in_memory().unwrap();
    let conn = db.get_connection().unwrap();
    let id = add_conversation(&conn, "u1", "Colours");
    add_message(&conn, "m1", id, "a bright red door");
    add_message(&conn, "m2", id, "red paint on a bright day");

    let loose = search_full_text(&conn, "bright red", None, None).unwrap();
    assert_eq!(loose.len(), 2);
    let exact = search_phrases(&conn, "bright red", None).unwrap();
    assert_eq!(exact.len(), 1);
    assert_eq!(exact[0].message_id, Some("m1".to_string()));
    let limited = search_phrases(&conn, "red", Some(1)).unwrap();
    assert_eq!(limited.len(), 1);
}

#[test]
fn title_search_ignores_messages() {
    let db = DatabaseManager::new_in_memory().unwrap();
    let conn = db.get_connection().unwrap();
    let id = add_conversation(&conn, "u1", "Weekend hiking plans");
    let other = add_conversation(&conn, "u2", "Groceries");
    add_message(&conn, "m1", other, "hiking boots are on the list");

    let hits = search_titles(&conn, "hiking", None).unwrap();
    assert_eq!(hits.len(), 1);
    assert_eq!(hits[0].conversation_id, id);
    assert_eq!(hits[0].message_id, None);
    assert_eq!(hits[0].content, "");
    assert_eq!(hits[0].title, "Weekend hiking plans");
    assert!(hits[0].snippet.contains("<mark>hiking</mark>"));
}

#[test]
fn suggestions_are_distinct_and_limited() {
    let db = DatabaseManager::new_in_memory().unwrap();
    let conn = db.get_connection().unwrap();
    let id = add_conversation(&conn, "u1", "Notes");
    add_message(&conn, "m1", id, "transaction");
    add_message(&conn, "m2", id, "transaction");
    add_message(&conn, "m3", id, "transport");
    add_message(&conn, "m4", id, "apple");

    let all = get_search_suggestions(&conn, "trans", None).unwrap();
    assert_eq!(all.len(), 2);
    assert!(all.contains(&"transaction".to_string()));
    assert!(all.contains(&"transport".to_string()));
    let one = get_search_suggestions(&conn, "trans", Some(1)).unwrap();
    assert_eq!(one.len(), 1);
}

#[test]
fn deleting_a_conversation_removes_messages_and_shadow_rows() {
    let db = DatabaseManager::new_in_memory().unwrap();
    let conn = db.get_connection().unwrap();
    let doomed = add_conversation(&conn, "u1", "Doomed");
    let kept = add_conversation(&conn, "u2", "Kept");
    for i in 0..5 {
        add_message(&conn, &format!("d{}", i), doomed, "the kraken sleeps below");
    }
    add_message(&conn, "k1", kept, "calm water");
    assert_eq!(search_full_text(&conn, "kraken", None, None).unwrap().len(), 5);

    conn.execute("DELETE FROM conversations WHERE id = ?1", [doomed]).unwrap();

    let left: i64 = conn
        .query_row("SELECT COUNT(*) FROM messages WHERE conversation_id = ?1", [doomed], |row| {
            row.get(0)
        })
        .unwrap();
    assert_eq!(left, 0);
    let shadow: i64 = conn
        .query_row(
            "SELECT COUNT(*) FROM messages_fts WHERE conversation_id = ?1",
            [doomed],
            |row| row.get(0),
        )
        .unwrap();
    assert_eq!(shadow, 0);
    assert!(search_full_text(&conn, "kraken", None, None).unwrap().is_empty());
    assert_eq!(search_full_text(&conn, "calm", None, None).unwrap().len(), 1);
    assert!(search_titles(&conn, "Doomed", None).unwrap().is_empty());
}

#[test]
fn full_text_query_without_filters() {
    let q = build_full_text_query("hello", None, None);
    assert_eq!(
        q.sql,
        format!("{}WHERE messages_fts MATCH ?{}", head(64), MESSAGE_SEARCH_TAIL)
    );
    assert!(q.sql.ends_with("ORDER BY score\n        LIMIT ?"));
    assert_eq!(q.params.len(), 2);
    assert_eq!(text_of(&q.params[0]), "hello");
    assert_eq!(integer_of(&q.params[1]), 50);
}

#[test]
fn full_text_query_with_every_filter() {
    let filters = SearchFilters {
        persona_id: Some(7),
        date_from: Some("2024-01-01".to_string()),
        date_to: Some("2024-12-31".to_string()),
        archived: Some(false),
        min_tokens: Some(5),
        max_tokens: Some(900),
    };
    let q = build_full_text_query("hello", Some(filters), Some(3));
    let expected_where = "WHERE messages_fts MATCH ? AND c.persona_id = ? AND c.created_at >= ? \
                          AND c.created_at <= ? AND c.archived = ? AND m.tokens_used >= ? \
                          AND m.tokens_used <= ?";
    assert_eq!(q.sql, format!("{}{}{}", head(64), expected_where, MESSAGE_SEARCH_TAIL));
    assert_eq!(q.params.len(), 8);
    assert_eq!(text_of(&q.params[0]), "hello");
    assert_eq!(integer_of(&q.params[1]), 7);
    assert_eq!(text_of(&q.params[2]), "2024-01-01");
    assert_eq!(text_of(&q.params[3]), "2024-12-31");
    assert!(matches!(q.params[4], SqlParam::Flag(false)));
    assert_eq!(integer_of(&q.params[5]), 5);
    assert_eq!(integer_of(&q.params[6]), 900);
    assert_eq!(integer_of(&q.params[7]), 3);
}

#[test]
fn full_text_query_with_some_filters() {
    let filters = SearchFilters {
        persona_id: None,
        date_from: None,
        date_to: Some("2024-12-31".to_string()),
        archived: None,
        min_tokens: None,
        max_tokens: Some(-4),
    };
    let q = build_full_text_query("x", Some(filters), Some(-1));
    let expected_where = "WHERE messages_fts MATCH ? AND c.created_at <= ? AND m.tokens_used <= ?";
    assert_eq!(q.sql, format!("{}{}{}", head(64), expected_where, MESSAGE_SEARCH_TAIL));
    assert_eq!(q.params.len(), 4);
    assert_eq!(integer_of(&q.params[2]), -4);
    assert_eq!(integer_of(&q.params[3]), -1);
}

#[test]
fn phrase_title_and_suggestion_queries() {
    let q = build_phrase_query("bright red", None);
    assert_eq!(q.sql, PHRASE_SEARCH);
    assert_eq!(text_of(&q.params[0]), "\"bright red\"");
    assert_eq!(text_of(&q.params[1]), "50");

    let q = build_title_query("plans", Some(7));
    assert_eq!(text_of(&q.params[0]), "plans");
    assert_eq!(text_of(&q.params[1]), "7");

    let q = build_suggestion_query("tra", None);
    assert_eq!(text_of(&q.params[0]), "tra*");
    assert_eq!(text_of(&q.params[1]), "10");

    let q = build_suggestion_query("tra", Some(-2147483648));
    assert_eq!(text_of(&q.params[1]), "-2147483648");
}

#[test]
fn snippet_window_is_tunable() {
    let q = build_windowed_query("x", None, None, 7);
    assert!(q.sql.contains("snippet(messages_fts, 2, '<mark>', '</mark>', '...', 7) as snippet"));
    assert_eq!(q.sql, format!("{}WHERE messages_fts MATCH ?{}", head(7), MESSAGE_SEARCH_TAIL));
    let default = build_full_text_query("x", None, None);
    assert!(default
        .sql
        .contains("snippet(messages_fts, 2, '<mark>', '</mark>', '...', 64) as snippet"));

    let db = DatabaseManager::new_in_memory().unwrap();
    let conn = db.get_connection().unwrap();
    let id = add_conversation(&conn, "u1", "Long");
    add_message(
        &conn,
        "m1",
        id,
        "one two three four five six seven needle nine ten eleven twelve thirteen fourteen",
    );
    let wide = search_full_text_windowed(&conn, "needle", None, None, 64).unwrap();
    let narrow = search_full_text_windowed(&conn, "needle", None, None, 3).unwrap();
    assert_eq!(wide.len(), 1);
    assert_eq!(narrow.len(), 1);
    assert!(wide[0].snippet.contains("one two three"));
    assert!(narrow[0].snippet.contains("<mark>needle</mark>"));
    assert!(narrow[0].snippet.len() < wide[0].snippet.len());
    assert!(!narrow[0].snippet.contains("one two three"));

    for bad in [0, 65, u32::MAX] {
        let error = search_full_text_windowed(&conn, "needle", None, None, bad).unwrap_err();
        assert_eq!(error.kind(), forbidden_library::errors::ErrorKind::Validation);
        assert_eq!(error.message(), "Snippet window must be between 1 and 64 tokens");
    }
}
