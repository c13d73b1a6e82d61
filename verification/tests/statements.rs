use forbidden_library::config::make_key_statement;
use forbidden_library::manager::maintenance_statement;
use forbidden_library::models::MessageRole;
use forbidden_library::optimizer::{
    compaction_statements, explain_statement, size_report, DATABASE_SIZE,
};
use forbidden_library::services::keep_non_empty;
use forbidden_library::sqlite::SqlParam;
use forbidden_library::statements::{
    deactivate_api_config, find_conversations, insert_conversation, insert_message,
    insert_persona, remove_conversation, remove_persona, replace_api_config, select_api_config,
    select_conversation, select_conversations, select_messages, select_persona, select_personas,
    set_archived, touch_conversation,
};

fn shown(params: &[SqlParam]) -> Vec<String> {
    params
        .iter()
        .map(|p| match p {
            SqlParam::Null => "null".to_string(),
            SqlParam::Text(t) => format!("'{}'", t),
            SqlParam::Integer(i) => i.to_string(),
            SqlParam::Flag(b) => b.to_string(),
        })
        .collect()
}

fn squeezed(sql: &str) -> String {
    sql.split_whitespace().collect::<Vec<_>>().join(" ")
}

#[test]
fn conversation_statements_bind_their_values_in_order() {
    let q = insert_conversation("u-1".to_string(), "Title".to_string(), Some(7), "T".to_string());
    assert_eq!(
        squeezed(&q.sql),
        "INSERT INTO conversations (uuid, title, persona_id, created_at, updated_at, archived) \
         VALUES (?1, ?2, ?3, ?4, ?5, ?6)"
    );
    assert_eq!(shown(&q.params), ["'u-1'", "'Title'", "7", "'T'", "'T'", "false"]);
    let q = insert_conversation("u".to_string(), "t".to_string(), None, "T".to_string());
    assert_eq!(shown(&q.params)[2], "null");

    let q = select_conversations(-1, 0);
    assert_eq!(
        q.sql,
        "SELECT id, uuid, title, CAST(persona_id AS INTEGER), created_at, updated_at, archived \
         FROM conversations ORDER BY updated_at DESC LIMIT ?1 OFFSET ?2"
    );
    assert_eq!(shown(&q.params), ["-1", "0"]);
    let q = select_conversations(10, 20);
    assert_eq!(shown(&q.params), ["10", "20"]);

    let q = select_conversation(42);
    assert_eq!(
        q.sql,
        "SELECT id, uuid, title, CAST(persona_id AS INTEGER), created_at, updated_at, archived \
         FROM conversations WHERE id = ?1"
    );
    assert_eq!(shown(&q.params), ["42"]);

    let q = find_conversations("rust", 5);
    assert!(squeezed(&q.sql).contains("WHERE c.title LIKE ?1 OR m.content LIKE ?1"));
    assert!(squeezed(&q.sql).ends_with("ORDER BY c.updated_at DESC LIMIT ?2"));
    assert_eq!(shown(&q.params), ["'%rust%'", "5"]);

    let q = remove_conversation(3);
    assert_eq!(q.sql, "DELETE FROM conversations WHERE id = ?1");
    assert_eq!(shown(&q.params), ["3"]);

    let q = set_archived(3, true, "T".to_string());
    assert_eq!(q.sql, "UPDATE conversations SET archived = ?1, updated_at = ?2 WHERE id = ?3");
    assert_eq!(shown(&q.params), ["true", "'T'", "3"]);

    let q = touch_conversation(3, "T".to_string());
    assert_eq!(q.sql, "UPDATE conversations SET updated_at = ?1 WHERE id = ?2");
    assert_eq!(shown(&q.params), ["'T'", "3"]);
}

#[test]
fn message_statements_bind_their_values_in_order() {
    let q = insert_message(
        9,
        MessageRole::Assistant,
        "hello".to_string(),
        "T".to_string(),
        Some(12),
        Some("model-x".to_string()),
    );
    assert!(squeezed(&q.sql).starts_with(
        "INSERT INTO messages (id, conversation_id, role, content, timestamp, tokens_used, model_used)"
    ));
    assert_eq!(shown(&q.params), ["9", "'assistant'", "'hello'", "'T'", "12", "'model-x'"]);
    let q = insert_message(9, MessageRole::User, "x".to_string(), "T".to_string(), None, None);
    assert_eq!(shown(&q.params), ["9", "'user'", "'x'", "'T'", "null", "null"]);

    let q = select_messages(9);
    assert!(squeezed(&q.sql)
        .ends_with("FROM messages WHERE conversation_id = ?1 ORDER BY timestamp ASC, rowid ASC"));
    assert_eq!(shown(&q.params), ["9"]);
}

#[test]
fn persona_statements_bind_their_values_in_order() {
    let q = insert_persona("n".to_string(), None, "p".to_string(), "T".to_string());
    assert!(squeezed(&q.sql).starts_with(
        "INSERT INTO personas (id, name, description, system_prompt, created_at, updated_at, active)"
    ));
    assert_eq!(shown(&q.params), ["'n'", "''", "'p'", "'T'", "'T'", "true"]);
    let q = insert_persona("n".to_string(), Some("d".to_string()), "p".to_string(), "T".to_string());
    assert_eq!(shown(&q.params)[1], "'d'");

    let q = select_personas();
    assert!(q.sql.ends_with(" FROM personas WHERE active = 1 ORDER BY name ASC"));
    assert!(q.sql.starts_with("SELECT CAST(id AS INTEGER), name, description, system_prompt,"));
    assert!(q.params.is_empty());

    let q = select_persona(4);
    assert!(q.sql.ends_with(" FROM personas WHERE id = ?1 LIMIT 1"));
    assert_eq!(shown(&q.params), ["4"]);

    let q = remove_persona(4);
    assert_eq!(q.sql, "DELETE FROM personas WHERE id = ?1");
    assert_eq!(shown(&q.params), ["4"]);
}

#[test]
fn provider_statements_bind_their_values_in_order() {
    let q = replace_api_config("openai".to_string(), "k".to_string(), None, "T".to_string());
    assert!(squeezed(&q.sql).starts_with("INSERT OR REPLACE INTO api_configs"));
    assert!(squeezed(&q.sql).ends_with("VALUES (?1, ?1, ?2, ?3, ?4, ?4, 1)"));
    assert_eq!(shown(&q.params), ["'openai'", "'k'", "''", "'T'"]);
    let q = replace_api_config(
        "openai".to_string(),
        "k".to_string(),
        Some("http://h".to_string()),
        "T".to_string(),
    );
    assert_eq!(shown(&q.params)[2], "'http://h'");

    let q = select_api_config("openai");
    assert_eq!(
        q.sql,
        "SELECT api_key, base_url FROM api_configs WHERE provider = ?1 AND active = 1"
    );
    assert_eq!(shown(&q.params), ["'openai'"]);

    let q = deactivate_api_config("openai", "T".to_string());
    assert_eq!(q.sql, "UPDATE api_configs SET active = 0, updated_at = ?1 WHERE provider = ?2");
    assert_eq!(shown(&q.params), ["'T'", "'openai'"]);

    assert_eq!(keep_non_empty(Some(String::new())), None);
    assert_eq!(keep_non_empty(Some("a".to_string())), Some("a".to_string()));
    assert_eq!(keep_non_empty(None), None);
}

#[test]
fn maintenance_statements_are_fixed() {
    assert_eq!(compaction_statements(), ["ANALYZE;", DATABASE_SIZE, "VACUUM;", DATABASE_SIZE]);
    assert_eq!(maintenance_statement(), "VACUUM; ANALYZE;");
    assert_eq!(explain_statement("SELECT 1"), "EXPLAIN QUERY PLAN SELECT 1");
    assert_eq!(make_key_statement("abc-1_2"), "PRAGMA key = 'abc-1_2';");
    let report = size_report(8192, 4096);
    assert_eq!((report.size_before, report.size_after), (8192, 4096));
    assert_eq!(report.saved_bytes(), Some(4096));
}
