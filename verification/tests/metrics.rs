use forbidden_library::manager::DatabaseManager;
use forbidden_library::metrics::{PerformanceMonitor, QueryMetrics};
use forbidden_library::optimizer::{
    analyze_query_plan, optimize_database, BatchInserter, SizeReport,
};
use std::time::Instant;

fn metric(query: &str, ms: u64) -> QueryMetrics {
    QueryMetrics {
        query: query.to_string(),
        execution_time_ms: ms,
        rows_affected: 1,
        timestamp: Instant::now(),
    }
}

#[test]
fn test_performance_monitor() {
    let mut monitor = PerformanceMonitor::new(100);

    monitor.record(QueryMetrics {
        query: "SELECT * FROM users".to_string(),
        execution_time_ms: 10,
        rows_affected: 5,
        timestamp: Instant::now(),
    });

    monitor.record(QueryMetrics {
        query: "SELECT * FROM users WHERE id = ?".to_string(),
        execution_time_ms: 5,
        rows_affected: 1,
        timestamp: Instant::now(),
    });

    let avg = monitor.get_average_time("SELECT * FROM users");
    assert!(avg.is_some());
    assert_eq!(avg.unwrap(), 7);
}

#[test]
fn test_performance_monitor_slowest() {
    let mut monitor = PerformanceMonitor::new(100);

    monitor.record(QueryMetrics {
        query: "SLOW QUERY".to_string(),
        execution_time_ms: 100,
        rows_affected: 1000,
        timestamp: Instant::now(),
    });

    monitor.record(QueryMetrics {
        query: "FAST QUERY".to_string(),
        execution_time_ms: 5,
        rows_affected: 1,
        timestamp: Instant::now(),
    });

    let slowest = monitor.get_slowest_queries(1);
    assert_eq!(slowest.len(), 1);
    assert_eq!(slowest[0].query, "SLOW QUERY");
    assert_eq!(slowest[0].execution_time_ms, 100);
}

#[test]
fn test_batch_inserter() {
    let db = DatabaseManager::new_in_memory().unwrap();
    {
        let conn = db.get_connection().unwrap();
        conn.execute("CREATE TABLE test_items (id INTEGER PRIMARY KEY, value TEXT)", []).unwrap();
    }

    let inserter = BatchInserter::new(10);
    let items: Vec<String> = (0..25).map(|i| format!("item_{}", i)).collect();

    let result = inserter.batch_insert(&db, items.clone(), |conn, batch| {
        for item in batch {
            conn.execute("INSERT INTO test_items (value) VALUES (?)", [item])?;
        }
        Ok(batch.len())
    });

    assert!(result.is_ok());
    assert_eq!(result.unwrap(), 25);

    let conn = db.get_connection().unwrap();
    let count: i64 =
        conn.query_row("SELECT COUNT(*) FROM test_items", [], |row| row.get(0)).unwrap();
    assert_eq!(count, 25);
}

#[test]
fn failing_batch_leaves_earlier_batches_committed() {
    let db = DatabaseManager::new_in_memory().unwrap();
    {
        let conn = db.get_connection().unwrap();
        conn.execute("CREATE TABLE test_items (id INTEGER PRIMARY KEY, value TEXT UNIQUE)", [])
            .unwrap();
    }
    let inserter = BatchInserter::new(2);
    assert_eq!(inserter.batch_size(), 2);
    let items: Vec<String> =
        vec!["a", "b", "c", "c", "e"].into_iter().map(|s| s.to_string()).collect();
    let result = inserter.batch_insert(&db, items, |conn, batch| {
        for item in batch {
            conn.execute("INSERT INTO test_items (value) VALUES (?)", [item])?;
        }
        Ok(batch.len())
    });
    assert!(result.is_err());
    let conn = db.get_connection().unwrap();
    let count: i64 =
        conn.query_row("SELECT COUNT(*) FROM test_items", [], |row| row.get(0)).unwrap();
    assert_eq!(count, 2);
}

#[test]
fn batch_of_size_zero_is_rejected_and_nothing_is_inserted_for_no_items() {
    let db = DatabaseManager::new_in_memory().unwrap();
    let zero = BatchInserter::new(0);
    let result = zero.batch_insert(&db, vec![1, 2, 3], |_conn, batch: &[i32]| Ok(batch.len()));
    assert_eq!(result.unwrap_err().message(), "Batch size must be greater than 0");
    let some = BatchInserter::new(4);
    let result = some.batch_insert(&db, Vec::<i32>::new(), |_conn, batch| Ok(batch.len()));
    assert_eq!(result.unwrap(), 0);
}

#[test]
fn monitor_evicts_oldest_first() {
    let mut monitor = PerformanceMonitor::new(3);
    for i in 0..5 {
        monitor.record(metric(&format!("q{}", i), i));
    }
    let all = monitor.get_all_metrics();
    let names: Vec<&str> = all.iter().map(|m| m.query.as_str()).collect();
    assert_eq!(names, vec!["q2", "q3", "q4"]);
    monitor.clear();
    assert!(monitor.get_all_metrics().is_empty());
    monitor.record(metric("again", 1));
    assert_eq!(monitor.get_all_metrics().len(), 1);
}

#[test]
fn monitor_without_room_records_nothing() {
    let mut monitor = PerformanceMonitor::new(0);
    monitor.record(metric("q", 1));
    assert!(monitor.get_all_metrics().is_empty());
    assert_eq!(monitor.get_average_time("q"), None);
}

#[test]
fn average_counts_only_matching_queries_and_rounds_down() {
    let mut monitor = PerformanceMonitor::new(10);
    monitor.record(metric("SELECT a", 10));
    monitor.record(metric("UPDATE b", 1000));
    monitor.record(metric("SELECT c", 5));
    monitor.record(metric("SELECT d", 1));
    assert_eq!(monitor.get_average_time("SELECT"), Some(5));
    assert_eq!(monitor.get_average_time("UPDATE"), Some(1000));
    assert_eq!(monitor.get_average_time("DELETE"), None);
    assert_eq!(monitor.get_average_time(""), Some(254));
}

#[test]
fn average_of_huge_timings_does_not_overflow() {
    let mut monitor = PerformanceMonitor::new(10);
    monitor.record(metric("q", u64::MAX));
    monitor.record(metric("q", u64::MAX));
    monitor.record(metric("q", u64::MAX - 3));
    assert_eq!(monitor.get_average_time("q"), Some(u64::MAX - 1));
}

#[test]
fn slowest_queries_are_ordered_and_stable() {
    let mut monitor = PerformanceMonitor::new(10);
    monitor.record(metric("a", 5));
    monitor.record(metric("b", 9));
    monitor.record(metric("c", 5));
    monitor.record(metric("d", 1));
    monitor.record(metric("e", 9));
    let order: Vec<String> =
        monitor.get_slowest_queries(10).into_iter().map(|m| m.query).collect();
    assert_eq!(order, vec!["b", "e", "a", "c", "d"]);
    let top: Vec<String> = monitor.get_slowest_queries(3).into_iter().map(|m| m.query).collect();
    assert_eq!(top, vec!["b", "e", "a"]);
    assert!(monitor.get_slowest_queries(0).is_empty());
    assert_eq!(monitor.get_all_metrics().len(), 5);
}

#[test]
fn query_plan_has_one_line_per_step() {
    let db = DatabaseManager::new_in_memory().unwrap();
    let conn = db.get_connection().unwrap();
    let plan = analyze_query_plan(&conn, "SELECT * FROM messages WHERE conversation_id = 1")
        .unwrap();
    assert!(!plan.is_empty());
    assert!(plan.ends_with('\n'));
    assert!(plan.contains("idx_messages_conversation"));
    let error = analyze_query_plan(&conn, "SELECT * FROM no_such_table").unwrap_err();
    assert!(error.is_critical());
}

#[test]
fn optimize_reports_sizes() {
    let db = DatabaseManager::new_in_memory().unwrap();
    let conn = db.get_connection().unwrap();
    let report = optimize_database(&conn).unwrap();
    assert!(report.size_before > 0);
    assert!(report.size_after > 0);
    assert_eq!(report.saved_bytes(), Some(report.size_before - report.size_after));
    let odd = SizeReport { size_before: i64::MIN, size_after: 1 };
    assert_eq!(odd.saved_bytes(), None);
    let fine = SizeReport { size_before: 4096, size_after: 1024 };
    assert_eq!(fine.saved_bytes(), Some(3072));
}
