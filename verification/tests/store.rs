use assay_core::db::SCHEMA;
use rusqlite::Connection;

fn count(store: &Connection, table: &str) -> i64 {
    store.query_row(&format!("SELECT COUNT(*) FROM {}", table), [], |row| row.get(0)).unwrap()
}

#[test]
fn schema_creates_the_tables() {
    let store = Connection::open_in_memory().unwrap();
    store.execute_batch(SCHEMA).unwrap();
    for table in ["eval_runs", "samples", "annotations"] {
        assert_eq!(count(&store, table), 0, "{}", table);
    }
    let index: String = store
        .query_row("SELECT sql FROM sqlite_master WHERE name = 'samples_fts'", [], |row| row.get(0))
        .unwrap();
    assert!(index.contains("fts5"), "{}", index);
    assert!(index.contains("input_text") && index.contains("output_text"), "{}", index);
    assert!(index.contains("content='samples'"), "{}", index);
    let columns = |table: &str| -> Vec<String> {
        let mut statement = store.prepare(&format!("PRAGMA table_info({})", table)).unwrap();
        let names = statement.query_map([], |row| row.get::<_, String>(1)).unwrap();
        names.map(|n| n.unwrap()).collect()
    };
    assert_eq!(
        columns("eval_runs"),
        vec![
            "id", "project_id", "eval_id", "model_id", "started_at", "completed_at", "status",
            "config_json", "metrics_json"
        ]
    );
    assert_eq!(
        columns("samples"),
        vec![
            "id", "run_id", "index_num", "input_json", "output_json", "scores_json",
            "trajectory_json", "status", "latency_ms", "tokens_input", "tokens_output"
        ]
    );
    assert_eq!(
        columns("annotations"),
        vec!["id", "sample_id", "author", "created_at", "annotation_type", "content"]
    );
}

#[test]
fn schema_can_be_applied_again_and_keeps_the_rows() {
    let store = Connection::open_in_memory().unwrap();
    store.execute_batch(SCHEMA).unwrap();
    store
        .execute(
            "INSERT INTO eval_runs (id, project_id, eval_id, model_id, started_at, status, config_json) VALUES ('r1', 'p', 'e', 'm', '2024-01-01', 'done', '{}')",
            [],
        )
        .unwrap();
    store
        .execute(
            "INSERT INTO samples (id, run_id, index_num, input_json, status) VALUES ('s1', 'r1', 0, '{}', 'ok')",
            [],
        )
        .unwrap();
    store
        .execute(
            "INSERT INTO annotations (id, sample_id, author, created_at, annotation_type, content) VALUES ('a1', 's1', 'me', '2024-01-02', 'note', 'fine')",
            [],
        )
        .unwrap();
    store.execute_batch(SCHEMA).unwrap();
    store.execute_batch(SCHEMA).unwrap();
    assert_eq!(count(&store, "eval_runs"), 1);
    assert_eq!(count(&store, "samples"), 1);
    assert_eq!(count(&store, "annotations"), 1);
    let content: String =
        store.query_row("SELECT content FROM annotations WHERE id = 'a1'", [], |row| row.get(0)).unwrap();
    assert_eq!(content, "fine");
}

#[test]
fn schema_holds_samples_to_their_runs() {
    let store = Connection::open_in_memory().unwrap();
    store.execute_batch(SCHEMA).unwrap();
    let orphan = store.execute(
        "INSERT INTO samples (id, run_id, index_num, input_json, status) VALUES ('s1', 'none', 0, '{}', 'ok')",
        [],
    );
    assert!(orphan.is_err());
    let orphan = store.execute(
        "INSERT INTO annotations (id, sample_id, author, created_at, annotation_type, content) VALUES ('a1', 'none', 'me', '2024-01-02', 'note', 'x')",
        [],
    );
    assert!(orphan.is_err());
}
