use openfang::memory::migration::{migration_plan, SCHEMA_VERSION};
use openfang::memory::schema::{
    migrate_v1, migrate_v10, migrate_v2, migrate_v3, migrate_v4, migrate_v5, migrate_v6,
    migrate_v7, migrate_v8, migrate_v9, MigrationStep,
};
use rusqlite::Connection;

fn columns(conn: &Connection, table: &str) -> Vec<String> {
    let mut stmt = conn.prepare(&format!("PRAGMA table_info({table})")).unwrap();
    let rows = stmt.query_map([], |row| row.get::<_, String>(1)).unwrap();
    rows.map(|r| r.unwrap()).collect()
}

fn column_exists(conn: &Connection, table: &str, column: &str) -> bool {
    columns(conn, table).iter().any(|n| n == column)
}

/// Perform the steps that are needed.
fn perform(conn: &Connection, steps: Vec<MigrationStep>) -> Result<(), rusqlite::Error> {
    for step in &steps {
        let present = match step.altered_table() {
            Some(table) => columns(conn, table),
            None => vec![],
        };
        if step.is_needed(&present) {
            conn.execute_batch(&step.sql())?;
        }
    }
    Ok(())
}

fn version(conn: &Connection) -> u32 {
    conn.query_row("PRAGMA user_version", [], |row| row.get(0)).unwrap()
}

fn run_migrations(conn: &Connection) -> Result<(), rusqlite::Error> {
    perform(conn, migration_plan(version(conn)))
}

fn names(conn: &Connection, sql: &str) -> Vec<String> {
    let mut stmt = conn.prepare(sql).unwrap();
    let rows = stmt.query_map([], |row| row.get(0)).unwrap();
    rows.filter_map(|r| r.ok()).collect()
}

fn tables(conn: &Connection) -> Vec<String> {
    names(conn, "SELECT name FROM sqlite_master WHERE type='table' ORDER BY name")
}

fn indexes(conn: &Connection) -> Vec<String> {
    names(conn, "SELECT name FROM sqlite_master WHERE type='index'")
}

#[test]
fn test_migration_creates_tables() {
    let conn = Connection::open_in_memory().unwrap();
    run_migrations(&conn).unwrap();

    // Verify tables exist
    let tables = tables(&conn);
    assert!(tables.contains(&"agents".to_string()));
    assert!(tables.contains(&"sessions".to_string()));
    assert!(tables.contains(&"kv_store".to_string()));
    assert!(tables.contains(&"memories".to_string()));
    assert!(tables.contains(&"entities".to_string()));
    assert!(tables.contains(&"relations".to_string()));
}

#[test]
fn test_migration_idempotent() {
    let conn = Connection::open_in_memory().unwrap();
    run_migrations(&conn).unwrap();
    run_migrations(&conn).unwrap(); // Should not error
}

#[test]
fn test_migration_v9_adds_session_user_columns() {
    let conn = Connection::open_in_memory().unwrap();
    run_migrations(&conn).unwrap();
    assert!(column_exists(&conn, "sessions", "user_id"));
    assert!(column_exists(&conn, "sessions", "parent_session_id"));
}

#[test]
fn test_migration_v9_indexes_present() {
    // The (agent_id, user_id) and parent_session_id indexes underpin the
    // per-user and child-session lookups. If either is missing, the queries
    // fall back to full table scans.
    let conn = Connection::open_in_memory().unwrap();
    run_migrations(&conn).unwrap();
    let names = indexes(&conn);
    assert!(names.contains(&"idx_sessions_user".to_string()));
    assert!(names.contains(&"idx_sessions_parent".to_string()));
}

/// A v8 database (sessions table without `user_id` or `parent_session_id`)
/// must upgrade cleanly to v9: existing rows survive, the new columns are
/// present, and the user_id default sentinel is the nil UUID.
#[test]
fn test_migration_v8_to_v9_upgrade_preserves_existing_rows() {
    let conn = Connection::open_in_memory().unwrap();

    // Build the v8 schema by stopping one step early.
    perform(&conn, migrate_v1()).unwrap();
    perform(&conn, migrate_v2()).unwrap();
    perform(&conn, migrate_v3()).unwrap();
    perform(&conn, migrate_v4()).unwrap();
    perform(&conn, migrate_v5()).unwrap();
    perform(&conn, migrate_v6()).unwrap();
    perform(&conn, migrate_v7()).unwrap();
    perform(&conn, migrate_v8()).unwrap();
    perform(&conn, vec![MigrationStep::SetVersion(8)]).unwrap();

    assert!(!column_exists(&conn, "sessions", "user_id"));
    assert!(!column_exists(&conn, "sessions", "parent_session_id"));

    // Insert a pre-v9 session row (no user_id, no parent_session_id).
    conn.execute(
        "INSERT INTO sessions (id, agent_id, messages, context_window_tokens, created_at, updated_at)
         VALUES ('sess-1', 'agent-1', X'', 0, datetime('now'), datetime('now'))",
        [],
    )
    .unwrap();

    // Now run the full pipeline: v9 should apply on top of v8.
    run_migrations(&conn).unwrap();

    assert!(column_exists(&conn, "sessions", "user_id"));
    assert!(column_exists(&conn, "sessions", "parent_session_id"));

    // The pre-existing row survives and gets the nil-UUID default for
    // user_id, NULL for parent_session_id.
    let (uid, parent): (String, Option<String>) = conn
        .query_row(
            "SELECT user_id, parent_session_id FROM sessions WHERE id = 'sess-1'",
            [],
            |row| Ok((row.get::<_, String>(0)?, row.get::<_, Option<String>>(1)?)),
        )
        .unwrap();
    assert_eq!(uid, "00000000-0000-0000-0000-000000000000");
    assert!(parent.is_none());
}

#[test]
fn test_migration_v10_creates_storage_tables() {
    let conn = Connection::open_in_memory().unwrap();
    run_migrations(&conn).unwrap();
    let tables = tables(&conn);
    assert!(tables.contains(&"session_extractions".to_string()));
    assert!(tables.contains(&"user_memory_topics".to_string()));
    assert!(tables.contains(&"user_agent_memory_topics".to_string()));
}

#[test]
fn test_migration_v10_session_extractions_columns_denormalized() {
    let conn = Connection::open_in_memory().unwrap();
    run_migrations(&conn).unwrap();
    assert!(column_exists(&conn, "session_extractions", "user_id"));
    assert!(column_exists(&conn, "session_extractions", "agent_id"));
    assert!(column_exists(&conn, "session_extractions", "session_id"));
    assert!(column_exists(&conn, "session_extractions", "facts"));
    assert!(column_exists(&conn, "session_extractions", "preferences"));
    assert!(column_exists(&conn, "session_extractions", "decisions"));
    assert!(column_exists(&conn, "session_extractions", "tasks"));
    assert!(column_exists(&conn, "session_extractions", "open_items"));
    assert!(column_exists(&conn, "session_extractions", "created_at"));
}

#[test]
fn test_migration_v10_user_memory_topics_columns() {
    let conn = Connection::open_in_memory().unwrap();
    run_migrations(&conn).unwrap();
    assert!(column_exists(&conn, "user_memory_topics", "user_id"));
    assert!(column_exists(&conn, "user_memory_topics", "topic"));
    assert!(column_exists(&conn, "user_memory_topics", "summary"));
    assert!(column_exists(&conn, "user_memory_topics", "content"));
    assert!(column_exists(&conn, "user_memory_topics", "updated_at"));
    assert!(column_exists(&conn, "user_memory_topics", "expires_at"));
    assert!(column_exists(&conn, "user_memory_topics", "embedding"));
}

#[test]
fn test_migration_v10_user_agent_memory_topics_columns() {
    let conn = Connection::open_in_memory().unwrap();
    run_migrations(&conn).unwrap();
    assert!(column_exists(&conn, "user_agent_memory_topics", "user_id"));
    assert!(column_exists(&conn, "user_agent_memory_topics", "agent_id"));
    assert!(column_exists(&conn, "user_agent_memory_topics", "topic"));
    assert!(column_exists(&conn, "user_agent_memory_topics", "summary"));
    assert!(column_exists(&conn, "user_agent_memory_topics", "content"));
    assert!(column_exists(&conn, "user_agent_memory_topics", "updated_at"));
}

#[test]
fn test_migration_v10_indexes_present() {
    let conn = Connection::open_in_memory().unwrap();
    run_migrations(&conn).unwrap();
    let names = indexes(&conn);
    assert!(names.contains(&"idx_extractions_session".to_string()));
    assert!(names.contains(&"idx_extractions_user_created".to_string()));
    assert!(names.contains(&"idx_user_memory_user".to_string()));
    assert!(names.contains(&"idx_user_agent_memory".to_string()));
}

/// A v9 database must upgrade cleanly to v10: the three new tables appear
/// without touching pre-existing rows.
#[test]
fn test_migration_v9_to_v10_upgrade_preserves_existing_rows() {
    let conn = Connection::open_in_memory().unwrap();

    // Stop at v9.
    perform(&conn, migrate_v1()).unwrap();
    perform(&conn, migrate_v2()).unwrap();
    perform(&conn, migrate_v3()).unwrap();
    perform(&conn, migrate_v4()).unwrap();
    perform(&conn, migrate_v5()).unwrap();
    perform(&conn, migrate_v6()).unwrap();
    perform(&conn, migrate_v7()).unwrap();
    perform(&conn, migrate_v8()).unwrap();
    perform(&conn, migrate_v9()).unwrap();
    perform(&conn, vec![MigrationStep::SetVersion(9)]).unwrap();

    // Insert a v9 session row: nothing here should be touched by v10.
    conn.execute(
        "INSERT INTO sessions (id, agent_id, messages, context_window_tokens, user_id, created_at, updated_at) \
         VALUES ('sess-v9', 'agent-v9', X'', 0, '11111111-1111-1111-1111-111111111111', datetime('now'), datetime('now'))",
        [],
    )
    .unwrap();

    // Apply v10.
    run_migrations(&conn).unwrap();

    // New tables exist.
    let tables = tables(&conn);
    assert!(tables.contains(&"session_extractions".to_string()));
    assert!(tables.contains(&"user_memory_topics".to_string()));
    assert!(tables.contains(&"user_agent_memory_topics".to_string()));

    // Pre-existing session row untouched.
    let uid: String = conn
        .query_row("SELECT user_id FROM sessions WHERE id = 'sess-v9'", [], |row| row.get(0))
        .unwrap();
    assert_eq!(uid, "11111111-1111-1111-1111-111111111111");
}

#[test]
fn steps_become_statements() {
    let mut v10 = migrate_v10().into_iter();
    assert!(v10.next().unwrap().sql().starts_with(
        "CREATE TABLE IF NOT EXISTS session_extractions (id TEXT PRIMARY KEY, session_id TEXT NOT NULL, "
    ));
    assert_eq!(
        v10.next().unwrap().sql(),
        "CREATE INDEX IF NOT EXISTS idx_extractions_session ON session_extractions(session_id)"
    );
    assert!(v10.nth(1).unwrap().sql().ends_with("PRIMARY KEY (user_id, topic))"));
    let v6 = migrate_v6();
    assert_eq!(v6[0].sql(), "ALTER TABLE sessions ADD COLUMN label TEXT");
    assert_eq!(
        v6[1].sql(),
        "INSERT OR IGNORE INTO migrations (version, applied_at, description) VALUES (6, datetime('now'), 'Add label column to sessions for human-readable labels')"
    );
    assert_eq!(MigrationStep::SetVersion(10).sql(), "PRAGMA user_version = 10");
}

#[test]
fn plan_of_a_current_database_is_short() {
    assert_eq!(SCHEMA_VERSION, 10);
    assert_eq!(migration_plan(10).len(), 1);
    assert_eq!(migration_plan(4000).len(), 1);
    let all: usize = [
        migrate_v1().len(),
        migrate_v2().len(),
        migrate_v3().len(),
        migrate_v4().len(),
        migrate_v5().len(),
        migrate_v6().len(),
        migrate_v7().len(),
        migrate_v8().len(),
        migrate_v9().len(),
        migrate_v10().len(),
    ]
    .iter()
    .sum();
    assert_eq!(migration_plan(0).len(), all + 1);
}

#[test]
fn upgrades_end_in_the_same_schema() {
    let fresh = Connection::open_in_memory().unwrap();
    run_migrations(&fresh).unwrap();
    assert_eq!(version(&fresh), 10);
    let described = |conn: &Connection| -> Vec<(String, Vec<String>)> {
        tables(conn).into_iter().map(|t| (t.clone(), columns(conn, &t))).collect()
    };
    let parts: [fn() -> Vec<MigrationStep>; 10] = [
        migrate_v1, migrate_v2, migrate_v3, migrate_v4, migrate_v5, migrate_v6, migrate_v7,
        migrate_v8, migrate_v9, migrate_v10,
    ];
    for reached in 0..=10 {
        let conn = Connection::open_in_memory().unwrap();
        for part in &parts[..reached] {
            perform(&conn, part()).unwrap();
        }
        perform(&conn, vec![MigrationStep::SetVersion(reached as u32)]).unwrap();
        run_migrations(&conn).unwrap();
        assert_eq!(described(&conn), described(&fresh), "from version {reached}");
        assert_eq!(indexes(&conn), indexes(&fresh));
        // Performing everything again changes nothing.
        perform(&conn, migration_plan(0)).unwrap();
        assert_eq!(described(&conn), described(&fresh));
        assert_eq!(
            names(&conn, "SELECT CAST(version AS TEXT) FROM migrations ORDER BY version").len(),
            10
        );
    }
}

#[test]
fn a_column_is_not_added_twice() {
    let label = migrate_v6().remove(0);
    assert_eq!(label.altered_table().map(|t| t.as_str()), Some("sessions"));
    assert!(label.is_needed(&["id".to_string()]));
    assert!(!label.is_needed(&["id".to_string(), "label".to_string()]));
    let record = migrate_v6().remove(1);
    assert!(record.altered_table().is_none());
    assert!(record.is_needed(&["label".to_string()]));
}
