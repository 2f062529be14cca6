//! Laws of the statements of the schema: the SQL that creates each table, adds each column and
//! creates each index, version by version.

use crate::memory::migration::{migration_plan, needed, plan, steps_between, version_steps};
use crate::memory::schema::{
    agents_table, audit_entries_table, canonical_sessions_table, column_sql, entities_table,
    events_table, kv_store_table, memories_table, migrate_v10, migrations_table,
    paired_devices_table, relations_table, session_extractions_table, sessions_table, step_sql,
    task_queue_table, usage_events_table, user_agent_memory_topics_table, user_memory_topics_table,
    version_1, version_10, version_2, version_3, version_4, version_5, version_6, version_7,
    version_8, version_9, Column, ColumnView, MigrationStep, StepView,
};
use crate::memory::table::views;
use crate::text::{decimal, joined, optional_text};
use vstd::prelude::*;

verus! {

/// A column is declared by its name, its kind, and its default if it has one.
pub proof fn columns_are_declared(column: ColumnView)
    ensures
        column.default is None ==> column_sql(column) == column.name + " "@ + column.kind,
        column.default matches Some(literal) ==> column_sql(column) == column.name + " "@
            + column.kind + " DEFAULT "@ + literal,
{
    if column.default is None {
        assert(column_sql(column) =~= column.name + " "@ + column.kind);
    }
    if let Some(literal) = column.default {
        assert(column_sql(column) =~= column.name + " "@ + column.kind + " DEFAULT "@ + literal);
    }
}

/// The statement that creates the table `agents`.
pub proof fn agents_statement()
    ensures
        step_sql(agents_table()) == "CREATE TABLE IF NOT EXISTS agents ("@ + joined(
            seq![
                "id TEXT PRIMARY KEY"@,
                "name TEXT NOT NULL"@,
                "manifest BLOB NOT NULL"@,
                "state TEXT NOT NULL"@,
                "created_at TEXT NOT NULL"@,
                "updated_at TEXT NOT NULL"@,
            ],
            ", "@,
        ) + ")"@,
{
    let columns = agents_table()->CreateTable_columns;
    assert(column_sql(columns[0]) == "id TEXT PRIMARY KEY"@) by {
        reveal_strlit("id TEXT PRIMARY KEY");
        reveal_strlit("id");
        reveal_strlit("TEXT PRIMARY KEY");
        reveal_strlit(" ");
        assert(column_sql(columns[0]) =~= "id TEXT PRIMARY KEY"@);
    }
    assert(column_sql(columns[1]) == "name TEXT NOT NULL"@) by {
        reveal_strlit("name TEXT NOT NULL");
        reveal_strlit("name");
        reveal_strlit("TEXT NOT NULL");
        reveal_strlit(" ");
        assert(column_sql(columns[1]) =~= "name TEXT NOT NULL"@);
    }
    assert(column_sql(columns[2]) == "manifest BLOB NOT NULL"@) by {
        reveal_strlit("manifest BLOB NOT NULL");
        reveal_strlit("manifest");
        reveal_strlit("BLOB NOT NULL");
        reveal_strlit(" ");
        assert(column_sql(columns[2]) =~= "manifest BLOB NOT NULL"@);
    }
    assert(column_sql(columns[3]) == "state TEXT NOT NULL"@) by {
        reveal_strlit("state TEXT NOT NULL");
        reveal_strlit("state");
        reveal_strlit("TEXT NOT NULL");
        reveal_strlit(" ");
        assert(column_sql(columns[3]) =~= "state TEXT NOT NULL"@);
    }
    assert(column_sql(columns[4]) == "created_at TEXT NOT NULL"@) by {
        reveal_strlit("created_at TEXT NOT NULL");
        reveal_strlit("created_at");
        reveal_strlit("TEXT NOT NULL");
        reveal_strlit(" ");
        assert(column_sql(columns[4]) =~= "created_at TEXT NOT NULL"@);
    }
    assert(column_sql(columns[5]) == "updated_at TEXT NOT NULL"@) by {
        reveal_strlit("updated_at TEXT NOT NULL");
        reveal_strlit("updated_at");
        reveal_strlit("TEXT NOT NULL");
        reveal_strlit(" ");
        assert(column_sql(columns[5]) =~= "updated_at TEXT NOT NULL"@);
    }
    let declared = seq![
        "id TEXT PRIMARY KEY"@,
        "name TEXT NOT NULL"@,
        "manifest BLOB NOT NULL"@,
        "state TEXT NOT NULL"@,
        "created_at TEXT NOT NULL"@,
        "updated_at TEXT NOT NULL"@,
    ];
    assert(columns.map_values(|c: ColumnView| column_sql(c)) =~= declared);
    reveal_strlit("CREATE TABLE IF NOT EXISTS agents (");
    reveal_strlit("CREATE TABLE IF NOT EXISTS ");
    reveal_strlit("agents");
    reveal_strlit(" (");
    reveal_strlit(")");
    reveal_strlit("");
    assert("CREATE TABLE IF NOT EXISTS "@ + "agents"@ + " ("@ =~= "CREATE TABLE IF NOT EXISTS agents ("@);
    let text = joined(declared, ", "@);
    assert(step_sql(agents_table()) =~= "CREATE TABLE IF NOT EXISTS agents ("@ + text + ")"@);
}

/// The statement that creates the table `sessions`.
pub proof fn sessions_statement()
    ensures
        step_sql(sessions_table()) == "CREATE TABLE IF NOT EXISTS sessions ("@ + joined(
            seq![
                "id TEXT PRIMARY KEY"@,
                "agent_id TEXT NOT NULL"@,
                "messages BLOB NOT NULL"@,
                "context_window_tokens INTEGER DEFAULT 0"@,
                "created_at TEXT NOT NULL"@,
                "updated_at TEXT NOT NULL"@,
            ],
            ", "@,
        ) + ")"@,
{
    let columns = sessions_table()->CreateTable_columns;
    assert(column_sql(columns[0]) == "id TEXT PRIMARY KEY"@) by {
        reveal_strlit("id TEXT PRIMARY KEY");
        reveal_strlit("id");
        reveal_strlit("TEXT PRIMARY KEY");
        reveal_strlit(" ");
        assert(column_sql(columns[0]) =~= "id TEXT PRIMARY KEY"@);
    }
    assert(column_sql(columns[1]) == "agent_id TEXT NOT NULL"@) by {
        reveal_strlit("agent_id TEXT NOT NULL");
        reveal_strlit("agent_id");
        reveal_strlit("TEXT NOT NULL");
        reveal_strlit(" ");
        assert(column_sql(columns[1]) =~= "agent_id TEXT NOT NULL"@);
    }
    assert(column_sql(columns[2]) == "messages BLOB NOT NULL"@) by {
        reveal_strlit("messages BLOB NOT NULL");
        reveal_strlit("messages");
        reveal_strlit("BLOB NOT NULL");
        reveal_strlit(" ");
        assert(column_sql(columns[2]) =~= "messages BLOB NOT NULL"@);
    }
    assert(column_sql(columns[3]) == "context_window_tokens INTEGER DEFAULT 0"@) by {
        reveal_strlit("context_window_tokens INTEGER DEFAULT 0");
        reveal_strlit("context_window_tokens");
        reveal_strlit("INTEGER");
        reveal_strlit(" ");
        reveal_strlit(" DEFAULT ");
        reveal_strlit("0");
        assert(column_sql(columns[3]) =~= "context_window_tokens INTEGER DEFAULT 0"@);
    }
    assert(column_sql(columns[4]) == "created_at TEXT NOT NULL"@) by {
        reveal_strlit("created_at TEXT NOT NULL");
        reveal_strlit("created_at");
        reveal_strlit("TEXT NOT NULL");
        reveal_strlit(" ");
        assert(column_sql(columns[4]) =~= "created_at TEXT NOT NULL"@);
    }
    assert(column_sql(columns[5]) == "updated_at TEXT NOT NULL"@) by {
        reveal_strlit("updated_at TEXT NOT NULL");
        reveal_strlit("updated_at");
        reveal_strlit("TEXT NOT NULL");
        reveal_strlit(" ");
        assert(column_sql(columns[5]) =~= "updated_at TEXT NOT NULL"@);
    }
    let declared = seq![
        "id TEXT PRIMARY KEY"@,
        "agent_id TEXT NOT NULL"@,
        "messages BLOB NOT NULL"@,
        "context_window_tokens INTEGER DEFAULT 0"@,
        "created_at TEXT NOT NULL"@,
        "updated_at TEXT NOT NULL"@,
    ];
    assert(columns.map_values(|c: ColumnView| column_sql(c)) =~= declared);
    reveal_strlit("CREATE TABLE IF NOT EXISTS sessions (");
    reveal_strlit("CREATE TABLE IF NOT EXISTS ");
    reveal_strlit("sessions");
    reveal_strlit(" (");
    reveal_strlit(")");
    reveal_strlit("");
    assert("CREATE TABLE IF NOT EXISTS "@ + "sessions"@ + " ("@ =~= "CREATE TABLE IF NOT EXISTS sessions ("@);
    let text = joined(declared, ", "@);
    assert(step_sql(sessions_table()) =~= "CREATE TABLE IF NOT EXISTS sessions ("@ + text + ")"@);
}

/// The statement that creates the table `events`.
pub proof fn events_statement()
    ensures
        step_sql(events_table()) == "CREATE TABLE IF NOT EXISTS events ("@ + joined(
            seq![
                "id TEXT PRIMARY KEY"@,
                "source_agent TEXT NOT NULL"@,
                "target TEXT NOT NULL"@,
                "payload BLOB NOT NULL"@,
                "timestamp TEXT NOT NULL"@,
            ],
            ", "@,
        ) + ")"@,
{
    let columns = events_table()->CreateTable_columns;
    assert(column_sql(columns[0]) == "id TEXT PRIMARY KEY"@) by {
        reveal_strlit("id TEXT PRIMARY KEY");
        reveal_strlit("id");
        reveal_strlit("TEXT PRIMARY KEY");
        reveal_strlit(" ");
        assert(column_sql(columns[0]) =~= "id TEXT PRIMARY KEY"@);
    }
    assert(column_sql(columns[1]) == "source_agent TEXT NOT NULL"@) by {
        reveal_strlit("source_agent TEXT NOT NULL");
        reveal_strlit("source_agent");
        reveal_strlit("TEXT NOT NULL");
        reveal_strlit(" ");
        assert(column_sql(columns[1]) =~= "source_agent TEXT NOT NULL"@);
    }
    assert(column_sql(columns[2]) == "target TEXT NOT NULL"@) by {
        reveal_strlit("target TEXT NOT NULL");
        reveal_strlit("target");
        reveal_strlit("TEXT NOT NULL");
        reveal_strlit(" ");
        assert(column_sql(columns[2]) =~= "target TEXT NOT NULL"@);
    }
    assert(column_sql(columns[3]) == "payload BLOB NOT NULL"@) by {
        reveal_strlit("payload BLOB NOT NULL");
        reveal_strlit("payload");
        reveal_strlit("BLOB NOT NULL");
        reveal_strlit(" ");
        assert(column_sql(columns[3]) =~= "payload BLOB NOT NULL"@);
    }
    assert(column_sql(columns[4]) == "timestamp TEXT NOT NULL"@) by {
        reveal_strlit("timestamp TEXT NOT NULL");
        reveal_strlit("timestamp");
        reveal_strlit("TEXT NOT NULL");
        reveal_strlit(" ");
        assert(column_sql(columns[4]) =~= "timestamp TEXT NOT NULL"@);
    }
    let declared = seq![
        "id TEXT PRIMARY KEY"@,
        "source_agent TEXT NOT NULL"@,
        "target TEXT NOT NULL"@,
        "payload BLOB NOT NULL"@,
        "timestamp TEXT NOT NULL"@,
    ];
    assert(columns.map_values(|c: ColumnView| column_sql(c)) =~= declared);
    reveal_strlit("CREATE TABLE IF NOT EXISTS events (");
    reveal_strlit("CREATE TABLE IF NOT EXISTS ");
    reveal_strlit("events");
    reveal_strlit(" (");
    reveal_strlit(")");
    reveal_strlit("");
    assert("CREATE TABLE IF NOT EXISTS "@ + "events"@ + " ("@ =~= "CREATE TABLE IF NOT EXISTS events ("@);
    let text = joined(declared, ", "@);
    assert(step_sql(events_table()) =~= "CREATE TABLE IF NOT EXISTS events ("@ + text + ")"@);
}

/// The statement that creates the table `kv_store`.
pub proof fn kv_store_statement()
    ensures
        step_sql(kv_store_table()) == "CREATE TABLE IF NOT EXISTS kv_store ("@ + joined(
            seq![
                "agent_id TEXT NOT NULL"@,
                "key TEXT NOT NULL"@,
                "value BLOB NOT NULL"@,
                "version INTEGER NOT NULL DEFAULT 1"@,
                "updated_at TEXT NOT NULL"@,
            ],
            ", "@,
        ) + ", PRIMARY KEY (agent_id, key))"@,
{
    let columns = kv_store_table()->CreateTable_columns;
    assert(column_sql(columns[0]) == "agent_id TEXT NOT NULL"@) by {
        reveal_strlit("agent_id TEXT NOT NULL");
        reveal_strlit("agent_id");
        reveal_strlit("TEXT NOT NULL");
        reveal_strlit(" ");
        assert(column_sql(columns[0]) =~= "agent_id TEXT NOT NULL"@);
    }
    assert(column_sql(columns[1]) == "key TEXT NOT NULL"@) by {
        reveal_strlit("key TEXT NOT NULL");
        reveal_strlit("key");
        reveal_strlit("TEXT NOT NULL");
        reveal_strlit(" ");
        assert(column_sql(columns[1]) =~= "key TEXT NOT NULL"@);
    }
    assert(column_sql(columns[2]) == "value BLOB NOT NULL"@) by {
        reveal_strlit("value BLOB NOT NULL");
        reveal_strlit("value");
        reveal_strlit("BLOB NOT NULL");
        reveal_strlit(" ");
        assert(column_sql(columns[2]) =~= "value BLOB NOT NULL"@);
    }
    assert(column_sql(columns[3]) == "version INTEGER NOT NULL DEFAULT 1"@) by {
        reveal_strlit("version INTEGER NOT NULL DEFAULT 1");
        reveal_strlit("version");
        reveal_strlit("INTEGER NOT NULL");
        reveal_strlit(" ");
        reveal_strlit(" DEFAULT ");
        reveal_strlit("1");
        assert(column_sql(columns[3]) =~= "version INTEGER NOT NULL DEFAULT 1"@);
    }
    assert(column_sql(columns[4]) == "updated_at TEXT NOT NULL"@) by {
        reveal_strlit("updated_at TEXT NOT NULL");
        reveal_strlit("updated_at");
        reveal_strlit("TEXT NOT NULL");
        reveal_strlit(" ");
        assert(column_sql(columns[4]) =~= "updated_at TEXT NOT NULL"@);
    }
    let declared = seq![
        "agent_id TEXT NOT NULL"@,
        "key TEXT NOT NULL"@,
        "value BLOB NOT NULL"@,
        "version INTEGER NOT NULL DEFAULT 1"@,
        "updated_at TEXT NOT NULL"@,
    ];
    assert(columns.map_values(|c: ColumnView| column_sql(c)) =~= declared);
    reveal_strlit("CREATE TABLE IF NOT EXISTS kv_store (");
    reveal_strlit("CREATE TABLE IF NOT EXISTS ");
    reveal_strlit("kv_store");
    reveal_strlit(" (");
    reveal_strlit(", PRIMARY KEY (agent_id, key))");
    reveal_strlit(")");
    reveal_strlit(", PRIMARY KEY (");
    reveal_strlit("agent_id, key");
    assert("CREATE TABLE IF NOT EXISTS "@ + "kv_store"@ + " ("@ =~= "CREATE TABLE IF NOT EXISTS kv_store ("@);
    assert(", PRIMARY KEY ("@ + "agent_id, key"@ + ")"@ + ")"@ =~= ", PRIMARY KEY (agent_id, key))"@);
    let text = joined(declared, ", "@);
    assert(step_sql(kv_store_table()) =~= "CREATE TABLE IF NOT EXISTS kv_store ("@ + text + ", PRIMARY KEY (agent_id, key))"@);
}

/// The statement that creates the table `task_queue`.
pub proof fn task_queue_statement()
    ensures
        step_sql(task_queue_table()) == "CREATE TABLE IF NOT EXISTS task_queue ("@ + joined(
            seq![
                "id TEXT PRIMARY KEY"@,
                "agent_id TEXT NOT NULL"@,
                "task_type TEXT NOT NULL"@,
                "payload BLOB NOT NULL"@,
                "status TEXT NOT NULL DEFAULT 'pending'"@,
                "priority INTEGER NOT NULL DEFAULT 0"@,
                "scheduled_at TEXT"@,
                "created_at TEXT NOT NULL"@,
                "completed_at TEXT"@,
            ],
            ", "@,
        ) + ")"@,
{
    let columns = task_queue_table()->CreateTable_columns;
    assert(column_sql(columns[0]) == "id TEXT PRIMARY KEY"@) by {
        reveal_strlit("id TEXT PRIMARY KEY");
        reveal_strlit("id");
        reveal_strlit("TEXT PRIMARY KEY");
        reveal_strlit(" ");
        assert(column_sql(columns[0]) =~= "id TEXT PRIMARY KEY"@);
    }
    assert(column_sql(columns[1]) == "agent_id TEXT NOT NULL"@) by {
        reveal_strlit("agent_id TEXT NOT NULL");
        reveal_strlit("agent_id");
        reveal_strlit("TEXT NOT NULL");
        reveal_strlit(" ");
        assert(column_sql(columns[1]) =~= "agent_id TEXT NOT NULL"@);
    }
    assert(column_sql(columns[2]) == "task_type TEXT NOT NULL"@) by {
        reveal_strlit("task_type TEXT NOT NULL");
        reveal_strlit("task_type");
        reveal_strlit("TEXT NOT NULL");
        reveal_strlit(" ");
        assert(column_sql(columns[2]) =~= "task_type TEXT NOT NULL"@);
    }
    assert(column_sql(columns[3]) == "payload BLOB NOT NULL"@) by {
        reveal_strlit("payload BLOB NOT NULL");
        reveal_strlit("payload");
        reveal_strlit("BLOB NOT NULL");
        reveal_strlit(" ");
        assert(column_sql(columns[3]) =~= "payload BLOB NOT NULL"@);
    }
    assert(column_sql(columns[4]) == "status TEXT NOT NULL DEFAULT 'pending'"@) by {
        reveal_strlit("status TEXT NOT NULL DEFAULT 'pending'");
        reveal_strlit("status");
        reveal_strlit("TEXT NOT NULL");
        reveal_strlit(" ");
        reveal_strlit(" DEFAULT ");
        reveal_strlit("'pending'");
        assert(column_sql(columns[4]) =~= "status TEXT NOT NULL DEFAULT 'pending'"@);
    }
    assert(column_sql(columns[5]) == "priority INTEGER NOT NULL DEFAULT 0"@) by {
        reveal_strlit("priority INTEGER NOT NULL DEFAULT 0");
        reveal_strlit("priority");
        reveal_strlit("INTEGER NOT NULL");
        reveal_strlit(" ");
        reveal_strlit(" DEFAULT ");
        reveal_strlit("0");
        assert(column_sql(columns[5]) =~= "priority INTEGER NOT NULL DEFAULT 0"@);
    }
    assert(column_sql(columns[6]) == "scheduled_at TEXT"@) by {
        reveal_strlit("scheduled_at TEXT");
        reveal_strlit("scheduled_at");
        reveal_strlit("TEXT");
        reveal_strlit(" ");
        assert(column_sql(columns[6]) =~= "scheduled_at TEXT"@);
    }
    assert(column_sql(columns[7]) == "created_at TEXT NOT NULL"@) by {
        reveal_strlit("created_at TEXT NOT NULL");
        reveal_strlit("created_at");
        reveal_strlit("TEXT NOT NULL");
        reveal_strlit(" ");
        assert(column_sql(columns[7]) =~= "created_at TEXT NOT NULL"@);
    }
    assert(column_sql(columns[8]) == "completed_at TEXT"@) by {
        reveal_strlit("completed_at TEXT");
        reveal_strlit("completed_at");
        reveal_strlit("TEXT");
        reveal_strlit(" ");
        assert(column_sql(columns[8]) =~= "completed_at TEXT"@);
    }
    let declared = seq![
        "id TEXT PRIMARY KEY"@,
        "agent_id TEXT NOT NULL"@,
        "task_type TEXT NOT NULL"@,
        "payload BLOB NOT NULL"@,
        "status TEXT NOT NULL DEFAULT 'pending'"@,
        "priority INTEGER NOT NULL DEFAULT 0"@,
        "scheduled_at TEXT"@,
        "created_at TEXT NOT NULL"@,
        "completed_at TEXT"@,
    ];
    assert(columns.map_values(|c: ColumnView| column_sql(c)) =~= declared);
    reveal_strlit("CREATE TABLE IF NOT EXISTS task_queue (");
    reveal_strlit("CREATE TABLE IF NOT EXISTS ");
    reveal_strlit("task_queue");
    reveal_strlit(" (");
    reveal_strlit(")");
    reveal_strlit("");
    assert("CREATE TABLE IF NOT EXISTS "@ + "task_queue"@ + " ("@ =~= "CREATE TABLE IF NOT EXISTS task_queue ("@);
    let text = joined(declared, ", "@);
    assert(step_sql(task_queue_table()) =~= "CREATE TABLE IF NOT EXISTS task_queue ("@ + text + ")"@);
}

/// The statement that creates the table `memories`.
pub proof fn memories_statement()
    ensures
        step_sql(memories_table()) == "CREATE TABLE IF NOT EXISTS memories ("@ + joined(
            seq![
                "id TEXT PRIMARY KEY"@,
                "agent_id TEXT NOT NULL"@,
                "content TEXT NOT NULL"@,
                "source TEXT NOT NULL"@,
                "scope TEXT NOT NULL DEFAULT 'episodic'"@,
                "confidence REAL NOT NULL DEFAULT 1.0"@,
                "metadata TEXT NOT NULL DEFAULT '{}'"@,
                "created_at TEXT NOT NULL"@,
                "accessed_at TEXT NOT NULL"@,
                "access_count INTEGER NOT NULL DEFAULT 0"@,
                "deleted INTEGER NOT NULL DEFAULT 0"@,
            ],
            ", "@,
        ) + ")"@,
{
    let columns = memories_table()->CreateTable_columns;
    assert(column_sql(columns[0]) == "id TEXT PRIMARY KEY"@) by {
        reveal_strlit("id TEXT PRIMARY KEY");
        reveal_strlit("id");
        reveal_strlit("TEXT PRIMARY KEY");
        reveal_strlit(" ");
        assert(column_sql(columns[0]) =~= "id TEXT PRIMARY KEY"@);
    }
    assert(column_sql(columns[1]) == "agent_id TEXT NOT NULL"@) by {
        reveal_strlit("agent_id TEXT NOT NULL");
        reveal_strlit("agent_id");
        reveal_strlit("TEXT NOT NULL");
        reveal_strlit(" ");
        assert(column_sql(columns[1]) =~= "agent_id TEXT NOT NULL"@);
    }
    assert(column_sql(columns[2]) == "content TEXT NOT NULL"@) by {
        reveal_strlit("content TEXT NOT NULL");
        reveal_strlit("content");
        reveal_strlit("TEXT NOT NULL");
        reveal_strlit(" ");
        assert(column_sql(columns[2]) =~= "content TEXT NOT NULL"@);
    }
    assert(column_sql(columns[3]) == "source TEXT NOT NULL"@) by {
        reveal_strlit("source TEXT NOT NULL");
        reveal_strlit("source");
        reveal_strlit("TEXT NOT NULL");
        reveal_strlit(" ");
        assert(column_sql(columns[3]) =~= "source TEXT NOT NULL"@);
    }
    assert(column_sql(columns[4]) == "scope TEXT NOT NULL DEFAULT 'episodic'"@) by {
        reveal_strlit("scope TEXT NOT NULL DEFAULT 'episodic'");
        reveal_strlit("scope");
        reveal_strlit("TEXT NOT NULL");
        reveal_strlit(" ");
        reveal_strlit(" DEFAULT ");
        reveal_strlit("'episodic'");
        assert(column_sql(columns[4]) =~= "scope TEXT NOT NULL DEFAULT 'episodic'"@);
    }
    assert(column_sql(columns[5]) == "confidence REAL NOT NULL DEFAULT 1.0"@) by {
        reveal_strlit("confidence REAL NOT NULL DEFAULT 1.0");
        reveal_strlit("confidence");
        reveal_strlit("REAL NOT NULL");
        reveal_strlit(" ");
        reveal_strlit(" DEFAULT ");
        reveal_strlit("1.0");
        assert(column_sql(columns[5]) =~= "confidence REAL NOT NULL DEFAULT 1.0"@);
    }
    assert(column_sql(columns[6]) == "metadata TEXT NOT NULL DEFAULT '{}'"@) by {
        reveal_strlit("metadata TEXT NOT NULL DEFAULT '{}'");
        reveal_strlit("metadata");
        reveal_strlit("TEXT NOT NULL");
        reveal_strlit(" ");
        reveal_strlit(" DEFAULT ");
        reveal_strlit("'{}'");
        assert(column_sql(columns[6]) =~= "metadata TEXT NOT NULL DEFAULT '{}'"@);
    }
    assert(column_sql(columns[7]) == "created_at TEXT NOT NULL"@) by {
        reveal_strlit("created_at TEXT NOT NULL");
        reveal_strlit("created_at");
        reveal_strlit("TEXT NOT NULL");
        reveal_strlit(" ");
        assert(column_sql(columns[7]) =~= "created_at TEXT NOT NULL"@);
    }
    assert(column_sql(columns[8]) == "accessed_at TEXT NOT NULL"@) by {
        reveal_strlit("accessed_at TEXT NOT NULL");
        reveal_strlit("accessed_at");
        reveal_strlit("TEXT NOT NULL");
        reveal_strlit(" ");
        assert(column_sql(columns[8]) =~= "accessed_at TEXT NOT NULL"@);
    }
    assert(column_sql(columns[9]) == "access_count INTEGER NOT NULL DEFAULT 0"@) by {
        reveal_strlit("access_count INTEGER NOT NULL DEFAULT 0");
        reveal_strlit("access_count");
        reveal_strlit("INTEGER NOT NULL");
        reveal_strlit(" ");
        reveal_strlit(" DEFAULT ");
        reveal_strlit("0");
        assert(column_sql(columns[9]) =~= "access_count INTEGER NOT NULL DEFAULT 0"@);
    }
    assert(column_sql(columns[10]) == "deleted INTEGER NOT NULL DEFAULT 0"@) by {
        reveal_strlit("deleted INTEGER NOT NULL DEFAULT 0");
        reveal_strlit("deleted");
        reveal_strlit("INTEGER NOT NULL");
        reveal_strlit(" ");
        reveal_strlit(" DEFAULT ");
        reveal_strlit("0");
        assert(column_sql(columns[10]) =~= "deleted INTEGER NOT NULL DEFAULT 0"@);
    }
    let declared = seq![
        "id TEXT PRIMARY KEY"@,
        "agent_id TEXT NOT NULL"@,
        "content TEXT NOT NULL"@,
        "source TEXT NOT NULL"@,
        "scope TEXT NOT NULL DEFAULT 'episodic'"@,
        "confidence REAL NOT NULL DEFAULT 1.0"@,
        "metadata TEXT NOT NULL DEFAULT '{}'"@,
        "created_at TEXT NOT NULL"@,
        "accessed_at TEXT NOT NULL"@,
        "access_count INTEGER NOT NULL DEFAULT 0"@,
        "deleted INTEGER NOT NULL DEFAULT 0"@,
    ];
    assert(columns.map_values(|c: ColumnView| column_sql(c)) =~= declared);
    reveal_strlit("CREATE TABLE IF NOT EXISTS memories (");
    reveal_strlit("CREATE TABLE IF NOT EXISTS ");
    reveal_strlit("memories");
    reveal_strlit(" (");
    reveal_strlit(")");
    reveal_strlit("");
    assert("CREATE TABLE IF NOT EXISTS "@ + "memories"@ + " ("@ =~= "CREATE TABLE IF NOT EXISTS memories ("@);
    let text = joined(declared, ", "@);
    assert(step_sql(memories_table()) =~= "CREATE TABLE IF NOT EXISTS memories ("@ + text + ")"@);
}

/// The statement that creates the table `entities`.
pub proof fn entities_statement()
    ensures
        step_sql(entities_table()) == "CREATE TABLE IF NOT EXISTS entities ("@ + joined(
            seq![
                "id TEXT PRIMARY KEY"@,
                "entity_type TEXT NOT NULL"@,
                "name TEXT NOT NULL"@,
                "properties TEXT NOT NULL DEFAULT '{}'"@,
                "created_at TEXT NOT NULL"@,
                "updated_at TEXT NOT NULL"@,
            ],
            ", "@,
        ) + ")"@,
{
    let columns = entities_table()->CreateTable_columns;
    assert(column_sql(columns[0]) == "id TEXT PRIMARY KEY"@) by {
        reveal_strlit("id TEXT PRIMARY KEY");
        reveal_strlit("id");
        reveal_strlit("TEXT PRIMARY KEY");
        reveal_strlit(" ");
        assert(column_sql(columns[0]) =~= "id TEXT PRIMARY KEY"@);
    }
    assert(column_sql(columns[1]) == "entity_type TEXT NOT NULL"@) by {
        reveal_strlit("entity_type TEXT NOT NULL");
        reveal_strlit("entity_type");
        reveal_strlit("TEXT NOT NULL");
        reveal_strlit(" ");
        assert(column_sql(columns[1]) =~= "entity_type TEXT NOT NULL"@);
    }
    assert(column_sql(columns[2]) == "name TEXT NOT NULL"@) by {
        reveal_strlit("name TEXT NOT NULL");
        reveal_strlit("name");
        reveal_strlit("TEXT NOT NULL");
        reveal_strlit(" ");
        assert(column_sql(columns[2]) =~= "name TEXT NOT NULL"@);
    }
    assert(column_sql(columns[3]) == "properties TEXT NOT NULL DEFAULT '{}'"@) by {
        reveal_strlit("properties TEXT NOT NULL DEFAULT '{}'");
        reveal_strlit("properties");
        reveal_strlit("TEXT NOT NULL");
        reveal_strlit(" ");
        reveal_strlit(" DEFAULT ");
        reveal_strlit("'{}'");
        assert(column_sql(columns[3]) =~= "properties TEXT NOT NULL DEFAULT '{}'"@);
    }
    assert(column_sql(columns[4]) == "created_at TEXT NOT NULL"@) by {
        reveal_strlit("created_at TEXT NOT NULL");
        reveal_strlit("created_at");
        reveal_strlit("TEXT NOT NULL");
        reveal_strlit(" ");
        assert(column_sql(columns[4]) =~= "created_at TEXT NOT NULL"@);
    }
    assert(column_sql(columns[5]) == "updated_at TEXT NOT NULL"@) by {
        reveal_strlit("updated_at TEXT NOT NULL");
        reveal_strlit("updated_at");
        reveal_strlit("TEXT NOT NULL");
        reveal_strlit(" ");
        assert(column_sql(columns[5]) =~= "updated_at TEXT NOT NULL"@);
    }
    let declared = seq![
        "id TEXT PRIMARY KEY"@,
        "entity_type TEXT NOT NULL"@,
        "name TEXT NOT NULL"@,
        "properties TEXT NOT NULL DEFAULT '{}'"@,
        "created_at TEXT NOT NULL"@,
        "updated_at TEXT NOT NULL"@,
    ];
    assert(columns.map_values(|c: ColumnView| column_sql(c)) =~= declared);
    reveal_strlit("CREATE TABLE IF NOT EXISTS entities (");
    reveal_strlit("CREATE TABLE IF NOT EXISTS ");
    reveal_strlit("entities");
    reveal_strlit(" (");
    reveal_strlit(")");
    reveal_strlit("");
    assert("CREATE TABLE IF NOT EXISTS "@ + "entities"@ + " ("@ =~= "CREATE TABLE IF NOT EXISTS entities ("@);
    let text = joined(declared, ", "@);
    assert(step_sql(entities_table()) =~= "CREATE TABLE IF NOT EXISTS entities ("@ + text + ")"@);
}

/// The statement that creates the table `relations`.
pub proof fn relations_statement()
    ensures
        step_sql(relations_table()) == "CREATE TABLE IF NOT EXISTS relations ("@ + joined(
            seq![
                "id TEXT PRIMARY KEY"@,
                "source_entity TEXT NOT NULL"@,
                "relation_type TEXT NOT NULL"@,
                "target_entity TEXT NOT NULL"@,
                "properties TEXT NOT NULL DEFAULT '{}'"@,
                "confidence REAL NOT NULL DEFAULT 1.0"@,
                "created_at TEXT NOT NULL"@,
            ],
            ", "@,
        ) + ")"@,
{
    let columns = relations_table()->CreateTable_columns;
    assert(column_sql(columns[0]) == "id TEXT PRIMARY KEY"@) by {
        reveal_strlit("id TEXT PRIMARY KEY");
        reveal_strlit("id");
        reveal_strlit("TEXT PRIMARY KEY");
        reveal_strlit(" ");
        assert(column_sql(columns[0]) =~= "id TEXT PRIMARY KEY"@);
    }
    assert(column_sql(columns[1]) == "source_entity TEXT NOT NULL"@) by {
        reveal_strlit("source_entity TEXT NOT NULL");
        reveal_strlit("source_entity");
        reveal_strlit("TEXT NOT NULL");
        reveal_strlit(" ");
        assert(column_sql(columns[1]) =~= "source_entity TEXT NOT NULL"@);
    }
    assert(column_sql(columns[2]) == "relation_type TEXT NOT NULL"@) by {
        reveal_strlit("relation_type TEXT NOT NULL");
        reveal_strlit("relation_type");
        reveal_strlit("TEXT NOT NULL");
        reveal_strlit(" ");
        assert(column_sql(columns[2]) =~= "relation_type TEXT NOT NULL"@);
    }
    assert(column_sql(columns[3]) == "target_entity TEXT NOT NULL"@) by {
        reveal_strlit("target_entity TEXT NOT NULL");
        reveal_strlit("target_entity");
        reveal_strlit("TEXT NOT NULL");
        reveal_strlit(" ");
        assert(column_sql(columns[3]) =~= "target_entity TEXT NOT NULL"@);
    }
    assert(column_sql(columns[4]) == "properties TEXT NOT NULL DEFAULT '{}'"@) by {
        reveal_strlit("properties TEXT NOT NULL DEFAULT '{}'");
        reveal_strlit("properties");
        reveal_strlit("TEXT NOT NULL");
        reveal_strlit(" ");
        reveal_strlit(" DEFAULT ");
        reveal_strlit("'{}'");
        assert(column_sql(columns[4]) =~= "properties TEXT NOT NULL DEFAULT '{}'"@);
    }
    assert(column_sql(columns[5]) == "confidence REAL NOT NULL DEFAULT 1.0"@) by {
        reveal_strlit("confidence REAL NOT NULL DEFAULT 1.0");
        reveal_strlit("confidence");
        reveal_strlit("REAL NOT NULL");
        reveal_strlit(" ");
        reveal_strlit(" DEFAULT ");
        reveal_strlit("1.0");
        assert(column_sql(columns[5]) =~= "confidence REAL NOT NULL DEFAULT 1.0"@);
    }
    assert(column_sql(columns[6]) == "created_at TEXT NOT NULL"@) by {
        reveal_strlit("created_at TEXT NOT NULL");
        reveal_strlit("created_at");
        reveal_strlit("TEXT NOT NULL");
        reveal_strlit(" ");
        assert(column_sql(columns[6]) =~= "created_at TEXT NOT NULL"@);
    }
    let declared = seq![
        "id TEXT PRIMARY KEY"@,
        "source_entity TEXT NOT NULL"@,
        "relation_type TEXT NOT NULL"@,
        "target_entity TEXT NOT NULL"@,
        "properties TEXT NOT NULL DEFAULT '{}'"@,
        "confidence REAL NOT NULL DEFAULT 1.0"@,
        "created_at TEXT NOT NULL"@,
    ];
    assert(columns.map_values(|c: ColumnView| column_sql(c)) =~= declared);
    reveal_strlit("CREATE TABLE IF NOT EXISTS relations (");
    reveal_strlit("CREATE TABLE IF NOT EXISTS ");
    reveal_strlit("relations");
    reveal_strlit(" (");
    reveal_strlit(")");
    reveal_strlit("");
    assert("CREATE TABLE IF NOT EXISTS "@ + "relations"@ + " ("@ =~= "CREATE TABLE IF NOT EXISTS relations ("@);
    let text = joined(declared, ", "@);
    assert(step_sql(relations_table()) =~= "CREATE TABLE IF NOT EXISTS relations ("@ + text + ")"@);
}

/// The statement that creates the table `migrations`.
pub proof fn migrations_statement()
    ensures
        step_sql(migrations_table()) == "CREATE TABLE IF NOT EXISTS migrations ("@ + joined(
            seq![
                "version INTEGER PRIMARY KEY"@,
                "applied_at TEXT NOT NULL"@,
                "description TEXT"@,
            ],
            ", "@,
        ) + ")"@,
{
    let columns = migrations_table()->CreateTable_columns;
    assert(column_sql(columns[0]) == "version INTEGER PRIMARY KEY"@) by {
        reveal_strlit("version INTEGER PRIMARY KEY");
        reveal_strlit("version");
        reveal_strlit("INTEGER PRIMARY KEY");
        reveal_strlit(" ");
        assert(column_sql(columns[0]) =~= "version INTEGER PRIMARY KEY"@);
    }
    assert(column_sql(columns[1]) == "applied_at TEXT NOT NULL"@) by {
        reveal_strlit("applied_at TEXT NOT NULL");
        reveal_strlit("applied_at");
        reveal_strlit("TEXT NOT NULL");
        reveal_strlit(" ");
        assert(column_sql(columns[1]) =~= "applied_at TEXT NOT NULL"@);
    }
    assert(column_sql(columns[2]) == "description TEXT"@) by {
        reveal_strlit("description TEXT");
        reveal_strlit("description");
        reveal_strlit("TEXT");
        reveal_strlit(" ");
        assert(column_sql(columns[2]) =~= "description TEXT"@);
    }
    let declared = seq![
        "version INTEGER PRIMARY KEY"@,
        "applied_at TEXT NOT NULL"@,
        "description TEXT"@,
    ];
    assert(columns.map_values(|c: ColumnView| column_sql(c)) =~= declared);
    reveal_strlit("CREATE TABLE IF NOT EXISTS migrations (");
    reveal_strlit("CREATE TABLE IF NOT EXISTS ");
    reveal_strlit("migrations");
    reveal_strlit(" (");
    reveal_strlit(")");
    reveal_strlit("");
    assert("CREATE TABLE IF NOT EXISTS "@ + "migrations"@ + " ("@ =~= "CREATE TABLE IF NOT EXISTS migrations ("@);
    let text = joined(declared, ", "@);
    assert(step_sql(migrations_table()) =~= "CREATE TABLE IF NOT EXISTS migrations ("@ + text + ")"@);
}

/// The statement that creates the table `usage_events`.
pub proof fn usage_events_statement()
    ensures
        step_sql(usage_events_table()) == "CREATE TABLE IF NOT EXISTS usage_events ("@ + joined(
            seq![
                "id TEXT PRIMARY KEY"@,
                "agent_id TEXT NOT NULL"@,
                "timestamp TEXT NOT NULL"@,
                "model TEXT NOT NULL"@,
                "input_tokens INTEGER NOT NULL DEFAULT 0"@,
                "output_tokens INTEGER NOT NULL DEFAULT 0"@,
                "cost_usd REAL NOT NULL DEFAULT 0.0"@,
                "tool_calls INTEGER NOT NULL DEFAULT 0"@,
            ],
            ", "@,
        ) + ")"@,
{
    let columns = usage_events_table()->CreateTable_columns;
    assert(column_sql(columns[0]) == "id TEXT PRIMARY KEY"@) by {
        reveal_strlit("id TEXT PRIMARY KEY");
        reveal_strlit("id");
        reveal_strlit("TEXT PRIMARY KEY");
        reveal_strlit(" ");
        assert(column_sql(columns[0]) =~= "id TEXT PRIMARY KEY"@);
    }
    assert(column_sql(columns[1]) == "agent_id TEXT NOT NULL"@) by {
        reveal_strlit("agent_id TEXT NOT NULL");
        reveal_strlit("agent_id");
        reveal_strlit("TEXT NOT NULL");
        reveal_strlit(" ");
        assert(column_sql(columns[1]) =~= "agent_id TEXT NOT NULL"@);
    }
    assert(column_sql(columns[2]) == "timestamp TEXT NOT NULL"@) by {
        reveal_strlit("timestamp TEXT NOT NULL");
        reveal_strlit("timestamp");
        reveal_strlit("TEXT NOT NULL");
        reveal_strlit(" ");
        assert(column_sql(columns[2]) =~= "timestamp TEXT NOT NULL"@);
    }
    assert(column_sql(columns[3]) == "model TEXT NOT NULL"@) by {
        reveal_strlit("model TEXT NOT NULL");
        reveal_strlit("model");
        reveal_strlit("TEXT NOT NULL");
        reveal_strlit(" ");
        assert(column_sql(columns[3]) =~= "model TEXT NOT NULL"@);
    }
    assert(column_sql(columns[4]) == "input_tokens INTEGER NOT NULL DEFAULT 0"@) by {
        reveal_strlit("input_tokens INTEGER NOT NULL DEFAULT 0");
        reveal_strlit("input_tokens");
        reveal_strlit("INTEGER NOT NULL");
        reveal_strlit(" ");
        reveal_strlit(" DEFAULT ");
        reveal_strlit("0");
        assert(column_sql(columns[4]) =~= "input_tokens INTEGER NOT NULL DEFAULT 0"@);
    }
    assert(column_sql(columns[5]) == "output_tokens INTEGER NOT NULL DEFAULT 0"@) by {
        reveal_strlit("output_tokens INTEGER NOT NULL DEFAULT 0");
        reveal_strlit("output_tokens");
        reveal_strlit("INTEGER NOT NULL");
        reveal_strlit(" ");
        reveal_strlit(" DEFAULT ");
        reveal_strlit("0");
        assert(column_sql(columns[5]) =~= "output_tokens INTEGER NOT NULL DEFAULT 0"@);
    }
    assert(column_sql(columns[6]) == "cost_usd REAL NOT NULL DEFAULT 0.0"@) by {
        reveal_strlit("cost_usd REAL NOT NULL DEFAULT 0.0");
        reveal_strlit("cost_usd");
        reveal_strlit("REAL NOT NULL");
        reveal_strlit(" ");
        reveal_strlit(" DEFAULT ");
        reveal_strlit("0.0");
        assert(column_sql(columns[6]) =~= "cost_usd REAL NOT NULL DEFAULT 0.0"@);
    }
    assert(column_sql(columns[7]) == "tool_calls INTEGER NOT NULL DEFAULT 0"@) by {
        reveal_strlit("tool_calls INTEGER NOT NULL DEFAULT 0");
        reveal_strlit("tool_calls");
        reveal_strlit("INTEGER NOT NULL");
        reveal_strlit(" ");
        reveal_strlit(" DEFAULT ");
        reveal_strlit("0");
        assert(column_sql(columns[7]) =~= "tool_calls INTEGER NOT NULL DEFAULT 0"@);
    }
    let declared = seq![
        "id TEXT PRIMARY KEY"@,
        "agent_id TEXT NOT NULL"@,
        "timestamp TEXT NOT NULL"@,
        "model TEXT NOT NULL"@,
        "input_tokens INTEGER NOT NULL DEFAULT 0"@,
        "output_tokens INTEGER NOT NULL DEFAULT 0"@,
        "cost_usd REAL NOT NULL DEFAULT 0.0"@,
        "tool_calls INTEGER NOT NULL DEFAULT 0"@,
    ];
    assert(columns.map_values(|c: ColumnView| column_sql(c)) =~= declared);
    reveal_strlit("CREATE TABLE IF NOT EXISTS usage_events (");
    reveal_strlit("CREATE TABLE IF NOT EXISTS ");
    reveal_strlit("usage_events");
    reveal_strlit(" (");
    reveal_strlit(")");
    reveal_strlit("");
    assert("CREATE TABLE IF NOT EXISTS "@ + "usage_events"@ + " ("@ =~= "CREATE TABLE IF NOT EXISTS usage_events ("@);
    let text = joined(declared, ", "@);
    assert(step_sql(usage_events_table()) =~= "CREATE TABLE IF NOT EXISTS usage_events ("@ + text + ")"@);
}

/// The statement that creates the table `canonical_sessions`.
pub proof fn canonical_sessions_statement()
    ensures
        step_sql(canonical_sessions_table()) == "CREATE TABLE IF NOT EXISTS canonical_sessions ("@ + joined(
            seq![
                "agent_id TEXT PRIMARY KEY"@,
                "messages BLOB NOT NULL"@,
                "compaction_cursor INTEGER NOT NULL DEFAULT 0"@,
                "compacted_summary TEXT"@,
                "updated_at TEXT NOT NULL"@,
            ],
            ", "@,
        ) + ")"@,
{
    let columns = canonical_sessions_table()->CreateTable_columns;
    assert(column_sql(columns[0]) == "agent_id TEXT PRIMARY KEY"@) by {
        reveal_strlit("agent_id TEXT PRIMARY KEY");
        reveal_strlit("agent_id");
        reveal_strlit("TEXT PRIMARY KEY");
        reveal_strlit(" ");
        assert(column_sql(columns[0]) =~= "agent_id TEXT PRIMARY KEY"@);
    }
    assert(column_sql(columns[1]) == "messages BLOB NOT NULL"@) by {
        reveal_strlit("messages BLOB NOT NULL");
        reveal_strlit("messages");
        reveal_strlit("BLOB NOT NULL");
        reveal_strlit(" ");
        assert(column_sql(columns[1]) =~= "messages BLOB NOT NULL"@);
    }
    assert(column_sql(columns[2]) == "compaction_cursor INTEGER NOT NULL DEFAULT 0"@) by {
        reveal_strlit("compaction_cursor INTEGER NOT NULL DEFAULT 0");
        reveal_strlit("compaction_cursor");
        reveal_strlit("INTEGER NOT NULL");
        reveal_strlit(" ");
        reveal_strlit(" DEFAULT ");
        reveal_strlit("0");
        assert(column_sql(columns[2]) =~= "compaction_cursor INTEGER NOT NULL DEFAULT 0"@);
    }
    assert(column_sql(columns[3]) == "compacted_summary TEXT"@) by {
        reveal_strlit("compacted_summary TEXT");
        reveal_strlit("compacted_summary");
        reveal_strlit("TEXT");
        reveal_strlit(" ");
        assert(column_sql(columns[3]) =~= "compacted_summary TEXT"@);
    }
    assert(column_sql(columns[4]) == "updated_at TEXT NOT NULL"@) by {
        reveal_strlit("updated_at TEXT NOT NULL");
        reveal_strlit("updated_at");
        reveal_strlit("TEXT NOT NULL");
        reveal_strlit(" ");
        assert(column_sql(columns[4]) =~= "updated_at TEXT NOT NULL"@);
    }
    let declared = seq![
        "agent_id TEXT PRIMARY KEY"@,
        "messages BLOB NOT NULL"@,
        "compaction_cursor INTEGER NOT NULL DEFAULT 0"@,
        "compacted_summary TEXT"@,
        "updated_at TEXT NOT NULL"@,
    ];
    assert(columns.map_values(|c: ColumnView| column_sql(c)) =~= declared);
    reveal_strlit("CREATE TABLE IF NOT EXISTS canonical_sessions (");
    reveal_strlit("CREATE TABLE IF NOT EXISTS ");
    reveal_strlit("canonical_sessions");
    reveal_strlit(" (");
    reveal_strlit(")");
    reveal_strlit("");
    assert("CREATE TABLE IF NOT EXISTS "@ + "canonical_sessions"@ + " ("@ =~= "CREATE TABLE IF NOT EXISTS canonical_sessions ("@);
    let text = joined(declared, ", "@);
    assert(step_sql(canonical_sessions_table()) =~= "CREATE TABLE IF NOT EXISTS canonical_sessions ("@ + text + ")"@);
}

/// The statement that creates the table `paired_devices`.
pub proof fn paired_devices_statement()
    ensures
        step_sql(paired_devices_table()) == "CREATE TABLE IF NOT EXISTS paired_devices ("@ + joined(
            seq![
                "device_id TEXT PRIMARY KEY"@,
                "display_name TEXT NOT NULL"@,
                "platform TEXT NOT NULL"@,
                "paired_at TEXT NOT NULL"@,
                "last_seen TEXT NOT NULL"@,
                "push_token TEXT"@,
            ],
            ", "@,
        ) + ")"@,
{
    let columns = paired_devices_table()->CreateTable_columns;
    assert(column_sql(columns[0]) == "device_id TEXT PRIMARY KEY"@) by {
        reveal_strlit("device_id TEXT PRIMARY KEY");
        reveal_strlit("device_id");
        reveal_strlit("TEXT PRIMARY KEY");
        reveal_strlit(" ");
        assert(column_sql(columns[0]) =~= "device_id TEXT PRIMARY KEY"@);
    }
    assert(column_sql(columns[1]) == "display_name TEXT NOT NULL"@) by {
        reveal_strlit("display_name TEXT NOT NULL");
        reveal_strlit("display_name");
        reveal_strlit("TEXT NOT NULL");
        reveal_strlit(" ");
        assert(column_sql(columns[1]) =~= "display_name TEXT NOT NULL"@);
    }
    assert(column_sql(columns[2]) == "platform TEXT NOT NULL"@) by {
        reveal_strlit("platform TEXT NOT NULL");
        reveal_strlit("platform");
        reveal_strlit("TEXT NOT NULL");
        reveal_strlit(" ");
        assert(column_sql(columns[2]) =~= "platform TEXT NOT NULL"@);
    }
    assert(column_sql(columns[3]) == "paired_at TEXT NOT NULL"@) by {
        reveal_strlit("paired_at TEXT NOT NULL");
        reveal_strlit("paired_at");
        reveal_strlit("TEXT NOT NULL");
        reveal_strlit(" ");
        assert(column_sql(columns[3]) =~= "paired_at TEXT NOT NULL"@);
    }
    assert(column_sql(columns[4]) == "last_seen TEXT NOT NULL"@) by {
        reveal_strlit("last_seen TEXT NOT NULL");
        reveal_strlit("last_seen");
        reveal_strlit("TEXT NOT NULL");
        reveal_strlit(" ");
        assert(column_sql(columns[4]) =~= "last_seen TEXT NOT NULL"@);
    }
    assert(column_sql(columns[5]) == "push_token TEXT"@) by {
        reveal_strlit("push_token TEXT");
        reveal_strlit("push_token");
        reveal_strlit("TEXT");
        reveal_strlit(" ");
        assert(column_sql(columns[5]) =~= "push_token TEXT"@);
    }
    let declared = seq![
        "device_id TEXT PRIMARY KEY"@,
        "display_name TEXT NOT NULL"@,
        "platform TEXT NOT NULL"@,
        "paired_at TEXT NOT NULL"@,
        "last_seen TEXT NOT NULL"@,
        "push_token TEXT"@,
    ];
    assert(columns.map_values(|c: ColumnView| column_sql(c)) =~= declared);
    reveal_strlit("CREATE TABLE IF NOT EXISTS paired_devices (");
    reveal_strlit("CREATE TABLE IF NOT EXISTS ");
    reveal_strlit("paired_devices");
    reveal_strlit(" (");
    reveal_strlit(")");
    reveal_strlit("");
    assert("CREATE TABLE IF NOT EXISTS "@ + "paired_devices"@ + " ("@ =~= "CREATE TABLE IF NOT EXISTS paired_devices ("@);
    let text = joined(declared, ", "@);
    assert(step_sql(paired_devices_table()) =~= "CREATE TABLE IF NOT EXISTS paired_devices ("@ + text + ")"@);
}

/// The statement that creates the table `audit_entries`.
pub proof fn audit_entries_statement()
    ensures
        step_sql(audit_entries_table()) == "CREATE TABLE IF NOT EXISTS audit_entries ("@ + joined(
            seq![
                "seq INTEGER PRIMARY KEY"@,
                "timestamp TEXT NOT NULL"@,
                "agent_id TEXT NOT NULL"@,
                "action TEXT NOT NULL"@,
                "detail TEXT NOT NULL"@,
                "outcome TEXT NOT NULL"@,
                "prev_hash TEXT NOT NULL"@,
                "hash TEXT NOT NULL"@,
            ],
            ", "@,
        ) + ")"@,
{
    let columns = audit_entries_table()->CreateTable_columns;
    assert(column_sql(columns[0]) == "seq INTEGER PRIMARY KEY"@) by {
        reveal_strlit("seq INTEGER PRIMARY KEY");
        reveal_strlit("seq");
        reveal_strlit("INTEGER PRIMARY KEY");
        reveal_strlit(" ");
        assert(column_sql(columns[0]) =~= "seq INTEGER PRIMARY KEY"@);
    }
    assert(column_sql(columns[1]) == "timestamp TEXT NOT NULL"@) by {
        reveal_strlit("timestamp TEXT NOT NULL");
        reveal_strlit("timestamp");
        reveal_strlit("TEXT NOT NULL");
        reveal_strlit(" ");
        assert(column_sql(columns[1]) =~= "timestamp TEXT NOT NULL"@);
    }
    assert(column_sql(columns[2]) == "agent_id TEXT NOT NULL"@) by {
        reveal_strlit("agent_id TEXT NOT NULL");
        reveal_strlit("agent_id");
        reveal_strlit("TEXT NOT NULL");
        reveal_strlit(" ");
        assert(column_sql(columns[2]) =~= "agent_id TEXT NOT NULL"@);
    }
    assert(column_sql(columns[3]) == "action TEXT NOT NULL"@) by {
        reveal_strlit("action TEXT NOT NULL");
        reveal_strlit("action");
        reveal_strlit("TEXT NOT NULL");
        reveal_strlit(" ");
        assert(column_sql(columns[3]) =~= "action TEXT NOT NULL"@);
    }
    assert(column_sql(columns[4]) == "detail TEXT NOT NULL"@) by {
        reveal_strlit("detail TEXT NOT NULL");
        reveal_strlit("detail");
        reveal_strlit("TEXT NOT NULL");
        reveal_strlit(" ");
        assert(column_sql(columns[4]) =~= "detail TEXT NOT NULL"@);
    }
    assert(column_sql(columns[5]) == "outcome TEXT NOT NULL"@) by {
        reveal_strlit("outcome TEXT NOT NULL");
        reveal_strlit("outcome");
        reveal_strlit("TEXT NOT NULL");
        reveal_strlit(" ");
        assert(column_sql(columns[5]) =~= "outcome TEXT NOT NULL"@);
    }
    assert(column_sql(columns[6]) == "prev_hash TEXT NOT NULL"@) by {
        reveal_strlit("prev_hash TEXT NOT NULL");
        reveal_strlit("prev_hash");
        reveal_strlit("TEXT NOT NULL");
        reveal_strlit(" ");
        assert(column_sql(columns[6]) =~= "prev_hash TEXT NOT NULL"@);
    }
    assert(column_sql(columns[7]) == "hash TEXT NOT NULL"@) by {
        reveal_strlit("hash TEXT NOT NULL");
        reveal_strlit("hash");
        reveal_strlit("TEXT NOT NULL");
        reveal_strlit(" ");
        assert(column_sql(columns[7]) =~= "hash TEXT NOT NULL"@);
    }
    let declared = seq![
        "seq INTEGER PRIMARY KEY"@,
        "timestamp TEXT NOT NULL"@,
        "agent_id TEXT NOT NULL"@,
        "action TEXT NOT NULL"@,
        "detail TEXT NOT NULL"@,
        "outcome TEXT NOT NULL"@,
        "prev_hash TEXT NOT NULL"@,
        "hash TEXT NOT NULL"@,
    ];
    assert(columns.map_values(|c: ColumnView| column_sql(c)) =~= declared);
    reveal_strlit("CREATE TABLE IF NOT EXISTS audit_entries (");
    reveal_strlit("CREATE TABLE IF NOT EXISTS ");
    reveal_strlit("audit_entries");
    reveal_strlit(" (");
    reveal_strlit(")");
    reveal_strlit("");
    assert("CREATE TABLE IF NOT EXISTS "@ + "audit_entries"@ + " ("@ =~= "CREATE TABLE IF NOT EXISTS audit_entries ("@);
    let text = joined(declared, ", "@);
    assert(step_sql(audit_entries_table()) =~= "CREATE TABLE IF NOT EXISTS audit_entries ("@ + text + ")"@);
}

/// The statement that creates the table `session_extractions`.
pub proof fn session_extractions_statement()
    ensures
        step_sql(session_extractions_table()) == "CREATE TABLE IF NOT EXISTS session_extractions ("@ + joined(
            seq![
                "id TEXT PRIMARY KEY"@,
                "session_id TEXT NOT NULL"@,
                "user_id TEXT NOT NULL DEFAULT '00000000-0000-0000-0000-000000000000'"@,
                "agent_id TEXT NOT NULL DEFAULT '00000000-0000-0000-0000-000000000000'"@,
                "facts TEXT NOT NULL DEFAULT '[]'"@,
                "preferences TEXT NOT NULL DEFAULT '[]'"@,
                "decisions TEXT NOT NULL DEFAULT '[]'"@,
                "tasks TEXT NOT NULL DEFAULT '[]'"@,
                "open_items TEXT NOT NULL DEFAULT '[]'"@,
                "created_at TEXT NOT NULL"@,
            ],
            ", "@,
        ) + ")"@,
{
    let columns = session_extractions_table()->CreateTable_columns;
    assert(column_sql(columns[0]) == "id TEXT PRIMARY KEY"@) by {
        reveal_strlit("id TEXT PRIMARY KEY");
        reveal_strlit("id");
        reveal_strlit("TEXT PRIMARY KEY");
        reveal_strlit(" ");
        assert(column_sql(columns[0]) =~= "id TEXT PRIMARY KEY"@);
    }
    assert(column_sql(columns[1]) == "session_id TEXT NOT NULL"@) by {
        reveal_strlit("session_id TEXT NOT NULL");
        reveal_strlit("session_id");
        reveal_strlit("TEXT NOT NULL");
        reveal_strlit(" ");
        assert(column_sql(columns[1]) =~= "session_id TEXT NOT NULL"@);
    }
    assert(column_sql(columns[2]) == "user_id TEXT NOT NULL DEFAULT '00000000-0000-0000-0000-000000000000'"@) by {
        reveal_strlit("user_id TEXT NOT NULL DEFAULT '00000000-0000-0000-0000-000000000000'");
        reveal_strlit("user_id");
        reveal_strlit("TEXT NOT NULL");
        reveal_strlit(" ");
        reveal_strlit(" DEFAULT ");
        reveal_strlit("'00000000-0000-0000-0000-000000000000'");
        assert(column_sql(columns[2]) =~= "user_id TEXT NOT NULL DEFAULT '00000000-0000-0000-0000-000000000000'"@);
    }
    assert(column_sql(columns[3]) == "agent_id TEXT NOT NULL DEFAULT '00000000-0000-0000-0000-000000000000'"@) by {
        reveal_strlit("agent_id TEXT NOT NULL DEFAULT '00000000-0000-0000-0000-000000000000'");
        reveal_strlit("agent_id");
        reveal_strlit("TEXT NOT NULL");
        reveal_strlit(" ");
        reveal_strlit(" DEFAULT ");
        reveal_strlit("'00000000-0000-0000-0000-000000000000'");
        assert(column_sql(columns[3]) =~= "agent_id TEXT NOT NULL DEFAULT '00000000-0000-0000-0000-000000000000'"@);
    }
    assert(column_sql(columns[4]) == "facts TEXT NOT NULL DEFAULT '[]'"@) by {
        reveal_strlit("facts TEXT NOT NULL DEFAULT '[]'");
        reveal_strlit("facts");
        reveal_strlit("TEXT NOT NULL");
        reveal_strlit(" ");
        reveal_strlit(" DEFAULT ");
        reveal_strlit("'[]'");
        assert(column_sql(columns[4]) =~= "facts TEXT NOT NULL DEFAULT '[]'"@);
    }
    assert(column_sql(columns[5]) == "preferences TEXT NOT NULL DEFAULT '[]'"@) by {
        reveal_strlit("preferences TEXT NOT NULL DEFAULT '[]'");
        reveal_strlit("preferences");
        reveal_strlit("TEXT NOT NULL");
        reveal_strlit(" ");
        reveal_strlit(" DEFAULT ");
        reveal_strlit("'[]'");
        assert(column_sql(columns[5]) =~= "preferences TEXT NOT NULL DEFAULT '[]'"@);
    }
    assert(column_sql(columns[6]) == "decisions TEXT NOT NULL DEFAULT '[]'"@) by {
        reveal_strlit("decisions TEXT NOT NULL DEFAULT '[]'");
        reveal_strlit("decisions");
        reveal_strlit("TEXT NOT NULL");
        reveal_strlit(" ");
        reveal_strlit(" DEFAULT ");
        reveal_strlit("'[]'");
        assert(column_sql(columns[6]) =~= "decisions TEXT NOT NULL DEFAULT '[]'"@);
    }
    assert(column_sql(columns[7]) == "tasks TEXT NOT NULL DEFAULT '[]'"@) by {
        reveal_strlit("tasks TEXT NOT NULL DEFAULT '[]'");
        reveal_strlit("tasks");
        reveal_strlit("TEXT NOT NULL");
        reveal_strlit(" ");
        reveal_strlit(" DEFAULT ");
        reveal_strlit("'[]'");
        assert(column_sql(columns[7]) =~= "tasks TEXT NOT NULL DEFAULT '[]'"@);
    }
    assert(column_sql(columns[8]) == "open_items TEXT NOT NULL DEFAULT '[]'"@) by {
        reveal_strlit("open_items TEXT NOT NULL DEFAULT '[]'");
        reveal_strlit("open_items");
        reveal_strlit("TEXT NOT NULL");
        reveal_strlit(" ");
        reveal_strlit(" DEFAULT ");
        reveal_strlit("'[]'");
        assert(column_sql(columns[8]) =~= "open_items TEXT NOT NULL DEFAULT '[]'"@);
    }
    assert(column_sql(columns[9]) == "created_at TEXT NOT NULL"@) by {
        reveal_strlit("created_at TEXT NOT NULL");
        reveal_strlit("created_at");
        reveal_strlit("TEXT NOT NULL");
        reveal_strlit(" ");
        assert(column_sql(columns[9]) =~= "created_at TEXT NOT NULL"@);
    }
    let declared = seq![
        "id TEXT PRIMARY KEY"@,
        "session_id TEXT NOT NULL"@,
        "user_id TEXT NOT NULL DEFAULT '00000000-0000-0000-0000-000000000000'"@,
        "agent_id TEXT NOT NULL DEFAULT '00000000-0000-0000-0000-000000000000'"@,
        "facts TEXT NOT NULL DEFAULT '[]'"@,
        "preferences TEXT NOT NULL DEFAULT '[]'"@,
        "decisions TEXT NOT NULL DEFAULT '[]'"@,
        "tasks TEXT NOT NULL DEFAULT '[]'"@,
        "open_items TEXT NOT NULL DEFAULT '[]'"@,
        "created_at TEXT NOT NULL"@,
    ];
    assert(columns.map_values(|c: ColumnView| column_sql(c)) =~= declared);
    reveal_strlit("CREATE TABLE IF NOT EXISTS session_extractions (");
    reveal_strlit("CREATE TABLE IF NOT EXISTS ");
    reveal_strlit("session_extractions");
    reveal_strlit(" (");
    reveal_strlit(")");
    reveal_strlit("");
    assert("CREATE TABLE IF NOT EXISTS "@ + "session_extractions"@ + " ("@ =~= "CREATE TABLE IF NOT EXISTS session_extractions ("@);
    let text = joined(declared, ", "@);
    assert(step_sql(session_extractions_table()) =~= "CREATE TABLE IF NOT EXISTS session_extractions ("@ + text + ")"@);
}

/// The statement that creates the table `user_memory_topics`.
pub proof fn user_memory_topics_statement()
    ensures
        step_sql(user_memory_topics_table()) == "CREATE TABLE IF NOT EXISTS user_memory_topics ("@ + joined(
            seq![
                "user_id TEXT NOT NULL"@,
                "topic TEXT NOT NULL"@,
                "summary TEXT NOT NULL DEFAULT ''"@,
                "content TEXT NOT NULL DEFAULT ''"@,
                "updated_at TEXT NOT NULL"@,
                "expires_at TEXT DEFAULT NULL"@,
                "embedding BLOB DEFAULT NULL"@,
            ],
            ", "@,
        ) + ", PRIMARY KEY (user_id, topic))"@,
{
    let columns = user_memory_topics_table()->CreateTable_columns;
    assert(column_sql(columns[0]) == "user_id TEXT NOT NULL"@) by {
        reveal_strlit("user_id TEXT NOT NULL");
        reveal_strlit("user_id");
        reveal_strlit("TEXT NOT NULL");
        reveal_strlit(" ");
        assert(column_sql(columns[0]) =~= "user_id TEXT NOT NULL"@);
    }
    assert(column_sql(columns[1]) == "topic TEXT NOT NULL"@) by {
        reveal_strlit("topic TEXT NOT NULL");
        reveal_strlit("topic");
        reveal_strlit("TEXT NOT NULL");
        reveal_strlit(" ");
        assert(column_sql(columns[1]) =~= "topic TEXT NOT NULL"@);
    }
    assert(column_sql(columns[2]) == "summary TEXT NOT NULL DEFAULT ''"@) by {
        reveal_strlit("summary TEXT NOT NULL DEFAULT ''");
        reveal_strlit("summary");
        reveal_strlit("TEXT NOT NULL");
        reveal_strlit(" ");
        reveal_strlit(" DEFAULT ");
        reveal_strlit("''");
        assert(column_sql(columns[2]) =~= "summary TEXT NOT NULL DEFAULT ''"@);
    }
    assert(column_sql(columns[3]) == "content TEXT NOT NULL DEFAULT ''"@) by {
        reveal_strlit("content TEXT NOT NULL DEFAULT ''");
        reveal_strlit("content");
        reveal_strlit("TEXT NOT NULL");
        reveal_strlit(" ");
        reveal_strlit(" DEFAULT ");
        reveal_strlit("''");
        assert(column_sql(columns[3]) =~= "content TEXT NOT NULL DEFAULT ''"@);
    }
    assert(column_sql(columns[4]) == "updated_at TEXT NOT NULL"@) by {
        reveal_strlit("updated_at TEXT NOT NULL");
        reveal_strlit("updated_at");
        reveal_strlit("TEXT NOT NULL");
        reveal_strlit(" ");
        assert(column_sql(columns[4]) =~= "updated_at TEXT NOT NULL"@);
    }
    assert(column_sql(columns[5]) == "expires_at TEXT DEFAULT NULL"@) by {
        reveal_strlit("expires_at TEXT DEFAULT NULL");
        reveal_strlit("expires_at");
        reveal_strlit("TEXT");
        reveal_strlit(" ");
        reveal_strlit(" DEFAULT ");
        reveal_strlit("NULL");
        assert(column_sql(columns[5]) =~= "expires_at TEXT DEFAULT NULL"@);
    }
    assert(column_sql(columns[6]) == "embedding BLOB DEFAULT NULL"@) by {
        reveal_strlit("embedding BLOB DEFAULT NULL");
        reveal_strlit("embedding");
        reveal_strlit("BLOB");
        reveal_strlit(" ");
        reveal_strlit(" DEFAULT ");
        reveal_strlit("NULL");
        assert(column_sql(columns[6]) =~= "embedding BLOB DEFAULT NULL"@);
    }
    let declared = seq![
        "user_id TEXT NOT NULL"@,
        "topic TEXT NOT NULL"@,
        "summary TEXT NOT NULL DEFAULT ''"@,
        "content TEXT NOT NULL DEFAULT ''"@,
        "updated_at TEXT NOT NULL"@,
        "expires_at TEXT DEFAULT NULL"@,
        "embedding BLOB DEFAULT NULL"@,
    ];
    assert(columns.map_values(|c: ColumnView| column_sql(c)) =~= declared);
    reveal_strlit("CREATE TABLE IF NOT EXISTS user_memory_topics (");
    reveal_strlit("CREATE TABLE IF NOT EXISTS ");
    reveal_strlit("user_memory_topics");
    reveal_strlit(" (");
    reveal_strlit(", PRIMARY KEY (user_id, topic))");
    reveal_strlit(")");
    reveal_strlit(", PRIMARY KEY (");
    reveal_strlit("user_id, topic");
    assert("CREATE TABLE IF NOT EXISTS "@ + "user_memory_topics"@ + " ("@ =~= "CREATE TABLE IF NOT EXISTS user_memory_topics ("@);
    assert(", PRIMARY KEY ("@ + "user_id, topic"@ + ")"@ + ")"@ =~= ", PRIMARY KEY (user_id, topic))"@);
    let text = joined(declared, ", "@);
    assert(step_sql(user_memory_topics_table()) =~= "CREATE TABLE IF NOT EXISTS user_memory_topics ("@ + text + ", PRIMARY KEY (user_id, topic))"@);
}

/// The statement that creates the table `user_agent_memory_topics`.
pub proof fn user_agent_memory_topics_statement()
    ensures
        step_sql(user_agent_memory_topics_table()) == "CREATE TABLE IF NOT EXISTS user_agent_memory_topics ("@ + joined(
            seq![
                "user_id TEXT NOT NULL"@,
                "agent_id TEXT NOT NULL"@,
                "topic TEXT NOT NULL"@,
                "summary TEXT NOT NULL DEFAULT ''"@,
                "content TEXT NOT NULL DEFAULT ''"@,
                "updated_at TEXT NOT NULL"@,
            ],
            ", "@,
        ) + ", PRIMARY KEY (user_id, agent_id, topic))"@,
{
    let columns = user_agent_memory_topics_table()->CreateTable_columns;
    assert(column_sql(columns[0]) == "user_id TEXT NOT NULL"@) by {
        reveal_strlit("user_id TEXT NOT NULL");
        reveal_strlit("user_id");
        reveal_strlit("TEXT NOT NULL");
        reveal_strlit(" ");
        assert(column_sql(columns[0]) =~= "user_id TEXT NOT NULL"@);
    }
    assert(column_sql(columns[1]) == "agent_id TEXT NOT NULL"@) by {
        reveal_strlit("agent_id TEXT NOT NULL");
        reveal_strlit("agent_id");
        reveal_strlit("TEXT NOT NULL");
        reveal_strlit(" ");
        assert(column_sql(columns[1]) =~= "agent_id TEXT NOT NULL"@);
    }
    assert(column_sql(columns[2]) == "topic TEXT NOT NULL"@) by {
        reveal_strlit("topic TEXT NOT NULL");
        reveal_strlit("topic");
        reveal_strlit("TEXT NOT NULL");
        reveal_strlit(" ");
        assert(column_sql(columns[2]) =~= "topic TEXT NOT NULL"@);
    }
    assert(column_sql(columns[3]) == "summary TEXT NOT NULL DEFAULT ''"@) by {
        reveal_strlit("summary TEXT NOT NULL DEFAULT ''");
        reveal_strlit("summary");
        reveal_strlit("TEXT NOT NULL");
        reveal_strlit(" ");
        reveal_strlit(" DEFAULT ");
        reveal_strlit("''");
        assert(column_sql(columns[3]) =~= "summary TEXT NOT NULL DEFAULT ''"@);
    }
    assert(column_sql(columns[4]) == "content TEXT NOT NULL DEFAULT ''"@) by {
        reveal_strlit("content TEXT NOT NULL DEFAULT ''");
        reveal_strlit("content");
        reveal_strlit("TEXT NOT NULL");
        reveal_strlit(" ");
        reveal_strlit(" DEFAULT ");
        reveal_strlit("''");
        assert(column_sql(columns[4]) =~= "content TEXT NOT NULL DEFAULT ''"@);
    }
    assert(column_sql(columns[5]) == "updated_at TEXT NOT NULL"@) by {
        reveal_strlit("updated_at TEXT NOT NULL");
        reveal_strlit("updated_at");
        reveal_strlit("TEXT NOT NULL");
        reveal_strlit(" ");
        assert(column_sql(columns[5]) =~= "updated_at TEXT NOT NULL"@);
    }
    let declared = seq![
        "user_id TEXT NOT NULL"@,
        "agent_id TEXT NOT NULL"@,
        "topic TEXT NOT NULL"@,
        "summary TEXT NOT NULL DEFAULT ''"@,
        "content TEXT NOT NULL DEFAULT ''"@,
        "updated_at TEXT NOT NULL"@,
    ];
    assert(columns.map_values(|c: ColumnView| column_sql(c)) =~= declared);
    reveal_strlit("CREATE TABLE IF NOT EXISTS user_agent_memory_topics (");
    reveal_strlit("CREATE TABLE IF NOT EXISTS ");
    reveal_strlit("user_agent_memory_topics");
    reveal_strlit(" (");
    reveal_strlit(", PRIMARY KEY (user_id, agent_id, topic))");
    reveal_strlit(")");
    reveal_strlit(", PRIMARY KEY (");
    reveal_strlit("user_id, agent_id, topic");
    assert("CREATE TABLE IF NOT EXISTS "@ + "user_agent_memory_topics"@ + " ("@ =~= "CREATE TABLE IF NOT EXISTS user_agent_memory_topics ("@);
    assert(", PRIMARY KEY ("@ + "user_id, agent_id, topic"@ + ")"@ + ")"@ =~= ", PRIMARY KEY (user_id, agent_id, topic))"@);
    let text = joined(declared, ", "@);
    assert(step_sql(user_agent_memory_topics_table()) =~= "CREATE TABLE IF NOT EXISTS user_agent_memory_topics ("@ + text + ", PRIMARY KEY (user_id, agent_id, topic))"@);
}

/// Version 1: the tables that it creates, the columns that it adds and the indexes that it
/// creates, in their order; then it is recorded.
pub proof fn version_1_statements()
    ensures
        version_1().len() == 18,
        version_1()[0] == agents_table(),
        version_1()[1] == sessions_table(),
        version_1()[2] == events_table(),
        step_sql(version_1()[3])
            == "CREATE INDEX IF NOT EXISTS idx_events_timestamp ON events(timestamp)"@,
        step_sql(version_1()[4])
            == "CREATE INDEX IF NOT EXISTS idx_events_source ON events(source_agent)"@,
        version_1()[5] == kv_store_table(),
        version_1()[6] == task_queue_table(),
        step_sql(version_1()[7])
            == "CREATE INDEX IF NOT EXISTS idx_task_status_priority ON task_queue(status, priority DESC)"@,
        version_1()[8] == memories_table(),
        step_sql(version_1()[9])
            == "CREATE INDEX IF NOT EXISTS idx_memories_agent ON memories(agent_id)"@,
        step_sql(version_1()[10])
            == "CREATE INDEX IF NOT EXISTS idx_memories_scope ON memories(scope)"@,
        version_1()[11] == entities_table(),
        version_1()[12] == relations_table(),
        step_sql(version_1()[13])
            == "CREATE INDEX IF NOT EXISTS idx_relations_source ON relations(source_entity)"@,
        step_sql(version_1()[14])
            == "CREATE INDEX IF NOT EXISTS idx_relations_target ON relations(target_entity)"@,
        step_sql(version_1()[15])
            == "CREATE INDEX IF NOT EXISTS idx_relations_type ON relations(relation_type)"@,
        version_1()[16] == migrations_table(),
        version_1()[17] matches StepView::Record { version, description } && version == 1
            && description == "Initial schema"@,
{
    assert(step_sql(version_1()[3]) == "CREATE INDEX IF NOT EXISTS idx_events_timestamp ON events(timestamp)"@) by {
        reveal_strlit("CREATE INDEX IF NOT EXISTS idx_events_timestamp ON events(timestamp)");
        reveal_strlit("CREATE INDEX IF NOT EXISTS ");
        reveal_strlit("idx_events_timestamp");
        reveal_strlit(" ON ");
        reveal_strlit("events");
        reveal_strlit("(");
        reveal_strlit("timestamp");
        reveal_strlit(")");
        assert(step_sql(version_1()[3]) =~= "CREATE INDEX IF NOT EXISTS idx_events_timestamp ON events(timestamp)"@);
    }
    assert(step_sql(version_1()[4]) == "CREATE INDEX IF NOT EXISTS idx_events_source ON events(source_agent)"@) by {
        reveal_strlit("CREATE INDEX IF NOT EXISTS idx_events_source ON events(source_agent)");
        reveal_strlit("CREATE INDEX IF NOT EXISTS ");
        reveal_strlit("idx_events_source");
        reveal_strlit(" ON ");
        reveal_strlit("events");
        reveal_strlit("(");
        reveal_strlit("source_agent");
        reveal_strlit(")");
        assert(step_sql(version_1()[4]) =~= "CREATE INDEX IF NOT EXISTS idx_events_source ON events(source_agent)"@);
    }
    assert(step_sql(version_1()[7]) == "CREATE INDEX IF NOT EXISTS idx_task_status_priority ON task_queue(status, priority DESC)"@) by {
        reveal_strlit("CREATE INDEX IF NOT EXISTS idx_task_status_priority ON task_queue(status, priority DESC)");
        reveal_strlit("CREATE INDEX IF NOT EXISTS ");
        reveal_strlit("idx_task_status_priority");
        reveal_strlit(" ON ");
        reveal_strlit("task_queue");
        reveal_strlit("(");
        reveal_strlit("status, priority DESC");
        reveal_strlit(")");
        assert(step_sql(version_1()[7]) =~= "CREATE INDEX IF NOT EXISTS idx_task_status_priority ON task_queue(status, priority DESC)"@);
    }
    assert(step_sql(version_1()[9]) == "CREATE INDEX IF NOT EXISTS idx_memories_agent ON memories(agent_id)"@) by {
        reveal_strlit("CREATE INDEX IF NOT EXISTS idx_memories_agent ON memories(agent_id)");
        reveal_strlit("CREATE INDEX IF NOT EXISTS ");
        reveal_strlit("idx_memories_agent");
        reveal_strlit(" ON ");
        reveal_strlit("memories");
        reveal_strlit("(");
        reveal_strlit("agent_id");
        reveal_strlit(")");
        assert(step_sql(version_1()[9]) =~= "CREATE INDEX IF NOT EXISTS idx_memories_agent ON memories(agent_id)"@);
    }
    assert(step_sql(version_1()[10]) == "CREATE INDEX IF NOT EXISTS idx_memories_scope ON memories(scope)"@) by {
        reveal_strlit("CREATE INDEX IF NOT EXISTS idx_memories_scope ON memories(scope)");
        reveal_strlit("CREATE INDEX IF NOT EXISTS ");
        reveal_strlit("idx_memories_scope");
        reveal_strlit(" ON ");
        reveal_strlit("memories");
        reveal_strlit("(");
        reveal_strlit("scope");
        reveal_strlit(")");
        assert(step_sql(version_1()[10]) =~= "CREATE INDEX IF NOT EXISTS idx_memories_scope ON memories(scope)"@);
    }
    assert(step_sql(version_1()[13]) == "CREATE INDEX IF NOT EXISTS idx_relations_source ON relations(source_entity)"@) by {
        reveal_strlit("CREATE INDEX IF NOT EXISTS idx_relations_source ON relations(source_entity)");
        reveal_strlit("CREATE INDEX IF NOT EXISTS ");
        reveal_strlit("idx_relations_source");
        reveal_strlit(" ON ");
        reveal_strlit("relations");
        reveal_strlit("(");
        reveal_strlit("source_entity");
        reveal_strlit(")");
        assert(step_sql(version_1()[13]) =~= "CREATE INDEX IF NOT EXISTS idx_relations_source ON relations(source_entity)"@);
    }
    assert(step_sql(version_1()[14]) == "CREATE INDEX IF NOT EXISTS idx_relations_target ON relations(target_entity)"@) by {
        reveal_strlit("CREATE INDEX IF NOT EXISTS idx_relations_target ON relations(target_entity)");
        reveal_strlit("CREATE INDEX IF NOT EXISTS ");
        reveal_strlit("idx_relations_target");
        reveal_strlit(" ON ");
        reveal_strlit("relations");
        reveal_strlit("(");
        reveal_strlit("target_entity");
        reveal_strlit(")");
        assert(step_sql(version_1()[14]) =~= "CREATE INDEX IF NOT EXISTS idx_relations_target ON relations(target_entity)"@);
    }
    assert(step_sql(version_1()[15]) == "CREATE INDEX IF NOT EXISTS idx_relations_type ON relations(relation_type)"@) by {
        reveal_strlit("CREATE INDEX IF NOT EXISTS idx_relations_type ON relations(relation_type)");
        reveal_strlit("CREATE INDEX IF NOT EXISTS ");
        reveal_strlit("idx_relations_type");
        reveal_strlit(" ON ");
        reveal_strlit("relations");
        reveal_strlit("(");
        reveal_strlit("relation_type");
        reveal_strlit(")");
        assert(step_sql(version_1()[15]) =~= "CREATE INDEX IF NOT EXISTS idx_relations_type ON relations(relation_type)"@);
    }
}

/// Version 2: the tables that it creates, the columns that it adds and the indexes that it
/// creates, in their order; then it is recorded.
pub proof fn version_2_statements()
    ensures
        version_2().len() == 6,
        step_sql(version_2()[0])
            == "ALTER TABLE task_queue ADD COLUMN title TEXT DEFAULT ''"@,
        step_sql(version_2()[1])
            == "ALTER TABLE task_queue ADD COLUMN description TEXT DEFAULT ''"@,
        step_sql(version_2()[2])
            == "ALTER TABLE task_queue ADD COLUMN assigned_to TEXT DEFAULT ''"@,
        step_sql(version_2()[3])
            == "ALTER TABLE task_queue ADD COLUMN created_by TEXT DEFAULT ''"@,
        step_sql(version_2()[4])
            == "ALTER TABLE task_queue ADD COLUMN result TEXT DEFAULT ''"@,
        version_2()[5] matches StepView::Record { version, description } && version == 2
            && description == "Add collaboration columns to task_queue"@,
{
    assert(step_sql(version_2()[0]) == "ALTER TABLE task_queue ADD COLUMN title TEXT DEFAULT ''"@) by {
        reveal_strlit("ALTER TABLE task_queue ADD COLUMN title TEXT DEFAULT ''");
        reveal_strlit("ALTER TABLE ");
        reveal_strlit("task_queue");
        reveal_strlit(" ADD COLUMN ");
        reveal_strlit("title");
        reveal_strlit(" ");
        reveal_strlit("TEXT");
        reveal_strlit(" DEFAULT ");
        reveal_strlit("''");
        assert(step_sql(version_2()[0]) =~= "ALTER TABLE task_queue ADD COLUMN title TEXT DEFAULT ''"@);
    }
    assert(step_sql(version_2()[1]) == "ALTER TABLE task_queue ADD COLUMN description TEXT DEFAULT ''"@) by {
        reveal_strlit("ALTER TABLE task_queue ADD COLUMN description TEXT DEFAULT ''");
        reveal_strlit("ALTER TABLE ");
        reveal_strlit("task_queue");
        reveal_strlit(" ADD COLUMN ");
        reveal_strlit("description");
        reveal_strlit(" ");
        reveal_strlit("TEXT");
        reveal_strlit(" DEFAULT ");
        reveal_strlit("''");
        assert(step_sql(version_2()[1]) =~= "ALTER TABLE task_queue ADD COLUMN description TEXT DEFAULT ''"@);
    }
    assert(step_sql(version_2()[2]) == "ALTER TABLE task_queue ADD COLUMN assigned_to TEXT DEFAULT ''"@) by {
        reveal_strlit("ALTER TABLE task_queue ADD COLUMN assigned_to TEXT DEFAULT ''");
        reveal_strlit("ALTER TABLE ");
        reveal_strlit("task_queue");
        reveal_strlit(" ADD COLUMN ");
        reveal_strlit("assigned_to");
        reveal_strlit(" ");
        reveal_strlit("TEXT");
        reveal_strlit(" DEFAULT ");
        reveal_strlit("''");
        assert(step_sql(version_2()[2]) =~= "ALTER TABLE task_queue ADD COLUMN assigned_to TEXT DEFAULT ''"@);
    }
    assert(step_sql(version_2()[3]) == "ALTER TABLE task_queue ADD COLUMN created_by TEXT DEFAULT ''"@) by {
        reveal_strlit("ALTER TABLE task_queue ADD COLUMN created_by TEXT DEFAULT ''");
        reveal_strlit("ALTER TABLE ");
        reveal_strlit("task_queue");
        reveal_strlit(" ADD COLUMN ");
        reveal_strlit("created_by");
        reveal_strlit(" ");
        reveal_strlit("TEXT");
        reveal_strlit(" DEFAULT ");
        reveal_strlit("''");
        assert(step_sql(version_2()[3]) =~= "ALTER TABLE task_queue ADD COLUMN created_by TEXT DEFAULT ''"@);
    }
    assert(step_sql(version_2()[4]) == "ALTER TABLE task_queue ADD COLUMN result TEXT DEFAULT ''"@) by {
        reveal_strlit("ALTER TABLE task_queue ADD COLUMN result TEXT DEFAULT ''");
        reveal_strlit("ALTER TABLE ");
        reveal_strlit("task_queue");
        reveal_strlit(" ADD COLUMN ");
        reveal_strlit("result");
        reveal_strlit(" ");
        reveal_strlit("TEXT");
        reveal_strlit(" DEFAULT ");
        reveal_strlit("''");
        assert(step_sql(version_2()[4]) =~= "ALTER TABLE task_queue ADD COLUMN result TEXT DEFAULT ''"@);
    }
}

/// Version 3: the tables that it creates, the columns that it adds and the indexes that it
/// creates, in their order; then it is recorded.
pub proof fn version_3_statements()
    ensures
        version_3().len() == 2,
        step_sql(version_3()[0])
            == "ALTER TABLE memories ADD COLUMN embedding BLOB DEFAULT NULL"@,
        version_3()[1] matches StepView::Record { version, description } && version == 3
            && description == "Add embedding column to memories"@,
{
    assert(step_sql(version_3()[0]) == "ALTER TABLE memories ADD COLUMN embedding BLOB DEFAULT NULL"@) by {
        reveal_strlit("ALTER TABLE memories ADD COLUMN embedding BLOB DEFAULT NULL");
        reveal_strlit("ALTER TABLE ");
        reveal_strlit("memories");
        reveal_strlit(" ADD COLUMN ");
        reveal_strlit("embedding");
        reveal_strlit(" ");
        reveal_strlit("BLOB");
        reveal_strlit(" DEFAULT ");
        reveal_strlit("NULL");
        assert(step_sql(version_3()[0]) =~= "ALTER TABLE memories ADD COLUMN embedding BLOB DEFAULT NULL"@);
    }
}

/// Version 4: the tables that it creates, the columns that it adds and the indexes that it
/// creates, in their order; then it is recorded.
pub proof fn version_4_statements()
    ensures
        version_4().len() == 4,
        version_4()[0] == usage_events_table(),
        step_sql(version_4()[1])
            == "CREATE INDEX IF NOT EXISTS idx_usage_agent_time ON usage_events(agent_id, timestamp)"@,
        step_sql(version_4()[2])
            == "CREATE INDEX IF NOT EXISTS idx_usage_timestamp ON usage_events(timestamp)"@,
        version_4()[3] matches StepView::Record { version, description } && version == 4
            && description == "Add usage_events table for cost tracking"@,
{
    assert(step_sql(version_4()[1]) == "CREATE INDEX IF NOT EXISTS idx_usage_agent_time ON usage_events(agent_id, timestamp)"@) by {
        reveal_strlit("CREATE INDEX IF NOT EXISTS idx_usage_agent_time ON usage_events(agent_id, timestamp)");
        reveal_strlit("CREATE INDEX IF NOT EXISTS ");
        reveal_strlit("idx_usage_agent_time");
        reveal_strlit(" ON ");
        reveal_strlit("usage_events");
        reveal_strlit("(");
        reveal_strlit("agent_id, timestamp");
        reveal_strlit(")");
        assert(step_sql(version_4()[1]) =~= "CREATE INDEX IF NOT EXISTS idx_usage_agent_time ON usage_events(agent_id, timestamp)"@);
    }
    assert(step_sql(version_4()[2]) == "CREATE INDEX IF NOT EXISTS idx_usage_timestamp ON usage_events(timestamp)"@) by {
        reveal_strlit("CREATE INDEX IF NOT EXISTS idx_usage_timestamp ON usage_events(timestamp)");
        reveal_strlit("CREATE INDEX IF NOT EXISTS ");
        reveal_strlit("idx_usage_timestamp");
        reveal_strlit(" ON ");
        reveal_strlit("usage_events");
        reveal_strlit("(");
        reveal_strlit("timestamp");
        reveal_strlit(")");
        assert(step_sql(version_4()[2]) =~= "CREATE INDEX IF NOT EXISTS idx_usage_timestamp ON usage_events(timestamp)"@);
    }
}

/// Version 5: the tables that it creates, the columns that it adds and the indexes that it
/// creates, in their order; then it is recorded.
pub proof fn version_5_statements()
    ensures
        version_5().len() == 2,
        version_5()[0] == canonical_sessions_table(),
        version_5()[1] matches StepView::Record { version, description } && version == 5
            && description == "Add canonical_sessions for cross-channel memory"@,
{
}

/// Version 6: the tables that it creates, the columns that it adds and the indexes that it
/// creates, in their order; then it is recorded.
pub proof fn version_6_statements()
    ensures
        version_6().len() == 2,
        step_sql(version_6()[0])
            == "ALTER TABLE sessions ADD COLUMN label TEXT"@,
        version_6()[1] matches StepView::Record { version, description } && version == 6
            && description == "Add label column to sessions for human-readable labels"@,
{
    assert(step_sql(version_6()[0]) == "ALTER TABLE sessions ADD COLUMN label TEXT"@) by {
        reveal_strlit("ALTER TABLE sessions ADD COLUMN label TEXT");
        reveal_strlit("ALTER TABLE ");
        reveal_strlit("sessions");
        reveal_strlit(" ADD COLUMN ");
        reveal_strlit("label");
        reveal_strlit(" ");
        reveal_strlit("TEXT");
        assert(step_sql(version_6()[0]) =~= "ALTER TABLE sessions ADD COLUMN label TEXT"@);
    }
}

/// Version 7: the tables that it creates, the columns that it adds and the indexes that it
/// creates, in their order; then it is recorded.
pub proof fn version_7_statements()
    ensures
        version_7().len() == 2,
        version_7()[0] == paired_devices_table(),
        version_7()[1] matches StepView::Record { version, description } && version == 7
            && description == "Add paired_devices table for device pairing"@,
{
}

/// Version 8: the tables that it creates, the columns that it adds and the indexes that it
/// creates, in their order; then it is recorded.
pub proof fn version_8_statements()
    ensures
        version_8().len() == 5,
        version_8()[0] == audit_entries_table(),
        step_sql(version_8()[1])
            == "CREATE INDEX IF NOT EXISTS idx_audit_agent ON audit_entries(agent_id)"@,
        step_sql(version_8()[2])
            == "CREATE INDEX IF NOT EXISTS idx_audit_timestamp ON audit_entries(timestamp)"@,
        step_sql(version_8()[3])
            == "CREATE INDEX IF NOT EXISTS idx_audit_action ON audit_entries(action)"@,
        version_8()[4] matches StepView::Record { version, description } && version == 8
            && description == "Add audit_entries table for persistent Merkle audit trail"@,
{
    assert(step_sql(version_8()[1]) == "CREATE INDEX IF NOT EXISTS idx_audit_agent ON audit_entries(agent_id)"@) by {
        reveal_strlit("CREATE INDEX IF NOT EXISTS idx_audit_agent ON audit_entries(agent_id)");
        reveal_strlit("CREATE INDEX IF NOT EXISTS ");
        reveal_strlit("idx_audit_agent");
        reveal_strlit(" ON ");
        reveal_strlit("audit_entries");
        reveal_strlit("(");
        reveal_strlit("agent_id");
        reveal_strlit(")");
        assert(step_sql(version_8()[1]) =~= "CREATE INDEX IF NOT EXISTS idx_audit_agent ON audit_entries(agent_id)"@);
    }
    assert(step_sql(version_8()[2]) == "CREATE INDEX IF NOT EXISTS idx_audit_timestamp ON audit_entries(timestamp)"@) by {
        reveal_strlit("CREATE INDEX IF NOT EXISTS idx_audit_timestamp ON audit_entries(timestamp)");
        reveal_strlit("CREATE INDEX IF NOT EXISTS ");
        reveal_strlit("idx_audit_timestamp");
        reveal_strlit(" ON ");
        reveal_strlit("audit_entries");
        reveal_strlit("(");
        reveal_strlit("timestamp");
        reveal_strlit(")");
        assert(step_sql(version_8()[2]) =~= "CREATE INDEX IF NOT EXISTS idx_audit_timestamp ON audit_entries(timestamp)"@);
    }
    assert(step_sql(version_8()[3]) == "CREATE INDEX IF NOT EXISTS idx_audit_action ON audit_entries(action)"@) by {
        reveal_strlit("CREATE INDEX IF NOT EXISTS idx_audit_action ON audit_entries(action)");
        reveal_strlit("CREATE INDEX IF NOT EXISTS ");
        reveal_strlit("idx_audit_action");
        reveal_strlit(" ON ");
        reveal_strlit("audit_entries");
        reveal_strlit("(");
        reveal_strlit("action");
        reveal_strlit(")");
        assert(step_sql(version_8()[3]) =~= "CREATE INDEX IF NOT EXISTS idx_audit_action ON audit_entries(action)"@);
    }
}

/// Version 9: the tables that it creates, the columns that it adds and the indexes that it
/// creates, in their order; then it is recorded.
pub proof fn version_9_statements()
    ensures
        version_9().len() == 5,
        step_sql(version_9()[0])
            == "ALTER TABLE sessions ADD COLUMN user_id TEXT NOT NULL DEFAULT '00000000-0000-0000-0000-000000000000'"@,
        step_sql(version_9()[1])
            == "ALTER TABLE sessions ADD COLUMN parent_session_id TEXT"@,
        step_sql(version_9()[2])
            == "CREATE INDEX IF NOT EXISTS idx_sessions_user ON sessions(agent_id, user_id)"@,
        step_sql(version_9()[3])
            == "CREATE INDEX IF NOT EXISTS idx_sessions_parent ON sessions(parent_session_id)"@,
        version_9()[4] matches StepView::Record { version, description } && version == 9
            && description == "Tag sessions with user_id and parent_session_id"@,
{
    assert(step_sql(version_9()[0]) == "ALTER TABLE sessions ADD COLUMN user_id TEXT NOT NULL DEFAULT '00000000-0000-0000-0000-000000000000'"@) by {
        reveal_strlit("ALTER TABLE sessions ADD COLUMN user_id TEXT NOT NULL DEFAULT '00000000-0000-0000-0000-000000000000'");
        reveal_strlit("ALTER TABLE ");
        reveal_strlit("sessions");
        reveal_strlit(" ADD COLUMN ");
        reveal_strlit("user_id");
        reveal_strlit(" ");
        reveal_strlit("TEXT NOT NULL");
        reveal_strlit(" DEFAULT ");
        reveal_strlit("'00000000-0000-0000-0000-000000000000'");
        assert(step_sql(version_9()[0]) =~= "ALTER TABLE sessions ADD COLUMN user_id TEXT NOT NULL DEFAULT '00000000-0000-0000-0000-000000000000'"@);
    }
    assert(step_sql(version_9()[1]) == "ALTER TABLE sessions ADD COLUMN parent_session_id TEXT"@) by {
        reveal_strlit("ALTER TABLE sessions ADD COLUMN parent_session_id TEXT");
        reveal_strlit("ALTER TABLE ");
        reveal_strlit("sessions");
        reveal_strlit(" ADD COLUMN ");
        reveal_strlit("parent_session_id");
        reveal_strlit(" ");
        reveal_strlit("TEXT");
        assert(step_sql(version_9()[1]) =~= "ALTER TABLE sessions ADD COLUMN parent_session_id TEXT"@);
    }
    assert(step_sql(version_9()[2]) == "CREATE INDEX IF NOT EXISTS idx_sessions_user ON sessions(agent_id, user_id)"@) by {
        reveal_strlit("CREATE INDEX IF NOT EXISTS idx_sessions_user ON sessions(agent_id, user_id)");
        reveal_strlit("CREATE INDEX IF NOT EXISTS ");
        reveal_strlit("idx_sessions_user");
        reveal_strlit(" ON ");
        reveal_strlit("sessions");
        reveal_strlit("(");
        reveal_strlit("agent_id, user_id");
        reveal_strlit(")");
        assert(step_sql(version_9()[2]) =~= "CREATE INDEX IF NOT EXISTS idx_sessions_user ON sessions(agent_id, user_id)"@);
    }
    assert(step_sql(version_9()[3]) == "CREATE INDEX IF NOT EXISTS idx_sessions_parent ON sessions(parent_session_id)"@) by {
        reveal_strlit("CREATE INDEX IF NOT EXISTS idx_sessions_parent ON sessions(parent_session_id)");
        reveal_strlit("CREATE INDEX IF NOT EXISTS ");
        reveal_strlit("idx_sessions_parent");
        reveal_strlit(" ON ");
        reveal_strlit("sessions");
        reveal_strlit("(");
        reveal_strlit("parent_session_id");
        reveal_strlit(")");
        assert(step_sql(version_9()[3]) =~= "CREATE INDEX IF NOT EXISTS idx_sessions_parent ON sessions(parent_session_id)"@);
    }
}

/// Version 10: the tables that it creates, the columns that it adds and the indexes that it
/// creates, in their order; then it is recorded.
pub proof fn version_10_statements()
    ensures
        version_10().len() == 8,
        version_10()[0] == session_extractions_table(),
        step_sql(version_10()[1])
            == "CREATE INDEX IF NOT EXISTS idx_extractions_session ON session_extractions(session_id)"@,
        step_sql(version_10()[2])
            == "CREATE INDEX IF NOT EXISTS idx_extractions_user_created ON session_extractions(user_id, created_at)"@,
        version_10()[3] == user_memory_topics_table(),
        step_sql(version_10()[4])
            == "CREATE INDEX IF NOT EXISTS idx_user_memory_user ON user_memory_topics(user_id)"@,
        version_10()[5] == user_agent_memory_topics_table(),
        step_sql(version_10()[6])
            == "CREATE INDEX IF NOT EXISTS idx_user_agent_memory ON user_agent_memory_topics(user_id, agent_id)"@,
        version_10()[7] matches StepView::Record { version, description } && version == 10
            && description == "Structured memory storage tables (session_extractions, user_memory_topics, user_agent_memory_topics)"@,
{
    assert(step_sql(version_10()[1]) == "CREATE INDEX IF NOT EXISTS idx_extractions_session ON session_extractions(session_id)"@) by {
        reveal_strlit("CREATE INDEX IF NOT EXISTS idx_extractions_session ON session_extractions(session_id)");
        reveal_strlit("CREATE INDEX IF NOT EXISTS ");
        reveal_strlit("idx_extractions_session");
        reveal_strlit(" ON ");
        reveal_strlit("session_extractions");
        reveal_strlit("(");
        reveal_strlit("session_id");
        reveal_strlit(")");
        assert(step_sql(version_10()[1]) =~= "CREATE INDEX IF NOT EXISTS idx_extractions_session ON session_extractions(session_id)"@);
    }
    assert(step_sql(version_10()[2]) == "CREATE INDEX IF NOT EXISTS idx_extractions_user_created ON session_extractions(user_id, created_at)"@) by {
        reveal_strlit("CREATE INDEX IF NOT EXISTS idx_extractions_user_created ON session_extractions(user_id, created_at)");
        reveal_strlit("CREATE INDEX IF NOT EXISTS ");
        reveal_strlit("idx_extractions_user_created");
        reveal_strlit(" ON ");
        reveal_strlit("session_extractions");
        reveal_strlit("(");
        reveal_strlit("user_id, created_at");
        reveal_strlit(")");
        assert(step_sql(version_10()[2]) =~= "CREATE INDEX IF NOT EXISTS idx_extractions_user_created ON session_extractions(user_id, created_at)"@);
    }
    assert(step_sql(version_10()[4]) == "CREATE INDEX IF NOT EXISTS idx_user_memory_user ON user_memory_topics(user_id)"@) by {
        reveal_strlit("CREATE INDEX IF NOT EXISTS idx_user_memory_user ON user_memory_topics(user_id)");
        reveal_strlit("CREATE INDEX IF NOT EXISTS ");
        reveal_strlit("idx_user_memory_user");
        reveal_strlit(" ON ");
        reveal_strlit("user_memory_topics");
        reveal_strlit("(");
        reveal_strlit("user_id");
        reveal_strlit(")");
        assert(step_sql(version_10()[4]) =~= "CREATE INDEX IF NOT EXISTS idx_user_memory_user ON user_memory_topics(user_id)"@);
    }
    assert(step_sql(version_10()[6]) == "CREATE INDEX IF NOT EXISTS idx_user_agent_memory ON user_agent_memory_topics(user_id, agent_id)"@) by {
        reveal_strlit("CREATE INDEX IF NOT EXISTS idx_user_agent_memory ON user_agent_memory_topics(user_id, agent_id)");
        reveal_strlit("CREATE INDEX IF NOT EXISTS ");
        reveal_strlit("idx_user_agent_memory");
        reveal_strlit(" ON ");
        reveal_strlit("user_agent_memory_topics");
        reveal_strlit("(");
        reveal_strlit("user_id, agent_id");
        reveal_strlit(")");
        assert(step_sql(version_10()[6]) =~= "CREATE INDEX IF NOT EXISTS idx_user_agent_memory ON user_agent_memory_topics(user_id, agent_id)"@);
    }
}

/// A version is recorded by its number and its description, once; and the version of the schema
/// is set to a number.
pub proof fn versions_are_recorded(version: u32, description: Seq<char>)
    ensures
        step_sql(StepView::Record { version, description })
            == "INSERT OR IGNORE INTO migrations (version, applied_at, description) VALUES ("@
            + decimal(version as nat) + ", datetime('now'), '"@ + description + "')"@,
        step_sql(StepView::SetVersion(version)) == "PRAGMA user_version = "@ + decimal(
            version as nat,
        ),
{
}

/// Each version from 1 to 10 has its steps, and there are no others.
pub proof fn versions_have_their_steps(version: int)
    ensures
        version_steps(1) == version_1(),
        version_steps(2) == version_2(),
        version_steps(3) == version_3(),
        version_steps(4) == version_4(),
        version_steps(5) == version_5(),
        version_steps(6) == version_6(),
        version_steps(7) == version_7(),
        version_steps(8) == version_8(),
        version_steps(9) == version_9(),
        version_steps(10) == version_10(),
        version < 1 || version > 10 ==> version_steps(version).len() == 0,
{
}

/// The steps from one version to another begin with those of the next version.
proof fn lemma_next_version_first(from: int, to: int)
    requires
        from < to,
    ensures
        steps_between(from, to) == version_steps(from + 1) + steps_between(from + 1, to),
    decreases to - from,
{
    reveal_with_fuel(steps_between, 2);
    if from + 1 < to {
        lemma_next_version_first(from, to - 1);
        assert(steps_between(from, to) =~= version_steps(from + 1) + steps_between(from + 1, to));
    } else {
        assert(steps_between(from, to) =~= version_steps(from + 1) + steps_between(from + 1, to));
    }
}

/// A database is brought up to date version by version: first by the steps of the next version,
/// then as a database of that version is. One that is up to date, or ahead, only has its version
/// set, to 10.
pub proof fn plan_goes_version_by_version(current: u32)
    ensures
        current < 10 ==> plan(current) == version_steps(current + 1) + plan((current + 1) as u32),
        current >= 10 ==> plan(current) == seq![StepView::SetVersion(10)],
{
    if current < 10 {
        lemma_next_version_first(current as int, 10);
        assert(plan(current) =~= version_steps(current + 1) + plan((current + 1) as u32));
    } else {
        assert(plan(current) =~= seq![StepView::SetVersion(10)]);
    }
}

/// A column is added exactly if the table does not have it; every other step is always performed.
pub proof fn only_missing_columns_are_added(
    to: Seq<char>,
    column: ColumnView,
    columns: Seq<Seq<char>>,
    step: StepView,
)
    ensures
        needed(StepView::AddColumn { to, column }, columns) <==> forall|i: int|
            0 <= i < columns.len() ==> #[trigger] columns[i] != column.name,
        !(step is AddColumn) ==> needed(step, columns),
{
    if !columns.contains(column.name) {
        assert forall|i: int| 0 <= i < columns.len() implies #[trigger] columns[i]
            != column.name by {
            if columns[i] == column.name {
                assert(columns.contains(column.name));
            }
        }
    }
}

/// What is stated of a column and of a step speaks of their fields.
pub proof fn steps_show_their_fields(column: Column, step: MigrationStep)
    ensures
        column@.name == column.name@,
        column@.kind == column.kind@,
        column@.default == optional_text(column.default),
        match step {
            MigrationStep::CreateTable { table, columns, key } => {
                &&& step@ is CreateTable
                &&& step@->CreateTable_table == table@
                &&& step@->CreateTable_key == key@
                &&& step@->CreateTable_columns.len() == columns@.len()
                &&& forall|i: int|
                    0 <= i < columns@.len() ==> #[trigger] step@->CreateTable_columns[i]
                        == columns@[i]@
            },
            MigrationStep::CreateIndex { index, on, over } => step@ == (StepView::CreateIndex {
                index: index@,
                on: on@,
                over: over@,
            }),
            MigrationStep::AddColumn { to, column } => step@ == (StepView::AddColumn {
                to: to@,
                column: column@,
            }),
            MigrationStep::Record { version, description } => step@ == (StepView::Record {
                version,
                description: description@,
            }),
            MigrationStep::SetVersion(version) => step@ == StepView::SetVersion(version),
        },
{
}

/// The steps of the last version create the tables of structured memory with their keys, as the
/// statements say that perform them.
pub proof fn structured_memory_tables_are_created(
    steps: Vec<MigrationStep>,
    topics: String,
    agent_topics: String,
    extractions: String,
)
    requires
        call_ensures(migrate_v10, (), steps),
        call_ensures(MigrationStep::sql, (&steps@[0],), extractions),
        call_ensures(MigrationStep::sql, (&steps@[3],), topics),
        call_ensures(MigrationStep::sql, (&steps@[5],), agent_topics),
    ensures
        steps@.len() == 8,
        extractions@ == "CREATE TABLE IF NOT EXISTS session_extractions ("@ + joined(
            seq![
                "id TEXT PRIMARY KEY"@,
                "session_id TEXT NOT NULL"@,
                "user_id TEXT NOT NULL DEFAULT '00000000-0000-0000-0000-000000000000'"@,
                "agent_id TEXT NOT NULL DEFAULT '00000000-0000-0000-0000-000000000000'"@,
                "facts TEXT NOT NULL DEFAULT '[]'"@,
                "preferences TEXT NOT NULL DEFAULT '[]'"@,
                "decisions TEXT NOT NULL DEFAULT '[]'"@,
                "tasks TEXT NOT NULL DEFAULT '[]'"@,
                "open_items TEXT NOT NULL DEFAULT '[]'"@,
                "created_at TEXT NOT NULL"@,
            ],
            ", "@,
        ) + ")"@,
        topics@ == "CREATE TABLE IF NOT EXISTS user_memory_topics ("@ + joined(
            seq![
                "user_id TEXT NOT NULL"@,
                "topic TEXT NOT NULL"@,
                "summary TEXT NOT NULL DEFAULT ''"@,
                "content TEXT NOT NULL DEFAULT ''"@,
                "updated_at TEXT NOT NULL"@,
                "expires_at TEXT DEFAULT NULL"@,
                "embedding BLOB DEFAULT NULL"@,
            ],
            ", "@,
        ) + ", PRIMARY KEY (user_id, topic))"@,
        agent_topics@ == "CREATE TABLE IF NOT EXISTS user_agent_memory_topics ("@ + joined(
            seq![
                "user_id TEXT NOT NULL"@,
                "agent_id TEXT NOT NULL"@,
                "topic TEXT NOT NULL"@,
                "summary TEXT NOT NULL DEFAULT ''"@,
                "content TEXT NOT NULL DEFAULT ''"@,
                "updated_at TEXT NOT NULL"@,
            ],
            ", "@,
        ) + ", PRIMARY KEY (user_id, agent_id, topic))"@,
{
    version_10_statements();
    session_extractions_statement();
    user_memory_topics_statement();
    user_agent_memory_topics_statement();
    let all = views(steps@);
    assert(all.len() == steps@.len());
    assert(all[0] == steps@[0]@ && all[3] == steps@[3]@ && all[5] == steps@[5]@);
}

/// The plan for a database begins with the steps of the next version, and its last step sets the
/// version to 10.
pub proof fn plan_is_made_of_versions(current: u32, steps: Vec<MigrationStep>)
    requires
        call_ensures(migration_plan, (current,), steps),
    ensures
        steps@.len() > 0,
        steps@.last()@ == StepView::SetVersion(10),
        current < 10 ==> steps@.len() > version_steps(current + 1).len(),
        current < 10 ==> forall|i: int|
            0 <= i < version_steps(current + 1).len() ==> (#[trigger] steps@[i])@ == version_steps(
                current + 1,
            )[i],
{
    plan_goes_version_by_version(current);
    let all = views(steps@);
    assert(all.len() == steps@.len());
    assert(all[steps@.len() - 1] == steps@[steps@.len() - 1]@);
    if current < 10 {
        let first = version_steps(current + 1);
        assert forall|i: int| 0 <= i < first.len() implies (#[trigger] steps@[i])@ == first[i] by {
            assert(all[i] == steps@[i]@);
        }
    }
}

} // verus!
