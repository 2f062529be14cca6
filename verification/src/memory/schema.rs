//! The schema of the memory database, version by version.

use crate::memory::table::views;
use crate::text::{decimal, decimal_text, has_suffix, join, joined, optional_text, texts};
use vstd::prelude::*;

verus! {

/// A column of a table.
#[derive(Debug)]
pub struct Column {
    pub name: String,
    /// Its type and constraints.
    pub kind: String,
    /// The SQL literal of the value that it has where none is given.
    pub default: Option<String>,
}

/// What a column holds.
pub struct ColumnView {
    pub name: Seq<char>,
    pub kind: Seq<char>,
    pub default: Option<Seq<char>>,
}

impl View for Column {
    type V = ColumnView;

    open spec fn view(&self) -> ColumnView {
        ColumnView { name: self.name@, kind: self.kind@, default: optional_text(self.default) }
    }
}

/// A column without a default.
pub open spec fn column(name: Seq<char>, kind: Seq<char>) -> ColumnView {
    ColumnView { name, kind, default: None }
}

/// A column with a default.
pub open spec fn column_with(name: Seq<char>, kind: Seq<char>, default: Seq<char>) -> ColumnView {
    ColumnView { name, kind, default: Some(default) }
}

/// A column without a default.
fn new_column(name: &str, kind: &str) -> (r: Column)
    ensures
        r@ == column(name@, kind@),
{
    Column { name: name.to_string(), kind: kind.to_string(), default: None }
}

/// A column with a default.
fn new_column_with(name: &str, kind: &str, default: &str) -> (r: Column)
    ensures
        r@ == column_with(name@, kind@, default@),
{
    Column { name: name.to_string(), kind: kind.to_string(), default: Some(default.to_string()) }
}

/// A step of a migration.
#[derive(Debug)]
pub enum MigrationStep {
    /// Create a table, unless it exists. `key` lists the columns of its primary key where it has
    /// more than one.
    CreateTable { table: String, columns: Vec<Column>, key: String },
    /// Create an index on columns of a table, unless it exists.
    CreateIndex { index: String, on: String, over: String },
    /// Add a column to a table.
    AddColumn { to: String, column: Column },
    /// Record that a version was applied, unless it is recorded.
    Record { version: u32, description: String },
    /// Set the version of the schema.
    SetVersion(u32),
}

/// What a step holds.
pub enum StepView {
    CreateTable { table: Seq<char>, columns: Seq<ColumnView>, key: Seq<char> },
    CreateIndex { index: Seq<char>, on: Seq<char>, over: Seq<char> },
    AddColumn { to: Seq<char>, column: ColumnView },
    Record { version: u32, description: Seq<char> },
    SetVersion(u32),
}

impl View for MigrationStep {
    type V = StepView;

    open spec fn view(&self) -> StepView {
        match *self {
            MigrationStep::CreateTable { table, columns, key } => StepView::CreateTable {
                table: table@,
                columns: views(columns@),
                key: key@,
            },
            MigrationStep::CreateIndex { index, on, over } => StepView::CreateIndex {
                index: index@,
                on: on@,
                over: over@,
            },
            MigrationStep::AddColumn { to, column } => StepView::AddColumn {
                to: to@,
                column: column@,
            },
            MigrationStep::Record { version, description } => StepView::Record {
                version,
                description: description@,
            },
            MigrationStep::SetVersion(version) => StepView::SetVersion(version),
        }
    }
}

/// The step that creates an index.
pub open spec fn index(name: Seq<char>, on: Seq<char>, over: Seq<char>) -> StepView {
    StepView::CreateIndex { index: name, on, over }
}

/// The step that creates an index.
fn new_index(name: &str, on: &str, over: &str) -> (r: MigrationStep)
    ensures
        r@ == index(name@, on@, over@),
{
    MigrationStep::CreateIndex {
        index: name.to_string(),
        on: on.to_string(),
        over: over.to_string(),
    }
}

/// The step that adds a column.
pub open spec fn added_column(to: Seq<char>, column: ColumnView) -> StepView {
    StepView::AddColumn { to, column }
}

/// The step that adds a column.
fn new_added_column(to: &str, column: Column) -> (r: MigrationStep)
    ensures
        r@ == added_column(to@, column@),
{
    MigrationStep::AddColumn { to: to.to_string(), column }
}

/// The step that records a version.
pub open spec fn record(version: u32, description: Seq<char>) -> StepView {
    StepView::Record { version, description }
}

/// The step that records a version.
fn new_record(version: u32, description: &str) -> (r: MigrationStep)
    ensures
        r@ == record(version, description@),
{
    MigrationStep::Record { version, description: description.to_string() }
}

/// A column as it is declared.
pub open spec fn column_sql(column: ColumnView) -> Seq<char> {
    column.name + " "@ + column.kind + match column.default {
        Some(literal) => " DEFAULT "@ + literal,
        None => Seq::empty(),
    }
}

/// The columns of a table as they are declared.
pub open spec fn columns_sql(columns: Seq<ColumnView>) -> Seq<char> {
    joined(columns.map_values(|c: ColumnView| column_sql(c)), ", "@)
}

/// The key of a table as it is declared.
pub open spec fn key_sql(key: Seq<char>) -> Seq<char> {
    if key.len() == 0 {
        Seq::empty()
    } else {
        ", PRIMARY KEY ("@ + key + ")"@
    }
}

/// The position of the first comma, or the length if there is none.
pub open spec fn comma(text: Seq<char>) -> int
    decreases text.len(),
{
    if text.len() == 0 || text[0] == ',' {
        0
    } else {
        1 + comma(text.skip(1))
    }
}

/// The names in a list: what stands between its commas, each of which a blank follows.
pub open spec fn listed_names(list: Seq<char>) -> Seq<Seq<char>>
    decreases list.len(),
{
    let at = comma(list);
    if list.len() == 0 {
        Seq::empty()
    } else if at < 0 || at + 2 > list.len() {
        seq![list]
    } else {
        seq![list.take(at)] + listed_names(list.skip(at + 2))
    }
}

/// Whether a column is declared to be the primary key by itself.
pub open spec fn is_key(column: ColumnView) -> bool {
    has_suffix(column.kind, " PRIMARY KEY"@)
}

/// The columns of the primary key of a table: those that `key` lists, or the one that is
/// declared to be it.
pub open spec fn key_columns(columns: Seq<ColumnView>, key: Seq<char>) -> Seq<Seq<char>> {
    if key.len() > 0 {
        listed_names(key)
    } else {
        columns.filter(|c: ColumnView| is_key(c)).map_values(|c: ColumnView| c.name)
    }
}

/// The statement that performs a step.
pub open spec fn step_sql(step: StepView) -> Seq<char> {
    match step {
        StepView::CreateTable { table, columns, key } => "CREATE TABLE IF NOT EXISTS "@ + table
            + " ("@ + columns_sql(columns) + key_sql(key) + ")"@,
        StepView::CreateIndex { index, on, over } => "CREATE INDEX IF NOT EXISTS "@ + index
            + " ON "@ + on + "("@ + over + ")"@,
        StepView::AddColumn { to, column } => "ALTER TABLE "@ + to + " ADD COLUMN "@ + column_sql(
            column,
        ),
        StepView::Record {
            version,
            description,
        } => "INSERT OR IGNORE INTO migrations (version, applied_at, description) VALUES ("@
            + decimal(version as nat) + ", datetime('now'), '"@ + description + "')"@,
        StepView::SetVersion(version) => "PRAGMA user_version = "@ + decimal(version as nat),
    }
}

/// A column as it is declared.
fn write_column(column: &Column) -> (r: String)
    ensures
        r@ == column_sql(column@),
{
    let mut r: String = column.name.clone();
    r.append(" ");
    r.append(column.kind.as_str());
    match &column.default {
        Some(literal) => {
            let mut declared: String = " DEFAULT ".to_string();
            declared.append(literal.as_str());
            r.append(declared.as_str());
        },
        None => {
            assert(r@ =~= column_sql(column@));
        },
    }
    r
}

/// The columns of a table as they are declared.
fn write_columns(columns: &Vec<Column>) -> (r: String)
    ensures
        r@ == columns_sql(views(columns@)),
{
    let mut parts: Vec<String> = Vec::new();
    let mut i: usize = 0;
    while i < columns.len()
        invariant
            i <= columns.len(),
            parts@.len() == i,
            forall|j: int| 0 <= j < i ==> (#[trigger] parts@[j])@ == column_sql(columns@[j]@),
        decreases columns.len() - i,
    {
        parts.push(write_column(&columns[i]));
        i = i + 1;
    }
    assert(texts(parts@) =~= views(columns@).map_values(
        |c: ColumnView| column_sql(c),
    ));
    join(parts.as_slice(), ", ")
}

impl MigrationStep {
    /// The SQL statement that performs the step.
    pub fn sql(&self) -> (r: String)
        ensures
            r@ == step_sql(self@),
    {
        match self {
            MigrationStep::CreateTable { table, columns, key } => {
                let mut r: String = "CREATE TABLE IF NOT EXISTS ".to_string();
                r.append(table.as_str());
                r.append(" (");
                r.append(write_columns(columns).as_str());
                if key.as_str().unicode_len() > 0 {
                    let mut declared: String = ", PRIMARY KEY (".to_string();
                    declared.append(key.as_str());
                    declared.append(")");
                    r.append(declared.as_str());
                } else {
                    assert(r@ =~= r@ + key_sql(key@));
                }
                r.append(")");
                r
            },
            MigrationStep::CreateIndex { index, on, over } => {
                let mut r: String = "CREATE INDEX IF NOT EXISTS ".to_string();
                r.append(index.as_str());
                r.append(" ON ");
                r.append(on.as_str());
                r.append("(");
                r.append(over.as_str());
                r.append(")");
                r
            },
            MigrationStep::AddColumn { to, column } => {
                let mut r: String = "ALTER TABLE ".to_string();
                r.append(to.as_str());
                r.append(" ADD COLUMN ");
                r.append(write_column(column).as_str());
                r
            },
            MigrationStep::Record { version, description } => {
                let mut r: String =
                    "INSERT OR IGNORE INTO migrations (version, applied_at, description) VALUES (".to_string();
                r.append(decimal_text(*version as u64).as_str());
                r.append(", datetime('now'), '");
                r.append(description.as_str());
                r.append("')");
                r
            },
            MigrationStep::SetVersion(version) => {
                let mut r: String = "PRAGMA user_version = ".to_string();
                r.append(decimal_text(*version as u64).as_str());
                r
            },
        }
    }
}

/// The table `agents`.
pub open spec fn agents_table() -> StepView {
    StepView::CreateTable {
        table: "agents"@,
        columns: seq![
            column("id"@, "TEXT PRIMARY KEY"@),
            column("name"@, "TEXT NOT NULL"@),
            column("manifest"@, "BLOB NOT NULL"@),
            column("state"@, "TEXT NOT NULL"@),
            column("created_at"@, "TEXT NOT NULL"@),
            column("updated_at"@, "TEXT NOT NULL"@),
        ],
        key: ""@,
    }
}

/// The table `agents`.
fn create_agents() -> (r: MigrationStep)
    ensures
        r@ == agents_table(),
{
    let mut columns: Vec<Column> = Vec::new();
    columns.push(new_column("id", "TEXT PRIMARY KEY"));
    columns.push(new_column("name", "TEXT NOT NULL"));
    columns.push(new_column("manifest", "BLOB NOT NULL"));
    columns.push(new_column("state", "TEXT NOT NULL"));
    columns.push(new_column("created_at", "TEXT NOT NULL"));
    columns.push(new_column("updated_at", "TEXT NOT NULL"));
    let r = MigrationStep::CreateTable {
        table: "agents".to_string(),
        columns,
        key: "".to_string(),
    };
    assert(r@->CreateTable_columns =~= agents_table()->CreateTable_columns);
    r
}

/// The table `sessions`.
pub open spec fn sessions_table() -> StepView {
    StepView::CreateTable {
        table: "sessions"@,
        columns: seq![
            column("id"@, "TEXT PRIMARY KEY"@),
            column("agent_id"@, "TEXT NOT NULL"@),
            column("messages"@, "BLOB NOT NULL"@),
            column_with("context_window_tokens"@, "INTEGER"@, "0"@),
            column("created_at"@, "TEXT NOT NULL"@),
            column("updated_at"@, "TEXT NOT NULL"@),
        ],
        key: ""@,
    }
}

/// The table `sessions`.
fn create_sessions() -> (r: MigrationStep)
    ensures
        r@ == sessions_table(),
{
    let mut columns: Vec<Column> = Vec::new();
    columns.push(new_column("id", "TEXT PRIMARY KEY"));
    columns.push(new_column("agent_id", "TEXT NOT NULL"));
    columns.push(new_column("messages", "BLOB NOT NULL"));
    columns.push(new_column_with("context_window_tokens", "INTEGER", "0"));
    columns.push(new_column("created_at", "TEXT NOT NULL"));
    columns.push(new_column("updated_at", "TEXT NOT NULL"));
    let r = MigrationStep::CreateTable {
        table: "sessions".to_string(),
        columns,
        key: "".to_string(),
    };
    assert(r@->CreateTable_columns =~= sessions_table()->CreateTable_columns);
    r
}

/// The table `events`.
pub open spec fn events_table() -> StepView {
    StepView::CreateTable {
        table: "events"@,
        columns: seq![
            column("id"@, "TEXT PRIMARY KEY"@),
            column("source_agent"@, "TEXT NOT NULL"@),
            column("target"@, "TEXT NOT NULL"@),
            column("payload"@, "BLOB NOT NULL"@),
            column("timestamp"@, "TEXT NOT NULL"@),
        ],
        key: ""@,
    }
}

/// The table `events`.
fn create_events() -> (r: MigrationStep)
    ensures
        r@ == events_table(),
{
    let mut columns: Vec<Column> = Vec::new();
    columns.push(new_column("id", "TEXT PRIMARY KEY"));
    columns.push(new_column("source_agent", "TEXT NOT NULL"));
    columns.push(new_column("target", "TEXT NOT NULL"));
    columns.push(new_column("payload", "BLOB NOT NULL"));
    columns.push(new_column("timestamp", "TEXT NOT NULL"));
    let r = MigrationStep::CreateTable {
        table: "events".to_string(),
        columns,
        key: "".to_string(),
    };
    assert(r@->CreateTable_columns =~= events_table()->CreateTable_columns);
    r
}

/// The table `kv_store`.
pub open spec fn kv_store_table() -> StepView {
    StepView::CreateTable {
        table: "kv_store"@,
        columns: seq![
            column("agent_id"@, "TEXT NOT NULL"@),
            column("key"@, "TEXT NOT NULL"@),
            column("value"@, "BLOB NOT NULL"@),
            column_with("version"@, "INTEGER NOT NULL"@, "1"@),
            column("updated_at"@, "TEXT NOT NULL"@),
        ],
        key: "agent_id, key"@,
    }
}

/// The table `kv_store`.
fn create_kv_store() -> (r: MigrationStep)
    ensures
        r@ == kv_store_table(),
{
    let mut columns: Vec<Column> = Vec::new();
    columns.push(new_column("agent_id", "TEXT NOT NULL"));
    columns.push(new_column("key", "TEXT NOT NULL"));
    columns.push(new_column("value", "BLOB NOT NULL"));
    columns.push(new_column_with("version", "INTEGER NOT NULL", "1"));
    columns.push(new_column("updated_at", "TEXT NOT NULL"));
    let r = MigrationStep::CreateTable {
        table: "kv_store".to_string(),
        columns,
        key: "agent_id, key".to_string(),
    };
    assert(r@->CreateTable_columns =~= kv_store_table()->CreateTable_columns);
    r
}

/// The table `task_queue`.
pub open spec fn task_queue_table() -> StepView {
    StepView::CreateTable {
        table: "task_queue"@,
        columns: seq![
            column("id"@, "TEXT PRIMARY KEY"@),
            column("agent_id"@, "TEXT NOT NULL"@),
            column("task_type"@, "TEXT NOT NULL"@),
            column("payload"@, "BLOB NOT NULL"@),
            column_with("status"@, "TEXT NOT NULL"@, "'pending'"@),
            column_with("priority"@, "INTEGER NOT NULL"@, "0"@),
            column("scheduled_at"@, "TEXT"@),
            column("created_at"@, "TEXT NOT NULL"@),
            column("completed_at"@, "TEXT"@),
        ],
        key: ""@,
    }
}

/// The table `task_queue`.
fn create_task_queue() -> (r: MigrationStep)
    ensures
        r@ == task_queue_table(),
{
    let mut columns: Vec<Column> = Vec::new();
    columns.push(new_column("id", "TEXT PRIMARY KEY"));
    columns.push(new_column("agent_id", "TEXT NOT NULL"));
    columns.push(new_column("task_type", "TEXT NOT NULL"));
    columns.push(new_column("payload", "BLOB NOT NULL"));
    columns.push(new_column_with("status", "TEXT NOT NULL", "'pending'"));
    columns.push(new_column_with("priority", "INTEGER NOT NULL", "0"));
    columns.push(new_column("scheduled_at", "TEXT"));
    columns.push(new_column("created_at", "TEXT NOT NULL"));
    columns.push(new_column("completed_at", "TEXT"));
    let r = MigrationStep::CreateTable {
        table: "task_queue".to_string(),
        columns,
        key: "".to_string(),
    };
    assert(r@->CreateTable_columns =~= task_queue_table()->CreateTable_columns);
    r
}

/// The table `memories`.
pub open spec fn memories_table() -> StepView {
    StepView::CreateTable {
        table: "memories"@,
        columns: seq![
            column("id"@, "TEXT PRIMARY KEY"@),
            column("agent_id"@, "TEXT NOT NULL"@),
            column("content"@, "TEXT NOT NULL"@),
            column("source"@, "TEXT NOT NULL"@),
            column_with("scope"@, "TEXT NOT NULL"@, "'episodic'"@),
            column_with("confidence"@, "REAL NOT NULL"@, "1.0"@),
            column_with("metadata"@, "TEXT NOT NULL"@, "'{}'"@),
            column("created_at"@, "TEXT NOT NULL"@),
            column("accessed_at"@, "TEXT NOT NULL"@),
            column_with("access_count"@, "INTEGER NOT NULL"@, "0"@),
            column_with("deleted"@, "INTEGER NOT NULL"@, "0"@),
        ],
        key: ""@,
    }
}

/// The table `memories`.
fn create_memories() -> (r: MigrationStep)
    ensures
        r@ == memories_table(),
{
    let mut columns: Vec<Column> = Vec::new();
    columns.push(new_column("id", "TEXT PRIMARY KEY"));
    columns.push(new_column("agent_id", "TEXT NOT NULL"));
    columns.push(new_column("content", "TEXT NOT NULL"));
    columns.push(new_column("source", "TEXT NOT NULL"));
    columns.push(new_column_with("scope", "TEXT NOT NULL", "'episodic'"));
    columns.push(new_column_with("confidence", "REAL NOT NULL", "1.0"));
    columns.push(new_column_with("metadata", "TEXT NOT NULL", "'{}'"));
    columns.push(new_column("created_at", "TEXT NOT NULL"));
    columns.push(new_column("accessed_at", "TEXT NOT NULL"));
    columns.push(new_column_with("access_count", "INTEGER NOT NULL", "0"));
    columns.push(new_column_with("deleted", "INTEGER NOT NULL", "0"));
    let r = MigrationStep::CreateTable {
        table: "memories".to_string(),
        columns,
        key: "".to_string(),
    };
    assert(r@->CreateTable_columns =~= memories_table()->CreateTable_columns);
    r
}

/// The table `entities`.
pub open spec fn entities_table() -> StepView {
    StepView::CreateTable {
        table: "entities"@,
        columns: seq![
            column("id"@, "TEXT PRIMARY KEY"@),
            column("entity_type"@, "TEXT NOT NULL"@),
            column("name"@, "TEXT NOT NULL"@),
            column_with("properties"@, "TEXT NOT NULL"@, "'{}'"@),
            column("created_at"@, "TEXT NOT NULL"@),
            column("updated_at"@, "TEXT NOT NULL"@),
        ],
        key: ""@,
    }
}

/// The table `entities`.
fn create_entities() -> (r: MigrationStep)
    ensures
        r@ == entities_table(),
{
    let mut columns: Vec<Column> = Vec::new();
    columns.push(new_column("id", "TEXT PRIMARY KEY"));
    columns.push(new_column("entity_type", "TEXT NOT NULL"));
    columns.push(new_column("name", "TEXT NOT NULL"));
    columns.push(new_column_with("properties", "TEXT NOT NULL", "'{}'"));
    columns.push(new_column("created_at", "TEXT NOT NULL"));
    columns.push(new_column("updated_at", "TEXT NOT NULL"));
    let r = MigrationStep::CreateTable {
        table: "entities".to_string(),
        columns,
        key: "".to_string(),
    };
    assert(r@->CreateTable_columns =~= entities_table()->CreateTable_columns);
    r
}

/// The table `relations`.
pub open spec fn relations_table() -> StepView {
    StepView::CreateTable {
        table: "relations"@,
        columns: seq![
            column("id"@, "TEXT PRIMARY KEY"@),
            column("source_entity"@, "TEXT NOT NULL"@),
            column("relation_type"@, "TEXT NOT NULL"@),
            column("target_entity"@, "TEXT NOT NULL"@),
            column_with("properties"@, "TEXT NOT NULL"@, "'{}'"@),
            column_with("confidence"@, "REAL NOT NULL"@, "1.0"@),
            column("created_at"@, "TEXT NOT NULL"@),
        ],
        key: ""@,
    }
}

/// The table `relations`.
fn create_relations() -> (r: MigrationStep)
    ensures
        r@ == relations_table(),
{
    let mut columns: Vec<Column> = Vec::new();
    columns.push(new_column("id", "TEXT PRIMARY KEY"));
    columns.push(new_column("source_entity", "TEXT NOT NULL"));
    columns.push(new_column("relation_type", "TEXT NOT NULL"));
    columns.push(new_column("target_entity", "TEXT NOT NULL"));
    columns.push(new_column_with("properties", "TEXT NOT NULL", "'{}'"));
    columns.push(new_column_with("confidence", "REAL NOT NULL", "1.0"));
    columns.push(new_column("created_at", "TEXT NOT NULL"));
    let r = MigrationStep::CreateTable {
        table: "relations".to_string(),
        columns,
        key: "".to_string(),
    };
    assert(r@->CreateTable_columns =~= relations_table()->CreateTable_columns);
    r
}

/// The table `migrations`.
pub open spec fn migrations_table() -> StepView {
    StepView::CreateTable {
        table: "migrations"@,
        columns: seq![
            column("version"@, "INTEGER PRIMARY KEY"@),
            column("applied_at"@, "TEXT NOT NULL"@),
            column("description"@, "TEXT"@),
        ],
        key: ""@,
    }
}

/// The table `migrations`.
fn create_migrations() -> (r: MigrationStep)
    ensures
        r@ == migrations_table(),
{
    let mut columns: Vec<Column> = Vec::new();
    columns.push(new_column("version", "INTEGER PRIMARY KEY"));
    columns.push(new_column("applied_at", "TEXT NOT NULL"));
    columns.push(new_column("description", "TEXT"));
    let r = MigrationStep::CreateTable {
        table: "migrations".to_string(),
        columns,
        key: "".to_string(),
    };
    assert(r@->CreateTable_columns =~= migrations_table()->CreateTable_columns);
    r
}

/// Version 1: Create all core tables.
pub open spec fn version_1() -> Seq<StepView> {
    seq![
        agents_table(),
        sessions_table(),
        events_table(),
        index("idx_events_timestamp"@, "events"@, "timestamp"@),
        index("idx_events_source"@, "events"@, "source_agent"@),
        kv_store_table(),
        task_queue_table(),
        index("idx_task_status_priority"@, "task_queue"@, "status, priority DESC"@),
        memories_table(),
        index("idx_memories_agent"@, "memories"@, "agent_id"@),
        index("idx_memories_scope"@, "memories"@, "scope"@),
        entities_table(),
        relations_table(),
        index("idx_relations_source"@, "relations"@, "source_entity"@),
        index("idx_relations_target"@, "relations"@, "target_entity"@),
        index("idx_relations_type"@, "relations"@, "relation_type"@),
        migrations_table(),
        record(1, "Initial schema"@),
    ]
}

/// Version 1: Create all core tables.
pub fn migrate_v1() -> (r: Vec<MigrationStep>)
    ensures
        views(r@) == version_1(),
{
    let mut steps: Vec<MigrationStep> = Vec::new();
    steps.push(create_agents());
    steps.push(create_sessions());
    steps.push(create_events());
    steps.push(new_index("idx_events_timestamp", "events", "timestamp"));
    steps.push(new_index("idx_events_source", "events", "source_agent"));
    steps.push(create_kv_store());
    steps.push(create_task_queue());
    steps.push(new_index("idx_task_status_priority", "task_queue", "status, priority DESC"));
    steps.push(create_memories());
    steps.push(new_index("idx_memories_agent", "memories", "agent_id"));
    steps.push(new_index("idx_memories_scope", "memories", "scope"));
    steps.push(create_entities());
    steps.push(create_relations());
    steps.push(new_index("idx_relations_source", "relations", "source_entity"));
    steps.push(new_index("idx_relations_target", "relations", "target_entity"));
    steps.push(new_index("idx_relations_type", "relations", "relation_type"));
    steps.push(create_migrations());
    steps.push(new_record(1, "Initial schema"));
    assert(views(steps@) =~= version_1());
    steps
}

/// Version 2: Add collaboration columns to task_queue for agent task delegation.
pub open spec fn version_2() -> Seq<StepView> {
    seq![
        added_column("task_queue"@, column_with("title"@, "TEXT"@, "''"@)),
        added_column("task_queue"@, column_with("description"@, "TEXT"@, "''"@)),
        added_column("task_queue"@, column_with("assigned_to"@, "TEXT"@, "''"@)),
        added_column("task_queue"@, column_with("created_by"@, "TEXT"@, "''"@)),
        added_column("task_queue"@, column_with("result"@, "TEXT"@, "''"@)),
        record(2, "Add collaboration columns to task_queue"@),
    ]
}

/// Version 2: Add collaboration columns to task_queue for agent task delegation.
pub fn migrate_v2() -> (r: Vec<MigrationStep>)
    ensures
        views(r@) == version_2(),
{
    let mut steps: Vec<MigrationStep> = Vec::new();
    steps.push(new_added_column("task_queue", new_column_with("title", "TEXT", "''")));
    steps.push(new_added_column("task_queue", new_column_with("description", "TEXT", "''")));
    steps.push(new_added_column("task_queue", new_column_with("assigned_to", "TEXT", "''")));
    steps.push(new_added_column("task_queue", new_column_with("created_by", "TEXT", "''")));
    steps.push(new_added_column("task_queue", new_column_with("result", "TEXT", "''")));
    steps.push(new_record(2, "Add collaboration columns to task_queue"));
    assert(views(steps@) =~= version_2());
    steps
}

/// Version 3: Add embedding column to memories table for vector search.
pub open spec fn version_3() -> Seq<StepView> {
    seq![
        added_column("memories"@, column_with("embedding"@, "BLOB"@, "NULL"@)),
        record(3, "Add embedding column to memories"@),
    ]
}

/// Version 3: Add embedding column to memories table for vector search.
pub fn migrate_v3() -> (r: Vec<MigrationStep>)
    ensures
        views(r@) == version_3(),
{
    let mut steps: Vec<MigrationStep> = Vec::new();
    steps.push(new_added_column("memories", new_column_with("embedding", "BLOB", "NULL")));
    steps.push(new_record(3, "Add embedding column to memories"));
    assert(views(steps@) =~= version_3());
    steps
}

/// The table `usage_events`.
pub open spec fn usage_events_table() -> StepView {
    StepView::CreateTable {
        table: "usage_events"@,
        columns: seq![
            column("id"@, "TEXT PRIMARY KEY"@),
            column("agent_id"@, "TEXT NOT NULL"@),
            column("timestamp"@, "TEXT NOT NULL"@),
            column("model"@, "TEXT NOT NULL"@),
            column_with("input_tokens"@, "INTEGER NOT NULL"@, "0"@),
            column_with("output_tokens"@, "INTEGER NOT NULL"@, "0"@),
            column_with("cost_usd"@, "REAL NOT NULL"@, "0.0"@),
            column_with("tool_calls"@, "INTEGER NOT NULL"@, "0"@),
        ],
        key: ""@,
    }
}

/// The table `usage_events`.
fn create_usage_events() -> (r: MigrationStep)
    ensures
        r@ == usage_events_table(),
{
    let mut columns: Vec<Column> = Vec::new();
    columns.push(new_column("id", "TEXT PRIMARY KEY"));
    columns.push(new_column("agent_id", "TEXT NOT NULL"));
    columns.push(new_column("timestamp", "TEXT NOT NULL"));
    columns.push(new_column("model", "TEXT NOT NULL"));
    columns.push(new_column_with("input_tokens", "INTEGER NOT NULL", "0"));
    columns.push(new_column_with("output_tokens", "INTEGER NOT NULL", "0"));
    columns.push(new_column_with("cost_usd", "REAL NOT NULL", "0.0"));
    columns.push(new_column_with("tool_calls", "INTEGER NOT NULL", "0"));
    let r = MigrationStep::CreateTable {
        table: "usage_events".to_string(),
        columns,
        key: "".to_string(),
    };
    assert(r@->CreateTable_columns =~= usage_events_table()->CreateTable_columns);
    r
}

/// Version 4: Add usage_events table for cost tracking and metering.
pub open spec fn version_4() -> Seq<StepView> {
    seq![
        usage_events_table(),
        index("idx_usage_agent_time"@, "usage_events"@, "agent_id, timestamp"@),
        index("idx_usage_timestamp"@, "usage_events"@, "timestamp"@),
        record(4, "Add usage_events table for cost tracking"@),
    ]
}

/// Version 4: Add usage_events table for cost tracking and metering.
pub fn migrate_v4() -> (r: Vec<MigrationStep>)
    ensures
        views(r@) == version_4(),
{
    let mut steps: Vec<MigrationStep> = Vec::new();
    steps.push(create_usage_events());
    steps.push(new_index("idx_usage_agent_time", "usage_events", "agent_id, timestamp"));
    steps.push(new_index("idx_usage_timestamp", "usage_events", "timestamp"));
    steps.push(new_record(4, "Add usage_events table for cost tracking"));
    assert(views(steps@) =~= version_4());
    steps
}

/// The table `canonical_sessions`.
pub open spec fn canonical_sessions_table() -> StepView {
    StepView::CreateTable {
        table: "canonical_sessions"@,
        columns: seq![
            column("agent_id"@, "TEXT PRIMARY KEY"@),
            column("messages"@, "BLOB NOT NULL"@),
            column_with("compaction_cursor"@, "INTEGER NOT NULL"@, "0"@),
            column("compacted_summary"@, "TEXT"@),
            column("updated_at"@, "TEXT NOT NULL"@),
        ],
        key: ""@,
    }
}

/// The table `canonical_sessions`.
fn create_canonical_sessions() -> (r: MigrationStep)
    ensures
        r@ == canonical_sessions_table(),
{
    let mut columns: Vec<Column> = Vec::new();
    columns.push(new_column("agent_id", "TEXT PRIMARY KEY"));
    columns.push(new_column("messages", "BLOB NOT NULL"));
    columns.push(new_column_with("compaction_cursor", "INTEGER NOT NULL", "0"));
    columns.push(new_column("compacted_summary", "TEXT"));
    columns.push(new_column("updated_at", "TEXT NOT NULL"));
    let r = MigrationStep::CreateTable {
        table: "canonical_sessions".to_string(),
        columns,
        key: "".to_string(),
    };
    assert(r@->CreateTable_columns =~= canonical_sessions_table()->CreateTable_columns);
    r
}

/// Version 5: Add canonical_sessions table for cross-channel persistent memory.
pub open spec fn version_5() -> Seq<StepView> {
    seq![
        canonical_sessions_table(),
        record(5, "Add canonical_sessions for cross-channel memory"@),
    ]
}

/// Version 5: Add canonical_sessions table for cross-channel persistent memory.
pub fn migrate_v5() -> (r: Vec<MigrationStep>)
    ensures
        views(r@) == version_5(),
{
    let mut steps: Vec<MigrationStep> = Vec::new();
    steps.push(create_canonical_sessions());
    steps.push(new_record(5, "Add canonical_sessions for cross-channel memory"));
    assert(views(steps@) =~= version_5());
    steps
}

/// Version 6: Add label column to sessions table.
pub open spec fn version_6() -> Seq<StepView> {
    seq![
        added_column("sessions"@, column("label"@, "TEXT"@)),
        record(6, "Add label column to sessions for human-readable labels"@),
    ]
}

/// Version 6: Add label column to sessions table.
pub fn migrate_v6() -> (r: Vec<MigrationStep>)
    ensures
        views(r@) == version_6(),
{
    let mut steps: Vec<MigrationStep> = Vec::new();
    steps.push(new_added_column("sessions", new_column("label", "TEXT")));
    steps.push(new_record(6, "Add label column to sessions for human-readable labels"));
    assert(views(steps@) =~= version_6());
    steps
}

/// The table `paired_devices`.
pub open spec fn paired_devices_table() -> StepView {
    StepView::CreateTable {
        table: "paired_devices"@,
        columns: seq![
            column("device_id"@, "TEXT PRIMARY KEY"@),
            column("display_name"@, "TEXT NOT NULL"@),
            column("platform"@, "TEXT NOT NULL"@),
            column("paired_at"@, "TEXT NOT NULL"@),
            column("last_seen"@, "TEXT NOT NULL"@),
            column("push_token"@, "TEXT"@),
        ],
        key: ""@,
    }
}

/// The table `paired_devices`.
fn create_paired_devices() -> (r: MigrationStep)
    ensures
        r@ == paired_devices_table(),
{
    let mut columns: Vec<Column> = Vec::new();
    columns.push(new_column("device_id", "TEXT PRIMARY KEY"));
    columns.push(new_column("display_name", "TEXT NOT NULL"));
    columns.push(new_column("platform", "TEXT NOT NULL"));
    columns.push(new_column("paired_at", "TEXT NOT NULL"));
    columns.push(new_column("last_seen", "TEXT NOT NULL"));
    columns.push(new_column("push_token", "TEXT"));
    let r = MigrationStep::CreateTable {
        table: "paired_devices".to_string(),
        columns,
        key: "".to_string(),
    };
    assert(r@->CreateTable_columns =~= paired_devices_table()->CreateTable_columns);
    r
}

/// Version 7: Add paired_devices table for device pairing persistence.
pub open spec fn version_7() -> Seq<StepView> {
    seq![
        paired_devices_table(),
        record(7, "Add paired_devices table for device pairing"@),
    ]
}

/// Version 7: Add paired_devices table for device pairing persistence.
pub fn migrate_v7() -> (r: Vec<MigrationStep>)
    ensures
        views(r@) == version_7(),
{
    let mut steps: Vec<MigrationStep> = Vec::new();
    steps.push(create_paired_devices());
    steps.push(new_record(7, "Add paired_devices table for device pairing"));
    assert(views(steps@) =~= version_7());
    steps
}

/// The table `audit_entries`.
pub open spec fn audit_entries_table() -> StepView {
    StepView::CreateTable {
        table: "audit_entries"@,
        columns: seq![
            column("seq"@, "INTEGER PRIMARY KEY"@),
            column("timestamp"@, "TEXT NOT NULL"@),
            column("agent_id"@, "TEXT NOT NULL"@),
            column("action"@, "TEXT NOT NULL"@),
            column("detail"@, "TEXT NOT NULL"@),
            column("outcome"@, "TEXT NOT NULL"@),
            column("prev_hash"@, "TEXT NOT NULL"@),
            column("hash"@, "TEXT NOT NULL"@),
        ],
        key: ""@,
    }
}

/// The table `audit_entries`.
fn create_audit_entries() -> (r: MigrationStep)
    ensures
        r@ == audit_entries_table(),
{
    let mut columns: Vec<Column> = Vec::new();
    columns.push(new_column("seq", "INTEGER PRIMARY KEY"));
    columns.push(new_column("timestamp", "TEXT NOT NULL"));
    columns.push(new_column("agent_id", "TEXT NOT NULL"));
    columns.push(new_column("action", "TEXT NOT NULL"));
    columns.push(new_column("detail", "TEXT NOT NULL"));
    columns.push(new_column("outcome", "TEXT NOT NULL"));
    columns.push(new_column("prev_hash", "TEXT NOT NULL"));
    columns.push(new_column("hash", "TEXT NOT NULL"));
    let r = MigrationStep::CreateTable {
        table: "audit_entries".to_string(),
        columns,
        key: "".to_string(),
    };
    assert(r@->CreateTable_columns =~= audit_entries_table()->CreateTable_columns);
    r
}

/// Version 8: Add audit_entries table for persistent Merkle audit trail.
pub open spec fn version_8() -> Seq<StepView> {
    seq![
        audit_entries_table(),
        index("idx_audit_agent"@, "audit_entries"@, "agent_id"@),
        index("idx_audit_timestamp"@, "audit_entries"@, "timestamp"@),
        index("idx_audit_action"@, "audit_entries"@, "action"@),
        record(8, "Add audit_entries table for persistent Merkle audit trail"@),
    ]
}

/// Version 8: Add audit_entries table for persistent Merkle audit trail.
pub fn migrate_v8() -> (r: Vec<MigrationStep>)
    ensures
        views(r@) == version_8(),
{
    let mut steps: Vec<MigrationStep> = Vec::new();
    steps.push(create_audit_entries());
    steps.push(new_index("idx_audit_agent", "audit_entries", "agent_id"));
    steps.push(new_index("idx_audit_timestamp", "audit_entries", "timestamp"));
    steps.push(new_index("idx_audit_action", "audit_entries", "action"));
    steps.push(new_record(8, "Add audit_entries table for persistent Merkle audit trail"));
    assert(views(steps@) =~= version_8());
    steps
}

/// Version 9: Tag every session with a user and a parent-session link.
///
/// - `user_id`: the owning user. Rows from before have the nil UUID, which is rewritten to the
///   default user on first boot after the upgrade.
/// - `parent_session_id`: set when a session is forked off another.
///
/// The indexes keep the per-user lookups and child-session fan-out cheap.
pub open spec fn version_9() -> Seq<StepView> {
    seq![
        added_column("sessions"@, column_with("user_id"@, "TEXT NOT NULL"@, "'00000000-0000-0000-0000-000000000000'"@)),
        added_column("sessions"@, column("parent_session_id"@, "TEXT"@)),
        index("idx_sessions_user"@, "sessions"@, "agent_id, user_id"@),
        index("idx_sessions_parent"@, "sessions"@, "parent_session_id"@),
        record(9, "Tag sessions with user_id and parent_session_id"@),
    ]
}

/// Version 9: Tag every session with a user and a parent-session link.
pub fn migrate_v9() -> (r: Vec<MigrationStep>)
    ensures
        views(r@) == version_9(),
{
    let mut steps: Vec<MigrationStep> = Vec::new();
    steps.push(new_added_column("sessions", new_column_with("user_id", "TEXT NOT NULL", "'00000000-0000-0000-0000-000000000000'")));
    steps.push(new_added_column("sessions", new_column("parent_session_id", "TEXT")));
    steps.push(new_index("idx_sessions_user", "sessions", "agent_id, user_id"));
    steps.push(new_index("idx_sessions_parent", "sessions", "parent_session_id"));
    steps.push(new_record(9, "Tag sessions with user_id and parent_session_id"));
    assert(views(steps@) =~= version_9());
    steps
}

/// The table `session_extractions`.
pub open spec fn session_extractions_table() -> StepView {
    StepView::CreateTable {
        table: "session_extractions"@,
        columns: seq![
            column("id"@, "TEXT PRIMARY KEY"@),
            column("session_id"@, "TEXT NOT NULL"@),
            column_with("user_id"@, "TEXT NOT NULL"@, "'00000000-0000-0000-0000-000000000000'"@),
            column_with("agent_id"@, "TEXT NOT NULL"@, "'00000000-0000-0000-0000-000000000000'"@),
            column_with("facts"@, "TEXT NOT NULL"@, "'[]'"@),
            column_with("preferences"@, "TEXT NOT NULL"@, "'[]'"@),
            column_with("decisions"@, "TEXT NOT NULL"@, "'[]'"@),
            column_with("tasks"@, "TEXT NOT NULL"@, "'[]'"@),
            column_with("open_items"@, "TEXT NOT NULL"@, "'[]'"@),
            column("created_at"@, "TEXT NOT NULL"@),
        ],
        key: ""@,
    }
}

/// The table `session_extractions`.
fn create_session_extractions() -> (r: MigrationStep)
    ensures
        r@ == session_extractions_table(),
{
    let mut columns: Vec<Column> = Vec::new();
    columns.push(new_column("id", "TEXT PRIMARY KEY"));
    columns.push(new_column("session_id", "TEXT NOT NULL"));
    columns.push(new_column_with("user_id", "TEXT NOT NULL", "'00000000-0000-0000-0000-000000000000'"));
    columns.push(new_column_with("agent_id", "TEXT NOT NULL", "'00000000-0000-0000-0000-000000000000'"));
    columns.push(new_column_with("facts", "TEXT NOT NULL", "'[]'"));
    columns.push(new_column_with("preferences", "TEXT NOT NULL", "'[]'"));
    columns.push(new_column_with("decisions", "TEXT NOT NULL", "'[]'"));
    columns.push(new_column_with("tasks", "TEXT NOT NULL", "'[]'"));
    columns.push(new_column_with("open_items", "TEXT NOT NULL", "'[]'"));
    columns.push(new_column("created_at", "TEXT NOT NULL"));
    let r = MigrationStep::CreateTable {
        table: "session_extractions".to_string(),
        columns,
        key: "".to_string(),
    };
    assert(r@->CreateTable_columns =~= session_extractions_table()->CreateTable_columns);
    r
}

/// The table `user_memory_topics`.
pub open spec fn user_memory_topics_table() -> StepView {
    StepView::CreateTable {
        table: "user_memory_topics"@,
        columns: seq![
            column("user_id"@, "TEXT NOT NULL"@),
            column("topic"@, "TEXT NOT NULL"@),
            column_with("summary"@, "TEXT NOT NULL"@, "''"@),
            column_with("content"@, "TEXT NOT NULL"@, "''"@),
            column("updated_at"@, "TEXT NOT NULL"@),
            column_with("expires_at"@, "TEXT"@, "NULL"@),
            column_with("embedding"@, "BLOB"@, "NULL"@),
        ],
        key: "user_id, topic"@,
    }
}

/// The table `user_memory_topics`.
fn create_user_memory_topics() -> (r: MigrationStep)
    ensures
        r@ == user_memory_topics_table(),
{
    let mut columns: Vec<Column> = Vec::new();
    columns.push(new_column("user_id", "TEXT NOT NULL"));
    columns.push(new_column("topic", "TEXT NOT NULL"));
    columns.push(new_column_with("summary", "TEXT NOT NULL", "''"));
    columns.push(new_column_with("content", "TEXT NOT NULL", "''"));
    columns.push(new_column("updated_at", "TEXT NOT NULL"));
    columns.push(new_column_with("expires_at", "TEXT", "NULL"));
    columns.push(new_column_with("embedding", "BLOB", "NULL"));
    let r = MigrationStep::CreateTable {
        table: "user_memory_topics".to_string(),
        columns,
        key: "user_id, topic".to_string(),
    };
    assert(r@->CreateTable_columns =~= user_memory_topics_table()->CreateTable_columns);
    r
}

/// The table `user_agent_memory_topics`.
pub open spec fn user_agent_memory_topics_table() -> StepView {
    StepView::CreateTable {
        table: "user_agent_memory_topics"@,
        columns: seq![
            column("user_id"@, "TEXT NOT NULL"@),
            column("agent_id"@, "TEXT NOT NULL"@),
            column("topic"@, "TEXT NOT NULL"@),
            column_with("summary"@, "TEXT NOT NULL"@, "''"@),
            column_with("content"@, "TEXT NOT NULL"@, "''"@),
            column("updated_at"@, "TEXT NOT NULL"@),
        ],
        key: "user_id, agent_id, topic"@,
    }
}

/// The table `user_agent_memory_topics`.
fn create_user_agent_memory_topics() -> (r: MigrationStep)
    ensures
        r@ == user_agent_memory_topics_table(),
{
    let mut columns: Vec<Column> = Vec::new();
    columns.push(new_column("user_id", "TEXT NOT NULL"));
    columns.push(new_column("agent_id", "TEXT NOT NULL"));
    columns.push(new_column("topic", "TEXT NOT NULL"));
    columns.push(new_column_with("summary", "TEXT NOT NULL", "''"));
    columns.push(new_column_with("content", "TEXT NOT NULL", "''"));
    columns.push(new_column("updated_at", "TEXT NOT NULL"));
    let r = MigrationStep::CreateTable {
        table: "user_agent_memory_topics".to_string(),
        columns,
        key: "user_id, agent_id, topic".to_string(),
    };
    assert(r@->CreateTable_columns =~= user_agent_memory_topics_table()->CreateTable_columns);
    r
}

/// Version 10: Structured-memory storage tables.
///
/// - `session_extractions` carries the user and the agent on the row, so that audit attribution
///   survives a session delete.
/// - `user_memory_topics` has `expires_at` (expired rows are invisible at read time) and
///   `embedding` (packed little-endian numbers), which may be absent.
/// - `user_agent_memory_topics` is the per-(user, agent) sibling of `user_memory_topics`.
pub open spec fn version_10() -> Seq<StepView> {
    seq![
        session_extractions_table(),
        index("idx_extractions_session"@, "session_extractions"@, "session_id"@),
        index("idx_extractions_user_created"@, "session_extractions"@, "user_id, created_at"@),
        user_memory_topics_table(),
        index("idx_user_memory_user"@, "user_memory_topics"@, "user_id"@),
        user_agent_memory_topics_table(),
        index("idx_user_agent_memory"@, "user_agent_memory_topics"@, "user_id, agent_id"@),
        record(10, "Structured memory storage tables (session_extractions, user_memory_topics, user_agent_memory_topics)"@),
    ]
}

/// Version 10: Structured-memory storage tables.
pub fn migrate_v10() -> (r: Vec<MigrationStep>)
    ensures
        views(r@) == version_10(),
{
    let mut steps: Vec<MigrationStep> = Vec::new();
    steps.push(create_session_extractions());
    steps.push(new_index("idx_extractions_session", "session_extractions", "session_id"));
    steps.push(new_index("idx_extractions_user_created", "session_extractions", "user_id, created_at"));
    steps.push(create_user_memory_topics());
    steps.push(new_index("idx_user_memory_user", "user_memory_topics", "user_id"));
    steps.push(create_user_agent_memory_topics());
    steps.push(new_index("idx_user_agent_memory", "user_agent_memory_topics", "user_id, agent_id"));
    steps.push(new_record(10, "Structured memory storage tables (session_extractions, user_memory_topics, user_agent_memory_topics)"));
    assert(views(steps@) =~= version_10());
    steps
}

} // verus!
