//! Laws of the migrated schema: the keys of the tables, and what they mean for the rows.

use crate::memory::devices::{device_key, DeviceView};
use crate::memory::kv::{kv_key, KvView};
use crate::memory::migration::{
    creates, lemma_step_of_version, migrated_is_current, performed, plan, provides, satisfied,
    steps_between, version_steps, SCHEMA_VERSION, Row, Schema,
};
use crate::memory::schema::{
    agents_table, audit_entries_table, canonical_sessions_table, comma, entities_table,
    events_table, is_key, key_columns, kv_store_table, listed_names, memories_table,
    migrations_table, paired_devices_table, relations_table, session_extractions_table,
    sessions_table, task_queue_table, usage_events_table, user_agent_memory_topics_table,
    user_memory_topics_table, ColumnView, StepView,
};
use crate::memory::task_queue::{task_key, QueuedTaskView};
use crate::memory::user_agent_memory::{agent_topic_key, AgentTopicView};
use crate::memory::user_memory::{topic_key, TopicRowView};
use crate::text::has_suffix;
use vstd::prelude::*;

verus! {

/// Whether two rows of a table have the same key: the same value in each column of the primary
/// key.
pub open spec fn collide(schema: Schema, table: Seq<char>, a: Row, b: Row) -> bool {
    &&& schema.keys[table].len() > 0
    &&& forall|i: int|
        0 <= i < schema.keys[table].len() ==> a[#[trigger] schema.keys[table][i]]
            == b[schema.keys[table][i]]
}

/// The database after a row was written to a table: it takes the place of the one with its key.
pub open spec fn with_row(schema: Schema, table: Seq<char>, row: Row) -> Schema {
    Schema {
        rows: schema.rows.insert(
            table,
            schema.rows[table].filter(|r: Row| !collide(schema, table, r, row)).push(row),
        ),
        ..schema
    }
}

/// Writing a row keeps every row with another key.
pub proof fn writing_keeps_other_keys(schema: Schema, table: Seq<char>, row: Row, other: Row)
    ensures
        with_row(schema, table, row).rows[table].contains(row),
        schema.rows[table].contains(other) && !collide(schema, table, other, row) ==> with_row(
            schema,
            table,
            row,
        ).rows[table].contains(other),
        with_row(schema, table, row).rows[table].contains(other) ==> other == row || (
        schema.rows[table].contains(other) && !collide(schema, table, other, row)),
{
    broadcast use vstd::seq_lib::group_filter_ensures;

    let keep = |r: Row| !collide(schema, table, r, row);
    let kept = schema.rows[table].filter(keep);
    let now = with_row(schema, table, row).rows[table];
    assert(now == kept.push(row));
    assert(now[kept.len() as int] == row);
    if schema.rows[table].contains(other) && keep(other) {
        let i = choose|i: int|
            0 <= i < schema.rows[table].len() && schema.rows[table][i] == other;
        assert(kept.contains(schema.rows[table][i]));
        let k = choose|k: int| 0 <= k < kept.len() && kept[k] == other;
        assert(now[k] == other);
    }
    if now.contains(other) && other != row {
        let k = choose|k: int| 0 <= k < now.len() && now[k] == other;
        assert(kept[k] == other);
        assert(kept.contains(other));
        schema.rows[table].lemma_filter_contains_rev(keep, other);
        assert(keep(kept[k]));
    }
}

/// A list goes on behind a comma and a blank.
proof fn lemma_listed(name: Seq<char>, rest: Seq<char>)
    requires
        forall|i: int| 0 <= i < name.len() ==> #[trigger] name[i] != ',',
        name.len() > 0,
    ensures
        listed_names(name) == seq![name],
        listed_names(name + ", "@ + rest) == seq![name] + listed_names(rest),
{
    reveal_strlit(", ");
    assert(", "@.len() == 2 && ", "@[0] == ',');
    lemma_comma(name, Seq::empty());
    assert(name + Seq::<char>::empty() =~= name);
    let list = name + ", "@ + rest;
    assert(list =~= name + (", "@ + rest));
    lemma_comma(name, ", "@ + rest);
    assert((", "@ + rest)[0] == ',');
    assert(comma(", "@ + rest) == 0);
    assert(list.take(name.len() as int) =~= name);
    assert(list.skip(name.len() as int + 2) =~= rest);
}

/// A text without a comma has none.
proof fn lemma_comma(name: Seq<char>, rest: Seq<char>)
    requires
        forall|i: int| 0 <= i < name.len() ==> #[trigger] name[i] != ',',
    ensures
        comma(name + rest) == name.len() + comma(rest),
    decreases name.len(),
{
    if name.len() > 0 {
        assert((name + rest)[0] == name[0]);
        assert((name + rest).skip(1) =~= name.skip(1) + rest);
        assert forall|i: int| 0 <= i < name.skip(1).len() implies #[trigger] name.skip(1)[i]
            != ',' by {
            assert(name.skip(1)[i] == name[i + 1]);
        }
        lemma_comma(name.skip(1), rest);
    } else {
        assert(name + rest =~= rest);
    }
}

/// Of columns of which only the first is declared to be the key, the first is the key.
proof fn lemma_first_is_key(columns: Seq<ColumnView>)
    requires
        columns.len() > 0,
        is_key(columns[0]),
        forall|i: int| 0 < i < columns.len() ==> !is_key(#[trigger] columns[i]),
    ensures
        key_columns(columns, ""@) == seq![columns[0].name],
    decreases columns.len(),
{
    reveal_strlit("");
    reveal(Seq::filter);
    let pick = |c: ColumnView| is_key(c);
    let front = columns.drop_last();
    assert(""@.len() == 0);
    if columns.len() > 1 {
        lemma_first_is_key(front);
        assert(!is_key(columns[columns.len() - 1]));
        assert(columns.filter(pick) == front.filter(pick));
    } else {
        assert(front =~= Seq::empty());
        assert(front.filter(pick) =~= Seq::empty());
        assert(columns.filter(pick) =~= seq![columns[0]]);
        assert(key_columns(columns, ""@) =~= seq![columns[0].name]);
    }
}

/// The kinds of columns that are declared to be the key, and those that are not.
proof fn lemma_kinds(column: ColumnView)
    ensures
        column.kind == "TEXT PRIMARY KEY"@ || column.kind == "INTEGER PRIMARY KEY"@ ==> is_key(
            column,
        ),
        column.kind == "TEXT NOT NULL"@ || column.kind == "BLOB NOT NULL"@ || column.kind
            == "INTEGER NOT NULL"@ || column.kind == "REAL NOT NULL"@ || column.kind == "TEXT"@
            || column.kind == "BLOB"@ || column.kind == "INTEGER"@ ==> !is_key(column),
{
    reveal_strlit("TEXT PRIMARY KEY");
    reveal_strlit("INTEGER PRIMARY KEY");
    reveal_strlit("TEXT NOT NULL");
    reveal_strlit("BLOB NOT NULL");
    reveal_strlit("INTEGER NOT NULL");
    reveal_strlit("REAL NOT NULL");
    reveal_strlit("TEXT");
    reveal_strlit("BLOB");
    reveal_strlit("INTEGER");
    reveal_strlit(" PRIMARY KEY");
    let suffix = " PRIMARY KEY"@;
    let kind = column.kind;
    assert(suffix.len() == 12 && suffix[11] == 'Y');
    assert("TEXT PRIMARY KEY"@.len() == 16 && "INTEGER PRIMARY KEY"@.len() == 19);
    assert("TEXT PRIMARY KEY"@.skip(4) =~= suffix);
    assert("INTEGER PRIMARY KEY"@.skip(7) =~= suffix);
    assert("TEXT NOT NULL"@.len() == 13 && "BLOB NOT NULL"@.len() == 13);
    assert("INTEGER NOT NULL"@.len() == 16 && "REAL NOT NULL"@.len() == 13);
    assert("TEXT"@.len() == 4 && "BLOB"@.len() == 4 && "INTEGER"@.len() == 7);
    assert("TEXT NOT NULL"@[12] == 'L' && "BLOB NOT NULL"@[12] == 'L');
    assert("INTEGER NOT NULL"@[15] == 'L' && "REAL NOT NULL"@[12] == 'L');
    if has_suffix(kind, suffix) {
        assert(kind.skip(kind.len() - 12)[11] == kind[kind.len() - 1]);
    }
}

/// Which step of the plan creates a table.
spec fn maker(table: Seq<char>) -> Option<StepView> {
    if table == "kv_store"@ {
        Some(kv_store_table())
    } else if table == "task_queue"@ {
        Some(task_queue_table())
    } else if table == "sessions"@ {
        Some(sessions_table())
    } else if table == "session_extractions"@ {
        Some(session_extractions_table())
    } else if table == "user_memory_topics"@ {
        Some(user_memory_topics_table())
    } else if table == "user_agent_memory_topics"@ {
        Some(user_agent_memory_topics_table())
    } else if table == "paired_devices"@ {
        Some(paired_devices_table())
    } else {
        None
    }
}

/// No other step creates the table of a store.
#[verifier::rlimit(60)]
proof fn lemma_maker(version: int, i: int, table: Seq<char>)
    requires
        0 <= i < version_steps(version).len(),
        creates(version_steps(version)[i], table),
        maker(table) is Some,
    ensures
        Some(version_steps(version)[i]) == maker(table),
{
    lemma_table_names();
    let n = table_names();
    assert(n[0] == "agents"@ && n[1] == "sessions"@ && n[2] == "events"@ && n[3] == "kv_store"@);
    assert(n[4] == "task_queue"@ && n[5] == "memories"@ && n[6] == "entities"@);
    assert(n[7] == "relations"@ && n[8] == "migrations"@ && n[9] == "usage_events"@);
    assert(n[10] == "canonical_sessions"@ && n[11] == "paired_devices"@);
    assert(n[12] == "audit_entries"@ && n[13] == "session_extractions"@);
    assert(n[14] == "user_memory_topics"@ && n[15] == "user_agent_memory_topics"@);
    let step = version_steps(version)[i];
    assert(step == agents_table() || step == sessions_table() || step == events_table() || step
        == kv_store_table() || step == task_queue_table() || step == memories_table() || step
        == entities_table() || step == relations_table() || step == migrations_table() || step
        == usage_events_table() || step == canonical_sessions_table() || step
        == paired_devices_table() || step == audit_entries_table() || step
        == session_extractions_table() || step == user_memory_topics_table() || step
        == user_agent_memory_topics_table());
}

/// The tables of the stores have names of their own.
proof fn lemma_table_names()
    ensures
        forall|i: int, j: int|
            0 <= i < j < 16 ==> #[trigger] table_names()[i] != #[trigger] table_names()[j],
{
    reveal_strlit("agents");
    reveal_strlit("sessions");
    reveal_strlit("events");
    reveal_strlit("kv_store");
    reveal_strlit("task_queue");
    reveal_strlit("memories");
    reveal_strlit("entities");
    reveal_strlit("relations");
    reveal_strlit("migrations");
    reveal_strlit("usage_events");
    reveal_strlit("canonical_sessions");
    reveal_strlit("paired_devices");
    reveal_strlit("audit_entries");
    reveal_strlit("session_extractions");
    reveal_strlit("user_memory_topics");
    reveal_strlit("user_agent_memory_topics");
    assert("agents"@.len() == 6 && "events"@.len() == 6);
    assert("agents"@[0] == 'a' && "events"@[0] == 'e');
    assert("sessions"@.len() == 8 && "kv_store"@.len() == 8 && "memories"@.len() == 8);
    assert("entities"@.len() == 8 && "relations"@.len() == 9);
    assert("sessions"@[0] == 's' && "kv_store"@[0] == 'k' && "memories"@[0] == 'm');
    assert("entities"@[0] == 'e');
    assert("task_queue"@.len() == 10 && "migrations"@.len() == 10);
    assert("task_queue"@[0] == 't' && "migrations"@[0] == 'm');
    assert("usage_events"@.len() == 12 && "audit_entries"@.len() == 13);
    assert("paired_devices"@.len() == 14 && "session_extractions"@.len() == 19);
    assert("canonical_sessions"@.len() == 18 && "user_memory_topics"@.len() == 18);
    assert("canonical_sessions"@[0] == 'c' && "user_memory_topics"@[0] == 'u');
    assert("user_agent_memory_topics"@.len() == 24);
}

/// The names of the tables.
spec fn table_names() -> Seq<Seq<char>> {
    seq![
        "agents"@,
        "sessions"@,
        "events"@,
        "kv_store"@,
        "task_queue"@,
        "memories"@,
        "entities"@,
        "relations"@,
        "migrations"@,
        "usage_events"@,
        "canonical_sessions"@,
        "paired_devices"@,
        "audit_entries"@,
        "session_extractions"@,
        "user_memory_topics"@,
        "user_agent_memory_topics"@,
    ]
}

/// A table that steps create has the key of the step that creates it, and keeps it.
proof fn lemma_key_of_table(
    schema: Schema,
    steps: Seq<StepView>,
    table: Seq<char>,
    columns: Seq<ColumnView>,
    key: Seq<char>,
)
    requires
        !schema.tables.contains_key(table),
        forall|i: int|
            0 <= i < steps.len() && creates(#[trigger] steps[i], table) ==> steps[i] == (
            StepView::CreateTable { table, columns, key }),
    ensures
        performed(schema, steps).tables.contains_key(table) ==> performed(schema, steps).keys[table]
            == key_columns(columns, key),
    decreases steps.len(),
{
    if steps.len() > 0 {
        let front = steps.drop_last();
        assert forall|i: int| 0 <= i < front.len() && creates(
            #[trigger] front[i],
            table,
        ) implies front[i] == (StepView::CreateTable { table, columns, key }) by {
            assert(front[i] == steps[i]);
        }
        lemma_key_of_table(schema, front, table, columns, key);
        let last = steps[steps.len() - 1];
        assert(creates(last, table) ==> last == (StepView::CreateTable { table, columns, key }));
        if let StepView::CreateTable { table: t, .. } = last {
            assert(creates(last, t));
        }
    }
}

/// The key of a table of a store in a database that a migration gave the table.
proof fn lemma_store_key(schema: Schema, current: u32, table: Seq<char>)
    requires
        current <= SCHEMA_VERSION,
        provides(schema, current as int),
        !schema.tables.contains_key(table),
        maker(table) is Some,
        exists|v: int, i: int|
            0 < v <= 10 && 0 <= i < version_steps(v).len() && creates(
                #[trigger] version_steps(v)[i],
                table,
            ),
    ensures
        maker(table) matches Some(StepView::CreateTable { columns, key, .. }) && performed(
            schema,
            plan(current),
        ).keys[table] == key_columns(columns, key),
        performed(schema, plan(current)).tables.contains_key(table),
{
    migrated_is_current(schema, current);
    let after = performed(schema, plan(current));
    let (v, i) = choose|v: int, i: int|
        0 < v <= 10 && 0 <= i < version_steps(v).len() && creates(
            #[trigger] version_steps(v)[i],
            table,
        );
    assert(satisfied(after, version_steps(v)[i]));
    lemma_maker(v, i, table);
    let made = maker(table)->0;
    let columns = made->CreateTable_columns;
    let key = made->CreateTable_key;
    let steps = plan(current);
    let between = steps_between(current as int, SCHEMA_VERSION as int);
    assert forall|k: int| 0 <= k < steps.len() && creates(#[trigger] steps[k], table) implies steps[k]
        == (StepView::CreateTable { table, columns, key }) by {
        assert(k < between.len());
        assert(steps[k] == between[k]);
        let at = lemma_step_of_version(current as int, SCHEMA_VERSION as int, k);
        lemma_maker(at.0, at.1, table);
    }
    lemma_key_of_table(schema, steps, table, columns, key);
}

/// Two rows of the topics of users and agents have the same key exactly if they have the same
/// user, the same agent and the same topic: whatever database was migrated, if it did not have
/// the table before.
pub proof fn agent_topics_collide_by_user_agent_topic(
    schema: Schema,
    current: u32,
    a: Row,
    b: Row,
)
    requires
        current <= SCHEMA_VERSION,
        provides(schema, current as int),
        !schema.tables.contains_key("user_agent_memory_topics"@),
    ensures
        collide(performed(schema, plan(current)), "user_agent_memory_topics"@, a, b) <==> a[
        "user_id"@] == b["user_id"@] && a["agent_id"@] == b["agent_id"@] && a["topic"@]
            == b["topic"@],
{
    let table = "user_agent_memory_topics"@;
    lemma_table_names();
    assert(table_names()[3] == "kv_store"@ && table_names()[15] == table);
    assert(table_names()[4] == "task_queue"@ && table_names()[1] == "sessions"@);
    assert(table_names()[13] == "session_extractions"@);
    assert(table_names()[14] == "user_memory_topics"@);
    assert(creates(version_steps(10)[5], table));
    lemma_store_key(schema, current, table);
    lemma_pair_key();
    let after = performed(schema, plan(current));
    let names = seq!["user_id"@, "agent_id"@, "topic"@];
    assert(after.keys[table] == names);
    assert(names[0] == "user_id"@ && names[1] == "agent_id"@ && names[2] == "topic"@);
}

/// The key of the topics of users and agents.
proof fn lemma_pair_key()
    ensures
        listed_names("user_id, agent_id, topic"@) == seq!["user_id"@, "agent_id"@, "topic"@],
        listed_names("user_id, topic"@) == seq!["user_id"@, "topic"@],
        listed_names("agent_id, key"@) == seq!["agent_id"@, "key"@],
        "user_id, agent_id, topic"@.len() > 0,
        "user_id, topic"@.len() > 0,
        "agent_id, key"@.len() > 0,
{
    reveal_strlit("user_id, agent_id, topic");
    reveal_strlit("user_id, topic");
    reveal_strlit("agent_id, key");
    reveal_strlit("user_id");
    reveal_strlit("agent_id");
    reveal_strlit("topic");
    reveal_strlit("key");
    reveal_strlit(", ");
    let sep = ", "@;
    assert("user_id, agent_id, topic"@ =~= "user_id"@ + sep + ("agent_id"@ + sep + "topic"@));
    assert("user_id, topic"@ =~= "user_id"@ + sep + "topic"@);
    assert("agent_id, key"@ =~= "agent_id"@ + sep + "key"@);
    lemma_listed("user_id"@, "agent_id"@ + sep + "topic"@);
    lemma_listed("user_id"@, "topic"@);
    lemma_listed("agent_id"@, "topic"@);
    lemma_listed("agent_id"@, "key"@);
    lemma_listed("topic"@, "topic"@);
    lemma_listed("key"@, "key"@);
    assert(seq!["user_id"@] + (seq!["agent_id"@] + seq!["topic"@]) =~= seq![
        "user_id"@,
        "agent_id"@,
        "topic"@,
    ]);
    assert(seq!["user_id"@] + seq!["topic"@] =~= seq!["user_id"@, "topic"@]);
    assert(seq!["agent_id"@] + seq!["key"@] =~= seq!["agent_id"@, "key"@]);
}

/// Two rows of the topics of users have the same key exactly if they have the same user and the
/// same topic.
pub proof fn topics_collide_by_user_topic(schema: Schema, current: u32, a: Row, b: Row)
    requires
        current <= SCHEMA_VERSION,
        provides(schema, current as int),
        !schema.tables.contains_key("user_memory_topics"@),
    ensures
        collide(performed(schema, plan(current)), "user_memory_topics"@, a, b) <==> a["user_id"@]
            == b["user_id"@] && a["topic"@] == b["topic"@],
{
    let table = "user_memory_topics"@;
    lemma_table_names();
    assert(table_names()[3] == "kv_store"@ && table_names()[14] == table);
    assert(table_names()[4] == "task_queue"@ && table_names()[1] == "sessions"@);
    assert(table_names()[13] == "session_extractions"@);
    assert(creates(version_steps(10)[3], table));
    lemma_store_key(schema, current, table);
    lemma_pair_key();
    let after = performed(schema, plan(current));
    let names = seq!["user_id"@, "topic"@];
    assert(after.keys[table] == names);
    assert(names[0] == "user_id"@ && names[1] == "topic"@);
}

/// Two rows of the key-value store have the same key exactly if they have the same agent and the
/// same name.
pub proof fn values_collide_by_agent_key(schema: Schema, current: u32, a: Row, b: Row)
    requires
        current <= SCHEMA_VERSION,
        provides(schema, current as int),
        !schema.tables.contains_key("kv_store"@),
    ensures
        collide(performed(schema, plan(current)), "kv_store"@, a, b) <==> a["agent_id"@]
            == b["agent_id"@] && a["key"@] == b["key"@],
{
    let table = "kv_store"@;
    assert(creates(version_steps(1)[5], table));
    lemma_store_key(schema, current, table);
    lemma_pair_key();
    let after = performed(schema, plan(current));
    let names = seq!["agent_id"@, "key"@];
    assert(after.keys[table] == names);
    assert(names[0] == "agent_id"@ && names[1] == "key"@);
}

/// The table of a store whose rows have one column as their key.
proof fn lemma_single_key(schema: Schema, current: u32, table: Seq<char>, name: Seq<char>)
    requires
        current <= SCHEMA_VERSION,
        provides(schema, current as int),
        !schema.tables.contains_key(table),
        exists|v: int, i: int|
            0 < v <= 10 && 0 <= i < version_steps(v).len() && creates(
                #[trigger] version_steps(v)[i],
                table,
            ),
        maker(table) matches Some(StepView::CreateTable { columns, key, .. }) && key == ""@
            && columns.len() > 0 && is_key(columns[0]) && columns[0].name == name && forall|i: int|
            0 < i < columns.len() ==> !is_key(#[trigger] columns[i]),
    ensures
        performed(schema, plan(current)).keys[table] == seq![name],
{
    lemma_store_key(schema, current, table);
    lemma_first_is_key(maker(table)->0->CreateTable_columns);
}

/// Two tasks, two sessions or two extractions have the same key exactly if they have the same id,
/// and two devices if they have the same device id.
#[verifier::rlimit(60)]
pub proof fn others_collide_by_id(schema: Schema, current: u32, a: Row, b: Row)
    requires
        current <= SCHEMA_VERSION,
        provides(schema, current as int),
    ensures
        !schema.tables.contains_key("task_queue"@) ==> (collide(
            performed(schema, plan(current)),
            "task_queue"@,
            a,
            b,
        ) <==> a["id"@] == b["id"@]),
        !schema.tables.contains_key("sessions"@) ==> (collide(
            performed(schema, plan(current)),
            "sessions"@,
            a,
            b,
        ) <==> a["id"@] == b["id"@]),
        !schema.tables.contains_key("session_extractions"@) ==> (collide(
            performed(schema, plan(current)),
            "session_extractions"@,
            a,
            b,
        ) <==> a["id"@] == b["id"@]),
        !schema.tables.contains_key("paired_devices"@) ==> (collide(
            performed(schema, plan(current)),
            "paired_devices"@,
            a,
            b,
        ) <==> a["device_id"@] == b["device_id"@]),
{
    let n = table_names();
    lemma_table_names();
    assert(n[3] == "kv_store"@ && n[4] == "task_queue"@ && n[1] == "sessions"@);
    assert(n[13] == "session_extractions"@ && n[14] == "user_memory_topics"@);
    assert(n[15] == "user_agent_memory_topics"@ && n[11] == "paired_devices"@);
    assert forall|c: ColumnView| true implies {
        &&& c.kind == "TEXT PRIMARY KEY"@ ==> #[trigger] is_key(c)
        &&& c.kind == "TEXT NOT NULL"@ || c.kind == "BLOB NOT NULL"@ || c.kind
            == "INTEGER NOT NULL"@ || c.kind == "TEXT"@ || c.kind == "INTEGER"@ ==> !is_key(c)
    } by {
        lemma_kinds(c);
    }
    let after = performed(schema, plan(current));
    let one = seq!["id"@];
    assert(one[0] == "id"@);
    if !schema.tables.contains_key("task_queue"@) {
        assert(creates(version_steps(1)[6], "task_queue"@));
        assert(is_key(task_queue_table()->CreateTable_columns[0]));
        lemma_single_key(schema, current, "task_queue"@, "id"@);
        assert(after.keys["task_queue"@] == one);
    }
    if !schema.tables.contains_key("sessions"@) {
        assert(creates(version_steps(1)[1], "sessions"@));
        assert(is_key(sessions_table()->CreateTable_columns[0]));
        lemma_single_key(schema, current, "sessions"@, "id"@);
        assert(after.keys["sessions"@] == one);
    }
    if !schema.tables.contains_key("session_extractions"@) {
        assert(creates(version_steps(10)[0], "session_extractions"@));
        assert(is_key(session_extractions_table()->CreateTable_columns[0]));
        lemma_single_key(schema, current, "session_extractions"@, "id"@);
        assert(after.keys["session_extractions"@] == one);
    }
    if !schema.tables.contains_key("paired_devices"@) {
        let device = seq!["device_id"@];
        assert(device[0] == "device_id"@);
        assert(creates(version_steps(7)[0], "paired_devices"@));
        assert(is_key(paired_devices_table()->CreateTable_columns[0]));
        lemma_single_key(schema, current, "paired_devices"@, "device_id"@);
        assert(after.keys["paired_devices"@] == device);
    }
}

/// In a migrated database, the topics of a user with two agents are kept beside each other, also
/// under one name: writing one does not replace the other.
pub proof fn topics_of_two_agents_are_kept(
    schema: Schema,
    current: u32,
    a: Row,
    b: Row,
)
    requires
        current <= SCHEMA_VERSION,
        provides(schema, current as int),
        !schema.tables.contains_key("user_agent_memory_topics"@),
        a["user_id"@] != b["user_id"@] || a["agent_id"@] != b["agent_id"@] || a["topic"@]
            != b["topic"@],
    ensures
        ({
            let table = "user_agent_memory_topics"@;
            let now = with_row(with_row(performed(schema, plan(current)), table, a), table, b);
            now.rows[table].contains(a) && now.rows[table].contains(b)
        }),
{
    let table = "user_agent_memory_topics"@;
    let start = performed(schema, plan(current));
    let first = with_row(start, table, a);
    agent_topics_collide_by_user_agent_topic(schema, current, a, b);
    writing_keeps_other_keys(start, table, a, a);
    writing_keeps_other_keys(first, table, b, a);
    assert(collide(first, table, a, b) == collide(start, table, a, b));
}

/// The key of each table is what its store finds a row by. Where two rows of a table agree in a
/// column exactly if the records that they stand for agree in the field, the rows have the same
/// key exactly if the store finds the records by the same key.
pub proof fn tables_have_the_keys_of_their_stores(
    schema: Schema,
    current: u32,
    a: Row,
    b: Row,
    topics: (TopicRowView, TopicRowView),
    agent_topics: (AgentTopicView, AgentTopicView),
    values: (KvView, KvView),
    devices: (DeviceView, DeviceView),
    tasks: (QueuedTaskView, QueuedTaskView),
)
    requires
        current <= SCHEMA_VERSION,
        provides(schema, current as int),
        !schema.tables.contains_key("user_memory_topics"@),
        !schema.tables.contains_key("user_agent_memory_topics"@),
        !schema.tables.contains_key("kv_store"@),
        !schema.tables.contains_key("paired_devices"@),
        !schema.tables.contains_key("task_queue"@),
    ensures
        ({
            let after = performed(schema, plan(current));
            let (x, y) = topics;
            let told = (a["user_id"@] == b["user_id"@] <==> x.topic.user_id == y.topic.user_id) && (
            a["topic"@] == b["topic"@] <==> x.topic.topic == y.topic.topic);
            told ==> (collide(after, "user_memory_topics"@, a, b) <==> topic_key()(x)
                == topic_key()(y))
        }),
        ({
            let after = performed(schema, plan(current));
            let (x, y) = agent_topics;
            let told = (a["user_id"@] == b["user_id"@] <==> x.user_id == y.user_id) && (
            a["agent_id"@] == b["agent_id"@] <==> x.agent_id == y.agent_id) && (a["topic"@]
                == b["topic"@] <==> x.topic == y.topic);
            told ==> (collide(after, "user_agent_memory_topics"@, a, b) <==> agent_topic_key()(x)
                == agent_topic_key()(y))
        }),
        ({
            let after = performed(schema, plan(current));
            let (x, y) = values;
            let told = (a["agent_id"@] == b["agent_id"@] <==> x.agent_id == y.agent_id) && (a[
            "key"@] == b["key"@] <==> x.key == y.key);
            told ==> (collide(after, "kv_store"@, a, b) <==> kv_key()(x) == kv_key()(y))
        }),
        ({
            let after = performed(schema, plan(current));
            let (x, y) = devices;
            let told = a["device_id"@] == b["device_id"@] <==> x.device_id == y.device_id;
            told ==> (collide(after, "paired_devices"@, a, b) <==> device_key()(x) == device_key()(
                y,
            ))
        }),
        ({
            let after = performed(schema, plan(current));
            let (x, y) = tasks;
            let told = a["id"@] == b["id"@] <==> x.id == y.id;
            told ==> (collide(after, "task_queue"@, a, b) <==> task_key()(x) == task_key()(y))
        }),
{
    topics_collide_by_user_topic(schema, current, a, b);
    agent_topics_collide_by_user_agent_topic(schema, current, a, b);
    values_collide_by_agent_key(schema, current, a, b);
    others_collide_by_id(schema, current, a, b);
}

} // verus!
