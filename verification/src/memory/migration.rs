//! Schema creation and migration.
//!
//! Creates all tables needed by the memory substrate on first boot, and brings the database of
//! an earlier version up to date.

use crate::memory::schema::{
    key_columns, migrate_v1, migrate_v10, migrate_v2, migrate_v3, migrate_v4, migrate_v5,
    migrate_v6, migrate_v7, migrate_v8, migrate_v9, version_1, version_10, version_2, version_3,
    version_4, version_5, version_6, version_7, version_8, version_9, ColumnView, MigrationStep,
    StepView,
};
use crate::memory::table::views;
use crate::text::{same_text, texts};
use vstd::prelude::*;

verus! {

/// Current schema version.
pub const SCHEMA_VERSION: u32 = 10;

/// The steps that a version adds to the one before.
pub open spec fn version_steps(version: int) -> Seq<StepView> {
    if version == 1 {
        version_1()
    } else if version == 2 {
        version_2()
    } else if version == 3 {
        version_3()
    } else if version == 4 {
        version_4()
    } else if version == 5 {
        version_5()
    } else if version == 6 {
        version_6()
    } else if version == 7 {
        version_7()
    } else if version == 8 {
        version_8()
    } else if version == 9 {
        version_9()
    } else if version == 10 {
        version_10()
    } else {
        Seq::empty()
    }
}

/// The steps from one version to another.
pub open spec fn steps_between(from: int, to: int) -> Seq<StepView>
    decreases to - from,
{
    if to <= from {
        Seq::empty()
    } else {
        steps_between(from, to - 1) + version_steps(to)
    }
}

/// The steps that bring a database up to date.
pub open spec fn plan(current: u32) -> Seq<StepView> {
    steps_between(current as int, SCHEMA_VERSION as int).push(StepView::SetVersion(SCHEMA_VERSION))
}

/// The steps that a version adds to the one before.
fn steps_of(version: u32) -> (r: Vec<MigrationStep>)
    ensures
        views(r@) == version_steps(version as int),
{
    match version {
        1 => migrate_v1(),
        2 => migrate_v2(),
        3 => migrate_v3(),
        4 => migrate_v4(),
        5 => migrate_v5(),
        6 => migrate_v6(),
        7 => migrate_v7(),
        8 => migrate_v8(),
        9 => migrate_v9(),
        10 => migrate_v10(),
        _ => {
            let none: Vec<MigrationStep> = Vec::new();
            assert(views(none@) =~= Seq::empty());
            none
        },
    }
}

/// The steps that bring a database at `current_version` up to date, in the order in which they
/// have to be performed. A step is performed only if it `is_needed`.
pub fn migration_plan(current_version: u32) -> (r: Vec<MigrationStep>)
    ensures
        views(r@) == plan(current_version),
{
    let mut steps: Vec<MigrationStep> = Vec::new();
    assert(views(steps@) =~= Seq::empty());
    let mut version: u32 = current_version;
    while version < SCHEMA_VERSION
        invariant
            current_version <= version,
            version <= SCHEMA_VERSION || version == current_version,
            views(steps@) == steps_between(current_version as int, version as int),
        decreases SCHEMA_VERSION - version,
    {
        version = version + 1;
        let mut more: Vec<MigrationStep> = steps_of(version);
        let ghost held = steps@;
        let ghost added = more@;
        steps.append(&mut more);
        assert(views(steps@) =~= views(held) + views(added));
    }
    let ghost held = steps@;
    let last = MigrationStep::SetVersion(SCHEMA_VERSION);
    steps.push(last);
    assert(views(steps@) =~= views(held).push(last@));
    steps
}

/// Whether a step has to be performed on a table with `columns`: a column is added only if it is
/// not there.
pub open spec fn needed(step: StepView, columns: Seq<Seq<char>>) -> bool {
    match step {
        StepView::AddColumn { column, .. } => !columns.contains(column.name),
        _ => true,
    }
}

impl MigrationStep {
    /// The table that the step adds a column to, if it does.
    pub fn altered_table(&self) -> (r: Option<&String>)
        ensures
            match r {
                Some(table) => self@ is AddColumn && table@ == self@->AddColumn_to,
                None => !(self@ is AddColumn),
            },
    {
        match self {
            MigrationStep::AddColumn { to, .. } => Some(to),
            _ => None,
        }
    }

    /// Whether the step has to be performed, where the table that it alters has `columns`.
    pub fn is_needed(&self, columns: &[String]) -> (r: bool)
        ensures
            r == needed(self@, texts(columns@)),
    {
        match self {
            MigrationStep::AddColumn { column, .. } => {
                let mut i: usize = 0;
                while i < columns.len()
                    invariant
                        i <= columns.len(),
                        self@ == (StepView::AddColumn { to: self@->AddColumn_to, column: column@ }),
                        forall|j: int| 0 <= j < i ==> texts(columns@)[j] != column.name@,
                    decreases columns.len() - i,
                {
                    if same_text(columns[i].as_str(), column.name.as_str()) {
                        assert(texts(columns@)[i as int] == column.name@);
                        return false;
                    }
                    i = i + 1;
                }
                true
            },
            _ => true,
        }
    }
}

/// A row: the SQL literal of the value in each column.
pub type Row = Map<Seq<char>, Seq<char>>;

/// What a database holds: tables with the names of their columns, with the columns as they were
/// declared, with the columns of their primary keys and with their rows; indexes; the record of
/// the applied versions, which are the rows of `migrations`; and the version of the schema.
pub struct Schema {
    pub tables: Map<Seq<char>, Seq<Seq<char>>>,
    pub declared: Map<Seq<char>, Seq<ColumnView>>,
    pub keys: Map<Seq<char>, Seq<Seq<char>>>,
    pub rows: Map<Seq<char>, Seq<Row>>,
    pub indexes: Set<Seq<char>>,
    pub records: Map<u32, Seq<char>>,
    pub version: u32,
}

/// An empty database.
pub open spec fn blank() -> Schema {
    Schema {
        tables: Map::empty(),
        declared: Map::empty(),
        keys: Map::empty(),
        rows: Map::empty(),
        indexes: Set::empty(),
        records: Map::empty(),
        version: 0,
    }
}

/// The literal of the value that a column has in the rows to which it is added.
pub open spec fn default_literal(column: ColumnView) -> Seq<char> {
    match column.default {
        Some(literal) => literal,
        None => "NULL"@,
    }
}

/// Rows to which a column was added.
pub open spec fn with_column(rows: Seq<Row>, column: ColumnView) -> Seq<Row> {
    rows.map_values(|row: Row| row.insert(column.name, default_literal(column)))
}

/// Whether a table has a column.
pub open spec fn has_column(schema: Schema, table: Seq<char>, column: Seq<char>) -> bool {
    schema.tables.contains_key(table) && schema.tables[table].contains(column)
}

/// The database after a step, if it is needed: what exists is not created again. A new table has
/// no rows, and a new column has its default in every row.
pub open spec fn perform(schema: Schema, step: StepView) -> Schema {
    match step {
        StepView::CreateTable { table, columns, key } => if schema.tables.contains_key(table) {
            schema
        } else {
            Schema {
                tables: schema.tables.insert(table, columns.map_values(|c: ColumnView| c.name)),
                declared: schema.declared.insert(table, columns),
                keys: schema.keys.insert(table, key_columns(columns, key)),
                rows: schema.rows.insert(table, Seq::empty()),
                ..schema
            }
        },
        StepView::CreateIndex { index, .. } => Schema {
            indexes: schema.indexes.insert(index),
            ..schema
        },
        StepView::AddColumn { to, column } => if schema.tables.contains_key(to) && needed(
            step,
            schema.tables[to],
        ) {
            Schema {
                tables: schema.tables.insert(to, schema.tables[to].push(column.name)),
                declared: schema.declared.insert(to, schema.declared[to].push(column)),
                rows: schema.rows.insert(to, with_column(schema.rows[to], column)),
                ..schema
            }
        } else {
            schema
        },
        StepView::Record { version, description } => if schema.records.contains_key(version) {
            schema
        } else {
            Schema { records: schema.records.insert(version, description), ..schema }
        },
        StepView::SetVersion(version) => Schema { version, ..schema },
    }
}

/// The database after some steps.
pub open spec fn performed(schema: Schema, steps: Seq<StepView>) -> Schema
    decreases steps.len(),
{
    if steps.len() == 0 {
        schema
    } else {
        perform(performed(schema, steps.drop_last()), steps.last())
    }
}

/// Whether a schema has what a step provides.
pub open spec fn satisfied(schema: Schema, step: StepView) -> bool {
    match step {
        StepView::CreateTable { table, .. } => schema.tables.contains_key(table),
        StepView::CreateIndex { index, .. } => schema.indexes.contains(index),
        StepView::AddColumn { to, column } => has_column(schema, to, column.name),
        StepView::Record { version, .. } => schema.records.contains_key(version),
        StepView::SetVersion(version) => schema.version == version,
    }
}

/// The table that has to exist for a step.
pub open spec fn table_needed(step: StepView) -> Option<Seq<char>> {
    match step {
        StepView::CreateTable { .. } => None,
        StepView::CreateIndex { on, .. } => Some(on),
        StepView::AddColumn { to, .. } => Some(to),
        StepView::Record { .. } => Some("migrations"@),
        StepView::SetVersion(_) => None,
    }
}

/// Whether the table that a step needs exists.
pub open spec fn ready(schema: Schema, step: StepView) -> bool {
    match table_needed(step) {
        Some(table) => schema.tables.contains_key(table),
        None => true,
    }
}

/// Whether a step creates a table.
pub open spec fn creates(step: StepView, table: Seq<char>) -> bool {
    step is CreateTable && step->CreateTable_table == table
}

/// Whether a schema has what the steps up to a version provide.
pub open spec fn provides(schema: Schema, version: int) -> bool {
    forall|v: int, i: int|
        0 < v <= version && 0 <= i < version_steps(v).len() ==> satisfied(
            schema,
            #[trigger] version_steps(v)[i],
        )
}

/// Whether everything of one schema is in another: each table with its columns in front, each
/// index, and each record.
pub open spec fn kept(before: Schema, after: Schema) -> bool {
    &&& forall|t: Seq<char>| #[trigger]
        before.tables.contains_key(t) ==> after.tables.contains_key(t)
            && before.tables[t].is_prefix_of(after.tables[t])
    &&& before.indexes.subset_of(after.indexes)
    &&& forall|v: u32| #[trigger]
        before.records.contains_key(v) ==> after.records.contains_key(v) && after.records[v]
            == before.records[v]
}

/// What is kept by two changes is kept.
proof fn lemma_kept_on(a: Schema, b: Schema, c: Schema)
    requires
        kept(a, b),
        kept(b, c),
    ensures
        kept(a, c),
{
    assert forall|t: Seq<char>| #[trigger] a.tables.contains_key(t) implies c.tables.contains_key(t)
        && a.tables[t].is_prefix_of(c.tables[t]) by {
        assert(b.tables.contains_key(t));
        assert(a.tables[t] =~= c.tables[t].subrange(0, a.tables[t].len() as int)) by {
            assert(a.tables[t] == b.tables[t].subrange(0, a.tables[t].len() as int));
            assert(b.tables[t] == c.tables[t].subrange(0, b.tables[t].len() as int));
        }
    }
    assert forall|v: u32| #[trigger] a.records.contains_key(v) implies c.records.contains_key(v)
        && c.records[v] == a.records[v] by {
        assert(b.records.contains_key(v));
    }
}

/// A step keeps everything, and provides what it is for if its table exists.
proof fn lemma_perform(schema: Schema, step: StepView)
    ensures
        kept(schema, perform(schema, step)),
        ready(schema, step) ==> satisfied(perform(schema, step), step),
        satisfied(schema, step) ==> perform(schema, step) == schema,
{
    let after = perform(schema, step);
    assert forall|t: Seq<char>| #[trigger]
        schema.tables.contains_key(t) implies after.tables.contains_key(t)
        && schema.tables[t].is_prefix_of(after.tables[t]) by {
        assert(schema.tables[t] =~= after.tables[t].subrange(0, schema.tables[t].len() as int));
    }
    match step {
        StepView::AddColumn { to, column } => {
            if schema.tables.contains_key(to) && !schema.tables[to].contains(column.name) {
                let n = schema.tables[to].len() as int;
                assert(after.tables[to][n] == column.name);
            }
        },
        StepView::CreateIndex { index, .. } => {
            if schema.indexes.contains(index) {
                assert(after.indexes =~= schema.indexes);
            }
        },
        _ => {},
    }
}

/// What a schema has is still there when everything was kept.
proof fn lemma_satisfied_kept(before: Schema, after: Schema, step: StepView)
    requires
        kept(before, after),
        satisfied(before, step),
        !(step is SetVersion),
    ensures
        satisfied(after, step),
{
    match step {
        StepView::AddColumn { to, column } => {
            assert(before.tables.contains_key(to));
            let i = choose|i: int|
                0 <= i < before.tables[to].len() && before.tables[to][i] == column.name;
            assert(before.tables[to] == after.tables[to].subrange(
                0,
                before.tables[to].len() as int,
            ));
            assert(after.tables[to][i] == column.name);
        },
        _ => {},
    }
}

/// Performing steps after others is performing both.
proof fn lemma_performed_on(schema: Schema, a: Seq<StepView>, b: Seq<StepView>)
    ensures
        performed(schema, a + b) == performed(performed(schema, a), b),
    decreases b.len(),
{
    if b.len() == 0 {
        assert(a + b =~= a);
    } else {
        assert((a + b).drop_last() =~= a + b.drop_last());
        lemma_performed_on(schema, a, b.drop_last());
    }
}

/// Migrating loses nothing: whatever the steps, every table, column, index and record that was
/// there stays.
pub proof fn migrating_loses_nothing(schema: Schema, steps: Seq<StepView>)
    ensures
        kept(schema, performed(schema, steps)),
    decreases steps.len(),
{
    if steps.len() == 0 {
        assert forall|t: Seq<char>| #[trigger]
            schema.tables.contains_key(t) implies schema.tables[t].is_prefix_of(
            schema.tables[t],
        ) by {
            assert(schema.tables[t] =~= schema.tables[t].subrange(
                0,
                schema.tables[t].len() as int,
            ));
        }
    } else {
        let so_far = performed(schema, steps.drop_last());
        migrating_loses_nothing(schema, steps.drop_last());
        lemma_perform(so_far, steps.last());
        lemma_kept_on(schema, so_far, performed(schema, steps));
    }
}

/// Whether the table that a step of a version needs is created before it: by the version
/// itself, or by the first one.
pub open spec fn prepared(version: int, i: int) -> bool {
    match table_needed(version_steps(version)[i]) {
        Some(table) => {
            ||| exists|k: int| 0 <= k < i && creates(#[trigger] version_steps(version)[k], table)
            ||| version > 1 && exists|k: int|
                0 <= k < version_1().len() && creates(#[trigger] version_1()[k], table)
        },
        None => true,
    }
}

/// Every table that a step needs is created before it.
#[verifier::rlimit(40)]
pub proof fn tables_come_first(version: int, i: int)
    requires
        0 < version <= SCHEMA_VERSION,
        0 <= i < version_steps(version).len(),
    ensures
        prepared(version, i),
{
    assert(creates(version_1()[1], "sessions"@));
    assert(creates(version_1()[2], "events"@));
    assert(creates(version_1()[6], "task_queue"@));
    assert(creates(version_1()[8], "memories"@));
    assert(creates(version_1()[12], "relations"@));
    assert(creates(version_1()[16], "migrations"@));
    if version == 4 {
        assert(creates(version_steps(version)[0], "usage_events"@));
    }
    if version == 8 {
        assert(creates(version_steps(version)[0], "audit_entries"@));
    }
    if version == 10 {
        assert(creates(version_steps(version)[0], "session_extractions"@));
        assert(creates(version_steps(version)[3], "user_memory_topics"@));
        assert(creates(version_steps(version)[5], "user_agent_memory_topics"@));
    }
}

/// The steps of one version: if the schema has what the versions before provide, the table that
/// a step needs is there when it is performed, and afterwards the schema has what this version
/// provides too.
proof fn lemma_version(schema: Schema, version: int, i: int)
    requires
        0 < version <= SCHEMA_VERSION,
        provides(schema, version - 1),
        0 <= i <= version_steps(version).len(),
    ensures
        ({
            let so_far = performed(schema, version_steps(version).take(i));
            &&& kept(schema, so_far)
            &&& i < version_steps(version).len() ==> ready(so_far, version_steps(version)[i])
            &&& forall|k: int|
                0 <= k < i ==> satisfied(so_far, #[trigger] version_steps(version)[k])
        }),
    decreases i,
{
    let steps = version_steps(version);
    let so_far = performed(schema, steps.take(i));
    migrating_loses_nothing(schema, steps.take(i));
    if i > 0 {
        lemma_version(schema, version, i - 1);
        let before = performed(schema, steps.take(i - 1));
        assert(steps.take(i).drop_last() =~= steps.take(i - 1));
        lemma_perform(before, steps[i - 1]);
        lemma_no_version(version);
        assert forall|k: int| 0 <= k < i implies satisfied(
            so_far,
            #[trigger] version_steps(version)[k],
        ) by {
            if k < i - 1 {
                lemma_satisfied_kept(before, so_far, steps[k]);
            }
        }
    }
    if i < steps.len() {
        tables_come_first(version, i);
        match table_needed(steps[i]) {
            Some(table) => {
                if exists|k: int| 0 <= k < i && creates(#[trigger] version_steps(version)[k], table) {
                    let k = choose|k: int|
                        0 <= k < i && creates(#[trigger] version_steps(version)[k], table);
                    assert(satisfied(so_far, steps[k]));
                } else {
                    let k = choose|k: int|
                        0 <= k < version_1().len() && creates(#[trigger] version_1()[k], table);
                    assert(satisfied(schema, version_steps(1)[k]));
                    assert(schema.tables.contains_key(table));
                }
            },
            None => {},
        }
    }
}

/// No version sets the version of the schema: only the end of the plan does.
proof fn lemma_no_version(version: int)
    ensures
        forall|i: int|
            0 <= i < version_steps(version).len() ==> !((
            #[trigger] version_steps(version)[i]) is SetVersion),
{
}

/// What a schema has of the versions up to one is still there when everything was kept.
proof fn lemma_provides_kept(before: Schema, after: Schema, version: int)
    requires
        kept(before, after),
        provides(before, version),
    ensures
        provides(after, version),
{
    assert forall|v: int, i: int|
        0 < v <= version && 0 <= i < version_steps(v).len() implies satisfied(
        after,
        #[trigger] version_steps(v)[i],
    ) by {
        lemma_no_version(v);
        lemma_satisfied_kept(before, after, version_steps(v)[i]);
    }
}

/// The steps from one version to another lead to the other.
proof fn lemma_between(schema: Schema, from: int, to: int)
    requires
        0 <= from <= to <= SCHEMA_VERSION,
        provides(schema, from),
    ensures
        provides(performed(schema, steps_between(from, to)), to),
    decreases to - from,
{
    if to > from {
        let before = performed(schema, steps_between(from, to - 1));
        let steps = version_steps(to);
        let after = performed(before, steps);
        lemma_between(schema, from, to - 1);
        lemma_performed_on(schema, steps_between(from, to - 1), steps);
        lemma_version(before, to, steps.len() as int);
        assert(steps.take(steps.len() as int) =~= steps);
        lemma_provides_kept(before, after, to - 1);
    }
}

/// Migrating a database that has what the versions up to its own provide gives it what all
/// versions provide, and the current version. An empty database is one of them.
pub proof fn migrated_is_current(schema: Schema, current: u32)
    requires
        current <= SCHEMA_VERSION,
        provides(schema, current as int),
    ensures
        provides(performed(schema, plan(current)), SCHEMA_VERSION as int),
        performed(schema, plan(current)).version == SCHEMA_VERSION,
        provides(blank(), 0),
{
    let steps = steps_between(current as int, SCHEMA_VERSION as int);
    let before = performed(schema, steps);
    let after = performed(schema, plan(current));
    lemma_between(schema, current as int, SCHEMA_VERSION as int);
    assert(plan(current).drop_last() =~= steps);
    lemma_perform(before, StepView::SetVersion(SCHEMA_VERSION));
    lemma_provides_kept(before, after, SCHEMA_VERSION as int);
}

/// When a step of the plan is performed, the table that it needs is there.
pub proof fn every_step_can_run(schema: Schema, current: u32, i: int)
    requires
        current <= SCHEMA_VERSION,
        provides(schema, current as int),
        0 <= i < plan(current).len(),
    ensures
        ready(performed(schema, plan(current).take(i)), plan(current)[i]),
{
    let steps = steps_between(current as int, SCHEMA_VERSION as int);
    if i < steps.len() {
        lemma_step_ready(schema, current as int, SCHEMA_VERSION as int, i);
        assert(plan(current).take(i) =~= steps.take(i));
    }
}

/// When a step between two versions is performed, the table that it needs is there.
proof fn lemma_step_ready(schema: Schema, from: int, to: int, i: int)
    requires
        0 <= from <= to <= SCHEMA_VERSION,
        provides(schema, from),
        0 <= i < steps_between(from, to).len(),
    ensures
        ready(performed(schema, steps_between(from, to).take(i)), steps_between(from, to)[i]),
    decreases to - from,
{
    let front = steps_between(from, to - 1);
    let steps = version_steps(to);
    if i < front.len() {
        lemma_step_ready(schema, from, to - 1, i);
        assert(steps_between(from, to).take(i) =~= front.take(i));
    } else {
        let k = i - front.len();
        assert(steps_between(from, to).take(i) =~= front + steps.take(k));
        lemma_performed_on(schema, front, steps.take(k));
        lemma_between(schema, from, to - 1);
        lemma_version(performed(schema, front), to, k);
    }
}

/// Steps whose effect is there already change nothing.
proof fn lemma_nothing_to_do(schema: Schema, steps: Seq<StepView>)
    requires
        forall|i: int| 0 <= i < steps.len() ==> satisfied(schema, #[trigger] steps[i]),
    ensures
        performed(schema, steps) == schema,
    decreases steps.len(),
{
    if steps.len() > 0 {
        let front = steps.drop_last();
        assert forall|i: int| 0 <= i < front.len() implies satisfied(schema, #[trigger] front[i]) by {
            assert(front[i] == steps[i]);
        }
        lemma_nothing_to_do(schema, front);
        lemma_perform(schema, steps.last());
    }
}

/// Every step between two versions is one of a version.
proof fn lemma_between_is_satisfied(schema: Schema, from: int, to: int)
    requires
        0 <= from,
        provides(schema, to),
    ensures
        forall|i: int|
            0 <= i < steps_between(from, to).len() ==> satisfied(
                schema,
                #[trigger] steps_between(from, to)[i],
            ),
    decreases to - from,
{
    if to > from {
        lemma_between_is_satisfied(schema, from, to - 1);
        let front = steps_between(from, to - 1);
        assert forall|i: int| 0 <= i < steps_between(from, to).len() implies satisfied(
            schema,
            #[trigger] steps_between(from, to)[i],
        ) by {
            if i < front.len() {
                assert(steps_between(from, to)[i] == front[i]);
            } else {
                assert(steps_between(from, to)[i] == version_steps(to)[i - front.len()]);
            }
        }
    }
}

/// Migrating a database that is up to date changes nothing, even if its version is forgotten
/// and every step is performed again.
pub proof fn migrating_again_changes_nothing(schema: Schema, current: u32)
    requires
        provides(schema, SCHEMA_VERSION as int),
        schema.version == SCHEMA_VERSION,
    ensures
        performed(schema, plan(current)) == schema,
        plan(SCHEMA_VERSION) == seq![StepView::SetVersion(SCHEMA_VERSION)],
{
    let steps = steps_between(current as int, SCHEMA_VERSION as int);
    lemma_between_is_satisfied(schema, current as int, SCHEMA_VERSION as int);
    assert forall|i: int| 0 <= i < plan(current).len() implies satisfied(
        schema,
        #[trigger] plan(current)[i],
    ) by {
        if i < steps.len() {
            assert(plan(current)[i] == steps[i]);
        }
    }
    lemma_nothing_to_do(schema, plan(current));
}

/// The steps from one version to another lead over those between.
proof fn lemma_steps_meet(from: int, middle: int, to: int)
    requires
        from <= middle <= to,
    ensures
        steps_between(from, to) == steps_between(from, middle) + steps_between(middle, to),
    decreases to - middle,
{
    if to > middle {
        lemma_steps_meet(from, middle, to - 1);
        assert(steps_between(from, to) =~= steps_between(from, middle) + steps_between(middle, to));
    } else {
        assert(steps_between(from, to) =~= steps_between(from, middle) + steps_between(middle, to));
    }
}

/// The database of a version in between, when it is migrated, has the same schema as a new one.
pub proof fn upgrade_equals_fresh(current: u32)
    requires
        current <= SCHEMA_VERSION,
    ensures
        ({
            let earlier = performed(
                blank(),
                steps_between(0, current as int).push(StepView::SetVersion(current)),
            );
            performed(earlier, plan(current)) == performed(blank(), plan(0))
        }),
{
    let first = steps_between(0, current as int);
    let rest = steps_between(current as int, SCHEMA_VERSION as int);
    let halfway = performed(blank(), first);
    let earlier = performed(blank(), first.push(StepView::SetVersion(current)));
    assert(first.push(StepView::SetVersion(current)).drop_last() =~= first);
    lemma_steps_meet(0, current as int, SCHEMA_VERSION as int);
    lemma_performed_on(blank(), first, rest);
    lemma_same_but_version(halfway, earlier, rest);
    assert(plan(current).drop_last() =~= rest);
    assert(plan(0).drop_last() =~= first + rest);
}

/// Steps do the same to schemas that differ in their version alone.
proof fn lemma_same_but_version(a: Schema, b: Schema, steps: Seq<StepView>)
    requires
        a == (Schema { version: a.version, ..b }),
    ensures
        performed(a, steps) == (Schema {
            version: performed(a, steps).version,
            ..performed(b, steps)
        }),
    decreases steps.len(),
{
    if steps.len() > 0 {
        lemma_same_but_version(a, b, steps.drop_last());
    }
}

/// Whether a row has a value in each of the columns, and in no other.
pub open spec fn fits(row: Row, columns: Seq<Seq<char>>) -> bool {
    forall|c: Seq<char>| #[trigger] row.contains_key(c) <==> columns.contains(c)
}

/// Whether every table has rows, if only none, and every row has the columns of its table.
pub open spec fn is_valid(schema: Schema) -> bool {
    &&& forall|t: Seq<char>| #[trigger]
        schema.tables.contains_key(t) ==> schema.rows.contains_key(t)
    &&& forall|t: Seq<char>, i: int|
        schema.tables.contains_key(t) && 0 <= i < schema.rows[t].len() ==> fits(
            #[trigger] schema.rows[t][i],
            schema.tables[t],
        )
}

/// Whether a row has in each column the value that it had.
pub open spec fn row_kept(before: Row, after: Row) -> bool {
    forall|c: Seq<char>| #[trigger]
        before.contains_key(c) ==> after.contains_key(c) && after[c] == before[c]
}

/// Whether rows are still there, each with the value that it had in each column.
pub open spec fn rows_kept(before: Seq<Row>, after: Seq<Row>) -> bool {
    &&& before.len() == after.len()
    &&& forall|i: int| 0 <= i < before.len() ==> row_kept(#[trigger] before[i], after[i])
}

/// A step keeps every row.
proof fn lemma_rows_kept(schema: Schema, step: StepView)
    requires
        is_valid(schema),
    ensures
        is_valid(perform(schema, step)),
        forall|t: Seq<char>| #[trigger]
            schema.tables.contains_key(t) ==> rows_kept(
                schema.rows[t],
                perform(schema, step).rows[t],
            ),
{
    let after = perform(schema, step);
    assert forall|t: Seq<char>, i: int|
        after.tables.contains_key(t) && 0 <= i < after.rows[t].len() implies fits(
        #[trigger] after.rows[t][i],
        after.tables[t],
    ) by {
        match step {
            StepView::AddColumn { to, column } => {
                if t == to && schema.tables.contains_key(to) && needed(step, schema.tables[to]) {
                    let row = schema.rows[t][i];
                    assert(fits(row, schema.tables[t]));
                    assert forall|c: Seq<char>| #[trigger]
                        after.rows[t][i].contains_key(c) <==> after.tables[t].contains(c) by {
                        let n = schema.tables[t].len() as int;
                        assert(after.tables[t][n] == column.name);
                        assert(row.contains_key(c) <==> schema.tables[t].contains(c));
                        if schema.tables[t].contains(c) {
                            let k = choose|k: int| 0 <= k < n && schema.tables[t][k] == c;
                            assert(after.tables[t][k] == c);
                        }
                    }
                } else {
                    assert(fits(schema.rows[t][i], schema.tables[t]));
                }
            },
            _ => {
                assert(fits(schema.rows[t][i], schema.tables[t]));
            },
        }
    }
    assert forall|t: Seq<char>| #[trigger] schema.tables.contains_key(t) implies rows_kept(
        schema.rows[t],
        after.rows[t],
    ) by {
        match step {
            StepView::AddColumn { to, column } => {
                if t == to && needed(step, schema.tables[to]) {
                    assert forall|i: int| 0 <= i < schema.rows[t].len() implies row_kept(
                #[trigger] schema.rows[t][i],
                after.rows[t][i],
            ) by {
                        assert(fits(schema.rows[t][i], schema.tables[t]));
                        assert(!schema.rows[t][i].contains_key(column.name));
                    }
                }
            },
            _ => {},
        }
    }
}

/// Every row survives a migration, whatever the steps, with the value that it had in each column.
pub proof fn rows_survive(schema: Schema, steps: Seq<StepView>)
    requires
        is_valid(schema),
    ensures
        is_valid(performed(schema, steps)),
        forall|t: Seq<char>| #[trigger]
            schema.tables.contains_key(t) ==> rows_kept(
                schema.rows[t],
                performed(schema, steps).rows[t],
            ),
    decreases steps.len(),
{
    if steps.len() > 0 {
        let front = steps.drop_last();
        let so_far = performed(schema, front);
        let after = performed(schema, steps);
        rows_survive(schema, front);
        migrating_loses_nothing(schema, front);
        lemma_rows_kept(so_far, steps.last());
        assert forall|t: Seq<char>| #[trigger] schema.tables.contains_key(t) implies rows_kept(
            schema.rows[t],
            after.rows[t],
        ) by {
            assert(so_far.tables.contains_key(t));
            assert(rows_kept(so_far.rows[t], after.rows[t]));
            assert forall|i: int| 0 <= i < schema.rows[t].len() implies row_kept(
                #[trigger] schema.rows[t][i],
                after.rows[t][i],
            ) by {
                assert(row_kept(schema.rows[t][i], so_far.rows[t][i]));
                assert(row_kept(so_far.rows[t][i], after.rows[t][i]));
                assert forall|c: Seq<char>| #[trigger]
                    schema.rows[t][i].contains_key(c) implies after.rows[t][i].contains_key(c)
                    && after.rows[t][i][c] == schema.rows[t][i][c] by {
                    assert(so_far.rows[t][i].contains_key(c));
                }
            }
        }
    } else {
        assert forall|t: Seq<char>| #[trigger] schema.tables.contains_key(t) implies rows_kept(
            schema.rows[t],
            schema.rows[t],
        ) by {}
    }
}

/// Whether a step adds a column to a table.
pub open spec fn adds(step: StepView, table: Seq<char>, name: Seq<char>) -> bool {
    step is AddColumn && step->AddColumn_to == table && step->AddColumn_column.name == name
}

/// A row of a table that was there has, in every column that a migration adds to the table, the
/// default of a step that adds the column.
pub proof fn added_columns_take_defaults(
    schema: Schema,
    steps: Seq<StepView>,
    table: Seq<char>,
    i: int,
    name: Seq<char>,
)
    requires
        is_valid(schema),
        schema.tables.contains_key(table),
        0 <= i < schema.rows[table].len(),
        !schema.tables[table].contains(name),
        performed(schema, steps).tables[table].contains(name),
    ensures
        exists|k: int|
            0 <= k < steps.len() && adds(#[trigger] steps[k], table, name) && performed(
                schema,
                steps,
            ).rows[table][i][name] == default_literal(steps[k]->AddColumn_column),
    decreases steps.len(),
{
    if steps.len() > 0 {
        let front = steps.drop_last();
        let so_far = performed(schema, front);
        let after = performed(schema, steps);
        migrating_loses_nothing(schema, front);
        rows_survive(schema, front);
        lemma_rows_kept(so_far, steps.last());
        assert(so_far.tables.contains_key(table));
        assert(rows_kept(schema.rows[table], so_far.rows[table]));
        assert(rows_kept(so_far.rows[table], after.rows[table]));
        if so_far.tables[table].contains(name) {
            added_columns_take_defaults(schema, front, table, i, name);
            let k = choose|k: int|
                0 <= k < front.len() && adds(#[trigger] front[k], table, name)
                    && so_far.rows[table][i][name] == default_literal(front[k]->AddColumn_column);
            assert(steps[k] == front[k]);
            assert(fits(so_far.rows[table][i], so_far.tables[table]));
            assert(so_far.rows[table][i].contains_key(name));
            assert(row_kept(so_far.rows[table][i], after.rows[table][i]));
        } else {
            let last = steps.len() - 1;
            assert(steps[last] == steps.last());
            assert(adds(steps[last], table, name)) by {
                let at = choose|p: int|
                    0 <= p < after.tables[table].len() && after.tables[table][p] == name;
                match steps.last() {
                    StepView::AddColumn { to, column } => {
                        if to != table || column.name != name {
                            assert(at < so_far.tables[table].len() ==> so_far.tables[table][at]
                                == name);
                        }
                    },
                    _ => {
                        assert(so_far.tables[table][at] == name);
                    },
                }
            }
        }
    }
}

/// The steps that add the owner or the parent to sessions: the nil user, and none.
proof fn lemma_session_columns(version: int, i: int)
    requires
        0 <= i < version_steps(version).len(),
    ensures
        adds(version_steps(version)[i], "sessions"@, "user_id"@) ==> default_literal(
            version_steps(version)[i]->AddColumn_column,
        ) == "'00000000-0000-0000-0000-000000000000'"@,
        adds(version_steps(version)[i], "sessions"@, "parent_session_id"@) ==> default_literal(
            version_steps(version)[i]->AddColumn_column,
        ) == "NULL"@,
{
    reveal_strlit("sessions");
    reveal_strlit("task_queue");
    reveal_strlit("memories");
    reveal_strlit("user_id");
    reveal_strlit("label");
    reveal_strlit("parent_session_id");
    assert("sessions"@[0] == 's' && "memories"@[0] == 'm');
    assert("sessions"@.len() == 8 && "task_queue"@.len() == 10);
    assert("user_id"@.len() == 7 && "label"@.len() == 5 && "parent_session_id"@.len() == 17);
}

/// Every step between two versions is one of a version.
pub(crate) proof fn lemma_step_of_version(from: int, to: int, i: int) -> (at: (int, int))
    requires
        0 <= i < steps_between(from, to).len(),
    ensures
        0 <= at.1 < version_steps(at.0).len(),
        steps_between(from, to)[i] == version_steps(at.0)[at.1],
    decreases to - from,
{
    let front = steps_between(from, to - 1);
    if i < front.len() {
        lemma_step_of_version(from, to - 1, i)
    } else {
        (to, i - front.len())
    }
}

/// A session from before sessions had owners survives the migration, belongs to the nil user and
/// has no parent.
pub proof fn old_sessions_are_unowned(schema: Schema, current: u32, i: int)
    requires
        is_valid(schema),
        current <= 8,
        provides(schema, current as int),
        schema.tables.contains_key("sessions"@),
        !schema.tables["sessions"@].contains("user_id"@),
        !schema.tables["sessions"@].contains("parent_session_id"@),
        0 <= i < schema.rows["sessions"@].len(),
    ensures
        ({
            let after = performed(schema, plan(current)).rows["sessions"@][i];
            &&& row_kept(schema.rows["sessions"@][i], after)
            &&& after["user_id"@] == "'00000000-0000-0000-0000-000000000000'"@
            &&& after["parent_session_id"@] == "NULL"@
        }),
{
    let steps = plan(current);
    let between = steps_between(current as int, SCHEMA_VERSION as int);
    let after = performed(schema, steps);
    rows_survive(schema, steps);
    migrated_is_current(schema, current);
    assert(satisfied(after, version_steps(9)[0]));
    assert(satisfied(after, version_steps(9)[1]));
    assert(rows_kept(schema.rows["sessions"@], after.rows["sessions"@]));
    assert forall|k: int| 0 <= k < steps.len() && (#[trigger] steps[k]) is AddColumn implies {
        &&& adds(steps[k], "sessions"@, "user_id"@) ==> default_literal(
            steps[k]->AddColumn_column,
        ) == "'00000000-0000-0000-0000-000000000000'"@
        &&& adds(steps[k], "sessions"@, "parent_session_id"@) ==> default_literal(
            steps[k]->AddColumn_column,
        ) == "NULL"@
    } by {
        assert(k < between.len());
        let at = lemma_step_of_version(current as int, SCHEMA_VERSION as int, k);
        lemma_session_columns(at.0, at.1);
    }
    added_columns_take_defaults(schema, steps, "sessions"@, i, "user_id"@);
    added_columns_take_defaults(schema, steps, "sessions"@, i, "parent_session_id"@);
}

/// The effect of every step of the plan that was performed is there.
proof fn lemma_part_is_satisfied(schema: Schema, current: u32, i: int)
    requires
        current <= SCHEMA_VERSION,
        provides(schema, current as int),
        0 <= i < plan(current).len(),
    ensures
        forall|k: int|
            0 <= k < i ==> satisfied(
                performed(schema, plan(current).take(i)),
                #[trigger] plan(current)[k],
            ),
        performed(schema, plan(current).take(i)).version == schema.version,
    decreases i,
{
    let steps = plan(current);
    if i > 0 {
        let before = performed(schema, steps.take(i - 1));
        let after = performed(schema, steps.take(i));
        lemma_part_is_satisfied(schema, current, i - 1);
        every_step_can_run(schema, current, i - 1);
        assert(steps.take(i).drop_last() =~= steps.take(i - 1));
        assert(steps.take(i).last() == steps[i - 1]);
        lemma_perform(before, steps[i - 1]);
        assert forall|k: int| 0 <= k < i implies !((#[trigger] steps[k]) is SetVersion) by {
            let at = lemma_step_of_version(current as int, SCHEMA_VERSION as int, k);
            lemma_no_version(at.0);
        }
        assert forall|k: int| 0 <= k < i implies satisfied(after, #[trigger] steps[k]) by {
            if k < i - 1 {
                lemma_satisfied_kept(before, after, steps[k]);
            }
        }
    }
}

/// A run that fails before its last step leaves the version as it was, so the next run makes the
/// same plan; and that run ends where the failed one would have ended.
pub proof fn failed_run_is_retried(schema: Schema, current: u32, i: int)
    requires
        current <= SCHEMA_VERSION,
        provides(schema, current as int),
        0 <= i < plan(current).len(),
    ensures
        performed(schema, plan(current).take(i)).version == schema.version,
        provides(performed(schema, plan(current).take(i)), current as int),
        performed(performed(schema, plan(current).take(i)), plan(current)) == performed(
            schema,
            plan(current),
        ),
{
    let steps = plan(current);
    let first = steps.take(i);
    let part = performed(schema, first);
    lemma_part_is_satisfied(schema, current, i);
    migrating_loses_nothing(schema, first);
    lemma_provides_kept(schema, part, current as int);
    assert forall|k: int| 0 <= k < first.len() implies satisfied(part, #[trigger] first[k]) by {
        assert(first[k] == steps[k]);
    }
    lemma_nothing_to_do(part, first);
    assert(steps =~= first + steps.skip(i));
    lemma_performed_on(part, first, steps.skip(i));
    lemma_performed_on(schema, first, steps.skip(i));
}

/// A second run changes nothing: neither the schema nor a row.
pub proof fn second_run_changes_nothing(schema: Schema, current: u32)
    requires
        current <= SCHEMA_VERSION,
        provides(schema, current as int),
    ensures
        ({
            let after = performed(schema, plan(current));
            performed(after, plan(after.version)) == after
        }),
{
    migrated_is_current(schema, current);
    migrating_again_changes_nothing(performed(schema, plan(current)), SCHEMA_VERSION);
}

} // verus!
