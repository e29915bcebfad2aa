//! The table that records the migrations applied to a database.

use crate::migrations::records::{MigrationRecord, MigrationRecordView};
use crate::seqs::{any, lemma_position_is, lemma_position_none, list_clone};
use crate::sql_schema::{SequenceView, SqlSchema, SqlSchemaView, TableView};
use crate::text::{contains_text, str_contains, str_eq};
use vstd::prelude::*;
use vstd::string::*;

verus! {

/// What there is to do in order to have a migrations table.
#[derive(Debug, PartialEq, Eq, Structural, Clone, Copy)]
pub enum InitializeAction {
    /// The table is there: nothing.
    Nothing,
    /// The database is empty: create the table.
    CreateMigrationsTable,
}

/// The database holds things that no migration made.
#[derive(Debug, PartialEq, Eq, Structural, Clone, Copy)]
pub struct DatabaseSchemaNotEmpty {}

/// The persistence was never initialized: there is no migrations table.
#[derive(Debug, PartialEq, Eq, Structural, Clone, Copy)]
pub struct PersistenceNotInitializedError {}

/// The tables named `_prisma_migrations`.
pub open spec fn is_migrations_table() -> spec_fn(TableView) -> bool {
    |t: TableView| t.name == "_prisma_migrations"@
}

/// The tables that are not the table of the earlier kind of migrations.
pub open spec fn is_foreign_table() -> spec_fn(TableView) -> bool {
    |t: TableView| t.name != "_Migration"@
}

/// The sequences that do not serve the table of the earlier kind of migrations.
pub open spec fn is_foreign_sequence() -> spec_fn(SequenceView) -> bool {
    |s: SequenceView| !contains_text(s.name, "_Migration"@)
}

/// What initializing finds on a schema. The table of the earlier kind of
/// migrations and its sequences are overlooked. Where the migrations table
/// is there, nothing is left to do; where the database is otherwise empty,
/// the table is to be created; a database that holds anything else is
/// refused.
pub open spec fn initialization(s: SqlSchemaView) -> Result<InitializeAction, DatabaseSchemaNotEmpty> {
    if any(s.tables, is_migrations_table()) {
        Ok(InitializeAction::Nothing)
    } else if any(s.tables, is_foreign_table()) || s.enums.len() > 0 || any(
        s.sequences,
        is_foreign_sequence(),
    ) {
        Err(DatabaseSchemaNotEmpty {  })
    } else {
        Ok(InitializeAction::CreateMigrationsTable)
    }
}

/// Decides what there is to do in order to have a migrations table on a
/// database of the given schema.
#[verifier::loop_isolation(false)]
pub fn initialize(schema: &SqlSchema) -> (r: Result<InitializeAction, DatabaseSchemaNotEmpty>)
    ensures
        r == initialization(schema.deep_view()),
{
    let ghost sv = schema.deep_view();
    let mut foreign: bool = false;
    let mut i: usize = 0;
    while i < schema.tables.len()
        invariant
            i <= schema.tables.len(),
            forall|j: int| 0 <= j < i ==> !is_migrations_table()(#[trigger] sv.tables[j]),
            !foreign ==> forall|j: int| 0 <= j < i ==> !is_foreign_table()(#[trigger] sv.tables[j]),
            foreign ==> any(sv.tables, is_foreign_table()),
        decreases schema.tables.len() - i,
    {
        assert(sv.tables[i as int] == schema.tables[i as int].deep_view());
        if str_eq(schema.tables[i].name.as_str(), "_prisma_migrations") {
            proof {
                lemma_position_is(sv.tables, is_migrations_table(), i as int);
            }
            return Ok(InitializeAction::Nothing);
        }
        if !foreign && !str_eq(schema.tables[i].name.as_str(), "_Migration") {
            proof {
                lemma_position_is(sv.tables, is_foreign_table(), i as int);
            }
            foreign = true;
        }
        i = i + 1;
    }
    proof {
        lemma_position_none(sv.tables, is_migrations_table());
        if !foreign {
            lemma_position_none(sv.tables, is_foreign_table());
        }
    }
    if foreign || schema.enums.len() > 0 {
        return Err(DatabaseSchemaNotEmpty {  });
    }
    let mut k: usize = 0;
    while k < schema.sequences.len()
        invariant
            k <= schema.sequences.len(),
            forall|j: int| 0 <= j < k ==> !is_foreign_sequence()(#[trigger] sv.sequences[j]),
        decreases schema.sequences.len() - k,
    {
        assert(sv.sequences[k as int] == schema.sequences[k as int].deep_view());
        if !str_contains(schema.sequences[k].name.as_str(), "_Migration") {
            proof {
                lemma_position_is(sv.sequences, is_foreign_sequence(), k as int);
            }
            return Err(DatabaseSchemaNotEmpty {  });
        }
        k = k + 1;
    }
    proof {
        lemma_position_none(sv.sequences, is_foreign_sequence());
    }
    Ok(InitializeAction::CreateMigrationsTable)
}

/// The record of a migration that has just started.
pub open spec fn started_record(
    id: Seq<char>,
    migration_name: Seq<char>,
    script: Seq<char>,
    checksum: Seq<char>,
    now: i64,
) -> MigrationRecordView {
    MigrationRecordView {
        id,
        checksum,
        finished_at: None,
        migration_name,
        logs: Seq::empty(),
        rolled_back_at: None,
        started_at: now,
        applied_steps_count: 0,
        script,
    }
}

/// A record after a step of its migration was applied: one step more, up
/// to the greatest count that can be held, and the log as it is now.
pub open spec fn after_step(
    id: Seq<char>,
    logs: Seq<char>,
) -> spec_fn(MigrationRecordView) -> MigrationRecordView {
    |r: MigrationRecordView|
        if r.id == id {
            MigrationRecordView {
                applied_steps_count: if r.applied_steps_count < u32::MAX {
                    (r.applied_steps_count + 1) as u32
                } else {
                    r.applied_steps_count
                },
                logs,
                ..r
            }
        } else {
            r
        }
}

/// A record after a step of its migration failed: the log as it is now.
pub open spec fn after_failure(
    id: Seq<char>,
    logs: Seq<char>,
) -> spec_fn(MigrationRecordView) -> MigrationRecordView {
    |r: MigrationRecordView|
        if r.id == id {
            MigrationRecordView { logs, ..r }
        } else {
            r
        }
}

/// A record after its migration ended.
pub open spec fn after_finish(
    id: Seq<char>,
    now: i64,
) -> spec_fn(MigrationRecordView) -> MigrationRecordView {
    |r: MigrationRecordView|
        if r.id == id {
            MigrationRecordView { finished_at: Some(now), ..r }
        } else {
            r
        }
}

/// The migrations table. Records are only added at its end, and changed
/// only by the migration they belong to.
#[derive(Debug, PartialEq)]
pub struct MigrationsTable {
    pub records: Vec<MigrationRecord>,
}

impl DeepView for MigrationsTable {
    type V = Seq<MigrationRecordView>;

    open spec fn deep_view(&self) -> Seq<MigrationRecordView> {
        self.records.deep_view()
    }
}

impl MigrationsTable {
    /// A table without records.
    pub fn new() -> (r: MigrationsTable)
        ensures
            r.deep_view() == Seq::<MigrationRecordView>::empty(),
    {
        let r = MigrationsTable { records: Vec::new() };
        assert(r.records.deep_view() =~= Seq::<MigrationRecordView>::empty());
        r
    }

    /// Records that a migration has started, under the identifier given,
    /// which is returned.
    pub fn record_migration_started_impl(
        &mut self,
        id: String,
        migration_name: &str,
        script: &str,
        checksum: &str,
        now: i64,
    ) -> (r: String)
        ensures
            r@ == id@,
            final(self).deep_view() == old(self).deep_view().push(
                started_record(id@, migration_name@, script@, checksum@, now),
            ),
    {
        let record = MigrationRecord {
            id: id.clone(),
            checksum: checksum.to_owned(),
            finished_at: None,
            migration_name: migration_name.to_owned(),
            logs: String::new(),
            rolled_back_at: None,
            started_at: now,
            applied_steps_count: 0,
            script: script.to_owned(),
        };
        let ghost before = self.records.deep_view();
        let ghost rv = record.deep_view();
        self.records.push(record);
        assert(self.records.deep_view() =~= before.push(rv));
        id
    }

    /// Records that a step of the migration was applied.
    #[verifier::loop_isolation(false)]
    pub fn record_successful_step(&mut self, id: &str, logs: &str)
        ensures
            final(self).deep_view() == old(self).deep_view().map_values(after_step(id@, logs@)),
    {
        let ghost f = after_step(id@, logs@);
        let ghost before = self.records.deep_view();
        let mut out: Vec<MigrationRecord> = Vec::new();
        let mut i: usize = 0;
        while i < self.records.len()
            invariant
                i <= self.records.len(),
                self.records.deep_view() == before,
                out.len() == i,
                forall|j: int| 0 <= j < i ==> #[trigger] out.deep_view()[j] == f(before[j]),
            decreases self.records.len() - i,
        {
            let r: &MigrationRecord = &self.records[i];
            assert(before[i as int] == r.deep_view());
            let mut copy: MigrationRecord = r.clone();
            if str_eq(r.id.as_str(), id) {
                if copy.applied_steps_count < u32::MAX {
                    copy.applied_steps_count = copy.applied_steps_count + 1;
                }
                copy.logs = logs.to_owned();
            }
            let ghost ob = out.deep_view();
            let ghost cv = copy.deep_view();
            out.push(copy);
            assert(out.deep_view() =~= ob.push(cv));
            i = i + 1;
        }
        assert(out.deep_view() =~= before.map_values(f));
        self.records = out;
    }

    /// Records that a step of the migration failed.
    #[verifier::loop_isolation(false)]
    pub fn record_failed_step(&mut self, id: &str, logs: &str)
        ensures
            final(self).deep_view() == old(self).deep_view().map_values(after_failure(id@, logs@)),
    {
        let ghost f = after_failure(id@, logs@);
        let ghost before = self.records.deep_view();
        let mut out: Vec<MigrationRecord> = Vec::new();
        let mut i: usize = 0;
        while i < self.records.len()
            invariant
                i <= self.records.len(),
                self.records.deep_view() == before,
                out.len() == i,
                forall|j: int| 0 <= j < i ==> #[trigger] out.deep_view()[j] == f(before[j]),
            decreases self.records.len() - i,
        {
            let r: &MigrationRecord = &self.records[i];
            assert(before[i as int] == r.deep_view());
            let mut copy: MigrationRecord = r.clone();
            if str_eq(r.id.as_str(), id) {
                copy.logs = logs.to_owned();
            }
            let ghost ob = out.deep_view();
            let ghost cv = copy.deep_view();
            out.push(copy);
            assert(out.deep_view() =~= ob.push(cv));
            i = i + 1;
        }
        assert(out.deep_view() =~= before.map_values(f));
        self.records = out;
    }

    /// Records that the migration ended.
    #[verifier::loop_isolation(false)]
    pub fn record_migration_finished(&mut self, id: &str, now: i64)
        ensures
            final(self).deep_view() == old(self).deep_view().map_values(after_finish(id@, now)),
    {
        let ghost f = after_finish(id@, now);
        let ghost before = self.records.deep_view();
        let mut out: Vec<MigrationRecord> = Vec::new();
        let mut i: usize = 0;
        while i < self.records.len()
            invariant
                i <= self.records.len(),
                self.records.deep_view() == before,
                out.len() == i,
                forall|j: int| 0 <= j < i ==> #[trigger] out.deep_view()[j] == f(before[j]),
            decreases self.records.len() - i,
        {
            let r: &MigrationRecord = &self.records[i];
            assert(before[i as int] == r.deep_view());
            let mut copy: MigrationRecord = r.clone();
            if str_eq(r.id.as_str(), id) {
                copy.finished_at = Some(now);
            }
            let ghost ob = out.deep_view();
            let ghost cv = copy.deep_view();
            out.push(copy);
            assert(out.deep_view() =~= ob.push(cv));
            i = i + 1;
        }
        assert(out.deep_view() =~= before.map_values(f));
        self.records = out;
    }
}

/// The migrations that the table records, in the order in which they were
/// recorded. A table that is not there is not the same as a table without
/// records: it means that the persistence was never initialized.
pub fn list_migrations(table: Option<&MigrationsTable>) -> (r: Result<
    Vec<MigrationRecord>,
    PersistenceNotInitializedError,
>)
    ensures
        match table {
            Some(t) => r matches Ok(records) && records.deep_view() == t.deep_view(),
            None => r is Err,
        },
{
    match table {
        Some(t) => Ok(list_clone(&t.records)),
        None => Err(PersistenceNotInitializedError {  }),
    }
}

} // verus!
