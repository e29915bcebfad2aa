//! Comparing the migrations directory, the migrations table and the live
//! schema.

use crate::migrations::records::{
    DiagnoseMigrationHistoryOutput, DiagnoseMigrationHistoryOutputView, DriftDiagnostic,
    DriftDiagnosticView, HistoryDiagnostic, HistoryDiagnosticView, MigrationDirectory,
    MigrationDirectoryView, MigrationDoesNotApplyCleanly, MigrationDoesNotApplyCleanlyView,
    MigrationRecord, MigrationRecordView,
};
use crate::seqs::{
    any, find, lemma_filter_map_step, lemma_filter_step, lemma_map_step, lemma_position_is,
    lemma_position_none,
};
use crate::sql_schema::{SqlSchema, SqlSchemaView};
use vstd::prelude::*;
use vstd::string::*;

verus! {

/// The name of a migration of the directory.
pub open spec fn directory_name() -> spec_fn(MigrationDirectoryView) -> Seq<char> {
    |m: MigrationDirectoryView| m.name
}

/// The name of a migration of the table.
pub open spec fn recorded_name() -> spec_fn(MigrationRecordView) -> Seq<char> {
    |r: MigrationRecordView| r.migration_name
}

/// The names that are not among `ys`.
pub open spec fn absent_from(ys: Seq<Seq<char>>) -> spec_fn(Seq<char>) -> bool {
    |x: Seq<char>| !ys.contains(x)
}

/// The names of `xs` that are not among `ys`, in the order of `xs`.
pub open spec fn missing_from(xs: Seq<Seq<char>>, ys: Seq<Seq<char>>) -> Seq<Seq<char>> {
    xs.filter(absent_from(ys))
}

/// The last name of `h` that is also among `d`.
pub open spec fn last_common(d: Seq<Seq<char>>, h: Seq<Seq<char>>) -> Option<Seq<char>>
    decreases h.len(),
{
    if h.len() == 0 {
        None
    } else if d.contains(h.last()) {
        Some(h.last())
    } else {
        last_common(d, h.drop_last())
    }
}

/// How a directory that holds the migrations `d` and a table that holds the
/// migrations `h` differ.
pub open spec fn history_finding(d: Seq<Seq<char>>, h: Seq<Seq<char>>) -> Option<
    HistoryDiagnosticView,
> {
    let unapplied = missing_from(d, h);
    let unpersisted = missing_from(h, d);
    if unapplied.len() == 0 && unpersisted.len() == 0 {
        None
    } else if unpersisted.len() == 0 {
        Some(HistoryDiagnosticView::DatabaseIsBehind { unapplied_migration_names: unapplied })
    } else if unapplied.len() == 0 {
        Some(
            HistoryDiagnosticView::MigrationsDirectoryIsBehind {
                unpersisted_migration_names: unpersisted,
            },
        )
    } else {
        Some(
            HistoryDiagnosticView::HistoriesDiverge {
                last_common_migration_name: last_common(d, h),
                unpersisted_migration_names: unpersisted,
                unapplied_migration_names: unapplied,
            },
        )
    }
}

/// The records of the given migration.
pub open spec fn record_named(name: Seq<char>) -> spec_fn(MigrationRecordView) -> bool {
    |r: MigrationRecordView| r.migration_name == name
}

/// The migrations of the directory whose script is not the one that the
/// table recorded for them.
pub open spec fn is_edited(h: Seq<MigrationRecordView>) -> spec_fn(MigrationDirectoryView) -> bool {
    |m: MigrationDirectoryView|
        match find(h, record_named(m.name)) {
            Some(r) => r.checksum != m.checksum,
            None => false,
        }
}

/// The records of migrations that started and neither ended nor were rolled back.
pub open spec fn is_failed() -> spec_fn(MigrationRecordView) -> bool {
    |r: MigrationRecordView| r.finished_at is None && r.rolled_back_at is None
}

/// The records of the given migration that ended and were not rolled back.
pub open spec fn applied_record_named(name: Seq<char>) -> spec_fn(MigrationRecordView) -> bool {
    |r: MigrationRecordView|
        r.migration_name == name && r.finished_at is Some && r.rolled_back_at is None
}

/// The migrations of the directory that the table holds as applied.
pub open spec fn is_applied(h: Seq<MigrationRecordView>) -> spec_fn(MigrationDirectoryView) -> bool {
    |m: MigrationDirectoryView| any(h, applied_record_named(m.name))
}

/// Whether the live schema is the one that the applied migrations produce.
/// The names of foreign key constraints and their actions are not compared.
pub open spec fn drift_finding(expected: SqlSchemaView, live: SqlSchemaView) -> Option<
    DriftDiagnosticView,
> {
    if expected.normal() == live.normal() {
        None
    } else {
        Some(DriftDiagnosticView::DriftDetected)
    }
}

/// What there is to find, given the directory, the table, and what became of
/// applying the directory's applied migrations to an empty database.
pub open spec fn diagnosis(
    d: Seq<MigrationDirectoryView>,
    h: Seq<MigrationRecordView>,
    replayed: Result<SqlSchemaView, MigrationDoesNotApplyCleanlyView>,
    live: SqlSchemaView,
) -> Result<DiagnoseMigrationHistoryOutputView, MigrationDoesNotApplyCleanlyView> {
    match replayed {
        Err(e) => Err(e),
        Ok(expected) => Ok(
            DiagnoseMigrationHistoryOutputView {
                drift: drift_finding(expected, live),
                history: history_finding(
                    d.map_values(directory_name()),
                    h.map_values(recorded_name()),
                ),
                failed_migration_names: h.filter(is_failed()).map_values(recorded_name()),
                edited_migration_names: d.filter(is_edited(h)).map_values(directory_name()),
            },
        ),
    }
}

/// The names of the migrations of the directory.
#[verifier::loop_isolation(false)]
pub fn directory_names(d: &Vec<MigrationDirectory>) -> (r: Vec<String>)
    ensures
        r.deep_view() == d.deep_view().map_values(directory_name()),
{
    let mut out: Vec<String> = Vec::new();
    let mut i: usize = 0;
    while i < d.len()
        invariant
            i <= d.len(),
            out.deep_view() == d.deep_view().take(i as int).map_values(directory_name()),
        decreases d.len() - i,
    {
        let ghost before = out.deep_view();
        out.push(d[i].name.clone());
        proof {
            lemma_map_step(d.deep_view(), directory_name(), i as int);
            assert(out.deep_view() =~= before.push(d[i as int].name@));
        }
        i = i + 1;
    }
    assert(d.deep_view().take(i as int) =~= d.deep_view());
    out
}

/// The names of the migrations of the table.
#[verifier::loop_isolation(false)]
pub fn recorded_names(h: &Vec<MigrationRecord>) -> (r: Vec<String>)
    ensures
        r.deep_view() == h.deep_view().map_values(recorded_name()),
{
    let mut out: Vec<String> = Vec::new();
    let mut i: usize = 0;
    while i < h.len()
        invariant
            i <= h.len(),
            out.deep_view() == h.deep_view().take(i as int).map_values(recorded_name()),
        decreases h.len() - i,
    {
        let ghost before = out.deep_view();
        out.push(h[i].migration_name.clone());
        proof {
            lemma_map_step(h.deep_view(), recorded_name(), i as int);
            assert(out.deep_view() =~= before.push(h[i as int].migration_name@));
        }
        i = i + 1;
    }
    assert(h.deep_view().take(i as int) =~= h.deep_view());
    out
}

/// The names of `xs` that are not among `ys`, in the order of `xs`.
#[verifier::loop_isolation(false)]
pub fn names_missing_from(xs: &Vec<String>, ys: &Vec<String>) -> (r: Vec<String>)
    ensures
        r.deep_view() == missing_from(xs.deep_view(), ys.deep_view()),
{
    let ghost p = absent_from(ys.deep_view());
    let mut out: Vec<String> = Vec::new();
    let mut i: usize = 0;
    while i < xs.len()
        invariant
            i <= xs.len(),
            out.deep_view() == xs.deep_view().take(i as int).filter(p),
        decreases xs.len() - i,
    {
        let ghost before = out.deep_view();
        proof {
            lemma_filter_step(xs.deep_view(), p, i as int);
        }
        if !crate::text::names_contain(ys, xs[i].as_str()) {
            out.push(xs[i].clone());
            assert(out.deep_view() =~= before.push(xs[i as int]@));
        }
        i = i + 1;
    }
    assert(xs.deep_view().take(i as int) =~= xs.deep_view());
    out
}

/// The last name of `h` that is also among `d`.
#[verifier::loop_isolation(false)]
pub fn last_common_name(d: &Vec<String>, h: &Vec<String>) -> (r: Option<String>)
    ensures
        r.deep_view() == last_common(d.deep_view(), h.deep_view()),
{
    let mut i: usize = h.len();
    assert(h.deep_view().take(i as int) =~= h.deep_view());
    while i > 0
        invariant
            i <= h.len(),
            last_common(d.deep_view(), h.deep_view()) == last_common(
                d.deep_view(),
                h.deep_view().take(i as int),
            ),
        decreases i,
    {
        let ghost part = h.deep_view().take(i as int);
        assert(part.last() == h[i - 1]@);
        assert(part.drop_last() =~= h.deep_view().take(i - 1));
        if crate::text::names_contain(d, h[i - 1].as_str()) {
            return Some(h[i - 1].clone());
        }
        i = i - 1;
    }
    assert(h.deep_view().take(0).len() == 0);
    None
}

/// How the directory and the table differ, by the names they hold.
pub fn diagnose_history(d: &Vec<String>, h: &Vec<String>) -> (r: Option<HistoryDiagnostic>)
    ensures
        r.deep_view() == history_finding(d.deep_view(), h.deep_view()),
{
    let unapplied: Vec<String> = names_missing_from(d, h);
    let unpersisted: Vec<String> = names_missing_from(h, d);
    if unapplied.len() == 0 && unpersisted.len() == 0 {
        None
    } else if unpersisted.len() == 0 {
        Some(HistoryDiagnostic::DatabaseIsBehind { unapplied_migration_names: unapplied })
    } else if unapplied.len() == 0 {
        Some(
            HistoryDiagnostic::MigrationsDirectoryIsBehind {
                unpersisted_migration_names: unpersisted,
            },
        )
    } else {
        Some(
            HistoryDiagnostic::HistoriesDiverge {
                last_common_migration_name: last_common_name(d, h),
                unpersisted_migration_names: unpersisted,
                unapplied_migration_names: unapplied,
            },
        )
    }
}

/// The first record of the given migration.
#[verifier::loop_isolation(false)]
pub fn find_record<'a>(h: &'a Vec<MigrationRecord>, name: &str) -> (r: Option<&'a MigrationRecord>)
    ensures
        r.deep_view() == find(h.deep_view(), record_named(name@)),
{
    let ghost p = record_named(name@);
    let mut i: usize = 0;
    while i < h.len()
        invariant
            i <= h.len(),
            forall|j: int| 0 <= j < i ==> !p(#[trigger] h.deep_view()[j]),
        decreases h.len() - i,
    {
        if crate::text::str_eq(h[i].migration_name.as_str(), name) {
            proof {
                lemma_position_is(h.deep_view(), p, i as int);
            }
            return Some(&h[i]);
        }
        i = i + 1;
    }
    proof {
        lemma_position_none(h.deep_view(), p);
    }
    None
}

/// The names of the migrations whose script was changed after they were
/// applied, in the order of the directory.
#[verifier::loop_isolation(false)]
pub fn edited_migration_names(d: &Vec<MigrationDirectory>, h: &Vec<MigrationRecord>) -> (r: Vec<
    String,
>)
    ensures
        r.deep_view() == d.deep_view().filter(is_edited(h.deep_view())).map_values(
            directory_name(),
        ),
{
    let ghost p = is_edited(h.deep_view());
    let mut out: Vec<String> = Vec::new();
    let mut i: usize = 0;
    while i < d.len()
        invariant
            i <= d.len(),
            out.deep_view() == d.deep_view().take(i as int).filter(p).map_values(directory_name()),
        decreases d.len() - i,
    {
        let ghost before = out.deep_view();
        proof {
            lemma_filter_map_step(d.deep_view(), p, directory_name(), i as int);
        }
        let edited: bool = match find_record(h, d[i].name.as_str()) {
            Some(record) => record.checksum != d[i].checksum,
            None => false,
        };
        if edited {
            out.push(d[i].name.clone());
            assert(out.deep_view() =~= before.push(d[i as int].name@));
        }
        i = i + 1;
    }
    assert(d.deep_view().take(i as int) =~= d.deep_view());
    out
}

/// The names of the migrations that started and neither ended nor were
/// rolled back, in the order of the table.
#[verifier::loop_isolation(false)]
pub fn failed_migration_names(h: &Vec<MigrationRecord>) -> (r: Vec<String>)
    ensures
        r.deep_view() == h.deep_view().filter(is_failed()).map_values(recorded_name()),
{
    let mut out: Vec<String> = Vec::new();
    let mut i: usize = 0;
    while i < h.len()
        invariant
            i <= h.len(),
            out.deep_view() == h.deep_view().take(i as int).filter(is_failed()).map_values(
                recorded_name(),
            ),
        decreases h.len() - i,
    {
        let ghost before = out.deep_view();
        proof {
            lemma_filter_map_step(h.deep_view(), is_failed(), recorded_name(), i as int);
        }
        if h[i].finished_at.is_none() && h[i].rolled_back_at.is_none() {
            out.push(h[i].migration_name.clone());
            assert(out.deep_view() =~= before.push(h[i as int].migration_name@));
        }
        i = i + 1;
    }
    assert(h.deep_view().take(i as int) =~= h.deep_view());
    out
}

/// The migrations of the directory that the table holds as applied: those
/// to apply to an empty database in order to learn which schema the history
/// stands for.
#[verifier::loop_isolation(false)]
pub fn migrations_to_replay(d: &Vec<MigrationDirectory>, h: &Vec<MigrationRecord>) -> (r: Vec<
    MigrationDirectory,
>)
    ensures
        r.deep_view() == d.deep_view().filter(is_applied(h.deep_view())),
{
    let ghost p = is_applied(h.deep_view());
    let mut out: Vec<MigrationDirectory> = Vec::new();
    let mut i: usize = 0;
    while i < d.len()
        invariant
            i <= d.len(),
            out.deep_view() == d.deep_view().take(i as int).filter(p),
        decreases d.len() - i,
    {
        let ghost before = out.deep_view();
        proof {
            lemma_filter_step(d.deep_view(), p, i as int);
        }
        let ghost q = applied_record_named(d[i as int].name@);
        let mut applied: bool = false;
        let mut k: usize = 0;
        while k < h.len() && !applied
            invariant
                k <= h.len(),
                !applied ==> forall|j: int| 0 <= j < k ==> !q(#[trigger] h.deep_view()[j]),
                applied ==> any(h.deep_view(), q),
            decreases h.len() - k + if applied { 0int } else { 1int },
        {
            let rec: &MigrationRecord = &h[k];
            if rec.migration_name == d[i].name && rec.finished_at.is_some()
                && rec.rolled_back_at.is_none() {
                proof {
                    lemma_position_is(h.deep_view(), q, k as int);
                }
                applied = true;
            } else {
                k = k + 1;
            }
        }
        proof {
            if !applied {
                lemma_position_none(h.deep_view(), q);
            }
        }
        if applied {
            out.push(d[i].clone());
            assert(out.deep_view() =~= before.push(d[i as int].deep_view()));
        }
        i = i + 1;
    }
    assert(d.deep_view().take(i as int) =~= d.deep_view());
    out
}

/// Whether the live schema differs from the one that the applied migrations
/// produce.
pub fn detect_drift(expected: &SqlSchema, live: &SqlSchema) -> (r: Option<DriftDiagnostic>)
    ensures
        r.deep_view() == drift_finding(expected.deep_view(), live.deep_view()),
{
    if expected.matches(live) {
        None
    } else {
        Some(DriftDiagnostic::DriftDetected)
    }
}

/// Compares the migrations directory, the migrations table and the live
/// schema. `replayed` is what became of applying the migrations named by
/// `migrations_to_replay` to an empty database: the schema they produce, or
/// the migration that failed, which ends the diagnosis with that failure.
pub fn diagnose_migration_history(
    directory: &Vec<MigrationDirectory>,
    history: &Vec<MigrationRecord>,
    replayed: Result<SqlSchema, MigrationDoesNotApplyCleanly>,
    live: &SqlSchema,
) -> (r: Result<DiagnoseMigrationHistoryOutput, MigrationDoesNotApplyCleanly>)
    ensures
        match (r, replayed) {
            (Ok(out), Ok(expected)) => diagnosis(
                directory.deep_view(),
                history.deep_view(),
                Ok(expected.deep_view()),
                live.deep_view(),
            ) == Ok::<DiagnoseMigrationHistoryOutputView, MigrationDoesNotApplyCleanlyView>(
                out.deep_view(),
            ),
            (Err(e), Err(f)) => e.deep_view() == f.deep_view(),
            _ => false,
        },
{
    match replayed {
        Err(e) => Err(e),
        Ok(expected) => {
            let d_names: Vec<String> = directory_names(directory);
            let h_names: Vec<String> = recorded_names(history);
            Ok(
                DiagnoseMigrationHistoryOutput {
                    drift: detect_drift(&expected, live),
                    history: diagnose_history(&d_names, &h_names),
                    failed_migration_names: failed_migration_names(history),
                    edited_migration_names: edited_migration_names(directory, history),
                },
            )
        },
    }
}

} // verus!
