//! What holds of a diagnosis whatever the directory and the table hold.

use crate::migrations::diagnose::{
    absent_from, diagnosis, directory_name, history_finding, is_edited, is_failed, missing_from,
    recorded_name,
};
use crate::migrations::records::{
    HistoryDiagnosticView, MigrationDirectoryView, MigrationRecordView,
};
use crate::sql_schema::SqlSchemaView;
use vstd::prelude::*;

verus! {

/// Some name of `xs` is not among `ys`.
pub open spec fn some_missing(xs: Seq<Seq<char>>, ys: Seq<Seq<char>>) -> bool {
    exists|i: int| 0 <= i < xs.len() && !ys.contains(#[trigger] xs[i])
}

/// The names of `xs` that are missing from `ys` are none exactly where
/// every name of `xs` is among `ys`.
pub proof fn lemma_missing_from(xs: Seq<Seq<char>>, ys: Seq<Seq<char>>)
    ensures
        missing_from(xs, ys).len() > 0 <==> some_missing(xs, ys),
{
    let p = absent_from(ys);
    if some_missing(xs, ys) {
        let i = choose|i: int| 0 <= i < xs.len() && !ys.contains(#[trigger] xs[i]);
        assert(p(xs[i]));
        xs.lemma_filter_contains(p, i);
    }
    if missing_from(xs, ys).len() > 0 {
        let x = xs.filter(p)[0];
        xs.lemma_filter_pred(p, 0);
        assert(xs.filter(p).contains(x));
        xs.lemma_filter_contains_rev(p, x);
        let i = choose|i: int| 0 <= i < xs.len() && xs[i] == x;
        assert(!ys.contains(xs[i]));
    }
}

/// The findings on the history exclude each other, and which of them is
/// made depends only on whether the directory holds a migration that the
/// table lacks and whether the table holds one that the directory lacks:
/// the database is behind where only the first is so, the directory is
/// behind where only the second is so, the histories diverge where both are
/// so, and there is no finding where neither is so.
pub proof fn lemma_history_findings(d: Seq<Seq<char>>, h: Seq<Seq<char>>)
    ensures
        history_finding(d, h) matches Some(HistoryDiagnosticView::DatabaseIsBehind { .. })
            <==> some_missing(d, h) && !some_missing(h, d),
        history_finding(d, h) matches Some(
            HistoryDiagnosticView::MigrationsDirectoryIsBehind { .. },
        ) <==> !some_missing(d, h) && some_missing(h, d),
        history_finding(d, h) matches Some(HistoryDiagnosticView::HistoriesDiverge { .. })
            <==> some_missing(d, h) && some_missing(h, d),
        history_finding(d, h) is None <==> !some_missing(d, h) && !some_missing(h, d),
        history_finding(d, h) matches Some(
            HistoryDiagnosticView::DatabaseIsBehind { unapplied_migration_names },
        ) ==> unapplied_migration_names == missing_from(d, h),
        history_finding(d, h) matches Some(
            HistoryDiagnosticView::MigrationsDirectoryIsBehind { unpersisted_migration_names },
        ) ==> unpersisted_migration_names == missing_from(h, d),
{
    lemma_missing_from(d, h);
    lemma_missing_from(h, d);
}

/// A directory and a table that hold the same migrations in the same order
/// give no finding on the history.
pub proof fn lemma_same_history(d: Seq<Seq<char>>)
    ensures
        history_finding(d, d) is None,
{
    lemma_history_findings(d, d);
    assert forall|i: int| 0 <= i < d.len() implies d.contains(#[trigger] d[i]) by {}
}

/// Nothing at all is found exactly where the live schema is the expected
/// one, the directory and the table lack none of each other's migrations,
/// no migration failed and none was edited.
pub proof fn lemma_nothing_found(
    d: Seq<MigrationDirectoryView>,
    h: Seq<MigrationRecordView>,
    expected: SqlSchemaView,
    live: SqlSchemaView,
)
    ensures
        diagnosis(d, h, Ok(expected), live) matches Ok(out) && (out.is_empty() <==> {
            &&& expected.normal() == live.normal()
            &&& !some_missing(d.map_values(directory_name()), h.map_values(recorded_name()))
            &&& !some_missing(h.map_values(recorded_name()), d.map_values(directory_name()))
            &&& forall|i: int| 0 <= i < h.len() ==> !is_failed()(#[trigger] h[i])
            &&& forall|i: int| 0 <= i < d.len() ==> !is_edited(h)(#[trigger] d[i])
        }),
{
    lemma_history_findings(d.map_values(directory_name()), h.map_values(recorded_name()));
    lemma_filter_none(h, is_failed());
    lemma_filter_none(d, is_edited(h));
}

/// A filter lets nothing through exactly where no item meets the condition.
pub proof fn lemma_filter_none<T>(s: Seq<T>, p: spec_fn(T) -> bool)
    ensures
        s.filter(p).len() == 0 <==> forall|i: int| 0 <= i < s.len() ==> !p(#[trigger] s[i]),
{
    if s.filter(p).len() > 0 {
        let x = s.filter(p)[0];
        s.lemma_filter_pred(p, 0);
        assert(s.filter(p).contains(x));
        s.lemma_filter_contains_rev(p, x);
        let i = choose|i: int| 0 <= i < s.len() && s[i] == x;
        assert(p(s[i]));
    }
    if exists|i: int| 0 <= i < s.len() && p(#[trigger] s[i]) {
        let i = choose|i: int| 0 <= i < s.len() && p(#[trigger] s[i]);
        s.lemma_filter_contains(p, i);
    }
}

} // verus!
