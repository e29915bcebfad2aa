//! Telling how dangerous a change of the database is, from how many rows
//! and values the database holds.

use crate::text::str_eq;
use vstd::hash_map::StringHashMap;
use vstd::prelude::*;
use vstd::string::*;

verus! {

/// How many values that are not null a column holds.
pub struct ValueCount {
    pub table: String,
    pub column: String,
    pub count: i64,
}

/// The count that was set last for the column among the first `k` counts.
pub open spec fn value_count_in(
    counts: Seq<ValueCount>,
    table: Seq<char>,
    column: Seq<char>,
    k: int,
) -> Option<
    i64,
>
    decreases k,
{
    if k <= 0 {
        None
    } else if counts[k - 1].table@ == table && counts[k - 1].column@ == column {
        Some(counts[k - 1].count)
    } else {
        value_count_in(counts, table, column, k - 1)
    }
}

/// The information about the current state of the database gathered by the destructive change checker.
pub struct DatabaseInspectionResults {
    /// From table name to row count.
    pub row_counts: StringHashMap<i64>,
    /// From table name and column name to the count of values that are
    /// not null; a later count of a column replaces an earlier one.
    pub value_counts: Vec<ValueCount>,
}

impl DatabaseInspectionResults {
    /// The row count that was set for the table, if one was.
    pub open spec fn row_count_of(&self, table: Seq<char>) -> Option<i64> {
        if self.row_counts@.contains_key(table) {
            Some(self.row_counts@[table])
        } else {
            None
        }
    }

    /// The count of values that was set for the column, if one was.
    pub open spec fn value_count_of(&self, table: Seq<char>, column: Seq<char>) -> Option<i64> {
        value_count_in(self.value_counts@, table, column, self.value_counts@.len() as int)
    }

    /// Results without any count.
    pub fn new() -> (r: DatabaseInspectionResults)
        ensures
            forall|t: Seq<char>| r.row_count_of(t) is None,
            forall|t: Seq<char>, c: Seq<char>| r.value_count_of(t, c) is None,
    {
        DatabaseInspectionResults { row_counts: StringHashMap::new(), value_counts: Vec::new() }
    }

    pub fn get_row_count(&self, table: &str) -> (r: Option<i64>)
        ensures
            r == self.row_count_of(table@),
    {
        match self.row_counts.get(table) {
            Some(c) => Some(*c),
            None => None,
        }
    }

    pub fn set_row_count(&mut self, table: String, row_count: i64)
        ensures
            final(self).row_count_of(table@) == Some(row_count),
            forall|t: Seq<char>| t != table@ ==> final(self).row_count_of(t) == old(self).row_count_of(t),
            forall|t: Seq<char>, c: Seq<char>|
                final(self).value_count_of(t, c) == old(self).value_count_of(t, c),
    {
        self.row_counts.insert(table, row_count);
    }

    #[verifier::loop_isolation(false)]
    pub fn get_row_and_non_null_value_count(&self, table: &str, column: &str) -> (r: (
        Option<i64>,
        Option<i64>,
    ))
        ensures
            r.0 == self.row_count_of(table@),
            r.1 == self.value_count_of(table@, column@),
    {
        let ghost counts = self.value_counts@;
        let mut values: Option<i64> = None;
        let mut k: usize = self.value_counts.len();
        while k > 0 && values.is_none()
            invariant
                k <= self.value_counts.len(),
                values.is_none() ==> value_count_in(counts, table@, column@, counts.len() as int)
                    == value_count_in(counts, table@, column@, k as int),
                values.is_some() ==> values == value_count_in(
                    counts,
                    table@,
                    column@,
                    counts.len() as int,
                ),
            decreases k + if values.is_none() { 1int } else { 0int },
        {
            let v: &ValueCount = &self.value_counts[k - 1];
            if str_eq(v.table.as_str(), table) && str_eq(v.column.as_str(), column) {
                values = Some(v.count);
            } else {
                k = k - 1;
            }
        }
        (self.get_row_count(table), values)
    }

    pub fn set_value_count(&mut self, table: String, column: String, count: i64)
        ensures
            final(self).value_count_of(table@, column@) == Some(count),
            forall|t: Seq<char>, c: Seq<char>|
                !(t == table@ && c == column@) ==> final(self).value_count_of(t, c) == old(
                    self,
                ).value_count_of(t, c),
            forall|t: Seq<char>| final(self).row_count_of(t) == old(self).row_count_of(t),
    {
        let ghost before = self.value_counts@;
        let entry = ValueCount { table, column, count };
        self.value_counts.push(entry);
        proof {
            let after = self.value_counts@;
            assert(after =~= before.push(entry));
            assert forall|t: Seq<char>, c: Seq<char>| !(t == table@ && c == column@) implies value_count_in(
                after,
                t,
                c,
                after.len() as int,
            ) == value_count_in(before, t, c, before.len() as int) by {
                lemma_same_counts(before, after, t, c, before.len() as int);
            }
        }
    }
}

/// Counts that agree on their first `k` entries give the same count there.
pub proof fn lemma_same_counts(
    a: Seq<ValueCount>,
    b: Seq<ValueCount>,
    table: Seq<char>,
    column: Seq<char>,
    k: int,
)
    requires
        0 <= k <= a.len(),
        k <= b.len(),
        forall|i: int| 0 <= i < k ==> a[i] == b[i],
    ensures
        value_count_in(a, table, column, k) == value_count_in(b, table, column, k),
    decreases k,
{
    if k > 0 {
        lemma_same_counts(a, b, table, column, k - 1);
    }
}

/// A change of the database that may lose data or fail.
#[derive(Debug, PartialEq)]
pub enum DestructiveCheck {
    /// A table is dropped.
    DropTable { table: String },
    /// A column is dropped or changed in a way that loses its values.
    DropColumn { table: String, column: String },
    /// A required column without a default is added.
    AddRequiredColumn { table: String, column: String },
    /// A column that could be null is made required.
    MakeColumnRequired { table: String, column: String },
}

/// How dangerous a change is.
#[derive(Debug, PartialEq, Eq, Structural, Clone, Copy)]
pub enum Risk {
    /// Nothing is lost.
    Safe,
    /// Data is lost: the caller must ask for the change once more to have it.
    Warning,
    /// The database would refuse the change.
    Unexecutable,
}

/// How dangerous a change is, given the counts that are known. A count
/// that is not known is taken for the worst. Dropping a table or a column
/// loses the rows or values that are there; a required column cannot be
/// added to a table that has rows; a column cannot be made required while
/// it holds nulls, that is, while the table has more rows than the column
/// has values.
pub open spec fn risk_of(check: DestructiveCheck, rows: Option<i64>, values: Option<i64>) -> Risk {
    match check {
        DestructiveCheck::DropTable { .. } => if rows == Some(0i64) {
            Risk::Safe
        } else {
            Risk::Warning
        },
        DestructiveCheck::DropColumn { .. } => if rows == Some(0i64) || values == Some(0i64) {
            Risk::Safe
        } else {
            Risk::Warning
        },
        DestructiveCheck::AddRequiredColumn { .. } => if rows == Some(0i64) {
            Risk::Safe
        } else {
            Risk::Unexecutable
        },
        DestructiveCheck::MakeColumnRequired { .. } => match (rows, values) {
            (Some(r), Some(v)) => if r <= v {
                Risk::Safe
            } else {
                Risk::Unexecutable
            },
            (Some(r), None) => if r == 0 {
                Risk::Safe
            } else {
                Risk::Unexecutable
            },
            _ => Risk::Unexecutable,
        },
    }
}

impl DestructiveCheck {
    /// The table that the change is about.
    pub open spec fn table_of(self) -> Seq<char> {
        match self {
            DestructiveCheck::DropTable { table } => table@,
            DestructiveCheck::DropColumn { table, .. } => table@,
            DestructiveCheck::AddRequiredColumn { table, .. } => table@,
            DestructiveCheck::MakeColumnRequired { table, .. } => table@,
        }
    }

    /// The column that the change is about, if it is about one.
    pub open spec fn column_of(self) -> Option<Seq<char>> {
        match self {
            DestructiveCheck::DropTable { .. } => None,
            DestructiveCheck::DropColumn { column, .. } => Some(column@),
            DestructiveCheck::AddRequiredColumn { column, .. } => Some(column@),
            DestructiveCheck::MakeColumnRequired { column, .. } => Some(column@),
        }
    }

    /// How dangerous the change is, by the counts that were gathered.
    pub fn evaluate(&self, results: &DatabaseInspectionResults) -> (r: Risk)
        ensures
            r == risk_of(
                *self,
                results.row_count_of(self.table_of()),
                match self.column_of() {
                    Some(c) => results.value_count_of(self.table_of(), c),
                    None => None,
                },
            ),
    {
        match self {
            DestructiveCheck::DropTable { table } => {
                match results.get_row_count(table.as_str()) {
                    Some(0) => Risk::Safe,
                    _ => Risk::Warning,
                }
            },
            DestructiveCheck::DropColumn { table, column } => {
                let (rows, values) = results.get_row_and_non_null_value_count(
                    table.as_str(),
                    column.as_str(),
                );
                let no_rows: bool = match rows {
                    Some(0) => true,
                    _ => false,
                };
                let no_values: bool = match values {
                    Some(0) => true,
                    _ => false,
                };
                if no_rows || no_values {
                    Risk::Safe
                } else {
                    Risk::Warning
                }
            },
            DestructiveCheck::AddRequiredColumn { table, .. } => {
                match results.get_row_count(table.as_str()) {
                    Some(0) => Risk::Safe,
                    _ => Risk::Unexecutable,
                }
            },
            DestructiveCheck::MakeColumnRequired { table, column } => {
                let (rows, values) = results.get_row_and_non_null_value_count(
                    table.as_str(),
                    column.as_str(),
                );
                match (rows, values) {
                    (Some(r), Some(v)) => if r <= v {
                        Risk::Safe
                    } else {
                        Risk::Unexecutable
                    },
                    (Some(r), None) => if r == 0 {
                        Risk::Safe
                    } else {
                        Risk::Unexecutable
                    },
                    _ => Risk::Unexecutable,
                }
            },
        }
    }
}

} // verus!
