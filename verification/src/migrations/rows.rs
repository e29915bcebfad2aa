//! The table of the earlier kind of migrations as a database holds it:
//! its columns, and the records that its rows stand for.

use crate::introspection::SqlFamily;
use crate::migrations::legacy::{Migration, MigrationStatus, MigrationView};
use crate::steps::MigrationStep;
use vstd::prelude::*;
use vstd::string::*;

verus! {

/// The name of the migrations table.
pub const MIGRATION_TABLE_NAME: &'static str = "_Migration";

/// What a column of the migrations table holds.
#[derive(Debug, PartialEq, Eq, Structural, Clone, Copy)]
pub enum ColumnKind {
    /// The number of the record, which the database counts up.
    Primary,
    /// A short text.
    Text,
    /// A text of any length.
    UnlimitedText,
    /// A whole number.
    Integer,
    /// A point in time.
    DateTime,
    /// A point in time, or nothing.
    NullableDateTime,
}

/// The kinds of the columns of the migrations table, in the order of the
/// columns: revision, name, datamodel, status, applied, rolled_back,
/// datamodel_steps, database_migration, errors, started_at, finished_at.
pub open spec fn column_kinds() -> Seq<ColumnKind> {
    seq![
        ColumnKind::Primary,
        ColumnKind::Text,
        ColumnKind::UnlimitedText,
        ColumnKind::Text,
        ColumnKind::Integer,
        ColumnKind::Integer,
        ColumnKind::UnlimitedText,
        ColumnKind::UnlimitedText,
        ColumnKind::UnlimitedText,
        ColumnKind::DateTime,
        ColumnKind::NullableDateTime,
    ]
}

/// The name of the column of the migrations table at a place.
pub fn column_name(place: usize) -> (r: &'static str)
    requires
        place < 11,
    ensures
        r@ == if place == 0 {
            "revision"@
        } else if place == 1 {
            "name"@
        } else if place == 2 {
            "datamodel"@
        } else if place == 3 {
            "status"@
        } else if place == 4 {
            "applied"@
        } else if place == 5 {
            "rolled_back"@
        } else if place == 6 {
            "datamodel_steps"@
        } else if place == 7 {
            "database_migration"@
        } else if place == 8 {
            "errors"@
        } else if place == 9 {
            "started_at"@
        } else {
            "finished_at"@
        },
{
    if place == 0 {
        "revision"
    } else if place == 1 {
        "name"
    } else if place == 2 {
        "datamodel"
    } else if place == 3 {
        "status"
    } else if place == 4 {
        "applied"
    } else if place == 5 {
        "rolled_back"
    } else if place == 6 {
        "datamodel_steps"
    } else if place == 7 {
        "database_migration"
    } else if place == 8 {
        "errors"
    } else if place == 9 {
        "started_at"
    } else {
        "finished_at"
    }
}

/// The kinds of the columns of the migrations table, in the order of the columns.
pub fn migration_table_setup() -> (r: Vec<ColumnKind>)
    ensures
        r@ == column_kinds(),
{
    let mut out: Vec<ColumnKind> = Vec::new();
    out.push(ColumnKind::Primary);
    out.push(ColumnKind::Text);
    out.push(ColumnKind::UnlimitedText);
    out.push(ColumnKind::Text);
    out.push(ColumnKind::Integer);
    out.push(ColumnKind::Integer);
    out.push(ColumnKind::UnlimitedText);
    out.push(ColumnKind::UnlimitedText);
    out.push(ColumnKind::UnlimitedText);
    out.push(ColumnKind::DateTime);
    out.push(ColumnKind::NullableDateTime);
    assert(out@ =~= column_kinds());
    out
}

/// The type that a kind of database has for a kind of column, as the
/// database writes it. The number of a record is written by each database
/// in its own way and has no type here.
pub open spec fn type_text(family: SqlFamily, kind: ColumnKind) -> Option<Seq<char>> {
    match kind {
        ColumnKind::Primary => None,
        ColumnKind::Integer => Some("integer"@),
        ColumnKind::Text => Some(
            match family {
                SqlFamily::Mssql => "nvarchar(max)"@,
                _ => "text"@,
            },
        ),
        ColumnKind::UnlimitedText => Some(
            match family {
                SqlFamily::Sqlite => "TEXT"@,
                SqlFamily::Postgres => "TEXT"@,
                SqlFamily::Mysql => "LONGTEXT"@,
                SqlFamily::Mssql => "nvarchar(max)"@,
            },
        ),
        _ => Some(
            match family {
                SqlFamily::Sqlite => "DATETIME"@,
                SqlFamily::Postgres => "timestamp(3)"@,
                SqlFamily::Mysql => "datetime(3)"@,
                SqlFamily::Mssql => "datetime2"@,
            },
        ),
    }
}

/// The type that a kind of database has for a kind of column.
pub fn column_type(family: SqlFamily, kind: ColumnKind) -> (r: Option<&'static str>)
    ensures
        match r {
            Some(t) => type_text(family, kind) == Some(t@),
            None => type_text(family, kind) is None,
        },
{
    match kind {
        ColumnKind::Primary => None,
        ColumnKind::Integer => Some("integer"),
        ColumnKind::Text => Some(
            match family {
                SqlFamily::Mssql => "nvarchar(max)",
                _ => "text",
            },
        ),
        ColumnKind::UnlimitedText => Some(
            match family {
                SqlFamily::Sqlite => "TEXT",
                SqlFamily::Postgres => "TEXT",
                SqlFamily::Mysql => "LONGTEXT",
                SqlFamily::Mssql => "nvarchar(max)",
            },
        ),
        _ => Some(
            match family {
                SqlFamily::Sqlite => "DATETIME",
                SqlFamily::Postgres => "timestamp(3)",
                SqlFamily::Mysql => "datetime(3)",
                SqlFamily::Mssql => "datetime2",
            },
        ),
    }
}

/// A row of the migrations table, as far as it holds plain values. The
/// steps and the errors are held as JSON and are read apart from it.
#[derive(Debug, PartialEq)]
pub struct MigrationRow {
    pub name: String,
    pub revision: i64,
    pub datamodel: String,
    /// The word for the status.
    pub status: String,
    pub applied: i64,
    pub rolled_back: i64,
    pub database_migration: String,
    /// In milliseconds since the epoch.
    pub started_at: i64,
    pub finished_at: Option<i64>,
}

/// Why a row of the migrations table stands for no record.
#[derive(Debug, PartialEq)]
pub enum MigrationRowError {
    /// The word is not the word for a status.
    UnknownStatus { status: String },
    /// A count or the revision is below zero, or too great for this machine.
    BadNumber { number: i64 },
}

/// The first number of the row that is no count, if there is one.
pub open spec fn bad_number(row: MigrationRow) -> Option<i64> {
    if !(0 <= row.revision <= usize::MAX) {
        Some(row.revision)
    } else if !(0 <= row.applied <= usize::MAX) {
        Some(row.applied)
    } else if !(0 <= row.rolled_back <= usize::MAX) {
        Some(row.rolled_back)
    } else {
        None
    }
}

fn count_of(n: i64) -> (r: Option<usize>)
    ensures
        match r {
            Some(c) => 0 <= n <= usize::MAX && c == n,
            None => !(0 <= n <= usize::MAX),
        },
{
    if n < 0 {
        None
    } else if n as u64 > usize::MAX as u64 {
        None
    } else {
        Some(n as usize)
    }
}

/// The record that a row stands for, with the steps and the errors that
/// were read from it. A row with a bad number stands for none, nor does a
/// row whose status is no status.
pub fn migration_of_row(row: MigrationRow, steps: Vec<MigrationStep>, errors: Vec<String>) -> (r:
    Result<Migration, MigrationRowError>)
    ensures
        match r {
            Ok(m) => bad_number(row) is None && MigrationStatus::of_code(row.status@) == Some(
                m.status,
            ) && m.deep_view() == (MigrationView {
                name: row.name@,
                revision: row.revision as usize,
                status: m.status,
                applied: row.applied as usize,
                rolled_back: row.rolled_back as usize,
                datamodel_string: row.datamodel@,
                datamodel_steps: steps.deep_view(),
                database_migration: row.database_migration@,
                errors: errors.deep_view(),
                started_at: row.started_at,
                finished_at: row.finished_at,
            }),
            Err(MigrationRowError::BadNumber { number }) => bad_number(row) == Some(number),
            Err(MigrationRowError::UnknownStatus { status }) => bad_number(row) is None
                && MigrationStatus::of_code(row.status@) is None && status@ == row.status@,
        },
{
    let revision: usize = match count_of(row.revision) {
        Some(c) => c,
        None => {
            return Err(MigrationRowError::BadNumber { number: row.revision });
        },
    };
    let applied: usize = match count_of(row.applied) {
        Some(c) => c,
        None => {
            return Err(MigrationRowError::BadNumber { number: row.applied });
        },
    };
    let rolled_back: usize = match count_of(row.rolled_back) {
        Some(c) => c,
        None => {
            return Err(MigrationRowError::BadNumber { number: row.rolled_back });
        },
    };
    match MigrationStatus::from_str(row.status.as_str()) {
        None => Err(MigrationRowError::UnknownStatus { status: row.status }),
        Some(status) => Ok(
            Migration {
                name: row.name,
                revision,
                status,
                applied,
                rolled_back,
                datamodel_string: row.datamodel,
                datamodel_steps: steps,
                database_migration: row.database_migration,
                errors,
                started_at: row.started_at,
                finished_at: row.finished_at,
            },
        ),
    }
}

} // verus!
