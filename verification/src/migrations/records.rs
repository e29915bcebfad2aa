//! Migrations as the directory and the table hold them, and the findings of
//! a diagnosis.

use crate::seqs::{option_clone, option_same, Same};
use crate::text::{name_option_clone, name_option_eq, names_clone, names_eq};
use vstd::prelude::*;
use vstd::string::*;

verus! {

/// A migration as the migrations table records it.
#[derive(Debug, PartialEq)]
pub struct MigrationRecord {
    /// The identifier that the record was given when the migration started.
    pub id: String,
    /// The checksum of the script as it was when the migration was applied.
    pub checksum: String,
    /// When the migration ended, in milliseconds since the epoch.
    pub finished_at: Option<i64>,
    /// The name of the migration's directory.
    pub migration_name: String,
    /// What applying the migration printed.
    pub logs: String,
    /// When the migration was rolled back, if it was.
    pub rolled_back_at: Option<i64>,
    /// When the migration started.
    pub started_at: i64,
    /// How many steps of the migration were applied.
    pub applied_steps_count: u32,
    /// The script that was applied.
    pub script: String,
}

pub struct MigrationRecordView {
    pub id: Seq<char>,
    pub checksum: Seq<char>,
    pub finished_at: Option<i64>,
    pub migration_name: Seq<char>,
    pub logs: Seq<char>,
    pub rolled_back_at: Option<i64>,
    pub started_at: i64,
    pub applied_steps_count: u32,
    pub script: Seq<char>,
}

impl DeepView for MigrationRecord {
    type V = MigrationRecordView;

    open spec fn deep_view(&self) -> MigrationRecordView {
        MigrationRecordView {
            id: self.id@,
            checksum: self.checksum@,
            finished_at: self.finished_at.deep_view(),
            migration_name: self.migration_name@,
            logs: self.logs@,
            rolled_back_at: self.rolled_back_at.deep_view(),
            started_at: self.started_at,
            applied_steps_count: self.applied_steps_count,
            script: self.script@,
        }
    }
}

impl Clone for MigrationRecord {
    fn clone(&self) -> (r: Self)
        ensures
            r.deep_view() == self.deep_view(),
    {
        MigrationRecord {
            id: self.id.clone(),
            checksum: self.checksum.clone(),
            finished_at: self.finished_at,
            migration_name: self.migration_name.clone(),
            logs: self.logs.clone(),
            rolled_back_at: self.rolled_back_at,
            started_at: self.started_at,
            applied_steps_count: self.applied_steps_count,
            script: self.script.clone(),
        }
    }
}

impl Same for MigrationRecord {
    fn same(&self, other: &MigrationRecord) -> (r: bool) {
        self.id == other.id
            && self.checksum == other.checksum
            && self.finished_at == other.finished_at
            && self.migration_name == other.migration_name
            && self.logs == other.logs
            && self.rolled_back_at == other.rolled_back_at
            && self.started_at == other.started_at
            && self.applied_steps_count == other.applied_steps_count
            && self.script == other.script
    }
}

/// A migration as it stands in the migrations directory.
#[derive(Debug, PartialEq)]
pub struct MigrationDirectory {
    /// The name of the directory.
    pub name: String,
    /// The checksum of the script that stands in the directory now.
    pub checksum: String,
}

pub struct MigrationDirectoryView {
    pub name: Seq<char>,
    pub checksum: Seq<char>,
}

impl DeepView for MigrationDirectory {
    type V = MigrationDirectoryView;

    open spec fn deep_view(&self) -> MigrationDirectoryView {
        MigrationDirectoryView {
            name: self.name@,
            checksum: self.checksum@,
        }
    }
}

impl Clone for MigrationDirectory {
    fn clone(&self) -> (r: Self)
        ensures
            r.deep_view() == self.deep_view(),
    {
        MigrationDirectory {
            name: self.name.clone(),
            checksum: self.checksum.clone(),
        }
    }
}

impl Same for MigrationDirectory {
    fn same(&self, other: &MigrationDirectory) -> (r: bool) {
        self.name == other.name
            && self.checksum == other.checksum
    }
}

/// What the live schema has to do with the migrations that were applied.
#[derive(Debug, PartialEq)]
pub enum DriftDiagnostic {
    /// The live schema is not the one that the applied migrations produce.
    DriftDetected,
}

pub enum DriftDiagnosticView {
    DriftDetected,
}

impl DeepView for DriftDiagnostic {
    type V = DriftDiagnosticView;

    open spec fn deep_view(&self) -> DriftDiagnosticView {
        match self {
            DriftDiagnostic::DriftDetected => DriftDiagnosticView::DriftDetected,
        }
    }
}

impl Clone for DriftDiagnostic {
    fn clone(&self) -> (r: Self)
        ensures
            r.deep_view() == self.deep_view(),
    {
        match self {
            DriftDiagnostic::DriftDetected => DriftDiagnostic::DriftDetected,
        }
    }
}

impl Same for DriftDiagnostic {
    fn same(&self, other: &DriftDiagnostic) -> (r: bool) {
        match (self, other) {
            (DriftDiagnostic::DriftDetected, DriftDiagnostic::DriftDetected) => true,
            _ => false,
        }
    }
}

/// How the migrations directory and the migrations table differ.
#[derive(Debug, PartialEq)]
pub enum HistoryDiagnostic {
    /// Migrations of the directory have not been applied.
    DatabaseIsBehind { unapplied_migration_names: Vec<String> },
    /// Migrations of the table are not in the directory.
    MigrationsDirectoryIsBehind { unpersisted_migration_names: Vec<String> },
    /// Both at once.
    HistoriesDiverge {
        last_common_migration_name: Option<String>,
        unpersisted_migration_names: Vec<String>,
        unapplied_migration_names: Vec<String>,
    },
}

pub enum HistoryDiagnosticView {
    DatabaseIsBehind { unapplied_migration_names: Seq<Seq<char>> },
    MigrationsDirectoryIsBehind { unpersisted_migration_names: Seq<Seq<char>> },
    HistoriesDiverge {
        last_common_migration_name: Option<Seq<char>>,
        unpersisted_migration_names: Seq<Seq<char>>,
        unapplied_migration_names: Seq<Seq<char>>,
    },
}

impl DeepView for HistoryDiagnostic {
    type V = HistoryDiagnosticView;

    open spec fn deep_view(&self) -> HistoryDiagnosticView {
        match self {
            HistoryDiagnostic::DatabaseIsBehind { unapplied_migration_names } =>
                HistoryDiagnosticView::DatabaseIsBehind {
                    unapplied_migration_names: unapplied_migration_names.deep_view(),
                },
            HistoryDiagnostic::MigrationsDirectoryIsBehind { unpersisted_migration_names } =>
                HistoryDiagnosticView::MigrationsDirectoryIsBehind {
                    unpersisted_migration_names: unpersisted_migration_names.deep_view(),
                },
            HistoryDiagnostic::HistoriesDiverge {
                last_common_migration_name,
                unpersisted_migration_names,
                unapplied_migration_names,
            } =>
                HistoryDiagnosticView::HistoriesDiverge {
                    last_common_migration_name: last_common_migration_name.deep_view(),
                    unpersisted_migration_names: unpersisted_migration_names.deep_view(),
                    unapplied_migration_names: unapplied_migration_names.deep_view(),
                },
        }
    }
}

impl Clone for HistoryDiagnostic {
    fn clone(&self) -> (r: Self)
        ensures
            r.deep_view() == self.deep_view(),
    {
        match self {
            HistoryDiagnostic::DatabaseIsBehind { unapplied_migration_names } =>
                HistoryDiagnostic::DatabaseIsBehind {
                    unapplied_migration_names: names_clone(unapplied_migration_names),
                },
            HistoryDiagnostic::MigrationsDirectoryIsBehind { unpersisted_migration_names } =>
                HistoryDiagnostic::MigrationsDirectoryIsBehind {
                    unpersisted_migration_names: names_clone(unpersisted_migration_names),
                },
            HistoryDiagnostic::HistoriesDiverge {
                last_common_migration_name,
                unpersisted_migration_names,
                unapplied_migration_names,
            } =>
                HistoryDiagnostic::HistoriesDiverge {
                    last_common_migration_name: name_option_clone(last_common_migration_name),
                    unpersisted_migration_names: names_clone(unpersisted_migration_names),
                    unapplied_migration_names: names_clone(unapplied_migration_names),
                },
        }
    }
}

impl Same for HistoryDiagnostic {
    fn same(&self, other: &HistoryDiagnostic) -> (r: bool) {
        match (self, other) {
            (HistoryDiagnostic::DatabaseIsBehind {
                unapplied_migration_names: a0,
            }, HistoryDiagnostic::DatabaseIsBehind { unapplied_migration_names: b0 }) =>
                names_eq(a0, b0),
            (HistoryDiagnostic::MigrationsDirectoryIsBehind {
                unpersisted_migration_names: a0,
            }, HistoryDiagnostic::MigrationsDirectoryIsBehind { unpersisted_migration_names: b0 }) =>
                names_eq(a0, b0),
            (HistoryDiagnostic::HistoriesDiverge {
                last_common_migration_name: a0,
                unpersisted_migration_names: a1,
                unapplied_migration_names: a2,
            }, HistoryDiagnostic::HistoriesDiverge { last_common_migration_name: b0, unpersisted_migration_names: b1, unapplied_migration_names: b2 }) =>
                name_option_eq(a0, b0) && names_eq(a1, b1) && names_eq(a2, b2),
            _ => false,
        }
    }
}

/// What a look at the migrations directory, the migrations table and the live schema found.
#[derive(Debug, PartialEq)]
pub struct DiagnoseMigrationHistoryOutput {
    pub drift: Option<DriftDiagnostic>,
    pub history: Option<HistoryDiagnostic>,
    /// The migrations that started and neither ended nor were rolled back.
    pub failed_migration_names: Vec<String>,
    /// The migrations whose script was changed after they were applied.
    pub edited_migration_names: Vec<String>,
}

pub struct DiagnoseMigrationHistoryOutputView {
    pub drift: Option<DriftDiagnosticView>,
    pub history: Option<HistoryDiagnosticView>,
    pub failed_migration_names: Seq<Seq<char>>,
    pub edited_migration_names: Seq<Seq<char>>,
}

impl DeepView for DiagnoseMigrationHistoryOutput {
    type V = DiagnoseMigrationHistoryOutputView;

    open spec fn deep_view(&self) -> DiagnoseMigrationHistoryOutputView {
        DiagnoseMigrationHistoryOutputView {
            drift: self.drift.deep_view(),
            history: self.history.deep_view(),
            failed_migration_names: self.failed_migration_names.deep_view(),
            edited_migration_names: self.edited_migration_names.deep_view(),
        }
    }
}

impl Clone for DiagnoseMigrationHistoryOutput {
    fn clone(&self) -> (r: Self)
        ensures
            r.deep_view() == self.deep_view(),
    {
        DiagnoseMigrationHistoryOutput {
            drift: option_clone(&self.drift),
            history: option_clone(&self.history),
            failed_migration_names: names_clone(&self.failed_migration_names),
            edited_migration_names: names_clone(&self.edited_migration_names),
        }
    }
}

impl Same for DiagnoseMigrationHistoryOutput {
    fn same(&self, other: &DiagnoseMigrationHistoryOutput) -> (r: bool) {
        option_same(&self.drift, &other.drift)
            && option_same(&self.history, &other.history)
            && names_eq(&self.failed_migration_names, &other.failed_migration_names)
            && names_eq(&self.edited_migration_names, &other.edited_migration_names)
    }
}

/// A migration that could not be applied to an empty database.
#[derive(Debug, PartialEq)]
pub struct MigrationDoesNotApplyCleanly {
    pub migration_name: String,
    pub error: String,
}

pub struct MigrationDoesNotApplyCleanlyView {
    pub migration_name: Seq<char>,
    pub error: Seq<char>,
}

impl DeepView for MigrationDoesNotApplyCleanly {
    type V = MigrationDoesNotApplyCleanlyView;

    open spec fn deep_view(&self) -> MigrationDoesNotApplyCleanlyView {
        MigrationDoesNotApplyCleanlyView {
            migration_name: self.migration_name@,
            error: self.error@,
        }
    }
}

impl Clone for MigrationDoesNotApplyCleanly {
    fn clone(&self) -> (r: Self)
        ensures
            r.deep_view() == self.deep_view(),
    {
        MigrationDoesNotApplyCleanly {
            migration_name: self.migration_name.clone(),
            error: self.error.clone(),
        }
    }
}

impl Same for MigrationDoesNotApplyCleanly {
    fn same(&self, other: &MigrationDoesNotApplyCleanly) -> (r: bool) {
        self.migration_name == other.migration_name
            && self.error == other.error
    }
}

impl DiagnoseMigrationHistoryOutputView {
    /// Nothing was found.
    pub open spec fn is_empty(self) -> bool {
        self.drift is None && self.history is None && self.failed_migration_names.len() == 0
            && self.edited_migration_names.len() == 0
    }
}

impl DiagnoseMigrationHistoryOutput {
    /// Whether nothing was found.
    pub fn is_empty(&self) -> (r: bool)
        ensures
            r == self.deep_view().is_empty(),
    {
        self.drift.is_none() && self.history.is_none() && self.failed_migration_names.len() == 0
            && self.edited_migration_names.len() == 0
    }
}

} // verus!
