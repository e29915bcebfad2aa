//! The record of the migrations that were applied to a database, and what
//! can be told from it.

pub mod destructive;
pub mod diagnose;
pub mod history;
pub mod laws;
pub mod legacy;
pub mod persistence;
pub mod records;
pub mod rows;

pub use diagnose::{diagnose_migration_history, diagnosis};
pub use records::{
    DiagnoseMigrationHistoryOutput, DiagnoseMigrationHistoryOutputView, DriftDiagnostic,
    DriftDiagnosticView, HistoryDiagnostic, HistoryDiagnosticView, MigrationDirectory,
    MigrationDirectoryView, MigrationDoesNotApplyCleanly, MigrationDoesNotApplyCleanlyView,
    MigrationRecord, MigrationRecordView,
};
