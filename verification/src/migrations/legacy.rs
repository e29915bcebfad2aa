//! The table of the earlier kind of migrations: each migration holds the
//! schema it leads to and the steps that lead there.

use crate::seqs::{all_same, list_clone, Same};
use crate::steps::{MigrationStep, MigrationStepView};
use crate::text::{names_clone, names_eq, starts_with, str_eq};
use vstd::prelude::*;
use vstd::string::*;

verus! {

/// How far a migration has come.
#[derive(Debug, PartialEq, Eq, Structural, Clone, Copy)]
pub enum MigrationStatus {
    Pending,
    MigrationInProgress,
    MigrationSuccess,
    MigrationFailure,
    RollingBack,
    RollbackSuccess,
    RollbackFailure,
}

/// What can happen to a migration.
#[derive(Debug, PartialEq, Eq, Structural, Clone, Copy)]
pub enum MigrationEvent {
    /// Applying it begins.
    Start,
    /// It was applied.
    Succeed,
    /// It could not be applied.
    Fail,
    /// Rolling it back begins.
    RollBack,
    /// It was rolled back.
    RolledBack,
    /// It could not be rolled back.
    RollbackFailed,
}

impl MigrationStatus {
    /// The word that the table holds for the status.
    pub open spec fn code_of(self) -> Seq<char> {
        match self {
            MigrationStatus::Pending => "Pending"@,
            MigrationStatus::MigrationInProgress => "MigrationInProgress"@,
            MigrationStatus::MigrationSuccess => "MigrationSuccess"@,
            MigrationStatus::MigrationFailure => "MigrationFailure"@,
            MigrationStatus::RollingBack => "RollingBack"@,
            MigrationStatus::RollbackSuccess => "RollbackSuccess"@,
            MigrationStatus::RollbackFailure => "RollbackFailure"@,
        }
    }

    /// The status that the word stands for.
    pub open spec fn of_code(s: Seq<char>) -> Option<MigrationStatus> {
        if s == "Pending"@ {
            Some(MigrationStatus::Pending)
        } else if s == "MigrationInProgress"@ {
            Some(MigrationStatus::MigrationInProgress)
        } else if s == "MigrationSuccess"@ {
            Some(MigrationStatus::MigrationSuccess)
        } else if s == "MigrationFailure"@ {
            Some(MigrationStatus::MigrationFailure)
        } else if s == "RollingBack"@ {
            Some(MigrationStatus::RollingBack)
        } else if s == "RollbackSuccess"@ {
            Some(MigrationStatus::RollbackSuccess)
        } else if s == "RollbackFailure"@ {
            Some(MigrationStatus::RollbackFailure)
        } else {
            None
        }
    }

    /// The status that follows on an event, where the event can happen to
    /// a migration of this status. A pending migration can start; a
    /// migration in progress succeeds or fails; a migration that succeeded
    /// can be rolled back, which succeeds or fails in turn.
    pub open spec fn after(self, event: MigrationEvent) -> Option<MigrationStatus> {
        match (self, event) {
            (MigrationStatus::Pending, MigrationEvent::Start) => Some(
                MigrationStatus::MigrationInProgress,
            ),
            (MigrationStatus::MigrationInProgress, MigrationEvent::Succeed) => Some(
                MigrationStatus::MigrationSuccess,
            ),
            (MigrationStatus::MigrationInProgress, MigrationEvent::Fail) => Some(
                MigrationStatus::MigrationFailure,
            ),
            (MigrationStatus::MigrationSuccess, MigrationEvent::RollBack) => Some(
                MigrationStatus::RollingBack,
            ),
            (MigrationStatus::RollingBack, MigrationEvent::RolledBack) => Some(
                MigrationStatus::RollbackSuccess,
            ),
            (MigrationStatus::RollingBack, MigrationEvent::RollbackFailed) => Some(
                MigrationStatus::RollbackFailure,
            ),
            _ => None,
        }
    }

    /// The word that the table holds for the status.
    pub fn code(&self) -> (r: &'static str)
        ensures
            r@ == self.code_of(),
    {
        match self {
            MigrationStatus::Pending => "Pending",
            MigrationStatus::MigrationInProgress => "MigrationInProgress",
            MigrationStatus::MigrationSuccess => "MigrationSuccess",
            MigrationStatus::MigrationFailure => "MigrationFailure",
            MigrationStatus::RollingBack => "RollingBack",
            MigrationStatus::RollbackSuccess => "RollbackSuccess",
            MigrationStatus::RollbackFailure => "RollbackFailure",
        }
    }

    /// The status that the word stands for.
    pub fn from_str(s: &str) -> (r: Option<MigrationStatus>)
        ensures
            r == MigrationStatus::of_code(s@),
    {
        if str_eq(s, "Pending") {
            Some(MigrationStatus::Pending)
        } else if str_eq(s, "MigrationInProgress") {
            Some(MigrationStatus::MigrationInProgress)
        } else if str_eq(s, "MigrationSuccess") {
            Some(MigrationStatus::MigrationSuccess)
        } else if str_eq(s, "MigrationFailure") {
            Some(MigrationStatus::MigrationFailure)
        } else if str_eq(s, "RollingBack") {
            Some(MigrationStatus::RollingBack)
        } else if str_eq(s, "RollbackSuccess") {
            Some(MigrationStatus::RollbackSuccess)
        } else if str_eq(s, "RollbackFailure") {
            Some(MigrationStatus::RollbackFailure)
        } else {
            None
        }
    }

    /// The status that follows on an event.
    pub fn next(self, event: MigrationEvent) -> (r: Option<MigrationStatus>)
        ensures
            r == self.after(event),
    {
        match (self, event) {
            (MigrationStatus::Pending, MigrationEvent::Start) => Some(
                MigrationStatus::MigrationInProgress,
            ),
            (MigrationStatus::MigrationInProgress, MigrationEvent::Succeed) => Some(
                MigrationStatus::MigrationSuccess,
            ),
            (MigrationStatus::MigrationInProgress, MigrationEvent::Fail) => Some(
                MigrationStatus::MigrationFailure,
            ),
            (MigrationStatus::MigrationSuccess, MigrationEvent::RollBack) => Some(
                MigrationStatus::RollingBack,
            ),
            (MigrationStatus::RollingBack, MigrationEvent::RolledBack) => Some(
                MigrationStatus::RollbackSuccess,
            ),
            (MigrationStatus::RollingBack, MigrationEvent::RollbackFailed) => Some(
                MigrationStatus::RollbackFailure,
            ),
            _ => None,
        }
    }

    pub fn is_pending(&self) -> (r: bool)
        ensures
            r == (*self == MigrationStatus::Pending),
    {
        matches!(self, MigrationStatus::Pending)
    }

    pub fn is_success(&self) -> (r: bool)
        ensures
            r == (*self == MigrationStatus::MigrationSuccess),
    {
        matches!(self, MigrationStatus::MigrationSuccess)
    }
}

/// A migration of the earlier kind, as its table records it.
#[derive(Debug, PartialEq)]
pub struct Migration {
    pub name: String,
    /// The number of the record: each record has a greater one than the records before it.
    pub revision: usize,
    pub status: MigrationStatus,
    /// How many steps were applied.
    pub applied: usize,
    /// How many steps were rolled back.
    pub rolled_back: usize,
    /// The schema that the migration leads to.
    pub datamodel_string: String,
    /// The steps from the schema before to that schema.
    pub datamodel_steps: Vec<MigrationStep>,
    /// What is to be done to the database, as a text.
    pub database_migration: String,
    pub errors: Vec<String>,
    /// When the migration started, in milliseconds since the epoch.
    pub started_at: i64,
    pub finished_at: Option<i64>,
}

pub struct MigrationView {
    pub name: Seq<char>,
    pub revision: usize,
    pub status: MigrationStatus,
    pub applied: usize,
    pub rolled_back: usize,
    pub datamodel_string: Seq<char>,
    pub datamodel_steps: Seq<MigrationStepView>,
    pub database_migration: Seq<char>,
    pub errors: Seq<Seq<char>>,
    pub started_at: i64,
    pub finished_at: Option<i64>,
}

impl DeepView for Migration {
    type V = MigrationView;

    open spec fn deep_view(&self) -> MigrationView {
        MigrationView {
            name: self.name@,
            revision: self.revision,
            status: self.status,
            applied: self.applied,
            rolled_back: self.rolled_back,
            datamodel_string: self.datamodel_string@,
            datamodel_steps: self.datamodel_steps.deep_view(),
            database_migration: self.database_migration@,
            errors: self.errors.deep_view(),
            started_at: self.started_at,
            finished_at: self.finished_at,
        }
    }
}

impl Clone for Migration {
    fn clone(&self) -> (r: Self)
        ensures
            r.deep_view() == self.deep_view(),
    {
        Migration {
            name: self.name.clone(),
            revision: self.revision,
            status: self.status,
            applied: self.applied,
            rolled_back: self.rolled_back,
            datamodel_string: self.datamodel_string.clone(),
            datamodel_steps: list_clone(&self.datamodel_steps),
            database_migration: self.database_migration.clone(),
            errors: names_clone(&self.errors),
            started_at: self.started_at,
            finished_at: self.finished_at,
        }
    }
}

impl Same for Migration {
    fn same(&self, other: &Migration) -> (r: bool) {
        self.name == other.name
            && self.revision == other.revision
            && self.status == other.status
            && self.applied == other.applied
            && self.rolled_back == other.rolled_back
            && self.datamodel_string == other.datamodel_string
            && all_same(&self.datamodel_steps, &other.datamodel_steps)
            && self.database_migration == other.database_migration
            && names_eq(&self.errors, &other.errors)
            && self.started_at == other.started_at
            && self.finished_at == other.finished_at
    }
}

/// A migration that is to be recorded.
#[derive(Debug, PartialEq)]
pub struct NewMigration {
    pub name: String,
    pub datamodel_string: String,
    pub datamodel_steps: Vec<MigrationStep>,
    pub database_migration: String,
}

pub struct NewMigrationView {
    pub name: Seq<char>,
    pub datamodel_string: Seq<char>,
    pub datamodel_steps: Seq<MigrationStepView>,
    pub database_migration: Seq<char>,
}

impl DeepView for NewMigration {
    type V = NewMigrationView;

    open spec fn deep_view(&self) -> NewMigrationView {
        NewMigrationView {
            name: self.name@,
            datamodel_string: self.datamodel_string@,
            datamodel_steps: self.datamodel_steps.deep_view(),
            database_migration: self.database_migration@,
        }
    }
}

impl Clone for NewMigration {
    fn clone(&self) -> (r: Self)
        ensures
            r.deep_view() == self.deep_view(),
    {
        NewMigration {
            name: self.name.clone(),
            datamodel_string: self.datamodel_string.clone(),
            datamodel_steps: list_clone(&self.datamodel_steps),
            database_migration: self.database_migration.clone(),
        }
    }
}

impl Same for NewMigration {
    fn same(&self, other: &NewMigration) -> (r: bool) {
        self.name == other.name
            && self.datamodel_string == other.datamodel_string
            && all_same(&self.datamodel_steps, &other.datamodel_steps)
            && self.database_migration == other.database_migration
    }
}

/// What is to be changed in the record of a migration.
#[derive(Debug, PartialEq)]
pub struct MigrationUpdateParams {
    pub name: String,
    pub new_name: String,
    pub revision: usize,
    pub status: MigrationStatus,
    pub applied: usize,
    pub rolled_back: usize,
    pub errors: Vec<String>,
    pub finished_at: Option<i64>,
}

pub struct MigrationUpdateParamsView {
    pub name: Seq<char>,
    pub new_name: Seq<char>,
    pub revision: usize,
    pub status: MigrationStatus,
    pub applied: usize,
    pub rolled_back: usize,
    pub errors: Seq<Seq<char>>,
    pub finished_at: Option<i64>,
}

impl DeepView for MigrationUpdateParams {
    type V = MigrationUpdateParamsView;

    open spec fn deep_view(&self) -> MigrationUpdateParamsView {
        MigrationUpdateParamsView {
            name: self.name@,
            new_name: self.new_name@,
            revision: self.revision,
            status: self.status,
            applied: self.applied,
            rolled_back: self.rolled_back,
            errors: self.errors.deep_view(),
            finished_at: self.finished_at,
        }
    }
}

impl Clone for MigrationUpdateParams {
    fn clone(&self) -> (r: Self)
        ensures
            r.deep_view() == self.deep_view(),
    {
        MigrationUpdateParams {
            name: self.name.clone(),
            new_name: self.new_name.clone(),
            revision: self.revision,
            status: self.status,
            applied: self.applied,
            rolled_back: self.rolled_back,
            errors: names_clone(&self.errors),
            finished_at: self.finished_at,
        }
    }
}

impl Same for MigrationUpdateParams {
    fn same(&self, other: &MigrationUpdateParams) -> (r: bool) {
        self.name == other.name
            && self.new_name == other.new_name
            && self.revision == other.revision
            && self.status == other.status
            && self.applied == other.applied
            && self.rolled_back == other.rolled_back
            && names_eq(&self.errors, &other.errors)
            && self.finished_at == other.finished_at
    }
}

/// Whether a migration of the given name was made while watching a schema
/// for changes.
pub open spec fn watch_name(name: Seq<char>) -> bool {
    "watch"@.is_prefix_of(name)
}

impl Migration {
    /// Whether the migration was made while watching a schema for changes.
    pub fn is_watch_migration(&self) -> (r: bool)
        ensures
            r == watch_name(self.name@),
    {
        starts_with(self.name.as_str(), "watch")
    }
}

/// The seconds and the nanoseconds within the second of a point in time
/// that is given in milliseconds since the epoch.
pub open spec fn seconds_and_nanos(timestamp: i64) -> (i64, u32) {
    ((timestamp as int / 1000) as i64, ((timestamp as int % 1000) * 1_000_000) as u32)
}

/// Splits a point in time that is given in milliseconds since the epoch
/// into seconds and the nanoseconds within the second. Points before the
/// epoch are not handled.
pub fn timestamp_to_datetime(timestamp: i64) -> (r: (i64, u32))
    requires
        timestamp >= 0,
    ensures
        r == seconds_and_nanos(timestamp),
        r.0 as int * 1000 + r.1 as int / 1_000_000 == timestamp,
        r.1 < 1_000_000_000,
{
    let millis: i64 = timestamp % 1000;
    let nsecs: u32 = (millis * 1_000_000) as u32;
    let secs: i64 = timestamp / 1000;
    (secs, nsecs)
}

} // verus!
