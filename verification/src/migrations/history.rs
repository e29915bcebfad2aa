//! Working with the table of the earlier kind of migrations.

use crate::migrations::legacy::{
    watch_name, Migration, MigrationStatus, MigrationUpdateParams, MigrationView, NewMigration,
};
use crate::seqs::{all_same, list_clone, Same};
use crate::steps::{MigrationStep, MigrationStepView};
use crate::text::{names_clone, starts_with, str_eq};
use vstd::prelude::*;
use vstd::string::*;

verus! {

/// A step of a migration of a database, as it is shown.
#[derive(Debug, PartialEq)]
pub struct PrettyDatabaseMigrationStep {
    pub step: String,
    pub raw: String,
}

pub struct PrettyDatabaseMigrationStepView {
    pub step: Seq<char>,
    pub raw: Seq<char>,
}

impl DeepView for PrettyDatabaseMigrationStep {
    type V = PrettyDatabaseMigrationStepView;

    open spec fn deep_view(&self) -> PrettyDatabaseMigrationStepView {
        PrettyDatabaseMigrationStepView {
            step: self.step@,
            raw: self.raw@,
        }
    }
}

impl Clone for PrettyDatabaseMigrationStep {
    fn clone(&self) -> (r: Self)
        ensures
            r.deep_view() == self.deep_view(),
    {
        PrettyDatabaseMigrationStep {
            step: self.step.clone(),
            raw: self.raw.clone(),
        }
    }
}

impl Same for PrettyDatabaseMigrationStep {
    fn same(&self, other: &PrettyDatabaseMigrationStep) -> (r: bool) {
        self.step == other.step
            && self.raw == other.raw
    }
}

/// A migration as a list of migrations shows it.
#[derive(Debug, PartialEq)]
pub struct ListMigrationsOutput {
    pub id: String,
    pub datamodel_steps: Vec<MigrationStep>,
    pub database_steps: Vec<PrettyDatabaseMigrationStep>,
    pub status: MigrationStatus,
    pub datamodel: String,
}

pub struct ListMigrationsOutputView {
    pub id: Seq<char>,
    pub datamodel_steps: Seq<MigrationStepView>,
    pub database_steps: Seq<PrettyDatabaseMigrationStepView>,
    pub status: MigrationStatus,
    pub datamodel: Seq<char>,
}

impl DeepView for ListMigrationsOutput {
    type V = ListMigrationsOutputView;

    open spec fn deep_view(&self) -> ListMigrationsOutputView {
        ListMigrationsOutputView {
            id: self.id@,
            datamodel_steps: self.datamodel_steps.deep_view(),
            database_steps: self.database_steps.deep_view(),
            status: self.status,
            datamodel: self.datamodel@,
        }
    }
}

impl Clone for ListMigrationsOutput {
    fn clone(&self) -> (r: Self)
        ensures
            r.deep_view() == self.deep_view(),
    {
        ListMigrationsOutput {
            id: self.id.clone(),
            datamodel_steps: list_clone(&self.datamodel_steps),
            database_steps: list_clone(&self.database_steps),
            status: self.status,
            datamodel: self.datamodel.clone(),
        }
    }
}

impl Same for ListMigrationsOutput {
    fn same(&self, other: &ListMigrationsOutput) -> (r: bool) {
        self.id == other.id
            && all_same(&self.datamodel_steps, &other.datamodel_steps)
            && all_same(&self.database_steps, &other.database_steps)
            && self.status == other.status
            && self.datamodel == other.datamodel
    }
}

/// What is asked for when a migration is to be applied.
#[derive(Debug, PartialEq)]
pub struct ApplyMigrationInput {
    pub migration_id: String,
    pub steps: Vec<MigrationStep>,
    pub force: Option<bool>,
}

pub struct ApplyMigrationInputView {
    pub migration_id: Seq<char>,
    pub steps: Seq<MigrationStepView>,
    pub force: Option<bool>,
}

impl DeepView for ApplyMigrationInput {
    type V = ApplyMigrationInputView;

    open spec fn deep_view(&self) -> ApplyMigrationInputView {
        ApplyMigrationInputView {
            migration_id: self.migration_id@,
            steps: self.steps.deep_view(),
            force: self.force,
        }
    }
}

impl Clone for ApplyMigrationInput {
    fn clone(&self) -> (r: Self)
        ensures
            r.deep_view() == self.deep_view(),
    {
        ApplyMigrationInput {
            migration_id: self.migration_id.clone(),
            steps: list_clone(&self.steps),
            force: self.force,
        }
    }
}

impl Same for ApplyMigrationInput {
    fn same(&self, other: &ApplyMigrationInput) -> (r: bool) {
        self.migration_id == other.migration_id
            && all_same(&self.steps, &other.steps)
            && self.force == other.force
    }
}

impl ApplyMigrationInput {
    /// Whether the migration is made while watching a schema for changes.
    pub fn is_watch_migration(&self) -> (r: bool)
        ensures
            r == watch_name(self.migration_id@),
    {
        starts_with(self.migration_id.as_str(), "watch")
    }
}

/// The ways of applying a migration.
#[derive(Debug, PartialEq, Eq, Structural, Clone, Copy)]
pub enum ApplyPath {
    /// The migrations made while watching are taken together into this one.
    TransitionOutOfWatchMode,
    /// The migration follows on the last one.
    Normal,
}

/// The way to apply a migration: out of watch mode where the last
/// migration was made while watching and this one is not.
pub fn apply_path(last: Option<&Migration>, input: &ApplyMigrationInput) -> (r: ApplyPath)
    ensures
        r == if last matches Some(m) && watch_name(m.name@) && !watch_name(input.migration_id@) {
            ApplyPath::TransitionOutOfWatchMode
        } else {
            ApplyPath::Normal
        },
{
    match last {
        Some(m) => {
            if m.is_watch_migration() && !input.is_watch_migration() {
                ApplyPath::TransitionOutOfWatchMode
            } else {
                ApplyPath::Normal
            }
        },
        None => ApplyPath::Normal,
    }
}

/// What becomes of a migration once its dangers are known.
#[derive(Debug, PartialEq, Eq, Structural, Clone, Copy)]
pub enum ApplyDecision {
    /// A step cannot be executed: the migration is not applied.
    Unexecutable,
    /// There are warnings and the caller did not force the migration: it
    /// is not applied.
    NotForced,
    /// The migration is applied.
    Apply,
}

/// What becomes of a migration: it is applied where every step can be
/// executed and there is either no warning or the caller forces it.
pub open spec fn decision(unexecutable: bool, warnings: bool, force: Option<bool>) -> ApplyDecision {
    if unexecutable {
        ApplyDecision::Unexecutable
    } else if warnings && force != Some(true) {
        ApplyDecision::NotForced
    } else {
        ApplyDecision::Apply
    }
}

/// Decides what becomes of a migration.
pub fn decide(unexecutable: bool, warnings: bool, force: Option<bool>) -> (r: ApplyDecision)
    ensures
        r == decision(unexecutable, warnings, force),
{
    let forced: bool = match force {
        Some(f) => f,
        None => false,
    };
    if unexecutable {
        ApplyDecision::Unexecutable
    } else if warnings && !forced {
        ApplyDecision::NotForced
    } else {
        ApplyDecision::Apply
    }
}

/// A migration as a list of migrations shows it, given the steps of the
/// migration of the database as they are shown.
pub fn convert_migration_to_list_migration_steps_output(
    migration: Migration,
    database_steps: Vec<PrettyDatabaseMigrationStep>,
) -> (r: ListMigrationsOutput)
    ensures
        r.deep_view() == (ListMigrationsOutputView {
            id: migration.name@,
            datamodel_steps: migration.datamodel_steps.deep_view(),
            database_steps: database_steps.deep_view(),
            status: migration.status,
            datamodel: migration.datamodel_string@,
        }),
{
    ListMigrationsOutput {
        id: migration.name,
        datamodel_steps: migration.datamodel_steps,
        database_steps,
        status: migration.status,
        datamodel: migration.datamodel_string,
    }
}

/// The revisions grow from each record to the next.
pub open spec fn revisions_increase(ms: Seq<MigrationView>) -> bool {
    forall|i: int, j: int| 0 <= i < j < ms.len() ==> ms[i].revision < ms[j].revision
}

/// The revision that the next record gets.
pub open spec fn next_revision(ms: Seq<MigrationView>) -> int {
    if ms.len() == 0 {
        1
    } else {
        ms.last().revision + 1
    }
}

/// A record as the update asks for it, where it is the record meant.
pub open spec fn updated(params: crate::migrations::legacy::MigrationUpdateParamsView) -> spec_fn(
    MigrationView,
) -> MigrationView {
    |m: MigrationView|
        if m.name == params.name && m.revision == params.revision {
            MigrationView {
                name: params.new_name,
                status: params.status,
                applied: params.applied,
                rolled_back: params.rolled_back,
                errors: params.errors,
                finished_at: params.finished_at,
                ..m
            }
        } else {
            m
        }
}

/// The last of the first `k` records that meets the condition.
pub open spec fn last_where(ms: Seq<MigrationView>, p: spec_fn(MigrationView) -> bool, k: int) -> Option<
    int,
>
    decreases k,
{
    if k <= 0 {
        None
    } else if p(ms[k - 1]) {
        Some(k - 1)
    } else {
        last_where(ms, p, k - 1)
    }
}

/// The records of the given name.
pub open spec fn named(name: Seq<char>) -> spec_fn(MigrationView) -> bool {
    |m: MigrationView| m.name == name
}

/// The records of migrations that were applied.
pub open spec fn succeeded() -> spec_fn(MigrationView) -> bool {
    |m: MigrationView| m.status == MigrationStatus::MigrationSuccess
}

/// The records of migrations that were applied and not made while watching.
pub open spec fn succeeded_unwatched() -> spec_fn(MigrationView) -> bool {
    |m: MigrationView| m.status == MigrationStatus::MigrationSuccess && !watch_name(m.name)
}

impl Migration {
    /// The record of a migration that is to be applied: pending, with
    /// nothing applied yet. Its revision is given when it is recorded.
    pub fn new(params: NewMigration, now: i64) -> (r: Migration)
        ensures
            r.deep_view() == (MigrationView {
                name: params.name@,
                revision: 0,
                status: MigrationStatus::Pending,
                applied: 0,
                rolled_back: 0,
                datamodel_string: params.datamodel_string@,
                datamodel_steps: params.datamodel_steps.deep_view(),
                database_migration: params.database_migration@,
                errors: Seq::empty(),
                started_at: now,
                finished_at: None,
            }),
    {
        let r = Migration {
            name: params.name,
            revision: 0,
            status: MigrationStatus::Pending,
            applied: 0,
            rolled_back: 0,
            datamodel_string: params.datamodel_string,
            datamodel_steps: params.datamodel_steps,
            database_migration: params.database_migration,
            errors: Vec::new(),
            started_at: now,
            finished_at: None,
        };
        assert(r.errors.deep_view() =~= Seq::<Seq<char>>::empty());
        r
    }
}

/// The table of the earlier kind of migrations.
#[derive(Debug, PartialEq)]
pub struct MigrationHistory {
    pub migrations: Vec<Migration>,
}

impl DeepView for MigrationHistory {
    type V = Seq<MigrationView>;

    open spec fn deep_view(&self) -> Seq<MigrationView> {
        self.migrations.deep_view()
    }
}

impl MigrationHistory {
    /// The table is in order: the revisions grow from each record to the next.
    pub open spec fn well_formed(&self) -> bool {
        revisions_increase(self.deep_view())
    }

    /// A table without records.
    pub fn new() -> (r: MigrationHistory)
        ensures
            r.well_formed(),
            r.deep_view() == Seq::<MigrationView>::empty(),
    {
        let r = MigrationHistory { migrations: Vec::new() };
        assert(r.migrations.deep_view() =~= Seq::<MigrationView>::empty());
        r
    }

    /// Takes all records away.
    pub fn reset(&mut self)
        ensures
            final(self).well_formed(),
            final(self).deep_view() == Seq::<MigrationView>::empty(),
    {
        self.migrations = Vec::new();
        assert(self.migrations.deep_view() =~= Seq::<MigrationView>::empty());
    }

    /// All records, by their revisions.
    pub fn load_all(&self) -> (r: Vec<Migration>)
        ensures
            r.deep_view() == self.deep_view(),
    {
        list_clone(&self.migrations)
    }

    /// Records a migration behind the others, under the next revision, and
    /// returns it as it was recorded.
    pub fn create(&mut self, migration: Migration) -> (r: Migration)
        requires
            old(self).well_formed(),
            next_revision(old(self).deep_view()) <= usize::MAX,
        ensures
            final(self).well_formed(),
            r.deep_view() == (MigrationView {
                revision: next_revision(old(self).deep_view()) as usize,
                ..migration.deep_view()
            }),
            final(self).deep_view() == old(self).deep_view().push(r.deep_view()),
    {
        let ghost before = self.migrations.deep_view();
        let n: usize = self.migrations.len();
        let revision: usize = if n == 0 {
            1
        } else {
            assert(before[n - 1] == self.migrations[n - 1].deep_view());
            self.migrations[n - 1].revision + 1
        };
        let mut recorded: Migration = migration;
        recorded.revision = revision;
        let copy: Migration = recorded.clone();
        let ghost rv = recorded.deep_view();
        self.migrations.push(recorded);
        proof {
            assert(self.migrations.deep_view() =~= before.push(rv));
            assert forall|i: int, j: int| 0 <= i < j < before.len() + 1 implies before.push(
                rv,
            )[i].revision < before.push(rv)[j].revision by {
                if j == before.len() {
                    if i < before.len() - 1 {
                        assert(before[i].revision < before[before.len() - 1].revision);
                    }
                }
            }
        }
        copy
    }

    /// Changes the record of the given name and revision.
    #[verifier::loop_isolation(false)]
    pub fn update(&mut self, params: &MigrationUpdateParams)
        requires
            old(self).well_formed(),
        ensures
            final(self).well_formed(),
            final(self).deep_view() == old(self).deep_view().map_values(updated(params.deep_view())),
    {
        let ghost f = updated(params.deep_view());
        let ghost before = self.migrations.deep_view();
        let mut out: Vec<Migration> = Vec::new();
        let mut i: usize = 0;
        while i < self.migrations.len()
            invariant
                i <= self.migrations.len(),
                self.migrations.deep_view() == before,
                out.len() == i,
                forall|j: int| 0 <= j < i ==> #[trigger] out.deep_view()[j] == f(before[j]),
            decreases self.migrations.len() - i,
        {
            let m: &Migration = &self.migrations[i];
            assert(before[i as int] == m.deep_view());
            let mut copy: Migration = m.clone();
            if m.name == params.name && m.revision == params.revision {
                copy.name = params.new_name.clone();
                copy.status = params.status;
                copy.applied = params.applied;
                copy.rolled_back = params.rolled_back;
                copy.errors = names_clone(&params.errors);
                copy.finished_at = params.finished_at;
            }
            let ghost ob = out.deep_view();
            let ghost cv = copy.deep_view();
            out.push(copy);
            assert(out.deep_view() =~= ob.push(cv));
            i = i + 1;
        }
        assert(out.deep_view() =~= before.map_values(f));
        self.migrations = out;
    }

    /// The last record that meets a condition which is told by `keep`:
    /// the name where one is given, that the migration was applied where
    /// `applied` is set, that it was not made while watching where
    /// `unwatched` is set.
    #[verifier::loop_isolation(false)]
    fn last_matching(
        &self,
        name: Option<&str>,
        applied: bool,
        unwatched: bool,
        upto: usize,
    ) -> (r: Option<usize>)
        requires
            upto <= self.migrations.len(),
            name.is_some() ==> !applied && !unwatched,
            unwatched ==> applied,
        ensures
            r matches Some(i) ==> i < upto,
            match name {
                Some(n) => (match r {
                    Some(i) => Some(i as int),
                    None => None,
                }) == last_where(self.deep_view(), named(n@), upto as int),
                None => if unwatched {
                    (match r {
                        Some(i) => Some(i as int),
                        None => None,
                    }) == last_where(self.deep_view(), succeeded_unwatched(), upto as int)
                } else if applied {
                    (match r {
                        Some(i) => Some(i as int),
                        None => None,
                    }) == last_where(self.deep_view(), succeeded(), upto as int)
                } else {
                    true
                },
            },
    {
        let ghost ms = self.deep_view();
        let ghost p = match name {
            Some(n) => named(n@),
            None => if unwatched {
                succeeded_unwatched()
            } else {
                succeeded()
            },
        };
        let mut k: usize = upto;
        while k > 0
            invariant
                k <= upto,
                last_where(ms, p, upto as int) == last_where(ms, p, k as int),
            decreases k,
        {
            let m: &Migration = &self.migrations[k - 1];
            assert(ms[k - 1] == m.deep_view());
            let hit: bool = match name {
                Some(n) => str_eq(m.name.as_str(), n),
                None => m.status.is_success() && (!unwatched || !m.is_watch_migration()),
            };
            if hit {
                return Some(k - 1);
            }
            k = k - 1;
        }
        None
    }

    /// The record of the greatest revision among those of the given name.
    pub fn by_name(&self, name: &str) -> (r: Option<Migration>)
        ensures
            match last_where(self.deep_view(), named(name@), self.deep_view().len() as int) {
                Some(i) => r.deep_view() == Some(self.deep_view()[i]),
                None => r.is_none(),
            },
    {
        match self.last_matching(Some(name), false, false, self.migrations.len()) {
            Some(i) => {
                assert(self.deep_view()[i as int] == self.migrations[i as int].deep_view());
                Some(self.migrations[i].clone())
            },
            None => None,
        }
    }

    /// The last two migrations that were applied: the last, and the one before it.
    pub fn last_two_migrations(&self) -> (r: (Option<Migration>, Option<Migration>))
        ensures
            match last_where(self.deep_view(), succeeded(), self.deep_view().len() as int) {
                Some(i) => r.0.deep_view() == Some(self.deep_view()[i]) && match last_where(
                    self.deep_view(),
                    succeeded(),
                    i,
                ) {
                    Some(j) => r.1.deep_view() == Some(self.deep_view()[j]),
                    None => r.1.is_none(),
                },
                None => r.0.is_none() && r.1.is_none(),
            },
    {
        match self.last_matching(None, true, false, self.migrations.len()) {
            Some(i) => {
                assert(self.deep_view()[i as int] == self.migrations[i as int].deep_view());
                let second: Option<Migration> = match self.last_matching(None, true, false, i) {
                    Some(j) => {
                        assert(self.deep_view()[j as int] == self.migrations[j as int].deep_view());
                        Some(self.migrations[j].clone())
                    },
                    None => None,
                };
                (Some(self.migrations[i].clone()), second)
            },
            None => (None, None),
        }
    }

    /// The last migration that was applied.
    pub fn last(&self) -> (r: Option<Migration>)
        ensures
            match last_where(self.deep_view(), succeeded(), self.deep_view().len() as int) {
                Some(i) => r.deep_view() == Some(self.deep_view()[i]),
                None => r.is_none(),
            },
    {
        match self.last_matching(None, true, false, self.migrations.len()) {
            Some(i) => {
                assert(self.deep_view()[i as int] == self.migrations[i as int].deep_view());
                Some(self.migrations[i].clone())
            },
            None => None,
        }
    }

    /// The last migration that was applied and not made while watching.
    pub fn last_non_watch_migration(&self) -> (r: Option<Migration>)
        ensures
            match last_where(
                self.deep_view(),
                succeeded_unwatched(),
                self.deep_view().len() as int,
            ) {
                Some(i) => r.deep_view() == Some(self.deep_view()[i]),
                None => r.is_none(),
            },
    {
        match self.last_matching(None, true, true, self.migrations.len()) {
            Some(i) => {
                assert(self.deep_view()[i as int] == self.migrations[i as int].deep_view());
                Some(self.migrations[i].clone())
            },
            None => None,
        }
    }

    /// Whether the last record of that name says that the migration was applied.
    pub fn migration_is_already_applied(&self, migration_id: &str) -> (r: bool)
        ensures
            r == match last_where(
                self.deep_view(),
                named(migration_id@),
                self.deep_view().len() as int,
            ) {
                Some(i) => self.deep_view()[i].status == MigrationStatus::MigrationSuccess,
                None => false,
            },
    {
        match self.last_matching(Some(migration_id), false, false, self.migrations.len()) {
            Some(i) => {
                assert(self.deep_view()[i as int] == self.migrations[i as int].deep_view());
                self.migrations[i].status.is_success()
            },
            None => false,
        }
    }
}

/// How applying a migration begins.
#[derive(Debug, PartialEq, Eq, Structural, Clone, Copy)]
pub enum ApplyPlan {
    /// The migration was applied before: nothing is done, and the caller
    /// is told so.
    AlreadyApplied,
    /// The steps start from the schema of the last migration that was
    /// applied and not made while watching.
    FromLastNonWatch,
    /// The steps start from the schema of the last migration that was
    /// applied.
    FromLast,
}

/// How applying a migration begins, given the records. Leaving watch mode
/// starts from the last migration that was not made while watching;
/// otherwise a migration that was applied before is refused, and any
/// other starts from the last migration.
pub open spec fn plan_of(records: Seq<MigrationView>, migration_id: Seq<char>) -> ApplyPlan {
    let leaving = match last_where(records, succeeded(), records.len() as int) {
        Some(i) => watch_name(records[i].name) && !watch_name(migration_id),
        None => false,
    };
    let applied = match last_where(records, named(migration_id), records.len() as int) {
        Some(i) => records[i].status == MigrationStatus::MigrationSuccess,
        None => false,
    };
    if leaving {
        ApplyPlan::FromLastNonWatch
    } else if applied {
        ApplyPlan::AlreadyApplied
    } else {
        ApplyPlan::FromLast
    }
}

/// The migration whose schema the steps start from, if there is one.
pub open spec fn base_of(records: Seq<MigrationView>, plan: ApplyPlan) -> Option<MigrationView> {
    let found = match plan {
        ApplyPlan::AlreadyApplied => None,
        ApplyPlan::FromLastNonWatch => last_where(
            records,
            succeeded_unwatched(),
            records.len() as int,
        ),
        ApplyPlan::FromLast => last_where(records, succeeded(), records.len() as int),
    };
    match found {
        Some(i) => Some(records[i]),
        None => None,
    }
}

impl MigrationHistory {
    /// How applying the migration begins.
    pub fn plan(&self, input: &ApplyMigrationInput) -> (r: ApplyPlan)
        ensures
            r == plan_of(self.deep_view(), input.migration_id@),
    {
        let last: Option<Migration> = self.last();
        match apply_path(last.as_ref(), input) {
            ApplyPath::TransitionOutOfWatchMode => ApplyPlan::FromLastNonWatch,
            ApplyPath::Normal => {
                if self.migration_is_already_applied(input.migration_id.as_str()) {
                    ApplyPlan::AlreadyApplied
                } else {
                    ApplyPlan::FromLast
                }
            },
        }
    }

    /// The migration whose schema the steps start from, if there is one.
    pub fn base(&self, plan: ApplyPlan) -> (r: Option<Migration>)
        ensures
            r.deep_view() == base_of(self.deep_view(), plan),
    {
        match plan {
            ApplyPlan::AlreadyApplied => None,
            ApplyPlan::FromLastNonWatch => self.last_non_watch_migration(),
            ApplyPlan::FromLast => self.last(),
        }
    }
}

} // verus!
