use schema_engine::migrations::destructive::{DatabaseInspectionResults, DestructiveCheck, Risk};
use schema_engine::migrations::diagnose::{
    detect_drift, diagnose_history, edited_migration_names, failed_migration_names,
    last_common_name, migrations_to_replay, names_missing_from,
};
use schema_engine::migrations::history::{decide, ApplyDecision};
use schema_engine::migrations::legacy::{timestamp_to_datetime, MigrationEvent, MigrationStatus};
use schema_engine::migrations::persistence::{
    initialize, list_migrations, DatabaseSchemaNotEmpty, InitializeAction, MigrationsTable,
};
use schema_engine::migrations::{
    diagnose_migration_history, DriftDiagnostic, HistoryDiagnostic, MigrationDirectory,
    MigrationDoesNotApplyCleanly, MigrationRecord,
};
use schema_engine::sql_schema::{SqlSchema, Table};

fn names(xs: &[&str]) -> Vec<String> {
    xs.iter().map(|x| x.to_string()).collect()
}

fn on_disk(name: &str, checksum: &str) -> MigrationDirectory {
    MigrationDirectory { name: name.to_string(), checksum: checksum.to_string() }
}

fn applied(name: &str, checksum: &str) -> MigrationRecord {
    MigrationRecord {
        id: format!("id-{}", name),
        checksum: checksum.to_string(),
        finished_at: Some(20),
        migration_name: name.to_string(),
        logs: String::new(),
        rolled_back_at: None,
        started_at: 10,
        applied_steps_count: 1,
        script: String::new(),
    }
}

fn table_called(name: &str) -> Table {
    Table {
        name: name.to_string(),
        columns: vec![],
        indices: vec![],
        primary_key: None,
        foreign_keys: vec![],
    }
}

fn schema_with(tables: Vec<Table>) -> SqlSchema {
    SqlSchema { tables, enums: vec![], sequences: vec![] }
}

#[test]
fn database_behind_when_directory_has_one_more() {
    let directory = vec![on_disk("A", "a"), on_disk("B", "b"), on_disk("C", "c")];
    let history = vec![applied("A", "a"), applied("B", "b")];
    let live = schema_with(vec![]);
    let out = diagnose_migration_history(&directory, &history, Ok(schema_with(vec![])), &live)
        .unwrap();
    assert_eq!(
        out.history,
        Some(HistoryDiagnostic::DatabaseIsBehind { unapplied_migration_names: names(&["C"]) })
    );
    assert_eq!(out.drift, None);
    assert!(out.failed_migration_names.is_empty());
    assert!(out.edited_migration_names.is_empty());
}

#[test]
fn edited_migration_is_named_whatever_else_is_found() {
    let directory = vec![on_disk("A", "a"), on_disk("B", "changed"), on_disk("C", "c")];
    let history = vec![applied("A", "a"), applied("B", "b")];
    assert_eq!(edited_migration_names(&directory, &history), names(&["B"]));
    let live = schema_with(vec![table_called("extra")]);
    let out = diagnose_migration_history(&directory, &history, Ok(schema_with(vec![])), &live)
        .unwrap();
    assert_eq!(out.edited_migration_names, names(&["B"]));
    assert_eq!(out.drift, Some(DriftDiagnostic::DriftDetected));
    assert_eq!(
        out.history,
        Some(HistoryDiagnostic::DatabaseIsBehind { unapplied_migration_names: names(&["C"]) })
    );
    let same = vec![on_disk("A", "a"), on_disk("B", "changed")];
    let quiet = diagnose_migration_history(&same, &history, Ok(schema_with(vec![])), &schema_with(vec![]))
        .unwrap();
    assert_eq!(quiet.edited_migration_names, names(&["B"]));
    assert_eq!(quiet.drift, None);
    assert_eq!(quiet.history, None);
    assert!(!quiet.is_empty());
}

#[test]
fn directory_behind_when_history_has_more() {
    let d = names(&["A"]);
    let h = names(&["A", "B", "C"]);
    assert_eq!(
        diagnose_history(&d, &h),
        Some(HistoryDiagnostic::MigrationsDirectoryIsBehind {
            unpersisted_migration_names: names(&["B", "C"])
        })
    );
}

#[test]
fn histories_diverge_with_last_common_name() {
    let d = names(&["A", "B", "X"]);
    let h = names(&["A", "B", "Y", "Z"]);
    assert_eq!(
        diagnose_history(&d, &h),
        Some(HistoryDiagnostic::HistoriesDiverge {
            last_common_migration_name: Some("B".to_string()),
            unpersisted_migration_names: names(&["Y", "Z"]),
            unapplied_migration_names: names(&["X"]),
        })
    );
    let d = names(&["X"]);
    let h = names(&["Y"]);
    assert_eq!(
        diagnose_history(&d, &h),
        Some(HistoryDiagnostic::HistoriesDiverge {
            last_common_migration_name: None,
            unpersisted_migration_names: names(&["Y"]),
            unapplied_migration_names: names(&["X"]),
        })
    );
}

#[test]
fn same_names_give_no_history_finding() {
    let d = names(&["A", "B"]);
    assert_eq!(diagnose_history(&d, &d), None);
    assert_eq!(diagnose_history(&vec![], &vec![]), None);
    assert_eq!(names_missing_from(&d, &d), Vec::<String>::new());
    assert_eq!(last_common_name(&d, &d), Some("B".to_string()));
}

#[test]
fn missing_names_keep_their_order() {
    let d = names(&["C", "A", "D", "B"]);
    let h = names(&["A", "B"]);
    assert_eq!(names_missing_from(&d, &h), names(&["C", "D"]));
    assert_eq!(names_missing_from(&h, &d), Vec::<String>::new());
}

#[test]
fn empty_directory_and_history_give_an_empty_diagnosis() {
    let out = diagnose_migration_history(&vec![], &vec![], Ok(schema_with(vec![])), &schema_with(vec![]))
        .unwrap();
    assert!(out.is_empty());
    assert_eq!(out.drift, None);
    assert_eq!(out.history, None);
}

#[test]
fn a_migration_that_does_not_apply_cleanly_is_an_error() {
    let directory = vec![on_disk("A", "a")];
    let history = vec![applied("A", "a")];
    let failure = MigrationDoesNotApplyCleanly {
        migration_name: "A".to_string(),
        error: "syntax error".to_string(),
    };
    let out = diagnose_migration_history(
        &directory,
        &history,
        Err(MigrationDoesNotApplyCleanly {
            migration_name: "A".to_string(),
            error: "syntax error".to_string(),
        }),
        &schema_with(vec![]),
    );
    assert_eq!(out, Err(failure));
}

#[test]
fn drift_is_a_difference_of_schemas() {
    let one = schema_with(vec![table_called("a")]);
    let other = schema_with(vec![table_called("b")]);
    assert_eq!(detect_drift(&one, &one), None);
    assert_eq!(detect_drift(&one, &other), Some(DriftDiagnostic::DriftDetected));
}

#[test]
fn failed_migrations_are_those_neither_finished_nor_rolled_back() {
    let mut failed = applied("B", "b");
    failed.finished_at = None;
    let mut rolled_back = applied("C", "c");
    rolled_back.finished_at = None;
    rolled_back.rolled_back_at = Some(30);
    let history = vec![applied("A", "a"), failed, rolled_back];
    assert_eq!(failed_migration_names(&history), names(&["B"]));
}

#[test]
fn only_applied_migrations_of_the_directory_are_replayed() {
    let directory = vec![on_disk("A", "a"), on_disk("B", "b"), on_disk("C", "c")];
    let mut failed = applied("B", "b");
    failed.finished_at = None;
    let history = vec![applied("A", "a"), failed];
    let replay = migrations_to_replay(&directory, &history);
    assert_eq!(replay, vec![on_disk("A", "a")]);
}

#[test]
fn initialize_accepts_an_empty_schema_and_its_own_table() {
    assert_eq!(initialize(&schema_with(vec![])), Ok(InitializeAction::CreateMigrationsTable));
    assert_eq!(
        initialize(&schema_with(vec![table_called("_prisma_migrations")])),
        Ok(InitializeAction::Nothing)
    );
    assert_eq!(
        initialize(&schema_with(vec![table_called("_prisma_migrations"), table_called("users")])),
        Ok(InitializeAction::Nothing)
    );
    assert_eq!(
        initialize(&schema_with(vec![table_called("_Migration")])),
        Ok(InitializeAction::CreateMigrationsTable)
    );
    assert_eq!(initialize(&schema_with(vec![table_called("users")])), Err(DatabaseSchemaNotEmpty {}));
}

#[test]
fn list_migrations_tells_no_table_from_no_records() {
    assert!(list_migrations(None).is_err());
    let table = MigrationsTable::new();
    assert_eq!(list_migrations(Some(&table)), Ok(vec![]));
}

#[test]
fn a_migration_is_recorded_step_by_step() {
    let mut table = MigrationsTable::new();
    let id = table.record_migration_started_impl("m1".to_string(), "init", "CREATE TABLE a", "abc", 100);
    assert_eq!(id, "m1");
    table.record_successful_step("m1", "step one");
    table.record_successful_step("m1", "step two");
    table.record_migration_finished("m1", 200);
    let records = list_migrations(Some(&table)).unwrap();
    assert_eq!(records.len(), 1);
    assert_eq!(records[0].id, "m1");
    assert_eq!(records[0].migration_name, "init");
    assert_eq!(records[0].script, "CREATE TABLE a");
    assert_eq!(records[0].checksum, "abc");
    assert_eq!(records[0].started_at, 100);
    assert_eq!(records[0].finished_at, Some(200));
    assert_eq!(records[0].applied_steps_count, 2);
    assert_eq!(records[0].logs, "step two");
    assert_eq!(records[0].rolled_back_at, None);
}

#[test]
fn a_failed_step_leaves_the_migration_unfinished() {
    let mut table = MigrationsTable::new();
    table.record_migration_started_impl("m1".to_string(), "init", "script", "abc", 100);
    table.record_migration_started_impl("m2".to_string(), "second", "script", "def", 150);
    table.record_failed_step("m2", "it broke");
    let records = list_migrations(Some(&table)).unwrap();
    assert_eq!(records.len(), 2);
    assert_eq!(records[0].logs, "");
    assert_eq!(records[1].logs, "it broke");
    assert_eq!(records[1].applied_steps_count, 0);
    assert_eq!(records[1].finished_at, None);
    assert_eq!(failed_migration_names(&records), vec!["init".to_string(), "second".to_string()]);
}

#[test]
fn status_follows_the_events() {
    let s = MigrationStatus::Pending;
    let s = s.next(MigrationEvent::Start).unwrap();
    assert_eq!(s, MigrationStatus::MigrationInProgress);
    assert_eq!(s.next(MigrationEvent::Fail), Some(MigrationStatus::MigrationFailure));
    let s = s.next(MigrationEvent::Succeed).unwrap();
    assert_eq!(s, MigrationStatus::MigrationSuccess);
    assert!(s.is_success());
    let s = s.next(MigrationEvent::RollBack).unwrap();
    assert_eq!(s, MigrationStatus::RollingBack);
    assert_eq!(s.next(MigrationEvent::RolledBack), Some(MigrationStatus::RollbackSuccess));
    assert_eq!(s.next(MigrationEvent::RollbackFailed), Some(MigrationStatus::RollbackFailure));
    assert_eq!(MigrationStatus::Pending.next(MigrationEvent::Succeed), None);
    assert_eq!(MigrationStatus::MigrationFailure.next(MigrationEvent::Start), None);
}

#[test]
fn status_codes_round_trip() {
    let all = [
        MigrationStatus::Pending,
        MigrationStatus::MigrationInProgress,
        MigrationStatus::MigrationSuccess,
        MigrationStatus::MigrationFailure,
        MigrationStatus::RollingBack,
        MigrationStatus::RollbackSuccess,
        MigrationStatus::RollbackFailure,
    ];
    for s in all.iter() {
        assert_eq!(MigrationStatus::from_str(s.code()), Some(*s));
    }
    assert_eq!(MigrationStatus::MigrationSuccess.code(), "MigrationSuccess");
    assert_eq!(MigrationStatus::from_str("Done"), None);
}

#[test]
fn timestamps_split_into_seconds_and_nanoseconds() {
    assert_eq!(timestamp_to_datetime(1_500), (1, 500_000_000));
    assert_eq!(timestamp_to_datetime(0), (0, 0));
    assert_eq!(timestamp_to_datetime(1_600_000_000_123), (1_600_000_000, 123_000_000));
}

#[test]
fn warnings_need_force_and_unexecutable_steps_stop() {
    assert_eq!(decide(true, false, Some(true)), ApplyDecision::Unexecutable);
    assert_eq!(decide(false, true, None), ApplyDecision::NotForced);
    assert_eq!(decide(false, true, Some(false)), ApplyDecision::NotForced);
    assert_eq!(decide(false, true, Some(true)), ApplyDecision::Apply);
    assert_eq!(decide(false, false, None), ApplyDecision::Apply);
}

#[test]
fn destructive_changes_are_weighed_by_the_counts() {
    let mut results = DatabaseInspectionResults::new();
    let drop_table = DestructiveCheck::DropTable { table: "users".to_string() };
    assert_eq!(drop_table.evaluate(&results), Risk::Warning);
    results.set_row_count("users".to_string(), 0);
    assert_eq!(results.get_row_count("users"), Some(0));
    assert_eq!(results.get_row_count("posts"), None);
    assert_eq!(drop_table.evaluate(&results), Risk::Safe);
    results.set_row_count("users".to_string(), 3);
    assert_eq!(drop_table.evaluate(&results), Risk::Warning);

    let drop_column =
        DestructiveCheck::DropColumn { table: "users".to_string(), column: "age".to_string() };
    assert_eq!(drop_column.evaluate(&results), Risk::Warning);
    results.set_value_count("users".to_string(), "age".to_string(), 0);
    assert_eq!(results.get_row_and_non_null_value_count("users", "age"), (Some(3), Some(0)));
    assert_eq!(drop_column.evaluate(&results), Risk::Safe);

    let add_required = DestructiveCheck::AddRequiredColumn {
        table: "users".to_string(),
        column: "email".to_string(),
    };
    assert_eq!(add_required.evaluate(&results), Risk::Unexecutable);

    let make_required = DestructiveCheck::MakeColumnRequired {
        table: "users".to_string(),
        column: "age".to_string(),
    };
    assert_eq!(make_required.evaluate(&results), Risk::Unexecutable);
    results.set_value_count("users".to_string(), "age".to_string(), 3);
    assert_eq!(make_required.evaluate(&results), Risk::Safe);
}
