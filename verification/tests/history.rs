use schema_engine::introspection::SqlFamily;
use schema_engine::migrations::rows::{
    column_name, column_type, migration_of_row, migration_table_setup, ColumnKind, MigrationRow,
    MigrationRowError, MIGRATION_TABLE_NAME,
};
use schema_engine::migrations::history::{
    apply_path, ApplyPlan, convert_migration_to_list_migration_steps_output, ApplyMigrationInput, ApplyPath,
    MigrationHistory, PrettyDatabaseMigrationStep,
};
use schema_engine::migrations::legacy::{
    Migration, MigrationStatus, MigrationUpdateParams, NewMigration,
};
use schema_engine::steps::{CreateModel, MigrationStep};

fn asked(name: &str) -> NewMigration {
    NewMigration {
        name: name.to_string(),
        datamodel_string: format!("model {} {{}}", name),
        datamodel_steps: vec![MigrationStep::CreateModel(CreateModel { model: name.to_string() })],
        database_migration: "{}".to_string(),
    }
}

fn finished(history: &mut MigrationHistory, name: &str, status: MigrationStatus) -> Migration {
    let recorded = history.create(Migration::new(asked(name), 1000));
    history.update(&MigrationUpdateParams {
        name: recorded.name.clone(),
        new_name: recorded.name.clone(),
        revision: recorded.revision,
        status,
        applied: 1,
        rolled_back: 0,
        errors: vec![],
        finished_at: Some(2000),
    });
    recorded
}

#[test]
fn a_new_migration_is_pending() {
    let m = Migration::new(asked("init"), 1234);
    assert_eq!(m.name, "init");
    assert_eq!(m.revision, 0);
    assert_eq!(m.status, MigrationStatus::Pending);
    assert_eq!(m.applied, 0);
    assert_eq!(m.rolled_back, 0);
    assert_eq!(m.started_at, 1234);
    assert_eq!(m.finished_at, None);
    assert!(m.errors.is_empty());
    assert!(!m.is_watch_migration());
    assert!(Migration::new(asked("watch-20200101"), 0).is_watch_migration());
}

#[test]
fn revisions_count_up_from_one() {
    let mut history = MigrationHistory::new();
    let a = history.create(Migration::new(asked("a"), 1));
    let b = history.create(Migration::new(asked("b"), 2));
    assert_eq!(a.revision, 1);
    assert_eq!(b.revision, 2);
    let all = history.load_all();
    assert_eq!(all.len(), 2);
    assert_eq!(all[0], a);
    assert_eq!(all[1], b);
    history.reset();
    assert!(history.load_all().is_empty());
    assert_eq!(history.create(Migration::new(asked("c"), 3)).revision, 1);
}

#[test]
fn an_update_changes_the_record_of_that_name_and_revision() {
    let mut history = MigrationHistory::new();
    history.create(Migration::new(asked("a"), 1));
    let b = history.create(Migration::new(asked("b"), 2));
    history.update(&MigrationUpdateParams {
        name: "b".to_string(),
        new_name: "b2".to_string(),
        revision: b.revision,
        status: MigrationStatus::MigrationFailure,
        applied: 3,
        rolled_back: 1,
        errors: vec!["broken".to_string()],
        finished_at: Some(99),
    });
    let all = history.load_all();
    assert_eq!(all[0].name, "a");
    assert_eq!(all[0].status, MigrationStatus::Pending);
    assert_eq!(all[1].name, "b2");
    assert_eq!(all[1].status, MigrationStatus::MigrationFailure);
    assert_eq!(all[1].applied, 3);
    assert_eq!(all[1].rolled_back, 1);
    assert_eq!(all[1].errors, vec!["broken".to_string()]);
    assert_eq!(all[1].finished_at, Some(99));
    assert_eq!(all[1].revision, b.revision);
    assert!(history.by_name("b").is_none());
    assert_eq!(history.by_name("b2").unwrap().revision, 2);
}

#[test]
fn the_last_migration_is_the_last_that_succeeded() {
    let mut history = MigrationHistory::new();
    assert!(history.last().is_none());
    assert_eq!(history.last_two_migrations(), (None, None));
    finished(&mut history, "a", MigrationStatus::MigrationSuccess);
    finished(&mut history, "watch-b", MigrationStatus::MigrationSuccess);
    finished(&mut history, "c", MigrationStatus::MigrationFailure);
    history.create(Migration::new(asked("d"), 5));
    assert_eq!(history.last().unwrap().name, "watch-b");
    assert_eq!(history.last_non_watch_migration().unwrap().name, "a");
    let (last, before) = history.last_two_migrations();
    assert_eq!(last.unwrap().name, "watch-b");
    assert_eq!(before.unwrap().name, "a");
    assert!(history.migration_is_already_applied("a"));
    assert!(!history.migration_is_already_applied("c"));
    assert!(!history.migration_is_already_applied("d"));
    assert!(!history.migration_is_already_applied("nowhere"));
}

#[test]
fn leaving_watch_mode_is_a_way_of_its_own() {
    let watched = Migration::new(asked("watch-1"), 0);
    let named = Migration::new(asked("init"), 0);
    let input = |id: &str| ApplyMigrationInput { migration_id: id.to_string(), steps: vec![], force: None };
    assert_eq!(apply_path(Some(&watched), &input("second")), ApplyPath::TransitionOutOfWatchMode);
    assert_eq!(apply_path(Some(&watched), &input("watch-2")), ApplyPath::Normal);
    assert_eq!(apply_path(Some(&named), &input("second")), ApplyPath::Normal);
    assert_eq!(apply_path(None, &input("second")), ApplyPath::Normal);
    assert!(input("watch-2").is_watch_migration());
}

#[test]
fn a_migration_is_shown_with_the_steps_of_the_database() {
    let m = Migration::new(asked("init"), 0);
    let shown = convert_migration_to_list_migration_steps_output(
        m,
        vec![PrettyDatabaseMigrationStep { step: "CreateTable".to_string(), raw: "CREATE TABLE init".to_string() }],
    );
    assert_eq!(shown.id, "init");
    assert_eq!(shown.status, MigrationStatus::Pending);
    assert_eq!(shown.datamodel, "model init {}");
    assert_eq!(shown.datamodel_steps.len(), 1);
    assert_eq!(shown.database_steps[0].raw, "CREATE TABLE init");
}

#[test]
fn applying_begins_by_what_the_records_say() {
    let input = |id: &str| ApplyMigrationInput { migration_id: id.to_string(), steps: vec![], force: None };
    let mut history = MigrationHistory::new();
    assert_eq!(history.plan(&input("a")), ApplyPlan::FromLast);
    assert!(history.base(ApplyPlan::FromLast).is_none());
    finished(&mut history, "a", MigrationStatus::MigrationSuccess);
    assert_eq!(history.plan(&input("a")), ApplyPlan::AlreadyApplied);
    assert_eq!(history.plan(&input("b")), ApplyPlan::FromLast);
    assert_eq!(history.base(ApplyPlan::FromLast).unwrap().name, "a");
    finished(&mut history, "watch-1", MigrationStatus::MigrationSuccess);
    assert_eq!(history.plan(&input("b")), ApplyPlan::FromLastNonWatch);
    assert_eq!(history.plan(&input("watch-2")), ApplyPlan::FromLast);
    assert_eq!(history.base(ApplyPlan::FromLastNonWatch).unwrap().name, "a");
    assert_eq!(history.base(ApplyPlan::FromLast).unwrap().name, "watch-1");
    assert!(history.base(ApplyPlan::AlreadyApplied).is_none());
}

#[test]
fn a_row_stands_for_a_record() {
    let row = |status: &str, applied: i64| MigrationRow {
        name: "init".to_string(),
        revision: 3,
        datamodel: "model A {}".to_string(),
        status: status.to_string(),
        applied,
        rolled_back: 0,
        database_migration: "{}".to_string(),
        started_at: 1000,
        finished_at: Some(2000),
    };
    let m = migration_of_row(row("MigrationSuccess", 2), vec![], vec!["none".to_string()]).unwrap();
    assert_eq!(m.name, "init");
    assert_eq!(m.revision, 3);
    assert_eq!(m.status, MigrationStatus::MigrationSuccess);
    assert_eq!(m.applied, 2);
    assert_eq!(m.rolled_back, 0);
    assert_eq!(m.datamodel_string, "model A {}");
    assert_eq!(m.errors, vec!["none".to_string()]);
    assert_eq!(m.started_at, 1000);
    assert_eq!(m.finished_at, Some(2000));
    assert_eq!(
        migration_of_row(row("Done", 2), vec![], vec![]),
        Err(MigrationRowError::UnknownStatus { status: "Done".to_string() })
    );
    assert_eq!(
        migration_of_row(row("Pending", -1), vec![], vec![]),
        Err(MigrationRowError::BadNumber { number: -1 })
    );
}

#[test]
fn the_migrations_table_has_eleven_columns() {
    assert_eq!(MIGRATION_TABLE_NAME, "_Migration");
    let kinds = migration_table_setup();
    assert_eq!(kinds.len(), 11);
    assert_eq!(kinds[0], ColumnKind::Primary);
    assert_eq!(kinds[10], ColumnKind::NullableDateTime);
    let names: Vec<&str> = (0..11).map(column_name).collect();
    assert_eq!(
        names,
        vec![
            "revision",
            "name",
            "datamodel",
            "status",
            "applied",
            "rolled_back",
            "datamodel_steps",
            "database_migration",
            "errors",
            "started_at",
            "finished_at"
        ]
    );
    assert_eq!(column_type(SqlFamily::Mysql, ColumnKind::UnlimitedText), Some("LONGTEXT"));
    assert_eq!(column_type(SqlFamily::Mysql, ColumnKind::DateTime), Some("datetime(3)"));
    assert_eq!(column_type(SqlFamily::Postgres, ColumnKind::NullableDateTime), Some("timestamp(3)"));
    assert_eq!(column_type(SqlFamily::Sqlite, ColumnKind::DateTime), Some("DATETIME"));
    assert_eq!(column_type(SqlFamily::Mssql, ColumnKind::Text), Some("nvarchar(max)"));
    assert_eq!(column_type(SqlFamily::Postgres, ColumnKind::Text), Some("text"));
    assert_eq!(column_type(SqlFamily::Postgres, ColumnKind::Primary), None);
}
