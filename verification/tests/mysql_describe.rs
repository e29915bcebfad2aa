use schema_engine::sql_schema::mysql::{
    default_is_current_timestamp, extract_enum_values, unescape_and_unquote_default_string, Flavour,
};
use schema_engine::sql_schema::mysql_columns::column_default;
use schema_engine::sql_schema::mysql_describe::{describe, DescribeError};
use schema_engine::sql_schema::mysql_keys::{
    get_all_indexes, get_foreign_keys, BadPosition, ForeignKeyRow, IndexRow, KeyRowError,
};
use schema_engine::sql_schema::mysql_rows::{get_all_columns, ColumnRow, RowError};
use schema_engine::sql_schema::{
    ColumnArity, ColumnTypeFamily, DefaultValue, Enum, ForeignKeyAction, Index, IndexType,
};
use schema_engine::values::PrismaValue;

fn reported(table: &str, column: &str, data_type: &str, full: &str, nullable: &str) -> ColumnRow {
    ColumnRow {
        table_name: table.to_string(),
        column_name: column.to_string(),
        data_type: data_type.to_string(),
        full_data_type: full.to_string(),
        is_nullable: nullable.to_string(),
        character_maximum_length: None,
        numeric_precision: None,
        numeric_scale: None,
        datetime_precision: None,
        column_default: None,
        extra: String::new(),
    }
}

fn indexed(table: &str, index: &str, unique: bool, column: &str, seq: i64) -> IndexRow {
    IndexRow {
        table_name: table.to_string(),
        index_name: index.to_string(),
        non_unique: !unique,
        column_name: Some(column.to_string()),
        seq_in_index: seq,
    }
}

fn refers(table: &str, constraint: &str, column: &str, to: &str, to_column: &str, at: i64) -> ForeignKeyRow {
    ForeignKeyRow {
        table_name: table.to_string(),
        constraint_name: constraint.to_string(),
        column_name: column.to_string(),
        referenced_table_name: to.to_string(),
        referenced_column_name: to_column.to_string(),
        ordinal_position: at,
        delete_rule: "CASCADE".to_string(),
        update_rule: "NO ACTION".to_string(),
    }
}

#[test]
fn enum_values_are_read_from_the_full_type() {
    assert_eq!(
        extract_enum_values("enum('a','b','c')"),
        vec!["a".to_string(), "b".to_string(), "c".to_string()]
    );
    assert_eq!(extract_enum_values("enum('one')"), vec!["one".to_string()]);
}

#[test]
fn the_current_timestamp_is_known_in_all_its_forms() {
    assert!(default_is_current_timestamp("CURRENT_TIMESTAMP"));
    assert!(default_is_current_timestamp("current_timestamp(3)"));
    assert!(default_is_current_timestamp("current_timestamp()"));
    assert!(!default_is_current_timestamp("now"));
    assert!(!default_is_current_timestamp("'2020-01-01'"));
}

#[test]
fn defaults_of_text_are_unescaped() {
    assert_eq!(
        unescape_and_unquote_default_string("it''s".to_string(), &Flavour::Mysql),
        "it's"
    );
    assert_eq!(
        unescape_and_unquote_default_string("a\\\\b".to_string(), &Flavour::Mysql),
        "a\\b"
    );
    assert_eq!(
        unescape_and_unquote_default_string("'line\\nbreak'".to_string(), &Flavour::MariaDb),
        "line\nbreak"
    );
    assert_eq!(unescape_and_unquote_default_string("plain".to_string(), &Flavour::Mysql), "plain");
}

#[test]
fn defaults_are_read_by_the_family_of_the_column() {
    assert_eq!(
        column_default(&ColumnTypeFamily::Int, "42".to_string(), &Flavour::Mysql),
        DefaultValue::VALUE(PrismaValue::Int(42))
    );
    assert_eq!(
        column_default(&ColumnTypeFamily::Int, "uuid()".to_string(), &Flavour::Mysql),
        DefaultValue::DBGENERATED("uuid()".to_string())
    );
    assert_eq!(
        column_default(&ColumnTypeFamily::Boolean, "1".to_string(), &Flavour::Mysql),
        DefaultValue::VALUE(PrismaValue::Boolean(true))
    );
    assert_eq!(
        column_default(&ColumnTypeFamily::Boolean, "0".to_string(), &Flavour::Mysql),
        DefaultValue::VALUE(PrismaValue::Boolean(false))
    );
    assert_eq!(
        column_default(&ColumnTypeFamily::Boolean, "2".to_string(), &Flavour::Mysql),
        DefaultValue::DBGENERATED("2".to_string())
    );
    assert_eq!(
        column_default(&ColumnTypeFamily::DateTime, "CURRENT_TIMESTAMP".to_string(), &Flavour::Mysql),
        DefaultValue::NOW
    );
    assert_eq!(
        column_default(&ColumnTypeFamily::String, "hello".to_string(), &Flavour::Mysql),
        DefaultValue::VALUE(PrismaValue::String("hello".to_string()))
    );
    assert_eq!(
        column_default(
            &ColumnTypeFamily::Enum("t_c".to_string()),
            "_utf8mb4\\'red\\'".to_string(),
            &Flavour::Mysql
        ),
        DefaultValue::VALUE(PrismaValue::Enum("red".to_string()))
    );
    assert_eq!(
        column_default(&ColumnTypeFamily::Binary, "x".to_string(), &Flavour::Mysql),
        DefaultValue::DBGENERATED("x".to_string())
    );
}

#[test]
fn columns_are_read_from_the_rows_of_their_table() {
    let mut id = reported("users", "id", "int", "int(11)", "NO");
    id.extra = "auto_increment".to_string();
    id.numeric_precision = Some(10);
    let mut name = reported("users", "name", "varchar", "varchar(191)", "YES");
    name.character_maximum_length = Some(191);
    name.column_default = Some("anon".to_string());
    let colour = reported("users", "colour", "enum", "enum('red','green')", "no");
    let other = reported("posts", "id", "int", "int(11)", "NO");
    let rows = vec![id, other, name, colour];
    let (columns, enums) = get_all_columns(&rows, "users", &Flavour::Mysql).unwrap();
    assert_eq!(columns.len(), 3);
    assert_eq!(columns[0].name, "id");
    assert!(columns[0].auto_increment);
    assert_eq!(columns[0].tpe.family, ColumnTypeFamily::Int);
    assert_eq!(columns[0].tpe.arity, ColumnArity::Required);
    assert_eq!(columns[0].tpe.full_data_type, "int(11)");
    assert_eq!(columns[1].name, "name");
    assert!(!columns[1].auto_increment);
    assert_eq!(columns[1].tpe.family, ColumnTypeFamily::String);
    assert_eq!(columns[1].tpe.arity, ColumnArity::Nullable);
    assert_eq!(columns[1].tpe.character_maximum_length, Some(191));
    assert_eq!(
        columns[1].default,
        Some(DefaultValue::VALUE(PrismaValue::String("anon".to_string())))
    );
    assert_eq!(columns[2].tpe.family, ColumnTypeFamily::Enum("users_colour".to_string()));
    assert_eq!(
        enums,
        vec![Enum {
            name: "users_colour".to_string(),
            values: vec!["red".to_string(), "green".to_string()],
        }]
    );
}

#[test]
fn a_row_that_does_not_tell_nullability_is_refused() {
    let rows = vec![reported("users", "id", "int", "int(11)", "MAYBE")];
    assert_eq!(
        get_all_columns(&rows, "users", &Flavour::Mysql).err(),
        Some(RowError::UnrecognizedNullable { found: "MAYBE".to_string() })
    );
    assert!(get_all_columns(&rows, "posts", &Flavour::Mysql).is_ok());
}

#[test]
fn indexes_are_gathered_by_name_and_the_primary_key_apart() {
    let rows = vec![
        indexed("users", "PRIMARY", true, "id", 1),
        indexed("users", "name_age", false, "name", 1),
        indexed("users", "name_age", false, "age", 2),
        indexed("users", "email", true, "email", 1),
        indexed("posts", "title", false, "title", 1),
    ];
    let (indexes, primary_key) = get_all_indexes(&rows, "users").unwrap();
    assert_eq!(primary_key.unwrap().columns, vec!["id".to_string()]);
    assert_eq!(indexes.len(), 2);
    let name_age = indexes.iter().find(|i| i.name == "name_age").unwrap();
    assert_eq!(
        *name_age,
        Index {
            name: "name_age".to_string(),
            columns: vec!["name".to_string(), "age".to_string()],
            tpe: IndexType::Normal,
        }
    );
    let email = indexes.iter().find(|i| i.name == "email").unwrap();
    assert_eq!(email.tpe, IndexType::Unique);
}

#[test]
fn an_index_row_with_a_place_that_is_none_is_refused() {
    let rows = vec![indexed("users", "broken", false, "id", 0)];
    assert_eq!(
        get_all_indexes(&rows, "users").err(),
        Some(BadPosition { name: "broken".to_string(), position: 0 })
    );
}

#[test]
fn foreign_keys_are_gathered_by_constraint_and_sorted_by_columns() {
    let rows = vec![
        refers("posts", "k2", "editor_id", "users", "id", 1),
        refers("posts", "k1", "a", "pairs", "x", 1),
        refers("posts", "k1", "b", "pairs", "y", 2),
        refers("comments", "k3", "post_id", "posts", "id", 1),
    ];
    let keys = get_foreign_keys(&rows, "posts").unwrap();
    assert_eq!(keys.len(), 2);
    assert_eq!(keys[0].constraint_name, Some("k1".to_string()));
    assert_eq!(keys[0].columns, vec!["a".to_string(), "b".to_string()]);
    assert_eq!(keys[0].referenced_table, "pairs");
    assert_eq!(keys[0].referenced_columns, vec!["x".to_string(), "y".to_string()]);
    assert_eq!(keys[0].on_delete_action, ForeignKeyAction::Cascade);
    assert_eq!(keys[0].on_update_action, ForeignKeyAction::NoAction);
    assert_eq!(keys[1].constraint_name, Some("k2".to_string()));
    assert_eq!(keys[1].columns, vec!["editor_id".to_string()]);
}

#[test]
fn a_rule_that_is_no_action_of_a_foreign_key_is_refused() {
    let mut row = refers("posts", "k", "user_id", "users", "id", 1);
    row.delete_rule = "EXPLODE".to_string();
    assert_eq!(
        get_foreign_keys(&vec![row], "posts").err(),
        Some(KeyRowError::UnrecognizedAction { rule: "EXPLODE".to_string() })
    );
}

#[test]
fn a_schema_is_described_table_by_table() {
    let mut id = reported("users", "id", "int", "int(11)", "NO");
    id.extra = "auto_increment".to_string();
    let post_id = reported("posts", "id", "int", "int(11)", "NO");
    let author = reported("posts", "user_id", "int", "int(11)", "NO");
    let columns = vec![id, post_id, author];
    let indexes = vec![indexed("users", "PRIMARY", true, "id", 1), indexed("posts", "PRIMARY", true, "id", 1)];
    let keys = vec![refers("posts", "author", "user_id", "users", "id", 1)];
    let names = vec!["users".to_string(), "posts".to_string()];
    let schema = describe(&names, &columns, &indexes, &keys, &Flavour::Mysql).unwrap();
    assert_eq!(schema.tables.len(), 2);
    assert_eq!(schema.tables[0].name, "users");
    assert_eq!(schema.tables[0].columns.len(), 1);
    assert!(schema.tables[0].foreign_keys.is_empty());
    assert_eq!(schema.tables[1].name, "posts");
    assert_eq!(schema.tables[1].columns.len(), 2);
    assert_eq!(schema.tables[1].foreign_keys.len(), 1);
    assert_eq!(schema.tables[1].foreign_keys[0].referenced_table, "users");
    assert!(schema.enums.is_empty());
    assert!(schema.sequences.is_empty());

    let missing = vec!["users".to_string(), "ghosts".to_string()];
    assert_eq!(
        describe(&missing, &columns, &indexes, &keys, &Flavour::Mysql).err(),
        Some(DescribeError::TableColumnsNotFound { table: "ghosts".to_string() })
    );
}
