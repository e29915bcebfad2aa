use schema_engine::sql_schema::walkers::{find_column, walk_columns};
use schema_engine::sql_schema::{
    Column, ColumnArity, ColumnType, ColumnTypeFamily, Enum, ForeignKey, ForeignKeyAction, Index,
    IndexType, PrimaryKey, SqlSchema, Table,
};

fn a_column(name: &str, family: ColumnTypeFamily) -> Column {
    Column {
        name: name.to_string(),
        tpe: ColumnType {
            data_type: "x".to_string(),
            full_data_type: "x".to_string(),
            character_maximum_length: None,
            family,
            arity: ColumnArity::Required,
            native_type: None,
        },
        default: None,
        auto_increment: false,
    }
}

fn shop() -> SqlSchema {
    SqlSchema {
        tables: vec![
            Table {
                name: "customers".to_string(),
                columns: vec![
                    a_column("id", ColumnTypeFamily::Int),
                    a_column("mood", ColumnTypeFamily::Enum("mood".to_string())),
                ],
                indices: vec![],
                primary_key: Some(PrimaryKey {
                    columns: vec!["id".to_string()],
                    sequence: None,
                    constraint_name: None,
                }),
                foreign_keys: vec![],
            },
            Table {
                name: "orders".to_string(),
                columns: vec![
                    a_column("id", ColumnTypeFamily::Int),
                    a_column("customer_id", ColumnTypeFamily::Int),
                    a_column("note", ColumnTypeFamily::String),
                ],
                indices: vec![Index {
                    name: "by_customer".to_string(),
                    columns: vec!["customer_id".to_string(), "id".to_string()],
                    tpe: IndexType::Normal,
                }],
                primary_key: Some(PrimaryKey {
                    columns: vec!["id".to_string(), "customer_id".to_string()],
                    sequence: None,
                    constraint_name: None,
                }),
                foreign_keys: vec![ForeignKey {
                    constraint_name: Some("orders_customer".to_string()),
                    columns: vec!["customer_id".to_string()],
                    referenced_table: "customers".to_string(),
                    referenced_columns: vec!["id".to_string()],
                    on_delete_action: ForeignKeyAction::Cascade,
                    on_update_action: ForeignKeyAction::NoAction,
                }],
            },
        ],
        enums: vec![Enum { name: "mood".to_string(), values: vec!["happy".to_string()] }],
        sequences: vec![],
    }
}

#[test]
fn all_columns_are_walked_table_by_table() {
    let schema = shop();
    let names: Vec<(String, String)> = walk_columns(&schema)
        .iter()
        .map(|c| (c.table().name().to_string(), c.name().to_string()))
        .collect();
    let expected: Vec<(String, String)> = vec![
        ("customers", "id"),
        ("customers", "mood"),
        ("orders", "id"),
        ("orders", "customer_id"),
        ("orders", "note"),
    ]
    .into_iter()
    .map(|(t, c)| (t.to_string(), c.to_string()))
    .collect();
    assert_eq!(names, expected);
}

#[test]
fn a_column_is_found_by_table_and_name() {
    let schema = shop();
    let column = find_column(&schema, "orders", "customer_id").unwrap();
    assert_eq!(column.name(), "customer_id");
    assert_eq!(column.column_index(), 1);
    assert_eq!(column.table().name(), "orders");
    assert_eq!(column.table().table_index(), 1);
    assert_eq!(*column.column_type_family(), ColumnTypeFamily::Int);
    assert_eq!(*column.arity(), ColumnArity::Required);
    assert!(!column.is_autoincrement());
    assert!(!column.is_single_primary_key());
    assert!(column.default().is_none());
    assert!(find_column(&schema, "orders", "nothing").is_none());
    assert!(find_column(&schema, "nothing", "id").is_none());
    let id = find_column(&schema, "customers", "id").unwrap();
    assert!(id.is_single_primary_key());
    assert!(id.is_same_column(&find_column(&schema, "customers", "id").unwrap()));
    assert!(!id.is_same_column(&find_column(&schema, "orders", "id").unwrap()));
}

#[test]
fn the_enum_of_a_column_is_found_in_the_schema() {
    let schema = shop();
    let mood = find_column(&schema, "customers", "mood").unwrap();
    assert_eq!(mood.column_type_family_as_enum().unwrap().values, vec!["happy".to_string()]);
    let id = find_column(&schema, "customers", "id").unwrap();
    assert!(id.column_type_family_as_enum().is_none());
}

#[test]
fn a_table_walker_reaches_columns_indexes_and_keys() {
    let schema = shop();
    let orders = schema.table_walker("orders").unwrap();
    assert_eq!(orders.name(), "orders");
    assert_eq!(orders.columns().len(), 3);
    assert_eq!(orders.column("note").unwrap().column_index(), 2);
    assert!(orders.column("nothing").is_none());
    assert_eq!(orders.column_at(0).unwrap().name(), "id");
    assert!(orders.column_at(3).is_none());
    assert_eq!(orders.foreign_key_count(), 1);
    assert_eq!(
        orders.primary_key_column_names(),
        Some(&vec!["id".to_string(), "customer_id".to_string()])
    );
    assert!(orders.foreign_key_for_column("customer_id").is_some());
    assert!(orders.foreign_key_for_column("note").is_none());
    let indexes = orders.indexes();
    assert_eq!(indexes.len(), 1);
    assert_eq!(indexes[0].name(), "by_customer");
    assert_eq!(*indexes[0].index_type(), IndexType::Normal);
    let indexed: Vec<&str> = indexes[0].columns().iter().map(|c| c.name()).collect();
    assert_eq!(indexed, vec!["customer_id", "id"]);
    assert!(schema.table_walker("nothing").is_none());
    assert_eq!(schema.table_walkers().len(), 2);
    assert_eq!(schema.table_walker_at(0).name(), "customers");
}

#[test]
fn a_foreign_key_walker_reaches_both_tables() {
    let schema = shop();
    let orders = schema.table_walker("orders").unwrap();
    let keys = orders.foreign_keys();
    assert_eq!(keys.len(), 1);
    let key = orders.foreign_key_at(0);
    assert_eq!(key.constraint_name(), Some("orders_customer"));
    assert_eq!(key.foreign_key_index(), 0);
    assert_eq!(key.constrained_column_names(), &vec!["customer_id".to_string()]);
    let constrained: Vec<&str> = key.constrained_columns().iter().map(|c| c.name()).collect();
    assert_eq!(constrained, vec!["customer_id"]);
    assert_eq!(key.referenced_column_names(), &vec!["id".to_string()]);
    assert_eq!(key.referenced_columns_count(), 1);
    assert_eq!(key.referenced_table().name(), "customers");
    assert_eq!(key.table().name(), "orders");
    assert_eq!(*key.on_delete_action(), ForeignKeyAction::Cascade);
    assert_eq!(*key.on_update_action(), ForeignKeyAction::NoAction);
}
