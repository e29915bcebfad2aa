use schema_engine::dml::{
    Datamodel, DefaultValue as FieldDefault, Enum as ModelEnum, EnumValue, Field, FieldArity,
    ValueGenerator,
};
use schema_engine::flavours::{calculate_enums, column_type_for_native_type};
use schema_engine::introspection::names::{make_free_name, sanitize_string};
use schema_engine::introspection::tables::{is_join_table, is_migration_table, is_model_table, is_relay_table};
use schema_engine::introspection::{calculate_datamodel, SqlFamily, Version};
use schema_engine::native_types::PostgresType;
use schema_engine::sql_schema::{
    Column, ColumnArity, ColumnType, ColumnTypeFamily, Enum, ForeignKey, ForeignKeyAction, Index,
    IndexType, PrimaryKey, SqlSchema, Table,
};

fn typed(name: &str, data_type: &str, full: &str, family: ColumnTypeFamily, length: Option<u32>) -> Column {
    Column {
        name: name.to_string(),
        tpe: ColumnType {
            data_type: data_type.to_string(),
            full_data_type: full.to_string(),
            character_maximum_length: length,
            family,
            arity: ColumnArity::Required,
            native_type: None,
        },
        default: None,
        auto_increment: false,
    }
}

fn key(columns: &[&str]) -> Option<PrimaryKey> {
    Some(PrimaryKey {
        columns: columns.iter().map(|c| c.to_string()).collect(),
        sequence: None,
        constraint_name: None,
    })
}

fn bare(name: &str, columns: Vec<Column>, primary_key: Option<PrimaryKey>) -> Table {
    Table { name: name.to_string(), columns, indices: vec![], primary_key, foreign_keys: vec![] }
}

fn points(columns: &[&str], to: &str, action: ForeignKeyAction) -> ForeignKey {
    ForeignKey {
        constraint_name: None,
        columns: columns.iter().map(|c| c.to_string()).collect(),
        referenced_table: to.to_string(),
        referenced_columns: vec!["id".to_string()],
        on_delete_action: action,
        on_update_action: ForeignKeyAction::NoAction,
    }
}

fn of_tables(tables: Vec<Table>) -> SqlSchema {
    SqlSchema { tables, enums: vec![], sequences: vec![] }
}

fn legacy_user(id_length: u32) -> Table {
    let full = format!("char({})", id_length);
    bare(
        "User",
        vec![
            typed("id", "char", &full, ColumnTypeFamily::String, Some(id_length)),
            typed("createdAt", "datetime", "datetime(3)", ColumnTypeFamily::DateTime, None),
            typed("updatedAt", "datetime", "datetime(3)", ColumnTypeFamily::DateTime, None),
        ],
        key(&["id"]),
    )
}

fn relay() -> Table {
    bare(
        "_RelayId",
        vec![
            typed("id", "char", "char(25)", ColumnTypeFamily::String, Some(25)),
            typed("stableModelIdentifier", "char", "char(25)", ColumnTypeFamily::String, Some(25)),
        ],
        key(&["id"]),
    )
}

fn id_default(result_model: &schema_engine::dml::Model) -> Option<FieldDefault> {
    match result_model.find_field("id").unwrap() {
        Field::ScalarField(sf) => match &sf.default_value {
            Some(FieldDefault::Expression(g)) => Some(FieldDefault::Expression(ValueGenerator {
                name: g.name.clone(),
                generator: g.generator,
            })),
            Some(FieldDefault::Single(_)) => panic!("the default is an expression"),
            None => None,
        },
        Field::RelationField(_) => panic!("the id is a scalar field"),
    }
}

#[test]
fn tables_are_told_apart_by_their_names_and_shapes() {
    assert!(is_migration_table(&bare("_Migration", vec![], None)));
    assert!(is_migration_table(&bare("_prisma_migrations", vec![], None)));
    assert!(!is_migration_table(&bare("migrations", vec![], None)));
    assert!(is_relay_table(&relay()));
    assert!(!is_relay_table(&legacy_user(25)));
    assert!(is_model_table(&legacy_user(25)));
    assert!(!is_model_table(&relay()));
    let mut join = bare(
        "_PostToTag",
        vec![
            typed("A", "int", "int(11)", ColumnTypeFamily::Int, None),
            typed("B", "int", "int(11)", ColumnTypeFamily::Int, None),
        ],
        None,
    );
    join.indices = vec![
        Index { name: "ab".to_string(), columns: vec!["A".to_string(), "B".to_string()], tpe: IndexType::Unique },
        Index { name: "b".to_string(), columns: vec!["B".to_string()], tpe: IndexType::Normal },
    ];
    join.foreign_keys = vec![
        points(&["A"], "Post", ForeignKeyAction::Cascade),
        points(&["B"], "Tag", ForeignKeyAction::Cascade),
    ];
    assert!(is_join_table(&join));
    assert!(!is_model_table(&join));
    join.name = "PostToTag".to_string();
    assert!(!is_join_table(&join));
}

#[test]
fn a_join_table_becomes_two_list_fields() {
    let id = || typed("id", "int", "int(11)", ColumnTypeFamily::Int, None);
    let mut join = bare(
        "_PostToTag",
        vec![
            typed("A", "int", "int(11)", ColumnTypeFamily::Int, None),
            typed("B", "int", "int(11)", ColumnTypeFamily::Int, None),
        ],
        None,
    );
    join.indices = vec![
        Index { name: "ab".to_string(), columns: vec!["A".to_string(), "B".to_string()], tpe: IndexType::Unique },
        Index { name: "b".to_string(), columns: vec!["B".to_string()], tpe: IndexType::Normal },
    ];
    join.foreign_keys = vec![
        points(&["A"], "Post", ForeignKeyAction::Cascade),
        points(&["B"], "Tag", ForeignKeyAction::Cascade),
    ];
    let schema = of_tables(vec![
        bare("Post", vec![id()], key(&["id"])),
        bare("Tag", vec![id()], key(&["id"])),
        join,
    ]);
    let result = calculate_datamodel(&schema, &SqlFamily::Mysql, &Datamodel::new(), false).unwrap();
    let dm = &result.data_model;
    assert_eq!(dm.models.len(), 2);
    let post = dm.find_model("Post").unwrap();
    match post.find_field("Tag").unwrap() {
        Field::RelationField(rf) => {
            assert_eq!(rf.arity, FieldArity::List);
            assert_eq!(rf.relation_info.to, "Tag");
            assert_eq!(rf.relation_info.name, "PostToTag");
            assert!(rf.relation_info.fields.is_empty());
        }
        Field::ScalarField(_) => panic!("the field is a relation field"),
    }
    let tag = dm.find_model("Tag").unwrap();
    match tag.find_field("Post").unwrap() {
        Field::RelationField(rf) => {
            assert_eq!(rf.arity, FieldArity::List);
            assert_eq!(rf.relation_info.to, "Post");
            assert_eq!(rf.relation_info.name, "PostToTag");
        }
        Field::ScalarField(_) => panic!("the field is a relation field"),
    }
}

#[test]
fn two_relations_to_one_table_are_told_apart() {
    let id = || typed("id", "int", "int(11)", ColumnTypeFamily::Int, None);
    let mut post = bare(
        "Post",
        vec![
            id(),
            typed("author_id", "int", "int(11)", ColumnTypeFamily::Int, None),
            typed("editor_id", "int", "int(11)", ColumnTypeFamily::Int, None),
        ],
        key(&["id"]),
    );
    post.foreign_keys = vec![
        points(&["author_id"], "User", ForeignKeyAction::NoAction),
        points(&["editor_id"], "User", ForeignKeyAction::NoAction),
    ];
    let schema = of_tables(vec![post, bare("User", vec![id()], key(&["id"]))]);
    let result = calculate_datamodel(&schema, &SqlFamily::Mysql, &Datamodel::new(), false).unwrap();
    let dm = &result.data_model;
    let relation_fields = |model: &str| -> Vec<(String, String)> {
        dm.find_model(model)
            .unwrap()
            .fields
            .iter()
            .filter_map(|f| match f {
                Field::RelationField(rf) => Some((rf.name.clone(), rf.relation_info.name.clone())),
                Field::ScalarField(_) => None,
            })
            .collect()
    };
    assert_eq!(
        relation_fields("Post"),
        vec![
            ("User_Post_author_idToUser".to_string(), "Post_author_idToUser".to_string()),
            ("User_Post_editor_idToUser".to_string(), "Post_editor_idToUser".to_string()),
        ]
    );
    assert_eq!(
        relation_fields("User"),
        vec![
            ("Post_Post_author_idToUser".to_string(), "Post_author_idToUser".to_string()),
            ("Post_Post_editor_idToUser".to_string(), "Post_editor_idToUser".to_string()),
        ]
    );
    let again = calculate_datamodel(&schema, &SqlFamily::Mysql, &result.data_model, false).unwrap();
    assert_eq!(again, result);
}

#[test]
fn the_first_legacy_generation_is_known_by_its_marks() {
    let schema = of_tables(vec![legacy_user(25), relay()]);
    let result = calculate_datamodel(&schema, &SqlFamily::Mysql, &Datamodel::new(), false).unwrap();
    assert_eq!(result.version, Version::Prisma1);
    assert_eq!(result.data_model.models.len(), 1);
    let user = result.data_model.find_model("User").unwrap();
    assert_eq!(id_default(user), Some(FieldDefault::Expression(ValueGenerator::new_cuid())));
    assert_eq!(result.warnings.len(), 1);
    assert_eq!(result.warnings[0].code, 5);
    assert_eq!(result.warnings[0].affected[0].model, Some("User".to_string()));
    assert_eq!(result.warnings[0].affected[0].field, Some("id".to_string()));
    let again = calculate_datamodel(&schema, &SqlFamily::Mysql, &result.data_model, false).unwrap();
    assert_eq!(again, result);
}

#[test]
fn the_second_legacy_generation_is_known_by_its_marks() {
    let schema = of_tables(vec![legacy_user(36)]);
    let result = calculate_datamodel(&schema, &SqlFamily::Mysql, &Datamodel::new(), false).unwrap();
    assert_eq!(result.version, Version::Prisma11);
    let user = result.data_model.find_model("User").unwrap();
    assert_eq!(id_default(user), Some(FieldDefault::Expression(ValueGenerator::new_uuid())));
    assert_eq!(result.warnings.len(), 1);
    assert_eq!(result.warnings[0].code, 6);
}

#[test]
fn the_present_generation_is_known_by_its_migrations_table() {
    let schema = of_tables(vec![
        bare("_Migration", vec![typed("revision", "int", "int(11)", ColumnTypeFamily::Int, None)], key(&["revision"])),
        bare("User", vec![typed("id", "int", "int(11)", ColumnTypeFamily::Int, None)], key(&["id"])),
    ]);
    let result = calculate_datamodel(&schema, &SqlFamily::Mysql, &Datamodel::new(), false).unwrap();
    assert_eq!(result.version, Version::Prisma2);
    assert_eq!(result.data_model.models.len(), 1);
    assert_eq!(id_default(result.data_model.find_model("User").unwrap()), None);
    assert!(result.warnings.is_empty());
}

#[test]
fn other_databases_are_of_no_generation() {
    let foreign = of_tables(vec![bare(
        "User",
        vec![typed("id", "bigint", "bigint(20)", ColumnTypeFamily::Int, None)],
        key(&["id"]),
    )]);
    let result = calculate_datamodel(&foreign, &SqlFamily::Mysql, &Datamodel::new(), false).unwrap();
    assert_eq!(result.version, Version::NonPrisma);
    let nothing = calculate_datamodel(&of_tables(vec![]), &SqlFamily::Postgres, &Datamodel::new(), false).unwrap();
    assert_eq!(nothing.version, Version::NonPrisma);
    assert!(nothing.data_model.models.is_empty());
    let on_mssql = of_tables(vec![legacy_user(36)]);
    let result = calculate_datamodel(&on_mssql, &SqlFamily::Mssql, &Datamodel::new(), false).unwrap();
    assert_eq!(result.version, Version::NonPrisma);
}

#[test]
fn a_column_of_a_type_without_counterpart_is_commented_out() {
    let schema = of_tables(vec![bare(
        "Shape",
        vec![
            typed("id", "int", "int(11)", ColumnTypeFamily::Int, None),
            typed("outline", "polygon", "polygon", ColumnTypeFamily::Unsupported("polygon".to_string()), None),
        ],
        key(&["id"]),
    )]);
    let result = calculate_datamodel(&schema, &SqlFamily::Postgres, &Datamodel::new(), false).unwrap();
    let shape = result.data_model.find_model("Shape").unwrap();
    assert!(!shape.is_commented_out);
    match shape.find_field("outline").unwrap() {
        Field::ScalarField(sf) => {
            assert!(sf.is_commented_out);
            assert!(sf.documentation.is_some());
        }
        Field::RelationField(_) => panic!("the field is a scalar field"),
    }
    assert_eq!(result.warnings.len(), 1);
    assert_eq!(result.warnings[0].code, 3);
    assert_eq!(result.warnings[0].affected[0].field, Some("outline".to_string()));
}

#[test]
fn names_are_made_valid_and_told_apart() {
    assert_eq!(sanitize_string("my-table"), "my_table");
    assert_eq!(sanitize_string("1st place"), "st_place");
    assert_eq!(sanitize_string("__hidden"), "hidden");
    assert_eq!(sanitize_string("valid_Name1"), "valid_Name1");
    assert_eq!(sanitize_string("123"), "");
    let taken = vec!["a".to_string(), "a_".to_string(), "b".to_string()];
    assert_eq!(make_free_name("a".to_string(), &taken), "a__");
    assert_eq!(make_free_name("c".to_string(), &taken), "c");
}

#[test]
fn enums_of_a_data_model_are_written_under_their_database_names() {
    let mut dm = Datamodel::new();
    let mut happy = EnumValue::new("HAPPY");
    happy.database_name = Some("happy".to_string());
    let mut mood = ModelEnum::new("Mood", vec![happy, EnumValue::new("SAD")]);
    mood.database_name = Some("mood".to_string());
    dm.add_enum(mood);
    dm.add_enum(ModelEnum::new("Role", vec![EnumValue::new("USER")]));
    assert_eq!(
        calculate_enums(&dm),
        vec![
            Enum { name: "mood".to_string(), values: vec!["happy".to_string(), "SAD".to_string()] },
            Enum { name: "Role".to_string(), values: vec!["USER".to_string()] },
        ]
    );
}

#[test]
fn a_native_type_gives_the_type_of_its_column() {
    let t = column_type_for_native_type(FieldArity::Optional, PostgresType::VarChar(20));
    assert_eq!(t.data_type, "VARCHAR(20)");
    assert_eq!(t.full_data_type, "VARCHAR(20)");
    assert_eq!(t.arity, ColumnArity::Nullable);
    let t = column_type_for_native_type(FieldArity::List, PostgresType::Timestamp(Some(3)));
    assert_eq!(t.data_type, "TIMESTAMP(3)");
    assert_eq!(t.arity, ColumnArity::List);
    let t = column_type_for_native_type(FieldArity::Required, PostgresType::Timestamp(None));
    assert_eq!(t.data_type, "TIMESTAMP");
    assert_eq!(t.arity, ColumnArity::Required);
}
