use schema_engine::dml::{
    Datamodel, DefaultValue as DMLDefault, Enum as DmlEnum, EnumValue, Field, FieldArity,
    FieldType, IndexDefinition, IndexType as DmlIndexType, Model, OnDeleteStrategy, RelationField,
    RelationInfo, ScalarField, ScalarType, ValueGenerator,
};
use schema_engine::introspection::{calculate_datamodel, SqlFamily};
use schema_engine::native_types::{NativeType, PostgresType};
use schema_engine::sql_schema::{
    Column, ColumnArity, ColumnType, ColumnTypeFamily, DefaultValue, Enum, ForeignKey,
    ForeignKeyAction, Index, IndexType, PrimaryKey, Sequence, SqlSchema, Table,
};
use schema_engine::values::{Decimal, PrismaValue};

fn scalar(
    name: &str,
    arity: FieldArity,
    field_type: FieldType,
    default_value: Option<DMLDefault>,
    is_unique: bool,
    is_id: bool,
) -> Field {
    Field::ScalarField(ScalarField {
        name: name.to_string(),
        arity,
        field_type,
        database_name: None,
        default_value,
        is_unique,
        is_id,
        documentation: None,
        is_generated: false,
        is_updated_at: false,
        is_commented_out: false,
    })
}

fn model(name: &str, fields: Vec<Field>, indices: Vec<IndexDefinition>) -> Model {
    Model {
        database_name: None,
        name: name.to_string(),
        documentation: None,
        is_embedded: false,
        is_commented_out: false,
        fields,
        is_generated: false,
        indices,
        id_fields: vec![],
    }
}

fn column(name: &str, data_type: &str, family: ColumnTypeFamily, native: PostgresType, auto_increment: bool) -> Column {
    Column {
        name: name.to_string(),
        tpe: ColumnType {
            data_type: data_type.to_string(),
            full_data_type: data_type.to_string(),
            character_maximum_length: None,
            family,
            arity: ColumnArity::Required,
            native_type: Some(NativeType::Postgres(native)),
        },
        default: None,
        auto_increment,
    }
}

fn primary_key(column: &str, sequence: Option<Sequence>) -> Option<PrimaryKey> {
    Some(PrimaryKey {
        columns: vec![column.to_string()],
        sequence,
        constraint_name: None,
    })
}

fn autoincrement() -> Option<DMLDefault> {
    Some(DMLDefault::Expression(ValueGenerator::new_autoincrement()))
}

fn int_type() -> FieldType {
    FieldType::Base(ScalarType::Int, None)
}

fn string_type() -> FieldType {
    FieldType::Base(ScalarType::String, None)
}

#[test]
fn a_data_model_can_be_generated_from_a_schema() {
    let col_types = vec![
        ColumnTypeFamily::Int,
        ColumnTypeFamily::Float,
        ColumnTypeFamily::Boolean,
        ColumnTypeFamily::String,
        ColumnTypeFamily::DateTime,
        ColumnTypeFamily::Binary,
        ColumnTypeFamily::Json,
        ColumnTypeFamily::Uuid,
    ];

    let ref_data_model = Datamodel {
        models: vec![Model {
            database_name: None,
            name: "Table1".to_string(),
            documentation: Some(
                "The underlying table does not contain a valid unique identifier and can therefore currently not be handled."
                    .to_string(),
            ),
            is_embedded: false,
            is_generated: false,
            is_commented_out: true,
            indices: vec![],
            id_fields: vec![],
            fields: col_types
                .iter()
                .map(|col_type| {
                    let (field_type, is_commented_out, documentation) = match col_type {
                        ColumnTypeFamily::Boolean => (FieldType::Base(ScalarType::Boolean, None), false, None),
                        ColumnTypeFamily::DateTime => (FieldType::Base(ScalarType::DateTime, None), false, None),
                        ColumnTypeFamily::Float => (FieldType::Base(ScalarType::Float, None), false, None),
                        ColumnTypeFamily::Int => (FieldType::Base(ScalarType::Int, None), false, None),
                        ColumnTypeFamily::String => (FieldType::Base(ScalarType::String, None), false, None),
                        ColumnTypeFamily::Enum(name) => (FieldType::Enum(name.clone()), false, None),
                        ColumnTypeFamily::Uuid => (FieldType::Base(ScalarType::String, None), false, None),
                        ColumnTypeFamily::Json => (FieldType::Base(ScalarType::Json, None), false, None),
                        x => (
                            FieldType::Unsupported(x.to_string()),
                            true,
                            Some("This type is currently not supported.".to_string()),
                        ),
                    };
                    Field::ScalarField(ScalarField {
                        name: col_type.to_string(),
                        arity: FieldArity::Optional,
                        field_type,
                        database_name: None,
                        default_value: None,
                        is_unique: false,
                        is_id: false,
                        documentation,
                        is_generated: false,
                        is_updated_at: false,
                        is_commented_out,
                    })
                })
                .collect(),
        }],
        enums: vec![],
    };

    let schema = SqlSchema {
        tables: vec![Table {
            name: "Table1".to_string(),
            columns: col_types
                .iter()
                .map(|family| Column {
                    name: family.to_string(),
                    tpe: ColumnType::with_full_data_type(family.clone(), ColumnArity::Nullable, family.to_string()),
                    default: None,
                    auto_increment: false,
                })
                .collect(),
            indices: vec![],
            primary_key: None,
            foreign_keys: vec![],
        }],
        enums: vec![],
        sequences: vec![],
    };
    let introspection_result =
        calculate_datamodel(&schema, &SqlFamily::Postgres, &Datamodel::new(), false).expect("calculate data model");

    assert_eq!(introspection_result.data_model, ref_data_model);
}

#[test]
fn arity_is_preserved_when_generating_data_model_from_a_schema() {
    let ref_data_model = Datamodel {
        models: vec![model(
            "Table1",
            vec![
                Field::ScalarField(ScalarField::new("optional", FieldArity::Optional, int_type())),
                scalar("required", FieldArity::Required, int_type(), autoincrement(), false, true),
                Field::ScalarField(ScalarField::new("list", FieldArity::List, int_type())),
            ],
            vec![],
        )],
        enums: vec![],
    };

    let schema = SqlSchema {
        tables: vec![Table {
            name: "Table1".to_string(),
            columns: vec![
                Column {
                    name: "optional".to_string(),
                    tpe: ColumnType::pure(ColumnTypeFamily::Int, ColumnArity::Nullable),
                    default: None,
                    auto_increment: false,
                },
                Column {
                    name: "required".to_string(),
                    tpe: ColumnType::pure(ColumnTypeFamily::Int, ColumnArity::Required),
                    default: None,
                    auto_increment: true,
                },
                Column {
                    name: "list".to_string(),
                    tpe: ColumnType::pure(ColumnTypeFamily::Int, ColumnArity::List),
                    default: None,
                    auto_increment: false,
                },
            ],
            indices: vec![],
            primary_key: primary_key("required", None),
            foreign_keys: vec![],
        }],
        enums: vec![],
        sequences: vec![],
    };
    let introspection_result =
        calculate_datamodel(&schema, &SqlFamily::Postgres, &Datamodel::new(), false).expect("calculate data model");

    assert_eq!(introspection_result.data_model, ref_data_model);
}

#[test]
fn defaults_are_preserved_when_generating_data_model_from_a_schema() {
    let ref_data_model = Datamodel {
        models: vec![model(
            "Table1",
            vec![
                Field::ScalarField(ScalarField::new("no_default", FieldArity::Required, int_type())),
                scalar(
                    "int_default",
                    FieldArity::Required,
                    int_type(),
                    Some(DMLDefault::Single(PrismaValue::Int(1))),
                    false,
                    false,
                ),
                scalar(
                    "bool_default",
                    FieldArity::Optional,
                    FieldType::Base(ScalarType::Boolean, None),
                    Some(DMLDefault::Single(PrismaValue::Boolean(true))),
                    false,
                    false,
                ),
                scalar(
                    "float_default",
                    FieldArity::Optional,
                    FieldType::Base(ScalarType::Float, None),
                    Some(DMLDefault::Single(PrismaValue::Float(Decimal::from_i64(1)))),
                    false,
                    false,
                ),
                scalar(
                    "string_default",
                    FieldArity::Optional,
                    string_type(),
                    Some(DMLDefault::Single(PrismaValue::String("default".to_string()))),
                    false,
                    false,
                ),
            ],
            vec![IndexDefinition {
                name: Some("unique".into()),
                fields: vec!["no_default".into(), "int_default".into()],
                tpe: DmlIndexType::Unique,
            }],
        )],
        enums: vec![],
    };

    let schema = SqlSchema {
        tables: vec![Table {
            name: "Table1".to_string(),
            columns: vec![
                Column {
                    name: "no_default".to_string(),
                    tpe: ColumnType::pure(ColumnTypeFamily::Int, ColumnArity::Required),
                    default: None,
                    auto_increment: false,
                },
                Column {
                    name: "int_default".to_string(),
                    tpe: ColumnType::pure(ColumnTypeFamily::Int, ColumnArity::Required),
                    default: Some(DefaultValue::VALUE(PrismaValue::Int(1))),
                    auto_increment: false,
                },
                Column {
                    name: "bool_default".to_string(),
                    tpe: ColumnType::pure(ColumnTypeFamily::Boolean, ColumnArity::Nullable),
                    default: Some(DefaultValue::VALUE(PrismaValue::Boolean(true))),
                    auto_increment: false,
                },
                Column {
                    name: "float_default".to_string(),
                    tpe: ColumnType::pure(ColumnTypeFamily::Float, ColumnArity::Nullable),
                    default: Some(DefaultValue::VALUE(PrismaValue::Float(Decimal::from_i64(1)))),
                    auto_increment: false,
                },
                Column {
                    name: "string_default".to_string(),
                    tpe: ColumnType::pure(ColumnTypeFamily::String, ColumnArity::Nullable),
                    default: Some(DefaultValue::VALUE(PrismaValue::String("default".to_string()))),
                    auto_increment: false,
                },
            ],
            indices: vec![Index {
                name: "unique".to_string(),
                columns: vec!["no_default".into(), "int_default".into()],
                tpe: IndexType::Unique,
            }],
            primary_key: None,
            foreign_keys: vec![],
        }],
        enums: vec![],
        sequences: vec![],
    };
    let introspection_result =
        calculate_datamodel(&schema, &SqlFamily::Postgres, &Datamodel::new(), false).expect("calculate data model");

    assert_eq!(introspection_result.data_model, ref_data_model);
}

#[test]
fn primary_key_is_preserved_when_generating_data_model_from_a_schema() {
    let ref_data_model = Datamodel {
        models: vec![
            // Model with auto-incrementing primary key
            model(
                "Table1",
                vec![scalar("primary", FieldArity::Required, int_type(), autoincrement(), false, true)],
                vec![],
            ),
            // Model with non-auto-incrementing primary key
            model("Table2", vec![scalar("primary", FieldArity::Required, int_type(), None, false, true)], vec![]),
            // Model with primary key seeded by sequence
            model(
                "Table3",
                vec![scalar("primary", FieldArity::Required, int_type(), autoincrement(), false, true)],
                vec![],
            ),
        ],
        enums: vec![],
    };

    let schema = SqlSchema {
        tables: vec![
            Table {
                name: "Table1".to_string(),
                columns: vec![column("primary", "integer", ColumnTypeFamily::Int, PostgresType::Integer, true)],
                indices: vec![],
                primary_key: primary_key("primary", None),
                foreign_keys: vec![],
            },
            Table {
                name: "Table2".to_string(),
                columns: vec![column("primary", "integer", ColumnTypeFamily::Int, PostgresType::Integer, false)],
                indices: vec![],
                primary_key: primary_key("primary", None),
                foreign_keys: vec![],
            },
            Table {
                name: "Table3".to_string(),
                columns: vec![column("primary", "integer", ColumnTypeFamily::Int, PostgresType::Integer, true)],
                indices: vec![],
                primary_key: primary_key(
                    "primary",
                    Some(Sequence {
                        name: "sequence".to_string(),
                        initial_value: 1,
                        allocation_size: 1,
                    }),
                ),
                foreign_keys: vec![],
            },
        ],
        enums: vec![],
        sequences: vec![],
    };
    let introspection_result =
        calculate_datamodel(&schema, &SqlFamily::Postgres, &Datamodel::new(), false).expect("calculate data model");

    assert_eq!(introspection_result.data_model, ref_data_model);
}

#[test]
fn uniqueness_is_preserved_when_generating_data_model_from_a_schema() {
    let ref_data_model = Datamodel {
        models: vec![model(
            "Table1",
            vec![
                Field::ScalarField(ScalarField::new("non_unique", FieldArity::Optional, int_type())),
                scalar("unique", FieldArity::Required, int_type(), None, true, false),
            ],
            vec![],
        )],
        enums: vec![],
    };

    let schema = SqlSchema {
        tables: vec![Table {
            name: "Table1".to_string(),
            columns: vec![
                Column {
                    name: "non_unique".to_string(),
                    tpe: ColumnType::pure(ColumnTypeFamily::Int, ColumnArity::Nullable),
                    default: None,
                    auto_increment: false,
                },
                Column {
                    name: "unique".to_string(),
                    tpe: ColumnType::pure(ColumnTypeFamily::Int, ColumnArity::Required),
                    default: None,
                    auto_increment: false,
                },
            ],
            indices: vec![Index {
                name: "unique".to_string(),
                columns: vec!["unique".to_string()],
                tpe: IndexType::Unique,
            }],
            primary_key: None,
            foreign_keys: vec![],
        }],
        enums: vec![],
        sequences: vec![],
    };
    let introspection_result =
        calculate_datamodel(&schema, &SqlFamily::Postgres, &Datamodel::new(), false).expect("calculate data model");

    assert_eq!(introspection_result.data_model, ref_data_model);
}

#[test]
fn compound_foreign_keys_are_preserved_when_generating_data_model_from_a_schema() {
    let expected_data_model = Datamodel {
        models: vec![
            model(
                "City",
                vec![
                    scalar("id", FieldArity::Required, int_type(), autoincrement(), false, true),
                    Field::ScalarField(ScalarField::new("name", FieldArity::Required, string_type())),
                    Field::RelationField(RelationField::new(
                        "User",
                        FieldArity::List,
                        RelationInfo {
                            to: "User".to_string(),
                            fields: vec![],
                            to_fields: vec![],
                            name: "CityToUser".to_string(),
                            on_delete: OnDeleteStrategy::NoStrategy,
                        },
                    )),
                ],
                vec![],
            ),
            model(
                "User",
                vec![
                    scalar("id", FieldArity::Required, int_type(), autoincrement(), false, true),
                    Field::ScalarField(ScalarField {
                        name: "city_id".to_string(),
                        arity: FieldArity::Required,
                        field_type: int_type(),
                        database_name: Some("city-id".to_string()),
                        default_value: None,
                        is_unique: false,
                        is_id: false,
                        documentation: None,
                        is_generated: false,
                        is_updated_at: false,
                        is_commented_out: false,
                    }),
                    Field::ScalarField(ScalarField {
                        name: "city_name".to_string(),
                        field_type: string_type(),
                        arity: FieldArity::Required,
                        database_name: Some("city-name".to_string()),
                        default_value: None,
                        is_unique: false,
                        is_id: false,
                        documentation: None,
                        is_generated: false,
                        is_updated_at: false,
                        is_commented_out: false,
                    }),
                    Field::RelationField(RelationField::new(
                        "City",
                        FieldArity::Required,
                        RelationInfo {
                            name: "CityToUser".to_string(),
                            to: "City".to_string(),
                            fields: vec!["city_id".to_string(), "city_name".to_string()],
                            to_fields: vec!["id".to_string(), "name".to_string()],
                            on_delete: OnDeleteStrategy::NoStrategy,
                        },
                    )),
                ],
                vec![],
            ),
        ],
        enums: vec![],
    };

    let schema = SqlSchema {
        tables: vec![
            Table {
                name: "City".to_string(),
                columns: vec![
                    column("id", "integer", ColumnTypeFamily::Int, PostgresType::Integer, true),
                    column("name", "text", ColumnTypeFamily::String, PostgresType::Text, false),
                ],
                indices: vec![],
                primary_key: primary_key("id", None),
                foreign_keys: vec![],
            },
            Table {
                name: "User".to_string(),
                columns: vec![
                    column("id", "integer", ColumnTypeFamily::Int, PostgresType::Integer, true),
                    column("city-id", "integer", ColumnTypeFamily::Int, PostgresType::Integer, false),
                    column("city-name", "text", ColumnTypeFamily::String, PostgresType::Text, false),
                ],
                indices: vec![],
                primary_key: primary_key("id", None),
                foreign_keys: vec![ForeignKey {
                    constraint_name: None,
                    columns: vec!["city-id".to_string(), "city-name".to_string()],
                    referenced_table: "City".to_string(),
                    on_delete_action: ForeignKeyAction::NoAction,
                    on_update_action: ForeignKeyAction::NoAction,
                    referenced_columns: vec!["id".to_string(), "name".to_string()],
                }],
            },
        ],
        enums: vec![],
        sequences: vec![],
    };
    let introspection_result =
        calculate_datamodel(&schema, &SqlFamily::Postgres, &Datamodel::new(), false).expect("calculate data model");

    assert_eq!(introspection_result.data_model, expected_data_model);
}

#[test]
fn multi_field_uniques_are_preserved_when_generating_data_model_from_a_schema() {
    let ref_data_model = Datamodel {
        models: vec![model(
            "User",
            vec![
                scalar("id", FieldArity::Required, int_type(), autoincrement(), false, true),
                Field::ScalarField(ScalarField::new("name", FieldArity::Required, string_type())),
                Field::ScalarField(ScalarField::new("lastname", FieldArity::Required, string_type())),
            ],
            vec![IndexDefinition {
                name: Some("name_last_name_unique".to_string()),
                fields: vec!["name".to_string(), "lastname".to_string()],
                tpe: DmlIndexType::Unique,
            }],
        )],
        enums: vec![],
    };

    let schema = SqlSchema {
        tables: vec![Table {
            name: "User".to_string(),
            columns: vec![
                column("id", "integer", ColumnTypeFamily::Int, PostgresType::Integer, true),
                column("name", "text", ColumnTypeFamily::String, PostgresType::Text, false),
                column("lastname", "text", ColumnTypeFamily::String, PostgresType::Text, false),
            ],
            indices: vec![Index {
                name: "name_last_name_unique".to_string(),
                columns: vec!["name".to_string(), "lastname".to_string()],
                tpe: IndexType::Unique,
            }],
            primary_key: primary_key("id", None),
            foreign_keys: vec![],
        }],
        enums: vec![],
        sequences: vec![],
    };
    let introspection_result =
        calculate_datamodel(&schema, &SqlFamily::Postgres, &Datamodel::new(), false).expect("calculate data model");

    assert_eq!(introspection_result.data_model, ref_data_model);
}

#[test]
fn foreign_keys_are_preserved_when_generating_data_model_from_a_schema() {
    let ref_data_model = Datamodel {
        models: vec![
            model(
                "City",
                vec![
                    scalar("id", FieldArity::Required, int_type(), autoincrement(), false, true),
                    Field::ScalarField(ScalarField::new("name", FieldArity::Required, string_type())),
                    Field::RelationField(RelationField::new(
                        "User",
                        FieldArity::List,
                        RelationInfo {
                            to: "User".to_string(),
                            fields: vec![],
                            to_fields: vec![],
                            name: "CityToUser".to_string(),
                            on_delete: OnDeleteStrategy::NoStrategy,
                        },
                    )),
                ],
                vec![],
            ),
            model(
                "User",
                vec![
                    scalar("id", FieldArity::Required, int_type(), autoincrement(), false, true),
                    Field::ScalarField(ScalarField::new("city_id", FieldArity::Required, int_type())),
                    Field::RelationField(RelationField::new(
                        "City",
                        FieldArity::Required,
                        RelationInfo {
                            name: "CityToUser".to_string(),
                            to: "City".to_string(),
                            fields: vec!["city_id".to_string()],
                            to_fields: vec!["id".to_string()],
                            on_delete: OnDeleteStrategy::NoStrategy,
                        },
                    )),
                ],
                vec![],
            ),
        ],
        enums: vec![],
    };

    let schema = SqlSchema {
        tables: vec![
            Table {
                name: "City".to_string(),
                columns: vec![
                    column("id", "integer", ColumnTypeFamily::Int, PostgresType::Integer, true),
                    column("name", "text", ColumnTypeFamily::String, PostgresType::Text, false),
                ],
                indices: vec![],
                primary_key: primary_key("id", None),
                foreign_keys: vec![],
            },
            Table {
                name: "User".to_string(),
                columns: vec![
                    column("id", "integer", ColumnTypeFamily::Int, PostgresType::Integer, true),
                    column("city_id", "integer", ColumnTypeFamily::Int, PostgresType::Integer, false),
                ],
                indices: vec![],
                primary_key: primary_key("id", None),
                foreign_keys: vec![ForeignKey {
                    constraint_name: None,
                    columns: vec!["city_id".to_string()],
                    referenced_table: "City".to_string(),
                    on_delete_action: ForeignKeyAction::NoAction,
                    on_update_action: ForeignKeyAction::NoAction,
                    referenced_columns: vec!["id".to_string()],
                }],
            },
        ],
        enums: vec![],
        sequences: vec![],
    };
    let introspection_result =
        calculate_datamodel(&schema, &SqlFamily::Postgres, &Datamodel::new(), false).expect("calculate data model");

    assert_eq!(introspection_result.data_model, ref_data_model);
}

#[test]
fn enums_are_preserved_when_generating_data_model_from_a_schema() {
    let ref_data_model = Datamodel {
        models: vec![],
        enums: vec![DmlEnum {
            name: "Enum".to_string(),
            database_name: None,
            documentation: None,
            commented_out: false,
            values: vec![
                EnumValue {
                    name: "a".to_string(),
                    documentation: None,
                    database_name: None,
                    commented_out: false,
                },
                EnumValue {
                    name: "b".to_string(),
                    documentation: None,
                    database_name: None,
                    commented_out: false,
                },
            ],
        }],
    };

    let enum_values = vec!["a".to_string(), "b".to_string()];
    let schema = SqlSchema {
        tables: vec![],
        enums: vec![Enum {
            name: "Enum".to_string(),
            values: enum_values,
        }],
        sequences: vec![],
    };
    let introspection_result =
        calculate_datamodel(&schema, &SqlFamily::Postgres, &Datamodel::new(), false).expect("calculate data model");

    assert_eq!(introspection_result.data_model, ref_data_model);
}
