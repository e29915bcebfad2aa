use schema_engine::dml::{Datamodel, Field};
use schema_engine::introspection::sanitize::sanitize_datamodel_names;
use schema_engine::introspection::{calculate_datamodel, SqlFamily, Version};
use schema_engine::sql_schema::{
    Column, ColumnArity, ColumnType, ColumnTypeFamily, ForeignKey, ForeignKeyAction, Index,
    IndexType, PrimaryKey, SqlSchema, Table,
};

fn col(name: &str, family: ColumnTypeFamily, arity: ColumnArity, auto_increment: bool) -> Column {
    Column {
        name: name.to_string(),
        tpe: ColumnType {
            data_type: "integer".to_string(),
            full_data_type: "integer".to_string(),
            character_maximum_length: None,
            family,
            arity,
            native_type: None,
        },
        default: None,
        auto_increment,
    }
}

fn keyed_on(columns: &[&str]) -> Option<PrimaryKey> {
    Some(PrimaryKey {
        columns: columns.iter().map(|c| c.to_string()).collect(),
        sequence: None,
        constraint_name: None,
    })
}

fn city_and_user() -> SqlSchema {
    SqlSchema {
        tables: vec![
            Table {
                name: "City".to_string(),
                columns: vec![
                    col("id", ColumnTypeFamily::Int, ColumnArity::Required, true),
                    col("name", ColumnTypeFamily::String, ColumnArity::Required, false),
                ],
                indices: vec![],
                primary_key: keyed_on(&["id"]),
                foreign_keys: vec![],
            },
            Table {
                name: "User".to_string(),
                columns: vec![
                    col("id", ColumnTypeFamily::Int, ColumnArity::Required, true),
                    col("city_id", ColumnTypeFamily::Int, ColumnArity::Required, false),
                ],
                indices: vec![],
                primary_key: keyed_on(&["id"]),
                foreign_keys: vec![ForeignKey {
                    constraint_name: None,
                    columns: vec!["city_id".to_string()],
                    referenced_table: "City".to_string(),
                    referenced_columns: vec!["id".to_string()],
                    on_delete_action: ForeignKeyAction::NoAction,
                    on_update_action: ForeignKeyAction::NoAction,
                }],
            },
        ],
        enums: vec![],
        sequences: vec![],
    }
}

fn awkward() -> SqlSchema {
    SqlSchema {
        tables: vec![
            Table {
                name: "my-table".to_string(),
                columns: vec![
                    col("id", ColumnTypeFamily::Int, ColumnArity::Required, true),
                    col("first-name", ColumnTypeFamily::String, ColumnArity::Nullable, false),
                ],
                indices: vec![Index {
                    name: "names".to_string(),
                    columns: vec!["first-name".to_string()],
                    tpe: IndexType::Unique,
                }],
                primary_key: keyed_on(&["id"]),
                foreign_keys: vec![],
            },
            Table {
                name: "log".to_string(),
                columns: vec![col("line", ColumnTypeFamily::String, ColumnArity::Nullable, false)],
                indices: vec![],
                primary_key: None,
                foreign_keys: vec![],
            },
        ],
        enums: vec![],
        sequences: vec![],
    }
}

#[test]
fn calculating_again_with_the_result_changes_nothing() {
    for schema in [city_and_user(), awkward()].iter() {
        let first = calculate_datamodel(schema, &SqlFamily::Postgres, &Datamodel::new(), false).unwrap();
        let second =
            calculate_datamodel(schema, &SqlFamily::Postgres, &first.data_model, false).unwrap();
        assert_eq!(second, first);
        let third =
            calculate_datamodel(schema, &SqlFamily::Postgres, &second.data_model, false).unwrap();
        assert_eq!(third, first);
    }
}

#[test]
fn city_and_user_are_related_both_ways() {
    let result =
        calculate_datamodel(&city_and_user(), &SqlFamily::Postgres, &Datamodel::new(), false).unwrap();
    assert!(result.warnings.is_empty());
    let dm = &result.data_model;
    assert_eq!(dm.models.len(), 2);
    let city = dm.find_model("City").unwrap();
    let user = dm.find_model("User").unwrap();
    let forward = match user.find_field("City").unwrap() {
        Field::RelationField(rf) => rf,
        Field::ScalarField(_) => panic!("the field is a relation field"),
    };
    assert!(forward.is_required());
    assert_eq!(forward.relation_info.to, "City");
    assert_eq!(forward.relation_info.fields, vec!["city_id".to_string()]);
    assert_eq!(forward.relation_info.to_fields, vec!["id".to_string()]);
    assert_eq!(forward.relation_info.name, "CityToUser");
    let back = match city.find_field("User").unwrap() {
        Field::RelationField(rf) => rf,
        Field::ScalarField(_) => panic!("the field is a relation field"),
    };
    assert!(back.is_list());
    assert_eq!(back.relation_info.to, "User");
    assert!(back.relation_info.fields.is_empty());
    assert!(back.relation_info.to_fields.is_empty());
    assert_eq!(back.relation_info.name, "CityToUser");
}

#[test]
fn names_that_are_not_valid_are_replaced_and_kept_as_database_names() {
    let result = calculate_datamodel(&awkward(), &SqlFamily::Postgres, &Datamodel::new(), false).unwrap();
    let dm = &result.data_model;
    let model = dm.find_model("my_table").unwrap();
    assert_eq!(model.database_name, Some("my-table".to_string()));
    match model.find_field("first_name").unwrap() {
        Field::ScalarField(sf) => {
            assert_eq!(sf.database_name, Some("first-name".to_string()));
            assert!(sf.is_unique);
        }
        Field::RelationField(_) => panic!("the field is a scalar field"),
    }
}

#[test]
fn a_table_without_an_identifier_is_commented_out_with_a_warning() {
    let result = calculate_datamodel(&awkward(), &SqlFamily::Postgres, &Datamodel::new(), false).unwrap();
    let log = result.data_model.find_model("log").unwrap();
    assert!(log.is_commented_out);
    assert!(log.documentation.is_some());
    assert_eq!(result.warnings.len(), 1);
    assert_eq!(result.warnings[0].code, 1);
    assert_eq!(result.warnings[0].affected.len(), 1);
    assert_eq!(result.warnings[0].affected[0].model, Some("log".to_string()));
    assert_eq!(result.version, Version::NonPrisma);
}

#[test]
fn names_chosen_earlier_are_kept_with_a_warning() {
    let schema = city_and_user();
    let first = calculate_datamodel(&schema, &SqlFamily::Postgres, &Datamodel::new(), false).unwrap();
    let mut edited = first.data_model;
    for model in edited.models.iter_mut() {
        if model.name == "User" {
            model.name = "Person".to_string();
            model.database_name = Some("User".to_string());
            model.documentation = Some("People who live in cities".to_string());
        } else {
            for field in model.fields.iter_mut() {
                if let Field::RelationField(rf) = field {
                    rf.relation_info.to = "Person".to_string();
                }
            }
        }
    }
    let second = calculate_datamodel(&schema, &SqlFamily::Postgres, &edited, false).unwrap();
    let person = second.data_model.find_model("Person").unwrap();
    assert_eq!(person.database_name, Some("User".to_string()));
    assert_eq!(person.documentation, Some("People who live in cities".to_string()));
    assert!(second.data_model.find_model("User").is_none());
    let city = second.data_model.find_model("City").unwrap();
    let points_to_person = city.fields.iter().any(|f| match f {
        Field::RelationField(rf) => rf.relation_info.to == "Person",
        Field::ScalarField(_) => false,
    });
    assert!(points_to_person);
    assert_eq!(second.warnings.len(), 1);
    assert_eq!(second.warnings[0].code, 7);
    assert_eq!(second.warnings[0].affected[0].model, Some("Person".to_string()));
}

#[test]
fn sanitizing_twice_changes_nothing_more() {
    let mut dm = calculate_datamodel(&awkward(), &SqlFamily::Postgres, &Datamodel::new(), false)
        .unwrap()
        .data_model;
    let before = calculate_datamodel(&awkward(), &SqlFamily::Postgres, &Datamodel::new(), false)
        .unwrap()
        .data_model;
    sanitize_datamodel_names(&mut dm);
    assert_eq!(dm, before);
}
