use schema_engine::dml::{
    Datamodel, DefaultValue, Enum, EnumValue, Field, FieldArity, FieldType, IndexDefinition,
    IndexType, Model, OnDeleteStrategy, RelationField, RelationInfo, ScalarField, ScalarType,
    ValueGenerator,
};
use schema_engine::relations::converter::DatamodelConverter;
use schema_engine::relations::sql_values::{convert_lossy, SqlValue};
use schema_engine::values::{Decimal, PrismaValue};
use schema_engine::relations::templates::{
    ConvertError, FieldBehaviour, FieldTemplate, IndexTemplate, InternalEnum, InternalEnumValue,
    OnDelete, RelationTemplate, TypeIdentifier,
};
use schema_engine::relations::{RelationError, RelationLinkManifestation, RelationSide};

fn plain(name: &str, tpe: FieldType) -> ScalarField {
    ScalarField::new(name, FieldArity::Required, tpe)
}

fn base(t: ScalarType) -> FieldType {
    FieldType::Base(t, None)
}

fn pointing(name: &str, arity: FieldArity, to: &str, relation: &str, fields: &[&str]) -> Field {
    Field::RelationField(RelationField::new(
        name,
        arity,
        RelationInfo {
            to: to.to_string(),
            fields: fields.iter().map(|f| f.to_string()).collect(),
            to_fields: if fields.is_empty() { vec![] } else { vec!["id".to_string()] },
            name: relation.to_string(),
            on_delete: OnDeleteStrategy::NoStrategy,
        },
    ))
}

fn library() -> Datamodel {
    let mut id = plain("id", base(ScalarType::Int));
    id.is_id = true;
    id.default_value = Some(DefaultValue::Expression(ValueGenerator::new_autoincrement()));
    let mut changed = plain("changed", base(ScalarType::DateTime));
    changed.is_updated_at = true;
    let mut genre = plain("genre", FieldType::Enum("Genre".to_string()));
    genre.database_name = Some("kind".to_string());
    let isbn = plain("isbn", base(ScalarType::String));

    let mut book = Model::new("Book".to_string(), Some("books".to_string()));
    book.add_field(Field::ScalarField(id));
    book.add_field(Field::ScalarField(changed));
    book.add_field(Field::ScalarField(genre));
    book.add_field(Field::ScalarField(isbn));
    book.add_field(pointing("author", FieldArity::Required, "Writer", "BookToWriter", &["author_id"]));
    book.add_index(IndexDefinition {
        name: None,
        fields: vec!["isbn".to_string()],
        tpe: IndexType::Unique,
    });
    book.add_index(IndexDefinition {
        name: Some("both".to_string()),
        fields: vec!["isbn".to_string(), "genre".to_string()],
        tpe: IndexType::Normal,
    });

    let mut writer = Model::new("Writer".to_string(), None);
    writer.id_fields = vec!["name".to_string()];
    writer.add_field(Field::ScalarField(plain("name", base(ScalarType::String))));
    writer.add_field(pointing("books", FieldArity::List, "Book", "BookToWriter", &[]));

    let mut dm = Datamodel::new();
    dm.add_model(book);
    dm.add_model(writer);
    let mut poem = EnumValue::new("POEM");
    poem.database_name = Some("poem".to_string());
    dm.add_enum(Enum::new("Genre", vec![EnumValue::new("NOVEL"), poem]));
    dm
}

fn genre() -> InternalEnum {
    InternalEnum {
        name: "Genre".to_string(),
        values: vec![
            InternalEnumValue { name: "NOVEL".to_string(), database_name: None },
            InternalEnumValue { name: "POEM".to_string(), database_name: Some("poem".to_string()) },
        ],
    }
}

#[test]
fn a_data_model_is_converted_with_its_relations_and_enums() {
    let converted = DatamodelConverter::convert(&library()).unwrap();
    assert_eq!(converted.version, Some("v2".to_string()));
    assert_eq!(converted.enums, vec![genre()]);
    assert_eq!(
        converted.relations,
        vec![RelationTemplate {
            name: "BookToWriter".to_string(),
            model_a_on_delete: OnDelete::SetNull,
            model_b_on_delete: OnDelete::SetNull,
            manifestation: RelationLinkManifestation::Inline {
                in_table_of_model_name: "Book".to_string()
            },
            model_a_name: "Book".to_string(),
            model_b_name: "Writer".to_string(),
        }]
    );
    assert_eq!(converted.models.len(), 2);
    let book = &converted.models[0];
    assert_eq!(book.name, "Book");
    assert_eq!(book.manifestation, Some("books".to_string()));
    assert!(!book.is_embedded);
    assert!(book.id_field_names.is_empty());
    assert_eq!(
        book.indexes,
        vec![IndexTemplate {
            name: Some("both".to_string()),
            fields: vec!["isbn".to_string(), "genre".to_string()],
            typ: schema_engine::relations::templates::IndexType::Normal,
        }]
    );
    assert_eq!(book.dml_model, library().models.remove(0));
    assert_eq!(book.fields.len(), 5);
    match &book.fields[0] {
        FieldTemplate::Scalar(id) => {
            assert_eq!(id.name, "id");
            assert_eq!(id.type_identifier, TypeIdentifier::Int);
            assert!(id.is_required);
            assert!(!id.is_list);
            assert!(id.is_id);
            assert!(!id.is_unique);
            assert!(id.is_auto_generated_int_id);
            assert!(id.is_autoincrement);
            assert_eq!(id.behaviour, None);
            assert_eq!(id.internal_enum, None);
        }
        FieldTemplate::Relation(_) => panic!("the first field is a scalar field"),
    }
    match &book.fields[1] {
        FieldTemplate::Scalar(changed) => {
            assert_eq!(changed.type_identifier, TypeIdentifier::DateTime);
            assert_eq!(changed.behaviour, Some(FieldBehaviour::UpdatedAt));
            assert!(!changed.is_auto_generated_int_id);
        }
        FieldTemplate::Relation(_) => panic!("the second field is a scalar field"),
    }
    match &book.fields[2] {
        FieldTemplate::Scalar(g) => {
            assert_eq!(g.type_identifier, TypeIdentifier::Enum("Genre".to_string()));
            assert_eq!(g.internal_enum, Some(genre()));
            assert_eq!(g.db_name, Some("kind".to_string()));
        }
        FieldTemplate::Relation(_) => panic!("the third field is a scalar field"),
    }
    match &book.fields[3] {
        FieldTemplate::Scalar(isbn) => assert!(isbn.is_unique),
        FieldTemplate::Relation(_) => panic!("the fourth field is a scalar field"),
    }
    match &book.fields[4] {
        FieldTemplate::Relation(author) => {
            assert_eq!(author.name, "author");
            assert!(author.is_required);
            assert!(!author.is_list);
            assert_eq!(author.relation_name, "BookToWriter");
            assert_eq!(author.relation_side, RelationSide::A);
            assert_eq!(author.relation_info.to, "Writer");
        }
        FieldTemplate::Scalar(_) => panic!("the fifth field is a relation field"),
    }
    let writer = &converted.models[1];
    assert_eq!(writer.manifestation, None);
    assert_eq!(writer.id_field_names, vec!["name".to_string()]);
    match &writer.fields[0] {
        FieldTemplate::Scalar(name) => assert!(name.is_id),
        FieldTemplate::Relation(_) => panic!("the first field is a scalar field"),
    }
    match &writer.fields[1] {
        FieldTemplate::Relation(books) => {
            assert!(books.is_list);
            assert_eq!(books.relation_side, RelationSide::B);
        }
        FieldTemplate::Scalar(_) => panic!("the second field is a relation field"),
    }
}

#[test]
fn a_field_of_a_type_without_identifier_is_refused() {
    let mut dm = Datamodel::new();
    let mut m = Model::new("Shape".to_string(), None);
    m.add_field(Field::ScalarField(plain("id", base(ScalarType::Int))));
    m.add_field(Field::ScalarField(plain("outline", FieldType::Unsupported("polygon".to_string()))));
    dm.add_model(m);
    assert_eq!(
        DatamodelConverter::convert(&dm).err(),
        Some(ConvertError::TypeNotSupported {
            model: "Shape".to_string(),
            field: "outline".to_string()
        })
    );
}

#[test]
fn relation_fields_that_cannot_be_paired_are_refused() {
    let mut dm = Datamodel::new();
    let mut m = Model::new("Book".to_string(), None);
    m.add_field(pointing("author", FieldArity::Required, "Writer", "BookToWriter", &["author_id"]));
    dm.add_model(m);
    assert_eq!(
        DatamodelConverter::convert(&dm).err(),
        Some(ConvertError::Relations(RelationError::RelatedModelNotFound {
            model: "Writer".to_string()
        }))
    );
}

#[test]
fn values_are_handed_to_the_database_by_their_kind() {
    let converted = DatamodelConverter::convert(&library()).unwrap();
    let field = |i: usize| match &converted.models[0].fields[i] {
        FieldTemplate::Scalar(sf) => sf,
        FieldTemplate::Relation(_) => panic!("the field is a scalar field"),
    };
    let id = field(0);
    assert_eq!(id.value(PrismaValue::Int(7)), SqlValue::Integer(Some(7)));
    assert_eq!(id.value(PrismaValue::Null), SqlValue::Integer(None));
    assert_eq!(id.value(PrismaValue::String("x".to_string())), SqlValue::Text(Some("x".to_string())));
    assert_eq!(field(1).value(PrismaValue::Null), SqlValue::DateTime(None));
    assert_eq!(field(1).value(PrismaValue::DateTime(1000)), SqlValue::DateTime(Some(1000)));
    assert_eq!(field(2).value(PrismaValue::Null), SqlValue::Enum(None));
    assert_eq!(
        field(2).value(PrismaValue::Enum("POEM".to_string())),
        SqlValue::Text(Some("POEM".to_string()))
    );
    assert_eq!(field(3).value(PrismaValue::Null), SqlValue::Text(None));
    assert_eq!(convert_lossy(PrismaValue::Null), SqlValue::Integer(None));
    assert_eq!(convert_lossy(PrismaValue::Boolean(true)), SqlValue::Boolean(Some(true)));
    assert_eq!(
        convert_lossy(PrismaValue::Float(Decimal { mantissa: 15, scale: 1 })),
        SqlValue::Real(Some(Decimal { mantissa: 15, scale: 1 }))
    );
    assert_eq!(
        convert_lossy(PrismaValue::Uuid("a-b".to_string())),
        SqlValue::Text(Some("a-b".to_string()))
    );
    assert_eq!(
        convert_lossy(PrismaValue::Json("{}".to_string())),
        SqlValue::Json(Some("{}".to_string()))
    );
}
