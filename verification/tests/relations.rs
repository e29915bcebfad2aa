use schema_engine::dml::{
    Datamodel, Field, FieldArity, FieldType, Model, OnDeleteStrategy, RelationField, RelationInfo,
    ScalarField, ScalarType,
};
use schema_engine::relations::pairing::calculate_relations;
use schema_engine::relations::{
    RelationError, RelationLinkManifestation, RelationSide, TempManifestationHolder,
};

fn id_field() -> Field {
    Field::ScalarField(ScalarField::new(
        "id",
        FieldArity::Required,
        FieldType::Base(ScalarType::Int, None),
    ))
}

fn link(name: &str, arity: FieldArity, to: &str, relation: &str, fields: &[&str], to_fields: &[&str]) -> Field {
    Field::RelationField(RelationField::new(
        name,
        arity,
        RelationInfo {
            to: to.to_string(),
            fields: fields.iter().map(|f| f.to_string()).collect(),
            to_fields: to_fields.iter().map(|f| f.to_string()).collect(),
            name: relation.to_string(),
            on_delete: OnDeleteStrategy::NoStrategy,
        },
    ))
}

fn with_fields(name: &str, fields: Vec<Field>) -> Model {
    let mut m = Model::new(name.to_string(), None);
    for f in fields {
        m.add_field(f);
    }
    m
}

fn of_models(models: Vec<Model>) -> Datamodel {
    let mut dm = Datamodel::new();
    for m in models {
        dm.add_model(m);
    }
    dm
}

fn user(fields: Vec<Field>) -> Model {
    let mut all = vec![id_field()];
    all.extend(fields);
    with_fields("User", all)
}

fn post(fields: Vec<Field>) -> Model {
    let mut all = vec![id_field()];
    all.extend(fields);
    with_fields("Post", all)
}

#[test]
fn one_to_many_lives_in_the_table_of_the_many_side() {
    let dm = of_models(vec![
        user(vec![link("posts", FieldArity::List, "Post", "PostToUser", &[], &[])]),
        post(vec![link("author", FieldArity::Required, "User", "PostToUser", &["author_id"], &["id"])]),
    ]);
    let relations = calculate_relations(&dm).unwrap();
    assert_eq!(relations.len(), 1);
    let r = &relations[0];
    assert_eq!(r.name, "PostToUser");
    assert_eq!(r.model_a.name, "Post");
    assert_eq!(r.model_b.name, "User");
    assert_eq!(r.field_a.name, "author");
    assert_eq!(r.field_b.name, "posts");
    match &r.manifestation {
        TempManifestationHolder::Inline { in_table_of_model, field, referenced_fields } => {
            assert_eq!(in_table_of_model, "Post");
            assert_eq!(field.name, "author");
            assert_eq!(referenced_fields, &vec!["id".to_string()]);
        }
        TempManifestationHolder::Table => panic!("a one-to-many relation has no table of its own"),
    }
    assert!(!r.is_one_to_one());
    assert!(!r.is_many_to_many());
    assert_eq!(
        r.manifestation(),
        RelationLinkManifestation::Inline { in_table_of_model_name: "Post".to_string() }
    );
}

#[test]
fn the_order_of_the_models_does_not_change_the_relation() {
    let forward = of_models(vec![
        user(vec![link("posts", FieldArity::List, "Post", "PostToUser", &[], &[])]),
        post(vec![link("author", FieldArity::Required, "User", "PostToUser", &["author_id"], &["id"])]),
    ]);
    let backward = of_models(vec![
        post(vec![link("author", FieldArity::Required, "User", "PostToUser", &["author_id"], &["id"])]),
        user(vec![link("posts", FieldArity::List, "Post", "PostToUser", &[], &[])]),
    ]);
    let a = calculate_relations(&forward).unwrap();
    let b = calculate_relations(&backward).unwrap();
    assert_eq!(a.len(), 1);
    assert_eq!(b.len(), 1);
    assert_eq!(a[0].name, b[0].name);
    assert_eq!(a[0].model_a, b[0].model_a);
    assert_eq!(a[0].model_b, b[0].model_b);
    assert_eq!(a[0].field_a, b[0].field_a);
    assert_eq!(a[0].field_b, b[0].field_b);
    assert_eq!(a[0].manifestation, b[0].manifestation);
}

#[test]
fn many_to_many_lives_in_a_table_of_its_own() {
    let dm = of_models(vec![
        user(vec![link("posts", FieldArity::List, "Post", "PostToUser", &[], &[])]),
        post(vec![link("authors", FieldArity::List, "User", "PostToUser", &[], &[])]),
    ]);
    let relations = calculate_relations(&dm).unwrap();
    assert_eq!(relations.len(), 1);
    let r = &relations[0];
    assert_eq!(r.manifestation, TempManifestationHolder::Table);
    assert!(r.is_many_to_many());
    assert_eq!(r.table_name(), "_PostToUser");
    assert_eq!(r.model_a_column(), "A");
    assert_eq!(r.model_b_column(), "B");
    assert_eq!(
        r.manifestation(),
        RelationLinkManifestation::RelationTable {
            table: "_PostToUser".to_string(),
            model_a_column: "A".to_string(),
            model_b_column: "B".to_string(),
        }
    );
}

#[test]
fn one_to_one_lives_where_the_fields_are_declared() {
    let dm = of_models(vec![
        user(vec![link("profile", FieldArity::Optional, "Post", "PostToUser", &[], &[])]),
        post(vec![link("owner", FieldArity::Required, "User", "PostToUser", &["owner_id"], &["id"])]),
    ]);
    let relations = calculate_relations(&dm).unwrap();
    assert_eq!(relations.len(), 1);
    assert!(relations[0].is_one_to_one());
    match &relations[0].manifestation {
        TempManifestationHolder::Inline { in_table_of_model, field, .. } => {
            assert_eq!(in_table_of_model, "Post");
            assert_eq!(field.name, "owner");
        }
        TempManifestationHolder::Table => panic!("a one-to-one relation has no table of its own"),
    }
    let declared_on_user = of_models(vec![
        user(vec![link("profile", FieldArity::Optional, "Post", "PostToUser", &["profile_id"], &["id"])]),
        post(vec![link("owner", FieldArity::Optional, "User", "PostToUser", &[], &[])]),
    ]);
    let relations = calculate_relations(&declared_on_user).unwrap();
    match &relations[0].manifestation {
        TempManifestationHolder::Inline { in_table_of_model, field, .. } => {
            assert_eq!(in_table_of_model, "User");
            assert_eq!(field.name, "profile");
        }
        TempManifestationHolder::Table => panic!("a one-to-one relation has no table of its own"),
    }
}

#[test]
fn one_to_one_declared_on_both_sides_is_refused() {
    let dm = of_models(vec![
        user(vec![link("profile", FieldArity::Optional, "Post", "PostToUser", &["profile_id"], &["id"])]),
        post(vec![link("owner", FieldArity::Optional, "User", "PostToUser", &["owner_id"], &["id"])]),
    ]);
    match calculate_relations(&dm) {
        Err(RelationError::BothSidesInline { .. }) => {}
        other => panic!("expected a refusal, got {:?}", other),
    }
}

#[test]
fn a_relation_to_a_missing_model_is_refused() {
    let dm = of_models(vec![user(vec![link(
        "posts",
        FieldArity::List,
        "Post",
        "PostToUser",
        &[],
        &[],
    )])]);
    assert_eq!(
        calculate_relations(&dm).err(),
        Some(RelationError::RelatedModelNotFound { model: "Post".to_string() })
    );
}

#[test]
fn a_relation_without_an_opposite_field_is_refused() {
    let dm = of_models(vec![
        user(vec![link("posts", FieldArity::List, "Post", "PostToUser", &[], &[])]),
        post(vec![]),
    ]);
    match calculate_relations(&dm) {
        Err(RelationError::RelatedFieldNotFound { .. }) => {}
        other => panic!("expected a refusal, got {:?}", other),
    }
}

#[test]
fn a_self_relation_is_ordered_by_field_name() {
    let dm = of_models(vec![user(vec![
        link("manager", FieldArity::Optional, "User", "Management", &["manager_id"], &["id"]),
        link("reports", FieldArity::List, "User", "Management", &[], &[]),
    ])]);
    let relations = calculate_relations(&dm).unwrap();
    assert_eq!(relations.len(), 1);
    let r = &relations[0];
    assert_eq!(r.field_a.name, "manager");
    assert_eq!(r.field_b.name, "reports");
    assert_eq!(r.relation_side(&r.field_a), Some(RelationSide::A));
    assert_eq!(r.relation_side(&r.field_b), Some(RelationSide::B));
}

#[test]
fn two_relations_between_the_same_models_are_both_found() {
    let dm = of_models(vec![
        user(vec![
            link("written", FieldArity::List, "Post", "Author", &[], &[]),
            link("edited", FieldArity::List, "Post", "Editor", &[], &[]),
        ]),
        post(vec![
            link("author", FieldArity::Required, "User", "Author", &["author_id"], &["id"]),
            link("editor", FieldArity::Optional, "User", "Editor", &["editor_id"], &["id"]),
        ]),
    ]);
    let relations = calculate_relations(&dm).unwrap();
    let mut names: Vec<String> = relations.iter().map(|r| r.name.clone()).collect();
    names.sort();
    assert_eq!(names, vec!["Author".to_string(), "Editor".to_string()]);
}
