use schema_engine::ast::{
    Argument, Attribute, Enum, EnumValue, Expression, Field, FieldArity, Identifier, Model,
    SchemaAst, SourceConfig, Span, Top,
};
use schema_engine::differ::diff;
use schema_engine::differ::replaying::{replay, standing_at, Place, Standing};
use schema_engine::steps::{
    ArgumentLocation, CreateArgument, CreateDirective, CreateEnum, CreateField, CreateModel,
    CreateSource, CreateTypeAlias, DeleteArgument, DeleteDirective, DeleteEnum, DeleteField,
    DeleteModel, DeleteSource, DeleteTypeAlias, DirectiveLocation, DirectivePath,
    MigrationExpression, MigrationStep, SourceLocation, UpdateArgument, UpdateEnum, UpdateField,
    UpdateTypeAlias,
};

fn at() -> Span {
    Span { start: 0, end: 0 }
}

fn ident(name: &str) -> Identifier {
    Identifier { name: name.to_string(), span: at() }
}

fn text(value: &str) -> Expression {
    Expression::StringValue(value.to_string(), at())
}

fn number(value: &str) -> Expression {
    Expression::NumericValue(value.to_string(), at())
}

fn arg(name: &str, value: Expression) -> Argument {
    Argument { name: ident(name), value, span: at() }
}

fn attr(name: &str, arguments: Vec<Argument>) -> Attribute {
    Attribute { name: ident(name), arguments, span: at() }
}

fn fld(name: &str, tpe: &str, arity: FieldArity, attributes: Vec<Attribute>) -> Field {
    Field {
        field_type: ident(tpe),
        name: ident(name),
        arity,
        attributes,
        documentation: None,
        span: at(),
        is_commented_out: false,
    }
}

fn mdl(name: &str, fields: Vec<Field>, attributes: Vec<Attribute>) -> Top {
    Top::Model(Model {
        name: ident(name),
        fields,
        attributes,
        documentation: None,
        span: at(),
        commented_out: false,
    })
}

fn enm(name: &str, values: &[&str]) -> Top {
    Top::Enum(Enum {
        name: ident(name),
        values: values
            .iter()
            .map(|v| EnumValue {
                name: ident(v),
                attributes: vec![],
                documentation: None,
                span: at(),
                commented_out: false,
            })
            .collect(),
        attributes: vec![],
        documentation: None,
        span: at(),
    })
}

fn source(name: &str, properties: Vec<Argument>) -> Top {
    Top::Source(SourceConfig { name: ident(name), properties, documentation: None, span: at() })
}

fn schema(tops: Vec<Top>) -> SchemaAst {
    SchemaAst { tops }
}

fn on_field(model: &str, field: &str, directive: &str) -> DirectiveLocation {
    DirectiveLocation {
        path: DirectivePath::Field { model: model.to_string(), field: field.to_string() },
        directive: directive.to_string(),
    }
}

fn blog() -> SchemaAst {
    schema(vec![
        source("db", vec![arg("provider", text("postgres")), arg("url", text("postgres://u:p@h/db"))]),
        enm("Role", &["USER", "ADMIN"]),
        Top::Type(fld("Email", "String", FieldArity::Required, vec![])),
        mdl(
            "User",
            vec![
                fld("id", "Int", FieldArity::Required, vec![attr("id", vec![])]),
                fld(
                    "name",
                    "String",
                    FieldArity::Optional,
                    vec![attr("default", vec![arg("", text("anon"))])],
                ),
            ],
            vec![attr("map", vec![arg("name", text("users"))])],
        ),
    ])
}

#[test]
fn diffing_a_schema_with_itself_gives_no_steps() {
    assert_eq!(diff(&blog(), &blog()), vec![]);
    assert_eq!(diff(&schema(vec![]), &schema(vec![])), vec![]);
}

#[test]
fn creating_everything_from_nothing() {
    let steps = diff(&schema(vec![]), &blog());
    let source_location = ArgumentLocation::Source(SourceLocation { source: "db".to_string() });
    let expected = vec![
        MigrationStep::CreateTypeAlias(CreateTypeAlias {
            type_alias: "Email".to_string(),
            aliased_type: "String".to_string(),
            arity: FieldArity::Required,
        }),
        MigrationStep::CreateEnum(CreateEnum {
            enum_name: "Role".to_string(),
            values: vec!["USER".to_string(), "ADMIN".to_string()],
        }),
        MigrationStep::CreateSource(CreateSource { source: "db".to_string() }),
        MigrationStep::CreateArgument(CreateArgument {
            location: ArgumentLocation::Source(SourceLocation { source: "db".to_string() }),
            argument: "provider".to_string(),
            value: MigrationExpression("\"postgres\"".to_string()),
        }),
        MigrationStep::CreateArgument(CreateArgument {
            location: source_location,
            argument: "url".to_string(),
            value: MigrationExpression("\"***\"".to_string()),
        }),
        MigrationStep::CreateModel(CreateModel { model: "User".to_string() }),
        MigrationStep::CreateField(CreateField {
            model: "User".to_string(),
            field: "id".to_string(),
            tpe: "Int".to_string(),
            arity: FieldArity::Required,
        }),
        MigrationStep::CreateDirective(CreateDirective { location: on_field("User", "id", "id") }),
        MigrationStep::CreateField(CreateField {
            model: "User".to_string(),
            field: "name".to_string(),
            tpe: "String".to_string(),
            arity: FieldArity::Optional,
        }),
        MigrationStep::CreateDirective(CreateDirective {
            location: on_field("User", "name", "default"),
        }),
        MigrationStep::CreateArgument(CreateArgument {
            location: ArgumentLocation::Directive(on_field("User", "name", "default")),
            argument: "".to_string(),
            value: MigrationExpression("\"anon\"".to_string()),
        }),
        MigrationStep::CreateDirective(CreateDirective {
            location: DirectiveLocation {
                path: DirectivePath::Model { model: "User".to_string(), arguments: None },
                directive: "map".to_string(),
            },
        }),
        MigrationStep::CreateArgument(CreateArgument {
            location: ArgumentLocation::Directive(DirectiveLocation {
                path: DirectivePath::Model { model: "User".to_string(), arguments: None },
                directive: "map".to_string(),
            }),
            argument: "name".to_string(),
            value: MigrationExpression("\"users\"".to_string()),
        }),
    ];
    assert_eq!(steps, expected);
}

#[test]
fn deleting_everything_gives_one_step_for_each_thing() {
    let steps = diff(&blog(), &schema(vec![]));
    let expected = vec![
        MigrationStep::DeleteTypeAlias(DeleteTypeAlias { type_alias: "Email".to_string() }),
        MigrationStep::DeleteEnum(DeleteEnum { enum_name: "Role".to_string() }),
        MigrationStep::DeleteSource(DeleteSource { source: "db".to_string() }),
        MigrationStep::DeleteModel(DeleteModel { model: "User".to_string() }),
    ];
    assert_eq!(steps, expected);
}

#[test]
fn a_changed_field_gives_an_update_of_what_changed_only() {
    let previous = schema(vec![mdl(
        "User",
        vec![
            fld("id", "Int", FieldArity::Required, vec![]),
            fld("age", "Int", FieldArity::Required, vec![]),
            fld("old", "String", FieldArity::Required, vec![]),
        ],
        vec![],
    )]);
    let next = schema(vec![mdl(
        "User",
        vec![
            fld("id", "Int", FieldArity::Required, vec![]),
            fld("age", "Float", FieldArity::Optional, vec![]),
            fld("fresh", "String", FieldArity::List, vec![]),
        ],
        vec![],
    )]);
    let expected = vec![
        MigrationStep::CreateField(CreateField {
            model: "User".to_string(),
            field: "fresh".to_string(),
            tpe: "String".to_string(),
            arity: FieldArity::List,
        }),
        MigrationStep::DeleteField(DeleteField {
            model: "User".to_string(),
            field: "old".to_string(),
        }),
        MigrationStep::UpdateField(UpdateField {
            model: "User".to_string(),
            field: "age".to_string(),
            new_name: None,
            tpe: Some("Float".to_string()),
            arity: Some(FieldArity::Optional),
        }),
    ];
    assert_eq!(diff(&previous, &next), expected);
}

#[test]
fn arguments_are_compared_by_their_rendered_value() {
    let with = |value: Expression, extra: Vec<Argument>| {
        let mut arguments = vec![arg("", value)];
        arguments.extend(extra);
        schema(vec![mdl(
            "User",
            vec![fld("age", "Int", FieldArity::Required, vec![attr("default", arguments)])],
            vec![],
        )])
    };
    let location = ArgumentLocation::Directive(on_field("User", "age", "default"));
    assert_eq!(diff(&with(number("1"), vec![]), &with(number("1"), vec![])), vec![]);
    assert_eq!(
        diff(&with(number("1"), vec![]), &with(number("2"), vec![])),
        vec![MigrationStep::UpdateArgument(UpdateArgument {
            location,
            argument: "".to_string(),
            new_value: MigrationExpression("2".to_string()),
        })]
    );
    assert_eq!(
        diff(&with(number("1"), vec![arg("map", text("x"))]), &with(number("1"), vec![])),
        vec![MigrationStep::DeleteArgument(DeleteArgument {
            location: ArgumentLocation::Directive(on_field("User", "age", "default")),
            argument: "map".to_string(),
        })]
    );
}

#[test]
fn a_removed_attribute_is_deleted() {
    let previous = schema(vec![mdl(
        "User",
        vec![fld("id", "Int", FieldArity::Required, vec![attr("id", vec![])])],
        vec![],
    )]);
    let next = schema(vec![mdl("User", vec![fld("id", "Int", FieldArity::Required, vec![])], vec![])]);
    assert_eq!(
        diff(&previous, &next),
        vec![MigrationStep::DeleteDirective(DeleteDirective {
            location: on_field("User", "id", "id"),
        })]
    );
}

#[test]
fn enum_values_that_came_and_went_are_listed() {
    let previous = schema(vec![enm("Role", &["USER", "ADMIN", "GUEST"])]);
    let next = schema(vec![enm("Role", &["ROOT", "ADMIN", "USER"])]);
    assert_eq!(
        diff(&previous, &next),
        vec![MigrationStep::UpdateEnum(UpdateEnum {
            enum_name: "Role".to_string(),
            new_name: None,
            created_values: vec!["ROOT".to_string()],
            deleted_values: vec!["GUEST".to_string()],
        })]
    );
}

#[test]
fn reordering_enum_values_is_no_change() {
    let previous = schema(vec![enm("Role", &["USER", "ADMIN"])]);
    let next = schema(vec![enm("Role", &["ADMIN", "USER"])]);
    assert_eq!(diff(&previous, &next), vec![]);
}

#[test]
fn a_changed_datasource_url_gives_no_step() {
    let previous = schema(vec![source(
        "db",
        vec![arg("provider", text("postgres")), arg("url", text("postgres://one"))],
    )]);
    let next = schema(vec![source(
        "db",
        vec![arg("provider", text("mysql")), arg("url", text("mysql://two"))],
    )]);
    assert_eq!(
        diff(&previous, &next),
        vec![MigrationStep::UpdateArgument(UpdateArgument {
            location: ArgumentLocation::Source(SourceLocation { source: "db".to_string() }),
            argument: "provider".to_string(),
            new_value: MigrationExpression("\"mysql\"".to_string()),
        })]
    );
}

#[test]
fn a_changed_type_alias_is_updated() {
    let previous = schema(vec![Top::Type(fld("Email", "String", FieldArity::Required, vec![]))]);
    let next = schema(vec![Top::Type(fld("Email", "Text", FieldArity::Required, vec![]))]);
    assert_eq!(
        diff(&previous, &next),
        vec![MigrationStep::UpdateTypeAlias(UpdateTypeAlias {
            type_alias: "Email".to_string(),
            aliased_type: Some("Text".to_string()),
        })]
    );
}

#[test]
fn categories_come_in_a_fixed_order() {
    let next = schema(vec![
        mdl("A", vec![], vec![]),
        source("db", vec![]),
        enm("E", &[]),
        Top::Type(fld("T", "String", FieldArity::Required, vec![])),
    ]);
    let steps = diff(&schema(vec![]), &next);
    assert_eq!(
        steps,
        vec![
            MigrationStep::CreateTypeAlias(CreateTypeAlias {
                type_alias: "T".to_string(),
                aliased_type: "String".to_string(),
                arity: FieldArity::Required,
            }),
            MigrationStep::CreateEnum(CreateEnum { enum_name: "E".to_string(), values: vec![] }),
            MigrationStep::CreateSource(CreateSource { source: "db".to_string() }),
            MigrationStep::CreateModel(CreateModel { model: "A".to_string() }),
        ]
    );
}

#[test]
fn repeated_model_attributes_are_told_apart_by_their_arguments() {
    let unique = |fields: &str| attr("unique", vec![arg("", Expression::ConstantValue(fields.to_string(), at()))]);
    let previous = schema(vec![mdl("User", vec![], vec![unique("a"), unique("b")])]);
    let next = schema(vec![mdl("User", vec![], vec![unique("b"), unique("c")])]);
    let place = |fields: &str| DirectiveLocation {
        path: DirectivePath::Model {
            model: "User".to_string(),
            arguments: Some(vec![schema_engine::steps::Argument {
                name: "".to_string(),
                value: MigrationExpression(fields.to_string()),
            }]),
        },
        directive: "unique".to_string(),
    };
    assert_eq!(
        diff(&previous, &next),
        vec![
            MigrationStep::CreateDirective(CreateDirective { location: place("c") }),
            MigrationStep::DeleteDirective(DeleteDirective { location: place("a") }),
        ]
    );
}

fn later_blog() -> SchemaAst {
    schema(vec![
        enm("Role", &["ADMIN", "ROOT"]),
        enm("Mood", &["HAPPY"]),
        mdl(
            "User",
            vec![
                fld("id", "String", FieldArity::Required, vec![attr("id", vec![])]),
                fld("email", "String", FieldArity::Optional, vec![]),
            ],
            vec![],
        ),
        mdl("Post", vec![fld("id", "Int", FieldArity::Required, vec![])], vec![]),
    ])
}

fn places() -> Vec<Place> {
    let model = |m: &str| Place::Model { model: m.to_string() };
    let field = |m: &str, f: &str| Place::Field { model: m.to_string(), field: f.to_string() };
    let enumeration = |e: &str| Place::Enum { enum_name: e.to_string() };
    let value = |e: &str, v: &str| Place::Value { enum_name: e.to_string(), value: v.to_string() };
    vec![
        model("User"),
        model("Post"),
        model("Nothing"),
        field("User", "id"),
        field("User", "name"),
        field("User", "email"),
        field("Post", "id"),
        field("Post", "title"),
        field("Nothing", "id"),
        enumeration("Role"),
        enumeration("Mood"),
        enumeration("Nothing"),
        value("Role", "USER"),
        value("Role", "ADMIN"),
        value("Role", "ROOT"),
        value("Mood", "HAPPY"),
        value("Mood", "SAD"),
    ]
}

#[test]
fn replaying_the_steps_on_the_earlier_schema_gives_the_later_one() {
    let pairs = vec![
        (blog(), later_blog()),
        (later_blog(), blog()),
        (schema(vec![]), blog()),
        (blog(), schema(vec![])),
        (blog(), blog()),
    ];
    for (previous, next) in pairs.iter() {
        let steps = diff(previous, next);
        for at in places().iter() {
            let before = standing_at(previous, at);
            assert_eq!(replay(&steps, at, before), standing_at(next, at), "at {:?}", at);
        }
    }
}

#[test]
fn what_stands_at_a_place_is_seen() {
    let at = |m: &str, f: &str| Place::Field { model: m.to_string(), field: f.to_string() };
    assert_eq!(
        standing_at(&blog(), &at("User", "name")),
        Standing::Field { tpe: "String".to_string(), arity: FieldArity::Optional }
    );
    assert_eq!(standing_at(&blog(), &at("User", "email")), Standing::Absent);
    assert_eq!(standing_at(&blog(), &Place::Model { model: "User".to_string() }), Standing::Present);
    assert_eq!(
        standing_at(&blog(), &Place::Value { enum_name: "Role".to_string(), value: "ADMIN".to_string() }),
        Standing::Present
    );
    let steps = vec![
        MigrationStep::CreateModel(CreateModel { model: "Cat".to_string() }),
        MigrationStep::CreateField(CreateField {
            model: "Cat".to_string(),
            field: "name".to_string(),
            tpe: "String".to_string(),
            arity: FieldArity::Required,
        }),
        MigrationStep::UpdateField(UpdateField {
            model: "Cat".to_string(),
            field: "name".to_string(),
            new_name: None,
            tpe: None,
            arity: Some(FieldArity::List),
        }),
    ];
    assert_eq!(
        replay(&steps, &at("Cat", "name"), Standing::Absent),
        Standing::Field { tpe: "String".to_string(), arity: FieldArity::List }
    );
    assert_eq!(replay(&steps, &at("Cat", "age"), Standing::Present), Standing::Absent);
    assert_eq!(replay(&steps, &at("Dog", "name"), Standing::Present), Standing::Present);
}
