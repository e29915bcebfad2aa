use schema_engine::ast::{
    Argument, Comment, Enum, EnumValue, Expression, Field, FieldArity, GeneratorConfig, Identifier,
    Model, SchemaAst, SourceConfig, Span, Top,
};
use schema_engine::validation::arguments::Arguments;
use schema_engine::validation::diagnostics::{DatamodelError, DatamodelWarning, Diagnostics};
use schema_engine::validation::generators::{GeneratorLoader, PreviewFeatures, Property};
use schema_engine::validation::precheck::Precheck;
use schema_engine::validation::value_validator::ValueValidator;

fn here(start: usize, end: usize) -> Span {
    Span { start, end }
}

fn named(name: &str) -> Identifier {
    Identifier { name: name.to_string(), span: here(0, 0) }
}

fn string(value: &str) -> Expression {
    Expression::StringValue(value.to_string(), here(0, 0))
}

fn strings(values: &[&str]) -> Expression {
    Expression::Array(values.iter().map(|v| string(v)).collect(), here(0, 0))
}

fn argument(name: &str, value: Expression) -> Argument {
    Argument { name: named(name), value, span: here(1, 2) }
}

fn plain_field(name: &str, tpe: &str) -> Field {
    Field {
        field_type: named(tpe),
        name: named(name),
        arity: FieldArity::Required,
        attributes: vec![],
        documentation: None,
        span: here(0, 0),
        is_commented_out: false,
    }
}

fn model_of(name: &str, fields: Vec<Field>) -> Top {
    Top::Model(Model {
        name: named(name),
        fields,
        attributes: vec![],
        documentation: None,
        span: here(0, 0),
        commented_out: false,
    })
}

fn enum_of(name: &str, values: &[&str]) -> Top {
    Top::Enum(Enum {
        name: named(name),
        values: values
            .iter()
            .map(|v| EnumValue {
                name: named(v),
                attributes: vec![],
                documentation: None,
                span: here(0, 0),
                commented_out: false,
            })
            .collect(),
        attributes: vec![],
        documentation: None,
        span: here(0, 0),
    })
}

fn generator(name: &str, properties: Vec<Argument>) -> GeneratorConfig {
    GeneratorConfig {
        name: named(name),
        properties,
        documentation: Some(Comment { text: "makes the client".to_string() }),
        span: here(5, 9),
    }
}

fn features() -> PreviewFeatures {
    PreviewFeatures {
        supported: vec!["nativeTypes".to_string(), "atomicNumberOperations".to_string()],
        deprecated: vec!["middlewares".to_string()],
    }
}

#[test]
fn diagnostics_collect_errors_and_warnings() {
    let mut d = Diagnostics::new();
    assert!(!d.has_errors());
    d.push_warning(DatamodelWarning::DeprecatedPreviewFeatureWarning {
        preview_feature: "middlewares".to_string(),
        span: here(0, 1),
    });
    assert!(!d.has_errors());
    assert!(d.to_result().is_ok());

    let mut d = Diagnostics::new();
    d.push_error(DatamodelError::ValidationError { message: "first".to_string(), span: here(0, 1) });
    let mut other = Diagnostics::new();
    other.push_error(DatamodelError::ValidationError { message: "second".to_string(), span: here(2, 3) });
    d.append(&mut other);
    assert!(d.has_errors());
    assert_eq!(d.errors.len(), 2);
    assert_eq!(
        d.errors[1],
        DatamodelError::ValidationError { message: "second".to_string(), span: here(2, 3) }
    );
    let failed = d.to_result().unwrap_err();
    assert_eq!(failed.errors.len(), 2);
}

#[test]
fn a_value_is_read_as_a_string_or_not_at_all() {
    let s = string("hello");
    assert_eq!(ValueValidator::new(&s).as_str(), Ok("hello".to_string()));
    assert_eq!(ValueValidator::new(&s).raw(), "\"hello\"");
    let n = Expression::NumericValue("3".to_string(), here(4, 5));
    match ValueValidator::new(&n).as_str() {
        Err(DatamodelError::ValueParserError { expected_type, raw, span, .. }) => {
            assert_eq!(expected_type, "String");
            assert_eq!(raw, "3");
            assert_eq!(span, here(4, 5));
        }
        other => panic!("expected a parser error, got {:?}", other),
    }
    let list = strings(&["a", "b"]);
    let items = ValueValidator::new(&list).as_array();
    assert_eq!(items.len(), 2);
    assert_eq!(items[1].as_str(), Ok("b".to_string()));
    assert_eq!(ValueValidator::new(&s).as_array().len(), 1);
}

#[test]
fn arguments_are_found_by_name_and_remembered() {
    let list = vec![argument("name", string("users")), argument("extra", string("x"))];
    let mut arguments = Arguments::new(&list, here(0, 9));
    assert_eq!(arguments.arg("name").unwrap().as_str(), Ok("users".to_string()));
    assert!(arguments.optional_arg("missing").is_none());
    assert_eq!(
        arguments.arg("missing").err(),
        Some(DatamodelError::ArgumentNotFound { argument_name: "missing".to_string(), span: here(0, 9) })
    );
    let unused = arguments.check_for_unused_arguments().unwrap_err();
    assert_eq!(
        unused.errors,
        vec![DatamodelError::UnusedArgumentError { arg_name: "extra".to_string(), span: here(1, 2) }]
    );
    assert!(arguments.optional_arg("extra").is_some());
    assert!(arguments.check_for_unused_arguments().is_ok());
}

#[test]
fn an_argument_named_twice_is_an_error() {
    let list = vec![argument("name", string("a")), argument("name", string("b"))];
    let arguments = Arguments::new(&list, here(0, 9));
    let d = arguments.check_for_duplicate_named_arguments().unwrap_err();
    assert_eq!(
        d.errors,
        vec![DatamodelError::DuplicateArgumentError { arg_name: "name".to_string(), span: here(1, 2) }]
    );
    let fine = vec![argument("name", string("a")), argument("other", string("b"))];
    assert!(Arguments::new(&fine, here(0, 9)).check_for_duplicate_named_arguments().is_ok());
}

#[test]
fn two_unnamed_arguments_are_an_error() {
    let list = vec![argument("", string("a")), argument("", string("b"))];
    let arguments = Arguments::new(&list, here(0, 9));
    let d = arguments.check_for_multiple_unnamed_arguments("default").unwrap_err();
    assert_eq!(d.errors.len(), 1);
    match &d.errors[0] {
        DatamodelError::AttributeValidationError { attribute_name, span, .. } => {
            assert_eq!(attribute_name, "default");
            assert_eq!(*span, here(0, 9));
        }
        other => panic!("expected an attribute error, got {:?}", other),
    }
    let one = vec![argument("", string("a")), argument("map", string("b"))];
    assert!(Arguments::new(&one, here(0, 9)).check_for_multiple_unnamed_arguments("default").is_ok());
}

#[test]
fn the_default_argument_may_be_named_or_not() {
    let unnamed = vec![argument("", string("a"))];
    let mut arguments = Arguments::new(&unnamed, here(0, 9));
    assert_eq!(arguments.default_arg("value").unwrap().as_str(), Ok("a".to_string()));
    let by_name = vec![argument("value", string("b"))];
    let mut arguments = Arguments::new(&by_name, here(0, 9));
    assert_eq!(arguments.default_arg("value").unwrap().as_str(), Ok("b".to_string()));
    let both = vec![argument("", string("a")), argument("value", string("b"))];
    let mut arguments = Arguments::new(&both, here(0, 9));
    match arguments.default_arg("value") {
        Err(DatamodelError::DuplicateDefaultArgumentError { arg_name, .. }) => {
            assert_eq!(arg_name, "value")
        }
        other => panic!("expected an error, got {:?}", other.map(|v| v.raw())),
    }
    let neither: Vec<Argument> = vec![];
    let mut arguments = Arguments::new(&neither, here(0, 9));
    assert_eq!(
        arguments.default_arg("value").err(),
        Some(DatamodelError::ArgumentNotFound { argument_name: "value".to_string(), span: here(0, 9) })
    );
}

#[test]
fn a_schema_without_repeated_names_passes_the_precheck() {
    let schema = SchemaAst {
        tops: vec![
            model_of("User", vec![plain_field("id", "Int"), plain_field("name", "String")]),
            enum_of("Role", &["USER", "ADMIN"]),
            Top::Source(SourceConfig {
                name: named("db"),
                properties: vec![argument("provider", string("postgres"))],
                documentation: None,
                span: here(0, 0),
            }),
            Top::Generator(generator("client", vec![argument("provider", string("js"))])),
        ],
    };
    assert!(Precheck::precheck(&schema).is_ok());
}

#[test]
fn names_that_stand_twice_are_reported() {
    let schema = SchemaAst {
        tops: vec![
            model_of("User", vec![plain_field("id", "Int"), plain_field("id", "String")]),
            enum_of("Role", &["USER", "USER"]),
            enum_of("User", &[]),
            Top::Generator(generator(
                "client",
                vec![argument("provider", string("js")), argument("provider", string("go"))],
            )),
        ],
    };
    let d = Precheck::precheck(&schema).unwrap_err();
    let mut duplicate_field = 0;
    let mut duplicate_value = 0;
    let mut duplicate_top = 0;
    let mut duplicate_key = 0;
    for e in d.errors.iter() {
        match e {
            DatamodelError::DuplicateFieldError { model_name, field_name, .. } => {
                assert_eq!(model_name, "User");
                assert_eq!(field_name, "id");
                duplicate_field += 1;
            }
            DatamodelError::DuplicateEnumValueError { enum_name, value_name, .. } => {
                assert_eq!(enum_name, "Role");
                assert_eq!(value_name, "USER");
                duplicate_value += 1;
            }
            DatamodelError::DuplicateTopError { name, top_type, existing_top_type, .. } => {
                assert_eq!(name, "User");
                assert_eq!(top_type, "enum");
                assert_eq!(existing_top_type, "model");
                duplicate_top += 1;
            }
            DatamodelError::DuplicateConfigKeyError { conf_block_name, key_name, .. } => {
                assert_eq!(conf_block_name, "generator configuration \"client\"");
                assert_eq!(key_name, "provider");
                duplicate_key += 1;
            }
            other => panic!("unexpected error {:?}", other),
        }
    }
    assert_eq!((duplicate_field, duplicate_value, duplicate_top, duplicate_key), (1, 1, 1, 1));
}

#[test]
fn the_name_of_a_scalar_type_is_reserved() {
    let mut errors = vec![];
    Precheck::assert_is_not_a_reserved_scalar_type(&named("Int"), &mut errors);
    assert_eq!(
        errors,
        vec![DatamodelError::ReservedScalarTypeError { scalar_type: "Int".to_string(), span: here(0, 0) }]
    );
    let mut errors = vec![];
    Precheck::assert_is_not_a_reserved_scalar_type(&named("Integer"), &mut errors);
    assert!(errors.is_empty());
    let schema = SchemaAst { tops: vec![model_of("String", vec![])] };
    assert!(Precheck::precheck(&schema).is_err());
}

#[test]
fn a_generator_is_lifted_with_its_properties() {
    let config = generator(
        "client",
        vec![
            argument("provider", string("prisma-client-js")),
            argument("output", string("../out")),
            argument("binaryTargets", strings(&["native", "debian"])),
            argument("previewFeatures", strings(&["nativeTypes", "middlewares"])),
            argument("engine", string("binary")),
        ],
    );
    let lifted = GeneratorLoader::lift_generator(&config, &features()).unwrap();
    assert_eq!(lifted.subject.name, "client");
    assert_eq!(lifted.subject.provider, "prisma-client-js");
    assert_eq!(lifted.subject.output, Some("../out".to_string()));
    assert_eq!(lifted.subject.binary_targets, vec!["native".to_string(), "debian".to_string()]);
    assert_eq!(
        lifted.subject.preview_features,
        vec!["nativeTypes".to_string(), "middlewares".to_string()]
    );
    assert_eq!(
        lifted.subject.config,
        vec![Property { key: "engine".to_string(), value: "binary".to_string() }]
    );
    assert_eq!(lifted.subject.documentation, Some("makes the client".to_string()));
    assert_eq!(lifted.warnings.len(), 1);
    match &lifted.warnings[0] {
        DatamodelWarning::DeprecatedPreviewFeatureWarning { preview_feature, .. } => {
            assert_eq!(preview_feature, "middlewares")
        }
    }
}

#[test]
fn a_generator_needs_a_provider() {
    let config = generator("client", vec![argument("output", string("../out"))]);
    let d = GeneratorLoader::lift_generator(&config, &features()).unwrap_err();
    assert_eq!(
        d.errors,
        vec![DatamodelError::ArgumentNotFound {
            argument_name: "provider".to_string(),
            span: here(5, 9),
        }]
    );
    let schema = SchemaAst {
        tops: vec![Top::Generator(generator("client", vec![argument("output", string("../out"))]))],
    };
    let d = GeneratorLoader::load_generators_from_ast(&schema, &features()).unwrap_err();
    assert_eq!(
        d.errors,
        vec![DatamodelError::GeneratorArgumentNotFound {
            argument_name: "provider".to_string(),
            generator_name: "client".to_string(),
            span: here(5, 9),
        }]
    );
}

#[test]
fn an_unknown_preview_feature_is_an_error() {
    let config = generator(
        "client",
        vec![
            argument("provider", string("prisma-client-js")),
            argument("previewFeatures", strings(&["timeTravel"])),
        ],
    );
    let d = GeneratorLoader::lift_generator(&config, &features()).unwrap_err();
    assert_eq!(d.errors.len(), 1);
    match &d.errors[0] {
        DatamodelError::PreviewFeatureNotKnownError { preview_feature, expected_preview_features, .. } => {
            assert_eq!(preview_feature, "timeTravel");
            assert_eq!(expected_preview_features, "nativeTypes, atomicNumberOperations");
        }
        other => panic!("unexpected error {:?}", other),
    }
}

#[test]
fn the_generators_of_a_schema_are_loaded_in_order() {
    let schema = SchemaAst {
        tops: vec![
            Top::Generator(generator("one", vec![argument("provider", string("a"))])),
            model_of("User", vec![]),
            Top::Generator(generator("two", vec![argument("provider", string("b"))])),
        ],
    };
    let loaded = GeneratorLoader::load_generators_from_ast(&schema, &features()).unwrap();
    let names: Vec<&str> = loaded.subject.iter().map(|g| g.name.as_str()).collect();
    assert_eq!(names, vec!["one", "two"]);
    assert!(loaded.warnings.is_empty());

    let broken = SchemaAst {
        tops: vec![
            Top::Generator(generator("one", vec![])),
            Top::Generator(generator("two", vec![argument("provider", string("b"))])),
        ],
    };
    assert!(GeneratorLoader::load_generators_from_ast(&broken, &features()).is_err());
}
