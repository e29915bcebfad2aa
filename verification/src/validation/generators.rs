//! Loading the generators that a schema configures.

use crate::text::{
    join, join_text, name_option_clone, name_option_eq, names_clone, names_contain, names_eq,
    str_eq,
};
use crate::ast::{Argument, Expression, GeneratorConfig, SchemaAst, Span, Top};
use crate::seqs::{all_same, list_clone, Same};
use crate::validation::arguments::{first_named, not_found, Arguments};
use crate::validation::diagnostics::{
    DatamodelError, DatamodelErrorView, DatamodelWarning, DatamodelWarningView, Diagnostics,
    DiagnosticsView,
};
use crate::validation::value_validator::{not_of_kind, ValueValidator};
use vstd::prelude::*;
use vstd::string::*;

verus! {

/// A generator as a schema configures it.
#[derive(Debug, PartialEq)]
pub struct Generator {
    pub name: String,
    pub provider: String,
    pub output: Option<String>,
    pub binary_targets: Vec<String>,
    pub preview_features: Vec<String>,
    /// The properties that are no part of the above, each with the text of its value.
    pub config: Vec<Property>,
    pub documentation: Option<String>,
}

pub struct GeneratorView {
    pub name: Seq<char>,
    pub provider: Seq<char>,
    pub output: Option<Seq<char>>,
    pub binary_targets: Seq<Seq<char>>,
    pub preview_features: Seq<Seq<char>>,
    pub config: Seq<PropertyView>,
    pub documentation: Option<Seq<char>>,
}

impl DeepView for Generator {
    type V = GeneratorView;

    open spec fn deep_view(&self) -> GeneratorView {
        GeneratorView {
            name: self.name@,
            provider: self.provider@,
            output: self.output.deep_view(),
            binary_targets: self.binary_targets.deep_view(),
            preview_features: self.preview_features.deep_view(),
            config: self.config.deep_view(),
            documentation: self.documentation.deep_view(),
        }
    }
}

impl Clone for Generator {
    fn clone(&self) -> (r: Self)
        ensures
            r.deep_view() == self.deep_view(),
    {
        Generator {
            name: self.name.clone(),
            provider: self.provider.clone(),
            output: name_option_clone(&self.output),
            binary_targets: names_clone(&self.binary_targets),
            preview_features: names_clone(&self.preview_features),
            config: list_clone(&self.config),
            documentation: name_option_clone(&self.documentation),
        }
    }
}

impl Same for Generator {
    fn same(&self, other: &Generator) -> (r: bool) {
        self.name == other.name
            && self.provider == other.provider
            && name_option_eq(&self.output, &other.output)
            && names_eq(&self.binary_targets, &other.binary_targets)
            && names_eq(&self.preview_features, &other.preview_features)
            && all_same(&self.config, &other.config)
            && name_option_eq(&self.documentation, &other.documentation)
    }
}

/// A property of a generator with the text of its value.
#[derive(Debug, PartialEq)]
pub struct Property {
    pub key: String,
    pub value: String,
}

pub struct PropertyView {
    pub key: Seq<char>,
    pub value: Seq<char>,
}

impl DeepView for Property {
    type V = PropertyView;

    open spec fn deep_view(&self) -> PropertyView {
        PropertyView {
            key: self.key@,
            value: self.value@,
        }
    }
}

impl Clone for Property {
    fn clone(&self) -> (r: Self)
        ensures
            r.deep_view() == self.deep_view(),
    {
        Property {
            key: self.key.clone(),
            value: self.value.clone(),
        }
    }
}

impl Same for Property {
    fn same(&self, other: &Property) -> (r: bool) {
        self.key == other.key
            && self.value == other.value
    }
}

/// A generator that was found valid, with the warnings of finding it so.
#[derive(Debug, PartialEq)]
pub struct ValidatedGenerator {
    pub subject: Generator,
    pub warnings: Vec<DatamodelWarning>,
}

pub struct ValidatedGeneratorView {
    pub subject: GeneratorView,
    pub warnings: Seq<DatamodelWarningView>,
}

impl DeepView for ValidatedGenerator {
    type V = ValidatedGeneratorView;

    open spec fn deep_view(&self) -> ValidatedGeneratorView {
        ValidatedGeneratorView {
            subject: self.subject.deep_view(),
            warnings: self.warnings.deep_view(),
        }
    }
}

impl Clone for ValidatedGenerator {
    fn clone(&self) -> (r: Self)
        ensures
            r.deep_view() == self.deep_view(),
    {
        ValidatedGenerator {
            subject: self.subject.clone(),
            warnings: list_clone(&self.warnings),
        }
    }
}

impl Same for ValidatedGenerator {
    fn same(&self, other: &ValidatedGenerator) -> (r: bool) {
        self.subject.same(&other.subject)
            && all_same(&self.warnings, &other.warnings)
    }
}

/// The generators of a schema that were found valid, with the warnings of finding them so.
#[derive(Debug, PartialEq)]
pub struct ValidatedGenerators {
    pub subject: Vec<Generator>,
    pub warnings: Vec<DatamodelWarning>,
}

pub struct ValidatedGeneratorsView {
    pub subject: Seq<GeneratorView>,
    pub warnings: Seq<DatamodelWarningView>,
}

impl DeepView for ValidatedGenerators {
    type V = ValidatedGeneratorsView;

    open spec fn deep_view(&self) -> ValidatedGeneratorsView {
        ValidatedGeneratorsView {
            subject: self.subject.deep_view(),
            warnings: self.warnings.deep_view(),
        }
    }
}

impl Clone for ValidatedGenerators {
    fn clone(&self) -> (r: Self)
        ensures
            r.deep_view() == self.deep_view(),
    {
        ValidatedGenerators {
            subject: list_clone(&self.subject),
            warnings: list_clone(&self.warnings),
        }
    }
}

impl Same for ValidatedGenerators {
    fn same(&self, other: &ValidatedGenerators) -> (r: bool) {
        all_same(&self.subject, &other.subject)
            && all_same(&self.warnings, &other.warnings)
    }
}

/// The preview features that generators know.
#[derive(Debug, PartialEq)]
pub struct PreviewFeatures {
    /// The features that can be asked for.
    pub supported: Vec<String>,
    /// The features that need not be asked for any more.
    pub deprecated: Vec<String>,
}

pub struct PreviewFeaturesView {
    pub supported: Seq<Seq<char>>,
    pub deprecated: Seq<Seq<char>>,
}

impl DeepView for PreviewFeatures {
    type V = PreviewFeaturesView;

    open spec fn deep_view(&self) -> PreviewFeaturesView {
        PreviewFeaturesView {
            supported: self.supported.deep_view(),
            deprecated: self.deprecated.deep_view(),
        }
    }
}

impl Clone for PreviewFeatures {
    fn clone(&self) -> (r: Self)
        ensures
            r.deep_view() == self.deep_view(),
    {
        PreviewFeatures {
            supported: names_clone(&self.supported),
            deprecated: names_clone(&self.deprecated),
        }
    }
}

impl Same for PreviewFeatures {
    fn same(&self, other: &PreviewFeatures) -> (r: bool) {
        names_eq(&self.supported, &other.supported)
            && names_eq(&self.deprecated, &other.deprecated)
    }
}

/// The text of a value as a property shows it: the text itself for a
/// string, a number, a boolean value or a constant, the name for a
/// function, and a fixed word for an array.
pub open spec fn plain_text(e: Expression) -> Seq<char> {
    match e {
        Expression::StringValue(x, _) => x@,
        Expression::NumericValue(x, _) => x@,
        Expression::BooleanValue(x, _) => x@,
        Expression::ConstantValue(x, _) => x@,
        Expression::Any(x, _) => x@,
        Expression::Function(x, _, _) => x@,
        Expression::Array(_, _) => "(array)"@,
    }
}

impl Expression {
    /// The text of the value as a property shows it.
    pub fn to_string(&self) -> (r: String)
        ensures
            r@ == plain_text(*self),
    {
        match self {
            Expression::StringValue(x, _) => x.clone(),
            Expression::NumericValue(x, _) => x.clone(),
            Expression::BooleanValue(x, _) => x.clone(),
            Expression::ConstantValue(x, _) => x.clone(),
            Expression::Any(x, _) => x.clone(),
            Expression::Function(x, _, _) => x.clone(),
            Expression::Array(_, _) => "(array)".to_owned(),
        }
    }
}

/// Whether a property is one of those that a generator has a field for.
pub open spec fn first_class(key: Seq<char>) -> bool {
    key == "provider"@ || key == "output"@ || key == "binaryTargets"@ || key
        == "experimentalFeatures"@ || key == "previewFeatures"@
}

fn is_first_class(key: &str) -> (r: bool)
    ensures
        r == first_class(key@),
{
    str_eq(key, "provider") || str_eq(key, "output") || str_eq(key, "binaryTargets") || str_eq(
        key,
        "experimentalFeatures",
    ) || str_eq(key, "previewFeatures")
}

/// Whether the property at `i` is shown among the other properties: it is
/// none of those that a generator has a field for, and no later property
/// has its name.
pub open spec fn is_shown(properties: Seq<Argument>, i: int) -> bool {
    !first_class(properties[i].name.name@) && forall|j: int|
        i < j < properties.len() ==> (#[trigger] properties[j]).name.name@ != properties[i].name.name@
}

/// The other properties among the first `k` properties.
pub open spec fn other_properties(properties: Seq<Argument>, k: int) -> Seq<PropertyView>
    decreases k,
{
    if k <= 0 {
        Seq::empty()
    } else {
        let before = other_properties(properties, k - 1);
        if is_shown(properties, k - 1) {
            before.push(
                PropertyView {
                    key: properties[k - 1].name.name@,
                    value: plain_text(properties[k - 1].value),
                },
            )
        } else {
            before
        }
    }
}

/// The other properties of a generator.
#[verifier::loop_isolation(false)]
pub fn collect_properties(properties: &Vec<Argument>) -> (r: Vec<Property>)
    ensures
        r.deep_view() == other_properties(properties@, properties.len() as int),
{
    let mut out: Vec<Property> = Vec::new();
    let mut i: usize = 0;
    assert(out.deep_view() =~= other_properties(properties@, 0));
    while i < properties.len()
        invariant
            i <= properties.len(),
            out.deep_view() == other_properties(properties@, i as int),
        decreases properties.len() - i,
    {
        let prop: &Argument = &properties[i];
        let mut later: bool = false;
        let mut j: usize = i + 1;
        while j < properties.len() && !later
            invariant
                i < j <= properties.len(),
                !later ==> forall|x: int|
                    i < x < j ==> (#[trigger] properties@[x]).name.name@ != properties@[i as int].name.name@,
                later ==> !is_shown(properties@, i as int),
            decreases properties.len() - j + if later { 0int } else { 1int },
        {
            if properties[j].name.name == prop.name.name {
                later = true;
            } else {
                j = j + 1;
            }
        }
        if !is_first_class(prop.name.name.as_str()) && !later {
            let ghost before = out.deep_view();
            let p = Property { key: prop.name.name.clone(), value: prop.value.to_string() };
            let ghost pv = p.deep_view();
            out.push(p);
            assert(out.deep_view() =~= before.push(pv));
        }
        i = i + 1;
    }
    out
}

/// What is found of the preview features that a generator asks for: a
/// warning for each that is deprecated, and an error for each other one
/// that is not supported.
pub open spec fn feature_findings(
    asked: Seq<Seq<char>>,
    span: Span,
    features: PreviewFeaturesView,
    k: int,
) -> DiagnosticsView
    decreases k,
{
    if k <= 0 {
        DiagnosticsView { errors: Seq::empty(), warnings: Seq::empty() }
    } else {
        let before = feature_findings(asked, span, features, k - 1);
        let f = asked[k - 1];
        if features.deprecated.contains(f) {
            DiagnosticsView {
                warnings: before.warnings.push(
                    DatamodelWarningView::DeprecatedPreviewFeatureWarning {
                        preview_feature: f,
                        span,
                    },
                ),
                ..before
            }
        } else if !features.supported.contains(f) {
            DiagnosticsView {
                errors: before.errors.push(
                    DatamodelErrorView::PreviewFeatureNotKnownError {
                        preview_feature: f,
                        expected_preview_features: join_text(features.supported, ", "@),
                        span,
                    },
                ),
                ..before
            }
        } else {
            before
        }
    }
}

/// Checks the preview features that a generator asks for.
#[verifier::loop_isolation(false)]
pub fn validate_preview_features(
    asked: &Vec<String>,
    span: Span,
    features: &PreviewFeatures,
) -> (r: Diagnostics)
    ensures
        r.deep_view() == feature_findings(
            asked.deep_view(),
            span,
            features.deep_view(),
            asked.len() as int,
        ),
{
    let mut result: Diagnostics = Diagnostics::new();
    let mut i: usize = 0;
    while i < asked.len()
        invariant
            i <= asked.len(),
            result.deep_view() == feature_findings(
                asked.deep_view(),
                span,
                features.deep_view(),
                i as int,
            ),
        decreases asked.len() - i,
    {
        assert(asked.deep_view()[i as int] == asked[i as int]@);
        if names_contain(&features.deprecated, asked[i].as_str()) {
            result.push_warning(
                DatamodelWarning::DeprecatedPreviewFeatureWarning {
                    preview_feature: asked[i].clone(),
                    span,
                },
            );
        } else if !names_contain(&features.supported, asked[i].as_str()) {
            result.push_error(
                DatamodelError::PreviewFeatureNotKnownError {
                    preview_feature: asked[i].clone(),
                    expected_preview_features: join(&features.supported, ", "),
                    span,
                },
            );
        }
        i = i + 1;
    }
    result
}

/// The text of a value that must be a string.
pub open spec fn text_of(e: Expression) -> Result<Seq<char>, DatamodelErrorView> {
    match e {
        Expression::StringValue(t, _) => Ok(t@),
        _ => Err(not_of_kind("String"@, e)),
    }
}

/// The values of a value: those of an array, or the value alone.
pub open spec fn items_of(e: Expression) -> Seq<Expression> {
    match e {
        Expression::Array(values, _) => values@,
        _ => seq![e],
    }
}

/// The texts of the first `k` values, which must all be strings; the error
/// for the first that is none otherwise.
pub open spec fn texts_of(items: Seq<Expression>, k: int) -> Result<Seq<Seq<char>>, DatamodelErrorView>
    decreases k,
{
    if k <= 0 {
        Ok(Seq::empty())
    } else {
        match texts_of(items, k - 1) {
            Err(e) => Err(e),
            Ok(texts) => match text_of(items[k - 1]) {
                Ok(t) => Ok(texts.push(t)),
                Err(e) => Err(e),
            },
        }
    }
}

/// The texts of the values of a value, which must all be strings.
#[verifier::loop_isolation(false)]
pub fn str_vec(e: &Expression) -> (r: Result<Vec<String>, DatamodelError>)
    ensures
        match r {
            Ok(texts) => texts_of(items_of(*e), items_of(*e).len() as int) == Ok::<
                Seq<Seq<char>>,
                DatamodelErrorView,
            >(texts.deep_view()),
            Err(err) => texts_of(items_of(*e), items_of(*e).len() as int) == Err::<
                Seq<Seq<char>>,
                DatamodelErrorView,
            >(err.deep_view()),
        },
{
    let validator = ValueValidator::new(e);
    let values: Vec<ValueValidator<'_>> = validator.as_array();
    let ghost items = items_of(*e);
    assert(values.len() == items.len());
    let mut out: Vec<String> = Vec::new();
    let mut i: usize = 0;
    assert(out.deep_view() =~= Seq::<Seq<char>>::empty());
    while i < values.len()
        invariant
            i <= values.len(),
            texts_of(items, i as int) == Ok::<Seq<Seq<char>>, DatamodelErrorView>(out.deep_view()),
        decreases values.len() - i,
    {
        assert(*values[i as int].value == items[i as int]);
        match values[i].as_str() {
            Ok(s) => {
                let ghost before = out.deep_view();
                let ghost sv = s@;
                out.push(s);
                assert(out.deep_view() =~= before.push(sv));
            },
            Err(err) => {
                proof {
                    lemma_texts_fail(items, i as int, items.len() as int);
                }
                return Err(err);
            },
        }
        i = i + 1;
    }
    Ok(out)
}

/// Once a value is no string, the texts of more values fail the same way.
pub proof fn lemma_texts_fail(items: Seq<Expression>, i: int, k: int)
    requires
        0 <= i < k <= items.len(),
        texts_of(items, i) is Ok,
        text_of(items[i]) is Err,
    ensures
        texts_of(items, k) == Err::<Seq<Seq<char>>, DatamodelErrorView>(text_of(items[i])->Err_0),
    decreases k,
{
    if k > i + 1 {
        lemma_texts_fail(items, i, k - 1);
    }
}

/// What was found, where one error was found.
pub open spec fn one_error(e: DatamodelErrorView) -> DiagnosticsView {
    DiagnosticsView { errors: seq![e], warnings: Seq::empty() }
}

fn only(e: DatamodelError) -> (r: Diagnostics)
    ensures
        r.deep_view() == one_error(e.deep_view()),
{
    let mut d = Diagnostics::new();
    d.push_error(e);
    assert(d.deep_view().errors =~= seq![e.deep_view()]);
    d
}

/// Where the generator writes to, if it says so.
pub open spec fn output_of(g: GeneratorConfig) -> Result<Option<Seq<char>>, DatamodelErrorView> {
    match first_named(g.properties, "output"@) {
        Some(i) => match text_of(g.properties[i].value) {
            Ok(t) => Ok(Some(t)),
            Err(e) => Err(e),
        },
        None => Ok(None),
    }
}

/// The targets that the generator builds for.
pub open spec fn targets_of(g: GeneratorConfig) -> Result<Seq<Seq<char>>, DatamodelErrorView> {
    match first_named(g.properties, "binaryTargets"@) {
        Some(i) => texts_of(
            items_of(g.properties[i].value),
            items_of(g.properties[i].value).len() as int,
        ),
        None => Ok(Seq::empty()),
    }
}

/// The property that holds the preview features: `previewFeatures`, or,
/// where there is none, `experimentalFeatures`.
pub open spec fn features_at(g: GeneratorConfig) -> Option<int> {
    match first_named(g.properties, "previewFeatures"@) {
        Some(i) => Some(i),
        None => first_named(g.properties, "experimentalFeatures"@),
    }
}

/// The preview features that the generator asks for.
pub open spec fn asked_of(g: GeneratorConfig) -> Result<Seq<Seq<char>>, DatamodelErrorView> {
    match features_at(g) {
        Some(i) => texts_of(
            items_of(g.properties[i].value),
            items_of(g.properties[i].value).len() as int,
        ),
        None => Ok(Seq::empty()),
    }
}

/// The place where the preview features are written.
pub open spec fn features_span(g: GeneratorConfig) -> Span {
    match features_at(g) {
        Some(i) => g.properties[i].value.span_of(),
        None => Span { start: 0, end: 0 },
    }
}

/// The documentation of a generator.
pub open spec fn documentation_of(g: GeneratorConfig) -> Option<Seq<char>> {
    match g.documentation {
        Some(c) => Some(c.text@),
        None => None,
    }
}

/// What lifting a generator gives: the generator with the warnings on its
/// preview features, or what was found wrong. A generator needs a
/// provider; its provider and its output are strings, its targets and its
/// preview features are strings or arrays of strings; the first of these
/// that fails is the one error. Preview features that are not known are
/// all reported together.
pub open spec fn lifted(g: GeneratorConfig, features: PreviewFeaturesView) -> Result<
    ValidatedGeneratorView,
    DiagnosticsView,
> {
    match first_named(g.properties, "provider"@) {
        None => Err(one_error(not_found("provider"@, g.span))),
        Some(p) => match text_of(g.properties[p].value) {
            Err(e) => Err(one_error(e)),
            Ok(provider) => match output_of(g) {
                Err(e) => Err(one_error(e)),
                Ok(output) => match targets_of(g) {
                    Err(e) => Err(one_error(e)),
                    Ok(binary_targets) => match asked_of(g) {
                        Err(e) => Err(one_error(e)),
                        Ok(asked) => {
                            let findings = feature_findings(
                                asked,
                                features_span(g),
                                features,
                                asked.len() as int,
                            );
                            if findings.has_errors() {
                                Err(findings)
                            } else {
                                Ok(
                                    ValidatedGeneratorView {
                                        subject: GeneratorView {
                                            name: g.name.name@,
                                            provider,
                                            output,
                                            binary_targets,
                                            preview_features: asked,
                                            config: other_properties(
                                                g.properties@,
                                                g.properties.len() as int,
                                            ),
                                            documentation: documentation_of(g),
                                        },
                                        warnings: findings.warnings,
                                    },
                                )
                            }
                        },
                    },
                },
            },
        },
    }
}

/// The error as the loader reports it: a missing argument is reported as
/// missing from the generator.
pub open spec fn reported(generator: Seq<char>) -> spec_fn(DatamodelErrorView) -> DatamodelErrorView {
    |e: DatamodelErrorView|
        match e {
            DatamodelErrorView::ArgumentNotFound { argument_name, span } => {
                DatamodelErrorView::GeneratorArgumentNotFound {
                    argument_name,
                    generator_name: generator,
                    span,
                }
            },
            other => other,
        }
}

/// The generators and the findings of loading the generators among the
/// first `k` things at the top of a schema.
pub open spec fn loaded(tops: Seq<Top>, features: PreviewFeaturesView, k: int) -> (
    Seq<GeneratorView>,
    DiagnosticsView,
)
    decreases k,
{
    if k <= 0 {
        (Seq::empty(), DiagnosticsView { errors: Seq::empty(), warnings: Seq::empty() })
    } else {
        let (generators, findings) = loaded(tops, features, k - 1);
        match tops[k - 1] {
            Top::Generator(g) => match lifted(g, features) {
                Ok(v) => (
                    generators.push(v.subject),
                    DiagnosticsView { warnings: findings.warnings + v.warnings, ..findings },
                ),
                Err(d) => (
                    generators,
                    DiagnosticsView {
                        errors: findings.errors + d.errors.map_values(reported(g.name.name@)),
                        warnings: findings.warnings + d.warnings,
                    },
                ),
            },
            _ => (generators, findings),
        }
    }
}

/// Is responsible for loading and validating Generators defined in an AST.
pub struct GeneratorLoader {}

impl GeneratorLoader {
    /// Lifts a generator out of its configuration block.
    pub fn lift_generator(ast_generator: &GeneratorConfig, features: &PreviewFeatures) -> (r: Result<
        ValidatedGenerator,
        Diagnostics,
    >)
        ensures
            match r {
                Ok(v) => lifted(*ast_generator, features.deep_view()) == Ok::<
                    ValidatedGeneratorView,
                    DiagnosticsView,
                >(v.deep_view()),
                Err(d) => lifted(*ast_generator, features.deep_view()) == Err::<
                    ValidatedGeneratorView,
                    DiagnosticsView,
                >(d.deep_view()),
            },
    {
        let mut args = Arguments::new(&ast_generator.properties, ast_generator.span);
        let provider: String = match args.arg("provider") {
            Err(e) => {
                return Err(only(e));
            },
            Ok(v) => match v.as_str() {
                Ok(s) => s,
                Err(e) => {
                    return Err(only(e));
                },
            },
        };
        let output: Option<String> = match args.arg("output") {
            Ok(v) => match v.as_str() {
                Ok(s) => Some(s),
                Err(e) => {
                    return Err(only(e));
                },
            },
            Err(_) => None,
        };
        let binary_targets: Vec<String> = match args.arg("binaryTargets") {
            Ok(v) => match str_vec(v.value) {
                Ok(t) => t,
                Err(e) => {
                    return Err(only(e));
                },
            },
            Err(_) => {
                let none: Vec<String> = Vec::new();
                assert(none.deep_view() =~= Seq::<Seq<char>>::empty());
                none
            },
        };
        let preview: Option<ValueValidator<'_>> = match args.arg("previewFeatures") {
            Ok(v) => Some(v),
            Err(_) => match args.arg("experimentalFeatures") {
                Ok(v) => Some(v),
                Err(_) => None,
            },
        };
        let span: Span = match &preview {
            Some(v) => v.span(),
            None => Span::empty(),
        };
        let preview_features: Vec<String> = match &preview {
            Some(v) => match str_vec(v.value) {
                Ok(t) => t,
                Err(e) => {
                    return Err(only(e));
                },
            },
            None => {
                let none: Vec<String> = Vec::new();
                assert(none.deep_view() =~= Seq::<Seq<char>>::empty());
                none
            },
        };
        let diagnostics: Diagnostics = validate_preview_features(&preview_features, span, features);
        if diagnostics.has_errors() {
            return Err(diagnostics);
        }
        Ok(
            ValidatedGenerator {
                subject: Generator {
                    name: ast_generator.name.name.clone(),
                    provider,
                    output,
                    binary_targets,
                    preview_features,
                    config: collect_properties(&ast_generator.properties),
                    documentation: match &ast_generator.documentation {
                        Some(c) => Some(c.text.clone()),
                        None => None,
                    },
                },
                warnings: diagnostics.warnings,
            },
        )
    }

    /// Loads the generators of a schema: all of them where each is valid,
    /// with the warnings; otherwise all that was found wrong.
    #[verifier::loop_isolation(false)]
    pub fn load_generators_from_ast(ast_schema: &SchemaAst, features: &PreviewFeatures) -> (r: Result<
        ValidatedGenerators,
        Diagnostics,
    >)
        ensures
            ({
                let (generators, findings) = loaded(
                    ast_schema.tops@,
                    features.deep_view(),
                    ast_schema.tops.len() as int,
                );
                match r {
                    Ok(v) => !findings.has_errors() && v.deep_view() == (ValidatedGeneratorsView {
                        subject: generators,
                        warnings: findings.warnings,
                    }),
                    Err(d) => findings.has_errors() && d.deep_view() == findings,
                }
            }),
    {
        let ghost fv = features.deep_view();
        let mut generators: Vec<Generator> = Vec::new();
        let mut diagnostics: Diagnostics = Diagnostics::new();
        let mut i: usize = 0;
        assert(generators.deep_view() =~= Seq::<GeneratorView>::empty());
        while i < ast_schema.tops.len()
            invariant
                i <= ast_schema.tops.len(),
                (generators.deep_view(), diagnostics.deep_view()) == loaded(
                    ast_schema.tops@,
                    fv,
                    i as int,
                ),
            decreases ast_schema.tops.len() - i,
        {
            match &ast_schema.tops[i] {
                Top::Generator(gen) => {
                    let ghost d0 = diagnostics.deep_view();
                    let ghost g0 = generators.deep_view();
                    match GeneratorLoader::lift_generator(gen, features) {
                        Ok(loaded_gen) => {
                            let ghost lv = loaded_gen.deep_view();
                            diagnostics.append_warning_vec(loaded_gen.warnings);
                            generators.push(loaded_gen.subject);
                            assert(generators.deep_view() =~= g0.push(lv.subject));
                        },
                        Err(err) => {
                            let ghost ev = err.deep_view();
                            let ghost f = reported(gen.name.name@);
                            let mut k: usize = 0;
                            assert(d0.errors + ev.errors.take(0).map_values(f) =~= d0.errors);
                            while k < err.errors.len()
                                invariant
                                    k <= err.errors.len(),
                                    err.deep_view() == ev,
                                    diagnostics.deep_view() == (DiagnosticsView {
                                        errors: d0.errors + ev.errors.take(k as int).map_values(f),
                                        warnings: d0.warnings,
                                    }),
                                decreases err.errors.len() - k,
                            {
                                proof {
                                    crate::seqs::lemma_map_step(ev.errors, f, k as int);
                                }
                                assert(ev.errors[k as int] == err.errors[k as int].deep_view());
                                let e: DatamodelError = match &err.errors[k] {
                                    DatamodelError::ArgumentNotFound { argument_name, span } => {
                                        DatamodelError::GeneratorArgumentNotFound {
                                            argument_name: argument_name.clone(),
                                            generator_name: gen.name.name.clone(),
                                            span: *span,
                                        }
                                    },
                                    other => other.clone(),
                                };
                                let ghost before = diagnostics.deep_view().errors;
                                diagnostics.push_error(e);
                                assert(before.push(f(ev.errors[k as int])) =~= d0.errors
                                    + ev.errors.take(k as int).map_values(f).push(
                                    f(ev.errors[k as int]),
                                ));
                                k = k + 1;
                            }
                            assert(ev.errors.take(k as int) =~= ev.errors);
                            diagnostics.append_warning_vec(err.warnings);
                        },
                    }
                },
                _ => {},
            }
            i = i + 1;
        }
        if diagnostics.has_errors() {
            Err(diagnostics)
        } else {
            Ok(ValidatedGenerators { subject: generators, warnings: diagnostics.warnings })
        }
    }
}

} // verus!
