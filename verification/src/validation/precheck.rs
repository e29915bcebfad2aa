//! The checks that are made of a schema before anything else: that no name
//! is the name of a scalar type, and that no name stands twice where it
//! must stand once.

use crate::seqs::{
    find, lemma_flat_map_step, lemma_of_nothing, lemma_position_is, lemma_position_none,
    lemma_take_ends,
};
use crate::ast::{
    Argument, ArgumentView, Enum, EnumView, GeneratorConfig, Identifier, IdentifierView, Model,
    ModelView, SchemaAst, SchemaAstView, SourceConfig, Top, TopView,
};
use crate::dml::ScalarType;
use crate::text::{concat, str_eq};
use crate::validation::arguments::checked;
use crate::validation::diagnostics::{DatamodelError, DatamodelErrorView, Diagnostics};
use vstd::prelude::*;
use vstd::string::*;

verus! {

pub type Errors = Seq<DatamodelErrorView>;

impl TopView {
    /// The name of the thing.
    pub open spec fn identifier(self) -> IdentifierView {
        match self {
            TopView::Enum(x) => x.name,
            TopView::Model(x) => x.name,
            TopView::Source(x) => x.name,
            TopView::Generator(x) => x.name,
            TopView::Type(x) => x.name,
        }
    }

    /// The word for the kind of the thing.
    pub open spec fn type_of(self) -> Seq<char> {
        match self {
            TopView::Enum(_) => "enum"@,
            TopView::Model(_) => "model"@,
            TopView::Source(_) => "source"@,
            TopView::Generator(_) => "generator"@,
            TopView::Type(_) => "type"@,
        }
    }

    /// The things among which the name of the thing must be unique: types
    /// (enums, models and type aliases), datasources, or generators.
    pub open spec fn class(self) -> int {
        match self {
            TopView::Source(_) => 1,
            TopView::Generator(_) => 2,
            _ => 0,
        }
    }
}

impl Top {
    /// The name of the thing.
    pub fn identifier(&self) -> (r: &Identifier)
        ensures
            r.deep_view() == self.deep_view().identifier(),
    {
        match self {
            Top::Enum(x) => &x.name,
            Top::Model(x) => &x.name,
            Top::Source(x) => &x.name,
            Top::Generator(x) => &x.name,
            Top::Type(x) => &x.name,
        }
    }

    /// The name of the thing, as a text.
    pub fn name(&self) -> (r: &str)
        ensures
            r@ == self.deep_view().identifier().name,
    {
        self.identifier().name.as_str()
    }

    /// The word for the kind of the thing.
    pub fn get_type(&self) -> (r: &'static str)
        ensures
            r@ == self.deep_view().type_of(),
    {
        match self {
            Top::Enum(_) => "enum",
            Top::Model(_) => "model",
            Top::Source(_) => "source",
            Top::Generator(_) => "generator",
            Top::Type(_) => "type",
        }
    }

    fn class(&self) -> (r: u8)
        ensures
            r as int == self.deep_view().class(),
    {
        match self {
            Top::Source(_) => 1,
            Top::Generator(_) => 2,
            _ => 0,
        }
    }
}

/// The error for a name that is the name of a scalar type.
pub open spec fn reserved_error(id: IdentifierView) -> Errors {
    if ScalarType::of_text(id.name) is Some {
        seq![DatamodelErrorView::ReservedScalarTypeError { scalar_type: id.name, span: id.span }]
    } else {
        Seq::empty()
    }
}

/// Whether a name of the list before the one at `i` is the same name.
pub open spec fn stands_before(names: Seq<Seq<char>>, i: int) -> bool {
    exists|j: int| 0 <= j < i && #[trigger] names[j] == names[i]
}

/// The errors for the names among the first `k` that stand before them in
/// the list, each made by `err` from the position of the name.
pub open spec fn duplicates(names: Seq<Seq<char>>, err: spec_fn(int) -> DatamodelErrorView, k: int) -> Errors
    decreases k,
{
    if k <= 0 {
        Seq::empty()
    } else {
        let before = duplicates(names, err, k - 1);
        if stands_before(names, k - 1) {
            before.push(err(k - 1))
        } else {
            before
        }
    }
}

pub open spec fn value_names(e: EnumView) -> Seq<Seq<char>> {
    Seq::new(e.values.len(), |i: int| e.values[i].name.name)
}

pub open spec fn value_error(e: EnumView) -> spec_fn(int) -> DatamodelErrorView {
    |i: int|
        DatamodelErrorView::DuplicateEnumValueError {
            enum_name: e.name.name,
            value_name: e.values[i].name.name,
            span: e.values[i].span,
        }
}

pub open spec fn field_names(m: ModelView) -> Seq<Seq<char>> {
    Seq::new(m.fields.len(), |i: int| m.fields[i].name.name)
}

pub open spec fn field_error(m: ModelView) -> spec_fn(int) -> DatamodelErrorView {
    |i: int|
        DatamodelErrorView::DuplicateFieldError {
            model_name: m.name.name,
            field_name: m.fields[i].name.name,
            span: m.fields[i].name.span,
        }
}

pub open spec fn key_names(properties: Seq<ArgumentView>) -> Seq<Seq<char>> {
    Seq::new(properties.len(), |i: int| properties[i].name.name)
}

pub open spec fn key_error(
    block: Seq<char>,
    properties: Seq<ArgumentView>,
) -> spec_fn(int) -> DatamodelErrorView {
    |i: int|
        DatamodelErrorView::DuplicateConfigKeyError {
            conf_block_name: block,
            key_name: properties[i].name.name,
            span: properties[i].name.span,
        }
}

/// How an error names a configuration block.
pub open spec fn block_name(kind: Seq<char>, name: Seq<char>) -> Seq<char> {
    kind + " configuration \""@ + name + "\""@
}

/// The errors for the names that stand twice in an enum, a model, a
/// datasource or a generator.
pub open spec fn inner_errors(t: TopView) -> Errors {
    match t {
        TopView::Enum(e) => duplicates(value_names(e), value_error(e), e.values.len() as int),
        TopView::Model(m) => duplicates(field_names(m), field_error(m), m.fields.len() as int),
        TopView::Source(s) => duplicates(
            key_names(s.properties),
            key_error(block_name("datasource"@, s.name.name), s.properties),
            s.properties.len() as int,
        ),
        TopView::Generator(g) => duplicates(
            key_names(g.properties),
            key_error(block_name("generator"@, g.name.name), g.properties),
            g.properties.len() as int,
        ),
        TopView::Type(_) => Seq::empty(),
    }
}

/// The errors that a thing at the top of a schema gives by itself.
pub open spec fn own_errors() -> spec_fn(TopView) -> Errors {
    |t: TopView| reserved_error(t.identifier()) + inner_errors(t)
}

/// The things of the class and the name of `t`.
pub open spec fn rivals(t: TopView) -> spec_fn(TopView) -> bool {
    |x: TopView| x.class() == t.class() && x.identifier().name == t.identifier().name
}

/// The errors for the things of a class among the first `k` whose name a
/// thing of the class before them bears: each names its own kind and the
/// kind of the first thing that bears the name.
pub open spec fn top_duplicates(tops: Seq<TopView>, class: int, k: int) -> Errors
    decreases k,
{
    if k <= 0 {
        Seq::empty()
    } else {
        let before = top_duplicates(tops, class, k - 1);
        let t = tops[k - 1];
        match find(tops.take(k - 1), rivals(t)) {
            Some(existing) => if t.class() == class {
                before.push(
                    DatamodelErrorView::DuplicateTopError {
                        name: t.identifier().name,
                        top_type: t.type_of(),
                        existing_top_type: existing.type_of(),
                        span: t.identifier().span,
                    },
                )
            } else {
                before
            },
            None => before,
        }
    }
}

/// The errors of the check, in the order in which they are reported:
/// first what each thing gives by itself, in the order of the things, then
/// the types that stand twice, then the datasources, then the generators.
pub open spec fn precheck_errors(x: SchemaAstView) -> Errors {
    let n = x.tops.len() as int;
    x.tops.flat_map(own_errors()) + top_duplicates(x.tops, 0, n) + top_duplicates(x.tops, 1, n)
        + top_duplicates(x.tops, 2, n)
}

pub struct Precheck {}

#[verifier::loop_isolation(false)]
fn push_duplicate_values(errors: &mut Vec<DatamodelError>, e: &Enum)
    ensures
        final(errors).deep_view() == old(errors).deep_view() + duplicates(
            value_names(e.deep_view()),
            value_error(e.deep_view()),
            e.values.len() as int,
        ),
{
    let ghost start = errors.deep_view();
    let ghost ev = e.deep_view();
    let ghost names = value_names(ev);
    let ghost err = value_error(ev);
    let mut i: usize = 0;
    assert(start + duplicates(names, err, 0) =~= start);
    while i < e.values.len()
        invariant
            i <= e.values.len(),
            errors.deep_view() == start + duplicates(names, err, i as int),
        decreases e.values.len() - i,
    {
        let mut j: usize = 0;
        let mut found: bool = false;
        while j < i && !found
            invariant
                j <= i,
                !found ==> forall|x: int| 0 <= x < j ==> #[trigger] names[x] != names[i as int],
                found ==> stands_before(names, i as int),
            decreases i - j + if found { 0int } else { 1int },
        {
            assert(ev.values[j as int] == e.values[j as int].deep_view());
            assert(ev.values[i as int] == e.values[i as int].deep_view());
            if e.values[j].name.name == e.values[i].name.name {
                assert(names[j as int] == names[i as int]);
                found = true;
            } else {
                j = j + 1;
            }
        }
        if found {
            let ghost before = errors.deep_view();
            assert(ev.values[i as int] == e.values[i as int].deep_view());
            let error = DatamodelError::DuplicateEnumValueError {
                enum_name: e.name.name.clone(),
                value_name: e.values[i].name.name.clone(),
                span: e.values[i].span,
            };
            let ghost errv = error.deep_view();
            errors.push(error);
            assert(errors.deep_view() =~= before.push(errv));
            assert(before.push(errv) =~= start + duplicates(names, err, i as int).push(errv));
        }
        i = i + 1;
    }
}

#[verifier::loop_isolation(false)]
fn push_duplicate_fields(errors: &mut Vec<DatamodelError>, m: &Model)
    ensures
        final(errors).deep_view() == old(errors).deep_view() + duplicates(
            field_names(m.deep_view()),
            field_error(m.deep_view()),
            m.fields.len() as int,
        ),
{
    let ghost start = errors.deep_view();
    let ghost mv = m.deep_view();
    let ghost names = field_names(mv);
    let ghost err = field_error(mv);
    let mut i: usize = 0;
    assert(start + duplicates(names, err, 0) =~= start);
    while i < m.fields.len()
        invariant
            i <= m.fields.len(),
            errors.deep_view() == start + duplicates(names, err, i as int),
        decreases m.fields.len() - i,
    {
        let mut j: usize = 0;
        let mut found: bool = false;
        while j < i && !found
            invariant
                j <= i,
                !found ==> forall|x: int| 0 <= x < j ==> #[trigger] names[x] != names[i as int],
                found ==> stands_before(names, i as int),
            decreases i - j + if found { 0int } else { 1int },
        {
            assert(mv.fields[j as int] == m.fields[j as int].deep_view());
            assert(mv.fields[i as int] == m.fields[i as int].deep_view());
            if m.fields[j].name.name == m.fields[i].name.name {
                assert(names[j as int] == names[i as int]);
                found = true;
            } else {
                j = j + 1;
            }
        }
        if found {
            let ghost before = errors.deep_view();
            assert(mv.fields[i as int] == m.fields[i as int].deep_view());
            let error = DatamodelError::DuplicateFieldError {
                model_name: m.name.name.clone(),
                field_name: m.fields[i].name.name.clone(),
                span: m.fields[i].name.span,
            };
            let ghost errv = error.deep_view();
            errors.push(error);
            assert(errors.deep_view() =~= before.push(errv));
            assert(before.push(errv) =~= start + duplicates(names, err, i as int).push(errv));
        }
        i = i + 1;
    }
}

#[verifier::loop_isolation(false)]
fn push_duplicate_keys(errors: &mut Vec<DatamodelError>, block: &str, properties: &Vec<Argument>)
    ensures
        final(errors).deep_view() == old(errors).deep_view() + duplicates(
            key_names(properties.deep_view()),
            key_error(block@, properties.deep_view()),
            properties.len() as int,
        ),
{
    let ghost start = errors.deep_view();
    let ghost pv = properties.deep_view();
    let ghost names = key_names(pv);
    let ghost err = key_error(block@, pv);
    let mut i: usize = 0;
    assert(start + duplicates(names, err, 0) =~= start);
    while i < properties.len()
        invariant
            i <= properties.len(),
            errors.deep_view() == start + duplicates(names, err, i as int),
        decreases properties.len() - i,
    {
        let mut j: usize = 0;
        let mut found: bool = false;
        while j < i && !found
            invariant
                j <= i,
                !found ==> forall|x: int| 0 <= x < j ==> #[trigger] names[x] != names[i as int],
                found ==> stands_before(names, i as int),
            decreases i - j + if found { 0int } else { 1int },
        {
            assert(pv[j as int] == properties[j as int].deep_view());
            assert(pv[i as int] == properties[i as int].deep_view());
            if properties[j].name.name == properties[i].name.name {
                assert(names[j as int] == names[i as int]);
                found = true;
            } else {
                j = j + 1;
            }
        }
        if found {
            let ghost before = errors.deep_view();
            assert(pv[i as int] == properties[i as int].deep_view());
            let error = DatamodelError::DuplicateConfigKeyError {
                conf_block_name: block.to_owned(),
                key_name: properties[i].name.name.clone(),
                span: properties[i].name.span,
            };
            let ghost errv = error.deep_view();
            errors.push(error);
            assert(errors.deep_view() =~= before.push(errv));
            assert(before.push(errv) =~= start + duplicates(names, err, i as int).push(errv));
        }
        i = i + 1;
    }
}

fn config_name(kind: &str, name: &str) -> (r: String)
    ensures
        r@ == block_name(kind@, name@),
{
    let mut s: String = concat(kind, " configuration \"");
    s.append(name);
    s.append("\"");
    s
}

impl Precheck {
    /// Reports the name where it is the name of a scalar type.
    pub fn assert_is_not_a_reserved_scalar_type(identifier: &Identifier, errors: &mut Vec<DatamodelError>)
        ensures
            final(errors).deep_view() == old(errors).deep_view() + reserved_error(
                identifier.deep_view(),
            ),
    {
        let ghost before = errors.deep_view();
        match ScalarType::from_str(identifier.name.as_str()) {
            Ok(_) => {
                let error = DatamodelError::ReservedScalarTypeError {
                    scalar_type: identifier.name.clone(),
                    span: identifier.span,
                };
                let ghost ev = error.deep_view();
                errors.push(error);
                assert(errors.deep_view() =~= before + seq![ev]);
            },
            Err(_) => {
                assert(errors.deep_view() =~= before + Errors::empty());
            },
        }
    }

    /// Reports the values of the enum that stand twice.
    pub fn precheck_enum(enum_type: &Enum, errors: &mut Vec<DatamodelError>)
        ensures
            final(errors).deep_view() == old(errors).deep_view() + inner_errors(
                TopView::Enum(enum_type.deep_view()),
            ),
    {
        push_duplicate_values(errors, enum_type);
    }

    /// Reports the fields of the model that stand twice.
    pub fn precheck_model(model: &Model, errors: &mut Vec<DatamodelError>)
        ensures
            final(errors).deep_view() == old(errors).deep_view() + inner_errors(
                TopView::Model(model.deep_view()),
            ),
    {
        push_duplicate_fields(errors, model);
    }

    /// Reports the properties of the generator that stand twice.
    pub fn precheck_generator_config(config: &GeneratorConfig, errors: &mut Vec<DatamodelError>)
        ensures
            final(errors).deep_view() == old(errors).deep_view() + inner_errors(
                TopView::Generator(config.deep_view()),
            ),
    {
        let block: String = config_name("generator", config.name.name.as_str());
        push_duplicate_keys(errors, block.as_str(), &config.properties);
    }

    /// Reports the properties of the datasource that stand twice.
    pub fn precheck_source_config(config: &SourceConfig, errors: &mut Vec<DatamodelError>)
        ensures
            final(errors).deep_view() == old(errors).deep_view() + inner_errors(
                TopView::Source(config.deep_view()),
            ),
    {
        let block: String = config_name("datasource", config.name.name.as_str());
        push_duplicate_keys(errors, block.as_str(), &config.properties);
    }

    /// Checks the schema: success where no name is reserved and none
    /// stands twice, all the errors otherwise.
    #[verifier::loop_isolation(false)]
    pub fn precheck(datamodel: &SchemaAst) -> (r: Result<(), Diagnostics>)
        ensures
            checked(r, precheck_errors(datamodel.deep_view())),
    {
        let ghost tops = datamodel.deep_view().tops;
        let mut errors: Vec<DatamodelError> = Vec::new();
        let mut types: Vec<DatamodelError> = Vec::new();
        let mut sources: Vec<DatamodelError> = Vec::new();
        let mut generators: Vec<DatamodelError> = Vec::new();
        let mut i: usize = 0;
        proof {
            lemma_take_ends(tops);
            lemma_of_nothing(|t: TopView| true, |t: TopView| 0int, own_errors());
            assert(errors.deep_view() =~= Errors::empty());
            assert(types.deep_view() =~= top_duplicates(tops, 0, 0));
            assert(sources.deep_view() =~= top_duplicates(tops, 1, 0));
            assert(generators.deep_view() =~= top_duplicates(tops, 2, 0));
        }
        while i < datamodel.tops.len()
            invariant
                i <= datamodel.tops.len(),
                errors.deep_view() == tops.take(i as int).flat_map(own_errors()),
                types.deep_view() == top_duplicates(tops, 0, i as int),
                sources.deep_view() == top_duplicates(tops, 1, i as int),
                generators.deep_view() == top_duplicates(tops, 2, i as int),
            decreases datamodel.tops.len() - i,
        {
            let top: &Top = &datamodel.tops[i];
            let ghost t = tops[i as int];
            assert(t == top.deep_view());
            let ghost e0 = errors.deep_view();
            proof {
                lemma_flat_map_step(tops, own_errors(), i as int);
            }
            Precheck::assert_is_not_a_reserved_scalar_type(top.identifier(), &mut errors);
            match top {
                Top::Enum(x) => Precheck::precheck_enum(x, &mut errors),
                Top::Model(x) => Precheck::precheck_model(x, &mut errors),
                Top::Type(_) => {
                    assert(errors.deep_view() + Errors::empty() =~= errors.deep_view());
                },
                Top::Source(x) => Precheck::precheck_source_config(x, &mut errors),
                Top::Generator(x) => Precheck::precheck_generator_config(x, &mut errors),
            }
            assert(errors.deep_view() =~= e0 + own_errors()(t));
            let ghost p = rivals(t);
            let ghost earlier = tops.take(i as int);
            let mut existing: Option<&Top> = None;
            let mut j: usize = 0;
            while j < i && existing.is_none()
                invariant
                    j <= i,
                    existing.is_none() ==> forall|x: int| 0 <= x < j ==> !p(#[trigger] earlier[x]),
                    existing.is_some() ==> find(earlier, p) == Some(existing.unwrap().deep_view()),
                decreases i - j + if existing.is_some() { 0int } else { 1int },
            {
                let other: &Top = &datamodel.tops[j];
                assert(earlier[j as int] == other.deep_view());
                if other.class() == top.class() && str_eq(other.name(), top.name()) {
                    proof {
                        lemma_position_is(earlier, p, j as int);
                    }
                    existing = Some(other);
                } else {
                    j = j + 1;
                }
            }
            proof {
                if existing.is_none() {
                    lemma_position_none(earlier, p);
                }
            }
            match existing {
                Some(other) => {
                    let error = DatamodelError::DuplicateTopError {
                        name: top.name().to_owned(),
                        top_type: top.get_type().to_owned(),
                        existing_top_type: other.get_type().to_owned(),
                        span: top.identifier().span,
                    };
                    let ghost ev = error.deep_view();
                    let class: u8 = top.class();
                    if class == 0 {
                        let ghost b = types.deep_view();
                        types.push(error);
                        assert(types.deep_view() =~= b.push(ev));
                    } else if class == 1 {
                        let ghost b = sources.deep_view();
                        sources.push(error);
                        assert(sources.deep_view() =~= b.push(ev));
                    } else {
                        let ghost b = generators.deep_view();
                        generators.push(error);
                        assert(generators.deep_view() =~= b.push(ev));
                    }
                },
                None => {},
            }
            i = i + 1;
        }
        let ghost a = errors.deep_view();
        let ghost b = types.deep_view();
        let ghost c = sources.deep_view();
        let ghost d = generators.deep_view();
        errors.append(&mut types);
        errors.append(&mut sources);
        errors.append(&mut generators);
        assert(errors.deep_view() =~= a + b + c + d);
        let all = Diagnostics { errors, warnings: Vec::new() };
        assert(all.warnings.deep_view() =~= Seq::empty());
        all.to_result()
    }
}

} // verus!
