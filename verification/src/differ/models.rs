//! The steps for the models of a schema.

use crate::ast::{
    Argument, ArgumentView, Attribute, AttributeView, Model, ModelView, SchemaAst, Top, TopView,
};
use crate::differ::directives::{
    created_directive, created_directive_with_arguments, deleted_directive,
    deleted_directive_with_arguments, push_created_directive,
    push_created_directive_with_arguments, push_deleted_directive,
    push_deleted_directive_with_arguments, push_updated_directive, updated_directive,
};
use crate::differ::fields::{created_fields, fields_steps, push_created_fields, push_fields};
use crate::differ::matching::{
    attribute_name, find_attribute, if_absent, if_present, lemma_each_none, lemma_each_step, Steps,
};
use crate::seqs::{any, find, lemma_position_is, lemma_position_none, Same};
use crate::steps::{
    CreateModel, CreateModelView, DeleteModel, DeleteModelView, DirectivePath, DirectivePathView,
    MigrationStep, MigrationStepView,
};
use crate::text::str_eq;
use vstd::prelude::*;
use vstd::string::*;

verus! {

/// Whether a model can carry the attribute more than once: `unique` and
/// `index` are such attributes.
pub open spec fn is_repeated(d: AttributeView) -> bool {
    d.name.name == "unique"@ || d.name.name == "index"@
}

/// Whether a model can carry the attribute more than once.
pub fn directive_is_repeated(directive: &Attribute) -> (r: bool)
    ensures
        r == is_repeated(directive.deep_view()),
{
    str_eq(directive.name.name.as_str(), "unique") || str_eq(
        directive.name.name.as_str(),
        "index",
    )
}

/// Whether a model can carry the attribute only once.
pub fn directive_is_regular(directive: &Attribute) -> (r: bool)
    ensures
        r == !is_repeated(directive.deep_view()),
{
    !directive_is_repeated(directive)
}

/// The arguments of the name and the value of `a`.
pub open spec fn same_argument(a: ArgumentView) -> spec_fn(ArgumentView) -> bool {
    |b: ArgumentView| a.name.name == b.name.name && a.value == b.value
}

/// The arguments that have no argument of the same name and value among `others`.
pub open spec fn unmatched_argument(others: Seq<ArgumentView>) -> spec_fn(ArgumentView) -> bool {
    |a: ArgumentView| !any(others, same_argument(a))
}

/// Whether two attributes have the same name and as many arguments, and
/// each argument of the first has one of the same name and value in the
/// second.
pub open spec fn matches_exactly(previous: AttributeView, next: AttributeView) -> bool {
    previous.name.name == next.name.name && previous.arguments.len() == next.arguments.len()
        && !any(previous.arguments, unmatched_argument(next.arguments))
}

/// The attributes that `previous` matches exactly.
pub open spec fn matched_by(previous: AttributeView) -> spec_fn(AttributeView) -> bool {
    |next: AttributeView| matches_exactly(previous, next)
}

/// The attributes that match `next` exactly.
pub open spec fn matching(next: AttributeView) -> spec_fn(AttributeView) -> bool {
    |previous: AttributeView| matches_exactly(previous, next)
}

/// Whether some argument of the list has the name and the value of `a`.
#[verifier::loop_isolation(false)]
pub fn has_same_argument(others: &Vec<Argument>, a: &Argument) -> (r: bool)
    ensures
        r == any(others.deep_view(), same_argument(a.deep_view())),
{
    let ghost p = same_argument(a.deep_view());
    let mut i: usize = 0;
    while i < others.len()
        invariant
            i <= others.len(),
            forall|j: int| 0 <= j < i ==> !p(#[trigger] others.deep_view()[j]),
        decreases others.len() - i,
    {
        if a.name.name == others[i].name.name && a.value.same(&others[i].value) {
            proof {
                lemma_position_is(others.deep_view(), p, i as int);
            }
            return true;
        }
        i = i + 1;
    }
    proof {
        lemma_position_none(others.deep_view(), p);
    }
    false
}

/// Whether two attributes match exactly.
#[verifier::loop_isolation(false)]
pub fn directives_match_exactly(previous: &Attribute, next: &Attribute) -> (r: bool)
    ensures
        r == matches_exactly(previous.deep_view(), next.deep_view()),
{
    if previous.name.name != next.name.name || previous.arguments.len() != next.arguments.len() {
        return false;
    }
    let ghost p = unmatched_argument(next.deep_view().arguments);
    let mut i: usize = 0;
    while i < previous.arguments.len()
        invariant
            i <= previous.arguments.len(),
            forall|j: int| 0 <= j < i ==> !p(#[trigger] previous.deep_view().arguments[j]),
        decreases previous.arguments.len() - i,
    {
        if !has_same_argument(&next.arguments, &previous.arguments[i]) {
            proof {
                lemma_position_is(previous.deep_view().arguments, p, i as int);
            }
            return false;
        }
        i = i + 1;
    }
    proof {
        lemma_position_none(previous.deep_view().arguments, p);
    }
    true
}

/// The steps `f` for an attribute that a model can carry only once.
pub open spec fn regular(f: spec_fn(AttributeView) -> Steps) -> spec_fn(AttributeView) -> Steps {
    |d: AttributeView|
        if is_repeated(d) {
            Seq::empty()
        } else {
            f(d)
        }
}

/// The steps `f` for an attribute that a model can carry more than once.
pub open spec fn repeated(f: spec_fn(AttributeView) -> Steps) -> spec_fn(AttributeView) -> Steps {
    |d: AttributeView|
        if is_repeated(d) {
            f(d)
        } else {
            Seq::empty()
        }
}

/// The steps `f` for a repeatable attribute of the later schema that no
/// attribute of the earlier one matches exactly.
pub open spec fn repeated_created(
    previous: Seq<AttributeView>,
    f: spec_fn(AttributeView) -> Steps,
) -> spec_fn(AttributeView) -> Steps {
    |d: AttributeView|
        if is_repeated(d) && !any(previous, matching(d)) {
            f(d)
        } else {
            Seq::empty()
        }
}

/// The steps `f` for a repeatable attribute of the earlier schema that
/// matches no attribute of the later one exactly.
pub open spec fn repeated_deleted(
    next: Seq<AttributeView>,
    f: spec_fn(AttributeView) -> Steps,
) -> spec_fn(AttributeView) -> Steps {
    |d: AttributeView|
        if is_repeated(d) && !any(next, matched_by(d)) {
            f(d)
        } else {
            Seq::empty()
        }
}

/// The path of the attributes of a model.
pub open spec fn model_path(m: ModelView) -> DirectivePathView {
    DirectivePathView::Model { model: m.name.name, arguments: None }
}

/// The steps that create a model: one for the model, then those for its
/// fields, then those for its attributes, the repeatable ones last.
pub open spec fn created_model(m: ModelView) -> Steps {
    seq![MigrationStepView::CreateModel(CreateModelView { model: m.name.name })] + created_fields(
        m.name.name,
        m.fields,
    ) + m.attributes.flat_map(regular(created_directive(model_path(m)))) + m.attributes.flat_map(
        repeated(created_directive_with_arguments(model_path(m))),
    )
}

/// The step that deletes a model.
pub open spec fn deleted_model(m: ModelView) -> Steps {
    seq![MigrationStepView::DeleteModel(DeleteModelView { model: m.name.name })]
}

/// The steps for a model that both schemas have: those for its fields,
/// then those for its attributes.
pub open spec fn updated_model(previous: ModelView, next: ModelView) -> Steps {
    let path = model_path(previous);
    fields_steps(previous.name.name, previous.fields, next.fields) + next.attributes.flat_map(
        regular(if_absent(previous.attributes, attribute_name(), created_directive(path))),
    ) + previous.attributes.flat_map(
        regular(if_present(next.attributes, attribute_name(), updated_directive(path))),
    ) + previous.attributes.flat_map(
        regular(if_absent(next.attributes, attribute_name(), deleted_directive(path))),
    ) + next.attributes.flat_map(
        repeated_created(previous.attributes, created_directive_with_arguments(path)),
    ) + previous.attributes.flat_map(
        repeated_deleted(next.attributes, deleted_directive_with_arguments(path)),
    )
}

/// The models of the given name among the things at the top of a schema.
pub open spec fn model_named(name: Seq<char>) -> spec_fn(TopView) -> bool {
    |t: TopView|
        match t {
            TopView::Model(m) => m.name.name == name,
            _ => false,
        }
}

/// The first model of that name.
pub open spec fn find_model(tops: Seq<TopView>, name: Seq<char>) -> Option<ModelView> {
    match find(tops, model_named(name)) {
        Some(TopView::Model(m)) => Some(m),
        _ => None,
    }
}

/// The steps for a model of the later schema that the earlier one lacks.
pub open spec fn created_model_top(previous: Seq<TopView>) -> spec_fn(TopView) -> Steps {
    |t: TopView|
        match t {
            TopView::Model(m) => if find_model(previous, m.name.name) is Some {
                Seq::empty()
            } else {
                created_model(m)
            },
            _ => Seq::empty(),
        }
}

/// The steps for a model of the earlier schema that the later one lacks.
pub open spec fn deleted_model_top(next: Seq<TopView>) -> spec_fn(TopView) -> Steps {
    |t: TopView|
        match t {
            TopView::Model(m) => if find_model(next, m.name.name) is Some {
                Seq::empty()
            } else {
                deleted_model(m)
            },
            _ => Seq::empty(),
        }
}

/// The steps for a model of the earlier schema that the later one has too.
pub open spec fn updated_model_top(next: Seq<TopView>) -> spec_fn(TopView) -> Steps {
    |t: TopView|
        match t {
            TopView::Model(m) => match find_model(next, m.name.name) {
                Some(n) => updated_model(m, n),
                None => Seq::empty(),
            },
            _ => Seq::empty(),
        }
}

/// The steps for the models of two schemas: first for the models that only
/// the later one has, then for those that only the earlier one has, then
/// for those that both have.
pub open spec fn models_steps(previous: Seq<TopView>, next: Seq<TopView>) -> Steps {
    next.flat_map(created_model_top(previous)) + previous.flat_map(deleted_model_top(next))
        + previous.flat_map(updated_model_top(next))
}

impl SchemaAst {
    /// The first model of that name.
    #[verifier::loop_isolation(false)]
    pub fn find_model(&self, name: &str) -> (r: Option<&Model>)
        ensures
            r.deep_view() == find_model(self.deep_view().tops, name@),
    {
        let ghost p = model_named(name@);
        let mut i: usize = 0;
        while i < self.tops.len()
            invariant
                i <= self.tops.len(),
                forall|j: int| 0 <= j < i ==> !p(#[trigger] self.deep_view().tops[j]),
            decreases self.tops.len() - i,
        {
            match &self.tops[i] {
                Top::Model(m) => {
                    if str_eq(m.name.name.as_str(), name) {
                        proof {
                            lemma_position_is(self.deep_view().tops, p, i as int);
                        }
                        return Some(m);
                    }
                },
                _ => {},
            }
            i = i + 1;
        }
        proof {
            lemma_position_none(self.deep_view().tops, p);
        }
        None
    }
}

#[verifier::loop_isolation(false)]
pub fn push_created_model(steps: &mut Vec<MigrationStep>, model: &Model)
    ensures
        final(steps).deep_view() == old(steps).deep_view() + created_model(model.deep_view()),
{
    let ghost before = steps.deep_view();
    let ghost m = model.deep_view();
    let path = DirectivePath::Model { model: model.name.name.clone(), arguments: None };
    assert(path.deep_view() == model_path(m));
    steps.push(MigrationStep::CreateModel(CreateModel { model: model.name.name.clone() }));
    push_created_fields(steps, model.name.name.as_str(), &model.fields);
    let ghost after_fields = steps.deep_view();
    let ghost f = regular(created_directive(model_path(m)));
    let ghost g = repeated(created_directive_with_arguments(model_path(m)));
    proof {
        lemma_each_none(m.attributes, f);
        lemma_each_none(m.attributes, g);
    }
    let mut i: usize = 0;
    while i < model.attributes.len()
        invariant
            i <= model.attributes.len(),
            steps.deep_view() == after_fields + m.attributes.take(i as int).flat_map(f),
        decreases model.attributes.len() - i,
    {
        proof {
            lemma_each_step(m.attributes, f, i as int);
        }
        if directive_is_regular(&model.attributes[i]) {
            push_created_directive(steps, &path, &model.attributes[i]);
        }
        i = i + 1;
    }
    let ghost after_regular = steps.deep_view();
    let mut i: usize = 0;
    while i < model.attributes.len()
        invariant
            i <= model.attributes.len(),
            steps.deep_view() == after_regular + m.attributes.take(i as int).flat_map(g),
        decreases model.attributes.len() - i,
    {
        proof {
            lemma_each_step(m.attributes, g, i as int);
        }
        if directive_is_repeated(&model.attributes[i]) {
            push_created_directive_with_arguments(steps, &path, &model.attributes[i]);
        }
        i = i + 1;
    }
    assert(steps.deep_view() =~= before + created_model(m));
}

pub fn push_deleted_model(steps: &mut Vec<MigrationStep>, model: &Model)
    ensures
        final(steps).deep_view() == old(steps).deep_view() + deleted_model(model.deep_view()),
{
    let ghost before = steps.deep_view();
    steps.push(MigrationStep::DeleteModel(DeleteModel { model: model.name.name.clone() }));
    assert(steps.deep_view() =~= before + deleted_model(model.deep_view()));
}

/// Whether some attribute of the list matches `next` exactly.
#[verifier::loop_isolation(false)]
fn some_matching(previous: &Vec<Attribute>, next: &Attribute) -> (r: bool)
    ensures
        r == any(previous.deep_view(), matching(next.deep_view())),
{
    let ghost p = matching(next.deep_view());
    let mut i: usize = 0;
    while i < previous.len()
        invariant
            i <= previous.len(),
            forall|j: int| 0 <= j < i ==> !p(#[trigger] previous.deep_view()[j]),
        decreases previous.len() - i,
    {
        if directives_match_exactly(&previous[i], next) {
            proof {
                lemma_position_is(previous.deep_view(), p, i as int);
            }
            return true;
        }
        i = i + 1;
    }
    proof {
        lemma_position_none(previous.deep_view(), p);
    }
    false
}

/// Whether `previous` matches some attribute of the list exactly.
#[verifier::loop_isolation(false)]
fn some_matched_by(next: &Vec<Attribute>, previous: &Attribute) -> (r: bool)
    ensures
        r == any(next.deep_view(), matched_by(previous.deep_view())),
{
    let ghost p = matched_by(previous.deep_view());
    let mut i: usize = 0;
    while i < next.len()
        invariant
            i <= next.len(),
            forall|j: int| 0 <= j < i ==> !p(#[trigger] next.deep_view()[j]),
        decreases next.len() - i,
    {
        if directives_match_exactly(previous, &next[i]) {
            proof {
                lemma_position_is(next.deep_view(), p, i as int);
            }
            return true;
        }
        i = i + 1;
    }
    proof {
        lemma_position_none(next.deep_view(), p);
    }
    false
}

#[verifier::loop_isolation(false)]
pub fn push_updated_model(steps: &mut Vec<MigrationStep>, previous: &Model, next: &Model)
    ensures
        final(steps).deep_view() == old(steps).deep_view() + updated_model(
            previous.deep_view(),
            next.deep_view(),
        ),
{
    let ghost before = steps.deep_view();
    let ghost p = previous.deep_view();
    let ghost n = next.deep_view();
    let ghost pv = model_path(p);
    let path = DirectivePath::Model { model: previous.name.name.clone(), arguments: None };
    assert(path.deep_view() == pv);
    let ghost created = regular(if_absent(p.attributes, attribute_name(), created_directive(pv)));
    let ghost updated = regular(if_present(n.attributes, attribute_name(), updated_directive(pv)));
    let ghost deleted = regular(if_absent(n.attributes, attribute_name(), deleted_directive(pv)));
    let ghost created_again = repeated_created(
        p.attributes,
        created_directive_with_arguments(pv),
    );
    let ghost deleted_again = repeated_deleted(
        n.attributes,
        deleted_directive_with_arguments(pv),
    );
    proof {
        lemma_each_none(n.attributes, created);
        lemma_each_none(p.attributes, updated);
        lemma_each_none(p.attributes, deleted);
        lemma_each_none(n.attributes, created_again);
        lemma_each_none(p.attributes, deleted_again);
    }
    push_fields(steps, previous.name.name.as_str(), &previous.fields, &next.fields);
    let ghost s0 = steps.deep_view();
    let mut i: usize = 0;
    while i < next.attributes.len()
        invariant
            i <= next.attributes.len(),
            steps.deep_view() == s0 + n.attributes.take(i as int).flat_map(created),
        decreases next.attributes.len() - i,
    {
        proof {
            lemma_each_step(n.attributes, created, i as int);
        }
        let d: &Attribute = &next.attributes[i];
        if directive_is_regular(d) && find_attribute(
            &previous.attributes,
            d.name.name.as_str(),
        ).is_none() {
            push_created_directive(steps, &path, d);
        }
        i = i + 1;
    }
    let ghost s1 = steps.deep_view();
    let mut i: usize = 0;
    while i < previous.attributes.len()
        invariant
            i <= previous.attributes.len(),
            steps.deep_view() == s1 + p.attributes.take(i as int).flat_map(updated),
        decreases previous.attributes.len() - i,
    {
        proof {
            lemma_each_step(p.attributes, updated, i as int);
        }
        let d: &Attribute = &previous.attributes[i];
        if directive_is_regular(d) {
            match find_attribute(&next.attributes, d.name.name.as_str()) {
                Some(counterpart) => {
                    push_updated_directive(steps, &path, d, counterpart);
                },
                None => {},
            }
        }
        i = i + 1;
    }
    let ghost s2 = steps.deep_view();
    let mut i: usize = 0;
    while i < previous.attributes.len()
        invariant
            i <= previous.attributes.len(),
            steps.deep_view() == s2 + p.attributes.take(i as int).flat_map(deleted),
        decreases previous.attributes.len() - i,
    {
        proof {
            lemma_each_step(p.attributes, deleted, i as int);
        }
        let d: &Attribute = &previous.attributes[i];
        if directive_is_regular(d) && find_attribute(&next.attributes, d.name.name.as_str()).is_none() {
            push_deleted_directive(steps, &path, d);
        }
        i = i + 1;
    }
    let ghost s3 = steps.deep_view();
    let mut i: usize = 0;
    while i < next.attributes.len()
        invariant
            i <= next.attributes.len(),
            steps.deep_view() == s3 + n.attributes.take(i as int).flat_map(created_again),
        decreases next.attributes.len() - i,
    {
        proof {
            lemma_each_step(n.attributes, created_again, i as int);
        }
        let d: &Attribute = &next.attributes[i];
        if directive_is_repeated(d) && !some_matching(&previous.attributes, d) {
            push_created_directive_with_arguments(steps, &path, d);
        }
        i = i + 1;
    }
    let ghost s4 = steps.deep_view();
    let mut i: usize = 0;
    while i < previous.attributes.len()
        invariant
            i <= previous.attributes.len(),
            steps.deep_view() == s4 + p.attributes.take(i as int).flat_map(deleted_again),
        decreases previous.attributes.len() - i,
    {
        proof {
            lemma_each_step(p.attributes, deleted_again, i as int);
        }
        let d: &Attribute = &previous.attributes[i];
        if directive_is_repeated(d) && !some_matched_by(&next.attributes, d) {
            push_deleted_directive_with_arguments(steps, &path, d);
        }
        i = i + 1;
    }
    assert(steps.deep_view() =~= before + updated_model(p, n));
}

/// Pushes the steps for the models of two schemas.
#[verifier::loop_isolation(false)]
pub fn push_models(steps: &mut Vec<MigrationStep>, previous: &SchemaAst, next: &SchemaAst)
    ensures
        final(steps).deep_view() == old(steps).deep_view() + models_steps(
            previous.deep_view().tops,
            next.deep_view().tops,
        ),
{
    let ghost before = steps.deep_view();
    let ghost p = previous.deep_view().tops;
    let ghost n = next.deep_view().tops;
    let ghost created = created_model_top(p);
    let ghost deleted = deleted_model_top(n);
    let ghost updated = updated_model_top(n);
    proof {
        lemma_each_none(n, created);
        lemma_each_none(p, deleted);
        lemma_each_none(p, updated);
    }
    let mut i: usize = 0;
    while i < next.tops.len()
        invariant
            i <= next.tops.len(),
            steps.deep_view() == before + n.take(i as int).flat_map(created),
        decreases next.tops.len() - i,
    {
        proof {
            lemma_each_step(n, created, i as int);
        }
        match &next.tops[i] {
            Top::Model(m) => {
                if previous.find_model(m.name.name.as_str()).is_none() {
                    push_created_model(steps, m);
                }
            },
            _ => {},
        }
        i = i + 1;
    }
    let ghost s1 = steps.deep_view();
    let mut i: usize = 0;
    while i < previous.tops.len()
        invariant
            i <= previous.tops.len(),
            steps.deep_view() == s1 + p.take(i as int).flat_map(deleted),
        decreases previous.tops.len() - i,
    {
        proof {
            lemma_each_step(p, deleted, i as int);
        }
        match &previous.tops[i] {
            Top::Model(m) => {
                if next.find_model(m.name.name.as_str()).is_none() {
                    push_deleted_model(steps, m);
                }
            },
            _ => {},
        }
        i = i + 1;
    }
    let ghost s2 = steps.deep_view();
    let mut i: usize = 0;
    while i < previous.tops.len()
        invariant
            i <= previous.tops.len(),
            steps.deep_view() == s2 + p.take(i as int).flat_map(updated),
        decreases previous.tops.len() - i,
    {
        proof {
            lemma_each_step(p, updated, i as int);
        }
        match &previous.tops[i] {
            Top::Model(m) => {
                match next.find_model(m.name.name.as_str()) {
                    Some(counterpart) => {
                        push_updated_model(steps, m, counterpart);
                    },
                    None => {},
                }
            },
            _ => {},
        }
        i = i + 1;
    }
}

} // verus!
