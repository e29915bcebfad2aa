//! The steps for the fields of a model.

use crate::ast::{Field, FieldArity, FieldView};
use crate::differ::directives::{
    created_directives, directives_steps, push_created_directives, push_directives,
};
use crate::differ::matching::{
    field_name, find_field, if_absent, if_present, lemma_each_none, lemma_each_step, Steps,
};
use crate::steps::{
    CreateField, CreateFieldView, DeleteField, DeleteFieldView, DirectivePath, DirectivePathView,
    MigrationStep, MigrationStepView, UpdateField, UpdateFieldView,
};
use crate::text::str_eq;
use vstd::prelude::*;
use vstd::string::*;

verus! {

/// The later text where it differs from the earlier one.
pub open spec fn changed_text(current: Seq<char>, updated: Seq<char>) -> Option<Seq<char>> {
    if current == updated {
        None
    } else {
        Some(updated)
    }
}

/// The later arity where it differs from the earlier one.
pub open spec fn changed_arity(current: FieldArity, updated: FieldArity) -> Option<FieldArity> {
    if current == updated {
        None
    } else {
        Some(updated)
    }
}

/// The later text where it differs from the earlier one.
pub fn diff_value(current: &str, updated: &str) -> (r: Option<String>)
    ensures
        r.deep_view() == changed_text(current@, updated@),
{
    if str_eq(current, updated) {
        None
    } else {
        Some(updated.to_owned())
    }
}

/// The later arity where it differs from the earlier one.
pub fn diff_arity(current: FieldArity, updated: FieldArity) -> (r: Option<FieldArity>)
    ensures
        r == changed_arity(current, updated),
{
    if current == updated {
        None
    } else {
        Some(updated)
    }
}

/// The path of the attributes of a field.
pub open spec fn field_path(model: Seq<char>, f: FieldView) -> DirectivePathView {
    DirectivePathView::Field { model, field: f.name.name }
}

/// The steps that create a field: one for the field, then those for its
/// attributes.
pub open spec fn created_field(model: Seq<char>) -> spec_fn(FieldView) -> Steps {
    |f: FieldView|
        seq![
            MigrationStepView::CreateField(
                CreateFieldView {
                    model,
                    field: f.name.name,
                    tpe: f.field_type.name,
                    arity: f.arity,
                },
            ),
        ] + created_directives(field_path(model, f), f.attributes)
}

/// The step that deletes a field.
pub open spec fn deleted_field(model: Seq<char>) -> spec_fn(FieldView) -> Steps {
    |f: FieldView|
        seq![MigrationStepView::DeleteField(DeleteFieldView { model, field: f.name.name })]
}

/// What an update of a field to its counterpart changes.
pub open spec fn field_update(model: Seq<char>, previous: FieldView, next: FieldView) -> UpdateFieldView {
    UpdateFieldView {
        model,
        field: previous.name.name,
        new_name: changed_text(previous.name.name, next.name.name),
        tpe: changed_text(previous.field_type.name, next.field_type.name),
        arity: changed_arity(previous.arity, next.arity),
    }
}

/// The steps for a field that both schemas have: one that updates the
/// field, where its type or arity changed, then those for its attributes.
pub open spec fn updated_field(model: Seq<char>) -> spec_fn(FieldView, FieldView) -> Steps {
    |previous: FieldView, next: FieldView|
        {
            let update = field_update(model, previous, next);
            (if update.is_any_option_set() {
                seq![MigrationStepView::UpdateField(update)]
            } else {
                Seq::empty()
            }) + directives_steps(field_path(model, previous), previous.attributes, next.attributes)
        }
}

/// The steps that create all the given fields.
pub open spec fn created_fields(model: Seq<char>, fields: Seq<FieldView>) -> Steps {
    fields.flat_map(created_field(model))
}

/// The steps for the fields of a model that both schemas have: first for
/// the fields that only the later one has, then for those that only the
/// earlier one has, then for those that both have.
pub open spec fn fields_steps(model: Seq<char>, previous: Seq<FieldView>, next: Seq<FieldView>) -> Steps {
    next.flat_map(if_absent(previous, field_name(), created_field(model))) + previous.flat_map(
        if_absent(next, field_name(), deleted_field(model)),
    ) + previous.flat_map(if_present(next, field_name(), updated_field(model)))
}

pub fn push_created_field(steps: &mut Vec<MigrationStep>, model_name: &str, field: &Field)
    ensures
        final(steps).deep_view() == old(steps).deep_view() + created_field(model_name@)(
            field.deep_view(),
        ),
{
    let ghost before = steps.deep_view();
    let step = CreateField {
        model: model_name.to_owned(),
        field: field.name.name.clone(),
        tpe: field.field_type.name.clone(),
        arity: field.arity,
    };
    steps.push(MigrationStep::CreateField(step));
    let ghost first = steps.deep_view();
    let path = DirectivePath::Field {
        model: model_name.to_owned(),
        field: field.name.name.clone(),
    };
    push_created_directives(steps, &path, &field.attributes);
    assert(steps.deep_view() =~= before + created_field(model_name@)(field.deep_view()));
}

pub fn push_deleted_field(steps: &mut Vec<MigrationStep>, model_name: &str, field: &Field)
    ensures
        final(steps).deep_view() == old(steps).deep_view() + deleted_field(model_name@)(
            field.deep_view(),
        ),
{
    let ghost before = steps.deep_view();
    let step = DeleteField { model: model_name.to_owned(), field: field.name.name.clone() };
    steps.push(MigrationStep::DeleteField(step));
    assert(steps.deep_view() =~= before + deleted_field(model_name@)(field.deep_view()));
}

pub fn push_updated_field(
    steps: &mut Vec<MigrationStep>,
    model_name: &str,
    previous: &Field,
    next: &Field,
)
    ensures
        final(steps).deep_view() == old(steps).deep_view() + updated_field(model_name@)(
            previous.deep_view(),
            next.deep_view(),
        ),
{
    let ghost before = steps.deep_view();
    let step = UpdateField {
        model: model_name.to_owned(),
        field: previous.name.name.clone(),
        new_name: diff_value(previous.name.name.as_str(), next.name.name.as_str()),
        tpe: diff_value(previous.field_type.name.as_str(), next.field_type.name.as_str()),
        arity: diff_arity(previous.arity, next.arity),
    };
    assert(step.deep_view() == field_update(model_name@, previous.deep_view(), next.deep_view()));
    if step.is_any_option_set() {
        steps.push(MigrationStep::UpdateField(step));
    }
    let path = DirectivePath::Field {
        model: model_name.to_owned(),
        field: previous.name.name.clone(),
    };
    push_directives(steps, &path, &previous.attributes, &next.attributes);
    assert(steps.deep_view() =~= before + updated_field(model_name@)(
        previous.deep_view(),
        next.deep_view(),
    ));
}

/// Pushes the steps that create all the given fields.
#[verifier::loop_isolation(false)]
pub fn push_created_fields(steps: &mut Vec<MigrationStep>, model_name: &str, fields: &Vec<Field>)
    ensures
        final(steps).deep_view() == old(steps).deep_view() + created_fields(
            model_name@,
            fields.deep_view(),
        ),
{
    let ghost before = steps.deep_view();
    let ghost f = created_field(model_name@);
    let ghost a = fields.deep_view();
    proof {
        lemma_each_none(a, f);
    }
    let mut i: usize = 0;
    while i < fields.len()
        invariant
            i <= fields.len(),
            steps.deep_view() == before + a.take(i as int).flat_map(f),
        decreases fields.len() - i,
    {
        proof {
            lemma_each_step(a, f, i as int);
        }
        push_created_field(steps, model_name, &fields[i]);
        i = i + 1;
    }
}

/// Pushes the steps for the fields of a model that both schemas have.
#[verifier::loop_isolation(false)]
pub fn push_fields(
    steps: &mut Vec<MigrationStep>,
    model_name: &str,
    previous: &Vec<Field>,
    next: &Vec<Field>,
)
    ensures
        final(steps).deep_view() == old(steps).deep_view() + fields_steps(
            model_name@,
            previous.deep_view(),
            next.deep_view(),
        ),
{
    let ghost before = steps.deep_view();
    let ghost p = previous.deep_view();
    let ghost n = next.deep_view();
    let ghost created = if_absent(p, field_name(), created_field(model_name@));
    let ghost deleted = if_absent(n, field_name(), deleted_field(model_name@));
    let ghost updated = if_present(n, field_name(), updated_field(model_name@));
    proof {
        lemma_each_none(n, created);
        lemma_each_none(p, deleted);
        lemma_each_none(p, updated);
    }
    let mut i: usize = 0;
    while i < next.len()
        invariant
            i <= next.len(),
            steps.deep_view() == before + n.take(i as int).flat_map(created),
        decreases next.len() - i,
    {
        proof {
            lemma_each_step(n, created, i as int);
        }
        if find_field(previous, next[i].name.name.as_str()).is_none() {
            push_created_field(steps, model_name, &next[i]);
        }
        i = i + 1;
    }
    let ghost after_created = steps.deep_view();
    let mut i: usize = 0;
    while i < previous.len()
        invariant
            i <= previous.len(),
            steps.deep_view() == after_created + p.take(i as int).flat_map(deleted),
        decreases previous.len() - i,
    {
        proof {
            lemma_each_step(p, deleted, i as int);
        }
        if find_field(next, previous[i].name.name.as_str()).is_none() {
            push_deleted_field(steps, model_name, &previous[i]);
        }
        i = i + 1;
    }
    let ghost after_deleted = steps.deep_view();
    let mut i: usize = 0;
    while i < previous.len()
        invariant
            i <= previous.len(),
            steps.deep_view() == after_deleted + p.take(i as int).flat_map(updated),
        decreases previous.len() - i,
    {
        proof {
            lemma_each_step(p, updated, i as int);
        }
        match find_field(next, previous[i].name.name.as_str()) {
            Some(counterpart) => {
                push_updated_field(steps, model_name, &previous[i], counterpart);
            },
            None => {},
        }
        i = i + 1;
    }
}

} // verus!
