//! The steps for the enums of a schema.

use crate::ast::{Enum, EnumValue, EnumValueView, EnumView, SchemaAst, Top, TopView};
use crate::differ::directives::{
    created_directives, directives_steps, push_created_directives, push_directives,
};
use crate::differ::fields::{changed_text, diff_value};
use crate::differ::matching::{
    find_value, if_absent, if_present, lemma_each_none, lemma_each_step, lookup, value_name, Steps,
};
use crate::seqs::{find, lemma_filter_map_step, lemma_map_step, lemma_position_is, lemma_position_none};
use crate::steps::{
    CreateEnum, CreateEnumView, DeleteEnum, DeleteEnumView, DirectivePath, DirectivePathView,
    MigrationStep, MigrationStepView, UpdateEnum, UpdateEnumView,
};
use crate::text::str_eq;
use vstd::prelude::*;
use vstd::string::*;

verus! {

/// The path of the attributes of an enum.
pub open spec fn enum_path(e: EnumView) -> DirectivePathView {
    DirectivePathView::Enum { enum_name: e.name.name }
}

/// The path of the attributes of a value of an enum.
pub open spec fn value_path(enum_name: Seq<char>, v: EnumValueView) -> DirectivePathView {
    DirectivePathView::EnumValue { enum_name, value: v.name.name }
}

/// The steps that create the attributes of a value.
pub open spec fn created_value_directives(enum_name: Seq<char>) -> spec_fn(EnumValueView) -> Steps {
    |v: EnumValueView| created_directives(value_path(enum_name, v), v.attributes)
}

/// The steps that create an enum: one for the enum with its values, then
/// those for its attributes, then those for the attributes of its values.
pub open spec fn created_enum(e: EnumView) -> Steps {
    seq![
        MigrationStepView::CreateEnum(
            CreateEnumView { enum_name: e.name.name, values: e.values.map_values(value_name()) },
        ),
    ] + created_directives(enum_path(e), e.attributes) + e.values.flat_map(
        created_value_directives(e.name.name),
    )
}

/// The step that deletes an enum.
pub open spec fn deleted_enum(e: EnumView) -> Steps {
    seq![MigrationStepView::DeleteEnum(DeleteEnumView { enum_name: e.name.name })]
}

/// The steps for a value that both schemas have: those for its attributes.
pub open spec fn updated_value(enum_name: Seq<char>) -> spec_fn(EnumValueView, EnumValueView) -> Steps {
    |previous: EnumValueView, next: EnumValueView|
        directives_steps(value_path(enum_name, next), previous.attributes, next.attributes)
}

/// The values that have no counterpart among `others`.
pub open spec fn value_absent(others: Seq<EnumValueView>) -> spec_fn(EnumValueView) -> bool {
    |v: EnumValueView| lookup(others, value_name(), v.name.name) is None
}

/// What an update of an enum to its counterpart changes: the values that
/// only the later one has and those that only the earlier one has, each in
/// the order of the enum that has them. The order of the values that both
/// have is no part of it.
pub open spec fn enum_update(previous: EnumView, next: EnumView) -> UpdateEnumView {
    UpdateEnumView {
        enum_name: previous.name.name,
        new_name: changed_text(previous.name.name, next.name.name),
        created_values: next.values.filter(value_absent(previous.values)).map_values(value_name()),
        deleted_values: previous.values.filter(value_absent(next.values)).map_values(value_name()),
    }
}

/// The steps for an enum that both schemas have: those for the attributes
/// of the values that were created, then those for the values that both
/// have, then one that updates the enum, where values came or went, then
/// those for the attributes of the enum.
pub open spec fn updated_enum(previous: EnumView, next: EnumView) -> Steps {
    let update = enum_update(previous, next);
    next.values.flat_map(
        if_absent(previous.values, value_name(), created_value_directives(next.name.name)),
    ) + previous.values.flat_map(
        if_present(next.values, value_name(), updated_value(next.name.name)),
    ) + (if update.is_any_option_set() {
        seq![MigrationStepView::UpdateEnum(update)]
    } else {
        Seq::empty()
    }) + directives_steps(enum_path(previous), previous.attributes, next.attributes)
}

/// The names of the values of an enum.
#[verifier::loop_isolation(false)]
pub fn value_names(values: &Vec<EnumValue>) -> (r: Vec<String>)
    ensures
        r.deep_view() == values.deep_view().map_values(value_name()),
{
    let mut out: Vec<String> = Vec::new();
    let mut i: usize = 0;
    while i < values.len()
        invariant
            i <= values.len(),
            out.deep_view() == values.deep_view().take(i as int).map_values(value_name()),
        decreases values.len() - i,
    {
        let ghost before = out.deep_view();
        out.push(values[i].name.name.clone());
        proof {
            lemma_map_step(values.deep_view(), value_name(), i as int);
            assert(out.deep_view() =~= before.push(values[i as int].name.name@));
        }
        i = i + 1;
    }
    assert(values.deep_view().take(i as int) =~= values.deep_view());
    out
}

/// The names of the values that have no counterpart among `others`.
#[verifier::loop_isolation(false)]
pub fn absent_value_names(values: &Vec<EnumValue>, others: &Vec<EnumValue>) -> (r: Vec<String>)
    ensures
        r.deep_view() == values.deep_view().filter(value_absent(others.deep_view())).map_values(
            value_name(),
        ),
{
    let ghost p = value_absent(others.deep_view());
    let mut out: Vec<String> = Vec::new();
    let mut i: usize = 0;
    while i < values.len()
        invariant
            i <= values.len(),
            out.deep_view() == values.deep_view().take(i as int).filter(p).map_values(value_name()),
        decreases values.len() - i,
    {
        let ghost before = out.deep_view();
        proof {
            lemma_filter_map_step(values.deep_view(), p, value_name(), i as int);
        }
        if find_value(others, values[i].name.name.as_str()).is_none() {
            out.push(values[i].name.name.clone());
            assert(out.deep_view() =~= before.push(values[i as int].name.name@));
        }
        i = i + 1;
    }
    assert(values.deep_view().take(i as int) =~= values.deep_view());
    out
}

#[verifier::loop_isolation(false)]
pub fn push_created_enum(steps: &mut Vec<MigrationStep>, en: &Enum)
    ensures
        final(steps).deep_view() == old(steps).deep_view() + created_enum(en.deep_view()),
{
    let ghost before = steps.deep_view();
    let ghost e = en.deep_view();
    let step = CreateEnum { enum_name: en.name.name.clone(), values: value_names(&en.values) };
    steps.push(MigrationStep::CreateEnum(step));
    let path = DirectivePath::Enum { enum_name: en.name.name.clone() };
    push_created_directives(steps, &path, &en.attributes);
    let ghost s1 = steps.deep_view();
    let ghost f = created_value_directives(e.name.name);
    proof {
        lemma_each_none(e.values, f);
    }
    let mut i: usize = 0;
    while i < en.values.len()
        invariant
            i <= en.values.len(),
            steps.deep_view() == s1 + e.values.take(i as int).flat_map(f),
        decreases en.values.len() - i,
    {
        proof {
            lemma_each_step(e.values, f, i as int);
        }
        let value: &EnumValue = &en.values[i];
        let value_path = DirectivePath::EnumValue {
            enum_name: en.name.name.clone(),
            value: value.name.name.clone(),
        };
        push_created_directives(steps, &value_path, &value.attributes);
        i = i + 1;
    }
    assert(steps.deep_view() =~= before + created_enum(e));
}

pub fn push_deleted_enum(steps: &mut Vec<MigrationStep>, en: &Enum)
    ensures
        final(steps).deep_view() == old(steps).deep_view() + deleted_enum(en.deep_view()),
{
    let ghost before = steps.deep_view();
    steps.push(MigrationStep::DeleteEnum(DeleteEnum { enum_name: en.name.name.clone() }));
    assert(steps.deep_view() =~= before + deleted_enum(en.deep_view()));
}

pub fn push_updated_enum_value(
    steps: &mut Vec<MigrationStep>,
    previous: &EnumValue,
    next: &EnumValue,
    enum_name: &str,
)
    ensures
        final(steps).deep_view() == old(steps).deep_view() + updated_value(enum_name@)(
            previous.deep_view(),
            next.deep_view(),
        ),
{
    let path = DirectivePath::EnumValue {
        enum_name: enum_name.to_owned(),
        value: next.name.name.clone(),
    };
    push_directives(steps, &path, &previous.attributes, &next.attributes);
}

#[verifier::loop_isolation(false)]
pub fn push_updated_enum(steps: &mut Vec<MigrationStep>, previous: &Enum, next: &Enum)
    ensures
        final(steps).deep_view() == old(steps).deep_view() + updated_enum(
            previous.deep_view(),
            next.deep_view(),
        ),
{
    let ghost before = steps.deep_view();
    let ghost p = previous.deep_view();
    let ghost n = next.deep_view();
    let ghost created = if_absent(p.values, value_name(), created_value_directives(n.name.name));
    let ghost updated = if_present(n.values, value_name(), updated_value(n.name.name));
    proof {
        lemma_each_none(n.values, created);
        lemma_each_none(p.values, updated);
    }
    let mut i: usize = 0;
    while i < next.values.len()
        invariant
            i <= next.values.len(),
            steps.deep_view() == before + n.values.take(i as int).flat_map(created),
        decreases next.values.len() - i,
    {
        proof {
            lemma_each_step(n.values, created, i as int);
        }
        let value: &EnumValue = &next.values[i];
        if find_value(&previous.values, value.name.name.as_str()).is_none() {
            let value_path = DirectivePath::EnumValue {
                enum_name: next.name.name.clone(),
                value: value.name.name.clone(),
            };
            push_created_directives(steps, &value_path, &value.attributes);
        }
        i = i + 1;
    }
    let ghost s1 = steps.deep_view();
    let mut i: usize = 0;
    while i < previous.values.len()
        invariant
            i <= previous.values.len(),
            steps.deep_view() == s1 + p.values.take(i as int).flat_map(updated),
        decreases previous.values.len() - i,
    {
        proof {
            lemma_each_step(p.values, updated, i as int);
        }
        match find_value(&next.values, previous.values[i].name.name.as_str()) {
            Some(counterpart) => {
                push_updated_enum_value(
                    steps,
                    &previous.values[i],
                    counterpart,
                    next.name.name.as_str(),
                );
            },
            None => {},
        }
        i = i + 1;
    }
    let step = UpdateEnum {
        enum_name: previous.name.name.clone(),
        new_name: diff_value(previous.name.name.as_str(), next.name.name.as_str()),
        created_values: absent_value_names(&next.values, &previous.values),
        deleted_values: absent_value_names(&previous.values, &next.values),
    };
    assert(step.deep_view() == enum_update(p, n));
    let ghost s2 = steps.deep_view();
    assert(s2 == before + n.values.flat_map(created) + p.values.flat_map(updated));
    let ghost update_steps = if enum_update(p, n).is_any_option_set() {
        seq![MigrationStepView::UpdateEnum(enum_update(p, n))]
    } else {
        Steps::empty()
    };
    if step.is_any_option_set() {
        steps.push(MigrationStep::UpdateEnum(step));
    }
    assert(steps.deep_view() =~= s2 + update_steps);
    let path = DirectivePath::Enum { enum_name: previous.name.name.clone() };
    push_directives(steps, &path, &previous.attributes, &next.attributes);
    assert(steps.deep_view() =~= before + updated_enum(p, n));
}

/// The enums of the given name among the things at the top of a schema.
pub open spec fn enum_named(name: Seq<char>) -> spec_fn(TopView) -> bool {
    |t: TopView|
        match t {
            TopView::Enum(x) => x.name.name == name,
            _ => false,
        }
}

/// The first enum of that name.
pub open spec fn find_enum(tops: Seq<TopView>, name: Seq<char>) -> Option<EnumView> {
    match find(tops, enum_named(name)) {
        Some(TopView::Enum(x)) => Some(x),
        _ => None,
    }
}

/// The steps for a enum of the later schema that the earlier one lacks.
pub open spec fn created_enum_top(previous: Seq<TopView>) -> spec_fn(TopView) -> Steps {
    |t: TopView|
        match t {
            TopView::Enum(x) => if find_enum(previous, x.name.name) is Some {
                Seq::empty()
            } else {
                created_enum(x)
            },
            _ => Seq::empty(),
        }
}

/// The steps for a enum of the earlier schema that the later one lacks.
pub open spec fn deleted_enum_top(next: Seq<TopView>) -> spec_fn(TopView) -> Steps {
    |t: TopView|
        match t {
            TopView::Enum(x) => if find_enum(next, x.name.name) is Some {
                Seq::empty()
            } else {
                deleted_enum(x)
            },
            _ => Seq::empty(),
        }
}

/// The steps for a enum of the earlier schema that the later one has too.
pub open spec fn updated_enum_top(next: Seq<TopView>) -> spec_fn(TopView) -> Steps {
    |t: TopView|
        match t {
            TopView::Enum(x) => match find_enum(next, x.name.name) {
                Some(n) => updated_enum(x, n),
                None => Seq::empty(),
            },
            _ => Seq::empty(),
        }
}

/// The steps for the enums of two schemas: first for the enums that
/// only the later one has, then for those that only the earlier one has,
/// then for those that both have.
pub open spec fn enums_steps(previous: Seq<TopView>, next: Seq<TopView>) -> Steps {
    next.flat_map(created_enum_top(previous)) + previous.flat_map(deleted_enum_top(next))
        + previous.flat_map(updated_enum_top(next))
}

impl SchemaAst {
    /// The first enum of that name.
    #[verifier::loop_isolation(false)]
    pub fn find_enum(&self, name: &str) -> (r: Option<&Enum>)
        ensures
            r.deep_view() == find_enum(self.deep_view().tops, name@),
    {
        let ghost p = enum_named(name@);
        let mut i: usize = 0;
        while i < self.tops.len()
            invariant
                i <= self.tops.len(),
                forall|j: int| 0 <= j < i ==> !p(#[trigger] self.deep_view().tops[j]),
            decreases self.tops.len() - i,
        {
            match &self.tops[i] {
                Top::Enum(x) => {
                    if str_eq(x.name.name.as_str(), name) {
                        proof {
                            lemma_position_is(self.deep_view().tops, p, i as int);
                        }
                        return Some(x);
                    }
                },
                _ => {},
            }
            i = i + 1;
        }
        proof {
            lemma_position_none(self.deep_view().tops, p);
        }
        None
    }
}

/// Pushes the steps for the enums of two schemas.
#[verifier::loop_isolation(false)]
pub fn push_enums(steps: &mut Vec<MigrationStep>, previous: &SchemaAst, next: &SchemaAst)
    ensures
        final(steps).deep_view() == old(steps).deep_view() + enums_steps(
            previous.deep_view().tops,
            next.deep_view().tops,
        ),
{
    let ghost before = steps.deep_view();
    let ghost p = previous.deep_view().tops;
    let ghost n = next.deep_view().tops;
    let ghost created = created_enum_top(p);
    let ghost deleted = deleted_enum_top(n);
    let ghost updated = updated_enum_top(n);
    proof {
        lemma_each_none(n, created);
        lemma_each_none(p, deleted);
        lemma_each_none(p, updated);
    }
    let mut i: usize = 0;
    while i < next.tops.len()
        invariant
            i <= next.tops.len(),
            steps.deep_view() == before + n.take(i as int).flat_map(created),
        decreases next.tops.len() - i,
    {
        proof {
            lemma_each_step(n, created, i as int);
        }
        match &next.tops[i] {
            Top::Enum(x) => {
                if previous.find_enum(x.name.name.as_str()).is_none() {
                    push_created_enum(steps, x);
                }
            },
            _ => {},
        }
        i = i + 1;
    }
    let ghost s1 = steps.deep_view();
    let mut i: usize = 0;
    while i < previous.tops.len()
        invariant
            i <= previous.tops.len(),
            steps.deep_view() == s1 + p.take(i as int).flat_map(deleted),
        decreases previous.tops.len() - i,
    {
        proof {
            lemma_each_step(p, deleted, i as int);
        }
        match &previous.tops[i] {
            Top::Enum(x) => {
                if next.find_enum(x.name.name.as_str()).is_none() {
                    push_deleted_enum(steps, x);
                }
            },
            _ => {},
        }
        i = i + 1;
    }
    let ghost s2 = steps.deep_view();
    let mut i: usize = 0;
    while i < previous.tops.len()
        invariant
            i <= previous.tops.len(),
            steps.deep_view() == s2 + p.take(i as int).flat_map(updated),
        decreases previous.tops.len() - i,
    {
        proof {
            lemma_each_step(p, updated, i as int);
        }
        match &previous.tops[i] {
            Top::Enum(x) => {
                match next.find_enum(x.name.name.as_str()) {
                    Some(counterpart) => {
                        push_updated_enum(steps, x, counterpart);
                    },
                    None => {},
                }
            },
            _ => {},
        }
        i = i + 1;
    }
}

} // verus!
