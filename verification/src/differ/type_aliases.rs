//! The steps for the type aliases of a schema.

use crate::ast::{Field, FieldView, SchemaAst, Top, TopView};
use crate::differ::directives::{
    created_directives, directives_steps, push_created_directives, push_directives,
};
use crate::differ::fields::{changed_text, diff_value};
use crate::differ::matching::{lemma_each_none, lemma_each_step, Steps};
use crate::seqs::{find, lemma_position_is, lemma_position_none};
use crate::steps::{
    CreateTypeAlias, CreateTypeAliasView, DeleteTypeAlias, DeleteTypeAliasView, DirectivePath,
    DirectivePathView, MigrationStep, MigrationStepView, UpdateTypeAlias, UpdateTypeAliasView,
};
use crate::text::str_eq;
use vstd::prelude::*;
use vstd::string::*;

verus! {

/// The path of the attributes of a type alias.
pub open spec fn alias_path(f: FieldView) -> DirectivePathView {
    DirectivePathView::TypeAlias { type_alias: f.name.name }
}

/// The steps that create a type alias: one for the alias, then those for
/// its attributes.
pub open spec fn created_type_alias(f: FieldView) -> Steps {
    seq![
        MigrationStepView::CreateTypeAlias(
            CreateTypeAliasView {
                type_alias: f.name.name,
                aliased_type: f.field_type.name,
                arity: f.arity,
            },
        ),
    ] + created_directives(alias_path(f), f.attributes)
}

/// The step that deletes a type alias.
pub open spec fn deleted_type_alias(f: FieldView) -> Steps {
    seq![MigrationStepView::DeleteTypeAlias(DeleteTypeAliasView { type_alias: f.name.name })]
}

/// What an update of a type alias to its counterpart changes.
pub open spec fn alias_update(previous: FieldView, next: FieldView) -> UpdateTypeAliasView {
    UpdateTypeAliasView {
        type_alias: previous.name.name,
        aliased_type: changed_text(previous.field_type.name, next.field_type.name),
    }
}

/// The steps for a type alias that both schemas have: one that updates the
/// alias, where the type it stands for changed, then those for its
/// attributes.
pub open spec fn updated_type_alias(previous: FieldView, next: FieldView) -> Steps {
    let update = alias_update(previous, next);
    (if update.is_any_option_set() {
        seq![MigrationStepView::UpdateTypeAlias(update)]
    } else {
        Seq::empty()
    }) + directives_steps(alias_path(previous), previous.attributes, next.attributes)
}

pub fn push_created_type_alias(steps: &mut Vec<MigrationStep>, alias: &Field)
    ensures
        final(steps).deep_view() == old(steps).deep_view() + created_type_alias(
            alias.deep_view(),
        ),
{
    let ghost before = steps.deep_view();
    let step = CreateTypeAlias {
        type_alias: alias.name.name.clone(),
        aliased_type: alias.field_type.name.clone(),
        arity: alias.arity,
    };
    steps.push(MigrationStep::CreateTypeAlias(step));
    let path = DirectivePath::TypeAlias { type_alias: alias.name.name.clone() };
    push_created_directives(steps, &path, &alias.attributes);
    assert(steps.deep_view() =~= before + created_type_alias(alias.deep_view()));
}

pub fn push_deleted_type_alias(steps: &mut Vec<MigrationStep>, alias: &Field)
    ensures
        final(steps).deep_view() == old(steps).deep_view() + deleted_type_alias(
            alias.deep_view(),
        ),
{
    let ghost before = steps.deep_view();
    let step = DeleteTypeAlias { type_alias: alias.name.name.clone() };
    steps.push(MigrationStep::DeleteTypeAlias(step));
    assert(steps.deep_view() =~= before + deleted_type_alias(alias.deep_view()));
}

pub fn push_updated_type_alias(steps: &mut Vec<MigrationStep>, previous: &Field, next: &Field)
    ensures
        final(steps).deep_view() == old(steps).deep_view() + updated_type_alias(
            previous.deep_view(),
            next.deep_view(),
        ),
{
    let ghost before = steps.deep_view();
    let step = UpdateTypeAlias {
        type_alias: previous.name.name.clone(),
        aliased_type: diff_value(previous.field_type.name.as_str(), next.field_type.name.as_str()),
    };
    assert(step.deep_view() == alias_update(previous.deep_view(), next.deep_view()));
    if step.is_any_option_set() {
        steps.push(MigrationStep::UpdateTypeAlias(step));
    }
    let path = DirectivePath::TypeAlias { type_alias: previous.name.name.clone() };
    push_directives(steps, &path, &previous.attributes, &next.attributes);
    assert(steps.deep_view() =~= before + updated_type_alias(
        previous.deep_view(),
        next.deep_view(),
    ));
}

/// The type aliases of the given name among the things at the top of a schema.
pub open spec fn type_alias_named(name: Seq<char>) -> spec_fn(TopView) -> bool {
    |t: TopView|
        match t {
            TopView::Type(x) => x.name.name == name,
            _ => false,
        }
}

/// The first type_alias of that name.
pub open spec fn find_type_alias(tops: Seq<TopView>, name: Seq<char>) -> Option<FieldView> {
    match find(tops, type_alias_named(name)) {
        Some(TopView::Type(x)) => Some(x),
        _ => None,
    }
}

/// The steps for a type_alias of the later schema that the earlier one lacks.
pub open spec fn created_type_alias_top(previous: Seq<TopView>) -> spec_fn(TopView) -> Steps {
    |t: TopView|
        match t {
            TopView::Type(x) => if find_type_alias(previous, x.name.name) is Some {
                Seq::empty()
            } else {
                created_type_alias(x)
            },
            _ => Seq::empty(),
        }
}

/// The steps for a type_alias of the earlier schema that the later one lacks.
pub open spec fn deleted_type_alias_top(next: Seq<TopView>) -> spec_fn(TopView) -> Steps {
    |t: TopView|
        match t {
            TopView::Type(x) => if find_type_alias(next, x.name.name) is Some {
                Seq::empty()
            } else {
                deleted_type_alias(x)
            },
            _ => Seq::empty(),
        }
}

/// The steps for a type_alias of the earlier schema that the later one has too.
pub open spec fn updated_type_alias_top(next: Seq<TopView>) -> spec_fn(TopView) -> Steps {
    |t: TopView|
        match t {
            TopView::Type(x) => match find_type_alias(next, x.name.name) {
                Some(n) => updated_type_alias(x, n),
                None => Seq::empty(),
            },
            _ => Seq::empty(),
        }
}

/// The steps for the type aliases of two schemas: first for the type aliases that
/// only the later one has, then for those that only the earlier one has,
/// then for those that both have.
pub open spec fn type_aliases_steps(previous: Seq<TopView>, next: Seq<TopView>) -> Steps {
    next.flat_map(created_type_alias_top(previous)) + previous.flat_map(deleted_type_alias_top(next))
        + previous.flat_map(updated_type_alias_top(next))
}

impl SchemaAst {
    /// The first type_alias of that name.
    #[verifier::loop_isolation(false)]
    pub fn find_type_alias(&self, name: &str) -> (r: Option<&Field>)
        ensures
            r.deep_view() == find_type_alias(self.deep_view().tops, name@),
    {
        let ghost p = type_alias_named(name@);
        let mut i: usize = 0;
        while i < self.tops.len()
            invariant
                i <= self.tops.len(),
                forall|j: int| 0 <= j < i ==> !p(#[trigger] self.deep_view().tops[j]),
            decreases self.tops.len() - i,
        {
            match &self.tops[i] {
                Top::Type(x) => {
                    if str_eq(x.name.name.as_str(), name) {
                        proof {
                            lemma_position_is(self.deep_view().tops, p, i as int);
                        }
                        return Some(x);
                    }
                },
                _ => {},
            }
            i = i + 1;
        }
        proof {
            lemma_position_none(self.deep_view().tops, p);
        }
        None
    }
}

/// Pushes the steps for the type aliases of two schemas.
#[verifier::loop_isolation(false)]
pub fn push_type_aliases(steps: &mut Vec<MigrationStep>, previous: &SchemaAst, next: &SchemaAst)
    ensures
        final(steps).deep_view() == old(steps).deep_view() + type_aliases_steps(
            previous.deep_view().tops,
            next.deep_view().tops,
        ),
{
    let ghost before = steps.deep_view();
    let ghost p = previous.deep_view().tops;
    let ghost n = next.deep_view().tops;
    let ghost created = created_type_alias_top(p);
    let ghost deleted = deleted_type_alias_top(n);
    let ghost updated = updated_type_alias_top(n);
    proof {
        lemma_each_none(n, created);
        lemma_each_none(p, deleted);
        lemma_each_none(p, updated);
    }
    let mut i: usize = 0;
    while i < next.tops.len()
        invariant
            i <= next.tops.len(),
            steps.deep_view() == before + n.take(i as int).flat_map(created),
        decreases next.tops.len() - i,
    {
        proof {
            lemma_each_step(n, created, i as int);
        }
        match &next.tops[i] {
            Top::Type(x) => {
                if previous.find_type_alias(x.name.name.as_str()).is_none() {
                    push_created_type_alias(steps, x);
                }
            },
            _ => {},
        }
        i = i + 1;
    }
    let ghost s1 = steps.deep_view();
    let mut i: usize = 0;
    while i < previous.tops.len()
        invariant
            i <= previous.tops.len(),
            steps.deep_view() == s1 + p.take(i as int).flat_map(deleted),
        decreases previous.tops.len() - i,
    {
        proof {
            lemma_each_step(p, deleted, i as int);
        }
        match &previous.tops[i] {
            Top::Type(x) => {
                if next.find_type_alias(x.name.name.as_str()).is_none() {
                    push_deleted_type_alias(steps, x);
                }
            },
            _ => {},
        }
        i = i + 1;
    }
    let ghost s2 = steps.deep_view();
    let mut i: usize = 0;
    while i < previous.tops.len()
        invariant
            i <= previous.tops.len(),
            steps.deep_view() == s2 + p.take(i as int).flat_map(updated),
        decreases previous.tops.len() - i,
    {
        proof {
            lemma_each_step(p, updated, i as int);
        }
        match &previous.tops[i] {
            Top::Type(x) => {
                match next.find_type_alias(x.name.name.as_str()) {
                    Some(counterpart) => {
                        push_updated_type_alias(steps, x, counterpart);
                    },
                    None => {},
                }
            },
            _ => {},
        }
        i = i + 1;
    }
}

} // verus!
