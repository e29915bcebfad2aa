//! The steps for the attributes of a field, a model, an enum or an enum value.

use crate::ast::{Argument, ArgumentView, Attribute, AttributeView};
use crate::differ::arguments::{arguments_steps, created_argument, push_arguments, push_created_argument};
use crate::differ::matching::{
    attribute_name, find_attribute, if_absent, if_present, lemma_each_none, lemma_each_step, Steps,
};
use crate::seqs::lemma_map_step;
use crate::steps::{
    ArgumentLocation, ArgumentLocationView, CreateDirective, CreateDirectiveView, DeleteDirective,
    DeleteDirectiveView, DirectiveLocation, DirectiveLocationView, DirectivePath,
    DirectivePathView, MigrationStep, MigrationStepView,
};
use vstd::prelude::*;
use vstd::string::*;

verus! {

/// The argument of a step that stands for an argument of the schema.
pub open spec fn step_argument() -> spec_fn(ArgumentView) -> crate::steps::ArgumentView {
    |a: ArgumentView| crate::steps::ArgumentView { name: a.name.name, value: a.value }
}

/// The steps that create an attribute: one for the attribute, then one for
/// each of its arguments.
pub open spec fn created_directive(path: DirectivePathView) -> spec_fn(AttributeView) -> Steps {
    |d: AttributeView|
        {
            let location = DirectiveLocationView { path, directive: d.name.name };
            seq![MigrationStepView::CreateDirective(CreateDirectiveView { location })]
                + d.arguments.flat_map(created_argument(ArgumentLocationView::Directive(location)))
        }
}

/// The step that creates an attribute which a model can carry more than
/// once: its arguments are part of its place.
pub open spec fn created_directive_with_arguments(path: DirectivePathView) -> spec_fn(
    AttributeView,
) -> Steps {
    |d: AttributeView|
        seq![
            MigrationStepView::CreateDirective(
                CreateDirectiveView {
                    location: DirectiveLocationView {
                        path: path.set_arguments(d.arguments.map_values(step_argument())),
                        directive: d.name.name,
                    },
                },
            ),
        ]
}

/// The step that deletes an attribute.
pub open spec fn deleted_directive(path: DirectivePathView) -> spec_fn(AttributeView) -> Steps {
    |d: AttributeView|
        seq![
            MigrationStepView::DeleteDirective(
                DeleteDirectiveView {
                    location: DirectiveLocationView { path, directive: d.name.name },
                },
            ),
        ]
}

/// The step that deletes an attribute which a model can carry more than once.
pub open spec fn deleted_directive_with_arguments(path: DirectivePathView) -> spec_fn(
    AttributeView,
) -> Steps {
    |d: AttributeView|
        seq![
            MigrationStepView::DeleteDirective(
                DeleteDirectiveView {
                    location: DirectiveLocationView {
                        path: path.set_arguments(d.arguments.map_values(step_argument())),
                        directive: d.name.name,
                    },
                },
            ),
        ]
}

/// The steps for an attribute that both schemas have: those for its arguments.
pub open spec fn updated_directive(path: DirectivePathView) -> spec_fn(
    AttributeView,
    AttributeView,
) -> Steps {
    |previous: AttributeView, next: AttributeView|
        arguments_steps(
            ArgumentLocationView::Directive(
                DirectiveLocationView { path, directive: previous.name.name },
            ),
            previous.arguments,
            next.arguments,
        )
}

/// The steps for the attributes of a thing that both schemas have: first
/// for the attributes that only the later one has, then for those that both
/// have, then for those that only the earlier one has.
pub open spec fn directives_steps(
    path: DirectivePathView,
    previous: Seq<AttributeView>,
    next: Seq<AttributeView>,
) -> Steps {
    next.flat_map(if_absent(previous, attribute_name(), created_directive(path)))
        + previous.flat_map(if_present(next, attribute_name(), updated_directive(path)))
        + previous.flat_map(if_absent(next, attribute_name(), deleted_directive(path)))
}

/// The steps that create all the given attributes.
pub open spec fn created_directives(path: DirectivePathView, attributes: Seq<AttributeView>) -> Steps {
    attributes.flat_map(created_directive(path))
}

/// The location of an attribute.
pub fn directive_location(path: &DirectivePath, directive: &Attribute) -> (r: DirectiveLocation)
    ensures
        r.deep_view() == (DirectiveLocationView {
            path: path.deep_view(),
            directive: directive.name.name@,
        }),
{
    DirectiveLocation { path: path.clone(), directive: directive.name.name.clone() }
}

/// The arguments of an attribute as a step carries them.
#[verifier::loop_isolation(false)]
pub fn step_arguments(arguments: &Vec<Argument>) -> (r: Vec<crate::steps::Argument>)
    ensures
        r.deep_view() == arguments.deep_view().map_values(step_argument()),
{
    let mut out: Vec<crate::steps::Argument> = Vec::new();
    let mut i: usize = 0;
    while i < arguments.len()
        invariant
            i <= arguments.len(),
            out.deep_view() == arguments.deep_view().take(i as int).map_values(step_argument()),
        decreases arguments.len() - i,
    {
        let ghost before = out.deep_view();
        let a = crate::steps::Argument::from_ast(&arguments[i]);
        let ghost av = a.deep_view();
        out.push(a);
        proof {
            lemma_map_step(arguments.deep_view(), step_argument(), i as int);
            assert(out.deep_view() =~= before.push(av));
        }
        i = i + 1;
    }
    assert(arguments.deep_view().take(i as int) =~= arguments.deep_view());
    out
}

#[verifier::loop_isolation(false)]
pub fn push_created_directive(
    steps: &mut Vec<MigrationStep>,
    path: &DirectivePath,
    directive: &Attribute,
)
    ensures
        final(steps).deep_view() == old(steps).deep_view() + created_directive(path.deep_view())(
            directive.deep_view(),
        ),
{
    let ghost before = steps.deep_view();
    let location = directive_location(path, directive);
    let argument_location = ArgumentLocation::Directive(location.clone());
    let ghost f = created_argument(argument_location.deep_view());
    let ghost args = directive.deep_view().arguments;
    steps.push(MigrationStep::CreateDirective(CreateDirective { location }));
    let ghost first = steps.deep_view();
    proof {
        lemma_each_none(args, f);
    }
    let mut i: usize = 0;
    while i < directive.arguments.len()
        invariant
            i <= directive.arguments.len(),
            steps.deep_view() == first + args.take(i as int).flat_map(f),
        decreases directive.arguments.len() - i,
    {
        proof {
            lemma_each_step(args, f, i as int);
        }
        push_created_argument(steps, &argument_location, &directive.arguments[i]);
        i = i + 1;
    }
    assert(steps.deep_view() =~= before + created_directive(path.deep_view())(
        directive.deep_view(),
    ));
}

pub fn push_created_directive_with_arguments(
    steps: &mut Vec<MigrationStep>,
    path: &DirectivePath,
    directive: &Attribute,
)
    ensures
        final(steps).deep_view() == old(steps).deep_view() + created_directive_with_arguments(
            path.deep_view(),
        )(directive.deep_view()),
{
    let ghost before = steps.deep_view();
    let updated_path = path.clone().set_arguments(step_arguments(&directive.arguments));
    let step = CreateDirective {
        location: DirectiveLocation {
            path: updated_path,
            directive: directive.name.name.clone(),
        },
    };
    steps.push(MigrationStep::CreateDirective(step));
    assert(steps.deep_view() =~= before + created_directive_with_arguments(path.deep_view())(
        directive.deep_view(),
    ));
}

pub fn push_deleted_directive(
    steps: &mut Vec<MigrationStep>,
    path: &DirectivePath,
    directive: &Attribute,
)
    ensures
        final(steps).deep_view() == old(steps).deep_view() + deleted_directive(path.deep_view())(
            directive.deep_view(),
        ),
{
    let ghost before = steps.deep_view();
    let location = directive_location(path, directive);
    steps.push(MigrationStep::DeleteDirective(DeleteDirective { location }));
    assert(steps.deep_view() =~= before + deleted_directive(path.deep_view())(
        directive.deep_view(),
    ));
}

pub fn push_deleted_directive_with_arguments(
    steps: &mut Vec<MigrationStep>,
    path: &DirectivePath,
    directive: &Attribute,
)
    ensures
        final(steps).deep_view() == old(steps).deep_view() + deleted_directive_with_arguments(
            path.deep_view(),
        )(directive.deep_view()),
{
    let ghost before = steps.deep_view();
    let updated_path = path.clone().set_arguments(step_arguments(&directive.arguments));
    let step = DeleteDirective {
        location: DirectiveLocation {
            path: updated_path,
            directive: directive.name.name.clone(),
        },
    };
    steps.push(MigrationStep::DeleteDirective(step));
    assert(steps.deep_view() =~= before + deleted_directive_with_arguments(path.deep_view())(
        directive.deep_view(),
    ));
}

pub fn push_updated_directive(
    steps: &mut Vec<MigrationStep>,
    path: &DirectivePath,
    previous: &Attribute,
    next: &Attribute,
)
    ensures
        final(steps).deep_view() == old(steps).deep_view() + updated_directive(path.deep_view())(
            previous.deep_view(),
            next.deep_view(),
        ),
{
    let location = ArgumentLocation::Directive(directive_location(path, previous));
    push_arguments(steps, &location, &previous.arguments, &next.arguments);
}

/// Pushes the steps that create all the given attributes.
#[verifier::loop_isolation(false)]
pub fn push_created_directives(
    steps: &mut Vec<MigrationStep>,
    path: &DirectivePath,
    attributes: &Vec<Attribute>,
)
    ensures
        final(steps).deep_view() == old(steps).deep_view() + created_directives(
            path.deep_view(),
            attributes.deep_view(),
        ),
{
    let ghost before = steps.deep_view();
    let ghost f = created_directive(path.deep_view());
    let ghost a = attributes.deep_view();
    proof {
        lemma_each_none(a, f);
    }
    let mut i: usize = 0;
    while i < attributes.len()
        invariant
            i <= attributes.len(),
            steps.deep_view() == before + a.take(i as int).flat_map(f),
        decreases attributes.len() - i,
    {
        proof {
            lemma_each_step(a, f, i as int);
        }
        push_created_directive(steps, path, &attributes[i]);
        i = i + 1;
    }
}

/// Pushes the steps for the attributes of a thing that both schemas have.
#[verifier::loop_isolation(false)]
pub fn push_directives(
    steps: &mut Vec<MigrationStep>,
    path: &DirectivePath,
    previous: &Vec<Attribute>,
    next: &Vec<Attribute>,
)
    ensures
        final(steps).deep_view() == old(steps).deep_view() + directives_steps(
            path.deep_view(),
            previous.deep_view(),
            next.deep_view(),
        ),
{
    let ghost before = steps.deep_view();
    let ghost pv = path.deep_view();
    let ghost p = previous.deep_view();
    let ghost n = next.deep_view();
    let ghost created = if_absent(p, attribute_name(), created_directive(pv));
    let ghost updated = if_present(n, attribute_name(), updated_directive(pv));
    let ghost deleted = if_absent(n, attribute_name(), deleted_directive(pv));
    proof {
        lemma_each_none(n, created);
        lemma_each_none(p, updated);
        lemma_each_none(p, deleted);
    }
    let mut i: usize = 0;
    while i < next.len()
        invariant
            i <= next.len(),
            steps.deep_view() == before + n.take(i as int).flat_map(created),
        decreases next.len() - i,
    {
        proof {
            lemma_each_step(n, created, i as int);
        }
        if find_attribute(previous, next[i].name.name.as_str()).is_none() {
            push_created_directive(steps, path, &next[i]);
        }
        i = i + 1;
    }
    let ghost after_created = steps.deep_view();
    let mut i: usize = 0;
    while i < previous.len()
        invariant
            i <= previous.len(),
            steps.deep_view() == after_created + p.take(i as int).flat_map(updated),
        decreases previous.len() - i,
    {
        proof {
            lemma_each_step(p, updated, i as int);
        }
        match find_attribute(next, previous[i].name.name.as_str()) {
            Some(counterpart) => {
                push_updated_directive(steps, path, &previous[i], counterpart);
            },
            None => {},
        }
        i = i + 1;
    }
    let ghost after_updated = steps.deep_view();
    let mut i: usize = 0;
    while i < previous.len()
        invariant
            i <= previous.len(),
            steps.deep_view() == after_updated + p.take(i as int).flat_map(deleted),
        decreases previous.len() - i,
    {
        proof {
            lemma_each_step(p, deleted, i as int);
        }
        if find_attribute(next, previous[i].name.name.as_str()).is_none() {
            push_deleted_directive(steps, path, &previous[i]);
        }
        i = i + 1;
    }
}

} // verus!
