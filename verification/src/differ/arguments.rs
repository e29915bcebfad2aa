//! The steps for the arguments of an attribute and the properties of a
//! datasource.

use crate::ast::{Argument, ArgumentView};
use crate::differ::matching::{
    argument_name, find_argument, if_absent, if_present, lemma_each_none, lemma_each_step, Steps,
};
use crate::steps::{
    ArgumentLocation, ArgumentLocationView, CreateArgument, CreateArgumentView, DeleteArgument,
    DeleteArgumentView, MigrationExpression, MigrationStep, MigrationStepView, UpdateArgument,
    UpdateArgumentView,
};
use vstd::prelude::*;
use vstd::string::*;

verus! {

/// The step that creates an argument.
pub open spec fn created_argument(location: ArgumentLocationView) -> spec_fn(ArgumentView) -> Steps {
    |a: ArgumentView|
        seq![
            MigrationStepView::CreateArgument(
                CreateArgumentView { location, argument: a.name.name, value: a.value },
            ),
        ]
}

/// The step that deletes an argument.
pub open spec fn deleted_argument(location: ArgumentLocationView) -> spec_fn(ArgumentView) -> Steps {
    |a: ArgumentView|
        seq![
            MigrationStepView::DeleteArgument(
                DeleteArgumentView { location, argument: a.name.name },
            ),
        ]
}

/// The step that gives an argument the value of its counterpart, where the
/// canonical texts of the two values differ.
pub open spec fn updated_argument(location: ArgumentLocationView) -> spec_fn(
    ArgumentView,
    ArgumentView,
) -> Steps {
    |previous: ArgumentView, next: ArgumentView|
        if previous.value == next.value {
            Seq::empty()
        } else {
            seq![
                MigrationStepView::UpdateArgument(
                    UpdateArgumentView {
                        location,
                        argument: next.name.name,
                        new_value: next.value,
                    },
                ),
            ]
        }
}

/// The steps for the arguments of an attribute that both schemas have:
/// first those that create the arguments that only the later one has, then
/// those that update the arguments that both have, then those that delete
/// the arguments that only the earlier one has.
pub open spec fn arguments_steps(
    location: ArgumentLocationView,
    previous: Seq<ArgumentView>,
    next: Seq<ArgumentView>,
) -> Steps {
    next.flat_map(if_absent(previous, argument_name(), created_argument(location)))
        + previous.flat_map(if_present(next, argument_name(), updated_argument(location)))
        + previous.flat_map(if_absent(next, argument_name(), deleted_argument(location)))
}

pub fn push_created_argument(
    steps: &mut Vec<MigrationStep>,
    location: &ArgumentLocation,
    argument: &Argument,
)
    ensures
        final(steps).deep_view() == old(steps).deep_view() + created_argument(
            location.deep_view(),
        )(argument.deep_view()),
{
    let ghost before = steps.deep_view();
    let step = CreateArgument {
        location: location.clone(),
        argument: argument.name.name.clone(),
        value: MigrationExpression::from_ast_expression(&argument.value),
    };
    steps.push(MigrationStep::CreateArgument(step));
    assert(steps.deep_view() =~= before + created_argument(location.deep_view())(
        argument.deep_view(),
    ));
}

pub fn push_updated_argument(
    steps: &mut Vec<MigrationStep>,
    location: &ArgumentLocation,
    previous_argument: &Argument,
    next_argument: &Argument,
)
    ensures
        final(steps).deep_view() == old(steps).deep_view() + updated_argument(
            location.deep_view(),
        )(previous_argument.deep_view(), next_argument.deep_view()),
{
    let ghost before = steps.deep_view();
    let previous_value = MigrationExpression::from_ast_expression(&previous_argument.value);
    let next_value = MigrationExpression::from_ast_expression(&next_argument.value);
    if previous_value.0 == next_value.0 {
        assert(steps.deep_view() =~= before + Steps::empty());
        return ;
    }
    let step = UpdateArgument {
        location: location.clone(),
        argument: next_argument.name.name.clone(),
        new_value: next_value,
    };
    steps.push(MigrationStep::UpdateArgument(step));
    assert(steps.deep_view() =~= before + updated_argument(location.deep_view())(
        previous_argument.deep_view(),
        next_argument.deep_view(),
    ));
}

pub fn push_deleted_argument(
    steps: &mut Vec<MigrationStep>,
    location: &ArgumentLocation,
    argument: &Argument,
)
    ensures
        final(steps).deep_view() == old(steps).deep_view() + deleted_argument(
            location.deep_view(),
        )(argument.deep_view()),
{
    let ghost before = steps.deep_view();
    let step = DeleteArgument {
        location: location.clone(),
        argument: argument.name.name.clone(),
    };
    steps.push(MigrationStep::DeleteArgument(step));
    assert(steps.deep_view() =~= before + deleted_argument(location.deep_view())(
        argument.deep_view(),
    ));
}

/// Pushes the steps for the arguments of an attribute that both schemas have.
#[verifier::loop_isolation(false)]
pub fn push_arguments(
    steps: &mut Vec<MigrationStep>,
    location: &ArgumentLocation,
    previous: &Vec<Argument>,
    next: &Vec<Argument>,
)
    ensures
        final(steps).deep_view() == old(steps).deep_view() + arguments_steps(
            location.deep_view(),
            previous.deep_view(),
            next.deep_view(),
        ),
{
    let ghost before = steps.deep_view();
    let ghost loc = location.deep_view();
    let ghost p = previous.deep_view();
    let ghost n = next.deep_view();
    let ghost created = if_absent(p, argument_name(), created_argument(loc));
    let ghost updated = if_present(n, argument_name(), updated_argument(loc));
    let ghost deleted = if_absent(n, argument_name(), deleted_argument(loc));
    proof {
        lemma_each_none(n, created);
        lemma_each_none(p, updated);
        lemma_each_none(p, deleted);
    }
    let mut i: usize = 0;
    while i < next.len()
        invariant
            i <= next.len(),
            steps.deep_view() == before + n.take(i as int).flat_map(created),
        decreases next.len() - i,
    {
        proof {
            lemma_each_step(n, created, i as int);
        }
        if find_argument(previous, next[i].name.name.as_str()).is_none() {
            push_created_argument(steps, location, &next[i]);
        }
        i = i + 1;
    }
    let ghost after_created = steps.deep_view();
    let mut i: usize = 0;
    while i < previous.len()
        invariant
            i <= previous.len(),
            steps.deep_view() == after_created + p.take(i as int).flat_map(updated),
        decreases previous.len() - i,
    {
        proof {
            lemma_each_step(p, updated, i as int);
        }
        match find_argument(next, previous[i].name.name.as_str()) {
            Some(counterpart) => {
                push_updated_argument(steps, location, &previous[i], counterpart);
            },
            None => {},
        }
        i = i + 1;
    }
    let ghost after_updated = steps.deep_view();
    let mut i: usize = 0;
    while i < previous.len()
        invariant
            i <= previous.len(),
            steps.deep_view() == after_updated + p.take(i as int).flat_map(deleted),
        decreases previous.len() - i,
    {
        proof {
            lemma_each_step(p, deleted, i as int);
        }
        if find_argument(next, previous[i].name.name.as_str()).is_none() {
            push_deleted_argument(steps, location, &previous[i]);
        }
        i = i + 1;
    }
}

} // verus!
