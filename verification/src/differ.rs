//! The steps that turn one schema into another.
//!
//! Things are matched by their names. What only the later schema has is
//! created, with all that it holds; what only the earlier schema has is
//! deleted; what both have is compared part by part, and only a part that
//! changed gives a step.

use crate::ast::{SchemaAst, SchemaAstView};
use crate::steps::MigrationStep;
use vstd::prelude::*;

pub mod arguments;
pub mod directives;
pub mod enums;
pub mod fields;
pub mod laws;
pub mod matching;
pub mod models;
pub mod replay;
pub mod replaying;
pub mod round_trip;
pub mod sources;
pub mod type_aliases;

verus! {

/// The steps from `previous` to `next`: those for the type aliases, then
/// those for the enums, then those for the datasources, then those for the
/// models.
pub open spec fn steps_between(previous: SchemaAstView, next: SchemaAstView) -> matching::Steps {
    type_aliases::type_aliases_steps(previous.tops, next.tops) + enums::enums_steps(
        previous.tops,
        next.tops,
    ) + sources::datasources_steps(previous.tops, next.tops) + models::models_steps(
        previous.tops,
        next.tops,
    )
}

/// Diff two schemas, returning the steps from `previous` to `next`.
pub fn diff(previous: &SchemaAst, next: &SchemaAst) -> (steps: Vec<MigrationStep>)
    ensures
        steps.deep_view() == steps_between(previous.deep_view(), next.deep_view()),
{
    let mut steps: Vec<MigrationStep> = Vec::new();
    assert(steps.deep_view() =~= matching::Steps::empty());
    type_aliases::push_type_aliases(&mut steps, previous, next);
    enums::push_enums(&mut steps, previous, next);
    sources::push_datasources(&mut steps, previous, next);
    models::push_models(&mut steps, previous, next);
    assert(steps.deep_view() =~= steps_between(previous.deep_view(), next.deep_view()));
    steps
}

} // verus!
