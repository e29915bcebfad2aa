//! The steps for the datasources of a schema.

use crate::ast::{
    Argument, ArgumentView, Expression, SchemaAst, SourceConfig, SourceConfigView, Top, TopView,
};
use crate::differ::arguments::{
    created_argument, deleted_argument, push_created_argument, push_deleted_argument,
    push_updated_argument, updated_argument,
};
use crate::differ::matching::{
    argument_name, find_argument, if_absent, if_present, lemma_each_none, lemma_each_step, Steps,
};
use crate::seqs::{find, lemma_position_is, lemma_position_none};
use crate::steps::{
    ArgumentLocation, ArgumentLocationView, CreateSource, CreateSourceView, DeleteSource,
    DeleteSourceView, MigrationStep, MigrationStepView, SourceLocation, SourceLocationView,
};
use crate::text::str_eq;
use vstd::prelude::*;
use vstd::string::*;

verus! {

/// The place of the properties of a datasource.
pub open spec fn source_location(s: SourceConfigView) -> ArgumentLocationView {
    ArgumentLocationView::Source(SourceLocationView { source: s.name.name })
}

/// The canonical text that stands in a step for the address of a database.
pub open spec fn mask() -> Seq<char> {
    "\""@ + "***"@ + "\""@
}

/// The property as a step may show it: the address of the database is
/// never shown.
pub open spec fn masked(a: ArgumentView) -> ArgumentView {
    if a.name.name == "url"@ {
        ArgumentView { name: a.name, value: mask(), span: a.span }
    } else {
        a
    }
}

/// The step that creates a property of a datasource.
pub open spec fn created_source_argument(location: ArgumentLocationView) -> spec_fn(
    ArgumentView,
) -> Steps {
    |a: ArgumentView| created_argument(location)(masked(a))
}

/// The step for a property that both schemas have. The address of the
/// database is not compared: the earlier schema holds it masked.
pub open spec fn updated_source_argument(location: ArgumentLocationView) -> spec_fn(
    ArgumentView,
    ArgumentView,
) -> Steps {
    |previous: ArgumentView, next: ArgumentView|
        if previous.name.name == "url"@ {
            Seq::empty()
        } else {
            updated_argument(location)(previous, next)
        }
}

/// The steps that create a datasource: one for the datasource, then one
/// for each of its properties.
pub open spec fn created_source(s: SourceConfigView) -> Steps {
    seq![MigrationStepView::CreateSource(CreateSourceView { source: s.name.name })]
        + s.properties.flat_map(created_source_argument(source_location(s)))
}

/// The step that deletes a datasource.
pub open spec fn deleted_source(s: SourceConfigView) -> Steps {
    seq![MigrationStepView::DeleteSource(DeleteSourceView { source: s.name.name })]
}

/// The steps for a datasource that both schemas have: first for the
/// properties that only the later one has, then for those that only the
/// earlier one has, then for those that both have.
pub open spec fn updated_source(previous: SourceConfigView, next: SourceConfigView) -> Steps {
    let location = source_location(previous);
    next.properties.flat_map(
        if_absent(previous.properties, argument_name(), created_source_argument(location)),
    ) + previous.properties.flat_map(
        if_absent(next.properties, argument_name(), deleted_argument(location)),
    ) + previous.properties.flat_map(
        if_present(next.properties, argument_name(), updated_source_argument(location)),
    )
}

pub fn push_created_source_argument(
    steps: &mut Vec<MigrationStep>,
    location: &ArgumentLocation,
    argument: &Argument,
)
    ensures
        final(steps).deep_view() == old(steps).deep_view() + created_source_argument(
            location.deep_view(),
        )(argument.deep_view()),
{
    if str_eq(argument.name.name.as_str(), "url") {
        let hidden = Argument {
            name: argument.name.clone(),
            value: Expression::StringValue("***".to_owned(), argument.value.span()),
            span: argument.span,
        };
        assert(hidden.deep_view() == masked(argument.deep_view()));
        push_created_argument(steps, location, &hidden);
    } else {
        push_created_argument(steps, location, argument);
    }
}

#[verifier::loop_isolation(false)]
pub fn push_created_source(steps: &mut Vec<MigrationStep>, source: &SourceConfig)
    ensures
        final(steps).deep_view() == old(steps).deep_view() + created_source(source.deep_view()),
{
    let ghost before = steps.deep_view();
    let ghost s = source.deep_view();
    steps.push(MigrationStep::CreateSource(CreateSource { source: source.name.name.clone() }));
    let ghost s1 = steps.deep_view();
    let location = ArgumentLocation::Source(SourceLocation { source: source.name.name.clone() });
    let ghost f = created_source_argument(source_location(s));
    proof {
        lemma_each_none(s.properties, f);
    }
    let mut i: usize = 0;
    while i < source.properties.len()
        invariant
            i <= source.properties.len(),
            steps.deep_view() == s1 + s.properties.take(i as int).flat_map(f),
        decreases source.properties.len() - i,
    {
        proof {
            lemma_each_step(s.properties, f, i as int);
        }
        push_created_source_argument(steps, &location, &source.properties[i]);
        i = i + 1;
    }
    assert(steps.deep_view() =~= before + created_source(s));
}

pub fn push_deleted_source(steps: &mut Vec<MigrationStep>, source: &SourceConfig)
    ensures
        final(steps).deep_view() == old(steps).deep_view() + deleted_source(source.deep_view()),
{
    let ghost before = steps.deep_view();
    steps.push(MigrationStep::DeleteSource(DeleteSource { source: source.name.name.clone() }));
    assert(steps.deep_view() =~= before + deleted_source(source.deep_view()));
}

#[verifier::loop_isolation(false)]
pub fn push_updated_source(
    steps: &mut Vec<MigrationStep>,
    previous: &SourceConfig,
    next: &SourceConfig,
)
    ensures
        final(steps).deep_view() == old(steps).deep_view() + updated_source(
            previous.deep_view(),
            next.deep_view(),
        ),
{
    let ghost before = steps.deep_view();
    let ghost p = previous.deep_view();
    let ghost n = next.deep_view();
    let ghost loc = source_location(p);
    let location = ArgumentLocation::Source(SourceLocation { source: previous.name.name.clone() });
    let ghost created = if_absent(p.properties, argument_name(), created_source_argument(loc));
    let ghost deleted = if_absent(n.properties, argument_name(), deleted_argument(loc));
    let ghost updated = if_present(n.properties, argument_name(), updated_source_argument(loc));
    proof {
        lemma_each_none(n.properties, created);
        lemma_each_none(p.properties, deleted);
        lemma_each_none(p.properties, updated);
    }
    let mut i: usize = 0;
    while i < next.properties.len()
        invariant
            i <= next.properties.len(),
            steps.deep_view() == before + n.properties.take(i as int).flat_map(created),
        decreases next.properties.len() - i,
    {
        proof {
            lemma_each_step(n.properties, created, i as int);
        }
        if find_argument(&previous.properties, next.properties[i].name.name.as_str()).is_none() {
            push_created_source_argument(steps, &location, &next.properties[i]);
        }
        i = i + 1;
    }
    let ghost s1 = steps.deep_view();
    let mut i: usize = 0;
    while i < previous.properties.len()
        invariant
            i <= previous.properties.len(),
            steps.deep_view() == s1 + p.properties.take(i as int).flat_map(deleted),
        decreases previous.properties.len() - i,
    {
        proof {
            lemma_each_step(p.properties, deleted, i as int);
        }
        if find_argument(&next.properties, previous.properties[i].name.name.as_str()).is_none() {
            push_deleted_argument(steps, &location, &previous.properties[i]);
        }
        i = i + 1;
    }
    let ghost s2 = steps.deep_view();
    let mut i: usize = 0;
    while i < previous.properties.len()
        invariant
            i <= previous.properties.len(),
            steps.deep_view() == s2 + p.properties.take(i as int).flat_map(updated),
        decreases previous.properties.len() - i,
    {
        proof {
            lemma_each_step(p.properties, updated, i as int);
        }
        let prev: &Argument = &previous.properties[i];
        match find_argument(&next.properties, prev.name.name.as_str()) {
            Some(counterpart) => {
                if !str_eq(prev.name.name.as_str(), "url") {
                    push_updated_argument(steps, &location, prev, counterpart);
                }
            },
            None => {},
        }
        i = i + 1;
    }
    assert(steps.deep_view() =~= before + updated_source(p, n));
}

/// The datasources of the given name among the things at the top of a schema.
pub open spec fn source_named(name: Seq<char>) -> spec_fn(TopView) -> bool {
    |t: TopView|
        match t {
            TopView::Source(x) => x.name.name == name,
            _ => false,
        }
}

/// The first source of that name.
pub open spec fn find_source(tops: Seq<TopView>, name: Seq<char>) -> Option<SourceConfigView> {
    match find(tops, source_named(name)) {
        Some(TopView::Source(x)) => Some(x),
        _ => None,
    }
}

/// The steps for a source of the later schema that the earlier one lacks.
pub open spec fn created_source_top(previous: Seq<TopView>) -> spec_fn(TopView) -> Steps {
    |t: TopView|
        match t {
            TopView::Source(x) => if find_source(previous, x.name.name) is Some {
                Seq::empty()
            } else {
                created_source(x)
            },
            _ => Seq::empty(),
        }
}

/// The steps for a source of the earlier schema that the later one lacks.
pub open spec fn deleted_source_top(next: Seq<TopView>) -> spec_fn(TopView) -> Steps {
    |t: TopView|
        match t {
            TopView::Source(x) => if find_source(next, x.name.name) is Some {
                Seq::empty()
            } else {
                deleted_source(x)
            },
            _ => Seq::empty(),
        }
}

/// The steps for a source of the earlier schema that the later one has too.
pub open spec fn updated_source_top(next: Seq<TopView>) -> spec_fn(TopView) -> Steps {
    |t: TopView|
        match t {
            TopView::Source(x) => match find_source(next, x.name.name) {
                Some(n) => updated_source(x, n),
                None => Seq::empty(),
            },
            _ => Seq::empty(),
        }
}

/// The steps for the datasources of two schemas: first for the datasources that
/// only the later one has, then for those that only the earlier one has,
/// then for those that both have.
pub open spec fn datasources_steps(previous: Seq<TopView>, next: Seq<TopView>) -> Steps {
    next.flat_map(created_source_top(previous)) + previous.flat_map(deleted_source_top(next))
        + previous.flat_map(updated_source_top(next))
}

impl SchemaAst {
    /// The first source of that name.
    #[verifier::loop_isolation(false)]
    pub fn find_source(&self, name: &str) -> (r: Option<&SourceConfig>)
        ensures
            r.deep_view() == find_source(self.deep_view().tops, name@),
    {
        let ghost p = source_named(name@);
        let mut i: usize = 0;
        while i < self.tops.len()
            invariant
                i <= self.tops.len(),
                forall|j: int| 0 <= j < i ==> !p(#[trigger] self.deep_view().tops[j]),
            decreases self.tops.len() - i,
        {
            match &self.tops[i] {
                Top::Source(x) => {
                    if str_eq(x.name.name.as_str(), name) {
                        proof {
                            lemma_position_is(self.deep_view().tops, p, i as int);
                        }
                        return Some(x);
                    }
                },
                _ => {},
            }
            i = i + 1;
        }
        proof {
            lemma_position_none(self.deep_view().tops, p);
        }
        None
    }
}

/// Pushes the steps for the datasources of two schemas.
#[verifier::loop_isolation(false)]
pub fn push_datasources(steps: &mut Vec<MigrationStep>, previous: &SchemaAst, next: &SchemaAst)
    ensures
        final(steps).deep_view() == old(steps).deep_view() + datasources_steps(
            previous.deep_view().tops,
            next.deep_view().tops,
        ),
{
    let ghost before = steps.deep_view();
    let ghost p = previous.deep_view().tops;
    let ghost n = next.deep_view().tops;
    let ghost created = created_source_top(p);
    let ghost deleted = deleted_source_top(n);
    let ghost updated = updated_source_top(n);
    proof {
        lemma_each_none(n, created);
        lemma_each_none(p, deleted);
        lemma_each_none(p, updated);
    }
    let mut i: usize = 0;
    while i < next.tops.len()
        invariant
            i <= next.tops.len(),
            steps.deep_view() == before + n.take(i as int).flat_map(created),
        decreases next.tops.len() - i,
    {
        proof {
            lemma_each_step(n, created, i as int);
        }
        match &next.tops[i] {
            Top::Source(x) => {
                if previous.find_source(x.name.name.as_str()).is_none() {
                    push_created_source(steps, x);
                }
            },
            _ => {},
        }
        i = i + 1;
    }
    let ghost s1 = steps.deep_view();
    let mut i: usize = 0;
    while i < previous.tops.len()
        invariant
            i <= previous.tops.len(),
            steps.deep_view() == s1 + p.take(i as int).flat_map(deleted),
        decreases previous.tops.len() - i,
    {
        proof {
            lemma_each_step(p, deleted, i as int);
        }
        match &previous.tops[i] {
            Top::Source(x) => {
                if next.find_source(x.name.name.as_str()).is_none() {
                    push_deleted_source(steps, x);
                }
            },
            _ => {},
        }
        i = i + 1;
    }
    let ghost s2 = steps.deep_view();
    let mut i: usize = 0;
    while i < previous.tops.len()
        invariant
            i <= previous.tops.len(),
            steps.deep_view() == s2 + p.take(i as int).flat_map(updated),
        decreases previous.tops.len() - i,
    {
        proof {
            lemma_each_step(p, updated, i as int);
        }
        match &previous.tops[i] {
            Top::Source(x) => {
                match next.find_source(x.name.name.as_str()) {
                    Some(counterpart) => {
                        push_updated_source(steps, x, counterpart);
                    },
                    None => {},
                }
            },
            _ => {},
        }
        i = i + 1;
    }
}

} // verus!
