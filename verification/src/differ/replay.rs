//! What a list of steps does to a schema, seen from one place of the schema
//! at a time: from a model, from a field of a model, from an enum or from
//! a value of an enum.
//!
//! Steps for attributes, arguments, datasources and type aliases change
//! none of these places. No step of the differ renames anything, so a new
//! name in an update is not followed here.

use crate::ast::{FieldArity, SchemaAstView};
use crate::differ::enums::find_enum;
use crate::differ::matching::{field_name, lookup, value_name, Steps};
use crate::differ::models::find_model;
use crate::seqs::{find, lemma_flat_map_step, lemma_position, position};
use crate::steps::MigrationStepView;
use vstd::prelude::*;

verus! {

/// A place of a schema.
pub enum Point {
    Model { model: Seq<char> },
    Field { model: Seq<char>, field: Seq<char> },
    Enum { enum_name: Seq<char> },
    Value { enum_name: Seq<char>, value: Seq<char> },
}

/// What stands at a place of a schema: nothing, something, or a field of
/// a type and an arity.
pub enum Seen {
    Absent,
    Present,
    Field { tpe: Seq<char>, arity: FieldArity },
}

/// What stands at a place of the schema.
pub open spec fn seen(x: SchemaAstView, at: Point) -> Seen {
    match at {
        Point::Model { model } => if find_model(x.tops, model) is Some {
            Seen::Present
        } else {
            Seen::Absent
        },
        Point::Field { model, field } => match find_model(x.tops, model) {
            Some(m) => match lookup(m.fields, field_name(), field) {
                Some(f) => Seen::Field { tpe: f.field_type.name, arity: f.arity },
                None => Seen::Absent,
            },
            None => Seen::Absent,
        },
        Point::Enum { enum_name } => if find_enum(x.tops, enum_name) is Some {
            Seen::Present
        } else {
            Seen::Absent
        },
        Point::Value { enum_name, value } => match find_enum(x.tops, enum_name) {
            Some(e) => if lookup(e.values, value_name(), value) is Some {
                Seen::Present
            } else {
                Seen::Absent
            },
            None => Seen::Absent,
        },
    }
}

/// Whether the place is the model of the name, or a field of it.
pub open spec fn within_model(at: Point, name: Seq<char>) -> bool {
    match at {
        Point::Model { model } => model == name,
        Point::Field { model, .. } => model == name,
        _ => false,
    }
}

/// Whether the place is the enum of the name, or a value of it.
pub open spec fn within_enum(at: Point, name: Seq<char>) -> bool {
    match at {
        Point::Enum { enum_name } => enum_name == name,
        Point::Value { enum_name, .. } => enum_name == name,
        _ => false,
    }
}

/// Whether the step can change what stands at the place.
pub open spec fn touches(step: MigrationStepView, at: Point) -> bool {
    match step {
        MigrationStepView::CreateModel(s) => within_model(at, s.model),
        MigrationStepView::DeleteModel(s) => within_model(at, s.model),
        MigrationStepView::CreateField(s) => at == (Point::Field { model: s.model, field: s.field }),
        MigrationStepView::DeleteField(s) => at == (Point::Field { model: s.model, field: s.field }),
        MigrationStepView::UpdateField(s) => at == (Point::Field { model: s.model, field: s.field }),
        MigrationStepView::CreateEnum(s) => within_enum(at, s.enum_name),
        MigrationStepView::DeleteEnum(s) => within_enum(at, s.enum_name),
        MigrationStepView::UpdateEnum(s) => at matches Point::Value { enum_name, .. } && enum_name
            == s.enum_name,
        _ => false,
    }
}

/// What stands at the place after the step, given what stood there before.
/// A model that is created has no fields yet; an enum is created with its
/// values; what is deleted is gone with all that it held; an update of a
/// field changes the type and the arity that it names; an update of an
/// enum takes away the values that it deletes and adds those that it
/// creates.
pub open spec fn after(step: MigrationStepView, at: Point, before: Seen) -> Seen {
    if !touches(step, at) {
        before
    } else {
        match step {
            MigrationStepView::CreateModel(_) => if at is Model {
                Seen::Present
            } else {
                Seen::Absent
            },
            MigrationStepView::DeleteModel(_) => Seen::Absent,
            MigrationStepView::CreateField(s) => Seen::Field { tpe: s.tpe, arity: s.arity },
            MigrationStepView::DeleteField(_) => Seen::Absent,
            MigrationStepView::UpdateField(s) => match before {
                Seen::Field { tpe, arity } => Seen::Field {
                    tpe: match s.tpe {
                        Some(t) => t,
                        None => tpe,
                    },
                    arity: match s.arity {
                        Some(a) => a,
                        None => arity,
                    },
                },
                _ => before,
            },
            MigrationStepView::CreateEnum(s) => match at {
                Point::Value { value, .. } => if s.values.contains(value) {
                    Seen::Present
                } else {
                    Seen::Absent
                },
                _ => Seen::Present,
            },
            MigrationStepView::DeleteEnum(_) => Seen::Absent,
            MigrationStepView::UpdateEnum(s) => match at {
                Point::Value { value, .. } => if s.deleted_values.contains(value) {
                    Seen::Absent
                } else if s.created_values.contains(value) {
                    Seen::Present
                } else {
                    before
                },
                _ => before,
            },
            _ => before,
        }
    }
}

/// What stands at the place after all the steps, one after the other.
pub open spec fn replayed(steps: Steps, at: Point, before: Seen) -> Seen
    decreases steps.len(),
{
    if steps.len() == 0 {
        before
    } else {
        after(steps.last(), at, replayed(steps.drop_last(), at, before))
    }
}

/// Every step of the list is one of `good`.
pub open spec fn all_steps(steps: Steps, good: spec_fn(MigrationStepView) -> bool) -> bool {
    forall|k: int| 0 <= k < steps.len() ==> good(#[trigger] steps[k])
}

/// The steps that cannot change what stands at the place.
pub open spec fn leaves(at: Point) -> spec_fn(MigrationStepView) -> bool {
    |step: MigrationStepView| !touches(step, at)
}

/// The steps that change no model, no field and no enum.
pub open spec fn beside() -> spec_fn(MigrationStepView) -> bool {
    |step: MigrationStepView|
        match step {
            MigrationStepView::CreateModel(_) => false,
            MigrationStepView::UpdateModel(_) => false,
            MigrationStepView::DeleteModel(_) => false,
            MigrationStepView::CreateField(_) => false,
            MigrationStepView::UpdateField(_) => false,
            MigrationStepView::DeleteField(_) => false,
            MigrationStepView::CreateEnum(_) => false,
            MigrationStepView::UpdateEnum(_) => false,
            MigrationStepView::DeleteEnum(_) => false,
            _ => true,
        }
}

/// No step of the list can change what stands at the place.
pub open spec fn silent(steps: Steps, at: Point) -> bool {
    all_steps(steps, leaves(at))
}

/// No step of the list changes a model, a field or an enum.
pub open spec fn plain(steps: Steps) -> bool {
    all_steps(steps, beside())
}

/// Steps that change no model, no field and no enum are silent everywhere.
pub proof fn lemma_plain_is_silent(steps: Steps, at: Point)
    requires
        plain(steps),
    ensures
        silent(steps, at),
{
    assert forall|k: int| 0 <= k < steps.len() implies leaves(at)(#[trigger] steps[k]) by {
        assert(beside()(steps[k]));
    }
}

/// Replaying two lists of steps, one behind the other, is replaying the
/// second on what replaying the first gives.
pub proof fn lemma_replayed_both(a: Steps, b: Steps, at: Point, before: Seen)
    ensures
        replayed(a + b, at, before) == replayed(b, at, replayed(a, at, before)),
    decreases b.len(),
{
    if b.len() == 0 {
        assert(a + b =~= a);
    } else {
        lemma_replayed_both(a, b.drop_last(), at, before);
        assert((a + b).drop_last() =~= a + b.drop_last());
        assert((a + b).last() == b.last());
    }
}

/// Replaying steps that are silent at a place changes nothing there.
pub proof fn lemma_silent(steps: Steps, at: Point, before: Seen)
    requires
        silent(steps, at),
    ensures
        replayed(steps, at, before) == before,
    decreases steps.len(),
{
    if steps.len() > 0 {
        assert(silent(steps.drop_last(), at)) by {
            assert forall|k: int| 0 <= k < steps.drop_last().len() implies leaves(at)(
                #[trigger] steps.drop_last()[k],
            ) by {
                assert(steps.drop_last()[k] == steps[k]);
                assert(leaves(at)(steps[k]));
            }
        }
        lemma_silent(steps.drop_last(), at, before);
        assert(leaves(at)(steps[steps.len() - 1]));
    }
}

/// Two lists of good steps make a list of good steps.
pub proof fn lemma_all_both(a: Steps, b: Steps, good: spec_fn(MigrationStepView) -> bool)
    requires
        all_steps(a, good),
        all_steps(b, good),
    ensures
        all_steps(a + b, good),
{
    assert forall|k: int| 0 <= k < (a + b).len() implies good(#[trigger] (a + b)[k]) by {
        if k < a.len() {
            assert((a + b)[k] == a[k]);
        } else {
            assert((a + b)[k] == b[k - a.len()]);
        }
    }
}

/// Where each thing gives a list of good steps, all the things together
/// give one.
pub proof fn lemma_all_each<T>(
    xs: Seq<T>,
    f: spec_fn(T) -> Steps,
    good: spec_fn(MigrationStepView) -> bool,
)
    requires
        forall|i: int| 0 <= i < xs.len() ==> all_steps(#[trigger] f(xs[i]), good),
    ensures
        all_steps(xs.flat_map(f), good),
{
    lemma_all_upto(xs, f, good, xs.len() as int);
    assert(xs.take(xs.len() as int) =~= xs);
}

proof fn lemma_all_upto<T>(
    xs: Seq<T>,
    f: spec_fn(T) -> Steps,
    good: spec_fn(MigrationStepView) -> bool,
    k: int,
)
    requires
        0 <= k <= xs.len(),
        forall|i: int| 0 <= i < xs.len() ==> all_steps(#[trigger] f(xs[i]), good),
    ensures
        all_steps(xs.take(k).flat_map(f), good),
    decreases k,
{
    if k == 0 {
        assert(xs.take(0) =~= Seq::<T>::empty());
        assert(xs.take(0).flat_map(f) =~= Steps::empty()) by {
            assert(xs.take(0).map_values(f) =~= Seq::<Steps>::empty());
        }
    } else {
        lemma_all_upto(xs, f, good, k - 1);
        lemma_flat_map_step(xs, f, k - 1);
        assert(all_steps(f(xs[k - 1]), good));
        lemma_all_both(xs.take(k - 1).flat_map(f), f(xs[k - 1]), good);
    }
}

/// Where all things but one give a silent list, replaying what all the
/// things give is replaying what that one gives.
pub proof fn lemma_only_one<T>(xs: Seq<T>, f: spec_fn(T) -> Steps, at: Point, i: int, before: Seen)
    requires
        0 <= i < xs.len(),
        forall|j: int| 0 <= j < xs.len() && j != i ==> silent(#[trigger] f(xs[j]), at),
    ensures
        replayed(xs.flat_map(f), at, before) == replayed(f(xs[i]), at, before),
{
    lemma_only_one_upto(xs, f, at, i, before, xs.len() as int);
    assert(xs.take(xs.len() as int) =~= xs);
}

proof fn lemma_only_one_upto<T>(
    xs: Seq<T>,
    f: spec_fn(T) -> Steps,
    at: Point,
    i: int,
    before: Seen,
    k: int,
)
    requires
        0 <= i < xs.len(),
        0 <= k <= xs.len(),
        forall|j: int| 0 <= j < xs.len() && j != i ==> silent(#[trigger] f(xs[j]), at),
    ensures
        replayed(xs.take(k).flat_map(f), at, before) == if k <= i {
            before
        } else {
            replayed(f(xs[i]), at, before)
        },
    decreases k,
{
    if k == 0 {
        assert(xs.take(0) =~= Seq::<T>::empty());
        assert(xs.take(0).flat_map(f) =~= Steps::empty()) by {
            assert(xs.take(0).map_values(f) =~= Seq::<Steps>::empty());
        }
    } else {
        lemma_only_one_upto(xs, f, at, i, before, k - 1);
        lemma_flat_map_step(xs, f, k - 1);
        let head = xs.take(k - 1).flat_map(f);
        lemma_replayed_both(head, f(xs[k - 1]), at, before);
        if k - 1 != i {
            assert(silent(f(xs[k - 1]), at));
            lemma_silent(f(xs[k - 1]), at, replayed(head, at, before));
        }
    }
}

/// Replaying one step is taking the step.
pub proof fn lemma_replayed_one(step: MigrationStepView, at: Point, before: Seen)
    ensures
        replayed(seq![step], at, before) == after(step, at, before),
{
    let s = seq![step];
    assert(s.drop_last() =~= Steps::empty());
    assert(s.last() == step);
    assert(replayed(s.drop_last(), at, before) == before);
}

/// Where at most one thing of a list is one of `p`, and the others give
/// silent lists, replaying what all the things give is replaying what that
/// one gives, or nothing where there is none.
pub proof fn lemma_only_found<T>(
    xs: Seq<T>,
    p: spec_fn(T) -> bool,
    f: spec_fn(T) -> Steps,
    at: Point,
    before: Seen,
)
    requires
        forall|i: int, j: int| 0 <= i < j < xs.len() ==> !(p(xs[i]) && p(xs[j])),
        forall|j: int| 0 <= j < xs.len() && !p(xs[j]) ==> silent(#[trigger] f(xs[j]), at),
    ensures
        replayed(xs.flat_map(f), at, before) == match find(xs, p) {
            Some(x) => replayed(f(x), at, before),
            None => before,
        },
{
    lemma_position(xs, p);
    match position(xs, p) {
        Some(i) => {
            assert forall|j: int| 0 <= j < xs.len() && j != i implies silent(
                #[trigger] f(xs[j]),
                at,
            ) by {
                if p(xs[j]) {
                    if j < i {
                        assert(!(p(xs[j]) && p(xs[i])));
                    } else {
                        assert(!(p(xs[i]) && p(xs[j])));
                    }
                }
            }
            lemma_only_one(xs, f, at, i, before);
        },
        None => {
            lemma_all_each(xs, f, leaves(at));
            lemma_silent(xs.flat_map(f), at, before);
        },
    }
}

} // verus!
