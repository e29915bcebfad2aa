//! The steps for a thing by whether it has a counterpart of its name.

pub use crate::ast::names::{
    argument_name, attribute_name, field_name, find_argument, find_attribute, find_field,
    find_value, lookup, value_name, with_key,
};
use crate::steps::{MigrationStep, MigrationStepView};
use vstd::prelude::*;
use vstd::string::*;

verus! {

pub type Steps = Seq<MigrationStepView>;

/// The steps `f` for a thing that has no counterpart among `others`, and
/// no steps for one that has.
pub open spec fn if_absent<T>(
    others: Seq<T>,
    key: spec_fn(T) -> Seq<char>,
    f: spec_fn(T) -> Steps,
) -> spec_fn(T) -> Steps {
    |x: T|
        if lookup(others, key, key(x)) is Some {
            Seq::empty()
        } else {
            f(x)
        }
}

/// The steps `f` for a thing and its counterpart among `others`, and no
/// steps for a thing that has none.
pub open spec fn if_present<T>(
    others: Seq<T>,
    key: spec_fn(T) -> Seq<char>,
    f: spec_fn(T, T) -> Steps,
) -> spec_fn(T) -> Steps {
    |x: T|
        match lookup(others, key, key(x)) {
            Some(y) => f(x, y),
            None => Seq::empty(),
        }
}

/// The steps of one thing more are added behind the steps of the things
/// before it.
pub proof fn lemma_each_step<T>(s: Seq<T>, f: spec_fn(T) -> Steps, i: int)
    requires
        0 <= i < s.len(),
    ensures
        s.take(i + 1).flat_map(f) == s.take(i).flat_map(f) + f(s[i]),
{
    s.lemma_take_succ_push(i);
    s.take(i).lemma_flat_map_push(f, s[i]);
}

/// No thing, no steps.
pub proof fn lemma_each_none<T>(s: Seq<T>, f: spec_fn(T) -> Steps)
    ensures
        s.take(0).flat_map(f) == Steps::empty(),
        s.take(s.len() as int) == s,
{
    assert(s.take(0) =~= Seq::<T>::empty());
    assert(s.take(0).map_values(f) =~= Seq::<Steps>::empty());
    assert(s.take(0).flat_map(f) =~= Steps::empty());
    assert(s.take(s.len() as int) =~= s);
}

/// Puts the steps `more` behind `steps`.
pub fn append(steps: &mut Vec<MigrationStep>, more: Vec<MigrationStep>)
    ensures
        final(steps).deep_view() == old(steps).deep_view() + more.deep_view(),
{
    let ghost before = steps.deep_view();
    let ghost added = more.deep_view();
    let mut more = more;
    steps.append(&mut more);
    assert(steps.deep_view() =~= before + added);
}

} // verus!
