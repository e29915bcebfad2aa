//! Finding a thing of a schema by its name.

use crate::ast::{
    Argument, ArgumentView, Attribute, AttributeView, EnumValue, EnumValueView, Field, FieldView,
};
use crate::seqs::{find, lemma_position_is, lemma_position_none};
use crate::text::str_eq;
use vstd::prelude::*;
use vstd::string::*;

verus! {

/// The things whose name, as `key` gives it, is `k`.
pub open spec fn with_key<T>(key: spec_fn(T) -> Seq<char>, k: Seq<char>) -> spec_fn(T) -> bool {
    |x: T| key(x) == k
}

/// The first thing of the list whose name is `k`.
pub open spec fn lookup<T>(s: Seq<T>, key: spec_fn(T) -> Seq<char>, k: Seq<char>) -> Option<T> {
    find(s, with_key(key, k))
}

/// The name of an attribute.
pub open spec fn attribute_name() -> spec_fn(AttributeView) -> Seq<char> {
    |a: AttributeView| a.name.name
}

/// The name of an argument.
pub open spec fn argument_name() -> spec_fn(ArgumentView) -> Seq<char> {
    |a: ArgumentView| a.name.name
}

/// The name of a field.
pub open spec fn field_name() -> spec_fn(FieldView) -> Seq<char> {
    |f: FieldView| f.name.name
}

/// The name of a value of an enum.
pub open spec fn value_name() -> spec_fn(EnumValueView) -> Seq<char> {
    |v: EnumValueView| v.name.name
}

/// The first attribute of that name.
#[verifier::loop_isolation(false)]
pub fn find_attribute<'a>(attributes: &'a Vec<Attribute>, name: &str) -> (r: Option<&'a Attribute>)
    ensures
        r.deep_view() == lookup(attributes.deep_view(), attribute_name(), name@),
{
    let ghost p = with_key(attribute_name(), name@);
    let mut i: usize = 0;
    while i < attributes.len()
        invariant
            i <= attributes.len(),
            forall|j: int| 0 <= j < i ==> !p(#[trigger] attributes.deep_view()[j]),
        decreases attributes.len() - i,
    {
        if str_eq(attributes[i].name.name.as_str(), name) {
            proof {
                lemma_position_is(attributes.deep_view(), p, i as int);
            }
            return Some(&attributes[i]);
        }
        i = i + 1;
    }
    proof {
        lemma_position_none(attributes.deep_view(), p);
    }
    None
}

/// The first argument of that name.
#[verifier::loop_isolation(false)]
pub fn find_argument<'a>(arguments: &'a Vec<Argument>, name: &str) -> (r: Option<&'a Argument>)
    ensures
        r.deep_view() == lookup(arguments.deep_view(), argument_name(), name@),
{
    let ghost p = with_key(argument_name(), name@);
    let mut i: usize = 0;
    while i < arguments.len()
        invariant
            i <= arguments.len(),
            forall|j: int| 0 <= j < i ==> !p(#[trigger] arguments.deep_view()[j]),
        decreases arguments.len() - i,
    {
        if str_eq(arguments[i].name.name.as_str(), name) {
            proof {
                lemma_position_is(arguments.deep_view(), p, i as int);
            }
            return Some(&arguments[i]);
        }
        i = i + 1;
    }
    proof {
        lemma_position_none(arguments.deep_view(), p);
    }
    None
}

/// The first field of that name.
#[verifier::loop_isolation(false)]
pub fn find_field<'a>(fields: &'a Vec<Field>, name: &str) -> (r: Option<&'a Field>)
    ensures
        r.deep_view() == lookup(fields.deep_view(), field_name(), name@),
{
    let ghost p = with_key(field_name(), name@);
    let mut i: usize = 0;
    while i < fields.len()
        invariant
            i <= fields.len(),
            forall|j: int| 0 <= j < i ==> !p(#[trigger] fields.deep_view()[j]),
        decreases fields.len() - i,
    {
        if str_eq(fields[i].name.name.as_str(), name) {
            proof {
                lemma_position_is(fields.deep_view(), p, i as int);
            }
            return Some(&fields[i]);
        }
        i = i + 1;
    }
    proof {
        lemma_position_none(fields.deep_view(), p);
    }
    None
}

/// The first value of that name.
#[verifier::loop_isolation(false)]
pub fn find_value<'a>(values: &'a Vec<EnumValue>, name: &str) -> (r: Option<&'a EnumValue>)
    ensures
        r.deep_view() == lookup(values.deep_view(), value_name(), name@),
{
    let ghost p = with_key(value_name(), name@);
    let mut i: usize = 0;
    while i < values.len()
        invariant
            i <= values.len(),
            forall|j: int| 0 <= j < i ==> !p(#[trigger] values.deep_view()[j]),
        decreases values.len() - i,
    {
        if str_eq(values[i].name.name.as_str(), name) {
            proof {
                lemma_position_is(values.deep_view(), p, i as int);
            }
            return Some(&values[i]);
        }
        i = i + 1;
    }
    proof {
        lemma_position_none(values.deep_view(), p);
    }
    None
}

} // verus!
