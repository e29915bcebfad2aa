//! What holds of the steps between two schemas whatever the schemas.

use crate::ast::{
    ArgumentView, AttributeView, EnumView, FieldView, ModelView, SchemaAstView, SourceConfigView,
    TopView,
};
use crate::differ::arguments::{
    arguments_steps, created_argument, deleted_argument, updated_argument,
};
use crate::differ::directives::{
    created_directive, created_directive_with_arguments, deleted_directive,
    deleted_directive_with_arguments, directives_steps, updated_directive,
};
use crate::differ::enums::{
    created_enum_top, created_value_directives, deleted_enum_top, enum_named, enum_path,
    enum_update, find_enum, updated_enum, updated_enum_top, updated_value, value_absent,
    value_path,
};
use crate::differ::fields::{
    created_field, deleted_field, field_path, fields_steps, updated_field,
};
use crate::differ::matching::{
    argument_name, attribute_name, field_name, if_absent, if_present, lemma_each_none,
    lemma_each_step, lookup, value_name, with_key, Steps,
};
use crate::differ::models::{
    created_model_top, deleted_model_top, find_model, is_repeated, matched_by, matches_exactly,
    matching, model_named, model_path, regular, repeated_created, repeated_deleted, same_argument,
    unmatched_argument, updated_model, updated_model_top,
};
use crate::differ::sources::{
    created_source_argument, created_source_top, deleted_source_top, find_source, source_location,
    source_named, updated_source, updated_source_argument, updated_source_top,
};
use crate::differ::steps_between;
use crate::differ::type_aliases::{
    alias_path, created_type_alias_top, deleted_type_alias_top, find_type_alias, type_alias_named,
    updated_type_alias, updated_type_alias_top,
};
use crate::migrations::laws::lemma_filter_none;
use crate::seqs::{lemma_position, lemma_position_is, lemma_position_none};
use crate::steps::{ArgumentLocationView, DirectiveLocationView, DirectivePathView};
use vstd::prelude::*;

verus! {

/// No two things of the list have the same name.
pub open spec fn keys_unique<T>(s: Seq<T>, key: spec_fn(T) -> Seq<char>) -> bool {
    forall|i: int, j: int| 0 <= i < j < s.len() ==> key(s[i]) != key(s[j])
}

/// No two arguments have the same name.
pub open spec fn arguments_unique(arguments: Seq<ArgumentView>) -> bool {
    keys_unique(arguments, argument_name())
}

/// No two attributes have the same name, and no two arguments of an
/// attribute have the same name.
pub open spec fn attributes_unique(attributes: Seq<AttributeView>) -> bool {
    &&& keys_unique(attributes, attribute_name())
    &&& forall|i: int| 0 <= i < attributes.len() ==> arguments_unique(#[trigger] attributes[i].arguments)
}

/// Only attributes that a model can carry more than once share a name, and
/// no two arguments of another attribute have the same name.
pub open spec fn model_attributes_unique(attributes: Seq<AttributeView>) -> bool {
    &&& forall|i: int, j: int|
        0 <= i < j < attributes.len() && attributes[i].name.name == attributes[j].name.name
            ==> is_repeated(attributes[i])
    &&& forall|i: int|
        0 <= i < attributes.len() && !is_repeated(attributes[i]) ==> arguments_unique(
            #[trigger] attributes[i].arguments,
        )
}

/// The names inside a model are unique.
pub open spec fn model_unique(m: ModelView) -> bool {
    &&& keys_unique(m.fields, field_name())
    &&& forall|i: int| 0 <= i < m.fields.len() ==> attributes_unique(#[trigger] m.fields[i].attributes)
    &&& model_attributes_unique(m.attributes)
}

/// The names inside an enum are unique.
pub open spec fn enum_unique(e: EnumView) -> bool {
    &&& keys_unique(e.values, value_name())
    &&& forall|i: int| 0 <= i < e.values.len() ==> attributes_unique(#[trigger] e.values[i].attributes)
    &&& attributes_unique(e.attributes)
}

/// The names inside a thing at the top of a schema are unique.
pub open spec fn top_unique(t: TopView) -> bool {
    match t {
        TopView::Model(m) => model_unique(m),
        TopView::Enum(e) => enum_unique(e),
        TopView::Source(s) => arguments_unique(s.properties),
        TopView::Type(f) => attributes_unique(f.attributes),
        TopView::Generator(_) => true,
    }
}

/// Two things at the top of a schema are of the same kind and name.
pub open spec fn same_kind_and_name(a: TopView, b: TopView) -> bool {
    match (a, b) {
        (TopView::Model(x), TopView::Model(y)) => x.name.name == y.name.name,
        (TopView::Enum(x), TopView::Enum(y)) => x.name.name == y.name.name,
        (TopView::Source(x), TopView::Source(y)) => x.name.name == y.name.name,
        (TopView::Type(x), TopView::Type(y)) => x.name.name == y.name.name,
        _ => false,
    }
}

/// Every name of the schema is unique where it stands: no two models, no
/// two enums, no two datasources and no two type aliases share a name, nor
/// two fields of a model, two values of an enum, two attributes of a thing
/// (but those that a model can carry more than once) or two arguments of an
/// attribute.
pub open spec fn names_unique(x: SchemaAstView) -> bool {
    &&& forall|i: int, j: int| 0 <= i < j < x.tops.len() ==> !same_kind_and_name(x.tops[i], x.tops[j])
    &&& forall|i: int| 0 <= i < x.tops.len() ==> top_unique(#[trigger] x.tops[i])
}

/// Where the names are unique, a thing is found under its own name.
pub proof fn lemma_lookup_self<T>(s: Seq<T>, key: spec_fn(T) -> Seq<char>, i: int)
    requires
        keys_unique(s, key),
        0 <= i < s.len(),
    ensures
        lookup(s, key, key(s[i])) == Some(s[i]),
{
    lemma_position_is(s, with_key(key, key(s[i])), i);
}

/// Things that each give no steps give no steps together.
pub proof fn lemma_each_empty<T>(s: Seq<T>, f: spec_fn(T) -> Steps)
    requires
        forall|i: int| 0 <= i < s.len() ==> #[trigger] f(s[i]) == Steps::empty(),
    ensures
        s.flat_map(f) == Steps::empty(),
{
    lemma_each_empty_upto(s, f, s.len() as int);
    lemma_each_none(s, f);
}

proof fn lemma_each_empty_upto<T>(s: Seq<T>, f: spec_fn(T) -> Steps, k: int)
    requires
        0 <= k <= s.len(),
        forall|i: int| 0 <= i < s.len() ==> #[trigger] f(s[i]) == Steps::empty(),
    ensures
        s.take(k).flat_map(f) == Steps::empty(),
    decreases k,
{
    if k == 0 {
        lemma_each_none(s, f);
    } else {
        lemma_each_empty_upto(s, f, k - 1);
        lemma_each_step(s, f, k - 1);
        assert(f(s[k - 1]) == Steps::empty());
        assert(Steps::empty() + Steps::empty() =~= Steps::empty());
    }
}

/// Arguments compared with themselves give no steps.
pub proof fn lemma_arguments_unchanged(location: ArgumentLocationView, a: Seq<ArgumentView>)
    requires
        arguments_unique(a),
    ensures
        arguments_steps(location, a, a) == Steps::empty(),
{
    let created = if_absent(a, argument_name(), created_argument(location));
    let updated = if_present(a, argument_name(), updated_argument(location));
    let deleted = if_absent(a, argument_name(), deleted_argument(location));
    assert forall|i: int| 0 <= i < a.len() implies #[trigger] created(a[i]) == Steps::empty() by {
        lemma_lookup_self(a, argument_name(), i);
        }
    assert forall|i: int| 0 <= i < a.len() implies #[trigger] updated(a[i]) == Steps::empty() by {
        lemma_lookup_self(a, argument_name(), i);
        }
    assert forall|i: int| 0 <= i < a.len() implies #[trigger] deleted(a[i]) == Steps::empty() by {
        lemma_lookup_self(a, argument_name(), i);
        }
    lemma_each_empty(a, created);
    lemma_each_empty(a, updated);
    lemma_each_empty(a, deleted);
    assert(Steps::empty() + Steps::empty() =~= Steps::empty());
}

/// Attributes compared with themselves give no steps.
pub proof fn lemma_directives_unchanged(path: DirectivePathView, a: Seq<AttributeView>)
    requires
        attributes_unique(a),
    ensures
        directives_steps(path, a, a) == Steps::empty(),
{
    let created = if_absent(a, attribute_name(), created_directive(path));
    let updated = if_present(a, attribute_name(), updated_directive(path));
    let deleted = if_absent(a, attribute_name(), deleted_directive(path));
    assert forall|i: int| 0 <= i < a.len() implies #[trigger] created(a[i]) == Steps::empty() by {
        lemma_lookup_self(a, attribute_name(), i);
        lemma_arguments_unchanged(
            ArgumentLocationView::Directive(
                DirectiveLocationView { path, directive: a[i].name.name },
            ),
            a[i].arguments,
        );
        }
    assert forall|i: int| 0 <= i < a.len() implies #[trigger] updated(a[i]) == Steps::empty() by {
        lemma_lookup_self(a, attribute_name(), i);
        lemma_arguments_unchanged(
            ArgumentLocationView::Directive(
                DirectiveLocationView { path, directive: a[i].name.name },
            ),
            a[i].arguments,
        );
        }
    assert forall|i: int| 0 <= i < a.len() implies #[trigger] deleted(a[i]) == Steps::empty() by {
        lemma_lookup_self(a, attribute_name(), i);
        lemma_arguments_unchanged(
            ArgumentLocationView::Directive(
                DirectiveLocationView { path, directive: a[i].name.name },
            ),
            a[i].arguments,
        );
        }
    lemma_each_empty(a, created);
    lemma_each_empty(a, updated);
    lemma_each_empty(a, deleted);
    assert(Steps::empty() + Steps::empty() =~= Steps::empty());
}

/// Fields compared with themselves give no steps.
pub proof fn lemma_fields_unchanged(model: Seq<char>, fields: Seq<FieldView>)
    requires
        keys_unique(fields, field_name()),
        forall|i: int| 0 <= i < fields.len() ==> attributes_unique(#[trigger] fields[i].attributes),
    ensures
        fields_steps(model, fields, fields) == Steps::empty(),
{
    let created = if_absent(fields, field_name(), created_field(model));
    let deleted = if_absent(fields, field_name(), deleted_field(model));
    let updated = if_present(fields, field_name(), updated_field(model));
    assert forall|i: int| 0 <= i < fields.len() implies
        #[trigger] created(fields[i]) == Steps::empty() by {
        lemma_lookup_self(fields, field_name(), i);
        lemma_directives_unchanged(field_path(model, fields[i]), fields[i].attributes);
        assert(Steps::empty() + Steps::empty() =~= Steps::empty());
        }
    assert forall|i: int| 0 <= i < fields.len() implies
        #[trigger] updated(fields[i]) == Steps::empty() by {
        lemma_lookup_self(fields, field_name(), i);
        lemma_directives_unchanged(field_path(model, fields[i]), fields[i].attributes);
        assert(Steps::empty() + Steps::empty() =~= Steps::empty());
        }
    assert forall|i: int| 0 <= i < fields.len() implies
        #[trigger] deleted(fields[i]) == Steps::empty() by {
        lemma_lookup_self(fields, field_name(), i);
        lemma_directives_unchanged(field_path(model, fields[i]), fields[i].attributes);
        assert(Steps::empty() + Steps::empty() =~= Steps::empty());
        }
    lemma_each_empty(fields, created);
    lemma_each_empty(fields, deleted);
    lemma_each_empty(fields, updated);
    assert(Steps::empty() + Steps::empty() =~= Steps::empty());
}

/// An attribute matches itself exactly.
pub proof fn lemma_matches_itself(d: AttributeView)
    ensures
        matches_exactly(d, d),
{
    let p = unmatched_argument(d.arguments);
    assert forall|i: int| 0 <= i < d.arguments.len() implies !p(#[trigger] d.arguments[i]) by {
        let q = same_argument(d.arguments[i]);
        assert(q(d.arguments[i]));
        lemma_position(d.arguments, q);
    }
    lemma_position_none(d.arguments, p);
}

/// Among the attributes of a model, one that the model can carry only once
/// is found under its own name.
proof fn lemma_regular_lookup(a: Seq<AttributeView>, i: int)
    requires
        model_attributes_unique(a),
        0 <= i < a.len(),
        !is_repeated(a[i]),
    ensures
        lookup(a, attribute_name(), a[i].name.name) == Some(a[i]),
{
    lemma_position_is(a, with_key(attribute_name(), a[i].name.name), i);
}

/// A model compared with itself gives no steps.
pub proof fn lemma_model_unchanged(m: ModelView)
    requires
        model_unique(m),
    ensures
        updated_model(m, m) == Steps::empty(),
{
    let path = model_path(m);
    let a = m.attributes;
    lemma_fields_unchanged(m.name.name, m.fields);
    let created = regular(if_absent(a, attribute_name(), created_directive(path)));
    let updated = regular(if_present(a, attribute_name(), updated_directive(path)));
    let deleted = regular(if_absent(a, attribute_name(), deleted_directive(path)));
    let created_again = repeated_created(a, created_directive_with_arguments(path));
    let deleted_again = repeated_deleted(a, deleted_directive_with_arguments(path));
    assert forall|i: int| 0 <= i < a.len() implies #[trigger] created(a[i]) == Steps::empty() by {
        if is_repeated(a[i]) {
            lemma_matches_itself(a[i]);
            assert(matching(a[i])(a[i]));
            assert(matched_by(a[i])(a[i]));
            lemma_position(a, matching(a[i]));
            lemma_position(a, matched_by(a[i]));
        } else {
            lemma_regular_lookup(a, i);
            lemma_arguments_unchanged(
                ArgumentLocationView::Directive(
                    DirectiveLocationView { path, directive: a[i].name.name },
                ),
                a[i].arguments,
            );
        }
        }
    assert forall|i: int| 0 <= i < a.len() implies #[trigger] updated(a[i]) == Steps::empty() by {
        if is_repeated(a[i]) {
            lemma_matches_itself(a[i]);
            assert(matching(a[i])(a[i]));
            assert(matched_by(a[i])(a[i]));
            lemma_position(a, matching(a[i]));
            lemma_position(a, matched_by(a[i]));
        } else {
            lemma_regular_lookup(a, i);
            lemma_arguments_unchanged(
                ArgumentLocationView::Directive(
                    DirectiveLocationView { path, directive: a[i].name.name },
                ),
                a[i].arguments,
            );
        }
        }
    assert forall|i: int| 0 <= i < a.len() implies #[trigger] deleted(a[i]) == Steps::empty() by {
        if is_repeated(a[i]) {
            lemma_matches_itself(a[i]);
            assert(matching(a[i])(a[i]));
            assert(matched_by(a[i])(a[i]));
            lemma_position(a, matching(a[i]));
            lemma_position(a, matched_by(a[i]));
        } else {
            lemma_regular_lookup(a, i);
            lemma_arguments_unchanged(
                ArgumentLocationView::Directive(
                    DirectiveLocationView { path, directive: a[i].name.name },
                ),
                a[i].arguments,
            );
        }
        }
    assert forall|i: int| 0 <= i < a.len() implies
        #[trigger] created_again(a[i]) == Steps::empty() by {
        if is_repeated(a[i]) {
            lemma_matches_itself(a[i]);
            assert(matching(a[i])(a[i]));
            assert(matched_by(a[i])(a[i]));
            lemma_position(a, matching(a[i]));
            lemma_position(a, matched_by(a[i]));
        } else {
            lemma_regular_lookup(a, i);
            lemma_arguments_unchanged(
                ArgumentLocationView::Directive(
                    DirectiveLocationView { path, directive: a[i].name.name },
                ),
                a[i].arguments,
            );
        }
        }
    assert forall|i: int| 0 <= i < a.len() implies
        #[trigger] deleted_again(a[i]) == Steps::empty() by {
        if is_repeated(a[i]) {
            lemma_matches_itself(a[i]);
            assert(matching(a[i])(a[i]));
            assert(matched_by(a[i])(a[i]));
            lemma_position(a, matching(a[i]));
            lemma_position(a, matched_by(a[i]));
        } else {
            lemma_regular_lookup(a, i);
            lemma_arguments_unchanged(
                ArgumentLocationView::Directive(
                    DirectiveLocationView { path, directive: a[i].name.name },
                ),
                a[i].arguments,
            );
        }
        }
    lemma_each_empty(a, created);
    lemma_each_empty(a, updated);
    lemma_each_empty(a, deleted);
    lemma_each_empty(a, created_again);
    lemma_each_empty(a, deleted_again);
    assert(Steps::empty() + Steps::empty() =~= Steps::empty());
}

/// An enum compared with itself gives no steps.
pub proof fn lemma_enum_unchanged(e: EnumView)
    requires
        enum_unique(e),
    ensures
        updated_enum(e, e) == Steps::empty(),
{
    let v = e.values;
    let created = if_absent(v, value_name(), created_value_directives(e.name.name));
    let updated = if_present(v, value_name(), updated_value(e.name.name));
    assert forall|i: int| 0 <= i < v.len() implies #[trigger] created(v[i]) == Steps::empty() by {
        lemma_lookup_self(v, value_name(), i);
        lemma_directives_unchanged(value_path(e.name.name, v[i]), v[i].attributes);
        }
    assert forall|i: int| 0 <= i < v.len() implies #[trigger] updated(v[i]) == Steps::empty() by {
        lemma_lookup_self(v, value_name(), i);
        lemma_directives_unchanged(value_path(e.name.name, v[i]), v[i].attributes);
        }
    assert forall|i: int| 0 <= i < v.len() implies !value_absent(v)(#[trigger] v[i]) by {
        lemma_lookup_self(v, value_name(), i);
        lemma_directives_unchanged(value_path(e.name.name, v[i]), v[i].attributes);
        }
    lemma_each_empty(v, created);
    lemma_each_empty(v, updated);
    lemma_filter_none(v, value_absent(v));
    assert(v.filter(value_absent(v)).map_values(value_name()).len() == 0);
    assert(!enum_update(e, e).is_any_option_set());
    lemma_directives_unchanged(enum_path(e), e.attributes);
    assert(Steps::empty() + Steps::empty() =~= Steps::empty());
}

/// A datasource compared with itself gives no steps.
pub proof fn lemma_source_unchanged(s: SourceConfigView)
    requires
        arguments_unique(s.properties),
    ensures
        updated_source(s, s) == Steps::empty(),
{
    let a = s.properties;
    let location = source_location(s);
    let created = if_absent(a, argument_name(), created_source_argument(location));
    let deleted = if_absent(a, argument_name(), deleted_argument(location));
    let updated = if_present(a, argument_name(), updated_source_argument(location));
    assert forall|i: int| 0 <= i < a.len() implies #[trigger] created(a[i]) == Steps::empty() by {
        lemma_lookup_self(a, argument_name(), i);
        }
    assert forall|i: int| 0 <= i < a.len() implies #[trigger] updated(a[i]) == Steps::empty() by {
        lemma_lookup_self(a, argument_name(), i);
        }
    assert forall|i: int| 0 <= i < a.len() implies #[trigger] deleted(a[i]) == Steps::empty() by {
        lemma_lookup_self(a, argument_name(), i);
        }
    lemma_each_empty(a, created);
    lemma_each_empty(a, deleted);
    lemma_each_empty(a, updated);
    assert(Steps::empty() + Steps::empty() =~= Steps::empty());
}

/// A type alias compared with itself gives no steps.
pub proof fn lemma_alias_unchanged(f: FieldView)
    requires
        attributes_unique(f.attributes),
    ensures
        updated_type_alias(f, f) == Steps::empty(),
{
    lemma_directives_unchanged(alias_path(f), f.attributes);
    assert(Steps::empty() + Steps::empty() =~= Steps::empty());
}

/// Where the names are unique, each thing at the top of a schema is found
/// under its own name.
proof fn lemma_top_found(x: SchemaAstView, i: int)
    requires
        names_unique(x),
        0 <= i < x.tops.len(),
    ensures
        match x.tops[i] {
            TopView::Model(m) => find_model(x.tops, m.name.name) == Some(m),
            TopView::Enum(e) => find_enum(x.tops, e.name.name) == Some(e),
            TopView::Source(s) => find_source(x.tops, s.name.name) == Some(s),
            TopView::Type(f) => find_type_alias(x.tops, f.name.name) == Some(f),
            TopView::Generator(_) => true,
        },
{
    let t = x.tops[i];
    match t {
        TopView::Model(m) => {
            assert forall|j: int| 0 <= j < i implies !model_named(m.name.name)(x.tops[j]) by {
                assert(!same_kind_and_name(x.tops[j], x.tops[i]));
            }
            lemma_position_is(x.tops, model_named(m.name.name), i);
        },
        TopView::Enum(e) => {
            assert forall|j: int| 0 <= j < i implies !enum_named(e.name.name)(x.tops[j]) by {
                assert(!same_kind_and_name(x.tops[j], x.tops[i]));
            }
            lemma_position_is(x.tops, enum_named(e.name.name), i);
        },
        TopView::Source(s) => {
            assert forall|j: int| 0 <= j < i implies !source_named(s.name.name)(x.tops[j]) by {
                assert(!same_kind_and_name(x.tops[j], x.tops[i]));
            }
            lemma_position_is(x.tops, source_named(s.name.name), i);
        },
        TopView::Type(f) => {
            assert forall|j: int| 0 <= j < i implies !type_alias_named(f.name.name)(x.tops[j]) by {
                assert(!same_kind_and_name(x.tops[j], x.tops[i]));
            }
            lemma_position_is(x.tops, type_alias_named(f.name.name), i);
        },
        TopView::Generator(_) => {},
    }
}

/// There are no steps from a schema to itself, where every name of the
/// schema is unique where it stands.
pub proof fn lemma_no_steps_to_itself(x: SchemaAstView)
    requires
        names_unique(x),
    ensures
        steps_between(x, x) == Steps::empty(),
{
    let t = x.tops;
    assert forall|i: int| 0 <= i < t.len() implies
        #[trigger] created_model_top(t)(t[i]) == Steps::empty() by {
        lemma_top_found(x, i);
        assert(top_unique(t[i]));
        match t[i] {
            TopView::Model(m) => {
                lemma_model_unchanged(m);
            },
            TopView::Enum(e) => {
                lemma_enum_unchanged(e);
            },
            TopView::Source(s) => {
                lemma_source_unchanged(s);
            },
            TopView::Type(f) => {
                lemma_alias_unchanged(f);
            },
            TopView::Generator(_) => {},
        }
        }
    assert forall|i: int| 0 <= i < t.len() implies
        #[trigger] deleted_model_top(t)(t[i]) == Steps::empty() by {
        lemma_top_found(x, i);
        assert(top_unique(t[i]));
        match t[i] {
            TopView::Model(m) => {
                lemma_model_unchanged(m);
            },
            TopView::Enum(e) => {
                lemma_enum_unchanged(e);
            },
            TopView::Source(s) => {
                lemma_source_unchanged(s);
            },
            TopView::Type(f) => {
                lemma_alias_unchanged(f);
            },
            TopView::Generator(_) => {},
        }
        }
    assert forall|i: int| 0 <= i < t.len() implies
        #[trigger] updated_model_top(t)(t[i]) == Steps::empty() by {
        lemma_top_found(x, i);
        assert(top_unique(t[i]));
        match t[i] {
            TopView::Model(m) => {
                lemma_model_unchanged(m);
            },
            TopView::Enum(e) => {
                lemma_enum_unchanged(e);
            },
            TopView::Source(s) => {
                lemma_source_unchanged(s);
            },
            TopView::Type(f) => {
                lemma_alias_unchanged(f);
            },
            TopView::Generator(_) => {},
        }
        }
    assert forall|i: int| 0 <= i < t.len() implies
        #[trigger] created_enum_top(t)(t[i]) == Steps::empty() by {
        lemma_top_found(x, i);
        assert(top_unique(t[i]));
        match t[i] {
            TopView::Model(m) => {
                lemma_model_unchanged(m);
            },
            TopView::Enum(e) => {
                lemma_enum_unchanged(e);
            },
            TopView::Source(s) => {
                lemma_source_unchanged(s);
            },
            TopView::Type(f) => {
                lemma_alias_unchanged(f);
            },
            TopView::Generator(_) => {},
        }
        }
    assert forall|i: int| 0 <= i < t.len() implies
        #[trigger] deleted_enum_top(t)(t[i]) == Steps::empty() by {
        lemma_top_found(x, i);
        assert(top_unique(t[i]));
        match t[i] {
            TopView::Model(m) => {
                lemma_model_unchanged(m);
            },
            TopView::Enum(e) => {
                lemma_enum_unchanged(e);
            },
            TopView::Source(s) => {
                lemma_source_unchanged(s);
            },
            TopView::Type(f) => {
                lemma_alias_unchanged(f);
            },
            TopView::Generator(_) => {},
        }
        }
    assert forall|i: int| 0 <= i < t.len() implies
        #[trigger] updated_enum_top(t)(t[i]) == Steps::empty() by {
        lemma_top_found(x, i);
        assert(top_unique(t[i]));
        match t[i] {
            TopView::Model(m) => {
                lemma_model_unchanged(m);
            },
            TopView::Enum(e) => {
                lemma_enum_unchanged(e);
            },
            TopView::Source(s) => {
                lemma_source_unchanged(s);
            },
            TopView::Type(f) => {
                lemma_alias_unchanged(f);
            },
            TopView::Generator(_) => {},
        }
        }
    assert forall|i: int| 0 <= i < t.len() implies
        #[trigger] created_source_top(t)(t[i]) == Steps::empty() by {
        lemma_top_found(x, i);
        assert(top_unique(t[i]));
        match t[i] {
            TopView::Model(m) => {
                lemma_model_unchanged(m);
            },
            TopView::Enum(e) => {
                lemma_enum_unchanged(e);
            },
            TopView::Source(s) => {
                lemma_source_unchanged(s);
            },
            TopView::Type(f) => {
                lemma_alias_unchanged(f);
            },
            TopView::Generator(_) => {},
        }
        }
    assert forall|i: int| 0 <= i < t.len() implies
        #[trigger] deleted_source_top(t)(t[i]) == Steps::empty() by {
        lemma_top_found(x, i);
        assert(top_unique(t[i]));
        match t[i] {
            TopView::Model(m) => {
                lemma_model_unchanged(m);
            },
            TopView::Enum(e) => {
                lemma_enum_unchanged(e);
            },
            TopView::Source(s) => {
                lemma_source_unchanged(s);
            },
            TopView::Type(f) => {
                lemma_alias_unchanged(f);
            },
            TopView::Generator(_) => {},
        }
        }
    assert forall|i: int| 0 <= i < t.len() implies
        #[trigger] updated_source_top(t)(t[i]) == Steps::empty() by {
        lemma_top_found(x, i);
        assert(top_unique(t[i]));
        match t[i] {
            TopView::Model(m) => {
                lemma_model_unchanged(m);
            },
            TopView::Enum(e) => {
                lemma_enum_unchanged(e);
            },
            TopView::Source(s) => {
                lemma_source_unchanged(s);
            },
            TopView::Type(f) => {
                lemma_alias_unchanged(f);
            },
            TopView::Generator(_) => {},
        }
        }
    assert forall|i: int| 0 <= i < t.len() implies
        #[trigger] created_type_alias_top(t)(t[i]) == Steps::empty() by {
        lemma_top_found(x, i);
        assert(top_unique(t[i]));
        match t[i] {
            TopView::Model(m) => {
                lemma_model_unchanged(m);
            },
            TopView::Enum(e) => {
                lemma_enum_unchanged(e);
            },
            TopView::Source(s) => {
                lemma_source_unchanged(s);
            },
            TopView::Type(f) => {
                lemma_alias_unchanged(f);
            },
            TopView::Generator(_) => {},
        }
        }
    assert forall|i: int| 0 <= i < t.len() implies
        #[trigger] deleted_type_alias_top(t)(t[i]) == Steps::empty() by {
        lemma_top_found(x, i);
        assert(top_unique(t[i]));
        match t[i] {
            TopView::Model(m) => {
                lemma_model_unchanged(m);
            },
            TopView::Enum(e) => {
                lemma_enum_unchanged(e);
            },
            TopView::Source(s) => {
                lemma_source_unchanged(s);
            },
            TopView::Type(f) => {
                lemma_alias_unchanged(f);
            },
            TopView::Generator(_) => {},
        }
        }
    assert forall|i: int| 0 <= i < t.len() implies
        #[trigger] updated_type_alias_top(t)(t[i]) == Steps::empty() by {
        lemma_top_found(x, i);
        assert(top_unique(t[i]));
        match t[i] {
            TopView::Model(m) => {
                lemma_model_unchanged(m);
            },
            TopView::Enum(e) => {
                lemma_enum_unchanged(e);
            },
            TopView::Source(s) => {
                lemma_source_unchanged(s);
            },
            TopView::Type(f) => {
                lemma_alias_unchanged(f);
            },
            TopView::Generator(_) => {},
        }
        }
    lemma_each_empty(t, created_model_top(t));
    lemma_each_empty(t, deleted_model_top(t));
    lemma_each_empty(t, updated_model_top(t));
    lemma_each_empty(t, created_enum_top(t));
    lemma_each_empty(t, deleted_enum_top(t));
    lemma_each_empty(t, updated_enum_top(t));
    lemma_each_empty(t, created_source_top(t));
    lemma_each_empty(t, deleted_source_top(t));
    lemma_each_empty(t, updated_source_top(t));
    lemma_each_empty(t, created_type_alias_top(t));
    lemma_each_empty(t, deleted_type_alias_top(t));
    lemma_each_empty(t, updated_type_alias_top(t));
    assert(Steps::empty() + Steps::empty() =~= Steps::empty());
}

} // verus!
