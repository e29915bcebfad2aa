//! Replaying the steps between two schemas on the earlier one gives the
//! later one, as far as models, their fields and enums go.

use crate::ast::{
    ArgumentView, AttributeView, EnumValueView, EnumView, FieldView, ModelView, SchemaAstView,
    TopView,
};
use crate::differ::arguments::{
    arguments_steps, created_argument, deleted_argument, updated_argument,
};
use crate::differ::directives::{
    created_directive, created_directive_with_arguments, created_directives, deleted_directive,
    deleted_directive_with_arguments, directives_steps, updated_directive,
};
use crate::differ::enums::{
    created_enum, created_enum_top, created_value_directives, deleted_enum_top, enum_named,
    enum_path, enum_update, enums_steps, find_enum, updated_enum, updated_enum_top, updated_value,
    value_absent, value_path,
};
use crate::differ::fields::{
    created_field, created_fields, deleted_field, field_path, field_update, fields_steps,
    updated_field,
};
use crate::differ::matching::{
    argument_name, attribute_name, field_name, if_absent, if_present, lookup, value_name,
    with_key, Steps,
};
use crate::differ::models::{
    created_model, created_model_top, deleted_model_top, find_model, model_named, model_path,
    models_steps, regular, repeated, repeated_created, repeated_deleted, updated_model,
    updated_model_top,
};
use crate::differ::replay::{
    after, all_steps, beside, leaves, lemma_all_both, lemma_all_each, lemma_only_found,
    lemma_plain_is_silent, lemma_replayed_both, lemma_replayed_one, lemma_silent, plain, replayed,
    seen, silent, Point, Seen,
};
use crate::differ::sources::{
    created_source_argument, created_source_top, datasources_steps, deleted_source_top,
    source_location, updated_source_argument, updated_source_top,
};
use crate::differ::steps_between;
use crate::differ::type_aliases::{
    created_type_alias_top, deleted_type_alias_top, type_aliases_steps, updated_type_alias_top,
};
use crate::differ::laws::keys_unique;
use crate::seqs::{find, lemma_position, position};
use crate::steps::{ArgumentLocationView, DirectivePathView, MigrationStepView};
use vstd::prelude::*;

verus! {

/// The steps for the arguments of an attribute change no model, field or enum.
pub proof fn lemma_arguments_plain(
    location: ArgumentLocationView,
    previous: Seq<ArgumentView>,
    next: Seq<ArgumentView>,
)
    ensures
        plain(arguments_steps(location, previous, next)),
{
    let created = if_absent(previous, argument_name(), created_argument(location));
    let updated = if_present(next, argument_name(), updated_argument(location));
    let deleted = if_absent(next, argument_name(), deleted_argument(location));
    assert forall|i: int| 0 <= i < next.len() implies plain(#[trigger] created(next[i])) by {}
    assert forall|i: int| 0 <= i < previous.len() implies plain(#[trigger] updated(previous[i])) by {}
    assert forall|i: int| 0 <= i < previous.len() implies plain(#[trigger] deleted(previous[i])) by {}
    lemma_all_each(next, created, beside());
    lemma_all_each(previous, updated, beside());
    lemma_all_each(previous, deleted, beside());
    lemma_all_both(next.flat_map(created), previous.flat_map(updated), beside());
    lemma_all_both(
        next.flat_map(created) + previous.flat_map(updated),
        previous.flat_map(deleted),
        beside(),
    );
}

/// The steps that create an attribute change no model, field or enum.
pub proof fn lemma_created_directive_plain(path: DirectivePathView, d: AttributeView)
    ensures
        plain(created_directive(path)(d)),
{
    let location = crate::steps::DirectiveLocationView { path, directive: d.name.name };
    let f = created_argument(ArgumentLocationView::Directive(location));
    assert forall|i: int| 0 <= i < d.arguments.len() implies plain(#[trigger] f(d.arguments[i])) by {}
    lemma_all_each(d.arguments, f, beside());
    let head = seq![
        MigrationStepView::CreateDirective(crate::steps::CreateDirectiveView { location }),
    ];
    assert(plain(head));
    lemma_all_both(head, d.arguments.flat_map(f), beside());
}

/// The steps that create attributes change no model, field or enum.
pub proof fn lemma_created_directives_plain(path: DirectivePathView, attributes: Seq<AttributeView>)
    ensures
        plain(created_directives(path, attributes)),
{
    assert forall|i: int| 0 <= i < attributes.len() implies plain(
        #[trigger] created_directive(path)(attributes[i]),
    ) by {
        lemma_created_directive_plain(path, attributes[i]);
    }
    lemma_all_each(attributes, created_directive(path), beside());
}

/// The steps for the attributes of a thing change no model, field or enum.
pub proof fn lemma_directives_plain(
    path: DirectivePathView,
    previous: Seq<AttributeView>,
    next: Seq<AttributeView>,
)
    ensures
        plain(directives_steps(path, previous, next)),
{
    let created = if_absent(previous, attribute_name(), created_directive(path));
    let updated = if_present(next, attribute_name(), updated_directive(path));
    let deleted = if_absent(next, attribute_name(), deleted_directive(path));
    assert forall|i: int| 0 <= i < next.len() implies plain(#[trigger] created(next[i])) by {
        lemma_created_directive_plain(path, next[i]);
    }
    assert forall|i: int| 0 <= i < previous.len() implies
        plain(#[trigger] updated(previous[i])) by {
        match lookup(next, attribute_name(), attribute_name()(previous[i])) {
            Some(n) => {
                lemma_arguments_plain(
                    ArgumentLocationView::Directive(
                        crate::steps::DirectiveLocationView {
                            path,
                            directive: previous[i].name.name,
                        },
                    ),
                    previous[i].arguments,
                    n.arguments,
                );
            },
            None => {},
        }
    }
    assert forall|i: int| 0 <= i < previous.len() implies plain(#[trigger] deleted(previous[i])) by {}
    lemma_all_each(next, created, beside());
    lemma_all_each(previous, updated, beside());
    lemma_all_each(previous, deleted, beside());
    lemma_all_both(next.flat_map(created), previous.flat_map(updated), beside());
    lemma_all_both(
        next.flat_map(created) + previous.flat_map(updated),
        previous.flat_map(deleted),
        beside(),
    );
}

/// The steps for the type aliases change no model, field or enum.
pub proof fn lemma_type_aliases_plain(previous: Seq<TopView>, next: Seq<TopView>)
    ensures
        plain(type_aliases_steps(previous, next)),
{
    let created = created_type_alias_top(previous);
    let deleted = deleted_type_alias_top(next);
    let updated = updated_type_alias_top(next);
    assert forall|i: int| 0 <= i < next.len() implies plain(#[trigger] created(next[i])) by {
        match next[i] {
            TopView::Type(x) => {
                lemma_created_directives_plain(
                    crate::differ::type_aliases::alias_path(x),
                    x.attributes,
                );
                let head = seq![
                    MigrationStepView::CreateTypeAlias(
                        crate::steps::CreateTypeAliasView {
                            type_alias: x.name.name,
                            aliased_type: x.field_type.name,
                            arity: x.arity,
                        },
                    ),
                ];
                assert(plain(head));
                lemma_all_both(
                    head,
                    created_directives(crate::differ::type_aliases::alias_path(x), x.attributes),
                    beside(),
                );
            },
            _ => {},
        }
    }
    assert forall|i: int| 0 <= i < previous.len() implies plain(#[trigger] deleted(previous[i])) by {}
    assert forall|i: int| 0 <= i < previous.len() implies
        plain(#[trigger] updated(previous[i])) by {
        match previous[i] {
            TopView::Type(x) => {
                match crate::differ::type_aliases::find_type_alias(next, x.name.name) {
                    Some(n) => {
                        let path = crate::differ::type_aliases::alias_path(x);
                        lemma_directives_plain(path, x.attributes, n.attributes);
                        let update = crate::differ::type_aliases::alias_update(x, n);
                        let head = if update.is_any_option_set() {
                            seq![MigrationStepView::UpdateTypeAlias(update)]
                        } else {
                            Steps::empty()
                        };
                        assert(plain(head));
                        lemma_all_both(
                            head,
                            directives_steps(path, x.attributes, n.attributes),
                            beside(),
                        );
                    },
                    None => {},
                }
            },
            _ => {},
        }
    }
    lemma_all_each(next, created, beside());
    lemma_all_each(previous, deleted, beside());
    lemma_all_each(previous, updated, beside());
    lemma_all_both(next.flat_map(created), previous.flat_map(deleted), beside());
    lemma_all_both(
        next.flat_map(created) + previous.flat_map(deleted),
        previous.flat_map(updated),
        beside(),
    );
}

/// The steps for the datasources change no model, field or enum.
pub proof fn lemma_datasources_plain(previous: Seq<TopView>, next: Seq<TopView>)
    ensures
        plain(datasources_steps(previous, next)),
{
    let created = created_source_top(previous);
    let deleted = deleted_source_top(next);
    let updated = updated_source_top(next);
    assert forall|i: int| 0 <= i < next.len() implies plain(#[trigger] created(next[i])) by {
        match next[i] {
            TopView::Source(x) => {
                let f = created_source_argument(source_location(x));
                assert forall|j: int| 0 <= j < x.properties.len() implies plain(
                    #[trigger] f(x.properties[j]),
                ) by {}
                lemma_all_each(x.properties, f, beside());
                let head = seq![
                    MigrationStepView::CreateSource(
                        crate::steps::CreateSourceView { source: x.name.name },
                    ),
                ];
                assert(plain(head));
                lemma_all_both(head, x.properties.flat_map(f), beside());
            },
            _ => {},
        }
    }
    assert forall|i: int| 0 <= i < previous.len() implies plain(#[trigger] deleted(previous[i])) by {}
    assert forall|i: int| 0 <= i < previous.len() implies
        plain(#[trigger] updated(previous[i])) by {
        match previous[i] {
            TopView::Source(x) => {
                match crate::differ::sources::find_source(next, x.name.name) {
                    Some(n) => {
                        let location = source_location(x);
                        let a = if_absent(
                            x.properties,
                            argument_name(),
                            created_source_argument(location),
                        );
                        let b = if_absent(n.properties, argument_name(), deleted_argument(location));
                        let c = if_present(
                            n.properties,
                            argument_name(),
                            updated_source_argument(location),
                        );
                        assert forall|j: int| 0 <= j < n.properties.len() implies plain(
                            #[trigger] a(n.properties[j]),
                        ) by {}
                        assert forall|j: int| 0 <= j < x.properties.len() implies plain(
                            #[trigger] b(x.properties[j]),
                        ) by {}
                        assert forall|j: int| 0 <= j < x.properties.len() implies plain(
                            #[trigger] c(x.properties[j]),
                        ) by {}
                        lemma_all_each(n.properties, a, beside());
                        lemma_all_each(x.properties, b, beside());
                        lemma_all_each(x.properties, c, beside());
                        lemma_all_both(n.properties.flat_map(a), x.properties.flat_map(b), beside());
                        lemma_all_both(
                            n.properties.flat_map(a) + x.properties.flat_map(b),
                            x.properties.flat_map(c),
                            beside(),
                        );
                    },
                    None => {},
                }
            },
            _ => {},
        }
    }
    lemma_all_each(next, created, beside());
    lemma_all_each(previous, deleted, beside());
    lemma_all_each(previous, updated, beside());
    lemma_all_both(next.flat_map(created), previous.flat_map(deleted), beside());
    lemma_all_both(
        next.flat_map(created) + previous.flat_map(deleted),
        previous.flat_map(updated),
        beside(),
    );
}

/// The steps that change nothing but the field of the name in the model
/// of the name.
pub open spec fn of_field(model: Seq<char>, field: Seq<char>) -> spec_fn(MigrationStepView) -> bool {
    |step: MigrationStepView|
        match step {
            MigrationStepView::CreateField(s) => s.model == model && s.field == field,
            MigrationStepView::DeleteField(s) => s.model == model && s.field == field,
            MigrationStepView::UpdateField(s) => s.model == model && s.field == field,
            _ => beside()(step),
        }
}

/// The steps that change nothing but the model of the name and its fields.
pub open spec fn of_model(model: Seq<char>) -> spec_fn(MigrationStepView) -> bool {
    |step: MigrationStepView|
        match step {
            MigrationStepView::CreateModel(s) => s.model == model,
            MigrationStepView::DeleteModel(s) => s.model == model,
            MigrationStepView::CreateField(s) => s.model == model,
            MigrationStepView::DeleteField(s) => s.model == model,
            MigrationStepView::UpdateField(s) => s.model == model,
            _ => beside()(step),
        }
}

/// The steps that change nothing but the enum of the name and its values.
pub open spec fn of_enum(enum_name: Seq<char>) -> spec_fn(MigrationStepView) -> bool {
    |step: MigrationStepView|
        match step {
            MigrationStepView::CreateEnum(s) => s.enum_name == enum_name,
            MigrationStepView::DeleteEnum(s) => s.enum_name == enum_name,
            MigrationStepView::UpdateEnum(s) => s.enum_name == enum_name,
            _ => beside()(step),
        }
}

/// Steps that are all of one kind are all of a wider kind.
pub proof fn lemma_all_wider(
    steps: Steps,
    narrow: spec_fn(MigrationStepView) -> bool,
    wide: spec_fn(MigrationStepView) -> bool,
)
    requires
        all_steps(steps, narrow),
        forall|step: MigrationStepView| #[trigger] narrow(step) ==> wide(step),
    ensures
        all_steps(steps, wide),
{
    assert forall|k: int| 0 <= k < steps.len() implies wide(#[trigger] steps[k]) by {
        assert(narrow(steps[k]));
    }
}

/// The steps that create a field are steps of that field.
pub proof fn lemma_created_field_of_field(model: Seq<char>, f: FieldView)
    ensures
        all_steps(created_field(model)(f), of_field(model, f.name.name)),
{
    let good = of_field(model, f.name.name);
    lemma_created_directives_plain(field_path(model, f), f.attributes);
    lemma_all_wider(created_directives(field_path(model, f), f.attributes), beside(), good);
    let head = seq![
        MigrationStepView::CreateField(
            crate::steps::CreateFieldView {
                model,
                field: f.name.name,
                tpe: f.field_type.name,
                arity: f.arity,
            },
        ),
    ];
    assert(all_steps(head, good));
    lemma_all_both(head, created_directives(field_path(model, f), f.attributes), good);
}

/// The steps for a field that both schemas have are steps of that field.
pub proof fn lemma_updated_field_of_field(model: Seq<char>, previous: FieldView, next: FieldView)
    ensures
        all_steps(updated_field(model)(previous, next), of_field(model, previous.name.name)),
{
    let good = of_field(model, previous.name.name);
    let path = field_path(model, previous);
    lemma_directives_plain(path, previous.attributes, next.attributes);
    lemma_all_wider(directives_steps(path, previous.attributes, next.attributes), beside(), good);
    let update = field_update(model, previous, next);
    let head = if update.is_any_option_set() {
        seq![MigrationStepView::UpdateField(update)]
    } else {
        Steps::empty()
    };
    assert(all_steps(head, good));
    lemma_all_both(head, directives_steps(path, previous.attributes, next.attributes), good);
}

/// The steps for the fields of a model are steps of that model.
pub proof fn lemma_fields_of_model(model: Seq<char>, previous: Seq<FieldView>, next: Seq<FieldView>)
    ensures
        all_steps(fields_steps(model, previous, next), of_model(model)),
        all_steps(created_fields(model, next), of_model(model)),
{
    let good = of_model(model);
    let created = if_absent(previous, field_name(), created_field(model));
    let deleted = if_absent(next, field_name(), deleted_field(model));
    let updated = if_present(next, field_name(), updated_field(model));
    assert forall|i: int| 0 <= i < next.len() implies all_steps(
        #[trigger] created_field(model)(next[i]),
        good,
    ) by {
        lemma_created_field_of_field(model, next[i]);
        lemma_all_wider(created_field(model)(next[i]), of_field(model, next[i].name.name), good);
    }
    assert forall|i: int| 0 <= i < next.len() implies
        all_steps(#[trigger] created(next[i]), good) by {
        assert(all_steps(created_field(model)(next[i]), good));
    }
    assert forall|i: int| 0 <= i < previous.len() implies all_steps(
        #[trigger] deleted(previous[i]),
        good,
    ) by {}
    assert forall|i: int| 0 <= i < previous.len() implies all_steps(
        #[trigger] updated(previous[i]),
        good,
    ) by {
        match lookup(next, field_name(), field_name()(previous[i])) {
            Some(n) => {
                lemma_updated_field_of_field(model, previous[i], n);
                lemma_all_wider(
                    updated_field(model)(previous[i], n),
                    of_field(model, previous[i].name.name),
                    good,
                );
            },
            None => {},
        }
    }
    lemma_all_each(next, created_field(model), good);
    lemma_all_each(next, created, good);
    lemma_all_each(previous, deleted, good);
    lemma_all_each(previous, updated, good);
    lemma_all_both(next.flat_map(created), previous.flat_map(deleted), good);
    lemma_all_both(
        next.flat_map(created) + previous.flat_map(deleted),
        previous.flat_map(updated),
        good,
    );
}

/// The steps for the attributes of a model that is created change no
/// model, field or enum.
pub proof fn lemma_created_model_attributes_plain(m: ModelView)
    ensures
        plain(
            m.attributes.flat_map(regular(created_directive(model_path(m))))
                + m.attributes.flat_map(repeated(created_directive_with_arguments(model_path(m)))),
        ),
{
    let path = model_path(m);
    let a = regular(created_directive(path));
    let b = repeated(created_directive_with_arguments(path));
    assert forall|i: int| 0 <= i < m.attributes.len() implies
        plain(#[trigger] a(m.attributes[i])) by {
        lemma_created_directive_plain(path, m.attributes[i]);
    }
    assert forall|i: int| 0 <= i < m.attributes.len() implies plain(#[trigger] b(m.attributes[i])) by {}
    lemma_all_each(m.attributes, a, beside());
    lemma_all_each(m.attributes, b, beside());
    lemma_all_both(m.attributes.flat_map(a), m.attributes.flat_map(b), beside());
}

/// The steps for the attributes of a model that both schemas have.
pub open spec fn model_attributes_steps(previous: ModelView, next: ModelView) -> Steps {
    let path = model_path(previous);
    next.attributes.flat_map(
        regular(if_absent(previous.attributes, attribute_name(), created_directive(path))),
    ) + previous.attributes.flat_map(
        regular(if_present(next.attributes, attribute_name(), updated_directive(path))),
    ) + previous.attributes.flat_map(
        regular(if_absent(next.attributes, attribute_name(), deleted_directive(path))),
    ) + next.attributes.flat_map(
        repeated_created(previous.attributes, created_directive_with_arguments(path)),
    ) + previous.attributes.flat_map(
        repeated_deleted(next.attributes, deleted_directive_with_arguments(path)),
    )
}

/// The steps for the attributes of a model that both schemas have change
/// no model, field or enum.
pub proof fn lemma_model_attributes_plain(previous: ModelView, next: ModelView)
    ensures
        plain(model_attributes_steps(previous, next)),
        updated_model(previous, next) == fields_steps(
            previous.name.name,
            previous.fields,
            next.fields,
        ) + model_attributes_steps(previous, next),
{
    let path = model_path(previous);
    let pa = previous.attributes;
    let na = next.attributes;
    let a = regular(if_absent(pa, attribute_name(), created_directive(path)));
    let b = regular(if_present(na, attribute_name(), updated_directive(path)));
    let c = regular(if_absent(na, attribute_name(), deleted_directive(path)));
    let d = repeated_created(pa, created_directive_with_arguments(path));
    let e = repeated_deleted(na, deleted_directive_with_arguments(path));
    assert forall|i: int| 0 <= i < na.len() implies plain(#[trigger] a(na[i])) by {
        lemma_created_directive_plain(path, na[i]);
    }
    assert forall|i: int| 0 <= i < pa.len() implies plain(#[trigger] b(pa[i])) by {
        match lookup(na, attribute_name(), attribute_name()(pa[i])) {
            Some(n) => {
                lemma_arguments_plain(
                    ArgumentLocationView::Directive(
                        crate::steps::DirectiveLocationView { path, directive: pa[i].name.name },
                    ),
                    pa[i].arguments,
                    n.arguments,
                );
            },
            None => {},
        }
    }
    assert forall|i: int| 0 <= i < pa.len() implies plain(#[trigger] c(pa[i])) by {}
    assert forall|i: int| 0 <= i < na.len() implies plain(#[trigger] d(na[i])) by {}
    assert forall|i: int| 0 <= i < pa.len() implies plain(#[trigger] e(pa[i])) by {}
    lemma_all_each(na, a, beside());
    lemma_all_each(pa, b, beside());
    lemma_all_each(pa, c, beside());
    lemma_all_each(na, d, beside());
    lemma_all_each(pa, e, beside());
    lemma_all_both(na.flat_map(a), pa.flat_map(b), beside());
    lemma_all_both(na.flat_map(a) + pa.flat_map(b), pa.flat_map(c), beside());
    lemma_all_both(na.flat_map(a) + pa.flat_map(b) + pa.flat_map(c), na.flat_map(d), beside());
    lemma_all_both(
        na.flat_map(a) + pa.flat_map(b) + pa.flat_map(c) + na.flat_map(d),
        pa.flat_map(e),
        beside(),
    );
    let fs = fields_steps(previous.name.name, previous.fields, next.fields);
    assert(updated_model(previous, next) =~= fs + model_attributes_steps(previous, next));
}

/// A field as it is seen.
pub open spec fn shape(f: Option<FieldView>) -> Seen {
    match f {
        Some(f) => Seen::Field { tpe: f.field_type.name, arity: f.arity },
        None => Seen::Absent,
    }
}

/// Steps of one field are silent everywhere else.
pub proof fn lemma_of_field_silent(steps: Steps, model: Seq<char>, field: Seq<char>, at: Point)
    requires
        all_steps(steps, of_field(model, field)),
        at != (Point::Field { model, field }),
    ensures
        silent(steps, at),
{
    lemma_all_wider(steps, of_field(model, field), leaves(at));
}

/// Steps of one model are silent everywhere but at the model and its fields.
pub proof fn lemma_of_model_silent(steps: Steps, model: Seq<char>, at: Point)
    requires
        all_steps(steps, of_model(model)),
        !crate::differ::replay::within_model(at, model),
    ensures
        silent(steps, at),
{
    lemma_all_wider(steps, of_model(model), leaves(at));
}

/// Steps of one enum are silent everywhere but at the enum and its values.
pub proof fn lemma_of_enum_silent(steps: Steps, enum_name: Seq<char>, at: Point)
    requires
        all_steps(steps, of_enum(enum_name)),
        !crate::differ::replay::within_enum(at, enum_name),
    ensures
        silent(steps, at),
{
    lemma_all_wider(steps, of_enum(enum_name), leaves(at));
}

/// Where the names of the fields are unique, at most one field has a name.
pub proof fn lemma_one_of_a_name<T>(xs: Seq<T>, key: spec_fn(T) -> Seq<char>, k: Seq<char>)
    requires
        keys_unique(xs, key),
    ensures
        forall|i: int, j: int|
            0 <= i < j < xs.len() ==> !(with_key(key, k)(xs[i]) && with_key(key, k)(xs[j])),
{
}

/// Replaying the steps that create a field puts the field in its place.
pub proof fn lemma_created_field_replayed(model: Seq<char>, f: FieldView, before: Seen)
    ensures
        replayed(
            created_field(model)(f),
            Point::Field { model, field: f.name.name },
            before,
        ) == shape(Some(f)),
{
    let at = Point::Field { model, field: f.name.name };
    let step = MigrationStepView::CreateField(
        crate::steps::CreateFieldView {
            model,
            field: f.name.name,
            tpe: f.field_type.name,
            arity: f.arity,
        },
    );
    let rest = created_directives(field_path(model, f), f.attributes);
    lemma_created_directives_plain(field_path(model, f), f.attributes);
    lemma_plain_is_silent(rest, at);
    lemma_replayed_both(seq![step], rest, at, before);
    lemma_replayed_one(step, at, before);
    lemma_silent(rest, at, after(step, at, before));
}

/// Replaying the steps for a field that both schemas have gives the field
/// the type and the arity of the later one.
pub proof fn lemma_updated_field_replayed(model: Seq<char>, previous: FieldView, next: FieldView)
    requires
        previous.name.name == next.name.name,
    ensures
        replayed(
            updated_field(model)(previous, next),
            Point::Field { model, field: previous.name.name },
            shape(Some(previous)),
        ) == shape(Some(next)),
{
    let at = Point::Field { model, field: previous.name.name };
    let before = shape(Some(previous));
    let path = field_path(model, previous);
    let rest = directives_steps(path, previous.attributes, next.attributes);
    lemma_directives_plain(path, previous.attributes, next.attributes);
    lemma_plain_is_silent(rest, at);
    let update = field_update(model, previous, next);
    if update.is_any_option_set() {
        let step = MigrationStepView::UpdateField(update);
        lemma_replayed_both(seq![step], rest, at, before);
        lemma_replayed_one(step, at, before);
        lemma_silent(rest, at, after(step, at, before));
    } else {
        lemma_replayed_both(Steps::empty(), rest, at, before);
        lemma_silent(rest, at, before);
    }
}

/// Replaying the steps for the fields of a model that both schemas have
/// gives each field as the later schema has it.
pub proof fn lemma_fields_replayed(
    model: Seq<char>,
    previous: Seq<FieldView>,
    next: Seq<FieldView>,
    field: Seq<char>,
)
    requires
        keys_unique(previous, field_name()),
        keys_unique(next, field_name()),
    ensures
        replayed(
            fields_steps(model, previous, next),
            Point::Field { model, field },
            shape(lookup(previous, field_name(), field)),
        ) == shape(lookup(next, field_name(), field)),
{
    let at = Point::Field { model, field };
    let p = with_key(field_name(), field);
    let created = if_absent(previous, field_name(), created_field(model));
    let deleted = if_absent(next, field_name(), deleted_field(model));
    let updated = if_present(next, field_name(), updated_field(model));
    let before = shape(lookup(previous, field_name(), field));
    lemma_one_of_a_name(previous, field_name(), field);
    lemma_one_of_a_name(next, field_name(), field);
    lemma_position(previous, p);
    lemma_position(next, p);
    assert forall|j: int| 0 <= j < next.len() && !p(next[j]) implies silent(
        #[trigger] created(next[j]),
        at,
    ) by {
        lemma_created_field_of_field(model, next[j]);
        if lookup(previous, field_name(), field_name()(next[j])) is None {
            lemma_of_field_silent(created_field(model)(next[j]), model, next[j].name.name, at);
        }
    }
    assert forall|j: int| 0 <= j < previous.len() && !p(previous[j]) implies silent(
        #[trigger] deleted(previous[j]),
        at,
    ) by {}
    assert forall|j: int| 0 <= j < previous.len() && !p(previous[j]) implies silent(
        #[trigger] updated(previous[j]),
        at,
    ) by {
        match lookup(next, field_name(), field_name()(previous[j])) {
            Some(n) => {
                lemma_updated_field_of_field(model, previous[j], n);
                lemma_of_field_silent(
                    updated_field(model)(previous[j], n),
                    model,
                    previous[j].name.name,
                    at,
                );
            },
            None => {},
        }
    }
    let a = next.flat_map(created);
    let b = previous.flat_map(deleted);
    let c = previous.flat_map(updated);
    lemma_only_found(next, p, created, at, before);
    let s1 = replayed(a, at, before);
    lemma_only_found(previous, p, deleted, at, s1);
    let s2 = replayed(b, at, s1);
    lemma_only_found(previous, p, updated, at, s2);
    lemma_replayed_both(a, b, at, before);
    lemma_replayed_both(a + b, c, at, before);
    match (lookup(previous, field_name(), field), lookup(next, field_name(), field)) {
        (None, Some(fq)) => {
            lemma_created_field_replayed(model, fq, before);
        },
        (Some(fp), None) => {
            lemma_replayed_one(
                MigrationStepView::DeleteField(
                    crate::steps::DeleteFieldView { model, field: fp.name.name },
                ),
                at,
                s1,
            );
        },
        (Some(fp), Some(fq)) => {
            lemma_updated_field_replayed(model, fp, fq);
        },
        (None, None) => {},
    }
}

/// Replaying the steps that create the fields of a model puts each field
/// in its place.
pub proof fn lemma_created_fields_replayed(
    model: Seq<char>,
    fields: Seq<FieldView>,
    field: Seq<char>,
    before: Seen,
)
    requires
        keys_unique(fields, field_name()),
        lookup(fields, field_name(), field) is None ==> before == Seen::Absent,
    ensures
        replayed(created_fields(model, fields), Point::Field { model, field }, before) == shape(
            lookup(fields, field_name(), field),
        ),
{
    let at = Point::Field { model, field };
    let p = with_key(field_name(), field);
    lemma_one_of_a_name(fields, field_name(), field);
    lemma_position(fields, p);
    assert forall|j: int| 0 <= j < fields.len() && !p(fields[j]) implies silent(
        #[trigger] created_field(model)(fields[j]),
        at,
    ) by {
        lemma_created_field_of_field(model, fields[j]);
        lemma_of_field_silent(created_field(model)(fields[j]), model, fields[j].name.name, at);
    }
    lemma_only_found(fields, p, created_field(model), at, before);
    match lookup(fields, field_name(), field) {
        Some(f) => {
            lemma_created_field_replayed(model, f, before);
        },
        None => {},
    }
}

/// Two things at the top of a schema are models of the same name, or
/// enums of the same name.
pub open spec fn same_structure(a: TopView, b: TopView) -> bool {
    match (a, b) {
        (TopView::Model(x), TopView::Model(y)) => x.name.name == y.name.name,
        (TopView::Enum(x), TopView::Enum(y)) => x.name.name == y.name.name,
        _ => false,
    }
}

/// The fields of a model, if the thing is a model, bear different names.
pub open spec fn fields_unique(t: TopView) -> bool {
    match t {
        TopView::Model(m) => keys_unique(m.fields, field_name()),
        _ => true,
    }
}

/// No two models of the schema share a name, nor two enums, nor two
/// fields of a model.
pub open spec fn structure_unique(x: SchemaAstView) -> bool {
    &&& forall|i: int, j: int|
        0 <= i < j < x.tops.len() ==> !#[trigger] same_structure(x.tops[i], x.tops[j])
    &&& forall|i: int| 0 <= i < x.tops.len() ==> fields_unique(#[trigger] x.tops[i])
}

/// The steps for the fields of a model are silent at the model itself.
pub proof fn lemma_fields_silent_at_model(
    model: Seq<char>,
    previous: Seq<FieldView>,
    next: Seq<FieldView>,
)
    ensures
        silent(fields_steps(model, previous, next), Point::Model { model }),
        silent(created_fields(model, next), Point::Model { model }),
{
    let at = Point::Model { model };
    let good = leaves(at);
    let created = if_absent(previous, field_name(), created_field(model));
    let deleted = if_absent(next, field_name(), deleted_field(model));
    let updated = if_present(next, field_name(), updated_field(model));
    assert forall|i: int| 0 <= i < next.len() implies all_steps(
        #[trigger] created_field(model)(next[i]),
        good,
    ) by {
        lemma_created_field_of_field(model, next[i]);
        lemma_of_field_silent(created_field(model)(next[i]), model, next[i].name.name, at);
    }
    assert forall|i: int| 0 <= i < next.len() implies
        all_steps(#[trigger] created(next[i]), good) by {
        assert(all_steps(created_field(model)(next[i]), good));
    }
    assert forall|i: int| 0 <= i < previous.len() implies all_steps(
        #[trigger] deleted(previous[i]),
        good,
    ) by {}
    assert forall|i: int| 0 <= i < previous.len() implies all_steps(
        #[trigger] updated(previous[i]),
        good,
    ) by {
        match lookup(next, field_name(), field_name()(previous[i])) {
            Some(n) => {
                lemma_updated_field_of_field(model, previous[i], n);
                lemma_of_field_silent(
                    updated_field(model)(previous[i], n),
                    model,
                    previous[i].name.name,
                    at,
                );
            },
            None => {},
        }
    }
    lemma_all_each(next, created_field(model), good);
    lemma_all_each(next, created, good);
    lemma_all_each(previous, deleted, good);
    lemma_all_each(previous, updated, good);
    lemma_all_both(next.flat_map(created), previous.flat_map(deleted), good);
    lemma_all_both(
        next.flat_map(created) + previous.flat_map(deleted),
        previous.flat_map(updated),
        good,
    );
}

/// What is seen of a model at a place within it.
pub open spec fn seen_of_model(m: ModelView, at: Point) -> Seen {
    match at {
        Point::Field { field, .. } => shape(lookup(m.fields, field_name(), field)),
        _ => Seen::Present,
    }
}

/// The steps that create a model are steps of that model.
pub proof fn lemma_created_model_of_model(m: ModelView)
    ensures
        all_steps(created_model(m), of_model(m.name.name)),
{
    let good = of_model(m.name.name);
    let head = seq![
        MigrationStepView::CreateModel(crate::steps::CreateModelView { model: m.name.name }),
    ];
    let fields = created_fields(m.name.name, m.fields);
    let a = m.attributes.flat_map(regular(created_directive(model_path(m))));
    let b = m.attributes.flat_map(repeated(created_directive_with_arguments(model_path(m))));
    lemma_fields_of_model(m.name.name, m.fields, m.fields);
    lemma_created_model_attributes_plain(m);
    lemma_all_wider(a + b, beside(), good);
    assert(all_steps(head, good));
    lemma_all_both(head, fields, good);
    lemma_all_both(head + fields, a + b, good);
    assert(created_model(m) =~= (head + fields) + (a + b));
}

/// The steps for a model that both schemas have are steps of that model.
pub proof fn lemma_updated_model_of_model(previous: ModelView, next: ModelView)
    ensures
        all_steps(updated_model(previous, next), of_model(previous.name.name)),
{
    let good = of_model(previous.name.name);
    lemma_model_attributes_plain(previous, next);
    lemma_all_wider(model_attributes_steps(previous, next), beside(), good);
    lemma_fields_of_model(previous.name.name, previous.fields, next.fields);
    lemma_all_both(
        fields_steps(previous.name.name, previous.fields, next.fields),
        model_attributes_steps(previous, next),
        good,
    );
}

/// Replaying the steps that create a model puts the model and its fields
/// in their places.
pub proof fn lemma_created_model_replayed(m: ModelView, at: Point, before: Seen)
    requires
        keys_unique(m.fields, field_name()),
        crate::differ::replay::within_model(at, m.name.name),
    ensures
        replayed(created_model(m), at, before) == seen_of_model(m, at),
{
    let step = MigrationStepView::CreateModel(
        crate::steps::CreateModelView { model: m.name.name },
    );
    let head = seq![step];
    let fields = created_fields(m.name.name, m.fields);
    let a = m.attributes.flat_map(regular(created_directive(model_path(m))));
    let b = m.attributes.flat_map(repeated(created_directive_with_arguments(model_path(m))));
    assert(created_model(m) =~= (head + fields) + (a + b));
    lemma_created_model_attributes_plain(m);
    lemma_plain_is_silent(a + b, at);
    lemma_replayed_both(head + fields, a + b, at, before);
    lemma_replayed_both(head, fields, at, before);
    lemma_replayed_one(step, at, before);
    let s1 = after(step, at, before);
    lemma_silent(a + b, at, replayed(fields, at, s1));
    match at {
        Point::Field { field, .. } => {
            lemma_created_fields_replayed(m.name.name, m.fields, field, s1);
        },
        _ => {
            lemma_fields_silent_at_model(m.name.name, m.fields, m.fields);
            lemma_silent(fields, at, s1);
        },
    }
}

/// Replaying the steps for a model that both schemas have gives the model
/// and its fields as the later schema has them.
pub proof fn lemma_updated_model_replayed(previous: ModelView, next: ModelView, at: Point)
    requires
        keys_unique(previous.fields, field_name()),
        keys_unique(next.fields, field_name()),
        crate::differ::replay::within_model(at, previous.name.name),
        previous.name.name == next.name.name,
    ensures
        replayed(updated_model(previous, next), at, seen_of_model(previous, at)) == seen_of_model(
            next,
            at,
        ),
{
    let before = seen_of_model(previous, at);
    let fields = fields_steps(previous.name.name, previous.fields, next.fields);
    let rest = model_attributes_steps(previous, next);
    lemma_model_attributes_plain(previous, next);
    lemma_plain_is_silent(rest, at);
    lemma_replayed_both(fields, rest, at, before);
    lemma_silent(rest, at, replayed(fields, at, before));
    match at {
        Point::Field { field, .. } => {
            lemma_fields_replayed(previous.name.name, previous.fields, next.fields, field);
        },
        _ => {
            lemma_fields_silent_at_model(previous.name.name, previous.fields, next.fields);
            lemma_silent(fields, at, before);
        },
    }
}

/// The steps for the models of two schemas are silent at every enum and
/// at every value of an enum.
pub proof fn lemma_models_silent_at_enums(previous: Seq<TopView>, next: Seq<TopView>, at: Point)
    requires
        at is Enum || at is Value,
    ensures
        silent(models_steps(previous, next), at),
{
    let good = leaves(at);
    let created = created_model_top(previous);
    let deleted = deleted_model_top(next);
    let updated = updated_model_top(next);
    assert forall|i: int| 0 <= i < next.len() implies
        all_steps(#[trigger] created(next[i]), good) by {
        match next[i] {
            TopView::Model(m) => {
                lemma_created_model_of_model(m);
                lemma_of_model_silent(created_model(m), m.name.name, at);
            },
            _ => {},
        }
    }
    assert forall|i: int| 0 <= i < previous.len() implies all_steps(
        #[trigger] deleted(previous[i]),
        good,
    ) by {}
    assert forall|i: int| 0 <= i < previous.len() implies all_steps(
        #[trigger] updated(previous[i]),
        good,
    ) by {
        match previous[i] {
            TopView::Model(m) => {
                match find_model(next, m.name.name) {
                    Some(n) => {
                        lemma_updated_model_of_model(m, n);
                        lemma_of_model_silent(updated_model(m, n), m.name.name, at);
                    },
                    None => {},
                }
            },
            _ => {},
        }
    }
    lemma_all_each(next, created, good);
    lemma_all_each(previous, deleted, good);
    lemma_all_each(previous, updated, good);
    lemma_all_both(next.flat_map(created), previous.flat_map(deleted), good);
    lemma_all_both(
        next.flat_map(created) + previous.flat_map(deleted),
        previous.flat_map(updated),
        good,
    );
}

/// A model that is found under a name is one of the things at the top of
/// the schema, bears the name, and has fields of different names where
/// the schema is unique.
pub proof fn lemma_found_model(x: SchemaAstView, name: Seq<char>)
    requires
        structure_unique(x),
    ensures
        match find_model(x.tops, name) {
            Some(m) => find(x.tops, model_named(name)) == Some(TopView::Model(m)) && m.name.name
                == name && keys_unique(m.fields, field_name()),
            None => find(x.tops, model_named(name)) is None,
        },
        forall|i: int, j: int|
            0 <= i < j < x.tops.len() ==> !(model_named(name)(x.tops[i]) && model_named(name)(
                x.tops[j],
            )),
{
    lemma_position(x.tops, model_named(name));
    match position(x.tops, model_named(name)) {
        Some(i) => {
            assert(fields_unique(x.tops[i]));
        },
        None => {},
    }
    assert forall|i: int, j: int| 0 <= i < j < x.tops.len() implies !(model_named(name)(x.tops[i])
        && model_named(name)(x.tops[j])) by {
        assert(!same_structure(x.tops[i], x.tops[j]));
    }
}

/// Replaying the steps for the models of two schemas on the earlier one
/// gives each model and each field as the later one has it.
pub proof fn lemma_models_replayed(previous: SchemaAstView, next: SchemaAstView, at: Point)
    requires
        structure_unique(previous),
        structure_unique(next),
        at is Model || at is Field,
    ensures
        replayed(models_steps(previous.tops, next.tops), at, seen(previous, at)) == seen(next, at),
{
    let name = match at {
        Point::Model { model } => model,
        Point::Field { model, .. } => model,
        _ => Seq::empty(),
    };
    let p = model_named(name);
    let before = seen(previous, at);
    let created = created_model_top(previous.tops);
    let deleted = deleted_model_top(next.tops);
    let updated = updated_model_top(next.tops);
    lemma_found_model(previous, name);
    lemma_found_model(next, name);
    assert forall|j: int| 0 <= j < next.tops.len() && !p(next.tops[j]) implies silent(
        #[trigger] created(next.tops[j]),
        at,
    ) by {
        match next.tops[j] {
            TopView::Model(m) => {
                lemma_created_model_of_model(m);
                lemma_of_model_silent(created_model(m), m.name.name, at);
            },
            _ => {},
        }
    }
    assert forall|j: int| 0 <= j < previous.tops.len() && !p(previous.tops[j]) implies silent(
        #[trigger] deleted(previous.tops[j]),
        at,
    ) by {}
    assert forall|j: int| 0 <= j < previous.tops.len() && !p(previous.tops[j]) implies silent(
        #[trigger] updated(previous.tops[j]),
        at,
    ) by {
        match previous.tops[j] {
            TopView::Model(m) => {
                match find_model(next.tops, m.name.name) {
                    Some(n) => {
                        lemma_updated_model_of_model(m, n);
                        lemma_of_model_silent(updated_model(m, n), m.name.name, at);
                    },
                    None => {},
                }
            },
            _ => {},
        }
    }
    let a = next.tops.flat_map(created);
    let b = previous.tops.flat_map(deleted);
    let c = previous.tops.flat_map(updated);
    lemma_only_found(next.tops, p, created, at, before);
    let s1 = replayed(a, at, before);
    lemma_only_found(previous.tops, p, deleted, at, s1);
    let s2 = replayed(b, at, s1);
    lemma_only_found(previous.tops, p, updated, at, s2);
    lemma_replayed_both(a, b, at, before);
    lemma_replayed_both(a + b, c, at, before);
    match (find_model(previous.tops, name), find_model(next.tops, name)) {
        (None, Some(mq)) => {
            lemma_created_model_replayed(mq, at, before);
        },
        (Some(mp), None) => {
            lemma_replayed_one(
                MigrationStepView::DeleteModel(crate::steps::DeleteModelView { model: mp.name.name }),
                at,
                s1,
            );
        },
        (Some(mp), Some(mq)) => {
            lemma_updated_model_replayed(mp, mq, at);
        },
        (None, None) => {},
    }
}

/// Whether a value is there, as it is seen.
pub open spec fn presence(v: Option<EnumValueView>) -> Seen {
    if v is Some {
        Seen::Present
    } else {
        Seen::Absent
    }
}

/// What is seen of an enum at a place within it.
pub open spec fn seen_of_enum(e: EnumView, at: Point) -> Seen {
    match at {
        Point::Value { value, .. } => presence(lookup(e.values, value_name(), value)),
        _ => Seen::Present,
    }
}

/// A name is among the names of the values where a value bears it.
pub proof fn lemma_names_hold(values: Seq<EnumValueView>, value: Seq<char>)
    ensures
        values.map_values(value_name()).contains(value) == (lookup(values, value_name(), value)
            is Some),
{
    let names = values.map_values(value_name());
    let p = with_key(value_name(), value);
    lemma_position(values, p);
    if names.contains(value) {
        let i = choose|i: int| 0 <= i < names.len() && names[i] == value;
        assert(p(values[i]));
    }
    if lookup(values, value_name(), value) is Some {
        let i = position(values, p)->0;
        assert(names[i] == value);
    }
}

/// A name is among the names of the values that have no counterpart where
/// a value bears it and no counterpart does.
pub proof fn lemma_absent_names_hold(
    values: Seq<EnumValueView>,
    others: Seq<EnumValueView>,
    value: Seq<char>,
)
    ensures
        values.filter(value_absent(others)).map_values(value_name()).contains(value) == (lookup(
            values,
            value_name(),
            value,
        ) is Some && lookup(others, value_name(), value) is None),
{
    let kept = values.filter(value_absent(others));
    let names = kept.map_values(value_name());
    let p = with_key(value_name(), value);
    lemma_position(values, p);
    if names.contains(value) {
        let i = choose|i: int| 0 <= i < names.len() && names[i] == value;
        values.lemma_filter_pred(value_absent(others), i);
        values.lemma_filter_contains_rev(value_absent(others), kept[i]);
        let j = choose|j: int| 0 <= j < values.len() && values[j] == kept[i];
        assert(p(values[j]));
    }
    if lookup(values, value_name(), value) is Some && lookup(others, value_name(), value) is None {
        let j = position(values, p)->0;
        assert(value_absent(others)(values[j]));
        values.lemma_filter_contains(value_absent(others), j);
        let i = choose|i: int| 0 <= i < kept.len() && kept[i] == values[j];
        assert(names[i] == value);
    }
}

/// The steps for the attributes of the values of an enum change no model,
/// field or enum.
pub proof fn lemma_value_directives_plain(
    enum_name: Seq<char>,
    previous: Seq<EnumValueView>,
    next: Seq<EnumValueView>,
)
    ensures
        plain(next.flat_map(created_value_directives(enum_name))),
        plain(
            next.flat_map(if_absent(previous, value_name(), created_value_directives(enum_name))),
        ),
        plain(previous.flat_map(if_present(next, value_name(), updated_value(enum_name)))),
{
    let a = created_value_directives(enum_name);
    let b = if_absent(previous, value_name(), created_value_directives(enum_name));
    let c = if_present(next, value_name(), updated_value(enum_name));
    assert forall|i: int| 0 <= i < next.len() implies plain(#[trigger] a(next[i])) by {
        lemma_created_directives_plain(value_path(enum_name, next[i]), next[i].attributes);
    }
    assert forall|i: int| 0 <= i < next.len() implies plain(#[trigger] b(next[i])) by {
        assert(plain(a(next[i])));
    }
    assert forall|i: int| 0 <= i < previous.len() implies plain(#[trigger] c(previous[i])) by {
        match lookup(next, value_name(), value_name()(previous[i])) {
            Some(n) => {
                lemma_directives_plain(
                    value_path(enum_name, n),
                    previous[i].attributes,
                    n.attributes,
                );
            },
            None => {},
        }
    }
    lemma_all_each(next, a, beside());
    lemma_all_each(next, b, beside());
    lemma_all_each(previous, c, beside());
}

/// The steps that create an enum, taken apart.
pub proof fn lemma_created_enum_parts(e: EnumView)
    ensures
        created_enum(e) == seq![
            MigrationStepView::CreateEnum(
                crate::steps::CreateEnumView {
                    enum_name: e.name.name,
                    values: e.values.map_values(value_name()),
                },
            ),
        ] + (created_directives(enum_path(e), e.attributes) + e.values.flat_map(
            created_value_directives(e.name.name),
        )),
        plain(
            created_directives(enum_path(e), e.attributes) + e.values.flat_map(
                created_value_directives(e.name.name),
            ),
        ),
{
    let head = seq![
        MigrationStepView::CreateEnum(
            crate::steps::CreateEnumView {
                enum_name: e.name.name,
                values: e.values.map_values(value_name()),
            },
        ),
    ];
    let a = created_directives(enum_path(e), e.attributes);
    let b = e.values.flat_map(created_value_directives(e.name.name));
    lemma_created_directives_plain(enum_path(e), e.attributes);
    lemma_value_directives_plain(e.name.name, e.values, e.values);
    lemma_all_both(a, b, beside());
    assert(created_enum(e) =~= head + (a + b));
}

/// The step of an update of an enum, if it changes anything.
pub open spec fn update_step(previous: EnumView, next: EnumView) -> Steps {
    let update = enum_update(previous, next);
    if update.is_any_option_set() {
        seq![MigrationStepView::UpdateEnum(update)]
    } else {
        Seq::empty()
    }
}

/// The steps for an enum that both schemas have, taken apart.
pub proof fn lemma_updated_enum_parts(previous: EnumView, next: EnumView)
    ensures
        updated_enum(previous, next) == (next.values.flat_map(
            if_absent(previous.values, value_name(), created_value_directives(next.name.name)),
        ) + previous.values.flat_map(
            if_present(next.values, value_name(), updated_value(next.name.name)),
        )) + update_step(previous, next) + directives_steps(
            enum_path(previous),
            previous.attributes,
            next.attributes,
        ),
        plain(
            next.values.flat_map(
                if_absent(previous.values, value_name(), created_value_directives(next.name.name)),
            ) + previous.values.flat_map(
                if_present(next.values, value_name(), updated_value(next.name.name)),
            ),
        ),
        plain(directives_steps(enum_path(previous), previous.attributes, next.attributes)),
{
    let a = next.values.flat_map(
        if_absent(previous.values, value_name(), created_value_directives(next.name.name)),
    );
    let b = previous.values.flat_map(
        if_present(next.values, value_name(), updated_value(next.name.name)),
    );
    lemma_value_directives_plain(next.name.name, previous.values, next.values);
    lemma_all_both(a, b, beside());
    lemma_directives_plain(enum_path(previous), previous.attributes, next.attributes);
    assert(updated_enum(previous, next) =~= (a + b) + update_step(previous, next)
        + directives_steps(enum_path(previous), previous.attributes, next.attributes));
}

/// The steps that create an enum are steps of that enum.
pub proof fn lemma_created_enum_of_enum(e: EnumView)
    ensures
        all_steps(created_enum(e), of_enum(e.name.name)),
{
    let good = of_enum(e.name.name);
    lemma_created_enum_parts(e);
    let head = seq![
        MigrationStepView::CreateEnum(
            crate::steps::CreateEnumView {
                enum_name: e.name.name,
                values: e.values.map_values(value_name()),
            },
        ),
    ];
    let rest = created_directives(enum_path(e), e.attributes) + e.values.flat_map(
        created_value_directives(e.name.name),
    );
    lemma_all_wider(rest, beside(), good);
    assert(all_steps(head, good));
    lemma_all_both(head, rest, good);
}

/// The steps for an enum that both schemas have are steps of that enum.
pub proof fn lemma_updated_enum_of_enum(previous: EnumView, next: EnumView)
    ensures
        all_steps(updated_enum(previous, next), of_enum(previous.name.name)),
{
    let good = of_enum(previous.name.name);
    lemma_updated_enum_parts(previous, next);
    let a = next.values.flat_map(
        if_absent(previous.values, value_name(), created_value_directives(next.name.name)),
    ) + previous.values.flat_map(
        if_present(next.values, value_name(), updated_value(next.name.name)),
    );
    let c = directives_steps(enum_path(previous), previous.attributes, next.attributes);
    lemma_all_wider(a, beside(), good);
    lemma_all_wider(c, beside(), good);
    assert(all_steps(update_step(previous, next), good));
    lemma_all_both(a, update_step(previous, next), good);
    lemma_all_both(a + update_step(previous, next), c, good);
}

/// Replaying the steps that create an enum puts the enum and its values
/// in their places.
pub proof fn lemma_created_enum_replayed(e: EnumView, at: Point, before: Seen)
    requires
        crate::differ::replay::within_enum(at, e.name.name),
    ensures
        replayed(created_enum(e), at, before) == seen_of_enum(e, at),
{
    lemma_created_enum_parts(e);
    let step = MigrationStepView::CreateEnum(
        crate::steps::CreateEnumView {
            enum_name: e.name.name,
            values: e.values.map_values(value_name()),
        },
    );
    let rest = created_directives(enum_path(e), e.attributes) + e.values.flat_map(
        created_value_directives(e.name.name),
    );
    lemma_plain_is_silent(rest, at);
    lemma_replayed_both(seq![step], rest, at, before);
    lemma_replayed_one(step, at, before);
    lemma_silent(rest, at, after(step, at, before));
    match at {
        Point::Value { value, .. } => {
            lemma_names_hold(e.values, value);
        },
        _ => {},
    }
}

/// Replaying the steps for an enum that both schemas have gives the enum
/// and its values as the later schema has them.
pub proof fn lemma_updated_enum_replayed(previous: EnumView, next: EnumView, at: Point)
    requires
        crate::differ::replay::within_enum(at, previous.name.name),
        previous.name.name == next.name.name,
    ensures
        replayed(updated_enum(previous, next), at, seen_of_enum(previous, at)) == seen_of_enum(
            next,
            at,
        ),
{
    let before = seen_of_enum(previous, at);
    lemma_updated_enum_parts(previous, next);
    let a = next.values.flat_map(
        if_absent(previous.values, value_name(), created_value_directives(next.name.name)),
    ) + previous.values.flat_map(
        if_present(next.values, value_name(), updated_value(next.name.name)),
    );
    let b = update_step(previous, next);
    let c = directives_steps(enum_path(previous), previous.attributes, next.attributes);
    lemma_plain_is_silent(a, at);
    lemma_plain_is_silent(c, at);
    lemma_replayed_both(a + b, c, at, before);
    lemma_replayed_both(a, b, at, before);
    lemma_silent(a, at, before);
    lemma_silent(c, at, replayed(b, at, before));
    let update = enum_update(previous, next);
    if update.is_any_option_set() {
        lemma_replayed_one(MigrationStepView::UpdateEnum(update), at, before);
    }
    match at {
        Point::Value { value, .. } => {
            lemma_absent_names_hold(next.values, previous.values, value);
            lemma_absent_names_hold(previous.values, next.values, value);
            if !update.is_any_option_set() {
                assert(!update.created_values.contains(value));
                assert(!update.deleted_values.contains(value));
            }
        },
        _ => {},
    }
}

/// The steps for the enums of two schemas are silent at every model and
/// at every field.
pub proof fn lemma_enums_silent_at_models(previous: Seq<TopView>, next: Seq<TopView>, at: Point)
    requires
        at is Model || at is Field,
    ensures
        silent(enums_steps(previous, next), at),
{
    let good = leaves(at);
    let created = created_enum_top(previous);
    let deleted = deleted_enum_top(next);
    let updated = updated_enum_top(next);
    assert forall|i: int| 0 <= i < next.len() implies
        all_steps(#[trigger] created(next[i]), good) by {
        match next[i] {
            TopView::Enum(e) => {
                lemma_created_enum_of_enum(e);
                lemma_of_enum_silent(created_enum(e), e.name.name, at);
            },
            _ => {},
        }
    }
    assert forall|i: int| 0 <= i < previous.len() implies all_steps(
        #[trigger] deleted(previous[i]),
        good,
    ) by {}
    assert forall|i: int| 0 <= i < previous.len() implies all_steps(
        #[trigger] updated(previous[i]),
        good,
    ) by {
        match previous[i] {
            TopView::Enum(e) => {
                match find_enum(next, e.name.name) {
                    Some(n) => {
                        lemma_updated_enum_of_enum(e, n);
                        lemma_of_enum_silent(updated_enum(e, n), e.name.name, at);
                    },
                    None => {},
                }
            },
            _ => {},
        }
    }
    lemma_all_each(next, created, good);
    lemma_all_each(previous, deleted, good);
    lemma_all_each(previous, updated, good);
    lemma_all_both(next.flat_map(created), previous.flat_map(deleted), good);
    lemma_all_both(
        next.flat_map(created) + previous.flat_map(deleted),
        previous.flat_map(updated),
        good,
    );
}

/// An enum that is found under a name is one of the things at the top of
/// the schema and bears the name; no other enum does where the schema is
/// unique.
pub proof fn lemma_found_enum(x: SchemaAstView, name: Seq<char>)
    requires
        structure_unique(x),
    ensures
        match find_enum(x.tops, name) {
            Some(e) => find(x.tops, enum_named(name)) == Some(TopView::Enum(e)) && e.name.name
                == name,
            None => find(x.tops, enum_named(name)) is None,
        },
        forall|i: int, j: int|
            0 <= i < j < x.tops.len() ==> !(enum_named(name)(x.tops[i]) && enum_named(name)(
                x.tops[j],
            )),
{
    lemma_position(x.tops, enum_named(name));
    assert forall|i: int, j: int| 0 <= i < j < x.tops.len() implies !(enum_named(name)(x.tops[i])
        && enum_named(name)(x.tops[j])) by {
        assert(!same_structure(x.tops[i], x.tops[j]));
    }
}

/// Replaying the steps for the enums of two schemas on the earlier one
/// gives each enum and each value as the later one has it.
pub proof fn lemma_enums_replayed(previous: SchemaAstView, next: SchemaAstView, at: Point)
    requires
        structure_unique(previous),
        structure_unique(next),
        at is Enum || at is Value,
    ensures
        replayed(enums_steps(previous.tops, next.tops), at, seen(previous, at)) == seen(next, at),
{
    let name = match at {
        Point::Enum { enum_name } => enum_name,
        Point::Value { enum_name, .. } => enum_name,
        _ => Seq::empty(),
    };
    let p = enum_named(name);
    let before = seen(previous, at);
    let created = created_enum_top(previous.tops);
    let deleted = deleted_enum_top(next.tops);
    let updated = updated_enum_top(next.tops);
    lemma_found_enum(previous, name);
    lemma_found_enum(next, name);
    assert forall|j: int| 0 <= j < next.tops.len() && !p(next.tops[j]) implies silent(
        #[trigger] created(next.tops[j]),
        at,
    ) by {
        match next.tops[j] {
            TopView::Enum(e) => {
                lemma_created_enum_of_enum(e);
                lemma_of_enum_silent(created_enum(e), e.name.name, at);
            },
            _ => {},
        }
    }
    assert forall|j: int| 0 <= j < previous.tops.len() && !p(previous.tops[j]) implies silent(
        #[trigger] deleted(previous.tops[j]),
        at,
    ) by {}
    assert forall|j: int| 0 <= j < previous.tops.len() && !p(previous.tops[j]) implies silent(
        #[trigger] updated(previous.tops[j]),
        at,
    ) by {
        match previous.tops[j] {
            TopView::Enum(e) => {
                match find_enum(next.tops, e.name.name) {
                    Some(n) => {
                        lemma_updated_enum_of_enum(e, n);
                        lemma_of_enum_silent(updated_enum(e, n), e.name.name, at);
                    },
                    None => {},
                }
            },
            _ => {},
        }
    }
    let a = next.tops.flat_map(created);
    let b = previous.tops.flat_map(deleted);
    let c = previous.tops.flat_map(updated);
    lemma_only_found(next.tops, p, created, at, before);
    let s1 = replayed(a, at, before);
    lemma_only_found(previous.tops, p, deleted, at, s1);
    let s2 = replayed(b, at, s1);
    lemma_only_found(previous.tops, p, updated, at, s2);
    lemma_replayed_both(a, b, at, before);
    lemma_replayed_both(a + b, c, at, before);
    match (find_enum(previous.tops, name), find_enum(next.tops, name)) {
        (None, Some(eq)) => {
            lemma_created_enum_replayed(eq, at, before);
        },
        (Some(ep), None) => {
            lemma_replayed_one(
                MigrationStepView::DeleteEnum(
                    crate::steps::DeleteEnumView { enum_name: ep.name.name },
                ),
                at,
                s1,
            );
        },
        (Some(ep), Some(eq)) => {
            lemma_updated_enum_replayed(ep, eq, at);
        },
        (None, None) => {},
    }
}

/// Replaying the steps between two schemas on the earlier one gives the
/// later one: at every model, every field, every enum and every value of
/// an enum stands, after the steps, what stands there in the later
/// schema. This holds of schemas in which no two models share a name, nor
/// two enums, nor two fields of a model.
pub proof fn lemma_round_trip(previous: SchemaAstView, next: SchemaAstView, at: Point)
    requires
        structure_unique(previous),
        structure_unique(next),
    ensures
        replayed(steps_between(previous, next), at, seen(previous, at)) == seen(next, at),
{
    let before = seen(previous, at);
    let a = type_aliases_steps(previous.tops, next.tops);
    let b = enums_steps(previous.tops, next.tops);
    let c = datasources_steps(previous.tops, next.tops);
    let d = models_steps(previous.tops, next.tops);
    lemma_type_aliases_plain(previous.tops, next.tops);
    lemma_datasources_plain(previous.tops, next.tops);
    lemma_plain_is_silent(a, at);
    lemma_plain_is_silent(c, at);
    lemma_replayed_both(a + b + c, d, at, before);
    lemma_replayed_both(a + b, c, at, before);
    lemma_replayed_both(a, b, at, before);
    lemma_silent(a, at, before);
    lemma_silent(c, at, replayed(b, at, before));
    if at is Model || at is Field {
        lemma_enums_silent_at_models(previous.tops, next.tops, at);
        lemma_silent(b, at, before);
        lemma_models_replayed(previous, next, at);
    } else {
        lemma_models_silent_at_enums(previous.tops, next.tops, at);
        lemma_enums_replayed(previous, next, at);
        lemma_silent(d, at, seen(next, at));
    }
}

} // verus!
