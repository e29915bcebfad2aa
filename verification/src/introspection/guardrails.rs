//! Commenting out what the schema language cannot express, with a warning
//! for each kind of thing that was commented out.

use crate::dml::{
    Datamodel, DatamodelView, Enum, EnumValue, EnumValueView, EnumView, Field, FieldArity,
    FieldType, FieldTypeView, FieldView, IndexDefinition, IndexDefinitionView, IndexType, Model,
    ModelView, ScalarField, ScalarFieldView,
};
use crate::introspection::warnings::{warning_of, WarningKind};
use crate::introspection::{Affected, AffectedView, Warning, WarningView};
use crate::seqs::{
    any, lemma_filter_map_step, lemma_flat_map_step, lemma_map_step, lemma_of_nothing,
    lemma_position_is, lemma_position_none, lemma_take_ends, list_clone, option_clone,
};
use crate::text::{name_option_clone, names_clone, names_contain, str_eq};
use vstd::prelude::*;
use vstd::string::*;

verus! {

/// The comment on a model that has no unique identifier.
pub open spec fn no_identifier_comment() -> Seq<char> {
    "The underlying table does not contain a valid unique identifier and can therefore currently not be handled."@
}

/// The comment on a field that has no valid name.
pub open spec fn invalid_name_comment() -> Seq<char> {
    "This field was commented out because of an invalid name. Please provide a valid one that matches [a-zA-Z][a-zA-Z0-9_]*"@
}

/// The scalar fields that are the id of their model.
pub open spec fn is_id_field() -> spec_fn(FieldView) -> bool {
    |f: FieldView|
        match f {
            FieldView::ScalarField(sf) => sf.is_id,
            _ => false,
        }
}

/// The scalar fields that are unique and required.
pub open spec fn is_unique_required() -> spec_fn(FieldView) -> bool {
    |f: FieldView|
        match f {
            FieldView::ScalarField(sf) => sf.is_unique && sf.arity == FieldArity::Required,
            _ => false,
        }
}

/// The required scalar fields of the given name.
pub open spec fn required_named(name: Seq<char>) -> spec_fn(FieldView) -> bool {
    |f: FieldView|
        match f {
            FieldView::ScalarField(sf) => sf.name == name && sf.arity == FieldArity::Required,
            _ => false,
        }
}

/// The names that no required scalar field of the model has.
pub open spec fn not_required_in(m: ModelView) -> spec_fn(Seq<char>) -> bool {
    |name: Seq<char>| !any(m.fields, required_named(name))
}

/// The unique indexes over required scalar fields of the model.
pub open spec fn identifies(m: ModelView) -> spec_fn(IndexDefinitionView) -> bool {
    |i: IndexDefinitionView| i.tpe == IndexType::Unique && !any(i.fields, not_required_in(m))
}

/// Whether the records of a model can be told apart: by an id field, by
/// an id of several fields, by a required unique field, or by a unique
/// index over required fields.
pub open spec fn has_unique_identifier(m: ModelView) -> bool {
    any(m.fields, is_id_field()) || m.id_fields.len() > 0 || any(m.fields, is_unique_required())
        || any(m.indices, identifies(m))
}

/// The models whose records cannot be told apart.
pub open spec fn without_identifier() -> spec_fn(ModelView) -> bool {
    |m: ModelView| !has_unique_identifier(m)
}

pub open spec fn model_name() -> spec_fn(ModelView) -> Seq<char> {
    |m: ModelView| m.name
}

/// The names of the models that are commented out for want of an identifier.
pub open spec fn commented_models(dm: DatamodelView) -> Seq<Seq<char>> {
    dm.models.filter(without_identifier()).map_values(model_name())
}

/// The fields that stay: all but the relation fields that point to a model
/// which is commented out.
pub open spec fn stays(gone: Seq<Seq<char>>) -> spec_fn(FieldView) -> bool {
    |f: FieldView|
        match f {
            FieldView::RelationField(rf) => !gone.contains(rf.relation_info.to),
            FieldView::ScalarField(_) => true,
        }
}

/// A field as it is shown: a scalar field without a name is commented out
/// under the name it has in the database.
pub open spec fn shown_field() -> spec_fn(FieldView) -> FieldView {
    |f: FieldView|
        match f {
            FieldView::ScalarField(sf) => if sf.name.len() == 0 {
                FieldView::ScalarField(
                    ScalarFieldView {
                        name: match sf.database_name {
                            Some(n) => n,
                            None => sf.name,
                        },
                        documentation: Some(invalid_name_comment()),
                        is_commented_out: true,
                        ..sf
                    },
                )
            } else {
                f
            },
            FieldView::RelationField(_) => f,
        }
}

/// A model as it is shown.
pub open spec fn shown_model(gone: Seq<Seq<char>>) -> spec_fn(ModelView) -> ModelView {
    |m: ModelView|
        ModelView {
            fields: m.fields.filter(stays(gone)).map_values(shown_field()),
            documentation: if has_unique_identifier(m) {
                m.documentation
            } else {
                Some(no_identifier_comment())
            },
            is_commented_out: m.is_commented_out || !has_unique_identifier(m),
            ..m
        }
}

/// A value of an enum as it is shown: a value without a name is commented
/// out under the name it has in the database.
pub open spec fn shown_value() -> spec_fn(EnumValueView) -> EnumValueView {
    |v: EnumValueView|
        if v.name.len() == 0 {
            EnumValueView {
                name: match v.database_name {
                    Some(n) => n,
                    None => v.name,
                },
                commented_out: true,
                ..v
            }
        } else {
            v
        }
}

/// An enum as it is shown.
pub open spec fn shown_enum() -> spec_fn(EnumView) -> EnumView {
    |e: EnumView| EnumView { values: e.values.map_values(shown_value()), ..e }
}

/// The data model as it is shown.
pub open spec fn shown(dm: DatamodelView) -> DatamodelView {
    DatamodelView {
        models: dm.models.map_values(shown_model(commented_models(dm))),
        enums: dm.enums.map_values(shown_enum()),
    }
}

pub open spec fn affected_model() -> spec_fn(Seq<char>) -> AffectedView {
    |name: Seq<char>| AffectedView::model(name)
}

/// The scalar fields without a name.
pub open spec fn nameless() -> spec_fn(FieldView) -> bool {
    |f: FieldView|
        match f {
            FieldView::ScalarField(sf) => sf.name.len() == 0,
            _ => false,
        }
}

/// The scalar fields of an unsupported type.
pub open spec fn unsupported() -> spec_fn(FieldView) -> bool {
    |f: FieldView|
        match f {
            FieldView::ScalarField(sf) => sf.field_type is Unsupported,
            _ => false,
        }
}

/// What a warning about a field of the model names: the model and the
/// field as they are shown, and the type where the warning is about it.
pub open spec fn affected_field(model: Seq<char>, with_type: bool) -> spec_fn(FieldView) -> AffectedView {
    |f: FieldView|
        {
            let name = shown_field()(f).name();
            match f {
                FieldView::ScalarField(sf) => match sf.field_type {
                    FieldTypeView::Unsupported(tpe) if with_type => AffectedView::model_and_field_and_type(
                        model,
                        name,
                        tpe,
                    ),
                    _ => AffectedView::model_and_field(model, name),
                },
                FieldView::RelationField(_) => AffectedView::model_and_field(model, name),
            }
        }
}

/// The fields without a name of a model.
pub open spec fn nameless_in() -> spec_fn(ModelView) -> Seq<AffectedView> {
    |m: ModelView| m.fields.filter(nameless()).map_values(affected_field(m.name, false))
}

/// The fields of an unsupported type of a model.
pub open spec fn unsupported_in() -> spec_fn(ModelView) -> Seq<AffectedView> {
    |m: ModelView| m.fields.filter(unsupported()).map_values(affected_field(m.name, true))
}

/// The values without a name.
pub open spec fn nameless_value() -> spec_fn(EnumValueView) -> bool {
    |v: EnumValueView| v.name.len() == 0
}

pub open spec fn affected_value(enm: Seq<char>) -> spec_fn(EnumValueView) -> AffectedView {
    |v: EnumValueView| AffectedView::enum_and_value(enm, shown_value()(v).name)
}

/// The values without a name of an enum.
pub open spec fn nameless_values_in() -> spec_fn(EnumView) -> Seq<AffectedView> {
    |e: EnumView| e.values.filter(nameless_value()).map_values(affected_value(e.name))
}

/// The warning of a kind about the given things, if there are any.
pub open spec fn warning_if_any(kind: WarningKind, affected: Seq<AffectedView>) -> Seq<WarningView> {
    if affected.len() > 0 {
        seq![warning_of(kind, affected)]
    } else {
        Seq::empty()
    }
}

/// The warnings for what was commented out: one for the models without an
/// identifier, one for the fields without a name, one for the fields of an
/// unsupported type, and one for the enum values without a name, each only
/// where there is such a thing.
pub open spec fn guardrail_warnings(dm: DatamodelView) -> Seq<WarningView> {
    warning_if_any(
        WarningKind::ModelsWithoutIdentifier,
        commented_models(dm).map_values(affected_model()),
    ) + warning_if_any(WarningKind::FieldsWithEmptyNames, dm.models.flat_map(nameless_in()))
        + warning_if_any(WarningKind::UnsupportedTypes, dm.models.flat_map(unsupported_in()))
        + warning_if_any(
        WarningKind::EnumValuesWithEmptyNames,
        dm.enums.flat_map(nameless_values_in()),
    )
}

#[verifier::loop_isolation(false)]
fn has_required_field(m: &Model, name: &str) -> (r: bool)
    ensures
        r == any(m.deep_view().fields, required_named(name@)),
{
    let ghost p = required_named(name@);
    let ghost fs = m.deep_view().fields;
    let mut i: usize = 0;
    while i < m.fields.len()
        invariant
            i <= m.fields.len(),
            forall|j: int| 0 <= j < i ==> !p(#[trigger] fs[j]),
        decreases m.fields.len() - i,
    {
        assert(fs[i as int] == m.fields[i as int].deep_view());
        let hit: bool = match &m.fields[i] {
            Field::ScalarField(sf) => str_eq(sf.name.as_str(), name) && sf.is_required(),
            Field::RelationField(_) => false,
        };
        if hit {
            proof {
                lemma_position_is(fs, p, i as int);
            }
            return true;
        }
        i = i + 1;
    }
    proof {
        lemma_position_none(fs, p);
    }
    false
}

#[verifier::loop_isolation(false)]
fn index_identifies(m: &Model, index: &IndexDefinition) -> (r: bool)
    ensures
        r == identifies(m.deep_view())(index.deep_view()),
{
    if index.tpe != IndexType::Unique {
        return false;
    }
    let ghost p = not_required_in(m.deep_view());
    let ghost fs = index.deep_view().fields;
    let mut i: usize = 0;
    while i < index.fields.len()
        invariant
            i <= index.fields.len(),
            forall|j: int| 0 <= j < i ==> !p(#[trigger] fs[j]),
        decreases index.fields.len() - i,
    {
        assert(fs[i as int] == index.fields[i as int]@);
        if !has_required_field(m, index.fields[i].as_str()) {
            proof {
                lemma_position_is(fs, p, i as int);
            }
            return false;
        }
        i = i + 1;
    }
    proof {
        lemma_position_none(fs, p);
    }
    true
}

/// Whether the records of a model can be told apart.
#[verifier::loop_isolation(false)]
pub fn has_identifier(m: &Model) -> (r: bool)
    ensures
        r == has_unique_identifier(m.deep_view()),
{
    let ghost mv = m.deep_view();
    let mut i: usize = 0;
    while i < m.fields.len()
        invariant
            i <= m.fields.len(),
            forall|j: int| 0 <= j < i ==> !is_id_field()(#[trigger] mv.fields[j]),
            forall|j: int| 0 <= j < i ==> !is_unique_required()(#[trigger] mv.fields[j]),
        decreases m.fields.len() - i,
    {
        assert(mv.fields[i as int] == m.fields[i as int].deep_view());
        match &m.fields[i] {
            Field::ScalarField(sf) => {
                if sf.is_id {
                    proof {
                        lemma_position_is(mv.fields, is_id_field(), i as int);
                    }
                    return true;
                }
                if sf.is_unique && sf.is_required() {
                    proof {
                        lemma_position_is(mv.fields, is_unique_required(), i as int);
                    }
                    return true;
                }
            },
            Field::RelationField(_) => {},
        }
        i = i + 1;
    }
    proof {
        lemma_position_none(mv.fields, is_id_field());
        lemma_position_none(mv.fields, is_unique_required());
    }
    if m.id_fields.len() > 0 {
        return true;
    }
    let ghost p = identifies(mv);
    let mut k: usize = 0;
    while k < m.indices.len()
        invariant
            k <= m.indices.len(),
            forall|j: int| 0 <= j < k ==> !p(#[trigger] mv.indices[j]),
        decreases m.indices.len() - k,
    {
        assert(mv.indices[k as int] == m.indices[k as int].deep_view());
        if index_identifies(m, &m.indices[k]) {
            proof {
                lemma_position_is(mv.indices, p, k as int);
            }
            return true;
        }
        k = k + 1;
    }
    proof {
        lemma_position_none(mv.indices, p);
    }
    false
}

/// The names of the models whose records cannot be told apart.
#[verifier::loop_isolation(false)]
pub fn models_without_identifier(dm: &Datamodel) -> (r: Vec<String>)
    ensures
        r.deep_view() == commented_models(dm.deep_view()),
{
    let ghost ms = dm.deep_view().models;
    let mut out: Vec<String> = Vec::new();
    let mut i: usize = 0;
    proof {
        lemma_take_ends(ms);
        lemma_of_nothing(without_identifier(), model_name(), |m: ModelView| Seq::<Seq<char>>::empty());
    }
    while i < dm.models.len()
        invariant
            i <= dm.models.len(),
            out.deep_view() == ms.take(i as int).filter(without_identifier()).map_values(
                model_name(),
            ),
        decreases dm.models.len() - i,
    {
        let ghost before = out.deep_view();
        proof {
            lemma_filter_map_step(ms, without_identifier(), model_name(), i as int);
        }
        if !has_identifier(&dm.models[i]) {
            out.push(dm.models[i].name.clone());
            assert(out.deep_view() =~= before.push(dm.models[i as int].name@));
        }
        i = i + 1;
    }
    out
}

/// A field as it is shown.
fn show_field(f: &Field) -> (r: Field)
    ensures
        r.deep_view() == shown_field()(f.deep_view()),
{
    match f {
        Field::ScalarField(sf) => {
            if sf.name.as_str().unicode_len() == 0 {
                Field::ScalarField(
                    ScalarField {
                        name: match &sf.database_name {
                            Some(n) => n.clone(),
                            None => sf.name.clone(),
                        },
                        field_type: sf.field_type.clone(),
                        arity: sf.arity,
                        database_name: name_option_clone(&sf.database_name),
                        default_value: option_clone(&sf.default_value),
                        is_unique: sf.is_unique,
                        is_id: sf.is_id,
                        documentation: Some(
                            "This field was commented out because of an invalid name. Please provide a valid one that matches [a-zA-Z][a-zA-Z0-9_]*".to_owned(),
                        ),
                        is_generated: sf.is_generated,
                        is_updated_at: sf.is_updated_at,
                        is_commented_out: true,
                    },
                )
            } else {
                f.clone()
            }
        },
        Field::RelationField(_) => f.clone(),
    }
}

/// A model as it is shown.
#[verifier::loop_isolation(false)]
fn show_model(m: &Model, gone: &Vec<String>) -> (r: Model)
    ensures
        r.deep_view() == shown_model(gone.deep_view())(m.deep_view()),
{
    let ghost mv = m.deep_view();
    let ghost p = stays(gone.deep_view());
    let mut fields: Vec<Field> = Vec::new();
    let mut i: usize = 0;
    proof {
        lemma_take_ends(mv.fields);
        lemma_of_nothing(p, shown_field(), |f: FieldView| Seq::<FieldView>::empty());
    }
    while i < m.fields.len()
        invariant
            i <= m.fields.len(),
            fields.deep_view() == mv.fields.take(i as int).filter(p).map_values(shown_field()),
        decreases m.fields.len() - i,
    {
        let ghost before = fields.deep_view();
        proof {
            lemma_filter_map_step(mv.fields, p, shown_field(), i as int);
        }
        assert(mv.fields[i as int] == m.fields[i as int].deep_view());
        let keep: bool = match &m.fields[i] {
            Field::RelationField(rf) => !names_contain(gone, rf.relation_info.to.as_str()),
            Field::ScalarField(_) => true,
        };
        if keep {
            let f = show_field(&m.fields[i]);
            let ghost fv = f.deep_view();
            fields.push(f);
            assert(fields.deep_view() =~= before.push(fv));
        }
        i = i + 1;
    }
    let identified: bool = has_identifier(m);
    Model {
        name: m.name.clone(),
        fields,
        documentation: if identified {
            name_option_clone(&m.documentation)
        } else {
            Some(
                "The underlying table does not contain a valid unique identifier and can therefore currently not be handled.".to_owned(),
            )
        },
        database_name: name_option_clone(&m.database_name),
        is_embedded: m.is_embedded,
        indices: list_clone(&m.indices),
        id_fields: names_clone(&m.id_fields),
        is_generated: m.is_generated,
        is_commented_out: m.is_commented_out || !identified,
    }
}

/// An enum as it is shown.
#[verifier::loop_isolation(false)]
fn show_enum(e: &Enum) -> (r: Enum)
    ensures
        r.deep_view() == shown_enum()(e.deep_view()),
{
    let ghost ev = e.deep_view();
    let mut values: Vec<EnumValue> = Vec::new();
    let mut i: usize = 0;
    proof {
        lemma_take_ends(ev.values);
        lemma_of_nothing(
            nameless_value(),
            shown_value(),
            |v: EnumValueView| Seq::<EnumValueView>::empty(),
        );
    }
    while i < e.values.len()
        invariant
            i <= e.values.len(),
            values.deep_view() == ev.values.take(i as int).map_values(shown_value()),
        decreases e.values.len() - i,
    {
        let ghost before = values.deep_view();
        proof {
            lemma_map_step(ev.values, shown_value(), i as int);
        }
        let v: &EnumValue = &e.values[i];
        assert(ev.values[i as int] == v.deep_view());
        let value: EnumValue = if v.name.as_str().unicode_len() == 0 {
            EnumValue {
                name: match &v.database_name {
                    Some(n) => n.clone(),
                    None => v.name.clone(),
                },
                database_name: name_option_clone(&v.database_name),
                documentation: name_option_clone(&v.documentation),
                commented_out: true,
            }
        } else {
            v.clone()
        };
        let ghost vv = value.deep_view();
        values.push(value);
        assert(values.deep_view() =~= before.push(vv));
        i = i + 1;
    }
    Enum {
        name: e.name.clone(),
        values,
        documentation: name_option_clone(&e.documentation),
        database_name: name_option_clone(&e.database_name),
        commented_out: e.commented_out,
    }
}

/// What a warning about a field names.
fn affect_field(model: &str, f: &Field, with_type: bool) -> (r: Affected)
    ensures
        r.deep_view() == affected_field(model@, with_type)(f.deep_view()),
{
    let shown: Field = show_field(f);
    match f {
        Field::ScalarField(sf) => match &sf.field_type {
            FieldType::Unsupported(tpe) => {
                if with_type {
                    Affected::model_and_field_and_type(model, shown.name(), tpe.as_str())
                } else {
                    Affected::model_and_field(model, shown.name())
                }
            },
            _ => Affected::model_and_field(model, shown.name()),
        },
        Field::RelationField(_) => Affected::model_and_field(model, shown.name()),
    }
}

/// Puts behind `out` the fields of a model that are without a name, or, if
/// `unsupported_types` is set, those of an unsupported type.
#[verifier::loop_isolation(false)]
fn push_affected_fields(out: &mut Vec<Affected>, m: &Model, unsupported_types: bool)
    ensures
        final(out).deep_view() == old(out).deep_view() + if unsupported_types {
            unsupported_in()(m.deep_view())
        } else {
            nameless_in()(m.deep_view())
        },
{
    let ghost start = out.deep_view();
    let ghost mv = m.deep_view();
    let ghost p = if unsupported_types {
        unsupported()
    } else {
        nameless()
    };
    let ghost f = affected_field(mv.name, unsupported_types);
    let mut i: usize = 0;
    proof {
        lemma_take_ends(mv.fields);
        lemma_of_nothing(p, f, |x: FieldView| Seq::<AffectedView>::empty());
        assert(start + mv.fields.take(0).filter(p).map_values(f) =~= start);
    }
    while i < m.fields.len()
        invariant
            i <= m.fields.len(),
            out.deep_view() == start + mv.fields.take(i as int).filter(p).map_values(f),
        decreases m.fields.len() - i,
    {
        let ghost before = out.deep_view();
        proof {
            lemma_filter_map_step(mv.fields, p, f, i as int);
        }
        assert(mv.fields[i as int] == m.fields[i as int].deep_view());
        let hit: bool = match &m.fields[i] {
            Field::ScalarField(sf) => if unsupported_types {
                matches!(sf.field_type, FieldType::Unsupported(_))
            } else {
                sf.name.as_str().unicode_len() == 0
            },
            Field::RelationField(_) => false,
        };
        if hit {
            let a = affect_field(m.name.as_str(), &m.fields[i], unsupported_types);
            let ghost av = a.deep_view();
            out.push(a);
            assert(out.deep_view() =~= before.push(av));
            assert(before.push(av) =~= start + mv.fields.take(i as int).filter(p).map_values(
                f,
            ).push(av));
        }
        i = i + 1;
    }
}

/// Puts behind `out` the values of an enum that are without a name.
#[verifier::loop_isolation(false)]
fn push_affected_values(out: &mut Vec<Affected>, e: &Enum)
    ensures
        final(out).deep_view() == old(out).deep_view() + nameless_values_in()(e.deep_view()),
{
    let ghost start = out.deep_view();
    let ghost ev = e.deep_view();
    let ghost p = nameless_value();
    let ghost f = affected_value(ev.name);
    let mut i: usize = 0;
    proof {
        lemma_take_ends(ev.values);
        lemma_of_nothing(p, f, |x: EnumValueView| Seq::<AffectedView>::empty());
        assert(start + ev.values.take(0).filter(p).map_values(f) =~= start);
    }
    while i < e.values.len()
        invariant
            i <= e.values.len(),
            out.deep_view() == start + ev.values.take(i as int).filter(p).map_values(f),
        decreases e.values.len() - i,
    {
        proof {
            lemma_filter_map_step(ev.values, p, f, i as int);
        }
        let v: &EnumValue = &e.values[i];
        assert(ev.values[i as int] == v.deep_view());
        if v.name.as_str().unicode_len() == 0 {
            let name: &str = match &v.database_name {
                Some(n) => n.as_str(),
                None => v.name.as_str(),
            };
            let a = Affected::enum_and_value(e.name.as_str(), name);
            let ghost av = a.deep_view();
            let ghost before = out.deep_view();
            out.push(a);
            assert(out.deep_view() =~= before.push(av));
            assert(before.push(av) =~= start + ev.values.take(i as int).filter(p).map_values(
                f,
            ).push(av));
        }
        i = i + 1;
    }
}

/// Puts behind `warnings` the warning of a kind, if there is anything to warn of.
pub(crate) fn push_warning(warnings: &mut Vec<Warning>, kind: WarningKind, affected: Vec<Affected>)
    ensures
        final(warnings).deep_view() == old(warnings).deep_view() + warning_if_any(
            kind,
            affected.deep_view(),
        ),
{
    let ghost before = warnings.deep_view();
    if affected.len() > 0 {
        let w = Warning::new(kind, affected);
        let ghost wv = w.deep_view();
        warnings.push(w);
        assert(warnings.deep_view() =~= before + seq![wv]);
    } else {
        assert(warnings.deep_view() =~= before + Seq::<WarningView>::empty());
    }
}

/// Comments out what the schema language cannot express, and returns a
/// warning for each kind of thing that was commented out.
#[verifier::loop_isolation(false)]
pub fn commenting_out_guardrails(data_model: &mut Datamodel) -> (warnings: Vec<Warning>)
    ensures
        final(data_model).deep_view() == shown(old(data_model).deep_view()),
        warnings.deep_view() == guardrail_warnings(old(data_model).deep_view()),
{
    let ghost dmv = data_model.deep_view();
    let gone: Vec<String> = models_without_identifier(data_model);
    let ghost g = gone.deep_view();
    let mut models: Vec<Model> = Vec::new();
    let mut nameless_fields: Vec<Affected> = Vec::new();
    let mut unsupported_fields: Vec<Affected> = Vec::new();
    let mut i: usize = 0;
    proof {
        lemma_take_ends(dmv.models);
        lemma_take_ends(dmv.enums);
        lemma_of_nothing(without_identifier(), shown_model(g), |m: ModelView| Seq::<ModelView>::empty());
        lemma_of_nothing(without_identifier(), model_name(), nameless_in());
        lemma_of_nothing(without_identifier(), model_name(), unsupported_in());
        assert(nameless_fields.deep_view() =~= Seq::<AffectedView>::empty());
        assert(unsupported_fields.deep_view() =~= Seq::<AffectedView>::empty());
    }
    while i < data_model.models.len()
        invariant
            i <= data_model.models.len(),
            data_model.deep_view() == dmv,
            models.deep_view() == dmv.models.take(i as int).map_values(shown_model(g)),
            nameless_fields.deep_view() == dmv.models.take(i as int).flat_map(nameless_in()),
            unsupported_fields.deep_view() == dmv.models.take(i as int).flat_map(unsupported_in()),
        decreases data_model.models.len() - i,
    {
        let ghost before = models.deep_view();
        proof {
            lemma_map_step(dmv.models, shown_model(g), i as int);
            lemma_flat_map_step(dmv.models, nameless_in(), i as int);
            lemma_flat_map_step(dmv.models, unsupported_in(), i as int);
        }
        let m: &Model = &data_model.models[i];
        assert(dmv.models[i as int] == m.deep_view());
        push_affected_fields(&mut nameless_fields, m, false);
        push_affected_fields(&mut unsupported_fields, m, true);
        let shown_m = show_model(m, &gone);
        let ghost sv = shown_m.deep_view();
        models.push(shown_m);
        assert(models.deep_view() =~= before.push(sv));
        i = i + 1;
    }
    let mut enums: Vec<Enum> = Vec::new();
    let mut nameless_values: Vec<Affected> = Vec::new();
    let mut k: usize = 0;
    proof {
        lemma_of_nothing(|e: EnumView| true, shown_enum(), nameless_values_in());
        assert(nameless_values.deep_view() =~= Seq::<AffectedView>::empty());
    }
    while k < data_model.enums.len()
        invariant
            k <= data_model.enums.len(),
            data_model.deep_view() == dmv,
            enums.deep_view() == dmv.enums.take(k as int).map_values(shown_enum()),
            nameless_values.deep_view() == dmv.enums.take(k as int).flat_map(nameless_values_in()),
        decreases data_model.enums.len() - k,
    {
        let ghost before = enums.deep_view();
        proof {
            lemma_map_step(dmv.enums, shown_enum(), k as int);
            lemma_flat_map_step(dmv.enums, nameless_values_in(), k as int);
        }
        let e: &Enum = &data_model.enums[k];
        assert(dmv.enums[k as int] == e.deep_view());
        push_affected_values(&mut nameless_values, e);
        let shown_e = show_enum(e);
        let ghost sv = shown_e.deep_view();
        enums.push(shown_e);
        assert(enums.deep_view() =~= before.push(sv));
        k = k + 1;
    }
    let mut affected_models: Vec<Affected> = Vec::new();
    let mut x: usize = 0;
    proof {
        lemma_take_ends(g);
        lemma_of_nothing(|n: Seq<char>| true, affected_model(), |n: Seq<char>| Seq::<AffectedView>::empty());
    }
    while x < gone.len()
        invariant
            x <= gone.len(),
            affected_models.deep_view() == g.take(x as int).map_values(affected_model()),
        decreases gone.len() - x,
    {
        let ghost before = affected_models.deep_view();
        proof {
            lemma_map_step(g, affected_model(), x as int);
            assert(g[x as int] == gone[x as int]@);
        }
        let a = Affected::model(gone[x].as_str());
        let ghost av = a.deep_view();
        affected_models.push(a);
        assert(affected_models.deep_view() =~= before.push(av));
        x = x + 1;
    }
    let mut warnings: Vec<Warning> = Vec::new();
    assert(warnings.deep_view() =~= Seq::<WarningView>::empty());
    push_warning(&mut warnings, WarningKind::ModelsWithoutIdentifier, affected_models);
    push_warning(&mut warnings, WarningKind::FieldsWithEmptyNames, nameless_fields);
    push_warning(&mut warnings, WarningKind::UnsupportedTypes, unsupported_fields);
    push_warning(&mut warnings, WarningKind::EnumValuesWithEmptyNames, nameless_values);
    *data_model = Datamodel { enums, models };
    assert(warnings.deep_view() =~= guardrail_warnings(dmv));
    warnings
}

} // verus!
