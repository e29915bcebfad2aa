//! Giving every model, field, enum and enum value a name that the schema
//! language accepts.
//!
//! A name that the language does not accept is made valid; the name it had
//! is kept as the name in the database. Where the valid name is taken
//! already, underscores behind it tell it from the names before it. What
//! refers to a thing by its name follows the thing to its new name.

use crate::dml::{
    Datamodel, DatamodelView, Enum, EnumValue, EnumValueView, EnumView, Field, FieldType,
    FieldTypeView, FieldView, IndexDefinition, IndexDefinitionView, Model, ModelView,
    RelationField, RelationFieldView, RelationInfo, RelationInfoView, ScalarField,
    ScalarFieldView,
};
use crate::introspection::names::{
    free_name, make_free_name, sanitize_string, sanitized,
};
use crate::seqs::{lemma_map_step, lemma_position_is, lemma_position_none, position};
use crate::text::{name_option_clone, names_clone, str_eq};
use vstd::prelude::*;
use vstd::string::*;

verus! {

/// The new name of a thing, given the new names taken before it.
pub open spec fn new_name(old_name: Seq<char>, taken: Seq<Seq<char>>) -> Seq<char> {
    let s = sanitized(old_name);
    if s.len() == 0 {
        s
    } else {
        free_name(s, taken)
    }
}

/// The new names of the first `k` of the things named `olds`, where the
/// names `taken` are taken from the start.
pub open spec fn new_names(olds: Seq<Seq<char>>, taken: Seq<Seq<char>>, k: int) -> Seq<Seq<char>>
    decreases k,
{
    if k <= 0 {
        Seq::empty()
    } else {
        let before = new_names(olds, taken, k - 1);
        before.push(new_name(olds[k - 1], taken + before))
    }
}

/// The names that are `name`.
pub open spec fn is_name(name: Seq<char>) -> spec_fn(Seq<char>) -> bool {
    |o: Seq<char>| o == name
}

/// The new name of the thing that `name` refers to: that of the first
/// thing of that name, or the name made valid where there is no such thing.
pub open spec fn renamed(olds: Seq<Seq<char>>, news: Seq<Seq<char>>, name: Seq<char>) -> Seq<char> {
    match position(olds, is_name(name)) {
        Some(i) => news[i],
        None => sanitized(name),
    }
}

/// The references of a list, each renamed.
pub open spec fn all_renamed(olds: Seq<Seq<char>>, news: Seq<Seq<char>>) -> spec_fn(Seq<char>) -> Seq<
    char,
> {
    |name: Seq<char>| renamed(olds, news, name)
}

/// The name in the database of a thing that got a new name: the name it
/// had, where the new name differs from it.
pub open spec fn database_name_of(
    old_name: Seq<char>,
    new_name: Seq<char>,
    database_name: Option<Seq<char>>,
) -> Option<Seq<char>> {
    if old_name == new_name {
        database_name
    } else {
        Some(old_name)
    }
}

pub open spec fn model_name() -> spec_fn(ModelView) -> Seq<char> {
    |m: ModelView| m.name
}

pub open spec fn enum_name() -> spec_fn(EnumView) -> Seq<char> {
    |e: EnumView| e.name
}

pub open spec fn field_name() -> spec_fn(FieldView) -> Seq<char> {
    |f: FieldView| f.name()
}

pub open spec fn value_name() -> spec_fn(EnumValueView) -> Seq<char> {
    |v: EnumValueView| v.name
}

/// The new names of the first `k` fields of a model. A scalar field is
/// told from the fields before it; a relation field is only made valid.
pub open spec fn field_names(fields: Seq<FieldView>, k: int) -> Seq<Seq<char>>
    decreases k,
{
    if k <= 0 {
        Seq::empty()
    } else {
        let before = field_names(fields, k - 1);
        match fields[k - 1] {
            FieldView::ScalarField(sf) => before.push(new_name(sf.name, before)),
            FieldView::RelationField(rf) => before.push(sanitized(rf.name)),
        }
    }
}

/// The names of the fields of a model before and after.
pub open spec fn olds_of(m: ModelView) -> Seq<Seq<char>> {
    m.fields.map_values(field_name())
}

pub open spec fn news_of(m: ModelView) -> Seq<Seq<char>> {
    field_names(m.fields, m.fields.len() as int)
}

/// The new names of the models of a data model.
pub open spec fn model_news(dm: DatamodelView) -> Seq<Seq<char>> {
    new_names(dm.models.map_values(model_name()), Seq::empty(), dm.models.len() as int)
}

/// The new names of the enums of a data model: they are told from the
/// models too.
pub open spec fn enum_news(dm: DatamodelView) -> Seq<Seq<char>> {
    new_names(dm.enums.map_values(enum_name()), model_news(dm), dm.enums.len() as int)
}

/// The new names of the fields of the model that `to` refers to.
pub open spec fn target_olds(dm: DatamodelView, to: Seq<char>) -> Seq<Seq<char>> {
    match dm.find_model(to) {
        Some(target) => olds_of(target),
        None => Seq::empty(),
    }
}

pub open spec fn target_news(dm: DatamodelView, to: Seq<char>) -> Seq<Seq<char>> {
    match dm.find_model(to) {
        Some(target) => news_of(target),
        None => Seq::empty(),
    }
}

/// A field under its new name, with what it refers to renamed.
pub open spec fn sanitized_field(dm: DatamodelView, m: ModelView, j: int) -> FieldView {
    let new = news_of(m)[j];
    match m.fields[j] {
        FieldView::ScalarField(sf) => FieldView::ScalarField(
            ScalarFieldView {
                name: new,
                database_name: database_name_of(sf.name, new, sf.database_name),
                field_type: match sf.field_type {
                    FieldTypeView::Enum(e) => FieldTypeView::Enum(
                        renamed(dm.enums.map_values(enum_name()), enum_news(dm), e),
                    ),
                    other => other,
                },
                ..sf
            },
        ),
        FieldView::RelationField(rf) => FieldView::RelationField(
            RelationFieldView {
                name: new,
                relation_info: RelationInfoView {
                    to: renamed(dm.models.map_values(model_name()), model_news(dm), rf.relation_info.to),
                    fields: rf.relation_info.fields.map_values(
                        all_renamed(olds_of(m), news_of(m)),
                    ),
                    to_fields: rf.relation_info.to_fields.map_values(
                        all_renamed(
                            target_olds(dm, rf.relation_info.to),
                            target_news(dm, rf.relation_info.to),
                        ),
                    ),
                    ..rf.relation_info
                },
                ..rf
            },
        ),
    }
}

/// An index with its fields renamed.
pub open spec fn sanitized_index(m: ModelView) -> spec_fn(IndexDefinitionView) -> IndexDefinitionView {
    |i: IndexDefinitionView|
        IndexDefinitionView { fields: i.fields.map_values(all_renamed(olds_of(m), news_of(m))), ..i }
}

/// A model under its new name, with its fields, indexes and key renamed.
pub open spec fn sanitized_model(dm: DatamodelView, i: int) -> ModelView {
    let m = dm.models[i];
    let new = model_news(dm)[i];
    ModelView {
        name: new,
        database_name: database_name_of(m.name, new, m.database_name),
        fields: Seq::new(m.fields.len(), |j: int| sanitized_field(dm, m, j)),
        indices: m.indices.map_values(sanitized_index(m)),
        id_fields: m.id_fields.map_values(all_renamed(olds_of(m), news_of(m))),
        ..m
    }
}

/// A value of an enum under its new name.
pub open spec fn sanitized_value(e: EnumView, j: int) -> EnumValueView {
    let v = e.values[j];
    let new = new_names(e.values.map_values(value_name()), Seq::empty(), e.values.len() as int)[j];
    EnumValueView { name: new, database_name: database_name_of(v.name, new, v.database_name), ..v }
}

/// An enum under its new name, with its values renamed.
pub open spec fn sanitized_enum(dm: DatamodelView, i: int) -> EnumView {
    let e = dm.enums[i];
    let new = enum_news(dm)[i];
    EnumView {
        name: new,
        database_name: database_name_of(e.name, new, e.database_name),
        values: Seq::new(e.values.len(), |j: int| sanitized_value(e, j)),
        ..e
    }
}

/// The data model with every name made valid.
pub open spec fn sanitized_datamodel(dm: DatamodelView) -> DatamodelView {
    DatamodelView {
        models: Seq::new(dm.models.len(), |i: int| sanitized_model(dm, i)),
        enums: Seq::new(dm.enums.len(), |i: int| sanitized_enum(dm, i)),
    }
}

/// The lists of new names are as long as the lists of old names.
pub proof fn lemma_new_names_len(olds: Seq<Seq<char>>, taken: Seq<Seq<char>>, k: int)
    requires
        0 <= k,
    ensures
        new_names(olds, taken, k).len() == k,
    decreases k,
{
    if k > 0 {
        lemma_new_names_len(olds, taken, k - 1);
    }
}

pub proof fn lemma_field_names_len(fields: Seq<FieldView>, k: int)
    requires
        0 <= k,
    ensures
        field_names(fields, k).len() == k,
    decreases k,
{
    if k > 0 {
        lemma_field_names_len(fields, k - 1);
    }
}

/// The new names of things, told from each other and from the names taken.
#[verifier::loop_isolation(false)]
pub fn make_new_names(olds: &Vec<String>, taken: &Vec<String>) -> (r: Vec<String>)
    ensures
        r.deep_view() == new_names(olds.deep_view(), taken.deep_view(), olds.len() as int),
        r.len() == olds.len(),
{
    let ghost o = olds.deep_view();
    let ghost t = taken.deep_view();
    let mut out: Vec<String> = Vec::new();
    let mut all: Vec<String> = names_clone(taken);
    let mut i: usize = 0;
    assert(out.deep_view() =~= new_names(o, t, 0));
    assert(all.deep_view() =~= t + out.deep_view());
    while i < olds.len()
        invariant
            i <= olds.len(),
            out.len() == i,
            out.deep_view() == new_names(o, t, i as int),
            all.deep_view() == t + out.deep_view(),
        decreases olds.len() - i,
    {
        let ghost before = out.deep_view();
        let ghost all_before = all.deep_view();
        assert(o[i as int] == olds[i as int]@);
        let s: String = sanitize_string(olds[i].as_str());
        let name: String = if s.as_str().unicode_len() == 0 {
            s
        } else {
            make_free_name(s, &all)
        };
        all.push(name.clone());
        out.push(name);
        proof {
            let nv = new_name(o[i as int], t + before);
            assert(out.deep_view() =~= before.push(nv));
            assert(all.deep_view() =~= all_before.push(nv));
            assert(all.deep_view() =~= t + out.deep_view());
        }
        i = i + 1;
    }
    out
}

/// The names of the models of a data model.
#[verifier::loop_isolation(false)]
pub fn model_names(dm: &Datamodel) -> (r: Vec<String>)
    ensures
        r.deep_view() == dm.deep_view().models.map_values(model_name()),
        r.len() == dm.models.len(),
{
    let ghost s = dm.deep_view().models;
    let mut out: Vec<String> = Vec::new();
    let mut i: usize = 0;
    assert(s.take(0).map_values(model_name()) =~= Seq::empty());
    while i < dm.models.len()
        invariant
            i <= dm.models.len(),
            out.len() == i,
            out.deep_view() == s.take(i as int).map_values(model_name()),
        decreases dm.models.len() - i,
    {
        let ghost before = out.deep_view();
        proof {
            lemma_map_step(s, model_name(), i as int);
        }
        out.push(dm.models[i].name.clone());
        assert(out.deep_view() =~= before.push(dm.models[i as int].name@));
        i = i + 1;
    }
    assert(s.take(i as int) =~= s);
    out
}

/// The names of the enums of a data model.
#[verifier::loop_isolation(false)]
pub fn enum_names(dm: &Datamodel) -> (r: Vec<String>)
    ensures
        r.deep_view() == dm.deep_view().enums.map_values(enum_name()),
        r.len() == dm.enums.len(),
{
    let ghost s = dm.deep_view().enums;
    let mut out: Vec<String> = Vec::new();
    let mut i: usize = 0;
    assert(s.take(0).map_values(enum_name()) =~= Seq::empty());
    while i < dm.enums.len()
        invariant
            i <= dm.enums.len(),
            out.len() == i,
            out.deep_view() == s.take(i as int).map_values(enum_name()),
        decreases dm.enums.len() - i,
    {
        let ghost before = out.deep_view();
        proof {
            lemma_map_step(s, enum_name(), i as int);
        }
        out.push(dm.enums[i].name.clone());
        assert(out.deep_view() =~= before.push(dm.enums[i as int].name@));
        i = i + 1;
    }
    assert(s.take(i as int) =~= s);
    out
}

/// The names of the fields of a model.
#[verifier::loop_isolation(false)]
pub fn old_field_names(m: &Model) -> (r: Vec<String>)
    ensures
        r.deep_view() == olds_of(m.deep_view()),
        r.len() == m.fields.len(),
{
    let ghost s = m.deep_view().fields;
    let mut out: Vec<String> = Vec::new();
    let mut i: usize = 0;
    assert(s.take(0).map_values(field_name()) =~= Seq::empty());
    while i < m.fields.len()
        invariant
            i <= m.fields.len(),
            out.len() == i,
            out.deep_view() == s.take(i as int).map_values(field_name()),
        decreases m.fields.len() - i,
    {
        let ghost before = out.deep_view();
        proof {
            lemma_map_step(s, field_name(), i as int);
        }
        out.push(m.fields[i].name().to_owned());
        assert(out.deep_view() =~= before.push(m.fields[i as int].deep_view().name()));
        i = i + 1;
    }
    assert(s.take(i as int) =~= s);
    out
}

/// The new names of the fields of a model.
#[verifier::loop_isolation(false)]
pub fn new_field_names(m: &Model) -> (r: Vec<String>)
    ensures
        r.deep_view() == news_of(m.deep_view()),
        r.len() == m.fields.len(),
{
    let ghost fs = m.deep_view().fields;
    let mut out: Vec<String> = Vec::new();
    let mut i: usize = 0;
    assert(out.deep_view() =~= field_names(fs, 0));
    while i < m.fields.len()
        invariant
            i <= m.fields.len(),
            out.len() == i,
            out.deep_view() == field_names(fs, i as int),
        decreases m.fields.len() - i,
    {
        let ghost before = out.deep_view();
        assert(fs[i as int] == m.fields[i as int].deep_view());
        let name: String = match &m.fields[i] {
            Field::ScalarField(sf) => {
                let s: String = sanitize_string(sf.name.as_str());
                if s.as_str().unicode_len() == 0 {
                    s
                } else {
                    make_free_name(s, &out)
                }
            },
            Field::RelationField(rf) => sanitize_string(rf.name.as_str()),
        };
        let ghost nv = name@;
        out.push(name);
        assert(out.deep_view() =~= before.push(nv));
        i = i + 1;
    }
    out
}

/// The new name of the thing that `name` refers to.
#[verifier::loop_isolation(false)]
pub fn rename(olds: &Vec<String>, news: &Vec<String>, name: &str) -> (r: String)
    requires
        olds.len() == news.len(),
    ensures
        r@ == renamed(olds.deep_view(), news.deep_view(), name@),
{
    let ghost p = is_name(name@);
    let mut i: usize = 0;
    while i < olds.len()
        invariant
            i <= olds.len(),
            forall|j: int| 0 <= j < i ==> !p(#[trigger] olds.deep_view()[j]),
        decreases olds.len() - i,
    {
        if str_eq(olds[i].as_str(), name) {
            proof {
                assert(olds.deep_view()[i as int] == olds[i as int]@);
                lemma_position_is(olds.deep_view(), p, i as int);
                assert(news.deep_view()[i as int] == news[i as int]@);
            }
            return news[i].clone();
        }
        assert(olds.deep_view()[i as int] == olds[i as int]@);
        i = i + 1;
    }
    proof {
        lemma_position_none(olds.deep_view(), p);
    }
    sanitize_string(name)
}

/// The references of a list, each renamed.
#[verifier::loop_isolation(false)]
pub fn rename_all(olds: &Vec<String>, news: &Vec<String>, names: &Vec<String>) -> (r: Vec<String>)
    requires
        olds.len() == news.len(),
    ensures
        r.deep_view() == names.deep_view().map_values(
            all_renamed(olds.deep_view(), news.deep_view()),
        ),
{
    let ghost f = all_renamed(olds.deep_view(), news.deep_view());
    let ghost s = names.deep_view();
    let mut out: Vec<String> = Vec::new();
    let mut i: usize = 0;
    assert(s.take(0).map_values(f) =~= Seq::empty());
    while i < names.len()
        invariant
            i <= names.len(),
            out.deep_view() == s.take(i as int).map_values(f),
        decreases names.len() - i,
    {
        let ghost before = out.deep_view();
        proof {
            lemma_map_step(s, f, i as int);
            assert(s[i as int] == names[i as int]@);
        }
        let name: String = rename(olds, news, names[i].as_str());
        let ghost nv = name@;
        out.push(name);
        assert(out.deep_view() =~= before.push(nv));
        i = i + 1;
    }
    assert(s.take(i as int) =~= s);
    out
}

/// The name in the database of a thing that got a new name.
pub fn database_name_for(
    old_name: &str,
    new_name: &str,
    database_name: &Option<String>,
) -> (r: Option<String>)
    ensures
        r.deep_view() == database_name_of(old_name@, new_name@, database_name.deep_view()),
{
    if str_eq(old_name, new_name) {
        name_option_clone(database_name)
    } else {
        Some(old_name.to_owned())
    }
}

/// A field under its new name, with what it refers to renamed.
#[verifier::loop_isolation(false)]
fn sanitize_field(
    dm: &Datamodel,
    m: &Model,
    j: usize,
    olds: &Vec<String>,
    news: &Vec<String>,
    model_olds: &Vec<String>,
    model_new: &Vec<String>,
    enum_olds: &Vec<String>,
    enum_new: &Vec<String>,
    target_old: &Vec<String>,
    target_new: &Vec<String>,
) -> (r: Field)
    requires
        j < m.fields.len(),
        olds.deep_view() == olds_of(m.deep_view()),
        news.deep_view() == news_of(m.deep_view()),
        olds.len() == m.fields.len(),
        news.len() == m.fields.len(),
        model_olds.deep_view() == dm.deep_view().models.map_values(model_name()),
        model_new.deep_view() == model_news(dm.deep_view()),
        model_olds.len() == model_new.len(),
        enum_olds.deep_view() == dm.deep_view().enums.map_values(enum_name()),
        enum_new.deep_view() == enum_news(dm.deep_view()),
        enum_olds.len() == enum_new.len(),
        target_old.len() == target_new.len(),
        m.fields[j as int].deep_view() matches FieldView::RelationField(rf) ==> target_old.deep_view()
            == target_olds(dm.deep_view(), rf.relation_info.to) && target_new.deep_view()
            == target_news(dm.deep_view(), rf.relation_info.to),
    ensures
        r.deep_view() == sanitized_field(dm.deep_view(), m.deep_view(), j as int),
{
    assert(m.deep_view().fields[j as int] == m.fields[j as int].deep_view());
    assert(news.deep_view()[j as int] == news[j as int]@);
    match &m.fields[j] {
        Field::ScalarField(sf) => {
            let field_type: FieldType = match &sf.field_type {
                FieldType::Enum(e) => FieldType::Enum(rename(enum_olds, enum_new, e.as_str())),
                other => other.clone(),
            };
            Field::ScalarField(
                ScalarField {
                    name: news[j].clone(),
                    database_name: database_name_for(
                        sf.name.as_str(),
                        news[j].as_str(),
                        &sf.database_name,
                    ),
                    field_type,
                    arity: sf.arity,
                    default_value: crate::seqs::option_clone(&sf.default_value),
                    is_unique: sf.is_unique,
                    is_id: sf.is_id,
                    documentation: name_option_clone(&sf.documentation),
                    is_generated: sf.is_generated,
                    is_updated_at: sf.is_updated_at,
                    is_commented_out: sf.is_commented_out,
                },
            )
        },
        Field::RelationField(rf) => {
            let info: &RelationInfo = &rf.relation_info;
            Field::RelationField(
                RelationField {
                    name: news[j].clone(),
                    relation_info: RelationInfo {
                        to: rename(model_olds, model_new, info.to.as_str()),
                        fields: rename_all(olds, news, &info.fields),
                        to_fields: rename_all(target_old, target_new, &info.to_fields),
                        name: info.name.clone(),
                        on_delete: info.on_delete,
                    },
                    arity: rf.arity,
                    documentation: name_option_clone(&rf.documentation),
                    is_generated: rf.is_generated,
                    is_commented_out: rf.is_commented_out,
                },
            )
        },
    }
}

/// The values of an enum under their new names.
#[verifier::loop_isolation(false)]
fn sanitize_values(e: &Enum) -> (r: Vec<EnumValue>)
    ensures
        r.deep_view() == Seq::new(
            e.deep_view().values.len(),
            |j: int| sanitized_value(e.deep_view(), j),
        ),
{
    let ghost ev = e.deep_view();
    let mut olds: Vec<String> = Vec::new();
    let mut i: usize = 0;
    assert(ev.values.take(0).map_values(value_name()) =~= Seq::empty());
    while i < e.values.len()
        invariant
            i <= e.values.len(),
            olds.len() == i,
            olds.deep_view() == ev.values.take(i as int).map_values(value_name()),
        decreases e.values.len() - i,
    {
        let ghost before = olds.deep_view();
        proof {
            lemma_map_step(ev.values, value_name(), i as int);
        }
        olds.push(e.values[i].name.clone());
        assert(olds.deep_view() =~= before.push(e.values[i as int].name@));
        i = i + 1;
    }
    assert(ev.values.take(i as int) =~= ev.values);
    let none: Vec<String> = Vec::new();
    assert(none.deep_view() =~= Seq::empty());
    let news: Vec<String> = make_new_names(&olds, &none);
    let mut out: Vec<EnumValue> = Vec::new();
    let mut j: usize = 0;
    while j < e.values.len()
        invariant
            j <= e.values.len(),
            out.len() == j,
            forall|x: int| 0 <= x < j ==> #[trigger] out.deep_view()[x] == sanitized_value(ev, x),
        decreases e.values.len() - j,
    {
        let v: &EnumValue = &e.values[j];
        assert(ev.values[j as int] == v.deep_view());
        assert(news.deep_view()[j as int] == news[j as int]@);
        let value = EnumValue {
            name: news[j].clone(),
            database_name: database_name_for(v.name.as_str(), news[j].as_str(), &v.database_name),
            documentation: name_option_clone(&v.documentation),
            commented_out: v.commented_out,
        };
        let ghost before = out.deep_view();
        let ghost vv = value.deep_view();
        out.push(value);
        assert(out.deep_view() =~= before.push(vv));
        j = j + 1;
    }
    assert(out.deep_view() =~= Seq::new(ev.values.len(), |j: int| sanitized_value(ev, j)));
    out
}

/// Gives every model, field, enum and enum value a name that the schema
/// language accepts.
#[verifier::loop_isolation(false)]
pub fn sanitize_datamodel_names(data_model: &mut Datamodel)
    ensures
        final(data_model).deep_view() == sanitized_datamodel(old(data_model).deep_view()),
{
    let ghost dmv = data_model.deep_view();
    let none: Vec<String> = Vec::new();
    assert(none.deep_view() =~= Seq::empty());
    let model_olds: Vec<String> = model_names(data_model);
    let model_new: Vec<String> = make_new_names(&model_olds, &none);
    let enum_olds: Vec<String> = enum_names(data_model);
    let enum_new: Vec<String> = make_new_names(&enum_olds, &model_new);
    let mut field_olds: Vec<Vec<String>> = Vec::new();
    let mut field_news: Vec<Vec<String>> = Vec::new();
    let mut i: usize = 0;
    while i < data_model.models.len()
        invariant
            i <= data_model.models.len(),
            data_model.deep_view() == dmv,
            field_olds.len() == i,
            field_news.len() == i,
            forall|x: int|
                0 <= x < i ==> #[trigger] field_olds[x].deep_view() == olds_of(dmv.models[x])
                    && field_olds[x].len() == dmv.models[x].fields.len(),
            forall|x: int|
                0 <= x < i ==> #[trigger] field_news[x].deep_view() == news_of(dmv.models[x])
                    && field_news[x].len() == dmv.models[x].fields.len(),
        decreases data_model.models.len() - i,
    {
        assert(dmv.models[i as int] == data_model.models[i as int].deep_view());
        field_olds.push(old_field_names(&data_model.models[i]));
        field_news.push(new_field_names(&data_model.models[i]));
        i = i + 1;
    }
    let mut models: Vec<Model> = Vec::new();
    let mut i: usize = 0;
    while i < data_model.models.len()
        invariant
            i <= data_model.models.len(),
            data_model.deep_view() == dmv,
            models.len() == i,
            forall|x: int| 0 <= x < i ==> #[trigger] models.deep_view()[x] == sanitized_model(dmv, x),
        decreases data_model.models.len() - i,
    {
        let m: &Model = &data_model.models[i];
        let ghost mv = dmv.models[i as int];
        assert(mv == m.deep_view());
        assert(field_olds[i as int].deep_view() == olds_of(dmv.models[i as int]));
        assert(field_news[i as int].deep_view() == news_of(dmv.models[i as int]));
        let olds: &Vec<String> = &field_olds[i];
        let news: &Vec<String> = &field_news[i];
        let mut fields: Vec<Field> = Vec::new();
        let mut j: usize = 0;
        while j < m.fields.len()
            invariant
                j <= m.fields.len(),
                fields.len() == j,
                forall|x: int|
                    0 <= x < j ==> #[trigger] fields.deep_view()[x] == sanitized_field(dmv, mv, x),
            decreases m.fields.len() - j,
        {
            assert(mv.fields[j as int] == m.fields[j as int].deep_view());
            let target: Option<usize> = match &m.fields[j] {
                Field::RelationField(rf) => data_model.model_position(rf.relation_info.to.as_str()),
                Field::ScalarField(_) => None,
            };
            let field: Field = match target {
                Some(t) => {
                    assert(field_olds[t as int].deep_view() == olds_of(dmv.models[t as int]));
                    assert(field_news[t as int].deep_view() == news_of(dmv.models[t as int]));
                    sanitize_field(
                        data_model,
                        m,
                        j,
                        olds,
                        news,
                        &model_olds,
                        &model_new,
                        &enum_olds,
                        &enum_new,
                        &field_olds[t],
                        &field_news[t],
                    )
                },
                None => sanitize_field(
                    data_model,
                    m,
                    j,
                    olds,
                    news,
                    &model_olds,
                    &model_new,
                    &enum_olds,
                    &enum_new,
                    &none,
                    &none,
                ),
            };
            let ghost before = fields.deep_view();
            let ghost fv = field.deep_view();
            fields.push(field);
            assert(fields.deep_view() =~= before.push(fv));
            j = j + 1;
        }
        assert(fields.deep_view() =~= Seq::new(mv.fields.len(), |j: int| sanitized_field(dmv, mv, j)));
        let ghost f = sanitized_index(mv);
        let mut indices: Vec<IndexDefinition> = Vec::new();
        let mut k: usize = 0;
        assert(mv.indices.take(0).map_values(f) =~= Seq::empty());
        while k < m.indices.len()
            invariant
                k <= m.indices.len(),
                indices.deep_view() == mv.indices.take(k as int).map_values(f),
            decreases m.indices.len() - k,
        {
            let ghost before = indices.deep_view();
            proof {
                lemma_map_step(mv.indices, f, k as int);
            }
            let index: &IndexDefinition = &m.indices[k];
            let renamed_index = IndexDefinition {
                name: name_option_clone(&index.name),
                fields: rename_all(olds, news, &index.fields),
                tpe: index.tpe,
            };
            let ghost iv = renamed_index.deep_view();
            indices.push(renamed_index);
            assert(indices.deep_view() =~= before.push(iv));
            k = k + 1;
        }
        assert(mv.indices.take(k as int) =~= mv.indices);
        assert(model_new.deep_view()[i as int] == model_new[i as int]@);
        let model = Model {
            name: model_new[i].clone(),
            database_name: database_name_for(
                m.name.as_str(),
                model_new[i].as_str(),
                &m.database_name,
            ),
            fields,
            indices,
            id_fields: rename_all(olds, news, &m.id_fields),
            documentation: name_option_clone(&m.documentation),
            is_embedded: m.is_embedded,
            is_generated: m.is_generated,
            is_commented_out: m.is_commented_out,
        };
        let ghost before = models.deep_view();
        let ghost modv = model.deep_view();
        models.push(model);
        assert(models.deep_view() =~= before.push(modv));
        i = i + 1;
    }
    let mut enums: Vec<Enum> = Vec::new();
    let mut i: usize = 0;
    while i < data_model.enums.len()
        invariant
            i <= data_model.enums.len(),
            data_model.deep_view() == dmv,
            enums.len() == i,
            forall|x: int| 0 <= x < i ==> #[trigger] enums.deep_view()[x] == sanitized_enum(dmv, x),
        decreases data_model.enums.len() - i,
    {
        let e: &Enum = &data_model.enums[i];
        assert(dmv.enums[i as int] == e.deep_view());
        assert(enum_new.deep_view()[i as int] == enum_new[i as int]@);
        let en = Enum {
            name: enum_new[i].clone(),
            database_name: database_name_for(e.name.as_str(), enum_new[i].as_str(), &e.database_name),
            values: sanitize_values(e),
            documentation: name_option_clone(&e.documentation),
            commented_out: e.commented_out,
        };
        let ghost before = enums.deep_view();
        let ghost env = en.deep_view();
        enums.push(en);
        assert(enums.deep_view() =~= before.push(env));
        i = i + 1;
    }
    assert(models.deep_view() =~= Seq::new(dmv.models.len(), |i: int| sanitized_model(dmv, i)));
    assert(enums.deep_view() =~= Seq::new(dmv.enums.len(), |i: int| sanitized_enum(dmv, i)));
    *data_model = Datamodel { enums, models };
}

} // verus!
