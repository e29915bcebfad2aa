//! Enriching a new data model with an earlier one.

use crate::dml::{
    Datamodel, DatamodelView, Field, FieldView, IndexDefinition, Model, ModelView, RelationField,
    RelationInfo, ScalarField,
};
use crate::introspection::enrich::{
    affected_earlier_field, affected_earlier_model, affected_kept_field, affected_kept_model,
    all_followed, column_gone, column_of, earlier_model, earlier_relation_name, enriched,
    enriched_field, enriched_index, enriched_model, enrichment_warnings, field_news, field_olds,
    field_renamed, followed, for_column, for_table, gone_fields_in, holds, kept_field_name,
    kept_model_name, kept_relation_name, model_news, model_olds, model_renamed, renamed_fields_in,
    same_relation, stands_for_column, stands_for_table, table_gone, table_of,
};
use crate::introspection::guardrails::push_warning;
use crate::introspection::sanitize::{is_name, model_name, model_names, old_field_names};
use crate::introspection::warnings::WarningKind;
use crate::introspection::{Affected, AffectedView, Warning, WarningView};
use crate::seqs::{
    any, find, lemma_filter_map_step, lemma_flat_map_step, lemma_map_step, lemma_of_nothing,
    lemma_position_is, lemma_position_none, lemma_take_ends, list_clone, option_clone,
};
use crate::text::{name_option_clone, names_eq, str_eq};
use vstd::prelude::*;
use vstd::string::*;

verus! {

/// The name of the table that a model stands for.
pub fn table_name(m: &Model) -> (r: &str)
    ensures
        r@ == table_of(m.deep_view()),
{
    match &m.database_name {
        Some(n) => n.as_str(),
        None => m.name.as_str(),
    }
}

/// The name of the column that a scalar field stands for.
pub fn column_name(sf: &ScalarField) -> (r: &str)
    ensures
        r@ == column_of(sf.deep_view()),
{
    match &sf.database_name {
        Some(n) => n.as_str(),
        None => sf.name.as_str(),
    }
}

/// The model of the earlier data model that stands for a table.
#[verifier::loop_isolation(false)]
pub fn find_earlier_model<'a>(prev: &'a Datamodel, table: &str) -> (r: Option<&'a Model>)
    ensures
        r.deep_view() == find(prev.deep_view().models, stands_for_table(table@)),
{
    let ghost p = stands_for_table(table@);
    let ghost ms = prev.deep_view().models;
    let mut i: usize = 0;
    while i < prev.models.len()
        invariant
            i <= prev.models.len(),
            forall|j: int| 0 <= j < i ==> !p(#[trigger] ms[j]),
        decreases prev.models.len() - i,
    {
        let m: &Model = &prev.models[i];
        assert(ms[i as int] == m.deep_view());
        if !m.is_commented_out && str_eq(table_name(m), table) {
            proof {
                lemma_position_is(ms, p, i as int);
            }
            return Some(m);
        }
        i = i + 1;
    }
    proof {
        lemma_position_none(ms, p);
    }
    None
}

/// The scalar field of a model that stands for a column.
#[verifier::loop_isolation(false)]
pub fn find_earlier_field<'a>(p: &'a Model, column: &str) -> (r: Option<&'a ScalarField>)
    ensures
        match find(p.deep_view().fields, stands_for_column(column@)) {
            Some(FieldView::ScalarField(x)) => r.deep_view() == Some(x),
            _ => r.is_none(),
        },
{
    let ghost q = stands_for_column(column@);
    let ghost fs = p.deep_view().fields;
    let mut i: usize = 0;
    while i < p.fields.len()
        invariant
            i <= p.fields.len(),
            forall|j: int| 0 <= j < i ==> !q(#[trigger] fs[j]),
        decreases p.fields.len() - i,
    {
        assert(fs[i as int] == p.fields[i as int].deep_view());
        match &p.fields[i] {
            Field::ScalarField(sf) => {
                if !sf.is_commented_out && str_eq(column_name(sf), column) {
                    proof {
                        lemma_position_is(fs, q, i as int);
                    }
                    return Some(sf);
                }
            },
            Field::RelationField(_) => {},
        }
        i = i + 1;
    }
    proof {
        lemma_position_none(fs, q);
    }
    None
}

/// The names that the models keep.
#[verifier::loop_isolation(false)]
pub fn kept_model_names(prev: &Datamodel, new: &Datamodel) -> (r: Vec<String>)
    ensures
        r.deep_view() == model_news(prev.deep_view(), new.deep_view()),
        r.len() == new.models.len(),
{
    let ghost ms = new.deep_view().models;
    let ghost f = kept_model_name(prev.deep_view());
    let mut out: Vec<String> = Vec::new();
    let mut i: usize = 0;
    proof {
        lemma_take_ends(ms);
        lemma_of_nothing(|m: ModelView| true, f, |m: ModelView| Seq::<int>::empty());
    }
    while i < new.models.len()
        invariant
            i <= new.models.len(),
            out.len() == i,
            out.deep_view() == ms.take(i as int).map_values(f),
        decreases new.models.len() - i,
    {
        let ghost before = out.deep_view();
        proof {
            lemma_map_step(ms, f, i as int);
        }
        let n: &Model = &new.models[i];
        assert(ms[i as int] == n.deep_view());
        let name: String = match find_earlier_model(prev, table_name(n)) {
            Some(p) => p.name.clone(),
            None => n.name.clone(),
        };
        let ghost nv = name@;
        out.push(name);
        assert(out.deep_view() =~= before.push(nv));
        i = i + 1;
    }
    out
}

/// The name that a field keeps.
pub fn keep_field_name(prev: &Datamodel, n: &Model, f: &Field) -> (r: String)
    ensures
        r@ == kept_field_name(prev.deep_view(), n.deep_view())(f.deep_view()),
{
    match f {
        Field::ScalarField(sf) => {
            match find_earlier_model(prev, table_name(n)) {
                Some(p) => match find_earlier_field(p, column_name(sf)) {
                    Some(x) => x.name.clone(),
                    None => sf.name.clone(),
                },
                None => sf.name.clone(),
            }
        },
        Field::RelationField(rf) => rf.name.clone(),
    }
}

/// The names that the fields of a model keep.
#[verifier::loop_isolation(false)]
pub fn kept_field_names(prev: &Datamodel, n: &Model) -> (r: Vec<String>)
    ensures
        r.deep_view() == field_news(prev.deep_view(), n.deep_view()),
        r.len() == n.fields.len(),
{
    let ghost fs = n.deep_view().fields;
    let ghost f = kept_field_name(prev.deep_view(), n.deep_view());
    let mut out: Vec<String> = Vec::new();
    let mut i: usize = 0;
    proof {
        lemma_take_ends(fs);
        lemma_of_nothing(|x: FieldView| true, f, |x: FieldView| Seq::<int>::empty());
    }
    while i < n.fields.len()
        invariant
            i <= n.fields.len(),
            out.len() == i,
            out.deep_view() == fs.take(i as int).map_values(f),
        decreases n.fields.len() - i,
    {
        let ghost before = out.deep_view();
        proof {
            lemma_map_step(fs, f, i as int);
        }
        assert(fs[i as int] == n.fields[i as int].deep_view());
        let name: String = keep_field_name(prev, n, &n.fields[i]);
        let ghost nv = name@;
        out.push(name);
        assert(out.deep_view() =~= before.push(nv));
        i = i + 1;
    }
    out
}

/// The name that `name` refers to now.
#[verifier::loop_isolation(false)]
pub fn follow(olds: &Vec<String>, news: &Vec<String>, name: &str) -> (r: String)
    requires
        olds.len() == news.len(),
    ensures
        r@ == followed(olds.deep_view(), news.deep_view(), name@),
{
    let ghost p = is_name(name@);
    let mut i: usize = 0;
    while i < olds.len()
        invariant
            i <= olds.len(),
            forall|j: int| 0 <= j < i ==> !p(#[trigger] olds.deep_view()[j]),
        decreases olds.len() - i,
    {
        assert(olds.deep_view()[i as int] == olds[i as int]@);
        if str_eq(olds[i].as_str(), name) {
            proof {
                lemma_position_is(olds.deep_view(), p, i as int);
                assert(news.deep_view()[i as int] == news[i as int]@);
            }
            return news[i].clone();
        }
        i = i + 1;
    }
    proof {
        lemma_position_none(olds.deep_view(), p);
    }
    name.to_owned()
}

/// The names that the names of a list refer to now.
#[verifier::loop_isolation(false)]
pub fn follow_all(olds: &Vec<String>, news: &Vec<String>, names: &Vec<String>) -> (r: Vec<String>)
    requires
        olds.len() == news.len(),
    ensures
        r.deep_view() == names.deep_view().map_values(
            all_followed(olds.deep_view(), news.deep_view()),
        ),
{
    let ghost f = all_followed(olds.deep_view(), news.deep_view());
    let ghost s = names.deep_view();
    let mut out: Vec<String> = Vec::new();
    let mut i: usize = 0;
    proof {
        lemma_take_ends(s);
        lemma_of_nothing(|x: Seq<char>| true, f, |x: Seq<char>| Seq::<int>::empty());
    }
    while i < names.len()
        invariant
            i <= names.len(),
            out.deep_view() == s.take(i as int).map_values(f),
        decreases names.len() - i,
    {
        let ghost before = out.deep_view();
        proof {
            lemma_map_step(s, f, i as int);
            assert(s[i as int] == names[i as int]@);
        }
        let name: String = follow(olds, news, names[i].as_str());
        let ghost nv = name@;
        out.push(name);
        assert(out.deep_view() =~= before.push(nv));
        i = i + 1;
    }
    out
}

/// The names of the models and of their fields, before and after.
pub struct Tables {
    pub model_olds: Vec<String>,
    pub model_news: Vec<String>,
    pub field_olds: Vec<Vec<String>>,
    pub field_news: Vec<Vec<String>>,
}

impl Tables {
    /// The tables hold the names of the new data model and the names that
    /// its models and fields keep.
    pub open spec fn holds_names(&self, prev: DatamodelView, new: DatamodelView) -> bool {
        &&& self.model_olds.deep_view() == model_olds(new)
        &&& self.model_news.deep_view() == model_news(prev, new)
        &&& self.model_olds.len() == new.models.len()
        &&& self.model_news.len() == new.models.len()
        &&& self.field_olds.len() == new.models.len()
        &&& self.field_news.len() == new.models.len()
        &&& forall|x: int|
            0 <= x < new.models.len() ==> #[trigger] self.field_olds[x].deep_view() == field_olds(
                new.models[x],
            ) && self.field_olds[x].len() == new.models[x].fields.len()
        &&& forall|x: int|
            0 <= x < new.models.len() ==> #[trigger] self.field_news[x].deep_view() == field_news(
                prev,
                new.models[x],
            ) && self.field_news[x].len() == new.models[x].fields.len()
    }

    /// Gathers the names.
    #[verifier::loop_isolation(false)]
    pub fn gather(prev: &Datamodel, new: &Datamodel) -> (r: Tables)
        ensures
            r.holds_names(prev.deep_view(), new.deep_view()),
    {
        let ghost nv = new.deep_view();
        let mut field_olds_v: Vec<Vec<String>> = Vec::new();
        let mut field_news_v: Vec<Vec<String>> = Vec::new();
        let mut i: usize = 0;
        while i < new.models.len()
            invariant
                i <= new.models.len(),
                field_olds_v.len() == i,
                field_news_v.len() == i,
                forall|x: int|
                    0 <= x < i ==> #[trigger] field_olds_v[x].deep_view() == field_olds(
                        nv.models[x],
                    ) && field_olds_v[x].len() == nv.models[x].fields.len(),
                forall|x: int|
                    0 <= x < i ==> #[trigger] field_news_v[x].deep_view() == field_news(
                        prev.deep_view(),
                        nv.models[x],
                    ) && field_news_v[x].len() == nv.models[x].fields.len(),
            decreases new.models.len() - i,
        {
            assert(nv.models[i as int] == new.models[i as int].deep_view());
            field_olds_v.push(old_field_names(&new.models[i]));
            field_news_v.push(kept_field_names(prev, &new.models[i]));
            i = i + 1;
        }
        Tables {
            model_olds: model_names(new),
            model_news: kept_model_names(prev, new),
            field_olds: field_olds_v,
            field_news: field_news_v,
        }
    }
}

/// The name that the earlier model of `n` gives to the relation which one
/// of its fields holds in the given fields and which points to the given
/// model.
#[verifier::loop_isolation(false)]
pub fn find_earlier_relation(
    prev: &Datamodel,
    n: &Model,
    to: &str,
    fields: &Vec<String>,
) -> (r: Option<String>)
    ensures
        r.deep_view() == match earlier_model(prev.deep_view(), n.deep_view()) {
            Some(p) => match find(p.fields, same_relation(to@, fields.deep_view())) {
                Some(FieldView::RelationField(x)) => Some(x.relation_info.name),
                _ => None,
            },
            None => None,
        },
{
    match find_earlier_model(prev, table_name(n)) {
        None => None,
        Some(p) => {
            let ghost q = same_relation(to@, fields.deep_view());
            let ghost fs = p.deep_view().fields;
            let mut i: usize = 0;
            while i < p.fields.len()
                invariant
                    i <= p.fields.len(),
                    forall|j: int| 0 <= j < i ==> !q(#[trigger] fs[j]),
                decreases p.fields.len() - i,
            {
                assert(fs[i as int] == p.fields[i as int].deep_view());
                match &p.fields[i] {
                    Field::RelationField(x) => {
                        if !x.is_commented_out && str_eq(x.relation_info.to.as_str(), to)
                            && names_eq(&x.relation_info.fields, fields) {
                            proof {
                                lemma_position_is(fs, q, i as int);
                            }
                            return Some(x.relation_info.name.clone());
                        }
                    },
                    Field::ScalarField(_) => {},
                }
                i = i + 1;
            }
            proof {
                lemma_position_none(fs, q);
            }
            None
        },
    }
}

/// The name that the earlier data model gave to the relation which the
/// field `rf` of the model at `i` holds in its own fields.
pub fn earlier_relation(
    prev: &Datamodel,
    new: &Datamodel,
    tables: &Tables,
    i: usize,
    rf: &RelationField,
) -> (r: Option<String>)
    requires
        tables.holds_names(prev.deep_view(), new.deep_view()),
        i < new.models.len(),
    ensures
        r.deep_view() == earlier_relation_name(
            prev.deep_view(),
            new.deep_view(),
            new.deep_view().models[i as int],
            rf.deep_view(),
        ),
{
    let n: &Model = &new.models[i];
    assert(new.deep_view().models[i as int] == n.deep_view());
    assert(tables.field_olds[i as int].deep_view() == field_olds(new.deep_view().models[i as int]));
    assert(tables.field_news[i as int].deep_view() == field_news(
        prev.deep_view(),
        new.deep_view().models[i as int],
    ));
    let to: String = follow(&tables.model_olds, &tables.model_news, rf.relation_info.to.as_str());
    let fields: Vec<String> = follow_all(
        &tables.field_olds[i],
        &tables.field_news[i],
        &rf.relation_info.fields,
    );
    find_earlier_relation(prev, n, to.as_str(), &fields)
}

/// The name that the relation of a field keeps.
#[verifier::loop_isolation(false)]
pub fn keep_relation_name(
    prev: &Datamodel,
    new: &Datamodel,
    tables: &Tables,
    i: usize,
    rf: &RelationField,
) -> (r: String)
    requires
        tables.holds_names(prev.deep_view(), new.deep_view()),
        i < new.models.len(),
    ensures
        r@ == kept_relation_name(
            prev.deep_view(),
            new.deep_view(),
            new.deep_view().models[i as int],
            rf.deep_view(),
        ),
{
    let n: &Model = &new.models[i];
    assert(new.deep_view().models[i as int] == n.deep_view());
    if rf.relation_info.fields.len() > 0 {
        return match earlier_relation(prev, new, tables, i, rf) {
            Some(name) => name,
            None => rf.relation_info.name.clone(),
        };
    }
    match new.model_position(rf.relation_info.to.as_str()) {
        None => rf.relation_info.name.clone(),
        Some(t) => {
            let target: &Model = &new.models[t];
            assert(new.deep_view().models[t as int] == target.deep_view());
            let ghost q = holds(rf.relation_info.name@, n.name@);
            let ghost fs = target.deep_view().fields;
            let mut k: usize = 0;
            while k < target.fields.len()
                invariant
                    k <= target.fields.len(),
                    forall|j: int| 0 <= j < k ==> !q(#[trigger] fs[j]),
                decreases target.fields.len() - k,
            {
                assert(fs[k as int] == target.fields[k as int].deep_view());
                match &target.fields[k] {
                    Field::RelationField(g) => {
                        if g.relation_info.name == rf.relation_info.name && g.relation_info.to
                            == n.name && g.relation_info.fields.len() > 0 {
                            proof {
                                lemma_position_is(fs, q, k as int);
                            }
                            return match earlier_relation(prev, new, tables, t, g) {
                                Some(name) => name,
                                None => rf.relation_info.name.clone(),
                            };
                        }
                    },
                    Field::ScalarField(_) => {},
                }
                k = k + 1;
            }
            proof {
                lemma_position_none(fs, q);
            }
            rf.relation_info.name.clone()
        },
    }
}

/// The name in the database of a thing, given the name it bears.
pub fn map_name(name: &str, in_database: &str) -> (r: Option<String>)
    ensures
        r.deep_view() == crate::introspection::enrich::mapped_name(name@, in_database@),
{
    if str_eq(name, in_database) {
        None
    } else {
        Some(in_database.to_owned())
    }
}

/// The documentation that a thing keeps.
pub fn keep_documentation(own: &Option<String>, earlier: Option<&Option<String>>) -> (r: Option<String>)
    ensures
        r.deep_view() == crate::introspection::enrich::kept_documentation(
            own.deep_view(),
            match earlier {
                Some(d) => d.deep_view(),
                None => None,
            },
        ),
{
    match own {
        Some(d) => Some(d.clone()),
        None => match earlier {
            Some(d) => name_option_clone(d),
            None => None,
        },
    }
}

/// A field of the model at `i` with what the earlier data model says of it.
pub fn enrich_field(prev: &Datamodel, new: &Datamodel, tables: &Tables, i: usize, j: usize) -> (r: Field)
    requires
        tables.holds_names(prev.deep_view(), new.deep_view()),
        i < new.models.len(),
        j < new.models[i as int].fields.len(),
    ensures
        r.deep_view() == enriched_field(
            prev.deep_view(),
            new.deep_view(),
            new.deep_view().models[i as int],
        )(new.deep_view().models[i as int].fields[j as int]),
{
    let n: &Model = &new.models[i];
    let ghost nv = new.deep_view().models[i as int];
    assert(nv == n.deep_view());
    assert(nv.fields[j as int] == n.fields[j as int].deep_view());
    assert(tables.field_olds[i as int].deep_view() == field_olds(nv));
    assert(tables.field_news[i as int].deep_view() == field_news(prev.deep_view(), nv));
    match &n.fields[j] {
        Field::ScalarField(sf) => {
            let name: String = keep_field_name(prev, n, &n.fields[j]);
            let earlier: Option<&ScalarField> = match find_earlier_model(prev, table_name(n)) {
                Some(p) => find_earlier_field(p, column_name(sf)),
                None => None,
            };
            let documentation: Option<String> = match earlier {
                Some(x) => keep_documentation(&sf.documentation, Some(&x.documentation)),
                None => keep_documentation(&sf.documentation, None),
            };
            Field::ScalarField(
                ScalarField {
                    database_name: map_name(name.as_str(), column_name(sf)),
                    name,
                    field_type: sf.field_type.clone(),
                    arity: sf.arity,
                    default_value: option_clone(&sf.default_value),
                    is_unique: sf.is_unique,
                    is_id: sf.is_id,
                    documentation,
                    is_generated: sf.is_generated,
                    is_updated_at: sf.is_updated_at,
                    is_commented_out: sf.is_commented_out,
                },
            )
        },
        Field::RelationField(rf) => {
            let info: &RelationInfo = &rf.relation_info;
            let none: Vec<String> = Vec::new();
            assert(none.deep_view() =~= Seq::<Seq<char>>::empty());
            let to_fields: Vec<String> = match new.model_position(info.to.as_str()) {
                Some(t) => {
                    assert(tables.field_olds[t as int].deep_view() == field_olds(
                        new.deep_view().models[t as int],
                    ));
                    assert(tables.field_news[t as int].deep_view() == field_news(
                        prev.deep_view(),
                        new.deep_view().models[t as int],
                    ));
                    follow_all(&tables.field_olds[t], &tables.field_news[t], &info.to_fields)
                },
                None => follow_all(&none, &none, &info.to_fields),
            };
            Field::RelationField(
                RelationField {
                    name: rf.name.clone(),
                    relation_info: RelationInfo {
                        to: follow(&tables.model_olds, &tables.model_news, info.to.as_str()),
                        fields: follow_all(&tables.field_olds[i], &tables.field_news[i], &info.fields),
                        to_fields,
                        name: keep_relation_name(prev, new, tables, i, rf),
                        on_delete: info.on_delete,
                    },
                    arity: rf.arity,
                    documentation: name_option_clone(&rf.documentation),
                    is_generated: rf.is_generated,
                    is_commented_out: rf.is_commented_out,
                },
            )
        },
    }
}

/// The model at `i` with what the earlier data model says of it.
#[verifier::loop_isolation(false)]
pub fn enrich_model(prev: &Datamodel, new: &Datamodel, tables: &Tables, i: usize) -> (r: Model)
    requires
        tables.holds_names(prev.deep_view(), new.deep_view()),
        i < new.models.len(),
    ensures
        r.deep_view() == enriched_model(prev.deep_view(), new.deep_view())(
            new.deep_view().models[i as int],
        ),
{
    let n: &Model = &new.models[i];
    let ghost pv = prev.deep_view();
    let ghost dv = new.deep_view();
    let ghost nv = dv.models[i as int];
    assert(nv == n.deep_view());
    assert(tables.field_olds[i as int].deep_view() == field_olds(nv));
    assert(tables.field_news[i as int].deep_view() == field_news(pv, nv));
    let ghost f = enriched_field(pv, dv, nv);
    let mut fields: Vec<Field> = Vec::new();
    let mut j: usize = 0;
    proof {
        lemma_take_ends(nv.fields);
        lemma_take_ends(nv.indices);
        lemma_of_nothing(|x: FieldView| true, f, |x: FieldView| Seq::<int>::empty());
    }
    while j < n.fields.len()
        invariant
            j <= n.fields.len(),
            fields.deep_view() == nv.fields.take(j as int).map_values(f),
        decreases n.fields.len() - j,
    {
        let ghost before = fields.deep_view();
        proof {
            lemma_map_step(nv.fields, f, j as int);
        }
        let field = enrich_field(prev, new, tables, i, j);
        let ghost fv = field.deep_view();
        fields.push(field);
        assert(fields.deep_view() =~= before.push(fv));
        j = j + 1;
    }
    let ghost g = enriched_index(pv, nv);
    let mut indices: Vec<IndexDefinition> = Vec::new();
    let mut k: usize = 0;
    proof {
        lemma_of_nothing(
            |x: crate::dml::IndexDefinitionView| true,
            g,
            |x: crate::dml::IndexDefinitionView| Seq::<int>::empty(),
        );
    }
    while k < n.indices.len()
        invariant
            k <= n.indices.len(),
            indices.deep_view() == nv.indices.take(k as int).map_values(g),
        decreases n.indices.len() - k,
    {
        let ghost before = indices.deep_view();
        proof {
            lemma_map_step(nv.indices, g, k as int);
        }
        let index: &IndexDefinition = &n.indices[k];
        assert(nv.indices[k as int] == index.deep_view());
        let enriched_i = IndexDefinition {
            name: name_option_clone(&index.name),
            fields: follow_all(&tables.field_olds[i], &tables.field_news[i], &index.fields),
            tpe: index.tpe,
        };
        let ghost iv = enriched_i.deep_view();
        indices.push(enriched_i);
        assert(indices.deep_view() =~= before.push(iv));
        k = k + 1;
    }
    let earlier: Option<&Model> = find_earlier_model(prev, table_name(n));
    let name: String = match earlier {
        Some(p) => p.name.clone(),
        None => n.name.clone(),
    };
    let documentation: Option<String> = match earlier {
        Some(p) => keep_documentation(&n.documentation, Some(&p.documentation)),
        None => keep_documentation(&n.documentation, None),
    };
    Model {
        database_name: map_name(name.as_str(), table_name(n)),
        name,
        fields,
        documentation,
        is_embedded: n.is_embedded,
        indices,
        id_fields: follow_all(&tables.field_olds[i], &tables.field_news[i], &n.id_fields),
        is_generated: n.is_generated,
        is_commented_out: n.is_commented_out,
    }
}

/// The first model that stands for the table.
#[verifier::loop_isolation(false)]
fn find_model_for_table<'a>(new: &'a Datamodel, table: &str) -> (r: Option<&'a Model>)
    ensures
        r.deep_view() == find(new.deep_view().models, for_table(table@)),
        r.is_some() == any(new.deep_view().models, for_table(table@)),
{
    let ghost p = for_table(table@);
    let ghost ms = new.deep_view().models;
    let mut i: usize = 0;
    while i < new.models.len()
        invariant
            i <= new.models.len(),
            forall|j: int| 0 <= j < i ==> !p(#[trigger] ms[j]),
        decreases new.models.len() - i,
    {
        let m: &Model = &new.models[i];
        assert(ms[i as int] == m.deep_view());
        if str_eq(table_name(m), table) {
            proof {
                lemma_position_is(ms, p, i as int);
            }
            return Some(m);
        }
        i = i + 1;
    }
    proof {
        lemma_position_none(ms, p);
    }
    None
}

/// Whether a scalar field of the model stands for the column.
#[verifier::loop_isolation(false)]
fn has_field_for_column(n: &Model, column: &str) -> (r: bool)
    ensures
        r == any(n.deep_view().fields, for_column(column@)),
{
    let ghost p = for_column(column@);
    let ghost fs = n.deep_view().fields;
    let mut i: usize = 0;
    while i < n.fields.len()
        invariant
            i <= n.fields.len(),
            forall|j: int| 0 <= j < i ==> !p(#[trigger] fs[j]),
        decreases n.fields.len() - i,
    {
        assert(fs[i as int] == n.fields[i as int].deep_view());
        let hit: bool = match &n.fields[i] {
            Field::ScalarField(sf) => str_eq(column_name(sf), column),
            Field::RelationField(_) => false,
        };
        if hit {
            proof {
                lemma_position_is(fs, p, i as int);
            }
            return true;
        }
        i = i + 1;
    }
    proof {
        lemma_position_none(fs, p);
    }
    false
}

/// Puts behind `out` the fields of a model that keep another name than
/// the one they had.
#[verifier::loop_isolation(false)]
fn push_renamed_fields(out: &mut Vec<Affected>, prev: &Datamodel, n: &Model)
    ensures
        final(out).deep_view() == old(out).deep_view() + renamed_fields_in(prev.deep_view())(
            n.deep_view(),
        ),
{
    let ghost start = out.deep_view();
    let ghost nv = n.deep_view();
    let ghost p = field_renamed(prev.deep_view(), nv);
    let ghost f = affected_kept_field(prev.deep_view(), nv);
    let model_name: String = match find_earlier_model(prev, table_name(n)) {
        Some(m) => m.name.clone(),
        None => n.name.clone(),
    };
    let mut i: usize = 0;
    proof {
        lemma_take_ends(nv.fields);
        lemma_of_nothing(p, f, |x: FieldView| Seq::<int>::empty());
        assert(start + nv.fields.take(0).filter(p).map_values(f) =~= start);
    }
    while i < n.fields.len()
        invariant
            i <= n.fields.len(),
            out.deep_view() == start + nv.fields.take(i as int).filter(p).map_values(f),
        decreases n.fields.len() - i,
    {
        proof {
            lemma_filter_map_step(nv.fields, p, f, i as int);
        }
        assert(nv.fields[i as int] == n.fields[i as int].deep_view());
        let kept: String = keep_field_name(prev, n, &n.fields[i]);
        if !str_eq(kept.as_str(), n.fields[i].name()) {
            let a = Affected::model_and_field(model_name.as_str(), kept.as_str());
            let ghost av = a.deep_view();
            let ghost before = out.deep_view();
            out.push(a);
            assert(out.deep_view() =~= before.push(av));
            assert(before.push(av) =~= start + nv.fields.take(i as int).filter(p).map_values(
                f,
            ).push(av));
        }
        i = i + 1;
    }
}

/// Puts behind `out` the fields of a model of the earlier data model
/// whose column is gone.
#[verifier::loop_isolation(false)]
fn push_gone_fields(out: &mut Vec<Affected>, new: &Datamodel, p: &Model)
    ensures
        final(out).deep_view() == old(out).deep_view() + gone_fields_in(new.deep_view())(
            p.deep_view(),
        ),
{
    let ghost start = out.deep_view();
    let ghost pv = p.deep_view();
    assert(start + Seq::<AffectedView>::empty() =~= start);
    if p.is_commented_out {
        return ;
    }
    match find_model_for_table(new, table_name(p)) {
        None => {},
        Some(n) => {
            let ghost q = column_gone(n.deep_view());
            let ghost f = affected_earlier_field(pv);
            let mut i: usize = 0;
            proof {
                lemma_take_ends(pv.fields);
                lemma_of_nothing(q, f, |x: FieldView| Seq::<int>::empty());
                assert(start + pv.fields.take(0).filter(q).map_values(f) =~= start);
            }
            while i < p.fields.len()
                invariant
                    i <= p.fields.len(),
                    out.deep_view() == start + pv.fields.take(i as int).filter(q).map_values(f),
                decreases p.fields.len() - i,
            {
                proof {
                    lemma_filter_map_step(pv.fields, q, f, i as int);
                }
                assert(pv.fields[i as int] == p.fields[i as int].deep_view());
                let gone: bool = match &p.fields[i] {
                    Field::ScalarField(sf) => !sf.is_commented_out && !has_field_for_column(
                        n,
                        column_name(sf),
                    ),
                    Field::RelationField(_) => false,
                };
                if gone {
                    let a = Affected::model_and_field(p.name.as_str(), p.fields[i].name());
                    let ghost av = a.deep_view();
                    let ghost before = out.deep_view();
                    out.push(a);
                    assert(out.deep_view() =~= before.push(av));
                    assert(before.push(av) =~= start + pv.fields.take(i as int).filter(
                        q,
                    ).map_values(f).push(av));
                }
                i = i + 1;
            }
        },
    }
}

/// Carries over to the new data model what the earlier data model says of
/// the same database, and returns the warnings of doing so.
#[verifier::loop_isolation(false)]
pub fn enrich(previous: &Datamodel, new: &mut Datamodel) -> (warnings: Vec<Warning>)
    ensures
        final(new).deep_view() == enriched(previous.deep_view(), old(new).deep_view()),
        warnings.deep_view() == enrichment_warnings(previous.deep_view(), old(new).deep_view()),
{
    let ghost pv = previous.deep_view();
    let ghost nv = new.deep_view();
    let tables: Tables = Tables::gather(previous, new);
    let mut models: Vec<Model> = Vec::new();
    let mut renamed_models: Vec<Affected> = Vec::new();
    let mut renamed_fields: Vec<Affected> = Vec::new();
    let ghost f = enriched_model(pv, nv);
    let mut i: usize = 0;
    proof {
        lemma_take_ends(nv.models);
        lemma_take_ends(pv.models);
        lemma_of_nothing(model_renamed(pv), f, renamed_fields_in(pv));
        lemma_of_nothing(model_renamed(pv), affected_kept_model(pv), renamed_fields_in(pv));
        assert(renamed_models.deep_view() =~= Seq::<AffectedView>::empty());
        assert(renamed_fields.deep_view() =~= Seq::<AffectedView>::empty());
    }
    while i < new.models.len()
        invariant
            i <= new.models.len(),
            new.deep_view() == nv,
            models.deep_view() == nv.models.take(i as int).map_values(f),
            renamed_models.deep_view() == nv.models.take(i as int).filter(
                model_renamed(pv),
            ).map_values(affected_kept_model(pv)),
            renamed_fields.deep_view() == nv.models.take(i as int).flat_map(renamed_fields_in(pv)),
        decreases new.models.len() - i,
    {
        let ghost before = models.deep_view();
        proof {
            lemma_map_step(nv.models, f, i as int);
            lemma_filter_map_step(nv.models, model_renamed(pv), affected_kept_model(pv), i as int);
            lemma_flat_map_step(nv.models, renamed_fields_in(pv), i as int);
        }
        let n: &Model = &new.models[i];
        assert(nv.models[i as int] == n.deep_view());
        let model: Model = enrich_model(previous, new, &tables, i);
        if model.name != n.name {
            let a = Affected::model(model.name.as_str());
            let ghost av = a.deep_view();
            let ghost b = renamed_models.deep_view();
            renamed_models.push(a);
            assert(renamed_models.deep_view() =~= b.push(av));
        }
        push_renamed_fields(&mut renamed_fields, previous, n);
        let ghost mv = model.deep_view();
        models.push(model);
        assert(models.deep_view() =~= before.push(mv));
        i = i + 1;
    }
    let mut gone_models: Vec<Affected> = Vec::new();
    let mut gone_fields: Vec<Affected> = Vec::new();
    let mut k: usize = 0;
    proof {
        lemma_of_nothing(table_gone(nv), affected_earlier_model(), gone_fields_in(nv));
        assert(gone_models.deep_view() =~= Seq::<AffectedView>::empty());
        assert(gone_fields.deep_view() =~= Seq::<AffectedView>::empty());
    }
    while k < previous.models.len()
        invariant
            k <= previous.models.len(),
            new.deep_view() == nv,
            gone_models.deep_view() == pv.models.take(k as int).filter(table_gone(nv)).map_values(
                affected_earlier_model(),
            ),
            gone_fields.deep_view() == pv.models.take(k as int).flat_map(gone_fields_in(nv)),
        decreases previous.models.len() - k,
    {
        proof {
            lemma_filter_map_step(pv.models, table_gone(nv), affected_earlier_model(), k as int);
            lemma_flat_map_step(pv.models, gone_fields_in(nv), k as int);
        }
        let p: &Model = &previous.models[k];
        assert(pv.models[k as int] == p.deep_view());
        if !p.is_commented_out && find_model_for_table(new, table_name(p)).is_none() {
            let a = Affected::model(p.name.as_str());
            let ghost av = a.deep_view();
            let ghost b = gone_models.deep_view();
            gone_models.push(a);
            assert(gone_models.deep_view() =~= b.push(av));
        }
        push_gone_fields(&mut gone_fields, new, p);
        k = k + 1;
    }
    let mut warnings: Vec<Warning> = Vec::new();
    assert(warnings.deep_view() =~= Seq::<WarningView>::empty());
    push_warning(&mut warnings, WarningKind::EnrichedWithMapOnModel, renamed_models);
    push_warning(&mut warnings, WarningKind::EnrichedWithMapOnField, renamed_fields);
    push_warning(&mut warnings, WarningKind::ModelsWithoutTable, gone_models);
    push_warning(&mut warnings, WarningKind::FieldsWithoutColumn, gone_fields);
    let enums = list_clone(&new.enums);
    *new = Datamodel { enums, models };
    assert(warnings.deep_view() =~= enrichment_warnings(pv, nv));
    warnings
}

} // verus!
