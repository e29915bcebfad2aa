//! What holds of calculating a data model twice from the same schema: the
//! second time, with the result of the first as the earlier data model,
//! gives the same data model, the same version and the same warnings.

use crate::dml::{DatamodelView, FieldView, ModelView, RelationFieldView, ScalarFieldView};
use crate::dml::lookup::model_named;
use crate::introspection::calculate::{
    calculated, detected_version, early_warnings, enriched_translation, translation,
};
use crate::introspection::defaults::{defaulted_model, with_default, with_legacy_defaults};
use crate::introspection::enrich::{
    affected_earlier_model, affected_kept_model, all_followed, column_gone, column_of,
    earlier_field, earlier_model, earlier_relation_name, enriched, enriched_field, enriched_index,
    enriched_model, enrichment_warnings, field_news, field_olds, field_renamed, followed,
    for_column, for_table, gone_fields_in, holds, kept_field_name, kept_fields, kept_model_name,
    kept_relation_name, kept_to, mapped_name, model_news, model_olds, model_renamed,
    renamed_fields_in, same_relation, stands_for_column, stands_for_table, table_gone, table_of,
    target_field_news, target_field_olds,
};
use crate::introspection::guardrails::{commented_models, shown, shown_field, shown_model, stays};
use crate::introspection::sanitize::is_name;
use crate::introspection::{AffectedView, SqlFamily, Version, WarningView};
use crate::seqs::{find, lemma_of_nothing, lemma_position, position};
use crate::sql_schema::SqlSchemaView;
use vstd::prelude::*;

verus! {

/// The earlier data model where there is none.
pub open spec fn nothing_earlier() -> DatamodelView {
    DatamodelView { enums: Seq::empty(), models: Seq::empty() }
}

/// Two scalar fields that stand for the same column.
pub open spec fn same_column(f: FieldView, g: FieldView) -> bool {
    match (f, g) {
        (FieldView::ScalarField(x), FieldView::ScalarField(y)) => column_of(x) == column_of(y),
        _ => false,
    }
}

/// Two relation fields that hold, in the same fields, a relation to the
/// same model, hold the same relation.
pub open spec fn one_relation(f: FieldView, g: FieldView) -> bool {
    match (f, g) {
        (FieldView::RelationField(x), FieldView::RelationField(y)) => x.relation_info.fields.len()
            > 0 && x.relation_info.to == y.relation_info.to && x.relation_info.fields
            == y.relation_info.fields ==> x.relation_info.name == y.relation_info.name,
        _ => true,
    }
}

/// No two scalar fields of the model stand for the same column, and no two
/// relations are held in the same fields.
pub open spec fn settled_model(n: ModelView) -> bool {
    &&& forall|a: int, b: int|
        0 <= a < n.fields.len() && 0 <= b < n.fields.len() && same_column(
            #[trigger] n.fields[a],
            #[trigger] n.fields[b],
        ) ==> a == b
    &&& forall|a: int, b: int|
        0 <= a < n.fields.len() && 0 <= b < n.fields.len() ==> one_relation(
            #[trigger] n.fields[a],
            #[trigger] n.fields[b],
        )
}

/// No two models of the data model stand for the same table, and each
/// model is settled.
pub open spec fn settled(t: DatamodelView) -> bool {
    &&& forall|i: int, j: int|
        0 <= i < t.models.len() && 0 <= j < t.models.len() && table_of(#[trigger] t.models[i])
            == table_of(#[trigger] t.models[j]) ==> i == j
    &&& forall|i: int| 0 <= i < t.models.len() ==> settled_model(#[trigger] t.models[i])
}

/// What an earlier data model says of a field that differs from what the
/// field says itself: nothing.
pub open spec fn quiet_of_field(prev: DatamodelView, new: DatamodelView, n: ModelView, f: FieldView) -> bool {
    match f {
        FieldView::ScalarField(sf) => match earlier_field(prev, n, sf) {
            Some(x) => x.name == sf.name && x.documentation == sf.documentation,
            None => true,
        },
        FieldView::RelationField(rf) => rf.relation_info.fields.len() > 0 ==> match find(
            match earlier_model(prev, n) {
                Some(p) => p.fields,
                None => Seq::empty(),
            },
            same_relation(rf.relation_info.to, rf.relation_info.fields),
        ) {
            Some(FieldView::RelationField(x)) => x.relation_info.name == rf.relation_info.name,
            _ => true,
        },
    }
}

/// What an earlier data model says of a model that differs from what the
/// model says itself: nothing.
pub open spec fn quiet_of_model(prev: DatamodelView, new: DatamodelView, n: ModelView) -> bool {
    &&& match earlier_model(prev, n) {
        Some(p) => p.name == n.name && p.documentation == n.documentation,
        None => true,
    }
    &&& forall|a: int| 0 <= a < n.fields.len() ==> quiet_of_field(prev, new, n, #[trigger] n.fields[a])
}

/// The earlier data model says nothing new of the new one.
pub open spec fn quiet(prev: DatamodelView, new: DatamodelView) -> bool {
    forall|i: int| 0 <= i < new.models.len() ==> quiet_of_model(prev, new, #[trigger] new.models[i])
}

/// A field with its name in the database told from its name.
pub open spec fn restated_field() -> spec_fn(FieldView) -> FieldView {
    |f: FieldView|
        match f {
            FieldView::ScalarField(sf) => FieldView::ScalarField(
                ScalarFieldView { database_name: mapped_name(sf.name, column_of(sf)), ..sf },
            ),
            FieldView::RelationField(_) => f,
        }
}

/// A model with its name in the database told from its name.
pub open spec fn restated_model() -> spec_fn(ModelView) -> ModelView {
    |n: ModelView|
        ModelView {
            database_name: mapped_name(n.name, table_of(n)),
            fields: n.fields.map_values(restated_field()),
            ..n
        }
}

/// A data model with the names in the database told from the names.
pub open spec fn restated(new: DatamodelView) -> DatamodelView {
    DatamodelView { models: new.models.map_values(restated_model()), enums: new.enums }
}

/// Where the new names are the old ones, every name refers to itself.
pub proof fn lemma_followed_itself(olds: Seq<Seq<char>>, name: Seq<char>)
    ensures
        followed(olds, olds, name) == name,
{
    lemma_position(olds, is_name(name));
}

/// Where the new names are the old ones, a list of names stays as it is.
pub proof fn lemma_all_followed_themselves(olds: Seq<Seq<char>>, names: Seq<Seq<char>>)
    ensures
        names.map_values(all_followed(olds, olds)) == names,
{
    assert forall|i: int| 0 <= i < names.len() implies names.map_values(all_followed(olds, olds))[i]
        == names[i] by {
        lemma_followed_itself(olds, names[i]);
    }
    assert(names.map_values(all_followed(olds, olds)) =~= names);
}

/// Under a quiet earlier data model the models keep their names.
pub proof fn lemma_quiet_model_names(prev: DatamodelView, new: DatamodelView)
    requires
        quiet(prev, new),
    ensures
        model_news(prev, new) == model_olds(new),
        new.models.filter(model_renamed(prev)).len() == 0,
{
    assert forall|i: int| 0 <= i < new.models.len() implies kept_model_name(prev)(new.models[i])
        == new.models[i].name by {
        assert(quiet_of_model(prev, new, new.models[i]));
    }
    assert(model_news(prev, new) =~= model_olds(new));
    let gone = new.models.filter(model_renamed(prev));
    if gone.len() > 0 {
        new.models.lemma_filter_pred(model_renamed(prev), 0);
        new.models.lemma_filter_contains_rev(model_renamed(prev), gone[0]);
        let i = choose|i: int| 0 <= i < new.models.len() && new.models[i] == gone[0];
        assert(kept_model_name(prev)(new.models[i]) == new.models[i].name);
    }
}

/// Under a quiet earlier data model the fields of a model keep their names.
pub proof fn lemma_quiet_field_names(prev: DatamodelView, new: DatamodelView, n: ModelView)
    requires
        quiet_of_model(prev, new, n),
    ensures
        field_news(prev, n) == field_olds(n),
        renamed_fields_in(prev)(n).len() == 0,
{
    assert forall|a: int| 0 <= a < n.fields.len() implies kept_field_name(prev, n)(n.fields[a])
        == n.fields[a].name() by {
        assert(quiet_of_field(prev, new, n, n.fields[a]));
    }
    assert(field_news(prev, n) =~= field_olds(n));
    let gone = n.fields.filter(field_renamed(prev, n));
    if gone.len() > 0 {
        n.fields.lemma_filter_pred(field_renamed(prev, n), 0);
        n.fields.lemma_filter_contains_rev(field_renamed(prev, n), gone[0]);
        let a = choose|a: int| 0 <= a < n.fields.len() && n.fields[a] == gone[0];
        assert(kept_field_name(prev, n)(n.fields[a]) == n.fields[a].name());
    }
}

/// Under a quiet earlier data model a relation keeps its name.
pub proof fn lemma_quiet_relation_name(
    prev: DatamodelView,
    new: DatamodelView,
    i: int,
    a: int,
    rf: RelationFieldView,
)
    requires
        quiet(prev, new),
        0 <= i < new.models.len(),
        0 <= a < new.models[i].fields.len(),
        new.models[i].fields[a] == FieldView::RelationField(rf),
        rf.relation_info.fields.len() > 0,
    ensures
        match earlier_relation_name(prev, new, new.models[i], rf) {
            Some(name) => name == rf.relation_info.name,
            None => true,
        },
{
    let n = new.models[i];
    assert(quiet_of_model(prev, new, n));
    assert(quiet_of_field(prev, new, n, n.fields[a]));
    lemma_quiet_model_names(prev, new);
    lemma_quiet_field_names(prev, new, n);
    lemma_followed_itself(model_olds(new), rf.relation_info.to);
    lemma_all_followed_themselves(field_olds(n), rf.relation_info.fields);
    assert(kept_to(prev, new, rf) == rf.relation_info.to);
    assert(kept_fields(prev, n, rf) == rf.relation_info.fields);
}

/// Under a quiet earlier data model a field is enriched with nothing but
/// its name in the database.
pub proof fn lemma_quiet_field(prev: DatamodelView, new: DatamodelView, i: int, a: int)
    requires
        quiet(prev, new),
        0 <= i < new.models.len(),
        0 <= a < new.models[i].fields.len(),
    ensures
        enriched_field(prev, new, new.models[i])(new.models[i].fields[a]) == restated_field()(
            new.models[i].fields[a],
        ),
{
    let n = new.models[i];
    let f = n.fields[a];
    assert(quiet_of_model(prev, new, n));
    assert(quiet_of_field(prev, new, n, f));
    lemma_quiet_model_names(prev, new);
    lemma_quiet_field_names(prev, new, n);
    match f {
        FieldView::ScalarField(sf) => {
            assert(kept_field_name(prev, n)(f) == sf.name);
        },
        FieldView::RelationField(rf) => {
            let info = rf.relation_info;
            lemma_followed_itself(model_olds(new), info.to);
            lemma_all_followed_themselves(field_olds(n), info.fields);
            let olds = target_field_olds(new, info.to);
            let news = target_field_news(prev, new, info.to);
            lemma_position(new.models, model_named(info.to));
            match new.find_model(info.to) {
                Some(target) => {
                    let k = position(new.models, model_named(info.to))->0;
                    assert(target == new.models[k]);
                    assert(quiet_of_model(prev, new, target));
                    lemma_quiet_field_names(prev, new, target);
                    assert(news == olds);
                    if info.fields.len() == 0 {
                        lemma_position(target.fields, holds(info.name, n.name));
                        match find(target.fields, holds(info.name, n.name)) {
                            Some(FieldView::RelationField(g)) => {
                                let b = position(target.fields, holds(info.name, n.name))->0;
                                assert(target.fields[b] == FieldView::RelationField(g));
                                lemma_quiet_relation_name(prev, new, k, b, g);
                            },
                            _ => {},
                        }
                    }
                },
                None => {
                    assert(news == olds);
                },
            }
            lemma_all_followed_themselves(olds, info.to_fields);
            if info.fields.len() > 0 {
                lemma_quiet_relation_name(prev, new, i, a, rf);
            }
            assert(kept_relation_name(prev, new, n, rf) == info.name);
            assert(kept_to(prev, new, rf) == info.to);
            assert(kept_fields(prev, n, rf) == info.fields);
        },
    }
}

/// Under a quiet earlier data model a model is enriched with nothing but
/// the names in the database.
pub proof fn lemma_quiet_model(prev: DatamodelView, new: DatamodelView, i: int)
    requires
        quiet(prev, new),
        0 <= i < new.models.len(),
    ensures
        enriched_model(prev, new)(new.models[i]) == restated_model()(new.models[i]),
{
    let n = new.models[i];
    assert(quiet_of_model(prev, new, n));
    lemma_quiet_field_names(prev, new, n);
    let olds = field_olds(n);
    assert forall|a: int| 0 <= a < n.fields.len() implies n.fields.map_values(
        enriched_field(prev, new, n),
    )[a] == n.fields.map_values(restated_field())[a] by {
        lemma_quiet_field(prev, new, i, a);
    }
    assert(n.fields.map_values(enriched_field(prev, new, n)) =~= n.fields.map_values(
        restated_field(),
    ));
    assert forall|c: int| 0 <= c < n.indices.len() implies n.indices.map_values(
        enriched_index(prev, n),
    )[c] == n.indices[c] by {
        lemma_all_followed_themselves(olds, n.indices[c].fields);
    }
    assert(n.indices.map_values(enriched_index(prev, n)) =~= n.indices);
    lemma_all_followed_themselves(olds, n.id_fields);
    assert(kept_model_name(prev)(n) == n.name);
}

/// A quiet earlier data model changes nothing but the names in the
/// database, and neither a model nor a field is warned of for its name.
pub proof fn lemma_quiet(prev: DatamodelView, new: DatamodelView)
    requires
        quiet(prev, new),
    ensures
        enriched(prev, new) == restated(new),
        new.models.filter(model_renamed(prev)).map_values(affected_kept_model(prev)).len() == 0,
        new.models.flat_map(renamed_fields_in(prev)).len() == 0,
{
    assert forall|i: int| 0 <= i < new.models.len() implies new.models.map_values(
        enriched_model(prev, new),
    )[i] == new.models.map_values(restated_model())[i] by {
        lemma_quiet_model(prev, new, i);
    }
    assert(new.models.map_values(enriched_model(prev, new)) =~= new.models.map_values(
        restated_model(),
    ));
    lemma_quiet_model_names(prev, new);
    assert forall|i: int| 0 <= i < new.models.len() implies (#[trigger] new.models.map_values(
        renamed_fields_in(prev),
    )[i]).len() == 0 by {
        assert(quiet_of_model(prev, new, new.models[i]));
        lemma_quiet_field_names(prev, new, new.models[i]);
    }
    lemma_flatten_nothing(new.models.map_values(renamed_fields_in(prev)));
}

/// Lists that hold nothing make up nothing.
pub proof fn lemma_flatten_nothing<T>(s: Seq<Seq<T>>)
    requires
        forall|i: int| 0 <= i < s.len() ==> (#[trigger] s[i]).len() == 0,
    ensures
        s.flatten().len() == 0,
    decreases s.len(),
{
    if s.len() > 0 {
        lemma_flatten_nothing(s.drop_first());
    }
}

/// The scalar field `x` says of its column what the field `g` says.
pub open spec fn echoes_scalar(x: ScalarFieldView, g: FieldView) -> bool {
    g matches FieldView::ScalarField(y) && y.name == x.name && column_of(y) == column_of(x)
        && y.documentation == x.documentation
}

/// The relation field `x` says of its relation what the field `g` says.
pub open spec fn echoes_relation(x: RelationFieldView, g: FieldView) -> bool {
    g matches FieldView::RelationField(y) && y.relation_info.to == x.relation_info.to
        && y.relation_info.fields == x.relation_info.fields && y.relation_info.name
        == x.relation_info.name
}

/// The field is commented out, or says what a field of the model says.
pub open spec fn echoes_field(f: FieldView, n: ModelView) -> bool {
    match f {
        FieldView::ScalarField(x) => x.is_commented_out || exists|j: int|
            0 <= j < n.fields.len() && echoes_scalar(x, #[trigger] n.fields[j]),
        FieldView::RelationField(x) => x.is_commented_out || exists|j: int|
            0 <= j < n.fields.len() && echoes_relation(x, #[trigger] n.fields[j]),
    }
}

/// The model `p` bears the name of `n`, stands for its table, and says of
/// itself and of its fields what `n` says, as far as it is not commented
/// out.
pub open spec fn echoes_model(p: ModelView, n: ModelView) -> bool {
    &&& p.name == n.name
    &&& table_of(p) == table_of(n)
    &&& p.is_commented_out || p.documentation == n.documentation
    &&& forall|k: int| 0 <= k < p.fields.len() ==> echoes_field(#[trigger] p.fields[k], n)
}

/// The earlier data model says, model by model, what the new one says.
pub open spec fn echoes(prev: DatamodelView, new: DatamodelView) -> bool {
    &&& prev.models.len() == new.models.len()
    &&& forall|i: int|
        0 <= i < new.models.len() ==> echoes_model(#[trigger] prev.models[i], new.models[i])
}

/// Where there is no earlier data model, it is quiet, and no earlier
/// model or field is missed.
pub proof fn lemma_nothing_earlier_is_quiet(new: DatamodelView)
    ensures
        quiet(nothing_earlier(), new),
        enrichment_warnings(nothing_earlier(), new) == Seq::<WarningView>::empty(),
{
    let prev = nothing_earlier();
    assert forall|i: int| 0 <= i < new.models.len() implies quiet_of_model(
        prev,
        new,
        #[trigger] new.models[i],
    ) by {
        let n = new.models[i];
        assert(earlier_model(prev, n) is None);
        assert forall|a: int| 0 <= a < n.fields.len() implies quiet_of_field(
            prev,
            new,
            n,
            #[trigger] n.fields[a],
        ) by {}
    }
    lemma_quiet(prev, new);
    lemma_of_nothing::<ModelView, AffectedView, AffectedView>(
        table_gone(new),
        affected_earlier_model(),
        gone_fields_in(new),
    );
    assert(prev.models.filter(table_gone(new)).map_values(affected_earlier_model()).len() == 0);
    assert(prev.models.flat_map(gone_fields_in(new)).len() == 0);
    assert(enrichment_warnings(prev, new) =~= Seq::<WarningView>::empty());
}

/// The earlier model of a model of a settled data model, in an earlier
/// data model that echoes it, is the model at the same place.
pub proof fn lemma_earlier_model(prev: DatamodelView, new: DatamodelView, i: int)
    requires
        settled(new),
        echoes(prev, new),
        0 <= i < new.models.len(),
    ensures
        match earlier_model(prev, new.models[i]) {
            Some(p) => p == prev.models[i] && !p.is_commented_out,
            None => true,
        },
{
    let n = new.models[i];
    lemma_position(prev.models, stands_for_table(table_of(n)));
    match position(prev.models, stands_for_table(table_of(n))) {
        Some(j) => {
            assert(echoes_model(prev.models[j], new.models[j]));
            assert(table_of(new.models[j]) == table_of(new.models[i]));
        },
        None => {},
    }
}

/// An earlier data model that echoes a settled one is quiet.
pub proof fn lemma_echo_is_quiet(prev: DatamodelView, new: DatamodelView)
    requires
        settled(new),
        echoes(prev, new),
    ensures
        quiet(prev, new),
{
    assert forall|i: int| 0 <= i < new.models.len() implies quiet_of_model(
        prev,
        new,
        #[trigger] new.models[i],
    ) by {
        let n = new.models[i];
        lemma_earlier_model(prev, new, i);
        assert(echoes_model(prev.models[i], n));
        assert(settled_model(n));
        assert forall|a: int| 0 <= a < n.fields.len() implies quiet_of_field(
            prev,
            new,
            n,
            #[trigger] n.fields[a],
        ) by {
            match earlier_model(prev, n) {
                Some(p) => {
                    match n.fields[a] {
                        FieldView::ScalarField(sf) => {
                            let q = stands_for_column(column_of(sf));
                            lemma_position(p.fields, q);
                            match position(p.fields, q) {
                                Some(k) => {
                                    assert(echoes_field(p.fields[k], n));
                                    let x = p.fields[k]->ScalarField_0;
                                    let j = choose|j: int|
                                        0 <= j < n.fields.len() && echoes_scalar(
                                            x,
                                            #[trigger] n.fields[j],
                                        );
                                    assert(same_column(n.fields[j], n.fields[a]));
                                },
                                None => {},
                            }
                        },
                        FieldView::RelationField(rf) => {
                            let q = same_relation(rf.relation_info.to, rf.relation_info.fields);
                            lemma_position(p.fields, q);
                            match position(p.fields, q) {
                                Some(k) => {
                                    assert(echoes_field(p.fields[k], n));
                                    let x = p.fields[k]->RelationField_0;
                                    let j = choose|j: int|
                                        0 <= j < n.fields.len() && echoes_relation(
                                            x,
                                            #[trigger] n.fields[j],
                                        );
                                    assert(one_relation(n.fields[a], n.fields[j]));
                                },
                                None => {},
                            }
                        },
                    }
                },
                None => {},
            }
        }
    }
}

/// Of an earlier data model that echoes a settled one, no model and no
/// field is missed.
pub proof fn lemma_echo_misses_nothing(prev: DatamodelView, new: DatamodelView)
    requires
        settled(new),
        echoes(prev, new),
    ensures
        prev.models.filter(table_gone(new)).map_values(affected_earlier_model()).len() == 0,
        prev.models.flat_map(gone_fields_in(new)).len() == 0,
{
    let gone = prev.models.filter(table_gone(new));
    if gone.len() > 0 {
        prev.models.lemma_filter_pred(table_gone(new), 0);
        prev.models.lemma_filter_contains_rev(table_gone(new), gone[0]);
        let i = choose|i: int| 0 <= i < prev.models.len() && prev.models[i] == gone[0];
        assert(echoes_model(prev.models[i], new.models[i]));
        assert(for_table(table_of(prev.models[i]))(new.models[i]));
        lemma_position(new.models, for_table(table_of(prev.models[i])));
    }
    assert forall|i: int| 0 <= i < prev.models.len() implies (#[trigger] prev.models.map_values(
        gone_fields_in(new),
    )[i]).len() == 0 by {
        let p = prev.models[i];
        assert(echoes_model(p, new.models[i]));
        if !p.is_commented_out {
            let q = for_table(table_of(p));
            lemma_position(new.models, q);
            assert(q(new.models[i]));
            let j = position(new.models, q)->0;
            assert(table_of(new.models[j]) == table_of(new.models[i]));
            let n = new.models[i];
            let lost = p.fields.filter(column_gone(n));
            if lost.len() > 0 {
                p.fields.lemma_filter_pred(column_gone(n), 0);
                p.fields.lemma_filter_contains_rev(column_gone(n), lost[0]);
                let k = choose|k: int| 0 <= k < p.fields.len() && p.fields[k] == lost[0];
                assert(echoes_field(p.fields[k], n));
                let x = p.fields[k]->ScalarField_0;
                let c = choose|c: int|
                    0 <= c < n.fields.len() && echoes_scalar(x, #[trigger] n.fields[c]);
                assert(for_column(column_of(x))(n.fields[c]));
                lemma_position(n.fields, for_column(column_of(x)));
            }
        }
    }
    lemma_flatten_nothing(prev.models.map_values(gone_fields_in(new)));
}

/// What is shown of a data model with its names told, with or without the
/// defaults of a legacy generation, echoes the data model.
pub proof fn lemma_shown_echoes(schema: SqlSchemaView, version: Version, new: DatamodelView)
    ensures
        echoes(with_legacy_defaults(schema, version, shown(restated(new))), new),
{
    let told = restated(new);
    let gone = commented_models(told);
    let prev = with_legacy_defaults(schema, version, shown(told));
    assert(prev.models.len() == new.models.len());
    assert forall|i: int| 0 <= i < new.models.len() implies echoes_model(
        #[trigger] prev.models[i],
        new.models[i],
    ) by {
        let n = new.models[i];
        let r = told.models[i];
        assert(r == restated_model()(n));
        let d = shown(told).models[i];
        assert(d == shown_model(gone)(r));
        let p = prev.models[i];
        assert(p == d || p == defaulted_model(schema)(d));
        let kept = r.fields.filter(stays(gone));
        assert(d.fields == kept.map_values(shown_field()));
        assert forall|k: int| 0 <= k < p.fields.len() implies echoes_field(
            #[trigger] p.fields[k],
            n,
        ) by {
            let e = kept[k];
            r.fields.lemma_filter_contains_rev(stays(gone), e);
            let j = choose|j: int| 0 <= j < r.fields.len() && r.fields[j] == e;
            assert(e == restated_field()(n.fields[j]));
            let s = d.fields[k];
            assert(s == shown_field()(e));
            assert(p.fields[k] == s || p.fields[k] == with_default(schema, d)(s));
            match n.fields[j] {
                FieldView::ScalarField(sf) => {
                    let x = p.fields[k]->ScalarField_0;
                    if !x.is_commented_out {
                        assert(echoes_scalar(x, n.fields[j]));
                    }
                },
                FieldView::RelationField(rf) => {
                    assert(p.fields[k] == n.fields[j]);
                    assert(echoes_relation(rf, n.fields[j]));
                },
            }
        }
    }
}

/// Calculating a data model again from the same schema, with the result
/// of the first calculation as the earlier data model, gives the same
/// data model, the same version and the same warnings, for every schema
/// whose translation is settled.
pub proof fn lemma_calculated_again(schema: SqlSchemaView, family: SqlFamily, native_types: bool)
    requires
        settled(translation(schema, native_types)),
    ensures
        calculated(
            schema,
            family,
            calculated(schema, family, nothing_earlier(), native_types).data_model,
            native_types,
        ) == calculated(schema, family, nothing_earlier(), native_types),
{
    let new = translation(schema, native_types);
    let none = nothing_earlier();
    lemma_nothing_earlier_is_quiet(new);
    lemma_quiet(none, new);
    let first = calculated(schema, family, none, native_types);
    let prev = first.data_model;
    assert(prev == with_legacy_defaults(schema, first.version, shown(restated(new))));
    lemma_shown_echoes(schema, first.version, new);
    lemma_echo_is_quiet(prev, new);
    lemma_echo_misses_nothing(prev, new);
    lemma_quiet(prev, new);
    assert(enrichment_warnings(prev, new) =~= Seq::<WarningView>::empty());
    assert(enriched_translation(schema, prev, native_types) == enriched_translation(
        schema,
        none,
        native_types,
    ));
    assert(early_warnings(schema, prev, native_types) == early_warnings(
        schema,
        none,
        native_types,
    ));
    assert(detected_version(schema, family, prev, native_types) == detected_version(
        schema,
        family,
        none,
        native_types,
    ));
}

} // verus!
