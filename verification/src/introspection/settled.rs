//! The data models that stand for coherent schemas are settled: what
//! calculating a data model again relies on follows from what the schema
//! says of itself.

use crate::dml::{DatamodelView, FieldView, ModelView, RelationFieldView};
use crate::introspection::backrelations::{
    backrelations, backrelations_in, introspected, join_fields, with_field, with_fields, Extra,
};
use crate::introspection::models::{
    model_of, models_of, points_to_model, relation_fields_of, scalar_of, stands_for_model,
};
use crate::introspection::fields::{holds_rival, is_rival, relation_field_of, relation_name_of};
use crate::introspection::calculate::{calculated, translation};
use crate::introspection::deduplicate::{deduplicated, deduplicated_field, deduplicated_model};
use crate::introspection::enrich::{column_of, table_of};
use crate::introspection::laws::{
    lemma_calculated_again, nothing_earlier, one_relation, same_column, settled, settled_model,
};
use crate::introspection::SqlFamily;
use crate::introspection::names::{lemma_free_name, sanitized};
use crate::introspection::sanitize::{
    all_renamed, field_names, is_name, model_name, model_news, new_name, new_names, news_of,
    olds_of, renamed, sanitized_datamodel, sanitized_field, sanitized_model,
};
use crate::introspection::tables::model_table;
use crate::dml::lookup::model_named;
use crate::seqs::{any, lemma_position, lemma_position_is, position};
use crate::sql_schema::table::{column_named, table_named};
use crate::sql_schema::{ForeignKeyView, SqlSchemaView, TableView};
use vstd::prelude::*;

verus! {

/// Whether a name holds a letter, so that something is left of it when
/// it is made valid.
pub open spec fn has_letter(name: Seq<char>) -> bool {
    sanitized(name).len() > 0
}

/// There are as many new names as there were names, and the new names of
/// the first names are the same whatever comes behind them.
pub proof fn lemma_new_names_upto(olds: Seq<Seq<char>>, taken: Seq<Seq<char>>, k: int, i: int)
    requires
        0 <= i <= k,
    ensures
        new_names(olds, taken, k).len() == k,
        new_names(olds, taken, k).take(i) == new_names(olds, taken, i),
    decreases k,
{
    if k > 0 {
        if i < k {
            lemma_new_names_upto(olds, taken, k - 1, i);
            assert(new_names(olds, taken, k).take(i) =~= new_names(olds, taken, k - 1).take(i));
        } else {
            lemma_new_names_upto(olds, taken, k - 1, k - 1);
            assert(new_names(olds, taken, k).take(k) =~= new_names(olds, taken, k));
        }
    } else {
        assert(new_names(olds, taken, 0).take(0) =~= new_names(olds, taken, 0));
    }
}

/// The new name of a name that holds a letter is none of the new names
/// before it.
pub proof fn lemma_new_names_differ(
    olds: Seq<Seq<char>>,
    taken: Seq<Seq<char>>,
    k: int,
    i: int,
    j: int,
)
    requires
        0 <= i < j < k,
        has_letter(olds[j]),
    ensures
        new_names(olds, taken, k)[i] != new_names(olds, taken, k)[j],
{
    lemma_new_names_upto(olds, taken, k, j + 1);
    lemma_new_names_upto(olds, taken, j + 1, j);
    let upto = new_names(olds, taken, j + 1);
    let before = new_names(olds, taken, j);
    assert(new_names(olds, taken, k).take(j + 1)[j] == new_names(olds, taken, k)[j]);
    assert(new_names(olds, taken, k).take(j + 1)[i] == new_names(olds, taken, k)[i]);
    assert(upto.take(j)[i] == upto[i]);
    assert(upto[j] == new_name(olds[j], taken + before));
    lemma_free_name(sanitized(olds[j]), taken + before);
    assert((taken + before)[taken.len() + i] == before[i]);
}

/// There are as many new names as there are fields, and the new names of
/// the first fields are the same whatever comes behind them.
pub proof fn lemma_field_names_upto(fields: Seq<FieldView>, k: int, i: int)
    requires
        0 <= i <= k,
    ensures
        field_names(fields, k).len() == k,
        field_names(fields, k).take(i) == field_names(fields, i),
    decreases k,
{
    if k > 0 {
        if i < k {
            lemma_field_names_upto(fields, k - 1, i);
            assert(field_names(fields, k).take(i) =~= field_names(fields, k - 1).take(i));
        } else {
            lemma_field_names_upto(fields, k - 1, k - 1);
            assert(field_names(fields, k).take(k) =~= field_names(fields, k));
        }
    } else {
        assert(field_names(fields, 0).take(0) =~= field_names(fields, 0));
    }
}

/// The new name of a scalar field whose name holds a letter is none of
/// the new names before it.
pub proof fn lemma_field_names_differ(fields: Seq<FieldView>, k: int, i: int, j: int)
    requires
        0 <= i < j < k <= fields.len(),
        fields[j] matches FieldView::ScalarField(sf) && has_letter(sf.name),
    ensures
        field_names(fields, k)[i] != field_names(fields, k)[j],
{
    lemma_field_names_upto(fields, k, j + 1);
    lemma_field_names_upto(fields, j + 1, j);
    let upto = field_names(fields, j + 1);
    let before = field_names(fields, j);
    assert(field_names(fields, k).take(j + 1)[j] == field_names(fields, k)[j]);
    assert(field_names(fields, k).take(j + 1)[i] == field_names(fields, k)[i]);
    assert(upto.take(j)[i] == upto[i]);
    let sf = fields[j]->ScalarField_0;
    assert(upto[j] == new_name(sf.name, before));
    lemma_free_name(sanitized(sf.name), before);
}

/// What a table says of itself hangs together: its name and the names of
/// its columns hold a letter, no two of its columns share a name, and its
/// foreign keys constrain columns that it has.
pub open spec fn coherent_table(t: TableView) -> bool {
    &&& has_letter(t.name)
    &&& forall|a: int, b: int|
        0 <= a < b < t.columns.len() ==> #[trigger] t.columns[a].name != #[trigger] t.columns[b].name
    &&& forall|a: int| 0 <= a < t.columns.len() ==> has_letter(#[trigger] t.columns[a].name)
    &&& forall|f: int, c: int|
        0 <= f < t.foreign_keys.len() && 0 <= c < t.foreign_keys[f].columns.len() ==> t.has_column(
            #[trigger] t.foreign_keys[f].columns[c],
        )
}

/// What a schema says of itself hangs together: no two of its tables
/// share a name, and each table is coherent.
pub open spec fn coherent(s: SqlSchemaView) -> bool {
    &&& forall|i: int, j: int|
        0 <= i < j < s.tables.len() ==> #[trigger] s.tables[i].name != #[trigger] s.tables[j].name
    &&& forall|i: int| 0 <= i < s.tables.len() ==> coherent_table(#[trigger] s.tables[i])
}

/// The tables that stand for models.
pub open spec fn model_tables(s: SqlSchemaView) -> Seq<TableView> {
    s.tables.filter(stands_for_model())
}

/// The tables that stand for models are tables of the schema, each under
/// a name of its own.
pub proof fn lemma_model_tables(s: SqlSchemaView)
    requires
        coherent(s),
    ensures
        forall|i: int|
            0 <= i < model_tables(s).len() ==> s.tables.contains(#[trigger] model_tables(s)[i])
                && model_table(model_tables(s)[i]) && coherent_table(model_tables(s)[i]),
        forall|i: int, j: int|
            0 <= i < j < model_tables(s).len() ==> #[trigger] model_tables(s)[i].name
                != #[trigger] model_tables(s)[j].name,
{
    lemma_kept_apart(s.tables, s.tables.len() as int);
    assert(s.tables.take(s.tables.len() as int) =~= s.tables);
    let f = model_tables(s);
    assert forall|i: int| 0 <= i < f.len() implies s.tables.contains(#[trigger] f[i]) && model_table(
        f[i],
    ) && coherent_table(f[i]) by {
        s.tables.lemma_filter_pred(stands_for_model(), i);
        s.tables.lemma_filter_contains_rev(stands_for_model(), f[i]);
        let x = choose|x: int| 0 <= x < s.tables.len() && s.tables[x] == f[i];
        assert(coherent_table(s.tables[x]));
    }
}

/// Among the first tables, those that stand for models are tables among
/// the first, each under a name of its own.
proof fn lemma_kept_apart(ts: Seq<TableView>, k: int)
    requires
        0 <= k <= ts.len(),
        forall|i: int, j: int|
            0 <= i < j < ts.len() ==> #[trigger] ts[i].name != #[trigger] ts[j].name,
    ensures
        forall|i: int|
            0 <= i < ts.take(k).filter(stands_for_model()).len() ==> exists|x: int|
                0 <= x < k && ts[x] == #[trigger] ts.take(k).filter(stands_for_model())[i],
        forall|i: int, j: int|
            0 <= i < j < ts.take(k).filter(stands_for_model()).len() ==> #[trigger] ts.take(
                k,
            ).filter(stands_for_model())[i].name != #[trigger] ts.take(k).filter(
                stands_for_model(),
            )[j].name,
    decreases k,
{
    let p = stands_for_model();
    if k == 0 {
        assert(ts.take(0) =~= Seq::<TableView>::empty());
        assert(ts.take(0).filter(p) =~= Seq::<TableView>::empty());
    } else {
        lemma_kept_apart(ts, k - 1);
        crate::seqs::lemma_filter_step(ts, p, k - 1);
        let before = ts.take(k - 1).filter(p);
        let now = ts.take(k).filter(p);
        assert forall|i: int| 0 <= i < now.len() implies exists|x: int|
            0 <= x < k && ts[x] == #[trigger] now[i] by {
            if i < before.len() {
                assert(now[i] == before[i]);
                let x = choose|x: int| 0 <= x < k - 1 && ts[x] == before[i];
                assert(ts[x] == now[i]);
            } else {
                assert(ts[k - 1] == now[i]);
            }
        }
        assert forall|i: int, j: int| 0 <= i < j < now.len() implies #[trigger] now[i].name
            != #[trigger] now[j].name by {
            if j < before.len() {
                assert(now[i] == before[i] && now[j] == before[j]);
            } else {
                assert(now[i] == before[i]);
                let x = choose|x: int| 0 <= x < k - 1 && ts[x] == before[i];
                assert(ts[x].name != ts[k - 1].name);
            }
        }
    }
}

/// A relation field that holds no fields of its own model.
pub open spec fn loose(f: FieldView) -> bool {
    f matches FieldView::RelationField(rf) && rf.relation_info.fields.len() == 0
}

/// Every field to add is loose.
pub open spec fn all_loose(extras: Seq<Extra>) -> bool {
    forall|x: int| 0 <= x < extras.len() ==> loose(FieldView::RelationField(#[trigger] extras[x].1))
}

proof fn lemma_backrelations_in_loose(s: SqlSchemaView, dm: DatamodelView, m: ModelView, k: int)
    ensures
        all_loose(backrelations_in(s, dm, m, k)),
    decreases k,
{
    if k > 0 {
        lemma_backrelations_in_loose(s, dm, m, k - 1);
    }
}

proof fn lemma_backrelations_loose(s: SqlSchemaView, dm: DatamodelView, n: int)
    ensures
        all_loose(backrelations(s, dm, n)),
    decreases n,
{
    if n > 0 {
        lemma_backrelations_loose(s, dm, n - 1);
        lemma_backrelations_in_loose(s, dm, dm.models[n - 1], dm.models[n - 1].fields.len() as int);
        let a = backrelations(s, dm, n - 1);
        let b = backrelations_in(s, dm, dm.models[n - 1], dm.models[n - 1].fields.len() as int);
        assert forall|x: int| 0 <= x < (a + b).len() implies loose(
            FieldView::RelationField(#[trigger] (a + b)[x].1),
        ) by {
            if x < a.len() {
                assert((a + b)[x] == a[x]);
            } else {
                assert((a + b)[x] == b[x - a.len()]);
            }
        }
    }
}

proof fn lemma_join_fields_loose(s: SqlSchemaView, n: int)
    ensures
        all_loose(join_fields(s, n)),
    decreases n,
{
    if n > 0 {
        lemma_join_fields_loose(s, n - 1);
    }
}

/// The model `after` is the model `before` with loose fields behind its own.
pub open spec fn grown(before: ModelView, after: ModelView) -> bool {
    &&& after == (ModelView { fields: after.fields, ..before })
    &&& after.fields.len() >= before.fields.len()
    &&& forall|j: int| 0 <= j < before.fields.len() ==> #[trigger] after.fields[j] == before.fields[j]
    &&& forall|j: int| before.fields.len() <= j < after.fields.len() ==> loose(#[trigger] after.fields[j])
}

/// Adding loose fields to models lets each model grow.
proof fn lemma_with_fields_grown(models: Seq<ModelView>, extras: Seq<Extra>, k: int)
    requires
        0 <= k <= extras.len(),
        all_loose(extras),
    ensures
        with_fields(models, extras, k).len() == models.len(),
        forall|i: int|
            0 <= i < models.len() ==> grown(models[i], #[trigger] with_fields(models, extras, k)[i]),
    decreases k,
{
    if k > 0 {
        lemma_with_fields_grown(models, extras, k - 1);
        let before = with_fields(models, extras, k - 1);
        let extra = extras[k - 1];
        assert(loose(FieldView::RelationField(extra.1)));
        lemma_position(before, model_named(extra.0));
        let after = with_field(before, extra);
        assert forall|i: int| 0 <= i < models.len() implies grown(models[i], #[trigger] after[i]) by {
            assert(grown(models[i], before[i]));
        }
    } else {
        assert forall|i: int| 0 <= i < models.len() implies grown(
            models[i],
            #[trigger] with_fields(models, extras, 0)[i],
        ) by {}
    }
}

/// The models of the data model that stands for a schema are the models
/// of its tables, with loose fields behind their own.
pub proof fn lemma_introspected_grown(s: SqlSchemaView, native_types: bool)
    ensures
        introspected(s, native_types).models.len() == models_of(s, native_types).len(),
        forall|i: int|
            0 <= i < models_of(s, native_types).len() ==> grown(
                models_of(s, native_types)[i],
                #[trigger] introspected(s, native_types).models[i],
            ),
{
    let models = models_of(s, native_types);
    let dm = DatamodelView { enums: crate::introspection::models::enums_of(s), models };
    let a = backrelations(s, dm, models.len() as int);
    let b = join_fields(s, s.tables.len() as int);
    lemma_backrelations_loose(s, dm, models.len() as int);
    lemma_join_fields_loose(s, s.tables.len() as int);
    assert forall|x: int| 0 <= x < (a + b).len() implies loose(
        FieldView::RelationField(#[trigger] (a + b)[x].1),
    ) by {
        if x < a.len() {
            assert((a + b)[x] == a[x]);
        } else {
            assert((a + b)[x] == b[x - a.len()]);
        }
    }
    lemma_with_fields_grown(models, a + b, (a + b).len() as int);
}

/// What the relation field of a translated model says of its relation,
/// given the relation field of the model before its names were made valid.
pub open spec fn translated_relation(
    dm: DatamodelView,
    m: ModelView,
    rf: RelationFieldView,
    y: RelationFieldView,
) -> bool {
    &&& y.relation_info.to == renamed(
        dm.models.map_values(model_name()),
        model_news(dm),
        rf.relation_info.to,
    )
    &&& y.relation_info.fields == rf.relation_info.fields.map_values(
        all_renamed(olds_of(m), news_of(m)),
    )
    &&& y.relation_info.name == rf.relation_info.name
}

/// What the field of a translated model says, given the field of the
/// model before its names were made valid: a scalar field stands for the
/// column of the name that the field had, a relation field holds the same
/// relation under the new names.
pub open spec fn translated_field(dm: DatamodelView, m: ModelView, f: FieldView, t: FieldView) -> bool {
    match f {
        FieldView::ScalarField(sf) => t matches FieldView::ScalarField(x) && (sf.database_name
            is None ==> column_of(x) == sf.name),
        FieldView::RelationField(rf) => t matches FieldView::RelationField(y)
            && translated_relation(dm, m, rf, y),
    }
}

/// The models of a data model whose names were made valid and whose
/// relation fields were told apart stand for the tables that the models
/// were named after, and their fields say what the fields said.
pub proof fn lemma_translated(dm: DatamodelView, i: int)
    requires
        0 <= i < dm.models.len(),
    ensures
        deduplicated(sanitized_datamodel(dm)).models.len() == dm.models.len(),
        dm.models[i].database_name is None ==> table_of(
            deduplicated(sanitized_datamodel(dm)).models[i],
        ) == dm.models[i].name,
        deduplicated(sanitized_datamodel(dm)).models[i].fields.len() == dm.models[i].fields.len(),
        forall|j: int|
            0 <= j < dm.models[i].fields.len() ==> translated_field(
                dm,
                dm.models[i],
                dm.models[i].fields[j],
                #[trigger] deduplicated(sanitized_datamodel(dm)).models[i].fields[j],
            ),
{
    let m = dm.models[i];
    let sm = sanitized_datamodel(dm).models[i];
    assert(sm == sanitized_model(dm, i));
    let t = deduplicated(sanitized_datamodel(dm)).models[i];
    assert(t == deduplicated_model(sm));
    assert forall|j: int| 0 <= j < m.fields.len() implies translated_field(
        dm,
        m,
        m.fields[j],
        #[trigger] t.fields[j],
    ) by {
        assert(sm.fields[j] == sanitized_field(dm, m, j));
        assert(t.fields[j] == deduplicated_field(sm, j));
    }
}

/// Whether a field is the relation field that stands for a foreign key of
/// the table which points to a model.
pub open spec fn from_key(s: SqlSchemaView, t: TableView, f: FieldView) -> bool {
    exists|x: int|
        0 <= x < t.foreign_keys.len() && points_to_model(s, #[trigger] t.foreign_keys[x]) && f
            == FieldView::RelationField(relation_field_of(s, t, t.foreign_keys[x]))
}

/// Every relation field of a table stands for one of its foreign keys.
proof fn lemma_relation_fields_from_keys(s: SqlSchemaView, t: TableView, k: int)
    requires
        0 <= k <= t.foreign_keys.len(),
    ensures
        forall|j: int|
            0 <= j < relation_fields_of(s, t, k).len() ==> from_key(
                s,
                t,
                #[trigger] relation_fields_of(s, t, k)[j],
            ),
    decreases k,
{
    if k > 0 {
        lemma_relation_fields_from_keys(s, t, k - 1);
        let before = relation_fields_of(s, t, k - 1);
        let now = relation_fields_of(s, t, k);
        assert forall|j: int| 0 <= j < now.len() implies from_key(s, t, #[trigger] now[j]) by {
            if j < before.len() {
                assert(now[j] == before[j]);
            } else {
                assert(points_to_model(s, t.foreign_keys[k - 1]));
            }
        }
    }
}

/// The fields of the model of a table: a scalar field for each column,
/// under the name of the column, and behind these the relation fields
/// that stand for its foreign keys.
pub proof fn lemma_model_of_fields(s: SqlSchemaView, t: TableView, native_types: bool)
    ensures
        model_of(s, t, native_types).name == t.name,
        model_of(s, t, native_types).database_name is None,
        model_of(s, t, native_types).fields.len() >= t.columns.len(),
        forall|j: int|
            0 <= j < t.columns.len() ==> (#[trigger] model_of(
                s,
                t,
                native_types,
            ).fields[j] matches FieldView::ScalarField(sf) && sf.name == t.columns[j].name
                && sf.database_name is None),
        forall|j: int|
            t.columns.len() <= j < model_of(s, t, native_types).fields.len() ==> from_key(
                s,
                t,
                #[trigger] model_of(s, t, native_types).fields[j],
            ),
{
    let m = model_of(s, t, native_types);
    let scalars = t.columns.map_values(scalar_of(t, native_types));
    let rest = relation_fields_of(s, t, t.foreign_keys.len() as int);
    lemma_relation_fields_from_keys(s, t, t.foreign_keys.len() as int);
    assert forall|j: int| 0 <= j < t.columns.len() implies (#[trigger] m.fields[j]
        matches FieldView::ScalarField(sf) && sf.name == t.columns[j].name && sf.database_name
        is None) by {
        assert(m.fields[j] == scalars[j]);
    }
    assert forall|j: int| t.columns.len() <= j < m.fields.len() implies from_key(
        s,
        t,
        #[trigger] m.fields[j],
    ) by {
        assert(m.fields[j] == rest[j - t.columns.len()]);
    }
}

/// What is known of the model at a place of the data model that stands
/// for a coherent schema: the table that it stands for, and which of its
/// fields are its own.
pub proof fn lemma_introspected_model(s: SqlSchemaView, native_types: bool, i: int)
    requires
        coherent(s),
        0 <= i < introspected(s, native_types).models.len(),
    ensures
        i < model_tables(s).len(),
        s.tables.contains(model_tables(s)[i]),
        model_table(model_tables(s)[i]),
        coherent_table(model_tables(s)[i]),
        grown(
            model_of(s, model_tables(s)[i], native_types),
            introspected(s, native_types).models[i],
        ),
        introspected(s, native_types).models[i].name == model_tables(s)[i].name,
        introspected(s, native_types).models[i].database_name is None,
{
    lemma_introspected_grown(s, native_types);
    lemma_model_tables(s);
    let t = model_tables(s)[i];
    assert(models_of(s, native_types)[i] == model_of(s, t, native_types));
    lemma_model_of_fields(s, t, native_types);
    assert(grown(models_of(s, native_types)[i], introspected(s, native_types).models[i]));
}

/// In the translation of a coherent schema no two models stand for the
/// same table, and no two scalar fields of a model for the same column.
pub proof fn lemma_tables_and_columns_settled(s: SqlSchemaView, native_types: bool)
    requires
        coherent(s),
    ensures
        forall|i: int, j: int|
            0 <= i < translation(s, native_types).models.len() && 0 <= j < translation(
                s,
                native_types,
            ).models.len() && table_of(#[trigger] translation(s, native_types).models[i])
                == table_of(#[trigger] translation(s, native_types).models[j]) ==> i == j,
        forall|i: int, a: int, b: int|
            0 <= i < translation(s, native_types).models.len() && 0 <= a < translation(
                s,
                native_types,
            ).models[i].fields.len() && 0 <= b < translation(s, native_types).models[i].fields.len()
                && same_column(
                #[trigger] translation(s, native_types).models[i].fields[a],
                #[trigger] translation(s, native_types).models[i].fields[b],
            ) ==> a == b,
{
    let dm = introspected(s, native_types);
    let tr = translation(s, native_types);
    lemma_model_tables(s);
    assert forall|i: int, j: int|
        0 <= i < tr.models.len() && 0 <= j < tr.models.len() && table_of(#[trigger] tr.models[i])
            == table_of(#[trigger] tr.models[j]) implies i == j by {
        lemma_translated(dm, i);
        lemma_translated(dm, j);
        lemma_introspected_model(s, native_types, i);
        lemma_introspected_model(s, native_types, j);
        if i < j {
            assert(model_tables(s)[i].name != model_tables(s)[j].name);
        } else if j < i {
            assert(model_tables(s)[j].name != model_tables(s)[i].name);
        }
    }
    assert forall|i: int, a: int, b: int|
        0 <= i < tr.models.len() && 0 <= a < tr.models[i].fields.len() && 0 <= b
            < tr.models[i].fields.len() && same_column(
            #[trigger] tr.models[i].fields[a],
            #[trigger] tr.models[i].fields[b],
        ) implies a == b by {
        lemma_translated(dm, i);
        lemma_introspected_model(s, native_types, i);
        let t = model_tables(s)[i];
        let m0 = model_of(s, t, native_types);
        let m = dm.models[i];
        lemma_model_of_fields(s, t, native_types);
        lemma_own_scalar(s, t, native_types, m, a);
        lemma_own_scalar(s, t, native_types, m, b);
        assert(translated_field(dm, m, m.fields[a], tr.models[i].fields[a]));
        assert(translated_field(dm, m, m.fields[b], tr.models[i].fields[b]));
        if a < b {
            assert(t.columns[a].name != t.columns[b].name);
        } else if b < a {
            assert(t.columns[b].name != t.columns[a].name);
        }
    }
}

/// A scalar field of a model that grew from the model of a table stands
/// at the place of a column of the table and bears its name.
proof fn lemma_own_scalar(s: SqlSchemaView, t: TableView, native_types: bool, m: ModelView, a: int)
    requires
        grown(model_of(s, t, native_types), m),
        0 <= a < m.fields.len(),
        m.fields[a] is ScalarField,
    ensures
        a < t.columns.len(),
        m.fields[a] matches FieldView::ScalarField(sf) && sf.name == t.columns[a].name
            && sf.database_name is None,
{
    let m0 = model_of(s, t, native_types);
    lemma_model_of_fields(s, t, native_types);
    if a >= m0.fields.len() {
        assert(loose(m.fields[a]));
    } else {
        assert(m.fields[a] == m0.fields[a]);
        if a >= t.columns.len() {
            assert(from_key(s, t, m0.fields[a]));
        }
    }
}

/// A foreign key that points to a model points to one of the tables that
/// stand for models.
proof fn lemma_pointed_model(s: SqlSchemaView, fk: ForeignKeyView) -> (p: int)
    requires
        points_to_model(s, fk),
    ensures
        0 <= p < model_tables(s).len(),
        model_tables(s)[p].name == fk.referenced_table,
{
    lemma_position(s.tables, table_named(fk.referenced_table));
    let x = position(s.tables, table_named(fk.referenced_table))->0;
    s.tables.lemma_filter_contains(stands_for_model(), x);
    let p = choose|p: int| 0 <= p < model_tables(s).len() && model_tables(s)[p] == s.tables[x];
    p
}

/// The new name of the model of a table is what a reference to the table
/// is renamed to.
proof fn lemma_renamed_model(s: SqlSchemaView, native_types: bool, p: int)
    requires
        coherent(s),
        0 <= p < model_tables(s).len(),
    ensures
        p < introspected(s, native_types).models.len(),
        model_news(introspected(s, native_types)).len() == introspected(s, native_types).models.len(),
        renamed(
            introspected(s, native_types).models.map_values(model_name()),
            model_news(introspected(s, native_types)),
            model_tables(s)[p].name,
        ) == model_news(introspected(s, native_types))[p],
{
    let dm = introspected(s, native_types);
    let olds = dm.models.map_values(model_name());
    let name = model_tables(s)[p].name;
    lemma_introspected_grown(s, native_types);
    lemma_model_tables(s);
    lemma_new_names_upto(olds, Seq::empty(), dm.models.len() as int, 0);
    assert forall|q: int| 0 <= q <= p implies olds[q] == model_tables(s)[q].name by {
        lemma_introspected_model(s, native_types, q);
    }
    assert forall|q: int| 0 <= q < p implies !is_name(name)(#[trigger] olds[q]) by {
        assert(model_tables(s)[q].name != model_tables(s)[p].name);
    }
    lemma_position_is(olds, is_name(name), p);
}

/// The new names of the models of two different tables differ.
proof fn lemma_model_news_differ(s: SqlSchemaView, native_types: bool, p: int, q: int)
    requires
        coherent(s),
        0 <= p < model_tables(s).len(),
        0 <= q < model_tables(s).len(),
        p != q,
    ensures
        model_news(introspected(s, native_types))[p] != model_news(
            introspected(s, native_types),
        )[q],
{
    let dm = introspected(s, native_types);
    let olds = dm.models.map_values(model_name());
    lemma_introspected_grown(s, native_types);
    lemma_model_tables(s);
    lemma_introspected_model(s, native_types, p);
    lemma_introspected_model(s, native_types, q);
    if p < q {
        lemma_new_names_differ(olds, Seq::empty(), dm.models.len() as int, p, q);
    } else {
        lemma_new_names_differ(olds, Seq::empty(), dm.models.len() as int, q, p);
    }
}

/// The new name of the field of a column is what a reference to the
/// column is renamed to.
proof fn lemma_renamed_column(
    s: SqlSchemaView,
    t: TableView,
    native_types: bool,
    m: ModelView,
    q: int,
)
    requires
        coherent_table(t),
        grown(model_of(s, t, native_types), m),
        0 <= q < t.columns.len(),
    ensures
        q < m.fields.len(),
        news_of(m).len() == m.fields.len(),
        renamed(olds_of(m), news_of(m), t.columns[q].name) == news_of(m)[q],
{
    let olds = olds_of(m);
    let name = t.columns[q].name;
    lemma_model_of_fields(s, t, native_types);
    lemma_field_names_upto(m.fields, m.fields.len() as int, 0);
    let m0 = model_of(s, t, native_types);
    assert forall|x: int| 0 <= x <= q implies olds[x] == t.columns[x].name by {
        assert(m.fields[x] == m0.fields[x]);
    }
    assert forall|x: int| 0 <= x < q implies !is_name(name)(#[trigger] olds[x]) by {
        assert(t.columns[x].name != t.columns[q].name);
    }
    lemma_position_is(olds, is_name(name), q);
}

/// The new names of the fields of two different columns differ.
proof fn lemma_column_news_differ(
    s: SqlSchemaView,
    t: TableView,
    native_types: bool,
    m: ModelView,
    p: int,
    q: int,
)
    requires
        coherent_table(t),
        grown(model_of(s, t, native_types), m),
        0 <= p < t.columns.len(),
        0 <= q < t.columns.len(),
        p != q,
    ensures
        news_of(m)[p] != news_of(m)[q],
{
    lemma_model_of_fields(s, t, native_types);
    let m0 = model_of(s, t, native_types);
    assert(m.fields[p] == m0.fields[p]);
    assert(m.fields[q] == m0.fields[q]);
    assert(has_letter(t.columns[p].name));
    assert(has_letter(t.columns[q].name));
    if p < q {
        lemma_field_names_differ(m.fields, m.fields.len() as int, p, q);
    } else {
        lemma_field_names_differ(m.fields, m.fields.len() as int, q, p);
    }
}

/// The place of a column that a table has.
proof fn lemma_column_place(t: TableView, name: Seq<char>) -> (q: int)
    requires
        t.has_column(name),
    ensures
        0 <= q < t.columns.len(),
        t.columns[q].name == name,
{
    lemma_position(t.columns, column_named(name));
    position(t.columns, column_named(name))->0
}

/// Two foreign keys of a table of the schema that constrain the same
/// columns and point to the same table stand for relations of the same
/// name.
proof fn lemma_same_relation_name(s: SqlSchemaView, t: TableView, x: int, y: int)
    requires
        s.tables.contains(t),
        0 <= x < t.foreign_keys.len(),
        0 <= y < t.foreign_keys.len(),
        t.foreign_keys[x].referenced_table == t.foreign_keys[y].referenced_table,
        t.foreign_keys[x].columns == t.foreign_keys[y].columns,
    ensures
        relation_name_of(s, t, t.foreign_keys[x]) == relation_name_of(s, t, t.foreign_keys[y]),
{
    let a = t.foreign_keys[x];
    let b = t.foreign_keys[y];
    let ti = choose|ti: int| 0 <= ti < s.tables.len() && s.tables[ti] == t;
    if a.identity() == b.identity() {
        assert forall|h: TableView| #[trigger] holds_rival(t.name, a)(h) == holds_rival(t.name, b)(
            h,
        ) by {
            lemma_any_same(h.foreign_keys, is_rival(h.name, t.name, a), is_rival(h.name, t.name, b));
        }
        lemma_any_same(s.tables, holds_rival(t.name, a), holds_rival(t.name, b));
    } else {
        assert(is_rival(t.name, t.name, a)(b));
        assert(is_rival(t.name, t.name, b)(a));
        lemma_position(t.foreign_keys, is_rival(t.name, t.name, a));
        lemma_position(t.foreign_keys, is_rival(t.name, t.name, b));
        assert(holds_rival(t.name, a)(t));
        assert(holds_rival(t.name, b)(t));
        lemma_position(s.tables, holds_rival(t.name, a));
        lemma_position(s.tables, holds_rival(t.name, b));
    }
}

/// Two properties that hold of the same things of a list are found in
/// the list alike.
proof fn lemma_any_same<T>(xs: Seq<T>, p: spec_fn(T) -> bool, q: spec_fn(T) -> bool)
    requires
        forall|i: int| 0 <= i < xs.len() ==> p(#[trigger] xs[i]) == q(xs[i]),
    ensures
        any(xs, p) == any(xs, q),
{
    lemma_position(xs, p);
    lemma_position(xs, q);
    if position(xs, p) is Some {
        let i = position(xs, p)->0;
        assert(q(xs[i]));
    }
    if position(xs, q) is Some {
        let i = position(xs, q)->0;
        assert(p(xs[i]));
    }
}

/// What is known of a relation field of a translated model that holds
/// fields of its own model: the foreign key that it stands for.
proof fn lemma_own_relation(
    s: SqlSchemaView,
    native_types: bool,
    i: int,
    a: int,
) -> (x: int)
    requires
        coherent(s),
        0 <= i < translation(s, native_types).models.len(),
        0 <= a < translation(s, native_types).models[i].fields.len(),
        translation(s, native_types).models[i].fields[a] matches FieldView::RelationField(y)
            && y.relation_info.fields.len() > 0,
    ensures
        i < model_tables(s).len(),
        0 <= x < model_tables(s)[i].foreign_keys.len(),
        points_to_model(s, model_tables(s)[i].foreign_keys[x]),
        a < introspected(s, native_types).models[i].fields.len(),
        introspected(s, native_types).models[i].fields[a] == FieldView::RelationField(
            relation_field_of(s, model_tables(s)[i], model_tables(s)[i].foreign_keys[x]),
        ),
        translation(s, native_types).models[i].fields[a] matches FieldView::RelationField(y)
            && translated_relation(
            introspected(s, native_types),
            introspected(s, native_types).models[i],
            relation_field_of(s, model_tables(s)[i], model_tables(s)[i].foreign_keys[x]),
            y,
        ),
{
    let dm = introspected(s, native_types);
    let tr = translation(s, native_types);
    lemma_translated(dm, i);
    lemma_introspected_model(s, native_types, i);
    let t = model_tables(s)[i];
    let m0 = model_of(s, t, native_types);
    let m = dm.models[i];
    lemma_model_of_fields(s, t, native_types);
    assert(translated_field(dm, m, m.fields[a], tr.models[i].fields[a]));
    let rf = m.fields[a]->RelationField_0;
    let y = tr.models[i].fields[a]->RelationField_0;
    assert(y.relation_info.fields.len() == rf.relation_info.fields.len());
    if a >= m0.fields.len() {
        assert(loose(m.fields[a]));
    }
    assert(m.fields[a] == m0.fields[a]);
    if a < t.columns.len() {
        assert(m0.fields[a] is ScalarField);
    }
    assert(from_key(s, t, m0.fields[a]));
    let x = choose|x: int|
        0 <= x < t.foreign_keys.len() && points_to_model(s, #[trigger] t.foreign_keys[x])
            && m0.fields[a] == FieldView::RelationField(relation_field_of(s, t, t.foreign_keys[x]));
    x
}

/// In the translation of a coherent schema, two relation fields of a
/// model that hold, in the same fields, a relation to the same model,
/// hold the same relation.
pub proof fn lemma_relations_settled(s: SqlSchemaView, native_types: bool, i: int, a: int, b: int)
    requires
        coherent(s),
        0 <= i < translation(s, native_types).models.len(),
        0 <= a < translation(s, native_types).models[i].fields.len(),
        0 <= b < translation(s, native_types).models[i].fields.len(),
    ensures
        one_relation(
            translation(s, native_types).models[i].fields[a],
            translation(s, native_types).models[i].fields[b],
        ),
{
    let dm = introspected(s, native_types);
    let tr = translation(s, native_types);
    match (tr.models[i].fields[a], tr.models[i].fields[b]) {
        (FieldView::RelationField(ya), FieldView::RelationField(yb)) => {
            if ya.relation_info.fields.len() > 0 && ya.relation_info.to == yb.relation_info.to
                && ya.relation_info.fields == yb.relation_info.fields {
                let x = lemma_own_relation(s, native_types, i, a);
                let y = lemma_own_relation(s, native_types, i, b);
                lemma_introspected_model(s, native_types, i);
                lemma_model_tables(s);
                let t = model_tables(s)[i];
                let m = dm.models[i];
                let fa = t.foreign_keys[x];
                let fb = t.foreign_keys[y];
                // The two keys point to the same table.
                let pa = lemma_pointed_model(s, fa);
                let pb = lemma_pointed_model(s, fb);
                lemma_renamed_model(s, native_types, pa);
                lemma_renamed_model(s, native_types, pb);
                if pa != pb {
                    lemma_model_news_differ(s, native_types, pa, pb);
                }
                assert(fa.referenced_table == fb.referenced_table);
                // The two keys constrain the same columns.
                let olds = olds_of(m);
                let news = news_of(m);
                let ra = fa.columns.map_values(all_renamed(olds, news));
                let rb = fb.columns.map_values(all_renamed(olds, news));
                assert(ra == rb);
                assert(fa.columns.len() == fb.columns.len());
                assert forall|z: int| 0 <= z < fa.columns.len() implies fa.columns[z]
                    == fb.columns[z] by {
                    assert(t.has_column(t.foreign_keys[x].columns[z]));
                    assert(t.has_column(t.foreign_keys[y].columns[z]));
                    let qa = lemma_column_place(t, fa.columns[z]);
                    let qb = lemma_column_place(t, fb.columns[z]);
                    lemma_renamed_column(s, t, native_types, m, qa);
                    lemma_renamed_column(s, t, native_types, m, qb);
                    assert(ra[z] == renamed(olds, news, fa.columns[z]));
                    assert(rb[z] == renamed(olds, news, fb.columns[z]));
                    if qa != qb {
                        lemma_column_news_differ(s, t, native_types, m, qa, qb);
                    }
                }
                assert(fa.columns =~= fb.columns);
                lemma_same_relation_name(s, t, x, y);
            }
        },
        _ => {},
    }
}

/// The translation of a coherent schema is settled.
pub proof fn lemma_translation_settled(s: SqlSchemaView, native_types: bool)
    requires
        coherent(s),
    ensures
        settled(translation(s, native_types)),
{
    let tr = translation(s, native_types);
    lemma_tables_and_columns_settled(s, native_types);
    assert forall|i: int| 0 <= i < tr.models.len() implies settled_model(#[trigger] tr.models[i]) by {
        let n = tr.models[i];
        assert forall|a: int, b: int|
            0 <= a < n.fields.len() && 0 <= b < n.fields.len() implies one_relation(
            #[trigger] n.fields[a],
            #[trigger] n.fields[b],
        ) by {
            lemma_relations_settled(s, native_types, i, a, b);
        }
    }
}

/// Calculating a data model again from the same schema, with the result
/// of the first calculation as the earlier data model, gives the same
/// data model, the same version and the same warnings, for every
/// coherent schema.
pub proof fn lemma_reintrospection_idempotent(
    schema: SqlSchemaView,
    family: SqlFamily,
    native_types: bool,
)
    requires
        coherent(schema),
    ensures
        calculated(
            schema,
            family,
            calculated(schema, family, nothing_earlier(), native_types).data_model,
            native_types,
        ) == calculated(schema, family, nothing_earlier(), native_types),
{
    lemma_translation_settled(schema, native_types);
    lemma_calculated_again(schema, family, native_types);
}

} // verus!
