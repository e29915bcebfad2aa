//! The fields that a relation puts on the model it points to, and the
//! fields that stand for join tables.

use crate::dml::lookup::model_named;
use crate::dml::{
    DatamodelView, Field, FieldArity, FieldView, Model, ModelView, OnDeleteStrategy, RelationField,
    RelationFieldView, RelationInfo, RelationInfoView,
};
use crate::introspection::models::{enums_of, models_of};
use crate::introspection::tables::join_table;
use crate::seqs::{any, lemma_position_is, lemma_position_none, position};
use crate::sql_schema::{
    ForeignKey, ForeignKeyView, Index, IndexType, IndexView, SqlSchema, SqlSchemaView, Table,
    TableView,
};
use crate::text::{concat, names_clone, names_contain, str_eq};
use vstd::prelude::*;
use vstd::string::*;

verus! {

/// A field to add to the model of the given name.
pub type Extra = (Seq<char>, RelationFieldView);

/// The names that are not among `fields`.
pub open spec fn not_among(fields: Seq<Seq<char>>) -> spec_fn(Seq<char>) -> bool {
    |c: Seq<char>| !fields.contains(c)
}

/// The unique indexes over as many columns as there are `fields`, all of
/// them among `fields`.
pub open spec fn covers(fields: Seq<Seq<char>>) -> spec_fn(IndexView) -> bool {
    |i: IndexView|
        i.tpe == IndexType::Unique && i.columns.len() == fields.len() && !any(
            i.columns,
            not_among(fields),
        )
}

/// Whether the columns that hold a relation are unique together, so that
/// at most one record points to any record.
pub open spec fn points_back_unique(t: TableView, info: RelationInfoView) -> bool {
    if info.fields.len() == 1 {
        t.is_column_unique(info.fields[0])
    } else {
        any(t.indices, covers(info.fields))
    }
}

/// The field that stands opposite the relation field `rf` of the model
/// `m`, on the model that `rf` points to. It bears the name of `m`; where
/// that would be the name of `rf` itself, `other_` stands before it. It
/// holds a list unless the relation can point back to one record only.
pub open spec fn backrelation_of(
    schema: SqlSchemaView,
    m: ModelView,
    rf: RelationFieldView,
) -> RelationFieldView {
    let unique = match schema.table(m.name) {
        Some(t) => points_back_unique(t, rf.relation_info),
        None => false,
    };
    RelationFieldView {
        name: if m.name == rf.relation_info.to && rf.name == m.name {
            "other_"@ + m.name
        } else {
            m.name
        },
        relation_info: RelationInfoView {
            to: m.name,
            fields: Seq::empty(),
            to_fields: Seq::empty(),
            name: rf.relation_info.name,
            on_delete: OnDeleteStrategy::NoStrategy,
        },
        arity: if rf.arity == FieldArity::List || unique {
            FieldArity::Optional
        } else {
            FieldArity::List
        },
        documentation: None,
        is_generated: false,
        is_commented_out: false,
    }
}

/// Whether a relation field has no field opposite it yet, on a model that
/// is there.
pub open spec fn lacks_opposite(dm: DatamodelView, m: ModelView, rf: RelationFieldView) -> bool {
    dm.find_related_field(m.name, rf.name, rf.relation_info) is None && dm.find_model(
        rf.relation_info.to,
    ) is Some
}

/// The fields to add for the relation fields among the first `k` fields of
/// a model.
pub open spec fn backrelations_in(schema: SqlSchemaView, dm: DatamodelView, m: ModelView, k: int) -> Seq<
    Extra,
>
    decreases k,
{
    if k <= 0 {
        Seq::empty()
    } else {
        let before = backrelations_in(schema, dm, m, k - 1);
        match m.fields[k - 1] {
            FieldView::RelationField(rf) => if lacks_opposite(dm, m, rf) {
                before.push((rf.relation_info.to, backrelation_of(schema, m, rf)))
            } else {
                before
            },
            FieldView::ScalarField(_) => before,
        }
    }
}

/// The fields to add for the relation fields of the first `n` models.
pub open spec fn backrelations(schema: SqlSchemaView, dm: DatamodelView, n: int) -> Seq<Extra>
    decreases n,
{
    if n <= 0 {
        Seq::empty()
    } else {
        backrelations(schema, dm, n - 1) + backrelations_in(
            schema,
            dm,
            dm.models[n - 1],
            dm.models[n - 1].fields.len() as int,
        )
    }
}

/// The field that a join table puts on one of the two models it joins:
/// a list of the model that the opposite foreign key points to.
pub open spec fn many_to_many_field(
    opposite: ForeignKeyView,
    relation_name: Seq<char>,
    is_self_relation: bool,
) -> RelationFieldView {
    RelationFieldView {
        name: if is_self_relation {
            opposite.referenced_table + "_"@ + opposite.columns[0]
        } else {
            opposite.referenced_table
        },
        relation_info: RelationInfoView {
            to: opposite.referenced_table,
            fields: Seq::empty(),
            to_fields: opposite.referenced_columns,
            name: relation_name,
            on_delete: OnDeleteStrategy::NoStrategy,
        },
        arity: FieldArity::List,
        documentation: None,
        is_generated: false,
        is_commented_out: false,
    }
}

/// The fields to add for the join tables among the first `n` tables: two
/// for each, named after the table without the underscore at its start.
pub open spec fn join_fields(schema: SqlSchemaView, n: int) -> Seq<Extra>
    decreases n,
{
    if n <= 0 {
        Seq::empty()
    } else {
        let before = join_fields(schema, n - 1);
        let t = schema.tables[n - 1];
        if join_table(t) {
            let f = t.foreign_keys[0];
            let s = t.foreign_keys[1];
            let name = t.name.subrange(1, t.name.len() as int);
            let is_self = f.referenced_table == s.referenced_table;
            before.push((s.referenced_table, many_to_many_field(f, name, is_self))).push(
                (f.referenced_table, many_to_many_field(s, name, is_self)),
            )
        } else {
            before
        }
    }
}

/// The models with the field added to the first model of the given name,
/// behind the fields that are there; the models as they are where no model
/// has that name.
pub open spec fn with_field(models: Seq<ModelView>, extra: Extra) -> Seq<ModelView> {
    match position(models, model_named(extra.0)) {
        Some(i) => models.update(
            i,
            ModelView {
                fields: models[i].fields.push(FieldView::RelationField(extra.1)),
                ..models[i]
            },
        ),
        None => models,
    }
}

/// The models with the first `k` of the fields added, one after the other.
pub open spec fn with_fields(models: Seq<ModelView>, extras: Seq<Extra>, k: int) -> Seq<ModelView>
    decreases k,
{
    if k <= 0 {
        models
    } else {
        with_field(with_fields(models, extras, k - 1), extras[k - 1])
    }
}

/// The data model that stands for a schema: a model for each table that
/// stands for one, a relation field for each foreign key, a field opposite
/// each relation field, and two fields for each join table.
pub open spec fn introspected(schema: SqlSchemaView, native_types: bool) -> DatamodelView {
    let models = models_of(schema, native_types);
    let enums = enums_of(schema);
    let dm = DatamodelView { enums, models };
    let extras = backrelations(schema, dm, models.len() as int) + join_fields(
        schema,
        schema.tables.len() as int,
    );
    DatamodelView { enums, models: with_fields(models, extras, extras.len() as int) }
}

#[verifier::loop_isolation(false)]
fn index_covers(index: &Index, fields: &Vec<String>) -> (r: bool)
    ensures
        r == covers(fields.deep_view())(index.deep_view()),
{
    if !(index.tpe.is_unique() && index.columns.len() == fields.len()) {
        return false;
    }
    let ghost p = not_among(fields.deep_view());
    let mut i: usize = 0;
    while i < index.columns.len()
        invariant
            i <= index.columns.len(),
            forall|j: int| 0 <= j < i ==> !p(#[trigger] index.deep_view().columns[j]),
        decreases index.columns.len() - i,
    {
        assert(index.deep_view().columns[i as int] == index.columns[i as int]@);
        if !names_contain(fields, index.columns[i].as_str()) {
            proof {
                lemma_position_is(index.deep_view().columns, p, i as int);
            }
            return false;
        }
        i = i + 1;
    }
    proof {
        lemma_position_none(index.deep_view().columns, p);
    }
    true
}

#[verifier::loop_isolation(false)]
fn other_is_unique(table: &Table, info: &RelationInfo) -> (r: bool)
    ensures
        r == points_back_unique(table.deep_view(), info.deep_view()),
{
    if info.fields.len() == 1 {
        assert(info.deep_view().fields[0] == info.fields[0]@);
        return table.is_column_unique(info.fields[0].as_str());
    }
    let ghost p = covers(info.deep_view().fields);
    let mut i: usize = 0;
    while i < table.indices.len()
        invariant
            i <= table.indices.len(),
            forall|j: int| 0 <= j < i ==> !p(#[trigger] table.deep_view().indices[j]),
        decreases table.indices.len() - i,
    {
        if index_covers(&table.indices[i], &info.fields) {
            proof {
                lemma_position_is(table.deep_view().indices, p, i as int);
            }
            return true;
        }
        i = i + 1;
    }
    proof {
        lemma_position_none(table.deep_view().indices, p);
    }
    false
}

/// The field that stands opposite a relation field.
pub fn calculate_backrelation_field(
    schema: &SqlSchema,
    model: &Model,
    relation_field: &RelationField,
) -> (r: RelationField)
    ensures
        r.deep_view() == backrelation_of(
            schema.deep_view(),
            model.deep_view(),
            relation_field.deep_view(),
        ),
{
    let info: &RelationInfo = &relation_field.relation_info;
    let unique: bool = match schema.get_table(model.name.as_str()) {
        Some(table) => other_is_unique(table, info),
        None => false,
    };
    let new_relation_info = RelationInfo {
        name: info.name.clone(),
        to: model.name.clone(),
        fields: Vec::new(),
        to_fields: Vec::new(),
        on_delete: OnDeleteStrategy::NoStrategy,
    };
    assert(new_relation_info.fields.deep_view() =~= Seq::empty());
    assert(new_relation_info.to_fields.deep_view() =~= Seq::empty());
    let arity: FieldArity = if relation_field.is_list() || unique {
        FieldArity::Optional
    } else {
        FieldArity::List
    };
    let name: String = if model.name == info.to && relation_field.name == model.name {
        concat("other_", model.name.as_str())
    } else {
        model.name.clone()
    };
    RelationField::new(name.as_str(), arity, new_relation_info)
}

/// The field that a join table puts on one of the two models it joins.
pub fn calculate_many_to_many_field(
    opposite_foreign_key: &ForeignKey,
    relation_name: String,
    is_self_relation: bool,
) -> (r: RelationField)
    requires
        opposite_foreign_key.columns.len() > 0,
    ensures
        r.deep_view() == many_to_many_field(
            opposite_foreign_key.deep_view(),
            relation_name@,
            is_self_relation,
        ),
{
    let relation_info = RelationInfo {
        name: relation_name,
        fields: Vec::new(),
        to: opposite_foreign_key.referenced_table.clone(),
        to_fields: names_clone(&opposite_foreign_key.referenced_columns),
        on_delete: OnDeleteStrategy::NoStrategy,
    };
    assert(relation_info.fields.deep_view() =~= Seq::empty());
    assert(opposite_foreign_key.deep_view().columns[0] == opposite_foreign_key.columns[0]@);
    let name: String = if is_self_relation {
        let mut n: String = concat(opposite_foreign_key.referenced_table.as_str(), "_");
        n.append(opposite_foreign_key.columns[0].as_str());
        n
    } else {
        opposite_foreign_key.referenced_table.clone()
    };
    RelationField::new(name.as_str(), FieldArity::List, relation_info)
}

/// Adds a field to the first model of the given name.
#[verifier::loop_isolation(false)]
pub fn add_field_to(models: &mut Vec<Model>, name: &str, field: RelationField)
    ensures
        final(models).deep_view() == with_field(old(models).deep_view(), (name@, field.deep_view())),
{
    let ghost before = models.deep_view();
    let ghost fv = field.deep_view();
    let ghost p = model_named(name@);
    let mut i: usize = 0;
    while i < models.len()
        invariant
            i <= models.len(),
            models.deep_view() == before,
            p == model_named(name@),
            forall|j: int| 0 <= j < i ==> !p(#[trigger] before[j]),
        decreases models.len() - i,
    {
        if str_eq(models[i].name.as_str(), name) {
            proof {
                lemma_position_is(before, p, i as int);
            }
            let ghost v0 = models@;
            let mut model: Model = models.remove(i);
            let ghost v1 = models@;
            let ghost mv = model.deep_view();
            assert(mv == before[i as int]);
            model.add_field(Field::RelationField(field));
            let ghost m2 = model;
            models.insert(i, model);
            proof {
                let target = before.update(
                    i as int,
                    ModelView { fields: mv.fields.push(FieldView::RelationField(fv)), ..mv },
                );
                assert(models@ == v1.insert(i as int, m2));
                assert(models@.len() == v0.len());
                assert forall|j: int| 0 <= j < v0.len() implies #[trigger] models.deep_view()[j]
                    == target[j] by {
                    if j < i {
                        assert(models@[j] == v0[j]);
                        assert(before[j] == v0[j].deep_view());
                    } else if j == i {
                        assert(models@[j] == m2);
                    } else {
                        assert(models@[j] == v1[j - 1]);
                        assert(v1[j - 1] == v0[j]);
                        assert(before[j] == v0[j].deep_view());
                    }
                }
                assert(models.deep_view() =~= target);
            }
            return ;
        }
        i = i + 1;
    }
    proof {
        lemma_position_none(before, p);
    }
}

} // verus!
