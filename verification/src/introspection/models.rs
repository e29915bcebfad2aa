//! From tables to models, each by itself.

use crate::dml::{
    Datamodel, DatamodelView, Enum, EnumValue, EnumValueView, EnumView, Field, FieldView,
    IndexDefinition, IndexDefinitionView, Model, ModelView,
};
use crate::introspection::fields::{
    calculate_relation_field, calculate_scalar_field, relation_field_of, scalar_field_of,
};
use crate::introspection::tables::{is_model_table, model_table};
use crate::introspection::SqlFamily;
use crate::seqs::{lemma_filter_map_step, lemma_map_step};
use crate::sql_schema::{
    ForeignKey, ForeignKeyView, Index, IndexType, IndexView, SqlSchema, SqlSchemaView, Table,
    TableView,
};
use crate::text::names_clone;
use vstd::prelude::*;
use vstd::string::*;

verus! {

/// Whether an earlier foreign key of the list has the identity of the one at `i`.
pub open spec fn repeats_earlier(fks: Seq<ForeignKeyView>, i: int) -> bool {
    exists|j: int| 0 <= j < i && #[trigger] fks[j].identity() == fks[i].identity()
}

/// Whether the foreign key points to a table that stands for a model.
pub open spec fn points_to_model(schema: SqlSchemaView, fk: ForeignKeyView) -> bool {
    match schema.table(fk.referenced_table) {
        Some(t) => model_table(t),
        None => false,
    }
}

/// The relation fields that stand for the first `k` foreign keys of a
/// table: one for each key that points to a model and repeats no earlier key.
pub open spec fn relation_fields_of(schema: SqlSchemaView, t: TableView, k: int) -> Seq<FieldView>
    decreases k,
{
    if k <= 0 {
        Seq::empty()
    } else {
        let before = relation_fields_of(schema, t, k - 1);
        let fk = t.foreign_keys[k - 1];
        if repeats_earlier(t.foreign_keys, k - 1) || !points_to_model(schema, fk) {
            before
        } else {
            before.push(FieldView::RelationField(relation_field_of(schema, t, fk)))
        }
    }
}

/// The field that stands for a column of the table.
pub open spec fn scalar_of(t: TableView, native_types: bool) -> spec_fn(
    crate::sql_schema::ColumnView,
) -> FieldView {
    |c: crate::sql_schema::ColumnView| FieldView::ScalarField(scalar_field_of(t, c, native_types))
}

/// The indexes that a model shows as its own: all but the unique indexes
/// over a single column, which the field shows.
pub open spec fn model_level() -> spec_fn(IndexView) -> bool {
    |i: IndexView| !(i.columns.len() == 1 && i.tpe == IndexType::Unique)
}

/// The index of a model that stands for an index of a table.
pub open spec fn index_of() -> spec_fn(IndexView) -> IndexDefinitionView {
    |i: IndexView|
        IndexDefinitionView {
            name: Some(i.name),
            fields: i.columns,
            tpe: match i.tpe {
                IndexType::Unique => crate::dml::IndexType::Unique,
                IndexType::Normal => crate::dml::IndexType::Normal,
            },
        }
}

/// The model that stands for a table, before anything of another table is
/// added to it: the scalar fields in the order of the columns, then the
/// relation fields in the order of the foreign keys.
pub open spec fn model_of(schema: SqlSchemaView, t: TableView, native_types: bool) -> ModelView {
    ModelView {
        name: t.name,
        fields: t.columns.map_values(scalar_of(t, native_types)) + relation_fields_of(
            schema,
            t,
            t.foreign_keys.len() as int,
        ),
        documentation: None,
        database_name: None,
        is_embedded: false,
        indices: t.indices.filter(model_level()).map_values(index_of()),
        id_fields: if t.primary_key_columns().len() > 1 {
            t.primary_key_columns()
        } else {
            Seq::empty()
        },
        is_generated: false,
        is_commented_out: false,
    }
}

/// The tables that stand for models.
pub open spec fn stands_for_model() -> spec_fn(TableView) -> bool {
    |t: TableView| model_table(t)
}

/// The model that stands for a table of the schema.
pub open spec fn to_model(schema: SqlSchemaView, native_types: bool) -> spec_fn(TableView) -> ModelView {
    |t: TableView| model_of(schema, t, native_types)
}

/// The models that stand for the tables of a schema, in their order.
pub open spec fn models_of(schema: SqlSchemaView, native_types: bool) -> Seq<ModelView> {
    schema.tables.filter(stands_for_model()).map_values(to_model(schema, native_types))
}

/// The value of an enum that stands for a value of an enum of the database.
pub open spec fn to_value() -> spec_fn(Seq<char>) -> EnumValueView {
    |v: Seq<char>|
        EnumValueView { name: v, database_name: None, documentation: None, commented_out: false }
}

/// The enum that stands for an enum of the database.
pub open spec fn to_enum() -> spec_fn(crate::sql_schema::EnumView) -> EnumView {
    |e: crate::sql_schema::EnumView|
        EnumView {
            name: e.name,
            values: e.values.map_values(to_value()),
            documentation: None,
            database_name: None,
            commented_out: false,
        }
}

/// The enums that stand for the enums of a schema, in their order.
pub open spec fn enums_of(schema: SqlSchemaView) -> Seq<EnumView> {
    schema.enums.map_values(to_enum())
}

pub fn calculate_index(index: &Index) -> (r: IndexDefinition)
    ensures
        r.deep_view() == index_of()(index.deep_view()),
{
    IndexDefinition {
        name: Some(index.name.clone()),
        fields: names_clone(&index.columns),
        tpe: match index.tpe {
            IndexType::Unique => crate::dml::IndexType::Unique,
            IndexType::Normal => crate::dml::IndexType::Normal,
        },
    }
}

#[verifier::loop_isolation(false)]
fn is_repeated_key(fks: &Vec<ForeignKey>, i: usize) -> (r: bool)
    requires
        i < fks.len(),
    ensures
        r == repeats_earlier(fks.deep_view(), i as int),
{
    let mut j: usize = 0;
    while j < i
        invariant
            j <= i,
            forall|x: int|
                0 <= x < j ==> #[trigger] fks.deep_view()[x].identity() != fks.deep_view()[i as int].identity(),
        decreases i - j,
    {
        if fks[j] == fks[i] {
            assert(fks.deep_view()[j as int].identity() == fks.deep_view()[i as int].identity());
            return true;
        }
        j = j + 1;
    }
    false
}

fn refers_to_model(schema: &SqlSchema, fk: &ForeignKey) -> (r: bool)
    ensures
        r == points_to_model(schema.deep_view(), fk.deep_view()),
{
    match schema.get_table(fk.referenced_table.as_str()) {
        Some(t) => is_model_table(t),
        None => false,
    }
}

/// The model that stands for a table, before anything of another table is
/// added to it.
#[verifier::loop_isolation(false)]
pub fn calculate_model(
    schema: &SqlSchema,
    table: &Table,
    family: &SqlFamily,
    native_types: bool,
) -> (r: Model)
    ensures
        r.deep_view() == model_of(schema.deep_view(), table.deep_view(), native_types),
{
    let ghost sv = schema.deep_view();
    let ghost t = table.deep_view();
    let mut model: Model = Model::new(table.name.clone(), None);
    let ghost base = model.deep_view();
    let ghost f = scalar_of(t, native_types);
    let mut i: usize = 0;
    assert(t.columns.take(0).map_values(f) =~= Seq::empty());
    while i < table.columns.len()
        invariant
            i <= table.columns.len(),
            model.deep_view() == (ModelView { fields: t.columns.take(i as int).map_values(f), ..base }),
        decreases table.columns.len() - i,
    {
        proof {
            lemma_map_step(t.columns, f, i as int);
        }
        let field = calculate_scalar_field(table, &table.columns[i], family, native_types);
        model.add_field(Field::ScalarField(field));
        i = i + 1;
    }
    assert(t.columns.take(i as int) =~= t.columns);
    let ghost scalars = t.columns.map_values(f);
    let mut k: usize = 0;
    assert(scalars + relation_fields_of(sv, t, 0) =~= scalars);
    while k < table.foreign_keys.len()
        invariant
            k <= table.foreign_keys.len(),
            model.deep_view() == (ModelView {
                fields: scalars + relation_fields_of(sv, t, k as int),
                ..base
            }),
        decreases table.foreign_keys.len() - k,
    {
        let fk: &ForeignKey = &table.foreign_keys[k];
        if !is_repeated_key(&table.foreign_keys, k) && refers_to_model(schema, fk) {
            let field = calculate_relation_field(schema, table, fk);
            let ghost fv = field.deep_view();
            model.add_field(Field::RelationField(field));
            assert(scalars + relation_fields_of(sv, t, k + 1) =~= (scalars + relation_fields_of(
                sv,
                t,
                k as int,
            )).push(FieldView::RelationField(fv)));
        }
        k = k + 1;
    }
    let ghost with_fields = model.deep_view();
    let ghost p = model_level();
    let mut x: usize = 0;
    assert(t.indices.take(0).filter(p).map_values(index_of()) =~= Seq::empty()) by {
        assert(t.indices.take(0) =~= Seq::empty());
        assert(t.indices.take(0).filter(p) =~= Seq::empty());
    }
    while x < table.indices.len()
        invariant
            x <= table.indices.len(),
            model.deep_view() == (ModelView {
                indices: t.indices.take(x as int).filter(p).map_values(index_of()),
                ..with_fields
            }),
        decreases table.indices.len() - x,
    {
        proof {
            lemma_filter_map_step(t.indices, p, index_of(), x as int);
        }
        let index: &Index = &table.indices[x];
        if !(index.columns.len() == 1 && index.tpe.is_unique()) {
            model.add_index(calculate_index(index));
        }
        x = x + 1;
    }
    assert(t.indices.take(x as int) =~= t.indices);
    let key: Vec<String> = table.primary_key_columns();
    if key.len() > 1 {
        model.id_fields = key;
    }
    model
}

/// The enum that stands for an enum of the database.
#[verifier::loop_isolation(false)]
pub fn calculate_enum(en: &crate::sql_schema::Enum) -> (r: Enum)
    ensures
        r.deep_view() == to_enum()(en.deep_view()),
{
    let ghost vs = en.deep_view().values;
    let mut values: Vec<EnumValue> = Vec::new();
    let mut i: usize = 0;
    assert(vs.take(0).map_values(to_value()) =~= Seq::empty());
    while i < en.values.len()
        invariant
            i <= en.values.len(),
            values.deep_view() == vs.take(i as int).map_values(to_value()),
        decreases en.values.len() - i,
    {
        let ghost before = values.deep_view();
        proof {
            lemma_map_step(vs, to_value(), i as int);
        }
        let v = EnumValue::new(en.values[i].as_str());
        let ghost vv = v.deep_view();
        values.push(v);
        assert(values.deep_view() =~= before.push(vv));
        i = i + 1;
    }
    assert(vs.take(i as int) =~= vs);
    Enum::new(en.name.as_str(), values)
}

/// The data model that stands for a schema, each table and enum by itself.
#[verifier::loop_isolation(false)]
pub fn calculate_models(schema: &SqlSchema, family: &SqlFamily, native_types: bool) -> (r: Datamodel)
    ensures
        r.deep_view() == (DatamodelView {
            enums: enums_of(schema.deep_view()),
            models: models_of(schema.deep_view(), native_types),
        }),
{
    let ghost sv = schema.deep_view();
    let ghost p = stands_for_model();
    let ghost f = to_model(sv, native_types);
    let mut models: Vec<Model> = Vec::new();
    let mut i: usize = 0;
    assert(sv.tables.take(0).filter(p).map_values(f) =~= Seq::empty()) by {
        assert(sv.tables.take(0) =~= Seq::empty());
        assert(sv.tables.take(0).filter(p) =~= Seq::empty());
    }
    while i < schema.tables.len()
        invariant
            i <= schema.tables.len(),
            models.deep_view() == sv.tables.take(i as int).filter(p).map_values(f),
        decreases schema.tables.len() - i,
    {
        let ghost before = models.deep_view();
        proof {
            lemma_filter_map_step(sv.tables, p, f, i as int);
        }
        if is_model_table(&schema.tables[i]) {
            let model = calculate_model(schema, &schema.tables[i], family, native_types);
            let ghost mv = model.deep_view();
            models.push(model);
            assert(models.deep_view() =~= before.push(mv));
        }
        i = i + 1;
    }
    assert(sv.tables.take(i as int) =~= sv.tables);
    let mut enums: Vec<Enum> = Vec::new();
    let mut j: usize = 0;
    assert(sv.enums.take(0).map_values(to_enum()) =~= Seq::empty());
    while j < schema.enums.len()
        invariant
            j <= schema.enums.len(),
            enums.deep_view() == sv.enums.take(j as int).map_values(to_enum()),
        decreases schema.enums.len() - j,
    {
        let ghost before = enums.deep_view();
        proof {
            lemma_map_step(sv.enums, to_enum(), j as int);
        }
        let en = calculate_enum(&schema.enums[j]);
        let ghost ev = en.deep_view();
        enums.push(en);
        assert(enums.deep_view() =~= before.push(ev));
        j = j + 1;
    }
    assert(sv.enums.take(j as int) =~= sv.enums);
    Datamodel { enums, models }
}

} // verus!
