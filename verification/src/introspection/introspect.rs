//! The structural translation of a schema into a data model.

use crate::dml::{Datamodel, DatamodelView, Field, Model, RelationField};
use crate::introspection::backrelations::{
    add_field_to, backrelations, backrelations_in, calculate_backrelation_field,
    calculate_many_to_many_field, introspected, join_fields, with_fields, Extra,
};
use crate::introspection::models::calculate_models;
use crate::introspection::tables::is_join_table;
use crate::introspection::SqlFamily;
use crate::sql_schema::{ForeignKey, SqlSchema, Table};
use vstd::prelude::*;
use vstd::string::*;

verus! {

/// Translates a schema into a data model, name for name.
#[verifier::loop_isolation(false)]
pub fn introspect(schema: &SqlSchema, family: &SqlFamily, native_types: bool) -> (r: Datamodel)
    ensures
        r.deep_view() == introspected(schema.deep_view(), native_types),
{
    let ghost sv = schema.deep_view();
    let mut data_model: Datamodel = calculate_models(schema, family, native_types);
    let ghost dm = data_model.deep_view();
    let mut extras: Vec<(String, RelationField)> = Vec::new();
    assert(extras.deep_view() =~= Seq::<Extra>::empty());
    let mut i: usize = 0;
    while i < data_model.models.len()
        invariant
            i <= data_model.models.len(),
            data_model.deep_view() == dm,
            extras.deep_view() == backrelations(sv, dm, i as int),
        decreases data_model.models.len() - i,
    {
        let model: &Model = &data_model.models[i];
        let ghost m = dm.models[i as int];
        assert(m == model.deep_view());
        let ghost start = extras.deep_view();
        let mut j: usize = 0;
        assert(start + backrelations_in(sv, dm, m, 0) =~= start);
        while j < model.fields.len()
            invariant
                j <= model.fields.len(),
                extras.deep_view() == start + backrelations_in(sv, dm, m, j as int),
            decreases model.fields.len() - j,
        {
            assert(m.fields[j as int] == model.fields[j as int].deep_view());
            match &model.fields[j] {
                Field::RelationField(rf) => {
                    if data_model.find_related_field(model.name.as_str(), rf).is_none()
                        && data_model.find_model(rf.relation_info.to.as_str()).is_some() {
                        let ghost before = extras.deep_view();
                        let field = calculate_backrelation_field(schema, model, rf);
                        let ghost fv = field.deep_view();
                        extras.push((rf.relation_info.to.clone(), field));
                        assert(extras.deep_view() =~= before.push((rf.relation_info.to@, fv)));
                        assert(start + backrelations_in(sv, dm, m, j + 1) =~= (start
                            + backrelations_in(sv, dm, m, j as int)).push(
                            (rf.relation_info.to@, fv),
                        ));
                    }
                },
                Field::ScalarField(_) => {},
            }
            j = j + 1;
        }
        i = i + 1;
    }
    let ghost back = extras.deep_view();
    let mut t: usize = 0;
    assert(back + join_fields(sv, 0) =~= back);
    while t < schema.tables.len()
        invariant
            t <= schema.tables.len(),
            data_model.deep_view() == dm,
            extras.deep_view() == back + join_fields(sv, t as int),
        decreases schema.tables.len() - t,
    {
        let table: &Table = &schema.tables[t];
        assert(sv.tables[t as int] == table.deep_view());
        if is_join_table(table) {
            let ghost before = extras.deep_view();
            let f: &ForeignKey = &table.foreign_keys[0];
            let s: &ForeignKey = &table.foreign_keys[1];
            let n: usize = table.name.as_str().unicode_len();
            proof {
                reveal_strlit("_");
                assert("_"@.is_prefix_of(table.name@));
            }
            let is_self: bool = f.referenced_table == s.referenced_table;
            let first = calculate_many_to_many_field(
                f,
                table.name.as_str().substring_char(1, n).to_owned(),
                is_self,
            );
            let second = calculate_many_to_many_field(
                s,
                table.name.as_str().substring_char(1, n).to_owned(),
                is_self,
            );
            let ghost a = (s.referenced_table@, first.deep_view());
            let ghost b = (f.referenced_table@, second.deep_view());
            extras.push((s.referenced_table.clone(), first));
            extras.push((f.referenced_table.clone(), second));
            assert(extras.deep_view() =~= before.push(a).push(b));
            assert(back + join_fields(sv, t + 1) =~= (back + join_fields(sv, t as int)).push(
                a,
            ).push(b));
        }
        t = t + 1;
    }
    let ghost all = extras.deep_view();
    let mut k: usize = 0;
    while k < extras.len()
        invariant
            k <= extras.len(),
            extras.deep_view() == all,
            data_model.deep_view() == (DatamodelView {
                enums: dm.enums,
                models: with_fields(dm.models, all, k as int),
            }),
        decreases extras.len() - k,
    {
        assert(all[k as int] == extras[k as int].deep_view());
        let field: RelationField = extras[k].1.clone();
        add_field_to(&mut data_model.models, extras[k].0.as_str(), field);
        k = k + 1;
    }
    data_model
}

} // verus!
