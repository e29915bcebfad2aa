//! Telling apart the relation fields of a model that bear the same name.

use crate::dml::{
    Datamodel, DatamodelView, Field, FieldView, Model, ModelView, RelationField, RelationFieldView,
};
use crate::seqs::list_clone;
use crate::text::{concat, name_option_clone, names_clone, str_eq};
use vstd::prelude::*;
use vstd::string::*;

verus! {

/// Whether another field of the list has the name of the field at `j`.
pub open spec fn collides(fields: Seq<FieldView>, j: int) -> bool {
    exists|x: int| 0 <= x < fields.len() && x != j && #[trigger] fields[x].name() == fields[j].name()
}

/// The field at `j`, told from the others: a relation field whose name
/// another field has too gets the name of its relation behind its own, with
/// an underscore between the two.
pub open spec fn deduplicated_field(m: ModelView, j: int) -> FieldView {
    match m.fields[j] {
        FieldView::RelationField(rf) => if collides(m.fields, j) {
            FieldView::RelationField(
                RelationFieldView { name: rf.name + "_"@ + rf.relation_info.name, ..rf },
            )
        } else {
            m.fields[j]
        },
        FieldView::ScalarField(_) => m.fields[j],
    }
}

/// The model with its relation fields told apart.
pub open spec fn deduplicated_model(m: ModelView) -> ModelView {
    ModelView { fields: Seq::new(m.fields.len(), |j: int| deduplicated_field(m, j)), ..m }
}

/// The data model with the relation fields of each model told apart.
pub open spec fn deduplicated(dm: DatamodelView) -> DatamodelView {
    DatamodelView {
        models: Seq::new(dm.models.len(), |i: int| deduplicated_model(dm.models[i])),
        enums: dm.enums,
    }
}

#[verifier::loop_isolation(false)]
fn name_collides(m: &Model, j: usize) -> (r: bool)
    requires
        j < m.fields.len(),
    ensures
        r == collides(m.deep_view().fields, j as int),
{
    let ghost fs = m.deep_view().fields;
    let mut x: usize = 0;
    while x < m.fields.len()
        invariant
            x <= m.fields.len(),
            forall|y: int| 0 <= y < x && y != j ==> #[trigger] fs[y].name() != fs[j as int].name(),
        decreases m.fields.len() - x,
    {
        assert(fs[x as int] == m.fields[x as int].deep_view());
        assert(fs[j as int] == m.fields[j as int].deep_view());
        if x != j && str_eq(m.fields[x].name(), m.fields[j].name()) {
            return true;
        }
        x = x + 1;
    }
    false
}

/// Tells apart the relation fields of each model that bear a name which
/// another field of the model bears too.
#[verifier::loop_isolation(false)]
pub fn deduplicate_relation_field_names(data_model: &mut Datamodel)
    ensures
        final(data_model).deep_view() == deduplicated(old(data_model).deep_view()),
{
    let ghost dmv = data_model.deep_view();
    let mut models: Vec<Model> = Vec::new();
    let mut i: usize = 0;
    while i < data_model.models.len()
        invariant
            i <= data_model.models.len(),
            data_model.deep_view() == dmv,
            models.len() == i,
            forall|x: int|
                0 <= x < i ==> #[trigger] models.deep_view()[x] == deduplicated_model(dmv.models[x]),
        decreases data_model.models.len() - i,
    {
        let m: &Model = &data_model.models[i];
        let ghost mv = dmv.models[i as int];
        assert(mv == m.deep_view());
        let mut fields: Vec<Field> = Vec::new();
        let mut j: usize = 0;
        while j < m.fields.len()
            invariant
                j <= m.fields.len(),
                fields.len() == j,
                forall|x: int| 0 <= x < j ==> #[trigger] fields.deep_view()[x] == deduplicated_field(mv, x),
            decreases m.fields.len() - j,
        {
            assert(mv.fields[j as int] == m.fields[j as int].deep_view());
            let field: Field = match &m.fields[j] {
                Field::RelationField(rf) => {
                    if name_collides(m, j) {
                        let mut name: String = concat(rf.name.as_str(), "_");
                        name.append(rf.relation_info.name.as_str());
                        Field::RelationField(
                            RelationField {
                                name,
                                relation_info: rf.relation_info.clone(),
                                arity: rf.arity,
                                documentation: name_option_clone(&rf.documentation),
                                is_generated: rf.is_generated,
                                is_commented_out: rf.is_commented_out,
                            },
                        )
                    } else {
                        m.fields[j].clone()
                    }
                },
                Field::ScalarField(_) => m.fields[j].clone(),
            };
            let ghost before = fields.deep_view();
            let ghost fv = field.deep_view();
            fields.push(field);
            assert(fields.deep_view() =~= before.push(fv));
            j = j + 1;
        }
        assert(fields.deep_view() =~= Seq::new(mv.fields.len(), |j: int| deduplicated_field(mv, j)));
        let model = Model {
            name: m.name.clone(),
            fields,
            documentation: name_option_clone(&m.documentation),
            database_name: name_option_clone(&m.database_name),
            is_embedded: m.is_embedded,
            indices: list_clone(&m.indices),
            id_fields: names_clone(&m.id_fields),
            is_generated: m.is_generated,
            is_commented_out: m.is_commented_out,
        };
        let ghost before = models.deep_view();
        let ghost modv = model.deep_view();
        models.push(model);
        assert(models.deep_view() =~= before.push(modv));
        i = i + 1;
    }
    assert(models.deep_view() =~= Seq::new(
        dmv.models.len(),
        |i: int| deduplicated_model(dmv.models[i]),
    ));
    let enums = list_clone(&data_model.enums);
    *data_model = Datamodel { enums, models };
}

} // verus!
