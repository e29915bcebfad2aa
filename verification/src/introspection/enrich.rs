//! Carrying over what an earlier data model says of the same database.
//!
//! A model of the earlier data model and a model of the new one are the
//! same model where they stand for the same table; likewise a scalar field
//! and a column. Models and fields keep the names that the earlier data
//! model gave them, and what refers to them follows; they keep their
//! documentation where the new data model has none; relations keep the
//! names that the earlier data model gave them. What is commented out in
//! the earlier data model is not carried over.

use crate::dml::{
    DatamodelView, FieldView, IndexDefinitionView, ModelView, RelationField, RelationFieldView,
    RelationInfoView, ScalarField, ScalarFieldView,
};
use crate::introspection::guardrails::warning_if_any;
use crate::introspection::sanitize::{field_name, is_name, model_name};
use crate::introspection::warnings::WarningKind;
use crate::introspection::{AffectedView, WarningView};
use crate::seqs::{any, find, position};
use vstd::prelude::*;

verus! {

/// The name of the table that a model stands for.
pub open spec fn table_of(m: ModelView) -> Seq<char> {
    m.final_database_name()
}

/// The name of the column that a scalar field stands for.
pub open spec fn column_of(sf: ScalarFieldView) -> Seq<char> {
    match sf.database_name {
        Some(n) => n,
        None => sf.name,
    }
}

/// The models, not commented out, that stand for the table.
pub open spec fn stands_for_table(table: Seq<char>) -> spec_fn(ModelView) -> bool {
    |p: ModelView| !p.is_commented_out && table_of(p) == table
}

/// The scalar fields, not commented out, that stand for the column.
pub open spec fn stands_for_column(column: Seq<char>) -> spec_fn(FieldView) -> bool {
    |f: FieldView|
        match f {
            FieldView::ScalarField(sf) => !sf.is_commented_out && column_of(sf) == column,
            FieldView::RelationField(_) => false,
        }
}

/// The model of the earlier data model that stands for the table of `n`.
pub open spec fn earlier_model(prev: DatamodelView, n: ModelView) -> Option<ModelView> {
    find(prev.models, stands_for_table(table_of(n)))
}

/// The field of the earlier data model that stands for the column of `sf`.
pub open spec fn earlier_field(prev: DatamodelView, n: ModelView, sf: ScalarFieldView) -> Option<
    ScalarFieldView,
> {
    match earlier_model(prev, n) {
        Some(p) => match find(p.fields, stands_for_column(column_of(sf))) {
            Some(FieldView::ScalarField(x)) => Some(x),
            _ => None,
        },
        None => None,
    }
}

/// The name that a model keeps.
pub open spec fn kept_model_name(prev: DatamodelView) -> spec_fn(ModelView) -> Seq<char> {
    |n: ModelView|
        match earlier_model(prev, n) {
            Some(p) => p.name,
            None => n.name,
        }
}

/// The name that a field keeps.
pub open spec fn kept_field_name(prev: DatamodelView, n: ModelView) -> spec_fn(FieldView) -> Seq<
    char,
> {
    |f: FieldView|
        match f {
            FieldView::ScalarField(sf) => match earlier_field(prev, n, sf) {
                Some(x) => x.name,
                None => sf.name,
            },
            FieldView::RelationField(rf) => rf.name,
        }
}

/// The name that `name` refers to now: the new name of the first thing
/// that bore it, or the name itself where nothing bore it.
pub open spec fn followed(olds: Seq<Seq<char>>, news: Seq<Seq<char>>, name: Seq<char>) -> Seq<char> {
    match position(olds, is_name(name)) {
        Some(i) => news[i],
        None => name,
    }
}

pub open spec fn all_followed(olds: Seq<Seq<char>>, news: Seq<Seq<char>>) -> spec_fn(Seq<char>) -> Seq<
    char,
> {
    |name: Seq<char>| followed(olds, news, name)
}

/// The names of the models of the new data model before and after.
pub open spec fn model_olds(new: DatamodelView) -> Seq<Seq<char>> {
    new.models.map_values(model_name())
}

pub open spec fn model_news(prev: DatamodelView, new: DatamodelView) -> Seq<Seq<char>> {
    new.models.map_values(kept_model_name(prev))
}

/// The names of the fields of a model before and after.
pub open spec fn field_olds(n: ModelView) -> Seq<Seq<char>> {
    n.fields.map_values(field_name())
}

pub open spec fn field_news(prev: DatamodelView, n: ModelView) -> Seq<Seq<char>> {
    n.fields.map_values(kept_field_name(prev, n))
}

/// The names of the fields of the model that `to` refers to, after.
pub open spec fn target_field_olds(new: DatamodelView, to: Seq<char>) -> Seq<Seq<char>> {
    match new.find_model(to) {
        Some(target) => field_olds(target),
        None => Seq::empty(),
    }
}

pub open spec fn target_field_news(prev: DatamodelView, new: DatamodelView, to: Seq<char>) -> Seq<
    Seq<char>,
> {
    match new.find_model(to) {
        Some(target) => field_news(prev, target),
        None => Seq::empty(),
    }
}

/// The name in the database of a thing, given the name it bears: none
/// where the two are the same.
pub open spec fn mapped_name(name: Seq<char>, in_database: Seq<char>) -> Option<Seq<char>> {
    if name == in_database {
        None
    } else {
        Some(in_database)
    }
}

/// The documentation that a thing keeps: its own, or that of its earlier
/// self where it has none.
pub open spec fn kept_documentation(
    own: Option<Seq<char>>,
    earlier: Option<Seq<char>>,
) -> Option<Seq<char>> {
    match own {
        Some(d) => Some(d),
        None => earlier,
    }
}

/// The relation fields, not commented out, that point to the model and
/// hold the relation in the fields.
pub open spec fn same_relation(to: Seq<char>, fields: Seq<Seq<char>>) -> spec_fn(FieldView) -> bool {
    |f: FieldView|
        match f {
            FieldView::RelationField(x) => !x.is_commented_out && x.relation_info.to == to
                && x.relation_info.fields == fields,
            FieldView::ScalarField(_) => false,
        }
}

/// The target and the fields of a relation field under the names kept.
pub open spec fn kept_to(prev: DatamodelView, new: DatamodelView, rf: RelationFieldView) -> Seq<char> {
    followed(model_olds(new), model_news(prev, new), rf.relation_info.to)
}

pub open spec fn kept_fields(prev: DatamodelView, n: ModelView, rf: RelationFieldView) -> Seq<
    Seq<char>,
> {
    rf.relation_info.fields.map_values(all_followed(field_olds(n), field_news(prev, n)))
}

/// The name that the earlier data model gave to the relation which the
/// field `rf` of the model `n` holds in its own fields.
pub open spec fn earlier_relation_name(
    prev: DatamodelView,
    new: DatamodelView,
    n: ModelView,
    rf: RelationFieldView,
) -> Option<Seq<char>> {
    match earlier_model(prev, n) {
        Some(p) => match find(
            p.fields,
            same_relation(kept_to(prev, new, rf), kept_fields(prev, n, rf)),
        ) {
            Some(FieldView::RelationField(x)) => Some(x.relation_info.name),
            _ => None,
        },
        None => None,
    }
}

/// The relation fields that hold the relation of the given name in their
/// own fields and point to the given model.
pub open spec fn holds(name: Seq<char>, to: Seq<char>) -> spec_fn(FieldView) -> bool {
    |f: FieldView|
        match f {
            FieldView::RelationField(x) => x.relation_info.name == name && x.relation_info.to == to
                && x.relation_info.fields.len() > 0,
            FieldView::ScalarField(_) => false,
        }
}

/// The name that the relation of a field keeps. A field that holds the
/// relation in its own fields keeps the name that the earlier data model
/// gave to the relation; a field that does not follows the field opposite
/// it that does.
pub open spec fn kept_relation_name(
    prev: DatamodelView,
    new: DatamodelView,
    n: ModelView,
    rf: RelationFieldView,
) -> Seq<char> {
    if rf.relation_info.fields.len() > 0 {
        match earlier_relation_name(prev, new, n, rf) {
            Some(name) => name,
            None => rf.relation_info.name,
        }
    } else {
        match new.find_model(rf.relation_info.to) {
            Some(target) => match find(target.fields, holds(rf.relation_info.name, n.name)) {
                Some(FieldView::RelationField(g)) => match earlier_relation_name(
                    prev,
                    new,
                    target,
                    g,
                ) {
                    Some(name) => name,
                    None => rf.relation_info.name,
                },
                _ => rf.relation_info.name,
            },
            None => rf.relation_info.name,
        }
    }
}

/// A field with what the earlier data model says of it.
pub open spec fn enriched_field(prev: DatamodelView, new: DatamodelView, n: ModelView) -> spec_fn(
    FieldView,
) -> FieldView {
    |f: FieldView|
        match f {
            FieldView::ScalarField(sf) => {
                let name = kept_field_name(prev, n)(f);
                FieldView::ScalarField(
                    ScalarFieldView {
                        name,
                        database_name: mapped_name(name, column_of(sf)),
                        documentation: kept_documentation(
                            sf.documentation,
                            match earlier_field(prev, n, sf) {
                                Some(x) => x.documentation,
                                None => None,
                            },
                        ),
                        ..sf
                    },
                )
            },
            FieldView::RelationField(rf) => FieldView::RelationField(
                RelationFieldView {
                    relation_info: RelationInfoView {
                        to: kept_to(prev, new, rf),
                        fields: kept_fields(prev, n, rf),
                        to_fields: rf.relation_info.to_fields.map_values(
                            all_followed(
                                target_field_olds(new, rf.relation_info.to),
                                target_field_news(prev, new, rf.relation_info.to),
                            ),
                        ),
                        name: kept_relation_name(prev, new, n, rf),
                        on_delete: rf.relation_info.on_delete,
                    },
                    ..rf
                },
            ),
        }
}

/// An index with its fields under the names kept.
pub open spec fn enriched_index(prev: DatamodelView, n: ModelView) -> spec_fn(
    IndexDefinitionView,
) -> IndexDefinitionView {
    |i: IndexDefinitionView|
        IndexDefinitionView {
            fields: i.fields.map_values(all_followed(field_olds(n), field_news(prev, n))),
            ..i
        }
}

/// A model with what the earlier data model says of it.
pub open spec fn enriched_model(prev: DatamodelView, new: DatamodelView) -> spec_fn(ModelView) -> ModelView {
    |n: ModelView|
        {
            let name = kept_model_name(prev)(n);
            ModelView {
                name,
                database_name: mapped_name(name, table_of(n)),
                documentation: kept_documentation(
                    n.documentation,
                    match earlier_model(prev, n) {
                        Some(p) => p.documentation,
                        None => None,
                    },
                ),
                fields: n.fields.map_values(enriched_field(prev, new, n)),
                indices: n.indices.map_values(enriched_index(prev, n)),
                id_fields: n.id_fields.map_values(all_followed(field_olds(n), field_news(prev, n))),
                ..n
            }
        }
}

/// The new data model with what the earlier data model says of it.
pub open spec fn enriched(prev: DatamodelView, new: DatamodelView) -> DatamodelView {
    DatamodelView { models: new.models.map_values(enriched_model(prev, new)), enums: new.enums }
}

/// The models that keep another name than the one they had.
pub open spec fn model_renamed(prev: DatamodelView) -> spec_fn(ModelView) -> bool {
    |n: ModelView| kept_model_name(prev)(n) != n.name
}

pub open spec fn affected_kept_model(prev: DatamodelView) -> spec_fn(ModelView) -> AffectedView {
    |n: ModelView| AffectedView::model(kept_model_name(prev)(n))
}

/// The fields that keep another name than the one they had.
pub open spec fn field_renamed(prev: DatamodelView, n: ModelView) -> spec_fn(FieldView) -> bool {
    |f: FieldView| kept_field_name(prev, n)(f) != f.name()
}

pub open spec fn affected_kept_field(
    prev: DatamodelView,
    n: ModelView,
) -> spec_fn(FieldView) -> AffectedView {
    |f: FieldView|
        AffectedView::model_and_field(kept_model_name(prev)(n), kept_field_name(prev, n)(f))
}

pub open spec fn renamed_fields_in(prev: DatamodelView) -> spec_fn(ModelView) -> Seq<AffectedView> {
    |n: ModelView|
        n.fields.filter(field_renamed(prev, n)).map_values(affected_kept_field(prev, n))
}

/// The models that stand for the table.
pub open spec fn for_table(table: Seq<char>) -> spec_fn(ModelView) -> bool {
    |n: ModelView| table_of(n) == table
}

/// The scalar fields that stand for the column.
pub open spec fn for_column(column: Seq<char>) -> spec_fn(FieldView) -> bool {
    |f: FieldView|
        match f {
            FieldView::ScalarField(sf) => column_of(sf) == column,
            FieldView::RelationField(_) => false,
        }
}

/// The models of the earlier data model whose table is gone.
pub open spec fn table_gone(new: DatamodelView) -> spec_fn(ModelView) -> bool {
    |p: ModelView| !p.is_commented_out && !any(new.models, for_table(table_of(p)))
}

pub open spec fn affected_earlier_model() -> spec_fn(ModelView) -> AffectedView {
    |p: ModelView| AffectedView::model(p.name)
}

/// The scalar fields of a model of the earlier data model whose column is
/// gone from the table that is still there.
pub open spec fn column_gone(n: ModelView) -> spec_fn(FieldView) -> bool {
    |f: FieldView|
        match f {
            FieldView::ScalarField(sf) => !sf.is_commented_out && !any(
                n.fields,
                for_column(column_of(sf)),
            ),
            FieldView::RelationField(_) => false,
        }
}

pub open spec fn affected_earlier_field(p: ModelView) -> spec_fn(FieldView) -> AffectedView {
    |f: FieldView| AffectedView::model_and_field(p.name, f.name())
}

pub open spec fn gone_fields_in(new: DatamodelView) -> spec_fn(ModelView) -> Seq<AffectedView> {
    |p: ModelView|
        if p.is_commented_out {
            Seq::empty()
        } else {
            match find(new.models, for_table(table_of(p))) {
                Some(n) => p.fields.filter(column_gone(n)).map_values(affected_earlier_field(p)),
                None => Seq::empty(),
            }
        }
}

/// The warnings of an enrichment: one for the models that kept their
/// earlier name, one for the fields that did, one for the earlier models
/// whose table is gone, and one for the earlier fields whose column is
/// gone, each only where there is such a thing.
pub open spec fn enrichment_warnings(prev: DatamodelView, new: DatamodelView) -> Seq<WarningView> {
    warning_if_any(
        WarningKind::EnrichedWithMapOnModel,
        new.models.filter(model_renamed(prev)).map_values(affected_kept_model(prev)),
    ) + warning_if_any(
        WarningKind::EnrichedWithMapOnField,
        new.models.flat_map(renamed_fields_in(prev)),
    ) + warning_if_any(
        WarningKind::ModelsWithoutTable,
        prev.models.filter(table_gone(new)).map_values(affected_earlier_model()),
    ) + warning_if_any(WarningKind::FieldsWithoutColumn, prev.models.flat_map(gone_fields_in(new)))
}

} // verus!
