//! Pairing the relation fields of a data model into relations.
//!
//! Every relation field has a field that stands opposite it on the model it
//! points to. The two together are one relation, which lives either in a
//! column of one of the two tables or in a table of its own.

use crate::dml::{FieldArity, Model, ModelView, RelationField, RelationFieldView};
use crate::seqs::Same;
use crate::text::{concat, names_clone};
use vstd::prelude::*;
use vstd::string::*;

pub mod laws;
pub mod converter;
pub mod pairing;
pub mod sql_values;
pub mod templates;

pub use pairing::{calculate_relations, relations};

verus! {

/// Where a relation lives in the database.
#[derive(Debug, PartialEq)]
pub enum TempManifestationHolder {
    /// In columns of the table of one of the two models.
    Inline {
        in_table_of_model: String,
        /// The relation field.
        field: RelationField,
        /// The names of the fields that the relation refers to.
        referenced_fields: Vec<String>,
    },
    /// In a table of its own.
    Table,
}

pub enum TempManifestationHolderView {
    Inline {
        in_table_of_model: Seq<char>,
        field: RelationFieldView,
        referenced_fields: Seq<Seq<char>>,
    },
    Table,
}

impl DeepView for TempManifestationHolder {
    type V = TempManifestationHolderView;

    open spec fn deep_view(&self) -> TempManifestationHolderView {
        match self {
            TempManifestationHolder::Inline { in_table_of_model, field, referenced_fields } => {
                TempManifestationHolderView::Inline {
                    in_table_of_model: in_table_of_model@,
                    field: field.deep_view(),
                    referenced_fields: referenced_fields.deep_view(),
                }
            },
            TempManifestationHolder::Table => TempManifestationHolderView::Table,
        }
    }
}

impl Clone for TempManifestationHolder {
    fn clone(&self) -> (r: Self)
        ensures
            r.deep_view() == self.deep_view(),
    {
        match self {
            TempManifestationHolder::Inline { in_table_of_model, field, referenced_fields } => {
                TempManifestationHolder::Inline {
                    in_table_of_model: in_table_of_model.clone(),
                    field: field.clone(),
                    referenced_fields: names_clone(referenced_fields),
                }
            },
            TempManifestationHolder::Table => TempManifestationHolder::Table,
        }
    }
}

/// A relation: two relation fields that stand opposite each other, with the
/// models they belong to. `model_a` is the model whose name comes first; in a
/// relation of a model with itself `field_a` is the field whose name comes
/// first.
#[derive(Debug)]
pub struct TempRelationHolder {
    pub name: String,
    pub model_a: Model,
    pub model_b: Model,
    pub field_a: RelationField,
    pub field_b: RelationField,
    pub manifestation: TempManifestationHolder,
}

pub struct TempRelationHolderView {
    pub name: Seq<char>,
    pub model_a: ModelView,
    pub model_b: ModelView,
    pub field_a: RelationFieldView,
    pub field_b: RelationFieldView,
    pub manifestation: TempManifestationHolderView,
}

impl DeepView for TempRelationHolder {
    type V = TempRelationHolderView;

    open spec fn deep_view(&self) -> TempRelationHolderView {
        TempRelationHolderView {
            name: self.name@,
            model_a: self.model_a.deep_view(),
            model_b: self.model_b.deep_view(),
            field_a: self.field_a.deep_view(),
            field_b: self.field_b.deep_view(),
            manifestation: self.manifestation.deep_view(),
        }
    }
}

impl Clone for TempRelationHolder {
    fn clone(&self) -> (r: Self)
        ensures
            r.deep_view() == self.deep_view(),
    {
        TempRelationHolder {
            name: self.name.clone(),
            model_a: self.model_a.clone(),
            model_b: self.model_b.clone(),
            field_a: self.field_a.clone(),
            field_b: self.field_b.clone(),
            manifestation: self.manifestation.clone(),
        }
    }
}

/// Which of the two fields of a relation a field is.
#[derive(Debug, PartialEq, Eq, Structural, Clone, Copy)]
pub enum RelationSide {
    A,
    B,
}

/// How a relation is laid out in the database.
#[derive(Debug, PartialEq)]
pub enum RelationLinkManifestation {
    /// In columns of the named model's table.
    Inline { in_table_of_model_name: String },
    /// In a table of its own, with one column for each side.
    RelationTable { table: String, model_a_column: String, model_b_column: String },
}

pub enum RelationLinkManifestationView {
    Inline { in_table_of_model_name: Seq<char> },
    RelationTable { table: Seq<char>, model_a_column: Seq<char>, model_b_column: Seq<char> },
}

impl DeepView for RelationLinkManifestation {
    type V = RelationLinkManifestationView;

    open spec fn deep_view(&self) -> RelationLinkManifestationView {
        match self {
            RelationLinkManifestation::Inline { in_table_of_model_name } => {
                RelationLinkManifestationView::Inline {
                    in_table_of_model_name: in_table_of_model_name@,
                }
            },
            RelationLinkManifestation::RelationTable { table, model_a_column, model_b_column } => {
                RelationLinkManifestationView::RelationTable {
                    table: table@,
                    model_a_column: model_a_column@,
                    model_b_column: model_b_column@,
                }
            },
        }
    }
}

impl TempRelationHolderView {
    /// The name of the relation: the name its fields carry, or, where they
    /// carry none, the names of the two models with "To" between them.
    pub open spec fn name(self) -> Seq<char> {
        if self.name.len() == 0 {
            self.model_a.name + "To"@ + self.model_b.name
        } else {
            self.name
        }
    }

    /// The name of the table of a relation that lives in a table of its own.
    pub open spec fn table_name(self) -> Seq<char> {
        "_"@ + self.name()
    }

    pub open spec fn is_one_to_one(self) -> bool {
        self.field_a.arity != FieldArity::List && self.field_b.arity != FieldArity::List
    }

    pub open spec fn is_many_to_many(self) -> bool {
        self.field_a.arity == FieldArity::List && self.field_b.arity == FieldArity::List
    }

    pub open spec fn is_for_model_and_field(self, model: ModelView, field: RelationFieldView) -> bool {
        (self.model_a == model && self.field_a == field) || (self.model_b == model && self.field_b
            == field)
    }

    pub open spec fn manifestation(self) -> RelationLinkManifestationView {
        match self.manifestation {
            TempManifestationHolderView::Table => RelationLinkManifestationView::RelationTable {
                table: self.table_name(),
                model_a_column: "A"@,
                model_b_column: "B"@,
            },
            TempManifestationHolderView::Inline { in_table_of_model, .. } => {
                RelationLinkManifestationView::Inline { in_table_of_model_name: in_table_of_model }
            },
        }
    }
}

impl TempRelationHolder {
    /// The name of the relation.
    pub fn name(&self) -> (r: String)
        ensures
            r@ == self.deep_view().name(),
    {
        if self.name.as_str().unicode_len() == 0 {
            let mut s: String = concat(self.model_a.name.as_str(), "To");
            s.append(self.model_b.name.as_str());
            s
        } else {
            self.name.clone()
        }
    }

    pub fn table_name(&self) -> (r: String)
        ensures
            r@ == self.deep_view().table_name(),
    {
        let name: String = self.name();
        concat("_", name.as_str())
    }

    pub fn model_a_column(&self) -> (r: String)
        ensures
            r@ == "A"@,
    {
        "A".to_owned()
    }

    pub fn model_b_column(&self) -> (r: String)
        ensures
            r@ == "B"@,
    {
        "B".to_owned()
    }

    pub fn is_one_to_one(&self) -> (r: bool)
        ensures
            r == self.deep_view().is_one_to_one(),
    {
        !self.field_a.is_list() && !self.field_b.is_list()
    }

    pub fn is_many_to_many(&self) -> (r: bool)
        ensures
            r == self.deep_view().is_many_to_many(),
    {
        self.field_a.is_list() && self.field_b.is_list()
    }

    pub fn is_for_model_and_field(&self, model: &Model, field: &RelationField) -> (r: bool)
        ensures
            r == self.deep_view().is_for_model_and_field(model.deep_view(), field.deep_view()),
    {
        (self.model_a.same(model) && self.field_a.same(field)) || (self.model_b.same(model)
            && self.field_b.same(field))
    }

    /// Which side of the relation the field is, if it is one of the two.
    pub fn relation_side(&self, field: &RelationField) -> (r: Option<RelationSide>)
        ensures
            r == if field.deep_view() == self.deep_view().field_a {
                Some(RelationSide::A)
            } else if field.deep_view() == self.deep_view().field_b {
                Some(RelationSide::B)
            } else {
                None
            },
    {
        if field.same(&self.field_a) {
            Some(RelationSide::A)
        } else if field.same(&self.field_b) {
            Some(RelationSide::B)
        } else {
            None
        }
    }

    pub fn manifestation(&self) -> (r: RelationLinkManifestation)
        ensures
            r.deep_view() == self.deep_view().manifestation(),
    {
        match &self.manifestation {
            TempManifestationHolder::Table => RelationLinkManifestation::RelationTable {
                table: self.table_name(),
                model_a_column: self.model_a_column(),
                model_b_column: self.model_b_column(),
            },
            TempManifestationHolder::Inline { in_table_of_model, .. } => {
                RelationLinkManifestation::Inline {
                    in_table_of_model_name: in_table_of_model.clone(),
                }
            },
        }
    }
}

/// Why the relation fields of a data model cannot be paired.
#[derive(Debug, PartialEq)]
pub enum RelationError {
    /// A relation field points to a model that is not there.
    RelatedModelNotFound { model: String },
    /// No field stands opposite a relation field.
    RelatedFieldNotFound { model: String, field: String },
    /// Both fields of a one-to-one relation say which fields they refer to.
    BothSidesInline { field: String, model: String, related_field: String, related_model: String },
}

pub enum RelationErrorView {
    RelatedModelNotFound { model: Seq<char> },
    RelatedFieldNotFound { model: Seq<char>, field: Seq<char> },
    BothSidesInline {
        field: Seq<char>,
        model: Seq<char>,
        related_field: Seq<char>,
        related_model: Seq<char>,
    },
}

impl DeepView for RelationError {
    type V = RelationErrorView;

    open spec fn deep_view(&self) -> RelationErrorView {
        match self {
            RelationError::RelatedModelNotFound { model } => {
                RelationErrorView::RelatedModelNotFound { model: model@ }
            },
            RelationError::RelatedFieldNotFound { model, field } => {
                RelationErrorView::RelatedFieldNotFound { model: model@, field: field@ }
            },
            RelationError::BothSidesInline { field, model, related_field, related_model } => {
                RelationErrorView::BothSidesInline {
                    field: field@,
                    model: model@,
                    related_field: related_field@,
                    related_model: related_model@,
                }
            },
        }
    }
}

} // verus!
