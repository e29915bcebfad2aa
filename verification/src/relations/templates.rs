//! The data model as the query engine takes it: every model with its
//! fields and indexes, every relation with the place where it lives, and
//! every enum.

use crate::dml::{
    DefaultValue, DefaultValueView, FieldArity, Model, ModelView, RelationInfo, RelationInfoView,
};
use crate::relations::{
    RelationError, RelationErrorView, RelationLinkManifestation, RelationLinkManifestationView,
    RelationSide,
};
use vstd::prelude::*;

verus! {

/// What happens to the records of one side of a relation when a record of
/// the other side is deleted.
#[derive(Debug, PartialEq, Eq, Structural, Clone, Copy)]
pub enum OnDelete {
    SetNull,
    Cascade,
}

/// The type of an index.
#[derive(Debug, PartialEq, Eq, Structural, Clone, Copy)]
pub enum IndexType {
    Unique,
    Normal,
}

/// What a field does by itself.
#[derive(Debug, PartialEq, Eq, Structural, Clone, Copy)]
pub enum FieldBehaviour {
    /// The field holds the time of the last change of its record.
    UpdatedAt,
}

/// The kind of value that a scalar field holds.
#[derive(Debug, PartialEq)]
pub enum TypeIdentifier {
    String,
    Float,
    Boolean,
    /// A value of the enum of the name.
    Enum(String),
    Json,
    DateTime,
    Int,
    /// An identifier in the form that databases have for it.
    UUID,
}

pub enum TypeIdentifierView {
    String,
    Float,
    Boolean,
    Enum(Seq<char>),
    Json,
    DateTime,
    Int,
    UUID,
}

impl DeepView for TypeIdentifier {
    type V = TypeIdentifierView;

    open spec fn deep_view(&self) -> TypeIdentifierView {
        match self {
            TypeIdentifier::String => TypeIdentifierView::String,
            TypeIdentifier::Float => TypeIdentifierView::Float,
            TypeIdentifier::Boolean => TypeIdentifierView::Boolean,
            TypeIdentifier::Enum(x0) => TypeIdentifierView::Enum(x0@),
            TypeIdentifier::Json => TypeIdentifierView::Json,
            TypeIdentifier::DateTime => TypeIdentifierView::DateTime,
            TypeIdentifier::Int => TypeIdentifierView::Int,
            TypeIdentifier::UUID => TypeIdentifierView::UUID,
        }
    }
}

/// A value of an enum, with the name it has in the database.
#[derive(Debug, PartialEq)]
pub struct InternalEnumValue {
    pub name: String,
    pub database_name: Option<String>,
}

pub struct InternalEnumValueView {
    pub name: Seq<char>,
    pub database_name: Option<Seq<char>>,
}

impl DeepView for InternalEnumValue {
    type V = InternalEnumValueView;

    open spec fn deep_view(&self) -> InternalEnumValueView {
        InternalEnumValueView {
            name: self.name@,
            database_name: self.database_name.deep_view(),
        }
    }
}

/// An enum with its values.
#[derive(Debug, PartialEq)]
pub struct InternalEnum {
    pub name: String,
    pub values: Vec<InternalEnumValue>,
}

pub struct InternalEnumView {
    pub name: Seq<char>,
    pub values: Seq<InternalEnumValueView>,
}

impl DeepView for InternalEnum {
    type V = InternalEnumView;

    open spec fn deep_view(&self) -> InternalEnumView {
        InternalEnumView {
            name: self.name@,
            values: self.values.deep_view(),
        }
    }
}

/// What a scalar field says of itself, with what its model says of it.
#[derive(Debug, PartialEq)]
pub struct ScalarFieldTemplate {
    pub name: String,
    pub type_identifier: TypeIdentifier,
    pub is_required: bool,
    pub is_list: bool,
    /// The field is unique by itself or through an index over it alone.
    pub is_unique: bool,
    /// The field is the id by itself or through the id fields of its model.
    pub is_id: bool,
    pub is_auto_generated_int_id: bool,
    pub is_autoincrement: bool,
    pub behaviour: Option<FieldBehaviour>,
    /// The enum of the field, where its type is an enum of the data model.
    pub internal_enum: Option<InternalEnum>,
    pub db_name: Option<String>,
    pub arity: FieldArity,
    pub default_value: Option<DefaultValue>,
}

pub struct ScalarFieldTemplateView {
    pub name: Seq<char>,
    pub type_identifier: TypeIdentifierView,
    pub is_required: bool,
    pub is_list: bool,
    pub is_unique: bool,
    pub is_id: bool,
    pub is_auto_generated_int_id: bool,
    pub is_autoincrement: bool,
    pub behaviour: Option<FieldBehaviour>,
    pub internal_enum: Option<InternalEnumView>,
    pub db_name: Option<Seq<char>>,
    pub arity: FieldArity,
    pub default_value: Option<DefaultValueView>,
}

impl DeepView for ScalarFieldTemplate {
    type V = ScalarFieldTemplateView;

    open spec fn deep_view(&self) -> ScalarFieldTemplateView {
        ScalarFieldTemplateView {
            name: self.name@,
            type_identifier: self.type_identifier.deep_view(),
            is_required: self.is_required,
            is_list: self.is_list,
            is_unique: self.is_unique,
            is_id: self.is_id,
            is_auto_generated_int_id: self.is_auto_generated_int_id,
            is_autoincrement: self.is_autoincrement,
            behaviour: self.behaviour,
            internal_enum: self.internal_enum.deep_view(),
            db_name: self.db_name.deep_view(),
            arity: self.arity,
            default_value: self.default_value.deep_view(),
        }
    }
}

/// What a relation field says of itself, with the relation it belongs to.
#[derive(Debug, PartialEq)]
pub struct RelationFieldTemplate {
    pub name: String,
    pub is_required: bool,
    pub is_list: bool,
    pub relation_name: String,
    pub relation_side: RelationSide,
    pub relation_info: RelationInfo,
}

pub struct RelationFieldTemplateView {
    pub name: Seq<char>,
    pub is_required: bool,
    pub is_list: bool,
    pub relation_name: Seq<char>,
    pub relation_side: RelationSide,
    pub relation_info: RelationInfoView,
}

impl DeepView for RelationFieldTemplate {
    type V = RelationFieldTemplateView;

    open spec fn deep_view(&self) -> RelationFieldTemplateView {
        RelationFieldTemplateView {
            name: self.name@,
            is_required: self.is_required,
            is_list: self.is_list,
            relation_name: self.relation_name@,
            relation_side: self.relation_side,
            relation_info: self.relation_info.deep_view(),
        }
    }
}

/// A field of a model.
#[derive(Debug, PartialEq)]
pub enum FieldTemplate {
    Relation(RelationFieldTemplate),
    Scalar(ScalarFieldTemplate),
}

pub enum FieldTemplateView {
    Relation(RelationFieldTemplateView),
    Scalar(ScalarFieldTemplateView),
}

impl DeepView for FieldTemplate {
    type V = FieldTemplateView;

    open spec fn deep_view(&self) -> FieldTemplateView {
        match self {
            FieldTemplate::Relation(x0) => FieldTemplateView::Relation(x0.deep_view()),
            FieldTemplate::Scalar(x0) => FieldTemplateView::Scalar(x0.deep_view()),
        }
    }
}

/// An index over several fields.
#[derive(Debug, PartialEq)]
pub struct IndexTemplate {
    pub name: Option<String>,
    pub fields: Vec<String>,
    pub typ: IndexType,
}

pub struct IndexTemplateView {
    pub name: Option<Seq<char>>,
    pub fields: Seq<Seq<char>>,
    pub typ: IndexType,
}

impl DeepView for IndexTemplate {
    type V = IndexTemplateView;

    open spec fn deep_view(&self) -> IndexTemplateView {
        IndexTemplateView {
            name: self.name.deep_view(),
            fields: self.fields.deep_view(),
            typ: self.typ,
        }
    }
}

/// A model with its fields and indexes.
#[derive(Debug, PartialEq)]
pub struct ModelTemplate {
    pub name: String,
    pub is_embedded: bool,
    pub fields: Vec<FieldTemplate>,
    /// The name of the table, where it is not the name of the model.
    pub manifestation: Option<String>,
    pub id_field_names: Vec<String>,
    pub indexes: Vec<IndexTemplate>,
    pub dml_model: Model,
}

pub struct ModelTemplateView {
    pub name: Seq<char>,
    pub is_embedded: bool,
    pub fields: Seq<FieldTemplateView>,
    pub manifestation: Option<Seq<char>>,
    pub id_field_names: Seq<Seq<char>>,
    pub indexes: Seq<IndexTemplateView>,
    pub dml_model: ModelView,
}

impl DeepView for ModelTemplate {
    type V = ModelTemplateView;

    open spec fn deep_view(&self) -> ModelTemplateView {
        ModelTemplateView {
            name: self.name@,
            is_embedded: self.is_embedded,
            fields: self.fields.deep_view(),
            manifestation: self.manifestation.deep_view(),
            id_field_names: self.id_field_names.deep_view(),
            indexes: self.indexes.deep_view(),
            dml_model: self.dml_model.deep_view(),
        }
    }
}

/// A relation between two models.
#[derive(Debug, PartialEq)]
pub struct RelationTemplate {
    pub name: String,
    pub model_a_on_delete: OnDelete,
    pub model_b_on_delete: OnDelete,
    pub manifestation: RelationLinkManifestation,
    pub model_a_name: String,
    pub model_b_name: String,
}

pub struct RelationTemplateView {
    pub name: Seq<char>,
    pub model_a_on_delete: OnDelete,
    pub model_b_on_delete: OnDelete,
    pub manifestation: RelationLinkManifestationView,
    pub model_a_name: Seq<char>,
    pub model_b_name: Seq<char>,
}

impl DeepView for RelationTemplate {
    type V = RelationTemplateView;

    open spec fn deep_view(&self) -> RelationTemplateView {
        RelationTemplateView {
            name: self.name@,
            model_a_on_delete: self.model_a_on_delete,
            model_b_on_delete: self.model_b_on_delete,
            manifestation: self.manifestation.deep_view(),
            model_a_name: self.model_a_name@,
            model_b_name: self.model_b_name@,
        }
    }
}

/// A data model as the query engine takes it.
#[derive(Debug, PartialEq)]
pub struct InternalDataModelTemplate {
    pub models: Vec<ModelTemplate>,
    pub relations: Vec<RelationTemplate>,
    pub enums: Vec<InternalEnum>,
    pub version: Option<String>,
}

pub struct InternalDataModelTemplateView {
    pub models: Seq<ModelTemplateView>,
    pub relations: Seq<RelationTemplateView>,
    pub enums: Seq<InternalEnumView>,
    pub version: Option<Seq<char>>,
}

impl DeepView for InternalDataModelTemplate {
    type V = InternalDataModelTemplateView;

    open spec fn deep_view(&self) -> InternalDataModelTemplateView {
        InternalDataModelTemplateView {
            models: self.models.deep_view(),
            relations: self.relations.deep_view(),
            enums: self.enums.deep_view(),
            version: self.version.deep_view(),
        }
    }
}

/// Why a data model cannot be converted.
#[derive(Debug, PartialEq)]
pub enum ConvertError {
    /// The relation fields cannot be paired.
    Relations(RelationError),
    /// No relation was found for a relation field.
    RelationNotFound { model: String, field: String },
    /// The type of a scalar field has no identifier.
    TypeNotSupported { model: String, field: String },
}

pub enum ConvertErrorView {
    Relations(RelationErrorView),
    RelationNotFound { model: Seq<char>, field: Seq<char> },
    TypeNotSupported { model: Seq<char>, field: Seq<char> },
}

impl DeepView for ConvertError {
    type V = ConvertErrorView;

    open spec fn deep_view(&self) -> ConvertErrorView {
        match self {
            ConvertError::Relations(x0) => ConvertErrorView::Relations(x0.deep_view()),
            ConvertError::RelationNotFound { model, field } =>
                ConvertErrorView::RelationNotFound { model: model@, field: field@ },
            ConvertError::TypeNotSupported { model, field } =>
                ConvertErrorView::TypeNotSupported { model: model@, field: field@ },
        }
    }
}


} // verus!
