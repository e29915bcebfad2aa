//! The declarative data model: models with their fields, relations between
//! them, and enums.

use crate::native_types::NativeType;
use crate::seqs::{all_same, list_clone, option_clone, option_same, Same};
use crate::text::{name_option_clone, name_option_eq, names_clone, names_eq};
use crate::values::{PrismaValue, PrismaValueView};
use vstd::prelude::*;
use vstd::string::*;

pub mod lookup;
pub mod scalars;

pub use scalars::ScalarType;

verus! {

/// How many values a field holds.
#[derive(Debug, PartialEq, Eq, Structural, Clone, Copy)]
pub enum FieldArity {
    Required,
    Optional,
    List,
}

/// What happens to a record when the record it points to is deleted.
#[derive(Debug, PartialEq, Eq, Structural, Clone, Copy)]
pub enum OnDeleteStrategy {
    /// Delete this record too.
    Cascade,
    /// Nothing was asked for.
    NoStrategy,
}

/// The type of an index.
#[derive(Debug, PartialEq, Eq, Structural, Clone, Copy)]
pub enum IndexType {
    Unique,
    Normal,
}

/// What a default expression does.
#[derive(Debug, PartialEq, Eq, Structural, Clone, Copy)]
pub enum ValueGeneratorFn {
    UUID,
    CUID,
    Now,
    Autoincrement,
    DbGenerated,
}

/// An expression that the database evaluates to make a default.
#[derive(Debug, PartialEq)]
pub struct ValueGenerator {
    /// The name by which the schema language calls the expression.
    pub name: String,
    /// What the expression does.
    pub generator: ValueGeneratorFn,
}

pub struct ValueGeneratorView {
    pub name: Seq<char>,
    pub generator: ValueGeneratorFn,
}

impl DeepView for ValueGenerator {
    type V = ValueGeneratorView;

    open spec fn deep_view(&self) -> ValueGeneratorView {
        ValueGeneratorView {
            name: self.name@,
            generator: self.generator,
        }
    }
}

impl Clone for ValueGenerator {
    fn clone(&self) -> (r: Self)
        ensures
            r.deep_view() == self.deep_view(),
    {
        ValueGenerator {
            name: self.name.clone(),
            generator: self.generator,
        }
    }
}

impl Same for ValueGenerator {
    fn same(&self, other: &ValueGenerator) -> (r: bool) {
        self.name == other.name
            && self.generator == other.generator
    }
}

/// The default of a scalar field.
#[derive(Debug, PartialEq)]
pub enum DefaultValue {
    /// A constant.
    Single(PrismaValue),
    /// An expression that the database evaluates.
    Expression(ValueGenerator),
}

pub enum DefaultValueView {
    Single(PrismaValueView),
    Expression(ValueGeneratorView),
}

impl DeepView for DefaultValue {
    type V = DefaultValueView;

    open spec fn deep_view(&self) -> DefaultValueView {
        match self {
            DefaultValue::Single(x0) => DefaultValueView::Single(x0.deep_view()),
            DefaultValue::Expression(x0) => DefaultValueView::Expression(x0.deep_view()),
        }
    }
}

impl Clone for DefaultValue {
    fn clone(&self) -> (r: Self)
        ensures
            r.deep_view() == self.deep_view(),
    {
        match self {
            DefaultValue::Single(x0) => DefaultValue::Single(x0.clone()),
            DefaultValue::Expression(x0) => DefaultValue::Expression(x0.clone()),
        }
    }
}

impl Same for DefaultValue {
    fn same(&self, other: &DefaultValue) -> (r: bool) {
        match (self, other) {
            (DefaultValue::Single(a0), DefaultValue::Single(b0)) => a0.same(b0),
            (DefaultValue::Expression(a0), DefaultValue::Expression(b0)) => a0.same(b0),
            _ => false,
        }
    }
}

/// How a relation field is tied to the model it points to.
#[derive(Debug, PartialEq)]
pub struct RelationInfo {
    /// The name of the model the field points to.
    pub to: String,
    /// The scalar fields of this model that hold the reference.
    pub fields: Vec<String>,
    /// The fields of the other model that are referred to.
    pub to_fields: Vec<String>,
    /// The name of the relation; both of its fields carry it.
    pub name: String,
    /// What happens to this record when the other is deleted.
    pub on_delete: OnDeleteStrategy,
}

pub struct RelationInfoView {
    pub to: Seq<char>,
    pub fields: Seq<Seq<char>>,
    pub to_fields: Seq<Seq<char>>,
    pub name: Seq<char>,
    pub on_delete: OnDeleteStrategy,
}

impl DeepView for RelationInfo {
    type V = RelationInfoView;

    open spec fn deep_view(&self) -> RelationInfoView {
        RelationInfoView {
            to: self.to@,
            fields: self.fields.deep_view(),
            to_fields: self.to_fields.deep_view(),
            name: self.name@,
            on_delete: self.on_delete,
        }
    }
}

impl Clone for RelationInfo {
    fn clone(&self) -> (r: Self)
        ensures
            r.deep_view() == self.deep_view(),
    {
        RelationInfo {
            to: self.to.clone(),
            fields: names_clone(&self.fields),
            to_fields: names_clone(&self.to_fields),
            name: self.name.clone(),
            on_delete: self.on_delete,
        }
    }
}

impl Same for RelationInfo {
    fn same(&self, other: &RelationInfo) -> (r: bool) {
        self.to == other.to
            && names_eq(&self.fields, &other.fields)
            && names_eq(&self.to_fields, &other.to_fields)
            && self.name == other.name
            && self.on_delete == other.on_delete
    }
}

/// The type of a field.
#[derive(Debug, PartialEq)]
pub enum FieldType {
    /// An enum, by its name.
    Enum(String),
    /// A relation.
    Relation(RelationInfo),
    /// A builtin scalar type together with a native type of the database.
    NativeType(ScalarType, NativeType),
    /// A type that cannot be represented, by the database's name for it.
    Unsupported(String),
    /// A builtin scalar type, with the type alias it was written as, if any.
    Base(ScalarType, Option<String>),
}

pub enum FieldTypeView {
    Enum(Seq<char>),
    Relation(RelationInfoView),
    NativeType(ScalarType, NativeType),
    Unsupported(Seq<char>),
    Base(ScalarType, Option<Seq<char>>),
}

impl DeepView for FieldType {
    type V = FieldTypeView;

    open spec fn deep_view(&self) -> FieldTypeView {
        match self {
            FieldType::Enum(x0) => FieldTypeView::Enum(x0@),
            FieldType::Relation(x0) => FieldTypeView::Relation(x0.deep_view()),
            FieldType::NativeType(x0, x1) => FieldTypeView::NativeType(*x0, *x1),
            FieldType::Unsupported(x0) => FieldTypeView::Unsupported(x0@),
            FieldType::Base(x0, x1) => FieldTypeView::Base(*x0, x1.deep_view()),
        }
    }
}

impl Clone for FieldType {
    fn clone(&self) -> (r: Self)
        ensures
            r.deep_view() == self.deep_view(),
    {
        match self {
            FieldType::Enum(x0) => FieldType::Enum(x0.clone()),
            FieldType::Relation(x0) => FieldType::Relation(x0.clone()),
            FieldType::NativeType(x0, x1) => FieldType::NativeType(*x0, *x1),
            FieldType::Unsupported(x0) => FieldType::Unsupported(x0.clone()),
            FieldType::Base(x0, x1) => FieldType::Base(*x0, name_option_clone(x1)),
        }
    }
}

impl Same for FieldType {
    fn same(&self, other: &FieldType) -> (r: bool) {
        match (self, other) {
            (FieldType::Enum(a0), FieldType::Enum(b0)) => *a0 == *b0,
            (FieldType::Relation(a0), FieldType::Relation(b0)) => a0.same(b0),
            (FieldType::NativeType(a0, a1), FieldType::NativeType(b0, b1)) => *a0 == *b0 && *a1 == *b1,
            (FieldType::Unsupported(a0), FieldType::Unsupported(b0)) => *a0 == *b0,
            (FieldType::Base(a0, a1), FieldType::Base(b0, b1)) => *a0 == *b0 && name_option_eq(a1, b1),
            _ => false,
        }
    }
}

/// A field that holds a value.
#[derive(Debug, PartialEq)]
pub struct ScalarField {
    pub name: String,
    pub field_type: FieldType,
    pub arity: FieldArity,
    /// The name of the column, where it differs from the field's name.
    pub database_name: Option<String>,
    pub default_value: Option<DefaultValue>,
    pub is_unique: bool,
    pub is_id: bool,
    pub documentation: Option<String>,
    pub is_generated: bool,
    pub is_updated_at: bool,
    pub is_commented_out: bool,
}

pub struct ScalarFieldView {
    pub name: Seq<char>,
    pub field_type: FieldTypeView,
    pub arity: FieldArity,
    pub database_name: Option<Seq<char>>,
    pub default_value: Option<DefaultValueView>,
    pub is_unique: bool,
    pub is_id: bool,
    pub documentation: Option<Seq<char>>,
    pub is_generated: bool,
    pub is_updated_at: bool,
    pub is_commented_out: bool,
}

impl DeepView for ScalarField {
    type V = ScalarFieldView;

    open spec fn deep_view(&self) -> ScalarFieldView {
        ScalarFieldView {
            name: self.name@,
            field_type: self.field_type.deep_view(),
            arity: self.arity,
            database_name: self.database_name.deep_view(),
            default_value: self.default_value.deep_view(),
            is_unique: self.is_unique,
            is_id: self.is_id,
            documentation: self.documentation.deep_view(),
            is_generated: self.is_generated,
            is_updated_at: self.is_updated_at,
            is_commented_out: self.is_commented_out,
        }
    }
}

impl Clone for ScalarField {
    fn clone(&self) -> (r: Self)
        ensures
            r.deep_view() == self.deep_view(),
    {
        ScalarField {
            name: self.name.clone(),
            field_type: self.field_type.clone(),
            arity: self.arity,
            database_name: name_option_clone(&self.database_name),
            default_value: option_clone(&self.default_value),
            is_unique: self.is_unique,
            is_id: self.is_id,
            documentation: name_option_clone(&self.documentation),
            is_generated: self.is_generated,
            is_updated_at: self.is_updated_at,
            is_commented_out: self.is_commented_out,
        }
    }
}

impl Same for ScalarField {
    fn same(&self, other: &ScalarField) -> (r: bool) {
        self.name == other.name
            && self.field_type.same(&other.field_type)
            && self.arity == other.arity
            && name_option_eq(&self.database_name, &other.database_name)
            && option_same(&self.default_value, &other.default_value)
            && self.is_unique == other.is_unique
            && self.is_id == other.is_id
            && name_option_eq(&self.documentation, &other.documentation)
            && self.is_generated == other.is_generated
            && self.is_updated_at == other.is_updated_at
            && self.is_commented_out == other.is_commented_out
    }
}

/// A field that points to another model.
#[derive(Debug, PartialEq)]
pub struct RelationField {
    pub name: String,
    pub relation_info: RelationInfo,
    pub arity: FieldArity,
    pub documentation: Option<String>,
    pub is_generated: bool,
    pub is_commented_out: bool,
}

pub struct RelationFieldView {
    pub name: Seq<char>,
    pub relation_info: RelationInfoView,
    pub arity: FieldArity,
    pub documentation: Option<Seq<char>>,
    pub is_generated: bool,
    pub is_commented_out: bool,
}

impl DeepView for RelationField {
    type V = RelationFieldView;

    open spec fn deep_view(&self) -> RelationFieldView {
        RelationFieldView {
            name: self.name@,
            relation_info: self.relation_info.deep_view(),
            arity: self.arity,
            documentation: self.documentation.deep_view(),
            is_generated: self.is_generated,
            is_commented_out: self.is_commented_out,
        }
    }
}

impl Clone for RelationField {
    fn clone(&self) -> (r: Self)
        ensures
            r.deep_view() == self.deep_view(),
    {
        RelationField {
            name: self.name.clone(),
            relation_info: self.relation_info.clone(),
            arity: self.arity,
            documentation: name_option_clone(&self.documentation),
            is_generated: self.is_generated,
            is_commented_out: self.is_commented_out,
        }
    }
}

impl Same for RelationField {
    fn same(&self, other: &RelationField) -> (r: bool) {
        self.name == other.name
            && self.relation_info.same(&other.relation_info)
            && self.arity == other.arity
            && name_option_eq(&self.documentation, &other.documentation)
            && self.is_generated == other.is_generated
            && self.is_commented_out == other.is_commented_out
    }
}

/// A field of a model.
#[derive(Debug, PartialEq)]
pub enum Field {
    ScalarField(ScalarField),
    RelationField(RelationField),
}

pub enum FieldView {
    ScalarField(ScalarFieldView),
    RelationField(RelationFieldView),
}

impl DeepView for Field {
    type V = FieldView;

    open spec fn deep_view(&self) -> FieldView {
        match self {
            Field::ScalarField(x0) => FieldView::ScalarField(x0.deep_view()),
            Field::RelationField(x0) => FieldView::RelationField(x0.deep_view()),
        }
    }
}

impl Clone for Field {
    fn clone(&self) -> (r: Self)
        ensures
            r.deep_view() == self.deep_view(),
    {
        match self {
            Field::ScalarField(x0) => Field::ScalarField(x0.clone()),
            Field::RelationField(x0) => Field::RelationField(x0.clone()),
        }
    }
}

impl Same for Field {
    fn same(&self, other: &Field) -> (r: bool) {
        match (self, other) {
            (Field::ScalarField(a0), Field::ScalarField(b0)) => a0.same(b0),
            (Field::RelationField(a0), Field::RelationField(b0)) => a0.same(b0),
            _ => false,
        }
    }
}

/// An index over several fields of a model.
#[derive(Debug, PartialEq)]
pub struct IndexDefinition {
    pub name: Option<String>,
    pub fields: Vec<String>,
    pub tpe: IndexType,
}

pub struct IndexDefinitionView {
    pub name: Option<Seq<char>>,
    pub fields: Seq<Seq<char>>,
    pub tpe: IndexType,
}

impl DeepView for IndexDefinition {
    type V = IndexDefinitionView;

    open spec fn deep_view(&self) -> IndexDefinitionView {
        IndexDefinitionView {
            name: self.name.deep_view(),
            fields: self.fields.deep_view(),
            tpe: self.tpe,
        }
    }
}

impl Clone for IndexDefinition {
    fn clone(&self) -> (r: Self)
        ensures
            r.deep_view() == self.deep_view(),
    {
        IndexDefinition {
            name: name_option_clone(&self.name),
            fields: names_clone(&self.fields),
            tpe: self.tpe,
        }
    }
}

impl Same for IndexDefinition {
    fn same(&self, other: &IndexDefinition) -> (r: bool) {
        name_option_eq(&self.name, &other.name)
            && names_eq(&self.fields, &other.fields)
            && self.tpe == other.tpe
    }
}

/// A model: what a table is to the database.
#[derive(Debug, PartialEq)]
pub struct Model {
    pub name: String,
    pub fields: Vec<Field>,
    pub documentation: Option<String>,
    /// The name of the table, where it differs from the model's name.
    pub database_name: Option<String>,
    pub is_embedded: bool,
    pub indices: Vec<IndexDefinition>,
    /// The fields of a primary key made of several fields.
    pub id_fields: Vec<String>,
    pub is_generated: bool,
    pub is_commented_out: bool,
}

pub struct ModelView {
    pub name: Seq<char>,
    pub fields: Seq<FieldView>,
    pub documentation: Option<Seq<char>>,
    pub database_name: Option<Seq<char>>,
    pub is_embedded: bool,
    pub indices: Seq<IndexDefinitionView>,
    pub id_fields: Seq<Seq<char>>,
    pub is_generated: bool,
    pub is_commented_out: bool,
}

impl DeepView for Model {
    type V = ModelView;

    open spec fn deep_view(&self) -> ModelView {
        ModelView {
            name: self.name@,
            fields: self.fields.deep_view(),
            documentation: self.documentation.deep_view(),
            database_name: self.database_name.deep_view(),
            is_embedded: self.is_embedded,
            indices: self.indices.deep_view(),
            id_fields: self.id_fields.deep_view(),
            is_generated: self.is_generated,
            is_commented_out: self.is_commented_out,
        }
    }
}

impl Clone for Model {
    fn clone(&self) -> (r: Self)
        ensures
            r.deep_view() == self.deep_view(),
    {
        Model {
            name: self.name.clone(),
            fields: list_clone(&self.fields),
            documentation: name_option_clone(&self.documentation),
            database_name: name_option_clone(&self.database_name),
            is_embedded: self.is_embedded,
            indices: list_clone(&self.indices),
            id_fields: names_clone(&self.id_fields),
            is_generated: self.is_generated,
            is_commented_out: self.is_commented_out,
        }
    }
}

impl Same for Model {
    fn same(&self, other: &Model) -> (r: bool) {
        self.name == other.name
            && all_same(&self.fields, &other.fields)
            && name_option_eq(&self.documentation, &other.documentation)
            && name_option_eq(&self.database_name, &other.database_name)
            && self.is_embedded == other.is_embedded
            && all_same(&self.indices, &other.indices)
            && names_eq(&self.id_fields, &other.id_fields)
            && self.is_generated == other.is_generated
            && self.is_commented_out == other.is_commented_out
    }
}

/// A value of an enum.
#[derive(Debug, PartialEq)]
pub struct EnumValue {
    pub name: String,
    pub database_name: Option<String>,
    pub documentation: Option<String>,
    pub commented_out: bool,
}

pub struct EnumValueView {
    pub name: Seq<char>,
    pub database_name: Option<Seq<char>>,
    pub documentation: Option<Seq<char>>,
    pub commented_out: bool,
}

impl DeepView for EnumValue {
    type V = EnumValueView;

    open spec fn deep_view(&self) -> EnumValueView {
        EnumValueView {
            name: self.name@,
            database_name: self.database_name.deep_view(),
            documentation: self.documentation.deep_view(),
            commented_out: self.commented_out,
        }
    }
}

impl Clone for EnumValue {
    fn clone(&self) -> (r: Self)
        ensures
            r.deep_view() == self.deep_view(),
    {
        EnumValue {
            name: self.name.clone(),
            database_name: name_option_clone(&self.database_name),
            documentation: name_option_clone(&self.documentation),
            commented_out: self.commented_out,
        }
    }
}

impl Same for EnumValue {
    fn same(&self, other: &EnumValue) -> (r: bool) {
        self.name == other.name
            && name_option_eq(&self.database_name, &other.database_name)
            && name_option_eq(&self.documentation, &other.documentation)
            && self.commented_out == other.commented_out
    }
}

/// An enum.
#[derive(Debug, PartialEq)]
pub struct Enum {
    pub name: String,
    pub values: Vec<EnumValue>,
    pub documentation: Option<String>,
    pub database_name: Option<String>,
    pub commented_out: bool,
}

pub struct EnumView {
    pub name: Seq<char>,
    pub values: Seq<EnumValueView>,
    pub documentation: Option<Seq<char>>,
    pub database_name: Option<Seq<char>>,
    pub commented_out: bool,
}

impl DeepView for Enum {
    type V = EnumView;

    open spec fn deep_view(&self) -> EnumView {
        EnumView {
            name: self.name@,
            values: self.values.deep_view(),
            documentation: self.documentation.deep_view(),
            database_name: self.database_name.deep_view(),
            commented_out: self.commented_out,
        }
    }
}

impl Clone for Enum {
    fn clone(&self) -> (r: Self)
        ensures
            r.deep_view() == self.deep_view(),
    {
        Enum {
            name: self.name.clone(),
            values: list_clone(&self.values),
            documentation: name_option_clone(&self.documentation),
            database_name: name_option_clone(&self.database_name),
            commented_out: self.commented_out,
        }
    }
}

impl Same for Enum {
    fn same(&self, other: &Enum) -> (r: bool) {
        self.name == other.name
            && all_same(&self.values, &other.values)
            && name_option_eq(&self.documentation, &other.documentation)
            && name_option_eq(&self.database_name, &other.database_name)
            && self.commented_out == other.commented_out
    }
}

/// A whole data model.
#[derive(Debug, PartialEq)]
pub struct Datamodel {
    pub enums: Vec<Enum>,
    pub models: Vec<Model>,
}

pub struct DatamodelView {
    pub enums: Seq<EnumView>,
    pub models: Seq<ModelView>,
}

impl DeepView for Datamodel {
    type V = DatamodelView;

    open spec fn deep_view(&self) -> DatamodelView {
        DatamodelView {
            enums: self.enums.deep_view(),
            models: self.models.deep_view(),
        }
    }
}

impl Clone for Datamodel {
    fn clone(&self) -> (r: Self)
        ensures
            r.deep_view() == self.deep_view(),
    {
        Datamodel {
            enums: list_clone(&self.enums),
            models: list_clone(&self.models),
        }
    }
}

impl Same for Datamodel {
    fn same(&self, other: &Datamodel) -> (r: bool) {
        all_same(&self.enums, &other.enums)
            && all_same(&self.models, &other.models)
    }
}

} // verus!
