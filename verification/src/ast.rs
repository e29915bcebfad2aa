//! The syntax tree of a schema: what a parser hands over and a renderer
//! takes.

use crate::seqs::{all_same, list_clone, option_clone, option_same, Same};
use vstd::prelude::*;
use vstd::string::*;

pub mod expression;
pub mod field;
pub mod names;

pub use expression::Expression;

verus! {

/// A place in the text of a schema.
#[derive(Debug, PartialEq, Eq, Structural, Clone, Copy)]
pub struct Span {
    pub start: usize,
    pub end: usize,
}

impl Span {
    /// The place from `start` up to `end`.
    pub fn new(start: usize, end: usize) -> (r: Span)
        ensures
            r == (Span { start, end }),
    {
        Span { start, end }
    }

    /// The place that is nowhere.
    pub fn empty() -> (r: Span)
        ensures
            r == (Span { start: 0, end: 0 }),
    {
        Span { start: 0, end: 0 }
    }
}

/// How many values a field holds.
#[derive(Debug, PartialEq, Eq, Structural, Clone, Copy)]
pub enum FieldArity {
    Required,
    Optional,
    List,
}

/// A name as it was written, with the place where it was written.
#[derive(Debug, PartialEq)]
pub struct Identifier {
    pub name: String,
    pub span: Span,
}

pub struct IdentifierView {
    pub name: Seq<char>,
    pub span: Span,
}

impl DeepView for Identifier {
    type V = IdentifierView;

    open spec fn deep_view(&self) -> IdentifierView {
        IdentifierView {
            name: self.name@,
            span: self.span,
        }
    }
}

impl Clone for Identifier {
    fn clone(&self) -> (r: Self)
        ensures
            r.deep_view() == self.deep_view(),
    {
        Identifier {
            name: self.name.clone(),
            span: self.span,
        }
    }
}

impl Same for Identifier {
    fn same(&self, other: &Identifier) -> (r: bool) {
        self.name == other.name
            && self.span == other.span
    }
}

/// A comment that documents what follows it.
#[derive(Debug, PartialEq)]
pub struct Comment {
    pub text: String,
}

pub struct CommentView {
    pub text: Seq<char>,
}

impl DeepView for Comment {
    type V = CommentView;

    open spec fn deep_view(&self) -> CommentView {
        CommentView {
            text: self.text@,
        }
    }
}

impl Clone for Comment {
    fn clone(&self) -> (r: Self)
        ensures
            r.deep_view() == self.deep_view(),
    {
        Comment {
            text: self.text.clone(),
        }
    }
}

impl Same for Comment {
    fn same(&self, other: &Comment) -> (r: bool) {
        self.text == other.text
    }
}

/// An argument of an attribute or a property of a configuration block.
#[derive(Debug, PartialEq)]
pub struct Argument {
    /// The name of the argument; empty where it was written without a name.
    pub name: Identifier,
    pub value: Expression,
    pub span: Span,
}

pub struct ArgumentView {
    pub name: IdentifierView,
    /// The canonical text of the value.
    pub value: Seq<char>,
    pub span: Span,
}

impl DeepView for Argument {
    type V = ArgumentView;

    open spec fn deep_view(&self) -> ArgumentView {
        ArgumentView {
            name: self.name.deep_view(),
            value: self.value.deep_view(),
            span: self.span,
        }
    }
}

impl Clone for Argument {
    fn clone(&self) -> (r: Self)
        ensures
            r.deep_view() == self.deep_view(),
    {
        Argument {
            name: self.name.clone(),
            value: self.value.clone(),
            span: self.span,
        }
    }
}

impl Same for Argument {
    fn same(&self, other: &Argument) -> (r: bool) {
        self.name.same(&other.name)
            && self.value.same(&other.value)
            && self.span == other.span
    }
}

/// An attribute of a field, a model, an enum or an enum value.
#[derive(Debug, PartialEq)]
pub struct Attribute {
    pub name: Identifier,
    pub arguments: Vec<Argument>,
    pub span: Span,
}

pub struct AttributeView {
    pub name: IdentifierView,
    pub arguments: Seq<ArgumentView>,
    pub span: Span,
}

impl DeepView for Attribute {
    type V = AttributeView;

    open spec fn deep_view(&self) -> AttributeView {
        AttributeView {
            name: self.name.deep_view(),
            arguments: self.arguments.deep_view(),
            span: self.span,
        }
    }
}

impl Clone for Attribute {
    fn clone(&self) -> (r: Self)
        ensures
            r.deep_view() == self.deep_view(),
    {
        Attribute {
            name: self.name.clone(),
            arguments: list_clone(&self.arguments),
            span: self.span,
        }
    }
}

impl Same for Attribute {
    fn same(&self, other: &Attribute) -> (r: bool) {
        self.name.same(&other.name)
            && all_same(&self.arguments, &other.arguments)
            && self.span == other.span
    }
}

/// A field of a model, or a type alias.
#[derive(Debug, PartialEq)]
pub struct Field {
    /// The field's type.
    pub field_type: Identifier,
    /// The name of the field.
    pub name: Identifier,
    /// The arity of the field.
    pub arity: FieldArity,
    /// The attributes of this field.
    pub attributes: Vec<Attribute>,
    /// The comments for this field.
    pub documentation: Option<Comment>,
    /// The location of this field in the text representation.
    pub span: Span,
    /// Whether the field was commented out.
    pub is_commented_out: bool,
}

pub struct FieldView {
    pub field_type: IdentifierView,
    pub name: IdentifierView,
    pub arity: FieldArity,
    pub attributes: Seq<AttributeView>,
    pub documentation: Option<CommentView>,
    pub span: Span,
    pub is_commented_out: bool,
}

impl DeepView for Field {
    type V = FieldView;

    open spec fn deep_view(&self) -> FieldView {
        FieldView {
            field_type: self.field_type.deep_view(),
            name: self.name.deep_view(),
            arity: self.arity,
            attributes: self.attributes.deep_view(),
            documentation: self.documentation.deep_view(),
            span: self.span,
            is_commented_out: self.is_commented_out,
        }
    }
}

impl Clone for Field {
    fn clone(&self) -> (r: Self)
        ensures
            r.deep_view() == self.deep_view(),
    {
        Field {
            field_type: self.field_type.clone(),
            name: self.name.clone(),
            arity: self.arity,
            attributes: list_clone(&self.attributes),
            documentation: option_clone(&self.documentation),
            span: self.span,
            is_commented_out: self.is_commented_out,
        }
    }
}

impl Same for Field {
    fn same(&self, other: &Field) -> (r: bool) {
        self.field_type.same(&other.field_type)
            && self.name.same(&other.name)
            && self.arity == other.arity
            && all_same(&self.attributes, &other.attributes)
            && option_same(&self.documentation, &other.documentation)
            && self.span == other.span
            && self.is_commented_out == other.is_commented_out
    }
}

/// A value of an enum.
#[derive(Debug, PartialEq)]
pub struct EnumValue {
    pub name: Identifier,
    pub attributes: Vec<Attribute>,
    pub documentation: Option<Comment>,
    pub span: Span,
    pub commented_out: bool,
}

pub struct EnumValueView {
    pub name: IdentifierView,
    pub attributes: Seq<AttributeView>,
    pub documentation: Option<CommentView>,
    pub span: Span,
    pub commented_out: bool,
}

impl DeepView for EnumValue {
    type V = EnumValueView;

    open spec fn deep_view(&self) -> EnumValueView {
        EnumValueView {
            name: self.name.deep_view(),
            attributes: self.attributes.deep_view(),
            documentation: self.documentation.deep_view(),
            span: self.span,
            commented_out: self.commented_out,
        }
    }
}

impl Clone for EnumValue {
    fn clone(&self) -> (r: Self)
        ensures
            r.deep_view() == self.deep_view(),
    {
        EnumValue {
            name: self.name.clone(),
            attributes: list_clone(&self.attributes),
            documentation: option_clone(&self.documentation),
            span: self.span,
            commented_out: self.commented_out,
        }
    }
}

impl Same for EnumValue {
    fn same(&self, other: &EnumValue) -> (r: bool) {
        self.name.same(&other.name)
            && all_same(&self.attributes, &other.attributes)
            && option_same(&self.documentation, &other.documentation)
            && self.span == other.span
            && self.commented_out == other.commented_out
    }
}

/// An enum.
#[derive(Debug, PartialEq)]
pub struct Enum {
    pub name: Identifier,
    pub values: Vec<EnumValue>,
    pub attributes: Vec<Attribute>,
    pub documentation: Option<Comment>,
    pub span: Span,
}

pub struct EnumView {
    pub name: IdentifierView,
    pub values: Seq<EnumValueView>,
    pub attributes: Seq<AttributeView>,
    pub documentation: Option<CommentView>,
    pub span: Span,
}

impl DeepView for Enum {
    type V = EnumView;

    open spec fn deep_view(&self) -> EnumView {
        EnumView {
            name: self.name.deep_view(),
            values: self.values.deep_view(),
            attributes: self.attributes.deep_view(),
            documentation: self.documentation.deep_view(),
            span: self.span,
        }
    }
}

impl Clone for Enum {
    fn clone(&self) -> (r: Self)
        ensures
            r.deep_view() == self.deep_view(),
    {
        Enum {
            name: self.name.clone(),
            values: list_clone(&self.values),
            attributes: list_clone(&self.attributes),
            documentation: option_clone(&self.documentation),
            span: self.span,
        }
    }
}

impl Same for Enum {
    fn same(&self, other: &Enum) -> (r: bool) {
        self.name.same(&other.name)
            && all_same(&self.values, &other.values)
            && all_same(&self.attributes, &other.attributes)
            && option_same(&self.documentation, &other.documentation)
            && self.span == other.span
    }
}

/// A model.
#[derive(Debug, PartialEq)]
pub struct Model {
    pub name: Identifier,
    pub fields: Vec<Field>,
    pub attributes: Vec<Attribute>,
    pub documentation: Option<Comment>,
    pub span: Span,
    pub commented_out: bool,
}

pub struct ModelView {
    pub name: IdentifierView,
    pub fields: Seq<FieldView>,
    pub attributes: Seq<AttributeView>,
    pub documentation: Option<CommentView>,
    pub span: Span,
    pub commented_out: bool,
}

impl DeepView for Model {
    type V = ModelView;

    open spec fn deep_view(&self) -> ModelView {
        ModelView {
            name: self.name.deep_view(),
            fields: self.fields.deep_view(),
            attributes: self.attributes.deep_view(),
            documentation: self.documentation.deep_view(),
            span: self.span,
            commented_out: self.commented_out,
        }
    }
}

impl Clone for Model {
    fn clone(&self) -> (r: Self)
        ensures
            r.deep_view() == self.deep_view(),
    {
        Model {
            name: self.name.clone(),
            fields: list_clone(&self.fields),
            attributes: list_clone(&self.attributes),
            documentation: option_clone(&self.documentation),
            span: self.span,
            commented_out: self.commented_out,
        }
    }
}

impl Same for Model {
    fn same(&self, other: &Model) -> (r: bool) {
        self.name.same(&other.name)
            && all_same(&self.fields, &other.fields)
            && all_same(&self.attributes, &other.attributes)
            && option_same(&self.documentation, &other.documentation)
            && self.span == other.span
            && self.commented_out == other.commented_out
    }
}

/// A datasource block.
#[derive(Debug, PartialEq)]
pub struct SourceConfig {
    pub name: Identifier,
    pub properties: Vec<Argument>,
    pub documentation: Option<Comment>,
    pub span: Span,
}

pub struct SourceConfigView {
    pub name: IdentifierView,
    pub properties: Seq<ArgumentView>,
    pub documentation: Option<CommentView>,
    pub span: Span,
}

impl DeepView for SourceConfig {
    type V = SourceConfigView;

    open spec fn deep_view(&self) -> SourceConfigView {
        SourceConfigView {
            name: self.name.deep_view(),
            properties: self.properties.deep_view(),
            documentation: self.documentation.deep_view(),
            span: self.span,
        }
    }
}

impl Clone for SourceConfig {
    fn clone(&self) -> (r: Self)
        ensures
            r.deep_view() == self.deep_view(),
    {
        SourceConfig {
            name: self.name.clone(),
            properties: list_clone(&self.properties),
            documentation: option_clone(&self.documentation),
            span: self.span,
        }
    }
}

impl Same for SourceConfig {
    fn same(&self, other: &SourceConfig) -> (r: bool) {
        self.name.same(&other.name)
            && all_same(&self.properties, &other.properties)
            && option_same(&self.documentation, &other.documentation)
            && self.span == other.span
    }
}

/// A generator block.
#[derive(Debug, PartialEq)]
pub struct GeneratorConfig {
    pub name: Identifier,
    pub properties: Vec<Argument>,
    pub documentation: Option<Comment>,
    pub span: Span,
}

pub struct GeneratorConfigView {
    pub name: IdentifierView,
    pub properties: Seq<ArgumentView>,
    pub documentation: Option<CommentView>,
    pub span: Span,
}

impl DeepView for GeneratorConfig {
    type V = GeneratorConfigView;

    open spec fn deep_view(&self) -> GeneratorConfigView {
        GeneratorConfigView {
            name: self.name.deep_view(),
            properties: self.properties.deep_view(),
            documentation: self.documentation.deep_view(),
            span: self.span,
        }
    }
}

impl Clone for GeneratorConfig {
    fn clone(&self) -> (r: Self)
        ensures
            r.deep_view() == self.deep_view(),
    {
        GeneratorConfig {
            name: self.name.clone(),
            properties: list_clone(&self.properties),
            documentation: option_clone(&self.documentation),
            span: self.span,
        }
    }
}

impl Same for GeneratorConfig {
    fn same(&self, other: &GeneratorConfig) -> (r: bool) {
        self.name.same(&other.name)
            && all_same(&self.properties, &other.properties)
            && option_same(&self.documentation, &other.documentation)
            && self.span == other.span
    }
}

/// What can stand at the top level of a schema.
#[derive(Debug, PartialEq)]
pub enum Top {
    Enum(Enum),
    Model(Model),
    Source(SourceConfig),
    Generator(GeneratorConfig),
    Type(Field),
}

pub enum TopView {
    Enum(EnumView),
    Model(ModelView),
    Source(SourceConfigView),
    Generator(GeneratorConfigView),
    Type(FieldView),
}

impl DeepView for Top {
    type V = TopView;

    open spec fn deep_view(&self) -> TopView {
        match self {
            Top::Enum(x0) => TopView::Enum(x0.deep_view()),
            Top::Model(x0) => TopView::Model(x0.deep_view()),
            Top::Source(x0) => TopView::Source(x0.deep_view()),
            Top::Generator(x0) => TopView::Generator(x0.deep_view()),
            Top::Type(x0) => TopView::Type(x0.deep_view()),
        }
    }
}

impl Clone for Top {
    fn clone(&self) -> (r: Self)
        ensures
            r.deep_view() == self.deep_view(),
    {
        match self {
            Top::Enum(x0) => Top::Enum(x0.clone()),
            Top::Model(x0) => Top::Model(x0.clone()),
            Top::Source(x0) => Top::Source(x0.clone()),
            Top::Generator(x0) => Top::Generator(x0.clone()),
            Top::Type(x0) => Top::Type(x0.clone()),
        }
    }
}

impl Same for Top {
    fn same(&self, other: &Top) -> (r: bool) {
        match (self, other) {
            (Top::Enum(a0), Top::Enum(b0)) => a0.same(b0),
            (Top::Model(a0), Top::Model(b0)) => a0.same(b0),
            (Top::Source(a0), Top::Source(b0)) => a0.same(b0),
            (Top::Generator(a0), Top::Generator(b0)) => a0.same(b0),
            (Top::Type(a0), Top::Type(b0)) => a0.same(b0),
            _ => false,
        }
    }
}

/// A whole schema.
#[derive(Debug, PartialEq)]
pub struct SchemaAst {
    pub tops: Vec<Top>,
}

pub struct SchemaAstView {
    pub tops: Seq<TopView>,
}

impl DeepView for SchemaAst {
    type V = SchemaAstView;

    open spec fn deep_view(&self) -> SchemaAstView {
        SchemaAstView {
            tops: self.tops.deep_view(),
        }
    }
}

impl Clone for SchemaAst {
    fn clone(&self) -> (r: Self)
        ensures
            r.deep_view() == self.deep_view(),
    {
        SchemaAst {
            tops: list_clone(&self.tops),
        }
    }
}

impl Same for SchemaAst {
    fn same(&self, other: &SchemaAst) -> (r: bool) {
        all_same(&self.tops, &other.tops)
    }
}

} // verus!
