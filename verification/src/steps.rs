//! The steps of a migration: the edits that turn one schema into another.

use crate::ast::{Expression, FieldArity};
use crate::seqs::{all_same, list_clone, Same};
use crate::text::{name_option_clone, name_option_eq, names_clone, names_eq};
use vstd::prelude::*;
use vstd::string::*;

verus! {

/// A value of an argument, as its canonical text.
#[derive(Debug, PartialEq)]
pub struct MigrationExpression(pub String);

impl DeepView for MigrationExpression {
    type V = Seq<char>;

    open spec fn deep_view(&self) -> Seq<char> {
        self.0@
    }
}

impl Clone for MigrationExpression {
    fn clone(&self) -> (r: Self)
        ensures
            r.deep_view() == self.deep_view(),
    {
        MigrationExpression(self.0.clone())
    }
}

impl Same for MigrationExpression {
    fn same(&self, other: &MigrationExpression) -> (r: bool) {
        self.0 == other.0
    }
}

impl MigrationExpression {
    /// The canonical text of a value of the schema.
    pub fn from_ast_expression(expr: &Expression) -> (r: MigrationExpression)
        ensures
            r.deep_view() == expr.deep_view(),
    {
        MigrationExpression(expr.render_to_string())
    }
}

/// What an attribute is an attribute of.
#[derive(Debug, PartialEq)]
pub enum DirectivePath {
    Field { model: String, field: String },
    /// A model; for an attribute that a model can carry more than once, the
    /// arguments that tell it from the others.
    Model { model: String, arguments: Option<Vec<Argument>> },
    Enum { enum_name: String },
    EnumValue { enum_name: String, value: String },
    TypeAlias { type_alias: String },
}

pub enum DirectivePathView {
    Field { model: Seq<char>, field: Seq<char> },
    Model { model: Seq<char>, arguments: Option<Seq<ArgumentView>> },
    Enum { enum_name: Seq<char> },
    EnumValue { enum_name: Seq<char>, value: Seq<char> },
    TypeAlias { type_alias: Seq<char> },
}

impl DeepView for DirectivePath {
    type V = DirectivePathView;

    open spec fn deep_view(&self) -> DirectivePathView {
        match self {
            DirectivePath::Field { model, field } => DirectivePathView::Field {
                model: model@,
                field: field@,
            },
            DirectivePath::Model { model, arguments } => DirectivePathView::Model {
                model: model@,
                arguments: arguments.deep_view(),
            },
            DirectivePath::Enum { enum_name } => DirectivePathView::Enum { enum_name: enum_name@ },
            DirectivePath::EnumValue { enum_name, value } => DirectivePathView::EnumValue {
                enum_name: enum_name@,
                value: value@,
            },
            DirectivePath::TypeAlias { type_alias } => DirectivePathView::TypeAlias {
                type_alias: type_alias@,
            },
        }
    }
}

impl Clone for DirectivePath {
    fn clone(&self) -> (r: Self)
        ensures
            r.deep_view() == self.deep_view(),
    {
        match self {
            DirectivePath::Field { model, field } => DirectivePath::Field {
                model: model.clone(),
                field: field.clone(),
            },
            DirectivePath::Model { model, arguments } => DirectivePath::Model {
                model: model.clone(),
                arguments: match arguments {
                    Some(args) => Some(list_clone(args)),
                    None => None,
                },
            },
            DirectivePath::Enum { enum_name } => DirectivePath::Enum { enum_name: enum_name.clone() },
            DirectivePath::EnumValue { enum_name, value } => DirectivePath::EnumValue {
                enum_name: enum_name.clone(),
                value: value.clone(),
            },
            DirectivePath::TypeAlias { type_alias } => DirectivePath::TypeAlias {
                type_alias: type_alias.clone(),
            },
        }
    }
}

impl Same for DirectivePath {
    fn same(&self, other: &DirectivePath) -> (r: bool) {
        match (self, other) {
            (
                DirectivePath::Field { model: a0, field: a1 },
                DirectivePath::Field { model: b0, field: b1 },
            ) => *a0 == *b0 && *a1 == *b1,
            (
                DirectivePath::Model { model: a0, arguments: a1 },
                DirectivePath::Model { model: b0, arguments: b1 },
            ) => *a0 == *b0 && match (a1, b1) {
                (Some(x), Some(y)) => all_same(x, y),
                (None, None) => true,
                _ => false,
            },
            (DirectivePath::Enum { enum_name: a0 }, DirectivePath::Enum { enum_name: b0 }) => *a0
                == *b0,
            (
                DirectivePath::EnumValue { enum_name: a0, value: a1 },
                DirectivePath::EnumValue { enum_name: b0, value: b1 },
            ) => *a0 == *b0 && *a1 == *b1,
            (
                DirectivePath::TypeAlias { type_alias: a0 },
                DirectivePath::TypeAlias { type_alias: b0 },
            ) => *a0 == *b0,
            _ => false,
        }
    }
}

impl DirectivePathView {
    /// The path with the given arguments, where it is the path of a model;
    /// the path itself otherwise.
    pub open spec fn set_arguments(self, arguments: Seq<ArgumentView>) -> DirectivePathView {
        match self {
            DirectivePathView::Model { model, arguments: _ } => DirectivePathView::Model {
                model,
                arguments: Some(arguments),
            },
            _ => self,
        }
    }
}

impl DirectivePath {
    /// The path with the given arguments, where it is the path of a model;
    /// the path itself otherwise.
    pub fn set_arguments(self, arguments: Vec<Argument>) -> (r: DirectivePath)
        ensures
            r.deep_view() == self.deep_view().set_arguments(arguments.deep_view()),
    {
        match self {
            DirectivePath::Model { model, arguments: _ } => DirectivePath::Model {
                model,
                arguments: Some(arguments),
            },
            other => other,
        }
    }
}

/// An argument of an attribute, by its name and the text of its value.
#[derive(Debug, PartialEq)]
pub struct Argument {
    pub name: String,
    pub value: MigrationExpression,
}

pub struct ArgumentView {
    pub name: Seq<char>,
    pub value: Seq<char>,
}

impl DeepView for Argument {
    type V = ArgumentView;

    open spec fn deep_view(&self) -> ArgumentView {
        ArgumentView {
            name: self.name@,
            value: self.value.deep_view(),
        }
    }
}

impl Clone for Argument {
    fn clone(&self) -> (r: Self)
        ensures
            r.deep_view() == self.deep_view(),
    {
        Argument {
            name: self.name.clone(),
            value: self.value.clone(),
        }
    }
}

impl Same for Argument {
    fn same(&self, other: &Argument) -> (r: bool) {
        self.name == other.name
            && self.value.same(&other.value)
    }
}

/// The place of an attribute: what it is an attribute of, and its name.
#[derive(Debug, PartialEq)]
pub struct DirectiveLocation {
    pub path: DirectivePath,
    pub directive: String,
}

pub struct DirectiveLocationView {
    pub path: DirectivePathView,
    pub directive: Seq<char>,
}

impl DeepView for DirectiveLocation {
    type V = DirectiveLocationView;

    open spec fn deep_view(&self) -> DirectiveLocationView {
        DirectiveLocationView {
            path: self.path.deep_view(),
            directive: self.directive@,
        }
    }
}

impl Clone for DirectiveLocation {
    fn clone(&self) -> (r: Self)
        ensures
            r.deep_view() == self.deep_view(),
    {
        DirectiveLocation {
            path: self.path.clone(),
            directive: self.directive.clone(),
        }
    }
}

impl Same for DirectiveLocation {
    fn same(&self, other: &DirectiveLocation) -> (r: bool) {
        self.path.same(&other.path)
            && self.directive == other.directive
    }
}

/// The place of a property of a datasource.
#[derive(Debug, PartialEq)]
pub struct SourceLocation {
    pub source: String,
}

pub struct SourceLocationView {
    pub source: Seq<char>,
}

impl DeepView for SourceLocation {
    type V = SourceLocationView;

    open spec fn deep_view(&self) -> SourceLocationView {
        SourceLocationView {
            source: self.source@,
        }
    }
}

impl Clone for SourceLocation {
    fn clone(&self) -> (r: Self)
        ensures
            r.deep_view() == self.deep_view(),
    {
        SourceLocation {
            source: self.source.clone(),
        }
    }
}

impl Same for SourceLocation {
    fn same(&self, other: &SourceLocation) -> (r: bool) {
        self.source == other.source
    }
}

/// The place of an argument.
#[derive(Debug, PartialEq)]
pub enum ArgumentLocation {
    Directive(DirectiveLocation),
    Source(SourceLocation),
}

pub enum ArgumentLocationView {
    Directive(DirectiveLocationView),
    Source(SourceLocationView),
}

impl DeepView for ArgumentLocation {
    type V = ArgumentLocationView;

    open spec fn deep_view(&self) -> ArgumentLocationView {
        match self {
            ArgumentLocation::Directive(x0) => ArgumentLocationView::Directive(x0.deep_view()),
            ArgumentLocation::Source(x0) => ArgumentLocationView::Source(x0.deep_view()),
        }
    }
}

impl Clone for ArgumentLocation {
    fn clone(&self) -> (r: Self)
        ensures
            r.deep_view() == self.deep_view(),
    {
        match self {
            ArgumentLocation::Directive(x0) => ArgumentLocation::Directive(x0.clone()),
            ArgumentLocation::Source(x0) => ArgumentLocation::Source(x0.clone()),
        }
    }
}

impl Same for ArgumentLocation {
    fn same(&self, other: &ArgumentLocation) -> (r: bool) {
        match (self, other) {
            (ArgumentLocation::Directive(a0), ArgumentLocation::Directive(b0)) => a0.same(b0),
            (ArgumentLocation::Source(a0), ArgumentLocation::Source(b0)) => a0.same(b0),
            _ => false,
        }
    }
}

#[derive(Debug, PartialEq)]
pub struct CreateModel {
    pub model: String,
}

pub struct CreateModelView {
    pub model: Seq<char>,
}

impl DeepView for CreateModel {
    type V = CreateModelView;

    open spec fn deep_view(&self) -> CreateModelView {
        CreateModelView {
            model: self.model@,
        }
    }
}

impl Clone for CreateModel {
    fn clone(&self) -> (r: Self)
        ensures
            r.deep_view() == self.deep_view(),
    {
        CreateModel {
            model: self.model.clone(),
        }
    }
}

impl Same for CreateModel {
    fn same(&self, other: &CreateModel) -> (r: bool) {
        self.model == other.model
    }
}

#[derive(Debug, PartialEq)]
pub struct UpdateModel {
    pub model: String,
    pub new_name: Option<String>,
}

pub struct UpdateModelView {
    pub model: Seq<char>,
    pub new_name: Option<Seq<char>>,
}

impl DeepView for UpdateModel {
    type V = UpdateModelView;

    open spec fn deep_view(&self) -> UpdateModelView {
        UpdateModelView {
            model: self.model@,
            new_name: self.new_name.deep_view(),
        }
    }
}

impl Clone for UpdateModel {
    fn clone(&self) -> (r: Self)
        ensures
            r.deep_view() == self.deep_view(),
    {
        UpdateModel {
            model: self.model.clone(),
            new_name: name_option_clone(&self.new_name),
        }
    }
}

impl Same for UpdateModel {
    fn same(&self, other: &UpdateModel) -> (r: bool) {
        self.model == other.model
            && name_option_eq(&self.new_name, &other.new_name)
    }
}

#[derive(Debug, PartialEq)]
pub struct DeleteModel {
    pub model: String,
}

pub struct DeleteModelView {
    pub model: Seq<char>,
}

impl DeepView for DeleteModel {
    type V = DeleteModelView;

    open spec fn deep_view(&self) -> DeleteModelView {
        DeleteModelView {
            model: self.model@,
        }
    }
}

impl Clone for DeleteModel {
    fn clone(&self) -> (r: Self)
        ensures
            r.deep_view() == self.deep_view(),
    {
        DeleteModel {
            model: self.model.clone(),
        }
    }
}

impl Same for DeleteModel {
    fn same(&self, other: &DeleteModel) -> (r: bool) {
        self.model == other.model
    }
}

#[derive(Debug, PartialEq)]
pub struct CreateField {
    pub model: String,
    pub field: String,
    pub tpe: String,
    pub arity: FieldArity,
}

pub struct CreateFieldView {
    pub model: Seq<char>,
    pub field: Seq<char>,
    pub tpe: Seq<char>,
    pub arity: FieldArity,
}

impl DeepView for CreateField {
    type V = CreateFieldView;

    open spec fn deep_view(&self) -> CreateFieldView {
        CreateFieldView {
            model: self.model@,
            field: self.field@,
            tpe: self.tpe@,
            arity: self.arity,
        }
    }
}

impl Clone for CreateField {
    fn clone(&self) -> (r: Self)
        ensures
            r.deep_view() == self.deep_view(),
    {
        CreateField {
            model: self.model.clone(),
            field: self.field.clone(),
            tpe: self.tpe.clone(),
            arity: self.arity,
        }
    }
}

impl Same for CreateField {
    fn same(&self, other: &CreateField) -> (r: bool) {
        self.model == other.model
            && self.field == other.field
            && self.tpe == other.tpe
            && self.arity == other.arity
    }
}

#[derive(Debug, PartialEq)]
pub struct UpdateField {
    pub model: String,
    pub field: String,
    pub new_name: Option<String>,
    pub tpe: Option<String>,
    pub arity: Option<FieldArity>,
}

pub struct UpdateFieldView {
    pub model: Seq<char>,
    pub field: Seq<char>,
    pub new_name: Option<Seq<char>>,
    pub tpe: Option<Seq<char>>,
    pub arity: Option<FieldArity>,
}

impl DeepView for UpdateField {
    type V = UpdateFieldView;

    open spec fn deep_view(&self) -> UpdateFieldView {
        UpdateFieldView {
            model: self.model@,
            field: self.field@,
            new_name: self.new_name.deep_view(),
            tpe: self.tpe.deep_view(),
            arity: self.arity,
        }
    }
}

impl Clone for UpdateField {
    fn clone(&self) -> (r: Self)
        ensures
            r.deep_view() == self.deep_view(),
    {
        UpdateField {
            model: self.model.clone(),
            field: self.field.clone(),
            new_name: name_option_clone(&self.new_name),
            tpe: name_option_clone(&self.tpe),
            arity: self.arity,
        }
    }
}

impl Same for UpdateField {
    fn same(&self, other: &UpdateField) -> (r: bool) {
        self.model == other.model
            && self.field == other.field
            && name_option_eq(&self.new_name, &other.new_name)
            && name_option_eq(&self.tpe, &other.tpe)
            && self.arity == other.arity
    }
}

#[derive(Debug, PartialEq)]
pub struct DeleteField {
    pub model: String,
    pub field: String,
}

pub struct DeleteFieldView {
    pub model: Seq<char>,
    pub field: Seq<char>,
}

impl DeepView for DeleteField {
    type V = DeleteFieldView;

    open spec fn deep_view(&self) -> DeleteFieldView {
        DeleteFieldView {
            model: self.model@,
            field: self.field@,
        }
    }
}

impl Clone for DeleteField {
    fn clone(&self) -> (r: Self)
        ensures
            r.deep_view() == self.deep_view(),
    {
        DeleteField {
            model: self.model.clone(),
            field: self.field.clone(),
        }
    }
}

impl Same for DeleteField {
    fn same(&self, other: &DeleteField) -> (r: bool) {
        self.model == other.model
            && self.field == other.field
    }
}

#[derive(Debug, PartialEq)]
pub struct CreateEnum {
    pub enum_name: String,
    pub values: Vec<String>,
}

pub struct CreateEnumView {
    pub enum_name: Seq<char>,
    pub values: Seq<Seq<char>>,
}

impl DeepView for CreateEnum {
    type V = CreateEnumView;

    open spec fn deep_view(&self) -> CreateEnumView {
        CreateEnumView {
            enum_name: self.enum_name@,
            values: self.values.deep_view(),
        }
    }
}

impl Clone for CreateEnum {
    fn clone(&self) -> (r: Self)
        ensures
            r.deep_view() == self.deep_view(),
    {
        CreateEnum {
            enum_name: self.enum_name.clone(),
            values: names_clone(&self.values),
        }
    }
}

impl Same for CreateEnum {
    fn same(&self, other: &CreateEnum) -> (r: bool) {
        self.enum_name == other.enum_name
            && names_eq(&self.values, &other.values)
    }
}

#[derive(Debug, PartialEq)]
pub struct UpdateEnum {
    pub enum_name: String,
    pub new_name: Option<String>,
    pub created_values: Vec<String>,
    pub deleted_values: Vec<String>,
}

pub struct UpdateEnumView {
    pub enum_name: Seq<char>,
    pub new_name: Option<Seq<char>>,
    pub created_values: Seq<Seq<char>>,
    pub deleted_values: Seq<Seq<char>>,
}

impl DeepView for UpdateEnum {
    type V = UpdateEnumView;

    open spec fn deep_view(&self) -> UpdateEnumView {
        UpdateEnumView {
            enum_name: self.enum_name@,
            new_name: self.new_name.deep_view(),
            created_values: self.created_values.deep_view(),
            deleted_values: self.deleted_values.deep_view(),
        }
    }
}

impl Clone for UpdateEnum {
    fn clone(&self) -> (r: Self)
        ensures
            r.deep_view() == self.deep_view(),
    {
        UpdateEnum {
            enum_name: self.enum_name.clone(),
            new_name: name_option_clone(&self.new_name),
            created_values: names_clone(&self.created_values),
            deleted_values: names_clone(&self.deleted_values),
        }
    }
}

impl Same for UpdateEnum {
    fn same(&self, other: &UpdateEnum) -> (r: bool) {
        self.enum_name == other.enum_name
            && name_option_eq(&self.new_name, &other.new_name)
            && names_eq(&self.created_values, &other.created_values)
            && names_eq(&self.deleted_values, &other.deleted_values)
    }
}

#[derive(Debug, PartialEq)]
pub struct DeleteEnum {
    pub enum_name: String,
}

pub struct DeleteEnumView {
    pub enum_name: Seq<char>,
}

impl DeepView for DeleteEnum {
    type V = DeleteEnumView;

    open spec fn deep_view(&self) -> DeleteEnumView {
        DeleteEnumView {
            enum_name: self.enum_name@,
        }
    }
}

impl Clone for DeleteEnum {
    fn clone(&self) -> (r: Self)
        ensures
            r.deep_view() == self.deep_view(),
    {
        DeleteEnum {
            enum_name: self.enum_name.clone(),
        }
    }
}

impl Same for DeleteEnum {
    fn same(&self, other: &DeleteEnum) -> (r: bool) {
        self.enum_name == other.enum_name
    }
}

#[derive(Debug, PartialEq)]
pub struct CreateDirective {
    pub location: DirectiveLocation,
}

pub struct CreateDirectiveView {
    pub location: DirectiveLocationView,
}

impl DeepView for CreateDirective {
    type V = CreateDirectiveView;

    open spec fn deep_view(&self) -> CreateDirectiveView {
        CreateDirectiveView {
            location: self.location.deep_view(),
        }
    }
}

impl Clone for CreateDirective {
    fn clone(&self) -> (r: Self)
        ensures
            r.deep_view() == self.deep_view(),
    {
        CreateDirective {
            location: self.location.clone(),
        }
    }
}

impl Same for CreateDirective {
    fn same(&self, other: &CreateDirective) -> (r: bool) {
        self.location.same(&other.location)
    }
}

#[derive(Debug, PartialEq)]
pub struct DeleteDirective {
    pub location: DirectiveLocation,
}

pub struct DeleteDirectiveView {
    pub location: DirectiveLocationView,
}

impl DeepView for DeleteDirective {
    type V = DeleteDirectiveView;

    open spec fn deep_view(&self) -> DeleteDirectiveView {
        DeleteDirectiveView {
            location: self.location.deep_view(),
        }
    }
}

impl Clone for DeleteDirective {
    fn clone(&self) -> (r: Self)
        ensures
            r.deep_view() == self.deep_view(),
    {
        DeleteDirective {
            location: self.location.clone(),
        }
    }
}

impl Same for DeleteDirective {
    fn same(&self, other: &DeleteDirective) -> (r: bool) {
        self.location.same(&other.location)
    }
}

#[derive(Debug, PartialEq)]
pub struct CreateArgument {
    pub location: ArgumentLocation,
    pub argument: String,
    pub value: MigrationExpression,
}

pub struct CreateArgumentView {
    pub location: ArgumentLocationView,
    pub argument: Seq<char>,
    pub value: Seq<char>,
}

impl DeepView for CreateArgument {
    type V = CreateArgumentView;

    open spec fn deep_view(&self) -> CreateArgumentView {
        CreateArgumentView {
            location: self.location.deep_view(),
            argument: self.argument@,
            value: self.value.deep_view(),
        }
    }
}

impl Clone for CreateArgument {
    fn clone(&self) -> (r: Self)
        ensures
            r.deep_view() == self.deep_view(),
    {
        CreateArgument {
            location: self.location.clone(),
            argument: self.argument.clone(),
            value: self.value.clone(),
        }
    }
}

impl Same for CreateArgument {
    fn same(&self, other: &CreateArgument) -> (r: bool) {
        self.location.same(&other.location)
            && self.argument == other.argument
            && self.value.same(&other.value)
    }
}

#[derive(Debug, PartialEq)]
pub struct DeleteArgument {
    pub location: ArgumentLocation,
    pub argument: String,
}

pub struct DeleteArgumentView {
    pub location: ArgumentLocationView,
    pub argument: Seq<char>,
}

impl DeepView for DeleteArgument {
    type V = DeleteArgumentView;

    open spec fn deep_view(&self) -> DeleteArgumentView {
        DeleteArgumentView {
            location: self.location.deep_view(),
            argument: self.argument@,
        }
    }
}

impl Clone for DeleteArgument {
    fn clone(&self) -> (r: Self)
        ensures
            r.deep_view() == self.deep_view(),
    {
        DeleteArgument {
            location: self.location.clone(),
            argument: self.argument.clone(),
        }
    }
}

impl Same for DeleteArgument {
    fn same(&self, other: &DeleteArgument) -> (r: bool) {
        self.location.same(&other.location)
            && self.argument == other.argument
    }
}

#[derive(Debug, PartialEq)]
pub struct UpdateArgument {
    pub location: ArgumentLocation,
    pub argument: String,
    pub new_value: MigrationExpression,
}

pub struct UpdateArgumentView {
    pub location: ArgumentLocationView,
    pub argument: Seq<char>,
    pub new_value: Seq<char>,
}

impl DeepView for UpdateArgument {
    type V = UpdateArgumentView;

    open spec fn deep_view(&self) -> UpdateArgumentView {
        UpdateArgumentView {
            location: self.location.deep_view(),
            argument: self.argument@,
            new_value: self.new_value.deep_view(),
        }
    }
}

impl Clone for UpdateArgument {
    fn clone(&self) -> (r: Self)
        ensures
            r.deep_view() == self.deep_view(),
    {
        UpdateArgument {
            location: self.location.clone(),
            argument: self.argument.clone(),
            new_value: self.new_value.clone(),
        }
    }
}

impl Same for UpdateArgument {
    fn same(&self, other: &UpdateArgument) -> (r: bool) {
        self.location.same(&other.location)
            && self.argument == other.argument
            && self.new_value.same(&other.new_value)
    }
}

#[derive(Debug, PartialEq)]
pub struct CreateTypeAlias {
    pub type_alias: String,
    pub aliased_type: String,
    pub arity: FieldArity,
}

pub struct CreateTypeAliasView {
    pub type_alias: Seq<char>,
    pub aliased_type: Seq<char>,
    pub arity: FieldArity,
}

impl DeepView for CreateTypeAlias {
    type V = CreateTypeAliasView;

    open spec fn deep_view(&self) -> CreateTypeAliasView {
        CreateTypeAliasView {
            type_alias: self.type_alias@,
            aliased_type: self.aliased_type@,
            arity: self.arity,
        }
    }
}

impl Clone for CreateTypeAlias {
    fn clone(&self) -> (r: Self)
        ensures
            r.deep_view() == self.deep_view(),
    {
        CreateTypeAlias {
            type_alias: self.type_alias.clone(),
            aliased_type: self.aliased_type.clone(),
            arity: self.arity,
        }
    }
}

impl Same for CreateTypeAlias {
    fn same(&self, other: &CreateTypeAlias) -> (r: bool) {
        self.type_alias == other.type_alias
            && self.aliased_type == other.aliased_type
            && self.arity == other.arity
    }
}

#[derive(Debug, PartialEq)]
pub struct UpdateTypeAlias {
    pub type_alias: String,
    pub aliased_type: Option<String>,
}

pub struct UpdateTypeAliasView {
    pub type_alias: Seq<char>,
    pub aliased_type: Option<Seq<char>>,
}

impl DeepView for UpdateTypeAlias {
    type V = UpdateTypeAliasView;

    open spec fn deep_view(&self) -> UpdateTypeAliasView {
        UpdateTypeAliasView {
            type_alias: self.type_alias@,
            aliased_type: self.aliased_type.deep_view(),
        }
    }
}

impl Clone for UpdateTypeAlias {
    fn clone(&self) -> (r: Self)
        ensures
            r.deep_view() == self.deep_view(),
    {
        UpdateTypeAlias {
            type_alias: self.type_alias.clone(),
            aliased_type: name_option_clone(&self.aliased_type),
        }
    }
}

impl Same for UpdateTypeAlias {
    fn same(&self, other: &UpdateTypeAlias) -> (r: bool) {
        self.type_alias == other.type_alias
            && name_option_eq(&self.aliased_type, &other.aliased_type)
    }
}

#[derive(Debug, PartialEq)]
pub struct DeleteTypeAlias {
    pub type_alias: String,
}

pub struct DeleteTypeAliasView {
    pub type_alias: Seq<char>,
}

impl DeepView for DeleteTypeAlias {
    type V = DeleteTypeAliasView;

    open spec fn deep_view(&self) -> DeleteTypeAliasView {
        DeleteTypeAliasView {
            type_alias: self.type_alias@,
        }
    }
}

impl Clone for DeleteTypeAlias {
    fn clone(&self) -> (r: Self)
        ensures
            r.deep_view() == self.deep_view(),
    {
        DeleteTypeAlias {
            type_alias: self.type_alias.clone(),
        }
    }
}

impl Same for DeleteTypeAlias {
    fn same(&self, other: &DeleteTypeAlias) -> (r: bool) {
        self.type_alias == other.type_alias
    }
}

#[derive(Debug, PartialEq)]
pub struct CreateSource {
    pub source: String,
}

pub struct CreateSourceView {
    pub source: Seq<char>,
}

impl DeepView for CreateSource {
    type V = CreateSourceView;

    open spec fn deep_view(&self) -> CreateSourceView {
        CreateSourceView {
            source: self.source@,
        }
    }
}

impl Clone for CreateSource {
    fn clone(&self) -> (r: Self)
        ensures
            r.deep_view() == self.deep_view(),
    {
        CreateSource {
            source: self.source.clone(),
        }
    }
}

impl Same for CreateSource {
    fn same(&self, other: &CreateSource) -> (r: bool) {
        self.source == other.source
    }
}

#[derive(Debug, PartialEq)]
pub struct DeleteSource {
    pub source: String,
}

pub struct DeleteSourceView {
    pub source: Seq<char>,
}

impl DeepView for DeleteSource {
    type V = DeleteSourceView;

    open spec fn deep_view(&self) -> DeleteSourceView {
        DeleteSourceView {
            source: self.source@,
        }
    }
}

impl Clone for DeleteSource {
    fn clone(&self) -> (r: Self)
        ensures
            r.deep_view() == self.deep_view(),
    {
        DeleteSource {
            source: self.source.clone(),
        }
    }
}

impl Same for DeleteSource {
    fn same(&self, other: &DeleteSource) -> (r: bool) {
        self.source == other.source
    }
}

/// One edit of a schema.
#[derive(Debug, PartialEq)]
pub enum MigrationStep {
    CreateModel(CreateModel),
    UpdateModel(UpdateModel),
    DeleteModel(DeleteModel),
    CreateDirective(CreateDirective),
    DeleteDirective(DeleteDirective),
    CreateArgument(CreateArgument),
    UpdateArgument(UpdateArgument),
    DeleteArgument(DeleteArgument),
    CreateField(CreateField),
    DeleteField(DeleteField),
    UpdateField(UpdateField),
    CreateEnum(CreateEnum),
    UpdateEnum(UpdateEnum),
    DeleteEnum(DeleteEnum),
    CreateTypeAlias(CreateTypeAlias),
    UpdateTypeAlias(UpdateTypeAlias),
    DeleteTypeAlias(DeleteTypeAlias),
    CreateSource(CreateSource),
    DeleteSource(DeleteSource),
}

pub enum MigrationStepView {
    CreateModel(CreateModelView),
    UpdateModel(UpdateModelView),
    DeleteModel(DeleteModelView),
    CreateDirective(CreateDirectiveView),
    DeleteDirective(DeleteDirectiveView),
    CreateArgument(CreateArgumentView),
    UpdateArgument(UpdateArgumentView),
    DeleteArgument(DeleteArgumentView),
    CreateField(CreateFieldView),
    DeleteField(DeleteFieldView),
    UpdateField(UpdateFieldView),
    CreateEnum(CreateEnumView),
    UpdateEnum(UpdateEnumView),
    DeleteEnum(DeleteEnumView),
    CreateTypeAlias(CreateTypeAliasView),
    UpdateTypeAlias(UpdateTypeAliasView),
    DeleteTypeAlias(DeleteTypeAliasView),
    CreateSource(CreateSourceView),
    DeleteSource(DeleteSourceView),
}

impl DeepView for MigrationStep {
    type V = MigrationStepView;

    open spec fn deep_view(&self) -> MigrationStepView {
        match self {
            MigrationStep::CreateModel(x0) => MigrationStepView::CreateModel(x0.deep_view()),
            MigrationStep::UpdateModel(x0) => MigrationStepView::UpdateModel(x0.deep_view()),
            MigrationStep::DeleteModel(x0) => MigrationStepView::DeleteModel(x0.deep_view()),
            MigrationStep::CreateDirective(x0) => MigrationStepView::CreateDirective(x0.deep_view()),
            MigrationStep::DeleteDirective(x0) => MigrationStepView::DeleteDirective(x0.deep_view()),
            MigrationStep::CreateArgument(x0) => MigrationStepView::CreateArgument(x0.deep_view()),
            MigrationStep::UpdateArgument(x0) => MigrationStepView::UpdateArgument(x0.deep_view()),
            MigrationStep::DeleteArgument(x0) => MigrationStepView::DeleteArgument(x0.deep_view()),
            MigrationStep::CreateField(x0) => MigrationStepView::CreateField(x0.deep_view()),
            MigrationStep::DeleteField(x0) => MigrationStepView::DeleteField(x0.deep_view()),
            MigrationStep::UpdateField(x0) => MigrationStepView::UpdateField(x0.deep_view()),
            MigrationStep::CreateEnum(x0) => MigrationStepView::CreateEnum(x0.deep_view()),
            MigrationStep::UpdateEnum(x0) => MigrationStepView::UpdateEnum(x0.deep_view()),
            MigrationStep::DeleteEnum(x0) => MigrationStepView::DeleteEnum(x0.deep_view()),
            MigrationStep::CreateTypeAlias(x0) => MigrationStepView::CreateTypeAlias(x0.deep_view()),
            MigrationStep::UpdateTypeAlias(x0) => MigrationStepView::UpdateTypeAlias(x0.deep_view()),
            MigrationStep::DeleteTypeAlias(x0) => MigrationStepView::DeleteTypeAlias(x0.deep_view()),
            MigrationStep::CreateSource(x0) => MigrationStepView::CreateSource(x0.deep_view()),
            MigrationStep::DeleteSource(x0) => MigrationStepView::DeleteSource(x0.deep_view()),
        }
    }
}

impl Clone for MigrationStep {
    fn clone(&self) -> (r: Self)
        ensures
            r.deep_view() == self.deep_view(),
    {
        match self {
            MigrationStep::CreateModel(x0) => MigrationStep::CreateModel(x0.clone()),
            MigrationStep::UpdateModel(x0) => MigrationStep::UpdateModel(x0.clone()),
            MigrationStep::DeleteModel(x0) => MigrationStep::DeleteModel(x0.clone()),
            MigrationStep::CreateDirective(x0) => MigrationStep::CreateDirective(x0.clone()),
            MigrationStep::DeleteDirective(x0) => MigrationStep::DeleteDirective(x0.clone()),
            MigrationStep::CreateArgument(x0) => MigrationStep::CreateArgument(x0.clone()),
            MigrationStep::UpdateArgument(x0) => MigrationStep::UpdateArgument(x0.clone()),
            MigrationStep::DeleteArgument(x0) => MigrationStep::DeleteArgument(x0.clone()),
            MigrationStep::CreateField(x0) => MigrationStep::CreateField(x0.clone()),
            MigrationStep::DeleteField(x0) => MigrationStep::DeleteField(x0.clone()),
            MigrationStep::UpdateField(x0) => MigrationStep::UpdateField(x0.clone()),
            MigrationStep::CreateEnum(x0) => MigrationStep::CreateEnum(x0.clone()),
            MigrationStep::UpdateEnum(x0) => MigrationStep::UpdateEnum(x0.clone()),
            MigrationStep::DeleteEnum(x0) => MigrationStep::DeleteEnum(x0.clone()),
            MigrationStep::CreateTypeAlias(x0) => MigrationStep::CreateTypeAlias(x0.clone()),
            MigrationStep::UpdateTypeAlias(x0) => MigrationStep::UpdateTypeAlias(x0.clone()),
            MigrationStep::DeleteTypeAlias(x0) => MigrationStep::DeleteTypeAlias(x0.clone()),
            MigrationStep::CreateSource(x0) => MigrationStep::CreateSource(x0.clone()),
            MigrationStep::DeleteSource(x0) => MigrationStep::DeleteSource(x0.clone()),
        }
    }
}

impl Same for MigrationStep {
    fn same(&self, other: &MigrationStep) -> (r: bool) {
        match (self, other) {
            (MigrationStep::CreateModel(a0), MigrationStep::CreateModel(b0)) => a0.same(b0),
            (MigrationStep::UpdateModel(a0), MigrationStep::UpdateModel(b0)) => a0.same(b0),
            (MigrationStep::DeleteModel(a0), MigrationStep::DeleteModel(b0)) => a0.same(b0),
            (MigrationStep::CreateDirective(a0), MigrationStep::CreateDirective(b0)) => a0.same(b0),
            (MigrationStep::DeleteDirective(a0), MigrationStep::DeleteDirective(b0)) => a0.same(b0),
            (MigrationStep::CreateArgument(a0), MigrationStep::CreateArgument(b0)) => a0.same(b0),
            (MigrationStep::UpdateArgument(a0), MigrationStep::UpdateArgument(b0)) => a0.same(b0),
            (MigrationStep::DeleteArgument(a0), MigrationStep::DeleteArgument(b0)) => a0.same(b0),
            (MigrationStep::CreateField(a0), MigrationStep::CreateField(b0)) => a0.same(b0),
            (MigrationStep::DeleteField(a0), MigrationStep::DeleteField(b0)) => a0.same(b0),
            (MigrationStep::UpdateField(a0), MigrationStep::UpdateField(b0)) => a0.same(b0),
            (MigrationStep::CreateEnum(a0), MigrationStep::CreateEnum(b0)) => a0.same(b0),
            (MigrationStep::UpdateEnum(a0), MigrationStep::UpdateEnum(b0)) => a0.same(b0),
            (MigrationStep::DeleteEnum(a0), MigrationStep::DeleteEnum(b0)) => a0.same(b0),
            (MigrationStep::CreateTypeAlias(a0), MigrationStep::CreateTypeAlias(b0)) => a0.same(b0),
            (MigrationStep::UpdateTypeAlias(a0), MigrationStep::UpdateTypeAlias(b0)) => a0.same(b0),
            (MigrationStep::DeleteTypeAlias(a0), MigrationStep::DeleteTypeAlias(b0)) => a0.same(b0),
            (MigrationStep::CreateSource(a0), MigrationStep::CreateSource(b0)) => a0.same(b0),
            (MigrationStep::DeleteSource(a0), MigrationStep::DeleteSource(b0)) => a0.same(b0),
            _ => false,
        }
    }
}

impl UpdateFieldView {
    /// Whether the step changes anything.
    pub open spec fn is_any_option_set(self) -> bool {
        self.new_name is Some || self.tpe is Some || self.arity is Some
    }
}

impl UpdateField {
    /// Whether the step changes anything.
    pub fn is_any_option_set(&self) -> (r: bool)
        ensures
            r == self.deep_view().is_any_option_set(),
    {
        self.new_name.is_some() || self.tpe.is_some() || self.arity.is_some()
    }
}

impl UpdateEnumView {
    /// Whether the step changes anything.
    pub open spec fn is_any_option_set(self) -> bool {
        self.new_name is Some || self.created_values.len() > 0 || self.deleted_values.len() > 0
    }
}

impl UpdateEnum {
    /// Whether the step changes anything.
    pub fn is_any_option_set(&self) -> (r: bool)
        ensures
            r == self.deep_view().is_any_option_set(),
    {
        self.new_name.is_some() || self.created_values.len() > 0 || self.deleted_values.len() > 0
    }
}

impl UpdateTypeAliasView {
    /// Whether the step changes anything.
    pub open spec fn is_any_option_set(self) -> bool {
        self.aliased_type is Some
    }
}

impl UpdateTypeAlias {
    /// Whether the step changes anything.
    pub fn is_any_option_set(&self) -> (r: bool)
        ensures
            r == self.deep_view().is_any_option_set(),
    {
        self.aliased_type.is_some()
    }
}

impl Argument {
    /// The argument of a migration step that stands for an argument of the schema.
    pub fn from_ast(argument: &crate::ast::Argument) -> (r: Argument)
        ensures
            r.deep_view() == (ArgumentView {
                name: argument.name.name@,
                value: argument.value.deep_view(),
            }),
    {
        Argument {
            name: argument.name.name.clone(),
            value: MigrationExpression::from_ast_expression(&argument.value),
        }
    }
}

} // verus!
