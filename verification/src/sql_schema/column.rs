//! Columns, their types and their defaults.

use crate::native_types::NativeType;
use crate::seqs::{option_same, Same};
use crate::sql_schema::ColumnArity;
use crate::text::concat;
use crate::values::PrismaValue;
use vstd::prelude::*;
use vstd::string::*;

verus! {

/// Enumeration of column type families.
#[derive(Debug, PartialEq)]
pub enum ColumnTypeFamily {
    /// Integer types.
    Int,
    /// Floating point types.
    Float,
    /// Decimal Types.
    Decimal,
    /// Boolean types.
    Boolean,
    /// String types.
    String,
    /// DateTime types.
    DateTime,
    /// Duration types.
    Duration,
    /// Binary types.
    Binary,
    /// JSON types.
    Json,
    /// XML types.
    Xml,
    /// UUID types.
    Uuid,
    /// An enum, by its name.
    Enum(String),
    /// A type that has no family, by its full data type.
    Unsupported(String),
}

pub enum ColumnTypeFamilyView {
    Int,
    Float,
    Decimal,
    Boolean,
    String,
    DateTime,
    Duration,
    Binary,
    Json,
    Xml,
    Uuid,
    Enum(Seq<char>),
    Unsupported(Seq<char>),
}

impl DeepView for ColumnTypeFamily {
    type V = ColumnTypeFamilyView;

    open spec fn deep_view(&self) -> ColumnTypeFamilyView {
        match self {
            ColumnTypeFamily::Int => ColumnTypeFamilyView::Int,
            ColumnTypeFamily::Float => ColumnTypeFamilyView::Float,
            ColumnTypeFamily::Decimal => ColumnTypeFamilyView::Decimal,
            ColumnTypeFamily::Boolean => ColumnTypeFamilyView::Boolean,
            ColumnTypeFamily::String => ColumnTypeFamilyView::String,
            ColumnTypeFamily::DateTime => ColumnTypeFamilyView::DateTime,
            ColumnTypeFamily::Duration => ColumnTypeFamilyView::Duration,
            ColumnTypeFamily::Binary => ColumnTypeFamilyView::Binary,
            ColumnTypeFamily::Json => ColumnTypeFamilyView::Json,
            ColumnTypeFamily::Xml => ColumnTypeFamilyView::Xml,
            ColumnTypeFamily::Uuid => ColumnTypeFamilyView::Uuid,
            ColumnTypeFamily::Enum(name) => ColumnTypeFamilyView::Enum(name@),
            ColumnTypeFamily::Unsupported(raw) => ColumnTypeFamilyView::Unsupported(raw@),
        }
    }
}

impl Clone for ColumnTypeFamily {
    fn clone(&self) -> (r: Self)
        ensures
            r.deep_view() == self.deep_view(),
    {
        match self {
            ColumnTypeFamily::Int => ColumnTypeFamily::Int,
            ColumnTypeFamily::Float => ColumnTypeFamily::Float,
            ColumnTypeFamily::Decimal => ColumnTypeFamily::Decimal,
            ColumnTypeFamily::Boolean => ColumnTypeFamily::Boolean,
            ColumnTypeFamily::String => ColumnTypeFamily::String,
            ColumnTypeFamily::DateTime => ColumnTypeFamily::DateTime,
            ColumnTypeFamily::Duration => ColumnTypeFamily::Duration,
            ColumnTypeFamily::Binary => ColumnTypeFamily::Binary,
            ColumnTypeFamily::Json => ColumnTypeFamily::Json,
            ColumnTypeFamily::Xml => ColumnTypeFamily::Xml,
            ColumnTypeFamily::Uuid => ColumnTypeFamily::Uuid,
            ColumnTypeFamily::Enum(name) => ColumnTypeFamily::Enum(name.clone()),
            ColumnTypeFamily::Unsupported(raw) => ColumnTypeFamily::Unsupported(raw.clone()),
        }
    }
}

impl Same for ColumnTypeFamily {
    fn same(&self, other: &ColumnTypeFamily) -> (r: bool) {
        match (self, other) {
            (ColumnTypeFamily::Int, ColumnTypeFamily::Int) => true,
            (ColumnTypeFamily::Float, ColumnTypeFamily::Float) => true,
            (ColumnTypeFamily::Decimal, ColumnTypeFamily::Decimal) => true,
            (ColumnTypeFamily::Boolean, ColumnTypeFamily::Boolean) => true,
            (ColumnTypeFamily::String, ColumnTypeFamily::String) => true,
            (ColumnTypeFamily::DateTime, ColumnTypeFamily::DateTime) => true,
            (ColumnTypeFamily::Duration, ColumnTypeFamily::Duration) => true,
            (ColumnTypeFamily::Binary, ColumnTypeFamily::Binary) => true,
            (ColumnTypeFamily::Json, ColumnTypeFamily::Json) => true,
            (ColumnTypeFamily::Xml, ColumnTypeFamily::Xml) => true,
            (ColumnTypeFamily::Uuid, ColumnTypeFamily::Uuid) => true,
            (ColumnTypeFamily::Enum(a), ColumnTypeFamily::Enum(b)) => *a == *b,
            (ColumnTypeFamily::Unsupported(a), ColumnTypeFamily::Unsupported(b)) => *a == *b,
            _ => false,
        }
    }
}

impl ColumnTypeFamilyView {
    /// The text that names the family.
    pub open spec fn text(self) -> Seq<char> {
        match self {
            ColumnTypeFamilyView::Int => "int"@,
            ColumnTypeFamilyView::Float => "float"@,
            ColumnTypeFamilyView::Decimal => "decimal"@,
            ColumnTypeFamilyView::Boolean => "boolean"@,
            ColumnTypeFamilyView::String => "string"@,
            ColumnTypeFamilyView::DateTime => "dateTime"@,
            ColumnTypeFamilyView::Duration => "duration"@,
            ColumnTypeFamilyView::Binary => "binary"@,
            ColumnTypeFamilyView::Json => "json"@,
            ColumnTypeFamilyView::Xml => "xml"@,
            ColumnTypeFamilyView::Uuid => "uuid"@,
            ColumnTypeFamilyView::Enum(x) => "Enum("@ + x + ")"@,
            ColumnTypeFamilyView::Unsupported(x) => x,
        }
    }
}

impl ColumnTypeFamily {
    pub fn as_enum(&self) -> (r: Option<&str>)
        ensures
            match self.deep_view() {
                ColumnTypeFamilyView::Enum(name) => r.is_some() && r.unwrap()@ == name,
                _ => r.is_none(),
            },
    {
        match self {
            ColumnTypeFamily::Enum(name) => Some(name.as_str()),
            _ => None,
        }
    }

    pub fn is_enum(&self) -> (r: bool)
        ensures
            r == (self.deep_view() is Enum),
    {
        matches!(self, ColumnTypeFamily::Enum(_))
    }

    pub fn is_json(&self) -> (r: bool)
        ensures
            r == (self.deep_view() is Json),
    {
        matches!(self, ColumnTypeFamily::Json)
    }

    /// The text that names the family.
    pub fn to_string(&self) -> (r: String)
        ensures
            r@ == self.deep_view().text(),
    {
        match self {
            ColumnTypeFamily::Int => "int".to_owned(),
            ColumnTypeFamily::Float => "float".to_owned(),
            ColumnTypeFamily::Decimal => "decimal".to_owned(),
            ColumnTypeFamily::Boolean => "boolean".to_owned(),
            ColumnTypeFamily::String => "string".to_owned(),
            ColumnTypeFamily::DateTime => "dateTime".to_owned(),
            ColumnTypeFamily::Duration => "duration".to_owned(),
            ColumnTypeFamily::Binary => "binary".to_owned(),
            ColumnTypeFamily::Json => "json".to_owned(),
            ColumnTypeFamily::Xml => "xml".to_owned(),
            ColumnTypeFamily::Uuid => "uuid".to_owned(),
            ColumnTypeFamily::Enum(x) => {
                let mut s: String = concat("Enum(", x.as_str());
                s.append(")");
                s
            },
            ColumnTypeFamily::Unsupported(x) => x.clone(),
        }
    }
}

/// The type of a column.
#[derive(Debug, PartialEq)]
pub struct ColumnType {
    /// The SQL data type.
    pub data_type: String,
    /// The full SQL data type.
    pub full_data_type: String,
    /// The maximum length for character or string bit types if specified.
    pub character_maximum_length: Option<u32>,
    /// The family of the raw type.
    pub family: ColumnTypeFamily,
    /// The arity of the column.
    pub arity: ColumnArity,
    /// The native type of the column.
    pub native_type: Option<NativeType>,
}

pub struct ColumnTypeView {
    pub data_type: Seq<char>,
    pub full_data_type: Seq<char>,
    pub character_maximum_length: Option<u32>,
    pub family: ColumnTypeFamilyView,
    pub arity: ColumnArity,
    pub native_type: Option<NativeType>,
}

impl DeepView for ColumnType {
    type V = ColumnTypeView;

    open spec fn deep_view(&self) -> ColumnTypeView {
        ColumnTypeView {
            data_type: self.data_type@,
            full_data_type: self.full_data_type@,
            character_maximum_length: self.character_maximum_length,
            family: self.family.deep_view(),
            arity: self.arity,
            native_type: self.native_type,
        }
    }
}

impl Clone for ColumnType {
    fn clone(&self) -> (r: Self)
        ensures
            r.deep_view() == self.deep_view(),
    {
        ColumnType {
            data_type: self.data_type.clone(),
            full_data_type: self.full_data_type.clone(),
            character_maximum_length: self.character_maximum_length,
            family: self.family.clone(),
            arity: self.arity,
            native_type: self.native_type,
        }
    }
}

impl Same for ColumnType {
    fn same(&self, other: &ColumnType) -> (r: bool) {
        self.data_type == other.data_type && self.full_data_type == other.full_data_type
            && self.character_maximum_length == other.character_maximum_length
            && self.family.same(&other.family) && self.arity == other.arity && self.native_type
            == other.native_type
    }
}

impl ColumnType {
    /// A type of the given family and arity, with nothing else known of it.
    pub fn pure(family: ColumnTypeFamily, arity: ColumnArity) -> (r: Self)
        ensures
            r.deep_view() == (ColumnTypeView {
                data_type: Seq::empty(),
                full_data_type: Seq::empty(),
                character_maximum_length: None,
                family: family.deep_view(),
                arity,
                native_type: None,
            }),
    {
        ColumnType {
            data_type: String::new(),
            full_data_type: String::new(),
            character_maximum_length: None,
            family,
            arity,
            native_type: None,
        }
    }

    /// A type of the given family and arity, with its full data type.
    pub fn with_full_data_type(
        family: ColumnTypeFamily,
        arity: ColumnArity,
        full_data_type: String,
    ) -> (r: Self)
        ensures
            r.deep_view() == (ColumnTypeView {
                data_type: Seq::empty(),
                full_data_type: full_data_type@,
                character_maximum_length: None,
                family: family.deep_view(),
                arity,
                native_type: None,
            }),
    {
        ColumnType {
            data_type: String::new(),
            full_data_type,
            character_maximum_length: None,
            family,
            arity,
            native_type: None,
        }
    }
}

/// The default of a column.
#[derive(Debug, PartialEq)]
pub enum DefaultValue {
    /// A constant value.
    VALUE(PrismaValue),
    /// An expression generating a current timestamp.
    NOW,
    /// An expression generating a sequence.
    SEQUENCE(String),
    /// An unrecognized default.
    DBGENERATED(String),
}

pub enum DefaultValueView {
    VALUE(crate::values::PrismaValueView),
    NOW,
    SEQUENCE(Seq<char>),
    DBGENERATED(Seq<char>),
}

impl DeepView for DefaultValue {
    type V = DefaultValueView;

    open spec fn deep_view(&self) -> DefaultValueView {
        match self {
            DefaultValue::VALUE(v) => DefaultValueView::VALUE(v.deep_view()),
            DefaultValue::NOW => DefaultValueView::NOW,
            DefaultValue::SEQUENCE(s) => DefaultValueView::SEQUENCE(s@),
            DefaultValue::DBGENERATED(s) => DefaultValueView::DBGENERATED(s@),
        }
    }
}

impl Clone for DefaultValue {
    fn clone(&self) -> (r: Self)
        ensures
            r.deep_view() == self.deep_view(),
    {
        match self {
            DefaultValue::VALUE(v) => DefaultValue::VALUE(v.clone()),
            DefaultValue::NOW => DefaultValue::NOW,
            DefaultValue::SEQUENCE(s) => DefaultValue::SEQUENCE(s.clone()),
            DefaultValue::DBGENERATED(s) => DefaultValue::DBGENERATED(s.clone()),
        }
    }
}

impl Same for DefaultValue {
    fn same(&self, other: &DefaultValue) -> (r: bool) {
        match (self, other) {
            (DefaultValue::VALUE(a), DefaultValue::VALUE(b)) => a.same(b),
            (DefaultValue::NOW, DefaultValue::NOW) => true,
            (DefaultValue::SEQUENCE(a), DefaultValue::SEQUENCE(b)) => *a == *b,
            (DefaultValue::DBGENERATED(a), DefaultValue::DBGENERATED(b)) => *a == *b,
            _ => false,
        }
    }
}

impl DefaultValue {
    pub fn as_value(&self) -> (r: Option<&PrismaValue>)
        ensures
            match self.deep_view() {
                DefaultValueView::VALUE(v) => r.is_some() && r.unwrap().deep_view() == v,
                _ => r.is_none(),
            },
    {
        match self {
            DefaultValue::VALUE(v) => Some(v),
            _ => None,
        }
    }
}

/// A column of a table.
#[derive(Debug, PartialEq)]
pub struct Column {
    /// Column name.
    pub name: String,
    /// Column type.
    pub tpe: ColumnType,
    /// Column default.
    pub default: Option<DefaultValue>,
    /// Is the column auto-incrementing?
    pub auto_increment: bool,
}

pub struct ColumnView {
    pub name: Seq<char>,
    pub tpe: ColumnTypeView,
    pub default: Option<DefaultValueView>,
    pub auto_increment: bool,
}

impl DeepView for Column {
    type V = ColumnView;

    open spec fn deep_view(&self) -> ColumnView {
        ColumnView {
            name: self.name@,
            tpe: self.tpe.deep_view(),
            default: self.default.deep_view(),
            auto_increment: self.auto_increment,
        }
    }
}

impl Clone for Column {
    fn clone(&self) -> (r: Self)
        ensures
            r.deep_view() == self.deep_view(),
    {
        Column {
            name: self.name.clone(),
            tpe: self.tpe.clone(),
            default: match &self.default {
                Some(d) => Some(d.clone()),
                None => None,
            },
            auto_increment: self.auto_increment,
        }
    }
}

impl Same for Column {
    fn same(&self, other: &Column) -> (r: bool) {
        self.name == other.name && self.tpe.same(&other.tpe) && option_same(
            &self.default,
            &other.default,
        ) && self.auto_increment == other.auto_increment
    }
}

impl ColumnView {
    pub open spec fn is_required(self) -> bool {
        self.tpe.arity == ColumnArity::Required
    }
}

impl Column {
    pub fn is_required(&self) -> (r: bool)
        ensures
            r == self.deep_view().is_required(),
    {
        self.tpe.arity == ColumnArity::Required
    }
}

} // verus!
