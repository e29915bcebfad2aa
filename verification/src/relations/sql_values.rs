//! The values that are handed to a database for the values of a data
//! model.

use crate::relations::templates::{ScalarFieldTemplate, TypeIdentifier, TypeIdentifierView};
use crate::values::{Decimal, PrismaValue, PrismaValueView};
use vstd::prelude::*;

verus! {

/// A value as a database takes it: of a kind, and there or not.
#[derive(Debug, PartialEq)]
pub enum SqlValue {
    Integer(Option<i64>),
    Real(Option<Decimal>),
    Text(Option<String>),
    Enum(Option<String>),
    Boolean(Option<bool>),
    /// A document, as its text.
    Json(Option<String>),
    /// A point in time, in milliseconds since the epoch.
    DateTime(Option<i64>),
    Uuid(Option<String>),
    /// No list at all.
    NoArray,
}

pub enum SqlValueView {
    Integer(Option<i64>),
    Real(Option<Decimal>),
    Text(Option<Seq<char>>),
    Enum(Option<Seq<char>>),
    Boolean(Option<bool>),
    Json(Option<Seq<char>>),
    DateTime(Option<i64>),
    Uuid(Option<Seq<char>>),
    NoArray,
}

impl DeepView for SqlValue {
    type V = SqlValueView;

    open spec fn deep_view(&self) -> SqlValueView {
        match self {
            SqlValue::Integer(x) => SqlValueView::Integer(*x),
            SqlValue::Real(x) => SqlValueView::Real(*x),
            SqlValue::Text(x) => SqlValueView::Text(x.deep_view()),
            SqlValue::Enum(x) => SqlValueView::Enum(x.deep_view()),
            SqlValue::Boolean(x) => SqlValueView::Boolean(*x),
            SqlValue::Json(x) => SqlValueView::Json(x.deep_view()),
            SqlValue::DateTime(x) => SqlValueView::DateTime(*x),
            SqlValue::Uuid(x) => SqlValueView::Uuid(x.deep_view()),
            SqlValue::NoArray => SqlValueView::NoArray,
        }
    }
}

/// The value that stands for nothing in a field of the given kind: no
/// list for a field that holds a list, and else nothing of the kind of
/// the field.
pub open spec fn nothing_of(is_list: bool, kind: TypeIdentifierView) -> SqlValueView {
    if is_list {
        SqlValueView::NoArray
    } else {
        match kind {
            TypeIdentifierView::String => SqlValueView::Text(None),
            TypeIdentifierView::Float => SqlValueView::Real(None),
            TypeIdentifierView::Boolean => SqlValueView::Boolean(None),
            TypeIdentifierView::Enum(_) => SqlValueView::Enum(None),
            TypeIdentifierView::Json => SqlValueView::Json(None),
            TypeIdentifierView::DateTime => SqlValueView::DateTime(None),
            TypeIdentifierView::UUID => SqlValueView::Uuid(None),
            TypeIdentifierView::Int => SqlValueView::Integer(None),
        }
    }
}

/// The value of a database that stands for a value of a data model, where
/// `nothing` stands for nothing: texts, values of enums and identifiers
/// are handed over as text.
pub open spec fn sql_value_of(pv: PrismaValueView, nothing: SqlValueView) -> SqlValueView {
    match pv {
        PrismaValueView::String(s) => SqlValueView::Text(Some(s)),
        PrismaValueView::Float(f) => SqlValueView::Real(Some(f)),
        PrismaValueView::Boolean(b) => SqlValueView::Boolean(Some(b)),
        PrismaValueView::DateTime(d) => SqlValueView::DateTime(Some(d)),
        PrismaValueView::Enum(e) => SqlValueView::Text(Some(e)),
        PrismaValueView::Int(i) => SqlValueView::Integer(Some(i)),
        PrismaValueView::Uuid(u) => SqlValueView::Text(Some(u)),
        PrismaValueView::Json(s) => SqlValueView::Json(Some(s)),
        PrismaValueView::Null => nothing,
    }
}

fn convert(pv: PrismaValue, nothing: SqlValue) -> (r: SqlValue)
    ensures
        r.deep_view() == sql_value_of(pv.deep_view(), nothing.deep_view()),
{
    match pv {
        PrismaValue::String(s) => SqlValue::Text(Some(s)),
        PrismaValue::Float(f) => SqlValue::Real(Some(f)),
        PrismaValue::Boolean(b) => SqlValue::Boolean(Some(b)),
        PrismaValue::DateTime(d) => SqlValue::DateTime(Some(d)),
        PrismaValue::Enum(e) => SqlValue::Text(Some(e)),
        PrismaValue::Int(i) => SqlValue::Integer(Some(i)),
        PrismaValue::Uuid(u) => SqlValue::Text(Some(u)),
        PrismaValue::Json(s) => SqlValue::Json(Some(s)),
        PrismaValue::Null => nothing,
    }
}

impl ScalarFieldTemplate {
    /// The value of a database that stands for a value of the field.
    pub fn value(&self, pv: PrismaValue) -> (r: SqlValue)
        ensures
            r.deep_view() == sql_value_of(
                pv.deep_view(),
                nothing_of(self.is_list, self.type_identifier.deep_view()),
            ),
    {
        let nothing: SqlValue = if self.is_list {
            SqlValue::NoArray
        } else {
            match &self.type_identifier {
                TypeIdentifier::String => SqlValue::Text(None),
                TypeIdentifier::Float => SqlValue::Real(None),
                TypeIdentifier::Boolean => SqlValue::Boolean(None),
                TypeIdentifier::Enum(_) => SqlValue::Enum(None),
                TypeIdentifier::Json => SqlValue::Json(None),
                TypeIdentifier::DateTime => SqlValue::DateTime(None),
                TypeIdentifier::UUID => SqlValue::Uuid(None),
                TypeIdentifier::Int => SqlValue::Integer(None),
            }
        };
        convert(pv, nothing)
    }
}

/// The value of a database that stands for a value of a data model, where
/// nothing more is known of the value. What kind of nothing is meant cannot
/// be told: it is handed over as no whole number.
pub fn convert_lossy(pv: PrismaValue) -> (r: SqlValue)
    ensures
        r.deep_view() == sql_value_of(pv.deep_view(), SqlValueView::Integer(None)),
{
    convert(pv, SqlValue::Integer(None))
}

} // verus!
