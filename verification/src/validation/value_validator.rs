//! Reading the value of an argument as a value of the kind that is
//! expected.

use crate::ast::expression::rendered;
use crate::ast::{Expression, Span};
use crate::validation::diagnostics::{DatamodelError, DatamodelErrorView};
use vstd::prelude::*;
use vstd::string::*;

verus! {

/// A value of which a kind is expected.
#[derive(Debug)]
pub struct ValueValidator<'a> {
    pub value: &'a Expression,
}

/// The error for a value that is not of the kind expected.
pub open spec fn not_of_kind(expected: Seq<char>, e: Expression) -> DatamodelErrorView {
    DatamodelErrorView::ValueParserError {
        expected_type: expected,
        parser_error: "Expected a "@ + expected + " value, but received another value."@,
        raw: rendered(e),
        span: e.span_of(),
    }
}

impl Expression {
    /// The place where the value was written.
    pub open spec fn span_of(self) -> Span {
        match self {
            Expression::NumericValue(_, s) => s,
            Expression::BooleanValue(_, s) => s,
            Expression::StringValue(_, s) => s,
            Expression::Any(_, s) => s,
            Expression::ConstantValue(_, s) => s,
            Expression::Function(_, _, s) => s,
            Expression::Array(_, s) => s,
        }
    }
}

impl<'a> ValueValidator<'a> {
    /// The value `value`, of which a kind is expected.
    pub fn new(value: &'a Expression) -> (r: ValueValidator<'a>)
        ensures
            r.value == value,
    {
        ValueValidator { value }
    }

    /// The place where the value was written.
    pub fn span(&self) -> (r: Span)
        ensures
            r == self.value.span_of(),
    {
        self.value.span()
    }

    /// The canonical text of the value.
    pub fn raw(&self) -> (r: String)
        ensures
            r@ == rendered(*self.value),
    {
        self.value.render_to_string()
    }

    fn error(&self, expected: &str) -> (r: DatamodelError)
        ensures
            r.deep_view() == not_of_kind(expected@, *self.value),
    {
        let mut parser_error: String = crate::text::concat("Expected a ", expected);
        parser_error.append(" value, but received another value.");
        DatamodelError::ValueParserError {
            expected_type: expected.to_owned(),
            parser_error,
            raw: self.raw(),
            span: self.span(),
        }
    }

    /// The text of the value, where it is a string; a string in any other
    /// form, a number or a boolean value is no string.
    pub fn as_str(&self) -> (r: Result<String, DatamodelError>)
        ensures
            match r {
                Ok(s) => *self.value matches Expression::StringValue(t, _) && s@ == t@,
                Err(e) => !(*self.value is StringValue) && e.deep_view() == not_of_kind(
                    "String"@,
                    *self.value,
                ),
            },
    {
        match self.value {
            Expression::StringValue(s, _) => Ok(s.clone()),
            _ => Err(self.error("String")),
        }
    }

    /// The values of the value, where it is an array; the value alone,
    /// where it is not.
    pub fn as_array(&self) -> (r: Vec<ValueValidator<'a>>)
        ensures
            match *self.value {
                Expression::Array(values, _) => r.len() == values.len() && forall|i: int|
                    0 <= i < r.len() ==> *(#[trigger] r[i]).value == values[i],
                _ => r.len() == 1 && r[0].value == self.value,
            },
    {
        match self.value {
            Expression::Array(values, _) => {
                let mut out: Vec<ValueValidator<'a>> = Vec::new();
                let mut i: usize = 0;
                while i < values.len()
                    invariant
                        i <= values.len(),
                        out.len() == i,
                        forall|j: int| 0 <= j < i ==> *(#[trigger] out[j]).value == values[j],
                    decreases values.len() - i,
                {
                    out.push(ValueValidator { value: &values[i] });
                    i = i + 1;
                }
                out
            },
            _ => {
                let mut out: Vec<ValueValidator<'a>> = Vec::new();
                out.push(ValueValidator { value: self.value });
                out
            },
        }
    }
}

/// The texts of the values, where each is a string; the error for the
/// first that is none otherwise.
pub fn to_str_vec(values: &Vec<ValueValidator<'_>>) -> (r: Result<Vec<String>, DatamodelError>)
    ensures
        match r {
            Ok(texts) => texts.len() == values.len() && forall|i: int|
                0 <= i < values.len() ==> (*(#[trigger] values[i]).value matches Expression::StringValue(
                    t,
                    _,
                ) && texts[i]@ == t@),
            Err(e) => exists|i: int|
                0 <= i < values.len() && !(*(#[trigger] values[i]).value is StringValue)
                    && e.deep_view() == not_of_kind("String"@, *values[i].value) && forall|j: int|
                    0 <= j < i ==> *(#[trigger] values[j]).value is StringValue,
        },
{
    let mut out: Vec<String> = Vec::new();
    let mut i: usize = 0;
    while i < values.len()
        invariant
            i <= values.len(),
            out.len() == i,
            forall|j: int|
                0 <= j < i ==> (*(#[trigger] values[j]).value matches Expression::StringValue(t, _)
                    && out[j]@ == t@),
        decreases values.len() - i,
    {
        match values[i].as_str() {
            Ok(s) => {
                out.push(s);
            },
            Err(e) => {
                return Err(e);
            },
        }
        i = i + 1;
    }
    Ok(out)
}

} // verus!
