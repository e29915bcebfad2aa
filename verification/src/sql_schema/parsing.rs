//! Reading constants out of the texts in which a database reports them.

use crate::patterns::{capture_first_group, first_group};
use crate::text::{str_eq, trim_end, trim_end_matches, trim_start, trim_start_matches};
use crate::values::{
    decimal_from_text, decimal_of_text, integer_from_text, integer_of_text, to_lowercase,
    lowercase, Decimal, PrismaValue, PrismaValueView,
};
use vstd::prelude::*;
use vstd::string::*;

verus! {

/// A text of digits, with or without a single quote on either side.
pub open spec fn integer_pattern() -> Seq<char> {
    "^'?(\\d+)'?$"@
}

/// A text without single quotes, with or without a single quote on either side.
pub open spec fn number_pattern() -> Seq<char> {
    "^'?([^']+)'?$"@
}

/// The integer constant that a captured run of digits stands for.
pub open spec fn integer_constant(digits: Option<Seq<char>>) -> Option<PrismaValueView> {
    match digits {
        Some(d) => match integer_of_text(d) {
            Some(n) => Some(PrismaValueView::Int(n)),
            None => None,
        },
        None => None,
    }
}

/// The integer constant that a captured run of digits stands for: the
/// number where it fits in 64 bits, nothing otherwise.
pub fn int_from_capture(digits: Option<String>) -> (r: Option<PrismaValue>)
    ensures
        r.deep_view() == integer_constant(digits.deep_view()),
{
    match digits {
        Some(d) => match integer_from_text(d.as_str()) {
            Some(n) => Some(PrismaValue::Int(n)),
            None => None,
        },
        None => None,
    }
}

/// Reads an integer constant: digits, with or without quotes around them.
pub fn parse_int(value: &str) -> (r: Option<PrismaValue>)
    ensures
        r.deep_view() == integer_constant(first_group(integer_pattern(), value@)),
{
    int_from_capture(capture_first_group("^'?(\\d+)'?$", value))
}

/// The boolean constant that a text in lower case stands for.
pub open spec fn boolean_constant(lower: Seq<char>) -> Option<PrismaValueView> {
    if lower == "true"@ {
        Some(PrismaValueView::Boolean(true))
    } else if lower == "false"@ {
        Some(PrismaValueView::Boolean(false))
    } else {
        None
    }
}

/// The boolean constant that a text in lower case stands for: `true` for
/// "true", `false` for "false", nothing otherwise.
pub fn bool_from_lowercase(lower: &str) -> (r: Option<PrismaValue>)
    ensures
        r.deep_view() == boolean_constant(lower@),
{
    if str_eq(lower, "true") {
        Some(PrismaValue::Boolean(true))
    } else if str_eq(lower, "false") {
        Some(PrismaValue::Boolean(false))
    } else {
        None
    }
}

/// Reads a boolean constant, whatever the case of its letters.
pub fn parse_bool(value: &str) -> (r: Option<PrismaValue>)
    ensures
        r.deep_view() == boolean_constant(lowercase(value@)),
{
    let lower: String = to_lowercase(value);
    bool_from_lowercase(lower.as_str())
}

/// The decimal constant that a captured text stands for.
pub open spec fn decimal_constant(number: Option<Seq<char>>) -> Option<PrismaValueView> {
    match number {
        Some(t) => match decimal_of_text(t) {
            Some((mantissa, scale)) => Some(
                PrismaValueView::Float(Decimal { mantissa, scale }),
            ),
            None => None,
        },
        None => None,
    }
}

/// The decimal constant that a captured text stands for, nothing where the
/// text is no decimal number.
pub fn float_from_capture(number: Option<String>) -> (r: Option<PrismaValue>)
    ensures
        r.deep_view() == decimal_constant(number.deep_view()),
{
    match number {
        Some(t) => match decimal_from_text(t.as_str()) {
            Some(d) => Some(PrismaValue::Float(d)),
            None => None,
        },
        None => None,
    }
}

/// Reads a decimal constant, with or without quotes around it.
pub fn parse_float(value: &str) -> (r: Option<PrismaValue>)
    ensures
        r.deep_view() == decimal_constant(first_group(number_pattern(), value@)),
{
    float_from_capture(capture_first_group("^'?([^']+)'?$", value))
}

/// A text without the quotes and backslashes that surround it.
pub open spec fn unquoted(s: Seq<char>) -> Seq<char> {
    let a = trim_end(trim_start(s, '\''), '\'');
    let b = trim_start(trim_start(a, '\\'), '"');
    trim_end(trim_end(b, '"'), '\\')
}

/// Takes away, in this order: single quotes at the start and at the end,
/// backslashes at the start, double quotes at the start and at the end,
/// backslashes at the end.
pub fn unquote_string(val: &str) -> (r: String)
    ensures
        r@ == unquoted(val@),
{
    let a: &str = trim_end_matches(trim_start_matches(val, '\''), '\'');
    let b: &str = trim_start_matches(trim_start_matches(a, '\\'), '"');
    let c: &str = trim_end_matches(trim_end_matches(b, '"'), '\\');
    c.to_owned()
}

/// The sizes that the database reported for a column's type, each of which
/// may be missing.
#[derive(Debug)]
pub struct Precision {
    pub character_maximum_length: Option<u32>,
    pub numeric_precision: Option<u32>,
    pub numeric_precision_radix: Option<u32>,
    pub numeric_scale: Option<u32>,
    pub time_precision: Option<u32>,
}

impl Precision {
    /// The numeric precision, 65 where the database reported none.
    pub fn numeric_precision(&self) -> (r: u32)
        ensures
            r == match self.numeric_precision {
                Some(p) => p,
                None => 65u32,
            },
    {
        match self.numeric_precision {
            Some(p) => p,
            None => 65,
        }
    }

    /// The greatest length in characters, 64000 where the database reported none.
    pub fn character_max_length(&self) -> (r: u32)
        ensures
            r == match self.character_maximum_length {
                Some(p) => p,
                None => 64000u32,
            },
    {
        match self.character_maximum_length {
            Some(p) => p,
            None => 64000,
        }
    }

    /// The numeric scale, 30 where the database reported none.
    pub fn numeric_scale(&self) -> (r: u32)
        ensures
            r == match self.numeric_scale {
                Some(p) => p,
                None => 30u32,
            },
    {
        match self.numeric_scale {
            Some(p) => p,
            None => 30,
        }
    }

    pub fn time_precision(&self) -> (r: Option<u32>)
        ensures
            r == self.time_precision,
    {
        self.time_precision
    }
}

} // verus!
