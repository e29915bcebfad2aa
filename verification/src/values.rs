//! Constant values as they stand in column defaults and field defaults.

use vstd::prelude::*;
use vstd::string::*;

verus! {

/// A decimal number: `mantissa` divided by ten to the power `scale`.
#[derive(Debug, PartialEq, Eq, Structural, Clone, Copy)]
pub struct Decimal {
    pub mantissa: i128,
    pub scale: u32,
}

impl Decimal {
    /// The whole number `n`.
    pub fn from_i64(n: i64) -> (r: Decimal)
        ensures
            r.mantissa == n,
            r.scale == 0,
    {
        Decimal { mantissa: n as i128, scale: 0 }
    }
}

/// A constant value.
#[derive(Debug, PartialEq)]
pub enum PrismaValue {
    String(String),
    Boolean(bool),
    Enum(String),
    Int(i64),
    Float(Decimal),
    Json(String),
    /// A point in time, in milliseconds since the epoch.
    DateTime(i64),
    /// A UUID in its hyphenated text form.
    Uuid(String),
    Null,
}

pub enum PrismaValueView {
    String(Seq<char>),
    Boolean(bool),
    Enum(Seq<char>),
    Int(i64),
    Float(Decimal),
    Json(Seq<char>),
    DateTime(i64),
    Uuid(Seq<char>),
    Null,
}

impl DeepView for PrismaValue {
    type V = PrismaValueView;

    open spec fn deep_view(&self) -> PrismaValueView {
        match self {
            PrismaValue::String(s) => PrismaValueView::String(s@),
            PrismaValue::Boolean(b) => PrismaValueView::Boolean(*b),
            PrismaValue::Enum(s) => PrismaValueView::Enum(s@),
            PrismaValue::Int(i) => PrismaValueView::Int(*i),
            PrismaValue::Float(d) => PrismaValueView::Float(*d),
            PrismaValue::Json(s) => PrismaValueView::Json(s@),
            PrismaValue::DateTime(t) => PrismaValueView::DateTime(*t),
            PrismaValue::Uuid(s) => PrismaValueView::Uuid(s@),
            PrismaValue::Null => PrismaValueView::Null,
        }
    }
}

impl Clone for PrismaValue {
    fn clone(&self) -> (r: Self)
        ensures
            r.deep_view() == self.deep_view(),
    {
        match self {
            PrismaValue::String(s) => PrismaValue::String(s.clone()),
            PrismaValue::Boolean(b) => PrismaValue::Boolean(*b),
            PrismaValue::Enum(s) => PrismaValue::Enum(s.clone()),
            PrismaValue::Int(i) => PrismaValue::Int(*i),
            PrismaValue::Float(d) => PrismaValue::Float(*d),
            PrismaValue::Json(s) => PrismaValue::Json(s.clone()),
            PrismaValue::DateTime(t) => PrismaValue::DateTime(*t),
            PrismaValue::Uuid(s) => PrismaValue::Uuid(s.clone()),
            PrismaValue::Null => PrismaValue::Null,
        }
    }
}

impl PrismaValue {
    /// Whether two values are of the same kind and hold the same.
    pub fn same(&self, other: &PrismaValue) -> (r: bool)
        ensures
            r == (self.deep_view() == other.deep_view()),
    {
        match (self, other) {
            (PrismaValue::String(a), PrismaValue::String(b)) => *a == *b,
            (PrismaValue::Boolean(a), PrismaValue::Boolean(b)) => *a == *b,
            (PrismaValue::Enum(a), PrismaValue::Enum(b)) => *a == *b,
            (PrismaValue::Int(a), PrismaValue::Int(b)) => *a == *b,
            (PrismaValue::Float(a), PrismaValue::Float(b)) => a.mantissa == b.mantissa && a.scale
                == b.scale,
            (PrismaValue::Json(a), PrismaValue::Json(b)) => *a == *b,
            (PrismaValue::DateTime(a), PrismaValue::DateTime(b)) => *a == *b,
            (PrismaValue::Uuid(a), PrismaValue::Uuid(b)) => *a == *b,
            (PrismaValue::Null, PrismaValue::Null) => true,
            _ => false,
        }
    }
}

/// The value of a decimal digit.
pub open spec fn digit_value(c: char) -> Option<int> {
    if '0' <= c && c <= '9' {
        Some(c as int - '0' as int)
    } else {
        None
    }
}

/// The number that a run of decimal digits stands for; `None` where a
/// character is no digit.
pub open spec fn digits_value(s: Seq<char>) -> Option<int>
    decreases s.len(),
{
    if s.len() == 0 {
        Some(0)
    } else {
        match (digits_value(s.drop_last()), digit_value(s.last())) {
            (Some(v), Some(d)) => Some(v * 10 + d),
            _ => None,
        }
    }
}

/// The 64-bit integer that a text stands for: an optional sign, then one or
/// more of the digits 0 to 9 and nothing else, with a value in range.
pub open spec fn integer_of_text(s: Seq<char>) -> Option<i64> {
    let negative = s.len() > 0 && s[0] == '-';
    let signed = s.len() > 0 && (s[0] == '-' || s[0] == '+');
    let body = if signed {
        s.drop_first()
    } else {
        s
    };
    if body.len() == 0 {
        None
    } else {
        match digits_value(body) {
            Some(v) => {
                let n = if negative {
                    -v
                } else {
                    v
                };
                if i64::MIN <= n <= i64::MAX {
                    Some(n as i64)
                } else {
                    None
                }
            },
            None => None,
        }
    }
}

/// Calls `str::parse::<i64>`. Not proved: that std reads an integer as its
/// documentation says, an optional sign followed by decimal digits only, with
/// an error for an empty text, any other character, or a value out of range.
#[verifier::external_body]
pub(crate) fn integer_from_text(s: &str) -> (r: Option<i64>)
    ensures
        r == integer_of_text(s@),
{
    s.parse::<i64>().ok()
}

/// The text with each character in lower case, as Unicode defines it.
pub uninterp spec fn lowercase(s: Seq<char>) -> Seq<char>;

/// Calls `str::to_lowercase`. Not proved: that the result is the text named
/// `lowercase`, which is all the contract claims.
#[verifier::external_body]
pub(crate) fn to_lowercase(s: &str) -> (r: String)
    ensures
        r@ == lowercase(s@),
{
    s.to_lowercase()
}

/// The mantissa and the scale of the decimal number that a text stands for;
/// `None` where the text is no decimal number.
pub uninterp spec fn decimal_of_text(s: Seq<char>) -> Option<(i128, u32)>;

/// Calls `rust_decimal::Decimal::from_str`, then `mantissa` and `scale` on
/// what it returned. Not proved: that this is the pair named
/// `decimal_of_text`, which is all the contract claims.
#[verifier::external_body]
pub(crate) fn decimal_from_text(s: &str) -> (r: Option<Decimal>)
    ensures
        match r {
            Some(d) => decimal_of_text(s@) == Some((d.mantissa, d.scale)),
            None => decimal_of_text(s@) is None,
        },
{
    match <rust_decimal::Decimal as std::str::FromStr>::from_str(s) {
        Ok(d) => Some(Decimal { mantissa: d.mantissa(), scale: d.scale() }),
        Err(_) => None,
    }
}

/// The text with every occurrence of `from` replaced by `to`, found from
/// left to right without overlap.
pub uninterp spec fn replaced_text(s: Seq<char>, from: Seq<char>, to: Seq<char>) -> Seq<char>;

/// Calls `str::replace`. Not proved: that the result is the text named
/// `replaced_text`, which is all the contract claims.
#[verifier::external_body]
pub(crate) fn replace_text(s: &str, from: &str, to: &str) -> (r: String)
    ensures
        r@ == replaced_text(s@, from@, to@),
{
    s.replace(from, to)
}

} // verus!
