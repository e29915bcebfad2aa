//! Reading what MySQL and MariaDB report of their columns.

use crate::patterns::{capture_first_group, first_group, found_in, is_match, replace_all, replaced_all};
use crate::sql_schema::parsing::{unquote_string, unquoted};
use crate::text::{contains_text, str_contains};
use crate::values::{integer_from_text, integer_of_text};
use vstd::prelude::*;
use vstd::string::*;

verus! {

/// Whether the version is that of a MariaDB server.
pub fn is_mariadb(version: &str) -> (r: bool)
    ensures
        r == contains_text(version@, "MariaDB"@),
{
    str_contains(version, "MariaDB")
}

/// The two kinds of servers that speak the language of MySQL.
#[derive(Debug, PartialEq, Eq, Structural, Clone, Copy)]
pub enum Flavour {
    Mysql,
    MariaDb,
}

impl Flavour {
    pub fn from_version(version_string: &str) -> (r: Flavour)
        ensures
            r == if contains_text(version_string@, "MariaDB"@) {
                Flavour::MariaDb
            } else {
                Flavour::Mysql
            },
    {
        if is_mariadb(version_string) {
            Flavour::MariaDb
        } else {
            Flavour::Mysql
        }
    }
}

/// A full data type that ends with one digit from 1 to 9 in brackets.
pub open spec fn precision_pattern() -> Seq<char> {
    ".*\\(([1-9])\\)"@
}

/// The precision that a captured digit stands for.
pub open spec fn precision_of(digit: Option<Seq<char>>) -> Option<u32> {
    match digit {
        Some(d) => match integer_of_text(d) {
            Some(n) => if 0 <= n <= u32::MAX {
                Some(n as u32)
            } else {
                None
            },
            None => None,
        },
        None => None,
    }
}

/// The precision that a captured digit stands for.
pub fn precision_from_capture(digit: Option<String>) -> (r: Option<u32>)
    ensures
        r == precision_of(digit.deep_view()),
{
    match digit {
        Some(d) => match integer_from_text(d.as_str()) {
            Some(n) => if 0 <= n && n <= 4294967295 {
                Some(n as u32)
            } else {
                None
            },
            None => None,
        },
        None => None,
    }
}

/// The single digit of precision that a full data type gives in brackets.
pub fn extract_precision(input: &str) -> (r: Option<u32>)
    ensures
        r == precision_of(first_group(precision_pattern(), input@)),
{
    precision_from_capture(capture_first_group(".*\\(([1-9])\\)", input))
}

/// The parts of a text between the commas among its first `k` characters
/// that are complete, and the part that is not.
pub open spec fn split_upto(s: Seq<char>, k: int) -> (Seq<Seq<char>>, Seq<char>)
    decreases k,
{
    if k <= 0 {
        (Seq::empty(), Seq::empty())
    } else {
        let (parts, current) = split_upto(s, k - 1);
        if s[k - 1] == ',' {
            (parts.push(current), Seq::empty())
        } else {
            (parts, current.push(s[k - 1]))
        }
    }
}

/// The parts of a text between its commas.
pub open spec fn split_on_commas(s: Seq<char>) -> Seq<Seq<char>> {
    let (parts, current) = split_upto(s, s.len() as int);
    parts.push(current)
}

/// A text without its quotes.
pub open spec fn unquote() -> spec_fn(Seq<char>) -> Seq<char> {
    |v: Seq<char>| unquoted(v)
}

/// Whether a full data type has the form of the type of an enum: five
/// characters, the values, and one character more.
pub open spec fn enum_type_text(full_data_type: Seq<char>) -> bool {
    full_data_type.len() >= 6
}

/// The values that the full data type of an enum names: what stands
/// between `enum(` and `)`, parted at the commas, each without its quotes.
pub open spec fn enum_values_of(full_data_type: Seq<char>) -> Seq<Seq<char>> {
    split_on_commas(full_data_type.subrange(5, full_data_type.len() - 1)).map_values(unquote())
}

/// The values that the full data type of an enum names.
#[verifier::loop_isolation(false)]
pub fn extract_enum_values(full_data_type: &str) -> (r: Vec<String>)
    requires
        enum_type_text(full_data_type@),
    ensures
        r.deep_view() == enum_values_of(full_data_type@),
{
    let n: usize = full_data_type.unicode_len();
    let vals: &str = full_data_type.substring_char(5, n - 1);
    let m: usize = vals.unicode_len();
    let ghost s = vals@;
    let mut out: Vec<String> = Vec::new();
    let mut start: usize = 0;
    let mut i: usize = 0;
    assert(out.deep_view() =~= split_upto(s, 0).0.map_values(unquote()));
    assert(s.subrange(0, 0) =~= split_upto(s, 0).1);
    while i < m
        invariant
            start <= i <= m,
            out.deep_view() == split_upto(s, i as int).0.map_values(unquote()),
            s.subrange(start as int, i as int) == split_upto(s, i as int).1,
        decreases m - i,
    {
        let ghost before = out.deep_view();
        let ghost (parts, current) = split_upto(s, i as int);
        if vals.get_char(i) == ',' {
            let part: &str = vals.substring_char(start, i);
            let v: String = unquote_string(part);
            let ghost vv = v@;
            out.push(v);
            proof {
                assert(out.deep_view() =~= before.push(vv));
                assert(parts.push(current).map_values(unquote()) =~= parts.map_values(
                    unquote(),
                ).push(unquoted(current)));
                assert(s.subrange(i + 1, i + 1) =~= Seq::<char>::empty());
            }
            start = i + 1;
        } else {
            assert(s.subrange(start as int, i + 1) =~= current.push(s[i as int]));
        }
        i = i + 1;
    }
    let last: &str = vals.substring_char(start, m);
    let v: String = unquote_string(last);
    let ghost before = out.deep_view();
    let ghost vv = v@;
    out.push(v);
    proof {
        let (parts, current) = split_upto(s, m as int);
        assert(out.deep_view() =~= before.push(vv));
        assert(parts.push(current).map_values(unquote()) =~= parts.map_values(unquote()).push(
            unquoted(current),
        ));
    }
    out
}

/// Whether a text speaks of the current point in time.
pub open spec fn timestamp_pattern() -> Seq<char> {
    "(?i)current_timestamp(\\([0-9]*\\))?"@
}

/// Tests whether an introspected default value should be categorized as current_timestamp.
pub fn default_is_current_timestamp(default_str: &str) -> (r: bool)
    ensures
        r == found_in(timestamp_pattern(), default_str@),
{
    is_match("(?i)current_timestamp(\\([0-9]*\\))?", default_str)
}

/// An escaped character or a doubled quote.
pub open spec fn escaping_pattern() -> Seq<char> {
    "\\\\('|\\\\[^\\\\])|'(')"@
}

/// A line break as MariaDB writes it.
pub open spec fn newline_pattern() -> Seq<char> {
    "\\\\n"@
}

/// Whether MariaDB can have written the default: it stands between two characters.
pub open spec fn quoted_default(default: Seq<char>, flavour: Flavour) -> bool {
    flavour == Flavour::MariaDb ==> default.len() >= 2
}

/// The text that a default of a column of text stands for. MariaDB writes
/// it between quotes and with line breaks escaped; both servers escape
/// quotes and backslashes.
pub open spec fn unescaped_default(default: Seq<char>, flavour: Flavour) -> Seq<char> {
    let inner = if flavour == Flavour::MariaDb {
        replaced_all(newline_pattern(), default.subrange(1, default.len() - 1), "\n"@)
    } else {
        default
    };
    replaced_all(escaping_pattern(), inner, "$1$2"@)
}

/// The text that a default of a column of text stands for.
pub fn unescape_and_unquote_default_string(default: String, flavour: &Flavour) -> (r: String)
    requires
        quoted_default(default@, *flavour),
    ensures
        r@ == unescaped_default(default@, *flavour),
{
    let maybe_unquoted: String = match flavour {
        Flavour::MariaDb => {
            let n: usize = default.as_str().unicode_len();
            let unquoted_part: &str = default.as_str().substring_char(1, n - 1);
            replace_all("\\\\n", unquoted_part, "\n")
        },
        Flavour::Mysql => default,
    };
    replace_all("\\\\('|\\\\[^\\\\])|'(')", maybe_unquoted.as_str(), "$1$2")
}

} // verus!
