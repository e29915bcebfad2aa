//! Regular expressions, matched by the `regex` crate.

use vstd::prelude::*;
use vstd::string::*;

verus! {

/// What the first capture group of `pattern` holds in the leftmost match of
/// `pattern` in `text`; `None` where the pattern does not compile, does not
/// match, or matches without that group.
pub uninterp spec fn first_group(pattern: Seq<char>, text: Seq<char>) -> Option<Seq<char>>;

/// Whether `pattern` compiles and matches somewhere in `text`.
pub uninterp spec fn found_in(pattern: Seq<char>, text: Seq<char>) -> bool;

/// `text` with every match of `pattern` replaced by the expansion of
/// `replacement`; `text` itself where the pattern does not compile.
pub uninterp spec fn replaced_all(
    pattern: Seq<char>,
    text: Seq<char>,
    replacement: Seq<char>,
) -> Seq<char>;

/// Calls `regex::Regex::new`, then `Regex::captures` and `Captures::get(1)`.
/// Not proved: that the result is the text named `first_group`, which is all
/// the contract claims. The call depends on its two arguments alone.
#[verifier::external_body]
pub(crate) fn capture_first_group(pattern: &str, text: &str) -> (r: Option<String>)
    ensures
        r.deep_view() == first_group(pattern@, text@),
{
    match regex::Regex::new(pattern) {
        Ok(re) => re.captures(text).and_then(|c| c.get(1)).map(|m| m.as_str().to_owned()),
        Err(_) => None,
    }
}

/// Calls `regex::Regex::new`, then `Regex::is_match`. Not proved: that the
/// result is the truth value named `found_in`, which is all the contract
/// claims. The call depends on its two arguments alone.
#[verifier::external_body]
pub(crate) fn is_match(pattern: &str, text: &str) -> (r: bool)
    ensures
        r == found_in(pattern@, text@),
{
    match regex::Regex::new(pattern) {
        Ok(re) => re.is_match(text),
        Err(_) => false,
    }
}

/// Calls `regex::Regex::new`, then `Regex::replace_all`. Not proved: that
/// the result is the text named `replaced_all`, which is all the contract
/// claims. The call depends on its three arguments alone.
#[verifier::external_body]
pub(crate) fn replace_all(pattern: &str, text: &str, replacement: &str) -> (r: String)
    ensures
        r@ == replaced_all(pattern@, text@, replacement@),
{
    match regex::Regex::new(pattern) {
        Ok(re) => re.replace_all(text, replacement).into_owned(),
        Err(_) => text.to_owned(),
    }
}

} // verus!
