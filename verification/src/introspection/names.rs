//! Names that the schema language accepts, made from names that the
//! database accepts.
//!
//! A name of the schema language starts with a letter and goes on with
//! letters, digits and underscores.

use crate::text::names_contain;
use vstd::prelude::*;
use vstd::string::*;

verus! {

pub open spec fn is_letter(c: char) -> bool {
    ('a' <= c && c <= 'z') || ('A' <= c && c <= 'Z')
}

pub open spec fn is_name_char(c: char) -> bool {
    is_letter(c) || ('0' <= c && c <= '9') || c == '_'
}

/// Whether the schema language accepts the name.
pub open spec fn is_valid_name(s: Seq<char>) -> bool {
    s.len() > 0 && is_letter(s[0]) && forall|i: int| 0 <= i < s.len() ==> is_name_char(#[trigger] s[i])
}

/// The name from its first letter on.
pub open spec fn from_first_letter(s: Seq<char>) -> Seq<char>
    decreases s.len(),
{
    if s.len() > 0 && !is_letter(s[0]) {
        from_first_letter(s.drop_first())
    } else {
        s
    }
}

/// The character itself where a name may hold it, an underscore otherwise.
pub open spec fn name_char() -> spec_fn(char) -> char {
    |c: char|
        if is_name_char(c) {
            c
        } else {
            '_'
        }
}

/// The name made valid: what stands before its first letter is left out,
/// and every character that a name may not hold becomes an underscore. A
/// name without a letter becomes the empty name.
pub open spec fn sanitized(s: Seq<char>) -> Seq<char> {
    from_first_letter(s).map_values(name_char())
}

/// A sanitized name is valid or empty.
pub proof fn lemma_sanitized_valid(s: Seq<char>)
    ensures
        sanitized(s).len() == 0 || is_valid_name(sanitized(s)),
{
    lemma_from_first_letter(s);
}

/// A valid name is its own sanitized name.
pub proof fn lemma_valid_unchanged(s: Seq<char>)
    requires
        is_valid_name(s),
    ensures
        sanitized(s) == s,
{
    assert(s.map_values(name_char()) =~= s);
}

proof fn lemma_from_first_letter(s: Seq<char>)
    ensures
        from_first_letter(s).len() == 0 || is_letter(from_first_letter(s)[0]),
        from_first_letter(s).len() <= s.len(),
        exists|k: int| 0 <= k <= s.len() && from_first_letter(s) == #[trigger] s.skip(k) && forall|j: int|
            0 <= j < k ==> !is_letter(s[j]),
    decreases s.len(),
{
    if s.len() > 0 && !is_letter(s[0]) {
        let t = s.drop_first();
        lemma_from_first_letter(t);
        let k = choose|k: int| 0 <= k <= t.len() && from_first_letter(t) == #[trigger] t.skip(k) && forall|j: int|
            0 <= j < k ==> !is_letter(t[j]);
        assert(t.skip(k) =~= s.skip(k + 1));
        assert forall|j: int| 0 <= j < k + 1 implies !is_letter(s[j]) by {
            if j > 0 {
                assert(s[j] == t[j - 1]);
            }
        }
    } else {
        assert(s.skip(0) =~= s);
    }
}

proof fn lemma_from_first_letter_at(s: Seq<char>, k: int)
    requires
        0 <= k <= s.len(),
        forall|j: int| 0 <= j < k ==> !is_letter(s[j]),
        k == s.len() || is_letter(s[k]),
    ensures
        from_first_letter(s) == s.skip(k),
    decreases k,
{
    if k == 0 {
        assert(s.skip(0) =~= s);
    } else {
        let t = s.drop_first();
        assert forall|j: int| 0 <= j < k - 1 implies !is_letter(t[j]) by {
            assert(t[j] == s[j + 1]);
        }
        lemma_from_first_letter_at(t, k - 1);
        assert(t.skip(k - 1) =~= s.skip(k));
    }
}

/// Makes a name valid.
#[verifier::loop_isolation(false)]
pub fn sanitize_string(s: &str) -> (r: String)
    ensures
        r@ == sanitized(s@),
{
    let n: usize = s.unicode_len();
    let mut start: usize = 0;
    while start < n && !is_letter_char(s.get_char(start))
        invariant
            start <= n,
            forall|j: int| 0 <= j < start ==> !is_letter(s@[j]),
        decreases n - start,
    {
        start = start + 1;
    }
    proof {
        lemma_from_first_letter_at(s@, start as int);
    }
    let ghost rest = s@.skip(start as int);
    let mut out: String = String::new();
    let mut i: usize = start;
    assert(rest.take(0).map_values(name_char()) =~= Seq::<char>::empty());
    while i < n
        invariant
            start <= i <= n,
            out@ == rest.take(i - start).map_values(name_char()),
        decreases n - i,
    {
        let c: char = s.get_char(i);
        proof {
            crate::seqs::lemma_map_step(rest, name_char(), i - start);
            assert(rest[i - start] == c);
        }
        if is_name_character(c) {
            let part: &str = s.substring_char(i, i + 1);
            assert(part@ =~= seq![c]);
            out.append(part);
        } else {
            proof {
                reveal_strlit("_");
                assert("_"@ =~= seq!['_']);
            }
            out.append("_");
        }
        assert(out@ =~= rest.take(i - start).map_values(name_char()).push(name_char()(c)));
        i = i + 1;
    }
    assert(rest.take(n - start) =~= rest);
    out
}

fn is_letter_char(c: char) -> (r: bool)
    ensures
        r == is_letter(c),
{
    (c >= 'a' && c <= 'z') || (c >= 'A' && c <= 'Z')
}

fn is_name_character(c: char) -> (r: bool)
    ensures
        r == is_name_char(c),
{
    is_letter_char(c) || (c >= '0' && c <= '9') || c == '_'
}

/// The length of the longest of the names.
pub open spec fn longest(names: Seq<Seq<char>>) -> nat
    decreases names.len(),
{
    if names.len() == 0 {
        0
    } else {
        let rest = longest(names.drop_last());
        if names.last().len() > rest {
            names.last().len()
        } else {
            rest
        }
    }
}

/// No name is longer than the longest.
pub proof fn lemma_longest(names: Seq<Seq<char>>, x: Seq<char>)
    requires
        names.contains(x),
    ensures
        x.len() <= longest(names),
    decreases names.len(),
{
    if names.len() > 0 {
        if names.last() != x {
            let i = choose|i: int| 0 <= i < names.len() && names[i] == x;
            assert(names.drop_last()[i] == x);
            lemma_longest(names.drop_last(), x);
        }
    }
}

/// The name itself where it is not taken; otherwise the name with as many
/// underscores behind it as it takes to tell it from the names taken.
pub open spec fn free_name(base: Seq<char>, taken: Seq<Seq<char>>) -> Seq<char>
    decreases longest(taken) + 1 - base.len(),
{
    if taken.contains(base) {
        proof {
            lemma_longest(taken, base);
            reveal_strlit("_");
            assert((base + "_"@).len() == base.len() + 1);
        }
        free_name(base + "_"@, taken)
    } else {
        base
    }
}

/// A free name is not taken.
pub proof fn lemma_free_name(base: Seq<char>, taken: Seq<Seq<char>>)
    ensures
        !taken.contains(free_name(base, taken)),
        !taken.contains(base) ==> free_name(base, taken) == base,
    decreases longest(taken) + 1 - base.len(),
{
    if taken.contains(base) {
        lemma_longest(taken, base);
        reveal_strlit("_");
        lemma_free_name(base + "_"@, taken);
    }
}

/// The name itself where it is not taken, otherwise the name with
/// underscores behind it.
#[verifier::loop_isolation(false)]
pub fn make_free_name(base: String, taken: &Vec<String>) -> (r: String)
    ensures
        r@ == free_name(base@, taken.deep_view()),
{
    let mut name: String = base;
    while names_contain(taken, name.as_str())
        invariant
            free_name(base@, taken.deep_view()) == free_name(name@, taken.deep_view()),
        decreases longest(taken.deep_view()) + 1 - name@.len(),
    {
        proof {
            lemma_longest(taken.deep_view(), name@);
            reveal_strlit("_");
        }
        name.append("_");
    }
    name
}

} // verus!
