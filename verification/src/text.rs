//! Operations on names and other short texts, stated over sequences of
//! characters.

use vstd::prelude::*;
use vstd::string::*;

verus! {

/// Strict lexicographic order on texts, characters compared by code point.
pub open spec fn lex_lt(a: Seq<char>, b: Seq<char>) -> bool
    decreases a.len(),
{
    if b.len() == 0 {
        false
    } else if a.len() == 0 {
        true
    } else if a[0] != b[0] {
        (a[0] as int) < (b[0] as int)
    } else {
        lex_lt(a.drop_first(), b.drop_first())
    }
}

/// No text comes before itself.
pub proof fn lemma_lex_lt_irreflexive(a: Seq<char>)
    ensures
        !lex_lt(a, a),
    decreases a.len(),
{
    if a.len() > 0 {
        lemma_lex_lt_irreflexive(a.drop_first());
    }
}

/// Of two different texts exactly one comes before the other.
pub proof fn lemma_lex_lt_total(a: Seq<char>, b: Seq<char>)
    ensures
        a != b ==> (lex_lt(a, b) <==> !lex_lt(b, a)),
        a == b ==> !lex_lt(a, b) && !lex_lt(b, a),
    decreases a.len(),
{
    if a == b {
        lemma_lex_lt_irreflexive(a);
    } else if a.len() == 0 || b.len() == 0 {
        if a.len() == 0 && b.len() == 0 {
            assert(a =~= b);
        }
    } else if a[0] == b[0] {
        if a.drop_first() == b.drop_first() {
            assert(a =~= seq![a[0]] + a.drop_first());
            assert(b =~= seq![b[0]] + b.drop_first());
        }
        lemma_lex_lt_total(a.drop_first(), b.drop_first());
    } else {
        assert(a[0] as int != b[0] as int);
    }
}

/// The order is decided at the first position where the two texts differ.
pub proof fn lemma_lex_lt_skip(a: Seq<char>, b: Seq<char>, k: int)
    requires
        0 <= k <= a.len(),
        k <= b.len(),
        a.take(k) == b.take(k),
    ensures
        lex_lt(a, b) == lex_lt(a.skip(k), b.skip(k)),
    decreases k,
{
    if k == 0 {
        assert(a.skip(0) =~= a);
        assert(b.skip(0) =~= b);
    } else {
        assert(a.take(k - 1) =~= a.take(k).take(k - 1));
        assert(b.take(k - 1) =~= b.take(k).take(k - 1));
        lemma_lex_lt_skip(a, b, k - 1);
        assert(a.take(k)[k - 1] == a[k - 1]);
        assert(b.take(k)[k - 1] == b[k - 1]);
        assert(a.skip(k - 1)[0] == b.skip(k - 1)[0]);
        assert(a.skip(k - 1).drop_first() =~= a.skip(k));
        assert(b.skip(k - 1).drop_first() =~= b.skip(k));
    }
}

/// Whether `a` comes strictly before `b`.
pub fn str_lt(a: &str, b: &str) -> (r: bool)
    ensures
        r == lex_lt(a@, b@),
{
    let la: usize = a.unicode_len();
    let lb: usize = b.unicode_len();
    let mut i: usize = 0;
    while i < la && i < lb
        invariant
            la == a@.len(),
            lb == b@.len(),
            i <= la,
            i <= lb,
            a@.take(i as int) == b@.take(i as int),
        decreases la - i,
    {
        let ca: char = a.get_char(i);
        let cb: char = b.get_char(i);
        if ca != cb {
            proof {
                lemma_lex_lt_skip(a@, b@, i as int);
            }
            return (ca as u32) < (cb as u32);
        }
        proof {
            assert(a@.take(i + 1) =~= a@.take(i as int).push(a@[i as int]));
            assert(b@.take(i + 1) =~= b@.take(i as int).push(b@[i as int]));
        }
        i = i + 1;
    }
    proof {
        lemma_lex_lt_skip(a@, b@, i as int);
    }
    i < lb
}

/// Whether two texts hold the same characters.
pub fn str_eq(a: &str, b: &str) -> (r: bool)
    ensures
        r == (a@ == b@),
{
    let x: String = a.to_owned();
    let y: String = b.to_owned();
    x == y
}

/// The two texts one after the other.
pub fn concat(a: &str, b: &str) -> (r: String)
    ensures
        r@ == a@ + b@,
{
    let mut s: String = a.to_owned();
    s.append(b);
    s
}

/// Whether `prefix` stands at the start of `s`.
pub fn starts_with(s: &str, prefix: &str) -> (r: bool)
    ensures
        r == prefix@.is_prefix_of(s@),
{
    let ls: usize = s.unicode_len();
    let lp: usize = prefix.unicode_len();
    if lp > ls {
        return false;
    }
    let head: &str = s.substring_char(0, lp);
    let r: bool = str_eq(head, prefix);
    proof {
        if r {
            assert(prefix@ =~= s@.subrange(0, lp as int));
        }
    }
    r
}

/// Whether `needle` occurs in `hay` as a run of neighbouring characters.
pub open spec fn contains_text(hay: Seq<char>, needle: Seq<char>) -> bool {
    exists|i: int|
        0 <= i && i + needle.len() <= hay.len() && #[trigger] hay.subrange(
            i,
            i + needle.len(),
        ) == needle
}

/// Whether `needle` occurs in `hay`.
pub fn str_contains(hay: &str, needle: &str) -> (r: bool)
    ensures
        r == contains_text(hay@, needle@),
{
    let lh: usize = hay.unicode_len();
    let ln: usize = needle.unicode_len();
    if ln > lh {
        return false;
    }
    let limit: usize = lh - ln;
    let mut i: usize = 0;
    loop
        invariant
            lh == hay@.len(),
            ln == needle@.len(),
            limit == lh - ln,
            i <= limit,
            forall|j: int| 0 <= j < i ==> #[trigger] hay@.subrange(j, j + ln) != needle@,
        decreases limit - i,
    {
        let part: &str = hay.substring_char(i, i + ln);
        if str_eq(part, needle) {
            return true;
        }
        if i == limit {
            return false;
        }
        i = i + 1;
    }
}

/// `s` without the characters `c` that stand at its start.
pub open spec fn trim_start(s: Seq<char>, c: char) -> Seq<char>
    decreases s.len(),
{
    if s.len() > 0 && s[0] == c {
        trim_start(s.drop_first(), c)
    } else {
        s
    }
}

/// `s` without the characters `c` that stand at its end.
pub open spec fn trim_end(s: Seq<char>, c: char) -> Seq<char>
    decreases s.len(),
{
    if s.len() > 0 && s.last() == c {
        trim_end(s.drop_last(), c)
    } else {
        s
    }
}

proof fn lemma_trim_start_skip(s: Seq<char>, c: char, k: int)
    requires
        0 <= k <= s.len(),
        forall|j: int| 0 <= j < k ==> s[j] == c,
    ensures
        trim_start(s, c) == trim_start(s.skip(k), c),
    decreases k,
{
    if k == 0 {
        assert(s.skip(0) =~= s);
    } else {
        lemma_trim_start_skip(s, c, k - 1);
        assert(s.skip(k - 1)[0] == c);
        assert(s.skip(k - 1).drop_first() =~= s.skip(k));
    }
}

proof fn lemma_trim_end_take(s: Seq<char>, c: char, k: int)
    requires
        0 <= k <= s.len(),
        forall|j: int| k <= j < s.len() ==> s[j] == c,
    ensures
        trim_end(s, c) == trim_end(s.take(k), c),
    decreases s.len() - k,
{
    if k == s.len() {
        assert(s.take(k) =~= s);
    } else {
        lemma_trim_end_take(s, c, k + 1);
        assert(s.take(k + 1).last() == c);
        assert(s.take(k + 1).drop_last() =~= s.take(k));
    }
}

/// The part of `s` that starts behind its leading characters `c`.
pub fn trim_start_matches<'a>(s: &'a str, c: char) -> (r: &'a str)
    ensures
        r@ == trim_start(s@, c),
{
    let n: usize = s.unicode_len();
    let mut i: usize = 0;
    while i < n && s.get_char(i) == c
        invariant
            n == s@.len(),
            i <= n,
            forall|j: int| 0 <= j < i ==> s@[j] == c,
        decreases n - i,
    {
        i = i + 1;
    }
    proof {
        lemma_trim_start_skip(s@, c, i as int);
        assert(s@.skip(i as int) =~= s@.subrange(i as int, n as int));
    }
    s.substring_char(i, n)
}

/// The part of `s` that ends before its trailing characters `c`.
pub fn trim_end_matches<'a>(s: &'a str, c: char) -> (r: &'a str)
    ensures
        r@ == trim_end(s@, c),
{
    let n: usize = s.unicode_len();
    let mut i: usize = n;
    while i > 0 && s.get_char(i - 1) == c
        invariant
            n == s@.len(),
            i <= n,
            forall|j: int| i <= j < n ==> s@[j] == c,
        decreases i,
    {
        i = i - 1;
    }
    proof {
        lemma_trim_end_take(s@, c, i as int);
        assert(s@.take(i as int) =~= s@.subrange(0, i as int));
    }
    s.substring_char(0, i)
}

/// Whether `needle` is one of `names`.
pub fn names_contain(names: &Vec<String>, needle: &str) -> (r: bool)
    ensures
        r == names.deep_view().contains(needle@),
{
    let mut i: usize = 0;
    while i < names.len()
        invariant
            i <= names.len(),
            forall|j: int| 0 <= j < i ==> names.deep_view()[j] != needle@,
        decreases names.len() - i,
    {
        if str_eq(names[i].as_str(), needle) {
            assert(names.deep_view()[i as int] == needle@);
            return true;
        }
        i = i + 1;
    }
    false
}

/// Whether two lists hold the same names in the same order.
pub fn names_eq(a: &Vec<String>, b: &Vec<String>) -> (r: bool)
    ensures
        r == (a.deep_view() == b.deep_view()),
{
    if a.len() != b.len() {
        assert(a.deep_view().len() != b.deep_view().len());
        return false;
    }
    let mut i: usize = 0;
    while i < a.len()
        invariant
            a.len() == b.len(),
            i <= a.len(),
            forall|j: int| 0 <= j < i ==> a.deep_view()[j] == b.deep_view()[j],
        decreases a.len() - i,
    {
        if a[i] != b[i] {
            assert(a.deep_view()[i as int] != b.deep_view()[i as int]);
            return false;
        }
        i = i + 1;
    }
    assert(a.deep_view() =~= b.deep_view());
    true
}

/// A copy of a list of names.
pub fn names_clone(a: &Vec<String>) -> (r: Vec<String>)
    ensures
        r.deep_view() == a.deep_view(),
{
    let mut out: Vec<String> = Vec::new();
    let mut i: usize = 0;
    while i < a.len()
        invariant
            i <= a.len(),
            out.len() == i,
            forall|j: int| 0 <= j < i ==> out.deep_view()[j] == a.deep_view()[j],
        decreases a.len() - i,
    {
        out.push(a[i].clone());
        i = i + 1;
    }
    assert(out.deep_view() =~= a.deep_view());
    out
}

/// The names one after the other, with `sep` between each two.
pub open spec fn join_text(names: Seq<Seq<char>>, sep: Seq<char>) -> Seq<char>
    decreases names.len(),
{
    if names.len() == 0 {
        Seq::empty()
    } else if names.len() == 1 {
        names[0]
    } else {
        join_text(names.drop_last(), sep) + sep + names.last()
    }
}

/// The names one after the other, with `sep` between each two.
pub fn join(names: &Vec<String>, sep: &str) -> (r: String)
    ensures
        r@ == join_text(names.deep_view(), sep@),
{
    let mut out: String = String::new();
    let mut i: usize = 0;
    while i < names.len()
        invariant
            i <= names.len(),
            out@ == join_text(names.deep_view().take(i as int), sep@),
        decreases names.len() - i,
    {
        if i > 0 {
            out.append(sep);
        }
        out.append(names[i].as_str());
        proof {
            let t = names.deep_view().take(i + 1);
            assert(t.drop_last() =~= names.deep_view().take(i as int));
            assert(t.last() == names[i as int]@);
            if i == 0 {
                assert(out@ =~= names[i as int]@);
            }
        }
        i = i + 1;
    }
    assert(names.deep_view().take(i as int) =~= names.deep_view());
    out
}

/// A copy of a name that may be absent.
pub fn name_option_clone(a: &Option<String>) -> (r: Option<String>)
    ensures
        r.deep_view() == a.deep_view(),
{
    match a {
        Some(s) => Some(s.clone()),
        None => None,
    }
}

/// Whether two names that may be absent are the same.
pub fn name_option_eq(a: &Option<String>, b: &Option<String>) -> (r: bool)
    ensures
        r == (a.deep_view() == b.deep_view()),
{
    match (a, b) {
        (Some(x), Some(y)) => *x == *y,
        (None, None) => true,
        _ => false,
    }
}

} // verus!
