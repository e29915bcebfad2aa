//! What the data types of this library have in common: a mathematical view,
//! a comparison that agrees with it, and searches over lists.

use vstd::prelude::*;
use vstd::string::*;

verus! {

/// A type whose values can be compared by what they hold.
pub trait Same: DeepView + Sized {
    /// Whether `self` and `other` hold the same.
    fn same(&self, other: &Self) -> (r: bool)
        ensures
            r == (self.deep_view() == other.deep_view()),
    ;
}

impl Same for String {
    fn same(&self, other: &Self) -> (r: bool) {
        *self == *other
    }
}

impl Same for bool {
    fn same(&self, other: &Self) -> (r: bool) {
        *self == *other
    }
}

impl Same for u32 {
    fn same(&self, other: &Self) -> (r: bool) {
        *self == *other
    }
}

/// Whether two lists hold the same items in the same order.
pub fn all_same<T: Same>(a: &Vec<T>, b: &Vec<T>) -> (r: bool)
    ensures
        r == (a.deep_view() == b.deep_view()),
{
    if a.len() != b.len() {
        assert(a.deep_view().len() != b.deep_view().len());
        return false;
    }
    let mut i: usize = 0;
    while i < a.len()
        invariant
            a.len() == b.len(),
            i <= a.len(),
            forall|j: int| 0 <= j < i ==> a.deep_view()[j] == b.deep_view()[j],
        decreases a.len() - i,
    {
        if !a[i].same(&b[i]) {
            assert(a.deep_view()[i as int] != b.deep_view()[i as int]);
            return false;
        }
        i = i + 1;
    }
    assert(a.deep_view() =~= b.deep_view());
    true
}

/// Whether two values that may be absent hold the same.
pub fn option_same<T: Same>(a: &Option<T>, b: &Option<T>) -> (r: bool)
    ensures
        r == (a.deep_view() == b.deep_view()),
{
    match (a, b) {
        (Some(x), Some(y)) => x.same(y),
        (None, None) => true,
        _ => false,
    }
}

/// The first position in `s` whose item meets `p`, if there is one.
pub open spec fn position<T>(s: Seq<T>, p: spec_fn(T) -> bool) -> Option<int>
    decreases s.len(),
{
    if s.len() == 0 {
        None
    } else if p(s[0]) {
        Some(0)
    } else {
        match position(s.drop_first(), p) {
            Some(i) => Some(i + 1),
            None => None,
        }
    }
}

/// `position` gives the first match and nothing else.
pub proof fn lemma_position<T>(s: Seq<T>, p: spec_fn(T) -> bool)
    ensures
        match position(s, p) {
            Some(i) => 0 <= i < s.len() && p(s[i]) && forall|j: int| 0 <= j < i ==> !p(s[j]),
            None => forall|j: int| 0 <= j < s.len() ==> !p(s[j]),
        },
    decreases s.len(),
{
    if s.len() > 0 && !p(s[0]) {
        let t = s.drop_first();
        lemma_position(t, p);
        match position(t, p) {
            Some(i) => {
                assert(s[i + 1] == t[i]);
                assert forall|j: int| 0 <= j < i + 1 implies !p(s[j]) by {
                    if j > 0 {
                        assert(s[j] == t[j - 1]);
                    }
                }
            },
            None => {
                assert forall|j: int| 0 <= j < s.len() implies !p(s[j]) by {
                    if j > 0 {
                        assert(s[j] == t[j - 1]);
                    }
                }
            },
        }
    }
}

/// A match with no match before it is the position.
pub proof fn lemma_position_is<T>(s: Seq<T>, p: spec_fn(T) -> bool, i: int)
    requires
        0 <= i < s.len(),
        p(s[i]),
        forall|j: int| 0 <= j < i ==> !p(s[j]),
    ensures
        position(s, p) == Some(i),
{
    lemma_position(s, p);
}

/// Where nothing matches there is no position.
pub proof fn lemma_position_none<T>(s: Seq<T>, p: spec_fn(T) -> bool)
    requires
        forall|j: int| 0 <= j < s.len() ==> !p(s[j]),
    ensures
        position(s, p) is None,
{
    lemma_position(s, p);
}

/// The first item of `s` that meets `p`, if there is one.
pub open spec fn find<T>(s: Seq<T>, p: spec_fn(T) -> bool) -> Option<T> {
    match position(s, p) {
        Some(i) => Some(s[i]),
        None => None,
    }
}

/// Whether some item of `s` meets `p`.
pub open spec fn any<T>(s: Seq<T>, p: spec_fn(T) -> bool) -> bool {
    position(s, p) is Some
}

/// Filtering one item more of a list adds that item or nothing.
pub proof fn lemma_filter_step<T>(s: Seq<T>, p: spec_fn(T) -> bool, i: int)
    requires
        0 <= i < s.len(),
    ensures
        s.take(i + 1).filter(p) == if p(s[i]) {
            s.take(i).filter(p).push(s[i])
        } else {
            s.take(i).filter(p)
        },
{
    s.lemma_take_succ_push(i);
    s.take(i).lemma_filter_push(s[i], p);
}

/// Filtering one item more and then mapping adds that item's image or nothing.
pub proof fn lemma_filter_map_step<T, U>(
    s: Seq<T>,
    p: spec_fn(T) -> bool,
    f: spec_fn(T) -> U,
    i: int,
)
    requires
        0 <= i < s.len(),
    ensures
        s.take(i + 1).filter(p).map_values(f) == if p(s[i]) {
            s.take(i).filter(p).map_values(f).push(f(s[i]))
        } else {
            s.take(i).filter(p).map_values(f)
        },
{
    lemma_filter_step(s, p, i);
    s.take(i).filter(p).lemma_push_map_commute(f, s[i]);
}

/// Mapping one item more of a list adds that item's image.
pub proof fn lemma_map_step<T, U>(s: Seq<T>, f: spec_fn(T) -> U, i: int)
    requires
        0 <= i < s.len(),
    ensures
        s.take(i + 1).map_values(f) == s.take(i).map_values(f).push(f(s[i])),
{
    s.lemma_take_succ_push(i);
    s.take(i).lemma_push_map_commute(f, s[i]);
}

/// What one item more of a list gives is added behind what the items
/// before it give.
pub proof fn lemma_flat_map_step<T, U>(s: Seq<T>, f: spec_fn(T) -> Seq<U>, i: int)
    requires
        0 <= i < s.len(),
    ensures
        s.take(i + 1).flat_map(f) == s.take(i).flat_map(f) + f(s[i]),
{
    s.lemma_take_succ_push(i);
    s.take(i).lemma_flat_map_push(f, s[i]);
}

/// No item gives nothing, and all items of a list are the list.
pub proof fn lemma_take_ends<T>(s: Seq<T>)
    ensures
        s.take(0) == Seq::<T>::empty(),
        s.take(s.len() as int) == s,
{
    assert(s.take(0) =~= Seq::<T>::empty());
    assert(s.take(s.len() as int) =~= s);
}

/// Filtering, mapping and flat-mapping nothing gives nothing.
pub proof fn lemma_of_nothing<T, U, V>(
    p: spec_fn(T) -> bool,
    f: spec_fn(T) -> U,
    g: spec_fn(T) -> Seq<V>,
)
    ensures
        Seq::<T>::empty().filter(p) == Seq::<T>::empty(),
        Seq::<T>::empty().map_values(f) == Seq::<U>::empty(),
        Seq::<T>::empty().flat_map(g) == Seq::<V>::empty(),
{
    let e = Seq::<T>::empty();
    assert(e.filter(p) =~= e);
    assert(e.map_values(f) =~= Seq::<U>::empty());
    assert(e.map_values(g) =~= Seq::<Seq<V>>::empty());
    assert(e.flat_map(g) =~= Seq::<V>::empty());
}

/// A copy of a list, item by item.
pub fn list_clone<T: Clone + DeepView>(a: &Vec<T>) -> (r: Vec<T>)
    requires
        forall|x: T, y: T| call_ensures(T::clone, (&x,), y) ==> x.deep_view() == y.deep_view(),
    ensures
        r.deep_view() == a.deep_view(),
{
    let r: Vec<T> = a.clone();
    assert(r.deep_view() =~= a.deep_view()) by {
        assert forall|i: int| 0 <= i < a.len() implies r[i].deep_view() == a[i].deep_view() by {
            assert(cloned::<T>(a[i], r[i]));
        }
    }
    r
}

/// A copy of a value that may be absent.
pub fn option_clone<T: Clone + DeepView>(a: &Option<T>) -> (r: Option<T>)
    requires
        forall|x: T, y: T| call_ensures(T::clone, (&x,), y) ==> x.deep_view() == y.deep_view(),
    ensures
        r.deep_view() == a.deep_view(),
{
    match a {
        Some(x) => Some(x.clone()),
        None => None,
    }
}

} // verus!
