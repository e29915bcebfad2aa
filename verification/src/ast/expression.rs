//! The values that arguments hold.

use crate::ast::Span;
use crate::seqs::Same;
use crate::text::concat;
use vstd::prelude::*;
use vstd::string::*;

verus! {

/// A value in a schema.
#[derive(Debug, PartialEq)]
pub enum Expression {
    /// Any numeric value, e.g. a floating point or an integer number.
    NumericValue(String, Span),
    /// Any boolean value.
    BooleanValue(String, Span),
    /// Any string value.
    StringValue(String, Span),
    /// A value of which nothing is known but its text.
    Any(String, Span),
    /// Any literal constant, basically a string which was not inside "...".
    ConstantValue(String, Span),
    /// A function with a name and arguments, which is evaluated at client side.
    Function(String, Vec<Expression>, Span),
    /// An array of other values.
    Array(Vec<Expression>, Span),
}

/// The text of a value in its canonical form. A string stands between
/// double quotes, the values of an array between square brackets, the
/// arguments of a function between round brackets behind its name; the
/// items of a list are parted by a comma and a blank. Every other value is
/// its own text.
pub open spec fn rendered(e: Expression) -> Seq<char>
    decreases e, 0int,
{
    match e {
        Expression::NumericValue(s, _) => s@,
        Expression::BooleanValue(s, _) => s@,
        Expression::StringValue(s, _) => "\""@ + s@ + "\""@,
        Expression::Any(s, _) => s@,
        Expression::ConstantValue(s, _) => s@,
        Expression::Function(name, args, _) => name@ + "("@ + rendered_list(
            args@,
            args@.len() as int,
        ) + ")"@,
        Expression::Array(vals, _) => "["@ + rendered_list(vals@, vals@.len() as int) + "]"@,
    }
}

/// The texts of the first `n` values of a list, parted by a comma and a blank.
pub open spec fn rendered_list(es: Seq<Expression>, n: int) -> Seq<char>
    decreases es, n,
{
    if n <= 0 || n > es.len() {
        Seq::empty()
    } else if n == 1 {
        rendered(es[0])
    } else {
        rendered_list(es, n - 1) + ", "@ + rendered(es[n - 1])
    }
}

impl DeepView for Expression {
    type V = Seq<char>;

    /// A value is taken for its canonical text: two values of the same text
    /// are the same value.
    open spec fn deep_view(&self) -> Seq<char> {
        rendered(*self)
    }
}

impl Expression {
    /// The text of the value in its canonical form.
    pub fn render_to_string(&self) -> (r: String)
        ensures
            r@ == rendered(*self),
        decreases self,
    {
        match self {
            Expression::NumericValue(s, _) => s.clone(),
            Expression::BooleanValue(s, _) => s.clone(),
            Expression::StringValue(s, _) => {
                let mut out: String = concat("\"", s.as_str());
                out.append("\"");
                out
            },
            Expression::Any(s, _) => s.clone(),
            Expression::ConstantValue(s, _) => s.clone(),
            Expression::Function(name, args, _) => {
                let mut out: String = concat(name.as_str(), "(");
                let inner: String = Expression::render_list(args);
                out.append(inner.as_str());
                out.append(")");
                out
            },
            Expression::Array(vals, _) => {
                let mut out: String = "[".to_owned();
                let inner: String = Expression::render_list(vals);
                out.append(inner.as_str());
                out.append("]");
                out
            },
        }
    }

    /// The texts of the values of a list, parted by a comma and a blank.
    pub fn render_list(es: &Vec<Expression>) -> (r: String)
        ensures
            r@ == rendered_list(es@, es@.len() as int),
        decreases es,
    {
        let mut out: String = String::new();
        let mut i: usize = 0;
        while i < es.len()
            invariant
                i <= es.len(),
                out@ == rendered_list(es@, i as int),
            decreases es.len() - i,
        {
            if i > 0 {
                out.append(", ");
            }
            let part: String = es[i].render_to_string();
            out.append(part.as_str());
            proof {
                if i == 0 {
                    assert(out@ =~= rendered(es@[0]));
                }
            }
            i = i + 1;
        }
        out
    }

    /// The place where the value was written.
    pub fn span(&self) -> (r: Span)
        ensures
            r == match *self {
                Expression::NumericValue(_, s) => s,
                Expression::BooleanValue(_, s) => s,
                Expression::StringValue(_, s) => s,
                Expression::Any(_, s) => s,
                Expression::ConstantValue(_, s) => s,
                Expression::Function(_, _, s) => s,
                Expression::Array(_, s) => s,
            },
    {
        match self {
            Expression::NumericValue(_, s) => *s,
            Expression::BooleanValue(_, s) => *s,
            Expression::StringValue(_, s) => *s,
            Expression::Any(_, s) => *s,
            Expression::ConstantValue(_, s) => *s,
            Expression::Function(_, _, s) => *s,
            Expression::Array(_, s) => *s,
        }
    }
}

impl Clone for Expression {
    fn clone(&self) -> (r: Self)
        ensures
            r.deep_view() == self.deep_view(),
        decreases self,
    {
        match self {
            Expression::NumericValue(s, sp) => {
                let r = Expression::NumericValue(s.clone(), *sp);
                assert(rendered(r) == s@ && rendered(*self) == s@);
                r
            },
            Expression::BooleanValue(s, sp) => {
                let r = Expression::BooleanValue(s.clone(), *sp);
                assert(rendered(r) == s@ && rendered(*self) == s@);
                r
            },
            Expression::StringValue(s, sp) => {
                let r = Expression::StringValue(s.clone(), *sp);
                assert(rendered(r) == "\""@ + s@ + "\""@ && rendered(*self) == rendered(r));
                r
            },
            Expression::Any(s, sp) => {
                let r = Expression::Any(s.clone(), *sp);
                assert(rendered(r) == s@ && rendered(*self) == s@);
                r
            },
            Expression::ConstantValue(s, sp) => {
                let r = Expression::ConstantValue(s.clone(), *sp);
                assert(rendered(r) == s@ && rendered(*self) == s@);
                r
            },
            Expression::Function(name, args, sp) => {
                let copies: Vec<Expression> = Expression::clone_list(args);
                let ghost inner = rendered_list(copies@, copies@.len() as int);
                assert(inner == rendered_list(args@, args@.len() as int));
                let r = Expression::Function(name.clone(), copies, *sp);
                assert(rendered(r) == name@ + "("@ + inner + ")"@);
                assert(rendered(*self) == name@ + "("@ + inner + ")"@);
                r
            },
            Expression::Array(vals, sp) => {
                let copies: Vec<Expression> = Expression::clone_list(vals);
                let ghost inner = rendered_list(copies@, copies@.len() as int);
                assert(inner == rendered_list(vals@, vals@.len() as int));
                let r = Expression::Array(copies, *sp);
                assert(rendered(r) == "["@ + inner + "]"@);
                assert(rendered(*self) == "["@ + inner + "]"@);
                r
            },
        }
    }
}

impl Expression {
    /// A copy of a list of values.
    pub fn clone_list(es: &Vec<Expression>) -> (r: Vec<Expression>)
        ensures
            r@.len() == es@.len(),
            forall|n: int| 0 <= n <= es@.len() ==> rendered_list(r@, n) == rendered_list(es@, n),
        decreases es,
    {
        let mut out: Vec<Expression> = Vec::new();
        let mut i: usize = 0;
        while i < es.len()
            invariant
                i <= es.len(),
                out@.len() == i,
                forall|k: int| 0 <= k < i ==> rendered(out@[k]) == rendered(es@[k]),
            decreases es.len() - i,
        {
            out.push(es[i].clone());
            i = i + 1;
        }
        proof {
            lemma_rendered_list_same(out@, es@, es@.len() as int);
        }
        out
    }
}

/// Lists of values of the same texts have the same text.
pub proof fn lemma_rendered_list_same(a: Seq<Expression>, b: Seq<Expression>, n: int)
    requires
        a.len() == b.len(),
        0 <= n <= a.len(),
        forall|k: int| 0 <= k < n ==> rendered(a[k]) == rendered(b[k]),
    ensures
        forall|m: int| 0 <= m <= n ==> rendered_list(a, m) == rendered_list(b, m),
    decreases n,
{
    if n > 0 {
        lemma_rendered_list_same(a, b, n - 1);
        assert(rendered(a[n - 1]) == rendered(b[n - 1]));
        assert(rendered_list(a, n - 1) == rendered_list(b, n - 1));
        if n == 1 {
            assert(rendered_list(a, 1) == rendered(a[0]));
            assert(rendered_list(b, 1) == rendered(b[0]));
        } else {
            assert(rendered_list(a, n) == rendered_list(a, n - 1) + ", "@ + rendered(a[n - 1]));
            assert(rendered_list(b, n) == rendered_list(b, n - 1) + ", "@ + rendered(b[n - 1]));
        }
        assert(rendered_list(a, n) == rendered_list(b, n));
    }
}

impl Same for Expression {
    fn same(&self, other: &Expression) -> (r: bool) {
        let a: String = self.render_to_string();
        let b: String = other.render_to_string();
        a == b
    }
}

} // verus!
