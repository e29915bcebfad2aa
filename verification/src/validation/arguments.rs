//! The arguments of an attribute or the properties of a configuration
//! block, with a record of which of them were asked for.

use crate::ast::{Argument, ArgumentView, Span};
use crate::ast::names::{argument_name, lookup, with_key};
use crate::seqs::{
    lemma_filter_map_step, lemma_of_nothing, lemma_position_is, lemma_position_none,
    lemma_take_ends, position,
};
use crate::text::{concat, join, join_text, names_contain};
use crate::validation::diagnostics::{
    DatamodelError, DatamodelErrorView, Diagnostics, DiagnosticsView,
};
use crate::validation::value_validator::ValueValidator;
use vstd::prelude::*;
use vstd::string::*;

verus! {

/// Represents a list of arguments.
#[derive(Debug)]
pub struct Arguments<'a> {
    /// The arguments.
    pub arguments: &'a Vec<Argument>,
    /// The names that were asked for and found, each once.
    pub used_arguments: Vec<String>,
    /// The place of all the arguments.
    pub span: Span,
}

/// The names with `name` among them.
pub open spec fn with_name(used: Seq<Seq<char>>, name: Seq<char>) -> Seq<Seq<char>> {
    if used.contains(name) {
        used
    } else {
        used.push(name)
    }
}

/// The names used after an argument was asked for by `name`: the name is
/// used from then on where an argument bears it.
pub open spec fn used_after(
    arguments: Seq<ArgumentView>,
    used: Seq<Seq<char>>,
    name: Seq<char>,
) -> Seq<Seq<char>> {
    if lookup(arguments, argument_name(), name) is Some {
        with_name(used, name)
    } else {
        used
    }
}

/// The error for an argument that was asked for and is not there.
pub open spec fn not_found(name: Seq<char>, span: Span) -> DatamodelErrorView {
    DatamodelErrorView::ArgumentNotFound { argument_name: name, span }
}

/// The arguments whose name is not among the names used.
pub open spec fn is_unused(used: Seq<Seq<char>>) -> spec_fn(ArgumentView) -> bool {
    |a: ArgumentView| !used.contains(a.name.name)
}

/// The error for an argument that nothing asked for.
pub open spec fn unused_error() -> spec_fn(ArgumentView) -> DatamodelErrorView {
    |a: ArgumentView| DatamodelErrorView::UnusedArgumentError { arg_name: a.name.name, span: a.span }
}

/// Whether the argument at `i` bears a name that an argument before it bears.
pub open spec fn repeats_name(arguments: Seq<ArgumentView>, i: int) -> bool {
    arguments[i].name.name.len() > 0 && exists|j: int|
        0 <= j < i && #[trigger] arguments[j].name.name == arguments[i].name.name
}

/// The errors for the arguments among the first `k` that bear a name which
/// an argument before them bears. Arguments without a name bear none.
pub open spec fn duplicate_errors(arguments: Seq<ArgumentView>, k: int) -> Seq<DatamodelErrorView>
    decreases k,
{
    if k <= 0 {
        Seq::empty()
    } else {
        let before = duplicate_errors(arguments, k - 1);
        if repeats_name(arguments, k - 1) {
            before.push(
                DatamodelErrorView::DuplicateArgumentError {
                    arg_name: arguments[k - 1].name.name,
                    span: arguments[k - 1].span,
                },
            )
        } else {
            before
        }
    }
}

/// The arguments without a name.
pub open spec fn unnamed() -> spec_fn(ArgumentView) -> bool {
    |a: ArgumentView| a.name.name.len() == 0
}

/// The canonical text of the value of an argument.
pub open spec fn value_text() -> spec_fn(ArgumentView) -> Seq<char> {
    |a: ArgumentView| a.value
}

/// The error for an attribute with more than one argument without a name.
pub open spec fn multiple_unnamed(
    values: Seq<Seq<char>>,
    attribute_name: Seq<char>,
    span: Span,
) -> DatamodelErrorView {
    DatamodelErrorView::AttributeValidationError {
        message: "You provided multiple unnamed arguments. This is not possible. Did you forget the brackets? Did you mean `["@
            + join_text(values, ", "@) + "]`?"@,
        attribute_name,
        span,
    }
}

/// What a check returns: success where it found no error, the errors it
/// found otherwise.
pub open spec fn checked(r: Result<(), Diagnostics>, errors: Seq<DatamodelErrorView>) -> bool {
    match r {
        Ok(_) => errors.len() == 0,
        Err(d) => errors.len() > 0 && d.deep_view() == (DiagnosticsView {
            errors,
            warnings: Seq::empty(),
        }),
    }
}

impl ArgumentView {
    pub open spec fn is_unnamed(self) -> bool {
        self.name.name.len() == 0
    }
}

impl Argument {
    /// Whether the argument was written without a name.
    pub fn is_unnamed(&self) -> (r: bool)
        ensures
            r == self.deep_view().is_unnamed(),
    {
        self.name.name.as_str().unicode_len() == 0
    }
}

impl<'a> Arguments<'a> {
    /// Creates a new instance, given a list of arguments.
    pub fn new(arguments: &'a Vec<Argument>, span: Span) -> (r: Arguments<'a>)
        ensures
            r.arguments == arguments,
            r.used_arguments.deep_view() == Seq::<Seq<char>>::empty(),
            r.span == span,
    {
        let r = Arguments { arguments, used_arguments: Vec::new(), span };
        assert(r.used_arguments.deep_view() =~= Seq::<Seq<char>>::empty());
        r
    }

    /// Checks if arguments occur twice and returns an appropriate error list.
    #[verifier::loop_isolation(false)]
    pub fn check_for_duplicate_named_arguments(&self) -> (r: Result<(), Diagnostics>)
        ensures
            checked(
                r,
                duplicate_errors(
                    self.arguments.deep_view(),
                    self.arguments.deep_view().len() as int,
                ),
            ),
    {
        let ghost args = self.arguments.deep_view();
        let mut arg_names: Vec<String> = Vec::new();
        let mut errors: Diagnostics = Diagnostics::new();
        let mut i: usize = 0;
        while i < self.arguments.len()
            invariant
                i <= self.arguments.len(),
                errors.deep_view() == (DiagnosticsView {
                    errors: duplicate_errors(args, i as int),
                    warnings: Seq::empty(),
                }),
                forall|n: Seq<char>|
                    arg_names.deep_view().contains(n) <==> (n.len() > 0 && exists|j: int|
                        0 <= j < i && #[trigger] args[j].name.name == n),
            decreases self.arguments.len() - i,
        {
            let arg: &Argument = &self.arguments[i];
            assert(args[i as int] == arg.deep_view());
            let ghost before = arg_names.deep_view();
            if names_contain(&arg_names, arg.name.name.as_str()) {
                errors.push_error(
                    DatamodelError::DuplicateArgumentError {
                        arg_name: arg.name.name.clone(),
                        span: arg.span,
                    },
                );
            }
            if !arg.is_unnamed() {
                arg_names.push(arg.name.name.clone());
                assert(arg_names.deep_view() =~= before.push(arg.name.name@));
                assert forall|n: Seq<char>|
                    arg_names.deep_view().contains(n) <==> (n.len() > 0 && exists|j: int|
                        0 <= j < i + 1 && #[trigger] args[j].name.name == n) by {
                    if arg_names.deep_view().contains(n) {
                        let x = choose|x: int|
                            0 <= x < arg_names.deep_view().len() && arg_names.deep_view()[x] == n;
                        if x < before.len() {
                            assert(before.contains(n));
                        } else {
                            assert(args[i as int].name.name == n);
                        }
                    }
                    if n.len() > 0 && exists|j: int|
                        0 <= j < i + 1 && #[trigger] args[j].name.name == n {
                        let j = choose|j: int| 0 <= j < i + 1 && #[trigger] args[j].name.name == n;
                        if j < i {
                            assert(before.contains(n));
                            let x = choose|x: int| 0 <= x < before.len() && before[x] == n;
                            assert(arg_names.deep_view()[x] == n);
                        } else {
                            assert(arg_names.deep_view()[before.len() as int] == n);
                        }
                    }
                }
            } else {
                assert forall|n: Seq<char>|
                    arg_names.deep_view().contains(n) <==> (n.len() > 0 && exists|j: int|
                        0 <= j < i + 1 && #[trigger] args[j].name.name == n) by {
                    if n.len() > 0 && exists|j: int|
                        0 <= j < i + 1 && #[trigger] args[j].name.name == n {
                        let j = choose|j: int| 0 <= j < i + 1 && #[trigger] args[j].name.name == n;
                        assert(j < i);
                    }
                }
            }
            i = i + 1;
        }
        errors.to_result()
    }

    /// Checks that at most one argument was written without a name.
    #[verifier::loop_isolation(false)]
    pub fn check_for_multiple_unnamed_arguments(&self, attribute_name: &str) -> (r: Result<
        (),
        Diagnostics,
    >)
        ensures
            match r {
                Ok(_) => self.arguments.deep_view().filter(unnamed()).len() <= 1,
                Err(d) => self.arguments.deep_view().filter(unnamed()).len() > 1 && d.deep_view()
                    == (DiagnosticsView {
                    errors: seq![
                        multiple_unnamed(
                            self.arguments.deep_view().filter(unnamed()).map_values(value_text()),
                            attribute_name@,
                            self.span,
                        ),
                    ],
                    warnings: Seq::empty(),
                }),
            },
    {
        let ghost args = self.arguments.deep_view();
        let mut unnamed_values: Vec<String> = Vec::new();
        let mut i: usize = 0;
        proof {
            lemma_take_ends(args);
            lemma_of_nothing(unnamed(), value_text(), |a: ArgumentView| Seq::<int>::empty());
        }
        while i < self.arguments.len()
            invariant
                i <= self.arguments.len(),
                unnamed_values.deep_view() == args.take(i as int).filter(unnamed()).map_values(
                    value_text(),
                ),
            decreases self.arguments.len() - i,
        {
            let ghost before = unnamed_values.deep_view();
            proof {
                lemma_filter_map_step(args, unnamed(), value_text(), i as int);
            }
            let arg: &Argument = &self.arguments[i];
            assert(args[i as int] == arg.deep_view());
            if arg.is_unnamed() {
                let text: String = arg.value.render_to_string();
                let ghost tv = text@;
                unnamed_values.push(text);
                assert(unnamed_values.deep_view() =~= before.push(tv));
            }
            i = i + 1;
        }
        if unnamed_values.len() > 1 {
            let values: String = join(&unnamed_values, ", ");
            let mut message: String = concat(
                "You provided multiple unnamed arguments. This is not possible. Did you forget the brackets? Did you mean `[",
                values.as_str(),
            );
            message.append("]`?");
            let mut errors: Diagnostics = Diagnostics::new();
            errors.push_error(
                DatamodelError::AttributeValidationError {
                    message,
                    attribute_name: attribute_name.to_owned(),
                    span: self.span,
                },
            );
            assert(errors.deep_view().errors =~= seq![
                multiple_unnamed(
                    args.filter(unnamed()).map_values(value_text()),
                    attribute_name@,
                    self.span,
                ),
            ]);
            Err(errors)
        } else {
            Ok(())
        }
    }

    /// Checks if arguments were not accessed and raises the appropriate errors.
    #[verifier::loop_isolation(false)]
    pub fn check_for_unused_arguments(&self) -> (r: Result<(), Diagnostics>)
        ensures
            checked(
                r,
                self.arguments.deep_view().filter(
                    is_unused(self.used_arguments.deep_view()),
                ).map_values(unused_error()),
            ),
    {
        let ghost args = self.arguments.deep_view();
        let ghost p = is_unused(self.used_arguments.deep_view());
        let mut errors: Diagnostics = Diagnostics::new();
        let mut i: usize = 0;
        proof {
            lemma_take_ends(args);
            lemma_of_nothing(p, unused_error(), |a: ArgumentView| Seq::<int>::empty());
        }
        while i < self.arguments.len()
            invariant
                i <= self.arguments.len(),
                errors.deep_view() == (DiagnosticsView {
                    errors: args.take(i as int).filter(p).map_values(unused_error()),
                    warnings: Seq::empty(),
                }),
            decreases self.arguments.len() - i,
        {
            proof {
                lemma_filter_map_step(args, p, unused_error(), i as int);
            }
            let arg: &Argument = &self.arguments[i];
            assert(args[i as int] == arg.deep_view());
            if !names_contain(&self.used_arguments, arg.name.name.as_str()) {
                errors.push_error(
                    DatamodelError::UnusedArgumentError {
                        arg_name: arg.name.name.clone(),
                        span: arg.span,
                    },
                );
            }
            i = i + 1;
        }
        errors.to_result()
    }

    /// Gets the span of all arguments wrapped by this instance.
    pub fn span(&self) -> (r: Span)
        ensures
            r == self.span,
    {
        self.span
    }

    /// Gets the arg with the given name.
    pub fn arg(&mut self, name: &str) -> (r: Result<ValueValidator<'a>, DatamodelError>)
        ensures
            final(self).arguments == old(self).arguments,
            final(self).span == old(self).span,
            final(self).used_arguments.deep_view() == used_after(
                old(self).arguments.deep_view(),
                old(self).used_arguments.deep_view(),
                name@,
            ),
            match r {
                Ok(v) => first_named(*old(self).arguments, name@) matches Some(i) && *v.value
                    == old(self).arguments[i].value,
                Err(e) => first_named(*old(self).arguments, name@) is None && e.deep_view()
                    == not_found(name@, old(self).span),
            },
    {
        match self.arg_internal(name) {
            None => Err(
                DatamodelError::ArgumentNotFound { argument_name: name.to_owned(), span: self.span },
            ),
            Some(arg) => Ok(ValueValidator::new(&arg.value)),
        }
    }

    /// Gets the arg with the given name, if there is one.
    pub fn optional_arg(&mut self, name: &str) -> (r: Option<ValueValidator<'a>>)
        ensures
            final(self).arguments == old(self).arguments,
            final(self).span == old(self).span,
            final(self).used_arguments.deep_view() == used_after(
                old(self).arguments.deep_view(),
                old(self).used_arguments.deep_view(),
                name@,
            ),
            match r {
                Some(v) => first_named(*old(self).arguments, name@) matches Some(i) && *v.value
                    == old(self).arguments[i].value,
                None => first_named(*old(self).arguments, name@) is None,
            },
    {
        match self.arg_internal(name) {
            None => None,
            Some(arg) => Some(ValueValidator::new(&arg.value)),
        }
    }

    /// Gets the first argument of the given name, and records that the
    /// name was asked for and found.
    #[verifier::loop_isolation(false)]
    pub fn arg_internal(&mut self, name: &str) -> (r: Option<&'a Argument>)
        ensures
            final(self).arguments == old(self).arguments,
            final(self).span == old(self).span,
            final(self).used_arguments.deep_view() == used_after(
                old(self).arguments.deep_view(),
                old(self).used_arguments.deep_view(),
                name@,
            ),
            match r {
                Some(a) => first_named(*old(self).arguments, name@) matches Some(i) && *a == old(
                    self,
                ).arguments[i],
                None => first_named(*old(self).arguments, name@) is None,
            },
    {
        let arguments: &'a Vec<Argument> = self.arguments;
        let ghost args = arguments.deep_view();
        let ghost p = with_key(argument_name(), name@);
        let mut i: usize = 0;
        while i < arguments.len()
            invariant
                i <= arguments.len(),
                self.arguments == old(self).arguments,
                self.span == old(self).span,
                self.used_arguments == old(self).used_arguments,
                forall|j: int| 0 <= j < i ==> !p(#[trigger] args[j]),
            decreases arguments.len() - i,
        {
            let arg: &'a Argument = &arguments[i];
            assert(args[i as int] == arg.deep_view());
            if crate::text::str_eq(arg.name.name.as_str(), name) {
                proof {
                    lemma_position_is(args, p, i as int);
                }
                if !names_contain(&self.used_arguments, name) {
                    let ghost before = self.used_arguments.deep_view();
                    self.used_arguments.push(name.to_owned());
                    assert(self.used_arguments.deep_view() =~= before.push(name@));
                }
                return Some(arg);
            }
            i = i + 1;
        }
        proof {
            lemma_position_none(args, p);
        }
        None
    }

    /// Gets the arg with the given name, or if it is not found, the first
    /// unnamed argument. Where both are there, it is not clear which is
    /// meant.
    pub fn default_arg(&mut self, name: &str) -> (r: Result<ValueValidator<'a>, DatamodelError>)
        ensures
            final(self).arguments == old(self).arguments,
            final(self).span == old(self).span,
            final(self).used_arguments.deep_view() == used_after(
                old(self).arguments.deep_view(),
                used_after(
                    old(self).arguments.deep_view(),
                    old(self).used_arguments.deep_view(),
                    name@,
                ),
                Seq::empty(),
            ),
            match (
                first_named(*old(self).arguments, name@),
                first_named(*old(self).arguments, Seq::empty()),
            ) {
                (Some(i), None) => r matches Ok(v) && *v.value == old(self).arguments[i].value,
                (None, Some(i)) => r matches Ok(v) && *v.value == old(self).arguments[i].value,
                (Some(i), Some(_)) => r matches Err(e) && e.deep_view()
                    == DatamodelErrorView::DuplicateDefaultArgumentError {
                    arg_name: name@,
                    span: old(self).arguments[i].span,
                },
                (None, None) => r matches Err(e) && e.deep_view() == not_found(
                    name@,
                    old(self).span,
                ),
            },
    {
        let named: Option<&'a Argument> = self.arg_internal(name);
        let ghost empty = ""@;
        proof {
            reveal_strlit("");
            assert(empty =~= Seq::<char>::empty());
        }
        let nameless: Option<&'a Argument> = self.arg_internal("");
        match (named, nameless) {
            (Some(arg), None) => Ok(ValueValidator::new(&arg.value)),
            (None, Some(arg)) => Ok(ValueValidator::new(&arg.value)),
            (Some(arg), Some(_)) => Err(
                DatamodelError::DuplicateDefaultArgumentError {
                    arg_name: name.to_owned(),
                    span: arg.span,
                },
            ),
            (None, None) => Err(
                DatamodelError::ArgumentNotFound { argument_name: name.to_owned(), span: self.span },
            ),
        }
    }
}

/// The position of the first argument of the given name.
pub open spec fn first_named(arguments: Vec<Argument>, name: Seq<char>) -> Option<int> {
    position(arguments.deep_view(), with_key(argument_name(), name))
}

} // verus!
