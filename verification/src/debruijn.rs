//! The conversions between the binder forms of a term, and what each of them
//! gives: names to indices, indices to names, and the changes of index form
//! that read no scope.
//!
//! What a conversion gives is a function of what the term holds, defined by
//! recursion over the term. A proof about one given term reveals these
//! functions, and `term_view` and `TermView::map` with them, with as much
//! fuel as the term is deep.

use crate::ast::{
    with_placeholder, DeBruijn, FakeNamedDeBruijn, FakeNamedDeBruijnView, Name, NameView,
    NamedDeBruijn, NamedDeBruijnView, Term, TermView, Unique, PLACEHOLDER_TEXT,
};
use crate::laws::{lemma_free_index_fails, lemma_free_variable_fails};
use crate::scope::{binder_at, index_of, uniques, Scope};
use vstd::prelude::*;
use vstd::string::StringExecFns;

verus! {

/// Why a conversion failed: a variable that no enclosing lambda binds.
#[derive(Debug, PartialEq)]
pub enum Error {
    /// A name whose unique id no open binder carries.
    FreeUnique(Name),
    /// An index that points at no open binder.
    FreeIndex(DeBruijn),
}

impl Clone for Error {
    fn clone(&self) -> (copy: Self)
        ensures
            copy == *self,
    {
        match self {
            Error::FreeUnique(name) => Error::FreeUnique(name.clone()),
            Error::FreeIndex(index) => Error::FreeIndex(*index),
        }
    }
}

/// What an `Error` holds.
pub enum ErrorView {
    FreeUnique(NameView),
    FreeIndex(nat),
}

impl View for Error {
    type V = ErrorView;

    open spec fn view(&self) -> ErrorView {
        match self {
            Error::FreeUnique(name) => ErrorView::FreeUnique(name@),
            Error::FreeIndex(index) => ErrorView::FreeIndex(index@),
        }
    }
}

/// What the outcome of a conversion holds.
pub open spec fn outcome<T: View, E: View>(result: Result<T, E>) -> Result<T::V, E::V> {
    match result {
        Ok(value) => Ok(value@),
        Err(error) => Err(error@),
    }
}

/// The term in named debruijn form, where every variable of `term` is bound
/// by an enclosing lambda or by `scope`; else the first variable, from the
/// left, that is not.
///
/// A variable keeps its text and gets its index; a parameter keeps its text
/// and gets index 0, which no variable has.
pub open spec fn to_named_debruijn(term: TermView<NameView>, scope: Seq<NameView>) -> Result<
    TermView<NamedDeBruijnView>,
    ErrorView,
>
    decreases term,
{
    match term {
        TermView::Var(name) => match index_of(scope, name.unique) {
            Some(index) => Ok(TermView::Var(NamedDeBruijnView { text: name.text, index })),
            None => Err(ErrorView::FreeUnique(name)),
        },
        TermView::Delay(term) => match to_named_debruijn(*term, scope) {
            Ok(term) => Ok(TermView::Delay(Box::new(term))),
            Err(error) => Err(error),
        },
        TermView::Lambda { parameter_name, body } => match to_named_debruijn(
            *body,
            scope.push(parameter_name),
        ) {
            Ok(body) => Ok(
                TermView::Lambda {
                    parameter_name: NamedDeBruijnView { text: parameter_name.text, index: 0 },
                    body: Box::new(body),
                },
            ),
            Err(error) => Err(error),
        },
        TermView::Apply { function, argument } => match to_named_debruijn(*function, scope) {
            Ok(function) => match to_named_debruijn(*argument, scope) {
                Ok(argument) => Ok(
                    TermView::Apply { function: Box::new(function), argument: Box::new(argument) },
                ),
                Err(error) => Err(error),
            },
            Err(error) => Err(error),
        },
        TermView::Constant(constant) => Ok(TermView::Constant(constant)),
        TermView::Force(term) => match to_named_debruijn(*term, scope) {
            Ok(term) => Ok(TermView::Force(Box::new(term))),
            Err(error) => Err(error),
        },
        TermView::Error => Ok(TermView::Error),
        TermView::Builtin(builtin) => Ok(TermView::Builtin(builtin)),
    }
}

/// The first variable of `term`, from the left, whose unique id is neither
/// in `bound` nor that of a lambda around it.
pub open spec fn first_free_variable(term: TermView<NameView>, bound: Set<int>) -> Option<NameView>
    decreases term,
{
    match term {
        TermView::Var(name) => if bound.contains(name.unique) {
            None
        } else {
            Some(name)
        },
        TermView::Delay(term) => first_free_variable(*term, bound),
        TermView::Lambda { parameter_name, body } => first_free_variable(
            *body,
            bound.insert(parameter_name.unique),
        ),
        TermView::Apply { function, argument } => match first_free_variable(*function, bound) {
            Some(name) => Some(name),
            None => first_free_variable(*argument, bound),
        },
        TermView::Force(term) => first_free_variable(*term, bound),
        _ => None,
    }
}

/// The term with the text of every binder dropped.
pub open spec fn without_names(term: TermView<NamedDeBruijnView>) -> TermView<nat> {
    term.map(|binder: NamedDeBruijnView| binder.index)
}

/// The term with the placeholder text on every binder.
pub open spec fn with_placeholders(term: TermView<nat>) -> TermView<NamedDeBruijnView> {
    term.map(|index: nat| with_placeholder(index))
}

/// The term with every binder wrapped as a fake named debruijn index.
pub open spec fn as_fake(term: TermView<NamedDeBruijnView>) -> TermView<FakeNamedDeBruijnView> {
    term.map(|binder: NamedDeBruijnView| FakeNamedDeBruijnView { named: binder })
}

/// The term with every binder unwrapped.
pub open spec fn as_named(term: TermView<FakeNamedDeBruijnView>) -> TermView<NamedDeBruijnView> {
    term.map(|binder: FakeNamedDeBruijnView| binder.named)
}

/// The term in debruijn form: `to_named_debruijn` without the names.
pub open spec fn to_debruijn(term: TermView<NameView>, scope: Seq<NameView>) -> Result<
    TermView<nat>,
    ErrorView,
> {
    match to_named_debruijn(term, scope) {
        Ok(term) => Ok(without_names(term)),
        Err(error) => Err(error),
    }
}

/// The unique id that is made after `unique`: the next number, and after the
/// largest one the smallest, so that all are made before one is made twice.
pub open spec fn successor(unique: int) -> int {
    if unique >= isize::MAX {
        isize::MIN as int
    } else {
        unique + 1
    }
}

/// The term in name form, and the unique id that the next binder would get.
///
/// The lambdas get their unique ids from `next` on, in the order in which
/// they are entered, and keep their text. A variable gets the name of the
/// binder that its index refers to. The conversion stops at the first
/// variable, from the left, whose index refers to no binder: to none of the
/// enclosing lambdas nor of `scope`.
pub open spec fn to_name(term: TermView<NamedDeBruijnView>, scope: Seq<NameView>, next: int) -> (
    Result<TermView<NameView>, ErrorView>,
    int,
)
    decreases term,
{
    match term {
        TermView::Var(binder) => match binder_at(scope, binder.index) {
            Some(name) => (Ok(TermView::Var(name)), next),
            None => (Err(ErrorView::FreeIndex(binder.index)), next),
        },
        TermView::Delay(term) => {
            let (term, next) = to_name(*term, scope, next);
            match term {
                Ok(term) => (Ok(TermView::Delay(Box::new(term))), next),
                Err(error) => (Err(error), next),
            }
        },
        TermView::Lambda { parameter_name, body } => {
            let name = NameView { text: parameter_name.text, unique: next };
            let (body, next) = to_name(*body, scope.push(name), successor(next));
            match body {
                Ok(body) => (
                    Ok(TermView::Lambda { parameter_name: name, body: Box::new(body) }),
                    next,
                ),
                Err(error) => (Err(error), next),
            }
        },
        TermView::Apply { function, argument } => {
            let (function, next) = to_name(*function, scope, next);
            match function {
                Ok(function) => {
                    let (argument, next) = to_name(*argument, scope, next);
                    match argument {
                        Ok(argument) => (
                            Ok(
                                TermView::Apply {
                                    function: Box::new(function),
                                    argument: Box::new(argument),
                                },
                            ),
                            next,
                        ),
                        Err(error) => (Err(error), next),
                    }
                },
                Err(error) => (Err(error), next),
            }
        },
        TermView::Constant(constant) => (Ok(TermView::Constant(constant)), next),
        TermView::Force(term) => {
            let (term, next) = to_name(*term, scope, next);
            match term {
                Ok(term) => (Ok(TermView::Force(Box::new(term))), next),
                Err(error) => (Err(error), next),
            }
        },
        TermView::Error => (Ok(TermView::Error), next),
        TermView::Builtin(builtin) => (Ok(TermView::Builtin(builtin)), next),
    }
}

/// The first index of a variable of `term`, from the left, that refers to
/// none of the lambdas around it nor of `depth` binders around the term.
pub open spec fn first_free_index(term: TermView<NamedDeBruijnView>, depth: nat) -> Option<nat>
    decreases term,
{
    match term {
        TermView::Var(binder) => if 1 <= binder.index <= depth {
            None
        } else {
            Some(binder.index)
        },
        TermView::Delay(term) => first_free_index(*term, depth),
        TermView::Lambda { parameter_name, body } => first_free_index(*body, depth + 1),
        TermView::Apply { function, argument } => match first_free_index(*function, depth) {
            Some(index) => Some(index),
            None => first_free_index(*argument, depth),
        },
        TermView::Force(term) => first_free_index(*term, depth),
        _ => None,
    }
}

/// The state of a conversion: the binders that are open at the place it has
/// reached, and the unique id that the next binder gets where names are made.
pub struct Converter {
    scope: Scope,
    next_unique: Unique,
}

impl Converter {
    /// The open binders, outermost first.
    pub closed spec fn scope(&self) -> Seq<NameView> {
        self.scope@
    }

    /// The unique id that the next binder gets where names are made.
    pub closed spec fn next_unique(&self) -> int {
        self.next_unique@
    }

    /// A converter with no open binder, which counts unique ids from 0.
    pub fn new() -> (converter: Self)
        ensures
            converter.scope() == Seq::<NameView>::empty(),
            converter.next_unique() == 0,
    {
        Converter { scope: Scope::new(), next_unique: Unique::new(0) }
    }

    /// A converter with no open binder, which counts unique ids from `first`:
    /// from where an interner has stopped, so that the names it makes are
    /// none of the interner's.
    pub fn counting_from(first: Unique) -> (converter: Self)
        ensures
            converter.scope() == Seq::<NameView>::empty(),
            converter.next_unique() == first@,
    {
        Converter { scope: Scope::new(), next_unique: first }
    }

    /// The unique id that the next binder gets where names are made: where an
    /// interner goes on after this converter.
    pub fn first_unused(&self) -> (unique: Unique)
        ensures
            unique@ == self.next_unique(),
    {
        self.next_unique
    }

    /// Close the innermost binder and hand it back.
    fn leave(&mut self) -> (name: Name)
        requires
            old(self).scope().len() > 0,
        ensures
            final(self).scope() == old(self).scope().drop_last(),
            final(self).next_unique() == old(self).next_unique(),
            name@ == old(self).scope().last(),
    {
        self.scope.leave().unwrap()
    }

    /// Open a binder with this text under the next unique id.
    fn declare_binder(&mut self, text: String)
        ensures
            final(self).scope() == old(self).scope().push(
                NameView { text: text@, unique: old(self).next_unique() },
            ),
            final(self).next_unique() == successor(old(self).next_unique()),
    {
        let unique = self.next_unique;
        if isize::from(unique) < isize::MAX {
            self.next_unique.increment();
        } else {
            self.next_unique = Unique::new(isize::MIN);
        }
        self.scope.enter(Name { text, unique });
    }

    /// Convert a term from names to named debruijn indices.
    ///
    /// Fails on the first variable that neither a lambda of `term` nor an
    /// open binder of this converter binds. The converter is left as it was.
    pub fn name_to_named_debruijn(&mut self, term: Term<Name>) -> (result: Result<
        Term<NamedDeBruijn>,
        Error,
    >)
        ensures
            outcome(result) == to_named_debruijn(term@, old(self).scope()),
            result is Ok <==> first_free_variable(term@, uniques(old(self).scope())) is None,
            result matches Err(error) ==> first_free_variable(
                term@,
                uniques(old(self).scope()),
            ) matches Some(name) && error@ == ErrorView::FreeUnique(name),
            final(self).scope() == old(self).scope(),
            final(self).next_unique() == old(self).next_unique(),
        decreases term,
    {
        proof {
            lemma_free_variable_fails(term@, self.scope());
        }
        match term {
            Term::Var(name) => match self.scope.index_of(name.unique) {
                Some(index) => Ok(Term::Var(NamedDeBruijn { text: name.text, index })),
                None => Err(Error::FreeUnique(name)),
            },
            Term::Delay(term) => match self.name_to_named_debruijn(*term) {
                Ok(term) => Ok(Term::Delay(Box::new(term))),
                Err(error) => Err(error),
            },
            Term::Lambda { parameter_name, body } => {
                self.scope.enter(parameter_name);
                let body = self.name_to_named_debruijn(*body);
                let parameter_name = self.leave();
                match body {
                    Ok(body) => Ok(
                        Term::Lambda {
                            parameter_name: NamedDeBruijn {
                                text: parameter_name.text,
                                index: DeBruijn::new(0),
                            },
                            body: Box::new(body),
                        },
                    ),
                    Err(error) => Err(error),
                }
            },
            Term::Apply { function, argument } => match self.name_to_named_debruijn(*function) {
                Ok(function) => match self.name_to_named_debruijn(*argument) {
                    Ok(argument) => Ok(
                        Term::Apply { function: Box::new(function), argument: Box::new(argument) },
                    ),
                    Err(error) => Err(error),
                },
                Err(error) => Err(error),
            },
            Term::Constant(constant) => Ok(Term::Constant(constant)),
            Term::Force(term) => match self.name_to_named_debruijn(*term) {
                Ok(term) => Ok(Term::Force(Box::new(term))),
                Err(error) => Err(error),
            },
            Term::Error => Ok(Term::Error),
            Term::Builtin(builtin) => Ok(Term::Builtin(builtin)),
        }
    }

    /// Convert a term from names to debruijn indices.
    ///
    /// Fails on the first variable that neither a lambda of `term` nor an
    /// open binder of this converter binds. The converter is left as it was.
    pub fn name_to_debruijn(&mut self, term: Term<Name>) -> (result: Result<Term<DeBruijn>, Error>)
        ensures
            outcome(result) == to_debruijn(term@, old(self).scope()),
            result is Ok <==> first_free_variable(term@, uniques(old(self).scope())) is None,
            result matches Err(error) ==> first_free_variable(
                term@,
                uniques(old(self).scope()),
            ) matches Some(name) && error@ == ErrorView::FreeUnique(name),
            final(self).scope() == old(self).scope(),
            final(self).next_unique() == old(self).next_unique(),
        decreases term,
    {
        proof {
            lemma_free_variable_fails(term@, self.scope());
        }
        match term {
            Term::Var(name) => match self.scope.index_of(name.unique) {
                Some(index) => Ok(Term::Var(index)),
                None => Err(Error::FreeUnique(name)),
            },
            Term::Delay(term) => match self.name_to_debruijn(*term) {
                Ok(term) => Ok(Term::Delay(Box::new(term))),
                Err(error) => Err(error),
            },
            Term::Lambda { parameter_name, body } => {
                self.scope.enter(parameter_name);
                let body = self.name_to_debruijn(*body);
                self.leave();
                match body {
                    Ok(body) => Ok(
                        Term::Lambda { parameter_name: DeBruijn::new(0), body: Box::new(body) },
                    ),
                    Err(error) => Err(error),
                }
            },
            Term::Apply { function, argument } => match self.name_to_debruijn(*function) {
                Ok(function) => match self.name_to_debruijn(*argument) {
                    Ok(argument) => Ok(
                        Term::Apply { function: Box::new(function), argument: Box::new(argument) },
                    ),
                    Err(error) => Err(error),
                },
                Err(error) => Err(error),
            },
            Term::Constant(constant) => Ok(Term::Constant(constant)),
            Term::Force(term) => match self.name_to_debruijn(*term) {
                Ok(term) => Ok(Term::Force(Box::new(term))),
                Err(error) => Err(error),
            },
            Term::Error => Ok(Term::Error),
            Term::Builtin(builtin) => Ok(Term::Builtin(builtin)),
        }
    }

    /// Convert a term from named debruijn indices to names.
    ///
    /// Every lambda gets a unique id of its own, and every variable the name
    /// of the lambda that binds it. Fails on the first variable whose index
    /// refers to no binder. The open binders are left as they were.
    pub fn named_debruijn_to_name(&mut self, term: Term<NamedDeBruijn>) -> (result: Result<
        Term<Name>,
        Error,
    >)
        ensures
            outcome(result) == to_name(term@, old(self).scope(), old(self).next_unique()).0,
            result is Ok <==> first_free_index(term@, old(self).scope().len()) is None,
            result matches Err(error) ==> first_free_index(
                term@,
                old(self).scope().len(),
            ) matches Some(index) && error@ == ErrorView::FreeIndex(index),
            final(self).scope() == old(self).scope(),
            final(self).next_unique() == to_name(
                term@,
                old(self).scope(),
                old(self).next_unique(),
            ).1,
        decreases term,
    {
        proof {
            lemma_free_index_fails(term@, self.scope(), self.next_unique());
        }
        match term {
            Term::Var(binder) => match self.scope.binder_at(binder.index) {
                Some(name) => Ok(Term::Var(name)),
                None => Err(Error::FreeIndex(binder.index)),
            },
            Term::Delay(term) => match self.named_debruijn_to_name(*term) {
                Ok(term) => Ok(Term::Delay(Box::new(term))),
                Err(error) => Err(error),
            },
            Term::Lambda { parameter_name, body } => {
                self.declare_binder(parameter_name.text);
                let body = self.named_debruijn_to_name(*body);
                let parameter_name = self.leave();
                match body {
                    Ok(body) => Ok(Term::Lambda { parameter_name, body: Box::new(body) }),
                    Err(error) => Err(error),
                }
            },
            Term::Apply { function, argument } => match self.named_debruijn_to_name(*function) {
                Ok(function) => match self.named_debruijn_to_name(*argument) {
                    Ok(argument) => Ok(
                        Term::Apply { function: Box::new(function), argument: Box::new(argument) },
                    ),
                    Err(error) => Err(error),
                },
                Err(error) => Err(error),
            },
            Term::Constant(constant) => Ok(Term::Constant(constant)),
            Term::Force(term) => match self.named_debruijn_to_name(*term) {
                Ok(term) => Ok(Term::Force(Box::new(term))),
                Err(error) => Err(error),
            },
            Term::Error => Ok(Term::Error),
            Term::Builtin(builtin) => Ok(Term::Builtin(builtin)),
        }
    }

    /// Convert a term from debruijn indices to names.
    ///
    /// As `named_debruijn_to_name`, with the placeholder text for every
    /// lambda.
    pub fn debruijn_to_name(&mut self, term: Term<DeBruijn>) -> (result: Result<Term<Name>, Error>)
        ensures
            outcome(result) == to_name(
                with_placeholders(term@),
                old(self).scope(),
                old(self).next_unique(),
            ).0,
            result is Ok <==> first_free_index(
                with_placeholders(term@),
                old(self).scope().len(),
            ) is None,
            result matches Err(error) ==> first_free_index(
                with_placeholders(term@),
                old(self).scope().len(),
            ) matches Some(index) && error@ == ErrorView::FreeIndex(index),
            final(self).scope() == old(self).scope(),
            final(self).next_unique() == to_name(
                with_placeholders(term@),
                old(self).scope(),
                old(self).next_unique(),
            ).1,
        decreases term,
    {
        proof {
            lemma_free_index_fails(with_placeholders(term@), self.scope(), self.next_unique());
        }
        match term {
            Term::Var(index) => match self.scope.binder_at(index) {
                Some(name) => Ok(Term::Var(name)),
                None => Err(Error::FreeIndex(index)),
            },
            Term::Delay(term) => match self.debruijn_to_name(*term) {
                Ok(term) => Ok(Term::Delay(Box::new(term))),
                Err(error) => Err(error),
            },
            Term::Lambda { parameter_name: _, body } => {
                self.declare_binder(String::from_str(PLACEHOLDER_TEXT));
                let body = self.debruijn_to_name(*body);
                let parameter_name = self.leave();
                match body {
                    Ok(body) => Ok(Term::Lambda { parameter_name, body: Box::new(body) }),
                    Err(error) => Err(error),
                }
            },
            Term::Apply { function, argument } => match self.debruijn_to_name(*function) {
                Ok(function) => match self.debruijn_to_name(*argument) {
                    Ok(argument) => Ok(
                        Term::Apply { function: Box::new(function), argument: Box::new(argument) },
                    ),
                    Err(error) => Err(error),
                },
                Err(error) => Err(error),
            },
            Term::Constant(constant) => Ok(Term::Constant(constant)),
            Term::Force(term) => match self.debruijn_to_name(*term) {
                Ok(term) => Ok(Term::Force(Box::new(term))),
                Err(error) => Err(error),
            },
            Term::Error => Ok(Term::Error),
            Term::Builtin(builtin) => Ok(Term::Builtin(builtin)),
        }
    }

    /// Convert a term from named debruijn indices to debruijn indices: the
    /// same tree without the names.
    pub fn named_debruijn_to_debruijn(&mut self, term: Term<NamedDeBruijn>) -> (result: Term<
        DeBruijn,
    >)
        ensures
            result@ == without_names(term@),
            final(self).scope() == old(self).scope(),
            final(self).next_unique() == old(self).next_unique(),
        decreases term,
    {
        match term {
            Term::Var(binder) => Term::Var(binder.into()),
            Term::Delay(term) => Term::Delay(Box::new(self.named_debruijn_to_debruijn(*term))),
            Term::Lambda { parameter_name, body } => Term::Lambda {
                parameter_name: parameter_name.into(),
                body: Box::new(self.named_debruijn_to_debruijn(*body)),
            },
            Term::Apply { function, argument } => Term::Apply {
                function: Box::new(self.named_debruijn_to_debruijn(*function)),
                argument: Box::new(self.named_debruijn_to_debruijn(*argument)),
            },
            Term::Constant(constant) => Term::Constant(constant),
            Term::Force(term) => Term::Force(Box::new(self.named_debruijn_to_debruijn(*term))),
            Term::Error => Term::Error,
            Term::Builtin(builtin) => Term::Builtin(builtin),
        }
    }

    /// Convert a term from debruijn indices to named debruijn indices: the
    /// same tree with the placeholder text on every binder.
    pub fn debruijn_to_named_debruijn(&mut self, term: Term<DeBruijn>) -> (result: Term<
        NamedDeBruijn,
    >)
        ensures
            result@ == with_placeholders(term@),
            final(self).scope() == old(self).scope(),
            final(self).next_unique() == old(self).next_unique(),
        decreases term,
    {
        match term {
            Term::Var(index) => Term::Var(index.into()),
            Term::Delay(term) => Term::Delay(Box::new(self.debruijn_to_named_debruijn(*term))),
            Term::Lambda { parameter_name, body } => Term::Lambda {
                parameter_name: parameter_name.into(),
                body: Box::new(self.debruijn_to_named_debruijn(*body)),
            },
            Term::Apply { function, argument } => Term::Apply {
                function: Box::new(self.debruijn_to_named_debruijn(*function)),
                argument: Box::new(self.debruijn_to_named_debruijn(*argument)),
            },
            Term::Constant(constant) => Term::Constant(constant),
            Term::Force(term) => Term::Force(Box::new(self.debruijn_to_named_debruijn(*term))),
            Term::Error => Term::Error,
            Term::Builtin(builtin) => Term::Builtin(builtin),
        }
    }

    /// Convert a term from named debruijn indices to fake named debruijn
    /// indices: the same tree with every binder wrapped.
    pub fn named_debruijn_to_fake_named_debruijn(
        &mut self,
        term: Term<NamedDeBruijn>,
    ) -> (result: Term<FakeNamedDeBruijn>)
        ensures
            result@ == as_fake(term@),
            final(self).scope() == old(self).scope(),
            final(self).next_unique() == old(self).next_unique(),
        decreases term,
    {
        match term {
            Term::Var(binder) => Term::Var(binder.into()),
            Term::Delay(term) => Term::Delay(
                Box::new(self.named_debruijn_to_fake_named_debruijn(*term)),
            ),
            Term::Lambda { parameter_name, body } => Term::Lambda {
                parameter_name: parameter_name.into(),
                body: Box::new(self.named_debruijn_to_fake_named_debruijn(*body)),
            },
            Term::Apply { function, argument } => Term::Apply {
                function: Box::new(self.named_debruijn_to_fake_named_debruijn(*function)),
                argument: Box::new(self.named_debruijn_to_fake_named_debruijn(*argument)),
            },
            Term::Constant(constant) => Term::Constant(constant),
            Term::Force(term) => Term::Force(
                Box::new(self.named_debruijn_to_fake_named_debruijn(*term)),
            ),
            Term::Error => Term::Error,
            Term::Builtin(builtin) => Term::Builtin(builtin),
        }
    }

    /// Convert a term from fake named debruijn indices to named debruijn
    /// indices: the same tree with every binder unwrapped.
    pub fn fake_named_debruijn_to_named_debruijn(
        &mut self,
        term: Term<FakeNamedDeBruijn>,
    ) -> (result: Term<NamedDeBruijn>)
        ensures
            result@ == as_named(term@),
            final(self).scope() == old(self).scope(),
            final(self).next_unique() == old(self).next_unique(),
        decreases term,
    {
        match term {
            Term::Var(binder) => Term::Var(binder.into()),
            Term::Delay(term) => Term::Delay(
                Box::new(self.fake_named_debruijn_to_named_debruijn(*term)),
            ),
            Term::Lambda { parameter_name, body } => Term::Lambda {
                parameter_name: parameter_name.into(),
                body: Box::new(self.fake_named_debruijn_to_named_debruijn(*body)),
            },
            Term::Apply { function, argument } => Term::Apply {
                function: Box::new(self.fake_named_debruijn_to_named_debruijn(*function)),
                argument: Box::new(self.fake_named_debruijn_to_named_debruijn(*argument)),
            },
            Term::Constant(constant) => Term::Constant(constant),
            Term::Force(term) => Term::Force(
                Box::new(self.fake_named_debruijn_to_named_debruijn(*term)),
            ),
            Term::Error => Term::Error,
            Term::Builtin(builtin) => Term::Builtin(builtin),
        }
    }
}

} // verus!
