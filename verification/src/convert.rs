//! The conversions of whole terms and programs, as `From` and `TryFrom`: each
//! runs a new `Converter`, which has no open binder and counts from 0.

use crate::ast::{
    DeBruijn, FakeNamedDeBruijn, Name, NameView, NamedDeBruijn, Program, ProgramView, Term,
    TermView,
};
use crate::debruijn::{
    as_fake, as_named, first_free_index, first_free_variable, outcome, to_debruijn, to_name,
    to_named_debruijn, with_placeholders, without_names, Converter, Error, ErrorView,
};
use crate::scope::uniques;
use vstd::prelude::*;
use vstd::std_specs::convert::{FromSpecImpl, TryFromSpecImpl};

verus! {

/// The outcome of converting a program: that of converting its term, under
/// the version of the program.
pub open spec fn under_version<B>(
    version: (nat, nat, nat),
    term: Result<TermView<B>, ErrorView>,
) -> Result<ProgramView<B>, ErrorView> {
    match term {
        Ok(term) => Ok(ProgramView { version, term }),
        Err(error) => Err(error),
    }
}

/// Convert a parsed `Program` to a `Program` in `NamedDebruijn` form.
/// This checks for any free unique in the `Program` and returns an error if found.
impl TryFrom<Program<Name>> for Program<NamedDeBruijn> {
    type Error = Error;

    fn try_from(value: Program<Name>) -> (result: Result<Self, Error>)
        ensures
            outcome(result) == under_version(
                value@.version,
                to_named_debruijn(value@.term, Seq::empty()),
            ),
            result is Ok <==> first_free_variable(value@.term, Set::empty()) is None,
            result matches Err(error) ==> first_free_variable(
                value@.term,
                Set::empty(),
            ) matches Some(name) && error@ == ErrorView::FreeUnique(name),
    {
        match Term::<NamedDeBruijn>::try_from(value.term) {
            Ok(term) => Ok(Program::<NamedDeBruijn> { version: value.version, term }),
            Err(error) => Err(error),
        }
    }
}

/// The result is stated by what it holds, on `try_from`.
impl TryFromSpecImpl<Program<Name>> for Program<NamedDeBruijn> {
    open spec fn obeys_try_from_spec() -> bool {
        false
    }

    open spec fn try_from_spec(value: Program<Name>) -> Result<Self, Error> {
        choose|result: Result<Self, Error>|
            outcome(result) == under_version(
                value@.version,
                to_named_debruijn(value@.term, Seq::empty()),
            )
    }
}

/// Convert a parsed `Term` to a `Term` in `NamedDebruijn` form.
/// This checks for any free unique in the `Term` and returns an error if found.
impl TryFrom<Term<Name>> for Term<NamedDeBruijn> {
    type Error = Error;

    fn try_from(value: Term<Name>) -> (result: Result<Self, Error>)
        ensures
            outcome(result) == to_named_debruijn(value@, Seq::empty()),
            result is Ok <==> first_free_variable(value@, Set::empty()) is None,
            result matches Err(error) ==> first_free_variable(
                value@,
                Set::empty(),
            ) matches Some(name) && error@ == ErrorView::FreeUnique(name),
    {
        let mut converter = Converter::new();
        assert(uniques(Seq::<NameView>::empty()) =~= Set::empty());

        converter.name_to_named_debruijn(value)
    }
}

/// The result is stated by what it holds, on `try_from`.
impl TryFromSpecImpl<Term<Name>> for Term<NamedDeBruijn> {
    open spec fn obeys_try_from_spec() -> bool {
        false
    }

    open spec fn try_from_spec(value: Term<Name>) -> Result<Self, Error> {
        choose|result: Result<Self, Error>|
            outcome(result) == to_named_debruijn(value@, Seq::empty())
    }
}

/// Convert a parsed `Program` to a `Program` in `Debruijn` form.
/// This checks for any free unique in the `Program` and returns an error if found.
impl TryFrom<Program<Name>> for Program<DeBruijn> {
    type Error = Error;

    fn try_from(value: Program<Name>) -> (result: Result<Self, Error>)
        ensures
            outcome(result) == under_version(
                value@.version,
                to_debruijn(value@.term, Seq::empty()),
            ),
            result is Ok <==> first_free_variable(value@.term, Set::empty()) is None,
            result matches Err(error) ==> first_free_variable(
                value@.term,
                Set::empty(),
            ) matches Some(name) && error@ == ErrorView::FreeUnique(name),
    {
        match Term::<DeBruijn>::try_from(value.term) {
            Ok(term) => Ok(Program::<DeBruijn> { version: value.version, term }),
            Err(error) => Err(error),
        }
    }
}

/// The result is stated by what it holds, on `try_from`.
impl TryFromSpecImpl<Program<Name>> for Program<DeBruijn> {
    open spec fn obeys_try_from_spec() -> bool {
        false
    }

    open spec fn try_from_spec(value: Program<Name>) -> Result<Self, Error> {
        choose|result: Result<Self, Error>|
            outcome(result) == under_version(value@.version, to_debruijn(value@.term, Seq::empty()))
    }
}

/// Convert a parsed `Term` to a `Term` in `Debruijn` form.
/// This checks for any free unique in the `Term` and returns an error if found.
impl TryFrom<Term<Name>> for Term<DeBruijn> {
    type Error = Error;

    fn try_from(value: Term<Name>) -> (result: Result<Self, Error>)
        ensures
            outcome(result) == to_debruijn(value@, Seq::empty()),
            result is Ok <==> first_free_variable(value@, Set::empty()) is None,
            result matches Err(error) ==> first_free_variable(
                value@,
                Set::empty(),
            ) matches Some(name) && error@ == ErrorView::FreeUnique(name),
    {
        let mut converter = Converter::new();
        assert(uniques(Seq::<NameView>::empty()) =~= Set::empty());

        converter.name_to_debruijn(value)
    }
}

/// The result is stated by what it holds, on `try_from`.
impl TryFromSpecImpl<Term<Name>> for Term<DeBruijn> {
    open spec fn obeys_try_from_spec() -> bool {
        false
    }

    open spec fn try_from_spec(value: Term<Name>) -> Result<Self, Error> {
        choose|result: Result<Self, Error>|
            outcome(result) == to_debruijn(value@, Seq::empty())
    }
}

/// Convert a `Program` in `NamedDebruijn` form to a `Program` with names, whose unique ids
/// count from 0. This checks for any free index in the `Program` and returns an error if
/// found.
impl TryFrom<Program<NamedDeBruijn>> for Program<Name> {
    type Error = Error;

    fn try_from(value: Program<NamedDeBruijn>) -> (result: Result<Self, Error>)
        ensures
            outcome(result) == under_version(
                value@.version,
                to_name(value@.term, Seq::empty(), 0).0,
            ),
            result is Ok <==> first_free_index(value@.term, 0) is None,
            result matches Err(error) ==> first_free_index(value@.term, 0) matches Some(index)
                && error@ == ErrorView::FreeIndex(index),
    {
        match Term::<Name>::try_from(value.term) {
            Ok(term) => Ok(Program::<Name> { version: value.version, term }),
            Err(error) => Err(error),
        }
    }
}

/// The result is stated by what it holds, on `try_from`.
impl TryFromSpecImpl<Program<NamedDeBruijn>> for Program<Name> {
    open spec fn obeys_try_from_spec() -> bool {
        false
    }

    open spec fn try_from_spec(value: Program<NamedDeBruijn>) -> Result<Self, Error> {
        choose|result: Result<Self, Error>|
            outcome(result) == under_version(
                value@.version,
                to_name(value@.term, Seq::empty(), 0).0,
            )
    }
}

/// Convert a `Term` in `NamedDebruijn` form to a `Term` with names, whose unique ids
/// count from 0. This checks for any free index in the `Term` and returns an error if
/// found.
impl TryFrom<Term<NamedDeBruijn>> for Term<Name> {
    type Error = Error;

    fn try_from(value: Term<NamedDeBruijn>) -> (result: Result<Self, Error>)
        ensures
            outcome(result) == to_name(value@, Seq::empty(), 0).0,
            result is Ok <==> first_free_index(value@, 0) is None,
            result matches Err(error) ==> first_free_index(value@, 0) matches Some(index)
                && error@ == ErrorView::FreeIndex(index),
    {
        let mut converter = Converter::new();

        converter.named_debruijn_to_name(value)
    }
}

/// The result is stated by what it holds, on `try_from`.
impl TryFromSpecImpl<Term<NamedDeBruijn>> for Term<Name> {
    open spec fn obeys_try_from_spec() -> bool {
        false
    }

    open spec fn try_from_spec(value: Term<NamedDeBruijn>) -> Result<Self, Error> {
        choose|result: Result<Self, Error>|
            outcome(result) == to_name(value@, Seq::empty(), 0).0
    }
}

/// Convert a `Program` in `Debruijn` form to a `Program` with names, whose text is the
/// placeholder and whose unique ids count from 0. This checks for any free index in
/// the `Program` and returns an error if found.
impl TryFrom<Program<DeBruijn>> for Program<Name> {
    type Error = Error;

    fn try_from(value: Program<DeBruijn>) -> (result: Result<Self, Error>)
        ensures
            outcome(result) == under_version(
                value@.version,
                to_name(with_placeholders(value@.term), Seq::empty(), 0).0,
            ),
            result is Ok <==> first_free_index(with_placeholders(value@.term), 0) is None,
            result matches Err(error) ==> first_free_index(
                with_placeholders(value@.term),
                0,
            ) matches Some(index) && error@ == ErrorView::FreeIndex(index),
    {
        match Term::<Name>::try_from(value.term) {
            Ok(term) => Ok(Program::<Name> { version: value.version, term }),
            Err(error) => Err(error),
        }
    }
}

/// The result is stated by what it holds, on `try_from`.
impl TryFromSpecImpl<Program<DeBruijn>> for Program<Name> {
    open spec fn obeys_try_from_spec() -> bool {
        false
    }

    open spec fn try_from_spec(value: Program<DeBruijn>) -> Result<Self, Error> {
        choose|result: Result<Self, Error>|
            outcome(result) == under_version(
                value@.version,
                to_name(with_placeholders(value@.term), Seq::empty(), 0).0,
            )
    }
}

/// Convert a `Term` in `Debruijn` form to a `Term` with names, whose text is the
/// placeholder and whose unique ids count from 0. This checks for any free index in
/// the `Term` and returns an error if found.
impl TryFrom<Term<DeBruijn>> for Term<Name> {
    type Error = Error;

    fn try_from(value: Term<DeBruijn>) -> (result: Result<Self, Error>)
        ensures
            outcome(result) == to_name(with_placeholders(value@), Seq::empty(), 0).0,
            result is Ok <==> first_free_index(with_placeholders(value@), 0) is None,
            result matches Err(error) ==> first_free_index(
                with_placeholders(value@),
                0,
            ) matches Some(index) && error@ == ErrorView::FreeIndex(index),
    {
        let mut converter = Converter::new();

        converter.debruijn_to_name(value)
    }
}

/// The result is stated by what it holds, on `try_from`.
impl TryFromSpecImpl<Term<DeBruijn>> for Term<Name> {
    open spec fn obeys_try_from_spec() -> bool {
        false
    }

    open spec fn try_from_spec(value: Term<DeBruijn>) -> Result<Self, Error> {
        choose|result: Result<Self, Error>|
            outcome(result) == to_name(with_placeholders(value@), Seq::empty(), 0).0
    }
}

/// Convert a `Program` in `NamedDebruijn` form to `Debruijn` form: the names are
/// dropped.
impl From<Program<NamedDeBruijn>> for Program<DeBruijn> {
    fn from(value: Program<NamedDeBruijn>) -> (result: Self)
        ensures
            result@ == (ProgramView { version: value@.version, term: without_names(value@.term) }),
    {
        Program::<DeBruijn> {
            version: value.version,
            term: Term::<DeBruijn>::from(value.term),
        }
    }
}

/// The result is stated by what it holds, on `from`.
impl FromSpecImpl<Program<NamedDeBruijn>> for Program<DeBruijn> {
    open spec fn obeys_from_spec() -> bool {
        false
    }

    open spec fn from_spec(value: Program<NamedDeBruijn>) -> Self {
        choose|result: Self|
            result@ == (ProgramView { version: value@.version, term: without_names(value@.term) })
    }
}

/// Convert a `Term` in `NamedDebruijn` form to `Debruijn` form: the names are
/// dropped.
impl From<Term<NamedDeBruijn>> for Term<DeBruijn> {
    fn from(value: Term<NamedDeBruijn>) -> (result: Self)
        ensures
            result@ == without_names(value@),
    {
        let mut converter = Converter::new();

        converter.named_debruijn_to_debruijn(value)
    }
}

/// The result is stated by what it holds, on `from`.
impl FromSpecImpl<Term<NamedDeBruijn>> for Term<DeBruijn> {
    open spec fn obeys_from_spec() -> bool {
        false
    }

    open spec fn from_spec(value: Term<NamedDeBruijn>) -> Self {
        choose|result: Self| result@ == without_names(value@)
    }
}

/// Convert a `Program` in `NamedDebruijn` form to `FakeNamedDebruijn` form: every
/// binder is wrapped.
impl From<Program<NamedDeBruijn>> for Program<FakeNamedDeBruijn> {
    fn from(value: Program<NamedDeBruijn>) -> (result: Self)
        ensures
            result@ == (ProgramView { version: value@.version, term: as_fake(value@.term) }),
    {
        Program::<FakeNamedDeBruijn> {
            version: value.version,
            term: Term::<FakeNamedDeBruijn>::from(value.term),
        }
    }
}

/// The result is stated by what it holds, on `from`.
impl FromSpecImpl<Program<NamedDeBruijn>> for Program<FakeNamedDeBruijn> {
    open spec fn obeys_from_spec() -> bool {
        false
    }

    open spec fn from_spec(value: Program<NamedDeBruijn>) -> Self {
        choose|result: Self|
            result@ == (ProgramView { version: value@.version, term: as_fake(value@.term) })
    }
}

/// Convert a `Term` in `NamedDebruijn` form to `FakeNamedDebruijn` form: every
/// binder is wrapped.
impl From<Term<NamedDeBruijn>> for Term<FakeNamedDeBruijn> {
    fn from(value: Term<NamedDeBruijn>) -> (result: Self)
        ensures
            result@ == as_fake(value@),
    {
        let mut converter = Converter::new();

        converter.named_debruijn_to_fake_named_debruijn(value)
    }
}

/// The result is stated by what it holds, on `from`.
impl FromSpecImpl<Term<NamedDeBruijn>> for Term<FakeNamedDeBruijn> {
    open spec fn obeys_from_spec() -> bool {
        false
    }

    open spec fn from_spec(value: Term<NamedDeBruijn>) -> Self {
        choose|result: Self| result@ == as_fake(value@)
    }
}

/// Convert a `Program` in `Debruijn` form to `NamedDebruijn` form: every binder gets
/// the placeholder text.
impl From<Program<DeBruijn>> for Program<NamedDeBruijn> {
    fn from(value: Program<DeBruijn>) -> (result: Self)
        ensures
            result@
                == (ProgramView { version: value@.version, term: with_placeholders(value@.term) }),
    {
        Program::<NamedDeBruijn> {
            version: value.version,
            term: Term::<NamedDeBruijn>::from(value.term),
        }
    }
}

/// The result is stated by what it holds, on `from`.
impl FromSpecImpl<Program<DeBruijn>> for Program<NamedDeBruijn> {
    open spec fn obeys_from_spec() -> bool {
        false
    }

    open spec fn from_spec(value: Program<DeBruijn>) -> Self {
        choose|result: Self|
            result@
                == (ProgramView { version: value@.version, term: with_placeholders(value@.term) })
    }
}

/// Convert a `Term` in `Debruijn` form to `NamedDebruijn` form: every binder gets
/// the placeholder text.
impl From<Term<DeBruijn>> for Term<NamedDeBruijn> {
    fn from(value: Term<DeBruijn>) -> (result: Self)
        ensures
            result@ == with_placeholders(value@),
    {
        let mut converter = Converter::new();

        converter.debruijn_to_named_debruijn(value)
    }
}

/// The result is stated by what it holds, on `from`.
impl FromSpecImpl<Term<DeBruijn>> for Term<NamedDeBruijn> {
    open spec fn obeys_from_spec() -> bool {
        false
    }

    open spec fn from_spec(value: Term<DeBruijn>) -> Self {
        choose|result: Self| result@ == with_placeholders(value@)
    }
}

/// Convert a `Program` in `FakeNamedDebruijn` form to `NamedDebruijn` form: every
/// binder is unwrapped.
impl From<Program<FakeNamedDeBruijn>> for Program<NamedDeBruijn> {
    fn from(value: Program<FakeNamedDeBruijn>) -> (result: Self)
        ensures
            result@ == (ProgramView { version: value@.version, term: as_named(value@.term) }),
    {
        Program::<NamedDeBruijn> {
            version: value.version,
            term: Term::<NamedDeBruijn>::from(value.term),
        }
    }
}

/// The result is stated by what it holds, on `from`.
impl FromSpecImpl<Program<FakeNamedDeBruijn>> for Program<NamedDeBruijn> {
    open spec fn obeys_from_spec() -> bool {
        false
    }

    open spec fn from_spec(value: Program<FakeNamedDeBruijn>) -> Self {
        choose|result: Self|
            result@ == (ProgramView { version: value@.version, term: as_named(value@.term) })
    }
}

/// Convert a `Term` in `FakeNamedDebruijn` form to `NamedDebruijn` form: every
/// binder is unwrapped.
impl From<Term<FakeNamedDeBruijn>> for Term<NamedDeBruijn> {
    fn from(value: Term<FakeNamedDeBruijn>) -> (result: Self)
        ensures
            result@ == as_named(value@),
    {
        let mut converter = Converter::new();

        converter.fake_named_debruijn_to_named_debruijn(value)
    }
}

/// The result is stated by what it holds, on `from`.
impl FromSpecImpl<Term<FakeNamedDeBruijn>> for Term<NamedDeBruijn> {
    open spec fn obeys_from_spec() -> bool {
        false
    }

    open spec fn from_spec(value: Term<FakeNamedDeBruijn>) -> Self {
        choose|result: Self| result@ == as_named(value@)
    }
}

} // verus!
