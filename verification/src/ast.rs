//! The terms and programs of Untyped Plutus Core, over the four forms that a
//! binder can have, and what each type holds.

use crate::builtins::DefaultFunction;
use crate::text::{append_decimal, signed_decimal};
use vstd::prelude::*;
use vstd::std_specs::convert::FromSpecImpl;
use vstd::string::StringExecFns;

verus! {

/// A unique id used for string interning.
#[derive(Debug, Clone, Copy, PartialEq, Eq, Hash, Structural)]
pub struct Unique(isize);

impl View for Unique {
    type V = int;

    closed spec fn view(&self) -> int {
        self.0 as int
    }
}

impl Unique {
    /// Create a new unique id.
    pub fn new(unique: isize) -> (r: Self)
        ensures
            r@ == unique,
    {
        Unique(unique)
    }

    /// Advance to the next unique id.
    pub fn increment(&mut self)
        requires
            old(self)@ < isize::MAX,
        ensures
            final(self)@ == old(self)@ + 1,
    {
        self.0 += 1;
    }

    /// The number of this unique id, written in base ten.
    pub fn to_string(&self) -> (text: String)
        ensures
            text@ == signed_decimal(self@),
    {
        let mut text = String::new();
        let number = self.0 as i128;
        if number < 0 {
            proof {
                reveal_strlit("-");
            }
            text.append("-");
            append_decimal(&mut text, (-number) as u128);
        } else {
            append_decimal(&mut text, number as u128);
        }
        text
    }

    /// A unique id is its number and nothing else.
    pub proof fn lemma_view_injective(a: Unique, b: Unique)
        ensures
            a@ == b@ <==> a == b,
            isize::MIN <= a@ <= isize::MAX,
    {
    }
}

impl From<isize> for Unique {
    fn from(i: isize) -> (r: Self)
        ensures
            r@ == i,
    {
        Unique(i)
    }
}

impl FromSpecImpl<isize> for Unique {
    open spec fn obeys_from_spec() -> bool {
        true
    }

    closed spec fn from_spec(i: isize) -> Self {
        Unique(i)
    }
}

impl From<Unique> for isize {
    fn from(d: Unique) -> (r: Self)
        ensures
            r == d@,
    {
        d.0
    }
}

impl FromSpecImpl<Unique> for isize {
    open spec fn obeys_from_spec() -> bool {
        true
    }

    open spec fn from_spec(d: Unique) -> Self {
        d@ as isize
    }
}

/// Represents a debruijn index: the number of binders between a variable and
/// the binder it refers to, the nearest one being 1.
#[derive(Debug, Clone, Copy, PartialEq, Eq, Structural)]
pub struct DeBruijn(usize);

impl View for DeBruijn {
    type V = nat;

    closed spec fn view(&self) -> nat {
        self.0 as nat
    }
}

impl DeBruijn {
    /// Create a new debruijn index.
    pub fn new(index: usize) -> (r: Self)
        ensures
            r@ == index,
    {
        DeBruijn(index)
    }

    /// A debruijn index is its number and nothing else.
    pub proof fn lemma_view_injective(a: DeBruijn, b: DeBruijn)
        ensures
            a@ == b@ <==> a == b,
            a@ <= usize::MAX,
    {
    }
}

impl From<usize> for DeBruijn {
    fn from(i: usize) -> (r: Self)
        ensures
            r@ == i,
    {
        DeBruijn(i)
    }
}

impl FromSpecImpl<usize> for DeBruijn {
    open spec fn obeys_from_spec() -> bool {
        true
    }

    closed spec fn from_spec(i: usize) -> Self {
        DeBruijn(i)
    }
}

impl From<DeBruijn> for usize {
    fn from(d: DeBruijn) -> (r: Self)
        ensures
            r == d@,
    {
        d.0
    }
}

impl FromSpecImpl<DeBruijn> for usize {
    open spec fn obeys_from_spec() -> bool {
        true
    }

    open spec fn from_spec(d: DeBruijn) -> Self {
        d@ as usize
    }
}

/// A Name containing its parsed textual representation
/// and a unique id from string interning.
/// Two names with the same unique id are the same binding, whatever their text.
#[derive(Debug, PartialEq)]
pub struct Name {
    pub text: String,
    pub unique: Unique,
}

impl Clone for Name {
    fn clone(&self) -> (copy: Self)
        ensures
            copy == *self,
    {
        Name { text: self.text.clone(), unique: self.unique }
    }
}

/// What a `Name` holds.
pub struct NameView {
    pub text: Seq<char>,
    pub unique: int,
}

impl View for Name {
    type V = NameView;

    open spec fn view(&self) -> NameView {
        NameView { text: self.text@, unique: self.unique@ }
    }
}

/// Similar to `Name` but for Debruijn indices.
/// `Name` is replaced by `NamedDeBruijn` when converting
/// a program to its debruijn form. The text is kept for display only.
#[derive(Debug, PartialEq)]
pub struct NamedDeBruijn {
    pub text: String,
    pub index: DeBruijn,
}

impl Clone for NamedDeBruijn {
    fn clone(&self) -> (copy: Self)
        ensures
            copy == *self,
    {
        NamedDeBruijn { text: self.text.clone(), index: self.index }
    }
}

/// What a `NamedDeBruijn` holds.
pub struct NamedDeBruijnView {
    pub text: Seq<char>,
    pub index: nat,
}

impl View for NamedDeBruijn {
    type V = NamedDeBruijnView;

    open spec fn view(&self) -> NamedDeBruijnView {
        NamedDeBruijnView { text: self.text@, index: self.index@ }
    }
}

/// The text that stands in for a name where a binder has none. It is the one
/// that the Plutus code base uses.
pub const PLACEHOLDER_TEXT: &'static str = "i";

/// The named form of a bare index: the index under the placeholder text.
pub open spec fn with_placeholder(index: nat) -> NamedDeBruijnView {
    NamedDeBruijnView { text: PLACEHOLDER_TEXT@, index }
}

/// This is useful for decoding an on chain program into debruijn form.
/// It allows for injecting fake textual names while also using Debruijn for decoding
/// without having to loop through twice.
#[derive(Debug, PartialEq)]
pub struct FakeNamedDeBruijn(NamedDeBruijn);

impl Clone for FakeNamedDeBruijn {
    fn clone(&self) -> (copy: Self)
        ensures
            copy == *self,
    {
        FakeNamedDeBruijn(self.0.clone())
    }
}

/// What a `FakeNamedDeBruijn` holds: a `NamedDeBruijn` and nothing else.
pub struct FakeNamedDeBruijnView {
    pub named: NamedDeBruijnView,
}

impl View for FakeNamedDeBruijn {
    type V = FakeNamedDeBruijnView;

    closed spec fn view(&self) -> FakeNamedDeBruijnView {
        FakeNamedDeBruijnView { named: self.0@ }
    }
}

impl From<DeBruijn> for NamedDeBruijn {
    fn from(index: DeBruijn) -> (r: Self)
        ensures
            r@ == with_placeholder(index@),
    {
        NamedDeBruijn { text: String::from_str(PLACEHOLDER_TEXT), index }
    }
}

/// The text is made anew, so the result is stated by what it holds, on `from`.
impl FromSpecImpl<DeBruijn> for NamedDeBruijn {
    open spec fn obeys_from_spec() -> bool {
        false
    }

    open spec fn from_spec(index: DeBruijn) -> Self {
        choose|r: NamedDeBruijn| r@ == with_placeholder(index@)
    }
}

impl From<NamedDeBruijn> for DeBruijn {
    fn from(n: NamedDeBruijn) -> (r: Self)
        ensures
            r@ == n@.index,
    {
        n.index
    }
}

impl FromSpecImpl<NamedDeBruijn> for DeBruijn {
    open spec fn obeys_from_spec() -> bool {
        true
    }

    open spec fn from_spec(n: NamedDeBruijn) -> Self {
        n.index
    }
}

impl From<NamedDeBruijn> for FakeNamedDeBruijn {
    fn from(d: NamedDeBruijn) -> (r: Self)
        ensures
            r@.named == d@,
    {
        FakeNamedDeBruijn(d)
    }
}

impl FromSpecImpl<NamedDeBruijn> for FakeNamedDeBruijn {
    open spec fn obeys_from_spec() -> bool {
        true
    }

    closed spec fn from_spec(d: NamedDeBruijn) -> Self {
        FakeNamedDeBruijn(d)
    }
}

impl From<FakeNamedDeBruijn> for NamedDeBruijn {
    fn from(d: FakeNamedDeBruijn) -> (r: Self)
        ensures
            r@ == d@.named,
    {
        d.0
    }
}

impl FromSpecImpl<FakeNamedDeBruijn> for NamedDeBruijn {
    open spec fn obeys_from_spec() -> bool {
        true
    }

    closed spec fn from_spec(d: FakeNamedDeBruijn) -> Self {
        d.0
    }
}

impl From<DeBruijn> for FakeNamedDeBruijn {
    fn from(d: DeBruijn) -> (r: Self)
        ensures
            r@.named == with_placeholder(d@),
    {
        FakeNamedDeBruijn(d.into())
    }
}

/// The text is made anew, so the result is stated by what it holds, on `from`.
impl FromSpecImpl<DeBruijn> for FakeNamedDeBruijn {
    open spec fn obeys_from_spec() -> bool {
        false
    }

    open spec fn from_spec(d: DeBruijn) -> Self {
        choose|r: FakeNamedDeBruijn| r@.named == with_placeholder(d@)
    }
}

impl From<FakeNamedDeBruijn> for DeBruijn {
    fn from(d: FakeNamedDeBruijn) -> (r: Self)
        ensures
            r@ == d@.named.index,
    {
        d.0.into()
    }
}

impl FromSpecImpl<FakeNamedDeBruijn> for DeBruijn {
    open spec fn obeys_from_spec() -> bool {
        true
    }

    closed spec fn from_spec(d: FakeNamedDeBruijn) -> Self {
        d.0.index
    }
}

/// A container for the various constants that are available
/// in Untyped Plutus Core. Used in the `Constant` variant of `Term`.
#[derive(Debug, PartialEq)]
pub enum Constant {
    // tag: 0
    Integer(isize),
    // tag: 1
    ByteString(Vec<u8>),
    // tag: 2
    String(String),
    // tag: 3
    Char(char),
    // tag: 4
    Unit,
    // tag: 5
    Bool(bool),
}

impl Clone for Constant {
    fn clone(&self) -> (copy: Self)
        ensures
            copy@ == self@,
    {
        match self {
            Constant::Integer(i) => Constant::Integer(*i),
            Constant::ByteString(bytes) => Constant::ByteString(bytes.clone()),
            Constant::String(text) => Constant::String(text.clone()),
            Constant::Char(c) => Constant::Char(*c),
            Constant::Unit => Constant::Unit,
            Constant::Bool(b) => Constant::Bool(*b),
        }
    }
}

/// What a `Constant` holds.
pub enum ConstantView {
    Integer(int),
    ByteString(Seq<u8>),
    String(Seq<char>),
    Char(char),
    Unit,
    Bool(bool),
}

impl View for Constant {
    type V = ConstantView;

    open spec fn view(&self) -> ConstantView {
        match self {
            Constant::Integer(i) => ConstantView::Integer(*i as int),
            Constant::ByteString(bytes) => ConstantView::ByteString(bytes@),
            Constant::String(text) => ConstantView::String(text@),
            Constant::Char(c) => ConstantView::Char(*c),
            Constant::Unit => ConstantView::Unit,
            Constant::Bool(b) => ConstantView::Bool(*b),
        }
    }
}

/// This represents a term in Untyped Plutus Core.
/// We need a generic type for the different forms that a program may be in.
/// Specifically, `Var` and `parameter_name` in `Lambda` can be a `Name`,
/// `NamedDebruijn`, or `DeBruijn`. When encoded to flat for on chain usage
/// we must encode using the `DeBruijn` form.
#[derive(Debug, PartialEq)]
pub enum Term<T> {
    // tag: 0
    Var(T),
    // tag: 1
    Delay(Box<Term<T>>),
    // tag: 2
    Lambda { parameter_name: T, body: Box<Term<T>> },
    // tag: 3
    Apply { function: Box<Term<T>>, argument: Box<Term<T>> },
    // tag: 4
    Constant(Constant),
    // tag: 5
    Force(Box<Term<T>>),
    // tag: 6
    Error,
    // tag: 7
    Builtin(DefaultFunction),
}

/// Whether `copy` is a clone of `term`: the same tree, with a clone of each
/// binder at its place.
pub open spec fn cloned_term<T: Clone>(term: Term<T>, copy: Term<T>) -> bool
    decreases term,
{
    match term {
        Term::Var(name) => copy matches Term::Var(c) && cloned(name, c),
        Term::Delay(term) => copy matches Term::Delay(c) && cloned_term(*term, *c),
        Term::Lambda { parameter_name, body } => copy matches Term::Lambda {
            parameter_name: p,
            body: b,
        } && cloned(parameter_name, p) && cloned_term(*body, *b),
        Term::Apply { function, argument } => copy matches Term::Apply {
            function: f,
            argument: a,
        } && cloned_term(*function, *f) && cloned_term(*argument, *a),
        Term::Constant(constant) => copy matches Term::Constant(c) && c@ == constant@,
        Term::Force(term) => copy matches Term::Force(c) && cloned_term(*term, *c),
        Term::Error => copy is Error,
        Term::Builtin(builtin) => copy matches Term::Builtin(c) && c == builtin,
    }
}

/// A clone of a term holds what the term holds, where a clone of a binder
/// holds what the binder holds.
pub proof fn lemma_cloned_term_view<T: Clone + View>(term: Term<T>, copy: Term<T>)
    requires
        cloned_term(term, copy),
        forall|binder: T, c: T| #[trigger] cloned(binder, c) ==> c@ == binder@,
    ensures
        copy@ == term@,
    decreases term,
{
    match (term, copy) {
        (Term::Delay(term), Term::Delay(c)) => {
            lemma_cloned_term_view(*term, *c);
        },
        (Term::Lambda { parameter_name, body }, Term::Lambda { parameter_name: p, body: b }) => {
            lemma_cloned_term_view(*body, *b);
        },
        (Term::Apply { function, argument }, Term::Apply { function: f, argument: a }) => {
            lemma_cloned_term_view(*function, *f);
            lemma_cloned_term_view(*argument, *a);
        },
        (Term::Force(term), Term::Force(c)) => {
            lemma_cloned_term_view(*term, *c);
        },
        _ => {},
    }
}

impl<T: Clone> Clone for Term<T> {
    fn clone(&self) -> (copy: Self)
        ensures
            cloned_term(*self, copy),
        decreases self,
    {
        match self {
            Term::Var(name) => Term::Var(name.clone()),
            Term::Delay(term) => Term::Delay(Box::new((&**term).clone())),
            Term::Lambda { parameter_name, body } => Term::Lambda {
                parameter_name: parameter_name.clone(),
                body: Box::new((&**body).clone()),
            },
            Term::Apply { function, argument } => Term::Apply {
                function: Box::new((&**function).clone()),
                argument: Box::new((&**argument).clone()),
            },
            Term::Constant(constant) => Term::Constant(constant.clone()),
            Term::Force(term) => Term::Force(Box::new((&**term).clone())),
            Term::Error => Term::Error,
            Term::Builtin(builtin) => Term::Builtin(*builtin),
        }
    }
}

/// What a `Term` holds: the same tree over what its binders hold.
pub enum TermView<B> {
    Var(B),
    Delay(Box<TermView<B>>),
    Lambda { parameter_name: B, body: Box<TermView<B>> },
    Apply { function: Box<TermView<B>>, argument: Box<TermView<B>> },
    Constant(ConstantView),
    Force(Box<TermView<B>>),
    Error,
    Builtin(DefaultFunction),
}

/// What `term` holds.
pub open spec fn term_view<T: View>(term: Term<T>) -> TermView<T::V>
    decreases term,
{
    match term {
        Term::Var(name) => TermView::Var(name@),
        Term::Delay(term) => TermView::Delay(Box::new(term_view(*term))),
        Term::Lambda { parameter_name, body } => TermView::Lambda {
            parameter_name: parameter_name@,
            body: Box::new(term_view(*body)),
        },
        Term::Apply { function, argument } => TermView::Apply {
            function: Box::new(term_view(*function)),
            argument: Box::new(term_view(*argument)),
        },
        Term::Constant(constant) => TermView::Constant(constant@),
        Term::Force(term) => TermView::Force(Box::new(term_view(*term))),
        Term::Error => TermView::Error,
        Term::Builtin(builtin) => TermView::Builtin(builtin),
    }
}

impl<T: View> View for Term<T> {
    type V = TermView<T::V>;

    open spec fn view(&self) -> TermView<T::V> {
        term_view(*self)
    }
}

impl<A> TermView<A> {
    /// The same tree with `f` applied to every binder: to the name of every
    /// variable and to the parameter of every lambda.
    pub open spec fn map<B>(self, f: spec_fn(A) -> B) -> TermView<B>
        decreases self,
    {
        match self {
            TermView::Var(name) => TermView::Var(f(name)),
            TermView::Delay(term) => TermView::Delay(Box::new(term.map(f))),
            TermView::Lambda { parameter_name, body } => TermView::Lambda {
                parameter_name: f(parameter_name),
                body: Box::new(body.map(f)),
            },
            TermView::Apply { function, argument } => TermView::Apply {
                function: Box::new(function.map(f)),
                argument: Box::new(argument.map(f)),
            },
            TermView::Constant(constant) => TermView::Constant(constant),
            TermView::Force(term) => TermView::Force(Box::new(term.map(f))),
            TermView::Error => TermView::Error,
            TermView::Builtin(builtin) => TermView::Builtin(builtin),
        }
    }

    /// Mapping twice is mapping once with the two functions in a row.
    pub proof fn lemma_map_map<B, C>(self, f: spec_fn(A) -> B, g: spec_fn(B) -> C)
        ensures
            self.map(f).map(g) == self.map(|a: A| g(f(a))),
        decreases self,
    {
        match self {
            TermView::Delay(term) => {
                term.lemma_map_map(f, g);
            },
            TermView::Lambda { parameter_name, body } => {
                body.lemma_map_map(f, g);
            },
            TermView::Apply { function, argument } => {
                function.lemma_map_map(f, g);
                argument.lemma_map_map(f, g);
            },
            TermView::Force(term) => {
                term.lemma_map_map(f, g);
            },
            _ => {},
        }
    }

    /// Mapping with a function that changes no binder changes nothing.
    pub proof fn lemma_map_identity(self, f: spec_fn(A) -> A)
        requires
            forall|a: A| #[trigger] f(a) == a,
        ensures
            self.map(f) == self,
        decreases self,
    {
        match self {
            TermView::Delay(term) => {
                term.lemma_map_identity(f);
            },
            TermView::Lambda { parameter_name, body } => {
                body.lemma_map_identity(f);
            },
            TermView::Apply { function, argument } => {
                function.lemma_map_identity(f);
                argument.lemma_map_identity(f);
            },
            TermView::Force(term) => {
                term.lemma_map_identity(f);
            },
            _ => {},
        }
    }
}

/// This represents a program in Untyped Plutus Core.
/// A program contains a version tuple and a term.
/// It is generic because Term requires a generic type.
#[derive(Debug, PartialEq)]
pub struct Program<T> {
    pub version: (usize, usize, usize),
    pub term: Term<T>,
}

impl<T: Clone> Clone for Program<T> {
    fn clone(&self) -> (copy: Self)
        ensures
            copy.version == self.version,
            cloned_term(self.term, copy.term),
    {
        Program {
            version: (self.version.0, self.version.1, self.version.2),
            term: self.term.clone(),
        }
    }
}

/// What a `Program` holds.
pub struct ProgramView<B> {
    pub version: (nat, nat, nat),
    pub term: TermView<B>,
}

impl<T: View> View for Program<T> {
    type V = ProgramView<T::V>;

    open spec fn view(&self) -> ProgramView<T::V> {
        ProgramView {
            version: (self.version.0 as nat, self.version.1 as nat, self.version.2 as nat),
            term: self.term@,
        }
    }
}

} // verus!
