//! Untyped Plutus Core: its terms and programs, its builtin functions, and
//! the conversions of a term between the forms that a binder can have.
//!
//! A binder is a `Name` (a text and a unique id), a `DeBruijn` index, a
//! `NamedDeBruijn` (an index under a text that is kept for display) or a
//! `FakeNamedDeBruijn` (the same, made from a bare index). A `Converter`
//! takes a term from one form to another; `TryFrom` and `From` do so for
//! whole terms and programs.
//!
//! Every contract speaks of what the values hold: `term@` is the tree that a
//! `Term` holds, over what its binders hold. The functions of `debruijn` say
//! what each conversion gives, and `laws` what holds of them whatever the
//! term.

pub mod ast;
pub mod builtins;
pub mod convert;
pub mod debruijn;
pub mod laws;
pub mod scope;
pub mod text;
