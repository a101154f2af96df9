//! Core of a typechecker for the Dhall configuration language: a dependently
//! typed lambda calculus with a universe hierarchy (`Type : Kind : Sort`),
//! records, unions, lists, optionals and a catalogue of builtins.
//!
//! The crate is organised in layers: the term representation, index shifting
//! and capture-avoiding substitution, a normaliser, a persistent typing
//! context, alpha-equivalence on normal forms, the typing judgement itself,
//! and a pretty-printer for embedding terms in error messages.
#![allow(clippy::all)]

pub mod alpha;
pub mod context;
pub mod normalize;
pub mod printer;
pub mod shift;
pub mod span;
pub mod subst;
pub mod term;
pub mod typecheck;
