//! Typed access to the values and rows a database host hands to an extension.
//!
//! The host speaks in untyped machine words, each paired with a null flag, and in
//! trigger events described by a bit mask. This crate gives both a typed face:
//! `datum` converts words to values and back, `trigger` classifies an event,
//! `tuple` reads and rewrites the fields of a row, and `before_insert` is a
//! trigger handler built from the three.

pub mod before_insert;
pub mod datum;
pub mod trigger;
pub mod tuple;
