//! Grammar, in-memory representation, and evaluation of the `OPTION`
//! runtime directive of a declarative query language.
//!
//! The directive toggles a named boolean runtime behaviour. Its textual
//! forms are `OPTION <name>`, `OPTION <name> = TRUE` and
//! `OPTION <name> = FALSE`, with case-insensitive keywords and a
//! case-sensitive identifier. Omitting the assignment means `TRUE`.

pub mod eval;
pub mod laws;
pub mod parse;
pub mod statement;
pub mod text;
