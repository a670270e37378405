//! A batch audio-tag editor's verified core.
//!
//! The heart is the predicate engine: a SQL-`WHERE`-like expression over
//! tag names is compiled — lexed, parsed, and bound against the tag
//! schema — into a typed [`where_clause::WhereClause`], which is then
//! evaluated against one record's tag values to a tri-state result.
//! Around it stand the tag schema, the editing operations (clearing,
//! setting constants and sequences, text edits, case conversion,
//! import, renaming) as verified transformations of a record, and the
//! character-level helpers they share.
//!
//! File and network I/O, directory walking, argument parsing and output
//! formatting stay outside; they hand records in and take records back.

pub mod actions;
pub mod args;
pub mod lexer;
pub mod model;
pub mod numeric;
pub mod ops;
pub mod record;
pub mod strings;
pub mod suffix;
pub mod text_edit;
pub mod where_clause;
pub mod wildcard;
