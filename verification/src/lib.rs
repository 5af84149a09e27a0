//! The front end of a compiler for a small shader-authoring language:
//! it turns raw source text into a structured, span-annotated syntax
//! tree while emitting precise, source-framed diagnostics.
//!
//! The pieces, leaves first: [`symbol`] deduplicates string storage
//! behind stable handles; [`span`] positions text in one global
//! byte-offset coordinate space over possibly many files; the low
//! lexer of [`parse`] scans raw characters into primitive tokens, the
//! token layer glues adjacent ones into compound operators (and can
//! reverse that gluing on demand), and the recursive-descent parser
//! drives a two-token-lookahead cursor to build the tree;
//! [`diagnostics`] models and renders the findings.

pub mod diagnostics;
pub mod parse;
pub mod shared;
pub mod span;
pub mod symbol;
pub mod text;
