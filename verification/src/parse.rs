//! The lexing and parsing pipeline: primitive scanning, token gluing,
//! the lookahead cursor, and the recursive-descent parser.
//!
//! The parser covers the productions this front end implements:
//! compile-time directives (`comptime if`/`comptime loop`), input
//! declarations, attributes, and plain or composed identifiers.
//! Function definitions, passes, stages and statements exist as tree
//! types but have no productions yet, and every expression position is
//! reported and carries an invalid placeholder node, since the
//! expression grammar is outside this front end's scope.

pub mod ast;
pub mod cursor;
pub mod lexer;
pub mod low_lexer;
pub mod parse;
pub mod symbols;
