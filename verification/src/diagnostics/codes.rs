use vstd::prelude::*;

verus! {

/// A `comptime` directive that is not followed by `if` or `loop`, or a
/// malformed part of one.
pub const PARSE_ERR_INVALID_COMPTIME: u32 = 1;

/// An expression was expected; the expression grammar itself is not
/// part of this front end yet, so every expression position reports
/// this code and carries an invalid placeholder node.
pub const PARSE_ERR_EXPECTED_EXPR: u32 = 2;

/// An identifier was expected.
pub const PARSE_ERR_EXPECTED_IDENTIFIER: u32 = 3;

} // verus!
