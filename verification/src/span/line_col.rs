use vstd::prelude::*;

verus! {

/// A zero-based line number and a column counted in Unicode scalar
/// values from the start of that line.
#[derive(Debug, Clone, Copy, PartialEq, Eq, PartialOrd, Ord, Hash, Structural)]
pub struct LineCol {
    pub line: u32,
    pub col: u32,
}

impl LineCol {
    pub fn new(line: u32, col: u32) -> (r: Self)
        ensures
            r.line == line,
            r.col == col,
    {
        Self { line, col }
    }
}

} // verus!
