use super::LowTokenKind;
use vstd::prelude::*;

verus! {

/// A primitive token: its kind and its length in bytes. The position is
/// implicit: tokens tile the input in scan order.
#[derive(Debug, Clone, Copy, PartialEq, Eq, Hash, Structural)]
pub struct LowToken {
    pub kind: LowTokenKind,
    pub len: u32,
}

impl LowToken {
    pub fn new(kind: LowTokenKind, len: u32) -> (t: Self)
        ensures
            t.kind == kind,
            t.len == len,
    {
        Self { kind, len }
    }
}

} // verus!
