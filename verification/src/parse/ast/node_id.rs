use vstd::prelude::*;

verus! {

/// A dense, monotonically increasing, never-zero identity minted for
/// each AST node of one parse, so later passes can attach out-of-band
/// tables keyed by node without mutating the tree.
#[derive(Debug, Clone, Copy, PartialEq, Eq, PartialOrd, Ord, Hash, Structural)]
pub struct NodeId {
    raw: u32,
}

impl NodeId {
    #[verifier::type_invariant]
    pub closed spec fn inv(self) -> bool {
        self.raw >= 1
    }

    pub closed spec fn spec_get(self) -> u32 {
        self.raw
    }

    pub fn new(id: u32) -> (r: Self)
        requires
            id >= 1,
        ensures
            r.spec_get() == id,
    {
        Self { raw: id }
    }

    pub fn get(self) -> (r: u32)
        ensures
            r == self.spec_get(),
            r >= 1,
    {
        proof {
            use_type_invariant(self);
        }
        self.raw
    }
}

} // verus!
