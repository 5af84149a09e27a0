use vstd::prelude::*;

verus! {

/// An opaque, copyable handle into an `Interner`. Equality of handles
/// is equality of the interned text, at the cost of one integer
/// comparison. The stored value is the index plus one, so a handle is
/// never zero.
#[derive(Debug, Clone, Copy, PartialEq, Eq, PartialOrd, Ord, Hash, Structural)]
pub struct Symbol {
    raw: u32,
}

impl Symbol {
    #[verifier::type_invariant]
    pub closed spec fn inv(self) -> bool {
        self.raw >= 1
    }

    pub closed spec fn spec_index(self) -> int {
        self.raw - 1
    }

    /// Handles are nothing more than their index.
    pub proof fn lemma_eq_index(a: Symbol, b: Symbol)
        ensures
            (a == b) <==> (a.spec_index() == b.spec_index()),
    {
    }

    pub fn new(index: u32) -> (sym: Self)
        requires
            index < u32::MAX,
        ensures
            sym.spec_index() == index,
    {
        Self { raw: 1 + index }
    }

    pub fn index(self) -> (r: u32)
        ensures
            r as int == self.spec_index(),
    {
        proof {
            use_type_invariant(self);
        }
        self.raw - 1
    }
}

} // verus!
