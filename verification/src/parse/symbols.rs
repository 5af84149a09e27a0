use crate::symbol::{Interner, Symbol};
use vstd::prelude::*;

verus! {

/// The keyword symbols the parser compares identifiers against,
/// interned once per session.
#[derive(Debug, Clone, Copy)]
pub struct Keywords {
    pub ident: Symbol,
    pub comptime: Symbol,
    pub kw_if: Symbol,
    pub kw_else: Symbol,
    pub kw_loop: Symbol,
    pub kw_in: Symbol,
    pub times: Symbol,
    pub kw_or: Symbol,
    pub kw_and: Symbol,
    pub kw_not: Symbol,
}

impl Keywords {
    /// Every keyword handle resolves, in `it`, to its own spelling.
    pub open spec fn wf(&self, it: Interner) -> bool {
        &&& it.holds(self.ident) && it@[self.ident.spec_index()] == "ident"@
        &&& it.holds(self.comptime) && it@[self.comptime.spec_index()] == "comptime"@
        &&& it.holds(self.kw_if) && it@[self.kw_if.spec_index()] == "if"@
        &&& it.holds(self.kw_else) && it@[self.kw_else.spec_index()] == "else"@
        &&& it.holds(self.kw_loop) && it@[self.kw_loop.spec_index()] == "loop"@
        &&& it.holds(self.kw_in) && it@[self.kw_in.spec_index()] == "in"@
        &&& it.holds(self.times) && it@[self.times.spec_index()] == "times"@
        &&& it.holds(self.kw_or) && it@[self.kw_or.spec_index()] == "or"@
        &&& it.holds(self.kw_and) && it@[self.kw_and.spec_index()] == "and"@
        &&& it.holds(self.kw_not) && it@[self.kw_not.spec_index()] == "not"@
    }

    /// Keyword handles stay valid while the interner grows.
    pub proof fn lemma_wf_monotone(&self, a: Interner, b: Interner)
        requires
            self.wf(a),
            a@.len() <= b@.len(),
            forall|i: int| 0 <= i < a@.len() ==> b@[i] == a@[i],
        ensures
            self.wf(b),
    {
    }

    pub fn new(interner: &mut Interner) -> (k: Keywords)
        requires
            old(interner).wf(),
            old(interner).has_room(10),
        ensures
            final(interner).wf(),
            final(interner).interned_from(*old(interner), 10),
            k.wf(*final(interner)),
    {
        let ident = interner.intern("ident");
        let comptime = interner.intern("comptime");
        let kw_if = interner.intern("if");
        let kw_else = interner.intern("else");
        let kw_loop = interner.intern("loop");
        let kw_in = interner.intern("in");
        let times = interner.intern("times");
        let kw_or = interner.intern("or");
        let kw_and = interner.intern("and");
        let kw_not = interner.intern("not");
        Keywords { ident, comptime, kw_if, kw_else, kw_loop, kw_in, times, kw_or, kw_and, kw_not }
    }
}

} // verus!
