mod interner;
mod symbol;

pub use interner::Interner;
pub use symbol::Symbol;

use vstd::prelude::*;

verus! {

impl Symbol {
    /// Interns `str`, returning its stable handle. The same text always
    /// yields the same handle.
    pub fn from_str(interner: &mut Interner, str: &str) -> (sym: Symbol)
        requires
            old(interner).wf(),
            old(interner).has_room(1),
        ensures
            final(interner).wf(),
            final(interner).interned_from(*old(interner), 1),
            final(interner).holds(sym),
            final(interner)@[sym.spec_index()] == str@,
    {
        interner.intern(str)
    }

    /// The text this handle was interned from.
    pub fn to_str<'a>(self, interner: &'a Interner) -> (r: &'a str)
        requires
            interner.wf(),
            interner.holds(self),
        ensures
            r@ == interner@[self.spec_index()],
    {
        interner.resolve(self)
    }
}

} // verus!
