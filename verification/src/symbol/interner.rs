use super::Symbol;
use vstd::prelude::*;

verus! {

/// Deduplicating string storage. Each distinct text is stored once and
/// addressed by the `Symbol` handle carrying its index; entries are
/// never removed, so handles stay valid for the interner's lifetime.
pub struct Interner {
    pub strings: Vec<String>,
}

impl View for Interner {
    type V = Seq<Seq<char>>;

    open spec fn view(&self) -> Seq<Seq<char>> {
        Seq::new(self.strings@.len() as nat, |i: int| self.strings@[i]@)
    }
}

impl Interner {
    /// No text is stored twice.
    pub open spec fn wf(&self) -> bool {
        forall|i: int, j: int|
            0 <= i < j < self@.len() ==> #[trigger] self@[i] != #[trigger] self@[j]
    }

    /// There is room to intern `n` more strings without running out of
    /// handle indices.
    pub open spec fn has_room(&self, n: int) -> bool {
        self@.len() + n <= u32::MAX
    }

    /// `sym` addresses an entry of this interner.
    pub open spec fn holds(&self, sym: Symbol) -> bool {
        0 <= sym.spec_index() < self@.len()
    }

    pub open spec fn contains_str(&self, s: Seq<char>) -> bool {
        exists|i: int| 0 <= i < self@.len() && self@[i] == s
    }

    /// This interner came out of `old` by interning at most `budget`
    /// strings: old entries are untouched.
    pub open spec fn interned_from(&self, old: Interner, budget: int) -> bool {
        &&& old@.len() <= self@.len() <= old@.len() + budget
        &&& forall|i: int| 0 <= i < old@.len() ==> self@[i] == old@[i]
    }

    /// Two entries holding the same text are the same entry.
    pub proof fn lemma_index_unique(&self, i: int, j: int)
        requires
            self.wf(),
            0 <= i < self@.len(),
            0 <= j < self@.len(),
            self@[i] == self@[j],
        ensures
            i == j,
    {
    }

    pub fn new() -> (r: Self)
        ensures
            r@.len() == 0,
            r.wf(),
    {
        Self { strings: Vec::new() }
    }

    /// Stores `str` if it is not yet present and returns the handle of
    /// its unique entry. Interning the same text twice yields the same
    /// handle.
    pub fn intern(&mut self, str: &str) -> (sym: Symbol)
        requires
            old(self).wf(),
            old(self).has_room(1),
        ensures
            final(self).wf(),
            final(self).interned_from(*old(self), 1),
            final(self).holds(sym),
            final(self)@[sym.spec_index()] == str@,
            old(self).contains_str(str@) ==> final(self)@ == old(self)@,
            !old(self).contains_str(str@) ==> final(self)@ == old(self)@.push(str@),
    {
        let owned = str.to_owned();
        let n = self.strings.len();
        let mut i: usize = 0;
        while i < n
            invariant
                i <= n,
                n == self@.len(),
                self == old(self),
                old(self).wf(),
                old(self).has_room(1),
                owned@ == str@,
                forall|j: int| 0 <= j < i ==> self@[j] != str@,
            decreases n - i,
        {
            if self.strings[i] == owned {
                proof {
                    assert(self@ =~= old(self)@);
                    assert(self@[i as int] == str@);
                    assert(old(self).contains_str(str@));
                }
                return Symbol::new(i as u32);
            }
            i = i + 1;
        }
        self.strings.push(owned);
        proof {
            assert(self@ =~= old(self)@.push(str@));
        }
        Symbol::new(n as u32)
    }

    /// The text of the entry addressed by `sym`.
    pub fn resolve<'a>(&'a self, sym: Symbol) -> (r: &'a str)
        requires
            self.holds(sym),
        ensures
            r@ == self@[sym.spec_index()],
    {
        self.strings[sym.index() as usize].as_str()
    }
}

} // verus!
