use super::NodeId;
use vstd::prelude::*;

verus! {

/// Mints the node identities of one parse, counting up from one. The
/// counter saturates at the type's cap instead of wrapping, so a minted
/// identity is never zero and never reused below the cap.
#[derive(Debug, Clone, Hash)]
pub struct NodeIdAllocator {
    pub next_id: u32,
}

impl NodeIdAllocator {
    pub fn new() -> (r: Self)
        ensures
            r.next_id == 0,
    {
        Self { next_id: 0 }
    }

    pub fn allocate(&mut self) -> (r: NodeId)
        ensures
            old(self).next_id < u32::MAX ==> final(self).next_id == old(self).next_id + 1,
            old(self).next_id == u32::MAX ==> final(self).next_id == old(self).next_id,
            r.spec_get() == final(self).next_id,
            r.spec_get() >= 1,
    {
        if self.next_id < u32::MAX {
            self.next_id = self.next_id + 1;
        }
        NodeId::new(self.next_id)
    }
}

} // verus!
