use vstd::prelude::*;
use crate::parse::ast::node_id::NodeId;

verus! {

/// Hands out node identities 1, 2, 3, ... in turn.
#[derive(Debug, Clone, Hash)]
pub struct NodeIdAllocator {
    next_id: u64,
}

impl View for NodeIdAllocator {
    type V = u64;

    /// The number of identities handed out so far.
    closed spec fn view(&self) -> u64 {
        self.next_id
    }
}

impl NodeIdAllocator {
    pub fn new() -> (r: Self)
        ensures
            r@ == 0,
    {
        Self { next_id: 0 }
    }

    /// The next identity: one more than the last. Each is larger than all
    /// before it, so no identity is handed out twice.
    pub fn allocate(&mut self) -> (r: NodeId)
        requires
            old(self)@ < u64::MAX,
        ensures
            final(self)@ == old(self)@ + 1,
            r@ == old(self)@ + 1,
    {
        self.next_id += 1;
        NodeId::new(self.next_id)
    }

    /// The next identity, or `None`, and no change, when all identities
    /// were handed out.
    pub fn try_allocate(&mut self) -> (r: Option<NodeId>)
        ensures
            match r {
                Some(id) => old(self)@ < u64::MAX && final(self)@ == old(self)@ + 1 && id@
                    == old(self)@ + 1,
                None => old(self)@ == u64::MAX && final(self)@ == old(self)@,
            },
    {
        if self.next_id == u64::MAX {
            None
        } else {
            Some(self.allocate())
        }
    }
}

} // verus!
