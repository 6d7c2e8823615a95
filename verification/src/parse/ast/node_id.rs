use vstd::prelude::*;

verus! {

/// The identity of a syntax tree node: a non-zero number that no other node
/// made by the same allocator has.
#[derive(Debug, Clone, Copy, PartialEq, Eq, PartialOrd, Ord, Structural, Hash)]
pub struct NodeId(u64);

impl View for NodeId {
    type V = u64;

    closed spec fn view(&self) -> u64 {
        self.0
    }
}

impl NodeId {
    pub fn new(id: u64) -> (r: Self)
        requires
            id != 0,
        ensures
            r@ == id,
    {
        Self(id)
    }

    pub fn get(self) -> (r: u64)
        ensures
            r == self@,
    {
        self.0
    }

    /// Two identities with the same number are the same identity.
    pub broadcast proof fn lemma_view_injective(a: NodeId, b: NodeId)
        requires
            #[trigger] a@ == #[trigger] b@,
        ensures
            a == b,
    {
    }
}

} // verus!
