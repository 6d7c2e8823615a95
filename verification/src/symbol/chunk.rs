use vstd::prelude::*;

verus! {

/// A block of bytes that is handed out piece by piece, front to back.
pub struct Chunk {
    data: Vec<u8>,
    used: usize,
}

impl Chunk {
    #[verifier::type_invariant]
    spec fn inv(self) -> bool {
        self.used <= self.data@.len()
    }

    /// The number of bytes handed out.
    pub closed spec fn spec_len(&self) -> nat {
        self.used as nat
    }

    /// The number of bytes of the block.
    pub closed spec fn spec_capacity(&self) -> nat {
        self.data@.len()
    }

    pub fn with_capacity(capacity: usize) -> (r: Self)
        ensures
            r.spec_len() == 0,
            r.spec_capacity() == capacity,
    {
        Self { data: vec![0u8; capacity], used: 0 }
    }

    pub fn len(&self) -> (r: usize)
        ensures
            r == self.spec_len(),
            r <= self.spec_capacity(),
    {
        proof {
            use_type_invariant(self);
        }
        self.used
    }

    pub fn capacity(&self) -> (r: usize)
        ensures
            r == self.spec_capacity(),
    {
        self.data.len()
    }

    /// The number of bytes that are left to hand out.
    pub fn remain(&self) -> (r: usize)
        ensures
            r == self.spec_capacity() - self.spec_len(),
    {
        proof {
            use_type_invariant(self);
        }
        self.data.len() - self.used
    }

    /// Hands out the next `size` bytes and returns where they start, or
    /// `None`, and no change, where fewer than `size` bytes are left.
    pub fn allocate(&mut self, size: usize) -> (r: Option<usize>)
        ensures
            final(self).spec_capacity() == old(self).spec_capacity(),
            match r {
                Some(offset) => {
                    &&& size <= old(self).spec_capacity() - old(self).spec_len()
                    &&& offset == old(self).spec_len()
                    &&& final(self).spec_len() == old(self).spec_len() + size
                },
                None => {
                    &&& size > old(self).spec_capacity() - old(self).spec_len()
                    &&& final(self).spec_len() == old(self).spec_len()
                },
            },
    {
        proof {
            use_type_invariant(&*self);
        }
        if self.data.len() - self.used < size {
            return None;
        }
        let offset = self.used;
        self.used = self.used + size;
        Some(offset)
    }
}

} // verus!
