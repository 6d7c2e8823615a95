use vstd::prelude::*;
use vstd::std_specs::convert::FromSpecImpl;
use vstd::std_specs::ops::{AddSpecImpl, SubSpecImpl};

verus! {

/// A byte offset into the concatenation of all loaded source files.
#[derive(Debug, Clone, Copy, PartialEq, Eq, PartialOrd, Ord, Structural, Hash)]
pub struct Pos(pub u32);

impl Pos {
    pub fn new(pos: u32) -> (r: Self)
        ensures
            r.0 == pos,
    {
        Self(pos)
    }

    pub fn get(self) -> (r: u32)
        ensures
            r == self.0,
    {
        self.0
    }

    /// The position at offset zero.
    pub fn zero() -> (r: Self)
        ensures
            r.0 == 0,
    {
        Self(0)
    }
}

impl From<u32> for Pos {
    fn from(pos: u32) -> (r: Self) {
        Self(pos)
    }
}

impl FromSpecImpl<u32> for Pos {
    open spec fn obeys_from_spec() -> bool {
        true
    }

    open spec fn from_spec(pos: u32) -> Self {
        Pos(pos)
    }
}

impl From<Pos> for u32 {
    fn from(pos: Pos) -> (r: Self) {
        pos.0
    }
}

impl FromSpecImpl<Pos> for u32 {
    open spec fn obeys_from_spec() -> bool {
        true
    }

    open spec fn from_spec(pos: Pos) -> Self {
        pos.0
    }
}

impl core::ops::Add<Pos> for Pos {
    type Output = Pos;

    fn add(self, other: Pos) -> (r: Pos) {
        Pos(self.0 + other.0)
    }
}

impl AddSpecImpl<Pos> for Pos {
    open spec fn obeys_add_spec() -> bool {
        true
    }

    open spec fn add_req(self, other: Pos) -> bool {
        self.0 + other.0 <= u32::MAX
    }

    open spec fn add_spec(self, other: Pos) -> Pos {
        Pos((self.0 + other.0) as u32)
    }
}

impl core::ops::Add<u32> for Pos {
    type Output = Pos;

    fn add(self, other: u32) -> (r: Pos) {
        Pos(self.0 + other)
    }
}

impl AddSpecImpl<u32> for Pos {
    open spec fn obeys_add_spec() -> bool {
        true
    }

    open spec fn add_req(self, other: u32) -> bool {
        self.0 + other <= u32::MAX
    }

    open spec fn add_spec(self, other: u32) -> Pos {
        Pos((self.0 + other) as u32)
    }
}

impl core::ops::Sub<Pos> for Pos {
    type Output = Pos;

    fn sub(self, other: Pos) -> (r: Pos) {
        Pos(self.0 - other.0)
    }
}

impl SubSpecImpl<Pos> for Pos {
    open spec fn obeys_sub_spec() -> bool {
        true
    }

    open spec fn sub_req(self, other: Pos) -> bool {
        other.0 <= self.0
    }

    open spec fn sub_spec(self, other: Pos) -> Pos {
        Pos((self.0 - other.0) as u32)
    }
}

impl core::ops::Sub<u32> for Pos {
    type Output = Pos;

    fn sub(self, other: u32) -> (r: Pos) {
        Pos(self.0 - other)
    }
}

impl SubSpecImpl<u32> for Pos {
    open spec fn obeys_sub_spec() -> bool {
        true
    }

    open spec fn sub_req(self, other: u32) -> bool {
        other <= self.0
    }

    open spec fn sub_spec(self, other: u32) -> Pos {
        Pos((self.0 - other) as u32)
    }
}

} // verus!
