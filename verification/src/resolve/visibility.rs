use vstd::prelude::*;

verus! {

/// Who may name an item: `Private` items only from their own source file.
#[derive(Debug, Clone, Copy, PartialEq, Eq, Structural, Hash)]
pub enum Visibility {
    Public,
    Private,
}

impl Visibility {
    /// The visibility that a `pub` marker, or its absence, gives.
    pub open spec fn spec_from_pub(is_pub: bool) -> Visibility {
        if is_pub {
            Visibility::Public
        } else {
            Visibility::Private
        }
    }

    pub fn from_pub(is_pub: bool) -> (r: Visibility)
        ensures
            r == Self::spec_from_pub(is_pub),
    {
        if is_pub {
            Visibility::Public
        } else {
            Visibility::Private
        }
    }
}

} // verus!
