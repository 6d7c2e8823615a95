use vstd::prelude::*;
use vstd::std_specs::convert::FromSpecImpl;
use crate::symbol::interner::{text_of, Interner};

verus! {

/// A handle for an interned string. Two symbols of one interner are equal
/// exactly when their strings are.
#[derive(Debug, Clone, Copy, PartialEq, Eq, PartialOrd, Ord, Structural, Hash)]
pub struct Symbol(pub u32);

impl Symbol {
    pub fn new(index: u32) -> (r: Self)
        ensures
            r.0 == index,
    {
        Self(index)
    }

    pub fn new_const(index: u32) -> (r: Self)
        ensures
            r.0 == index,
    {
        Self(index)
    }

    /// The symbol of `s` in `interner`, interning `s` if need be; `None` when
    /// the interner is full.
    pub fn from_str(interner: &mut Interner, s: &str) -> (r: Option<Symbol>)
        requires
            old(interner).wf(),
        ensures
            final(interner).wf(),
            match r {
                Some(symbol) => {
                    &&& final(interner).knows(symbol)
                    &&& final(interner)@[symbol.0 as int] == s@
                    &&& if exists|i: int| 0 <= i < old(interner)@.len() && old(interner)@[i] == s@ {
                        final(interner)@ == old(interner)@
                    } else {
                        final(interner)@ == old(interner)@.push(s@) && symbol.0 == old(interner)@.len()
                    }
                },
                None => {
                    &&& final(interner)@ == old(interner)@
                    &&& old(interner)@.len() == u32::MAX
                    &&& forall|i: int| 0 <= i < old(interner)@.len() ==> old(interner)@[i] != s@
                },
            },
    {
        interner.intern(s)
    }

    /// The string that this symbol stands for in `interner`.
    pub fn to_str(self, interner: &Interner) -> (r: &str)
        requires
            interner.knows(self),
        ensures
            r@ == interner@[self.0 as int],
            r@ == text_of(interner@, self),
    {
        interner.str(self)
    }

    /// The symbol of the empty string, which every interner holds at index zero.
    pub fn empty() -> (r: Self)
        ensures
            r.0 == 0,
    {
        Self(0)
    }
}

impl From<Symbol> for u32 {
    fn from(symbol: Symbol) -> (r: Self) {
        symbol.0
    }
}

impl FromSpecImpl<Symbol> for u32 {
    open spec fn obeys_from_spec() -> bool {
        true
    }

    open spec fn from_spec(symbol: Symbol) -> Self {
        symbol.0
    }
}

impl From<u32> for Symbol {
    fn from(index: u32) -> (r: Self) {
        Symbol(index)
    }
}

impl FromSpecImpl<u32> for Symbol {
    open spec fn obeys_from_spec() -> bool {
        true
    }

    open spec fn from_spec(index: u32) -> Self {
        Symbol(index)
    }
}

} // verus!
