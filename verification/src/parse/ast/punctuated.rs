use vstd::prelude::*;
use crate::parse::lexer::token::Token;

verus! {

pub const PUNCTUATION_KIND_COMMA: u8 = 0;

pub const PUNCTUATION_KIND_PATH_SEP: u8 = 1;

#[derive(Debug, Clone, Copy, PartialEq, Eq, Structural, Hash)]
pub enum PunctuationKind {
    Comma,
    PathSep,
}

/// A list whose items are separated by one kind of punctuation.
#[derive(Debug, Hash)]
pub struct Punctuated<T, const KIND: u8> {
    pub items: Vec<PunctuatedItem<T>>,
}

/// One item of a punctuated list, with the punctuation after it if any.
#[derive(Debug, Hash)]
pub enum PunctuatedItem<T> {
    Punctuated { item: T, punctuation: Token },
    NotPunctuated { item: T },
}

impl<T> PunctuatedItem<T> {
    /// The item, with or without punctuation after it.
    pub open spec fn spec_item(self) -> T {
        match self {
            PunctuatedItem::Punctuated { item, .. } => item,
            PunctuatedItem::NotPunctuated { item } => item,
        }
    }

    pub fn into_item(self) -> (r: T)
        ensures
            r == self.spec_item(),
    {
        match self {
            PunctuatedItem::Punctuated { item, .. } => item,
            PunctuatedItem::NotPunctuated { item } => item,
        }
    }

    pub fn item(&self) -> (r: &T)
        ensures
            *r == self.spec_item(),
    {
        match self {
            PunctuatedItem::Punctuated { item, .. } => item,
            PunctuatedItem::NotPunctuated { item } => item,
        }
    }
}

} // verus!
