use vstd::prelude::*;

verus! {

#[derive(Debug, Clone, Copy, PartialEq, Eq, Structural, Hash)]
pub enum LowTokenNumberLiteralKind {
    IntegerBinary,
    IntegerOctal,
    IntegerHexadecimal,
    IntegerDecimal,
    Float,
}

#[derive(Debug, Clone, Copy, PartialEq, Eq, Structural, Hash)]
pub enum LowTokenLiteralKind {
    /// A number, with the byte offset in the token at which its suffix
    /// starts.
    Number { kind: LowTokenNumberLiteralKind, suffix_start: u32 },
    Character { terminated: bool },
    String { terminated: bool },
}

#[derive(Debug, Clone, Copy, PartialEq, Eq, Structural, Hash)]
pub enum LowTokenKind {
    Unknown,
    Whitespace,
    Comment,
    OpenParen,
    CloseParen,
    OpenBrace,
    CloseBrace,
    OpenBracket,
    CloseBracket,
    Dot,
    Comma,
    Colon,
    Semicolon,
    Eq,
    Bang,
    Lt,
    Gt,
    Plus,
    Minus,
    Star,
    Slash,
    Percent,
    Or,
    And,
    Caret,
    Tilde,
    Id,
    Literal { kind: LowTokenLiteralKind },
}

/// A token of the first pass: its kind and its length in bytes.
#[derive(Debug, Clone, Copy, PartialEq, Eq, Structural, Hash)]
pub struct LowToken {
    pub kind: LowTokenKind,
    pub len: u32,
}

impl LowToken {
    pub fn new(kind: LowTokenKind, len: u32) -> (r: Self)
        ensures
            r == (LowToken { kind, len }),
    {
        Self { kind, len }
    }
}

} // verus!
