use vstd::prelude::*;
use crate::parse::lexer::token_literal_kind::TokenLiteralKind;
use crate::symbol::Symbol;

verus! {

/// A literal token: its kind, its text without the suffix, and the suffix.
#[derive(Debug, Clone, Copy, PartialEq, Eq, Structural, Hash)]
pub struct TokenLiteral {
    pub kind: TokenLiteralKind,
    pub content: Symbol,
    pub suffix: Option<Symbol>,
}

impl TokenLiteral {
    pub fn new(kind: TokenLiteralKind, content: Symbol, suffix: Option<Symbol>) -> (r: Self)
        ensures
            r == (TokenLiteral { kind, content, suffix }),
    {
        Self { kind, content, suffix }
    }
}

} // verus!
