use vstd::prelude::*;
use vstd::string::*;
use crate::parse::lexer::symbols::Symbols;
use crate::parse::lexer::token_kind::TokenKind;
use crate::symbol::interner::{quoted, Interner};
use crate::symbol::name::Symbol;

verus! {

/// What the parser expected or found, for its messages.
#[derive(Debug, Clone, Copy, PartialEq, Eq, Structural, Hash)]
pub enum TokenType {
    Token(TokenKind),
    Keyword(Symbol),
    AssignmentOp,
    UnaryOp,
    BinaryOp,
    Identifier,
    Path,
    Typename,
    Literal,
    Eof,
}

impl TokenType {
    /// The words with which a message names this: a token by the name of
    /// its kind and a keyword by itself, both between backquotes.
    pub open spec fn spec_describe(self, table: Seq<Seq<char>>, symbols: &Symbols) -> Seq<char> {
        match self {
            TokenType::Token(kind) => quoted(
                table,
                symbols.spec_get(kind.spec_name_index() as int),
            ),
            TokenType::Keyword(keyword) => quoted(table, keyword),
            TokenType::AssignmentOp => "an assignment operator"@,
            TokenType::UnaryOp => "an unary operator"@,
            TokenType::BinaryOp => "a binary operator"@,
            TokenType::Identifier => "identifier"@,
            TokenType::Path => "path"@,
            TokenType::Typename => "typename"@,
            TokenType::Literal => "a literal"@,
            TokenType::Eof => "eof"@,
        }
    }

    pub fn describe(self, interner: &Interner, symbols: &Symbols) -> (r: String)
        ensures
            r@ == self.spec_describe(interner@, symbols),
    {
        match self {
            TokenType::Token(kind) => interner.display(kind.into_symbol(symbols)),
            TokenType::Keyword(keyword) => interner.display(keyword),
            TokenType::AssignmentOp => String::from_str("an assignment operator"),
            TokenType::UnaryOp => String::from_str("an unary operator"),
            TokenType::BinaryOp => String::from_str("a binary operator"),
            TokenType::Identifier => String::from_str("identifier"),
            TokenType::Path => String::from_str("path"),
            TokenType::Typename => String::from_str("typename"),
            TokenType::Literal => String::from_str("a literal"),
            TokenType::Eof => String::from_str("eof"),
        }
    }
}

} // verus!
