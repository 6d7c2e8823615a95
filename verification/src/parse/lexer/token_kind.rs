use vstd::prelude::*;
use crate::parse::lexer::token_literal::TokenLiteral;
use crate::parse::lexer::symbols::{
    Symbols, ADD, ARROW, ASSIGN, ASSIGN_ADD, ASSIGN_BIT_AND, ASSIGN_BIT_OR, ASSIGN_BIT_XOR, ASSIGN_DIV, ASSIGN_MOD, ASSIGN_MUL, ASSIGN_POW, ASSIGN_SHL, ASSIGN_SHR, ASSIGN_SUB, BIT_AND, BIT_NOT, BIT_OR, BIT_XOR, CLOSE_BRACE, CLOSE_BRACKET, CLOSE_PAREN, COLON, COMMA, COMMENT, DIV, DOT, EQ, GE, GT, ID, LE, LITERAL, LOG_AND, LOG_NOT, LOG_OR, LT, MOD, MUL, NE, OPEN_BRACE, OPEN_BRACKET, OPEN_PAREN, PATH_SEP, POW, RNG, RNG_INCLUSIVE, SEMICOLON, SHL, SHR, SUB, UNKNOWN, WHITESPACE,
};
use crate::symbol::Symbol;

verus! {

#[derive(Debug, Clone, Copy, PartialEq, Eq, Structural, Hash)]
pub enum TokenKind {
    Unknown { symbol: Symbol },
    Whitespace,
    Comment,      // "#"
    OpenParen,    // "("
    CloseParen,   // ")"
    OpenBrace,    // "{"
    CloseBrace,   // "}"
    OpenBracket,  // "["
    CloseBracket, // "]"
    Dot,          // "."
    Comma,        // ","
    Colon,        // ":"
    Semicolon,    // ";"
    Arrow,        // "->"
    // Assignment operators
    Assign,       // "="
    AssignAdd,    // "+="
    AssignSub,    // "-="
    AssignMul,    // "*="
    AssignDiv,    // "/="
    AssignMod,    // "%="
    AssignPow,    // "**="
    AssignShl,    // "<<="
    AssignShr,    // ">>="
    AssignBitOr,  // "|="
    AssignBitAnd, // "&="
    AssignBitXor, // "^="
    // Range operators
    Rng,          // ".."
    RngInclusive, // "..="
    // Cmp operators
    Eq, // "=="
    Ne, // "!="
    Lt, // "<"
    Gt, // ">"
    Le, // "<="
    Ge, // ">="
    // Binary operators
    Add,    // "+"
    Sub,    // "-"
    Mul,    // "*"
    Div,    // "/"
    Mod,    // "%"
    Pow,    // "**"
    Shl,    // "<<"
    Shr,    // ">>"
    BitOr,  // "|"
    BitAnd, // "&"
    BitXor, // "^"
    LogOr,  // "||"
    LogAnd, // "&&"
    // Unary operators
    BitNot, // "~"
    LogNot, // "!"
    // Module access operators
    PathSep, // "::"
    Id { symbol: Symbol },
    Literal(TokenLiteral),
}

impl TokenKind {
    /// The place, among the well-known names, of the name under which
    /// messages show a token of this kind.
    pub open spec fn spec_name_index(self) -> usize {
        match self {
            TokenKind::Unknown { .. } => UNKNOWN,
            TokenKind::Whitespace => WHITESPACE,
            TokenKind::Comment => COMMENT,
            TokenKind::OpenParen => OPEN_PAREN,
            TokenKind::CloseParen => CLOSE_PAREN,
            TokenKind::OpenBrace => OPEN_BRACE,
            TokenKind::CloseBrace => CLOSE_BRACE,
            TokenKind::OpenBracket => OPEN_BRACKET,
            TokenKind::CloseBracket => CLOSE_BRACKET,
            TokenKind::Dot => DOT,
            TokenKind::Comma => COMMA,
            TokenKind::Colon => COLON,
            TokenKind::Semicolon => SEMICOLON,
            TokenKind::Arrow => ARROW,
            TokenKind::Assign => ASSIGN,
            TokenKind::AssignAdd => ASSIGN_ADD,
            TokenKind::AssignSub => ASSIGN_SUB,
            TokenKind::AssignMul => ASSIGN_MUL,
            TokenKind::AssignDiv => ASSIGN_DIV,
            TokenKind::AssignMod => ASSIGN_MOD,
            TokenKind::AssignPow => ASSIGN_POW,
            TokenKind::AssignShl => ASSIGN_SHL,
            TokenKind::AssignShr => ASSIGN_SHR,
            TokenKind::AssignBitOr => ASSIGN_BIT_OR,
            TokenKind::AssignBitAnd => ASSIGN_BIT_AND,
            TokenKind::AssignBitXor => ASSIGN_BIT_XOR,
            TokenKind::Rng => RNG,
            TokenKind::RngInclusive => RNG_INCLUSIVE,
            TokenKind::Eq => EQ,
            TokenKind::Ne => NE,
            TokenKind::Lt => LT,
            TokenKind::Gt => GT,
            TokenKind::Le => LE,
            TokenKind::Ge => GE,
            TokenKind::Add => ADD,
            TokenKind::Sub => SUB,
            TokenKind::Mul => MUL,
            TokenKind::Div => DIV,
            TokenKind::Mod => MOD,
            TokenKind::Pow => POW,
            TokenKind::Shl => SHL,
            TokenKind::Shr => SHR,
            TokenKind::BitOr => BIT_OR,
            TokenKind::BitAnd => BIT_AND,
            TokenKind::BitXor => BIT_XOR,
            TokenKind::LogOr => LOG_OR,
            TokenKind::LogAnd => LOG_AND,
            TokenKind::BitNot => BIT_NOT,
            TokenKind::LogNot => LOG_NOT,
            TokenKind::PathSep => PATH_SEP,
            TokenKind::Id { .. } => ID,
            TokenKind::Literal(..) => LITERAL,
        }
    }

    /// The symbol of the name under which messages show a token of this
    /// kind.
    pub fn into_symbol(self, symbols: &Symbols) -> (r: Symbol)
        ensures
            r == symbols.spec_get(self.spec_name_index() as int),
    {
        let index = match self {
            TokenKind::Unknown { .. } => UNKNOWN,
            TokenKind::Whitespace => WHITESPACE,
            TokenKind::Comment => COMMENT,
            TokenKind::OpenParen => OPEN_PAREN,
            TokenKind::CloseParen => CLOSE_PAREN,
            TokenKind::OpenBrace => OPEN_BRACE,
            TokenKind::CloseBrace => CLOSE_BRACE,
            TokenKind::OpenBracket => OPEN_BRACKET,
            TokenKind::CloseBracket => CLOSE_BRACKET,
            TokenKind::Dot => DOT,
            TokenKind::Comma => COMMA,
            TokenKind::Colon => COLON,
            TokenKind::Semicolon => SEMICOLON,
            TokenKind::Arrow => ARROW,
            TokenKind::Assign => ASSIGN,
            TokenKind::AssignAdd => ASSIGN_ADD,
            TokenKind::AssignSub => ASSIGN_SUB,
            TokenKind::AssignMul => ASSIGN_MUL,
            TokenKind::AssignDiv => ASSIGN_DIV,
            TokenKind::AssignMod => ASSIGN_MOD,
            TokenKind::AssignPow => ASSIGN_POW,
            TokenKind::AssignShl => ASSIGN_SHL,
            TokenKind::AssignShr => ASSIGN_SHR,
            TokenKind::AssignBitOr => ASSIGN_BIT_OR,
            TokenKind::AssignBitAnd => ASSIGN_BIT_AND,
            TokenKind::AssignBitXor => ASSIGN_BIT_XOR,
            TokenKind::Rng => RNG,
            TokenKind::RngInclusive => RNG_INCLUSIVE,
            TokenKind::Eq => EQ,
            TokenKind::Ne => NE,
            TokenKind::Lt => LT,
            TokenKind::Gt => GT,
            TokenKind::Le => LE,
            TokenKind::Ge => GE,
            TokenKind::Add => ADD,
            TokenKind::Sub => SUB,
            TokenKind::Mul => MUL,
            TokenKind::Div => DIV,
            TokenKind::Mod => MOD,
            TokenKind::Pow => POW,
            TokenKind::Shl => SHL,
            TokenKind::Shr => SHR,
            TokenKind::BitOr => BIT_OR,
            TokenKind::BitAnd => BIT_AND,
            TokenKind::BitXor => BIT_XOR,
            TokenKind::LogOr => LOG_OR,
            TokenKind::LogAnd => LOG_AND,
            TokenKind::BitNot => BIT_NOT,
            TokenKind::LogNot => LOG_NOT,
            TokenKind::PathSep => PATH_SEP,
            TokenKind::Id { .. } => ID,
            TokenKind::Literal(..) => LITERAL,
        };
        symbols.get(index)
    }
}

} // verus!
