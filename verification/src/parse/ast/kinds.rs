use vstd::prelude::*;
use crate::parse::ast::tree::Id;
use crate::parse::lexer::token::Token;
use crate::parse::lexer::token_kind::TokenKind;
use crate::parse::lexer::token_literal::TokenLiteral;

verus! {

/// The kinds `acc` and after them the kind of `token`.
pub open spec fn token_onto(acc: Seq<TokenKind>, token: Token) -> Seq<TokenKind> {
    acc.push(token.kind)
}

/// The kinds `acc` and after them the kind of the token of the name `id`.
pub open spec fn id_onto(acc: Seq<TokenKind>, id: Id) -> Seq<TokenKind> {
    acc.push(TokenKind::Id { symbol: id.symbol })
}

/// The kinds `acc` and after them the kind of the token of `literal`.
pub open spec fn literal_onto(acc: Seq<TokenKind>, literal: TokenLiteral) -> Seq<TokenKind> {
    acc.push(TokenKind::Literal(literal))
}

/// The kinds `acc` and after them the kind of `token`, if there is one.
pub open spec fn opt_token_onto(acc: Seq<TokenKind>, token: Option<Token>) -> Seq<TokenKind> {
    match token {
        Some(token) => token_onto(acc, token),
        None => acc,
    }
}

/// The kinds `acc` and after them the kind of the token of the name `id`,
/// if there is one.
pub open spec fn opt_id_onto(acc: Seq<TokenKind>, id: Option<Id>) -> Seq<TokenKind> {
    match id {
        Some(id) => id_onto(acc, id),
        None => acc,
    }
}

/// The kinds `acc` and after them the kind of the token of `literal`, if
/// there is one.
pub open spec fn opt_literal_onto(acc: Seq<TokenKind>, literal: Option<TokenLiteral>) -> Seq<
    TokenKind,
> {
    match literal {
        Some(literal) => literal_onto(acc, literal),
        None => acc,
    }
}

} // verus!
