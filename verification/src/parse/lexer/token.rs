use vstd::prelude::*;
use std::collections::VecDeque;
use crate::parse::lexer::token_kind::TokenKind;
use crate::span::pos::Pos;
use crate::span::span_range::Span;

verus! {

/// A token: what it is and where it stands.
#[derive(Debug, Clone, Copy, PartialEq, Eq, Structural, Hash)]
pub struct Token {
    pub span: Span,
    pub kind: TokenKind,
}

/// The kind that two tokens make together, where they stand side by side
/// and make one token.
pub open spec fn glued_kind(first: TokenKind, second: TokenKind) -> Option<TokenKind> {
    match (first, second) {
        (TokenKind::Colon, TokenKind::Colon) => Some(TokenKind::PathSep),
        (TokenKind::Dot, TokenKind::Dot) => Some(TokenKind::Rng),
        (TokenKind::Rng, TokenKind::Assign) => Some(TokenKind::RngInclusive),
        (TokenKind::Assign, TokenKind::Assign) => Some(TokenKind::Eq),
        (TokenKind::Lt, TokenKind::Assign) => Some(TokenKind::Le),
        (TokenKind::Lt, TokenKind::Lt) => Some(TokenKind::Shl),
        (TokenKind::Gt, TokenKind::Assign) => Some(TokenKind::Ge),
        (TokenKind::Gt, TokenKind::Gt) => Some(TokenKind::Shr),
        (TokenKind::Add, TokenKind::Assign) => Some(TokenKind::AssignAdd),
        (TokenKind::Sub, TokenKind::Assign) => Some(TokenKind::AssignSub),
        (TokenKind::Sub, TokenKind::Gt) => Some(TokenKind::Arrow),
        (TokenKind::Mul, TokenKind::Mul) => Some(TokenKind::Pow),
        (TokenKind::Mul, TokenKind::Assign) => Some(TokenKind::AssignMul),
        (TokenKind::Div, TokenKind::Assign) => Some(TokenKind::AssignDiv),
        (TokenKind::Mod, TokenKind::Assign) => Some(TokenKind::AssignMod),
        (TokenKind::Pow, TokenKind::Assign) => Some(TokenKind::AssignPow),
        (TokenKind::Shl, TokenKind::Assign) => Some(TokenKind::AssignShl),
        (TokenKind::Shr, TokenKind::Assign) => Some(TokenKind::AssignShr),
        (TokenKind::BitOr, TokenKind::Assign) => Some(TokenKind::AssignBitOr),
        (TokenKind::BitOr, TokenKind::BitOr) => Some(TokenKind::LogOr),
        (TokenKind::BitAnd, TokenKind::Assign) => Some(TokenKind::AssignBitAnd),
        (TokenKind::BitAnd, TokenKind::BitAnd) => Some(TokenKind::LogAnd),
        (TokenKind::BitXor, TokenKind::Assign) => Some(TokenKind::AssignBitXor),
        (TokenKind::LogNot, TokenKind::Assign) => Some(TokenKind::Ne),
        _ => None,
    }
}

/// The kinds of the tokens of one character each of which a glued token
/// is made. A token that is not glued is made of itself.
pub open spec fn unglued_kinds(kind: TokenKind) -> Seq<TokenKind> {
    match kind {
        TokenKind::Arrow => seq![TokenKind::Sub, TokenKind::Gt],
        TokenKind::AssignAdd => seq![TokenKind::Add, TokenKind::Assign],
        TokenKind::AssignSub => seq![TokenKind::Sub, TokenKind::Assign],
        TokenKind::AssignMul => seq![TokenKind::Mul, TokenKind::Assign],
        TokenKind::AssignDiv => seq![TokenKind::Div, TokenKind::Assign],
        TokenKind::AssignMod => seq![TokenKind::Mod, TokenKind::Assign],
        TokenKind::AssignPow => seq![TokenKind::Mul, TokenKind::Mul, TokenKind::Assign],
        TokenKind::AssignShl => seq![TokenKind::Lt, TokenKind::Lt, TokenKind::Assign],
        TokenKind::AssignShr => seq![TokenKind::Gt, TokenKind::Gt, TokenKind::Assign],
        TokenKind::AssignBitOr => seq![TokenKind::BitOr, TokenKind::Assign],
        TokenKind::AssignBitAnd => seq![TokenKind::BitAnd, TokenKind::Assign],
        TokenKind::AssignBitXor => seq![TokenKind::BitXor, TokenKind::Assign],
        TokenKind::Rng => seq![TokenKind::Dot, TokenKind::Dot],
        TokenKind::RngInclusive => seq![TokenKind::Dot, TokenKind::Dot, TokenKind::Assign],
        TokenKind::Eq => seq![TokenKind::Assign, TokenKind::Assign],
        TokenKind::Ne => seq![TokenKind::LogNot, TokenKind::Assign],
        TokenKind::Le => seq![TokenKind::Lt, TokenKind::Assign],
        TokenKind::Ge => seq![TokenKind::Gt, TokenKind::Assign],
        TokenKind::Pow => seq![TokenKind::Mul, TokenKind::Mul],
        TokenKind::Shl => seq![TokenKind::Lt, TokenKind::Lt],
        TokenKind::Shr => seq![TokenKind::Gt, TokenKind::Gt],
        TokenKind::LogOr => seq![TokenKind::BitOr, TokenKind::BitOr],
        TokenKind::LogAnd => seq![TokenKind::BitAnd, TokenKind::BitAnd],
        TokenKind::PathSep => seq![TokenKind::Colon, TokenKind::Colon],
        _ => seq![kind],
    }
}

/// Whether a token of this kind is glued from tokens of one character.
pub open spec fn is_glued(kind: TokenKind) -> bool {
    unglued_kinds(kind).len() > 1
}

impl Token {
    /// The tokens of which this token is made: the token itself if it is
    /// not glued, and else one token for each of its characters.
    pub open spec fn spec_unglued(self) -> Seq<Token> {
        if is_glued(self.kind) {
            Seq::new(
                unglued_kinds(self.kind).len(),
                |i: int|
                    Token {
                        span: Span {
                            low: Pos((self.span.low.0 + i) as u32),
                            high: Pos((self.span.low.0 + i + 1) as u32),
                        },
                        kind: unglued_kinds(self.kind)[i],
                    },
            )
        } else {
            seq![self]
        }
    }

    /// The token that this token and `next` make together, if they make one.
    pub open spec fn spec_glue(self, next: Token) -> Option<Token> {
        match glued_kind(self.kind, next.kind) {
            Some(kind) => Some(
                Token { span: Span { low: self.span.low, high: next.span.high }, kind },
            ),
            None => None,
        }
    }

    pub fn new(span: Span, kind: TokenKind) -> (r: Self)
        ensures
            r == (Token { span, kind }),
    {
        Self { span, kind }
    }

    /// Glues this token and the token `next`, which stands after it, if
    /// the two make one token.
    pub fn glue(&self, next: &Self) -> (r: Option<Self>)
        requires
            self.span.low.0 <= next.span.high.0,
        ensures
            r == self.spec_glue(*next),
    {
        let kind = match (self.kind, next.kind) {
            (TokenKind::Colon, TokenKind::Colon) => TokenKind::PathSep,
            (TokenKind::Dot, TokenKind::Dot) => TokenKind::Rng,
            (TokenKind::Rng, TokenKind::Assign) => TokenKind::RngInclusive,
            (TokenKind::Assign, TokenKind::Assign) => TokenKind::Eq,
            (TokenKind::Lt, TokenKind::Assign) => TokenKind::Le,
            (TokenKind::Lt, TokenKind::Lt) => TokenKind::Shl,
            (TokenKind::Gt, TokenKind::Assign) => TokenKind::Ge,
            (TokenKind::Gt, TokenKind::Gt) => TokenKind::Shr,
            (TokenKind::Add, TokenKind::Assign) => TokenKind::AssignAdd,
            (TokenKind::Sub, TokenKind::Assign) => TokenKind::AssignSub,
            (TokenKind::Sub, TokenKind::Gt) => TokenKind::Arrow,
            (TokenKind::Mul, TokenKind::Mul) => TokenKind::Pow,
            (TokenKind::Mul, TokenKind::Assign) => TokenKind::AssignMul,
            (TokenKind::Div, TokenKind::Assign) => TokenKind::AssignDiv,
            (TokenKind::Mod, TokenKind::Assign) => TokenKind::AssignMod,
            (TokenKind::Pow, TokenKind::Assign) => TokenKind::AssignPow,
            (TokenKind::Shl, TokenKind::Assign) => TokenKind::AssignShl,
            (TokenKind::Shr, TokenKind::Assign) => TokenKind::AssignShr,
            (TokenKind::BitOr, TokenKind::Assign) => TokenKind::AssignBitOr,
            (TokenKind::BitOr, TokenKind::BitOr) => TokenKind::LogOr,
            (TokenKind::BitAnd, TokenKind::Assign) => TokenKind::AssignBitAnd,
            (TokenKind::BitAnd, TokenKind::BitAnd) => TokenKind::LogAnd,
            (TokenKind::BitXor, TokenKind::Assign) => TokenKind::AssignBitXor,
            (TokenKind::LogNot, TokenKind::Assign) => TokenKind::Ne,
            _ => {
                return None;
            },
        };
        Some(Token::new(self.span.to(next.span), kind))
    }

    fn parts(kind: TokenKind) -> (r: Option<(TokenKind, TokenKind, Option<TokenKind>)>)
        ensures
            match r {
                Some((first, second, Some(third))) => unglued_kinds(kind) == seq![
                    first,
                    second,
                    third,
                ],
                Some((first, second, None)) => unglued_kinds(kind) == seq![first, second],
                None => unglued_kinds(kind) == seq![kind],
            },
    {
        match kind {
            TokenKind::Arrow => Some((TokenKind::Sub, TokenKind::Gt, None)),
            TokenKind::AssignAdd => Some((TokenKind::Add, TokenKind::Assign, None)),
            TokenKind::AssignSub => Some((TokenKind::Sub, TokenKind::Assign, None)),
            TokenKind::AssignMul => Some((TokenKind::Mul, TokenKind::Assign, None)),
            TokenKind::AssignDiv => Some((TokenKind::Div, TokenKind::Assign, None)),
            TokenKind::AssignMod => Some((TokenKind::Mod, TokenKind::Assign, None)),
            TokenKind::AssignPow => Some(
                (TokenKind::Mul, TokenKind::Mul, Some(TokenKind::Assign)),
            ),
            TokenKind::AssignShl => Some((TokenKind::Lt, TokenKind::Lt, Some(TokenKind::Assign))),
            TokenKind::AssignShr => Some((TokenKind::Gt, TokenKind::Gt, Some(TokenKind::Assign))),
            TokenKind::AssignBitOr => Some((TokenKind::BitOr, TokenKind::Assign, None)),
            TokenKind::AssignBitAnd => Some((TokenKind::BitAnd, TokenKind::Assign, None)),
            TokenKind::AssignBitXor => Some((TokenKind::BitXor, TokenKind::Assign, None)),
            TokenKind::Rng => Some((TokenKind::Dot, TokenKind::Dot, None)),
            TokenKind::RngInclusive => Some(
                (TokenKind::Dot, TokenKind::Dot, Some(TokenKind::Assign)),
            ),
            TokenKind::Eq => Some((TokenKind::Assign, TokenKind::Assign, None)),
            TokenKind::Ne => Some((TokenKind::LogNot, TokenKind::Assign, None)),
            TokenKind::Le => Some((TokenKind::Lt, TokenKind::Assign, None)),
            TokenKind::Ge => Some((TokenKind::Gt, TokenKind::Assign, None)),
            TokenKind::Pow => Some((TokenKind::Mul, TokenKind::Mul, None)),
            TokenKind::Shl => Some((TokenKind::Lt, TokenKind::Lt, None)),
            TokenKind::Shr => Some((TokenKind::Gt, TokenKind::Gt, None)),
            TokenKind::LogOr => Some((TokenKind::BitOr, TokenKind::BitOr, None)),
            TokenKind::LogAnd => Some((TokenKind::BitAnd, TokenKind::BitAnd, None)),
            TokenKind::PathSep => Some((TokenKind::Colon, TokenKind::Colon, None)),
            _ => None,
        }
    }

    /// Appends the tokens of which this token is made to `unglued_tokens`:
    /// the token itself if it is not glued, and else a token for each of
    /// its characters.
    pub fn unglue(self, unglued_tokens: &mut VecDeque<Self>)
        requires
            is_glued(self.kind) ==> self.span.low.0 + unglued_kinds(self.kind).len() <= u32::MAX,
        ensures
            final(unglued_tokens)@ == old(unglued_tokens)@ + self.spec_unglued(),
    {
        let ghost before = unglued_tokens@;
        let low = self.span.low.0;
        match Self::parts(self.kind) {
            Some((first, second, third)) => {
                unglued_tokens.push_back(
                    Token { span: Span { low: Pos(low), high: Pos(low + 1) }, kind: first },
                );
                unglued_tokens.push_back(
                    Token { span: Span { low: Pos(low + 1), high: Pos(low + 2) }, kind: second },
                );
                match third {
                    Some(third) => {
                        unglued_tokens.push_back(
                            Token {
                                span: Span { low: Pos(low + 2), high: Pos(low + 3) },
                                kind: third,
                            },
                        );
                    },
                    None => {},
                }
                assert(unglued_tokens@ =~= before + self.spec_unglued());
            },
            None => {
                unglued_tokens.push_back(self);
                assert(unglued_tokens@ =~= before + self.spec_unglued());
            },
        }
    }
}

/// Ungluing is the inverse of gluing: a token that two tokens of one
/// character make together is made of these two.
pub proof fn lemma_unglue_inverts_glue(first: Token, second: Token)
    requires
        !is_glued(first.kind),
        !is_glued(second.kind),
        first.spec_glue(second).is_some(),
    ensures
        unglued_kinds(first.spec_glue(second)->0.kind) == seq![first.kind, second.kind],
{
}

} // verus!
