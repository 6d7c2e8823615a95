use vstd::prelude::*;
use vstd::string::*;
use vstd::utf8::*;
use crate::parse::lexer::token::Token;
use crate::parse::lexer::token_kind::TokenKind;
use crate::parse::lexer::token_literal::TokenLiteral;
use crate::parse::lexer::token_literal_kind::TokenLiteralKind;
use crate::parse::low_lexer::chars::{spec_utf8_len, utf8_len};
use crate::parse::low_lexer::low_token::{
    LowToken, LowTokenKind, LowTokenLiteralKind, LowTokenNumberLiteralKind,
};
use crate::span::pos::Pos;
use crate::span::span_range::Span;
use crate::symbol::interner::Interner;
use crate::symbol::name::Symbol;

verus! {

/// `String::push`: appends one character.
#[verifier::external_body]
fn push_char(text: &mut String, c: char)
    ensures
        final(text)@ == old(text)@.push(c),
{
    text.push(c);
}

/// The characters `chars[from..to]` as a string.
pub fn text_of_range(chars: &Vec<char>, from: usize, to: usize) -> (r: String)
    requires
        from <= to <= chars@.len(),
    ensures
        r@ == chars@.subrange(from as int, to as int),
{
    let mut r = String::new();
    let mut i = from;
    assert(r@ =~= chars@.subrange(from as int, from as int));
    while i < to
        invariant
            from <= i <= to <= chars@.len(),
            r@ == chars@.subrange(from as int, i as int),
        decreases to - i,
    {
        push_char(&mut r, chars[i]);
        assert(r@ =~= chars@.subrange(from as int, i + 1));
        i += 1;
    }
    r
}

/// The place, from `from` on and not after `to`, before which the
/// characters have `offset` bytes or more.
pub open spec fn split_index(chars: Seq<char>, from: int, to: int, offset: int) -> int
    decreases to - from,
{
    if from >= to || offset <= 0 {
        from
    } else {
        split_index(chars, from + 1, to, offset - spec_utf8_len(chars[from]))
    }
}

/// A split place lies between the places it was looked for.
pub proof fn lemma_split_index(chars: Seq<char>, from: int, to: int, offset: int)
    requires
        from <= to,
    ensures
        from <= split_index(chars, from, to, offset) <= to,
    decreases to - from,
{
    if from < to && offset > 0 {
        lemma_split_index(chars, from + 1, to, offset - spec_utf8_len(chars[from]));
    }
}

fn find_split(chars: &Vec<char>, from: usize, to: usize, offset: u32) -> (r: usize)
    requires
        from <= to <= chars@.len(),
    ensures
        r == split_index(chars@, from as int, to as int, offset as int),
        from <= r <= to,
{
    proof {
        lemma_split_index(chars@, from as int, to as int, offset as int);
    }
    let mut at = from;
    let mut left = offset;
    while at < to && left > 0
        invariant
            from <= at <= to <= chars@.len(),
            split_index(chars@, at as int, to as int, left as int) == split_index(
                chars@,
                from as int,
                to as int,
                offset as int,
            ),
        decreases to - at,
    {
        let width = utf8_len(chars[at]);
        proof {
            if width > left {
                assert(split_index(chars@, at + 1, to as int, left - width) == at + 1);
            }
        }
        left = if width > left {
            0
        } else {
            left - width
        };
        at += 1;
    }
    at
}

/// Whether `symbol` stands for `text` in `table`.
pub open spec fn names(table: Seq<Seq<char>>, symbol: Symbol, text: Seq<char>) -> bool {
    symbol.0 < table.len() && table[symbol.0 as int] == text
}

/// The kind of a number literal.
pub open spec fn number_kind(kind: LowTokenNumberLiteralKind) -> TokenLiteralKind {
    match kind {
        LowTokenNumberLiteralKind::IntegerBinary => TokenLiteralKind::IntegerBinary,
        LowTokenNumberLiteralKind::IntegerOctal => TokenLiteralKind::IntegerOctal,
        LowTokenNumberLiteralKind::IntegerHexadecimal => TokenLiteralKind::IntegerHexadecimal,
        LowTokenNumberLiteralKind::IntegerDecimal => TokenLiteralKind::IntegerDecimal,
        LowTokenNumberLiteralKind::Float => TokenLiteralKind::Float,
    }
}

/// The kind of a token that carries no text.
pub open spec fn plain_kind(kind: LowTokenKind) -> TokenKind {
    match kind {
        LowTokenKind::Whitespace => TokenKind::Whitespace,
        LowTokenKind::Comment => TokenKind::Comment,
        LowTokenKind::OpenParen => TokenKind::OpenParen,
        LowTokenKind::CloseParen => TokenKind::CloseParen,
        LowTokenKind::OpenBrace => TokenKind::OpenBrace,
        LowTokenKind::CloseBrace => TokenKind::CloseBrace,
        LowTokenKind::OpenBracket => TokenKind::OpenBracket,
        LowTokenKind::CloseBracket => TokenKind::CloseBracket,
        LowTokenKind::Dot => TokenKind::Dot,
        LowTokenKind::Comma => TokenKind::Comma,
        LowTokenKind::Colon => TokenKind::Colon,
        LowTokenKind::Semicolon => TokenKind::Semicolon,
        LowTokenKind::Eq => TokenKind::Assign,
        LowTokenKind::Bang => TokenKind::LogNot,
        LowTokenKind::Lt => TokenKind::Lt,
        LowTokenKind::Gt => TokenKind::Gt,
        LowTokenKind::Plus => TokenKind::Add,
        LowTokenKind::Minus => TokenKind::Sub,
        LowTokenKind::Star => TokenKind::Mul,
        LowTokenKind::Slash => TokenKind::Div,
        LowTokenKind::Percent => TokenKind::Mod,
        LowTokenKind::Or => TokenKind::BitOr,
        LowTokenKind::And => TokenKind::BitAnd,
        LowTokenKind::Caret => TokenKind::BitXor,
        _ => TokenKind::BitNot,
    }
}

/// Whether `result` is what the token of kind `kind` over `chars[start..end]`
/// becomes, with its text as symbols of `table`.
///
/// An unknown character and a name carry their text, but the names `true`
/// and `false` are boolean literals. A number literal carries its text
/// before the suffix, and its suffix if it has one. A character or string
/// literal carries its whole text. All other tokens carry nothing.
pub open spec fn converted(
    table: Seq<Seq<char>>,
    chars: Seq<char>,
    start: int,
    end: int,
    kind: LowTokenKind,
    result: TokenKind,
) -> bool {
    let text = chars.subrange(start, end);
    match kind {
        LowTokenKind::Unknown => result matches TokenKind::Unknown { symbol } && names(
            table,
            symbol,
            text,
        ),
        LowTokenKind::Id => if text == "true"@ || text == "false"@ {
            &&& result matches TokenKind::Literal(literal)
            &&& literal.kind == TokenLiteralKind::Bool
            &&& names(table, literal.content, text)
            &&& literal.suffix.is_none()
        } else {
            result matches TokenKind::Id { symbol } && names(table, symbol, text)
        },
        LowTokenKind::Literal { kind: LowTokenLiteralKind::Number { kind, suffix_start } } => {
            let split = split_index(chars, start, end, suffix_start as int);
            &&& result matches TokenKind::Literal(literal)
            &&& literal.kind == number_kind(kind)
            &&& names(table, literal.content, chars.subrange(start, split))
            &&& if split == end {
                literal.suffix.is_none()
            } else {
                literal.suffix matches Some(suffix) && names(
                    table,
                    suffix,
                    chars.subrange(split, end),
                )
            }
        },
        LowTokenKind::Literal { kind: LowTokenLiteralKind::Character { terminated } } => {
            &&& result matches TokenKind::Literal(literal)
            &&& literal.kind == TokenLiteralKind::Character { terminated }
            &&& names(table, literal.content, text)
            &&& literal.suffix.is_none()
        },
        LowTokenKind::Literal { kind: LowTokenLiteralKind::String { terminated } } => {
            &&& result matches TokenKind::Literal(literal)
            &&& literal.kind == TokenLiteralKind::String { terminated }
            &&& names(table, literal.content, text)
            &&& literal.suffix.is_none()
        },
        _ => result == plain_kind(kind),
    }
}

/// What a token became stays so when the interner grows.
pub proof fn lemma_converted_grows(
    before: Seq<Seq<char>>,
    after: Seq<Seq<char>>,
    chars: Seq<char>,
    start: int,
    end: int,
    kind: LowTokenKind,
    result: TokenKind,
)
    requires
        converted(before, chars, start, end, kind, result),
        before.len() <= after.len(),
        forall|i: int| 0 <= i < before.len() ==> before[i] == after[i],
    ensures
        converted(after, chars, start, end, kind, result),
{
}

/// The interner `after` holds all that `before` holds, at the same places.
pub open spec fn grown(before: Seq<Seq<char>>, after: Seq<Seq<char>>) -> bool {
    before.len() <= after.len() && forall|i: int| 0 <= i < before.len() ==> before[i] == after[i]
}

fn intern_range(interner: &mut Interner, chars: &Vec<char>, from: usize, to: usize) -> (r: Option<
    Symbol,
>)
    requires
        old(interner).wf(),
        from <= to <= chars@.len(),
    ensures
        final(interner).wf(),
        grown(old(interner)@, final(interner)@),
        match r {
            Some(symbol) => names(final(interner)@, symbol, chars@.subrange(from as int, to as int)),
            None => final(interner)@.len() == u32::MAX,
        },
{
    let text = text_of_range(chars, from, to);
    interner.intern(text.as_str())
}

/// Makes the token of kind `token.kind` over `chars[start..end]`, which
/// starts at `low`, and interns its text. `None` when the interner is full.
pub fn convert(
    interner: &mut Interner,
    chars: &Vec<char>,
    start: usize,
    end: usize,
    token: LowToken,
    low: Pos,
) -> (r: Option<Token>)
    requires
        old(interner).wf(),
        start <= end <= chars@.len(),
        low.0 + token.len <= u32::MAX,
    ensures
        final(interner).wf(),
        grown(old(interner)@, final(interner)@),
        match r {
            Some(made) => {
                &&& made.span == (Span { low, high: Pos((low.0 + token.len) as u32) })
                &&& converted(final(interner)@, chars@, start as int, end as int, token.kind, made.kind)
            },
            None => final(interner)@.len() == u32::MAX,
        },
{
    let span = Span { low, high: Pos(low.0 + token.len) };
    let kind = match token.kind {
        LowTokenKind::Unknown => match intern_range(interner, chars, start, end) {
            Some(symbol) => TokenKind::Unknown { symbol },
            None => {
                return None;
            },
        },
        LowTokenKind::Whitespace => TokenKind::Whitespace,
        LowTokenKind::Comment => TokenKind::Comment,
        LowTokenKind::OpenParen => TokenKind::OpenParen,
        LowTokenKind::CloseParen => TokenKind::CloseParen,
        LowTokenKind::OpenBrace => TokenKind::OpenBrace,
        LowTokenKind::CloseBrace => TokenKind::CloseBrace,
        LowTokenKind::OpenBracket => TokenKind::OpenBracket,
        LowTokenKind::CloseBracket => TokenKind::CloseBracket,
        LowTokenKind::Dot => TokenKind::Dot,
        LowTokenKind::Comma => TokenKind::Comma,
        LowTokenKind::Colon => TokenKind::Colon,
        LowTokenKind::Semicolon => TokenKind::Semicolon,
        LowTokenKind::Eq => TokenKind::Assign,
        LowTokenKind::Bang => TokenKind::LogNot,
        LowTokenKind::Lt => TokenKind::Lt,
        LowTokenKind::Gt => TokenKind::Gt,
        LowTokenKind::Plus => TokenKind::Add,
        LowTokenKind::Minus => TokenKind::Sub,
        LowTokenKind::Star => TokenKind::Mul,
        LowTokenKind::Slash => TokenKind::Div,
        LowTokenKind::Percent => TokenKind::Mod,
        LowTokenKind::Or => TokenKind::BitOr,
        LowTokenKind::And => TokenKind::BitAnd,
        LowTokenKind::Caret => TokenKind::BitXor,
        LowTokenKind::Tilde => TokenKind::BitNot,
        LowTokenKind::Id => {
            let text = text_of_range(chars, start, end);
            let is_bool = text == String::from_str("true") || text == String::from_str("false");
            match interner.intern(text.as_str()) {
                Some(symbol) => if is_bool {
                    TokenKind::Literal(TokenLiteral::new(TokenLiteralKind::Bool, symbol, None))
                } else {
                    TokenKind::Id { symbol }
                },
                None => {
                    return None;
                },
            }
        },
        LowTokenKind::Literal { kind } => {
            let literal = match kind {
                LowTokenLiteralKind::Number { kind, suffix_start } => {
                    let split = find_split(chars, start, end, suffix_start);
                    let kind = match kind {
                        LowTokenNumberLiteralKind::IntegerBinary => TokenLiteralKind::IntegerBinary,
                        LowTokenNumberLiteralKind::IntegerOctal => TokenLiteralKind::IntegerOctal,
                        LowTokenNumberLiteralKind::IntegerHexadecimal => {
                            TokenLiteralKind::IntegerHexadecimal
                        },
                        LowTokenNumberLiteralKind::IntegerDecimal => {
                            TokenLiteralKind::IntegerDecimal
                        },
                        LowTokenNumberLiteralKind::Float => TokenLiteralKind::Float,
                    };
                    let content = match intern_range(interner, chars, start, split) {
                        Some(symbol) => symbol,
                        None => {
                            return None;
                        },
                    };
                    let suffix = if split == end {
                        None
                    } else {
                        match intern_range(interner, chars, split, end) {
                            Some(symbol) => Some(symbol),
                            None => {
                                return None;
                            },
                        }
                    };
                    TokenLiteral::new(kind, content, suffix)
                },
                LowTokenLiteralKind::Character { terminated } => {
                    match intern_range(interner, chars, start, end) {
                        Some(symbol) => TokenLiteral::new(
                            TokenLiteralKind::Character { terminated },
                            symbol,
                            None,
                        ),
                        None => {
                            return None;
                        },
                    }
                },
                LowTokenLiteralKind::String { terminated } => {
                    match intern_range(interner, chars, start, end) {
                        Some(symbol) => TokenLiteral::new(
                            TokenLiteralKind::String { terminated },
                            symbol,
                            None,
                        ),
                        None => {
                            return None;
                        },
                    }
                },
            };
            TokenKind::Literal(literal)
        },
    };
    Some(Token::new(span, kind))
}

} // verus!
