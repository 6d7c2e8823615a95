use vstd::prelude::*;
use vstd::string::*;
use crate::parse::lexer::symbols::Symbols;
use crate::parse::lexer::token_kind::TokenKind;
use crate::parse::lexer::token_literal_kind::TokenLiteralKind;
use crate::parse::token_type::TokenType;
use crate::symbol::interner::Interner;

verus! {

/// The place of a token kind among the token kinds.
pub open spec fn spec_kind_rank(kind: TokenKind) -> int {
    match kind {
        TokenKind::Unknown { .. } => 0,
        TokenKind::Whitespace => 1,
        TokenKind::Comment => 2,
        TokenKind::OpenParen => 3,
        TokenKind::CloseParen => 4,
        TokenKind::OpenBrace => 5,
        TokenKind::CloseBrace => 6,
        TokenKind::OpenBracket => 7,
        TokenKind::CloseBracket => 8,
        TokenKind::Dot => 9,
        TokenKind::Comma => 10,
        TokenKind::Colon => 11,
        TokenKind::Semicolon => 12,
        TokenKind::Arrow => 13,
        TokenKind::Assign => 14,
        TokenKind::AssignAdd => 15,
        TokenKind::AssignSub => 16,
        TokenKind::AssignMul => 17,
        TokenKind::AssignDiv => 18,
        TokenKind::AssignMod => 19,
        TokenKind::AssignPow => 20,
        TokenKind::AssignShl => 21,
        TokenKind::AssignShr => 22,
        TokenKind::AssignBitOr => 23,
        TokenKind::AssignBitAnd => 24,
        TokenKind::AssignBitXor => 25,
        TokenKind::Rng => 26,
        TokenKind::RngInclusive => 27,
        TokenKind::Eq => 28,
        TokenKind::Ne => 29,
        TokenKind::Lt => 30,
        TokenKind::Gt => 31,
        TokenKind::Le => 32,
        TokenKind::Ge => 33,
        TokenKind::Add => 34,
        TokenKind::Sub => 35,
        TokenKind::Mul => 36,
        TokenKind::Div => 37,
        TokenKind::Mod => 38,
        TokenKind::Pow => 39,
        TokenKind::Shl => 40,
        TokenKind::Shr => 41,
        TokenKind::BitOr => 42,
        TokenKind::BitAnd => 43,
        TokenKind::BitXor => 44,
        TokenKind::LogOr => 45,
        TokenKind::LogAnd => 46,
        TokenKind::BitNot => 47,
        TokenKind::LogNot => 48,
        TokenKind::PathSep => 49,
        TokenKind::Id { .. } => 50,
        TokenKind::Literal(..) => 51,
    }
}

fn kind_rank(kind: TokenKind) -> (r: u64)
    ensures
        r == spec_kind_rank(kind),
{
    match kind {
        TokenKind::Unknown { .. } => 0,
        TokenKind::Whitespace => 1,
        TokenKind::Comment => 2,
        TokenKind::OpenParen => 3,
        TokenKind::CloseParen => 4,
        TokenKind::OpenBrace => 5,
        TokenKind::CloseBrace => 6,
        TokenKind::OpenBracket => 7,
        TokenKind::CloseBracket => 8,
        TokenKind::Dot => 9,
        TokenKind::Comma => 10,
        TokenKind::Colon => 11,
        TokenKind::Semicolon => 12,
        TokenKind::Arrow => 13,
        TokenKind::Assign => 14,
        TokenKind::AssignAdd => 15,
        TokenKind::AssignSub => 16,
        TokenKind::AssignMul => 17,
        TokenKind::AssignDiv => 18,
        TokenKind::AssignMod => 19,
        TokenKind::AssignPow => 20,
        TokenKind::AssignShl => 21,
        TokenKind::AssignShr => 22,
        TokenKind::AssignBitOr => 23,
        TokenKind::AssignBitAnd => 24,
        TokenKind::AssignBitXor => 25,
        TokenKind::Rng => 26,
        TokenKind::RngInclusive => 27,
        TokenKind::Eq => 28,
        TokenKind::Ne => 29,
        TokenKind::Lt => 30,
        TokenKind::Gt => 31,
        TokenKind::Le => 32,
        TokenKind::Ge => 33,
        TokenKind::Add => 34,
        TokenKind::Sub => 35,
        TokenKind::Mul => 36,
        TokenKind::Div => 37,
        TokenKind::Mod => 38,
        TokenKind::Pow => 39,
        TokenKind::Shl => 40,
        TokenKind::Shr => 41,
        TokenKind::BitOr => 42,
        TokenKind::BitAnd => 43,
        TokenKind::BitXor => 44,
        TokenKind::LogOr => 45,
        TokenKind::LogAnd => 46,
        TokenKind::BitNot => 47,
        TokenKind::LogNot => 48,
        TokenKind::PathSep => 49,
        TokenKind::Id { .. } => 50,
        TokenKind::Literal(..) => 51,
    }
}

/// The place of a literal kind among the literal kinds, and whether a
/// literal of it is terminated.
pub open spec fn spec_literal_rank(kind: TokenLiteralKind) -> (int, int) {
    match kind {
        TokenLiteralKind::Bool => (0, 0),
        TokenLiteralKind::IntegerBinary => (1, 0),
        TokenLiteralKind::IntegerOctal => (2, 0),
        TokenLiteralKind::IntegerHexadecimal => (3, 0),
        TokenLiteralKind::IntegerDecimal => (4, 0),
        TokenLiteralKind::Float => (5, 0),
        TokenLiteralKind::Character { terminated } => (6, if terminated { 1 } else { 0 }),
        TokenLiteralKind::String { terminated } => (7, if terminated { 1 } else { 0 }),
    }
}

fn literal_rank(kind: TokenLiteralKind) -> (r: (u64, u64))
    ensures
        (r.0 as int, r.1 as int) == spec_literal_rank(kind),
{
    match kind {
        TokenLiteralKind::Bool => (0, 0),
        TokenLiteralKind::IntegerBinary => (1, 0),
        TokenLiteralKind::IntegerOctal => (2, 0),
        TokenLiteralKind::IntegerHexadecimal => (3, 0),
        TokenLiteralKind::IntegerDecimal => (4, 0),
        TokenLiteralKind::Float => (5, 0),
        TokenLiteralKind::Character { terminated } => (6, if terminated { 1 } else { 0 }),
        TokenLiteralKind::String { terminated } => (7, if terminated { 1 } else { 0 }),
    }
}

/// The numbers by which what the parser expects is put in order: the kind
/// of thing, then for a token its kind and what it carries, and for a
/// keyword its symbol.
pub open spec fn sort_key(expected: TokenType) -> Seq<int> {
    match expected {
        TokenType::Token(kind) => match kind {
            TokenKind::Unknown { symbol } => seq![0, 0, symbol.0 as int, 0, 0, 0, 0],
            TokenKind::Id { symbol } => seq![0, 50, symbol.0 as int, 0, 0, 0, 0],
            TokenKind::Literal(literal) => seq![
                0,
                51,
                spec_literal_rank(literal.kind).0,
                spec_literal_rank(literal.kind).1,
                literal.content.0 as int,
                if literal.suffix.is_some() {
                    1
                } else {
                    0
                },
                match literal.suffix {
                    Some(suffix) => suffix.0 as int,
                    None => 0,
                },
            ],
            _ => seq![0, spec_kind_rank(kind), 0, 0, 0, 0, 0],
        },
        TokenType::Keyword(symbol) => seq![1, symbol.0 as int, 0, 0, 0, 0, 0],
        TokenType::AssignmentOp => seq![2, 0, 0, 0, 0, 0, 0],
        TokenType::UnaryOp => seq![3, 0, 0, 0, 0, 0, 0],
        TokenType::BinaryOp => seq![4, 0, 0, 0, 0, 0, 0],
        TokenType::Identifier => seq![5, 0, 0, 0, 0, 0, 0],
        TokenType::Path => seq![6, 0, 0, 0, 0, 0, 0],
        TokenType::Typename => seq![7, 0, 0, 0, 0, 0, 0],
        TokenType::Literal => seq![8, 0, 0, 0, 0, 0, 0],
        TokenType::Eof => seq![9, 0, 0, 0, 0, 0, 0],
    }
}

/// Whether the key `a` comes before the key `b`, from the place `from` on.
pub open spec fn key_before(a: Seq<int>, b: Seq<int>, from: int) -> bool
    decreases 7 - from,
{
    if from < 0 || from >= 7 {
        false
    } else if a[from] != b[from] {
        a[from] < b[from]
    } else {
        key_before(a, b, from + 1)
    }
}

/// Whether `a` comes before `b` in the order of what the parser expects.
pub open spec fn precedes(a: TokenType, b: TokenType) -> bool {
    key_before(sort_key(a), sort_key(b), 0)
}

fn key_of(expected: TokenType) -> (r: [u64; 7])
    ensures
        forall|i: int| 0 <= i < 7 ==> r@[i] as int == #[trigger] sort_key(expected)[i],
{
    match expected {
        TokenType::Token(kind) => match kind {
            TokenKind::Unknown { symbol } => [0, 0, symbol.0 as u64, 0, 0, 0, 0],
            TokenKind::Id { symbol } => [0, 50, symbol.0 as u64, 0, 0, 0, 0],
            TokenKind::Literal(literal) => {
                let rank = literal_rank(literal.kind);
                let suffix = match literal.suffix {
                    Some(suffix) => (1u64, suffix.0 as u64),
                    None => (0u64, 0u64),
                };
                [0, 51, rank.0, rank.1, literal.content.0 as u64, suffix.0, suffix.1]
            },
            _ => [0, kind_rank(kind), 0, 0, 0, 0, 0],
        },
        TokenType::Keyword(symbol) => [1, symbol.0 as u64, 0, 0, 0, 0, 0],
        TokenType::AssignmentOp => [2, 0, 0, 0, 0, 0, 0],
        TokenType::UnaryOp => [3, 0, 0, 0, 0, 0, 0],
        TokenType::BinaryOp => [4, 0, 0, 0, 0, 0, 0],
        TokenType::Identifier => [5, 0, 0, 0, 0, 0, 0],
        TokenType::Path => [6, 0, 0, 0, 0, 0, 0],
        TokenType::Typename => [7, 0, 0, 0, 0, 0, 0],
        TokenType::Literal => [8, 0, 0, 0, 0, 0, 0],
        TokenType::Eof => [9, 0, 0, 0, 0, 0, 0],
    }
}

/// Whether `a` comes before `b`.
pub fn comes_before(a: TokenType, b: TokenType) -> (r: bool)
    ensures
        r == precedes(a, b),
{
    let ka = key_of(a);
    let kb = key_of(b);
    let mut i: usize = 0;
    while i < 7
        invariant
            i <= 7,
            forall|k: int| 0 <= k < 7 ==> ka@[k] as int == #[trigger] sort_key(a)[k],
            forall|k: int| 0 <= k < 7 ==> kb@[k] as int == #[trigger] sort_key(b)[k],
            key_before(sort_key(a), sort_key(b), i as int) == precedes(a, b),
        decreases 7 - i,
    {
        if ka[i] != kb[i] {
            assert(sort_key(a)[i as int] == ka@[i as int] as int);
            assert(sort_key(b)[i as int] == kb@[i as int] as int);
            return ka[i] < kb[i];
        }
        assert(sort_key(a)[i as int] == ka@[i as int] as int);
        assert(sort_key(b)[i as int] == kb@[i as int] as int);
        i += 1;
    }
    false
}

/// The first place, from `from` on, whose entry does not come before
/// `expected`.
pub open spec fn insert_place(sorted: Seq<TokenType>, expected: TokenType, from: int) -> int
    decreases sorted.len() - from,
{
    if 0 <= from < sorted.len() && precedes(sorted[from], expected) {
        insert_place(sorted, expected, from + 1)
    } else {
        from
    }
}

/// The list `sorted` with `expected` put in its place, unless it is there.
pub open spec fn inserted(sorted: Seq<TokenType>, expected: TokenType) -> Seq<TokenType> {
    let place = insert_place(sorted, expected, 0);
    if 0 <= place < sorted.len() && sorted[place] == expected {
        sorted
    } else {
        sorted.insert(place, expected)
    }
}

/// The first `upto` of `expected`, in order and each once.
pub open spec fn in_order_once(expected: Seq<TokenType>, upto: int) -> Seq<TokenType>
    decreases upto,
{
    if upto <= 0 {
        Seq::empty()
    } else {
        inserted(in_order_once(expected, upto - 1), expected[upto - 1])
    }
}

/// An entry finds its place in the list.
pub proof fn lemma_insert_place(sorted: Seq<TokenType>, expected: TokenType, from: int)
    requires
        0 <= from <= sorted.len(),
    ensures
        from <= insert_place(sorted, expected, from) <= sorted.len(),
    decreases sorted.len() - from,
{
    if from < sorted.len() && precedes(sorted[from], expected) {
        lemma_insert_place(sorted, expected, from + 1);
    }
}

/// What the parser expects, in order and each once.
pub fn sort_expected(expected: &Vec<TokenType>) -> (r: Vec<TokenType>)
    ensures
        r@ == in_order_once(expected@, expected@.len() as int),
{
    let mut sorted: Vec<TokenType> = Vec::new();
    let mut i: usize = 0;
    while i < expected.len()
        invariant
            i <= expected@.len(),
            sorted@ == in_order_once(expected@, i as int),
        decreases expected@.len() - i,
    {
        let item = expected[i];
        let mut place: usize = 0;
        while place < sorted.len() && comes_before(sorted[place], item)
            invariant
                place <= sorted@.len(),
                insert_place(sorted@, item, place as int) == insert_place(sorted@, item, 0),
            decreases sorted@.len() - place,
        {
            place += 1;
        }
        if place < sorted.len() && sorted[place] == item {
        } else {
            sorted.insert(place, item);
        }
        i += 1;
    }
    sorted
}

/// The first `upto` of `list`, in words, with commas between them.
pub open spec fn listed(
    table: Seq<Seq<char>>,
    symbols: &Symbols,
    list: Seq<TokenType>,
    upto: int,
) -> Seq<char>
    decreases upto,
{
    if upto <= 0 {
        Seq::empty()
    } else if upto == 1 {
        list[0].spec_describe(table, symbols)
    } else {
        listed(table, symbols, list, upto - 1) + ", "@ + list[upto - 1].spec_describe(
            table,
            symbols,
        )
    }
}

/// What was found, in words.
pub open spec fn found_text(table: Seq<Seq<char>>, symbols: &Symbols, found: TokenType) -> Seq<
    char,
> {
    if found is Eof {
        found.spec_describe(table, symbols) + " reached"@
    } else {
        "found "@ + found.spec_describe(table, symbols)
    }
}

/// The message for a token other than those that were expected: it names
/// what was expected, in order and each once, and what was found.
pub open spec fn expected_but_found(
    table: Seq<Seq<char>>,
    symbols: &Symbols,
    expected: Seq<TokenType>,
    found: TokenType,
) -> Seq<char> {
    let sorted = in_order_once(expected, expected.len() as int);
    if sorted.len() >= 2 {
        listed(table, symbols, sorted, sorted.len() - 1) + " or "@ + sorted.last().spec_describe(
            table,
            symbols,
        ) + " expected, but "@ + found_text(table, symbols, found)
    } else if sorted.len() == 1 {
        sorted.last().spec_describe(table, symbols) + " expected, but "@ + found_text(
            table,
            symbols,
            found,
        )
    } else if found is Eof {
        "unexpected "@ + found.spec_describe(table, symbols) + " reached"@
    } else {
        "unexpected "@ + found.spec_describe(table, symbols) + " found"@
    }
}

pub fn make_expected_but_found_err(
    interner: &Interner,
    symbols: &Symbols,
    expected: &Vec<TokenType>,
    found: TokenType,
) -> (r: String)
    ensures
        r@ == expected_but_found(interner@, symbols, expected@, found),
{
    let sorted = sort_expected(expected);
    let is_eof = match found {
        TokenType::Eof => true,
        _ => false,
    };
    if sorted.len() == 0 {
        let mut r = String::from_str("unexpected ");
        r.append(found.describe(interner, symbols).as_str());
        if is_eof {
            r.append(" reached");
        } else {
            r.append(" found");
        }
        return r;
    }
    let mut r = String::new();
    let last = sorted.len() - 1;
    let mut i: usize = 0;
    assert(r@ =~= listed(interner@, symbols, sorted@, 0));
    while i < last
        invariant
            i <= last < sorted@.len(),
            r@ == listed(interner@, symbols, sorted@, i as int),
        decreases last - i,
    {
        if i > 0 {
            r.append(", ");
        }
        r.append(sorted[i].describe(interner, symbols).as_str());
        proof {
            if i == 0 {
                assert(r@ =~= sorted@[0].spec_describe(interner@, symbols));
            }
        }
        i += 1;
    }
    if last > 0 {
        r.append(" or ");
    }
    r.append(sorted[last].describe(interner, symbols).as_str());
    r.append(" expected, but ");
    if is_eof {
        r.append(found.describe(interner, symbols).as_str());
        r.append(" reached");
    } else {
        r.append("found ");
        r.append(found.describe(interner, symbols).as_str());
    }
    proof {
        let ghost_found = found_text(interner@, symbols, found);
        if last == 0 {
            assert(r@ =~= sorted@.last().spec_describe(interner@, symbols) + " expected, but "@
                + ghost_found);
        } else {
            assert(r@ =~= listed(interner@, symbols, sorted@, sorted@.len() - 1) + " or "@
                + sorted@.last().spec_describe(interner@, symbols) + " expected, but "@
                + ghost_found);
        }
    }
    r
}

} // verus!
