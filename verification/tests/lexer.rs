use exc::diagnostic::{error_codes, DiagnosticsSender};
use exc::parse::ast::{
    ASTExprBinaryOperatorKind, ASTExprUnaryOperatorKind, ASTStmtAssignmentOperatorKind,
};
use exc::parse::grammar::expected::{make_expected_but_found_err, sort_expected};
use exc::parse::lexer::symbols::{KEYWORD_FN, KEYWORD_PUB, KEYWORD_USE};
use exc::parse::lexer::{
    glue_tokens, token_iter, unglued_token_iter, Symbols, Token, TokenKind, TokenLiteral,
    TokenLiteralKind,
};
use exc::parse::low_lexer::{
    chars_of, is_digit, is_id_continue, is_id_start, low_token_iter, utf8_len, Cursor, LowToken,
    LowTokenKind, LowTokenLiteralKind, LowTokenNumberLiteralKind,
};
use exc::parse::token_type::TokenType;
use exc::span::{Pos, SourceMap, Span};
use exc::symbol::{Chunk, Interner, Symbol};
use std::collections::VecDeque;

fn low(input: &str) -> Vec<(LowTokenKind, u32)> {
    low_token_iter(input).unwrap().iter().map(|t| (t.kind, t.len)).collect()
}

fn number(kind: LowTokenNumberLiteralKind, suffix_start: u32) -> LowTokenKind {
    LowTokenKind::Literal { kind: LowTokenLiteralKind::Number { kind, suffix_start } }
}

fn lex(interner: &mut Interner, content: &str) -> Vec<Token> {
    let mut source_map = SourceMap::new();
    let file =
        source_map.add_source_file(content.to_string(), "test.exc".to_string(), None).unwrap();
    token_iter(interner, &file).unwrap()
}

fn kinds(content: &str) -> Vec<TokenKind> {
    let mut interner = Interner::new();
    lex(&mut interner, content)
        .iter()
        .map(|t| t.kind)
        .filter(|k| *k != TokenKind::Whitespace)
        .collect()
}

#[test]
fn low_tokens_cover_the_input() {
    let tokens = low("fn foo(a: i32) {\n  a + 1\n}");
    assert_eq!(
        tokens,
        vec![
            (LowTokenKind::Id, 2),
            (LowTokenKind::Whitespace, 1),
            (LowTokenKind::Id, 3),
            (LowTokenKind::OpenParen, 1),
            (LowTokenKind::Id, 1),
            (LowTokenKind::Colon, 1),
            (LowTokenKind::Whitespace, 1),
            (LowTokenKind::Id, 3),
            (LowTokenKind::CloseParen, 1),
            (LowTokenKind::Whitespace, 1),
            (LowTokenKind::OpenBrace, 1),
            (LowTokenKind::Whitespace, 3),
            (LowTokenKind::Id, 1),
            (LowTokenKind::Whitespace, 1),
            (LowTokenKind::Plus, 1),
            (LowTokenKind::Whitespace, 1),
            (number(LowTokenNumberLiteralKind::IntegerDecimal, 1), 1),
            (LowTokenKind::Whitespace, 1),
            (LowTokenKind::CloseBrace, 1),
        ]
    );
    let total: u32 = tokens.iter().map(|t| t.1).sum();
    assert_eq!(total, 26);
    assert_eq!(low(""), vec![]);
}

#[test]
fn low_punctuation() {
    let kinds: Vec<LowTokenKind> = low("(){}[].,:;=!<>+-*/%|&^~").iter().map(|t| t.0).collect();
    assert_eq!(
        kinds,
        vec![
            LowTokenKind::OpenParen,
            LowTokenKind::CloseParen,
            LowTokenKind::OpenBrace,
            LowTokenKind::CloseBrace,
            LowTokenKind::OpenBracket,
            LowTokenKind::CloseBracket,
            LowTokenKind::Dot,
            LowTokenKind::Comma,
            LowTokenKind::Colon,
            LowTokenKind::Semicolon,
            LowTokenKind::Eq,
            LowTokenKind::Bang,
            LowTokenKind::Lt,
            LowTokenKind::Gt,
            LowTokenKind::Plus,
            LowTokenKind::Minus,
            LowTokenKind::Star,
            LowTokenKind::Slash,
            LowTokenKind::Percent,
            LowTokenKind::Or,
            LowTokenKind::And,
            LowTokenKind::Caret,
            LowTokenKind::Tilde,
        ]
    );
    assert_eq!(low("$"), vec![(LowTokenKind::Unknown, 1)]);
    assert_eq!(low("€"), vec![(LowTokenKind::Unknown, 3)]);
}

#[test]
fn low_numbers() {
    assert_eq!(low("0b101"), vec![(number(LowTokenNumberLiteralKind::IntegerBinary, 5), 5)]);
    assert_eq!(low("0o17"), vec![(number(LowTokenNumberLiteralKind::IntegerOctal, 4), 4)]);
    assert_eq!(low("0xfF"), vec![(number(LowTokenNumberLiteralKind::IntegerHexadecimal, 4), 4)]);
    assert_eq!(low("1234"), vec![(number(LowTokenNumberLiteralKind::IntegerDecimal, 4), 4)]);
    assert_eq!(low("0123"), vec![(number(LowTokenNumberLiteralKind::IntegerDecimal, 4), 4)]);
    assert_eq!(low("0"), vec![(number(LowTokenNumberLiteralKind::IntegerDecimal, 1), 1)]);
    assert_eq!(low("1.5"), vec![(number(LowTokenNumberLiteralKind::Float, 3), 3)]);
    assert_eq!(low("0.25"), vec![(number(LowTokenNumberLiteralKind::Float, 4), 4)]);
    assert_eq!(low("1.5e10"), vec![(number(LowTokenNumberLiteralKind::Float, 6), 6)]);
    assert_eq!(low("1.5E-3"), vec![(number(LowTokenNumberLiteralKind::Float, 6), 6)]);
    assert_eq!(low("1e5"), vec![(number(LowTokenNumberLiteralKind::Float, 3), 3)]);
    assert_eq!(low("1e+5"), vec![(number(LowTokenNumberLiteralKind::Float, 4), 4)]);
    // A prefix without a digit of its radix is a zero with a suffix.
    assert_eq!(low("0b2"), vec![(number(LowTokenNumberLiteralKind::IntegerDecimal, 1), 3)]);
    assert_eq!(low("0x"), vec![(number(LowTokenNumberLiteralKind::IntegerDecimal, 1), 2)]);
    // A dot that no digit follows is a token of its own.
    assert_eq!(
        low("1.x"),
        vec![
            (number(LowTokenNumberLiteralKind::IntegerDecimal, 1), 1),
            (LowTokenKind::Dot, 1),
            (LowTokenKind::Id, 1),
        ]
    );
}

#[test]
fn low_number_suffixes() {
    assert_eq!(low("123u32"), vec![(number(LowTokenNumberLiteralKind::IntegerDecimal, 3), 6)]);
    assert_eq!(low("0xffu8"), vec![(number(LowTokenNumberLiteralKind::IntegerHexadecimal, 4), 6)]);
    assert_eq!(low("1.5f32"), vec![(number(LowTokenNumberLiteralKind::Float, 3), 6)]);
    assert_eq!(low("7_i"), vec![(number(LowTokenNumberLiteralKind::IntegerDecimal, 1), 3)]);
}

#[test]
fn low_characters_and_strings() {
    let character =
        |terminated| LowTokenKind::Literal { kind: LowTokenLiteralKind::Character { terminated } };
    let string =
        |terminated| LowTokenKind::Literal { kind: LowTokenLiteralKind::String { terminated } };
    assert_eq!(low("'a'"), vec![(character(true), 3)]);
    assert_eq!(low("'é'"), vec![(character(true), 4)]);
    assert_eq!(low("'\\n'"), vec![(character(true), 4)]);
    assert_eq!(low("'\\''"), vec![(character(true), 4)]);
    assert_eq!(low("''"), vec![(character(true), 2)]);
    assert_eq!(low("'ab"), vec![(character(false), 2), (LowTokenKind::Id, 1)]);
    assert_eq!(low("\"abc\""), vec![(string(true), 5)]);
    assert_eq!(low("\"a\\\"b\""), vec![(string(true), 6)]);
    assert_eq!(low("\"abc"), vec![(string(false), 4)]);
    assert_eq!(low("\"\""), vec![(string(true), 2)]);
}

#[test]
fn low_comments_end_with_the_line() {
    assert_eq!(
        low("#one\n#two"),
        vec![(LowTokenKind::Comment, 4), (LowTokenKind::Whitespace, 1), (LowTokenKind::Comment, 4)]
    );
    assert_eq!(low("#"), vec![(LowTokenKind::Comment, 1)]);
    assert_eq!(low("a#b c"), vec![(LowTokenKind::Id, 1), (LowTokenKind::Comment, 4)]);
}

#[test]
fn identifiers_follow_unicode() {
    assert_eq!(low("größe"), vec![(LowTokenKind::Id, 7)]);
    assert_eq!(low("名前1"), vec![(LowTokenKind::Id, 7)]);
    assert_eq!(low("_x9"), vec![(LowTokenKind::Id, 3)]);
    // A combining mark continues an identifier and starts none.
    assert_eq!(low("a\u{301}"), vec![(LowTokenKind::Id, 3)]);
    assert_eq!(low("\u{301}a"), vec![(LowTokenKind::Unknown, 2), (LowTokenKind::Id, 1)]);
    assert!(is_id_start('ß'));
    assert!(is_id_start('_'));
    assert!(!is_id_start('1'));
    assert!(!is_id_start('\u{301}'));
    assert!(!is_id_start('€'));
    assert!(is_id_continue('1'));
    assert!(is_id_continue('\u{301}'));
    assert!(!is_id_continue('-'));
    assert!(!is_id_continue('€'));
}

#[test]
fn white_space_follows_unicode() {
    assert_eq!(
        low("a\u{2003}\t\u{a0}b"),
        vec![(LowTokenKind::Id, 1), (LowTokenKind::Whitespace, 6), (LowTokenKind::Id, 1)]
    );
    // A zero width space is no white space.
    assert_eq!(low("\u{200b}"), vec![(LowTokenKind::Unknown, 3)]);
}

#[test]
fn digits_and_encoded_lengths() {
    assert!(is_digit('1', 2));
    assert!(!is_digit('2', 2));
    assert!(is_digit('7', 8));
    assert!(!is_digit('8', 8));
    assert!(is_digit('9', 10));
    assert!(!is_digit('a', 10));
    assert!(is_digit('f', 16));
    assert!(is_digit('F', 16));
    assert!(!is_digit('g', 16));
    assert_eq!(utf8_len('a'), 1);
    assert_eq!(utf8_len('é'), 2);
    assert_eq!(utf8_len('€'), 3);
    assert_eq!(utf8_len('😀'), 4);
    assert_eq!(chars_of("aé€"), vec!['a', 'é', '€']);
}

#[test]
fn cursor_looks_ahead_and_counts_bytes() {
    let chars = chars_of("aé€b");
    let mut cursor = Cursor::new(&chars, 1);
    assert_eq!(cursor.first(), 'é');
    assert_eq!(cursor.second(), '€');
    assert_eq!(cursor.lookup(2), 'b');
    assert_eq!(cursor.lookup(3), '\0');
    assert_eq!(cursor.len_consumed(), 0);
    assert_eq!(cursor.consume(), Some('é'));
    assert_eq!(cursor.len_consumed(), 2);
    assert_eq!(cursor.consume(), Some('€'));
    assert_eq!(cursor.len_consumed(), 5);
    assert_eq!(cursor.position(), 3);
    assert_eq!(cursor.consume(), Some('b'));
    assert_eq!(cursor.consume(), None);
    assert_eq!(cursor.len_consumed(), 6);
    assert_eq!(cursor.first(), '\0');
}

#[test]
fn tokens_are_glued() {
    assert_eq!(
        kinds(":: .. ..= == <= << >= >> += -= -> ** *= /= %= **= <<= >>= |= || &= && ^= !="),
        vec![
            TokenKind::PathSep,
            TokenKind::Rng,
            TokenKind::RngInclusive,
            TokenKind::Eq,
            TokenKind::Le,
            TokenKind::Shl,
            TokenKind::Ge,
            TokenKind::Shr,
            TokenKind::AssignAdd,
            TokenKind::AssignSub,
            TokenKind::Arrow,
            TokenKind::Pow,
            TokenKind::AssignMul,
            TokenKind::AssignDiv,
            TokenKind::AssignMod,
            TokenKind::AssignPow,
            TokenKind::AssignShl,
            TokenKind::AssignShr,
            TokenKind::AssignBitOr,
            TokenKind::LogOr,
            TokenKind::AssignBitAnd,
            TokenKind::LogAnd,
            TokenKind::AssignBitXor,
            TokenKind::Ne,
        ]
    );
    // White space keeps tokens apart.
    assert_eq!(kinds(": :"), vec![TokenKind::Colon, TokenKind::Colon]);
    assert_eq!(kinds("> >="), vec![TokenKind::Gt, TokenKind::Ge]);
    assert_eq!(kinds(":::"), vec![TokenKind::PathSep, TokenKind::Colon]);
    assert_eq!(kinds("==="), vec![TokenKind::Eq, TokenKind::Assign]);
}

#[test]
fn tokens_carry_spans_and_symbols() {
    let mut interner = Interner::new();
    let tokens = lex(&mut interner, "let größe = 0x1fu8;");
    let spans: Vec<(u32, u32)> = tokens.iter().map(|t| (t.span.low.get(), t.span.high.get())).collect();
    assert_eq!(
        spans,
        vec![(0, 3), (3, 4), (4, 11), (11, 12), (12, 13), (13, 14), (14, 20), (20, 21)]
    );
    match tokens[0].kind {
        TokenKind::Id { symbol } => assert_eq!(interner.text(symbol), "let"),
        _ => panic!("identifier expected"),
    }
    assert_eq!(tokens[1].kind, TokenKind::Whitespace);
    match tokens[2].kind {
        TokenKind::Id { symbol } => assert_eq!(interner.text(symbol), "größe"),
        _ => panic!("identifier expected"),
    }
    assert_eq!(tokens[4].kind, TokenKind::Assign);
    match tokens[6].kind {
        TokenKind::Literal(TokenLiteral { kind, content, suffix }) => {
            assert_eq!(kind, TokenLiteralKind::IntegerHexadecimal);
            assert_eq!(interner.text(content), "0x1f");
            assert_eq!(interner.text(suffix.unwrap()), "u8");
        }
        _ => panic!("literal expected"),
    }
    assert_eq!(tokens[7].kind, TokenKind::Semicolon);
}

#[test]
fn literal_tokens() {
    let mut interner = Interner::new();
    let tokens = lex(&mut interner, "true false 12 1.5 'c' \"s\" \"open $");
    let literals: Vec<(TokenLiteralKind, String, Option<String>)> = tokens
        .iter()
        .filter_map(|t| match t.kind {
            TokenKind::Literal(l) => Some((
                l.kind,
                interner.text(l.content).to_string(),
                l.suffix.map(|s| interner.text(s).to_string()),
            )),
            _ => None,
        })
        .collect();
    assert_eq!(
        literals,
        vec![
            (TokenLiteralKind::Bool, "true".to_string(), None),
            (TokenLiteralKind::Bool, "false".to_string(), None),
            (TokenLiteralKind::IntegerDecimal, "12".to_string(), None),
            (TokenLiteralKind::Float, "1.5".to_string(), None),
            (TokenLiteralKind::Character { terminated: true }, "'c'".to_string(), None),
            (TokenLiteralKind::String { terminated: true }, "\"s\"".to_string(), None),
            (TokenLiteralKind::String { terminated: false }, "\"open $".to_string(), None),
        ]
    );
    let unknown = lex(&mut interner, "$");
    match unknown[0].kind {
        TokenKind::Unknown { symbol } => assert_eq!(interner.text(symbol), "$"),
        _ => panic!("unknown token expected"),
    }
}

#[test]
fn gluing_happens_after_conversion() {
    let mut interner = Interner::new();
    let mut source_map = SourceMap::new();
    let file =
        source_map.add_source_file("a>>=b".to_string(), "test.exc".to_string(), None).unwrap();
    let unglued = unglued_token_iter(&mut interner, &file).unwrap();
    let unglued_kinds: Vec<TokenKind> = unglued.iter().map(|t| t.kind).collect();
    assert_eq!(unglued.len(), 5);
    assert_eq!(unglued_kinds[1..4], [TokenKind::Gt, TokenKind::Gt, TokenKind::Assign]);
    let glued = glue_tokens(&unglued);
    assert_eq!(glued.len(), 3);
    assert_eq!(glued[1], Token::new(Span::new(Pos::new(1), Pos::new(4)), TokenKind::AssignShr));
    assert_eq!(glued, token_iter(&mut interner, &file).unwrap());
}

#[test]
fn glue_and_unglue_are_inverse() {
    let at = |low: u32, high: u32, kind| Token::new(Span::new(Pos::new(low), Pos::new(high)), kind);
    let colon_a = at(4, 5, TokenKind::Colon);
    let colon_b = at(5, 6, TokenKind::Colon);
    let path_sep = colon_a.glue(&colon_b).unwrap();
    assert_eq!(path_sep, at(4, 6, TokenKind::PathSep));
    assert_eq!(colon_a.glue(&at(5, 6, TokenKind::Comma)), None);
    assert_eq!(path_sep.glue(&colon_b), None);

    let mut parts = VecDeque::new();
    path_sep.unglue(&mut parts);
    assert_eq!(parts, VecDeque::from(vec![colon_a, colon_b]));

    let mut parts = VecDeque::new();
    at(10, 13, TokenKind::AssignShr).unglue(&mut parts);
    assert_eq!(
        parts,
        VecDeque::from(vec![
            at(10, 11, TokenKind::Gt),
            at(11, 12, TokenKind::Gt),
            at(12, 13, TokenKind::Assign)
        ])
    );

    let mut parts = VecDeque::from(vec![colon_a]);
    at(7, 8, TokenKind::Semicolon).unglue(&mut parts);
    assert_eq!(parts, VecDeque::from(vec![colon_a, at(7, 8, TokenKind::Semicolon)]));
}

#[test]
fn well_known_symbols_have_their_text() {
    let mut interner = Interner::new();
    let symbols = Symbols::new(&mut interner).unwrap();
    assert_eq!(interner.text(symbols.get(KEYWORD_PUB)), "pub");
    assert_eq!(interner.text(symbols.get(KEYWORD_FN)), "fn");
    assert_eq!(interner.text(symbols.get(KEYWORD_USE)), "use");
    assert_eq!(interner.intern("pub"), Some(symbols.get(KEYWORD_PUB)));
    assert_eq!(interner.text(TokenKind::PathSep.into_symbol(&symbols)), "::");
    assert_eq!(interner.text(TokenKind::AssignShr.into_symbol(&symbols)), ">>=");
    assert_eq!(interner.text(TokenKind::OpenBrace.into_symbol(&symbols)), "{");
    // An identifier and a literal are named by their sort, not by their text.
    let name = interner.intern("name").unwrap();
    assert_eq!(interner.text(TokenKind::Id { symbol: name }.into_symbol(&symbols)), "identifier");
    assert_eq!(interner.text(TokenKind::Unknown { symbol: name }.into_symbol(&symbols)), "unknown");
}

#[test]
fn interner_gives_one_symbol_to_one_text() {
    let mut interner = Interner::new();
    assert_eq!(interner.len(), 1);
    assert_eq!(interner.text(Symbol::empty()), "");
    let a = interner.intern("alpha").unwrap();
    let b = interner.intern("beta").unwrap();
    assert_ne!(a, b);
    assert_eq!(interner.intern("alpha"), Some(a));
    assert_eq!(interner.intern(""), Some(Symbol::empty()));
    assert_eq!(interner.len(), 3);
    assert_eq!(interner.lookup("beta"), Some(b));
    assert_eq!(interner.lookup("gamma"), None);
    assert_eq!(interner.len(), 3);
    assert!(interner.contains(b));
    assert!(!interner.contains(Symbol::new(3)));
    assert_eq!(interner.str(a), "alpha");
    assert_eq!(interner.text(Symbol::new(99)), "");
    assert_eq!(interner.display(b), "`beta`");
    assert_eq!(Symbol::from_str(&mut interner, "beta"), Some(b));
    assert_eq!(b.to_str(&interner), "beta");
    assert_eq!(u32::from(b), 2);
    assert_eq!(Symbol::from(2), b);
}

#[test]
fn chunk_hands_out_consecutive_ranges() {
    let mut chunk = Chunk::with_capacity(8);
    assert_eq!(chunk.capacity(), 8);
    assert_eq!(chunk.remain(), 8);
    assert_eq!(chunk.allocate(3), Some(0));
    assert_eq!(chunk.allocate(5), Some(3));
    assert_eq!(chunk.len(), 8);
    assert_eq!(chunk.remain(), 0);
    assert_eq!(chunk.allocate(1), None);
    assert_eq!(chunk.allocate(0), Some(8));
    assert_eq!(chunk.len(), 8);
}

#[test]
fn expected_tokens_are_named_in_order_and_once() {
    let mut interner = Interner::new();
    let symbols = Symbols::new(&mut interner).unwrap();
    let keyword_fn = TokenType::Keyword(symbols.get(KEYWORD_FN));
    let keyword_pub = TokenType::Keyword(symbols.get(KEYWORD_PUB));
    let message = |expected: Vec<TokenType>, found: TokenType| {
        make_expected_but_found_err(&interner, &symbols, &expected, found)
    };
    assert_eq!(
        message(
            vec![
                TokenType::Token(TokenKind::PathSep),
                TokenType::Token(TokenKind::Semicolon),
                TokenType::Token(TokenKind::Lt),
                TokenType::Token(TokenKind::Semicolon),
            ],
            TokenType::Token(TokenKind::Colon)
        ),
        "`;`, `<` or `::` expected, but found `:`"
    );
    assert_eq!(
        message(vec![TokenType::Identifier], TokenType::Eof),
        "identifier expected, but eof reached"
    );
    let in_order = if symbols.get(KEYWORD_PUB).0 < symbols.get(KEYWORD_FN).0 {
        "`pub` or `fn` expected, but found `fn`"
    } else {
        "`fn` or `pub` expected, but found `fn`"
    };
    assert_eq!(message(vec![keyword_fn, keyword_pub], keyword_fn), in_order);
    assert_eq!(message(vec![keyword_pub, keyword_fn, keyword_pub], keyword_fn), in_order);
    assert_eq!(
        message(vec![TokenType::Identifier, keyword_pub, TokenType::Token(TokenKind::Comma)], TokenType::Eof),
        "`,`, `pub` or identifier expected, but eof reached"
    );
    assert_eq!(message(vec![], TokenType::Eof), "unexpected eof reached");
    assert_eq!(message(vec![], TokenType::Token(TokenKind::Comma)), "unexpected `,` found");
    assert_eq!(TokenType::BinaryOp.describe(&interner, &symbols), "a binary operator");
    assert_eq!(TokenType::UnaryOp.describe(&interner, &symbols), "an unary operator");
    assert_eq!(TokenType::AssignmentOp.describe(&interner, &symbols), "an assignment operator");
    assert_eq!(TokenType::Literal.describe(&interner, &symbols), "a literal");
    assert_eq!(keyword_pub.describe(&interner, &symbols), "`pub`");
    assert_eq!(sort_expected(&vec![]), vec![]);
}

#[test]
fn operators_are_told_from_other_tokens() {
    let mut interner = Interner::new();
    let symbols = Symbols::new(&mut interner).unwrap();
    let mut source_map = SourceMap::new();
    let file = source_map.add_source_file("+= ;".to_string(), "t.exc".to_string(), None).unwrap();
    let diagnostics = DiagnosticsSender::new(file.clone());
    let tokens = token_iter(&mut interner, &file).unwrap();
    let (add_assign, semicolon) = (tokens[0], tokens[2]);
    let mut log = Vec::new();

    assert_eq!(
        ASTStmtAssignmentOperatorKind::from_token(&add_assign, &diagnostics, &symbols, &interner, &mut log),
        Ok(ASTStmtAssignmentOperatorKind::Add)
    );
    assert_eq!(
        ASTExprBinaryOperatorKind::from_token(
            &Token::new(add_assign.span, TokenKind::LogAnd),
            &diagnostics,
            &symbols,
            &interner,
            &mut log
        ),
        Ok(ASTExprBinaryOperatorKind::LogAnd)
    );
    assert_eq!(
        ASTExprUnaryOperatorKind::from_token(
            &Token::new(add_assign.span, TokenKind::Mul),
            &diagnostics,
            &symbols,
            &interner,
            &mut log
        ),
        Ok(ASTExprUnaryOperatorKind::Dereference)
    );
    assert_eq!(log.len(), 0);

    assert_eq!(
        ASTStmtAssignmentOperatorKind::from_token(&semicolon, &diagnostics, &symbols, &interner, &mut log),
        Err(())
    );
    assert_eq!(
        ASTExprBinaryOperatorKind::from_token(&add_assign, &diagnostics, &symbols, &interner, &mut log),
        Err(())
    );
    assert_eq!(
        ASTExprUnaryOperatorKind::from_token(&semicolon, &diagnostics, &symbols, &interner, &mut log),
        Err(())
    );
    let reports: Vec<(u32, &str, Span)> =
        log.iter().map(|d| (d.code, d.message.as_str(), d.origin.as_ref().unwrap().span)).collect();
    assert_eq!(
        reports,
        vec![
            (
                error_codes::INVALID_ASSIGNMENT_OPERATOR,
                "`;` is not a valid assignment operator",
                semicolon.span
            ),
            (error_codes::INVALID_BINARY_OPERATOR, "`+=` is not a valid binary operator", add_assign.span),
            (error_codes::INVALID_UNARY_OPERATOR, "`;` is not a valid unary operator", semicolon.span),
        ]
    );
}
