use vstd::prelude::*;
use vstd::string::*;
use vstd::utf8::*;
use crate::parse::low_lexer::chars::{
    byte_len, chars_of, is_digit, is_id_continue, is_id_start, is_whitespace,
    lemma_byte_len_grows, lemma_encoded_byte_len, spec_is_digit, spec_is_id_continue,
    spec_is_id_start, white_space,
};
use crate::parse::low_lexer::cursor::{advance, peek, Cursor};
use crate::parse::low_lexer::low_token::{
    LowToken, LowTokenKind, LowTokenLiteralKind, LowTokenNumberLiteralKind,
};

verus! {

/// A class of characters of which a token takes as many as follow.
#[derive(Debug, Clone, Copy, PartialEq, Eq, Structural, Hash)]
pub enum CharClass {
    Whitespace,
    IdContinue,
    Digit { radix: u32 },
    NotNewline,
}

impl CharClass {
    pub open spec fn spec_holds(self, c: char) -> bool {
        match self {
            CharClass::Whitespace => white_space(c),
            CharClass::IdContinue => spec_is_id_continue(c),
            CharClass::Digit { radix } => spec_is_digit(c, radix),
            CharClass::NotNewline => c != '\n',
        }
    }

    pub fn holds(self, c: char) -> (r: bool)
        ensures
            r == self.spec_holds(c),
    {
        match self {
            CharClass::Whitespace => is_whitespace(c),
            CharClass::IdContinue => is_id_continue(c),
            CharClass::Digit { radix } => is_digit(c, radix),
            CharClass::NotNewline => c != '\n',
        }
    }
}

/// The end of the run of characters of `class` that starts at `from`.
pub open spec fn run_end(chars: Seq<char>, from: int, class: CharClass) -> int
    decreases chars.len() - from,
{
    if 0 <= from < chars.len() && class.spec_holds(chars[from]) {
        run_end(chars, from + 1, class)
    } else {
        from
    }
}

/// A run ends in the text, not before its start.
pub proof fn lemma_run_end(chars: Seq<char>, from: int, class: CharClass)
    requires
        0 <= from <= chars.len(),
    ensures
        from <= run_end(chars, from, class) <= chars.len(),
    decreases chars.len() - from,
{
    if from < chars.len() && class.spec_holds(chars[from]) {
        lemma_run_end(chars, from + 1, class);
    }
}

/// Reads on while the next character is of `class`.
pub fn consume_while(cursor: &mut Cursor, class: CharClass)
    requires
        old(cursor).wf(),
    ensures
        final(cursor).wf(),
        final(cursor).spec_chars() == old(cursor).spec_chars(),
        final(cursor).spec_start() == old(cursor).spec_start(),
        final(cursor).spec_position() == run_end(
            old(cursor).spec_chars(),
            old(cursor).spec_position(),
            class,
        ),
{
    let ghost goal = run_end(cursor.spec_chars(), cursor.spec_position(), class);
    proof {
        cursor.lemma_wf();
    }
    loop
        invariant
            cursor.wf(),
            cursor.spec_chars() == old(cursor).spec_chars(),
            cursor.spec_start() == old(cursor).spec_start(),
            0 <= cursor.spec_position() <= cursor.spec_chars().len(),
            run_end(cursor.spec_chars(), cursor.spec_position(), class) == goal,
        ensures
            cursor.wf(),
            cursor.spec_chars() == old(cursor).spec_chars(),
            cursor.spec_start() == old(cursor).spec_start(),
            cursor.spec_position() == goal,
        decreases cursor.spec_chars().len() - cursor.spec_position(),
    {
        let position = cursor.position();
        let c = cursor.first();
        if !class.holds(c) {
            break ;
        }
        match cursor.consume() {
            Some(_) => {},
            None => {
                break ;
            },
        }
        proof {
            cursor.lemma_wf();
        }
    }
}

/// The kind and the end of the number that starts with the digit `first`
/// before `at`.
///
/// After a leading zero, `b`, `o` or `x` and a digit of that radix make a
/// binary, octal or hexadecimal integer of all digits that follow; digits
/// after a leading zero are taken before the rest is looked at; and a
/// leading zero before anything but a digit, a point or an exponent is a
/// number of its own. The rest is decimal.
pub open spec fn number_end(chars: Seq<char>, at: int, first: char) -> (
    LowTokenNumberLiteralKind,
    int,
) {
    if first == '0' && peek(chars, at) == 'b' && spec_is_digit(peek(chars, at + 1), 2) {
        (
            LowTokenNumberLiteralKind::IntegerBinary,
            run_end(chars, at + 1, CharClass::Digit { radix: 2 }),
        )
    } else if first == '0' && peek(chars, at) == 'o' && spec_is_digit(peek(chars, at + 1), 8) {
        (
            LowTokenNumberLiteralKind::IntegerOctal,
            run_end(chars, at + 1, CharClass::Digit { radix: 8 }),
        )
    } else if first == '0' && peek(chars, at) == 'x' && spec_is_digit(peek(chars, at + 1), 16) {
        (
            LowTokenNumberLiteralKind::IntegerHexadecimal,
            run_end(chars, at + 1, CharClass::Digit { radix: 16 }),
        )
    } else if first == '0' && '0' <= peek(chars, at) <= '9' {
        decimal_end(chars, run_end(chars, at, CharClass::Digit { radix: 10 }))
    } else if first == '0' && peek(chars, at) != '.' && peek(chars, at) != 'e' && peek(chars, at)
        != 'E' {
        (LowTokenNumberLiteralKind::IntegerDecimal, at)
    } else {
        decimal_end(chars, at)
    }
}

/// The kind and the end of the decimal number of which `at` is the place
/// after the first digit, or after the digits behind a leading zero.
///
/// A point with a digit after it makes a float: the digits that follow
/// and an exponent if there is one. An exponent, `e` or `E`, a sign if
/// any, and a digit, makes a float too. Anything else makes an integer of
/// the digits that follow.
pub open spec fn decimal_end(chars: Seq<char>, at: int) -> (LowTokenNumberLiteralKind, int) {
    if peek(chars, at) == '.' && spec_is_digit(peek(chars, at + 1), 10) {
        (
            LowTokenNumberLiteralKind::Float,
            exponent_end(chars, run_end(chars, at + 1, CharClass::Digit { radix: 10 })),
        )
    } else if (peek(chars, at) == 'e' || peek(chars, at) == 'E') && (spec_is_digit(
        peek(chars, at + 1),
        10,
    ) || ((peek(chars, at + 1) == '+' || peek(chars, at + 1) == '-') && spec_is_digit(
        peek(chars, at + 2),
        10,
    ))) {
        (
            LowTokenNumberLiteralKind::Float,
            run_end(
                chars,
                if peek(chars, at + 1) == '+' || peek(chars, at + 1) == '-' {
                    at + 2
                } else {
                    at + 1
                },
                CharClass::Digit { radix: 10 },
            ),
        )
    } else {
        (
            LowTokenNumberLiteralKind::IntegerDecimal,
            run_end(chars, at, CharClass::Digit { radix: 10 }),
        )
    }
}

/// The end of the exponent that may follow the fraction that ends at `at`.
pub open spec fn exponent_end(chars: Seq<char>, at: int) -> int {
    if (peek(chars, at) == 'e' || peek(chars, at) == 'E') && (peek(chars, at + 1) == '+' || peek(
        chars,
        at + 1,
    ) == '-') && spec_is_digit(peek(chars, at + 2), 10) {
        run_end(chars, at + 2, CharClass::Digit { radix: 10 })
    } else if (peek(chars, at) == 'e' || peek(chars, at) == 'E') && spec_is_digit(
        peek(chars, at + 1),
        10,
    ) {
        run_end(chars, at + 1, CharClass::Digit { radix: 10 })
    } else {
        at
    }
}

/// Whether the character literal that opens before `at` is closed, and
/// where it ends. A literal holds one character, or a backslash and one
/// character, and is closed by the quote after that.
pub open spec fn character_end(chars: Seq<char>, at: int) -> (bool, int) {
    if peek(chars, at) != '\\' && peek(chars, at + 1) == '\'' {
        (true, at + 2)
    } else if peek(chars, at) == '\'' {
        (true, at + 1)
    } else {
        let after = if peek(chars, at) == '\\' {
            advance(chars, advance(chars, at))
        } else {
            advance(chars, at)
        };
        if peek(chars, after) == '\'' {
            (true, after + 1)
        } else {
            (false, after)
        }
    }
}

/// Whether the string literal that opens before `at` is closed, and where
/// it ends: at the first double quote that no backslash stands before, or
/// at the end of the text.
pub open spec fn string_end(chars: Seq<char>, at: int) -> (bool, int)
    decreases chars.len() - at,
{
    if at < 0 || at >= chars.len() {
        (false, at)
    } else if chars[at] == '"' {
        (true, at + 1)
    } else if chars[at] == '\\' {
        string_end(chars, advance(chars, at + 1))
    } else {
        string_end(chars, at + 1)
    }
}

/// The token of the first pass that starts at `at`: its kind, the place
/// at which it ends, and for a number the place at which its suffix starts.
pub struct LowScan {
    pub kind: LowTokenKind,
    pub end: int,
}

/// The kind of a token of one character that is neither space, name,
/// number, comment nor literal.
pub open spec fn punctuation(c: char) -> LowTokenKind {
    if c == '(' {
        LowTokenKind::OpenParen
    } else if c == ')' {
        LowTokenKind::CloseParen
    } else if c == '{' {
        LowTokenKind::OpenBrace
    } else if c == '}' {
        LowTokenKind::CloseBrace
    } else if c == '[' {
        LowTokenKind::OpenBracket
    } else if c == ']' {
        LowTokenKind::CloseBracket
    } else if c == '.' {
        LowTokenKind::Dot
    } else if c == ',' {
        LowTokenKind::Comma
    } else if c == ':' {
        LowTokenKind::Colon
    } else if c == ';' {
        LowTokenKind::Semicolon
    } else if c == '=' {
        LowTokenKind::Eq
    } else if c == '!' {
        LowTokenKind::Bang
    } else if c == '<' {
        LowTokenKind::Lt
    } else if c == '>' {
        LowTokenKind::Gt
    } else if c == '+' {
        LowTokenKind::Plus
    } else if c == '-' {
        LowTokenKind::Minus
    } else if c == '*' {
        LowTokenKind::Star
    } else if c == '/' {
        LowTokenKind::Slash
    } else if c == '%' {
        LowTokenKind::Percent
    } else if c == '|' {
        LowTokenKind::Or
    } else if c == '&' {
        LowTokenKind::And
    } else if c == '^' {
        LowTokenKind::Caret
    } else if c == '~' {
        LowTokenKind::Tilde
    } else {
        LowTokenKind::Unknown
    }
}

/// The token that starts at `at`, where the text has a character.
///
/// White space runs as far as it goes, and so does a name, which starts
/// with a name start. A digit starts a number, which takes a suffix with
/// it if a name start follows it. `#` starts a comment that runs to the end
/// of the line. Quotes start literals. Every other character is a token
/// of its own.
pub open spec fn low_scan(chars: Seq<char>, at: int) -> LowScan {
    let c = peek(chars, at);
    if white_space(c) {
        LowScan {
            kind: LowTokenKind::Whitespace,
            end: run_end(chars, at + 1, CharClass::Whitespace),
        }
    } else if spec_is_id_start(c) {
        LowScan { kind: LowTokenKind::Id, end: run_end(chars, at + 1, CharClass::IdContinue) }
    } else if '0' <= c <= '9' {
        let digits = number_end(chars, at + 1, c);
        LowScan {
            kind: LowTokenKind::Literal {
                kind: LowTokenLiteralKind::Number {
                    kind: digits.0,
                    suffix_start: (byte_len(chars, digits.1) - byte_len(chars, at)) as u32,
                },
            },
            end: if spec_is_id_start(peek(chars, digits.1)) {
                run_end(chars, digits.1 + 1, CharClass::IdContinue)
            } else {
                digits.1
            },
        }
    } else if c == '#' {
        LowScan { kind: LowTokenKind::Comment, end: run_end(chars, at + 1, CharClass::NotNewline) }
    } else if c == '\'' {
        LowScan {
            kind: LowTokenKind::Literal {
                kind: LowTokenLiteralKind::Character { terminated: character_end(chars, at + 1).0 },
            },
            end: character_end(chars, at + 1).1,
        }
    } else if c == '"' {
        LowScan {
            kind: LowTokenKind::Literal {
                kind: LowTokenLiteralKind::String { terminated: string_end(chars, at + 1).0 },
            },
            end: string_end(chars, at + 1).1,
        }
    } else {
        LowScan { kind: punctuation(c), end: at + 1 }
    }
}

/// The tokens of the first pass of the text from `at` on, each with the
/// number of its bytes.
pub open spec fn low_scan_all(chars: Seq<char>, at: int) -> Seq<LowToken>
    decreases chars.len() - at,
{
    if at < 0 || at >= chars.len() {
        Seq::empty()
    } else {
        let scan = low_scan(chars, at);
        if scan.end <= at || scan.end > chars.len() {
            Seq::empty()
        } else {
            seq![
                LowToken {
                    kind: scan.kind,
                    len: (byte_len(chars, scan.end) - byte_len(chars, at)) as u32,
                },
            ] + low_scan_all(chars, scan.end)
        }
    }
}

fn consume_literal_number(cursor: &mut Cursor, first_char: char) -> (kind:
    LowTokenNumberLiteralKind)
    requires
        old(cursor).wf(),
    ensures
        final(cursor).wf(),
        final(cursor).spec_chars() == old(cursor).spec_chars(),
        final(cursor).spec_start() == old(cursor).spec_start(),
        (kind, final(cursor).spec_position()) == number_end(
            old(cursor).spec_chars(),
            old(cursor).spec_position(),
            first_char,
        ),
{
    let ghost chars = cursor.spec_chars();
    let ghost at = cursor.spec_position();
    proof {
        cursor.lemma_wf();
    }
    if first_char == '0' {
        let next = cursor.first();
        if next == 'b' && is_digit(cursor.second(), 2) {
            cursor.consume();
            consume_while(cursor, CharClass::Digit { radix: 2 });
            return LowTokenNumberLiteralKind::IntegerBinary;
        } else if next == 'o' && is_digit(cursor.second(), 8) {
            cursor.consume();
            consume_while(cursor, CharClass::Digit { radix: 8 });
            return LowTokenNumberLiteralKind::IntegerOctal;
        } else if next == 'x' && is_digit(cursor.second(), 16) {
            cursor.consume();
            consume_while(cursor, CharClass::Digit { radix: 16 });
            return LowTokenNumberLiteralKind::IntegerHexadecimal;
        } else if '0' <= next && next <= '9' {
            consume_while(cursor, CharClass::Digit { radix: 10 });
        } else if next == '.' || next == 'e' || next == 'E' {
        } else {
            return LowTokenNumberLiteralKind::IntegerDecimal;
        }
    }
    proof {
        cursor.lemma_wf();
    }
    let ghost digits = cursor.spec_position();
    let first = cursor.first();
    if first == '.' && is_digit(cursor.second(), 10) {
        cursor.consume();
        consume_while(cursor, CharClass::Digit { radix: 10 });
        proof {
            cursor.lemma_wf();
        }
        let e = cursor.first();
        let sign = cursor.second();
        if (e == 'e' || e == 'E') && (sign == '+' || sign == '-') && is_digit(cursor.lookup(2), 10) {
            cursor.consume();
            cursor.consume();
            consume_while(cursor, CharClass::Digit { radix: 10 });
        } else if (e == 'e' || e == 'E') && is_digit(sign, 10) {
            cursor.consume();
            consume_while(cursor, CharClass::Digit { radix: 10 });
        }
        LowTokenNumberLiteralKind::Float
    } else if (first == 'e' || first == 'E') && (is_digit(cursor.second(), 10) || ((cursor.second()
        == '+' || cursor.second() == '-') && is_digit(cursor.lookup(2), 10))) {
        cursor.consume();
        let sign = cursor.first();
        if sign == '+' || sign == '-' {
            cursor.consume();
        }
        consume_while(cursor, CharClass::Digit { radix: 10 });
        LowTokenNumberLiteralKind::Float
    } else {
        consume_while(cursor, CharClass::Digit { radix: 10 });
        LowTokenNumberLiteralKind::IntegerDecimal
    }
}

fn consume_literal_character(cursor: &mut Cursor) -> (terminated: bool)
    requires
        old(cursor).wf(),
    ensures
        final(cursor).wf(),
        final(cursor).spec_chars() == old(cursor).spec_chars(),
        final(cursor).spec_start() == old(cursor).spec_start(),
        (terminated, final(cursor).spec_position()) == character_end(
            old(cursor).spec_chars(),
            old(cursor).spec_position(),
        ),
{
    proof {
        cursor.lemma_wf();
    }
    let first = cursor.first();
    if first != '\\' && cursor.second() == '\'' {
        cursor.consume();
        cursor.consume();
        return true;
    }
    if first == '\'' {
        cursor.consume();
        return true;
    }
    if first == '\\' {
        cursor.consume();
        cursor.consume();
    } else {
        cursor.consume();
    }
    proof {
        cursor.lemma_wf();
    }
    if cursor.first() == '\'' {
        cursor.consume();
        return true;
    }
    false
}

fn consume_literal_string(cursor: &mut Cursor) -> (terminated: bool)
    requires
        old(cursor).wf(),
    ensures
        final(cursor).wf(),
        final(cursor).spec_chars() == old(cursor).spec_chars(),
        final(cursor).spec_start() == old(cursor).spec_start(),
        (terminated, final(cursor).spec_position()) == string_end(
            old(cursor).spec_chars(),
            old(cursor).spec_position(),
        ),
{
    let ghost goal = string_end(cursor.spec_chars(), cursor.spec_position());
    proof {
        cursor.lemma_wf();
    }
    loop
        invariant
            cursor.wf(),
            cursor.spec_chars() == old(cursor).spec_chars(),
            cursor.spec_start() == old(cursor).spec_start(),
            0 <= cursor.spec_position() <= cursor.spec_chars().len(),
            string_end(cursor.spec_chars(), cursor.spec_position()) == goal,
            goal == string_end(old(cursor).spec_chars(), old(cursor).spec_position()),
        decreases cursor.spec_chars().len() - cursor.spec_position(),
    {
        match cursor.consume() {
            Some(c) => {
                if c == '"' {
                    return true;
                }
                if c == '\\' {
                    cursor.consume();
                }
            },
            None => {
                return false;
            },
        }
        proof {
            cursor.lemma_wf();
        }
    }
}

/// An exponent ends in the text, not before its start.
pub proof fn lemma_exponent_end(chars: Seq<char>, at: int)
    requires
        0 <= at <= chars.len(),
    ensures
        at <= exponent_end(chars, at) <= chars.len(),
{
    let ten = CharClass::Digit { radix: 10 };
    if at + 1 <= chars.len() {
        lemma_run_end(chars, at + 1, ten);
    }
    if at + 2 <= chars.len() {
        lemma_run_end(chars, at + 2, ten);
    }
}

/// A decimal number ends in the text, not before its start.
pub proof fn lemma_decimal_end(chars: Seq<char>, at: int)
    requires
        0 <= at <= chars.len(),
    ensures
        at <= decimal_end(chars, at).1 <= chars.len(),
{
    let ten = CharClass::Digit { radix: 10 };
    lemma_run_end(chars, at, ten);
    if at + 1 <= chars.len() {
        lemma_run_end(chars, at + 1, ten);
        lemma_exponent_end(chars, run_end(chars, at + 1, ten));
    }
    if at + 2 <= chars.len() {
        lemma_run_end(chars, at + 2, ten);
    }
}

/// A number ends in the text, not before its start.
pub proof fn lemma_number_end(chars: Seq<char>, at: int, first: char)
    requires
        0 <= at <= chars.len(),
    ensures
        at <= number_end(chars, at, first).1 <= chars.len(),
{
    let ten = CharClass::Digit { radix: 10 };
    if at + 1 <= chars.len() {
        lemma_run_end(chars, at + 1, CharClass::Digit { radix: 2 });
        lemma_run_end(chars, at + 1, CharClass::Digit { radix: 8 });
        lemma_run_end(chars, at + 1, CharClass::Digit { radix: 16 });
    }
    lemma_run_end(chars, at, ten);
    lemma_decimal_end(chars, run_end(chars, at, ten));
    lemma_decimal_end(chars, at);
}

/// A token ends in the text, after its start.
pub proof fn lemma_low_scan_ends(chars: Seq<char>, at: int)
    requires
        0 <= at < chars.len(),
    ensures
        at < low_scan(chars, at).end <= chars.len(),
{
    lemma_run_end(chars, at + 1, CharClass::Whitespace);
    lemma_run_end(chars, at + 1, CharClass::IdContinue);
    lemma_run_end(chars, at + 1, CharClass::NotNewline);
    lemma_number_end(chars, at + 1, peek(chars, at));
    let number = number_end(chars, at + 1, peek(chars, at)).1;
    if number + 1 <= chars.len() {
        lemma_run_end(chars, number + 1, CharClass::IdContinue);
    }
    lemma_string_end(chars, at + 1);
}

/// A string literal ends in the text, not before its start.
pub proof fn lemma_string_end(chars: Seq<char>, at: int)
    requires
        0 <= at <= chars.len(),
    ensures
        at <= string_end(chars, at).1 <= chars.len(),
    decreases chars.len() - at,
{
    if at < chars.len() && chars[at] != '"' {
        if chars[at] == '\\' {
            lemma_string_end(chars, advance(chars, at + 1));
        } else {
            lemma_string_end(chars, at + 1);
        }
    }
}

/// Reads the token that starts at `start`. Returns the token and the place
/// at which it ends.
pub fn next(chars: &Vec<char>, start: usize) -> (r: (LowToken, usize))
    requires
        start < chars@.len(),
        byte_len(chars@, chars@.len() as int) <= u32::MAX,
    ensures
        r.0.kind == low_scan(chars@, start as int).kind,
        r.1 == low_scan(chars@, start as int).end,
        start < r.1 <= chars@.len(),
        r.0.len == byte_len(chars@, r.1 as int) - byte_len(chars@, start as int),
        r.0.len > 0,
{
    proof {
        lemma_low_scan_ends(chars@, start as int);
    }
    let mut cursor = Cursor::new(chars, start);
    let c = match cursor.consume() {
        Some(c) => c,
        None => '\0',
    };
    let kind = if is_whitespace(c) {
        consume_while(&mut cursor, CharClass::Whitespace);
        LowTokenKind::Whitespace
    } else if is_id_start(c) {
        consume_while(&mut cursor, CharClass::IdContinue);
        LowTokenKind::Id
    } else if '0' <= c && c <= '9' {
        let kind = consume_literal_number(&mut cursor, c);
        let suffix_start = cursor.len_consumed();
        proof {
            cursor.lemma_wf();
        }
        if is_id_start(cursor.first()) {
            cursor.consume();
            consume_while(&mut cursor, CharClass::IdContinue);
        }
        LowTokenKind::Literal { kind: LowTokenLiteralKind::Number { kind, suffix_start } }
    } else if c == '#' {
        consume_while(&mut cursor, CharClass::NotNewline);
        LowTokenKind::Comment
    } else if c == '\'' {
        LowTokenKind::Literal {
            kind: LowTokenLiteralKind::Character {
                terminated: consume_literal_character(&mut cursor),
            },
        }
    } else if c == '"' {
        LowTokenKind::Literal {
            kind: LowTokenLiteralKind::String { terminated: consume_literal_string(&mut cursor) },
        }
    } else {
        punctuation_of(c)
    };
    proof {
        lemma_byte_len_grows(chars@, start as int, cursor.spec_position());
    }
    (LowToken::new(kind, cursor.len_consumed()), cursor.position())
}

fn punctuation_of(c: char) -> (r: LowTokenKind)
    ensures
        r == punctuation(c),
{
    match c {
        '(' => LowTokenKind::OpenParen,
        ')' => LowTokenKind::CloseParen,
        '{' => LowTokenKind::OpenBrace,
        '}' => LowTokenKind::CloseBrace,
        '[' => LowTokenKind::OpenBracket,
        ']' => LowTokenKind::CloseBracket,
        '.' => LowTokenKind::Dot,
        ',' => LowTokenKind::Comma,
        ':' => LowTokenKind::Colon,
        ';' => LowTokenKind::Semicolon,
        '=' => LowTokenKind::Eq,
        '!' => LowTokenKind::Bang,
        '<' => LowTokenKind::Lt,
        '>' => LowTokenKind::Gt,
        '+' => LowTokenKind::Plus,
        '-' => LowTokenKind::Minus,
        '*' => LowTokenKind::Star,
        '/' => LowTokenKind::Slash,
        '%' => LowTokenKind::Percent,
        '|' => LowTokenKind::Or,
        '&' => LowTokenKind::And,
        '^' => LowTokenKind::Caret,
        '~' => LowTokenKind::Tilde,
        _ => LowTokenKind::Unknown,
    }
}

/// The tokens of the first pass of `chars`, in order. Their lengths add up
/// to the length of the text.
pub fn low_tokens(chars: &Vec<char>) -> (r: Vec<LowToken>)
    requires
        byte_len(chars@, chars@.len() as int) <= u32::MAX,
    ensures
        r@ == low_scan_all(chars@, 0),
{
    let mut tokens: Vec<LowToken> = Vec::new();
    let mut at: usize = 0;
    let ghost goal = low_scan_all(chars@, 0);
    assert(tokens@ + goal =~= goal);
    while at < chars.len()
        invariant
            at <= chars@.len(),
            byte_len(chars@, chars@.len() as int) <= u32::MAX,
            tokens@ + low_scan_all(chars@, at as int) == goal,
        decreases chars@.len() - at,
    {
        let ghost before = tokens@;
        let (token, end) = next(chars, at);
        tokens.push(token);
        proof {
            let rest = low_scan_all(chars@, end as int);
            assert(low_scan_all(chars@, at as int) =~= seq![token] + rest);
            assert(before.push(token) + rest =~= before + (seq![token] + rest));
        }
        at = end;
    }
    assert(tokens@ + Seq::<LowToken>::empty() =~= tokens@);
    tokens
}

/// The tokens of the first pass of `input`, in order. `None` where the
/// text has more bytes than 32 bits count.
pub fn low_token_iter(input: &str) -> (r: Option<Vec<LowToken>>)
    ensures
        match r {
            Some(tokens) => tokens@ == low_scan_all(input@, 0),
            None => encode_utf8(input@).len() > u32::MAX,
        },
{
    let length = input.as_bytes().len();
    if length > u32::MAX as usize {
        return None;
    }
    let chars = chars_of(input);
    proof {
        lemma_encoded_byte_len(chars@);
    }
    Some(low_tokens(&chars))
}

} // verus!
