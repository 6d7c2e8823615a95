use vstd::prelude::*;
use vstd::string::*;
use vstd::utf8::*;
use crate::parse::lexer::convert::{convert, converted, grown, lemma_converted_grows};
use crate::parse::lexer::token::Token;
use crate::parse::low_lexer::chars::{
    byte_len, chars_of, lemma_byte_len_grows, lemma_encoded_byte_len,
};
use crate::parse::low_lexer::scan::{lemma_low_scan_ends, low_scan, next};
use crate::span::pos::Pos;
use crate::span::source_file::SourceFile;
use crate::span::span_range::Span;
use crate::symbol::interner::Interner;

verus! {

/// The places at which the tokens of the text from `at` on start.
pub open spec fn scan_starts(chars: Seq<char>, at: int) -> Seq<int>
    decreases chars.len() - at,
{
    if at < 0 || at >= chars.len() {
        Seq::empty()
    } else {
        let scan = low_scan(chars, at);
        if scan.end <= at || scan.end > chars.len() {
            Seq::empty()
        } else {
            seq![at] + scan_starts(chars, scan.end)
        }
    }
}

/// Whether `tokens` are the tokens of the text `chars`, which starts at
/// the position `base`, one for each token of the first pass: each with
/// the span of its bytes and with its text as symbols of `table`.
pub open spec fn unglued_ok(
    table: Seq<Seq<char>>,
    chars: Seq<char>,
    base: Pos,
    tokens: Seq<Token>,
) -> bool {
    &&& tokens.len() == scan_starts(chars, 0).len()
    &&& forall|i: int|
        0 <= i < tokens.len() ==> (#[trigger] tokens[i]).span == (Span {
            low: Pos((base.0 + byte_len(chars, scan_starts(chars, 0)[i])) as u32),
            high: Pos(
                (base.0 + byte_len(chars, low_scan(chars, scan_starts(chars, 0)[i]).end)) as u32,
            ),
        }) && converted(
            table,
            chars,
            scan_starts(chars, 0)[i],
            low_scan(chars, scan_starts(chars, 0)[i]).end,
            low_scan(chars, scan_starts(chars, 0)[i]).kind,
            tokens[i].kind,
        )
}

/// The tokens stand one after the other, and none ends before it starts.
pub open spec fn in_order(tokens: Seq<Token>) -> bool {
    &&& forall|i: int| 0 <= i < tokens.len() ==> (#[trigger] tokens[i]).span.wf()
    &&& forall|i: int, j: int|
        0 <= i < j < tokens.len() ==> tokens[i].span.high.0 <= tokens[j].span.low.0
}

/// The token that `current` makes with as many of `tokens[at..]` as glue
/// to it, one after the other, and the place of the first that does not.
pub open spec fn glue_from(tokens: Seq<Token>, current: Token, at: int) -> (Token, int)
    decreases tokens.len() - at,
{
    if 0 <= at < tokens.len() {
        match current.spec_glue(tokens[at]) {
            Some(glued) => glue_from(tokens, glued, at + 1),
            None => (current, at),
        }
    } else {
        (current, at)
    }
}

/// The tokens `tokens[from..]`, each glued to those after it as far as
/// they glue.
pub open spec fn glue_all(tokens: Seq<Token>, from: int) -> Seq<Token>
    decreases tokens.len() - from,
{
    if from < 0 || from >= tokens.len() {
        Seq::empty()
    } else {
        let glued = glue_from(tokens, tokens[from], from + 1);
        if glued.1 <= from || glued.1 > tokens.len() {
            Seq::empty()
        } else {
            seq![glued.0] + glue_all(tokens, glued.1)
        }
    }
}

/// Gluing goes forward.
pub proof fn lemma_glue_from(tokens: Seq<Token>, current: Token, at: int)
    requires
        0 <= at <= tokens.len(),
    ensures
        at <= glue_from(tokens, current, at).1 <= tokens.len(),
    decreases tokens.len() - at,
{
    if at < tokens.len() {
        match current.spec_glue(tokens[at]) {
            Some(glued) => {
                lemma_glue_from(tokens, glued, at + 1);
            },
            None => {},
        }
    }
}

/// The tokens of `file`, one for each token of the first pass, white space
/// and comments too. `None` when the interner is full.
pub fn unglued_token_iter(interner: &mut Interner, file: &SourceFile) -> (r: Option<Vec<Token>>)
    requires
        old(interner).wf(),
    ensures
        final(interner).wf(),
        grown(old(interner)@, final(interner)@),
        match r {
            Some(tokens) => unglued_ok(
                final(interner)@,
                file.spec_content(),
                file.spec_span().low,
                tokens@,
            ) && in_order(tokens@),
            None => final(interner)@.len() == u32::MAX,
        },
{
    let span = file.span();
    let chars = chars_of(file.content().as_str());
    proof {
        lemma_encoded_byte_len(chars@);
    }
    let base = span.low;
    let mut tokens: Vec<Token> = Vec::new();
    let mut at: usize = 0;
    let mut pos = base;
    let ghost mut starts: Seq<int> = Seq::empty();
    assert(starts + scan_starts(chars@, 0) =~= scan_starts(chars@, 0));
    while at < chars.len()
        invariant
            interner.wf(),
            grown(old(interner)@, interner@),
            at <= chars@.len(),
            chars@ == file.spec_content(),
            base == file.spec_span().low,
            base.0 + byte_len(chars@, chars@.len() as int) <= u32::MAX,
            pos.0 == base.0 + byte_len(chars@, at as int),
            starts + scan_starts(chars@, at as int) == scan_starts(chars@, 0),
            tokens@.len() == starts.len(),
            forall|i: int|
                0 <= i < tokens@.len() ==> (#[trigger] tokens@[i]).span == (Span {
                    low: Pos((base.0 + byte_len(chars@, starts[i])) as u32),
                    high: Pos((base.0 + byte_len(chars@, low_scan(chars@, starts[i]).end)) as u32),
                }) && converted(
                    interner@,
                    chars@,
                    starts[i],
                    low_scan(chars@, starts[i]).end,
                    low_scan(chars@, starts[i]).kind,
                    tokens@[i].kind,
                ),
            forall|i: int|
                0 <= i < tokens@.len() ==> (#[trigger] tokens@[i]).span.wf()
                    && tokens@[i].span.high.0 <= pos.0,
            forall|i: int, j: int|
                0 <= i < j < tokens@.len() ==> tokens@[i].span.high.0 <= tokens@[j].span.low.0,
        decreases chars@.len() - at,
    {
        let ghost table = interner@;
        let ghost before = tokens@;
        let (low_token, end) = next(&chars, at);
        proof {
            lemma_byte_len_grows(chars@, end as int, chars@.len() as int);
            lemma_low_scan_ends(chars@, at as int);
        }
        let token = match convert(interner, &chars, at, end, low_token, pos) {
            Some(token) => token,
            None => {
                return None;
            },
        };
        tokens.push(token);
        proof {
            let rest = scan_starts(chars@, end as int);
            assert(scan_starts(chars@, at as int) =~= seq![at as int] + rest);
            assert(starts.push(at as int) + rest =~= starts + (seq![at as int] + rest));
            starts = starts.push(at as int);
            assert forall|i: int| 0 <= i < tokens@.len() implies (#[trigger] tokens@[i]).span == (
            Span {
                low: Pos((base.0 + byte_len(chars@, starts[i])) as u32),
                high: Pos((base.0 + byte_len(chars@, low_scan(chars@, starts[i]).end)) as u32),
            }) && converted(
                interner@,
                chars@,
                starts[i],
                low_scan(chars@, starts[i]).end,
                low_scan(chars@, starts[i]).kind,
                tokens@[i].kind,
            ) by {
                if i < before.len() {
                    assert(tokens@[i] == before[i]);
                    lemma_converted_grows(
                        table,
                        interner@,
                        chars@,
                        starts[i],
                        low_scan(chars@, starts[i]).end,
                        low_scan(chars@, starts[i]).kind,
                        tokens@[i].kind,
                    );
                }
            }
        }
        pos = Pos(pos.0 + low_token.len);
        at = end;
    }
    assert(starts + Seq::<int>::empty() =~= starts);
    Some(tokens)
}

/// Glues `tokens`, which stand in order: each token takes with it as many
/// of the tokens after it as glue to it, one after the other.
pub fn glue_tokens(tokens: &Vec<Token>) -> (r: Vec<Token>)
    requires
        in_order(tokens@),
    ensures
        r@ == glue_all(tokens@, 0),
{
    let mut glued: Vec<Token> = Vec::new();
    let ghost goal = glue_all(tokens@, 0);
    let mut i: usize = 0;
    assert(glued@ + goal =~= goal);
    while i < tokens.len()
        invariant
            i <= tokens@.len(),
            in_order(tokens@),
            glued@ + glue_all(tokens@, i as int) == goal,
        decreases tokens@.len() - i,
    {
        let ghost first = i as int;
        let ghost before = glued@;
        let mut current = tokens[i];
        i += 1;
        let ghost target = glue_from(tokens@, tokens@[first], first + 1);
        proof {
            lemma_glue_from(tokens@, tokens@[first], first + 1);
        }
        loop
            invariant
                0 <= first < i <= tokens@.len(),
                in_order(tokens@),
                current.span.low == tokens@[first].span.low,
                glue_from(tokens@, current, i as int) == target,
            ensures
                first < i <= tokens@.len(),
                (current, i as int) == target,
            decreases tokens@.len() - i,
        {
            if i >= tokens.len() {
                break ;
            }
            assert(tokens@[first].span.wf());
            assert(tokens@[first].span.high.0 <= tokens@[i as int].span.low.0);
            assert(tokens@[i as int].span.wf());
            match current.glue(&tokens[i]) {
                Some(token) => {
                    current = token;
                    i += 1;
                },
                None => {
                    break ;
                },
            }
        }
        glued.push(current);
        proof {
            let rest = glue_all(tokens@, i as int);
            assert(glue_all(tokens@, first) =~= seq![current] + rest);
            assert(before.push(current) + rest =~= before + (seq![current] + rest));
        }
    }
    assert(glued@ + Seq::<Token>::empty() =~= glued@);
    glued
}

/// The tokens of `file`, glued: white space and comments are among them.
/// `None` when the interner is full.
pub fn token_iter(interner: &mut Interner, file: &SourceFile) -> (r: Option<Vec<Token>>)
    requires
        old(interner).wf(),
    ensures
        final(interner).wf(),
        grown(old(interner)@, final(interner)@),
        match r {
            Some(tokens) => exists|unglued: Seq<Token>|
                #[trigger] unglued_ok(
                    final(interner)@,
                    file.spec_content(),
                    file.spec_span().low,
                    unglued,
                ) && in_order(unglued) && tokens@ == glue_all(unglued, 0),
            None => final(interner)@.len() == u32::MAX,
        },
{
    match unglued_token_iter(interner, file) {
        Some(unglued) => {
            let tokens = glue_tokens(&unglued);
            assert(unglued_ok(interner@, file.spec_content(), file.spec_span().low, unglued@));
            Some(tokens)
        },
        None => None,
    }
}

} // verus!
