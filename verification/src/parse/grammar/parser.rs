use vstd::prelude::*;
use vstd::string::*;
use std::collections::VecDeque;
use std::sync::Arc;
use crate::diagnostic::error_codes::{UNEXPECTED_EOF, UNEXPECTED_TOKEN};
use crate::diagnostic::message::{log_view, Diagnostics, DiagnosticsLevel, DiagnosticsView};
use crate::diagnostic::sender::{located, DiagnosticsSender};
use crate::parse::ast::kinds::{
    id_onto, literal_onto, opt_id_onto, opt_literal_onto, opt_token_onto, token_onto,
};
use crate::parse::ast::node_id::NodeId;
use crate::parse::ast::node_id_allocator::NodeIdAllocator;
use crate::parse::ast::tree::Id;
use crate::parse::grammar::expected::{expected_but_found, make_expected_but_found_err};
use crate::parse::grammar::skipper::{all_skip, skipped_by, Skipper};
use crate::parse::lexer::symbols::Symbols;
use crate::parse::lexer::token::{unglued_kinds, Token};
use crate::parse::lexer::token_kind::TokenKind;
use crate::parse::lexer::token_literal::TokenLiteral;
use crate::parse::token_type::TokenType;
use crate::span::pos::Pos;
use crate::span::source_file::SourceFile;
use crate::span::span_range::Span;
use crate::symbol::interner::Interner;
use crate::symbol::name::Symbol;

verus! {

/// A class of tokens that the parser takes at one place.
#[derive(Debug, Clone, Copy, PartialEq, Eq, Structural, Hash)]
pub enum TokenClass {
    Identifier,
    Keyword(Symbol),
    Kind(TokenKind),
    AssignmentOp,
    UnaryOp,
    BinaryOp,
    Literal,
}

impl TokenClass {
    /// Whether a token of kind `kind` is of this class.
    pub open spec fn spec_holds(self, kind: TokenKind) -> bool {
        match self {
            TokenClass::Identifier => kind is Id,
            TokenClass::Keyword(keyword) => kind matches TokenKind::Id { symbol } && symbol
                == keyword,
            TokenClass::Kind(wanted) => kind == wanted,
            TokenClass::AssignmentOp => kind == TokenKind::Assign || kind == TokenKind::AssignAdd
                || kind == TokenKind::AssignSub || kind == TokenKind::AssignMul || kind
                == TokenKind::AssignDiv || kind == TokenKind::AssignMod || kind
                == TokenKind::AssignPow || kind == TokenKind::AssignShl || kind
                == TokenKind::AssignShr || kind == TokenKind::AssignBitOr || kind
                == TokenKind::AssignBitAnd || kind == TokenKind::AssignBitXor,
            TokenClass::UnaryOp => kind == TokenKind::Add || kind == TokenKind::Sub || kind
                == TokenKind::BitNot || kind == TokenKind::LogNot || kind == TokenKind::BitAnd
                || kind == TokenKind::Mul,
            TokenClass::BinaryOp => kind == TokenKind::Eq || kind == TokenKind::Ne || kind
                == TokenKind::Lt || kind == TokenKind::Gt || kind == TokenKind::Le || kind
                == TokenKind::Ge || kind == TokenKind::Add || kind == TokenKind::Sub || kind
                == TokenKind::Mul || kind == TokenKind::Div || kind == TokenKind::Mod || kind
                == TokenKind::Pow || kind == TokenKind::Shl || kind == TokenKind::Shr || kind
                == TokenKind::BitOr || kind == TokenKind::BitAnd || kind == TokenKind::BitXor
                || kind == TokenKind::LogOr || kind == TokenKind::LogAnd,
            TokenClass::Literal => kind is Literal,
        }
    }

    /// How a message names the class.
    pub open spec fn spec_token_type(self) -> TokenType {
        match self {
            TokenClass::Identifier => TokenType::Identifier,
            TokenClass::Keyword(keyword) => TokenType::Keyword(keyword),
            TokenClass::Kind(kind) => TokenType::Token(kind),
            TokenClass::AssignmentOp => TokenType::AssignmentOp,
            TokenClass::UnaryOp => TokenType::UnaryOp,
            TokenClass::BinaryOp => TokenType::BinaryOp,
            TokenClass::Literal => TokenType::Literal,
        }
    }

    pub fn holds(self, kind: TokenKind) -> (r: bool)
        ensures
            r == self.spec_holds(kind),
    {
        match self {
            TokenClass::Identifier => match kind {
                TokenKind::Id { .. } => true,
                _ => false,
            },
            TokenClass::Keyword(keyword) => match kind {
                TokenKind::Id { symbol } => symbol == keyword,
                _ => false,
            },
            TokenClass::Kind(wanted) => kind == wanted,
            TokenClass::AssignmentOp => match kind {
                TokenKind::Assign
                | TokenKind::AssignAdd
                | TokenKind::AssignSub
                | TokenKind::AssignMul
                | TokenKind::AssignDiv
                | TokenKind::AssignMod
                | TokenKind::AssignPow
                | TokenKind::AssignShl
                | TokenKind::AssignShr
                | TokenKind::AssignBitOr
                | TokenKind::AssignBitAnd
                | TokenKind::AssignBitXor => true,
                _ => false,
            },
            TokenClass::UnaryOp => match kind {
                TokenKind::Add
                | TokenKind::Sub
                | TokenKind::BitNot
                | TokenKind::LogNot
                | TokenKind::BitAnd
                | TokenKind::Mul => true,
                _ => false,
            },
            TokenClass::BinaryOp => match kind {
                TokenKind::Eq
                | TokenKind::Ne
                | TokenKind::Lt
                | TokenKind::Gt
                | TokenKind::Le
                | TokenKind::Ge
                | TokenKind::Add
                | TokenKind::Sub
                | TokenKind::Mul
                | TokenKind::Div
                | TokenKind::Mod
                | TokenKind::Pow
                | TokenKind::Shl
                | TokenKind::Shr
                | TokenKind::BitOr
                | TokenKind::BitAnd
                | TokenKind::BitXor
                | TokenKind::LogOr
                | TokenKind::LogAnd => true,
                _ => false,
            },
            TokenClass::Literal => match kind {
                TokenKind::Literal(..) => true,
                _ => false,
            },
        }
    }

    pub fn token_type(self) -> (r: TokenType)
        ensures
            r == self.spec_token_type(),
    {
        match self {
            TokenClass::Identifier => TokenType::Identifier,
            TokenClass::Keyword(keyword) => TokenType::Keyword(keyword),
            TokenClass::Kind(kind) => TokenType::Token(kind),
            TokenClass::AssignmentOp => TokenType::AssignmentOp,
            TokenClass::UnaryOp => TokenType::UnaryOp,
            TokenClass::BinaryOp => TokenType::BinaryOp,
            TokenClass::Literal => TokenType::Literal,
        }
    }
}

/// What the parser has read and what it has before it.
pub struct ParserView {
    /// The tokens of the file.
    pub tokens: Seq<Token>,
    /// The place of the next token of the file that has not been looked at.
    pub index: int,
    /// The tokens that were looked at and not taken.
    pub buffer: Seq<Token>,
    /// Whether glued tokens that begin with an angle bracket are split
    /// when they are looked at.
    pub unglue: bool,
    /// What could have stood at the place where the parser stands.
    pub expected: Seq<TokenType>,
    /// The span of the token that was passed last.
    pub last_span: Span,
    /// The kinds of the tokens that were taken, in the order in which they
    /// were taken.
    pub taken: Seq<TokenKind>,
}

/// Whether a report is an error at a place of `file`.
pub open spec fn error_in(file: Arc<SourceFile>, report: DiagnosticsView) -> bool {
    &&& report.level == DiagnosticsLevel::Error
    &&& report.origin is Some
    &&& report.origin->0.file == file
}

/// Whether all reports of `log` are errors at places of `file`.
pub open spec fn errors_in(file: Arc<SourceFile>, log: Seq<DiagnosticsView>) -> bool {
    forall|i: int| 0 <= i < log.len() ==> error_in(file, #[trigger] log[i])
}

/// Whether a token of this kind begins with an angle bracket and goes on:
/// the glued tokens that can close or open a list of generic arguments.
pub open spec fn angled(kind: TokenKind) -> bool {
    kind == TokenKind::Le || kind == TokenKind::Ge || kind == TokenKind::Shl || kind
        == TokenKind::Shr || kind == TokenKind::AssignShl || kind == TokenKind::AssignShr
}

/// Whether a token of this kind is white space or a comment.
pub open spec fn blank(kind: TokenKind) -> bool {
    kind == TokenKind::Whitespace || kind == TokenKind::Comment
}

/// The kinds of `tokens`, one for one.
pub open spec fn kinds_of(tokens: Seq<Token>) -> Seq<TokenKind> {
    Seq::new(tokens.len(), |i: int| tokens[i].kind)
}

/// Whether `kinds` are the kinds of the tokens `tokens[..upto]` other than
/// white space and comments, in their order, where a token that begins
/// with an angle bracket may stand split into its parts.
pub open spec fn covered(tokens: Seq<Token>, upto: int, kinds: Seq<TokenKind>) -> bool
    decreases upto,
{
    if upto <= 0 {
        kinds.len() == 0
    } else {
        let kind = tokens[upto - 1].kind;
        let parts = unglued_kinds(kind);
        if blank(kind) {
            covered(tokens, upto - 1, kinds)
        } else {
            ||| (kinds.len() >= 1 && kinds.last() == kind && covered(
                tokens,
                upto - 1,
                kinds.drop_last(),
            ))
            ||| (angled(kind) && kinds.len() >= parts.len() && kinds.skip(kinds.len() - parts.len())
                == parts && covered(tokens, upto - 1, kinds.take(kinds.len() - parts.len())))
        }
    }
}

/// Whether the token is split where glued tokens are being split: it
/// begins with an angle bracket, and its parts stay in the space of
/// positions.
pub open spec fn splits(token: Token) -> bool {
    angled(token.kind) && token.span.low.0 + unglued_kinds(token.kind).len() <= u32::MAX
}

impl ParserView {
    /// A bound on the number of tokens that can still be taken: those
    /// looked at, and three for each token of the file not yet looked at,
    /// for a glued token splits into three at most.
    pub open spec fn remaining(self) -> nat {
        (self.buffer.len() + 3 * (self.tokens.len() - self.index)) as nat
    }

    /// The place in the file is in range, and the tokens that were taken
    /// and those that were looked at cover the file up to that place.
    pub open spec fn wf(self) -> bool {
        &&& 0 <= self.index <= self.tokens.len()
        &&& covered(self.tokens, self.index, self.taken + kinds_of(self.buffer))
    }

    /// The state after the next token of the file was looked at. White
    /// space and comments are passed; every other token joins the tokens
    /// looked at, split if glued tokens are being split.
    pub open spec fn look(self) -> ParserView {
        let token = self.tokens[self.index];
        if token.kind == TokenKind::Whitespace || token.kind == TokenKind::Comment {
            ParserView { index: self.index + 1, last_span: token.span, ..self }
        } else if self.unglue && splits(token) {
            ParserView {
                index: self.index + 1,
                buffer: self.buffer + token.spec_unglued(),
                ..self
            }
        } else {
            ParserView { index: self.index + 1, buffer: self.buffer.push(token), ..self }
        }
    }

    /// The state after tokens of the file were looked at until `min_len`
    /// tokens are looked at and not taken, or the file has ended.
    #[verifier::opaque]
    pub open spec fn fetched(self, min_len: int) -> ParserView
        decreases self.tokens.len() - self.index,
    {
        if self.buffer.len() >= min_len || self.index < 0 || self.index >= self.tokens.len() {
            self
        } else {
            self.look().fetched(min_len)
        }
    }

    /// The state after the first token looked at was taken.
    pub open spec fn popped(self) -> ParserView {
        ParserView {
            buffer: self.buffer.drop_first(),
            expected: Seq::empty(),
            last_span: self.buffer[0].span,
            taken: self.taken.push(self.buffer[0].kind),
            ..self
        }
    }

    /// The state after a token of `class` was asked for: the token is taken
    /// if it is next, and noted as expected if it is not.
    pub open spec fn asked(self, class: TokenClass) -> ParserView {
        let ready = self.fetched(1);
        if ready.buffer.len() > 0 && class.spec_holds(ready.buffer[0].kind) {
            ready.popped()
        } else {
            ParserView { expected: ready.expected.push(class.spec_token_type()), ..ready }
        }
    }

    /// The token that asking for a token of `class` takes.
    pub open spec fn answer(self, class: TokenClass) -> Option<Token> {
        let ready = self.fetched(1);
        if ready.buffer.len() > 0 && class.spec_holds(ready.buffer[0].kind) {
            Some(ready.buffer[0])
        } else {
            None
        }
    }

    /// The state after it was asked whether a token of `class` stands
    /// `offset` tokens ahead.
    pub open spec fn looked_up(self, offset: int, class: TokenClass) -> ParserView {
        ParserView {
            expected: self.fetched(offset + 1).expected.push(class.spec_token_type()),
            ..self.fetched(offset + 1)
        }
    }

    /// Whether a token of `class` stands `offset` tokens ahead.
    pub open spec fn stands(self, offset: int, class: TokenClass) -> bool {
        self.fetched(offset + 1).buffer.len() > offset && class.spec_holds(
            self.fetched(offset + 1).buffer[offset].kind,
        )
    }

    /// The state after the tokens that all of `skippers` skip were passed.
    #[verifier::opaque]
    pub open spec fn passed(self, skippers: Seq<Skipper>, symbols: &Symbols) -> ParserView
        decreases self.remaining(),
    {
        let ready = self.fetched(1);
        if self.wf() && ready.wf() && ready.buffer.len() > 0 && all_skip(
            skippers,
            symbols,
            ready.buffer[0].kind,
            skippers.len() as int,
        ) && ready.remaining() <= self.remaining() {
            ready.popped().passed(skippers, symbols)
        } else {
            ready
        }
    }
}

/// Looking at tokens takes none and keeps the parser in order.
pub proof fn lemma_fetched(view: ParserView, min_len: int)
    requires
        view.wf(),
    ensures
        view.fetched(min_len).wf(),
        view.fetched(min_len).remaining() <= view.remaining(),
        view.fetched(min_len).tokens == view.tokens,
        view.fetched(min_len).unglue == view.unglue,
        view.fetched(min_len).expected == view.expected,
        view.fetched(min_len).buffer.len() >= view.buffer.len(),
        view.fetched(min_len).taken == view.taken,
        view.fetched(min_len).buffer.len() < min_len ==> view.fetched(min_len).index
            == view.tokens.len(),
    decreases view.tokens.len() - view.index,
{
    reveal(ParserView::fetched);
    if view.buffer.len() >= min_len || view.index >= view.tokens.len() {
    } else {
        lemma_look_wf(view);
        lemma_fetched(view.look(), min_len);
    }
}

/// Looking at the next token of the file keeps the state in order.
pub proof fn lemma_look_wf(view: ParserView)
    requires
        view.wf(),
        view.index < view.tokens.len(),
    ensures
        view.look().wf(),
        view.look().taken == view.taken,
{
    let token = view.tokens[view.index];
    let before = view.taken + kinds_of(view.buffer);
    let after = view.look().taken + kinds_of(view.look().buffer);
    if blank(token.kind) {
        assert(after =~= before);
    } else if view.unglue && splits(token) {
        let parts = unglued_kinds(token.kind);
        assert(kinds_of(token.spec_unglued()) =~= parts);
        assert(kinds_of(view.buffer + token.spec_unglued()) =~= kinds_of(view.buffer) + parts);
        assert(after =~= before + parts);
        assert(after.skip(after.len() - parts.len()) =~= parts);
        assert(after.take(after.len() - parts.len()) =~= before);
    } else {
        assert(kinds_of(view.buffer.push(token)) =~= kinds_of(view.buffer).push(token.kind));
        assert(after =~= before.push(token.kind));
        assert(after.drop_last() =~= before);
    }
}

/// Taking the first of the tokens that were looked at keeps the state in
/// order.
pub proof fn lemma_popped_wf(view: ParserView)
    requires
        view.wf(),
        view.buffer.len() > 0,
    ensures
        view.popped().wf(),
{
    assert(view.popped().taken + kinds_of(view.popped().buffer) =~= view.taken + kinds_of(
        view.buffer,
    ));
}

/// What was noted as expected has no part in looking at tokens.
pub proof fn lemma_fetched_notes(view: ParserView, expected: Seq<TokenType>, min_len: int)
    ensures
        (ParserView { expected, ..view }).fetched(min_len) == (ParserView {
            expected,
            ..view.fetched(min_len)
        }),
    decreases view.tokens.len() - view.index,
{
    reveal(ParserView::fetched);
    let noted = ParserView { expected, ..view };
    if view.buffer.len() >= min_len || view.index < 0 || view.index >= view.tokens.len() {
    } else {
        assert(noted.look() == ParserView { expected, ..view.look() });
        lemma_fetched_notes(view.look(), expected, min_len);
    }
}

/// Looking twice is looking once, as far as the further of the two.
pub proof fn lemma_fetched_twice(view: ParserView, first: int, second: int)
    ensures
        view.fetched(first).fetched(second) == view.fetched(
            if first >= second {
                first
            } else {
                second
            },
        ),
    decreases view.tokens.len() - view.index,
{
    reveal(ParserView::fetched);
    if view.buffer.len() >= first || view.index < 0 || view.index >= view.tokens.len() {
    } else {
        lemma_fetched_twice(view.look(), first, second);
    }
}

/// The tokens that were looked at stay where they are when more are looked
/// at.
pub proof fn lemma_fetched_extends(view: ParserView, min_len: int)
    ensures
        view.fetched(min_len).buffer.len() >= view.buffer.len(),
        forall|i: int|
            0 <= i < view.buffer.len() ==> #[trigger] view.fetched(min_len).buffer[i]
                == view.buffer[i],
    decreases view.tokens.len() - view.index,
{
    reveal(ParserView::fetched);
    if view.buffer.len() >= min_len || view.index < 0 || view.index >= view.tokens.len() {
    } else {
        lemma_fetched_extends(view.look(), min_len);
        assert forall|i: int| 0 <= i < view.buffer.len() implies #[trigger] view.fetched(
            min_len,
        ).buffer[i] == view.buffer[i] by {
            assert(view.look().buffer[i] == view.buffer[i]);
        }
    }
}

/// Whether the same tokens stand ahead in the state `after` as in the
/// state `before`.
pub open spec fn same_outlook(after: ParserView, before: ParserView) -> bool {
    forall|offset: int, class: TokenClass|
        offset >= 0 ==> #[trigger] after.stands(offset, class) == before.stands(offset, class)
}

/// To ask what stands ahead changes nothing of what stands ahead, and
/// keeps the state in order.
pub proof fn lemma_looked_up(view: ParserView, offset: int, class: TokenClass)
    requires
        view.wf(),
        offset >= 0,
    ensures
        view.looked_up(offset, class).wf(),
        same_outlook(view.looked_up(offset, class), view),
        view.looked_up(offset, class).taken == view.taken,
        view.looked_up(offset, class).tokens == view.tokens,
{
    let after = view.looked_up(offset, class);
    lemma_fetched(view, offset + 1);
    assert forall|ahead: int, other: TokenClass| ahead >= 0 implies #[trigger] after.stands(
        ahead,
        other,
    ) == view.stands(ahead, other) by {
        let near = view.fetched(ahead + 1);
        let far = after.fetched(ahead + 1);
        lemma_fetched_notes(view.fetched(offset + 1), after.expected, ahead + 1);
        lemma_fetched_twice(view, offset + 1, ahead + 1);
        lemma_fetched_twice(view, ahead + 1, offset + 1);
        lemma_fetched_extends(near, offset + 1);
        lemma_fetched(view, ahead + 1);
        if near.buffer.len() <= ahead {
            reveal(ParserView::fetched);
            assert(near.fetched(offset + 1) == near);
        }
    }
}

/// The tokens of one file on their way into a syntax tree.
pub struct Parser<'a> {
    symbols: &'a Symbols,
    interner: &'a Interner,
    tokens: &'a Vec<Token>,
    index: usize,
    unglue_tokens: bool,
    token_buffer: VecDeque<Token>,
    expected: Vec<TokenType>,
    last_span: Span,
    end: Span,
    id_allocator: NodeIdAllocator,
    diagnostics: DiagnosticsSender,
    log: Vec<Diagnostics>,
    taken: Ghost<Seq<TokenKind>>,
}

impl<'a> View for Parser<'a> {
    type V = ParserView;

    closed spec fn view(&self) -> ParserView {
        ParserView {
            tokens: self.tokens@,
            index: self.index as int,
            buffer: self.token_buffer@,
            unglue: self.unglue_tokens,
            expected: self.expected@,
            last_span: self.last_span,
            taken: self.taken@,
        }
    }
}

impl<'a> Parser<'a> {
    /// The well-known symbols with which the parser knows keywords.
    pub closed spec fn spec_symbols(&self) -> &Symbols {
        self.symbols
    }

    /// The interner with whose texts the parser writes its messages.
    pub closed spec fn spec_table(&self) -> Seq<Seq<char>> {
        self.interner@
    }

    /// The number of node identities handed out.
    pub closed spec fn allocated(&self) -> u64 {
        self.id_allocator@
    }

    /// What the parser has reported.
    pub closed spec fn spec_log(&self) -> Seq<DiagnosticsView> {
        log_view(self.log@)
    }

    /// The sender with which the parser reports.
    pub closed spec fn spec_diagnostics(&self) -> DiagnosticsSender {
        self.diagnostics
    }

    /// The empty span at the end of the file.
    pub closed spec fn spec_end(&self) -> Span {
        self.end
    }

    /// All of the parser but what it has read and reported.
    pub open spec fn same_setting(&self, other: &Parser) -> bool {
        &&& self.spec_symbols() == other.spec_symbols()
        &&& self.spec_table() == other.spec_table()
        &&& self.spec_diagnostics() == other.spec_diagnostics()
        &&& self.spec_end() == other.spec_end()
        &&& self@.tokens == other@.tokens
    }

    /// A parser over `tokens`, the tokens of a file that ends at `end` and
    /// whose positions start at `begin`.
    pub fn new(
        tokens: &'a Vec<Token>,
        id_allocator: NodeIdAllocator,
        diagnostics: DiagnosticsSender,
        symbols: &'a Symbols,
        interner: &'a Interner,
        begin: Span,
        end: Span,
    ) -> (r: Self)
        ensures
            r@ == (ParserView {
                tokens: tokens@,
                index: 0,
                buffer: Seq::empty(),
                unglue: false,
                expected: Seq::empty(),
                last_span: begin,
                taken: Seq::empty(),
            }),
            r@.wf(),
            r.allocated() == id_allocator@,
            r.spec_log() == Seq::<DiagnosticsView>::empty(),
            r.spec_symbols() == symbols,
            r.spec_table() == interner@,
            r.spec_diagnostics() == diagnostics,
            r.spec_end() == end,
    {
        let r = Self {
            symbols,
            interner,
            tokens,
            index: 0,
            unglue_tokens: false,
            token_buffer: VecDeque::new(),
            expected: Vec::new(),
            last_span: begin,
            end,
            id_allocator,
            diagnostics,
            log: Vec::new(),
            taken: Ghost(Seq::empty()),
        };
        assert(r.spec_log() =~= Seq::<DiagnosticsView>::empty());
        r
    }

    /// Gives back the allocator and what was reported.
    pub fn finish(self) -> (r: (NodeIdAllocator, Vec<Diagnostics>))
        ensures
            r.0@ == self.allocated(),
            log_view(r.1@) == self.spec_log(),
    {
        (self.id_allocator, self.log)
    }

    pub fn diagnostics(&self) -> (r: &DiagnosticsSender)
        ensures
            *r == self.spec_diagnostics(),
    {
        &self.diagnostics
    }

    /// The well-known symbols.
    pub fn symbols_ref(&self) -> (r: &'a Symbols)
        ensures
            r == self.spec_symbols(),
    {
        self.symbols
    }

    /// The table of names.
    pub fn interner_ref(&self) -> (r: &'a Interner)
        ensures
            r@ == self.spec_table(),
    {
        self.interner
    }

    /// A number that grows smaller whenever a token is taken, and never
    /// grows: the bound on the tokens that can still be taken.
    pub fn progress_mark(&self) -> (r: u128)
        requires
            self@.wf(),
        ensures
            r == self@.remaining(),
    {
        (self.token_buffer.len() as u128) + 3 * ((self.tokens.len() - self.index) as u128)
    }

    pub fn set_unglue_tokens(&mut self, unglue_tokens: bool) -> (prev: bool)
        ensures
            final(self)@.taken == old(self)@.taken,
            prev == old(self)@.unglue,
            final(self)@ == (ParserView { unglue: unglue_tokens, ..old(self)@ }),
            final(self).same_setting(old(self)),
            final(self).allocated() == old(self).allocated(),
            final(self).spec_log() == old(self).spec_log(),
    {
        let prev = self.unglue_tokens;
        self.unglue_tokens = unglue_tokens;
        prev
    }

    fn fill_buffer(&mut self) -> (r: bool)
        requires
            old(self)@.wf(),
        ensures
            r == (old(self)@.index < old(self)@.tokens.len()),
            final(self)@ == (if r {
                old(self)@.look()
            } else {
                old(self)@
            }),
            final(self)@.wf(),
            final(self)@.remaining() <= old(self)@.remaining(),
            final(self).same_setting(old(self)),
            final(self).allocated() == old(self).allocated(),
            final(self).spec_log() == old(self).spec_log(),
    {
        if self.index >= self.tokens.len() {
            return false;
        }
        proof {
            lemma_look_wf(self@);
        }
        let token = self.tokens[self.index];
        self.index = self.index + 1;
        match token.kind {
            TokenKind::Whitespace | TokenKind::Comment => {
                self.last_span = token.span;
                return true;
            },
            _ => {},
        }
        let parts = unglued_count(token.kind);
        if self.unglue_tokens && is_angled(token.kind) && token.span.low.0 <= u32::MAX - parts {
            token.unglue(&mut self.token_buffer);
        } else {
            self.token_buffer.push_back(token);
        }
        true
    }

    fn fetch_tokens(&mut self, min_len: usize)
        requires
            old(self)@.wf(),
        ensures
            final(self)@ == old(self)@.fetched(min_len as int),
            final(self)@.wf(),
            final(self)@.remaining() <= old(self)@.remaining(),
            final(self)@.unglue == old(self)@.unglue,
            final(self)@.expected == old(self)@.expected,
            final(self)@.taken == old(self)@.taken,
            final(self).same_setting(old(self)),
            final(self).allocated() == old(self).allocated(),
            final(self).spec_log() == old(self).spec_log(),
    {
        proof {
            lemma_fetched(self@, min_len as int);
            reveal(ParserView::fetched);
        }
        loop
            invariant
                self@.wf(),
                self@.fetched(min_len as int) == old(self)@.fetched(min_len as int),
                self@.remaining() <= old(self)@.remaining(),
                self@.unglue == old(self)@.unglue,
                self@.expected == old(self)@.expected,
                self.same_setting(old(self)),
                self.allocated() == old(self).allocated(),
                self.spec_log() == old(self).spec_log(),
            ensures
                self@.buffer.len() >= min_len || self@.index >= self@.tokens.len(),
            decreases self@.tokens.len() - self@.index,
        {
            proof {
                reveal(ParserView::fetched);
            }
            if self.token_buffer.len() >= min_len {
                break ;
            }
            if !self.fill_buffer() {
                break ;
            }
        }
    }

    /// Whether a token is left.
    pub fn is_exists(&mut self) -> (r: bool)
        requires
            old(self)@.wf(),
        ensures
            final(self)@.taken == old(self)@.taken,
            final(self)@ == old(self)@.fetched(1),
            r == (final(self)@.buffer.len() > 0),
            final(self)@.wf(),
            final(self)@.remaining() <= old(self)@.remaining(),
            r == (final(self)@.remaining() > 0),
            final(self).same_setting(old(self)),
            final(self).allocated() == old(self).allocated(),
            final(self).spec_log() == old(self).spec_log(),
    {
        proof {
            lemma_fetched(self@, 1);
        }
        self.fetch_tokens(1);
        self.token_buffer.len() > 0
    }

    fn current_pos(&mut self) -> (r: Pos)
        requires
            old(self)@.wf(),
        ensures
            final(self)@ == old(self)@.fetched(1),
            final(self)@.taken == old(self)@.taken,
            r == (if final(self)@.buffer.len() > 0 {
                final(self)@.buffer[0].span.low
            } else {
                final(self).spec_end().high
            }),
            final(self)@.wf(),
            final(self)@.remaining() <= old(self)@.remaining(),
            final(self).same_setting(old(self)),
            final(self).allocated() == old(self).allocated(),
            final(self).spec_log() == old(self).spec_log(),
    {
        self.fetch_tokens(1);
        if self.token_buffer.len() > 0 {
            self.token_buffer[0].span.low
        } else {
            self.end.high
        }
    }

    /// The identity of a new node, and the position at which the node
    /// starts: that of the next token, or the end of the file. Fails when
    /// no identity is left.
    pub fn new_node(&mut self) -> (r: Result<(NodeId, Pos), ()>)
        requires
            old(self)@.wf(),
        ensures
            final(self)@.taken == old(self)@.taken,
            final(self)@ == old(self)@.fetched(1),
            final(self)@.wf(),
            final(self)@.remaining() <= old(self)@.remaining(),
            final(self).same_setting(old(self)),
            final(self).spec_log() == old(self).spec_log(),
            final(self).allocated() >= old(self).allocated(),
            match r {
                Ok((id, pos)) => {
                    &&& old(self).allocated() < u64::MAX
                    &&& final(self).allocated() == old(self).allocated() + 1
                    &&& id@ == old(self).allocated() + 1
                    &&& pos == (if final(self)@.buffer.len() > 0 {
                        final(self)@.buffer[0].span.low
                    } else {
                        final(self).spec_end().high
                    })
                    &&& pos == old(self).next_low()
                },
                Err(_) => old(self).allocated() == u64::MAX && final(self).allocated() == u64::MAX,
            },
    {
        let pos = self.current_pos();
        match self.id_allocator.try_allocate() {
            Some(id) => Ok((id, pos)),
            None => Err(()),
        }
    }

    /// Whether a token of `class` stands `offset` tokens ahead. The class
    /// is noted as expected.
    pub fn lookup(&mut self, offset: usize, class: TokenClass) -> (r: bool)
        requires
            old(self)@.wf(),
            offset < usize::MAX,
        ensures
            final(self)@.taken == old(self)@.taken,
            final(self)@ == old(self)@.looked_up(offset as int, class),
            r == old(self)@.stands(offset as int, class),
            final(self)@.wf(),
            final(self)@.remaining() <= old(self)@.remaining(),
            r ==> final(self)@.remaining() > 0,
            final(self)@.unglue == old(self)@.unglue,
            final(self).same_setting(old(self)),
            final(self).allocated() == old(self).allocated(),
            final(self).spec_log() == old(self).spec_log(),
    {
        self.fetch_tokens(offset + 1);
        self.expected.push(class.token_type());
        if offset < self.token_buffer.len() {
            class.holds(self.token_buffer[offset].kind)
        } else {
            false
        }
    }

    /// Takes the next token if it is of `class`, and notes the class as
    /// expected if it is not.
    pub fn take(&mut self, class: TokenClass) -> (r: Option<Token>)
        requires
            old(self)@.wf(),
        ensures
            final(self)@.taken == opt_token_onto(old(self)@.taken, r),
            final(self)@ == old(self)@.asked(class),
            r == old(self)@.answer(class),
            final(self)@.wf(),
            final(self)@.remaining() <= old(self)@.remaining(),
            r.is_some() ==> final(self)@.remaining() < old(self)@.remaining(),
            r.is_some() ==> class.spec_holds(r->0.kind),
            final(self)@.unglue == old(self)@.unglue,
            final(self).same_setting(old(self)),
            final(self).allocated() == old(self).allocated(),
            final(self).spec_log() == old(self).spec_log(),
    {
        self.fetch_tokens(1);
        if self.token_buffer.len() > 0 && class.holds(self.token_buffer[0].kind) {
            let ghost ready = self@;
            let token = self.token_buffer[0];
            self.token_buffer.pop_front();
            self.expected.clear();
            self.last_span = token.span;
            self.taken = Ghost(self.taken@.push(token.kind));
            assert(self@.buffer =~= ready.buffer.drop_first());
            assert(self@ == ready.popped());
            proof {
                lemma_popped_wf(ready);
            }
            Some(token)
        } else {
            self.expected.push(class.token_type());
            None
        }
    }

    /// The token, or an error that names what was expected and what was
    /// found in its place.
    pub fn make_item_or_err(&mut self, item: Option<Token>) -> (r: Result<Token, ()>)
        requires
            old(self)@.wf(),
        ensures
            final(self)@.taken == old(self)@.taken,
            final(self)@.wf(),
            final(self)@.remaining() <= old(self)@.remaining(),
            final(self)@.unglue == old(self)@.unglue,
            final(self).same_setting(old(self)),
            final(self).allocated() == old(self).allocated(),
            match item {
                Some(token) => r == Ok::<Token, ()>(token) && final(self)@ == old(self)@
                    && final(self).spec_log() == old(self).spec_log(),
                None => {
                    &&& r.is_err()
                    &&& final(self)@ == (ParserView {
                        expected: Seq::empty(),
                        ..old(self)@.fetched(1)
                    })
                    &&& final(self).spec_log() == old(self).spec_log().push(
                        old(self).unexpected_diagnostic(),
                    )
                },
            },
            final(self).spec_log().len() >= old(self).spec_log().len(),
            r.is_err() ==> final(self).spec_log().len() == old(self).spec_log().len() + 1,
            old(self).reports_in_file() ==> final(self).reports_in_file(),
    {
        match item {
            Some(token) => Ok(token),
            None => {
                self.fetch_tokens(1);
                if self.token_buffer.len() > 0 {
                    let token = self.token_buffer[0];
                    let message = make_expected_but_found_err(
                        self.interner,
                        self.symbols,
                        &self.expected,
                        TokenType::Token(token.kind),
                    );
                    self.diagnostics.error(&mut self.log, UNEXPECTED_TOKEN, token.span, message);
                } else {
                    let message = make_expected_but_found_err(
                        self.interner,
                        self.symbols,
                        &self.expected,
                        TokenType::Eof,
                    );
                    self.diagnostics.error(&mut self.log, UNEXPECTED_EOF, self.end, message);
                }
                self.expected.clear();
                Err(())
            },
        }
    }

    /// The error for the token that stands where something else was
    /// expected, or for the end of the file.
    pub closed spec fn unexpected_diagnostic(&self) -> DiagnosticsView {
        let ready = self@.fetched(1);
        if ready.buffer.len() > 0 {
            located(
                self.diagnostics.file,
                UNEXPECTED_TOKEN,
                DiagnosticsLevel::Error,
                ready.buffer[0].span,
                expected_but_found(
                    self.interner@,
                    self.symbols,
                    ready.expected,
                    TokenType::Token(ready.buffer[0].kind),
                ),
                Seq::empty(),
            )
        } else {
            located(
                self.diagnostics.file,
                UNEXPECTED_EOF,
                DiagnosticsLevel::Error,
                self.end,
                expected_but_found(self.interner@, self.symbols, ready.expected, TokenType::Eof),
                Seq::empty(),
            )
        }
    }

    /// Takes the next token if it is of `class`, and reports an error if
    /// it is not.
    pub fn take_or_err(&mut self, class: TokenClass) -> (r: Result<Token, ()>)
        requires
            old(self)@.wf(),
        ensures
            r.is_ok() ==> final(self)@.taken == token_onto(old(self)@.taken, r->Ok_0),
            final(self)@.wf(),
            final(self)@.remaining() <= old(self)@.remaining(),
            r.is_ok() ==> final(self)@.remaining() < old(self)@.remaining(),
            r.is_ok() ==> class.spec_holds(r->Ok_0.kind),
            r.is_ok() == old(self)@.answer(class).is_some(),
            r.is_ok() ==> Some(r->Ok_0) == old(self)@.answer(class) && final(self)@ == old(self)@.asked(class),
            final(self)@.unglue == old(self)@.unglue,
            final(self).same_setting(old(self)),
            final(self).allocated() == old(self).allocated(),
            final(self).spec_log().len() >= old(self).spec_log().len(),
            r.is_err() ==> final(self).spec_log().len() == old(self).spec_log().len() + 1,
            old(self).reports_in_file() ==> final(self).reports_in_file(),
            r.is_ok() ==> final(self).spec_log() == old(self).spec_log(),
    {
        let item = self.take(class);
        self.make_item_or_err(item)
    }

    /// The parser has gone on from the state `before`: it is in order, no
    /// token has come back, and it has the setting, the identities and the
    /// reports that it had, and maybe more of the last two.
    pub open spec fn advanced(&self, before: &Parser) -> bool {
        &&& self@.wf()
        &&& self@.remaining() <= before@.remaining()
        &&& self.same_setting(before)
        &&& self.allocated() >= before.allocated()
        &&& self.spec_log().len() >= before.spec_log().len()
        &&& before.reports_in_file() ==> self.reports_in_file()
    }

    /// Where the next token starts, or where the file ends if no token is
    /// left.
    pub open spec fn next_low(&self) -> Pos {
        if self@.fetched(1).buffer.len() > 0 {
            self@.fetched(1).buffer[0].span.low
        } else {
            self.spec_end().high
        }
    }

    /// The span of what was taken between this state and the state
    /// `after`: from the start of the next token to the end of the token
    /// that was taken last.
    pub open spec fn span_to(&self, after: &Parser) -> Span {
        Span { low: self.next_low(), high: after@.last_span.high }
    }

    /// Nothing has failed since the state `before`: nothing was reported,
    /// and a node identity is left.
    pub open spec fn quiet_since(&self, before: &Parser) -> bool {
        self.spec_log().len() == before.spec_log().len() && self.allocated() < u64::MAX
    }

    /// The parser has failed aloud since the state `before`: something was
    /// reported, or no node identity is left.
    pub open spec fn failed_aloud(&self, before: &Parser) -> bool {
        self.spec_log().len() > before.spec_log().len() || self.allocated() == u64::MAX
    }

    /// Every report so far is an error at a place of the parser's file.
    pub open spec fn reports_in_file(&self) -> bool {
        errors_in(self.spec_diagnostics().file, self.spec_log())
    }

    /// Takes the next token if it is a name.
    pub fn identifier(&mut self) -> (r: Option<Id>)
        requires
            old(self)@.wf(),
        ensures
            final(self)@.taken == opt_id_onto(old(self)@.taken, r),
            final(self)@ == old(self)@.asked(TokenClass::Identifier),
            r == (match old(self)@.answer(TokenClass::Identifier) {
                Some(token) => Some(Id { span: token.span, symbol: token.kind->Id_symbol }),
                None => None,
            }),
            r.is_some() ==> final(self)@.remaining() < old(self)@.remaining(),
            final(self).spec_log() == old(self).spec_log(),
            final(self)@.wf(),
            final(self)@.remaining() <= old(self)@.remaining(),
            final(self)@.unglue == old(self)@.unglue,
            final(self).same_setting(old(self)),
            final(self).allocated() == old(self).allocated(),
            final(self).spec_log().len() >= old(self).spec_log().len(),
            old(self).reports_in_file() ==> final(self).reports_in_file(),
    {
        match self.take(TokenClass::Identifier) {
            Some(token) => match token.kind {
                TokenKind::Id { symbol } => Some(Id { span: token.span, symbol }),
                _ => None,
            },
            None => None,
        }
    }

    /// Takes the next token if it is a name, and reports an error if not.
    pub fn identifier_or_err(&mut self) -> (r: Result<Id, ()>)
        requires
            old(self)@.wf(),
        ensures
            r.is_ok() ==> final(self)@.taken == id_onto(old(self)@.taken, r->Ok_0),
            r.is_ok() == old(self)@.answer(TokenClass::Identifier).is_some(),
            r.is_ok() ==> final(self)@ == old(self)@.asked(TokenClass::Identifier) && r->Ok_0 == (
            Id {
                span: old(self)@.answer(TokenClass::Identifier)->0.span,
                symbol: old(self)@.answer(TokenClass::Identifier)->0.kind->Id_symbol,
            }) && final(self).spec_log() == old(self).spec_log(),
            r.is_ok() ==> final(self)@.remaining() < old(self)@.remaining(),
            final(self)@.wf(),
            final(self)@.remaining() <= old(self)@.remaining(),
            final(self)@.unglue == old(self)@.unglue,
            final(self).same_setting(old(self)),
            final(self).allocated() == old(self).allocated(),
            final(self).spec_log().len() >= old(self).spec_log().len(),
            r.is_err() ==> final(self).spec_log().len() == old(self).spec_log().len() + 1,
            old(self).reports_in_file() ==> final(self).reports_in_file(),
    {
        match self.take_or_err(TokenClass::Identifier) {
            Ok(token) => match token.kind {
                TokenKind::Id { symbol } => Ok(Id { span: token.span, symbol }),
                _ => Err(()),
            },
            Err(_) => Err(()),
        }
    }

    /// Takes the next token if it is the well-known name at `keyword`.
    pub fn keyword(&mut self, keyword: usize) -> (r: Option<Id>)
        requires
            old(self)@.wf(),
        ensures
            final(self)@.taken == opt_id_onto(old(self)@.taken, r),
            final(self)@ == old(self)@.asked(
                TokenClass::Keyword(old(self).spec_symbols().spec_get(keyword as int)),
            ),
            r == (match old(self)@.answer(
                TokenClass::Keyword(old(self).spec_symbols().spec_get(keyword as int)),
            ) {
                Some(token) => Some(
                    Id {
                        span: token.span,
                        symbol: old(self).spec_symbols().spec_get(keyword as int),
                    },
                ),
                None => None,
            }),
            r.is_some() ==> final(self)@.remaining() < old(self)@.remaining(),
            final(self).spec_log() == old(self).spec_log(),
            final(self)@.wf(),
            final(self)@.remaining() <= old(self)@.remaining(),
            final(self)@.unglue == old(self)@.unglue,
            final(self).same_setting(old(self)),
            final(self).allocated() == old(self).allocated(),
            final(self).spec_log().len() >= old(self).spec_log().len(),
            old(self).reports_in_file() ==> final(self).reports_in_file(),
    {
        let symbol = self.symbols.get(keyword);
        match self.take(TokenClass::Keyword(symbol)) {
            Some(token) => Some(Id { span: token.span, symbol }),
            None => None,
        }
    }

    /// Takes the next token if it is the well-known name at `keyword`, and
    /// reports an error if not.
    pub fn keyword_or_err(&mut self, keyword: usize) -> (r: Result<Id, ()>)
        requires
            old(self)@.wf(),
        ensures
            r.is_ok() ==> final(self)@.taken == id_onto(old(self)@.taken, r->Ok_0),
            r.is_ok() == old(self)@.answer(
                TokenClass::Keyword(old(self).spec_symbols().spec_get(keyword as int)),
            ).is_some(),
            r.is_ok() ==> final(self)@ == old(self)@.asked(
                TokenClass::Keyword(old(self).spec_symbols().spec_get(keyword as int)),
            ) && r->Ok_0.symbol == old(self).spec_symbols().spec_get(keyword as int)
                && final(self).spec_log() == old(self).spec_log(),
            r.is_ok() ==> final(self)@.remaining() < old(self)@.remaining(),
            final(self)@.wf(),
            final(self)@.remaining() <= old(self)@.remaining(),
            final(self)@.unglue == old(self)@.unglue,
            final(self).same_setting(old(self)),
            final(self).allocated() == old(self).allocated(),
            final(self).spec_log().len() >= old(self).spec_log().len(),
            r.is_err() ==> final(self).spec_log().len() == old(self).spec_log().len() + 1,
            old(self).reports_in_file() ==> final(self).reports_in_file(),
    {
        let symbol = self.symbols.get(keyword);
        match self.take_or_err(TokenClass::Keyword(symbol)) {
            Ok(token) => Ok(Id { span: token.span, symbol }),
            Err(_) => Err(()),
        }
    }

    /// Takes the next token if it is of kind `kind`.
    pub fn kind(&mut self, kind: TokenKind) -> (r: Option<Token>)
        requires
            old(self)@.wf(),
        ensures
            final(self)@.taken == opt_token_onto(old(self)@.taken, r),
            final(self)@ == old(self)@.asked(TokenClass::Kind(kind)),
            r == old(self)@.answer(TokenClass::Kind(kind)),
            r.is_some() ==> final(self)@.remaining() < old(self)@.remaining(),
            final(self).spec_log() == old(self).spec_log(),
            final(self)@.wf(),
            final(self)@.remaining() <= old(self)@.remaining(),
            final(self)@.unglue == old(self)@.unglue,
            final(self).same_setting(old(self)),
            final(self).allocated() == old(self).allocated(),
            final(self).spec_log().len() >= old(self).spec_log().len(),
            old(self).reports_in_file() ==> final(self).reports_in_file(),
    {
        self.take(TokenClass::Kind(kind))
    }

    /// Takes the next token if it is of kind `kind`, and reports an error
    /// if not.
    pub fn kind_or_err(&mut self, kind: TokenKind) -> (r: Result<Token, ()>)
        requires
            old(self)@.wf(),
        ensures
            r.is_ok() ==> final(self)@.taken == token_onto(old(self)@.taken, r->Ok_0),
            r.is_ok() == old(self)@.answer(TokenClass::Kind(kind)).is_some(),
            r.is_ok() ==> Some(r->Ok_0) == old(self)@.answer(TokenClass::Kind(kind)) && final(self)@ == old(self)@.asked(TokenClass::Kind(kind)) && final(self).spec_log() == old(self).spec_log(),
            r.is_ok() ==> final(self)@.remaining() < old(self)@.remaining(),
            final(self)@.wf(),
            final(self)@.remaining() <= old(self)@.remaining(),
            final(self)@.unglue == old(self)@.unglue,
            final(self).same_setting(old(self)),
            final(self).allocated() == old(self).allocated(),
            final(self).spec_log().len() >= old(self).spec_log().len(),
            r.is_err() ==> final(self).spec_log().len() == old(self).spec_log().len() + 1,
            old(self).reports_in_file() ==> final(self).reports_in_file(),
    {
        self.take_or_err(TokenClass::Kind(kind))
    }

    /// Takes the next token if it is an assignment operator.
    pub fn assignment_op(&mut self) -> (r: Option<Token>)
        requires
            old(self)@.wf(),
        ensures
            final(self)@.taken == opt_token_onto(old(self)@.taken, r),
            final(self)@ == old(self)@.asked(TokenClass::AssignmentOp),
            r == old(self)@.answer(TokenClass::AssignmentOp),
            r.is_some() ==> final(self)@.remaining() < old(self)@.remaining(),
            final(self).spec_log() == old(self).spec_log(),
            final(self)@.wf(),
            final(self)@.remaining() <= old(self)@.remaining(),
            final(self)@.unglue == old(self)@.unglue,
            final(self).same_setting(old(self)),
            final(self).allocated() == old(self).allocated(),
    {
        self.take(TokenClass::AssignmentOp)
    }

    /// Takes the next token if it is an assignment operator, and reports
    /// an error if not.
    pub fn assignment_op_or_err(&mut self) -> (r: Result<Token, ()>)
        requires
            old(self)@.wf(),
        ensures
            r.is_ok() ==> final(self)@.taken == token_onto(old(self)@.taken, r->Ok_0),
            r.is_ok() == old(self)@.answer(TokenClass::AssignmentOp).is_some(),
            r.is_ok() ==> Some(r->Ok_0) == old(self)@.answer(TokenClass::AssignmentOp) && final(self)@ == old(self)@.asked(TokenClass::AssignmentOp),
            r.is_ok() ==> final(self)@.remaining() < old(self)@.remaining(),
            final(self)@.wf(),
            final(self)@.remaining() <= old(self)@.remaining(),
            final(self)@.unglue == old(self)@.unglue,
            final(self).same_setting(old(self)),
            final(self).allocated() == old(self).allocated(),
            final(self).spec_log().len() >= old(self).spec_log().len(),
            r.is_err() ==> final(self).spec_log().len() == old(self).spec_log().len() + 1,
            old(self).reports_in_file() ==> final(self).reports_in_file(),
    {
        self.take_or_err(TokenClass::AssignmentOp)
    }

    /// Takes the next token if it is a unary operator.
    pub fn unary_op(&mut self) -> (r: Option<Token>)
        requires
            old(self)@.wf(),
        ensures
            final(self)@.taken == opt_token_onto(old(self)@.taken, r),
            final(self)@ == old(self)@.asked(TokenClass::UnaryOp),
            r == old(self)@.answer(TokenClass::UnaryOp),
            r.is_some() ==> final(self)@.remaining() < old(self)@.remaining(),
            final(self).spec_log() == old(self).spec_log(),
            final(self)@.wf(),
            final(self)@.remaining() <= old(self)@.remaining(),
            final(self)@.unglue == old(self)@.unglue,
            final(self).same_setting(old(self)),
            final(self).allocated() == old(self).allocated(),
    {
        self.take(TokenClass::UnaryOp)
    }

    /// Takes the next token if it is a unary operator, and reports an error
    /// if not.
    pub fn unary_op_or_err(&mut self) -> (r: Result<Token, ()>)
        requires
            old(self)@.wf(),
        ensures
            r.is_ok() ==> final(self)@.taken == token_onto(old(self)@.taken, r->Ok_0),
            r.is_ok() == old(self)@.answer(TokenClass::UnaryOp).is_some(),
            r.is_ok() ==> Some(r->Ok_0) == old(self)@.answer(TokenClass::UnaryOp) && final(self)@
                == old(self)@.asked(TokenClass::UnaryOp),
            r.is_ok() ==> final(self)@.remaining() < old(self)@.remaining(),
            final(self)@.wf(),
            final(self)@.remaining() <= old(self)@.remaining(),
            final(self)@.unglue == old(self)@.unglue,
            final(self).same_setting(old(self)),
            final(self).allocated() == old(self).allocated(),
            final(self).spec_log().len() >= old(self).spec_log().len(),
            r.is_err() ==> final(self).spec_log().len() == old(self).spec_log().len() + 1,
            old(self).reports_in_file() ==> final(self).reports_in_file(),
    {
        self.take_or_err(TokenClass::UnaryOp)
    }

    /// Takes the next token if it is a binary operator.
    pub fn binary_op(&mut self) -> (r: Option<Token>)
        requires
            old(self)@.wf(),
        ensures
            final(self)@.taken == opt_token_onto(old(self)@.taken, r),
            final(self)@ == old(self)@.asked(TokenClass::BinaryOp),
            r == old(self)@.answer(TokenClass::BinaryOp),
            r.is_some() ==> final(self)@.remaining() < old(self)@.remaining(),
            final(self).spec_log() == old(self).spec_log(),
            final(self)@.wf(),
            final(self)@.remaining() <= old(self)@.remaining(),
            final(self)@.unglue == old(self)@.unglue,
            final(self).same_setting(old(self)),
            final(self).allocated() == old(self).allocated(),
    {
        self.take(TokenClass::BinaryOp)
    }

    /// Takes the next token if it is a binary operator, and reports an
    /// error if not.
    pub fn binary_op_or_err(&mut self) -> (r: Result<Token, ()>)
        requires
            old(self)@.wf(),
        ensures
            r.is_ok() ==> final(self)@.taken == token_onto(old(self)@.taken, r->Ok_0),
            r.is_ok() == old(self)@.answer(TokenClass::BinaryOp).is_some(),
            r.is_ok() ==> Some(r->Ok_0) == old(self)@.answer(TokenClass::BinaryOp) && final(self)@
                == old(self)@.asked(TokenClass::BinaryOp),
            r.is_ok() ==> final(self)@.remaining() < old(self)@.remaining(),
            final(self)@.wf(),
            final(self)@.remaining() <= old(self)@.remaining(),
            final(self)@.unglue == old(self)@.unglue,
            final(self).same_setting(old(self)),
            final(self).allocated() == old(self).allocated(),
            final(self).spec_log().len() >= old(self).spec_log().len(),
            r.is_err() ==> final(self).spec_log().len() == old(self).spec_log().len() + 1,
            old(self).reports_in_file() ==> final(self).reports_in_file(),
    {
        self.take_or_err(TokenClass::BinaryOp)
    }

    /// Takes the next token if it is a literal.
    pub fn literal(&mut self) -> (r: Option<TokenLiteral>)
        requires
            old(self)@.wf(),
        ensures
            final(self)@.taken == opt_literal_onto(old(self)@.taken, r),
            final(self)@ == old(self)@.asked(TokenClass::Literal),
            r == (match old(self)@.answer(TokenClass::Literal) {
                Some(token) => Some(token.kind->Literal_0),
                None => None,
            }),
            r.is_some() ==> final(self)@.remaining() < old(self)@.remaining(),
            final(self).spec_log() == old(self).spec_log(),
            final(self)@.wf(),
            final(self)@.remaining() <= old(self)@.remaining(),
            final(self)@.unglue == old(self)@.unglue,
            final(self).same_setting(old(self)),
            final(self).allocated() == old(self).allocated(),
            final(self).spec_log().len() >= old(self).spec_log().len(),
            old(self).reports_in_file() ==> final(self).reports_in_file(),
    {
        match self.take(TokenClass::Literal) {
            Some(token) => match token.kind {
                TokenKind::Literal(literal) => Some(literal),
                _ => None,
            },
            None => None,
        }
    }

    /// Takes the next token if it is a literal, and reports an error if not.
    pub fn literal_op_or_err(&mut self) -> (r: Result<TokenLiteral, ()>)
        requires
            old(self)@.wf(),
        ensures
            r.is_ok() ==> final(self)@.taken == literal_onto(old(self)@.taken, r->Ok_0),
            r.is_ok() == old(self)@.answer(TokenClass::Literal).is_some(),
            r.is_ok() ==> final(self)@ == old(self)@.asked(TokenClass::Literal) && r->Ok_0 == old(self)@.answer(TokenClass::Literal)->0.kind->Literal_0,
            r.is_ok() ==> final(self)@.remaining() < old(self)@.remaining(),
            final(self)@.wf(),
            final(self)@.remaining() <= old(self)@.remaining(),
            final(self)@.unglue == old(self)@.unglue,
            final(self).same_setting(old(self)),
            final(self).allocated() == old(self).allocated(),
            final(self).spec_log().len() >= old(self).spec_log().len(),
            r.is_err() ==> final(self).spec_log().len() == old(self).spec_log().len() + 1,
            old(self).reports_in_file() ==> final(self).reports_in_file(),
    {
        match self.take_or_err(TokenClass::Literal) {
            Ok(token) => match token.kind {
                TokenKind::Literal(literal) => Ok(literal),
                _ => Err(()),
            },
            Err(_) => Err(()),
        }
    }

    pub fn lookup_identifier(&mut self, offset: usize) -> (r: bool)
        requires
            old(self)@.wf(),
            offset < usize::MAX,
        ensures
            final(self)@.taken == old(self)@.taken,
            final(self)@ == old(self)@.looked_up(offset as int, TokenClass::Identifier),
            r == old(self)@.stands(offset as int, TokenClass::Identifier),
            final(self)@.wf(),
            final(self)@.remaining() <= old(self)@.remaining(),
            r ==> final(self)@.remaining() > 0,
            final(self)@.unglue == old(self)@.unglue,
            final(self).same_setting(old(self)),
            final(self).allocated() == old(self).allocated(),
            final(self).spec_log() == old(self).spec_log(),
    {
        self.lookup(offset, TokenClass::Identifier)
    }

    /// Whether the well-known name at `keyword` stands `offset` tokens
    /// ahead.
    pub fn lookup_keyword(&mut self, offset: usize, keyword: usize) -> (r: bool)
        requires
            old(self)@.wf(),
            offset < usize::MAX,
        ensures
            final(self)@.taken == old(self)@.taken,
            final(self)@ == old(self)@.looked_up(
                offset as int,
                TokenClass::Keyword(old(self).spec_symbols().spec_get(keyword as int)),
            ),
            r == old(self)@.stands(
                offset as int,
                TokenClass::Keyword(old(self).spec_symbols().spec_get(keyword as int)),
            ),
            final(self)@.wf(),
            final(self)@.remaining() <= old(self)@.remaining(),
            r ==> final(self)@.remaining() > 0,
            final(self)@.unglue == old(self)@.unglue,
            final(self).same_setting(old(self)),
            final(self).allocated() == old(self).allocated(),
            final(self).spec_log() == old(self).spec_log(),
    {
        let symbol = self.symbols.get(keyword);
        self.lookup(offset, TokenClass::Keyword(symbol))
    }

    pub fn lookup_kind(&mut self, offset: usize, kind: TokenKind) -> (r: bool)
        requires
            old(self)@.wf(),
            offset < usize::MAX,
        ensures
            final(self)@.taken == old(self)@.taken,
            final(self)@ == old(self)@.looked_up(offset as int, TokenClass::Kind(kind)),
            r == old(self)@.stands(offset as int, TokenClass::Kind(kind)),
            final(self)@.wf(),
            final(self)@.remaining() <= old(self)@.remaining(),
            r ==> final(self)@.remaining() > 0,
            final(self)@.unglue == old(self)@.unglue,
            final(self).same_setting(old(self)),
            final(self).allocated() == old(self).allocated(),
            final(self).spec_log() == old(self).spec_log(),
    {
        self.lookup(offset, TokenClass::Kind(kind))
    }

    pub fn lookup_assignment_op(&mut self, offset: usize) -> (r: bool)
        requires
            old(self)@.wf(),
            offset < usize::MAX,
        ensures
            final(self)@.taken == old(self)@.taken,
            final(self)@ == old(self)@.looked_up(offset as int, TokenClass::AssignmentOp),
            r == old(self)@.stands(offset as int, TokenClass::AssignmentOp),
            final(self)@.wf(),
            final(self)@.remaining() <= old(self)@.remaining(),
            r ==> final(self)@.remaining() > 0,
            final(self)@.unglue == old(self)@.unglue,
            final(self).same_setting(old(self)),
            final(self).allocated() == old(self).allocated(),
            final(self).spec_log() == old(self).spec_log(),
    {
        self.lookup(offset, TokenClass::AssignmentOp)
    }

    pub fn lookup_unary_op(&mut self, offset: usize) -> (r: bool)
        requires
            old(self)@.wf(),
            offset < usize::MAX,
        ensures
            final(self)@.taken == old(self)@.taken,
            final(self)@ == old(self)@.looked_up(offset as int, TokenClass::UnaryOp),
            r == old(self)@.stands(offset as int, TokenClass::UnaryOp),
            final(self)@.wf(),
            final(self)@.remaining() <= old(self)@.remaining(),
            r ==> final(self)@.remaining() > 0,
            final(self)@.unglue == old(self)@.unglue,
            final(self).same_setting(old(self)),
            final(self).allocated() == old(self).allocated(),
            final(self).spec_log() == old(self).spec_log(),
    {
        self.lookup(offset, TokenClass::UnaryOp)
    }

    pub fn lookup_binary_op(&mut self, offset: usize) -> (r: bool)
        requires
            old(self)@.wf(),
            offset < usize::MAX,
        ensures
            final(self)@.taken == old(self)@.taken,
            final(self)@ == old(self)@.looked_up(offset as int, TokenClass::BinaryOp),
            r == old(self)@.stands(offset as int, TokenClass::BinaryOp),
            final(self)@.wf(),
            final(self)@.remaining() <= old(self)@.remaining(),
            r ==> final(self)@.remaining() > 0,
            final(self)@.unglue == old(self)@.unglue,
            final(self).same_setting(old(self)),
            final(self).allocated() == old(self).allocated(),
            final(self).spec_log() == old(self).spec_log(),
    {
        self.lookup(offset, TokenClass::BinaryOp)
    }

    /// Passes the tokens that all of `skippers` skip. What was expected
    /// is forgotten.
    pub fn skip_tokens(&mut self, skippers: &Vec<Skipper>)
        requires
            old(self)@.wf(),
        ensures
            final(self)@ == (ParserView { expected: Seq::empty(), ..old(self)@ }).passed(
                skippers@,
                old(self).spec_symbols(),
            ),
            final(self)@.wf(),
            final(self)@.remaining() <= old(self)@.remaining(),
            final(self)@.unglue == old(self)@.unglue,
            final(self).same_setting(old(self)),
            final(self).allocated() == old(self).allocated(),
            final(self).spec_log() == old(self).spec_log(),
    {
        self.expected.clear();
        let ghost start = self@;
        loop
            invariant_except_break
                self@.passed(skippers@, self.spec_symbols()) == start.passed(
                    skippers@,
                    self.spec_symbols(),
                ),
            invariant
                self@.wf(),
                self@.expected == Seq::<TokenType>::empty(),
                self@.remaining() <= old(self)@.remaining(),
                self@.unglue == old(self)@.unglue,
                self.same_setting(old(self)),
                self.allocated() == old(self).allocated(),
                self.spec_log() == old(self).spec_log(),
            ensures
                self@ == start.passed(skippers@, self.spec_symbols()),
            decreases self@.remaining(),
        {
            let ghost before = self@;
            proof {
                lemma_fetched(before, 1);
                reveal(ParserView::passed);
            }
            self.fetch_tokens(1);
            if self.token_buffer.len() == 0 {
                assert(before.passed(skippers@, self.spec_symbols()) == self@);
                break ;
            }
            let token = self.token_buffer[0];
            if !skipped_by(skippers, self.symbols, &token) {
                assert(before.passed(skippers@, self.spec_symbols()) == self@);
                break ;
            }
            let ghost ready = self@;
            self.token_buffer.pop_front();
            self.last_span = token.span;
            self.taken = Ghost(self.taken@.push(token.kind));
            assert(self@.buffer =~= ready.buffer.drop_first());
            assert(self@ == ready.popped());
            proof {
                lemma_popped_wf(ready);
            }
            assert(before.passed(skippers@, self.spec_symbols()) == self@.passed(
                skippers@,
                self.spec_symbols(),
            ));
        }
    }

    /// Takes the next token, whatever it is. Returns whether there was one.
    pub fn skip_one(&mut self) -> (r: bool)
        requires
            old(self)@.wf(),
        ensures
            final(self)@.wf(),
            final(self)@.remaining() <= old(self)@.remaining(),
            r ==> final(self)@.remaining() < old(self)@.remaining(),
            !r ==> final(self)@.remaining() == 0,
            r == (old(self)@.fetched(1).buffer.len() > 0),
            final(self)@ == (if r {
                old(self)@.fetched(1).popped()
            } else {
                old(self)@.fetched(1)
            }),
            final(self)@.unglue == old(self)@.unglue,
            final(self).same_setting(old(self)),
            final(self).allocated() == old(self).allocated(),
            final(self).spec_log() == old(self).spec_log(),
    {
        proof {
            lemma_fetched(self@, 1);
        }
        self.fetch_tokens(1);
        if self.token_buffer.len() == 0 {
            return false;
        }
        let ghost ready = self@;
        let token = self.token_buffer[0];
        self.token_buffer.pop_front();
        self.expected.clear();
        self.last_span = token.span;
        self.taken = Ghost(self.taken@.push(token.kind));
        assert(self@.buffer =~= ready.buffer.drop_first());
        assert(self@ == ready.popped());
        proof {
            lemma_popped_wf(ready);
        }
        true
    }

    /// The span from `pos` to the end of the token that was passed last.
    pub fn make_span(&self, pos: Pos) -> (r: Span)
        ensures
            r == (Span { low: pos, high: self@.last_span.high }),
    {
        Span { low: pos, high: self.last_span.high }
    }

    /// Reports an error at `span`.
    pub fn error(&mut self, code: u32, span: Span, message: String)
        ensures
            final(self)@.taken == old(self)@.taken,
            final(self)@ == old(self)@,
            final(self).same_setting(old(self)),
            final(self).allocated() == old(self).allocated(),
            final(self).spec_log() == old(self).spec_log().push(
                located(
                    old(self).spec_diagnostics().file,
                    code,
                    DiagnosticsLevel::Error,
                    span,
                    message@,
                    Seq::empty(),
                ),
            ),
            old(self).reports_in_file() ==> final(self).reports_in_file(),
    {
        self.diagnostics.error(&mut self.log, code, span, message);
    }

    /// The text of `symbol` between backquotes.
    pub fn display(&self, symbol: Symbol) -> (r: String)
        ensures
            r@ == crate::symbol::interner::quoted(self.spec_table(), symbol),
    {
        self.interner.display(symbol)
    }
}

/// Whether a token of this kind begins with an angle bracket and goes on.
pub fn is_angled(kind: TokenKind) -> (r: bool)
    ensures
        r == angled(kind),
{
    match kind {
        TokenKind::Le
        | TokenKind::Ge
        | TokenKind::Shl
        | TokenKind::Shr
        | TokenKind::AssignShl
        | TokenKind::AssignShr => true,
        _ => false,
    }
}

/// The number of tokens of one character of which a token of this kind is
/// made.
pub fn unglued_count(kind: TokenKind) -> (r: u32)
    ensures
        r == unglued_kinds(kind).len(),
        1 <= r <= 3,
{
    match kind {
        TokenKind::AssignPow | TokenKind::AssignShl | TokenKind::AssignShr | TokenKind::RngInclusive => 3,
        TokenKind::Arrow
        | TokenKind::AssignAdd
        | TokenKind::AssignSub
        | TokenKind::AssignMul
        | TokenKind::AssignDiv
        | TokenKind::AssignMod
        | TokenKind::AssignBitOr
        | TokenKind::AssignBitAnd
        | TokenKind::AssignBitXor
        | TokenKind::Rng
        | TokenKind::Eq
        | TokenKind::Ne
        | TokenKind::Le
        | TokenKind::Ge
        | TokenKind::Pow
        | TokenKind::Shl
        | TokenKind::Shr
        | TokenKind::LogOr
        | TokenKind::LogAnd
        | TokenKind::PathSep => 2,
        _ => 1,
    }
}

} // verus!
