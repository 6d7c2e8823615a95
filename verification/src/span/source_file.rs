use vstd::prelude::*;
use vstd::string::*;
use vstd::utf8::*;
use crate::span::line_col::LineCol;
use crate::span::pos::Pos;
use crate::span::span_range::Span;

verus! {

/// The identity of a loaded source file: its index in the source map.
#[derive(Debug, Clone, Copy, PartialEq, Eq, Structural, Hash)]
pub struct FileId(pub usize);

/// The offsets at which lines start within the first `upto` bytes: zero, and
/// the offset after every line feed.
pub open spec fn line_starts(bytes: Seq<u8>, upto: int) -> Seq<int>
    decreases upto,
{
    if upto <= 0 {
        seq![0int]
    } else if bytes[upto - 1] == 10u8 {
        line_starts(bytes, upto - 1).push(upto)
    } else {
        line_starts(bytes, upto - 1)
    }
}

/// The line starts of a file whose first byte stands at `low`, as positions.
pub open spec fn line_positions_of(low: Pos, bytes: Seq<u8>) -> Seq<Pos> {
    Seq::new(
        line_starts(bytes, bytes.len() as int).len(),
        |k: int| Pos((low.0 + line_starts(bytes, bytes.len() as int)[k]) as u32),
    )
}

/// Line starts begin at zero, grow strictly and stay within the text, and
/// each but the first follows a line feed.
pub proof fn lemma_line_starts(bytes: Seq<u8>, upto: int)
    requires
        0 <= upto <= bytes.len(),
    ensures
        line_starts(bytes, upto).len() >= 1,
        line_starts(bytes, upto).len() <= upto + 1,
        line_starts(bytes, upto)[0] == 0,
        forall|k: int|
            0 <= k < line_starts(bytes, upto).len() ==> 0 <= #[trigger] line_starts(
                bytes,
                upto,
            )[k] <= upto,
        forall|j: int, k: int|
            0 <= j < k < line_starts(bytes, upto).len() ==> line_starts(bytes, upto)[j]
                < line_starts(bytes, upto)[k],
        forall|k: int|
            1 <= k < line_starts(bytes, upto).len() ==> bytes[#[trigger] line_starts(
                bytes,
                upto,
            )[k] - 1] == 10u8,
    decreases upto,
{
    if upto > 0 {
        lemma_line_starts(bytes, upto - 1);
    }
}

/// In valid UTF-8 a byte below 0x80 is a character of its own: there is a
/// character boundary before it and one after it.
pub proof fn lemma_ascii_between_boundaries(bytes: Seq<u8>, at: int)
    requires
        valid_utf8(bytes),
        0 <= at < bytes.len(),
        bytes[at] < 0x80,
    ensures
        is_char_boundary(bytes, at),
        is_char_boundary(bytes, at + 1),
{
    is_char_boundary_iff_not_is_continuation_byte(bytes, at);
    if at + 1 == bytes.len() {
        is_char_boundary_start_end_of_seq(bytes);
    } else {
        valid_utf8_split(bytes, at);
        let tail = bytes.subrange(at, bytes.len() as int);
        assert(tail[0] == bytes[at]);
        assert(valid_first_scalar(tail));
        assert(length_of_first_scalar(tail) == 1);
        let rest = pop_first_scalar(tail);
        assert(valid_utf8(rest));
        assert(rest.len() > 0);
        assert(rest[0] == bytes[at + 1]);
        assert(valid_first_scalar(rest));
        assert(!is_continuation_byte(rest[0]));
        is_char_boundary_iff_not_is_continuation_byte(bytes, at + 1);
    }
}

/// A text has no more characters than bytes.
pub proof fn lemma_encoded_len(chars: Seq<char>)
    ensures
        chars.len() <= encode_utf8(chars).len(),
    decreases chars.len(),
{
    if chars.len() > 0 {
        lemma_encoded_len(chars.drop_first());
    }
}

/// A character boundary of a text is a character boundary of every part
/// of the text that starts at the start and ends at a boundary not before it.
pub proof fn lemma_boundary_in_prefix(bytes: Seq<u8>, at: int, end: int)
    requires
        valid_utf8(bytes),
        0 <= at <= end <= bytes.len(),
        is_char_boundary(bytes, at),
        is_char_boundary(bytes, end),
    ensures
        valid_utf8(bytes.subrange(0, end)),
        is_char_boundary(bytes.subrange(0, end), at),
{
    valid_utf8_split(bytes, end);
    let head = bytes.subrange(0, end);
    if at == end {
        is_char_boundary_start_end_of_seq(head);
    } else {
        is_char_boundary_iff_not_is_continuation_byte(bytes, at);
        assert(head[at] == bytes[at]);
        is_char_boundary_iff_not_is_continuation_byte(head, at);
    }
}

/// The end of the line that starts at `from`, without the line feeds and
/// carriage returns at its end: the least offset, not before `from`, after
/// which the line holds nothing else up to `upto`.
pub open spec fn trimmed_end(bytes: Seq<u8>, from: int, upto: int) -> int
    decreases upto - from,
{
    if upto <= from {
        from
    } else if bytes[upto - 1] == 10u8 || bytes[upto - 1] == 13u8 {
        trimmed_end(bytes, from, upto - 1)
    } else {
        upto
    }
}

/// One loaded source file: its text, where it stands among all loaded text,
/// and where its lines start.
#[derive(Debug)]
pub struct SourceFile {
    id: FileId,
    span: Span,
    content: String,
    line_positions: Vec<Pos>,
    name: String,
    path: Option<String>,
}

impl SourceFile {
    #[verifier::type_invariant]
    spec fn inv(self) -> bool {
        &&& self.span.wf()
        &&& self.span.high.0 - self.span.low.0 == encode_utf8(self.content@).len()
        &&& self.line_positions@ == line_positions_of(self.span.low, encode_utf8(self.content@))
    }

    pub closed spec fn spec_id(&self) -> FileId {
        self.id
    }

    pub closed spec fn spec_span(&self) -> Span {
        self.span
    }

    /// The text of the file.
    pub closed spec fn spec_content(&self) -> Seq<char> {
        self.content@
    }

    /// The text of the file as UTF-8 bytes; spans count these.
    pub open spec fn spec_bytes(&self) -> Seq<u8> {
        encode_utf8(self.spec_content())
    }

    pub closed spec fn spec_name(&self) -> Seq<char> {
        self.name@
    }

    pub closed spec fn spec_path(&self) -> Option<Seq<char>> {
        match self.path {
            Some(path) => Some(path@),
            None => None,
        }
    }

    pub closed spec fn spec_line_positions(&self) -> Seq<Pos> {
        self.line_positions@
    }

    /// A source file over `content`, which must fill `span` exactly.
    pub fn new(id: FileId, span: Span, content: String, name: String, path: Option<String>) -> (r:
        Self)
        requires
            span.wf(),
            span.high.0 - span.low.0 == encode_utf8(content@).len(),
        ensures
            r.spec_id() == id,
            r.spec_span() == span,
            r.spec_content() == content@,
            r.spec_name() == name@,
            r.spec_path() == (match path {
                Some(p) => Some(p@),
                None => None,
            }),
            r.spec_line_positions() == line_positions_of(span.low, encode_utf8(content@)),
    {
        let mut line_positions: Vec<Pos> = Vec::new();
        line_positions.push(span.low);
        let bytes = content.as_str().as_bytes();
        let ghost all = bytes@;
        let n = bytes.len();
        let mut i: usize = 0;
        while i < n
            invariant
                i <= n,
                n == all.len(),
                bytes@ == all,
                span.low.0 + n <= u32::MAX,
                line_positions@.len() == line_starts(all, i as int).len(),
                forall|k: int|
                    0 <= k < line_positions@.len() ==> (#[trigger] line_positions@[k]).0
                        == span.low.0 + line_starts(all, i as int)[k],
            decreases n - i,
        {
            if bytes[i] == 10u8 {
                line_positions.push(Pos(span.low.0 + (i as u32) + 1));
            }
            i += 1;
        }
        assert(line_positions@ =~= line_positions_of(span.low, all));
        Self { id, span, content, line_positions, name, path }
    }

    pub fn id(&self) -> (r: FileId)
        ensures
            r == self.spec_id(),
    {
        self.id
    }

    pub fn span(&self) -> (r: Span)
        ensures
            r == self.spec_span(),
            r.wf(),
            r.high.0 - r.low.0 == self.spec_bytes().len(),
    {
        proof {
            use_type_invariant(self);
        }
        self.span
    }

    /// The empty span at the start of the file.
    pub fn span_begin(&self) -> (r: Span)
        ensures
            r.low == self.spec_span().low,
            r.high == self.spec_span().low,
    {
        Span { low: self.span.low, high: self.span.low }
    }

    /// The empty span at the end of the file.
    pub fn span_end(&self) -> (r: Span)
        ensures
            r.low == self.spec_span().high,
            r.high == self.spec_span().high,
    {
        Span { low: self.span.high, high: self.span.high }
    }

    pub fn content(&self) -> (r: &String)
        ensures
            r@ == self.spec_content(),
    {
        &self.content
    }

    /// The positions at which the lines of the file start.
    pub fn line_positions(&self) -> (r: &Vec<Pos>)
        ensures
            r@ == self.spec_line_positions(),
            r@ == line_positions_of(self.spec_span().low, self.spec_bytes()),
    {
        proof {
            use_type_invariant(self);
        }
        &self.line_positions
    }

    pub fn name(&self) -> (r: &String)
        ensures
            r@ == self.spec_name(),
    {
        &self.name
    }

    /// The span of the line `line`, with the line feed that ends it.
    pub open spec fn spec_line_span(&self, line: int) -> Span {
        Span {
            low: self.spec_line_positions()[line],
            high: if line + 1 == self.spec_line_positions().len() {
                self.spec_span().high
            } else {
                self.spec_line_positions()[line + 1]
            },
        }
    }

    /// Whether `pos` lies in the file and between two characters of it.
    pub open spec fn spec_is_boundary(&self, pos: Pos) -> bool {
        &&& self.spec_span().spec_contains_pos(pos)
        &&& is_char_boundary(self.spec_bytes(), pos.0 - self.spec_span().low.0)
    }

    pub fn line_span(&self, line: u32) -> (r: Span)
        requires
            line < self.spec_line_positions().len(),
        ensures
            r == self.spec_line_span(line as int),
            r.wf(),
            self.spec_span().spec_contains_span(r),
            self.spec_is_boundary(r.low),
            self.spec_is_boundary(r.high),
    {
        proof {
            use_type_invariant(self);
            let bytes = encode_utf8(self.content@);
            lemma_line_starts(bytes, bytes.len() as int);
            encode_utf8_valid_utf8(self.content@);
            is_char_boundary_start_end_of_seq(bytes);
            let starts = line_starts(bytes, bytes.len() as int);
            if line > 0 {
                lemma_ascii_between_boundaries(bytes, starts[line as int] - 1);
            }
            if line + 1 < starts.len() {
                lemma_ascii_between_boundaries(bytes, starts[line + 1] - 1);
            }
        }
        let count = self.line_positions.len();
        let index = line as usize;
        assert(index < count);
        let low = self.line_positions[index];
        let high = if index + 1 == count {
            self.span.high
        } else {
            self.line_positions[index + 1]
        };
        Span { low, high }
    }

    /// The line in which `pos` stands: the last line that starts at or
    /// before it.
    pub fn find_line(&self, pos: Pos) -> (r: u32)
        requires
            self.spec_span().spec_contains_pos(pos),
        ensures
            r < self.spec_line_positions().len(),
            self.spec_line_positions()[r as int].0 <= pos.0,
            r + 1 < self.spec_line_positions().len() ==> pos.0 < self.spec_line_positions()[r
                + 1].0,
    {
        proof {
            use_type_invariant(self);
            let bytes = encode_utf8(self.content@);
            lemma_line_starts(bytes, bytes.len() as int);
        }
        let mut low: usize = 0;
        let mut high: usize = self.line_positions.len();
        while high - low > 1
            invariant
                0 <= low < high <= self.line_positions@.len(),
                self.line_positions@.len() <= u32::MAX + 1,
                self.line_positions@[low as int].0 <= pos.0,
                high < self.line_positions@.len() ==> pos.0 < self.line_positions@[high as int].0,
                forall|j: int, k: int|
                    0 <= j < k < self.line_positions@.len() ==> self.line_positions@[j].0
                        < self.line_positions@[k].0,
            decreases high - low,
        {
            let mid = low + (high - low) / 2;
            if self.line_positions[mid].0 <= pos.0 {
                low = mid;
            } else {
                high = mid;
            }
        }
        low as u32
    }

    /// The line of `pos`, and its column: the number of characters between
    /// the start of the line and `pos`.
    pub fn find_line_col(&self, pos: Pos) -> (r: LineCol)
        requires
            self.spec_is_boundary(pos),
        ensures
            r.line < self.spec_line_positions().len(),
            self.spec_line_positions()[r.line as int].0 <= pos.0,
            r.line + 1 < self.spec_line_positions().len() ==> pos.0 < self.spec_line_positions()[r.line
                + 1].0,
            r.column == decode_utf8(
                self.spec_bytes().subrange(
                    self.spec_line_positions()[r.line as int].0 - self.spec_span().low.0,
                    pos.0 - self.spec_span().low.0,
                ),
            ).len(),
    {
        let line = self.find_line(pos);
        let line_span = self.line_span(line);
        let text = self.slice(Span { low: line_span.low, high: pos });
        proof {
            use_type_invariant(self);
            encode_utf8_decode_utf8(text@);
            lemma_encoded_len(text@);
        }
        let column = text.unicode_len();
        LineCol::new(line, column as u32)
    }

    /// The text of `span`, which must lie in the file and between characters.
    pub fn slice(&self, span: Span) -> (r: &str)
        requires
            span.wf(),
            self.spec_is_boundary(span.low),
            self.spec_is_boundary(span.high),
        ensures
            r.spec_bytes() == self.spec_bytes().subrange(
                span.low.0 - self.spec_span().low.0,
                span.high.0 - self.spec_span().low.0,
            ),
            r.spec_bytes().len() <= u32::MAX,
    {
        proof {
            use_type_invariant(self);
            encode_utf8_valid_utf8(self.content@);
            lemma_boundary_in_prefix(
                encode_utf8(self.content@),
                span.low.0 - self.span.low.0,
                span.high.0 - self.span.low.0,
            );
        }
        let from = (span.low.0 - self.span.low.0) as usize;
        let to = (span.high.0 - self.span.low.0) as usize;
        let (head, _) = self.content.as_str().split_at(to);
        let (_, text) = head.split_at(from);
        assert(text.spec_bytes() =~= self.spec_bytes().subrange(from as int, to as int));
        text
    }

    /// The text of the line `line`, without the line feeds and carriage
    /// returns at its end.
    pub fn slice_line(&self, line: u32) -> (r: &str)
        requires
            line < self.spec_line_positions().len(),
        ensures
            r.spec_bytes() == self.spec_bytes().subrange(
                self.spec_line_span(line as int).low.0 - self.spec_span().low.0,
                trimmed_end(
                    self.spec_bytes(),
                    self.spec_line_span(line as int).low.0 - self.spec_span().low.0,
                    self.spec_line_span(line as int).high.0 - self.spec_span().low.0,
                ),
            ),
    {
        let line_span = self.line_span(line);
        proof {
            use_type_invariant(self);
            encode_utf8_valid_utf8(self.content@);
        }
        let bytes = self.content.as_str().as_bytes();
        let from = (line_span.low.0 - self.span.low.0) as usize;
        let mut to = (line_span.high.0 - self.span.low.0) as usize;
        let ghost upto = to as int;
        while to > from && (bytes[to - 1] == 10u8 || bytes[to - 1] == 13u8)
            invariant
                from <= to <= bytes@.len(),
                bytes@ == self.spec_bytes(),
                valid_utf8(bytes@),
                is_char_boundary(bytes@, to as int),
                trimmed_end(bytes@, from as int, to as int) == trimmed_end(
                    bytes@,
                    from as int,
                    upto,
                ),
            decreases to,
        {
            proof {
                lemma_ascii_between_boundaries(bytes@, to - 1);
            }
            to -= 1;
        }
        self.slice(
            Span {
                low: line_span.low,
                high: Pos(self.span.low.0 + (to as u32)),
            },
        )
    }

    pub fn path(&self) -> (r: Option<&String>)
        ensures
            match r {
                Some(p) => self.spec_path() == Some(p@),
                None => self.spec_path().is_none(),
            },
    {
        self.path.as_ref()
    }

    /// How the file is shown: its name, and its path in parentheses if it
    /// has one.
    pub open spec fn spec_display(&self) -> Seq<char> {
        match self.spec_path() {
            Some(path) => self.spec_name() + " ("@ + path + ")"@,
            None => self.spec_name(),
        }
    }

    pub fn display(&self) -> (r: String)
        ensures
            r@ == self.spec_display(),
    {
        let mut r = String::from_str(self.name.as_str());
        match &self.path {
            Some(path) => {
                r.append(" (");
                r.append(path.as_str());
                r.append(")");
            },
            None => {},
        }
        r
    }
}

} // verus!
