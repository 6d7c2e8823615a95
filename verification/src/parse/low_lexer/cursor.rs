use vstd::prelude::*;
use crate::parse::low_lexer::chars::{byte_len, lemma_byte_len_grows, utf8_len};

verus! {

/// The character at `at`, or NUL where the text has none there.
pub open spec fn peek(chars: Seq<char>, at: int) -> char {
    if 0 <= at < chars.len() {
        chars[at]
    } else {
        '\0'
    }
}

/// The place after the character at `at`, or `at` where the text has ended.
pub open spec fn advance(chars: Seq<char>, at: int) -> int {
    if 0 <= at < chars.len() {
        at + 1
    } else {
        at
    }
}

/// A place in a text from which characters are read one by one, and the
/// place at which reading began.
#[derive(Debug)]
pub struct Cursor<'s> {
    chars: &'s Vec<char>,
    start: usize,
    position: usize,
    consumed: u32,
}

impl<'s> Cursor<'s> {
    /// The text that the cursor reads.
    pub closed spec fn spec_chars(&self) -> Seq<char> {
        self.chars@
    }

    /// The place at which reading began.
    pub closed spec fn spec_start(&self) -> int {
        self.start as int
    }

    /// The place of the next character.
    pub closed spec fn spec_position(&self) -> int {
        self.position as int
    }

    /// The cursor stands in its text, not before its start, and has counted
    /// the bytes between its start and its place.
    pub closed spec fn wf(&self) -> bool {
        &&& self.start <= self.position <= self.chars@.len()
        &&& byte_len(self.chars@, self.chars@.len() as int) <= u32::MAX
        &&& self.consumed == byte_len(self.chars@, self.position as int) - byte_len(
            self.chars@,
            self.start as int,
        )
    }

    pub proof fn lemma_wf(&self)
        requires
            self.wf(),
        ensures
            0 <= self.spec_start() <= self.spec_position() <= self.spec_chars().len(),
            byte_len(self.spec_chars(), self.spec_chars().len() as int) <= u32::MAX,
    {
    }

    /// A cursor that reads `chars` from the place `start` on.
    pub fn new(chars: &'s Vec<char>, start: usize) -> (r: Self)
        requires
            start <= chars@.len(),
            byte_len(chars@, chars@.len() as int) <= u32::MAX,
        ensures
            r.wf(),
            r.spec_chars() == chars@,
            r.spec_start() == start,
            r.spec_position() == start,
    {
        Self { chars, start, position: start, consumed: 0 }
    }

    /// The number of bytes of the characters read so far.
    pub fn len_consumed(&self) -> (r: u32)
        requires
            self.wf(),
        ensures
            r == byte_len(self.spec_chars(), self.spec_position()) - byte_len(
                self.spec_chars(),
                self.spec_start(),
            ),
    {
        self.consumed
    }

    /// The place of the next character.
    pub fn position(&self) -> (r: usize)
        requires
            self.wf(),
        ensures
            r == self.spec_position(),
            r <= self.spec_chars().len(),
    {
        self.position
    }

    /// The next character, or NUL at the end.
    pub fn first(&self) -> (r: char)
        requires
            self.wf(),
        ensures
            r == peek(self.spec_chars(), self.spec_position()),
    {
        self.lookup(0)
    }

    /// The character after the next, or NUL where there is none.
    pub fn second(&self) -> (r: char)
        requires
            self.wf(),
        ensures
            r == peek(self.spec_chars(), self.spec_position() + 1),
    {
        self.lookup(1)
    }

    /// The character `offset` places after the next, or NUL where there is
    /// none.
    pub fn lookup(&self, offset: u32) -> (r: char)
        requires
            self.wf(),
        ensures
            r == peek(self.spec_chars(), self.spec_position() + offset),
    {
        let left = self.chars.len() - self.position;
        if (offset as usize) < left {
            self.chars[self.position + offset as usize]
        } else {
            '\0'
        }
    }

    /// Reads the next character, if there is one.
    pub fn consume(&mut self) -> (r: Option<char>)
        requires
            old(self).wf(),
        ensures
            final(self).wf(),
            final(self).spec_chars() == old(self).spec_chars(),
            final(self).spec_start() == old(self).spec_start(),
            final(self).spec_position() == advance(old(self).spec_chars(), old(self).spec_position()),
            r == (if old(self).spec_position() < old(self).spec_chars().len() {
                Some(old(self).spec_chars()[old(self).spec_position()])
            } else {
                None
            }),
    {
        if self.position < self.chars.len() {
            let c = self.chars[self.position];
            proof {
                lemma_byte_len_grows(self.chars@, self.position + 1, self.chars@.len() as int);
                lemma_byte_len_grows(self.chars@, self.start as int, self.position as int);
            }
            self.consumed = self.consumed + utf8_len(c);
            self.position = self.position + 1;
            Some(c)
        } else {
            None
        }
    }
}

} // verus!
