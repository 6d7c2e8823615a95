use vstd::prelude::*;
use vstd::string::*;
use vstd::utf8::*;
use std::sync::Arc;
use crate::sharing::share;
use crate::span::pos::Pos;
use crate::span::source_file::{FileId, SourceFile};
use crate::span::span_range::Span;

verus! {

/// The loaded source files, one after the other in one space of positions.
#[derive(Debug)]
pub struct SourceMap {
    files: Vec<Arc<SourceFile>>,
}

impl View for SourceMap {
    type V = Seq<Arc<SourceFile>>;

    closed spec fn view(&self) -> Seq<Arc<SourceFile>> {
        self.files@
    }
}

/// The position after the last of `files`: zero where there is none.
pub open spec fn end_of(files: Seq<Arc<SourceFile>>) -> Pos {
    if files.len() == 0 {
        Pos(0)
    } else {
        files.last().spec_span().high
    }
}

impl SourceMap {
    pub fn new() -> (r: Self)
        ensures
            r@ == Seq::<Arc<SourceFile>>::empty(),
    {
        Self { files: Vec::new() }
    }

    /// The position at which the next file will start.
    pub fn end_pos(&self) -> (r: Pos)
        ensures
            r == end_of(self@),
    {
        if self.files.len() == 0 {
            Pos(0)
        } else {
            self.files[self.files.len() - 1].span().high
        }
    }

    /// The number of files.
    pub fn len(&self) -> (r: usize)
        ensures
            r == self@.len(),
    {
        self.files.len()
    }

    /// The file with the identity `id`.
    pub fn get(&self, id: FileId) -> (r: Option<&Arc<SourceFile>>)
        ensures
            r == (if id.0 < self@.len() {
                Some(&self@[id.0 as int])
            } else {
                None
            }),
    {
        if id.0 < self.files.len() {
            Some(&self.files[id.0])
        } else {
            None
        }
    }

    /// Adds a file. It gets the next identity and the span that starts where
    /// the last file ends and is as long as `content` has bytes. `None`, and
    /// no change, where the positions would not fit in 32 bits.
    pub fn add_source_file(&mut self, content: String, name: String, path: Option<String>) -> (r:
        Option<Arc<SourceFile>>)
        ensures
            match r {
                Some(file) => {
                    &&& final(self)@ == old(self)@.push(file)
                    &&& file.spec_id() == FileId(old(self)@.len() as usize)
                    &&& file.spec_span().low == end_of(old(self)@)
                    &&& file.spec_span().high.0 == end_of(old(self)@).0 + encode_utf8(
                        content@,
                    ).len()
                    &&& file.spec_content() == content@
                    &&& file.spec_name() == name@
                    &&& file.spec_path() == (match path {
                        Some(p) => Some(p@),
                        None => None,
                    })
                },
                None => {
                    &&& final(self)@ == old(self)@
                    &&& end_of(old(self)@).0 + encode_utf8(content@).len() > u32::MAX
                },
            },
    {
        let low = self.end_pos();
        let length = content.as_str().as_bytes().len();
        if length > (u32::MAX - low.0) as usize {
            return None;
        }
        let high = Pos(low.0 + length as u32);
        let file = Arc::new(
            SourceFile::new(FileId(self.files.len()), Span { low, high }, content, name, path),
        );
        self.files.push(share(&file));
        Some(file)
    }
}

} // verus!
