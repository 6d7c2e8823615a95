use vstd::prelude::*;
use vstd::string::*;
use crate::symbol::interner::Interner;
use crate::symbol::name::Symbol;

verus! {

/// Why a source file could not be made a module. Each carries the path, or
/// for an error of reading the words of that error.
#[derive(Debug)]
pub enum SourceFileResolveError {
    IOError(String),
    PathIsAbsolute(String),
    PathHasNoFileName(String),
    InvalidUTF8(String),
}

impl SourceFileResolveError {
    /// The error in words.
    pub open spec fn spec_message(&self) -> Seq<char> {
        match self {
            SourceFileResolveError::IOError(error) => "io error: "@ + error@,
            SourceFileResolveError::PathIsAbsolute(path) => "path `"@ + path@
                + "` is absolute; relative paths are expected"@,
            SourceFileResolveError::PathHasNoFileName(path) => "path `"@ + path@
                + "` has no file name"@,
            SourceFileResolveError::InvalidUTF8(path) => "path `"@ + path@
                + "` contains invalid UTF-8"@,
        }
    }

    pub fn message(&self) -> (r: String)
        ensures
            r@ == self.spec_message(),
    {
        match self {
            SourceFileResolveError::IOError(error) => {
                let mut r = String::from_str("io error: ");
                r.append(error.as_str());
                r
            },
            SourceFileResolveError::PathIsAbsolute(path) => {
                let mut r = String::from_str("path `");
                r.append(path.as_str());
                r.append("` is absolute; relative paths are expected");
                r
            },
            SourceFileResolveError::PathHasNoFileName(path) => {
                let mut r = String::from_str("path `");
                r.append(path.as_str());
                r.append("` has no file name");
                r
            },
            SourceFileResolveError::InvalidUTF8(path) => {
                let mut r = String::from_str("path `");
                r.append(path.as_str());
                r.append("` contains invalid UTF-8");
                r
            },
        }
    }
}

/// The texts of `components` as symbols of `table`, one for one.
pub open spec fn path_of(table: Seq<Seq<char>>, components: Seq<String>, path: Seq<Symbol>) -> bool {
    &&& path.len() == components.len()
    &&& forall|i: int|
        0 <= i < path.len() ==> (#[trigger] path[i]).0 < table.len() && table[path[i].0 as int]
            == components[i]@
}

/// The path of the module of a file: one segment for each component of the
/// path of the file, the last without its extension. `None` when the
/// interner is full.
pub fn module_path_of(interner: &mut Interner, components: &Vec<String>) -> (r: Option<Vec<Symbol>>)
    requires
        old(interner).wf(),
    ensures
        final(interner).wf(),
        old(interner)@.len() <= final(interner)@.len(),
        forall|i: int| 0 <= i < old(interner)@.len() ==> old(interner)@[i] == final(interner)@[i],
        match r {
            Some(path) => path_of(final(interner)@, components@, path@),
            None => final(interner)@.len() == u32::MAX,
        },
{
    let mut path: Vec<Symbol> = Vec::new();
    let mut i: usize = 0;
    while i < components.len()
        invariant
            interner.wf(),
            i <= components@.len(),
            old(interner)@.len() <= interner@.len(),
            forall|k: int| 0 <= k < old(interner)@.len() ==> old(interner)@[k] == interner@[k],
            path_of(interner@, components@.take(i as int), path@),
        decreases components@.len() - i,
    {
        let ghost before = interner@;
        let ghost had = path@;
        match interner.intern(components[i].as_str()) {
            Some(symbol) => {
                path.push(symbol);
                assert forall|k: int| 0 <= k < path@.len() implies (#[trigger] path@[k]).0
                    < interner@.len() && interner@[path@[k].0 as int] == components@.take(i + 1)[k]@ by {
                    if k < had.len() {
                        assert(path@[k] == had[k]);
                        assert(before[had[k].0 as int] == components@.take(i as int)[k]@);
                    }
                }
            },
            None => {
                return None;
            },
        }
        i += 1;
    }
    assert(components@.take(components@.len() as int) =~= components@);
    Some(path)
}

} // verus!
