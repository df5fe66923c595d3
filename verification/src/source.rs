//! Abstractions for source code files: the file table and its queries.
//!
//! The table stores immutable `(name, source)` pairs and hands out a
//! stable integer handle per distinct pair; all line queries are pure
//! functions of a handle's immutable text.

use crate::line_index::{
    compute_line_starts, greatest_start_le, lemma_greatest_le_unique, lemma_line_starts_increasing,
    line_index_spec, line_range_spec, line_start_spec, line_starts_spec, matches_table,
};
use crate::text::byte_len;
use core::ops::Range;
use vstd::prelude::*;

verus! {

/// An id used to intern a [`File`]: an index into the file table that
/// produced it.
#[derive(Debug, Clone, Copy, Hash, PartialEq, Eq, Structural)]
pub struct FileId {
    raw: u32,
}

impl View for FileId {
    type V = int;

    closed spec fn view(&self) -> int {
        self.raw as int
    }
}

/// A file that can be interned by a [`SourceDatabase`].
///
/// A file is composed of a name and a source string.
#[derive(Debug, Clone)]
pub struct File {
    name: String,
    source: String,
}

impl File {
    /// The file's name.
    pub closed spec fn name_spec(&self) -> Seq<char> {
        self.name@
    }

    /// The file's source text.
    pub closed spec fn source_spec(&self) -> Seq<char> {
        self.source@
    }

    /// Creates a new `File`.
    pub fn new(name: &str, source: &str) -> (r: Self)
        ensures
            r.name_spec() == name@,
            r.source_spec() == source@,
    {
        Self { name: name.to_owned(), source: source.to_owned() }
    }

    /// Returns a reference to the `name` of this file.
    pub fn name(&self) -> (r: &String)
        ensures
            r@ == self.name_spec(),
    {
        &self.name
    }

    /// Returns a reference to the `source` of this file.
    pub fn source(&self) -> (r: &String)
        ensures
            r@ == self.source_spec(),
    {
        &self.source
    }
}

/// What identifies a file in the table: its name and its full text.
pub open spec fn file_key(f: File) -> (Seq<char>, Seq<char>) {
    (f.name_spec(), f.source_spec())
}

/// The file table: an append-only store of every distinct file ever
/// registered, addressed by content.
pub struct SourceDatabase {
    files: Vec<File>,
}

impl SourceDatabase {
    /// The registered files, in registration order.
    pub closed spec fn files_spec(&self) -> Seq<File> {
        self.files@
    }

    /// The table is well formed: it holds at most `u32::MAX` files, no
    /// two entries share a `(name, source)` key, and every source text's
    /// byte length fits an [`Index`](crate::span::Index).
    pub closed spec fn wf(&self) -> bool {
        &&& self.files_spec().len() <= u32::MAX
        &&& forall|i: int, j: int|
            0 <= i < j < self.files_spec().len() ==> file_key(self.files_spec()[i]) != file_key(
                self.files_spec()[j],
            )
        &&& forall|i: int|
            0 <= i < self.files_spec().len() ==> byte_len(
                #[trigger] self.files_spec()[i].source_spec(),
            ) <= u32::MAX
    }

    /// Creates an empty file table.
    pub fn new() -> (r: Self)
        ensures
            r.wf(),
            r.files_spec().len() == 0,
    {
        Self { files: Vec::new() }
    }

    /// Interns the given [`File`] and returns a [`FileId`] which can
    /// later be used to look the file up.
    ///
    /// Interning is content-addressed: a pair equal to an already
    /// registered one gets that registration's handle and leaves the
    /// table unchanged; a new pair is appended and gets a fresh handle.
    pub fn intern_file(&mut self, file: File) -> (id: FileId)
        requires
            old(self).wf(),
            old(self).files_spec().len() < u32::MAX,
            byte_len(file.source_spec()) <= u32::MAX,
        ensures
            final(self).wf(),
            0 <= id@ < final(self).files_spec().len(),
            file_key(final(self).files_spec()[id@]) == file_key(file),
            forall|i: int|
                0 <= i < old(self).files_spec().len() ==> final(self).files_spec()[i] == old(
                    self,
                ).files_spec()[i],
            (exists|i: int|
                0 <= i < old(self).files_spec().len() && file_key(
                    #[trigger] old(self).files_spec()[i],
                ) == file_key(file)) ==> final(self).files_spec() == old(self).files_spec(),
            (forall|i: int|
                0 <= i < old(self).files_spec().len() ==> file_key(
                    #[trigger] old(self).files_spec()[i],
                ) != file_key(file)) ==> {
                &&& final(self).files_spec() == old(self).files_spec().push(file)
                &&& id@ == old(self).files_spec().len()
            },
    {
        let n = self.files.len();
        let mut i: usize = 0;
        while i < n
            invariant
                i <= n,
                old(self).wf(),
                *self == *old(self),
                n == self.files_spec().len() <= u32::MAX,
                forall|j: int|
                    0 <= j < i ==> file_key(#[trigger] self.files_spec()[j]) != file_key(file),
            decreases n - i,
        {
            let existing = &self.files[i];
            if existing.name.eq(&file.name) && existing.source.eq(&file.source) {
                return FileId { raw: i as u32 };
            }
            i = i + 1;
        }
        self.files.push(file);
        FileId { raw: n as u32 }
    }

    /// Looks up the given `FileId` and returns the file it names.
    ///
    /// The handle must have been produced by this table.
    pub fn lookup_intern_file(&self, file: FileId) -> (r: &File)
        requires
            0 <= file@ < self.files_spec().len(),
        ensures
            *r == self.files_spec()[file@],
    {
        &self.files[file.raw as usize]
    }

    /// Looks up the given `FileId` and returns a reference to the source
    /// of the file.
    pub fn source(&self, file: FileId) -> (r: &String)
        requires
            0 <= file@ < self.files_spec().len(),
        ensures
            r@ == self.files_spec()[file@].source_spec(),
    {
        &self.files[file.raw as usize].source
    }

    /// Looks up the given `FileId` and returns a reference to the name
    /// of the file.
    pub fn name(&self, file: FileId) -> (r: &String)
        requires
            0 <= file@ < self.files_spec().len(),
        ensures
            r@ == self.files_spec()[file@].name_spec(),
    {
        &self.files[file.raw as usize].name
    }

    /// Returns the indices of every line start in the file.
    pub fn line_starts(&self, file: FileId) -> (v: Vec<usize>)
        requires
            self.wf(),
            0 <= file@ < self.files_spec().len(),
        ensures
            matches_table(v@, line_starts_spec(self.files_spec()[file@].source_spec())),
    {
        proof {
            assert(byte_len(self.files_spec()[file@].source_spec()) <= u32::MAX);
        }
        compute_line_starts(self.files[file.raw as usize].source.as_str())
    }

    /// Returns the start index of the given line in the file: an entry
    /// of the line start table, the text's byte length for the
    /// one-past-last empty line, and nothing beyond that.
    pub fn line_start(&self, file: FileId, line_index: usize) -> (r: Option<usize>)
        requires
            self.wf(),
            0 <= file@ < self.files_spec().len(),
        ensures
            match r {
                Some(x) => line_start_spec(self.files_spec()[file@].source_spec(), line_index as int)
                    == Some(x as int),
                None => line_start_spec(self.files_spec()[file@].source_spec(), line_index as int)
                    is None,
            },
    {
        let table = self.line_starts(file);
        let len = table.len();
        if line_index < len {
            Some(table[line_index])
        } else if line_index == len {
            Some(self.files[file.raw as usize].source.as_str().len())
        } else {
            None
        }
    }

    /// Returns the index of the line holding the given byte offset.
    /// Offsets beyond the text still resolve to the last line, so the
    /// result is never absent.
    pub fn line_index(&self, file: FileId, byte_index: usize) -> (r: Option<usize>)
        requires
            self.wf(),
            0 <= file@ < self.files_spec().len(),
        ensures
            r is Some,
            r->Some_0 == line_index_spec(
                self.files_spec()[file@].source_spec(),
                byte_index as int,
            ),
    {
        let ghost s = self.files_spec()[file@].source_spec();
        let table = self.line_starts(file);
        proof {
            lemma_line_starts_increasing(s);
        }
        let r = greatest_start_le(&table, byte_index);
        proof {
            lemma_greatest_le_unique(line_starts_spec(s), byte_index as int, r as int);
        }
        Some(r)
    }

    /// Takes the source of the file and turns it into a sequence of
    /// tokens.
    pub fn lex(&self, file: FileId) -> (tokens: Vec<crate::token::Token>)
        requires
            self.wf(),
            0 <= file@ < self.files_spec().len(),
        ensures
            tokens@ == crate::token::lex_spec(self.files_spec()[file@].source_spec()),
    {
        proof {
            assert(byte_len(self.files_spec()[file@].source_spec()) <= u32::MAX);
        }
        crate::token::lex(self.files[file.raw as usize].source.as_str())
    }

    /// Returns the half-open byte range of the given line in the file.
    pub fn line_range(&self, file: FileId, line_index: usize) -> (r: Option<Range<usize>>)
        requires
            self.wf(),
            0 <= file@ < self.files_spec().len(),
        ensures
            match r {
                Some(rg) => line_range_spec(self.files_spec()[file@].source_spec(), line_index as int)
                    == Some((rg.start as int, rg.end as int)),
                None => line_range_spec(self.files_spec()[file@].source_spec(), line_index as int)
                    is None,
            },
    {
        let table = self.line_starts(file);
        let len = table.len();
        if line_index < len {
            let line = table[line_index];
            let next_line = if line_index + 1 < len {
                table[line_index + 1]
            } else {
                self.files[file.raw as usize].source.as_str().len()
            };
            Some(line..next_line)
        } else {
            None
        }
    }
}

/// Handles are in one-to-one correspondence with registered
/// `(name, source)` pairs: two handles into a well-formed table name the
/// same pair exactly when they are the same handle.
pub proof fn lemma_handle_determines_content(db: SourceDatabase, i: int, j: int)
    requires
        db.wf(),
        0 <= i < db.files_spec().len(),
        0 <= j < db.files_spec().len(),
    ensures
        file_key(db.files_spec()[i]) == file_key(db.files_spec()[j]) <==> i == j,
{
}

} // verus!
