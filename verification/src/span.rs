//! Types for indexing a range in a source string.

use vstd::prelude::*;

verus! {

/// An index to a single byte in a source string.
pub type Index = u32;

/// A half-open byte range `[start, end)` in a source string.
///
/// The range carries no file information; it is meaningless without an
/// external file handle.
#[derive(Debug, Clone, Copy, Hash, Eq, PartialEq, Structural)]
pub struct Span {
    start: u32,
    end: u32,
}

impl Span {
    /// The byte offset where the range starts.
    pub closed spec fn start_spec(self) -> int {
        self.start as int
    }

    /// The byte offset just past the last byte of the range.
    pub closed spec fn end_spec(self) -> int {
        self.end as int
    }

    /// Every span is a well-formed half-open range: `start <= end`.
    #[verifier::type_invariant]
    pub closed spec fn wf(self) -> bool {
        self.start <= self.end
    }

    /// The intersection of two spans, as a mathematical value: the range
    /// covered by both, where ranges that merely touch meet in an empty
    /// span at the touch point, and disjoint ranges have no intersection.
    pub closed spec fn intersect_spec(self, other: Span) -> Option<Span> {
        let lo = if self.start >= other.start {
            self.start
        } else {
            other.start
        };
        let hi = if self.end <= other.end {
            self.end
        } else {
            other.end
        };
        if lo <= hi {
            Some(Span { start: lo, end: hi })
        } else {
            None
        }
    }

    /// The span with the given start and end offsets, as a mathematical
    /// value.
    pub closed spec fn new_spec(start: int, end: int) -> Span {
        Span { start: start as u32, end: end as u32 }
    }

    /// Creates a new `Span` from a start and an end index.
    pub fn new(start: Index, end: Index) -> (r: Self)
        requires
            start <= end,
        ensures
            r == Span::new_spec(start as int, end as int),
            r.start_spec() == start,
            r.end_spec() == end,
    {
        Self { start, end }
    }

    /// Creates a new `Span` from a half-open `usize` range, as produced
    /// when slicing source text.
    pub fn from_usize_range(start: usize, end: usize) -> (r: Self)
        requires
            start <= end <= u32::MAX,
        ensures
            r.start_spec() == start,
            r.end_spec() == end,
    {
        Self { start: start as u32, end: end as u32 }
    }

    /// Returns the starting [`Index`] of `self`.
    pub fn start(self) -> (r: Index)
        ensures
            r == self.start_spec(),
    {
        self.start
    }

    /// Returns the ending [`Index`] of `self`.
    pub fn end(self) -> (r: Index)
        ensures
            r == self.end_spec(),
    {
        self.end
    }

    /// Returns the length of `self`.
    pub fn len(self) -> (r: Index)
        ensures
            r == self.end_spec() - self.start_spec(),
    {
        proof {
            use_type_invariant(self);
        }
        self.end - self.start
    }

    /// Check if this span contains the given index.
    pub fn contains(self, index: Index) -> (r: bool)
        ensures
            r == (self.start_spec() <= index < self.end_spec()),
    {
        self.start <= index && index < self.end
    }

    /// Checks if this span contains the whole other range.
    pub fn contains_range(self, range: Span) -> (r: bool)
        ensures
            r == (self.start_spec() <= range.start_spec() && range.end_spec()
                <= self.end_spec()),
    {
        self.start <= range.start && range.end <= self.end
    }

    /// The half-open `usize` range this span covers, for slicing source
    /// text.
    pub fn range(self) -> (r: core::ops::Range<usize>)
        ensures
            r.start == self.start_spec(),
            r.end == self.end_spec(),
    {
        (self.start as usize)..(self.end as usize)
    }

    /// Returns the range covered by both spans, if it exists.
    /// If the ranges touch, but do not overlap, the output range is empty.
    pub fn intersect(self, other: Span) -> (r: Option<Span>)
        ensures
            r == self.intersect_spec(other),
            r is Some <==> (self.start_spec() <= other.end_spec() && other.start_spec()
                <= self.end_spec()),
            r is Some ==> {
                &&& r->Some_0.start_spec() == if self.start_spec() >= other.start_spec() {
                    self.start_spec()
                } else {
                    other.start_spec()
                }
                &&& r->Some_0.end_spec() == if self.end_spec() <= other.end_spec() {
                    self.end_spec()
                } else {
                    other.end_spec()
                }
            },
    {
        proof {
            use_type_invariant(self);
            use_type_invariant(other);
        }
        let lo = if self.start >= other.start {
            self.start
        } else {
            other.start
        };
        let hi = if self.end <= other.end {
            self.end
        } else {
            other.end
        };
        if lo <= hi {
            Some(Span { start: lo, end: hi })
        } else {
            None
        }
    }
}

impl Default for Span {
    /// The empty span at offset `0`.
    fn default() -> (r: Self)
        ensures
            r.start_spec() == 0,
            r.end_spec() == 0,
    {
        Span { start: 0, end: 0 }
    }
}

/// Represents any `T` that is located at a specific [`Span`].
#[derive(Clone, Debug, Hash, Eq, PartialEq)]
pub struct Spanned<T> {
    span: Span,
    data: T,
}

impl<T> Spanned<T> {
    /// The located data.
    pub closed spec fn data_spec(self) -> T {
        self.data
    }

    /// Where the data sits in its source text.
    pub closed spec fn span_spec(self) -> Span {
        self.span
    }

    /// Creates a new `Spanned` object with the given `data` and `span`.
    pub fn new(data: T, span: Span) -> (r: Self)
        ensures
            r.data_spec() == data,
            r.span_spec() == span,
    {
        Self { data, span }
    }

    /// Maps the data of this `Spanned` using the given mapper
    /// and returns a new `Spanned` with the mapped data.
    pub fn map<U, F: FnOnce(T) -> U>(self, map: F) -> (r: Spanned<U>)
        requires
            map.requires((self.data_spec(),)),
        ensures
            r.span_spec() == self.span_spec(),
            map.ensures((self.data_spec(),), r.data_spec()),
    {
        let (data, span) = self.destruct();
        Spanned::new(map(data), span)
    }

    /// Returns the [`Span`] of this spanned data.
    pub fn span(&self) -> (r: Span)
        ensures
            r == self.span_spec(),
    {
        self.span
    }

    /// Returns a reference to the data inside self.
    pub fn data(&self) -> (r: &T)
        ensures
            *r == self.data_spec(),
    {
        &self.data
    }

    /// Destructs this spanned data into its `T` and [`Span`].
    pub fn destruct(self) -> (r: (T, Span))
        ensures
            r.0 == self.data_spec(),
            r.1 == self.span_spec(),
    {
        (self.data, self.span)
    }
}

/// Represents any `T` that is located at a specific [`Span`]
/// in a specific file.
#[derive(Clone, Debug, Hash, Eq, PartialEq)]
pub struct Locatable<T> {
    span: Span,
    data: T,
    file: crate::source::FileId,
}

impl<T> Locatable<T> {
    /// The located data.
    pub closed spec fn data_spec(self) -> T {
        self.data
    }

    /// Where the data sits in its file.
    pub closed spec fn span_spec(self) -> Span {
        self.span
    }

    /// The file the data came from.
    pub closed spec fn file_spec(self) -> crate::source::FileId {
        self.file
    }

    /// Creates a new `Locatable` object with the given `data`, `file`
    /// and `span`.
    pub fn new(data: T, file: crate::source::FileId, span: Span) -> (r: Self)
        ensures
            r.data_spec() == data,
            r.file_spec() == file,
            r.span_spec() == span,
    {
        Self { data, file, span }
    }

    /// Maps the data of this `Locatable` using the given mapper
    /// and returns a new `Locatable` with the mapped data.
    pub fn map<U, F: FnOnce(T) -> U>(self, map: F) -> (r: Locatable<U>)
        requires
            map.requires((self.data_spec(),)),
        ensures
            r.span_spec() == self.span_spec(),
            r.file_spec() == self.file_spec(),
            map.ensures((self.data_spec(),), r.data_spec()),
    {
        let (data, file, span) = self.destruct();
        Locatable::new(map(data), file, span)
    }

    /// Returns the [`Span`] of this spanned data.
    pub fn span(&self) -> (r: Span)
        ensures
            r == self.span_spec(),
    {
        self.span
    }

    /// Returns a reference to the data inside self.
    pub fn data(&self) -> (r: &T)
        ensures
            *r == self.data_spec(),
    {
        &self.data
    }

    /// Returns the [`FileId`](crate::source::FileId) of this spanned
    /// data.
    pub fn file(&self) -> (r: crate::source::FileId)
        ensures
            r == self.file_spec(),
    {
        self.file
    }

    /// Destructs this spanned data into its `T`,
    /// [`FileId`](crate::source::FileId) and [`Span`].
    pub fn destruct(self) -> (r: (T, crate::source::FileId, Span))
        ensures
            r.0 == self.data_spec(),
            r.1 == self.file_spec(),
            r.2 == self.span_spec(),
    {
        (self.data, self.file, self.span)
    }
}

/// A span built from offsets in range keeps those offsets.
pub broadcast proof fn lemma_new_spec_fields(start: int, end: int)
    requires
        0 <= start <= u32::MAX,
        0 <= end <= u32::MAX,
    ensures
        (#[trigger] Span::new_spec(start, end)).start_spec() == start,
        Span::new_spec(start, end).end_spec() == end,
{
}

/// Two spans that touch without overlapping intersect in the empty span
/// at the touch point, never in "no intersection".
pub proof fn lemma_intersect_touching(a: Span, b: Span)
    requires
        a.wf(),
        b.wf(),
        a.end_spec() == b.start_spec(),
    ensures
        a.intersect_spec(b) is Some,
        a.intersect_spec(b)->Some_0.start_spec() == a.end_spec(),
        a.intersect_spec(b)->Some_0.end_spec() == a.end_spec(),
{
}

} // verus!
