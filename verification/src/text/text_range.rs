use vstd::prelude::*;

verus! {

/// A half-open byte range `[start_offset, start_offset + length)` in a source text.
#[derive(Debug, Clone, Copy, PartialEq, Eq, Structural)]
pub struct SourceRange {
    pub start_offset: usize,
    pub length: usize,
}

/// The end of a range, capped at the largest offset.
pub open spec fn capped_end(r: SourceRange) -> int {
    if r.end() <= usize::MAX {
        r.end()
    } else {
        usize::MAX as int
    }
}

impl SourceRange {
    /// The end offset as a mathematical integer.
    pub open spec fn end(self) -> int {
        self.start_offset + self.length
    }

    /// A range whose end offset fits in `usize`.
    pub open spec fn wf(self) -> bool {
        self.end() <= usize::MAX
    }

    /// The set of byte offsets covered by the range.
    pub open spec fn offsets(self) -> Set<int> {
        Set::new(|i: int| self.start_offset <= i < self.end())
    }

    pub fn new(start_offset: usize, length: usize) -> (r: SourceRange)
        ensures
            r.start_offset == start_offset,
            r.length == length,
    {
        SourceRange { start_offset, length }
    }

    /// Builds the range `[start_offset, end_offset)`.
    pub fn from_start_end(start_offset: usize, end_offset: usize) -> (r: Self)
        requires
            start_offset <= end_offset,
        ensures
            r.start_offset == start_offset,
            r.end() == end_offset,
            r.wf(),
    {
        Self::new(start_offset, end_offset - start_offset)
    }

    /// The empty range at offset zero.
    pub fn empty() -> (r: SourceRange)
        ensures
            r.start_offset == 0,
            r.length == 0,
    {
        SourceRange { start_offset: 0, length: 0 }
    }

    pub fn end_offset(&self) -> (r: usize)
        requires
            self.wf(),
        ensures
            r == self.end(),
    {
        self.start_offset + self.length
    }

    pub fn contains(&self, offset: usize) -> (r: bool)
        requires
            self.wf(),
        ensures
            r == (self.start_offset <= offset < self.end()),
    {
        offset >= self.start_offset && offset < self.end_offset()
    }

    pub fn contains_inclusive(&self, offset: usize) -> (r: bool)
        requires
            self.wf(),
        ensures
            r == (self.start_offset <= offset <= self.end()),
    {
        offset >= self.start_offset && offset <= self.end_offset()
    }

    pub fn contain_range(&self, range: &SourceRange) -> (r: bool)
        requires
            self.wf(),
            range.wf(),
        ensures
            r == (range.start_offset >= self.start_offset && range.end() <= self.end()),
    {
        range.start_offset >= self.start_offset && range.end_offset() <= self.end_offset()
    }

    pub fn intersect(&self, range: &SourceRange) -> (r: bool)
        requires
            self.wf(),
            range.wf(),
        ensures
            r == (self.start_offset < range.end() && range.start_offset < self.end()),
    {
        self.start_offset < range.end_offset() && range.start_offset < self.end_offset()
    }

    /// The tail of the range that starts `offset` bytes after its start.
    pub fn moved(&self, offset: usize) -> (r: SourceRange)
        requires
            offset <= self.length,
            self.wf(),
        ensures
            r.start_offset == self.start_offset + offset,
            r.end() == self.end(),
    {
        SourceRange::new(self.start_offset + offset, self.length - offset)
    }

    /// The smallest range that covers both `self` and `range`.
    pub fn merge(&self, range: &SourceRange) -> (r: SourceRange)
        requires
            self.wf(),
            range.wf(),
        ensures
            r.start_offset == if self.start_offset <= range.start_offset {
                self.start_offset
            } else {
                range.start_offset
            },
            r.end() == if self.end() >= range.end() {
                self.end()
            } else {
                range.end()
            },
            r.wf(),
    {
        let start = if self.start_offset <= range.start_offset {
            self.start_offset
        } else {
            range.start_offset
        };
        let end = if self.end_offset() >= range.end_offset() {
            self.end_offset()
        } else {
            range.end_offset()
        };
        SourceRange { start_offset: start, length: end - start }
    }

    pub fn is_empty(&self) -> (r: bool)
        ensures
            r == (self.length == 0),
    {
        self.length == 0
    }
}

/// Merging two ranges yields a range that contains both of them.
pub proof fn lemma_merge_contains_both(a: SourceRange, b: SourceRange, m: SourceRange)
    requires
        a.wf(),
        b.wf(),
        m.start_offset == if a.start_offset <= b.start_offset {
            a.start_offset
        } else {
            b.start_offset
        },
        m.end() == if a.end() >= b.end() {
            a.end()
        } else {
            b.end()
        },
    ensures
        m.start_offset <= a.start_offset && a.end() <= m.end(),
        m.start_offset <= b.start_offset && b.end() <= m.end(),
        a.offsets().subset_of(m.offsets()),
        b.offsets().subset_of(m.offsets()),
{
}

/// Two non-empty ranges intersect exactly when they share an offset; the relation is symmetric.
pub proof fn lemma_intersect_shares_offset(a: SourceRange, b: SourceRange)
    requires
        a.length > 0,
        b.length > 0,
    ensures
        (a.start_offset < b.end() && b.start_offset < a.end()) <==> (exists|i: int|
            a.offsets().contains(i) && b.offsets().contains(i)),
        (a.start_offset < b.end() && b.start_offset < a.end()) == (b.start_offset < a.end()
            && a.start_offset < b.end()),
{
    if a.start_offset < b.end() && b.start_offset < a.end() {
        let w: int = if a.start_offset >= b.start_offset {
            a.start_offset as int
        } else {
            b.start_offset as int
        };
        assert(a.offsets().contains(w) && b.offsets().contains(w));
    }
}

} // verus!
