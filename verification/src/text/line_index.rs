use vstd::prelude::*;

use crate::text::char_width::{byte_len, len_utf8, lemma_byte_len_take_step, lemma_byte_len_split};
use crate::text::strings::str_to_chars;

verus! {

/// The char positions where the lines of `s[..n]` start: `0`, and the
/// position after each line feed.
pub open spec fn spec_line_starts(s: Seq<char>, n: int) -> Seq<int>
    decreases n,
{
    if n <= 0 || n > s.len() {
        seq![0int]
    } else if s[n - 1] == '\n' {
        spec_line_starts(s, n - 1).push(n)
    } else {
        spec_line_starts(s, n - 1)
    }
}

/// The byte offset of char position `i` of `s`.
pub open spec fn byte_offset(s: Seq<char>, i: int) -> int {
    byte_len(s.take(i)) as int
}

/// The line and column (in chars) of char position `ci`: the last line that
/// starts at or before it.
pub open spec fn spec_line_of(starts: Seq<int>, ci: int, k: int) -> int
    decreases k,
{
    if k <= 0 || k > starts.len() {
        0
    } else if starts[k - 1] <= ci {
        k - 1
    } else {
        spec_line_of(starts, ci, k - 1)
    }
}

/// The char position whose byte offset in `s` is `offset`, if there is one.
pub open spec fn spec_char_at_offset(s: Seq<char>, offset: int, i: int) -> Option<int>
    decreases s.len() - i,
{
    if i < 0 || i > s.len() {
        None
    } else if byte_offset(s, i) == offset {
        Some(i)
    } else if i == s.len() {
        None
    } else {
        spec_char_at_offset(s, offset, i + 1)
    }
}

/// The starts of the lines of a text, to turn byte offsets into lines and
/// columns and back.
#[derive(Debug)]
pub struct LineIndex {
    line_starts: Vec<usize>,
    line_offsets: Vec<usize>,
    text: Vec<char>,
}

impl LineIndex {
    pub closed spec fn spec_text(&self) -> Seq<char> {
        self.text@
    }

    pub closed spec fn spec_starts(&self) -> Seq<int> {
        self.line_starts@.map_values(|v: usize| v as int)
    }

    pub open spec fn wf(&self) -> bool {
        &&& self.spec_starts() == spec_line_starts(self.spec_text(), self.spec_text().len() as int)
        &&& byte_len(self.spec_text()) <= usize::MAX
        &&& self.offsets_wf()
    }

    pub closed spec fn offsets_wf(&self) -> bool {
        &&& self.line_offsets@.len() == self.line_starts@.len()
        &&& forall|i: int| 0 <= i < self.line_starts@.len() ==> #[trigger] self.line_offsets@[i] == byte_offset(self.text@, self.line_starts@[i] as int)
        &&& forall|i: int| 0 <= i < self.line_starts@.len() ==> #[trigger] self.line_starts@[i] <= self.text@.len()
    }

    /// Finds the starts of the lines of `text`.
    pub fn parse(text: &str) -> (r: LineIndex)
        ensures
            r.wf(),
            r.spec_text() == text@,
    {
        let chars = str_to_chars(text);
        let _n = text.as_bytes().len();
        proof {
            crate::text::char_width::lemma_byte_len_encode(text@);
        }
        let mut starts: Vec<usize> = vec![0];
        let mut offsets: Vec<usize> = vec![0];
        let mut off: usize = 0;
        let mut i: usize = 0;
        assert(chars@.take(0) =~= Seq::<char>::empty());
        while i < chars.len()
            invariant
                i <= chars@.len(),
                byte_len(chars@) <= usize::MAX,
                off == byte_offset(chars@, i as int),
                starts@.map_values(|v: usize| v as int) == spec_line_starts(chars@, i as int),
                offsets@.len() == starts@.len(),
                forall|j: int| 0 <= j < starts@.len() ==> #[trigger] offsets@[j] == byte_offset(chars@, starts@[j] as int),
                forall|j: int| 0 <= j < starts@.len() ==> #[trigger] starts@[j] <= i,
            decreases chars@.len() - i,
        {
            proof {
                lemma_byte_len_take_step(chars@, i as int);
                lemma_byte_len_split(chars@, 0, i + 1, chars@.len() as int);
                assert(chars@.subrange(0, i + 1) =~= chars@.take(i + 1));
                assert(chars@.subrange(0, chars@.len() as int) =~= chars@);
            }
            off = off + len_utf8(chars[i]);
            let c = chars[i];
            i += 1;
            if c == '\n' {
                let ghost before = starts@;
                starts.push(i);
                offsets.push(off);
                assert(starts@.map_values(|v: usize| v as int) =~= before.map_values(|v: usize| v as int).push(i as int));
            }
        }
        LineIndex { line_starts: starts, line_offsets: offsets, text: chars }
    }

    /// The number of lines.
    pub fn line_count(&self) -> (n: usize)
        ensures
            n == self.spec_starts().len(),
    {
        self.line_starts.len()
    }

    /// The byte offset of column `col` (in chars) of line `line`, if the
    /// text reaches it.
    pub fn get_offset(&self, line: usize, col: usize, source_text: &str) -> (r: Option<usize>)
        requires
            self.wf(),
        ensures
            line >= self.spec_starts().len() ==> r is None,
            line < self.spec_starts().len() ==> {
                let ci = self.spec_starts()[line as int] + col;
                &&& (ci <= self.spec_text().len() ==> r == Some(byte_offset(self.spec_text(), ci) as usize))
                &&& (ci > self.spec_text().len() ==> r is None)
            },
    {
        if line >= self.line_starts.len() {
            return None;
        }
        let start = self.line_starts[line];
        let mut offset = self.line_offsets[line];
        let n = self.text.len();
        let mut k: usize = 0;
        assert(self.line_starts@[line as int] as int == self.spec_starts()[line as int]);
        while k < col
            invariant
                self.wf(),
                line < self.line_starts@.len(),
                start == self.line_starts@[line as int],
                start <= n,
                n == self.spec_text().len(),
                k <= col,
                start + k <= n,
                offset == byte_offset(self.spec_text(), start + k),
                byte_len(self.spec_text()) <= usize::MAX,
            decreases col - k,
        {
            if start + k >= n {
                return None;
            }
            proof {
                lemma_byte_len_take_step(self.spec_text(), start + k);
                lemma_byte_len_split(self.spec_text(), 0, start + k + 1, n as int);
                assert(self.spec_text().subrange(0, start + k + 1) =~= self.spec_text().take(start + k + 1));
                assert(self.spec_text().subrange(0, n as int) =~= self.spec_text());
            }
            offset = offset + len_utf8(self.text[start + k]);
            k += 1;
        }
        Some(offset)
    }

    /// The char position whose byte offset is `offset`, if any.
    fn char_index_of_offset(&self, offset: usize) -> (r: Option<usize>)
        requires
            self.wf(),
        ensures
            r matches Some(c) ==> Some(c as int) == spec_char_at_offset(self.spec_text(), offset as int, 0) && c <= self.spec_text().len(),
            r is None ==> spec_char_at_offset(self.spec_text(), offset as int, 0) is None,
    {
        let n = self.text.len();
        let mut i: usize = 0;
        let mut off: usize = 0;
        assert(self.spec_text().take(0) =~= Seq::<char>::empty());
        loop
            invariant
                self.wf(),
                n == self.spec_text().len(),
                i <= n,
                off == byte_offset(self.spec_text(), i as int),
                spec_char_at_offset(self.spec_text(), offset as int, 0) == spec_char_at_offset(self.spec_text(), offset as int, i as int),
            decreases n - i,
        {
            if off == offset {
                return Some(i);
            }
            if i == n {
                return None;
            }
            proof {
                lemma_byte_len_take_step(self.spec_text(), i as int);
                lemma_byte_len_split(self.spec_text(), 0, i + 1, n as int);
                assert(self.spec_text().subrange(0, i + 1) =~= self.spec_text().take(i + 1));
                assert(self.spec_text().subrange(0, n as int) =~= self.spec_text());
            }
            off = off + len_utf8(self.text[i]);
            i += 1;
        }
    }

    /// The line and column (in chars) of byte offset `offset`, if it is at a
    /// char boundary of the text.
    pub fn get_line_col(&self, offset: usize, source_text: &str) -> (r: Option<(usize, usize)>)
        requires
            self.wf(),
        ensures
            match spec_char_at_offset(self.spec_text(), offset as int, 0) {
                None => r is None,
                Some(ci) => {
                    let line = spec_line_of(self.spec_starts(), ci, self.spec_starts().len() as int);
                    r == Some((line as usize, (ci - self.spec_starts()[line]) as usize))
                },
            },
    {
        let ci = match self.char_index_of_offset(offset) {
            Some(c) => c,
            None => {
                return None;
            },
        };
        proof {
            lemma_line_starts_nonempty(self.spec_text(), self.spec_text().len() as int);
        }
        assert(spec_char_at_offset(self.spec_text(), offset as int, 0) == Some(ci as int));
        let mut k = self.line_starts.len();
        while k > 0
            invariant
                self.wf(),
                k <= self.line_starts@.len(),
                spec_char_at_offset(self.spec_text(), offset as int, 0) == Some(ci as int),
                spec_line_of(self.spec_starts(), ci as int, self.spec_starts().len() as int)
                    == spec_line_of(self.spec_starts(), ci as int, k as int),
            decreases k,
        {
            assert(self.spec_starts()[k - 1] == self.line_starts@[k - 1] as int);
            if self.line_starts[k - 1] <= ci {
                assert(spec_line_of(self.spec_starts(), ci as int, k as int) == k - 1);
                return Some((k - 1, ci - self.line_starts[k - 1]));
            }
            k -= 1;
        }
        assert(self.spec_starts()[0] == 0);
        Some((0, ci))
    }
}

pub proof fn lemma_line_starts_nonempty(s: Seq<char>, n: int)
    ensures
        spec_line_starts(s, n).len() > 0,
        spec_line_starts(s, n)[0] == 0,
    decreases n,
{
    if n > 0 && n <= s.len() {
        lemma_line_starts_nonempty(s, n - 1);
    }
}

/// The line starts grow strictly and lie within the text read.
pub proof fn lemma_line_starts_sorted(s: Seq<char>, n: int)
    requires
        0 <= n <= s.len(),
    ensures
        forall|i: int, j: int|
            0 <= i < j < spec_line_starts(s, n).len() ==> #[trigger] spec_line_starts(s, n)[i] < #[trigger] spec_line_starts(s, n)[j],
        forall|i: int| 0 <= i < spec_line_starts(s, n).len() ==> 0 <= #[trigger] spec_line_starts(s, n)[i] <= n,
    decreases n,
{
    if n > 0 {
        lemma_line_starts_sorted(s, n - 1);
        let prev = spec_line_starts(s, n - 1);
        let cur = spec_line_starts(s, n);
        if s[n - 1] == '\n' {
            assert(cur == prev.push(n));
            assert forall|i: int, j: int| 0 <= i < j < cur.len() implies #[trigger] cur[i] < #[trigger] cur[j] by {
                assert(cur[i] == prev[i]);
                if j < prev.len() {
                    assert(cur[j] == prev[j]);
                }
            }
            assert forall|i: int| 0 <= i < cur.len() implies 0 <= #[trigger] cur[i] <= n by {
                if i < prev.len() {
                    assert(cur[i] == prev[i]);
                }
            }
        } else {
            assert(cur == prev);
        }
    }
}

/// The line of `ci` is `line` when `line` starts at or before `ci` and the
/// starts after it (up to `k`) come after `ci`.
proof fn lemma_line_of(starts: Seq<int>, ci: int, k: int, line: int)
    requires
        0 <= line < k <= starts.len(),
        starts[line] <= ci,
        forall|j: int| line < j < k ==> #[trigger] starts[j] > ci,
    ensures
        spec_line_of(starts, ci, k) == line,
    decreases k,
{
    if k - 1 > line {
        lemma_line_of(starts, ci, k - 1, line);
    }
}

/// Scanning from `j` up to `ci` finds `ci` as the position of its offset.
proof fn lemma_char_at_own_offset(s: Seq<char>, ci: int, j: int)
    requires
        0 <= j <= ci <= s.len(),
    ensures
        spec_char_at_offset(s, byte_offset(s, ci), j) == Some(ci),
    decreases ci - j,
{
    if j < ci {
        assert(s.take(j) =~= s.subrange(0, j));
        assert(s.take(ci) =~= s.subrange(0, ci));
        crate::parser::lua_doc_parser::lemma_prefix_strict(s, j, ci);
        lemma_char_at_own_offset(s, ci, j + 1);
    }
}

/// What `get_offset` gives, `get_line_col` turns back: a column that stays
/// on its line (before the start of the next line) has a byte offset whose
/// char is at that column of that line.
pub proof fn lemma_line_col_round_trip(s: Seq<char>, line: int, col: int)
    requires
        0 <= line < spec_line_starts(s, s.len() as int).len(),
        0 <= col,
        spec_line_starts(s, s.len() as int)[line] + col <= s.len(),
        line + 1 < spec_line_starts(s, s.len() as int).len() ==> spec_line_starts(s, s.len() as int)[line] + col
            < spec_line_starts(s, s.len() as int)[line + 1],
    ensures
        ({
            let starts = spec_line_starts(s, s.len() as int);
            let ci = starts[line] + col;
            &&& spec_char_at_offset(s, byte_offset(s, ci), 0) == Some(ci)
            &&& spec_line_of(starts, ci, starts.len() as int) == line
            &&& ci - starts[line] == col
        }),
{
    let starts = spec_line_starts(s, s.len() as int);
    let ci = starts[line] + col;
    lemma_line_starts_sorted(s, s.len() as int);
    lemma_char_at_own_offset(s, ci, 0);
    assert forall|j: int| line < j < starts.len() implies #[trigger] starts[j] > ci by {
        if j > line + 1 {
            assert(starts[line + 1] < starts[j]);
        }
    }
    lemma_line_of(starts, ci, starts.len() as int, line);
}

} // verus!
