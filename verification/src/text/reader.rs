use vstd::prelude::*;

use super::char_width::byte_len;
use super::char_width::char_width;
use super::char_width::len_utf8;
use super::char_width::lemma_byte_len_encode;
use super::char_width::lemma_byte_len_at_least_len;
use super::char_width::lemma_byte_len_single;
use super::char_width::lemma_byte_len_split;
use super::char_width::lemma_byte_len_subrange_bound;
use super::strings::chars_eq_str;
use super::strings::chars_to_string;
use super::strings::str_to_chars;
use super::text_range::SourceRange;

verus! {

/// The char that a reader reports once it has run out of text.
pub const EOF: char = '\0';

/// The predicate "is `ch`".
pub open spec fn eq_char(ch: char) -> spec_fn(char) -> bool {
    |c: char| c == ch
}

/// The predicate that holds of every char.
pub open spec fn any_char() -> spec_fn(char) -> bool {
    |c: char| true
}

/// The index of the first char at or after `i` that ends a run of chars
/// satisfying `p` (or the end of `s`); a NUL char always ends a run.
pub open spec fn run_end(s: Seq<char>, i: int, p: spec_fn(char) -> bool) -> int
    decreases s.len() - i,
{
    if i < 0 || i >= s.len() || s[i] == EOF || !p(s[i]) {
        i
    } else {
        run_end(s, i + 1, p)
    }
}

pub proof fn lemma_run_end(s: Seq<char>, i: int, p: spec_fn(char) -> bool)
    requires
        0 <= i <= s.len(),
    ensures
        i <= run_end(s, i, p) <= s.len(),
        forall|k: int| i <= k < run_end(s, i, p) ==> s[k] != EOF && p(s[k]),
        run_end(s, i, p) == s.len() || s[run_end(s, i, p)] == EOF || !p(s[run_end(s, i, p)]),
    decreases s.len() - i,
{
    if i < s.len() && s[i] != EOF && p(s[i]) {
        lemma_run_end(s, i + 1, p);
    }
}

/// Reader with look-ahead and look-behind over a text.
///
/// As you read text, the part that you've read is accumulated in the
/// current buffer (`current_range`); `reset_buff` starts a new, empty
/// buffer at the current char.  Positions in ranges are byte offsets in the
/// origin text, shifted by the start of the reader's valid range.
#[derive(Debug)]
pub struct Reader {
    text: Vec<char>,
    valid_range: SourceRange,
    buf_start: usize,
    pos: usize,
    current_buffer_byte_pos: usize,
    current_buffer_byte_len: usize,
    prev: char,
}

impl Reader {
    pub closed spec fn chars(&self) -> Seq<char> {
        self.text@
    }

    /// Index of the current char in `chars()`.
    pub closed spec fn pos(&self) -> int {
        self.pos as int
    }

    /// Index of the first char of the current buffer in `chars()`.
    pub closed spec fn buf_start(&self) -> int {
        self.buf_start as int
    }

    pub closed spec fn valid(&self) -> SourceRange {
        self.valid_range
    }

    pub closed spec fn prev(&self) -> char {
        self.prev
    }

    pub closed spec fn fields_wf(&self) -> bool {
        &&& self.current_buffer_byte_pos == byte_len(self.text@.subrange(0, self.buf_start as int))
        &&& self.current_buffer_byte_len == byte_len(
            self.text@.subrange(self.buf_start as int, self.pos as int),
        )
    }

    pub open spec fn wf(&self) -> bool {
        &&& 0 <= self.buf_start() <= self.pos() <= self.chars().len()
        &&& self.chars().len() <= usize::MAX
        &&& self.valid().length == byte_len(self.chars())
        &&& self.valid().wf()
        &&& self.fields_wf()
    }

    pub open spec fn cur(&self) -> char {
        if self.pos() < self.chars().len() {
            self.chars()[self.pos()]
        } else {
            EOF
        }
    }

    pub open spec fn nxt(&self) -> char {
        if self.pos() + 1 < self.chars().len() {
            self.chars()[self.pos() + 1]
        } else {
            EOF
        }
    }

    pub open spec fn eof(&self) -> bool {
        self.cur() == EOF
    }

    /// Byte offset (in the origin text) where the current buffer starts.
    pub open spec fn buf_byte_start(&self) -> int {
        self.valid().start_offset + byte_len(self.chars().subrange(0, self.buf_start()))
    }

    /// Byte length of the current buffer.
    pub open spec fn buf_byte_len(&self) -> int {
        byte_len(self.chars().subrange(self.buf_start(), self.pos())) as int
    }

    pub open spec fn spec_current_range(&self) -> SourceRange {
        SourceRange {
            start_offset: self.buf_byte_start() as usize,
            length: self.buf_byte_len() as usize,
        }
    }

    /// The current buffer, as chars.
    pub open spec fn buffer(&self) -> Seq<char> {
        self.chars().subrange(self.buf_start(), self.pos())
    }

    /// Same text and valid range; only the read position and buffer may differ.
    pub open spec fn same_text(&self, other: &Reader) -> bool {
        &&& self.chars() == other.chars()
        &&& self.valid() == other.valid()
    }

    proof fn lemma_ranges(&self)
        requires
            self.wf(),
        ensures
            self.buf_byte_start() + self.buf_byte_len() <= self.valid().end(),
            self.buf_byte_start() >= self.valid().start_offset,
            self.buf_byte_len() >= 0,
    {
        lemma_byte_len_subrange_bound(self.chars(), self.buf_start(), self.pos());
        lemma_byte_len_split(self.chars(), 0, self.buf_start(), self.pos());
        lemma_byte_len_split(self.chars(), 0, self.pos(), self.chars().len() as int);
        assert(self.chars().subrange(0, self.chars().len() as int) =~= self.chars());
    }

    /// A reader over `chars`, whose text spans `range` in the origin text.
    pub fn from_chars(chars: Vec<char>, range: SourceRange) -> (r: Self)
        requires
            range.length == byte_len(chars@),
            range.wf(),
        ensures
            r.wf(),
            r.chars() == chars@,
            r.valid() == range,
            r.pos() == 0,
            r.buf_start() == 0,
            r.prev() == EOF,
    {
        let _n = chars.len();
        let r = Reader {
            text: chars,
            valid_range: range,
            buf_start: 0,
            pos: 0,
            current_buffer_byte_pos: 0,
            current_buffer_byte_len: 0,
            prev: EOF,
        };
        assert(r.text@.subrange(0, 0) =~= Seq::<char>::empty());
        r
    }

    pub fn new(text: &str) -> (r: Self)
        ensures
            r.wf(),
            r.chars() == text@,
            r.valid().start_offset == 0,
            r.pos() == 0,
            r.buf_start() == 0,
            r.prev() == EOF,
    {
        let chars = str_to_chars(text);
        let n = text.as_bytes().len();
        proof {
            lemma_byte_len_encode(text@);
        }
        Self::from_chars(chars, SourceRange::new(0, n))
    }

    /// A reader over `text`, which spans `range` in the origin text.
    pub fn new_with_range(text: &str, range: SourceRange) -> (r: Self)
        requires
            vstd::utf8::encode_utf8(text@).len() == range.length,
            range.wf(),
        ensures
            r.wf(),
            r.chars() == text@,
            r.valid() == range,
            r.pos() == 0,
            r.buf_start() == 0,
            r.prev() == EOF,
    {
        let chars = str_to_chars(text);
        proof {
            lemma_byte_len_encode(text@);
        }
        Self::from_chars(chars, range)
    }

    /// Moves past the current char, unless the text is exhausted.
    pub fn bump(&mut self)
        requires
            old(self).wf(),
        ensures
            final(self).wf(),
            final(self).same_text(old(self)),
            final(self).buf_start() == old(self).buf_start(),
            old(self).eof() ==> *final(self) == *old(self),
            !old(self).eof() ==> final(self).pos() == old(self).pos() + 1 && final(self).prev()
                == old(self).cur(),
    {
        if self.pos < self.text.len() && self.text[self.pos] != EOF {
            let c = self.text[self.pos];
            proof {
                lemma_byte_len_split(self.text@, self.buf_start as int, self.pos as int, self.pos + 1);
                lemma_byte_len_subrange_bound(self.text@, self.buf_start as int, self.pos + 1);
                assert(self.text@.subrange(self.pos as int, self.pos + 1) =~= seq![c]);
                lemma_byte_len_single(c);
            }
            self.current_buffer_byte_len = self.current_buffer_byte_len + len_utf8(c);
            self.prev = c;
            self.pos = self.pos + 1;
        }
    }

    /// Starts a new, empty buffer at the current char.
    pub fn reset_buff(&mut self)
        requires
            old(self).wf(),
        ensures
            final(self).wf(),
            final(self).same_text(old(self)),
            final(self).pos() == old(self).pos(),
            final(self).buf_start() == old(self).pos(),
            final(self).prev() == old(self).prev(),
    {
        proof {
            lemma_byte_len_split(self.text@, 0, self.buf_start as int, self.pos as int);
            lemma_byte_len_subrange_bound(self.text@, 0, self.pos as int);
            assert(self.text@.subrange(self.pos as int, self.pos as int) =~= Seq::<char>::empty());
        }
        self.current_buffer_byte_pos = self.current_buffer_byte_pos + self.current_buffer_byte_len;
        self.current_buffer_byte_len = 0;
        self.buf_start = self.pos;
    }

    /// A reader over the current buffer alone; this reader then starts a new buffer.
    pub fn reset_buff_into_sub_reader(&mut self) -> (sub: Reader)
        requires
            old(self).wf(),
        ensures
            final(self).wf(),
            final(self).same_text(old(self)),
            final(self).pos() == old(self).pos(),
            final(self).buf_start() == old(self).pos(),
            sub.wf(),
            sub.chars() == old(self).buffer(),
            sub.valid() == old(self).spec_current_range(),
            sub.pos() == 0,
            sub.buf_start() == 0,
            sub.prev() == if old(self).buf_start() > 0 {
                old(self).chars()[old(self).buf_start() - 1]
            } else {
                EOF
            },
    {
        proof {
            self.lemma_ranges();
        }
        let mut chars: Vec<char> = Vec::new();
        let mut i = self.buf_start;
        while i < self.pos
            invariant
                self.wf(),
                self.buf_start <= i <= self.pos,
                chars@ == self.text@.subrange(self.buf_start as int, i as int),
            decreases self.pos - i,
        {
            chars.push(self.text[i]);
            assert(self.text@.subrange(self.buf_start as int, i + 1) =~= self.text@.subrange(
                self.buf_start as int,
                i as int,
            ).push(self.text@[i as int]));
            i += 1;
        }
        let range = self.current_range();
        let mut reader = Reader::from_chars(chars, range);
        if self.buf_start > 0 {
            reader.prev = self.text[self.buf_start - 1];
        }
        self.reset_buff();
        reader
    }

    pub fn is_eof(&self) -> (r: bool)
        requires
            self.wf(),
        ensures
            r == self.eof(),
    {
        self.current_char() == EOF
    }

    pub fn is_start_of_line(&self) -> (r: bool)
        requires
            self.wf(),
        ensures
            r == (self.buf_byte_start() == self.valid().start_offset),
            r == (self.buf_start() == 0),
    {
        proof {
            lemma_byte_len_at_least_len(self.chars().subrange(0, self.buf_start()));
        }
        self.current_buffer_byte_pos == 0
    }

    pub fn prev_char(&self) -> (c: char)
        ensures
            c == self.prev(),
    {
        self.prev
    }

    pub fn current_char(&self) -> (c: char)
        requires
            self.wf(),
        ensures
            c == self.cur(),
    {
        if self.pos < self.text.len() {
            self.text[self.pos]
        } else {
            EOF
        }
    }

    pub fn next_char(&mut self) -> (c: char)
        requires
            old(self).wf(),
        ensures
            c == old(self).nxt(),
            *final(self) == *old(self),
    {
        if self.pos < self.text.len() && self.pos + 1 < self.text.len() {
            self.text[self.pos + 1]
        } else {
            EOF
        }
    }

    /// The range of the current buffer in the origin text.
    pub fn current_range(&self) -> (r: SourceRange)
        requires
            self.wf(),
        ensures
            r == self.spec_current_range(),
            r.start_offset == self.buf_byte_start(),
            r.length == self.buf_byte_len(),
            r.wf(),
            r.end() <= self.valid().end(),
    {
        proof {
            self.lemma_ranges();
        }
        SourceRange::new(
            self.valid_range.start_offset + self.current_buffer_byte_pos,
            self.current_buffer_byte_len,
        )
    }

    /// The range of the current buffer, for a reader that may not be well formed.
    pub fn current_range_checked(&self) -> (r: SourceRange)
        ensures
            self.wf() ==> r == self.spec_current_range(),
    {
        proof {
            if self.wf() {
                self.lemma_ranges();
            }
        }
        if self.current_buffer_byte_pos <= usize::MAX - self.valid_range.start_offset {
            SourceRange::new(
                self.valid_range.start_offset + self.current_buffer_byte_pos,
                self.current_buffer_byte_len,
            )
        } else {
            SourceRange::new(self.valid_range.start_offset, self.current_buffer_byte_len)
        }
    }

    /// The range of the part of the text that has not been read yet.
    pub fn tail_range(&self) -> (r: SourceRange)
        requires
            self.wf(),
        ensures
            r.start_offset == self.buf_byte_start() + self.buf_byte_len(),
            r.end() == self.valid().end(),
    {
        proof {
            self.lemma_ranges();
        }
        self.valid_range.moved(self.current_buffer_byte_pos + self.current_buffer_byte_len)
    }

    /// The text of the current buffer.
    pub fn current_text(&self) -> (s: String)
        requires
            self.wf(),
        ensures
            s@ == self.buffer(),
    {
        chars_to_string(&self.text, self.buf_start, self.pos)
    }

    /// The text that has not been read yet.
    pub fn tail_text(&self) -> (s: String)
        requires
            self.wf(),
        ensures
            s@ == self.chars().subrange(self.pos(), self.chars().len() as int),
    {
        chars_to_string(&self.text, self.pos, self.text.len())
    }

    /// Consumes chars equal to `ch`; returns how many were consumed.
    pub fn eat_when(&mut self, ch: char) -> (count: usize)
        requires
            old(self).wf(),
        ensures
            final(self).wf(),
            final(self).same_text(old(self)),
            final(self).buf_start() == old(self).buf_start(),
            final(self).pos() == run_end(old(self).chars(), old(self).pos(), eq_char(ch)),
            count == final(self).pos() - old(self).pos(),
    {
        self.consume_char_n_times_impl(ch, None)
    }

    /// Consumes at most `count` chars equal to `ch`; returns how many were consumed.
    pub fn consume_char_n_times(&mut self, ch: char, count: usize) -> (eaten: usize)
        requires
            old(self).wf(),
        ensures
            final(self).wf(),
            final(self).same_text(old(self)),
            final(self).buf_start() == old(self).buf_start(),
            eaten == final(self).pos() - old(self).pos(),
            final(self).pos() == if run_end(old(self).chars(), old(self).pos(), eq_char(ch))
                - old(self).pos() <= count {
                run_end(old(self).chars(), old(self).pos(), eq_char(ch))
            } else {
                old(self).pos() + count
            },
    {
        self.consume_char_n_times_impl(ch, Some(count))
    }

    fn consume_char_n_times_impl(&mut self, ch: char, limit: Option<usize>) -> (eaten: usize)
        requires
            old(self).wf(),
        ensures
            final(self).wf(),
            final(self).same_text(old(self)),
            final(self).buf_start() == old(self).buf_start(),
            eaten == final(self).pos() - old(self).pos(),
            ({
                let e = run_end(old(self).chars(), old(self).pos(), eq_char(ch));
                match limit {
                    None => final(self).pos() == e,
                    Some(n) => final(self).pos() == if e - old(self).pos() <= n {
                        e
                    } else {
                        old(self).pos() + n
                    },
                }
            }),
    {
        let ghost p = eq_char(ch);
        let ghost start = self.pos();
        proof {
            lemma_run_end(self.chars(), start, p);
        }
        let mut eaten: usize = 0;
        while !self.is_eof() && self.current_char() == ch && below_limit(eaten, limit)
            invariant
                self.wf(),
                self.same_text(old(self)),
                self.buf_start() == old(self).buf_start(),
                start == old(self).pos(),
                p == (eq_char(ch)),
                start <= self.pos() <= run_end(self.chars(), start, p) <= self.chars().len(),
                eaten == self.pos() - start,
                forall|k: int| start <= k < run_end(self.chars(), start, p) ==> self.chars()[k]
                    != EOF && p(self.chars()[k]),
                run_end(self.chars(), start, p) == self.chars().len() || self.chars()[run_end(
                    self.chars(),
                    start,
                    p,
                )] == EOF || !p(self.chars()[run_end(self.chars(), start, p)]),
                match limit {
                    None => true,
                    Some(n) => eaten <= n,
                },
            decreases self.chars().len() - self.pos(),
        {
            assert(p(self.cur()));
            assert(self.pos() < run_end(self.chars(), start, p));
            eaten += 1;
            self.bump();
        }
        eaten
    }

    /// Consumes at most `count` chars on which `func` holds; returns how many were consumed.
    pub fn consume_n_times<F: Fn(char) -> bool>(&mut self, func: F, count: usize) -> (eaten: usize)
        requires
            old(self).wf(),
            forall|c: char| func.requires((c,)),
        ensures
            final(self).wf(),
            final(self).same_text(old(self)),
            final(self).buf_start() == old(self).buf_start(),
            eaten == final(self).pos() - old(self).pos(),
            eaten <= count,
            forall|k: int|
                old(self).pos() <= k < final(self).pos() ==> old(self).chars()[k] != EOF
                    && func.ensures((old(self).chars()[k],), true),
            eaten < count ==> final(self).eof() || func.ensures((final(self).cur(),), false),
    {
        let mut eaten: usize = 0;
        while !self.is_eof() && func(self.current_char()) && eaten < count
            invariant
                self.wf(),
                self.same_text(old(self)),
                self.buf_start() == old(self).buf_start(),
                eaten == self.pos() - old(self).pos(),
                eaten <= count,
                forall|c: char| func.requires((c,)),
                forall|k: int|
                    old(self).pos() <= k < self.pos() ==> self.chars()[k] != EOF && func.ensures(
                        (self.chars()[k],),
                        true,
                    ),
            decreases self.chars().len() - self.pos(),
        {
            eaten += 1;
            self.bump();
        }
        eaten
    }

    /// Consumes chars on which `func` holds; returns how many were consumed.
    pub fn eat_while<F: Fn(char) -> bool>(&mut self, func: F) -> (count: usize)
        requires
            old(self).wf(),
            forall|c: char| func.requires((c,)),
        ensures
            final(self).wf(),
            final(self).same_text(old(self)),
            final(self).buf_start() == old(self).buf_start(),
            count == final(self).pos() - old(self).pos(),
            forall|k: int|
                old(self).pos() <= k < final(self).pos() ==> old(self).chars()[k] != EOF
                    && func.ensures((old(self).chars()[k],), true),
            final(self).eof() || func.ensures((final(self).cur(),), false),
    {
        let mut count: usize = 0;
        loop
            invariant
                self.wf(),
                self.same_text(old(self)),
                self.buf_start() == old(self).buf_start(),
                count == self.pos() - old(self).pos(),
                forall|c: char| func.requires((c,)),
                forall|k: int|
                    old(self).pos() <= k < self.pos() ==> self.chars()[k] != EOF && func.ensures(
                        (self.chars()[k],),
                        true,
                    ),
            ensures
                self.wf(),
                self.same_text(old(self)),
                self.buf_start() == old(self).buf_start(),
                count == self.pos() - old(self).pos(),
                forall|k: int|
                    old(self).pos() <= k < self.pos() ==> self.chars()[k] != EOF && func.ensures(
                        (self.chars()[k],),
                        true,
                    ),
                self.eof() || func.ensures((self.cur(),), false),
            decreases self.chars().len() - self.pos(),
        {
            if self.is_eof() {
                break;
            }
            let c = self.current_char();
            let ok = func(c);
            if !ok {
                break;
            }
            count += 1;
            self.bump();
        }
        count
    }

    /// Consumes chars on which `func` holds, where `func` computes `p`.
    pub(crate) fn eat_while_run<F: Fn(char) -> bool>(
        &mut self,
        func: F,
        Ghost(p): Ghost<spec_fn(char) -> bool>,
    ) -> (count: usize)
        requires
            old(self).wf(),
            forall|c: char| func.requires((c,)),
            forall|c: char, b: bool| func.ensures((c,), b) ==> b == p(c),
        ensures
            final(self).wf(),
            final(self).same_text(old(self)),
            final(self).buf_start() == old(self).buf_start(),
            final(self).pos() == run_end(old(self).chars(), old(self).pos(), p),
            count == final(self).pos() - old(self).pos(),
            count > 0 ==> final(self).prev() == final(self).chars()[final(self).pos() - 1],
            count == 0 ==> final(self).prev() == old(self).prev(),
    {
        let ghost start = self.pos();
        let mut count: usize = 0;
        loop
            invariant
                self.wf(),
                self.same_text(old(self)),
                self.buf_start() == old(self).buf_start(),
                start == old(self).pos(),
                count == self.pos() - start,
                forall|c: char| func.requires((c,)),
                forall|c: char, b: bool| func.ensures((c,), b) ==> b == p(c),
                forall|k: int| start <= k < self.pos() ==> self.chars()[k] != EOF && p(self.chars()[k]),
                count > 0 ==> self.prev() == self.chars()[self.pos() - 1],
                count == 0 ==> self.prev() == old(self).prev(),
            ensures
                self.wf(),
                self.same_text(old(self)),
                self.buf_start() == old(self).buf_start(),
                count == self.pos() - start,
                forall|k: int| start <= k < self.pos() ==> self.chars()[k] != EOF && p(self.chars()[k]),
                self.eof() || !p(self.cur()),
                count > 0 ==> self.prev() == self.chars()[self.pos() - 1],
                count == 0 ==> self.prev() == old(self).prev(),
            decreases self.chars().len() - self.pos(),
        {
            if self.is_eof() {
                break;
            }
            let c = self.current_char();
            let ok = func(c);
            if !ok {
                break;
            }
            count += 1;
            self.bump();
        }
        proof {
            lemma_run_end_unique(self.chars(), start, p, self.pos());
        }
        count
    }

    /// Consumes the rest of the text (up to a NUL char, if any).
    pub fn eat_till_end(&mut self) -> (count: usize)
        requires
            old(self).wf(),
        ensures
            final(self).wf(),
            final(self).same_text(old(self)),
            final(self).buf_start() == old(self).buf_start(),
            count == final(self).pos() - old(self).pos(),
            final(self).pos() == run_end(old(self).chars(), old(self).pos(), any_char()),
    {
        let ghost p = any_char();
        proof {
            lemma_run_end(self.chars(), self.pos(), p);
        }
        let count = self.eat_while(|c: char| -> (b: bool) ensures b == true { true });
        proof {
            lemma_run_end_unique(old(self).chars(), old(self).pos(), p, self.pos());
        }
        count
    }

    /// Whether the current buffer spells `lit`.
    pub fn buffer_eq(&self, lit: &str) -> (r: bool)
        requires
            self.wf(),
        ensures
            r == (self.buffer() == lit@),
    {
        chars_eq_str(&self.text, self.buf_start, self.pos, lit)
    }

    /// The reader's text.
    pub fn chars_vec(&self) -> (v: &Vec<char>)
        ensures
            v@ == self.chars(),
    {
        &self.text
    }

    /// Number of chars in the reader's text.
    pub fn char_len(&self) -> (n: usize)
        ensures
            n == self.chars().len(),
    {
        self.text.len()
    }

    /// Index of the current char.
    pub fn char_pos(&self) -> (n: usize)
        ensures
            n == self.pos(),
    {
        self.pos
    }

    /// A copy of the reader.
    pub fn duplicate(&self) -> (r: Reader)
        requires
            self.wf(),
        ensures
            r.wf(),
            r.same_text(self),
            r.pos() == self.pos(),
            r.buf_start() == self.buf_start(),
            r.prev() == self.prev(),
    {
        let mut text: Vec<char> = Vec::new();
        let mut i: usize = 0;
        while i < self.text.len()
            invariant
                0 <= i <= self.text.len(),
                text@ == self.text@.take(i as int),
            decreases self.text.len() - i,
        {
            text.push(self.text[i]);
            assert(self.text@.take(i + 1) =~= self.text@.take(i as int).push(self.text@[i as int]));
            i += 1;
        }
        assert(self.text@.take(i as int) =~= self.text@);
        Reader {
            text,
            valid_range: self.valid_range,
            buf_start: self.buf_start,
            pos: self.pos,
            current_buffer_byte_pos: self.current_buffer_byte_pos,
            current_buffer_byte_len: self.current_buffer_byte_len,
            prev: self.prev,
        }
    }

    /// The whole text of the reader.
    pub fn get_source_text(&self) -> (s: String)
        requires
            self.wf(),
        ensures
            s@ == self.chars(),
    {
        let s = chars_to_string(&self.text, 0, self.text.len());
        assert(self.text@.subrange(0, self.text@.len() as int) =~= self.text@);
        s
    }

    /// Byte offset, relative to the reader's text, of the end of the current buffer.
    pub fn get_current_end_pos(&self) -> (n: usize)
        requires
            self.wf(),
        ensures
            n == self.buf_byte_start() + self.buf_byte_len() - self.valid().start_offset,
    {
        proof {
            self.lemma_ranges();
        }
        self.current_buffer_byte_pos + self.current_buffer_byte_len
    }
}

/// Whether `n` is still below an optional limit.
fn below_limit(n: usize, limit: Option<usize>) -> (r: bool)
    ensures
        r == match limit {
            None => true,
            Some(m) => n < m,
        },
{
    match limit {
        None => true,
        Some(m) => n < m,
    }
}

/// `run_end` is the only index that ends the run that starts at `i`.
pub proof fn lemma_run_end_unique(s: Seq<char>, i: int, p: spec_fn(char) -> bool, j: int)
    requires
        0 <= i <= j <= s.len(),
        forall|k: int| i <= k < j ==> s[k] != EOF && p(s[k]),
        j == s.len() || s[j] == EOF || !p(s[j]),
    ensures
        run_end(s, i, p) == j,
    decreases j - i,
{
    if i < j {
        lemma_run_end_unique(s, i + 1, p, j);
    }
}

} // verus!
