use vstd::prelude::*;
use vstd::utf8::encode_utf8;
use vstd::utf8::encode_scalar;

verus! {

/// The number of bytes of the UTF-8 encoding of `c`.
pub open spec fn char_width(c: char) -> nat {
    if (c as u32) < 0x80 {
        1
    } else if (c as u32) < 0x800 {
        2
    } else if (c as u32) < 0x10000 {
        3
    } else {
        4
    }
}

/// The number of bytes of the UTF-8 encoding of `s`.
pub open spec fn byte_len(s: Seq<char>) -> nat
    decreases s.len(),
{
    if s.len() == 0 {
        0
    } else {
        char_width(s[0]) + byte_len(s.drop_first())
    }
}

pub proof fn lemma_byte_len_add(a: Seq<char>, b: Seq<char>)
    ensures
        byte_len(a + b) == byte_len(a) + byte_len(b),
    decreases a.len(),
{
    if a.len() == 0 {
        assert(a + b =~= b);
    } else {
        assert((a + b).drop_first() =~= a.drop_first() + b);
        lemma_byte_len_add(a.drop_first(), b);
    }
}

/// Extending a prefix by one char adds that char's width.
pub proof fn lemma_byte_len_take_step(s: Seq<char>, i: int)
    requires
        0 <= i < s.len(),
    ensures
        byte_len(s.take(i + 1)) == byte_len(s.take(i)) + char_width(s[i]),
{
    assert(s.take(i + 1) =~= s.take(i) + seq![s[i]]);
    lemma_byte_len_add(s.take(i), seq![s[i]]);
    assert(seq![s[i]].drop_first() =~= Seq::<char>::empty());
    assert(byte_len(Seq::<char>::empty()) == 0);
    assert(byte_len(seq![s[i]]) == char_width(s[i]));
}

/// Every char takes at least one byte.
pub proof fn lemma_byte_len_at_least_len(s: Seq<char>)
    ensures
        byte_len(s) >= s.len(),
        byte_len(s) == 0 <==> s.len() == 0,
    decreases s.len(),
{
    if s.len() > 0 {
        lemma_byte_len_at_least_len(s.drop_first());
    }
}

pub proof fn lemma_byte_len_single(c: char)
    ensures
        byte_len(seq![c]) == char_width(c),
{
    assert(seq![c].drop_first() =~= Seq::<char>::empty());
    assert(byte_len(Seq::<char>::empty()) == 0);
}

/// The byte length of a subrange, split at an inner point.
pub proof fn lemma_byte_len_split(s: Seq<char>, i: int, j: int, k: int)
    requires
        0 <= i <= j <= k <= s.len(),
    ensures
        byte_len(s.subrange(i, k)) == byte_len(s.subrange(i, j)) + byte_len(s.subrange(j, k)),
{
    assert(s.subrange(i, k) =~= s.subrange(i, j) + s.subrange(j, k));
    lemma_byte_len_add(s.subrange(i, j), s.subrange(j, k));
}

/// A subrange is never longer in bytes than the whole.
pub proof fn lemma_byte_len_subrange_bound(s: Seq<char>, i: int, j: int)
    requires
        0 <= i <= j <= s.len(),
    ensures
        byte_len(s.subrange(i, j)) <= byte_len(s),
        byte_len(s.subrange(0, i)) + byte_len(s.subrange(i, j)) <= byte_len(s),
{
    lemma_byte_len_split(s, 0, i, j);
    lemma_byte_len_split(s, 0, j, s.len() as int);
    assert(s.subrange(0, s.len() as int) =~= s);
}

/// Each char is encoded in `char_width` bytes.
pub proof fn lemma_byte_len_encode(s: Seq<char>)
    ensures
        byte_len(s) == encode_utf8(s).len(),
    decreases s.len(),
{
    if s.len() > 0 {
        lemma_byte_len_encode(s.drop_first());
        let v = s[0] as u32;
        vstd::utf8::char_is_scalar(s[0]);
        assert(encode_scalar(v).len() == char_width(s[0]));
    }
}

/// The number of bytes of the UTF-8 encoding of `c`.
pub fn len_utf8(c: char) -> (n: usize)
    ensures
        n == char_width(c),
        1 <= n <= 4,
{
    let v = c as u32;
    if v < 0x80 {
        1
    } else if v < 0x800 {
        2
    } else if v < 0x10000 {
        3
    } else {
        4
    }
}

} // verus!

verus! {

/// The chars of `s[..n]` whose UTF-8 bytes lie inside the byte range `range`.
pub open spec fn chars_within(s: Seq<char>, range: crate::text::text_range::SourceRange, n: int) -> Seq<char>
    decreases n,
{
    if n <= 0 || n > s.len() {
        Seq::empty()
    } else {
        let prev = chars_within(s, range, n - 1);
        let o = byte_len(s.take(n - 1));
        if range.start_offset <= o && o + char_width(s[n - 1]) <= range.end() {
            prev.push(s[n - 1])
        } else {
            prev
        }
    }
}

/// The chars of `s` that lie inside the byte range `range`.
pub fn chars_in_range(s: &Vec<char>, range: crate::text::text_range::SourceRange) -> (v: Vec<char>)
    requires
        byte_len(s@) <= usize::MAX,
    ensures
        v@ == chars_within(s@, range, s@.len() as int),
{
    let mut v: Vec<char> = Vec::new();
    let mut off: usize = 0;
    let mut i: usize = 0;
    while i < s.len()
        invariant
            i <= s@.len(),
            byte_len(s@) <= usize::MAX,
            off == byte_len(s@.take(i as int)),
            v@ == chars_within(s@, range, i as int),
        decreases s@.len() - i,
    {
        proof {
            lemma_byte_len_take_step(s@, i as int);
            lemma_byte_len_split(s@, 0, i + 1, s@.len() as int);
            assert(s@.subrange(0, i + 1) =~= s@.take(i + 1));
            assert(s@.subrange(0, s@.len() as int) =~= s@);
        }
        let w = len_utf8(s[i]);
        let end_ok = range.start_offset <= off && (off as u128) + (w as u128) <= (range.start_offset as u128) + (range.length as u128);
        if end_ok {
            v.push(s[i]);
        }
        off = off + w;
        i += 1;
    }
    v
}

} // verus!
