use vstd::prelude::*;

use crate::text::reader::run_end;
use crate::text::reader::eq_char;
use crate::text::reader::EOF;

verus! {

/// The char at `i`, or `EOF` past the end.
pub open spec fn char_at(s: Seq<char>, i: int) -> char {
    if 0 <= i < s.len() {
        s[i]
    } else {
        EOF
    }
}

/// Where a reader at `i` stands after one `bump`.
pub open spec fn step(s: Seq<char>, i: int) -> int {
    if char_at(s, i) != EOF {
        i + 1
    } else {
        i
    }
}

/// Where a reader at `i` stands after consuming at most `n` chars equal to `ch`.
pub open spec fn consume_upto(s: Seq<char>, i: int, ch: char, n: int) -> int {
    let e = run_end(s, i, eq_char(ch));
    if e - i <= n {
        e
    } else {
        i + n
    }
}

pub open spec fn spec_is_doc_whitespace(c: char) -> bool {
    c == ' ' || c == '\t' || c == '\r' || c == '\n'
}

pub open spec fn doc_whitespace() -> spec_fn(char) -> bool {
    |c: char| spec_is_doc_whitespace(c)
}

pub open spec fn ascii_digit() -> spec_fn(char) -> bool {
    |c: char| '0' <= c <= '9'
}

pub open spec fn ascii_alpha() -> spec_fn(char) -> bool {
    |c: char| ('a' <= c <= 'z') || ('A' <= c <= 'Z')
}

pub open spec fn not_char(ch: char) -> spec_fn(char) -> bool {
    |c: char| c != ch
}

} // verus!
