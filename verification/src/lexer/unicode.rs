use vstd::prelude::*;

verus! {

/// Whether `c` has the Unicode `Alphabetic` property.
pub uninterp spec fn unicode_alphabetic(c: char) -> bool;

/// Whether `c` has the Unicode `Alphabetic` property or a numeric general
/// category (`Nd`, `Nl` or `No`).
pub uninterp spec fn unicode_alphanumeric(c: char) -> bool;

pub open spec fn is_ascii_letter(c: char) -> bool {
    ('a' <= c <= 'z') || ('A' <= c <= 'Z')
}

pub open spec fn is_ascii_digit(c: char) -> bool {
    '0' <= c <= '9'
}

/// `char::is_alphabetic`.  The result is the Unicode `Alphabetic` property of
/// `c`; among ASCII chars exactly the letters have it.
#[verifier::external_body]
pub fn char_is_alphabetic(c: char) -> (r: bool)
    ensures
        r == unicode_alphabetic(c),
        (c as u32) < 128 ==> (r <==> is_ascii_letter(c)),
{
    c.is_alphabetic()
}

/// `char::is_alphanumeric`.  The result is whether `c` is alphabetic or
/// numeric in Unicode; among ASCII chars exactly the letters and digits are.
#[verifier::external_body]
pub fn char_is_alphanumeric(c: char) -> (r: bool)
    ensures
        r == unicode_alphanumeric(c),
        (c as u32) < 128 ==> (r <==> (is_ascii_letter(c) || is_ascii_digit(c))),
{
    c.is_alphanumeric()
}

/// A char that may start a name.
pub open spec fn spec_is_name_start(c: char) -> bool {
    unicode_alphabetic(c) || c == '_'
}

/// A char that may continue a name.
pub open spec fn spec_is_name_continue(c: char) -> bool {
    unicode_alphanumeric(c) || c == '_'
}

pub fn is_name_start(ch: char) -> (r: bool)
    ensures
        r == spec_is_name_start(ch),
        (ch as u32) < 128 ==> (r <==> (is_ascii_letter(ch) || ch == '_')),
{
    char_is_alphabetic(ch) || ch == '_'
}

pub fn is_name_continue(ch: char) -> (r: bool)
    ensures
        r == spec_is_name_continue(ch),
        (ch as u32) < 128 ==> (r <==> (is_ascii_letter(ch) || is_ascii_digit(ch) || ch == '_')),
{
    char_is_alphanumeric(ch) || ch == '_'
}

} // verus!
