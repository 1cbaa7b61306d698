use vstd::prelude::*;

use crate::kind::lua_token_kind::LuaTokenKind;
use crate::parser::parser_error::{LuaParseError, LuaParseErrorKind};
use crate::syntax::tree::syntax_tree::LuaSyntaxToken;
use crate::text::char_width::{byte_len, char_width, len_utf8, lemma_byte_len_take_step};
use crate::text::strings::{chars_to_string, push_str};
use crate::text::text_range::SourceRange;

verus! {

// ---------------------------------------------------------------------------
// Chars
// ---------------------------------------------------------------------------

pub open spec fn is_ascii_digit(c: char) -> bool {
    '0' <= c && c <= '9'
}

pub open spec fn is_ascii_hex(c: char) -> bool {
    ('0' <= c && c <= '9') || ('a' <= c && c <= 'f') || ('A' <= c && c <= 'F')
}

/// The value of a hexadecimal digit.
pub open spec fn hex_val(c: char) -> int {
    if '0' <= c && c <= '9' {
        c as int - '0' as int
    } else if 'a' <= c && c <= 'f' {
        c as int - 'a' as int + 10
    } else {
        c as int - 'A' as int + 10
    }
}

/// The value of a run of hexadecimal digits.
pub open spec fn hex_value(d: Seq<char>) -> int
    decreases d.len(),
{
    if d.len() == 0 {
        0
    } else {
        hex_value(d.drop_last()) * 16 + hex_val(d.last())
    }
}

/// The value of a run of decimal digits.
pub open spec fn dec_value(d: Seq<char>) -> int
    decreases d.len(),
{
    if d.len() == 0 {
        0
    } else {
        dec_value(d.drop_last()) * 10 + (d.last() as int - '0' as int)
    }
}

/// The chars with the Unicode `White_Space` property.
pub open spec fn is_unicode_whitespace(c: char) -> bool {
    let v = c as u32;
    (0x09 <= v && v <= 0x0D) || v == 0x20 || v == 0x85 || v == 0xA0 || v == 0x1680 || (0x2000 <= v && v
        <= 0x200A) || v == 0x2028 || v == 0x2029 || v == 0x202F || v == 0x205F || v == 0x3000
}

/// Whether `v` is a Unicode scalar value, the code of a char.
pub open spec fn is_scalar(v: int) -> bool {
    0 <= v <= 0x10FFFF && !(0xD800 <= v <= 0xDFFF)
}

/// What `u32::from_str_radix(s, 16)` accepts: an optional `+`, then one or
/// more hexadecimal digits whose value fits in a `u32`.
pub open spec fn parse_hex_u32(s: Seq<char>) -> Option<int> {
    parse_hex_digits(
        if s.len() > 0 && s[0] == '+' {
            s.drop_first()
        } else {
            s
        },
    )
}

/// One or more hexadecimal digits whose value fits in a `u32`.
pub open spec fn parse_hex_digits(d: Seq<char>) -> Option<int> {
    if d.len() > 0 && (forall|k: int| 0 <= k < d.len() ==> is_ascii_hex(#[trigger] d[k])) && hex_value(d)
        <= u32::MAX {
        Some(hex_value(d))
    } else {
        None
    }
}

fn is_digit(c: char) -> (b: bool)
    ensures
        b == is_ascii_digit(c),
{
    '0' <= c && c <= '9'
}

fn is_hex(c: char) -> (b: bool)
    ensures
        b == is_ascii_hex(c),
{
    ('0' <= c && c <= '9') || ('a' <= c && c <= 'f') || ('A' <= c && c <= 'F')
}

fn hex_digit_value(c: char) -> (v: u32)
    requires
        is_ascii_hex(c),
    ensures
        v == hex_val(c),
        v < 16,
{
    if '0' <= c && c <= '9' {
        (c as u32) - ('0' as u32)
    } else if 'a' <= c && c <= 'f' {
        (c as u32) - ('a' as u32) + 10
    } else {
        (c as u32) - ('A' as u32) + 10
    }
}

fn is_whitespace(c: char) -> (b: bool)
    ensures
        b == is_unicode_whitespace(c),
{
    let v = c as u32;
    (0x09 <= v && v <= 0x0D) || v == 0x20 || v == 0x85 || v == 0xA0 || v == 0x1680 || (0x2000 <= v && v
        <= 0x200A) || v == 0x2028 || v == 0x2029 || v == 0x202F || v == 0x205F || v == 0x3000
}

/// `char::from_u32`: the char with code `v`, when `v` is a Unicode scalar
/// value.
#[verifier::external_body]
fn char_from_u32(v: u32) -> (r: Option<char>)
    ensures
        r is Some <==> is_scalar(v as int),
        r matches Some(c) ==> c == v as char,
{
    char::from_u32(v)
}

/// A longer run of hexadecimal digits is worth at least as much.
proof fn lemma_hex_value_mono(d: Seq<char>, k: int)
    requires
        0 <= k <= d.len(),
        forall|j: int| 0 <= j < d.len() ==> is_ascii_hex(#[trigger] d[j]),
    ensures
        hex_value(d.subrange(0, k)) <= hex_value(d),
        hex_value(d) >= 0,
    decreases d.len(),
{
    if d.len() > 0 {
        let p = d.drop_last();
        assert forall|j: int| 0 <= j < p.len() implies is_ascii_hex(#[trigger] p[j]) by {
            assert(p[j] == d[j]);
        }
        if k == d.len() {
            assert(d.subrange(0, k) =~= d);
            lemma_hex_value_mono(p, 0);
        } else {
            assert(d.subrange(0, k) =~= p.subrange(0, k));
            lemma_hex_value_mono(p, k);
        }
        assert(is_ascii_hex(d.last()));
    } else {
        assert(d.subrange(0, k) =~= d);
    }
}

/// The value of the hexadecimal number `t[from..to]` (after an optional
/// `+`), when it fits in a `u32`.
fn parse_hex_u32_at(t: &Vec<char>, from: usize, to: usize) -> (r: Option<u32>)
    requires
        from <= to <= t@.len(),
    ensures
        match parse_hex_u32(t@.subrange(from as int, to as int)) {
            Some(v) => r matches Some(x) && x == v,
            None => r is None,
        },
{
    let ghost s = t@.subrange(from as int, to as int);
    let mut start = from;
    if start < to && t[start] == '+' {
        start += 1;
    }
    let ghost d = t@.subrange(start as int, to as int);
    assert(d == (if s.len() > 0 && s[0] == '+' { s.drop_first() } else { s }));
    if start == to {
        assert(d.len() == 0);
        assert(parse_hex_u32(s) is None);
        return None;
    }
    let mut v: u64 = 0;
    let mut over = false;
    let mut k = start;
    while k < to
        invariant
            from <= start <= k <= to <= t@.len(),
            s == t@.subrange(from as int, to as int),
            d == t@.subrange(start as int, to as int),
            d == (if s.len() > 0 && s[0] == '+' { s.drop_first() } else { s }),
            forall|j: int| start <= j < k ==> is_ascii_hex(#[trigger] t@[j]),
            !over ==> v == hex_value(t@.subrange(start as int, k as int)) && v <= u32::MAX,
            over ==> hex_value(t@.subrange(start as int, k as int)) > u32::MAX,
        decreases to - k,
    {
        let c = t[k];
        if !is_hex(c) {
            assert(d[k - start] == c);
            assert(!is_ascii_hex(d[k - start]));
            assert(parse_hex_u32(s) is None);
            return None;
        }
        proof {
            assert(t@.subrange(start as int, k + 1).drop_last() =~= t@.subrange(start as int, k as int));
            assert(t@.subrange(start as int, k + 1).last() == c);
        }
        if !over {
            let nv = v * 16 + hex_digit_value(c) as u64;
            if nv > 0xFFFF_FFFF {
                over = true;
            } else {
                v = nv;
            }
        } else {
            proof {
                let p = t@.subrange(start as int, k + 1);
                assert forall|j: int| 0 <= j < p.len() implies is_ascii_hex(#[trigger] p[j]) by {
                    assert(p[j] == t@[start + j]);
                }
                lemma_hex_value_mono(p, p.len() - 1);
                assert(p.subrange(0, p.len() - 1) =~= t@.subrange(start as int, k as int));
            }
        }
        k += 1;
    }
    assert(t@.subrange(start as int, k as int) =~= d);
    assert forall|j: int| 0 <= j < d.len() implies is_ascii_hex(#[trigger] d[j]) by {
        assert(d[j] == t@[start + j]);
    }
    if over {
        None
    } else {
        proof {
            lemma_hex_value_mono(d, 0);
        }
        Some(v as u32)
    }
}

// ---------------------------------------------------------------------------
// Quoted strings
// ---------------------------------------------------------------------------

/// The first position at or after `j` that holds `}` (or the end).
pub open spec fn close_brace(t: Seq<char>, j: int) -> int
    decreases t.len() - j,
{
    if j >= t.len() || j < 0 {
        t.len() as int
    } else if t[j] == '}' {
        j
    } else {
        close_brace(t, j + 1)
    }
}

/// The closing brace lies between the start and the end.
pub proof fn lemma_close_brace_bounds(t: Seq<char>, j: int)
    requires
        0 <= j <= t.len(),
    ensures
        j <= close_brace(t, j) <= t.len(),
    decreases t.len() - j,
{
    if j < t.len() && t[j] != '}' {
        lemma_close_brace_bounds(t, j + 1);
    }
}

/// The position after the decimal digits of an escape `\d`, `\dd` or
/// `\ddd` whose first digit is at `j - 1`: at most two more digits.
pub open spec fn dec_escape_end(t: Seq<char>, j: int) -> int {
    if j < t.len() && is_ascii_digit(t[j]) {
        if j + 1 < t.len() && is_ascii_digit(t[j + 1]) {
            j + 2
        } else {
            j + 1
        }
    } else {
        j
    }
}

/// The first position at or after `j` that is not a white space char.
pub open spec fn skip_whitespace(t: Seq<char>, j: int) -> int
    decreases t.len() - j,
{
    if j >= t.len() || j < 0 {
        j
    } else if is_unicode_whitespace(t[j]) {
        skip_whitespace(t, j + 1)
    } else {
        j
    }
}

/// Skipping white space stays between the start and the end.
pub proof fn lemma_skip_whitespace_bounds(t: Seq<char>, j: int)
    requires
        0 <= j <= t.len(),
    ensures
        j <= skip_whitespace(t, j) <= t.len(),
    decreases t.len() - j,
{
    if j < t.len() && is_unicode_whitespace(t[j]) {
        lemma_skip_whitespace_bounds(t, j + 1);
    }
}

/// The value of a quoted Lua string, read from position `i` (the opening
/// quote `delim` excluded) after `acc`: up to the closing quote or the end,
/// with its escapes decoded; `None` for an escape that Lua does not know.
pub open spec fn spec_unescape(t: Seq<char>, i: int, delim: char, acc: Seq<char>) -> Option<Seq<char>>
    decreases t.len() - i,
{
    if i < 0 || i >= t.len() {
        Some(acc)
    } else if t[i] != '\\' {
        if t[i] == delim {
            Some(acc)
        } else {
            spec_unescape(t, i + 1, delim, acc.push(t[i]))
        }
    } else if i + 1 >= t.len() {
        Some(acc)
    } else {
        let n = t[i + 1];
        if n == 'a' {
            spec_unescape(t, i + 2, delim, acc.push('\x07'))
        } else if n == 'b' {
            spec_unescape(t, i + 2, delim, acc.push('\x08'))
        } else if n == 'f' {
            spec_unescape(t, i + 2, delim, acc.push('\x0C'))
        } else if n == 'n' {
            spec_unescape(t, i + 2, delim, acc.push('\n'))
        } else if n == 'r' {
            spec_unescape(t, i + 2, delim, acc.push('\r'))
        } else if n == 't' {
            spec_unescape(t, i + 2, delim, acc.push('\t'))
        } else if n == 'v' {
            spec_unescape(t, i + 2, delim, acc.push('\x0B'))
        } else if n == 'x' {
            if i + 3 < t.len() && is_ascii_hex(t[i + 2]) && is_ascii_hex(t[i + 3]) {
                spec_unescape(t, i + 4, delim, acc.push((hex_val(t[i + 2]) * 16 + hex_val(t[i + 3])) as char))
            } else {
                None
            }
        } else if n == 'u' {
            if i + 2 < t.len() && t[i + 2] == '{' {
                let j = close_brace(t, i + 3);
                proof {
                    lemma_close_brace_bounds(t, i + 3);
                }
                let next = if j < t.len() {
                    j + 1
                } else {
                    t.len() as int
                };
                match parse_hex_u32(t.subrange(i + 3, j)) {
                    Some(cp) => if is_scalar(cp) {
                        spec_unescape(t, next, delim, acc.push(cp as char))
                    } else {
                        None
                    },
                    None => spec_unescape(t, next, delim, acc),
                }
            } else {
                spec_unescape(t, if i + 3 <= t.len() { i + 3 } else { t.len() as int }, delim, acc)
            }
        } else if is_ascii_digit(n) {
            let e = dec_escape_end(t, i + 2);
            let v = dec_value(t.subrange(i + 1, e));
            if v <= 255 {
                spec_unescape(t, e, delim, acc.push(v as char))
            } else {
                spec_unescape(t, e, delim, acc)
            }
        } else if n == '\\' || n == '\'' || n == '"' || n == '\r' || n == '\n' {
            spec_unescape(t, i + 2, delim, acc.push(n))
        } else if n == 'z' {
            proof {
                lemma_skip_whitespace_bounds(t, i + 2);
            }
            spec_unescape(t, skip_whitespace(t, i + 2), delim, acc)
        } else {
            None
        }
    }
}

/// The one-char escapes of the Lua manual and the chars they stand for:
/// `\a` bell, `\b` back space, `\f` form feed, `\n` newline, `\r` carriage
/// return, `\t` tab, `\v` vertical tab, `\\` backslash, `\"` double quote,
/// `\'` single quote, and a backslash before a newline for the newline.
pub open spec fn lua_simple_escape(n: char) -> Option<char> {
    if n == 'a' {
        Some('\x07')
    } else if n == 'b' {
        Some('\x08')
    } else if n == 'f' {
        Some('\x0C')
    } else if n == 'n' {
        Some('\n')
    } else if n == 'r' {
        Some('\r')
    } else if n == 't' {
        Some('\t')
    } else if n == 'v' {
        Some('\x0B')
    } else if n == '\\' {
        Some('\\')
    } else if n == '"' {
        Some('"')
    } else if n == '\'' {
        Some('\'')
    } else if n == '\n' {
        Some('\n')
    } else {
        None
    }
}

/// Each one-char escape decodes to its char, whichever quote delimits the
/// string, and reading goes on after it.
pub proof fn lemma_simple_escapes_decode(t: Seq<char>, i: int, delim: char, acc: Seq<char>)
    requires
        0 <= i,
        i + 1 < t.len(),
        t[i] == '\\',
        lua_simple_escape(t[i + 1]) is Some,
    ensures
        spec_unescape(t, i, delim, acc) == spec_unescape(t, i + 2, delim, acc.push(lua_simple_escape(t[i + 1])->0)),
{
}

/// The value of a hexadecimal digit char.
pub open spec fn lua_hex_digit(c: char) -> int {
    if '0' <= c && c <= '9' {
        c as int - 48
    } else if 'a' <= c && c <= 'f' {
        c as int - 87
    } else {
        c as int - 55
    }
}

/// `\xXY` is the char with code `16 * X + Y`; `\ddd` (up to three decimal
/// digits) the char with that decimal code when it is at most 255, and a
/// single digit before a non-digit the char with that code.
pub proof fn lemma_numeric_escapes_decode(t: Seq<char>, i: int, delim: char, acc: Seq<char>)
    requires
        0 <= i,
        i + 1 < t.len(),
        t[i] == '\\',
    ensures
        t[i + 1] == 'x' && i + 3 < t.len() && is_ascii_hex(t[i + 2]) && is_ascii_hex(t[i + 3]) ==> spec_unescape(
            t,
            i,
            delim,
            acc,
        ) == spec_unescape(
            t,
            i + 4,
            delim,
            acc.push((16 * lua_hex_digit(t[i + 2]) + lua_hex_digit(t[i + 3])) as char),
        ),
        i + 3 < t.len() && is_ascii_digit(t[i + 1]) && is_ascii_digit(t[i + 2]) && is_ascii_digit(t[i + 3])
            && 100 * (t[i + 1] as int - 48) + 10 * (t[i + 2] as int - 48) + (t[i + 3] as int - 48) <= 255
            ==> spec_unescape(t, i, delim, acc) == spec_unescape(
            t,
            i + 4,
            delim,
            acc.push((100 * (t[i + 1] as int - 48) + 10 * (t[i + 2] as int - 48) + (t[i + 3] as int - 48)) as char),
        ),
        is_ascii_digit(t[i + 1]) && (i + 2 >= t.len() || !is_ascii_digit(t[i + 2])) ==> spec_unescape(
            t,
            i,
            delim,
            acc,
        ) == spec_unescape(t, i + 2, delim, acc.push((t[i + 1] as int - 48) as char)),        i + 3 < t.len() && is_ascii_digit(t[i + 1]) && is_ascii_digit(t[i + 2]) && is_ascii_digit(t[i + 3])
            && 100 * (t[i + 1] as int - 48) + 10 * (t[i + 2] as int - 48) + (t[i + 3] as int - 48) > 255
            ==> spec_unescape(t, i, delim, acc) == spec_unescape(t, i + 4, delim, acc),
        t[i + 1] == 'x' && !(i + 3 < t.len() && is_ascii_hex(t[i + 2]) && is_ascii_hex(t[i + 3]))
            ==> spec_unescape(t, i, delim, acc) is None,
{
    if i + 3 < t.len() && is_ascii_digit(t[i + 1]) && is_ascii_digit(t[i + 2]) && is_ascii_digit(t[i + 3]) {
        let d = t.subrange(i + 1, i + 4);
        assert(d.drop_last() =~= t.subrange(i + 1, i + 3));
        assert(d.drop_last().drop_last() =~= t.subrange(i + 1, i + 2));
        assert(d.drop_last().drop_last().drop_last() =~= Seq::<char>::empty());
        reveal_with_fuel(dec_value, 4);
    }
    if is_ascii_digit(t[i + 1]) && (i + 2 >= t.len() || !is_ascii_digit(t[i + 2])) {
        let d = t.subrange(i + 1, i + 2);
        assert(d.drop_last() =~= Seq::<char>::empty());
        reveal_with_fuel(dec_value, 2);
    }
}

/// Skipping from `j` stops at `k` when all between is white space and
/// `k` is not (or is the end).
proof fn lemma_skip_whitespace_to(t: Seq<char>, j: int, k: int)
    requires
        0 <= j <= k <= t.len(),
        forall|m: int| j <= m < k ==> is_unicode_whitespace(#[trigger] t[m]),
        k == t.len() || !is_unicode_whitespace(t[k]),
    ensures
        skip_whitespace(t, j) == k,
    decreases k - j,
{
    if j < k {
        lemma_skip_whitespace_to(t, j + 1, k);
    }
}

/// `\z` drops itself and the white space after it (line breaks too): the
/// value goes on with the first char that is not white space.
pub proof fn lemma_z_escape_skips_whitespace(t: Seq<char>, i: int, k: int, delim: char, acc: Seq<char>)
    requires
        0 <= i,
        i + 2 <= k <= t.len(),
        t[i] == '\\',
        t[i + 1] == 'z',
        forall|m: int| i + 2 <= m < k ==> is_unicode_whitespace(#[trigger] t[m]),
        k == t.len() || !is_unicode_whitespace(t[k]),
    ensures
        spec_unescape(t, i, delim, acc) == spec_unescape(t, k, delim, acc),
{
    lemma_skip_whitespace_to(t, i + 2, k);
}

/// A backslash before a char that starts no Lua escape makes the string
/// invalid; a backslash before a carriage return keeps it.
pub proof fn lemma_unknown_escapes(t: Seq<char>, i: int, delim: char, acc: Seq<char>)
    requires
        0 <= i,
        i + 1 < t.len(),
        t[i] == '\\',
    ensures
        t[i + 1] == '\r' ==> spec_unescape(t, i, delim, acc) == spec_unescape(t, i + 2, delim, acc.push('\r')),
        lua_simple_escape(t[i + 1]) is None && !is_ascii_digit(t[i + 1]) && t[i + 1] != 'x' && t[i + 1] != 'u'
            && t[i + 1] != 'z' && t[i + 1] != '\r' ==> spec_unescape(t, i, delim, acc) is None,
{
}

/// A quote that is not escaped closes the string only when it is the
/// delimiter; the other quote is an ordinary char of the value.
pub proof fn lemma_quotes_in_strings(t: Seq<char>, i: int, delim: char, acc: Seq<char>)
    requires
        0 <= i < t.len(),
        t[i] == '"' || t[i] == '\'',
    ensures
        t[i] == delim ==> spec_unescape(t, i, delim, acc) == Some(acc),
        t[i] != delim ==> spec_unescape(t, i, delim, acc) == spec_unescape(t, i + 1, delim, acc.push(t[i])),
{
}

/// The value of a quoted string token with text `t`.
pub open spec fn spec_normal_string(t: Seq<char>) -> Option<Seq<char>> {
    if byte_len(t) < 2 {
        Some(Seq::empty())
    } else {
        spec_unescape(t, 1, t[0], Seq::empty())
    }
}

fn push_code(result: &mut Vec<char>, v: u32)
    requires
        is_scalar(v as int),
    ensures
        final(result)@ == old(result)@.push(v as char),
{
    let c = char_from_u32(v).unwrap();
    result.push(c);
}

/// A syntax error at `range` whose message is `prefix`, the chars
/// `t[a..b]`, then `suffix`.
fn quoting_error(prefix: &str, t: &Vec<char>, a: usize, b: usize, suffix: &str, range: SourceRange) -> (e:
    LuaParseError)
    requires
        a <= b <= t.len(),
    ensures
        e.kind == LuaParseErrorKind::SyntaxError,
        e.range == range,
        e.message@ == prefix@ + t@.subrange(a as int, b as int) + suffix@,
{
    let mut m = String::new();
    push_str(&mut m, prefix);
    let middle = chars_to_string(t, a, b);
    push_str(&mut m, middle.as_str());
    push_str(&mut m, suffix);
    LuaParseError::from_message(LuaParseErrorKind::SyntaxError, m, range)
}

fn normal_string_value(t: &Vec<char>, range: SourceRange) -> (r: Result<Vec<char>, LuaParseError>)
    ensures
        match spec_normal_string(t@) {
            Some(v) => r matches Ok(x) && x@ == v,
            None => r matches Err(e) && e.kind == LuaParseErrorKind::SyntaxError && e.range == range,
        },
{
    let n = t.len();
    proof {
        crate::text::char_width::lemma_byte_len_at_least_len(t@);
        if n == 1 {
            assert(t@ =~= seq![t@[0]]);
            crate::text::char_width::lemma_byte_len_single(t@[0]);
        }
    }
    if n == 0 || (n == 1 && len_utf8(t[0]) < 2) {
        return Ok(Vec::new());
    }
    let delim = t[0];
    let mut result: Vec<char> = Vec::new();
    let mut i: usize = 1;
    while i < n
        invariant
            n == t@.len(),
            1 <= i <= n,
            delim == t@[0],
            spec_normal_string(t@) == spec_unescape(t@, i as int, delim, result@),
        decreases n - i,
    {
        let c = t[i];
        if c != '\\' {
            if c == delim {
                return Ok(result);
            }
            result.push(c);
            i += 1;
            continue;
        }
        if i + 1 >= n {
            return Ok(result);
        }
        let e = t[i + 1];
        if e == 'a' {
            result.push('\x07');
            i += 2;
        } else if e == 'b' {
            result.push('\x08');
            i += 2;
        } else if e == 'f' {
            result.push('\x0C');
            i += 2;
        } else if e == 'n' {
            result.push('\n');
            i += 2;
        } else if e == 'r' {
            result.push('\r');
            i += 2;
        } else if e == 't' {
            result.push('\t');
            i += 2;
        } else if e == 'v' {
            result.push('\x0B');
            i += 2;
        } else if e == 'x' {
            if n - i > 3 && is_hex(t[i + 2]) && is_hex(t[i + 3]) {
                let v = hex_digit_value(t[i + 2]) * 16 + hex_digit_value(t[i + 3]);
                push_code(&mut result, v);
                i += 4;
            } else {
                let hex_end = if n - i > 3 {
                    i + 4
                } else {
                    n
                };
                return Err(quoting_error("Invalid hex escape sequence '\\x", t, i + 2, hex_end, "'", range));
            }
        } else if e == 'u' {
            if i + 2 < n && t[i + 2] == '{' {
                let mut j = i + 3;
                while j < n && t[j] != '}'
                    invariant
                        i + 3 <= j <= n,
                        n == t@.len(),
                        close_brace(t@, i + 3) == close_brace(t@, j as int),
                    decreases n - j,
                {
                    j += 1;
                }
                let next = if j < n {
                    j + 1
                } else {
                    n
                };
                match parse_hex_u32_at(t, i + 3, j) {
                    Some(cp) => {
                        if char_from_u32(cp).is_some() {
                            push_code(&mut result, cp);
                        } else {
                            return Err(quoting_error("Invalid unicode escape sequence '\\u{{", t, i + 3, j, "}}'", range));
                        }
                    },
                    None => {},
                }
                i = next;
            } else {
                i = if n - i >= 3 {
                    i + 3
                } else {
                    n
                };
            }
        } else if is_digit(e) {
            let mut end = i + 2;
            if end < n && is_digit(t[end]) {
                end += 1;
                if end < n && is_digit(t[end]) {
                    end += 1;
                }
            }
            let d0 = (e as u32) - ('0' as u32);
            let mut v: u32 = d0;
            proof {
                let one = t@.subrange(i + 1, i + 2);
                assert(one.drop_last() =~= Seq::<char>::empty());
                assert(one.last() == e);
                assert(dec_value(one.drop_last()) == 0);
            }
            let mut k = i + 2;
            while k < end
                invariant
                    i + 2 <= k <= end <= i + 4,
                    end <= n == t@.len(),
                    v == dec_value(t@.subrange(i + 1, k as int)),
                    v <= 999,
                    is_ascii_digit(t@[i + 1]),
                    forall|j: int| i + 2 <= j < end ==> is_ascii_digit(#[trigger] t@[j]),
                decreases end - k,
            {
                proof {
                    assert(t@.subrange(i + 1, k + 1).drop_last() =~= t@.subrange(i + 1, k as int));
                    assert(dec_value(t@.subrange(i + 1, k as int)) <= 99) by {
                        let d = t@.subrange(i + 1, k as int);
                        assert(k - (i + 1) <= 2);
                        assert forall|j: int| 0 <= j < d.len() implies is_ascii_digit(#[trigger] d[j]) by {
                            assert(d[j] == t@[i + 1 + j]);
                        }
                        lemma_dec_value_bound(d);
                    }
                }
                v = v * 10 + ((t[k] as u32) - ('0' as u32));
                k += 1;
            }
            if v <= 255 {
                push_code(&mut result, v);
            }
            i = end;
        } else if e == '\\' || e == '\'' || e == '"' || e == '\r' || e == '\n' {
            result.push(e);
            i += 2;
        } else if e == 'z' {
            let mut j = i + 2;
            while j < n && is_whitespace(t[j])
                invariant
                    i + 2 <= j <= n,
                    n == t@.len(),
                    skip_whitespace(t@, i + 2) == skip_whitespace(t@, j as int),
                decreases n - j,
            {
                j += 1;
            }
            i = j;
        } else {
            return Err(quoting_error("Invalid escape sequence '\\", t, i + 1, i + 2, "'", range));
        }
    }
    Ok(result)
}

/// Decimal numbers of at most two digits are below 100.
proof fn lemma_dec_value_bound(d: Seq<char>)
    requires
        d.len() <= 2,
        forall|j: int| 0 <= j < d.len() ==> is_ascii_digit(#[trigger] d[j]),
    ensures
        0 <= dec_value(d) <= 99,
{
    if d.len() > 0 {
        let p = d.drop_last();
        assert(is_ascii_digit(d.last()));
        if p.len() > 0 {
            assert(p.drop_last() =~= Seq::<char>::empty());
            assert(dec_value(p.drop_last()) == 0);
            assert(is_ascii_digit(p.last())) by {
                assert(p.last() == d[0]);
            }
            assert(0 <= dec_value(p) <= 9);
        } else {
            assert(p =~= Seq::<char>::empty());
            assert(dec_value(p) == 0);
        }
    } else {
        assert(dec_value(d) == 0);
    }
}

// ---------------------------------------------------------------------------
// Long strings
// ---------------------------------------------------------------------------

/// Scanning the opening bracket of a long string from position `k` with
/// `eq` equal signs seen: the position of the second `[` and the number of
/// equal signs, or `None` when another char comes first (or nothing).
pub open spec fn long_open(t: Seq<char>, k: int, eq: int) -> Option<(int, int)>
    decreases t.len() - k,
{
    if k < 0 || k >= t.len() {
        None
    } else if t[k] == '=' {
        long_open(t, k + 1, eq + 1)
    } else if t[k] == '[' {
        Some((k, eq))
    } else {
        None
    }
}

/// The first position from `k` on whose prefix takes at least `b` bytes:
/// `Some` when the prefix takes exactly `b` bytes (a char boundary).
pub open spec fn boundary_from(t: Seq<char>, b: int, k: int) -> Option<int>
    decreases t.len() + 1 - k,
{
    if k < 0 || k > t.len() {
        None
    } else if byte_len(t.subrange(0, k)) >= b {
        if byte_len(t.subrange(0, k)) == b {
            Some(k)
        } else {
            None
        }
    } else {
        boundary_from(t, b, k + 1)
    }
}

/// Where the content of a long string token with text `t` starts (a char
/// position, also a byte offset since the opening is ASCII) and how many
/// bytes its closing bracket takes; `None` when the opening is not a long
/// bracket or the text is too short for the closing one.
pub open spec fn long_parts(t: Seq<char>) -> Option<(int, int)> {
    if byte_len(t) < 4 || t.len() == 0 || t[0] != '[' {
        None
    } else {
        match long_open(t, 1, 0) {
            None => None,
            Some((k, eq)) => if byte_len(t) < k + 1 + eq + 2 {
                None
            } else {
                let i = k + 1;
                let start = if i < t.len() && t[i] == '\r' {
                    if i + 1 < t.len() && t[i + 1] == '\n' {
                        i + 2
                    } else if i + 1 < t.len() {
                        i + 1
                    } else {
                        i
                    }
                } else if i < t.len() && t[i] == '\n' {
                    i + 1
                } else {
                    i
                };
                Some((start, eq + 2))
            },
        }
    }
}

/// Whether the long string text `t` can be cut as Lua reads it: the content
/// ends on a char boundary at or after where it starts.
pub open spec fn long_string_cuttable(t: Seq<char>) -> bool {
    match long_parts(t) {
        None => true,
        Some((start, close)) => match boundary_from(t, byte_len(t) - close, 0) {
            Some(e) => start <= e,
            None => false,
        },
    }
}

/// The value of a long string token with text `t`: what lies between its
/// brackets, without a line end right after the opening one.
pub open spec fn spec_long_string(t: Seq<char>) -> Option<Seq<char>> {
    match long_parts(t) {
        None => None,
        Some((start, close)) => Some(t.subrange(start, boundary_from(t, byte_len(t) - close, 0)->0)),
    }
}

proof fn lemma_long_open(t: Seq<char>, k: int, eq: int)
    requires
        1 <= k,
        eq == k - 1,
        forall|j: int| 1 <= j < k ==> t[j] == '=',
    ensures
        long_open(t, k, eq) matches Some((m, e)) ==> k <= m < t.len() && t[m] == '[' && e == m - 1 && forall|j: int|
            1 <= j < m ==> t[j] == '=',
    decreases t.len() - k,
{
    if 0 <= k < t.len() && t[k] == '=' {
        lemma_long_open(t, k + 1, eq + 1);
    }
}

/// The bytes of an ASCII prefix are its chars.
proof fn lemma_ascii_prefix(t: Seq<char>, k: int)
    requires
        0 <= k <= t.len(),
        forall|j: int| 0 <= j < k ==> (#[trigger] t[j] as u32) < 0x80,
    ensures
        byte_len(t.subrange(0, k)) == k,
    decreases k,
{
    if k > 0 {
        lemma_ascii_prefix(t, k - 1);
        lemma_byte_len_take_step(t, k - 1);
        assert(t.take(k - 1) =~= t.subrange(0, k - 1));
        assert(t.take(k) =~= t.subrange(0, k));
    } else {
        assert(t.subrange(0, 0) =~= Seq::<char>::empty());
    }
}

fn long_string_value(t: &Vec<char>, range: SourceRange) -> (r: Result<Vec<char>, LuaParseError>)
    requires
        long_string_cuttable(t@),
    ensures
        match spec_long_string(t@) {
            Some(v) => r matches Ok(x) && x@ == v,
            None => r matches Err(e) && e.kind == LuaParseErrorKind::SyntaxError && e.range == range,
        },
{
    let n = t.len();
    // the byte length, in a type that cannot overflow
    let mut total: u128 = 0;
    let mut k: usize = 0;
    while k < n
        invariant
            k <= n == t@.len(),
            total == byte_len(t@.subrange(0, k as int)),
            total <= 4 * k,
        decreases n - k,
    {
        proof {
            lemma_byte_len_take_step(t@, k as int);
            assert(t@.take(k as int) =~= t@.subrange(0, k as int));
            assert(t@.take(k + 1) =~= t@.subrange(0, k + 1));
        }
        total = total + len_utf8(t[k]) as u128;
        k += 1;
    }
    assert(t@.subrange(0, n as int) =~= t@);
    if total < 4 || n == 0 {
        return Err(LuaParseError::syntax_error_from("String too short", range));
    }
    if t[0] != '[' {
        return Err(quoting_error("Invalid long string start, expected '[', found '", t, 0, 1, "'", range));
    }
    let mut m: usize = 1;
    while m < n && t[m] == '='
        invariant
            1 <= m <= n == t@.len(),
            forall|j: int| 1 <= j < m ==> t@[j] == '=',
            long_open(t@, 1, 0) == long_open(t@, m as int, m - 1),
        decreases n - m,
    {
        m += 1;
    }
    if m >= n || t[m] != '[' {
        return Err(LuaParseError::syntax_error_from("Invalid long string start", range));
    }
    let eq = m - 1;
    if total < (m as u128) + 1 + (eq as u128) + 2 {
        return Err(quoting_error("Invalid long string end, expected '", t, 1, m, "]'", range));
    }
    let i = m + 1;
    let start = if i < n && t[i] == '\r' {
        if i + 1 < n && t[i + 1] == '\n' {
            i + 2
        } else if i + 1 < n {
            i + 1
        } else {
            i
        }
    } else if i < n && t[i] == '\n' {
        i + 1
    } else {
        i
    };
    assert(long_parts(t@) == Some((start as int, eq + 2)));
    // the char position where the closing bracket starts
    let target: u128 = total - (eq as u128) - 2;
    let mut e: usize = 0;
    let mut prefix: u128 = 0;
    assert(t@.subrange(0, 0) =~= Seq::<char>::empty());
    while prefix < target
        invariant
            e <= n == t@.len(),
            prefix == byte_len(t@.subrange(0, e as int)),
            target == byte_len(t@) - (eq + 2),
            boundary_from(t@, target as int, 0) == boundary_from(t@, target as int, e as int),
            target <= byte_len(t@),
            byte_len(t@) <= 4 * n,
        decreases n - e,
    {
        if e >= n {
            assert(t@.subrange(0, e as int) =~= t@);
            assert(false);
            return Err(LuaParseError::syntax_error_from("Invalid long string end", range));
        }
        proof {
            lemma_byte_len_take_step(t@, e as int);
            assert(t@.take(e as int) =~= t@.subrange(0, e as int));
            assert(t@.take(e + 1) =~= t@.subrange(0, e + 1));
        }
        prefix = prefix + len_utf8(t[e]) as u128;
        e += 1;
    }
    if prefix != target {
        assert(false);
        return Err(LuaParseError::syntax_error_from("Invalid long string end", range));
    }
    let mut content: Vec<char> = Vec::new();
    let mut j = start;
    while j < e
        invariant
            start <= j <= e <= n == t@.len(),
            content@ == t@.subrange(start as int, j as int),
        decreases e - j,
    {
        content.push(t[j]);
        j += 1;
        assert(content@ =~= t@.subrange(start as int, j as int));
    }
    Ok(content)
}

/// Whether the text of `token` can be read as a string value: a quoted
/// string always can, a long string when its brackets can be cut off.
pub open spec fn string_token_readable(token: LuaSyntaxToken) -> bool {
    token.spec_kind() == LuaTokenKind::TkString || (token.spec_kind() == LuaTokenKind::TkLongString
        && long_string_cuttable(token.spec_text()))
}

/// Whether the long string text `t` can be cut as Lua reads it (see
/// `long_string_cuttable`).
pub fn long_string_is_cuttable(t: &Vec<char>) -> (b: bool)
    ensures
        b == long_string_cuttable(t@),
{
    let n = t.len();
    let mut total: u128 = 0;
    let mut k: usize = 0;
    while k < n
        invariant
            k <= n == t@.len(),
            total == byte_len(t@.subrange(0, k as int)),
            total <= 4 * k,
        decreases n - k,
    {
        proof {
            lemma_byte_len_take_step(t@, k as int);
            assert(t@.take(k as int) =~= t@.subrange(0, k as int));
            assert(t@.take(k + 1) =~= t@.subrange(0, k + 1));
        }
        total = total + len_utf8(t[k]) as u128;
        k += 1;
    }
    assert(t@.subrange(0, n as int) =~= t@);
    if total < 4 || n == 0 || t[0] != '[' {
        return true;
    }
    let mut m: usize = 1;
    while m < n && t[m] == '='
        invariant
            1 <= m <= n == t@.len(),
            forall|j: int| 1 <= j < m ==> t@[j] == '=',
            long_open(t@, 1, 0) == long_open(t@, m as int, m - 1),
        decreases n - m,
    {
        m += 1;
    }
    if m >= n || t[m] != '[' {
        return true;
    }
    let eq = m - 1;
    if total < (m as u128) + 1 + (eq as u128) + 2 {
        return true;
    }
    let i = m + 1;
    let start = if i < n && t[i] == '\r' {
        if i + 1 < n && t[i + 1] == '\n' {
            i + 2
        } else if i + 1 < n {
            i + 1
        } else {
            i
        }
    } else if i < n && t[i] == '\n' {
        i + 1
    } else {
        i
    };
    assert(long_parts(t@) == Some((start as int, eq + 2)));
    let target: u128 = total - (eq as u128) - 2;
    let mut e: usize = 0;
    let mut prefix: u128 = 0;
    assert(t@.subrange(0, 0) =~= Seq::<char>::empty());
    while prefix < target
        invariant
            e <= n == t@.len(),
            prefix == byte_len(t@.subrange(0, e as int)),
            target == byte_len(t@) - (eq + 2),
            boundary_from(t@, target as int, 0) == boundary_from(t@, target as int, e as int),
            target <= byte_len(t@),
            byte_len(t@) <= 4 * n,
        decreases n - e,
    {
        if e >= n {
            assert(t@.subrange(0, e as int) =~= t@);
            return false;
        }
        proof {
            lemma_byte_len_take_step(t@, e as int);
            assert(t@.take(e as int) =~= t@.subrange(0, e as int));
            assert(t@.take(e + 1) =~= t@.subrange(0, e + 1));
        }
        prefix = prefix + len_utf8(t[e]) as u128;
        e += 1;
    }
    prefix == target && start <= e
}

/// Whether the text of `token` can be read as a string value (see
/// `string_token_readable`).
pub fn string_token_is_readable(token: &LuaSyntaxToken) -> (b: bool)
    ensures
        b == string_token_readable(*token),
{
    let kind = token.kind();
    if kind == LuaTokenKind::TkString {
        true
    } else if kind == LuaTokenKind::TkLongString {
        long_string_is_cuttable(token.text())
    } else {
        false
    }
}

/// The value of a string token, `None` when its text is not a valid string.
pub open spec fn spec_string_token_value(token: LuaSyntaxToken) -> Option<Seq<char>> {
    if token.spec_kind() == LuaTokenKind::TkString {
        spec_normal_string(token.spec_text())
    } else {
        spec_long_string(token.spec_text())
    }
}

/// The value of a string token: a quoted string with its escapes decoded,
/// or a long string without its brackets.
pub fn string_token_value(token: &LuaSyntaxToken) -> (r: Result<String, LuaParseError>)
    requires
        string_token_readable(*token),
    ensures
        match spec_string_token_value(*token) {
            Some(v) => r matches Ok(s) && s@ == v,
            None => r matches Err(e) && e.kind == LuaParseErrorKind::SyntaxError && e.range == token.spec_tree().range_of(token.spec_id()),
        },
{
    let text = token.text();
    let range = token.text_range();
    let value = if token.kind() == LuaTokenKind::TkString {
        normal_string_value(text, range)
    } else {
        long_string_value(text, range)
    };
    match value {
        Ok(v) => {
            let n = v.len();
            Ok(chars_to_string(&v, 0, n))
        },
        Err(e) => Err(e),
    }
}


/// Reading a quoted string from `i` without escapes or quotes before the
/// closing quote at the end gives the chars up to it.
proof fn lemma_unescape_plain(t: Seq<char>, i: int, acc: Seq<char>)
    requires
        1 <= i <= t.len() - 1,
        t[t.len() - 1] == t[0],
        forall|j: int| 1 <= j < t.len() - 1 ==> #[trigger] t[j] != '\\' && t[j] != t[0],
    ensures
        spec_unescape(t, i, t[0], acc) == Some(acc + t.subrange(i, t.len() - 1)),
    decreases t.len() - i,
{
    if i < t.len() - 1 {
        lemma_unescape_plain(t, i + 1, acc.push(t[i]));
        assert(acc.push(t[i]) + t.subrange(i + 1, t.len() - 1) =~= acc + t.subrange(i, t.len() - 1));
    } else {
        assert(acc + t.subrange(i, t.len() - 1) =~= acc);
    }
}

/// A quoted string whose body holds no backslash and no quote of its kind
/// reads back as the text between its quotes.
pub proof fn lemma_plain_quoted_string(t: Seq<char>)
    requires
        t.len() >= 2,
        t[t.len() - 1] == t[0],
        forall|j: int| 1 <= j < t.len() - 1 ==> #[trigger] t[j] != '\\' && t[j] != t[0],
    ensures
        spec_normal_string(t) == Some(t.subrange(1, t.len() - 1)),
{
    crate::text::char_width::lemma_byte_len_at_least_len(t);
    lemma_unescape_plain(t, 1, Seq::empty());
    assert(Seq::<char>::empty() + t.subrange(1, t.len() - 1) =~= t.subrange(1, t.len() - 1));
}

} // verus!
