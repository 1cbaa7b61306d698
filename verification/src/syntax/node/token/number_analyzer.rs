use vstd::prelude::*;

use crate::parser::parser_error::{LuaParseError, LuaParseErrorKind};
use crate::syntax::tree::syntax_tree::LuaSyntaxToken;
use crate::text::strings::{chars_to_string, push_str};

verus! {

/// Why reading an integer from digits failed, as `from_str_radix` says.
#[derive(Debug, Clone, Copy, PartialEq, Eq, Structural)]
pub enum IntReadError {
    Empty,
    InvalidDigit,
    PosOverflow,
    NegOverflow,
}

/// The value of the digit `c` in base `radix` (at most 36), if it is one.
pub open spec fn digit_of(c: char, radix: int) -> Option<int> {
    let d: int = if '0' <= c && c <= '9' {
        c as int - '0' as int
    } else if 'a' <= c && c <= 'z' {
        c as int - 'a' as int + 10
    } else if 'A' <= c && c <= 'Z' {
        c as int - 'A' as int + 10
    } else {
        radix
    };
    if d < radix {
        Some(d)
    } else {
        None
    }
}

/// Reads the digits of `s` from `i` on, left to right, onto `v` (subtracting
/// them when `neg`), and stops at the first char that is no digit or the
/// first value outside `[lo, hi]`.
pub open spec fn scan_digits(s: Seq<char>, i: int, radix: int, v: int, neg: bool, lo: int, hi: int) -> Result<
    int,
    IntReadError,
>
    decreases s.len() - i,
{
    if i < 0 || i >= s.len() {
        Ok(v)
    } else {
        match digit_of(s[i], radix) {
            None => Err(IntReadError::InvalidDigit),
            Some(d) => {
                let nv = if neg {
                    v * radix - d
                } else {
                    v * radix + d
                };
                if nv > hi {
                    Err(IntReadError::PosOverflow)
                } else if nv < lo {
                    Err(IntReadError::NegOverflow)
                } else {
                    scan_digits(s, i + 1, radix, nv, neg, lo, hi)
                }
            },
        }
    }
}

/// What `from_str_radix` gives for `s` in base `radix` with values in
/// `[lo, hi]`: an optional sign (`-` only when `signed`), then digits.
pub open spec fn read_int(s: Seq<char>, radix: int, signed: bool, lo: int, hi: int) -> Result<int, IntReadError> {
    if s.len() == 0 {
        Err(IntReadError::Empty)
    } else if s[0] == '+' || s[0] == '-' {
        if s.len() == 1 {
            Err(IntReadError::InvalidDigit)
        } else if s[0] == '+' {
            scan_digits(s, 1, radix, 0, false, lo, hi)
        } else if signed {
            scan_digits(s, 1, radix, 0, true, lo, hi)
        } else {
            Err(IntReadError::InvalidDigit)
        }
    } else {
        scan_digits(s, 0, radix, 0, false, lo, hi)
    }
}

pub open spec fn read_i64(s: Seq<char>, radix: int) -> Result<int, IntReadError> {
    read_int(s, radix, true, i64::MIN as int, i64::MAX as int)
}

pub open spec fn read_u64(s: Seq<char>, radix: int) -> Result<int, IntReadError> {
    read_int(s, radix, false, 0, u64::MAX as int)
}

fn digit_value(c: char, radix: u32) -> (r: Option<u32>)
    requires
        2 <= radix <= 36,
    ensures
        match digit_of(c, radix as int) {
            Some(d) => r == Some(d as u32),
            None => r is None,
        },
{
    let d: u32 = if '0' <= c && c <= '9' {
        (c as u32) - ('0' as u32)
    } else if 'a' <= c && c <= 'z' {
        (c as u32) - ('a' as u32) + 10
    } else if 'A' <= c && c <= 'Z' {
        (c as u32) - ('A' as u32) + 10
    } else {
        radix
    };
    if d < radix {
        Some(d)
    } else {
        None
    }
}

/// Reads `s[from..to]` as `from_str_radix` does, with values in `[lo, hi]`.
fn read_int_exec(s: &Vec<char>, from: usize, to: usize, radix: u32, signed: bool, lo: i128, hi: i128) -> (r: Result<
    i128,
    IntReadError,
>)
    requires
        from <= to <= s.len(),
        2 <= radix <= 16,
        -0x1_0000_0000_0000_0000 <= lo <= 0 <= hi <= 0x1_0000_0000_0000_0000,
    ensures
        match read_int(s@.subrange(from as int, to as int), radix as int, signed, lo as int, hi as int) {
            Ok(v) => r == Ok::<i128, IntReadError>(v as i128) && lo <= v <= hi,
            Err(e) => r == Err::<i128, IntReadError>(e),
        },
        r matches Ok(v) ==> lo <= v <= hi,
{
    let ghost t = s@.subrange(from as int, to as int);
    if from == to {
        return Err(IntReadError::Empty);
    }
    let first = s[from];
    let mut i = from;
    let mut neg = false;
    if first == '+' || first == '-' {
        if to - from == 1 {
            return Err(IntReadError::InvalidDigit);
        }
        if first == '-' {
            if !signed {
                return Err(IntReadError::InvalidDigit);
            }
            neg = true;
        }
        i = from + 1;
    }
    let ghost i0 = i - from;
    assert(read_int(t, radix as int, signed, lo as int, hi as int) == scan_digits(
        t,
        i0,
        radix as int,
        0,
        neg,
        lo as int,
        hi as int,
    ));
    let mut v: i128 = 0;
    while i < to
        invariant
            from <= i <= to <= s.len(),
            t == s@.subrange(from as int, to as int),
            2 <= radix <= 16,
            -0x1_0000_0000_0000_0000 <= lo <= 0 <= hi <= 0x1_0000_0000_0000_0000,
            lo <= v <= hi,
            read_int(t, radix as int, signed, lo as int, hi as int) == scan_digits(
                t,
                i0,
                radix as int,
                0,
                neg,
                lo as int,
                hi as int,
            ),
            scan_digits(t, i0, radix as int, 0, neg, lo as int, hi as int) == scan_digits(
                t,
                i - from,
                radix as int,
                v as int,
                neg,
                lo as int,
                hi as int,
            ),
        decreases to - i,
    {
        let c = s[i];
        assert(t[i - from] == c);
        let ghost sv = scan_digits(t, i - from, radix as int, v as int, neg, lo as int, hi as int);
        match digit_value(c, radix) {
            None => {
                assert(sv == Err::<int, IntReadError>(IntReadError::InvalidDigit));
                return Err(IntReadError::InvalidDigit);
            },
            Some(d) => {
                assert(-0x10_0000_0000_0000_0000 <= v * (radix as i128) <= 0x10_0000_0000_0000_0000) by (nonlinear_arith)
                    requires
                        -0x1_0000_0000_0000_0000 <= v <= 0x1_0000_0000_0000_0000,
                        2 <= radix <= 16,
                ;
                let nv: i128 = if neg {
                    v * (radix as i128) - (d as i128)
                } else {
                    v * (radix as i128) + (d as i128)
                };
                if nv > hi {
                    assert(sv == Err::<int, IntReadError>(IntReadError::PosOverflow));
                    return Err(IntReadError::PosOverflow);
                }
                if nv < lo {
                    assert(sv == Err::<int, IntReadError>(IntReadError::NegOverflow));
                    return Err(IntReadError::NegOverflow);
                }
                assert(sv == scan_digits(t, i - from + 1, radix as int, nv as int, neg, lo as int, hi as int));
                v = nv;
            },
        }
        i += 1;
    }
    Ok(v)
}

/// An integer literal read by [`int_token_value`]: an `i64`, a LuaJIT
/// unsigned `u64`, or digits beyond 64 bits (in base `radix`) whose value
/// only a float can hold.
#[derive(Debug, Clone, PartialEq, Eq)]
pub enum IntLiteral {
    Int(i64),
    Uint(u64),
    Beyond { radix: u32, digits: Vec<char> },
}

/// The base of the literal `s`: a `0x`/`0X` prefix gives 16, `0b`/`0B` 2,
/// anything else 10.
pub open spec fn literal_radix(s: Seq<char>) -> int {
    if s.len() >= 2 && s[0] == '0' && (s[1] == 'x' || s[1] == 'X') {
        16
    } else if s.len() >= 2 && s[0] == '0' && (s[1] == 'b' || s[1] == 'B') {
        2
    } else {
        10
    }
}

pub open spec fn is_suffix_char(c: char) -> bool {
    c == 'u' || c == 'U' || c == 'l' || c == 'L'
}

/// The number of chars of the LuaJIT suffix (`u`, `U`, `l`, `L`) that end
/// `s[..n]`.
pub open spec fn suffix_len(s: Seq<char>, n: int) -> int
    decreases n,
{
    if n <= 0 || n > s.len() || !is_suffix_char(s[n - 1]) {
        0
    } else {
        1 + suffix_len(s, n - 1)
    }
}

/// Whether the suffix of `s` holds a `u` or `U`: an unsigned LuaJIT literal.
pub open spec fn suffix_unsigned(s: Seq<char>) -> bool {
    exists|k: int| s.len() - suffix_len(s, s.len() as int) <= k < s.len() && (s[k] == 'u' || s[k] == 'U')
}

/// The digits of the literal `s`: without its suffix, and without its
/// prefix in base 16 or 2.
pub open spec fn literal_digits(s: Seq<char>) -> Seq<char> {
    let end = s.len() - suffix_len(s, s.len() as int);
    if literal_radix(s) == 10 {
        s.subrange(0, end)
    } else {
        s.subrange(2, end)
    }
}

/// The message of a read error, as `ParseIntError` writes it.
pub open spec fn read_error_message(e: IntReadError) -> Seq<char> {
    match e {
        IntReadError::Empty => "cannot parse integer from empty string"@,
        IntReadError::InvalidDigit => "invalid digit found in string"@,
        IntReadError::PosOverflow => "number too large to fit in target type"@,
        IntReadError::NegOverflow => "number too small to fit in target type"@,
    }
}

/// `v` as the `i64` with the same 64 bits.
pub open spec fn wrap_i64(v: int) -> int {
    if v > i64::MAX {
        v - 0x1_0000_0000_0000_0000
    } else {
        v
    }
}

/// What the integer literal `s` stands for: `Ok(Some(lit))`, or `Ok(None)`
/// with the digits beyond 64 bits, or `Err(message)`.
///
/// Its `i64` value where it fits.  Past that: a LuaJIT unsigned literal is
/// its `u64` value (and malformed beyond); a hexadecimal or binary literal
/// is its 64 bits as an `i64`, or digits for a float beyond 64 bits; a
/// decimal literal is digits for a float.  Digits that do not read give the
/// read error.
pub open spec fn int_literal_meaning(s: Seq<char>) -> Result<Option<(bool, int)>, Seq<char>> {
    let radix = literal_radix(s);
    let digits = literal_digits(s);
    match read_i64(digits, radix) {
        Ok(v) => Ok(Some((false, v))),
        Err(IntReadError::PosOverflow) | Err(IntReadError::NegOverflow) => {
            if suffix_unsigned(s) {
                match read_u64(digits, radix) {
                    Ok(u) => Ok(Some((true, u))),
                    Err(_) => Err("malformed number"@),
                }
            } else if radix != 10 {
                match read_u64(digits, radix) {
                    Ok(u) => Ok(Some((false, wrap_i64(u)))),
                    Err(_) => Ok(None),
                }
            } else {
                Ok(None)
            }
        },
        Err(e) => Err("Failed to parse integer literal "@ + s + ": "@ + read_error_message(e)),
    }
}

fn read_error_text(e: IntReadError) -> (t: &'static str)
    ensures
        t@ == read_error_message(e),
{
    match e {
        IntReadError::Empty => "cannot parse integer from empty string",
        IntReadError::InvalidDigit => "invalid digit found in string",
        IntReadError::PosOverflow => "number too large to fit in target type",
        IntReadError::NegOverflow => "number too small to fit in target type",
    }
}

/// Reads the integer literal `s`; an error is a message.
pub fn int_literal_value(s: &Vec<char>) -> (r: Result<IntLiteral, String>)
    ensures
        match int_literal_meaning(s@) {
            Ok(Some((true, u))) => r matches Ok(IntLiteral::Uint(x)) && x == u,
            Ok(Some((false, v))) => r matches Ok(IntLiteral::Int(x)) && x == v,
            Ok(None) => r matches Ok(IntLiteral::Beyond { radix, digits }) && radix == literal_radix(s@)
                && digits@ == literal_digits(s@),
            Err(m) => r matches Err(x) && x@ == m,
        },
{
    let n = s.len();
    let radix: u32 = if n >= 2 && s[0] == '0' && (s[1] == 'x' || s[1] == 'X') {
        16
    } else if n >= 2 && s[0] == '0' && (s[1] == 'b' || s[1] == 'B') {
        2
    } else {
        10
    };
    let mut end = n;
    let mut unsigned = false;
    while end > 0 && (s[end - 1] == 'u' || s[end - 1] == 'U' || s[end - 1] == 'l' || s[end - 1] == 'L')
        invariant
            end <= n == s.len(),
            suffix_len(s@, n as int) == (n - end) + suffix_len(s@, end as int),
            unsigned <==> exists|k: int| end <= k < n && (s@[k] == 'u' || s@[k] == 'U'),
            radix != 10 ==> end >= 2 && n >= 2 && !is_suffix_char(s@[1]),
            radix == literal_radix(s@),
        decreases end,
    {
        if s[end - 1] == 'u' || s[end - 1] == 'U' {
            unsigned = true;
        }
        end -= 1;
    }
    assert(suffix_len(s@, end as int) == 0);
    assert(end == n - suffix_len(s@, n as int));
    let from: usize = if radix == 10 {
        0
    } else {
        2
    };
    assert(s@.subrange(from as int, end as int) == literal_digits(s@));
    assert(unsigned == suffix_unsigned(s@));
    assert(radix == literal_radix(s@));
    match read_int_exec(s, from, end, radix, true, i64::MIN as i128, i64::MAX as i128) {
        Ok(v) => Ok(IntLiteral::Int(v as i64)),
        Err(IntReadError::PosOverflow) | Err(IntReadError::NegOverflow) => {
            if unsigned {
                match read_int_exec(s, from, end, radix, false, 0, u64::MAX as i128) {
                    Ok(u) => Ok(IntLiteral::Uint(u as u64)),
                    Err(_) => {
                        let mut m = String::new();
                        push_str(&mut m, "malformed number");
                        Err(m)
                    },
                }
            } else if radix != 10 {
                match read_int_exec(s, from, end, radix, false, 0, u64::MAX as i128) {
                    Ok(u) => {
                        let w: i128 = if u > i64::MAX as i128 {
                            u - 0x1_0000_0000_0000_0000
                        } else {
                            u
                        };
                        Ok(IntLiteral::Int(w as i64))
                    },
                    Err(_) => Ok(IntLiteral::Beyond { radix, digits: copy_range(s, from, end) }),
                }
            } else {
                Ok(IntLiteral::Beyond { radix, digits: copy_range(s, from, end) })
            }
        },
        Err(e) => {
            let mut m = String::new();
            push_str(&mut m, "Failed to parse integer literal ");
            let whole = chars_to_string(s, 0, n);
            push_str(&mut m, whole.as_str());
            push_str(&mut m, ": ");
            push_str(&mut m, read_error_text(e));
            assert(s@.subrange(0, n as int) == s@);
            Err(m)
        },
    }
}

fn copy_range(s: &Vec<char>, from: usize, to: usize) -> (r: Vec<char>)
    requires
        from <= to <= s.len(),
    ensures
        r@ == s@.subrange(from as int, to as int),
{
    let mut r: Vec<char> = Vec::new();
    let mut i = from;
    while i < to
        invariant
            from <= i <= to <= s.len(),
            r@ == s@.subrange(from as int, i as int),
        decreases to - i,
    {
        r.push(s[i]);
        i += 1;
        assert(r@ == s@.subrange(from as int, i as int));
    }
    r
}

/// The value of an integer literal token, as [`int_literal_value`] reads its
/// text; a malformed literal is a syntax error at the token.
pub fn int_token_value(token: &LuaSyntaxToken) -> (r: Result<IntLiteral, LuaParseError>)
    ensures
        match int_literal_meaning(token.spec_text()) {
            Ok(Some((true, u))) => r matches Ok(IntLiteral::Uint(x)) && x == u,
            Ok(Some((false, v))) => r matches Ok(IntLiteral::Int(x)) && x == v,
            Ok(None) => r matches Ok(IntLiteral::Beyond { radix, digits }) && radix == literal_radix(
                token.spec_text(),
            ) && digits@ == literal_digits(token.spec_text()),
            Err(m) => r matches Err(e) && e.kind == LuaParseErrorKind::SyntaxError && e.message@ == m
                && e.range == token.spec_tree().range_of(token.spec_id()),
        },
{
    match int_literal_value(token.text()) {
        Ok(v) => Ok(v),
        Err(m) => Err(LuaParseError::from_message(LuaParseErrorKind::SyntaxError, m, token.text_range())),
    }
}

} // verus!
