use vstd::prelude::*;

use crate::text::strings::decimal;
use crate::text::strings::push_decimal;
use crate::text::strings::push_str;
use crate::text::strings::str_to_chars;
use crate::text::strings::vec_eq_str;

verus! {

/// A Lua version number `major.minor.patch`.
#[derive(Debug, Clone, PartialEq, Eq, Hash, Structural)]
pub struct LuaVersionNumber {
    pub major: u32,
    pub minor: u32,
    pub patch: u32,
}

/// The version that stands for LuaJIT.
pub open spec fn spec_lua_jit() -> LuaVersionNumber {
    LuaVersionNumber { major: 2, minor: 0, patch: 0 }
}

/// The lexicographic order on `(major, minor, patch)`.
pub open spec fn version_le(a: LuaVersionNumber, b: LuaVersionNumber) -> bool {
    a.major < b.major || (a.major == b.major && (a.minor < b.minor || (a.minor == b.minor
        && a.patch <= b.patch)))
}

/// The index just past the end of the field that starts at `i` (the next `.` or the end).
pub open spec fn field_end(s: Seq<char>, i: int) -> int
    decreases s.len() - i,
{
    if i < 0 || i >= s.len() || s[i] == '.' {
        i
    } else {
        field_end(s, i + 1)
    }
}

/// Where the `k`-th `.`-separated field of `s` starts, if `s` has that many fields.
pub open spec fn field_start(s: Seq<char>, k: nat) -> Option<int>
    decreases k,
{
    if k == 0 {
        Some(0)
    } else {
        match field_start(s, (k - 1) as nat) {
            Some(i) => if field_end(s, i) < s.len() {
                Some(field_end(s, i) + 1)
            } else {
                None
            },
            None => None,
        }
    }
}

pub open spec fn is_digit(c: char) -> bool {
    '0' <= c <= '9'
}

pub open spec fn digits_value(s: Seq<char>) -> int
    decreases s.len(),
{
    if s.len() == 0 {
        0
    } else {
        digits_value(s.drop_last()) * 10 + (s.last() as int - '0' as int)
    }
}

/// The value of `body` read as decimal digits, if it is a non-empty run of
/// digits whose value fits in a `u32`.
pub open spec fn spec_parse_digits(body: Seq<char>) -> Option<u32> {
    if body.len() == 0 || !(forall|k: int| 0 <= k < body.len() ==> is_digit(body[k])) {
        None
    } else if digits_value(body) > u32::MAX {
        None
    } else {
        Some(digits_value(body) as u32)
    }
}

/// The value of `s` read as a `u32` the way `str::parse::<u32>` reads it:
/// an optional `+` followed by at least one decimal digit.
pub open spec fn spec_parse_u32(s: Seq<char>) -> Option<u32> {
    if s.len() > 0 && s[0] == '+' {
        spec_parse_digits(s.drop_first())
    } else {
        spec_parse_digits(s)
    }
}

/// The value of the `k`-th field of `s`, or zero when it is missing or not a `u32`.
pub open spec fn field_value(s: Seq<char>, k: nat) -> u32 {
    match field_start(s, k) {
        Some(i) => match spec_parse_u32(s.subrange(i, field_end(s, i))) {
            Some(v) => v,
            None => 0,
        },
        None => 0,
    }
}

pub open spec fn spec_version_from_str(s: Seq<char>) -> LuaVersionNumber {
    if s == "JIT"@ {
        spec_lua_jit()
    } else {
        LuaVersionNumber {
            major: field_value(s, 0),
            minor: field_value(s, 1),
            patch: field_value(s, 2),
        }
    }
}

proof fn lemma_field_end(s: Seq<char>, i: int)
    requires
        0 <= i <= s.len(),
    ensures
        i <= field_end(s, i) <= s.len(),
        forall|k: int| i <= k < field_end(s, i) ==> s[k] != '.',
        field_end(s, i) == s.len() || s[field_end(s, i)] == '.',
    decreases s.len() - i,
{
    if i < s.len() && s[i] != '.' {
        lemma_field_end(s, i + 1);
    }
}

proof fn lemma_digits_value_nonneg_mono(s: Seq<char>, j: int)
    requires
        0 <= j <= s.len(),
        forall|k: int| 0 <= k < s.len() ==> is_digit(s[k]),
    ensures
        0 <= digits_value(s.take(j)) <= digits_value(s),
    decreases s.len(),
{
    if s.len() > 0 {
        if j == s.len() {
            assert(s.take(j) =~= s);
            lemma_digits_value_nonneg_mono(s.drop_last(), j - 1);
            assert(s.drop_last().take(j - 1) =~= s.drop_last().take(j - 1));
        } else {
            lemma_digits_value_nonneg_mono(s.drop_last(), j);
            assert(s.drop_last().take(j) =~= s.take(j));
        }
        lemma_digits_value_nonneg_mono(s.drop_last(), s.len() - 1);
        assert(s.drop_last().take(s.len() - 1) =~= s.drop_last());
    } else {
        assert(s.take(j) =~= s);
    }
}

/// Reads `v[from..to]` as decimal digits.
fn parse_digits(v: &Vec<char>, from: usize, to: usize) -> (r: Option<u32>)
    requires
        from <= to <= v.len(),
    ensures
        r == spec_parse_digits(v@.subrange(from as int, to as int)),
{
    let ghost body = v@.subrange(from as int, to as int);
    if from == to {
        return None;
    }
    let mut i = from;
    let mut value: u32 = 0;
    while i < to
        invariant
            from <= i <= to <= v.len(),
            body == v@.subrange(from as int, to as int),
            body.len() > 0,
            forall|k: int| from <= k < i ==> is_digit(v@[k]),
            value == digits_value(v@.subrange(from as int, i as int)),
        decreases to - i,
    {
        let c = v[i];
        if !('0' <= c && c <= '9') {
            assert(!is_digit(body[i - from]));
            return None;
        }
        let d = (c as u32) - ('0' as u32);
        let ghost t = v@.subrange(from as int, i + 1);
        assert(t.drop_last() =~= v@.subrange(from as int, i as int));
        assert(digits_value(t) == value * 10 + d);
        if value > 429496729 || (value == 429496729 && d > 5) {
            proof {
                assert(digits_value(t) > u32::MAX);
                if forall|k: int| 0 <= k < body.len() ==> is_digit(body[k]) {
                    lemma_digits_value_nonneg_mono(body, (i + 1 - from) as int);
                    assert(body.take((i + 1 - from) as int) =~= t);
                }
            }
            return None;
        }
        value = value * 10 + d;
        i += 1;
    }
    assert(v@.subrange(from as int, i as int) =~= body);
    assert forall|k: int| 0 <= k < body.len() implies is_digit(body[k]) by {
        assert(body[k] == v@[from + k]);
    }
    Some(value)
}

/// Reads `v[from..to]` as a `u32` the way `str::parse::<u32>` does.
fn parse_u32(v: &Vec<char>, from: usize, to: usize) -> (r: Option<u32>)
    requires
        from <= to <= v.len(),
    ensures
        r == spec_parse_u32(v@.subrange(from as int, to as int)),
{
    if from < to && v[from] == '+' {
        assert(v@.subrange(from as int, to as int).drop_first() =~= v@.subrange(from + 1, to as int));
        parse_digits(v, from + 1, to)
    } else {
        parse_digits(v, from, to)
    }
}

pub open spec fn opt_int(o: Option<usize>) -> Option<int> {
    match o {
        Some(i) => Some(i as int),
        None => None,
    }
}

impl LuaVersionNumber {
    pub fn new(major: u32, minor: u32, patch: u32) -> (r: Self)
        ensures
            r == (LuaVersionNumber { major, minor, patch }),
    {
        Self { major, minor, patch }
    }

    /// The version that stands for LuaJIT.
    pub fn lua_jit() -> (r: Self)
        ensures
            r == spec_lua_jit(),
    {
        Self { major: 2, minor: 0, patch: 0 }
    }

    /// Reads a version such as `5.4`, `5.4.6` or `JIT`; missing or malformed
    /// fields count as zero, so every string gives a version.
    pub fn from_str(s: &str) -> (r: Option<Self>)
        ensures
            r == Some(spec_version_from_str(s@)),
    {
        let v = str_to_chars(s);
        if vec_eq_str(&v, "JIT") {
            return Some(Self::lua_jit());
        }
        let (major, next) = read_field(&v, Some(0), Ghost(0));
        let (minor, next) = read_field(&v, next, Ghost(1));
        let (patch, _) = read_field(&v, next, Ghost(2));
        Some(Self { major, minor, patch })
    }

    /// `self <= other` in the order of versions.
    pub fn le(&self, other: &Self) -> (r: bool)
        ensures
            r == version_le(*self, *other),
    {
        self.major < other.major || (self.major == other.major && (self.minor < other.minor || (
        self.minor == other.minor && self.patch <= other.patch)))
    }

    /// The text shown for the version: `Lua JIT` or `Lua <major>.<minor>`.
    pub fn to_display_string(&self) -> (r: String)
        ensures
            r@ == if *self == spec_lua_jit() {
                "Lua JIT"@
            } else {
                "Lua "@ + decimal(self.major as nat) + "."@ + decimal(self.minor as nat)
            },
    {
        let mut s = String::new();
        if self.major == 2 && self.minor == 0 && self.patch == 0 {
            push_str(&mut s, "Lua JIT");
        } else {
            push_str(&mut s, "Lua ");
            push_decimal(&mut s, self.major as u64);
            push_str(&mut s, ".");
            push_decimal(&mut s, self.minor as u64);
        }
        s
    }
}

/// Reads the `k`-th field, which starts at `start` (if `s` has that field);
/// returns its value and where the following field starts.
fn read_field(v: &Vec<char>, start: Option<usize>, Ghost(k): Ghost<nat>) -> (r: (u32, Option<usize>))
    requires
        opt_int(start) == field_start(v@, k),
        start matches Some(i) ==> i <= v.len(),
    ensures
        r.0 == field_value(v@, k),
        opt_int(r.1) == field_start(v@, k + 1),
        r.1 matches Some(j) ==> j <= v.len(),
{
    match start {
        None => (0, None),
        Some(i) => {
            proof {
                lemma_field_end(v@, i as int);
            }
            let mut e = i;
            while e < v.len() && v[e] != '.'
                invariant
                    i <= e <= v.len(),
                    field_end(v@, e as int) == field_end(v@, i as int),
                decreases v.len() - e,
            {
                e += 1;
            }
            let value = match parse_u32(v, i, e) {
                Some(x) => x,
                None => 0,
            };
            if e < v.len() {
                (value, Some(e + 1))
            } else {
                (value, None)
            }
        },
    }
}

/// A condition on the Lua version.
#[derive(Debug, Clone, PartialEq, Eq, Hash, Structural)]
pub enum LuaVersionCondition {
    Eq(LuaVersionNumber),
    Gte(LuaVersionNumber),
    Lte(LuaVersionNumber),
}

pub open spec fn spec_condition_holds(c: LuaVersionCondition, version: LuaVersionNumber) -> bool {
    match c {
        LuaVersionCondition::Eq(v) => version == v,
        LuaVersionCondition::Gte(v) => version_le(v, version),
        LuaVersionCondition::Lte(v) => version_le(version, v),
    }
}

impl LuaVersionCondition {
    pub fn check(&self, version: &LuaVersionNumber) -> (r: bool)
        ensures
            r == spec_condition_holds(*self, *version),
    {
        match self {
            LuaVersionCondition::Eq(v) => version.major == v.major && version.minor == v.minor
                && version.patch == v.patch,
            LuaVersionCondition::Gte(v) => v.le(version),
            LuaVersionCondition::Lte(v) => version.le(v),
        }
    }

    /// The text shown for the condition: the version, prefixed by `>= ` or `<= `.
    pub fn to_display_string(&self) -> (r: String)
        ensures
            ({
                let v = match *self {
                    LuaVersionCondition::Eq(v) => v,
                    LuaVersionCondition::Gte(v) => v,
                    LuaVersionCondition::Lte(v) => v,
                };
                let shown = if v == spec_lua_jit() {
                    "Lua JIT"@
                } else {
                    "Lua "@ + decimal(v.major as nat) + "."@ + decimal(v.minor as nat)
                };
                r@ == match *self {
                    LuaVersionCondition::Eq(_) => shown,
                    LuaVersionCondition::Gte(_) => ">= "@ + shown,
                    LuaVersionCondition::Lte(_) => "<= "@ + shown,
                }
            }),
    {
        let mut s = String::new();
        let v = match self {
            LuaVersionCondition::Eq(v) => v,
            LuaVersionCondition::Gte(v) => {
                push_str(&mut s, ">= ");
                v
            },
            LuaVersionCondition::Lte(v) => {
                push_str(&mut s, "<= ");
                v
            },
        };
        let shown = v.to_display_string();
        push_str(&mut s, shown.as_str());
        s
    }
}

/// The order of versions is total, and a version satisfies `Eq`, `Gte` and
/// `Lte` of itself.
pub proof fn lemma_version_order(a: LuaVersionNumber, b: LuaVersionNumber)
    ensures
        version_le(a, b) || version_le(b, a),
        version_le(a, b) && version_le(b, a) ==> a == b,
        spec_condition_holds(LuaVersionCondition::Eq(a), a),
        spec_condition_holds(LuaVersionCondition::Gte(a), a),
        spec_condition_holds(LuaVersionCondition::Lte(a), a),
{
}

} // verus!
