use vstd::prelude::*;

use crate::text::strings::{chars_to_string, str_to_chars, vec_eq_str};

verus! {

/// `s` with every occurrence of `pat` replaced by `with`, from position `i`
/// on: occurrences are taken left to right without overlap; an empty `pat`
/// occurs before every char and at the end.
pub open spec fn replace_from(s: Seq<char>, pat: Seq<char>, with: Seq<char>, i: int) -> Seq<char>
    decreases s.len() - i,
{
    if i < 0 || i > s.len() {
        Seq::empty()
    } else if pat.len() == 0 {
        if i == s.len() {
            with
        } else {
            with + seq![s[i]] + replace_from(s, pat, with, i + 1)
        }
    } else if i == s.len() {
        Seq::empty()
    } else if i + pat.len() <= s.len() && s.subrange(i, i + pat.len()) == pat {
        with + replace_from(s, pat, with, i + pat.len())
    } else {
        seq![s[i]] + replace_from(s, pat, with, i + 1)
    }
}

/// `s` with every occurrence of `pat` replaced by `with`.
pub open spec fn spec_replace(s: Seq<char>, pat: Seq<char>, with: Seq<char>) -> Seq<char> {
    replace_from(s, pat, with, 0)
}

/// `s` with each `\` and `/` turned into `.`.
pub open spec fn spec_dotted(s: Seq<char>) -> Seq<char> {
    s.map_values(|c: char| if c == '\\' || c == '/' { '.' } else { c })
}

/// Whether the chars of `v` from `i` on start with `pat`.
fn starts_at(v: &Vec<char>, i: usize, pat: &Vec<char>) -> (b: bool)
    requires
        i <= v.len(),
    ensures
        b == (i + pat@.len() <= v@.len() && v@.subrange(i as int, i + pat@.len()) == pat@),
{
    if pat.len() > v.len() - i {
        return false;
    }
    let mut k: usize = 0;
    while k < pat.len()
        invariant
            k <= pat@.len(),
            i + pat@.len() <= v@.len(),
            v@.len() == v.len(),
            pat@.len() == pat.len(),
            forall|j: int| 0 <= j < k ==> v@[i + j] == pat@[j],
        decreases pat@.len() - k,
    {
        if v[i + k] != pat[k] {
            assert(v@.subrange(i as int, i + pat@.len())[k as int] != pat@[k as int]);
            return false;
        }
        k += 1;
    }
    assert(v@.subrange(i as int, i + pat@.len()) =~= pat@);
    true
}

/// `s` with every occurrence of `pat` replaced by `with`.
pub fn replace(s: &str, pat: &str, with: &str) -> (r: String)
    ensures
        r@ == spec_replace(s@, pat@, with@),
{
    let v = str_to_chars(s);
    let p = str_to_chars(pat);
    let w = str_to_chars(with);
    let n = v.len();
    let mut out: Vec<char> = Vec::new();
    let mut i: usize = 0;
    while i < n
        invariant
            i <= n == v@.len(),
            v@ == s@,
            p@ == pat@,
            w@ == with@,
            out@ + replace_from(v@, p@, w@, i as int) == replace_from(v@, p@, w@, 0),
        decreases n - i,
    {
        let ghost before = out@;
        if p.len() == 0 {
            append_chars(&mut out, &w);
            out.push(v[i]);
            proof {
                assert(out@ + replace_from(v@, p@, w@, i + 1) =~= before + replace_from(v@, p@, w@, i as int));
            }
            i += 1;
        } else if starts_at(&v, i, &p) {
            append_chars(&mut out, &w);
            proof {
                assert(out@ + replace_from(v@, p@, w@, i + p@.len()) =~= before + replace_from(v@, p@, w@, i as int));
            }
            i += p.len();
        } else {
            out.push(v[i]);
            proof {
                assert(out@ + replace_from(v@, p@, w@, i + 1) =~= before + replace_from(v@, p@, w@, i as int));
            }
            i += 1;
        }
    }
    if p.len() == 0 {
        let ghost before = out@;
        append_chars(&mut out, &w);
        assert(out@ =~= before + replace_from(v@, p@, w@, n as int));
    } else {
        assert(out@ =~= out@ + replace_from(v@, p@, w@, n as int));
    }
    let len = out.len();
    chars_to_string(&out, 0, len)
}

fn append_chars(out: &mut Vec<char>, w: &Vec<char>)
    ensures
        final(out)@ == old(out)@ + w@,
{
    let mut k: usize = 0;
    let ghost start = out@;
    while k < w.len()
        invariant
            k <= w@.len(),
            out@ == start + w@.subrange(0, k as int),
        decreases w@.len() - k,
    {
        out.push(w[k]);
        k += 1;
        assert(out@ =~= start + w@.subrange(0, k as int));
    }
    assert(w@.subrange(0, w@.len() as int) =~= w@);
}

/// A module path with its `\` and `/` separators turned into `.`.
pub fn dotted_module_path(path: &str) -> (r: String)
    ensures
        r@ == spec_dotted(path@),
{
    let v = str_to_chars(path);
    let mut out: Vec<char> = Vec::new();
    let mut i: usize = 0;
    while i < v.len()
        invariant
            i <= v@.len(),
            v@ == path@,
            out@ == spec_dotted(v@.subrange(0, i as int)),
        decreases v@.len() - i,
    {
        let c = v[i];
        out.push(if c == '\\' || c == '/' { '.' } else { c });
        i += 1;
        assert(out@ =~= spec_dotted(v@.subrange(0, i as int)));
    }
    assert(v@.subrange(0, v@.len() as int) =~= v@);
    let len = out.len();
    chars_to_string(&out, 0, len)
}

/// A module that was renamed: its require path before and after, dotted.
#[derive(Debug, Clone)]
pub struct ModuleRename {
    pub old_module_path: String,
    pub new_module_path: String,
}

/// Whether `rename` is what a require of the dotted path `path` means: the
/// same path, or (not strict) a path that ends with it.
pub open spec fn rename_matches(old_path: Seq<char>, path: Seq<char>, strict: bool) -> bool {
    if strict {
        old_path == path
    } else {
        path.len() <= old_path.len() && old_path.subrange(old_path.len() - path.len(), old_path.len() as int)
            == path
    }
}

/// The position of the first rename in `renames` that a require of the
/// dotted path `path` means, from position `i` on.
pub open spec fn first_match(renames: Seq<ModuleRename>, path: Seq<char>, strict: bool, i: int) -> Option<int>
    decreases renames.len() - i,
{
    if i < 0 || i >= renames.len() {
        None
    } else if rename_matches(renames[i].old_module_path@, path, strict) {
        Some(i)
    } else {
        first_match(renames, path, strict, i + 1)
    }
}

/// A dotted module path written with `separator` in place of `.` (as it is
/// when the separator is `.` or empty), quoted.
pub open spec fn quoted_require(new_path: Seq<char>, separator: Seq<char>) -> Seq<char> {
    let full = if separator == "."@ || separator == ""@ {
        new_path
    } else {
        spec_replace(new_path, "."@, separator)
    };
    seq!['\''] + full + seq!['\'']
}

/// The new argument of `require(name)` after `renames`: `name` with its
/// `separator` read as `.`, matched against the old paths; the first match
/// gives its new path written with `separator`, in single quotes.
pub open spec fn spec_require_path_edit(name: Seq<char>, separator: Seq<char>, strict: bool, renames: Seq<ModuleRename>) -> Option<Seq<char>> {
    match first_match(renames, spec_replace(name, separator, "."@), strict, 0) {
        Some(i) => Some(quoted_require(renames[i].new_module_path@, separator)),
        None => None,
    }
}

/// The text that replaces the argument of `require(name)` once `renames`
/// have happened, or `None` when none of them is the required module.
pub fn require_path_edit(name: &str, separator: &str, strict: bool, renames: &Vec<ModuleRename>) -> (r: Option<String>)
    ensures
        match spec_require_path_edit(name@, separator@, strict, renames@) {
            Some(t) => r matches Some(s) && s@ == t,
            None => r is None,
        },
{
    let normalized = replace(name, separator, ".");
    let path = str_to_chars(normalized.as_str());
    let mut i: usize = 0;
    while i < renames.len()
        invariant
            i <= renames@.len(),
            path@ == spec_replace(name@, separator@, "."@),
            first_match(renames@, path@, strict, 0) == first_match(renames@, path@, strict, i as int),
        decreases renames@.len() - i,
    {
        let old = str_to_chars(renames[i].old_module_path.as_str());
        let matched = if strict {
            old.len() == path.len() && starts_at(&old, 0, &path)
        } else {
            path.len() <= old.len() && starts_at(&old, old.len() - path.len(), &path)
        };
        proof {
            if strict && old@.len() == path@.len() {
                assert(old@.subrange(0, path@.len() as int) =~= old@);
            }
        }
        if matched {
            let new_path = renames[i].new_module_path.as_str();
            let sep = str_to_chars(separator);
            let full = if vec_eq_str(&sep, ".") || vec_eq_str(&sep, "") {
                let v = str_to_chars(new_path);
                let n = v.len();
                chars_to_string(&v, 0, n)
            } else {
                replace(new_path, ".", separator)
            };
            let mut out: Vec<char> = Vec::new();
            out.push('\'');
            let f = str_to_chars(full.as_str());
            append_chars(&mut out, &f);
            out.push('\'');
            let len = out.len();
            return Some(chars_to_string(&out, 0, len));
        }
        i += 1;
    }
    None
}

} // verus!
