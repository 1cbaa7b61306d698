use vstd::prelude::*;

use crate::kind::lua_kind::LuaKind;
use crate::kind::lua_syntax_kind::LuaSyntaxKind;
use crate::kind::lua_token_kind::LuaTokenKind;
use crate::syntax::node::doc::tag::LuaDocTagClass;
use crate::syntax::node::doc::types::{LuaDocConditionalType, LuaDocMappedType, LuaDocType};

use crate::syntax::traits::{LuaAstNode, child_ids, children_of, node_pred};
use crate::syntax::tree::syntax_tree::{LuaSyntaxElement, LuaSyntaxNode, LuaSyntaxTree};
use crate::text::text_range::{SourceRange, capped_end};

verus! {

/// Scanning the children `cs` from position `j` for `readonly` before the
/// mapped key, `modifier` being the last `+` (true) or `-` (false) seen.
pub open spec fn readonly_scan(t: LuaSyntaxTree, cs: Seq<usize>, j: int, modifier: Option<bool>) -> bool
    decreases cs.len() - j,
{
    if j < 0 || j >= cs.len() {
        false
    } else {
        match t.kind_of(cs[j] as int) {
            LuaKind::Syntax(k) => if k == LuaSyntaxKind::DocMappedKey {
                false
            } else {
                readonly_scan(t, cs, j + 1, modifier)
            },
            LuaKind::Token(k) => if k == LuaTokenKind::TkPlus {
                readonly_scan(t, cs, j + 1, Some(true))
            } else if k == LuaTokenKind::TkMinus {
                readonly_scan(t, cs, j + 1, Some(false))
            } else if k == LuaTokenKind::TkDocReadonly {
                match modifier {
                    Some(m) => m,
                    None => true,
                }
            } else {
                readonly_scan(t, cs, j + 1, modifier)
            },
        }
    }
}

/// Scanning the children `cs` from position `j` for `?` after the mapped
/// key and before `:`, `modifier` being the last `+` or `-` seen there.
pub open spec fn optional_scan(t: LuaSyntaxTree, cs: Seq<usize>, j: int, seen_key: bool, modifier: Option<bool>) -> bool
    decreases cs.len() - j,
{
    if j < 0 || j >= cs.len() {
        false
    } else {
        match t.kind_of(cs[j] as int) {
            LuaKind::Syntax(k) => optional_scan(t, cs, j + 1, seen_key || k == LuaSyntaxKind::DocMappedKey, modifier),
            LuaKind::Token(k) => if !seen_key {
                optional_scan(t, cs, j + 1, seen_key, modifier)
            } else if k == LuaTokenKind::TkPlus {
                optional_scan(t, cs, j + 1, seen_key, Some(true))
            } else if k == LuaTokenKind::TkMinus {
                optional_scan(t, cs, j + 1, seen_key, Some(false))
            } else if k == LuaTokenKind::TkDocQuestion {
                match modifier {
                    Some(m) => m,
                    None => true,
                }
            } else if k == LuaTokenKind::TkColon {
                false
            } else {
                optional_scan(t, cs, j + 1, seen_key, modifier)
            },
        }
    }
}

/// Scanning the children `cs` of a binary condition from position `j`:
/// after `extends`, `new` gives `true` and a function type `false`.
pub open spec fn new_scan(t: LuaSyntaxTree, cs: Seq<usize>, j: int, seen_extends: bool) -> Option<bool>
    decreases cs.len() - j,
{
    if j < 0 || j >= cs.len() {
        None
    } else {
        match t.kind_of(cs[j] as int) {
            LuaKind::Token(k) => if !seen_extends {
                new_scan(t, cs, j + 1, k == LuaTokenKind::TkDocExtends)
            } else if k == LuaTokenKind::TkDocNew {
                Some(true)
            } else {
                new_scan(t, cs, j + 1, seen_extends)
            },
            LuaKind::Syntax(k) => if seen_extends && k == LuaSyntaxKind::TypeFun {
                Some(false)
            } else {
                new_scan(t, cs, j + 1, seen_extends)
            },
        }
    }
}

/// The first of the element ids `ids`, if any.
pub open spec fn first_id(ids: Seq<usize>) -> Option<int> {
    if ids.len() > 0 {
        Some(ids[0] as int)
    } else {
        None
    }
}

/// Whether a new-constructor check applies to a conditional type whose
/// first type child is the element `cond`: `None` unless the condition is
/// a binary type.
pub open spec fn spec_has_new(t: LuaSyntaxTree, cond: Option<int>) -> Option<bool> {
    match cond {
        Some(c) => if t.kind_of(c) == LuaKind::Syntax(LuaSyntaxKind::TypeBinary) {
            new_scan(t, t.children_of(c), 0, false)
        } else {
            None
        },
        None => None,
    }
}

impl<'a> LuaDocMappedType<'a> {
    /// Whether the mapped type is read-only: a `readonly` before its key,
    /// unless a `-` comes last before it.
    pub fn is_readonly(&self) -> (b: bool)
        ensures
            b == readonly_scan(*self.spec_syntax().spec_tree(), self.spec_syntax().spec_children(), 0, None),
    {
        let s = *self.syntax();
        let ghost t = *s.spec_tree();
        let ghost cs = s.spec_children();
        let n = s.child_count();
        let mut modifier: Option<bool> = None;
        let mut k: usize = 0;
        while k < n
            invariant
                n == cs.len(),
                k <= n,
                s == self.spec_syntax(),
                t == *s.spec_tree(),
                cs == s.spec_children(),
                readonly_scan(t, cs, 0, None) == readonly_scan(t, cs, k as int, modifier),
            decreases n - k,
        {
            match s.child_at(k) {
                LuaSyntaxElement::Node(node) => {
                    if node.kind() == LuaSyntaxKind::DocMappedKey {
                        return false;
                    }
                },
                LuaSyntaxElement::Token(token) => {
                    let kind = token.kind();
                    if kind == LuaTokenKind::TkPlus {
                        modifier = Some(true);
                    } else if kind == LuaTokenKind::TkMinus {
                        modifier = Some(false);
                    } else if kind == LuaTokenKind::TkDocReadonly {
                        return match modifier {
                            Some(m) => m,
                            None => true,
                        };
                    }
                },
            }
            k += 1;
        }
        false
    }

    /// Whether the mapped type's values are optional: a `?` after its key,
    /// unless a `-` comes last before it.
    pub fn is_optional(&self) -> (b: bool)
        ensures
            b == optional_scan(*self.spec_syntax().spec_tree(), self.spec_syntax().spec_children(), 0, false, None),
    {
        let s = *self.syntax();
        let ghost t = *s.spec_tree();
        let ghost cs = s.spec_children();
        let n = s.child_count();
        let mut seen_key = false;
        let mut modifier: Option<bool> = None;
        let mut k: usize = 0;
        while k < n
            invariant
                n == cs.len(),
                k <= n,
                s == self.spec_syntax(),
                t == *s.spec_tree(),
                cs == s.spec_children(),
                optional_scan(t, cs, 0, false, None) == optional_scan(t, cs, k as int, seen_key, modifier),
            decreases n - k,
        {
            match s.child_at(k) {
                LuaSyntaxElement::Node(node) => {
                    if node.kind() == LuaSyntaxKind::DocMappedKey {
                        seen_key = true;
                    }
                },
                LuaSyntaxElement::Token(token) => {
                    if seen_key {
                        let kind = token.kind();
                        if kind == LuaTokenKind::TkPlus {
                            modifier = Some(true);
                        } else if kind == LuaTokenKind::TkMinus {
                            modifier = Some(false);
                        } else if kind == LuaTokenKind::TkDocQuestion {
                            return match modifier {
                                Some(m) => m,
                                None => true,
                            };
                        } else if kind == LuaTokenKind::TkColon {
                            return false;
                        }
                    }
                },
            }
            k += 1;
        }
        false
    }
}

impl<'a> LuaDocConditionalType<'a> {
    /// Whether the condition checks for a constructor: after `extends` in a
    /// binary condition, `new` gives `true` and a function type `false`;
    /// `None` when the condition is not binary or has neither.
    pub fn has_new(&self) -> (r: Option<bool>)
        ensures
            r == spec_has_new(*self.spec_syntax().spec_tree(), first_id(child_ids(self.spec_syntax(), node_pred::<LuaDocType<'a>>()))),
    {
        let types = children_of::<LuaDocType<'a>>(*self.syntax());
        if types.len() == 0 {
            return None;
        }
        let s = *types[0].syntax();
        if s.kind() != LuaSyntaxKind::TypeBinary {
            return None;
        }
        let ghost t = *s.spec_tree();
        let ghost cs = s.spec_children();
        let ghost goal = spec_has_new(
            *self.spec_syntax().spec_tree(),
            first_id(child_ids(self.spec_syntax(), node_pred::<LuaDocType<'a>>())),
        );
        assert(goal == new_scan(t, cs, 0, false));
        let n = s.child_count();
        let mut seen_extends = false;
        let mut k: usize = 0;
        while k < n
            invariant
                n == cs.len(),
                k <= n,
                t == *s.spec_tree(),
                cs == s.spec_children(),
                goal == new_scan(t, cs, 0, false),
                goal == spec_has_new(
                    *self.spec_syntax().spec_tree(),
                    first_id(child_ids(self.spec_syntax(), node_pred::<LuaDocType<'a>>())),
                ),
                new_scan(t, cs, 0, false) == new_scan(t, cs, k as int, seen_extends),
            decreases n - k,
        {
            match s.child_at(k) {
                LuaSyntaxElement::Token(token) => {
                    let kind = token.kind();
                    if !seen_extends {
                        seen_extends = kind == LuaTokenKind::TkDocExtends;
                    } else if kind == LuaTokenKind::TkDocNew {
                        return Some(true);
                    }
                },
                LuaSyntaxElement::Node(node) => {
                    if seen_extends && node.kind() == LuaSyntaxKind::TypeFun {
                        return Some(false);
                    }
                },
            }
            k += 1;
        }
        None
    }
}

/// The tags that end the reach of a class tag.
pub open spec fn ends_class_reach(k: LuaSyntaxKind) -> bool {
    k == LuaSyntaxKind::DocTagClass || k == LuaSyntaxKind::DocTagAlias || k == LuaSyntaxKind::DocTagEnum || k
        == LuaSyntaxKind::DocTagType
}

/// Covering, from position `j` of the children `cs` on, the ranges of the
/// sibling nodes up to the next class, alias, enum or type tag; `(start,
/// end)` is what is covered so far.
pub open spec fn reach_scan(t: LuaSyntaxTree, cs: Seq<usize>, j: int, start: int, end: int) -> (int, int)
    decreases cs.len() - j,
{
    if j < 0 || j >= cs.len() {
        (start, end)
    } else {
        match t.kind_of(cs[j] as int) {
            LuaKind::Syntax(k) => if ends_class_reach(k) {
                (start, end)
            } else {
                let r = t.range_of(cs[j] as int);
                reach_scan(
                    t,
                    cs,
                    j + 1,
                    if r.start_offset < start {
                        r.start_offset as int
                    } else {
                        start
                    },
                    if capped_end(r) > end {
                        capped_end(r)
                    } else {
                        end
                    },
                )
            },
            LuaKind::Token(_) => reach_scan(t, cs, j + 1, start, end),
        }
    }
}

/// The range that a class tag at element `id` covers: its own, up to the
/// next class, alias, enum or type tag among its siblings.
pub open spec fn spec_effective_range(t: LuaSyntaxTree, id: int) -> (int, int) {
    let r = t.range_of(id);
    match t.parent_of(id) {
        Some((p, k)) => reach_scan(t, t.children_of(p as int), k + 1, r.start_offset as int, capped_end(r)),
        None => (r.start_offset as int, capped_end(r)),
    }
}

fn end_of(r: &SourceRange) -> (e: usize)
    ensures
        e == capped_end(*r),
{
    r.start_offset.saturating_add(r.length)
}

impl<'a> LuaDocTagClass<'a> {
    /// The range that the class covers: its own tag and the sibling nodes
    /// after it, up to the next class, alias, enum or type tag.
    pub fn get_effective_range(&self) -> (r: SourceRange)
        ensures
            r.start_offset == spec_effective_range(*self.spec_syntax().spec_tree(), self.spec_syntax().spec_id()).0,
            r.end() == spec_effective_range(*self.spec_syntax().spec_tree(), self.spec_syntax().spec_id()).1,
    {
        let s = *self.syntax();
        let own = s.text_range();
        let mut start = own.start_offset;
        let mut end = end_of(&own);
        match s.index_in_parent() {
            None => {},
            Some((p, k)) => {
                let ghost t = *p.spec_tree();
                let ghost cs = p.spec_children();
                let n = p.child_count();
                let mut j = k + 1;
                while j < n
                    invariant
                        n == cs.len(),
                        k < n,
                        k + 1 <= j <= n,
                        start <= end,
                        t == *p.spec_tree(),
                        cs == p.spec_children(),
                        reach_scan(t, cs, k + 1, own.start_offset as int, capped_end(own)) == reach_scan(
                            t,
                            cs,
                            j as int,
                            start as int,
                            end as int,
                        ),
                    decreases n - j,
                {
                    match p.child_at(j) {
                        LuaSyntaxElement::Node(node) => {
                            let kind = node.kind();
                            if kind == LuaSyntaxKind::DocTagClass || kind == LuaSyntaxKind::DocTagAlias || kind
                                == LuaSyntaxKind::DocTagEnum || kind == LuaSyntaxKind::DocTagType {
                                // the reach ends here
                                j = n;
                            } else {
                                let r = node.text_range();
                                if r.start_offset < start {
                                    start = r.start_offset;
                                }
                                let e = end_of(&r);
                                if e > end {
                                    end = e;
                                }
                                j += 1;
                            }
                        },
                        LuaSyntaxElement::Token(_) => {
                            j += 1;
                        },
                    }
                }
            },
        }
        SourceRange { start_offset: start, length: end - start }
    }
}

} // verus!
