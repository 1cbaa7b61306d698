use vstd::prelude::*;

use crate::kind::lua_kind::LuaKind;
use crate::kind::lua_syntax_kind::LuaSyntaxKind;
use crate::kind::lua_token_kind::LuaTokenKind;
use crate::syntax::node::lua::expr::{LuaExpr, LuaIndexExpr, LuaLiteralExpr};
use crate::syntax::node::token::tokens::{LuaLiteralToken, LuaNameToken, LuaNumberToken, LuaStringToken};
use crate::syntax::traits::{LuaAstNode, LuaAstToken, first_child_id_in, token_pred};
use crate::syntax::tree::syntax_tree::{LuaSyntaxElement, LuaSyntaxTree};

verus! {

/// The key of an index expression or table field.
#[derive(Debug, Clone, Copy)]
pub enum LuaIndexKey<'a> {
    /// `.name` or `:name`
    Name(LuaNameToken<'a>),
    /// `["string"]`
    String(LuaStringToken<'a>),
    /// `[1]`, a number literal
    Integer(LuaNumberToken<'a>),
    /// `[expr]`, any other expression
    Expr(LuaExpr<'a>),
    /// a position among the fields of a table
    Idx(usize),
}

/// Where the key of an index expression stands: the element id of its name,
/// string or number token, or of its expression node.
pub enum IndexKeyAt {
    Name(int),
    String(int),
    Integer(int),
    Expr(int),
}

/// The key given by the node `c` that follows `[`: a string or number
/// literal gives its token, anything else the node itself.
pub open spec fn key_of_node(t: LuaSyntaxTree, c: int) -> IndexKeyAt {
    if t.kind_of(c) == LuaKind::Syntax(LuaSyntaxKind::LiteralExpr) {
        match first_child_id_in(t, c, token_pred::<LuaLiteralToken<'_>>()) {
            Some(l) => if t.kind_of(l) == LuaKind::Token(LuaTokenKind::TkString) || t.kind_of(l) == LuaKind::Token(
                LuaTokenKind::TkLongString,
            ) {
                IndexKeyAt::String(l)
            } else if t.kind_of(l) == LuaKind::Token(LuaTokenKind::TkInt) || t.kind_of(l) == LuaKind::Token(
                LuaTokenKind::TkFloat,
            ) {
                IndexKeyAt::Integer(l)
            } else {
                IndexKeyAt::Expr(c)
            },
            None => IndexKeyAt::Expr(c),
        }
    } else {
        IndexKeyAt::Expr(c)
    }
}

/// Scanning the children `cs` of an index expression from position `j`:
/// a name token gives the key; after `[` (`meet`), the next element gives
/// it when it is a node, and nothing when it is a token.
pub open spec fn index_key_scan(t: LuaSyntaxTree, cs: Seq<usize>, j: int, meet: bool) -> Option<IndexKeyAt>
    decreases cs.len() - j,
{
    if j < 0 || j >= cs.len() {
        None
    } else if meet {
        match t.kind_of(cs[j] as int) {
            LuaKind::Syntax(_) => Some(key_of_node(t, cs[j] as int)),
            LuaKind::Token(_) => None,
        }
    } else {
        match t.kind_of(cs[j] as int) {
            LuaKind::Token(k) => if k == LuaTokenKind::TkLeftBracket {
                index_key_scan(t, cs, j + 1, true)
            } else if k == LuaTokenKind::TkName {
                Some(IndexKeyAt::Name(cs[j] as int))
            } else {
                index_key_scan(t, cs, j + 1, false)
            },
            LuaKind::Syntax(_) => index_key_scan(t, cs, j + 1, false),
        }
    }
}

/// A key that names an expression names a node that is one.
pub open spec fn key_readable(t: LuaSyntaxTree, k: Option<IndexKeyAt>) -> bool {
    match k {
        Some(IndexKeyAt::Expr(c)) => t.kind_of(c) matches LuaKind::Syntax(s) && LuaExpr::spec_cast_ok(s),
        _ => true,
    }
}

/// `r` is the key at `k` in the tree `t`.
pub open spec fn key_is<'a>(r: Option<LuaIndexKey<'a>>, t: &'a LuaSyntaxTree, k: Option<IndexKeyAt>) -> bool {
    match (r, k) {
        (Some(LuaIndexKey::Name(n)), Some(IndexKeyAt::Name(id))) => n.spec_syntax().spec_id() == id
            && n.spec_syntax().spec_tree() == t,
        (Some(LuaIndexKey::String(s)), Some(IndexKeyAt::String(id))) => s.spec_syntax().spec_id() == id
            && s.spec_syntax().spec_tree() == t,
        (Some(LuaIndexKey::Integer(i)), Some(IndexKeyAt::Integer(id))) => i.spec_syntax().spec_id() == id
            && i.spec_syntax().spec_tree() == t,
        (Some(LuaIndexKey::Expr(e)), Some(IndexKeyAt::Expr(id))) => e.spec_syntax().spec_id() == id
            && e.spec_syntax().spec_tree() == t,
        (None, None) => true,
        _ => false,
    }
}

impl<'a> LuaIndexExpr<'a> {
    /// Whether `get_index_key` can read the key: a node right after `[` is
    /// a string or number literal or an expression.
    pub fn index_key_is_readable(&self) -> (b: bool)
        ensures
            b == key_readable(
                *self.spec_syntax().spec_tree(),
                index_key_scan(*self.spec_syntax().spec_tree(), self.spec_syntax().spec_children(), 0, false),
            ),
    {
        let s = *self.syntax();
        let ghost t = *s.spec_tree();
        let ghost cs = s.spec_children();
        let n = s.child_count();
        let mut meet_left_bracket = false;
        let mut k: usize = 0;
        while k < n
            invariant
                n == cs.len(),
                k <= n,
                s == self.spec_syntax(),
                t == *s.spec_tree(),
                cs == s.spec_children(),
                index_key_scan(t, cs, 0, false) == index_key_scan(t, cs, k as int, meet_left_bracket),
            decreases n - k,
        {
            let child = s.child_at(k);
            if meet_left_bracket {
                match child {
                    LuaSyntaxElement::Node(node) => {
                        if node.kind() == LuaSyntaxKind::LiteralExpr {
                            let literal_expr = LuaLiteralExpr::cast(node).unwrap();
                            if let Some(literal_token) = literal_expr.get_literal() {
                                let kind = literal_token.syntax().kind();
                                if kind == LuaTokenKind::TkString || kind == LuaTokenKind::TkLongString || kind
                                    == LuaTokenKind::TkInt || kind == LuaTokenKind::TkFloat {
                                    return true;
                                }
                            }
                        }
                        return LuaExpr::can_cast(node.kind());
                    },
                    LuaSyntaxElement::Token(_) => {
                        return true;
                    },
                }
            } else {
                match child {
                    LuaSyntaxElement::Token(token) => {
                        let kind = token.kind();
                        if kind == LuaTokenKind::TkLeftBracket {
                            meet_left_bracket = true;
                        } else if kind == LuaTokenKind::TkName {
                            return true;
                        }
                    },
                    LuaSyntaxElement::Node(_) => {},
                }
            }
            k += 1;
        }
        true
    }

    /// The key of the index: the name after `.` or `:`, or what stands
    /// right after `[` (a string or number literal, or an expression).
    pub fn get_index_key(&self) -> (r: Option<LuaIndexKey<'a>>)
        requires
            key_readable(
                *self.spec_syntax().spec_tree(),
                index_key_scan(*self.spec_syntax().spec_tree(), self.spec_syntax().spec_children(), 0, false),
            ),
        ensures
            key_is(
                r,
                self.spec_syntax().spec_tree(),
                index_key_scan(*self.spec_syntax().spec_tree(), self.spec_syntax().spec_children(), 0, false),
            ),
    {
        let s = *self.syntax();
        let ghost t = *s.spec_tree();
        let ghost cs = s.spec_children();
        let n = s.child_count();
        let mut meet_left_bracket = false;
        let mut k: usize = 0;
        while k < n
            invariant
                n == cs.len(),
                k <= n,
                s == self.spec_syntax(),
                t == *s.spec_tree(),
                cs == s.spec_children(),
                index_key_scan(t, cs, 0, false) == index_key_scan(t, cs, k as int, meet_left_bracket),
                key_readable(t, index_key_scan(t, cs, 0, false)),
            decreases n - k,
        {
            let child = s.child_at(k);
            if meet_left_bracket {
                match child {
                    LuaSyntaxElement::Node(node) => {
                        if node.kind() == LuaSyntaxKind::LiteralExpr {
                            let literal_expr = LuaLiteralExpr::cast(node).unwrap();
                            if let Some(literal_token) = literal_expr.get_literal() {
                                let token = *literal_token.syntax();
                                let kind = token.kind();
                                if kind == LuaTokenKind::TkString || kind == LuaTokenKind::TkLongString {
                                    return Some(LuaIndexKey::String(LuaStringToken::cast(token).unwrap()));
                                } else if kind == LuaTokenKind::TkInt || kind == LuaTokenKind::TkFloat {
                                    return Some(LuaIndexKey::Integer(LuaNumberToken::cast(token).unwrap()));
                                }
                            }
                        }
                        return Some(LuaIndexKey::Expr(LuaExpr::cast(node).unwrap()));
                    },
                    LuaSyntaxElement::Token(_) => {
                        return None;
                    },
                }
            } else {
                match child {
                    LuaSyntaxElement::Token(token) => {
                        let kind = token.kind();
                        if kind == LuaTokenKind::TkLeftBracket {
                            meet_left_bracket = true;
                        } else if kind == LuaTokenKind::TkName {
                            return Some(LuaIndexKey::Name(LuaNameToken::cast(token).unwrap()));
                        }
                    },
                    LuaSyntaxElement::Node(_) => {},
                }
            }
            k += 1;
        }
        None
    }
}

} // verus!
