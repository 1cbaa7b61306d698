use vstd::prelude::*;

use crate::kind::lua_syntax_kind::LuaSyntaxKind;
use crate::kind::lua_token_kind::LuaTokenKind;
use crate::syntax::traits::{
    LuaAstNode, LuaAstToken, child_ids, child_of, children_of, first_child_id, kind_pred, last_child_id,
    last_child_of, node_pred, nodes_are, opt_node_is, opt_token_is, token_by_kind_of, token_of,
    token_pred, tokens_are, tokens_of,
};
use crate::syntax::tree::syntax_tree::LuaSyntaxNode;
use crate::kind::lua_kind::LuaKind;
use crate::syntax::node::doc::{LuaDocTagCallGeneric, LuaDocTypeList};
use crate::syntax::node::lua::{LuaBlock, LuaCallArgList, LuaParamList, LuaTableField};
use crate::syntax::node::token::tokens::{
    LuaBinaryOpToken, LuaIndexToken, LuaLiteralToken, LuaNameToken, LuaUnaryOpToken,
};
use crate::syntax::traits::{child_ids_in, first_child_id_in, opt_text_is};
use crate::syntax::tree::syntax_tree::{
    LuaSyntaxElement, LuaSyntaxToken, LuaSyntaxTree, lemma_node_at, spec_next_sibling, token_at,
};

verus! {

/// The token that starts the subtree of element `id` of `t`: the element
/// itself if it is a token, or else the first token of its first child.
pub open spec fn spec_first_token(t: LuaSyntaxTree, id: int) -> Option<int>
    decreases id,
{
    if !(0 <= id < t.spec_len()) {
        None
    } else if t.kind_of(id) is Token {
        Some(id)
    } else if t.children_of(id).len() == 0 {
        None
    } else if 0 <= t.children_of(id)[0] < id {
        spec_first_token(t, t.children_of(id)[0] as int)
    } else {
        None
    }
}

/// The token after the index token `idx` of an index expression.
pub open spec fn spec_index_name_token<'a>(t: &'a LuaSyntaxTree, idx: Option<int>) -> Option<LuaSyntaxToken<'a>> {
    match idx {
        None => None,
        Some(i) => match spec_next_sibling(t, i) {
            Some(LuaSyntaxElement::Token(tok)) => Some(tok),
            Some(LuaSyntaxElement::Node(n)) => match spec_first_token(*t, n.spec_id()) {
                Some(j) => Some(token_at(t, j)),
                None => None,
            },
            None => None,
        },
    }
}

/// The first token of the subtree of `n`.
fn first_token_in<'a>(n: LuaSyntaxNode<'a>) -> (r: Option<LuaSyntaxToken<'a>>)
    ensures
        r == (match spec_first_token(*n.spec_tree(), n.spec_id()) {
            Some(j) => Some(token_at(n.spec_tree(), j)),
            None => None,
        }),
{
    let mut cur = n;
    loop
        invariant
            cur.spec_tree() == n.spec_tree(),
            spec_first_token(*n.spec_tree(), n.spec_id()) == spec_first_token(*n.spec_tree(), cur.spec_id()),
        decreases cur.spec_id(),
    {
        let _kind = cur.kind();
        if cur.child_count() == 0 {
            return None;
        }
        let e = cur.child_at(0);
        proof {
            let c = cur.spec_children()[0] as int;
            assert(spec_first_token(*n.spec_tree(), cur.spec_id()) == spec_first_token(*n.spec_tree(), c));
            if e is Token {
                assert(spec_first_token(*n.spec_tree(), c) == Some(c));
            }
        }
        match e {
            LuaSyntaxElement::Token(tok) => {
                return Some(tok);
            },
            LuaSyntaxElement::Node(child) => {
                cur = child;
            },
        }
    }
}

/// The index token of the expression with element id `prefix`, when it is
/// an index expression.
pub open spec fn spec_prefix_index_token<'a>(t: LuaSyntaxTree, prefix: Option<int>) -> Option<int> {
    match prefix {
        Some(p) => if t.kind_of(p) == LuaKind::Syntax(LuaSyntaxKind::IndexExpr) {
            first_child_id_in(t, p, token_pred::<LuaIndexToken<'a>>())
        } else {
            None
        },
        None => None,
    }
}

/// Scanning the children `cs[k..]` of a call, after its first child node
/// (once `seen_first`): the comment that comes before the arguments.
pub open spec fn call_generic_scan(t: LuaSyntaxTree, cs: Seq<usize>, k: int, seen_first: bool) -> Option<int>
    decreases cs.len() - k,
{
    if k < 0 || k >= cs.len() {
        None
    } else if t.kind_of(cs[k] as int) is Syntax {
        if !seen_first {
            call_generic_scan(t, cs, k + 1, true)
        } else if t.kind_of(cs[k] as int) == LuaKind::Syntax(LuaSyntaxKind::Comment) {
            Some(cs[k] as int)
        } else if t.kind_of(cs[k] as int) == LuaKind::Syntax(LuaSyntaxKind::CallArgList) {
            None
        } else {
            call_generic_scan(t, cs, k + 1, true)
        }
    } else {
        call_generic_scan(t, cs, k + 1, seen_first)
    }
}

/// The type list of the generic arguments of a call with children `cs`.
pub open spec fn spec_call_generic_list<'a>(t: LuaSyntaxTree, cs: Seq<usize>) -> Option<int> {
    match call_generic_scan(t, cs, 0, false) {
        Some(c) => match first_child_id_in(t, c, node_pred::<LuaDocTagCallGeneric<'a>>()) {
            Some(g) => first_child_id_in(t, g, node_pred::<LuaDocTypeList<'a>>()),
            None => None,
        },
        None => None,
    }
}

/// An expression, of any form.
#[derive(Debug, Clone, Copy)]
pub enum LuaExpr<'a> {
    CallExpr(LuaCallExpr<'a>),
    TableExpr(LuaTableExpr<'a>),
    LiteralExpr(LuaLiteralExpr<'a>),
    BinaryExpr(LuaBinaryExpr<'a>),
    UnaryExpr(LuaUnaryExpr<'a>),
    ClosureExpr(LuaClosureExpr<'a>),
    ParenExpr(LuaParenExpr<'a>),
    NameExpr(LuaNameExpr<'a>),
    IndexExpr(LuaIndexExpr<'a>),
}

impl<'a> LuaAstNode<'a> for LuaExpr<'a> {
    open spec fn spec_syntax(&self) -> LuaSyntaxNode<'a> {
        match self {
            LuaExpr::CallExpr(it) => it.spec_syntax(),
            LuaExpr::TableExpr(it) => it.spec_syntax(),
            LuaExpr::LiteralExpr(it) => it.spec_syntax(),
            LuaExpr::BinaryExpr(it) => it.spec_syntax(),
            LuaExpr::UnaryExpr(it) => it.spec_syntax(),
            LuaExpr::ClosureExpr(it) => it.spec_syntax(),
            LuaExpr::ParenExpr(it) => it.spec_syntax(),
            LuaExpr::NameExpr(it) => it.spec_syntax(),
            LuaExpr::IndexExpr(it) => it.spec_syntax(),
        }
    }

    open spec fn spec_can_cast(kind: LuaSyntaxKind) -> bool {
        kind == LuaSyntaxKind::CallExpr
            || kind == LuaSyntaxKind::AssertCallExpr
            || kind == LuaSyntaxKind::ErrorCallExpr
            || kind == LuaSyntaxKind::RequireCallExpr
            || kind == LuaSyntaxKind::TypeCallExpr
            || kind == LuaSyntaxKind::SetmetatableCallExpr
            || kind == LuaSyntaxKind::TableArrayExpr
            || kind == LuaSyntaxKind::TableObjectExpr
            || kind == LuaSyntaxKind::TableEmptyExpr
            || kind == LuaSyntaxKind::LiteralExpr
            || kind == LuaSyntaxKind::BinaryExpr
            || kind == LuaSyntaxKind::UnaryExpr
            || kind == LuaSyntaxKind::ClosureExpr
            || kind == LuaSyntaxKind::ParenExpr
            || kind == LuaSyntaxKind::NameExpr
            || kind == LuaSyntaxKind::IndexExpr
    }

    open spec fn spec_cast_ok(kind: LuaSyntaxKind) -> bool {
        Self::spec_can_cast(kind)
    }

    fn syntax(&self) -> (r: &LuaSyntaxNode<'a>) {
        match self {
            LuaExpr::CallExpr(it) => it.syntax(),
            LuaExpr::TableExpr(it) => it.syntax(),
            LuaExpr::LiteralExpr(it) => it.syntax(),
            LuaExpr::BinaryExpr(it) => it.syntax(),
            LuaExpr::UnaryExpr(it) => it.syntax(),
            LuaExpr::ClosureExpr(it) => it.syntax(),
            LuaExpr::ParenExpr(it) => it.syntax(),
            LuaExpr::NameExpr(it) => it.syntax(),
            LuaExpr::IndexExpr(it) => it.syntax(),
        }
    }

    fn can_cast(kind: LuaSyntaxKind) -> (b: bool) {
        kind == LuaSyntaxKind::CallExpr
            || kind == LuaSyntaxKind::AssertCallExpr
            || kind == LuaSyntaxKind::ErrorCallExpr
            || kind == LuaSyntaxKind::RequireCallExpr
            || kind == LuaSyntaxKind::TypeCallExpr
            || kind == LuaSyntaxKind::SetmetatableCallExpr
            || kind == LuaSyntaxKind::TableArrayExpr
            || kind == LuaSyntaxKind::TableObjectExpr
            || kind == LuaSyntaxKind::TableEmptyExpr
            || kind == LuaSyntaxKind::LiteralExpr
            || kind == LuaSyntaxKind::BinaryExpr
            || kind == LuaSyntaxKind::UnaryExpr
            || kind == LuaSyntaxKind::ClosureExpr
            || kind == LuaSyntaxKind::ParenExpr
            || kind == LuaSyntaxKind::NameExpr
            || kind == LuaSyntaxKind::IndexExpr
    }

    fn cast(syntax: LuaSyntaxNode<'a>) -> (r: Option<Self>) {
        match syntax.kind() {
            LuaSyntaxKind::CallExpr | LuaSyntaxKind::AssertCallExpr | LuaSyntaxKind::ErrorCallExpr | LuaSyntaxKind::RequireCallExpr | LuaSyntaxKind::TypeCallExpr | LuaSyntaxKind::SetmetatableCallExpr => match LuaCallExpr::cast(syntax) {
                Some(it) => Some(LuaExpr::CallExpr(it)),
                None => None,
            },
            LuaSyntaxKind::TableArrayExpr | LuaSyntaxKind::TableObjectExpr | LuaSyntaxKind::TableEmptyExpr => match LuaTableExpr::cast(syntax) {
                Some(it) => Some(LuaExpr::TableExpr(it)),
                None => None,
            },
            LuaSyntaxKind::LiteralExpr => match LuaLiteralExpr::cast(syntax) {
                Some(it) => Some(LuaExpr::LiteralExpr(it)),
                None => None,
            },
            LuaSyntaxKind::BinaryExpr => match LuaBinaryExpr::cast(syntax) {
                Some(it) => Some(LuaExpr::BinaryExpr(it)),
                None => None,
            },
            LuaSyntaxKind::UnaryExpr => match LuaUnaryExpr::cast(syntax) {
                Some(it) => Some(LuaExpr::UnaryExpr(it)),
                None => None,
            },
            LuaSyntaxKind::ClosureExpr => match LuaClosureExpr::cast(syntax) {
                Some(it) => Some(LuaExpr::ClosureExpr(it)),
                None => None,
            },
            LuaSyntaxKind::ParenExpr => match LuaParenExpr::cast(syntax) {
                Some(it) => Some(LuaExpr::ParenExpr(it)),
                None => None,
            },
            LuaSyntaxKind::NameExpr => match LuaNameExpr::cast(syntax) {
                Some(it) => Some(LuaExpr::NameExpr(it)),
                None => None,
            },
            LuaSyntaxKind::IndexExpr => match LuaIndexExpr::cast(syntax) {
                Some(it) => Some(LuaExpr::IndexExpr(it)),
                None => None,
            },
            _ => None,
        }
    }
}

/// An expression that can be assigned to: a name or an index.
#[derive(Debug, Clone, Copy)]
pub enum LuaVarExpr<'a> {
    NameExpr(LuaNameExpr<'a>),
    IndexExpr(LuaIndexExpr<'a>),
}

impl<'a> LuaAstNode<'a> for LuaVarExpr<'a> {
    open spec fn spec_syntax(&self) -> LuaSyntaxNode<'a> {
        match self {
            LuaVarExpr::NameExpr(it) => it.spec_syntax(),
            LuaVarExpr::IndexExpr(it) => it.spec_syntax(),
        }
    }

    open spec fn spec_can_cast(kind: LuaSyntaxKind) -> bool {
        kind == LuaSyntaxKind::NameExpr
            || kind == LuaSyntaxKind::IndexExpr
    }

    open spec fn spec_cast_ok(kind: LuaSyntaxKind) -> bool {
        Self::spec_can_cast(kind)
    }

    fn syntax(&self) -> (r: &LuaSyntaxNode<'a>) {
        match self {
            LuaVarExpr::NameExpr(it) => it.syntax(),
            LuaVarExpr::IndexExpr(it) => it.syntax(),
        }
    }

    fn can_cast(kind: LuaSyntaxKind) -> (b: bool) {
        kind == LuaSyntaxKind::NameExpr
            || kind == LuaSyntaxKind::IndexExpr
    }

    fn cast(syntax: LuaSyntaxNode<'a>) -> (r: Option<Self>) {
        match syntax.kind() {
            LuaSyntaxKind::NameExpr => match LuaNameExpr::cast(syntax) {
                Some(it) => Some(LuaVarExpr::NameExpr(it)),
                None => None,
            },
            LuaSyntaxKind::IndexExpr => match LuaIndexExpr::cast(syntax) {
                Some(it) => Some(LuaVarExpr::IndexExpr(it)),
                None => None,
            },
            _ => None,
        }
    }
}

impl<'a> LuaVarExpr<'a> {
    /// The same node, as an expression.
    pub fn to_expr(&self) -> (r: LuaExpr<'a>)
        ensures
            r.spec_syntax() == self.spec_syntax(),
    {
        match self {
            LuaVarExpr::NameExpr(node) => LuaExpr::NameExpr(*node),
            LuaVarExpr::IndexExpr(node) => LuaExpr::IndexExpr(*node),
        }
    }
}

/// The single argument of a call written without parentheses: a table or a string.
#[derive(Debug, Clone, Copy)]
pub enum LuaSingleArgExpr<'a> {
    TableExpr(LuaTableExpr<'a>),
    LiteralExpr(LuaLiteralExpr<'a>),
}

impl<'a> LuaAstNode<'a> for LuaSingleArgExpr<'a> {
    open spec fn spec_syntax(&self) -> LuaSyntaxNode<'a> {
        match self {
            LuaSingleArgExpr::TableExpr(it) => it.spec_syntax(),
            LuaSingleArgExpr::LiteralExpr(it) => it.spec_syntax(),
        }
    }

    open spec fn spec_can_cast(kind: LuaSyntaxKind) -> bool {
        kind == LuaSyntaxKind::TableArrayExpr
            || kind == LuaSyntaxKind::TableObjectExpr
            || kind == LuaSyntaxKind::TableEmptyExpr
            || kind == LuaSyntaxKind::LiteralExpr
    }

    open spec fn spec_cast_ok(kind: LuaSyntaxKind) -> bool {
        Self::spec_can_cast(kind)
    }

    fn syntax(&self) -> (r: &LuaSyntaxNode<'a>) {
        match self {
            LuaSingleArgExpr::TableExpr(it) => it.syntax(),
            LuaSingleArgExpr::LiteralExpr(it) => it.syntax(),
        }
    }

    fn can_cast(kind: LuaSyntaxKind) -> (b: bool) {
        kind == LuaSyntaxKind::TableArrayExpr
            || kind == LuaSyntaxKind::TableObjectExpr
            || kind == LuaSyntaxKind::TableEmptyExpr
            || kind == LuaSyntaxKind::LiteralExpr
    }

    fn cast(syntax: LuaSyntaxNode<'a>) -> (r: Option<Self>) {
        match syntax.kind() {
            LuaSyntaxKind::TableArrayExpr | LuaSyntaxKind::TableObjectExpr | LuaSyntaxKind::TableEmptyExpr => match LuaTableExpr::cast(syntax) {
                Some(it) => Some(LuaSingleArgExpr::TableExpr(it)),
                None => None,
            },
            LuaSyntaxKind::LiteralExpr => match LuaLiteralExpr::cast(syntax) {
                Some(it) => Some(LuaSingleArgExpr::LiteralExpr(it)),
                None => None,
            },
            _ => None,
        }
    }
}

/// A name used as an expression.
#[derive(Debug, Clone, Copy)]
pub struct LuaNameExpr<'a> {
    syntax: LuaSyntaxNode<'a>,
}

impl<'a> LuaAstNode<'a> for LuaNameExpr<'a> {
    closed spec fn spec_syntax(&self) -> LuaSyntaxNode<'a> {
        self.syntax
    }

    open spec fn spec_can_cast(kind: LuaSyntaxKind) -> bool {
        kind == LuaSyntaxKind::NameExpr
    }

    open spec fn spec_cast_ok(kind: LuaSyntaxKind) -> bool {
        Self::spec_can_cast(kind)
    }

    fn syntax(&self) -> (r: &LuaSyntaxNode<'a>) {
        &self.syntax
    }

    fn can_cast(kind: LuaSyntaxKind) -> (b: bool) {
        kind == LuaSyntaxKind::NameExpr
    }

    fn cast(syntax: LuaSyntaxNode<'a>) -> (r: Option<Self>) {
        if Self::can_cast(syntax.kind()) {
            Some(LuaNameExpr { syntax })
        } else {
            None
        }
    }
}

impl<'a> LuaNameExpr<'a> {
    pub fn get_name_token(&self) -> (r: Option<LuaNameToken<'a>>)
        ensures
            opt_token_is(r, self.spec_syntax(), first_child_id(self.spec_syntax(), token_pred::<LuaNameToken<'a>>())),
    {
        token_of::<LuaNameToken<'a>>(self.syntax)
    }

    /// The text of the name.
    pub fn get_name_text(&self) -> (r: Option<String>)
        ensures
            opt_text_is(r, *self.spec_syntax().spec_tree(), first_child_id(self.spec_syntax(), token_pred::<LuaNameToken<'a>>())),
    {
        match self.get_name_token() {
            Some(t) => Some(t.get_name_text()),
            None => None,
        }
    }
}

/// An index expression: `a.b`, `a:b`, `a[k]`.
#[derive(Debug, Clone, Copy)]
pub struct LuaIndexExpr<'a> {
    syntax: LuaSyntaxNode<'a>,
}

impl<'a> LuaAstNode<'a> for LuaIndexExpr<'a> {
    closed spec fn spec_syntax(&self) -> LuaSyntaxNode<'a> {
        self.syntax
    }

    open spec fn spec_can_cast(kind: LuaSyntaxKind) -> bool {
        kind == LuaSyntaxKind::IndexExpr
    }

    open spec fn spec_cast_ok(kind: LuaSyntaxKind) -> bool {
        Self::spec_can_cast(kind)
    }

    fn syntax(&self) -> (r: &LuaSyntaxNode<'a>) {
        &self.syntax
    }

    fn can_cast(kind: LuaSyntaxKind) -> (b: bool) {
        kind == LuaSyntaxKind::IndexExpr
    }

    fn cast(syntax: LuaSyntaxNode<'a>) -> (r: Option<Self>) {
        if Self::can_cast(syntax.kind()) {
            Some(LuaIndexExpr { syntax })
        } else {
            None
        }
    }
}

impl<'a> LuaIndexExpr<'a> {
    pub fn get_prefix_expr(&self) -> (r: Option<LuaExpr<'a>>)
        ensures
            opt_node_is(r, self.spec_syntax(), first_child_id(self.spec_syntax(), node_pred::<LuaExpr<'a>>())),
    {
        child_of::<LuaExpr<'a>>(self.syntax)
    }

    pub fn get_index_token(&self) -> (r: Option<LuaIndexToken<'a>>)
        ensures
            opt_token_is(r, self.spec_syntax(), first_child_id(self.spec_syntax(), token_pred::<LuaIndexToken<'a>>())),
    {
        token_of::<LuaIndexToken<'a>>(self.syntax)
    }

    pub fn get_name_token(&self) -> (r: Option<LuaNameToken<'a>>)
        ensures
            opt_token_is(r, self.spec_syntax(), first_child_id(self.spec_syntax(), token_pred::<LuaNameToken<'a>>())),
    {
        token_of::<LuaNameToken<'a>>(self.syntax)
    }

    /// The token right after the index token (`.`, `:` or `[`): a token
    /// that follows it among the node's children, or else the first token
    /// inside the node that follows it.
    pub fn get_index_name_token(&self) -> (r: Option<LuaSyntaxToken<'a>>)
        ensures
            r == spec_index_name_token(self.spec_syntax().spec_tree(), first_child_id(self.spec_syntax(), token_pred::<LuaIndexToken<'a>>())),
    {
        let index_token = match self.get_index_token() {
            Some(t) => t,
            None => {
                return None;
            },
        };
        let next = index_token.syntax().next_sibling_or_token();
        match next {
            Some(LuaSyntaxElement::Token(t)) => Some(t),
            Some(LuaSyntaxElement::Node(n)) => {
                proof {
                    let tree = index_token.spec_syntax().spec_tree();
                    let (p, k) = tree.parent_of(index_token.spec_syntax().spec_id())->0;
                    lemma_node_at(tree, tree.children_of(p as int)[k + 1] as int);
                }
                first_token_in(n)
            },
            None => None,
        }
    }
}

/// A call: the callee and its arguments.
#[derive(Debug, Clone, Copy)]
pub struct LuaCallExpr<'a> {
    syntax: LuaSyntaxNode<'a>,
}

impl<'a> LuaAstNode<'a> for LuaCallExpr<'a> {
    closed spec fn spec_syntax(&self) -> LuaSyntaxNode<'a> {
        self.syntax
    }

    open spec fn spec_can_cast(kind: LuaSyntaxKind) -> bool {
        kind == LuaSyntaxKind::CallExpr || kind == LuaSyntaxKind::AssertCallExpr || kind == LuaSyntaxKind::ErrorCallExpr || kind == LuaSyntaxKind::RequireCallExpr || kind == LuaSyntaxKind::TypeCallExpr || kind == LuaSyntaxKind::SetmetatableCallExpr
    }

    open spec fn spec_cast_ok(kind: LuaSyntaxKind) -> bool {
        Self::spec_can_cast(kind)
    }

    fn syntax(&self) -> (r: &LuaSyntaxNode<'a>) {
        &self.syntax
    }

    fn can_cast(kind: LuaSyntaxKind) -> (b: bool) {
        kind == LuaSyntaxKind::CallExpr || kind == LuaSyntaxKind::AssertCallExpr || kind == LuaSyntaxKind::ErrorCallExpr || kind == LuaSyntaxKind::RequireCallExpr || kind == LuaSyntaxKind::TypeCallExpr || kind == LuaSyntaxKind::SetmetatableCallExpr
    }

    fn cast(syntax: LuaSyntaxNode<'a>) -> (r: Option<Self>) {
        if Self::can_cast(syntax.kind()) {
            Some(LuaCallExpr { syntax })
        } else {
            None
        }
    }
}

impl<'a> LuaCallExpr<'a> {
    pub fn get_prefix_expr(&self) -> (r: Option<LuaExpr<'a>>)
        ensures
            opt_node_is(r, self.spec_syntax(), first_child_id(self.spec_syntax(), node_pred::<LuaExpr<'a>>())),
    {
        child_of::<LuaExpr<'a>>(self.syntax)
    }

    pub fn get_args_list(&self) -> (r: Option<LuaCallArgList<'a>>)
        ensures
            opt_node_is(r, self.spec_syntax(), first_child_id(self.spec_syntax(), node_pred::<LuaCallArgList<'a>>())),
    {
        child_of::<LuaCallArgList<'a>>(self.syntax)
    }

    /// The number of arguments, when there is an argument list.
    pub fn get_args_count(&self) -> (r: Option<usize>)
        ensures
            r == (match first_child_id(self.spec_syntax(), node_pred::<LuaCallArgList<'a>>()) {
                Some(i) => Some(child_ids_in(*self.spec_syntax().spec_tree(), i, node_pred::<LuaExpr<'a>>()).len() as usize),
                None => None,
            }),
    {
        match self.get_args_list() {
            Some(list) => Some(list.get_args().len()),
            None => None,
        }
    }

    /// The index token of the prefix, when the prefix is an index expression.
    pub fn get_colon_token(&self) -> (r: Option<LuaIndexToken<'a>>)
        ensures
            opt_token_is(r, self.spec_syntax(), spec_prefix_index_token(*self.spec_syntax().spec_tree(), first_child_id(self.spec_syntax(), node_pred::<LuaExpr<'a>>()))),
    {
        match self.get_prefix_expr() {
            Some(prefix) => {
                if prefix.syntax().kind() == LuaSyntaxKind::IndexExpr {
                    token_of::<LuaIndexToken<'a>>(*prefix.syntax())
                } else {
                    None
                }
            },
            None => None,
        }
    }

    /// Whether the call is a method call `a:b(...)`.
    pub fn is_colon_call(&self) -> (b: bool)
        ensures
            b == (match spec_prefix_index_token(*self.spec_syntax().spec_tree(), first_child_id(self.spec_syntax(), node_pred::<LuaExpr<'a>>())) {
                Some(j) => self.spec_syntax().spec_tree().kind_of(j)->Token_0 == LuaTokenKind::TkColon,
                None => false,
            }),
    {
        match self.get_colon_token() {
            Some(index_token) => index_token.is_colon(),
            None => false,
        }
    }

    /// The generic type arguments written in a comment between the callee
    /// and the arguments (`f--[[@<T>]](...)`).
    pub fn get_call_generic_type_list(&self) -> (r: Option<LuaDocTypeList<'a>>)
        ensures
            opt_node_is(r, self.spec_syntax(), spec_call_generic_list(*self.spec_syntax().spec_tree(), self.spec_syntax().spec_children())),
    {
        let s = self.syntax;
        let ghost t = *s.spec_tree();
        let n = s.child_count();
        let mut seen_first = false;
        let mut k: usize = 0;
        while k < n
            invariant
                n == s.spec_children().len(),
                k <= n,
                s == self.spec_syntax(),
                t == *s.spec_tree(),
                call_generic_scan(t, s.spec_children(), 0, false) == call_generic_scan(t, s.spec_children(), k as int, seen_first),
            decreases n - k,
        {
            match s.child_at(k) {
                LuaSyntaxElement::Node(node) => {
                    if seen_first {
                        let kind = node.kind();
                        if kind == LuaSyntaxKind::Comment {
                            return match child_of::<LuaDocTagCallGeneric<'a>>(node) {
                                Some(call_generic) => call_generic.get_type_list(),
                                None => None,
                            };
                        }
                        if kind == LuaSyntaxKind::CallArgList {
                            return None;
                        }
                    }
                    seen_first = true;
                },
                LuaSyntaxElement::Token(_) => {},
            }
            k += 1;
        }
        None
    }

    /// Whether this is a call of `require`.
    pub fn is_require(&self) -> (b: bool)
        ensures
            b == (self.spec_syntax().spec_kind() == LuaSyntaxKind::RequireCallExpr),
    {
        self.syntax.kind() == LuaSyntaxKind::RequireCallExpr
    }

    /// Whether this is a call of `error`.
    pub fn is_error(&self) -> (b: bool)
        ensures
            b == (self.spec_syntax().spec_kind() == LuaSyntaxKind::ErrorCallExpr),
    {
        self.syntax.kind() == LuaSyntaxKind::ErrorCallExpr
    }

    /// Whether this is a call of `assert`.
    pub fn is_assert(&self) -> (b: bool)
        ensures
            b == (self.spec_syntax().spec_kind() == LuaSyntaxKind::AssertCallExpr),
    {
        self.syntax.kind() == LuaSyntaxKind::AssertCallExpr
    }

    /// Whether this is a call of `type`.
    pub fn is_type(&self) -> (b: bool)
        ensures
            b == (self.spec_syntax().spec_kind() == LuaSyntaxKind::TypeCallExpr),
    {
        self.syntax.kind() == LuaSyntaxKind::TypeCallExpr
    }

    /// Whether this is a call of `setmetatable`.
    pub fn is_setmetatable(&self) -> (b: bool)
        ensures
            b == (self.spec_syntax().spec_kind() == LuaSyntaxKind::SetmetatableCallExpr),
    {
        self.syntax.kind() == LuaSyntaxKind::SetmetatableCallExpr
    }
}

/// A table constructor: empty, a list of values, or with keyed fields.
#[derive(Debug, Clone, Copy)]
pub struct LuaTableExpr<'a> {
    syntax: LuaSyntaxNode<'a>,
}

impl<'a> LuaAstNode<'a> for LuaTableExpr<'a> {
    closed spec fn spec_syntax(&self) -> LuaSyntaxNode<'a> {
        self.syntax
    }

    open spec fn spec_can_cast(kind: LuaSyntaxKind) -> bool {
        kind == LuaSyntaxKind::TableArrayExpr || kind == LuaSyntaxKind::TableObjectExpr || kind == LuaSyntaxKind::TableEmptyExpr
    }

    open spec fn spec_cast_ok(kind: LuaSyntaxKind) -> bool {
        Self::spec_can_cast(kind)
    }

    fn syntax(&self) -> (r: &LuaSyntaxNode<'a>) {
        &self.syntax
    }

    fn can_cast(kind: LuaSyntaxKind) -> (b: bool) {
        kind == LuaSyntaxKind::TableArrayExpr || kind == LuaSyntaxKind::TableObjectExpr || kind == LuaSyntaxKind::TableEmptyExpr
    }

    fn cast(syntax: LuaSyntaxNode<'a>) -> (r: Option<Self>) {
        if Self::can_cast(syntax.kind()) {
            Some(LuaTableExpr { syntax })
        } else {
            None
        }
    }
}

impl<'a> LuaTableExpr<'a> {
    pub fn get_fields(&self) -> (r: Vec<LuaTableField<'a>>)
        ensures
            nodes_are(r@, self.spec_syntax(), child_ids(self.spec_syntax(), node_pred::<LuaTableField<'a>>())),
    {
        children_of::<LuaTableField<'a>>(self.syntax)
    }

    /// Whether the table is written with no field.
    pub fn is_empty(&self) -> (b: bool)
        ensures
            b == (self.spec_syntax().spec_kind() == LuaSyntaxKind::TableEmptyExpr),
    {
        self.syntax.kind() == LuaSyntaxKind::TableEmptyExpr
    }

    /// Whether the table holds values only.
    pub fn is_array(&self) -> (b: bool)
        ensures
            b == (self.spec_syntax().spec_kind() == LuaSyntaxKind::TableArrayExpr),
    {
        self.syntax.kind() == LuaSyntaxKind::TableArrayExpr
    }

    /// Whether the table has a keyed field.
    pub fn is_object(&self) -> (b: bool)
        ensures
            b == (self.spec_syntax().spec_kind() == LuaSyntaxKind::TableObjectExpr),
    {
        self.syntax.kind() == LuaSyntaxKind::TableObjectExpr
    }
}

/// A literal: a number, a string, `true`, `false`, `nil` or `...`.
#[derive(Debug, Clone, Copy)]
pub struct LuaLiteralExpr<'a> {
    syntax: LuaSyntaxNode<'a>,
}

impl<'a> LuaAstNode<'a> for LuaLiteralExpr<'a> {
    closed spec fn spec_syntax(&self) -> LuaSyntaxNode<'a> {
        self.syntax
    }

    open spec fn spec_can_cast(kind: LuaSyntaxKind) -> bool {
        kind == LuaSyntaxKind::LiteralExpr
    }

    open spec fn spec_cast_ok(kind: LuaSyntaxKind) -> bool {
        Self::spec_can_cast(kind)
    }

    fn syntax(&self) -> (r: &LuaSyntaxNode<'a>) {
        &self.syntax
    }

    fn can_cast(kind: LuaSyntaxKind) -> (b: bool) {
        kind == LuaSyntaxKind::LiteralExpr
    }

    fn cast(syntax: LuaSyntaxNode<'a>) -> (r: Option<Self>) {
        if Self::can_cast(syntax.kind()) {
            Some(LuaLiteralExpr { syntax })
        } else {
            None
        }
    }
}

impl<'a> LuaLiteralExpr<'a> {
    pub fn get_literal(&self) -> (r: Option<LuaLiteralToken<'a>>)
        ensures
            opt_token_is(r, self.spec_syntax(), first_child_id(self.spec_syntax(), token_pred::<LuaLiteralToken<'a>>())),
    {
        token_of::<LuaLiteralToken<'a>>(self.syntax)
    }
}

/// A binary operation.
#[derive(Debug, Clone, Copy)]
pub struct LuaBinaryExpr<'a> {
    syntax: LuaSyntaxNode<'a>,
}

impl<'a> LuaAstNode<'a> for LuaBinaryExpr<'a> {
    closed spec fn spec_syntax(&self) -> LuaSyntaxNode<'a> {
        self.syntax
    }

    open spec fn spec_can_cast(kind: LuaSyntaxKind) -> bool {
        kind == LuaSyntaxKind::BinaryExpr
    }

    open spec fn spec_cast_ok(kind: LuaSyntaxKind) -> bool {
        Self::spec_can_cast(kind)
    }

    fn syntax(&self) -> (r: &LuaSyntaxNode<'a>) {
        &self.syntax
    }

    fn can_cast(kind: LuaSyntaxKind) -> (b: bool) {
        kind == LuaSyntaxKind::BinaryExpr
    }

    fn cast(syntax: LuaSyntaxNode<'a>) -> (r: Option<Self>) {
        if Self::can_cast(syntax.kind()) {
            Some(LuaBinaryExpr { syntax })
        } else {
            None
        }
    }
}

impl<'a> LuaBinaryExpr<'a> {
    pub fn get_op_token(&self) -> (r: Option<LuaBinaryOpToken<'a>>)
        ensures
            opt_token_is(r, self.spec_syntax(), first_child_id(self.spec_syntax(), token_pred::<LuaBinaryOpToken<'a>>())),
    {
        token_of::<LuaBinaryOpToken<'a>>(self.syntax)
    }

    pub fn get_left_expr(&self) -> (r: Option<LuaExpr<'a>>)
        ensures
            opt_node_is(r, self.spec_syntax(), first_child_id(self.spec_syntax(), node_pred::<LuaExpr<'a>>())),
    {
        child_of::<LuaExpr<'a>>(self.syntax)
    }

    /// The two operands, when there are exactly two.
    pub fn get_exprs(&self) -> (r: Option<(LuaExpr<'a>, LuaExpr<'a>)>)
        ensures
            ({
                let ids = child_ids(self.spec_syntax(), node_pred::<LuaExpr<'a>>());
                match r {
                    Some((a, b)) => ids.len() == 2 && a.spec_syntax().spec_id() == ids[0] && b.spec_syntax().spec_id() == ids[1]
                        && a.spec_syntax().spec_tree() == self.spec_syntax().spec_tree()
                        && b.spec_syntax().spec_tree() == self.spec_syntax().spec_tree(),
                    None => ids.len() != 2,
                }
            }),
    {
        let exprs = children_of::<LuaExpr<'a>>(self.syntax);
        if exprs.len() == 2 {
            Some((exprs[0], exprs[1]))
        } else {
            None
        }
    }
}

/// A unary operation.
#[derive(Debug, Clone, Copy)]
pub struct LuaUnaryExpr<'a> {
    syntax: LuaSyntaxNode<'a>,
}

impl<'a> LuaAstNode<'a> for LuaUnaryExpr<'a> {
    closed spec fn spec_syntax(&self) -> LuaSyntaxNode<'a> {
        self.syntax
    }

    open spec fn spec_can_cast(kind: LuaSyntaxKind) -> bool {
        kind == LuaSyntaxKind::UnaryExpr
    }

    open spec fn spec_cast_ok(kind: LuaSyntaxKind) -> bool {
        Self::spec_can_cast(kind)
    }

    fn syntax(&self) -> (r: &LuaSyntaxNode<'a>) {
        &self.syntax
    }

    fn can_cast(kind: LuaSyntaxKind) -> (b: bool) {
        kind == LuaSyntaxKind::UnaryExpr
    }

    fn cast(syntax: LuaSyntaxNode<'a>) -> (r: Option<Self>) {
        if Self::can_cast(syntax.kind()) {
            Some(LuaUnaryExpr { syntax })
        } else {
            None
        }
    }
}

impl<'a> LuaUnaryExpr<'a> {
    pub fn get_expr(&self) -> (r: Option<LuaExpr<'a>>)
        ensures
            opt_node_is(r, self.spec_syntax(), first_child_id(self.spec_syntax(), node_pred::<LuaExpr<'a>>())),
    {
        child_of::<LuaExpr<'a>>(self.syntax)
    }

    pub fn get_op_token(&self) -> (r: Option<LuaUnaryOpToken<'a>>)
        ensures
            opt_token_is(r, self.spec_syntax(), first_child_id(self.spec_syntax(), token_pred::<LuaUnaryOpToken<'a>>())),
    {
        token_of::<LuaUnaryOpToken<'a>>(self.syntax)
    }
}

/// A function body: parameters and block.
#[derive(Debug, Clone, Copy)]
pub struct LuaClosureExpr<'a> {
    syntax: LuaSyntaxNode<'a>,
}

impl<'a> LuaAstNode<'a> for LuaClosureExpr<'a> {
    closed spec fn spec_syntax(&self) -> LuaSyntaxNode<'a> {
        self.syntax
    }

    open spec fn spec_can_cast(kind: LuaSyntaxKind) -> bool {
        kind == LuaSyntaxKind::ClosureExpr
    }

    open spec fn spec_cast_ok(kind: LuaSyntaxKind) -> bool {
        Self::spec_can_cast(kind)
    }

    fn syntax(&self) -> (r: &LuaSyntaxNode<'a>) {
        &self.syntax
    }

    fn can_cast(kind: LuaSyntaxKind) -> (b: bool) {
        kind == LuaSyntaxKind::ClosureExpr
    }

    fn cast(syntax: LuaSyntaxNode<'a>) -> (r: Option<Self>) {
        if Self::can_cast(syntax.kind()) {
            Some(LuaClosureExpr { syntax })
        } else {
            None
        }
    }
}

impl<'a> LuaClosureExpr<'a> {
    pub fn get_block(&self) -> (r: Option<LuaBlock<'a>>)
        ensures
            opt_node_is(r, self.spec_syntax(), first_child_id(self.spec_syntax(), node_pred::<LuaBlock<'a>>())),
    {
        child_of::<LuaBlock<'a>>(self.syntax)
    }

    pub fn get_params_list(&self) -> (r: Option<LuaParamList<'a>>)
        ensures
            opt_node_is(r, self.spec_syntax(), first_child_id(self.spec_syntax(), node_pred::<LuaParamList<'a>>())),
    {
        child_of::<LuaParamList<'a>>(self.syntax)
    }
}

/// An expression in parentheses.
#[derive(Debug, Clone, Copy)]
pub struct LuaParenExpr<'a> {
    syntax: LuaSyntaxNode<'a>,
}

impl<'a> LuaAstNode<'a> for LuaParenExpr<'a> {
    closed spec fn spec_syntax(&self) -> LuaSyntaxNode<'a> {
        self.syntax
    }

    open spec fn spec_can_cast(kind: LuaSyntaxKind) -> bool {
        kind == LuaSyntaxKind::ParenExpr
    }

    open spec fn spec_cast_ok(kind: LuaSyntaxKind) -> bool {
        Self::spec_can_cast(kind)
    }

    fn syntax(&self) -> (r: &LuaSyntaxNode<'a>) {
        &self.syntax
    }

    fn can_cast(kind: LuaSyntaxKind) -> (b: bool) {
        kind == LuaSyntaxKind::ParenExpr
    }

    fn cast(syntax: LuaSyntaxNode<'a>) -> (r: Option<Self>) {
        if Self::can_cast(syntax.kind()) {
            Some(LuaParenExpr { syntax })
        } else {
            None
        }
    }
}

impl<'a> LuaParenExpr<'a> {
    pub fn get_expr(&self) -> (r: Option<LuaExpr<'a>>)
        ensures
            opt_node_is(r, self.spec_syntax(), first_child_id(self.spec_syntax(), node_pred::<LuaExpr<'a>>())),
    {
        child_of::<LuaExpr<'a>>(self.syntax)
    }
}

} // verus!
