use vstd::prelude::*;

use crate::kind::lua_kind::LuaKind;
use crate::kind::lua_syntax_kind::LuaSyntaxKind;
use crate::kind::lua_token_kind::LuaTokenKind;
use crate::syntax::tree::syntax_tree::{
    LuaSyntaxElement, LuaSyntaxNode, LuaSyntaxToken, LuaSyntaxTree, filter_where, first_where, last_where,
};
use crate::text::text_range::SourceRange;

verus! {

/// The element kinds that the node type `N` accepts.
pub open spec fn node_pred<'a, N: LuaAstNode<'a>>() -> spec_fn(LuaKind) -> bool {
    |k: LuaKind| k matches LuaKind::Syntax(s) && N::spec_cast_ok(s)
}

/// The element kinds that the token type `T` accepts.
pub open spec fn token_pred<'a, T: LuaAstToken<'a>>() -> spec_fn(LuaKind) -> bool {
    |k: LuaKind| k matches LuaKind::Token(t) && T::spec_cast_ok(t)
}

/// Tokens of exactly one kind.
pub open spec fn kind_pred(kind: LuaTokenKind) -> spec_fn(LuaKind) -> bool {
    |k: LuaKind| k == LuaKind::Token(kind)
}

/// The element id of the first child of `n` whose kind satisfies `p`.
pub open spec fn first_child_id(n: LuaSyntaxNode<'_>, p: spec_fn(LuaKind) -> bool) -> Option<int> {
    match first_where(*n.spec_tree(), n.spec_children(), p, 0) {
        Some(k) => Some(n.spec_children()[k] as int),
        None => None,
    }
}

/// The element id of the first child of element `id` of `t` whose kind
/// satisfies `p`.
pub open spec fn first_child_id_in(t: LuaSyntaxTree, id: int, p: spec_fn(LuaKind) -> bool) -> Option<int> {
    match first_where(t, t.children_of(id), p, 0) {
        Some(k) => Some(t.children_of(id)[k] as int),
        None => None,
    }
}

/// The element ids of the children of element `id` of `t` whose kind satisfies `p`.
pub open spec fn child_ids_in(t: LuaSyntaxTree, id: int, p: spec_fn(LuaKind) -> bool) -> Seq<usize> {
    filter_where(t, t.children_of(id), p, t.children_of(id).len() as int)
}

/// The text of the first child token of element `id` of `t` whose kind
/// satisfies `p`.
pub open spec fn first_token_text_in(t: LuaSyntaxTree, id: int, p: spec_fn(LuaKind) -> bool) -> Option<Seq<char>> {
    match first_child_id_in(t, id, p) {
        Some(c) => Some(t.text_of(c)),
        None => None,
    }
}

/// `r` holds the text of the token with element id `id`, or nothing when `id` is.
pub open spec fn opt_text_is(r: Option<String>, t: LuaSyntaxTree, id: Option<int>) -> bool {
    match (r, id) {
        (Some(s), Some(i)) => s@ == t.text_of(i),
        (None, None) => true,
        _ => false,
    }
}

/// The element id of the last child of `n` whose kind satisfies `p`.
pub open spec fn last_child_id(n: LuaSyntaxNode<'_>, p: spec_fn(LuaKind) -> bool) -> Option<int> {
    match last_where(*n.spec_tree(), n.spec_children(), p, n.spec_children().len() as int) {
        Some(k) => Some(n.spec_children()[k] as int),
        None => None,
    }
}

/// The element ids of the children of `n` whose kind satisfies `p`, in order.
pub open spec fn child_ids(n: LuaSyntaxNode<'_>, p: spec_fn(LuaKind) -> bool) -> Seq<usize> {
    filter_where(*n.spec_tree(), n.spec_children(), p, n.spec_children().len() as int)
}

/// `r` is the node of `parent`'s tree with element id `id`, or nothing when `id` is.
pub open spec fn opt_node_is<'a, N: LuaAstNode<'a>>(r: Option<N>, parent: LuaSyntaxNode<'a>, id: Option<int>) -> bool {
    match (r, id) {
        (Some(n), Some(i)) => n.spec_syntax().spec_id() == i && n.spec_syntax().spec_tree() == parent.spec_tree(),
        (None, None) => true,
        _ => false,
    }
}

/// `r` is the token of `parent`'s tree with element id `id`, or nothing when `id` is.
pub open spec fn opt_token_is<'a, T: LuaAstToken<'a>>(r: Option<T>, parent: LuaSyntaxNode<'a>, id: Option<int>) -> bool {
    match (r, id) {
        (Some(t), Some(i)) => t.spec_syntax().spec_id() == i && t.spec_syntax().spec_tree() == parent.spec_tree(),
        (None, None) => true,
        _ => false,
    }
}

/// `v` holds the nodes of `parent`'s tree with the element ids `ids`, in order.
pub open spec fn nodes_are<'a, N: LuaAstNode<'a>>(v: Seq<N>, parent: LuaSyntaxNode<'a>, ids: Seq<usize>) -> bool {
    &&& v.len() == ids.len()
    &&& forall|i: int| 0 <= i < v.len() ==> {
        &&& (#[trigger] v[i]).spec_syntax().spec_id() == ids[i]
        &&& v[i].spec_syntax().spec_tree() == parent.spec_tree()
    }
}

/// `v` holds the tokens of `parent`'s tree with the element ids `ids`, in order.
pub open spec fn tokens_are<'a, T: LuaAstToken<'a>>(v: Seq<T>, parent: LuaSyntaxNode<'a>, ids: Seq<usize>) -> bool {
    &&& v.len() == ids.len()
    &&& forall|i: int| 0 <= i < v.len() ==> {
        &&& (#[trigger] v[i]).spec_syntax().spec_id() == ids[i]
        &&& v[i].spec_syntax().spec_tree() == parent.spec_tree()
    }
}

/// A typed view of a syntax node.
pub trait LuaAstNode<'a>: Sized {
    spec fn spec_syntax(&self) -> LuaSyntaxNode<'a>;

    spec fn spec_can_cast(kind: LuaSyntaxKind) -> bool;

    /// The kinds on which `cast` gives a node.
    spec fn spec_cast_ok(kind: LuaSyntaxKind) -> bool;

    fn syntax(&self) -> (r: &LuaSyntaxNode<'a>)
        ensures
            *r == self.spec_syntax();

    fn can_cast(kind: LuaSyntaxKind) -> (b: bool)
        ensures
            b == Self::spec_can_cast(kind);

    fn cast(syntax: LuaSyntaxNode<'a>) -> (r: Option<Self>)
        ensures
            r is Some <==> Self::spec_cast_ok(syntax.spec_kind()),
            r matches Some(n) ==> n.spec_syntax() == syntax;

    fn get_range(&self) -> (r: SourceRange)
        ensures
            r == self.spec_syntax().spec_tree().range_of(self.spec_syntax().spec_id()),
    {
        self.syntax().text_range()
    }
}

/// A typed view of a syntax token.
pub trait LuaAstToken<'a>: Sized {
    spec fn spec_syntax(&self) -> LuaSyntaxToken<'a>;

    spec fn spec_can_cast(kind: LuaTokenKind) -> bool;

    /// The kinds on which `cast` gives a token.
    spec fn spec_cast_ok(kind: LuaTokenKind) -> bool;

    fn syntax(&self) -> (r: &LuaSyntaxToken<'a>)
        ensures
            *r == self.spec_syntax();

    fn can_cast(kind: LuaTokenKind) -> (b: bool)
        ensures
            b == Self::spec_can_cast(kind);

    fn cast(syntax: LuaSyntaxToken<'a>) -> (r: Option<Self>)
        ensures
            r is Some <==> Self::spec_cast_ok(syntax.spec_kind()),
            r matches Some(n) ==> n.spec_syntax() == syntax;

    fn get_token_kind(&self) -> (k: LuaTokenKind)
        ensures
            k == self.spec_syntax().spec_kind(),
    {
        self.syntax().kind()
    }

    fn get_range(&self) -> (r: SourceRange)
        ensures
            r == self.spec_syntax().spec_tree().range_of(self.spec_syntax().spec_id()),
    {
        self.syntax().text_range()
    }

    fn get_text(&self) -> (t: &'a Vec<char>)
        ensures
            t@ == self.spec_syntax().spec_text(),
    {
        self.syntax().text()
    }
}

/// The first child node of type `N`.
pub fn child_of<'a, N: LuaAstNode<'a>>(s: LuaSyntaxNode<'a>) -> (r: Option<N>)
    ensures
        opt_node_is(r, s, first_child_id(s, node_pred::<N>())),
{
    let n = s.child_count();
    let mut k: usize = 0;
    while k < n
        invariant
            n == s.spec_children().len(),
            k <= n,
            s == s,
            first_where(*s.spec_tree(), s.spec_children(), node_pred::<N>(), 0)
                == first_where(*s.spec_tree(), s.spec_children(), node_pred::<N>(), k as int),
        decreases n - k,
    {
        let e = s.child_at(k);
        match e {
            LuaSyntaxElement::Node(c) => {
                match N::cast(c) {
                    Some(x) => {
                        return Some(x);
                    },
                    None => {},
                }
            },
            LuaSyntaxElement::Token(_) => {},
        }
        k += 1;
    }
    None
}

/// The last child node of type `N`.
pub fn last_child_of<'a, N: LuaAstNode<'a>>(s: LuaSyntaxNode<'a>) -> (r: Option<N>)
    ensures
        opt_node_is(r, s, last_child_id(s, node_pred::<N>())),
{
    let n = s.child_count();
    let mut k: usize = n;
    while k > 0
        invariant
            n == s.spec_children().len(),
            k <= n,
            s == s,
            last_where(*s.spec_tree(), s.spec_children(), node_pred::<N>(), n as int)
                == last_where(*s.spec_tree(), s.spec_children(), node_pred::<N>(), k as int),
        decreases k,
    {
        let e = s.child_at(k - 1);
        match e {
            LuaSyntaxElement::Node(c) => {
                match N::cast(c) {
                    Some(x) => {
                        return Some(x);
                    },
                    None => {},
                }
            },
            LuaSyntaxElement::Token(_) => {},
        }
        k -= 1;
    }
    None
}

/// The child nodes of type `N`, in order.
pub fn children_of<'a, N: LuaAstNode<'a>>(s: LuaSyntaxNode<'a>) -> (v: Vec<N>)
    ensures
        nodes_are(v@, s, child_ids(s, node_pred::<N>())),
{
    let n = s.child_count();
    let mut v: Vec<N> = Vec::new();
    let mut k: usize = 0;
    while k < n
        invariant
            n == s.spec_children().len(),
            k <= n,
            s == s,
            nodes_are(v@, s, filter_where(*s.spec_tree(), s.spec_children(), node_pred::<N>(), k as int)),
        decreases n - k,
    {
        let e = s.child_at(k);
        match e {
            LuaSyntaxElement::Node(c) => {
                match N::cast(c) {
                    Some(x) => v.push(x),
                    None => {},
                }
            },
            LuaSyntaxElement::Token(_) => {},
        }
        k += 1;
    }
    v
}

/// The first child token of type `T`.
pub fn token_of<'a, T: LuaAstToken<'a>>(s: LuaSyntaxNode<'a>) -> (r: Option<T>)
    ensures
        opt_token_is(r, s, first_child_id(s, token_pred::<T>())),
{
    let n = s.child_count();
    let mut k: usize = 0;
    while k < n
        invariant
            n == s.spec_children().len(),
            k <= n,
            s == s,
            first_where(*s.spec_tree(), s.spec_children(), token_pred::<T>(), 0)
                == first_where(*s.spec_tree(), s.spec_children(), token_pred::<T>(), k as int),
        decreases n - k,
    {
        let e = s.child_at(k);
        match e {
            LuaSyntaxElement::Token(c) => {
                match T::cast(c) {
                    Some(x) => {
                        return Some(x);
                    },
                    None => {},
                }
            },
            LuaSyntaxElement::Node(_) => {},
        }
        k += 1;
    }
    None
}

/// The child tokens of type `T`, in order.
pub fn tokens_of<'a, T: LuaAstToken<'a>>(s: LuaSyntaxNode<'a>) -> (v: Vec<T>)
    ensures
        tokens_are(v@, s, child_ids(s, token_pred::<T>())),
{
    let n = s.child_count();
    let mut v: Vec<T> = Vec::new();
    let mut k: usize = 0;
    while k < n
        invariant
            n == s.spec_children().len(),
            k <= n,
            s == s,
            tokens_are(v@, s, filter_where(*s.spec_tree(), s.spec_children(), token_pred::<T>(), k as int)),
        decreases n - k,
    {
        let e = s.child_at(k);
        match e {
            LuaSyntaxElement::Token(c) => {
                match T::cast(c) {
                    Some(x) => v.push(x),
                    None => {},
                }
            },
            LuaSyntaxElement::Node(_) => {},
        }
        k += 1;
    }
    v
}

/// The first child token of the given kind.
pub fn token_by_kind_of<'a>(s: LuaSyntaxNode<'a>, kind: LuaTokenKind) -> (r: Option<LuaSyntaxToken<'a>>)
    ensures
        r is Some == first_child_id(s, kind_pred(kind)) is Some,
        r matches Some(t) ==> t.spec_id() == first_child_id(s, kind_pred(kind))->0
            && t.spec_tree() == s.spec_tree(),
{
    let n = s.child_count();
    let mut k: usize = 0;
    while k < n
        invariant
            n == s.spec_children().len(),
            k <= n,
            s == s,
            first_where(*s.spec_tree(), s.spec_children(), kind_pred(kind), 0)
                == first_where(*s.spec_tree(), s.spec_children(), kind_pred(kind), k as int),
        decreases n - k,
    {
        let e = s.child_at(k);
        match e {
            LuaSyntaxElement::Token(c) => {
                if c.kind() == kind {
                    return Some(c);
                }
            },
            LuaSyntaxElement::Node(_) => {},
        }
        k += 1;
    }
    None
}

/// The parent node, as type `N`.
pub fn parent_as<'a, N: LuaAstNode<'a>>(s: LuaSyntaxNode<'a>) -> (r: Option<N>)
    ensures
        r matches Some(p) ==> Some(p.spec_syntax().spec_id()) == (match s.spec_tree().parent_of(s.spec_id()) {
            Some((q, _)) => Some(q as int),
            None => None::<int>,
        }),
        r is Some <==> (s.spec_tree().parent_of(s.spec_id()) is Some
            && N::spec_cast_ok(s.spec_tree().kind_of((s.spec_tree().parent_of(s.spec_id())->0).0 as int)->Syntax_0)),
{
    match s.parent() {
        Some(p) => N::cast(p),
        None => None,
    }
}


} // verus!
