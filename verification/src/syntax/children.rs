use vstd::prelude::*;

use core::marker::PhantomData;

use crate::syntax::traits::{LuaAstNode, LuaAstToken, node_pred, token_pred};
use crate::syntax::tree::syntax_tree::{LuaSyntaxElement, LuaSyntaxNode, first_where};

verus! {

/// A walk over the child nodes of a parent that are of type `N`, in order.
pub struct LuaAstChildren<'a, N> {
    parent: LuaSyntaxNode<'a>,
    pos: usize,
    ph: PhantomData<N>,
}

impl<'a, N: LuaAstNode<'a>> LuaAstChildren<'a, N> {
    pub closed spec fn spec_parent(&self) -> LuaSyntaxNode<'a> {
        self.parent
    }

    /// How many of the parent's children have been passed.
    pub closed spec fn spec_pos(&self) -> int {
        self.pos as int
    }

    /// A walk from the first child of `parent`.
    pub fn new(parent: &LuaSyntaxNode<'a>) -> (r: Self)
        ensures
            r.spec_parent() == *parent,
            r.spec_pos() == 0,
    {
        LuaAstChildren { parent: *parent, pos: 0, ph: PhantomData }
    }

    /// The next child of type `N`, if any, and the walk moves past it.
    pub fn next(&mut self) -> (r: Option<N>)
        ensures
            final(self).spec_parent() == old(self).spec_parent(),
            match first_where(
                *old(self).spec_parent().spec_tree(),
                old(self).spec_parent().spec_children(),
                node_pred::<N>(),
                old(self).spec_pos(),
            ) {
                Some(k) => r matches Some(n) && n.spec_syntax().spec_id() == old(self).spec_parent().spec_children()[k]
                    && n.spec_syntax().spec_tree() == old(self).spec_parent().spec_tree() && final(self).spec_pos() == k + 1,
                None => r is None && final(self).spec_pos() >= old(self).spec_parent().spec_children().len(),
            },
    {
        let ghost t = *self.parent.spec_tree();
        let ghost cs = self.parent.spec_children();
        let ghost start = self.pos as int;
        let n = self.parent.child_count();
        if self.pos >= n {
            return None;
        }
        let mut k = self.pos;
        while k < n
            invariant
                start <= k <= n,
                n == cs.len(),
                self.parent == old(self).parent,
                self.pos == old(self).pos,
                t == *self.parent.spec_tree(),
                cs == self.parent.spec_children(),
                start == old(self).spec_pos(),
                first_where(t, cs, node_pred::<N>(), start) == first_where(t, cs, node_pred::<N>(), k as int),
            decreases n - k,
        {
            match self.parent.child_at(k) {
                LuaSyntaxElement::Node(c) => {
                    match N::cast(c) {
                        Some(x) => {
                            self.pos = k + 1;
                            return Some(x);
                        },
                        None => {},
                    }
                },
                LuaSyntaxElement::Token(_) => {},
            }
            k += 1;
        }
        self.pos = n;
        None
    }
}

/// A walk over the child tokens of a parent that are of type `T`, in order.
pub struct LuaAstTokenChildren<'a, T> {
    parent: LuaSyntaxNode<'a>,
    pos: usize,
    ph: PhantomData<T>,
}

impl<'a, T: LuaAstToken<'a>> LuaAstTokenChildren<'a, T> {
    pub closed spec fn spec_parent(&self) -> LuaSyntaxNode<'a> {
        self.parent
    }

    /// How many of the parent's children have been passed.
    pub closed spec fn spec_pos(&self) -> int {
        self.pos as int
    }

    /// A walk from the first child of `parent`.
    pub fn new(parent: &LuaSyntaxNode<'a>) -> (r: Self)
        ensures
            r.spec_parent() == *parent,
            r.spec_pos() == 0,
    {
        LuaAstTokenChildren { parent: *parent, pos: 0, ph: PhantomData }
    }

    /// The next child token of type `T`, if any, and the walk moves past it.
    pub fn next(&mut self) -> (r: Option<T>)
        ensures
            final(self).spec_parent() == old(self).spec_parent(),
            match first_where(
                *old(self).spec_parent().spec_tree(),
                old(self).spec_parent().spec_children(),
                token_pred::<T>(),
                old(self).spec_pos(),
            ) {
                Some(k) => r matches Some(n) && n.spec_syntax().spec_id() == old(self).spec_parent().spec_children()[k]
                    && n.spec_syntax().spec_tree() == old(self).spec_parent().spec_tree() && final(self).spec_pos() == k + 1,
                None => r is None && final(self).spec_pos() >= old(self).spec_parent().spec_children().len(),
            },
    {
        let ghost t = *self.parent.spec_tree();
        let ghost cs = self.parent.spec_children();
        let ghost start = self.pos as int;
        let n = self.parent.child_count();
        if self.pos >= n {
            return None;
        }
        let mut k = self.pos;
        while k < n
            invariant
                start <= k <= n,
                n == cs.len(),
                self.parent == old(self).parent,
                self.pos == old(self).pos,
                t == *self.parent.spec_tree(),
                cs == self.parent.spec_children(),
                start == old(self).spec_pos(),
                first_where(t, cs, token_pred::<T>(), start) == first_where(t, cs, token_pred::<T>(), k as int),
            decreases n - k,
        {
            match self.parent.child_at(k) {
                LuaSyntaxElement::Token(c) => {
                    match T::cast(c) {
                        Some(x) => {
                            self.pos = k + 1;
                            return Some(x);
                        },
                        None => {},
                    }
                },
                LuaSyntaxElement::Node(_) => {},
            }
            k += 1;
        }
        self.pos = n;
        None
    }
}

} // verus!
