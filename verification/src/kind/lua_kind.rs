use vstd::prelude::*;

use crate::kind::lua_syntax_kind::LuaSyntaxKind;
use crate::kind::lua_token_kind::LuaTokenKind;

verus! {

/// The kind of an element of a syntax tree: a node kind or a token kind.
#[derive(Debug, Clone, Copy, PartialEq, Eq, Hash, Structural)]
pub enum LuaKind {
    Syntax(LuaSyntaxKind),
    Token(LuaTokenKind),
}

impl LuaKind {
    pub fn is_syntax(&self) -> (b: bool)
        ensures
            b == (*self is Syntax),
    {
        matches!(self, LuaKind::Syntax(_))
    }

    pub fn is_token(&self) -> (b: bool)
        ensures
            b == (*self is Token),
    {
        matches!(self, LuaKind::Token(_))
    }

    /// The node kind, or `NoneKind` for a token.
    pub fn to_syntax(&self) -> (k: LuaSyntaxKind)
        ensures
            k == (match *self {
                LuaKind::Syntax(s) => s,
                LuaKind::Token(_) => LuaSyntaxKind::NoneKind,
            }),
    {
        match self {
            LuaKind::Syntax(s) => *s,
            LuaKind::Token(_) => LuaSyntaxKind::NoneKind,
        }
    }

    /// The token kind, or `NoneKind` for a node.
    pub fn to_token(&self) -> (k: LuaTokenKind)
        ensures
            k == (match *self {
                LuaKind::Token(t) => t,
                LuaKind::Syntax(_) => LuaTokenKind::NoneKind,
            }),
    {
        match self {
            LuaKind::Token(t) => *t,
            LuaKind::Syntax(_) => LuaTokenKind::NoneKind,
        }
    }
}

} // verus!
