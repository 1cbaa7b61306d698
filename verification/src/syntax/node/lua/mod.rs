pub mod expr;
pub mod index_key;

use vstd::prelude::*;

use crate::kind::lua_syntax_kind::LuaSyntaxKind;
use crate::kind::lua_token_kind::LuaTokenKind;
use crate::syntax::traits::{
    LuaAstNode, LuaAstToken, child_ids, child_of, children_of, first_child_id, kind_pred, last_child_id,
    last_child_of, node_pred, nodes_are, opt_node_is, opt_token_is, token_by_kind_of, token_of,
    token_pred, tokens_are, tokens_of,
};
use crate::syntax::tree::syntax_tree::LuaSyntaxNode;
use crate::syntax::node::lua::expr::{
    LuaBinaryExpr, LuaCallExpr, LuaClosureExpr, LuaExpr, LuaIndexExpr, LuaLiteralExpr, LuaNameExpr, LuaParenExpr,
    LuaTableExpr, LuaUnaryExpr, LuaVarExpr,
};
use crate::syntax::node::doc::LuaComment;
use crate::syntax::node::token::tokens::LuaNameToken;
use crate::syntax::traits::first_token_text_in;
use crate::syntax::tree::syntax_tree::LuaSyntaxTree;
use crate::text::strings::vec_eq_str;

verus! {

impl LuaSyntaxTree {
    /// The root of the tree, as a chunk.
    pub fn get_chunk_node<'a>(&'a self) -> (c: LuaChunk<'a>)
        ensures
            c.spec_syntax().spec_id() == self.spec_root(),
            c.spec_syntax().spec_tree() == self,
    {
        let root = self.get_red_root();
        LuaChunk::cast(root).unwrap()
    }
}

/// A node of Lua code (or a comment), of any kind.
#[derive(Debug, Clone, Copy)]
pub enum LuaAst<'a> {
    LuaChunk(LuaChunk<'a>),
    LuaBlock(LuaBlock<'a>),
    LuaLocalStat(LuaLocalStat<'a>),
    LuaAssignStat(LuaAssignStat<'a>),
    LuaCallExprStat(LuaCallExprStat<'a>),
    LuaFuncStat(LuaFuncStat<'a>),
    LuaLocalFuncStat(LuaLocalFuncStat<'a>),
    LuaIfStat(LuaIfStat<'a>),
    LuaWhileStat(LuaWhileStat<'a>),
    LuaDoStat(LuaDoStat<'a>),
    LuaForStat(LuaForStat<'a>),
    LuaForRangeStat(LuaForRangeStat<'a>),
    LuaRepeatStat(LuaRepeatStat<'a>),
    LuaReturnStat(LuaReturnStat<'a>),
    LuaBreakStat(LuaBreakStat<'a>),
    LuaGotoStat(LuaGotoStat<'a>),
    LuaLabelStat(LuaLabelStat<'a>),
    LuaEmptyStat(LuaEmptyStat<'a>),
    LuaGlobalStat(LuaGlobalStat<'a>),
    LuaElseIfClauseStat(LuaElseIfClauseStat<'a>),
    LuaElseClauseStat(LuaElseClauseStat<'a>),
    LuaLocalName(LuaLocalName<'a>),
    LuaLocalAttribute(LuaLocalAttribute<'a>),
    LuaParamList(LuaParamList<'a>),
    LuaParamName(LuaParamName<'a>),
    LuaCallArgList(LuaCallArgList<'a>),
    LuaTableField(LuaTableField<'a>),
    LuaComment(LuaComment<'a>),
    LuaCallExpr(LuaCallExpr<'a>),
    LuaTableExpr(LuaTableExpr<'a>),
    LuaLiteralExpr(LuaLiteralExpr<'a>),
    LuaBinaryExpr(LuaBinaryExpr<'a>),
    LuaUnaryExpr(LuaUnaryExpr<'a>),
    LuaClosureExpr(LuaClosureExpr<'a>),
    LuaParenExpr(LuaParenExpr<'a>),
    LuaNameExpr(LuaNameExpr<'a>),
    LuaIndexExpr(LuaIndexExpr<'a>),
}

impl<'a> LuaAstNode<'a> for LuaAst<'a> {
    open spec fn spec_syntax(&self) -> LuaSyntaxNode<'a> {
        match self {
            LuaAst::LuaChunk(it) => it.spec_syntax(),
            LuaAst::LuaBlock(it) => it.spec_syntax(),
            LuaAst::LuaLocalStat(it) => it.spec_syntax(),
            LuaAst::LuaAssignStat(it) => it.spec_syntax(),
            LuaAst::LuaCallExprStat(it) => it.spec_syntax(),
            LuaAst::LuaFuncStat(it) => it.spec_syntax(),
            LuaAst::LuaLocalFuncStat(it) => it.spec_syntax(),
            LuaAst::LuaIfStat(it) => it.spec_syntax(),
            LuaAst::LuaWhileStat(it) => it.spec_syntax(),
            LuaAst::LuaDoStat(it) => it.spec_syntax(),
            LuaAst::LuaForStat(it) => it.spec_syntax(),
            LuaAst::LuaForRangeStat(it) => it.spec_syntax(),
            LuaAst::LuaRepeatStat(it) => it.spec_syntax(),
            LuaAst::LuaReturnStat(it) => it.spec_syntax(),
            LuaAst::LuaBreakStat(it) => it.spec_syntax(),
            LuaAst::LuaGotoStat(it) => it.spec_syntax(),
            LuaAst::LuaLabelStat(it) => it.spec_syntax(),
            LuaAst::LuaEmptyStat(it) => it.spec_syntax(),
            LuaAst::LuaGlobalStat(it) => it.spec_syntax(),
            LuaAst::LuaElseIfClauseStat(it) => it.spec_syntax(),
            LuaAst::LuaElseClauseStat(it) => it.spec_syntax(),
            LuaAst::LuaLocalName(it) => it.spec_syntax(),
            LuaAst::LuaLocalAttribute(it) => it.spec_syntax(),
            LuaAst::LuaParamList(it) => it.spec_syntax(),
            LuaAst::LuaParamName(it) => it.spec_syntax(),
            LuaAst::LuaCallArgList(it) => it.spec_syntax(),
            LuaAst::LuaTableField(it) => it.spec_syntax(),
            LuaAst::LuaComment(it) => it.spec_syntax(),
            LuaAst::LuaCallExpr(it) => it.spec_syntax(),
            LuaAst::LuaTableExpr(it) => it.spec_syntax(),
            LuaAst::LuaLiteralExpr(it) => it.spec_syntax(),
            LuaAst::LuaBinaryExpr(it) => it.spec_syntax(),
            LuaAst::LuaUnaryExpr(it) => it.spec_syntax(),
            LuaAst::LuaClosureExpr(it) => it.spec_syntax(),
            LuaAst::LuaParenExpr(it) => it.spec_syntax(),
            LuaAst::LuaNameExpr(it) => it.spec_syntax(),
            LuaAst::LuaIndexExpr(it) => it.spec_syntax(),
        }
    }

    open spec fn spec_can_cast(kind: LuaSyntaxKind) -> bool {
        kind == LuaSyntaxKind::Chunk
            || kind == LuaSyntaxKind::Block
            || kind == LuaSyntaxKind::LocalStat
            || kind == LuaSyntaxKind::AssignStat
            || kind == LuaSyntaxKind::CallExprStat
            || kind == LuaSyntaxKind::FuncStat
            || kind == LuaSyntaxKind::LocalFuncStat
            || kind == LuaSyntaxKind::IfStat
            || kind == LuaSyntaxKind::WhileStat
            || kind == LuaSyntaxKind::DoStat
            || kind == LuaSyntaxKind::ForStat
            || kind == LuaSyntaxKind::ForRangeStat
            || kind == LuaSyntaxKind::RepeatStat
            || kind == LuaSyntaxKind::ReturnStat
            || kind == LuaSyntaxKind::BreakStat
            || kind == LuaSyntaxKind::GotoStat
            || kind == LuaSyntaxKind::LabelStat
            || kind == LuaSyntaxKind::EmptyStat
            || kind == LuaSyntaxKind::GlobalStat
            || kind == LuaSyntaxKind::ElseIfClauseStat
            || kind == LuaSyntaxKind::ElseClauseStat
            || kind == LuaSyntaxKind::LocalName
            || kind == LuaSyntaxKind::Attribute
            || kind == LuaSyntaxKind::ParamList
            || kind == LuaSyntaxKind::ParamName
            || kind == LuaSyntaxKind::CallArgList
            || kind == LuaSyntaxKind::TableFieldAssign
            || kind == LuaSyntaxKind::TableFieldValue
            || kind == LuaSyntaxKind::Comment
            || kind == LuaSyntaxKind::CallExpr
            || kind == LuaSyntaxKind::AssertCallExpr
            || kind == LuaSyntaxKind::ErrorCallExpr
            || kind == LuaSyntaxKind::RequireCallExpr
            || kind == LuaSyntaxKind::TypeCallExpr
            || kind == LuaSyntaxKind::SetmetatableCallExpr
            || kind == LuaSyntaxKind::TableArrayExpr
            || kind == LuaSyntaxKind::TableObjectExpr
            || kind == LuaSyntaxKind::TableEmptyExpr
            || kind == LuaSyntaxKind::LiteralExpr
            || kind == LuaSyntaxKind::BinaryExpr
            || kind == LuaSyntaxKind::UnaryExpr
            || kind == LuaSyntaxKind::ClosureExpr
            || kind == LuaSyntaxKind::ParenExpr
            || kind == LuaSyntaxKind::NameExpr
            || kind == LuaSyntaxKind::IndexExpr
    }

    open spec fn spec_cast_ok(kind: LuaSyntaxKind) -> bool {
        Self::spec_can_cast(kind)
    }

    fn syntax(&self) -> (r: &LuaSyntaxNode<'a>) {
        match self {
            LuaAst::LuaChunk(it) => it.syntax(),
            LuaAst::LuaBlock(it) => it.syntax(),
            LuaAst::LuaLocalStat(it) => it.syntax(),
            LuaAst::LuaAssignStat(it) => it.syntax(),
            LuaAst::LuaCallExprStat(it) => it.syntax(),
            LuaAst::LuaFuncStat(it) => it.syntax(),
            LuaAst::LuaLocalFuncStat(it) => it.syntax(),
            LuaAst::LuaIfStat(it) => it.syntax(),
            LuaAst::LuaWhileStat(it) => it.syntax(),
            LuaAst::LuaDoStat(it) => it.syntax(),
            LuaAst::LuaForStat(it) => it.syntax(),
            LuaAst::LuaForRangeStat(it) => it.syntax(),
            LuaAst::LuaRepeatStat(it) => it.syntax(),
            LuaAst::LuaReturnStat(it) => it.syntax(),
            LuaAst::LuaBreakStat(it) => it.syntax(),
            LuaAst::LuaGotoStat(it) => it.syntax(),
            LuaAst::LuaLabelStat(it) => it.syntax(),
            LuaAst::LuaEmptyStat(it) => it.syntax(),
            LuaAst::LuaGlobalStat(it) => it.syntax(),
            LuaAst::LuaElseIfClauseStat(it) => it.syntax(),
            LuaAst::LuaElseClauseStat(it) => it.syntax(),
            LuaAst::LuaLocalName(it) => it.syntax(),
            LuaAst::LuaLocalAttribute(it) => it.syntax(),
            LuaAst::LuaParamList(it) => it.syntax(),
            LuaAst::LuaParamName(it) => it.syntax(),
            LuaAst::LuaCallArgList(it) => it.syntax(),
            LuaAst::LuaTableField(it) => it.syntax(),
            LuaAst::LuaComment(it) => it.syntax(),
            LuaAst::LuaCallExpr(it) => it.syntax(),
            LuaAst::LuaTableExpr(it) => it.syntax(),
            LuaAst::LuaLiteralExpr(it) => it.syntax(),
            LuaAst::LuaBinaryExpr(it) => it.syntax(),
            LuaAst::LuaUnaryExpr(it) => it.syntax(),
            LuaAst::LuaClosureExpr(it) => it.syntax(),
            LuaAst::LuaParenExpr(it) => it.syntax(),
            LuaAst::LuaNameExpr(it) => it.syntax(),
            LuaAst::LuaIndexExpr(it) => it.syntax(),
        }
    }

    fn can_cast(kind: LuaSyntaxKind) -> (b: bool) {
        kind == LuaSyntaxKind::Chunk
            || kind == LuaSyntaxKind::Block
            || kind == LuaSyntaxKind::LocalStat
            || kind == LuaSyntaxKind::AssignStat
            || kind == LuaSyntaxKind::CallExprStat
            || kind == LuaSyntaxKind::FuncStat
            || kind == LuaSyntaxKind::LocalFuncStat
            || kind == LuaSyntaxKind::IfStat
            || kind == LuaSyntaxKind::WhileStat
            || kind == LuaSyntaxKind::DoStat
            || kind == LuaSyntaxKind::ForStat
            || kind == LuaSyntaxKind::ForRangeStat
            || kind == LuaSyntaxKind::RepeatStat
            || kind == LuaSyntaxKind::ReturnStat
            || kind == LuaSyntaxKind::BreakStat
            || kind == LuaSyntaxKind::GotoStat
            || kind == LuaSyntaxKind::LabelStat
            || kind == LuaSyntaxKind::EmptyStat
            || kind == LuaSyntaxKind::GlobalStat
            || kind == LuaSyntaxKind::ElseIfClauseStat
            || kind == LuaSyntaxKind::ElseClauseStat
            || kind == LuaSyntaxKind::LocalName
            || kind == LuaSyntaxKind::Attribute
            || kind == LuaSyntaxKind::ParamList
            || kind == LuaSyntaxKind::ParamName
            || kind == LuaSyntaxKind::CallArgList
            || kind == LuaSyntaxKind::TableFieldAssign
            || kind == LuaSyntaxKind::TableFieldValue
            || kind == LuaSyntaxKind::Comment
            || kind == LuaSyntaxKind::CallExpr
            || kind == LuaSyntaxKind::AssertCallExpr
            || kind == LuaSyntaxKind::ErrorCallExpr
            || kind == LuaSyntaxKind::RequireCallExpr
            || kind == LuaSyntaxKind::TypeCallExpr
            || kind == LuaSyntaxKind::SetmetatableCallExpr
            || kind == LuaSyntaxKind::TableArrayExpr
            || kind == LuaSyntaxKind::TableObjectExpr
            || kind == LuaSyntaxKind::TableEmptyExpr
            || kind == LuaSyntaxKind::LiteralExpr
            || kind == LuaSyntaxKind::BinaryExpr
            || kind == LuaSyntaxKind::UnaryExpr
            || kind == LuaSyntaxKind::ClosureExpr
            || kind == LuaSyntaxKind::ParenExpr
            || kind == LuaSyntaxKind::NameExpr
            || kind == LuaSyntaxKind::IndexExpr
    }

    fn cast(syntax: LuaSyntaxNode<'a>) -> (r: Option<Self>) {
        match syntax.kind() {
            LuaSyntaxKind::Chunk => match LuaChunk::cast(syntax) {
                Some(it) => Some(LuaAst::LuaChunk(it)),
                None => None,
            },
            LuaSyntaxKind::Block => match LuaBlock::cast(syntax) {
                Some(it) => Some(LuaAst::LuaBlock(it)),
                None => None,
            },
            LuaSyntaxKind::LocalStat => match LuaLocalStat::cast(syntax) {
                Some(it) => Some(LuaAst::LuaLocalStat(it)),
                None => None,
            },
            LuaSyntaxKind::AssignStat => match LuaAssignStat::cast(syntax) {
                Some(it) => Some(LuaAst::LuaAssignStat(it)),
                None => None,
            },
            LuaSyntaxKind::CallExprStat => match LuaCallExprStat::cast(syntax) {
                Some(it) => Some(LuaAst::LuaCallExprStat(it)),
                None => None,
            },
            LuaSyntaxKind::FuncStat => match LuaFuncStat::cast(syntax) {
                Some(it) => Some(LuaAst::LuaFuncStat(it)),
                None => None,
            },
            LuaSyntaxKind::LocalFuncStat => match LuaLocalFuncStat::cast(syntax) {
                Some(it) => Some(LuaAst::LuaLocalFuncStat(it)),
                None => None,
            },
            LuaSyntaxKind::IfStat => match LuaIfStat::cast(syntax) {
                Some(it) => Some(LuaAst::LuaIfStat(it)),
                None => None,
            },
            LuaSyntaxKind::WhileStat => match LuaWhileStat::cast(syntax) {
                Some(it) => Some(LuaAst::LuaWhileStat(it)),
                None => None,
            },
            LuaSyntaxKind::DoStat => match LuaDoStat::cast(syntax) {
                Some(it) => Some(LuaAst::LuaDoStat(it)),
                None => None,
            },
            LuaSyntaxKind::ForStat => match LuaForStat::cast(syntax) {
                Some(it) => Some(LuaAst::LuaForStat(it)),
                None => None,
            },
            LuaSyntaxKind::ForRangeStat => match LuaForRangeStat::cast(syntax) {
                Some(it) => Some(LuaAst::LuaForRangeStat(it)),
                None => None,
            },
            LuaSyntaxKind::RepeatStat => match LuaRepeatStat::cast(syntax) {
                Some(it) => Some(LuaAst::LuaRepeatStat(it)),
                None => None,
            },
            LuaSyntaxKind::ReturnStat => match LuaReturnStat::cast(syntax) {
                Some(it) => Some(LuaAst::LuaReturnStat(it)),
                None => None,
            },
            LuaSyntaxKind::BreakStat => match LuaBreakStat::cast(syntax) {
                Some(it) => Some(LuaAst::LuaBreakStat(it)),
                None => None,
            },
            LuaSyntaxKind::GotoStat => match LuaGotoStat::cast(syntax) {
                Some(it) => Some(LuaAst::LuaGotoStat(it)),
                None => None,
            },
            LuaSyntaxKind::LabelStat => match LuaLabelStat::cast(syntax) {
                Some(it) => Some(LuaAst::LuaLabelStat(it)),
                None => None,
            },
            LuaSyntaxKind::EmptyStat => match LuaEmptyStat::cast(syntax) {
                Some(it) => Some(LuaAst::LuaEmptyStat(it)),
                None => None,
            },
            LuaSyntaxKind::GlobalStat => match LuaGlobalStat::cast(syntax) {
                Some(it) => Some(LuaAst::LuaGlobalStat(it)),
                None => None,
            },
            LuaSyntaxKind::ElseIfClauseStat => match LuaElseIfClauseStat::cast(syntax) {
                Some(it) => Some(LuaAst::LuaElseIfClauseStat(it)),
                None => None,
            },
            LuaSyntaxKind::ElseClauseStat => match LuaElseClauseStat::cast(syntax) {
                Some(it) => Some(LuaAst::LuaElseClauseStat(it)),
                None => None,
            },
            LuaSyntaxKind::LocalName => match LuaLocalName::cast(syntax) {
                Some(it) => Some(LuaAst::LuaLocalName(it)),
                None => None,
            },
            LuaSyntaxKind::Attribute => match LuaLocalAttribute::cast(syntax) {
                Some(it) => Some(LuaAst::LuaLocalAttribute(it)),
                None => None,
            },
            LuaSyntaxKind::ParamList => match LuaParamList::cast(syntax) {
                Some(it) => Some(LuaAst::LuaParamList(it)),
                None => None,
            },
            LuaSyntaxKind::ParamName => match LuaParamName::cast(syntax) {
                Some(it) => Some(LuaAst::LuaParamName(it)),
                None => None,
            },
            LuaSyntaxKind::CallArgList => match LuaCallArgList::cast(syntax) {
                Some(it) => Some(LuaAst::LuaCallArgList(it)),
                None => None,
            },
            LuaSyntaxKind::TableFieldAssign | LuaSyntaxKind::TableFieldValue => match LuaTableField::cast(syntax) {
                Some(it) => Some(LuaAst::LuaTableField(it)),
                None => None,
            },
            LuaSyntaxKind::Comment => match LuaComment::cast(syntax) {
                Some(it) => Some(LuaAst::LuaComment(it)),
                None => None,
            },
            LuaSyntaxKind::CallExpr | LuaSyntaxKind::AssertCallExpr | LuaSyntaxKind::ErrorCallExpr | LuaSyntaxKind::RequireCallExpr | LuaSyntaxKind::TypeCallExpr | LuaSyntaxKind::SetmetatableCallExpr => match LuaCallExpr::cast(syntax) {
                Some(it) => Some(LuaAst::LuaCallExpr(it)),
                None => None,
            },
            LuaSyntaxKind::TableArrayExpr | LuaSyntaxKind::TableObjectExpr | LuaSyntaxKind::TableEmptyExpr => match LuaTableExpr::cast(syntax) {
                Some(it) => Some(LuaAst::LuaTableExpr(it)),
                None => None,
            },
            LuaSyntaxKind::LiteralExpr => match LuaLiteralExpr::cast(syntax) {
                Some(it) => Some(LuaAst::LuaLiteralExpr(it)),
                None => None,
            },
            LuaSyntaxKind::BinaryExpr => match LuaBinaryExpr::cast(syntax) {
                Some(it) => Some(LuaAst::LuaBinaryExpr(it)),
                None => None,
            },
            LuaSyntaxKind::UnaryExpr => match LuaUnaryExpr::cast(syntax) {
                Some(it) => Some(LuaAst::LuaUnaryExpr(it)),
                None => None,
            },
            LuaSyntaxKind::ClosureExpr => match LuaClosureExpr::cast(syntax) {
                Some(it) => Some(LuaAst::LuaClosureExpr(it)),
                None => None,
            },
            LuaSyntaxKind::ParenExpr => match LuaParenExpr::cast(syntax) {
                Some(it) => Some(LuaAst::LuaParenExpr(it)),
                None => None,
            },
            LuaSyntaxKind::NameExpr => match LuaNameExpr::cast(syntax) {
                Some(it) => Some(LuaAst::LuaNameExpr(it)),
                None => None,
            },
            LuaSyntaxKind::IndexExpr => match LuaIndexExpr::cast(syntax) {
                Some(it) => Some(LuaAst::LuaIndexExpr(it)),
                None => None,
            },
            _ => None,
        }
    }
}

/// A whole text.
#[derive(Debug, Clone, Copy)]
pub struct LuaChunk<'a> {
    syntax: LuaSyntaxNode<'a>,
}

impl<'a> LuaAstNode<'a> for LuaChunk<'a> {
    closed spec fn spec_syntax(&self) -> LuaSyntaxNode<'a> {
        self.syntax
    }

    open spec fn spec_can_cast(kind: LuaSyntaxKind) -> bool {
        kind == LuaSyntaxKind::Chunk
    }

    open spec fn spec_cast_ok(kind: LuaSyntaxKind) -> bool {
        Self::spec_can_cast(kind)
    }

    fn syntax(&self) -> (r: &LuaSyntaxNode<'a>) {
        &self.syntax
    }

    fn can_cast(kind: LuaSyntaxKind) -> (b: bool) {
        kind == LuaSyntaxKind::Chunk
    }

    fn cast(syntax: LuaSyntaxNode<'a>) -> (r: Option<Self>) {
        if Self::can_cast(syntax.kind()) {
            Some(LuaChunk { syntax })
        } else {
            None
        }
    }
}

impl<'a> LuaChunk<'a> {
    pub fn get_block(&self) -> (r: Option<LuaBlock<'a>>)
        ensures
            opt_node_is(r, self.spec_syntax(), first_child_id(self.spec_syntax(), node_pred::<LuaBlock<'a>>())),
    {
        child_of::<LuaBlock<'a>>(self.syntax)
    }
}

/// A block of statements.
#[derive(Debug, Clone, Copy)]
pub struct LuaBlock<'a> {
    syntax: LuaSyntaxNode<'a>,
}

impl<'a> LuaAstNode<'a> for LuaBlock<'a> {
    closed spec fn spec_syntax(&self) -> LuaSyntaxNode<'a> {
        self.syntax
    }

    open spec fn spec_can_cast(kind: LuaSyntaxKind) -> bool {
        kind == LuaSyntaxKind::Block
    }

    open spec fn spec_cast_ok(kind: LuaSyntaxKind) -> bool {
        Self::spec_can_cast(kind)
    }

    fn syntax(&self) -> (r: &LuaSyntaxNode<'a>) {
        &self.syntax
    }

    fn can_cast(kind: LuaSyntaxKind) -> (b: bool) {
        kind == LuaSyntaxKind::Block
    }

    fn cast(syntax: LuaSyntaxNode<'a>) -> (r: Option<Self>) {
        if Self::can_cast(syntax.kind()) {
            Some(LuaBlock { syntax })
        } else {
            None
        }
    }
}

impl<'a> LuaBlock<'a> {
    pub fn get_stats(&self) -> (r: Vec<LuaStat<'a>>)
        ensures
            nodes_are(r@, self.spec_syntax(), child_ids(self.spec_syntax(), node_pred::<LuaStat<'a>>())),
    {
        children_of::<LuaStat<'a>>(self.syntax)
    }
}

/// A statement, of any kind.
#[derive(Debug, Clone, Copy)]
pub enum LuaStat<'a> {
    LocalStat(LuaLocalStat<'a>),
    AssignStat(LuaAssignStat<'a>),
    CallExprStat(LuaCallExprStat<'a>),
    FuncStat(LuaFuncStat<'a>),
    LocalFuncStat(LuaLocalFuncStat<'a>),
    IfStat(LuaIfStat<'a>),
    WhileStat(LuaWhileStat<'a>),
    DoStat(LuaDoStat<'a>),
    ForStat(LuaForStat<'a>),
    ForRangeStat(LuaForRangeStat<'a>),
    RepeatStat(LuaRepeatStat<'a>),
    ReturnStat(LuaReturnStat<'a>),
    BreakStat(LuaBreakStat<'a>),
    GotoStat(LuaGotoStat<'a>),
    LabelStat(LuaLabelStat<'a>),
    EmptyStat(LuaEmptyStat<'a>),
    GlobalStat(LuaGlobalStat<'a>),
}

impl<'a> LuaAstNode<'a> for LuaStat<'a> {
    open spec fn spec_syntax(&self) -> LuaSyntaxNode<'a> {
        match self {
            LuaStat::LocalStat(it) => it.spec_syntax(),
            LuaStat::AssignStat(it) => it.spec_syntax(),
            LuaStat::CallExprStat(it) => it.spec_syntax(),
            LuaStat::FuncStat(it) => it.spec_syntax(),
            LuaStat::LocalFuncStat(it) => it.spec_syntax(),
            LuaStat::IfStat(it) => it.spec_syntax(),
            LuaStat::WhileStat(it) => it.spec_syntax(),
            LuaStat::DoStat(it) => it.spec_syntax(),
            LuaStat::ForStat(it) => it.spec_syntax(),
            LuaStat::ForRangeStat(it) => it.spec_syntax(),
            LuaStat::RepeatStat(it) => it.spec_syntax(),
            LuaStat::ReturnStat(it) => it.spec_syntax(),
            LuaStat::BreakStat(it) => it.spec_syntax(),
            LuaStat::GotoStat(it) => it.spec_syntax(),
            LuaStat::LabelStat(it) => it.spec_syntax(),
            LuaStat::EmptyStat(it) => it.spec_syntax(),
            LuaStat::GlobalStat(it) => it.spec_syntax(),
        }
    }

    open spec fn spec_can_cast(kind: LuaSyntaxKind) -> bool {
        kind == LuaSyntaxKind::LocalStat
            || kind == LuaSyntaxKind::AssignStat
            || kind == LuaSyntaxKind::CallExprStat
            || kind == LuaSyntaxKind::FuncStat
            || kind == LuaSyntaxKind::LocalFuncStat
            || kind == LuaSyntaxKind::IfStat
            || kind == LuaSyntaxKind::WhileStat
            || kind == LuaSyntaxKind::DoStat
            || kind == LuaSyntaxKind::ForStat
            || kind == LuaSyntaxKind::ForRangeStat
            || kind == LuaSyntaxKind::RepeatStat
            || kind == LuaSyntaxKind::ReturnStat
            || kind == LuaSyntaxKind::BreakStat
            || kind == LuaSyntaxKind::GotoStat
            || kind == LuaSyntaxKind::LabelStat
            || kind == LuaSyntaxKind::EmptyStat
            || kind == LuaSyntaxKind::GlobalStat
    }

    open spec fn spec_cast_ok(kind: LuaSyntaxKind) -> bool {
        Self::spec_can_cast(kind)
    }

    fn syntax(&self) -> (r: &LuaSyntaxNode<'a>) {
        match self {
            LuaStat::LocalStat(it) => it.syntax(),
            LuaStat::AssignStat(it) => it.syntax(),
            LuaStat::CallExprStat(it) => it.syntax(),
            LuaStat::FuncStat(it) => it.syntax(),
            LuaStat::LocalFuncStat(it) => it.syntax(),
            LuaStat::IfStat(it) => it.syntax(),
            LuaStat::WhileStat(it) => it.syntax(),
            LuaStat::DoStat(it) => it.syntax(),
            LuaStat::ForStat(it) => it.syntax(),
            LuaStat::ForRangeStat(it) => it.syntax(),
            LuaStat::RepeatStat(it) => it.syntax(),
            LuaStat::ReturnStat(it) => it.syntax(),
            LuaStat::BreakStat(it) => it.syntax(),
            LuaStat::GotoStat(it) => it.syntax(),
            LuaStat::LabelStat(it) => it.syntax(),
            LuaStat::EmptyStat(it) => it.syntax(),
            LuaStat::GlobalStat(it) => it.syntax(),
        }
    }

    fn can_cast(kind: LuaSyntaxKind) -> (b: bool) {
        kind == LuaSyntaxKind::LocalStat
            || kind == LuaSyntaxKind::AssignStat
            || kind == LuaSyntaxKind::CallExprStat
            || kind == LuaSyntaxKind::FuncStat
            || kind == LuaSyntaxKind::LocalFuncStat
            || kind == LuaSyntaxKind::IfStat
            || kind == LuaSyntaxKind::WhileStat
            || kind == LuaSyntaxKind::DoStat
            || kind == LuaSyntaxKind::ForStat
            || kind == LuaSyntaxKind::ForRangeStat
            || kind == LuaSyntaxKind::RepeatStat
            || kind == LuaSyntaxKind::ReturnStat
            || kind == LuaSyntaxKind::BreakStat
            || kind == LuaSyntaxKind::GotoStat
            || kind == LuaSyntaxKind::LabelStat
            || kind == LuaSyntaxKind::EmptyStat
            || kind == LuaSyntaxKind::GlobalStat
    }

    fn cast(syntax: LuaSyntaxNode<'a>) -> (r: Option<Self>) {
        match syntax.kind() {
            LuaSyntaxKind::LocalStat => match LuaLocalStat::cast(syntax) {
                Some(it) => Some(LuaStat::LocalStat(it)),
                None => None,
            },
            LuaSyntaxKind::AssignStat => match LuaAssignStat::cast(syntax) {
                Some(it) => Some(LuaStat::AssignStat(it)),
                None => None,
            },
            LuaSyntaxKind::CallExprStat => match LuaCallExprStat::cast(syntax) {
                Some(it) => Some(LuaStat::CallExprStat(it)),
                None => None,
            },
            LuaSyntaxKind::FuncStat => match LuaFuncStat::cast(syntax) {
                Some(it) => Some(LuaStat::FuncStat(it)),
                None => None,
            },
            LuaSyntaxKind::LocalFuncStat => match LuaLocalFuncStat::cast(syntax) {
                Some(it) => Some(LuaStat::LocalFuncStat(it)),
                None => None,
            },
            LuaSyntaxKind::IfStat => match LuaIfStat::cast(syntax) {
                Some(it) => Some(LuaStat::IfStat(it)),
                None => None,
            },
            LuaSyntaxKind::WhileStat => match LuaWhileStat::cast(syntax) {
                Some(it) => Some(LuaStat::WhileStat(it)),
                None => None,
            },
            LuaSyntaxKind::DoStat => match LuaDoStat::cast(syntax) {
                Some(it) => Some(LuaStat::DoStat(it)),
                None => None,
            },
            LuaSyntaxKind::ForStat => match LuaForStat::cast(syntax) {
                Some(it) => Some(LuaStat::ForStat(it)),
                None => None,
            },
            LuaSyntaxKind::ForRangeStat => match LuaForRangeStat::cast(syntax) {
                Some(it) => Some(LuaStat::ForRangeStat(it)),
                None => None,
            },
            LuaSyntaxKind::RepeatStat => match LuaRepeatStat::cast(syntax) {
                Some(it) => Some(LuaStat::RepeatStat(it)),
                None => None,
            },
            LuaSyntaxKind::ReturnStat => match LuaReturnStat::cast(syntax) {
                Some(it) => Some(LuaStat::ReturnStat(it)),
                None => None,
            },
            LuaSyntaxKind::BreakStat => match LuaBreakStat::cast(syntax) {
                Some(it) => Some(LuaStat::BreakStat(it)),
                None => None,
            },
            LuaSyntaxKind::GotoStat => match LuaGotoStat::cast(syntax) {
                Some(it) => Some(LuaStat::GotoStat(it)),
                None => None,
            },
            LuaSyntaxKind::LabelStat => match LuaLabelStat::cast(syntax) {
                Some(it) => Some(LuaStat::LabelStat(it)),
                None => None,
            },
            LuaSyntaxKind::EmptyStat => match LuaEmptyStat::cast(syntax) {
                Some(it) => Some(LuaStat::EmptyStat(it)),
                None => None,
            },
            LuaSyntaxKind::GlobalStat => match LuaGlobalStat::cast(syntax) {
                Some(it) => Some(LuaStat::GlobalStat(it)),
                None => None,
            },
            _ => None,
        }
    }
}

/// `local names [= exprs]`.
#[derive(Debug, Clone, Copy)]
pub struct LuaLocalStat<'a> {
    syntax: LuaSyntaxNode<'a>,
}

impl<'a> LuaAstNode<'a> for LuaLocalStat<'a> {
    closed spec fn spec_syntax(&self) -> LuaSyntaxNode<'a> {
        self.syntax
    }

    open spec fn spec_can_cast(kind: LuaSyntaxKind) -> bool {
        kind == LuaSyntaxKind::LocalStat
    }

    open spec fn spec_cast_ok(kind: LuaSyntaxKind) -> bool {
        Self::spec_can_cast(kind)
    }

    fn syntax(&self) -> (r: &LuaSyntaxNode<'a>) {
        &self.syntax
    }

    fn can_cast(kind: LuaSyntaxKind) -> (b: bool) {
        kind == LuaSyntaxKind::LocalStat
    }

    fn cast(syntax: LuaSyntaxNode<'a>) -> (r: Option<Self>) {
        if Self::can_cast(syntax.kind()) {
            Some(LuaLocalStat { syntax })
        } else {
            None
        }
    }
}

impl<'a> LuaLocalStat<'a> {
    pub fn get_local_name_list(&self) -> (r: Vec<LuaLocalName<'a>>)
        ensures
            nodes_are(r@, self.spec_syntax(), child_ids(self.spec_syntax(), node_pred::<LuaLocalName<'a>>())),
    {
        children_of::<LuaLocalName<'a>>(self.syntax)
    }

    pub fn get_value_exprs(&self) -> (r: Vec<LuaExpr<'a>>)
        ensures
            nodes_are(r@, self.spec_syntax(), child_ids(self.spec_syntax(), node_pred::<LuaExpr<'a>>())),
    {
        children_of::<LuaExpr<'a>>(self.syntax)
    }

    pub fn get_attrib(&self) -> (r: Option<LuaLocalAttribute<'a>>)
        ensures
            opt_node_is(r, self.spec_syntax(), first_child_id(self.spec_syntax(), node_pred::<LuaLocalAttribute<'a>>())),
    {
        child_of::<LuaLocalAttribute<'a>>(self.syntax)
    }
}

/// A name declared by `local` or `global`, with its attribute.
#[derive(Debug, Clone, Copy)]
pub struct LuaLocalName<'a> {
    syntax: LuaSyntaxNode<'a>,
}

impl<'a> LuaAstNode<'a> for LuaLocalName<'a> {
    closed spec fn spec_syntax(&self) -> LuaSyntaxNode<'a> {
        self.syntax
    }

    open spec fn spec_can_cast(kind: LuaSyntaxKind) -> bool {
        kind == LuaSyntaxKind::LocalName
    }

    open spec fn spec_cast_ok(kind: LuaSyntaxKind) -> bool {
        Self::spec_can_cast(kind)
    }

    fn syntax(&self) -> (r: &LuaSyntaxNode<'a>) {
        &self.syntax
    }

    fn can_cast(kind: LuaSyntaxKind) -> (b: bool) {
        kind == LuaSyntaxKind::LocalName
    }

    fn cast(syntax: LuaSyntaxNode<'a>) -> (r: Option<Self>) {
        if Self::can_cast(syntax.kind()) {
            Some(LuaLocalName { syntax })
        } else {
            None
        }
    }
}

impl<'a> LuaLocalName<'a> {
    pub fn get_name_token(&self) -> (r: Option<LuaNameToken<'a>>)
        ensures
            opt_token_is(r, self.spec_syntax(), first_child_id(self.spec_syntax(), token_pred::<LuaNameToken<'a>>())),
    {
        token_of::<LuaNameToken<'a>>(self.syntax)
    }

    pub fn get_attrib(&self) -> (r: Option<LuaLocalAttribute<'a>>)
        ensures
            opt_node_is(r, self.spec_syntax(), first_child_id(self.spec_syntax(), node_pred::<LuaLocalAttribute<'a>>())),
    {
        child_of::<LuaLocalAttribute<'a>>(self.syntax)
    }
}

/// An attribute `<name>`.
#[derive(Debug, Clone, Copy)]
pub struct LuaLocalAttribute<'a> {
    syntax: LuaSyntaxNode<'a>,
}

impl<'a> LuaAstNode<'a> for LuaLocalAttribute<'a> {
    closed spec fn spec_syntax(&self) -> LuaSyntaxNode<'a> {
        self.syntax
    }

    open spec fn spec_can_cast(kind: LuaSyntaxKind) -> bool {
        kind == LuaSyntaxKind::Attribute
    }

    open spec fn spec_cast_ok(kind: LuaSyntaxKind) -> bool {
        Self::spec_can_cast(kind)
    }

    fn syntax(&self) -> (r: &LuaSyntaxNode<'a>) {
        &self.syntax
    }

    fn can_cast(kind: LuaSyntaxKind) -> (b: bool) {
        kind == LuaSyntaxKind::Attribute
    }

    fn cast(syntax: LuaSyntaxNode<'a>) -> (r: Option<Self>) {
        if Self::can_cast(syntax.kind()) {
            Some(LuaLocalAttribute { syntax })
        } else {
            None
        }
    }
}

impl<'a> LuaLocalAttribute<'a> {
    pub fn get_name_token(&self) -> (r: Option<LuaNameToken<'a>>)
        ensures
            opt_token_is(r, self.spec_syntax(), first_child_id(self.spec_syntax(), token_pred::<LuaNameToken<'a>>())),
    {
        token_of::<LuaNameToken<'a>>(self.syntax)
    }

    /// Whether the attribute is `<const>`.
    pub fn is_const(&self) -> (b: bool)
        ensures
            b == (first_token_text_in(*self.spec_syntax().spec_tree(), self.spec_syntax().spec_id(), token_pred::<LuaNameToken<'a>>()) == Some("const"@)),
    {
        self.name_is("const")
    }

    /// Whether the attribute is `<close>`.
    pub fn is_close(&self) -> (b: bool)
        ensures
            b == (first_token_text_in(*self.spec_syntax().spec_tree(), self.spec_syntax().spec_id(), token_pred::<LuaNameToken<'a>>()) == Some("close"@)),
    {
        self.name_is("close")
    }

    fn name_is(&self, lit: &str) -> (b: bool)
        ensures
            b == (first_token_text_in(*self.spec_syntax().spec_tree(), self.spec_syntax().spec_id(), token_pred::<LuaNameToken<'a>>()) == Some(lit@)),
    {
        match self.get_name_token() {
            Some(t) => vec_eq_str(t.syntax().text(), lit),
            None => false,
        }
    }
}

/// An assignment.
#[derive(Debug, Clone, Copy)]
pub struct LuaAssignStat<'a> {
    syntax: LuaSyntaxNode<'a>,
}

impl<'a> LuaAstNode<'a> for LuaAssignStat<'a> {
    closed spec fn spec_syntax(&self) -> LuaSyntaxNode<'a> {
        self.syntax
    }

    open spec fn spec_can_cast(kind: LuaSyntaxKind) -> bool {
        kind == LuaSyntaxKind::AssignStat
    }

    open spec fn spec_cast_ok(kind: LuaSyntaxKind) -> bool {
        Self::spec_can_cast(kind)
    }

    fn syntax(&self) -> (r: &LuaSyntaxNode<'a>) {
        &self.syntax
    }

    fn can_cast(kind: LuaSyntaxKind) -> (b: bool) {
        kind == LuaSyntaxKind::AssignStat
    }

    fn cast(syntax: LuaSyntaxNode<'a>) -> (r: Option<Self>) {
        if Self::can_cast(syntax.kind()) {
            Some(LuaAssignStat { syntax })
        } else {
            None
        }
    }
}

impl<'a> LuaAssignStat<'a> {
    pub fn get_exprs(&self) -> (r: Vec<LuaExpr<'a>>)
        ensures
            nodes_are(r@, self.spec_syntax(), child_ids(self.spec_syntax(), node_pred::<LuaExpr<'a>>())),
    {
        children_of::<LuaExpr<'a>>(self.syntax)
    }
}

/// A call used as a statement.
#[derive(Debug, Clone, Copy)]
pub struct LuaCallExprStat<'a> {
    syntax: LuaSyntaxNode<'a>,
}

impl<'a> LuaAstNode<'a> for LuaCallExprStat<'a> {
    closed spec fn spec_syntax(&self) -> LuaSyntaxNode<'a> {
        self.syntax
    }

    open spec fn spec_can_cast(kind: LuaSyntaxKind) -> bool {
        kind == LuaSyntaxKind::CallExprStat
    }

    open spec fn spec_cast_ok(kind: LuaSyntaxKind) -> bool {
        Self::spec_can_cast(kind)
    }

    fn syntax(&self) -> (r: &LuaSyntaxNode<'a>) {
        &self.syntax
    }

    fn can_cast(kind: LuaSyntaxKind) -> (b: bool) {
        kind == LuaSyntaxKind::CallExprStat
    }

    fn cast(syntax: LuaSyntaxNode<'a>) -> (r: Option<Self>) {
        if Self::can_cast(syntax.kind()) {
            Some(LuaCallExprStat { syntax })
        } else {
            None
        }
    }
}

impl<'a> LuaCallExprStat<'a> {
    pub fn get_call_expr(&self) -> (r: Option<LuaCallExpr<'a>>)
        ensures
            opt_node_is(r, self.spec_syntax(), first_child_id(self.spec_syntax(), node_pred::<LuaCallExpr<'a>>())),
    {
        child_of::<LuaCallExpr<'a>>(self.syntax)
    }
}

/// `function name body`.
#[derive(Debug, Clone, Copy)]
pub struct LuaFuncStat<'a> {
    syntax: LuaSyntaxNode<'a>,
}

impl<'a> LuaAstNode<'a> for LuaFuncStat<'a> {
    closed spec fn spec_syntax(&self) -> LuaSyntaxNode<'a> {
        self.syntax
    }

    open spec fn spec_can_cast(kind: LuaSyntaxKind) -> bool {
        kind == LuaSyntaxKind::FuncStat
    }

    open spec fn spec_cast_ok(kind: LuaSyntaxKind) -> bool {
        Self::spec_can_cast(kind)
    }

    fn syntax(&self) -> (r: &LuaSyntaxNode<'a>) {
        &self.syntax
    }

    fn can_cast(kind: LuaSyntaxKind) -> (b: bool) {
        kind == LuaSyntaxKind::FuncStat
    }

    fn cast(syntax: LuaSyntaxNode<'a>) -> (r: Option<Self>) {
        if Self::can_cast(syntax.kind()) {
            Some(LuaFuncStat { syntax })
        } else {
            None
        }
    }
}

impl<'a> LuaFuncStat<'a> {
    pub fn get_func_name(&self) -> (r: Option<LuaVarExpr<'a>>)
        ensures
            opt_node_is(r, self.spec_syntax(), first_child_id(self.spec_syntax(), node_pred::<LuaVarExpr<'a>>())),
    {
        child_of::<LuaVarExpr<'a>>(self.syntax)
    }

    pub fn get_closure(&self) -> (r: Option<LuaClosureExpr<'a>>)
        ensures
            opt_node_is(r, self.spec_syntax(), first_child_id(self.spec_syntax(), node_pred::<LuaClosureExpr<'a>>())),
    {
        child_of::<LuaClosureExpr<'a>>(self.syntax)
    }
}

/// `local function name body`.
#[derive(Debug, Clone, Copy)]
pub struct LuaLocalFuncStat<'a> {
    syntax: LuaSyntaxNode<'a>,
}

impl<'a> LuaAstNode<'a> for LuaLocalFuncStat<'a> {
    closed spec fn spec_syntax(&self) -> LuaSyntaxNode<'a> {
        self.syntax
    }

    open spec fn spec_can_cast(kind: LuaSyntaxKind) -> bool {
        kind == LuaSyntaxKind::LocalFuncStat
    }

    open spec fn spec_cast_ok(kind: LuaSyntaxKind) -> bool {
        Self::spec_can_cast(kind)
    }

    fn syntax(&self) -> (r: &LuaSyntaxNode<'a>) {
        &self.syntax
    }

    fn can_cast(kind: LuaSyntaxKind) -> (b: bool) {
        kind == LuaSyntaxKind::LocalFuncStat
    }

    fn cast(syntax: LuaSyntaxNode<'a>) -> (r: Option<Self>) {
        if Self::can_cast(syntax.kind()) {
            Some(LuaLocalFuncStat { syntax })
        } else {
            None
        }
    }
}

impl<'a> LuaLocalFuncStat<'a> {
    pub fn get_local_name(&self) -> (r: Option<LuaLocalName<'a>>)
        ensures
            opt_node_is(r, self.spec_syntax(), first_child_id(self.spec_syntax(), node_pred::<LuaLocalName<'a>>())),
    {
        child_of::<LuaLocalName<'a>>(self.syntax)
    }

    pub fn get_closure(&self) -> (r: Option<LuaClosureExpr<'a>>)
        ensures
            opt_node_is(r, self.spec_syntax(), first_child_id(self.spec_syntax(), node_pred::<LuaClosureExpr<'a>>())),
    {
        child_of::<LuaClosureExpr<'a>>(self.syntax)
    }
}

/// `if ... end`.
#[derive(Debug, Clone, Copy)]
pub struct LuaIfStat<'a> {
    syntax: LuaSyntaxNode<'a>,
}

impl<'a> LuaAstNode<'a> for LuaIfStat<'a> {
    closed spec fn spec_syntax(&self) -> LuaSyntaxNode<'a> {
        self.syntax
    }

    open spec fn spec_can_cast(kind: LuaSyntaxKind) -> bool {
        kind == LuaSyntaxKind::IfStat
    }

    open spec fn spec_cast_ok(kind: LuaSyntaxKind) -> bool {
        Self::spec_can_cast(kind)
    }

    fn syntax(&self) -> (r: &LuaSyntaxNode<'a>) {
        &self.syntax
    }

    fn can_cast(kind: LuaSyntaxKind) -> (b: bool) {
        kind == LuaSyntaxKind::IfStat
    }

    fn cast(syntax: LuaSyntaxNode<'a>) -> (r: Option<Self>) {
        if Self::can_cast(syntax.kind()) {
            Some(LuaIfStat { syntax })
        } else {
            None
        }
    }
}

impl<'a> LuaIfStat<'a> {
    pub fn get_condition_expr(&self) -> (r: Option<LuaExpr<'a>>)
        ensures
            opt_node_is(r, self.spec_syntax(), first_child_id(self.spec_syntax(), node_pred::<LuaExpr<'a>>())),
    {
        child_of::<LuaExpr<'a>>(self.syntax)
    }

    pub fn get_block(&self) -> (r: Option<LuaBlock<'a>>)
        ensures
            opt_node_is(r, self.spec_syntax(), first_child_id(self.spec_syntax(), node_pred::<LuaBlock<'a>>())),
    {
        child_of::<LuaBlock<'a>>(self.syntax)
    }

    pub fn get_else_if_clause_list(&self) -> (r: Vec<LuaElseIfClauseStat<'a>>)
        ensures
            nodes_are(r@, self.spec_syntax(), child_ids(self.spec_syntax(), node_pred::<LuaElseIfClauseStat<'a>>())),
    {
        children_of::<LuaElseIfClauseStat<'a>>(self.syntax)
    }

    pub fn get_else_clause(&self) -> (r: Option<LuaElseClauseStat<'a>>)
        ensures
            opt_node_is(r, self.spec_syntax(), first_child_id(self.spec_syntax(), node_pred::<LuaElseClauseStat<'a>>())),
    {
        child_of::<LuaElseClauseStat<'a>>(self.syntax)
    }
}

/// `elseif cond then block`.
#[derive(Debug, Clone, Copy)]
pub struct LuaElseIfClauseStat<'a> {
    syntax: LuaSyntaxNode<'a>,
}

impl<'a> LuaAstNode<'a> for LuaElseIfClauseStat<'a> {
    closed spec fn spec_syntax(&self) -> LuaSyntaxNode<'a> {
        self.syntax
    }

    open spec fn spec_can_cast(kind: LuaSyntaxKind) -> bool {
        kind == LuaSyntaxKind::ElseIfClauseStat
    }

    open spec fn spec_cast_ok(kind: LuaSyntaxKind) -> bool {
        Self::spec_can_cast(kind)
    }

    fn syntax(&self) -> (r: &LuaSyntaxNode<'a>) {
        &self.syntax
    }

    fn can_cast(kind: LuaSyntaxKind) -> (b: bool) {
        kind == LuaSyntaxKind::ElseIfClauseStat
    }

    fn cast(syntax: LuaSyntaxNode<'a>) -> (r: Option<Self>) {
        if Self::can_cast(syntax.kind()) {
            Some(LuaElseIfClauseStat { syntax })
        } else {
            None
        }
    }
}

impl<'a> LuaElseIfClauseStat<'a> {
    pub fn get_condition_expr(&self) -> (r: Option<LuaExpr<'a>>)
        ensures
            opt_node_is(r, self.spec_syntax(), first_child_id(self.spec_syntax(), node_pred::<LuaExpr<'a>>())),
    {
        child_of::<LuaExpr<'a>>(self.syntax)
    }

    pub fn get_block(&self) -> (r: Option<LuaBlock<'a>>)
        ensures
            opt_node_is(r, self.spec_syntax(), first_child_id(self.spec_syntax(), node_pred::<LuaBlock<'a>>())),
    {
        child_of::<LuaBlock<'a>>(self.syntax)
    }
}

/// `else block`.
#[derive(Debug, Clone, Copy)]
pub struct LuaElseClauseStat<'a> {
    syntax: LuaSyntaxNode<'a>,
}

impl<'a> LuaAstNode<'a> for LuaElseClauseStat<'a> {
    closed spec fn spec_syntax(&self) -> LuaSyntaxNode<'a> {
        self.syntax
    }

    open spec fn spec_can_cast(kind: LuaSyntaxKind) -> bool {
        kind == LuaSyntaxKind::ElseClauseStat
    }

    open spec fn spec_cast_ok(kind: LuaSyntaxKind) -> bool {
        Self::spec_can_cast(kind)
    }

    fn syntax(&self) -> (r: &LuaSyntaxNode<'a>) {
        &self.syntax
    }

    fn can_cast(kind: LuaSyntaxKind) -> (b: bool) {
        kind == LuaSyntaxKind::ElseClauseStat
    }

    fn cast(syntax: LuaSyntaxNode<'a>) -> (r: Option<Self>) {
        if Self::can_cast(syntax.kind()) {
            Some(LuaElseClauseStat { syntax })
        } else {
            None
        }
    }
}

impl<'a> LuaElseClauseStat<'a> {
    pub fn get_block(&self) -> (r: Option<LuaBlock<'a>>)
        ensures
            opt_node_is(r, self.spec_syntax(), first_child_id(self.spec_syntax(), node_pred::<LuaBlock<'a>>())),
    {
        child_of::<LuaBlock<'a>>(self.syntax)
    }
}

/// `while cond do block end`.
#[derive(Debug, Clone, Copy)]
pub struct LuaWhileStat<'a> {
    syntax: LuaSyntaxNode<'a>,
}

impl<'a> LuaAstNode<'a> for LuaWhileStat<'a> {
    closed spec fn spec_syntax(&self) -> LuaSyntaxNode<'a> {
        self.syntax
    }

    open spec fn spec_can_cast(kind: LuaSyntaxKind) -> bool {
        kind == LuaSyntaxKind::WhileStat
    }

    open spec fn spec_cast_ok(kind: LuaSyntaxKind) -> bool {
        Self::spec_can_cast(kind)
    }

    fn syntax(&self) -> (r: &LuaSyntaxNode<'a>) {
        &self.syntax
    }

    fn can_cast(kind: LuaSyntaxKind) -> (b: bool) {
        kind == LuaSyntaxKind::WhileStat
    }

    fn cast(syntax: LuaSyntaxNode<'a>) -> (r: Option<Self>) {
        if Self::can_cast(syntax.kind()) {
            Some(LuaWhileStat { syntax })
        } else {
            None
        }
    }
}

impl<'a> LuaWhileStat<'a> {
    pub fn get_condition_expr(&self) -> (r: Option<LuaExpr<'a>>)
        ensures
            opt_node_is(r, self.spec_syntax(), first_child_id(self.spec_syntax(), node_pred::<LuaExpr<'a>>())),
    {
        child_of::<LuaExpr<'a>>(self.syntax)
    }

    pub fn get_block(&self) -> (r: Option<LuaBlock<'a>>)
        ensures
            opt_node_is(r, self.spec_syntax(), first_child_id(self.spec_syntax(), node_pred::<LuaBlock<'a>>())),
    {
        child_of::<LuaBlock<'a>>(self.syntax)
    }
}

/// `do block end`.
#[derive(Debug, Clone, Copy)]
pub struct LuaDoStat<'a> {
    syntax: LuaSyntaxNode<'a>,
}

impl<'a> LuaAstNode<'a> for LuaDoStat<'a> {
    closed spec fn spec_syntax(&self) -> LuaSyntaxNode<'a> {
        self.syntax
    }

    open spec fn spec_can_cast(kind: LuaSyntaxKind) -> bool {
        kind == LuaSyntaxKind::DoStat
    }

    open spec fn spec_cast_ok(kind: LuaSyntaxKind) -> bool {
        Self::spec_can_cast(kind)
    }

    fn syntax(&self) -> (r: &LuaSyntaxNode<'a>) {
        &self.syntax
    }

    fn can_cast(kind: LuaSyntaxKind) -> (b: bool) {
        kind == LuaSyntaxKind::DoStat
    }

    fn cast(syntax: LuaSyntaxNode<'a>) -> (r: Option<Self>) {
        if Self::can_cast(syntax.kind()) {
            Some(LuaDoStat { syntax })
        } else {
            None
        }
    }
}

impl<'a> LuaDoStat<'a> {
    pub fn get_block(&self) -> (r: Option<LuaBlock<'a>>)
        ensures
            opt_node_is(r, self.spec_syntax(), first_child_id(self.spec_syntax(), node_pred::<LuaBlock<'a>>())),
    {
        child_of::<LuaBlock<'a>>(self.syntax)
    }
}

/// A numeric `for`.
#[derive(Debug, Clone, Copy)]
pub struct LuaForStat<'a> {
    syntax: LuaSyntaxNode<'a>,
}

impl<'a> LuaAstNode<'a> for LuaForStat<'a> {
    closed spec fn spec_syntax(&self) -> LuaSyntaxNode<'a> {
        self.syntax
    }

    open spec fn spec_can_cast(kind: LuaSyntaxKind) -> bool {
        kind == LuaSyntaxKind::ForStat
    }

    open spec fn spec_cast_ok(kind: LuaSyntaxKind) -> bool {
        Self::spec_can_cast(kind)
    }

    fn syntax(&self) -> (r: &LuaSyntaxNode<'a>) {
        &self.syntax
    }

    fn can_cast(kind: LuaSyntaxKind) -> (b: bool) {
        kind == LuaSyntaxKind::ForStat
    }

    fn cast(syntax: LuaSyntaxNode<'a>) -> (r: Option<Self>) {
        if Self::can_cast(syntax.kind()) {
            Some(LuaForStat { syntax })
        } else {
            None
        }
    }
}

impl<'a> LuaForStat<'a> {
    pub fn get_var_name(&self) -> (r: Option<LuaNameToken<'a>>)
        ensures
            opt_token_is(r, self.spec_syntax(), first_child_id(self.spec_syntax(), token_pred::<LuaNameToken<'a>>())),
    {
        token_of::<LuaNameToken<'a>>(self.syntax)
    }

    pub fn get_iter_expr(&self) -> (r: Vec<LuaExpr<'a>>)
        ensures
            nodes_are(r@, self.spec_syntax(), child_ids(self.spec_syntax(), node_pred::<LuaExpr<'a>>())),
    {
        children_of::<LuaExpr<'a>>(self.syntax)
    }

    pub fn get_block(&self) -> (r: Option<LuaBlock<'a>>)
        ensures
            opt_node_is(r, self.spec_syntax(), first_child_id(self.spec_syntax(), node_pred::<LuaBlock<'a>>())),
    {
        child_of::<LuaBlock<'a>>(self.syntax)
    }
}

/// A generic `for ... in`.
#[derive(Debug, Clone, Copy)]
pub struct LuaForRangeStat<'a> {
    syntax: LuaSyntaxNode<'a>,
}

impl<'a> LuaAstNode<'a> for LuaForRangeStat<'a> {
    closed spec fn spec_syntax(&self) -> LuaSyntaxNode<'a> {
        self.syntax
    }

    open spec fn spec_can_cast(kind: LuaSyntaxKind) -> bool {
        kind == LuaSyntaxKind::ForRangeStat
    }

    open spec fn spec_cast_ok(kind: LuaSyntaxKind) -> bool {
        Self::spec_can_cast(kind)
    }

    fn syntax(&self) -> (r: &LuaSyntaxNode<'a>) {
        &self.syntax
    }

    fn can_cast(kind: LuaSyntaxKind) -> (b: bool) {
        kind == LuaSyntaxKind::ForRangeStat
    }

    fn cast(syntax: LuaSyntaxNode<'a>) -> (r: Option<Self>) {
        if Self::can_cast(syntax.kind()) {
            Some(LuaForRangeStat { syntax })
        } else {
            None
        }
    }
}

impl<'a> LuaForRangeStat<'a> {
    pub fn get_var_name_list(&self) -> (r: Vec<LuaNameToken<'a>>)
        ensures
            tokens_are(r@, self.spec_syntax(), child_ids(self.spec_syntax(), token_pred::<LuaNameToken<'a>>())),
    {
        tokens_of::<LuaNameToken<'a>>(self.syntax)
    }

    pub fn get_expr_list(&self) -> (r: Vec<LuaExpr<'a>>)
        ensures
            nodes_are(r@, self.spec_syntax(), child_ids(self.spec_syntax(), node_pred::<LuaExpr<'a>>())),
    {
        children_of::<LuaExpr<'a>>(self.syntax)
    }

    pub fn get_block(&self) -> (r: Option<LuaBlock<'a>>)
        ensures
            opt_node_is(r, self.spec_syntax(), first_child_id(self.spec_syntax(), node_pred::<LuaBlock<'a>>())),
    {
        child_of::<LuaBlock<'a>>(self.syntax)
    }
}

/// `repeat block until cond`.
#[derive(Debug, Clone, Copy)]
pub struct LuaRepeatStat<'a> {
    syntax: LuaSyntaxNode<'a>,
}

impl<'a> LuaAstNode<'a> for LuaRepeatStat<'a> {
    closed spec fn spec_syntax(&self) -> LuaSyntaxNode<'a> {
        self.syntax
    }

    open spec fn spec_can_cast(kind: LuaSyntaxKind) -> bool {
        kind == LuaSyntaxKind::RepeatStat
    }

    open spec fn spec_cast_ok(kind: LuaSyntaxKind) -> bool {
        Self::spec_can_cast(kind)
    }

    fn syntax(&self) -> (r: &LuaSyntaxNode<'a>) {
        &self.syntax
    }

    fn can_cast(kind: LuaSyntaxKind) -> (b: bool) {
        kind == LuaSyntaxKind::RepeatStat
    }

    fn cast(syntax: LuaSyntaxNode<'a>) -> (r: Option<Self>) {
        if Self::can_cast(syntax.kind()) {
            Some(LuaRepeatStat { syntax })
        } else {
            None
        }
    }
}

impl<'a> LuaRepeatStat<'a> {
    pub fn get_block(&self) -> (r: Option<LuaBlock<'a>>)
        ensures
            opt_node_is(r, self.spec_syntax(), first_child_id(self.spec_syntax(), node_pred::<LuaBlock<'a>>())),
    {
        child_of::<LuaBlock<'a>>(self.syntax)
    }

    pub fn get_condition_expr(&self) -> (r: Option<LuaExpr<'a>>)
        ensures
            opt_node_is(r, self.spec_syntax(), first_child_id(self.spec_syntax(), node_pred::<LuaExpr<'a>>())),
    {
        child_of::<LuaExpr<'a>>(self.syntax)
    }
}

/// `return exprs`.
#[derive(Debug, Clone, Copy)]
pub struct LuaReturnStat<'a> {
    syntax: LuaSyntaxNode<'a>,
}

impl<'a> LuaAstNode<'a> for LuaReturnStat<'a> {
    closed spec fn spec_syntax(&self) -> LuaSyntaxNode<'a> {
        self.syntax
    }

    open spec fn spec_can_cast(kind: LuaSyntaxKind) -> bool {
        kind == LuaSyntaxKind::ReturnStat
    }

    open spec fn spec_cast_ok(kind: LuaSyntaxKind) -> bool {
        Self::spec_can_cast(kind)
    }

    fn syntax(&self) -> (r: &LuaSyntaxNode<'a>) {
        &self.syntax
    }

    fn can_cast(kind: LuaSyntaxKind) -> (b: bool) {
        kind == LuaSyntaxKind::ReturnStat
    }

    fn cast(syntax: LuaSyntaxNode<'a>) -> (r: Option<Self>) {
        if Self::can_cast(syntax.kind()) {
            Some(LuaReturnStat { syntax })
        } else {
            None
        }
    }
}

impl<'a> LuaReturnStat<'a> {
    pub fn get_expr_list(&self) -> (r: Vec<LuaExpr<'a>>)
        ensures
            nodes_are(r@, self.spec_syntax(), child_ids(self.spec_syntax(), node_pred::<LuaExpr<'a>>())),
    {
        children_of::<LuaExpr<'a>>(self.syntax)
    }
}

/// `break`.
#[derive(Debug, Clone, Copy)]
pub struct LuaBreakStat<'a> {
    syntax: LuaSyntaxNode<'a>,
}

impl<'a> LuaAstNode<'a> for LuaBreakStat<'a> {
    closed spec fn spec_syntax(&self) -> LuaSyntaxNode<'a> {
        self.syntax
    }

    open spec fn spec_can_cast(kind: LuaSyntaxKind) -> bool {
        kind == LuaSyntaxKind::BreakStat
    }

    open spec fn spec_cast_ok(kind: LuaSyntaxKind) -> bool {
        Self::spec_can_cast(kind)
    }

    fn syntax(&self) -> (r: &LuaSyntaxNode<'a>) {
        &self.syntax
    }

    fn can_cast(kind: LuaSyntaxKind) -> (b: bool) {
        kind == LuaSyntaxKind::BreakStat
    }

    fn cast(syntax: LuaSyntaxNode<'a>) -> (r: Option<Self>) {
        if Self::can_cast(syntax.kind()) {
            Some(LuaBreakStat { syntax })
        } else {
            None
        }
    }
}

/// `goto name`.
#[derive(Debug, Clone, Copy)]
pub struct LuaGotoStat<'a> {
    syntax: LuaSyntaxNode<'a>,
}

impl<'a> LuaAstNode<'a> for LuaGotoStat<'a> {
    closed spec fn spec_syntax(&self) -> LuaSyntaxNode<'a> {
        self.syntax
    }

    open spec fn spec_can_cast(kind: LuaSyntaxKind) -> bool {
        kind == LuaSyntaxKind::GotoStat
    }

    open spec fn spec_cast_ok(kind: LuaSyntaxKind) -> bool {
        Self::spec_can_cast(kind)
    }

    fn syntax(&self) -> (r: &LuaSyntaxNode<'a>) {
        &self.syntax
    }

    fn can_cast(kind: LuaSyntaxKind) -> (b: bool) {
        kind == LuaSyntaxKind::GotoStat
    }

    fn cast(syntax: LuaSyntaxNode<'a>) -> (r: Option<Self>) {
        if Self::can_cast(syntax.kind()) {
            Some(LuaGotoStat { syntax })
        } else {
            None
        }
    }
}

impl<'a> LuaGotoStat<'a> {
    pub fn get_label_name_token(&self) -> (r: Option<LuaNameToken<'a>>)
        ensures
            opt_token_is(r, self.spec_syntax(), first_child_id(self.spec_syntax(), token_pred::<LuaNameToken<'a>>())),
    {
        token_of::<LuaNameToken<'a>>(self.syntax)
    }
}

/// `::name::`.
#[derive(Debug, Clone, Copy)]
pub struct LuaLabelStat<'a> {
    syntax: LuaSyntaxNode<'a>,
}

impl<'a> LuaAstNode<'a> for LuaLabelStat<'a> {
    closed spec fn spec_syntax(&self) -> LuaSyntaxNode<'a> {
        self.syntax
    }

    open spec fn spec_can_cast(kind: LuaSyntaxKind) -> bool {
        kind == LuaSyntaxKind::LabelStat
    }

    open spec fn spec_cast_ok(kind: LuaSyntaxKind) -> bool {
        Self::spec_can_cast(kind)
    }

    fn syntax(&self) -> (r: &LuaSyntaxNode<'a>) {
        &self.syntax
    }

    fn can_cast(kind: LuaSyntaxKind) -> (b: bool) {
        kind == LuaSyntaxKind::LabelStat
    }

    fn cast(syntax: LuaSyntaxNode<'a>) -> (r: Option<Self>) {
        if Self::can_cast(syntax.kind()) {
            Some(LuaLabelStat { syntax })
        } else {
            None
        }
    }
}

impl<'a> LuaLabelStat<'a> {
    pub fn get_label_name_token(&self) -> (r: Option<LuaNameToken<'a>>)
        ensures
            opt_token_is(r, self.spec_syntax(), first_child_id(self.spec_syntax(), token_pred::<LuaNameToken<'a>>())),
    {
        token_of::<LuaNameToken<'a>>(self.syntax)
    }
}

/// A lone `;`.
#[derive(Debug, Clone, Copy)]
pub struct LuaEmptyStat<'a> {
    syntax: LuaSyntaxNode<'a>,
}

impl<'a> LuaAstNode<'a> for LuaEmptyStat<'a> {
    closed spec fn spec_syntax(&self) -> LuaSyntaxNode<'a> {
        self.syntax
    }

    open spec fn spec_can_cast(kind: LuaSyntaxKind) -> bool {
        kind == LuaSyntaxKind::EmptyStat
    }

    open spec fn spec_cast_ok(kind: LuaSyntaxKind) -> bool {
        Self::spec_can_cast(kind)
    }

    fn syntax(&self) -> (r: &LuaSyntaxNode<'a>) {
        &self.syntax
    }

    fn can_cast(kind: LuaSyntaxKind) -> (b: bool) {
        kind == LuaSyntaxKind::EmptyStat
    }

    fn cast(syntax: LuaSyntaxNode<'a>) -> (r: Option<Self>) {
        if Self::can_cast(syntax.kind()) {
            Some(LuaEmptyStat { syntax })
        } else {
            None
        }
    }
}

/// A Lua 5.5 `global` declaration.
#[derive(Debug, Clone, Copy)]
pub struct LuaGlobalStat<'a> {
    syntax: LuaSyntaxNode<'a>,
}

impl<'a> LuaAstNode<'a> for LuaGlobalStat<'a> {
    closed spec fn spec_syntax(&self) -> LuaSyntaxNode<'a> {
        self.syntax
    }

    open spec fn spec_can_cast(kind: LuaSyntaxKind) -> bool {
        kind == LuaSyntaxKind::GlobalStat
    }

    open spec fn spec_cast_ok(kind: LuaSyntaxKind) -> bool {
        Self::spec_can_cast(kind)
    }

    fn syntax(&self) -> (r: &LuaSyntaxNode<'a>) {
        &self.syntax
    }

    fn can_cast(kind: LuaSyntaxKind) -> (b: bool) {
        kind == LuaSyntaxKind::GlobalStat
    }

    fn cast(syntax: LuaSyntaxNode<'a>) -> (r: Option<Self>) {
        if Self::can_cast(syntax.kind()) {
            Some(LuaGlobalStat { syntax })
        } else {
            None
        }
    }
}

impl<'a> LuaGlobalStat<'a> {
    pub fn get_local_name_list(&self) -> (r: Vec<LuaLocalName<'a>>)
        ensures
            nodes_are(r@, self.spec_syntax(), child_ids(self.spec_syntax(), node_pred::<LuaLocalName<'a>>())),
    {
        children_of::<LuaLocalName<'a>>(self.syntax)
    }

    pub fn get_attrib(&self) -> (r: Option<LuaLocalAttribute<'a>>)
        ensures
            opt_node_is(r, self.spec_syntax(), first_child_id(self.spec_syntax(), node_pred::<LuaLocalAttribute<'a>>())),
    {
        child_of::<LuaLocalAttribute<'a>>(self.syntax)
    }
}

/// The parameters of a function.
#[derive(Debug, Clone, Copy)]
pub struct LuaParamList<'a> {
    syntax: LuaSyntaxNode<'a>,
}

impl<'a> LuaAstNode<'a> for LuaParamList<'a> {
    closed spec fn spec_syntax(&self) -> LuaSyntaxNode<'a> {
        self.syntax
    }

    open spec fn spec_can_cast(kind: LuaSyntaxKind) -> bool {
        kind == LuaSyntaxKind::ParamList
    }

    open spec fn spec_cast_ok(kind: LuaSyntaxKind) -> bool {
        Self::spec_can_cast(kind)
    }

    fn syntax(&self) -> (r: &LuaSyntaxNode<'a>) {
        &self.syntax
    }

    fn can_cast(kind: LuaSyntaxKind) -> (b: bool) {
        kind == LuaSyntaxKind::ParamList
    }

    fn cast(syntax: LuaSyntaxNode<'a>) -> (r: Option<Self>) {
        if Self::can_cast(syntax.kind()) {
            Some(LuaParamList { syntax })
        } else {
            None
        }
    }
}

impl<'a> LuaParamList<'a> {
    pub fn get_params(&self) -> (r: Vec<LuaParamName<'a>>)
        ensures
            nodes_are(r@, self.spec_syntax(), child_ids(self.spec_syntax(), node_pred::<LuaParamName<'a>>())),
    {
        children_of::<LuaParamName<'a>>(self.syntax)
    }
}

/// A parameter: a name or `...`.
#[derive(Debug, Clone, Copy)]
pub struct LuaParamName<'a> {
    syntax: LuaSyntaxNode<'a>,
}

impl<'a> LuaAstNode<'a> for LuaParamName<'a> {
    closed spec fn spec_syntax(&self) -> LuaSyntaxNode<'a> {
        self.syntax
    }

    open spec fn spec_can_cast(kind: LuaSyntaxKind) -> bool {
        kind == LuaSyntaxKind::ParamName
    }

    open spec fn spec_cast_ok(kind: LuaSyntaxKind) -> bool {
        Self::spec_can_cast(kind)
    }

    fn syntax(&self) -> (r: &LuaSyntaxNode<'a>) {
        &self.syntax
    }

    fn can_cast(kind: LuaSyntaxKind) -> (b: bool) {
        kind == LuaSyntaxKind::ParamName
    }

    fn cast(syntax: LuaSyntaxNode<'a>) -> (r: Option<Self>) {
        if Self::can_cast(syntax.kind()) {
            Some(LuaParamName { syntax })
        } else {
            None
        }
    }
}

impl<'a> LuaParamName<'a> {
    pub fn get_name_token(&self) -> (r: Option<LuaNameToken<'a>>)
        ensures
            opt_token_is(r, self.spec_syntax(), first_child_id(self.spec_syntax(), token_pred::<LuaNameToken<'a>>())),
    {
        token_of::<LuaNameToken<'a>>(self.syntax)
    }

    pub fn is_dots(&self) -> (b: bool)
        ensures
            b == first_child_id(self.spec_syntax(), kind_pred(LuaTokenKind::TkDots)) is Some,
    {
        token_by_kind_of(self.syntax, LuaTokenKind::TkDots).is_some()
    }
}

/// The arguments of a call.
#[derive(Debug, Clone, Copy)]
pub struct LuaCallArgList<'a> {
    syntax: LuaSyntaxNode<'a>,
}

impl<'a> LuaAstNode<'a> for LuaCallArgList<'a> {
    closed spec fn spec_syntax(&self) -> LuaSyntaxNode<'a> {
        self.syntax
    }

    open spec fn spec_can_cast(kind: LuaSyntaxKind) -> bool {
        kind == LuaSyntaxKind::CallArgList
    }

    open spec fn spec_cast_ok(kind: LuaSyntaxKind) -> bool {
        Self::spec_can_cast(kind)
    }

    fn syntax(&self) -> (r: &LuaSyntaxNode<'a>) {
        &self.syntax
    }

    fn can_cast(kind: LuaSyntaxKind) -> (b: bool) {
        kind == LuaSyntaxKind::CallArgList
    }

    fn cast(syntax: LuaSyntaxNode<'a>) -> (r: Option<Self>) {
        if Self::can_cast(syntax.kind()) {
            Some(LuaCallArgList { syntax })
        } else {
            None
        }
    }
}

impl<'a> LuaCallArgList<'a> {
    pub fn get_args(&self) -> (r: Vec<LuaExpr<'a>>)
        ensures
            nodes_are(r@, self.spec_syntax(), child_ids(self.spec_syntax(), node_pred::<LuaExpr<'a>>())),
    {
        children_of::<LuaExpr<'a>>(self.syntax)
    }
}

/// A field of a table constructor.
#[derive(Debug, Clone, Copy)]
pub struct LuaTableField<'a> {
    syntax: LuaSyntaxNode<'a>,
}

impl<'a> LuaAstNode<'a> for LuaTableField<'a> {
    closed spec fn spec_syntax(&self) -> LuaSyntaxNode<'a> {
        self.syntax
    }

    open spec fn spec_can_cast(kind: LuaSyntaxKind) -> bool {
        kind == LuaSyntaxKind::TableFieldAssign || kind == LuaSyntaxKind::TableFieldValue
    }

    open spec fn spec_cast_ok(kind: LuaSyntaxKind) -> bool {
        Self::spec_can_cast(kind)
    }

    fn syntax(&self) -> (r: &LuaSyntaxNode<'a>) {
        &self.syntax
    }

    fn can_cast(kind: LuaSyntaxKind) -> (b: bool) {
        kind == LuaSyntaxKind::TableFieldAssign || kind == LuaSyntaxKind::TableFieldValue
    }

    fn cast(syntax: LuaSyntaxNode<'a>) -> (r: Option<Self>) {
        if Self::can_cast(syntax.kind()) {
            Some(LuaTableField { syntax })
        } else {
            None
        }
    }
}

impl<'a> LuaTableField<'a> {
    pub fn get_value_expr(&self) -> (r: Option<LuaExpr<'a>>)
        ensures
            opt_node_is(r, self.spec_syntax(), last_child_id(self.spec_syntax(), node_pred::<LuaExpr<'a>>())),
    {
        last_child_of::<LuaExpr<'a>>(self.syntax)
    }

    /// Whether the field has a key.
    pub fn is_assign_field(&self) -> (b: bool)
        ensures
            b == (self.spec_syntax().spec_kind() == LuaSyntaxKind::TableFieldAssign),
    {
        self.syntax.kind() == LuaSyntaxKind::TableFieldAssign
    }

    /// Whether the field is a value without a key.
    pub fn is_value_field(&self) -> (b: bool)
        ensures
            b == (self.spec_syntax().spec_kind() == LuaSyntaxKind::TableFieldValue),
    {
        self.syntax.kind() == LuaSyntaxKind::TableFieldValue
    }
}

} // verus!
