use vstd::prelude::*;

use crate::kind::lua_operator_kind::{
    BinaryOperator, LuaOpKind, LuaTypeBinaryOperator, LuaTypeUnaryOperator, UnaryOperator,
    spec_binary_operator, spec_type_binary_token_operator, spec_type_unary_operator, spec_unary_operator,
};
use crate::kind::lua_token_kind::LuaTokenKind;
use crate::kind::lua_version::{LuaVersionNumber, spec_version_from_str};
use crate::kind::lua_visibility_kind::{VisibilityKind, spec_visibility_of};
use crate::syntax::traits::LuaAstToken;
use crate::syntax::tree::syntax_tree::LuaSyntaxToken;
use crate::text::strings::chars_to_string;
use crate::syntax::node::token::string_analyzer::{spec_string_token_value, string_token_readable, string_token_value};

verus! {

/// The text without its first and last char when it starts with a quote.
pub open spec fn spec_unquoted(t: Seq<char>) -> Seq<char> {
    if t.len() > 0 && (t[0] == '"' || t[0] == '\'') {
        if t.len() >= 2 {
            t.subrange(1, t.len() - 1)
        } else {
            Seq::empty()
        }
    } else {
        t
    }
}

/// Any token.
#[derive(Debug, Clone, Copy)]
pub struct LuaGeneralToken<'a> {
    token: LuaSyntaxToken<'a>,
}

impl<'a> LuaAstToken<'a> for LuaGeneralToken<'a> {
    closed spec fn spec_syntax(&self) -> LuaSyntaxToken<'a> {
        self.token
    }

    open spec fn spec_can_cast(kind: LuaTokenKind) -> bool {
        true
    }

    open spec fn spec_cast_ok(kind: LuaTokenKind) -> bool {
        Self::spec_can_cast(kind)
    }

    fn syntax(&self) -> (r: &LuaSyntaxToken<'a>) {
        &self.token
    }

    fn can_cast(kind: LuaTokenKind) -> (b: bool) {
        true
    }

    fn cast(syntax: LuaSyntaxToken<'a>) -> (r: Option<Self>) {
        if Self::can_cast(syntax.kind()) {
            Some(LuaGeneralToken { token: syntax })
        } else {
            None
        }
    }
}

/// A name token.
#[derive(Debug, Clone, Copy)]
pub struct LuaNameToken<'a> {
    token: LuaSyntaxToken<'a>,
}

impl<'a> LuaAstToken<'a> for LuaNameToken<'a> {
    closed spec fn spec_syntax(&self) -> LuaSyntaxToken<'a> {
        self.token
    }

    open spec fn spec_can_cast(kind: LuaTokenKind) -> bool {
        kind == LuaTokenKind::TkName
    }

    open spec fn spec_cast_ok(kind: LuaTokenKind) -> bool {
        Self::spec_can_cast(kind)
    }

    fn syntax(&self) -> (r: &LuaSyntaxToken<'a>) {
        &self.token
    }

    fn can_cast(kind: LuaTokenKind) -> (b: bool) {
        kind == LuaTokenKind::TkName
    }

    fn cast(syntax: LuaSyntaxToken<'a>) -> (r: Option<Self>) {
        if Self::can_cast(syntax.kind()) {
            Some(LuaNameToken { token: syntax })
        } else {
            None
        }
    }
}

impl<'a> LuaNameToken<'a> {
    /// The name.
    pub fn get_name_text(&self) -> (t: String)
        ensures
            t@ == self.spec_syntax().spec_text(),
    {
        self.token.text_string()
    }
}

/// A string literal token.
#[derive(Debug, Clone, Copy)]
pub struct LuaStringToken<'a> {
    token: LuaSyntaxToken<'a>,
}

impl<'a> LuaAstToken<'a> for LuaStringToken<'a> {
    closed spec fn spec_syntax(&self) -> LuaSyntaxToken<'a> {
        self.token
    }

    open spec fn spec_can_cast(kind: LuaTokenKind) -> bool {
        kind == LuaTokenKind::TkString || kind == LuaTokenKind::TkLongString
    }

    open spec fn spec_cast_ok(kind: LuaTokenKind) -> bool {
        Self::spec_can_cast(kind)
    }

    fn syntax(&self) -> (r: &LuaSyntaxToken<'a>) {
        &self.token
    }

    fn can_cast(kind: LuaTokenKind) -> (b: bool) {
        kind == LuaTokenKind::TkString || kind == LuaTokenKind::TkLongString
    }

    fn cast(syntax: LuaSyntaxToken<'a>) -> (r: Option<Self>) {
        if Self::can_cast(syntax.kind()) {
            Some(LuaStringToken { token: syntax })
        } else {
            None
        }
    }
}

impl<'a> LuaStringToken<'a> {
    /// The value of the string, with its escapes decoded or its long
    /// brackets cut off; empty when the text is not a valid string.
    pub fn get_value(&self) -> (v: String)
        requires
            string_token_readable(self.spec_syntax()),
        ensures
            v@ == match spec_string_token_value(self.spec_syntax()) {
                Some(s) => s,
                None => Seq::<char>::empty(),
            },
    {
        match string_token_value(&self.token) {
            Ok(s) => s,
            Err(_) => String::new(),
        }
    }
}

/// A number literal token.
#[derive(Debug, Clone, Copy)]
pub struct LuaNumberToken<'a> {
    token: LuaSyntaxToken<'a>,
}

impl<'a> LuaAstToken<'a> for LuaNumberToken<'a> {
    closed spec fn spec_syntax(&self) -> LuaSyntaxToken<'a> {
        self.token
    }

    open spec fn spec_can_cast(kind: LuaTokenKind) -> bool {
        kind == LuaTokenKind::TkFloat || kind == LuaTokenKind::TkInt
    }

    open spec fn spec_cast_ok(kind: LuaTokenKind) -> bool {
        Self::spec_can_cast(kind)
    }

    fn syntax(&self) -> (r: &LuaSyntaxToken<'a>) {
        &self.token
    }

    fn can_cast(kind: LuaTokenKind) -> (b: bool) {
        kind == LuaTokenKind::TkFloat || kind == LuaTokenKind::TkInt
    }

    fn cast(syntax: LuaSyntaxToken<'a>) -> (r: Option<Self>) {
        if Self::can_cast(syntax.kind()) {
            Some(LuaNumberToken { token: syntax })
        } else {
            None
        }
    }
}

impl<'a> LuaNumberToken<'a> {
    /// Whether the number is a float.
    pub fn is_float(&self) -> (b: bool)
        ensures
            b == (self.spec_syntax().spec_kind() == LuaTokenKind::TkFloat),
    {
        self.token.kind() == LuaTokenKind::TkFloat
    }

    /// Whether the number is an integer.
    pub fn is_int(&self) -> (b: bool)
        ensures
            b == (self.spec_syntax().spec_kind() == LuaTokenKind::TkInt),
    {
        self.token.kind() == LuaTokenKind::TkInt
    }
}

/// A binary operator token.
#[derive(Debug, Clone, Copy)]
pub struct LuaBinaryOpToken<'a> {
    token: LuaSyntaxToken<'a>,
}

impl<'a> LuaAstToken<'a> for LuaBinaryOpToken<'a> {
    closed spec fn spec_syntax(&self) -> LuaSyntaxToken<'a> {
        self.token
    }

    open spec fn spec_can_cast(kind: LuaTokenKind) -> bool {
        spec_binary_operator(kind) != BinaryOperator::OpNop
    }

    open spec fn spec_cast_ok(kind: LuaTokenKind) -> bool {
        Self::spec_can_cast(kind)
    }

    fn syntax(&self) -> (r: &LuaSyntaxToken<'a>) {
        &self.token
    }

    fn can_cast(kind: LuaTokenKind) -> (b: bool) {
        LuaOpKind::to_binary_operator(kind) != BinaryOperator::OpNop
    }

    fn cast(syntax: LuaSyntaxToken<'a>) -> (r: Option<Self>) {
        if Self::can_cast(syntax.kind()) {
            Some(LuaBinaryOpToken { token: syntax })
        } else {
            None
        }
    }
}

impl<'a> LuaBinaryOpToken<'a> {
    /// The operator.
    pub fn get_op(&self) -> (op: BinaryOperator)
        ensures
            op == spec_binary_operator(self.spec_syntax().spec_kind()),
    {
        LuaOpKind::to_binary_operator(self.token.kind())
    }
}

/// A unary operator token.
#[derive(Debug, Clone, Copy)]
pub struct LuaUnaryOpToken<'a> {
    token: LuaSyntaxToken<'a>,
}

impl<'a> LuaAstToken<'a> for LuaUnaryOpToken<'a> {
    closed spec fn spec_syntax(&self) -> LuaSyntaxToken<'a> {
        self.token
    }

    open spec fn spec_can_cast(kind: LuaTokenKind) -> bool {
        spec_unary_operator(kind) != UnaryOperator::OpNop
    }

    open spec fn spec_cast_ok(kind: LuaTokenKind) -> bool {
        Self::spec_can_cast(kind)
    }

    fn syntax(&self) -> (r: &LuaSyntaxToken<'a>) {
        &self.token
    }

    fn can_cast(kind: LuaTokenKind) -> (b: bool) {
        LuaOpKind::to_unary_operator(kind) != UnaryOperator::OpNop
    }

    fn cast(syntax: LuaSyntaxToken<'a>) -> (r: Option<Self>) {
        if Self::can_cast(syntax.kind()) {
            Some(LuaUnaryOpToken { token: syntax })
        } else {
            None
        }
    }
}

impl<'a> LuaUnaryOpToken<'a> {
    /// The operator.
    pub fn get_op(&self) -> (op: UnaryOperator)
        ensures
            op == spec_unary_operator(self.spec_syntax().spec_kind()),
    {
        LuaOpKind::to_unary_operator(self.token.kind())
    }
}

/// A keyword token.
#[derive(Debug, Clone, Copy)]
pub struct LuaKeywordToken<'a> {
    token: LuaSyntaxToken<'a>,
}

impl<'a> LuaAstToken<'a> for LuaKeywordToken<'a> {
    closed spec fn spec_syntax(&self) -> LuaSyntaxToken<'a> {
        self.token
    }

    open spec fn spec_can_cast(kind: LuaTokenKind) -> bool {
        kind == LuaTokenKind::TkAnd || kind == LuaTokenKind::TkBreak || kind == LuaTokenKind::TkDo || kind == LuaTokenKind::TkElse || kind == LuaTokenKind::TkElseIf || kind == LuaTokenKind::TkEnd || kind == LuaTokenKind::TkFalse || kind == LuaTokenKind::TkFor || kind == LuaTokenKind::TkFunction || kind == LuaTokenKind::TkGoto || kind == LuaTokenKind::TkIf || kind == LuaTokenKind::TkIn || kind == LuaTokenKind::TkLocal || kind == LuaTokenKind::TkNil || kind == LuaTokenKind::TkNot || kind == LuaTokenKind::TkOr || kind == LuaTokenKind::TkRepeat || kind == LuaTokenKind::TkReturn || kind == LuaTokenKind::TkThen || kind == LuaTokenKind::TkTrue || kind == LuaTokenKind::TkUntil || kind == LuaTokenKind::TkWhile
    }

    open spec fn spec_cast_ok(kind: LuaTokenKind) -> bool {
        Self::spec_can_cast(kind)
    }

    fn syntax(&self) -> (r: &LuaSyntaxToken<'a>) {
        &self.token
    }

    fn can_cast(kind: LuaTokenKind) -> (b: bool) {
        kind == LuaTokenKind::TkAnd || kind == LuaTokenKind::TkBreak || kind == LuaTokenKind::TkDo || kind == LuaTokenKind::TkElse || kind == LuaTokenKind::TkElseIf || kind == LuaTokenKind::TkEnd || kind == LuaTokenKind::TkFalse || kind == LuaTokenKind::TkFor || kind == LuaTokenKind::TkFunction || kind == LuaTokenKind::TkGoto || kind == LuaTokenKind::TkIf || kind == LuaTokenKind::TkIn || kind == LuaTokenKind::TkLocal || kind == LuaTokenKind::TkNil || kind == LuaTokenKind::TkNot || kind == LuaTokenKind::TkOr || kind == LuaTokenKind::TkRepeat || kind == LuaTokenKind::TkReturn || kind == LuaTokenKind::TkThen || kind == LuaTokenKind::TkTrue || kind == LuaTokenKind::TkUntil || kind == LuaTokenKind::TkWhile
    }

    fn cast(syntax: LuaSyntaxToken<'a>) -> (r: Option<Self>) {
        if Self::can_cast(syntax.kind()) {
            Some(LuaKeywordToken { token: syntax })
        } else {
            None
        }
    }
}

impl<'a> LuaKeywordToken<'a> {
    /// The keyword.
    pub fn get_keyword(&self) -> (k: LuaTokenKind)
        ensures
            k == self.spec_syntax().spec_kind(),
    {
        self.token.kind()
    }
}

/// `true` or `false`.
#[derive(Debug, Clone, Copy)]
pub struct LuaBoolToken<'a> {
    token: LuaSyntaxToken<'a>,
}

impl<'a> LuaAstToken<'a> for LuaBoolToken<'a> {
    closed spec fn spec_syntax(&self) -> LuaSyntaxToken<'a> {
        self.token
    }

    open spec fn spec_can_cast(kind: LuaTokenKind) -> bool {
        kind == LuaTokenKind::TkTrue || kind == LuaTokenKind::TkFalse
    }

    open spec fn spec_cast_ok(kind: LuaTokenKind) -> bool {
        Self::spec_can_cast(kind)
    }

    fn syntax(&self) -> (r: &LuaSyntaxToken<'a>) {
        &self.token
    }

    fn can_cast(kind: LuaTokenKind) -> (b: bool) {
        kind == LuaTokenKind::TkTrue || kind == LuaTokenKind::TkFalse
    }

    fn cast(syntax: LuaSyntaxToken<'a>) -> (r: Option<Self>) {
        if Self::can_cast(syntax.kind()) {
            Some(LuaBoolToken { token: syntax })
        } else {
            None
        }
    }
}

impl<'a> LuaBoolToken<'a> {
    /// Whether it is `true`.
    pub fn is_true(&self) -> (b: bool)
        ensures
            b == (self.spec_syntax().spec_kind() == LuaTokenKind::TkTrue),
    {
        self.token.kind() == LuaTokenKind::TkTrue
    }
}

/// `nil`.
#[derive(Debug, Clone, Copy)]
pub struct LuaNilToken<'a> {
    token: LuaSyntaxToken<'a>,
}

impl<'a> LuaAstToken<'a> for LuaNilToken<'a> {
    closed spec fn spec_syntax(&self) -> LuaSyntaxToken<'a> {
        self.token
    }

    open spec fn spec_can_cast(kind: LuaTokenKind) -> bool {
        kind == LuaTokenKind::TkNil
    }

    open spec fn spec_cast_ok(kind: LuaTokenKind) -> bool {
        Self::spec_can_cast(kind)
    }

    fn syntax(&self) -> (r: &LuaSyntaxToken<'a>) {
        &self.token
    }

    fn can_cast(kind: LuaTokenKind) -> (b: bool) {
        kind == LuaTokenKind::TkNil
    }

    fn cast(syntax: LuaSyntaxToken<'a>) -> (r: Option<Self>) {
        if Self::can_cast(syntax.kind()) {
            Some(LuaNilToken { token: syntax })
        } else {
            None
        }
    }
}

/// A blank or a line end.
#[derive(Debug, Clone, Copy)]
pub struct LuaSpaceToken<'a> {
    token: LuaSyntaxToken<'a>,
}

impl<'a> LuaAstToken<'a> for LuaSpaceToken<'a> {
    closed spec fn spec_syntax(&self) -> LuaSyntaxToken<'a> {
        self.token
    }

    open spec fn spec_can_cast(kind: LuaTokenKind) -> bool {
        kind == LuaTokenKind::TkWhitespace || kind == LuaTokenKind::TkEndOfLine
    }

    open spec fn spec_cast_ok(kind: LuaTokenKind) -> bool {
        Self::spec_can_cast(kind)
    }

    fn syntax(&self) -> (r: &LuaSyntaxToken<'a>) {
        &self.token
    }

    fn can_cast(kind: LuaTokenKind) -> (b: bool) {
        kind == LuaTokenKind::TkWhitespace || kind == LuaTokenKind::TkEndOfLine
    }

    fn cast(syntax: LuaSyntaxToken<'a>) -> (r: Option<Self>) {
        if Self::can_cast(syntax.kind()) {
            Some(LuaSpaceToken { token: syntax })
        } else {
            None
        }
    }
}

/// `.`, `:` or `[`.
#[derive(Debug, Clone, Copy)]
pub struct LuaIndexToken<'a> {
    token: LuaSyntaxToken<'a>,
}

impl<'a> LuaAstToken<'a> for LuaIndexToken<'a> {
    closed spec fn spec_syntax(&self) -> LuaSyntaxToken<'a> {
        self.token
    }

    open spec fn spec_can_cast(kind: LuaTokenKind) -> bool {
        kind == LuaTokenKind::TkDot || kind == LuaTokenKind::TkColon || kind == LuaTokenKind::TkLeftBracket
    }

    open spec fn spec_cast_ok(kind: LuaTokenKind) -> bool {
        Self::spec_can_cast(kind)
    }

    fn syntax(&self) -> (r: &LuaSyntaxToken<'a>) {
        &self.token
    }

    fn can_cast(kind: LuaTokenKind) -> (b: bool) {
        kind == LuaTokenKind::TkDot || kind == LuaTokenKind::TkColon || kind == LuaTokenKind::TkLeftBracket
    }

    fn cast(syntax: LuaSyntaxToken<'a>) -> (r: Option<Self>) {
        if Self::can_cast(syntax.kind()) {
            Some(LuaIndexToken { token: syntax })
        } else {
            None
        }
    }
}

impl<'a> LuaIndexToken<'a> {
    /// Whether it is `.`.
    pub fn is_dot(&self) -> (b: bool)
        ensures
            b == (self.spec_syntax().spec_kind() == LuaTokenKind::TkDot),
    {
        self.token.kind() == LuaTokenKind::TkDot
    }

    /// Whether it is `:`.
    pub fn is_colon(&self) -> (b: bool)
        ensures
            b == (self.spec_syntax().spec_kind() == LuaTokenKind::TkColon),
    {
        self.token.kind() == LuaTokenKind::TkColon
    }

    /// Whether it is `[`.
    pub fn is_left_bracket(&self) -> (b: bool)
        ensures
            b == (self.spec_syntax().spec_kind() == LuaTokenKind::TkLeftBracket),
    {
        self.token.kind() == LuaTokenKind::TkLeftBracket
    }
}

/// The text of a description.
#[derive(Debug, Clone, Copy)]
pub struct LuaDocDetailToken<'a> {
    token: LuaSyntaxToken<'a>,
}

impl<'a> LuaAstToken<'a> for LuaDocDetailToken<'a> {
    closed spec fn spec_syntax(&self) -> LuaSyntaxToken<'a> {
        self.token
    }

    open spec fn spec_can_cast(kind: LuaTokenKind) -> bool {
        kind == LuaTokenKind::TkDocDetail
    }

    open spec fn spec_cast_ok(kind: LuaTokenKind) -> bool {
        Self::spec_can_cast(kind)
    }

    fn syntax(&self) -> (r: &LuaSyntaxToken<'a>) {
        &self.token
    }

    fn can_cast(kind: LuaTokenKind) -> (b: bool) {
        kind == LuaTokenKind::TkDocDetail
    }

    fn cast(syntax: LuaSyntaxToken<'a>) -> (r: Option<Self>) {
        if Self::can_cast(syntax.kind()) {
            Some(LuaDocDetailToken { token: syntax })
        } else {
            None
        }
    }
}

impl<'a> LuaDocDetailToken<'a> {
    /// The text.
    pub fn get_detail(&self) -> (t: String)
        ensures
            t@ == self.spec_syntax().spec_text(),
    {
        self.token.text_string()
    }
}

/// A visibility keyword of a doc comment.
#[derive(Debug, Clone, Copy)]
pub struct LuaDocVisibilityToken<'a> {
    token: LuaSyntaxToken<'a>,
}

impl<'a> LuaAstToken<'a> for LuaDocVisibilityToken<'a> {
    closed spec fn spec_syntax(&self) -> LuaSyntaxToken<'a> {
        self.token
    }

    open spec fn spec_can_cast(kind: LuaTokenKind) -> bool {
        kind == LuaTokenKind::TkDocVisibility || kind == LuaTokenKind::TkTagVisibility
    }

    open spec fn spec_cast_ok(kind: LuaTokenKind) -> bool {
        Self::spec_can_cast(kind)
    }

    fn syntax(&self) -> (r: &LuaSyntaxToken<'a>) {
        &self.token
    }

    fn can_cast(kind: LuaTokenKind) -> (b: bool) {
        kind == LuaTokenKind::TkDocVisibility || kind == LuaTokenKind::TkTagVisibility
    }

    fn cast(syntax: LuaSyntaxToken<'a>) -> (r: Option<Self>) {
        if Self::can_cast(syntax.kind()) {
            Some(LuaDocVisibilityToken { token: syntax })
        } else {
            None
        }
    }
}

impl<'a> LuaDocVisibilityToken<'a> {
    /// The visibility that the token's text names.
    pub fn get_visibility(&self) -> (v: Option<VisibilityKind>)
        ensures
            v == spec_visibility_of(self.spec_syntax().spec_text()),
    {
        let text = self.token.text_string();
        VisibilityKind::to_visibility_kind(text.as_str())
    }
}

/// A version number of a version tag.
#[derive(Debug, Clone, Copy)]
pub struct LuaDocVersionNumberToken<'a> {
    token: LuaSyntaxToken<'a>,
}

impl<'a> LuaAstToken<'a> for LuaDocVersionNumberToken<'a> {
    closed spec fn spec_syntax(&self) -> LuaSyntaxToken<'a> {
        self.token
    }

    open spec fn spec_can_cast(kind: LuaTokenKind) -> bool {
        kind == LuaTokenKind::TkDocVersionNumber
    }

    open spec fn spec_cast_ok(kind: LuaTokenKind) -> bool {
        Self::spec_can_cast(kind)
    }

    fn syntax(&self) -> (r: &LuaSyntaxToken<'a>) {
        &self.token
    }

    fn can_cast(kind: LuaTokenKind) -> (b: bool) {
        kind == LuaTokenKind::TkDocVersionNumber
    }

    fn cast(syntax: LuaSyntaxToken<'a>) -> (r: Option<Self>) {
        if Self::can_cast(syntax.kind()) {
            Some(LuaDocVersionNumberToken { token: syntax })
        } else {
            None
        }
    }
}

impl<'a> LuaDocVersionNumberToken<'a> {
    /// The version number that the token's text gives.
    pub fn get_version_number(&self) -> (v: Option<LuaVersionNumber>)
        ensures
            v == Some(spec_version_from_str(self.spec_syntax().spec_text())),
    {
        let text = self.token.text_string();
        LuaVersionNumber::from_str(text.as_str())
    }
}

/// A binary operator of a doc type.
#[derive(Debug, Clone, Copy)]
pub struct LuaDocTypeBinaryToken<'a> {
    token: LuaSyntaxToken<'a>,
}

impl<'a> LuaAstToken<'a> for LuaDocTypeBinaryToken<'a> {
    closed spec fn spec_syntax(&self) -> LuaSyntaxToken<'a> {
        self.token
    }

    open spec fn spec_can_cast(kind: LuaTokenKind) -> bool {
        kind == LuaTokenKind::TkDocOr || kind == LuaTokenKind::TkDocAnd || kind == LuaTokenKind::TkDocExtends || kind == LuaTokenKind::TkDocIn || kind == LuaTokenKind::TkDocContinueOr || kind == LuaTokenKind::TkPlus || kind == LuaTokenKind::TkMinus
    }

    open spec fn spec_cast_ok(kind: LuaTokenKind) -> bool {
        Self::spec_can_cast(kind)
    }

    fn syntax(&self) -> (r: &LuaSyntaxToken<'a>) {
        &self.token
    }

    fn can_cast(kind: LuaTokenKind) -> (b: bool) {
        kind == LuaTokenKind::TkDocOr || kind == LuaTokenKind::TkDocAnd || kind == LuaTokenKind::TkDocExtends || kind == LuaTokenKind::TkDocIn || kind == LuaTokenKind::TkDocContinueOr || kind == LuaTokenKind::TkPlus || kind == LuaTokenKind::TkMinus
    }

    fn cast(syntax: LuaSyntaxToken<'a>) -> (r: Option<Self>) {
        if Self::can_cast(syntax.kind()) {
            Some(LuaDocTypeBinaryToken { token: syntax })
        } else {
            None
        }
    }
}

impl<'a> LuaDocTypeBinaryToken<'a> {
    /// The operator.
    pub fn get_op(&self) -> (op: LuaTypeBinaryOperator)
        ensures
            op == spec_type_binary_token_operator(self.spec_syntax().spec_kind()),
    {
        LuaOpKind::to_type_binary_operator(self.token.kind())
    }
}

/// A unary operator of a doc type.
#[derive(Debug, Clone, Copy)]
pub struct LuaDocTypeUnaryToken<'a> {
    token: LuaSyntaxToken<'a>,
}

impl<'a> LuaAstToken<'a> for LuaDocTypeUnaryToken<'a> {
    closed spec fn spec_syntax(&self) -> LuaSyntaxToken<'a> {
        self.token
    }

    open spec fn spec_can_cast(kind: LuaTokenKind) -> bool {
        kind == LuaTokenKind::TkDocKeyOf || kind == LuaTokenKind::TkMinus
    }

    open spec fn spec_cast_ok(kind: LuaTokenKind) -> bool {
        Self::spec_can_cast(kind)
    }

    fn syntax(&self) -> (r: &LuaSyntaxToken<'a>) {
        &self.token
    }

    fn can_cast(kind: LuaTokenKind) -> (b: bool) {
        kind == LuaTokenKind::TkDocKeyOf || kind == LuaTokenKind::TkMinus
    }

    fn cast(syntax: LuaSyntaxToken<'a>) -> (r: Option<Self>) {
        if Self::can_cast(syntax.kind()) {
            Some(LuaDocTypeUnaryToken { token: syntax })
        } else {
            None
        }
    }
}

impl<'a> LuaDocTypeUnaryToken<'a> {
    /// The operator.
    pub fn get_op(&self) -> (op: LuaTypeUnaryOperator)
        ensures
            op == spec_type_unary_operator(self.spec_syntax().spec_kind()),
    {
        LuaOpKind::to_type_unary_operator(self.token.kind())
    }
}

/// The path of a source tag.
#[derive(Debug, Clone, Copy)]
pub struct LuaPathToken<'a> {
    token: LuaSyntaxToken<'a>,
}

impl<'a> LuaAstToken<'a> for LuaPathToken<'a> {
    closed spec fn spec_syntax(&self) -> LuaSyntaxToken<'a> {
        self.token
    }

    open spec fn spec_can_cast(kind: LuaTokenKind) -> bool {
        kind == LuaTokenKind::TKDocPath
    }

    open spec fn spec_cast_ok(kind: LuaTokenKind) -> bool {
        Self::spec_can_cast(kind)
    }

    fn syntax(&self) -> (r: &LuaSyntaxToken<'a>) {
        &self.token
    }

    fn can_cast(kind: LuaTokenKind) -> (b: bool) {
        kind == LuaTokenKind::TKDocPath
    }

    fn cast(syntax: LuaSyntaxToken<'a>) -> (r: Option<Self>) {
        if Self::can_cast(syntax.kind()) {
            Some(LuaPathToken { token: syntax })
        } else {
            None
        }
    }
}

impl<'a> LuaPathToken<'a> {
    /// The path, without the quotes around it, if any.  A lone quote is no
    /// path.
    pub fn get_path(&self) -> (t: String)
        requires
            !(self.spec_syntax().spec_text().len() == 1 && (self.spec_syntax().spec_text()[0] == '"'
                || self.spec_syntax().spec_text()[0] == '\'')),
        ensures
            t@ == spec_unquoted(self.spec_syntax().spec_text()),
    {
        let text = self.token.text();
        let n = text.len();
        if n > 0 && (text[0] == '"' || text[0] == '\'') {
            if n >= 2 {
                chars_to_string(text, 1, n - 1)
            } else {
                String::new()
            }
        } else {
            chars_to_string(text, 0, n)
        }
    }
}

/// A literal token: a string, a number, a boolean, `nil`, `...` or `?`.
#[derive(Debug, Clone, Copy)]
pub enum LuaLiteralToken<'a> {
    String(LuaStringToken<'a>),
    Number(LuaNumberToken<'a>),
    Bool(LuaBoolToken<'a>),
    Nil(LuaNilToken<'a>),
    Dots(LuaGeneralToken<'a>),
    Question(LuaGeneralToken<'a>),
}

impl<'a> LuaAstToken<'a> for LuaLiteralToken<'a> {
    open spec fn spec_syntax(&self) -> LuaSyntaxToken<'a> {
        match self {
            LuaLiteralToken::String(t) => t.spec_syntax(),
            LuaLiteralToken::Number(t) => t.spec_syntax(),
            LuaLiteralToken::Bool(t) => t.spec_syntax(),
            LuaLiteralToken::Nil(t) => t.spec_syntax(),
            LuaLiteralToken::Dots(t) => t.spec_syntax(),
            LuaLiteralToken::Question(t) => t.spec_syntax(),
        }
    }

    open spec fn spec_can_cast(kind: LuaTokenKind) -> bool {
        kind == LuaTokenKind::TkInt || kind == LuaTokenKind::TkFloat || kind == LuaTokenKind::TkComplex || kind == LuaTokenKind::TkNil || kind == LuaTokenKind::TkTrue || kind == LuaTokenKind::TkFalse || kind == LuaTokenKind::TkDots || kind == LuaTokenKind::TkString || kind == LuaTokenKind::TkLongString || kind == LuaTokenKind::TkDocQuestion
    }

    /// A complex number is a literal kind, but no literal token is made of it.
    open spec fn spec_cast_ok(kind: LuaTokenKind) -> bool {
        Self::spec_can_cast(kind) && kind != LuaTokenKind::TkComplex
    }

    fn syntax(&self) -> (r: &LuaSyntaxToken<'a>) {
        match self {
            LuaLiteralToken::String(t) => t.syntax(),
            LuaLiteralToken::Number(t) => t.syntax(),
            LuaLiteralToken::Bool(t) => t.syntax(),
            LuaLiteralToken::Nil(t) => t.syntax(),
            LuaLiteralToken::Dots(t) => t.syntax(),
            LuaLiteralToken::Question(t) => t.syntax(),
        }
    }

    fn can_cast(kind: LuaTokenKind) -> (b: bool) {
        kind == LuaTokenKind::TkInt || kind == LuaTokenKind::TkFloat || kind == LuaTokenKind::TkComplex || kind == LuaTokenKind::TkNil || kind == LuaTokenKind::TkTrue || kind == LuaTokenKind::TkFalse || kind == LuaTokenKind::TkDots || kind == LuaTokenKind::TkString || kind == LuaTokenKind::TkLongString || kind == LuaTokenKind::TkDocQuestion
    }

    fn cast(syntax: LuaSyntaxToken<'a>) -> (r: Option<Self>) {
        match syntax.kind() {
            LuaTokenKind::TkString | LuaTokenKind::TkLongString => match LuaStringToken::cast(syntax) {
                Some(t) => Some(LuaLiteralToken::String(t)),
                None => None,
            },
            LuaTokenKind::TkFloat | LuaTokenKind::TkInt | LuaTokenKind::TkComplex => match LuaNumberToken::cast(syntax) {
                Some(t) => Some(LuaLiteralToken::Number(t)),
                None => None,
            },
            LuaTokenKind::TkTrue | LuaTokenKind::TkFalse => match LuaBoolToken::cast(syntax) {
                Some(t) => Some(LuaLiteralToken::Bool(t)),
                None => None,
            },
            LuaTokenKind::TkNil => match LuaNilToken::cast(syntax) {
                Some(t) => Some(LuaLiteralToken::Nil(t)),
                None => None,
            },
            LuaTokenKind::TkDots => match LuaGeneralToken::cast(syntax) {
                Some(t) => Some(LuaLiteralToken::Dots(t)),
                None => None,
            },
            LuaTokenKind::TkDocQuestion => match LuaGeneralToken::cast(syntax) {
                Some(t) => Some(LuaLiteralToken::Question(t)),
                None => None,
            },
            _ => None,
        }
    }
}

} // verus!
