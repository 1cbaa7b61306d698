use vstd::prelude::*;

use crate::kind::lua_syntax_kind::LuaSyntaxKind;
use crate::kind::lua_token_kind::LuaTokenKind;
use crate::syntax::traits::{
    LuaAstNode, LuaAstToken, child_ids, child_of, children_of, first_child_id, kind_pred, last_child_id,
    last_child_of, node_pred, nodes_are, opt_node_is, opt_token_is, token_by_kind_of, token_of,
    token_pred, tokens_are, tokens_of,
};
use crate::syntax::tree::syntax_tree::LuaSyntaxNode;
use crate::syntax::node::doc::{LuaDocGenericDecl, LuaDocGenericDeclList, LuaDocObjectField, LuaDocTypeList};
use crate::syntax::node::token::tokens::{LuaDocTypeBinaryToken, LuaDocTypeUnaryToken, LuaLiteralToken, LuaNameToken};
use crate::syntax::traits::{first_child_id_in, first_token_text_in, opt_text_is};
use crate::text::strings::{chars_to_string, vec_eq_str};

verus! {

/// The first position at or after `from` in `t` that holds `c`.
pub open spec fn spec_find_from(t: Seq<char>, from: int, c: char) -> Option<int>
    decreases t.len() - from,
{
    if from < 0 || from >= t.len() {
        None
    } else if t[from] == c {
        Some(from)
    } else {
        spec_find_from(t, from + 1, c)
    }
}

/// The first three pieces of `t` split at backticks (the first always exists).
pub open spec fn spec_backtick_pieces(t: Seq<char>) -> (Option<Seq<char>>, Option<Seq<char>>, Option<Seq<char>>) {
    let e0 = spec_find_from(t, 0, '`');
    let end0 = match e0 {
        Some(e) => e,
        None => t.len() as int,
    };
    match e0 {
        None => (Some(t.subrange(0, end0)), None, None),
        Some(e) => {
            let e1 = spec_find_from(t, e + 1, '`');
            let end1 = match e1 {
                Some(x) => x,
                None => t.len() as int,
            };
            match e1 {
                None => (Some(t.subrange(0, end0)), Some(t.subrange(e + 1, end1)), None),
                Some(x) => {
                    let e2 = spec_find_from(t, x + 1, '`');
                    let end2 = match e2 {
                        Some(y) => y,
                        None => t.len() as int,
                    };
                    (Some(t.subrange(0, end0)), Some(t.subrange(e + 1, end1)), Some(t.subrange(x + 1, end2)))
                },
            }
        },
    }
}

/// Finds `c` in `t` at or after `from`.
pub fn find_char_from(t: &Vec<char>, from: usize, c: char) -> (r: Option<usize>)
    requires
        from <= t@.len(),
    ensures
        r matches Some(i) ==> Some(i as int) == spec_find_from(t@, from as int, c),
        r is None ==> spec_find_from(t@, from as int, c) is None,
        r matches Some(i) ==> from <= i < t@.len(),
{
    let mut i = from;
    while i < t.len()
        invariant
            from <= i <= t@.len(),
            spec_find_from(t@, from as int, c) == spec_find_from(t@, i as int, c),
        decreases t@.len() - i,
    {
        if t[i] == c {
            return Some(i);
        }
        i += 1;
    }
    None
}

/// A doc type, of any form.
#[derive(Debug, Clone, Copy)]
pub enum LuaDocType<'a> {
    Name(LuaDocNameType<'a>),
    Infer(LuaDocInferType<'a>),
    Array(LuaDocArrayType<'a>),
    Func(LuaDocFuncType<'a>),
    Object(LuaDocObjectType<'a>),
    Binary(LuaDocBinaryType<'a>),
    Unary(LuaDocUnaryType<'a>),
    Conditional(LuaDocConditionalType<'a>),
    Tuple(LuaDocTupleType<'a>),
    Literal(LuaDocLiteralType<'a>),
    Variadic(LuaDocVariadicType<'a>),
    Nullable(LuaDocNullableType<'a>),
    Generic(LuaDocGenericType<'a>),
    StrTpl(LuaDocStrTplType<'a>),
    MultiLineUnion(LuaDocMultiLineUnionType<'a>),
    Attribute(LuaDocAttributeType<'a>),
    Mapped(LuaDocMappedType<'a>),
    IndexAccess(LuaDocIndexAccessType<'a>),
}

impl<'a> LuaAstNode<'a> for LuaDocType<'a> {
    open spec fn spec_syntax(&self) -> LuaSyntaxNode<'a> {
        match self {
            LuaDocType::Name(it) => it.spec_syntax(),
            LuaDocType::Infer(it) => it.spec_syntax(),
            LuaDocType::Array(it) => it.spec_syntax(),
            LuaDocType::Func(it) => it.spec_syntax(),
            LuaDocType::Object(it) => it.spec_syntax(),
            LuaDocType::Binary(it) => it.spec_syntax(),
            LuaDocType::Unary(it) => it.spec_syntax(),
            LuaDocType::Conditional(it) => it.spec_syntax(),
            LuaDocType::Tuple(it) => it.spec_syntax(),
            LuaDocType::Literal(it) => it.spec_syntax(),
            LuaDocType::Variadic(it) => it.spec_syntax(),
            LuaDocType::Nullable(it) => it.spec_syntax(),
            LuaDocType::Generic(it) => it.spec_syntax(),
            LuaDocType::StrTpl(it) => it.spec_syntax(),
            LuaDocType::MultiLineUnion(it) => it.spec_syntax(),
            LuaDocType::Attribute(it) => it.spec_syntax(),
            LuaDocType::Mapped(it) => it.spec_syntax(),
            LuaDocType::IndexAccess(it) => it.spec_syntax(),
        }
    }

    open spec fn spec_can_cast(kind: LuaSyntaxKind) -> bool {
        kind == LuaSyntaxKind::TypeName
            || kind == LuaSyntaxKind::TypeInfer
            || kind == LuaSyntaxKind::TypeArray
            || kind == LuaSyntaxKind::TypeFun
            || kind == LuaSyntaxKind::TypeObject
            || kind == LuaSyntaxKind::TypeBinary
            || kind == LuaSyntaxKind::TypeUnary
            || kind == LuaSyntaxKind::TypeConditional
            || kind == LuaSyntaxKind::TypeTuple
            || kind == LuaSyntaxKind::TypeLiteral
            || kind == LuaSyntaxKind::TypeVariadic
            || kind == LuaSyntaxKind::TypeNullable
            || kind == LuaSyntaxKind::TypeGeneric
            || kind == LuaSyntaxKind::TypeStringTemplate
            || kind == LuaSyntaxKind::TypeMultiLineUnion
            || kind == LuaSyntaxKind::TypeAttribute
            || kind == LuaSyntaxKind::TypeMapped
            || kind == LuaSyntaxKind::TypeIndexAccess
    }

    open spec fn spec_cast_ok(kind: LuaSyntaxKind) -> bool {
        Self::spec_can_cast(kind)
    }

    fn syntax(&self) -> (r: &LuaSyntaxNode<'a>) {
        match self {
            LuaDocType::Name(it) => it.syntax(),
            LuaDocType::Infer(it) => it.syntax(),
            LuaDocType::Array(it) => it.syntax(),
            LuaDocType::Func(it) => it.syntax(),
            LuaDocType::Object(it) => it.syntax(),
            LuaDocType::Binary(it) => it.syntax(),
            LuaDocType::Unary(it) => it.syntax(),
            LuaDocType::Conditional(it) => it.syntax(),
            LuaDocType::Tuple(it) => it.syntax(),
            LuaDocType::Literal(it) => it.syntax(),
            LuaDocType::Variadic(it) => it.syntax(),
            LuaDocType::Nullable(it) => it.syntax(),
            LuaDocType::Generic(it) => it.syntax(),
            LuaDocType::StrTpl(it) => it.syntax(),
            LuaDocType::MultiLineUnion(it) => it.syntax(),
            LuaDocType::Attribute(it) => it.syntax(),
            LuaDocType::Mapped(it) => it.syntax(),
            LuaDocType::IndexAccess(it) => it.syntax(),
        }
    }

    fn can_cast(kind: LuaSyntaxKind) -> (b: bool) {
        kind == LuaSyntaxKind::TypeName
            || kind == LuaSyntaxKind::TypeInfer
            || kind == LuaSyntaxKind::TypeArray
            || kind == LuaSyntaxKind::TypeFun
            || kind == LuaSyntaxKind::TypeObject
            || kind == LuaSyntaxKind::TypeBinary
            || kind == LuaSyntaxKind::TypeUnary
            || kind == LuaSyntaxKind::TypeConditional
            || kind == LuaSyntaxKind::TypeTuple
            || kind == LuaSyntaxKind::TypeLiteral
            || kind == LuaSyntaxKind::TypeVariadic
            || kind == LuaSyntaxKind::TypeNullable
            || kind == LuaSyntaxKind::TypeGeneric
            || kind == LuaSyntaxKind::TypeStringTemplate
            || kind == LuaSyntaxKind::TypeMultiLineUnion
            || kind == LuaSyntaxKind::TypeAttribute
            || kind == LuaSyntaxKind::TypeMapped
            || kind == LuaSyntaxKind::TypeIndexAccess
    }

    fn cast(syntax: LuaSyntaxNode<'a>) -> (r: Option<Self>) {
        match syntax.kind() {
            LuaSyntaxKind::TypeName => match LuaDocNameType::cast(syntax) {
                Some(it) => Some(LuaDocType::Name(it)),
                None => None,
            },
            LuaSyntaxKind::TypeInfer => match LuaDocInferType::cast(syntax) {
                Some(it) => Some(LuaDocType::Infer(it)),
                None => None,
            },
            LuaSyntaxKind::TypeArray => match LuaDocArrayType::cast(syntax) {
                Some(it) => Some(LuaDocType::Array(it)),
                None => None,
            },
            LuaSyntaxKind::TypeFun => match LuaDocFuncType::cast(syntax) {
                Some(it) => Some(LuaDocType::Func(it)),
                None => None,
            },
            LuaSyntaxKind::TypeObject => match LuaDocObjectType::cast(syntax) {
                Some(it) => Some(LuaDocType::Object(it)),
                None => None,
            },
            LuaSyntaxKind::TypeBinary => match LuaDocBinaryType::cast(syntax) {
                Some(it) => Some(LuaDocType::Binary(it)),
                None => None,
            },
            LuaSyntaxKind::TypeUnary => match LuaDocUnaryType::cast(syntax) {
                Some(it) => Some(LuaDocType::Unary(it)),
                None => None,
            },
            LuaSyntaxKind::TypeConditional => match LuaDocConditionalType::cast(syntax) {
                Some(it) => Some(LuaDocType::Conditional(it)),
                None => None,
            },
            LuaSyntaxKind::TypeTuple => match LuaDocTupleType::cast(syntax) {
                Some(it) => Some(LuaDocType::Tuple(it)),
                None => None,
            },
            LuaSyntaxKind::TypeLiteral => match LuaDocLiteralType::cast(syntax) {
                Some(it) => Some(LuaDocType::Literal(it)),
                None => None,
            },
            LuaSyntaxKind::TypeVariadic => match LuaDocVariadicType::cast(syntax) {
                Some(it) => Some(LuaDocType::Variadic(it)),
                None => None,
            },
            LuaSyntaxKind::TypeNullable => match LuaDocNullableType::cast(syntax) {
                Some(it) => Some(LuaDocType::Nullable(it)),
                None => None,
            },
            LuaSyntaxKind::TypeGeneric => match LuaDocGenericType::cast(syntax) {
                Some(it) => Some(LuaDocType::Generic(it)),
                None => None,
            },
            LuaSyntaxKind::TypeStringTemplate => match LuaDocStrTplType::cast(syntax) {
                Some(it) => Some(LuaDocType::StrTpl(it)),
                None => None,
            },
            LuaSyntaxKind::TypeMultiLineUnion => match LuaDocMultiLineUnionType::cast(syntax) {
                Some(it) => Some(LuaDocType::MultiLineUnion(it)),
                None => None,
            },
            LuaSyntaxKind::TypeAttribute => match LuaDocAttributeType::cast(syntax) {
                Some(it) => Some(LuaDocType::Attribute(it)),
                None => None,
            },
            LuaSyntaxKind::TypeMapped => match LuaDocMappedType::cast(syntax) {
                Some(it) => Some(LuaDocType::Mapped(it)),
                None => None,
            },
            LuaSyntaxKind::TypeIndexAccess => match LuaDocIndexAccessType::cast(syntax) {
                Some(it) => Some(LuaDocType::IndexAccess(it)),
                None => None,
            },
            _ => None,
        }
    }
}

/// A named type: `string`, `Foo`.
#[derive(Debug, Clone, Copy)]
pub struct LuaDocNameType<'a> {
    syntax: LuaSyntaxNode<'a>,
}

impl<'a> LuaAstNode<'a> for LuaDocNameType<'a> {
    closed spec fn spec_syntax(&self) -> LuaSyntaxNode<'a> {
        self.syntax
    }

    open spec fn spec_can_cast(kind: LuaSyntaxKind) -> bool {
        kind == LuaSyntaxKind::TypeName
    }

    open spec fn spec_cast_ok(kind: LuaSyntaxKind) -> bool {
        Self::spec_can_cast(kind)
    }

    fn syntax(&self) -> (r: &LuaSyntaxNode<'a>) {
        &self.syntax
    }

    fn can_cast(kind: LuaSyntaxKind) -> (b: bool) {
        kind == LuaSyntaxKind::TypeName
    }

    fn cast(syntax: LuaSyntaxNode<'a>) -> (r: Option<Self>) {
        if Self::can_cast(syntax.kind()) {
            Some(LuaDocNameType { syntax })
        } else {
            None
        }
    }
}

impl<'a> LuaDocNameType<'a> {
    pub fn get_name_token(&self) -> (r: Option<LuaNameToken<'a>>)
        ensures
            opt_token_is(r, self.spec_syntax(), first_child_id(self.spec_syntax(), token_pred::<LuaNameToken<'a>>())),
    {
        token_of::<LuaNameToken<'a>>(self.syntax)
    }

    pub fn get_generic_param(&self) -> (r: Option<LuaDocGenericDecl<'a>>)
        ensures
            opt_node_is(r, self.spec_syntax(), first_child_id(self.spec_syntax(), node_pred::<LuaDocGenericDecl<'a>>())),
    {
        child_of::<LuaDocGenericDecl<'a>>(self.syntax)
    }

    /// The name, as text.
    pub fn get_name_text(&self) -> (r: Option<String>)
        ensures
            opt_text_is(r, *self.spec_syntax().spec_tree(), first_child_id(self.spec_syntax(), token_pred::<LuaNameToken<'a>>())),
    {
        match self.get_name_token() {
            Some(it) => Some(it.get_name_text()),
            None => None,
        }
    }
}

/// `infer T` in a conditional type.
#[derive(Debug, Clone, Copy)]
pub struct LuaDocInferType<'a> {
    syntax: LuaSyntaxNode<'a>,
}

impl<'a> LuaAstNode<'a> for LuaDocInferType<'a> {
    closed spec fn spec_syntax(&self) -> LuaSyntaxNode<'a> {
        self.syntax
    }

    open spec fn spec_can_cast(kind: LuaSyntaxKind) -> bool {
        kind == LuaSyntaxKind::TypeInfer
    }

    open spec fn spec_cast_ok(kind: LuaSyntaxKind) -> bool {
        Self::spec_can_cast(kind)
    }

    fn syntax(&self) -> (r: &LuaSyntaxNode<'a>) {
        &self.syntax
    }

    fn can_cast(kind: LuaSyntaxKind) -> (b: bool) {
        kind == LuaSyntaxKind::TypeInfer
    }

    fn cast(syntax: LuaSyntaxNode<'a>) -> (r: Option<Self>) {
        if Self::can_cast(syntax.kind()) {
            Some(LuaDocInferType { syntax })
        } else {
            None
        }
    }
}

impl<'a> LuaDocInferType<'a> {
    pub fn get_generic_decl(&self) -> (r: Option<LuaDocGenericDecl<'a>>)
        ensures
            opt_node_is(r, self.spec_syntax(), first_child_id(self.spec_syntax(), node_pred::<LuaDocGenericDecl<'a>>())),
    {
        child_of::<LuaDocGenericDecl<'a>>(self.syntax)
    }

    /// The name of the inferred parameter, as text.
    pub fn get_generic_decl_name_text(&self) -> (r: Option<String>)
        ensures
            opt_text_is(
                r,
                *self.spec_syntax().spec_tree(),
                match first_child_id(self.spec_syntax(), node_pred::<LuaDocGenericDecl<'a>>()) {
                    Some(d) => first_child_id_in(*self.spec_syntax().spec_tree(), d, token_pred::<LuaNameToken<'a>>()),
                    None => None,
                },
            ),
    {
        match self.get_generic_decl() {
            Some(d) => match d.get_name_token() {
                Some(t) => Some(t.get_name_text()),
                None => None,
            },
            None => None,
        }
    }
}

/// `T[]`.
#[derive(Debug, Clone, Copy)]
pub struct LuaDocArrayType<'a> {
    syntax: LuaSyntaxNode<'a>,
}

impl<'a> LuaAstNode<'a> for LuaDocArrayType<'a> {
    closed spec fn spec_syntax(&self) -> LuaSyntaxNode<'a> {
        self.syntax
    }

    open spec fn spec_can_cast(kind: LuaSyntaxKind) -> bool {
        kind == LuaSyntaxKind::TypeArray
    }

    open spec fn spec_cast_ok(kind: LuaSyntaxKind) -> bool {
        Self::spec_can_cast(kind)
    }

    fn syntax(&self) -> (r: &LuaSyntaxNode<'a>) {
        &self.syntax
    }

    fn can_cast(kind: LuaSyntaxKind) -> (b: bool) {
        kind == LuaSyntaxKind::TypeArray
    }

    fn cast(syntax: LuaSyntaxNode<'a>) -> (r: Option<Self>) {
        if Self::can_cast(syntax.kind()) {
            Some(LuaDocArrayType { syntax })
        } else {
            None
        }
    }
}

impl<'a> LuaDocArrayType<'a> {
    pub fn get_type(&self) -> (r: Option<LuaDocType<'a>>)
        ensures
            opt_node_is(r, self.spec_syntax(), first_child_id(self.spec_syntax(), node_pred::<LuaDocType<'a>>())),
    {
        child_of::<LuaDocType<'a>>(self.syntax)
    }
}

/// `fun(...): ...`.
#[derive(Debug, Clone, Copy)]
pub struct LuaDocFuncType<'a> {
    syntax: LuaSyntaxNode<'a>,
}

impl<'a> LuaAstNode<'a> for LuaDocFuncType<'a> {
    closed spec fn spec_syntax(&self) -> LuaSyntaxNode<'a> {
        self.syntax
    }

    open spec fn spec_can_cast(kind: LuaSyntaxKind) -> bool {
        kind == LuaSyntaxKind::TypeFun
    }

    open spec fn spec_cast_ok(kind: LuaSyntaxKind) -> bool {
        Self::spec_can_cast(kind)
    }

    fn syntax(&self) -> (r: &LuaSyntaxNode<'a>) {
        &self.syntax
    }

    fn can_cast(kind: LuaSyntaxKind) -> (b: bool) {
        kind == LuaSyntaxKind::TypeFun
    }

    fn cast(syntax: LuaSyntaxNode<'a>) -> (r: Option<Self>) {
        if Self::can_cast(syntax.kind()) {
            Some(LuaDocFuncType { syntax })
        } else {
            None
        }
    }
}

impl<'a> LuaDocFuncType<'a> {
    pub fn get_params(&self) -> (r: Vec<LuaDocTypeParam<'a>>)
        ensures
            nodes_are(r@, self.spec_syntax(), child_ids(self.spec_syntax(), node_pred::<LuaDocTypeParam<'a>>())),
    {
        children_of::<LuaDocTypeParam<'a>>(self.syntax)
    }

    pub fn get_generic_decl_list(&self) -> (r: Option<LuaDocGenericDeclList<'a>>)
        ensures
            opt_node_is(r, self.spec_syntax(), first_child_id(self.spec_syntax(), node_pred::<LuaDocGenericDeclList<'a>>())),
    {
        child_of::<LuaDocGenericDeclList<'a>>(self.syntax)
    }

    pub fn get_return_type_list(&self) -> (r: Option<LuaDocTypeList<'a>>)
        ensures
            opt_node_is(r, self.spec_syntax(), first_child_id(self.spec_syntax(), node_pred::<LuaDocTypeList<'a>>())),
    {
        child_of::<LuaDocTypeList<'a>>(self.syntax)
    }

    /// Whether the first name of the function type is `async`.
    pub fn is_async(&self) -> (b: bool)
        ensures
            b == (first_token_text_in(*self.spec_syntax().spec_tree(), self.spec_syntax().spec_id(), token_pred::<LuaNameToken<'a>>()) == Some("async"@)),
    {
        match token_of::<LuaNameToken<'a>>(self.syntax) {
            Some(it) => vec_eq_str(it.syntax().text(), "async"),
            None => false,
        }
    }

    /// Whether the first name of the function type is `sync`.
    pub fn is_sync(&self) -> (b: bool)
        ensures
            b == (first_token_text_in(*self.spec_syntax().spec_tree(), self.spec_syntax().spec_id(), token_pred::<LuaNameToken<'a>>()) == Some("sync"@)),
    {
        match token_of::<LuaNameToken<'a>>(self.syntax) {
            Some(it) => vec_eq_str(it.syntax().text(), "sync"),
            None => false,
        }
    }
}

/// A parameter of a function type.
#[derive(Debug, Clone, Copy)]
pub struct LuaDocTypeParam<'a> {
    syntax: LuaSyntaxNode<'a>,
}

impl<'a> LuaAstNode<'a> for LuaDocTypeParam<'a> {
    closed spec fn spec_syntax(&self) -> LuaSyntaxNode<'a> {
        self.syntax
    }

    open spec fn spec_can_cast(kind: LuaSyntaxKind) -> bool {
        kind == LuaSyntaxKind::DocTypedParameter
    }

    open spec fn spec_cast_ok(kind: LuaSyntaxKind) -> bool {
        Self::spec_can_cast(kind)
    }

    fn syntax(&self) -> (r: &LuaSyntaxNode<'a>) {
        &self.syntax
    }

    fn can_cast(kind: LuaSyntaxKind) -> (b: bool) {
        kind == LuaSyntaxKind::DocTypedParameter
    }

    fn cast(syntax: LuaSyntaxNode<'a>) -> (r: Option<Self>) {
        if Self::can_cast(syntax.kind()) {
            Some(LuaDocTypeParam { syntax })
        } else {
            None
        }
    }
}

impl<'a> LuaDocTypeParam<'a> {
    pub fn is_dots(&self) -> (b: bool)
        ensures
            b == first_child_id(self.spec_syntax(), kind_pred(LuaTokenKind::TkDots)) is Some,
    {
        token_by_kind_of(self.syntax, LuaTokenKind::TkDots).is_some()
    }

    pub fn get_name_token(&self) -> (r: Option<LuaNameToken<'a>>)
        ensures
            opt_token_is(r, self.spec_syntax(), first_child_id(self.spec_syntax(), token_pred::<LuaNameToken<'a>>())),
    {
        token_of::<LuaNameToken<'a>>(self.syntax)
    }

    pub fn get_type(&self) -> (r: Option<LuaDocType<'a>>)
        ensures
            opt_node_is(r, self.spec_syntax(), first_child_id(self.spec_syntax(), node_pred::<LuaDocType<'a>>())),
    {
        child_of::<LuaDocType<'a>>(self.syntax)
    }

    pub fn is_nullable(&self) -> (b: bool)
        ensures
            b == first_child_id(self.spec_syntax(), kind_pred(LuaTokenKind::TkDocQuestion)) is Some,
    {
        token_by_kind_of(self.syntax, LuaTokenKind::TkDocQuestion).is_some()
    }
}

/// `{ a: T, ... }`.
#[derive(Debug, Clone, Copy)]
pub struct LuaDocObjectType<'a> {
    syntax: LuaSyntaxNode<'a>,
}

impl<'a> LuaAstNode<'a> for LuaDocObjectType<'a> {
    closed spec fn spec_syntax(&self) -> LuaSyntaxNode<'a> {
        self.syntax
    }

    open spec fn spec_can_cast(kind: LuaSyntaxKind) -> bool {
        kind == LuaSyntaxKind::TypeObject
    }

    open spec fn spec_cast_ok(kind: LuaSyntaxKind) -> bool {
        Self::spec_can_cast(kind)
    }

    fn syntax(&self) -> (r: &LuaSyntaxNode<'a>) {
        &self.syntax
    }

    fn can_cast(kind: LuaSyntaxKind) -> (b: bool) {
        kind == LuaSyntaxKind::TypeObject
    }

    fn cast(syntax: LuaSyntaxNode<'a>) -> (r: Option<Self>) {
        if Self::can_cast(syntax.kind()) {
            Some(LuaDocObjectType { syntax })
        } else {
            None
        }
    }
}

impl<'a> LuaDocObjectType<'a> {
    pub fn get_fields(&self) -> (r: Vec<LuaDocObjectField<'a>>)
        ensures
            nodes_are(r@, self.spec_syntax(), child_ids(self.spec_syntax(), node_pred::<LuaDocObjectField<'a>>())),
    {
        children_of::<LuaDocObjectField<'a>>(self.syntax)
    }
}

/// `A | B`, `A & B`, `A extends B`, ...
#[derive(Debug, Clone, Copy)]
pub struct LuaDocBinaryType<'a> {
    syntax: LuaSyntaxNode<'a>,
}

impl<'a> LuaAstNode<'a> for LuaDocBinaryType<'a> {
    closed spec fn spec_syntax(&self) -> LuaSyntaxNode<'a> {
        self.syntax
    }

    open spec fn spec_can_cast(kind: LuaSyntaxKind) -> bool {
        kind == LuaSyntaxKind::TypeBinary
    }

    open spec fn spec_cast_ok(kind: LuaSyntaxKind) -> bool {
        Self::spec_can_cast(kind)
    }

    fn syntax(&self) -> (r: &LuaSyntaxNode<'a>) {
        &self.syntax
    }

    fn can_cast(kind: LuaSyntaxKind) -> (b: bool) {
        kind == LuaSyntaxKind::TypeBinary
    }

    fn cast(syntax: LuaSyntaxNode<'a>) -> (r: Option<Self>) {
        if Self::can_cast(syntax.kind()) {
            Some(LuaDocBinaryType { syntax })
        } else {
            None
        }
    }
}

impl<'a> LuaDocBinaryType<'a> {
    pub fn get_op_token(&self) -> (r: Option<LuaDocTypeBinaryToken<'a>>)
        ensures
            opt_token_is(r, self.spec_syntax(), first_child_id(self.spec_syntax(), token_pred::<LuaDocTypeBinaryToken<'a>>())),
    {
        token_of::<LuaDocTypeBinaryToken<'a>>(self.syntax)
    }

    /// The two operand types.
    pub fn get_types(&self) -> (r: Option<(LuaDocType<'a>, LuaDocType<'a>)>)
        ensures
            ({
                let ids = child_ids(self.spec_syntax(), node_pred::<LuaDocType<'a>>());
                &&& (r is Some <==> ids.len() >= 2)
                &&& (r matches Some(p) ==> {
                    &&& p.0.spec_syntax().spec_id() == ids[0]
                    &&& p.1.spec_syntax().spec_id() == ids[1]
                    &&& p.0.spec_syntax().spec_tree() == self.spec_syntax().spec_tree()
                    &&& p.1.spec_syntax().spec_tree() == self.spec_syntax().spec_tree()
                })
            }),
    {
        let v = children_of::<LuaDocType<'a>>(self.syntax);
        if v.len() >= 2 {
            Some((v[0], v[1]))
        } else {
            None
        }
    }
}

/// `keyof T`, `-1`.
#[derive(Debug, Clone, Copy)]
pub struct LuaDocUnaryType<'a> {
    syntax: LuaSyntaxNode<'a>,
}

impl<'a> LuaAstNode<'a> for LuaDocUnaryType<'a> {
    closed spec fn spec_syntax(&self) -> LuaSyntaxNode<'a> {
        self.syntax
    }

    open spec fn spec_can_cast(kind: LuaSyntaxKind) -> bool {
        kind == LuaSyntaxKind::TypeUnary
    }

    open spec fn spec_cast_ok(kind: LuaSyntaxKind) -> bool {
        Self::spec_can_cast(kind)
    }

    fn syntax(&self) -> (r: &LuaSyntaxNode<'a>) {
        &self.syntax
    }

    fn can_cast(kind: LuaSyntaxKind) -> (b: bool) {
        kind == LuaSyntaxKind::TypeUnary
    }

    fn cast(syntax: LuaSyntaxNode<'a>) -> (r: Option<Self>) {
        if Self::can_cast(syntax.kind()) {
            Some(LuaDocUnaryType { syntax })
        } else {
            None
        }
    }
}

impl<'a> LuaDocUnaryType<'a> {
    pub fn get_op_token(&self) -> (r: Option<LuaDocTypeUnaryToken<'a>>)
        ensures
            opt_token_is(r, self.spec_syntax(), first_child_id(self.spec_syntax(), token_pred::<LuaDocTypeUnaryToken<'a>>())),
    {
        token_of::<LuaDocTypeUnaryToken<'a>>(self.syntax)
    }

    pub fn get_type(&self) -> (r: Option<LuaDocType<'a>>)
        ensures
            opt_node_is(r, self.spec_syntax(), first_child_id(self.spec_syntax(), node_pred::<LuaDocType<'a>>())),
    {
        child_of::<LuaDocType<'a>>(self.syntax)
    }
}

/// `C and T or F`.
#[derive(Debug, Clone, Copy)]
pub struct LuaDocConditionalType<'a> {
    syntax: LuaSyntaxNode<'a>,
}

impl<'a> LuaAstNode<'a> for LuaDocConditionalType<'a> {
    closed spec fn spec_syntax(&self) -> LuaSyntaxNode<'a> {
        self.syntax
    }

    open spec fn spec_can_cast(kind: LuaSyntaxKind) -> bool {
        kind == LuaSyntaxKind::TypeConditional
    }

    open spec fn spec_cast_ok(kind: LuaSyntaxKind) -> bool {
        Self::spec_can_cast(kind)
    }

    fn syntax(&self) -> (r: &LuaSyntaxNode<'a>) {
        &self.syntax
    }

    fn can_cast(kind: LuaSyntaxKind) -> (b: bool) {
        kind == LuaSyntaxKind::TypeConditional
    }

    fn cast(syntax: LuaSyntaxNode<'a>) -> (r: Option<Self>) {
        if Self::can_cast(syntax.kind()) {
            Some(LuaDocConditionalType { syntax })
        } else {
            None
        }
    }
}

impl<'a> LuaDocConditionalType<'a> {
    /// The condition, true and false types.
    pub fn get_types(&self) -> (r: Option<(LuaDocType<'a>, LuaDocType<'a>, LuaDocType<'a>)>)
        ensures
            ({
                let ids = child_ids(self.spec_syntax(), node_pred::<LuaDocType<'a>>());
                &&& (r is Some <==> ids.len() >= 3)
                &&& (r matches Some(p) ==> {
                    &&& p.0.spec_syntax().spec_id() == ids[0]
                    &&& p.1.spec_syntax().spec_id() == ids[1]
                    &&& p.2.spec_syntax().spec_id() == ids[2]
                    &&& p.0.spec_syntax().spec_tree() == self.spec_syntax().spec_tree()
                    &&& p.1.spec_syntax().spec_tree() == self.spec_syntax().spec_tree()
                    &&& p.2.spec_syntax().spec_tree() == self.spec_syntax().spec_tree()
                })
            }),
    {
        let v = children_of::<LuaDocType<'a>>(self.syntax);
        if v.len() >= 3 {
            Some((v[0], v[1], v[2]))
        } else {
            None
        }
    }

    /// The type taken when the condition holds.
    pub fn get_true_type(&self) -> (r: Option<LuaDocType<'a>>)
        ensures
            ({
                let ids = child_ids(self.spec_syntax(), node_pred::<LuaDocType<'a>>());
                &&& (r is Some <==> ids.len() >= 2)
                &&& (r matches Some(t) ==> t.spec_syntax().spec_id() == ids[1]
                    && t.spec_syntax().spec_tree() == self.spec_syntax().spec_tree())
            }),
    {
        let v = children_of::<LuaDocType<'a>>(self.syntax);
        if v.len() >= 2 {
            Some(v[1])
        } else {
            None
        }
    }
}

/// `[A, B]`.
#[derive(Debug, Clone, Copy)]
pub struct LuaDocTupleType<'a> {
    syntax: LuaSyntaxNode<'a>,
}

impl<'a> LuaAstNode<'a> for LuaDocTupleType<'a> {
    closed spec fn spec_syntax(&self) -> LuaSyntaxNode<'a> {
        self.syntax
    }

    open spec fn spec_can_cast(kind: LuaSyntaxKind) -> bool {
        kind == LuaSyntaxKind::TypeTuple
    }

    open spec fn spec_cast_ok(kind: LuaSyntaxKind) -> bool {
        Self::spec_can_cast(kind)
    }

    fn syntax(&self) -> (r: &LuaSyntaxNode<'a>) {
        &self.syntax
    }

    fn can_cast(kind: LuaSyntaxKind) -> (b: bool) {
        kind == LuaSyntaxKind::TypeTuple
    }

    fn cast(syntax: LuaSyntaxNode<'a>) -> (r: Option<Self>) {
        if Self::can_cast(syntax.kind()) {
            Some(LuaDocTupleType { syntax })
        } else {
            None
        }
    }
}

impl<'a> LuaDocTupleType<'a> {
    pub fn get_types(&self) -> (r: Vec<LuaDocType<'a>>)
        ensures
            nodes_are(r@, self.spec_syntax(), child_ids(self.spec_syntax(), node_pred::<LuaDocType<'a>>())),
    {
        children_of::<LuaDocType<'a>>(self.syntax)
    }
}

/// A literal type: a string, an integer, a boolean.
#[derive(Debug, Clone, Copy)]
pub struct LuaDocLiteralType<'a> {
    syntax: LuaSyntaxNode<'a>,
}

impl<'a> LuaAstNode<'a> for LuaDocLiteralType<'a> {
    closed spec fn spec_syntax(&self) -> LuaSyntaxNode<'a> {
        self.syntax
    }

    open spec fn spec_can_cast(kind: LuaSyntaxKind) -> bool {
        kind == LuaSyntaxKind::TypeLiteral
    }

    open spec fn spec_cast_ok(kind: LuaSyntaxKind) -> bool {
        Self::spec_can_cast(kind)
    }

    fn syntax(&self) -> (r: &LuaSyntaxNode<'a>) {
        &self.syntax
    }

    fn can_cast(kind: LuaSyntaxKind) -> (b: bool) {
        kind == LuaSyntaxKind::TypeLiteral
    }

    fn cast(syntax: LuaSyntaxNode<'a>) -> (r: Option<Self>) {
        if Self::can_cast(syntax.kind()) {
            Some(LuaDocLiteralType { syntax })
        } else {
            None
        }
    }
}

impl<'a> LuaDocLiteralType<'a> {
    pub fn get_literal(&self) -> (r: Option<LuaLiteralToken<'a>>)
        ensures
            opt_token_is(r, self.spec_syntax(), first_child_id(self.spec_syntax(), token_pred::<LuaLiteralToken<'a>>())),
    {
        token_of::<LuaLiteralToken<'a>>(self.syntax)
    }
}

/// `T...`.
#[derive(Debug, Clone, Copy)]
pub struct LuaDocVariadicType<'a> {
    syntax: LuaSyntaxNode<'a>,
}

impl<'a> LuaAstNode<'a> for LuaDocVariadicType<'a> {
    closed spec fn spec_syntax(&self) -> LuaSyntaxNode<'a> {
        self.syntax
    }

    open spec fn spec_can_cast(kind: LuaSyntaxKind) -> bool {
        kind == LuaSyntaxKind::TypeVariadic
    }

    open spec fn spec_cast_ok(kind: LuaSyntaxKind) -> bool {
        Self::spec_can_cast(kind)
    }

    fn syntax(&self) -> (r: &LuaSyntaxNode<'a>) {
        &self.syntax
    }

    fn can_cast(kind: LuaSyntaxKind) -> (b: bool) {
        kind == LuaSyntaxKind::TypeVariadic
    }

    fn cast(syntax: LuaSyntaxNode<'a>) -> (r: Option<Self>) {
        if Self::can_cast(syntax.kind()) {
            Some(LuaDocVariadicType { syntax })
        } else {
            None
        }
    }
}

impl<'a> LuaDocVariadicType<'a> {
    pub fn get_type(&self) -> (r: Option<LuaDocType<'a>>)
        ensures
            opt_node_is(r, self.spec_syntax(), first_child_id(self.spec_syntax(), node_pred::<LuaDocType<'a>>())),
    {
        child_of::<LuaDocType<'a>>(self.syntax)
    }
}

/// `T?`.
#[derive(Debug, Clone, Copy)]
pub struct LuaDocNullableType<'a> {
    syntax: LuaSyntaxNode<'a>,
}

impl<'a> LuaAstNode<'a> for LuaDocNullableType<'a> {
    closed spec fn spec_syntax(&self) -> LuaSyntaxNode<'a> {
        self.syntax
    }

    open spec fn spec_can_cast(kind: LuaSyntaxKind) -> bool {
        kind == LuaSyntaxKind::TypeNullable
    }

    open spec fn spec_cast_ok(kind: LuaSyntaxKind) -> bool {
        Self::spec_can_cast(kind)
    }

    fn syntax(&self) -> (r: &LuaSyntaxNode<'a>) {
        &self.syntax
    }

    fn can_cast(kind: LuaSyntaxKind) -> (b: bool) {
        kind == LuaSyntaxKind::TypeNullable
    }

    fn cast(syntax: LuaSyntaxNode<'a>) -> (r: Option<Self>) {
        if Self::can_cast(syntax.kind()) {
            Some(LuaDocNullableType { syntax })
        } else {
            None
        }
    }
}

impl<'a> LuaDocNullableType<'a> {
    pub fn get_type(&self) -> (r: Option<LuaDocType<'a>>)
        ensures
            opt_node_is(r, self.spec_syntax(), first_child_id(self.spec_syntax(), node_pred::<LuaDocType<'a>>())),
    {
        child_of::<LuaDocType<'a>>(self.syntax)
    }
}

/// `Name<T, ...>`.
#[derive(Debug, Clone, Copy)]
pub struct LuaDocGenericType<'a> {
    syntax: LuaSyntaxNode<'a>,
}

impl<'a> LuaAstNode<'a> for LuaDocGenericType<'a> {
    closed spec fn spec_syntax(&self) -> LuaSyntaxNode<'a> {
        self.syntax
    }

    open spec fn spec_can_cast(kind: LuaSyntaxKind) -> bool {
        kind == LuaSyntaxKind::TypeGeneric
    }

    open spec fn spec_cast_ok(kind: LuaSyntaxKind) -> bool {
        Self::spec_can_cast(kind)
    }

    fn syntax(&self) -> (r: &LuaSyntaxNode<'a>) {
        &self.syntax
    }

    fn can_cast(kind: LuaSyntaxKind) -> (b: bool) {
        kind == LuaSyntaxKind::TypeGeneric
    }

    fn cast(syntax: LuaSyntaxNode<'a>) -> (r: Option<Self>) {
        if Self::can_cast(syntax.kind()) {
            Some(LuaDocGenericType { syntax })
        } else {
            None
        }
    }
}

impl<'a> LuaDocGenericType<'a> {
    pub fn get_name_type(&self) -> (r: Option<LuaDocNameType<'a>>)
        ensures
            opt_node_is(r, self.spec_syntax(), first_child_id(self.spec_syntax(), node_pred::<LuaDocNameType<'a>>())),
    {
        child_of::<LuaDocNameType<'a>>(self.syntax)
    }

    pub fn get_generic_types(&self) -> (r: Option<LuaDocTypeList<'a>>)
        ensures
            opt_node_is(r, self.spec_syntax(), first_child_id(self.spec_syntax(), node_pred::<LuaDocTypeList<'a>>())),
    {
        child_of::<LuaDocTypeList<'a>>(self.syntax)
    }
}

/// A string template type.
#[derive(Debug, Clone, Copy)]
pub struct LuaDocStrTplType<'a> {
    syntax: LuaSyntaxNode<'a>,
}

impl<'a> LuaAstNode<'a> for LuaDocStrTplType<'a> {
    closed spec fn spec_syntax(&self) -> LuaSyntaxNode<'a> {
        self.syntax
    }

    open spec fn spec_can_cast(kind: LuaSyntaxKind) -> bool {
        kind == LuaSyntaxKind::TypeStringTemplate
    }

    open spec fn spec_cast_ok(kind: LuaSyntaxKind) -> bool {
        Self::spec_can_cast(kind)
    }

    fn syntax(&self) -> (r: &LuaSyntaxNode<'a>) {
        &self.syntax
    }

    fn can_cast(kind: LuaSyntaxKind) -> (b: bool) {
        kind == LuaSyntaxKind::TypeStringTemplate
    }

    fn cast(syntax: LuaSyntaxNode<'a>) -> (r: Option<Self>) {
        if Self::can_cast(syntax.kind()) {
            Some(LuaDocStrTplType { syntax })
        } else {
            None
        }
    }
}

impl<'a> LuaDocStrTplType<'a> {
    /// The text of the template token split at backticks: the first three
    /// pieces.
    pub fn get_name(&self) -> (r: (Option<String>, Option<String>, Option<String>))
        ensures
            match first_child_id(self.spec_syntax(), kind_pred(LuaTokenKind::TkStringTemplateType)) {
                None => r.0 is None && r.1 is None && r.2 is None,
                Some(id) => {
                    let t = self.spec_syntax().spec_tree().text_of(id);
                    let p = spec_backtick_pieces(t);
                    &&& (r.0 is Some <==> p.0 is Some) && (r.0 matches Some(s) ==> s@ == p.0->0)
                    &&& (r.1 is Some <==> p.1 is Some) && (r.1 matches Some(s) ==> s@ == p.1->0)
                    &&& (r.2 is Some <==> p.2 is Some) && (r.2 matches Some(s) ==> s@ == p.2->0)
                },
            },
    {
        let tok = token_by_kind_of(self.syntax, LuaTokenKind::TkStringTemplateType);
        match tok {
            None => (None, None, None),
            Some(t) => {
                let text = t.text();
                let n = text.len();
                let e0 = find_char_from(text, 0, '`');
                let end0 = match e0 {
                    Some(e) => e,
                    None => n,
                };
                let first = Some(chars_to_string(text, 0, end0));
                match e0 {
                    None => (first, None, None),
                    Some(e) => {
                        let e1 = find_char_from(text, e + 1, '`');
                        let end1 = match e1 {
                            Some(x) => x,
                            None => n,
                        };
                        let second = Some(chars_to_string(text, e + 1, end1));
                        match e1 {
                            None => (first, second, None),
                            Some(x) => {
                                let e2 = find_char_from(text, x + 1, '`');
                                let end2 = match e2 {
                                    Some(y) => y,
                                    None => n,
                                };
                                (first, second, Some(chars_to_string(text, x + 1, end2)))
                            },
                        }
                    },
                }
            },
        }
    }
}

/// A union written as `| T` lines.
#[derive(Debug, Clone, Copy)]
pub struct LuaDocMultiLineUnionType<'a> {
    syntax: LuaSyntaxNode<'a>,
}

impl<'a> LuaAstNode<'a> for LuaDocMultiLineUnionType<'a> {
    closed spec fn spec_syntax(&self) -> LuaSyntaxNode<'a> {
        self.syntax
    }

    open spec fn spec_can_cast(kind: LuaSyntaxKind) -> bool {
        kind == LuaSyntaxKind::TypeMultiLineUnion
    }

    open spec fn spec_cast_ok(kind: LuaSyntaxKind) -> bool {
        Self::spec_can_cast(kind)
    }

    fn syntax(&self) -> (r: &LuaSyntaxNode<'a>) {
        &self.syntax
    }

    fn can_cast(kind: LuaSyntaxKind) -> (b: bool) {
        kind == LuaSyntaxKind::TypeMultiLineUnion
    }

    fn cast(syntax: LuaSyntaxNode<'a>) -> (r: Option<Self>) {
        if Self::can_cast(syntax.kind()) {
            Some(LuaDocMultiLineUnionType { syntax })
        } else {
            None
        }
    }
}

impl<'a> LuaDocMultiLineUnionType<'a> {
    pub fn get_fields(&self) -> (r: Vec<LuaDocOneLineField<'a>>)
        ensures
            nodes_are(r@, self.spec_syntax(), child_ids(self.spec_syntax(), node_pred::<LuaDocOneLineField<'a>>())),
    {
        children_of::<LuaDocOneLineField<'a>>(self.syntax)
    }
}

/// One `| T` line of a multi-line union.
#[derive(Debug, Clone, Copy)]
pub struct LuaDocOneLineField<'a> {
    syntax: LuaSyntaxNode<'a>,
}

impl<'a> LuaAstNode<'a> for LuaDocOneLineField<'a> {
    closed spec fn spec_syntax(&self) -> LuaSyntaxNode<'a> {
        self.syntax
    }

    open spec fn spec_can_cast(kind: LuaSyntaxKind) -> bool {
        kind == LuaSyntaxKind::DocOneLineField
    }

    open spec fn spec_cast_ok(kind: LuaSyntaxKind) -> bool {
        Self::spec_can_cast(kind)
    }

    fn syntax(&self) -> (r: &LuaSyntaxNode<'a>) {
        &self.syntax
    }

    fn can_cast(kind: LuaSyntaxKind) -> (b: bool) {
        kind == LuaSyntaxKind::DocOneLineField
    }

    fn cast(syntax: LuaSyntaxNode<'a>) -> (r: Option<Self>) {
        if Self::can_cast(syntax.kind()) {
            Some(LuaDocOneLineField { syntax })
        } else {
            None
        }
    }
}

impl<'a> LuaDocOneLineField<'a> {
    pub fn get_type(&self) -> (r: Option<LuaDocType<'a>>)
        ensures
            opt_node_is(r, self.spec_syntax(), first_child_id(self.spec_syntax(), node_pred::<LuaDocType<'a>>())),
    {
        child_of::<LuaDocType<'a>>(self.syntax)
    }
}

/// The parameters of an attribute declaration.
#[derive(Debug, Clone, Copy)]
pub struct LuaDocAttributeType<'a> {
    syntax: LuaSyntaxNode<'a>,
}

impl<'a> LuaAstNode<'a> for LuaDocAttributeType<'a> {
    closed spec fn spec_syntax(&self) -> LuaSyntaxNode<'a> {
        self.syntax
    }

    open spec fn spec_can_cast(kind: LuaSyntaxKind) -> bool {
        kind == LuaSyntaxKind::TypeAttribute
    }

    open spec fn spec_cast_ok(kind: LuaSyntaxKind) -> bool {
        Self::spec_can_cast(kind)
    }

    fn syntax(&self) -> (r: &LuaSyntaxNode<'a>) {
        &self.syntax
    }

    fn can_cast(kind: LuaSyntaxKind) -> (b: bool) {
        kind == LuaSyntaxKind::TypeAttribute
    }

    fn cast(syntax: LuaSyntaxNode<'a>) -> (r: Option<Self>) {
        if Self::can_cast(syntax.kind()) {
            Some(LuaDocAttributeType { syntax })
        } else {
            None
        }
    }
}

impl<'a> LuaDocAttributeType<'a> {
    pub fn get_params(&self) -> (r: Vec<LuaDocTypeParam<'a>>)
        ensures
            nodes_are(r@, self.spec_syntax(), child_ids(self.spec_syntax(), node_pred::<LuaDocTypeParam<'a>>())),
    {
        children_of::<LuaDocTypeParam<'a>>(self.syntax)
    }
}

/// `{ [K in T]: V; }`.
#[derive(Debug, Clone, Copy)]
pub struct LuaDocMappedType<'a> {
    syntax: LuaSyntaxNode<'a>,
}

impl<'a> LuaAstNode<'a> for LuaDocMappedType<'a> {
    closed spec fn spec_syntax(&self) -> LuaSyntaxNode<'a> {
        self.syntax
    }

    open spec fn spec_can_cast(kind: LuaSyntaxKind) -> bool {
        kind == LuaSyntaxKind::TypeMapped
    }

    open spec fn spec_cast_ok(kind: LuaSyntaxKind) -> bool {
        Self::spec_can_cast(kind)
    }

    fn syntax(&self) -> (r: &LuaSyntaxNode<'a>) {
        &self.syntax
    }

    fn can_cast(kind: LuaSyntaxKind) -> (b: bool) {
        kind == LuaSyntaxKind::TypeMapped
    }

    fn cast(syntax: LuaSyntaxNode<'a>) -> (r: Option<Self>) {
        if Self::can_cast(syntax.kind()) {
            Some(LuaDocMappedType { syntax })
        } else {
            None
        }
    }
}

impl<'a> LuaDocMappedType<'a> {
    pub fn get_key(&self) -> (r: Option<LuaDocMappedKey<'a>>)
        ensures
            opt_node_is(r, self.spec_syntax(), first_child_id(self.spec_syntax(), node_pred::<LuaDocMappedKey<'a>>())),
    {
        child_of::<LuaDocMappedKey<'a>>(self.syntax)
    }

    pub fn get_value_type(&self) -> (r: Option<LuaDocType<'a>>)
        ensures
            opt_node_is(r, self.spec_syntax(), first_child_id(self.spec_syntax(), node_pred::<LuaDocType<'a>>())),
    {
        child_of::<LuaDocType<'a>>(self.syntax)
    }
}

/// `T[K]` inside a mapped type.
#[derive(Debug, Clone, Copy)]
pub struct LuaDocIndexAccessType<'a> {
    syntax: LuaSyntaxNode<'a>,
}

impl<'a> LuaAstNode<'a> for LuaDocIndexAccessType<'a> {
    closed spec fn spec_syntax(&self) -> LuaSyntaxNode<'a> {
        self.syntax
    }

    open spec fn spec_can_cast(kind: LuaSyntaxKind) -> bool {
        kind == LuaSyntaxKind::TypeIndexAccess
    }

    open spec fn spec_cast_ok(kind: LuaSyntaxKind) -> bool {
        Self::spec_can_cast(kind)
    }

    fn syntax(&self) -> (r: &LuaSyntaxNode<'a>) {
        &self.syntax
    }

    fn can_cast(kind: LuaSyntaxKind) -> (b: bool) {
        kind == LuaSyntaxKind::TypeIndexAccess
    }

    fn cast(syntax: LuaSyntaxNode<'a>) -> (r: Option<Self>) {
        if Self::can_cast(syntax.kind()) {
            Some(LuaDocIndexAccessType { syntax })
        } else {
            None
        }
    }
}

/// `[K in T]` of a mapped type.
#[derive(Debug, Clone, Copy)]
pub struct LuaDocMappedKey<'a> {
    syntax: LuaSyntaxNode<'a>,
}

impl<'a> LuaAstNode<'a> for LuaDocMappedKey<'a> {
    closed spec fn spec_syntax(&self) -> LuaSyntaxNode<'a> {
        self.syntax
    }

    open spec fn spec_can_cast(kind: LuaSyntaxKind) -> bool {
        kind == LuaSyntaxKind::DocMappedKey
    }

    open spec fn spec_cast_ok(kind: LuaSyntaxKind) -> bool {
        Self::spec_can_cast(kind)
    }

    fn syntax(&self) -> (r: &LuaSyntaxNode<'a>) {
        &self.syntax
    }

    fn can_cast(kind: LuaSyntaxKind) -> (b: bool) {
        kind == LuaSyntaxKind::DocMappedKey
    }

    fn cast(syntax: LuaSyntaxNode<'a>) -> (r: Option<Self>) {
        if Self::can_cast(syntax.kind()) {
            Some(LuaDocMappedKey { syntax })
        } else {
            None
        }
    }
}

} // verus!
