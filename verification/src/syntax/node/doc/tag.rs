use vstd::prelude::*;

use crate::kind::lua_syntax_kind::LuaSyntaxKind;
use crate::kind::lua_token_kind::LuaTokenKind;
use crate::syntax::traits::{
    LuaAstNode, LuaAstToken, child_ids, child_of, children_of, first_child_id, kind_pred, last_child_id,
    last_child_of, node_pred, nodes_are, opt_node_is, opt_token_is, token_by_kind_of, token_of,
    token_pred, tokens_are, tokens_of,
};
use crate::syntax::tree::syntax_tree::LuaSyntaxNode;
use crate::syntax::node::doc::types::LuaDocType;
use crate::syntax::node::lua::expr::LuaExpr;
use crate::text::text_range::SourceRange;
use crate::syntax::node::doc::{LuaDocAttributeUse, LuaDocGenericDeclList, LuaDocOpType, LuaDocTypeFlag, LuaDocTypeList};
use crate::syntax::node::token::tokens::{
    LuaBinaryOpToken, LuaDocVersionNumberToken, LuaDocVisibilityToken, LuaGeneralToken, LuaNameToken, LuaNumberToken,
    LuaPathToken, LuaStringToken,
};
use crate::kind::lua_kind::LuaKind;
use crate::kind::lua_operator_kind::{BinaryOperator, spec_binary_operator};
use crate::kind::lua_version::{LuaVersionCondition, spec_version_from_str};
use crate::syntax::traits::{first_child_id_in, opt_text_is};
use crate::syntax::tree::syntax_tree::{LuaSyntaxElement, LuaSyntaxTree};

verus! {

/// The key of a field tag.
#[derive(Debug, Clone, Copy)]
pub enum LuaDocFieldKey<'a> {
    Name(LuaNameToken<'a>),
    String(LuaStringToken<'a>),
    Integer(LuaNumberToken<'a>),
    Type(LuaDocType<'a>),
}

/// The version condition of version node `id` of `t`.
pub open spec fn spec_version_condition(t: LuaSyntaxTree, id: int) -> Option<LuaVersionCondition> {
    match first_child_id_in(t, id, token_pred::<LuaDocVersionNumberToken<'_>>()) {
        None => None,
        Some(v) => {
            let n = spec_version_from_str(t.text_of(v));
            match first_child_id_in(t, id, token_pred::<LuaBinaryOpToken<'_>>()) {
                None => Some(LuaVersionCondition::Eq(n)),
                Some(o) => match spec_binary_operator(t.kind_of(o)->Token_0) {
                    BinaryOperator::OpGt => Some(LuaVersionCondition::Gte(n)),
                    BinaryOperator::OpLt => Some(LuaVersionCondition::Lte(n)),
                    _ => None,
                },
            }
        },
    }
}

/// One step of reading the returns of a return tag: a comma ends a return,
/// a name names it, a type gives its type.
pub open spec fn info_step(t: LuaSyntaxTree, st: (Seq<(int, Option<int>)>, Option<int>, Option<int>), c: usize) -> (Seq<(int, Option<int>)>, Option<int>, Option<int>) {
    match t.kind_of(c as int) {
        LuaKind::Token(k) => if k == LuaTokenKind::TkComma {
            (if st.1 is Some { st.0.push((st.1->0, st.2)) } else { st.0 }, None, None)
        } else if k == LuaTokenKind::TkName {
            (st.0, st.1, Some(c as int))
        } else {
            st
        },
        LuaKind::Syntax(k) => if LuaDocType::spec_cast_ok(k) {
            (st.0, Some(c as int), st.2)
        } else {
            st
        },
    }
}

pub open spec fn info_fold(t: LuaSyntaxTree, cs: Seq<usize>, n: int) -> (Seq<(int, Option<int>)>, Option<int>, Option<int>)
    decreases n,
{
    if n <= 0 || n > cs.len() {
        (Seq::empty(), None, None)
    } else {
        info_step(t, info_fold(t, cs, n - 1), cs[n - 1])
    }
}

/// The (type, name) element ids of the returns listed by children `cs`.
pub open spec fn spec_info_list(t: LuaSyntaxTree, cs: Seq<usize>) -> Seq<(int, Option<int>)> {
    let st = info_fold(t, cs, cs.len() as int);
    if st.1 is Some {
        st.0.push((st.1->0, st.2))
    } else {
        st.0
    }
}

pub open spec fn opt_doc_type_id(o: Option<LuaDocType<'_>>) -> Option<int> {
    match o {
        Some(t) => Some(t.spec_syntax().spec_id()),
        None => None,
    }
}

pub open spec fn opt_name_id(o: Option<LuaNameToken<'_>>) -> Option<int> {
    match o {
        Some(t) => Some(t.spec_syntax().spec_id()),
        None => None,
    }
}

/// `v` holds the returns with the element ids `ids`.
pub open spec fn infos_are(v: Seq<(LuaDocType<'_>, Option<LuaNameToken<'_>>)>, t: LuaSyntaxTree, ids: Seq<(int, Option<int>)>) -> bool {
    &&& v.len() == ids.len()
    &&& forall|i: int| 0 <= i < v.len() ==> {
        &&& (#[trigger] v[i]).0.spec_syntax().spec_id() == ids[i].0
        &&& opt_name_id(v[i].1) == ids[i].1
    }
}

/// The key of a field tag, read from position `k` of its children `cs`: a
/// name, or after `[` a type (`3`), a string (`1`) or an integer (`2`);
/// a name is `0`.
pub open spec fn spec_field_key_scan(t: LuaSyntaxTree, cs: Seq<usize>, k: int, met: bool) -> Option<(int, int)>
    decreases cs.len() - k,
{
    if k < 0 || k >= cs.len() {
        None
    } else {
        let c = cs[k] as int;
        if met {
            match t.kind_of(c) {
                LuaKind::Syntax(s) => if LuaDocType::spec_cast_ok(s) {
                    Some((3, c))
                } else {
                    spec_field_key_scan(t, cs, k + 1, met)
                },
                LuaKind::Token(tk) => if tk == LuaTokenKind::TkString {
                    Some((1, c))
                } else if tk == LuaTokenKind::TkInt {
                    Some((2, c))
                } else {
                    spec_field_key_scan(t, cs, k + 1, met)
                },
            }
        } else {
            match t.kind_of(c) {
                LuaKind::Token(tk) => if tk == LuaTokenKind::TkLeftBracket {
                    spec_field_key_scan(t, cs, k + 1, true)
                } else if tk == LuaTokenKind::TkName {
                    Some((0, c))
                } else {
                    spec_field_key_scan(t, cs, k + 1, met)
                },
                LuaKind::Syntax(_) => spec_field_key_scan(t, cs, k + 1, met),
            }
        }
    }
}

/// `r` is the key that the scan found, from the tree of `n`.
pub open spec fn field_key_is<'a>(r: Option<LuaDocFieldKey<'a>>, n: LuaSyntaxNode<'a>, found: Option<(int, int)>) -> bool {
    match found {
        None => r is None,
        Some((tag, c)) => match r {
            Some(LuaDocFieldKey::Name(x)) => tag == 0 && x.spec_syntax().spec_id() == c && x.spec_syntax().spec_tree() == n.spec_tree(),
            Some(LuaDocFieldKey::String(x)) => tag == 1 && x.spec_syntax().spec_id() == c && x.spec_syntax().spec_tree() == n.spec_tree(),
            Some(LuaDocFieldKey::Integer(x)) => tag == 2 && x.spec_syntax().spec_id() == c && x.spec_syntax().spec_tree() == n.spec_tree(),
            Some(LuaDocFieldKey::Type(x)) => tag == 3 && x.spec_syntax().spec_id() == c && x.spec_syntax().spec_tree() == n.spec_tree(),
            None => false,
        },
    }
}

/// A doc tag, of any kind.
#[derive(Debug, Clone, Copy)]
pub enum LuaDocTag<'a> {
    Class(LuaDocTagClass<'a>),
    Enum(LuaDocTagEnum<'a>),
    Alias(LuaDocTagAlias<'a>),
    Attribute(LuaDocTagAttribute<'a>),
    AttributeUse(LuaDocTagAttributeUse<'a>),
    Type(LuaDocTagType<'a>),
    Param(LuaDocTagParam<'a>),
    Return(LuaDocTagReturn<'a>),
    Overload(LuaDocTagOverload<'a>),
    Field(LuaDocTagField<'a>),
    Module(LuaDocTagModule<'a>),
    See(LuaDocTagSee<'a>),
    Diagnostic(LuaDocTagDiagnostic<'a>),
    Deprecated(LuaDocTagDeprecated<'a>),
    Version(LuaDocTagVersion<'a>),
    Cast(LuaDocTagCast<'a>),
    Source(LuaDocTagSource<'a>),
    Other(LuaDocTagOther<'a>),
    Namespace(LuaDocTagNamespace<'a>),
    Using(LuaDocTagUsing<'a>),
    Meta(LuaDocTagMeta<'a>),
    Nodiscard(LuaDocTagNodiscard<'a>),
    Readonly(LuaDocTagReadonly<'a>),
    Operator(LuaDocTagOperator<'a>),
    Generic(LuaDocTagGeneric<'a>),
    Async(LuaDocTagAsync<'a>),
    As(LuaDocTagAs<'a>),
    Visibility(LuaDocTagVisibility<'a>),
    ReturnCast(LuaDocTagReturnCast<'a>),
    Export(LuaDocTagExport<'a>),
    Language(LuaDocTagLanguage<'a>),
}

/// The node kind that each variant of a doc tag stands for.
pub open spec fn doc_tag_kind<'a>(t: LuaDocTag<'a>) -> LuaSyntaxKind {
    match t {
        LuaDocTag::Class(_) => LuaSyntaxKind::DocTagClass,
        LuaDocTag::Enum(_) => LuaSyntaxKind::DocTagEnum,
        LuaDocTag::Alias(_) => LuaSyntaxKind::DocTagAlias,
        LuaDocTag::Attribute(_) => LuaSyntaxKind::DocTagAttribute,
        LuaDocTag::AttributeUse(_) => LuaSyntaxKind::DocTagAttributeUse,
        LuaDocTag::Type(_) => LuaSyntaxKind::DocTagType,
        LuaDocTag::Param(_) => LuaSyntaxKind::DocTagParam,
        LuaDocTag::Return(_) => LuaSyntaxKind::DocTagReturn,
        LuaDocTag::Overload(_) => LuaSyntaxKind::DocTagOverload,
        LuaDocTag::Field(_) => LuaSyntaxKind::DocTagField,
        LuaDocTag::Module(_) => LuaSyntaxKind::DocTagModule,
        LuaDocTag::See(_) => LuaSyntaxKind::DocTagSee,
        LuaDocTag::Diagnostic(_) => LuaSyntaxKind::DocTagDiagnostic,
        LuaDocTag::Deprecated(_) => LuaSyntaxKind::DocTagDeprecated,
        LuaDocTag::Version(_) => LuaSyntaxKind::DocTagVersion,
        LuaDocTag::Cast(_) => LuaSyntaxKind::DocTagCast,
        LuaDocTag::Source(_) => LuaSyntaxKind::DocTagSource,
        LuaDocTag::Other(_) => LuaSyntaxKind::DocTagOther,
        LuaDocTag::Namespace(_) => LuaSyntaxKind::DocTagNamespace,
        LuaDocTag::Using(_) => LuaSyntaxKind::DocTagUsing,
        LuaDocTag::Meta(_) => LuaSyntaxKind::DocTagMeta,
        LuaDocTag::Nodiscard(_) => LuaSyntaxKind::DocTagNodiscard,
        LuaDocTag::Readonly(_) => LuaSyntaxKind::DocTagReadonly,
        LuaDocTag::Operator(_) => LuaSyntaxKind::DocTagOperator,
        LuaDocTag::Generic(_) => LuaSyntaxKind::DocTagGeneric,
        LuaDocTag::Async(_) => LuaSyntaxKind::DocTagAsync,
        LuaDocTag::As(_) => LuaSyntaxKind::DocTagAs,
        LuaDocTag::Visibility(_) => LuaSyntaxKind::DocTagVisibility,
        LuaDocTag::ReturnCast(_) => LuaSyntaxKind::DocTagReturnCast,
        LuaDocTag::Export(_) => LuaSyntaxKind::DocTagExport,
        LuaDocTag::Language(_) => LuaSyntaxKind::DocTagLanguage,
    }
}

impl<'a> LuaAstNode<'a> for LuaDocTag<'a> {
    open spec fn spec_syntax(&self) -> LuaSyntaxNode<'a> {
        match self {
            LuaDocTag::Class(it) => it.spec_syntax(),
            LuaDocTag::Enum(it) => it.spec_syntax(),
            LuaDocTag::Alias(it) => it.spec_syntax(),
            LuaDocTag::Attribute(it) => it.spec_syntax(),
            LuaDocTag::AttributeUse(it) => it.spec_syntax(),
            LuaDocTag::Type(it) => it.spec_syntax(),
            LuaDocTag::Param(it) => it.spec_syntax(),
            LuaDocTag::Return(it) => it.spec_syntax(),
            LuaDocTag::Overload(it) => it.spec_syntax(),
            LuaDocTag::Field(it) => it.spec_syntax(),
            LuaDocTag::Module(it) => it.spec_syntax(),
            LuaDocTag::See(it) => it.spec_syntax(),
            LuaDocTag::Diagnostic(it) => it.spec_syntax(),
            LuaDocTag::Deprecated(it) => it.spec_syntax(),
            LuaDocTag::Version(it) => it.spec_syntax(),
            LuaDocTag::Cast(it) => it.spec_syntax(),
            LuaDocTag::Source(it) => it.spec_syntax(),
            LuaDocTag::Other(it) => it.spec_syntax(),
            LuaDocTag::Namespace(it) => it.spec_syntax(),
            LuaDocTag::Using(it) => it.spec_syntax(),
            LuaDocTag::Meta(it) => it.spec_syntax(),
            LuaDocTag::Nodiscard(it) => it.spec_syntax(),
            LuaDocTag::Readonly(it) => it.spec_syntax(),
            LuaDocTag::Operator(it) => it.spec_syntax(),
            LuaDocTag::Generic(it) => it.spec_syntax(),
            LuaDocTag::Async(it) => it.spec_syntax(),
            LuaDocTag::As(it) => it.spec_syntax(),
            LuaDocTag::Visibility(it) => it.spec_syntax(),
            LuaDocTag::ReturnCast(it) => it.spec_syntax(),
            LuaDocTag::Export(it) => it.spec_syntax(),
            LuaDocTag::Language(it) => it.spec_syntax(),
        }
    }

    open spec fn spec_can_cast(kind: LuaSyntaxKind) -> bool {
        kind == LuaSyntaxKind::DocTagClass
            || kind == LuaSyntaxKind::DocTagEnum
            || kind == LuaSyntaxKind::DocTagAlias
            || kind == LuaSyntaxKind::DocTagAttribute
            || kind == LuaSyntaxKind::DocTagAttributeUse
            || kind == LuaSyntaxKind::DocTagType
            || kind == LuaSyntaxKind::DocTagParam
            || kind == LuaSyntaxKind::DocTagReturn
            || kind == LuaSyntaxKind::DocTagOverload
            || kind == LuaSyntaxKind::DocTagField
            || kind == LuaSyntaxKind::DocTagModule
            || kind == LuaSyntaxKind::DocTagSee
            || kind == LuaSyntaxKind::DocTagDiagnostic
            || kind == LuaSyntaxKind::DocTagDeprecated
            || kind == LuaSyntaxKind::DocTagVersion
            || kind == LuaSyntaxKind::DocTagCast
            || kind == LuaSyntaxKind::DocTagSource
            || kind == LuaSyntaxKind::DocTagOther
            || kind == LuaSyntaxKind::DocTagNamespace
            || kind == LuaSyntaxKind::DocTagUsing
            || kind == LuaSyntaxKind::DocTagMeta
            || kind == LuaSyntaxKind::DocTagNodiscard
            || kind == LuaSyntaxKind::DocTagReadonly
            || kind == LuaSyntaxKind::DocTagOperator
            || kind == LuaSyntaxKind::DocTagGeneric
            || kind == LuaSyntaxKind::DocTagAsync
            || kind == LuaSyntaxKind::DocTagAs
            || kind == LuaSyntaxKind::DocTagVisibility
            || kind == LuaSyntaxKind::DocTagReturnCast
            || kind == LuaSyntaxKind::DocTagExport
            || kind == LuaSyntaxKind::DocTagLanguage
    }

    open spec fn spec_cast_ok(kind: LuaSyntaxKind) -> bool {
        Self::spec_can_cast(kind)
    }

    fn syntax(&self) -> (r: &LuaSyntaxNode<'a>) {
        match self {
            LuaDocTag::Class(it) => it.syntax(),
            LuaDocTag::Enum(it) => it.syntax(),
            LuaDocTag::Alias(it) => it.syntax(),
            LuaDocTag::Attribute(it) => it.syntax(),
            LuaDocTag::AttributeUse(it) => it.syntax(),
            LuaDocTag::Type(it) => it.syntax(),
            LuaDocTag::Param(it) => it.syntax(),
            LuaDocTag::Return(it) => it.syntax(),
            LuaDocTag::Overload(it) => it.syntax(),
            LuaDocTag::Field(it) => it.syntax(),
            LuaDocTag::Module(it) => it.syntax(),
            LuaDocTag::See(it) => it.syntax(),
            LuaDocTag::Diagnostic(it) => it.syntax(),
            LuaDocTag::Deprecated(it) => it.syntax(),
            LuaDocTag::Version(it) => it.syntax(),
            LuaDocTag::Cast(it) => it.syntax(),
            LuaDocTag::Source(it) => it.syntax(),
            LuaDocTag::Other(it) => it.syntax(),
            LuaDocTag::Namespace(it) => it.syntax(),
            LuaDocTag::Using(it) => it.syntax(),
            LuaDocTag::Meta(it) => it.syntax(),
            LuaDocTag::Nodiscard(it) => it.syntax(),
            LuaDocTag::Readonly(it) => it.syntax(),
            LuaDocTag::Operator(it) => it.syntax(),
            LuaDocTag::Generic(it) => it.syntax(),
            LuaDocTag::Async(it) => it.syntax(),
            LuaDocTag::As(it) => it.syntax(),
            LuaDocTag::Visibility(it) => it.syntax(),
            LuaDocTag::ReturnCast(it) => it.syntax(),
            LuaDocTag::Export(it) => it.syntax(),
            LuaDocTag::Language(it) => it.syntax(),
        }
    }

    fn can_cast(kind: LuaSyntaxKind) -> (b: bool) {
        kind == LuaSyntaxKind::DocTagClass
            || kind == LuaSyntaxKind::DocTagEnum
            || kind == LuaSyntaxKind::DocTagAlias
            || kind == LuaSyntaxKind::DocTagAttribute
            || kind == LuaSyntaxKind::DocTagAttributeUse
            || kind == LuaSyntaxKind::DocTagType
            || kind == LuaSyntaxKind::DocTagParam
            || kind == LuaSyntaxKind::DocTagReturn
            || kind == LuaSyntaxKind::DocTagOverload
            || kind == LuaSyntaxKind::DocTagField
            || kind == LuaSyntaxKind::DocTagModule
            || kind == LuaSyntaxKind::DocTagSee
            || kind == LuaSyntaxKind::DocTagDiagnostic
            || kind == LuaSyntaxKind::DocTagDeprecated
            || kind == LuaSyntaxKind::DocTagVersion
            || kind == LuaSyntaxKind::DocTagCast
            || kind == LuaSyntaxKind::DocTagSource
            || kind == LuaSyntaxKind::DocTagOther
            || kind == LuaSyntaxKind::DocTagNamespace
            || kind == LuaSyntaxKind::DocTagUsing
            || kind == LuaSyntaxKind::DocTagMeta
            || kind == LuaSyntaxKind::DocTagNodiscard
            || kind == LuaSyntaxKind::DocTagReadonly
            || kind == LuaSyntaxKind::DocTagOperator
            || kind == LuaSyntaxKind::DocTagGeneric
            || kind == LuaSyntaxKind::DocTagAsync
            || kind == LuaSyntaxKind::DocTagAs
            || kind == LuaSyntaxKind::DocTagVisibility
            || kind == LuaSyntaxKind::DocTagReturnCast
            || kind == LuaSyntaxKind::DocTagExport
            || kind == LuaSyntaxKind::DocTagLanguage
    }

    fn cast(syntax: LuaSyntaxNode<'a>) -> (r: Option<Self>)
        ensures
            r matches Some(t) ==> doc_tag_kind(t) == syntax.spec_kind(),
    {
        match syntax.kind() {
            LuaSyntaxKind::DocTagClass => match LuaDocTagClass::cast(syntax) {
                Some(it) => Some(LuaDocTag::Class(it)),
                None => None,
            },
            LuaSyntaxKind::DocTagEnum => match LuaDocTagEnum::cast(syntax) {
                Some(it) => Some(LuaDocTag::Enum(it)),
                None => None,
            },
            LuaSyntaxKind::DocTagAlias => match LuaDocTagAlias::cast(syntax) {
                Some(it) => Some(LuaDocTag::Alias(it)),
                None => None,
            },
            LuaSyntaxKind::DocTagAttribute => match LuaDocTagAttribute::cast(syntax) {
                Some(it) => Some(LuaDocTag::Attribute(it)),
                None => None,
            },
            LuaSyntaxKind::DocTagAttributeUse => match LuaDocTagAttributeUse::cast(syntax) {
                Some(it) => Some(LuaDocTag::AttributeUse(it)),
                None => None,
            },
            LuaSyntaxKind::DocTagType => match LuaDocTagType::cast(syntax) {
                Some(it) => Some(LuaDocTag::Type(it)),
                None => None,
            },
            LuaSyntaxKind::DocTagParam => match LuaDocTagParam::cast(syntax) {
                Some(it) => Some(LuaDocTag::Param(it)),
                None => None,
            },
            LuaSyntaxKind::DocTagReturn => match LuaDocTagReturn::cast(syntax) {
                Some(it) => Some(LuaDocTag::Return(it)),
                None => None,
            },
            LuaSyntaxKind::DocTagOverload => match LuaDocTagOverload::cast(syntax) {
                Some(it) => Some(LuaDocTag::Overload(it)),
                None => None,
            },
            LuaSyntaxKind::DocTagField => match LuaDocTagField::cast(syntax) {
                Some(it) => Some(LuaDocTag::Field(it)),
                None => None,
            },
            LuaSyntaxKind::DocTagModule => match LuaDocTagModule::cast(syntax) {
                Some(it) => Some(LuaDocTag::Module(it)),
                None => None,
            },
            LuaSyntaxKind::DocTagSee => match LuaDocTagSee::cast(syntax) {
                Some(it) => Some(LuaDocTag::See(it)),
                None => None,
            },
            LuaSyntaxKind::DocTagDiagnostic => match LuaDocTagDiagnostic::cast(syntax) {
                Some(it) => Some(LuaDocTag::Diagnostic(it)),
                None => None,
            },
            LuaSyntaxKind::DocTagDeprecated => match LuaDocTagDeprecated::cast(syntax) {
                Some(it) => Some(LuaDocTag::Deprecated(it)),
                None => None,
            },
            LuaSyntaxKind::DocTagVersion => match LuaDocTagVersion::cast(syntax) {
                Some(it) => Some(LuaDocTag::Version(it)),
                None => None,
            },
            LuaSyntaxKind::DocTagCast => match LuaDocTagCast::cast(syntax) {
                Some(it) => Some(LuaDocTag::Cast(it)),
                None => None,
            },
            LuaSyntaxKind::DocTagSource => match LuaDocTagSource::cast(syntax) {
                Some(it) => Some(LuaDocTag::Source(it)),
                None => None,
            },
            LuaSyntaxKind::DocTagOther => match LuaDocTagOther::cast(syntax) {
                Some(it) => Some(LuaDocTag::Other(it)),
                None => None,
            },
            LuaSyntaxKind::DocTagNamespace => match LuaDocTagNamespace::cast(syntax) {
                Some(it) => Some(LuaDocTag::Namespace(it)),
                None => None,
            },
            LuaSyntaxKind::DocTagUsing => match LuaDocTagUsing::cast(syntax) {
                Some(it) => Some(LuaDocTag::Using(it)),
                None => None,
            },
            LuaSyntaxKind::DocTagMeta => match LuaDocTagMeta::cast(syntax) {
                Some(it) => Some(LuaDocTag::Meta(it)),
                None => None,
            },
            LuaSyntaxKind::DocTagNodiscard => match LuaDocTagNodiscard::cast(syntax) {
                Some(it) => Some(LuaDocTag::Nodiscard(it)),
                None => None,
            },
            LuaSyntaxKind::DocTagReadonly => match LuaDocTagReadonly::cast(syntax) {
                Some(it) => Some(LuaDocTag::Readonly(it)),
                None => None,
            },
            LuaSyntaxKind::DocTagOperator => match LuaDocTagOperator::cast(syntax) {
                Some(it) => Some(LuaDocTag::Operator(it)),
                None => None,
            },
            LuaSyntaxKind::DocTagGeneric => match LuaDocTagGeneric::cast(syntax) {
                Some(it) => Some(LuaDocTag::Generic(it)),
                None => None,
            },
            LuaSyntaxKind::DocTagAsync => match LuaDocTagAsync::cast(syntax) {
                Some(it) => Some(LuaDocTag::Async(it)),
                None => None,
            },
            LuaSyntaxKind::DocTagAs => match LuaDocTagAs::cast(syntax) {
                Some(it) => Some(LuaDocTag::As(it)),
                None => None,
            },
            LuaSyntaxKind::DocTagVisibility => match LuaDocTagVisibility::cast(syntax) {
                Some(it) => Some(LuaDocTag::Visibility(it)),
                None => None,
            },
            LuaSyntaxKind::DocTagReturnCast => match LuaDocTagReturnCast::cast(syntax) {
                Some(it) => Some(LuaDocTag::ReturnCast(it)),
                None => None,
            },
            LuaSyntaxKind::DocTagExport => match LuaDocTagExport::cast(syntax) {
                Some(it) => Some(LuaDocTag::Export(it)),
                None => None,
            },
            LuaSyntaxKind::DocTagLanguage => match LuaDocTagLanguage::cast(syntax) {
                Some(it) => Some(LuaDocTag::Language(it)),
                None => None,
            },
            _ => None,
        }
    }
}

/// `---@class`.
#[derive(Debug, Clone, Copy)]
pub struct LuaDocTagClass<'a> {
    syntax: LuaSyntaxNode<'a>,
}

impl<'a> LuaAstNode<'a> for LuaDocTagClass<'a> {
    closed spec fn spec_syntax(&self) -> LuaSyntaxNode<'a> {
        self.syntax
    }

    open spec fn spec_can_cast(kind: LuaSyntaxKind) -> bool {
        kind == LuaSyntaxKind::DocTagClass
    }

    open spec fn spec_cast_ok(kind: LuaSyntaxKind) -> bool {
        Self::spec_can_cast(kind)
    }

    fn syntax(&self) -> (r: &LuaSyntaxNode<'a>) {
        &self.syntax
    }

    fn can_cast(kind: LuaSyntaxKind) -> (b: bool) {
        kind == LuaSyntaxKind::DocTagClass
    }

    fn cast(syntax: LuaSyntaxNode<'a>) -> (r: Option<Self>) {
        if Self::can_cast(syntax.kind()) {
            Some(LuaDocTagClass { syntax })
        } else {
            None
        }
    }
}

impl<'a> LuaDocTagClass<'a> {
    pub fn get_name_token(&self) -> (r: Option<LuaNameToken<'a>>)
        ensures
            opt_token_is(r, self.spec_syntax(), first_child_id(self.spec_syntax(), token_pred::<LuaNameToken<'a>>())),
    {
        token_of::<LuaNameToken<'a>>(self.syntax)
    }

    pub fn get_generic_decl(&self) -> (r: Option<LuaDocGenericDeclList<'a>>)
        ensures
            opt_node_is(r, self.spec_syntax(), first_child_id(self.spec_syntax(), node_pred::<LuaDocGenericDeclList<'a>>())),
    {
        child_of::<LuaDocGenericDeclList<'a>>(self.syntax)
    }

    pub fn get_supers(&self) -> (r: Option<LuaDocTypeList<'a>>)
        ensures
            opt_node_is(r, self.spec_syntax(), first_child_id(self.spec_syntax(), node_pred::<LuaDocTypeList<'a>>())),
    {
        child_of::<LuaDocTypeList<'a>>(self.syntax)
    }

    pub fn get_type_flag(&self) -> (r: Option<LuaDocTypeFlag<'a>>)
        ensures
            opt_node_is(r, self.spec_syntax(), first_child_id(self.spec_syntax(), node_pred::<LuaDocTypeFlag<'a>>())),
    {
        child_of::<LuaDocTypeFlag<'a>>(self.syntax)
    }
}

/// `---@enum`.
#[derive(Debug, Clone, Copy)]
pub struct LuaDocTagEnum<'a> {
    syntax: LuaSyntaxNode<'a>,
}

impl<'a> LuaAstNode<'a> for LuaDocTagEnum<'a> {
    closed spec fn spec_syntax(&self) -> LuaSyntaxNode<'a> {
        self.syntax
    }

    open spec fn spec_can_cast(kind: LuaSyntaxKind) -> bool {
        kind == LuaSyntaxKind::DocTagEnum
    }

    open spec fn spec_cast_ok(kind: LuaSyntaxKind) -> bool {
        Self::spec_can_cast(kind)
    }

    fn syntax(&self) -> (r: &LuaSyntaxNode<'a>) {
        &self.syntax
    }

    fn can_cast(kind: LuaSyntaxKind) -> (b: bool) {
        kind == LuaSyntaxKind::DocTagEnum
    }

    fn cast(syntax: LuaSyntaxNode<'a>) -> (r: Option<Self>) {
        if Self::can_cast(syntax.kind()) {
            Some(LuaDocTagEnum { syntax })
        } else {
            None
        }
    }
}

impl<'a> LuaDocTagEnum<'a> {
    pub fn get_name_token(&self) -> (r: Option<LuaNameToken<'a>>)
        ensures
            opt_token_is(r, self.spec_syntax(), first_child_id(self.spec_syntax(), token_pred::<LuaNameToken<'a>>())),
    {
        token_of::<LuaNameToken<'a>>(self.syntax)
    }

    pub fn get_base_type(&self) -> (r: Option<LuaDocType<'a>>)
        ensures
            opt_node_is(r, self.spec_syntax(), first_child_id(self.spec_syntax(), node_pred::<LuaDocType<'a>>())),
    {
        child_of::<LuaDocType<'a>>(self.syntax)
    }

    pub fn get_fields(&self) -> (r: Option<LuaDocEnumField<'a>>)
        ensures
            opt_node_is(r, self.spec_syntax(), first_child_id(self.spec_syntax(), node_pred::<LuaDocEnumField<'a>>())),
    {
        child_of::<LuaDocEnumField<'a>>(self.syntax)
    }

    pub fn get_type_flag(&self) -> (r: Option<LuaDocTypeFlag<'a>>)
        ensures
            opt_node_is(r, self.spec_syntax(), first_child_id(self.spec_syntax(), node_pred::<LuaDocTypeFlag<'a>>())),
    {
        child_of::<LuaDocTypeFlag<'a>>(self.syntax)
    }
}

/// A field of an enum tag.
#[derive(Debug, Clone, Copy)]
pub struct LuaDocEnumField<'a> {
    syntax: LuaSyntaxNode<'a>,
}

impl<'a> LuaAstNode<'a> for LuaDocEnumField<'a> {
    closed spec fn spec_syntax(&self) -> LuaSyntaxNode<'a> {
        self.syntax
    }

    open spec fn spec_can_cast(kind: LuaSyntaxKind) -> bool {
        kind == LuaSyntaxKind::DocEnumField
    }

    open spec fn spec_cast_ok(kind: LuaSyntaxKind) -> bool {
        Self::spec_can_cast(kind)
    }

    fn syntax(&self) -> (r: &LuaSyntaxNode<'a>) {
        &self.syntax
    }

    fn can_cast(kind: LuaSyntaxKind) -> (b: bool) {
        kind == LuaSyntaxKind::DocEnumField
    }

    fn cast(syntax: LuaSyntaxNode<'a>) -> (r: Option<Self>) {
        if Self::can_cast(syntax.kind()) {
            Some(LuaDocEnumField { syntax })
        } else {
            None
        }
    }
}

impl<'a> LuaDocEnumField<'a> {
    pub fn get_name_token(&self) -> (r: Option<LuaNameToken<'a>>)
        ensures
            opt_token_is(r, self.spec_syntax(), first_child_id(self.spec_syntax(), token_pred::<LuaNameToken<'a>>())),
    {
        token_of::<LuaNameToken<'a>>(self.syntax)
    }

    pub fn get_type(&self) -> (r: Option<LuaDocType<'a>>)
        ensures
            opt_node_is(r, self.spec_syntax(), first_child_id(self.spec_syntax(), node_pred::<LuaDocType<'a>>())),
    {
        child_of::<LuaDocType<'a>>(self.syntax)
    }
}

/// `---@alias`.
#[derive(Debug, Clone, Copy)]
pub struct LuaDocTagAlias<'a> {
    syntax: LuaSyntaxNode<'a>,
}

impl<'a> LuaAstNode<'a> for LuaDocTagAlias<'a> {
    closed spec fn spec_syntax(&self) -> LuaSyntaxNode<'a> {
        self.syntax
    }

    open spec fn spec_can_cast(kind: LuaSyntaxKind) -> bool {
        kind == LuaSyntaxKind::DocTagAlias
    }

    open spec fn spec_cast_ok(kind: LuaSyntaxKind) -> bool {
        Self::spec_can_cast(kind)
    }

    fn syntax(&self) -> (r: &LuaSyntaxNode<'a>) {
        &self.syntax
    }

    fn can_cast(kind: LuaSyntaxKind) -> (b: bool) {
        kind == LuaSyntaxKind::DocTagAlias
    }

    fn cast(syntax: LuaSyntaxNode<'a>) -> (r: Option<Self>) {
        if Self::can_cast(syntax.kind()) {
            Some(LuaDocTagAlias { syntax })
        } else {
            None
        }
    }
}

impl<'a> LuaDocTagAlias<'a> {
    pub fn get_name_token(&self) -> (r: Option<LuaNameToken<'a>>)
        ensures
            opt_token_is(r, self.spec_syntax(), first_child_id(self.spec_syntax(), token_pred::<LuaNameToken<'a>>())),
    {
        token_of::<LuaNameToken<'a>>(self.syntax)
    }

    pub fn get_generic_decl_list(&self) -> (r: Option<LuaDocGenericDeclList<'a>>)
        ensures
            opt_node_is(r, self.spec_syntax(), first_child_id(self.spec_syntax(), node_pred::<LuaDocGenericDeclList<'a>>())),
    {
        child_of::<LuaDocGenericDeclList<'a>>(self.syntax)
    }

    pub fn get_type(&self) -> (r: Option<LuaDocType<'a>>)
        ensures
            opt_node_is(r, self.spec_syntax(), first_child_id(self.spec_syntax(), node_pred::<LuaDocType<'a>>())),
    {
        child_of::<LuaDocType<'a>>(self.syntax)
    }
}

/// `---@type`.
#[derive(Debug, Clone, Copy)]
pub struct LuaDocTagType<'a> {
    syntax: LuaSyntaxNode<'a>,
}

impl<'a> LuaAstNode<'a> for LuaDocTagType<'a> {
    closed spec fn spec_syntax(&self) -> LuaSyntaxNode<'a> {
        self.syntax
    }

    open spec fn spec_can_cast(kind: LuaSyntaxKind) -> bool {
        kind == LuaSyntaxKind::DocTagType
    }

    open spec fn spec_cast_ok(kind: LuaSyntaxKind) -> bool {
        Self::spec_can_cast(kind)
    }

    fn syntax(&self) -> (r: &LuaSyntaxNode<'a>) {
        &self.syntax
    }

    fn can_cast(kind: LuaSyntaxKind) -> (b: bool) {
        kind == LuaSyntaxKind::DocTagType
    }

    fn cast(syntax: LuaSyntaxNode<'a>) -> (r: Option<Self>) {
        if Self::can_cast(syntax.kind()) {
            Some(LuaDocTagType { syntax })
        } else {
            None
        }
    }
}

impl<'a> LuaDocTagType<'a> {
    pub fn get_type_list(&self) -> (r: Vec<LuaDocType<'a>>)
        ensures
            nodes_are(r@, self.spec_syntax(), child_ids(self.spec_syntax(), node_pred::<LuaDocType<'a>>())),
    {
        children_of::<LuaDocType<'a>>(self.syntax)
    }
}

/// `---@param`.
#[derive(Debug, Clone, Copy)]
pub struct LuaDocTagParam<'a> {
    syntax: LuaSyntaxNode<'a>,
}

impl<'a> LuaAstNode<'a> for LuaDocTagParam<'a> {
    closed spec fn spec_syntax(&self) -> LuaSyntaxNode<'a> {
        self.syntax
    }

    open spec fn spec_can_cast(kind: LuaSyntaxKind) -> bool {
        kind == LuaSyntaxKind::DocTagParam
    }

    open spec fn spec_cast_ok(kind: LuaSyntaxKind) -> bool {
        Self::spec_can_cast(kind)
    }

    fn syntax(&self) -> (r: &LuaSyntaxNode<'a>) {
        &self.syntax
    }

    fn can_cast(kind: LuaSyntaxKind) -> (b: bool) {
        kind == LuaSyntaxKind::DocTagParam
    }

    fn cast(syntax: LuaSyntaxNode<'a>) -> (r: Option<Self>) {
        if Self::can_cast(syntax.kind()) {
            Some(LuaDocTagParam { syntax })
        } else {
            None
        }
    }
}

impl<'a> LuaDocTagParam<'a> {
    pub fn get_name_token(&self) -> (r: Option<LuaNameToken<'a>>)
        ensures
            opt_token_is(r, self.spec_syntax(), first_child_id(self.spec_syntax(), token_pred::<LuaNameToken<'a>>())),
    {
        token_of::<LuaNameToken<'a>>(self.syntax)
    }

    pub fn is_vararg(&self) -> (b: bool)
        ensures
            b == first_child_id(self.spec_syntax(), kind_pred(LuaTokenKind::TkDots)) is Some,
    {
        token_by_kind_of(self.syntax, LuaTokenKind::TkDots).is_some()
    }

    pub fn is_nullable(&self) -> (b: bool)
        ensures
            b == first_child_id(self.spec_syntax(), kind_pred(LuaTokenKind::TkDocQuestion)) is Some,
    {
        token_by_kind_of(self.syntax, LuaTokenKind::TkDocQuestion).is_some()
    }

    pub fn get_type(&self) -> (r: Option<LuaDocType<'a>>)
        ensures
            opt_node_is(r, self.spec_syntax(), first_child_id(self.spec_syntax(), node_pred::<LuaDocType<'a>>())),
    {
        child_of::<LuaDocType<'a>>(self.syntax)
    }
}

/// `---@return`.
#[derive(Debug, Clone, Copy)]
pub struct LuaDocTagReturn<'a> {
    syntax: LuaSyntaxNode<'a>,
}

impl<'a> LuaAstNode<'a> for LuaDocTagReturn<'a> {
    closed spec fn spec_syntax(&self) -> LuaSyntaxNode<'a> {
        self.syntax
    }

    open spec fn spec_can_cast(kind: LuaSyntaxKind) -> bool {
        kind == LuaSyntaxKind::DocTagReturn
    }

    open spec fn spec_cast_ok(kind: LuaSyntaxKind) -> bool {
        Self::spec_can_cast(kind)
    }

    fn syntax(&self) -> (r: &LuaSyntaxNode<'a>) {
        &self.syntax
    }

    fn can_cast(kind: LuaSyntaxKind) -> (b: bool) {
        kind == LuaSyntaxKind::DocTagReturn
    }

    fn cast(syntax: LuaSyntaxNode<'a>) -> (r: Option<Self>) {
        if Self::can_cast(syntax.kind()) {
            Some(LuaDocTagReturn { syntax })
        } else {
            None
        }
    }
}

impl<'a> LuaDocTagReturn<'a> {
    pub fn get_first_type(&self) -> (r: Option<LuaDocType<'a>>)
        ensures
            opt_node_is(r, self.spec_syntax(), first_child_id(self.spec_syntax(), node_pred::<LuaDocType<'a>>())),
    {
        child_of::<LuaDocType<'a>>(self.syntax)
    }

    pub fn get_types(&self) -> (r: Vec<LuaDocType<'a>>)
        ensures
            nodes_are(r@, self.spec_syntax(), child_ids(self.spec_syntax(), node_pred::<LuaDocType<'a>>())),
    {
        children_of::<LuaDocType<'a>>(self.syntax)
    }

    /// The returned types, each with the name written after it, if any.
    pub fn get_info_list(&self) -> (r: Vec<(LuaDocType<'a>, Option<LuaNameToken<'a>>)>)
        ensures
            infos_are(r@, *self.spec_syntax().spec_tree(), spec_info_list(*self.spec_syntax().spec_tree(), self.spec_syntax().spec_children())),
            forall|i: int| 0 <= i < r@.len() ==> (#[trigger] r@[i]).0.spec_syntax().spec_tree() == self.spec_syntax().spec_tree(),
    {
        let s = self.syntax;
        let ghost t = *s.spec_tree();
        let ghost cs = s.spec_children();
        let n = s.child_count();
        let mut result: Vec<(LuaDocType<'a>, Option<LuaNameToken<'a>>)> = Vec::new();
        let mut current_type: Option<LuaDocType<'a>> = None;
        let mut current_name: Option<LuaNameToken<'a>> = None;
        let mut k: usize = 0;
        while k < n
            invariant
                n == cs.len(),
                k <= n,
                t == *s.spec_tree(),
                cs == s.spec_children(),
                s == self.spec_syntax(),
                infos_are(result@, t, info_fold(t, cs, k as int).0),
                forall|i: int| 0 <= i < result@.len() ==> (#[trigger] result@[i]).0.spec_syntax().spec_tree() == s.spec_tree(),
                opt_doc_type_id(current_type) == info_fold(t, cs, k as int).1,
                current_type matches Some(ty) ==> ty.spec_syntax().spec_tree() == s.spec_tree(),
                opt_name_id(current_name) == info_fold(t, cs, k as int).2,
            decreases n - k,
        {
            let e = s.child_at(k);
            match e {
                LuaSyntaxElement::Token(tok) => {
                    if tok.kind() == LuaTokenKind::TkComma {
                        match current_type {
                            Some(ty) => {
                                result.push((ty, current_name));
                            },
                            None => {},
                        }
                        current_type = None;
                        current_name = None;
                    } else if tok.kind() == LuaTokenKind::TkName {
                        current_name = LuaNameToken::cast(tok);
                    }
                },
                LuaSyntaxElement::Node(node) => {
                    if LuaDocType::can_cast(node.kind()) {
                        current_type = LuaDocType::cast(node);
                    }
                },
            }
            k += 1;
        }
        match current_type {
            Some(ty) => {
                result.push((ty, current_name));
            },
            None => {},
        }
        result
    }
}

/// `---@overload`.
#[derive(Debug, Clone, Copy)]
pub struct LuaDocTagOverload<'a> {
    syntax: LuaSyntaxNode<'a>,
}

impl<'a> LuaAstNode<'a> for LuaDocTagOverload<'a> {
    closed spec fn spec_syntax(&self) -> LuaSyntaxNode<'a> {
        self.syntax
    }

    open spec fn spec_can_cast(kind: LuaSyntaxKind) -> bool {
        kind == LuaSyntaxKind::DocTagOverload
    }

    open spec fn spec_cast_ok(kind: LuaSyntaxKind) -> bool {
        Self::spec_can_cast(kind)
    }

    fn syntax(&self) -> (r: &LuaSyntaxNode<'a>) {
        &self.syntax
    }

    fn can_cast(kind: LuaSyntaxKind) -> (b: bool) {
        kind == LuaSyntaxKind::DocTagOverload
    }

    fn cast(syntax: LuaSyntaxNode<'a>) -> (r: Option<Self>) {
        if Self::can_cast(syntax.kind()) {
            Some(LuaDocTagOverload { syntax })
        } else {
            None
        }
    }
}

impl<'a> LuaDocTagOverload<'a> {
    pub fn get_type(&self) -> (r: Option<LuaDocType<'a>>)
        ensures
            opt_node_is(r, self.spec_syntax(), first_child_id(self.spec_syntax(), node_pred::<LuaDocType<'a>>())),
    {
        child_of::<LuaDocType<'a>>(self.syntax)
    }
}

/// `---@field`.
#[derive(Debug, Clone, Copy)]
pub struct LuaDocTagField<'a> {
    syntax: LuaSyntaxNode<'a>,
}

impl<'a> LuaAstNode<'a> for LuaDocTagField<'a> {
    closed spec fn spec_syntax(&self) -> LuaSyntaxNode<'a> {
        self.syntax
    }

    open spec fn spec_can_cast(kind: LuaSyntaxKind) -> bool {
        kind == LuaSyntaxKind::DocTagField
    }

    open spec fn spec_cast_ok(kind: LuaSyntaxKind) -> bool {
        Self::spec_can_cast(kind)
    }

    fn syntax(&self) -> (r: &LuaSyntaxNode<'a>) {
        &self.syntax
    }

    fn can_cast(kind: LuaSyntaxKind) -> (b: bool) {
        kind == LuaSyntaxKind::DocTagField
    }

    fn cast(syntax: LuaSyntaxNode<'a>) -> (r: Option<Self>) {
        if Self::can_cast(syntax.kind()) {
            Some(LuaDocTagField { syntax })
        } else {
            None
        }
    }
}

impl<'a> LuaDocTagField<'a> {
    pub fn get_type(&self) -> (r: Option<LuaDocType<'a>>)
        ensures
            opt_node_is(r, self.spec_syntax(), last_child_id(self.spec_syntax(), node_pred::<LuaDocType<'a>>())),
    {
        last_child_of::<LuaDocType<'a>>(self.syntax)
    }

    pub fn is_nullable(&self) -> (b: bool)
        ensures
            b == first_child_id(self.spec_syntax(), kind_pred(LuaTokenKind::TkDocQuestion)) is Some,
    {
        token_by_kind_of(self.syntax, LuaTokenKind::TkDocQuestion).is_some()
    }

    pub fn get_visibility_token(&self) -> (r: Option<LuaDocVisibilityToken<'a>>)
        ensures
            opt_token_is(r, self.spec_syntax(), first_child_id(self.spec_syntax(), token_pred::<LuaDocVisibilityToken<'a>>())),
    {
        token_of::<LuaDocVisibilityToken<'a>>(self.syntax)
    }

    pub fn get_type_flag(&self) -> (r: Option<LuaDocTypeFlag<'a>>)
        ensures
            opt_node_is(r, self.spec_syntax(), first_child_id(self.spec_syntax(), node_pred::<LuaDocTypeFlag<'a>>())),
    {
        child_of::<LuaDocTypeFlag<'a>>(self.syntax)
    }

    /// The range of the key of the field, if it has one.
    pub fn get_field_key_range(&self) -> (r: Option<SourceRange>)
        ensures
            r == (match spec_field_key_scan(*self.spec_syntax().spec_tree(), self.spec_syntax().spec_children(), 0, false) {
                Some((_, c)) => Some(self.spec_syntax().spec_tree().range_of(c)),
                None => None,
            }),
    {
        match self.get_field_key() {
            Some(LuaDocFieldKey::Name(name)) => Some(name.get_range()),
            Some(LuaDocFieldKey::String(string)) => Some(string.get_range()),
            Some(LuaDocFieldKey::Integer(integer)) => Some(integer.get_range()),
            Some(LuaDocFieldKey::Type(typ)) => Some(typ.get_range()),
            None => None,
        }
    }

    /// The key of the field: its name, or what stands in brackets (a string,
    /// an integer or a type).
    pub fn get_field_key(&self) -> (r: Option<LuaDocFieldKey<'a>>)
        ensures
            field_key_is(r, self.spec_syntax(), spec_field_key_scan(*self.spec_syntax().spec_tree(), self.spec_syntax().spec_children(), 0, false)),
    {
        let s = self.syntax;
        let n = s.child_count();
        let mut meet_left_bracket = false;
        let mut k: usize = 0;
        while k < n
            invariant
                n == s.spec_children().len(),
                k <= n,
                s == self.spec_syntax(),
                spec_field_key_scan(*s.spec_tree(), s.spec_children(), 0, false)
                    == spec_field_key_scan(*s.spec_tree(), s.spec_children(), k as int, meet_left_bracket),
            decreases n - k,
        {
            let e = s.child_at(k);
            if meet_left_bracket {
                match e {
                    LuaSyntaxElement::Node(node) => {
                        if LuaDocType::can_cast(node.kind()) {
                            match LuaDocType::cast(node) {
                                Some(ty) => {
                                    return Some(LuaDocFieldKey::Type(ty));
                                },
                                None => {},
                            }
                        }
                    },
                    LuaSyntaxElement::Token(tok) => {
                        if tok.kind() == LuaTokenKind::TkString {
                            match LuaStringToken::cast(tok) {
                                Some(st) => {
                                    return Some(LuaDocFieldKey::String(st));
                                },
                                None => {},
                            }
                        } else if tok.kind() == LuaTokenKind::TkInt {
                            match LuaNumberToken::cast(tok) {
                                Some(nt) => {
                                    return Some(LuaDocFieldKey::Integer(nt));
                                },
                                None => {},
                            }
                        }
                    },
                }
            } else {
                match e {
                    LuaSyntaxElement::Token(tok) => {
                        if tok.kind() == LuaTokenKind::TkLeftBracket {
                            meet_left_bracket = true;
                        } else if tok.kind() == LuaTokenKind::TkName {
                            match LuaNameToken::cast(tok) {
                                Some(nt) => {
                                    return Some(LuaDocFieldKey::Name(nt));
                                },
                                None => {},
                            }
                        }
                    },
                    LuaSyntaxElement::Node(_) => {},
                }
            }
            k += 1;
        }
        None
    }
}

/// `---@module`.
#[derive(Debug, Clone, Copy)]
pub struct LuaDocTagModule<'a> {
    syntax: LuaSyntaxNode<'a>,
}

impl<'a> LuaAstNode<'a> for LuaDocTagModule<'a> {
    closed spec fn spec_syntax(&self) -> LuaSyntaxNode<'a> {
        self.syntax
    }

    open spec fn spec_can_cast(kind: LuaSyntaxKind) -> bool {
        kind == LuaSyntaxKind::DocTagModule
    }

    open spec fn spec_cast_ok(kind: LuaSyntaxKind) -> bool {
        Self::spec_can_cast(kind)
    }

    fn syntax(&self) -> (r: &LuaSyntaxNode<'a>) {
        &self.syntax
    }

    fn can_cast(kind: LuaSyntaxKind) -> (b: bool) {
        kind == LuaSyntaxKind::DocTagModule
    }

    fn cast(syntax: LuaSyntaxNode<'a>) -> (r: Option<Self>) {
        if Self::can_cast(syntax.kind()) {
            Some(LuaDocTagModule { syntax })
        } else {
            None
        }
    }
}

impl<'a> LuaDocTagModule<'a> {
    pub fn get_string_token(&self) -> (r: Option<LuaStringToken<'a>>)
        ensures
            opt_token_is(r, self.spec_syntax(), first_child_id(self.spec_syntax(), token_pred::<LuaStringToken<'a>>())),
    {
        token_of::<LuaStringToken<'a>>(self.syntax)
    }
}

/// `---@see`.
#[derive(Debug, Clone, Copy)]
pub struct LuaDocTagSee<'a> {
    syntax: LuaSyntaxNode<'a>,
}

impl<'a> LuaAstNode<'a> for LuaDocTagSee<'a> {
    closed spec fn spec_syntax(&self) -> LuaSyntaxNode<'a> {
        self.syntax
    }

    open spec fn spec_can_cast(kind: LuaSyntaxKind) -> bool {
        kind == LuaSyntaxKind::DocTagSee
    }

    open spec fn spec_cast_ok(kind: LuaSyntaxKind) -> bool {
        Self::spec_can_cast(kind)
    }

    fn syntax(&self) -> (r: &LuaSyntaxNode<'a>) {
        &self.syntax
    }

    fn can_cast(kind: LuaSyntaxKind) -> (b: bool) {
        kind == LuaSyntaxKind::DocTagSee
    }

    fn cast(syntax: LuaSyntaxNode<'a>) -> (r: Option<Self>) {
        if Self::can_cast(syntax.kind()) {
            Some(LuaDocTagSee { syntax })
        } else {
            None
        }
    }
}

impl<'a> LuaDocTagSee<'a> {
    /// The content token after the tag.
    pub fn get_see_content(&self) -> (r: Option<LuaGeneralToken<'a>>)
        ensures
            opt_token_is(r, self.spec_syntax(), first_child_id(self.spec_syntax(), kind_pred(LuaTokenKind::TkDocSeeContent))),
    {
        match token_by_kind_of(self.syntax, LuaTokenKind::TkDocSeeContent) {
            Some(t) => LuaGeneralToken::cast(t),
            None => None,
        }
    }
}

/// `---@diagnostic`.
#[derive(Debug, Clone, Copy)]
pub struct LuaDocTagDiagnostic<'a> {
    syntax: LuaSyntaxNode<'a>,
}

impl<'a> LuaAstNode<'a> for LuaDocTagDiagnostic<'a> {
    closed spec fn spec_syntax(&self) -> LuaSyntaxNode<'a> {
        self.syntax
    }

    open spec fn spec_can_cast(kind: LuaSyntaxKind) -> bool {
        kind == LuaSyntaxKind::DocTagDiagnostic
    }

    open spec fn spec_cast_ok(kind: LuaSyntaxKind) -> bool {
        Self::spec_can_cast(kind)
    }

    fn syntax(&self) -> (r: &LuaSyntaxNode<'a>) {
        &self.syntax
    }

    fn can_cast(kind: LuaSyntaxKind) -> (b: bool) {
        kind == LuaSyntaxKind::DocTagDiagnostic
    }

    fn cast(syntax: LuaSyntaxNode<'a>) -> (r: Option<Self>) {
        if Self::can_cast(syntax.kind()) {
            Some(LuaDocTagDiagnostic { syntax })
        } else {
            None
        }
    }
}

impl<'a> LuaDocTagDiagnostic<'a> {
    pub fn get_action_token(&self) -> (r: Option<LuaNameToken<'a>>)
        ensures
            opt_token_is(r, self.spec_syntax(), first_child_id(self.spec_syntax(), token_pred::<LuaNameToken<'a>>())),
    {
        token_of::<LuaNameToken<'a>>(self.syntax)
    }

    pub fn get_code_list(&self) -> (r: Option<LuaDocDiagnosticCodeList<'a>>)
        ensures
            opt_node_is(r, self.spec_syntax(), first_child_id(self.spec_syntax(), node_pred::<LuaDocDiagnosticCodeList<'a>>())),
    {
        child_of::<LuaDocDiagnosticCodeList<'a>>(self.syntax)
    }
}

/// The codes of a diagnostic tag.
#[derive(Debug, Clone, Copy)]
pub struct LuaDocDiagnosticCodeList<'a> {
    syntax: LuaSyntaxNode<'a>,
}

impl<'a> LuaAstNode<'a> for LuaDocDiagnosticCodeList<'a> {
    closed spec fn spec_syntax(&self) -> LuaSyntaxNode<'a> {
        self.syntax
    }

    open spec fn spec_can_cast(kind: LuaSyntaxKind) -> bool {
        kind == LuaSyntaxKind::DocDiagnosticCodeList
    }

    open spec fn spec_cast_ok(kind: LuaSyntaxKind) -> bool {
        Self::spec_can_cast(kind)
    }

    fn syntax(&self) -> (r: &LuaSyntaxNode<'a>) {
        &self.syntax
    }

    fn can_cast(kind: LuaSyntaxKind) -> (b: bool) {
        kind == LuaSyntaxKind::DocDiagnosticCodeList
    }

    fn cast(syntax: LuaSyntaxNode<'a>) -> (r: Option<Self>) {
        if Self::can_cast(syntax.kind()) {
            Some(LuaDocDiagnosticCodeList { syntax })
        } else {
            None
        }
    }
}

impl<'a> LuaDocDiagnosticCodeList<'a> {
    pub fn get_codes(&self) -> (r: Vec<LuaNameToken<'a>>)
        ensures
            tokens_are(r@, self.spec_syntax(), child_ids(self.spec_syntax(), token_pred::<LuaNameToken<'a>>())),
    {
        tokens_of::<LuaNameToken<'a>>(self.syntax)
    }
}

/// `---@deprecated`.
#[derive(Debug, Clone, Copy)]
pub struct LuaDocTagDeprecated<'a> {
    syntax: LuaSyntaxNode<'a>,
}

impl<'a> LuaAstNode<'a> for LuaDocTagDeprecated<'a> {
    closed spec fn spec_syntax(&self) -> LuaSyntaxNode<'a> {
        self.syntax
    }

    open spec fn spec_can_cast(kind: LuaSyntaxKind) -> bool {
        kind == LuaSyntaxKind::DocTagDeprecated
    }

    open spec fn spec_cast_ok(kind: LuaSyntaxKind) -> bool {
        Self::spec_can_cast(kind)
    }

    fn syntax(&self) -> (r: &LuaSyntaxNode<'a>) {
        &self.syntax
    }

    fn can_cast(kind: LuaSyntaxKind) -> (b: bool) {
        kind == LuaSyntaxKind::DocTagDeprecated
    }

    fn cast(syntax: LuaSyntaxNode<'a>) -> (r: Option<Self>) {
        if Self::can_cast(syntax.kind()) {
            Some(LuaDocTagDeprecated { syntax })
        } else {
            None
        }
    }
}

/// `---@version`.
#[derive(Debug, Clone, Copy)]
pub struct LuaDocTagVersion<'a> {
    syntax: LuaSyntaxNode<'a>,
}

impl<'a> LuaAstNode<'a> for LuaDocTagVersion<'a> {
    closed spec fn spec_syntax(&self) -> LuaSyntaxNode<'a> {
        self.syntax
    }

    open spec fn spec_can_cast(kind: LuaSyntaxKind) -> bool {
        kind == LuaSyntaxKind::DocTagVersion
    }

    open spec fn spec_cast_ok(kind: LuaSyntaxKind) -> bool {
        Self::spec_can_cast(kind)
    }

    fn syntax(&self) -> (r: &LuaSyntaxNode<'a>) {
        &self.syntax
    }

    fn can_cast(kind: LuaSyntaxKind) -> (b: bool) {
        kind == LuaSyntaxKind::DocTagVersion
    }

    fn cast(syntax: LuaSyntaxNode<'a>) -> (r: Option<Self>) {
        if Self::can_cast(syntax.kind()) {
            Some(LuaDocTagVersion { syntax })
        } else {
            None
        }
    }
}

impl<'a> LuaDocTagVersion<'a> {
    pub fn get_version_list(&self) -> (r: Vec<LuaDocVersion<'a>>)
        ensures
            nodes_are(r@, self.spec_syntax(), child_ids(self.spec_syntax(), node_pred::<LuaDocVersion<'a>>())),
    {
        children_of::<LuaDocVersion<'a>>(self.syntax)
    }
}

/// One version of a version tag.
#[derive(Debug, Clone, Copy)]
pub struct LuaDocVersion<'a> {
    syntax: LuaSyntaxNode<'a>,
}

impl<'a> LuaAstNode<'a> for LuaDocVersion<'a> {
    closed spec fn spec_syntax(&self) -> LuaSyntaxNode<'a> {
        self.syntax
    }

    open spec fn spec_can_cast(kind: LuaSyntaxKind) -> bool {
        kind == LuaSyntaxKind::DocVersion
    }

    open spec fn spec_cast_ok(kind: LuaSyntaxKind) -> bool {
        Self::spec_can_cast(kind)
    }

    fn syntax(&self) -> (r: &LuaSyntaxNode<'a>) {
        &self.syntax
    }

    fn can_cast(kind: LuaSyntaxKind) -> (b: bool) {
        kind == LuaSyntaxKind::DocVersion
    }

    fn cast(syntax: LuaSyntaxNode<'a>) -> (r: Option<Self>) {
        if Self::can_cast(syntax.kind()) {
            Some(LuaDocVersion { syntax })
        } else {
            None
        }
    }
}

impl<'a> LuaDocVersion<'a> {
    pub fn get_op(&self) -> (r: Option<LuaBinaryOpToken<'a>>)
        ensures
            opt_token_is(r, self.spec_syntax(), first_child_id(self.spec_syntax(), token_pred::<LuaBinaryOpToken<'a>>())),
    {
        token_of::<LuaBinaryOpToken<'a>>(self.syntax)
    }

    pub fn get_frame_name(&self) -> (r: Option<LuaNameToken<'a>>)
        ensures
            opt_token_is(r, self.spec_syntax(), first_child_id(self.spec_syntax(), token_pred::<LuaNameToken<'a>>())),
    {
        token_of::<LuaNameToken<'a>>(self.syntax)
    }

    pub fn get_version(&self) -> (r: Option<LuaDocVersionNumberToken<'a>>)
        ensures
            opt_token_is(r, self.spec_syntax(), first_child_id(self.spec_syntax(), token_pred::<LuaDocVersionNumberToken<'a>>())),
    {
        token_of::<LuaDocVersionNumberToken<'a>>(self.syntax)
    }

    /// The condition that the version states: exactly the version, or (after
    /// `>` or `<`) at least or at most it.
    pub fn get_version_condition(&self) -> (r: Option<LuaVersionCondition>)
        ensures
            r == spec_version_condition(*self.spec_syntax().spec_tree(), self.spec_syntax().spec_id()),
    {
        let op = self.get_op();
        let version_token = match self.get_version() {
            Some(v) => v,
            None => {
                return None;
            },
        };
        let version_number = match version_token.get_version_number() {
            Some(n) => n,
            None => {
                return None;
            },
        };
        match op {
            None => Some(LuaVersionCondition::Eq(version_number)),
            Some(op) => match op.get_op() {
                BinaryOperator::OpGt => Some(LuaVersionCondition::Gte(version_number)),
                BinaryOperator::OpLt => Some(LuaVersionCondition::Lte(version_number)),
                _ => None,
            },
        }
    }
}

/// `---@cast`.
#[derive(Debug, Clone, Copy)]
pub struct LuaDocTagCast<'a> {
    syntax: LuaSyntaxNode<'a>,
}

impl<'a> LuaAstNode<'a> for LuaDocTagCast<'a> {
    closed spec fn spec_syntax(&self) -> LuaSyntaxNode<'a> {
        self.syntax
    }

    open spec fn spec_can_cast(kind: LuaSyntaxKind) -> bool {
        kind == LuaSyntaxKind::DocTagCast
    }

    open spec fn spec_cast_ok(kind: LuaSyntaxKind) -> bool {
        Self::spec_can_cast(kind)
    }

    fn syntax(&self) -> (r: &LuaSyntaxNode<'a>) {
        &self.syntax
    }

    fn can_cast(kind: LuaSyntaxKind) -> (b: bool) {
        kind == LuaSyntaxKind::DocTagCast
    }

    fn cast(syntax: LuaSyntaxNode<'a>) -> (r: Option<Self>) {
        if Self::can_cast(syntax.kind()) {
            Some(LuaDocTagCast { syntax })
        } else {
            None
        }
    }
}

impl<'a> LuaDocTagCast<'a> {
    pub fn get_op_types(&self) -> (r: Vec<LuaDocOpType<'a>>)
        ensures
            nodes_are(r@, self.spec_syntax(), child_ids(self.spec_syntax(), node_pred::<LuaDocOpType<'a>>())),
    {
        children_of::<LuaDocOpType<'a>>(self.syntax)
    }

    /// The expression whose type is cast.
    pub fn get_key_expr(&self) -> (r: Option<LuaExpr<'a>>)
        ensures
            opt_node_is(r, self.spec_syntax(), first_child_id(self.spec_syntax(), node_pred::<LuaExpr<'a>>())),
    {
        child_of::<LuaExpr<'a>>(self.syntax)
    }
}

/// `---@source`.
#[derive(Debug, Clone, Copy)]
pub struct LuaDocTagSource<'a> {
    syntax: LuaSyntaxNode<'a>,
}

impl<'a> LuaAstNode<'a> for LuaDocTagSource<'a> {
    closed spec fn spec_syntax(&self) -> LuaSyntaxNode<'a> {
        self.syntax
    }

    open spec fn spec_can_cast(kind: LuaSyntaxKind) -> bool {
        kind == LuaSyntaxKind::DocTagSource
    }

    open spec fn spec_cast_ok(kind: LuaSyntaxKind) -> bool {
        Self::spec_can_cast(kind)
    }

    fn syntax(&self) -> (r: &LuaSyntaxNode<'a>) {
        &self.syntax
    }

    fn can_cast(kind: LuaSyntaxKind) -> (b: bool) {
        kind == LuaSyntaxKind::DocTagSource
    }

    fn cast(syntax: LuaSyntaxNode<'a>) -> (r: Option<Self>) {
        if Self::can_cast(syntax.kind()) {
            Some(LuaDocTagSource { syntax })
        } else {
            None
        }
    }
}

impl<'a> LuaDocTagSource<'a> {
    pub fn get_path_token(&self) -> (r: Option<LuaPathToken<'a>>)
        ensures
            opt_token_is(r, self.spec_syntax(), first_child_id(self.spec_syntax(), token_pred::<LuaPathToken<'a>>())),
    {
        token_of::<LuaPathToken<'a>>(self.syntax)
    }
}

/// A tag of another name.
#[derive(Debug, Clone, Copy)]
pub struct LuaDocTagOther<'a> {
    syntax: LuaSyntaxNode<'a>,
}

impl<'a> LuaAstNode<'a> for LuaDocTagOther<'a> {
    closed spec fn spec_syntax(&self) -> LuaSyntaxNode<'a> {
        self.syntax
    }

    open spec fn spec_can_cast(kind: LuaSyntaxKind) -> bool {
        kind == LuaSyntaxKind::DocTagOther
    }

    open spec fn spec_cast_ok(kind: LuaSyntaxKind) -> bool {
        Self::spec_can_cast(kind)
    }

    fn syntax(&self) -> (r: &LuaSyntaxNode<'a>) {
        &self.syntax
    }

    fn can_cast(kind: LuaSyntaxKind) -> (b: bool) {
        kind == LuaSyntaxKind::DocTagOther
    }

    fn cast(syntax: LuaSyntaxNode<'a>) -> (r: Option<Self>) {
        if Self::can_cast(syntax.kind()) {
            Some(LuaDocTagOther { syntax })
        } else {
            None
        }
    }
}

impl<'a> LuaDocTagOther<'a> {
    /// The name of the tag, as text.
    pub fn get_tag_name(&self) -> (r: Option<String>)
        ensures
            opt_text_is(r, *self.spec_syntax().spec_tree(), first_child_id(self.spec_syntax(), kind_pred(LuaTokenKind::TkTagOther))),
    {
        match token_by_kind_of(self.syntax, LuaTokenKind::TkTagOther) {
            Some(t) => Some(t.text_string()),
            None => None,
        }
    }
}

/// `---@namespace`.
#[derive(Debug, Clone, Copy)]
pub struct LuaDocTagNamespace<'a> {
    syntax: LuaSyntaxNode<'a>,
}

impl<'a> LuaAstNode<'a> for LuaDocTagNamespace<'a> {
    closed spec fn spec_syntax(&self) -> LuaSyntaxNode<'a> {
        self.syntax
    }

    open spec fn spec_can_cast(kind: LuaSyntaxKind) -> bool {
        kind == LuaSyntaxKind::DocTagNamespace
    }

    open spec fn spec_cast_ok(kind: LuaSyntaxKind) -> bool {
        Self::spec_can_cast(kind)
    }

    fn syntax(&self) -> (r: &LuaSyntaxNode<'a>) {
        &self.syntax
    }

    fn can_cast(kind: LuaSyntaxKind) -> (b: bool) {
        kind == LuaSyntaxKind::DocTagNamespace
    }

    fn cast(syntax: LuaSyntaxNode<'a>) -> (r: Option<Self>) {
        if Self::can_cast(syntax.kind()) {
            Some(LuaDocTagNamespace { syntax })
        } else {
            None
        }
    }
}

impl<'a> LuaDocTagNamespace<'a> {
    pub fn get_name_token(&self) -> (r: Option<LuaNameToken<'a>>)
        ensures
            opt_token_is(r, self.spec_syntax(), first_child_id(self.spec_syntax(), token_pred::<LuaNameToken<'a>>())),
    {
        token_of::<LuaNameToken<'a>>(self.syntax)
    }
}

/// `---@using`.
#[derive(Debug, Clone, Copy)]
pub struct LuaDocTagUsing<'a> {
    syntax: LuaSyntaxNode<'a>,
}

impl<'a> LuaAstNode<'a> for LuaDocTagUsing<'a> {
    closed spec fn spec_syntax(&self) -> LuaSyntaxNode<'a> {
        self.syntax
    }

    open spec fn spec_can_cast(kind: LuaSyntaxKind) -> bool {
        kind == LuaSyntaxKind::DocTagUsing
    }

    open spec fn spec_cast_ok(kind: LuaSyntaxKind) -> bool {
        Self::spec_can_cast(kind)
    }

    fn syntax(&self) -> (r: &LuaSyntaxNode<'a>) {
        &self.syntax
    }

    fn can_cast(kind: LuaSyntaxKind) -> (b: bool) {
        kind == LuaSyntaxKind::DocTagUsing
    }

    fn cast(syntax: LuaSyntaxNode<'a>) -> (r: Option<Self>) {
        if Self::can_cast(syntax.kind()) {
            Some(LuaDocTagUsing { syntax })
        } else {
            None
        }
    }
}

impl<'a> LuaDocTagUsing<'a> {
    pub fn get_name_token(&self) -> (r: Option<LuaNameToken<'a>>)
        ensures
            opt_token_is(r, self.spec_syntax(), first_child_id(self.spec_syntax(), token_pred::<LuaNameToken<'a>>())),
    {
        token_of::<LuaNameToken<'a>>(self.syntax)
    }
}

/// `---@meta`.
#[derive(Debug, Clone, Copy)]
pub struct LuaDocTagMeta<'a> {
    syntax: LuaSyntaxNode<'a>,
}

impl<'a> LuaAstNode<'a> for LuaDocTagMeta<'a> {
    closed spec fn spec_syntax(&self) -> LuaSyntaxNode<'a> {
        self.syntax
    }

    open spec fn spec_can_cast(kind: LuaSyntaxKind) -> bool {
        kind == LuaSyntaxKind::DocTagMeta
    }

    open spec fn spec_cast_ok(kind: LuaSyntaxKind) -> bool {
        Self::spec_can_cast(kind)
    }

    fn syntax(&self) -> (r: &LuaSyntaxNode<'a>) {
        &self.syntax
    }

    fn can_cast(kind: LuaSyntaxKind) -> (b: bool) {
        kind == LuaSyntaxKind::DocTagMeta
    }

    fn cast(syntax: LuaSyntaxNode<'a>) -> (r: Option<Self>) {
        if Self::can_cast(syntax.kind()) {
            Some(LuaDocTagMeta { syntax })
        } else {
            None
        }
    }
}

impl<'a> LuaDocTagMeta<'a> {
    pub fn get_name_token(&self) -> (r: Option<LuaNameToken<'a>>)
        ensures
            opt_token_is(r, self.spec_syntax(), first_child_id(self.spec_syntax(), token_pred::<LuaNameToken<'a>>())),
    {
        token_of::<LuaNameToken<'a>>(self.syntax)
    }
}

/// `---@nodiscard`.
#[derive(Debug, Clone, Copy)]
pub struct LuaDocTagNodiscard<'a> {
    syntax: LuaSyntaxNode<'a>,
}

impl<'a> LuaAstNode<'a> for LuaDocTagNodiscard<'a> {
    closed spec fn spec_syntax(&self) -> LuaSyntaxNode<'a> {
        self.syntax
    }

    open spec fn spec_can_cast(kind: LuaSyntaxKind) -> bool {
        kind == LuaSyntaxKind::DocTagNodiscard
    }

    open spec fn spec_cast_ok(kind: LuaSyntaxKind) -> bool {
        Self::spec_can_cast(kind)
    }

    fn syntax(&self) -> (r: &LuaSyntaxNode<'a>) {
        &self.syntax
    }

    fn can_cast(kind: LuaSyntaxKind) -> (b: bool) {
        kind == LuaSyntaxKind::DocTagNodiscard
    }

    fn cast(syntax: LuaSyntaxNode<'a>) -> (r: Option<Self>) {
        if Self::can_cast(syntax.kind()) {
            Some(LuaDocTagNodiscard { syntax })
        } else {
            None
        }
    }
}

/// `---@readonly`.
#[derive(Debug, Clone, Copy)]
pub struct LuaDocTagReadonly<'a> {
    syntax: LuaSyntaxNode<'a>,
}

impl<'a> LuaAstNode<'a> for LuaDocTagReadonly<'a> {
    closed spec fn spec_syntax(&self) -> LuaSyntaxNode<'a> {
        self.syntax
    }

    open spec fn spec_can_cast(kind: LuaSyntaxKind) -> bool {
        kind == LuaSyntaxKind::DocTagReadonly
    }

    open spec fn spec_cast_ok(kind: LuaSyntaxKind) -> bool {
        Self::spec_can_cast(kind)
    }

    fn syntax(&self) -> (r: &LuaSyntaxNode<'a>) {
        &self.syntax
    }

    fn can_cast(kind: LuaSyntaxKind) -> (b: bool) {
        kind == LuaSyntaxKind::DocTagReadonly
    }

    fn cast(syntax: LuaSyntaxNode<'a>) -> (r: Option<Self>) {
        if Self::can_cast(syntax.kind()) {
            Some(LuaDocTagReadonly { syntax })
        } else {
            None
        }
    }
}

/// `---@operator`.
#[derive(Debug, Clone, Copy)]
pub struct LuaDocTagOperator<'a> {
    syntax: LuaSyntaxNode<'a>,
}

impl<'a> LuaAstNode<'a> for LuaDocTagOperator<'a> {
    closed spec fn spec_syntax(&self) -> LuaSyntaxNode<'a> {
        self.syntax
    }

    open spec fn spec_can_cast(kind: LuaSyntaxKind) -> bool {
        kind == LuaSyntaxKind::DocTagOperator
    }

    open spec fn spec_cast_ok(kind: LuaSyntaxKind) -> bool {
        Self::spec_can_cast(kind)
    }

    fn syntax(&self) -> (r: &LuaSyntaxNode<'a>) {
        &self.syntax
    }

    fn can_cast(kind: LuaSyntaxKind) -> (b: bool) {
        kind == LuaSyntaxKind::DocTagOperator
    }

    fn cast(syntax: LuaSyntaxNode<'a>) -> (r: Option<Self>) {
        if Self::can_cast(syntax.kind()) {
            Some(LuaDocTagOperator { syntax })
        } else {
            None
        }
    }
}

impl<'a> LuaDocTagOperator<'a> {
    pub fn get_name_token(&self) -> (r: Option<LuaNameToken<'a>>)
        ensures
            opt_token_is(r, self.spec_syntax(), first_child_id(self.spec_syntax(), token_pred::<LuaNameToken<'a>>())),
    {
        token_of::<LuaNameToken<'a>>(self.syntax)
    }

    pub fn get_param_list(&self) -> (r: Option<LuaDocTypeList<'a>>)
        ensures
            opt_node_is(r, self.spec_syntax(), first_child_id(self.spec_syntax(), node_pred::<LuaDocTypeList<'a>>())),
    {
        child_of::<LuaDocTypeList<'a>>(self.syntax)
    }

    pub fn get_return_type(&self) -> (r: Option<LuaDocType<'a>>)
        ensures
            opt_node_is(r, self.spec_syntax(), first_child_id(self.spec_syntax(), node_pred::<LuaDocType<'a>>())),
    {
        child_of::<LuaDocType<'a>>(self.syntax)
    }
}

/// `---@generic`.
#[derive(Debug, Clone, Copy)]
pub struct LuaDocTagGeneric<'a> {
    syntax: LuaSyntaxNode<'a>,
}

impl<'a> LuaAstNode<'a> for LuaDocTagGeneric<'a> {
    closed spec fn spec_syntax(&self) -> LuaSyntaxNode<'a> {
        self.syntax
    }

    open spec fn spec_can_cast(kind: LuaSyntaxKind) -> bool {
        kind == LuaSyntaxKind::DocTagGeneric
    }

    open spec fn spec_cast_ok(kind: LuaSyntaxKind) -> bool {
        Self::spec_can_cast(kind)
    }

    fn syntax(&self) -> (r: &LuaSyntaxNode<'a>) {
        &self.syntax
    }

    fn can_cast(kind: LuaSyntaxKind) -> (b: bool) {
        kind == LuaSyntaxKind::DocTagGeneric
    }

    fn cast(syntax: LuaSyntaxNode<'a>) -> (r: Option<Self>) {
        if Self::can_cast(syntax.kind()) {
            Some(LuaDocTagGeneric { syntax })
        } else {
            None
        }
    }
}

impl<'a> LuaDocTagGeneric<'a> {
    pub fn get_generic_decl_list(&self) -> (r: Option<LuaDocGenericDeclList<'a>>)
        ensures
            opt_node_is(r, self.spec_syntax(), first_child_id(self.spec_syntax(), node_pred::<LuaDocGenericDeclList<'a>>())),
    {
        child_of::<LuaDocGenericDeclList<'a>>(self.syntax)
    }
}

/// `---@async`.
#[derive(Debug, Clone, Copy)]
pub struct LuaDocTagAsync<'a> {
    syntax: LuaSyntaxNode<'a>,
}

impl<'a> LuaAstNode<'a> for LuaDocTagAsync<'a> {
    closed spec fn spec_syntax(&self) -> LuaSyntaxNode<'a> {
        self.syntax
    }

    open spec fn spec_can_cast(kind: LuaSyntaxKind) -> bool {
        kind == LuaSyntaxKind::DocTagAsync
    }

    open spec fn spec_cast_ok(kind: LuaSyntaxKind) -> bool {
        Self::spec_can_cast(kind)
    }

    fn syntax(&self) -> (r: &LuaSyntaxNode<'a>) {
        &self.syntax
    }

    fn can_cast(kind: LuaSyntaxKind) -> (b: bool) {
        kind == LuaSyntaxKind::DocTagAsync
    }

    fn cast(syntax: LuaSyntaxNode<'a>) -> (r: Option<Self>) {
        if Self::can_cast(syntax.kind()) {
            Some(LuaDocTagAsync { syntax })
        } else {
            None
        }
    }
}

/// `---@as`.
#[derive(Debug, Clone, Copy)]
pub struct LuaDocTagAs<'a> {
    syntax: LuaSyntaxNode<'a>,
}

impl<'a> LuaAstNode<'a> for LuaDocTagAs<'a> {
    closed spec fn spec_syntax(&self) -> LuaSyntaxNode<'a> {
        self.syntax
    }

    open spec fn spec_can_cast(kind: LuaSyntaxKind) -> bool {
        kind == LuaSyntaxKind::DocTagAs
    }

    open spec fn spec_cast_ok(kind: LuaSyntaxKind) -> bool {
        Self::spec_can_cast(kind)
    }

    fn syntax(&self) -> (r: &LuaSyntaxNode<'a>) {
        &self.syntax
    }

    fn can_cast(kind: LuaSyntaxKind) -> (b: bool) {
        kind == LuaSyntaxKind::DocTagAs
    }

    fn cast(syntax: LuaSyntaxNode<'a>) -> (r: Option<Self>) {
        if Self::can_cast(syntax.kind()) {
            Some(LuaDocTagAs { syntax })
        } else {
            None
        }
    }
}

impl<'a> LuaDocTagAs<'a> {
    pub fn get_type(&self) -> (r: Option<LuaDocType<'a>>)
        ensures
            opt_node_is(r, self.spec_syntax(), first_child_id(self.spec_syntax(), node_pred::<LuaDocType<'a>>())),
    {
        child_of::<LuaDocType<'a>>(self.syntax)
    }
}

/// `---@private` and the other visibility tags.
#[derive(Debug, Clone, Copy)]
pub struct LuaDocTagVisibility<'a> {
    syntax: LuaSyntaxNode<'a>,
}

impl<'a> LuaAstNode<'a> for LuaDocTagVisibility<'a> {
    closed spec fn spec_syntax(&self) -> LuaSyntaxNode<'a> {
        self.syntax
    }

    open spec fn spec_can_cast(kind: LuaSyntaxKind) -> bool {
        kind == LuaSyntaxKind::DocTagVisibility
    }

    open spec fn spec_cast_ok(kind: LuaSyntaxKind) -> bool {
        Self::spec_can_cast(kind)
    }

    fn syntax(&self) -> (r: &LuaSyntaxNode<'a>) {
        &self.syntax
    }

    fn can_cast(kind: LuaSyntaxKind) -> (b: bool) {
        kind == LuaSyntaxKind::DocTagVisibility
    }

    fn cast(syntax: LuaSyntaxNode<'a>) -> (r: Option<Self>) {
        if Self::can_cast(syntax.kind()) {
            Some(LuaDocTagVisibility { syntax })
        } else {
            None
        }
    }
}

impl<'a> LuaDocTagVisibility<'a> {
    pub fn get_visibility_token(&self) -> (r: Option<LuaDocVisibilityToken<'a>>)
        ensures
            opt_token_is(r, self.spec_syntax(), first_child_id(self.spec_syntax(), token_pred::<LuaDocVisibilityToken<'a>>())),
    {
        token_of::<LuaDocVisibilityToken<'a>>(self.syntax)
    }
}

/// `---@return_cast`.
#[derive(Debug, Clone, Copy)]
pub struct LuaDocTagReturnCast<'a> {
    syntax: LuaSyntaxNode<'a>,
}

impl<'a> LuaAstNode<'a> for LuaDocTagReturnCast<'a> {
    closed spec fn spec_syntax(&self) -> LuaSyntaxNode<'a> {
        self.syntax
    }

    open spec fn spec_can_cast(kind: LuaSyntaxKind) -> bool {
        kind == LuaSyntaxKind::DocTagReturnCast
    }

    open spec fn spec_cast_ok(kind: LuaSyntaxKind) -> bool {
        Self::spec_can_cast(kind)
    }

    fn syntax(&self) -> (r: &LuaSyntaxNode<'a>) {
        &self.syntax
    }

    fn can_cast(kind: LuaSyntaxKind) -> (b: bool) {
        kind == LuaSyntaxKind::DocTagReturnCast
    }

    fn cast(syntax: LuaSyntaxNode<'a>) -> (r: Option<Self>) {
        if Self::can_cast(syntax.kind()) {
            Some(LuaDocTagReturnCast { syntax })
        } else {
            None
        }
    }
}

impl<'a> LuaDocTagReturnCast<'a> {
    pub fn get_op_types(&self) -> (r: Vec<LuaDocOpType<'a>>)
        ensures
            nodes_are(r@, self.spec_syntax(), child_ids(self.spec_syntax(), node_pred::<LuaDocOpType<'a>>())),
    {
        children_of::<LuaDocOpType<'a>>(self.syntax)
    }

    pub fn get_name_token(&self) -> (r: Option<LuaNameToken<'a>>)
        ensures
            opt_token_is(r, self.spec_syntax(), first_child_id(self.spec_syntax(), token_pred::<LuaNameToken<'a>>())),
    {
        token_of::<LuaNameToken<'a>>(self.syntax)
    }
}

/// `---@export`.
#[derive(Debug, Clone, Copy)]
pub struct LuaDocTagExport<'a> {
    syntax: LuaSyntaxNode<'a>,
}

impl<'a> LuaAstNode<'a> for LuaDocTagExport<'a> {
    closed spec fn spec_syntax(&self) -> LuaSyntaxNode<'a> {
        self.syntax
    }

    open spec fn spec_can_cast(kind: LuaSyntaxKind) -> bool {
        kind == LuaSyntaxKind::DocTagExport
    }

    open spec fn spec_cast_ok(kind: LuaSyntaxKind) -> bool {
        Self::spec_can_cast(kind)
    }

    fn syntax(&self) -> (r: &LuaSyntaxNode<'a>) {
        &self.syntax
    }

    fn can_cast(kind: LuaSyntaxKind) -> (b: bool) {
        kind == LuaSyntaxKind::DocTagExport
    }

    fn cast(syntax: LuaSyntaxNode<'a>) -> (r: Option<Self>) {
        if Self::can_cast(syntax.kind()) {
            Some(LuaDocTagExport { syntax })
        } else {
            None
        }
    }
}

impl<'a> LuaDocTagExport<'a> {
    pub fn get_name_token(&self) -> (r: Option<LuaNameToken<'a>>)
        ensures
            opt_token_is(r, self.spec_syntax(), first_child_id(self.spec_syntax(), token_pred::<LuaNameToken<'a>>())),
    {
        token_of::<LuaNameToken<'a>>(self.syntax)
    }

    /// The scope named after the tag, as text.
    pub fn get_export_scope(&self) -> (r: Option<String>)
        ensures
            opt_text_is(r, *self.spec_syntax().spec_tree(), first_child_id(self.spec_syntax(), token_pred::<LuaNameToken<'a>>())),
    {
        match self.get_name_token() {
            Some(t) => Some(t.get_name_text()),
            None => None,
        }
    }
}

/// `---@language`.
#[derive(Debug, Clone, Copy)]
pub struct LuaDocTagLanguage<'a> {
    syntax: LuaSyntaxNode<'a>,
}

impl<'a> LuaAstNode<'a> for LuaDocTagLanguage<'a> {
    closed spec fn spec_syntax(&self) -> LuaSyntaxNode<'a> {
        self.syntax
    }

    open spec fn spec_can_cast(kind: LuaSyntaxKind) -> bool {
        kind == LuaSyntaxKind::DocTagLanguage
    }

    open spec fn spec_cast_ok(kind: LuaSyntaxKind) -> bool {
        Self::spec_can_cast(kind)
    }

    fn syntax(&self) -> (r: &LuaSyntaxNode<'a>) {
        &self.syntax
    }

    fn can_cast(kind: LuaSyntaxKind) -> (b: bool) {
        kind == LuaSyntaxKind::DocTagLanguage
    }

    fn cast(syntax: LuaSyntaxNode<'a>) -> (r: Option<Self>) {
        if Self::can_cast(syntax.kind()) {
            Some(LuaDocTagLanguage { syntax })
        } else {
            None
        }
    }
}

impl<'a> LuaDocTagLanguage<'a> {
    pub fn get_name_token(&self) -> (r: Option<LuaNameToken<'a>>)
        ensures
            opt_token_is(r, self.spec_syntax(), first_child_id(self.spec_syntax(), token_pred::<LuaNameToken<'a>>())),
    {
        token_of::<LuaNameToken<'a>>(self.syntax)
    }
}

/// `---@attribute`.
#[derive(Debug, Clone, Copy)]
pub struct LuaDocTagAttribute<'a> {
    syntax: LuaSyntaxNode<'a>,
}

impl<'a> LuaAstNode<'a> for LuaDocTagAttribute<'a> {
    closed spec fn spec_syntax(&self) -> LuaSyntaxNode<'a> {
        self.syntax
    }

    open spec fn spec_can_cast(kind: LuaSyntaxKind) -> bool {
        kind == LuaSyntaxKind::DocTagAttribute
    }

    open spec fn spec_cast_ok(kind: LuaSyntaxKind) -> bool {
        Self::spec_can_cast(kind)
    }

    fn syntax(&self) -> (r: &LuaSyntaxNode<'a>) {
        &self.syntax
    }

    fn can_cast(kind: LuaSyntaxKind) -> (b: bool) {
        kind == LuaSyntaxKind::DocTagAttribute
    }

    fn cast(syntax: LuaSyntaxNode<'a>) -> (r: Option<Self>) {
        if Self::can_cast(syntax.kind()) {
            Some(LuaDocTagAttribute { syntax })
        } else {
            None
        }
    }
}

impl<'a> LuaDocTagAttribute<'a> {
    pub fn get_name_token(&self) -> (r: Option<LuaNameToken<'a>>)
        ensures
            opt_token_is(r, self.spec_syntax(), first_child_id(self.spec_syntax(), token_pred::<LuaNameToken<'a>>())),
    {
        token_of::<LuaNameToken<'a>>(self.syntax)
    }

    pub fn get_type(&self) -> (r: Option<LuaDocType<'a>>)
        ensures
            opt_node_is(r, self.spec_syntax(), first_child_id(self.spec_syntax(), node_pred::<LuaDocType<'a>>())),
    {
        child_of::<LuaDocType<'a>>(self.syntax)
    }
}

/// `---@[attribute, ...]`.
#[derive(Debug, Clone, Copy)]
pub struct LuaDocTagAttributeUse<'a> {
    syntax: LuaSyntaxNode<'a>,
}

impl<'a> LuaAstNode<'a> for LuaDocTagAttributeUse<'a> {
    closed spec fn spec_syntax(&self) -> LuaSyntaxNode<'a> {
        self.syntax
    }

    open spec fn spec_can_cast(kind: LuaSyntaxKind) -> bool {
        kind == LuaSyntaxKind::DocTagAttributeUse
    }

    open spec fn spec_cast_ok(kind: LuaSyntaxKind) -> bool {
        Self::spec_can_cast(kind)
    }

    fn syntax(&self) -> (r: &LuaSyntaxNode<'a>) {
        &self.syntax
    }

    fn can_cast(kind: LuaSyntaxKind) -> (b: bool) {
        kind == LuaSyntaxKind::DocTagAttributeUse
    }

    fn cast(syntax: LuaSyntaxNode<'a>) -> (r: Option<Self>) {
        if Self::can_cast(syntax.kind()) {
            Some(LuaDocTagAttributeUse { syntax })
        } else {
            None
        }
    }
}

impl<'a> LuaDocTagAttributeUse<'a> {
    pub fn get_name_token(&self) -> (r: Option<LuaNameToken<'a>>)
        ensures
            opt_token_is(r, self.spec_syntax(), first_child_id(self.spec_syntax(), token_pred::<LuaNameToken<'a>>())),
    {
        token_of::<LuaNameToken<'a>>(self.syntax)
    }

    pub fn get_attribute_uses(&self) -> (r: Vec<LuaDocAttributeUse<'a>>)
        ensures
            nodes_are(r@, self.spec_syntax(), child_ids(self.spec_syntax(), node_pred::<LuaDocAttributeUse<'a>>())),
    {
        children_of::<LuaDocAttributeUse<'a>>(self.syntax)
    }
}

} // verus!
