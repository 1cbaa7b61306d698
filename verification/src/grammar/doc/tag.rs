use vstd::prelude::*;

use crate::grammar::doc::types::{parse_fun_type, parse_type, parse_type_list, parse_typed_param};
use crate::grammar::doc::{
    doc_error_with_kind, expect_token, if_token_bump, parse_description, parsed, ready,
};
use crate::kind::lua_syntax_kind::LuaSyntaxKind;
use crate::kind::lua_token_kind::LuaTokenKind;
use crate::lexer::lua_doc_lexer::{LuaDocLexerState, is_known_tag_name, lemma_tag_names, spec_to_tag};
use crate::parser::lua_doc_parser::LuaDocParser;
use crate::parser::marker::CompleteMarker;
use crate::parser::parser_error::LuaParseError;

verus! {

broadcast use crate::parser::lua_doc_parser::group_kept;

/// Parses one tag; on an error, records it and closes the nodes left open.
/// The tag tokens whose tag is parsed into a node that starts at once.
pub open spec fn opens_tag_node(k: LuaTokenKind) -> bool {
    k == LuaTokenKind::TkTagClass || k == LuaTokenKind::TkTagInterface || k == LuaTokenKind::TkTagEnum || k
        == LuaTokenKind::TkTagAlias || k == LuaTokenKind::TkTagField || k == LuaTokenKind::TkTagType || k
        == LuaTokenKind::TkTagParam || k == LuaTokenKind::TkTagReturn || k == LuaTokenKind::TkTagReturnCast || k
        == LuaTokenKind::TkTagModule || k == LuaTokenKind::TkTagSee || k == LuaTokenKind::TkTagGeneric || k
        == LuaTokenKind::TkTagAs || k == LuaTokenKind::TkTagOverload || k == LuaTokenKind::TkTagCast || k
        == LuaTokenKind::TkTagSource || k == LuaTokenKind::TkTagDiagnostic || k == LuaTokenKind::TkTagVersion || k
        == LuaTokenKind::TkTagOperator || k == LuaTokenKind::TkTagMapping || k == LuaTokenKind::TkTagNamespace || k
        == LuaTokenKind::TkTagUsing || k == LuaTokenKind::TkLanguage || k == LuaTokenKind::TkTagAttribute || k
        == LuaTokenKind::TkCallGeneric || k == LuaTokenKind::TkTagVisibility || k == LuaTokenKind::TkTagReadonly
        || k == LuaTokenKind::TkTagDeprecated || k == LuaTokenKind::TkTagAsync || k == LuaTokenKind::TkTagNodiscard
        || k == LuaTokenKind::TkTagOther
}

/// The node of the tag that the tag token `k` starts (`---@class` and
/// `---@interface` both start a class tag).
pub open spec fn spec_tag_node_kind(k: LuaTokenKind) -> LuaSyntaxKind {
    match k {
        LuaTokenKind::TkTagClass => LuaSyntaxKind::DocTagClass,
        LuaTokenKind::TkTagInterface => LuaSyntaxKind::DocTagClass,
        LuaTokenKind::TkTagEnum => LuaSyntaxKind::DocTagEnum,
        LuaTokenKind::TkTagAlias => LuaSyntaxKind::DocTagAlias,
        LuaTokenKind::TkTagField => LuaSyntaxKind::DocTagField,
        LuaTokenKind::TkTagType => LuaSyntaxKind::DocTagType,
        LuaTokenKind::TkTagParam => LuaSyntaxKind::DocTagParam,
        LuaTokenKind::TkTagReturn => LuaSyntaxKind::DocTagReturn,
        LuaTokenKind::TkTagReturnCast => LuaSyntaxKind::DocTagReturnCast,
        LuaTokenKind::TkTagModule => LuaSyntaxKind::DocTagModule,
        LuaTokenKind::TkTagSee => LuaSyntaxKind::DocTagSee,
        LuaTokenKind::TkTagGeneric => LuaSyntaxKind::DocTagGeneric,
        LuaTokenKind::TkTagAs => LuaSyntaxKind::DocTagAs,
        LuaTokenKind::TkTagOverload => LuaSyntaxKind::DocTagOverload,
        LuaTokenKind::TkTagCast => LuaSyntaxKind::DocTagCast,
        LuaTokenKind::TkTagSource => LuaSyntaxKind::DocTagSource,
        LuaTokenKind::TkTagDiagnostic => LuaSyntaxKind::DocTagDiagnostic,
        LuaTokenKind::TkTagVersion => LuaSyntaxKind::DocTagVersion,
        LuaTokenKind::TkTagOperator => LuaSyntaxKind::DocTagOperator,
        LuaTokenKind::TkTagMapping => LuaSyntaxKind::DocTagMapping,
        LuaTokenKind::TkTagNamespace => LuaSyntaxKind::DocTagNamespace,
        LuaTokenKind::TkTagUsing => LuaSyntaxKind::DocTagUsing,
        LuaTokenKind::TkLanguage => LuaSyntaxKind::DocTagLanguage,
        LuaTokenKind::TkTagAttribute => LuaSyntaxKind::DocTagAttribute,
        LuaTokenKind::TkCallGeneric => LuaSyntaxKind::DocTagCallGeneric,
        LuaTokenKind::TkTagVisibility => LuaSyntaxKind::DocTagVisibility,
        LuaTokenKind::TkTagReadonly => LuaSyntaxKind::DocTagReadonly,
        LuaTokenKind::TkTagDeprecated => LuaSyntaxKind::DocTagDeprecated,
        LuaTokenKind::TkTagAsync => LuaSyntaxKind::DocTagAsync,
        LuaTokenKind::TkTagNodiscard => LuaSyntaxKind::DocTagNodiscard,
        LuaTokenKind::TkTagOther => LuaSyntaxKind::DocTagOther,
        LuaTokenKind::TkTagMeta => LuaSyntaxKind::DocTagMeta,
        LuaTokenKind::TkTagExport => LuaSyntaxKind::DocTagExport,
        LuaTokenKind::TkDocAttributeUse => LuaSyntaxKind::DocTagAttributeUse,
        _ => LuaSyntaxKind::NoneKind,
    }
}

/// After `---@`, each known tag name starts a tag of its own node kind
/// (`---@generic T` a `DocTagGeneric`, `---@interface` a class tag, the
/// visibilities a visibility tag), and any other name an unknown tag
/// (`DocTagOther`).
pub proof fn lemma_tag_names_open_their_nodes(t: Seq<char>)
    ensures
        t == "class"@ ==> spec_tag_node_kind(spec_to_tag(t)) == LuaSyntaxKind::DocTagClass,
        t == "enum"@ ==> spec_tag_node_kind(spec_to_tag(t)) == LuaSyntaxKind::DocTagEnum,
        t == "interface"@ ==> spec_tag_node_kind(spec_to_tag(t)) == LuaSyntaxKind::DocTagClass,
        t == "alias"@ ==> spec_tag_node_kind(spec_to_tag(t)) == LuaSyntaxKind::DocTagAlias,
        t == "module"@ ==> spec_tag_node_kind(spec_to_tag(t)) == LuaSyntaxKind::DocTagModule,
        t == "field"@ ==> spec_tag_node_kind(spec_to_tag(t)) == LuaSyntaxKind::DocTagField,
        t == "type"@ ==> spec_tag_node_kind(spec_to_tag(t)) == LuaSyntaxKind::DocTagType,
        t == "param"@ ==> spec_tag_node_kind(spec_to_tag(t)) == LuaSyntaxKind::DocTagParam,
        t == "return"@ ==> spec_tag_node_kind(spec_to_tag(t)) == LuaSyntaxKind::DocTagReturn,
        t == "return_cast"@ ==> spec_tag_node_kind(spec_to_tag(t)) == LuaSyntaxKind::DocTagReturnCast,
        t == "generic"@ ==> spec_tag_node_kind(spec_to_tag(t)) == LuaSyntaxKind::DocTagGeneric,
        t == "see"@ ==> spec_tag_node_kind(spec_to_tag(t)) == LuaSyntaxKind::DocTagSee,
        t == "overload"@ ==> spec_tag_node_kind(spec_to_tag(t)) == LuaSyntaxKind::DocTagOverload,
        t == "async"@ ==> spec_tag_node_kind(spec_to_tag(t)) == LuaSyntaxKind::DocTagAsync,
        t == "cast"@ ==> spec_tag_node_kind(spec_to_tag(t)) == LuaSyntaxKind::DocTagCast,
        t == "deprecated"@ ==> spec_tag_node_kind(spec_to_tag(t)) == LuaSyntaxKind::DocTagDeprecated,
        t == "private"@ ==> spec_tag_node_kind(spec_to_tag(t)) == LuaSyntaxKind::DocTagVisibility,
        t == "protected"@ ==> spec_tag_node_kind(spec_to_tag(t)) == LuaSyntaxKind::DocTagVisibility,
        t == "public"@ ==> spec_tag_node_kind(spec_to_tag(t)) == LuaSyntaxKind::DocTagVisibility,
        t == "package"@ ==> spec_tag_node_kind(spec_to_tag(t)) == LuaSyntaxKind::DocTagVisibility,
        t == "internal"@ ==> spec_tag_node_kind(spec_to_tag(t)) == LuaSyntaxKind::DocTagVisibility,
        t == "readonly"@ ==> spec_tag_node_kind(spec_to_tag(t)) == LuaSyntaxKind::DocTagReadonly,
        t == "diagnostic"@ ==> spec_tag_node_kind(spec_to_tag(t)) == LuaSyntaxKind::DocTagDiagnostic,
        t == "meta"@ ==> spec_tag_node_kind(spec_to_tag(t)) == LuaSyntaxKind::DocTagMeta,
        t == "version"@ ==> spec_tag_node_kind(spec_to_tag(t)) == LuaSyntaxKind::DocTagVersion,
        t == "as"@ ==> spec_tag_node_kind(spec_to_tag(t)) == LuaSyntaxKind::DocTagAs,
        t == "nodiscard"@ ==> spec_tag_node_kind(spec_to_tag(t)) == LuaSyntaxKind::DocTagNodiscard,
        t == "operator"@ ==> spec_tag_node_kind(spec_to_tag(t)) == LuaSyntaxKind::DocTagOperator,
        t == "mapping"@ ==> spec_tag_node_kind(spec_to_tag(t)) == LuaSyntaxKind::DocTagMapping,
        t == "namespace"@ ==> spec_tag_node_kind(spec_to_tag(t)) == LuaSyntaxKind::DocTagNamespace,
        t == "using"@ ==> spec_tag_node_kind(spec_to_tag(t)) == LuaSyntaxKind::DocTagUsing,
        t == "source"@ ==> spec_tag_node_kind(spec_to_tag(t)) == LuaSyntaxKind::DocTagSource,
        t == "export"@ ==> spec_tag_node_kind(spec_to_tag(t)) == LuaSyntaxKind::DocTagExport,
        t == "language"@ ==> spec_tag_node_kind(spec_to_tag(t)) == LuaSyntaxKind::DocTagLanguage,
        t == "attribute"@ ==> spec_tag_node_kind(spec_to_tag(t)) == LuaSyntaxKind::DocTagAttribute,
        !is_known_tag_name(t) ==> spec_tag_node_kind(spec_to_tag(t)) == LuaSyntaxKind::DocTagOther,
        starts_tag(spec_to_tag(t)),
{
    lemma_tag_names(t);
}

/// The tokens that start a tag of some kind.
pub open spec fn starts_tag(k: LuaTokenKind) -> bool {
    opens_tag_node(k) || k == LuaTokenKind::TkTagMeta || k == LuaTokenKind::TkTagExport || k
        == LuaTokenKind::TkDocAttributeUse
}

pub fn parse_tag(p: &mut LuaDocParser)
    requires
        ready(*old(p)),
    ensures
        final(p).step_from(old(p)),
        opens_tag_node(old(p).cur_kind()) ==> final(p).valid_start(old(p).evs().len() as int),
        starts_tag(old(p).cur_kind()) ==> final(p).opened(old(p).evs().len() as int, spec_tag_node_kind(old(p).cur_kind())),
        !starts_tag(old(p).cur_kind()) ==> *final(p) == *old(p),
        final(p).level() == old(p).level(),
{
    let level = p.get_mark_level();
    match parse_tag_detail(p) {
        Ok(_) => {},
        Err(error) => {
            p.push_error(error);
            let current_level = p.get_mark_level();
            let mut i: usize = 0;
            while i < current_level - level
                invariant
                    opens_tag_node(old(p).cur_kind()) ==> p.valid_start(old(p).evs().len() as int),
                    starts_tag(old(p).cur_kind()) ==> p.opened(old(p).evs().len() as int, spec_tag_node_kind(old(p).cur_kind())),
                    p.step_from(old(p)),
                    p.level() == current_level - i,
                    i <= current_level - level,
                    current_level >= level,
                    level == old(p).level(),
                decreases current_level - level - i,
            {
                p.push_node_end();
                i += 1;
            }
        },
    }
}

pub fn parse_long_tag(p: &mut LuaDocParser)
    requires
        ready(*old(p)),
    ensures
        final(p).step_from(old(p)),
        opens_tag_node(old(p).cur_kind()) ==> final(p).valid_start(old(p).evs().len() as int),
        starts_tag(old(p).cur_kind()) ==> final(p).opened(old(p).evs().len() as int, spec_tag_node_kind(old(p).cur_kind())),
        !starts_tag(old(p).cur_kind()) ==> *final(p) == *old(p),
        final(p).level() == old(p).level(),
{
    parse_tag(p);
}

fn parse_tag_detail(p: &mut LuaDocParser) -> (r: Result<CompleteMarker, LuaParseError>)
    requires
        ready(*old(p)),
    ensures
        final(p).step_from(old(p)),
        opens_tag_node(old(p).cur_kind()) ==> final(p).valid_start(old(p).evs().len() as int),
        starts_tag(old(p).cur_kind()) ==> final(p).opened(old(p).evs().len() as int, spec_tag_node_kind(old(p).cur_kind())),
        !starts_tag(old(p).cur_kind()) ==> r is Ok && *final(p) == *old(p),
        r is Ok ==> final(p).level() == old(p).level(),
        r is Err ==> final(p).level() >= old(p).level(),
{
    match p.current_token() {
        LuaTokenKind::TkTagClass | LuaTokenKind::TkTagInterface => parse_tag_class(p),
        LuaTokenKind::TkTagEnum => parse_tag_enum(p),
        LuaTokenKind::TkTagAlias => parse_tag_alias(p),
        LuaTokenKind::TkTagField => parse_tag_field(p),
        LuaTokenKind::TkTagType => parse_tag_type(p),
        LuaTokenKind::TkTagParam => parse_tag_param(p),
        LuaTokenKind::TkTagReturn => parse_tag_return(p),
        LuaTokenKind::TkTagReturnCast => parse_tag_return_cast(p),
        LuaTokenKind::TkTagModule => parse_tag_module(p),
        LuaTokenKind::TkTagSee => parse_tag_see(p),
        LuaTokenKind::TkTagGeneric => parse_tag_generic(p),
        LuaTokenKind::TkTagAs => parse_tag_as(p),
        LuaTokenKind::TkTagOverload => parse_tag_overload(p),
        LuaTokenKind::TkTagCast => parse_tag_cast(p),
        LuaTokenKind::TkTagSource => parse_tag_source(p),
        LuaTokenKind::TkTagDiagnostic => parse_tag_diagnostic(p),
        LuaTokenKind::TkTagVersion => parse_tag_version(p),
        LuaTokenKind::TkTagOperator => parse_tag_operator(p),
        LuaTokenKind::TkTagMapping => parse_tag_mapping(p),
        LuaTokenKind::TkTagNamespace => parse_tag_namespace(p),
        LuaTokenKind::TkTagUsing => parse_tag_using(p),
        LuaTokenKind::TkTagMeta => parse_tag_meta(p),
        LuaTokenKind::TkTagExport => parse_tag_export(p),
        LuaTokenKind::TkLanguage => parse_tag_language(p),
        LuaTokenKind::TkTagAttribute => parse_tag_attribute(p),
        LuaTokenKind::TkDocAttributeUse => parse_tag_attribute_use(p, true),
        LuaTokenKind::TkCallGeneric => parse_tag_call_generic(p),
        LuaTokenKind::TkTagVisibility => parse_tag_simple(p, LuaSyntaxKind::DocTagVisibility),
        LuaTokenKind::TkTagReadonly => parse_tag_simple(p, LuaSyntaxKind::DocTagReadonly),
        LuaTokenKind::TkTagDeprecated => parse_tag_simple(p, LuaSyntaxKind::DocTagDeprecated),
        LuaTokenKind::TkTagAsync => parse_tag_simple(p, LuaSyntaxKind::DocTagAsync),
        LuaTokenKind::TkTagNodiscard => parse_tag_simple(p, LuaSyntaxKind::DocTagNodiscard),
        LuaTokenKind::TkTagOther => parse_tag_simple(p, LuaSyntaxKind::DocTagOther),
        _ => {
            proof { crate::parser::lua_doc_parser::lemma_evs_kept_refl(p.evs()); }
            Ok(CompleteMarker::empty())
        },
    }
}

/// A tag with only a description: its node, the tag token and the description.
fn parse_tag_simple(p: &mut LuaDocParser, kind: LuaSyntaxKind) -> (r: Result<CompleteMarker, LuaParseError>)
    requires
        ready(*old(p)),
    ensures
        parsed(*old(p), *final(p), r),
        final(p).valid_start(old(p).evs().len() as int),
        final(p).opened(old(p).evs().len() as int, kind),
{
    let m = p.mark(kind);
    p.bump();
    p.set_lexer_state(LuaDocLexerState::Description);
    parse_description(p);
    Ok(m.complete(p))
}

// ---@class <class name>
fn parse_tag_class(p: &mut LuaDocParser) -> (r: Result<CompleteMarker, LuaParseError>)
    requires
        ready(*old(p)),
    ensures
        final(p).opened(old(p).evs().len() as int, LuaSyntaxKind::DocTagClass),
        parsed(*old(p), *final(p), r),
        final(p).valid_start(old(p).evs().len() as int),
{
    p.set_lexer_state(LuaDocLexerState::Normal);
    let m = p.mark(LuaSyntaxKind::DocTagClass);
    p.bump();
    if p.current_token() == LuaTokenKind::TkLeftParen {
        parse_doc_type_flag(p)?;
    }
    expect_token(p, LuaTokenKind::TkName)?;
    if p.current_token() == LuaTokenKind::TkLt {
        parse_generic_decl_list(p, true)?;
    }
    if p.current_token() == LuaTokenKind::TkColon {
        p.bump();
        parse_type_list(p)?;
    }
    p.set_lexer_state(LuaDocLexerState::Description);
    parse_description(p);
    Ok(m.complete(p))
}

// (partial, global, local)
fn parse_doc_type_flag(p: &mut LuaDocParser) -> (r: Result<CompleteMarker, LuaParseError>)
    requires
        ready(*old(p)),
    ensures
        final(p).opened(old(p).evs().len() as int, LuaSyntaxKind::DocTypeFlag),
        parsed(*old(p), *final(p), r),
        final(p).valid_start(old(p).evs().len() as int),
{
    let m = p.mark(LuaSyntaxKind::DocTypeFlag);
    p.bump();
    expect_token(p, LuaTokenKind::TkName)?;
    while p.current_token() == LuaTokenKind::TkComma
        invariant
            p.valid_start(old(p).evs().len() as int),
            p.step_from(old(p)),
            p.level() == old(p).level() + 1,
            p.valid_start(m.position as int),
            p.opened(m.position as int, LuaSyntaxKind::DocTypeFlag),
            m.position == old(p).evs().len(),
        decreases p.measure(),
    {
        p.bump();
        expect_token(p, LuaTokenKind::TkName)?;
    }
    expect_token(p, LuaTokenKind::TkRightParen)?;
    Ok(m.complete(p))
}

/// Parses generic parameters `<T, R: Base>` (or without the angle brackets).
pub fn parse_generic_decl_list(p: &mut LuaDocParser, allow_angle_brackets: bool) -> (r: Result<CompleteMarker, LuaParseError>)
    requires
        ready(*old(p)),
    ensures
        final(p).opened(old(p).evs().len() as int, LuaSyntaxKind::DocGenericDeclareList),
        parsed(*old(p), *final(p), r),
        final(p).valid_start(old(p).evs().len() as int),
    decreases old(p).measure(), 3nat,
{
    let m = p.mark(LuaSyntaxKind::DocGenericDeclareList);
    if allow_angle_brackets {
        expect_token(p, LuaTokenKind::TkLt)?;
    }
    parse_generic_param(p)?;
    while p.current_token() == LuaTokenKind::TkComma
        invariant
            p.valid_start(old(p).evs().len() as int),
            p.step_from(old(p)),
            p.level() == old(p).level() + 1,
            p.valid_start(m.position as int),
            p.opened(m.position as int, LuaSyntaxKind::DocGenericDeclareList),
            m.position == old(p).evs().len(),
        decreases p.measure(),
    {
        p.bump();
        parse_generic_param(p)?;
    }
    if allow_angle_brackets {
        expect_token(p, LuaTokenKind::TkGt)?;
    }
    Ok(m.complete(p))
}

// [attribute] A ... : type
fn parse_generic_param(p: &mut LuaDocParser) -> (r: Result<CompleteMarker, LuaParseError>)
    requires
        ready(*old(p)),
    ensures
        final(p).opened(old(p).evs().len() as int, LuaSyntaxKind::DocGenericParameter),
        parsed(*old(p), *final(p), r),
        final(p).valid_start(old(p).evs().len() as int),
    decreases old(p).measure(), 2nat,
{
    let m = p.mark(LuaSyntaxKind::DocGenericParameter);
    if p.current_token() == LuaTokenKind::TkLeftBracket {
        parse_tag_attribute_use(p, false)?;
    }
    expect_token(p, LuaTokenKind::TkName)?;
    if p.current_token() == LuaTokenKind::TkDots {
        p.bump();
    }
    if p.current_token() == LuaTokenKind::TkColon || p.current_token() == LuaTokenKind::TkDocExtends {
        p.bump();
        parse_type(p)?;
    }
    Ok(m.complete(p))
}

// ---@enum A : number
fn parse_tag_enum(p: &mut LuaDocParser) -> (r: Result<CompleteMarker, LuaParseError>)
    requires
        ready(*old(p)),
    ensures
        final(p).opened(old(p).evs().len() as int, LuaSyntaxKind::DocTagEnum),
        parsed(*old(p), *final(p), r),
        final(p).valid_start(old(p).evs().len() as int),
{
    p.set_lexer_state(LuaDocLexerState::Normal);
    let m = p.mark(LuaSyntaxKind::DocTagEnum);
    p.bump();
    if p.current_token() == LuaTokenKind::TkLeftParen {
        parse_doc_type_flag(p)?;
    }
    expect_token(p, LuaTokenKind::TkName)?;
    if p.current_token() == LuaTokenKind::TkColon {
        p.bump();
        parse_type(p)?;
    }
    if p.current_token() == LuaTokenKind::TkDocContinueOr {
        parse_enum_field_list(p)?;
    }
    p.set_lexer_state(LuaDocLexerState::Description);
    parse_description(p);
    Ok(m.complete(p))
}

fn parse_enum_field_list(p: &mut LuaDocParser) -> (r: Result<CompleteMarker, LuaParseError>)
    requires
        ready(*old(p)),
    ensures
        final(p).opened(old(p).evs().len() as int, LuaSyntaxKind::DocEnumFieldList),
        parsed(*old(p), *final(p), r),
        final(p).valid_start(old(p).evs().len() as int),
{
    let m = p.mark(LuaSyntaxKind::DocEnumFieldList);
    while p.current_token() == LuaTokenKind::TkDocContinueOr
        invariant
            p.step_from(old(p)),
            p.level() == old(p).level() + 1,
            p.valid_start(m.position as int),
            p.opened(m.position as int, LuaSyntaxKind::DocEnumFieldList),
            m.position == old(p).evs().len(),
        decreases p.measure(),
    {
        p.bump();
        parse_enum_field(p)?;
    }
    Ok(m.complete(p))
}

fn parse_enum_field(p: &mut LuaDocParser) -> (r: Result<CompleteMarker, LuaParseError>)
    requires
        ready(*old(p)),
    ensures
        final(p).opened(old(p).evs().len() as int, LuaSyntaxKind::DocEnumField),
        parsed(*old(p), *final(p), r),
        r is Ok,
{
    let m = p.mark(LuaSyntaxKind::DocEnumField);
    if p.current_token() == LuaTokenKind::TkName || p.current_token() == LuaTokenKind::TkString
        || p.current_token() == LuaTokenKind::TkInt {
        p.bump();
    }
    if p.current_token() == LuaTokenKind::TkDocDetail {
        p.bump();
    }
    Ok(m.complete(p))
}

// ---@alias A<T> keyof T
fn parse_tag_alias(p: &mut LuaDocParser) -> (r: Result<CompleteMarker, LuaParseError>)
    requires
        ready(*old(p)),
    ensures
        final(p).opened(old(p).evs().len() as int, LuaSyntaxKind::DocTagAlias),
        parsed(*old(p), *final(p), r),
        final(p).valid_start(old(p).evs().len() as int),
{
    p.set_lexer_state(LuaDocLexerState::Normal);
    let m = p.mark(LuaSyntaxKind::DocTagAlias);
    p.bump();
    expect_token(p, LuaTokenKind::TkName)?;
    if p.current_token() == LuaTokenKind::TkLt {
        parse_generic_decl_list(p, true)?;
    }
    if_token_bump(p, LuaTokenKind::TkDocDetail);
    parse_type(p)?;
    p.set_lexer_state(LuaDocLexerState::Description);
    parse_description(p);
    Ok(m.complete(p))
}

// ---@module "aaa.bbb.ccc"
fn parse_tag_module(p: &mut LuaDocParser) -> (r: Result<CompleteMarker, LuaParseError>)
    requires
        ready(*old(p)),
    ensures
        final(p).opened(old(p).evs().len() as int, LuaSyntaxKind::DocTagModule),
        parsed(*old(p), *final(p), r),
        final(p).valid_start(old(p).evs().len() as int),
{
    p.set_lexer_state(LuaDocLexerState::Normal);
    let m = p.mark(LuaSyntaxKind::DocTagModule);
    p.bump();
    expect_token(p, LuaTokenKind::TkString)?;
    p.set_lexer_state(LuaDocLexerState::Description);
    parse_description(p);
    Ok(m.complete(p))
}

// ---@field [visibility] aaa? number, or ---@field [string] number
#[verifier::rlimit(60)]
fn parse_tag_field(p: &mut LuaDocParser) -> (r: Result<CompleteMarker, LuaParseError>)
    requires
        ready(*old(p)),
    ensures
        final(p).opened(old(p).evs().len() as int, LuaSyntaxKind::DocTagField),
        parsed(*old(p), *final(p), r),
        final(p).valid_start(old(p).evs().len() as int),
{
    p.set_lexer_state(LuaDocLexerState::FieldStart);
    let m = p.mark(LuaSyntaxKind::DocTagField);
    p.bump();
    if p.current_token() == LuaTokenKind::TkLeftParen {
        parse_doc_type_flag(p)?;
    }
    p.set_lexer_state(LuaDocLexerState::Normal);
    if_token_bump(p, LuaTokenKind::TkDocVisibility);
    match p.current_token() {
        LuaTokenKind::TkName => p.bump(),
        LuaTokenKind::TkLeftBracket => {
            p.bump();
            if p.current_token() == LuaTokenKind::TkInt || p.current_token() == LuaTokenKind::TkString {
                p.bump();
            } else {
                parse_type(p)?;
            }
            expect_token(p, LuaTokenKind::TkRightBracket)?;
        },
        _ => {
            return Err(
                doc_error_with_kind("expect field name or '[', but get ", p.current_token(), p.current_token_range()),
            );
        },
    }
    if_token_bump(p, LuaTokenKind::TkDocQuestion);
    parse_type(p)?;
    p.set_lexer_state(LuaDocLexerState::Description);
    parse_description(p);
    Ok(m.complete(p))
}

// ---@type number, string
fn parse_tag_type(p: &mut LuaDocParser) -> (r: Result<CompleteMarker, LuaParseError>)
    requires
        ready(*old(p)),
    ensures
        final(p).opened(old(p).evs().len() as int, LuaSyntaxKind::DocTagType),
        parsed(*old(p), *final(p), r),
        final(p).valid_start(old(p).evs().len() as int),
{
    p.set_lexer_state(LuaDocLexerState::Normal);
    let m = p.mark(LuaSyntaxKind::DocTagType);
    p.bump();
    parse_type(p)?;
    while p.current_token() == LuaTokenKind::TkComma
        invariant
            p.valid_start(old(p).evs().len() as int),
            p.step_from(old(p)),
            p.level() == old(p).level() + 1,
            p.valid_start(m.position as int),
            p.opened(m.position as int, LuaSyntaxKind::DocTagType),
            m.position == old(p).evs().len(),
        decreases p.measure(),
    {
        p.bump();
        parse_type(p)?;
    }
    p.set_lexer_state(LuaDocLexerState::Description);
    parse_description(p);
    Ok(m.complete(p))
}

// ---@param [attribute] a? number
fn parse_tag_param(p: &mut LuaDocParser) -> (r: Result<CompleteMarker, LuaParseError>)
    requires
        ready(*old(p)),
    ensures
        final(p).opened(old(p).evs().len() as int, LuaSyntaxKind::DocTagParam),
        parsed(*old(p), *final(p), r),
        final(p).valid_start(old(p).evs().len() as int),
{
    p.set_lexer_state(LuaDocLexerState::Normal);
    let m = p.mark(LuaSyntaxKind::DocTagParam);
    p.bump();
    if p.current_token() == LuaTokenKind::TkLeftBracket {
        parse_tag_attribute_use(p, false)?;
    }
    if p.current_token() == LuaTokenKind::TkName || p.current_token() == LuaTokenKind::TkDots {
        p.bump();
    } else {
        return Err(
            doc_error_with_kind("expect param name or '...', but get ", p.current_token(), p.current_token_range()),
        );
    }
    if_token_bump(p, LuaTokenKind::TkDocQuestion);
    parse_type(p)?;
    p.set_lexer_state(LuaDocLexerState::Description);
    parse_description(p);
    Ok(m.complete(p))
}

// ---@return number <name>, string
fn parse_tag_return(p: &mut LuaDocParser) -> (r: Result<CompleteMarker, LuaParseError>)
    requires
        ready(*old(p)),
    ensures
        final(p).opened(old(p).evs().len() as int, LuaSyntaxKind::DocTagReturn),
        parsed(*old(p), *final(p), r),
        final(p).valid_start(old(p).evs().len() as int),
{
    p.set_lexer_state(LuaDocLexerState::Normal);
    let m = p.mark(LuaSyntaxKind::DocTagReturn);
    p.bump();
    parse_type(p)?;
    if_token_bump(p, LuaTokenKind::TkName);
    while p.current_token() == LuaTokenKind::TkComma
        invariant
            p.valid_start(old(p).evs().len() as int),
            p.step_from(old(p)),
            p.level() == old(p).level() + 1,
            p.valid_start(m.position as int),
            p.opened(m.position as int, LuaSyntaxKind::DocTagReturn),
            m.position == old(p).evs().len(),
        decreases p.measure(),
    {
        p.bump();
        parse_type(p)?;
        if_token_bump(p, LuaTokenKind::TkName);
    }
    p.set_lexer_state(LuaDocLexerState::Description);
    parse_description(p);
    Ok(m.complete(p))
}

// ---@return_cast <param name> <true_type> else <false_type>
fn parse_tag_return_cast(p: &mut LuaDocParser) -> (r: Result<CompleteMarker, LuaParseError>)
    requires
        ready(*old(p)),
    ensures
        final(p).opened(old(p).evs().len() as int, LuaSyntaxKind::DocTagReturnCast),
        parsed(*old(p), *final(p), r),
        final(p).valid_start(old(p).evs().len() as int),
{
    p.set_lexer_state(LuaDocLexerState::Normal);
    let m = p.mark(LuaSyntaxKind::DocTagReturnCast);
    p.bump();
    expect_token(p, LuaTokenKind::TkName)?;
    parse_op_type(p)?;
    if p.current_token() == LuaTokenKind::TkDocElse {
        p.bump();
        parse_op_type(p)?;
    }
    p.set_lexer_state(LuaDocLexerState::Description);
    parse_description(p);
    Ok(m.complete(p))
}

// ---@generic T, R : number
fn parse_tag_generic(p: &mut LuaDocParser) -> (r: Result<CompleteMarker, LuaParseError>)
    requires
        ready(*old(p)),
    ensures
        final(p).opened(old(p).evs().len() as int, LuaSyntaxKind::DocTagGeneric),
        parsed(*old(p), *final(p), r),
        final(p).valid_start(old(p).evs().len() as int),
{
    p.set_lexer_state(LuaDocLexerState::Normal);
    let m = p.mark(LuaSyntaxKind::DocTagGeneric);
    p.bump();
    parse_generic_decl_list(p, false)?;
    p.set_lexer_state(LuaDocLexerState::Description);
    parse_description(p);
    Ok(m.complete(p))
}

// ---@see <name>#<name>
fn parse_tag_see(p: &mut LuaDocParser) -> (r: Result<CompleteMarker, LuaParseError>)
    requires
        ready(*old(p)),
    ensures
        final(p).opened(old(p).evs().len() as int, LuaSyntaxKind::DocTagSee),
        parsed(*old(p), *final(p), r),
        final(p).valid_start(old(p).evs().len() as int),
{
    p.set_lexer_state(LuaDocLexerState::See);
    let m = p.mark(LuaSyntaxKind::DocTagSee);
    p.bump();
    expect_token(p, LuaTokenKind::TkDocSeeContent)?;
    p.set_lexer_state(LuaDocLexerState::Description);
    parse_description(p);
    Ok(m.complete(p))
}

// ---@as number
fn parse_tag_as(p: &mut LuaDocParser) -> (r: Result<CompleteMarker, LuaParseError>)
    requires
        ready(*old(p)),
    ensures
        final(p).opened(old(p).evs().len() as int, LuaSyntaxKind::DocTagAs),
        parsed(*old(p), *final(p), r),
        final(p).valid_start(old(p).evs().len() as int),
{
    p.set_lexer_state(LuaDocLexerState::Normal);
    let m = p.mark(LuaSyntaxKind::DocTagAs);
    p.bump();
    parse_type(p)?;
    if_token_bump(p, LuaTokenKind::TkLongCommentEnd);
    p.set_lexer_state(LuaDocLexerState::Description);
    parse_description(p);
    Ok(m.complete(p))
}

// ---@overload async fun(a: number): string
fn parse_tag_overload(p: &mut LuaDocParser) -> (r: Result<CompleteMarker, LuaParseError>)
    requires
        ready(*old(p)),
    ensures
        final(p).opened(old(p).evs().len() as int, LuaSyntaxKind::DocTagOverload),
        parsed(*old(p), *final(p), r),
        final(p).valid_start(old(p).evs().len() as int),
{
    p.set_lexer_state(LuaDocLexerState::Normal);
    let m = p.mark(LuaSyntaxKind::DocTagOverload);
    p.bump();
    parse_fun_type(p)?;
    p.set_lexer_state(LuaDocLexerState::Description);
    parse_description(p);
    Ok(m.complete(p))
}

// ---@cast a +string, -number
fn parse_tag_cast(p: &mut LuaDocParser) -> (r: Result<CompleteMarker, LuaParseError>)
    requires
        ready(*old(p)),
    ensures
        final(p).opened(old(p).evs().len() as int, LuaSyntaxKind::DocTagCast),
        parsed(*old(p), *final(p), r),
        final(p).valid_start(old(p).evs().len() as int),
{
    p.set_lexer_state(LuaDocLexerState::CastExpr);
    let m = p.mark(LuaSyntaxKind::DocTagCast);
    p.bump();
    if p.current_token() == LuaTokenKind::TkName {
        match parse_cast_expr(p) {
            Ok(_) => {},
            Err(e) => {
                return Err(e);
            },
        }
    }
    parse_op_type(p)?;
    while p.current_token() == LuaTokenKind::TkComma
        invariant
            p.valid_start(old(p).evs().len() as int),
            p.step_from(old(p)),
            p.level() == old(p).level() + 1,
            p.valid_start(m.position as int),
            p.opened(m.position as int, LuaSyntaxKind::DocTagCast),
            m.position == old(p).evs().len(),
        decreases p.measure(),
    {
        p.bump();
        parse_op_type(p)?;
    }
    p.set_lexer_state(LuaDocLexerState::Description);
    parse_description(p);
    Ok(m.complete(p))
}

/// Parses the cast target: a name and the fields after it, `a.b.c`.
fn parse_cast_expr(p: &mut LuaDocParser) -> (r: Result<CompleteMarker, LuaParseError>)
    requires
        ready(*old(p)),
    ensures
        parsed(*old(p), *final(p), r),
        r is Ok,
{
    let m = p.mark(LuaSyntaxKind::NameExpr);
    p.bump();
    let mut cm = m.complete(p);
    while p.current_token() == LuaTokenKind::TkDot
        invariant
            p.step_from(old(p)),
            p.level() == old(p).level(),
            p.valid_start(cm.start as int),
        decreases p.measure(),
    {
        let index_m = cm.precede(p, LuaSyntaxKind::IndexExpr);
        p.bump();
        if p.current_token() == LuaTokenKind::TkName {
            p.bump();
        }
        cm = index_m.complete(p);
    }
    Ok(cm)
}

// +<type>, -<type>, +?, <type>
fn parse_op_type(p: &mut LuaDocParser) -> (r: Result<CompleteMarker, LuaParseError>)
    requires
        ready(*old(p)),
    ensures
        final(p).opened(old(p).evs().len() as int, LuaSyntaxKind::DocOpType),
        parsed(*old(p), *final(p), r),
        final(p).valid_start(old(p).evs().len() as int),
{
    p.set_lexer_state(LuaDocLexerState::Normal);
    let m = p.mark(LuaSyntaxKind::DocOpType);
    if p.current_token() == LuaTokenKind::TkPlus || p.current_token() == LuaTokenKind::TkMinus {
        p.bump();
        if p.current_token() == LuaTokenKind::TkDocQuestion {
            p.bump();
        } else {
            parse_type(p)?;
        }
    } else {
        parse_type(p)?;
    }
    Ok(m.complete(p))
}

// ---@source "<path>"
fn parse_tag_source(p: &mut LuaDocParser) -> (r: Result<CompleteMarker, LuaParseError>)
    requires
        ready(*old(p)),
    ensures
        final(p).opened(old(p).evs().len() as int, LuaSyntaxKind::DocTagSource),
        parsed(*old(p), *final(p), r),
        final(p).valid_start(old(p).evs().len() as int),
{
    p.set_lexer_state(LuaDocLexerState::Source);
    let m = p.mark(LuaSyntaxKind::DocTagSource);
    p.bump();
    expect_token(p, LuaTokenKind::TKDocPath)?;
    Ok(m.complete(p))
}

// ---@diagnostic <action>: <diagnostic-code>, ...
fn parse_tag_diagnostic(p: &mut LuaDocParser) -> (r: Result<CompleteMarker, LuaParseError>)
    requires
        ready(*old(p)),
    ensures
        final(p).opened(old(p).evs().len() as int, LuaSyntaxKind::DocTagDiagnostic),
        parsed(*old(p), *final(p), r),
        final(p).valid_start(old(p).evs().len() as int),
{
    p.set_lexer_state(LuaDocLexerState::Normal);
    let m = p.mark(LuaSyntaxKind::DocTagDiagnostic);
    p.bump();
    expect_token(p, LuaTokenKind::TkName)?;
    if p.current_token() == LuaTokenKind::TkColon {
        p.bump();
        parse_diagnostic_code_list(p)?;
    }
    Ok(m.complete(p))
}

fn parse_diagnostic_code_list(p: &mut LuaDocParser) -> (r: Result<CompleteMarker, LuaParseError>)
    requires
        ready(*old(p)),
    ensures
        final(p).opened(old(p).evs().len() as int, LuaSyntaxKind::DocDiagnosticCodeList),
        parsed(*old(p), *final(p), r),
        final(p).valid_start(old(p).evs().len() as int),
{
    let m = p.mark(LuaSyntaxKind::DocDiagnosticCodeList);
    expect_token(p, LuaTokenKind::TkName)?;
    while p.current_token() == LuaTokenKind::TkComma
        invariant
            p.valid_start(old(p).evs().len() as int),
            p.step_from(old(p)),
            p.level() == old(p).level() + 1,
            p.valid_start(m.position as int),
            p.opened(m.position as int, LuaSyntaxKind::DocDiagnosticCodeList),
            m.position == old(p).evs().len(),
        decreases p.measure(),
    {
        p.bump();
        expect_token(p, LuaTokenKind::TkName)?;
    }
    Ok(m.complete(p))
}

// ---@version > Lua 5.1, Lua JIT
fn parse_tag_version(p: &mut LuaDocParser) -> (r: Result<CompleteMarker, LuaParseError>)
    requires
        ready(*old(p)),
    ensures
        final(p).opened(old(p).evs().len() as int, LuaSyntaxKind::DocTagVersion),
        parsed(*old(p), *final(p), r),
        final(p).valid_start(old(p).evs().len() as int),
{
    p.set_lexer_state(LuaDocLexerState::Version);
    let m = p.mark(LuaSyntaxKind::DocTagVersion);
    p.bump();
    parse_version(p)?;
    while p.current_token() == LuaTokenKind::TkComma
        invariant
            p.valid_start(old(p).evs().len() as int),
            p.step_from(old(p)),
            p.level() == old(p).level() + 1,
            p.valid_start(m.position as int),
            p.opened(m.position as int, LuaSyntaxKind::DocTagVersion),
            m.position == old(p).evs().len(),
        decreases p.measure(),
    {
        p.bump();
        parse_version(p)?;
    }
    p.set_lexer_state(LuaDocLexerState::Description);
    parse_description(p);
    Ok(m.complete(p))
}

// > Lua 5.1
fn parse_version(p: &mut LuaDocParser) -> (r: Result<CompleteMarker, LuaParseError>)
    requires
        ready(*old(p)),
    ensures
        final(p).opened(old(p).evs().len() as int, LuaSyntaxKind::DocVersion),
        parsed(*old(p), *final(p), r),
        final(p).valid_start(old(p).evs().len() as int),
{
    let m = p.mark(LuaSyntaxKind::DocVersion);
    if p.current_token() == LuaTokenKind::TkLt || p.current_token() == LuaTokenKind::TkGt {
        p.bump();
    }
    if p.current_token() == LuaTokenKind::TkName {
        p.bump();
    }
    expect_token(p, LuaTokenKind::TkDocVersionNumber)?;
    Ok(m.complete(p))
}

// ---@operator add(number): number
fn parse_tag_operator(p: &mut LuaDocParser) -> (r: Result<CompleteMarker, LuaParseError>)
    requires
        ready(*old(p)),
    ensures
        final(p).opened(old(p).evs().len() as int, LuaSyntaxKind::DocTagOperator),
        parsed(*old(p), *final(p), r),
        final(p).valid_start(old(p).evs().len() as int),
{
    p.set_lexer_state(LuaDocLexerState::Normal);
    let m = p.mark(LuaSyntaxKind::DocTagOperator);
    p.bump();
    expect_token(p, LuaTokenKind::TkName)?;
    if p.current_token() == LuaTokenKind::TkLeftParen {
        p.bump();
        parse_type_list(p)?;
        expect_token(p, LuaTokenKind::TkRightParen)?;
    }
    if p.current_token() == LuaTokenKind::TkColon {
        p.bump();
        parse_type(p)?;
    }
    p.set_lexer_state(LuaDocLexerState::Description);
    parse_description(p);
    Ok(m.complete(p))
}

// ---@mapping <new name>
fn parse_tag_mapping(p: &mut LuaDocParser) -> (r: Result<CompleteMarker, LuaParseError>)
    requires
        ready(*old(p)),
    ensures
        final(p).opened(old(p).evs().len() as int, LuaSyntaxKind::DocTagMapping),
        parsed(*old(p), *final(p), r),
        final(p).valid_start(old(p).evs().len() as int),
{
    p.set_lexer_state(LuaDocLexerState::Normal);
    let m = p.mark(LuaSyntaxKind::DocTagMapping);
    p.bump();
    expect_token(p, LuaTokenKind::TkName)?;
    p.set_lexer_state(LuaDocLexerState::Description);
    parse_description(p);
    Ok(m.complete(p))
}

// ---@namespace System.Net
fn parse_tag_namespace(p: &mut LuaDocParser) -> (r: Result<CompleteMarker, LuaParseError>)
    requires
        ready(*old(p)),
    ensures
        final(p).opened(old(p).evs().len() as int, LuaSyntaxKind::DocTagNamespace),
        parsed(*old(p), *final(p), r),
        final(p).valid_start(old(p).evs().len() as int),
{
    p.set_lexer_state(LuaDocLexerState::Normal);
    let m = p.mark(LuaSyntaxKind::DocTagNamespace);
    p.bump();
    expect_token(p, LuaTokenKind::TkName)?;
    Ok(m.complete(p))
}

// ---@using path
fn parse_tag_using(p: &mut LuaDocParser) -> (r: Result<CompleteMarker, LuaParseError>)
    requires
        ready(*old(p)),
    ensures
        final(p).opened(old(p).evs().len() as int, LuaSyntaxKind::DocTagUsing),
        parsed(*old(p), *final(p), r),
        final(p).valid_start(old(p).evs().len() as int),
{
    p.set_lexer_state(LuaDocLexerState::Normal);
    let m = p.mark(LuaSyntaxKind::DocTagUsing);
    p.bump();
    expect_token(p, LuaTokenKind::TkName)?;
    Ok(m.complete(p))
}

fn parse_tag_meta(p: &mut LuaDocParser) -> (r: Result<CompleteMarker, LuaParseError>)
    requires
        ready(*old(p)),
    ensures
        final(p).opened(old(p).evs().len() as int, LuaSyntaxKind::DocTagMeta),
        parsed(*old(p), *final(p), r),
        r is Ok,
{
    p.set_lexer_state(LuaDocLexerState::Normal);
    let m = p.mark(LuaSyntaxKind::DocTagMeta);
    p.bump();
    if_token_bump(p, LuaTokenKind::TkName);
    Ok(m.complete(p))
}

fn parse_tag_export(p: &mut LuaDocParser) -> (r: Result<CompleteMarker, LuaParseError>)
    requires
        ready(*old(p)),
    ensures
        final(p).opened(old(p).evs().len() as int, LuaSyntaxKind::DocTagExport),
        parsed(*old(p), *final(p), r),
        r is Ok,
{
    p.set_lexer_state(LuaDocLexerState::Normal);
    let m = p.mark(LuaSyntaxKind::DocTagExport);
    p.bump();
    if p.current_token() == LuaTokenKind::TkName {
        p.bump();
    }
    p.set_lexer_state(LuaDocLexerState::Description);
    parse_description(p);
    Ok(m.complete(p))
}

fn parse_tag_language(p: &mut LuaDocParser) -> (r: Result<CompleteMarker, LuaParseError>)
    requires
        ready(*old(p)),
    ensures
        final(p).opened(old(p).evs().len() as int, LuaSyntaxKind::DocTagLanguage),
        parsed(*old(p), *final(p), r),
        final(p).valid_start(old(p).evs().len() as int),
{
    p.set_lexer_state(LuaDocLexerState::Normal);
    let m = p.mark(LuaSyntaxKind::DocTagLanguage);
    p.bump();
    expect_token(p, LuaTokenKind::TkName)?;
    p.set_lexer_state(LuaDocLexerState::Description);
    parse_description(p);
    Ok(m.complete(p))
}

// ---@attribute name(params)
fn parse_tag_attribute(p: &mut LuaDocParser) -> (r: Result<CompleteMarker, LuaParseError>)
    requires
        ready(*old(p)),
    ensures
        final(p).opened(old(p).evs().len() as int, LuaSyntaxKind::DocTagAttribute),
        parsed(*old(p), *final(p), r),
        final(p).valid_start(old(p).evs().len() as int),
{
    p.set_lexer_state(LuaDocLexerState::Normal);
    let m = p.mark(LuaSyntaxKind::DocTagAttribute);
    p.bump();
    expect_token(p, LuaTokenKind::TkName)?;
    parse_type_attribute(p)?;
    p.set_lexer_state(LuaDocLexerState::Description);
    parse_description(p);
    Ok(m.complete(p))
}

// (param1: type1, param2: type2, ...)
fn parse_type_attribute(p: &mut LuaDocParser) -> (r: Result<CompleteMarker, LuaParseError>)
    requires
        ready(*old(p)),
    ensures
        final(p).opened(old(p).evs().len() as int, LuaSyntaxKind::TypeAttribute),
        parsed(*old(p), *final(p), r),
        final(p).valid_start(old(p).evs().len() as int),
{
    let m = p.mark(LuaSyntaxKind::TypeAttribute);
    expect_token(p, LuaTokenKind::TkLeftParen)?;
    if p.current_token() != LuaTokenKind::TkRightParen {
        parse_typed_param(p)?;
        while p.current_token() == LuaTokenKind::TkComma
            invariant
                p.valid_start(old(p).evs().len() as int),
                p.step_from(old(p)),
                p.level() == old(p).level() + 1,
                p.valid_start(m.position as int),
                p.opened(m.position as int, LuaSyntaxKind::TypeAttribute),
                m.position == old(p).evs().len(),
            decreases p.measure(),
        {
            p.bump();
            parse_typed_param(p)?;
        }
    }
    expect_token(p, LuaTokenKind::TkRightParen)?;
    Ok(m.complete(p))
}

/// Parses attribute uses `[a(arg, ...), b]`, with a description after them
/// when `allow_description`.
pub fn parse_tag_attribute_use(p: &mut LuaDocParser, allow_description: bool) -> (r: Result<CompleteMarker, LuaParseError>)
    requires
        ready(*old(p)),
        old(p).cur_kind() != LuaTokenKind::TkEof,
    ensures
        final(p).opened(old(p).evs().len() as int, LuaSyntaxKind::DocTagAttributeUse),
        parsed(*old(p), *final(p), r),
        final(p).measure() < old(p).measure(),
    decreases old(p).measure(), 1nat,
{
    let m = p.mark(LuaSyntaxKind::DocTagAttributeUse);
    p.bump();
    loop
        invariant
            p.step_from(old(p)),
            p.measure() < old(p).measure(),
            p.level() == old(p).level() + 1,
            p.valid_start(m.position as int),
            p.opened(m.position as int, LuaSyntaxKind::DocTagAttributeUse),
            m.position == old(p).evs().len(),
        ensures
            p.step_from(old(p)),
            p.measure() < old(p).measure(),
            p.level() == old(p).level() + 1,
            p.valid_start(m.position as int),
            p.opened(m.position as int, LuaSyntaxKind::DocTagAttributeUse),
            m.position == old(p).evs().len(),
        decreases p.measure(),
    {
        if p.current_token() != LuaTokenKind::TkName {
            break;
        }
        parse_doc_attribute_use(p)?;
        if p.current_token() != LuaTokenKind::TkComma {
            break;
        }
        p.bump();
    }
    expect_token(p, LuaTokenKind::TkRightBracket)?;
    if allow_description {
        p.set_lexer_state(LuaDocLexerState::Description);
        parse_description(p);
    } else {
        p.set_lexer_state(LuaDocLexerState::Normal);
    }
    Ok(m.complete(p))
}

// attribute(arg1, arg2, ...)
fn parse_doc_attribute_use(p: &mut LuaDocParser) -> (r: Result<CompleteMarker, LuaParseError>)
    requires
        ready(*old(p)),
    ensures
        final(p).opened(old(p).evs().len() as int, LuaSyntaxKind::DocAttributeUse),
        parsed(*old(p), *final(p), r),
        final(p).valid_start(old(p).evs().len() as int),
    decreases old(p).measure(), 8nat,
{
    let m = p.mark(LuaSyntaxKind::DocAttributeUse);
    parse_type(p)?;
    if p.current_token() == LuaTokenKind::TkLeftParen {
        parse_attribute_arg_list(p)?;
    }
    Ok(m.complete(p))
}

fn parse_attribute_arg_list(p: &mut LuaDocParser) -> (r: Result<CompleteMarker, LuaParseError>)
    requires
        ready(*old(p)),
    ensures
        final(p).opened(old(p).evs().len() as int, LuaSyntaxKind::DocAttributeCallArgList),
        parsed(*old(p), *final(p), r),
        final(p).valid_start(old(p).evs().len() as int),
{
    let m = p.mark(LuaSyntaxKind::DocAttributeCallArgList);
    p.bump();
    if p.current_token() != LuaTokenKind::TkRightParen {
        loop
            invariant
                p.valid_start(old(p).evs().len() as int),
                p.started(),
                p.step_from(old(p)),
                p.level() == old(p).level() + 1,
                p.valid_start(m.position as int),
                p.opened(m.position as int, LuaSyntaxKind::DocAttributeCallArgList),
                m.position == old(p).evs().len(),
            ensures
                p.step_from(old(p)),
                p.level() == old(p).level() + 1,
                p.valid_start(m.position as int),
                p.opened(m.position as int, LuaSyntaxKind::DocAttributeCallArgList),
                m.position == old(p).evs().len(),
            decreases p.measure(),
        {
            if p.current_token() == LuaTokenKind::TkEof {
                break;
            }
            parse_attribute_arg(p)?;
            if p.current_token() != LuaTokenKind::TkComma {
                break;
            }
            p.bump();
            if p.current_token() == LuaTokenKind::TkRightParen {
                break;
            }
        }
    }
    expect_token(p, LuaTokenKind::TkRightParen)?;
    Ok(m.complete(p))
}

fn parse_attribute_arg(p: &mut LuaDocParser) -> (r: Result<CompleteMarker, LuaParseError>)
    requires
        ready(*old(p)),
    ensures
        final(p).opened(old(p).evs().len() as int, LuaSyntaxKind::LiteralExpr),
        parsed(*old(p), *final(p), r),
        r is Ok ==> final(p).measure() < old(p).measure() || old(p).cur_kind() == LuaTokenKind::TkEof,
        final(p).valid_start(old(p).evs().len() as int),
{
    let m = p.mark(LuaSyntaxKind::LiteralExpr);
    match p.current_token() {
        LuaTokenKind::TkInt | LuaTokenKind::TkFloat | LuaTokenKind::TkComplex | LuaTokenKind::TkNil
        | LuaTokenKind::TkTrue | LuaTokenKind::TkFalse | LuaTokenKind::TkDots | LuaTokenKind::TkString
        | LuaTokenKind::TkLongString => {
            p.bump();
        },
        _ => {
            return Err(LuaParseError::doc_error_from("Expected attribute argument value", p.current_token_range()));
        },
    }
    Ok(m.complete(p))
}

// function_name--[[@<type>, <type>...]](...args)
fn parse_tag_call_generic(p: &mut LuaDocParser) -> (r: Result<CompleteMarker, LuaParseError>)
    requires
        ready(*old(p)),
    ensures
        final(p).opened(old(p).evs().len() as int, LuaSyntaxKind::DocTagCallGeneric),
        parsed(*old(p), *final(p), r),
        final(p).valid_start(old(p).evs().len() as int),
{
    p.set_lexer_state(LuaDocLexerState::Normal);
    let m = p.mark(LuaSyntaxKind::DocTagCallGeneric);
    p.bump();
    parse_type_list(p)?;
    expect_token(p, LuaTokenKind::TkGt)?;
    Ok(m.complete(p))
}

} // verus!
