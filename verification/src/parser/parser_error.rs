use vstd::prelude::*;

use crate::kind::lua_token_kind::LuaTokenKind;
use crate::text::strings::push_str;
use crate::text::text_range::SourceRange;

verus! {

#[derive(Debug, Clone, Copy, PartialEq, Eq, Structural)]
pub enum LuaParseErrorKind {
    SyntaxError,
    DocError,
}

/// An error found while lexing or parsing, with the range it concerns.
#[derive(Debug, Clone)]
pub struct LuaParseError {
    pub kind: LuaParseErrorKind,
    pub message: String,
    pub range: SourceRange,
}

/// The name of a token kind: the name of its variant, which is also its
/// `Debug` text.
pub open spec fn token_kind_name(kind: LuaTokenKind) -> Seq<char> {
    match kind {
        LuaTokenKind::NoneKind => "NoneKind"@,
        LuaTokenKind::TkAnd => "TkAnd"@,
        LuaTokenKind::TkBreak => "TkBreak"@,
        LuaTokenKind::TkDo => "TkDo"@,
        LuaTokenKind::TkElse => "TkElse"@,
        LuaTokenKind::TkElseIf => "TkElseIf"@,
        LuaTokenKind::TkEnd => "TkEnd"@,
        LuaTokenKind::TkFalse => "TkFalse"@,
        LuaTokenKind::TkFor => "TkFor"@,
        LuaTokenKind::TkFunction => "TkFunction"@,
        LuaTokenKind::TkGoto => "TkGoto"@,
        LuaTokenKind::TkIf => "TkIf"@,
        LuaTokenKind::TkIn => "TkIn"@,
        LuaTokenKind::TkLocal => "TkLocal"@,
        LuaTokenKind::TkNil => "TkNil"@,
        LuaTokenKind::TkNot => "TkNot"@,
        LuaTokenKind::TkOr => "TkOr"@,
        LuaTokenKind::TkRepeat => "TkRepeat"@,
        LuaTokenKind::TkReturn => "TkReturn"@,
        LuaTokenKind::TkThen => "TkThen"@,
        LuaTokenKind::TkTrue => "TkTrue"@,
        LuaTokenKind::TkUntil => "TkUntil"@,
        LuaTokenKind::TkWhile => "TkWhile"@,
        LuaTokenKind::TkGlobal => "TkGlobal"@,
        LuaTokenKind::TkWhitespace => "TkWhitespace"@,
        LuaTokenKind::TkEndOfLine => "TkEndOfLine"@,
        LuaTokenKind::TkPlus => "TkPlus"@,
        LuaTokenKind::TkMinus => "TkMinus"@,
        LuaTokenKind::TkMul => "TkMul"@,
        LuaTokenKind::TkDiv => "TkDiv"@,
        LuaTokenKind::TkIDiv => "TkIDiv"@,
        LuaTokenKind::TkDot => "TkDot"@,
        LuaTokenKind::TkConcat => "TkConcat"@,
        LuaTokenKind::TkDots => "TkDots"@,
        LuaTokenKind::TkComma => "TkComma"@,
        LuaTokenKind::TkAssign => "TkAssign"@,
        LuaTokenKind::TkEq => "TkEq"@,
        LuaTokenKind::TkGe => "TkGe"@,
        LuaTokenKind::TkLe => "TkLe"@,
        LuaTokenKind::TkNe => "TkNe"@,
        LuaTokenKind::TkShl => "TkShl"@,
        LuaTokenKind::TkShr => "TkShr"@,
        LuaTokenKind::TkLt => "TkLt"@,
        LuaTokenKind::TkGt => "TkGt"@,
        LuaTokenKind::TkMod => "TkMod"@,
        LuaTokenKind::TkPow => "TkPow"@,
        LuaTokenKind::TkLen => "TkLen"@,
        LuaTokenKind::TkBitAnd => "TkBitAnd"@,
        LuaTokenKind::TkBitOr => "TkBitOr"@,
        LuaTokenKind::TkBitXor => "TkBitXor"@,
        LuaTokenKind::TkColon => "TkColon"@,
        LuaTokenKind::TkDbColon => "TkDbColon"@,
        LuaTokenKind::TkSemicolon => "TkSemicolon"@,
        LuaTokenKind::TkLeftBracket => "TkLeftBracket"@,
        LuaTokenKind::TkRightBracket => "TkRightBracket"@,
        LuaTokenKind::TkLeftParen => "TkLeftParen"@,
        LuaTokenKind::TkRightParen => "TkRightParen"@,
        LuaTokenKind::TkLeftBrace => "TkLeftBrace"@,
        LuaTokenKind::TkRightBrace => "TkRightBrace"@,
        LuaTokenKind::TkComplex => "TkComplex"@,
        LuaTokenKind::TkInt => "TkInt"@,
        LuaTokenKind::TkFloat => "TkFloat"@,
        LuaTokenKind::TkName => "TkName"@,
        LuaTokenKind::TkString => "TkString"@,
        LuaTokenKind::TkLongString => "TkLongString"@,
        LuaTokenKind::TkShortComment => "TkShortComment"@,
        LuaTokenKind::TkLongComment => "TkLongComment"@,
        LuaTokenKind::TkShebang => "TkShebang"@,
        LuaTokenKind::TkEof => "TkEof"@,
        LuaTokenKind::TkUnknown => "TkUnknown"@,
        LuaTokenKind::TkPlusAssign => "TkPlusAssign"@,
        LuaTokenKind::TkMinusAssign => "TkMinusAssign"@,
        LuaTokenKind::TkStarAssign => "TkStarAssign"@,
        LuaTokenKind::TkSlashAssign => "TkSlashAssign"@,
        LuaTokenKind::TkPercentAssign => "TkPercentAssign"@,
        LuaTokenKind::TkCaretAssign => "TkCaretAssign"@,
        LuaTokenKind::TkDoubleSlashAssign => "TkDoubleSlashAssign"@,
        LuaTokenKind::TkPipeAssign => "TkPipeAssign"@,
        LuaTokenKind::TkAmpAssign => "TkAmpAssign"@,
        LuaTokenKind::TkShiftLeftAssign => "TkShiftLeftAssign"@,
        LuaTokenKind::TkShiftRightAssign => "TkShiftRightAssign"@,
        LuaTokenKind::TkNormalStart => "TkNormalStart"@,
        LuaTokenKind::TkLongCommentStart => "TkLongCommentStart"@,
        LuaTokenKind::TkDocLongStart => "TkDocLongStart"@,
        LuaTokenKind::TkDocStart => "TkDocStart"@,
        LuaTokenKind::TKDocTriviaStart => "TKDocTriviaStart"@,
        LuaTokenKind::TkDocTrivia => "TkDocTrivia"@,
        LuaTokenKind::TkDocContinue => "TkDocContinue"@,
        LuaTokenKind::TkDocContinueOr => "TkDocContinueOr"@,
        LuaTokenKind::TkDocDetail => "TkDocDetail"@,
        LuaTokenKind::TkDocQuestion => "TkDocQuestion"@,
        LuaTokenKind::TkDocVisibility => "TkDocVisibility"@,
        LuaTokenKind::TkDocReadonly => "TkDocReadonly"@,
        LuaTokenKind::TkLongCommentEnd => "TkLongCommentEnd"@,
        LuaTokenKind::TKNonStdComment => "TKNonStdComment"@,
        LuaTokenKind::TkTagClass => "TkTagClass"@,
        LuaTokenKind::TkTagEnum => "TkTagEnum"@,
        LuaTokenKind::TkTagInterface => "TkTagInterface"@,
        LuaTokenKind::TkTagAlias => "TkTagAlias"@,
        LuaTokenKind::TkTagModule => "TkTagModule"@,
        LuaTokenKind::TkTagField => "TkTagField"@,
        LuaTokenKind::TkTagType => "TkTagType"@,
        LuaTokenKind::TkTagParam => "TkTagParam"@,
        LuaTokenKind::TkTagReturn => "TkTagReturn"@,
        LuaTokenKind::TkTagReturnCast => "TkTagReturnCast"@,
        LuaTokenKind::TkTagGeneric => "TkTagGeneric"@,
        LuaTokenKind::TkTagSee => "TkTagSee"@,
        LuaTokenKind::TkTagOverload => "TkTagOverload"@,
        LuaTokenKind::TkTagAsync => "TkTagAsync"@,
        LuaTokenKind::TkTagCast => "TkTagCast"@,
        LuaTokenKind::TkTagDeprecated => "TkTagDeprecated"@,
        LuaTokenKind::TkTagReadonly => "TkTagReadonly"@,
        LuaTokenKind::TkTagDiagnostic => "TkTagDiagnostic"@,
        LuaTokenKind::TkTagMeta => "TkTagMeta"@,
        LuaTokenKind::TkTagVersion => "TkTagVersion"@,
        LuaTokenKind::TkTagAs => "TkTagAs"@,
        LuaTokenKind::TkTagNodiscard => "TkTagNodiscard"@,
        LuaTokenKind::TkTagOperator => "TkTagOperator"@,
        LuaTokenKind::TkTagMapping => "TkTagMapping"@,
        LuaTokenKind::TkTagNamespace => "TkTagNamespace"@,
        LuaTokenKind::TkTagUsing => "TkTagUsing"@,
        LuaTokenKind::TkTagSource => "TkTagSource"@,
        LuaTokenKind::TkTagExport => "TkTagExport"@,
        LuaTokenKind::TkTagAttribute => "TkTagAttribute"@,
        LuaTokenKind::TkTagVisibility => "TkTagVisibility"@,
        LuaTokenKind::TkTagOther => "TkTagOther"@,
        LuaTokenKind::TkLanguage => "TkLanguage"@,
        LuaTokenKind::TkDocOr => "TkDocOr"@,
        LuaTokenKind::TkDocAnd => "TkDocAnd"@,
        LuaTokenKind::TkDocKeyOf => "TkDocKeyOf"@,
        LuaTokenKind::TkDocExtends => "TkDocExtends"@,
        LuaTokenKind::TkDocAs => "TkDocAs"@,
        LuaTokenKind::TkDocIn => "TkDocIn"@,
        LuaTokenKind::TkDocInfer => "TkDocInfer"@,
        LuaTokenKind::TkDocElse => "TkDocElse"@,
        LuaTokenKind::TkDocNew => "TkDocNew"@,
        LuaTokenKind::TkDocVersionNumber => "TkDocVersionNumber"@,
        LuaTokenKind::TkDocSeeContent => "TkDocSeeContent"@,
        LuaTokenKind::TkDocRegion => "TkDocRegion"@,
        LuaTokenKind::TkDocEndRegion => "TkDocEndRegion"@,
        LuaTokenKind::TKDocPath => "TKDocPath"@,
        LuaTokenKind::TkDocAttributeUse => "TkDocAttributeUse"@,
        LuaTokenKind::TkCallGeneric => "TkCallGeneric"@,
        LuaTokenKind::TkStringTemplateType => "TkStringTemplateType"@,
    }
}

/// The name of a token kind, as a string literal.
pub fn token_kind_str(kind: LuaTokenKind) -> (s: &'static str)
    ensures
        s@ == token_kind_name(kind),
{
    match kind {
        LuaTokenKind::NoneKind => "NoneKind",
        LuaTokenKind::TkAnd => "TkAnd",
        LuaTokenKind::TkBreak => "TkBreak",
        LuaTokenKind::TkDo => "TkDo",
        LuaTokenKind::TkElse => "TkElse",
        LuaTokenKind::TkElseIf => "TkElseIf",
        LuaTokenKind::TkEnd => "TkEnd",
        LuaTokenKind::TkFalse => "TkFalse",
        LuaTokenKind::TkFor => "TkFor",
        LuaTokenKind::TkFunction => "TkFunction",
        LuaTokenKind::TkGoto => "TkGoto",
        LuaTokenKind::TkIf => "TkIf",
        LuaTokenKind::TkIn => "TkIn",
        LuaTokenKind::TkLocal => "TkLocal",
        LuaTokenKind::TkNil => "TkNil",
        LuaTokenKind::TkNot => "TkNot",
        LuaTokenKind::TkOr => "TkOr",
        LuaTokenKind::TkRepeat => "TkRepeat",
        LuaTokenKind::TkReturn => "TkReturn",
        LuaTokenKind::TkThen => "TkThen",
        LuaTokenKind::TkTrue => "TkTrue",
        LuaTokenKind::TkUntil => "TkUntil",
        LuaTokenKind::TkWhile => "TkWhile",
        LuaTokenKind::TkGlobal => "TkGlobal",
        LuaTokenKind::TkWhitespace => "TkWhitespace",
        LuaTokenKind::TkEndOfLine => "TkEndOfLine",
        LuaTokenKind::TkPlus => "TkPlus",
        LuaTokenKind::TkMinus => "TkMinus",
        LuaTokenKind::TkMul => "TkMul",
        LuaTokenKind::TkDiv => "TkDiv",
        LuaTokenKind::TkIDiv => "TkIDiv",
        LuaTokenKind::TkDot => "TkDot",
        LuaTokenKind::TkConcat => "TkConcat",
        LuaTokenKind::TkDots => "TkDots",
        LuaTokenKind::TkComma => "TkComma",
        LuaTokenKind::TkAssign => "TkAssign",
        LuaTokenKind::TkEq => "TkEq",
        LuaTokenKind::TkGe => "TkGe",
        LuaTokenKind::TkLe => "TkLe",
        LuaTokenKind::TkNe => "TkNe",
        LuaTokenKind::TkShl => "TkShl",
        LuaTokenKind::TkShr => "TkShr",
        LuaTokenKind::TkLt => "TkLt",
        LuaTokenKind::TkGt => "TkGt",
        LuaTokenKind::TkMod => "TkMod",
        LuaTokenKind::TkPow => "TkPow",
        LuaTokenKind::TkLen => "TkLen",
        LuaTokenKind::TkBitAnd => "TkBitAnd",
        LuaTokenKind::TkBitOr => "TkBitOr",
        LuaTokenKind::TkBitXor => "TkBitXor",
        LuaTokenKind::TkColon => "TkColon",
        LuaTokenKind::TkDbColon => "TkDbColon",
        LuaTokenKind::TkSemicolon => "TkSemicolon",
        LuaTokenKind::TkLeftBracket => "TkLeftBracket",
        LuaTokenKind::TkRightBracket => "TkRightBracket",
        LuaTokenKind::TkLeftParen => "TkLeftParen",
        LuaTokenKind::TkRightParen => "TkRightParen",
        LuaTokenKind::TkLeftBrace => "TkLeftBrace",
        LuaTokenKind::TkRightBrace => "TkRightBrace",
        LuaTokenKind::TkComplex => "TkComplex",
        LuaTokenKind::TkInt => "TkInt",
        LuaTokenKind::TkFloat => "TkFloat",
        LuaTokenKind::TkName => "TkName",
        LuaTokenKind::TkString => "TkString",
        LuaTokenKind::TkLongString => "TkLongString",
        LuaTokenKind::TkShortComment => "TkShortComment",
        LuaTokenKind::TkLongComment => "TkLongComment",
        LuaTokenKind::TkShebang => "TkShebang",
        LuaTokenKind::TkEof => "TkEof",
        LuaTokenKind::TkUnknown => "TkUnknown",
        LuaTokenKind::TkPlusAssign => "TkPlusAssign",
        LuaTokenKind::TkMinusAssign => "TkMinusAssign",
        LuaTokenKind::TkStarAssign => "TkStarAssign",
        LuaTokenKind::TkSlashAssign => "TkSlashAssign",
        LuaTokenKind::TkPercentAssign => "TkPercentAssign",
        LuaTokenKind::TkCaretAssign => "TkCaretAssign",
        LuaTokenKind::TkDoubleSlashAssign => "TkDoubleSlashAssign",
        LuaTokenKind::TkPipeAssign => "TkPipeAssign",
        LuaTokenKind::TkAmpAssign => "TkAmpAssign",
        LuaTokenKind::TkShiftLeftAssign => "TkShiftLeftAssign",
        LuaTokenKind::TkShiftRightAssign => "TkShiftRightAssign",
        LuaTokenKind::TkNormalStart => "TkNormalStart",
        LuaTokenKind::TkLongCommentStart => "TkLongCommentStart",
        LuaTokenKind::TkDocLongStart => "TkDocLongStart",
        LuaTokenKind::TkDocStart => "TkDocStart",
        LuaTokenKind::TKDocTriviaStart => "TKDocTriviaStart",
        LuaTokenKind::TkDocTrivia => "TkDocTrivia",
        LuaTokenKind::TkDocContinue => "TkDocContinue",
        LuaTokenKind::TkDocContinueOr => "TkDocContinueOr",
        LuaTokenKind::TkDocDetail => "TkDocDetail",
        LuaTokenKind::TkDocQuestion => "TkDocQuestion",
        LuaTokenKind::TkDocVisibility => "TkDocVisibility",
        LuaTokenKind::TkDocReadonly => "TkDocReadonly",
        LuaTokenKind::TkLongCommentEnd => "TkLongCommentEnd",
        LuaTokenKind::TKNonStdComment => "TKNonStdComment",
        LuaTokenKind::TkTagClass => "TkTagClass",
        LuaTokenKind::TkTagEnum => "TkTagEnum",
        LuaTokenKind::TkTagInterface => "TkTagInterface",
        LuaTokenKind::TkTagAlias => "TkTagAlias",
        LuaTokenKind::TkTagModule => "TkTagModule",
        LuaTokenKind::TkTagField => "TkTagField",
        LuaTokenKind::TkTagType => "TkTagType",
        LuaTokenKind::TkTagParam => "TkTagParam",
        LuaTokenKind::TkTagReturn => "TkTagReturn",
        LuaTokenKind::TkTagReturnCast => "TkTagReturnCast",
        LuaTokenKind::TkTagGeneric => "TkTagGeneric",
        LuaTokenKind::TkTagSee => "TkTagSee",
        LuaTokenKind::TkTagOverload => "TkTagOverload",
        LuaTokenKind::TkTagAsync => "TkTagAsync",
        LuaTokenKind::TkTagCast => "TkTagCast",
        LuaTokenKind::TkTagDeprecated => "TkTagDeprecated",
        LuaTokenKind::TkTagReadonly => "TkTagReadonly",
        LuaTokenKind::TkTagDiagnostic => "TkTagDiagnostic",
        LuaTokenKind::TkTagMeta => "TkTagMeta",
        LuaTokenKind::TkTagVersion => "TkTagVersion",
        LuaTokenKind::TkTagAs => "TkTagAs",
        LuaTokenKind::TkTagNodiscard => "TkTagNodiscard",
        LuaTokenKind::TkTagOperator => "TkTagOperator",
        LuaTokenKind::TkTagMapping => "TkTagMapping",
        LuaTokenKind::TkTagNamespace => "TkTagNamespace",
        LuaTokenKind::TkTagUsing => "TkTagUsing",
        LuaTokenKind::TkTagSource => "TkTagSource",
        LuaTokenKind::TkTagExport => "TkTagExport",
        LuaTokenKind::TkTagAttribute => "TkTagAttribute",
        LuaTokenKind::TkTagVisibility => "TkTagVisibility",
        LuaTokenKind::TkTagOther => "TkTagOther",
        LuaTokenKind::TkLanguage => "TkLanguage",
        LuaTokenKind::TkDocOr => "TkDocOr",
        LuaTokenKind::TkDocAnd => "TkDocAnd",
        LuaTokenKind::TkDocKeyOf => "TkDocKeyOf",
        LuaTokenKind::TkDocExtends => "TkDocExtends",
        LuaTokenKind::TkDocAs => "TkDocAs",
        LuaTokenKind::TkDocIn => "TkDocIn",
        LuaTokenKind::TkDocInfer => "TkDocInfer",
        LuaTokenKind::TkDocElse => "TkDocElse",
        LuaTokenKind::TkDocNew => "TkDocNew",
        LuaTokenKind::TkDocVersionNumber => "TkDocVersionNumber",
        LuaTokenKind::TkDocSeeContent => "TkDocSeeContent",
        LuaTokenKind::TkDocRegion => "TkDocRegion",
        LuaTokenKind::TkDocEndRegion => "TkDocEndRegion",
        LuaTokenKind::TKDocPath => "TKDocPath",
        LuaTokenKind::TkDocAttributeUse => "TkDocAttributeUse",
        LuaTokenKind::TkCallGeneric => "TkCallGeneric",
        LuaTokenKind::TkStringTemplateType => "TkStringTemplateType",
    }
}

/// The name of a token kind as a `String`: the `Debug` text of the kind.
pub fn token_kind_debug(kind: LuaTokenKind) -> (s: String)
    ensures
        s@ == token_kind_name(kind),
{
    let mut s = String::new();
    push_str(&mut s, token_kind_str(kind));
    s
}

impl LuaParseError {
    pub fn new(kind: LuaParseErrorKind, message: &str, range: SourceRange) -> (r: Self)
        ensures
            r.kind == kind,
            r.message@ == message@,
            r.range == range,
    {
        let mut m = String::new();
        push_str(&mut m, message);
        LuaParseError { kind, message: m, range }
    }

    pub fn syntax_error_from(message: &str, range: SourceRange) -> (r: Self)
        ensures
            r.kind == LuaParseErrorKind::SyntaxError,
            r.message@ == message@,
            r.range == range,
    {
        Self::new(LuaParseErrorKind::SyntaxError, message, range)
    }

    pub fn doc_error_from(message: &str, range: SourceRange) -> (r: Self)
        ensures
            r.kind == LuaParseErrorKind::DocError,
            r.message@ == message@,
            r.range == range,
    {
        Self::new(LuaParseErrorKind::DocError, message, range)
    }

    /// An error whose message is the given `String`.
    pub fn from_message(kind: LuaParseErrorKind, message: String, range: SourceRange) -> (r: Self)
        ensures
            r.kind == kind,
            r.message == message,
            r.range == range,
    {
        LuaParseError { kind, message, range }
    }
}

/// The message "expected <token>, but get <current>".
pub fn expected_token_message(token: LuaTokenKind, current: LuaTokenKind) -> (s: String)
    ensures
        s@ == "expected "@ + token_kind_name(token) + ", but get "@ + token_kind_name(current),
{
    let mut s = String::new();
    push_str(&mut s, "expected ");
    let t = token_kind_debug(token);
    push_str(&mut s, t.as_str());
    push_str(&mut s, ", but get ");
    let c = token_kind_debug(current);
    push_str(&mut s, c.as_str());
    s
}

} // verus!
