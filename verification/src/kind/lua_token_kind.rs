use vstd::prelude::*;

verus! {

/// The kinds of tokens produced by the Lua lexer and the doc-comment lexer.
#[derive(Debug, Clone, Copy, PartialEq, Eq, Hash, Structural)]
pub enum LuaTokenKind {
    NoneKind,
    // keywords
    TkAnd,
    TkBreak,
    TkDo,
    TkElse,
    TkElseIf,
    TkEnd,
    TkFalse,
    TkFor,
    TkFunction,
    TkGoto,
    TkIf,
    TkIn,
    TkLocal,
    TkNil,
    TkNot,
    TkOr,
    TkRepeat,
    TkReturn,
    TkThen,
    TkTrue,
    TkUntil,
    TkWhile,
    TkGlobal,
    // trivia
    TkWhitespace,
    TkEndOfLine,
    // operators and punctuation
    TkPlus,
    TkMinus,
    TkMul,
    TkDiv,
    TkIDiv,
    TkDot,
    TkConcat,
    TkDots,
    TkComma,
    TkAssign,
    TkEq,
    TkGe,
    TkLe,
    TkNe,
    TkShl,
    TkShr,
    TkLt,
    TkGt,
    TkMod,
    TkPow,
    TkLen,
    TkBitAnd,
    TkBitOr,
    TkBitXor,
    TkColon,
    TkDbColon,
    TkSemicolon,
    TkLeftBracket,
    TkRightBracket,
    TkLeftParen,
    TkRightParen,
    TkLeftBrace,
    TkRightBrace,
    // literals, names, comments
    TkComplex,
    TkInt,
    TkFloat,
    TkName,
    TkString,
    TkLongString,
    TkShortComment,
    TkLongComment,
    TkShebang,
    TkEof,
    TkUnknown,
    // non-standard compound assignment
    TkPlusAssign,
    TkMinusAssign,
    TkStarAssign,
    TkSlashAssign,
    TkPercentAssign,
    TkCaretAssign,
    TkDoubleSlashAssign,
    TkPipeAssign,
    TkAmpAssign,
    TkShiftLeftAssign,
    TkShiftRightAssign,
    // doc comments
    TkNormalStart,
    TkLongCommentStart,
    TkDocLongStart,
    TkDocStart,
    TKDocTriviaStart,
    TkDocTrivia,
    TkDocContinue,
    TkDocContinueOr,
    TkDocDetail,
    TkDocQuestion,
    TkDocVisibility,
    TkDocReadonly,
    TkLongCommentEnd,
    TKNonStdComment,
    TkTagClass,
    TkTagEnum,
    TkTagInterface,
    TkTagAlias,
    TkTagModule,
    TkTagField,
    TkTagType,
    TkTagParam,
    TkTagReturn,
    TkTagReturnCast,
    TkTagGeneric,
    TkTagSee,
    TkTagOverload,
    TkTagAsync,
    TkTagCast,
    TkTagDeprecated,
    TkTagReadonly,
    TkTagDiagnostic,
    TkTagMeta,
    TkTagVersion,
    TkTagAs,
    TkTagNodiscard,
    TkTagOperator,
    TkTagMapping,
    TkTagNamespace,
    TkTagUsing,
    TkTagSource,
    TkTagExport,
    TkTagAttribute,
    TkTagVisibility,
    TkTagOther,
    TkLanguage,
    TkDocOr,
    TkDocAnd,
    TkDocKeyOf,
    TkDocExtends,
    TkDocAs,
    TkDocIn,
    TkDocInfer,
    TkDocElse,
    TkDocNew,
    TkDocVersionNumber,
    TkDocSeeContent,
    TkDocRegion,
    TkDocEndRegion,
    TKDocPath,
    TkDocAttributeUse,
    TkCallGeneric,
    TkStringTemplateType,
}

/// Whether `kind` assigns: `=` or one of the compound assignments.
pub open spec fn spec_is_assign_op(kind: LuaTokenKind) -> bool {
    match kind {
        LuaTokenKind::TkAssign | LuaTokenKind::TkPlusAssign | LuaTokenKind::TkMinusAssign
        | LuaTokenKind::TkStarAssign | LuaTokenKind::TkSlashAssign | LuaTokenKind::TkPercentAssign
        | LuaTokenKind::TkCaretAssign | LuaTokenKind::TkDoubleSlashAssign | LuaTokenKind::TkPipeAssign
        | LuaTokenKind::TkAmpAssign | LuaTokenKind::TkShiftLeftAssign
        | LuaTokenKind::TkShiftRightAssign => true,
        _ => false,
    }
}

impl LuaTokenKind {
    pub fn is_assign_op(&self) -> (b: bool)
        ensures
            b == spec_is_assign_op(*self),
    {
        match self {
            LuaTokenKind::TkAssign | LuaTokenKind::TkPlusAssign | LuaTokenKind::TkMinusAssign
            | LuaTokenKind::TkStarAssign | LuaTokenKind::TkSlashAssign | LuaTokenKind::TkPercentAssign
            | LuaTokenKind::TkCaretAssign | LuaTokenKind::TkDoubleSlashAssign | LuaTokenKind::TkPipeAssign
            | LuaTokenKind::TkAmpAssign | LuaTokenKind::TkShiftLeftAssign
            | LuaTokenKind::TkShiftRightAssign => true,
            _ => false,
        }
    }
}

} // verus!
