use vstd::prelude::*;

use super::lex_spec::ascii_alpha;
use super::lex_spec::ascii_digit;
use super::lex_spec::char_at;
use super::lex_spec::consume_upto;
use super::lex_spec::doc_whitespace;
use super::lex_spec::not_char;
use super::lex_spec::spec_is_doc_whitespace;
use super::lex_spec::step;
use super::unicode::is_name_continue;
use super::unicode::is_name_start;
use super::unicode::spec_is_name_continue;
use super::unicode::spec_is_name_start;
use crate::kind::lua_token_kind::LuaTokenKind;
use crate::text::char_width::byte_len;
use crate::text::reader::any_char;
use crate::text::reader::eq_char;
use crate::text::reader::run_end;
use crate::text::reader::lemma_run_end;
use crate::text::reader::Reader;
use crate::text::reader::EOF;
use crate::text::text_range::SourceRange;

verus! {

/// What the doc lexer is reading.
#[derive(Debug, Clone, Copy, PartialEq, Eq, Structural)]
pub enum LuaDocLexerState {
    Init,
    Tag,
    Normal,
    FieldStart,
    Description,
    LongDescription,
    Trivia,
    See,
    Version,
    Source,
    NormalDescription,
    CastExpr,
    AttributeUse,
    Mapped,
    Extends,
}

// ---------------------------------------------------------------------------
// The token rules, as functions of the text `s` of the comment token being
// read and the index `i` where the token starts.  Each gives the kind of the
// token and the index just past it.
// ---------------------------------------------------------------------------

/// After `--[` (or `--[==[`) in a long comment: `[`, the `=`s and a `[`, then
/// an optional `@`.
pub open spec fn spec_long_start(s: Seq<char>, j: int) -> (LuaTokenKind, int) {
    let j1 = step(s, j);
    let j2 = run_end(s, j1, eq_char('='));
    let j3 = step(s, j2);
    if char_at(s, j3) == '@' {
        (LuaTokenKind::TkDocLongStart, step(s, j3))
    } else {
        (LuaTokenKind::TkLongCommentStart, j3)
    }
}

/// A `-` at the start of a comment token; `bar_continues` says whether `---|`
/// continues an enumeration of values.
pub open spec fn spec_dash_start(
    s: Seq<char>,
    i: int,
    origin: LuaTokenKind,
    bar_continues: bool,
) -> (LuaTokenKind, int) {
    let j = consume_upto(s, i, '-', 3);
    if j - i == 2 {
        if origin == LuaTokenKind::TkLongComment {
            spec_long_start(s, j)
        } else {
            (LuaTokenKind::TkNormalStart, j)
        }
    } else if j - i == 3 {
        let j1 = run_end(s, j, doc_whitespace());
        if char_at(s, j1) == '@' {
            (LuaTokenKind::TkDocStart, step(s, j1))
        } else if bar_continues && char_at(s, j1) == '|' {
            (LuaTokenKind::TkDocContinueOr, spec_after_bar(s, step(s, j1)))
        } else {
            (LuaTokenKind::TkNormalStart, j1)
        }
    } else {
        (LuaTokenKind::TKDocTriviaStart, run_end(s, j, any_char()))
    }
}

/// After `|`: an optional `+` or `>`.
pub open spec fn spec_after_bar(s: Seq<char>, j: int) -> int {
    if char_at(s, j) == '+' || char_at(s, j) == '>' {
        step(s, j)
    } else {
        j
    }
}

/// A `/` at the start of a comment token.
pub open spec fn spec_slash_start(s: Seq<char>, i: int) -> (LuaTokenKind, int) {
    let j = consume_upto(s, i, '/', 3);
    if j - i >= 2 {
        (LuaTokenKind::TkNormalStart, j)
    } else {
        (LuaTokenKind::TKNonStdComment, j)
    }
}

pub open spec fn spec_lex_init(s: Seq<char>, i: int, origin: LuaTokenKind) -> (LuaTokenKind, int) {
    let c = char_at(s, i);
    if c == '-' && i == 0 {
        spec_dash_start(s, i, origin, false)
    } else if c == '/' && i == 0 {
        spec_slash_start(s, i)
    } else {
        (LuaTokenKind::TkDocTrivia, run_end(s, i, any_char()))
    }
}

/// A doc name read from `j`, one char past its first char: name chars, `` ` ``,
/// and single `.`, `-` or `*` not followed by another of those three.
pub open spec fn doc_name_end(s: Seq<char>, j: int) -> int
    decreases s.len() - j,
{
    if j < 0 || j >= s.len() || s[j] == EOF {
        j
    } else if spec_is_name_continue(s[j]) || s[j] == '`' {
        doc_name_end(s, j + 1)
    } else if s[j] == '.' || s[j] == '-' || s[j] == '*' {
        let n = char_at(s, j + 1);
        if n == '.' || n == '-' || n == '*' {
            j
        } else {
            doc_name_end(s, j + 1)
        }
    } else {
        j
    }
}

/// Whether the doc name read from `j` holds a `` ` `` (a string template type).
pub open spec fn doc_name_template(s: Seq<char>, j: int) -> bool
    decreases s.len() - j,
{
    if j < 0 || j >= s.len() || s[j] == EOF {
        false
    } else if spec_is_name_continue(s[j]) {
        doc_name_template(s, j + 1)
    } else if s[j] == '`' {
        true
    } else if s[j] == '.' || s[j] == '-' || s[j] == '*' {
        let n = char_at(s, j + 1);
        if n == '.' || n == '-' || n == '*' {
            false
        } else {
            doc_name_template(s, j + 1)
        }
    } else {
        false
    }
}

pub open spec fn spec_to_tag(t: Seq<char>) -> LuaTokenKind {
    if t == "class"@ {
        LuaTokenKind::TkTagClass
    } else if t == "enum"@ {
        LuaTokenKind::TkTagEnum
    } else if t == "interface"@ {
        LuaTokenKind::TkTagInterface
    } else if t == "alias"@ {
        LuaTokenKind::TkTagAlias
    } else if t == "module"@ {
        LuaTokenKind::TkTagModule
    } else if t == "field"@ {
        LuaTokenKind::TkTagField
    } else if t == "type"@ {
        LuaTokenKind::TkTagType
    } else if t == "param"@ {
        LuaTokenKind::TkTagParam
    } else if t == "return"@ {
        LuaTokenKind::TkTagReturn
    } else if t == "return_cast"@ {
        LuaTokenKind::TkTagReturnCast
    } else if t == "generic"@ {
        LuaTokenKind::TkTagGeneric
    } else if t == "see"@ {
        LuaTokenKind::TkTagSee
    } else if t == "overload"@ {
        LuaTokenKind::TkTagOverload
    } else if t == "async"@ {
        LuaTokenKind::TkTagAsync
    } else if t == "cast"@ {
        LuaTokenKind::TkTagCast
    } else if t == "deprecated"@ {
        LuaTokenKind::TkTagDeprecated
    } else if t == "private"@ || t == "protected"@ || t == "public"@ || t == "package"@ || t
        == "internal"@ {
        LuaTokenKind::TkTagVisibility
    } else if t == "readonly"@ {
        LuaTokenKind::TkTagReadonly
    } else if t == "diagnostic"@ {
        LuaTokenKind::TkTagDiagnostic
    } else if t == "meta"@ {
        LuaTokenKind::TkTagMeta
    } else if t == "version"@ {
        LuaTokenKind::TkTagVersion
    } else if t == "as"@ {
        LuaTokenKind::TkTagAs
    } else if t == "nodiscard"@ {
        LuaTokenKind::TkTagNodiscard
    } else if t == "operator"@ {
        LuaTokenKind::TkTagOperator
    } else if t == "mapping"@ {
        LuaTokenKind::TkTagMapping
    } else if t == "namespace"@ {
        LuaTokenKind::TkTagNamespace
    } else if t == "using"@ {
        LuaTokenKind::TkTagUsing
    } else if t == "source"@ {
        LuaTokenKind::TkTagSource
    } else if t == "export"@ {
        LuaTokenKind::TkTagExport
    } else if t == "language"@ {
        LuaTokenKind::TkLanguage
    } else if t == "attribute"@ {
        LuaTokenKind::TkTagAttribute
    } else {
        LuaTokenKind::TkTagOther
    }
}

/// The tag names of EmmyLua annotations (`---@<name>`).
pub open spec fn is_known_tag_name(t: Seq<char>) -> bool {
    t == "class"@ || t == "enum"@ || t == "interface"@ || t == "alias"@ || t == "module"@ || t == "field"@ || t == "type"@ || t == "param"@ || t == "return"@ || t == "return_cast"@ || t == "generic"@ || t == "see"@ || t == "overload"@ || t == "async"@ || t == "cast"@ || t == "deprecated"@ || t == "private"@ || t == "protected"@ || t == "public"@ || t == "package"@ || t == "internal"@ || t == "readonly"@ || t == "diagnostic"@ || t == "meta"@ || t == "version"@ || t == "as"@ || t == "nodiscard"@ || t == "operator"@ || t == "mapping"@ || t == "namespace"@ || t == "using"@ || t == "source"@ || t == "export"@ || t == "language"@ || t == "attribute"@
}

/// Each known tag name reads as its own tag token: the kinds of the
/// annotations (`class`, `generic`, ...), one visibility token for
/// `private`, `protected`, `public`, `package` and `internal`; any other
/// name reads as the token of an unknown tag.
pub proof fn lemma_tag_names(t: Seq<char>)
    ensures
        (spec_to_tag(t) == LuaTokenKind::TkTagOther) <==> !is_known_tag_name(t),
        t == "class"@ ==> spec_to_tag(t) == LuaTokenKind::TkTagClass,
        t == "enum"@ ==> spec_to_tag(t) == LuaTokenKind::TkTagEnum,
        t == "interface"@ ==> spec_to_tag(t) == LuaTokenKind::TkTagInterface,
        t == "alias"@ ==> spec_to_tag(t) == LuaTokenKind::TkTagAlias,
        t == "module"@ ==> spec_to_tag(t) == LuaTokenKind::TkTagModule,
        t == "field"@ ==> spec_to_tag(t) == LuaTokenKind::TkTagField,
        t == "type"@ ==> spec_to_tag(t) == LuaTokenKind::TkTagType,
        t == "param"@ ==> spec_to_tag(t) == LuaTokenKind::TkTagParam,
        t == "return"@ ==> spec_to_tag(t) == LuaTokenKind::TkTagReturn,
        t == "return_cast"@ ==> spec_to_tag(t) == LuaTokenKind::TkTagReturnCast,
        t == "generic"@ ==> spec_to_tag(t) == LuaTokenKind::TkTagGeneric,
        t == "see"@ ==> spec_to_tag(t) == LuaTokenKind::TkTagSee,
        t == "overload"@ ==> spec_to_tag(t) == LuaTokenKind::TkTagOverload,
        t == "async"@ ==> spec_to_tag(t) == LuaTokenKind::TkTagAsync,
        t == "cast"@ ==> spec_to_tag(t) == LuaTokenKind::TkTagCast,
        t == "deprecated"@ ==> spec_to_tag(t) == LuaTokenKind::TkTagDeprecated,
        t == "private"@ ==> spec_to_tag(t) == LuaTokenKind::TkTagVisibility,
        t == "protected"@ ==> spec_to_tag(t) == LuaTokenKind::TkTagVisibility,
        t == "public"@ ==> spec_to_tag(t) == LuaTokenKind::TkTagVisibility,
        t == "package"@ ==> spec_to_tag(t) == LuaTokenKind::TkTagVisibility,
        t == "internal"@ ==> spec_to_tag(t) == LuaTokenKind::TkTagVisibility,
        t == "readonly"@ ==> spec_to_tag(t) == LuaTokenKind::TkTagReadonly,
        t == "diagnostic"@ ==> spec_to_tag(t) == LuaTokenKind::TkTagDiagnostic,
        t == "meta"@ ==> spec_to_tag(t) == LuaTokenKind::TkTagMeta,
        t == "version"@ ==> spec_to_tag(t) == LuaTokenKind::TkTagVersion,
        t == "as"@ ==> spec_to_tag(t) == LuaTokenKind::TkTagAs,
        t == "nodiscard"@ ==> spec_to_tag(t) == LuaTokenKind::TkTagNodiscard,
        t == "operator"@ ==> spec_to_tag(t) == LuaTokenKind::TkTagOperator,
        t == "mapping"@ ==> spec_to_tag(t) == LuaTokenKind::TkTagMapping,
        t == "namespace"@ ==> spec_to_tag(t) == LuaTokenKind::TkTagNamespace,
        t == "using"@ ==> spec_to_tag(t) == LuaTokenKind::TkTagUsing,
        t == "source"@ ==> spec_to_tag(t) == LuaTokenKind::TkTagSource,
        t == "export"@ ==> spec_to_tag(t) == LuaTokenKind::TkTagExport,
        t == "language"@ ==> spec_to_tag(t) == LuaTokenKind::TkLanguage,
        t == "attribute"@ ==> spec_to_tag(t) == LuaTokenKind::TkTagAttribute,
{
    reveal_strlit("class");
    reveal_strlit("enum");
    reveal_strlit("interface");
    reveal_strlit("alias");
    reveal_strlit("module");
    reveal_strlit("field");
    reveal_strlit("type");
    reveal_strlit("param");
    reveal_strlit("return");
    reveal_strlit("return_cast");
    reveal_strlit("generic");
    reveal_strlit("see");
    reveal_strlit("overload");
    reveal_strlit("async");
    reveal_strlit("cast");
    reveal_strlit("deprecated");
    reveal_strlit("private");
    reveal_strlit("protected");
    reveal_strlit("public");
    reveal_strlit("package");
    reveal_strlit("internal");
    reveal_strlit("readonly");
    reveal_strlit("diagnostic");
    reveal_strlit("meta");
    reveal_strlit("version");
    reveal_strlit("as");
    reveal_strlit("nodiscard");
    reveal_strlit("operator");
    reveal_strlit("mapping");
    reveal_strlit("namespace");
    reveal_strlit("using");
    reveal_strlit("source");
    reveal_strlit("export");
    reveal_strlit("language");
    reveal_strlit("attribute");
    assert("class"@.len() == 5);
    assert("enum"@.len() == 4);
    assert("interface"@.len() == 9);
    assert("alias"@.len() == 5);
    assert("module"@.len() == 6);
    assert("field"@.len() == 5);
    assert("type"@.len() == 4);
    assert("param"@.len() == 5);
    assert("return"@.len() == 6);
    assert("return_cast"@.len() == 11);
    assert("generic"@.len() == 7);
    assert("see"@.len() == 3);
    assert("overload"@.len() == 8);
    assert("async"@.len() == 5);
    assert("cast"@.len() == 4);
    assert("deprecated"@.len() == 10);
    assert("private"@.len() == 7);
    assert("protected"@.len() == 9);
    assert("public"@.len() == 6);
    assert("package"@.len() == 7);
    assert("internal"@.len() == 8);
    assert("readonly"@.len() == 8);
    assert("diagnostic"@.len() == 10);
    assert("meta"@.len() == 4);
    assert("version"@.len() == 7);
    assert("as"@.len() == 2);
    assert("nodiscard"@.len() == 9);
    assert("operator"@.len() == 8);
    assert("mapping"@.len() == 7);
    assert("namespace"@.len() == 9);
    assert("using"@.len() == 5);
    assert("source"@.len() == 6);
    assert("export"@.len() == 6);
    assert("language"@.len() == 8);
    assert("attribute"@.len() == 9);
    assert("class"@[0] != "alias"@[0]);
    assert("class"@[0] != "field"@[0]);
    assert("class"@[0] != "param"@[0]);
    assert("class"@[0] != "async"@[0]);
    assert("class"@[0] != "using"@[0]);
    assert("enum"@[0] != "type"@[0]);
    assert("enum"@[0] != "cast"@[0]);
    assert("enum"@[0] != "meta"@[0]);
    assert("interface"@[0] != "protected"@[0]);
    assert("interface"@[0] != "nodiscard"@[0]);
    assert("interface"@[0] != "namespace"@[0]);
    assert("interface"@[0] != "attribute"@[0]);
    assert("alias"@[0] != "field"@[0]);
    assert("alias"@[0] != "param"@[0]);
    assert("alias"@[1] != "async"@[1]);
    assert("alias"@[0] != "using"@[0]);
    assert("module"@[0] != "return"@[0]);
    assert("module"@[0] != "public"@[0]);
    assert("module"@[0] != "source"@[0]);
    assert("module"@[0] != "export"@[0]);
    assert("field"@[0] != "param"@[0]);
    assert("field"@[0] != "async"@[0]);
    assert("field"@[0] != "using"@[0]);
    assert("type"@[0] != "cast"@[0]);
    assert("type"@[0] != "meta"@[0]);
    assert("param"@[0] != "async"@[0]);
    assert("param"@[0] != "using"@[0]);
    assert("return"@[0] != "public"@[0]);
    assert("return"@[0] != "source"@[0]);
    assert("return"@[0] != "export"@[0]);
    assert("generic"@[0] != "private"@[0]);
    assert("generic"@[0] != "package"@[0]);
    assert("generic"@[0] != "version"@[0]);
    assert("generic"@[0] != "mapping"@[0]);
    assert("overload"@[0] != "internal"@[0]);
    assert("overload"@[0] != "readonly"@[0]);
    assert("overload"@[1] != "operator"@[1]);
    assert("overload"@[0] != "language"@[0]);
    assert("async"@[0] != "using"@[0]);
    assert("cast"@[0] != "meta"@[0]);
    assert("deprecated"@[1] != "diagnostic"@[1]);
    assert("private"@[1] != "package"@[1]);
    assert("private"@[0] != "version"@[0]);
    assert("private"@[0] != "mapping"@[0]);
    assert("protected"@[0] != "nodiscard"@[0]);
    assert("protected"@[0] != "namespace"@[0]);
    assert("protected"@[0] != "attribute"@[0]);
    assert("public"@[0] != "source"@[0]);
    assert("public"@[0] != "export"@[0]);
    assert("package"@[0] != "version"@[0]);
    assert("package"@[0] != "mapping"@[0]);
    assert("internal"@[0] != "readonly"@[0]);
    assert("internal"@[0] != "operator"@[0]);
    assert("internal"@[0] != "language"@[0]);
    assert("readonly"@[0] != "operator"@[0]);
    assert("readonly"@[0] != "language"@[0]);
    assert("version"@[0] != "mapping"@[0]);
    assert("nodiscard"@[1] != "namespace"@[1]);
    assert("nodiscard"@[0] != "attribute"@[0]);
    assert("operator"@[0] != "language"@[0]);
    assert("namespace"@[0] != "attribute"@[0]);
    assert("source"@[0] != "export"@[0]);
}

pub open spec fn spec_to_modification_or_name(t: Seq<char>) -> LuaTokenKind {
    if t == "private"@ || t == "protected"@ || t == "public"@ || t == "package"@ {
        LuaTokenKind::TkDocVisibility
    } else if t == "readonly"@ {
        LuaTokenKind::TkDocReadonly
    } else {
        LuaTokenKind::TkName
    }
}

pub open spec fn spec_to_token_or_name(t: Seq<char>) -> LuaTokenKind {
    if t == "true"@ {
        LuaTokenKind::TkTrue
    } else if t == "false"@ {
        LuaTokenKind::TkFalse
    } else if t == "keyof"@ {
        LuaTokenKind::TkDocKeyOf
    } else if t == "extends"@ {
        LuaTokenKind::TkDocExtends
    } else if t == "as"@ {
        LuaTokenKind::TkDocAs
    } else if t == "in"@ {
        LuaTokenKind::TkIn
    } else if t == "and"@ {
        LuaTokenKind::TkAnd
    } else if t == "or"@ {
        LuaTokenKind::TkOr
    } else if t == "else"@ {
        LuaTokenKind::TkDocElse
    } else {
        LuaTokenKind::TkName
    }
}

/// The words of doc types read as their own tokens (`true`, `false`,
/// `keyof`, `extends`, `as`, `in`, `and`, `or`, `else`), and the field
/// modifiers as modifier tokens (the visibilities and `readonly`); any other
/// word reads as a name.
pub proof fn lemma_doc_words(t: Seq<char>)
    ensures
        t == "true"@ ==> spec_to_token_or_name(t) == LuaTokenKind::TkTrue,
        t == "false"@ ==> spec_to_token_or_name(t) == LuaTokenKind::TkFalse,
        t == "keyof"@ ==> spec_to_token_or_name(t) == LuaTokenKind::TkDocKeyOf,
        t == "extends"@ ==> spec_to_token_or_name(t) == LuaTokenKind::TkDocExtends,
        t == "as"@ ==> spec_to_token_or_name(t) == LuaTokenKind::TkDocAs,
        t == "in"@ ==> spec_to_token_or_name(t) == LuaTokenKind::TkIn,
        t == "and"@ ==> spec_to_token_or_name(t) == LuaTokenKind::TkAnd,
        t == "or"@ ==> spec_to_token_or_name(t) == LuaTokenKind::TkOr,
        t == "else"@ ==> spec_to_token_or_name(t) == LuaTokenKind::TkDocElse,
        !(t == "true"@ || t == "false"@ || t == "keyof"@ || t == "extends"@ || t == "as"@ || t == "in"@ || t == "and"@ || t == "or"@ || t == "else"@) ==> spec_to_token_or_name(t) == LuaTokenKind::TkName,
        t == "private"@ ==> spec_to_modification_or_name(t) == LuaTokenKind::TkDocVisibility,
        t == "protected"@ ==> spec_to_modification_or_name(t) == LuaTokenKind::TkDocVisibility,
        t == "public"@ ==> spec_to_modification_or_name(t) == LuaTokenKind::TkDocVisibility,
        t == "package"@ ==> spec_to_modification_or_name(t) == LuaTokenKind::TkDocVisibility,
        t == "readonly"@ ==> spec_to_modification_or_name(t) == LuaTokenKind::TkDocReadonly,
        !(t == "private"@ || t == "protected"@ || t == "public"@ || t == "package"@ || t == "readonly"@) ==> spec_to_modification_or_name(t) == LuaTokenKind::TkName,
{
    reveal_strlit("true");
    reveal_strlit("false");
    reveal_strlit("keyof");
    reveal_strlit("extends");
    reveal_strlit("as");
    reveal_strlit("in");
    reveal_strlit("and");
    reveal_strlit("or");
    reveal_strlit("else");
    reveal_strlit("private");
    reveal_strlit("protected");
    reveal_strlit("public");
    reveal_strlit("package");
    reveal_strlit("readonly");
    assert("true"@.len() == 4);
    assert("false"@.len() == 5);
    assert("keyof"@.len() == 5);
    assert("extends"@.len() == 7);
    assert("as"@.len() == 2);
    assert("in"@.len() == 2);
    assert("and"@.len() == 3);
    assert("or"@.len() == 2);
    assert("else"@.len() == 4);
    assert("private"@.len() == 7);
    assert("protected"@.len() == 9);
    assert("public"@.len() == 6);
    assert("package"@.len() == 7);
    assert("readonly"@.len() == 8);
    assert("true"@[0] != "else"@[0]);
    assert("false"@[0] != "keyof"@[0]);
    assert("extends"@[0] != "private"@[0]);
    assert("extends"@[0] != "package"@[0]);
    assert("as"@[0] != "in"@[0]);
    assert("as"@[0] != "or"@[0]);
    assert("in"@[0] != "or"@[0]);
    assert("private"@[1] != "package"@[1]);
}

pub open spec fn spec_lex_tag(s: Seq<char>, i: int) -> (LuaTokenKind, int) {
    let c = char_at(s, i);
    if spec_is_doc_whitespace(c) {
        (LuaTokenKind::TkWhitespace, run_end(s, i, doc_whitespace()))
    } else if spec_is_name_start(c) {
        let j = run_end(s, i + 1, |c: char| spec_is_name_continue(c));
        (spec_to_tag(s.subrange(i, j)), j)
    } else if c == '[' {
        (LuaTokenKind::TkDocAttributeUse, i + 1)
    } else if c == '<' {
        (LuaTokenKind::TkCallGeneric, i + 1)
    } else {
        (LuaTokenKind::TkDocTrivia, run_end(s, i, any_char()))
    }
}

/// A quoted string that starts at `i` with the quote `q`.
pub open spec fn spec_quoted(s: Seq<char>, i: int, q: char) -> int {
    let j = run_end(s, i + 1, not_char(q));
    if char_at(s, j) == q {
        j + 1
    } else {
        j
    }
}

/// A `-` inside a doc tag.
pub open spec fn spec_normal_dash(s: Seq<char>, i: int) -> (LuaTokenKind, int) {
    let j = run_end(s, i, eq_char('-'));
    if j - i == 1 {
        (LuaTokenKind::TkMinus, j)
    } else if j - i == 3 {
        let j1 = run_end(s, j, doc_whitespace());
        if char_at(s, j1) == '@' {
            (LuaTokenKind::TkDocStart, step(s, j1))
        } else if char_at(s, j1) == '|' {
            (LuaTokenKind::TkDocContinueOr, spec_after_bar(s, step(s, j1)))
        } else {
            (LuaTokenKind::TkDocContinue, j1)
        }
    } else {
        (LuaTokenKind::TkDocTrivia, j)
    }
}

/// A `]`; in a long comment, `]]` or `]=...=]` closes the comment.
pub open spec fn spec_normal_right_bracket(s: Seq<char>, i: int, origin: LuaTokenKind) -> (
    LuaTokenKind,
    int,
) {
    let j = i + 1;
    if origin == LuaTokenKind::TkLongComment && char_at(s, j) == '=' {
        (LuaTokenKind::TkLongCommentEnd, step(s, run_end(s, j, eq_char('='))))
    } else if origin == LuaTokenKind::TkLongComment && char_at(s, j) == ']' {
        (LuaTokenKind::TkLongCommentEnd, j + 1)
    } else {
        (LuaTokenKind::TkRightBracket, j)
    }
}

/// A single-char token, if `c` is one.
pub open spec fn spec_punct(c: char) -> Option<LuaTokenKind> {
    if c == ':' {
        Some(LuaTokenKind::TkColon)
    } else if c == ',' {
        Some(LuaTokenKind::TkComma)
    } else if c == ';' {
        Some(LuaTokenKind::TkSemicolon)
    } else if c == '(' {
        Some(LuaTokenKind::TkLeftParen)
    } else if c == ')' {
        Some(LuaTokenKind::TkRightParen)
    } else if c == '[' {
        Some(LuaTokenKind::TkLeftBracket)
    } else if c == '{' {
        Some(LuaTokenKind::TkLeftBrace)
    } else if c == '}' {
        Some(LuaTokenKind::TkRightBrace)
    } else if c == '<' {
        Some(LuaTokenKind::TkLt)
    } else if c == '>' {
        Some(LuaTokenKind::TkGt)
    } else if c == '|' {
        Some(LuaTokenKind::TkDocOr)
    } else if c == '&' {
        Some(LuaTokenKind::TkDocAnd)
    } else if c == '?' {
        Some(LuaTokenKind::TkDocQuestion)
    } else if c == '+' {
        Some(LuaTokenKind::TkPlus)
    } else {
        None
    }
}

pub open spec fn spec_lex_normal(s: Seq<char>, i: int, origin: LuaTokenKind) -> (LuaTokenKind, int) {
    let c = char_at(s, i);
    if spec_is_doc_whitespace(c) {
        (LuaTokenKind::TkWhitespace, run_end(s, i, doc_whitespace()))
    } else if c == '.' {
        if char_at(s, i + 1) == '.' && char_at(s, i + 2) == '.' {
            (LuaTokenKind::TkDots, i + 3)
        } else {
            (LuaTokenKind::TkDot, i + 1)
        }
    } else if c == ']' {
        spec_normal_right_bracket(s, i, origin)
    } else if spec_punct(c) is Some {
        (spec_punct(c).unwrap(), i + 1)
    } else if c == '-' {
        spec_normal_dash(s, i)
    } else if c == '#' {
        (LuaTokenKind::TkDocDetail, run_end(s, i, any_char()))
    } else if c == '@' {
        if char_at(s, i + 1) == '[' {
            (LuaTokenKind::TkDocAttributeUse, i + 2)
        } else {
            (LuaTokenKind::TkDocDetail, run_end(s, i + 1, any_char()))
        }
    } else if '0' <= c <= '9' {
        (LuaTokenKind::TkInt, run_end(s, i, ascii_digit()))
    } else if c == '"' || c == '\'' {
        (LuaTokenKind::TkString, spec_quoted(s, i, c))
    } else if spec_is_name_start(c) || c == '`' {
        let j = doc_name_end(s, i + 1);
        if doc_name_template(s, i + 1) {
            (LuaTokenKind::TkStringTemplateType, j)
        } else {
            (spec_to_token_or_name(s.subrange(i, j)), j)
        }
    } else {
        (LuaTokenKind::TkDocTrivia, run_end(s, i, any_char()))
    }
}

pub open spec fn spec_lex_field_start(s: Seq<char>, i: int, origin: LuaTokenKind) -> (
    LuaTokenKind,
    int,
) {
    let c = char_at(s, i);
    if spec_is_name_start(c) {
        let j = doc_name_end(s, i + 1);
        (spec_to_modification_or_name(s.subrange(i, j)), j)
    } else {
        spec_lex_normal(s, i, origin)
    }
}

pub open spec fn spec_lex_description(s: Seq<char>, i: int, origin: LuaTokenKind) -> (
    LuaTokenKind,
    int,
) {
    let c = char_at(s, i);
    if spec_is_doc_whitespace(c) {
        (LuaTokenKind::TkWhitespace, run_end(s, i, doc_whitespace()))
    } else if c == '-' && i == 0 {
        spec_dash_start(s, i, origin, true)
    } else {
        (LuaTokenKind::TkDocDetail, run_end(s, i, any_char()))
    }
}

/// How many `]` and `=` chars end `s`.
pub open spec fn trailing_close_len(s: Seq<char>) -> int
    decreases s.len(),
{
    if s.len() > 0 && (s.last() == ']' || s.last() == '=') {
        trailing_close_len(s.drop_last()) + 1
    } else {
        0
    }
}

pub open spec fn spec_lex_long_description(s: Seq<char>, i: int) -> (LuaTokenKind, int) {
    let e = s.len() - trailing_close_len(s);
    if i < e {
        let j = run_end(s, i, any_char());
        (LuaTokenKind::TkDocDetail, if j < e {
            j
        } else {
            e
        })
    } else {
        (LuaTokenKind::TkDocTrivia, run_end(s, i, any_char()))
    }
}

pub open spec fn spec_lex_see(s: Seq<char>, i: int) -> (LuaTokenKind, int) {
    let c = char_at(s, i);
    if c == ' ' || c == '\t' {
        (LuaTokenKind::TkWhitespace, run_end(s, i, doc_whitespace()))
    } else {
        (LuaTokenKind::TkDocSeeContent, run_end(s, i, any_char()))
    }
}

pub open spec fn spec_lex_version(s: Seq<char>, i: int, origin: LuaTokenKind) -> (LuaTokenKind, int) {
    let c = char_at(s, i);
    if c == ',' {
        (LuaTokenKind::TkComma, i + 1)
    } else if c == '>' {
        if char_at(s, i + 1) == '=' {
            (LuaTokenKind::TkGe, i + 2)
        } else {
            (LuaTokenKind::TkGt, i + 1)
        }
    } else if c == '<' {
        if char_at(s, i + 1) == '=' {
            (LuaTokenKind::TkLe, i + 2)
        } else {
            (LuaTokenKind::TkLt, i + 1)
        }
    } else if spec_is_doc_whitespace(c) {
        (LuaTokenKind::TkWhitespace, run_end(s, i, doc_whitespace()))
    } else if '0' <= c <= '9' {
        (LuaTokenKind::TkDocVersionNumber, run_end(s, i, |c: char| ('0' <= c <= '9') || c == '.'))
    } else if spec_is_name_start(c) {
        let j = doc_name_end(s, i + 1);
        if s.subrange(i, j) == "JIT"@ {
            (LuaTokenKind::TkDocVersionNumber, j)
        } else {
            (LuaTokenKind::TkName, j)
        }
    } else {
        spec_lex_normal(s, i, origin)
    }
}

pub open spec fn spec_is_source_continue(c: char) -> bool {
    spec_is_name_continue(c) || c == '.' || c == '-' || c == '/' || c == ' ' || c == ':' || c
        == '#' || c == '\\'
}

pub open spec fn spec_lex_source(s: Seq<char>, i: int, origin: LuaTokenKind) -> (LuaTokenKind, int) {
    let c = char_at(s, i);
    if spec_is_doc_whitespace(c) {
        (LuaTokenKind::TkWhitespace, run_end(s, i, doc_whitespace()))
    } else if spec_is_name_start(c) {
        (LuaTokenKind::TKDocPath, run_end(s, i + 1, |c: char| spec_is_source_continue(c)))
    } else if c == '"' || c == '\'' {
        let j = run_end(s, i + 1, |c: char| c != '\'' && c != '"');
        (LuaTokenKind::TKDocPath, if char_at(s, j) == '\'' || char_at(s, j) == '"' {
            j + 1
        } else {
            j
        })
    } else {
        spec_lex_normal(s, i, origin)
    }
}

pub open spec fn spec_lex_normal_description(s: Seq<char>, i: int, origin: LuaTokenKind) -> (
    LuaTokenKind,
    int,
) {
    let c = char_at(s, i);
    if spec_is_doc_whitespace(c) {
        (LuaTokenKind::TkWhitespace, run_end(s, i, doc_whitespace()))
    } else if ('a' <= c <= 'z') || ('A' <= c <= 'Z') || c == '#' {
        let j0 = if c == '#' {
            i + 1
        } else {
            i
        };
        let j = run_end(s, j0, ascii_alpha());
        let t = s.subrange(i, j);
        if t == "region"@ || t == "#region"@ {
            (LuaTokenKind::TkDocRegion, j)
        } else if t == "endregion"@ || t == "#endregion"@ {
            (LuaTokenKind::TkDocEndRegion, j)
        } else {
            (LuaTokenKind::TkDocDetail, run_end(s, j, any_char()))
        }
    } else if c == '-' && i == 0 {
        spec_dash_start(s, i, origin, false)
    } else if c == '/' && i == 0 {
        spec_slash_start(s, i)
    } else {
        (LuaTokenKind::TkDocDetail, run_end(s, i, any_char()))
    }
}

pub open spec fn spec_lex_cast_expr(s: Seq<char>, i: int, origin: LuaTokenKind) -> (
    LuaTokenKind,
    int,
) {
    let c = char_at(s, i);
    if spec_is_doc_whitespace(c) {
        (LuaTokenKind::TkWhitespace, run_end(s, i, doc_whitespace()))
    } else if c == '.' {
        (LuaTokenKind::TkDot, i + 1)
    } else if spec_is_name_start(c) {
        (LuaTokenKind::TkName, run_end(s, i + 1, |c: char| spec_is_name_continue(c)))
    } else {
        spec_lex_normal(s, i, origin)
    }
}

pub open spec fn spec_lex_attribute_use(s: Seq<char>, i: int) -> (LuaTokenKind, int) {
    let c = char_at(s, i);
    if spec_is_doc_whitespace(c) {
        (LuaTokenKind::TkWhitespace, run_end(s, i, doc_whitespace()))
    } else if c == '(' {
        (LuaTokenKind::TkLeftParen, i + 1)
    } else if c == ')' {
        (LuaTokenKind::TkRightParen, i + 1)
    } else if c == ',' {
        (LuaTokenKind::TkComma, i + 1)
    } else if c == ']' {
        (LuaTokenKind::TkRightBracket, i + 1)
    } else if c == '"' || c == '\'' {
        (LuaTokenKind::TkString, spec_quoted(s, i, c))
    } else if '0' <= c <= '9' {
        (LuaTokenKind::TkInt, run_end(s, i, ascii_digit()))
    } else if spec_is_name_start(c) {
        let j = doc_name_end(s, i + 1);
        if s.subrange(i, j) == "nil"@ {
            (LuaTokenKind::TkNil, j)
        } else {
            (LuaTokenKind::TkName, j)
        }
    } else {
        (LuaTokenKind::TkDocTrivia, i + 1)
    }
}

pub open spec fn spec_lex_keyword_name(s: Seq<char>, i: int, keyword: Seq<char>, kind: LuaTokenKind) -> (
    LuaTokenKind,
    int,
) {
    let j = doc_name_end(s, i + 1);
    if s.subrange(i, j) == keyword {
        (kind, j)
    } else {
        (LuaTokenKind::TkName, j)
    }
}

pub open spec fn spec_lex_mapped(s: Seq<char>, i: int, origin: LuaTokenKind) -> (LuaTokenKind, int) {
    let c = char_at(s, i);
    if spec_is_doc_whitespace(c) {
        (LuaTokenKind::TkWhitespace, run_end(s, i, doc_whitespace()))
    } else if spec_is_name_start(c) {
        spec_lex_keyword_name(s, i, "readonly"@, LuaTokenKind::TkDocReadonly)
    } else {
        spec_lex_normal(s, i, origin)
    }
}

pub open spec fn spec_lex_extends(s: Seq<char>, i: int, origin: LuaTokenKind) -> (LuaTokenKind, int) {
    let c = char_at(s, i);
    if spec_is_doc_whitespace(c) {
        (LuaTokenKind::TkWhitespace, run_end(s, i, doc_whitespace()))
    } else if spec_is_name_start(c) {
        spec_lex_keyword_name(s, i, "new"@, LuaTokenKind::TkDocNew)
    } else {
        spec_lex_normal(s, i, origin)
    }
}

/// The token that a doc lexer in `state` reads at `i`, and where it ends.
pub open spec fn spec_lex_state(
    state: LuaDocLexerState,
    s: Seq<char>,
    i: int,
    origin: LuaTokenKind,
) -> (LuaTokenKind, int) {
    match state {
        LuaDocLexerState::Init => spec_lex_init(s, i, origin),
        LuaDocLexerState::Tag => spec_lex_tag(s, i),
        LuaDocLexerState::Normal => spec_lex_normal(s, i, origin),
        LuaDocLexerState::FieldStart => spec_lex_field_start(s, i, origin),
        LuaDocLexerState::Description => spec_lex_description(s, i, origin),
        LuaDocLexerState::LongDescription => spec_lex_long_description(s, i),
        LuaDocLexerState::Trivia => (LuaTokenKind::TkDocTrivia, run_end(s, i, any_char())),
        LuaDocLexerState::See => spec_lex_see(s, i),
        LuaDocLexerState::Version => spec_lex_version(s, i, origin),
        LuaDocLexerState::Source => spec_lex_source(s, i, origin),
        LuaDocLexerState::NormalDescription => spec_lex_normal_description(s, i, origin),
        LuaDocLexerState::CastExpr => spec_lex_cast_expr(s, i, origin),
        LuaDocLexerState::AttributeUse => spec_lex_attribute_use(s, i),
        LuaDocLexerState::Mapped => spec_lex_mapped(s, i, origin),
        LuaDocLexerState::Extends => spec_lex_extends(s, i, origin),
    }
}

/// The state after reading a token in `state` that starts with `c`.
pub open spec fn spec_next_state(state: LuaDocLexerState, c: char) -> LuaDocLexerState {
    if state == LuaDocLexerState::Tag && !spec_is_doc_whitespace(c) && !spec_is_name_start(c)
        && c == '[' {
        LuaDocLexerState::AttributeUse
    } else {
        state
    }
}


// ---------------------------------------------------------------------------
// Every doc token consumes at least one char
// ---------------------------------------------------------------------------

proof fn lemma_re(s: Seq<char>, i: int, p: spec_fn(char) -> bool)
    requires
        0 <= i <= s.len(),
    ensures
        i <= run_end(s, i, p) <= s.len(),
        i < s.len() && s[i] != EOF && p(s[i]) ==> run_end(s, i, p) == run_end(s, i + 1, p) && i
            < run_end(s, i, p),
{
    lemma_run_end(s, i, p);
    if i < s.len() && s[i] != EOF && p(s[i]) {
        lemma_run_end(s, i + 1, p);
    }
}

proof fn lemma_doc_name_end(s: Seq<char>, j: int)
    requires
        0 <= j <= s.len(),
    ensures
        j <= doc_name_end(s, j) <= s.len(),
    decreases s.len() - j,
{
    if j < s.len() && s[j] != EOF {
        lemma_doc_name_end(s, j + 1);
    }
}

proof fn lemma_long_start(s: Seq<char>, j: int)
    requires
        0 <= j <= s.len(),
    ensures
        j <= spec_long_start(s, j).1 <= s.len(),
{
    let j1 = step(s, j);
    lemma_re(s, j1, eq_char('='));
}

proof fn lemma_dash_start(s: Seq<char>, i: int, origin: LuaTokenKind, bar: bool)
    requires
        0 <= i < s.len(),
        s[i] == '-',
    ensures
        i < spec_dash_start(s, i, origin, bar).1 <= s.len(),
{
    lemma_re(s, i, eq_char('-'));
    let e = run_end(s, i, eq_char('-'));
    let j = consume_upto(s, i, '-', 3);
    lemma_long_start(s, j);
    lemma_re(s, j, doc_whitespace());
    lemma_re(s, j, any_char());
    let j1 = run_end(s, j, doc_whitespace());
    if j1 < s.len() {
        lemma_re(s, j1 + 1, any_char());
    }
}

proof fn lemma_slash_start(s: Seq<char>, i: int)
    requires
        0 <= i < s.len(),
        s[i] == '/',
    ensures
        i < spec_slash_start(s, i).1 <= s.len(),
{
    lemma_re(s, i, eq_char('/'));
}

proof fn lemma_normal_progress(s: Seq<char>, i: int, origin: LuaTokenKind)
    requires
        0 <= i < s.len(),
        s[i] != EOF,
    ensures
        i < spec_lex_normal(s, i, origin).1 <= s.len(),
{
    let c = s[i];
    lemma_re(s, i, doc_whitespace());
    lemma_re(s, i, any_char());
    lemma_re(s, i, ascii_digit());
    lemma_re(s, i, eq_char('-'));
    lemma_re(s, i + 1, any_char());
    lemma_re(s, i + 1, not_char(c));
    lemma_re(s, i + 1, eq_char('='));
    lemma_doc_name_end(s, i + 1);
    let j = run_end(s, i, eq_char('-'));
    lemma_re(s, j, doc_whitespace());
    let j1 = run_end(s, j, doc_whitespace());
    if j1 < s.len() {
        lemma_re(s, j1 + 1, any_char());
    }
}

/// A doc token that starts at a char other than NUL is not empty and stays in the text.
/// No token rule yields the end-of-input kind.
pub proof fn lemma_doc_token_not_eof(state: LuaDocLexerState, s: Seq<char>, i: int, origin: LuaTokenKind)
    ensures
        spec_lex_state(state, s, i, origin).0 != LuaTokenKind::TkEof,
{
}

pub proof fn lemma_doc_token_progress(
    state: LuaDocLexerState,
    s: Seq<char>,
    i: int,
    origin: LuaTokenKind,
)
    requires
        0 <= i < s.len(),
        s[i] != EOF,
    ensures
        i < spec_lex_state(state, s, i, origin).1 <= s.len(),
{
    let c = s[i];
    lemma_normal_progress(s, i, origin);
    lemma_re(s, i, doc_whitespace());
    lemma_re(s, i, any_char());
    lemma_re(s, i, ascii_digit());
    lemma_re(s, i, |c: char| ('0' <= c <= '9') || c == '.');
    lemma_re(s, i + 1, |c: char| spec_is_name_continue(c));
    lemma_re(s, i + 1, |c: char| spec_is_source_continue(c));
    lemma_re(s, i + 1, |c: char| c != '\'' && c != '"');
    lemma_re(s, i + 1, not_char(c));
    lemma_doc_name_end(s, i + 1);
    if c == '-' {
        lemma_dash_start(s, i, origin, true);
        lemma_dash_start(s, i, origin, false);
    }
    if c == '/' {
        lemma_slash_start(s, i);
    }
    let j0 = run_end(s, i + 1, |c: char| spec_is_name_continue(c));
    lemma_doc_name_end(s, step(s, j0));
    if ('a' <= c <= 'z') || ('A' <= c <= 'Z') || c == '#' {
        let j0 = if c == '#' {
            i + 1
        } else {
            i
        };
        lemma_re(s, j0, ascii_alpha());
        let j = run_end(s, j0, ascii_alpha());
        lemma_re(s, j, any_char());
    }
    if state == LuaDocLexerState::LongDescription {
        lemma_trailing_close_len(s);
    }
}

proof fn lemma_trailing_close_len(s: Seq<char>)
    ensures
        0 <= trailing_close_len(s) <= s.len(),
    decreases s.len(),
{
    if s.len() > 0 && (s.last() == ']' || s.last() == '=') {
        lemma_trailing_close_len(s.drop_last());
    }
}

// ---------------------------------------------------------------------------
// Reading tokens
// ---------------------------------------------------------------------------

/// The reader moved from `old_r` to the end `end` of the token that started
/// at the old position; the buffer still starts where the token starts.
pub open spec fn lexed(old_r: Reader, new_r: Reader, end: int) -> bool {
    &&& new_r.wf()
    &&& new_r.same_text(&old_r)
    &&& new_r.buf_start() == old_r.buf_start()
    &&& new_r.pos() == end
}

/// A reader positioned at the start of a token.
pub open spec fn at_token_start(r: Reader) -> bool {
    &&& r.wf()
    &&& r.buf_start() == r.pos()
    &&& !r.eof()
}

pub fn is_doc_whitespace(ch: char) -> (r: bool)
    ensures
        r == spec_is_doc_whitespace(ch),
{
    ch == ' ' || ch == '\t' || ch == '\r' || ch == '\n'
}

fn is_ascii_digit_char(ch: char) -> (r: bool)
    ensures
        r == ('0' <= ch <= '9'),
{
    '0' <= ch && ch <= '9'
}

fn is_version_char(c: char) -> (b: bool)
    ensures
        b == (('0' <= c <= '9') || c == '.'),
{
    ('0' <= c && c <= '9') || c == '.'
}

fn is_not_quote(c: char) -> (b: bool)
    ensures
        b == (c != '\'' && c != '"'),
{
    c != '\'' && c != '"'
}

fn is_ascii_alpha_char(ch: char) -> (r: bool)
    ensures
        r == (('a' <= ch <= 'z') || ('A' <= ch <= 'Z')),
{
    ('a' <= ch && ch <= 'z') || ('A' <= ch && ch <= 'Z')
}

pub fn is_source_continue(ch: char) -> (r: bool)
    ensures
        r == spec_is_source_continue(ch),
{
    is_name_continue(ch) || ch == '.' || ch == '-' || ch == '/' || ch == ' ' || ch == ':' || ch
        == '#' || ch == '\\'
}

fn eat_doc_whitespace(r: &mut Reader)
    requires
        old(r).wf(),
    ensures
        lexed(*old(r), *final(r), run_end(old(r).chars(), old(r).pos(), doc_whitespace())),
{
    r.eat_while_run(is_doc_whitespace, Ghost(doc_whitespace()));
}

fn eat_rest(r: &mut Reader)
    requires
        old(r).wf(),
    ensures
        lexed(*old(r), *final(r), run_end(old(r).chars(), old(r).pos(), any_char())),
{
    r.eat_till_end();
}

fn eat_digits(r: &mut Reader)
    requires
        old(r).wf(),
    ensures
        lexed(*old(r), *final(r), run_end(old(r).chars(), old(r).pos(), ascii_digit())),
{
    r.eat_while_run(is_ascii_digit_char, Ghost(ascii_digit()));
}

fn eat_name_continue(r: &mut Reader)
    requires
        old(r).wf(),
    ensures
        lexed(
            *old(r),
            *final(r),
            run_end(old(r).chars(), old(r).pos(), |c: char| spec_is_name_continue(c)),
        ),
{
    r.eat_while_run(is_name_continue, Ghost(|c: char| spec_is_name_continue(c)));
}

/// Reads a quoted string whose opening quote is the current char.
fn read_quoted(r: &mut Reader, q: char)
    requires
        old(r).wf(),
        old(r).cur() == q,
        q != EOF,
    ensures
        lexed(*old(r), *final(r), spec_quoted(old(r).chars(), old(r).pos(), q)),
{
    r.bump();
    r.eat_while_run(|c: char| -> (b: bool) ensures b == (c != q) { c != q }, Ghost(not_char(q)));
    if r.current_char() == q {
        r.bump();
    }
}

/// Reads the rest of a doc name (its first char is the current char).
/// Returns whether the name is a string template.
fn read_doc_name(r: &mut Reader) -> (tpl: bool)
    requires
        old(r).wf(),
    ensures
        lexed(*old(r), *final(r), doc_name_end(old(r).chars(), step(old(r).chars(), old(r).pos()))),
        tpl == doc_name_template(old(r).chars(), step(old(r).chars(), old(r).pos())),
{
    r.bump();
    let ghost j0 = r.pos();
    let mut str_tpl = false;
    loop
        invariant
            r.wf(),
            r.same_text(old(r)),
            r.buf_start() == old(r).buf_start(),
            j0 <= r.pos() <= r.chars().len(),
            doc_name_end(r.chars(), r.pos()) == doc_name_end(r.chars(), j0),
            doc_name_template(r.chars(), j0) == (str_tpl || doc_name_template(r.chars(), r.pos())),
            j0 == step(old(r).chars(), old(r).pos()),
        ensures
            r.wf(),
            r.same_text(old(r)),
            r.buf_start() == old(r).buf_start(),
            r.pos() == doc_name_end(r.chars(), j0),
            doc_name_template(r.chars(), j0) == str_tpl,
        decreases r.chars().len() - r.pos(),
    {
        if r.is_eof() {
            break;
        }
        let ch = r.current_char();
        if is_name_continue(ch) {
            r.bump();
        } else if ch == '.' || ch == '-' || ch == '*' {
            let next = r.next_char();
            if next == '.' || next == '-' || next == '*' {
                break;
            }
            r.bump();
        } else if ch == '`' {
            str_tpl = true;
            r.bump();
        } else {
            break;
        }
    }
    str_tpl
}

fn to_tag(r: &Reader) -> (k: LuaTokenKind)
    requires
        r.wf(),
    ensures
        k == spec_to_tag(r.buffer()),
{
    if r.buffer_eq("class") {
        LuaTokenKind::TkTagClass
    } else if r.buffer_eq("enum") {
        LuaTokenKind::TkTagEnum
    } else if r.buffer_eq("interface") {
        LuaTokenKind::TkTagInterface
    } else if r.buffer_eq("alias") {
        LuaTokenKind::TkTagAlias
    } else if r.buffer_eq("module") {
        LuaTokenKind::TkTagModule
    } else if r.buffer_eq("field") {
        LuaTokenKind::TkTagField
    } else if r.buffer_eq("type") {
        LuaTokenKind::TkTagType
    } else if r.buffer_eq("param") {
        LuaTokenKind::TkTagParam
    } else if r.buffer_eq("return") {
        LuaTokenKind::TkTagReturn
    } else if r.buffer_eq("return_cast") {
        LuaTokenKind::TkTagReturnCast
    } else if r.buffer_eq("generic") {
        LuaTokenKind::TkTagGeneric
    } else if r.buffer_eq("see") {
        LuaTokenKind::TkTagSee
    } else if r.buffer_eq("overload") {
        LuaTokenKind::TkTagOverload
    } else if r.buffer_eq("async") {
        LuaTokenKind::TkTagAsync
    } else if r.buffer_eq("cast") {
        LuaTokenKind::TkTagCast
    } else if r.buffer_eq("deprecated") {
        LuaTokenKind::TkTagDeprecated
    } else if r.buffer_eq("private") || r.buffer_eq("protected") || r.buffer_eq("public")
        || r.buffer_eq("package") || r.buffer_eq("internal") {
        LuaTokenKind::TkTagVisibility
    } else if r.buffer_eq("readonly") {
        LuaTokenKind::TkTagReadonly
    } else if r.buffer_eq("diagnostic") {
        LuaTokenKind::TkTagDiagnostic
    } else if r.buffer_eq("meta") {
        LuaTokenKind::TkTagMeta
    } else if r.buffer_eq("version") {
        LuaTokenKind::TkTagVersion
    } else if r.buffer_eq("as") {
        LuaTokenKind::TkTagAs
    } else if r.buffer_eq("nodiscard") {
        LuaTokenKind::TkTagNodiscard
    } else if r.buffer_eq("operator") {
        LuaTokenKind::TkTagOperator
    } else if r.buffer_eq("mapping") {
        LuaTokenKind::TkTagMapping
    } else if r.buffer_eq("namespace") {
        LuaTokenKind::TkTagNamespace
    } else if r.buffer_eq("using") {
        LuaTokenKind::TkTagUsing
    } else if r.buffer_eq("source") {
        LuaTokenKind::TkTagSource
    } else if r.buffer_eq("export") {
        LuaTokenKind::TkTagExport
    } else if r.buffer_eq("language") {
        LuaTokenKind::TkLanguage
    } else if r.buffer_eq("attribute") {
        LuaTokenKind::TkTagAttribute
    } else {
        LuaTokenKind::TkTagOther
    }
}

fn to_modification_or_name(r: &Reader) -> (k: LuaTokenKind)
    requires
        r.wf(),
    ensures
        k == spec_to_modification_or_name(r.buffer()),
{
    if r.buffer_eq("private") || r.buffer_eq("protected") || r.buffer_eq("public")
        || r.buffer_eq("package") {
        LuaTokenKind::TkDocVisibility
    } else if r.buffer_eq("readonly") {
        LuaTokenKind::TkDocReadonly
    } else {
        LuaTokenKind::TkName
    }
}

fn to_token_or_name(r: &Reader) -> (k: LuaTokenKind)
    requires
        r.wf(),
    ensures
        k == spec_to_token_or_name(r.buffer()),
{
    if r.buffer_eq("true") {
        LuaTokenKind::TkTrue
    } else if r.buffer_eq("false") {
        LuaTokenKind::TkFalse
    } else if r.buffer_eq("keyof") {
        LuaTokenKind::TkDocKeyOf
    } else if r.buffer_eq("extends") {
        LuaTokenKind::TkDocExtends
    } else if r.buffer_eq("as") {
        LuaTokenKind::TkDocAs
    } else if r.buffer_eq("in") {
        LuaTokenKind::TkIn
    } else if r.buffer_eq("and") {
        LuaTokenKind::TkAnd
    } else if r.buffer_eq("or") {
        LuaTokenKind::TkOr
    } else if r.buffer_eq("else") {
        LuaTokenKind::TkDocElse
    } else {
        LuaTokenKind::TkName
    }
}

/// `--[==[` and an optional `@`, the `--` already read.
fn lex_long_start(r: &mut Reader) -> (k: LuaTokenKind)
    requires
        old(r).wf(),
    ensures
        lexed(*old(r), *final(r), spec_long_start(old(r).chars(), old(r).pos()).1),
        k == spec_long_start(old(r).chars(), old(r).pos()).0,
{
    r.bump();
    r.eat_when('=');
    r.bump();
    if r.current_char() == '@' {
        r.bump();
        LuaTokenKind::TkDocLongStart
    } else {
        LuaTokenKind::TkLongCommentStart
    }
}

fn lex_after_bar(r: &mut Reader)
    requires
        old(r).wf(),
    ensures
        lexed(*old(r), *final(r), spec_after_bar(old(r).chars(), old(r).pos())),
{
    let c = r.current_char();
    if c == '+' || c == '>' {
        r.bump();
    }
}

fn lex_dash_start(r: &mut Reader, origin: LuaTokenKind, bar_continues: bool) -> (k: LuaTokenKind)
    requires
        old(r).wf(),
    ensures
        lexed(
            *old(r),
            *final(r),
            spec_dash_start(old(r).chars(), old(r).pos(), origin, bar_continues).1,
        ),
        k == spec_dash_start(old(r).chars(), old(r).pos(), origin, bar_continues).0,
{
    let count = r.consume_char_n_times('-', 3);
    if count == 2 {
        if origin == LuaTokenKind::TkLongComment {
            lex_long_start(r)
        } else {
            LuaTokenKind::TkNormalStart
        }
    } else if count == 3 {
        eat_doc_whitespace(r);
        let c = r.current_char();
        if c == '@' {
            r.bump();
            LuaTokenKind::TkDocStart
        } else if bar_continues && c == '|' {
            r.bump();
            lex_after_bar(r);
            LuaTokenKind::TkDocContinueOr
        } else {
            LuaTokenKind::TkNormalStart
        }
    } else {
        eat_rest(r);
        LuaTokenKind::TKDocTriviaStart
    }
}

fn lex_slash_start(r: &mut Reader) -> (k: LuaTokenKind)
    requires
        old(r).wf(),
    ensures
        lexed(*old(r), *final(r), spec_slash_start(old(r).chars(), old(r).pos()).1),
        k == spec_slash_start(old(r).chars(), old(r).pos()).0,
{
    let count = r.consume_char_n_times('/', 3);
    if count >= 2 {
        LuaTokenKind::TkNormalStart
    } else {
        LuaTokenKind::TKNonStdComment
    }
}

fn lex_init(r: &mut Reader, origin: LuaTokenKind) -> (k: LuaTokenKind)
    requires
        at_token_start(*old(r)),
    ensures
        lexed(*old(r), *final(r), spec_lex_init(old(r).chars(), old(r).pos(), origin).1),
        k == spec_lex_init(old(r).chars(), old(r).pos(), origin).0,
{
    let c = r.current_char();
    if c == '-' && r.is_start_of_line() {
        lex_dash_start(r, origin, false)
    } else if c == '/' && r.is_start_of_line() {
        lex_slash_start(r)
    } else {
        eat_rest(r);
        LuaTokenKind::TkDocTrivia
    }
}

fn lex_tag(r: &mut Reader) -> (k: LuaTokenKind)
    requires
        at_token_start(*old(r)),
    ensures
        lexed(*old(r), *final(r), spec_lex_tag(old(r).chars(), old(r).pos()).1),
        k == spec_lex_tag(old(r).chars(), old(r).pos()).0,
{
    let c = r.current_char();
    if is_doc_whitespace(c) {
        eat_doc_whitespace(r);
        LuaTokenKind::TkWhitespace
    } else if is_name_start(c) {
        r.bump();
        eat_name_continue(r);
        to_tag(r)
    } else if c == '[' {
        r.bump();
        LuaTokenKind::TkDocAttributeUse
    } else if c == '<' {
        r.bump();
        LuaTokenKind::TkCallGeneric
    } else {
        eat_rest(r);
        LuaTokenKind::TkDocTrivia
    }
}

fn punct_kind(c: char) -> (k: Option<LuaTokenKind>)
    ensures
        k == spec_punct(c),
{
    if c == ':' {
        Some(LuaTokenKind::TkColon)
    } else if c == ',' {
        Some(LuaTokenKind::TkComma)
    } else if c == ';' {
        Some(LuaTokenKind::TkSemicolon)
    } else if c == '(' {
        Some(LuaTokenKind::TkLeftParen)
    } else if c == ')' {
        Some(LuaTokenKind::TkRightParen)
    } else if c == '[' {
        Some(LuaTokenKind::TkLeftBracket)
    } else if c == '{' {
        Some(LuaTokenKind::TkLeftBrace)
    } else if c == '}' {
        Some(LuaTokenKind::TkRightBrace)
    } else if c == '<' {
        Some(LuaTokenKind::TkLt)
    } else if c == '>' {
        Some(LuaTokenKind::TkGt)
    } else if c == '|' {
        Some(LuaTokenKind::TkDocOr)
    } else if c == '&' {
        Some(LuaTokenKind::TkDocAnd)
    } else if c == '?' {
        Some(LuaTokenKind::TkDocQuestion)
    } else if c == '+' {
        Some(LuaTokenKind::TkPlus)
    } else {
        None
    }
}

fn lex_normal_dash(r: &mut Reader) -> (k: LuaTokenKind)
    requires
        old(r).wf(),
    ensures
        lexed(*old(r), *final(r), spec_normal_dash(old(r).chars(), old(r).pos()).1),
        k == spec_normal_dash(old(r).chars(), old(r).pos()).0,
{
    let count = r.eat_when('-');
    if count == 1 {
        LuaTokenKind::TkMinus
    } else if count == 3 {
        eat_doc_whitespace(r);
        let c = r.current_char();
        if c == '@' {
            r.bump();
            LuaTokenKind::TkDocStart
        } else if c == '|' {
            r.bump();
            lex_after_bar(r);
            LuaTokenKind::TkDocContinueOr
        } else {
            LuaTokenKind::TkDocContinue
        }
    } else {
        LuaTokenKind::TkDocTrivia
    }
}

fn lex_normal_right_bracket(r: &mut Reader, origin: LuaTokenKind) -> (k: LuaTokenKind)
    requires
        old(r).wf(),
        old(r).cur() == ']',
    ensures
        lexed(
            *old(r),
            *final(r),
            spec_normal_right_bracket(old(r).chars(), old(r).pos(), origin).1,
        ),
        k == spec_normal_right_bracket(old(r).chars(), old(r).pos(), origin).0,
{
    r.bump();
    if origin == LuaTokenKind::TkLongComment {
        let c = r.current_char();
        if c == '=' {
            r.eat_when('=');
            r.bump();
            return LuaTokenKind::TkLongCommentEnd;
        } else if c == ']' {
            r.bump();
            return LuaTokenKind::TkLongCommentEnd;
        }
    }
    LuaTokenKind::TkRightBracket
}

fn lex_normal(r: &mut Reader, origin: LuaTokenKind) -> (k: LuaTokenKind)
    requires
        at_token_start(*old(r)),
    ensures
        lexed(*old(r), *final(r), spec_lex_normal(old(r).chars(), old(r).pos(), origin).1),
        k == spec_lex_normal(old(r).chars(), old(r).pos(), origin).0,
{
    let c = r.current_char();
    if is_doc_whitespace(c) {
        eat_doc_whitespace(r);
        return LuaTokenKind::TkWhitespace;
    }
    if c == '.' {
        r.bump();
        if r.current_char() == '.' && r.next_char() == '.' {
            r.bump();
            r.bump();
            return LuaTokenKind::TkDots;
        }
        return LuaTokenKind::TkDot;
    }
    if c == ']' {
        return lex_normal_right_bracket(r, origin);
    }
    if let Some(k) = punct_kind(c) {
        r.bump();
        return k;
    }
    if c == '-' {
        return lex_normal_dash(r);
    }
    if c == '#' {
        eat_rest(r);
        return LuaTokenKind::TkDocDetail;
    }
    if c == '@' {
        r.bump();
        if r.current_char() == '[' {
            r.bump();
            return LuaTokenKind::TkDocAttributeUse;
        }
        eat_rest(r);
        return LuaTokenKind::TkDocDetail;
    }
    if is_ascii_digit_char(c) {
        eat_digits(r);
        return LuaTokenKind::TkInt;
    }
    if c == '"' || c == '\'' {
        read_quoted(r, c);
        return LuaTokenKind::TkString;
    }
    if is_name_start(c) || c == '`' {
        let tpl = read_doc_name(r);
        if tpl {
            return LuaTokenKind::TkStringTemplateType;
        }
        return to_token_or_name(r);
    }
    eat_rest(r);
    LuaTokenKind::TkDocTrivia
}

fn lex_field_start(r: &mut Reader, origin: LuaTokenKind) -> (k: LuaTokenKind)
    requires
        at_token_start(*old(r)),
    ensures
        lexed(*old(r), *final(r), spec_lex_field_start(old(r).chars(), old(r).pos(), origin).1),
        k == spec_lex_field_start(old(r).chars(), old(r).pos(), origin).0,
{
    let c = r.current_char();
    if is_name_start(c) {
        read_doc_name(r);
        to_modification_or_name(r)
    } else {
        lex_normal(r, origin)
    }
}

fn lex_description(r: &mut Reader, origin: LuaTokenKind) -> (k: LuaTokenKind)
    requires
        at_token_start(*old(r)),
    ensures
        lexed(*old(r), *final(r), spec_lex_description(old(r).chars(), old(r).pos(), origin).1),
        k == spec_lex_description(old(r).chars(), old(r).pos(), origin).0,
{
    let c = r.current_char();
    if is_doc_whitespace(c) {
        eat_doc_whitespace(r);
        LuaTokenKind::TkWhitespace
    } else if c == '-' && r.is_start_of_line() {
        lex_dash_start(r, origin, true)
    } else {
        eat_rest(r);
        LuaTokenKind::TkDocDetail
    }
}

/// How many `]` and `=` chars end the reader's text.
fn count_trailing_close(r: &Reader) -> (n: usize)
    requires
        r.wf(),
    ensures
        n == trailing_close_len(r.chars()),
        n <= r.chars().len(),
{
    let text = r.chars_vec();
    let mut n: usize = 0;
    assert(r.chars().take(r.chars().len() as int) =~= r.chars());
    while n < text.len() && (text[text.len() - 1 - n] == ']' || text[text.len() - 1 - n] == '=')
        invariant
            text@ == r.chars(),
            0 <= n <= text.len(),
            trailing_close_len(r.chars()) == n + trailing_close_len(
                r.chars().take(r.chars().len() - n),
            ),
        decreases text.len() - n,
    {
        let ghost t = r.chars().take(r.chars().len() - n);
        assert(t.drop_last() =~= r.chars().take(r.chars().len() - n - 1));
        n += 1;
    }
    proof {
        let t = r.chars().take(r.chars().len() - n);
        if n < text.len() {
            assert(t.last() == r.chars()[r.chars().len() - 1 - n]);
        }
    }
    n
}

fn lex_long_description(r: &mut Reader) -> (k: LuaTokenKind)
    requires
        at_token_start(*old(r)),
    ensures
        lexed(*old(r), *final(r), spec_lex_long_description(old(r).chars(), old(r).pos()).1),
        k == spec_lex_long_description(old(r).chars(), old(r).pos()).0,
{
    let n = count_trailing_close(r);
    let end = r.char_len() - n;
    if r.char_pos() < end {
        let ghost start = r.pos();
        proof {
            lemma_run_end(r.chars(), start, any_char());
        }
        while r.char_pos() < end && !r.is_eof()
            invariant
                r.wf(),
                r.same_text(old(r)),
                r.buf_start() == old(r).buf_start(),
                start == old(r).pos(),
                end == r.chars().len() - trailing_close_len(r.chars()),
                start <= r.pos() <= end,
                r.pos() <= run_end(r.chars(), start, any_char()) <= r.chars().len(),
                forall|k: int| start <= k < r.pos() ==> r.chars()[k] != EOF,
                forall|k: int| start <= k < run_end(r.chars(), start, any_char()) ==> r.chars()[k] != EOF,
                run_end(r.chars(), start, any_char()) == r.chars().len() || r.chars()[run_end(r.chars(), start, any_char())] == EOF,
            decreases r.chars().len() - r.pos(),
        {
            r.bump();
        }
        proof {
            if r.pos() < end {
                crate::text::reader::lemma_run_end_unique(r.chars(), start, any_char(), r.pos());
            }
        }
        LuaTokenKind::TkDocDetail
    } else {
        eat_rest(r);
        LuaTokenKind::TkDocTrivia
    }
}

fn lex_see(r: &mut Reader) -> (k: LuaTokenKind)
    requires
        at_token_start(*old(r)),
    ensures
        lexed(*old(r), *final(r), spec_lex_see(old(r).chars(), old(r).pos()).1),
        k == spec_lex_see(old(r).chars(), old(r).pos()).0,
{
    let c = r.current_char();
    if c == ' ' || c == '\t' {
        eat_doc_whitespace(r);
        LuaTokenKind::TkWhitespace
    } else {
        eat_rest(r);
        LuaTokenKind::TkDocSeeContent
    }
}

fn lex_version(r: &mut Reader, origin: LuaTokenKind) -> (k: LuaTokenKind)
    requires
        at_token_start(*old(r)),
    ensures
        lexed(*old(r), *final(r), spec_lex_version(old(r).chars(), old(r).pos(), origin).1),
        k == spec_lex_version(old(r).chars(), old(r).pos(), origin).0,
{
    let c = r.current_char();
    if c == ',' {
        r.bump();
        LuaTokenKind::TkComma
    } else if c == '>' {
        r.bump();
        if r.current_char() == '=' {
            r.bump();
            LuaTokenKind::TkGe
        } else {
            LuaTokenKind::TkGt
        }
    } else if c == '<' {
        r.bump();
        if r.current_char() == '=' {
            r.bump();
            LuaTokenKind::TkLe
        } else {
            LuaTokenKind::TkLt
        }
    } else if is_doc_whitespace(c) {
        eat_doc_whitespace(r);
        LuaTokenKind::TkWhitespace
    } else if is_ascii_digit_char(c) {
        r.eat_while_run(is_version_char, Ghost(|c: char| ('0' <= c <= '9') || c == '.'));
        LuaTokenKind::TkDocVersionNumber
    } else if is_name_start(c) {
        read_doc_name(r);
        if r.buffer_eq("JIT") {
            LuaTokenKind::TkDocVersionNumber
        } else {
            LuaTokenKind::TkName
        }
    } else {
        lex_normal(r, origin)
    }
}

fn lex_source(r: &mut Reader, origin: LuaTokenKind) -> (k: LuaTokenKind)
    requires
        at_token_start(*old(r)),
    ensures
        lexed(*old(r), *final(r), spec_lex_source(old(r).chars(), old(r).pos(), origin).1),
        k == spec_lex_source(old(r).chars(), old(r).pos(), origin).0,
{
    let c = r.current_char();
    if is_doc_whitespace(c) {
        eat_doc_whitespace(r);
        LuaTokenKind::TkWhitespace
    } else if is_name_start(c) {
        r.bump();
        r.eat_while_run(is_source_continue, Ghost(|c: char| spec_is_source_continue(c)));
        LuaTokenKind::TKDocPath
    } else if c == '"' || c == '\'' {
        r.bump();
        r.eat_while_run(is_not_quote, Ghost(|c: char| c != '\'' && c != '"'));
        let q = r.current_char();
        if q == '\'' || q == '"' {
            r.bump();
        }
        LuaTokenKind::TKDocPath
    } else {
        lex_normal(r, origin)
    }
}

fn lex_normal_description(r: &mut Reader, origin: LuaTokenKind) -> (k: LuaTokenKind)
    requires
        at_token_start(*old(r)),
    ensures
        lexed(
            *old(r),
            *final(r),
            spec_lex_normal_description(old(r).chars(), old(r).pos(), origin).1,
        ),
        k == spec_lex_normal_description(old(r).chars(), old(r).pos(), origin).0,
{
    let c = r.current_char();
    if is_doc_whitespace(c) {
        eat_doc_whitespace(r);
        LuaTokenKind::TkWhitespace
    } else if is_ascii_alpha_char(c) || c == '#' {
        if c == '#' {
            r.bump();
        }
        r.eat_while_run(is_ascii_alpha_char, Ghost(ascii_alpha()));
        if r.buffer_eq("region") || r.buffer_eq("#region") {
            LuaTokenKind::TkDocRegion
        } else if r.buffer_eq("endregion") || r.buffer_eq("#endregion") {
            LuaTokenKind::TkDocEndRegion
        } else {
            eat_rest(r);
            LuaTokenKind::TkDocDetail
        }
    } else if c == '-' && r.is_start_of_line() {
        lex_dash_start(r, origin, false)
    } else if c == '/' && r.is_start_of_line() {
        lex_slash_start(r)
    } else {
        eat_rest(r);
        LuaTokenKind::TkDocDetail
    }
}

fn lex_cast_expr(r: &mut Reader, origin: LuaTokenKind) -> (k: LuaTokenKind)
    requires
        at_token_start(*old(r)),
    ensures
        lexed(*old(r), *final(r), spec_lex_cast_expr(old(r).chars(), old(r).pos(), origin).1),
        k == spec_lex_cast_expr(old(r).chars(), old(r).pos(), origin).0,
{
    let c = r.current_char();
    if is_doc_whitespace(c) {
        eat_doc_whitespace(r);
        LuaTokenKind::TkWhitespace
    } else if c == '.' {
        r.bump();
        LuaTokenKind::TkDot
    } else if is_name_start(c) {
        r.bump();
        eat_name_continue(r);
        LuaTokenKind::TkName
    } else {
        lex_normal(r, origin)
    }
}

fn lex_attribute_use(r: &mut Reader) -> (k: LuaTokenKind)
    requires
        at_token_start(*old(r)),
    ensures
        lexed(*old(r), *final(r), spec_lex_attribute_use(old(r).chars(), old(r).pos()).1),
        k == spec_lex_attribute_use(old(r).chars(), old(r).pos()).0,
{
    let c = r.current_char();
    if is_doc_whitespace(c) {
        eat_doc_whitespace(r);
        LuaTokenKind::TkWhitespace
    } else if c == '(' {
        r.bump();
        LuaTokenKind::TkLeftParen
    } else if c == ')' {
        r.bump();
        LuaTokenKind::TkRightParen
    } else if c == ',' {
        r.bump();
        LuaTokenKind::TkComma
    } else if c == ']' {
        r.bump();
        LuaTokenKind::TkRightBracket
    } else if c == '"' || c == '\'' {
        read_quoted(r, c);
        LuaTokenKind::TkString
    } else if is_ascii_digit_char(c) {
        eat_digits(r);
        LuaTokenKind::TkInt
    } else if is_name_start(c) {
        read_doc_name(r);
        if r.buffer_eq("nil") {
            LuaTokenKind::TkNil
        } else {
            LuaTokenKind::TkName
        }
    } else {
        r.bump();
        LuaTokenKind::TkDocTrivia
    }
}

fn lex_keyword_name(r: &mut Reader, keyword: &str, kind: LuaTokenKind) -> (k: LuaTokenKind)
    requires
        at_token_start(*old(r)),
    ensures
        lexed(
            *old(r),
            *final(r),
            spec_lex_keyword_name(old(r).chars(), old(r).pos(), keyword@, kind).1,
        ),
        k == spec_lex_keyword_name(old(r).chars(), old(r).pos(), keyword@, kind).0,
{
    read_doc_name(r);
    if r.buffer_eq(keyword) {
        kind
    } else {
        LuaTokenKind::TkName
    }
}

fn lex_mapped(r: &mut Reader, origin: LuaTokenKind) -> (k: LuaTokenKind)
    requires
        at_token_start(*old(r)),
    ensures
        lexed(*old(r), *final(r), spec_lex_mapped(old(r).chars(), old(r).pos(), origin).1),
        k == spec_lex_mapped(old(r).chars(), old(r).pos(), origin).0,
{
    let c = r.current_char();
    if is_doc_whitespace(c) {
        eat_doc_whitespace(r);
        LuaTokenKind::TkWhitespace
    } else if is_name_start(c) {
        lex_keyword_name(r, "readonly", LuaTokenKind::TkDocReadonly)
    } else {
        lex_normal(r, origin)
    }
}

fn lex_extends(r: &mut Reader, origin: LuaTokenKind) -> (k: LuaTokenKind)
    requires
        at_token_start(*old(r)),
    ensures
        lexed(*old(r), *final(r), spec_lex_extends(old(r).chars(), old(r).pos(), origin).1),
        k == spec_lex_extends(old(r).chars(), old(r).pos(), origin).0,
{
    let c = r.current_char();
    if is_doc_whitespace(c) {
        eat_doc_whitespace(r);
        LuaTokenKind::TkWhitespace
    } else if is_name_start(c) {
        lex_keyword_name(r, "new", LuaTokenKind::TkDocNew)
    } else {
        lex_normal(r, origin)
    }
}


// ---------------------------------------------------------------------------
// The doc lexer
// ---------------------------------------------------------------------------

/// Whether `[ci, cj)` are the char indices of the byte range `range` of `s`.
pub open spec fn is_char_span(s: Seq<char>, range: SourceRange, ci: int, cj: int) -> bool {
    &&& 0 <= ci <= cj <= s.len()
    &&& byte_len(s.subrange(0, ci)) == range.start_offset
    &&& byte_len(s.subrange(ci, cj)) == range.length
}

/// The tokens that the doc lexer reads in `s` from `i` on, starting in
/// state `st`: kind, first char and end.
pub open spec fn spec_doc_tokens(
    st: LuaDocLexerState,
    s: Seq<char>,
    i: int,
    origin: LuaTokenKind,
) -> Seq<(LuaTokenKind, int, int)>
    decreases s.len() - i,
{
    if i < 0 || char_at(s, i) == EOF {
        seq![]
    } else {
        let (k, e) = spec_lex_state(st, s, i, origin);
        if i < e <= s.len() {
            seq![(k, i, e)] + spec_doc_tokens(spec_next_state(st, s[i]), s, e, origin)
        } else {
            seq![]
        }
    }
}

/// The doc lexer loses no text: its tokens from char `i` on lie end to end,
/// the first starting at `i` and the last ending where the text ends (at
/// its end or at a NUL char), where the reader then stands at its end; there
/// are none exactly when the text ends at `i`.
pub proof fn lemma_doc_tokens_tile(st: LuaDocLexerState, s: Seq<char>, i: int, origin: LuaTokenKind)
    requires
        0 <= i <= s.len(),
    ensures
        ({
            let t = spec_doc_tokens(st, s, i, origin);
            &&& (t.len() == 0 <==> char_at(s, i) == EOF)
            &&& (t.len() > 0 ==> t[0].1 == i)
            &&& (forall|k: int| 0 <= k < t.len() - 1 ==> #[trigger] t[k].2 == t[k + 1].1)
            &&& (forall|k: int| 0 <= k < t.len() ==> t[k].1 < #[trigger] t[k].2 <= s.len())
            &&& (t.len() > 0 ==> char_at(s, t[t.len() - 1].2) == EOF)
        }),
    decreases s.len() - i,
{
    if char_at(s, i) != EOF {
        lemma_doc_token_progress(st, s, i, origin);
        let (k0, e) = spec_lex_state(st, s, i, origin);
        let st2 = spec_next_state(st, s[i]);
        lemma_doc_tokens_tile(st2, s, e, origin);
        let rest = spec_doc_tokens(st2, s, e, origin);
        let t = spec_doc_tokens(st, s, i, origin);
        assert(t == seq![(k0, i, e)] + rest);
        assert forall|k: int| 0 <= k < t.len() - 1 implies #[trigger] t[k].2 == t[k + 1].1 by {
            assert(t[k + 1] == rest[k]);
            if k > 0 {
                assert(t[k] == rest[k - 1]);
            }
        }
        assert forall|k: int| 0 <= k < t.len() implies t[k].1 < #[trigger] t[k].2 <= s.len() by {
            if k > 0 {
                assert(t[k] == rest[k - 1]);
            }
        }
        if rest.len() > 0 {
            assert(t[t.len() - 1] == rest[rest.len() - 1]);
        }
    }
}

/// A byte range spans at most one run of chars.
pub proof fn lemma_char_span_unique(s: Seq<char>, range: SourceRange, ci: int, cj: int, di: int, dj: int)
    requires
        is_char_span(s, range, ci, cj),
        is_char_span(s, range, di, dj),
    ensures
        ci == di,
        cj == dj,
{
    if ci < di {
        crate::text::char_width::lemma_byte_len_split(s, 0, ci, di);
        crate::text::char_width::lemma_byte_len_at_least_len(s.subrange(ci, di));
    }
    if di < ci {
        crate::text::char_width::lemma_byte_len_split(s, 0, di, ci);
        crate::text::char_width::lemma_byte_len_at_least_len(s.subrange(di, ci));
    }
    if cj < dj {
        crate::text::char_width::lemma_byte_len_split(s, ci, cj, dj);
        crate::text::char_width::lemma_byte_len_at_least_len(s.subrange(cj, dj));
    }
    if dj < cj {
        crate::text::char_width::lemma_byte_len_split(s, ci, dj, cj);
        crate::text::char_width::lemma_byte_len_at_least_len(s.subrange(dj, cj));
    }
}

/// Whether the byte range `range` of `s` starts and ends on char boundaries.
pub open spec fn is_char_range(s: Seq<char>, range: SourceRange) -> bool {
    exists|ci: int, cj: int| is_char_span(s, range, ci, cj)
}

/// Finds the char indices of a byte range that lies on char boundaries.
fn find_char_span(s: &Vec<char>, range: SourceRange) -> (r: (usize, usize))
    requires
        is_char_range(s@, range),
    ensures
        is_char_span(s@, range, r.0 as int, r.1 as int),
{
    let ghost w = choose|ci: int, cj: int| is_char_span(s@, range, ci, cj);
    let ghost wi = w.0;
    let ghost wj = w.1;
    proof {
        crate::text::char_width::lemma_byte_len_subrange_bound(s@, wi, wj);
    }
    let mut i: usize = 0;
    let mut acc: usize = 0;
    while acc < range.start_offset && i < s.len()
        invariant
            is_char_span(s@, range, wi, wj),
            0 <= i <= wi,
            acc == byte_len(s@.subrange(0, i as int)),
            acc <= range.start_offset,
        decreases s.len() - i,
    {
        proof {
            crate::text::char_width::lemma_byte_len_split(s@, 0, i as int, wi);
            if i == wi {
                assert(false);
            }
            crate::text::char_width::lemma_byte_len_split(s@, 0, i as int, i + 1);
            crate::text::char_width::lemma_byte_len_single(s@[i as int]);
            assert(s@.subrange(i as int, i + 1) =~= seq![s@[i as int]]);
            crate::text::char_width::lemma_byte_len_split(s@, 0, i + 1, wi);
            crate::text::char_width::lemma_byte_len_at_least_len(s@.subrange(i + 1, wi));
        }
        acc = acc + crate::text::char_width::len_utf8(s[i]);
        i += 1;
    }
    proof {
        crate::text::char_width::lemma_byte_len_split(s@, 0, i as int, wi);
        crate::text::char_width::lemma_byte_len_at_least_len(s@.subrange(i as int, wi));
    }
    assert(i == wi);
    let mut j: usize = i;
    let mut len: usize = 0;
    while len < range.length && j < s.len()
        invariant
            is_char_span(s@, range, wi, wj),
            i == wi,
            i <= j <= wj,
            len == byte_len(s@.subrange(i as int, j as int)),
            len <= range.length,
        decreases s.len() - j,
    {
        proof {
            crate::text::char_width::lemma_byte_len_split(s@, i as int, j as int, wj);
            if j == wj {
                assert(false);
            }
            crate::text::char_width::lemma_byte_len_split(s@, i as int, j as int, j + 1);
            crate::text::char_width::lemma_byte_len_single(s@[j as int]);
            assert(s@.subrange(j as int, j + 1) =~= seq![s@[j as int]]);
            crate::text::char_width::lemma_byte_len_split(s@, i as int, j + 1, wj);
            crate::text::char_width::lemma_byte_len_at_least_len(s@.subrange(j + 1, wj));
        }
        len = len + crate::text::char_width::len_utf8(s[j]);
        j += 1;
    }
    proof {
        crate::text::char_width::lemma_byte_len_split(s@, i as int, j as int, wj);
        crate::text::char_width::lemma_byte_len_at_least_len(s@.subrange(j as int, wj));
    }
    (i, j)
}

/// Copies `s[from..to]`.
fn copy_chars(s: &Vec<char>, from: usize, to: usize) -> (v: Vec<char>)
    requires
        from <= to <= s.len(),
    ensures
        v@ == s@.subrange(from as int, to as int),
{
    let mut v: Vec<char> = Vec::new();
    let mut i = from;
    while i < to
        invariant
            from <= i <= to <= s.len(),
            v@ == s@.subrange(from as int, i as int),
        decreases to - i,
    {
        v.push(s[i]);
        assert(s@.subrange(from as int, i + 1) =~= s@.subrange(from as int, i as int).push(
            s@[i as int],
        ));
        i += 1;
    }
    v
}

/// The lexer for the text of comment tokens.  It is reset to one comment
/// token (a range of the origin text) at a time, and reads it in the
/// current `state`.
#[derive(Debug)]
pub struct LuaDocLexer {
    origin_text: Vec<char>,
    origin_token_kind: LuaTokenKind,
    state: LuaDocLexerState,
    reader: Option<Reader>,
    reader_char_start: usize,
}

impl LuaDocLexer {
    pub closed spec fn rdr(&self) -> Option<Reader> {
        self.reader
    }

    pub closed spec fn st(&self) -> LuaDocLexerState {
        self.state
    }

    pub closed spec fn origin(&self) -> Seq<char> {
        self.origin_text@
    }

    pub closed spec fn origin_kind(&self) -> LuaTokenKind {
        self.origin_token_kind
    }

    /// Index in the origin text of the first char of the reader's text.
    pub closed spec fn char_start(&self) -> int {
        self.reader_char_start as int
    }

    pub open spec fn wf(&self) -> bool {
        &&& self.origin().len() <= usize::MAX
        &&& byte_len(self.origin()) <= usize::MAX
        &&& (self.rdr() matches Some(r) ==> {
            &&& r.wf()
            &&& 0 <= self.char_start()
            &&& self.char_start() + r.chars().len() <= self.origin().len()
            &&& r.chars() == self.origin().subrange(
                self.char_start(),
                self.char_start() + r.chars().len(),
            )
            &&& r.valid().start_offset == byte_len(self.origin().subrange(0, self.char_start()))
        })
    }

    /// The reader, which the lexer must have.
    pub open spec fn rd(&self) -> Reader {
        self.rdr()->0
    }

    /// Same origin, origin kind and reader text; only positions and state may differ.
    pub open spec fn same_source(&self, other: &LuaDocLexer) -> bool {
        &&& self.origin() == other.origin()
        &&& self.origin_kind() == other.origin_kind()
        &&& self.char_start() == other.char_start()
        &&& (self.rdr() is Some <==> other.rdr() is Some)
        &&& (self.rdr() is Some ==> self.rd().same_text(&other.rd()))
    }

    pub fn new(origin_text: &str) -> (r: LuaDocLexer)
        ensures
            r.wf(),
            r.origin() == origin_text@,
            r.rdr() is None,
            r.origin_kind() == LuaTokenKind::NoneKind,
            r.st() == LuaDocLexerState::Init,
    {
        let chars = crate::text::strings::str_to_chars(origin_text);
        let _n = chars.len();
        let _b = origin_text.as_bytes().len();
        proof {
            crate::text::char_width::lemma_byte_len_encode(origin_text@);
        }
        LuaDocLexer {
            origin_text: chars,
            reader: None,
            origin_token_kind: LuaTokenKind::NoneKind,
            state: LuaDocLexerState::Init,
            reader_char_start: 0,
        }
    }

    /// A lexer over `chars` (the origin text already split into chars).
    pub fn from_chars(chars: Vec<char>) -> (r: LuaDocLexer)
        requires
            byte_len(chars@) <= usize::MAX,
        ensures
            r.wf(),
            r.origin() == chars@,
            r.rdr() is None,
            r.origin_kind() == LuaTokenKind::NoneKind,
            r.st() == LuaDocLexerState::Init,
    {
        let _n = chars.len();
        LuaDocLexer {
            origin_text: chars,
            reader: None,
            origin_token_kind: LuaTokenKind::NoneKind,
            state: LuaDocLexerState::Init,
            reader_char_start: 0,
        }
    }

    /// Whether there is nothing left to read in the current comment token.
    pub fn is_invalid(&self) -> (r: bool)
        requires
            self.wf(),
        ensures
            r == match self.rdr() {
                Some(rd) => rd.eof(),
                None => true,
            },
    {
        match &self.reader {
            Some(reader) => reader.is_eof(),
            None => true,
        }
    }

    /// Starts reading the comment token of kind `kind` that spans `range`.
    pub fn reset(&mut self, kind: LuaTokenKind, range: SourceRange)
        requires
            old(self).wf(),
            is_char_range(old(self).origin(), range),
        ensures
            final(self).wf(),
            final(self).origin() == old(self).origin(),
            final(self).origin_kind() == kind,
            final(self).st() == old(self).st(),
            final(self).rdr() is Some,
            final(self).rd().valid() == range,
            final(self).rd().pos() == 0,
            final(self).rd().buf_start() == 0,
            is_char_span(
                final(self).origin(),
                range,
                final(self).char_start(),
                final(self).char_start() + final(self).rd().chars().len(),
            ),
    {
        let (ci, cj) = find_char_span(&self.origin_text, range);
        proof {
            crate::text::char_width::lemma_byte_len_subrange_bound(self.origin_text@, ci as int, cj as int);
        }
        let text = copy_chars(&self.origin_text, ci, cj);
        self.reader = Some(Reader::from_chars(text, range));
        self.reader_char_start = ci;
        self.origin_token_kind = kind;
    }

    /// The range of the last token read.
    pub fn current_token_range(&self) -> (r: SourceRange)
        requires
            self.wf(),
            self.rdr() is Some,
        ensures
            r == self.rd().spec_current_range(),
            r.wf(),
    {
        match &self.reader {
            Some(reader) => reader.current_range(),
            None => SourceRange::empty(),
        }
    }

    /// Reads the next token; `TkEof` when the comment token is exhausted.
    pub fn lex(&mut self) -> (k: LuaTokenKind)
        requires
            old(self).wf(),
            old(self).rdr() is Some,
        ensures
            final(self).wf(),
            final(self).same_source(old(self)),
            final(self).rd().buf_start() == old(self).rd().pos(),
            old(self).rd().eof() ==> k == LuaTokenKind::TkEof && final(self).rd().pos() == old(
                self,
            ).rd().pos() && final(self).st() == old(self).st(),
            !old(self).rd().eof() ==> ({
                let res = spec_lex_state(
                    old(self).st(),
                    old(self).rd().chars(),
                    old(self).rd().pos(),
                    old(self).origin_kind(),
                );
                &&& k == res.0
                &&& final(self).rd().pos() == res.1
                &&& final(self).st() == spec_next_state(
                    old(self).st(),
                    old(self).rd().cur(),
                )
            }),
            spec_doc_tokens(old(self).st(), old(self).rd().chars(), old(self).rd().pos(), old(self).origin_kind())
                == if old(self).rd().eof() {
                seq![]
            } else {
                seq![(k, old(self).rd().pos(), final(self).rd().pos())] + spec_doc_tokens(
                    final(self).st(),
                    final(self).rd().chars(),
                    final(self).rd().pos(),
                    final(self).origin_kind(),
                )
            },
    {
        proof {
            let r = self.rd();
            if r.pos() < r.chars().len() && r.chars()[r.pos()] != EOF {
                lemma_doc_token_progress(self.st(), r.chars(), r.pos(), self.origin_kind());
            }
        }
        let mut reader = self.reader.take().unwrap();
        reader.reset_buff();
        if reader.is_eof() {
            self.reader = Some(reader);
            return LuaTokenKind::TkEof;
        }
        let origin = self.origin_token_kind;
        let k = match self.state {
            LuaDocLexerState::Init => lex_init(&mut reader, origin),
            LuaDocLexerState::Tag => {
                let c = reader.current_char();
                let k = lex_tag(&mut reader);
                if !is_doc_whitespace(c) && !is_name_start(c) && c == '[' {
                    self.state = LuaDocLexerState::AttributeUse;
                }
                k
            },
            LuaDocLexerState::Normal => lex_normal(&mut reader, origin),
            LuaDocLexerState::FieldStart => lex_field_start(&mut reader, origin),
            LuaDocLexerState::Description => lex_description(&mut reader, origin),
            LuaDocLexerState::LongDescription => lex_long_description(&mut reader),
            LuaDocLexerState::Trivia => {
                eat_rest(&mut reader);
                LuaTokenKind::TkDocTrivia
            },
            LuaDocLexerState::See => lex_see(&mut reader),
            LuaDocLexerState::Version => lex_version(&mut reader, origin),
            LuaDocLexerState::Source => lex_source(&mut reader, origin),
            LuaDocLexerState::NormalDescription => lex_normal_description(&mut reader, origin),
            LuaDocLexerState::CastExpr => lex_cast_expr(&mut reader, origin),
            LuaDocLexerState::AttributeUse => lex_attribute_use(&mut reader),
            LuaDocLexerState::Mapped => lex_mapped(&mut reader, origin),
            LuaDocLexerState::Extends => lex_extends(&mut reader, origin),
        };
        self.reader = Some(reader);
        k
    }

    /// A copy of the lexer, for looking ahead.
    pub fn duplicate(&self) -> (r: LuaDocLexer)
        requires
            self.wf(),
        ensures
            r.wf(),
            r.same_source(self),
            r.st() == self.st(),
            r.rdr() is Some ==> r.rd().pos() == self.rd().pos() && r.rd().buf_start()
                == self.rd().buf_start(),
    {
        let reader = match &self.reader {
            Some(rd) => Some(rd.duplicate()),
            None => None,
        };
        let origin_text = copy_chars(&self.origin_text, 0, self.origin_text.len());
        assert(self.origin_text@.subrange(0, self.origin_text@.len() as int) =~= self.origin_text@);
        LuaDocLexer {
            origin_text,
            origin_token_kind: self.origin_token_kind,
            state: self.state,
            reader,
            reader_char_start: self.reader_char_start,
        }
    }

    /// Whether the lexer has been reset to a comment token.
    pub fn has_reader(&self) -> (b: bool)
        ensures
            b == self.rdr() is Some,
    {
        self.reader.is_some()
    }

    /// The origin text.
    pub fn origin_chars(&self) -> (v: &Vec<char>)
        ensures
            v@ == self.origin(),
    {
        &self.origin_text
    }

    /// Switches the lexer to reading in `state`.
    pub fn set_state(&mut self, state: LuaDocLexerState)
        ensures
            final(self).st() == state,
            final(self).rdr() == old(self).rdr(),
            final(self).origin() == old(self).origin(),
            final(self).origin_kind() == old(self).origin_kind(),
            final(self).char_start() == old(self).char_start(),
    {
        self.state = state;
    }

    pub fn get_state(&self) -> (s: LuaDocLexerState)
        ensures
            s == self.st(),
    {
        self.state
    }
}

} // verus!
