use vstd::prelude::*;

use super::lex_spec::char_at;
use super::lex_spec::doc_whitespace;
use super::lua_doc_lexer::is_doc_whitespace;
use super::lex_spec::step;
use super::lexer_config::LexerConfig;
use super::token_data::LuaTokenData;
use super::unicode::is_name_continue;
use super::unicode::is_name_start;
use super::unicode::spec_is_name_continue;
use super::unicode::spec_is_name_start;
use crate::kind::lua_language_level::level_rank;
use crate::kind::lua_language_level::LuaLanguageLevel;
use crate::kind::lua_non_std_symbol::LuaNonStdSymbol;
use crate::kind::lua_operator_kind::{BinaryOperator, UnaryOperator, spec_binary_operator, spec_unary_operator};
use crate::kind::lua_token_kind::LuaTokenKind;
use crate::parser::parser_error::LuaParseError;
use crate::parser::parser_error::LuaParseErrorKind;
use crate::text::reader::eq_char;
use crate::text::reader::run_end;
use crate::text::reader::Reader;
use crate::text::reader::EOF;
use crate::text::text_range::SourceRange;

verus! {

// ---------------------------------------------------------------------------
// The token rules of Lua, as functions of the text `s` and the index `i`
// where a token starts; each gives the token's kind and the index past it.
// ---------------------------------------------------------------------------

pub open spec fn supports(cfg: LexerConfig, sym: LuaNonStdSymbol) -> bool {
    cfg.non_std_symbols.contents().contains(sym)
}

pub open spec fn not_newline() -> spec_fn(char) -> bool {
    |c: char| c != '\n' && c != '\r'
}

pub open spec fn blank() -> spec_fn(char) -> bool {
    |c: char| c == ' ' || c == '\t'
}

/// The end of a long bracket body that started at `j`, closed by `]`, `sep`
/// `=` and `]` (or the end of the text).
pub open spec fn long_string_end(s: Seq<char>, j: int, sep: int) -> int
    decreases s.len() - j,
{
    if j < 0 || j >= s.len() || s[j] == EOF {
        j
    } else if s[j] == ']' {
        let k = run_end(s, j + 1, eq_char('='));
        if k - (j + 1) == sep && char_at(s, k) == ']' {
            k + 1
        } else if j < k <= s.len() {
            long_string_end(s, k, sep)
        } else {
            j
        }
    } else {
        long_string_end(s, j + 1, sep)
    }
}

/// The end of a quoted string whose body starts at `j`: an escape takes the
/// char after the backslash (a line end whole, and after `z` the blanks and
/// line ends that follow).
pub open spec fn quoted_end(s: Seq<char>, j: int, q: char) -> int
    decreases s.len() - j,
{
    if j < 0 || j >= s.len() || s[j] == EOF {
        j
    } else if s[j] == q {
        j + 1
    } else if s[j] == '\\' {
        let k = j + 1;
        if char_at(s, k) == '\r' && char_at(s, k + 1) == '\n' {
            quoted_end(s, k + 2, q)
        } else if char_at(s, k) == 'z' {
            proof {
                crate::text::reader::lemma_run_end(s, k + 1, doc_whitespace());
            }
            quoted_end(s, run_end(s, k + 1, doc_whitespace()), q)
        } else if char_at(s, k) != EOF {
            quoted_end(s, k + 1, q)
        } else {
            k
        }
    } else if s[j] == '\n' || s[j] == '\r' {
        j
    } else {
        quoted_end(s, j + 1, q)
    }
}

/// The end of a `/* ... */` comment whose body starts at `j`.
pub open spec fn block_comment_end(s: Seq<char>, j: int) -> int
    decreases s.len() - j,
{
    if j < 0 || j >= s.len() || s[j] == EOF {
        j
    } else if s[j] == '*' && char_at(s, j + 1) == '/' {
        j + 2
    } else {
        block_comment_end(s, j + 1)
    }
}

/// States of a number literal.
#[derive(Debug, Clone, Copy, PartialEq, Eq, Structural)]
pub enum NumberState {
    Int,
    Float,
    Hex,
    HexFloat,
    WithExpo,
    Bin,
}

pub open spec fn is_hex(c: char) -> bool {
    ('0' <= c <= '9') || ('a' <= c <= 'f') || ('A' <= c <= 'F')
}

/// Past an exponent mark at `j`: the mark and an optional sign.
pub open spec fn after_expo_mark(s: Seq<char>, j: int) -> int {
    if char_at(s, j + 1) == '+' || char_at(s, j + 1) == '-' {
        j + 2
    } else {
        j + 1
    }
}

/// One step of reading a number in state `st` at `j`: the next index and
/// state, or `None` when the number ends at `j`.
pub open spec fn number_step(s: Seq<char>, j: int, st: NumberState) -> Option<(int, NumberState)> {
    let c = char_at(s, j);
    if c == EOF {
        None
    } else {
        match st {
            NumberState::Int => if '0' <= c <= '9' {
                Some((j + 1, NumberState::Int))
            } else if c == '.' {
                Some((j + 1, NumberState::Float))
            } else if c == 'e' || c == 'E' {
                Some((after_expo_mark(s, j), NumberState::WithExpo))
            } else {
                None
            },
            NumberState::Float => if '0' <= c <= '9' {
                Some((j + 1, NumberState::Float))
            } else if c == 'e' || c == 'E' {
                Some((after_expo_mark(s, j), NumberState::WithExpo))
            } else {
                None
            },
            NumberState::Hex => if is_hex(c) {
                Some((j + 1, NumberState::Hex))
            } else if c == '.' {
                Some((j + 1, NumberState::HexFloat))
            } else if c == 'p' || c == 'P' {
                Some((after_expo_mark(s, j), NumberState::WithExpo))
            } else {
                None
            },
            NumberState::HexFloat => if is_hex(c) {
                Some((j + 1, NumberState::HexFloat))
            } else if c == 'p' || c == 'P' {
                Some((after_expo_mark(s, j), NumberState::WithExpo))
            } else {
                None
            },
            NumberState::WithExpo => if '0' <= c <= '9' {
                Some((j + 1, NumberState::WithExpo))
            } else {
                None
            },
            NumberState::Bin => if c == '0' || c == '1' {
                Some((j + 1, NumberState::Bin))
            } else {
                None
            },
        }
    }
}

/// Where a number being read in state `st` at `j` ends, and its final state.
pub open spec fn number_end(s: Seq<char>, j: int, st: NumberState) -> (int, NumberState)
    decreases s.len() - j,
{
    match number_step(s, j, st) {
        Some((k, st2)) => if j < k <= s.len() {
            number_end(s, k, st2)
        } else {
            (j, st)
        },
        None => (j, st),
    }
}

/// A number that starts at `i` (with a digit, or with `.` and a digit).
pub open spec fn spec_number(s: Seq<char>, i: int, cfg: LexerConfig) -> (LuaTokenKind, int) {
    let first = char_at(s, i);
    let j = i + 1;
    let (j0, st0) = if first == '0' && (char_at(s, j) == 'x' || char_at(s, j) == 'X') {
        (j + 1, NumberState::Hex)
    } else if first == '0' && (char_at(s, j) == 'b' || char_at(s, j) == 'B')
        && cfg.language_level == LuaLanguageLevel::LuaJIT {
        (j + 1, NumberState::Bin)
    } else if first == '.' {
        (j, NumberState::Float)
    } else {
        (j, NumberState::Int)
    };
    let (e, st) = number_end(s, j0, st0);
    let is_int = st == NumberState::Int || st == NumberState::Hex || st == NumberState::Bin;
    if cfg.language_level == LuaLanguageLevel::LuaJIT && char_at(s, e) == 'i' {
        (LuaTokenKind::TkComplex, e + 1)
    } else if cfg.language_level == LuaLanguageLevel::LuaJIT && (st == NumberState::Int || st
        == NumberState::Hex) {
        let e1 = if char_at(s, e) == 'u' || char_at(s, e) == 'U' {
            e + 1
        } else {
            e
        };
        if (char_at(s, e1) == 'l' || char_at(s, e1) == 'L') && (char_at(s, e1 + 1) == 'l'
            || char_at(s, e1 + 1) == 'L') {
            (LuaTokenKind::TkInt, e1 + 2)
        } else {
            (LuaTokenKind::TkInt, e)
        }
    } else if is_int {
        (LuaTokenKind::TkInt, e)
    } else {
        (LuaTokenKind::TkFloat, e)
    }
}

/// The kind of a name: a keyword, or `TkName`.
pub open spec fn spec_name_kind(t: Seq<char>, cfg: LexerConfig) -> LuaTokenKind {
    if t == "and"@ {
        LuaTokenKind::TkAnd
    } else if t == "break"@ {
        LuaTokenKind::TkBreak
    } else if t == "do"@ {
        LuaTokenKind::TkDo
    } else if t == "else"@ {
        LuaTokenKind::TkElse
    } else if t == "elseif"@ {
        LuaTokenKind::TkElseIf
    } else if t == "end"@ {
        LuaTokenKind::TkEnd
    } else if t == "false"@ {
        LuaTokenKind::TkFalse
    } else if t == "for"@ {
        LuaTokenKind::TkFor
    } else if t == "function"@ {
        LuaTokenKind::TkFunction
    } else if t == "goto"@ {
        if level_rank(cfg.language_level) >= level_rank(LuaLanguageLevel::Lua52)
            || cfg.language_level == LuaLanguageLevel::LuaJIT {
            LuaTokenKind::TkGoto
        } else {
            LuaTokenKind::TkName
        }
    } else if t == "if"@ {
        LuaTokenKind::TkIf
    } else if t == "in"@ {
        LuaTokenKind::TkIn
    } else if t == "local"@ {
        LuaTokenKind::TkLocal
    } else if t == "nil"@ {
        LuaTokenKind::TkNil
    } else if t == "not"@ {
        LuaTokenKind::TkNot
    } else if t == "or"@ {
        LuaTokenKind::TkOr
    } else if t == "repeat"@ {
        LuaTokenKind::TkRepeat
    } else if t == "return"@ {
        LuaTokenKind::TkReturn
    } else if t == "then"@ {
        LuaTokenKind::TkThen
    } else if t == "true"@ {
        LuaTokenKind::TkTrue
    } else if t == "until"@ {
        LuaTokenKind::TkUntil
    } else if t == "while"@ {
        LuaTokenKind::TkWhile
    } else if t == "continue"@ && supports(cfg, LuaNonStdSymbol::Continue) {
        LuaTokenKind::TkBreak
    } else {
        LuaTokenKind::TkName
    }
}

/// The reserved words of Lua 5.1, which every level keeps.
pub open spec fn is_lua_reserved_word(t: Seq<char>) -> bool {
    t == "and"@ || t == "break"@ || t == "do"@ || t == "else"@ || t == "elseif"@ || t == "end"@ || t == "false"@ || t == "for"@ || t == "function"@ || t == "if"@ || t == "in"@ || t == "local"@ || t == "nil"@ || t == "not"@ || t == "or"@ || t == "repeat"@ || t == "return"@ || t == "then"@ || t == "true"@ || t == "until"@ || t == "while"@
}

/// Each reserved word reads as its own keyword token, whatever the
/// configuration; `goto` is a keyword from Lua 5.2 on and in LuaJIT and a
/// name before; `continue` reads as `break` where the configuration enables
/// it; any other name reads as a name.  The keywords `and` and `or` are the
/// binary operators of those names and `not` the unary one.
pub proof fn lemma_lua_keywords(t: Seq<char>, cfg: LexerConfig)
    ensures
        t == "and"@ ==> spec_name_kind(t, cfg) == LuaTokenKind::TkAnd,
        t == "break"@ ==> spec_name_kind(t, cfg) == LuaTokenKind::TkBreak,
        t == "do"@ ==> spec_name_kind(t, cfg) == LuaTokenKind::TkDo,
        t == "else"@ ==> spec_name_kind(t, cfg) == LuaTokenKind::TkElse,
        t == "elseif"@ ==> spec_name_kind(t, cfg) == LuaTokenKind::TkElseIf,
        t == "end"@ ==> spec_name_kind(t, cfg) == LuaTokenKind::TkEnd,
        t == "false"@ ==> spec_name_kind(t, cfg) == LuaTokenKind::TkFalse,
        t == "for"@ ==> spec_name_kind(t, cfg) == LuaTokenKind::TkFor,
        t == "function"@ ==> spec_name_kind(t, cfg) == LuaTokenKind::TkFunction,
        t == "if"@ ==> spec_name_kind(t, cfg) == LuaTokenKind::TkIf,
        t == "in"@ ==> spec_name_kind(t, cfg) == LuaTokenKind::TkIn,
        t == "local"@ ==> spec_name_kind(t, cfg) == LuaTokenKind::TkLocal,
        t == "nil"@ ==> spec_name_kind(t, cfg) == LuaTokenKind::TkNil,
        t == "not"@ ==> spec_name_kind(t, cfg) == LuaTokenKind::TkNot,
        t == "or"@ ==> spec_name_kind(t, cfg) == LuaTokenKind::TkOr,
        t == "repeat"@ ==> spec_name_kind(t, cfg) == LuaTokenKind::TkRepeat,
        t == "return"@ ==> spec_name_kind(t, cfg) == LuaTokenKind::TkReturn,
        t == "then"@ ==> spec_name_kind(t, cfg) == LuaTokenKind::TkThen,
        t == "true"@ ==> spec_name_kind(t, cfg) == LuaTokenKind::TkTrue,
        t == "until"@ ==> spec_name_kind(t, cfg) == LuaTokenKind::TkUntil,
        t == "while"@ ==> spec_name_kind(t, cfg) == LuaTokenKind::TkWhile,
        t == "goto"@ ==> spec_name_kind(t, cfg) == (if level_rank(cfg.language_level) >= level_rank(
            LuaLanguageLevel::Lua52,
        ) || cfg.language_level == LuaLanguageLevel::LuaJIT {
            LuaTokenKind::TkGoto
        } else {
            LuaTokenKind::TkName
        }),
        t == "continue"@ ==> spec_name_kind(t, cfg) == (if supports(cfg, LuaNonStdSymbol::Continue) {
            LuaTokenKind::TkBreak
        } else {
            LuaTokenKind::TkName
        }),
        !is_lua_reserved_word(t) && t != "goto"@ && t != "continue"@ ==> spec_name_kind(t, cfg)
            == LuaTokenKind::TkName,
        spec_binary_operator(spec_name_kind("and"@, cfg)) == BinaryOperator::OpAnd,
        spec_binary_operator(spec_name_kind("or"@, cfg)) == BinaryOperator::OpOr,
        spec_unary_operator(spec_name_kind("not"@, cfg)) == UnaryOperator::OpNot,
{
    reveal_strlit("and");
    reveal_strlit("break");
    reveal_strlit("do");
    reveal_strlit("else");
    reveal_strlit("elseif");
    reveal_strlit("end");
    reveal_strlit("false");
    reveal_strlit("for");
    reveal_strlit("function");
    reveal_strlit("if");
    reveal_strlit("in");
    reveal_strlit("local");
    reveal_strlit("nil");
    reveal_strlit("not");
    reveal_strlit("or");
    reveal_strlit("repeat");
    reveal_strlit("return");
    reveal_strlit("then");
    reveal_strlit("true");
    reveal_strlit("until");
    reveal_strlit("while");
    reveal_strlit("goto");
    reveal_strlit("continue");
    assert("and"@.len() == 3);
    assert("break"@.len() == 5);
    assert("do"@.len() == 2);
    assert("else"@.len() == 4);
    assert("elseif"@.len() == 6);
    assert("end"@.len() == 3);
    assert("false"@.len() == 5);
    assert("for"@.len() == 3);
    assert("function"@.len() == 8);
    assert("if"@.len() == 2);
    assert("in"@.len() == 2);
    assert("local"@.len() == 5);
    assert("nil"@.len() == 3);
    assert("not"@.len() == 3);
    assert("or"@.len() == 2);
    assert("repeat"@.len() == 6);
    assert("return"@.len() == 6);
    assert("then"@.len() == 4);
    assert("true"@.len() == 4);
    assert("until"@.len() == 5);
    assert("while"@.len() == 5);
    assert("goto"@.len() == 4);
    assert("continue"@.len() == 8);
    assert("and"@[0] != "end"@[0]);
    assert("and"@[0] != "for"@[0]);
    assert("and"@[0] != "nil"@[0]);
    assert("and"@[0] != "not"@[0]);
    assert("break"@[0] != "false"@[0]);
    assert("break"@[0] != "local"@[0]);
    assert("break"@[0] != "until"@[0]);
    assert("break"@[0] != "while"@[0]);
    assert("do"@[0] != "if"@[0]);
    assert("do"@[0] != "in"@[0]);
    assert("do"@[0] != "or"@[0]);
    assert("else"@[0] != "then"@[0]);
    assert("else"@[0] != "true"@[0]);
    assert("else"@[0] != "goto"@[0]);
    assert("elseif"@[0] != "repeat"@[0]);
    assert("elseif"@[0] != "return"@[0]);
    assert("end"@[0] != "for"@[0]);
    assert("end"@[0] != "nil"@[0]);
    assert("end"@[0] != "not"@[0]);
    assert("false"@[0] != "local"@[0]);
    assert("false"@[0] != "until"@[0]);
    assert("false"@[0] != "while"@[0]);
    assert("for"@[0] != "nil"@[0]);
    assert("for"@[0] != "not"@[0]);
    assert("function"@[0] != "continue"@[0]);
    assert("if"@[1] != "in"@[1]);
    assert("if"@[0] != "or"@[0]);
    assert("in"@[0] != "or"@[0]);
    assert("local"@[0] != "until"@[0]);
    assert("local"@[0] != "while"@[0]);
    assert("nil"@[1] != "not"@[1]);
    assert("repeat"@[2] != "return"@[2]);
    assert("then"@[1] != "true"@[1]);
    assert("then"@[0] != "goto"@[0]);
    assert("true"@[0] != "goto"@[0]);
    assert("until"@[0] != "while"@[0]);
}

/// `op` followed by `=`, if that compound assignment is enabled.
pub open spec fn assign_or(
    s: Seq<char>,
    j: int,
    cfg: LexerConfig,
    sym: LuaNonStdSymbol,
    assign: LuaTokenKind,
    plain: LuaTokenKind,
) -> (LuaTokenKind, int) {
    if char_at(s, j) == '=' && supports(cfg, sym) {
        (assign, j + 1)
    } else {
        (plain, j)
    }
}

/// A single-char punctuation token, if `c` is one.
pub open spec fn spec_lua_punct(c: char) -> Option<LuaTokenKind> {
    if c == '(' {
        Some(LuaTokenKind::TkLeftParen)
    } else if c == ')' {
        Some(LuaTokenKind::TkRightParen)
    } else if c == '{' {
        Some(LuaTokenKind::TkLeftBrace)
    } else if c == '}' {
        Some(LuaTokenKind::TkRightBrace)
    } else if c == ']' {
        Some(LuaTokenKind::TkRightBracket)
    } else if c == ';' {
        Some(LuaTokenKind::TkSemicolon)
    } else if c == ',' {
        Some(LuaTokenKind::TkComma)
    } else {
        None
    }
}

pub open spec fn spec_minus(s: Seq<char>, i: int, cfg: LexerConfig) -> (LuaTokenKind, int) {
    let j = i + 1;
    if char_at(s, j) != '-' {
        assign_or(s, j, cfg, LuaNonStdSymbol::MinusAssign, LuaTokenKind::TkMinusAssign, LuaTokenKind::TkMinus)
    } else {
        let j2 = j + 1;
        if char_at(s, j2) == '[' {
            let sep_end = run_end(s, j2 + 1, eq_char('='));
            if char_at(s, sep_end) == '[' {
                (LuaTokenKind::TkLongComment, long_string_end(s, sep_end + 1, sep_end - (j2 + 1)))
            } else {
                (LuaTokenKind::TkShortComment, run_end(s, sep_end, not_newline()))
            }
        } else {
            (LuaTokenKind::TkShortComment, run_end(s, j2, not_newline()))
        }
    }
}

pub open spec fn spec_left_bracket(s: Seq<char>, i: int) -> (LuaTokenKind, int) {
    let j = i + 1;
    let sep_end = run_end(s, j, eq_char('='));
    let sep = sep_end - j;
    if sep == 0 && char_at(s, sep_end) != '[' {
        (LuaTokenKind::TkLeftBracket, j)
    } else if char_at(s, sep_end) != '[' {
        (LuaTokenKind::TkLongString, sep_end)
    } else {
        (LuaTokenKind::TkLongString, long_string_end(s, sep_end + 1, sep))
    }
}

pub open spec fn spec_slash(s: Seq<char>, i: int, cfg: LexerConfig) -> (LuaTokenKind, int) {
    let j = i + 1;
    let c = char_at(s, j);
    if c == '/' && supports(cfg, LuaNonStdSymbol::DoubleSlash) {
        (LuaTokenKind::TkShortComment, run_end(s, j + 1, not_newline()))
    } else if c == '/' {
        assign_or(s, j + 1, cfg, LuaNonStdSymbol::DoubleSlashAssign, LuaTokenKind::TkDoubleSlashAssign, LuaTokenKind::TkIDiv)
    } else if c == '*' && supports(cfg, LuaNonStdSymbol::SlashStar) {
        (LuaTokenKind::TkLongComment, block_comment_end(s, j + 1))
    } else {
        assign_or(s, j, cfg, LuaNonStdSymbol::SlashAssign, LuaTokenKind::TkSlashAssign, LuaTokenKind::TkDiv)
    }
}

pub open spec fn spec_angle(s: Seq<char>, i: int, cfg: LexerConfig, left: bool) -> (LuaTokenKind, int) {
    let j = i + 1;
    let c = char_at(s, j);
    let same = if left { '<' } else { '>' };
    if c == '=' {
        (if left { LuaTokenKind::TkLe } else { LuaTokenKind::TkGe }, j + 1)
    } else if c == same {
        if left {
            assign_or(s, j + 1, cfg, LuaNonStdSymbol::ShiftLeftAssign, LuaTokenKind::TkShiftLeftAssign, LuaTokenKind::TkShl)
        } else {
            assign_or(s, j + 1, cfg, LuaNonStdSymbol::ShiftRightAssign, LuaTokenKind::TkShiftRightAssign, LuaTokenKind::TkShr)
        }
    } else {
        (if left { LuaTokenKind::TkLt } else { LuaTokenKind::TkGt }, j)
    }
}

pub open spec fn spec_doubled(
    s: Seq<char>,
    i: int,
    cfg: LexerConfig,
    c0: char,
    double_sym: LuaNonStdSymbol,
    double_kind: LuaTokenKind,
    assign_sym: LuaNonStdSymbol,
    assign_kind: LuaTokenKind,
    plain: LuaTokenKind,
) -> (LuaTokenKind, int) {
    let j = i + 1;
    if char_at(s, j) == c0 && supports(cfg, double_sym) {
        (double_kind, j + 1)
    } else {
        assign_or(s, j, cfg, assign_sym, assign_kind, plain)
    }
}

pub open spec fn spec_exclamation(s: Seq<char>, i: int, cfg: LexerConfig) -> (LuaTokenKind, int) {
    let j = i + 1;
    if char_at(s, j) == '=' && supports(cfg, LuaNonStdSymbol::NotEqual) {
        (LuaTokenKind::TkNe, j + 1)
    } else if supports(cfg, LuaNonStdSymbol::Exclamation) {
        (LuaTokenKind::TkNot, j)
    } else {
        (LuaTokenKind::TkUnknown, j)
    }
}

/// The Lua token that starts at `i` (not past the end of the text).
pub open spec fn spec_lex_lua(s: Seq<char>, i: int, cfg: LexerConfig) -> (LuaTokenKind, int) {
    let c = char_at(s, i);
    if c == '\n' || c == '\r' {
        (LuaTokenKind::TkEndOfLine, if c == '\r' && char_at(s, i + 1) == '\n' {
            i + 2
        } else {
            i + 1
        })
    } else if c == ' ' || c == '\t' {
        (LuaTokenKind::TkWhitespace, run_end(s, i, blank()))
    } else if c == '-' {
        spec_minus(s, i, cfg)
    } else if c == '[' {
        spec_left_bracket(s, i)
    } else if c == '=' {
        if char_at(s, i + 1) == '=' {
            (LuaTokenKind::TkEq, i + 2)
        } else {
            (LuaTokenKind::TkAssign, i + 1)
        }
    } else if c == '<' {
        spec_angle(s, i, cfg, true)
    } else if c == '>' {
        spec_angle(s, i, cfg, false)
    } else if c == '~' {
        if char_at(s, i + 1) == '=' {
            (LuaTokenKind::TkNe, i + 2)
        } else {
            (LuaTokenKind::TkBitXor, i + 1)
        }
    } else if c == ':' {
        if char_at(s, i + 1) == ':' {
            (LuaTokenKind::TkDbColon, i + 2)
        } else {
            (LuaTokenKind::TkColon, i + 1)
        }
    } else if c == '"' || c == '\'' || (c == '`' && supports(cfg, LuaNonStdSymbol::Backtick)) {
        (LuaTokenKind::TkString, quoted_end(s, i + 1, c))
    } else if c == '.' {
        if char_at(s, i + 1) == '.' {
            if char_at(s, i + 2) == '.' {
                (LuaTokenKind::TkDots, i + 3)
            } else {
                (LuaTokenKind::TkConcat, i + 2)
            }
        } else if '0' <= char_at(s, i + 1) <= '9' {
            spec_number(s, i, cfg)
        } else {
            (LuaTokenKind::TkDot, i + 1)
        }
    } else if '0' <= c <= '9' {
        spec_number(s, i, cfg)
    } else if c == '/' {
        spec_slash(s, i, cfg)
    } else if c == '*' {
        assign_or(s, i + 1, cfg, LuaNonStdSymbol::StarAssign, LuaTokenKind::TkStarAssign, LuaTokenKind::TkMul)
    } else if c == '+' {
        assign_or(s, i + 1, cfg, LuaNonStdSymbol::PlusAssign, LuaTokenKind::TkPlusAssign, LuaTokenKind::TkPlus)
    } else if c == '%' {
        assign_or(s, i + 1, cfg, LuaNonStdSymbol::PercentAssign, LuaTokenKind::TkPercentAssign, LuaTokenKind::TkMod)
    } else if c == '^' {
        assign_or(s, i + 1, cfg, LuaNonStdSymbol::CaretAssign, LuaTokenKind::TkCaretAssign, LuaTokenKind::TkPow)
    } else if c == '|' {
        spec_doubled(s, i, cfg, '|', LuaNonStdSymbol::DoublePipe, LuaTokenKind::TkOr, LuaNonStdSymbol::PipeAssign, LuaTokenKind::TkPipeAssign, LuaTokenKind::TkBitOr)
    } else if c == '&' {
        spec_doubled(s, i, cfg, '&', LuaNonStdSymbol::DoubleAmp, LuaTokenKind::TkAnd, LuaNonStdSymbol::AmpAssign, LuaTokenKind::TkAmpAssign, LuaTokenKind::TkBitAnd)
    } else if c == '!' {
        spec_exclamation(s, i, cfg)
    } else if c == '#' {
        if i == 0 && char_at(s, 1) == '!' {
            (LuaTokenKind::TkShebang, run_end(s, i, not_newline()))
        } else {
            (LuaTokenKind::TkLen, i + 1)
        }
    } else if spec_lua_punct(c) is Some {
        (spec_lua_punct(c).unwrap(), i + 1)
    } else if spec_is_name_start(c) {
        let j = run_end(s, i + 1, |c: char| spec_is_name_continue(c));
        (spec_name_kind(s.subrange(i, j), cfg), j)
    } else {
        (LuaTokenKind::TkUnknown, i + 1)
    }
}


/// How the Lua manual writes each binary operator that is a symbol (not
/// `and`, `or`).
pub open spec fn lua_operator_symbol(op: BinaryOperator) -> Seq<char> {
    match op {
        BinaryOperator::OpAdd => seq!['+'],
        BinaryOperator::OpSub => seq!['-'],
        BinaryOperator::OpMul => seq!['*'],
        BinaryOperator::OpDiv => seq!['/'],
        BinaryOperator::OpIDiv => seq!['/', '/'],
        BinaryOperator::OpMod => seq!['%'],
        BinaryOperator::OpPow => seq!['^'],
        BinaryOperator::OpBAnd => seq!['&'],
        BinaryOperator::OpBOr => seq!['|'],
        BinaryOperator::OpBXor => seq!['~'],
        BinaryOperator::OpShl => seq!['<', '<'],
        BinaryOperator::OpShr => seq!['>', '>'],
        BinaryOperator::OpConcat => seq!['.', '.'],
        BinaryOperator::OpLt => seq!['<'],
        BinaryOperator::OpLe => seq!['<', '='],
        BinaryOperator::OpGt => seq!['>'],
        BinaryOperator::OpGe => seq!['>', '='],
        BinaryOperator::OpEq => seq!['=', '='],
        BinaryOperator::OpNe => seq!['~', '='],
        _ => Seq::empty(),
    }
}

/// An operator symbol followed by a blank reads as one token, whose binary
/// operator is that operator (`<<` is the shift left, `>>` the shift right,
/// `<=` less or equal, ...), in every configuration (but `//`, which some
/// configurations read as a comment).
pub proof fn lemma_operator_symbols_lex(s: Seq<char>, i: int, cfg: LexerConfig, op: BinaryOperator)
    requires
        0 <= i,
        lua_operator_symbol(op).len() > 0,
        i + lua_operator_symbol(op).len() <= s.len(),
        s.subrange(i, i + lua_operator_symbol(op).len()) == lua_operator_symbol(op),
        char_at(s, i + lua_operator_symbol(op).len()) == ' ',
        op == BinaryOperator::OpIDiv ==> !supports(cfg, LuaNonStdSymbol::DoubleSlash),
    ensures
        spec_binary_operator(spec_lex_lua(s, i, cfg).0) == op,
        spec_lex_lua(s, i, cfg).1 == i + lua_operator_symbol(op).len(),
{
    let t = lua_operator_symbol(op);
    assert(s[i] == t[0]);
    if t.len() > 1 {
        assert(s[i + 1] == t[1]);
    }
}


/// The unary operator symbols followed by a blank read as one token whose
/// unary operator is that operator: `-` negation, `~` bitwise not, `#`
/// length.
pub proof fn lemma_unary_symbols_lex(s: Seq<char>, i: int, cfg: LexerConfig)
    requires
        0 <= i < s.len(),
        char_at(s, i + 1) == ' ',
    ensures
        s[i] == '-' ==> spec_unary_operator(spec_lex_lua(s, i, cfg).0) == UnaryOperator::OpUnm,
        s[i] == '~' ==> spec_unary_operator(spec_lex_lua(s, i, cfg).0) == UnaryOperator::OpBNot,
        s[i] == '#' ==> spec_unary_operator(spec_lex_lua(s, i, cfg).0) == UnaryOperator::OpLen,
        s[i] == '-' || s[i] == '~' || s[i] == '#' ==> spec_lex_lua(s, i, cfg).1 == i + 1,
{
}

/// The punctuation of Lua followed by a blank reads as its token: `(`,
/// `)`, `{`, `}`, `[`, `]`, `;`, `,`, `:`, `::`, `.`, `...` and `=`.
pub proof fn lemma_punctuation_lex(s: Seq<char>, i: int, cfg: LexerConfig)
    requires
        0 <= i < s.len(),
    ensures
        s[i] == '(' ==> spec_lex_lua(s, i, cfg) == (LuaTokenKind::TkLeftParen, i + 1),
        s[i] == ')' ==> spec_lex_lua(s, i, cfg) == (LuaTokenKind::TkRightParen, i + 1),
        s[i] == '{' ==> spec_lex_lua(s, i, cfg) == (LuaTokenKind::TkLeftBrace, i + 1),
        s[i] == '}' ==> spec_lex_lua(s, i, cfg) == (LuaTokenKind::TkRightBrace, i + 1),
        s[i] == ']' ==> spec_lex_lua(s, i, cfg) == (LuaTokenKind::TkRightBracket, i + 1),
        s[i] == ';' ==> spec_lex_lua(s, i, cfg) == (LuaTokenKind::TkSemicolon, i + 1),
        s[i] == ',' ==> spec_lex_lua(s, i, cfg) == (LuaTokenKind::TkComma, i + 1),
        s[i] == '[' && char_at(s, i + 1) == ' ' ==> spec_lex_lua(s, i, cfg) == (LuaTokenKind::TkLeftBracket, i + 1),
        s[i] == ':' && char_at(s, i + 1) == ' ' ==> spec_lex_lua(s, i, cfg) == (LuaTokenKind::TkColon, i + 1),
        s[i] == ':' && char_at(s, i + 1) == ':' ==> spec_lex_lua(s, i, cfg) == (LuaTokenKind::TkDbColon, i + 2),
        s[i] == '.' && char_at(s, i + 1) == ' ' ==> spec_lex_lua(s, i, cfg) == (LuaTokenKind::TkDot, i + 1),
        s[i] == '.' && char_at(s, i + 1) == '.' && char_at(s, i + 2) == '.' ==> spec_lex_lua(s, i, cfg) == (
        LuaTokenKind::TkDots, i + 3),
        s[i] == '=' && char_at(s, i + 1) == ' ' ==> spec_lex_lua(s, i, cfg) == (LuaTokenKind::TkAssign, i + 1),
{
    if s[i] == '[' && char_at(s, i + 1) == ' ' {
        crate::text::reader::lemma_run_end(s, i + 1, eq_char('='));
        assert(run_end(s, i + 1, eq_char('=')) == i + 1);
    }
}

// ---------------------------------------------------------------------------
// Every token consumes at least one char
// ---------------------------------------------------------------------------

proof fn lemma_run_end_bounds(s: Seq<char>, i: int, p: spec_fn(char) -> bool)
    requires
        0 <= i <= s.len(),
    ensures
        i <= run_end(s, i, p) <= s.len(),
{
    crate::text::reader::lemma_run_end(s, i, p);
}

proof fn lemma_long_string_end(s: Seq<char>, j: int, sep: int)
    requires
        0 <= j <= s.len(),
    ensures
        j <= long_string_end(s, j, sep) <= s.len(),
    decreases s.len() - j,
{
    if j < s.len() && s[j] != EOF {
        if s[j] == ']' {
            lemma_run_end_bounds(s, j + 1, eq_char('='));
            let k = run_end(s, j + 1, eq_char('='));
            if !(k - (j + 1) == sep && char_at(s, k) == ']') && j < k <= s.len() {
                lemma_long_string_end(s, k, sep);
            }
        } else {
            lemma_long_string_end(s, j + 1, sep);
        }
    }
}

proof fn lemma_quoted_end(s: Seq<char>, j: int, q: char)
    requires
        0 <= j <= s.len(),
    ensures
        j <= quoted_end(s, j, q) <= s.len(),
    decreases s.len() - j,
{
    if j < s.len() && s[j] != EOF && s[j] != q {
        if s[j] == '\\' {
            let k = j + 1;
            if char_at(s, k) == '\r' && char_at(s, k + 1) == '\n' {
                lemma_quoted_end(s, k + 2, q);
            } else if char_at(s, k) == 'z' {
                crate::text::reader::lemma_run_end(s, k + 1, doc_whitespace());
                lemma_quoted_end(s, run_end(s, k + 1, doc_whitespace()), q);
            } else if char_at(s, k) != EOF {
                lemma_quoted_end(s, k + 1, q);
            }
        } else if s[j] != '\n' && s[j] != '\r' {
            lemma_quoted_end(s, j + 1, q);
        }
    }
}

proof fn lemma_block_comment_end(s: Seq<char>, j: int)
    requires
        0 <= j <= s.len(),
    ensures
        j <= block_comment_end(s, j) <= s.len(),
    decreases s.len() - j,
{
    if j < s.len() && s[j] != EOF && !(s[j] == '*' && char_at(s, j + 1) == '/') {
        lemma_block_comment_end(s, j + 1);
    }
}

proof fn lemma_number_end(s: Seq<char>, j: int, st: NumberState)
    requires
        0 <= j <= s.len(),
    ensures
        j <= number_end(s, j, st).0 <= s.len(),
    decreases s.len() - j,
{
    match number_step(s, j, st) {
        Some((k, st2)) => if j < k <= s.len() {
            lemma_number_end(s, k, st2);
        },
        None => {},
    }
}

/// A token that starts at a char other than NUL is not empty and stays in the text.
pub proof fn lemma_lua_token_progress(s: Seq<char>, i: int, cfg: LexerConfig)
    requires
        0 <= i < s.len(),
        s[i] != EOF,
    ensures
        i < spec_lex_lua(s, i, cfg).1 <= s.len(),
{
    let c = s[i];
    lemma_run_end_bounds(s, i, blank());
    lemma_run_end_bounds(s, i, not_newline());
    if i + 1 <= s.len() {
        lemma_run_end_bounds(s, i + 1, blank());
        if c == ' ' || c == '\t' {
            assert(run_end(s, i, blank()) == run_end(s, i + 1, blank()));
        }
        if c == '#' {
            assert(run_end(s, i, not_newline()) == run_end(s, i + 1, not_newline()));
        }
        lemma_run_end_bounds(s, i + 1, |c: char| spec_is_name_continue(c));
        lemma_run_end_bounds(s, i + 1, eq_char('='));
        lemma_quoted_end(s, i + 1, c);
        lemma_run_end_bounds(s, i + 1, not_newline());
    }
    if i + 2 <= s.len() {
        lemma_run_end_bounds(s, i + 2, eq_char('='));
        lemma_run_end_bounds(s, i + 2, not_newline());
        lemma_block_comment_end(s, i + 2);
    }
    if i + 3 <= s.len() {
        lemma_run_end_bounds(s, i + 3, eq_char('='));
        let sep_end = run_end(s, i + 3, eq_char('='));
        lemma_run_end_bounds(s, sep_end, not_newline());
        if sep_end + 1 <= s.len() {
            lemma_long_string_end(s, sep_end + 1, sep_end - (i + 3));
        }
    }
    if c == '[' {
        let sep_end = run_end(s, i + 1, eq_char('='));
        if sep_end + 1 <= s.len() {
            lemma_long_string_end(s, sep_end + 1, sep_end - (i + 1));
        }
    }
    if c == '.' || ('0' <= c <= '9') {
        lemma_number_progress(s, i, cfg);
    }
}

proof fn lemma_number_progress(s: Seq<char>, i: int, cfg: LexerConfig)
    requires
        0 <= i < s.len(),
    ensures
        i < spec_number(s, i, cfg).1 <= s.len(),
{
    let first = char_at(s, i);
    let j = i + 1;
    if first == '0' && (char_at(s, j) == 'x' || char_at(s, j) == 'X') {
        lemma_number_end(s, j + 1, NumberState::Hex);
    } else if first == '0' && (char_at(s, j) == 'b' || char_at(s, j) == 'B')
        && cfg.language_level == LuaLanguageLevel::LuaJIT {
        lemma_number_end(s, j + 1, NumberState::Bin);
    } else if first == '.' {
        lemma_number_end(s, j, NumberState::Float);
    } else {
        lemma_number_end(s, j, NumberState::Int);
    }
}

/// The tokens of `s` from `i` on: kind, first char index, index past the last char.
pub open spec fn spec_tokens(s: Seq<char>, i: int, cfg: LexerConfig) -> Seq<(LuaTokenKind, int, int)>
    decreases s.len() - i,
{
    if i < 0 || char_at(s, i) == EOF {
        seq![]
    } else {
        let (k, e) = spec_lex_lua(s, i, cfg);
        if i < e <= s.len() {
            seq![(k, i, e)] + spec_tokens(s, e, cfg)
        } else {
            seq![]
        }
    }
}


/// The lexer never reads the end of input as a token.
pub proof fn lemma_lex_lua_not_eof(s: Seq<char>, i: int, cfg: LexerConfig)
    ensures
        spec_lex_lua(s, i, cfg).0 != LuaTokenKind::TkEof,
{
}

/// No token of `spec_tokens` is the end of input.
pub proof fn lemma_spec_tokens_not_eof(s: Seq<char>, i: int, cfg: LexerConfig)
    ensures
        forall|k: int| 0 <= k < spec_tokens(s, i, cfg).len() ==> (#[trigger] spec_tokens(s, i, cfg)[k]).0
            != LuaTokenKind::TkEof,
    decreases s.len() - i,
{
    if i < 0 || char_at(s, i) == EOF {
    } else {
        let (k0, e) = spec_lex_lua(s, i, cfg);
        lemma_lex_lua_not_eof(s, i, cfg);
        if i < e <= s.len() {
            lemma_spec_tokens_not_eof(s, e, cfg);
            let t = spec_tokens(s, i, cfg);
            let rest = spec_tokens(s, e, cfg);
            assert forall|k: int| 0 <= k < t.len() implies (#[trigger] t[k]).0 != LuaTokenKind::TkEof by {
                if k > 0 {
                    assert(t[k] == rest[k - 1]);
                }
            }
        }
    }
}

/// The lexer loses no text: its tokens from char `i` on lie end to end,
/// the first starting at `i` and the last ending at the first NUL char at
/// or after `i` (or at the end of the text); there are none exactly when
/// the text ends (or holds NUL) at `i`.
pub proof fn lemma_tokens_tile(s: Seq<char>, i: int, cfg: LexerConfig)
    requires
        0 <= i <= s.len(),
    ensures
        ({
            let t = spec_tokens(s, i, cfg);
            &&& (t.len() == 0 <==> char_at(s, i) == EOF)
            &&& (t.len() > 0 ==> t[0].1 == i)
            &&& (forall|k: int| 0 <= k < t.len() - 1 ==> #[trigger] t[k].2 == t[k + 1].1)
            &&& (forall|k: int| 0 <= k < t.len() ==> t[k].1 < #[trigger] t[k].2 <= s.len())
            &&& (t.len() > 0 ==> char_at(s, t[t.len() - 1].2) == EOF)
        }),
    decreases s.len() - i,
{
    if char_at(s, i) != EOF {
        lemma_lua_token_progress(s, i, cfg);
        let (k0, e) = spec_lex_lua(s, i, cfg);
        lemma_tokens_tile(s, e, cfg);
        let rest = spec_tokens(s, e, cfg);
        let t = spec_tokens(s, i, cfg);
        assert(t == seq![(k0, i, e)] + rest);
        assert forall|k: int| 0 <= k < t.len() - 1 implies #[trigger] t[k].2 == t[k + 1].1 by {
            assert(t[k + 1] == rest[k]);
            if k > 0 {
                assert(t[k] == rest[k - 1]);
            }
        }
        assert forall|k: int| 0 <= k < t.len() implies t[k].1 < #[trigger] t[k].2 <= s.len() by {
            if k > 0 {
                assert(t[k] == rest[k - 1]);
            }
        }
        if rest.len() > 0 {
            assert(t[t.len() - 1] == rest[rest.len() - 1]);
        }
    }
}

// ---------------------------------------------------------------------------
// Reading Lua tokens
// ---------------------------------------------------------------------------

use super::lua_doc_lexer::lexed;
use super::lua_doc_lexer::at_token_start;

fn is_blank(c: char) -> (b: bool)
    ensures
        b == (c == ' ' || c == '\t'),
{
    c == ' ' || c == '\t'
}

fn is_not_newline(c: char) -> (b: bool)
    ensures
        b == (c != '\n' && c != '\r'),
{
    c != '\n' && c != '\r'
}

fn supports_exec(cfg: &LexerConfig, sym: LuaNonStdSymbol) -> (r: bool)
    ensures
        r == supports(*cfg, sym),
{
    cfg.non_std_symbols.support(sym)
}

/// Reads a long bracket body up to its closing bracket; `false` when the
/// text ends first.
fn read_long_string(r: &mut Reader, sep: usize) -> (finished: bool)
    requires
        old(r).wf(),
    ensures
        lexed(*old(r), *final(r), long_string_end(old(r).chars(), old(r).pos(), sep as int)),
{
    let ghost j0 = r.pos();
    loop
        invariant
            r.wf(),
            r.same_text(old(r)),
            r.buf_start() == old(r).buf_start(),
            j0 == old(r).pos(),
            long_string_end(r.chars(), r.pos(), sep as int) == long_string_end(r.chars(), j0, sep as int),
        ensures
            r.wf(),
            r.same_text(old(r)),
            r.buf_start() == old(r).buf_start(),
            r.pos() == long_string_end(r.chars(), j0, sep as int),
        decreases r.chars().len() - r.pos(),
    {
        if r.is_eof() {
            return false;
        }
        if r.current_char() == ']' {
            let ghost j = r.pos();
            r.bump();
            let count = r.eat_when('=');
            proof {
                lemma_run_end_bounds(r.chars(), j + 1, eq_char('='));
            }
            if count == sep && r.current_char() == ']' {
                r.bump();
                return true;
            }
        } else {
            r.bump();
        }
    }
}

/// Reads a quoted string whose opening quote `q` is the current char; `false`
/// when a line or the text ends first.
fn read_string(r: &mut Reader, q: char) -> (finished: bool)
    requires
        old(r).wf(),
        old(r).cur() == q,
        q != EOF,
    ensures
        lexed(*old(r), *final(r), quoted_end(old(r).chars(), old(r).pos() + 1, q)),
{
    r.bump();
    let ghost j0 = r.pos();
    loop
        invariant
            r.wf(),
            r.same_text(old(r)),
            r.buf_start() == old(r).buf_start(),
            j0 == old(r).pos() + 1,
            quoted_end(r.chars(), r.pos(), q) == quoted_end(r.chars(), j0, q),
        ensures
            r.wf(),
            r.same_text(old(r)),
            r.buf_start() == old(r).buf_start(),
            r.pos() == quoted_end(r.chars(), j0, q),
        decreases r.chars().len() - r.pos(),
    {
        if r.is_eof() {
            return false;
        }
        let c = r.current_char();
        if c == q {
            r.bump();
            return true;
        }
        if c == '\\' {
            r.bump();
            let c2 = r.current_char();
            if c2 == '\r' && r.next_char() == '\n' {
                r.bump();
                r.bump();
            } else if c2 == 'z' {
                r.bump();
                r.eat_while_run(is_doc_whitespace, Ghost(doc_whitespace()));
            } else if c2 != EOF {
                r.bump();
            } else {
                return false;
            }
        } else if c == '\n' || c == '\r' {
            return false;
        } else {
            r.bump();
        }
    }
}

fn read_block_comment(r: &mut Reader)
    requires
        old(r).wf(),
    ensures
        lexed(*old(r), *final(r), block_comment_end(old(r).chars(), old(r).pos())),
{
    let ghost j0 = r.pos();
    loop
        invariant
            r.wf(),
            r.same_text(old(r)),
            r.buf_start() == old(r).buf_start(),
            j0 == old(r).pos(),
            block_comment_end(r.chars(), r.pos()) == block_comment_end(r.chars(), j0),
        ensures
            r.wf(),
            r.same_text(old(r)),
            r.buf_start() == old(r).buf_start(),
            r.pos() == block_comment_end(r.chars(), j0),
        decreases r.chars().len() - r.pos(),
    {
        if r.is_eof() {
            return;
        }
        if r.current_char() == '*' && r.next_char() == '/' {
            r.bump();
            r.bump();
            return;
        }
        r.bump();
    }
}

fn is_hex_char(c: char) -> (b: bool)
    ensures
        b == is_hex(c),
{
    ('0' <= c && c <= '9') || ('a' <= c && c <= 'f') || ('A' <= c && c <= 'F')
}

/// Reads the rest of a number in state `st`; returns the final state.
fn read_number_body(r: &mut Reader, st: NumberState) -> (fin: NumberState)
    requires
        old(r).wf(),
    ensures
        lexed(*old(r), *final(r), number_end(old(r).chars(), old(r).pos(), st).0),
        fin == number_end(old(r).chars(), old(r).pos(), st).1,
{
    let mut state = st;
    let ghost j0 = r.pos();
    loop
        invariant
            r.wf(),
            r.same_text(old(r)),
            r.buf_start() == old(r).buf_start(),
            j0 == old(r).pos(),
            number_end(r.chars(), r.pos(), state) == number_end(r.chars(), j0, st),
        ensures
            r.wf(),
            r.same_text(old(r)),
            r.buf_start() == old(r).buf_start(),
            number_end(r.chars(), j0, st) == (r.pos(), state),
        decreases r.chars().len() - r.pos(),
    {
        if r.is_eof() {
            break;
        }
        let ch = r.current_char();
        let next = r.next_char();
        let is_expo_mark = match state {
            NumberState::Int | NumberState::Float => ch == 'e' || ch == 'E',
            NumberState::Hex | NumberState::HexFloat => ch == 'p' || ch == 'P',
            _ => false,
        };
        let cont: Option<NumberState> = if is_expo_mark {
            Some(NumberState::WithExpo)
        } else {
            match state {
                NumberState::Int => if '0' <= ch && ch <= '9' {
                    Some(NumberState::Int)
                } else if ch == '.' {
                    Some(NumberState::Float)
                } else {
                    None
                },
                NumberState::Float => if '0' <= ch && ch <= '9' {
                    Some(NumberState::Float)
                } else {
                    None
                },
                NumberState::Hex => if is_hex_char(ch) {
                    Some(NumberState::Hex)
                } else if ch == '.' {
                    Some(NumberState::HexFloat)
                } else {
                    None
                },
                NumberState::HexFloat => if is_hex_char(ch) {
                    Some(NumberState::HexFloat)
                } else {
                    None
                },
                NumberState::WithExpo => if '0' <= ch && ch <= '9' {
                    Some(NumberState::WithExpo)
                } else {
                    None
                },
                NumberState::Bin => if ch == '0' || ch == '1' {
                    Some(NumberState::Bin)
                } else {
                    None
                },
            }
        };
        match cont {
            None => {
                break;
            },
            Some(st2) => {
                if is_expo_mark && (next == '+' || next == '-') {
                    r.bump();
                }
                r.bump();
                state = st2;
            },
        }
    }
    state
}

fn read_number(r: &mut Reader, cfg: &LexerConfig) -> (k: LuaTokenKind)
    requires
        at_token_start(*old(r)),
    ensures
        lexed(*old(r), *final(r), spec_number(old(r).chars(), old(r).pos(), *cfg).1),
        k == spec_number(old(r).chars(), old(r).pos(), *cfg).0,
{
    let first = r.current_char();
    r.bump();
    let c = r.current_char();
    let st0 = if first == '0' && (c == 'x' || c == 'X') {
        r.bump();
        NumberState::Hex
    } else if first == '0' && (c == 'b' || c == 'B') && cfg.support_binary_integer() {
        r.bump();
        NumberState::Bin
    } else if first == '.' {
        NumberState::Float
    } else {
        NumberState::Int
    };
    let st = read_number_body(r, st0);
    if cfg.support_complex_number() && r.current_char() == 'i' {
        r.bump();
        return LuaTokenKind::TkComplex;
    }
    if cfg.support_ll_integer() && (st == NumberState::Int || st == NumberState::Hex) {
        let c = r.current_char();
        let has_u = c == 'u' || c == 'U';
        let mut probe = r.duplicate();
        if has_u {
            probe.bump();
        }
        let l1 = probe.current_char();
        let l2 = probe.next_char();
        if (l1 == 'l' || l1 == 'L') && (l2 == 'l' || l2 == 'L') {
            if has_u {
                r.bump();
            }
            r.bump();
            r.bump();
        }
        return LuaTokenKind::TkInt;
    }
    if st == NumberState::Int || st == NumberState::Hex || st == NumberState::Bin {
        LuaTokenKind::TkInt
    } else {
        LuaTokenKind::TkFloat
    }
}

fn name_kind(r: &Reader, cfg: &LexerConfig) -> (k: LuaTokenKind)
    requires
        r.wf(),
    ensures
        k == spec_name_kind(r.buffer(), *cfg),
{
    if r.buffer_eq("and") {
        LuaTokenKind::TkAnd
    } else if r.buffer_eq("break") {
        LuaTokenKind::TkBreak
    } else if r.buffer_eq("do") {
        LuaTokenKind::TkDo
    } else if r.buffer_eq("else") {
        LuaTokenKind::TkElse
    } else if r.buffer_eq("elseif") {
        LuaTokenKind::TkElseIf
    } else if r.buffer_eq("end") {
        LuaTokenKind::TkEnd
    } else if r.buffer_eq("false") {
        LuaTokenKind::TkFalse
    } else if r.buffer_eq("for") {
        LuaTokenKind::TkFor
    } else if r.buffer_eq("function") {
        LuaTokenKind::TkFunction
    } else if r.buffer_eq("goto") {
        if cfg.support_goto() {
            LuaTokenKind::TkGoto
        } else {
            LuaTokenKind::TkName
        }
    } else if r.buffer_eq("if") {
        LuaTokenKind::TkIf
    } else if r.buffer_eq("in") {
        LuaTokenKind::TkIn
    } else if r.buffer_eq("local") {
        LuaTokenKind::TkLocal
    } else if r.buffer_eq("nil") {
        LuaTokenKind::TkNil
    } else if r.buffer_eq("not") {
        LuaTokenKind::TkNot
    } else if r.buffer_eq("or") {
        LuaTokenKind::TkOr
    } else if r.buffer_eq("repeat") {
        LuaTokenKind::TkRepeat
    } else if r.buffer_eq("return") {
        LuaTokenKind::TkReturn
    } else if r.buffer_eq("then") {
        LuaTokenKind::TkThen
    } else if r.buffer_eq("true") {
        LuaTokenKind::TkTrue
    } else if r.buffer_eq("until") {
        LuaTokenKind::TkUntil
    } else if r.buffer_eq("while") {
        LuaTokenKind::TkWhile
    } else if r.buffer_eq("continue") && supports_exec(cfg, LuaNonStdSymbol::Continue) {
        LuaTokenKind::TkBreak
    } else {
        LuaTokenKind::TkName
    }
}

/// `=` after an operator, if the compound assignment is enabled.
fn lex_assign_or(
    r: &mut Reader,
    cfg: &LexerConfig,
    sym: LuaNonStdSymbol,
    assign: LuaTokenKind,
    plain: LuaTokenKind,
) -> (k: LuaTokenKind)
    requires
        old(r).wf(),
    ensures
        lexed(*old(r), *final(r), assign_or(old(r).chars(), old(r).pos(), *cfg, sym, assign, plain).1),
        k == assign_or(old(r).chars(), old(r).pos(), *cfg, sym, assign, plain).0,
{
    if r.current_char() == '=' && supports_exec(cfg, sym) {
        r.bump();
        assign
    } else {
        plain
    }
}

/// What reading one token found wrong, if anything.
#[derive(Debug, Clone, Copy, PartialEq, Eq, Structural)]
pub enum LexProblem {
    Fine,
    UnfinishedLongString,
    UnfinishedString,
    InvalidLongStringDelimiter,
}

fn lex_minus(r: &mut Reader, cfg: &LexerConfig) -> (res: (LuaTokenKind, LexProblem))
    requires
        at_token_start(*old(r)),
        old(r).cur() == '-',
    ensures
        lexed(*old(r), *final(r), spec_minus(old(r).chars(), old(r).pos(), *cfg).1),
        res.0 == spec_minus(old(r).chars(), old(r).pos(), *cfg).0,
{
    r.bump();
    if r.current_char() != '-' {
        let k = lex_assign_or(r, cfg, LuaNonStdSymbol::MinusAssign, LuaTokenKind::TkMinusAssign, LuaTokenKind::TkMinus);
        return (k, LexProblem::Fine);
    }
    r.bump();
    if r.current_char() == '[' {
        r.bump();
        let sep = r.eat_when('=');
        if r.current_char() == '[' {
            r.bump();
            let finished = read_long_string(r, sep);
            return (LuaTokenKind::TkLongComment, if finished {
                LexProblem::Fine
            } else {
                LexProblem::UnfinishedLongString
            });
        }
    }
    r.eat_while_run(is_not_newline, Ghost(not_newline()));
    (LuaTokenKind::TkShortComment, LexProblem::Fine)
}

fn lex_left_bracket(r: &mut Reader) -> (res: (LuaTokenKind, LexProblem))
    requires
        at_token_start(*old(r)),
        old(r).cur() == '[',
    ensures
        lexed(*old(r), *final(r), spec_left_bracket(old(r).chars(), old(r).pos()).1),
        res.0 == spec_left_bracket(old(r).chars(), old(r).pos()).0,
{
    r.bump();
    let sep = r.eat_when('=');
    if sep == 0 && r.current_char() != '[' {
        return (LuaTokenKind::TkLeftBracket, LexProblem::Fine);
    }
    if r.current_char() != '[' {
        return (LuaTokenKind::TkLongString, LexProblem::InvalidLongStringDelimiter);
    }
    r.bump();
    let finished = read_long_string(r, sep);
    (LuaTokenKind::TkLongString, if finished {
        LexProblem::Fine
    } else {
        LexProblem::UnfinishedLongString
    })
}

fn lex_slash(r: &mut Reader, cfg: &LexerConfig) -> (k: LuaTokenKind)
    requires
        at_token_start(*old(r)),
        old(r).cur() == '/',
    ensures
        lexed(*old(r), *final(r), spec_slash(old(r).chars(), old(r).pos(), *cfg).1),
        k == spec_slash(old(r).chars(), old(r).pos(), *cfg).0,
{
    r.bump();
    let c = r.current_char();
    if c == '/' && supports_exec(cfg, LuaNonStdSymbol::DoubleSlash) {
        r.bump();
        r.eat_while_run(is_not_newline, Ghost(not_newline()));
        LuaTokenKind::TkShortComment
    } else if c == '/' {
        r.bump();
        lex_assign_or(r, cfg, LuaNonStdSymbol::DoubleSlashAssign, LuaTokenKind::TkDoubleSlashAssign, LuaTokenKind::TkIDiv)
    } else if c == '*' && supports_exec(cfg, LuaNonStdSymbol::SlashStar) {
        r.bump();
        read_block_comment(r);
        LuaTokenKind::TkLongComment
    } else {
        lex_assign_or(r, cfg, LuaNonStdSymbol::SlashAssign, LuaTokenKind::TkSlashAssign, LuaTokenKind::TkDiv)
    }
}

fn lex_angle(r: &mut Reader, cfg: &LexerConfig, left: bool) -> (k: LuaTokenKind)
    requires
        at_token_start(*old(r)),
        old(r).cur() == if left { '<' } else { '>' },
    ensures
        lexed(*old(r), *final(r), spec_angle(old(r).chars(), old(r).pos(), *cfg, left).1),
        k == spec_angle(old(r).chars(), old(r).pos(), *cfg, left).0,
{
    r.bump();
    let c = r.current_char();
    let same = if left { '<' } else { '>' };
    if c == '=' {
        r.bump();
        if left {
            LuaTokenKind::TkLe
        } else {
            LuaTokenKind::TkGe
        }
    } else if c == same {
        r.bump();
        if left {
            lex_assign_or(r, cfg, LuaNonStdSymbol::ShiftLeftAssign, LuaTokenKind::TkShiftLeftAssign, LuaTokenKind::TkShl)
        } else {
            lex_assign_or(r, cfg, LuaNonStdSymbol::ShiftRightAssign, LuaTokenKind::TkShiftRightAssign, LuaTokenKind::TkShr)
        }
    } else if left {
        LuaTokenKind::TkLt
    } else {
        LuaTokenKind::TkGt
    }
}

fn lex_doubled(
    r: &mut Reader,
    cfg: &LexerConfig,
    c0: char,
    double_sym: LuaNonStdSymbol,
    double_kind: LuaTokenKind,
    assign_sym: LuaNonStdSymbol,
    assign_kind: LuaTokenKind,
    plain: LuaTokenKind,
) -> (k: LuaTokenKind)
    requires
        at_token_start(*old(r)),
        old(r).cur() == c0,
    ensures
        lexed(
            *old(r),
            *final(r),
            spec_doubled(old(r).chars(), old(r).pos(), *cfg, c0, double_sym, double_kind, assign_sym, assign_kind, plain).1,
        ),
        k == spec_doubled(old(r).chars(), old(r).pos(), *cfg, c0, double_sym, double_kind, assign_sym, assign_kind, plain).0,
{
    r.bump();
    if r.current_char() == c0 && supports_exec(cfg, double_sym) {
        r.bump();
        double_kind
    } else {
        lex_assign_or(r, cfg, assign_sym, assign_kind, plain)
    }
}

fn lex_exclamation(r: &mut Reader, cfg: &LexerConfig) -> (k: LuaTokenKind)
    requires
        at_token_start(*old(r)),
        old(r).cur() == '!',
    ensures
        lexed(*old(r), *final(r), spec_exclamation(old(r).chars(), old(r).pos(), *cfg).1),
        k == spec_exclamation(old(r).chars(), old(r).pos(), *cfg).0,
{
    r.bump();
    if r.current_char() == '=' && supports_exec(cfg, LuaNonStdSymbol::NotEqual) {
        r.bump();
        LuaTokenKind::TkNe
    } else if supports_exec(cfg, LuaNonStdSymbol::Exclamation) {
        LuaTokenKind::TkNot
    } else {
        LuaTokenKind::TkUnknown
    }
}

fn lua_punct(c: char) -> (k: Option<LuaTokenKind>)
    ensures
        k == spec_lua_punct(c),
{
    if c == '(' {
        Some(LuaTokenKind::TkLeftParen)
    } else if c == ')' {
        Some(LuaTokenKind::TkRightParen)
    } else if c == '{' {
        Some(LuaTokenKind::TkLeftBrace)
    } else if c == '}' {
        Some(LuaTokenKind::TkRightBrace)
    } else if c == ']' {
        Some(LuaTokenKind::TkRightBracket)
    } else if c == ';' {
        Some(LuaTokenKind::TkSemicolon)
    } else if c == ',' {
        Some(LuaTokenKind::TkComma)
    } else {
        None
    }
}

/// Reads one Lua token at the start of the reader's buffer.
pub fn lex_lua_token(r: &mut Reader, cfg: &LexerConfig) -> (res: (LuaTokenKind, LexProblem))
    requires
        at_token_start(*old(r)),
    ensures
        lexed(*old(r), *final(r), spec_lex_lua(old(r).chars(), old(r).pos(), *cfg).1),
        res.0 == spec_lex_lua(old(r).chars(), old(r).pos(), *cfg).0,
{
    let c = r.current_char();
    if c == '\n' || c == '\r' {
        r.bump();
        if c == '\r' && r.current_char() == '\n' {
            r.bump();
        }
        return (LuaTokenKind::TkEndOfLine, LexProblem::Fine);
    }
    if c == ' ' || c == '\t' {
        r.eat_while_run(is_blank, Ghost(blank()));
        return (LuaTokenKind::TkWhitespace, LexProblem::Fine);
    }
    if c == '-' {
        return lex_minus(r, cfg);
    }
    if c == '[' {
        return lex_left_bracket(r);
    }
    if c == '=' {
        r.bump();
        if r.current_char() == '=' {
            r.bump();
            return (LuaTokenKind::TkEq, LexProblem::Fine);
        }
        return (LuaTokenKind::TkAssign, LexProblem::Fine);
    }
    if c == '<' {
        return (lex_angle(r, cfg, true), LexProblem::Fine);
    }
    if c == '>' {
        return (lex_angle(r, cfg, false), LexProblem::Fine);
    }
    if c == '~' {
        r.bump();
        if r.current_char() == '=' {
            r.bump();
            return (LuaTokenKind::TkNe, LexProblem::Fine);
        }
        return (LuaTokenKind::TkBitXor, LexProblem::Fine);
    }
    if c == ':' {
        r.bump();
        if r.current_char() == ':' {
            r.bump();
            return (LuaTokenKind::TkDbColon, LexProblem::Fine);
        }
        return (LuaTokenKind::TkColon, LexProblem::Fine);
    }
    if c == '"' || c == '\'' || (c == '`' && supports_exec(cfg, LuaNonStdSymbol::Backtick)) {
        let finished = read_string(r, c);
        return (LuaTokenKind::TkString, if finished {
            LexProblem::Fine
        } else {
            LexProblem::UnfinishedString
        });
    }
    if c == '.' {
        let n = r.next_char();
        if n == '.' {
            r.bump();
            r.bump();
            if r.current_char() == '.' {
                r.bump();
                return (LuaTokenKind::TkDots, LexProblem::Fine);
            }
            return (LuaTokenKind::TkConcat, LexProblem::Fine);
        }
        if '0' <= n && n <= '9' {
            return (read_number(r, cfg), LexProblem::Fine);
        }
        r.bump();
        return (LuaTokenKind::TkDot, LexProblem::Fine);
    }
    if '0' <= c && c <= '9' {
        return (read_number(r, cfg), LexProblem::Fine);
    }
    if c == '/' {
        return (lex_slash(r, cfg), LexProblem::Fine);
    }
    if c == '*' {
        r.bump();
        return (lex_assign_or(r, cfg, LuaNonStdSymbol::StarAssign, LuaTokenKind::TkStarAssign, LuaTokenKind::TkMul), LexProblem::Fine);
    }
    if c == '+' {
        r.bump();
        return (lex_assign_or(r, cfg, LuaNonStdSymbol::PlusAssign, LuaTokenKind::TkPlusAssign, LuaTokenKind::TkPlus), LexProblem::Fine);
    }
    if c == '%' {
        r.bump();
        return (lex_assign_or(r, cfg, LuaNonStdSymbol::PercentAssign, LuaTokenKind::TkPercentAssign, LuaTokenKind::TkMod), LexProblem::Fine);
    }
    if c == '^' {
        r.bump();
        return (lex_assign_or(r, cfg, LuaNonStdSymbol::CaretAssign, LuaTokenKind::TkCaretAssign, LuaTokenKind::TkPow), LexProblem::Fine);
    }
    if c == '|' {
        return (lex_doubled(r, cfg, '|', LuaNonStdSymbol::DoublePipe, LuaTokenKind::TkOr, LuaNonStdSymbol::PipeAssign, LuaTokenKind::TkPipeAssign, LuaTokenKind::TkBitOr), LexProblem::Fine);
    }
    if c == '&' {
        return (lex_doubled(r, cfg, '&', LuaNonStdSymbol::DoubleAmp, LuaTokenKind::TkAnd, LuaNonStdSymbol::AmpAssign, LuaTokenKind::TkAmpAssign, LuaTokenKind::TkBitAnd), LexProblem::Fine);
    }
    if c == '!' {
        return (lex_exclamation(r, cfg), LexProblem::Fine);
    }
    if c == '#' {
        if r.is_start_of_line() && r.next_char() == '!' {
            r.eat_while_run(is_not_newline, Ghost(not_newline()));
            return (LuaTokenKind::TkShebang, LexProblem::Fine);
        }
        r.bump();
        return (LuaTokenKind::TkLen, LexProblem::Fine);
    }
    if let Some(k) = lua_punct(c) {
        r.bump();
        return (k, LexProblem::Fine);
    }
    if is_name_start(c) {
        r.bump();
        r.eat_while_run(is_name_continue, Ghost(|c: char| spec_is_name_continue(c)));
        return (name_kind(r, cfg), LexProblem::Fine);
    }
    r.bump();
    (LuaTokenKind::TkUnknown, LexProblem::Fine)
}


/// The message of the error that a lexing problem reports.
pub open spec fn problem_message(problem: LexProblem) -> Seq<char> {
    match problem {
        LexProblem::UnfinishedLongString => "unfinished long string or comment"@,
        LexProblem::UnfinishedString => "unfinished string"@,
        _ => "invalid long string delimiter"@,
    }
}

/// The Lua lexer: splits a text into tokens (comments and trivia included).
pub struct LuaLexer<'a> {
    reader: Reader,
    lexer_config: LexerConfig,
    errors: Option<&'a mut Vec<LuaParseError>>,
}

/// The byte range of the chars `[ci, cj)` of a reader's text.
pub open spec fn token_range(r: Reader, ci: int, cj: int) -> SourceRange {
    SourceRange {
        start_offset: (r.valid().start_offset + crate::text::char_width::byte_len(
            r.chars().subrange(0, ci),
        )) as usize,
        length: crate::text::char_width::byte_len(r.chars().subrange(ci, cj)) as usize,
    }
}

impl<'a> LuaLexer<'a> {
    pub closed spec fn rd(&self) -> Reader {
        self.reader
    }

    pub closed spec fn config(&self) -> LexerConfig {
        self.lexer_config
    }

    /// The errors collected so far, where the lexer was given a list to fill.
    pub closed spec fn sink(&self) -> Option<Seq<LuaParseError>> {
        match self.errors {
            Some(e) => Some((*e)@),
            None => None,
        }
    }

    pub fn new(
        reader: Reader,
        lexer_config: LexerConfig,
        errors: Option<&'a mut Vec<LuaParseError>>,
    ) -> (r: Self)
        ensures
            r.rd() == reader,
            r.config() == lexer_config,
    {
        LuaLexer { reader, lexer_config, errors }
    }

    fn push_problem(&mut self, problem: LexProblem)
        ensures
            final(self).rd() == old(self).rd(),
            final(self).config() == old(self).config(),
            problem == LexProblem::Fine ==> final(self).sink() == old(self).sink(),
            problem != LexProblem::Fine ==> match (old(self).sink(), final(self).sink()) {
                (Some(a), Some(b)) => {
                    &&& b.len() == a.len() + 1
                    &&& b.subrange(0, a.len() as int) == a
                    &&& b.last().kind == LuaParseErrorKind::SyntaxError
                    &&& b.last().message@ == problem_message(problem)
                    &&& old(self).rd().wf() ==> b.last().range == old(self).rd().spec_current_range()
                },
                (None, None) => true,
                _ => false,
            },
    {
        if problem != LexProblem::Fine {
            let range = self.reader.current_range_checked();
            let message = match problem {
                LexProblem::UnfinishedLongString => "unfinished long string or comment",
                LexProblem::UnfinishedString => "unfinished string",
                _ => "invalid long string delimiter",
            };
            let error = LuaParseError::syntax_error_from(message, range);
            match &mut self.errors {
                Some(errors) => errors.push(error),
                None => {},
            }
        }
    }

    /// Splits the whole text (up to a NUL char, if any) into tokens.
    pub fn tokenize(&mut self) -> (tokens: Vec<LuaTokenData>)
        requires
            old(self).rd().wf(),
            old(self).rd().pos() == 0,
            old(self).rd().buf_start() == 0,
        ensures
            ({
                let spec = spec_tokens(old(self).rd().chars(), 0, old(self).config());
                &&& tokens@.len() == spec.len()
                &&& forall|k: int|
                    0 <= k < spec.len() ==> #[trigger] tokens@[k].kind == spec[k].0
                        && tokens@[k].range == token_range(old(self).rd(), spec[k].1, spec[k].2)
            }),
    {
        let ghost s = self.reader.chars();
        let ghost r0 = self.reader;
        let ghost cfg = self.lexer_config;
        let mut tokens: Vec<LuaTokenData> = Vec::new();
        let ghost mut done: Seq<(LuaTokenKind, int, int)> = seq![];
        loop
            invariant
                self.reader.wf(),
                self.reader.same_text(&r0),
                self.lexer_config == cfg,
                s == r0.chars(),
                self.reader.buf_start() <= self.reader.pos(),
                0 <= self.reader.pos() <= s.len(),
                spec_tokens(s, 0, cfg) == done + spec_tokens(s, self.reader.pos(), cfg),
                tokens@.len() == done.len(),
                forall|k: int|
                    0 <= k < done.len() ==> #[trigger] tokens@[k].kind == done[k].0
                        && tokens@[k].range == token_range(r0, done[k].1, done[k].2),
            ensures
                spec_tokens(s, 0, cfg) == done,
                tokens@.len() == done.len(),
                forall|k: int|
                    0 <= k < done.len() ==> #[trigger] tokens@[k].kind == done[k].0
                        && tokens@[k].range == token_range(r0, done[k].1, done[k].2),
            decreases s.len() - self.reader.pos(),
        {
            self.reader.reset_buff();
            if self.reader.is_eof() {
                assert(spec_tokens(s, self.reader.pos(), cfg) =~= seq![]);
                assert(done + seq![] =~= done);
                break;
            }
            let ghost i = self.reader.pos();
            proof {
                lemma_lua_token_progress(s, i, cfg);
            }
            let (kind, problem) = lex_lua_token(&mut self.reader, &self.lexer_config);
            let range = self.reader.current_range();
            self.push_problem(problem);
            tokens.push(LuaTokenData::new(kind, range));
            proof {
                let e = self.reader.pos();
                let t = (kind, i, e);
                assert(spec_tokens(s, i, cfg) =~= seq![t] + spec_tokens(s, e, cfg));
                assert(done + spec_tokens(s, i, cfg) =~= (done + seq![t]) + spec_tokens(s, e, cfg));
                done = done + seq![t];
            }
        }
        tokens
    }
}

} // verus!
