use vstd::prelude::*;

use crate::grammar::{ParseFailReason, ParseResult};
use crate::grammar::lua::{eparsed, expect_token, if_token_bump, parse_block, spec_expr_start};
use crate::grammar::lua::stat::parse_expr_list_impl;
use crate::kind::lua_language_level::LuaLanguageLevel;
use crate::kind::lua_operator_kind::{BinaryOperator, LuaOpKind, UNARY_PRIORITY, UnaryOperator};
use crate::kind::lua_syntax_kind::LuaSyntaxKind;
use crate::kind::lua_token_kind::LuaTokenKind;
use crate::parser::lua_parser::{LuaParser, last_consumed_is};
use crate::parser::parser_config::{ParserConfig, SpecialFunction, special_like_from};
use crate::parser::parser_error::LuaParseError;

verus! {

broadcast use crate::parser::lua_parser::group_lua_kept;

/// What a failed parse that read nothing leaves: only errors added.
pub open spec fn untouched(old: LuaParser, new: LuaParser) -> bool {
    &&& new.step_from(&old)
    &&& new.idx() == old.idx()
    &&& new.cur_kind() == old.cur_kind()
    &&& new.evs() == old.evs()
    &&& new.level() == old.level()
    &&& new.toks() == old.toks()
}

/// Parses an expression.
pub fn parse_expr(p: &mut LuaParser) -> (r: ParseResult)
    requires
        old(p).inv(),
    ensures
        eparsed(*old(p), *final(p), r),
        spec_expr_start(old(p).cur_kind()) ==> final(p).measure() < old(p).measure(),
        r is Ok ==> final(p).measure() < old(p).measure(),
        !spec_expr_start(old(p).cur_kind()) ==> r is Err && untouched(*old(p), *final(p)),
    decreases old(p).measure(), 8int,
{
    parse_sub_expr(p, 0)
}

/// Parses an expression whose binary operators bind more tightly than
/// `limit` on their left.
fn parse_sub_expr(p: &mut LuaParser, limit: i32) -> (r: ParseResult)
    requires
        old(p).inv(),
    ensures
        eparsed(*old(p), *final(p), r),
        spec_expr_start(old(p).cur_kind()) ==> final(p).measure() < old(p).measure(),
        r is Ok ==> final(p).measure() < old(p).measure(),
        !spec_expr_start(old(p).cur_kind()) ==> r is Err && untouched(*old(p), *final(p)),
    decreases old(p).measure(), 7int,
{
    let uop = LuaOpKind::to_unary_operator(p.current_token());
    let mut cm = if uop != UnaryOperator::OpNop {
        let m = p.mark(LuaSyntaxKind::UnaryExpr);
        let range = p.current_token_range();
        p.bump();
        match parse_sub_expr(p, UNARY_PRIORITY) {
            Ok(_) => {},
            Err(err) => {
                p.push_error(LuaParseError::syntax_error_from("unary operator not followed by expression", range));
                return Err(err);
            },
        }
        p.complete(m)
    } else {
        parse_simple_expr(p)?
    };
    let mut bop = LuaOpKind::to_binary_operator(p.current_token());
    while bop != BinaryOperator::OpNop && bop.get_priority().left > limit
        invariant
            spec_expr_start(old(p).cur_kind()),
            p.step_from(old(p)),
            p.level() >= old(p).level(),
            p.valid_start(cm.start as int),
            p.measure() < old(p).measure(),
            bop == crate::kind::lua_operator_kind::spec_binary_operator(p.cur_kind()),
        decreases p.measure(),
    {
        let range = p.current_token_range();
        let m = p.precede(&cm, LuaSyntaxKind::BinaryExpr);
        p.bump();
        match parse_sub_expr(p, bop.get_priority().right) {
            Ok(_) => {},
            Err(err) => {
                p.push_error(LuaParseError::syntax_error_from("binary operator not followed by expression", range));
                return Err(err);
            },
        }
        cm = p.complete(m);
        bop = LuaOpKind::to_binary_operator(p.current_token());
    }
    Ok(cm)
}

/// Parses a literal, a table, a closure, or a suffixed expression.
fn parse_simple_expr(p: &mut LuaParser) -> (r: ParseResult)
    requires
        old(p).inv(),
    ensures
        eparsed(*old(p), *final(p), r),
        spec_expr_start(old(p).cur_kind()) && old(p).cur_kind() != LuaTokenKind::TkNot
            && old(p).cur_kind() != LuaTokenKind::TkLen && old(p).cur_kind() != LuaTokenKind::TkMinus
            && old(p).cur_kind() != LuaTokenKind::TkBitXor ==> final(p).measure() < old(p).measure(),
        r is Ok ==> final(p).measure() < old(p).measure(),
        !spec_expr_start(old(p).cur_kind()) ==> r is Err && untouched(*old(p), *final(p)),
    decreases old(p).measure(), 6int,
{
    match p.current_token() {
        LuaTokenKind::TkInt | LuaTokenKind::TkFloat | LuaTokenKind::TkComplex | LuaTokenKind::TkNil
        | LuaTokenKind::TkTrue | LuaTokenKind::TkFalse | LuaTokenKind::TkDots | LuaTokenKind::TkString
        | LuaTokenKind::TkLongString => {
            let m = p.mark(LuaSyntaxKind::LiteralExpr);
            p.bump();
            Ok(p.complete(m))
        },
        LuaTokenKind::TkLeftBrace => parse_table_expr(p),
        LuaTokenKind::TkFunction => parse_closure_expr(p),
        _ => parse_suffixed_expr(p),
    }
}

/// Parses a function body: parameters, block and `end`, with the keyword
/// `function` before them when it is there.
pub fn parse_closure_expr(p: &mut LuaParser) -> (r: ParseResult)
    requires
        old(p).inv(),
    ensures
        final(p).opened(old(p).evs().len() as int, LuaSyntaxKind::ClosureExpr),
        eparsed(*old(p), *final(p), r),
        old(p).cur_kind() == LuaTokenKind::TkFunction ==> final(p).measure() < old(p).measure(),
        r is Ok ==> final(p).measure() < old(p).measure(),
        r is Ok ==> last_consumed_is(*final(p), LuaTokenKind::TkEnd) || final(p).errs().len() > old(p).errs().len(),
    decreases old(p).measure(), 3int,
{
    let m = p.mark(LuaSyntaxKind::ClosureExpr);
    if_token_bump(p, LuaTokenKind::TkFunction);
    parse_param_list(p)?;
    if p.current_token() != LuaTokenKind::TkEnd {
        parse_block(p)?;
    }
    let ghost q0 = *p;
    if p.current_token() == LuaTokenKind::TkEnd {
        p.bump();
    } else {
        let range = p.current_token_range();
        p.push_error(LuaParseError::syntax_error_from("expected 'end' to close function", range));
    }
    let ghost q1 = *p;
    let cm = p.complete(m);
    proof {
        assert(crate::parser::lua_parser::lua_kept(*old(p), q0));
        assert(crate::parser::lua_parser::lua_kept(q0, q1));
    }
    Ok(cm)
}

/// Parses a parameter list in parentheses.
fn parse_param_list(p: &mut LuaParser) -> (r: ParseResult)
    requires
        old(p).inv(),
    ensures
        final(p).opened(old(p).evs().len() as int, LuaSyntaxKind::ParamList),
        eparsed(*old(p), *final(p), r),
        r is Ok ==> final(p).measure() < old(p).measure(),
        final(p).valid_start(old(p).evs().len() as int),
{
    let m = p.mark(LuaSyntaxKind::ParamList);
    if expect_token(p, LuaTokenKind::TkLeftParen).is_err() {
        let range = p.current_token_range();
        p.push_error(LuaParseError::syntax_error_from("expected '(' to start parameter list", range));
        return Err(ParseFailReason::UnexpectedToken);
    }
    if p.current_token() != LuaTokenKind::TkRightParen {
        parse_param_name(p)?;
        while p.current_token() == LuaTokenKind::TkComma
            invariant
                p.valid_start(old(p).evs().len() as int),
                p.step_from(old(p)),
                p.level() >= old(p).level() + 1,
                p.valid_start(m.position as int),
                p.opened(m.position as int, LuaSyntaxKind::ParamList),
                m.position == old(p).evs().len(),
                p.measure() < old(p).measure(),
            decreases p.measure(),
        {
            p.bump();
            parse_param_name(p)?;
        }
    }
    if expect_token(p, LuaTokenKind::TkRightParen).is_err() {
        let range = p.current_token_range();
        p.push_error(LuaParseError::syntax_error_from("expected ')' to close parameter list", range));
    }
    Ok(p.complete(m))
}

/// Parses a parameter: a name, or `...` (named in Lua 5.5).
fn parse_param_name(p: &mut LuaParser) -> (r: ParseResult)
    requires
        old(p).inv(),
    ensures
        final(p).opened(old(p).evs().len() as int, LuaSyntaxKind::ParamName),
        r matches Ok(cm) ==> cm.start == old(p).evs().len() && cm.kind == LuaSyntaxKind::ParamName,
        eparsed(*old(p), *final(p), r),
        r is Ok ==> final(p).measure() < old(p).measure(),
        final(p).valid_start(old(p).evs().len() as int),
{
    let m = p.mark(LuaSyntaxKind::ParamName);
    if p.current_token() == LuaTokenKind::TkName {
        p.bump();
    } else if p.current_token() == LuaTokenKind::TkDots {
        p.bump();
        if p.parse_config().level().at_least(LuaLanguageLevel::Lua55)
            && p.current_token() == LuaTokenKind::TkName {
            p.bump();
        }
    } else {
        let range = p.current_token_range();
        p.push_error(LuaParseError::syntax_error_from("expected parameter name", range));
        return Err(ParseFailReason::UnexpectedToken);
    }
    Ok(p.complete(m))
}

/// Parses a table constructor: empty, a list of values, or with keyed fields.
fn parse_table_expr(p: &mut LuaParser) -> (r: ParseResult)
    requires
        old(p).inv(),
        old(p).cur_kind() == LuaTokenKind::TkLeftBrace,
    ensures
        eparsed(*old(p), *final(p), r),
        final(p).measure() < old(p).measure(),
    decreases old(p).measure(), 3int,
{
    let m = p.mark(LuaSyntaxKind::TableEmptyExpr);
    p.bump();
    if p.current_token() == LuaTokenKind::TkRightBrace {
        p.bump();
        return Ok(p.complete(m));
    }
    let cm = parse_field(p)?;
    if cm.kind == LuaSyntaxKind::TableFieldAssign {
        p.set_kind(&m, LuaSyntaxKind::TableObjectExpr);
        proof { assert(crate::parser::lua_parser::lua_kept(*old(p), *p)); }
    } else if cm.kind == LuaSyntaxKind::TableFieldValue {
        p.set_kind(&m, LuaSyntaxKind::TableArrayExpr);
        proof { assert(crate::parser::lua_parser::lua_kept(*old(p), *p)); }
    }
    while p.current_token() == LuaTokenKind::TkComma || p.current_token() == LuaTokenKind::TkSemicolon
        invariant
            p.step_from(old(p)),
            p.level() >= old(p).level() + 1,
            p.valid_start(m.position as int),
            p.measure() < old(p).measure(),
            old(p).evs().len() <= m.position,
        decreases p.measure(),
    {
        p.bump();
        if p.current_token() == LuaTokenKind::TkRightBrace {
            break;
        }
        let cm = parse_field(p)?;
        if cm.kind == LuaSyntaxKind::TableFieldAssign {
            p.set_kind(&m, LuaSyntaxKind::TableObjectExpr);
            proof { assert(crate::parser::lua_parser::lua_kept(*old(p), *p)); }
        }
    }
    if expect_token(p, LuaTokenKind::TkRightBrace).is_err() {
        let range = p.current_token_range();
        p.push_error(LuaParseError::syntax_error_from("expected '}' to close table", range));
    }
    Ok(p.complete(m))
}

/// Parses a table field: `[key] = value`, `name = value`, or a value.
fn parse_field(p: &mut LuaParser) -> (r: ParseResult)
    requires
        old(p).inv(),
    ensures
        eparsed(*old(p), *final(p), r),
        r is Ok ==> final(p).measure() < old(p).measure(),
        final(p).valid_start(old(p).evs().len() as int),
    decreases old(p).measure(), 9int,
{
    let m = p.mark(LuaSyntaxKind::TableFieldValue);
    if p.current_token() == LuaTokenKind::TkLeftBracket {
        p.set_kind(&m, LuaSyntaxKind::TableFieldAssign);
        proof { assert(crate::parser::lua_parser::lua_kept(*old(p), *p)); }
        p.bump();
        if parse_expr(p).is_err() {
            let range = p.current_token_range();
            p.push_error(LuaParseError::syntax_error_from("expected key expression", range));
        }
        if expect_token(p, LuaTokenKind::TkRightBracket).is_err() {
            let range = p.current_token_range();
            p.push_error(LuaParseError::syntax_error_from("expected ']' after table key", range));
        }
        if expect_token(p, LuaTokenKind::TkAssign).is_err() {
            let range = p.current_token_range();
            p.push_error(LuaParseError::syntax_error_from("expected '=' after table key", range));
        }
        if parse_expr(p).is_err() {
            let range = p.current_token_range();
            p.push_error(LuaParseError::syntax_error_from("expected value expression", range));
        }
    } else if p.current_token() == LuaTokenKind::TkName && p.peek_next_token() == LuaTokenKind::TkAssign {
        p.set_kind(&m, LuaSyntaxKind::TableFieldAssign);
        proof { assert(crate::parser::lua_parser::lua_kept(*old(p), *p)); }
        p.bump();
        p.bump();
        if parse_expr(p).is_err() {
            let range = p.current_token_range();
            p.push_error(LuaParseError::syntax_error_from("expected value expression", range));
        }
    } else {
        parse_expr(p)?;
    }
    Ok(p.complete(m))
}

/// Under every configuration, a call right after one of the names
/// `require`, `error`, `assert`, `type` and `setmetatable` is a node of that
/// function's call kind (`assert(x)` is an `AssertCallExpr`, ...); the
/// names declared in the configuration cannot change that.  Any other name
/// stands for what the configuration declares for it (a plain call when it
/// declares nothing).
pub proof fn lemma_builtin_special_calls(c: ParserConfig, name: Seq<char>)
    ensures
        name == "require"@ ==> c.spec_special(name) == SpecialFunction::Require
            && spec_special_call_kind(c.spec_special(name)) == LuaSyntaxKind::RequireCallExpr,
        name == "error"@ ==> c.spec_special(name) == SpecialFunction::Error
            && spec_special_call_kind(c.spec_special(name)) == LuaSyntaxKind::ErrorCallExpr,
        name == "assert"@ ==> c.spec_special(name) == SpecialFunction::Assert
            && spec_special_call_kind(c.spec_special(name)) == LuaSyntaxKind::AssertCallExpr,
        name == "type"@ ==> c.spec_special(name) == SpecialFunction::Type
            && spec_special_call_kind(c.spec_special(name)) == LuaSyntaxKind::TypeCallExpr,
        name == "setmetatable"@ ==> c.spec_special(name) == SpecialFunction::Setmatable
            && spec_special_call_kind(c.spec_special(name)) == LuaSyntaxKind::SetmetatableCallExpr,
        !(name == "require"@ || name == "error"@ || name == "assert"@ || name == "type"@ || name
            == "setmetatable"@) ==> c.spec_special(name) == special_like_from(c.spec_special_like(), name, 0),
{
    reveal_strlit("require");
    reveal_strlit("error");
    reveal_strlit("assert");
    reveal_strlit("type");
    reveal_strlit("setmetatable");
    assert("require"@.len() == 7 && "error"@.len() == 5 && "assert"@.len() == 6);
    assert("type"@.len() == 4 && "setmetatable"@.len() == 12);
}

/// The node kind of a call whose callee names the given special function.
pub open spec fn spec_special_call_kind(f: SpecialFunction) -> LuaSyntaxKind {
    match f {
        SpecialFunction::Require => LuaSyntaxKind::RequireCallExpr,
        SpecialFunction::Error => LuaSyntaxKind::ErrorCallExpr,
        SpecialFunction::Assert => LuaSyntaxKind::AssertCallExpr,
        SpecialFunction::Type => LuaSyntaxKind::TypeCallExpr,
        SpecialFunction::Setmatable => LuaSyntaxKind::SetmetatableCallExpr,
        SpecialFunction::None_ => LuaSyntaxKind::CallExpr,
    }
}

/// The node kind of a call of the special function `f`.
fn special_call_kind(f: SpecialFunction) -> (k: LuaSyntaxKind)
    ensures
        k == spec_special_call_kind(f),
{
    match f {
        SpecialFunction::Require => LuaSyntaxKind::RequireCallExpr,
        SpecialFunction::Error => LuaSyntaxKind::ErrorCallExpr,
        SpecialFunction::Assert => LuaSyntaxKind::AssertCallExpr,
        SpecialFunction::Type => LuaSyntaxKind::TypeCallExpr,
        SpecialFunction::Setmatable => LuaSyntaxKind::SetmetatableCallExpr,
        SpecialFunction::None_ => LuaSyntaxKind::CallExpr,
    }
}

/// Parses a name or a parenthesized expression, then its index and call
/// suffixes; a call right after the name of a special function gets that
/// function's node kind.
fn parse_suffixed_expr(p: &mut LuaParser) -> (r: ParseResult)
    requires
        old(p).inv(),
    ensures
        eparsed(*old(p), *final(p), r),
        old(p).cur_kind() == LuaTokenKind::TkName || old(p).cur_kind() == LuaTokenKind::TkLeftParen
            ==> final(p).measure() < old(p).measure(),
        r is Ok ==> final(p).measure() < old(p).measure(),
        !spec_expr_start(old(p).cur_kind()) ==> r is Err && untouched(*old(p), *final(p)),
    decreases old(p).measure(), 5int,
{
    let mut first_kind = LuaSyntaxKind::CallExpr;
    let mut cm = match p.current_token() {
        LuaTokenKind::TkName => {
            let text = p.current_token_text();
            let special = p.parse_config().get_special_function(&text);
            first_kind = special_call_kind(special);
            let m = p.mark(LuaSyntaxKind::NameExpr);
            p.bump();
            p.complete(m)
        },
        LuaTokenKind::TkLeftParen => {
            let m = p.mark(LuaSyntaxKind::ParenExpr);
            p.bump();
            parse_expr(p)?;
            if expect_token(p, LuaTokenKind::TkRightParen).is_err() {
                let range = p.current_token_range();
                p.push_error(LuaParseError::syntax_error_from("expected ')' to close expression", range));
            }
            p.complete(m)
        },
        _ => {
            let range = p.current_token_range();
            p.push_error(LuaParseError::syntax_error_from("expected primary expression", range));
            return Err(ParseFailReason::UnexpectedToken);
        },
    };
    let mut first = true;
    loop
        invariant
            spec_expr_start(old(p).cur_kind()),
            p.step_from(old(p)),
            p.level() >= old(p).level(),
            p.valid_start(cm.start as int),
            p.measure() < old(p).measure(),
        decreases p.measure(),
    {
        match p.current_token() {
            LuaTokenKind::TkDot | LuaTokenKind::TkColon | LuaTokenKind::TkLeftBracket => {
                let m = p.precede(&cm, LuaSyntaxKind::IndexExpr);
                parse_index_struct(p)?;
                cm = p.complete(m);
            },
            LuaTokenKind::TkLeftParen | LuaTokenKind::TkLongString | LuaTokenKind::TkString
            | LuaTokenKind::TkLeftBrace => {
                let kind = if first {
                    first_kind
                } else {
                    LuaSyntaxKind::CallExpr
                };
                let m = p.precede(&cm, kind);
                parse_args(p)?;
                cm = p.complete(m);
            },
            _ => {
                return Ok(cm);
            },
        }
        first = false;
    }
}

/// Parses an index suffix: `.name`, `:name` or `[expr]`.
fn parse_index_struct(p: &mut LuaParser) -> (r: Result<(), ParseFailReason>)
    requires
        old(p).inv(),
        old(p).cur_kind() == LuaTokenKind::TkDot || old(p).cur_kind() == LuaTokenKind::TkColon
            || old(p).cur_kind() == LuaTokenKind::TkLeftBracket,
    ensures
        final(p).step_from(old(p)),
        final(p).level() >= old(p).level(),
        final(p).measure() < old(p).measure(),
    decreases old(p).measure(), 4int,
{
    if p.current_token() == LuaTokenKind::TkLeftBracket {
        p.bump();
        parse_expr(p)?;
        if expect_token(p, LuaTokenKind::TkRightBracket).is_err() {
            let range = p.current_token_range();
            p.push_error(LuaParseError::syntax_error_from("expected ']' after index expression", range));
        }
    } else {
        p.bump();
        if expect_token(p, LuaTokenKind::TkName).is_err() {
            let range = p.current_token_range();
            p.push_error(LuaParseError::syntax_error_from("expected field name", range));
        }
    }
    Ok(())
}

/// Parses the arguments of a call: in parentheses, a table, or a string.
fn parse_args(p: &mut LuaParser) -> (r: ParseResult)
    requires
        old(p).inv(),
        old(p).cur_kind() == LuaTokenKind::TkLeftParen || old(p).cur_kind() == LuaTokenKind::TkLongString
            || old(p).cur_kind() == LuaTokenKind::TkString || old(p).cur_kind() == LuaTokenKind::TkLeftBrace,
    ensures
        final(p).opened(old(p).evs().len() as int, LuaSyntaxKind::CallArgList),
        eparsed(*old(p), *final(p), r),
        final(p).measure() < old(p).measure(),
    decreases old(p).measure(), 4int,
{
    let m = p.mark(LuaSyntaxKind::CallArgList);
    if p.current_token() == LuaTokenKind::TkLeftParen {
        p.bump();
        if p.current_token() != LuaTokenKind::TkRightParen {
            if parse_expr_list_impl(p).is_err() {
                let range = p.current_token_range();
                p.push_error(LuaParseError::syntax_error_from("expected argument expression", range));
            }
        }
        if expect_token(p, LuaTokenKind::TkRightParen).is_err() {
            let range = p.current_token_range();
            p.push_error(LuaParseError::syntax_error_from("expected ')' to close arguments", range));
        }
    } else if p.current_token() == LuaTokenKind::TkLeftBrace {
        parse_table_expr(p)?;
    } else {
        let lit = p.mark(LuaSyntaxKind::LiteralExpr);
        p.bump();
        p.complete(lit);
    }
    Ok(p.complete(m))
}

} // verus!
