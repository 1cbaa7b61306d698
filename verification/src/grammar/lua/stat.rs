use vstd::prelude::*;

use crate::grammar::{ParseFailReason, ParseResult};
use crate::grammar::lua::expr::{parse_closure_expr, parse_expr, untouched};
use crate::grammar::lua::{
    block_follow, eparsed, expect_token, if_token_bump, is_statement_start_token, parse_block, sparsed,
    spec_block_follow, spec_expr_start, spec_is_statement_start, spec_stat_start,
};
use crate::kind::lua_language_level::LuaLanguageLevel;
use crate::kind::lua_syntax_kind::LuaSyntaxKind;
use crate::kind::lua_token_kind::LuaTokenKind;
use crate::parser::lua_parser::{LuaParser, last_consumed_is, next_non_trivia_kind, prev_grammar_index};
use crate::parser::marker::{CompleteMarker, MarkEvent, Marker};
use crate::parser::parser_error::LuaParseError;
use crate::text::strings::vec_eq_str;
use crate::text::text_range::SourceRange;

verus! {

broadcast use crate::parser::lua_parser::group_lua_kept;

/// Records a syntax error with message `msg` at the current token.
fn push_expr_error_lazy(p: &mut LuaParser, msg: &str)
    requires
        old(p).inv(),
    ensures
        untouched(*old(p), *final(p)),
        final(p).errs().len() == old(p).errs().len() + 1,
        final(p).errs().last().kind == crate::parser::parser_error::LuaParseErrorKind::SyntaxError,
        final(p).errs().last().message@ == msg@,
        final(p).errs().last().range == old(p).cur_range(),
{
    let range = p.current_token_range();
    p.push_error(LuaParseError::syntax_error_from(msg, range));
}

/// Eats the keyword `expected`; when it is missing, records the error `msg`
/// and tells whether parsing can go on (the current token starts a
/// statement, as if the keyword had been forgotten).
fn expect_keyword_with_recovery(p: &mut LuaParser, expected: LuaTokenKind, msg: &str) -> (b: bool)
    requires
        old(p).inv(),
        expected != LuaTokenKind::TkEof,
    ensures
        final(p).step_from(old(p)),
        final(p).level() == old(p).level(),
        old(p).cur_kind() == expected ==> b && final(p).measure() < old(p).measure(),
        old(p).cur_kind() != expected ==> b == spec_is_statement_start(old(p).cur_kind()) && untouched(
            *old(p),
            *final(p),
        ),
{
    if p.current_token() == expected {
        p.bump();
        true
    } else {
        push_expr_error_lazy(p, msg);
        is_statement_start_token(p.current_token())
    }
}

/// Eats `end`; when it is missing, records the error `msg` at the range of
/// the keyword that opened the statement and skips to the end of the block.
fn expect_end_keyword(p: &mut LuaParser, start_range: SourceRange, msg: &str)
    requires
        old(p).inv(),
    ensures
        final(p).step_from(old(p)),
        final(p).level() == old(p).level(),
        old(p).cur_kind() == LuaTokenKind::TkEnd ==> final(p).measure() < old(p).measure(),
        old(p).cur_kind() == LuaTokenKind::TkEnd ==> last_consumed_is(*final(p), LuaTokenKind::TkEnd),
        last_consumed_is(*final(p), LuaTokenKind::TkEnd) || final(p).errs().len() > old(p).errs().len(),
{
    if p.current_token() == LuaTokenKind::TkEnd {
        p.bump();
    } else {
        p.push_error(LuaParseError::syntax_error_from(msg, start_range));
        recover_to_block_end(p);
    }
}

/// The last tokens of the grammar that `p` has consumed are `end`, or
/// `end` and a `;`.
pub open spec fn closed_by_end(p: LuaParser) -> bool {
    let j = prev_grammar_index(p.toks(), p.idx() as int);
    let j2 = prev_grammar_index(p.toks(), j);
    0 <= j && (p.toks()[j].kind == LuaTokenKind::TkEnd || (p.toks()[j].kind == LuaTokenKind::TkSemicolon && 0
        <= j2 && p.toks()[j2].kind == LuaTokenKind::TkEnd))
}

/// Expects the `end` of a block statement (with an optional `;` after it)
/// and closes the statement's node.
fn close_block_stat(p: &mut LuaParser, m: Marker, start_range: SourceRange, msg: &str) -> (cm: CompleteMarker)
    requires
        old(p).inv(),
        old(p).level() >= 1,
        old(p).valid_start(m.position as int),
    ensures
        final(p).step_from(old(p)),
        final(p).level() == old(p).level() - 1,
        closed_by_end(*final(p)) || final(p).errs().len() > old(p).errs().len(),
        cm.start == m.position,
        final(p).opened(cm.start as int, cm.kind),
{
    expect_end_keyword(p, start_range, msg);
    let ghost q1 = *p;
    if_token_bump(p, LuaTokenKind::TkSemicolon);
    let ghost q2 = *p;
    let cm = p.complete(m);
    proof {
        assert(crate::parser::lua_parser::lua_kept(q1, q2));
        if q1.idx() < q1.toks().len() && q2.idx() != q1.idx() {
            assert(prev_grammar_index(q2.toks(), q2.idx() as int) == q1.idx());
        }
    }
    cm
}

/// The tokens at which skipping to the end of a block may stop without
/// eating anything: the end of input, and `else`, `elseif` or `until`.
pub open spec fn stops_recovery(k: LuaTokenKind) -> bool {
    k == LuaTokenKind::TkEof || k == LuaTokenKind::TkElse || k == LuaTokenKind::TkElseIf || k
        == LuaTokenKind::TkUntil
}

/// Skips tokens to the `end` that closes the current structure (eating it),
/// or to an `else`, `elseif` or `until` at its level, counting the
/// structures opened and closed on the way.
fn recover_to_block_end(p: &mut LuaParser)
    requires
        old(p).inv(),
    ensures
        final(p).step_from(old(p)),
        final(p).level() == old(p).level(),
        stops_recovery(final(p).cur_kind()) || final(p).measure() < old(p).measure(),
        !stops_recovery(old(p).cur_kind()) ==> final(p).measure() < old(p).measure(),
{
    let mut depth: usize = 1;
    while p.current_token() != LuaTokenKind::TkEof && depth > 0
        invariant_except_break
            p.measure() < old(p).measure() || (*p == *old(p) && depth == 1),
            depth == 0 ==> p.measure() < old(p).measure(),
        invariant
            p.step_from(old(p)),
            p.level() == old(p).level(),
        ensures
            stops_recovery(p.cur_kind()) || p.measure() < old(p).measure(),
            !stops_recovery(old(p).cur_kind()) ==> p.measure() < old(p).measure(),
        decreases p.measure(), depth,
    {
        match p.current_token() {
            LuaTokenKind::TkIf | LuaTokenKind::TkWhile | LuaTokenKind::TkFor | LuaTokenKind::TkDo
            | LuaTokenKind::TkFunction => {
                depth = depth.saturating_add(1);
                p.bump();
            },
            LuaTokenKind::TkEnd => {
                depth -= 1;
                if depth == 0 {
                    p.bump();
                }
            },
            LuaTokenKind::TkElseIf | LuaTokenKind::TkElse => {
                if depth == 1 {
                    break;
                }
                p.bump();
            },
            LuaTokenKind::TkUntil => {
                depth -= 1;
                if depth == 0 {
                    break;
                }
                p.bump();
            },
            _ => {
                p.bump();
            },
        }
    }
}

/// Whether `kind` is one of `keywords`.
fn contains_kind(keywords: &[LuaTokenKind], kind: LuaTokenKind) -> (b: bool)
    ensures
        b == keywords@.contains(kind),
{
    let mut i: usize = 0;
    while i < keywords.len()
        invariant
            i <= keywords@.len(),
            forall|j: int| 0 <= j < i ==> keywords@[j] != kind,
        decreases keywords@.len() - i,
    {
        if keywords[i] == kind {
            return true;
        }
        i += 1;
    }
    false
}

/// Skips tokens up to one of `keywords`, a token that starts a statement, or
/// the end.
fn recover_to_keywords(p: &mut LuaParser, keywords: &[LuaTokenKind])
    requires
        old(p).inv(),
    ensures
        final(p).step_from(old(p)),
        final(p).level() == old(p).level(),
        final(p).cur_kind() == LuaTokenKind::TkEof || keywords@.contains(final(p).cur_kind())
            || spec_is_statement_start(final(p).cur_kind()),
{
    loop
        invariant
            p.step_from(old(p)),
            p.level() == old(p).level(),
        ensures
            p.step_from(old(p)),
            p.level() == old(p).level(),
            p.cur_kind() == LuaTokenKind::TkEof || keywords@.contains(p.cur_kind())
                || spec_is_statement_start(p.cur_kind()),
        decreases p.measure(),
    {
        if p.current_token() == LuaTokenKind::TkEof {
            break;
        }
        if contains_kind(keywords, p.current_token()) {
            break;
        }
        if is_statement_start_token(p.current_token()) {
            break;
        }
        p.bump();
    }
}

/// Parses a comma-separated list of expressions; on failure, says what was
/// expected.
pub fn parse_expr_list_impl(p: &mut LuaParser) -> (r: Result<(), &'static str>)
    requires
        old(p).inv(),
    ensures
        sparsed(*old(p), *final(p)),
        spec_expr_start(old(p).cur_kind()) ==> final(p).measure() < old(p).measure(),
        r is Ok ==> final(p).measure() < old(p).measure(),
        !spec_expr_start(old(p).cur_kind()) ==> r is Err && untouched(*old(p), *final(p)),
    decreases old(p).measure(), 9int,
{
    if parse_expr(p).is_err() {
        return Err("expected expression");
    }
    while p.current_token() == LuaTokenKind::TkComma
        invariant
            spec_expr_start(old(p).cur_kind()),
            sparsed(*old(p), *p),
            p.measure() < old(p).measure(),
        decreases p.measure(),
    {
        p.bump();
        if parse_expr(p).is_err() {
            return Err("expected expression after ','");
        }
    }
    Ok(())
}

/// Parses a comma-separated list of local names.
fn parse_variable_name_list(p: &mut LuaParser, support_attrib: bool) -> (r: ParseResult)
    requires
        old(p).inv(),
    ensures
        sparsed(*old(p), *final(p)),
        r is Ok,
        old(p).cur_kind() == LuaTokenKind::TkName ==> final(p).measure() < old(p).measure(),
{
    parse_local_name(p, support_attrib)?;
    let ghost p1 = *p;
    while p.current_token() == LuaTokenKind::TkComma
        invariant
            sparsed(*old(p), *p),
            old(p).cur_kind() == LuaTokenKind::TkName ==> p.measure() < old(p).measure(),
        decreases p.measure(),
    {
        p.bump();
        if parse_local_name(p, support_attrib).is_err() {
            let range = p.current_token_range();
            p.push_error(LuaParseError::syntax_error_from("expected variable name after ','", range));
        }
    }
    Ok(CompleteMarker::empty())
}

/// Parses the names of a `global` declaration, with an optional list of
/// initial values.
fn parse_global_name_list(p: &mut LuaParser) -> (r: ParseResult)
    requires
        old(p).inv(),
    ensures
        sparsed(*old(p), *final(p)),
        r is Ok,
        final(p).valid_start(old(p).evs().len() as int),
        old(p).cur_kind() == LuaTokenKind::TkName ==> final(p).measure() < old(p).measure(),
    decreases old(p).measure(), 16int,
{
    parse_local_name(p, true)?;
    while p.current_token() == LuaTokenKind::TkComma
        invariant
            sparsed(*old(p), *p),
            p.valid_start(old(p).evs().len() as int),
            old(p).cur_kind() == LuaTokenKind::TkName ==> p.measure() < old(p).measure(),
        decreases p.measure(),
    {
        p.bump();
        if parse_local_name(p, true).is_err() {
            let range = p.current_token_range();
            p.push_error(LuaParseError::syntax_error_from("expected variable name after ','", range));
        }
    }
    if p.current_token() == LuaTokenKind::TkEq {
        p.bump();
        if parse_expr_list_impl(p).is_err() {
            push_expr_error_lazy(p, "expected expression after '='");
        }
    }
    Ok(CompleteMarker::empty())
}

/// Parses statements up to a token that ends a block.  After a statement
/// that fails, the nodes it left open are closed and tokens are skipped up
/// to one that starts a statement.
pub fn parse_stats(p: &mut LuaParser)
    requires
        old(p).inv(),
    ensures
        sparsed(*old(p), *final(p)),
        spec_block_follow(final(p).cur_kind()),
    decreases old(p).measure(), 19int,
{
    loop
        invariant
            sparsed(*old(p), *p),
        ensures
            sparsed(*old(p), *p),
            spec_block_follow(p.cur_kind()),
        decreases p.measure(),
    {
        if block_follow(p) {
            break;
        }
        let ghost q0 = *p;
        let level = p.get_mark_level();
        match parse_stat(p) {
            Ok(_) => {},
            Err(_) => {
                let current_level = p.get_mark_level();
                let mut k: usize = 0;
                while k < current_level - level
                    invariant
                        sparsed(*old(p), *p),
                        sparsed(q0, *p),
                        p.level() == current_level - k,
                        k <= current_level - level,
                        sparsed(*old(p), q0),
                        current_level >= level,
                        level == q0.level(),
                        p.measure() < q0.measure() || (p.idx() == q0.idx() && p.cur_kind() == q0.cur_kind()),
                        p.measure() < q0.measure() || !spec_stat_start(q0.cur_kind()),
                    decreases current_level - level - k,
                {
                    p.push_node_end();
                    k += 1;
                }
                let mut can_continue = false;
                loop
                    invariant_except_break
                        !can_continue,
                    invariant
                        sparsed(*old(p), *p),
                        sparsed(q0, *p),
                        !spec_block_follow(q0.cur_kind()),
                        p.measure() < q0.measure() || (p.idx() == q0.idx() && p.cur_kind() == q0.cur_kind()),
                        p.measure() < q0.measure() || !spec_stat_start(q0.cur_kind()),
                    ensures
                        sparsed(*old(p), *p),
                        p.measure() < q0.measure() || (p.idx() == q0.idx() && p.cur_kind() == q0.cur_kind()),
                        p.measure() < q0.measure() || !spec_stat_start(q0.cur_kind()),
                        can_continue ==> spec_is_statement_start(p.cur_kind()),
                        !can_continue ==> p.cur_kind() == LuaTokenKind::TkEof,
                    decreases p.measure(),
                {
                    if p.current_token() == LuaTokenKind::TkEof {
                        break;
                    }
                    if is_statement_start_token(p.current_token()) {
                        can_continue = true;
                        break;
                    }
                    p.bump();
                }
                if can_continue {
                    continue;
                }
                break;
            },
        }
    }
}

/// Parses one statement.
fn parse_stat(p: &mut LuaParser) -> (r: ParseResult)
    requires
        old(p).inv(),
    ensures
        sparsed(*old(p), *final(p)),
        spec_stat_start(old(p).cur_kind()) ==> final(p).measure() < old(p).measure(),
        r is Ok ==> final(p).measure() < old(p).measure(),
        final(p).measure() == old(p).measure() ==> final(p).idx() == old(p).idx() && final(p).cur_kind()
            == old(p).cur_kind(),
    decreases old(p).measure(), 18int,
{
    match p.current_token() {
        LuaTokenKind::TkIf => parse_if(p),
        LuaTokenKind::TkWhile => parse_while(p),
        LuaTokenKind::TkFor => parse_for(p),
        LuaTokenKind::TkFunction => parse_function(p),
        LuaTokenKind::TkLocal => parse_local(p),
        LuaTokenKind::TkReturn => parse_return(p),
        LuaTokenKind::TkBreak => parse_break(p),
        LuaTokenKind::TkDo => parse_do(p),
        LuaTokenKind::TkRepeat => parse_repeat(p),
        LuaTokenKind::TkGoto => parse_goto(p),
        LuaTokenKind::TkDbColon => parse_label_stat(p),
        LuaTokenKind::TkSemicolon => parse_empty_stat(p),
        _ => parse_assign_or_expr_or_global_stat(p),
    }
}

/// Parses `if cond then block {elseif cond then block} [else block] end`.
fn parse_if(p: &mut LuaParser) -> (r: ParseResult)
    requires
        old(p).inv(),
        old(p).cur_kind() == LuaTokenKind::TkIf,
    ensures
        r is Ok ==> closed_by_end(*final(p)) || final(p).errs().len() > old(p).errs().len(),
        final(p).opened(old(p).evs().len() as int, LuaSyntaxKind::IfStat),
        sparsed(*old(p), *final(p)),
        final(p).measure() < old(p).measure(),
    decreases old(p).measure(), 17int,
{
    let m = p.mark(LuaSyntaxKind::IfStat);
    let if_start_range = p.current_token_range();
    p.bump();
    if parse_expr(p).is_err() {
        push_expr_error_lazy(p, "expected condition expression after 'if'");
        recover_to_keywords(p, &[LuaTokenKind::TkThen, LuaTokenKind::TkEnd]);
    }
    if !expect_keyword_with_recovery(p, LuaTokenKind::TkThen, "expected 'then' after if condition") {
        recover_to_keywords(p, &[LuaTokenKind::TkEnd, LuaTokenKind::TkElseIf, LuaTokenKind::TkElse]);
    }
    if !(p.current_token() == LuaTokenKind::TkEnd || p.current_token() == LuaTokenKind::TkElseIf
        || p.current_token() == LuaTokenKind::TkElse || p.current_token() == LuaTokenKind::TkEof) {
        parse_block(p)?;
    }
    while p.current_token() == LuaTokenKind::TkElseIf
        invariant
            sparsed(*old(p), *p),
            p.level() >= old(p).level() + 1,
            p.valid_start(m.position as int),
            p.opened(m.position as int, LuaSyntaxKind::IfStat),
            m.position == old(p).evs().len(),
            p.measure() < old(p).measure(),
        decreases p.measure(),
    {
        parse_elseif_clause(p)?;
    }
    if p.current_token() == LuaTokenKind::TkElse {
        parse_else_clause(p)?;
    }
    Ok(close_block_stat(p, m, if_start_range, "expected 'end' to close if statement"))
}

/// Parses `elseif cond then block`.
fn parse_elseif_clause(p: &mut LuaParser) -> (r: ParseResult)
    requires
        old(p).inv(),
        old(p).cur_kind() == LuaTokenKind::TkElseIf,
    ensures
        final(p).opened(old(p).evs().len() as int, LuaSyntaxKind::ElseIfClauseStat),
        sparsed(*old(p), *final(p)),
        final(p).measure() < old(p).measure(),
    decreases old(p).measure(), 17int,
{
    let m = p.mark(LuaSyntaxKind::ElseIfClauseStat);
    p.bump();
    if parse_expr(p).is_err() {
        push_expr_error_lazy(p, "expected condition expression after 'elseif'");
    }
    expect_keyword_with_recovery(p, LuaTokenKind::TkThen, "expected 'then' after 'elseif' condition");
    parse_block(p)?;
    Ok(p.complete(m))
}

/// Parses `else block`.
fn parse_else_clause(p: &mut LuaParser) -> (r: ParseResult)
    requires
        old(p).inv(),
        old(p).cur_kind() == LuaTokenKind::TkElse,
    ensures
        final(p).opened(old(p).evs().len() as int, LuaSyntaxKind::ElseClauseStat),
        sparsed(*old(p), *final(p)),
        final(p).measure() < old(p).measure(),
    decreases old(p).measure(), 17int,
{
    let m = p.mark(LuaSyntaxKind::ElseClauseStat);
    p.bump();
    parse_block(p)?;
    Ok(p.complete(m))
}

/// Parses `while cond do block end`.
fn parse_while(p: &mut LuaParser) -> (r: ParseResult)
    requires
        old(p).inv(),
        old(p).cur_kind() == LuaTokenKind::TkWhile,
    ensures
        r is Ok ==> closed_by_end(*final(p)) || final(p).errs().len() > old(p).errs().len(),
        final(p).opened(old(p).evs().len() as int, LuaSyntaxKind::WhileStat),
        sparsed(*old(p), *final(p)),
        final(p).measure() < old(p).measure(),
    decreases old(p).measure(), 17int,
{
    let m = p.mark(LuaSyntaxKind::WhileStat);
    let while_start_range = p.current_token_range();
    p.bump();
    if parse_expr(p).is_err() {
        push_expr_error_lazy(p, "expected condition expression after 'while'");
        recover_to_keywords(p, &[LuaTokenKind::TkDo, LuaTokenKind::TkEnd]);
    }
    if !expect_keyword_with_recovery(p, LuaTokenKind::TkDo, "expected 'do' after while condition") {
        recover_to_keywords(p, &[LuaTokenKind::TkEnd]);
    }
    if p.current_token() != LuaTokenKind::TkEnd && p.current_token() != LuaTokenKind::TkEof {
        parse_block(p)?;
    }
    Ok(close_block_stat(p, m, while_start_range, "expected 'end' to close while statement"))
}

/// Parses `do block end`.
fn parse_do(p: &mut LuaParser) -> (r: ParseResult)
    requires
        old(p).inv(),
        old(p).cur_kind() == LuaTokenKind::TkDo,
    ensures
        r is Ok ==> closed_by_end(*final(p)) || final(p).errs().len() > old(p).errs().len(),
        final(p).opened(old(p).evs().len() as int, LuaSyntaxKind::DoStat),
        sparsed(*old(p), *final(p)),
        final(p).measure() < old(p).measure(),
    decreases old(p).measure(), 17int,
{
    let m = p.mark(LuaSyntaxKind::DoStat);
    let do_start_range = p.current_token_range();
    p.bump();
    parse_block(p)?;
    Ok(close_block_stat(p, m, do_start_range, "expected 'end' after 'do' block"))
}

/// Parses a numeric `for name = a, b [, c] do block end` or a generic
/// `for names in exprs do block end`.
#[verifier::rlimit(50)]
fn parse_for(p: &mut LuaParser) -> (r: ParseResult)
    requires
        old(p).inv(),
        old(p).cur_kind() == LuaTokenKind::TkFor,
    ensures
        r is Ok ==> closed_by_end(*final(p)) || final(p).errs().len() > old(p).errs().len(),
        final(p).opened(old(p).evs().len() as int, LuaSyntaxKind::ForStat) || final(p).opened(
            old(p).evs().len() as int,
            LuaSyntaxKind::ForRangeStat,
        ),
        sparsed(*old(p), *final(p)),
        final(p).measure() < old(p).measure(),
    decreases old(p).measure(), 17int,
{
    let m = p.mark(LuaSyntaxKind::ForStat);
    let for_start_range = p.current_token_range();
    p.bump();
    if p.current_token() == LuaTokenKind::TkName {
        p.bump();
    } else {
        push_expr_error_lazy(p, "expected variable name after 'for'");
        recover_to_keywords(
            p,
            &[
                LuaTokenKind::TkAssign,
                LuaTokenKind::TkIn,
                LuaTokenKind::TkComma,
                LuaTokenKind::TkDo,
                LuaTokenKind::TkEnd,
            ],
        );
    }
    match p.current_token() {
        LuaTokenKind::TkAssign => {
            p.bump();
            if parse_expr(p).is_err() {
                push_expr_error_lazy(p, "expected start value expression in numeric for loop");
            }
            if p.current_token() == LuaTokenKind::TkComma {
                p.bump();
            } else {
                push_expr_error_lazy(p, "expected ',' after start value in numeric for loop");
            }
            if parse_expr(p).is_err() {
                push_expr_error_lazy(p, "expected end value expression in numeric for loop");
            }
            if p.current_token() == LuaTokenKind::TkComma {
                p.bump();
                if parse_expr(p).is_err() {
                    push_expr_error_lazy(p, "expected step value expression in numeric for loop");
                }
            }
        },
        LuaTokenKind::TkComma | LuaTokenKind::TkIn => {
            p.set_kind(&m, LuaSyntaxKind::ForRangeStat);
            proof { assert(crate::parser::lua_parser::lua_kept(*old(p), *p)); }
            while p.current_token() == LuaTokenKind::TkComma
                invariant
                    sparsed(*old(p), *p),
                    p.level() >= old(p).level() + 1,
                    p.valid_start(m.position as int),
                    p.opened(m.position as int, LuaSyntaxKind::ForRangeStat),
                    m.position == old(p).evs().len(),
                    p.measure() < old(p).measure(),
                decreases p.measure(),
            {
                p.bump();
                if p.current_token() == LuaTokenKind::TkName {
                    p.bump();
                } else {
                    push_expr_error_lazy(p, "expected variable name after ','");
                }
            }
            if p.current_token() == LuaTokenKind::TkIn {
                p.bump();
            } else {
                push_expr_error_lazy(p, "expected 'in' after variable list in generic for loop");
            }
            if parse_expr_list_impl(p).is_err() {
                push_expr_error_lazy(p, "expected iterator expression after 'in'");
            }
        },
        _ => {
            push_expr_error_lazy(
                p,
                "expected '=' for numeric for loop or ',' or 'in' for generic for loop",
            );
        },
    }
    if !expect_keyword_with_recovery(p, LuaTokenKind::TkDo, "expected 'do' in for statement") {
        recover_to_keywords(p, &[LuaTokenKind::TkEnd]);
    }
    if p.current_token() != LuaTokenKind::TkEnd && p.current_token() != LuaTokenKind::TkEof {
        parse_block(p)?;
    }
    Ok(close_block_stat(p, m, for_start_range, "expected 'end' to close for statement"))
}

/// Parses `function name body`.
fn parse_function(p: &mut LuaParser) -> (r: ParseResult)
    requires
        old(p).inv(),
        old(p).cur_kind() == LuaTokenKind::TkFunction,
    ensures
        final(p).opened(old(p).evs().len() as int, LuaSyntaxKind::FuncStat),
        sparsed(*old(p), *final(p)),
        final(p).measure() < old(p).measure(),
        r is Ok ==> closed_by_end(*final(p)) || final(p).errs().len() > old(p).errs().len(),
    decreases old(p).measure(), 17int,
{
    let m = p.mark(LuaSyntaxKind::FuncStat);
    p.bump();
    parse_func_name(p)?;
    let ghost q0 = *p;
    parse_closure_expr(p)?;
    let ghost q1 = *p;
    if_token_bump(p, LuaTokenKind::TkSemicolon);
    let ghost q2 = *p;
    let cm = p.complete(m);
    proof {
        assert(crate::parser::lua_parser::lua_kept(*old(p), q0));
        assert(crate::parser::lua_parser::lua_kept(q1, q2));
        if q1.idx() < q1.toks().len() && q2.idx() != q1.idx() {
            assert(prev_grammar_index(q2.toks(), q2.idx() as int) == q1.idx());
        }
    }
    Ok(cm)
}

/// Parses the name of a function statement: `name{.name}[:name]`.
fn parse_func_name(p: &mut LuaParser) -> (r: ParseResult)
    requires
        old(p).inv(),
    ensures
        eparsed(*old(p), *final(p), r),
        r is Ok ==> final(p).measure() < old(p).measure(),
        final(p).valid_start(old(p).evs().len() as int),
{
    let m = p.mark(LuaSyntaxKind::NameExpr);
    if expect_token(p, LuaTokenKind::TkName).is_err() {
        push_expr_error_lazy(p, "expected function name after 'function'");
        return Err(ParseFailReason::UnexpectedToken);
    }
    if p.current_token() == LuaTokenKind::TkDot || p.current_token() == LuaTokenKind::TkColon {
        let mut cm = p.complete(m);
        while p.current_token() == LuaTokenKind::TkDot
            invariant
                p.valid_start(old(p).evs().len() as int),
                p.step_from(old(p)),
                p.level() == old(p).level(),
                p.valid_start(cm.start as int),
                p.measure() < old(p).measure(),
            decreases p.measure(),
        {
            let m = p.precede(&cm, LuaSyntaxKind::IndexExpr);
            p.bump();
            if expect_token(p, LuaTokenKind::TkName).is_err() {
                push_expr_error_lazy(p, "expected name after '.'");
            }
            cm = p.complete(m);
        }
        if p.current_token() == LuaTokenKind::TkColon {
            let m = p.precede(&cm, LuaSyntaxKind::IndexExpr);
            p.bump();
            if expect_token(p, LuaTokenKind::TkName).is_err() {
                push_expr_error_lazy(p, "expected name after ':'");
            }
            cm = p.complete(m);
        }
        Ok(cm)
    } else {
        Ok(p.complete(m))
    }
}

/// Parses `local function name body`, or `local names [= exprs]` (with
/// attributes, which Lua 5.5 also allows before the names).
fn parse_local(p: &mut LuaParser) -> (r: ParseResult)
    requires
        old(p).inv(),
        old(p).cur_kind() == LuaTokenKind::TkLocal,
    ensures
        final(p).opened(old(p).evs().len() as int, LuaSyntaxKind::LocalStat) || final(p).opened(
            old(p).evs().len() as int,
            LuaSyntaxKind::LocalFuncStat,
        ),
        sparsed(*old(p), *final(p)),
        final(p).measure() < old(p).measure(),
        r is Ok && final(p).opened(old(p).evs().len() as int, LuaSyntaxKind::LocalFuncStat) ==> closed_by_end(*final(p)) || final(p).errs().len() > old(p).errs().len(),
    decreases old(p).measure(), 17int,
{
    let m = p.mark(LuaSyntaxKind::LocalStat);
    p.bump();
    let ghost mut func_branch: bool = false;
    match p.current_token() {
        LuaTokenKind::TkFunction => {
            proof { func_branch = true; }
            p.bump();
            p.set_kind(&m, LuaSyntaxKind::LocalFuncStat);
            proof { assert(crate::parser::lua_parser::lua_kept(*old(p), *p)); }
            if parse_local_name(p, false).is_err() {
                push_expr_error_lazy(p, "expected function name after 'local function'");
            }
            let ghost q0 = *p;
            if parse_closure_expr(p).is_err() {
                push_expr_error_lazy(p, "invalid function definition");
            }
            proof { assert(crate::parser::lua_parser::lua_kept(*old(p), q0)); }
        },
        LuaTokenKind::TkName => {
            parse_variable_name_list(p, true)?;
            if p.current_token().is_assign_op() {
                p.bump();
                if parse_expr_list_impl(p).is_err() {
                    push_expr_error_lazy(p, "expected initialization expression after '='");
                }
            }
        },
        LuaTokenKind::TkLt => {
            if p.parse_config().level().at_least(LuaLanguageLevel::Lua55) {
                if parse_attrib(p).is_err() {
                    push_expr_error_lazy(p, "invalid attribute syntax");
                }
                parse_variable_name_list(p, true)?;
                if p.current_token().is_assign_op() {
                    p.bump();
                    if parse_expr_list_impl(p).is_err() {
                        push_expr_error_lazy(p, "expected initialization expression after '='");
                    }
                }
            } else {
                push_expr_error_lazy(p, "local attributes are not supported in this Lua version");
                return Err(ParseFailReason::UnexpectedToken);
            }
        },
        _ => {
            push_expr_error_lazy(p, "expected 'function', variable name, or attribute after 'local'");
            return Err(ParseFailReason::UnexpectedToken);
        },
    }
    let ghost q1 = *p;
    proof {
        if !func_branch {
            assert(q1.opened(old(p).evs().len() as int, LuaSyntaxKind::LocalStat));
        }
    }
    if_token_bump(p, LuaTokenKind::TkSemicolon);
    let ghost q2 = *p;
    let cm = p.complete(m);
    proof {
        assert(crate::parser::lua_parser::lua_kept(q1, q2));
        if q1.idx() < q1.toks().len() && q2.idx() != q1.idx() {
            assert(prev_grammar_index(q2.toks(), q2.idx() as int) == q1.idx());
        }
        if !func_branch {
            assert(p.opened(old(p).evs().len() as int, LuaSyntaxKind::LocalStat));
        }
    }
    Ok(cm)
}

/// Parses a local name, with an attribute after it where allowed.
fn parse_local_name(p: &mut LuaParser, support_attrib: bool) -> (r: ParseResult)
    requires
        old(p).inv(),
    ensures
        final(p).opened(old(p).evs().len() as int, LuaSyntaxKind::LocalName),
        eparsed(*old(p), *final(p), r),
        r is Ok,
        final(p).level() == old(p).level(),
        old(p).cur_kind() == LuaTokenKind::TkName ==> final(p).measure() < old(p).measure(),
        final(p).valid_start(old(p).evs().len() as int),
{
    let m = p.mark(LuaSyntaxKind::LocalName);
    if expect_token(p, LuaTokenKind::TkName).is_err() {
        push_expr_error_lazy(p, "expected variable name after 'local'");
    }
    if support_attrib && p.current_token() == LuaTokenKind::TkLt {
        parse_attrib(p)?;
    }
    Ok(p.complete(m))
}

/// Parses an attribute `<name>`; it is an error before Lua 5.4.
fn parse_attrib(p: &mut LuaParser) -> (r: ParseResult)
    requires
        old(p).inv(),
    ensures
        final(p).opened(old(p).evs().len() as int, LuaSyntaxKind::Attribute),
        eparsed(*old(p), *final(p), r),
        r is Ok,
        final(p).level() == old(p).level(),
        old(p).cur_kind() != LuaTokenKind::TkEof ==> final(p).measure() < old(p).measure(),
{
    let m = p.mark(LuaSyntaxKind::Attribute);
    let range = p.current_token_range();
    p.bump();
    if expect_token(p, LuaTokenKind::TkName).is_err() {
        push_expr_error_lazy(p, "expected attribute name after '<'");
    }
    if expect_token(p, LuaTokenKind::TkGt).is_err() {
        push_expr_error_lazy(p, "expected '>' after attribute name");
    }
    if !p.parse_config().support_local_attrib() {
        p.push_error(
            LuaParseError::syntax_error_from("local attribute is not supported for current version", range),
        );
    }
    Ok(p.complete(m))
}

/// Parses `return [exprs] [;]`.
fn parse_return(p: &mut LuaParser) -> (r: ParseResult)
    requires
        old(p).inv(),
        old(p).cur_kind() == LuaTokenKind::TkReturn,
    ensures
        final(p).opened(old(p).evs().len() as int, LuaSyntaxKind::ReturnStat),
        sparsed(*old(p), *final(p)),
        final(p).measure() < old(p).measure(),
    decreases old(p).measure(), 17int,
{
    let m = p.mark(LuaSyntaxKind::ReturnStat);
    p.bump();
    if !block_follow(p) && p.current_token() != LuaTokenKind::TkSemicolon && parse_expr_list_impl(p).is_err() {
        push_expr_error_lazy(p, "expected expression in return statement");
    }
    if_token_bump(p, LuaTokenKind::TkSemicolon);
    Ok(p.complete(m))
}

/// Parses `break [;]`.
fn parse_break(p: &mut LuaParser) -> (r: ParseResult)
    requires
        old(p).inv(),
        old(p).cur_kind() == LuaTokenKind::TkBreak,
    ensures
        final(p).opened(old(p).evs().len() as int, LuaSyntaxKind::BreakStat),
        sparsed(*old(p), *final(p)),
        final(p).measure() < old(p).measure(),
{
    let m = p.mark(LuaSyntaxKind::BreakStat);
    p.bump();
    if_token_bump(p, LuaTokenKind::TkSemicolon);
    Ok(p.complete(m))
}

/// Parses `repeat block until cond`.
fn parse_repeat(p: &mut LuaParser) -> (r: ParseResult)
    requires
        old(p).inv(),
        old(p).cur_kind() == LuaTokenKind::TkRepeat,
    ensures
        final(p).opened(old(p).evs().len() as int, LuaSyntaxKind::RepeatStat),
        sparsed(*old(p), *final(p)),
        final(p).measure() < old(p).measure(),
    decreases old(p).measure(), 17int,
{
    let m = p.mark(LuaSyntaxKind::RepeatStat);
    p.bump();
    parse_block(p)?;
    if expect_token(p, LuaTokenKind::TkUntil).is_err() {
        push_expr_error_lazy(p, "expected 'until' after repeat block");
    }
    if parse_expr(p).is_err() {
        push_expr_error_lazy(p, "expected condition expression after 'until'");
    }
    if_token_bump(p, LuaTokenKind::TkSemicolon);
    Ok(p.complete(m))
}

/// Parses `goto name [;]`.
fn parse_goto(p: &mut LuaParser) -> (r: ParseResult)
    requires
        old(p).inv(),
        old(p).cur_kind() == LuaTokenKind::TkGoto,
    ensures
        final(p).opened(old(p).evs().len() as int, LuaSyntaxKind::GotoStat),
        sparsed(*old(p), *final(p)),
        final(p).measure() < old(p).measure(),
{
    let m = p.mark(LuaSyntaxKind::GotoStat);
    p.bump();
    if expect_token(p, LuaTokenKind::TkName).is_err() {
        push_expr_error_lazy(p, "expected label name after 'goto'");
    }
    if_token_bump(p, LuaTokenKind::TkSemicolon);
    Ok(p.complete(m))
}

/// Parses a lone `;`.
fn parse_empty_stat(p: &mut LuaParser) -> (r: ParseResult)
    requires
        old(p).inv(),
        old(p).cur_kind() == LuaTokenKind::TkSemicolon,
    ensures
        final(p).opened(old(p).evs().len() as int, LuaSyntaxKind::EmptyStat),
        sparsed(*old(p), *final(p)),
        final(p).measure() < old(p).measure(),
{
    let m = p.mark(LuaSyntaxKind::EmptyStat);
    p.bump();
    Ok(p.complete(m))
}

/// Whether the token after the current one of `p` makes a `global`
/// declaration: a name, `<`, `function` or `*`.
pub open spec fn global_decl_follows(p: LuaParser) -> bool {
    let k = if p.idx() >= p.toks().len() {
        LuaTokenKind::TkEof
    } else {
        next_non_trivia_kind(p.toks(), p.idx() + 1)
    };
    k == LuaTokenKind::TkName || k == LuaTokenKind::TkLt || k == LuaTokenKind::TkFunction || k
        == LuaTokenKind::TkMul
}

/// Parses a Lua 5.5 `global` declaration, with the name `global` as its
/// keyword: names, an attribute and names, a function, or `*`.  When the
/// token after it fits none of these, nothing is parsed and an empty marker
/// comes back.
fn try_parse_global_stat(p: &mut LuaParser) -> (r: ParseResult)
    requires
        old(p).inv(),
        old(p).cur_kind() == LuaTokenKind::TkName,
    ensures
        sparsed(*old(p), *final(p)),
        final(p).measure() < old(p).measure() || (r matches Ok(cm) && cm.kind == LuaSyntaxKind::NoneKind
            && final(p).idx() == old(p).idx() && final(p).cur_kind() == old(p).cur_kind()),
        global_decl_follows(*old(p)) ==> final(p).measure() < old(p).measure() && final(p).valid_start(
            old(p).evs().len() as int,
        ) && (final(p).opened(old(p).evs().len() as int, LuaSyntaxKind::GlobalStat) || final(p).opened(
            old(p).evs().len() as int,
            LuaSyntaxKind::FuncStat,
        )),
        global_decl_follows(*old(p)) ==> (r matches Ok(cm) ==> cm.kind != LuaSyntaxKind::NoneKind),
        !global_decl_follows(*old(p)) ==> (r matches Ok(cm) && cm.kind == LuaSyntaxKind::NoneKind
            && final(p).idx() == old(p).idx() && final(p).cur_kind() == old(p).cur_kind() && final(p).evs()
            == old(p).evs().push(MarkEvent::NodeStart { kind: LuaSyntaxKind::NoneKind, parent: 0 })),
    decreases old(p).measure(), 16int,
{
    let m = p.mark(LuaSyntaxKind::GlobalStat);
    match p.peek_next_token() {
        LuaTokenKind::TkName => {
            p.set_current_token_kind(LuaTokenKind::TkGlobal);
            p.bump();
            parse_global_name_list(p)?;
        },
        LuaTokenKind::TkLt => {
            p.set_current_token_kind(LuaTokenKind::TkGlobal);
            p.bump();
            parse_attrib(p)?;
            parse_global_name_list(p)?;
        },
        LuaTokenKind::TkFunction => {
            p.set_current_token_kind(LuaTokenKind::TkGlobal);
            p.bump();
            p.set_kind(&m, LuaSyntaxKind::FuncStat);
            proof { assert(crate::parser::lua_parser::lua_kept(*old(p), *p)); }
            p.bump();
            let m2 = p.mark(LuaSyntaxKind::NameExpr);
            if expect_token(p, LuaTokenKind::TkName).is_err() {
                push_expr_error_lazy(p, "expected function name after 'global function'");
                return Err(ParseFailReason::UnexpectedToken);
            }
            p.complete(m2);
            parse_closure_expr(p)?;
        },
        LuaTokenKind::TkMul => {
            p.set_current_token_kind(LuaTokenKind::TkGlobal);
            p.bump();
            p.bump();
        },
        _ => {
            let cm = p.undo(m);
            proof { assert(crate::parser::lua_parser::lua_kept(*old(p), *p)); }
            return Ok(cm);
        },
    }
    if_token_bump(p, LuaTokenKind::TkSemicolon);
    let cm = p.complete(m);
    proof {
        assert(p.opened(old(p).evs().len() as int, LuaSyntaxKind::GlobalStat) || p.opened(
            old(p).evs().len() as int,
            LuaSyntaxKind::FuncStat,
        ));
        assert(p.opened(cm.start as int, cm.kind));
    }
    Ok(cm)
}

/// Whether a node kind is one of the call expressions.
pub open spec fn spec_is_call_kind(kind: LuaSyntaxKind) -> bool {
    ||| kind == LuaSyntaxKind::CallExpr
    ||| kind == LuaSyntaxKind::AssertCallExpr
    ||| kind == LuaSyntaxKind::ErrorCallExpr
    ||| kind == LuaSyntaxKind::RequireCallExpr
    ||| kind == LuaSyntaxKind::TypeCallExpr
    ||| kind == LuaSyntaxKind::SetmetatableCallExpr
}

/// Whether the node kind is a call of any kind.
fn is_call_kind(kind: LuaSyntaxKind) -> (b: bool)
    ensures
        b <==> spec_is_call_kind(kind),
{
    match kind {
        LuaSyntaxKind::CallExpr | LuaSyntaxKind::AssertCallExpr | LuaSyntaxKind::ErrorCallExpr
        | LuaSyntaxKind::RequireCallExpr | LuaSyntaxKind::TypeCallExpr
        | LuaSyntaxKind::SetmetatableCallExpr => true,
        _ => false,
    }
}

/// Where an assignment, call or `global` statement starts at event `i`:
/// its node starts there, or (after a `global` name that turned out to be
/// an ordinary name) right after an empty node start.
pub open spec fn statement_opened(p: LuaParser, i: int) -> bool {
    ||| p.opened(i, LuaSyntaxKind::AssignStat)
    ||| p.opened(i, LuaSyntaxKind::CallExprStat)
    ||| p.opened(i, LuaSyntaxKind::GlobalStat)
    ||| p.opened(i, LuaSyntaxKind::FuncStat)
    ||| p.opened(i, LuaSyntaxKind::NoneKind) && (p.opened(i + 1, LuaSyntaxKind::AssignStat) || p.opened(
        i + 1,
        LuaSyntaxKind::CallExprStat,
    ))
}

/// Parses an assignment, a call statement, or (in Lua 5.5) a `global`
/// declaration.
fn parse_assign_or_expr_or_global_stat(p: &mut LuaParser) -> (r: ParseResult)
    requires
        old(p).inv(),
    ensures
        r is Ok ==> statement_opened(*final(p), old(p).evs().len() as int),
        sparsed(*old(p), *final(p)),
        spec_expr_start(old(p).cur_kind()) ==> final(p).measure() < old(p).measure(),
        r is Ok ==> final(p).measure() < old(p).measure(),
        final(p).measure() == old(p).measure() ==> final(p).idx() == old(p).idx() && final(p).cur_kind()
            == old(p).cur_kind(),
    decreases old(p).measure(), 17int,
{
    if p.parse_config().level().at_least(LuaLanguageLevel::Lua55) && p.current_token()
        == LuaTokenKind::TkName {
        let token_text = p.current_token_text();
        if vec_eq_str(&token_text, "global") {
            let cm = try_parse_global_stat(p)?;
            if !cm.is_invalid() {
                return Ok(cm);
            }
        }
    }
    let ghost q = *p;
    assert(q.evs().len() == old(p).evs().len() || (q.evs().len() == old(p).evs().len() + 1 && q.opened(
        old(p).evs().len() as int,
        LuaSyntaxKind::NoneKind,
    )));
    let m = p.mark(LuaSyntaxKind::AssignStat);
    let range = p.current_token_range();
    let cm = match parse_expr(p) {
        Ok(cm) => cm,
        Err(err) => {
            p.push_error(LuaParseError::syntax_error_from("expected expression in assignment or statement", range));
            return Err(err);
        },
    };
    if is_call_kind(cm.kind) {
        proof { assert(crate::parser::lua_parser::lua_kept(q, *p)); }
        p.set_kind(&m, LuaSyntaxKind::CallExprStat);
        proof {
            assert(crate::parser::lua_parser::lua_kept(*old(p), *p));
            assert(crate::parser::lua_parser::lua_kept(q, *p));
        }
        if_token_bump(p, LuaTokenKind::TkSemicolon);
        let cm = p.complete(m);
        proof {
            assert(crate::parser::lua_parser::lua_kept(q, *p));
            assert(p.opened(m.position as int, LuaSyntaxKind::CallExprStat));
            if q.evs().len() != old(p).evs().len() {
                assert(p.opened(old(p).evs().len() as int, LuaSyntaxKind::NoneKind));
            }
        }
        return Ok(cm);
    }
    if !(cm.kind == LuaSyntaxKind::NameExpr || cm.kind == LuaSyntaxKind::IndexExpr) {
        p.push_error(LuaParseError::syntax_error_from(
            "invalid left-hand side in assignment (expected variable or table index)",
            range,
        ));
        return Err(ParseFailReason::UnexpectedToken);
    }
    while p.current_token() == LuaTokenKind::TkComma
        invariant
            sparsed(*old(p), *p),
            p.level() >= old(p).level() + 1,
            p.valid_start(m.position as int),
            p.opened(m.position as int, LuaSyntaxKind::AssignStat),
            m.position == q.evs().len(),
            crate::parser::lua_parser::lua_kept(q, *p),
            q.evs().len() == old(p).evs().len() || (q.evs().len() == old(p).evs().len() + 1 && q.opened(
                old(p).evs().len() as int,
                LuaSyntaxKind::NoneKind,
            )),
            p.measure() < old(p).measure(),
        decreases p.measure(),
    {
        p.bump();
        match parse_expr(p) {
            Ok(expr_cm) => {
                if !(expr_cm.kind == LuaSyntaxKind::NameExpr || expr_cm.kind == LuaSyntaxKind::IndexExpr) {
                    push_expr_error_lazy(
                        p,
                        "invalid left-hand side in assignment (expected variable or table index)",
                    );
                    return Err(ParseFailReason::UnexpectedToken);
                }
            },
            Err(_) => {
                push_expr_error_lazy(p, "expected variable after ',' in assignment");
            },
        }
    }
    if p.current_token().is_assign_op() {
        p.bump();
        if parse_expr_list_impl(p).is_err() {
            push_expr_error_lazy(p, "expected expression after '=' in assignment");
        }
    } else {
        push_expr_error_lazy(p, "expected '=' for assignment or this is an incomplete statement");
        return Err(ParseFailReason::UnexpectedToken);
    }
    if_token_bump(p, LuaTokenKind::TkSemicolon);
    let cm = p.complete(m);
    proof {
        assert(crate::parser::lua_parser::lua_kept(q, *p));
        assert(p.opened(m.position as int, LuaSyntaxKind::AssignStat));
        if q.evs().len() != old(p).evs().len() {
            assert(p.opened(old(p).evs().len() as int, LuaSyntaxKind::NoneKind));
        }
    }
    Ok(cm)
}

/// Parses a label `::name::`.
fn parse_label_stat(p: &mut LuaParser) -> (r: ParseResult)
    requires
        old(p).inv(),
        old(p).cur_kind() == LuaTokenKind::TkDbColon,
    ensures
        final(p).opened(old(p).evs().len() as int, LuaSyntaxKind::LabelStat),
        sparsed(*old(p), *final(p)),
        final(p).measure() < old(p).measure(),
{
    let m = p.mark(LuaSyntaxKind::LabelStat);
    p.bump();
    if expect_token(p, LuaTokenKind::TkName).is_err() {
        push_expr_error_lazy(p, "expected label name after 'goto'");
    }
    if expect_token(p, LuaTokenKind::TkDbColon).is_err() {
        push_expr_error_lazy(p, "expected '::' after label name");
    }
    Ok(p.complete(m))
}

} // verus!
