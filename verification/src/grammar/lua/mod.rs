pub mod expr;
pub mod stat;

use vstd::prelude::*;

use crate::grammar::{ParseFailReason, ParseResult};
use crate::grammar::lua::stat::parse_stats;
use crate::kind::lua_syntax_kind::LuaSyntaxKind;
use crate::kind::lua_token_kind::LuaTokenKind;
use crate::parser::lua_parser::{LuaParser, prev_grammar_index, spec_is_trivia_kind};

verus! {

broadcast use crate::parser::lua_parser::group_lua_kept;

/// What a parse function that gives an expression node keeps: a parse step
/// that leaves open nodes open, and on success the node it gives recorded.
pub open spec fn eparsed(old: LuaParser, new: LuaParser, r: ParseResult) -> bool {
    &&& new.step_from(&old)
    &&& new.level() >= old.level()
    &&& r matches Ok(cm) ==> new.valid_start(cm.start as int)
}

/// What a parse function of a statement keeps: a parse step that leaves
/// open nodes open.
pub open spec fn sparsed(old: LuaParser, new: LuaParser) -> bool {
    &&& new.step_from(&old)
    &&& new.level() >= old.level()
}

pub proof fn lemma_step_trans(a: LuaParser, b: LuaParser, c: LuaParser)
    requires
        b.step_from(&a),
        c.step_from(&b),
    ensures
        c.step_from(&a),
{
    assert forall|i: int| 0 <= i < c.toks().len() implies #[trigger] c.toks()[i].range == a.toks()[i].range by {
        assert(c.toks()[i].range == b.toks()[i].range);
    }
}

/// The tokens an expression can start with.
pub open spec fn spec_expr_start(kind: LuaTokenKind) -> bool {
    match kind {
        LuaTokenKind::TkInt | LuaTokenKind::TkFloat | LuaTokenKind::TkComplex | LuaTokenKind::TkNil
        | LuaTokenKind::TkTrue | LuaTokenKind::TkFalse | LuaTokenKind::TkDots | LuaTokenKind::TkString
        | LuaTokenKind::TkLongString | LuaTokenKind::TkLeftBrace | LuaTokenKind::TkFunction
        | LuaTokenKind::TkName | LuaTokenKind::TkLeftParen | LuaTokenKind::TkNot | LuaTokenKind::TkLen
        | LuaTokenKind::TkMinus | LuaTokenKind::TkBitXor => true,
        _ => false,
    }
}

/// The tokens a statement can start with: its keywords and the tokens an
/// expression starts with.
pub open spec fn spec_stat_start(kind: LuaTokenKind) -> bool {
    match kind {
        LuaTokenKind::TkIf | LuaTokenKind::TkWhile | LuaTokenKind::TkFor | LuaTokenKind::TkFunction
        | LuaTokenKind::TkLocal | LuaTokenKind::TkReturn | LuaTokenKind::TkBreak | LuaTokenKind::TkDo
        | LuaTokenKind::TkRepeat | LuaTokenKind::TkGoto | LuaTokenKind::TkDbColon
        | LuaTokenKind::TkSemicolon => true,
        _ => spec_expr_start(kind),
    }
}

/// The tokens at which error recovery resumes parsing statements.
pub open spec fn spec_is_statement_start(kind: LuaTokenKind) -> bool {
    match kind {
        LuaTokenKind::TkLocal | LuaTokenKind::TkFunction | LuaTokenKind::TkIf | LuaTokenKind::TkWhile
        | LuaTokenKind::TkFor | LuaTokenKind::TkRepeat | LuaTokenKind::TkDo | LuaTokenKind::TkReturn
        | LuaTokenKind::TkBreak | LuaTokenKind::TkGoto | LuaTokenKind::TkDbColon
        | LuaTokenKind::TkName => true,
        _ => false,
    }
}

pub fn is_statement_start_token(kind: LuaTokenKind) -> (b: bool)
    ensures
        b == spec_is_statement_start(kind),
        b ==> spec_stat_start(kind),
{
    match kind {
        LuaTokenKind::TkLocal | LuaTokenKind::TkFunction | LuaTokenKind::TkIf | LuaTokenKind::TkWhile
        | LuaTokenKind::TkFor | LuaTokenKind::TkRepeat | LuaTokenKind::TkDo | LuaTokenKind::TkReturn
        | LuaTokenKind::TkBreak | LuaTokenKind::TkGoto | LuaTokenKind::TkDbColon
        | LuaTokenKind::TkName => true,
        _ => false,
    }
}

/// The tokens that end a block.
pub open spec fn spec_block_follow(kind: LuaTokenKind) -> bool {
    match kind {
        LuaTokenKind::TkElse | LuaTokenKind::TkElseIf | LuaTokenKind::TkEnd | LuaTokenKind::TkEof
        | LuaTokenKind::TkUntil => true,
        _ => false,
    }
}

pub fn block_follow(p: &LuaParser) -> (b: bool)
    ensures
        b == spec_block_follow(p.cur_kind()),
{
    match p.current_token() {
        LuaTokenKind::TkElse | LuaTokenKind::TkElseIf | LuaTokenKind::TkEnd | LuaTokenKind::TkEof
        | LuaTokenKind::TkUntil => true,
        _ => false,
    }
}

/// Eats a token of kind `token`, or tells why it is missing.
pub fn expect_token(p: &mut LuaParser, token: LuaTokenKind) -> (r: Result<(), ParseFailReason>)
    requires
        old(p).inv(),
    ensures
        final(p).step_from(old(p)),
        final(p).level() == old(p).level(),
        r is Ok <==> old(p).cur_kind() == token,
        r is Ok && token != LuaTokenKind::TkEof ==> final(p).measure() < old(p).measure(),
        r is Err ==> *final(p) == *old(p),
        r matches Err(e) ==> (e == ParseFailReason::Eof <==> old(p).cur_kind() == LuaTokenKind::TkEof),
{
    if p.current_token() == token {
        p.bump();
        Ok(())
    } else if p.current_token() == LuaTokenKind::TkEof {
        Err(ParseFailReason::Eof)
    } else {
        Err(ParseFailReason::UnexpectedToken)
    }
}

/// Eats a token of kind `token` if it is the current one.
pub fn if_token_bump(p: &mut LuaParser, token: LuaTokenKind) -> (b: bool)
    requires
        old(p).inv(),
    ensures
        final(p).step_from(old(p)),
        final(p).level() == old(p).level(),
        b <==> old(p).cur_kind() == token,
        b && token != LuaTokenKind::TkEof ==> final(p).measure() < old(p).measure(),
        b && !spec_is_trivia_kind(token) && old(p).idx() < old(p).toks().len() ==> final(p).toks()
            == old(p).toks() && prev_grammar_index(final(p).toks(), final(p).idx() as int) == old(p).idx(),
        !b ==> *final(p) == *old(p),
{
    if p.current_token() == token {
        p.bump();
        true
    } else {
        false
    }
}

/// Parses a whole text: a `Block` of statements; a token that no statement
/// takes becomes an `UnknownStat` of its own.
pub fn parse_chunk(p: &mut LuaParser)
    requires
        old(p).inv(),
        old(p).idx() == 0,
    ensures
        final(p).step_from(old(p)),
        final(p).cur_kind() == LuaTokenKind::TkEof,
{
    let m = p.mark(LuaSyntaxKind::Block);
    let ghost p1 = *p;
    p.init();
    proof { lemma_step_trans(*old(p), p1, *p); }
    while p.current_token() != LuaTokenKind::TkEof
        invariant
            p.step_from(old(p)),
            p.level() >= old(p).level() + 1,
            p.valid_start(m.position as int),
        decreases p.measure(),
    {
        let ghost q0 = *p;
        let consume_count = p.current_token_index();
        parse_stats(p);
        proof { lemma_step_trans(*old(p), q0, *p); }
        if p.current_token_index() == consume_count {
            let ghost q1 = *p;
            let u = p.mark(LuaSyntaxKind::UnknownStat);
            let ghost q2 = *p;
            p.bump();
            let ghost q3 = *p;
            p.complete(u);
            proof {
                lemma_step_trans(q1, q2, q3);
                lemma_step_trans(q1, q3, *p);
                lemma_step_trans(*old(p), q1, *p);
            }
        }
    }
    let ghost q = *p;
    p.complete(m);
    proof { lemma_step_trans(*old(p), q, *p); }
}

/// Parses a block: a `Block` node around the statements up to a token that
/// ends it.
pub fn parse_block(p: &mut LuaParser) -> (r: ParseResult)
    requires
        old(p).inv(),
    ensures
        eparsed(*old(p), *final(p), r),
        r is Ok,
        spec_block_follow(final(p).cur_kind()),
    decreases old(p).measure(), 20int,
{
    let ghost p0 = *p;
    let m = p.mark(LuaSyntaxKind::Block);
    let ghost p1 = *p;
    parse_stats(p);
    let ghost p2 = *p;
    let cm = p.complete(m);
    proof {
        lemma_step_trans(p0, p1, p2);
        lemma_step_trans(p0, p2, *p);
    }
    Ok(cm)
}

} // verus!
