pub mod tag;
pub mod types;

use vstd::prelude::*;

use crate::grammar::doc::tag::{parse_long_tag, parse_tag};
use crate::kind::lua_syntax_kind::LuaSyntaxKind;
use crate::kind::lua_token_kind::LuaTokenKind;
use crate::lexer::lua_doc_lexer::LuaDocLexerState;
use crate::parser::lua_doc_parser::{LuaDocParser, evs_kept, lemma_evs_kept_refl, lemma_evs_kept_trans};
use crate::parser::marker::CompleteMarker;
use crate::parser::parser_error::{
    LuaParseError, LuaParseErrorKind, expected_token_message, token_kind_debug, token_kind_name,
};
use crate::text::strings::push_str;

verus! {

broadcast use crate::parser::lua_doc_parser::group_kept;

/// What a parse function that gives a node or an error keeps: a parse
/// step, with the open nodes as they were on success (and the node it gives
/// recorded), or more open nodes on failure.
pub open spec fn parsed(old: LuaDocParser, new: LuaDocParser, r: Result<CompleteMarker, LuaParseError>) -> bool {
    &&& new.step_from(&old)
    &&& match r {
        Ok(cm) => new.level() == old.level() && new.valid_start(cm.start as int),
        Err(_) => new.level() >= old.level(),
    }
}

/// The same, for a parse function that gives nothing or an error.
pub open spec fn parsed_unit(old: LuaDocParser, new: LuaDocParser, r: Result<(), LuaParseError>) -> bool {
    &&& new.step_from(&old)
    &&& match r {
        Ok(_) => new.level() == old.level(),
        Err(_) => new.level() >= old.level(),
    }
}

/// The precondition of the parse functions: a parser that has started.
pub open spec fn ready(p: LuaDocParser) -> bool {
    p.inv() && p.started()
}

pub proof fn lemma_parsed_trans(a: LuaDocParser, b: LuaDocParser, c: LuaDocParser)
    requires
        b.step_from(&a),
        c.step_from(&b),
    ensures
        c.step_from(&a),
{
}

/// A doc error whose message is `prefix` followed by the name of `kind`.
pub fn doc_error_with_kind(prefix: &str, kind: LuaTokenKind, range: crate::text::text_range::SourceRange) -> (e: LuaParseError)
    ensures
        e.kind == LuaParseErrorKind::DocError,
        e.message@ == prefix@ + token_kind_name(kind),
        e.range == range,
{
    let mut s = String::new();
    push_str(&mut s, prefix);
    let k = token_kind_debug(kind);
    push_str(&mut s, k.as_str());
    LuaParseError::from_message(LuaParseErrorKind::DocError, s, range)
}

/// Parses a whole comment: a `Comment` node around its docs.
pub fn parse_comment(p: &mut LuaDocParser)
    requires
        old(p).inv(),
    ensures
        final(p).opened(old(p).evs().len() as int, LuaSyntaxKind::Comment),
        final(p).step_from(old(p)),
        final(p).level() == old(p).level(),
        final(p).cur_kind() == LuaTokenKind::TkEof,
        final(p).evs().len() > old(p).evs().len(),
        final(p).evs()[old(p).evs().len() as int] is NodeStart,
{
    let ghost p0 = *p;
    let m = p.mark(LuaSyntaxKind::Comment);
    let ghost p1 = *p;
    parse_docs(p);
    let ghost p2 = *p;
    proof { lemma_parsed_trans(p0, p1, p2); }
    m.complete(p);
    proof { lemma_parsed_trans(p0, p2, *p); }
}

/// Parses the docs of a comment until its end: tags, descriptions and the
/// trivia between them.
pub fn parse_docs(p: &mut LuaDocParser)
    requires
        old(p).inv(),
    ensures
        final(p).step_from(old(p)),
        final(p).level() == old(p).level(),
        final(p).cur_kind() == LuaTokenKind::TkEof,
{
    proof { lemma_evs_kept_refl(p.evs()); }
    while p.current_token() != LuaTokenKind::TkEof
        invariant
            p.step_from(old(p)),
            p.level() == old(p).level(),
        decreases p.measure(),
    {
        let ghost p0 = *p;
        parse_doc_item(p);
        let ghost p1 = *p;
        proof { lemma_parsed_trans(*old(p), p0, p1); }
        if !p.lexer_is_invalid() && !(p.current_token() == LuaTokenKind::TkDocStart
            || p.current_token() == LuaTokenKind::TkDocLongStart) {
            p.bump_to_end();
            proof { lemma_parsed_trans(*old(p), p1, *p); }
            continue;
        }
        p.set_lexer_state(LuaDocLexerState::Init);
        proof { lemma_parsed_trans(*old(p), p1, *p); }
    }
}

/// Parses a plain-comment description line (or a region marker).
fn parse_normal_description(p: &mut LuaDocParser)
    requires
        old(p).inv(),
        old(p).cur_kind() == LuaTokenKind::TkNormalStart,
    ensures
        final(p).step_from(old(p)),
        final(p).measure() < old(p).measure(),
        final(p).level() == old(p).level(),
{
    let ghost p0 = *p;
    p.set_lexer_state(LuaDocLexerState::NormalDescription);
    let mut m = p.mark(LuaSyntaxKind::DocDescription);
    p.bump();
    if_token_bump(p, LuaTokenKind::TkWhitespace);
    if p.current_token() == LuaTokenKind::TkDocRegion || p.current_token() == LuaTokenKind::TkDocEndRegion {
        m.undo(p);
        proof { assert(crate::parser::lua_doc_parser::kept(*old(p), *p)); }
        p.bump();
        m = p.mark(LuaSyntaxKind::DocDescription);
    }
    let ghost p1 = *p;
    proof { lemma_evs_kept_refl(p.evs()); }
    while p.current_token() == LuaTokenKind::TkDocDetail || p.current_token() == LuaTokenKind::TkEndOfLine
        || p.current_token() == LuaTokenKind::TkWhitespace || p.current_token()
        == LuaTokenKind::TkDocContinue || p.current_token() == LuaTokenKind::TkNormalStart
        invariant
            p.step_from(&p1),
            p.level() == p1.level(),
            p.valid_start(m.position as int),
            p1.level() == p0.level() + 1,
        decreases p.measure(),
    {
        let ghost q = *p;
        p.bump();
        proof { lemma_parsed_trans(p1, q, *p); }
    }
    let ghost p2 = *p;
    m.complete(p);
    proof { lemma_parsed_trans(p1, p2, *p); }
}

/// Parses one item of a comment: a tag, a description, or a token skipped.
fn parse_doc_item(p: &mut LuaDocParser)
    requires
        old(p).inv(),
        old(p).cur_kind() != LuaTokenKind::TkEof,
    ensures
        final(p).step_from(old(p)),
        final(p).measure() < old(p).measure(),
        final(p).level() == old(p).level(),
{
    let ghost p0 = *p;
    match p.current_token() {
        LuaTokenKind::TkDocStart => {
            p.set_lexer_state(LuaDocLexerState::Tag);
            let ghost p1 = *p;
            p.bump();
            let ghost p2 = *p;
            parse_tag(p);
            proof { lemma_parsed_trans(p0, p1, p2); lemma_parsed_trans(p0, p2, *p); }
        },
        LuaTokenKind::TkDocLongStart => {
            p.set_lexer_state(LuaDocLexerState::Tag);
            let ghost p1 = *p;
            p.bump();
            let ghost p2 = *p;
            parse_long_tag(p);
            proof { lemma_parsed_trans(p0, p1, p2); lemma_parsed_trans(p0, p2, *p); }
        },
        LuaTokenKind::TkNormalStart => {
            parse_normal_description(p);
        },
        LuaTokenKind::TkLongCommentStart => {
            p.set_lexer_state(LuaDocLexerState::LongDescription);
            let ghost p1 = *p;
            p.bump();
            let ghost p2 = *p;
            parse_description(p);
            proof { lemma_parsed_trans(p0, p1, p2); lemma_parsed_trans(p0, p2, *p); }
        },
        _ => {
            p.bump();
        },
    }
}

/// Parses a description: its detail text, line ends, blanks and continuations.
pub fn parse_description(p: &mut LuaDocParser)
    requires
        old(p).inv(),
    ensures
        final(p).opened(old(p).evs().len() as int, LuaSyntaxKind::DocDescription),
        final(p).step_from(old(p)),
        final(p).valid_start(old(p).evs().len() as int),
        final(p).level() == old(p).level(),
        final(p).errs() == old(p).errs(),
{
    let ghost p0 = *p;
    let m = p.mark(LuaSyntaxKind::DocDescription);
    proof { lemma_evs_kept_refl(p.evs()); }
    let ghost p1 = *p;
    while p.current_token() == LuaTokenKind::TkDocDetail || p.current_token() == LuaTokenKind::TkEndOfLine
        || p.current_token() == LuaTokenKind::TkWhitespace || p.current_token()
        == LuaTokenKind::TkDocContinue || p.current_token() == LuaTokenKind::TkNormalStart
        invariant
            p.step_from(&p1),
            p.level() == p1.level(),
            p.errs() == p1.errs(),
            p.valid_start(m.position as int),
            p.opened(m.position as int, LuaSyntaxKind::DocDescription),
            m.position == old(p).evs().len(),
            p1.level() == p0.level() + 1,
        decreases p.measure(),
    {
        let ghost q = *p;
        p.bump();
        proof { lemma_parsed_trans(p1, q, *p); }
    }
    let ghost p2 = *p;
    m.complete(p);
    proof {
        lemma_parsed_trans(p0, p1, p2);
        lemma_parsed_trans(p0, p2, *p);
    }
}

/// Eats a token of kind `token`, or gives the error that it is missing.
pub fn expect_token(p: &mut LuaDocParser, token: LuaTokenKind) -> (r: Result<(), LuaParseError>)
    requires
        old(p).inv(),
    ensures
        final(p).step_from(old(p)),
        final(p).level() == old(p).level(),
        r is Ok <==> old(p).cur_kind() == token,
        r is Ok ==> final(p).errs() == old(p).errs(),
        r is Ok && token != LuaTokenKind::TkEof ==> final(p).measure() < old(p).measure(),
        r is Err ==> *final(p) == *old(p),
        r matches Err(e) ==> e.kind == LuaParseErrorKind::SyntaxError && e.range == old(p).cur_range()
            && e.message@ == "expected "@ + token_kind_name(token) + ", but get "@ + token_kind_name(old(p).cur_kind()),
{
    if p.current_token() == token {
        p.bump();
        Ok(())
    } else {
        proof { lemma_evs_kept_refl(p.evs()); }
        let msg = expected_token_message(token, p.current_token());
        Err(LuaParseError::from_message(LuaParseErrorKind::SyntaxError, msg, p.current_token_range()))
    }
}

/// Eats a token of kind `token` if it is the current one.
pub fn if_token_bump(p: &mut LuaDocParser, token: LuaTokenKind) -> (b: bool)
    requires
        old(p).inv(),
    ensures
        final(p).step_from(old(p)),
        final(p).level() == old(p).level(),
        final(p).errs() == old(p).errs(),
        b <==> old(p).cur_kind() == token,
        b && token != LuaTokenKind::TkEof ==> final(p).measure() < old(p).measure(),
        !b ==> *final(p) == *old(p),
{
    if p.current_token() == token {
        p.bump();
        true
    } else {
        proof { lemma_evs_kept_refl(p.evs()); }
        false
    }
}

} // verus!
