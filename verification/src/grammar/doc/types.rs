use vstd::prelude::*;

use crate::grammar::doc::tag::{parse_generic_decl_list, parse_tag_attribute_use};
use crate::grammar::doc::{expect_token, if_token_bump, parse_description, parsed, parsed_unit, ready};
use crate::kind::lua_operator_kind::{
    LuaOpKind, LuaTypeBinaryOperator, LuaTypeUnaryOperator, UNARY_TYPE_PRIORITY, spec_type_binary_operator,
    spec_type_unary_operator,
    type_binary_priority,
};
use crate::kind::lua_syntax_kind::LuaSyntaxKind;
use crate::kind::lua_token_kind::LuaTokenKind;
use crate::lexer::lua_doc_lexer::{
    LuaDocLexer, LuaDocLexerState, lemma_doc_token_progress, spec_lex_state, spec_next_state,
};
use crate::text::reader::EOF;
use crate::parser::lua_doc_parser::{LuaDocParser, LuaDocParserState};
use crate::parser::marker::{CompleteMarker, Marker};
use crate::parser::parser_error::{LuaParseError, LuaParseErrorKind};

verus! {

broadcast use crate::parser::lua_doc_parser::group_kept;

/// Parses a type: a multi-line union, or a sub-type followed by `?`,
/// `and <type> or <type>`, or `...`.
pub fn parse_type(p: &mut LuaDocParser) -> (r: Result<CompleteMarker, LuaParseError>)
    requires
        ready(*old(p)),
    ensures
        parsed(*old(p), *final(p), r),
        opens_type_node(old(p).cur_kind()) || old(p).cur_kind() == LuaTokenKind::TkDocContinueOr
            ==> final(p).valid_start(old(p).evs().len() as int),
        !starts_type(old(p).cur_kind()) && old(p).cur_kind() != LuaTokenKind::TkDocContinueOr ==> no_type_here(
            *old(p),
            *final(p),
            r,
        ),
    decreases old(p).measure(), 7nat,
{
    if p.current_token() == LuaTokenKind::TkDocContinueOr {
        return parse_multi_line_union_type(p);
    }
    let mut cm = parse_sub_type(p, 0)?;
    loop
        invariant
            old(p).cur_kind() != LuaTokenKind::TkDocContinueOr,
            starts_type(old(p).cur_kind()),
            opens_type_node(old(p).cur_kind()) ==> p.valid_start(old(p).evs().len() as int),
            p.step_from(old(p)),
            p.level() == old(p).level(),
            p.valid_start(cm.start as int),
        ensures
            p.step_from(old(p)),
            p.level() == old(p).level(),
            p.valid_start(cm.start as int),
        decreases p.measure(),
    {
        match p.current_token() {
            LuaTokenKind::TkDocQuestion => {
                let m = cm.precede(p, LuaSyntaxKind::TypeNullable);
                p.bump();
                cm = m.complete(p);
            },
            LuaTokenKind::TkAnd => {
                let m = cm.precede(p, LuaSyntaxKind::TypeConditional);
                p.bump();
                parse_type(p)?;
                expect_token(p, LuaTokenKind::TkOr)?;
                parse_type(p)?;
                cm = m.complete(p);
                break;
            },
            LuaTokenKind::TkDots => {
                if cm.kind == LuaSyntaxKind::TypeVariadic {
                    break;
                }
                let m = cm.precede(p, LuaSyntaxKind::TypeVariadic);
                p.bump();
                cm = m.complete(p);
                break;
            },
            _ => {
                break;
            },
        }
    }
    Ok(cm)
}

/// Parses a unary-operator type or a simple type, then the binary operators
/// that bind tighter than `limit`.
pub fn parse_sub_type(p: &mut LuaDocParser, limit: i32) -> (r: Result<CompleteMarker, LuaParseError>)
    requires
        ready(*old(p)),
    ensures
        parsed(*old(p), *final(p), r),
        opens_type_node(old(p).cur_kind()) ==> final(p).valid_start(old(p).evs().len() as int),
        !starts_type(old(p).cur_kind()) ==> no_type_here(*old(p), *final(p), r),
    decreases old(p).measure(), 6nat,
{
    let uop = LuaOpKind::to_type_unary_operator(p.current_token());
    let mut cm = if uop != LuaTypeUnaryOperator::None_ {
        let range = p.current_token_range();
        let m = p.mark(LuaSyntaxKind::TypeUnary);
        p.bump();
        match parse_sub_type(p, UNARY_TYPE_PRIORITY) {
            Ok(_) => {},
            Err(err) => {
                p.push_error(LuaParseError::doc_error_from("unary operator not followed by type", range));
                return Err(err);
            },
        }
        m.complete(p)
    } else {
        parse_simple_type(p)?
    };
    parse_binary_operator(p, &mut cm, limit)?;
    Ok(cm)
}

/// Whether the token `k` is a binary type operator that binds tighter than
/// `limit`.
pub open spec fn binds_tighter(k: LuaTokenKind, limit: i32) -> bool {
    spec_type_binary_operator(k) != LuaTypeBinaryOperator::None_ && type_binary_priority(
        spec_type_binary_operator(k),
    ).left > limit
}

/// The first tokens of a type on which parsing it opens a node at once: a
/// name, `{` and `...`.
pub open spec fn opens_type_node(k: LuaTokenKind) -> bool {
    k == LuaTokenKind::TkName || k == LuaTokenKind::TkLeftBrace || k == LuaTokenKind::TkDots
}

/// The tokens on which a type can begin: a unary type operator (`keyof`,
/// `-`), `{`, `[`, `(`, a literal, a name, a string template, `...` and `new`.
pub open spec fn starts_type(k: LuaTokenKind) -> bool {
    spec_type_unary_operator(k) != LuaTypeUnaryOperator::None_ || k == LuaTokenKind::TkLeftBrace || k
        == LuaTokenKind::TkLeftBracket || k == LuaTokenKind::TkLeftParen || k == LuaTokenKind::TkString || k
        == LuaTokenKind::TkInt || k == LuaTokenKind::TkTrue || k == LuaTokenKind::TkFalse || k
        == LuaTokenKind::TkName || k == LuaTokenKind::TkStringTemplateType || k == LuaTokenKind::TkDots || k
        == LuaTokenKind::TkDocNew
}

/// `r` is the doc error "expect type" at `range`, and `new` is `old`
/// unchanged.
pub open spec fn no_type_here(
    old: LuaDocParser,
    new: LuaDocParser,
    r: Result<CompleteMarker, LuaParseError>,
) -> bool {
    &&& r matches Err(e) && e.kind == LuaParseErrorKind::DocError && e.message@ == "expect type"@ && e.range
        == old.cur_range()
    &&& new == old
}

/// The tokens that may continue a type as a suffix: `[`, `<` and `...`.
pub open spec fn is_type_suffix(k: LuaTokenKind) -> bool {
    k == LuaTokenKind::TkLeftBracket || k == LuaTokenKind::TkLt || k == LuaTokenKind::TkDots
}

/// Parses binary operators (and their right operands) while they bind
/// tighter than `limit`; `cm` becomes the node of the whole expression.
pub fn parse_binary_operator(p: &mut LuaDocParser, cm: &mut CompleteMarker, limit: i32) -> (r: Result<(), LuaParseError>)
    requires
        ready(*old(p)),
        old(p).valid_start(old(cm).start as int),
    ensures
        parsed_unit(*old(p), *final(p), r),
        r is Ok ==> final(p).valid_start(final(cm).start as int),
        binds_tighter(old(p).cur_kind(), limit) ==> final(p).measure() < old(p).measure() && final(p).opened(
            old(p).evs().len() as int,
            LuaSyntaxKind::TypeBinary,
        ),
    decreases old(p).measure(), 1nat,
{
    let mut bop = LuaOpKind::to_parse_binary_operator(p.current_token());
    while bop != LuaTypeBinaryOperator::None_ && bop.get_priority().left > limit
        invariant
            p.measure() < old(p).measure() || (*p == *old(p) && bop == spec_type_binary_operator(old(p).cur_kind())),
            p.measure() < old(p).measure() ==> p.opened(old(p).evs().len() as int, LuaSyntaxKind::TypeBinary),
            p.step_from(old(p)),
            p.level() == old(p).level(),
            p.valid_start(cm.start as int),
            bop != LuaTypeBinaryOperator::None_ ==> p.cur_kind() != LuaTokenKind::TkEof,
        decreases p.measure(),
    {
        let range = p.current_token_range();
        let m = cm.precede(p, LuaSyntaxKind::TypeBinary);
        if bop == LuaTypeBinaryOperator::Extends {
            let prev_lexer_state = p.lexer_state();
            p.set_lexer_state(LuaDocLexerState::Extends);
            p.bump();
            p.set_lexer_state(prev_lexer_state);
        } else {
            p.bump();
        }
        if p.current_token() != LuaTokenKind::TkDocQuestion {
            let parse_result = if bop == LuaTypeBinaryOperator::Extends {
                let prev_state = p.parser_state();
                p.set_parser_state(LuaDocParserState::Extends);
                let res = parse_sub_type(p, bop.get_priority().right);
                p.set_parser_state(prev_state);
                res
            } else {
                parse_sub_type(p, bop.get_priority().right)
            };
            match parse_result {
                Ok(_) => {},
                Err(err) => {
                    p.push_error(LuaParseError::doc_error_from("binary operator not followed by type", range));
                    return Err(err);
                },
            }
        } else {
            let m2 = p.mark(LuaSyntaxKind::TypeLiteral);
            p.bump();
            m2.complete(p);
        }
        *cm = m.complete(p);
        bop = LuaOpKind::to_parse_binary_operator(p.current_token());
    }
    Ok(())
}


/// Parses types separated by commas into a type list.
pub fn parse_type_list(p: &mut LuaDocParser) -> (r: Result<CompleteMarker, LuaParseError>)
    requires
        ready(*old(p)),
    ensures
        final(p).opened(old(p).evs().len() as int, LuaSyntaxKind::DocTypeList),
        r matches Ok(cm) ==> cm.start == old(p).evs().len() && cm.kind == LuaSyntaxKind::DocTypeList,
        parsed(*old(p), *final(p), r),
        final(p).valid_start(old(p).evs().len() as int),
    decreases old(p).measure(), 8nat,
{
    let m = p.mark(LuaSyntaxKind::DocTypeList);
    parse_type(p)?;
    while p.current_token() == LuaTokenKind::TkComma
        invariant
            p.valid_start(old(p).evs().len() as int),
            p.step_from(old(p)),
            p.level() == old(p).level() + 1,
            p.valid_start(m.position as int),
            p.opened(m.position as int, LuaSyntaxKind::DocTypeList),
            m.position == old(p).evs().len(),
        decreases p.measure(),
    {
        p.bump();
        parse_type(p)?;
    }
    Ok(m.complete(p))
}

fn parse_simple_type(p: &mut LuaDocParser) -> (r: Result<CompleteMarker, LuaParseError>)
    requires
        ready(*old(p)),
    ensures
        parsed(*old(p), *final(p), r),
        opens_type_node(old(p).cur_kind()) ==> final(p).valid_start(old(p).evs().len() as int),
        !starts_type(old(p).cur_kind()) ==> no_type_here(*old(p), *final(p), r),
    decreases old(p).measure(), 5nat,
{
    let cm = parse_primary_type(p)?;
    parse_suffixed_type(p, cm)
}

fn parse_primary_type(p: &mut LuaDocParser) -> (r: Result<CompleteMarker, LuaParseError>)
    requires
        ready(*old(p)),
    ensures
        parsed(*old(p), *final(p), r),
        opens_type_node(old(p).cur_kind()) ==> final(p).valid_start(old(p).evs().len() as int),
        !starts_type(old(p).cur_kind()) ==> no_type_here(*old(p), *final(p), r),
    decreases old(p).measure(), 4nat,
{
    match p.current_token() {
        LuaTokenKind::TkLeftBrace => parse_object_or_mapped_type(p),
        LuaTokenKind::TkLeftBracket => {
            if is_attribute_use(p) {
                parse_type_with_attribute(p)
            } else {
                parse_tuple_type(p)
            }
        },
        LuaTokenKind::TkLeftParen => parse_paren_type(p),
        LuaTokenKind::TkString | LuaTokenKind::TkInt | LuaTokenKind::TkTrue | LuaTokenKind::TkFalse => {
            parse_literal_type(p)
        },
        LuaTokenKind::TkName => {
            if p.parser_state() == LuaDocParserState::Extends && p.current_token_text_is("infer") {
                parse_infer_type(p)
            } else {
                parse_name_or_func_type(p)
            }
        },
        LuaTokenKind::TkStringTemplateType => parse_string_template_type(p),
        LuaTokenKind::TkDots => parse_vararg_type(p),
        LuaTokenKind::TkDocNew => parse_constructor_type(p),
        _ => Err(LuaParseError::doc_error_from("expect type", p.current_token_range())),
    }
}

/// Parses the rest of a mapped type `{ [K in T]: V; }` whose node `m` is open.
fn parse_mapped_type(p: &mut LuaDocParser, m: Marker) -> (r: Result<CompleteMarker, LuaParseError>)
    requires
        ready(*old(p)),
        old(p).level() >= 1,
        old(p).valid_start(m.position as int),
    ensures
        final(p).step_from(old(p)),
        r matches Ok(cm) ==> final(p).level() == old(p).level() - 1 && final(p).valid_start(cm.start as int),
        old(p).cur_kind() == LuaTokenKind::TkLeftBracket ==> final(p).valid_start(old(p).evs().len() as int),
        old(p).cur_kind() == LuaTokenKind::TkPlus || old(p).cur_kind() == LuaTokenKind::TkMinus
            || old(p).cur_kind() == LuaTokenKind::TkDocReadonly ==> final(p).measure() < old(p).measure(),
        !(old(p).cur_kind() == LuaTokenKind::TkLeftBracket || old(p).cur_kind() == LuaTokenKind::TkPlus
            || old(p).cur_kind() == LuaTokenKind::TkMinus || old(p).cur_kind() == LuaTokenKind::TkDocReadonly)
            ==> r is Err,
        r is Err ==> final(p).level() >= old(p).level() - 1,
    decreases old(p).measure(), 2nat,
{
    p.set_parser_state(LuaDocParserState::Mapped);
    match p.current_token() {
        LuaTokenKind::TkPlus | LuaTokenKind::TkMinus => {
            p.bump();
            expect_token(p, LuaTokenKind::TkDocReadonly)?;
        },
        LuaTokenKind::TkDocReadonly => {
            p.bump();
        },
        LuaTokenKind::TkLeftBracket => {},
        _ => {
            return Err(LuaParseError::doc_error_from("expect mapped field", p.current_token_range()));
        },
    }
    parse_mapped_key(p)?;
    match p.current_token() {
        LuaTokenKind::TkPlus | LuaTokenKind::TkMinus => {
            p.bump();
            expect_token(p, LuaTokenKind::TkDocQuestion)?;
        },
        LuaTokenKind::TkDocQuestion => {
            p.bump();
        },
        _ => {},
    }
    expect_token(p, LuaTokenKind::TkColon)?;
    parse_type(p)?;
    expect_token(p, LuaTokenKind::TkSemicolon)?;
    expect_token(p, LuaTokenKind::TkRightBrace)?;
    p.set_parser_state(LuaDocParserState::Normal);
    Ok(m.complete(p))
}

/// Parses `[K in T]` or `[K in T as U]` of a mapped type.
fn parse_mapped_key(p: &mut LuaDocParser) -> (r: Result<CompleteMarker, LuaParseError>)
    requires
        ready(*old(p)),
    ensures
        final(p).opened(old(p).evs().len() as int, LuaSyntaxKind::DocMappedKey),
        r matches Ok(cm) ==> cm.start == old(p).evs().len() && cm.kind == LuaSyntaxKind::DocMappedKey,
        parsed(*old(p), *final(p), r),
        final(p).valid_start(old(p).evs().len() as int),
    decreases old(p).measure(), 1nat,
{
    let m = p.mark(LuaSyntaxKind::DocMappedKey);
    expect_token(p, LuaTokenKind::TkLeftBracket)?;
    let param = p.mark(LuaSyntaxKind::DocGenericParameter);
    expect_token(p, LuaTokenKind::TkName)?;
    expect_token(p, LuaTokenKind::TkIn)?;
    parse_type(p)?;
    param.complete(p);
    if p.current_token() == LuaTokenKind::TkDocAs {
        p.bump();
        parse_type(p)?;
    }
    expect_token(p, LuaTokenKind::TkRightBracket)?;
    Ok(m.complete(p))
}

/// Parses `{ <field>: <type>, ... }`, or a mapped type.
fn parse_object_or_mapped_type(p: &mut LuaDocParser) -> (r: Result<CompleteMarker, LuaParseError>)
    requires
        ready(*old(p)),
    ensures
        parsed(*old(p), *final(p), r),
        final(p).valid_start(old(p).evs().len() as int),
    decreases old(p).measure(), 3nat,
{
    p.set_lexer_state(LuaDocLexerState::Mapped);
    let m = p.mark(LuaSyntaxKind::TypeObject);
    p.bump();
    p.set_lexer_state(LuaDocLexerState::Normal);
    if p.current_token() != LuaTokenKind::TkRightBrace {
        match p.current_token() {
            LuaTokenKind::TkPlus | LuaTokenKind::TkMinus | LuaTokenKind::TkDocReadonly => {
                m.set_kind(p, LuaSyntaxKind::TypeMapped);
                proof { assert(crate::parser::lua_doc_parser::kept(*old(p), *p)); }
                return parse_mapped_type(p, m);
            },
            LuaTokenKind::TkLeftBracket => {
                if is_mapped_type(p) {
                    m.set_kind(p, LuaSyntaxKind::TypeMapped);
                    proof { assert(crate::parser::lua_doc_parser::kept(*old(p), *p)); }
                    return parse_mapped_type(p, m);
                }
            },
            _ => {},
        }
        parse_typed_field(p)?;
        loop
            invariant
                p.valid_start(old(p).evs().len() as int),
                p.step_from(old(p)),
                p.level() == old(p).level() + 1,
                p.valid_start(m.position as int),
            ensures
                p.step_from(old(p)),
                p.level() == old(p).level() + 1,
                p.valid_start(m.position as int),
            decreases p.measure(),
        {
            if p.current_token() != LuaTokenKind::TkComma {
                break;
            }
            p.bump();
            if p.current_token() == LuaTokenKind::TkRightBrace {
                break;
            }
            parse_typed_field(p)?;
        }
    }
    expect_token(p, LuaTokenKind::TkRightBrace)?;
    Ok(m.complete(p))
}

/// Whether the doc lexer, reading `s` from `i` on, runs out of chars there.
pub open spec fn lex_done(s: Seq<char>, i: int) -> bool {
    i < 0 || i >= s.len() || s[i] == EOF
}

/// Whether the doc lexer, reading `s` from `i` in state `st`, meets `in`
/// before a bracket or the end.
pub open spec fn in_comes_first(st: LuaDocLexerState, s: Seq<char>, i: int, origin: LuaTokenKind) -> bool
    decreases s.len() - i,
{
    if lex_done(s, i) {
        false
    } else {
        let (k, j) = spec_lex_state(st, s, i, origin);
        if k == LuaTokenKind::TkIn {
            true
        } else if k == LuaTokenKind::TkLeftBracket || k == LuaTokenKind::TkRightBracket || k
            == LuaTokenKind::TkEof {
            false
        } else {
            proof {
                lemma_doc_token_progress(st, s, i, origin);
            }
            in_comes_first(spec_next_state(st, s[i]), s, j, origin)
        }
    }
}

/// Reads ahead with a copy of the lexer: whether `in` comes before the next
/// bracket, which makes the object a mapped type.
fn is_mapped_type(p: &LuaDocParser) -> (b: bool)
    requires
        p.inv(),
    ensures
        b == (p.lx().rdr() is Some && in_comes_first(
            p.lx().st(),
            p.lx().rd().chars(),
            p.lx().rd().pos(),
            p.lx().origin_kind(),
        )),
{
    let mut lexer = p.lexer_duplicate();
    if !lexer.has_reader() {
        return false;
    }
    let ghost s = lexer.rd().chars();
    let ghost origin = lexer.origin_kind();
    loop
        invariant
            lexer.wf(),
            lexer.rdr() is Some,
            lexer.rd().chars() == s,
            lexer.origin_kind() == origin,
            p.lx().rdr() is Some,
            s == p.lx().rd().chars(),
            origin == p.lx().origin_kind(),
            in_comes_first(lexer.st(), s, lexer.rd().pos(), origin) == in_comes_first(
                p.lx().st(),
                p.lx().rd().chars(),
                p.lx().rd().pos(),
                p.lx().origin_kind(),
            ),
        decreases lexer.rd().chars().len() - lexer.rd().pos(),
    {
        let ghost before = lexer;
        let kind = lexer.lex();
        proof {
            if !before.rd().eof() {
                lemma_doc_token_progress(before.st(), before.rd().chars(), before.rd().pos(), before.origin_kind());
            }
        }
        match kind {
            LuaTokenKind::TkIn => {
                return true;
            },
            LuaTokenKind::TkLeftBracket | LuaTokenKind::TkRightBracket => {
                return false;
            },
            LuaTokenKind::TkEof => {
                return false;
            },
            _ => {},
        }
    }
}

/// Where the doc lexer, reading `s` from `i` in state `st`, stands after the
/// `]` that closes the brackets it is in (parentheses nest, `depth` of them
/// open): its state and position, or nothing when the text ends first.
pub open spec fn after_closing_bracket(
    st: LuaDocLexerState,
    s: Seq<char>,
    i: int,
    origin: LuaTokenKind,
    depth: nat,
) -> Option<(LuaDocLexerState, int)>
    decreases s.len() - i,
{
    if lex_done(s, i) {
        None
    } else {
        let (k, j) = spec_lex_state(st, s, i, origin);
        let st2 = spec_next_state(st, s[i]);
        proof {
            lemma_doc_token_progress(st, s, i, origin);
        }
        if k == LuaTokenKind::TkEof {
            None
        } else if k == LuaTokenKind::TkRightBracket && depth == 0 {
            Some((st2, j))
        } else if k == LuaTokenKind::TkLeftParen {
            after_closing_bracket(st2, s, j, origin, depth + 1)
        } else if k == LuaTokenKind::TkRightParen && depth > 0 {
            after_closing_bracket(st2, s, j, origin, (depth - 1) as nat)
        } else {
            after_closing_bracket(st2, s, j, origin, depth)
        }
    }
}

/// Whether the first token that the doc lexer reads in `s` from `i` in
/// state `st`, past blanks, line ends and comment continuations, starts a
/// type.
pub open spec fn type_comes_next(st: LuaDocLexerState, s: Seq<char>, i: int, origin: LuaTokenKind) -> bool
    decreases s.len() - i,
{
    if lex_done(s, i) {
        false
    } else {
        let (k, j) = spec_lex_state(st, s, i, origin);
        if k == LuaTokenKind::TkWhitespace || k == LuaTokenKind::TkEndOfLine || k
            == LuaTokenKind::TkDocContinue {
            proof {
                lemma_doc_token_progress(st, s, i, origin);
            }
            type_comes_next(spec_next_state(st, s[i]), s, j, origin)
        } else {
            k == LuaTokenKind::TkName || k == LuaTokenKind::TkLeftBrace || k == LuaTokenKind::TkLeftParen
                || k == LuaTokenKind::TkString || k == LuaTokenKind::TkInt || k == LuaTokenKind::TkTrue || k
                == LuaTokenKind::TkFalse || k == LuaTokenKind::TkStringTemplateType || k
                == LuaTokenKind::TkDots
        }
    }
}

/// Whether, past the current token (the `[`), the doc lexer reading `s`
/// from `i` in state `st` finds the matching `]` with a type after it.
#[verifier::opaque]
pub open spec fn attribute_use_ahead(st: LuaDocLexerState, s: Seq<char>, i: int, origin: LuaTokenKind) -> bool {
    let (st1, i1) = if lex_done(s, i) {
        (st, i)
    } else {
        (spec_next_state(st, s[i]), spec_lex_state(st, s, i, origin).1)
    };
    match after_closing_bracket(st1, s, i1, origin, 0) {
        Some((st2, i2)) => type_comes_next(st2, s, i2, origin),
        None => false,
    }
}

/// Reads ahead with a copy of the lexer: whether the `[` starts attribute
/// uses, that is whether a type follows the matching `]`.
fn is_attribute_use(p: &LuaDocParser) -> (b: bool)
    requires
        p.inv(),
    ensures
        b == (p.lx().rdr() is Some && attribute_use_ahead(
            p.lx().st(),
            p.lx().rd().chars(),
            p.lx().rd().pos(),
            p.lx().origin_kind(),
        )),
{
    let mut lexer = p.lexer_duplicate();
    if !lexer.has_reader() {
        return false;
    }
    let ghost s = lexer.rd().chars();
    let ghost origin = lexer.origin_kind();
    let mut paren_depth: usize = 0;
    let ghost l0 = lexer;
    lexer.lex();
    let ghost start = after_closing_bracket(lexer.st(), s, lexer.rd().pos(), origin, 0);
    assert(l0.rd().cur() == (if lex_done(s, l0.rd().pos()) { EOF } else { s[l0.rd().pos()] }));
    loop
        invariant_except_break
            after_closing_bracket(lexer.st(), s, lexer.rd().pos(), origin, paren_depth as nat) == start,
        invariant
            lexer.wf(),
            lexer.rdr() is Some,
            paren_depth <= lexer.rd().pos(),
            lexer.rd().chars() == s,
            lexer.origin_kind() == origin,
            p.lx().rdr() is Some,
            s == p.lx().rd().chars(),
            origin == p.lx().origin_kind(),
            start == after_closing_bracket(
                (if lex_done(s, p.lx().rd().pos()) {
                    p.lx().st()
                } else {
                    spec_next_state(p.lx().st(), s[p.lx().rd().pos()])
                }),
                s,
                (if lex_done(s, p.lx().rd().pos()) {
                    p.lx().rd().pos()
                } else {
                    spec_lex_state(p.lx().st(), s, p.lx().rd().pos(), origin).1
                }),
                origin,
                0,
            ),
        ensures
            lexer.wf(),
            lexer.rdr() is Some,
            lexer.rd().chars() == s,
            lexer.origin_kind() == origin,
            start == Some((lexer.st(), lexer.rd().pos() as int)),
        decreases lexer.rd().chars().len() - lexer.rd().pos(),
    {
        let ghost before = lexer;
        let kind = lexer.lex();
        proof {
            if !before.rd().eof() {
                lemma_doc_token_progress(before.st(), before.rd().chars(), before.rd().pos(), before.origin_kind());
            }
        }
        match kind {
            LuaTokenKind::TkWhitespace | LuaTokenKind::TkEndOfLine | LuaTokenKind::TkDocContinue => {},
            LuaTokenKind::TkLeftParen => {
                paren_depth += 1;
            },
            LuaTokenKind::TkRightParen => {
                if paren_depth > 0 {
                    paren_depth -= 1;
                }
            },
            LuaTokenKind::TkRightBracket => {
                if paren_depth == 0 {
                    break;
                }
            },
            LuaTokenKind::TkComma => {},
            LuaTokenKind::TkEof => {
                proof {
                    reveal(attribute_use_ahead);
                }
                return false;
            },
            _ => {},
        }
    }
    let ghost st2 = lexer.st();
    let ghost i2 = lexer.rd().pos() as int;
    proof {
        reveal(attribute_use_ahead);
    }
    loop
        invariant
            lexer.wf(),
            lexer.rdr() is Some,
            lexer.rd().chars() == s,
            lexer.origin_kind() == origin,
            p.lx().rdr() is Some,
            type_comes_next(lexer.st(), s, lexer.rd().pos() as int, origin) == type_comes_next(st2, s, i2, origin),
            attribute_use_ahead(p.lx().st(), p.lx().rd().chars(), p.lx().rd().pos() as int, p.lx().origin_kind())
                == type_comes_next(st2, s, i2, origin),
        decreases lexer.rd().chars().len() - lexer.rd().pos(),
    {
        let ghost before = lexer;
        let kind = lexer.lex();
        proof {
            if !before.rd().eof() {
                lemma_doc_token_progress(before.st(), before.rd().chars(), before.rd().pos(), before.origin_kind());
            }
        }
        match kind {
            LuaTokenKind::TkWhitespace | LuaTokenKind::TkEndOfLine | LuaTokenKind::TkDocContinue => {},
            LuaTokenKind::TkName | LuaTokenKind::TkLeftBrace | LuaTokenKind::TkLeftParen
            | LuaTokenKind::TkString | LuaTokenKind::TkInt | LuaTokenKind::TkTrue | LuaTokenKind::TkFalse
            | LuaTokenKind::TkStringTemplateType | LuaTokenKind::TkDots => {
                return true;
            },
            _ => {
                return false;
            },
        }
    }
}

/// Parses `[attribute] type`.
fn parse_type_with_attribute(p: &mut LuaDocParser) -> (r: Result<CompleteMarker, LuaParseError>)
    requires
        ready(*old(p)),
        old(p).cur_kind() != LuaTokenKind::TkEof,
    ensures
        parsed(*old(p), *final(p), r),
    decreases old(p).measure(), 2nat,
{
    parse_tag_attribute_use(p, false)?;
    parse_type(p)
}

/// Parses `<name>[?]: <type>` or `[<type>][?]: <type>` of an object type.
fn parse_typed_field(p: &mut LuaDocParser) -> (r: Result<CompleteMarker, LuaParseError>)
    requires
        ready(*old(p)),
    ensures
        final(p).opened(old(p).evs().len() as int, LuaSyntaxKind::DocObjectField),
        parsed(*old(p), *final(p), r),
        final(p).valid_start(old(p).evs().len() as int),
    decreases old(p).measure(), 1nat,
{
    let m = p.mark(LuaSyntaxKind::DocObjectField);
    match p.current_token() {
        LuaTokenKind::TkName => {
            p.bump();
            if_token_bump(p, LuaTokenKind::TkDocQuestion);
        },
        LuaTokenKind::TkLeftBracket => {
            p.bump();
            parse_type(p)?;
            expect_token(p, LuaTokenKind::TkRightBracket)?;
            if_token_bump(p, LuaTokenKind::TkDocQuestion);
        },
        _ => {
            return Err(
                LuaParseError::doc_error_from("expect name or [<number>] or [<string>]", p.current_token_range()),
            );
        },
    }
    if p.current_token() == LuaTokenKind::TkColon {
        p.bump();
        parse_type(p)?;
    }
    Ok(m.complete(p))
}

/// Parses `[ <type>, <type>, ... ]`.
fn parse_tuple_type(p: &mut LuaDocParser) -> (r: Result<CompleteMarker, LuaParseError>)
    requires
        ready(*old(p)),
        old(p).cur_kind() != LuaTokenKind::TkEof,
    ensures
        final(p).opened(old(p).evs().len() as int, LuaSyntaxKind::TypeTuple),
        parsed(*old(p), *final(p), r),
        final(p).valid_start(old(p).evs().len() as int),
    decreases old(p).measure(), 1nat,
{
    let m = p.mark(LuaSyntaxKind::TypeTuple);
    p.bump();
    if p.current_token() != LuaTokenKind::TkRightBracket {
        parse_type(p)?;
        while p.current_token() == LuaTokenKind::TkComma
            invariant
                p.valid_start(old(p).evs().len() as int),
                p.step_from(old(p)),
                p.level() == old(p).level() + 1,
                p.valid_start(m.position as int),
                p.opened(m.position as int, LuaSyntaxKind::TypeTuple),
                m.position == old(p).evs().len(),
            decreases p.measure(),
        {
            p.bump();
            parse_type(p)?;
        }
    }
    expect_token(p, LuaTokenKind::TkRightBracket)?;
    Ok(m.complete(p))
}

/// Parses `( <type> )`, which gives the inner type's node.
fn parse_paren_type(p: &mut LuaDocParser) -> (r: Result<CompleteMarker, LuaParseError>)
    requires
        ready(*old(p)),
        old(p).cur_kind() != LuaTokenKind::TkEof,
    ensures
        parsed(*old(p), *final(p), r),
        final(p).measure() < old(p).measure(),
    decreases old(p).measure(), 1nat,
{
    p.bump();
    let cm = parse_type(p)?;
    expect_token(p, LuaTokenKind::TkRightParen)?;
    Ok(cm)
}

/// Parses a string, integer or boolean literal type.
fn parse_literal_type(p: &mut LuaDocParser) -> (r: Result<CompleteMarker, LuaParseError>)
    requires
        ready(*old(p)),
    ensures
        final(p).opened(old(p).evs().len() as int, LuaSyntaxKind::TypeLiteral),
        r matches Ok(cm) ==> cm.start == old(p).evs().len() && cm.kind == LuaSyntaxKind::TypeLiteral,
        parsed(*old(p), *final(p), r),
        r is Ok,
{
    let m = p.mark(LuaSyntaxKind::TypeLiteral);
    p.bump();
    Ok(m.complete(p))
}

fn parse_name_or_func_type(p: &mut LuaDocParser) -> (r: Result<CompleteMarker, LuaParseError>)
    requires
        ready(*old(p)),
    ensures
        parsed(*old(p), *final(p), r),
        final(p).valid_start(old(p).evs().len() as int),
    decreases old(p).measure(), 2nat,
{
    if p.current_token_text_is("fun") || p.current_token_text_is("async") || p.current_token_text_is("sync") {
        parse_fun_type(p)
    } else {
        parse_name_type(p)
    }
}

/// Parses `[async|sync] fun[<T>](<params>)[: <returns>]`.
pub fn parse_fun_type(p: &mut LuaDocParser) -> (r: Result<CompleteMarker, LuaParseError>)
    requires
        ready(*old(p)),
    ensures
        parsed(*old(p), *final(p), r),
        final(p).valid_start(old(p).evs().len() as int),
    decreases old(p).measure(), 1nat,
{
    let m = p.mark(LuaSyntaxKind::TypeFun);
    if p.current_token_text_is("async") || p.current_token_text_is("sync") {
        p.bump();
    }
    if !p.current_token_text_is("fun") {
        return Err(LuaParseError::doc_error_from("expect fun", p.current_token_range()));
    }
    p.bump();
    if p.current_token() == LuaTokenKind::TkLt {
        parse_generic_decl_list(p, true)?;
    }
    expect_token(p, LuaTokenKind::TkLeftParen)?;
    if p.current_token() != LuaTokenKind::TkRightParen {
        parse_typed_param(p)?;
        while p.current_token() == LuaTokenKind::TkComma
            invariant
                p.valid_start(old(p).evs().len() as int),
                p.step_from(old(p)),
                p.measure() < old(p).measure(),
                p.level() == old(p).level() + 1,
                p.valid_start(m.position as int),
            decreases p.measure(),
        {
            p.bump();
            parse_typed_param(p)?;
        }
    }
    expect_token(p, LuaTokenKind::TkRightParen)?;
    if p.current_token() == LuaTokenKind::TkColon {
        p.bump();
        parse_fun_return_list(p)?;
    }
    Ok(m.complete(p))
}

/// Parses the returns of a function type, optionally in parentheses.
fn parse_fun_return_list(p: &mut LuaDocParser) -> (r: Result<CompleteMarker, LuaParseError>)
    requires
        ready(*old(p)),
    ensures
        final(p).opened(old(p).evs().len() as int, LuaSyntaxKind::DocTypeList),
        parsed(*old(p), *final(p), r),
        final(p).valid_start(old(p).evs().len() as int),
    decreases old(p).measure(), 10nat,
{
    let m = p.mark(LuaSyntaxKind::DocTypeList);
    let parse_paren = if p.current_token() == LuaTokenKind::TkLeftParen {
        p.bump();
        true
    } else {
        false
    };
    parse_fun_return_type(p)?;
    while p.current_token() == LuaTokenKind::TkComma
        invariant
            p.valid_start(old(p).evs().len() as int),
            p.step_from(old(p)),
            p.level() == old(p).level() + 1,
            p.valid_start(m.position as int),
            p.opened(m.position as int, LuaSyntaxKind::DocTypeList),
            m.position == old(p).evs().len(),
        decreases p.measure(),
    {
        p.bump();
        parse_fun_return_type(p)?;
    }
    if parse_paren {
        expect_token(p, LuaTokenKind::TkRightParen)?;
    }
    Ok(m.complete(p))
}

/// Parses one return: a type, or `<name>: <type>`.
fn parse_fun_return_type(p: &mut LuaDocParser) -> (r: Result<CompleteMarker, LuaParseError>)
    requires
        ready(*old(p)),
    ensures
        final(p).opened(old(p).evs().len() as int, LuaSyntaxKind::DocNamedReturnType),
        parsed(*old(p), *final(p), r),
        final(p).valid_start(old(p).evs().len() as int),
    decreases old(p).measure(), 9nat,
{
    let m = p.mark(LuaSyntaxKind::DocNamedReturnType);
    let cm = parse_type(p)?;
    if cm.kind == LuaSyntaxKind::TypeName && p.current_token() == LuaTokenKind::TkColon {
        p.bump();
        parse_type(p)?;
    }
    Ok(m.complete(p))
}

/// Parses `<name>[?][: <type>]` or `...[?][: <type>]`.
pub fn parse_typed_param(p: &mut LuaDocParser) -> (r: Result<CompleteMarker, LuaParseError>)
    requires
        ready(*old(p)),
    ensures
        final(p).opened(old(p).evs().len() as int, LuaSyntaxKind::DocTypedParameter),
        parsed(*old(p), *final(p), r),
        final(p).valid_start(old(p).evs().len() as int),
    decreases old(p).measure(), 1nat,
{
    let m = p.mark(LuaSyntaxKind::DocTypedParameter);
    match p.current_token() {
        LuaTokenKind::TkName => {
            p.bump();
            if_token_bump(p, LuaTokenKind::TkDocQuestion);
        },
        LuaTokenKind::TkDots => {
            p.bump();
            if_token_bump(p, LuaTokenKind::TkDocQuestion);
        },
        _ => {
            return Err(LuaParseError::doc_error_from("expect name or ...", p.current_token_range()));
        },
    }
    if p.current_token() == LuaTokenKind::TkColon {
        p.bump();
        parse_type(p)?;
    }
    Ok(m.complete(p))
}

/// Parses a name type.
fn parse_name_type(p: &mut LuaDocParser) -> (r: Result<CompleteMarker, LuaParseError>)
    requires
        ready(*old(p)),
    ensures
        final(p).opened(old(p).evs().len() as int, LuaSyntaxKind::TypeName),
        r matches Ok(cm) ==> cm.start == old(p).evs().len() && cm.kind == LuaSyntaxKind::TypeName,
        parsed(*old(p), *final(p), r),
        final(p).valid_start(old(p).evs().len() as int),
        r is Ok,
{
    let m = p.mark(LuaSyntaxKind::TypeName);
    p.bump();
    Ok(m.complete(p))
}

/// Parses `infer <name>` after `extends`.
fn parse_infer_type(p: &mut LuaDocParser) -> (r: Result<CompleteMarker, LuaParseError>)
    requires
        ready(*old(p)),
        old(p).cur_kind() == LuaTokenKind::TkName,
    ensures
        final(p).opened(old(p).evs().len() as int, LuaSyntaxKind::TypeInfer),
        r matches Ok(cm) ==> cm.start == old(p).evs().len() && cm.kind == LuaSyntaxKind::TypeInfer,
        parsed(*old(p), *final(p), r),
        final(p).valid_start(old(p).evs().len() as int),
{
    let m = p.mark(LuaSyntaxKind::TypeInfer);
    p.set_current_token_kind(LuaTokenKind::TkDocInfer);
    p.bump();
    let param = p.mark(LuaSyntaxKind::DocGenericParameter);
    expect_token(p, LuaTokenKind::TkName)?;
    param.complete(p);
    Ok(m.complete(p))
}

/// Parses a string template type.
fn parse_string_template_type(p: &mut LuaDocParser) -> (r: Result<CompleteMarker, LuaParseError>)
    requires
        ready(*old(p)),
    ensures
        final(p).opened(old(p).evs().len() as int, LuaSyntaxKind::TypeStringTemplate),
        r matches Ok(cm) ==> cm.start == old(p).evs().len() && cm.kind == LuaSyntaxKind::TypeStringTemplate,
        parsed(*old(p), *final(p), r),
        r is Ok,
{
    let m = p.mark(LuaSyntaxKind::TypeStringTemplate);
    p.bump();
    Ok(m.complete(p))
}

/// Parses `...<name type>`.
fn parse_vararg_type(p: &mut LuaDocParser) -> (r: Result<CompleteMarker, LuaParseError>)
    requires
        ready(*old(p)),
    ensures
        final(p).opened(old(p).evs().len() as int, LuaSyntaxKind::TypeName),
        parsed(*old(p), *final(p), r),
        final(p).valid_start(old(p).evs().len() as int),
{
    let m = p.mark(LuaSyntaxKind::TypeName);
    p.bump();
    parse_name_type(p)?;
    Ok(m.complete(p))
}

/// Parses the suffixes of a type: `[]` (or an index), `<type list>` and `...`.
fn parse_suffixed_type(p: &mut LuaDocParser, cm: CompleteMarker) -> (r: Result<CompleteMarker, LuaParseError>)
    requires
        ready(*old(p)),
        old(p).valid_start(cm.start as int),
    ensures
        parsed(*old(p), *final(p), r),
        !is_type_suffix(old(p).cur_kind()) ==> r == Ok::<CompleteMarker, LuaParseError>(cm) && *final(p) == *old(p),
        old(p).cur_kind() == LuaTokenKind::TkLeftBracket ==> final(p).measure() < old(p).measure(),
    decreases old(p).measure(), 1nat,
{
    let k = p.current_token();
    if !(k == LuaTokenKind::TkLeftBracket || k == LuaTokenKind::TkLt || k == LuaTokenKind::TkDots) {
        return Ok(cm);
    }
    let mut only_continue_array = false;
    let mut cm = cm;
    loop
        invariant
            is_type_suffix(old(p).cur_kind()),
            old(p).cur_kind() == LuaTokenKind::TkLeftBracket ==> p.measure() < old(p).measure() || *p == *old(p),
            p.step_from(old(p)),
            p.level() == old(p).level(),
            p.valid_start(cm.start as int),
        decreases p.measure(),
    {
        match p.current_token() {
            LuaTokenKind::TkLeftBracket => {
                let m = cm.precede(p, LuaSyntaxKind::TypeArray);
                p.bump();
                if p.parser_state() == LuaDocParserState::Mapped {
                    if p.current_token() != LuaTokenKind::TkRightBracket {
                        m.set_kind(p, LuaSyntaxKind::TypeIndexAccess);
                        proof { assert(crate::parser::lua_doc_parser::kept(*old(p), *p)); }
                        parse_type(p)?;
                    }
                } else if p.current_token() == LuaTokenKind::TkString || p.current_token() == LuaTokenKind::TkInt
                    || p.current_token() == LuaTokenKind::TkName {
                    m.set_kind(p, LuaSyntaxKind::IndexExpr);
                    proof { assert(crate::parser::lua_doc_parser::kept(*old(p), *p)); }
                    p.bump();
                }
                expect_token(p, LuaTokenKind::TkRightBracket)?;
                cm = m.complete(p);
                only_continue_array = true;
            },
            LuaTokenKind::TkLt => {
                if only_continue_array {
                    return Ok(cm);
                }
                if cm.kind != LuaSyntaxKind::TypeName {
                    return Ok(cm);
                }
                let m = cm.precede(p, LuaSyntaxKind::TypeGeneric);
                p.bump();
                parse_type_list(p)?;
                expect_token(p, LuaTokenKind::TkGt)?;
                cm = m.complete(p);
            },
            LuaTokenKind::TkDots => {
                if only_continue_array {
                    return Ok(cm);
                }
                if cm.kind != LuaSyntaxKind::TypeName {
                    return Ok(cm);
                }
                let m = cm.precede(p, LuaSyntaxKind::TypeVariadic);
                p.bump();
                cm = m.complete(p);
                return Ok(cm);
            },
            _ => {
                return Ok(cm);
            },
        }
    }
}

/// Parses `| <type>` lines into a multi-line union.
fn parse_multi_line_union_type(p: &mut LuaDocParser) -> (r: Result<CompleteMarker, LuaParseError>)
    requires
        ready(*old(p)),
    ensures
        final(p).opened(old(p).evs().len() as int, LuaSyntaxKind::TypeMultiLineUnion),
        r matches Ok(cm) ==> cm.start == old(p).evs().len() && cm.kind == LuaSyntaxKind::TypeMultiLineUnion,
        parsed(*old(p), *final(p), r),
        final(p).valid_start(old(p).evs().len() as int),
    decreases old(p).measure(), 1nat,
{
    let m = p.mark(LuaSyntaxKind::TypeMultiLineUnion);
    while p.current_token() == LuaTokenKind::TkDocContinueOr
        invariant
            p.valid_start(old(p).evs().len() as int),
            p.step_from(old(p)),
            p.level() == old(p).level() + 1,
            p.valid_start(m.position as int),
            p.opened(m.position as int, LuaSyntaxKind::TypeMultiLineUnion),
            m.position == old(p).evs().len(),
        decreases p.measure(),
    {
        p.bump();
        parse_one_line_type(p)?;
    }
    Ok(m.complete(p))
}

/// Parses one line of a multi-line union: a type and its description.
fn parse_one_line_type(p: &mut LuaDocParser) -> (r: Result<CompleteMarker, LuaParseError>)
    requires
        ready(*old(p)),
    ensures
        final(p).opened(old(p).evs().len() as int, LuaSyntaxKind::DocOneLineField),
        parsed(*old(p), *final(p), r),
        final(p).valid_start(old(p).evs().len() as int),
    decreases old(p).measure(), 7nat,
{
    let m = p.mark(LuaSyntaxKind::DocOneLineField);
    parse_sub_type(p, 1)?;
    if p.current_token() != LuaTokenKind::TkDocContinueOr {
        p.set_lexer_state(LuaDocLexerState::Description);
        parse_description(p);
        p.set_lexer_state(LuaDocLexerState::Normal);
    }
    Ok(m.complete(p))
}

/// Parses `new <function type>`.
fn parse_constructor_type(p: &mut LuaDocParser) -> (r: Result<CompleteMarker, LuaParseError>)
    requires
        ready(*old(p)),
    ensures
        parsed(*old(p), *final(p), r),
        old(p).cur_kind() == LuaTokenKind::TkDocNew ==> final(p).measure() < old(p).measure(),
        old(p).cur_kind() != LuaTokenKind::TkDocNew ==> r is Err && *final(p) == *old(p),
    decreases old(p).measure(), 1nat,
{
    let new_range = p.current_token_range();
    expect_token(p, LuaTokenKind::TkDocNew)?;
    let cm = match parse_sub_type(p, 0) {
        Ok(cm) => {
            if cm.kind != LuaSyntaxKind::TypeFun {
                let err = LuaParseError::doc_error_from("new keyword must be followed by function type", new_range);
                p.push_error(err.clone());
                return Err(err);
            }
            cm
        },
        Err(err) => {
            return Err(err);
        },
    };
    Ok(cm)
}

} // verus!
