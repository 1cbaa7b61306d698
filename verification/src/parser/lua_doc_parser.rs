use vstd::prelude::*;

use crate::kind::lua_syntax_kind::LuaSyntaxKind;
use crate::kind::lua_token_kind::LuaTokenKind;
use crate::lexer::lua_doc_lexer::{
    LuaDocLexer, LuaDocLexerState, is_char_range, is_char_span, lemma_char_span_unique, lemma_doc_token_not_eof,
    lemma_doc_token_progress, spec_lex_state, spec_next_state,
};
use crate::lexer::token_data::LuaTokenData;
use crate::lexer::lex_spec::char_at;
use crate::lexer::lexer_config::LexerConfig;
use crate::lexer::lua_lexer::{spec_tokens, token_range, spec_lex_lua};
use crate::parser::marker::{CompleteMarker, MarkEvent, Marker};
use crate::parser::parser_error::LuaParseError;
use crate::syntax::tree::tree_builder::{events_wf, leaves_reach, lemma_reach_push, lemma_reach_update_start};
use crate::text::char_width::{
    byte_len, chars_in_range, lemma_byte_len_at_least_len, lemma_byte_len_split,
    lemma_byte_len_subrange_bound,
};
use crate::text::reader::{EOF, Reader};
use crate::text::text_range::SourceRange;

verus! {

/// How the doc parser reads types: normally, inside a mapped type, or after
/// `extends`.
#[derive(Debug, Clone, Copy, PartialEq, Eq, Structural)]
pub enum LuaDocParserState {
    Normal,
    Mapped,
    Extends,
}

/// The char of `s` that starts at byte offset `off`, if any, is not NUL.
pub open spec fn not_nul_at(s: Seq<char>, off: int) -> bool {
    forall|ci: int| 0 <= ci < s.len() && #[trigger] byte_len(s.subrange(0, ci)) == off ==> s[ci] != EOF
}

/// The comment tokens handed to the doc parser: each is a non-empty range of
/// `text` on char boundaries that does not start with NUL, and they come in
/// order without overlapping.
pub open spec fn tokens_wf(text: Seq<char>, tokens: Seq<LuaTokenData>) -> bool {
    &&& forall|i: int| 0 <= i < tokens.len() ==> {
        &&& (#[trigger] tokens[i]).range.length > 0
        &&& is_char_range(text, tokens[i].range)
        &&& not_nul_at(text, tokens[i].range.start_offset as int)
    }
    &&& forall|i: int, j: int|
        0 <= i < j < tokens.len() ==> #[trigger] tokens[i].range.end() <= #[trigger] tokens[j].range.start_offset
}

/// The byte offset in the origin text up to which the lexer has read.
pub open spec fn lexer_abs_pos(lx: LuaDocLexer) -> int {
    lx.rd().valid().start_offset + byte_len(lx.rd().chars().subrange(0, lx.rd().pos()))
}

/// Whether the lexer has something left to read.
pub open spec fn lexer_valid(lx: LuaDocLexer) -> bool {
    lx.rdr() is Some && !lx.rd().eof()
}

/// A kind that stands for no token: nothing read yet, or the end.
pub open spec fn spec_is_invalid_kind(kind: LuaTokenKind) -> bool {
    kind == LuaTokenKind::NoneKind || kind == LuaTokenKind::TkEof
}

/// The parser of the doc comments in a group of comment tokens.  It reads
/// the tokens' text with a [`LuaDocLexer`] and records the parse as events.
#[derive(Debug)]
pub struct LuaDocParser {
    tokens: Vec<LuaTokenData>,
    pub lexer: LuaDocLexer,
    current_token: LuaTokenKind,
    current_token_range: SourceRange,
    origin_token_index: usize,
    pub state: LuaDocParserState,
    events: Vec<MarkEvent>,
    errors: Vec<LuaParseError>,
    mark_level: usize,
}

impl LuaDocParser {
    pub closed spec fn text(&self) -> Seq<char> {
        self.lexer.origin()
    }

    pub closed spec fn lx(&self) -> LuaDocLexer {
        self.lexer
    }

    pub closed spec fn st(&self) -> LuaDocParserState {
        self.state
    }

    pub closed spec fn toks(&self) -> Seq<LuaTokenData> {
        self.tokens@
    }

    pub closed spec fn cur_kind(&self) -> LuaTokenKind {
        self.current_token
    }

    pub closed spec fn cur_range(&self) -> SourceRange {
        self.current_token_range
    }

    pub closed spec fn idx(&self) -> int {
        self.origin_token_index as int
    }

    pub closed spec fn evs(&self) -> Seq<MarkEvent> {
        self.events@
    }

    pub closed spec fn errs(&self) -> Seq<LuaParseError> {
        self.errors@
    }

    pub closed spec fn level(&self) -> int {
        self.mark_level as int
    }

    /// The total length of the text in bytes.
    pub open spec fn blen(&self) -> int {
        byte_len(self.text()) as int
    }

    /// Whether a first token has been read.
    pub open spec fn started(&self) -> bool {
        self.cur_kind() != LuaTokenKind::NoneKind
    }

    /// The byte offset from which the next token will be read.
    pub open spec fn frontier(&self) -> int {
        if lexer_valid(self.lx()) {
            lexer_abs_pos(self.lx())
        } else if self.started() && 0 <= self.idx() < self.toks().len() {
            self.toks()[self.idx()].range.end()
        } else {
            0
        }
    }

    /// The termination measure: it shrinks with every token consumed.
    pub open spec fn measure(&self) -> int {
        2 * (self.blen() + 1 - self.cur_range().start_offset - (if self.started() { 1int } else { 0 }))
            + (if self.cur_kind() != LuaTokenKind::TkEof { 1int } else { 0 })
    }

    /// The lexer reads (a part of) the current origin token.
    pub open spec fn lexer_inv(&self) -> bool {
        &&& self.lx().wf()
        &&& tokens_wf(self.text(), self.toks())
        &&& (self.toks().len() == 0 ==> self.idx() == 0)
        &&& (self.toks().len() > 0 ==> 0 <= self.idx() < self.toks().len())
        &&& (lexer_valid(self.lx()) ==> {
            &&& self.toks().len() > 0
            &&& self.toks()[self.idx()].range.start_offset <= self.lx().rd().valid().start_offset
            &&& self.lx().rd().valid().end() == self.toks()[self.idx()].range.end()
        })
    }

    /// The current token lies in the current origin token, before the frontier.
    pub open spec fn cur_inv(&self) -> bool {
        &&& self.cur_range().end() <= self.blen()
        &&& (!self.started() ==> !lexer_valid(self.lx()) && self.idx() == 0
            && self.cur_range().start_offset == 0 && self.cur_range().length == 0)
        &&& (self.cur_kind() == LuaTokenKind::TkEof ==> !lexer_valid(self.lx())
            && self.cur_range().end() <= self.blen()
            && (self.toks().len() > 0 ==> self.idx() == self.toks().len() - 1))
        &&& (!spec_is_invalid_kind(self.cur_kind()) ==> {
            &&& self.toks().len() > 0
            &&& self.toks()[self.idx()].range.start_offset <= self.cur_range().start_offset
            &&& self.cur_range().start_offset < self.cur_range().end()
            &&& self.cur_range().end() <= self.toks()[self.idx()].range.end()
            &&& self.cur_range().end() <= self.frontier()
            &&& is_char_range(self.text(), self.cur_range())
            &&& not_nul_at(self.text(), self.cur_range().start_offset as int)
        })
    }

    /// The events can be built into a tree, and every open mark has its event.
    pub open spec fn events_inv(&self) -> bool {
        &&& events_wf(self.evs())
        &&& 0 <= self.level() <= self.evs().len()
    }

    pub open spec fn inv(&self) -> bool {
        &&& self.lexer_inv()
        &&& self.cur_inv()
        &&& self.events_inv()
    }

    /// Where the next recorded token is to start: the first comment token
    /// before reading, the end of the text at the end, else the current
    /// token.
    pub open spec fn next_leaf_start(&self) -> int {
        if !self.started() {
            if self.toks().len() > 0 {
                self.toks()[0].range.start_offset as int
            } else {
                0
            }
        } else if self.cur_kind() == LuaTokenKind::TkEof {
            self.cur_range().end()
        } else {
            self.cur_range().start_offset as int
        }
    }

    /// Nothing of the comments is lost: in a text without NUL, over comment
    /// tokens that follow each other, the current token ends where reading
    /// goes on, and the recorded tokens lie end to end from byte 0 up to
    /// where the next one is to start.
    pub open spec fn lossless(&self) -> bool {
        &&& free_of_nul(self.text())
        &&& toks_contiguous(self.toks())
        &&& (self.started() ==> self.cur_range().end() == self.frontier())
        &&& leaves_reach(self.evs(), self.next_leaf_start())
    }

    /// The same, once the current token has been recorded (or where there is
    /// none to record): the recorded tokens reach its end.
    pub open spec fn lossless_after_current(&self) -> bool {
        &&& free_of_nul(self.text())
        &&& toks_contiguous(self.toks())
        &&& (self.started() ==> self.cur_range().end() == self.frontier())
        &&& leaves_reach(
            self.evs(),
            if self.started() {
                self.cur_range().end()
            } else {
                self.next_leaf_start()
            },
        )
    }
}

/// No char of `s` is NUL.
pub open spec fn free_of_nul(s: Seq<char>) -> bool {
    forall|i: int| 0 <= i < s.len() ==> #[trigger] s[i] != EOF
}

/// Each token ends where the next one starts.
pub open spec fn toks_contiguous(ts: Seq<LuaTokenData>) -> bool {
    forall|k: int| 0 <= k < ts.len() - 1 ==> #[trigger] ts[k].range.end() == ts[k + 1].range.start_offset
}


/// Prefixes with more chars take more bytes.
pub proof fn lemma_prefix_strict(s: Seq<char>, a: int, b: int)
    requires
        0 <= a < b <= s.len(),
    ensures
        byte_len(s.subrange(0, a)) < byte_len(s.subrange(0, b)),
{
    lemma_byte_len_split(s, 0, a, b);
    lemma_byte_len_at_least_len(s.subrange(a, b));
}

/// Different char positions start at different byte offsets.
pub proof fn lemma_prefix_inj(s: Seq<char>, a: int, b: int)
    requires
        0 <= a <= s.len(),
        0 <= b <= s.len(),
        byte_len(s.subrange(0, a)) == byte_len(s.subrange(0, b)),
    ensures
        a == b,
{
    if a < b {
        lemma_prefix_strict(s, a, b);
    } else if b < a {
        lemma_prefix_strict(s, b, a);
    }
}

/// The token that `lex` reads from a lexer with text left starts where the
/// lexer stood, ends where it stands after, is not empty and lies on char
/// boundaries of the origin text.
pub proof fn lemma_lexed_range(lx: LuaDocLexer, lx2: LuaDocLexer)
    requires
        lx.wf(),
        lx2.wf(),
        lexer_valid(lx),
        lx2.same_source(&lx),
        lx2.rd().buf_start() == lx.rd().pos(),
        lx2.rd().pos() == spec_lex_state(lx.st(), lx.rd().chars(), lx.rd().pos(), lx.origin_kind()).1,
    ensures
        ({
            let t = lx2.rd().spec_current_range();
            &&& t.start_offset == lexer_abs_pos(lx)
            &&& t.end() == lexer_abs_pos(lx2)
            &&& t.length > 0
            &&& t.end() <= lx.rd().valid().end()
            &&& lx.rd().valid().start_offset <= t.start_offset
            &&& is_char_range(lx.origin(), t)
            &&& not_nul_at(lx.origin(), t.start_offset as int)
        }),
{
    let r = lx.rd();
    let r2 = lx2.rd();
    let c = r.chars();
    let p = r.pos();
    let p2 = r2.pos();
    let o = lx.origin();
    let cs = lx.char_start();
    lemma_doc_token_progress(lx.st(), c, p, lx.origin_kind());
    assert(p < p2 <= c.len());
    lemma_byte_len_split(c, 0, p, p2);
    lemma_byte_len_subrange_bound(c, 0, p2);
    lemma_byte_len_split(c, 0, p2, c.len() as int);
    assert(c.subrange(0, c.len() as int) =~= c);
    lemma_byte_len_at_least_len(c.subrange(p, p2));
    let t = r2.spec_current_range();
    assert(t.start_offset == r.valid().start_offset + byte_len(c.subrange(0, p)));
    assert(t.length == byte_len(c.subrange(p, p2)));
    // char boundaries in the origin text
    lemma_byte_len_split(o, 0, cs, cs + p);
    assert(o.subrange(cs, cs + p) =~= c.subrange(0, p));
    assert(o.subrange(cs + p, cs + p2) =~= c.subrange(p, p2));
    assert(is_char_span(o, t, cs + p, cs + p2));
    assert forall|ci: int| 0 <= ci < o.len() && #[trigger] byte_len(o.subrange(0, ci)) == t.start_offset implies o[ci] != EOF by {
        lemma_prefix_inj(o, ci, cs + p);
        assert(o[cs + p] == c[p]);
    }
}


/// After a reset to a non-empty range on char boundaries that does not start
/// with NUL, the lexer has text left and stands at the range's start.
pub proof fn lemma_doc_token_kind_real(state: LuaDocLexerState, s: Seq<char>, i: int, origin: LuaTokenKind)
    ensures
        spec_lex_state(state, s, i, origin).0 != LuaTokenKind::NoneKind,
{
}

pub proof fn lemma_reset_valid(lx: LuaDocLexer, range: SourceRange)
    requires
        lx.wf(),
        lx.rdr() is Some,
        lx.rd().valid() == range,
        lx.rd().pos() == 0,
        range.length > 0,
        is_char_span(lx.origin(), range, lx.char_start(), lx.char_start() + lx.rd().chars().len()),
        not_nul_at(lx.origin(), range.start_offset as int),
    ensures
        lexer_valid(lx),
        lexer_abs_pos(lx) == range.start_offset,
{
    let c = lx.rd().chars();
    assert(c.subrange(0, 0) =~= Seq::<char>::empty());
    lemma_byte_len_at_least_len(c);
    assert(c.len() > 0);
    assert(c[0] == lx.origin()[lx.char_start()]);
}

impl LuaDocParser {
    /// Moves to the next origin token once the lexer has no text left: gives
    /// the end, or a blank, line end or shebang token as it is, or starts the
    /// lexer on the token (`None`).
    fn advance_origin_token(&mut self) -> (r: Option<LuaTokenData>)
        requires
            old(self).lexer_inv(),
            !lexer_valid(old(self).lx()),
            old(self).cur_range().end() <= old(self).blen(),
        ensures
            final(self).lx().st() == old(self).lx().st(),
            final(self).lexer_inv(),
            final(self).text() == old(self).text(),
            final(self).toks() == old(self).toks(),
            final(self).cur_kind() == old(self).cur_kind(),
            final(self).cur_range() == old(self).cur_range(),
            final(self).evs() == old(self).evs(),
            final(self).errs() == old(self).errs(),
            final(self).level() == old(self).level(),
            final(self).st() == old(self).st(),
            final(self).idx() == (if old(self).idx() == 0 && old(self).cur_kind() == LuaTokenKind::NoneKind {
                0
            } else {
                old(self).idx() + 1
            }) || (r is Some && r->0.kind == LuaTokenKind::TkEof && final(self).idx() == old(self).idx()),
            r matches Some(t) ==> (t.kind == LuaTokenKind::TkEof ==> {
                &&& final(self).idx() == old(self).idx()
                &&& (old(self).idx() == 0 && old(self).cur_kind() == LuaTokenKind::NoneKind ==> old(self).toks().len() == 0)
                &&& t.range.start_offset == old(self).cur_range().end()
                &&& t.range.length == 0
                &&& !lexer_valid(final(self).lx())
                &&& (final(self).toks().len() > 0 ==> final(self).idx() == final(self).toks().len() - 1)
            }),
            r matches Some(t) ==> (t.kind != LuaTokenKind::TkEof ==> {
                &&& t.kind != LuaTokenKind::NoneKind
                &&& !lexer_valid(final(self).lx())
                &&& final(self).toks().len() > 0
                &&& t == final(self).toks()[final(self).idx()]
            }),
            r is None ==> {
                &&& lexer_valid(final(self).lx())
                &&& lexer_abs_pos(final(self).lx()) == final(self).toks()[final(self).idx()].range.start_offset
            },
    {
        let ntok = self.tokens.len();
        assert(self.origin_token_index < ntok || ntok == 0);
        let next_origin_index = if self.origin_token_index == 0 && self.current_token == LuaTokenKind::NoneKind {
            0
        } else {
            self.origin_token_index + 1
        };
        if next_origin_index >= self.tokens.len() {
            assert(self.lx().wf());
            let end = self.current_token_range.end_offset();
            proof {
                if ntok > 0 {
                    assert(self.idx() == ntok - 1);
                }
            }
            return Some(LuaTokenData::new(LuaTokenKind::TkEof, SourceRange::new(end, 0)));
        }
        let next_origin_token = self.tokens[next_origin_index];
        self.origin_token_index = next_origin_index;
        if next_origin_token.kind == LuaTokenKind::TkEndOfLine || next_origin_token.kind
            == LuaTokenKind::TkWhitespace || next_origin_token.kind == LuaTokenKind::TkShebang {
            return Some(next_origin_token);
        }
        self.lexer.reset(next_origin_token.kind, next_origin_token.range);
        proof {
            lemma_reset_valid(self.lexer, next_origin_token.range);
        }
        None
    }

    /// Reads one token with the lexer, which has text left.
    fn lex_next(&mut self) -> (t: LuaTokenData)
        requires
            old(self).lexer_inv(),
            lexer_valid(old(self).lx()),
        ensures
            final(self).lexer_inv(),
            final(self).text() == old(self).text(),
            final(self).toks() == old(self).toks(),
            final(self).cur_kind() == old(self).cur_kind(),
            final(self).cur_range() == old(self).cur_range(),
            final(self).evs() == old(self).evs(),
            final(self).errs() == old(self).errs(),
            final(self).level() == old(self).level(),
            final(self).st() == old(self).st(),
            final(self).idx() == old(self).idx(),
            t.kind != LuaTokenKind::TkEof,
            t.kind != LuaTokenKind::NoneKind,
            t.kind == spec_lex_state(
                old(self).lx().st(),
                old(self).lx().rd().chars(),
                old(self).lx().rd().pos(),
                old(self).lx().origin_kind(),
            ).0,
            final(self).lx().st() == spec_next_state(old(self).lx().st(), old(self).lx().rd().cur()),
            t.range.start_offset == lexer_abs_pos(old(self).lx()),
            t.range.start_offset < t.range.end(),
            t.range.end() <= old(self).lx().rd().valid().end(),
            old(self).lx().rd().valid().start_offset <= t.range.start_offset,
            lexer_valid(final(self).lx()) ==> t.range.end() <= lexer_abs_pos(final(self).lx()),
            is_char_range(final(self).text(), t.range),
            not_nul_at(final(self).text(), t.range.start_offset as int),
            t.range.end() == lexer_abs_pos(final(self).lx()),
            free_of_nul(old(self).text()) && !lexer_valid(final(self).lx()) ==> t.range.end()
                == old(self).lx().rd().valid().end(),
    {
        let ghost lx1 = self.lexer;
        let kind = self.lexer.lex();
        proof {
            lemma_doc_token_not_eof(lx1.st(), lx1.rd().chars(), lx1.rd().pos(), lx1.origin_kind());
            lemma_lexed_range(lx1, self.lexer);
            assert(kind != LuaTokenKind::NoneKind) by {
                lemma_doc_token_kind_real(lx1.st(), lx1.rd().chars(), lx1.rd().pos(), lx1.origin_kind());
            }
        }
        let range = self.lexer.current_token_range();
        proof {
            let lx2 = self.lexer;
            if free_of_nul(lx1.origin()) && !lexer_valid(lx2) {
                let r2 = lx2.rd();
                let c = r2.chars();
                if r2.pos() < c.len() {
                    assert(c[r2.pos()] == lx2.origin()[lx2.char_start() + r2.pos()]);
                }
                assert(r2.pos() == c.len());
                assert(c.subrange(0, c.len() as int) =~= c);
            }
        }
        LuaTokenData::new(kind, range)
    }

    /// The next token: from the lexer while it has text left, else the next
    /// origin token (blanks, line ends and a shebang as they are; others
    /// through the lexer), else the end.
    fn lex_token(&mut self) -> (t: LuaTokenData)
        requires
            old(self).lexer_inv(),
            old(self).cur_range().end() <= old(self).blen(),
        ensures
            final(self).lexer_inv(),
            final(self).text() == old(self).text(),
            final(self).toks() == old(self).toks(),
            final(self).cur_kind() == old(self).cur_kind(),
            final(self).cur_range() == old(self).cur_range(),
            final(self).evs() == old(self).evs(),
            final(self).errs() == old(self).errs(),
            final(self).level() == old(self).level(),
            final(self).st() == old(self).st(),
            final(self).idx() >= old(self).idx(),
            old(self).lx().st() != LuaDocLexerState::Tag ==> final(self).lx().st() == old(self).lx().st(),
            lexer_valid(old(self).lx()) ==> t.kind == spec_lex_state(
                old(self).lx().st(),
                old(self).lx().rd().chars(),
                old(self).lx().rd().pos(),
                old(self).lx().origin_kind(),
            ).0 && final(self).lx().st() == spec_next_state(old(self).lx().st(), old(self).lx().rd().cur()),
            t.kind == LuaTokenKind::TkEof ==> {
                &&& t.range.start_offset == old(self).cur_range().end()
                &&& t.range.length == 0
                &&& !lexer_valid(final(self).lx())
                &&& (final(self).toks().len() > 0 ==> final(self).idx() == final(self).toks().len() - 1)
                &&& !lexer_valid(old(self).lx())
            },
            t.kind != LuaTokenKind::TkEof ==> {
                &&& t.kind != LuaTokenKind::NoneKind
                &&& final(self).toks().len() > 0
                &&& (if lexer_valid(old(self).lx()) {
                    t.range.start_offset == lexer_abs_pos(old(self).lx())
                } else if old(self).idx() == 0 && old(self).cur_kind() == LuaTokenKind::NoneKind {
                    true
                } else {
                    t.range.start_offset >= old(self).toks()[old(self).idx()].range.end()
                })
                &&& final(self).toks()[final(self).idx()].range.start_offset <= t.range.start_offset
                &&& t.range.start_offset < t.range.end()
                &&& t.range.end() <= final(self).toks()[final(self).idx()].range.end()
                &&& (lexer_valid(final(self).lx()) ==> t.range.end() <= lexer_abs_pos(final(self).lx()))
                &&& is_char_range(final(self).text(), t.range)
                &&& not_nul_at(final(self).text(), t.range.start_offset as int)
            },
            t.kind == LuaTokenKind::TkEof && old(self).started() ==> final(self).idx() == old(self).idx(),
            t.kind == LuaTokenKind::TkEof && old(self).idx() == 0 && old(self).cur_kind() == LuaTokenKind::NoneKind
                ==> old(self).toks().len() == 0,
            t.kind != LuaTokenKind::TkEof && lexer_valid(old(self).lx()) ==> final(self).idx() == old(self).idx(),
            t.kind != LuaTokenKind::TkEof && !lexer_valid(old(self).lx()) ==> {
                &&& t.range.start_offset == final(self).toks()[final(self).idx()].range.start_offset
                &&& final(self).idx() == (if old(self).idx() == 0 && old(self).cur_kind() == LuaTokenKind::NoneKind {
                    0
                } else {
                    old(self).idx() + 1
                })
            },
            t.kind != LuaTokenKind::TkEof && free_of_nul(old(self).text()) ==> t.range.end() == (if lexer_valid(
                final(self).lx(),
            ) {
                lexer_abs_pos(final(self).lx())
            } else {
                final(self).toks()[final(self).idx()].range.end()
            }),
    {
        loop
            invariant
                *self == *old(self),
                old(self).cur_range().end() <= old(self).blen(),
                old(self).lexer_inv(),
            decreases 0nat,
        {
            let ghost was_valid = lexer_valid(self.lx());
            if self.lexer.is_invalid() {
                match self.advance_origin_token() {
                    Some(t) => {
                        return t;
                    },
                    None => {},
                }
            }
            let t = self.lex_next();
            if t.kind != LuaTokenKind::TkEof {
                return t;
            }
        }
    }
}


/// A byte range on char boundaries ends within the text.
pub proof fn lemma_char_range_end(s: Seq<char>, r: SourceRange)
    requires
        is_char_range(s, r),
    ensures
        r.end() <= byte_len(s),
{
    let w = choose|ci: int, cj: int| is_char_span(s, r, ci, cj);
    lemma_byte_len_subrange_bound(s, w.0, w.1);
}

/// `b` keeps the events and errors that `a` recorded.
pub closed spec fn kept(a: LuaDocParser, b: LuaDocParser) -> bool {
    evs_kept(a.evs(), b.evs()) && errs_kept(a.errs(), b.errs())
}

/// Retyping the node start at `pos` keeps what was kept before it.
pub proof fn lemma_retyped_kept(before: LuaDocParser, after: LuaDocParser, pos: int)
    requires
        evs_kept_retyped(before.evs(), after.evs(), pos),
        after.errs() == before.errs(),
    ensures
        forall|a: LuaDocParser| kept(a, before) && a.evs().len() <= pos ==> #[trigger] kept(a, after),
{
    assert forall|a: LuaDocParser| kept(a, before) && a.evs().len() <= pos implies #[trigger] kept(a, after) by {
        lemma_evs_kept_retyped(a.evs(), before.evs(), after.evs(), pos);
    }
}

pub broadcast proof fn lemma_kept_trans(a: LuaDocParser, b: LuaDocParser, c: LuaDocParser)
    requires
        #[trigger] kept(a, b),
        #[trigger] kept(b, c),
    ensures
        kept(a, c),
{
    lemma_evs_kept_trans(a.evs(), b.evs(), c.evs());
}

pub broadcast proof fn lemma_kept_valid_start(a: LuaDocParser, b: LuaDocParser, i: int)
    requires
        #[trigger] kept(a, b),
        #[trigger] a.valid_start(i),
    ensures
        b.valid_start(i),
{
}

pub broadcast proof fn lemma_kept_refl(a: LuaDocParser)
    ensures
        #[trigger] kept(a, a),
{
}

/// What is kept keeps its node kinds, and the events only grow.
pub broadcast proof fn lemma_kept_kind(a: LuaDocParser, b: LuaDocParser, i: int, k: LuaSyntaxKind)
    requires
        #[trigger] kept(a, b),
        a.opened(i, k),
    ensures
        #[trigger] b.opened(i, k),
{
}

pub broadcast proof fn lemma_kept_len(a: LuaDocParser, b: LuaDocParser)
    requires
        #[trigger] kept(a, b),
    ensures
        a.evs().len() <= b.evs().len(),
{
}

pub broadcast group group_kept {
    lemma_kept_trans,
    lemma_kept_valid_start,
    lemma_kept_refl,
    lemma_kept_kind,
    lemma_kept_len,
}

/// `new` keeps the errors of `old` and may add more after them.
pub open spec fn errs_kept(old: Seq<LuaParseError>, new: Seq<LuaParseError>) -> bool {
    &&& old.len() <= new.len()
    &&& forall|i: int| 0 <= i < old.len() ==> #[trigger] new[i] == old[i]
}

/// `new` keeps the node starts of `old` where they were, and everything else
/// of `old` as it was, and may add events after them.
pub open spec fn evs_kept(old: Seq<MarkEvent>, new: Seq<MarkEvent>) -> bool {
    &&& old.len() <= new.len()
    &&& forall|i: int|
        0 <= i < old.len() ==> ((#[trigger] new[i]) is NodeStart) == (old[i] is NodeStart) && (!(old[i] is NodeStart)
            ==> new[i] == old[i]) && start_kind(new[i]) == start_kind(old[i])
}

/// `new` keeps the events of `old` as `evs_kept` says, except that the node
/// start at `pos` (at or after `from`) may take another kind.
pub open spec fn evs_kept_retyped(old: Seq<MarkEvent>, new: Seq<MarkEvent>, pos: int) -> bool {
    &&& old.len() == new.len()
    &&& 0 <= pos < old.len()
    &&& old[pos] is NodeStart
    &&& new[pos] is NodeStart
    &&& forall|i: int| 0 <= i < old.len() && i != pos ==> #[trigger] new[i] == old[i]
}

/// Retyping a node start keeps the events recorded before it.
pub proof fn lemma_evs_kept_retyped(a: Seq<MarkEvent>, b: Seq<MarkEvent>, c: Seq<MarkEvent>, pos: int)
    requires
        evs_kept(a, b),
        evs_kept_retyped(b, c, pos),
        a.len() <= pos,
    ensures
        evs_kept(a, c),
        evs_kept(b, c.update(pos, b[pos])),
{
    assert forall|i: int| 0 <= i < a.len() implies ((#[trigger] c[i]) is NodeStart) == (a[i] is NodeStart) && (!(
    a[i] is NodeStart) ==> c[i] == a[i]) && start_kind(c[i]) == start_kind(a[i]) by {
        assert(c[i] == b[i]);
    }
    let d = c.update(pos, b[pos]);
    assert forall|i: int| 0 <= i < b.len() implies ((#[trigger] d[i]) is NodeStart) == (b[i] is NodeStart) && (!(
    b[i] is NodeStart) ==> d[i] == b[i]) && start_kind(d[i]) == start_kind(b[i]) by {
        if i != pos {
            assert(c[i] == b[i]);
        }
    }
}

pub proof fn lemma_evs_kept_trans(a: Seq<MarkEvent>, b: Seq<MarkEvent>, c: Seq<MarkEvent>)
    requires
        evs_kept(a, b),
        evs_kept(b, c),
    ensures
        evs_kept(a, c),
{
    assert forall|i: int| 0 <= i < a.len() implies ((#[trigger] c[i]) is NodeStart) == (a[i] is NodeStart) && (!(
    a[i] is NodeStart) ==> c[i] == a[i]) && start_kind(c[i]) == start_kind(a[i]) by {
        assert(b[i] is NodeStart == a[i] is NodeStart);
    }
}

/// Setting a node start to another node start keeps the events buildable
/// when its forward parent is none or a later node start.
pub proof fn lemma_events_wf_set_start(events: Seq<MarkEvent>, i: int, kind: LuaSyntaxKind, parent: usize)
    requires
        events_wf(events),
        0 <= i < events.len(),
        events[i] is NodeStart,
        parent == 0 || (i < parent < events.len() && events[parent as int] is NodeStart),
    ensures
        events_wf(events.update(i, MarkEvent::NodeStart { kind, parent })),
        evs_kept_retyped(events, events.update(i, MarkEvent::NodeStart { kind, parent }), i),
        kind == start_kind(events[i]) ==> evs_kept(events, events.update(i, MarkEvent::NodeStart { kind, parent })),
{
    let u = events.update(i, MarkEvent::NodeStart { kind, parent });
    assert forall|j: int| 0 <= j < u.len() implies match #[trigger] u[j] {
        MarkEvent::NodeStart { kind: _, parent } => parent == 0 || (j < parent < u.len()
            && u[parent as int] is NodeStart),
        _ => true,
    } by {
        if j != i {
            assert(u[j] == events[j]);
        }
    }
}

/// Adding an event that is not a node start with a parent keeps the events
/// buildable.
pub proof fn lemma_events_wf_push(events: Seq<MarkEvent>, e: MarkEvent)
    requires
        events_wf(events),
        !(e is NodeStart) || e->NodeStart_parent == 0,
    ensures
        events_wf(events.push(e)),
        evs_kept(events, events.push(e)),
{
    let u = events.push(e);
    assert forall|j: int| 0 <= j < u.len() implies match #[trigger] u[j] {
        MarkEvent::NodeStart { kind: _, parent } => parent == 0 || (j < parent < u.len()
            && u[parent as int] is NodeStart),
        _ => true,
    } by {
        if j < events.len() {
            assert(u[j] == events[j]);
        }
    }
}

impl LuaDocParser {
    /// Everything but the events may differ; the events are kept.
    pub open spec fn same_input(&self, other: &LuaDocParser) -> bool {
        &&& self.text() == other.text()
        &&& self.toks() == other.toks()
    }

    fn push_event(&mut self, e: MarkEvent)
        requires
            old(self).events_inv(),
            !(e is NodeStart) || e->NodeStart_parent == 0,
        ensures
            final(self).events_inv(),
            final(self).evs() == old(self).evs().push(e),
            final(self).level() == old(self).level(),
            final(self).lx() == old(self).lx(),
            final(self).text() == old(self).text(),
            final(self).toks() == old(self).toks(),
            final(self).cur_kind() == old(self).cur_kind(),
            final(self).cur_range() == old(self).cur_range(),
            final(self).idx() == old(self).idx(),
            final(self).errs() == old(self).errs(),
            final(self).st() == old(self).st(),
    {
        proof { lemma_events_wf_push(self.events@, e); }
        self.events.push(e);
    }

    /// Records the current token and reads the next one.
    fn eat_current_and_lex_next(&mut self)
        requires
            old(self).inv(),
            !spec_is_invalid_kind(old(self).cur_kind()),
        ensures
            final(self).inv(),
            final(self).same_input(old(self)),
            final(self).measure() < old(self).measure(),
            final(self).evs() == old(self).evs().push(
                MarkEvent::EatToken { kind: old(self).cur_kind(), range: old(self).cur_range() },
            ),
            final(self).level() == old(self).level(),
            final(self).errs() == old(self).errs(),
            final(self).st() == old(self).st(),
            old(self).lx().st() != LuaDocLexerState::Tag ==> final(self).lx().st() == old(self).lx().st(),
            old(self).lossless() ==> final(self).lossless(),
    {
        let e = MarkEvent::EatToken { kind: self.current_token, range: self.current_token_range };
        proof {
            if old(self).lossless() {
                lemma_reach_push(self.evs(), e, self.next_leaf_start());
            }
        }
        self.push_event(e);
        proof {
            lemma_char_range_end(self.text(), self.cur_range());
        }
        let token = self.lex_token();
        self.current_token = token.kind;
        if !token.range.is_empty() {
            self.current_token_range = token.range;
        }
        proof {
            if token.kind != LuaTokenKind::TkEof {
                lemma_char_range_end(self.text(), token.range);
            }
        }
    }
}


impl LuaDocParser {
    /// What every parse step keeps: the invariant, the input, the events
    /// already recorded (node starts may be retyped), the errors already
    /// found, and a measure that does not grow.
    pub open spec fn step_from(&self, old: &LuaDocParser) -> bool {
        &&& self.step_core(old)
        &&& (old.lossless() ==> self.lossless())
    }

    /// The same, but for what is kept of the text.
    pub open spec fn step_core(&self, old: &LuaDocParser) -> bool {
        &&& self.inv()
        &&& self.same_input(old)
        &&& kept(*old, *self)
        &&& self.measure() <= old.measure()
        &&& (old.started() ==> self.started())
    }

    /// Eats the current token while it is one of the tokens that the lexer
    /// state lets the parser skip.
    fn skip_trivia(&mut self, state: LuaDocLexerState)
        requires
            old(self).inv(),
        ensures
            final(self).step_from(old(self)),
            !skipped_in(state, final(self).cur_kind()),
            skipped_in(state, old(self).cur_kind()) ==> final(self).measure() < old(self).measure(),
            !skipped_in(state, old(self).cur_kind()) ==> *final(self) == *old(self),
            final(self).evs().subrange(0, old(self).evs().len() as int) == old(self).evs(),
            eats_skipped(final(self).evs(), old(self).evs().len() as int, state),
            state != LuaDocLexerState::Tag && old(self).lx().st() == state ==> final(self).lx().st() == state,
            final(self).level() == old(self).level(),
            final(self).errs() == old(self).errs(),
            final(self).st() == old(self).st(),
    {
        proof { lemma_evs_kept_refl(self.evs()); }
        match state {
            LuaDocLexerState::Normal | LuaDocLexerState::Version | LuaDocLexerState::Mapped
            | LuaDocLexerState::Extends => {
                while self.current_token == LuaTokenKind::TkDocContinue || self.current_token
                    == LuaTokenKind::TkEndOfLine || self.current_token == LuaTokenKind::TkWhitespace
                    invariant
                        self.measure() < old(self).measure() || *self == *old(self),
                        *self == *old(self) || skipped_in(state, old(self).cur_kind()),
                        state == LuaDocLexerState::Normal || state == LuaDocLexerState::Version || state
                            == LuaDocLexerState::Mapped || state == LuaDocLexerState::Extends,
                        self.step_from(old(self)),
                        self.level() == old(self).level(),
                        self.errs() == old(self).errs(),
                        self.st() == old(self).st(),
                        self.evs().subrange(0, old(self).evs().len() as int) == old(self).evs(),
                        eats_skipped(self.evs(), old(self).evs().len() as int, state),
                        state != LuaDocLexerState::Tag && old(self).lx().st() == state ==> self.lx().st() == state,
                    decreases self.measure(),
                {
                    let ghost before = *self;
                    self.eat_current_and_lex_next();
                    proof {
                        lemma_evs_kept_trans(old(self).evs(), before.evs(), self.evs());
                        assert(self.evs().subrange(0, old(self).evs().len() as int) =~= before.evs().subrange(
                            0,
                            old(self).evs().len() as int,
                        ));
                        assert(skipped_in(state, before.cur_kind()));
                        assert forall|i: int| old(self).evs().len() <= i < self.evs().len() implies (#[trigger] self.evs()[i] matches MarkEvent::EatToken {
                            kind,
                            ..
                        } && skipped_in(state, kind)) by {
                            if i < before.evs().len() {
                                assert(self.evs()[i] == before.evs()[i]);
                            }
                        }
                    }
                }
            },
            LuaDocLexerState::FieldStart | LuaDocLexerState::See | LuaDocLexerState::Source
            | LuaDocLexerState::AttributeUse | LuaDocLexerState::CastExpr => {
                while self.current_token == LuaTokenKind::TkWhitespace
                    invariant
                        self.measure() < old(self).measure() || *self == *old(self),
                        *self == *old(self) || skipped_in(state, old(self).cur_kind()),
                        state == LuaDocLexerState::FieldStart || state == LuaDocLexerState::See || state
                            == LuaDocLexerState::Source || state == LuaDocLexerState::AttributeUse || state
                            == LuaDocLexerState::CastExpr,
                        self.step_from(old(self)),
                        self.level() == old(self).level(),
                        self.errs() == old(self).errs(),
                        self.st() == old(self).st(),
                        self.evs().subrange(0, old(self).evs().len() as int) == old(self).evs(),
                        eats_skipped(self.evs(), old(self).evs().len() as int, state),
                        state != LuaDocLexerState::Tag && old(self).lx().st() == state ==> self.lx().st() == state,
                    decreases self.measure(),
                {
                    let ghost before = *self;
                    self.eat_current_and_lex_next();
                    proof {
                        lemma_evs_kept_trans(old(self).evs(), before.evs(), self.evs());
                        assert(self.evs().subrange(0, old(self).evs().len() as int) =~= before.evs().subrange(
                            0,
                            old(self).evs().len() as int,
                        ));
                        assert(skipped_in(state, before.cur_kind()));
                        assert forall|i: int| old(self).evs().len() <= i < self.evs().len() implies (#[trigger] self.evs()[i] matches MarkEvent::EatToken {
                            kind,
                            ..
                        } && skipped_in(state, kind)) by {
                            if i < before.evs().len() {
                                assert(self.evs()[i] == before.evs()[i]);
                            }
                        }
                    }
                }
            },
            LuaDocLexerState::Init => {
                while self.current_token == LuaTokenKind::TkEndOfLine || self.current_token
                    == LuaTokenKind::TkWhitespace
                    invariant
                        self.measure() < old(self).measure() || *self == *old(self),
                        *self == *old(self) || skipped_in(state, old(self).cur_kind()),
                        state == LuaDocLexerState::Init,
                        self.step_from(old(self)),
                        self.level() == old(self).level(),
                        self.errs() == old(self).errs(),
                        self.st() == old(self).st(),
                        self.evs().subrange(0, old(self).evs().len() as int) == old(self).evs(),
                        eats_skipped(self.evs(), old(self).evs().len() as int, state),
                        state != LuaDocLexerState::Tag && old(self).lx().st() == state ==> self.lx().st() == state,
                    decreases self.measure(),
                {
                    let ghost before = *self;
                    self.eat_current_and_lex_next();
                    proof {
                        lemma_evs_kept_trans(old(self).evs(), before.evs(), self.evs());
                        assert(self.evs().subrange(0, old(self).evs().len() as int) =~= before.evs().subrange(
                            0,
                            old(self).evs().len() as int,
                        ));
                        assert(skipped_in(state, before.cur_kind()));
                        assert forall|i: int| old(self).evs().len() <= i < self.evs().len() implies (#[trigger] self.evs()[i] matches MarkEvent::EatToken {
                            kind,
                            ..
                        } && skipped_in(state, kind)) by {
                            if i < before.evs().len() {
                                assert(self.evs()[i] == before.evs()[i]);
                            }
                        }
                    }
                }
            },
            _ => {
                assert(self.evs().subrange(0, old(self).evs().len() as int) =~= old(self).evs());
            },
        }
    }

    /// Reads the next token into the current token, and eats the blanks (and
    /// in some lexer states line ends and comment continuations) after it.
    fn calc_next_current_token(&mut self)
        requires
            old(self).inv(),
        ensures
            final(self).step_core(old(self)),
            old(self).lossless_after_current() ==> final(self).lossless(),
            old(self).cur_kind() != LuaTokenKind::TkEof ==> final(self).measure() < old(self).measure(),
            final(self).level() == old(self).level(),
            final(self).errs() == old(self).errs(),
            final(self).st() == old(self).st(),
            final(self).evs().subrange(0, old(self).evs().len() as int) == old(self).evs(),
            eats_skippable(final(self).evs(), old(self).evs().len() as int),
            old(self).lx().st() != LuaDocLexerState::Tag ==> final(self).lx().st() == old(self).lx().st()
                && !skipped_in(final(self).lx().st(), final(self).cur_kind()),
    {
        let token = self.lex_token();
        self.current_token = token.kind;
        self.current_token_range = token.range;
        proof {
            lemma_evs_kept_refl(self.evs());
            if token.kind != LuaTokenKind::TkEof {
                lemma_char_range_end(self.text(), token.range);
            }
        }
        assert(self.evs().subrange(0, old(self).evs().len() as int) =~= old(self).evs());
        proof {
            if old(self).lossless_after_current() {
                if token.kind == LuaTokenKind::TkEof {
                    assert(self.cur_range().end() == old(self).cur_range().end());
                    if old(self).started() {
                        assert(self.frontier() == old(self).frontier());
                    } else {
                        assert(self.toks().len() == 0);
                    }
                } else if old(self).started() {
                    if !lexer_valid(old(self).lx()) {
                        assert(old(self).frontier() == old(self).toks()[old(self).idx()].range.end());
                        assert(self.toks()[old(self).idx()].range.end() == self.toks()[old(self).idx() + 1].range.start_offset);
                    }
                    assert(token.range.start_offset == old(self).cur_range().end());
                }
            }
        }
        if self.current_token == LuaTokenKind::TkEof {
            return;
        }
        let state = self.lexer.get_state();
        let ghost mid = *self;
        self.skip_trivia(state);
        proof {
            lemma_evs_kept_trans(old(self).evs(), mid.evs(), self.evs());
            lemma_skipped_skippable(self.evs(), old(self).evs().len() as int, state);
        }
    }

    /// Records the current token (unless there is none) and moves to the next.
    pub fn bump(&mut self)
        requires
            old(self).inv(),
        ensures
            final(self).step_from(old(self)),
            old(self).cur_kind() != LuaTokenKind::TkEof ==> final(self).measure() < old(self).measure(),
            final(self).level() == old(self).level(),
            final(self).errs() == old(self).errs(),
            final(self).st() == old(self).st(),
            final(self).evs().subrange(0, old(self).evs().len() as int) == old(self).evs(),
            !spec_is_invalid_kind(old(self).cur_kind()) ==> {
                &&& final(self).evs().len() > old(self).evs().len()
                &&& final(self).evs()[old(self).evs().len() as int] == (MarkEvent::EatToken {
                    kind: old(self).cur_kind(),
                    range: old(self).cur_range(),
                })
                &&& eats_skippable(final(self).evs(), old(self).evs().len() + 1int)
            },
            spec_is_invalid_kind(old(self).cur_kind()) ==> eats_skippable(
                final(self).evs(),
                old(self).evs().len() as int,
            ),
            old(self).lx().st() != LuaDocLexerState::Tag ==> final(self).lx().st() == old(self).lx().st()
                && !skipped_in(final(self).lx().st(), final(self).cur_kind()),
    {
        if !is_invalid_kind(self.current_token) {
            let e = MarkEvent::EatToken { kind: self.current_token, range: self.current_token_range };
            proof {
                if old(self).lossless() {
                    lemma_reach_push(self.evs(), e, self.next_leaf_start());
                }
            }
            self.push_event(e);
        }
        let ghost mid = *self;
        assert(old(self).lossless() ==> mid.lossless_after_current());
        proof {
            if self.evs() != old(self).evs() {
                assert(self.evs().drop_last() =~= old(self).evs());
            }
            lemma_evs_kept_push(old(self).evs(), self.evs());
        }
        self.calc_next_current_token();
        proof {
            lemma_evs_kept_trans(old(self).evs(), mid.evs(), self.evs());
            let n = old(self).evs().len() as int;
            assert(self.evs().subrange(0, n) =~= mid.evs().subrange(0, n));
            if !spec_is_invalid_kind(old(self).cur_kind()) {
                assert(self.evs()[n] == self.evs().subrange(0, mid.evs().len() as int)[n]);
            }
        }
    }
}

pub fn is_invalid_kind(kind: LuaTokenKind) -> (b: bool)
    ensures
        b == spec_is_invalid_kind(kind),
{
    kind == LuaTokenKind::NoneKind || kind == LuaTokenKind::TkEof
}

pub proof fn lemma_evs_kept_refl(a: Seq<MarkEvent>)
    ensures
        evs_kept(a, a),
{
}

pub proof fn lemma_evs_kept_pushed(a: Seq<MarkEvent>, e: MarkEvent)
    ensures
        evs_kept(a, a.push(e)),
{
    assert forall|i: int| 0 <= i < a.len() implies ((#[trigger] a.push(e)[i]) is NodeStart) == (a[i] is NodeStart) && (!(
    a[i] is NodeStart) ==> a.push(e)[i] == a[i]) && start_kind(a.push(e)[i]) == start_kind(a[i]) by {
        assert(a.push(e)[i] == a[i]);
    }
}

pub proof fn lemma_evs_kept_push(a: Seq<MarkEvent>, b: Seq<MarkEvent>)
    requires
        b == a || (b.len() == a.len() + 1 && b.drop_last() == a),
    ensures
        evs_kept(a, b),
{
    if b != a {
        assert forall|i: int| 0 <= i < a.len() implies ((#[trigger] b[i]) is NodeStart) == (a[i] is NodeStart) && (!(
        a[i] is NodeStart) ==> b[i] == a[i]) && start_kind(b[i]) == start_kind(a[i]) by {
            assert(b[i] == b.drop_last()[i]);
        }
    }
}


/// Two ranges on char boundaries span a range on char boundaries from the
/// start of the first to the end of the second.
pub proof fn lemma_char_range_join(s: Seq<char>, a: SourceRange, b: SourceRange)
    requires
        is_char_range(s, a),
        is_char_range(s, b),
        a.start_offset <= b.end(),
        byte_len(s) <= usize::MAX,
    ensures
        is_char_range(s, SourceRange { start_offset: a.start_offset, length: (b.end() - a.start_offset) as usize }),
{
    let wa = choose|ci: int, cj: int| is_char_span(s, a, ci, cj);
    let wb = choose|ci: int, cj: int| is_char_span(s, b, ci, cj);
    lemma_byte_len_split(s, 0, wb.0, wb.1);
    lemma_byte_len_subrange_bound(s, 0, wb.1);
    assert(s.subrange(0, 0) =~= Seq::<char>::empty());
    if wb.1 < wa.0 {
        lemma_prefix_strict(s, wb.1, wa.0);
        assert(false);
    }
    lemma_byte_len_split(s, 0, wa.0, wb.1);
    let r = SourceRange { start_offset: a.start_offset, length: (b.end() - a.start_offset) as usize };
    assert(is_char_span(s, r, wa.0, wb.1));
}

impl LuaDocParser {
    /// A parser over `tokens`, comment tokens of `text`, before reading; it
    /// records after `events` and `errors`.
    pub fn new(
        text: &str,
        tokens: Vec<LuaTokenData>,
        events: Vec<MarkEvent>,
        errors: Vec<LuaParseError>,
    ) -> (p: LuaDocParser)
        requires
            tokens_wf(text@, tokens@),
            events_wf(events@),
        ensures
            p.inv(),
            p.text() == text@,
            p.toks() == tokens@,
            p.evs() == events@,
            p.errs() == errors@,
            p.level() == 0,
            p.cur_kind() == LuaTokenKind::NoneKind,
            p.st() == LuaDocParserState::Normal,
            p.lx().st() == LuaDocLexerState::Init,
    {
        let lexer = LuaDocLexer::new(text);
        LuaDocParser {
            tokens,
            lexer,
            current_token: LuaTokenKind::NoneKind,
            current_token_range: SourceRange::empty(),
            origin_token_index: 0,
            state: LuaDocParserState::Normal,
            events,
            errors,
            mark_level: 0,
        }
    }

    /// The text that the comment tokens come from.
    pub fn origin_text(&self) -> (t: &Vec<char>)
        ensures
            t@ == self.text(),
    {
        self.lexer.origin_chars()
    }

    /// Reads the first token, if there are tokens.
    pub fn init(&mut self)
        requires
            old(self).inv(),
        ensures
            final(self).step_from(old(self)),
            old(self).toks().len() > 0 && old(self).cur_kind() != LuaTokenKind::TkEof
                ==> final(self).measure() < old(self).measure(),
            final(self).level() == old(self).level(),
            final(self).errs() == old(self).errs(),
            final(self).st() == old(self).st(),
    {
        if self.tokens.len() == 0 {
            proof { lemma_evs_kept_refl(self.evs()); }
            return;
        }
        self.bump();
    }

    pub fn current_token(&self) -> (k: LuaTokenKind)
        ensures
            k == self.cur_kind(),
    {
        self.current_token
    }

    pub fn current_token_range(&self) -> (r: SourceRange)
        ensures
            r == self.cur_range(),
    {
        self.current_token_range
    }

    /// The text of the current token.
    pub fn current_token_text(&self) -> (t: Vec<char>)
        requires
            self.inv(),
        ensures
            t@ == crate::text::char_width::chars_within(self.text(), self.cur_range(), self.text().len() as int),
    {
        chars_in_range(self.lexer.origin_chars(), self.current_token_range)
    }

    /// Whether the text of the current token is `lit`.
    pub fn current_token_text_is(&self, lit: &str) -> (b: bool)
        requires
            self.inv(),
        ensures
            b == (crate::text::char_width::chars_within(self.text(), self.cur_range(), self.text().len() as int) == lit@),
    {
        let t = self.current_token_text();
        crate::text::strings::vec_eq_str(&t, lit)
    }

    /// Whether the lexer has nothing left to read in its origin token.
    pub fn lexer_is_invalid(&self) -> (b: bool)
        requires
            self.inv(),
        ensures
            b == !lexer_valid(self.lx()),
    {
        self.lexer.is_invalid()
    }

    pub fn parser_state(&self) -> (s: LuaDocParserState)
        ensures
            s == self.st(),
    {
        self.state
    }

    pub fn lexer_state(&self) -> (s: LuaDocLexerState)
        ensures
            s == self.lx().st(),
    {
        self.lexer.get_state()
    }

    /// A copy of the lexer, to read ahead with.
    pub fn lexer_duplicate(&self) -> (l: LuaDocLexer)
        requires
            self.inv(),
        ensures
            l.wf(),
            l.same_source(&self.lx()),
            l.st() == self.lx().st(),
            l.rdr() is Some ==> l.rd().pos() == self.lx().rd().pos(),
    {
        self.lexer.duplicate()
    }

    pub fn get_mark_level(&self) -> (l: usize)
        ensures
            l == self.level(),
    {
        self.mark_level
    }

    pub fn push_error(&mut self, error: LuaParseError)
        requires
            old(self).inv(),
        ensures
            kept(*old(self), *final(self)),
            final(self).inv(),
            final(self).errs() == old(self).errs().push(error),
            final(self).evs() == old(self).evs(),
            final(self).level() == old(self).level(),
            final(self).st() == old(self).st(),
            final(self).measure() == old(self).measure(),
            final(self).same_input(old(self)),
            final(self).cur_kind() == old(self).cur_kind(),
            final(self).cur_range() == old(self).cur_range(),
            final(self).lx() == old(self).lx(),
            old(self).lossless() ==> final(self).lossless(),
    {
        self.errors.push(error);
    }

    pub fn set_parser_state(&mut self, state: LuaDocParserState)
        requires
            old(self).inv(),
        ensures
            kept(*old(self), *final(self)),
            final(self).inv(),
            final(self).st() == state,
            final(self).errs() == old(self).errs(),
            final(self).evs() == old(self).evs(),
            final(self).level() == old(self).level(),
            final(self).measure() == old(self).measure(),
            final(self).same_input(old(self)),
            final(self).cur_kind() == old(self).cur_kind(),
            final(self).cur_range() == old(self).cur_range(),
            final(self).lx() == old(self).lx(),
            old(self).lossless() ==> final(self).lossless(),
    {
        self.state = state;
    }

    /// Gives the current token another kind.
    pub fn set_current_token_kind(&mut self, kind: LuaTokenKind)
        requires
            old(self).inv(),
            !spec_is_invalid_kind(old(self).cur_kind()),
            !spec_is_invalid_kind(kind),
        ensures
            kept(*old(self), *final(self)),
            final(self).inv(),
            final(self).cur_kind() == kind,
            final(self).cur_range() == old(self).cur_range(),
            final(self).st() == old(self).st(),
            final(self).errs() == old(self).errs(),
            final(self).evs() == old(self).evs(),
            final(self).level() == old(self).level(),
            final(self).measure() == old(self).measure(),
            final(self).same_input(old(self)),
            old(self).lossless() ==> final(self).lossless(),
    {
        self.current_token = kind;
    }

    /// After the lexer was reset to read from the start of the current token
    /// of `p` to the end of its origin token, the next token it reads is the
    /// one that [`reread_kind`] names.
    proof fn lemma_reread(self, p: LuaDocParser, range: SourceRange)
        requires
            self.text() == p.text(),
            p.toks().len() > 0,
            0 <= p.idx() < p.toks().len(),
            self.lx().wf(),
            self.lx().rdr() is Some,
            self.lx().rd().pos() == 0,
            self.lx().origin_kind() == p.toks()[p.idx()].kind,
            range.start_offset == p.cur_range().start_offset,
            range.end() == p.toks()[p.idx()].range.end(),
            is_char_span(
                self.lx().origin(),
                range,
                self.lx().char_start(),
                self.lx().char_start() + self.lx().rd().chars().len(),
            ),
        ensures
            spec_lex_state(
                self.lx().st(),
                self.lx().rd().chars(),
                self.lx().rd().pos(),
                self.lx().origin_kind(),
            ).0 == reread_kind(p, self.lx().st()),
    {
        let origin = p.toks()[p.idx()];
        let r2 = SourceRange {
            start_offset: p.cur_range().start_offset,
            length: (origin.range.end() - p.cur_range().start_offset) as usize,
        };
        assert(r2 == range);
        let cs = self.lx().char_start();
        let ce = cs + self.lx().rd().chars().len();
        assert(is_char_span(p.text(), r2, cs, ce));
        let span = choose|ci: int, cj: int| is_char_span(p.text(), r2, ci, cj);
        lemma_char_span_unique(p.text(), r2, span.0, span.1, cs, ce);
        assert(self.lx().rd().chars() == p.text().subrange(cs, ce));
    }

    /// Re-reads from the start of the current token to the end of its origin
    /// token as one description token.
    fn re_calc_detail(&mut self)
        requires
            old(self).inv(),
            !spec_is_invalid_kind(old(self).cur_kind()),
        ensures
            final(self).step_from(old(self)),
            final(self).level() == old(self).level(),
            final(self).errs() == old(self).errs(),
            final(self).st() == old(self).st(),
            final(self).evs() == old(self).evs(),
            !lexer_valid(old(self).lx()) ==> final(self).cur_kind() == LuaTokenKind::TkDocDetail
                && final(self).cur_range() == old(self).cur_range(),
            lexer_valid(old(self).lx()) ==> final(self).cur_kind() == reread_kind(
                *old(self),
                LuaDocLexerState::Description,
            ) && final(self).cur_range().start_offset == old(self).cur_range().start_offset,
    {
        self.current_token = LuaTokenKind::TkDocDetail;
        if self.lexer.is_invalid() {
            proof { lemma_evs_kept_refl(self.evs()); }
            return;
        }
        self.current_token = LuaTokenKind::NoneKind;
        let read_range = self.current_token_range;
        let origin_token = self.tokens[self.origin_token_index];
        proof {
            assert(self.toks()[self.idx()] == origin_token);
            lemma_char_range_end(self.text(), origin_token.range);
            lemma_char_range_join(self.text(), read_range, origin_token.range);
        }
        let new_range = SourceRange {
            start_offset: read_range.start_offset,
            length: origin_token.range.end_offset() - read_range.start_offset,
        };
        self.lexer.reset(origin_token.kind, new_range);
        self.lexer.set_state(LuaDocLexerState::Description);
        proof {
            lemma_reset_valid(self.lexer, new_range);
            self.lemma_reread(*old(self), new_range);
        }
        let token = self.lex_token();
        self.current_token = token.kind;
        self.current_token_range = token.range;
        proof {
            lemma_evs_kept_refl(self.evs());
            lemma_char_range_end(self.text(), token.range);
        }
        let state = self.lexer.get_state();
        let ghost mid = *self;
        self.skip_trivia(state);
        proof { lemma_evs_kept_trans(old(self).evs(), mid.evs(), self.evs()); }
    }

    /// Re-reads the current token in the normal state, from its start.
    fn re_calc_cast_type(&mut self)
        requires
            old(self).inv(),
        ensures
            final(self).step_from(old(self)),
            final(self).evs() == old(self).evs(),
            final(self).level() == old(self).level(),
            final(self).errs() == old(self).errs(),
            final(self).st() == old(self).st(),
            !lexer_valid(old(self).lx()) ==> *final(self) == *old(self),
            lexer_valid(old(self).lx()) ==> final(self).cur_kind() == reread_kind(
                *old(self),
                LuaDocLexerState::Normal,
            ) && final(self).cur_range().start_offset == old(self).cur_range().start_offset,
    {
        proof { lemma_evs_kept_refl(self.evs()); }
        if self.lexer.is_invalid() {
            return;
        }
        let read_range = self.current_token_range;
        let origin_token = self.tokens[self.origin_token_index];
        proof {
            assert(self.toks()[self.idx()] == origin_token);
            lemma_char_range_end(self.text(), origin_token.range);
            lemma_char_range_join(self.text(), read_range, origin_token.range);
        }
        let new_range = SourceRange {
            start_offset: read_range.start_offset,
            length: origin_token.range.end_offset() - read_range.start_offset,
        };
        self.lexer.reset(origin_token.kind, new_range);
        self.lexer.set_state(LuaDocLexerState::Normal);
        proof {
            lemma_reset_valid(self.lexer, new_range);
            self.lemma_reread(*old(self), new_range);
        }
        let token = self.lex_token();
        self.current_token = token.kind;
        if !token.range.is_empty() {
            self.current_token_range = token.range;
        }
        proof {
            if token.kind != LuaTokenKind::TkEof {
                lemma_char_range_end(self.text(), token.range);
            }
        }
    }
}


/// The kind of the token that the doc lexer reads in state `state` from the
/// start of the current token of `p` to the end of its origin token.
pub open spec fn reread_kind(p: LuaDocParser, state: LuaDocLexerState) -> LuaTokenKind {
    let origin = p.toks()[p.idx()];
    let range = SourceRange {
        start_offset: p.cur_range().start_offset,
        length: (origin.range.end() - p.cur_range().start_offset) as usize,
    };
    let span = choose|ci: int, cj: int| is_char_span(p.text(), range, ci, cj);
    spec_lex_state(state, p.text().subrange(span.0, span.1), 0, origin.kind).0
}

/// The tokens that the parser passes over in lexer state `state`: blanks
/// everywhere it skips anything, line ends too in the normal and init
/// states, and comment continuations in the normal states.
pub open spec fn skipped_in(state: LuaDocLexerState, k: LuaTokenKind) -> bool {
    match state {
        LuaDocLexerState::Normal | LuaDocLexerState::Version | LuaDocLexerState::Mapped
        | LuaDocLexerState::Extends => k == LuaTokenKind::TkDocContinue || k == LuaTokenKind::TkEndOfLine || k
            == LuaTokenKind::TkWhitespace,
        LuaDocLexerState::FieldStart | LuaDocLexerState::See | LuaDocLexerState::Source
        | LuaDocLexerState::AttributeUse | LuaDocLexerState::CastExpr => k == LuaTokenKind::TkWhitespace,
        LuaDocLexerState::Init => k == LuaTokenKind::TkEndOfLine || k == LuaTokenKind::TkWhitespace,
        _ => false,
    }
}

/// The tokens that switching to the trivia state leaves as they are.
pub open spec fn kept_in_trivia(k: LuaTokenKind) -> bool {
    k == LuaTokenKind::TkWhitespace || k == LuaTokenKind::TkEndOfLine || k == LuaTokenKind::TkEof || k
        == LuaTokenKind::TkDocContinueOr
}

/// The tokens that switching to the description state leaves as they are.
pub open spec fn kept_in_description(k: LuaTokenKind) -> bool {
    k == LuaTokenKind::TkWhitespace || k == LuaTokenKind::TkEndOfLine || k == LuaTokenKind::TkEof || k
        == LuaTokenKind::TkDocContinueOr || k == LuaTokenKind::TkNormalStart || k
        == LuaTokenKind::TkLongCommentStart || k == LuaTokenKind::TkDocStart || k
        == LuaTokenKind::TkDocLongStart || k == LuaTokenKind::TkLongCommentEnd
}

/// Trivia that the parser may eat while moving on: blanks, line ends and
/// comment continuations.
pub open spec fn skippable(k: LuaTokenKind) -> bool {
    k == LuaTokenKind::TkDocContinue || k == LuaTokenKind::TkEndOfLine || k == LuaTokenKind::TkWhitespace
}

/// Every event of `evs` from `from` on eats a token that `state` skips.
pub open spec fn eats_skipped(evs: Seq<MarkEvent>, from: int, state: LuaDocLexerState) -> bool {
    forall|i: int|
        from <= i < evs.len() ==> (#[trigger] evs[i] matches MarkEvent::EatToken { kind, .. } && skipped_in(
            state,
            kind,
        ))
}

/// Every event of `evs` from `from` on eats a blank, a line end or a comment
/// continuation.
pub open spec fn eats_skippable(evs: Seq<MarkEvent>, from: int) -> bool {
    forall|i: int|
        from <= i < evs.len() ==> (#[trigger] evs[i] matches MarkEvent::EatToken { kind, .. } && skippable(kind))
}

proof fn lemma_skipped_skippable(evs: Seq<MarkEvent>, from: int, state: LuaDocLexerState)
    requires
        eats_skipped(evs, from, state),
    ensures
        eats_skippable(evs, from),
{
    assert forall|i: int| from <= i < evs.len() implies (#[trigger] evs[i] matches MarkEvent::EatToken {
        kind,
        ..
    } && skippable(kind)) by {
        assert(evs[i] matches MarkEvent::EatToken { kind, .. } && skipped_in(state, kind));
    }
}

impl LuaDocParser {
    /// Switches the lexer to `state`.  A description re-reads the current
    /// token as description text, trivia turns it into a trivia token, and
    /// leaving a cast expression re-reads it as a type.
    pub fn set_lexer_state(&mut self, state: LuaDocLexerState)
        requires
            old(self).inv(),
            state == LuaDocLexerState::Description || state == LuaDocLexerState::Trivia ==> old(
                self,
            ).started(),
        ensures
            final(self).step_from(old(self)),
            final(self).level() == old(self).level(),
            final(self).errs() == old(self).errs(),
            final(self).st() == old(self).st(),
            final(self).lx().st() == state,
            state != LuaDocLexerState::Description ==> final(self).evs() == old(self).evs(),
            lexer_valid(final(self).lx()) == lexer_valid(old(self).lx()) || state
                == LuaDocLexerState::Description || state == LuaDocLexerState::Normal,
            state == LuaDocLexerState::Trivia ==> final(self).cur_range() == old(self).cur_range()
                && final(self).lx().rdr() == old(self).lx().rdr(),
            state == LuaDocLexerState::Trivia ==> final(self).cur_kind() == (if kept_in_trivia(
                old(self).cur_kind(),
            ) {
                old(self).cur_kind()
            } else {
                LuaTokenKind::TkDocTrivia
            }),
            state == LuaDocLexerState::Description && kept_in_description(old(self).cur_kind()) ==> final(self).cur_kind() == old(self).cur_kind() && final(self).cur_range() == old(self).cur_range(),
            state == LuaDocLexerState::Description && !kept_in_description(old(self).cur_kind())
                && lexer_valid(old(self).lx()) ==> final(self).cur_kind() == reread_kind(
                *old(self),
                LuaDocLexerState::Description,
            ) && final(self).cur_range().start_offset == old(self).cur_range().start_offset,
            state == LuaDocLexerState::Description && !kept_in_description(old(self).cur_kind())
                && !lexer_valid(old(self).lx()) ==> final(self).cur_kind() == LuaTokenKind::TkDocDetail
                && final(self).cur_range() == old(self).cur_range(),
            state == LuaDocLexerState::Normal && old(self).lx().st() == LuaDocLexerState::CastExpr
                && lexer_valid(old(self).lx()) ==> final(self).cur_kind() == reread_kind(
                *old(self),
                LuaDocLexerState::Normal,
            ) && final(self).cur_range().start_offset == old(self).cur_range().start_offset,
            state != LuaDocLexerState::Description && state != LuaDocLexerState::Trivia && !(state
                == LuaDocLexerState::Normal && old(self).lx().st() == LuaDocLexerState::CastExpr && lexer_valid(
                old(self).lx(),
            )) ==> final(self).cur_kind() == old(self).cur_kind() && final(self).cur_range() == old(self).cur_range(),
    {
        proof { lemma_evs_kept_refl(self.evs()); }
        match state {
            LuaDocLexerState::Description => {
                let k = self.current_token;
                if !(k == LuaTokenKind::TkWhitespace || k == LuaTokenKind::TkEndOfLine || k
                    == LuaTokenKind::TkEof || k == LuaTokenKind::TkDocContinueOr || k
                    == LuaTokenKind::TkNormalStart || k == LuaTokenKind::TkLongCommentStart || k
                    == LuaTokenKind::TkDocStart || k == LuaTokenKind::TkDocLongStart || k
                    == LuaTokenKind::TkLongCommentEnd) {
                    self.re_calc_detail();
                }
            },
            LuaDocLexerState::Trivia => {
                let k = self.current_token;
                if !(k == LuaTokenKind::TkWhitespace || k == LuaTokenKind::TkEndOfLine || k
                    == LuaTokenKind::TkEof || k == LuaTokenKind::TkDocContinueOr) {
                    self.current_token = LuaTokenKind::TkDocTrivia;
                }
            },
            LuaDocLexerState::Normal => {
                if self.lexer.get_state() == LuaDocLexerState::CastExpr {
                    self.re_calc_cast_type();
                }
            },
            _ => {},
        }
        self.lexer.set_state(state);
    }

    /// Eats the rest of the current line as trivia, then reads on from the
    /// start of the next line.
    pub fn bump_to_end(&mut self)
        requires
            old(self).inv(),
            lexer_valid(old(self).lx()),
        ensures
            final(self).step_from(old(self)),
            final(self).measure() < old(self).measure(),
            final(self).level() == old(self).level(),
            final(self).errs() == old(self).errs(),
            final(self).st() == old(self).st(),
    {
        let ghost p0 = *self;
        self.set_lexer_state(LuaDocLexerState::Trivia);
        let ghost p1 = *self;
        self.eat_current_and_lex_next();
        let ghost p2 = *self;
        proof { lemma_evs_kept_pushed(p1.evs(), MarkEvent::EatToken { kind: p1.cur_kind(), range: p1.cur_range() }); lemma_evs_kept_trans(p0.evs(), p1.evs(), p2.evs()); }
        self.set_lexer_state(LuaDocLexerState::Init);
        let ghost p3 = *self;
        proof { lemma_evs_kept_trans(p0.evs(), p2.evs(), p3.evs()); }
        self.bump();
        proof { lemma_evs_kept_trans(p0.evs(), p3.evs(), self.evs()); }
    }

    /// Event `i` starts a node of kind `kind`.
    pub open spec fn opened(&self, i: int, kind: LuaSyntaxKind) -> bool {
        self.valid_start(i) && start_kind(self.evs()[i]) == kind
    }

    /// Whether event `i` is a node start.
    pub open spec fn valid_start(&self, i: int) -> bool {
        0 <= i < self.evs().len() && self.evs()[i] is NodeStart
    }

    /// Opens a node of kind `kind` at the current position.
    pub fn mark(&mut self, kind: LuaSyntaxKind) -> (m: Marker)
        requires
            old(self).inv(),
        ensures
            final(self).inv(),
            final(self).same_input(old(self)),
            m.position == old(self).evs().len(),
            final(self).evs() == old(self).evs().push(MarkEvent::NodeStart { kind, parent: 0 }),
            final(self).valid_start(m.position as int),
            evs_kept(old(self).evs(), final(self).evs()),
            kept(*old(self), *final(self)),
            final(self).level() == old(self).level() + 1,
            final(self).errs() == old(self).errs(),
            final(self).st() == old(self).st(),
            final(self).measure() == old(self).measure(),
            final(self).cur_kind() == old(self).cur_kind(),
            final(self).cur_range() == old(self).cur_range(),
            final(self).lx() == old(self).lx(),
            old(self).lossless() ==> final(self).lossless(),
    {
        proof { if old(self).lossless() { lemma_reach_push(self.evs(), MarkEvent::NodeStart { kind, parent: 0 }, self.next_leaf_start()); } }
        let position = self.events.len();
        self.push_event(MarkEvent::NodeStart { kind, parent: 0 });
        proof { lemma_evs_kept_pushed(old(self).evs(), MarkEvent::NodeStart { kind, parent: 0 }); }
        let _n = self.events.len();
        self.mark_level = self.mark_level + 1;
        Marker::new(position)
    }

    /// Records the end of the innermost open node.
    pub fn push_node_end(&mut self)
        requires
            old(self).inv(),
            old(self).level() >= 1,
        ensures
            final(self).inv(),
            final(self).same_input(old(self)),
            final(self).evs() == old(self).evs().push(MarkEvent::NodeEnd),
            evs_kept(old(self).evs(), final(self).evs()),
            kept(*old(self), *final(self)),
            final(self).level() == old(self).level() - 1,
            final(self).errs() == old(self).errs(),
            final(self).st() == old(self).st(),
            final(self).measure() == old(self).measure(),
            final(self).cur_kind() == old(self).cur_kind(),
            final(self).cur_range() == old(self).cur_range(),
            final(self).lx() == old(self).lx(),
            old(self).lossless() ==> final(self).lossless(),
    {
        proof { if old(self).lossless() { lemma_reach_push(self.evs(), MarkEvent::NodeEnd, self.next_leaf_start()); } }
        self.push_event(MarkEvent::NodeEnd);
        proof { lemma_evs_kept_pushed(old(self).evs(), MarkEvent::NodeEnd); }
        self.mark_level = self.mark_level - 1;
    }
}

/// The kind of a node-start event.
pub open spec fn start_kind(e: MarkEvent) -> LuaSyntaxKind {
    match e {
        MarkEvent::NodeStart { kind, parent: _ } => kind,
        _ => LuaSyntaxKind::NoneKind,
    }
}

/// The forward parent of a node-start event.
pub open spec fn start_parent(e: MarkEvent) -> usize {
    match e {
        MarkEvent::NodeStart { kind: _, parent } => parent,
        _ => 0,
    }
}

impl Marker {
    /// Closes the node: records its end.
    pub fn complete(self, p: &mut LuaDocParser) -> (cm: CompleteMarker)
        requires
            old(p).inv(),
            old(p).level() >= 1,
            old(p).valid_start(self.position as int),
        ensures
            final(p).inv(),
            final(p).same_input(old(p)),
            final(p).evs() == old(p).evs().push(MarkEvent::NodeEnd),
            evs_kept(old(p).evs(), final(p).evs()),
            kept(*old(p), *final(p)),
            final(p).level() == old(p).level() - 1,
            final(p).errs() == old(p).errs(),
            final(p).st() == old(p).st(),
            final(p).measure() == old(p).measure(),
            final(p).cur_kind() == old(p).cur_kind(),
            final(p).cur_range() == old(p).cur_range(),
            final(p).lx() == old(p).lx(),
            cm.start == self.position,
            cm.finish == old(p).evs().len(),
            cm.kind == start_kind(old(p).evs()[self.position as int]),
            final(p).valid_start(cm.start as int),
            final(p).opened(cm.start as int, cm.kind),
            old(p).lossless() ==> final(p).lossless(),
    {
        let finish = p.events.len();
        let kind = match p.events[self.position] {
            MarkEvent::NodeStart { kind, parent: _ } => kind,
            _ => LuaSyntaxKind::NoneKind,
        };
        p.push_node_end();
        CompleteMarker { start: self.position, finish, kind }
    }

    /// Drops the node: its start no longer opens anything.
    pub fn undo(self, p: &mut LuaDocParser)
        requires
            old(p).inv(),
            old(p).level() >= 1,
            old(p).valid_start(self.position as int),
        ensures
            final(p).inv(),
            final(p).same_input(old(p)),
            final(p).evs() == old(p).evs().update(
                self.position as int,
                MarkEvent::NodeStart { kind: LuaSyntaxKind::NoneKind, parent: 0 },
            ),
            evs_kept_retyped(old(p).evs(), final(p).evs(), self.position as int),
            final(p).valid_start(self.position as int),
            forall|a: LuaDocParser| kept(a, *old(p)) && a.evs().len() <= self.position ==> #[trigger] kept(
                a,
                *final(p),
            ),
            final(p).level() == old(p).level() - 1,
            final(p).errs() == old(p).errs(),
            final(p).st() == old(p).st(),
            final(p).measure() == old(p).measure(),
            final(p).cur_kind() == old(p).cur_kind(),
            final(p).cur_range() == old(p).cur_range(),
            final(p).lx() == old(p).lx(),
            old(p).lossless() ==> final(p).lossless(),
    {
        proof { if old(p).lossless() { lemma_reach_update_start(p.evs(), self.position as int, MarkEvent::NodeStart { kind: LuaSyntaxKind::NoneKind, parent: 0 }, p.next_leaf_start()); } }
        p.mark_level = p.mark_level - 1;
        proof { lemma_events_wf_set_start(p.events@, self.position as int, LuaSyntaxKind::NoneKind, 0); }
        p.events.set(self.position, MarkEvent::NodeStart { kind: LuaSyntaxKind::NoneKind, parent: 0 });
        proof { lemma_retyped_kept(*old(p), *p, self.position as int); }
    }

    /// Gives the node another kind.
    pub fn set_kind(&self, p: &mut LuaDocParser, kind: LuaSyntaxKind)
        requires
            old(p).inv(),
            old(p).valid_start(self.position as int),
        ensures
            final(p).inv(),
            final(p).same_input(old(p)),
            final(p).evs() == old(p).evs().update(
                self.position as int,
                MarkEvent::NodeStart { kind, parent: start_parent(old(p).evs()[self.position as int]) },
            ),
            evs_kept_retyped(old(p).evs(), final(p).evs(), self.position as int),
            final(p).valid_start(self.position as int),
            forall|a: LuaDocParser| kept(a, *old(p)) && a.evs().len() <= self.position ==> #[trigger] kept(
                a,
                *final(p),
            ),
            final(p).level() == old(p).level(),
            final(p).errs() == old(p).errs(),
            final(p).st() == old(p).st(),
            final(p).measure() == old(p).measure(),
            final(p).cur_kind() == old(p).cur_kind(),
            final(p).cur_range() == old(p).cur_range(),
            final(p).lx() == old(p).lx(),
            old(p).lossless() ==> final(p).lossless(),
    {
        let parent = match p.events[self.position] {
            MarkEvent::NodeStart { kind: _, parent } => parent,
            _ => 0,
        };
        proof {
            lemma_events_wf_set_start(p.events@, self.position as int, kind, parent);
            if old(p).lossless() {
                lemma_reach_update_start(p.evs(), self.position as int, MarkEvent::NodeStart { kind, parent }, p.next_leaf_start());
            }
        }
        p.events.set(self.position, MarkEvent::NodeStart { kind, parent });
        proof { lemma_retyped_kept(*old(p), *p, self.position as int); }
    }
}

impl CompleteMarker {
    /// Opens a node of kind `kind` that will hold this finished node.
    pub fn precede(&self, p: &mut LuaDocParser, kind: LuaSyntaxKind) -> (m: Marker)
        requires
            old(p).inv(),
            old(p).valid_start(self.start as int),
        ensures
            final(p).inv(),
            final(p).same_input(old(p)),
            m.position == old(p).evs().len(),
            final(p).evs() == old(p).evs().push(MarkEvent::NodeStart { kind, parent: 0 }).update(
                self.start as int,
                MarkEvent::NodeStart { kind: start_kind(old(p).evs()[self.start as int]), parent: m.position },
            ),
            final(p).valid_start(m.position as int),
            evs_kept(old(p).evs(), final(p).evs()),
            kept(*old(p), *final(p)),
            final(p).level() == old(p).level() + 1,
            final(p).errs() == old(p).errs(),
            final(p).st() == old(p).st(),
            final(p).measure() == old(p).measure(),
            final(p).cur_kind() == old(p).cur_kind(),
            final(p).cur_range() == old(p).cur_range(),
            final(p).lx() == old(p).lx(),
            old(p).lossless() ==> final(p).lossless(),
    {
        let m = p.mark(kind);
        let k = match p.events[self.start] {
            MarkEvent::NodeStart { kind, parent: _ } => kind,
            _ => LuaSyntaxKind::NoneKind,
        };
        let ghost mid = p.evs();
        proof {
            lemma_events_wf_set_start(p.events@, self.start as int, k, m.position);
            if old(p).lossless() {
                lemma_reach_update_start(p.evs(), self.start as int, MarkEvent::NodeStart { kind: k, parent: m.position }, p.next_leaf_start());
            }
        }
        p.events.set(self.start, MarkEvent::NodeStart { kind: k, parent: m.position });
        proof { lemma_evs_kept_trans(old(p).evs(), mid, p.evs()); }
        m
    }
}


/// The tokens of `spec_tokens` from `i` on start at or after `i`, are not
/// empty, start on a char other than NUL, and come in order.
pub proof fn lemma_spec_tokens_shape(s: Seq<char>, i: int, cfg: LexerConfig)
    requires
        0 <= i,
    ensures
        ({
            let t = spec_tokens(s, i, cfg);
            &&& forall|k: int| 0 <= k < t.len() ==> i <= (#[trigger] t[k]).1 < t[k].2 <= s.len() && char_at(s, t[k].1) != EOF
            &&& forall|k: int, l: int| 0 <= k < l < t.len() ==> #[trigger] t[k].2 <= #[trigger] t[l].1
        }),
    decreases s.len() - i,
{
    if i < 0 || char_at(s, i) == EOF {
    } else {
        let (k0, e) = spec_lex_lua(s, i, cfg);
        if i < e <= s.len() {
            lemma_spec_tokens_shape(s, e, cfg);
            let rest = spec_tokens(s, e, cfg);
            let t = spec_tokens(s, i, cfg);
            assert(t == seq![(k0, i, e)] + rest);
            assert forall|k: int| 0 <= k < t.len() implies i <= (#[trigger] t[k]).1 < t[k].2 <= s.len() && char_at(s, t[k].1) != EOF by {
                if k > 0 {
                    assert(t[k] == rest[k - 1]);
                }
            }
            assert forall|k: int, l: int| 0 <= k < l < t.len() implies #[trigger] t[k].2 <= #[trigger] t[l].1 by {
                assert(t[l] == rest[l - 1]);
                if k > 0 {
                    assert(t[k] == rest[k - 1]);
                }
            }
        }
    }
}

/// Byte offsets of char positions grow with the positions.
pub proof fn lemma_prefix_mono(s: Seq<char>, a: int, b: int)
    requires
        0 <= a <= b <= s.len(),
    ensures
        byte_len(s.subrange(0, a)) <= byte_len(s.subrange(0, b)),
{
    lemma_byte_len_split(s, 0, a, b);
}

/// The Lua lexer's tokens of a whole text are comment-parser input.
pub proof fn lemma_lua_tokens_wf(r: Reader, cfg: LexerConfig, tokens: Seq<LuaTokenData>)
    requires
        r.wf(),
        r.valid().start_offset == 0,
        ({
            let spec = spec_tokens(r.chars(), 0, cfg);
            &&& tokens.len() == spec.len()
            &&& forall|k: int|
                0 <= k < spec.len() ==> #[trigger] tokens[k].kind == spec[k].0 && tokens[k].range
                    == token_range(r, spec[k].1, spec[k].2)
        }),
    ensures
        tokens_wf(r.chars(), tokens),
{
    let s = r.chars();
    let spec = spec_tokens(s, 0, cfg);
    lemma_spec_tokens_shape(s, 0, cfg);
    lemma_byte_len_subrange_bound(s, 0, s.len() as int);
    assert(s.subrange(0, s.len() as int) =~= s);
    assert forall|i: int| 0 <= i < tokens.len() implies {
        &&& (#[trigger] tokens[i]).range.length > 0
        &&& is_char_range(s, tokens[i].range)
        &&& not_nul_at(s, tokens[i].range.start_offset as int)
    } by {
        let (_, a, b) = spec[i];
        assert(tokens[i].kind == spec[i].0);
        lemma_byte_len_split(s, 0, a, b);
        lemma_byte_len_subrange_bound(s, 0, b);
        lemma_byte_len_at_least_len(s.subrange(a, b));
        assert(is_char_span(s, tokens[i].range, a, b));
        assert forall|ci: int| 0 <= ci < s.len() && #[trigger] byte_len(s.subrange(0, ci)) == tokens[i].range.start_offset implies s[ci] != EOF by {
            lemma_prefix_inj(s, ci, a);
        }
    }
    assert forall|i: int, j: int| 0 <= i < j < tokens.len() implies #[trigger] tokens[i].range.end() <= #[trigger] tokens[j].range.start_offset by {
        assert(tokens[i].kind == spec[i].0);
        assert(tokens[j].kind == spec[j].0);
        let (_, a, b) = spec[i];
        let (_, c, d) = spec[j];
        assert(b <= c);
        lemma_byte_len_split(s, 0, a, b);
        lemma_byte_len_subrange_bound(s, 0, b);
        lemma_byte_len_subrange_bound(s, 0, c);
        lemma_prefix_mono(s, b, c);
    }
}

impl LuaDocParser {
    /// Parses the doc comments in `tokens`, comment tokens of `text` (with
    /// the blanks and line ends between them), recording the parse after
    /// `events` (a `Comment` node) and the errors found after `errors`.
    pub fn parse(
        text: &str,
        tokens: Vec<LuaTokenData>,
        events: Vec<MarkEvent>,
        errors: Vec<LuaParseError>,
    ) -> (r: (Vec<MarkEvent>, Vec<LuaParseError>))
        requires
            tokens_wf(text@, tokens@),
            events_wf(events@),
        ensures
            events_wf(r.0@),
            evs_kept(events@, r.0@),
            errs_kept(errors@, r.1@),
            r.0@.len() > events@.len(),
            exists|i: int| events@.len() <= i < r.0@.len() && #[trigger] r.0@[i] is NodeStart,
            free_of_nul(text@) && toks_contiguous(tokens@) && leaves_reach(
                events@,
                if tokens@.len() > 0 {
                    tokens@[0].range.start_offset as int
                } else {
                    0
                },
            ) ==> leaves_reach(
                r.0@,
                if tokens@.len() > 0 {
                    tokens@[tokens@.len() - 1].range.end()
                } else {
                    0
                },
            ),
    {
        let mut parser = LuaDocParser::new(text, tokens, events, errors);
        let ghost p0 = parser;
        parser.init();
        let ghost p1 = parser;
        crate::grammar::doc::parse_comment(&mut parser);
        proof {
            lemma_evs_kept_trans(p0.evs(), p1.evs(), parser.evs());
            assert(kept(p0, parser));
            assert(parser.evs()[p1.evs().len() as int] is NodeStart);
            assert(p0.lossless() ==> leaves_reach(
                parser.evs(),
                if parser.toks().len() > 0 {
                    parser.toks()[parser.toks().len() - 1].range.end()
                } else {
                    0
                },
            )) by {
                if p0.lossless() {
                    assert(parser.lossless());
                    if parser.toks().len() > 0 {
                        assert(parser.frontier() == parser.toks()[parser.toks().len() - 1].range.end());
                    } else {
                        assert(parser.frontier() == 0);
                    }
                }
            }
        }
        let r = (parser.events, parser.errors);
        assert(r.0@[p1.evs().len() as int] is NodeStart);
        r
    }
}


/// Parses a text made of comments (one comment group) into a syntax tree:
/// a `Chunk` that holds the `Comment` node and the blanks before it.  Each
/// token of the tree holds the text of its range.
pub fn parse_doc_comment(text: &str) -> (t: crate::syntax::tree::syntax_tree::LuaSyntaxTree)
    ensures
        t.rooted_at_chunk(),
        crate::syntax::tree::tree_builder::tree_tokens_hold_text(t, text@),
        free_of_nul(text@) ==> crate::syntax::tree::tree_builder::ranges_chain(
            crate::syntax::tree::tree_builder::leaf_ranges(crate::syntax::tree::tree_builder::tree_leaves(t)),
            0,
            byte_len(text@) as int,
        ),
{
    let reader = Reader::new(text);
    let cfg = LexerConfig::default();
    let mut lexer = crate::lexer::lua_lexer::LuaLexer::new(reader, cfg, None);
    let tokens = lexer.tokenize();
    let ghost toks0 = tokens@;
    proof {
        lemma_lua_tokens_wf(reader, cfg, tokens@);
        crate::text::char_width::lemma_byte_len_encode(text@);
        if free_of_nul(text@) {
            let spec = spec_tokens(text@, 0, cfg);
            assert forall|k: int| 0 <= k < toks0.len() implies #[trigger] toks0[k].range == token_range(
                reader,
                spec[k].1,
                spec[k].2,
            ) by {
                assert(toks0[k].kind == spec[k].0);
            }
            crate::parser::lua_parser::lemma_lexed_tokens_cover(text@, reader, cfg, toks0);
            assert(Seq::<MarkEvent>::empty() =~= Seq::<MarkEvent>::empty());
        }
    }
    let (events, errors) = LuaDocParser::parse(text, tokens, Vec::new(), Vec::new());
    let ghost evs = events@;
    let chars = crate::text::strings::str_to_chars(text);
    let _n = text.as_bytes().len();
    proof {
        crate::text::char_width::lemma_byte_len_encode(text@);
    }
    let mut builder = crate::syntax::tree::tree_builder::LuaTreeBuilder::new(chars, events);
    builder.build();
    let t = builder.finish(errors);
    proof {
        assert(crate::syntax::tree::tree_builder::element_leaves(
            Seq::<crate::syntax::tree::syntax_tree::LuaSyntaxElementData>::empty(),
        ) =~= Seq::<(LuaTokenKind, SourceRange)>::empty());
        assert(crate::syntax::tree::tree_builder::tree_leaves(t) =~= crate::syntax::tree::tree_builder::event_leaves(
            evs,
        ));
    }
    t
}

} // verus!
