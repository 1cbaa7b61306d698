use vstd::prelude::*;

use crate::kind::lua_syntax_kind::LuaSyntaxKind;
use crate::kind::lua_token_kind::LuaTokenKind;
use crate::lexer::lexer_config::LexerConfig;
use crate::lexer::lua_lexer::{LuaLexer, lemma_spec_tokens_not_eof, lemma_tokens_tile, spec_tokens, token_range};
use crate::lexer::token_data::LuaTokenData;
use crate::parser::lua_doc_parser::{
    free_of_nul, toks_contiguous,
    LuaDocParser, errs_kept, evs_kept, evs_kept_retyped, lemma_evs_kept_retyped, lemma_events_wf_push, lemma_events_wf_set_start,
    lemma_evs_kept_pushed, lemma_evs_kept_refl, lemma_evs_kept_trans, lemma_lua_tokens_wf, start_kind,
    start_parent, tokens_wf,
};
use crate::parser::marker::{CompleteMarker, MarkEvent, Marker};
use crate::parser::parser_config::ParserConfig;
use crate::parser::parser_error::LuaParseError;
use crate::syntax::tree::syntax_tree::{LuaSyntaxElementData, LuaSyntaxTree};
use crate::syntax::tree::tree_builder::{
    element_leaves, event_leaves, leaf_ranges, leaves_reach, ranges_chain, lemma_reach_push, lemma_leaves_push, lemma_leaves_update_start, tree_leaves, tree_tokens_hold_text,
};
use crate::syntax::tree::tree_builder::{LuaTreeBuilder, events_wf};
use crate::text::char_width::{
    byte_len, chars_in_range, chars_within, lemma_byte_len_split, lemma_byte_len_subrange_bound,
};
use crate::text::reader::Reader;
use crate::text::text_range::SourceRange;

verus! {

/// The tokens that the parser passes over between the tokens of the grammar:
/// comments, blanks, line ends and the shebang line.
pub open spec fn spec_is_trivia_kind(kind: LuaTokenKind) -> bool {
    kind == LuaTokenKind::TkShortComment || kind == LuaTokenKind::TkLongComment || kind
        == LuaTokenKind::TkEndOfLine || kind == LuaTokenKind::TkWhitespace || kind == LuaTokenKind::TkShebang
}

/// The kind of the first token at or after position `i` of `toks` that is
/// not trivia (`TkEof` when there is none).
pub open spec fn next_non_trivia_kind(toks: Seq<LuaTokenData>, i: int) -> LuaTokenKind
    decreases toks.len() - i,
{
    if i < 0 || i >= toks.len() {
        LuaTokenKind::TkEof
    } else if spec_is_trivia_kind(toks[i].kind) {
        next_non_trivia_kind(toks, i + 1)
    } else {
        toks[i].kind
    }
}

pub fn is_trivia_kind(kind: LuaTokenKind) -> (b: bool)
    ensures
        b == spec_is_trivia_kind(kind),
{
    match kind {
        LuaTokenKind::TkShortComment | LuaTokenKind::TkLongComment | LuaTokenKind::TkEndOfLine
        | LuaTokenKind::TkWhitespace | LuaTokenKind::TkShebang => true,
        _ => false,
    }
}

/// The event that records the token `t` as it is.
pub open spec fn eat_event(t: LuaTokenData) -> MarkEvent {
    MarkEvent::EatToken { kind: t.kind, range: t.range }
}

/// The events that record the tokens `ts` one by one, as they are.
pub open spec fn eat_events(ts: Seq<LuaTokenData>) -> Seq<MarkEvent> {
    ts.map_values(|t: LuaTokenData| eat_event(t))
}

pub open spec fn is_comment_kind(kind: LuaTokenKind) -> bool {
    kind == LuaTokenKind::TkShortComment || kind == LuaTokenKind::TkLongComment
}

pub open spec fn is_blank_kind(kind: LuaTokenKind) -> bool {
    kind == LuaTokenKind::TkWhitespace || kind == LuaTokenKind::TkEndOfLine
}

/// Where the run of blanks and line ends that ends the tokens `[start, end)`
/// of `toks` begins.
pub open spec fn blank_tail_start(toks: Seq<LuaTokenData>, start: int, end: int) -> int
    decreases end - start,
{
    if end > start && is_blank_kind(toks[end - 1].kind) {
        blank_tail_start(toks, start, end - 1)
    } else {
        end
    }
}

/// How a comment group `[start, end)` of `toks` is recorded after the events
/// `before`: up to the blanks and line ends that end it, through the doc
/// parser (which opens a node); those blanks and line ends one by one after
/// that.  A group made of blanks alone is recorded token by token.
pub open spec fn comment_group_recorded(
    before: Seq<MarkEvent>,
    after: Seq<MarkEvent>,
    toks: Seq<LuaTokenData>,
    start: int,
    end: int,
) -> bool {
    let ts = blank_tail_start(toks, start, end);
    let n = after.len() - (end - ts);
    &&& before.len() <= n
    &&& after.subrange(n, after.len() as int) == eat_events(toks.subrange(ts, end))
    &&& ts == start ==> after.subrange(0, n) == before
    &&& ts > start ==> exists|i: int| before.len() <= i < n && #[trigger] after[i] is NodeStart
}

proof fn lemma_blank_tail_start_bounds(toks: Seq<LuaTokenData>, start: int, end: int)
    requires
        start <= end,
    ensures
        start <= blank_tail_start(toks, start, end) <= end,
    decreases end - start,
{
    if end > start && is_blank_kind(toks[end - 1].kind) {
        lemma_blank_tail_start_bounds(toks, start, end - 1);
    }
}

/// Recording a group of at least one token adds events.
proof fn lemma_group_recorded_grows(
    before: Seq<MarkEvent>,
    after: Seq<MarkEvent>,
    toks: Seq<LuaTokenData>,
    start: int,
    end: int,
)
    requires
        start < end,
        comment_group_recorded(before, after, toks, start, end),
    ensures
        after.len() > before.len(),
{
    lemma_blank_tail_start_bounds(toks, start, end);
    let ts = blank_tail_start(toks, start, end);
    let n = after.len() - (end - ts);
    if ts > start {
        let i = choose|i: int| before.len() <= i < n && #[trigger] after[i] is NodeStart;
    } else {
        assert(after.subrange(0, n).len() == before.len());
    }
}

/// No token of `[start, end)` is a comment.
pub open spec fn no_comment_in(toks: Seq<LuaTokenData>, start: int, end: int) -> bool {
    forall|k: int| start <= k < end ==> !is_comment_kind(#[trigger] toks[k].kind)
}

/// The kind of token `i` of `toks`, or the end of input past the last token.
pub open spec fn cur_of(toks: Seq<LuaTokenData>, i: int) -> LuaTokenKind {
    if 0 <= i < toks.len() {
        toks[i].kind
    } else {
        LuaTokenKind::TkEof
    }
}

/// A sub-sequence of comment-parser input is comment-parser input.
pub proof fn lemma_tokens_wf_subrange(text: Seq<char>, toks: Seq<LuaTokenData>, a: int, b: int)
    requires
        tokens_wf(text, toks),
        0 <= a <= b <= toks.len(),
    ensures
        tokens_wf(text, toks.subrange(a, b)),
{
    let s = toks.subrange(a, b);
    assert forall|i: int| 0 <= i < s.len() implies {
        &&& (#[trigger] s[i]).range.length > 0
        &&& crate::lexer::lua_doc_lexer::is_char_range(text, s[i].range)
        &&& crate::parser::lua_doc_parser::not_nul_at(text, s[i].range.start_offset as int)
    } by {
        assert(s[i] == toks[a + i]);
    }
    assert forall|i: int, j: int| 0 <= i < j < s.len() implies #[trigger] s[i].range.end()
        <= #[trigger] s[j].range.start_offset by {
        assert(s[i] == toks[a + i]);
        assert(s[j] == toks[a + j]);
    }
}

/// The parser of Lua source: it walks the tokens of the text, hands each
/// group of comments to the doc parser, and records the parse as events.
pub struct LuaParser<'a> {
    text: &'a str,
    chars: Vec<char>,
    tokens: Vec<LuaTokenData>,
    token_index: usize,
    current_token: LuaTokenKind,
    events: Vec<MarkEvent>,
    errors: Vec<LuaParseError>,
    mark_level: usize,
    parse_config: ParserConfig,
}

impl<'a> LuaParser<'a> {
    pub closed spec fn text(&self) -> Seq<char> {
        self.text@
    }

    pub closed spec fn chars_view(&self) -> Seq<char> {
        self.chars@
    }

    pub closed spec fn toks(&self) -> Seq<LuaTokenData> {
        self.tokens@
    }

    pub closed spec fn idx(&self) -> int {
        self.token_index as int
    }

    pub closed spec fn cur_kind(&self) -> LuaTokenKind {
        self.current_token
    }

    pub closed spec fn evs(&self) -> Seq<MarkEvent> {
        self.events@
    }

    pub closed spec fn errs(&self) -> Seq<LuaParseError> {
        self.errors@
    }

    pub closed spec fn level(&self) -> int {
        self.mark_level as int
    }

    pub closed spec fn config(&self) -> ParserConfig {
        self.parse_config
    }

    /// The termination measure: the tokens not yet passed.
    pub open spec fn measure(&self) -> int {
        self.toks().len() - self.idx()
    }

    /// The range of the current token (empty at the end of the text).
    pub open spec fn cur_range(&self) -> SourceRange {
        if 0 <= self.idx() < self.toks().len() {
            self.toks()[self.idx()].range
        } else {
            SourceRange { start_offset: byte_len(self.text()) as usize, length: 0 }
        }
    }

    pub open spec fn inv(&self) -> bool {
        &&& self.chars_view() == self.text()
        &&& byte_len(self.text()) <= usize::MAX
        &&& tokens_wf(self.text(), self.toks())
        &&& 0 <= self.idx() <= self.toks().len()
        &&& self.cur_kind() == cur_of(self.toks(), self.idx())
        &&& events_wf(self.evs())
        &&& 0 <= self.level() <= self.evs().len()
        &&& forall|k: int| 0 <= k < self.toks().len() ==> #[trigger] self.toks()[k].kind != LuaTokenKind::TkEof
    }

    /// The text, the token ranges and the config stay as they were.
    pub open spec fn same_input(&self, other: &LuaParser) -> bool {
        &&& self.text() == other.text()
        &&& self.toks().len() == other.toks().len()
        &&& forall|i: int| 0 <= i < self.toks().len() ==> #[trigger] self.toks()[i].range == other.toks()[i].range
        &&& forall|i: int| 0 <= i < self.toks().len() ==> is_comment_kind(#[trigger] self.toks()[i].kind)
            == is_comment_kind(other.toks()[i].kind)
        &&& self.config() == other.config()
    }

    /// What every parse step keeps: the invariant, the input, the events
    /// already recorded (node starts may be retyped), the errors already
    /// found, and a measure that does not grow.
    /// What retyping the node start at `pos` keeps: the invariant, the input,
    /// the measure and the errors; the events but the one at `pos`.
    pub open spec fn retyped_from(&self, old: &LuaParser, pos: int) -> bool {
        &&& (leaves_follow_tokens(*old) ==> leaves_follow_tokens(*self))
        &&& (lua_lossless(*old) ==> lua_lossless(*self))
        &&& self.inv()
        &&& self.same_input(old)
        &&& self.measure() == old.measure()
        &&& evs_kept_retyped(old.evs(), self.evs(), pos)
    }

    pub open spec fn step_from(&self, old: &LuaParser) -> bool {
        &&& self.inv()
        &&& self.same_input(old)
        &&& lua_kept(*old, *self)
        &&& self.measure() <= old.measure()
        &&& (leaves_follow_tokens(*old) ==> leaves_follow_tokens(*self))
        &&& (lua_lossless(*old) ==> lua_lossless(*self))
    }

    /// Event `i` starts a node of kind `kind`.
    pub open spec fn opened(&self, i: int, kind: LuaSyntaxKind) -> bool {
        self.valid_start(i) && start_kind(self.evs()[i]) == kind
    }

    /// Whether event `i` is a node start.
    pub open spec fn valid_start(&self, i: int) -> bool {
        0 <= i < self.evs().len() && self.evs()[i] is NodeStart
    }
}

/// `b` keeps the events and errors that `a` recorded.
pub closed spec fn lua_kept(a: LuaParser, b: LuaParser) -> bool {
    evs_kept(a.evs(), b.evs()) && errs_kept(a.errs(), b.errs())
}

pub broadcast proof fn lemma_lua_kept_trans(a: LuaParser, b: LuaParser, c: LuaParser)
    requires
        #[trigger] lua_kept(a, b),
        #[trigger] lua_kept(b, c),
    ensures
        lua_kept(a, c),
{
    lemma_evs_kept_trans(a.evs(), b.evs(), c.evs());
}

pub broadcast proof fn lemma_lua_kept_valid_start(a: LuaParser, b: LuaParser, i: int)
    requires
        #[trigger] lua_kept(a, b),
        #[trigger] a.valid_start(i),
    ensures
        b.valid_start(i),
{
}

pub broadcast proof fn lemma_lua_kept_refl(a: LuaParser)
    ensures
        #[trigger] lua_kept(a, a),
{
}

/// Where the token at `i` starts; the end of the text past the last token.
pub open spec fn start_at(toks: Seq<LuaTokenData>, text: Seq<char>, i: int) -> int {
    if 0 <= i < toks.len() {
        toks[i].range.start_offset as int
    } else {
        byte_len(text) as int
    }
}

/// The tokens lie end to end from byte 0 to byte `n`.
pub open spec fn tokens_cover(ts: Seq<LuaTokenData>, n: int) -> bool {
    &&& toks_contiguous(ts)
    &&& ts.len() == 0 ==> n == 0
    &&& ts.len() > 0 ==> ts[0].range.start_offset == 0 && ts[ts.len() - 1].range.end() == n
}

/// A text without NUL whose tokens cover it.
pub open spec fn covered(p: LuaParser) -> bool {
    free_of_nul(p.text()) && tokens_cover(p.toks(), byte_len(p.text()) as int)
}

/// Nothing of the text is lost: in a text without NUL, whose tokens cover
/// it, the recorded tokens lie end to end from byte 0 to the start of the
/// current token (the end of the text at the end).
pub open spec fn lua_lossless(p: LuaParser) -> bool {
    covered(p) && leaves_reach(p.evs(), start_at(p.toks(), p.text(), p.idx()))
}

/// The token after `i` starts where token `i` ends.
pub proof fn lemma_start_at_next(toks: Seq<LuaTokenData>, text: Seq<char>, i: int)
    requires
        tokens_cover(toks, byte_len(text) as int),
        0 <= i < toks.len(),
    ensures
        start_at(toks, text, i + 1) == toks[i].range.end(),
{
}

/// The tokens that the lexer reads in a text without NUL cover it.
#[verifier::rlimit(40)]
pub proof fn lemma_lexed_tokens_cover(s: Seq<char>, r: Reader, cfg: LexerConfig, toks: Seq<LuaTokenData>)
    requires
        free_of_nul(s),
        r.chars() == s,
        r.valid().start_offset == 0,
        byte_len(s) <= usize::MAX,
        toks.len() == spec_tokens(s, 0, cfg).len(),
        forall|k: int|
            0 <= k < toks.len() ==> #[trigger] toks[k].range == token_range(
                r,
                spec_tokens(s, 0, cfg)[k].1,
                spec_tokens(s, 0, cfg)[k].2,
            ),
    ensures
        tokens_cover(toks, byte_len(s) as int),
{
    let t = spec_tokens(s, 0, cfg);
    lemma_tokens_tile(s, 0, cfg);
    crate::parser::lua_doc_parser::lemma_spec_tokens_shape(s, 0, cfg);
    assert forall|k: int| 0 <= k < toks.len() implies #[trigger] toks[k].range.start_offset == byte_len(
        s.subrange(0, t[k].1),
    ) && toks[k].range.end() == byte_len(s.subrange(0, t[k].2)) by {
        assert(0 <= t[k].1 < t[k].2 <= s.len());
        lemma_byte_len_split(s, 0, t[k].1, t[k].2);
        lemma_byte_len_subrange_bound(s, 0, t[k].2);
        lemma_byte_len_subrange_bound(s, t[k].1, t[k].2);
    }
    assert forall|k: int| 0 <= k < toks.len() - 1 implies #[trigger] toks[k].range.end()
        == toks[k + 1].range.start_offset by {
        assert(t[k].2 == t[k + 1].1);
        assert(toks[k + 1].range.start_offset == byte_len(s.subrange(0, t[k + 1].1)));
    }
    if toks.len() > 0 {
        assert(s.subrange(0, 0) =~= Seq::<char>::empty());
        assert(toks[0].range.start_offset == byte_len(s.subrange(0, t[0].1)));
        let last = toks.len() - 1;
        assert(toks[last].range.end() == byte_len(s.subrange(0, t[last].2)));
        assert(t[last].2 == s.len());
        assert(s.subrange(0, s.len() as int) =~= s);
    } else {
        assert(s.len() == 0);
        assert(s =~= Seq::<char>::empty());
    }
}

/// The tokens `ts`, each by kind and range.
pub open spec fn token_leaves(ts: Seq<LuaTokenData>) -> Seq<(LuaTokenKind, SourceRange)> {
    ts.map_values(|t: LuaTokenData| (t.kind, t.range))
}

/// In a text without comments, the tokens recorded so far are exactly the
/// tokens before the current one, in order.
pub open spec fn leaves_follow_tokens(p: LuaParser) -> bool {
    no_comment_in(p.toks(), 0, p.toks().len() as int) ==> event_leaves(p.evs()) == token_leaves(
        p.toks().take(p.idx()),
    )
}

pub proof fn lemma_leaves_eat_events(a: Seq<MarkEvent>, ts: Seq<LuaTokenData>)
    ensures
        event_leaves(a + eat_events(ts)) == event_leaves(a) + token_leaves(ts),
    decreases ts.len(),
{
    if ts.len() == 0 {
        assert(a + eat_events(ts) =~= a);
        assert(event_leaves(a) + token_leaves(ts) =~= event_leaves(a));
    } else {
        let init = ts.drop_last();
        lemma_leaves_eat_events(a, init);
        assert(a + eat_events(ts) =~= (a + eat_events(init)).push(eat_event(ts.last())));
        lemma_leaves_push(a + eat_events(init), eat_event(ts.last()));
        assert(token_leaves(ts) =~= token_leaves(init).push((ts.last().kind, ts.last().range)));
        assert(event_leaves(a) + token_leaves(ts) =~= (event_leaves(a) + token_leaves(init)).push(
            (ts.last().kind, ts.last().range),
        ));
    }
}

/// The position of the last token before `i` that is not trivia (-1 when
/// there is none).
pub open spec fn prev_grammar_index(toks: Seq<LuaTokenData>, i: int) -> int
    decreases i,
{
    if i <= 0 || i > toks.len() {
        -1
    } else if !spec_is_trivia_kind(toks[i - 1].kind) {
        i - 1
    } else {
        prev_grammar_index(toks, i - 1)
    }
}

/// The last token of the grammar that `p` has consumed is of kind `k`.
pub open spec fn last_consumed_is(p: LuaParser, k: LuaTokenKind) -> bool {
    let j = prev_grammar_index(p.toks(), p.idx());
    0 <= j && p.toks()[j].kind == k
}

proof fn lemma_prev_grammar_index(toks: Seq<LuaTokenData>, i: int, n: int)
    requires
        0 <= i < n <= toks.len(),
        !spec_is_trivia_kind(toks[i].kind),
        forall|k: int| i < k < n ==> spec_is_trivia_kind(#[trigger] toks[k].kind),
    ensures
        prev_grammar_index(toks, n) == i,
    decreases n,
{
    if n > i + 1 {
        assert(spec_is_trivia_kind(toks[n - 1].kind));
        lemma_prev_grammar_index(toks, i, n - 1);
    }
}

pub broadcast proof fn lemma_lua_kept_errs_len(a: LuaParser, b: LuaParser)
    requires
        #[trigger] lua_kept(a, b),
    ensures
        a.errs().len() <= b.errs().len(),
{
}

/// No token that the lexer reads in `s` with `cfg` is a comment.
pub open spec fn text_free_of_comments(s: Seq<char>, cfg: LexerConfig) -> bool {
    forall|k: int| 0 <= k < spec_tokens(s, 0, cfg).len() ==> !is_comment_kind(
        #[trigger] spec_tokens(s, 0, cfg)[k].0,
    )
}

/// The byte ranges of the tokens that the lexer reads in `s` with `cfg`, in
/// order.
pub open spec fn text_token_ranges(s: Seq<char>, cfg: LexerConfig) -> Seq<SourceRange> {
    spec_tokens(s, 0, cfg).map_values(
        |t: (LuaTokenKind, int, int)|
            SourceRange {
                start_offset: byte_len(s.subrange(0, t.1)) as usize,
                length: byte_len(s.subrange(t.1, t.2)) as usize,
            },
    )
}


/// Parse steps chain.
pub broadcast proof fn lemma_step_from_trans(a: LuaParser, b: LuaParser, c: LuaParser)
    requires
        #[trigger] b.step_from(&a),
        #[trigger] c.step_from(&b),
    ensures
        c.step_from(&a),
{
    assert forall|i: int| 0 <= i < c.toks().len() implies #[trigger] c.toks()[i].range == a.toks()[i].range by {
        assert(c.toks()[i].range == b.toks()[i].range);
    }
    assert forall|i: int| 0 <= i < c.toks().len() implies is_comment_kind(#[trigger] c.toks()[i].kind)
        == is_comment_kind(a.toks()[i].kind) by {
        assert(is_comment_kind(c.toks()[i].kind) == is_comment_kind(b.toks()[i].kind));
    }
}

/// What is kept keeps its node kinds, and the events only grow.
pub broadcast proof fn lemma_lua_kept_kind(a: LuaParser, b: LuaParser, i: int, k: LuaSyntaxKind)
    requires
        #[trigger] lua_kept(a, b),
        a.opened(i, k),
    ensures
        #[trigger] b.opened(i, k),
{
}

pub broadcast proof fn lemma_lua_kept_len(a: LuaParser, b: LuaParser)
    requires
        #[trigger] lua_kept(a, b),
    ensures
        a.evs().len() <= b.evs().len(),
{
}

pub broadcast group group_lua_kept {
    lemma_lua_kept_errs_len,
    lemma_lua_kept_kind,
    lemma_lua_kept_len,
    lemma_lua_kept_trans,
    lemma_lua_kept_valid_start,
    lemma_lua_kept_refl,
    lemma_step_from_trans,
}

impl<'a> LuaParser<'a> {
    /// Records the token at `i` as it is.
    fn eat_token_at(&mut self, i: usize)
        requires
            old(self).inv(),
            i < old(self).toks().len(),
        ensures
            final(self).inv(),
            final(self).same_input(old(self)),
            final(self).evs() == old(self).evs().push(
                MarkEvent::EatToken { kind: old(self).toks()[i as int].kind, range: old(self).toks()[i as int].range },
            ),
            lua_kept(*old(self), *final(self)),
            final(self).toks() == old(self).toks(),
            final(self).idx() == old(self).idx(),
            final(self).level() == old(self).level(),
            final(self).errs() == old(self).errs(),
            leaves_reach(old(self).evs(), old(self).toks()[i as int].range.start_offset as int) ==> leaves_reach(
                final(self).evs(),
                old(self).toks()[i as int].range.end(),
            ),
    {
        let t = self.tokens[i];
        let e = MarkEvent::EatToken { kind: t.kind, range: t.range };
        proof {
            if leaves_reach(self.evs(), t.range.start_offset as int) {
                lemma_reach_push(self.evs(), e, t.range.start_offset as int);
            }
        }
        proof {
            lemma_events_wf_push(self.events@, e);
            lemma_evs_kept_pushed(self.events@, e);
        }
        self.events.push(e);
    }

    /// Hands the comments of the tokens `[start, end)` to the doc parser,
    /// then records the blanks and line ends that follow the last comment.
    fn parse_comments(&mut self, start: usize, end: usize)
        requires
            old(self).inv(),
            start < end <= old(self).toks().len(),
        ensures
            final(self).inv(),
            final(self).same_input(old(self)),
            lua_kept(*old(self), *final(self)),
            final(self).toks() == old(self).toks(),
            final(self).idx() == old(self).idx(),
            final(self).level() == old(self).level(),
            comment_group_recorded(old(self).evs(), final(self).evs(), old(self).toks(), start as int, end as int),
            covered(*old(self)) && leaves_reach(old(self).evs(), old(self).toks()[start as int].range.start_offset as int)
                ==> leaves_reach(final(self).evs(), old(self).toks()[end - 1].range.end()),
    {
        let ghost ok = covered(*old(self)) && leaves_reach(
            old(self).evs(),
            old(self).toks()[start as int].range.start_offset as int,
        );
        let mut trivia_start = end;
        while trivia_start > start && (self.tokens[trivia_start - 1].kind == LuaTokenKind::TkWhitespace
            || self.tokens[trivia_start - 1].kind == LuaTokenKind::TkEndOfLine)
            invariant
                start <= trivia_start <= end <= self.tokens@.len(),
                self.toks() == old(self).toks(),
                blank_tail_start(self.toks(), start as int, trivia_start as int) == blank_tail_start(
                    self.toks(),
                    start as int,
                    end as int,
                ),
            decreases trivia_start,
        {
            trivia_start -= 1;
        }
        assert(blank_tail_start(self.toks(), start as int, trivia_start as int) == trivia_start);
        if trivia_start > start {
            let mut group: Vec<LuaTokenData> = Vec::new();
            let mut i = start;
            while i < trivia_start
                invariant
                    start <= i <= trivia_start <= self.tokens@.len(),
                    group@ == self.tokens@.subrange(start as int, i as int),
                decreases trivia_start - i,
            {
                group.push(self.tokens[i]);
                i += 1;
                assert(group@ =~= self.tokens@.subrange(start as int, i as int));
            }
            proof {
                lemma_tokens_wf_subrange(self.text(), self.toks(), start as int, trivia_start as int);
            }
            let mut events: Vec<MarkEvent> = Vec::new();
            std::mem::swap(&mut events, &mut self.events);
            let mut errors: Vec<LuaParseError> = Vec::new();
            std::mem::swap(&mut errors, &mut self.errors);
            proof {
                if ok {
                    assert(toks_contiguous(group@)) by {
                        assert forall|k: int| 0 <= k < group@.len() - 1 implies #[trigger] group@[k].range.end()
                            == group@[k + 1].range.start_offset by {
                            assert(group@[k] == self.toks()[start + k]);
                            assert(group@[k + 1] == self.toks()[start + k + 1]);
                        }
                    }
                    assert(group@[0] == self.toks()[start as int]);
                }
            }
            let ghost g = group@;
            let (events, errors) = LuaDocParser::parse(self.text, group, events, errors);
            proof {
                if ok {
                    assert(g[g.len() - 1] == self.toks()[trivia_start - 1]);
                }
            }
            self.events = events;
            self.errors = errors;
        } else {
            proof { lemma_evs_kept_refl(self.evs()); }
        }
        let ghost mid = *self;
        assert(trivia_start == start ==> mid.evs() == old(self).evs());
        assert(trivia_start > start ==> exists|i: int|
            old(self).evs().len() <= i < mid.evs().len() && #[trigger] mid.evs()[i] is NodeStart);
        let mut j = trivia_start;
        while j < end
            invariant
                self.inv(),
                self.same_input(old(self)),
                lua_kept(*old(self), *self),
                self.toks() == old(self).toks(),
                self.idx() == old(self).idx(),
                self.level() == old(self).level(),
                start <= trivia_start <= j <= end <= self.toks().len(),
                self.evs().len() == mid.evs().len() + (j - trivia_start),
                self.evs().subrange(0, mid.evs().len() as int) == mid.evs(),
                self.evs().subrange(mid.evs().len() as int, self.evs().len() as int) == eat_events(
                    self.toks().subrange(trivia_start as int, j as int),
                ),
                ok ==> covered(*self),
                ok ==> leaves_reach(
                    self.evs(),
                    if j == start {
                        self.toks()[start as int].range.start_offset as int
                    } else {
                        self.toks()[j - 1].range.end()
                    },
                ),
            decreases end - j,
        {
            let ghost before = self.evs();
            proof {
                if ok && j > start {
                    assert(self.toks()[j - 1].range.end() == self.toks()[j as int].range.start_offset);
                }
            }
            self.eat_token_at(j);
            proof {
                assert(self.evs().subrange(0, mid.evs().len() as int) =~= before.subrange(
                    0,
                    mid.evs().len() as int,
                ));
                let t = self.toks();
                assert(eat_events(t.subrange(trivia_start as int, j + 1)) =~= eat_events(
                    t.subrange(trivia_start as int, j as int),
                ).push(eat_event(t[j as int])));
                assert(self.evs().subrange(mid.evs().len() as int, self.evs().len() as int) =~= before.subrange(
                    mid.evs().len() as int,
                    before.len() as int,
                ).push(eat_event(t[j as int])));
            }
            j += 1;
        }
        proof {
            let n = self.evs().len() - (end - trivia_start);
            assert(n == mid.evs().len());
            if trivia_start > start {
                let i = choose|i: int|
                    old(self).evs().len() <= i < mid.evs().len() && #[trigger] mid.evs()[i] is NodeStart;
                assert(self.evs()[i] == self.evs().subrange(0, mid.evs().len() as int)[i]);
            }
        }
    }

    /// Records the trivia tokens `[start, end)`: blanks and line ends as they
    /// are, comments in groups through the doc parser.  A group ends at a
    /// blank line or at the end of the trivia; a group that trails code on
    /// its line ends with that line.
    fn parse_trivia_tokens(&mut self, start: usize, end: usize)
        requires
            old(self).inv(),
            start <= end <= old(self).toks().len(),
        ensures
            final(self).inv(),
            final(self).same_input(old(self)),
            lua_kept(*old(self), *final(self)),
            final(self).toks() == old(self).toks(),
            final(self).idx() == old(self).idx(),
            final(self).level() == old(self).level(),
            start < end ==> final(self).evs().len() > old(self).evs().len(),
            no_comment_in(old(self).toks(), start as int, end as int) ==> final(self).evs() == old(self).evs()
                + eat_events(old(self).toks().subrange(start as int, end as int)),
            covered(*old(self)) && leaves_reach(old(self).evs(), start_at(old(self).toks(), old(self).text(), start as int))
                ==> leaves_reach(final(self).evs(), start_at(old(self).toks(), old(self).text(), end as int)),
    {
        let ghost ok = covered(*old(self)) && leaves_reach(
            old(self).evs(),
            start_at(old(self).toks(), old(self).text(), start as int),
        );
        let mut line_count: usize = 0;
        let mut group: Option<usize> = None;
        let mut seen_line_end = false;
        let mut trailing = false;
        let mut i = start;
        while i < end
            invariant
                self.inv(),
                self.same_input(old(self)),
                lua_kept(*old(self), *self),
                self.toks() == old(self).toks(),
                self.idx() == old(self).idx(),
                self.level() == old(self).level(),
                start <= i <= end <= self.toks().len(),
                line_count <= i - start,
                group matches Some(g) ==> start <= g < i,
                i > start ==> self.evs().len() > old(self).evs().len() || group is Some,
                no_comment_in(self.toks(), start as int, i as int) ==> group is None && self.evs()
                    == old(self).evs() + eat_events(self.toks().subrange(start as int, i as int)),
                ok ==> covered(*self),
                ok ==> leaves_reach(
                    self.evs(),
                    start_at(
                        self.toks(),
                        self.text(),
                        match group {
                            Some(g) => g as int,
                            None => i as int,
                        },
                    ),
                ),
            decreases end - i,
        {
            proof {
                if ok {
                    lemma_start_at_next(self.toks(), self.text(), i as int);
                }
            }
            let ghost before = self.evs();
            let ghost t = self.toks();
            proof {
                if no_comment_in(t, start as int, i + 1) {
                    assert(no_comment_in(t, start as int, i as int));
                    assert(!is_comment_kind(t[i as int].kind));
                    assert(eat_events(t.subrange(start as int, i + 1)) =~= eat_events(
                        t.subrange(start as int, i as int),
                    ).push(eat_event(t[i as int])));
                }
                if !no_comment_in(t, start as int, i as int) {
                    assert(!no_comment_in(t, start as int, i + 1));
                }
            }
            let kind = self.tokens[i].kind;
            match kind {
                LuaTokenKind::TkShortComment | LuaTokenKind::TkLongComment => {
                    line_count = 0;
                    if group.is_none() {
                        group = Some(i);
                        trailing = start > 0 && !seen_line_end;
                    }
                },
                LuaTokenKind::TkEndOfLine => {
                    line_count += 1;
                    seen_line_end = true;
                    match group {
                        None => {
                            self.eat_token_at(i);
                        },
                        Some(g) => {
                            if line_count > 1 || trailing {
                                self.parse_comments(g, i + 1);
                                proof {
                                    lemma_group_recorded_grows(before, self.evs(), t, g as int, i + 1);
                                }
                                group = None;
                            }
                        },
                    }
                },
                LuaTokenKind::TkShebang | LuaTokenKind::TkWhitespace => {
                    if group.is_none() {
                        self.eat_token_at(i);
                    }
                },
                _ => {
                    if let Some(g) = group {
                        self.parse_comments(g, i);
                        proof {
                            lemma_group_recorded_grows(before, self.evs(), t, g as int, i as int);
                        }
                        group = None;
                    }
                    self.eat_token_at(i);
                },
            }
            i += 1;
        }
        if let Some(g) = group {
            let ghost before = self.evs();
            self.parse_comments(g, end);
            proof {
                lemma_group_recorded_grows(before, self.evs(), old(self).toks(), g as int, end as int);
            }
        }
    }

    /// Moves to the first token at or after `from` that is not trivia,
    /// recording the trivia on the way.
    fn advance_from(&mut self, from: usize)
        requires
            old(self).inv(),
            old(self).idx() <= from <= old(self).toks().len(),
        ensures
            final(self).inv(),
            final(self).same_input(old(self)),
            lua_kept(*old(self), *final(self)),
            final(self).toks() == old(self).toks(),
            final(self).idx() >= from,
            final(self).level() == old(self).level(),
            final(self).idx() < final(self).toks().len() ==> !spec_is_trivia_kind(final(self).cur_kind()),
            forall|k: int| from <= k < final(self).idx() ==> spec_is_trivia_kind(#[trigger] old(self).toks()[k].kind),
            no_comment_in(old(self).toks(), 0, old(self).toks().len() as int) ==> final(self).evs()
                == old(self).evs() + eat_events(old(self).toks().subrange(from as int, final(self).idx() as int)),
            covered(*old(self)) && leaves_reach(old(self).evs(), start_at(old(self).toks(), old(self).text(), from as int))
                ==> lua_lossless(*final(self)),
    {
        let n = self.tokens.len();
        let mut next = from;
        while next < n && is_trivia_kind(self.tokens[next].kind)
            invariant
                from <= next <= n,
                n == self.tokens@.len(),
                self.tokens@ == old(self).toks(),
                forall|k: int| from <= k < next ==> spec_is_trivia_kind(#[trigger] old(self).toks()[k].kind),
            decreases n - next,
        {
            next += 1;
        }
        self.parse_trivia_tokens(from, next);
        self.token_index = next;
        self.current_token = if next < n {
            self.tokens[next].kind
        } else {
            LuaTokenKind::TkEof
        };
    }

    /// Records the current token (unless at the end) and moves to the next
    /// token of the grammar.
    pub fn bump(&mut self)
        requires
            old(self).inv(),
        ensures
            final(self).step_from(old(self)),
            final(self).level() == old(self).level(),
            old(self).idx() < old(self).toks().len() ==> final(self).measure() < old(self).measure(),
            old(self).cur_kind() != LuaTokenKind::TkEof ==> {
                &&& final(self).measure() < old(self).measure()
                &&& final(self).evs().len() > old(self).evs().len()
                &&& final(self).evs()[old(self).evs().len() as int] == (MarkEvent::EatToken {
                    kind: old(self).cur_kind(),
                    range: old(self).cur_range(),
                })
            },
            old(self).idx() == old(self).toks().len() ==> *final(self) == *old(self),
            final(self).toks() == old(self).toks(),
            old(self).idx() < old(self).toks().len() && !spec_is_trivia_kind(old(self).cur_kind())
                ==> prev_grammar_index(final(self).toks(), final(self).idx() as int) == old(self).idx(),
    {
        if self.token_index < self.tokens.len() {
            let i = self.token_index;
            self.eat_token_at(i);
            let ghost mid = *self;
            self.advance_from(i + 1);
            proof {
                assert(mid.evs()[old(self).evs().len() as int] == self.evs()[old(self).evs().len() as int]);
                if !spec_is_trivia_kind(old(self).cur_kind()) {
                    lemma_prev_grammar_index(self.toks(), i as int, self.idx() as int);
                }
                if no_comment_in(self.toks(), 0, self.toks().len() as int) && leaves_follow_tokens(*old(self)) {
                    let t = self.toks();
                    lemma_leaves_push(old(self).evs(), eat_event(t[i as int]));
                    lemma_leaves_eat_events(mid.evs(), t.subrange(i + 1, self.idx() as int));
                    assert(t.take(i + 1) =~= t.take(i as int).push(t[i as int]));
                    assert(t.take(self.idx() as int) =~= t.take(i + 1) + t.subrange(i + 1, self.idx() as int));
                    assert(token_leaves(t.take(i + 1)) =~= token_leaves(t.take(i as int)).push((t[i as int].kind, t[i as int].range)));
                    assert(token_leaves(t.take(self.idx() as int)) =~= token_leaves(t.take(i + 1)) + token_leaves(t.subrange(i + 1, self.idx() as int)));
                }
            }
        } else {
            proof { lemma_evs_kept_refl(self.evs()); }
        }
    }

    pub fn current_token(&self) -> (k: LuaTokenKind)
        ensures
            k == self.cur_kind(),
    {
        self.current_token
    }

    pub fn current_token_index(&self) -> (i: usize)
        ensures
            i == self.idx(),
    {
        self.token_index
    }

    pub fn current_token_range(&self) -> (r: SourceRange)
        requires
            self.inv(),
        ensures
            r == self.cur_range(),
    {
        if self.token_index < self.tokens.len() {
            self.tokens[self.token_index].range
        } else {
            proof { crate::text::char_width::lemma_byte_len_encode(self.text()); }
            SourceRange { start_offset: self.text.as_bytes().len(), length: 0 }
        }
    }

    /// The text of the current token (empty at the end).
    pub fn current_token_text(&self) -> (t: Vec<char>)
        requires
            self.inv(),
        ensures
            t@ == chars_within(self.text(), self.cur_range(), self.text().len() as int),
    {
        let r = self.current_token_range();
        chars_in_range(&self.chars, r)
    }

    /// The kind of the next token of the grammar after the current one.
    pub fn peek_next_token(&self) -> (k: LuaTokenKind)
        requires
            self.inv(),
        ensures
            k == (if self.idx() >= self.toks().len() {
                LuaTokenKind::TkEof
            } else {
                next_non_trivia_kind(self.toks(), self.idx() + 1)
            }),
    {
        let n = self.tokens.len();
        if self.token_index >= n {
            return LuaTokenKind::TkEof;
        }
        let mut next = self.token_index + 1;
        while next < n && is_trivia_kind(self.tokens[next].kind)
            invariant
                self.idx() + 1 <= next <= n,
                n == self.tokens@.len(),
                next_non_trivia_kind(self.toks(), self.idx() + 1) == next_non_trivia_kind(self.toks(), next as int),
            decreases n - next,
        {
            next += 1;
        }
        if next < n {
            self.tokens[next].kind
        } else {
            LuaTokenKind::TkEof
        }
    }

    /// Gives the current token another kind (a name read as a keyword).
    pub fn set_current_token_kind(&mut self, kind: LuaTokenKind)
        requires
            old(self).inv(),
            !is_comment_kind(kind),
            !is_comment_kind(old(self).cur_kind()),
            kind != LuaTokenKind::TkEof,
        ensures
            final(self).step_from(old(self)),
            final(self).idx() == old(self).idx(),
            final(self).level() == old(self).level(),
            final(self).evs() == old(self).evs(),
            final(self).errs() == old(self).errs(),
            old(self).idx() < old(self).toks().len() ==> final(self).cur_kind() == kind,
            old(self).idx() == old(self).toks().len() ==> *final(self) == *old(self),
    {
        proof { lemma_evs_kept_refl(self.evs()); }
        if self.token_index < self.tokens.len() {
            let i = self.token_index;
            let t = self.tokens[i];
            self.tokens.set(i, LuaTokenData { kind, range: t.range });
            self.current_token = kind;
            proof {
                assert forall|j: int| 0 <= j < self.toks().len() implies #[trigger] self.toks()[j].range
                    == old(self).toks()[j].range by {
                    if j != i {
                        assert(self.toks()[j] == old(self).toks()[j]);
                    }
                }
                assert forall|a: int| 0 <= a < self.toks().len() implies {
                    &&& (#[trigger] self.toks()[a]).range.length > 0
                    &&& crate::lexer::lua_doc_lexer::is_char_range(self.text(), self.toks()[a].range)
                    &&& crate::parser::lua_doc_parser::not_nul_at(self.text(), self.toks()[a].range.start_offset as int)
                } by {
                    assert(self.toks()[a].range == old(self).toks()[a].range);
                }
                assert forall|a: int, b: int| 0 <= a < b < self.toks().len() implies #[trigger] self.toks()[a].range.end()
                    <= #[trigger] self.toks()[b].range.start_offset by {
                    assert(self.toks()[a].range == old(self).toks()[a].range);
                    assert(self.toks()[b].range == old(self).toks()[b].range);
                }
                assert(self.toks().take(i as int) =~= old(self).toks().take(i as int));
                assert forall|j: int| 0 <= j < self.toks().len() implies is_comment_kind(#[trigger] self.toks()[j].kind)
                    == is_comment_kind(old(self).toks()[j].kind) by {
                    if j != i {
                        assert(self.toks()[j] == old(self).toks()[j]);
                    }
                }
                if no_comment_in(self.toks(), 0, self.toks().len() as int) {
                    assert forall|k: int| 0 <= k < old(self).toks().len() implies !is_comment_kind(
                        #[trigger] old(self).toks()[k].kind,
                    ) by {
                        if k != i {
                            assert(self.toks()[k] == old(self).toks()[k]);
                        }
                    }
                }
            }
        }
    }

    pub fn get_mark_level(&self) -> (l: usize)
        ensures
            l == self.level(),
    {
        self.mark_level
    }

    /// The config the text is parsed with.
    pub fn parse_config(&self) -> (c: &ParserConfig)
        ensures
            *c == self.config(),
    {
        &self.parse_config
    }

    /// Records a parse error.
    pub fn push_error(&mut self, error: LuaParseError)
        requires
            old(self).inv(),
        ensures
            final(self).step_from(old(self)),
            final(self).errs() == old(self).errs().push(error),
            final(self).evs() == old(self).evs(),
            final(self).idx() == old(self).idx(),
            final(self).cur_kind() == old(self).cur_kind(),
            final(self).toks() == old(self).toks(),
            final(self).level() == old(self).level(),
    {
        proof { lemma_evs_kept_refl(self.evs()); }
        self.errors.push(error);
    }

    /// Opens a node of kind `kind` at the current position.
    pub fn mark(&mut self, kind: LuaSyntaxKind) -> (m: Marker)
        requires
            old(self).inv(),
        ensures
            final(self).step_from(old(self)),
            m.position == old(self).evs().len(),
            final(self).evs() == old(self).evs().push(MarkEvent::NodeStart { kind, parent: 0 }),
            final(self).valid_start(m.position as int),
            final(self).level() == old(self).level() + 1,
            final(self).errs() == old(self).errs(),
            final(self).idx() == old(self).idx(),
            final(self).cur_kind() == old(self).cur_kind(),
            final(self).toks() == old(self).toks(),
    {
        let position = self.events.len();
        let e = MarkEvent::NodeStart { kind, parent: 0 };
        proof {
            lemma_events_wf_push(self.events@, e);
            lemma_evs_kept_pushed(self.events@, e);
        }
        proof { lemma_leaves_push(self.events@, e); }
        self.events.push(e);
        let _n = self.events.len();
        self.mark_level = self.mark_level + 1;
        Marker::new(position)
    }

    /// Records the end of the innermost open node.
    pub fn push_node_end(&mut self)
        requires
            old(self).inv(),
            old(self).level() >= 1,
        ensures
            final(self).step_from(old(self)),
            final(self).evs() == old(self).evs().push(MarkEvent::NodeEnd),
            final(self).level() == old(self).level() - 1,
            final(self).errs() == old(self).errs(),
            final(self).idx() == old(self).idx(),
            final(self).cur_kind() == old(self).cur_kind(),
            final(self).toks() == old(self).toks(),
    {
        proof {
            lemma_events_wf_push(self.events@, MarkEvent::NodeEnd);
            lemma_evs_kept_pushed(self.events@, MarkEvent::NodeEnd);
            lemma_leaves_push(self.events@, MarkEvent::NodeEnd);
        }
        self.events.push(MarkEvent::NodeEnd);
        self.mark_level = self.mark_level - 1;
    }

    /// Closes the node of `m`: records its end.
    pub fn complete(&mut self, m: Marker) -> (cm: CompleteMarker)
        requires
            old(self).inv(),
            old(self).level() >= 1,
            old(self).valid_start(m.position as int),
        ensures
            final(self).step_from(old(self)),
            final(self).evs() == old(self).evs().push(MarkEvent::NodeEnd),
            final(self).level() == old(self).level() - 1,
            final(self).errs() == old(self).errs(),
            final(self).idx() == old(self).idx(),
            final(self).cur_kind() == old(self).cur_kind(),
            final(self).toks() == old(self).toks(),
            cm.start == m.position,
            cm.finish == old(self).evs().len(),
            cm.kind == start_kind(old(self).evs()[m.position as int]),
            final(self).valid_start(cm.start as int),
            final(self).opened(cm.start as int, cm.kind),
    {
        let finish = self.events.len();
        let kind = match self.events[m.position] {
            MarkEvent::NodeStart { kind, parent: _ } => kind,
            _ => LuaSyntaxKind::NoneKind,
        };
        self.push_node_end();
        CompleteMarker { start: m.position, finish, kind }
    }

    /// Drops the node of `m`: its start no longer opens anything.
    pub fn undo(&mut self, m: Marker) -> (cm: CompleteMarker)
        requires
            old(self).inv(),
            old(self).level() >= 1,
            old(self).valid_start(m.position as int),
        ensures
            final(self).retyped_from(old(self), m.position as int),
            final(self).valid_start(m.position as int),
            forall|a: LuaParser| lua_kept(a, *old(self)) && a.evs().len() <= m.position ==> #[trigger] lua_kept(
                a,
                *final(self),
            ),
            final(self).evs() == old(self).evs().update(
                m.position as int,
                MarkEvent::NodeStart { kind: LuaSyntaxKind::NoneKind, parent: 0 },
            ),
            final(self).level() == old(self).level() - 1,
            final(self).errs() == old(self).errs(),
            final(self).idx() == old(self).idx(),
            final(self).cur_kind() == old(self).cur_kind(),
            final(self).toks() == old(self).toks(),
            cm.kind == LuaSyntaxKind::NoneKind,
    {
        self.mark_level = self.mark_level - 1;
        proof {
            lemma_events_wf_set_start(self.events@, m.position as int, LuaSyntaxKind::NoneKind, 0);
            lemma_leaves_update_start(self.events@, m.position as int, MarkEvent::NodeStart { kind: LuaSyntaxKind::NoneKind, parent: 0 });
        }
        self.events.set(m.position, MarkEvent::NodeStart { kind: LuaSyntaxKind::NoneKind, parent: 0 });
        proof { self.lemma_retyped_keeps(*old(self), m.position as int); }
        CompleteMarker::empty()
    }

    proof fn lemma_retyped_keeps(self, before: LuaParser, pos: int)
        requires
            evs_kept_retyped(before.evs(), self.evs(), pos),
            self.errs() == before.errs(),
        ensures
            forall|a: LuaParser| lua_kept(a, before) && a.evs().len() <= pos ==> #[trigger] lua_kept(a, self),
    {
        assert forall|a: LuaParser| lua_kept(a, before) && a.evs().len() <= pos implies #[trigger] lua_kept(
            a,
            self,
        ) by {
            lemma_evs_kept_retyped(a.evs(), before.evs(), self.evs(), pos);
        }
    }

    /// Gives the node of `m` another kind.
    pub fn set_kind(&mut self, m: &Marker, kind: LuaSyntaxKind)
        requires
            old(self).inv(),
            old(self).valid_start(m.position as int),
        ensures
            final(self).retyped_from(old(self), m.position as int),
            final(self).valid_start(m.position as int),
            forall|a: LuaParser| lua_kept(a, *old(self)) && a.evs().len() <= m.position ==> #[trigger] lua_kept(
                a,
                *final(self),
            ),
            final(self).evs() == old(self).evs().update(
                m.position as int,
                MarkEvent::NodeStart { kind, parent: start_parent(old(self).evs()[m.position as int]) },
            ),
            final(self).level() == old(self).level(),
            final(self).errs() == old(self).errs(),
            final(self).idx() == old(self).idx(),
            final(self).cur_kind() == old(self).cur_kind(),
            final(self).toks() == old(self).toks(),
    {
        let parent = match self.events[m.position] {
            MarkEvent::NodeStart { kind: _, parent } => parent,
            _ => 0,
        };
        proof {
            lemma_events_wf_set_start(self.events@, m.position as int, kind, parent);
            lemma_leaves_update_start(self.events@, m.position as int, MarkEvent::NodeStart { kind, parent });
        }
        self.events.set(m.position, MarkEvent::NodeStart { kind, parent });
        proof { self.lemma_retyped_keeps(*old(self), m.position as int); }
    }

    /// Opens a node of kind `kind` that will hold the finished node `cm`.
    pub fn precede(&mut self, cm: &CompleteMarker, kind: LuaSyntaxKind) -> (m: Marker)
        requires
            old(self).inv(),
            old(self).valid_start(cm.start as int),
        ensures
            final(self).step_from(old(self)),
            m.position == old(self).evs().len(),
            final(self).evs() == old(self).evs().push(MarkEvent::NodeStart { kind, parent: 0 }).update(
                cm.start as int,
                MarkEvent::NodeStart { kind: start_kind(old(self).evs()[cm.start as int]), parent: m.position },
            ),
            final(self).valid_start(m.position as int),
            final(self).level() == old(self).level() + 1,
            final(self).errs() == old(self).errs(),
            final(self).idx() == old(self).idx(),
            final(self).cur_kind() == old(self).cur_kind(),
            final(self).toks() == old(self).toks(),
    {
        let m = self.mark(kind);
        let k = match self.events[cm.start] {
            MarkEvent::NodeStart { kind, parent: _ } => kind,
            _ => LuaSyntaxKind::NoneKind,
        };
        let ghost mid = *self;
        proof {
            lemma_events_wf_set_start(self.events@, cm.start as int, k, m.position);
            lemma_leaves_update_start(self.events@, cm.start as int, MarkEvent::NodeStart { kind: k, parent: m.position });
        }
        self.events.set(cm.start, MarkEvent::NodeStart { kind: k, parent: m.position });
        proof { lemma_evs_kept_trans(old(self).evs(), mid.evs(), self.evs()); }
        m
    }

    /// Parses `text` with `config` into a syntax tree: a `Chunk` node that
    /// holds the tokens of the text, with the errors found.  Each token of
    /// the tree holds the text of its range.
    pub fn parse(text: &'a str, config: ParserConfig) -> (t: LuaSyntaxTree)
        ensures
            t.rooted_at_chunk(),
            tree_tokens_hold_text(t, text@),
            text_free_of_comments(text@, config.spec_lexer_config()) ==> leaf_ranges(tree_leaves(t))
                == text_token_ranges(text@, config.spec_lexer_config()),
            free_of_nul(text@) ==> ranges_chain(leaf_ranges(tree_leaves(t)), 0, byte_len(text@) as int),
    {
        let reader = Reader::new(text);
        let cfg = config.lexer_config();
        let mut errors: Vec<LuaParseError> = Vec::new();
        let mut lexer = LuaLexer::new(reader, cfg, Some(&mut errors));
        let tokens = lexer.tokenize();
        let ghost toks0 = tokens@;
        proof {
            lemma_lua_tokens_wf(reader, cfg, tokens@);
        }
        let chars = crate::text::strings::str_to_chars(text);
        let _n = text.as_bytes().len();
        proof {
            crate::text::char_width::lemma_byte_len_encode(text@);
        }
        let current_token = if tokens.len() > 0 {
            tokens[0].kind
        } else {
            LuaTokenKind::TkEof
        };
        let mut parser = LuaParser {
            text,
            chars,
            tokens,
            token_index: 0,
            current_token,
            events: Vec::new(),
            errors,
            mark_level: 0,
            parse_config: config,
        };
        let ghost p0 = parser;
        proof {
            lemma_spec_tokens_not_eof(text@, 0, cfg);
            assert(p0.evs() =~= Seq::<MarkEvent>::empty());
            assert(p0.toks().take(0) =~= Seq::<LuaTokenData>::empty());
            assert(token_leaves(p0.toks().take(0)) =~= Seq::<(LuaTokenKind, SourceRange)>::empty());
            assert(event_leaves(p0.evs()) =~= Seq::<(LuaTokenKind, SourceRange)>::empty());
            assert(leaves_follow_tokens(p0));
        }
        proof {
            if free_of_nul(text@) {
                let spec = spec_tokens(text@, 0, cfg);
                assert forall|k: int| 0 <= k < p0.toks().len() implies #[trigger] p0.toks()[k].range == token_range(
                    reader,
                    spec[k].1,
                    spec[k].2,
                ) by {
                    assert(p0.toks()[k] == toks0[k]);
                    assert(toks0[k].kind == spec[k].0);
                    assert(toks0[k].range == token_range(reader, spec[k].1, spec[k].2));
                }
                lemma_lexed_tokens_cover(text@, reader, cfg, p0.toks());
                assert(leaves_reach(p0.evs(), start_at(p0.toks(), p0.text(), 0)));
            }
        }
        crate::grammar::lua::parse_chunk(&mut parser);
        let ghost p1 = parser;
        let mut builder = LuaTreeBuilder::new(parser.chars, parser.events);
        builder.build();
        let t = builder.finish(parser.errors);
        proof {
            let spec = spec_tokens(text@, 0, cfg);
            assert(element_leaves(Seq::<LuaSyntaxElementData>::empty()) =~= Seq::<(LuaTokenKind, SourceRange)>::empty());
            assert(tree_leaves(t) =~= event_leaves(p1.evs()));
            if free_of_nul(text@) {
                assert(lua_lossless(p1));
                assert(p1.idx() == p1.toks().len());
            }
            if text_free_of_comments(text@, cfg) {
                assert(no_comment_in(p0.toks(), 0, p0.toks().len() as int));
                assert(no_comment_in(p1.toks(), 0, p1.toks().len() as int));
                assert(p1.idx() == p1.toks().len());
                assert(p1.toks().take(p1.idx() as int) =~= p1.toks());
                assert(element_leaves(Seq::<LuaSyntaxElementData>::empty()) =~= Seq::<(LuaTokenKind, SourceRange)>::empty());
                assert(tree_leaves(t) =~= event_leaves(p1.evs()));
                assert(leaf_ranges(tree_leaves(t)) =~= text_token_ranges(text@, cfg)) by {
                    assert forall|k: int| 0 <= k < spec.len() implies #[trigger] leaf_ranges(tree_leaves(t))[k]
                        == text_token_ranges(text@, cfg)[k] by {
                        assert(p1.toks()[k].range == p0.toks()[k].range);
                        assert(toks0[k].kind == spec[k].0);
                        assert(toks0[k].range == token_range(reader, spec[k].1, spec[k].2));
                        assert(p0.toks()[k] == toks0[k]);
                    }
                }
            }
        }
        t
    }

    /// Reads up to the first token of the grammar, recording the trivia
    /// before it.
    pub fn init(&mut self)
        requires
            old(self).inv(),
            old(self).idx() == 0,
        ensures
            final(self).step_from(old(self)),
            final(self).level() == old(self).level(),
            final(self).idx() < final(self).toks().len() ==> !spec_is_trivia_kind(final(self).cur_kind()),
    {
        self.advance_from(0);
        proof {
            if no_comment_in(self.toks(), 0, self.toks().len() as int) && leaves_follow_tokens(*old(self)) {
                let t = self.toks();
                lemma_leaves_eat_events(old(self).evs(), t.subrange(0, self.idx() as int));
                assert(t.take(self.idx() as int) =~= t.subrange(0, self.idx() as int));
                assert(t.take(0) =~= Seq::<LuaTokenData>::empty());
                assert(token_leaves(t.take(0)) =~= Seq::<(LuaTokenKind, SourceRange)>::empty());
                assert(event_leaves(old(self).evs()) + token_leaves(t.subrange(0, self.idx() as int)) =~= token_leaves(t.take(self.idx() as int)));
            }
        }
    }
}

} // verus!
