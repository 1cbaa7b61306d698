use vstd::prelude::*;

use crate::kind::lua_kind::LuaKind;
use crate::kind::lua_syntax_kind::LuaSyntaxKind;
use crate::kind::lua_token_kind::LuaTokenKind;
use crate::parser::marker::MarkEvent;
use crate::parser::parser_error::LuaParseError;
use crate::syntax::tree::green_builder::{LuaGreenNodeBuilder, same_content_at};
use crate::syntax::tree::syntax_tree::{LuaSyntaxElementData, LuaSyntaxTree};
use crate::text::char_width::{byte_len, chars_in_range, chars_within};
use crate::text::text_range::SourceRange;

verus! {

/// Whether every forward parent link of `events` points at a later node
/// start.
pub open spec fn events_wf(events: Seq<MarkEvent>) -> bool {
    forall|i: int|
        0 <= i < events.len() ==> match #[trigger] events[i] {
            MarkEvent::NodeStart { kind: _, parent } => parent == 0 || (i < parent < events.len()
                && events[parent as int] is NodeStart),
            _ => true,
        }
}

proof fn lemma_events_wf_set_none(events: Seq<MarkEvent>, i: int)
    requires
        events_wf(events),
        0 <= i < events.len(),
    ensures
        events_wf(events.update(i, MarkEvent::NodeStart { kind: LuaSyntaxKind::NoneKind, parent: 0 })),
{
    let u = events.update(i, MarkEvent::NodeStart { kind: LuaSyntaxKind::NoneKind, parent: 0 });
    assert forall|j: int| 0 <= j < u.len() implies match #[trigger] u[j] {
        MarkEvent::NodeStart { kind: _, parent } => parent == 0 || (j < parent < u.len()
            && u[parent as int] is NodeStart),
        _ => true,
    } by {
        if j != i {
            assert(u[j] == events[j]);
        }
    }
}

/// Every token element of `e` holds the chars of `s` within its range.
pub open spec fn tokens_hold_text(e: Seq<LuaSyntaxElementData>, s: Seq<char>) -> bool {
    forall|i: int|
        0 <= i < e.len() && (#[trigger] e[i]).kind is Token ==> e[i].text@ == chars_within(s, e[i].range, s.len() as int)
}

/// Every token of the tree `t` holds the chars of `s` within its range.
pub open spec fn tree_tokens_hold_text(t: LuaSyntaxTree, s: Seq<char>) -> bool {
    forall|i: int|
        0 <= i < t.spec_len() && (#[trigger] t.kind_of(i)) is Token ==> t.text_of(i) == chars_within(
            s,
            t.range_of(i),
            s.len() as int,
        )
}

/// The tokens that the events `evs` record, in order, by kind and range.
pub open spec fn event_leaves(evs: Seq<MarkEvent>) -> Seq<(LuaTokenKind, SourceRange)>
    decreases evs.len(),
{
    if evs.len() == 0 {
        Seq::empty()
    } else {
        let rest = event_leaves(evs.drop_last());
        match evs.last() {
            MarkEvent::EatToken { kind, range } => rest.push((kind, range)),
            _ => rest,
        }
    }
}

pub proof fn lemma_leaves_push(evs: Seq<MarkEvent>, e: MarkEvent)
    ensures
        event_leaves(evs.push(e)) == (match e {
            MarkEvent::EatToken { kind, range } => event_leaves(evs).push((kind, range)),
            _ => event_leaves(evs),
        }),
{
    assert(evs.push(e).drop_last() =~= evs);
}

pub proof fn lemma_leaves_update_start(evs: Seq<MarkEvent>, i: int, e: MarkEvent)
    requires
        0 <= i < evs.len(),
        evs[i] is NodeStart,
        e is NodeStart,
    ensures
        event_leaves(evs.update(i, e)) == event_leaves(evs),
    decreases evs.len(),
{
    let u = evs.update(i, e);
    if i == evs.len() - 1 {
        assert(u.drop_last() =~= evs.drop_last());
    } else {
        assert(u.drop_last() =~= evs.drop_last().update(i, e));
        lemma_leaves_update_start(evs.drop_last(), i, e);
    }
}

/// The ranges `rs` lie end to end from byte `a` to byte `b`.
pub open spec fn ranges_chain(rs: Seq<SourceRange>, a: int, b: int) -> bool {
    &&& rs.len() == 0 ==> a == b
    &&& rs.len() > 0 ==> rs[0].start_offset == a && rs[rs.len() - 1].end() == b
    &&& forall|k: int| 0 <= k < rs.len() - 1 ==> #[trigger] rs[k].end() == rs[k + 1].start_offset
}

/// The ranges of the leaves `l`, in order.
pub open spec fn leaf_ranges(l: Seq<(LuaTokenKind, SourceRange)>) -> Seq<SourceRange> {
    l.map_values(|x: (LuaTokenKind, SourceRange)| x.1)
}

/// The tokens that `evs` record lie end to end from byte 0 to byte `b`.
pub open spec fn leaves_reach(evs: Seq<MarkEvent>, b: int) -> bool {
    ranges_chain(leaf_ranges(event_leaves(evs)), 0, b)
}

/// Recording a token that starts where the recorded tokens end extends them
/// to its end; any other event leaves them as they are.
pub proof fn lemma_reach_push(evs: Seq<MarkEvent>, e: MarkEvent, b: int)
    requires
        leaves_reach(evs, b),
        e matches MarkEvent::EatToken { range, .. } ==> range.start_offset == b,
    ensures
        leaves_reach(
            evs.push(e),
            match e {
                MarkEvent::EatToken { range, .. } => range.end(),
                _ => b,
            },
        ),
{
    lemma_leaves_push(evs, e);
    let l = event_leaves(evs);
    if let MarkEvent::EatToken { kind, range } = e {
        let rs = leaf_ranges(l);
        let rs2 = leaf_ranges(l.push((kind, range)));
        assert(rs2 =~= rs.push(range));
        assert forall|k: int| 0 <= k < rs2.len() - 1 implies #[trigger] rs2[k].end() == rs2[k + 1].start_offset by {
            if k < rs.len() - 1 {
                assert(rs2[k] == rs[k] && rs2[k + 1] == rs[k + 1]);
            }
        }
    }
}

/// Retyping a node start keeps the recorded tokens.
pub proof fn lemma_reach_update_start(evs: Seq<MarkEvent>, i: int, e: MarkEvent, b: int)
    requires
        leaves_reach(evs, b),
        0 <= i < evs.len(),
        evs[i] is NodeStart,
        e is NodeStart,
    ensures
        leaves_reach(evs.update(i, e), b),
{
    lemma_leaves_update_start(evs, i, e);
}

/// The token elements of `e`, in order, by kind and range.
pub open spec fn element_leaves(e: Seq<LuaSyntaxElementData>) -> Seq<(LuaTokenKind, SourceRange)>
    decreases e.len(),
{
    if e.len() == 0 {
        Seq::empty()
    } else {
        let rest = element_leaves(e.drop_last());
        match e.last().kind {
            LuaKind::Token(k) => rest.push((k, e.last().range)),
            _ => rest,
        }
    }
}

proof fn lemma_event_leaves_step(evs: Seq<MarkEvent>, i: int)
    requires
        0 <= i < evs.len(),
    ensures
        event_leaves(evs.subrange(0, i + 1)) == match evs[i] {
            MarkEvent::EatToken { kind, range } => event_leaves(evs.subrange(0, i)).push((kind, range)),
            _ => event_leaves(evs.subrange(0, i)),
        },
{
    assert(evs.subrange(0, i + 1).drop_last() =~= evs.subrange(0, i));
}

/// Adding a node element, or nothing, keeps the token elements.
proof fn lemma_element_leaves_grown(a: Seq<LuaSyntaxElementData>, b: Seq<LuaSyntaxElementData>)
    requires
        a.len() <= b.len() <= a.len() + 1,
        forall|i: int| 0 <= i < a.len() ==> #[trigger] b[i] == a[i],
        b.len() == a.len() + 1 ==> b.last().kind is Syntax,
    ensures
        element_leaves(b) == element_leaves(a),
{
    if b.len() == a.len() {
        assert(b =~= a);
    } else {
        assert(b.drop_last() =~= a);
    }
}

/// The token elements among the first `n` elements of the tree `t`, in
/// order, by kind and range.
pub open spec fn tree_leaves_upto(t: LuaSyntaxTree, n: int) -> Seq<(LuaTokenKind, SourceRange)>
    decreases n,
{
    if n <= 0 {
        Seq::empty()
    } else {
        let rest = tree_leaves_upto(t, n - 1);
        match t.kind_of(n - 1) {
            LuaKind::Token(k) => rest.push((k, t.range_of(n - 1))),
            _ => rest,
        }
    }
}

/// The token elements of the tree `t`, in the order they were made (the
/// order of the text), by kind and range.
pub open spec fn tree_leaves(t: LuaSyntaxTree) -> Seq<(LuaTokenKind, SourceRange)> {
    tree_leaves_upto(t, t.spec_len())
}

proof fn lemma_tree_leaves_prefix(t: LuaSyntaxTree, e: Seq<LuaSyntaxElementData>, n: int)
    requires
        0 <= n <= e.len(),
        e.len() <= t.spec_len(),
        forall|i: int| 0 <= i < e.len() ==> same_content_at(t, i, #[trigger] e[i]),
    ensures
        tree_leaves_upto(t, n) == element_leaves(e.take(n)),
    decreases n,
{
    if n > 0 {
        lemma_tree_leaves_prefix(t, e, n - 1);
        assert(e.take(n).drop_last() =~= e.take(n - 1));
        assert(same_content_at(t, n - 1, e[n - 1]));
    } else {
        assert(e.take(0) =~= Seq::<LuaSyntaxElementData>::empty());
    }
}

proof fn lemma_tree_leaves_tail(t: LuaSyntaxTree, m: int, n: int)
    requires
        0 <= m <= n <= t.spec_len(),
        forall|i: int| m <= i < t.spec_len() ==> (#[trigger] t.kind_of(i)) is Syntax,
    ensures
        tree_leaves_upto(t, n) == tree_leaves_upto(t, m),
    decreases n,
{
    if n > m {
        lemma_tree_leaves_tail(t, m, n - 1);
        assert(t.kind_of(n - 1) is Syntax);
    }
}

/// Builds a syntax tree from the events of a parse of `text`.
#[derive(Debug)]
pub struct LuaTreeBuilder {
    text: Vec<char>,
    events: Vec<MarkEvent>,
    green_builder: LuaGreenNodeBuilder,
}

impl LuaTreeBuilder {
    pub open spec fn wf(&self) -> bool {
        &&& events_wf(self.spec_events())
        &&& byte_len(self.spec_text()) <= usize::MAX
        &&& self.spec_green().wf()
        &&& tokens_hold_text(self.spec_green().spec_elements(), self.spec_text())
    }

    pub closed spec fn spec_events(&self) -> Seq<MarkEvent> {
        self.events@
    }

    pub closed spec fn spec_text(&self) -> Seq<char> {
        self.text@
    }

    pub closed spec fn spec_green(&self) -> LuaGreenNodeBuilder {
        self.green_builder
    }

    pub fn new(text: Vec<char>, events: Vec<MarkEvent>) -> (b: LuaTreeBuilder)
        requires
            events_wf(events@),
            byte_len(text@) <= usize::MAX,
        ensures
            b.wf(),
            b.spec_events() == events@,
            b.spec_text() == text@,
            b.spec_green().spec_elements().len() == 0,
    {
        LuaTreeBuilder { text, events, green_builder: LuaGreenNodeBuilder::new() }
    }

    /// Replays the events: node starts (with the nodes that a start's forward
    /// parents open around it, outermost first), tokens and node ends, all
    /// inside one chunk node.
    pub fn build(&mut self)
        requires
            old(self).wf(),
        ensures
            final(self).wf(),
            final(self).spec_text() == old(self).spec_text(),
            final(self).spec_events().len() == old(self).spec_events().len(),
            forall|i: int| 0 <= i < final(self).spec_events().len() ==> #[trigger] final(self).spec_events()[i] == (MarkEvent::NodeStart { kind: LuaSyntaxKind::NoneKind, parent: 0 }),
            element_leaves(final(self).spec_green().spec_elements()) == element_leaves(
                old(self).spec_green().spec_elements(),
            ) + event_leaves(old(self).spec_events()),
    {
        self.green_builder.start_node(LuaSyntaxKind::Chunk);
        let n = self.events.len();
        let mut i: usize = 0;
        let ghost evs0 = old(self).spec_events();
        let ghost leaves0 = element_leaves(old(self).spec_green().spec_elements());
        proof {
            assert(evs0.subrange(0, 0) =~= Seq::<MarkEvent>::empty());
            assert(leaves0 + event_leaves(evs0.subrange(0, 0)) =~= leaves0);
        }
        while i < n
            invariant
                self.wf(),
                self.spec_text() == old(self).spec_text(),
                n == self.spec_events().len(),
                n == evs0.len(),
                i <= n,
                forall|j: int| 0 <= j < i ==> #[trigger] self.spec_events()[j] == (MarkEvent::NodeStart { kind: LuaSyntaxKind::NoneKind, parent: 0 }),
                forall|j: int| i <= j < n && !(evs0[j] is NodeStart) ==> #[trigger] self.spec_events()[j] == evs0[j],
                forall|j: int| i <= j < n && evs0[j] is NodeStart ==> #[trigger] self.spec_events()[j] is NodeStart,
                element_leaves(self.spec_green().spec_elements()) == leaves0 + event_leaves(evs0.subrange(0, i as int)),
            decreases n - i,
        {
            let ghost e_i = self.spec_green().spec_elements();
            proof { lemma_event_leaves_step(evs0, i as int); }
            let ev = self.events[i];
            assert(ev == evs0[i as int] || (ev is NodeStart && evs0[i as int] is NodeStart));
            proof { lemma_events_wf_set_none(self.events@, i as int); }
            self.events.set(i, MarkEvent::none());
            match ev {
                MarkEvent::NodeStart { kind, parent } => {
                    if kind != LuaSyntaxKind::NoneKind {
                        let mut kinds: Vec<LuaSyntaxKind> = Vec::new();
                        kinds.push(kind);
                        let mut pos = parent;
                        while pos > 0
                            invariant
                                self.wf(),
                                self.spec_text() == old(self).spec_text(),
                                n == self.spec_events().len(),
                                i < n,
                                forall|j: int| 0 <= j <= i ==> #[trigger] self.spec_events()[j] == (MarkEvent::NodeStart { kind: LuaSyntaxKind::NoneKind, parent: 0 }),
                                pos == 0 || (i < pos < n && self.spec_events()[pos as int] is NodeStart),
                                n == evs0.len(),
                                forall|j: int| i < j < n && !(evs0[j] is NodeStart) ==> #[trigger] self.spec_events()[j] == evs0[j],
                                forall|j: int| i < j < n && evs0[j] is NodeStart ==> #[trigger] self.spec_events()[j] is NodeStart,
                                self.spec_green().spec_elements() == e_i,
                            decreases (if pos == 0 { 0 } else { n + 1 - pos }),
                        {
                            let pe = self.events[pos];
                            let ghost before = self.events@;
                            assert(before[pos as int] == pe);
                            proof { lemma_events_wf_set_none(self.events@, pos as int); }
                            self.events.set(pos, MarkEvent::none());
                            match pe {
                                MarkEvent::NodeStart { kind: pk, parent: pp } => {
                                    assert(pp == 0 || (pos < pp < n && before[pp as int] is NodeStart));
                                    assert(pp != 0 ==> self.spec_events()[pp as int] == before[pp as int]);
                                    kinds.push(pk);
                                    pos = pp;
                                },
                                _ => {
                                    assert(false);
                                    pos = 0;
                                },
                            }
                        }
                        let mut j = kinds.len();
                        while j > 0
                            invariant
                                self.wf(),
                                self.spec_text() == old(self).spec_text(),
                                n == self.spec_events().len(),
                                j <= kinds@.len(),
                                i < n,
                                forall|j2: int| 0 <= j2 <= i ==> #[trigger] self.spec_events()[j2] == (MarkEvent::NodeStart { kind: LuaSyntaxKind::NoneKind, parent: 0 }),
                                n == evs0.len(),
                                forall|j2: int| i < j2 < n && !(evs0[j2] is NodeStart) ==> #[trigger] self.spec_events()[j2] == evs0[j2],
                                forall|j2: int| i < j2 < n && evs0[j2] is NodeStart ==> #[trigger] self.spec_events()[j2] is NodeStart,
                                self.spec_green().spec_elements() == e_i,
                            decreases j,
                        {
                            self.green_builder.start_node(kinds[j - 1]);
                            j -= 1;
                        }
                    }
                },
                MarkEvent::NodeEnd => {
                    self.green_builder.finish_node();
                    proof { lemma_element_leaves_grown(e_i, self.spec_green().spec_elements()); }
                },
                MarkEvent::EatToken { kind, range } => {
                    self.token(kind, range);
                    proof {
                        let e = self.spec_green().spec_elements();
                        assert(e.drop_last() == e_i);
                    }
                },
                MarkEvent::Trivia => {},
            }
            proof {
                if let MarkEvent::EatToken { kind, range } = ev {
                    assert(element_leaves(self.spec_green().spec_elements()) == element_leaves(e_i).push(
                        (kind, range),
                    ));
                } else {
                    assert(element_leaves(self.spec_green().spec_elements()) == element_leaves(e_i));
                }
                assert(element_leaves(self.spec_green().spec_elements()) =~= leaves0 + event_leaves(
                    evs0.subrange(0, i + 1),
                ));
            }
            i += 1;
        }
        let ghost e_n = self.spec_green().spec_elements();
        self.green_builder.finish_node();
        proof {
            lemma_element_leaves_grown(e_n, self.spec_green().spec_elements());
            assert(evs0.subrange(0, n as int) =~= evs0);
        }
    }

    fn token(&mut self, kind: LuaTokenKind, range: SourceRange)
        requires
            old(self).wf(),
        ensures
            final(self).wf(),
            final(self).spec_events() == old(self).spec_events(),
            final(self).spec_text() == old(self).spec_text(),
            final(self).spec_green().spec_elements().drop_last() == old(self).spec_green().spec_elements(),
            final(self).spec_green().spec_elements().len() == old(self).spec_green().spec_elements().len() + 1,
            final(self).spec_green().spec_elements().last().kind == crate::kind::lua_kind::LuaKind::Token(kind),
            final(self).spec_green().spec_elements().last().range == range,
            final(self).spec_green().spec_elements().last().text@ == chars_within(
                old(self).spec_text(),
                range,
                old(self).spec_text().len() as int,
            ),
    {
        let text = chars_in_range(&self.text, range);
        let ghost before = self.green_builder.spec_elements();
        self.green_builder.token(kind, range, text);
        proof {
            let e = self.green_builder.spec_elements();
            assert forall|i: int| 0 <= i < e.len() && (#[trigger] e[i]).kind is Token implies e[i].text@ == chars_within(
                self.text@,
                e[i].range,
                self.text@.len() as int,
            ) by {
                if i < before.len() {
                    assert(e.drop_last()[i] == before[i]);
                }
            }
        }
    }

    /// The tree, with the given errors.
    pub fn finish(self, errors: Vec<LuaParseError>) -> (t: LuaSyntaxTree)
        requires
            self.wf(),
        ensures
            t.rooted_at_chunk(),
            tree_tokens_hold_text(t, self.spec_text()),
            tree_leaves(t) == element_leaves(self.spec_green().spec_elements()),
    {
        let ghost e = self.green_builder.spec_elements();
        let t = self.green_builder.finish(errors);
        proof {
            lemma_tree_leaves_prefix(t, e, e.len() as int);
            assert(e.take(e.len() as int) =~= e);
            lemma_tree_leaves_tail(t, e.len() as int, t.spec_len());
        }
        assert forall|i: int| 0 <= i < t.spec_len() && (#[trigger] t.kind_of(i)) is Token implies t.text_of(i)
            == chars_within(self.text@, t.range_of(i), self.text@.len() as int) by {
            if i < e.len() {
                assert(crate::syntax::tree::green_builder::same_content_at(t, i, e[i]));
            }
        }
        t
    }
}

} // verus!
