use vstd::prelude::*;

use crate::kind::lua_kind::LuaKind;
use crate::kind::lua_syntax_kind::LuaSyntaxKind;
use crate::kind::lua_token_kind::LuaTokenKind;
use crate::parser::parser_error::LuaParseError;
use crate::syntax::tree::syntax_tree::{LuaSyntaxElementData, LuaSyntaxTree, elements_wf};
use crate::text::text_range::SourceRange;

verus! {

/// Builds the elements of a tree bottom-up: tokens and finished nodes wait on
/// a stack of children until the node that holds them is finished.
#[derive(Debug)]
pub struct LuaGreenNodeBuilder {
    parents: Vec<(LuaSyntaxKind, usize)>,
    children: Vec<usize>,
    elements: Vec<LuaSyntaxElementData>,
}

/// Every entry of `s` is below `b`.
pub open spec fn all_below(s: Seq<usize>, b: int) -> bool {
    forall|j: int| 0 <= j < s.len() ==> #[trigger] s[j] < b
}

proof fn lemma_all_below_mono(s: Seq<usize>, b: int, c: int)
    requires
        all_below(s, b),
        b <= c,
    ensures
        all_below(s, c),
{
}

proof fn lemma_all_below_push(s: Seq<usize>, x: usize, b: int)
    requires
        all_below(s, b),
        x < b,
    ensures
        all_below(s.push(x), b),
{
    assert forall|j: int| 0 <= j < s.push(x).len() implies #[trigger] s.push(x)[j] < b by {
        if j < s.len() {
            assert(s.push(x)[j] == s[j]);
        }
    }
}

/// Whether element `pos` of `elements` is trivia between syntax: a blank, a
/// line end, a comment continuation, or a comment or description node.
pub open spec fn spec_is_trivia(elements: Seq<LuaSyntaxElementData>, pos: int) -> bool {
    0 <= pos < elements.len() && match elements[pos].kind {
        LuaKind::Token(k) => k == LuaTokenKind::TkWhitespace || k == LuaTokenKind::TkEndOfLine || k
            == LuaTokenKind::TkDocContinue,
        LuaKind::Syntax(k) => k == LuaSyntaxKind::Comment || k == LuaSyntaxKind::DocDescription,
    }
}

/// Whether element `pos` of `elements` is a blank or a line end.
pub open spec fn spec_is_trivia_whitespace(elements: Seq<LuaSyntaxElementData>, pos: int) -> bool {
    0 <= pos < elements.len() && match elements[pos].kind {
        LuaKind::Token(k) => k == LuaTokenKind::TkWhitespace || k == LuaTokenKind::TkEndOfLine,
        LuaKind::Syntax(_) => false,
    }
}

/// Whether stack entry `pos` points at trivia: blanks and line ends only
/// when `ws_only`, else any trivia.
pub open spec fn trivia_entry(elements: Seq<LuaSyntaxElementData>, pos: int, ws_only: bool) -> bool {
    if ws_only {
        spec_is_trivia_whitespace(elements, pos)
    } else {
        spec_is_trivia(elements, pos)
    }
}

/// The first stack position at or after `i` that is not trivia.
pub open spec fn skip_trivia_forward(e: Seq<LuaSyntaxElementData>, st: Seq<usize>, i: int, ws_only: bool) -> int
    decreases st.len() - i,
{
    if 0 <= i < st.len() && trivia_entry(e, st[i] as int, ws_only) {
        skip_trivia_forward(e, st, i + 1, ws_only)
    } else {
        i
    }
}

/// The last stack position at or before `j`, and above `lo`, that is not
/// trivia (`lo` itself when all of them are).
pub open spec fn skip_trivia_backward(
    e: Seq<LuaSyntaxElementData>,
    st: Seq<usize>,
    j: int,
    lo: int,
    ws_only: bool,
) -> int
    decreases j - lo,
{
    if j > lo && 0 <= j < st.len() && trivia_entry(e, st[j] as int, ws_only) {
        skip_trivia_backward(e, st, j - 1, lo, ws_only)
    } else {
        j
    }
}

/// The start of the run of trivia entries that ends at stack position `i`.
pub open spec fn trivia_run_before(e: Seq<LuaSyntaxElementData>, st: Seq<usize>, i: int) -> int
    decreases i,
{
    if 0 < i <= st.len() && spec_is_trivia(e, st[i - 1] as int) {
        trivia_run_before(e, st, i - 1)
    } else {
        i
    }
}

/// The stack entries that become the children of a node of kind `kind`
/// opened when the stack had `first` entries: a block or chunk takes all
/// entries since then and the trivia just before them; a comment or a
/// multi-line union takes them without leading and trailing blanks and line
/// ends; any other node takes them without leading and trailing trivia.
pub open spec fn spec_node_children(
    e: Seq<LuaSyntaxElementData>,
    st: Seq<usize>,
    kind: LuaSyntaxKind,
    first: int,
) -> Seq<usize> {
    let f = if first <= st.len() {
        first
    } else {
        st.len() as int
    };
    if kind == LuaSyntaxKind::Block || kind == LuaSyntaxKind::Chunk {
        st.subrange(trivia_run_before(e, st, f), st.len() as int)
    } else {
        let ws = kind == LuaSyntaxKind::Comment || kind == LuaSyntaxKind::TypeMultiLineUnion;
        let a = skip_trivia_forward(e, st, f, ws);
        let b = skip_trivia_backward(e, st, st.len() - 1, a, ws);
        if a <= b {
            st.subrange(a, b + 1)
        } else {
            Seq::empty()
        }
    }
}

impl LuaGreenNodeBuilder {
    /// Elements before their parents, tokens without children, stack entries
    /// that point at elements, and no parent links yet.
    pub open spec fn wf(&self) -> bool {
        let e = self.spec_elements();
        &&& all_below(self.spec_children(), e.len() as int)
        &&& forall|i: int, k: int|
            0 <= i < e.len() && 0 <= k < e[i].children@.len() ==> #[trigger] e[i].children@[k] < i
        &&& forall|i: int| 0 <= i < e.len() && (#[trigger] e[i].kind) is Token ==> e[i].children@.len() == 0
        &&& forall|i: int| 0 <= i < e.len() ==> (#[trigger] e[i].parent) is None
    }

    pub closed spec fn spec_elements(&self) -> Seq<LuaSyntaxElementData> {
        self.elements@
    }

    pub closed spec fn spec_children(&self) -> Seq<usize> {
        self.children@
    }

    pub closed spec fn spec_parents(&self) -> Seq<(LuaSyntaxKind, usize)> {
        self.parents@
    }

    pub fn new() -> (b: LuaGreenNodeBuilder)
        ensures
            b.wf(),
            b.spec_elements().len() == 0,
            b.spec_children().len() == 0,
            b.spec_parents().len() == 0,
    {
        LuaGreenNodeBuilder { parents: Vec::new(), children: Vec::new(), elements: Vec::new() }
    }

    /// Adds a token with its text.
    pub fn token(&mut self, kind: LuaTokenKind, range: SourceRange, text: Vec<char>)
        requires
            old(self).wf(),
        ensures
            final(self).wf(),
            final(self).spec_parents() == old(self).spec_parents(),
            final(self).spec_elements().len() == old(self).spec_elements().len() + 1,
            final(self).spec_elements().drop_last() == old(self).spec_elements(),
            final(self).spec_elements().last().kind == LuaKind::Token(kind),
            final(self).spec_elements().last().range == range,
            final(self).spec_elements().last().text@ == text@,
            final(self).spec_children() == old(self).spec_children().push(
                old(self).spec_elements().len() as usize,
            ),
    {
        let len = self.elements.len();
        let ghost old_e = self.elements@;
        self.elements.push(
            LuaSyntaxElementData { kind: LuaKind::Token(kind), range, text, children: Vec::new(), parent: None },
        );
        self.children.push(len);
        proof {
            let e = self.elements@;
            assert forall|i: int, k: int|
                0 <= i < e.len() && 0 <= k < e[i].children@.len() implies #[trigger] e[i].children@[k] < i by {
                if i < len {
                    assert(e[i] == old_e[i]);
                }
            }
            assert(self.spec_elements().drop_last() =~= old(self).spec_elements());
            lemma_all_below_mono(old(self).spec_children(), old_e.len() as int, e.len() as int);
            lemma_all_below_push(old(self).spec_children(), len as usize, e.len() as int);
        }
    }

    /// Opens a node of kind `kind` over the children that follow.
    pub fn start_node(&mut self, kind: LuaSyntaxKind)
        requires
            old(self).wf(),
        ensures
            final(self).wf(),
            final(self).spec_elements() == old(self).spec_elements(),
            final(self).spec_children() == old(self).spec_children(),
            final(self).spec_parents() == old(self).spec_parents().push(
                (kind, old(self).spec_children().len() as usize),
            ),
    {
        let len = self.children.len();
        self.parents.push((kind, len));
    }

    fn is_trivia(&self, pos: usize) -> (b: bool)
        ensures
            b == spec_is_trivia(self.spec_elements(), pos as int),
    {
        if pos < self.elements.len() {
            match self.elements[pos].kind {
                LuaKind::Token(k) => matches!(
                    k,
                    LuaTokenKind::TkWhitespace | LuaTokenKind::TkEndOfLine | LuaTokenKind::TkDocContinue
                ),
                LuaKind::Syntax(k) => matches!(k, LuaSyntaxKind::Comment | LuaSyntaxKind::DocDescription),
            }
        } else {
            false
        }
    }

    pub fn is_trivia_whitespace(&self, pos: usize) -> (b: bool)
        ensures
            b == spec_is_trivia_whitespace(self.spec_elements(), pos as int),
    {
        if pos < self.elements.len() {
            match self.elements[pos].kind {
                LuaKind::Token(k) => matches!(k, LuaTokenKind::TkWhitespace | LuaTokenKind::TkEndOfLine),
                LuaKind::Syntax(_) => false,
            }
        } else {
            false
        }
    }

    /// Closes the innermost open node: its children are those added since it
    /// was opened, without leading and trailing trivia (a block or chunk also
    /// takes the trivia just before it; a comment or multi-line union drops
    /// only blanks and line ends).  A node left without children gets an
    /// empty range where it stands.
    #[verifier::rlimit(50)]
    #[verifier::spinoff_prover]
    pub fn finish_node(&mut self)
        requires
            old(self).wf(),
        ensures
            final(self).wf(),
            old(self).spec_parents().len() == 0 || old(self).spec_children().len() == 0 ==> {
                &&& final(self).spec_parents() == old(self).spec_parents()
                &&& final(self).spec_elements() == old(self).spec_elements()
                &&& final(self).spec_children() == old(self).spec_children()
            },
            old(self).spec_parents().len() > 0 && old(self).spec_children().len() > 0 ==> {
                &&& final(self).spec_parents() == old(self).spec_parents().drop_last()
                &&& final(self).spec_elements().len() == old(self).spec_elements().len() + 1
                &&& final(self).spec_elements().last().kind == LuaKind::Syntax(old(self).spec_parents().last().0)
                &&& final(self).spec_children().contains(old(self).spec_elements().len() as usize)
                &&& final(self).spec_elements().last().children@ == spec_node_children(
                    old(self).spec_elements(),
                    old(self).spec_children(),
                    old(self).spec_parents().last().0,
                    old(self).spec_parents().last().1 as int,
                )
            },
            final(self).spec_elements().len() >= old(self).spec_elements().len(),
            forall|i: int| 0 <= i < old(self).spec_elements().len()
                ==> #[trigger] final(self).spec_elements()[i] == old(self).spec_elements()[i],
            forall|i: int| old(self).spec_elements().len() <= i < final(self).spec_elements().len()
                ==> (#[trigger] final(self).spec_elements()[i]).kind is Syntax,
    {
        if self.parents.len() == 0 || self.children.len() == 0 {
            return;
        }
        let (parent_kind, first) = self.parents.pop().unwrap();
        let child_count = self.children.len();
        let mut first_start = if first <= child_count {
            first
        } else {
            child_count
        };
        let mut child_start = first_start;
        let mut child_end = child_count - 1;
        let ghost e0 = self.spec_elements();
        let ghost st0 = self.spec_children();
        let ghost f0 = first_start as int;
        let node_children: Vec<usize>;
        if parent_kind == LuaSyntaxKind::Block || parent_kind == LuaSyntaxKind::Chunk {
            while child_start > 0 && self.is_trivia(self.children[child_start - 1])
                invariant
                    self.wf(),
                    self.spec_elements() == old(self).spec_elements(),
                    child_start <= first_start <= child_count == self.children@.len(),
                    self.spec_children() == st0,
                    self.spec_elements() == e0,
                    first_start == f0,
                    trivia_run_before(e0, st0, child_start as int) == trivia_run_before(e0, st0, f0),
                decreases child_start,
            {
                child_start -= 1;
            }
            if child_start < first_start {
                first_start = child_start;
            }
            node_children = self.children.split_off(first_start);
            assert(node_children@ =~= spec_node_children(e0, st0, parent_kind, first as int));
        } else if parent_kind == LuaSyntaxKind::Comment || parent_kind == LuaSyntaxKind::TypeMultiLineUnion {
            while child_start < child_count && self.is_trivia_whitespace(self.children[child_start])
                invariant
                    self.wf(),
                    self.spec_elements() == old(self).spec_elements(),
                    first_start <= child_start <= child_count == self.children@.len(),
                    self.spec_children() == st0,
                    self.spec_elements() == e0,
                    first_start == f0,
                    skip_trivia_forward(e0, st0, child_start as int, true) == skip_trivia_forward(e0, st0, f0, true),
                decreases child_count - child_start,
            {
                child_start += 1;
            }
            while child_end > child_start && self.is_trivia_whitespace(self.children[child_end])
                invariant
                    self.wf(),
                    self.spec_elements() == old(self).spec_elements(),
                    child_end < child_count == self.children@.len(),
                    self.spec_children() == st0,
                    self.spec_elements() == e0,
                    child_start == skip_trivia_forward(e0, st0, f0, true),
                    skip_trivia_backward(e0, st0, child_end as int, child_start as int, true)
                        == skip_trivia_backward(e0, st0, child_count - 1, child_start as int, true),
                decreases child_end,
            {
                child_end -= 1;
            }
            node_children = self.take_children(child_start, child_end);
            assert(node_children@ =~= spec_node_children(e0, st0, parent_kind, first as int));
        } else {
            while child_start < child_count && self.is_trivia(self.children[child_start])
                invariant
                    self.wf(),
                    self.spec_elements() == old(self).spec_elements(),
                    first_start <= child_start <= child_count == self.children@.len(),
                    self.spec_children() == st0,
                    self.spec_elements() == e0,
                    first_start == f0,
                    skip_trivia_forward(e0, st0, child_start as int, false) == skip_trivia_forward(e0, st0, f0, false),
                decreases child_count - child_start,
            {
                child_start += 1;
            }
            while child_end > child_start && self.is_trivia(self.children[child_end])
                invariant
                    self.wf(),
                    self.spec_elements() == old(self).spec_elements(),
                    child_end < child_count == self.children@.len(),
                    self.spec_children() == st0,
                    self.spec_elements() == e0,
                    child_start == skip_trivia_forward(e0, st0, f0, false),
                    skip_trivia_backward(e0, st0, child_end as int, child_start as int, false)
                        == skip_trivia_backward(e0, st0, child_count - 1, child_start as int, false),
                decreases child_end,
            {
                child_end -= 1;
            }
            node_children = self.take_children(child_start, child_end);
            assert(node_children@ =~= spec_node_children(e0, st0, parent_kind, first as int));
        }
        let pos = self.elements.len();
        // a node without children stands where it is put: after the last
        // element on the stack
        let range = if node_children.len() == 0 && self.children.len() > 0 {
            let last = self.children[self.children.len() - 1];
            let r = self.elements[last].range;
            SourceRange::new(r.start_offset.saturating_add(r.length), 0)
        } else {
            self.span_of(&node_children)
        };
        self.elements.push(
            LuaSyntaxElementData {
                kind: LuaKind::Syntax(parent_kind),
                range,
                text: Vec::new(),
                children: node_children,
                parent: None,
            },
        );
        let at = if child_start <= self.children.len() {
            child_start
        } else {
            self.children.len()
        };
        if child_end + 1 < child_count {
            self.children.insert(at, pos);
        } else {
            self.children.push(pos);
        }
        assert(self.children@.contains(pos as usize)) by {
            if child_end + 1 < child_count {
                assert(self.children@[at as int] == pos);
            } else {
                assert(self.children@[self.children@.len() - 1] == pos);
            }
        }
    }

    /// Removes the stack entries `start..=end` (none when `start > end`) and
    /// returns them.
    fn take_children(&mut self, start: usize, end: usize) -> (v: Vec<usize>)
        requires
            old(self).wf(),
            end < old(self).spec_children().len(),
        ensures
            final(self).wf(),
            final(self).spec_elements() == old(self).spec_elements(),
            final(self).spec_parents() == old(self).spec_parents(),
            forall|j: int| 0 <= j < v@.len() ==> #[trigger] v@[j] < old(self).spec_elements().len(),
            start <= end ==> v@ == old(self).spec_children().subrange(start as int, end + 1),
            start <= end ==> final(self).spec_children() == old(self).spec_children().subrange(0, start as int)
                + old(self).spec_children().subrange(end + 1, old(self).spec_children().len() as int),
            start > end ==> v@.len() == 0 && final(self).spec_children() == old(self).spec_children(),
    {
        if start > end {
            return Vec::new();
        }
        let n = self.children.len();
        let mut tail = self.children.split_off(start);
        let rest = tail.split_off(end - start + 1);
        assert(self.spec_children() =~= old(self).spec_children().subrange(0, start as int));
        assert(rest@ =~= old(self).spec_children().subrange(end + 1, old(self).spec_children().len() as int));
        assert(forall|j: int| 0 <= j < tail@.len() ==> #[trigger] tail@[j] == old(self).spec_children()[start + j]);
        assert(forall|j: int| 0 <= j < rest@.len() ==> #[trigger] rest@[j] == old(self).spec_children()[end + 1 + j]);
        let mut i: usize = 0;
        while i < rest.len()
            invariant
                self.wf(),
                self.spec_elements() == old(self).spec_elements(),
                self.spec_parents() == old(self).spec_parents(),
                forall|j: int| 0 <= j < rest@.len() ==> #[trigger] rest@[j] < old(self).spec_elements().len(),
                i <= rest@.len(),
                rest@ == old(self).spec_children().subrange(end + 1, old(self).spec_children().len() as int),
                self.spec_children() == old(self).spec_children().subrange(0, start as int) + rest@.subrange(0, i as int),
            decreases rest@.len() - i,
        {
            self.children.push(rest[i]);
            i += 1;
            assert(self.spec_children() =~= old(self).spec_children().subrange(0, start as int) + rest@.subrange(0, i as int));
        }
        assert(rest@.subrange(0, rest@.len() as int) =~= rest@);
        assert(tail@ =~= old(self).spec_children().subrange(start as int, end + 1));
        tail
    }

    /// The byte range from the first child's start to the last child's end.
    fn span_of(&self, children: &Vec<usize>) -> (r: SourceRange)
        requires
            forall|j: int| 0 <= j < children@.len() ==> #[trigger] children@[j] < self.spec_elements().len(),
        ensures
            children@.len() == 0 ==> r.start_offset == 0 && r.length == 0,
            children@.len() > 0 ==> {
                let first = self.spec_elements()[children@[0] as int].range;
                let last = self.spec_elements()[children@.last() as int].range;
                let end = crate::text::text_range::capped_end(last);
                &&& r.start_offset == first.start_offset
                &&& r.end() == if first.start_offset <= end { end } else { first.start_offset as int }
            },
    {
        if children.len() == 0 {
            return SourceRange::empty();
        }
        let first = self.elements[children[0]].range;
        let last = self.elements[children[children.len() - 1]].range;
        let end = if last.length <= usize::MAX - last.start_offset {
            last.start_offset + last.length
        } else {
            usize::MAX
        };
        if first.start_offset <= end {
            SourceRange::new(first.start_offset, end - first.start_offset)
        } else {
            SourceRange::new(first.start_offset, 0)
        }
    }

    /// The finished tree: the first element on the stack is the root, inside
    /// a chunk node unless it is one; with nothing on the stack, an empty chunk.
    pub fn finish(self, errors: Vec<LuaParseError>) -> (t: LuaSyntaxTree)
        requires
            self.wf(),
        ensures
            t.rooted_at_chunk(),
            t.spec_len() >= self.spec_elements().len(),
            forall|i: int|
                0 <= i < self.spec_elements().len() ==> same_content_at(t, i, #[trigger] self.spec_elements()[i]),
            forall|i: int| self.spec_elements().len() <= i < t.spec_len() ==> (#[trigger] t.kind_of(i)) is Syntax,
    {
        let mut b = self;
        let root: usize;
        if b.children.len() > 0 {
            let root_pos = b.children[0];
            assert(b.spec_children()[0] < b.spec_elements().len());
            if b.elements[root_pos].kind == LuaKind::Syntax(LuaSyntaxKind::Chunk) {
                root = root_pos;
            } else {
                let range = b.elements[root_pos].range;
                let pos = b.elements.len();
                b.elements.push(
                    LuaSyntaxElementData {
                        kind: LuaKind::Syntax(LuaSyntaxKind::Chunk),
                        range,
                        text: Vec::new(),
                        children: vec![root_pos],
                        parent: None,
                    },
                );
                root = pos;
            }
        } else {
            let pos = b.elements.len();
            b.elements.push(
                LuaSyntaxElementData {
                    kind: LuaKind::Syntax(LuaSyntaxKind::Chunk),
                    range: SourceRange::empty(),
                    text: Vec::new(),
                    children: Vec::new(),
                    parent: None,
                },
            );
            root = pos;
        }
        let ghost pushed = b.elements@;
        let elements = link_parents(b.elements, root);
        let t = LuaSyntaxTree::new(elements, root, errors);
        assert forall|i: int| 0 <= i < self.spec_elements().len() implies same_content_at(
            t,
            i,
            #[trigger] self.spec_elements()[i],
        ) by {
            assert(pushed[i] == self.spec_elements()[i]);
            assert(same_content(elements@[i], pushed[i]));
        }
        assert forall|i: int| self.spec_elements().len() <= i < t.spec_len() implies (#[trigger] t.kind_of(i)) is Syntax by {
            assert(same_content(elements@[i], pushed[i]));
        }
        t
    }
}

/// Records for each element its parent and its position among the parent's
/// children, and leaves the root without a parent.
fn link_parents(mut elements: Vec<LuaSyntaxElementData>, root: usize) -> (r: Vec<LuaSyntaxElementData>)
    requires
        root < elements@.len(),
        elements@[root as int].kind == LuaKind::Syntax(LuaSyntaxKind::Chunk),
        forall|i: int, k: int|
            0 <= i < elements@.len() && 0 <= k < elements@[i].children@.len() ==> #[trigger] elements@[i].children@[k] < i,
        forall|i: int| 0 <= i < elements@.len() && (#[trigger] elements@[i].kind) is Token ==> elements@[i].children@.len() == 0,
        forall|i: int| 0 <= i < elements@.len() ==> (#[trigger] elements@[i].parent) is None,
    ensures
        elements_wf(r@, root as int),
        r@.len() == elements@.len(),
        forall|a: int| 0 <= a < r@.len() ==> same_content(#[trigger] r@[a], elements@[a]),
        forall|a: int, k: int|
            0 <= a < elements@.len() && 0 <= k < elements@[a].children@.len() && elements@[a].children@[k] != root
                ==> (#[trigger] r@[elements@[a].children@[k] as int]).parent is Some,
{
    let ghost orig = elements@;
    let n = elements.len();
    let mut i: usize = 0;
    while i < n
        invariant
            n == elements@.len(),
            i <= n,
            root < n,
            orig.len() == n,
            forall|a: int| 0 <= a < n ==> same_content(#[trigger] elements@[a], orig[a]),
            forall|a: int| 0 <= a < n ==> (#[trigger] elements@[a]).children@ == orig[a].children@,
            forall|a: int, k2: int|
                0 <= a < i && 0 <= k2 < orig[a].children@.len() ==> (#[trigger] elements@[orig[a].children@[k2] as int]).parent is Some,
            elements@[root as int].kind == LuaKind::Syntax(LuaSyntaxKind::Chunk),
            forall|a: int, k: int|
                0 <= a < elements@.len() && 0 <= k < elements@[a].children@.len() ==> #[trigger] elements@[a].children@[k] < a,
            forall|a: int| 0 <= a < elements@.len() && (#[trigger] elements@[a].kind) is Token ==> elements@[a].children@.len() == 0,
            forall|a: int|
                0 <= a < elements@.len() && (#[trigger] elements@[a].parent) is Some ==> {
                    let (p, k) = elements@[a].parent->0;
                    &&& a < p < elements@.len()
                    &&& k < elements@[p as int].children@.len()
                    &&& elements@[p as int].children@[k as int] == a
                },
        decreases n - i,
    {
        let m = elements[i].children.len();
        let mut k: usize = 0;
        while k < m
            invariant
                n == elements@.len(),
                i < n,
                k <= m == elements@[i as int].children@.len(),
                root < n,
                orig.len() == n,
                forall|a: int| 0 <= a < n ==> same_content(#[trigger] elements@[a], orig[a]),
                forall|a: int| 0 <= a < n ==> (#[trigger] elements@[a]).children@ == orig[a].children@,
                forall|a: int, k2: int|
                    0 <= a < i && 0 <= k2 < orig[a].children@.len() ==> (#[trigger] elements@[orig[a].children@[k2] as int]).parent is Some,
                forall|k2: int| 0 <= k2 < k ==> (#[trigger] elements@[orig[i as int].children@[k2] as int]).parent is Some,
                elements@[root as int].kind == LuaKind::Syntax(LuaSyntaxKind::Chunk),
                forall|a: int, k: int|
                    0 <= a < elements@.len() && 0 <= k < elements@[a].children@.len() ==> #[trigger] elements@[a].children@[k] < a,
                forall|a: int| 0 <= a < elements@.len() && (#[trigger] elements@[a].kind) is Token ==> elements@[a].children@.len() == 0,
                forall|a: int|
                    0 <= a < elements@.len() && (#[trigger] elements@[a].parent) is Some ==> {
                        let (p, k) = elements@[a].parent->0;
                        &&& a < p < elements@.len()
                        &&& k < elements@[p as int].children@.len()
                        &&& elements@[p as int].children@[k as int] == a
                    },
            decreases m - k,
        {
            let c = elements[i].children[k];
            let ghost before = elements@;
            set_parent(&mut elements, c, Some((i, k)));
            proof {
                assert forall|a: int, k2: int| 0 <= a < i && 0 <= k2 < orig[a].children@.len() implies (
                #[trigger] elements@[orig[a].children@[k2] as int]).parent is Some by {
                    let x = orig[a].children@[k2] as int;
                    assert(before[a].children@ == orig[a].children@);
                    assert(before[a].children@[k2] < a);
                    if x != c as int {
                        assert(elements@[x] == before[x]);
                    }
                }
                assert forall|k2: int| 0 <= k2 < k + 1 implies (#[trigger] elements@[orig[i as int].children@[k2] as int]).parent is Some by {
                    let x = orig[i as int].children@[k2] as int;
                    assert(before[i as int].children@ == orig[i as int].children@);
                    assert(before[i as int].children@[k2] < i);
                    if x != c as int {
                        assert(elements@[x] == before[x]);
                    }
                }
            }
            k += 1;
        }
        i += 1;
    }
    set_parent(&mut elements, root, None);
    elements
}

/// The two elements have the same kind, text and range.
pub open spec fn same_content(x: LuaSyntaxElementData, y: LuaSyntaxElementData) -> bool {
    &&& x.kind == y.kind
    &&& x.text@ == y.text@
    &&& x.range == y.range
}

/// Element `i` of the tree `t` has the kind, text and range of `e`.
pub open spec fn same_content_at(t: LuaSyntaxTree, i: int, e: LuaSyntaxElementData) -> bool {
    &&& t.kind_of(i) == e.kind
    &&& t.text_of(i) == e.text@
    &&& t.range_of(i) == e.range
}

/// Sets the parent link of element `c`, keeping everything else.
fn set_parent(elements: &mut Vec<LuaSyntaxElementData>, c: usize, parent: Option<(usize, usize)>)
    requires
        c < old(elements)@.len(),
    ensures
        final(elements)@.len() == old(elements)@.len(),
        forall|a: int| 0 <= a < old(elements)@.len() && a != c ==> #[trigger] final(elements)@[a] == old(elements)@[a],
        final(elements)@[c as int].kind == old(elements)@[c as int].kind,
        final(elements)@[c as int].children@ == old(elements)@[c as int].children@,
        final(elements)@[c as int].text@ == old(elements)@[c as int].text@,
        final(elements)@[c as int].range == old(elements)@[c as int].range,
        final(elements)@[c as int].parent == parent,
{
    elements[c].parent = parent;
}

} // verus!
