use vstd::prelude::*;

use crate::kind::lua_kind::LuaKind;
use crate::kind::lua_syntax_kind::LuaSyntaxKind;
use crate::kind::lua_token_kind::LuaTokenKind;
use crate::parser::parser_error::{LuaParseError, LuaParseErrorKind};
use crate::text::text_range::SourceRange;

verus! {

/// One element of a syntax tree: a node with children, or a token with text.
#[derive(Debug)]
pub struct LuaSyntaxElementData {
    pub kind: LuaKind,
    pub range: SourceRange,
    pub text: Vec<char>,
    pub children: Vec<usize>,
    /// The parent and the position among its children.
    pub parent: Option<(usize, usize)>,
}

/// Whether `elements` with root `root` form a tree: children come before
/// their parent, and every recorded parent lists the element at the
/// recorded position.
pub open spec fn elements_wf(elements: Seq<LuaSyntaxElementData>, root: int) -> bool {
    &&& 0 <= root < elements.len()
    &&& elements[root].kind == LuaKind::Syntax(LuaSyntaxKind::Chunk)
    &&& elements[root].parent is None
    &&& forall|i: int|
        0 <= i < elements.len() && (#[trigger] elements[i].kind) is Token ==> elements[i].children@.len() == 0
    &&& forall|i: int, k: int|
        0 <= i < elements.len() && 0 <= k < elements[i].children@.len() ==> #[trigger] elements[i].children@[k] < i
    &&& forall|i: int|
        0 <= i < elements.len() && (#[trigger] elements[i].parent) is Some ==> {
            let (p, k) = elements[i].parent->0;
            &&& i < p < elements.len()
            &&& k < elements[p as int].children@.len()
            &&& elements[p as int].children@[k as int] == i
        }
}

/// A parsed text as a tree of nodes and tokens, with the errors found.
#[derive(Debug)]
pub struct LuaSyntaxTree {
    elements: Vec<LuaSyntaxElementData>,
    root: usize,
    errors: Vec<LuaParseError>,
}

impl LuaSyntaxTree {
    #[verifier::type_invariant]
    closed spec fn inv(&self) -> bool {
        elements_wf(self.elements@, self.root as int)
    }

    pub closed spec fn spec_len(&self) -> int {
        self.elements@.len() as int
    }

    pub closed spec fn kind_of(&self, i: int) -> LuaKind {
        self.elements@[i].kind
    }

    pub closed spec fn children_of(&self, i: int) -> Seq<usize> {
        self.elements@[i].children@
    }

    pub closed spec fn parent_of(&self, i: int) -> Option<(usize, usize)> {
        self.elements@[i].parent
    }

    pub closed spec fn text_of(&self, i: int) -> Seq<char> {
        self.elements@[i].text@
    }

    pub closed spec fn range_of(&self, i: int) -> SourceRange {
        self.elements@[i].range
    }

    pub closed spec fn spec_root(&self) -> int {
        self.root as int
    }

    pub closed spec fn spec_errors(&self) -> Seq<LuaParseError> {
        self.errors@
    }

    /// The root is a `Chunk` node of the tree.
    pub open spec fn rooted_at_chunk(&self) -> bool {
        0 <= self.spec_root() < self.spec_len() && self.kind_of(self.spec_root()) == LuaKind::Syntax(
            LuaSyntaxKind::Chunk,
        )
    }

    /// The tree with the given elements, root and errors.
    pub fn new(
        elements: Vec<LuaSyntaxElementData>,
        root: usize,
        errors: Vec<LuaParseError>,
    ) -> (t: LuaSyntaxTree)
        requires
            elements_wf(elements@, root as int),
        ensures
            t.spec_len() == elements@.len(),
            t.spec_root() == root,
            t.spec_errors() == errors@,
            t.rooted_at_chunk(),
            forall|i: int| 0 <= i < elements@.len() ==> {
                &&& #[trigger] t.kind_of(i) == elements@[i].kind
                &&& t.children_of(i) == elements@[i].children@
                &&& t.parent_of(i) == elements@[i].parent
                &&& t.text_of(i) == elements@[i].text@
                &&& t.range_of(i) == elements@[i].range
            },
    {
        LuaSyntaxTree { elements, root, errors }
    }

    /// The root node.
    pub fn get_red_root(&self) -> (n: LuaSyntaxNode<'_>)
        ensures
            n.spec_id() == self.spec_root(),
            n.spec_tree() == self,
            n.spec_kind() == LuaSyntaxKind::Chunk,
    {
        proof { use_type_invariant(self); }
        LuaSyntaxNode { tree: self, id: self.root }
    }

    pub fn get_errors(&self) -> (e: &Vec<LuaParseError>)
        ensures
            e@ == self.spec_errors(),
    {
        &self.errors
    }

    /// Whether any error is a syntax error.
    pub fn has_syntax_errors(&self) -> (b: bool)
        ensures
            b == exists|i: int|
                0 <= i < self.spec_errors().len() && (#[trigger] self.spec_errors()[i]).kind
                    == LuaParseErrorKind::SyntaxError,
    {
        let mut i: usize = 0;
        while i < self.errors.len()
            invariant
                0 <= i <= self.errors@.len(),
                forall|j: int| 0 <= j < i ==> (#[trigger] self.errors@[j]).kind != LuaParseErrorKind::SyntaxError,
            decreases self.errors@.len() - i,
        {
            if self.errors[i].kind == LuaParseErrorKind::SyntaxError {
                return true;
            }
            i += 1;
        }
        false
    }
}

/// The position of the first element of `s` from `from` on whose kind
/// satisfies `p`.
pub open spec fn first_where(t: LuaSyntaxTree, s: Seq<usize>, p: spec_fn(LuaKind) -> bool, from: int) -> Option<int>
    decreases s.len() - from,
{
    if from < 0 || from >= s.len() {
        None
    } else if p(t.kind_of(s[from] as int)) {
        Some(from)
    } else {
        first_where(t, s, p, from + 1)
    }
}

/// The elements of `s[..n]` whose kind satisfies `p`, in order.
pub open spec fn filter_where(t: LuaSyntaxTree, s: Seq<usize>, p: spec_fn(LuaKind) -> bool, n: int) -> Seq<usize>
    decreases n,
{
    if n <= 0 || n > s.len() {
        Seq::empty()
    } else if p(t.kind_of(s[n - 1] as int)) {
        filter_where(t, s, p, n - 1).push(s[n - 1])
    } else {
        filter_where(t, s, p, n - 1)
    }
}

/// The position of the last element of `s[..n]` whose kind satisfies `p`.
pub open spec fn last_where(t: LuaSyntaxTree, s: Seq<usize>, p: spec_fn(LuaKind) -> bool, n: int) -> Option<int>
    decreases n,
{
    if n <= 0 || n > s.len() {
        None
    } else if p(t.kind_of(s[n - 1] as int)) {
        Some(n - 1)
    } else {
        last_where(t, s, p, n - 1)
    }
}

/// A node of a syntax tree.
#[derive(Debug, Clone, Copy)]
pub struct LuaSyntaxNode<'a> {
    tree: &'a LuaSyntaxTree,
    id: usize,
}

/// A token of a syntax tree.
#[derive(Debug, Clone, Copy)]
pub struct LuaSyntaxToken<'a> {
    tree: &'a LuaSyntaxTree,
    id: usize,
}

/// A node or a token.
#[derive(Debug, Clone, Copy)]
pub enum LuaSyntaxElement<'a> {
    Node(LuaSyntaxNode<'a>),
    Token(LuaSyntaxToken<'a>),
}

impl<'a> LuaSyntaxElement<'a> {
    pub open spec fn spec_id(self) -> int {
        match self {
            LuaSyntaxElement::Node(n) => n.spec_id(),
            LuaSyntaxElement::Token(t) => t.spec_id(),
        }
    }

    pub open spec fn spec_tree(self) -> &'a LuaSyntaxTree {
        match self {
            LuaSyntaxElement::Node(n) => n.spec_tree(),
            LuaSyntaxElement::Token(t) => t.spec_tree(),
        }
    }

    pub open spec fn spec_kind(self) -> LuaKind {
        self.spec_tree().kind_of(self.spec_id())
    }

    pub fn kind(&self) -> (k: LuaKind)
        ensures
            k == self.spec_kind(),
    {
        match self {
            LuaSyntaxElement::Node(n) => LuaKind::Syntax(n.kind()),
            LuaSyntaxElement::Token(t) => LuaKind::Token(t.kind()),
        }
    }

    pub fn into_node(self) -> (r: Option<LuaSyntaxNode<'a>>)
        ensures
            r == (match self {
                LuaSyntaxElement::Node(n) => Some(n),
                LuaSyntaxElement::Token(_) => None::<LuaSyntaxNode<'a>>,
            }),
    {
        match self {
            LuaSyntaxElement::Node(n) => Some(n),
            LuaSyntaxElement::Token(_) => None,
        }
    }

    pub fn into_token(self) -> (r: Option<LuaSyntaxToken<'a>>)
        ensures
            r == (match self {
                LuaSyntaxElement::Token(t) => Some(t),
                LuaSyntaxElement::Node(_) => None::<LuaSyntaxToken<'a>>,
            }),
    {
        match self {
            LuaSyntaxElement::Token(t) => Some(t),
            LuaSyntaxElement::Node(_) => None,
        }
    }
}

/// The element handle for element `id` of `tree`.
pub open spec fn element_at<'a>(tree: &'a LuaSyntaxTree, id: int) -> LuaSyntaxElement<'a> {
    if tree.kind_of(id) is Syntax {
        LuaSyntaxElement::Node(node_at(tree, id))
    } else {
        LuaSyntaxElement::Token(token_at(tree, id))
    }
}

pub closed spec fn node_at<'a>(tree: &'a LuaSyntaxTree, id: int) -> LuaSyntaxNode<'a> {
    LuaSyntaxNode { tree, id: id as usize }
}

pub closed spec fn token_at<'a>(tree: &'a LuaSyntaxTree, id: int) -> LuaSyntaxToken<'a> {
    LuaSyntaxToken { tree, id: id as usize }
}

pub proof fn lemma_node_at(tree: &LuaSyntaxTree, id: int)
    requires
        0 <= id <= usize::MAX,
    ensures
        node_at(tree, id).spec_id() == id,
        node_at(tree, id).spec_tree() == tree,
        token_at(tree, id).spec_id() == id,
        token_at(tree, id).spec_tree() == tree,
{
}


impl<'a> LuaSyntaxNode<'a> {
    #[verifier::type_invariant]
    closed spec fn inv(&self) -> bool {
        &&& self.id < self.tree.spec_len()
        &&& self.tree.kind_of(self.id as int) is Syntax
    }

    pub closed spec fn spec_id(self) -> int {
        self.id as int
    }

    pub closed spec fn spec_tree(self) -> &'a LuaSyntaxTree {
        self.tree
    }

    pub open spec fn spec_kind(self) -> LuaSyntaxKind {
        self.spec_tree().kind_of(self.spec_id())->Syntax_0
    }

    pub open spec fn spec_children(self) -> Seq<usize> {
        self.spec_tree().children_of(self.spec_id())
    }

    /// The child element handles, in order.
    pub open spec fn spec_elements(self) -> Seq<LuaSyntaxElement<'a>> {
        self.spec_children().map_values(|c: usize| element_at(self.spec_tree(), c as int))
    }

    pub fn kind(&self) -> (k: LuaSyntaxKind)
        ensures
            LuaKind::Syntax(k) == self.spec_tree().kind_of(self.spec_id()),
            k == self.spec_kind(),
            0 <= self.spec_id() < self.spec_tree().spec_len(),
    {
        proof { use_type_invariant(self); }
        self.tree.elements[self.id].kind.to_syntax()
    }

    pub fn child_count(&self) -> (n: usize)
        ensures
            n == self.spec_children().len(),
    {
        proof { use_type_invariant(self); }
        self.tree.elements[self.id].children.len()
    }

    /// The `k`-th child, node or token.
    pub fn child_at(&self, k: usize) -> (e: LuaSyntaxElement<'a>)
        requires
            k < self.spec_children().len(),
        ensures
            e == element_at(self.spec_tree(), self.spec_children()[k as int] as int),
            e.spec_id() == self.spec_children()[k as int],
            e.spec_tree() == self.spec_tree(),
            e.spec_id() < self.spec_id(),
            e.spec_id() < self.spec_tree().spec_len(),
    {
        proof {
            use_type_invariant(self);
            use_type_invariant(self.tree);
        }
        let c = self.tree.elements[self.id].children[k];
        make_element(self.tree, c)
    }

    /// All children, nodes and tokens, in order.
    pub fn children_with_tokens(&self) -> (v: Vec<LuaSyntaxElement<'a>>)
        ensures
            v@ == self.spec_elements(),
    {
        let n = self.child_count();
        let mut v: Vec<LuaSyntaxElement<'a>> = Vec::new();
        let mut k: usize = 0;
        while k < n
            invariant
                n == self.spec_children().len(),
                k <= n,
                v@ == self.spec_elements().subrange(0, k as int),
            decreases n - k,
        {
            let e = self.child_at(k);
            v.push(e);
            assert(v@ =~= self.spec_elements().subrange(0, k + 1));
            k += 1;
        }
        assert(v@ =~= self.spec_elements());
        v
    }

    /// The child nodes, in order.
    pub fn children(&self) -> (v: Vec<LuaSyntaxNode<'a>>)
        ensures
            v@.len() == filter_where(*self.spec_tree(), self.spec_children(), |k: LuaKind| k is Syntax, self.spec_children().len() as int).len(),
            forall|i: int| 0 <= i < v@.len() ==> {
                &&& #[trigger] v@[i].spec_id() == filter_where(*self.spec_tree(), self.spec_children(), |k: LuaKind| k is Syntax, self.spec_children().len() as int)[i]
                &&& v@[i].spec_tree() == self.spec_tree()
            },
    {
        let ghost p = |k: LuaKind| k is Syntax;
        let n = self.child_count();
        let mut v: Vec<LuaSyntaxNode<'a>> = Vec::new();
        let mut k: usize = 0;
        while k < n
            invariant
                n == self.spec_children().len(),
                k <= n,
                p == (|k: LuaKind| k is Syntax),
                v@.len() == filter_where(*self.spec_tree(), self.spec_children(), p, k as int).len(),
                forall|i: int| 0 <= i < v@.len() ==> {
                    &&& #[trigger] v@[i].spec_id() == filter_where(*self.spec_tree(), self.spec_children(), p, k as int)[i]
                    &&& v@[i].spec_tree() == self.spec_tree()
                },
            decreases n - k,
        {
            let e = self.child_at(k);
            let ghost before = v@;
            let ghost f = filter_where(*self.spec_tree(), self.spec_children(), p, k as int);
            match e {
                LuaSyntaxElement::Node(c) => {
                    v.push(c);
                    assert(filter_where(*self.spec_tree(), self.spec_children(), p, k + 1) == f.push(
                        self.spec_children()[k as int],
                    ));
                    assert forall|i: int| 0 <= i < v@.len() implies #[trigger] v@[i].spec_id()
                        == f.push(self.spec_children()[k as int])[i] && v@[i].spec_tree() == self.spec_tree() by {
                        if i < before.len() {
                            assert(v@[i] == before[i]);
                        }
                    }
                },
                LuaSyntaxElement::Token(_) => {
                    assert(filter_where(*self.spec_tree(), self.spec_children(), p, k + 1) == f);
                },
            }
            k += 1;
        }
        v
    }

    /// The parent node, if any.
    pub fn parent(&self) -> (r: Option<LuaSyntaxNode<'a>>)
        ensures
            r is Some == self.spec_tree().parent_of(self.spec_id()) is Some,
            r matches Some(p) ==> p.spec_id() == (self.spec_tree().parent_of(self.spec_id())->0).0
                && p.spec_tree() == self.spec_tree(),
    {
        proof {
            use_type_invariant(self);
            use_type_invariant(self.tree);
        }
        match self.tree.elements[self.id].parent {
            Some((p, k)) => {
                Some(LuaSyntaxNode { tree: self.tree, id: p })
            },
            None => None,
        }
    }

    /// The parent node and the position of this node among its children.
    pub fn index_in_parent(&self) -> (r: Option<(LuaSyntaxNode<'a>, usize)>)
        ensures
            r is Some == self.spec_tree().parent_of(self.spec_id()) is Some,
            r matches Some((p, k)) ==> {
                &&& (self.spec_tree().parent_of(self.spec_id())->0).0 as int == p.spec_id()
                &&& (self.spec_tree().parent_of(self.spec_id())->0).1 == k
                &&& p.spec_tree() == self.spec_tree()
                &&& k < p.spec_children().len()
                &&& p.spec_children()[k as int] == self.spec_id()
            },
    {
        proof {
            use_type_invariant(self);
            use_type_invariant(self.tree);
        }
        match self.tree.elements[self.id].parent {
            Some((p, k)) => {
                let pn = LuaSyntaxNode { tree: self.tree, id: p };
                Some((pn, k))
            },
            None => None,
        }
    }

    /// The sibling just before this node.
    pub fn prev_sibling_or_token(&self) -> (r: Option<LuaSyntaxElement<'a>>)
        ensures
            r == spec_prev_sibling(self.spec_tree(), self.spec_id()),
    {
        proof {
            use_type_invariant(self);
        }
        sibling_before(self.tree, self.id)
    }

    /// The sibling just after this node.
    pub fn next_sibling_or_token(&self) -> (r: Option<LuaSyntaxElement<'a>>)
        ensures
            r == spec_next_sibling(self.spec_tree(), self.spec_id()),
    {
        proof {
            use_type_invariant(self);
        }
        sibling_after(self.tree, self.id)
    }

    /// The first child node.
    pub fn first_child(&self) -> (r: Option<LuaSyntaxNode<'a>>)
        ensures
            r is Some == first_where(*self.spec_tree(), self.spec_children(), |k: LuaKind| k is Syntax, 0) is Some,
            r matches Some(c) ==> c.spec_tree() == self.spec_tree() && c.spec_id() == self.spec_children()[
                first_where(*self.spec_tree(), self.spec_children(), |k: LuaKind| k is Syntax, 0)->0
            ],
    {
        let ghost p = |k: LuaKind| k is Syntax;
        let n = self.child_count();
        let mut k: usize = 0;
        while k < n
            invariant
                n == self.spec_children().len(),
                k <= n,
                p == (|k: LuaKind| k is Syntax),
                first_where(*self.spec_tree(), self.spec_children(), p, 0) == first_where(*self.spec_tree(), self.spec_children(), p, k as int),
            decreases n - k,
        {
            let e = self.child_at(k);
            match e {
                LuaSyntaxElement::Node(c) => {
                    return Some(c);
                },
                LuaSyntaxElement::Token(_) => {},
            }
            k += 1;
        }
        None
    }

    pub fn text_range(&self) -> (r: SourceRange)
        ensures
            r == self.spec_tree().range_of(self.spec_id()),
    {
        proof { use_type_invariant(self); }
        self.tree.elements[self.id].range
    }

    /// The tree this node belongs to.
    pub fn tree(&self) -> (t: &'a LuaSyntaxTree)
        ensures
            t == self.spec_tree(),
    {
        self.tree
    }
}

impl<'a> LuaSyntaxToken<'a> {
    #[verifier::type_invariant]
    closed spec fn inv(&self) -> bool {
        &&& self.id < self.tree.spec_len()
        &&& self.tree.kind_of(self.id as int) is Token
    }

    pub closed spec fn spec_id(self) -> int {
        self.id as int
    }

    pub closed spec fn spec_tree(self) -> &'a LuaSyntaxTree {
        self.tree
    }

    pub open spec fn spec_kind(self) -> LuaTokenKind {
        self.spec_tree().kind_of(self.spec_id())->Token_0
    }

    pub open spec fn spec_text(self) -> Seq<char> {
        self.spec_tree().text_of(self.spec_id())
    }

    pub fn kind(&self) -> (k: LuaTokenKind)
        ensures
            LuaKind::Token(k) == self.spec_tree().kind_of(self.spec_id()),
            k == self.spec_kind(),
    {
        proof { use_type_invariant(self); }
        self.tree.elements[self.id].kind.to_token()
    }

    /// The text of the token.
    pub fn text(&self) -> (t: &'a Vec<char>)
        ensures
            t@ == self.spec_text(),
    {
        proof { use_type_invariant(self); }
        &self.tree.elements[self.id].text
    }

    /// The text of the token as a `String`.
    pub fn text_string(&self) -> (s: String)
        ensures
            s@ == self.spec_text(),
    {
        let t = self.text();
        let s = crate::text::strings::chars_to_string(t, 0, t.len());
        assert(t@.subrange(0, t@.len() as int) =~= t@);
        s
    }

    pub fn text_range(&self) -> (r: SourceRange)
        ensures
            r == self.spec_tree().range_of(self.spec_id()),
    {
        proof { use_type_invariant(self); }
        self.tree.elements[self.id].range
    }

    /// The parent node, if any.
    pub fn parent(&self) -> (r: Option<LuaSyntaxNode<'a>>)
        ensures
            r is Some == self.spec_tree().parent_of(self.spec_id()) is Some,
            r matches Some(p) ==> p.spec_id() == (self.spec_tree().parent_of(self.spec_id())->0).0
                && p.spec_tree() == self.spec_tree(),
    {
        proof {
            use_type_invariant(self);
            use_type_invariant(self.tree);
        }
        match self.tree.elements[self.id].parent {
            Some((p, k)) => {
                Some(LuaSyntaxNode { tree: self.tree, id: p })
            },
            None => None,
        }
    }

    pub fn prev_sibling_or_token(&self) -> (r: Option<LuaSyntaxElement<'a>>)
        ensures
            r == spec_prev_sibling(self.spec_tree(), self.spec_id()),
    {
        proof { use_type_invariant(self); }
        sibling_before(self.tree, self.id)
    }

    pub fn next_sibling_or_token(&self) -> (r: Option<LuaSyntaxElement<'a>>)
        ensures
            r == spec_next_sibling(self.spec_tree(), self.spec_id()),
    {
        proof { use_type_invariant(self); }
        sibling_after(self.tree, self.id)
    }
}

/// The sibling before element `id`, if it has a parent and is not its first child.
pub open spec fn spec_prev_sibling<'a>(tree: &'a LuaSyntaxTree, id: int) -> Option<LuaSyntaxElement<'a>> {
    match tree.parent_of(id) {
        Some((p, k)) => if k > 0 {
            Some(element_at(tree, tree.children_of(p as int)[k - 1] as int))
        } else {
            None
        },
        None => None,
    }
}

/// The sibling after element `id`, if it has a parent and is not its last child.
pub open spec fn spec_next_sibling<'a>(tree: &'a LuaSyntaxTree, id: int) -> Option<LuaSyntaxElement<'a>> {
    match tree.parent_of(id) {
        Some((p, k)) => if k + 1 < tree.children_of(p as int).len() {
            Some(element_at(tree, tree.children_of(p as int)[k + 1] as int))
        } else {
            None
        },
        None => None,
    }
}

fn make_element<'a>(tree: &'a LuaSyntaxTree, c: usize) -> (e: LuaSyntaxElement<'a>)
    requires
        c < tree.spec_len(),
    ensures
        e == element_at(tree, c as int),
        e.spec_id() == c,
        e.spec_tree() == tree,
{
    if tree.elements[c].kind.is_syntax() {
        LuaSyntaxElement::Node(LuaSyntaxNode { tree, id: c })
    } else {
        LuaSyntaxElement::Token(LuaSyntaxToken { tree, id: c })
    }
}

fn sibling_before<'a>(tree: &'a LuaSyntaxTree, id: usize) -> (r: Option<LuaSyntaxElement<'a>>)
    requires
        id < tree.spec_len(),
    ensures
        r == spec_prev_sibling(tree, id as int),
{
    proof { use_type_invariant(tree); }
    match tree.elements[id].parent {
        Some((p, k)) => {
            if k > 0 {
                let c = tree.elements[p].children[k - 1];
                Some(make_element(tree, c))
            } else {
                None
            }
        },
        None => None,
    }
}

fn sibling_after<'a>(tree: &'a LuaSyntaxTree, id: usize) -> (r: Option<LuaSyntaxElement<'a>>)
    requires
        id < tree.spec_len(),
    ensures
        r == spec_next_sibling(tree, id as int),
{
    proof { use_type_invariant(tree); }
    match tree.elements[id].parent {
        Some((p, k)) => {
            let n = tree.elements[p].children.len();
            if n - k > 1 {
                let c = tree.elements[p].children[k + 1];
                Some(make_element(tree, c))
            } else {
                None
            }
        },
        None => None,
    }
}

} // verus!
