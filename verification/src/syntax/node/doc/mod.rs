pub mod description_trait;
pub mod queries;
pub mod tag;
pub mod types;

use vstd::prelude::*;

use crate::kind::lua_syntax_kind::LuaSyntaxKind;
use crate::kind::lua_token_kind::LuaTokenKind;
use crate::syntax::traits::{
    LuaAstNode, LuaAstToken, child_ids, child_of, children_of, first_child_id, kind_pred, last_child_id,
    last_child_of, node_pred, nodes_are, opt_node_is, opt_token_is, token_by_kind_of, token_of,
    token_pred, tokens_are, tokens_of,
};
use crate::syntax::tree::syntax_tree::LuaSyntaxNode;
use crate::syntax::node::doc::tag::{LuaDocTag, LuaDocTagAttributeUse};
use crate::syntax::node::doc::types::{LuaDocLiteralType, LuaDocNameType, LuaDocType};
use crate::syntax::node::token::tokens::{LuaBinaryOpToken, LuaLiteralToken, LuaNameToken, LuaNumberToken, LuaStringToken};
use crate::kind::lua_kind::LuaKind;
use crate::syntax::traits::first_child_id_in;
use crate::syntax::tree::syntax_tree::{LuaSyntaxElement, LuaSyntaxTree};
use crate::text::strings::chars_to_string;
use crate::syntax::node::lua::LuaAst;
use crate::syntax::tree::syntax_tree::first_where;

verus! {

/// Scanning the siblings before a comment, from position `j` down, among
/// the children `cs` of its parent `p`: the node that the comment trails on
/// its line, if any.
pub open spec fn spec_inline_scan(t: LuaSyntaxTree, p: int, cs: Seq<usize>, j: int) -> Option<int>
    decreases j + 1,
{
    if j < 0 || j >= cs.len() {
        None
    } else {
        let c = cs[j] as int;
        match t.kind_of(c) {
            LuaKind::Token(k) => if k == LuaTokenKind::TkWhitespace || k == LuaTokenKind::TkComma || k
                == LuaTokenKind::TkSemicolon {
                spec_inline_scan(t, p, cs, j - 1)
            } else if k == LuaTokenKind::TkEndOfLine {
                None
            } else {
                Some(p)
            },
            LuaKind::Syntax(s) => if s == LuaSyntaxKind::Comment {
                None
            } else {
                Some(c)
            },
        }
    }
}

/// Scanning the siblings after a comment, from position `j` up, among the
/// children `cs` of its parent `p`: the node that the comment stands above
/// (at most one line end away), if any.  Before a block, it is the
/// comment's own first child node `first` (unless that is a comment).
pub open spec fn spec_attached_scan(t: LuaSyntaxTree, p: int, cs: Seq<usize>, j: int, meet: bool, first: Option<int>) -> Option<int>
    decreases cs.len() - j,
{
    if j < 0 || j >= cs.len() {
        None
    } else {
        let c = cs[j] as int;
        match t.kind_of(c) {
            LuaKind::Token(k) => if k == LuaTokenKind::TkEndOfLine {
                if meet {
                    None
                } else {
                    spec_attached_scan(t, p, cs, j + 1, true, first)
                }
            } else if k == LuaTokenKind::TkWhitespace {
                spec_attached_scan(t, p, cs, j + 1, meet, first)
            } else {
                Some(p)
            },
            LuaKind::Syntax(s) => if s == LuaSyntaxKind::Comment {
                None
            } else if s == LuaSyntaxKind::Block {
                match first {
                    Some(f) => if t.kind_of(f) == LuaKind::Syntax(LuaSyntaxKind::Comment) {
                        None
                    } else {
                        Some(f)
                    },
                    None => None,
                }
            } else {
                Some(c)
            },
        }
    }
}

/// The first child node of element `id`.
pub open spec fn spec_first_child_node(t: LuaSyntaxTree, id: int) -> Option<int> {
    match first_where(t, t.children_of(id), |k: LuaKind| k is Syntax, 0) {
        Some(k) => Some(t.children_of(id)[k] as int),
        None => None,
    }
}

/// The node that comment `id` documents: the node it trails on its line,
/// or else the node right below it.
pub open spec fn spec_owner_node(t: LuaSyntaxTree, id: int) -> Option<int> {
    match t.parent_of(id) {
        None => None,
        Some((p, k)) => match spec_inline_scan(t, p as int, t.children_of(p as int), k - 1) {
            Some(n) => Some(n),
            None => spec_attached_scan(t, p as int, t.children_of(p as int), k + 1, false, spec_first_child_node(t, id)),
        },
    }
}

/// The node that the comment at position `k` of `parent` trails on its line.
fn find_inline_node<'a>(parent: LuaSyntaxNode<'a>, k: usize) -> (r: Option<LuaSyntaxNode<'a>>)
    requires
        k < parent.spec_children().len(),
    ensures
        r matches Some(n) ==> n.spec_tree() == parent.spec_tree() && n.spec_id() == spec_inline_scan(*parent.spec_tree(), parent.spec_id(), parent.spec_children(), k - 1)->0,
        r is Some == spec_inline_scan(*parent.spec_tree(), parent.spec_id(), parent.spec_children(), k - 1) is Some,
{
    let ghost t = *parent.spec_tree();
    let ghost cs = parent.spec_children();
    let mut j = k;
    while j > 0
        invariant
            j <= k < cs.len(),
            cs == parent.spec_children(),
            t == *parent.spec_tree(),
            spec_inline_scan(t, parent.spec_id(), cs, k - 1) == spec_inline_scan(t, parent.spec_id(), cs, j - 1),
        decreases j,
    {
        match parent.child_at(j - 1) {
            LuaSyntaxElement::Token(tok) => {
                let kind = tok.kind();
                if kind == LuaTokenKind::TkWhitespace || kind == LuaTokenKind::TkComma || kind
                    == LuaTokenKind::TkSemicolon {
                } else if kind == LuaTokenKind::TkEndOfLine {
                    return None;
                } else {
                    return Some(parent);
                }
            },
            LuaSyntaxElement::Node(node) => {
                if node.kind() == LuaSyntaxKind::Comment {
                    return None;
                }
                return Some(node);
            },
        }
        j -= 1;
    }
    None
}

/// The node that the comment `comment`, at position `k` of `parent`, stands
/// above.
fn find_attached_node<'a>(comment: LuaSyntaxNode<'a>, parent: LuaSyntaxNode<'a>, k: usize) -> (r: Option<LuaSyntaxNode<'a>>)
    requires
        k < parent.spec_children().len(),
        comment.spec_tree() == parent.spec_tree(),
    ensures
        r matches Some(n) ==> n.spec_tree() == parent.spec_tree() && n.spec_id() == spec_attached_scan(*parent.spec_tree(), parent.spec_id(), parent.spec_children(), k + 1, false, spec_first_child_node(*comment.spec_tree(), comment.spec_id()))->0,
        r is Some == spec_attached_scan(*parent.spec_tree(), parent.spec_id(), parent.spec_children(), k + 1, false, spec_first_child_node(*comment.spec_tree(), comment.spec_id())) is Some,
{
    let ghost t = *parent.spec_tree();
    let ghost cs = parent.spec_children();
    let ghost first = spec_first_child_node(t, comment.spec_id());
    let n = parent.child_count();
    let mut meet_end_of_line = false;
    let mut j = k + 1;
    while j < n
        invariant
            k < n == cs.len(),
            k + 1 <= j <= n,
            cs == parent.spec_children(),
            t == *parent.spec_tree(),
            comment.spec_tree() == parent.spec_tree(),
            first == spec_first_child_node(t, comment.spec_id()),
            spec_attached_scan(t, parent.spec_id(), cs, k + 1, false, first) == spec_attached_scan(t, parent.spec_id(), cs, j as int, meet_end_of_line, first),
        decreases n - j,
    {
        match parent.child_at(j) {
            LuaSyntaxElement::Token(tok) => {
                let kind = tok.kind();
                if kind == LuaTokenKind::TkEndOfLine {
                    if meet_end_of_line {
                        return None;
                    }
                    meet_end_of_line = true;
                } else if kind == LuaTokenKind::TkWhitespace {
                } else {
                    return Some(parent);
                }
            },
            LuaSyntaxElement::Node(node) => {
                let kind = node.kind();
                if kind == LuaSyntaxKind::Comment {
                    return None;
                }
                if kind == LuaSyntaxKind::Block {
                    return match comment.first_child() {
                        Some(first_child) => {
                            if first_child.kind() == LuaSyntaxKind::Comment {
                                None
                            } else {
                                Some(first_child)
                            }
                        },
                        None => None,
                    };
                }
                return Some(node);
            },
        }
        j += 1;
    }
    None
}

/// The tokens that open a comment line.
pub open spec fn spec_is_line_marker(kind: LuaTokenKind) -> bool {
    kind == LuaTokenKind::TkNormalStart || kind == LuaTokenKind::TkDocContinue || kind
        == LuaTokenKind::TkLongCommentStart
}

/// `s` without the dashes it starts with.
pub open spec fn strip_dashes(s: Seq<char>) -> Seq<char>
    decreases s.len(),
{
    if s.len() > 0 && s[0] == '-' {
        strip_dashes(s.drop_first())
    } else {
        s
    }
}

/// One step of reading a description: `(done, line, marker_seen)` after the
/// element `id`.  A line end closes the line; the first line marker of a
/// line drops what came before it on the line and gives its text after the
/// dashes; a run of white space of its own is left out; every other token
/// adds its text.
pub open spec fn desc_step(t: LuaSyntaxTree, st: (Seq<char>, Seq<char>, bool), id: int) -> (Seq<char>, Seq<char>, bool) {
    match t.kind_of(id) {
        LuaKind::Token(k) => if k == LuaTokenKind::TkEndOfLine {
            (st.0 + st.1 + seq!['\n'], Seq::empty(), false)
        } else if spec_is_line_marker(k) && !st.2 {
            (st.0, strip_dashes(t.text_of(id)), true)
        } else if k == LuaTokenKind::TkWhitespace {
            st
        } else {
            (st.0, st.1 + t.text_of(id), st.2)
        },
        LuaKind::Syntax(_) => st,
    }
}

/// The state after reading the first `n` children `cs`.
pub open spec fn desc_fold(t: LuaSyntaxTree, cs: Seq<usize>, n: int) -> (Seq<char>, Seq<char>, bool)
    decreases n,
{
    if n <= 0 || n > cs.len() {
        (Seq::empty(), Seq::empty(), false)
    } else {
        desc_step(t, desc_fold(t, cs, n - 1), cs[n - 1] as int)
    }
}

/// The text of a description with children `cs`: its lines, each from its
/// marker on (without the marker's dashes), joined by line feeds.
pub open spec fn spec_description_text(t: LuaSyntaxTree, cs: Seq<usize>) -> Seq<char> {
    let st = desc_fold(t, cs, cs.len() as int);
    st.0 + st.1
}

fn is_line_marker(kind: LuaTokenKind) -> (b: bool)
    ensures
        b == spec_is_line_marker(kind),
{
    kind == LuaTokenKind::TkNormalStart || kind == LuaTokenKind::TkDocContinue || kind
        == LuaTokenKind::TkLongCommentStart
}

/// The chars of `s` after the dashes it starts with.
fn push_without_dashes(line: &mut Vec<char>, s: &Vec<char>)
    requires
        old(line)@.len() == 0,
    ensures
        final(line)@ == strip_dashes(s@),
{
    let mut i: usize = 0;
    assert(s@.subrange(0, s@.len() as int) =~= s@);
    while i < s.len() && s[i] == '-'
        invariant
            i <= s@.len(),
            strip_dashes(s@) == strip_dashes(s@.subrange(i as int, s@.len() as int)),
        decreases s@.len() - i,
    {
        assert(s@.subrange(i as int, s@.len() as int).drop_first() =~= s@.subrange(i + 1, s@.len() as int));
        i += 1;
    }
    let mut j = i;
    while j < s.len()
        invariant
            i <= j <= s@.len(),
            line@ == s@.subrange(i as int, j as int),
        decreases s@.len() - j,
    {
        line.push(s[j]);
        j += 1;
        assert(line@ =~= s@.subrange(i as int, j as int));
    }
    assert(!(s@.subrange(i as int, s@.len() as int).len() > 0 && s@.subrange(i as int, s@.len() as int)[0] == '-'));
}

/// Whether a tag of this kind lets the comment's description come after it.
pub open spec fn spec_is_additive_doc_tag(kind: LuaSyntaxKind) -> bool {
    kind == LuaSyntaxKind::DocTagVisibility || kind == LuaSyntaxKind::DocTagExport || kind
        == LuaSyntaxKind::DocTagVersion || kind == LuaSyntaxKind::DocTagNodiscard
}

fn is_additive_doc_tag(kind: LuaSyntaxKind) -> (b: bool)
    ensures
        b == spec_is_additive_doc_tag(kind),
{
    kind == LuaSyntaxKind::DocTagVisibility || kind == LuaSyntaxKind::DocTagExport || kind
        == LuaSyntaxKind::DocTagVersion || kind == LuaSyntaxKind::DocTagNodiscard
}

/// The element id of a comment's description, scanning its children `cs`
/// from position `k`.
pub open spec fn spec_description_scan(t: LuaSyntaxTree, cs: Seq<usize>, k: int) -> Option<int>
    decreases cs.len() - k,
{
    if k < 0 || k >= cs.len() {
        None
    } else {
        match t.kind_of(cs[k] as int) {
            LuaKind::Syntax(s) => if s == LuaSyntaxKind::DocDescription {
                Some(cs[k] as int)
            } else if spec_is_additive_doc_tag(s) {
                spec_description_scan(t, cs, k + 1)
            } else {
                None
            },
            LuaKind::Token(_) => spec_description_scan(t, cs, k + 1),
        }
    }
}

/// The key of an object field.
#[derive(Debug, Clone, Copy)]
pub enum LuaDocObjectFieldKey<'a> {
    Name(LuaNameToken<'a>),
    String(LuaStringToken<'a>),
    Integer(LuaNumberToken<'a>),
    Type(LuaDocType<'a>),
}

/// The first child of an object field, from position `k` of its children
/// `cs`, that is a name, a colon or a type.
pub open spec fn spec_object_key_pos(t: LuaSyntaxTree, cs: Seq<usize>, k: int) -> Option<int>
    decreases cs.len() - k,
{
    if k < 0 || k >= cs.len() {
        None
    } else {
        let c = cs[k] as int;
        match t.kind_of(c) {
            LuaKind::Token(tk) => if tk == LuaTokenKind::TkName || tk == LuaTokenKind::TkColon {
                Some(c)
            } else {
                spec_object_key_pos(t, cs, k + 1)
            },
            LuaKind::Syntax(s) => if LuaDocType::spec_can_cast(s) {
                Some(c)
            } else {
                spec_object_key_pos(t, cs, k + 1)
            },
        }
    }
}

/// `r` is the key that child `pos` of `n` gives.
pub open spec fn object_key_is<'a>(r: Option<LuaDocObjectFieldKey<'a>>, n: LuaSyntaxNode<'a>, pos: Option<int>) -> bool {
    let t = *n.spec_tree();
    match pos {
        None => r is None,
        Some(c) => match t.kind_of(c) {
            LuaKind::Token(tk) => if tk == LuaTokenKind::TkName {
                r matches Some(LuaDocObjectFieldKey::Name(x)) && x.spec_syntax().spec_id() == c
                    && x.spec_syntax().spec_tree() == n.spec_tree()
            } else {
                r is None
            },
            LuaKind::Syntax(s) => if s == LuaSyntaxKind::TypeLiteral {
                match first_child_id_in(t, c, token_pred::<LuaLiteralToken<'a>>()) {
                    None => r is None,
                    Some(l) => {
                        let lk = t.kind_of(l)->Token_0;
                        if lk == LuaTokenKind::TkInt || lk == LuaTokenKind::TkFloat {
                            r matches Some(LuaDocObjectFieldKey::Integer(x)) && x.spec_syntax().spec_id() == l
                                && x.spec_syntax().spec_tree() == n.spec_tree()
                        } else if lk == LuaTokenKind::TkString || lk == LuaTokenKind::TkLongString {
                            r matches Some(LuaDocObjectFieldKey::String(x)) && x.spec_syntax().spec_id() == l
                                && x.spec_syntax().spec_tree() == n.spec_tree()
                        } else {
                            r matches Some(LuaDocObjectFieldKey::Type(x)) && x.spec_syntax().spec_id() == c
                                && x.spec_syntax().spec_tree() == n.spec_tree()
                        }
                    },
                }
            } else {
                r matches Some(LuaDocObjectFieldKey::Type(x)) && x.spec_syntax().spec_id() == c
                    && x.spec_syntax().spec_tree() == n.spec_tree()
            },
        },
    }
}

/// A comment: its doc tags and descriptions.
#[derive(Debug, Clone, Copy)]
pub struct LuaComment<'a> {
    syntax: LuaSyntaxNode<'a>,
}

impl<'a> LuaAstNode<'a> for LuaComment<'a> {
    closed spec fn spec_syntax(&self) -> LuaSyntaxNode<'a> {
        self.syntax
    }

    open spec fn spec_can_cast(kind: LuaSyntaxKind) -> bool {
        kind == LuaSyntaxKind::Comment
    }

    open spec fn spec_cast_ok(kind: LuaSyntaxKind) -> bool {
        Self::spec_can_cast(kind)
    }

    fn syntax(&self) -> (r: &LuaSyntaxNode<'a>) {
        &self.syntax
    }

    fn can_cast(kind: LuaSyntaxKind) -> (b: bool) {
        kind == LuaSyntaxKind::Comment
    }

    fn cast(syntax: LuaSyntaxNode<'a>) -> (r: Option<Self>) {
        if Self::can_cast(syntax.kind()) {
            Some(LuaComment { syntax })
        } else {
            None
        }
    }
}

impl<'a> LuaComment<'a> {
    pub fn get_doc_tags(&self) -> (r: Vec<LuaDocTag<'a>>)
        ensures
            nodes_are(r@, self.spec_syntax(), child_ids(self.spec_syntax(), node_pred::<LuaDocTag<'a>>())),
    {
        children_of::<LuaDocTag<'a>>(self.syntax)
    }

    /// The node that the comment documents: the node it trails on its line,
    /// or else the node right below it (with at most one line end between).
    pub fn get_owner(&self) -> (r: Option<LuaAst<'a>>)
        ensures
            r matches Some(a) ==> spec_owner_node(*self.spec_syntax().spec_tree(), self.spec_syntax().spec_id()) == Some(a.spec_syntax().spec_id()) && a.spec_syntax().spec_tree() == self.spec_syntax().spec_tree(),
            spec_owner_node(*self.spec_syntax().spec_tree(), self.spec_syntax().spec_id()) is None ==> r is None,
            r is Some <==> (spec_owner_node(*self.spec_syntax().spec_tree(), self.spec_syntax().spec_id()) matches Some(n)
                && LuaAst::spec_cast_ok(self.spec_syntax().spec_tree().kind_of(n)->Syntax_0)),
    {
        let s = self.syntax;
        let (parent, k) = match s.index_in_parent() {
            Some(pk) => pk,
            None => {
                return None;
            },
        };
        let ghost t = *s.spec_tree();
        proof {
            assert(parent.spec_children() == t.children_of(parent.spec_id()));
            assert(spec_owner_node(t, s.spec_id()) == match spec_inline_scan(t, parent.spec_id(), parent.spec_children(), k - 1) {
                Some(n) => Some(n),
                None => spec_attached_scan(t, parent.spec_id(), parent.spec_children(), k + 1, false, spec_first_child_node(t, s.spec_id())),
            });
        }
        match find_inline_node(parent, k) {
            Some(node) => {
                return LuaAst::cast(node);
            },
            None => {},
        }
        match find_attached_node(s, parent, k) {
            Some(node) => LuaAst::cast(node),
            None => None,
        }
    }

    /// The description of the comment: the first description among its
    /// children, unless a tag other than a visibility, export, version or
    /// nodiscard tag comes first.
    pub fn get_description(&self) -> (r: Option<LuaDocDescription<'a>>)
        ensures
            opt_node_is(r, self.spec_syntax(), spec_description_scan(*self.spec_syntax().spec_tree(), self.spec_syntax().spec_children(), 0)),
    {
        let s = self.syntax;
        let n = s.child_count();
        let mut k: usize = 0;
        while k < n
            invariant
                n == s.spec_children().len(),
                k <= n,
                s == self.spec_syntax(),
                spec_description_scan(*s.spec_tree(), s.spec_children(), 0)
                    == spec_description_scan(*s.spec_tree(), s.spec_children(), k as int),
            decreases n - k,
        {
            let e = s.child_at(k);
            match e {
                LuaSyntaxElement::Node(node) => {
                    let kind = node.kind();
                    if kind == LuaSyntaxKind::DocDescription {
                        return LuaDocDescription::cast(node);
                    }
                    if !is_additive_doc_tag(kind) {
                        return None;
                    }
                },
                LuaSyntaxElement::Token(_) => {},
            }
            k += 1;
        }
        None
    }
}

/// Generic parameters `<T, R>`.
#[derive(Debug, Clone, Copy)]
pub struct LuaDocGenericDeclList<'a> {
    syntax: LuaSyntaxNode<'a>,
}

impl<'a> LuaAstNode<'a> for LuaDocGenericDeclList<'a> {
    closed spec fn spec_syntax(&self) -> LuaSyntaxNode<'a> {
        self.syntax
    }

    open spec fn spec_can_cast(kind: LuaSyntaxKind) -> bool {
        kind == LuaSyntaxKind::DocGenericDeclareList
    }

    open spec fn spec_cast_ok(kind: LuaSyntaxKind) -> bool {
        Self::spec_can_cast(kind)
    }

    fn syntax(&self) -> (r: &LuaSyntaxNode<'a>) {
        &self.syntax
    }

    fn can_cast(kind: LuaSyntaxKind) -> (b: bool) {
        kind == LuaSyntaxKind::DocGenericDeclareList
    }

    fn cast(syntax: LuaSyntaxNode<'a>) -> (r: Option<Self>) {
        if Self::can_cast(syntax.kind()) {
            Some(LuaDocGenericDeclList { syntax })
        } else {
            None
        }
    }
}

impl<'a> LuaDocGenericDeclList<'a> {
    pub fn get_generic_decl(&self) -> (r: Vec<LuaDocGenericDecl<'a>>)
        ensures
            nodes_are(r@, self.spec_syntax(), child_ids(self.spec_syntax(), node_pred::<LuaDocGenericDecl<'a>>())),
    {
        children_of::<LuaDocGenericDecl<'a>>(self.syntax)
    }
}

/// A generic parameter: `T`, `T: Base`, `T ...`.
#[derive(Debug, Clone, Copy)]
pub struct LuaDocGenericDecl<'a> {
    syntax: LuaSyntaxNode<'a>,
}

impl<'a> LuaAstNode<'a> for LuaDocGenericDecl<'a> {
    closed spec fn spec_syntax(&self) -> LuaSyntaxNode<'a> {
        self.syntax
    }

    open spec fn spec_can_cast(kind: LuaSyntaxKind) -> bool {
        kind == LuaSyntaxKind::DocGenericParameter
    }

    open spec fn spec_cast_ok(kind: LuaSyntaxKind) -> bool {
        Self::spec_can_cast(kind)
    }

    fn syntax(&self) -> (r: &LuaSyntaxNode<'a>) {
        &self.syntax
    }

    fn can_cast(kind: LuaSyntaxKind) -> (b: bool) {
        kind == LuaSyntaxKind::DocGenericParameter
    }

    fn cast(syntax: LuaSyntaxNode<'a>) -> (r: Option<Self>) {
        if Self::can_cast(syntax.kind()) {
            Some(LuaDocGenericDecl { syntax })
        } else {
            None
        }
    }
}

impl<'a> LuaDocGenericDecl<'a> {
    pub fn get_name_token(&self) -> (r: Option<LuaNameToken<'a>>)
        ensures
            opt_token_is(r, self.spec_syntax(), first_child_id(self.spec_syntax(), token_pred::<LuaNameToken<'a>>())),
    {
        token_of::<LuaNameToken<'a>>(self.syntax)
    }

    pub fn get_type(&self) -> (r: Option<LuaDocType<'a>>)
        ensures
            opt_node_is(r, self.spec_syntax(), first_child_id(self.spec_syntax(), node_pred::<LuaDocType<'a>>())),
    {
        child_of::<LuaDocType<'a>>(self.syntax)
    }

    pub fn is_variadic(&self) -> (b: bool)
        ensures
            b == first_child_id(self.spec_syntax(), kind_pred(LuaTokenKind::TkDots)) is Some,
    {
        token_by_kind_of(self.syntax, LuaTokenKind::TkDots).is_some()
    }

    pub fn get_tag_attribute_use(&self) -> (r: Option<LuaDocTagAttributeUse<'a>>)
        ensures
            opt_node_is(r, self.spec_syntax(), first_child_id(self.spec_syntax(), node_pred::<LuaDocTagAttributeUse<'a>>())),
    {
        child_of::<LuaDocTagAttributeUse<'a>>(self.syntax)
    }
}

/// A list of types.
#[derive(Debug, Clone, Copy)]
pub struct LuaDocTypeList<'a> {
    syntax: LuaSyntaxNode<'a>,
}

impl<'a> LuaAstNode<'a> for LuaDocTypeList<'a> {
    closed spec fn spec_syntax(&self) -> LuaSyntaxNode<'a> {
        self.syntax
    }

    open spec fn spec_can_cast(kind: LuaSyntaxKind) -> bool {
        kind == LuaSyntaxKind::DocTypeList
    }

    open spec fn spec_cast_ok(kind: LuaSyntaxKind) -> bool {
        Self::spec_can_cast(kind)
    }

    fn syntax(&self) -> (r: &LuaSyntaxNode<'a>) {
        &self.syntax
    }

    fn can_cast(kind: LuaSyntaxKind) -> (b: bool) {
        kind == LuaSyntaxKind::DocTypeList
    }

    fn cast(syntax: LuaSyntaxNode<'a>) -> (r: Option<Self>) {
        if Self::can_cast(syntax.kind()) {
            Some(LuaDocTypeList { syntax })
        } else {
            None
        }
    }
}

impl<'a> LuaDocTypeList<'a> {
    pub fn get_types(&self) -> (r: Vec<LuaDocType<'a>>)
        ensures
            nodes_are(r@, self.spec_syntax(), child_ids(self.spec_syntax(), node_pred::<LuaDocType<'a>>())),
    {
        children_of::<LuaDocType<'a>>(self.syntax)
    }

    pub fn get_return_type_list(&self) -> (r: Vec<LuaDocNamedReturnType<'a>>)
        ensures
            nodes_are(r@, self.spec_syntax(), child_ids(self.spec_syntax(), node_pred::<LuaDocNamedReturnType<'a>>())),
    {
        children_of::<LuaDocNamedReturnType<'a>>(self.syntax)
    }
}

/// A cast operand: `+T`, `-T`, `+?`, `T`.
#[derive(Debug, Clone, Copy)]
pub struct LuaDocOpType<'a> {
    syntax: LuaSyntaxNode<'a>,
}

impl<'a> LuaAstNode<'a> for LuaDocOpType<'a> {
    closed spec fn spec_syntax(&self) -> LuaSyntaxNode<'a> {
        self.syntax
    }

    open spec fn spec_can_cast(kind: LuaSyntaxKind) -> bool {
        kind == LuaSyntaxKind::DocOpType
    }

    open spec fn spec_cast_ok(kind: LuaSyntaxKind) -> bool {
        Self::spec_can_cast(kind)
    }

    fn syntax(&self) -> (r: &LuaSyntaxNode<'a>) {
        &self.syntax
    }

    fn can_cast(kind: LuaSyntaxKind) -> (b: bool) {
        kind == LuaSyntaxKind::DocOpType
    }

    fn cast(syntax: LuaSyntaxNode<'a>) -> (r: Option<Self>) {
        if Self::can_cast(syntax.kind()) {
            Some(LuaDocOpType { syntax })
        } else {
            None
        }
    }
}

impl<'a> LuaDocOpType<'a> {
    pub fn get_op(&self) -> (r: Option<LuaBinaryOpToken<'a>>)
        ensures
            opt_token_is(r, self.spec_syntax(), first_child_id(self.spec_syntax(), token_pred::<LuaBinaryOpToken<'a>>())),
    {
        token_of::<LuaBinaryOpToken<'a>>(self.syntax)
    }

    pub fn get_type(&self) -> (r: Option<LuaDocType<'a>>)
        ensures
            opt_node_is(r, self.spec_syntax(), first_child_id(self.spec_syntax(), node_pred::<LuaDocType<'a>>())),
    {
        child_of::<LuaDocType<'a>>(self.syntax)
    }

    pub fn is_nullable(&self) -> (b: bool)
        ensures
            b == first_child_id(self.spec_syntax(), kind_pred(LuaTokenKind::TkDocQuestion)) is Some,
    {
        token_by_kind_of(self.syntax, LuaTokenKind::TkDocQuestion).is_some()
    }
}

/// A field of an object type.
#[derive(Debug, Clone, Copy)]
pub struct LuaDocObjectField<'a> {
    syntax: LuaSyntaxNode<'a>,
}

impl<'a> LuaAstNode<'a> for LuaDocObjectField<'a> {
    closed spec fn spec_syntax(&self) -> LuaSyntaxNode<'a> {
        self.syntax
    }

    open spec fn spec_can_cast(kind: LuaSyntaxKind) -> bool {
        kind == LuaSyntaxKind::DocObjectField
    }

    open spec fn spec_cast_ok(kind: LuaSyntaxKind) -> bool {
        Self::spec_can_cast(kind)
    }

    fn syntax(&self) -> (r: &LuaSyntaxNode<'a>) {
        &self.syntax
    }

    fn can_cast(kind: LuaSyntaxKind) -> (b: bool) {
        kind == LuaSyntaxKind::DocObjectField
    }

    fn cast(syntax: LuaSyntaxNode<'a>) -> (r: Option<Self>) {
        if Self::can_cast(syntax.kind()) {
            Some(LuaDocObjectField { syntax })
        } else {
            None
        }
    }
}

impl<'a> LuaDocObjectField<'a> {
    pub fn get_type(&self) -> (r: Option<LuaDocType<'a>>)
        ensures
            opt_node_is(r, self.spec_syntax(), last_child_id(self.spec_syntax(), node_pred::<LuaDocType<'a>>())),
    {
        last_child_of::<LuaDocType<'a>>(self.syntax)
    }

    pub fn is_nullable(&self) -> (b: bool)
        ensures
            b == first_child_id(self.spec_syntax(), kind_pred(LuaTokenKind::TkDocQuestion)) is Some,
    {
        token_by_kind_of(self.syntax, LuaTokenKind::TkDocQuestion).is_some()
    }

    /// The key of the field: its name, or the type in brackets (a string or
    /// integer literal type gives that literal).
    pub fn get_field_key(&self) -> (r: Option<LuaDocObjectFieldKey<'a>>)
        ensures
            object_key_is(r, self.spec_syntax(), spec_object_key_pos(*self.spec_syntax().spec_tree(), self.spec_syntax().spec_children(), 0)),
    {
        let s = self.syntax;
        let ghost t = *s.spec_tree();
        let n = s.child_count();
        let mut k: usize = 0;
        while k < n
            invariant
                n == s.spec_children().len(),
                k <= n,
                s == self.spec_syntax(),
                t == *s.spec_tree(),
                spec_object_key_pos(t, s.spec_children(), 0) == spec_object_key_pos(t, s.spec_children(), k as int),
            decreases n - k,
        {
            let e = s.child_at(k);
            match e {
                LuaSyntaxElement::Token(tok) => {
                    if tok.kind() == LuaTokenKind::TkName {
                        return match LuaNameToken::cast(tok) {
                            Some(nt) => Some(LuaDocObjectFieldKey::Name(nt)),
                            None => None,
                        };
                    }
                    if tok.kind() == LuaTokenKind::TkColon {
                        return None;
                    }
                },
                LuaSyntaxElement::Node(node) => {
                    if LuaDocType::can_cast(node.kind()) {
                        let doc_type = match LuaDocType::cast(node) {
                            Some(d) => d,
                            None => {
                                return None;
                            },
                        };
                        if doc_type.syntax().kind() == LuaSyntaxKind::TypeLiteral {
                            let literal = LuaDocLiteralType::cast(*doc_type.syntax()).unwrap();
                            {
                                let lit = match literal.get_literal() {
                                    Some(l) => l,
                                    None => {
                                        return None;
                                    },
                                };
                                let tok = *lit.syntax();
                                let lk = tok.kind();
                                if lk == LuaTokenKind::TkInt || lk == LuaTokenKind::TkFloat {
                                    match LuaNumberToken::cast(tok) {
                                        Some(num) => {
                                            return Some(LuaDocObjectFieldKey::Integer(num));
                                        },
                                        None => {},
                                    }
                                } else if lk == LuaTokenKind::TkString || lk == LuaTokenKind::TkLongString {
                                    match LuaStringToken::cast(tok) {
                                        Some(st) => {
                                            return Some(LuaDocObjectFieldKey::String(st));
                                        },
                                        None => {},
                                    }
                                }
                            }
                        }
                        return Some(LuaDocObjectFieldKey::Type(doc_type));
                    }
                },
            }
            k += 1;
        }
        None
    }
}

/// Type flags `(partial, global, ...)`.
#[derive(Debug, Clone, Copy)]
pub struct LuaDocTypeFlag<'a> {
    syntax: LuaSyntaxNode<'a>,
}

impl<'a> LuaAstNode<'a> for LuaDocTypeFlag<'a> {
    closed spec fn spec_syntax(&self) -> LuaSyntaxNode<'a> {
        self.syntax
    }

    open spec fn spec_can_cast(kind: LuaSyntaxKind) -> bool {
        kind == LuaSyntaxKind::DocTypeFlag
    }

    open spec fn spec_cast_ok(kind: LuaSyntaxKind) -> bool {
        Self::spec_can_cast(kind)
    }

    fn syntax(&self) -> (r: &LuaSyntaxNode<'a>) {
        &self.syntax
    }

    fn can_cast(kind: LuaSyntaxKind) -> (b: bool) {
        kind == LuaSyntaxKind::DocTypeFlag
    }

    fn cast(syntax: LuaSyntaxNode<'a>) -> (r: Option<Self>) {
        if Self::can_cast(syntax.kind()) {
            Some(LuaDocTypeFlag { syntax })
        } else {
            None
        }
    }
}

impl<'a> LuaDocTypeFlag<'a> {
    pub fn get_attrib_tokens(&self) -> (r: Vec<LuaNameToken<'a>>)
        ensures
            tokens_are(r@, self.spec_syntax(), child_ids(self.spec_syntax(), token_pred::<LuaNameToken<'a>>())),
    {
        tokens_of::<LuaNameToken<'a>>(self.syntax)
    }
}

/// A return of a function type, maybe with a name.
#[derive(Debug, Clone, Copy)]
pub struct LuaDocNamedReturnType<'a> {
    syntax: LuaSyntaxNode<'a>,
}

impl<'a> LuaAstNode<'a> for LuaDocNamedReturnType<'a> {
    closed spec fn spec_syntax(&self) -> LuaSyntaxNode<'a> {
        self.syntax
    }

    open spec fn spec_can_cast(kind: LuaSyntaxKind) -> bool {
        kind == LuaSyntaxKind::DocNamedReturnType
    }

    open spec fn spec_cast_ok(kind: LuaSyntaxKind) -> bool {
        Self::spec_can_cast(kind)
    }

    fn syntax(&self) -> (r: &LuaSyntaxNode<'a>) {
        &self.syntax
    }

    fn can_cast(kind: LuaSyntaxKind) -> (b: bool) {
        kind == LuaSyntaxKind::DocNamedReturnType
    }

    fn cast(syntax: LuaSyntaxNode<'a>) -> (r: Option<Self>) {
        if Self::can_cast(syntax.kind()) {
            Some(LuaDocNamedReturnType { syntax })
        } else {
            None
        }
    }
}

impl<'a> LuaDocNamedReturnType<'a> {
    /// The name and the type of the return: a single type, or a name type
    /// and the type after it.
    pub fn get_name_and_type(&self) -> (r: (Option<LuaNameToken<'a>>, Option<LuaDocType<'a>>))
        ensures
            ({
                let t = *self.spec_syntax().spec_tree();
                let ids = child_ids(self.spec_syntax(), node_pred::<LuaDocType<'a>>());
                if ids.len() == 1 {
                    r.0 is None && opt_node_is(r.1, self.spec_syntax(), Some(ids[0] as int))
                } else if ids.len() == 2 && t.kind_of(ids[0] as int) == LuaKind::Syntax(LuaSyntaxKind::TypeName) {
                    &&& opt_token_is(r.0, self.spec_syntax(), first_child_id_in(t, ids[0] as int, token_pred::<LuaNameToken<'a>>()))
                    &&& opt_node_is(r.1, self.spec_syntax(), Some(ids[1] as int))
                } else {
                    r.0 is None && r.1 is None
                }
            }),
    {
        let types = children_of::<LuaDocType<'a>>(self.syntax);
        if types.len() == 1 {
            (None, Some(types[0]))
        } else if types.len() == 2 {
            if types[0].syntax().kind() == LuaSyntaxKind::TypeName {
                let name = LuaDocNameType::cast(*types[0].syntax()).unwrap();
                (name.get_name_token(), Some(types[1]))
            } else {
                (None, None)
            }
        } else {
            (None, None)
        }
    }
}

/// One attribute use: `name` or `name(args)`.
#[derive(Debug, Clone, Copy)]
pub struct LuaDocAttributeUse<'a> {
    syntax: LuaSyntaxNode<'a>,
}

impl<'a> LuaAstNode<'a> for LuaDocAttributeUse<'a> {
    closed spec fn spec_syntax(&self) -> LuaSyntaxNode<'a> {
        self.syntax
    }

    open spec fn spec_can_cast(kind: LuaSyntaxKind) -> bool {
        kind == LuaSyntaxKind::DocAttributeUse
    }

    open spec fn spec_cast_ok(kind: LuaSyntaxKind) -> bool {
        Self::spec_can_cast(kind)
    }

    fn syntax(&self) -> (r: &LuaSyntaxNode<'a>) {
        &self.syntax
    }

    fn can_cast(kind: LuaSyntaxKind) -> (b: bool) {
        kind == LuaSyntaxKind::DocAttributeUse
    }

    fn cast(syntax: LuaSyntaxNode<'a>) -> (r: Option<Self>) {
        if Self::can_cast(syntax.kind()) {
            Some(LuaDocAttributeUse { syntax })
        } else {
            None
        }
    }
}

impl<'a> LuaDocAttributeUse<'a> {
    pub fn get_type(&self) -> (r: Option<LuaDocNameType<'a>>)
        ensures
            opt_node_is(r, self.spec_syntax(), first_child_id(self.spec_syntax(), node_pred::<LuaDocNameType<'a>>())),
    {
        child_of::<LuaDocNameType<'a>>(self.syntax)
    }

    pub fn get_arg_list(&self) -> (r: Option<LuaDocAttributeCallArgList<'a>>)
        ensures
            opt_node_is(r, self.spec_syntax(), first_child_id(self.spec_syntax(), node_pred::<LuaDocAttributeCallArgList<'a>>())),
    {
        child_of::<LuaDocAttributeCallArgList<'a>>(self.syntax)
    }
}

/// The arguments of an attribute use.
#[derive(Debug, Clone, Copy)]
pub struct LuaDocAttributeCallArgList<'a> {
    syntax: LuaSyntaxNode<'a>,
}

impl<'a> LuaAstNode<'a> for LuaDocAttributeCallArgList<'a> {
    closed spec fn spec_syntax(&self) -> LuaSyntaxNode<'a> {
        self.syntax
    }

    open spec fn spec_can_cast(kind: LuaSyntaxKind) -> bool {
        kind == LuaSyntaxKind::DocAttributeCallArgList
    }

    open spec fn spec_cast_ok(kind: LuaSyntaxKind) -> bool {
        Self::spec_can_cast(kind)
    }

    fn syntax(&self) -> (r: &LuaSyntaxNode<'a>) {
        &self.syntax
    }

    fn can_cast(kind: LuaSyntaxKind) -> (b: bool) {
        kind == LuaSyntaxKind::DocAttributeCallArgList
    }

    fn cast(syntax: LuaSyntaxNode<'a>) -> (r: Option<Self>) {
        if Self::can_cast(syntax.kind()) {
            Some(LuaDocAttributeCallArgList { syntax })
        } else {
            None
        }
    }
}

impl<'a> LuaDocAttributeCallArgList<'a> {
    pub fn get_args(&self) -> (r: Vec<LuaDocType<'a>>)
        ensures
            nodes_are(r@, self.spec_syntax(), child_ids(self.spec_syntax(), node_pred::<LuaDocType<'a>>())),
    {
        children_of::<LuaDocType<'a>>(self.syntax)
    }
}

/// The generic arguments of a call.
#[derive(Debug, Clone, Copy)]
pub struct LuaDocTagCallGeneric<'a> {
    syntax: LuaSyntaxNode<'a>,
}

impl<'a> LuaAstNode<'a> for LuaDocTagCallGeneric<'a> {
    closed spec fn spec_syntax(&self) -> LuaSyntaxNode<'a> {
        self.syntax
    }

    open spec fn spec_can_cast(kind: LuaSyntaxKind) -> bool {
        kind == LuaSyntaxKind::DocTagCallGeneric
    }

    open spec fn spec_cast_ok(kind: LuaSyntaxKind) -> bool {
        Self::spec_can_cast(kind)
    }

    fn syntax(&self) -> (r: &LuaSyntaxNode<'a>) {
        &self.syntax
    }

    fn can_cast(kind: LuaSyntaxKind) -> (b: bool) {
        kind == LuaSyntaxKind::DocTagCallGeneric
    }

    fn cast(syntax: LuaSyntaxNode<'a>) -> (r: Option<Self>) {
        if Self::can_cast(syntax.kind()) {
            Some(LuaDocTagCallGeneric { syntax })
        } else {
            None
        }
    }
}

impl<'a> LuaDocTagCallGeneric<'a> {
    pub fn get_type_list(&self) -> (r: Option<LuaDocTypeList<'a>>)
        ensures
            opt_node_is(r, self.spec_syntax(), first_child_id(self.spec_syntax(), node_pred::<LuaDocTypeList<'a>>())),
    {
        child_of::<LuaDocTypeList<'a>>(self.syntax)
    }
}

/// A description text.
#[derive(Debug, Clone, Copy)]
pub struct LuaDocDescription<'a> {
    syntax: LuaSyntaxNode<'a>,
}

impl<'a> LuaAstNode<'a> for LuaDocDescription<'a> {
    closed spec fn spec_syntax(&self) -> LuaSyntaxNode<'a> {
        self.syntax
    }

    open spec fn spec_can_cast(kind: LuaSyntaxKind) -> bool {
        kind == LuaSyntaxKind::DocDescription
    }

    open spec fn spec_cast_ok(kind: LuaSyntaxKind) -> bool {
        Self::spec_can_cast(kind)
    }

    fn syntax(&self) -> (r: &LuaSyntaxNode<'a>) {
        &self.syntax
    }

    fn can_cast(kind: LuaSyntaxKind) -> (b: bool) {
        kind == LuaSyntaxKind::DocDescription
    }

    fn cast(syntax: LuaSyntaxNode<'a>) -> (r: Option<Self>) {
        if Self::can_cast(syntax.kind()) {
            Some(LuaDocDescription { syntax })
        } else {
            None
        }
    }
}

impl<'a> LuaDocDescription<'a> {
    /// The text of the description: its lines from their comment markers on
    /// (without the marker's dashes and the white space tokens after them),
    /// joined by line feeds.
    pub fn get_description_text(&self) -> (r: String)
        ensures
            r@ == spec_description_text(*self.spec_syntax().spec_tree(), self.spec_syntax().spec_children()),
    {
        let s = self.syntax;
        let ghost t = *s.spec_tree();
        let ghost cs = s.spec_children();
        let n = s.child_count();
        let mut done: Vec<char> = Vec::new();
        let mut line: Vec<char> = Vec::new();
        let mut seen = false;
        let mut k: usize = 0;
        while k < n
            invariant
                n == cs.len(),
                k <= n,
                s == self.spec_syntax(),
                t == *s.spec_tree(),
                cs == s.spec_children(),
                (done@, line@, seen) == desc_fold(t, cs, k as int),
            decreases n - k,
        {
            match s.child_at(k) {
                LuaSyntaxElement::Token(tok) => {
                    let kind = tok.kind();
                    if kind == LuaTokenKind::TkEndOfLine {
                        done.append(&mut line);
                        done.push('\n');
                        seen = false;
                    } else if is_line_marker(kind) && !seen {
                        let mut fresh: Vec<char> = Vec::new();
                        push_without_dashes(&mut fresh, tok.text());
                        line = fresh;
                        seen = true;
                    } else if kind == LuaTokenKind::TkWhitespace {
                    } else {
                        let text = tok.text();
                        let mut j: usize = 0;
                        let ghost before = line@;
                        while j < text.len()
                            invariant
                                j <= text@.len(),
                                line@ == before + text@.subrange(0, j as int),
                            decreases text@.len() - j,
                        {
                            line.push(text[j]);
                            j += 1;
                            assert(line@ =~= before + text@.subrange(0, j as int));
                        }
                        assert(text@.subrange(0, text@.len() as int) =~= text@);
                    }
                },
                LuaSyntaxElement::Node(_) => {},
            }
            k += 1;
        }
        done.append(&mut line);
        let len = done.len();
        chars_to_string(&done, 0, len)
    }
}

} // verus!
