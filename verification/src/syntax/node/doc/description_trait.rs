use vstd::prelude::*;

use crate::kind::lua_kind::LuaKind;
use crate::kind::lua_syntax_kind::LuaSyntaxKind;
use crate::kind::lua_token_kind::LuaTokenKind;
use crate::syntax::node::doc::LuaDocDescription;
use crate::syntax::node::doc::tag::{
    LuaDocTagAlias, LuaDocTagAttribute, LuaDocTagCast, LuaDocTagClass, LuaDocTagDeprecated, LuaDocTagDiagnostic,
    LuaDocTagEnum, LuaDocTagExport, LuaDocTagField, LuaDocTagGeneric, LuaDocTagLanguage, LuaDocTagModule,
    LuaDocTagNamespace, LuaDocTagNodiscard, LuaDocTagOperator, LuaDocTagOther, LuaDocTagOverload, LuaDocTagParam,
    LuaDocTagReadonly, LuaDocTagReturn, LuaDocTagReturnCast, LuaDocTagSee, LuaDocTagSource, LuaDocTagType,
    LuaDocTagUsing, LuaDocTagVersion,
};
use crate::syntax::traits::LuaAstNode;
use crate::syntax::tree::syntax_tree::{LuaSyntaxElement, LuaSyntaxNode, LuaSyntaxTree};

verus! {

/// Looking back from position `j` of the children `cs` (at most `steps`
/// siblings) for a run of blanks and comment markers that ends in a line
/// end or comment marker: `false` when found (or when the siblings run out),
/// `true` when something else comes first.
pub open spec fn inline_check(t: LuaSyntaxTree, cs: Seq<usize>, j: int, steps: int) -> bool
    decreases steps,
{
    if steps <= 0 || j < 0 || j >= cs.len() {
        false
    } else {
        match t.kind_of(cs[j] as int) {
            LuaKind::Token(k) => if k == LuaTokenKind::TkWhitespace || k == LuaTokenKind::TkDocContinue {
                inline_check(t, cs, j - 1, steps - 1)
            } else if k == LuaTokenKind::TkEndOfLine || k == LuaTokenKind::TkNormalStart {
                false
            } else {
                true
            },
            LuaKind::Syntax(_) => true,
        }
    }
}

/// Looking back from position `j` of the children `cs` (at most `steps`
/// siblings, over blanks, comment markers and one line end) for a
/// description on a line of its own.
pub open spec fn attached_description_scan(t: LuaSyntaxTree, cs: Seq<usize>, j: int, steps: int, meet: bool) -> Option<int>
    decreases steps,
{
    if steps <= 0 || j < 0 || j >= cs.len() {
        None
    } else {
        let c = cs[j] as int;
        match t.kind_of(c) {
            LuaKind::Token(k) => if k == LuaTokenKind::TkWhitespace || k == LuaTokenKind::TkDocContinue || k
                == LuaTokenKind::TkDocStart {
                attached_description_scan(t, cs, j - 1, steps - 1, meet)
            } else if k == LuaTokenKind::TkEndOfLine {
                if meet {
                    None
                } else {
                    attached_description_scan(t, cs, j - 1, steps - 1, true)
                }
            } else {
                None
            },
            LuaKind::Syntax(s) => if s == LuaSyntaxKind::DocDescription && !inline_check(t, cs, j - 1, 4) {
                Some(c)
            } else {
                None
            },
        }
    }
}

/// Looking ahead from position `j` of the children `cs` (at most `steps`
/// siblings, over blanks) for a description.
pub open spec fn inline_description_scan(t: LuaSyntaxTree, cs: Seq<usize>, j: int, steps: int) -> Option<int>
    decreases steps,
{
    if steps <= 0 || j < 0 || j >= cs.len() {
        None
    } else {
        let c = cs[j] as int;
        match t.kind_of(c) {
            LuaKind::Token(k) => if k == LuaTokenKind::TkWhitespace {
                inline_description_scan(t, cs, j + 1, steps - 1)
            } else {
                None
            },
            LuaKind::Syntax(s) => if s == LuaSyntaxKind::DocDescription {
                Some(c)
            } else {
                None
            },
        }
    }
}

/// The description above the element `id`: at most six siblings back, over
/// blanks, markers and one line end.
pub open spec fn spec_attached_description(t: LuaSyntaxTree, id: int) -> Option<int> {
    match t.parent_of(id) {
        Some((p, k)) => attached_description_scan(t, t.children_of(p as int), k - 1, 6, false),
        None => None,
    }
}

/// The description after the element `id` on its line: at most four
/// siblings ahead, over blanks.
pub open spec fn spec_inline_description(t: LuaSyntaxTree, id: int) -> Option<int> {
    match t.parent_of(id) {
        Some((p, k)) => inline_description_scan(t, t.children_of(p as int), k + 1, 4),
        None => None,
    }
}

/// The element ids in `a`, as a sequence of at most one.
pub open spec fn opt_ids(a: Option<int>) -> Seq<int> {
    match a {
        Some(x) => seq![x],
        None => Seq::empty(),
    }
}

/// `v` holds the descriptions of `node`'s tree with the element ids `ids`, in order.
pub open spec fn descriptions_are<'a>(v: Seq<LuaDocDescription<'a>>, node: LuaSyntaxNode<'a>, ids: Seq<int>) -> bool {
    &&& v.len() == ids.len()
    &&& forall|i: int| 0 <= i < v.len() ==> {
        &&& (#[trigger] v[i]).spec_syntax().spec_id() == ids[i]
        &&& v[i].spec_syntax().spec_tree() == node.spec_tree()
    }
}

fn check_is_inline_description<'a>(parent: LuaSyntaxNode<'a>, j: usize) -> (b: bool)
    requires
        j < parent.spec_children().len(),
    ensures
        b == inline_check(*parent.spec_tree(), parent.spec_children(), j - 1, 4),
{
    let ghost t = *parent.spec_tree();
    let ghost cs = parent.spec_children();
    let mut i = j;
    let mut steps: usize = 4;
    while steps > 0 && i > 0
        invariant
            i <= j < cs.len(),
            steps <= 4,
            cs == parent.spec_children(),
            t == *parent.spec_tree(),
            inline_check(t, cs, j - 1, 4) == inline_check(t, cs, i - 1, steps as int),
        decreases steps,
    {
        match parent.child_at(i - 1) {
            LuaSyntaxElement::Token(tok) => {
                let kind = tok.kind();
                if kind == LuaTokenKind::TkWhitespace || kind == LuaTokenKind::TkDocContinue {
                } else if kind == LuaTokenKind::TkEndOfLine || kind == LuaTokenKind::TkNormalStart {
                    return false;
                } else {
                    return true;
                }
            },
            LuaSyntaxElement::Node(_) => {
                return true;
            },
        }
        i -= 1;
        steps -= 1;
    }
    false
}

/// The description node above `node`.
fn find_attached_description<'a>(node: LuaSyntaxNode<'a>) -> (r: Option<LuaSyntaxNode<'a>>)
    ensures
        r is Some == spec_attached_description(*node.spec_tree(), node.spec_id()) is Some,
        r matches Some(d) ==> {
            &&& d.spec_tree() == node.spec_tree()
            &&& d.spec_id() == spec_attached_description(*node.spec_tree(), node.spec_id())->0
            &&& d.spec_kind() == LuaSyntaxKind::DocDescription
        },
{
    let (parent, k) = match node.index_in_parent() {
        Some(pk) => pk,
        None => {
            return None;
        },
    };
    let ghost t = *parent.spec_tree();
    let ghost cs = parent.spec_children();
    let mut meet_end_of_line = false;
    let mut i = k;
    let mut steps: usize = 6;
    while steps > 0 && i > 0
        invariant
            i <= k < cs.len(),
            steps <= 6,
            cs == parent.spec_children(),
            t == *parent.spec_tree(),
            parent.spec_tree() == node.spec_tree(),
            spec_attached_description(*node.spec_tree(), node.spec_id()) == attached_description_scan(
                t,
                cs,
                i - 1,
                steps as int,
                meet_end_of_line,
            ),
        decreases steps,
    {
        match parent.child_at(i - 1) {
            LuaSyntaxElement::Token(tok) => {
                let kind = tok.kind();
                if kind == LuaTokenKind::TkWhitespace || kind == LuaTokenKind::TkDocContinue || kind
                    == LuaTokenKind::TkDocStart {
                } else if kind == LuaTokenKind::TkEndOfLine {
                    if meet_end_of_line {
                        return None;
                    }
                    meet_end_of_line = true;
                } else {
                    return None;
                }
            },
            LuaSyntaxElement::Node(n) => {
                if n.kind() == LuaSyntaxKind::DocDescription && !check_is_inline_description(parent, i - 1) {
                    return Some(n);
                }
                return None;
            },
        }
        i -= 1;
        steps -= 1;
    }
    None
}

/// The description after `node` on its line.
fn find_inline_description<'a>(node: LuaSyntaxNode<'a>) -> (r: Option<LuaSyntaxNode<'a>>)
    ensures
        r is Some == spec_inline_description(*node.spec_tree(), node.spec_id()) is Some,
        r matches Some(d) ==> {
            &&& d.spec_tree() == node.spec_tree()
            &&& d.spec_id() == spec_inline_description(*node.spec_tree(), node.spec_id())->0
            &&& d.spec_kind() == LuaSyntaxKind::DocDescription
        },
{
    let (parent, k) = match node.index_in_parent() {
        Some(pk) => pk,
        None => {
            return None;
        },
    };
    let ghost t = *parent.spec_tree();
    let ghost cs = parent.spec_children();
    let n = parent.child_count();
    let mut i = k + 1;
    let mut steps: usize = 4;
    while steps > 0 && i < n
        invariant
            k < n == cs.len(),
            k + 1 <= i <= n,
            steps <= 4,
            cs == parent.spec_children(),
            t == *parent.spec_tree(),
            parent.spec_tree() == node.spec_tree(),
            spec_inline_description(*node.spec_tree(), node.spec_id()) == inline_description_scan(
                t,
                cs,
                i as int,
                steps as int,
            ),
        decreases steps,
    {
        match parent.child_at(i) {
            LuaSyntaxElement::Token(tok) => {
                if tok.kind() != LuaTokenKind::TkWhitespace {
                    return None;
                }
            },
            LuaSyntaxElement::Node(d) => {
                if d.kind() == LuaSyntaxKind::DocDescription {
                    return Some(d);
                }
                return None;
            },
        }
        i += 1;
        steps -= 1;
    }
    None
}

/// The description after `node` on its line.
pub fn inline_description_of<'a>(node: LuaSyntaxNode<'a>) -> (r: Option<LuaDocDescription<'a>>)
    ensures
        r is Some == spec_inline_description(*node.spec_tree(), node.spec_id()) is Some,
        r matches Some(d) ==> {
            &&& d.spec_syntax().spec_tree() == node.spec_tree()
            &&& d.spec_syntax().spec_id() == spec_inline_description(*node.spec_tree(), node.spec_id())->0
        },
{
    match find_inline_description(node) {
        Some(n) => LuaDocDescription::cast(n),
        None => None,
    }
}

/// The description above `node`, then the one after it on its line, where
/// there are such.
pub fn descriptions_of<'a>(node: LuaSyntaxNode<'a>) -> (r: Vec<LuaDocDescription<'a>>)
    ensures
        descriptions_are(
            r@,
            node,
            opt_ids(spec_attached_description(*node.spec_tree(), node.spec_id())) + opt_ids(
                spec_inline_description(*node.spec_tree(), node.spec_id()),
            ),
        ),
{
    let mut descriptions: Vec<LuaDocDescription<'a>> = Vec::new();
    let ghost a = opt_ids(spec_attached_description(*node.spec_tree(), node.spec_id()));
    let ghost b = opt_ids(spec_inline_description(*node.spec_tree(), node.spec_id()));
    if let Some(attached) = find_attached_description(node) {
        if let Some(d) = LuaDocDescription::cast(attached) {
            descriptions.push(d);
        }
    }
    assert(descriptions_are(descriptions@, node, a));
    if let Some(d) = inline_description_of(node) {
        descriptions.push(d);
    }
    assert(a + b =~= (if b.len() == 0 { a } else { a.push(b[0]) }));
    descriptions
}

/// A doc node that a description may follow on its line or stand above.
pub trait LuaDocDescriptionOwner<'a>: LuaAstNode<'a> {
    /// The description after the node on its line.
    fn get_description(&self) -> (r: Option<LuaDocDescription<'a>>)
        ensures
            r is Some == spec_inline_description(*self.spec_syntax().spec_tree(), self.spec_syntax().spec_id())
                is Some,
            r matches Some(d) ==> {
                &&& d.spec_syntax().spec_tree() == self.spec_syntax().spec_tree()
                &&& d.spec_syntax().spec_id() == spec_inline_description(
                    *self.spec_syntax().spec_tree(),
                    self.spec_syntax().spec_id(),
                )->0
            },
    ;

    /// The description above the node, then the one after it on its line,
    /// where there are such.
    fn get_descriptions(&self) -> (r: Vec<LuaDocDescription<'a>>)
        ensures
            descriptions_are(
                r@,
                self.spec_syntax(),
                opt_ids(spec_attached_description(*self.spec_syntax().spec_tree(), self.spec_syntax().spec_id()))
                    + opt_ids(spec_inline_description(*self.spec_syntax().spec_tree(), self.spec_syntax().spec_id())),
            ),
    ;
}

impl<'a> LuaDocDescriptionOwner<'a> for LuaDocTagClass<'a> {
    fn get_description(&self) -> (r: Option<LuaDocDescription<'a>>) {
        inline_description_of(*self.syntax())
    }

    fn get_descriptions(&self) -> (r: Vec<LuaDocDescription<'a>>) {
        descriptions_of(*self.syntax())
    }
}

impl<'a> LuaDocDescriptionOwner<'a> for LuaDocTagEnum<'a> {
    fn get_description(&self) -> (r: Option<LuaDocDescription<'a>>) {
        inline_description_of(*self.syntax())
    }

    fn get_descriptions(&self) -> (r: Vec<LuaDocDescription<'a>>) {
        descriptions_of(*self.syntax())
    }
}

impl<'a> LuaDocDescriptionOwner<'a> for LuaDocTagAlias<'a> {
    fn get_description(&self) -> (r: Option<LuaDocDescription<'a>>) {
        inline_description_of(*self.syntax())
    }

    fn get_descriptions(&self) -> (r: Vec<LuaDocDescription<'a>>) {
        descriptions_of(*self.syntax())
    }
}

impl<'a> LuaDocDescriptionOwner<'a> for LuaDocTagType<'a> {
    fn get_description(&self) -> (r: Option<LuaDocDescription<'a>>) {
        inline_description_of(*self.syntax())
    }

    fn get_descriptions(&self) -> (r: Vec<LuaDocDescription<'a>>) {
        descriptions_of(*self.syntax())
    }
}

impl<'a> LuaDocDescriptionOwner<'a> for LuaDocTagParam<'a> {
    fn get_description(&self) -> (r: Option<LuaDocDescription<'a>>) {
        inline_description_of(*self.syntax())
    }

    fn get_descriptions(&self) -> (r: Vec<LuaDocDescription<'a>>) {
        descriptions_of(*self.syntax())
    }
}

impl<'a> LuaDocDescriptionOwner<'a> for LuaDocTagReturn<'a> {
    fn get_description(&self) -> (r: Option<LuaDocDescription<'a>>) {
        inline_description_of(*self.syntax())
    }

    fn get_descriptions(&self) -> (r: Vec<LuaDocDescription<'a>>) {
        descriptions_of(*self.syntax())
    }
}

impl<'a> LuaDocDescriptionOwner<'a> for LuaDocTagOverload<'a> {
    fn get_description(&self) -> (r: Option<LuaDocDescription<'a>>) {
        inline_description_of(*self.syntax())
    }

    fn get_descriptions(&self) -> (r: Vec<LuaDocDescription<'a>>) {
        descriptions_of(*self.syntax())
    }
}

impl<'a> LuaDocDescriptionOwner<'a> for LuaDocTagField<'a> {
    fn get_description(&self) -> (r: Option<LuaDocDescription<'a>>) {
        inline_description_of(*self.syntax())
    }

    fn get_descriptions(&self) -> (r: Vec<LuaDocDescription<'a>>) {
        descriptions_of(*self.syntax())
    }
}

impl<'a> LuaDocDescriptionOwner<'a> for LuaDocTagModule<'a> {
    fn get_description(&self) -> (r: Option<LuaDocDescription<'a>>) {
        inline_description_of(*self.syntax())
    }

    fn get_descriptions(&self) -> (r: Vec<LuaDocDescription<'a>>) {
        descriptions_of(*self.syntax())
    }
}

impl<'a> LuaDocDescriptionOwner<'a> for LuaDocTagSee<'a> {
    fn get_description(&self) -> (r: Option<LuaDocDescription<'a>>) {
        inline_description_of(*self.syntax())
    }

    fn get_descriptions(&self) -> (r: Vec<LuaDocDescription<'a>>) {
        descriptions_of(*self.syntax())
    }
}

impl<'a> LuaDocDescriptionOwner<'a> for LuaDocTagDiagnostic<'a> {
    fn get_description(&self) -> (r: Option<LuaDocDescription<'a>>) {
        inline_description_of(*self.syntax())
    }

    fn get_descriptions(&self) -> (r: Vec<LuaDocDescription<'a>>) {
        descriptions_of(*self.syntax())
    }
}

impl<'a> LuaDocDescriptionOwner<'a> for LuaDocTagDeprecated<'a> {
    fn get_description(&self) -> (r: Option<LuaDocDescription<'a>>) {
        inline_description_of(*self.syntax())
    }

    fn get_descriptions(&self) -> (r: Vec<LuaDocDescription<'a>>) {
        descriptions_of(*self.syntax())
    }
}

impl<'a> LuaDocDescriptionOwner<'a> for LuaDocTagVersion<'a> {
    fn get_description(&self) -> (r: Option<LuaDocDescription<'a>>) {
        inline_description_of(*self.syntax())
    }

    fn get_descriptions(&self) -> (r: Vec<LuaDocDescription<'a>>) {
        descriptions_of(*self.syntax())
    }
}

impl<'a> LuaDocDescriptionOwner<'a> for LuaDocTagCast<'a> {
    fn get_description(&self) -> (r: Option<LuaDocDescription<'a>>) {
        inline_description_of(*self.syntax())
    }

    fn get_descriptions(&self) -> (r: Vec<LuaDocDescription<'a>>) {
        descriptions_of(*self.syntax())
    }
}

impl<'a> LuaDocDescriptionOwner<'a> for LuaDocTagSource<'a> {
    fn get_description(&self) -> (r: Option<LuaDocDescription<'a>>) {
        inline_description_of(*self.syntax())
    }

    fn get_descriptions(&self) -> (r: Vec<LuaDocDescription<'a>>) {
        descriptions_of(*self.syntax())
    }
}

impl<'a> LuaDocDescriptionOwner<'a> for LuaDocTagOther<'a> {
    fn get_description(&self) -> (r: Option<LuaDocDescription<'a>>) {
        inline_description_of(*self.syntax())
    }

    fn get_descriptions(&self) -> (r: Vec<LuaDocDescription<'a>>) {
        descriptions_of(*self.syntax())
    }
}

impl<'a> LuaDocDescriptionOwner<'a> for LuaDocTagNamespace<'a> {
    fn get_description(&self) -> (r: Option<LuaDocDescription<'a>>) {
        inline_description_of(*self.syntax())
    }

    fn get_descriptions(&self) -> (r: Vec<LuaDocDescription<'a>>) {
        descriptions_of(*self.syntax())
    }
}

impl<'a> LuaDocDescriptionOwner<'a> for LuaDocTagUsing<'a> {
    fn get_description(&self) -> (r: Option<LuaDocDescription<'a>>) {
        inline_description_of(*self.syntax())
    }

    fn get_descriptions(&self) -> (r: Vec<LuaDocDescription<'a>>) {
        descriptions_of(*self.syntax())
    }
}

impl<'a> LuaDocDescriptionOwner<'a> for LuaDocTagNodiscard<'a> {
    fn get_description(&self) -> (r: Option<LuaDocDescription<'a>>) {
        inline_description_of(*self.syntax())
    }

    fn get_descriptions(&self) -> (r: Vec<LuaDocDescription<'a>>) {
        descriptions_of(*self.syntax())
    }
}

impl<'a> LuaDocDescriptionOwner<'a> for LuaDocTagReadonly<'a> {
    fn get_description(&self) -> (r: Option<LuaDocDescription<'a>>) {
        inline_description_of(*self.syntax())
    }

    fn get_descriptions(&self) -> (r: Vec<LuaDocDescription<'a>>) {
        descriptions_of(*self.syntax())
    }
}

impl<'a> LuaDocDescriptionOwner<'a> for LuaDocTagOperator<'a> {
    fn get_description(&self) -> (r: Option<LuaDocDescription<'a>>) {
        inline_description_of(*self.syntax())
    }

    fn get_descriptions(&self) -> (r: Vec<LuaDocDescription<'a>>) {
        descriptions_of(*self.syntax())
    }
}

impl<'a> LuaDocDescriptionOwner<'a> for LuaDocTagGeneric<'a> {
    fn get_description(&self) -> (r: Option<LuaDocDescription<'a>>) {
        inline_description_of(*self.syntax())
    }

    fn get_descriptions(&self) -> (r: Vec<LuaDocDescription<'a>>) {
        descriptions_of(*self.syntax())
    }
}

impl<'a> LuaDocDescriptionOwner<'a> for LuaDocTagReturnCast<'a> {
    fn get_description(&self) -> (r: Option<LuaDocDescription<'a>>) {
        inline_description_of(*self.syntax())
    }

    fn get_descriptions(&self) -> (r: Vec<LuaDocDescription<'a>>) {
        descriptions_of(*self.syntax())
    }
}

impl<'a> LuaDocDescriptionOwner<'a> for LuaDocTagExport<'a> {
    fn get_description(&self) -> (r: Option<LuaDocDescription<'a>>) {
        inline_description_of(*self.syntax())
    }

    fn get_descriptions(&self) -> (r: Vec<LuaDocDescription<'a>>) {
        descriptions_of(*self.syntax())
    }
}

impl<'a> LuaDocDescriptionOwner<'a> for LuaDocTagLanguage<'a> {
    fn get_description(&self) -> (r: Option<LuaDocDescription<'a>>) {
        inline_description_of(*self.syntax())
    }

    fn get_descriptions(&self) -> (r: Vec<LuaDocDescription<'a>>) {
        descriptions_of(*self.syntax())
    }
}

impl<'a> LuaDocDescriptionOwner<'a> for LuaDocTagAttribute<'a> {
    fn get_description(&self) -> (r: Option<LuaDocDescription<'a>>) {
        inline_description_of(*self.syntax())
    }

    fn get_descriptions(&self) -> (r: Vec<LuaDocDescription<'a>>) {
        descriptions_of(*self.syntax())
    }
}

} // verus!
