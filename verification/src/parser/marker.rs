use vstd::prelude::*;

use crate::kind::lua_syntax_kind::LuaSyntaxKind;
use crate::kind::lua_token_kind::LuaTokenKind;
use crate::text::text_range::SourceRange;

verus! {

/// One step of a parse, recorded in order; a tree is built from them.
///
/// `NodeStart.parent` is the index of a later `NodeStart` event that becomes
/// the parent of this node (0 when there is none).
#[derive(Debug, Clone, Copy, PartialEq, Eq, Structural)]
pub enum MarkEvent {
    NodeStart { kind: LuaSyntaxKind, parent: usize },
    EatToken { kind: LuaTokenKind, range: SourceRange },
    Trivia,
    NodeEnd,
}

impl MarkEvent {
    /// The event that stands for nothing: a node start of no kind.
    pub fn none() -> (e: MarkEvent)
        ensures
            e == (MarkEvent::NodeStart { kind: LuaSyntaxKind::NoneKind, parent: 0 }),
    {
        MarkEvent::NodeStart { kind: LuaSyntaxKind::NoneKind, parent: 0 }
    }
}

/// An open node: the index of its `NodeStart` event.
#[derive(Debug, Clone, Copy, PartialEq, Eq, Structural)]
pub struct Marker {
    pub position: usize,
}

impl Marker {
    pub fn new(position: usize) -> (m: Marker)
        ensures
            m.position == position,
    {
        Marker { position }
    }
}

/// A finished node: the indices of its `NodeStart` and `NodeEnd` events.
#[derive(Debug, Clone, Copy, PartialEq, Eq, Structural)]
pub struct CompleteMarker {
    pub start: usize,
    pub finish: usize,
    pub kind: LuaSyntaxKind,
}

impl CompleteMarker {
    pub fn empty() -> (m: CompleteMarker)
        ensures
            m.start == 0 && m.finish == 0 && m.kind == LuaSyntaxKind::NoneKind,
    {
        CompleteMarker { start: 0, finish: 0, kind: LuaSyntaxKind::NoneKind }
    }

    /// Whether the marker stands for no node.
    pub fn is_invalid(&self) -> (b: bool)
        ensures
            b == (self.kind == LuaSyntaxKind::NoneKind),
    {
        self.kind == LuaSyntaxKind::NoneKind
    }
}

} // verus!
