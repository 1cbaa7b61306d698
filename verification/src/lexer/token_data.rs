use vstd::prelude::*;

use crate::kind::lua_token_kind::LuaTokenKind;
use crate::text::text_range::SourceRange;

verus! {

/// A token: its kind and its byte range in the source.
#[derive(Debug, Clone, Copy, PartialEq, Eq, Structural)]
pub struct LuaTokenData {
    pub kind: LuaTokenKind,
    pub range: SourceRange,
}

impl LuaTokenData {
    pub fn new(kind: LuaTokenKind, range: SourceRange) -> (r: Self)
        ensures
            r.kind == kind,
            r.range == range,
    {
        LuaTokenData { kind, range }
    }
}

} // verus!
