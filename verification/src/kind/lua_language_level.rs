use vstd::prelude::*;

verus! {

/// The Lua dialect that the lexer and parser accept.
#[derive(Debug, Clone, Copy, PartialEq, Eq, Hash, Structural)]
pub enum LuaLanguageLevel {
    Lua51,
    LuaJIT,
    Lua52,
    Lua53,
    Lua54,
    Lua55,
}

/// Position of a level in the order `Lua51 < LuaJIT < Lua52 < ... < Lua55`.
pub open spec fn level_rank(level: LuaLanguageLevel) -> int {
    match level {
        LuaLanguageLevel::Lua51 => 0,
        LuaLanguageLevel::LuaJIT => 1,
        LuaLanguageLevel::Lua52 => 2,
        LuaLanguageLevel::Lua53 => 3,
        LuaLanguageLevel::Lua54 => 4,
        LuaLanguageLevel::Lua55 => 5,
    }
}

impl LuaLanguageLevel {
    pub fn rank(&self) -> (r: u8)
        ensures
            r == level_rank(*self),
    {
        match self {
            LuaLanguageLevel::Lua51 => 0,
            LuaLanguageLevel::LuaJIT => 1,
            LuaLanguageLevel::Lua52 => 2,
            LuaLanguageLevel::Lua53 => 3,
            LuaLanguageLevel::Lua54 => 4,
            LuaLanguageLevel::Lua55 => 5,
        }
    }

    /// Whether `self` comes at or after `other` in the order of levels.
    pub fn at_least(&self, other: LuaLanguageLevel) -> (r: bool)
        ensures
            r == (level_rank(*self) >= level_rank(other)),
    {
        self.rank() >= other.rank()
    }
}

} // verus!
