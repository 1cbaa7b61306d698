use vstd::prelude::*;

use crate::kind::lua_language_level::level_rank;
use crate::kind::lua_language_level::LuaLanguageLevel;
use crate::kind::lua_non_std_symbol::LuaNonStdSymbolSet;

verus! {

/// What the lexer accepts: a language level and non-standard symbols.
#[derive(Debug, Clone, Copy, PartialEq, Eq, Structural)]
pub struct LexerConfig {
    pub language_level: LuaLanguageLevel,
    pub non_std_symbols: LuaNonStdSymbolSet,
}

impl LexerConfig {
    pub fn support_goto(&self) -> (r: bool)
        ensures
            r == (level_rank(self.language_level) >= level_rank(LuaLanguageLevel::Lua52)
                || self.language_level == LuaLanguageLevel::LuaJIT),
    {
        self.language_level.at_least(LuaLanguageLevel::Lua52) || self.language_level
            == LuaLanguageLevel::LuaJIT
    }

    pub fn support_complex_number(&self) -> (r: bool)
        ensures
            r == (self.language_level == LuaLanguageLevel::LuaJIT),
    {
        self.language_level == LuaLanguageLevel::LuaJIT
    }

    pub fn support_ll_integer(&self) -> (r: bool)
        ensures
            r == (self.language_level == LuaLanguageLevel::LuaJIT),
    {
        self.language_level == LuaLanguageLevel::LuaJIT
    }

    pub fn support_binary_integer(&self) -> (r: bool)
        ensures
            r == (self.language_level == LuaLanguageLevel::LuaJIT),
    {
        self.language_level == LuaLanguageLevel::LuaJIT
    }

    pub fn support_integer_operation(&self) -> (r: bool)
        ensures
            r == (level_rank(self.language_level) >= level_rank(LuaLanguageLevel::Lua53)),
    {
        self.language_level.at_least(LuaLanguageLevel::Lua53)
    }

    pub fn support_global_decl(&self) -> (r: bool)
        ensures
            r == (level_rank(self.language_level) >= level_rank(LuaLanguageLevel::Lua55)),
    {
        self.language_level.at_least(LuaLanguageLevel::Lua55)
    }

    /// Lua 5.4 with no non-standard symbols.
    pub fn default() -> (r: LexerConfig)
        ensures
            r.language_level == LuaLanguageLevel::Lua54,
            r.non_std_symbols.contents() == Set::<
                crate::kind::lua_non_std_symbol::LuaNonStdSymbol,
            >::empty(),
    {
        LexerConfig {
            language_level: LuaLanguageLevel::Lua54,
            non_std_symbols: LuaNonStdSymbolSet::new(),
        }
    }
}

} // verus!
