use vstd::prelude::*;

use crate::kind::lua_language_level::{LuaLanguageLevel, level_rank};
use crate::kind::lua_non_std_symbol::LuaNonStdSymbolSet;
use crate::lexer::lexer_config::LexerConfig;
use crate::text::strings::vec_eq_str;

verus! {

/// Functions whose calls the parser gives a node kind of their own.
#[derive(Debug, Clone, Copy, PartialEq, Eq, Structural)]
pub enum SpecialFunction {
    None_,
    Require,
    Error,
    Assert,
    Type,
    Setmatable,
}

/// The special function that a name stands for by itself: the standard
/// `require`, `error`, `assert`, `type` and `setmetatable`.
pub open spec fn builtin_special(name: Seq<char>) -> SpecialFunction {
    if name == "require"@ {
        SpecialFunction::Require
    } else if name == "error"@ {
        SpecialFunction::Error
    } else if name == "assert"@ {
        SpecialFunction::Assert
    } else if name == "type"@ {
        SpecialFunction::Type
    } else if name == "setmetatable"@ {
        SpecialFunction::Setmatable
    } else {
        SpecialFunction::None_
    }
}

/// The first entry of `like` from `i` on whose name is `name`.
pub open spec fn special_like_from(like: Seq<(Seq<char>, SpecialFunction)>, name: Seq<char>, i: int) -> SpecialFunction
    decreases like.len() - i,
{
    if i < 0 || i >= like.len() {
        SpecialFunction::None_
    } else if like[i].0 == name {
        like[i].1
    } else {
        special_like_from(like, name, i + 1)
    }
}

/// A name declared in `like` stands for the function of its first
/// declaration from `i` on; a name declared nowhere from `i` on for none.
pub proof fn lemma_first_declaration_counts(like: Seq<(Seq<char>, SpecialFunction)>, name: Seq<char>, i: int, k: int)
    requires
        0 <= i <= k <= like.len(),
        forall|j: int| i <= j < k ==> #[trigger] like[j].0 != name,
    ensures
        k < like.len() && like[k].0 == name ==> special_like_from(like, name, i) == like[k].1,
        k == like.len() ==> special_like_from(like, name, i) == SpecialFunction::None_,
    decreases k - i,
{
    if i < k {
        lemma_first_declaration_counts(like, name, i + 1, k);
    }
}

/// What the parser accepts: a language level, and names that behave like
/// the special functions.
#[derive(Debug, Clone)]
pub struct ParserConfig {
    level: LuaLanguageLevel,
    lexer_config: LexerConfig,
    special_like: Vec<(String, SpecialFunction)>,
}

impl ParserConfig {
    pub closed spec fn spec_level(&self) -> LuaLanguageLevel {
        self.level
    }

    pub closed spec fn spec_lexer_config(&self) -> LexerConfig {
        self.lexer_config
    }

    /// The names declared to behave like special functions, in order.
    pub closed spec fn spec_special_like(&self) -> Seq<(Seq<char>, SpecialFunction)> {
        self.special_like@.map_values(|e: (String, SpecialFunction)| (e.0@, e.1))
    }

    /// The special function that `name` stands for under this config.
    pub open spec fn spec_special(&self, name: Seq<char>) -> SpecialFunction {
        if builtin_special(name) != SpecialFunction::None_ {
            builtin_special(name)
        } else {
            special_like_from(self.spec_special_like(), name, 0)
        }
    }

    /// A config for `level`, with `special_like` naming further functions
    /// that behave like the special ones.
    pub fn new(level: LuaLanguageLevel, special_like: Vec<(String, SpecialFunction)>) -> (c: ParserConfig)
        ensures
            c.spec_level() == level,
            c.spec_lexer_config().language_level == level,
            c.spec_lexer_config().non_std_symbols.contents() == Set::<
                crate::kind::lua_non_std_symbol::LuaNonStdSymbol,
            >::empty(),
            c.spec_special_like() == special_like@.map_values(|e: (String, SpecialFunction)| (e.0@, e.1)),
    {
        ParserConfig {
            level,
            lexer_config: LexerConfig { language_level: level, non_std_symbols: LuaNonStdSymbolSet::new() },
            special_like,
        }
    }

    /// A config for `level` with no further special functions.
    pub fn with_level(level: LuaLanguageLevel) -> (c: ParserConfig)
        ensures
            c.spec_level() == level,
            c.spec_lexer_config().language_level == level,
            c.spec_special_like().len() == 0,
    {
        let c = ParserConfig::new(level, Vec::new());
        assert(c.spec_special_like() =~= Seq::empty());
        c
    }

    /// The language level.
    pub fn level(&self) -> (l: LuaLanguageLevel)
        ensures
            l == self.spec_level(),
    {
        self.level
    }

    /// The config of the lexer that reads the text.
    pub fn lexer_config(&self) -> (c: LexerConfig)
        ensures
            c == self.spec_lexer_config(),
    {
        self.lexer_config
    }

    /// Whether `local x <const>` attributes are part of the language.
    pub fn support_local_attrib(&self) -> (b: bool)
        ensures
            b == (level_rank(self.spec_level()) >= level_rank(LuaLanguageLevel::Lua54)),
    {
        self.level.at_least(LuaLanguageLevel::Lua54)
    }

    /// The special function that the name `name` stands for.
    pub fn get_special_function(&self, name: &Vec<char>) -> (f: SpecialFunction)
        ensures
            f == self.spec_special(name@),
    {
        if vec_eq_str(name, "require") {
            return SpecialFunction::Require;
        }
        if vec_eq_str(name, "error") {
            return SpecialFunction::Error;
        }
        if vec_eq_str(name, "assert") {
            return SpecialFunction::Assert;
        }
        if vec_eq_str(name, "type") {
            return SpecialFunction::Type;
        }
        if vec_eq_str(name, "setmetatable") {
            return SpecialFunction::Setmatable;
        }
        let n = self.special_like.len();
        let mut i: usize = 0;
        while i < n
            invariant
                n == self.special_like@.len(),
                i <= n,
                builtin_special(name@) == SpecialFunction::None_,
                special_like_from(self.spec_special_like(), name@, 0)
                    == special_like_from(self.spec_special_like(), name@, i as int),
            decreases n - i,
        {
            let entry = &self.special_like[i];
            assert(self.spec_special_like()[i as int] == (entry.0@, entry.1));
            if vec_eq_str(name, entry.0.as_str()) {
                return entry.1;
            }
            i += 1;
        }
        SpecialFunction::None_
    }
}

impl Default for ParserConfig {
    /// Lua 5.4 with no further special functions.
    fn default() -> (c: ParserConfig)
        ensures
            c.spec_level() == LuaLanguageLevel::Lua54,
            c.spec_lexer_config().language_level == LuaLanguageLevel::Lua54,
            c.spec_special_like().len() == 0,
    {
        ParserConfig::with_level(LuaLanguageLevel::Lua54)
    }
}

} // verus!
