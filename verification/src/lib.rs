pub mod grammar;
pub mod kind;
pub mod lexer;
pub mod ls;
pub mod parser;
pub mod syntax;
pub mod text;

pub use kind::lua_non_std_symbol::LuaNonStdSymbol;
pub use kind::lua_non_std_symbol::LuaNonStdSymbolSet;
pub use kind::lua_syntax_kind::LuaSyntaxKind;
pub use kind::lua_token_kind::LuaTokenKind;
pub use text::text_range::SourceRange;
