pub mod lua_language_level;
pub mod lua_non_std_symbol;
pub mod lua_operator_kind;
pub mod lua_syntax_kind;
pub mod lua_version;
pub mod lua_token_kind;
pub mod lua_visibility_kind;
pub mod lua_kind;
