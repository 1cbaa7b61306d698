pub mod lex_spec;
pub mod lexer_config;
pub mod lua_doc_lexer;
pub mod lua_lexer;
pub mod token_data;
pub mod unicode;
