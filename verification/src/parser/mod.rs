pub mod lua_doc_parser;
pub mod lua_parser;
pub mod marker;
pub mod parser_config;
pub mod parser_error;
