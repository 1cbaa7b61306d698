pub mod tokens;
pub mod string_analyzer;
pub mod number_analyzer;
