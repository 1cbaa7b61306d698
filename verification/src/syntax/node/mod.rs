pub mod doc;
pub mod lua;
pub mod token;
