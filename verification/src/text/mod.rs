pub mod char_width;
pub mod reader;
pub mod strings;
pub mod text_range;
pub mod line_index;
