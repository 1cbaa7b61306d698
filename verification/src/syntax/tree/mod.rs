pub mod green_builder;
pub mod syntax_tree;
pub mod tree_builder;
