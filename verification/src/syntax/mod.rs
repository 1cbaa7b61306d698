pub mod children;
pub mod node;
pub mod traits;
pub mod tree;
