//! Nested progress tasks drawn as a tree on an ANSI terminal: the task stack,
//! the escape sequences that draw it, and the decisions of the spinner loop.

pub mod laws;
pub mod render;
pub mod spinner;
pub mod stack;
pub mod text;
pub mod tree;
