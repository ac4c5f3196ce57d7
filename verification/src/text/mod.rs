//! Draw and interact with text.
pub mod rich;
