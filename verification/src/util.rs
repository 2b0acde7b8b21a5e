//! Small shared value types.
pub mod vec2di32;
pub mod rect;
