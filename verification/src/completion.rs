//! Completion support: the span/trait vocabulary and the default completers.

pub mod base;
pub mod circular;
pub mod default;
