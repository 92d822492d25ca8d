//! Accessors for awaiting the library's callback-shaped completions.

pub use crate::compression::AsyncCompressionSession;
