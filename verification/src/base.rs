//! Typed status codes shared by the native sessions.

pub mod error;
