//! The most common imports.

pub use crate::compression::{CompressionSession, CompressionSessionBuilder};
pub use crate::error::VTError;
pub use crate::session::Codec;
pub use crate::transfer::{PixelRotationSession, PixelTransferSession, Rotation};
