//! Verified core of the `VideoToolbox` bindings: codec and constant tables,
//! error reporting, encoder configuration, and the state machines that drive
//! the native sessions.
#![allow(non_upper_case_globals, non_snake_case)]

pub mod async_api;
pub mod base;
pub mod compression;
pub mod decompression;
pub mod encoder_list;
pub mod error;
pub mod ffi;
pub mod frame_processor;
pub mod hdr_metadata;
pub mod motion_estimation;
pub mod multipass;
pub mod prelude;
pub mod raw_processing;
pub mod session;
pub mod tagged_buffer_group;
pub mod text;
pub mod transfer;
pub mod utilities;

pub use compression::{CompressionSession, CompressionSessionBuilder, ProfileLevel};
pub use decompression::DecodedMultiImageFrame;
pub use encoder_list::VideoEncoder;
pub use error::VTError;
pub use frame_processor::{
    FrameProcessor, FrameProcessorCapabilities, FrameProcessorSubmissionMode,
    FrameRateConversionSubmissionMode, SuperResolutionModelStatus,
};
pub use hdr_metadata::HdrMetadataSession;
pub use motion_estimation::MotionEstimationSession;
pub use multipass::{FrameSilo, MultiPassStorage};
pub use raw_processing::RawProcessingParameter;
pub use session::Codec;
pub use tagged_buffer_group::TaggedBufferGroup;
pub use transfer::{
    DownsamplingMode, PixelRotationSession, PixelTransferSession, Rotation, ScalingMode,
};
