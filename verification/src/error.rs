//! Errors produced by `VideoToolbox` APIs.

use vstd::prelude::*;
use vstd::string::StringExecFns;

use crate::text::{decimal, push_decimal};

verus! {

/// Status code returned by Apple's C APIs (`0` is success).
pub type OSStatus = i32;

/// Top-level error returned by all fallible APIs in this crate.
///
/// Wraps Apple's `OSStatus` and tags the call site so the user can tell
/// "the encoder failed to create" apart from "the encoder rejected this frame".
#[derive(Debug, Clone, PartialEq, Eq)]
#[non_exhaustive]
pub enum VTError {
    /// `VTCompressionSessionCreate` returned non-zero.
    SessionCreateFailed(OSStatus),
    /// `VTSessionSetProperty` returned non-zero. The String identifies which property.
    SetPropertyFailed { key: String, status: OSStatus },
    /// `VTCompressionSessionPrepareToEncodeFrames` returned non-zero.
    PrepareFailed(OSStatus),
    /// `VTCompressionSessionEncodeFrame` returned non-zero.
    EncodeFailed(OSStatus),
    /// `VTCompressionSessionCompleteFrames` returned non-zero.
    CompleteFailed(OSStatus),
    /// `CVPixelBufferCreateWithIOSurface` returned non-zero or NULL.
    PixelBufferCreateFailed(i32),
    /// The user-supplied async callback reported a non-zero status when
    /// encoding a frame.
    EncoderCallback(OSStatus),
    /// A specific `VideoToolbox` / `CoreVideo` / `CoreMedia` API returned non-zero.
    ApiFailed { api: &'static str, status: OSStatus },
    /// An invalid argument was supplied (e.g. zero width).
    InvalidArgument(String),
    /// A symbol this crate resolves at run time is missing from the running
    /// system; `minimum` names the first macOS release that has it.
    Unsupported { api: &'static str, minimum: &'static str },
    /// A blocking bridge call gave up waiting for the framework.
    TimedOut { operation: &'static str },
    /// A sample buffer held another number of samples than the operation
    /// takes.
    UnexpectedSampleCount { operation: &'static str, expected: i64, actual: i64 },
}

/// The `OSStatus` an error carries, if it came from a `VideoToolbox` call.
pub open spec fn spec_status(e: VTError) -> Option<OSStatus> {
    match e {
        VTError::SessionCreateFailed(s) => Some(s),
        VTError::SetPropertyFailed { status, .. } => Some(status),
        VTError::PrepareFailed(s) => Some(s),
        VTError::EncodeFailed(s) => Some(s),
        VTError::CompleteFailed(s) => Some(s),
        VTError::EncoderCallback(s) => Some(s),
        VTError::ApiFailed { status, .. } => Some(status),
        VTError::PixelBufferCreateFailed(_) => None,
        VTError::InvalidArgument(_) => None,
        VTError::Unsupported { .. } => None,
        VTError::TimedOut { .. } => None,
        VTError::UnexpectedSampleCount { .. } => None,
    }
}

/// How `{:?}` renders a string: quoted, with special characters escaped.
pub uninterp spec fn debug_text(s: Seq<char>) -> Seq<char>;

/// `format!("{:?}", s)`: the `Debug` rendering of a string.
#[verifier::external_body]
fn debug_quoted(s: &str) -> (r: String)
    ensures
        r@ == debug_text(s@),
{
    format!("{:?}", s)
}

/// The human-readable message of an error (what `Display` prints).
pub open spec fn spec_message(e: VTError) -> Seq<char> {
    match e {
        VTError::SessionCreateFailed(s) => "VTCompressionSessionCreate failed: "@ + decimal(s as int),
        VTError::SetPropertyFailed { key, status } => "VTSessionSetProperty("@ + debug_text(key@)
            + ") failed: "@ + decimal(status as int),
        VTError::PrepareFailed(s) => "VTCompressionSessionPrepareToEncodeFrames failed: "@
            + decimal(s as int),
        VTError::EncodeFailed(s) => "VTCompressionSessionEncodeFrame failed: "@ + decimal(s as int),
        VTError::CompleteFailed(s) => "VTCompressionSessionCompleteFrames failed: "@ + decimal(
            s as int,
        ),
        VTError::PixelBufferCreateFailed(s) => "CVPixelBufferCreateWithIOSurface failed: "@
            + decimal(s as int),
        VTError::EncoderCallback(s) => "encoder callback reported status "@ + decimal(s as int),
        VTError::ApiFailed { api, status } => api@ + " failed: "@ + decimal(status as int),
        VTError::InvalidArgument(m) => "invalid argument: "@ + m@,
        VTError::Unsupported { api, minimum } => api@ + " requires macOS "@ + minimum@
            + " or newer"@,
        VTError::TimedOut { operation } => operation@ + " timed out"@,
        VTError::UnexpectedSampleCount { operation, expected, actual } => operation@
            + " expected "@ + decimal(expected as int) + " sample(s), got "@ + decimal(
            actual as int,
        ),
    }
}

impl VTError {
    /// Underlying `OSStatus` if the error originated from a VT call.
    pub fn status(&self) -> (r: Option<OSStatus>)
        ensures
            r == spec_status(*self),
    {
        match self {
            Self::SessionCreateFailed(s) => Some(*s),
            Self::SetPropertyFailed { status, .. } => Some(*status),
            Self::PrepareFailed(s) => Some(*s),
            Self::EncodeFailed(s) => Some(*s),
            Self::CompleteFailed(s) => Some(*s),
            Self::EncoderCallback(s) => Some(*s),
            Self::ApiFailed { status, .. } => Some(*status),
            Self::PixelBufferCreateFailed(_) => None,
            Self::InvalidArgument(_) => None,
            Self::Unsupported { .. } => None,
            Self::TimedOut { .. } => None,
            Self::UnexpectedSampleCount { .. } => None,
        }
    }

    /// The message `Display` prints for this error.
    pub fn to_string(&self) -> (r: String)
        ensures
            r@ == spec_message(*self),
    {
        let mut out = String::new();
        match self {
            Self::SessionCreateFailed(s) => {
                out.append("VTCompressionSessionCreate failed: ");
                push_decimal(&mut out, *s as i64);
            },
            Self::SetPropertyFailed { key, status } => {
                out.append("VTSessionSetProperty(");
                let quoted = debug_quoted(key.as_str());
                out.append(quoted.as_str());
                out.append(") failed: ");
                push_decimal(&mut out, *status as i64);
            },
            Self::PrepareFailed(s) => {
                out.append("VTCompressionSessionPrepareToEncodeFrames failed: ");
                push_decimal(&mut out, *s as i64);
            },
            Self::EncodeFailed(s) => {
                out.append("VTCompressionSessionEncodeFrame failed: ");
                push_decimal(&mut out, *s as i64);
            },
            Self::CompleteFailed(s) => {
                out.append("VTCompressionSessionCompleteFrames failed: ");
                push_decimal(&mut out, *s as i64);
            },
            Self::PixelBufferCreateFailed(s) => {
                out.append("CVPixelBufferCreateWithIOSurface failed: ");
                push_decimal(&mut out, *s as i64);
            },
            Self::EncoderCallback(s) => {
                out.append("encoder callback reported status ");
                push_decimal(&mut out, *s as i64);
            },
            Self::ApiFailed { api, status } => {
                out.append(api);
                out.append(" failed: ");
                push_decimal(&mut out, *status as i64);
            },
            Self::InvalidArgument(m) => {
                out.append("invalid argument: ");
                out.append(m.as_str());
            },
            Self::Unsupported { api, minimum } => {
                out.append(api);
                out.append(" requires macOS ");
                out.append(minimum);
                out.append(" or newer");
            },
            Self::TimedOut { operation } => {
                out.append(operation);
                out.append(" timed out");
            },
            Self::UnexpectedSampleCount { operation, expected, actual } => {
                out.append(operation);
                out.append(" expected ");
                push_decimal(&mut out, *expected);
                out.append(" sample(s), got ");
                push_decimal(&mut out, *actual);
            },
        }
        out
    }
}

} // verus!
