//! The decoder direction: how decode callbacks are routed, how an awaited
//! decode reports its outcome, the decoder's property settings, and the
//! multi-image frame record.

use vstd::prelude::*;

use crate::compression::PropertySetting;
use crate::error::{OSStatus, VTError};
use crate::ffi;
use crate::session::CFValue;
use crate::tagged_buffer_group::TaggedBufferGroup;
use crate::text::{decimal, decimal_string, parse_i32, parse_i32_text};

verus! {

/// One decoded multi-image frame.
pub struct DecodedMultiImageFrame {
    /// Multi-image output (for example left/right eye pixel buffers).
    pub tagged_buffer_group: Option<TaggedBufferGroup>,
    /// Presentation timestamp of the source sample buffer.
    pub presentation_time: (i64, i32),
    /// Presentation duration of the decoded frame.
    pub duration: (i64, i32),
    /// Decoder hint flags (asynchronous / image-buffer-modifiable / etc.).
    pub info_flags: u32,
    /// Apple's decoder status code. 0 indicates success.
    pub status: i32,
}

/// Where one decoder output callback goes.
#[derive(Debug, Clone, Copy, PartialEq, Eq, Structural)]
pub enum DecodeRoute {
    /// The frame belongs to an awaited decode: complete that decode.
    Awaited,
    /// The session's own callback receives the frame.
    Deliver,
    /// Nobody can receive the frame; it is dropped.
    Discard,
}

/// Routes one decoder output callback: a per-frame context marks an awaited
/// decode, which takes precedence; otherwise the frame goes to the session's
/// callback when the session registered one.
pub fn route_decode_callback(has_frame_context: bool, has_session_context: bool) -> (r:
    DecodeRoute)
    ensures
        has_frame_context ==> r == DecodeRoute::Awaited,
        !has_frame_context && has_session_context ==> r == DecodeRoute::Deliver,
        !has_frame_context && !has_session_context ==> r == DecodeRoute::Discard,
{
    if has_frame_context {
        DecodeRoute::Awaited
    } else if has_session_context {
        DecodeRoute::Deliver
    } else {
        DecodeRoute::Discard
    }
}

/// The operation named when an awaited decode is handed a sample buffer
/// that does not hold exactly one sample.
pub const DECODE_FRAME_ASYNC: &'static str = "DecompressionSession::decode_frame_async";

/// Checks, before submission, that an awaited decode gets exactly one
/// sample: its output can complete only one pending decode.
pub fn single_sample_result(operation: &'static str, sample_count: i64) -> (r: Result<
    (),
    VTError,
>)
    ensures
        sample_count == 1 ==> r is Ok,
        sample_count != 1 ==> r == Err::<(), VTError>(
            VTError::UnexpectedSampleCount { operation, expected: 1, actual: sample_count },
        ),
{
    if sample_count == 1 {
        Ok(())
    } else {
        Err(VTError::UnexpectedSampleCount { operation, expected: 1, actual: sample_count })
    }
}

/// The status an awaited decode's failure message stands for: the message
/// read as an `i32`, or `-1` when it is not one.
pub open spec fn spec_async_status(message: Seq<char>) -> OSStatus {
    match parse_i32(message) {
        Some(s) => s,
        None => -1i32,
    }
}

/// Reads back the status carried by an awaited decode's failure message.
pub fn parse_async_status(error: &str) -> (r: OSStatus)
    ensures
        r == spec_async_status(error@),
{
    match parse_i32_text(error) {
        Some(s) => s,
        None => -1i32,
    }
}

/// How an awaited decode completes: a non-zero status fails with the status
/// in decimal; a missing image fails with `"-1"`; otherwise the image is
/// handed over.
pub open spec fn spec_async_completion(status: OSStatus, image_is_null: bool) -> Result<
    (),
    Seq<char>,
> {
    if status != 0 {
        Err(decimal(status as int))
    } else if image_is_null {
        Err("-1"@)
    } else {
        Ok(())
    }
}

/// Decides how the output callback completes an awaited decode.
pub fn complete_async_decode(status: OSStatus, image_is_null: bool) -> (r: Result<(), String>)
    ensures
        r matches Ok(_) ==> spec_async_completion(status, image_is_null) == Ok::<(), Seq<char>>(()),
        r matches Err(m) ==> spec_async_completion(status, image_is_null) == Err::<(), Seq<char>>(
            m@,
        ),
{
    if status != 0 {
        return Err(decimal_string(status));
    }
    if image_is_null {
        proof {
            reveal_strlit("-1");
        }
        return Err("-1".to_owned());
    }
    Ok(())
}

/// The error an awaited decode reports for a failure message.
pub fn async_decode_error(message: &str) -> (r: VTError)
    ensures
        r == VTError::EncoderCallback(spec_async_status(message@)),
{
    VTError::EncoderCallback(parse_async_status(message))
}

/// Maps the status of a decoder call reported as
/// [`VTError::EncoderCallback`] (`VTDecompressionSessionCreate`,
/// `DecodeFrame`, `WaitForAsynchronousFrames`, `FinishDelayedFrames`).
pub fn decoder_status_result(status: OSStatus) -> (r: Result<(), VTError>)
    ensures
        status == 0 ==> r is Ok,
        status != 0 ==> r == Err::<(), VTError>(VTError::EncoderCallback(status)),
{
    if status == 0 {
        Ok(())
    } else {
        Err(VTError::EncoderCallback(status))
    }
}

/// Settles the multi-image callback slot after
/// `VTDecompressionSessionSetMultiImageCallback` ran: on refusal the
/// callback just installed is removed again and the call is reported.
pub fn settle_multi_image_callback<F>(slot: &mut Option<F>, status: OSStatus) -> (r: Result<
    (),
    VTError,
>)
    ensures
        status == 0 ==> r is Ok && *final(slot) == *old(slot),
        status != 0 ==> *final(slot) is None && r == Err::<(), VTError>(
            VTError::ApiFailed { api: "VTDecompressionSessionSetMultiImageCallback", status },
        ),
{
    if status != 0 {
        *slot = None;
        return Err(
            VTError::ApiFailed { api: "VTDecompressionSessionSetMultiImageCallback", status },
        );
    }
    Ok(())
}

/// The `VTSessionSetProperty` call made by `set_real_time` on a decoder.
pub fn real_time_setting(real_time: bool) -> (r: PropertySetting)
    ensures
        r == (PropertySetting {
            key: ffi::kVTDecompressionPropertyKey_RealTime,
            name: "<custom>",
            value: CFValue::Boolean(real_time),
        }),
{
    PropertySetting {
        key: ffi::kVTDecompressionPropertyKey_RealTime,
        name: "<custom>",
        value: CFValue::Boolean(real_time),
    }
}

/// The `VTSessionSetProperty` call made by `set_max_output_buffer_depth`.
pub fn max_output_buffer_depth_setting(depth: i32) -> (r: PropertySetting)
    ensures
        r == (PropertySetting {
            key: ffi::kVTDecompressionPropertyKey_MaximumOutputBufferDepth,
            name: "<custom>",
            value: CFValue::SInt32(depth),
        }),
{
    PropertySetting {
        key: ffi::kVTDecompressionPropertyKey_MaximumOutputBufferDepth,
        name: "<custom>",
        value: CFValue::SInt32(depth),
    }
}

/// An awaited decode whose decoder reports a non-zero status fails with
/// exactly that status; one that completes without an image fails with `-1`.
pub proof fn lemma_async_decode_reports_status(status: OSStatus, image_is_null: bool)
    ensures
        spec_async_completion(status, image_is_null) matches Err(m) ==> VTError::EncoderCallback(
            spec_async_status(m),
        ) == VTError::EncoderCallback(if status != 0 {
            status
        } else {
            -1i32
        }),
{
    crate::text::lemma_parse_decimal_round_trip(status);
    crate::text::lemma_parse_decimal_round_trip(-1i32);
    reveal_strlit("-1");
    assert(decimal(-1) =~= "-1"@) by {
        assert(crate::text::nat_digits(1) == seq![crate::text::digit_char(1)]);
    }
}

} // verus!
