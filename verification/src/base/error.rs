//! Typed `VideoToolbox` status codes (`kVT*Err` values from `VTErrors.h`).

use vstd::prelude::*;
use vstd::string::StringExecFns;

use crate::error::OSStatus;
use crate::text::{decimal, push_decimal};

verus! {
pub const PROPERTY_NOT_SUPPORTED: OSStatus = -12900;
pub const PROPERTY_READ_ONLY: OSStatus = -12901;
pub const PARAMETER: OSStatus = -12902;
pub const INVALID_SESSION: OSStatus = -12903;
pub const ALLOCATION_FAILED: OSStatus = -12904;
pub const PIXEL_TRANSFER_NOT_SUPPORTED: OSStatus = -12905;
pub const COULD_NOT_FIND_VIDEO_DECODER: OSStatus = -12906;
pub const COULD_NOT_CREATE_INSTANCE: OSStatus = -12907;
pub const COULD_NOT_FIND_VIDEO_ENCODER: OSStatus = -12908;
pub const VIDEO_DECODER_BAD_DATA: OSStatus = -12909;
pub const VIDEO_DECODER_UNSUPPORTED_DATA_FORMAT: OSStatus = -12910;
pub const VIDEO_DECODER_MALFUNCTION: OSStatus = -12911;
pub const VIDEO_ENCODER_MALFUNCTION: OSStatus = -12912;
pub const VIDEO_DECODER_NOT_AVAILABLE_NOW: OSStatus = -12913;
pub const PIXEL_ROTATION_NOT_SUPPORTED: OSStatus = -12914;
pub const VIDEO_ENCODER_NOT_AVAILABLE_NOW: OSStatus = -12915;
pub const FORMAT_DESCRIPTION_CHANGE_NOT_SUPPORTED: OSStatus = -12916;
pub const INSUFFICIENT_SOURCE_COLOR_DATA: OSStatus = -12917;
pub const COULD_NOT_CREATE_COLOR_CORRECTION_DATA: OSStatus = -12918;
pub const COLOR_SYNC_TRANSFORM_CONVERT_FAILED: OSStatus = -12919;
pub const VIDEO_DECODER_AUTHORIZATION: OSStatus = -12210;
pub const VIDEO_ENCODER_AUTHORIZATION: OSStatus = -12211;
pub const COLOR_CORRECTION_PIXEL_TRANSFER_FAILED: OSStatus = -12212;
pub const MULTI_PASS_STORAGE_IDENTIFIER_MISMATCH: OSStatus = -12213;
pub const MULTI_PASS_STORAGE_INVALID: OSStatus = -12214;
pub const FRAME_SILO_INVALID_TIME_STAMP: OSStatus = -12215;
pub const FRAME_SILO_INVALID_TIME_RANGE: OSStatus = -12216;
pub const COULD_NOT_FIND_TEMPORAL_FILTER: OSStatus = -12217;
pub const PIXEL_TRANSFER_NOT_PERMITTED: OSStatus = -12218;
pub const COLOR_CORRECTION_IMAGE_ROTATION_FAILED: OSStatus = -12219;
pub const VIDEO_DECODER_REMOVED: OSStatus = -17690;
pub const SESSION_MALFUNCTION: OSStatus = -17691;
pub const VIDEO_DECODER_NEEDS_ROSETTA: OSStatus = -17692;
pub const VIDEO_ENCODER_NEEDS_ROSETTA: OSStatus = -17693;
pub const VIDEO_DECODER_REFERENCE_MISSING: OSStatus = -17694;
pub const VIDEO_DECODER_CALLBACK_MESSAGING: OSStatus = -17695;
pub const VIDEO_DECODER_UNKNOWN: OSStatus = -17696;
pub const EXTENSION_DISABLED: OSStatus = -17697;
pub const VIDEO_ENCODER_MVHEVCVIDEO_LAYER_IDS_MISMATCH: OSStatus = -17698;
pub const COULD_NOT_OUTPUT_TAGGED_BUFFER_GROUP: OSStatus = -17699;
pub const COULD_NOT_FIND_EXTENSION: OSStatus = -19510;
pub const EXTENSION_CONFLICT: OSStatus = -19511;
/// No error.
pub const NO_ERROR: OSStatus = 0;


/// A `VideoToolbox` failure status, one variant per documented error code.
#[derive(Debug, Clone, PartialEq, Eq, Structural)]
pub enum VTError {
    /// Property not supported
    PropertyNotSupported,
    /// Property is read only
    PropertyReadOnly,
    /// Parameter error
    Parameter,
    /// Invalid session
    InvalidSession,
    /// Allocation failed
    AllocationFailed,
    /// Pixel transfer not supported
    PixelTransferNotSupported,
    /// Could not find video decoder
    CouldNotFindVideoDecoder,
    /// Could not create instance
    CouldNotCreateInstance,
    /// Could not find video encoder
    CouldNotFindVideoEncoder,
    /// Video decoder: Bad data
    VideoDecoderBadData,
    /// Video decoder: Unsupported data format
    VideoDecoderUnsupportedDataFormat,
    /// Video decoder: Malfunction
    VideoDecoderMalfunction,
    /// Video encoder: Malfunction
    VideoEncoderMalfunction,
    /// Video decoder: Not available now
    VideoDecoderNotAvailableNow,
    /// Image rotation not supported
    ImageRotationNotSupported,
    /// Pixel rotation not supported
    PixelRotationNotSupported,
    /// Video encoder: Not available now
    VideoEncoderNotAvailableNow,
    /// Format description change not supported
    FormatDescriptionChangeNotSupported,
    /// Insufficient source color data
    InsufficientSourceColorData,
    /// Could not create color correction data
    CouldNotCreateColorCorrectionData,
    /// Color sync transform convert failed
    ColorSyncTransformConvertFailed,
    /// Video decoder: Authorization error
    VideoDecoderAuthorization,
    /// Video decoder: Authorization error
    VideoEncoderAuthorization,
    /// Color correction pixel transfer failed
    ColorCorrectionPixelTransferFailed,
    /// Multi-pass storage identifier mismatch
    MultiPassStorageIdentifierMismatch,
    /// Multi-pass storage invalid
    MultiPassStorageInvalid,
    /// Frame silo: Invalid time stamp
    FrameSiloInvalidTimeStamp,
    /// Frame silo: Invalid time range
    FrameSiloInvalidTimeRange,
    /// Frame silo: Could not find temporal filter
    CouldNotFindTemporalFilter,
    /// Could not find temporal filter
    PixelTransferNotPermitted,
    /// Pixel transfer not permitted
    ColorCorrectionImageRotationFailed,
    /// Video decoder removed
    VideoDecoderRemoved,
    /// Session malfunction
    SessionMalfunction,
    /// Video decoder needs Rosetta
    VideoDecoderNeedsRosetta,
    /// Video encoder needs Rosetta
    VideoEncoderNeedsRosetta,
    /// video decoder reference missing
    VideoDecoderReferenceMissing,
    /// Video decoder callback messaging
    VideoDecoderCallbackMessaging,
    /// Video decoder unknown
    VideoDecoderUnknown,
    /// Extension disabled
    ExtensionDisabled,
    /// Video encoder: MVHEVCVideoLayer ids mismatch
    VideoEncoderMVHEVCVideoLayerIdsMismatch,
    /// Could not output tagged buffer group
    CouldNotOutputTaggedBufferGroup,
    /// Could not find extension
    CouldNotFindExtension,
    /// Extension conflict
    ExtensionConflict,
    /// An unknown error occurred with code {0}
    UnknownError(OSStatus),
}

/// The error a status code denotes; codes outside the documented table are
/// kept verbatim in [`VTError::UnknownError`].
pub open spec fn spec_from_status(value: OSStatus) -> VTError {
    if value == PROPERTY_NOT_SUPPORTED {
        VTError::PropertyNotSupported
    } else if value == PROPERTY_READ_ONLY {
        VTError::PropertyReadOnly
    } else if value == PARAMETER {
        VTError::Parameter
    } else if value == INVALID_SESSION {
        VTError::InvalidSession
    } else if value == ALLOCATION_FAILED {
        VTError::AllocationFailed
    } else if value == PIXEL_TRANSFER_NOT_SUPPORTED {
        VTError::PixelTransferNotSupported
    } else if value == COULD_NOT_FIND_VIDEO_DECODER {
        VTError::CouldNotFindVideoDecoder
    } else if value == COULD_NOT_CREATE_INSTANCE {
        VTError::CouldNotCreateInstance
    } else if value == COULD_NOT_FIND_VIDEO_ENCODER {
        VTError::CouldNotFindVideoEncoder
    } else if value == VIDEO_DECODER_BAD_DATA {
        VTError::VideoDecoderBadData
    } else if value == VIDEO_DECODER_UNSUPPORTED_DATA_FORMAT {
        VTError::VideoDecoderUnsupportedDataFormat
    } else if value == VIDEO_DECODER_MALFUNCTION {
        VTError::VideoDecoderMalfunction
    } else if value == VIDEO_ENCODER_MALFUNCTION {
        VTError::VideoEncoderMalfunction
    } else if value == VIDEO_DECODER_NOT_AVAILABLE_NOW {
        VTError::VideoDecoderNotAvailableNow
    } else if value == PIXEL_ROTATION_NOT_SUPPORTED {
        VTError::PixelRotationNotSupported
    } else if value == VIDEO_ENCODER_NOT_AVAILABLE_NOW {
        VTError::VideoEncoderNotAvailableNow
    } else if value == FORMAT_DESCRIPTION_CHANGE_NOT_SUPPORTED {
        VTError::FormatDescriptionChangeNotSupported
    } else if value == INSUFFICIENT_SOURCE_COLOR_DATA {
        VTError::InsufficientSourceColorData
    } else if value == COULD_NOT_CREATE_COLOR_CORRECTION_DATA {
        VTError::CouldNotCreateColorCorrectionData
    } else if value == COLOR_SYNC_TRANSFORM_CONVERT_FAILED {
        VTError::ColorSyncTransformConvertFailed
    } else if value == VIDEO_DECODER_AUTHORIZATION {
        VTError::VideoDecoderAuthorization
    } else if value == VIDEO_ENCODER_AUTHORIZATION {
        VTError::VideoEncoderAuthorization
    } else if value == COLOR_CORRECTION_PIXEL_TRANSFER_FAILED {
        VTError::ColorCorrectionPixelTransferFailed
    } else if value == MULTI_PASS_STORAGE_IDENTIFIER_MISMATCH {
        VTError::MultiPassStorageIdentifierMismatch
    } else if value == MULTI_PASS_STORAGE_INVALID {
        VTError::MultiPassStorageInvalid
    } else if value == FRAME_SILO_INVALID_TIME_STAMP {
        VTError::FrameSiloInvalidTimeStamp
    } else if value == FRAME_SILO_INVALID_TIME_RANGE {
        VTError::FrameSiloInvalidTimeRange
    } else if value == COULD_NOT_FIND_TEMPORAL_FILTER {
        VTError::CouldNotFindTemporalFilter
    } else if value == PIXEL_TRANSFER_NOT_PERMITTED {
        VTError::PixelTransferNotPermitted
    } else if value == COLOR_CORRECTION_IMAGE_ROTATION_FAILED {
        VTError::ColorCorrectionImageRotationFailed
    } else if value == VIDEO_DECODER_REMOVED {
        VTError::VideoDecoderRemoved
    } else if value == SESSION_MALFUNCTION {
        VTError::SessionMalfunction
    } else if value == VIDEO_DECODER_NEEDS_ROSETTA {
        VTError::VideoDecoderNeedsRosetta
    } else if value == VIDEO_ENCODER_NEEDS_ROSETTA {
        VTError::VideoEncoderNeedsRosetta
    } else if value == VIDEO_DECODER_REFERENCE_MISSING {
        VTError::VideoDecoderReferenceMissing
    } else if value == VIDEO_DECODER_CALLBACK_MESSAGING {
        VTError::VideoDecoderCallbackMessaging
    } else if value == VIDEO_DECODER_UNKNOWN {
        VTError::VideoDecoderUnknown
    } else if value == EXTENSION_DISABLED {
        VTError::ExtensionDisabled
    } else if value == VIDEO_ENCODER_MVHEVCVIDEO_LAYER_IDS_MISMATCH {
        VTError::VideoEncoderMVHEVCVideoLayerIdsMismatch
    } else if value == COULD_NOT_OUTPUT_TAGGED_BUFFER_GROUP {
        VTError::CouldNotOutputTaggedBufferGroup
    } else if value == COULD_NOT_FIND_EXTENSION {
        VTError::CouldNotFindExtension
    } else if value == EXTENSION_CONFLICT {
        VTError::ExtensionConflict
    } else {
        VTError::UnknownError(value)
    }
}

/// The status code an error stands for.
pub open spec fn spec_to_status(e: VTError) -> OSStatus {
    match e {
        VTError::PropertyNotSupported => PROPERTY_NOT_SUPPORTED,
        VTError::PropertyReadOnly => PROPERTY_READ_ONLY,
        VTError::Parameter => PARAMETER,
        VTError::InvalidSession => INVALID_SESSION,
        VTError::AllocationFailed => ALLOCATION_FAILED,
        VTError::PixelTransferNotSupported => PIXEL_TRANSFER_NOT_SUPPORTED,
        VTError::CouldNotFindVideoDecoder => COULD_NOT_FIND_VIDEO_DECODER,
        VTError::CouldNotCreateInstance => COULD_NOT_CREATE_INSTANCE,
        VTError::CouldNotFindVideoEncoder => COULD_NOT_FIND_VIDEO_ENCODER,
        VTError::VideoDecoderBadData => VIDEO_DECODER_BAD_DATA,
        VTError::VideoDecoderUnsupportedDataFormat => VIDEO_DECODER_UNSUPPORTED_DATA_FORMAT,
        VTError::VideoDecoderMalfunction => VIDEO_DECODER_MALFUNCTION,
        VTError::VideoEncoderMalfunction => VIDEO_ENCODER_MALFUNCTION,
        VTError::VideoDecoderNotAvailableNow => VIDEO_DECODER_NOT_AVAILABLE_NOW,
        VTError::ImageRotationNotSupported => PIXEL_ROTATION_NOT_SUPPORTED,
        VTError::PixelRotationNotSupported => PIXEL_ROTATION_NOT_SUPPORTED,
        VTError::VideoEncoderNotAvailableNow => VIDEO_ENCODER_NOT_AVAILABLE_NOW,
        VTError::FormatDescriptionChangeNotSupported => FORMAT_DESCRIPTION_CHANGE_NOT_SUPPORTED,
        VTError::InsufficientSourceColorData => INSUFFICIENT_SOURCE_COLOR_DATA,
        VTError::CouldNotCreateColorCorrectionData => COULD_NOT_CREATE_COLOR_CORRECTION_DATA,
        VTError::ColorSyncTransformConvertFailed => COLOR_SYNC_TRANSFORM_CONVERT_FAILED,
        VTError::VideoDecoderAuthorization => VIDEO_DECODER_AUTHORIZATION,
        VTError::VideoEncoderAuthorization => VIDEO_ENCODER_AUTHORIZATION,
        VTError::ColorCorrectionPixelTransferFailed => COLOR_CORRECTION_PIXEL_TRANSFER_FAILED,
        VTError::MultiPassStorageIdentifierMismatch => MULTI_PASS_STORAGE_IDENTIFIER_MISMATCH,
        VTError::MultiPassStorageInvalid => MULTI_PASS_STORAGE_INVALID,
        VTError::FrameSiloInvalidTimeStamp => FRAME_SILO_INVALID_TIME_STAMP,
        VTError::FrameSiloInvalidTimeRange => FRAME_SILO_INVALID_TIME_RANGE,
        VTError::CouldNotFindTemporalFilter => COULD_NOT_FIND_TEMPORAL_FILTER,
        VTError::PixelTransferNotPermitted => PIXEL_TRANSFER_NOT_PERMITTED,
        VTError::ColorCorrectionImageRotationFailed => COLOR_CORRECTION_IMAGE_ROTATION_FAILED,
        VTError::VideoDecoderRemoved => VIDEO_DECODER_REMOVED,
        VTError::SessionMalfunction => SESSION_MALFUNCTION,
        VTError::VideoDecoderNeedsRosetta => VIDEO_DECODER_NEEDS_ROSETTA,
        VTError::VideoEncoderNeedsRosetta => VIDEO_ENCODER_NEEDS_ROSETTA,
        VTError::VideoDecoderReferenceMissing => VIDEO_DECODER_REFERENCE_MISSING,
        VTError::VideoDecoderCallbackMessaging => VIDEO_DECODER_CALLBACK_MESSAGING,
        VTError::VideoDecoderUnknown => VIDEO_DECODER_UNKNOWN,
        VTError::ExtensionDisabled => EXTENSION_DISABLED,
        VTError::VideoEncoderMVHEVCVideoLayerIdsMismatch => VIDEO_ENCODER_MVHEVCVIDEO_LAYER_IDS_MISMATCH,
        VTError::CouldNotOutputTaggedBufferGroup => COULD_NOT_OUTPUT_TAGGED_BUFFER_GROUP,
        VTError::CouldNotFindExtension => COULD_NOT_FIND_EXTENSION,
        VTError::ExtensionConflict => EXTENSION_CONFLICT,
        VTError::UnknownError(value) => value,
    }
}

/// The message `Display` prints for an error.
pub open spec fn spec_message(e: VTError) -> Seq<char> {
    match e {
        VTError::PropertyNotSupported => "Property not supported"@,
        VTError::PropertyReadOnly => "Property is read only"@,
        VTError::Parameter => "Parameter error"@,
        VTError::InvalidSession => "Invalid session"@,
        VTError::AllocationFailed => "Allocation failed"@,
        VTError::PixelTransferNotSupported => "Pixel transfer not supported"@,
        VTError::CouldNotFindVideoDecoder => "Could not find video decoder"@,
        VTError::CouldNotCreateInstance => "Could not create instance"@,
        VTError::CouldNotFindVideoEncoder => "Could not find video encoder"@,
        VTError::VideoDecoderBadData => "Video decoder: Bad data"@,
        VTError::VideoDecoderUnsupportedDataFormat => "Video decoder: Unsupported data format"@,
        VTError::VideoDecoderMalfunction => "Video decoder: Malfunction"@,
        VTError::VideoEncoderMalfunction => "Video encoder: Malfunction"@,
        VTError::VideoDecoderNotAvailableNow => "Video decoder: Not available now"@,
        VTError::ImageRotationNotSupported => "Image rotation not supported"@,
        VTError::PixelRotationNotSupported => "Pixel rotation not supported"@,
        VTError::VideoEncoderNotAvailableNow => "Video encoder: Not available now"@,
        VTError::FormatDescriptionChangeNotSupported => "Format description change not supported"@,
        VTError::InsufficientSourceColorData => "Insufficient source color data"@,
        VTError::CouldNotCreateColorCorrectionData => "Could not create color correction data"@,
        VTError::ColorSyncTransformConvertFailed => "Color sync transform convert failed"@,
        VTError::VideoDecoderAuthorization => "Video decoder: Authorization error"@,
        VTError::VideoEncoderAuthorization => "Video decoder: Authorization error"@,
        VTError::ColorCorrectionPixelTransferFailed => "Color correction pixel transfer failed"@,
        VTError::MultiPassStorageIdentifierMismatch => "Multi-pass storage identifier mismatch"@,
        VTError::MultiPassStorageInvalid => "Multi-pass storage invalid"@,
        VTError::FrameSiloInvalidTimeStamp => "Frame silo: Invalid time stamp"@,
        VTError::FrameSiloInvalidTimeRange => "Frame silo: Invalid time range"@,
        VTError::CouldNotFindTemporalFilter => "Frame silo: Could not find temporal filter"@,
        VTError::PixelTransferNotPermitted => "Could not find temporal filter"@,
        VTError::ColorCorrectionImageRotationFailed => "Pixel transfer not permitted"@,
        VTError::VideoDecoderRemoved => "Video decoder removed"@,
        VTError::SessionMalfunction => "Session malfunction"@,
        VTError::VideoDecoderNeedsRosetta => "Video decoder needs Rosetta"@,
        VTError::VideoEncoderNeedsRosetta => "Video encoder needs Rosetta"@,
        VTError::VideoDecoderReferenceMissing => "video decoder reference missing"@,
        VTError::VideoDecoderCallbackMessaging => "Video decoder callback messaging"@,
        VTError::VideoDecoderUnknown => "Video decoder unknown"@,
        VTError::ExtensionDisabled => "Extension disabled"@,
        VTError::VideoEncoderMVHEVCVideoLayerIdsMismatch => "Video encoder: MVHEVCVideoLayer ids mismatch"@,
        VTError::CouldNotOutputTaggedBufferGroup => "Could not output tagged buffer group"@,
        VTError::CouldNotFindExtension => "Could not find extension"@,
        VTError::ExtensionConflict => "Extension conflict"@,
        VTError::UnknownError(value) => "An unknown error occurred with code "@ + decimal(value as int),
    }
}

impl VTError {
    /// Classifies a status code (`From<OSStatus>`).
    pub fn from_status(value: OSStatus) -> (r: VTError)
        ensures
            r == spec_from_status(value),
    {
        if value == PROPERTY_NOT_SUPPORTED {
            VTError::PropertyNotSupported
        } else if value == PROPERTY_READ_ONLY {
            VTError::PropertyReadOnly
        } else if value == PARAMETER {
            VTError::Parameter
        } else if value == INVALID_SESSION {
            VTError::InvalidSession
        } else if value == ALLOCATION_FAILED {
            VTError::AllocationFailed
        } else if value == PIXEL_TRANSFER_NOT_SUPPORTED {
            VTError::PixelTransferNotSupported
        } else if value == COULD_NOT_FIND_VIDEO_DECODER {
            VTError::CouldNotFindVideoDecoder
        } else if value == COULD_NOT_CREATE_INSTANCE {
            VTError::CouldNotCreateInstance
        } else if value == COULD_NOT_FIND_VIDEO_ENCODER {
            VTError::CouldNotFindVideoEncoder
        } else if value == VIDEO_DECODER_BAD_DATA {
            VTError::VideoDecoderBadData
        } else if value == VIDEO_DECODER_UNSUPPORTED_DATA_FORMAT {
            VTError::VideoDecoderUnsupportedDataFormat
        } else if value == VIDEO_DECODER_MALFUNCTION {
            VTError::VideoDecoderMalfunction
        } else if value == VIDEO_ENCODER_MALFUNCTION {
            VTError::VideoEncoderMalfunction
        } else if value == VIDEO_DECODER_NOT_AVAILABLE_NOW {
            VTError::VideoDecoderNotAvailableNow
        } else if value == PIXEL_ROTATION_NOT_SUPPORTED {
            VTError::PixelRotationNotSupported
        } else if value == VIDEO_ENCODER_NOT_AVAILABLE_NOW {
            VTError::VideoEncoderNotAvailableNow
        } else if value == FORMAT_DESCRIPTION_CHANGE_NOT_SUPPORTED {
            VTError::FormatDescriptionChangeNotSupported
        } else if value == INSUFFICIENT_SOURCE_COLOR_DATA {
            VTError::InsufficientSourceColorData
        } else if value == COULD_NOT_CREATE_COLOR_CORRECTION_DATA {
            VTError::CouldNotCreateColorCorrectionData
        } else if value == COLOR_SYNC_TRANSFORM_CONVERT_FAILED {
            VTError::ColorSyncTransformConvertFailed
        } else if value == VIDEO_DECODER_AUTHORIZATION {
            VTError::VideoDecoderAuthorization
        } else if value == VIDEO_ENCODER_AUTHORIZATION {
            VTError::VideoEncoderAuthorization
        } else if value == COLOR_CORRECTION_PIXEL_TRANSFER_FAILED {
            VTError::ColorCorrectionPixelTransferFailed
        } else if value == MULTI_PASS_STORAGE_IDENTIFIER_MISMATCH {
            VTError::MultiPassStorageIdentifierMismatch
        } else if value == MULTI_PASS_STORAGE_INVALID {
            VTError::MultiPassStorageInvalid
        } else if value == FRAME_SILO_INVALID_TIME_STAMP {
            VTError::FrameSiloInvalidTimeStamp
        } else if value == FRAME_SILO_INVALID_TIME_RANGE {
            VTError::FrameSiloInvalidTimeRange
        } else if value == COULD_NOT_FIND_TEMPORAL_FILTER {
            VTError::CouldNotFindTemporalFilter
        } else if value == PIXEL_TRANSFER_NOT_PERMITTED {
            VTError::PixelTransferNotPermitted
        } else if value == COLOR_CORRECTION_IMAGE_ROTATION_FAILED {
            VTError::ColorCorrectionImageRotationFailed
        } else if value == VIDEO_DECODER_REMOVED {
            VTError::VideoDecoderRemoved
        } else if value == SESSION_MALFUNCTION {
            VTError::SessionMalfunction
        } else if value == VIDEO_DECODER_NEEDS_ROSETTA {
            VTError::VideoDecoderNeedsRosetta
        } else if value == VIDEO_ENCODER_NEEDS_ROSETTA {
            VTError::VideoEncoderNeedsRosetta
        } else if value == VIDEO_DECODER_REFERENCE_MISSING {
            VTError::VideoDecoderReferenceMissing
        } else if value == VIDEO_DECODER_CALLBACK_MESSAGING {
            VTError::VideoDecoderCallbackMessaging
        } else if value == VIDEO_DECODER_UNKNOWN {
            VTError::VideoDecoderUnknown
        } else if value == EXTENSION_DISABLED {
            VTError::ExtensionDisabled
        } else if value == VIDEO_ENCODER_MVHEVCVIDEO_LAYER_IDS_MISMATCH {
            VTError::VideoEncoderMVHEVCVideoLayerIdsMismatch
        } else if value == COULD_NOT_OUTPUT_TAGGED_BUFFER_GROUP {
            VTError::CouldNotOutputTaggedBufferGroup
        } else if value == COULD_NOT_FIND_EXTENSION {
            VTError::CouldNotFindExtension
        } else if value == EXTENSION_CONFLICT {
            VTError::ExtensionConflict
        } else {
            VTError::UnknownError(value)
        }
    }

    /// The status code this error stands for (`From<VTError> for OSStatus`).
    pub fn to_status(&self) -> (r: OSStatus)
        ensures
            r == spec_to_status(*self),
    {
        match self {
            VTError::PropertyNotSupported => PROPERTY_NOT_SUPPORTED,
            VTError::PropertyReadOnly => PROPERTY_READ_ONLY,
            VTError::Parameter => PARAMETER,
            VTError::InvalidSession => INVALID_SESSION,
            VTError::AllocationFailed => ALLOCATION_FAILED,
            VTError::PixelTransferNotSupported => PIXEL_TRANSFER_NOT_SUPPORTED,
            VTError::CouldNotFindVideoDecoder => COULD_NOT_FIND_VIDEO_DECODER,
            VTError::CouldNotCreateInstance => COULD_NOT_CREATE_INSTANCE,
            VTError::CouldNotFindVideoEncoder => COULD_NOT_FIND_VIDEO_ENCODER,
            VTError::VideoDecoderBadData => VIDEO_DECODER_BAD_DATA,
            VTError::VideoDecoderUnsupportedDataFormat => VIDEO_DECODER_UNSUPPORTED_DATA_FORMAT,
            VTError::VideoDecoderMalfunction => VIDEO_DECODER_MALFUNCTION,
            VTError::VideoEncoderMalfunction => VIDEO_ENCODER_MALFUNCTION,
            VTError::VideoDecoderNotAvailableNow => VIDEO_DECODER_NOT_AVAILABLE_NOW,
            VTError::ImageRotationNotSupported => PIXEL_ROTATION_NOT_SUPPORTED,
            VTError::PixelRotationNotSupported => PIXEL_ROTATION_NOT_SUPPORTED,
            VTError::VideoEncoderNotAvailableNow => VIDEO_ENCODER_NOT_AVAILABLE_NOW,
            VTError::FormatDescriptionChangeNotSupported => FORMAT_DESCRIPTION_CHANGE_NOT_SUPPORTED,
            VTError::InsufficientSourceColorData => INSUFFICIENT_SOURCE_COLOR_DATA,
            VTError::CouldNotCreateColorCorrectionData => COULD_NOT_CREATE_COLOR_CORRECTION_DATA,
            VTError::ColorSyncTransformConvertFailed => COLOR_SYNC_TRANSFORM_CONVERT_FAILED,
            VTError::VideoDecoderAuthorization => VIDEO_DECODER_AUTHORIZATION,
            VTError::VideoEncoderAuthorization => VIDEO_ENCODER_AUTHORIZATION,
            VTError::ColorCorrectionPixelTransferFailed => COLOR_CORRECTION_PIXEL_TRANSFER_FAILED,
            VTError::MultiPassStorageIdentifierMismatch => MULTI_PASS_STORAGE_IDENTIFIER_MISMATCH,
            VTError::MultiPassStorageInvalid => MULTI_PASS_STORAGE_INVALID,
            VTError::FrameSiloInvalidTimeStamp => FRAME_SILO_INVALID_TIME_STAMP,
            VTError::FrameSiloInvalidTimeRange => FRAME_SILO_INVALID_TIME_RANGE,
            VTError::CouldNotFindTemporalFilter => COULD_NOT_FIND_TEMPORAL_FILTER,
            VTError::PixelTransferNotPermitted => PIXEL_TRANSFER_NOT_PERMITTED,
            VTError::ColorCorrectionImageRotationFailed => COLOR_CORRECTION_IMAGE_ROTATION_FAILED,
            VTError::VideoDecoderRemoved => VIDEO_DECODER_REMOVED,
            VTError::SessionMalfunction => SESSION_MALFUNCTION,
            VTError::VideoDecoderNeedsRosetta => VIDEO_DECODER_NEEDS_ROSETTA,
            VTError::VideoEncoderNeedsRosetta => VIDEO_ENCODER_NEEDS_ROSETTA,
            VTError::VideoDecoderReferenceMissing => VIDEO_DECODER_REFERENCE_MISSING,
            VTError::VideoDecoderCallbackMessaging => VIDEO_DECODER_CALLBACK_MESSAGING,
            VTError::VideoDecoderUnknown => VIDEO_DECODER_UNKNOWN,
            VTError::ExtensionDisabled => EXTENSION_DISABLED,
            VTError::VideoEncoderMVHEVCVideoLayerIdsMismatch => VIDEO_ENCODER_MVHEVCVIDEO_LAYER_IDS_MISMATCH,
            VTError::CouldNotOutputTaggedBufferGroup => COULD_NOT_OUTPUT_TAGGED_BUFFER_GROUP,
            VTError::CouldNotFindExtension => COULD_NOT_FIND_EXTENSION,
            VTError::ExtensionConflict => EXTENSION_CONFLICT,
            VTError::UnknownError(value) => *value,
        }
    }

    /// The message `Display` prints for this error.
    pub fn to_string(&self) -> (r: String)
        ensures
            r@ == spec_message(*self),
    {
        match self {
            VTError::PropertyNotSupported => String::from_str("Property not supported"),
            VTError::PropertyReadOnly => String::from_str("Property is read only"),
            VTError::Parameter => String::from_str("Parameter error"),
            VTError::InvalidSession => String::from_str("Invalid session"),
            VTError::AllocationFailed => String::from_str("Allocation failed"),
            VTError::PixelTransferNotSupported => String::from_str("Pixel transfer not supported"),
            VTError::CouldNotFindVideoDecoder => String::from_str("Could not find video decoder"),
            VTError::CouldNotCreateInstance => String::from_str("Could not create instance"),
            VTError::CouldNotFindVideoEncoder => String::from_str("Could not find video encoder"),
            VTError::VideoDecoderBadData => String::from_str("Video decoder: Bad data"),
            VTError::VideoDecoderUnsupportedDataFormat => String::from_str("Video decoder: Unsupported data format"),
            VTError::VideoDecoderMalfunction => String::from_str("Video decoder: Malfunction"),
            VTError::VideoEncoderMalfunction => String::from_str("Video encoder: Malfunction"),
            VTError::VideoDecoderNotAvailableNow => String::from_str("Video decoder: Not available now"),
            VTError::ImageRotationNotSupported => String::from_str("Image rotation not supported"),
            VTError::PixelRotationNotSupported => String::from_str("Pixel rotation not supported"),
            VTError::VideoEncoderNotAvailableNow => String::from_str("Video encoder: Not available now"),
            VTError::FormatDescriptionChangeNotSupported => String::from_str("Format description change not supported"),
            VTError::InsufficientSourceColorData => String::from_str("Insufficient source color data"),
            VTError::CouldNotCreateColorCorrectionData => String::from_str("Could not create color correction data"),
            VTError::ColorSyncTransformConvertFailed => String::from_str("Color sync transform convert failed"),
            VTError::VideoDecoderAuthorization => String::from_str("Video decoder: Authorization error"),
            VTError::VideoEncoderAuthorization => String::from_str("Video decoder: Authorization error"),
            VTError::ColorCorrectionPixelTransferFailed => String::from_str("Color correction pixel transfer failed"),
            VTError::MultiPassStorageIdentifierMismatch => String::from_str("Multi-pass storage identifier mismatch"),
            VTError::MultiPassStorageInvalid => String::from_str("Multi-pass storage invalid"),
            VTError::FrameSiloInvalidTimeStamp => String::from_str("Frame silo: Invalid time stamp"),
            VTError::FrameSiloInvalidTimeRange => String::from_str("Frame silo: Invalid time range"),
            VTError::CouldNotFindTemporalFilter => String::from_str("Frame silo: Could not find temporal filter"),
            VTError::PixelTransferNotPermitted => String::from_str("Could not find temporal filter"),
            VTError::ColorCorrectionImageRotationFailed => String::from_str("Pixel transfer not permitted"),
            VTError::VideoDecoderRemoved => String::from_str("Video decoder removed"),
            VTError::SessionMalfunction => String::from_str("Session malfunction"),
            VTError::VideoDecoderNeedsRosetta => String::from_str("Video decoder needs Rosetta"),
            VTError::VideoEncoderNeedsRosetta => String::from_str("Video encoder needs Rosetta"),
            VTError::VideoDecoderReferenceMissing => String::from_str("video decoder reference missing"),
            VTError::VideoDecoderCallbackMessaging => String::from_str("Video decoder callback messaging"),
            VTError::VideoDecoderUnknown => String::from_str("Video decoder unknown"),
            VTError::ExtensionDisabled => String::from_str("Extension disabled"),
            VTError::VideoEncoderMVHEVCVideoLayerIdsMismatch => String::from_str("Video encoder: MVHEVCVideoLayer ids mismatch"),
            VTError::CouldNotOutputTaggedBufferGroup => String::from_str("Could not output tagged buffer group"),
            VTError::CouldNotFindExtension => String::from_str("Could not find extension"),
            VTError::ExtensionConflict => String::from_str("Extension conflict"),
            VTError::UnknownError(value) => {
                let mut s = String::from_str("An unknown error occurred with code ");
                push_decimal(&mut s, *value as i64);
                s
            },
        }
    }
}

/// Classifying a status code and converting back gives the code again.
pub proof fn lemma_status_round_trip(value: OSStatus)
    ensures
        spec_to_status(spec_from_status(value)) == value,
{
}

/// Every documented `kVT*Err` code (by its value in `VTErrors.h`) classifies
/// to the error named after it,
/// and that error stands for that code again: for instance
/// `kVTCouldNotFindVideoEncoderErr` (-12908) is `CouldNotFindVideoEncoder`,
/// never `CouldNotFindVideoDecoder` (-12906). The deprecated
/// `ImageRotationNotSupported` stands for the pixel-rotation code, which
/// classifies as `PixelRotationNotSupported`; `0` and every other code are
/// kept verbatim as `UnknownError`.
pub proof fn lemma_documented_codes_name_their_errors(other: OSStatus)
    ensures
        spec_from_status(-12900i32) == VTError::PropertyNotSupported,
        spec_to_status(VTError::PropertyNotSupported) == -12900i32,
        spec_from_status(-12901i32) == VTError::PropertyReadOnly,
        spec_to_status(VTError::PropertyReadOnly) == -12901i32,
        spec_from_status(-12902i32) == VTError::Parameter,
        spec_to_status(VTError::Parameter) == -12902i32,
        spec_from_status(-12903i32) == VTError::InvalidSession,
        spec_to_status(VTError::InvalidSession) == -12903i32,
        spec_from_status(-12904i32) == VTError::AllocationFailed,
        spec_to_status(VTError::AllocationFailed) == -12904i32,
        spec_from_status(-12905i32) == VTError::PixelTransferNotSupported,
        spec_to_status(VTError::PixelTransferNotSupported) == -12905i32,
        spec_from_status(-12906i32) == VTError::CouldNotFindVideoDecoder,
        spec_to_status(VTError::CouldNotFindVideoDecoder) == -12906i32,
        spec_from_status(-12907i32) == VTError::CouldNotCreateInstance,
        spec_to_status(VTError::CouldNotCreateInstance) == -12907i32,
        spec_from_status(-12908i32) == VTError::CouldNotFindVideoEncoder,
        spec_to_status(VTError::CouldNotFindVideoEncoder) == -12908i32,
        spec_from_status(-12909i32) == VTError::VideoDecoderBadData,
        spec_to_status(VTError::VideoDecoderBadData) == -12909i32,
        spec_from_status(-12910i32) == VTError::VideoDecoderUnsupportedDataFormat,
        spec_to_status(VTError::VideoDecoderUnsupportedDataFormat) == -12910i32,
        spec_from_status(-12911i32) == VTError::VideoDecoderMalfunction,
        spec_to_status(VTError::VideoDecoderMalfunction) == -12911i32,
        spec_from_status(-12912i32) == VTError::VideoEncoderMalfunction,
        spec_to_status(VTError::VideoEncoderMalfunction) == -12912i32,
        spec_from_status(-12913i32) == VTError::VideoDecoderNotAvailableNow,
        spec_to_status(VTError::VideoDecoderNotAvailableNow) == -12913i32,
        spec_to_status(VTError::ImageRotationNotSupported) == -12914i32,
        spec_from_status(-12914i32) == VTError::PixelRotationNotSupported,
        spec_to_status(VTError::PixelRotationNotSupported) == -12914i32,
        spec_from_status(-12915i32) == VTError::VideoEncoderNotAvailableNow,
        spec_to_status(VTError::VideoEncoderNotAvailableNow) == -12915i32,
        spec_from_status(-12916i32) == VTError::FormatDescriptionChangeNotSupported,
        spec_to_status(VTError::FormatDescriptionChangeNotSupported) == -12916i32,
        spec_from_status(-12917i32) == VTError::InsufficientSourceColorData,
        spec_to_status(VTError::InsufficientSourceColorData) == -12917i32,
        spec_from_status(-12918i32) == VTError::CouldNotCreateColorCorrectionData,
        spec_to_status(VTError::CouldNotCreateColorCorrectionData) == -12918i32,
        spec_from_status(-12919i32) == VTError::ColorSyncTransformConvertFailed,
        spec_to_status(VTError::ColorSyncTransformConvertFailed) == -12919i32,
        spec_from_status(-12210i32) == VTError::VideoDecoderAuthorization,
        spec_to_status(VTError::VideoDecoderAuthorization) == -12210i32,
        spec_from_status(-12211i32) == VTError::VideoEncoderAuthorization,
        spec_to_status(VTError::VideoEncoderAuthorization) == -12211i32,
        spec_from_status(-12212i32) == VTError::ColorCorrectionPixelTransferFailed,
        spec_to_status(VTError::ColorCorrectionPixelTransferFailed) == -12212i32,
        spec_from_status(-12213i32) == VTError::MultiPassStorageIdentifierMismatch,
        spec_to_status(VTError::MultiPassStorageIdentifierMismatch) == -12213i32,
        spec_from_status(-12214i32) == VTError::MultiPassStorageInvalid,
        spec_to_status(VTError::MultiPassStorageInvalid) == -12214i32,
        spec_from_status(-12215i32) == VTError::FrameSiloInvalidTimeStamp,
        spec_to_status(VTError::FrameSiloInvalidTimeStamp) == -12215i32,
        spec_from_status(-12216i32) == VTError::FrameSiloInvalidTimeRange,
        spec_to_status(VTError::FrameSiloInvalidTimeRange) == -12216i32,
        spec_from_status(-12217i32) == VTError::CouldNotFindTemporalFilter,
        spec_to_status(VTError::CouldNotFindTemporalFilter) == -12217i32,
        spec_from_status(-12218i32) == VTError::PixelTransferNotPermitted,
        spec_to_status(VTError::PixelTransferNotPermitted) == -12218i32,
        spec_from_status(-12219i32) == VTError::ColorCorrectionImageRotationFailed,
        spec_to_status(VTError::ColorCorrectionImageRotationFailed) == -12219i32,
        spec_from_status(-17690i32) == VTError::VideoDecoderRemoved,
        spec_to_status(VTError::VideoDecoderRemoved) == -17690i32,
        spec_from_status(-17691i32) == VTError::SessionMalfunction,
        spec_to_status(VTError::SessionMalfunction) == -17691i32,
        spec_from_status(-17692i32) == VTError::VideoDecoderNeedsRosetta,
        spec_to_status(VTError::VideoDecoderNeedsRosetta) == -17692i32,
        spec_from_status(-17693i32) == VTError::VideoEncoderNeedsRosetta,
        spec_to_status(VTError::VideoEncoderNeedsRosetta) == -17693i32,
        spec_from_status(-17694i32) == VTError::VideoDecoderReferenceMissing,
        spec_to_status(VTError::VideoDecoderReferenceMissing) == -17694i32,
        spec_from_status(-17695i32) == VTError::VideoDecoderCallbackMessaging,
        spec_to_status(VTError::VideoDecoderCallbackMessaging) == -17695i32,
        spec_from_status(-17696i32) == VTError::VideoDecoderUnknown,
        spec_to_status(VTError::VideoDecoderUnknown) == -17696i32,
        spec_from_status(-17697i32) == VTError::ExtensionDisabled,
        spec_to_status(VTError::ExtensionDisabled) == -17697i32,
        spec_from_status(-17698i32) == VTError::VideoEncoderMVHEVCVideoLayerIdsMismatch,
        spec_to_status(VTError::VideoEncoderMVHEVCVideoLayerIdsMismatch) == -17698i32,
        spec_from_status(-17699i32) == VTError::CouldNotOutputTaggedBufferGroup,
        spec_to_status(VTError::CouldNotOutputTaggedBufferGroup) == -17699i32,
        spec_from_status(-19510i32) == VTError::CouldNotFindExtension,
        spec_to_status(VTError::CouldNotFindExtension) == -19510i32,
        spec_from_status(-19511i32) == VTError::ExtensionConflict,
        spec_to_status(VTError::ExtensionConflict) == -19511i32,
        spec_from_status(0i32) == VTError::UnknownError(0i32),
        spec_from_status(other) is UnknownError ==> spec_from_status(other) == VTError::UnknownError(
            other,
        ),
        spec_to_status(VTError::UnknownError(other)) == other,
{
}

/// The message a documented code reads as, by the code's value: for
/// instance -12908 reads "Could not find video encoder" and -12906 "Could not
/// find video decoder"; any other code reads as unknown, with its value.
pub proof fn lemma_documented_codes_read_as_their_messages(other: OSStatus)
    ensures
        spec_message(spec_from_status(-12900i32)) == "Property not supported"@,
        spec_message(spec_from_status(-12901i32)) == "Property is read only"@,
        spec_message(spec_from_status(-12902i32)) == "Parameter error"@,
        spec_message(spec_from_status(-12903i32)) == "Invalid session"@,
        spec_message(spec_from_status(-12904i32)) == "Allocation failed"@,
        spec_message(spec_from_status(-12905i32)) == "Pixel transfer not supported"@,
        spec_message(spec_from_status(-12906i32)) == "Could not find video decoder"@,
        spec_message(spec_from_status(-12907i32)) == "Could not create instance"@,
        spec_message(spec_from_status(-12908i32)) == "Could not find video encoder"@,
        spec_message(spec_from_status(-12909i32)) == "Video decoder: Bad data"@,
        spec_message(spec_from_status(-12910i32)) == "Video decoder: Unsupported data format"@,
        spec_message(spec_from_status(-12911i32)) == "Video decoder: Malfunction"@,
        spec_message(spec_from_status(-12912i32)) == "Video encoder: Malfunction"@,
        spec_message(spec_from_status(-12913i32)) == "Video decoder: Not available now"@,
        spec_message(spec_from_status(-12914i32)) == "Pixel rotation not supported"@,
        spec_message(spec_from_status(-12915i32)) == "Video encoder: Not available now"@,
        spec_message(spec_from_status(-12916i32)) == "Format description change not supported"@,
        spec_message(spec_from_status(-12917i32)) == "Insufficient source color data"@,
        spec_message(spec_from_status(-12918i32)) == "Could not create color correction data"@,
        spec_message(spec_from_status(-12919i32)) == "Color sync transform convert failed"@,
        spec_message(spec_from_status(-12210i32)) == "Video decoder: Authorization error"@,
        spec_message(spec_from_status(-12211i32)) == "Video decoder: Authorization error"@,
        spec_message(spec_from_status(-12212i32)) == "Color correction pixel transfer failed"@,
        spec_message(spec_from_status(-12213i32)) == "Multi-pass storage identifier mismatch"@,
        spec_message(spec_from_status(-12214i32)) == "Multi-pass storage invalid"@,
        spec_message(spec_from_status(-12215i32)) == "Frame silo: Invalid time stamp"@,
        spec_message(spec_from_status(-12216i32)) == "Frame silo: Invalid time range"@,
        spec_message(spec_from_status(-12217i32)) == "Frame silo: Could not find temporal filter"@,
        spec_message(spec_from_status(-12218i32)) == "Could not find temporal filter"@,
        spec_message(spec_from_status(-12219i32)) == "Pixel transfer not permitted"@,
        spec_message(spec_from_status(-17690i32)) == "Video decoder removed"@,
        spec_message(spec_from_status(-17691i32)) == "Session malfunction"@,
        spec_message(spec_from_status(-17692i32)) == "Video decoder needs Rosetta"@,
        spec_message(spec_from_status(-17693i32)) == "Video encoder needs Rosetta"@,
        spec_message(spec_from_status(-17694i32)) == "video decoder reference missing"@,
        spec_message(spec_from_status(-17695i32)) == "Video decoder callback messaging"@,
        spec_message(spec_from_status(-17696i32)) == "Video decoder unknown"@,
        spec_message(spec_from_status(-17697i32)) == "Extension disabled"@,
        spec_message(spec_from_status(-17698i32)) == "Video encoder: MVHEVCVideoLayer ids mismatch"@,
        spec_message(spec_from_status(-17699i32)) == "Could not output tagged buffer group"@,
        spec_message(spec_from_status(-19510i32)) == "Could not find extension"@,
        spec_message(spec_from_status(-19511i32)) == "Extension conflict"@,
        spec_message(VTError::ImageRotationNotSupported) == "Image rotation not supported"@,
        spec_from_status(other) is UnknownError ==> spec_message(spec_from_status(other))
            == "An unknown error occurred with code "@ + decimal(other as int),
{
}

/// Converting an error to its code and classifying the code gives the error
/// back, except for the deprecated `ImageRotationNotSupported` (which shares
/// its code with `PixelRotationNotSupported`) and an `UnknownError` that wraps
/// one of the documented codes.
pub proof fn lemma_error_round_trip(e: VTError)
    requires
        e != VTError::ImageRotationNotSupported,
        e is UnknownError ==> spec_from_status(e->UnknownError_0) is UnknownError,
    ensures
        spec_from_status(spec_to_status(e)) == e,
{
}

impl Default for VTError {
    fn default() -> (r: Self)
        ensures
            r == VTError::UnknownError(-1i32),
    {
        Self::UnknownError(-1)
    }
}

impl From<OSStatus> for VTError {
    fn from(value: OSStatus) -> (r: Self) {
        Self::from_status(value)
    }
}

impl vstd::std_specs::convert::FromSpecImpl<OSStatus> for VTError {
    open spec fn obeys_from_spec() -> bool {
        true
    }

    open spec fn from_spec(value: OSStatus) -> Self {
        spec_from_status(value)
    }
}

impl From<VTError> for OSStatus {
    fn from(value: VTError) -> (r: Self) {
        value.to_status()
    }
}

impl vstd::std_specs::convert::FromSpecImpl<VTError> for OSStatus {
    open spec fn obeys_from_spec() -> bool {
        true
    }

    open spec fn from_spec(value: VTError) -> Self {
        spec_to_status(value)
    }
}

} // verus!
