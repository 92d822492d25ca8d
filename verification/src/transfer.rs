//! Pixel transfer (format conversion / scaling) and pixel rotation sessions.
//!
//! `PixelTransferSession` copies and converts one pixel buffer into another;
//! `PixelRotationSession` rotates in 90° steps, with optional flips. Here live
//! the property values each setter hands to `VTSessionSetProperty`, and how
//! each native status becomes a result.

use vstd::prelude::*;

use crate::compression::PropertySetting;
use crate::error::{OSStatus, VTError};
use crate::ffi;
use crate::session::CFValue;

verus! {

/// `kVTRotation_*` enum values, mapped to a Rust enum.
#[derive(Debug, Clone, Copy, PartialEq, Eq, Structural)]
pub enum Rotation {
    /// No rotation (`kVTRotation_0`).
    Zero,
    Clockwise90,
    Half180,
    CounterClockwise90,
}

/// The SDK constant naming each rotation.
pub open spec fn spec_rotation_symbol(r: Rotation) -> &'static str {
    match r {
        Rotation::Zero => ffi::kVTRotation_0,
        Rotation::Clockwise90 => ffi::kVTRotation_CW90,
        Rotation::Half180 => ffi::kVTRotation_180,
        Rotation::CounterClockwise90 => ffi::kVTRotation_CCW90,
    }
}

impl Rotation {
    /// The `kVTRotation_*` constant for this rotation.
    pub fn as_cf_string(self) -> (r: &'static str)
        ensures
            r == spec_rotation_symbol(self),
    {
        match self {
            Self::Zero => ffi::kVTRotation_0,
            Self::Clockwise90 => ffi::kVTRotation_CW90,
            Self::Half180 => ffi::kVTRotation_180,
            Self::CounterClockwise90 => ffi::kVTRotation_CCW90,
        }
    }
}

/// `kVTScalingMode_*` values for `VTPixelTransferSession`.
#[derive(Debug, Clone, Copy, PartialEq, Eq, Structural)]
pub enum ScalingMode {
    Normal,
    CropSourceToCleanAperture,
    Letterbox,
    Trim,
}

/// The SDK constant naming each scaling mode.
pub open spec fn spec_scaling_symbol(m: ScalingMode) -> &'static str {
    match m {
        ScalingMode::Normal => ffi::kVTScalingMode_Normal,
        ScalingMode::CropSourceToCleanAperture => ffi::kVTScalingMode_CropSourceToCleanAperture,
        ScalingMode::Letterbox => ffi::kVTScalingMode_Letterbox,
        ScalingMode::Trim => ffi::kVTScalingMode_Trim,
    }
}

impl ScalingMode {
    /// The `kVTScalingMode_*` constant for this mode.
    pub fn as_cf_string(self) -> (r: &'static str)
        ensures
            r == spec_scaling_symbol(self),
    {
        match self {
            Self::Normal => ffi::kVTScalingMode_Normal,
            Self::CropSourceToCleanAperture => ffi::kVTScalingMode_CropSourceToCleanAperture,
            Self::Letterbox => ffi::kVTScalingMode_Letterbox,
            Self::Trim => ffi::kVTScalingMode_Trim,
        }
    }
}

/// `kVTDownsamplingMode_*` values for `VTPixelTransferSession`.
#[derive(Debug, Clone, Copy, PartialEq, Eq, Structural)]
pub enum DownsamplingMode {
    Decimate,
    Average,
}

/// The SDK constant naming each downsampling mode.
pub open spec fn spec_downsampling_symbol(m: DownsamplingMode) -> &'static str {
    match m {
        DownsamplingMode::Decimate => ffi::kVTDownsamplingMode_Decimate,
        DownsamplingMode::Average => ffi::kVTDownsamplingMode_Average,
    }
}

impl DownsamplingMode {
    /// The `kVTDownsamplingMode_*` constant for this mode.
    pub fn as_cf_string(self) -> (r: &'static str)
        ensures
            r == spec_downsampling_symbol(self),
    {
        match self {
            Self::Decimate => ffi::kVTDownsamplingMode_Decimate,
            Self::Average => ffi::kVTDownsamplingMode_Average,
        }
    }
}

/// Outcome of a session creation call: the session counts only when the
/// status is `0` and the returned reference is non-NULL; otherwise
/// [`VTError::SessionCreateFailed`] with the status.
pub open spec fn spec_create_result(status: OSStatus, handle: usize) -> Result<usize, VTError> {
    if status != 0 || handle == 0 {
        Err(VTError::SessionCreateFailed(status))
    } else {
        Ok(handle)
    }
}

/// Checks the outcome of a `*SessionCreate` call.
pub fn create_result(status: OSStatus, handle: usize) -> (r: Result<usize, VTError>)
    ensures
        r == spec_create_result(status, handle),
{
    if status != 0 || handle == 0 {
        Err(VTError::SessionCreateFailed(status))
    } else {
        Ok(handle)
    }
}

/// Outcome of a per-image call (transfer or rotate): success on `0`,
/// otherwise [`VTError::EncodeFailed`] with the status.
pub open spec fn spec_image_result(status: OSStatus) -> Result<(), VTError> {
    if status == 0 {
        Ok(())
    } else {
        Err(VTError::EncodeFailed(status))
    }
}

/// Apple's `VTPixelTransferSession`: color / format / scale conversion for
/// pixel buffers. Holds the address of the native session.
pub struct PixelTransferSession {
    session: usize,
}

impl View for PixelTransferSession {
    type V = usize;

    closed spec fn view(&self) -> usize {
        self.session
    }
}

impl PixelTransferSession {
    /// Adopts the session handed back by `VTPixelTransferSessionCreate`.
    pub fn from_create(status: OSStatus, session: usize) -> (r: Result<Self, VTError>)
        ensures
            r matches Ok(s) ==> spec_create_result(status, session) == Ok::<usize, VTError>(s@),
            r matches Err(e) ==> spec_create_result(status, session) == Err::<usize, VTError>(e),
    {
        match create_result(status, session) {
            Ok(h) => Ok(Self { session: h }),
            Err(e) => Err(e),
        }
    }

    /// Address of the native session.
    pub fn as_ptr(&self) -> (r: usize)
        ensures
            r == self@,
    {
        self.session
    }

    /// The `VTSessionSetProperty` call made by `set_scaling_mode`.
    pub fn scaling_mode_setting(mode: ScalingMode) -> (r: PropertySetting)
        ensures
            r == (PropertySetting {
                key: ffi::kVTPixelTransferPropertyKey_ScalingMode,
                name: "<custom>",
                value: CFValue::Constant(spec_scaling_symbol(mode)),
            }),
    {
        PropertySetting {
            key: ffi::kVTPixelTransferPropertyKey_ScalingMode,
            name: "<custom>",
            value: CFValue::Constant(mode.as_cf_string()),
        }
    }

    /// The `VTSessionSetProperty` call made by `set_downsampling_mode`.
    pub fn downsampling_mode_setting(mode: DownsamplingMode) -> (r: PropertySetting)
        ensures
            r == (PropertySetting {
                key: ffi::kVTPixelTransferPropertyKey_DownsamplingMode,
                name: "<custom>",
                value: CFValue::Constant(spec_downsampling_symbol(mode)),
            }),
    {
        PropertySetting {
            key: ffi::kVTPixelTransferPropertyKey_DownsamplingMode,
            name: "<custom>",
            value: CFValue::Constant(mode.as_cf_string()),
        }
    }

    /// The `VTSessionSetProperty` call made by `set_real_time`.
    pub fn real_time_setting(real_time: bool) -> (r: PropertySetting)
        ensures
            r == (PropertySetting {
                key: ffi::kVTPixelTransferPropertyKey_RealTime,
                name: "<custom>",
                value: CFValue::Boolean(real_time),
            }),
    {
        PropertySetting {
            key: ffi::kVTPixelTransferPropertyKey_RealTime,
            name: "<custom>",
            value: CFValue::Boolean(real_time),
        }
    }

    /// Result of `VTPixelTransferSessionTransferImage`.
    pub fn transfer_result(status: OSStatus) -> (r: Result<(), VTError>)
        ensures
            r == spec_image_result(status),
    {
        if status == 0 {
            Ok(())
        } else {
            Err(VTError::EncodeFailed(status))
        }
    }
}

/// Apple's `VTPixelRotationSession`: 90° rotation and flip engine for pixel
/// buffers. Holds the address of the native session.
pub struct PixelRotationSession {
    session: usize,
}

impl View for PixelRotationSession {
    type V = usize;

    closed spec fn view(&self) -> usize {
        self.session
    }
}

impl PixelRotationSession {
    /// Adopts the session handed back by `VTPixelRotationSessionCreate`.
    pub fn from_create(status: OSStatus, session: usize) -> (r: Result<Self, VTError>)
        ensures
            r matches Ok(s) ==> spec_create_result(status, session) == Ok::<usize, VTError>(s@),
            r matches Err(e) ==> spec_create_result(status, session) == Err::<usize, VTError>(e),
    {
        match create_result(status, session) {
            Ok(h) => Ok(Self { session: h }),
            Err(e) => Err(e),
        }
    }

    /// Address of the native session.
    pub fn as_ptr(&self) -> (r: usize)
        ensures
            r == self@,
    {
        self.session
    }

    /// The `VTSessionSetProperty` call made by `set_rotation`.
    pub fn rotation_setting(rotation: Rotation) -> (r: PropertySetting)
        ensures
            r == (PropertySetting {
                key: ffi::kVTPixelRotationPropertyKey_Rotation,
                name: "Rotation",
                value: CFValue::Constant(spec_rotation_symbol(rotation)),
            }),
    {
        PropertySetting {
            key: ffi::kVTPixelRotationPropertyKey_Rotation,
            name: "Rotation",
            value: CFValue::Constant(rotation.as_cf_string()),
        }
    }

    /// The `VTSessionSetProperty` call made by `set_flip_horizontal`.
    pub fn flip_horizontal_setting(flip: bool) -> (r: PropertySetting)
        ensures
            r == (PropertySetting {
                key: ffi::kVTPixelRotationPropertyKey_FlipHorizontalOrientation,
                name: "FlipHorizontalOrientation",
                value: CFValue::Boolean(flip),
            }),
    {
        PropertySetting {
            key: ffi::kVTPixelRotationPropertyKey_FlipHorizontalOrientation,
            name: "FlipHorizontalOrientation",
            value: CFValue::Boolean(flip),
        }
    }

    /// The `VTSessionSetProperty` call made by `set_flip_vertical`.
    pub fn flip_vertical_setting(flip: bool) -> (r: PropertySetting)
        ensures
            r == (PropertySetting {
                key: ffi::kVTPixelRotationPropertyKey_FlipVerticalOrientation,
                name: "FlipVerticalOrientation",
                value: CFValue::Boolean(flip),
            }),
    {
        PropertySetting {
            key: ffi::kVTPixelRotationPropertyKey_FlipVerticalOrientation,
            name: "FlipVerticalOrientation",
            value: CFValue::Boolean(flip),
        }
    }

    /// Result of `VTPixelRotationSessionRotateImage`.
    pub fn rotate_result(status: OSStatus) -> (r: Result<(), VTError>)
        ensures
            r == spec_image_result(status),
    {
        if status == 0 {
            Ok(())
        } else {
            Err(VTError::EncodeFailed(status))
        }
    }
}

} // verus!
