use videotoolbox::compression::PropertySetting;
use videotoolbox::error::VTError;
use videotoolbox::ffi;
use videotoolbox::session::CFValue;
use videotoolbox::transfer::{
    create_result, DownsamplingMode, PixelRotationSession, PixelTransferSession, Rotation,
    ScalingMode,
};

#[test]
fn rotation_variants_map_to_expected_cfstring_constants() {
    assert_eq!(Rotation::Zero.as_cf_string(), ffi::kVTRotation_0);
    assert_eq!(Rotation::Clockwise90.as_cf_string(), ffi::kVTRotation_CW90);
    assert_eq!(Rotation::Half180.as_cf_string(), ffi::kVTRotation_180);
    assert_eq!(
        Rotation::CounterClockwise90.as_cf_string(),
        ffi::kVTRotation_CCW90
    );
}

#[test]
fn scaling_modes_map_to_expected_cfstring_constants() {
    assert_eq!(ScalingMode::Normal.as_cf_string(), ffi::kVTScalingMode_Normal);
    assert_eq!(
        ScalingMode::CropSourceToCleanAperture.as_cf_string(),
        ffi::kVTScalingMode_CropSourceToCleanAperture
    );
    assert_eq!(
        ScalingMode::Letterbox.as_cf_string(),
        ffi::kVTScalingMode_Letterbox
    );
    assert_eq!(ScalingMode::Trim.as_cf_string(), ffi::kVTScalingMode_Trim);
}

#[test]
fn downsampling_modes_map_to_expected_cfstring_constants() {
    assert_eq!(
        DownsamplingMode::Decimate.as_cf_string(),
        ffi::kVTDownsamplingMode_Decimate
    );
    assert_eq!(
        DownsamplingMode::Average.as_cf_string(),
        ffi::kVTDownsamplingMode_Average
    );
}

#[test]
fn session_creation_needs_zero_status_and_a_session() {
    assert_eq!(create_result(0, 0x40), Ok(0x40));
    assert_eq!(create_result(0, 0), Err(VTError::SessionCreateFailed(0)));
    assert_eq!(create_result(-12903, 0x40), Err(VTError::SessionCreateFailed(-12903)));
    let transfer = PixelTransferSession::from_create(0, 0x80).expect("created");
    assert_eq!(transfer.as_ptr(), 0x80);
    assert!(PixelRotationSession::from_create(-1, 0x80).is_err());
}

#[test]
fn rotation_settings_name_their_property() {
    assert_eq!(
        PixelRotationSession::rotation_setting(Rotation::Clockwise90),
        PropertySetting {
            key: ffi::kVTPixelRotationPropertyKey_Rotation,
            name: "Rotation",
            value: CFValue::Constant(ffi::kVTRotation_CW90),
        }
    );
    assert_eq!(
        PixelRotationSession::flip_horizontal_setting(true).name,
        "FlipHorizontalOrientation"
    );
    assert_eq!(
        PixelRotationSession::flip_vertical_setting(false),
        PropertySetting {
            key: ffi::kVTPixelRotationPropertyKey_FlipVerticalOrientation,
            name: "FlipVerticalOrientation",
            value: CFValue::Boolean(false),
        }
    );
    assert_eq!(
        PixelTransferSession::scaling_mode_setting(ScalingMode::Letterbox).value,
        CFValue::Constant(ffi::kVTScalingMode_Letterbox)
    );
    assert_eq!(
        PixelTransferSession::downsampling_mode_setting(DownsamplingMode::Average).key,
        ffi::kVTPixelTransferPropertyKey_DownsamplingMode
    );
    assert_eq!(
        PixelTransferSession::real_time_setting(true).name,
        "<custom>"
    );
}

#[test]
fn image_calls_report_encode_failures() {
    assert_eq!(PixelTransferSession::transfer_result(0), Ok(()));
    assert_eq!(
        PixelTransferSession::transfer_result(-12905),
        Err(VTError::EncodeFailed(-12905))
    );
    assert_eq!(
        PixelRotationSession::rotate_result(-12914),
        Err(VTError::EncodeFailed(-12914))
    );
}
