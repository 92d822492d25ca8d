use videotoolbox::base::error as status;
use videotoolbox::error::VTError;
use videotoolbox::text::{
    c_string_capacity, decimal_string, parameter_text_capacity, parse_i32_text, until_nul,
};

#[test]
fn status_returns_underlying_osstatus_when_available() {
    assert_eq!(VTError::SessionCreateFailed(-12903).status(), Some(-12903));
    assert_eq!(
        VTError::SetPropertyFailed {
            key: "RealTime".to_owned(),
            status: -50,
        }
        .status(),
        Some(-50)
    );
    assert_eq!(
        VTError::ApiFailed {
            api: "VTSessionCopyProperty",
            status: -7,
        }
        .status(),
        Some(-7)
    );
}

#[test]
fn status_returns_none_for_non_osstatus_variants() {
    assert_eq!(VTError::PixelBufferCreateFailed(-666).status(), None);
    assert_eq!(
        VTError::InvalidArgument("width must be positive".to_owned()).status(),
        None
    );
    assert_eq!(
        VTError::Unsupported {
            api: "VTMotionEstimationSessionCreate",
            minimum: "26.0"
        }
        .status(),
        None
    );
    assert_eq!(VTError::TimedOut { operation: "x" }.status(), None);
}

#[test]
fn display_formats_property_and_api_failures() {
    assert_eq!(
        VTError::SetPropertyFailed {
            key: "ProfileLevel".to_owned(),
            status: -12902,
        }
        .to_string(),
        "VTSessionSetProperty(\"ProfileLevel\") failed: -12902"
    );
    assert_eq!(
        VTError::ApiFailed {
            api: "VTSessionCopyProperty",
            status: -7,
        }
        .to_string(),
        "VTSessionCopyProperty failed: -7"
    );
}

#[test]
fn display_formats_argument_and_pixel_buffer_failures() {
    assert_eq!(
        VTError::InvalidArgument("zero width".to_owned()).to_string(),
        "invalid argument: zero width"
    );
    assert_eq!(
        VTError::PixelBufferCreateFailed(-666).to_string(),
        "CVPixelBufferCreateWithIOSurface failed: -666"
    );
    assert_eq!(
        VTError::EncoderCallback(-8971).to_string(),
        "encoder callback reported status -8971"
    );
}

#[test]
fn display_formats_session_step_failures() {
    assert_eq!(
        VTError::SessionCreateFailed(-12903).to_string(),
        "VTCompressionSessionCreate failed: -12903"
    );
    assert_eq!(
        VTError::PrepareFailed(1).to_string(),
        "VTCompressionSessionPrepareToEncodeFrames failed: 1"
    );
    assert_eq!(
        VTError::EncodeFailed(0).to_string(),
        "VTCompressionSessionEncodeFrame failed: 0"
    );
    assert_eq!(
        VTError::CompleteFailed(i32::MIN).to_string(),
        "VTCompressionSessionCompleteFrames failed: -2147483648"
    );
    assert_eq!(
        VTError::SetPropertyFailed {
            key: "a\"b".to_owned(),
            status: 2,
        }
        .to_string(),
        "VTSessionSetProperty(\"a\\\"b\") failed: 2"
    );
    assert_eq!(
        VTError::Unsupported {
            api: "VTHDRPerFrameMetadataGenerationSessionCreate",
            minimum: "15.0"
        }
        .to_string(),
        "VTHDRPerFrameMetadataGenerationSessionCreate requires macOS 15.0 or newer"
    );
    assert_eq!(
        VTError::TimedOut {
            operation: "RawProcessingSession::process"
        }
        .to_string(),
        "RawProcessingSession::process timed out"
    );
}

#[test]
fn decimal_text_round_trips() {
    for n in [0, 7, -1, 42, -12902, i32::MAX, i32::MIN] {
        let text = decimal_string(n);
        assert_eq!(text, n.to_string());
        assert_eq!(parse_i32_text(&text), Some(n));
    }
    assert_eq!(parse_i32_text("+15"), Some(15));
    assert_eq!(parse_i32_text(""), None);
    assert_eq!(parse_i32_text("-"), None);
    assert_eq!(parse_i32_text("12a"), None);
    assert_eq!(parse_i32_text("2147483648"), None);
    assert_eq!(parse_i32_text("-2147483649"), None);
}

#[test]
fn status_codes_map_to_their_variants_and_back() {
    assert_eq!(
        status::VTError::from_status(status::PROPERTY_NOT_SUPPORTED),
        status::VTError::PropertyNotSupported
    );
    assert_eq!(
        status::VTError::from_status(status::PIXEL_ROTATION_NOT_SUPPORTED),
        status::VTError::PixelRotationNotSupported
    );
    assert_eq!(
        status::VTError::from_status(status::EXTENSION_CONFLICT),
        status::VTError::ExtensionConflict
    );
    assert_eq!(
        status::VTError::from_status(-1),
        status::VTError::UnknownError(-1)
    );
    assert_eq!(
        status::VTError::from_status(status::NO_ERROR),
        status::VTError::UnknownError(0)
    );
    assert_eq!(
        status::VTError::VideoDecoderBadData.to_status(),
        status::VIDEO_DECODER_BAD_DATA
    );
    assert_eq!(
        status::VTError::ImageRotationNotSupported.to_status(),
        status::PIXEL_ROTATION_NOT_SUPPORTED
    );
    assert_eq!(status::VTError::UnknownError(77).to_status(), 77);
    for code in [-12900, -12219, -17699, -19511, 5] {
        assert_eq!(status::VTError::from_status(code).to_status(), code);
    }
}

#[test]
fn status_errors_convert_and_describe_themselves() {
    let e: status::VTError = status::PARAMETER.into();
    assert_eq!(e, status::VTError::Parameter);
    let code: i32 = status::VTError::SessionMalfunction.into();
    assert_eq!(code, status::SESSION_MALFUNCTION);
    assert_eq!(status::VTError::default(), status::VTError::UnknownError(-1));
    assert_eq!(status::VTError::Parameter.to_string(), "Parameter error");
    assert_eq!(
        status::VTError::UnknownError(-5).to_string(),
        "An unknown error occurred with code -5"
    );
}

#[test]
fn c_string_buffers_are_cut_at_the_first_nul() {
    assert_eq!(until_nul(&vec![b'a', b'b', 0, b'c']), vec![b'a', b'b']);
    assert_eq!(until_nul(&vec![b'x', b'y']), vec![b'x', b'y']);
    assert_eq!(until_nul(&vec![0, 1]), Vec::<u8>::new());
    assert_eq!(c_string_capacity(5), 21);
    assert_eq!(c_string_capacity(0), 1);
    assert_eq!(c_string_capacity(-1), 0);
    assert_eq!(parameter_text_capacity(3), Some(13));
    assert_eq!(parameter_text_capacity(-2), None);
}
