use videotoolbox::encoder_list::{
    available_video_encoder_details, available_video_encoder_details_with_options,
    available_video_encoders, cf_bool_from, codec_type_from_number, encoder_id_specification, listing_result, VideoEncoder, VideoEncoderDetails, VideoEncoderListOptions,
};
use videotoolbox::error::VTError;
use videotoolbox::ffi;
use videotoolbox::hdr_metadata::{build_hdr_options, HdrMetadataFormat, HdrMetadataSession};
use videotoolbox::motion_estimation::{
    build_creation_options, MotionEstimationSession, MotionEstimationSessionOptions,
};
use videotoolbox::multipass::{FrameSilo, MultiPassStorage};
use videotoolbox::session::{present_entries, CFValue};
use videotoolbox::utilities::cg_image_result;

#[test]
fn encoder_list_options_only_build_a_dictionary_for_dv() {
    let defaults = VideoEncoderListOptions::new();
    assert!(!defaults.include_standard_definition_dv_encoders());
    assert!(defaults.to_cf_dictionary().is_none());
    assert_eq!(VideoEncoderListOptions::default(), defaults);
    let dv = defaults.with_include_standard_definition_dv_encoders(true);
    assert_eq!(
        dv.to_cf_dictionary(),
        Some(vec![(
            ffi::kVTVideoEncoderListOption_IncludeStandardDefinitionDVEncoders,
            CFValue::Boolean(true)
        )])
    );
}

#[test]
fn encoder_listing_reports_status_or_entries() {
    assert_eq!(listing_result::<u8>(-12908, Some(vec![1])), Err(-12908));
    assert_eq!(listing_result::<u8>(0, None), Ok(vec![]));
    assert_eq!(listing_result(0, Some(vec![1u8, 2])), Ok(vec![1, 2]));
    assert_eq!(codec_type_from_number(None), 0);
    assert_eq!(codec_type_from_number(Some(0x6176_6331)), 0x6176_6331);
    assert_eq!(codec_type_from_number(Some(-1)), u32::MAX);
    assert_eq!(encoder_id_specification(None), None);
    assert_eq!(
        encoder_id_specification(Some("com.apple.videotoolbox.videoencoder.h264")),
        Some(vec![(
            ffi::kVTVideoEncoderSpecification_EncoderID,
            CFValue::String("com.apple.videotoolbox.videoencoder.h264".to_owned())
        )])
    );
}

#[test]
fn hdr_options_list_each_requested_format() {
    assert_eq!(build_hdr_options(&[]), None);
    assert_eq!(
        build_hdr_options(&[HdrMetadataFormat::DolbyVision]),
        Some(vec![(
            ffi::kVTHDRPerFrameMetadataGenerationOptionsKey_HDRFormats,
            CFValue::ConstantArray(vec![
                ffi::kVTHDRPerFrameMetadataGenerationHDRFormatType_DolbyVision
            ])
        )])
    );
    assert_eq!(
        HdrMetadataFormat::DolbyVision.as_cf_string(),
        ffi::kVTHDRPerFrameMetadataGenerationHDRFormatType_DolbyVision
    );
    let session = HdrMetadataSession::from_create(0, 0x70).expect("created");
    assert_eq!(session.as_ptr(), 0x70);
    assert_eq!(
        HdrMetadataSession::attach_result(-1),
        Err(VTError::EncodeFailed(-1))
    );
}

#[test]
fn motion_estimation_options_validate_vector_size() {
    let defaults = MotionEstimationSessionOptions::default();
    assert_eq!(build_creation_options(&defaults), Ok(None));

    let bad = MotionEstimationSessionOptions {
        motion_vector_size: Some(8),
        use_multi_pass_search: true,
        label: None,
    };
    assert_eq!(
        build_creation_options(&bad),
        Err(VTError::InvalidArgument(
            "motion_vector_size must be either 4 or 16".to_owned()
        ))
    );

    let full = MotionEstimationSessionOptions {
        motion_vector_size: Some(16),
        use_multi_pass_search: true,
        label: Some("probe".to_owned()),
    };
    assert_eq!(
        build_creation_options(&full),
        Ok(Some(vec![
            (
                ffi::kVTMotionEstimationSessionCreationOption_MotionVectorSize,
                CFValue::UInt64(16)
            ),
            (
                ffi::kVTMotionEstimationSessionCreationOption_UseMultiPassSearch,
                CFValue::Boolean(true)
            ),
            (
                ffi::kVTMotionEstimationSessionCreationOption_Label,
                CFValue::String("probe".to_owned())
            ),
        ]))
    );

    let label_only = MotionEstimationSessionOptions {
        motion_vector_size: None,
        use_multi_pass_search: false,
        label: Some("l".to_owned()),
    };
    assert_eq!(
        build_creation_options(&label_only),
        Ok(Some(vec![(
            ffi::kVTMotionEstimationSessionCreationOption_Label,
            CFValue::String("l".to_owned())
        )]))
    );
}

#[test]
fn motion_estimation_session_statuses() {
    let session = MotionEstimationSession::from_create(0, 0x60).expect("created");
    assert_eq!(session.as_ptr(), 0x60);
    assert!(MotionEstimationSession::from_create(0, 0).is_err());
    assert_eq!(MotionEstimationSession::status_result(0), Ok(()));
    assert_eq!(
        MotionEstimationSession::status_result(-2),
        Err(VTError::EncodeFailed(-2))
    );
    assert_eq!(MotionEstimationSession::estimate_result(0, 0x8), Ok(0x8));
    assert_eq!(
        MotionEstimationSession::estimate_result(0, 0),
        Err(VTError::EncodeFailed(0))
    );
}

#[test]
fn multi_pass_storage_statuses() {
    let silo = FrameSilo::from_create(0, 0x11).expect("created");
    assert_eq!(silo.as_ptr(), 0x11);
    assert_eq!(
        FrameSilo::from_create(-12904, 0x11).err(),
        Some(VTError::SessionCreateFailed(-12904))
    );
    assert_eq!(FrameSilo::status_result(-1), Err(VTError::EncodeFailed(-1)));
    assert_eq!(FrameSilo::time_range_item_count(3), Ok(3));
    assert_eq!(
        FrameSilo::time_range_item_count(usize::MAX),
        Err(VTError::InvalidArgument(
            "time range count overflowed CMItemCount".to_owned()
        ))
    );
    assert_eq!(
        FrameSilo::set_time_ranges_result(-5),
        Err(VTError::ApiFailed {
            api: "VTFrameSiloSetTimeRangesForNextPass",
            status: -5
        })
    );
    assert_eq!(FrameSilo::sample_buffers_result(0, vec![1, 2]), Ok(vec![1, 2]));
    assert_eq!(
        FrameSilo::sample_buffers_result::<u8>(-1, vec![]),
        Err(VTError::ApiFailed {
            api: "VTFrameSiloCallFunctionForEachSampleBuffer",
            status: -1
        })
    );
    let storage = MultiPassStorage::from_create(0, 0x22).expect("created");
    assert_eq!(storage.as_ptr(), 0x22);
    assert_eq!(
        MultiPassStorage::close_result(-3),
        Err(VTError::ApiFailed {
            api: "VTMultiPassStorageClose",
            status: -3
        })
    );
}

#[test]
fn listing_helpers_read_native_values() {
    assert_eq!(cf_bool_from(0, 1, 2), None);
    assert_eq!(cf_bool_from(1, 1, 2), Some(true));
    assert_eq!(cf_bool_from(2, 1, 2), Some(false));
    assert_eq!(cf_bool_from(3, 1, 2), None);
    assert_eq!(present_entries(&vec![0, 5, 0, 6]), vec![5, 6]);
    assert_eq!(cg_image_result(0, 0x9), Ok(0x9));
    assert_eq!(cg_image_result(0, 0), Err(VTError::EncodeFailed(0)));
    assert_eq!(cg_image_result(-7, 0x9), Err(VTError::EncodeFailed(-7)));
}

#[test]
fn motion_estimation_session_creation_runs_through_the_native_call() {
    let bad = MotionEstimationSessionOptions {
        motion_vector_size: Some(5),
        use_multi_pass_search: false,
        label: None,
    };
    assert_eq!(
        MotionEstimationSession::new_with_options(64, 48, &bad, |_, _, _| {
            panic!("refused options never reach the framework")
        })
        .err(),
        Some(VTError::InvalidArgument(
            "motion_vector_size must be either 4 or 16".to_owned()
        ))
    );

    let options = MotionEstimationSessionOptions {
        motion_vector_size: Some(4),
        use_multi_pass_search: false,
        label: None,
    };
    let session = MotionEstimationSession::new_with_options(64, 48, &options, |entries, w, h| {
        assert_eq!((w, h), (64, 48));
        assert_eq!(
            entries,
            Some(vec![(
                ffi::kVTMotionEstimationSessionCreationOption_MotionVectorSize,
                CFValue::UInt64(4)
            )])
        );
        (0, 0x77)
    })
    .expect("created");
    assert_eq!(session.as_ptr(), 0x77);

    let refused = MotionEstimationSession::new(8, 8, |entries, _, _| {
        assert!(entries.is_none());
        (-12903, 0)
    });
    assert_eq!(refused.err(), Some(VTError::SessionCreateFailed(-12903)));
}

#[test]
fn hdr_session_creation_runs_through_the_native_call() {
    let session = HdrMetadataSession::new(|options| {
        assert_eq!(
            options,
            Some(vec![(
                ffi::kVTHDRPerFrameMetadataGenerationOptionsKey_HDRFormats,
                CFValue::ConstantArray(vec![
                    ffi::kVTHDRPerFrameMetadataGenerationHDRFormatType_DolbyVision
                ])
            )])
        );
        (0, 0x31)
    })
    .expect("created");
    assert_eq!(session.as_ptr(), 0x31);
    let refused = HdrMetadataSession::new_with_formats(&[], |options| {
        assert!(options.is_none());
        (0, 0)
    });
    assert_eq!(refused.err(), Some(VTError::SessionCreateFailed(0)));
}

#[test]
fn encoder_listing_asks_with_default_options() {
    let h264 = VideoEncoder {
        codec_type: 0x6176_6331,
        encoder_id: "com.apple.videotoolbox.videoencoder.h264".to_owned(),
        codec_name: "H.264".to_owned(),
        encoder_name: "Apple H.264".to_owned(),
        display_name: "H.264".to_owned(),
    };
    let listed = available_video_encoders(|options| {
        assert!(options.is_none());
        (0, Some(vec![details(h264.clone(), 1)]))
    });
    assert_eq!(listed, Ok(vec![h264]));
    assert_eq!(available_video_encoders::<u8, _>(|_| (0, None)), Ok(vec![]));
    assert_eq!(available_video_encoders::<u8, _>(|_| (-12908, None)), Err(-12908));
}

fn details(base: VideoEncoder, rating: i64) -> VideoEncoderDetails<u8> {
    VideoEncoderDetails {
        base,
        gpu_registry_id: Some(7),
        supported_selection_properties: Some(3),
        performance_rating: Some(rating),
        quality_rating: Some(rating + 1),
        instance_limit: Some(false),
        is_hardware_accelerated: Some(true),
        supports_frame_reordering: None,
    }
}

fn encoder(id: &str) -> VideoEncoder {
    VideoEncoder {
        codec_type: 0x6876_6331,
        encoder_id: id.to_owned(),
        codec_name: "HEVC".to_owned(),
        encoder_name: id.to_owned(),
        display_name: "HEVC".to_owned(),
    }
}

#[test]
fn plain_listing_is_the_detailed_listing_reduced_to_identities() {
    let listed = vec![details(encoder("a"), 1), details(encoder("b"), 2), details(encoder("c"), 3)];
    let detailed = available_video_encoder_details(|_| (0, Some(listed.clone()))).unwrap();
    let plain = available_video_encoders(|_| (0, Some(listed.clone()))).unwrap();
    assert_eq!(plain, detailed.into_iter().map(|d| d.base).collect::<Vec<_>>());
    assert_eq!(plain, vec![encoder("a"), encoder("b"), encoder("c")]);
    assert!(available_video_encoder_details::<u8, _>(|_| (-12908, None)).is_err());
}

#[test]
fn detailed_listing_hands_over_the_requested_options() {
    let with_dv = VideoEncoderListOptions::new().with_include_standard_definition_dv_encoders(true);
    let listed = available_video_encoder_details_with_options(&with_dv, |options| {
        let options = options.expect("a DV request is a dictionary");
        assert_eq!(options.len(), 1);
        assert_eq!(options[0].0, ffi::kVTVideoEncoderListOption_IncludeStandardDefinitionDVEncoders);
        (0, Some(vec![details(encoder("dv"), 4)]))
    })
    .unwrap();
    assert_eq!(listed.len(), 1);
    assert_eq!(listed[0].performance_rating, Some(4));
    assert_eq!(listed[0].quality_rating, Some(5));
    assert_eq!(
        available_video_encoder_details_with_options::<u8, _>(&VideoEncoderListOptions::new(), |options| {
            assert!(options.is_none());
            (-12908, None)
        })
        .err(),
        Some(-12908)
    );
}

#[test]
fn list_options_new_equals_default_and_last_setting_wins() {
    assert_eq!(VideoEncoderListOptions::new(), VideoEncoderListOptions::default());
    assert!(!VideoEncoderListOptions::new().include_standard_definition_dv_encoders());
    let twice = VideoEncoderListOptions::new()
        .with_include_standard_definition_dv_encoders(true)
        .with_include_standard_definition_dv_encoders(false);
    assert_eq!(twice, VideoEncoderListOptions::new());
}
