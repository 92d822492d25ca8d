use videotoolbox::compression::{
    begin_pass_flags, complete_frames_result, dropped_frame, copy_bytes_result, data_buffer_result,
    end_pass_result, pixel_buffer_result, sample_buffer_from, time_range_count,
    CompressionSession, CompressionSessionBuilder, EncodePoll, EncodePollStep, EncoderGpu,
    FrameProperties, FrameSlot, HardwareAcceleration, ProfileLevel, SetupAction,
};
use videotoolbox::error::VTError;
use videotoolbox::ffi;
use videotoolbox::session::{CFValue, Codec};

fn lookup<'a>(entries: &'a [(&'static str, CFValue)], key: &str) -> Option<&'a CFValue> {
    entries.iter().find(|(k, _)| *k == key).map(|(_, v)| v)
}

#[test]
fn builder_new_starts_with_expected_defaults() {
    let builder = CompressionSessionBuilder::new(1920, 1080, Codec::H264);

    assert_eq!(builder.width(), 1920);
    assert_eq!(builder.height(), 1080);
    assert_eq!(builder.codec(), Codec::H264);
    assert_eq!(builder.real_time(), None);
    assert_eq!(builder.allow_frame_reordering(), None);
    assert_eq!(builder.average_bit_rate(), None);
    assert_eq!(builder.expected_frame_rate_bits(), None);
    assert_eq!(builder.max_keyframe_interval(), None);
    assert_eq!(builder.quality_bits(), None);
    assert_eq!(builder.profile_level(), None);
    assert_eq!(builder.hardware_acceleration(), None);
    assert_eq!(builder.encoder_id(), None);
    assert_eq!(builder.low_latency_rate_control(), None);
    assert_eq!(builder.encoder_gpu(), None);
    assert!(builder.encoder_specification().is_none());
}

#[test]
fn builder_chain_records_requested_settings() {
    let builder = CompressionSessionBuilder::new(3840, 2160, Codec::HEVC)
        .with_real_time(true)
        .with_allow_frame_reordering(false)
        .with_average_bit_rate(24_000_000)
        .with_expected_frame_rate_bits(59.94f64.to_bits())
        .with_max_keyframe_interval(120)
        .with_quality_bits(0.75f32.to_bits())
        .with_profile_level(ProfileLevel::HEVCMain10AutoLevel);

    assert_eq!(builder.width(), 3840);
    assert_eq!(builder.height(), 2160);
    assert_eq!(builder.codec(), Codec::HEVC);
    assert_eq!(builder.real_time(), Some(true));
    assert_eq!(builder.allow_frame_reordering(), Some(false));
    assert_eq!(builder.average_bit_rate(), Some(24_000_000));
    let fps = f64::from_bits(
        builder
            .expected_frame_rate_bits()
            .expect("expected frame rate should be set"),
    );
    assert!((fps - 59.94).abs() < 1.0e-9);
    assert_eq!(builder.max_keyframe_interval(), Some(120));
    let quality = f32::from_bits(builder.quality_bits().expect("quality should be set"));
    assert!((quality - 0.75).abs() < f32::EPSILON);
    assert_eq!(builder.profile_level(), Some(ProfileLevel::HEVCMain10AutoLevel));
}

#[test]
fn encoder_specification_carries_every_requested_key() {
    let builder = CompressionSessionBuilder::new(64, 64, Codec::H264)
        .with_hardware_acceleration(HardwareAcceleration::Required)
        .with_encoder_id("com.example.encoder")
        .with_low_latency_rate_control(true)
        .with_encoder_gpu(EncoderGpu::Required(u64::MAX));

    let spec = builder
        .encoder_specification()
        .expect("specification should be built");

    assert_eq!(spec.len(), 4);
    assert_eq!(
        lookup(
            &spec,
            ffi::kVTVideoEncoderSpecification_RequireHardwareAcceleratedVideoEncoder
        ),
        Some(&CFValue::Boolean(true))
    );
    assert_eq!(
        lookup(&spec, ffi::kVTVideoEncoderSpecification_EncoderID),
        Some(&CFValue::String("com.example.encoder".to_owned()))
    );
    assert_eq!(
        lookup(
            &spec,
            ffi::kVTVideoEncoderSpecification_EnableLowLatencyRateControl
        ),
        Some(&CFValue::Boolean(true))
    );
    assert_eq!(
        lookup(
            &spec,
            ffi::kVTVideoEncoderSpecification_RequiredEncoderGPURegistryID
        ),
        Some(&CFValue::UInt64(u64::MAX))
    );
}

#[test]
fn encoder_specification_maps_preferred_and_disabled_acceleration() {
    let preferred = CompressionSessionBuilder::new(64, 64, Codec::H264)
        .with_hardware_acceleration(HardwareAcceleration::Preferred)
        .with_encoder_gpu(EncoderGpu::Preferred(7))
        .encoder_specification()
        .expect("specification should be built");
    let enable = ffi::kVTVideoEncoderSpecification_EnableHardwareAcceleratedVideoEncoder;
    assert_eq!(lookup(&preferred, enable), Some(&CFValue::Boolean(true)));
    assert!(lookup(
        &preferred,
        ffi::kVTVideoEncoderSpecification_PreferredEncoderGPURegistryID
    )
    .is_some());

    let disabled = CompressionSessionBuilder::new(64, 64, Codec::H264)
        .with_hardware_acceleration(HardwareAcceleration::Disabled)
        .encoder_specification()
        .expect("specification should be built");
    assert_eq!(disabled.len(), 1);
    assert_eq!(lookup(&disabled, enable), Some(&CFValue::Boolean(false)));
}

#[test]
fn frame_properties_only_build_a_dictionary_when_needed() {
    assert!(FrameProperties::new().to_dictionary().is_none());
    assert_eq!(FrameProperties::default(), FrameProperties::new());

    let dictionary = FrameProperties::new()
        .with_force_key_frame(true)
        .to_dictionary()
        .expect("forced keyframe needs a dictionary");
    assert_eq!(dictionary.len(), 1);
    assert_eq!(
        lookup(&dictionary, ffi::kVTEncodeFrameOptionKey_ForceKeyFrame),
        Some(&CFValue::Boolean(true))
    );
}

#[test]
fn build_rejects_non_positive_dimensions_before_entering_ffi() {
    let error = CompressionSessionBuilder::new(0, 1080, Codec::H264)
        .build()
        .expect_err("zero width must fail before session creation");

    assert_eq!(
        error,
        VTError::InvalidArgument("width/height must be positive (got 0x1080)".to_owned())
    );
}

#[test]
fn build_reports_negative_dimensions_in_the_message() {
    let error = CompressionSessionBuilder::new(640, -2, Codec::HEVC)
        .build()
        .expect_err("negative height must fail");
    assert_eq!(
        error,
        VTError::InvalidArgument("width/height must be positive (got 640x-2)".to_owned())
    );
}

#[test]
fn output_callback_completes_the_frame_it_belongs_to() {
    let mut first: FrameSlot<u32> = FrameSlot::new();
    let mut second: FrameSlot<u32> = FrameSlot::new();

    assert!(second.on_output(0, 7));
    assert!(first.on_output(-12902, 0));

    assert_eq!(second.take(), Some(Ok(7)));
    assert_eq!(first.take(), Some(Err(VTError::EncoderCallback(-12902))));
    assert!(!first.release_native());
    assert!(!second.release_native());
}

#[test]
fn duplicate_output_callback_is_ignored() {
    let mut slot: FrameSlot<u32> = FrameSlot::new();

    assert!(slot.on_output(0, 1));
    assert!(!slot.on_output(-1, 2));

    assert_eq!(slot.take(), Some(Ok(1)));
    assert!(!slot.release_native());
}

#[test]
fn rejected_submission_releases_the_native_reference() {
    let mut slot: FrameSlot<u32> = FrameSlot::new();

    let (result, released) = slot.submitted(-12902);

    assert_eq!(result.err(), Some(VTError::EncodeFailed(-12902)));
    assert!(released);
    assert!(!slot.release_native());
}

#[test]
fn rejected_submission_after_a_synchronous_callback_releases_once() {
    let mut slot: FrameSlot<u32> = FrameSlot::new();

    let by_callback = slot.on_output(0, 0);
    let (result, by_submission) = slot.submitted(-12902);

    assert_eq!(result.err(), Some(VTError::EncodeFailed(-12902)));
    assert!(by_callback);
    assert!(!by_submission);
}

#[test]
fn accepted_submission_hands_one_reference_to_the_encoder() {
    let mut slot: FrameSlot<u32> = FrameSlot::new();

    let (result, released) = slot.submitted(0);
    assert!(result.is_ok());
    assert!(!released);
    assert!(slot.on_output(0, 5));
    assert_eq!(slot.take(), Some(Ok(5)));
    assert_eq!(slot.take(), None);
}

#[test]
fn profile_level_maps_to_expected_cfstring_constants() {
    assert_eq!(
        ProfileLevel::H264HighAutoLevel.as_cf_string(),
        ffi::kVTProfileLevel_H264_High_AutoLevel
    );
    assert_eq!(
        ProfileLevel::HEVCMain10AutoLevel.as_cf_string(),
        ffi::kVTProfileLevel_HEVC_Main10_AutoLevel
    );
}

#[test]
fn compression_property_keys_are_non_null_and_distinct() {
    let real_time = ffi::kVTCompressionPropertyKey_RealTime;
    let profile_level = ffi::kVTCompressionPropertyKey_ProfileLevel;
    let quality = ffi::kVTCompressionPropertyKey_Quality;

    assert!(!real_time.is_empty());
    assert!(!profile_level.is_empty());
    assert!(!quality.is_empty());
    assert_ne!(real_time, profile_level);
    assert_ne!(real_time, quality);
    assert_ne!(profile_level, quality);
}

#[test]
fn profile_level_round_trips_through_its_name() {
    for profile in &ProfileLevel::ALL {
        assert_eq!(ProfileLevel::from_name(profile.name()), Some(*profile));
    }
}

#[test]
fn profile_level_lookup_ignores_case_and_separators() {
    let expected = Some(ProfileLevel::H264HighAutoLevel);
    assert_eq!(ProfileLevel::from_name("h264highautolevel"), expected);
    assert_eq!(ProfileLevel::from_name("H264_High_AutoLevel"), expected);
    assert_eq!(ProfileLevel::from_name("h264 high auto level"), expected);
    assert_eq!(ProfileLevel::from_name("nope"), None);
}

#[test]
fn profile_level_lookup_by_level_digits() {
    assert_eq!(
        ProfileLevel::from_name("h264-baseline-1.3"),
        Some(ProfileLevel::H264Baseline1_3)
    );
    assert_eq!(
        ProfileLevel::from_name("MP4V_AdvancedSimple_L4"),
        Some(ProfileLevel::MP4VAdvancedSimpleL4)
    );
    assert_eq!(ProfileLevel::from_name(""), None);
}

#[test]
fn profile_level_index_table_is_in_declaration_order() {
    assert_eq!(ProfileLevel::at(0), Some(ProfileLevel::H263Profile0Level10));
    assert_eq!(ProfileLevel::at(54), Some(ProfileLevel::MP4VSimpleL3));
    assert_eq!(ProfileLevel::at(55), None);
    for (i, p) in ProfileLevel::ALL.iter().enumerate() {
        assert_eq!(ProfileLevel::at(i), Some(*p));
    }
}

#[test]
fn session_properties_follow_builder_order() {
    let builder = CompressionSessionBuilder::new(64, 48, Codec::H264)
        .with_profile_level(ProfileLevel::H264Main4_1)
        .with_average_bit_rate(1_000_000)
        .with_real_time(false);
    let properties = builder.session_properties();
    let names: Vec<&str> = properties.iter().map(|p| p.name).collect();
    assert_eq!(names, vec!["RealTime", "AverageBitRate", "ProfileLevel"]);
    assert_eq!(properties[0].key, ffi::kVTCompressionPropertyKey_RealTime);
    assert_eq!(properties[1].value, CFValue::SInt32(1_000_000));
    assert_eq!(
        properties[2].value,
        CFValue::Constant(ffi::kVTProfileLevel_H264_Main_4_1)
    );
}

#[test]
fn setup_runs_create_properties_prepare_in_order() {
    let mut setup = CompressionSessionBuilder::new(64, 48, Codec::HEVC)
        .with_real_time(true)
        .with_quality_bits(0.5f32.to_bits())
        .build()
        .expect("dimensions are positive");
    assert_eq!(setup.width(), 64);
    assert_eq!(setup.height(), 48);
    assert_eq!(setup.codec_type(), ffi::kCMVideoCodecType_HEVC);
    assert_eq!(setup.next_action(), SetupAction::Create);
    assert!(setup.record(0, false).is_ok());
    assert_eq!(setup.next_action(), SetupAction::SetProperty(0));
    assert!(setup.record(0, false).is_ok());
    assert_eq!(setup.next_action(), SetupAction::SetProperty(1));
    assert!(setup.record(0, false).is_ok());
    assert_eq!(setup.next_action(), SetupAction::Prepare);
    assert!(!setup.is_ready());
    assert!(setup.record(0, false).is_ok());
    assert_eq!(setup.next_action(), SetupAction::Finished);
    assert!(setup.is_ready());
}

#[test]
fn setup_stops_at_the_first_failing_step() {
    let mut setup = CompressionSessionBuilder::new(64, 48, Codec::H264)
        .with_allow_frame_reordering(false)
        .build()
        .expect("dimensions are positive");
    assert!(setup.record(0, false).is_ok());
    assert_eq!(
        setup.record(-12900, false),
        Err(VTError::SetPropertyFailed {
            key: "AllowFrameReordering".to_owned(),
            status: -12900,
        })
    );
    assert_eq!(setup.next_action(), SetupAction::Finished);
    assert!(!setup.is_ready());

    let mut null_session = CompressionSessionBuilder::new(8, 8, Codec::H264)
        .build()
        .expect("dimensions are positive");
    assert_eq!(
        null_session.record(0, true),
        Err(VTError::SessionCreateFailed(0))
    );

    let mut unprepared = CompressionSessionBuilder::new(8, 8, Codec::H264)
        .build()
        .expect("dimensions are positive");
    assert!(unprepared.record(0, false).is_ok());
    assert_eq!(unprepared.record(-5, false), Err(VTError::PrepareFailed(-5)));
}

#[test]
fn ready_setup_gives_a_session_that_tears_down_once() {
    let mut setup = CompressionSessionBuilder::new(8, 8, Codec::ProRes422)
        .build()
        .expect("dimensions are positive");
    assert!(CompressionSession::from_setup(&setup, 0x1000).is_none());
    assert!(setup.record(0, false).is_ok());
    assert!(setup.record(0, false).is_ok());
    assert!(CompressionSession::from_setup(&setup, 0).is_none());
    let mut session = CompressionSession::from_setup(&setup, 0x1000).expect("setup is ready");
    assert_eq!(session.as_ptr(), 0x1000);
    assert_eq!(session.take_native(), Some(0x1000));
    assert_eq!(session.take_native(), None);
    assert_eq!(session.as_ptr(), 0);
}

#[test]
fn invalidate_reports_the_completion_status() {
    let mut setup = CompressionSessionBuilder::new(8, 8, Codec::H264)
        .build()
        .expect("dimensions are positive");
    assert!(setup.record(0, false).is_ok());
    assert!(setup.record(0, false).is_ok());
    let session = CompressionSession::from_setup(&setup, 0x2000).expect("setup is ready");
    let mut seen = 0usize;
    let result = session.invalidate(|native| {
        seen = native;
        -12911
    });
    assert_eq!(seen, 0x2000);
    assert_eq!(result, Err(VTError::CompleteFailed(-12911)));

    let mut torn_down = CompressionSession::from_setup(&setup, 0x3000).expect("setup is ready");
    assert_eq!(torn_down.take_native(), Some(0x3000));
    assert_eq!(
        torn_down.invalidate(|_| panic!("nothing left to release")),
        Ok(())
    );
}

#[test]
fn multi_pass_helpers_map_statuses_and_flags() {
    assert_eq!(begin_pass_flags(true), ffi::kVTCompressionSessionBeginFinalPass);
    assert_eq!(begin_pass_flags(false), 0);
    assert_eq!(end_pass_result(0, 1), Ok(true));
    assert_eq!(end_pass_result(0, 0), Ok(false));
    assert_eq!(
        end_pass_result(-3, 1),
        Err(VTError::ApiFailed {
            api: "VTCompressionSessionEndPass",
            status: -3
        })
    );
    assert_eq!(time_range_count(0, 3, false), Ok(3));
    assert_eq!(time_range_count(0, -1, false), Ok(0));
    assert_eq!(time_range_count(0, 2, true), Ok(0));
    assert_eq!(
        time_range_count(-9, 2, false),
        Err(VTError::ApiFailed {
            api: "VTCompressionSessionGetTimeRangesForNextPass",
            status: -9
        })
    );
    assert_eq!(complete_frames_result(0), Ok(()));
    assert_eq!(complete_frames_result(-1), Err(VTError::CompleteFailed(-1)));
}

#[test]
fn frame_output_checks_report_encoder_statuses() {
    assert_eq!(pixel_buffer_result(0, 0x10), Ok(0x10));
    assert_eq!(
        pixel_buffer_result(0, 0),
        Err(VTError::PixelBufferCreateFailed(0))
    );
    assert_eq!(
        pixel_buffer_result(-6661, 0x10),
        Err(VTError::PixelBufferCreateFailed(-6661))
    );
    assert_eq!(data_buffer_result(0x20), Ok(0x20));
    assert_eq!(data_buffer_result(0), Err(VTError::EncoderCallback(-2)));
    assert_eq!(copy_bytes_result(0), Ok(()));
    assert_eq!(copy_bytes_result(-12), Err(VTError::EncoderCallback(-12)));
    assert_eq!(sample_buffer_from::<u8>(Ok(Some(3))), Ok(3));
    assert_eq!(
        sample_buffer_from::<u8>(Ok(None)),
        Err(VTError::EncoderCallback(-1))
    );
    assert_eq!(
        sample_buffer_from::<u8>(Err(VTError::EncodeFailed(-4))),
        Err(VTError::EncodeFailed(-4))
    );
}

#[test]
fn awaited_encode_forces_output_only_once() {
    let mut poll = EncodePoll::new();
    assert_eq!(poll.step(false), EncodePollStep::Force);
    assert_eq!(poll.step(false), EncodePollStep::Pending);
    assert_eq!(poll.step(false), EncodePollStep::Pending);
    assert_eq!(poll.step(true), EncodePollStep::Ready);

    let mut quick = EncodePoll::new();
    assert_eq!(quick.step(true), EncodePollStep::Ready);
}

#[test]
fn codec_mappings_are_unique_across_variants() {
    let codecs = [
        Codec::H264,
        Codec::HEVC,
        Codec::ProRes422,
        Codec::ProRes422HQ,
        Codec::ProRes422LT,
        Codec::ProRes422Proxy,
        Codec::ProRes4444,
    ];
    let mut seen = std::collections::HashSet::new();

    for codec in codecs {
        assert!(seen.insert(codec.as_cm_codec_type()));
    }
    assert_eq!(seen.len(), 7);
}

#[test]
fn h264_and_hevc_codecs_match_expected_fourcc_values() {
    assert_eq!(Codec::H264.as_cm_codec_type(), u32::from_be_bytes(*b"avc1"));
    assert_eq!(Codec::H264.as_cm_codec_type(), ffi::kCMVideoCodecType_H264);
    assert_eq!(Codec::HEVC.as_cm_codec_type(), u32::from_be_bytes(*b"hvc1"));
    assert_eq!(Codec::HEVC.as_cm_codec_type(), ffi::kCMVideoCodecType_HEVC);
}

#[test]
fn prores_family_codecs_match_expected_fourcc_values() {
    assert_eq!(
        Codec::ProRes422.as_cm_codec_type(),
        u32::from_be_bytes(*b"apcn")
    );
    assert_eq!(
        Codec::ProRes422HQ.as_cm_codec_type(),
        u32::from_be_bytes(*b"apch")
    );
    assert_eq!(
        Codec::ProRes422LT.as_cm_codec_type(),
        u32::from_be_bytes(*b"apcs")
    );
    assert_eq!(
        Codec::ProRes422Proxy.as_cm_codec_type(),
        u32::from_be_bytes(*b"apco")
    );
    assert_eq!(
        Codec::ProRes4444.as_cm_codec_type(),
        u32::from_be_bytes(*b"ap4h")
    );
}

#[test]
fn last_key_frame_request_wins() {
    let p = FrameProperties::new();
    assert_eq!(p.with_force_key_frame(true).with_force_key_frame(false), p.with_force_key_frame(false));
    assert_eq!(p.with_force_key_frame(false).with_force_key_frame(true), p.with_force_key_frame(true));
    assert_eq!(FrameProperties::new().with_force_key_frame(false), FrameProperties::new());
    assert_ne!(FrameProperties::new().with_force_key_frame(true), FrameProperties::new());
}

#[test]
fn dropped_frame_keeps_its_source_time_and_flags() {
    let frame = dropped_frame::<(i64, i32), u8>((42, 600), 0x2);
    assert!(frame.data.is_empty());
    assert_eq!(frame.presentation_time, (42, 600));
    assert_eq!(frame.info_flags, 0x2);
    assert!(frame.sample_buffer.is_none());
}
