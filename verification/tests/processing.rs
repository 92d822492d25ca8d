use videotoolbox::decompression::{
    single_sample_result, DECODE_FRAME_ASYNC,
    async_decode_error, complete_async_decode, decoder_status_result, max_output_buffer_depth_setting,
    parse_async_status, real_time_setting, route_decode_callback, settle_multi_image_callback,
    DecodeRoute, DecodedMultiImageFrame,
};
use videotoolbox::error::VTError;
use videotoolbox::ffi;
use videotoolbox::ffi::dynamic::Symbol;
use videotoolbox::frame_processor::{
    check_flow_buffers, check_frame_buffer, default_super_resolution_configuration,
    download_super_resolution_model, super_resolution_model_status,
    object_result, validate_parallel_lengths, FrameProcessor, FrameProcessorCapabilities,
    FrameProcessorSubmissionMode, FrameRateConversionConfiguration,
    FrameRateConversionSubmissionMode, MotionBlurConfiguration, OpticalFlowConfiguration,
    SuperResolutionConfiguration, SuperResolutionModelStatus,
    VTFrameRateConversionConfigurationQualityPrioritization,
    VTFrameRateConversionConfigurationRevision, VTMotionBlurConfigurationQualityPrioritization,
    VTMotionBlurConfigurationRevision, VTOpticalFlowConfigurationQualityPrioritization,
    VTOpticalFlowConfigurationRevision, VTSuperResolutionScalerConfigurationInputType,
    VTSuperResolutionScalerConfigurationQualityPrioritization,
    VTSuperResolutionScalerConfigurationRevision,
};
use videotoolbox::raw_processing::{
    async_processing_error, handler_update_result, parameters_from_entries, parameters_result,
    process_result, HandlerSlot, InvocationStep, ParameterChangedInvocation, VTB_TIMED_OUT,
};
use videotoolbox::session::{api_result, copy_result, set_property_result, CFValue};
use videotoolbox::tagged_buffer_group::TaggedBufferGroup;

#[test]
fn missing_symbol_reports_the_api_and_minimum() {
    let mut symbol = Symbol::new("VTNoSuchFunctionForTesting\0", "99.0");

    assert_eq!(
        symbol.resolve(|_| 0),
        Err(VTError::Unsupported {
            api: "VTNoSuchFunctionForTesting",
            minimum: "99.0",
        })
    );
    assert!(symbol
        .resolve(|_| panic!("a symbol is looked up only once"))
        .is_err());
}

#[test]
fn present_symbol_keeps_its_first_address() {
    let mut symbol = Symbol::new("VTCompressionSessionGetTypeID\0", "10.8");
    assert!(symbol.needs_lookup());
    let mut asked = String::new();
    let first = symbol.resolve(|name| {
        asked = name.to_owned();
        0x1234
    });
    assert_eq!(asked, "VTCompressionSessionGetTypeID\0");
    assert_eq!(first, Ok(0x1234));
    assert!(!symbol.needs_lookup());
    assert_eq!(symbol.resolve(|_| 0x9999), Ok(0x1234));
}

#[test]
fn failed_native_transition_keeps_current_callback() {
    let mut handler: HandlerSlot<u32> = HandlerSlot::new();
    assert_eq!(handler.transition(Some(1), 0), Some(None));

    let retired = handler.transition(Some(2), -7);

    assert_eq!(retired, None);
    assert_eq!(handler.current(), Some(&1));
    assert_eq!(
        handler_update_result(-7),
        Err(VTError::ApiFailed {
            api: "VTRAWProcessingSessionSetParameterChangedHandler",
            status: -7
        })
    );
}

#[test]
fn accepted_transition_retires_the_previous_callback() {
    let mut handler: HandlerSlot<&str> = HandlerSlot::new();
    assert_eq!(handler.transition(Some("first"), 0), Some(None));
    assert_eq!(handler.transition(Some("second"), 0), Some(Some("first")));
    assert_eq!(handler.transition(None, 0), Some(Some("second")));
    assert!(!handler.is_installed());
    assert_eq!(handler_update_result(0), Ok(()));
}

#[test]
fn callback_reentrancy_does_not_deadlock() {
    let mut invocation = ParameterChangedInvocation::new(|calls: &mut usize| *calls += 1);
    let mut calls = 0usize;

    match invocation.begin(1) {
        InvocationStep::Run(callback) => {
            callback(&mut calls);
            assert!(matches!(invocation.begin(1), InvocationStep::Reentrant));
            assert!(matches!(invocation.begin(2), InvocationStep::Wait));
            assert_eq!(invocation.owner(), Some(1));
            invocation.finish(callback);
        }
        _ => panic!("a free handler runs"),
    }
    assert_eq!(calls, 1);
    assert_eq!(invocation.owner(), None);
    assert!(matches!(invocation.begin(2), InvocationStep::Run(_)));
}

#[test]
fn parameter_arrays_skip_null_entries() {
    let parameters = parameters_from_entries(&vec![0x10, 0, 0x30, 0]);
    let addresses: Vec<usize> = parameters.iter().map(|p| p.as_ptr()).collect();
    assert_eq!(addresses, vec![0x10, 0x30]);
    assert!(parameters_from_entries(&Vec::new()).is_empty());
    assert_eq!(parameters_result(0, 0x50), Ok(0x50));
    assert_eq!(parameters_result(0, 0), Err(VTError::EncodeFailed(0)));
}

#[test]
fn raw_processing_reports_time_outs_and_failures() {
    assert_eq!(VTB_TIMED_OUT, i32::from_be_bytes(*b"vtto"));
    assert_eq!(
        process_result(VTB_TIMED_OUT, 0x10),
        Err(VTError::TimedOut {
            operation: "RawProcessingSession::process"
        })
    );
    assert_eq!(process_result(-3, 0x10), Err(VTError::EncodeFailed(-3)));
    assert_eq!(process_result(0, 0), Err(VTError::EncodeFailed(0)));
    assert_eq!(process_result(0, 0x10), Ok(0x10));
    assert_eq!(async_processing_error("-50"), VTError::EncodeFailed(-50));
    assert_eq!(async_processing_error("garbled"), VTError::EncodeFailed(-1));
}

#[test]
fn awaited_decode_reports_the_decoder_status() {
    assert_eq!(complete_async_decode(0, false), Ok(()));
    let failure = complete_async_decode(-12909, false).expect_err("decoder failed");
    assert_eq!(failure, "-12909");
    assert_eq!(async_decode_error(&failure), VTError::EncoderCallback(-12909));
    let missing = complete_async_decode(0, true).expect_err("no image");
    assert_eq!(missing, "-1");
    assert_eq!(async_decode_error(&missing), VTError::EncoderCallback(-1));
    assert_eq!(parse_async_status("12"), 12);
    assert_eq!(parse_async_status("not a status"), -1);
}

#[test]
fn decode_callbacks_are_routed_by_context() {
    assert_eq!(route_decode_callback(true, true), DecodeRoute::Awaited);
    assert_eq!(route_decode_callback(true, false), DecodeRoute::Awaited);
    assert_eq!(route_decode_callback(false, true), DecodeRoute::Deliver);
    assert_eq!(route_decode_callback(false, false), DecodeRoute::Discard);
    assert_eq!(decoder_status_result(0), Ok(()));
    assert_eq!(decoder_status_result(-8), Err(VTError::EncoderCallback(-8)));
}

#[test]
fn refused_multi_image_callback_is_removed() {
    let mut slot = Some("callback");
    assert_eq!(
        settle_multi_image_callback(&mut slot, -2),
        Err(VTError::ApiFailed {
            api: "VTDecompressionSessionSetMultiImageCallback",
            status: -2
        })
    );
    assert_eq!(slot, None);
    let mut kept = Some("callback");
    assert_eq!(settle_multi_image_callback(&mut kept, 0), Ok(()));
    assert_eq!(kept, Some("callback"));
}

#[test]
fn decoder_property_settings() {
    let real_time = real_time_setting(true);
    assert_eq!(real_time.key, ffi::kVTDecompressionPropertyKey_RealTime);
    assert_eq!(real_time.value, CFValue::Boolean(true));
    let depth = max_output_buffer_depth_setting(4);
    assert_eq!(
        depth.key,
        ffi::kVTDecompressionPropertyKey_MaximumOutputBufferDepth
    );
    assert_eq!(depth.value, CFValue::SInt32(4));
    assert_eq!(depth.name, "<custom>");
}

#[test]
fn multi_image_frame_holds_its_group() {
    let frame = DecodedMultiImageFrame {
        tagged_buffer_group: TaggedBufferGroup::from_raw(0x44, 2),
        presentation_time: (3, 30),
        duration: (1, 30),
        info_flags: 0,
        status: 0,
    };
    let group = frame.tagged_buffer_group.as_ref().expect("group");
    assert_eq!(group.len(), 2);
    assert!(!group.is_empty());
    assert_eq!(group.as_ptr(), 0x44);
    assert!(TaggedBufferGroup::from_raw(0, 2).is_none());
    assert!(TaggedBufferGroup::from_raw(0x44, -1).expect("group").is_empty());
    assert_eq!(TaggedBufferGroup::item_index(3), Some(3));
    assert_eq!(TaggedBufferGroup::item_index(usize::MAX), None);
}

#[test]
fn frame_processor_configurations_start_at_defaults() {
    let sr = SuperResolutionConfiguration::new(1920, 1080, 2);
    assert_eq!(sr.frame_width, 1920);
    assert_eq!(sr.scale_factor, 2);
    assert!(!sr.use_precomputed_flow);
    assert_eq!(sr.input_type, VTSuperResolutionScalerConfigurationInputType::Video);
    assert_eq!(
        sr.quality_prioritization,
        VTSuperResolutionScalerConfigurationQualityPrioritization::Normal
    );
    assert_eq!(sr.revision, VTSuperResolutionScalerConfigurationRevision::Revision1);

    let image = default_super_resolution_configuration(640, 480, 4, true, true);
    assert!(image.use_precomputed_flow);
    assert_eq!(image.input_type, VTSuperResolutionScalerConfigurationInputType::Image);
    assert_eq!(image.input_type.as_raw(), 2);

    let blur = MotionBlurConfiguration::new(1920, 1080);
    assert_eq!(
        blur.quality_prioritization,
        VTMotionBlurConfigurationQualityPrioritization::Normal
    );
    assert_eq!(blur.revision.as_raw(), VTMotionBlurConfigurationRevision::Revision1.as_raw());
    let frc = FrameRateConversionConfiguration::new(1920, 1080);
    assert_eq!(
        frc.quality_prioritization.as_raw(),
        VTFrameRateConversionConfigurationQualityPrioritization::Normal.as_raw()
    );
    assert_eq!(
        VTFrameRateConversionConfigurationQualityPrioritization::Quality.as_raw(),
        2
    );
    assert_eq!(frc.revision, VTFrameRateConversionConfigurationRevision::Revision1);
    let flow = OpticalFlowConfiguration::new(1280, 720);
    assert_eq!(flow.frame_height, 720);
    assert_eq!(
        flow.quality_prioritization,
        VTOpticalFlowConfigurationQualityPrioritization::Normal
    );
    assert_eq!(flow.revision.as_raw(), VTOpticalFlowConfigurationRevision::Revision1.as_raw());
}

#[test]
fn frame_processor_modes_and_statuses() {
    assert_eq!(FrameProcessorSubmissionMode::Random.as_raw(), 1);
    assert_eq!(FrameProcessorSubmissionMode::Sequential.as_raw(), 2);
    assert_eq!(
        FrameRateConversionSubmissionMode::SequentialReferencesUnchanged.as_raw(),
        3
    );
    assert_eq!(
        SuperResolutionModelStatus::from_raw(0),
        Some(SuperResolutionModelStatus::DownloadRequired)
    );
    assert_eq!(
        SuperResolutionModelStatus::from_raw(2),
        Some(SuperResolutionModelStatus::Ready)
    );
    assert_eq!(SuperResolutionModelStatus::from_raw(3), None);
    assert_eq!(SuperResolutionModelStatus::from_raw(-1), None);
    assert_eq!(SuperResolutionModelStatus::Downloading.as_raw(), 1);
    assert_eq!(FrameProcessorCapabilities::default().optical_flow, false);
}

#[test]
fn frame_processor_argument_checks() {
    assert_eq!(validate_parallel_lengths("interpolation_phase", 2, 2), Ok(()));
    assert_eq!(
        validate_parallel_lengths("interpolation_phase", 3, 1),
        Err(VTError::InvalidArgument(
            "interpolation_phase length (3) must match destination frame count (1)".to_owned()
        ))
    );
    assert_eq!(check_frame_buffer(true), Ok(()));
    assert_eq!(
        check_frame_buffer(false),
        Err(VTError::InvalidArgument(
            "VTFrameProcessorFrame requires an IOSurface-backed CVPixelBuffer".to_owned()
        ))
    );
    assert_eq!(check_flow_buffers(true, true), Ok(()));
    assert!(check_flow_buffers(true, false).is_err());
    assert_eq!(
        object_result("VTFrameProcessorFrame.init", -1, 0x10),
        Err(VTError::ApiFailed {
            api: "VTFrameProcessorFrame.init",
            status: -1
        })
    );
    assert_eq!(object_result("x", 0, 0x10), Ok(0x10));
    let processor = FrameProcessor::from_status(0, 0x99).expect("started");
    assert_eq!(processor.as_ptr(), 0x99);
    assert!(matches!(
        FrameProcessor::from_status(0, 0),
        Err(VTError::SessionCreateFailed(0))
    ));
}

#[test]
fn session_calls_map_statuses() {
    assert_eq!(api_result("VTSessionSetProperties", 0), Ok(()));
    assert_eq!(
        api_result("VTSessionSetProperties", -4),
        Err(VTError::ApiFailed {
            api: "VTSessionSetProperties",
            status: -4
        })
    );
    assert_eq!(
        copy_result("VTSessionCopySupportedPropertyDictionary", 0, true),
        Err(VTError::ApiFailed {
            api: "VTSessionCopySupportedPropertyDictionary",
            status: 0
        })
    );
    assert_eq!(copy_result("VTSessionCopySerializableProperties", 0, false), Ok(()));
    assert_eq!(
        set_property_result("RealTime", -12900),
        Err(VTError::SetPropertyFailed {
            key: "RealTime".to_owned(),
            status: -12900
        })
    );
    assert_eq!(set_property_result("RealTime", 0), Ok(()));
}

#[test]
fn super_resolution_model_queries_use_the_size_based_configuration() {
    let status = super_resolution_model_status(1920, 1080, 2, false, true, |c| {
        assert_eq!(c, default_super_resolution_configuration(1920, 1080, 2, false, true));
        2
    });
    assert_eq!(status, Some(SuperResolutionModelStatus::Ready));
    assert_eq!(super_resolution_model_status(8, 8, 2, true, false, |_| 9), None);
    assert_eq!(
        download_super_resolution_model(8, 8, 2, false, false, |c| {
            assert_eq!(c.input_type, VTSuperResolutionScalerConfigurationInputType::Video);
            -5
        }),
        Err(VTError::ApiFailed {
            api: "downloadConfigurationModelWithCompletionHandler",
            status: -5
        })
    );
    assert_eq!(download_super_resolution_model(8, 8, 2, false, false, |_| 0), Ok(()));
}

#[test]
fn awaited_decode_takes_exactly_one_sample() {
    assert_eq!(single_sample_result(DECODE_FRAME_ASYNC, 1), Ok(()));
    assert_eq!(
        single_sample_result(DECODE_FRAME_ASYNC, 2).err(),
        Some(VTError::UnexpectedSampleCount {
            operation: "DecompressionSession::decode_frame_async",
            expected: 1,
            actual: 2,
        })
    );
    assert_eq!(
        single_sample_result(DECODE_FRAME_ASYNC, 0).err(),
        Some(VTError::UnexpectedSampleCount { operation: DECODE_FRAME_ASYNC, expected: 1, actual: 0 })
    );
}

#[test]
fn unexpected_sample_count_has_no_status_and_names_both_counts() {
    let e = VTError::UnexpectedSampleCount { operation: "decode", expected: 1, actual: 2 };
    assert_eq!(e.status(), None);
    assert_eq!(e.to_string(), "decode expected 1 sample(s), got 2");
}
