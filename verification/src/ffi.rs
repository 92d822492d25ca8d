//! Constants of the `VideoToolbox` / `CoreMedia` SDK that the verified logic
//! speaks of.
//!
//! Integer constants carry their SDK value. `CFStringRef` constants are
//! exported by the frameworks as global symbols; here each is identified by
//! its symbol name, which the native layer resolves to the framework's object.

use vstd::prelude::*;

pub mod dynamic;

verus! {

// CMVideoCodecType four-character codes (ASCII bytes, big-endian).
pub const kCMVideoCodecType_H264: u32 = 0x6176_6331;
pub const kCMVideoCodecType_HEVC: u32 = 0x6876_6331;
pub const kCMVideoCodecType_AppleProRes422: u32 = 0x6170_636e;
pub const kCMVideoCodecType_AppleProRes422HQ: u32 = 0x6170_6368;
pub const kCMVideoCodecType_AppleProRes422LT: u32 = 0x6170_6373;
pub const kCMVideoCodecType_AppleProRes422Proxy: u32 = 0x6170_636f;
pub const kCMVideoCodecType_AppleProRes4444: u32 = 0x6170_3468;

// VTEncodeInfoFlags.
pub const kVTEncodeInfo_Asynchronous: u32 = 1;
pub const kVTEncodeInfo_FrameDropped: u32 = 2;

// VTCompressionSessionOptionFlags.
pub const kVTCompressionSessionBeginFinalPass: u32 = 1;

// Compression property keys.
pub const kVTCompressionPropertyKey_RealTime: &'static str = "kVTCompressionPropertyKey_RealTime";
pub const kVTCompressionPropertyKey_AllowFrameReordering: &'static str =
    "kVTCompressionPropertyKey_AllowFrameReordering";
pub const kVTCompressionPropertyKey_AverageBitRate: &'static str =
    "kVTCompressionPropertyKey_AverageBitRate";
pub const kVTCompressionPropertyKey_ExpectedFrameRate: &'static str =
    "kVTCompressionPropertyKey_ExpectedFrameRate";
pub const kVTCompressionPropertyKey_MaxKeyFrameInterval: &'static str =
    "kVTCompressionPropertyKey_MaxKeyFrameInterval";
pub const kVTCompressionPropertyKey_Quality: &'static str = "kVTCompressionPropertyKey_Quality";
pub const kVTCompressionPropertyKey_ProfileLevel: &'static str = "kVTCompressionPropertyKey_ProfileLevel";
pub const kVTCompressionPropertyKey_MultiPassStorage: &'static str =
    "kVTCompressionPropertyKey_MultiPassStorage";

// Profile / level constants.
pub const kVTProfileLevel_H263_Profile0_Level10: &'static str = "kVTProfileLevel_H263_Profile0_Level10";
pub const kVTProfileLevel_H263_Profile0_Level45: &'static str = "kVTProfileLevel_H263_Profile0_Level45";
pub const kVTProfileLevel_H263_Profile3_Level45: &'static str = "kVTProfileLevel_H263_Profile3_Level45";
pub const kVTProfileLevel_H264_Baseline_1_3: &'static str = "kVTProfileLevel_H264_Baseline_1_3";
pub const kVTProfileLevel_H264_Baseline_3_0: &'static str = "kVTProfileLevel_H264_Baseline_3_0";
pub const kVTProfileLevel_H264_Baseline_3_1: &'static str = "kVTProfileLevel_H264_Baseline_3_1";
pub const kVTProfileLevel_H264_Baseline_3_2: &'static str = "kVTProfileLevel_H264_Baseline_3_2";
pub const kVTProfileLevel_H264_Baseline_4_0: &'static str = "kVTProfileLevel_H264_Baseline_4_0";
pub const kVTProfileLevel_H264_Baseline_4_1: &'static str = "kVTProfileLevel_H264_Baseline_4_1";
pub const kVTProfileLevel_H264_Baseline_4_2: &'static str = "kVTProfileLevel_H264_Baseline_4_2";
pub const kVTProfileLevel_H264_Baseline_5_0: &'static str = "kVTProfileLevel_H264_Baseline_5_0";
pub const kVTProfileLevel_H264_Baseline_5_1: &'static str = "kVTProfileLevel_H264_Baseline_5_1";
pub const kVTProfileLevel_H264_Baseline_5_2: &'static str = "kVTProfileLevel_H264_Baseline_5_2";
pub const kVTProfileLevel_H264_Baseline_AutoLevel: &'static str = "kVTProfileLevel_H264_Baseline_AutoLevel";
pub const kVTProfileLevel_H264_ConstrainedBaseline_AutoLevel: &'static str = "kVTProfileLevel_H264_ConstrainedBaseline_AutoLevel";
pub const kVTProfileLevel_H264_ConstrainedHigh_AutoLevel: &'static str = "kVTProfileLevel_H264_ConstrainedHigh_AutoLevel";
pub const kVTProfileLevel_H264_Extended_5_0: &'static str = "kVTProfileLevel_H264_Extended_5_0";
pub const kVTProfileLevel_H264_Extended_AutoLevel: &'static str = "kVTProfileLevel_H264_Extended_AutoLevel";
pub const kVTProfileLevel_H264_High_3_0: &'static str = "kVTProfileLevel_H264_High_3_0";
pub const kVTProfileLevel_H264_High_3_1: &'static str = "kVTProfileLevel_H264_High_3_1";
pub const kVTProfileLevel_H264_High_3_2: &'static str = "kVTProfileLevel_H264_High_3_2";
pub const kVTProfileLevel_H264_High_4_0: &'static str = "kVTProfileLevel_H264_High_4_0";
pub const kVTProfileLevel_H264_High_4_1: &'static str = "kVTProfileLevel_H264_High_4_1";
pub const kVTProfileLevel_H264_High_4_2: &'static str = "kVTProfileLevel_H264_High_4_2";
pub const kVTProfileLevel_H264_High_5_0: &'static str = "kVTProfileLevel_H264_High_5_0";
pub const kVTProfileLevel_H264_High_5_1: &'static str = "kVTProfileLevel_H264_High_5_1";
pub const kVTProfileLevel_H264_High_5_2: &'static str = "kVTProfileLevel_H264_High_5_2";
pub const kVTProfileLevel_H264_High_AutoLevel: &'static str = "kVTProfileLevel_H264_High_AutoLevel";
pub const kVTProfileLevel_H264_Main_3_0: &'static str = "kVTProfileLevel_H264_Main_3_0";
pub const kVTProfileLevel_H264_Main_3_1: &'static str = "kVTProfileLevel_H264_Main_3_1";
pub const kVTProfileLevel_H264_Main_3_2: &'static str = "kVTProfileLevel_H264_Main_3_2";
pub const kVTProfileLevel_H264_Main_4_0: &'static str = "kVTProfileLevel_H264_Main_4_0";
pub const kVTProfileLevel_H264_Main_4_1: &'static str = "kVTProfileLevel_H264_Main_4_1";
pub const kVTProfileLevel_H264_Main_4_2: &'static str = "kVTProfileLevel_H264_Main_4_2";
pub const kVTProfileLevel_H264_Main_5_0: &'static str = "kVTProfileLevel_H264_Main_5_0";
pub const kVTProfileLevel_H264_Main_5_1: &'static str = "kVTProfileLevel_H264_Main_5_1";
pub const kVTProfileLevel_H264_Main_5_2: &'static str = "kVTProfileLevel_H264_Main_5_2";
pub const kVTProfileLevel_H264_Main_AutoLevel: &'static str = "kVTProfileLevel_H264_Main_AutoLevel";
pub const kVTProfileLevel_HEVC_Main_AutoLevel: &'static str = "kVTProfileLevel_HEVC_Main_AutoLevel";
pub const kVTProfileLevel_HEVC_Main10_AutoLevel: &'static str = "kVTProfileLevel_HEVC_Main10_AutoLevel";
pub const kVTProfileLevel_HEVC_Main42210_AutoLevel: &'static str = "kVTProfileLevel_HEVC_Main42210_AutoLevel";
pub const kVTProfileLevel_HEVC_Monochrome_AutoLevel: &'static str = "kVTProfileLevel_HEVC_Monochrome_AutoLevel";
pub const kVTProfileLevel_HEVC_Monochrome10_AutoLevel: &'static str = "kVTProfileLevel_HEVC_Monochrome10_AutoLevel";
pub const kVTProfileLevel_MP4V_AdvancedSimple_L0: &'static str = "kVTProfileLevel_MP4V_AdvancedSimple_L0";
pub const kVTProfileLevel_MP4V_AdvancedSimple_L1: &'static str = "kVTProfileLevel_MP4V_AdvancedSimple_L1";
pub const kVTProfileLevel_MP4V_AdvancedSimple_L2: &'static str = "kVTProfileLevel_MP4V_AdvancedSimple_L2";
pub const kVTProfileLevel_MP4V_AdvancedSimple_L3: &'static str = "kVTProfileLevel_MP4V_AdvancedSimple_L3";
pub const kVTProfileLevel_MP4V_AdvancedSimple_L4: &'static str = "kVTProfileLevel_MP4V_AdvancedSimple_L4";
pub const kVTProfileLevel_MP4V_Main_L2: &'static str = "kVTProfileLevel_MP4V_Main_L2";
pub const kVTProfileLevel_MP4V_Main_L3: &'static str = "kVTProfileLevel_MP4V_Main_L3";
pub const kVTProfileLevel_MP4V_Main_L4: &'static str = "kVTProfileLevel_MP4V_Main_L4";
pub const kVTProfileLevel_MP4V_Simple_L0: &'static str = "kVTProfileLevel_MP4V_Simple_L0";
pub const kVTProfileLevel_MP4V_Simple_L1: &'static str = "kVTProfileLevel_MP4V_Simple_L1";
pub const kVTProfileLevel_MP4V_Simple_L2: &'static str = "kVTProfileLevel_MP4V_Simple_L2";
pub const kVTProfileLevel_MP4V_Simple_L3: &'static str = "kVTProfileLevel_MP4V_Simple_L3";

// Per-frame encode options.
pub const kVTEncodeFrameOptionKey_ForceKeyFrame: &'static str = "kVTEncodeFrameOptionKey_ForceKeyFrame";

// Encoder specification keys.
pub const kVTVideoEncoderSpecification_EncoderID: &'static str = "kVTVideoEncoderSpecification_EncoderID";
pub const kVTVideoEncoderSpecification_EnableHardwareAcceleratedVideoEncoder: &'static str =
    "kVTVideoEncoderSpecification_EnableHardwareAcceleratedVideoEncoder";
pub const kVTVideoEncoderSpecification_RequireHardwareAcceleratedVideoEncoder: &'static str =
    "kVTVideoEncoderSpecification_RequireHardwareAcceleratedVideoEncoder";
pub const kVTVideoEncoderSpecification_EnableLowLatencyRateControl: &'static str =
    "kVTVideoEncoderSpecification_EnableLowLatencyRateControl";
pub const kVTVideoEncoderSpecification_PreferredEncoderGPURegistryID: &'static str =
    "kVTVideoEncoderSpecification_PreferredEncoderGPURegistryID";
pub const kVTVideoEncoderSpecification_RequiredEncoderGPURegistryID: &'static str =
    "kVTVideoEncoderSpecification_RequiredEncoderGPURegistryID";

// Encoder list options.
pub const kVTVideoEncoderListOption_IncludeStandardDefinitionDVEncoders: &'static str =
    "kVTVideoEncoderListOption_IncludeStandardDefinitionDVEncoders";

// Encoder list entry keys.
pub const kVTVideoEncoderList_CodecType: &'static str = "kVTVideoEncoderList_CodecType";
pub const kVTVideoEncoderList_EncoderID: &'static str = "kVTVideoEncoderList_EncoderID";
pub const kVTVideoEncoderList_CodecName: &'static str = "kVTVideoEncoderList_CodecName";
pub const kVTVideoEncoderList_EncoderName: &'static str = "kVTVideoEncoderList_EncoderName";
pub const kVTVideoEncoderList_DisplayName: &'static str = "kVTVideoEncoderList_DisplayName";
pub const kVTVideoEncoderList_GPURegistryID: &'static str = "kVTVideoEncoderList_GPURegistryID";
pub const kVTVideoEncoderList_SupportedSelectionProperties: &'static str = "kVTVideoEncoderList_SupportedSelectionProperties";
pub const kVTVideoEncoderList_PerformanceRating: &'static str = "kVTVideoEncoderList_PerformanceRating";
pub const kVTVideoEncoderList_QualityRating: &'static str = "kVTVideoEncoderList_QualityRating";
pub const kVTVideoEncoderList_InstanceLimit: &'static str = "kVTVideoEncoderList_InstanceLimit";
pub const kVTVideoEncoderList_IsHardwareAccelerated: &'static str = "kVTVideoEncoderList_IsHardwareAccelerated";
pub const kVTVideoEncoderList_SupportsFrameReordering: &'static str = "kVTVideoEncoderList_SupportsFrameReordering";

// RAW processing parameter and property keys.
pub const kVTRAWProcessingParameter_Key: &'static str = "kVTRAWProcessingParameter_Key";
pub const kVTRAWProcessingParameter_Name: &'static str = "kVTRAWProcessingParameter_Name";
pub const kVTRAWProcessingParameter_Description: &'static str = "kVTRAWProcessingParameter_Description";
pub const kVTRAWProcessingParameter_ValueType: &'static str = "kVTRAWProcessingParameter_ValueType";
pub const kVTRAWProcessingParameter_CurrentValue: &'static str = "kVTRAWProcessingParameter_CurrentValue";
pub const kVTRAWProcessingParameter_MinimumValue: &'static str = "kVTRAWProcessingParameter_MinimumValue";
pub const kVTRAWProcessingParameter_MaximumValue: &'static str = "kVTRAWProcessingParameter_MaximumValue";
pub const kVTRAWProcessingParameter_InitialValue: &'static str = "kVTRAWProcessingParameter_InitialValue";
pub const kVTRAWProcessingParameter_CameraValue: &'static str = "kVTRAWProcessingParameter_CameraValue";
pub const kVTRAWProcessingParameter_NeutralValue: &'static str = "kVTRAWProcessingParameter_NeutralValue";
pub const kVTRAWProcessingPropertyKey_MetalDeviceRegistryID: &'static str = "kVTRAWProcessingPropertyKey_MetalDeviceRegistryID";
pub const kVTRAWProcessingPropertyKey_OutputColorAttachments: &'static str = "kVTRAWProcessingPropertyKey_OutputColorAttachments";
pub const kVTRAWProcessingPropertyKey_MetadataForSidecarFile: &'static str = "kVTRAWProcessingPropertyKey_MetadataForSidecarFile";

// Pixel transfer / rotation.
pub const kVTPixelTransferPropertyKey_ScalingMode: &'static str = "kVTPixelTransferPropertyKey_ScalingMode";
pub const kVTPixelTransferPropertyKey_DownsamplingMode: &'static str =
    "kVTPixelTransferPropertyKey_DownsamplingMode";
pub const kVTPixelTransferPropertyKey_RealTime: &'static str = "kVTPixelTransferPropertyKey_RealTime";
pub const kVTPixelRotationPropertyKey_Rotation: &'static str = "kVTPixelRotationPropertyKey_Rotation";
pub const kVTPixelRotationPropertyKey_FlipHorizontalOrientation: &'static str =
    "kVTPixelRotationPropertyKey_FlipHorizontalOrientation";
pub const kVTPixelRotationPropertyKey_FlipVerticalOrientation: &'static str =
    "kVTPixelRotationPropertyKey_FlipVerticalOrientation";
pub const kVTRotation_0: &'static str = "kVTRotation_0";
pub const kVTRotation_CW90: &'static str = "kVTRotation_CW90";
pub const kVTRotation_180: &'static str = "kVTRotation_180";
pub const kVTRotation_CCW90: &'static str = "kVTRotation_CCW90";
pub const kVTScalingMode_Normal: &'static str = "kVTScalingMode_Normal";
pub const kVTScalingMode_CropSourceToCleanAperture: &'static str =
    "kVTScalingMode_CropSourceToCleanAperture";
pub const kVTScalingMode_Letterbox: &'static str = "kVTScalingMode_Letterbox";
pub const kVTScalingMode_Trim: &'static str = "kVTScalingMode_Trim";
pub const kVTDownsamplingMode_Decimate: &'static str = "kVTDownsamplingMode_Decimate";
pub const kVTDownsamplingMode_Average: &'static str = "kVTDownsamplingMode_Average";

// Decompression property keys.
pub const kVTDecompressionPropertyKey_RealTime: &'static str = "kVTDecompressionPropertyKey_RealTime";
pub const kVTDecompressionPropertyKey_MaximumOutputBufferDepth: &'static str =
    "kVTDecompressionPropertyKey_MaximumOutputBufferDepth";

// Motion estimation creation options.
pub const kVTMotionEstimationSessionCreationOption_MotionVectorSize: &'static str =
    "kVTMotionEstimationSessionCreationOption_MotionVectorSize";
pub const kVTMotionEstimationSessionCreationOption_UseMultiPassSearch: &'static str =
    "kVTMotionEstimationSessionCreationOption_UseMultiPassSearch";
pub const kVTMotionEstimationSessionCreationOption_Label: &'static str =
    "kVTMotionEstimationSessionCreationOption_Label";

// HDR per-frame metadata generation.
pub const kVTHDRPerFrameMetadataGenerationOptionsKey_HDRFormats: &'static str =
    "kVTHDRPerFrameMetadataGenerationOptionsKey_HDRFormats";
pub const kVTHDRPerFrameMetadataGenerationHDRFormatType_DolbyVision: &'static str =
    "kVTHDRPerFrameMetadataGenerationHDRFormatType_DolbyVision";

} // verus!
