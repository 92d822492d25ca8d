//! `VTFrameProcessor` configurations, capability snapshots, and the checks
//! made around each processing call.

use vstd::prelude::*;
use vstd::string::StringExecFns;

use crate::error::{OSStatus, VTError};
use crate::session::{api_result, spec_api_result};
use crate::text::{decimal, push_unsigned};

verus! {

/// Per-effect availability snapshot.
#[derive(Debug, Clone, Copy, PartialEq, Eq, Structural)]
pub struct FrameProcessorCapabilities {
    pub super_resolution: bool,
    pub motion_blur: bool,
    pub temporal_noise_filter: bool,
    pub frame_rate_conversion: bool,
    pub low_latency_super_resolution: bool,
    pub low_latency_frame_interpolation: bool,
    pub optical_flow: bool,
}

impl Default for FrameProcessorCapabilities {
    /// Nothing available.
    fn default() -> (r: Self)
        ensures
            !r.super_resolution,
            !r.motion_blur,
            !r.temporal_noise_filter,
            !r.frame_rate_conversion,
            !r.low_latency_super_resolution,
            !r.low_latency_frame_interpolation,
            !r.optical_flow,
    {
        FrameProcessorCapabilities {
            super_resolution: false,
            motion_blur: false,
            temporal_noise_filter: false,
            frame_rate_conversion: false,
            low_latency_super_resolution: false,
            low_latency_frame_interpolation: false,
            optical_flow: false,
        }
    }
}

/// Submission ordering hint for processors that accept random vs
/// sequential frame order.
#[derive(Debug, Clone, Copy, PartialEq, Eq, Structural)]
pub enum FrameProcessorSubmissionMode {
    Random,
    Sequential,
}

impl FrameProcessorSubmissionMode {
    /// The integer handed to the processor (`Random` = 1, `Sequential` = 2).
    pub fn as_raw(self) -> (r: i32)
        ensures
            r == (match self {
                FrameProcessorSubmissionMode::Random => 1i32,
                FrameProcessorSubmissionMode::Sequential => 2i32,
            }),
    {
        match self {
            Self::Random => 1,
            Self::Sequential => 2,
        }
    }
}

/// Submission ordering hint for frame-rate conversion.
#[derive(Debug, Clone, Copy, PartialEq, Eq, Structural)]
pub enum FrameRateConversionSubmissionMode {
    Random,
    Sequential,
    SequentialReferencesUnchanged,
}

impl FrameRateConversionSubmissionMode {
    /// The integer handed to the processor (1, 2, 3 in declaration order).
    pub fn as_raw(self) -> (r: i32)
        ensures
            r == (match self {
                FrameRateConversionSubmissionMode::Random => 1i32,
                FrameRateConversionSubmissionMode::Sequential => 2i32,
                FrameRateConversionSubmissionMode::SequentialReferencesUnchanged => 3i32,
            }),
    {
        match self {
            Self::Random => 1,
            Self::Sequential => 2,
            Self::SequentialReferencesUnchanged => 3,
        }
    }
}

/// `VTFrameRateConversionConfiguration.QualityPrioritization`.
#[derive(Debug, Clone, Copy, PartialEq, Eq, Structural)]
pub enum VTFrameRateConversionConfigurationQualityPrioritization {
    Normal,
    Quality,
}

impl VTFrameRateConversionConfigurationQualityPrioritization {
    /// The SDK value (`Normal` = 1, `Quality` = 2).
    pub fn as_raw(self) -> (r: isize)
        ensures
            r == (match self {
                VTFrameRateConversionConfigurationQualityPrioritization::Normal => 1isize,
                VTFrameRateConversionConfigurationQualityPrioritization::Quality => 2isize,
            }),
    {
        match self {
            Self::Normal => 1,
            Self::Quality => 2,
        }
    }
}

/// `VTFrameRateConversionConfiguration.Revision`.
#[derive(Debug, Clone, Copy, PartialEq, Eq, Structural)]
pub enum VTFrameRateConversionConfigurationRevision {
    Revision1,
}

impl VTFrameRateConversionConfigurationRevision {
    /// The SDK value (`Revision1` = 1).
    pub fn as_raw(self) -> (r: isize)
        ensures
            r == 1,
    {
        1
    }
}

/// `VTMotionBlurConfiguration.QualityPrioritization`.
#[derive(Debug, Clone, Copy, PartialEq, Eq, Structural)]
pub enum VTMotionBlurConfigurationQualityPrioritization {
    Normal,
    Quality,
}

impl VTMotionBlurConfigurationQualityPrioritization {
    /// The SDK value (`Normal` = 1, `Quality` = 2).
    pub fn as_raw(self) -> (r: isize)
        ensures
            r == (match self {
                VTMotionBlurConfigurationQualityPrioritization::Normal => 1isize,
                VTMotionBlurConfigurationQualityPrioritization::Quality => 2isize,
            }),
    {
        match self {
            Self::Normal => 1,
            Self::Quality => 2,
        }
    }
}

/// `VTMotionBlurConfiguration.Revision`.
#[derive(Debug, Clone, Copy, PartialEq, Eq, Structural)]
pub enum VTMotionBlurConfigurationRevision {
    Revision1,
}

impl VTMotionBlurConfigurationRevision {
    /// The SDK value (`Revision1` = 1).
    pub fn as_raw(self) -> (r: isize)
        ensures
            r == 1,
    {
        1
    }
}

/// `VTOpticalFlowConfiguration.QualityPrioritization`.
#[derive(Debug, Clone, Copy, PartialEq, Eq, Structural)]
pub enum VTOpticalFlowConfigurationQualityPrioritization {
    Normal,
    Quality,
}

impl VTOpticalFlowConfigurationQualityPrioritization {
    /// The SDK value (`Normal` = 1, `Quality` = 2).
    pub fn as_raw(self) -> (r: isize)
        ensures
            r == (match self {
                VTOpticalFlowConfigurationQualityPrioritization::Normal => 1isize,
                VTOpticalFlowConfigurationQualityPrioritization::Quality => 2isize,
            }),
    {
        match self {
            Self::Normal => 1,
            Self::Quality => 2,
        }
    }
}

/// `VTOpticalFlowConfiguration.Revision`.
#[derive(Debug, Clone, Copy, PartialEq, Eq, Structural)]
pub enum VTOpticalFlowConfigurationRevision {
    Revision1,
}

impl VTOpticalFlowConfigurationRevision {
    /// The SDK value (`Revision1` = 1).
    pub fn as_raw(self) -> (r: isize)
        ensures
            r == 1,
    {
        1
    }
}

/// `VTSuperResolutionScalerConfiguration.InputType`.
#[derive(Debug, Clone, Copy, PartialEq, Eq, Structural)]
pub enum VTSuperResolutionScalerConfigurationInputType {
    Video,
    Image,
}

impl VTSuperResolutionScalerConfigurationInputType {
    /// The SDK value (`Video` = 1, `Image` = 2).
    pub fn as_raw(self) -> (r: isize)
        ensures
            r == (match self {
                VTSuperResolutionScalerConfigurationInputType::Video => 1isize,
                VTSuperResolutionScalerConfigurationInputType::Image => 2isize,
            }),
    {
        match self {
            Self::Video => 1,
            Self::Image => 2,
        }
    }
}

/// `VTSuperResolutionScalerConfiguration.QualityPrioritization`.
#[derive(Debug, Clone, Copy, PartialEq, Eq, Structural)]
pub enum VTSuperResolutionScalerConfigurationQualityPrioritization {
    Normal,
}

impl VTSuperResolutionScalerConfigurationQualityPrioritization {
    /// The SDK value (`Normal` = 1).
    pub fn as_raw(self) -> (r: isize)
        ensures
            r == 1,
    {
        1
    }
}

/// `VTSuperResolutionScalerConfiguration.Revision`.
#[derive(Debug, Clone, Copy, PartialEq, Eq, Structural)]
pub enum VTSuperResolutionScalerConfigurationRevision {
    Revision1,
}

impl VTSuperResolutionScalerConfigurationRevision {
    /// The SDK value (`Revision1` = 1).
    pub fn as_raw(self) -> (r: isize)
        ensures
            r == 1,
    {
        1
    }
}

/// Explicit configuration for `VTSuperResolutionScalerConfiguration`.
#[derive(Debug, Clone, Copy, PartialEq, Eq, Structural)]
pub struct SuperResolutionConfiguration {
    pub frame_width: usize,
    pub frame_height: usize,
    pub scale_factor: usize,
    pub use_precomputed_flow: bool,
    pub input_type: VTSuperResolutionScalerConfigurationInputType,
    pub quality_prioritization: VTSuperResolutionScalerConfigurationQualityPrioritization,
    pub revision: VTSuperResolutionScalerConfigurationRevision,
}

impl SuperResolutionConfiguration {
    /// A video-input configuration without precomputed flow, at normal
    /// quality, first revision.
    pub fn new(frame_width: usize, frame_height: usize, scale_factor: usize) -> (r: Self)
        ensures
            r == (SuperResolutionConfiguration {
                frame_width,
                frame_height,
                scale_factor,
                use_precomputed_flow: false,
                input_type: VTSuperResolutionScalerConfigurationInputType::Video,
                quality_prioritization:
                    VTSuperResolutionScalerConfigurationQualityPrioritization::Normal,
                revision: VTSuperResolutionScalerConfigurationRevision::Revision1,
            }),
    {
        Self {
            frame_width,
            frame_height,
            scale_factor,
            use_precomputed_flow: false,
            input_type: VTSuperResolutionScalerConfigurationInputType::Video,
            quality_prioritization: VTSuperResolutionScalerConfigurationQualityPrioritization::Normal,
            revision: VTSuperResolutionScalerConfigurationRevision::Revision1,
        }
    }
}

/// Explicit configuration for `VTMotionBlurConfiguration`.
#[derive(Debug, Clone, Copy, PartialEq, Eq, Structural)]
pub struct MotionBlurConfiguration {
    pub frame_width: usize,
    pub frame_height: usize,
    pub use_precomputed_flow: bool,
    pub quality_prioritization: VTMotionBlurConfigurationQualityPrioritization,
    pub revision: VTMotionBlurConfigurationRevision,
}

impl MotionBlurConfiguration {
    /// A configuration without precomputed flow, at normal quality, first
    /// revision.
    pub fn new(frame_width: usize, frame_height: usize) -> (r: Self)
        ensures
            r == (MotionBlurConfiguration {
                frame_width,
                frame_height,
                use_precomputed_flow: false,
                quality_prioritization: VTMotionBlurConfigurationQualityPrioritization::Normal,
                revision: VTMotionBlurConfigurationRevision::Revision1,
            }),
    {
        Self {
            frame_width,
            frame_height,
            use_precomputed_flow: false,
            quality_prioritization: VTMotionBlurConfigurationQualityPrioritization::Normal,
            revision: VTMotionBlurConfigurationRevision::Revision1,
        }
    }
}

/// Explicit configuration for `VTFrameRateConversionConfiguration`.
#[derive(Debug, Clone, Copy, PartialEq, Eq, Structural)]
pub struct FrameRateConversionConfiguration {
    pub frame_width: usize,
    pub frame_height: usize,
    pub use_precomputed_flow: bool,
    pub quality_prioritization: VTFrameRateConversionConfigurationQualityPrioritization,
    pub revision: VTFrameRateConversionConfigurationRevision,
}

impl FrameRateConversionConfiguration {
    /// A configuration without precomputed flow, at normal quality, first
    /// revision.
    pub fn new(frame_width: usize, frame_height: usize) -> (r: Self)
        ensures
            r == (FrameRateConversionConfiguration {
                frame_width,
                frame_height,
                use_precomputed_flow: false,
                quality_prioritization:
                    VTFrameRateConversionConfigurationQualityPrioritization::Normal,
                revision: VTFrameRateConversionConfigurationRevision::Revision1,
            }),
    {
        Self {
            frame_width,
            frame_height,
            use_precomputed_flow: false,
            quality_prioritization: VTFrameRateConversionConfigurationQualityPrioritization::Normal,
            revision: VTFrameRateConversionConfigurationRevision::Revision1,
        }
    }
}

/// Explicit configuration for `VTOpticalFlowConfiguration`.
#[derive(Debug, Clone, Copy, PartialEq, Eq, Structural)]
pub struct OpticalFlowConfiguration {
    pub frame_width: usize,
    pub frame_height: usize,
    pub quality_prioritization: VTOpticalFlowConfigurationQualityPrioritization,
    pub revision: VTOpticalFlowConfigurationRevision,
}

impl OpticalFlowConfiguration {
    /// A configuration at normal quality, first revision.
    pub fn new(frame_width: usize, frame_height: usize) -> (r: Self)
        ensures
            r == (OpticalFlowConfiguration {
                frame_width,
                frame_height,
                quality_prioritization: VTOpticalFlowConfigurationQualityPrioritization::Normal,
                revision: VTOpticalFlowConfigurationRevision::Revision1,
            }),
    {
        Self {
            frame_width,
            frame_height,
            quality_prioritization: VTOpticalFlowConfigurationQualityPrioritization::Normal,
            revision: VTOpticalFlowConfigurationRevision::Revision1,
        }
    }
}

/// The configuration the convenience entry points use: `new`, with the
/// precomputed-flow flag and the input type (image or video) as given.
pub open spec fn spec_default_super_resolution_configuration(
    frame_width: usize,
    frame_height: usize,
    scale_factor: usize,
    use_precomputed_flow: bool,
    input_is_image: bool,
) -> SuperResolutionConfiguration {
    SuperResolutionConfiguration {
        frame_width,
        frame_height,
        scale_factor,
        use_precomputed_flow,
        input_type: if input_is_image {
            VTSuperResolutionScalerConfigurationInputType::Image
        } else {
            VTSuperResolutionScalerConfigurationInputType::Video
        },
        quality_prioritization: VTSuperResolutionScalerConfigurationQualityPrioritization::Normal,
        revision: VTSuperResolutionScalerConfigurationRevision::Revision1,
    }
}

/// The size-based super-resolution configuration is the frame's own size and
/// scale factor: its width is the width asked for and its height the height
/// asked for (never the other way round), with the requested flow and input
/// kind, at normal quality and the first revision, as a fresh configuration
/// of that size has.
pub proof fn lemma_size_based_configuration_keeps_the_frame_size(
    frame_width: usize,
    frame_height: usize,
    scale_factor: usize,
    use_precomputed_flow: bool,
    input_is_image: bool,
)
    ensures
        ({
            let c = spec_default_super_resolution_configuration(
                frame_width,
                frame_height,
                scale_factor,
                use_precomputed_flow,
                input_is_image,
            );
            &&& c.frame_width == frame_width
            &&& c.frame_height == frame_height
            &&& c.scale_factor == scale_factor
            &&& c.use_precomputed_flow == use_precomputed_flow
            &&& (c.input_type == VTSuperResolutionScalerConfigurationInputType::Image) == input_is_image
            &&& (c.input_type == VTSuperResolutionScalerConfigurationInputType::Video) == !input_is_image
            &&& c.quality_prioritization == VTSuperResolutionScalerConfigurationQualityPrioritization::Normal
            &&& c.revision == VTSuperResolutionScalerConfigurationRevision::Revision1
        }),
{
}

/// Builds the super-resolution configuration used by the size-based entry
/// points.
pub fn default_super_resolution_configuration(
    frame_width: usize,
    frame_height: usize,
    scale_factor: usize,
    use_precomputed_flow: bool,
    input_is_image: bool,
) -> (r: SuperResolutionConfiguration)
    ensures
        r == spec_default_super_resolution_configuration(
            frame_width,
            frame_height,
            scale_factor,
            use_precomputed_flow,
            input_is_image,
        ),
        r.frame_width == frame_width,
        r.frame_height == frame_height,
        r.scale_factor == scale_factor,
        r.use_precomputed_flow == use_precomputed_flow,
{
    let mut configuration = SuperResolutionConfiguration::new(
        frame_width,
        frame_height,
        scale_factor,
    );
    configuration.use_precomputed_flow = use_precomputed_flow;
    configuration.input_type = if input_is_image {
        VTSuperResolutionScalerConfigurationInputType::Image
    } else {
        VTSuperResolutionScalerConfigurationInputType::Video
    };
    configuration
}

/// Super-resolution model availability.
#[derive(Debug, Clone, Copy, PartialEq, Eq, Structural)]
pub enum SuperResolutionModelStatus {
    DownloadRequired,
    Downloading,
    Ready,
}

/// The status each raw value stands for; other values stand for none.
pub open spec fn spec_model_status(raw: i32) -> Option<SuperResolutionModelStatus> {
    if raw == 0 {
        Some(SuperResolutionModelStatus::DownloadRequired)
    } else if raw == 1 {
        Some(SuperResolutionModelStatus::Downloading)
    } else if raw == 2 {
        Some(SuperResolutionModelStatus::Ready)
    } else {
        None
    }
}

impl SuperResolutionModelStatus {
    /// Decodes the raw status reported by the model query.
    pub fn from_raw(raw: i32) -> (r: Option<Self>)
        ensures
            r == spec_model_status(raw),
    {
        match raw {
            0 => Some(Self::DownloadRequired),
            1 => Some(Self::Downloading),
            2 => Some(Self::Ready),
            _ => None,
        }
    }

    /// The raw value this status is reported as.
    pub fn as_raw(self) -> (r: i32)
        ensures
            spec_model_status(r) == Some(self),
    {
        match self {
            Self::DownloadRequired => 0,
            Self::Downloading => 1,
            Self::Ready => 2,
        }
    }
}

/// The model-download state of the configuration the size-based entry
/// points use. `query` asks the framework (the bridge's model-status call)
/// for a configuration and reports the raw state.
pub fn super_resolution_model_status<F: FnOnce(SuperResolutionConfiguration) -> i32>(
    frame_width: usize,
    frame_height: usize,
    scale_factor: usize,
    use_precomputed_flow: bool,
    input_is_image: bool,
    query: F,
) -> (r: Option<SuperResolutionModelStatus>)
    requires
        query.requires(
            (
                spec_default_super_resolution_configuration(
                    frame_width,
                    frame_height,
                    scale_factor,
                    use_precomputed_flow,
                    input_is_image,
                ),
            ),
        ),
    ensures
        exists|raw: i32|
            #![trigger query.ensures(
                (
                    spec_default_super_resolution_configuration(
                        frame_width,
                        frame_height,
                        scale_factor,
                        use_precomputed_flow,
                        input_is_image,
                    ),
                ),
                raw,
            )]
            query.ensures(
                (
                    spec_default_super_resolution_configuration(
                        frame_width,
                        frame_height,
                        scale_factor,
                        use_precomputed_flow,
                        input_is_image,
                    ),
                ),
                raw,
            ) && r == spec_model_status(raw),
{
    let configuration = default_super_resolution_configuration(
        frame_width,
        frame_height,
        scale_factor,
        use_precomputed_flow,
        input_is_image,
    );
    let raw = query(configuration);
    SuperResolutionModelStatus::from_raw(raw)
}

/// Downloads the model of the configuration the size-based entry points
/// use. `download` asks the framework to fetch the model for a
/// configuration, waits, and reports the status.
pub fn download_super_resolution_model<F: FnOnce(SuperResolutionConfiguration) -> OSStatus>(
    frame_width: usize,
    frame_height: usize,
    scale_factor: usize,
    use_precomputed_flow: bool,
    input_is_image: bool,
    download: F,
) -> (r: Result<(), VTError>)
    requires
        download.requires(
            (
                spec_default_super_resolution_configuration(
                    frame_width,
                    frame_height,
                    scale_factor,
                    use_precomputed_flow,
                    input_is_image,
                ),
            ),
        ),
    ensures
        exists|status: OSStatus|
            #![trigger download.ensures(
                (
                    spec_default_super_resolution_configuration(
                        frame_width,
                        frame_height,
                        scale_factor,
                        use_precomputed_flow,
                        input_is_image,
                    ),
                ),
                status,
            )]
            download.ensures(
                (
                    spec_default_super_resolution_configuration(
                        frame_width,
                        frame_height,
                        scale_factor,
                        use_precomputed_flow,
                        input_is_image,
                    ),
                ),
                status,
            ) && r == spec_api_result("downloadConfigurationModelWithCompletionHandler", status),
{
    let configuration = default_super_resolution_configuration(
        frame_width,
        frame_height,
        scale_factor,
        use_precomputed_flow,
        input_is_image,
    );
    let status = download(configuration);
    api_result("downloadConfigurationModelWithCompletionHandler", status)
}

/// The message reported when a per-phase array and the destination frames
/// differ in length.
pub open spec fn spec_length_mismatch_message(label: Seq<char>, left: usize, right: usize) -> Seq<
    char,
> {
    label + " length ("@ + decimal(left as int) + ") must match destination frame count ("@
        + decimal(right as int) + ")"@
}

/// Checks that the interpolation phases and the destination frames pair up
/// one to one: `Ok` when `left_len == right_len`, otherwise
/// [`VTError::InvalidArgument`] naming both lengths.
pub fn validate_parallel_lengths(label: &str, left_len: usize, right_len: usize) -> (r: Result<
    (),
    VTError,
>)
    ensures
        left_len == right_len <==> r is Ok,
        r matches Err(e) ==> e matches VTError::InvalidArgument(m) && m@
            == spec_length_mismatch_message(label@, left_len, right_len),
{
    if left_len == right_len {
        Ok(())
    } else {
        let mut m = String::new();
        m.append(label);
        m.append(" length (");
        push_unsigned(&mut m, left_len as u64);
        m.append(") must match destination frame count (");
        push_unsigned(&mut m, right_len as u64);
        m.append(")");
        proof {
            assert(m@ =~= spec_length_mismatch_message(label@, left_len, right_len));
        }
        Err(VTError::InvalidArgument(m))
    }
}

/// The error reported when a frame wrapper is handed a buffer that is not
/// backed by an `IOSurface`.
pub open spec fn spec_frame_buffer_message() -> Seq<char> {
    "VTFrameProcessorFrame requires an IOSurface-backed CVPixelBuffer"@
}

/// Checks the pixel buffer a `VTFrameProcessorFrame` is made from: it must be
/// backed by an `IOSurface`.
pub fn check_frame_buffer(io_surface_backed: bool) -> (r: Result<(), VTError>)
    ensures
        io_surface_backed <==> r is Ok,
        r matches Err(e) ==> e matches VTError::InvalidArgument(m) && m@
            == spec_frame_buffer_message(),
{
    if io_surface_backed {
        Ok(())
    } else {
        Err(
            VTError::InvalidArgument(
                "VTFrameProcessorFrame requires an IOSurface-backed CVPixelBuffer".to_owned(),
            ),
        )
    }
}

/// The error reported when an optical-flow wrapper is handed a buffer that is
/// not backed by an `IOSurface`.
pub open spec fn spec_flow_buffers_message() -> Seq<char> {
    "VTFrameProcessorOpticalFlow requires IOSurface-backed CVPixelBuffers"@
}

/// Checks the two flow buffers a `VTFrameProcessorOpticalFlow` is made from:
/// both must be backed by an `IOSurface`.
pub fn check_flow_buffers(forward_backed: bool, backward_backed: bool) -> (r: Result<(), VTError>)
    ensures
        (forward_backed && backward_backed) <==> r is Ok,
        r matches Err(e) ==> e matches VTError::InvalidArgument(m) && m@
            == spec_flow_buffers_message(),
{
    if forward_backed && backward_backed {
        Ok(())
    } else {
        Err(
            VTError::InvalidArgument(
                "VTFrameProcessorOpticalFlow requires IOSurface-backed CVPixelBuffers".to_owned(),
            ),
        )
    }
}

/// Outcome of a bridge call that hands back a new object: the object counts
/// only when the status is `0` and the address is non-zero; otherwise
/// [`VTError::ApiFailed`] naming the call.
pub open spec fn spec_object_result(api: &'static str, status: OSStatus, handle: usize) -> Result<
    usize,
    VTError,
> {
    if status != 0 || handle == 0 {
        Err(VTError::ApiFailed { api, status })
    } else {
        Ok(handle)
    }
}

/// Checks the outcome of a frame or optical-flow wrapper creation.
pub fn object_result(api: &'static str, status: OSStatus, handle: usize) -> (r: Result<
    usize,
    VTError,
>)
    ensures
        r == spec_object_result(api, status, handle),
{
    if status != 0 || handle == 0 {
        Err(VTError::ApiFailed { api, status })
    } else {
        Ok(handle)
    }
}

/// Active `VTFrameProcessor` session for one specific pipeline. Holds the
/// address of the native processor.
pub struct FrameProcessor {
    inner: usize,
}

impl View for FrameProcessor {
    type V = usize;

    closed spec fn view(&self) -> usize {
        self.inner
    }
}

impl FrameProcessor {
    /// Adopts the processor a `start_*` call handed back: it counts only
    /// when the status is `0` and the address is non-zero; otherwise
    /// [`VTError::SessionCreateFailed`] with the status.
    pub fn from_status(status: OSStatus, inner: usize) -> (r: Result<Self, VTError>)
        ensures
            (status == 0 && inner != 0) <==> r is Ok,
            r matches Ok(p) ==> p@ == inner,
            r matches Err(e) ==> e == VTError::SessionCreateFailed(status),
    {
        if status != 0 || inner == 0 {
            return Err(VTError::SessionCreateFailed(status));
        }
        Ok(Self { inner })
    }

    /// Address of the native processor.
    pub fn as_ptr(&self) -> (r: usize)
        ensures
            r == self@,
    {
        self.inner
    }
}

} // verus!
