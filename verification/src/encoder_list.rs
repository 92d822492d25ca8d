//! The installed-encoder listing: its options dictionary, the encoder
//! identity record, and how the listing call's outcome is reported.

use vstd::prelude::*;

use crate::compression::opt_seq;
use crate::ffi;
use crate::session::{CFValue, DictionaryEntry};

verus! {

/// One entry from `VTCopyVideoEncoderList`.
#[derive(Debug, Clone, PartialEq, Eq)]
pub struct VideoEncoder {
    /// `CMVideoCodecType` four-character code (e.g. `0x61766331` for `'avc1'`).
    pub codec_type: u32,
    /// Reverse-DNS unique encoder id (e.g.
    /// `"com.apple.videotoolbox.videoencoder.h264"`).
    pub encoder_id: String,
    /// Codec name (e.g. `"H.264"`).
    pub codec_name: String,
    /// Encoder name (e.g. `"Apple H.264"`).
    pub encoder_name: String,
    /// Display name (codec name if there's only one encoder for that
    /// format, otherwise the encoder name).
    pub display_name: String,
}

/// Options passed to `VTCopyVideoEncoderList`.
#[derive(Debug, Clone, Copy, PartialEq, Eq, Structural)]
pub struct VideoEncoderListOptions {
    include_standard_definition_dv_encoders: bool,
}

impl VideoEncoderListOptions {
    /// Whether standard-definition DV encoders are listed too.
    pub closed spec fn includes_dv(self) -> bool {
        self.include_standard_definition_dv_encoders
    }

    /// The default options.
    pub closed spec fn spec_new() -> Self {
        VideoEncoderListOptions { include_standard_definition_dv_encoders: false }
    }

    /// These options with DV encoders listed exactly when `enabled`.
    pub closed spec fn spec_with_include_dv(self, enabled: bool) -> Self {
        VideoEncoderListOptions { include_standard_definition_dv_encoders: enabled }
    }

    /// Default options: DV encoders are left out.
    pub fn new() -> (r: Self)
        ensures
            r == VideoEncoderListOptions::spec_new(),
            !r.includes_dv(),
    {
        Self { include_standard_definition_dv_encoders: false }
    }

    /// Lists standard-definition DV encoders too when `enabled`.
    pub fn with_include_standard_definition_dv_encoders(self, enabled: bool) -> (r: Self)
        ensures
            r == self.spec_with_include_dv(enabled),
            r.includes_dv() == enabled,
    {
        let mut s = self;
        s.include_standard_definition_dv_encoders = enabled;
        s
    }

    /// Whether standard-definition DV encoders are listed too.
    pub fn include_standard_definition_dv_encoders(&self) -> (r: bool)
        ensures
            r == self.includes_dv(),
    {
        self.include_standard_definition_dv_encoders
    }

    /// The options dictionary handed to `VTCopyVideoEncoderList`: none at
    /// all for the defaults, otherwise one entry asking for DV encoders.
    pub fn to_cf_dictionary(self) -> (r: Option<Vec<DictionaryEntry>>)
        ensures
            !self.includes_dv() ==> r is None,
            self.includes_dv() ==> (r matches Some(v) && v@ == seq![
                (ffi::kVTVideoEncoderListOption_IncludeStandardDefinitionDVEncoders, CFValue::Boolean(true)),
            ]),
    {
        if !self.include_standard_definition_dv_encoders {
            return None;
        }
        let mut v: Vec<DictionaryEntry> = Vec::new();
        v.push(
            (
                ffi::kVTVideoEncoderListOption_IncludeStandardDefinitionDVEncoders,
                CFValue::Boolean(true),
            ),
        );
        Some(v)
    }
}

impl Default for VideoEncoderListOptions {
    /// Same as [`VideoEncoderListOptions::new`].
    fn default() -> (r: Self)
        ensures
            r == VideoEncoderListOptions::spec_new(),
            !r.includes_dv(),
    {
        Self::new()
    }
}

/// Listing options are determined by whether they ask for DV encoders: two
/// values that agree on it are equal.
pub proof fn lemma_list_options_determined_by_flag(a: VideoEncoderListOptions, b: VideoEncoderListOptions)
    requires
        a.includes_dv() == b.includes_dv(),
    ensures
        a == b,
{
}

/// The DV request is the last one set, and the defaults leave DV encoders
/// out.
pub proof fn lemma_last_dv_request_wins(o: VideoEncoderListOptions, first: bool, second: bool)
    ensures
        o.spec_with_include_dv(first).spec_with_include_dv(second) == o.spec_with_include_dv(second),
        o.spec_with_include_dv(first).includes_dv() == first,
        !VideoEncoderListOptions::spec_new().includes_dv(),
        VideoEncoderListOptions::spec_new().spec_with_include_dv(false)
            == VideoEncoderListOptions::spec_new(),
{
}

/// What the listing reports: the status when it is non-zero; otherwise the
/// entries read from the returned array, or none at all when no array came
/// back.
pub open spec fn spec_listing_result<T>(status: i32, entries: Option<Seq<T>>) -> Result<Seq<T>, i32> {
    if status != 0 {
        Err(status)
    } else {
        match entries {
            Some(s) => Ok(s),
            None => Ok(Seq::empty()),
        }
    }
}

/// Reports the outcome of `VTCopyVideoEncoderList` (and of any listing with
/// the same shape): `entries` holds what was read from the returned array,
/// or `None` when the array pointer was NULL.
pub fn listing_result<T>(status: i32, entries: Option<Vec<T>>) -> (r: Result<Vec<T>, i32>)
    ensures
        r matches Ok(v) ==> spec_listing_result(status, opt_seq(entries)) == Ok::<
            Seq<T>,
            i32,
        >(v@),
        r matches Err(s) ==> spec_listing_result(status, opt_seq(entries)) == Err::<
            Seq<T>,
            i32,
        >(s),
{
    if status != 0 {
        return Err(status);
    }
    match entries {
        Some(v) => Ok(v),
        None => Ok(Vec::new()),
    }
}

/// One listed encoder with the extended metadata the listing publishes.
/// `P` holds the retained selection-properties dictionary.
#[derive(Debug, Clone)]
pub struct VideoEncoderDetails<P> {
    /// Basic encoder identity fields.
    pub base: VideoEncoder,
    /// `MTLDevice::registryID()` when the encoder is pinned to a specific GPU.
    pub gpu_registry_id: Option<u64>,
    /// Encoder-selection properties Apple suggests consulting during selection.
    pub supported_selection_properties: Option<P>,
    /// Relative performance score among encoders for the same codec.
    pub performance_rating: Option<i64>,
    /// Relative quality score among encoders for the same codec.
    pub quality_rating: Option<i64>,
    /// Whether this encoder is globally instance-limited.
    pub instance_limit: Option<bool>,
    /// Whether this encoder is hardware accelerated.
    pub is_hardware_accelerated: Option<bool>,
    /// Whether this encoder supports frame reordering (B-frames).
    pub supports_frame_reordering: Option<bool>,
}

/// The identity records of listed encoders, in listing order.
pub open spec fn spec_bases<P>(details: Seq<VideoEncoderDetails<P>>) -> Seq<VideoEncoder> {
    details.map_values(|d: VideoEncoderDetails<P>| d.base)
}

/// What the plain listing reports for a native outcome: the status when it
/// is non-zero; otherwise the identity of every listed encoder, in order, or
/// none at all when no array came back.
pub open spec fn spec_plain_listing<P>(status: i32, entries: Option<Seq<VideoEncoderDetails<P>>>) -> Result<
    Seq<VideoEncoder>,
    i32,
> {
    if status != 0 {
        Err(status)
    } else {
        match entries {
            Some(s) => Ok(spec_bases(s)),
            None => Ok(Seq::empty()),
        }
    }
}

/// The options dictionary a listing with `options` hands to the native call.
pub open spec fn spec_list_options(options: VideoEncoderListOptions) -> Option<Seq<DictionaryEntry>> {
    if options.includes_dv() {
        Some(
            seq![
                (ffi::kVTVideoEncoderListOption_IncludeStandardDefinitionDVEncoders, CFValue::Boolean(true)),
            ],
        )
    } else {
        None
    }
}

/// For the same native outcome, the plain listing is the detailed listing
/// reduced to each encoder's identity: the same encoders in the same order,
/// and the same status passed through unchanged on failure.
pub proof fn lemma_plain_listing_is_detailed_listing_reduced<P>(
    status: i32,
    entries: Option<Seq<VideoEncoderDetails<P>>>,
)
    ensures
        spec_plain_listing(status, entries) == match spec_listing_result(status, entries) {
            Ok(s) => Ok::<Seq<VideoEncoder>, i32>(spec_bases(s)),
            Err(e) => Err::<Seq<VideoEncoder>, i32>(e),
        },
{
    assert(spec_bases(Seq::<VideoEncoderDetails<P>>::empty()) =~= Seq::<VideoEncoder>::empty());
}

/// The identity record of every listed encoder, in order.
pub fn encoder_bases<P>(details: Vec<VideoEncoderDetails<P>>) -> (r: Vec<VideoEncoder>)
    ensures
        r@ == spec_bases(details@),
{
    let ghost all = details@;
    let mut rest = details;
    let mut out: Vec<VideoEncoder> = Vec::new();
    while rest.len() > 0
        invariant
            out.len() + rest.len() == all.len(),
            rest@ == all.subrange(out.len() as int, all.len() as int),
            forall|i: int| 0 <= i < out.len() ==> #[trigger] out@[i] == all[i].base,
        decreases rest.len(),
    {
        let d = rest.remove(0);
        proof {
            assert(d == all[out.len() as int]);
            assert(rest@ =~= all.subrange(out.len() + 1, all.len() as int));
        }
        out.push(d.base);
    }
    assert(out@ =~= spec_bases(all));
    out
}

/// Every installed encoder listed with `options`, with its metadata. `list`
/// makes the native listing call (`VTCopyVideoEncoderList`) with the options
/// dictionary it is handed and reports its status and the entries it read
/// (`None` when no array came back).
pub fn available_video_encoder_details_with_options<P, F>(
    options: &VideoEncoderListOptions,
    list: F,
) -> (r: Result<Vec<VideoEncoderDetails<P>>, i32>) where
    F: FnOnce(Option<Vec<DictionaryEntry>>) -> (i32, Option<Vec<VideoEncoderDetails<P>>>),

    requires
        forall|o: Option<Vec<DictionaryEntry>>| #[trigger] list.requires((o,)),
    ensures
        exists|o: Option<Vec<DictionaryEntry>>, out: (i32, Option<Vec<VideoEncoderDetails<P>>>)|
            #![trigger list.ensures((o,), out)]
            list.ensures((o,), out) && opt_seq(o) == spec_list_options(*options) && match r {
                Ok(v) => spec_listing_result(out.0, opt_seq(out.1)) == Ok::<
                    Seq<VideoEncoderDetails<P>>,
                    i32,
                >(v@),
                Err(s) => spec_listing_result(out.0, opt_seq(out.1)) == Err::<
                    Seq<VideoEncoderDetails<P>>,
                    i32,
                >(s),
            },
{
    let dictionary = options.to_cf_dictionary();
    proof {
        assert(opt_seq(dictionary) == spec_list_options(*options));
    }
    let ghost handed = dictionary;
    let out = list(dictionary);
    let r = listing_result(out.0, out.1);
    proof {
        assert(list.ensures((handed,), out));
    }
    r
}

/// Every installed encoder with its metadata, listed with the default
/// options (which hand the native call no dictionary at all).
pub fn available_video_encoder_details<P, F>(list: F) -> (r: Result<Vec<VideoEncoderDetails<P>>, i32>) where
    F: FnOnce(Option<Vec<DictionaryEntry>>) -> (i32, Option<Vec<VideoEncoderDetails<P>>>),

    requires
        forall|o: Option<Vec<DictionaryEntry>>| #[trigger] list.requires((o,)),
    ensures
        exists|out: (i32, Option<Vec<VideoEncoderDetails<P>>>)|
            #![trigger list.ensures((None::<Vec<DictionaryEntry>>,), out)]
            list.ensures((None::<Vec<DictionaryEntry>>,), out) && match r {
                Ok(v) => spec_listing_result(out.0, opt_seq(out.1)) == Ok::<
                    Seq<VideoEncoderDetails<P>>,
                    i32,
                >(v@),
                Err(s) => spec_listing_result(out.0, opt_seq(out.1)) == Err::<
                    Seq<VideoEncoderDetails<P>>,
                    i32,
                >(s),
            },
{
    let options = VideoEncoderListOptions::new();
    let r = available_video_encoder_details_with_options(&options, list);
    proof {
        let (o, out) = choose|o: Option<Vec<DictionaryEntry>>, out: (i32, Option<Vec<VideoEncoderDetails<P>>>)|
            list.ensures((o,), out) && opt_seq(o) == spec_list_options(options) && match r {
                Ok(v) => spec_listing_result(out.0, opt_seq(out.1)) == Ok::<
                    Seq<VideoEncoderDetails<P>>,
                    i32,
                >(v@),
                Err(s) => spec_listing_result(out.0, opt_seq(out.1)) == Err::<
                    Seq<VideoEncoderDetails<P>>,
                    i32,
                >(s),
            };
        assert(o is None);
        assert(list.ensures((None::<Vec<DictionaryEntry>>,), out));
    }
    r
}

/// Every installed video encoder: the detailed listing with the default
/// options, reduced to each encoder's identity. A failing status is passed
/// through unchanged.
pub fn available_video_encoders<P, F>(list: F) -> (r: Result<Vec<VideoEncoder>, i32>) where
    F: FnOnce(Option<Vec<DictionaryEntry>>) -> (i32, Option<Vec<VideoEncoderDetails<P>>>),

    requires
        forall|o: Option<Vec<DictionaryEntry>>| #[trigger] list.requires((o,)),
    ensures
        exists|out: (i32, Option<Vec<VideoEncoderDetails<P>>>)|
            #![trigger list.ensures((None::<Vec<DictionaryEntry>>,), out)]
            list.ensures((None::<Vec<DictionaryEntry>>,), out) && match r {
                Ok(v) => spec_plain_listing(out.0, opt_seq(out.1)) == Ok::<Seq<VideoEncoder>, i32>(
                    v@,
                ),
                Err(s) => spec_plain_listing(out.0, opt_seq(out.1)) == Err::<Seq<VideoEncoder>, i32>(
                    s,
                ),
            },
{
    let details = available_video_encoder_details(list);
    let ghost d = details;
    let r = match details {
        Ok(v) => Ok(encoder_bases(v)),
        Err(s) => Err(s),
    };
    proof {
        let out = choose|out: (i32, Option<Vec<VideoEncoderDetails<P>>>)|
            list.ensures((None::<Vec<DictionaryEntry>>,), out) && match d {
                Ok(v) => spec_listing_result(out.0, opt_seq(out.1)) == Ok::<
                    Seq<VideoEncoderDetails<P>>,
                    i32,
                >(v@),
                Err(s) => spec_listing_result(out.0, opt_seq(out.1)) == Err::<
                    Seq<VideoEncoderDetails<P>>,
                    i32,
                >(s),
            };
        lemma_plain_listing_is_detailed_listing_reduced(out.0, opt_seq(out.1));
        assert(list.ensures((None::<Vec<DictionaryEntry>>,), out));
    }
    r
}

/// The codec type recorded for an entry: the `kCFNumberSInt32Type` value
/// read from its `CodecType` field, reinterpreted as unsigned, or `0` when
/// the field is missing or unreadable.
pub fn codec_type_from_number(value: Option<i32>) -> (r: u32)
    ensures
        value is None ==> r == 0,
        value matches Some(v) ==> r == v as u32,
{
    match value {
        Some(v) => v as u32,
        None => 0,
    }
}

/// The encoder specification used when a supported-property query is
/// pinned to one encoder: a single `EncoderID` entry, or none.
pub fn encoder_id_specification(encoder_id: Option<&str>) -> (r: Option<Vec<DictionaryEntry>>)
    ensures
        encoder_id is None ==> r is None,
        encoder_id matches Some(id) ==> (r matches Some(v) && v@.len() == 1 && v@[0].0
            == ffi::kVTVideoEncoderSpecification_EncoderID && (v@[0].1 matches CFValue::String(s)
            && s@ == id@)),
{
    match encoder_id {
        None => None,
        Some(id) => {
            let mut v: Vec<DictionaryEntry> = Vec::new();
            v.push((ffi::kVTVideoEncoderSpecification_EncoderID, CFValue::String(id.to_owned())));
            Some(v)
        },
    }
}

/// Reads a `CFBoolean` field by identity: the shared `kCFBooleanTrue` and
/// `kCFBooleanFalse` objects are the only booleans; a missing field or any
/// other object reads as none.
pub fn cf_bool_from(value: usize, true_object: usize, false_object: usize) -> (r: Option<bool>)
    ensures
        value == 0 ==> r is None,
        value != 0 && value == true_object ==> r == Some(true),
        value != 0 && value != true_object && value == false_object ==> r == Some(false),
        value != 0 && value != true_object && value != false_object ==> r is None,
{
    if value == 0 {
        None
    } else if value == true_object {
        Some(true)
    } else if value == false_object {
        Some(false)
    } else {
        None
    }
}

} // verus!
