//! `VTHDRPerFrameMetadataGenerationSession`: Dolby Vision per-frame HDR
//! metadata generation (macOS 15+). Here: the creation options, the session
//! handle, and how each native status is reported.

use vstd::prelude::*;

use crate::error::{OSStatus, VTError};
use crate::ffi;
use crate::session::{CFValue, DictionaryEntry};
use crate::transfer::{create_result, spec_create_result};

verus! {

/// HDR metadata formats accepted by `VTHDRPerFrameMetadataGenerationSession`.
#[derive(Debug, Clone, Copy, PartialEq, Eq, Structural)]
pub enum HdrMetadataFormat {
    DolbyVision,
}

/// The SDK constant naming each format.
pub open spec fn spec_hdr_format_symbol(f: HdrMetadataFormat) -> &'static str {
    match f {
        HdrMetadataFormat::DolbyVision => ffi::kVTHDRPerFrameMetadataGenerationHDRFormatType_DolbyVision,
    }
}

impl HdrMetadataFormat {
    /// The `kVTHDRPerFrameMetadataGenerationHDRFormatType_*` constant for
    /// this format.
    pub fn as_cf_string(self) -> (r: &'static str)
        ensures
            r == spec_hdr_format_symbol(self),
    {
        match self {
            Self::DolbyVision => ffi::kVTHDRPerFrameMetadataGenerationHDRFormatType_DolbyVision,
        }
    }
}

/// A `CFValue` array of constants, seen as the sequence of names it holds.
pub open spec fn constant_array_names(v: CFValue) -> Option<Seq<&'static str>> {
    match v {
        CFValue::ConstantArray(a) => Some(a@),
        _ => None,
    }
}

/// Whether `opts` is the creation options for `formats`: none when the
/// list is empty (the framework default applies), otherwise one
/// `HDRFormats` entry listing each format's constant in order.
pub open spec fn spec_hdr_options(formats: Seq<HdrMetadataFormat>, opts: Option<Vec<DictionaryEntry>>) -> bool {
    &&& formats.len() == 0 <==> opts is None
    &&& opts matches Some(v) ==> {
        &&& v@.len() == 1
        &&& v@[0].0 == ffi::kVTHDRPerFrameMetadataGenerationOptionsKey_HDRFormats
        &&& constant_array_names(v@[0].1) == Some(
            formats.map_values(|f: HdrMetadataFormat| spec_hdr_format_symbol(f)),
        )
    }
}

/// Builds the options dictionary handed to
/// `VTHDRPerFrameMetadataGenerationSessionCreate`.
pub fn build_hdr_options(hdr_formats: &[HdrMetadataFormat]) -> (r: Option<Vec<DictionaryEntry>>)
    ensures
        spec_hdr_options(hdr_formats@, r),
{
    if hdr_formats.len() == 0 {
        return None;
    }
    let mut names: Vec<&'static str> = Vec::new();
    let mut i: usize = 0;
    while i < hdr_formats.len()
        invariant
            i <= hdr_formats@.len(),
            names@ == hdr_formats@.subrange(0, i as int).map_values(
                |f: HdrMetadataFormat| spec_hdr_format_symbol(f),
            ),
        decreases hdr_formats@.len() - i,
    {
        names.push(hdr_formats[i].as_cf_string());
        i = i + 1;
        assert(hdr_formats@.subrange(0, i as int) =~= hdr_formats@.subrange(0, i - 1).push(
            hdr_formats@[i - 1],
        ));
    }
    assert(hdr_formats@.subrange(0, i as int) =~= hdr_formats@);
    let mut v: Vec<DictionaryEntry> = Vec::new();
    v.push(
        (ffi::kVTHDRPerFrameMetadataGenerationOptionsKey_HDRFormats, CFValue::ConstantArray(names)),
    );
    Some(v)
}

/// `VTHDRPerFrameMetadataGenerationSessionRef`. Holds the address of the
/// native session.
pub struct HdrMetadataSession {
    inner: usize,
}

impl View for HdrMetadataSession {
    type V = usize;

    closed spec fn view(&self) -> usize {
        self.inner
    }
}

impl HdrMetadataSession {
    /// Adopts the session handed back by
    /// `VTHDRPerFrameMetadataGenerationSessionCreate`: it counts only when
    /// the status is `0` and the reference is non-NULL; otherwise
    /// [`VTError::SessionCreateFailed`].
    pub fn from_create(status: OSStatus, inner: usize) -> (r: Result<Self, VTError>)
        ensures
            r matches Ok(s) ==> spec_create_result(status, inner) == Ok::<usize, VTError>(s@),
            r matches Err(e) ==> spec_create_result(status, inner) == Err::<usize, VTError>(e),
    {
        match create_result(status, inner) {
            Ok(h) => Ok(Self { inner: h }),
            Err(e) => Err(e),
        }
    }

    /// A session generating metadata in the given formats (an empty list
    /// takes the framework default). `create` makes the native call
    /// (`VTHDRPerFrameMetadataGenerationSessionCreate`, with the source frame
    /// rate it was given) with the creation options, and reports its status
    /// and the session it handed back.
    pub fn new_with_formats<F>(hdr_formats: &[HdrMetadataFormat], create: F) -> (r: Result<
        Self,
        VTError,
    >) where F: FnOnce(Option<Vec<DictionaryEntry>>) -> (OSStatus, usize)
        requires
            forall|o: Option<Vec<DictionaryEntry>>| create.requires((o,)),
        ensures
            exists|opts: Option<Vec<DictionaryEntry>>, out: (OSStatus, usize)|
                #![trigger create.ensures((opts,), out)]
                create.ensures((opts,), out) && spec_hdr_options(hdr_formats@, opts) && (
                match r {
                    Ok(s) => spec_create_result(out.0, out.1) == Ok::<usize, VTError>(s@),
                    Err(e) => spec_create_result(out.0, out.1) == Err::<usize, VTError>(e),
                }),
    {
        let opts = build_hdr_options(hdr_formats);
        let ghost handed = opts;
        let out = create(opts);
        assert(create.ensures((handed,), out));
        Self::from_create(out.0, out.1)
    }

    /// A Dolby Vision session; `create` makes the native call, as for
    /// [`Self::new_with_formats`].
    pub fn new<F>(create: F) -> (r: Result<Self, VTError>) where
        F: FnOnce(Option<Vec<DictionaryEntry>>) -> (OSStatus, usize),

        requires
            forall|o: Option<Vec<DictionaryEntry>>| create.requires((o,)),
        ensures
            exists|opts: Option<Vec<DictionaryEntry>>, out: (OSStatus, usize)|
                #![trigger create.ensures((opts,), out)]
                create.ensures((opts,), out) && spec_hdr_options(
                    seq![HdrMetadataFormat::DolbyVision],
                    opts,
                ) && (match r {
                    Ok(s) => spec_create_result(out.0, out.1) == Ok::<usize, VTError>(s@),
                    Err(e) => spec_create_result(out.0, out.1) == Err::<usize, VTError>(e),
                }),
    {
        let formats = [HdrMetadataFormat::DolbyVision];
        let r = Self::new_with_formats(&formats, create);
        assert(formats@ =~= seq![HdrMetadataFormat::DolbyVision]);
        r
    }

    /// Raw `VTHDRPerFrameMetadataGenerationSessionRef`, as an address.
    pub fn as_ptr(&self) -> (r: usize)
        ensures
            r == self@,
    {
        self.inner
    }

    /// Result of `VTHDRPerFrameMetadataGenerationSessionAttachMetadata`:
    /// success on `0`, otherwise [`VTError::EncodeFailed`].
    pub fn attach_result(status: OSStatus) -> (r: Result<(), VTError>)
        ensures
            status == 0 ==> r is Ok,
            status != 0 ==> r == Err::<(), VTError>(VTError::EncodeFailed(status)),
    {
        if status == 0 {
            Ok(())
        } else {
            Err(VTError::EncodeFailed(status))
        }
    }
}

} // verus!
