//! Video codecs supported by `VideoToolbox`, and the status checks shared by
//! every `VTSession` property call.

use vstd::prelude::*;

use crate::error::{OSStatus, VTError};
use crate::ffi;

verus! {

/// `CMVideoCodecType`: a four-character code packed big-endian into a `u32`.
pub type CMVideoCodecType = u32;

/// The four-character code whose ASCII bytes are `a b c d`, as
/// `u32::from_be_bytes([a, b, c, d])` packs them.
pub open spec fn fourcc(a: char, b: char, c: char, d: char) -> u32 {
    (a as int * 0x1000000 + b as int * 0x10000 + c as int * 0x100 + d as int) as u32
}

/// Video codec families. Maps to `CMVideoCodecType` four-character codes.
#[derive(Debug, Clone, Copy, PartialEq, Eq, Hash)]
#[non_exhaustive]
pub enum Codec {
    /// H.264 / AVC
    H264,
    /// H.265 / HEVC
    HEVC,
    /// Apple `ProRes` 422 (Standard Definition)
    ProRes422,
    /// Apple `ProRes` 422 HQ
    ProRes422HQ,
    /// Apple `ProRes` 422 LT
    ProRes422LT,
    /// Apple `ProRes` 422 Proxy
    ProRes422Proxy,
    /// Apple `ProRes` 4444 (with alpha)
    ProRes4444,
}

/// The four-character code `CoreMedia` assigns to each codec.
pub open spec fn spec_codec_type(codec: Codec) -> CMVideoCodecType {
    match codec {
        Codec::H264 => fourcc('a', 'v', 'c', '1'),
        Codec::HEVC => fourcc('h', 'v', 'c', '1'),
        Codec::ProRes422 => fourcc('a', 'p', 'c', 'n'),
        Codec::ProRes422HQ => fourcc('a', 'p', 'c', 'h'),
        Codec::ProRes422LT => fourcc('a', 'p', 'c', 's'),
        Codec::ProRes422Proxy => fourcc('a', 'p', 'c', 'o'),
        Codec::ProRes4444 => fourcc('a', 'p', '4', 'h'),
    }
}

impl Codec {
    /// Lower into a `CMVideoCodecType` for the FFI boundary.
    pub fn as_cm_codec_type(self) -> (r: CMVideoCodecType)
        ensures
            r == spec_codec_type(self),
    {
        match self {
            Self::H264 => ffi::kCMVideoCodecType_H264,
            Self::HEVC => ffi::kCMVideoCodecType_HEVC,
            Self::ProRes422 => ffi::kCMVideoCodecType_AppleProRes422,
            Self::ProRes422HQ => ffi::kCMVideoCodecType_AppleProRes422HQ,
            Self::ProRes422LT => ffi::kCMVideoCodecType_AppleProRes422LT,
            Self::ProRes422Proxy => ffi::kCMVideoCodecType_AppleProRes422Proxy,
            Self::ProRes4444 => ffi::kCMVideoCodecType_AppleProRes4444,
        }
    }
}

/// Distinct codecs map to distinct `CMVideoCodecType` codes.
pub proof fn lemma_codec_types_are_distinct(a: Codec, b: Codec)
    requires
        a != b,
    ensures
        spec_codec_type(a) != spec_codec_type(b),
{
}

/// Outcome of a `VTSession` call that reports only a status: success on `0`,
/// otherwise [`VTError::ApiFailed`] naming the call.
pub open spec fn spec_api_result(api: &'static str, status: OSStatus) -> Result<(), VTError> {
    if status == 0 {
        Ok(())
    } else {
        Err(VTError::ApiFailed { api, status })
    }
}

/// Maps the status of a `VTSession*` call onto this crate's error.
pub fn api_result(api: &'static str, status: OSStatus) -> (r: Result<(), VTError>)
    ensures
        r == spec_api_result(api, status),
{
    if status == 0 {
        Ok(())
    } else {
        Err(VTError::ApiFailed { api, status })
    }
}

/// Outcome of a call that hands back a new object through an out-pointer:
/// the object counts only when the status is `0` and the pointer is non-NULL.
pub open spec fn spec_copy_result(api: &'static str, status: OSStatus, out_is_null: bool) -> Result<
    (),
    VTError,
> {
    if status != 0 || out_is_null {
        Err(VTError::ApiFailed { api, status })
    } else {
        Ok(())
    }
}

/// Checks the status and out-pointer of a `VTSessionCopy*` call.
pub fn copy_result(api: &'static str, status: OSStatus, out_is_null: bool) -> (r: Result<
    (),
    VTError,
>)
    ensures
        r == spec_copy_result(api, status, out_is_null),
{
    if status != 0 || out_is_null {
        Err(VTError::ApiFailed { api, status })
    } else {
        Ok(())
    }
}

/// Maps the status of `VTSessionSetProperty` for the property named `key`:
/// a non-zero status becomes [`VTError::SetPropertyFailed`] carrying the key.
pub fn set_property_result(key: &str, status: OSStatus) -> (r: Result<(), VTError>)
    ensures
        status == 0 <==> r is Ok,
        r matches Err(VTError::SetPropertyFailed { key: k, status: s }) ==> k@ == key@ && s
            == status,
        r is Err ==> r->Err_0 is SetPropertyFailed,
{
    if status == 0 {
        Ok(())
    } else {
        Err(VTError::SetPropertyFailed { key: key.to_owned(), status })
    }
}

/// A `CoreFoundation` value placed in an options or property dictionary.
#[derive(Debug, Clone, PartialEq)]
pub enum CFValue {
    /// `kCFBooleanTrue` / `kCFBooleanFalse`.
    Boolean(bool),
    /// A `CFString` holding this text.
    String(String),
    /// A `CFNumber` made from an unsigned 64-bit integer.
    UInt64(u64),
    /// A `CFNumber` of type `kCFNumberSInt32Type`.
    SInt32(i32),
    /// A `CFNumber` of type `kCFNumberFloat64Type`; the `f64` bit pattern.
    Float64Bits(u64),
    /// A floating-point quality hint clamped to `0.0..=1.0` and stored as a
    /// `kCFNumberFloat64Type`; the `f32` bit pattern as supplied.
    UnitFloat32Bits(u32),
    /// The SDK `CFString` constant with this symbol name.
    Constant(&'static str),
    /// A `CFArray` of the SDK `CFString` constants with these symbol names.
    ConstantArray(Vec<&'static str>),
}

/// One key/value pair of a dictionary handed to `VideoToolbox`; the key is the
/// symbol name of an SDK `CFString` constant.
pub type DictionaryEntry = (&'static str, CFValue);

/// The non-NULL entries of a `CFArray` of objects, in order.
pub open spec fn spec_present_entries(entries: Seq<usize>) -> Seq<usize>
    decreases entries.len(),
{
    if entries.len() == 0 {
        Seq::empty()
    } else {
        let rest = spec_present_entries(entries.drop_last());
        if entries.last() != 0 {
            rest.push(entries.last())
        } else {
            rest
        }
    }
}

/// The addresses of a `CFArray`'s entries with the NULL ones left out, in
/// order.
pub fn present_entries(entries: &Vec<usize>) -> (r: Vec<usize>)
    ensures
        r@ == spec_present_entries(entries@),
{
    let mut out: Vec<usize> = Vec::new();
    let mut i: usize = 0;
    while i < entries.len()
        invariant
            i <= entries@.len(),
            out@ == spec_present_entries(entries@.take(i as int)),
        decreases entries@.len() - i,
    {
        let entry = entries[i];
        if entry != 0 {
            out.push(entry);
        }
        assert(entries@.take(i + 1).drop_last() =~= entries@.take(i as int));
        i = i + 1;
    }
    assert(entries@.take(i as int) =~= entries@);
    out
}

} // verus!
