//! Encoder configuration: profile/level selection, per-frame options, the
//! session builder and the plan it lowers into, and the bookkeeping of frames
//! in flight through the encoder callback.

use vstd::prelude::*;
use vstd::string::StringExecFns;

use crate::error::{OSStatus, VTError};
use crate::ffi;
use crate::session::{spec_codec_type, CFValue, Codec, DictionaryEntry};
use crate::text::{decimal, push_char, push_decimal};

pub mod profile_keys;
pub mod profile_symbols;

verus! {

/// Encoded profile/level for the underlying codec. Maps to
/// `kVTProfileLevel_*` `CFStringRef` constants.
#[derive(Debug, Clone, Copy, PartialEq, Eq, Hash, Structural)]
#[non_exhaustive]
pub enum ProfileLevel {
    H263Profile0Level10,
    H263Profile0Level45,
    H263Profile3Level45,
    H264Baseline1_3,
    H264Baseline3_0,
    H264Baseline3_1,
    H264Baseline3_2,
    H264Baseline4_0,
    H264Baseline4_1,
    H264Baseline4_2,
    H264Baseline5_0,
    H264Baseline5_1,
    H264Baseline5_2,
    H264BaselineAutoLevel,
    H264ConstrainedBaselineAutoLevel,
    H264ConstrainedHighAutoLevel,
    H264Extended5_0,
    H264ExtendedAutoLevel,
    H264High3_0,
    H264High3_1,
    H264High3_2,
    H264High4_0,
    H264High4_1,
    H264High4_2,
    H264High5_0,
    H264High5_1,
    H264High5_2,
    H264HighAutoLevel,
    H264Main3_0,
    H264Main3_1,
    H264Main3_2,
    H264Main4_0,
    H264Main4_1,
    H264Main4_2,
    H264Main5_0,
    H264Main5_1,
    H264Main5_2,
    H264MainAutoLevel,
    HEVCMainAutoLevel,
    HEVCMain10AutoLevel,
    HEVCMain42210AutoLevel,
    HEVCMonochromeAutoLevel,
    HEVCMonochrome10AutoLevel,
    MP4VAdvancedSimpleL0,
    MP4VAdvancedSimpleL1,
    MP4VAdvancedSimpleL2,
    MP4VAdvancedSimpleL3,
    MP4VAdvancedSimpleL4,
    MP4VMainL2,
    MP4VMainL3,
    MP4VMainL4,
    MP4VSimpleL0,
    MP4VSimpleL1,
    MP4VSimpleL2,
    MP4VSimpleL3,
}

/// The profile level at `index` in declaration order.
pub open spec fn spec_profile_at(index: int) -> ProfileLevel {
    if index == 0 {
        ProfileLevel::H263Profile0Level10
    } else if index == 1 {
        ProfileLevel::H263Profile0Level45
    } else if index == 2 {
        ProfileLevel::H263Profile3Level45
    } else if index == 3 {
        ProfileLevel::H264Baseline1_3
    } else if index == 4 {
        ProfileLevel::H264Baseline3_0
    } else if index == 5 {
        ProfileLevel::H264Baseline3_1
    } else if index == 6 {
        ProfileLevel::H264Baseline3_2
    } else if index == 7 {
        ProfileLevel::H264Baseline4_0
    } else if index == 8 {
        ProfileLevel::H264Baseline4_1
    } else if index == 9 {
        ProfileLevel::H264Baseline4_2
    } else if index == 10 {
        ProfileLevel::H264Baseline5_0
    } else if index == 11 {
        ProfileLevel::H264Baseline5_1
    } else if index == 12 {
        ProfileLevel::H264Baseline5_2
    } else if index == 13 {
        ProfileLevel::H264BaselineAutoLevel
    } else if index == 14 {
        ProfileLevel::H264ConstrainedBaselineAutoLevel
    } else if index == 15 {
        ProfileLevel::H264ConstrainedHighAutoLevel
    } else if index == 16 {
        ProfileLevel::H264Extended5_0
    } else if index == 17 {
        ProfileLevel::H264ExtendedAutoLevel
    } else if index == 18 {
        ProfileLevel::H264High3_0
    } else if index == 19 {
        ProfileLevel::H264High3_1
    } else if index == 20 {
        ProfileLevel::H264High3_2
    } else if index == 21 {
        ProfileLevel::H264High4_0
    } else if index == 22 {
        ProfileLevel::H264High4_1
    } else if index == 23 {
        ProfileLevel::H264High4_2
    } else if index == 24 {
        ProfileLevel::H264High5_0
    } else if index == 25 {
        ProfileLevel::H264High5_1
    } else if index == 26 {
        ProfileLevel::H264High5_2
    } else if index == 27 {
        ProfileLevel::H264HighAutoLevel
    } else if index == 28 {
        ProfileLevel::H264Main3_0
    } else if index == 29 {
        ProfileLevel::H264Main3_1
    } else if index == 30 {
        ProfileLevel::H264Main3_2
    } else if index == 31 {
        ProfileLevel::H264Main4_0
    } else if index == 32 {
        ProfileLevel::H264Main4_1
    } else if index == 33 {
        ProfileLevel::H264Main4_2
    } else if index == 34 {
        ProfileLevel::H264Main5_0
    } else if index == 35 {
        ProfileLevel::H264Main5_1
    } else if index == 36 {
        ProfileLevel::H264Main5_2
    } else if index == 37 {
        ProfileLevel::H264MainAutoLevel
    } else if index == 38 {
        ProfileLevel::HEVCMainAutoLevel
    } else if index == 39 {
        ProfileLevel::HEVCMain10AutoLevel
    } else if index == 40 {
        ProfileLevel::HEVCMain42210AutoLevel
    } else if index == 41 {
        ProfileLevel::HEVCMonochromeAutoLevel
    } else if index == 42 {
        ProfileLevel::HEVCMonochrome10AutoLevel
    } else if index == 43 {
        ProfileLevel::MP4VAdvancedSimpleL0
    } else if index == 44 {
        ProfileLevel::MP4VAdvancedSimpleL1
    } else if index == 45 {
        ProfileLevel::MP4VAdvancedSimpleL2
    } else if index == 46 {
        ProfileLevel::MP4VAdvancedSimpleL3
    } else if index == 47 {
        ProfileLevel::MP4VAdvancedSimpleL4
    } else if index == 48 {
        ProfileLevel::MP4VMainL2
    } else if index == 49 {
        ProfileLevel::MP4VMainL3
    } else if index == 50 {
        ProfileLevel::MP4VMainL4
    } else if index == 51 {
        ProfileLevel::MP4VSimpleL0
    } else if index == 52 {
        ProfileLevel::MP4VSimpleL1
    } else if index == 53 {
        ProfileLevel::MP4VSimpleL2
    } else {
        ProfileLevel::MP4VSimpleL3
    }
}

/// The position of a profile level in declaration order.
pub open spec fn spec_profile_index(p: ProfileLevel) -> int {
    match p {
        ProfileLevel::H263Profile0Level10 => 0,
        ProfileLevel::H263Profile0Level45 => 1,
        ProfileLevel::H263Profile3Level45 => 2,
        ProfileLevel::H264Baseline1_3 => 3,
        ProfileLevel::H264Baseline3_0 => 4,
        ProfileLevel::H264Baseline3_1 => 5,
        ProfileLevel::H264Baseline3_2 => 6,
        ProfileLevel::H264Baseline4_0 => 7,
        ProfileLevel::H264Baseline4_1 => 8,
        ProfileLevel::H264Baseline4_2 => 9,
        ProfileLevel::H264Baseline5_0 => 10,
        ProfileLevel::H264Baseline5_1 => 11,
        ProfileLevel::H264Baseline5_2 => 12,
        ProfileLevel::H264BaselineAutoLevel => 13,
        ProfileLevel::H264ConstrainedBaselineAutoLevel => 14,
        ProfileLevel::H264ConstrainedHighAutoLevel => 15,
        ProfileLevel::H264Extended5_0 => 16,
        ProfileLevel::H264ExtendedAutoLevel => 17,
        ProfileLevel::H264High3_0 => 18,
        ProfileLevel::H264High3_1 => 19,
        ProfileLevel::H264High3_2 => 20,
        ProfileLevel::H264High4_0 => 21,
        ProfileLevel::H264High4_1 => 22,
        ProfileLevel::H264High4_2 => 23,
        ProfileLevel::H264High5_0 => 24,
        ProfileLevel::H264High5_1 => 25,
        ProfileLevel::H264High5_2 => 26,
        ProfileLevel::H264HighAutoLevel => 27,
        ProfileLevel::H264Main3_0 => 28,
        ProfileLevel::H264Main3_1 => 29,
        ProfileLevel::H264Main3_2 => 30,
        ProfileLevel::H264Main4_0 => 31,
        ProfileLevel::H264Main4_1 => 32,
        ProfileLevel::H264Main4_2 => 33,
        ProfileLevel::H264Main5_0 => 34,
        ProfileLevel::H264Main5_1 => 35,
        ProfileLevel::H264Main5_2 => 36,
        ProfileLevel::H264MainAutoLevel => 37,
        ProfileLevel::HEVCMainAutoLevel => 38,
        ProfileLevel::HEVCMain10AutoLevel => 39,
        ProfileLevel::HEVCMain42210AutoLevel => 40,
        ProfileLevel::HEVCMonochromeAutoLevel => 41,
        ProfileLevel::HEVCMonochrome10AutoLevel => 42,
        ProfileLevel::MP4VAdvancedSimpleL0 => 43,
        ProfileLevel::MP4VAdvancedSimpleL1 => 44,
        ProfileLevel::MP4VAdvancedSimpleL2 => 45,
        ProfileLevel::MP4VAdvancedSimpleL3 => 46,
        ProfileLevel::MP4VAdvancedSimpleL4 => 47,
        ProfileLevel::MP4VMainL2 => 48,
        ProfileLevel::MP4VMainL3 => 49,
        ProfileLevel::MP4VMainL4 => 50,
        ProfileLevel::MP4VSimpleL0 => 51,
        ProfileLevel::MP4VSimpleL1 => 52,
        ProfileLevel::MP4VSimpleL2 => 53,
        ProfileLevel::MP4VSimpleL3 => 54,
    }
}

/// The variant's Rust name.
pub open spec fn spec_profile_name(p: ProfileLevel) -> &'static str {
    match p {
        ProfileLevel::H263Profile0Level10 => "H263Profile0Level10",
        ProfileLevel::H263Profile0Level45 => "H263Profile0Level45",
        ProfileLevel::H263Profile3Level45 => "H263Profile3Level45",
        ProfileLevel::H264Baseline1_3 => "H264Baseline1_3",
        ProfileLevel::H264Baseline3_0 => "H264Baseline3_0",
        ProfileLevel::H264Baseline3_1 => "H264Baseline3_1",
        ProfileLevel::H264Baseline3_2 => "H264Baseline3_2",
        ProfileLevel::H264Baseline4_0 => "H264Baseline4_0",
        ProfileLevel::H264Baseline4_1 => "H264Baseline4_1",
        ProfileLevel::H264Baseline4_2 => "H264Baseline4_2",
        ProfileLevel::H264Baseline5_0 => "H264Baseline5_0",
        ProfileLevel::H264Baseline5_1 => "H264Baseline5_1",
        ProfileLevel::H264Baseline5_2 => "H264Baseline5_2",
        ProfileLevel::H264BaselineAutoLevel => "H264BaselineAutoLevel",
        ProfileLevel::H264ConstrainedBaselineAutoLevel => "H264ConstrainedBaselineAutoLevel",
        ProfileLevel::H264ConstrainedHighAutoLevel => "H264ConstrainedHighAutoLevel",
        ProfileLevel::H264Extended5_0 => "H264Extended5_0",
        ProfileLevel::H264ExtendedAutoLevel => "H264ExtendedAutoLevel",
        ProfileLevel::H264High3_0 => "H264High3_0",
        ProfileLevel::H264High3_1 => "H264High3_1",
        ProfileLevel::H264High3_2 => "H264High3_2",
        ProfileLevel::H264High4_0 => "H264High4_0",
        ProfileLevel::H264High4_1 => "H264High4_1",
        ProfileLevel::H264High4_2 => "H264High4_2",
        ProfileLevel::H264High5_0 => "H264High5_0",
        ProfileLevel::H264High5_1 => "H264High5_1",
        ProfileLevel::H264High5_2 => "H264High5_2",
        ProfileLevel::H264HighAutoLevel => "H264HighAutoLevel",
        ProfileLevel::H264Main3_0 => "H264Main3_0",
        ProfileLevel::H264Main3_1 => "H264Main3_1",
        ProfileLevel::H264Main3_2 => "H264Main3_2",
        ProfileLevel::H264Main4_0 => "H264Main4_0",
        ProfileLevel::H264Main4_1 => "H264Main4_1",
        ProfileLevel::H264Main4_2 => "H264Main4_2",
        ProfileLevel::H264Main5_0 => "H264Main5_0",
        ProfileLevel::H264Main5_1 => "H264Main5_1",
        ProfileLevel::H264Main5_2 => "H264Main5_2",
        ProfileLevel::H264MainAutoLevel => "H264MainAutoLevel",
        ProfileLevel::HEVCMainAutoLevel => "HEVCMainAutoLevel",
        ProfileLevel::HEVCMain10AutoLevel => "HEVCMain10AutoLevel",
        ProfileLevel::HEVCMain42210AutoLevel => "HEVCMain42210AutoLevel",
        ProfileLevel::HEVCMonochromeAutoLevel => "HEVCMonochromeAutoLevel",
        ProfileLevel::HEVCMonochrome10AutoLevel => "HEVCMonochrome10AutoLevel",
        ProfileLevel::MP4VAdvancedSimpleL0 => "MP4VAdvancedSimpleL0",
        ProfileLevel::MP4VAdvancedSimpleL1 => "MP4VAdvancedSimpleL1",
        ProfileLevel::MP4VAdvancedSimpleL2 => "MP4VAdvancedSimpleL2",
        ProfileLevel::MP4VAdvancedSimpleL3 => "MP4VAdvancedSimpleL3",
        ProfileLevel::MP4VAdvancedSimpleL4 => "MP4VAdvancedSimpleL4",
        ProfileLevel::MP4VMainL2 => "MP4VMainL2",
        ProfileLevel::MP4VMainL3 => "MP4VMainL3",
        ProfileLevel::MP4VMainL4 => "MP4VMainL4",
        ProfileLevel::MP4VSimpleL0 => "MP4VSimpleL0",
        ProfileLevel::MP4VSimpleL1 => "MP4VSimpleL1",
        ProfileLevel::MP4VSimpleL2 => "MP4VSimpleL2",
        ProfileLevel::MP4VSimpleL3 => "MP4VSimpleL3",
    }
}

/// The symbol name of the `kVTProfileLevel_*` constant for a profile level.
pub open spec fn spec_profile_symbol(p: ProfileLevel) -> &'static str {
    match p {
        ProfileLevel::H263Profile0Level10 => ffi::kVTProfileLevel_H263_Profile0_Level10,
        ProfileLevel::H263Profile0Level45 => ffi::kVTProfileLevel_H263_Profile0_Level45,
        ProfileLevel::H263Profile3Level45 => ffi::kVTProfileLevel_H263_Profile3_Level45,
        ProfileLevel::H264Baseline1_3 => ffi::kVTProfileLevel_H264_Baseline_1_3,
        ProfileLevel::H264Baseline3_0 => ffi::kVTProfileLevel_H264_Baseline_3_0,
        ProfileLevel::H264Baseline3_1 => ffi::kVTProfileLevel_H264_Baseline_3_1,
        ProfileLevel::H264Baseline3_2 => ffi::kVTProfileLevel_H264_Baseline_3_2,
        ProfileLevel::H264Baseline4_0 => ffi::kVTProfileLevel_H264_Baseline_4_0,
        ProfileLevel::H264Baseline4_1 => ffi::kVTProfileLevel_H264_Baseline_4_1,
        ProfileLevel::H264Baseline4_2 => ffi::kVTProfileLevel_H264_Baseline_4_2,
        ProfileLevel::H264Baseline5_0 => ffi::kVTProfileLevel_H264_Baseline_5_0,
        ProfileLevel::H264Baseline5_1 => ffi::kVTProfileLevel_H264_Baseline_5_1,
        ProfileLevel::H264Baseline5_2 => ffi::kVTProfileLevel_H264_Baseline_5_2,
        ProfileLevel::H264BaselineAutoLevel => ffi::kVTProfileLevel_H264_Baseline_AutoLevel,
        ProfileLevel::H264ConstrainedBaselineAutoLevel => ffi::kVTProfileLevel_H264_ConstrainedBaseline_AutoLevel,
        ProfileLevel::H264ConstrainedHighAutoLevel => ffi::kVTProfileLevel_H264_ConstrainedHigh_AutoLevel,
        ProfileLevel::H264Extended5_0 => ffi::kVTProfileLevel_H264_Extended_5_0,
        ProfileLevel::H264ExtendedAutoLevel => ffi::kVTProfileLevel_H264_Extended_AutoLevel,
        ProfileLevel::H264High3_0 => ffi::kVTProfileLevel_H264_High_3_0,
        ProfileLevel::H264High3_1 => ffi::kVTProfileLevel_H264_High_3_1,
        ProfileLevel::H264High3_2 => ffi::kVTProfileLevel_H264_High_3_2,
        ProfileLevel::H264High4_0 => ffi::kVTProfileLevel_H264_High_4_0,
        ProfileLevel::H264High4_1 => ffi::kVTProfileLevel_H264_High_4_1,
        ProfileLevel::H264High4_2 => ffi::kVTProfileLevel_H264_High_4_2,
        ProfileLevel::H264High5_0 => ffi::kVTProfileLevel_H264_High_5_0,
        ProfileLevel::H264High5_1 => ffi::kVTProfileLevel_H264_High_5_1,
        ProfileLevel::H264High5_2 => ffi::kVTProfileLevel_H264_High_5_2,
        ProfileLevel::H264HighAutoLevel => ffi::kVTProfileLevel_H264_High_AutoLevel,
        ProfileLevel::H264Main3_0 => ffi::kVTProfileLevel_H264_Main_3_0,
        ProfileLevel::H264Main3_1 => ffi::kVTProfileLevel_H264_Main_3_1,
        ProfileLevel::H264Main3_2 => ffi::kVTProfileLevel_H264_Main_3_2,
        ProfileLevel::H264Main4_0 => ffi::kVTProfileLevel_H264_Main_4_0,
        ProfileLevel::H264Main4_1 => ffi::kVTProfileLevel_H264_Main_4_1,
        ProfileLevel::H264Main4_2 => ffi::kVTProfileLevel_H264_Main_4_2,
        ProfileLevel::H264Main5_0 => ffi::kVTProfileLevel_H264_Main_5_0,
        ProfileLevel::H264Main5_1 => ffi::kVTProfileLevel_H264_Main_5_1,
        ProfileLevel::H264Main5_2 => ffi::kVTProfileLevel_H264_Main_5_2,
        ProfileLevel::H264MainAutoLevel => ffi::kVTProfileLevel_H264_Main_AutoLevel,
        ProfileLevel::HEVCMainAutoLevel => ffi::kVTProfileLevel_HEVC_Main_AutoLevel,
        ProfileLevel::HEVCMain10AutoLevel => ffi::kVTProfileLevel_HEVC_Main10_AutoLevel,
        ProfileLevel::HEVCMain42210AutoLevel => ffi::kVTProfileLevel_HEVC_Main42210_AutoLevel,
        ProfileLevel::HEVCMonochromeAutoLevel => ffi::kVTProfileLevel_HEVC_Monochrome_AutoLevel,
        ProfileLevel::HEVCMonochrome10AutoLevel => ffi::kVTProfileLevel_HEVC_Monochrome10_AutoLevel,
        ProfileLevel::MP4VAdvancedSimpleL0 => ffi::kVTProfileLevel_MP4V_AdvancedSimple_L0,
        ProfileLevel::MP4VAdvancedSimpleL1 => ffi::kVTProfileLevel_MP4V_AdvancedSimple_L1,
        ProfileLevel::MP4VAdvancedSimpleL2 => ffi::kVTProfileLevel_MP4V_AdvancedSimple_L2,
        ProfileLevel::MP4VAdvancedSimpleL3 => ffi::kVTProfileLevel_MP4V_AdvancedSimple_L3,
        ProfileLevel::MP4VAdvancedSimpleL4 => ffi::kVTProfileLevel_MP4V_AdvancedSimple_L4,
        ProfileLevel::MP4VMainL2 => ffi::kVTProfileLevel_MP4V_Main_L2,
        ProfileLevel::MP4VMainL3 => ffi::kVTProfileLevel_MP4V_Main_L3,
        ProfileLevel::MP4VMainL4 => ffi::kVTProfileLevel_MP4V_Main_L4,
        ProfileLevel::MP4VSimpleL0 => ffi::kVTProfileLevel_MP4V_Simple_L0,
        ProfileLevel::MP4VSimpleL1 => ffi::kVTProfileLevel_MP4V_Simple_L1,
        ProfileLevel::MP4VSimpleL2 => ffi::kVTProfileLevel_MP4V_Simple_L2,
        ProfileLevel::MP4VSimpleL3 => ffi::kVTProfileLevel_MP4V_Simple_L3,
    }
}

/// Whether `c` is an ASCII letter or digit.
pub open spec fn is_ascii_alphanumeric(c: char) -> bool {
    ('0' <= c && c <= '9') || ('a' <= c && c <= 'z') || ('A' <= c && c <= 'Z')
}

/// ASCII lower-casing of one character.
pub open spec fn ascii_lowercase(c: char) -> char {
    if 'A' <= c && c <= 'Z' {
        ((c as int) + 32) as char
    } else {
        c
    }
}

/// The text a profile name is looked up by: its ASCII letters and digits,
/// lower-cased, with everything else dropped.
pub open spec fn normalize_name(s: Seq<char>) -> Seq<char>
    decreases s.len(),
{
    if s.len() == 0 {
        Seq::empty()
    } else {
        let rest = normalize_name(s.drop_last());
        let c = s.last();
        if is_ascii_alphanumeric(c) {
            rest.push(ascii_lowercase(c))
        } else {
            rest
        }
    }
}

/// The first profile level at index `i` or later whose normalized name is `key`.
pub open spec fn find_profile_from(i: int, key: Seq<char>) -> Option<ProfileLevel>
    decreases 55 - i,
{
    if i < 0 || i >= 55 {
        None
    } else if normalize_name(spec_profile_name(spec_profile_at(i))@) == key {
        Some(spec_profile_at(i))
    } else {
        find_profile_from(i + 1, key)
    }
}

/// What `ProfileLevel::from_name` resolves `name` to.
pub open spec fn spec_profile_from_name(name: Seq<char>) -> Option<ProfileLevel> {
    find_profile_from(0, normalize_name(name))
}

fn normalize_text(s: &str) -> (r: String)
    ensures
        r@ == normalize_name(s@),
{
    let len = s.unicode_len();
    let mut out = String::new();
    let mut i: usize = 0;
    assert(s@.subrange(0, 0) =~= Seq::<char>::empty());
    while i < len
        invariant
            i <= len,
            len == s@.len(),
            out@ == normalize_name(s@.subrange(0, i as int)),
        decreases len - i,
    {
        let c = s.get_char(i);
        let ghost prev = s@.subrange(0, i as int);
        let ghost next = s@.subrange(0, i + 1);
        assert(next.drop_last() =~= prev);
        assert(next.last() == c);
        if ('0' <= c && c <= '9') || ('a' <= c && c <= 'z') {
            push_char(&mut out, c);
        } else if 'A' <= c && c <= 'Z' {
            let b: u8 = c as u8;
            let lower: u8 = b + 32;
            assert(lower as int == (c as int) + 32);
            push_char(&mut out, lower as char);
        }
        i = i + 1;
    }
    assert(s@.subrange(0, len as int) =~= s@);
    out
}

impl ProfileLevel {
    /// Every profile level this build knows about, in declaration order.
    pub const ALL: [ProfileLevel; 55] = [
        ProfileLevel::H263Profile0Level10,
        ProfileLevel::H263Profile0Level45,
        ProfileLevel::H263Profile3Level45,
        ProfileLevel::H264Baseline1_3,
        ProfileLevel::H264Baseline3_0,
        ProfileLevel::H264Baseline3_1,
        ProfileLevel::H264Baseline3_2,
        ProfileLevel::H264Baseline4_0,
        ProfileLevel::H264Baseline4_1,
        ProfileLevel::H264Baseline4_2,
        ProfileLevel::H264Baseline5_0,
        ProfileLevel::H264Baseline5_1,
        ProfileLevel::H264Baseline5_2,
        ProfileLevel::H264BaselineAutoLevel,
        ProfileLevel::H264ConstrainedBaselineAutoLevel,
        ProfileLevel::H264ConstrainedHighAutoLevel,
        ProfileLevel::H264Extended5_0,
        ProfileLevel::H264ExtendedAutoLevel,
        ProfileLevel::H264High3_0,
        ProfileLevel::H264High3_1,
        ProfileLevel::H264High3_2,
        ProfileLevel::H264High4_0,
        ProfileLevel::H264High4_1,
        ProfileLevel::H264High4_2,
        ProfileLevel::H264High5_0,
        ProfileLevel::H264High5_1,
        ProfileLevel::H264High5_2,
        ProfileLevel::H264HighAutoLevel,
        ProfileLevel::H264Main3_0,
        ProfileLevel::H264Main3_1,
        ProfileLevel::H264Main3_2,
        ProfileLevel::H264Main4_0,
        ProfileLevel::H264Main4_1,
        ProfileLevel::H264Main4_2,
        ProfileLevel::H264Main5_0,
        ProfileLevel::H264Main5_1,
        ProfileLevel::H264Main5_2,
        ProfileLevel::H264MainAutoLevel,
        ProfileLevel::HEVCMainAutoLevel,
        ProfileLevel::HEVCMain10AutoLevel,
        ProfileLevel::HEVCMain42210AutoLevel,
        ProfileLevel::HEVCMonochromeAutoLevel,
        ProfileLevel::HEVCMonochrome10AutoLevel,
        ProfileLevel::MP4VAdvancedSimpleL0,
        ProfileLevel::MP4VAdvancedSimpleL1,
        ProfileLevel::MP4VAdvancedSimpleL2,
        ProfileLevel::MP4VAdvancedSimpleL3,
        ProfileLevel::MP4VAdvancedSimpleL4,
        ProfileLevel::MP4VMainL2,
        ProfileLevel::MP4VMainL3,
        ProfileLevel::MP4VMainL4,
        ProfileLevel::MP4VSimpleL0,
        ProfileLevel::MP4VSimpleL1,
        ProfileLevel::MP4VSimpleL2,
        ProfileLevel::MP4VSimpleL3,
    ];

    /// The profile level at `index` in declaration order.
    pub fn at(index: usize) -> (r: Option<ProfileLevel>)
        ensures
            index < 55 ==> r == Some(spec_profile_at(index as int)),
            index >= 55 ==> r is None,
    {
        match index {
            0 => Some(ProfileLevel::H263Profile0Level10),
            1 => Some(ProfileLevel::H263Profile0Level45),
            2 => Some(ProfileLevel::H263Profile3Level45),
            3 => Some(ProfileLevel::H264Baseline1_3),
            4 => Some(ProfileLevel::H264Baseline3_0),
            5 => Some(ProfileLevel::H264Baseline3_1),
            6 => Some(ProfileLevel::H264Baseline3_2),
            7 => Some(ProfileLevel::H264Baseline4_0),
            8 => Some(ProfileLevel::H264Baseline4_1),
            9 => Some(ProfileLevel::H264Baseline4_2),
            10 => Some(ProfileLevel::H264Baseline5_0),
            11 => Some(ProfileLevel::H264Baseline5_1),
            12 => Some(ProfileLevel::H264Baseline5_2),
            13 => Some(ProfileLevel::H264BaselineAutoLevel),
            14 => Some(ProfileLevel::H264ConstrainedBaselineAutoLevel),
            15 => Some(ProfileLevel::H264ConstrainedHighAutoLevel),
            16 => Some(ProfileLevel::H264Extended5_0),
            17 => Some(ProfileLevel::H264ExtendedAutoLevel),
            18 => Some(ProfileLevel::H264High3_0),
            19 => Some(ProfileLevel::H264High3_1),
            20 => Some(ProfileLevel::H264High3_2),
            21 => Some(ProfileLevel::H264High4_0),
            22 => Some(ProfileLevel::H264High4_1),
            23 => Some(ProfileLevel::H264High4_2),
            24 => Some(ProfileLevel::H264High5_0),
            25 => Some(ProfileLevel::H264High5_1),
            26 => Some(ProfileLevel::H264High5_2),
            27 => Some(ProfileLevel::H264HighAutoLevel),
            28 => Some(ProfileLevel::H264Main3_0),
            29 => Some(ProfileLevel::H264Main3_1),
            30 => Some(ProfileLevel::H264Main3_2),
            31 => Some(ProfileLevel::H264Main4_0),
            32 => Some(ProfileLevel::H264Main4_1),
            33 => Some(ProfileLevel::H264Main4_2),
            34 => Some(ProfileLevel::H264Main5_0),
            35 => Some(ProfileLevel::H264Main5_1),
            36 => Some(ProfileLevel::H264Main5_2),
            37 => Some(ProfileLevel::H264MainAutoLevel),
            38 => Some(ProfileLevel::HEVCMainAutoLevel),
            39 => Some(ProfileLevel::HEVCMain10AutoLevel),
            40 => Some(ProfileLevel::HEVCMain42210AutoLevel),
            41 => Some(ProfileLevel::HEVCMonochromeAutoLevel),
            42 => Some(ProfileLevel::HEVCMonochrome10AutoLevel),
            43 => Some(ProfileLevel::MP4VAdvancedSimpleL0),
            44 => Some(ProfileLevel::MP4VAdvancedSimpleL1),
            45 => Some(ProfileLevel::MP4VAdvancedSimpleL2),
            46 => Some(ProfileLevel::MP4VAdvancedSimpleL3),
            47 => Some(ProfileLevel::MP4VAdvancedSimpleL4),
            48 => Some(ProfileLevel::MP4VMainL2),
            49 => Some(ProfileLevel::MP4VMainL3),
            50 => Some(ProfileLevel::MP4VMainL4),
            51 => Some(ProfileLevel::MP4VSimpleL0),
            52 => Some(ProfileLevel::MP4VSimpleL1),
            53 => Some(ProfileLevel::MP4VSimpleL2),
            54 => Some(ProfileLevel::MP4VSimpleL3),
            _ => None,
        }
    }

    /// The variant's Rust name, e.g. `"H264HighAutoLevel"`.
    pub fn name(self) -> (r: &'static str)
        ensures
            r == spec_profile_name(self),
    {
        match self {
            ProfileLevel::H263Profile0Level10 => "H263Profile0Level10",
            ProfileLevel::H263Profile0Level45 => "H263Profile0Level45",
            ProfileLevel::H263Profile3Level45 => "H263Profile3Level45",
            ProfileLevel::H264Baseline1_3 => "H264Baseline1_3",
            ProfileLevel::H264Baseline3_0 => "H264Baseline3_0",
            ProfileLevel::H264Baseline3_1 => "H264Baseline3_1",
            ProfileLevel::H264Baseline3_2 => "H264Baseline3_2",
            ProfileLevel::H264Baseline4_0 => "H264Baseline4_0",
            ProfileLevel::H264Baseline4_1 => "H264Baseline4_1",
            ProfileLevel::H264Baseline4_2 => "H264Baseline4_2",
            ProfileLevel::H264Baseline5_0 => "H264Baseline5_0",
            ProfileLevel::H264Baseline5_1 => "H264Baseline5_1",
            ProfileLevel::H264Baseline5_2 => "H264Baseline5_2",
            ProfileLevel::H264BaselineAutoLevel => "H264BaselineAutoLevel",
            ProfileLevel::H264ConstrainedBaselineAutoLevel => "H264ConstrainedBaselineAutoLevel",
            ProfileLevel::H264ConstrainedHighAutoLevel => "H264ConstrainedHighAutoLevel",
            ProfileLevel::H264Extended5_0 => "H264Extended5_0",
            ProfileLevel::H264ExtendedAutoLevel => "H264ExtendedAutoLevel",
            ProfileLevel::H264High3_0 => "H264High3_0",
            ProfileLevel::H264High3_1 => "H264High3_1",
            ProfileLevel::H264High3_2 => "H264High3_2",
            ProfileLevel::H264High4_0 => "H264High4_0",
            ProfileLevel::H264High4_1 => "H264High4_1",
            ProfileLevel::H264High4_2 => "H264High4_2",
            ProfileLevel::H264High5_0 => "H264High5_0",
            ProfileLevel::H264High5_1 => "H264High5_1",
            ProfileLevel::H264High5_2 => "H264High5_2",
            ProfileLevel::H264HighAutoLevel => "H264HighAutoLevel",
            ProfileLevel::H264Main3_0 => "H264Main3_0",
            ProfileLevel::H264Main3_1 => "H264Main3_1",
            ProfileLevel::H264Main3_2 => "H264Main3_2",
            ProfileLevel::H264Main4_0 => "H264Main4_0",
            ProfileLevel::H264Main4_1 => "H264Main4_1",
            ProfileLevel::H264Main4_2 => "H264Main4_2",
            ProfileLevel::H264Main5_0 => "H264Main5_0",
            ProfileLevel::H264Main5_1 => "H264Main5_1",
            ProfileLevel::H264Main5_2 => "H264Main5_2",
            ProfileLevel::H264MainAutoLevel => "H264MainAutoLevel",
            ProfileLevel::HEVCMainAutoLevel => "HEVCMainAutoLevel",
            ProfileLevel::HEVCMain10AutoLevel => "HEVCMain10AutoLevel",
            ProfileLevel::HEVCMain42210AutoLevel => "HEVCMain42210AutoLevel",
            ProfileLevel::HEVCMonochromeAutoLevel => "HEVCMonochromeAutoLevel",
            ProfileLevel::HEVCMonochrome10AutoLevel => "HEVCMonochrome10AutoLevel",
            ProfileLevel::MP4VAdvancedSimpleL0 => "MP4VAdvancedSimpleL0",
            ProfileLevel::MP4VAdvancedSimpleL1 => "MP4VAdvancedSimpleL1",
            ProfileLevel::MP4VAdvancedSimpleL2 => "MP4VAdvancedSimpleL2",
            ProfileLevel::MP4VAdvancedSimpleL3 => "MP4VAdvancedSimpleL3",
            ProfileLevel::MP4VAdvancedSimpleL4 => "MP4VAdvancedSimpleL4",
            ProfileLevel::MP4VMainL2 => "MP4VMainL2",
            ProfileLevel::MP4VMainL3 => "MP4VMainL3",
            ProfileLevel::MP4VMainL4 => "MP4VMainL4",
            ProfileLevel::MP4VSimpleL0 => "MP4VSimpleL0",
            ProfileLevel::MP4VSimpleL1 => "MP4VSimpleL1",
            ProfileLevel::MP4VSimpleL2 => "MP4VSimpleL2",
            ProfileLevel::MP4VSimpleL3 => "MP4VSimpleL3",
        }
    }

    /// The symbol name of the `kVTProfileLevel_*` constant this profile maps to.
    pub fn as_cf_string(self) -> (r: &'static str)
        ensures
            r == spec_profile_symbol(self),
    {
        match self {
            ProfileLevel::H263Profile0Level10 => ffi::kVTProfileLevel_H263_Profile0_Level10,
            ProfileLevel::H263Profile0Level45 => ffi::kVTProfileLevel_H263_Profile0_Level45,
            ProfileLevel::H263Profile3Level45 => ffi::kVTProfileLevel_H263_Profile3_Level45,
            ProfileLevel::H264Baseline1_3 => ffi::kVTProfileLevel_H264_Baseline_1_3,
            ProfileLevel::H264Baseline3_0 => ffi::kVTProfileLevel_H264_Baseline_3_0,
            ProfileLevel::H264Baseline3_1 => ffi::kVTProfileLevel_H264_Baseline_3_1,
            ProfileLevel::H264Baseline3_2 => ffi::kVTProfileLevel_H264_Baseline_3_2,
            ProfileLevel::H264Baseline4_0 => ffi::kVTProfileLevel_H264_Baseline_4_0,
            ProfileLevel::H264Baseline4_1 => ffi::kVTProfileLevel_H264_Baseline_4_1,
            ProfileLevel::H264Baseline4_2 => ffi::kVTProfileLevel_H264_Baseline_4_2,
            ProfileLevel::H264Baseline5_0 => ffi::kVTProfileLevel_H264_Baseline_5_0,
            ProfileLevel::H264Baseline5_1 => ffi::kVTProfileLevel_H264_Baseline_5_1,
            ProfileLevel::H264Baseline5_2 => ffi::kVTProfileLevel_H264_Baseline_5_2,
            ProfileLevel::H264BaselineAutoLevel => ffi::kVTProfileLevel_H264_Baseline_AutoLevel,
            ProfileLevel::H264ConstrainedBaselineAutoLevel => ffi::kVTProfileLevel_H264_ConstrainedBaseline_AutoLevel,
            ProfileLevel::H264ConstrainedHighAutoLevel => ffi::kVTProfileLevel_H264_ConstrainedHigh_AutoLevel,
            ProfileLevel::H264Extended5_0 => ffi::kVTProfileLevel_H264_Extended_5_0,
            ProfileLevel::H264ExtendedAutoLevel => ffi::kVTProfileLevel_H264_Extended_AutoLevel,
            ProfileLevel::H264High3_0 => ffi::kVTProfileLevel_H264_High_3_0,
            ProfileLevel::H264High3_1 => ffi::kVTProfileLevel_H264_High_3_1,
            ProfileLevel::H264High3_2 => ffi::kVTProfileLevel_H264_High_3_2,
            ProfileLevel::H264High4_0 => ffi::kVTProfileLevel_H264_High_4_0,
            ProfileLevel::H264High4_1 => ffi::kVTProfileLevel_H264_High_4_1,
            ProfileLevel::H264High4_2 => ffi::kVTProfileLevel_H264_High_4_2,
            ProfileLevel::H264High5_0 => ffi::kVTProfileLevel_H264_High_5_0,
            ProfileLevel::H264High5_1 => ffi::kVTProfileLevel_H264_High_5_1,
            ProfileLevel::H264High5_2 => ffi::kVTProfileLevel_H264_High_5_2,
            ProfileLevel::H264HighAutoLevel => ffi::kVTProfileLevel_H264_High_AutoLevel,
            ProfileLevel::H264Main3_0 => ffi::kVTProfileLevel_H264_Main_3_0,
            ProfileLevel::H264Main3_1 => ffi::kVTProfileLevel_H264_Main_3_1,
            ProfileLevel::H264Main3_2 => ffi::kVTProfileLevel_H264_Main_3_2,
            ProfileLevel::H264Main4_0 => ffi::kVTProfileLevel_H264_Main_4_0,
            ProfileLevel::H264Main4_1 => ffi::kVTProfileLevel_H264_Main_4_1,
            ProfileLevel::H264Main4_2 => ffi::kVTProfileLevel_H264_Main_4_2,
            ProfileLevel::H264Main5_0 => ffi::kVTProfileLevel_H264_Main_5_0,
            ProfileLevel::H264Main5_1 => ffi::kVTProfileLevel_H264_Main_5_1,
            ProfileLevel::H264Main5_2 => ffi::kVTProfileLevel_H264_Main_5_2,
            ProfileLevel::H264MainAutoLevel => ffi::kVTProfileLevel_H264_Main_AutoLevel,
            ProfileLevel::HEVCMainAutoLevel => ffi::kVTProfileLevel_HEVC_Main_AutoLevel,
            ProfileLevel::HEVCMain10AutoLevel => ffi::kVTProfileLevel_HEVC_Main10_AutoLevel,
            ProfileLevel::HEVCMain42210AutoLevel => ffi::kVTProfileLevel_HEVC_Main42210_AutoLevel,
            ProfileLevel::HEVCMonochromeAutoLevel => ffi::kVTProfileLevel_HEVC_Monochrome_AutoLevel,
            ProfileLevel::HEVCMonochrome10AutoLevel => ffi::kVTProfileLevel_HEVC_Monochrome10_AutoLevel,
            ProfileLevel::MP4VAdvancedSimpleL0 => ffi::kVTProfileLevel_MP4V_AdvancedSimple_L0,
            ProfileLevel::MP4VAdvancedSimpleL1 => ffi::kVTProfileLevel_MP4V_AdvancedSimple_L1,
            ProfileLevel::MP4VAdvancedSimpleL2 => ffi::kVTProfileLevel_MP4V_AdvancedSimple_L2,
            ProfileLevel::MP4VAdvancedSimpleL3 => ffi::kVTProfileLevel_MP4V_AdvancedSimple_L3,
            ProfileLevel::MP4VAdvancedSimpleL4 => ffi::kVTProfileLevel_MP4V_AdvancedSimple_L4,
            ProfileLevel::MP4VMainL2 => ffi::kVTProfileLevel_MP4V_Main_L2,
            ProfileLevel::MP4VMainL3 => ffi::kVTProfileLevel_MP4V_Main_L3,
            ProfileLevel::MP4VMainL4 => ffi::kVTProfileLevel_MP4V_Main_L4,
            ProfileLevel::MP4VSimpleL0 => ffi::kVTProfileLevel_MP4V_Simple_L0,
            ProfileLevel::MP4VSimpleL1 => ffi::kVTProfileLevel_MP4V_Simple_L1,
            ProfileLevel::MP4VSimpleL2 => ffi::kVTProfileLevel_MP4V_Simple_L2,
            ProfileLevel::MP4VSimpleL3 => ffi::kVTProfileLevel_MP4V_Simple_L3,
        }
    }

    /// Look a profile up by [`Self::name`], ignoring case and any
    /// `_`/`-`/`.` separators, so `"h264 high auto level"` and
    /// `"H264High_AutoLevel"` both resolve.
    pub fn from_name(name: &str) -> (r: Option<Self>)
        ensures
            r == spec_profile_from_name(name@),
    {
        let wanted = normalize_text(name);
        let mut i: usize = 0;
        while i < 55
            invariant
                i <= 55,
                wanted@ == normalize_name(name@),
                find_profile_from(0, wanted@) == find_profile_from(i as int, wanted@),
            decreases 55 - i,
        {
            let candidate = match Self::at(i) {
                Some(p) => p,
                None => { return None; },
            };
            let key = normalize_text(candidate.name());
            if key == wanted {
                return Some(candidate);
            }
            i = i + 1;
        }
        None
    }
}


/// Per-frame options passed to `VTCompressionSessionEncodeFrame`.
#[derive(Debug, Clone, Copy, PartialEq, Eq, Hash, Structural)]
pub struct FrameProperties {
    force_key_frame: bool,
}

impl FrameProperties {
    /// Whether the frame is to be forced to a keyframe.
    pub closed spec fn forces_key_frame(self) -> bool {
        self.force_key_frame
    }

    /// Properties with no per-frame option set.
    pub closed spec fn spec_new() -> Self {
        FrameProperties { force_key_frame: false }
    }

    /// These properties with the key-frame request set to `force_key_frame`.
    pub closed spec fn spec_with_force_key_frame(self, force_key_frame: bool) -> Self {
        FrameProperties { force_key_frame }
    }
}

/// Frame properties are determined by their key-frame request: two values
/// that agree on it are equal.
pub proof fn lemma_frame_properties_determined_by_flag(a: FrameProperties, b: FrameProperties)
    requires
        a.forces_key_frame() == b.forces_key_frame(),
    ensures
        a == b,
{
}

/// The key-frame request is the last one set: setting it twice keeps the
/// second setting, turning it off on fresh properties changes nothing, and
/// turning it on does.
pub proof fn lemma_last_key_frame_request_wins(p: FrameProperties, first: bool, second: bool)
    ensures
        p.spec_with_force_key_frame(first).spec_with_force_key_frame(second)
            == p.spec_with_force_key_frame(second),
        p.spec_with_force_key_frame(first).forces_key_frame() == first,
        !FrameProperties::spec_new().forces_key_frame(),
        FrameProperties::spec_new().spec_with_force_key_frame(false) == FrameProperties::spec_new(),
        FrameProperties::spec_new().spec_with_force_key_frame(true) != FrameProperties::spec_new(),
{
}

/// The frame-options dictionary for a frame: `None` when no option is set.
pub open spec fn spec_frame_options(p: FrameProperties) -> Option<Seq<DictionaryEntry>> {
    if p.forces_key_frame() {
        Some(seq![(ffi::kVTEncodeFrameOptionKey_ForceKeyFrame, CFValue::Boolean(true))])
    } else {
        None
    }
}

impl FrameProperties {
    /// No per-frame options.
    pub fn new() -> (r: Self)
        ensures
            r == FrameProperties::spec_new(),
            !r.forces_key_frame(),
    {
        Self { force_key_frame: false }
    }

    /// Ask the encoder to make this frame a keyframe.
    pub fn with_force_key_frame(self, force_key_frame: bool) -> (r: Self)
        ensures
            r == self.spec_with_force_key_frame(force_key_frame),
            r.forces_key_frame() == force_key_frame,
    {
        Self { force_key_frame }
    }

    /// The frame-options dictionary, built only when an option is set.
    pub fn to_dictionary(self) -> (r: Option<Vec<DictionaryEntry>>)
        ensures
            r is None <==> spec_frame_options(self) is None,
            r matches Some(v) ==> spec_frame_options(self) == Some(v@),
    {
        if self.force_key_frame {
            let mut pairs: Vec<DictionaryEntry> = Vec::new();
            pairs.push((ffi::kVTEncodeFrameOptionKey_ForceKeyFrame, CFValue::Boolean(true)));
            Some(pairs)
        } else {
            None
        }
    }
}

impl Default for FrameProperties {
    fn default() -> (r: Self)
        ensures
            r == FrameProperties::spec_new(),
            !r.forces_key_frame(),
    {
        Self::new()
    }
}

/// Whether the encoder must, may, or must not be hardware accelerated.
#[derive(Debug, Clone, Copy, PartialEq, Eq, Hash, Structural)]
#[non_exhaustive]
pub enum HardwareAcceleration {
    Preferred,
    Required,
    Disabled,
}

/// Pin the encoder to the GPU with this `MTLDevice` registry id.
#[derive(Debug, Clone, Copy, PartialEq, Eq, Hash, Structural)]
pub enum EncoderGpu {
    Preferred(u64),
    Required(u64),
}

/// Builder for a compression session.
///
/// Floating-point settings are held as their IEEE-754 bit patterns
/// (`f64::to_bits` / `f32::to_bits`); the native layer turns them back into
/// numbers when it hands them to `VideoToolbox`.
#[derive(Debug, Clone)]
pub struct CompressionSessionBuilder {
    width: i32,
    height: i32,
    codec: Codec,
    real_time: Option<bool>,
    allow_frame_reordering: Option<bool>,
    average_bit_rate: Option<i32>,
    expected_frame_rate: Option<u64>,
    max_keyframe_interval: Option<i32>,
    quality: Option<u32>,
    profile_level: Option<ProfileLevel>,
    hardware_acceleration: Option<HardwareAcceleration>,
    encoder_id: Option<String>,
    low_latency_rate_control: Option<bool>,
    encoder_gpu: Option<EncoderGpu>,
}

/// The settings a [`CompressionSessionBuilder`] has recorded.
pub struct BuilderSettings {
    pub width: i32,
    pub height: i32,
    pub codec: Codec,
    pub real_time: Option<bool>,
    pub allow_frame_reordering: Option<bool>,
    pub average_bit_rate: Option<i32>,
    pub expected_frame_rate: Option<u64>,
    pub max_keyframe_interval: Option<i32>,
    pub quality: Option<u32>,
    pub profile_level: Option<ProfileLevel>,
    pub hardware_acceleration: Option<HardwareAcceleration>,
    pub encoder_id: Option<String>,
    pub low_latency_rate_control: Option<bool>,
    pub encoder_gpu: Option<EncoderGpu>,
}

impl View for CompressionSessionBuilder {
    type V = BuilderSettings;

    closed spec fn view(&self) -> BuilderSettings {
        BuilderSettings {
            width: self.width,
            height: self.height,
            codec: self.codec,
            real_time: self.real_time,
            allow_frame_reordering: self.allow_frame_reordering,
            average_bit_rate: self.average_bit_rate,
            expected_frame_rate: self.expected_frame_rate,
            max_keyframe_interval: self.max_keyframe_interval,
            quality: self.quality,
            profile_level: self.profile_level,
            hardware_acceleration: self.hardware_acceleration,
            encoder_id: self.encoder_id,
            low_latency_rate_control: self.low_latency_rate_control,
            encoder_gpu: self.encoder_gpu,
        }
    }
}

/// An optional dictionary entry: present only when `o` is.
pub open spec fn opt_entry<A>(o: Option<A>, f: spec_fn(A) -> DictionaryEntry) -> Seq<DictionaryEntry> {
    match o {
        Some(a) => seq![f(a)],
        None => Seq::empty(),
    }
}

/// The hardware-acceleration entry of the encoder specification.
pub open spec fn spec_acceleration_entries(a: Option<HardwareAcceleration>) -> Seq<DictionaryEntry> {
    match a {
        Some(HardwareAcceleration::Preferred) => seq![
            (
                ffi::kVTVideoEncoderSpecification_EnableHardwareAcceleratedVideoEncoder,
                CFValue::Boolean(true),
            ),
        ],
        Some(HardwareAcceleration::Required) => seq![
            (
                ffi::kVTVideoEncoderSpecification_RequireHardwareAcceleratedVideoEncoder,
                CFValue::Boolean(true),
            ),
        ],
        Some(HardwareAcceleration::Disabled) => seq![
            (
                ffi::kVTVideoEncoderSpecification_EnableHardwareAcceleratedVideoEncoder,
                CFValue::Boolean(false),
            ),
        ],
        None => Seq::empty(),
    }
}

/// The GPU-selection entry of the encoder specification.
pub open spec fn spec_gpu_entries(g: Option<EncoderGpu>) -> Seq<DictionaryEntry> {
    match g {
        Some(EncoderGpu::Preferred(id)) => seq![
            (ffi::kVTVideoEncoderSpecification_PreferredEncoderGPURegistryID, CFValue::UInt64(id)),
        ],
        Some(EncoderGpu::Required(id)) => seq![
            (ffi::kVTVideoEncoderSpecification_RequiredEncoderGPURegistryID, CFValue::UInt64(id)),
        ],
        None => Seq::empty(),
    }
}

/// The entries of the encoder specification, in the order they are added.
pub open spec fn spec_encoder_entries(b: BuilderSettings) -> Seq<DictionaryEntry> {
    spec_acceleration_entries(b.hardware_acceleration) + opt_entry(
        b.encoder_id,
        |id: String| (ffi::kVTVideoEncoderSpecification_EncoderID, CFValue::String(id)),
    ) + opt_entry(
        b.low_latency_rate_control,
        |on: bool| (ffi::kVTVideoEncoderSpecification_EnableLowLatencyRateControl, CFValue::Boolean(on)),
    ) + spec_gpu_entries(b.encoder_gpu)
}

/// The encoder-specification dictionary: `None` when nothing is requested.
pub open spec fn spec_encoder_specification(b: BuilderSettings) -> Option<Seq<DictionaryEntry>> {
    if spec_encoder_entries(b).len() == 0 {
        None
    } else {
        Some(spec_encoder_entries(b))
    }
}

/// One `VTSessionSetProperty` call made while a session is configured.
#[derive(Debug, Clone, PartialEq)]
pub struct PropertySetting {
    /// Symbol name of the `kVTCompressionPropertyKey_*` constant.
    pub key: &'static str,
    /// Name reported in [`VTError::SetPropertyFailed`] when the call fails.
    pub name: &'static str,
    /// The value to set.
    pub value: CFValue,
}

/// The `RealTime` setting, when one is recorded.
pub open spec fn spec_real_time_setting(b: BuilderSettings) -> Seq<PropertySetting> {
    match b.real_time {
        Some(v) => seq![PropertySetting { key: ffi::kVTCompressionPropertyKey_RealTime, name: "RealTime", value: CFValue::Boolean(v) }],
        None => Seq::empty(),
    }
}

/// The `AllowFrameReordering` setting, when one is recorded.
pub open spec fn spec_allow_frame_reordering_setting(b: BuilderSettings) -> Seq<PropertySetting> {
    match b.allow_frame_reordering {
        Some(v) => seq![PropertySetting { key: ffi::kVTCompressionPropertyKey_AllowFrameReordering, name: "AllowFrameReordering", value: CFValue::Boolean(v) }],
        None => Seq::empty(),
    }
}

/// The `AverageBitRate` setting, when one is recorded.
pub open spec fn spec_average_bit_rate_setting(b: BuilderSettings) -> Seq<PropertySetting> {
    match b.average_bit_rate {
        Some(v) => seq![PropertySetting { key: ffi::kVTCompressionPropertyKey_AverageBitRate, name: "AverageBitRate", value: CFValue::SInt32(v) }],
        None => Seq::empty(),
    }
}

/// The `ExpectedFrameRate` setting, when one is recorded.
pub open spec fn spec_expected_frame_rate_setting(b: BuilderSettings) -> Seq<PropertySetting> {
    match b.expected_frame_rate {
        Some(v) => seq![PropertySetting { key: ffi::kVTCompressionPropertyKey_ExpectedFrameRate, name: "ExpectedFrameRate", value: CFValue::Float64Bits(v) }],
        None => Seq::empty(),
    }
}

/// The `MaxKeyFrameInterval` setting, when one is recorded.
pub open spec fn spec_max_keyframe_interval_setting(b: BuilderSettings) -> Seq<PropertySetting> {
    match b.max_keyframe_interval {
        Some(v) => seq![PropertySetting { key: ffi::kVTCompressionPropertyKey_MaxKeyFrameInterval, name: "MaxKeyFrameInterval", value: CFValue::SInt32(v) }],
        None => Seq::empty(),
    }
}

/// The `Quality` setting, when one is recorded.
pub open spec fn spec_quality_setting(b: BuilderSettings) -> Seq<PropertySetting> {
    match b.quality {
        Some(v) => seq![PropertySetting { key: ffi::kVTCompressionPropertyKey_Quality, name: "Quality", value: CFValue::UnitFloat32Bits(v) }],
        None => Seq::empty(),
    }
}

/// The `ProfileLevel` setting, when one is recorded.
pub open spec fn spec_profile_level_setting(b: BuilderSettings) -> Seq<PropertySetting> {
    match b.profile_level {
        Some(v) => seq![PropertySetting { key: ffi::kVTCompressionPropertyKey_ProfileLevel, name: "ProfileLevel", value: CFValue::Constant(spec_profile_symbol(v)) }],
        None => Seq::empty(),
    }
}

/// The properties a session is configured with, in the order they are set.
pub open spec fn spec_session_properties(b: BuilderSettings) -> Seq<PropertySetting> {
    spec_real_time_setting(b)
        + spec_allow_frame_reordering_setting(b)
        + spec_average_bit_rate_setting(b)
        + spec_expected_frame_rate_setting(b)
        + spec_max_keyframe_interval_setting(b)
        + spec_quality_setting(b)
        + spec_profile_level_setting(b)
}

/// The message `build` reports for non-positive dimensions.
pub open spec fn spec_dimensions_message(width: i32, height: i32) -> Seq<char> {
    "width/height must be positive (got "@ + decimal(width as int) + "x"@ + decimal(height as int)
        + ")"@
}


/// The settings of a new builder: the frame size and codec, nothing else.
pub open spec fn spec_fresh_builder(width: i32, height: i32, codec: Codec) -> BuilderSettings {
    BuilderSettings {
        width,
        height,
        codec,
        real_time: None,
        allow_frame_reordering: None,
        average_bit_rate: None,
        expected_frame_rate: None,
        max_keyframe_interval: None,
        quality: None,
        profile_level: None,
        hardware_acceleration: None,
        encoder_id: None,
        low_latency_rate_control: None,
        encoder_gpu: None,
    }
}

impl CompressionSessionBuilder {
    /// A builder for a `width` x `height` session encoding `codec`, with no
    /// optional setting recorded.
    pub fn new(width: i32, height: i32, codec: Codec) -> (r: Self)
        ensures
            r@ == spec_fresh_builder(width, height, codec),
    {
        Self {
            width,
            height,
            codec,
            real_time: None,
            allow_frame_reordering: None,
            average_bit_rate: None,
            expected_frame_rate: None,
            max_keyframe_interval: None,
            quality: None,
            profile_level: None,
            hardware_acceleration: None,
            encoder_id: None,
            low_latency_rate_control: None,
            encoder_gpu: None,
        }
    }

    /// Hint to the encoder that frames are arriving in real-time (e.g. live
    /// capture) and it should prioritise low latency over compression efficiency.
    pub fn with_real_time(self, real_time: bool) -> (r: Self)
        ensures
            r@ == (BuilderSettings { real_time: Some(real_time), ..self@ }),
    {
        Self { real_time: Some(real_time), ..self }
    }

    /// Allow B-frame reordering (better compression, higher latency).
    pub fn with_allow_frame_reordering(self, allow: bool) -> (r: Self)
        ensures
            r@ == (BuilderSettings { allow_frame_reordering: Some(allow), ..self@ }),
    {
        Self { allow_frame_reordering: Some(allow), ..self }
    }

    /// Target average bitrate in bits-per-second.
    pub fn with_average_bit_rate(self, bps: i32) -> (r: Self)
        ensures
            r@ == (BuilderSettings { average_bit_rate: Some(bps), ..self@ }),
    {
        Self { average_bit_rate: Some(bps), ..self }
    }

    /// Expected source frame rate, as the bit pattern of an `f64`
    /// (`fps.to_bits()`). Helps the encoder size its rate-control window.
    pub fn with_expected_frame_rate_bits(self, fps_bits: u64) -> (r: Self)
        ensures
            r@ == (BuilderSettings { expected_frame_rate: Some(fps_bits), ..self@ }),
    {
        Self { expected_frame_rate: Some(fps_bits), ..self }
    }

    /// Force a keyframe at most every `n` frames.
    pub fn with_max_keyframe_interval(self, n: i32) -> (r: Self)
        ensures
            r@ == (BuilderSettings { max_keyframe_interval: Some(n), ..self@ }),
    {
        Self { max_keyframe_interval: Some(n), ..self }
    }

    /// Encoding quality hint `0.0..=1.0`, as the bit pattern of an `f32`
    /// (`quality.to_bits()`). Wraps `kVTCompressionPropertyKey_Quality`.
    pub fn with_quality_bits(self, quality_bits: u32) -> (r: Self)
        ensures
            r@ == (BuilderSettings { quality: Some(quality_bits), ..self@ }),
    {
        Self { quality: Some(quality_bits), ..self }
    }

    /// Profile/level for the encoded stream. See [`ProfileLevel`].
    /// Wraps `kVTCompressionPropertyKey_ProfileLevel`.
    pub fn with_profile_level(self, profile: ProfileLevel) -> (r: Self)
        ensures
            r@ == (BuilderSettings { profile_level: Some(profile), ..self@ }),
    {
        Self { profile_level: Some(profile), ..self }
    }

    /// Whether the encoder must, may, or must not be hardware accelerated.
    pub fn with_hardware_acceleration(self, acceleration: HardwareAcceleration) -> (r: Self)
        ensures
            r@ == (BuilderSettings { hardware_acceleration: Some(acceleration), ..self@ }),
    {
        Self { hardware_acceleration: Some(acceleration), ..self }
    }

    /// Select the encoder with this id (see `available_video_encoders`).
    pub fn with_encoder_id(self, encoder_id: &str) -> (r: Self)
        ensures
            r@.encoder_id matches Some(id) && id@ == encoder_id@,
            r@ == (BuilderSettings { encoder_id: r@.encoder_id, ..self@ }),
    {
        Self { encoder_id: Some(encoder_id.to_owned()), ..self }
    }

    /// Enable or disable the low-latency rate controller.
    pub fn with_low_latency_rate_control(self, enabled: bool) -> (r: Self)
        ensures
            r@ == (BuilderSettings { low_latency_rate_control: Some(enabled), ..self@ }),
    {
        Self { low_latency_rate_control: Some(enabled), ..self }
    }

    /// Pin the encoder to a GPU.
    pub fn with_encoder_gpu(self, gpu: EncoderGpu) -> (r: Self)
        ensures
            r@ == (BuilderSettings { encoder_gpu: Some(gpu), ..self@ }),
    {
        Self { encoder_gpu: Some(gpu), ..self }
    }

    /// Frame width in pixels.
    pub fn width(&self) -> (r: i32)
        ensures
            r == self@.width,
    {
        self.width
    }

    /// Frame height in pixels.
    pub fn height(&self) -> (r: i32)
        ensures
            r == self@.height,
    {
        self.height
    }

    /// The codec to encode.
    pub fn codec(&self) -> (r: Codec)
        ensures
            r == self@.codec,
    {
        self.codec
    }

    /// The recorded real-time hint.
    pub fn real_time(&self) -> (r: Option<bool>)
        ensures
            r == self@.real_time,
    {
        self.real_time
    }

    /// The recorded frame-reordering permission.
    pub fn allow_frame_reordering(&self) -> (r: Option<bool>)
        ensures
            r == self@.allow_frame_reordering,
    {
        self.allow_frame_reordering
    }

    /// The recorded average bitrate.
    pub fn average_bit_rate(&self) -> (r: Option<i32>)
        ensures
            r == self@.average_bit_rate,
    {
        self.average_bit_rate
    }

    /// The recorded expected frame rate, as `f64` bits.
    pub fn expected_frame_rate_bits(&self) -> (r: Option<u64>)
        ensures
            r == self@.expected_frame_rate,
    {
        self.expected_frame_rate
    }

    /// The recorded maximum keyframe interval.
    pub fn max_keyframe_interval(&self) -> (r: Option<i32>)
        ensures
            r == self@.max_keyframe_interval,
    {
        self.max_keyframe_interval
    }

    /// The recorded quality hint, as `f32` bits.
    pub fn quality_bits(&self) -> (r: Option<u32>)
        ensures
            r == self@.quality,
    {
        self.quality
    }

    /// The recorded profile level.
    pub fn profile_level(&self) -> (r: Option<ProfileLevel>)
        ensures
            r == self@.profile_level,
    {
        self.profile_level
    }

    /// The recorded hardware-acceleration choice.
    pub fn hardware_acceleration(&self) -> (r: Option<HardwareAcceleration>)
        ensures
            r == self@.hardware_acceleration,
    {
        self.hardware_acceleration
    }

    /// The recorded encoder id.
    pub fn encoder_id(&self) -> (r: Option<&str>)
        ensures
            r is Some <==> self@.encoder_id is Some,
            r matches Some(id) ==> id@ == self@.encoder_id->Some_0@,
    {
        match &self.encoder_id {
            Some(id) => Some(id.as_str()),
            None => None,
        }
    }

    /// The recorded low-latency rate-control choice.
    pub fn low_latency_rate_control(&self) -> (r: Option<bool>)
        ensures
            r == self@.low_latency_rate_control,
    {
        self.low_latency_rate_control
    }

    /// The recorded GPU selection.
    pub fn encoder_gpu(&self) -> (r: Option<EncoderGpu>)
        ensures
            r == self@.encoder_gpu,
    {
        self.encoder_gpu
    }

    /// The encoder-specification dictionary handed to
    /// `VTCompressionSessionCreate`; `None` when nothing is requested.
    pub fn encoder_specification(&self) -> (r: Option<Vec<DictionaryEntry>>)
        ensures
            r is None <==> spec_encoder_specification(self@) is None,
            r matches Some(v) ==> spec_encoder_specification(self@) == Some(v@),
    {
        let mut pairs: Vec<DictionaryEntry> = Vec::new();
        match self.hardware_acceleration {
            Some(HardwareAcceleration::Preferred) => pairs.push(
                (
                    ffi::kVTVideoEncoderSpecification_EnableHardwareAcceleratedVideoEncoder,
                    CFValue::Boolean(true),
                ),
            ),
            Some(HardwareAcceleration::Required) => pairs.push(
                (
                    ffi::kVTVideoEncoderSpecification_RequireHardwareAcceleratedVideoEncoder,
                    CFValue::Boolean(true),
                ),
            ),
            Some(HardwareAcceleration::Disabled) => pairs.push(
                (
                    ffi::kVTVideoEncoderSpecification_EnableHardwareAcceleratedVideoEncoder,
                    CFValue::Boolean(false),
                ),
            ),
            None => {},
        }
        let ghost after_acceleration = pairs@;
        assert(after_acceleration =~= spec_acceleration_entries(self@.hardware_acceleration));
        match &self.encoder_id {
            Some(id) => pairs.push(
                (ffi::kVTVideoEncoderSpecification_EncoderID, CFValue::String(id.clone())),
            ),
            None => {},
        }
        let ghost after_id = pairs@;
        assert(after_id =~= after_acceleration + opt_entry(
            self@.encoder_id,
            |id: String| (ffi::kVTVideoEncoderSpecification_EncoderID, CFValue::String(id)),
        ));
        match self.low_latency_rate_control {
            Some(enabled) => pairs.push(
                (
                    ffi::kVTVideoEncoderSpecification_EnableLowLatencyRateControl,
                    CFValue::Boolean(enabled),
                ),
            ),
            None => {},
        }
        let ghost after_latency = pairs@;
        assert(after_latency =~= after_id + opt_entry(
            self@.low_latency_rate_control,
            |on: bool|
                (
                    ffi::kVTVideoEncoderSpecification_EnableLowLatencyRateControl,
                    CFValue::Boolean(on),
                ),
        ));
        match self.encoder_gpu {
            Some(EncoderGpu::Preferred(id)) => pairs.push(
                (ffi::kVTVideoEncoderSpecification_PreferredEncoderGPURegistryID, CFValue::UInt64(id)),
            ),
            Some(EncoderGpu::Required(id)) => pairs.push(
                (ffi::kVTVideoEncoderSpecification_RequiredEncoderGPURegistryID, CFValue::UInt64(id)),
            ),
            None => {},
        }
        assert(pairs@ =~= after_latency + spec_gpu_entries(self@.encoder_gpu));
        assert(pairs@ =~= spec_encoder_entries(self@));
        if pairs.len() == 0 {
            None
        } else {
            Some(pairs)
        }
    }
}

impl CompressionSessionBuilder {
    fn push_real_time_setting(&self, settings: &mut Vec<PropertySetting>)
        ensures
            final(settings)@ == old(settings)@ + spec_real_time_setting(self@),
    {
        if let Some(v) = self.real_time {
            settings.push(PropertySetting { key: ffi::kVTCompressionPropertyKey_RealTime, name: "RealTime", value: CFValue::Boolean(v) });
        }
        assert(settings@ =~= old(settings)@ + spec_real_time_setting(self@));
    }

    fn push_allow_frame_reordering_setting(&self, settings: &mut Vec<PropertySetting>)
        ensures
            final(settings)@ == old(settings)@ + spec_allow_frame_reordering_setting(self@),
    {
        if let Some(v) = self.allow_frame_reordering {
            settings.push(PropertySetting { key: ffi::kVTCompressionPropertyKey_AllowFrameReordering, name: "AllowFrameReordering", value: CFValue::Boolean(v) });
        }
        assert(settings@ =~= old(settings)@ + spec_allow_frame_reordering_setting(self@));
    }

    fn push_average_bit_rate_setting(&self, settings: &mut Vec<PropertySetting>)
        ensures
            final(settings)@ == old(settings)@ + spec_average_bit_rate_setting(self@),
    {
        if let Some(v) = self.average_bit_rate {
            settings.push(PropertySetting { key: ffi::kVTCompressionPropertyKey_AverageBitRate, name: "AverageBitRate", value: CFValue::SInt32(v) });
        }
        assert(settings@ =~= old(settings)@ + spec_average_bit_rate_setting(self@));
    }

    fn push_expected_frame_rate_setting(&self, settings: &mut Vec<PropertySetting>)
        ensures
            final(settings)@ == old(settings)@ + spec_expected_frame_rate_setting(self@),
    {
        if let Some(v) = self.expected_frame_rate {
            settings.push(PropertySetting { key: ffi::kVTCompressionPropertyKey_ExpectedFrameRate, name: "ExpectedFrameRate", value: CFValue::Float64Bits(v) });
        }
        assert(settings@ =~= old(settings)@ + spec_expected_frame_rate_setting(self@));
    }

    fn push_max_keyframe_interval_setting(&self, settings: &mut Vec<PropertySetting>)
        ensures
            final(settings)@ == old(settings)@ + spec_max_keyframe_interval_setting(self@),
    {
        if let Some(v) = self.max_keyframe_interval {
            settings.push(PropertySetting { key: ffi::kVTCompressionPropertyKey_MaxKeyFrameInterval, name: "MaxKeyFrameInterval", value: CFValue::SInt32(v) });
        }
        assert(settings@ =~= old(settings)@ + spec_max_keyframe_interval_setting(self@));
    }

    fn push_quality_setting(&self, settings: &mut Vec<PropertySetting>)
        ensures
            final(settings)@ == old(settings)@ + spec_quality_setting(self@),
    {
        if let Some(v) = self.quality {
            settings.push(PropertySetting { key: ffi::kVTCompressionPropertyKey_Quality, name: "Quality", value: CFValue::UnitFloat32Bits(v) });
        }
        assert(settings@ =~= old(settings)@ + spec_quality_setting(self@));
    }

    fn push_profile_level_setting(&self, settings: &mut Vec<PropertySetting>)
        ensures
            final(settings)@ == old(settings)@ + spec_profile_level_setting(self@),
    {
        if let Some(v) = self.profile_level {
            settings.push(PropertySetting { key: ffi::kVTCompressionPropertyKey_ProfileLevel, name: "ProfileLevel", value: CFValue::Constant(v.as_cf_string()) });
        }
        assert(settings@ =~= old(settings)@ + spec_profile_level_setting(self@));
    }

    /// The properties set on a freshly created session, in the order they
    /// are applied.
    pub fn session_properties(&self) -> (r: Vec<PropertySetting>)
        ensures
            r@ == spec_session_properties(self@),
    {
        let mut settings: Vec<PropertySetting> = Vec::new();
        self.push_real_time_setting(&mut settings);
        self.push_allow_frame_reordering_setting(&mut settings);
        self.push_average_bit_rate_setting(&mut settings);
        self.push_expected_frame_rate_setting(&mut settings);
        self.push_max_keyframe_interval_setting(&mut settings);
        self.push_quality_setting(&mut settings);
        self.push_profile_level_setting(&mut settings);
        assert(settings@ =~= spec_session_properties(self@));
        settings
    }
}


/// What the native layer must do next to bring a compression session up.
#[derive(Debug, Clone, Copy, PartialEq, Eq, Structural)]
pub enum SetupAction {
    /// Call `VTCompressionSessionCreate`.
    Create,
    /// Apply the property at this index of [`SessionSetup::properties`].
    SetProperty(usize),
    /// Call `VTCompressionSessionPrepareToEncodeFrames`.
    Prepare,
    /// Nothing is left to do: the session is ready, or a step failed.
    Finished,
}

/// The state of bringing a compression session up: create it, apply each
/// configured property in order, prepare it, stopping at the first failure.
#[derive(Debug)]
pub struct SessionSetup {
    width: i32,
    height: i32,
    codec_type: u32,
    encoder_specification: Option<Vec<DictionaryEntry>>,
    properties: Vec<PropertySetting>,
    step: usize,
    failed: bool,
}

/// The plain-value state of a [`SessionSetup`].
pub struct SetupState {
    pub width: i32,
    pub height: i32,
    pub codec_type: u32,
    pub encoder_specification: Option<Seq<DictionaryEntry>>,
    pub properties: Seq<PropertySetting>,
    /// `0`: create; `1..=n`: property `step - 1`; `n + 1`: prepare; `n + 2`: ready.
    pub step: nat,
    pub failed: bool,
}

pub open spec fn opt_seq<A>(o: Option<Vec<A>>) -> Option<Seq<A>> {
    match o {
        Some(v) => Some(v@),
        None => None,
    }
}

impl View for SessionSetup {
    type V = SetupState;

    closed spec fn view(&self) -> SetupState {
        SetupState {
            width: self.width,
            height: self.height,
            codec_type: self.codec_type,
            encoder_specification: opt_seq(self.encoder_specification),
            properties: self.properties@,
            step: self.step as nat,
            failed: self.failed,
        }
    }
}

/// The action a setup state calls for.
pub open spec fn spec_next_action(st: SetupState) -> SetupAction {
    if st.failed || st.step >= st.properties.len() + 2 {
        SetupAction::Finished
    } else if st.step == 0 {
        SetupAction::Create
    } else if st.step <= st.properties.len() {
        SetupAction::SetProperty((st.step - 1) as usize)
    } else {
        SetupAction::Prepare
    }
}

/// Whether the session came up: every step ran and none failed.
pub open spec fn spec_setup_ready(st: SetupState) -> bool {
    !st.failed && st.step == st.properties.len() + 2
}

impl SessionSetup {
    #[verifier::type_invariant]
    closed spec fn inv(self) -> bool {
        &&& self.step <= self.properties@.len() + 2
        &&& self.properties@.len() + 2 <= usize::MAX
    }

    /// Frame width passed to `VTCompressionSessionCreate`.
    pub fn width(&self) -> (r: i32)
        ensures
            r == self@.width,
    {
        self.width
    }

    /// Frame height passed to `VTCompressionSessionCreate`.
    pub fn height(&self) -> (r: i32)
        ensures
            r == self@.height,
    {
        self.height
    }

    /// `CMVideoCodecType` passed to `VTCompressionSessionCreate`.
    pub fn codec_type(&self) -> (r: u32)
        ensures
            r == self@.codec_type,
    {
        self.codec_type
    }

    /// Encoder specification passed to `VTCompressionSessionCreate`.
    pub fn encoder_specification(&self) -> (r: Option<&Vec<DictionaryEntry>>)
        ensures
            r is None <==> self@.encoder_specification is None,
            r matches Some(v) ==> self@.encoder_specification == Some(v@),
    {
        match &self.encoder_specification {
            Some(v) => Some(v),
            None => None,
        }
    }

    /// The properties applied after creation, in order.
    pub fn properties(&self) -> (r: &Vec<PropertySetting>)
        ensures
            r@ == self@.properties,
    {
        &self.properties
    }

    /// What to do next.
    pub fn next_action(&self) -> (r: SetupAction)
        ensures
            r == spec_next_action(self@),
    {
        proof {
            use_type_invariant(self);
        }
        let n = self.properties.len();
        if self.failed || self.step >= n + 2 {
            SetupAction::Finished
        } else if self.step == 0 {
            SetupAction::Create
        } else if self.step <= n {
            SetupAction::SetProperty(self.step - 1)
        } else {
            SetupAction::Prepare
        }
    }

    /// Whether the session came up.
    pub fn is_ready(&self) -> (r: bool)
        ensures
            r == spec_setup_ready(self@),
    {
        proof {
            use_type_invariant(self);
        }
        !self.failed && self.step == self.properties.len() + 2
    }

    /// Records the outcome of the action [`Self::next_action`] asked for:
    /// its `OSStatus`, and for `Create` whether the returned session handle
    /// was NULL. A failure ends the setup with the error for that step.
    pub fn record(&mut self, status: OSStatus, handle_is_null: bool) -> (r: Result<(), VTError>)
        requires
            spec_next_action(old(self)@) != SetupAction::Finished,
        ensures
            final(self)@.width == old(self)@.width,
            final(self)@.height == old(self)@.height,
            final(self)@.codec_type == old(self)@.codec_type,
            final(self)@.encoder_specification == old(self)@.encoder_specification,
            final(self)@.properties == old(self)@.properties,
            r is Err <==> final(self)@.failed,
            r is Ok ==> final(self)@.step == old(self)@.step + 1,
            spec_next_action(old(self)@) == SetupAction::Create ==> {
                &&& (status != 0 || handle_is_null) <==> r is Err
                &&& r is Err ==> r == Err::<(), VTError>(VTError::SessionCreateFailed(status))
            },
            spec_next_action(old(self)@) matches SetupAction::SetProperty(i) ==> {
                &&& status != 0 <==> r is Err
                &&& r is Err ==> (r->Err_0 matches VTError::SetPropertyFailed { key, status: s }
                    && key@ == old(self)@.properties[i as int].name@ && s == status)
            },
            spec_next_action(old(self)@) == SetupAction::Prepare ==> {
                &&& status != 0 <==> r is Err
                &&& r is Err ==> r == Err::<(), VTError>(VTError::PrepareFailed(status))
            },
    {
        proof {
            use_type_invariant(&*self);
        }
        let n = self.properties.len();
        if self.step == 0 {
            if status != 0 || handle_is_null {
                self.failed = true;
                return Err(VTError::SessionCreateFailed(status));
            }
            self.step = 1;
            Ok(())
        } else if self.step <= n {
            if status != 0 {
                let name = self.properties[self.step - 1].name;
                self.failed = true;
                return Err(VTError::SetPropertyFailed { key: name.to_owned(), status });
            }
            self.step = self.step + 1;
            Ok(())
        } else {
            if status != 0 {
                self.failed = true;
                return Err(VTError::PrepareFailed(status));
            }
            self.step = self.step + 1;
            Ok(())
        }
    }
}

impl CompressionSessionBuilder {
    /// Checks the dimensions and lowers the recorded settings into the steps
    /// that bring the session up.
    ///
    /// Returns [`VTError::InvalidArgument`] if width/height are non-positive.
    pub fn build(self) -> (r: Result<SessionSetup, VTError>)
        ensures
            (self@.width <= 0 || self@.height <= 0) <==> r is Err,
            r matches Err(e) ==> (e matches VTError::InvalidArgument(m) && m@
                == spec_dimensions_message(self@.width, self@.height)),
            r matches Ok(setup) ==> {
                &&& setup@.width == self@.width
                &&& setup@.height == self@.height
                &&& setup@.codec_type == spec_codec_type(self@.codec)
                &&& setup@.encoder_specification == spec_encoder_specification(self@)
                &&& setup@.properties == spec_session_properties(self@)
                &&& setup@.step == 0
                &&& !setup@.failed
            },
    {
        if self.width <= 0 || self.height <= 0 {
            let mut message = String::new();
            message.append("width/height must be positive (got ");
            push_decimal(&mut message, self.width as i64);
            message.append("x");
            push_decimal(&mut message, self.height as i64);
            message.append(")");
            return Err(VTError::InvalidArgument(message));
        }
        let encoder_specification = self.encoder_specification();
        let properties = self.session_properties();
        proof {
            crate::compression::lemma_property_count_small(self@);
        }
        Ok(
            SessionSetup {
                width: self.width,
                height: self.height,
                codec_type: self.codec.as_cm_codec_type(),
                encoder_specification,
                properties,
                step: 0,
                failed: false,
            },
        )
    }
}

/// Whatever either part of a concatenation contains, the whole contains.
proof fn lemma_add_contains<A>(a: Seq<A>, b: Seq<A>)
    ensures
        forall|x: A| a.contains(x) ==> #[trigger] (a + b).contains(x),
        forall|x: A| b.contains(x) ==> #[trigger] (a + b).contains(x),
{
    assert forall|x: A| a.contains(x) implies #[trigger] (a + b).contains(x) by {
        let i = choose|i: int| 0 <= i < a.len() && a[i] == x;
        assert((a + b)[i] == x);
    }
    assert forall|x: A| b.contains(x) implies #[trigger] (a + b).contains(x) by {
        let i = choose|i: int| 0 <= i < b.len() && b[i] == x;
        assert((a + b)[a.len() + i] == x);
    }
}

/// 1 for a recorded setting, 0 for none.
pub open spec fn spec_present<A>(o: Option<A>) -> nat {
    if o is Some {
        1
    } else {
        0
    }
}

/// Every recorded builder setting becomes exactly one property call that
/// carries the recorded value itself, under that setting's own key: the
/// real-time flag, frame reordering, bit rate, frame rate, keyframe
/// interval, quality and profile level are set to what the builder holds
/// (frame reordering to `v` when `v` was asked for, never to its negation),
/// and nothing else is set.
pub proof fn lemma_session_properties_carry_the_builder_values(b: BuilderSettings)
    ensures
        spec_session_properties(b).len() == spec_present(b.real_time) + spec_present(
            b.allow_frame_reordering,
        ) + spec_present(b.average_bit_rate) + spec_present(b.expected_frame_rate) + spec_present(
            b.max_keyframe_interval,
        ) + spec_present(b.quality) + spec_present(b.profile_level),
        b.real_time matches Some(v) ==> spec_session_properties(b).contains(
            PropertySetting {
                key: ffi::kVTCompressionPropertyKey_RealTime,
                name: "RealTime",
                value: CFValue::Boolean(v),
            },
        ),
        b.allow_frame_reordering matches Some(v) ==> spec_session_properties(b).contains(
            PropertySetting {
                key: ffi::kVTCompressionPropertyKey_AllowFrameReordering,
                name: "AllowFrameReordering",
                value: CFValue::Boolean(v),
            },
        ),
        b.average_bit_rate matches Some(v) ==> spec_session_properties(b).contains(
            PropertySetting {
                key: ffi::kVTCompressionPropertyKey_AverageBitRate,
                name: "AverageBitRate",
                value: CFValue::SInt32(v),
            },
        ),
        b.expected_frame_rate matches Some(v) ==> spec_session_properties(b).contains(
            PropertySetting {
                key: ffi::kVTCompressionPropertyKey_ExpectedFrameRate,
                name: "ExpectedFrameRate",
                value: CFValue::Float64Bits(v),
            },
        ),
        b.max_keyframe_interval matches Some(v) ==> spec_session_properties(b).contains(
            PropertySetting {
                key: ffi::kVTCompressionPropertyKey_MaxKeyFrameInterval,
                name: "MaxKeyFrameInterval",
                value: CFValue::SInt32(v),
            },
        ),
        b.quality matches Some(v) ==> spec_session_properties(b).contains(
            PropertySetting {
                key: ffi::kVTCompressionPropertyKey_Quality,
                name: "Quality",
                value: CFValue::UnitFloat32Bits(v),
            },
        ),
        b.profile_level matches Some(v) ==> spec_session_properties(b).contains(
            PropertySetting {
                key: ffi::kVTCompressionPropertyKey_ProfileLevel,
                name: "ProfileLevel",
                value: CFValue::Constant(spec_profile_symbol(v)),
            },
        ),
{
    let a1 = spec_real_time_setting(b);
    let a2 = a1 + spec_allow_frame_reordering_setting(b);
    let a3 = a2 + spec_average_bit_rate_setting(b);
    let a4 = a3 + spec_expected_frame_rate_setting(b);
    let a5 = a4 + spec_max_keyframe_interval_setting(b);
    let a6 = a5 + spec_quality_setting(b);
    lemma_add_contains(a1, spec_allow_frame_reordering_setting(b));
    lemma_add_contains(a2, spec_average_bit_rate_setting(b));
    lemma_add_contains(a3, spec_expected_frame_rate_setting(b));
    lemma_add_contains(a4, spec_max_keyframe_interval_setting(b));
    lemma_add_contains(a5, spec_quality_setting(b));
    lemma_add_contains(a6, spec_profile_level_setting(b));
    if let Some(v) = b.real_time {
        let x = PropertySetting { key: ffi::kVTCompressionPropertyKey_RealTime, name: "RealTime", value: CFValue::Boolean(v) };
        assert(spec_real_time_setting(b)[0] == x);
        assert(spec_real_time_setting(b).contains(x));
        assert(a1.contains(x));
        assert(a2.contains(x));
        assert(a3.contains(x));
        assert(a4.contains(x));
        assert(a5.contains(x));
        assert(a6.contains(x));
        assert((a6 + spec_profile_level_setting(b)).contains(x));
    }
    if let Some(v) = b.allow_frame_reordering {
        let x = PropertySetting { key: ffi::kVTCompressionPropertyKey_AllowFrameReordering, name: "AllowFrameReordering", value: CFValue::Boolean(v) };
        assert(spec_allow_frame_reordering_setting(b)[0] == x);
        assert(spec_allow_frame_reordering_setting(b).contains(x));
        assert(a2.contains(x));
        assert(a3.contains(x));
        assert(a4.contains(x));
        assert(a5.contains(x));
        assert(a6.contains(x));
        assert((a6 + spec_profile_level_setting(b)).contains(x));
    }
    if let Some(v) = b.average_bit_rate {
        let x = PropertySetting { key: ffi::kVTCompressionPropertyKey_AverageBitRate, name: "AverageBitRate", value: CFValue::SInt32(v) };
        assert(spec_average_bit_rate_setting(b)[0] == x);
        assert(spec_average_bit_rate_setting(b).contains(x));
        assert(a3.contains(x));
        assert(a4.contains(x));
        assert(a5.contains(x));
        assert(a6.contains(x));
        assert((a6 + spec_profile_level_setting(b)).contains(x));
    }
    if let Some(v) = b.expected_frame_rate {
        let x = PropertySetting { key: ffi::kVTCompressionPropertyKey_ExpectedFrameRate, name: "ExpectedFrameRate", value: CFValue::Float64Bits(v) };
        assert(spec_expected_frame_rate_setting(b)[0] == x);
        assert(spec_expected_frame_rate_setting(b).contains(x));
        assert(a4.contains(x));
        assert(a5.contains(x));
        assert(a6.contains(x));
        assert((a6 + spec_profile_level_setting(b)).contains(x));
    }
    if let Some(v) = b.max_keyframe_interval {
        let x = PropertySetting { key: ffi::kVTCompressionPropertyKey_MaxKeyFrameInterval, name: "MaxKeyFrameInterval", value: CFValue::SInt32(v) };
        assert(spec_max_keyframe_interval_setting(b)[0] == x);
        assert(spec_max_keyframe_interval_setting(b).contains(x));
        assert(a5.contains(x));
        assert(a6.contains(x));
        assert((a6 + spec_profile_level_setting(b)).contains(x));
    }
    if let Some(v) = b.quality {
        let x = PropertySetting { key: ffi::kVTCompressionPropertyKey_Quality, name: "Quality", value: CFValue::UnitFloat32Bits(v) };
        assert(spec_quality_setting(b)[0] == x);
        assert(spec_quality_setting(b).contains(x));
        assert(a6.contains(x));
        assert((a6 + spec_profile_level_setting(b)).contains(x));
    }
    if let Some(v) = b.profile_level {
        let x = PropertySetting { key: ffi::kVTCompressionPropertyKey_ProfileLevel, name: "ProfileLevel", value: CFValue::Constant(spec_profile_symbol(v)) };
        assert(spec_profile_level_setting(b)[0] == x);
        assert(spec_profile_level_setting(b).contains(x));
        assert((a6 + spec_profile_level_setting(b)).contains(x));
    }
}

/// The encoder specification asks for exactly what the builder records:
/// preferred acceleration enables the hardware encoder, required
/// acceleration requires it, disabled acceleration turns it off; the encoder
/// id, low-latency rate control and GPU choice are passed on as recorded;
/// and with nothing recorded there is no specification at all.
pub proof fn lemma_encoder_specification_carries_the_builder_choices(b: BuilderSettings)
    ensures
        spec_encoder_entries(b).len() == spec_present(b.hardware_acceleration) + spec_present(
            b.encoder_id,
        ) + spec_present(b.low_latency_rate_control) + spec_present(b.encoder_gpu),
        spec_encoder_specification(b) is None <==> (b.hardware_acceleration is None
            && b.encoder_id is None && b.low_latency_rate_control is None && b.encoder_gpu is None),
        b.hardware_acceleration == Some(HardwareAcceleration::Preferred) ==> spec_encoder_entries(
            b,
        ).contains(
            (
                ffi::kVTVideoEncoderSpecification_EnableHardwareAcceleratedVideoEncoder,
                CFValue::Boolean(true),
            ),
        ),
        b.hardware_acceleration == Some(HardwareAcceleration::Required) ==> spec_encoder_entries(
            b,
        ).contains(
            (
                ffi::kVTVideoEncoderSpecification_RequireHardwareAcceleratedVideoEncoder,
                CFValue::Boolean(true),
            ),
        ),
        b.hardware_acceleration == Some(HardwareAcceleration::Disabled) ==> spec_encoder_entries(
            b,
        ).contains(
            (
                ffi::kVTVideoEncoderSpecification_EnableHardwareAcceleratedVideoEncoder,
                CFValue::Boolean(false),
            ),
        ),
        b.encoder_id matches Some(id) ==> spec_encoder_entries(b).contains(
            (ffi::kVTVideoEncoderSpecification_EncoderID, CFValue::String(id)),
        ),
        b.low_latency_rate_control matches Some(on) ==> spec_encoder_entries(b).contains(
            (ffi::kVTVideoEncoderSpecification_EnableLowLatencyRateControl, CFValue::Boolean(on)),
        ),
        b.encoder_gpu matches Some(EncoderGpu::Preferred(id)) ==> spec_encoder_entries(b).contains(
            (ffi::kVTVideoEncoderSpecification_PreferredEncoderGPURegistryID, CFValue::UInt64(id)),
        ),
        b.encoder_gpu matches Some(EncoderGpu::Required(id)) ==> spec_encoder_entries(b).contains(
            (ffi::kVTVideoEncoderSpecification_RequiredEncoderGPURegistryID, CFValue::UInt64(id)),
        ),
{
    let e1 = spec_acceleration_entries(b.hardware_acceleration);
    let e2 = opt_entry(
        b.encoder_id,
        |id: String| (ffi::kVTVideoEncoderSpecification_EncoderID, CFValue::String(id)),
    );
    let e3 = opt_entry(
        b.low_latency_rate_control,
        |on: bool| (ffi::kVTVideoEncoderSpecification_EnableLowLatencyRateControl, CFValue::Boolean(on)),
    );
    let e4 = spec_gpu_entries(b.encoder_gpu);
    lemma_add_contains(e1, e2);
    lemma_add_contains(e1 + e2, e3);
    lemma_add_contains(e1 + e2 + e3, e4);
    assert(spec_encoder_entries(b) == e1 + e2 + e3 + e4);
    if b.hardware_acceleration is Some {
        assert(e1[0] == e1[0]);
    }
    if b.encoder_id is Some {
        assert(e2[0] == e2[0]);
    }
    if b.low_latency_rate_control is Some {
        assert(e3[0] == e3[0]);
    }
    if b.encoder_gpu is Some {
        assert(e4[0] == e4[0]);
    }
}

/// A session is configured with at most one setting per builder field.
pub proof fn lemma_property_count_small(b: BuilderSettings)
    ensures
        spec_session_properties(b).len() <= 7,
{
}


/// Bookkeeping for one frame submitted to the encoder.
///
/// The encoder is handed one reference to the slot along with the frame; the
/// output callback hands it back. `native` records whether that reference is
/// still out, so it is taken back exactly once whichever of the callback and
/// a rejected submission comes first. The first completion is the frame's
/// result; later ones are ignored.
#[derive(Debug)]
pub struct FrameSlot<T> {
    native: bool,
    output: Option<Result<T, VTError>>,
}

/// The plain-value state of a [`FrameSlot`].
pub struct SlotState<T> {
    /// Whether the encoder still holds its reference to the slot.
    pub native: bool,
    /// The completion waiting to be taken, if any.
    pub pending: Option<Result<T, VTError>>,
}

impl<T> View for FrameSlot<T> {
    type V = SlotState<T>;

    closed spec fn view(&self) -> SlotState<T> {
        SlotState { native: self.native, pending: self.output }
    }
}

/// Something that happens to a frame slot.
pub enum SlotEvent<T> {
    /// The encoder's output callback ran with this status and output.
    Output(OSStatus, T),
    /// `VTCompressionSessionEncodeFrame` returned this status.
    Submitted(OSStatus),
    /// The waiting result was taken.
    Taken,
}

/// The result an output callback with `status` delivers.
pub open spec fn spec_output_result<T>(status: OSStatus, output: T) -> Result<T, VTError> {
    if status == 0 {
        Ok(output)
    } else {
        Err(VTError::EncoderCallback(status))
    }
}

/// A slot after an output callback: the reference is back, and the result
/// is stored if the callback was the one that took it back and nothing is
/// waiting yet.
pub open spec fn spec_after_output<T>(s: SlotState<T>, status: OSStatus, output: T) -> SlotState<T> {
    SlotState {
        native: false,
        pending: if s.native && s.pending is None {
            Some(spec_output_result(status, output))
        } else {
            s.pending
        },
    }
}

/// A slot after its submission returned `status`.
pub open spec fn spec_after_submitted<T>(s: SlotState<T>, status: OSStatus) -> SlotState<T> {
    SlotState { native: if status != 0 { false } else { s.native }, pending: s.pending }
}

/// A slot after one event, and whether the event took back the encoder's
/// reference.
pub open spec fn spec_slot_step<T>(s: SlotState<T>, e: SlotEvent<T>) -> (SlotState<T>, bool) {
    match e {
        SlotEvent::Output(status, output) => (spec_after_output(s, status, output), s.native),
        SlotEvent::Submitted(status) => (spec_after_submitted(s, status), s.native && status != 0),
        SlotEvent::Taken => (SlotState { native: s.native, pending: None }, false),
    }
}

/// How many of `events` take back the encoder's reference.
pub open spec fn spec_slot_releases<T>(s: SlotState<T>, events: Seq<SlotEvent<T>>) -> nat
    decreases events.len(),
{
    if events.len() == 0 {
        0
    } else {
        let (next, released) = spec_slot_step(s, events[0]);
        (if released { 1nat } else { 0nat }) + spec_slot_releases(next, events.drop_first())
    }
}

/// The state after all of `events`.
pub open spec fn spec_slot_run<T>(s: SlotState<T>, events: Seq<SlotEvent<T>>) -> SlotState<T>
    decreases events.len(),
{
    if events.len() == 0 {
        s
    } else {
        spec_slot_run(spec_slot_step(s, events[0]).0, events.drop_first())
    }
}

impl<T> FrameSlot<T> {
    /// A slot whose reference is about to be handed to the encoder.
    pub fn new() -> (r: Self)
        ensures
            r@.native,
            r@.pending is None,
    {
        FrameSlot { native: true, output: None }
    }

    /// Takes back the encoder's reference; `true` only the first time.
    pub fn release_native(&mut self) -> (released: bool)
        ensures
            released == old(self)@.native,
            !final(self)@.native,
            final(self)@.pending == old(self)@.pending,
    {
        let released = self.native;
        self.native = false;
        released
    }

    /// Stores the frame's result unless one is already waiting.
    pub fn complete(&mut self, result: Result<T, VTError>)
        ensures
            final(self)@.native == old(self)@.native,
            final(self)@.pending == if old(self)@.pending is None {
                Some(result)
            } else {
                old(self)@.pending
            },
    {
        if self.output.is_none() {
            self.output = Some(result);
        }
    }

    /// Removes and returns the waiting result.
    pub fn take(&mut self) -> (r: Option<Result<T, VTError>>)
        ensures
            r == old(self)@.pending,
            final(self)@ == spec_slot_step(old(self)@, SlotEvent::Taken).0,
    {
        self.output.take()
    }

    /// The encoder's output callback for this slot: `status` and the frame's
    /// output. Returns whether the callback took back the encoder's
    /// reference; a callback that finds it already taken back changes nothing.
    pub fn on_output(&mut self, status: OSStatus, output: T) -> (released: bool)
        ensures
            (final(self)@, released) == spec_slot_step(old(self)@, SlotEvent::Output(status, output)),
    {
        if self.release_native() {
            let result = if status == 0 {
                Ok(output)
            } else {
                Err(VTError::EncoderCallback(status))
            };
            self.complete(result);
            true
        } else {
            false
        }
    }

    /// The outcome of `VTCompressionSessionEncodeFrame` for this slot. A
    /// rejected submission takes back the encoder's reference (unless an
    /// output callback already did) and reports [`VTError::EncodeFailed`];
    /// the flag says whether this call took the reference back.
    pub fn submitted(&mut self, status: OSStatus) -> (r: (Result<(), VTError>, bool))
        ensures
            status == 0 ==> r.0 is Ok,
            status != 0 ==> r.0 == Err::<(), VTError>(VTError::EncodeFailed(status)),
            (final(self)@, r.1) == spec_slot_step(old(self)@, SlotEvent::Submitted(status)),
    {
        if status != 0 {
            let released = self.release_native();
            return (Err(VTError::EncodeFailed(status)), released);
        }
        (Ok(()), false)
    }
}

/// The encoder's reference to a frame slot is taken back at most once,
/// whatever sequence of output callbacks, submission outcomes and takes
/// follows; and only a slot whose reference is still out can release it.
pub proof fn lemma_native_reference_released_once<T>(s: SlotState<T>, events: Seq<SlotEvent<T>>)
    ensures
        spec_slot_releases(s, events) <= if s.native {
            1nat
        } else {
            0nat
        },
    decreases events.len(),
{
    if events.len() > 0 {
        let (next, released) = spec_slot_step(s, events[0]);
        lemma_native_reference_released_once(next, events.drop_first());
        assert(released ==> s.native && !next.native);
    }
}

/// Until the waiting result is taken, the first completion stays the
/// frame's result: later callbacks and submission outcomes leave it alone.
pub proof fn lemma_first_completion_wins<T>(s: SlotState<T>, events: Seq<SlotEvent<T>>)
    requires
        s.pending is Some,
        forall|i: int| 0 <= i < events.len() ==> !(#[trigger] events[i] is Taken),
    ensures
        spec_slot_run(s, events).pending == s.pending,
    decreases events.len(),
{
    if events.len() > 0 {
        let next = spec_slot_step(s, events[0]).0;
        assert(!(events[0] is Taken));
        assert forall|i: int| 0 <= i < events.drop_first().len() implies !(
        #[trigger] events.drop_first()[i] is Taken) by {
            assert(events.drop_first()[i] == events[i + 1]);
        }
        lemma_first_completion_wins(next, events.drop_first());
    }
}

/// Maps the status of `VTCompressionSessionCompleteFrames`.
pub fn complete_frames_result(status: OSStatus) -> (r: Result<(), VTError>)
    ensures
        status == 0 <==> r is Ok,
        status != 0 ==> r == Err::<(), VTError>(VTError::CompleteFailed(status)),
{
    if status == 0 {
        Ok(())
    } else {
        Err(VTError::CompleteFailed(status))
    }
}

/// `VTCompressionSessionOptionFlags` for `VTCompressionSessionBeginPass`.
pub fn begin_pass_flags(final_pass: bool) -> (r: u32)
    ensures
        r == if final_pass {
            ffi::kVTCompressionSessionBeginFinalPass
        } else {
            0
        },
{
    if final_pass {
        ffi::kVTCompressionSessionBeginFinalPass
    } else {
        0
    }
}

/// Maps `VTCompressionSessionEndPass`: its status and the
/// `furtherPassesRequestedOut` flag.
pub fn end_pass_result(status: OSStatus, further_passes_requested: u8) -> (r: Result<bool, VTError>)
    ensures
        status == 0 ==> r == Ok::<bool, VTError>(further_passes_requested != 0),
        status != 0 ==> r == Err::<bool, VTError>(
            VTError::ApiFailed { api: "VTCompressionSessionEndPass", status },
        ),
{
    if status == 0 {
        Ok(further_passes_requested != 0)
    } else {
        Err(VTError::ApiFailed { api: "VTCompressionSessionEndPass", status })
    }
}

/// How many `CMTimeRange`s `VTCompressionSessionGetTimeRangesForNextPass`
/// handed back: none when the count is not positive or the array is NULL.
pub fn time_range_count(status: OSStatus, count: isize, ranges_is_null: bool) -> (r: Result<
    usize,
    VTError,
>)
    ensures
        status != 0 ==> r == Err::<usize, VTError>(
            VTError::ApiFailed { api: "VTCompressionSessionGetTimeRangesForNextPass", status },
        ),
        status == 0 && (count <= 0 || ranges_is_null) ==> r == Ok::<usize, VTError>(0),
        status == 0 && count > 0 && !ranges_is_null ==> r == Ok::<usize, VTError>(count as usize),
{
    if status != 0 {
        return Err(
            VTError::ApiFailed { api: "VTCompressionSessionGetTimeRangesForNextPass", status },
        );
    }
    if count <= 0 || ranges_is_null {
        return Ok(0);
    }
    Ok(count as usize)
}

/// Hardware-accelerated video compression session: the address of the
/// native `VTCompressionSessionRef`, or `0` once it has been torn down.
pub struct CompressionSession {
    session: usize,
}

impl View for CompressionSession {
    type V = usize;

    closed spec fn view(&self) -> usize {
        self.session
    }
}

impl CompressionSession {
    /// Convenience: start a builder.
    pub fn builder(width: i32, height: i32, codec: Codec) -> (r: CompressionSessionBuilder)
        ensures
            r@ == spec_fresh_builder(width, height, codec),
    {
        CompressionSessionBuilder::new(width, height, codec)
    }

    /// Adopts the native session a setup brought up: only a setup that
    /// finished every step, with a non-NULL session, gives one.
    pub fn from_setup(setup: &SessionSetup, session: usize) -> (r: Option<Self>)
        ensures
            (spec_setup_ready(setup@) && session != 0) <==> r is Some,
            r matches Some(s) ==> s@ == session,
    {
        if setup.is_ready() && session != 0 {
            Some(Self { session })
        } else {
            None
        }
    }

    /// Raw `VTCompressionSessionRef`, as an address (`0` once torn down).
    pub fn as_ptr(&self) -> (r: usize)
        ensures
            r == self@,
    {
        self.session
    }

    /// Hands over the native session for tear-down. Only the first call
    /// gets it; the session is marked torn down, so every later call (an
    /// explicit `invalidate` followed by the drop, say) gets `None`.
    pub fn take_native(&mut self) -> (r: Option<usize>)
        ensures
            old(self)@ == 0 ==> r is None,
            old(self)@ != 0 ==> r == Some(old(self)@),
            final(self)@ == 0,
    {
        if self.session == 0 {
            return None;
        }
        let native = self.session;
        self.session = 0;
        Some(native)
    }

    /// Completes pending output, invalidates the encoder, and releases the
    /// native session; `complete_and_release` does that native work on the
    /// session's address and reports the status of
    /// `VTCompressionSessionCompleteFrames`. A session already torn down is
    /// left alone and reports success.
    ///
    /// Returns [`VTError::CompleteFailed`] when completing the frames failed.
    pub fn invalidate<F: FnOnce(usize) -> OSStatus>(self, complete_and_release: F) -> (r: Result<
        (),
        VTError,
    >)
        requires
            self@ != 0 ==> complete_and_release.requires((self@,)),
        ensures
            self@ == 0 ==> r is Ok,
            self@ != 0 ==> exists|status: OSStatus|
                #![trigger complete_and_release.ensures((self@,), status)]
                complete_and_release.ensures((self@,), status) && (status == 0 <==> r is Ok) && (
                status != 0 ==> r == Err::<(), VTError>(VTError::CompleteFailed(status))),
    {
        let mut this = self;
        match this.take_native() {
            None => Ok(()),
            Some(native) => {
                let status = complete_and_release(native);
                complete_frames_result(status)
            },
        }
    }
}

/// Async accessor for a [`CompressionSession`]: borrows the session whose
/// one-shot frame completions are awaited.
pub struct AsyncCompressionSession<'a> {
    session: &'a CompressionSession,
}

impl<'a> AsyncCompressionSession<'a> {
    /// Wrap a borrowed [`CompressionSession`].
    pub fn new(session: &'a CompressionSession) -> (r: Self)
        ensures
            r.spec_session()@ == session@,
    {
        Self { session }
    }

    /// The borrowed session.
    pub fn session(&self) -> (r: &'a CompressionSession)
        ensures
            r@ == self.spec_session()@,
    {
        self.session
    }

    /// The borrowed session.
    pub closed spec fn spec_session(&self) -> &'a CompressionSession {
        self.session
    }
}

/// Result of `CVPixelBufferCreateWithIOSurface` when a surface is wrapped
/// for encoding: the buffer counts only when the status is `0` and the
/// buffer is non-NULL; otherwise [`VTError::PixelBufferCreateFailed`].
pub fn pixel_buffer_result(status: OSStatus, pixel_buffer: usize) -> (r: Result<usize, VTError>)
    ensures
        (status == 0 && pixel_buffer != 0) <==> r is Ok,
        r matches Ok(p) ==> p == pixel_buffer,
        r matches Err(e) ==> e == VTError::PixelBufferCreateFailed(status),
{
    if status != 0 || pixel_buffer == 0 {
        return Err(VTError::PixelBufferCreateFailed(status));
    }
    Ok(pixel_buffer)
}

/// One encoded frame: its bitstream bytes, presentation time, the encoder's
/// info flags, and the encoded sample buffer (none for a dropped frame).
pub struct EncodedFrameContents<T, S> {
    /// Encoded bitstream bytes.
    pub data: Vec<u8>,
    /// Presentation timestamp of the frame.
    pub presentation_time: T,
    /// Encoder hint flags (e.g. dropped, asynchronous).
    pub info_flags: u32,
    /// The encoded sample buffer, when the encoder produced one.
    pub sample_buffer: Option<S>,
}

/// The frame recorded when the encoder hands back no sample buffer (it
/// dropped the frame): no bytes, the source frame's own timestamp, and the
/// flags the encoder reported.
pub fn dropped_frame<T, S>(source_time: T, info_flags: u32) -> (r: EncodedFrameContents<T, S>)
    ensures
        r.data@.len() == 0,
        r.presentation_time == source_time,
        r.info_flags == info_flags,
        r.sample_buffer is None,
{
    EncodedFrameContents { data: Vec::new(), presentation_time: source_time, info_flags, sample_buffer: None }
}

/// Checks the data buffer of an encoded sample: an encoded sample without
/// one is reported as [`VTError::EncoderCallback`] with status `-2`.
pub fn data_buffer_result(block_buffer: usize) -> (r: Result<usize, VTError>)
    ensures
        block_buffer != 0 ==> r == Ok::<usize, VTError>(block_buffer),
        block_buffer == 0 ==> r == Err::<usize, VTError>(VTError::EncoderCallback(-2i32)),
{
    if block_buffer == 0 {
        return Err(VTError::EncoderCallback(-2));
    }
    Ok(block_buffer)
}

/// Result of `CMBlockBufferCopyDataBytes` when an encoded frame's bytes are
/// read out: a failure is reported as [`VTError::EncoderCallback`] with its
/// status.
pub fn copy_bytes_result(status: OSStatus) -> (r: Result<(), VTError>)
    ensures
        status == 0 ==> r is Ok,
        status != 0 ==> r == Err::<(), VTError>(VTError::EncoderCallback(status)),
{
    if status != 0 {
        return Err(VTError::EncoderCallback(status));
    }
    Ok(())
}

/// The sample buffer an awaited encode hands back: the frame's error, or
/// [`VTError::EncoderCallback`] with status `-1` when the encoder dropped the
/// frame without a sample buffer.
pub fn sample_buffer_from<T>(output: Result<Option<T>, VTError>) -> (r: Result<T, VTError>)
    ensures
        output matches Err(e) ==> r == Err::<T, VTError>(e),
        output matches Ok(Some(b)) ==> r == Ok::<T, VTError>(b),
        output matches Ok(None) ==> r == Err::<T, VTError>(VTError::EncoderCallback(-1i32)),
{
    match output {
        Err(e) => Err(e),
        Ok(Some(b)) => Ok(b),
        Ok(None) => Err(VTError::EncoderCallback(-1)),
    }
}

/// What one poll of an awaited encode does next.
#[derive(Debug, Clone, Copy, PartialEq, Eq, Structural)]
pub enum EncodePollStep {
    /// The frame's output is there: hand it over.
    Ready,
    /// Force the encoder to emit frames up to this one
    /// (`VTCompressionSessionCompleteFrames`), then look again.
    Force,
    /// Wait to be woken by the output callback.
    Pending,
}

/// The polling state of one awaited encode: whether its output has already
/// been forced out of the encoder.
pub struct EncodePoll {
    forced: bool,
}

impl EncodePoll {
    /// Whether the output was already forced.
    pub closed spec fn spec_forced(&self) -> bool {
        self.forced
    }

    /// A frame just submitted: nothing forced yet.
    pub fn new() -> (r: Self)
        ensures
            !r.spec_forced(),
    {
        Self { forced: false }
    }

    /// Decides one poll: hand the output over when it is there; otherwise
    /// force it out of the encoder the first time only, and afterwards wait.
    pub fn step(&mut self, output_ready: bool) -> (r: EncodePollStep)
        ensures
            output_ready ==> r == EncodePollStep::Ready && final(self).spec_forced() == old(
                self,
            ).spec_forced(),
            !output_ready && !old(self).spec_forced() ==> r == EncodePollStep::Force,
            !output_ready && old(self).spec_forced() ==> r == EncodePollStep::Pending,
            final(self).spec_forced() == (old(self).spec_forced() || !output_ready),
    {
        if output_ready {
            EncodePollStep::Ready
        } else if !self.forced {
            self.forced = true;
            EncodePollStep::Force
        } else {
            EncodePollStep::Pending
        }
    }
}

/// Over any run of polls, the encoder is forced at most once per frame.
pub proof fn lemma_encode_forced_at_most_once(forced: bool, polls: Seq<bool>)
    ensures
        spec_force_count(forced, polls) <= 1,
        forced ==> spec_force_count(forced, polls) == 0,
    decreases polls.len(),
{
    if polls.len() > 0 {
        lemma_encode_forced_at_most_once(forced || !polls[0], polls.drop_first());
    }
}

/// How many polls force the encoder, starting from `forced`, when each poll
/// finds the output ready or not as `polls` says.
pub open spec fn spec_force_count(forced: bool, polls: Seq<bool>) -> nat
    decreases polls.len(),
{
    if polls.len() == 0 {
        0
    } else {
        (if !polls[0] && !forced {
            1nat
        } else {
            0nat
        }) + spec_force_count(forced || !polls[0], polls.drop_first())
    }
}

} // verus!
