//! The lookup keys profile-level names normalize to, and the proof that
//! looking a profile level up by its own name finds it.

use vstd::prelude::*;
use crate::compression::{
    find_profile_from, normalize_name, spec_profile_at, spec_profile_from_name, spec_profile_index,
    spec_profile_name, ProfileLevel,
};

verus! {

/// The profile level a lookup key stands for, as its declaration index: the
/// key's family and variant letters and its level digits pick it out.
pub open spec fn spec_key_rank(k: Seq<char>) -> int {
    if k[1] == '2' {
        if k[3] == '3' {
            if k[11] == '3' {
                2
            } else if k[17] == '1' {
                0
            } else {
                1
            }
        } else if k[4] == 'b' {
            if k.len() != 14 {
                13
            } else if k[12] == '1' {
                3
            } else {
                4 + spec_level_rank(k[12], k[13])
            }
        } else if k[4] == 'c' {
            if k.len() == 32 {
                14
            } else {
                15
            }
        } else if k[4] == 'e' {
            if k.len() == 14 {
                16
            } else {
                17
            }
        } else if k[4] == 'h' {
            if k.len() == 10 {
                18 + spec_level_rank(k[8], k[9])
            } else {
                27
            }
        } else if k.len() == 10 {
            28 + spec_level_rank(k[8], k[9])
        } else {
            37
        }
    } else if k[1] == 'e' {
        if k.len() == 17 {
            38
        } else if k.len() == 19 {
            39
        } else if k.len() == 22 {
            40
        } else if k.len() == 23 {
            41
        } else {
            42
        }
    } else if k[4] == 'a' {
        43 + (k[19] as int - '0' as int)
    } else if k[4] == 'm' {
        48 + (k[9] as int - '2' as int)
    } else {
        51 + (k[11] as int - '0' as int)
    }
}

/// The position of level `major.minor` among 3.0, 3.1, 3.2, 4.0, ... 5.2.
pub open spec fn spec_level_rank(major: char, minor: char) -> int {
    (major as int - '3' as int) * 3 + (minor as int - '0' as int)
}

// What each profile's name normalizes to, one name at a time.
proof fn lemma_key_H263Profile0Level10()
    ensures
        spec_key_rank(normalize_name(spec_profile_name(ProfileLevel::H263Profile0Level10)@)) == 0,
{
    assert(normalize_name("H263Profile0Level10"@) =~= "h263profile0level10"@) by {
        reveal_with_fuel(normalize_name, 33);
        reveal_strlit("H263Profile0Level10");
        reveal_strlit("h263profile0level10");
    }
    reveal_strlit("h263profile0level10");
}

proof fn lemma_key_H263Profile0Level45()
    ensures
        spec_key_rank(normalize_name(spec_profile_name(ProfileLevel::H263Profile0Level45)@)) == 1,
{
    assert(normalize_name("H263Profile0Level45"@) =~= "h263profile0level45"@) by {
        reveal_with_fuel(normalize_name, 33);
        reveal_strlit("H263Profile0Level45");
        reveal_strlit("h263profile0level45");
    }
    reveal_strlit("h263profile0level45");
}

proof fn lemma_key_H263Profile3Level45()
    ensures
        spec_key_rank(normalize_name(spec_profile_name(ProfileLevel::H263Profile3Level45)@)) == 2,
{
    assert(normalize_name("H263Profile3Level45"@) =~= "h263profile3level45"@) by {
        reveal_with_fuel(normalize_name, 33);
        reveal_strlit("H263Profile3Level45");
        reveal_strlit("h263profile3level45");
    }
    reveal_strlit("h263profile3level45");
}

proof fn lemma_key_H264Baseline1_3()
    ensures
        spec_key_rank(normalize_name(spec_profile_name(ProfileLevel::H264Baseline1_3)@)) == 3,
{
    assert(normalize_name("H264Baseline1_3"@) =~= "h264baseline13"@) by {
        reveal_with_fuel(normalize_name, 33);
        reveal_strlit("H264Baseline1_3");
        reveal_strlit("h264baseline13");
    }
    reveal_strlit("h264baseline13");
}

proof fn lemma_key_H264Baseline3_0()
    ensures
        spec_key_rank(normalize_name(spec_profile_name(ProfileLevel::H264Baseline3_0)@)) == 4,
{
    assert(normalize_name("H264Baseline3_0"@) =~= "h264baseline30"@) by {
        reveal_with_fuel(normalize_name, 33);
        reveal_strlit("H264Baseline3_0");
        reveal_strlit("h264baseline30");
    }
    reveal_strlit("h264baseline30");
}

proof fn lemma_key_H264Baseline3_1()
    ensures
        spec_key_rank(normalize_name(spec_profile_name(ProfileLevel::H264Baseline3_1)@)) == 5,
{
    assert(normalize_name("H264Baseline3_1"@) =~= "h264baseline31"@) by {
        reveal_with_fuel(normalize_name, 33);
        reveal_strlit("H264Baseline3_1");
        reveal_strlit("h264baseline31");
    }
    reveal_strlit("h264baseline31");
}

proof fn lemma_key_H264Baseline3_2()
    ensures
        spec_key_rank(normalize_name(spec_profile_name(ProfileLevel::H264Baseline3_2)@)) == 6,
{
    assert(normalize_name("H264Baseline3_2"@) =~= "h264baseline32"@) by {
        reveal_with_fuel(normalize_name, 33);
        reveal_strlit("H264Baseline3_2");
        reveal_strlit("h264baseline32");
    }
    reveal_strlit("h264baseline32");
}

proof fn lemma_key_H264Baseline4_0()
    ensures
        spec_key_rank(normalize_name(spec_profile_name(ProfileLevel::H264Baseline4_0)@)) == 7,
{
    assert(normalize_name("H264Baseline4_0"@) =~= "h264baseline40"@) by {
        reveal_with_fuel(normalize_name, 33);
        reveal_strlit("H264Baseline4_0");
        reveal_strlit("h264baseline40");
    }
    reveal_strlit("h264baseline40");
}

proof fn lemma_key_H264Baseline4_1()
    ensures
        spec_key_rank(normalize_name(spec_profile_name(ProfileLevel::H264Baseline4_1)@)) == 8,
{
    assert(normalize_name("H264Baseline4_1"@) =~= "h264baseline41"@) by {
        reveal_with_fuel(normalize_name, 33);
        reveal_strlit("H264Baseline4_1");
        reveal_strlit("h264baseline41");
    }
    reveal_strlit("h264baseline41");
}

proof fn lemma_key_H264Baseline4_2()
    ensures
        spec_key_rank(normalize_name(spec_profile_name(ProfileLevel::H264Baseline4_2)@)) == 9,
{
    assert(normalize_name("H264Baseline4_2"@) =~= "h264baseline42"@) by {
        reveal_with_fuel(normalize_name, 33);
        reveal_strlit("H264Baseline4_2");
        reveal_strlit("h264baseline42");
    }
    reveal_strlit("h264baseline42");
}

proof fn lemma_key_H264Baseline5_0()
    ensures
        spec_key_rank(normalize_name(spec_profile_name(ProfileLevel::H264Baseline5_0)@)) == 10,
{
    assert(normalize_name("H264Baseline5_0"@) =~= "h264baseline50"@) by {
        reveal_with_fuel(normalize_name, 33);
        reveal_strlit("H264Baseline5_0");
        reveal_strlit("h264baseline50");
    }
    reveal_strlit("h264baseline50");
}

proof fn lemma_key_H264Baseline5_1()
    ensures
        spec_key_rank(normalize_name(spec_profile_name(ProfileLevel::H264Baseline5_1)@)) == 11,
{
    assert(normalize_name("H264Baseline5_1"@) =~= "h264baseline51"@) by {
        reveal_with_fuel(normalize_name, 33);
        reveal_strlit("H264Baseline5_1");
        reveal_strlit("h264baseline51");
    }
    reveal_strlit("h264baseline51");
}

proof fn lemma_key_H264Baseline5_2()
    ensures
        spec_key_rank(normalize_name(spec_profile_name(ProfileLevel::H264Baseline5_2)@)) == 12,
{
    assert(normalize_name("H264Baseline5_2"@) =~= "h264baseline52"@) by {
        reveal_with_fuel(normalize_name, 33);
        reveal_strlit("H264Baseline5_2");
        reveal_strlit("h264baseline52");
    }
    reveal_strlit("h264baseline52");
}

proof fn lemma_key_H264BaselineAutoLevel()
    ensures
        spec_key_rank(normalize_name(spec_profile_name(ProfileLevel::H264BaselineAutoLevel)@)) == 13,
{
    assert(normalize_name("H264BaselineAutoLevel"@) =~= "h264baselineautolevel"@) by {
        reveal_with_fuel(normalize_name, 33);
        reveal_strlit("H264BaselineAutoLevel");
        reveal_strlit("h264baselineautolevel");
    }
    reveal_strlit("h264baselineautolevel");
}

proof fn lemma_key_H264ConstrainedBaselineAutoLevel()
    ensures
        spec_key_rank(normalize_name(spec_profile_name(ProfileLevel::H264ConstrainedBaselineAutoLevel)@)) == 14,
{
    assert(normalize_name("H264ConstrainedBaselineAutoLevel"@) =~= "h264constrainedbaselineautolevel"@) by {
        reveal_with_fuel(normalize_name, 33);
        reveal_strlit("H264ConstrainedBaselineAutoLevel");
        reveal_strlit("h264constrainedbaselineautolevel");
    }
    reveal_strlit("h264constrainedbaselineautolevel");
}

proof fn lemma_key_H264ConstrainedHighAutoLevel()
    ensures
        spec_key_rank(normalize_name(spec_profile_name(ProfileLevel::H264ConstrainedHighAutoLevel)@)) == 15,
{
    assert(normalize_name("H264ConstrainedHighAutoLevel"@) =~= "h264constrainedhighautolevel"@) by {
        reveal_with_fuel(normalize_name, 33);
        reveal_strlit("H264ConstrainedHighAutoLevel");
        reveal_strlit("h264constrainedhighautolevel");
    }
    reveal_strlit("h264constrainedhighautolevel");
}

proof fn lemma_key_H264Extended5_0()
    ensures
        spec_key_rank(normalize_name(spec_profile_name(ProfileLevel::H264Extended5_0)@)) == 16,
{
    assert(normalize_name("H264Extended5_0"@) =~= "h264extended50"@) by {
        reveal_with_fuel(normalize_name, 33);
        reveal_strlit("H264Extended5_0");
        reveal_strlit("h264extended50");
    }
    reveal_strlit("h264extended50");
}

proof fn lemma_key_H264ExtendedAutoLevel()
    ensures
        spec_key_rank(normalize_name(spec_profile_name(ProfileLevel::H264ExtendedAutoLevel)@)) == 17,
{
    assert(normalize_name("H264ExtendedAutoLevel"@) =~= "h264extendedautolevel"@) by {
        reveal_with_fuel(normalize_name, 33);
        reveal_strlit("H264ExtendedAutoLevel");
        reveal_strlit("h264extendedautolevel");
    }
    reveal_strlit("h264extendedautolevel");
}

proof fn lemma_key_H264High3_0()
    ensures
        spec_key_rank(normalize_name(spec_profile_name(ProfileLevel::H264High3_0)@)) == 18,
{
    assert(normalize_name("H264High3_0"@) =~= "h264high30"@) by {
        reveal_with_fuel(normalize_name, 33);
        reveal_strlit("H264High3_0");
        reveal_strlit("h264high30");
    }
    reveal_strlit("h264high30");
}

proof fn lemma_key_H264High3_1()
    ensures
        spec_key_rank(normalize_name(spec_profile_name(ProfileLevel::H264High3_1)@)) == 19,
{
    assert(normalize_name("H264High3_1"@) =~= "h264high31"@) by {
        reveal_with_fuel(normalize_name, 33);
        reveal_strlit("H264High3_1");
        reveal_strlit("h264high31");
    }
    reveal_strlit("h264high31");
}

proof fn lemma_key_H264High3_2()
    ensures
        spec_key_rank(normalize_name(spec_profile_name(ProfileLevel::H264High3_2)@)) == 20,
{
    assert(normalize_name("H264High3_2"@) =~= "h264high32"@) by {
        reveal_with_fuel(normalize_name, 33);
        reveal_strlit("H264High3_2");
        reveal_strlit("h264high32");
    }
    reveal_strlit("h264high32");
}

proof fn lemma_key_H264High4_0()
    ensures
        spec_key_rank(normalize_name(spec_profile_name(ProfileLevel::H264High4_0)@)) == 21,
{
    assert(normalize_name("H264High4_0"@) =~= "h264high40"@) by {
        reveal_with_fuel(normalize_name, 33);
        reveal_strlit("H264High4_0");
        reveal_strlit("h264high40");
    }
    reveal_strlit("h264high40");
}

proof fn lemma_key_H264High4_1()
    ensures
        spec_key_rank(normalize_name(spec_profile_name(ProfileLevel::H264High4_1)@)) == 22,
{
    assert(normalize_name("H264High4_1"@) =~= "h264high41"@) by {
        reveal_with_fuel(normalize_name, 33);
        reveal_strlit("H264High4_1");
        reveal_strlit("h264high41");
    }
    reveal_strlit("h264high41");
}

proof fn lemma_key_H264High4_2()
    ensures
        spec_key_rank(normalize_name(spec_profile_name(ProfileLevel::H264High4_2)@)) == 23,
{
    assert(normalize_name("H264High4_2"@) =~= "h264high42"@) by {
        reveal_with_fuel(normalize_name, 33);
        reveal_strlit("H264High4_2");
        reveal_strlit("h264high42");
    }
    reveal_strlit("h264high42");
}

proof fn lemma_key_H264High5_0()
    ensures
        spec_key_rank(normalize_name(spec_profile_name(ProfileLevel::H264High5_0)@)) == 24,
{
    assert(normalize_name("H264High5_0"@) =~= "h264high50"@) by {
        reveal_with_fuel(normalize_name, 33);
        reveal_strlit("H264High5_0");
        reveal_strlit("h264high50");
    }
    reveal_strlit("h264high50");
}

proof fn lemma_key_H264High5_1()
    ensures
        spec_key_rank(normalize_name(spec_profile_name(ProfileLevel::H264High5_1)@)) == 25,
{
    assert(normalize_name("H264High5_1"@) =~= "h264high51"@) by {
        reveal_with_fuel(normalize_name, 33);
        reveal_strlit("H264High5_1");
        reveal_strlit("h264high51");
    }
    reveal_strlit("h264high51");
}

proof fn lemma_key_H264High5_2()
    ensures
        spec_key_rank(normalize_name(spec_profile_name(ProfileLevel::H264High5_2)@)) == 26,
{
    assert(normalize_name("H264High5_2"@) =~= "h264high52"@) by {
        reveal_with_fuel(normalize_name, 33);
        reveal_strlit("H264High5_2");
        reveal_strlit("h264high52");
    }
    reveal_strlit("h264high52");
}

proof fn lemma_key_H264HighAutoLevel()
    ensures
        spec_key_rank(normalize_name(spec_profile_name(ProfileLevel::H264HighAutoLevel)@)) == 27,
{
    assert(normalize_name("H264HighAutoLevel"@) =~= "h264highautolevel"@) by {
        reveal_with_fuel(normalize_name, 33);
        reveal_strlit("H264HighAutoLevel");
        reveal_strlit("h264highautolevel");
    }
    reveal_strlit("h264highautolevel");
}

proof fn lemma_key_H264Main3_0()
    ensures
        spec_key_rank(normalize_name(spec_profile_name(ProfileLevel::H264Main3_0)@)) == 28,
{
    assert(normalize_name("H264Main3_0"@) =~= "h264main30"@) by {
        reveal_with_fuel(normalize_name, 33);
        reveal_strlit("H264Main3_0");
        reveal_strlit("h264main30");
    }
    reveal_strlit("h264main30");
}

proof fn lemma_key_H264Main3_1()
    ensures
        spec_key_rank(normalize_name(spec_profile_name(ProfileLevel::H264Main3_1)@)) == 29,
{
    assert(normalize_name("H264Main3_1"@) =~= "h264main31"@) by {
        reveal_with_fuel(normalize_name, 33);
        reveal_strlit("H264Main3_1");
        reveal_strlit("h264main31");
    }
    reveal_strlit("h264main31");
}

proof fn lemma_key_H264Main3_2()
    ensures
        spec_key_rank(normalize_name(spec_profile_name(ProfileLevel::H264Main3_2)@)) == 30,
{
    assert(normalize_name("H264Main3_2"@) =~= "h264main32"@) by {
        reveal_with_fuel(normalize_name, 33);
        reveal_strlit("H264Main3_2");
        reveal_strlit("h264main32");
    }
    reveal_strlit("h264main32");
}

proof fn lemma_key_H264Main4_0()
    ensures
        spec_key_rank(normalize_name(spec_profile_name(ProfileLevel::H264Main4_0)@)) == 31,
{
    assert(normalize_name("H264Main4_0"@) =~= "h264main40"@) by {
        reveal_with_fuel(normalize_name, 33);
        reveal_strlit("H264Main4_0");
        reveal_strlit("h264main40");
    }
    reveal_strlit("h264main40");
}

proof fn lemma_key_H264Main4_1()
    ensures
        spec_key_rank(normalize_name(spec_profile_name(ProfileLevel::H264Main4_1)@)) == 32,
{
    assert(normalize_name("H264Main4_1"@) =~= "h264main41"@) by {
        reveal_with_fuel(normalize_name, 33);
        reveal_strlit("H264Main4_1");
        reveal_strlit("h264main41");
    }
    reveal_strlit("h264main41");
}

proof fn lemma_key_H264Main4_2()
    ensures
        spec_key_rank(normalize_name(spec_profile_name(ProfileLevel::H264Main4_2)@)) == 33,
{
    assert(normalize_name("H264Main4_2"@) =~= "h264main42"@) by {
        reveal_with_fuel(normalize_name, 33);
        reveal_strlit("H264Main4_2");
        reveal_strlit("h264main42");
    }
    reveal_strlit("h264main42");
}

proof fn lemma_key_H264Main5_0()
    ensures
        spec_key_rank(normalize_name(spec_profile_name(ProfileLevel::H264Main5_0)@)) == 34,
{
    assert(normalize_name("H264Main5_0"@) =~= "h264main50"@) by {
        reveal_with_fuel(normalize_name, 33);
        reveal_strlit("H264Main5_0");
        reveal_strlit("h264main50");
    }
    reveal_strlit("h264main50");
}

proof fn lemma_key_H264Main5_1()
    ensures
        spec_key_rank(normalize_name(spec_profile_name(ProfileLevel::H264Main5_1)@)) == 35,
{
    assert(normalize_name("H264Main5_1"@) =~= "h264main51"@) by {
        reveal_with_fuel(normalize_name, 33);
        reveal_strlit("H264Main5_1");
        reveal_strlit("h264main51");
    }
    reveal_strlit("h264main51");
}

proof fn lemma_key_H264Main5_2()
    ensures
        spec_key_rank(normalize_name(spec_profile_name(ProfileLevel::H264Main5_2)@)) == 36,
{
    assert(normalize_name("H264Main5_2"@) =~= "h264main52"@) by {
        reveal_with_fuel(normalize_name, 33);
        reveal_strlit("H264Main5_2");
        reveal_strlit("h264main52");
    }
    reveal_strlit("h264main52");
}

proof fn lemma_key_H264MainAutoLevel()
    ensures
        spec_key_rank(normalize_name(spec_profile_name(ProfileLevel::H264MainAutoLevel)@)) == 37,
{
    assert(normalize_name("H264MainAutoLevel"@) =~= "h264mainautolevel"@) by {
        reveal_with_fuel(normalize_name, 33);
        reveal_strlit("H264MainAutoLevel");
        reveal_strlit("h264mainautolevel");
    }
    reveal_strlit("h264mainautolevel");
}

proof fn lemma_key_HEVCMainAutoLevel()
    ensures
        spec_key_rank(normalize_name(spec_profile_name(ProfileLevel::HEVCMainAutoLevel)@)) == 38,
{
    assert(normalize_name("HEVCMainAutoLevel"@) =~= "hevcmainautolevel"@) by {
        reveal_with_fuel(normalize_name, 33);
        reveal_strlit("HEVCMainAutoLevel");
        reveal_strlit("hevcmainautolevel");
    }
    reveal_strlit("hevcmainautolevel");
}

proof fn lemma_key_HEVCMain10AutoLevel()
    ensures
        spec_key_rank(normalize_name(spec_profile_name(ProfileLevel::HEVCMain10AutoLevel)@)) == 39,
{
    assert(normalize_name("HEVCMain10AutoLevel"@) =~= "hevcmain10autolevel"@) by {
        reveal_with_fuel(normalize_name, 33);
        reveal_strlit("HEVCMain10AutoLevel");
        reveal_strlit("hevcmain10autolevel");
    }
    reveal_strlit("hevcmain10autolevel");
}

proof fn lemma_key_HEVCMain42210AutoLevel()
    ensures
        spec_key_rank(normalize_name(spec_profile_name(ProfileLevel::HEVCMain42210AutoLevel)@)) == 40,
{
    assert(normalize_name("HEVCMain42210AutoLevel"@) =~= "hevcmain42210autolevel"@) by {
        reveal_with_fuel(normalize_name, 33);
        reveal_strlit("HEVCMain42210AutoLevel");
        reveal_strlit("hevcmain42210autolevel");
    }
    reveal_strlit("hevcmain42210autolevel");
}

proof fn lemma_key_HEVCMonochromeAutoLevel()
    ensures
        spec_key_rank(normalize_name(spec_profile_name(ProfileLevel::HEVCMonochromeAutoLevel)@)) == 41,
{
    assert(normalize_name("HEVCMonochromeAutoLevel"@) =~= "hevcmonochromeautolevel"@) by {
        reveal_with_fuel(normalize_name, 33);
        reveal_strlit("HEVCMonochromeAutoLevel");
        reveal_strlit("hevcmonochromeautolevel");
    }
    reveal_strlit("hevcmonochromeautolevel");
}

proof fn lemma_key_HEVCMonochrome10AutoLevel()
    ensures
        spec_key_rank(normalize_name(spec_profile_name(ProfileLevel::HEVCMonochrome10AutoLevel)@)) == 42,
{
    assert(normalize_name("HEVCMonochrome10AutoLevel"@) =~= "hevcmonochrome10autolevel"@) by {
        reveal_with_fuel(normalize_name, 33);
        reveal_strlit("HEVCMonochrome10AutoLevel");
        reveal_strlit("hevcmonochrome10autolevel");
    }
    reveal_strlit("hevcmonochrome10autolevel");
}

proof fn lemma_key_MP4VAdvancedSimpleL0()
    ensures
        spec_key_rank(normalize_name(spec_profile_name(ProfileLevel::MP4VAdvancedSimpleL0)@)) == 43,
{
    assert(normalize_name("MP4VAdvancedSimpleL0"@) =~= "mp4vadvancedsimplel0"@) by {
        reveal_with_fuel(normalize_name, 33);
        reveal_strlit("MP4VAdvancedSimpleL0");
        reveal_strlit("mp4vadvancedsimplel0");
    }
    reveal_strlit("mp4vadvancedsimplel0");
}

proof fn lemma_key_MP4VAdvancedSimpleL1()
    ensures
        spec_key_rank(normalize_name(spec_profile_name(ProfileLevel::MP4VAdvancedSimpleL1)@)) == 44,
{
    assert(normalize_name("MP4VAdvancedSimpleL1"@) =~= "mp4vadvancedsimplel1"@) by {
        reveal_with_fuel(normalize_name, 33);
        reveal_strlit("MP4VAdvancedSimpleL1");
        reveal_strlit("mp4vadvancedsimplel1");
    }
    reveal_strlit("mp4vadvancedsimplel1");
}

proof fn lemma_key_MP4VAdvancedSimpleL2()
    ensures
        spec_key_rank(normalize_name(spec_profile_name(ProfileLevel::MP4VAdvancedSimpleL2)@)) == 45,
{
    assert(normalize_name("MP4VAdvancedSimpleL2"@) =~= "mp4vadvancedsimplel2"@) by {
        reveal_with_fuel(normalize_name, 33);
        reveal_strlit("MP4VAdvancedSimpleL2");
        reveal_strlit("mp4vadvancedsimplel2");
    }
    reveal_strlit("mp4vadvancedsimplel2");
}

proof fn lemma_key_MP4VAdvancedSimpleL3()
    ensures
        spec_key_rank(normalize_name(spec_profile_name(ProfileLevel::MP4VAdvancedSimpleL3)@)) == 46,
{
    assert(normalize_name("MP4VAdvancedSimpleL3"@) =~= "mp4vadvancedsimplel3"@) by {
        reveal_with_fuel(normalize_name, 33);
        reveal_strlit("MP4VAdvancedSimpleL3");
        reveal_strlit("mp4vadvancedsimplel3");
    }
    reveal_strlit("mp4vadvancedsimplel3");
}

proof fn lemma_key_MP4VAdvancedSimpleL4()
    ensures
        spec_key_rank(normalize_name(spec_profile_name(ProfileLevel::MP4VAdvancedSimpleL4)@)) == 47,
{
    assert(normalize_name("MP4VAdvancedSimpleL4"@) =~= "mp4vadvancedsimplel4"@) by {
        reveal_with_fuel(normalize_name, 33);
        reveal_strlit("MP4VAdvancedSimpleL4");
        reveal_strlit("mp4vadvancedsimplel4");
    }
    reveal_strlit("mp4vadvancedsimplel4");
}

proof fn lemma_key_MP4VMainL2()
    ensures
        spec_key_rank(normalize_name(spec_profile_name(ProfileLevel::MP4VMainL2)@)) == 48,
{
    assert(normalize_name("MP4VMainL2"@) =~= "mp4vmainl2"@) by {
        reveal_with_fuel(normalize_name, 33);
        reveal_strlit("MP4VMainL2");
        reveal_strlit("mp4vmainl2");
    }
    reveal_strlit("mp4vmainl2");
}

proof fn lemma_key_MP4VMainL3()
    ensures
        spec_key_rank(normalize_name(spec_profile_name(ProfileLevel::MP4VMainL3)@)) == 49,
{
    assert(normalize_name("MP4VMainL3"@) =~= "mp4vmainl3"@) by {
        reveal_with_fuel(normalize_name, 33);
        reveal_strlit("MP4VMainL3");
        reveal_strlit("mp4vmainl3");
    }
    reveal_strlit("mp4vmainl3");
}

proof fn lemma_key_MP4VMainL4()
    ensures
        spec_key_rank(normalize_name(spec_profile_name(ProfileLevel::MP4VMainL4)@)) == 50,
{
    assert(normalize_name("MP4VMainL4"@) =~= "mp4vmainl4"@) by {
        reveal_with_fuel(normalize_name, 33);
        reveal_strlit("MP4VMainL4");
        reveal_strlit("mp4vmainl4");
    }
    reveal_strlit("mp4vmainl4");
}

proof fn lemma_key_MP4VSimpleL0()
    ensures
        spec_key_rank(normalize_name(spec_profile_name(ProfileLevel::MP4VSimpleL0)@)) == 51,
{
    assert(normalize_name("MP4VSimpleL0"@) =~= "mp4vsimplel0"@) by {
        reveal_with_fuel(normalize_name, 33);
        reveal_strlit("MP4VSimpleL0");
        reveal_strlit("mp4vsimplel0");
    }
    reveal_strlit("mp4vsimplel0");
}

proof fn lemma_key_MP4VSimpleL1()
    ensures
        spec_key_rank(normalize_name(spec_profile_name(ProfileLevel::MP4VSimpleL1)@)) == 52,
{
    assert(normalize_name("MP4VSimpleL1"@) =~= "mp4vsimplel1"@) by {
        reveal_with_fuel(normalize_name, 33);
        reveal_strlit("MP4VSimpleL1");
        reveal_strlit("mp4vsimplel1");
    }
    reveal_strlit("mp4vsimplel1");
}

proof fn lemma_key_MP4VSimpleL2()
    ensures
        spec_key_rank(normalize_name(spec_profile_name(ProfileLevel::MP4VSimpleL2)@)) == 53,
{
    assert(normalize_name("MP4VSimpleL2"@) =~= "mp4vsimplel2"@) by {
        reveal_with_fuel(normalize_name, 33);
        reveal_strlit("MP4VSimpleL2");
        reveal_strlit("mp4vsimplel2");
    }
    reveal_strlit("mp4vsimplel2");
}

proof fn lemma_key_MP4VSimpleL3()
    ensures
        spec_key_rank(normalize_name(spec_profile_name(ProfileLevel::MP4VSimpleL3)@)) == 54,
{
    assert(normalize_name("MP4VSimpleL3"@) =~= "mp4vsimplel3"@) by {
        reveal_with_fuel(normalize_name, 33);
        reveal_strlit("MP4VSimpleL3");
        reveal_strlit("mp4vsimplel3");
    }
    reveal_strlit("mp4vsimplel3");
}

/// Each profile's name normalizes to a lookup key that ranks back to the
/// profile's declaration index.
pub(crate) proof fn lemma_profile_key_rank(p: ProfileLevel)
    ensures
        spec_key_rank(normalize_name(spec_profile_name(p)@)) == spec_profile_index(p),
{
    match p {
        ProfileLevel::H263Profile0Level10 => lemma_key_H263Profile0Level10(),
        ProfileLevel::H263Profile0Level45 => lemma_key_H263Profile0Level45(),
        ProfileLevel::H263Profile3Level45 => lemma_key_H263Profile3Level45(),
        ProfileLevel::H264Baseline1_3 => lemma_key_H264Baseline1_3(),
        ProfileLevel::H264Baseline3_0 => lemma_key_H264Baseline3_0(),
        ProfileLevel::H264Baseline3_1 => lemma_key_H264Baseline3_1(),
        ProfileLevel::H264Baseline3_2 => lemma_key_H264Baseline3_2(),
        ProfileLevel::H264Baseline4_0 => lemma_key_H264Baseline4_0(),
        ProfileLevel::H264Baseline4_1 => lemma_key_H264Baseline4_1(),
        ProfileLevel::H264Baseline4_2 => lemma_key_H264Baseline4_2(),
        ProfileLevel::H264Baseline5_0 => lemma_key_H264Baseline5_0(),
        ProfileLevel::H264Baseline5_1 => lemma_key_H264Baseline5_1(),
        ProfileLevel::H264Baseline5_2 => lemma_key_H264Baseline5_2(),
        ProfileLevel::H264BaselineAutoLevel => lemma_key_H264BaselineAutoLevel(),
        ProfileLevel::H264ConstrainedBaselineAutoLevel => lemma_key_H264ConstrainedBaselineAutoLevel(),
        ProfileLevel::H264ConstrainedHighAutoLevel => lemma_key_H264ConstrainedHighAutoLevel(),
        ProfileLevel::H264Extended5_0 => lemma_key_H264Extended5_0(),
        ProfileLevel::H264ExtendedAutoLevel => lemma_key_H264ExtendedAutoLevel(),
        ProfileLevel::H264High3_0 => lemma_key_H264High3_0(),
        ProfileLevel::H264High3_1 => lemma_key_H264High3_1(),
        ProfileLevel::H264High3_2 => lemma_key_H264High3_2(),
        ProfileLevel::H264High4_0 => lemma_key_H264High4_0(),
        ProfileLevel::H264High4_1 => lemma_key_H264High4_1(),
        ProfileLevel::H264High4_2 => lemma_key_H264High4_2(),
        ProfileLevel::H264High5_0 => lemma_key_H264High5_0(),
        ProfileLevel::H264High5_1 => lemma_key_H264High5_1(),
        ProfileLevel::H264High5_2 => lemma_key_H264High5_2(),
        ProfileLevel::H264HighAutoLevel => lemma_key_H264HighAutoLevel(),
        ProfileLevel::H264Main3_0 => lemma_key_H264Main3_0(),
        ProfileLevel::H264Main3_1 => lemma_key_H264Main3_1(),
        ProfileLevel::H264Main3_2 => lemma_key_H264Main3_2(),
        ProfileLevel::H264Main4_0 => lemma_key_H264Main4_0(),
        ProfileLevel::H264Main4_1 => lemma_key_H264Main4_1(),
        ProfileLevel::H264Main4_2 => lemma_key_H264Main4_2(),
        ProfileLevel::H264Main5_0 => lemma_key_H264Main5_0(),
        ProfileLevel::H264Main5_1 => lemma_key_H264Main5_1(),
        ProfileLevel::H264Main5_2 => lemma_key_H264Main5_2(),
        ProfileLevel::H264MainAutoLevel => lemma_key_H264MainAutoLevel(),
        ProfileLevel::HEVCMainAutoLevel => lemma_key_HEVCMainAutoLevel(),
        ProfileLevel::HEVCMain10AutoLevel => lemma_key_HEVCMain10AutoLevel(),
        ProfileLevel::HEVCMain42210AutoLevel => lemma_key_HEVCMain42210AutoLevel(),
        ProfileLevel::HEVCMonochromeAutoLevel => lemma_key_HEVCMonochromeAutoLevel(),
        ProfileLevel::HEVCMonochrome10AutoLevel => lemma_key_HEVCMonochrome10AutoLevel(),
        ProfileLevel::MP4VAdvancedSimpleL0 => lemma_key_MP4VAdvancedSimpleL0(),
        ProfileLevel::MP4VAdvancedSimpleL1 => lemma_key_MP4VAdvancedSimpleL1(),
        ProfileLevel::MP4VAdvancedSimpleL2 => lemma_key_MP4VAdvancedSimpleL2(),
        ProfileLevel::MP4VAdvancedSimpleL3 => lemma_key_MP4VAdvancedSimpleL3(),
        ProfileLevel::MP4VAdvancedSimpleL4 => lemma_key_MP4VAdvancedSimpleL4(),
        ProfileLevel::MP4VMainL2 => lemma_key_MP4VMainL2(),
        ProfileLevel::MP4VMainL3 => lemma_key_MP4VMainL3(),
        ProfileLevel::MP4VMainL4 => lemma_key_MP4VMainL4(),
        ProfileLevel::MP4VSimpleL0 => lemma_key_MP4VSimpleL0(),
        ProfileLevel::MP4VSimpleL1 => lemma_key_MP4VSimpleL1(),
        ProfileLevel::MP4VSimpleL2 => lemma_key_MP4VSimpleL2(),
        ProfileLevel::MP4VSimpleL3 => lemma_key_MP4VSimpleL3(),
    }
}

/// Declaration order and position agree both ways.
proof fn lemma_profile_index_at(k: int)
    requires
        0 <= k < 55,
    ensures
        spec_profile_index(spec_profile_at(k)) == k,
{
}

/// Declaration order and position agree both ways.
pub(crate) proof fn lemma_profile_at_index(p: ProfileLevel)
    ensures
        0 <= spec_profile_index(p) < 55,
        spec_profile_at(spec_profile_index(p)) == p,
{
}

/// The search from `i` stops at `j` when the profile at `j` is the first one
/// from `i` on whose name normalizes to `key`.
proof fn lemma_find_profile(i: int, j: int, key: Seq<char>)
    requires
        0 <= i <= j < 55,
        normalize_name(spec_profile_name(spec_profile_at(j))@) == key,
        forall|k: int| i <= k < j ==> normalize_name(spec_profile_name(spec_profile_at(k))@) != key,
    ensures
        find_profile_from(i, key) == Some(spec_profile_at(j)),
    decreases j - i,
{
    if i < j {
        lemma_find_profile(i + 1, j, key);
    }
}

/// Looking a profile level up by its own name finds that profile level.
pub proof fn lemma_profile_name_round_trip(p: ProfileLevel)
    ensures
        spec_profile_from_name(spec_profile_name(p)@) == Some(p),
{
    let key = normalize_name(spec_profile_name(p)@);
    let j = spec_profile_index(p);
    lemma_profile_at_index(p);
    lemma_profile_key_rank(p);
    assert forall|k: int| 0 <= k < j implies normalize_name(
        spec_profile_name(spec_profile_at(k))@,
    ) != key by {
        lemma_profile_index_at(k);
        lemma_profile_key_rank(spec_profile_at(k));
    }
    lemma_find_profile(0, j, key);
}

/// Lookup ignores ASCII case and every character that is not an ASCII
/// letter or digit: two names with the same letters and digits, case aside,
/// find the same profile level (or both find none).
pub proof fn lemma_lookup_ignores_case_and_separators(a: Seq<char>, b: Seq<char>)
    requires
        normalize_name(a) == normalize_name(b),
    ensures
        spec_profile_from_name(a) == spec_profile_from_name(b),
{
}

} // verus!
