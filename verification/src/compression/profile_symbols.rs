//! The SDK symbol each profile level is configured with, proved to spell
//! the profile level's own name.

use vstd::prelude::*;
use crate::compression::{
    ascii_lowercase, is_ascii_alphanumeric, normalize_name, spec_profile_name, spec_profile_symbol, ProfileLevel,
};
use crate::compression::profile_keys::{lemma_profile_at_index, lemma_profile_key_rank};

verus! {

/// Normalizing a concatenation normalizes each part.
proof fn lemma_normalize_concat(a: Seq<char>, b: Seq<char>)
    ensures
        normalize_name(a + b) == normalize_name(a) + normalize_name(b),
    decreases b.len(),
{
    if b.len() == 0 {
        assert(a + b =~= a);
        assert(normalize_name(b) =~= Seq::<char>::empty());
        assert(normalize_name(a) + normalize_name(b) =~= normalize_name(a));
    } else {
        lemma_normalize_concat(a, b.drop_last());
        assert((a + b).drop_last() =~= a + b.drop_last());
        assert((a + b).last() == b.last());
        let c = b.last();
        if is_ascii_alphanumeric(c) {
            assert(normalize_name(a) + normalize_name(b.drop_last()).push(ascii_lowercase(c))
                =~= (normalize_name(a) + normalize_name(b.drop_last())).push(ascii_lowercase(c)));
        }
    }
}

/// The prefix every profile-level symbol starts with, normalized.
proof fn lemma_normalize_prefix()
    ensures
        normalize_name("kVTProfileLevel_"@) == "kvtprofilelevel"@,
{
    assert(normalize_name("kVTProfileLevel_"@) =~= "kvtprofilelevel"@) by {
        reveal_with_fuel(normalize_name, 18);
        reveal_strlit("kVTProfileLevel_");
        reveal_strlit("kvtprofilelevel");
    }
}

// The normalized text of each profile's symbol and name, one profile at a time.
#[verifier::spinoff_prover]
#[verifier::rlimit(50)]
proof fn lemma_symbol_H263Profile0Level10()
    ensures
        spec_profile_symbol(ProfileLevel::H263Profile0Level10)@.subrange(0, 16) == "kVTProfileLevel_"@,
        normalize_name(spec_profile_symbol(ProfileLevel::H263Profile0Level10)@) == "kvtprofilelevel"@
            + normalize_name(spec_profile_name(ProfileLevel::H263Profile0Level10)@),
{
    assert(normalize_name("H263Profile0Level10"@) =~= "h263profile0level10"@) by {
        reveal_with_fuel(normalize_name, 21);
        reveal_strlit("H263Profile0Level10");
        reveal_strlit("h263profile0level10");
    }
    assert(normalize_name("H263_Profile0_Level10"@) =~= "h263profile0level10"@) by {
        reveal_with_fuel(normalize_name, 23);
        reveal_strlit("H263_Profile0_Level10");
        reveal_strlit("h263profile0level10");
    }
    assert("kVTProfileLevel_H263_Profile0_Level10"@ =~= "kVTProfileLevel_"@ + "H263_Profile0_Level10"@) by {
        reveal_strlit("kVTProfileLevel_H263_Profile0_Level10");
        reveal_strlit("kVTProfileLevel_");
        reveal_strlit("H263_Profile0_Level10");
    }
    assert("kVTProfileLevel_H263_Profile0_Level10"@.subrange(0, 16) =~= "kVTProfileLevel_"@) by {
        reveal_strlit("kVTProfileLevel_H263_Profile0_Level10");
        reveal_strlit("kVTProfileLevel_");
    }
    lemma_normalize_concat("kVTProfileLevel_"@, "H263_Profile0_Level10"@);
    lemma_normalize_prefix();
}

#[verifier::spinoff_prover]
#[verifier::rlimit(50)]
proof fn lemma_symbol_H263Profile0Level45()
    ensures
        spec_profile_symbol(ProfileLevel::H263Profile0Level45)@.subrange(0, 16) == "kVTProfileLevel_"@,
        normalize_name(spec_profile_symbol(ProfileLevel::H263Profile0Level45)@) == "kvtprofilelevel"@
            + normalize_name(spec_profile_name(ProfileLevel::H263Profile0Level45)@),
{
    assert(normalize_name("H263Profile0Level45"@) =~= "h263profile0level45"@) by {
        reveal_with_fuel(normalize_name, 21);
        reveal_strlit("H263Profile0Level45");
        reveal_strlit("h263profile0level45");
    }
    assert(normalize_name("H263_Profile0_Level45"@) =~= "h263profile0level45"@) by {
        reveal_with_fuel(normalize_name, 23);
        reveal_strlit("H263_Profile0_Level45");
        reveal_strlit("h263profile0level45");
    }
    assert("kVTProfileLevel_H263_Profile0_Level45"@ =~= "kVTProfileLevel_"@ + "H263_Profile0_Level45"@) by {
        reveal_strlit("kVTProfileLevel_H263_Profile0_Level45");
        reveal_strlit("kVTProfileLevel_");
        reveal_strlit("H263_Profile0_Level45");
    }
    assert("kVTProfileLevel_H263_Profile0_Level45"@.subrange(0, 16) =~= "kVTProfileLevel_"@) by {
        reveal_strlit("kVTProfileLevel_H263_Profile0_Level45");
        reveal_strlit("kVTProfileLevel_");
    }
    lemma_normalize_concat("kVTProfileLevel_"@, "H263_Profile0_Level45"@);
    lemma_normalize_prefix();
}

#[verifier::spinoff_prover]
#[verifier::rlimit(50)]
proof fn lemma_symbol_H263Profile3Level45()
    ensures
        spec_profile_symbol(ProfileLevel::H263Profile3Level45)@.subrange(0, 16) == "kVTProfileLevel_"@,
        normalize_name(spec_profile_symbol(ProfileLevel::H263Profile3Level45)@) == "kvtprofilelevel"@
            + normalize_name(spec_profile_name(ProfileLevel::H263Profile3Level45)@),
{
    assert(normalize_name("H263Profile3Level45"@) =~= "h263profile3level45"@) by {
        reveal_with_fuel(normalize_name, 21);
        reveal_strlit("H263Profile3Level45");
        reveal_strlit("h263profile3level45");
    }
    assert(normalize_name("H263_Profile3_Level45"@) =~= "h263profile3level45"@) by {
        reveal_with_fuel(normalize_name, 23);
        reveal_strlit("H263_Profile3_Level45");
        reveal_strlit("h263profile3level45");
    }
    assert("kVTProfileLevel_H263_Profile3_Level45"@ =~= "kVTProfileLevel_"@ + "H263_Profile3_Level45"@) by {
        reveal_strlit("kVTProfileLevel_H263_Profile3_Level45");
        reveal_strlit("kVTProfileLevel_");
        reveal_strlit("H263_Profile3_Level45");
    }
    assert("kVTProfileLevel_H263_Profile3_Level45"@.subrange(0, 16) =~= "kVTProfileLevel_"@) by {
        reveal_strlit("kVTProfileLevel_H263_Profile3_Level45");
        reveal_strlit("kVTProfileLevel_");
    }
    lemma_normalize_concat("kVTProfileLevel_"@, "H263_Profile3_Level45"@);
    lemma_normalize_prefix();
}

#[verifier::spinoff_prover]
#[verifier::rlimit(50)]
proof fn lemma_symbol_H264Baseline1_3()
    ensures
        spec_profile_symbol(ProfileLevel::H264Baseline1_3)@.subrange(0, 16) == "kVTProfileLevel_"@,
        normalize_name(spec_profile_symbol(ProfileLevel::H264Baseline1_3)@) == "kvtprofilelevel"@
            + normalize_name(spec_profile_name(ProfileLevel::H264Baseline1_3)@),
{
    assert(normalize_name("H264Baseline1_3"@) =~= "h264baseline13"@) by {
        reveal_with_fuel(normalize_name, 17);
        reveal_strlit("H264Baseline1_3");
        reveal_strlit("h264baseline13");
    }
    assert(normalize_name("H264_Baseline_1_3"@) =~= "h264baseline13"@) by {
        reveal_with_fuel(normalize_name, 19);
        reveal_strlit("H264_Baseline_1_3");
        reveal_strlit("h264baseline13");
    }
    assert("kVTProfileLevel_H264_Baseline_1_3"@ =~= "kVTProfileLevel_"@ + "H264_Baseline_1_3"@) by {
        reveal_strlit("kVTProfileLevel_H264_Baseline_1_3");
        reveal_strlit("kVTProfileLevel_");
        reveal_strlit("H264_Baseline_1_3");
    }
    assert("kVTProfileLevel_H264_Baseline_1_3"@.subrange(0, 16) =~= "kVTProfileLevel_"@) by {
        reveal_strlit("kVTProfileLevel_H264_Baseline_1_3");
        reveal_strlit("kVTProfileLevel_");
    }
    lemma_normalize_concat("kVTProfileLevel_"@, "H264_Baseline_1_3"@);
    lemma_normalize_prefix();
}

#[verifier::spinoff_prover]
#[verifier::rlimit(50)]
proof fn lemma_symbol_H264Baseline3_0()
    ensures
        spec_profile_symbol(ProfileLevel::H264Baseline3_0)@.subrange(0, 16) == "kVTProfileLevel_"@,
        normalize_name(spec_profile_symbol(ProfileLevel::H264Baseline3_0)@) == "kvtprofilelevel"@
            + normalize_name(spec_profile_name(ProfileLevel::H264Baseline3_0)@),
{
    assert(normalize_name("H264Baseline3_0"@) =~= "h264baseline30"@) by {
        reveal_with_fuel(normalize_name, 17);
        reveal_strlit("H264Baseline3_0");
        reveal_strlit("h264baseline30");
    }
    assert(normalize_name("H264_Baseline_3_0"@) =~= "h264baseline30"@) by {
        reveal_with_fuel(normalize_name, 19);
        reveal_strlit("H264_Baseline_3_0");
        reveal_strlit("h264baseline30");
    }
    assert("kVTProfileLevel_H264_Baseline_3_0"@ =~= "kVTProfileLevel_"@ + "H264_Baseline_3_0"@) by {
        reveal_strlit("kVTProfileLevel_H264_Baseline_3_0");
        reveal_strlit("kVTProfileLevel_");
        reveal_strlit("H264_Baseline_3_0");
    }
    assert("kVTProfileLevel_H264_Baseline_3_0"@.subrange(0, 16) =~= "kVTProfileLevel_"@) by {
        reveal_strlit("kVTProfileLevel_H264_Baseline_3_0");
        reveal_strlit("kVTProfileLevel_");
    }
    lemma_normalize_concat("kVTProfileLevel_"@, "H264_Baseline_3_0"@);
    lemma_normalize_prefix();
}

#[verifier::spinoff_prover]
#[verifier::rlimit(50)]
proof fn lemma_symbol_H264Baseline3_1()
    ensures
        spec_profile_symbol(ProfileLevel::H264Baseline3_1)@.subrange(0, 16) == "kVTProfileLevel_"@,
        normalize_name(spec_profile_symbol(ProfileLevel::H264Baseline3_1)@) == "kvtprofilelevel"@
            + normalize_name(spec_profile_name(ProfileLevel::H264Baseline3_1)@),
{
    assert(normalize_name("H264Baseline3_1"@) =~= "h264baseline31"@) by {
        reveal_with_fuel(normalize_name, 17);
        reveal_strlit("H264Baseline3_1");
        reveal_strlit("h264baseline31");
    }
    assert(normalize_name("H264_Baseline_3_1"@) =~= "h264baseline31"@) by {
        reveal_with_fuel(normalize_name, 19);
        reveal_strlit("H264_Baseline_3_1");
        reveal_strlit("h264baseline31");
    }
    assert("kVTProfileLevel_H264_Baseline_3_1"@ =~= "kVTProfileLevel_"@ + "H264_Baseline_3_1"@) by {
        reveal_strlit("kVTProfileLevel_H264_Baseline_3_1");
        reveal_strlit("kVTProfileLevel_");
        reveal_strlit("H264_Baseline_3_1");
    }
    assert("kVTProfileLevel_H264_Baseline_3_1"@.subrange(0, 16) =~= "kVTProfileLevel_"@) by {
        reveal_strlit("kVTProfileLevel_H264_Baseline_3_1");
        reveal_strlit("kVTProfileLevel_");
    }
    lemma_normalize_concat("kVTProfileLevel_"@, "H264_Baseline_3_1"@);
    lemma_normalize_prefix();
}

#[verifier::spinoff_prover]
#[verifier::rlimit(50)]
proof fn lemma_symbol_H264Baseline3_2()
    ensures
        spec_profile_symbol(ProfileLevel::H264Baseline3_2)@.subrange(0, 16) == "kVTProfileLevel_"@,
        normalize_name(spec_profile_symbol(ProfileLevel::H264Baseline3_2)@) == "kvtprofilelevel"@
            + normalize_name(spec_profile_name(ProfileLevel::H264Baseline3_2)@),
{
    assert(normalize_name("H264Baseline3_2"@) =~= "h264baseline32"@) by {
        reveal_with_fuel(normalize_name, 17);
        reveal_strlit("H264Baseline3_2");
        reveal_strlit("h264baseline32");
    }
    assert(normalize_name("H264_Baseline_3_2"@) =~= "h264baseline32"@) by {
        reveal_with_fuel(normalize_name, 19);
        reveal_strlit("H264_Baseline_3_2");
        reveal_strlit("h264baseline32");
    }
    assert("kVTProfileLevel_H264_Baseline_3_2"@ =~= "kVTProfileLevel_"@ + "H264_Baseline_3_2"@) by {
        reveal_strlit("kVTProfileLevel_H264_Baseline_3_2");
        reveal_strlit("kVTProfileLevel_");
        reveal_strlit("H264_Baseline_3_2");
    }
    assert("kVTProfileLevel_H264_Baseline_3_2"@.subrange(0, 16) =~= "kVTProfileLevel_"@) by {
        reveal_strlit("kVTProfileLevel_H264_Baseline_3_2");
        reveal_strlit("kVTProfileLevel_");
    }
    lemma_normalize_concat("kVTProfileLevel_"@, "H264_Baseline_3_2"@);
    lemma_normalize_prefix();
}

#[verifier::spinoff_prover]
#[verifier::rlimit(50)]
proof fn lemma_symbol_H264Baseline4_0()
    ensures
        spec_profile_symbol(ProfileLevel::H264Baseline4_0)@.subrange(0, 16) == "kVTProfileLevel_"@,
        normalize_name(spec_profile_symbol(ProfileLevel::H264Baseline4_0)@) == "kvtprofilelevel"@
            + normalize_name(spec_profile_name(ProfileLevel::H264Baseline4_0)@),
{
    assert(normalize_name("H264Baseline4_0"@) =~= "h264baseline40"@) by {
        reveal_with_fuel(normalize_name, 17);
        reveal_strlit("H264Baseline4_0");
        reveal_strlit("h264baseline40");
    }
    assert(normalize_name("H264_Baseline_4_0"@) =~= "h264baseline40"@) by {
        reveal_with_fuel(normalize_name, 19);
        reveal_strlit("H264_Baseline_4_0");
        reveal_strlit("h264baseline40");
    }
    assert("kVTProfileLevel_H264_Baseline_4_0"@ =~= "kVTProfileLevel_"@ + "H264_Baseline_4_0"@) by {
        reveal_strlit("kVTProfileLevel_H264_Baseline_4_0");
        reveal_strlit("kVTProfileLevel_");
        reveal_strlit("H264_Baseline_4_0");
    }
    assert("kVTProfileLevel_H264_Baseline_4_0"@.subrange(0, 16) =~= "kVTProfileLevel_"@) by {
        reveal_strlit("kVTProfileLevel_H264_Baseline_4_0");
        reveal_strlit("kVTProfileLevel_");
    }
    lemma_normalize_concat("kVTProfileLevel_"@, "H264_Baseline_4_0"@);
    lemma_normalize_prefix();
}

#[verifier::spinoff_prover]
#[verifier::rlimit(50)]
proof fn lemma_symbol_H264Baseline4_1()
    ensures
        spec_profile_symbol(ProfileLevel::H264Baseline4_1)@.subrange(0, 16) == "kVTProfileLevel_"@,
        normalize_name(spec_profile_symbol(ProfileLevel::H264Baseline4_1)@) == "kvtprofilelevel"@
            + normalize_name(spec_profile_name(ProfileLevel::H264Baseline4_1)@),
{
    assert(normalize_name("H264Baseline4_1"@) =~= "h264baseline41"@) by {
        reveal_with_fuel(normalize_name, 17);
        reveal_strlit("H264Baseline4_1");
        reveal_strlit("h264baseline41");
    }
    assert(normalize_name("H264_Baseline_4_1"@) =~= "h264baseline41"@) by {
        reveal_with_fuel(normalize_name, 19);
        reveal_strlit("H264_Baseline_4_1");
        reveal_strlit("h264baseline41");
    }
    assert("kVTProfileLevel_H264_Baseline_4_1"@ =~= "kVTProfileLevel_"@ + "H264_Baseline_4_1"@) by {
        reveal_strlit("kVTProfileLevel_H264_Baseline_4_1");
        reveal_strlit("kVTProfileLevel_");
        reveal_strlit("H264_Baseline_4_1");
    }
    assert("kVTProfileLevel_H264_Baseline_4_1"@.subrange(0, 16) =~= "kVTProfileLevel_"@) by {
        reveal_strlit("kVTProfileLevel_H264_Baseline_4_1");
        reveal_strlit("kVTProfileLevel_");
    }
    lemma_normalize_concat("kVTProfileLevel_"@, "H264_Baseline_4_1"@);
    lemma_normalize_prefix();
}

#[verifier::spinoff_prover]
#[verifier::rlimit(50)]
proof fn lemma_symbol_H264Baseline4_2()
    ensures
        spec_profile_symbol(ProfileLevel::H264Baseline4_2)@.subrange(0, 16) == "kVTProfileLevel_"@,
        normalize_name(spec_profile_symbol(ProfileLevel::H264Baseline4_2)@) == "kvtprofilelevel"@
            + normalize_name(spec_profile_name(ProfileLevel::H264Baseline4_2)@),
{
    assert(normalize_name("H264Baseline4_2"@) =~= "h264baseline42"@) by {
        reveal_with_fuel(normalize_name, 17);
        reveal_strlit("H264Baseline4_2");
        reveal_strlit("h264baseline42");
    }
    assert(normalize_name("H264_Baseline_4_2"@) =~= "h264baseline42"@) by {
        reveal_with_fuel(normalize_name, 19);
        reveal_strlit("H264_Baseline_4_2");
        reveal_strlit("h264baseline42");
    }
    assert("kVTProfileLevel_H264_Baseline_4_2"@ =~= "kVTProfileLevel_"@ + "H264_Baseline_4_2"@) by {
        reveal_strlit("kVTProfileLevel_H264_Baseline_4_2");
        reveal_strlit("kVTProfileLevel_");
        reveal_strlit("H264_Baseline_4_2");
    }
    assert("kVTProfileLevel_H264_Baseline_4_2"@.subrange(0, 16) =~= "kVTProfileLevel_"@) by {
        reveal_strlit("kVTProfileLevel_H264_Baseline_4_2");
        reveal_strlit("kVTProfileLevel_");
    }
    lemma_normalize_concat("kVTProfileLevel_"@, "H264_Baseline_4_2"@);
    lemma_normalize_prefix();
}

#[verifier::spinoff_prover]
#[verifier::rlimit(50)]
proof fn lemma_symbol_H264Baseline5_0()
    ensures
        spec_profile_symbol(ProfileLevel::H264Baseline5_0)@.subrange(0, 16) == "kVTProfileLevel_"@,
        normalize_name(spec_profile_symbol(ProfileLevel::H264Baseline5_0)@) == "kvtprofilelevel"@
            + normalize_name(spec_profile_name(ProfileLevel::H264Baseline5_0)@),
{
    assert(normalize_name("H264Baseline5_0"@) =~= "h264baseline50"@) by {
        reveal_with_fuel(normalize_name, 17);
        reveal_strlit("H264Baseline5_0");
        reveal_strlit("h264baseline50");
    }
    assert(normalize_name("H264_Baseline_5_0"@) =~= "h264baseline50"@) by {
        reveal_with_fuel(normalize_name, 19);
        reveal_strlit("H264_Baseline_5_0");
        reveal_strlit("h264baseline50");
    }
    assert("kVTProfileLevel_H264_Baseline_5_0"@ =~= "kVTProfileLevel_"@ + "H264_Baseline_5_0"@) by {
        reveal_strlit("kVTProfileLevel_H264_Baseline_5_0");
        reveal_strlit("kVTProfileLevel_");
        reveal_strlit("H264_Baseline_5_0");
    }
    assert("kVTProfileLevel_H264_Baseline_5_0"@.subrange(0, 16) =~= "kVTProfileLevel_"@) by {
        reveal_strlit("kVTProfileLevel_H264_Baseline_5_0");
        reveal_strlit("kVTProfileLevel_");
    }
    lemma_normalize_concat("kVTProfileLevel_"@, "H264_Baseline_5_0"@);
    lemma_normalize_prefix();
}

#[verifier::spinoff_prover]
#[verifier::rlimit(50)]
proof fn lemma_symbol_H264Baseline5_1()
    ensures
        spec_profile_symbol(ProfileLevel::H264Baseline5_1)@.subrange(0, 16) == "kVTProfileLevel_"@,
        normalize_name(spec_profile_symbol(ProfileLevel::H264Baseline5_1)@) == "kvtprofilelevel"@
            + normalize_name(spec_profile_name(ProfileLevel::H264Baseline5_1)@),
{
    assert(normalize_name("H264Baseline5_1"@) =~= "h264baseline51"@) by {
        reveal_with_fuel(normalize_name, 17);
        reveal_strlit("H264Baseline5_1");
        reveal_strlit("h264baseline51");
    }
    assert(normalize_name("H264_Baseline_5_1"@) =~= "h264baseline51"@) by {
        reveal_with_fuel(normalize_name, 19);
        reveal_strlit("H264_Baseline_5_1");
        reveal_strlit("h264baseline51");
    }
    assert("kVTProfileLevel_H264_Baseline_5_1"@ =~= "kVTProfileLevel_"@ + "H264_Baseline_5_1"@) by {
        reveal_strlit("kVTProfileLevel_H264_Baseline_5_1");
        reveal_strlit("kVTProfileLevel_");
        reveal_strlit("H264_Baseline_5_1");
    }
    assert("kVTProfileLevel_H264_Baseline_5_1"@.subrange(0, 16) =~= "kVTProfileLevel_"@) by {
        reveal_strlit("kVTProfileLevel_H264_Baseline_5_1");
        reveal_strlit("kVTProfileLevel_");
    }
    lemma_normalize_concat("kVTProfileLevel_"@, "H264_Baseline_5_1"@);
    lemma_normalize_prefix();
}

#[verifier::spinoff_prover]
#[verifier::rlimit(50)]
proof fn lemma_symbol_H264Baseline5_2()
    ensures
        spec_profile_symbol(ProfileLevel::H264Baseline5_2)@.subrange(0, 16) == "kVTProfileLevel_"@,
        normalize_name(spec_profile_symbol(ProfileLevel::H264Baseline5_2)@) == "kvtprofilelevel"@
            + normalize_name(spec_profile_name(ProfileLevel::H264Baseline5_2)@),
{
    assert(normalize_name("H264Baseline5_2"@) =~= "h264baseline52"@) by {
        reveal_with_fuel(normalize_name, 17);
        reveal_strlit("H264Baseline5_2");
        reveal_strlit("h264baseline52");
    }
    assert(normalize_name("H264_Baseline_5_2"@) =~= "h264baseline52"@) by {
        reveal_with_fuel(normalize_name, 19);
        reveal_strlit("H264_Baseline_5_2");
        reveal_strlit("h264baseline52");
    }
    assert("kVTProfileLevel_H264_Baseline_5_2"@ =~= "kVTProfileLevel_"@ + "H264_Baseline_5_2"@) by {
        reveal_strlit("kVTProfileLevel_H264_Baseline_5_2");
        reveal_strlit("kVTProfileLevel_");
        reveal_strlit("H264_Baseline_5_2");
    }
    assert("kVTProfileLevel_H264_Baseline_5_2"@.subrange(0, 16) =~= "kVTProfileLevel_"@) by {
        reveal_strlit("kVTProfileLevel_H264_Baseline_5_2");
        reveal_strlit("kVTProfileLevel_");
    }
    lemma_normalize_concat("kVTProfileLevel_"@, "H264_Baseline_5_2"@);
    lemma_normalize_prefix();
}

#[verifier::spinoff_prover]
#[verifier::rlimit(50)]
proof fn lemma_symbol_H264BaselineAutoLevel()
    ensures
        spec_profile_symbol(ProfileLevel::H264BaselineAutoLevel)@.subrange(0, 16) == "kVTProfileLevel_"@,
        normalize_name(spec_profile_symbol(ProfileLevel::H264BaselineAutoLevel)@) == "kvtprofilelevel"@
            + normalize_name(spec_profile_name(ProfileLevel::H264BaselineAutoLevel)@),
{
    assert(normalize_name("H264BaselineAutoLevel"@) =~= "h264baselineautolevel"@) by {
        reveal_with_fuel(normalize_name, 23);
        reveal_strlit("H264BaselineAutoLevel");
        reveal_strlit("h264baselineautolevel");
    }
    assert(normalize_name("H264_Baseline_AutoLevel"@) =~= "h264baselineautolevel"@) by {
        reveal_with_fuel(normalize_name, 25);
        reveal_strlit("H264_Baseline_AutoLevel");
        reveal_strlit("h264baselineautolevel");
    }
    assert("kVTProfileLevel_H264_Baseline_AutoLevel"@ =~= "kVTProfileLevel_"@ + "H264_Baseline_AutoLevel"@) by {
        reveal_strlit("kVTProfileLevel_H264_Baseline_AutoLevel");
        reveal_strlit("kVTProfileLevel_");
        reveal_strlit("H264_Baseline_AutoLevel");
    }
    assert("kVTProfileLevel_H264_Baseline_AutoLevel"@.subrange(0, 16) =~= "kVTProfileLevel_"@) by {
        reveal_strlit("kVTProfileLevel_H264_Baseline_AutoLevel");
        reveal_strlit("kVTProfileLevel_");
    }
    lemma_normalize_concat("kVTProfileLevel_"@, "H264_Baseline_AutoLevel"@);
    lemma_normalize_prefix();
}

#[verifier::spinoff_prover]
#[verifier::rlimit(50)]
proof fn lemma_symbol_H264ConstrainedBaselineAutoLevel()
    ensures
        spec_profile_symbol(ProfileLevel::H264ConstrainedBaselineAutoLevel)@.subrange(0, 16) == "kVTProfileLevel_"@,
        normalize_name(spec_profile_symbol(ProfileLevel::H264ConstrainedBaselineAutoLevel)@) == "kvtprofilelevel"@
            + normalize_name(spec_profile_name(ProfileLevel::H264ConstrainedBaselineAutoLevel)@),
{
    assert(normalize_name("H264ConstrainedBaselineAutoLevel"@) =~= "h264constrainedbaselineautolevel"@) by {
        reveal_with_fuel(normalize_name, 34);
        reveal_strlit("H264ConstrainedBaselineAutoLevel");
        reveal_strlit("h264constrainedbaselineautolevel");
    }
    assert(normalize_name("H264_ConstrainedBaseline_AutoLevel"@) =~= "h264constrainedbaselineautolevel"@) by {
        reveal_with_fuel(normalize_name, 36);
        reveal_strlit("H264_ConstrainedBaseline_AutoLevel");
        reveal_strlit("h264constrainedbaselineautolevel");
    }
    assert("kVTProfileLevel_H264_ConstrainedBaseline_AutoLevel"@ =~= "kVTProfileLevel_"@ + "H264_ConstrainedBaseline_AutoLevel"@) by {
        reveal_strlit("kVTProfileLevel_H264_ConstrainedBaseline_AutoLevel");
        reveal_strlit("kVTProfileLevel_");
        reveal_strlit("H264_ConstrainedBaseline_AutoLevel");
    }
    assert("kVTProfileLevel_H264_ConstrainedBaseline_AutoLevel"@.subrange(0, 16) =~= "kVTProfileLevel_"@) by {
        reveal_strlit("kVTProfileLevel_H264_ConstrainedBaseline_AutoLevel");
        reveal_strlit("kVTProfileLevel_");
    }
    lemma_normalize_concat("kVTProfileLevel_"@, "H264_ConstrainedBaseline_AutoLevel"@);
    lemma_normalize_prefix();
}

#[verifier::spinoff_prover]
#[verifier::rlimit(50)]
proof fn lemma_symbol_H264ConstrainedHighAutoLevel()
    ensures
        spec_profile_symbol(ProfileLevel::H264ConstrainedHighAutoLevel)@.subrange(0, 16) == "kVTProfileLevel_"@,
        normalize_name(spec_profile_symbol(ProfileLevel::H264ConstrainedHighAutoLevel)@) == "kvtprofilelevel"@
            + normalize_name(spec_profile_name(ProfileLevel::H264ConstrainedHighAutoLevel)@),
{
    assert(normalize_name("H264ConstrainedHighAutoLevel"@) =~= "h264constrainedhighautolevel"@) by {
        reveal_with_fuel(normalize_name, 30);
        reveal_strlit("H264ConstrainedHighAutoLevel");
        reveal_strlit("h264constrainedhighautolevel");
    }
    assert(normalize_name("H264_ConstrainedHigh_AutoLevel"@) =~= "h264constrainedhighautolevel"@) by {
        reveal_with_fuel(normalize_name, 32);
        reveal_strlit("H264_ConstrainedHigh_AutoLevel");
        reveal_strlit("h264constrainedhighautolevel");
    }
    assert("kVTProfileLevel_H264_ConstrainedHigh_AutoLevel"@ =~= "kVTProfileLevel_"@ + "H264_ConstrainedHigh_AutoLevel"@) by {
        reveal_strlit("kVTProfileLevel_H264_ConstrainedHigh_AutoLevel");
        reveal_strlit("kVTProfileLevel_");
        reveal_strlit("H264_ConstrainedHigh_AutoLevel");
    }
    assert("kVTProfileLevel_H264_ConstrainedHigh_AutoLevel"@.subrange(0, 16) =~= "kVTProfileLevel_"@) by {
        reveal_strlit("kVTProfileLevel_H264_ConstrainedHigh_AutoLevel");
        reveal_strlit("kVTProfileLevel_");
    }
    lemma_normalize_concat("kVTProfileLevel_"@, "H264_ConstrainedHigh_AutoLevel"@);
    lemma_normalize_prefix();
}

#[verifier::spinoff_prover]
#[verifier::rlimit(50)]
proof fn lemma_symbol_H264Extended5_0()
    ensures
        spec_profile_symbol(ProfileLevel::H264Extended5_0)@.subrange(0, 16) == "kVTProfileLevel_"@,
        normalize_name(spec_profile_symbol(ProfileLevel::H264Extended5_0)@) == "kvtprofilelevel"@
            + normalize_name(spec_profile_name(ProfileLevel::H264Extended5_0)@),
{
    assert(normalize_name("H264Extended5_0"@) =~= "h264extended50"@) by {
        reveal_with_fuel(normalize_name, 17);
        reveal_strlit("H264Extended5_0");
        reveal_strlit("h264extended50");
    }
    assert(normalize_name("H264_Extended_5_0"@) =~= "h264extended50"@) by {
        reveal_with_fuel(normalize_name, 19);
        reveal_strlit("H264_Extended_5_0");
        reveal_strlit("h264extended50");
    }
    assert("kVTProfileLevel_H264_Extended_5_0"@ =~= "kVTProfileLevel_"@ + "H264_Extended_5_0"@) by {
        reveal_strlit("kVTProfileLevel_H264_Extended_5_0");
        reveal_strlit("kVTProfileLevel_");
        reveal_strlit("H264_Extended_5_0");
    }
    assert("kVTProfileLevel_H264_Extended_5_0"@.subrange(0, 16) =~= "kVTProfileLevel_"@) by {
        reveal_strlit("kVTProfileLevel_H264_Extended_5_0");
        reveal_strlit("kVTProfileLevel_");
    }
    lemma_normalize_concat("kVTProfileLevel_"@, "H264_Extended_5_0"@);
    lemma_normalize_prefix();
}

#[verifier::spinoff_prover]
#[verifier::rlimit(50)]
proof fn lemma_symbol_H264ExtendedAutoLevel()
    ensures
        spec_profile_symbol(ProfileLevel::H264ExtendedAutoLevel)@.subrange(0, 16) == "kVTProfileLevel_"@,
        normalize_name(spec_profile_symbol(ProfileLevel::H264ExtendedAutoLevel)@) == "kvtprofilelevel"@
            + normalize_name(spec_profile_name(ProfileLevel::H264ExtendedAutoLevel)@),
{
    assert(normalize_name("H264ExtendedAutoLevel"@) =~= "h264extendedautolevel"@) by {
        reveal_with_fuel(normalize_name, 23);
        reveal_strlit("H264ExtendedAutoLevel");
        reveal_strlit("h264extendedautolevel");
    }
    assert(normalize_name("H264_Extended_AutoLevel"@) =~= "h264extendedautolevel"@) by {
        reveal_with_fuel(normalize_name, 25);
        reveal_strlit("H264_Extended_AutoLevel");
        reveal_strlit("h264extendedautolevel");
    }
    assert("kVTProfileLevel_H264_Extended_AutoLevel"@ =~= "kVTProfileLevel_"@ + "H264_Extended_AutoLevel"@) by {
        reveal_strlit("kVTProfileLevel_H264_Extended_AutoLevel");
        reveal_strlit("kVTProfileLevel_");
        reveal_strlit("H264_Extended_AutoLevel");
    }
    assert("kVTProfileLevel_H264_Extended_AutoLevel"@.subrange(0, 16) =~= "kVTProfileLevel_"@) by {
        reveal_strlit("kVTProfileLevel_H264_Extended_AutoLevel");
        reveal_strlit("kVTProfileLevel_");
    }
    lemma_normalize_concat("kVTProfileLevel_"@, "H264_Extended_AutoLevel"@);
    lemma_normalize_prefix();
}

#[verifier::spinoff_prover]
#[verifier::rlimit(50)]
proof fn lemma_symbol_H264High3_0()
    ensures
        spec_profile_symbol(ProfileLevel::H264High3_0)@.subrange(0, 16) == "kVTProfileLevel_"@,
        normalize_name(spec_profile_symbol(ProfileLevel::H264High3_0)@) == "kvtprofilelevel"@
            + normalize_name(spec_profile_name(ProfileLevel::H264High3_0)@),
{
    assert(normalize_name("H264High3_0"@) =~= "h264high30"@) by {
        reveal_with_fuel(normalize_name, 13);
        reveal_strlit("H264High3_0");
        reveal_strlit("h264high30");
    }
    assert(normalize_name("H264_High_3_0"@) =~= "h264high30"@) by {
        reveal_with_fuel(normalize_name, 15);
        reveal_strlit("H264_High_3_0");
        reveal_strlit("h264high30");
    }
    assert("kVTProfileLevel_H264_High_3_0"@ =~= "kVTProfileLevel_"@ + "H264_High_3_0"@) by {
        reveal_strlit("kVTProfileLevel_H264_High_3_0");
        reveal_strlit("kVTProfileLevel_");
        reveal_strlit("H264_High_3_0");
    }
    assert("kVTProfileLevel_H264_High_3_0"@.subrange(0, 16) =~= "kVTProfileLevel_"@) by {
        reveal_strlit("kVTProfileLevel_H264_High_3_0");
        reveal_strlit("kVTProfileLevel_");
    }
    lemma_normalize_concat("kVTProfileLevel_"@, "H264_High_3_0"@);
    lemma_normalize_prefix();
}

#[verifier::spinoff_prover]
#[verifier::rlimit(50)]
proof fn lemma_symbol_H264High3_1()
    ensures
        spec_profile_symbol(ProfileLevel::H264High3_1)@.subrange(0, 16) == "kVTProfileLevel_"@,
        normalize_name(spec_profile_symbol(ProfileLevel::H264High3_1)@) == "kvtprofilelevel"@
            + normalize_name(spec_profile_name(ProfileLevel::H264High3_1)@),
{
    assert(normalize_name("H264High3_1"@) =~= "h264high31"@) by {
        reveal_with_fuel(normalize_name, 13);
        reveal_strlit("H264High3_1");
        reveal_strlit("h264high31");
    }
    assert(normalize_name("H264_High_3_1"@) =~= "h264high31"@) by {
        reveal_with_fuel(normalize_name, 15);
        reveal_strlit("H264_High_3_1");
        reveal_strlit("h264high31");
    }
    assert("kVTProfileLevel_H264_High_3_1"@ =~= "kVTProfileLevel_"@ + "H264_High_3_1"@) by {
        reveal_strlit("kVTProfileLevel_H264_High_3_1");
        reveal_strlit("kVTProfileLevel_");
        reveal_strlit("H264_High_3_1");
    }
    assert("kVTProfileLevel_H264_High_3_1"@.subrange(0, 16) =~= "kVTProfileLevel_"@) by {
        reveal_strlit("kVTProfileLevel_H264_High_3_1");
        reveal_strlit("kVTProfileLevel_");
    }
    lemma_normalize_concat("kVTProfileLevel_"@, "H264_High_3_1"@);
    lemma_normalize_prefix();
}

#[verifier::spinoff_prover]
#[verifier::rlimit(50)]
proof fn lemma_symbol_H264High3_2()
    ensures
        spec_profile_symbol(ProfileLevel::H264High3_2)@.subrange(0, 16) == "kVTProfileLevel_"@,
        normalize_name(spec_profile_symbol(ProfileLevel::H264High3_2)@) == "kvtprofilelevel"@
            + normalize_name(spec_profile_name(ProfileLevel::H264High3_2)@),
{
    assert(normalize_name("H264High3_2"@) =~= "h264high32"@) by {
        reveal_with_fuel(normalize_name, 13);
        reveal_strlit("H264High3_2");
        reveal_strlit("h264high32");
    }
    assert(normalize_name("H264_High_3_2"@) =~= "h264high32"@) by {
        reveal_with_fuel(normalize_name, 15);
        reveal_strlit("H264_High_3_2");
        reveal_strlit("h264high32");
    }
    assert("kVTProfileLevel_H264_High_3_2"@ =~= "kVTProfileLevel_"@ + "H264_High_3_2"@) by {
        reveal_strlit("kVTProfileLevel_H264_High_3_2");
        reveal_strlit("kVTProfileLevel_");
        reveal_strlit("H264_High_3_2");
    }
    assert("kVTProfileLevel_H264_High_3_2"@.subrange(0, 16) =~= "kVTProfileLevel_"@) by {
        reveal_strlit("kVTProfileLevel_H264_High_3_2");
        reveal_strlit("kVTProfileLevel_");
    }
    lemma_normalize_concat("kVTProfileLevel_"@, "H264_High_3_2"@);
    lemma_normalize_prefix();
}

#[verifier::spinoff_prover]
#[verifier::rlimit(50)]
proof fn lemma_symbol_H264High4_0()
    ensures
        spec_profile_symbol(ProfileLevel::H264High4_0)@.subrange(0, 16) == "kVTProfileLevel_"@,
        normalize_name(spec_profile_symbol(ProfileLevel::H264High4_0)@) == "kvtprofilelevel"@
            + normalize_name(spec_profile_name(ProfileLevel::H264High4_0)@),
{
    assert(normalize_name("H264High4_0"@) =~= "h264high40"@) by {
        reveal_with_fuel(normalize_name, 13);
        reveal_strlit("H264High4_0");
        reveal_strlit("h264high40");
    }
    assert(normalize_name("H264_High_4_0"@) =~= "h264high40"@) by {
        reveal_with_fuel(normalize_name, 15);
        reveal_strlit("H264_High_4_0");
        reveal_strlit("h264high40");
    }
    assert("kVTProfileLevel_H264_High_4_0"@ =~= "kVTProfileLevel_"@ + "H264_High_4_0"@) by {
        reveal_strlit("kVTProfileLevel_H264_High_4_0");
        reveal_strlit("kVTProfileLevel_");
        reveal_strlit("H264_High_4_0");
    }
    assert("kVTProfileLevel_H264_High_4_0"@.subrange(0, 16) =~= "kVTProfileLevel_"@) by {
        reveal_strlit("kVTProfileLevel_H264_High_4_0");
        reveal_strlit("kVTProfileLevel_");
    }
    lemma_normalize_concat("kVTProfileLevel_"@, "H264_High_4_0"@);
    lemma_normalize_prefix();
}

#[verifier::spinoff_prover]
#[verifier::rlimit(50)]
proof fn lemma_symbol_H264High4_1()
    ensures
        spec_profile_symbol(ProfileLevel::H264High4_1)@.subrange(0, 16) == "kVTProfileLevel_"@,
        normalize_name(spec_profile_symbol(ProfileLevel::H264High4_1)@) == "kvtprofilelevel"@
            + normalize_name(spec_profile_name(ProfileLevel::H264High4_1)@),
{
    assert(normalize_name("H264High4_1"@) =~= "h264high41"@) by {
        reveal_with_fuel(normalize_name, 13);
        reveal_strlit("H264High4_1");
        reveal_strlit("h264high41");
    }
    assert(normalize_name("H264_High_4_1"@) =~= "h264high41"@) by {
        reveal_with_fuel(normalize_name, 15);
        reveal_strlit("H264_High_4_1");
        reveal_strlit("h264high41");
    }
    assert("kVTProfileLevel_H264_High_4_1"@ =~= "kVTProfileLevel_"@ + "H264_High_4_1"@) by {
        reveal_strlit("kVTProfileLevel_H264_High_4_1");
        reveal_strlit("kVTProfileLevel_");
        reveal_strlit("H264_High_4_1");
    }
    assert("kVTProfileLevel_H264_High_4_1"@.subrange(0, 16) =~= "kVTProfileLevel_"@) by {
        reveal_strlit("kVTProfileLevel_H264_High_4_1");
        reveal_strlit("kVTProfileLevel_");
    }
    lemma_normalize_concat("kVTProfileLevel_"@, "H264_High_4_1"@);
    lemma_normalize_prefix();
}

#[verifier::spinoff_prover]
#[verifier::rlimit(50)]
proof fn lemma_symbol_H264High4_2()
    ensures
        spec_profile_symbol(ProfileLevel::H264High4_2)@.subrange(0, 16) == "kVTProfileLevel_"@,
        normalize_name(spec_profile_symbol(ProfileLevel::H264High4_2)@) == "kvtprofilelevel"@
            + normalize_name(spec_profile_name(ProfileLevel::H264High4_2)@),
{
    assert(normalize_name("H264High4_2"@) =~= "h264high42"@) by {
        reveal_with_fuel(normalize_name, 13);
        reveal_strlit("H264High4_2");
        reveal_strlit("h264high42");
    }
    assert(normalize_name("H264_High_4_2"@) =~= "h264high42"@) by {
        reveal_with_fuel(normalize_name, 15);
        reveal_strlit("H264_High_4_2");
        reveal_strlit("h264high42");
    }
    assert("kVTProfileLevel_H264_High_4_2"@ =~= "kVTProfileLevel_"@ + "H264_High_4_2"@) by {
        reveal_strlit("kVTProfileLevel_H264_High_4_2");
        reveal_strlit("kVTProfileLevel_");
        reveal_strlit("H264_High_4_2");
    }
    assert("kVTProfileLevel_H264_High_4_2"@.subrange(0, 16) =~= "kVTProfileLevel_"@) by {
        reveal_strlit("kVTProfileLevel_H264_High_4_2");
        reveal_strlit("kVTProfileLevel_");
    }
    lemma_normalize_concat("kVTProfileLevel_"@, "H264_High_4_2"@);
    lemma_normalize_prefix();
}

#[verifier::spinoff_prover]
#[verifier::rlimit(50)]
proof fn lemma_symbol_H264High5_0()
    ensures
        spec_profile_symbol(ProfileLevel::H264High5_0)@.subrange(0, 16) == "kVTProfileLevel_"@,
        normalize_name(spec_profile_symbol(ProfileLevel::H264High5_0)@) == "kvtprofilelevel"@
            + normalize_name(spec_profile_name(ProfileLevel::H264High5_0)@),
{
    assert(normalize_name("H264High5_0"@) =~= "h264high50"@) by {
        reveal_with_fuel(normalize_name, 13);
        reveal_strlit("H264High5_0");
        reveal_strlit("h264high50");
    }
    assert(normalize_name("H264_High_5_0"@) =~= "h264high50"@) by {
        reveal_with_fuel(normalize_name, 15);
        reveal_strlit("H264_High_5_0");
        reveal_strlit("h264high50");
    }
    assert("kVTProfileLevel_H264_High_5_0"@ =~= "kVTProfileLevel_"@ + "H264_High_5_0"@) by {
        reveal_strlit("kVTProfileLevel_H264_High_5_0");
        reveal_strlit("kVTProfileLevel_");
        reveal_strlit("H264_High_5_0");
    }
    assert("kVTProfileLevel_H264_High_5_0"@.subrange(0, 16) =~= "kVTProfileLevel_"@) by {
        reveal_strlit("kVTProfileLevel_H264_High_5_0");
        reveal_strlit("kVTProfileLevel_");
    }
    lemma_normalize_concat("kVTProfileLevel_"@, "H264_High_5_0"@);
    lemma_normalize_prefix();
}

#[verifier::spinoff_prover]
#[verifier::rlimit(50)]
proof fn lemma_symbol_H264High5_1()
    ensures
        spec_profile_symbol(ProfileLevel::H264High5_1)@.subrange(0, 16) == "kVTProfileLevel_"@,
        normalize_name(spec_profile_symbol(ProfileLevel::H264High5_1)@) == "kvtprofilelevel"@
            + normalize_name(spec_profile_name(ProfileLevel::H264High5_1)@),
{
    assert(normalize_name("H264High5_1"@) =~= "h264high51"@) by {
        reveal_with_fuel(normalize_name, 13);
        reveal_strlit("H264High5_1");
        reveal_strlit("h264high51");
    }
    assert(normalize_name("H264_High_5_1"@) =~= "h264high51"@) by {
        reveal_with_fuel(normalize_name, 15);
        reveal_strlit("H264_High_5_1");
        reveal_strlit("h264high51");
    }
    assert("kVTProfileLevel_H264_High_5_1"@ =~= "kVTProfileLevel_"@ + "H264_High_5_1"@) by {
        reveal_strlit("kVTProfileLevel_H264_High_5_1");
        reveal_strlit("kVTProfileLevel_");
        reveal_strlit("H264_High_5_1");
    }
    assert("kVTProfileLevel_H264_High_5_1"@.subrange(0, 16) =~= "kVTProfileLevel_"@) by {
        reveal_strlit("kVTProfileLevel_H264_High_5_1");
        reveal_strlit("kVTProfileLevel_");
    }
    lemma_normalize_concat("kVTProfileLevel_"@, "H264_High_5_1"@);
    lemma_normalize_prefix();
}

#[verifier::spinoff_prover]
#[verifier::rlimit(50)]
proof fn lemma_symbol_H264High5_2()
    ensures
        spec_profile_symbol(ProfileLevel::H264High5_2)@.subrange(0, 16) == "kVTProfileLevel_"@,
        normalize_name(spec_profile_symbol(ProfileLevel::H264High5_2)@) == "kvtprofilelevel"@
            + normalize_name(spec_profile_name(ProfileLevel::H264High5_2)@),
{
    assert(normalize_name("H264High5_2"@) =~= "h264high52"@) by {
        reveal_with_fuel(normalize_name, 13);
        reveal_strlit("H264High5_2");
        reveal_strlit("h264high52");
    }
    assert(normalize_name("H264_High_5_2"@) =~= "h264high52"@) by {
        reveal_with_fuel(normalize_name, 15);
        reveal_strlit("H264_High_5_2");
        reveal_strlit("h264high52");
    }
    assert("kVTProfileLevel_H264_High_5_2"@ =~= "kVTProfileLevel_"@ + "H264_High_5_2"@) by {
        reveal_strlit("kVTProfileLevel_H264_High_5_2");
        reveal_strlit("kVTProfileLevel_");
        reveal_strlit("H264_High_5_2");
    }
    assert("kVTProfileLevel_H264_High_5_2"@.subrange(0, 16) =~= "kVTProfileLevel_"@) by {
        reveal_strlit("kVTProfileLevel_H264_High_5_2");
        reveal_strlit("kVTProfileLevel_");
    }
    lemma_normalize_concat("kVTProfileLevel_"@, "H264_High_5_2"@);
    lemma_normalize_prefix();
}

#[verifier::spinoff_prover]
#[verifier::rlimit(50)]
proof fn lemma_symbol_H264HighAutoLevel()
    ensures
        spec_profile_symbol(ProfileLevel::H264HighAutoLevel)@.subrange(0, 16) == "kVTProfileLevel_"@,
        normalize_name(spec_profile_symbol(ProfileLevel::H264HighAutoLevel)@) == "kvtprofilelevel"@
            + normalize_name(spec_profile_name(ProfileLevel::H264HighAutoLevel)@),
{
    assert(normalize_name("H264HighAutoLevel"@) =~= "h264highautolevel"@) by {
        reveal_with_fuel(normalize_name, 19);
        reveal_strlit("H264HighAutoLevel");
        reveal_strlit("h264highautolevel");
    }
    assert(normalize_name("H264_High_AutoLevel"@) =~= "h264highautolevel"@) by {
        reveal_with_fuel(normalize_name, 21);
        reveal_strlit("H264_High_AutoLevel");
        reveal_strlit("h264highautolevel");
    }
    assert("kVTProfileLevel_H264_High_AutoLevel"@ =~= "kVTProfileLevel_"@ + "H264_High_AutoLevel"@) by {
        reveal_strlit("kVTProfileLevel_H264_High_AutoLevel");
        reveal_strlit("kVTProfileLevel_");
        reveal_strlit("H264_High_AutoLevel");
    }
    assert("kVTProfileLevel_H264_High_AutoLevel"@.subrange(0, 16) =~= "kVTProfileLevel_"@) by {
        reveal_strlit("kVTProfileLevel_H264_High_AutoLevel");
        reveal_strlit("kVTProfileLevel_");
    }
    lemma_normalize_concat("kVTProfileLevel_"@, "H264_High_AutoLevel"@);
    lemma_normalize_prefix();
}

#[verifier::spinoff_prover]
#[verifier::rlimit(50)]
proof fn lemma_symbol_H264Main3_0()
    ensures
        spec_profile_symbol(ProfileLevel::H264Main3_0)@.subrange(0, 16) == "kVTProfileLevel_"@,
        normalize_name(spec_profile_symbol(ProfileLevel::H264Main3_0)@) == "kvtprofilelevel"@
            + normalize_name(spec_profile_name(ProfileLevel::H264Main3_0)@),
{
    assert(normalize_name("H264Main3_0"@) =~= "h264main30"@) by {
        reveal_with_fuel(normalize_name, 13);
        reveal_strlit("H264Main3_0");
        reveal_strlit("h264main30");
    }
    assert(normalize_name("H264_Main_3_0"@) =~= "h264main30"@) by {
        reveal_with_fuel(normalize_name, 15);
        reveal_strlit("H264_Main_3_0");
        reveal_strlit("h264main30");
    }
    assert("kVTProfileLevel_H264_Main_3_0"@ =~= "kVTProfileLevel_"@ + "H264_Main_3_0"@) by {
        reveal_strlit("kVTProfileLevel_H264_Main_3_0");
        reveal_strlit("kVTProfileLevel_");
        reveal_strlit("H264_Main_3_0");
    }
    assert("kVTProfileLevel_H264_Main_3_0"@.subrange(0, 16) =~= "kVTProfileLevel_"@) by {
        reveal_strlit("kVTProfileLevel_H264_Main_3_0");
        reveal_strlit("kVTProfileLevel_");
    }
    lemma_normalize_concat("kVTProfileLevel_"@, "H264_Main_3_0"@);
    lemma_normalize_prefix();
}

#[verifier::spinoff_prover]
#[verifier::rlimit(50)]
proof fn lemma_symbol_H264Main3_1()
    ensures
        spec_profile_symbol(ProfileLevel::H264Main3_1)@.subrange(0, 16) == "kVTProfileLevel_"@,
        normalize_name(spec_profile_symbol(ProfileLevel::H264Main3_1)@) == "kvtprofilelevel"@
            + normalize_name(spec_profile_name(ProfileLevel::H264Main3_1)@),
{
    assert(normalize_name("H264Main3_1"@) =~= "h264main31"@) by {
        reveal_with_fuel(normalize_name, 13);
        reveal_strlit("H264Main3_1");
        reveal_strlit("h264main31");
    }
    assert(normalize_name("H264_Main_3_1"@) =~= "h264main31"@) by {
        reveal_with_fuel(normalize_name, 15);
        reveal_strlit("H264_Main_3_1");
        reveal_strlit("h264main31");
    }
    assert("kVTProfileLevel_H264_Main_3_1"@ =~= "kVTProfileLevel_"@ + "H264_Main_3_1"@) by {
        reveal_strlit("kVTProfileLevel_H264_Main_3_1");
        reveal_strlit("kVTProfileLevel_");
        reveal_strlit("H264_Main_3_1");
    }
    assert("kVTProfileLevel_H264_Main_3_1"@.subrange(0, 16) =~= "kVTProfileLevel_"@) by {
        reveal_strlit("kVTProfileLevel_H264_Main_3_1");
        reveal_strlit("kVTProfileLevel_");
    }
    lemma_normalize_concat("kVTProfileLevel_"@, "H264_Main_3_1"@);
    lemma_normalize_prefix();
}

#[verifier::spinoff_prover]
#[verifier::rlimit(50)]
proof fn lemma_symbol_H264Main3_2()
    ensures
        spec_profile_symbol(ProfileLevel::H264Main3_2)@.subrange(0, 16) == "kVTProfileLevel_"@,
        normalize_name(spec_profile_symbol(ProfileLevel::H264Main3_2)@) == "kvtprofilelevel"@
            + normalize_name(spec_profile_name(ProfileLevel::H264Main3_2)@),
{
    assert(normalize_name("H264Main3_2"@) =~= "h264main32"@) by {
        reveal_with_fuel(normalize_name, 13);
        reveal_strlit("H264Main3_2");
        reveal_strlit("h264main32");
    }
    assert(normalize_name("H264_Main_3_2"@) =~= "h264main32"@) by {
        reveal_with_fuel(normalize_name, 15);
        reveal_strlit("H264_Main_3_2");
        reveal_strlit("h264main32");
    }
    assert("kVTProfileLevel_H264_Main_3_2"@ =~= "kVTProfileLevel_"@ + "H264_Main_3_2"@) by {
        reveal_strlit("kVTProfileLevel_H264_Main_3_2");
        reveal_strlit("kVTProfileLevel_");
        reveal_strlit("H264_Main_3_2");
    }
    assert("kVTProfileLevel_H264_Main_3_2"@.subrange(0, 16) =~= "kVTProfileLevel_"@) by {
        reveal_strlit("kVTProfileLevel_H264_Main_3_2");
        reveal_strlit("kVTProfileLevel_");
    }
    lemma_normalize_concat("kVTProfileLevel_"@, "H264_Main_3_2"@);
    lemma_normalize_prefix();
}

#[verifier::spinoff_prover]
#[verifier::rlimit(50)]
proof fn lemma_symbol_H264Main4_0()
    ensures
        spec_profile_symbol(ProfileLevel::H264Main4_0)@.subrange(0, 16) == "kVTProfileLevel_"@,
        normalize_name(spec_profile_symbol(ProfileLevel::H264Main4_0)@) == "kvtprofilelevel"@
            + normalize_name(spec_profile_name(ProfileLevel::H264Main4_0)@),
{
    assert(normalize_name("H264Main4_0"@) =~= "h264main40"@) by {
        reveal_with_fuel(normalize_name, 13);
        reveal_strlit("H264Main4_0");
        reveal_strlit("h264main40");
    }
    assert(normalize_name("H264_Main_4_0"@) =~= "h264main40"@) by {
        reveal_with_fuel(normalize_name, 15);
        reveal_strlit("H264_Main_4_0");
        reveal_strlit("h264main40");
    }
    assert("kVTProfileLevel_H264_Main_4_0"@ =~= "kVTProfileLevel_"@ + "H264_Main_4_0"@) by {
        reveal_strlit("kVTProfileLevel_H264_Main_4_0");
        reveal_strlit("kVTProfileLevel_");
        reveal_strlit("H264_Main_4_0");
    }
    assert("kVTProfileLevel_H264_Main_4_0"@.subrange(0, 16) =~= "kVTProfileLevel_"@) by {
        reveal_strlit("kVTProfileLevel_H264_Main_4_0");
        reveal_strlit("kVTProfileLevel_");
    }
    lemma_normalize_concat("kVTProfileLevel_"@, "H264_Main_4_0"@);
    lemma_normalize_prefix();
}

#[verifier::spinoff_prover]
#[verifier::rlimit(50)]
proof fn lemma_symbol_H264Main4_1()
    ensures
        spec_profile_symbol(ProfileLevel::H264Main4_1)@.subrange(0, 16) == "kVTProfileLevel_"@,
        normalize_name(spec_profile_symbol(ProfileLevel::H264Main4_1)@) == "kvtprofilelevel"@
            + normalize_name(spec_profile_name(ProfileLevel::H264Main4_1)@),
{
    assert(normalize_name("H264Main4_1"@) =~= "h264main41"@) by {
        reveal_with_fuel(normalize_name, 13);
        reveal_strlit("H264Main4_1");
        reveal_strlit("h264main41");
    }
    assert(normalize_name("H264_Main_4_1"@) =~= "h264main41"@) by {
        reveal_with_fuel(normalize_name, 15);
        reveal_strlit("H264_Main_4_1");
        reveal_strlit("h264main41");
    }
    assert("kVTProfileLevel_H264_Main_4_1"@ =~= "kVTProfileLevel_"@ + "H264_Main_4_1"@) by {
        reveal_strlit("kVTProfileLevel_H264_Main_4_1");
        reveal_strlit("kVTProfileLevel_");
        reveal_strlit("H264_Main_4_1");
    }
    assert("kVTProfileLevel_H264_Main_4_1"@.subrange(0, 16) =~= "kVTProfileLevel_"@) by {
        reveal_strlit("kVTProfileLevel_H264_Main_4_1");
        reveal_strlit("kVTProfileLevel_");
    }
    lemma_normalize_concat("kVTProfileLevel_"@, "H264_Main_4_1"@);
    lemma_normalize_prefix();
}

#[verifier::spinoff_prover]
#[verifier::rlimit(50)]
proof fn lemma_symbol_H264Main4_2()
    ensures
        spec_profile_symbol(ProfileLevel::H264Main4_2)@.subrange(0, 16) == "kVTProfileLevel_"@,
        normalize_name(spec_profile_symbol(ProfileLevel::H264Main4_2)@) == "kvtprofilelevel"@
            + normalize_name(spec_profile_name(ProfileLevel::H264Main4_2)@),
{
    assert(normalize_name("H264Main4_2"@) =~= "h264main42"@) by {
        reveal_with_fuel(normalize_name, 13);
        reveal_strlit("H264Main4_2");
        reveal_strlit("h264main42");
    }
    assert(normalize_name("H264_Main_4_2"@) =~= "h264main42"@) by {
        reveal_with_fuel(normalize_name, 15);
        reveal_strlit("H264_Main_4_2");
        reveal_strlit("h264main42");
    }
    assert("kVTProfileLevel_H264_Main_4_2"@ =~= "kVTProfileLevel_"@ + "H264_Main_4_2"@) by {
        reveal_strlit("kVTProfileLevel_H264_Main_4_2");
        reveal_strlit("kVTProfileLevel_");
        reveal_strlit("H264_Main_4_2");
    }
    assert("kVTProfileLevel_H264_Main_4_2"@.subrange(0, 16) =~= "kVTProfileLevel_"@) by {
        reveal_strlit("kVTProfileLevel_H264_Main_4_2");
        reveal_strlit("kVTProfileLevel_");
    }
    lemma_normalize_concat("kVTProfileLevel_"@, "H264_Main_4_2"@);
    lemma_normalize_prefix();
}

#[verifier::spinoff_prover]
#[verifier::rlimit(50)]
proof fn lemma_symbol_H264Main5_0()
    ensures
        spec_profile_symbol(ProfileLevel::H264Main5_0)@.subrange(0, 16) == "kVTProfileLevel_"@,
        normalize_name(spec_profile_symbol(ProfileLevel::H264Main5_0)@) == "kvtprofilelevel"@
            + normalize_name(spec_profile_name(ProfileLevel::H264Main5_0)@),
{
    assert(normalize_name("H264Main5_0"@) =~= "h264main50"@) by {
        reveal_with_fuel(normalize_name, 13);
        reveal_strlit("H264Main5_0");
        reveal_strlit("h264main50");
    }
    assert(normalize_name("H264_Main_5_0"@) =~= "h264main50"@) by {
        reveal_with_fuel(normalize_name, 15);
        reveal_strlit("H264_Main_5_0");
        reveal_strlit("h264main50");
    }
    assert("kVTProfileLevel_H264_Main_5_0"@ =~= "kVTProfileLevel_"@ + "H264_Main_5_0"@) by {
        reveal_strlit("kVTProfileLevel_H264_Main_5_0");
        reveal_strlit("kVTProfileLevel_");
        reveal_strlit("H264_Main_5_0");
    }
    assert("kVTProfileLevel_H264_Main_5_0"@.subrange(0, 16) =~= "kVTProfileLevel_"@) by {
        reveal_strlit("kVTProfileLevel_H264_Main_5_0");
        reveal_strlit("kVTProfileLevel_");
    }
    lemma_normalize_concat("kVTProfileLevel_"@, "H264_Main_5_0"@);
    lemma_normalize_prefix();
}

#[verifier::spinoff_prover]
#[verifier::rlimit(50)]
proof fn lemma_symbol_H264Main5_1()
    ensures
        spec_profile_symbol(ProfileLevel::H264Main5_1)@.subrange(0, 16) == "kVTProfileLevel_"@,
        normalize_name(spec_profile_symbol(ProfileLevel::H264Main5_1)@) == "kvtprofilelevel"@
            + normalize_name(spec_profile_name(ProfileLevel::H264Main5_1)@),
{
    assert(normalize_name("H264Main5_1"@) =~= "h264main51"@) by {
        reveal_with_fuel(normalize_name, 13);
        reveal_strlit("H264Main5_1");
        reveal_strlit("h264main51");
    }
    assert(normalize_name("H264_Main_5_1"@) =~= "h264main51"@) by {
        reveal_with_fuel(normalize_name, 15);
        reveal_strlit("H264_Main_5_1");
        reveal_strlit("h264main51");
    }
    assert("kVTProfileLevel_H264_Main_5_1"@ =~= "kVTProfileLevel_"@ + "H264_Main_5_1"@) by {
        reveal_strlit("kVTProfileLevel_H264_Main_5_1");
        reveal_strlit("kVTProfileLevel_");
        reveal_strlit("H264_Main_5_1");
    }
    assert("kVTProfileLevel_H264_Main_5_1"@.subrange(0, 16) =~= "kVTProfileLevel_"@) by {
        reveal_strlit("kVTProfileLevel_H264_Main_5_1");
        reveal_strlit("kVTProfileLevel_");
    }
    lemma_normalize_concat("kVTProfileLevel_"@, "H264_Main_5_1"@);
    lemma_normalize_prefix();
}

#[verifier::spinoff_prover]
#[verifier::rlimit(50)]
proof fn lemma_symbol_H264Main5_2()
    ensures
        spec_profile_symbol(ProfileLevel::H264Main5_2)@.subrange(0, 16) == "kVTProfileLevel_"@,
        normalize_name(spec_profile_symbol(ProfileLevel::H264Main5_2)@) == "kvtprofilelevel"@
            + normalize_name(spec_profile_name(ProfileLevel::H264Main5_2)@),
{
    assert(normalize_name("H264Main5_2"@) =~= "h264main52"@) by {
        reveal_with_fuel(normalize_name, 13);
        reveal_strlit("H264Main5_2");
        reveal_strlit("h264main52");
    }
    assert(normalize_name("H264_Main_5_2"@) =~= "h264main52"@) by {
        reveal_with_fuel(normalize_name, 15);
        reveal_strlit("H264_Main_5_2");
        reveal_strlit("h264main52");
    }
    assert("kVTProfileLevel_H264_Main_5_2"@ =~= "kVTProfileLevel_"@ + "H264_Main_5_2"@) by {
        reveal_strlit("kVTProfileLevel_H264_Main_5_2");
        reveal_strlit("kVTProfileLevel_");
        reveal_strlit("H264_Main_5_2");
    }
    assert("kVTProfileLevel_H264_Main_5_2"@.subrange(0, 16) =~= "kVTProfileLevel_"@) by {
        reveal_strlit("kVTProfileLevel_H264_Main_5_2");
        reveal_strlit("kVTProfileLevel_");
    }
    lemma_normalize_concat("kVTProfileLevel_"@, "H264_Main_5_2"@);
    lemma_normalize_prefix();
}

#[verifier::spinoff_prover]
#[verifier::rlimit(50)]
proof fn lemma_symbol_H264MainAutoLevel()
    ensures
        spec_profile_symbol(ProfileLevel::H264MainAutoLevel)@.subrange(0, 16) == "kVTProfileLevel_"@,
        normalize_name(spec_profile_symbol(ProfileLevel::H264MainAutoLevel)@) == "kvtprofilelevel"@
            + normalize_name(spec_profile_name(ProfileLevel::H264MainAutoLevel)@),
{
    assert(normalize_name("H264MainAutoLevel"@) =~= "h264mainautolevel"@) by {
        reveal_with_fuel(normalize_name, 19);
        reveal_strlit("H264MainAutoLevel");
        reveal_strlit("h264mainautolevel");
    }
    assert(normalize_name("H264_Main_AutoLevel"@) =~= "h264mainautolevel"@) by {
        reveal_with_fuel(normalize_name, 21);
        reveal_strlit("H264_Main_AutoLevel");
        reveal_strlit("h264mainautolevel");
    }
    assert("kVTProfileLevel_H264_Main_AutoLevel"@ =~= "kVTProfileLevel_"@ + "H264_Main_AutoLevel"@) by {
        reveal_strlit("kVTProfileLevel_H264_Main_AutoLevel");
        reveal_strlit("kVTProfileLevel_");
        reveal_strlit("H264_Main_AutoLevel");
    }
    assert("kVTProfileLevel_H264_Main_AutoLevel"@.subrange(0, 16) =~= "kVTProfileLevel_"@) by {
        reveal_strlit("kVTProfileLevel_H264_Main_AutoLevel");
        reveal_strlit("kVTProfileLevel_");
    }
    lemma_normalize_concat("kVTProfileLevel_"@, "H264_Main_AutoLevel"@);
    lemma_normalize_prefix();
}

#[verifier::spinoff_prover]
#[verifier::rlimit(50)]
proof fn lemma_symbol_HEVCMainAutoLevel()
    ensures
        spec_profile_symbol(ProfileLevel::HEVCMainAutoLevel)@.subrange(0, 16) == "kVTProfileLevel_"@,
        normalize_name(spec_profile_symbol(ProfileLevel::HEVCMainAutoLevel)@) == "kvtprofilelevel"@
            + normalize_name(spec_profile_name(ProfileLevel::HEVCMainAutoLevel)@),
{
    assert(normalize_name("HEVCMainAutoLevel"@) =~= "hevcmainautolevel"@) by {
        reveal_with_fuel(normalize_name, 19);
        reveal_strlit("HEVCMainAutoLevel");
        reveal_strlit("hevcmainautolevel");
    }
    assert(normalize_name("HEVC_Main_AutoLevel"@) =~= "hevcmainautolevel"@) by {
        reveal_with_fuel(normalize_name, 21);
        reveal_strlit("HEVC_Main_AutoLevel");
        reveal_strlit("hevcmainautolevel");
    }
    assert("kVTProfileLevel_HEVC_Main_AutoLevel"@ =~= "kVTProfileLevel_"@ + "HEVC_Main_AutoLevel"@) by {
        reveal_strlit("kVTProfileLevel_HEVC_Main_AutoLevel");
        reveal_strlit("kVTProfileLevel_");
        reveal_strlit("HEVC_Main_AutoLevel");
    }
    assert("kVTProfileLevel_HEVC_Main_AutoLevel"@.subrange(0, 16) =~= "kVTProfileLevel_"@) by {
        reveal_strlit("kVTProfileLevel_HEVC_Main_AutoLevel");
        reveal_strlit("kVTProfileLevel_");
    }
    lemma_normalize_concat("kVTProfileLevel_"@, "HEVC_Main_AutoLevel"@);
    lemma_normalize_prefix();
}

#[verifier::spinoff_prover]
#[verifier::rlimit(50)]
proof fn lemma_symbol_HEVCMain10AutoLevel()
    ensures
        spec_profile_symbol(ProfileLevel::HEVCMain10AutoLevel)@.subrange(0, 16) == "kVTProfileLevel_"@,
        normalize_name(spec_profile_symbol(ProfileLevel::HEVCMain10AutoLevel)@) == "kvtprofilelevel"@
            + normalize_name(spec_profile_name(ProfileLevel::HEVCMain10AutoLevel)@),
{
    assert(normalize_name("HEVCMain10AutoLevel"@) =~= "hevcmain10autolevel"@) by {
        reveal_with_fuel(normalize_name, 21);
        reveal_strlit("HEVCMain10AutoLevel");
        reveal_strlit("hevcmain10autolevel");
    }
    assert(normalize_name("HEVC_Main10_AutoLevel"@) =~= "hevcmain10autolevel"@) by {
        reveal_with_fuel(normalize_name, 23);
        reveal_strlit("HEVC_Main10_AutoLevel");
        reveal_strlit("hevcmain10autolevel");
    }
    assert("kVTProfileLevel_HEVC_Main10_AutoLevel"@ =~= "kVTProfileLevel_"@ + "HEVC_Main10_AutoLevel"@) by {
        reveal_strlit("kVTProfileLevel_HEVC_Main10_AutoLevel");
        reveal_strlit("kVTProfileLevel_");
        reveal_strlit("HEVC_Main10_AutoLevel");
    }
    assert("kVTProfileLevel_HEVC_Main10_AutoLevel"@.subrange(0, 16) =~= "kVTProfileLevel_"@) by {
        reveal_strlit("kVTProfileLevel_HEVC_Main10_AutoLevel");
        reveal_strlit("kVTProfileLevel_");
    }
    lemma_normalize_concat("kVTProfileLevel_"@, "HEVC_Main10_AutoLevel"@);
    lemma_normalize_prefix();
}

#[verifier::spinoff_prover]
#[verifier::rlimit(50)]
proof fn lemma_symbol_HEVCMain42210AutoLevel()
    ensures
        spec_profile_symbol(ProfileLevel::HEVCMain42210AutoLevel)@.subrange(0, 16) == "kVTProfileLevel_"@,
        normalize_name(spec_profile_symbol(ProfileLevel::HEVCMain42210AutoLevel)@) == "kvtprofilelevel"@
            + normalize_name(spec_profile_name(ProfileLevel::HEVCMain42210AutoLevel)@),
{
    assert(normalize_name("HEVCMain42210AutoLevel"@) =~= "hevcmain42210autolevel"@) by {
        reveal_with_fuel(normalize_name, 24);
        reveal_strlit("HEVCMain42210AutoLevel");
        reveal_strlit("hevcmain42210autolevel");
    }
    assert(normalize_name("HEVC_Main42210_AutoLevel"@) =~= "hevcmain42210autolevel"@) by {
        reveal_with_fuel(normalize_name, 26);
        reveal_strlit("HEVC_Main42210_AutoLevel");
        reveal_strlit("hevcmain42210autolevel");
    }
    assert("kVTProfileLevel_HEVC_Main42210_AutoLevel"@ =~= "kVTProfileLevel_"@ + "HEVC_Main42210_AutoLevel"@) by {
        reveal_strlit("kVTProfileLevel_HEVC_Main42210_AutoLevel");
        reveal_strlit("kVTProfileLevel_");
        reveal_strlit("HEVC_Main42210_AutoLevel");
    }
    assert("kVTProfileLevel_HEVC_Main42210_AutoLevel"@.subrange(0, 16) =~= "kVTProfileLevel_"@) by {
        reveal_strlit("kVTProfileLevel_HEVC_Main42210_AutoLevel");
        reveal_strlit("kVTProfileLevel_");
    }
    lemma_normalize_concat("kVTProfileLevel_"@, "HEVC_Main42210_AutoLevel"@);
    lemma_normalize_prefix();
}

#[verifier::spinoff_prover]
#[verifier::rlimit(50)]
proof fn lemma_symbol_HEVCMonochromeAutoLevel()
    ensures
        spec_profile_symbol(ProfileLevel::HEVCMonochromeAutoLevel)@.subrange(0, 16) == "kVTProfileLevel_"@,
        normalize_name(spec_profile_symbol(ProfileLevel::HEVCMonochromeAutoLevel)@) == "kvtprofilelevel"@
            + normalize_name(spec_profile_name(ProfileLevel::HEVCMonochromeAutoLevel)@),
{
    assert(normalize_name("HEVCMonochromeAutoLevel"@) =~= "hevcmonochromeautolevel"@) by {
        reveal_with_fuel(normalize_name, 25);
        reveal_strlit("HEVCMonochromeAutoLevel");
        reveal_strlit("hevcmonochromeautolevel");
    }
    assert(normalize_name("HEVC_Monochrome_AutoLevel"@) =~= "hevcmonochromeautolevel"@) by {
        reveal_with_fuel(normalize_name, 27);
        reveal_strlit("HEVC_Monochrome_AutoLevel");
        reveal_strlit("hevcmonochromeautolevel");
    }
    assert("kVTProfileLevel_HEVC_Monochrome_AutoLevel"@ =~= "kVTProfileLevel_"@ + "HEVC_Monochrome_AutoLevel"@) by {
        reveal_strlit("kVTProfileLevel_HEVC_Monochrome_AutoLevel");
        reveal_strlit("kVTProfileLevel_");
        reveal_strlit("HEVC_Monochrome_AutoLevel");
    }
    assert("kVTProfileLevel_HEVC_Monochrome_AutoLevel"@.subrange(0, 16) =~= "kVTProfileLevel_"@) by {
        reveal_strlit("kVTProfileLevel_HEVC_Monochrome_AutoLevel");
        reveal_strlit("kVTProfileLevel_");
    }
    lemma_normalize_concat("kVTProfileLevel_"@, "HEVC_Monochrome_AutoLevel"@);
    lemma_normalize_prefix();
}

#[verifier::spinoff_prover]
#[verifier::rlimit(50)]
proof fn lemma_symbol_HEVCMonochrome10AutoLevel()
    ensures
        spec_profile_symbol(ProfileLevel::HEVCMonochrome10AutoLevel)@.subrange(0, 16) == "kVTProfileLevel_"@,
        normalize_name(spec_profile_symbol(ProfileLevel::HEVCMonochrome10AutoLevel)@) == "kvtprofilelevel"@
            + normalize_name(spec_profile_name(ProfileLevel::HEVCMonochrome10AutoLevel)@),
{
    assert(normalize_name("HEVCMonochrome10AutoLevel"@) =~= "hevcmonochrome10autolevel"@) by {
        reveal_with_fuel(normalize_name, 27);
        reveal_strlit("HEVCMonochrome10AutoLevel");
        reveal_strlit("hevcmonochrome10autolevel");
    }
    assert(normalize_name("HEVC_Monochrome10_AutoLevel"@) =~= "hevcmonochrome10autolevel"@) by {
        reveal_with_fuel(normalize_name, 29);
        reveal_strlit("HEVC_Monochrome10_AutoLevel");
        reveal_strlit("hevcmonochrome10autolevel");
    }
    assert("kVTProfileLevel_HEVC_Monochrome10_AutoLevel"@ =~= "kVTProfileLevel_"@ + "HEVC_Monochrome10_AutoLevel"@) by {
        reveal_strlit("kVTProfileLevel_HEVC_Monochrome10_AutoLevel");
        reveal_strlit("kVTProfileLevel_");
        reveal_strlit("HEVC_Monochrome10_AutoLevel");
    }
    assert("kVTProfileLevel_HEVC_Monochrome10_AutoLevel"@.subrange(0, 16) =~= "kVTProfileLevel_"@) by {
        reveal_strlit("kVTProfileLevel_HEVC_Monochrome10_AutoLevel");
        reveal_strlit("kVTProfileLevel_");
    }
    lemma_normalize_concat("kVTProfileLevel_"@, "HEVC_Monochrome10_AutoLevel"@);
    lemma_normalize_prefix();
}

#[verifier::spinoff_prover]
#[verifier::rlimit(50)]
proof fn lemma_symbol_MP4VAdvancedSimpleL0()
    ensures
        spec_profile_symbol(ProfileLevel::MP4VAdvancedSimpleL0)@.subrange(0, 16) == "kVTProfileLevel_"@,
        normalize_name(spec_profile_symbol(ProfileLevel::MP4VAdvancedSimpleL0)@) == "kvtprofilelevel"@
            + normalize_name(spec_profile_name(ProfileLevel::MP4VAdvancedSimpleL0)@),
{
    assert(normalize_name("MP4VAdvancedSimpleL0"@) =~= "mp4vadvancedsimplel0"@) by {
        reveal_with_fuel(normalize_name, 22);
        reveal_strlit("MP4VAdvancedSimpleL0");
        reveal_strlit("mp4vadvancedsimplel0");
    }
    assert(normalize_name("MP4V_AdvancedSimple_L0"@) =~= "mp4vadvancedsimplel0"@) by {
        reveal_with_fuel(normalize_name, 24);
        reveal_strlit("MP4V_AdvancedSimple_L0");
        reveal_strlit("mp4vadvancedsimplel0");
    }
    assert("kVTProfileLevel_MP4V_AdvancedSimple_L0"@ =~= "kVTProfileLevel_"@ + "MP4V_AdvancedSimple_L0"@) by {
        reveal_strlit("kVTProfileLevel_MP4V_AdvancedSimple_L0");
        reveal_strlit("kVTProfileLevel_");
        reveal_strlit("MP4V_AdvancedSimple_L0");
    }
    assert("kVTProfileLevel_MP4V_AdvancedSimple_L0"@.subrange(0, 16) =~= "kVTProfileLevel_"@) by {
        reveal_strlit("kVTProfileLevel_MP4V_AdvancedSimple_L0");
        reveal_strlit("kVTProfileLevel_");
    }
    lemma_normalize_concat("kVTProfileLevel_"@, "MP4V_AdvancedSimple_L0"@);
    lemma_normalize_prefix();
}

#[verifier::spinoff_prover]
#[verifier::rlimit(50)]
proof fn lemma_symbol_MP4VAdvancedSimpleL1()
    ensures
        spec_profile_symbol(ProfileLevel::MP4VAdvancedSimpleL1)@.subrange(0, 16) == "kVTProfileLevel_"@,
        normalize_name(spec_profile_symbol(ProfileLevel::MP4VAdvancedSimpleL1)@) == "kvtprofilelevel"@
            + normalize_name(spec_profile_name(ProfileLevel::MP4VAdvancedSimpleL1)@),
{
    assert(normalize_name("MP4VAdvancedSimpleL1"@) =~= "mp4vadvancedsimplel1"@) by {
        reveal_with_fuel(normalize_name, 22);
        reveal_strlit("MP4VAdvancedSimpleL1");
        reveal_strlit("mp4vadvancedsimplel1");
    }
    assert(normalize_name("MP4V_AdvancedSimple_L1"@) =~= "mp4vadvancedsimplel1"@) by {
        reveal_with_fuel(normalize_name, 24);
        reveal_strlit("MP4V_AdvancedSimple_L1");
        reveal_strlit("mp4vadvancedsimplel1");
    }
    assert("kVTProfileLevel_MP4V_AdvancedSimple_L1"@ =~= "kVTProfileLevel_"@ + "MP4V_AdvancedSimple_L1"@) by {
        reveal_strlit("kVTProfileLevel_MP4V_AdvancedSimple_L1");
        reveal_strlit("kVTProfileLevel_");
        reveal_strlit("MP4V_AdvancedSimple_L1");
    }
    assert("kVTProfileLevel_MP4V_AdvancedSimple_L1"@.subrange(0, 16) =~= "kVTProfileLevel_"@) by {
        reveal_strlit("kVTProfileLevel_MP4V_AdvancedSimple_L1");
        reveal_strlit("kVTProfileLevel_");
    }
    lemma_normalize_concat("kVTProfileLevel_"@, "MP4V_AdvancedSimple_L1"@);
    lemma_normalize_prefix();
}

#[verifier::spinoff_prover]
#[verifier::rlimit(50)]
proof fn lemma_symbol_MP4VAdvancedSimpleL2()
    ensures
        spec_profile_symbol(ProfileLevel::MP4VAdvancedSimpleL2)@.subrange(0, 16) == "kVTProfileLevel_"@,
        normalize_name(spec_profile_symbol(ProfileLevel::MP4VAdvancedSimpleL2)@) == "kvtprofilelevel"@
            + normalize_name(spec_profile_name(ProfileLevel::MP4VAdvancedSimpleL2)@),
{
    assert(normalize_name("MP4VAdvancedSimpleL2"@) =~= "mp4vadvancedsimplel2"@) by {
        reveal_with_fuel(normalize_name, 22);
        reveal_strlit("MP4VAdvancedSimpleL2");
        reveal_strlit("mp4vadvancedsimplel2");
    }
    assert(normalize_name("MP4V_AdvancedSimple_L2"@) =~= "mp4vadvancedsimplel2"@) by {
        reveal_with_fuel(normalize_name, 24);
        reveal_strlit("MP4V_AdvancedSimple_L2");
        reveal_strlit("mp4vadvancedsimplel2");
    }
    assert("kVTProfileLevel_MP4V_AdvancedSimple_L2"@ =~= "kVTProfileLevel_"@ + "MP4V_AdvancedSimple_L2"@) by {
        reveal_strlit("kVTProfileLevel_MP4V_AdvancedSimple_L2");
        reveal_strlit("kVTProfileLevel_");
        reveal_strlit("MP4V_AdvancedSimple_L2");
    }
    assert("kVTProfileLevel_MP4V_AdvancedSimple_L2"@.subrange(0, 16) =~= "kVTProfileLevel_"@) by {
        reveal_strlit("kVTProfileLevel_MP4V_AdvancedSimple_L2");
        reveal_strlit("kVTProfileLevel_");
    }
    lemma_normalize_concat("kVTProfileLevel_"@, "MP4V_AdvancedSimple_L2"@);
    lemma_normalize_prefix();
}

#[verifier::spinoff_prover]
#[verifier::rlimit(50)]
proof fn lemma_symbol_MP4VAdvancedSimpleL3()
    ensures
        spec_profile_symbol(ProfileLevel::MP4VAdvancedSimpleL3)@.subrange(0, 16) == "kVTProfileLevel_"@,
        normalize_name(spec_profile_symbol(ProfileLevel::MP4VAdvancedSimpleL3)@) == "kvtprofilelevel"@
            + normalize_name(spec_profile_name(ProfileLevel::MP4VAdvancedSimpleL3)@),
{
    assert(normalize_name("MP4VAdvancedSimpleL3"@) =~= "mp4vadvancedsimplel3"@) by {
        reveal_with_fuel(normalize_name, 22);
        reveal_strlit("MP4VAdvancedSimpleL3");
        reveal_strlit("mp4vadvancedsimplel3");
    }
    assert(normalize_name("MP4V_AdvancedSimple_L3"@) =~= "mp4vadvancedsimplel3"@) by {
        reveal_with_fuel(normalize_name, 24);
        reveal_strlit("MP4V_AdvancedSimple_L3");
        reveal_strlit("mp4vadvancedsimplel3");
    }
    assert("kVTProfileLevel_MP4V_AdvancedSimple_L3"@ =~= "kVTProfileLevel_"@ + "MP4V_AdvancedSimple_L3"@) by {
        reveal_strlit("kVTProfileLevel_MP4V_AdvancedSimple_L3");
        reveal_strlit("kVTProfileLevel_");
        reveal_strlit("MP4V_AdvancedSimple_L3");
    }
    assert("kVTProfileLevel_MP4V_AdvancedSimple_L3"@.subrange(0, 16) =~= "kVTProfileLevel_"@) by {
        reveal_strlit("kVTProfileLevel_MP4V_AdvancedSimple_L3");
        reveal_strlit("kVTProfileLevel_");
    }
    lemma_normalize_concat("kVTProfileLevel_"@, "MP4V_AdvancedSimple_L3"@);
    lemma_normalize_prefix();
}

#[verifier::spinoff_prover]
#[verifier::rlimit(50)]
proof fn lemma_symbol_MP4VAdvancedSimpleL4()
    ensures
        spec_profile_symbol(ProfileLevel::MP4VAdvancedSimpleL4)@.subrange(0, 16) == "kVTProfileLevel_"@,
        normalize_name(spec_profile_symbol(ProfileLevel::MP4VAdvancedSimpleL4)@) == "kvtprofilelevel"@
            + normalize_name(spec_profile_name(ProfileLevel::MP4VAdvancedSimpleL4)@),
{
    assert(normalize_name("MP4VAdvancedSimpleL4"@) =~= "mp4vadvancedsimplel4"@) by {
        reveal_with_fuel(normalize_name, 22);
        reveal_strlit("MP4VAdvancedSimpleL4");
        reveal_strlit("mp4vadvancedsimplel4");
    }
    assert(normalize_name("MP4V_AdvancedSimple_L4"@) =~= "mp4vadvancedsimplel4"@) by {
        reveal_with_fuel(normalize_name, 24);
        reveal_strlit("MP4V_AdvancedSimple_L4");
        reveal_strlit("mp4vadvancedsimplel4");
    }
    assert("kVTProfileLevel_MP4V_AdvancedSimple_L4"@ =~= "kVTProfileLevel_"@ + "MP4V_AdvancedSimple_L4"@) by {
        reveal_strlit("kVTProfileLevel_MP4V_AdvancedSimple_L4");
        reveal_strlit("kVTProfileLevel_");
        reveal_strlit("MP4V_AdvancedSimple_L4");
    }
    assert("kVTProfileLevel_MP4V_AdvancedSimple_L4"@.subrange(0, 16) =~= "kVTProfileLevel_"@) by {
        reveal_strlit("kVTProfileLevel_MP4V_AdvancedSimple_L4");
        reveal_strlit("kVTProfileLevel_");
    }
    lemma_normalize_concat("kVTProfileLevel_"@, "MP4V_AdvancedSimple_L4"@);
    lemma_normalize_prefix();
}

#[verifier::spinoff_prover]
#[verifier::rlimit(50)]
proof fn lemma_symbol_MP4VMainL2()
    ensures
        spec_profile_symbol(ProfileLevel::MP4VMainL2)@.subrange(0, 16) == "kVTProfileLevel_"@,
        normalize_name(spec_profile_symbol(ProfileLevel::MP4VMainL2)@) == "kvtprofilelevel"@
            + normalize_name(spec_profile_name(ProfileLevel::MP4VMainL2)@),
{
    assert(normalize_name("MP4VMainL2"@) =~= "mp4vmainl2"@) by {
        reveal_with_fuel(normalize_name, 12);
        reveal_strlit("MP4VMainL2");
        reveal_strlit("mp4vmainl2");
    }
    assert(normalize_name("MP4V_Main_L2"@) =~= "mp4vmainl2"@) by {
        reveal_with_fuel(normalize_name, 14);
        reveal_strlit("MP4V_Main_L2");
        reveal_strlit("mp4vmainl2");
    }
    assert("kVTProfileLevel_MP4V_Main_L2"@ =~= "kVTProfileLevel_"@ + "MP4V_Main_L2"@) by {
        reveal_strlit("kVTProfileLevel_MP4V_Main_L2");
        reveal_strlit("kVTProfileLevel_");
        reveal_strlit("MP4V_Main_L2");
    }
    assert("kVTProfileLevel_MP4V_Main_L2"@.subrange(0, 16) =~= "kVTProfileLevel_"@) by {
        reveal_strlit("kVTProfileLevel_MP4V_Main_L2");
        reveal_strlit("kVTProfileLevel_");
    }
    lemma_normalize_concat("kVTProfileLevel_"@, "MP4V_Main_L2"@);
    lemma_normalize_prefix();
}

#[verifier::spinoff_prover]
#[verifier::rlimit(50)]
proof fn lemma_symbol_MP4VMainL3()
    ensures
        spec_profile_symbol(ProfileLevel::MP4VMainL3)@.subrange(0, 16) == "kVTProfileLevel_"@,
        normalize_name(spec_profile_symbol(ProfileLevel::MP4VMainL3)@) == "kvtprofilelevel"@
            + normalize_name(spec_profile_name(ProfileLevel::MP4VMainL3)@),
{
    assert(normalize_name("MP4VMainL3"@) =~= "mp4vmainl3"@) by {
        reveal_with_fuel(normalize_name, 12);
        reveal_strlit("MP4VMainL3");
        reveal_strlit("mp4vmainl3");
    }
    assert(normalize_name("MP4V_Main_L3"@) =~= "mp4vmainl3"@) by {
        reveal_with_fuel(normalize_name, 14);
        reveal_strlit("MP4V_Main_L3");
        reveal_strlit("mp4vmainl3");
    }
    assert("kVTProfileLevel_MP4V_Main_L3"@ =~= "kVTProfileLevel_"@ + "MP4V_Main_L3"@) by {
        reveal_strlit("kVTProfileLevel_MP4V_Main_L3");
        reveal_strlit("kVTProfileLevel_");
        reveal_strlit("MP4V_Main_L3");
    }
    assert("kVTProfileLevel_MP4V_Main_L3"@.subrange(0, 16) =~= "kVTProfileLevel_"@) by {
        reveal_strlit("kVTProfileLevel_MP4V_Main_L3");
        reveal_strlit("kVTProfileLevel_");
    }
    lemma_normalize_concat("kVTProfileLevel_"@, "MP4V_Main_L3"@);
    lemma_normalize_prefix();
}

#[verifier::spinoff_prover]
#[verifier::rlimit(50)]
proof fn lemma_symbol_MP4VMainL4()
    ensures
        spec_profile_symbol(ProfileLevel::MP4VMainL4)@.subrange(0, 16) == "kVTProfileLevel_"@,
        normalize_name(spec_profile_symbol(ProfileLevel::MP4VMainL4)@) == "kvtprofilelevel"@
            + normalize_name(spec_profile_name(ProfileLevel::MP4VMainL4)@),
{
    assert(normalize_name("MP4VMainL4"@) =~= "mp4vmainl4"@) by {
        reveal_with_fuel(normalize_name, 12);
        reveal_strlit("MP4VMainL4");
        reveal_strlit("mp4vmainl4");
    }
    assert(normalize_name("MP4V_Main_L4"@) =~= "mp4vmainl4"@) by {
        reveal_with_fuel(normalize_name, 14);
        reveal_strlit("MP4V_Main_L4");
        reveal_strlit("mp4vmainl4");
    }
    assert("kVTProfileLevel_MP4V_Main_L4"@ =~= "kVTProfileLevel_"@ + "MP4V_Main_L4"@) by {
        reveal_strlit("kVTProfileLevel_MP4V_Main_L4");
        reveal_strlit("kVTProfileLevel_");
        reveal_strlit("MP4V_Main_L4");
    }
    assert("kVTProfileLevel_MP4V_Main_L4"@.subrange(0, 16) =~= "kVTProfileLevel_"@) by {
        reveal_strlit("kVTProfileLevel_MP4V_Main_L4");
        reveal_strlit("kVTProfileLevel_");
    }
    lemma_normalize_concat("kVTProfileLevel_"@, "MP4V_Main_L4"@);
    lemma_normalize_prefix();
}

#[verifier::spinoff_prover]
#[verifier::rlimit(50)]
proof fn lemma_symbol_MP4VSimpleL0()
    ensures
        spec_profile_symbol(ProfileLevel::MP4VSimpleL0)@.subrange(0, 16) == "kVTProfileLevel_"@,
        normalize_name(spec_profile_symbol(ProfileLevel::MP4VSimpleL0)@) == "kvtprofilelevel"@
            + normalize_name(spec_profile_name(ProfileLevel::MP4VSimpleL0)@),
{
    assert(normalize_name("MP4VSimpleL0"@) =~= "mp4vsimplel0"@) by {
        reveal_with_fuel(normalize_name, 14);
        reveal_strlit("MP4VSimpleL0");
        reveal_strlit("mp4vsimplel0");
    }
    assert(normalize_name("MP4V_Simple_L0"@) =~= "mp4vsimplel0"@) by {
        reveal_with_fuel(normalize_name, 16);
        reveal_strlit("MP4V_Simple_L0");
        reveal_strlit("mp4vsimplel0");
    }
    assert("kVTProfileLevel_MP4V_Simple_L0"@ =~= "kVTProfileLevel_"@ + "MP4V_Simple_L0"@) by {
        reveal_strlit("kVTProfileLevel_MP4V_Simple_L0");
        reveal_strlit("kVTProfileLevel_");
        reveal_strlit("MP4V_Simple_L0");
    }
    assert("kVTProfileLevel_MP4V_Simple_L0"@.subrange(0, 16) =~= "kVTProfileLevel_"@) by {
        reveal_strlit("kVTProfileLevel_MP4V_Simple_L0");
        reveal_strlit("kVTProfileLevel_");
    }
    lemma_normalize_concat("kVTProfileLevel_"@, "MP4V_Simple_L0"@);
    lemma_normalize_prefix();
}

#[verifier::spinoff_prover]
#[verifier::rlimit(50)]
proof fn lemma_symbol_MP4VSimpleL1()
    ensures
        spec_profile_symbol(ProfileLevel::MP4VSimpleL1)@.subrange(0, 16) == "kVTProfileLevel_"@,
        normalize_name(spec_profile_symbol(ProfileLevel::MP4VSimpleL1)@) == "kvtprofilelevel"@
            + normalize_name(spec_profile_name(ProfileLevel::MP4VSimpleL1)@),
{
    assert(normalize_name("MP4VSimpleL1"@) =~= "mp4vsimplel1"@) by {
        reveal_with_fuel(normalize_name, 14);
        reveal_strlit("MP4VSimpleL1");
        reveal_strlit("mp4vsimplel1");
    }
    assert(normalize_name("MP4V_Simple_L1"@) =~= "mp4vsimplel1"@) by {
        reveal_with_fuel(normalize_name, 16);
        reveal_strlit("MP4V_Simple_L1");
        reveal_strlit("mp4vsimplel1");
    }
    assert("kVTProfileLevel_MP4V_Simple_L1"@ =~= "kVTProfileLevel_"@ + "MP4V_Simple_L1"@) by {
        reveal_strlit("kVTProfileLevel_MP4V_Simple_L1");
        reveal_strlit("kVTProfileLevel_");
        reveal_strlit("MP4V_Simple_L1");
    }
    assert("kVTProfileLevel_MP4V_Simple_L1"@.subrange(0, 16) =~= "kVTProfileLevel_"@) by {
        reveal_strlit("kVTProfileLevel_MP4V_Simple_L1");
        reveal_strlit("kVTProfileLevel_");
    }
    lemma_normalize_concat("kVTProfileLevel_"@, "MP4V_Simple_L1"@);
    lemma_normalize_prefix();
}

#[verifier::spinoff_prover]
#[verifier::rlimit(50)]
proof fn lemma_symbol_MP4VSimpleL2()
    ensures
        spec_profile_symbol(ProfileLevel::MP4VSimpleL2)@.subrange(0, 16) == "kVTProfileLevel_"@,
        normalize_name(spec_profile_symbol(ProfileLevel::MP4VSimpleL2)@) == "kvtprofilelevel"@
            + normalize_name(spec_profile_name(ProfileLevel::MP4VSimpleL2)@),
{
    assert(normalize_name("MP4VSimpleL2"@) =~= "mp4vsimplel2"@) by {
        reveal_with_fuel(normalize_name, 14);
        reveal_strlit("MP4VSimpleL2");
        reveal_strlit("mp4vsimplel2");
    }
    assert(normalize_name("MP4V_Simple_L2"@) =~= "mp4vsimplel2"@) by {
        reveal_with_fuel(normalize_name, 16);
        reveal_strlit("MP4V_Simple_L2");
        reveal_strlit("mp4vsimplel2");
    }
    assert("kVTProfileLevel_MP4V_Simple_L2"@ =~= "kVTProfileLevel_"@ + "MP4V_Simple_L2"@) by {
        reveal_strlit("kVTProfileLevel_MP4V_Simple_L2");
        reveal_strlit("kVTProfileLevel_");
        reveal_strlit("MP4V_Simple_L2");
    }
    assert("kVTProfileLevel_MP4V_Simple_L2"@.subrange(0, 16) =~= "kVTProfileLevel_"@) by {
        reveal_strlit("kVTProfileLevel_MP4V_Simple_L2");
        reveal_strlit("kVTProfileLevel_");
    }
    lemma_normalize_concat("kVTProfileLevel_"@, "MP4V_Simple_L2"@);
    lemma_normalize_prefix();
}

#[verifier::spinoff_prover]
#[verifier::rlimit(50)]
proof fn lemma_symbol_MP4VSimpleL3()
    ensures
        spec_profile_symbol(ProfileLevel::MP4VSimpleL3)@.subrange(0, 16) == "kVTProfileLevel_"@,
        normalize_name(spec_profile_symbol(ProfileLevel::MP4VSimpleL3)@) == "kvtprofilelevel"@
            + normalize_name(spec_profile_name(ProfileLevel::MP4VSimpleL3)@),
{
    assert(normalize_name("MP4VSimpleL3"@) =~= "mp4vsimplel3"@) by {
        reveal_with_fuel(normalize_name, 14);
        reveal_strlit("MP4VSimpleL3");
        reveal_strlit("mp4vsimplel3");
    }
    assert(normalize_name("MP4V_Simple_L3"@) =~= "mp4vsimplel3"@) by {
        reveal_with_fuel(normalize_name, 16);
        reveal_strlit("MP4V_Simple_L3");
        reveal_strlit("mp4vsimplel3");
    }
    assert("kVTProfileLevel_MP4V_Simple_L3"@ =~= "kVTProfileLevel_"@ + "MP4V_Simple_L3"@) by {
        reveal_strlit("kVTProfileLevel_MP4V_Simple_L3");
        reveal_strlit("kVTProfileLevel_");
        reveal_strlit("MP4V_Simple_L3");
    }
    assert("kVTProfileLevel_MP4V_Simple_L3"@.subrange(0, 16) =~= "kVTProfileLevel_"@) by {
        reveal_strlit("kVTProfileLevel_MP4V_Simple_L3");
        reveal_strlit("kVTProfileLevel_");
    }
    lemma_normalize_concat("kVTProfileLevel_"@, "MP4V_Simple_L3"@);
    lemma_normalize_prefix();
}

/// Each profile level is configured with the SDK symbol named after it: the
/// symbol is `kVTProfileLevel_` followed by the profile level's own name
/// with its profile and level separated, so that its letters and digits
/// after the prefix are the name's, case aside (`H264High4_1` is configured
/// as `kVTProfileLevel_H264_High_4_1`, not as any other level).
pub proof fn lemma_profile_symbol_spells_the_profile_name(p: ProfileLevel)
    ensures
        spec_profile_symbol(p)@.subrange(0, 16) == "kVTProfileLevel_"@,
        normalize_name(spec_profile_symbol(p)@) == "kvtprofilelevel"@ + normalize_name(
            spec_profile_name(p)@,
        ),
{
    match p {
        ProfileLevel::H263Profile0Level10 => lemma_symbol_H263Profile0Level10(),
        ProfileLevel::H263Profile0Level45 => lemma_symbol_H263Profile0Level45(),
        ProfileLevel::H263Profile3Level45 => lemma_symbol_H263Profile3Level45(),
        ProfileLevel::H264Baseline1_3 => lemma_symbol_H264Baseline1_3(),
        ProfileLevel::H264Baseline3_0 => lemma_symbol_H264Baseline3_0(),
        ProfileLevel::H264Baseline3_1 => lemma_symbol_H264Baseline3_1(),
        ProfileLevel::H264Baseline3_2 => lemma_symbol_H264Baseline3_2(),
        ProfileLevel::H264Baseline4_0 => lemma_symbol_H264Baseline4_0(),
        ProfileLevel::H264Baseline4_1 => lemma_symbol_H264Baseline4_1(),
        ProfileLevel::H264Baseline4_2 => lemma_symbol_H264Baseline4_2(),
        ProfileLevel::H264Baseline5_0 => lemma_symbol_H264Baseline5_0(),
        ProfileLevel::H264Baseline5_1 => lemma_symbol_H264Baseline5_1(),
        ProfileLevel::H264Baseline5_2 => lemma_symbol_H264Baseline5_2(),
        ProfileLevel::H264BaselineAutoLevel => lemma_symbol_H264BaselineAutoLevel(),
        ProfileLevel::H264ConstrainedBaselineAutoLevel => lemma_symbol_H264ConstrainedBaselineAutoLevel(),
        ProfileLevel::H264ConstrainedHighAutoLevel => lemma_symbol_H264ConstrainedHighAutoLevel(),
        ProfileLevel::H264Extended5_0 => lemma_symbol_H264Extended5_0(),
        ProfileLevel::H264ExtendedAutoLevel => lemma_symbol_H264ExtendedAutoLevel(),
        ProfileLevel::H264High3_0 => lemma_symbol_H264High3_0(),
        ProfileLevel::H264High3_1 => lemma_symbol_H264High3_1(),
        ProfileLevel::H264High3_2 => lemma_symbol_H264High3_2(),
        ProfileLevel::H264High4_0 => lemma_symbol_H264High4_0(),
        ProfileLevel::H264High4_1 => lemma_symbol_H264High4_1(),
        ProfileLevel::H264High4_2 => lemma_symbol_H264High4_2(),
        ProfileLevel::H264High5_0 => lemma_symbol_H264High5_0(),
        ProfileLevel::H264High5_1 => lemma_symbol_H264High5_1(),
        ProfileLevel::H264High5_2 => lemma_symbol_H264High5_2(),
        ProfileLevel::H264HighAutoLevel => lemma_symbol_H264HighAutoLevel(),
        ProfileLevel::H264Main3_0 => lemma_symbol_H264Main3_0(),
        ProfileLevel::H264Main3_1 => lemma_symbol_H264Main3_1(),
        ProfileLevel::H264Main3_2 => lemma_symbol_H264Main3_2(),
        ProfileLevel::H264Main4_0 => lemma_symbol_H264Main4_0(),
        ProfileLevel::H264Main4_1 => lemma_symbol_H264Main4_1(),
        ProfileLevel::H264Main4_2 => lemma_symbol_H264Main4_2(),
        ProfileLevel::H264Main5_0 => lemma_symbol_H264Main5_0(),
        ProfileLevel::H264Main5_1 => lemma_symbol_H264Main5_1(),
        ProfileLevel::H264Main5_2 => lemma_symbol_H264Main5_2(),
        ProfileLevel::H264MainAutoLevel => lemma_symbol_H264MainAutoLevel(),
        ProfileLevel::HEVCMainAutoLevel => lemma_symbol_HEVCMainAutoLevel(),
        ProfileLevel::HEVCMain10AutoLevel => lemma_symbol_HEVCMain10AutoLevel(),
        ProfileLevel::HEVCMain42210AutoLevel => lemma_symbol_HEVCMain42210AutoLevel(),
        ProfileLevel::HEVCMonochromeAutoLevel => lemma_symbol_HEVCMonochromeAutoLevel(),
        ProfileLevel::HEVCMonochrome10AutoLevel => lemma_symbol_HEVCMonochrome10AutoLevel(),
        ProfileLevel::MP4VAdvancedSimpleL0 => lemma_symbol_MP4VAdvancedSimpleL0(),
        ProfileLevel::MP4VAdvancedSimpleL1 => lemma_symbol_MP4VAdvancedSimpleL1(),
        ProfileLevel::MP4VAdvancedSimpleL2 => lemma_symbol_MP4VAdvancedSimpleL2(),
        ProfileLevel::MP4VAdvancedSimpleL3 => lemma_symbol_MP4VAdvancedSimpleL3(),
        ProfileLevel::MP4VAdvancedSimpleL4 => lemma_symbol_MP4VAdvancedSimpleL4(),
        ProfileLevel::MP4VMainL2 => lemma_symbol_MP4VMainL2(),
        ProfileLevel::MP4VMainL3 => lemma_symbol_MP4VMainL3(),
        ProfileLevel::MP4VMainL4 => lemma_symbol_MP4VMainL4(),
        ProfileLevel::MP4VSimpleL0 => lemma_symbol_MP4VSimpleL0(),
        ProfileLevel::MP4VSimpleL1 => lemma_symbol_MP4VSimpleL1(),
        ProfileLevel::MP4VSimpleL2 => lemma_symbol_MP4VSimpleL2(),
        ProfileLevel::MP4VSimpleL3 => lemma_symbol_MP4VSimpleL3(),
    }
}

/// Distinct profile levels have distinct names (even ignoring case and
/// separators) and are configured with distinct SDK symbols.
pub proof fn lemma_profile_names_and_symbols_are_distinct(p: ProfileLevel, q: ProfileLevel)
    requires
        p != q,
    ensures
        normalize_name(spec_profile_name(p)@) != normalize_name(spec_profile_name(q)@),
        spec_profile_name(p)@ != spec_profile_name(q)@,
        spec_profile_symbol(p)@ != spec_profile_symbol(q)@,
{
    lemma_profile_key_rank(p);
    lemma_profile_key_rank(q);
    lemma_profile_at_index(p);
    lemma_profile_at_index(q);
    lemma_profile_symbol_spells_the_profile_name(p);
    lemma_profile_symbol_spells_the_profile_name(q);
    let kp = normalize_name(spec_profile_name(p)@);
    let kq = normalize_name(spec_profile_name(q)@);
    let pre = "kvtprofilelevel"@;
    if spec_profile_symbol(p)@ == spec_profile_symbol(q)@ {
        assert(kp =~= (pre + kp).skip(pre.len() as int));
        assert(kq =~= (pre + kq).skip(pre.len() as int));
    }
}

} // verus!
