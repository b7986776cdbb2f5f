//! The table of the audio object types that the standard has given a name.

use vstd::prelude::*;

verus! {

/// The name that the standard gives to the audio object type with code `code`, for the codes
/// that it names. The escape value and the codes that the standard holds in reserve have none.
pub open spec fn name_of(code: u8) -> Option<Seq<char>> {
    match code {
        0 => Some("NULL"@),
        1 => Some("AAC_MAIN"@),
        2 => Some("AAC_LC"@),
        3 => Some("AAC_SSR"@),
        4 => Some("AAC_LTP"@),
        5 => Some("SBR"@),
        6 => Some("AAC_SCALABLE"@),
        7 => Some("TWIN_VQ"@),
        8 => Some("CELP"@),
        9 => Some("HVXC"@),
        12 => Some("TTSI"@),
        13 => Some("MAIN_SYNTHETIC"@),
        14 => Some("WAVETABLE_SYNTHESIS"@),
        15 => Some("GENERAL_MIDI"@),
        16 => Some("ALGORITHMIC_SYNTHESIS_AND_AUDIO_FX"@),
        17 => Some("ER_AAC_LC"@),
        19 => Some("ER_AAC_LTP"@),
        20 => Some("ER_AAC_SCALABLE"@),
        21 => Some("ER_TWIN_VQ"@),
        22 => Some("ER_BSAC"@),
        23 => Some("ER_AAC_LD"@),
        24 => Some("ER_CELP"@),
        25 => Some("ER_HVXC"@),
        26 => Some("ER_HILN"@),
        27 => Some("ER_PARAMETRIC"@),
        28 => Some("SSC"@),
        29 => Some("PS"@),
        30 => Some("MPEG_SURROUND"@),
        32 => Some("LAYER1"@),
        34 => Some("LAYER3"@),
        35 => Some("DST"@),
        36 => Some("ALS"@),
        37 => Some("SLS"@),
        38 => Some("SLS_NON_CORE"@),
        39 => Some("ER_AAC_ELD"@),
        40 => Some("SMR_SIMPLE"@),
        41 => Some("SMR_MAIN"@),
        42 => Some("USAC"@),
        43 => Some("SAOC"@),
        44 => Some("LD_MPEG_SURROUND"@),
        45 => Some("SAOC_DE"@),
        46 => Some("AUDIO_SYNC"@),
        _ => None,
    }
}

/// Looks up the name of the audio object type with code `code`.
pub fn lookup_name(code: u8) -> (r: Option<&'static str>)
    ensures
        match r {
            Some(name) => name_of(code) == Some(name@),
            None => name_of(code) is None,
        },
{
    match code {
        0 => Some("NULL"),
        1 => Some("AAC_MAIN"),
        2 => Some("AAC_LC"),
        3 => Some("AAC_SSR"),
        4 => Some("AAC_LTP"),
        5 => Some("SBR"),
        6 => Some("AAC_SCALABLE"),
        7 => Some("TWIN_VQ"),
        8 => Some("CELP"),
        9 => Some("HVXC"),
        12 => Some("TTSI"),
        13 => Some("MAIN_SYNTHETIC"),
        14 => Some("WAVETABLE_SYNTHESIS"),
        15 => Some("GENERAL_MIDI"),
        16 => Some("ALGORITHMIC_SYNTHESIS_AND_AUDIO_FX"),
        17 => Some("ER_AAC_LC"),
        19 => Some("ER_AAC_LTP"),
        20 => Some("ER_AAC_SCALABLE"),
        21 => Some("ER_TWIN_VQ"),
        22 => Some("ER_BSAC"),
        23 => Some("ER_AAC_LD"),
        24 => Some("ER_CELP"),
        25 => Some("ER_HVXC"),
        26 => Some("ER_HILN"),
        27 => Some("ER_PARAMETRIC"),
        28 => Some("SSC"),
        29 => Some("PS"),
        30 => Some("MPEG_SURROUND"),
        32 => Some("LAYER1"),
        34 => Some("LAYER3"),
        35 => Some("DST"),
        36 => Some("ALS"),
        37 => Some("SLS"),
        38 => Some("SLS_NON_CORE"),
        39 => Some("ER_AAC_ELD"),
        40 => Some("SMR_SIMPLE"),
        41 => Some("SMR_MAIN"),
        42 => Some("USAC"),
        43 => Some("SAOC"),
        44 => Some("LD_MPEG_SURROUND"),
        45 => Some("SAOC_DE"),
        46 => Some("AUDIO_SYNC"),
        _ => None,
    }
}

} // verus!
