use mpeg4_audio_const::names::lookup_name;
use mpeg4_audio_const::AudioObjectType;

fn check(constant: AudioObjectType, code: u8, name: &str) {
    assert_eq!(Ok(constant), AudioObjectType::try_from(code));
    assert_eq!(code, u8::from(constant));
    assert_eq!(Some(name), constant.name());
    assert_eq!(Some(name), lookup_name(code));
    assert_eq!(format!("{}({})", name, code), constant.debug_string());
    assert_eq!(format!("{}({})", name, code), format!("{:?}", constant));
}

#[test]
fn named_constants_low_codes() {
    check(AudioObjectType::NULL(), 0, "NULL");
    check(AudioObjectType::AAC_MAIN(), 1, "AAC_MAIN");
    check(AudioObjectType::AAC_LC(), 2, "AAC_LC");
    check(AudioObjectType::AAC_SSR(), 3, "AAC_SSR");
    check(AudioObjectType::AAC_LTP(), 4, "AAC_LTP");
    check(AudioObjectType::SBR(), 5, "SBR");
    check(AudioObjectType::AAC_SCALABLE(), 6, "AAC_SCALABLE");
    check(AudioObjectType::TWIN_VQ(), 7, "TWIN_VQ");
    check(AudioObjectType::CELP(), 8, "CELP");
    check(AudioObjectType::HVXC(), 9, "HVXC");
}

#[test]
fn named_constants_synthesis_and_error_resilient() {
    check(AudioObjectType::TTSI(), 12, "TTSI");
    check(AudioObjectType::MAIN_SYNTHETIC(), 13, "MAIN_SYNTHETIC");
    check(AudioObjectType::WAVETABLE_SYNTHESIS(), 14, "WAVETABLE_SYNTHESIS");
    check(AudioObjectType::GENERAL_MIDI(), 15, "GENERAL_MIDI");
    check(AudioObjectType::ALGORITHMIC_SYNTHESIS_AND_AUDIO_FX(), 16, "ALGORITHMIC_SYNTHESIS_AND_AUDIO_FX");
    check(AudioObjectType::ER_AAC_LC(), 17, "ER_AAC_LC");
    check(AudioObjectType::ER_AAC_LTP(), 19, "ER_AAC_LTP");
    check(AudioObjectType::ER_AAC_SCALABLE(), 20, "ER_AAC_SCALABLE");
    check(AudioObjectType::ER_TWIN_VQ(), 21, "ER_TWIN_VQ");
    check(AudioObjectType::ER_BSAC(), 22, "ER_BSAC");
    check(AudioObjectType::ER_AAC_LD(), 23, "ER_AAC_LD");
    check(AudioObjectType::ER_CELP(), 24, "ER_CELP");
    check(AudioObjectType::ER_HVXC(), 25, "ER_HVXC");
    check(AudioObjectType::ER_HILN(), 26, "ER_HILN");
    check(AudioObjectType::ER_PARAMETRIC(), 27, "ER_PARAMETRIC");
    check(AudioObjectType::SSC(), 28, "SSC");
    check(AudioObjectType::PS(), 29, "PS");
    check(AudioObjectType::MPEG_SURROUND(), 30, "MPEG_SURROUND");
}

#[test]
fn named_constants_above_the_escape_value() {
    check(AudioObjectType::LAYER1(), 32, "LAYER1");
    check(AudioObjectType::LAYER3(), 34, "LAYER3");
    check(AudioObjectType::DST(), 35, "DST");
    check(AudioObjectType::ALS(), 36, "ALS");
    check(AudioObjectType::SLS(), 37, "SLS");
    check(AudioObjectType::SLS_NON_CORE(), 38, "SLS_NON_CORE");
    check(AudioObjectType::ER_AAC_ELD(), 39, "ER_AAC_ELD");
    check(AudioObjectType::SMR_SIMPLE(), 40, "SMR_SIMPLE");
    check(AudioObjectType::SMR_MAIN(), 41, "SMR_MAIN");
    check(AudioObjectType::USAC(), 42, "USAC");
    check(AudioObjectType::SAOC(), 43, "SAOC");
    check(AudioObjectType::LD_MPEG_SURROUND(), 44, "LD_MPEG_SURROUND");
    check(AudioObjectType::SAOC_DE(), 45, "SAOC_DE");
    check(AudioObjectType::AUDIO_SYNC(), 46, "AUDIO_SYNC");
}

#[test]
fn the_table_names_42_codes() {
    let mut named: u32 = 0;
    for b in 0..=255u8 {
        if lookup_name(b).is_some() {
            named += 1;
            assert!(AudioObjectType::try_from(b).is_ok(), "byte {}", b);
        }
    }
    assert_eq!(42, named);
}

#[test]
fn codes_without_a_name() {
    for b in [10u8, 11, 18, 33, 47, 48, 64, 94, 95] {
        assert_eq!(None, lookup_name(b));
        assert_eq!(None, AudioObjectType::try_from(b).unwrap().name());
    }
    assert_eq!(None, lookup_name(31));
    assert_eq!(None, lookup_name(96));
    assert_eq!(None, lookup_name(255));
}

#[test]
fn name_of_a_converted_byte() {
    assert_eq!(Some("AAC_LC"), AudioObjectType::try_from(2).unwrap().name());
    assert_eq!(Some("NULL"), AudioObjectType::try_from(0).unwrap().name());
    assert_eq!(Some("AUDIO_SYNC"), AudioObjectType::try_from(46).unwrap().name());
    assert_eq!(None, AudioObjectType::try_from(47).unwrap().name());
}
