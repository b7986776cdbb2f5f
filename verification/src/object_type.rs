//! The audio object type indicator and its conversion from and to a raw byte.

use crate::names::{lookup_name, name_of};
use crate::render::{render_code, rendering};
use vstd::prelude::*;

verus! {

/// This value, `31`, is not used as an _audio object type_, but is instead used in the encoding
/// of any _audio object type_ value greater than or equal to `32`.
pub const AOT_ESCAPE_VALUE: u8 = 0b1_1111;

/// The largest code that an _audio object type_ can have.
pub const AOT_MAX_VALUE: u8 = 95;

/// Whether `code` is the code of an _audio object type_: no larger than `AOT_MAX_VALUE`, and
/// not the escape value.
pub open spec fn is_valid_code(code: u8) -> bool {
    code <= AOT_MAX_VALUE && code != AOT_ESCAPE_VALUE
}

/// Represents an error converting a `u8` into an `AudioObjectType`.
#[derive(PartialEq, Eq, Structural, Debug)]
pub enum AudioObjectTypeError {
    /// Tried to convert the 'escape value', `31`, into an `AudioObjectType` (this is not a
    /// legitimate AOT value but instead is used as part of encoding the field value).
    EscapeValue,
    /// Only values 95 and under can be legitimate Audio Object Types. Holds the byte that was
    /// turned down.
    TooLarge(u8),
}

/// Represents an audio object type indicator value.
///
/// A value is made from a `u8` with `try_from`, which accepts the codes that the standard has
/// named and those that it holds in reserve, and turns down the escape value and every value
/// above `AOT_MAX_VALUE`. `u8::from` gives the code back. The view of a value is its code, and
/// two values are equal exactly when their codes are.
#[derive(PartialEq, Eq, Structural, Clone, Copy)]
pub struct AudioObjectType(u8);

impl View for AudioObjectType {
    type V = u8;

    closed spec fn view(&self) -> u8 {
        self.0
    }
}

impl AudioObjectType {
    /// Every value that executable code holds carries a valid code.
    #[verifier::type_invariant]
    pub open spec fn wf(self) -> bool {
        is_valid_code(self@)
    }

    /// The value that carries `code`.
    pub closed spec fn with_code(code: u8) -> AudioObjectType {
        AudioObjectType(code)
    }

    /// What the conversion from a byte makes of `value`: the value that carries it where it is
    /// a valid code, and otherwise the reason why it is none.
    pub open spec fn spec_try_from(value: u8) -> Result<AudioObjectType, AudioObjectTypeError> {
        if value == AOT_ESCAPE_VALUE {
            Err(AudioObjectTypeError::EscapeValue)
        } else if value > AOT_MAX_VALUE {
            Err(AudioObjectTypeError::TooLarge(value))
        } else {
            Ok(AudioObjectType::with_code(value))
        }
    }

    /// Whether this is the object type that the standard calls `name` and gives the code `code`:
    /// it carries that code, the table of names has `name` at it, and the conversion from a
    /// byte makes this value of `code`.
    pub open spec fn is_named(self, code: u8, name: Seq<char>) -> bool {
        &&& self@ == code
        &&& name_of(code) == Some(name)
        &&& AudioObjectType::spec_try_from(code) == Ok::<AudioObjectType, AudioObjectTypeError>(self)
    }

    /// The value that carries `code` has `code` as its view.
    pub proof fn lemma_with_code(code: u8)
        ensures
            AudioObjectType::with_code(code)@ == code,
    {
    }

    /// A value is known by its code: it is the value that carries its view.
    pub proof fn lemma_view_with_code(self)
        ensures
            AudioObjectType::with_code(self@) == self,
    {
    }

    /// The name that the standard gives to this object type, if it gives it one.
    pub fn name(&self) -> (r: Option<&'static str>)
        ensures
            match r {
                Some(name) => name_of(self@) == Some(name@),
                None => name_of(self@) is None,
            },
    {
        lookup_name(self.0)
    }

    /// The text form of this object type, such as `AAC_LC(2)` or `RESERVED(95)`.
    pub fn debug_string(&self) -> (r: String)
        ensures
            r@ == rendering(self@),
    {
        render_code(self.0)
    }
}

impl TryFrom<u8> for AudioObjectType {
    type Error = AudioObjectTypeError;

    /// Accepts `value` if it is a valid code, and says why not otherwise.
    fn try_from(value: u8) -> (r: Result<Self, Self::Error>)
        ensures
            r == AudioObjectType::spec_try_from(value),
            match r {
                Ok(t) => is_valid_code(value) && t@ == value,
                Err(AudioObjectTypeError::EscapeValue) => value == AOT_ESCAPE_VALUE,
                Err(AudioObjectTypeError::TooLarge(b)) => value > AOT_MAX_VALUE && b == value,
            },
    {
        if value == AOT_ESCAPE_VALUE {
            Err(AudioObjectTypeError::EscapeValue)
        } else if value > AOT_MAX_VALUE {
            Err(AudioObjectTypeError::TooLarge(value))
        } else {
            Ok(AudioObjectType(value))
        }
    }
}

impl vstd::std_specs::convert::TryFromSpecImpl<u8> for AudioObjectType {
    open spec fn obeys_try_from_spec() -> bool {
        true
    }

    open spec fn try_from_spec(value: u8) -> Result<Self, Self::Error> {
        AudioObjectType::spec_try_from(value)
    }
}

impl From<AudioObjectType> for u8 {
    /// The code that `v` carries.
    fn from(v: AudioObjectType) -> (r: Self)
        ensures
            r == v@,
            is_valid_code(r),
    {
        proof {
            use_type_invariant(&v);
        }
        v.0
    }
}

impl vstd::std_specs::convert::FromSpecImpl<AudioObjectType> for u8 {
    open spec fn obeys_from_spec() -> bool {
        true
    }

    open spec fn from_spec(v: AudioObjectType) -> u8 {
        v@
    }
}

/// The object types that the standard has named. Each stands under its name in the standard,
/// and is the value that `try_from` makes of its code.
#[allow(non_snake_case)]
impl AudioObjectType {
    /// Null
    pub fn NULL() -> (r: AudioObjectType)
        ensures
            r.is_named(0, "NULL"@),
    {
        AudioObjectType(0)
    }

    /// AAC main
    pub fn AAC_MAIN() -> (r: AudioObjectType)
        ensures
            r.is_named(1, "AAC_MAIN"@),
    {
        AudioObjectType(1)
    }

    /// AAC LC
    pub fn AAC_LC() -> (r: AudioObjectType)
        ensures
            r.is_named(2, "AAC_LC"@),
    {
        AudioObjectType(2)
    }

    /// AAC SSR
    pub fn AAC_SSR() -> (r: AudioObjectType)
        ensures
            r.is_named(3, "AAC_SSR"@),
    {
        AudioObjectType(3)
    }

    /// AAC LTP
    pub fn AAC_LTP() -> (r: AudioObjectType)
        ensures
            r.is_named(4, "AAC_LTP"@),
    {
        AudioObjectType(4)
    }

    /// SBR
    pub fn SBR() -> (r: AudioObjectType)
        ensures
            r.is_named(5, "SBR"@),
    {
        AudioObjectType(5)
    }

    /// AAC Scalable
    pub fn AAC_SCALABLE() -> (r: AudioObjectType)
        ensures
            r.is_named(6, "AAC_SCALABLE"@),
    {
        AudioObjectType(6)
    }

    /// TwinVQ
    pub fn TWIN_VQ() -> (r: AudioObjectType)
        ensures
            r.is_named(7, "TWIN_VQ"@),
    {
        AudioObjectType(7)
    }

    /// CELP
    pub fn CELP() -> (r: AudioObjectType)
        ensures
            r.is_named(8, "CELP"@),
    {
        AudioObjectType(8)
    }

    /// HVXC
    pub fn HVXC() -> (r: AudioObjectType)
        ensures
            r.is_named(9, "HVXC"@),
    {
        AudioObjectType(9)
    }

    /// TTSI
    pub fn TTSI() -> (r: AudioObjectType)
        ensures
            r.is_named(12, "TTSI"@),
    {
        AudioObjectType(12)
    }

    /// Main synthetic
    pub fn MAIN_SYNTHETIC() -> (r: AudioObjectType)
        ensures
            r.is_named(13, "MAIN_SYNTHETIC"@),
    {
        AudioObjectType(13)
    }

    /// Wavetable synthesis
    pub fn WAVETABLE_SYNTHESIS() -> (r: AudioObjectType)
        ensures
            r.is_named(14, "WAVETABLE_SYNTHESIS"@),
    {
        AudioObjectType(14)
    }

    /// General MIDI
    pub fn GENERAL_MIDI() -> (r: AudioObjectType)
        ensures
            r.is_named(15, "GENERAL_MIDI"@),
    {
        AudioObjectType(15)
    }

    /// Algorithmic Synthesis and Audio FX
    pub fn ALGORITHMIC_SYNTHESIS_AND_AUDIO_FX() -> (r: AudioObjectType)
        ensures
            r.is_named(16, "ALGORITHMIC_SYNTHESIS_AND_AUDIO_FX"@),
    {
        AudioObjectType(16)
    }

    /// ER AAC LC
    pub fn ER_AAC_LC() -> (r: AudioObjectType)
        ensures
            r.is_named(17, "ER_AAC_LC"@),
    {
        AudioObjectType(17)
    }

    /// ER AAC LTP
    pub fn ER_AAC_LTP() -> (r: AudioObjectType)
        ensures
            r.is_named(19, "ER_AAC_LTP"@),
    {
        AudioObjectType(19)
    }

    /// ER AAC Scalable
    pub fn ER_AAC_SCALABLE() -> (r: AudioObjectType)
        ensures
            r.is_named(20, "ER_AAC_SCALABLE"@),
    {
        AudioObjectType(20)
    }

    /// ER TwinVQ
    pub fn ER_TWIN_VQ() -> (r: AudioObjectType)
        ensures
            r.is_named(21, "ER_TWIN_VQ"@),
    {
        AudioObjectType(21)
    }

    /// ER BSAC
    pub fn ER_BSAC() -> (r: AudioObjectType)
        ensures
            r.is_named(22, "ER_BSAC"@),
    {
        AudioObjectType(22)
    }

    /// ER AAC LD
    pub fn ER_AAC_LD() -> (r: AudioObjectType)
        ensures
            r.is_named(23, "ER_AAC_LD"@),
    {
        AudioObjectType(23)
    }

    /// ER CELP
    pub fn ER_CELP() -> (r: AudioObjectType)
        ensures
            r.is_named(24, "ER_CELP"@),
    {
        AudioObjectType(24)
    }

    /// ER HVXC
    pub fn ER_HVXC() -> (r: AudioObjectType)
        ensures
            r.is_named(25, "ER_HVXC"@),
    {
        AudioObjectType(25)
    }

    /// ER HILN
    pub fn ER_HILN() -> (r: AudioObjectType)
        ensures
            r.is_named(26, "ER_HILN"@),
    {
        AudioObjectType(26)
    }

    /// ER Parametric
    pub fn ER_PARAMETRIC() -> (r: AudioObjectType)
        ensures
            r.is_named(27, "ER_PARAMETRIC"@),
    {
        AudioObjectType(27)
    }

    /// SSC
    pub fn SSC() -> (r: AudioObjectType)
        ensures
            r.is_named(28, "SSC"@),
    {
        AudioObjectType(28)
    }

    /// PS
    pub fn PS() -> (r: AudioObjectType)
        ensures
            r.is_named(29, "PS"@),
    {
        AudioObjectType(29)
    }

    /// MPEG Surround
    pub fn MPEG_SURROUND() -> (r: AudioObjectType)
        ensures
            r.is_named(30, "MPEG_SURROUND"@),
    {
        AudioObjectType(30)
    }

    /// Layer-1
    pub fn LAYER1() -> (r: AudioObjectType)
        ensures
            r.is_named(32, "LAYER1"@),
    {
        AudioObjectType(32)
    }

    /// Layer-3
    pub fn LAYER3() -> (r: AudioObjectType)
        ensures
            r.is_named(34, "LAYER3"@),
    {
        AudioObjectType(34)
    }

    /// DST
    pub fn DST() -> (r: AudioObjectType)
        ensures
            r.is_named(35, "DST"@),
    {
        AudioObjectType(35)
    }

    /// ALS
    pub fn ALS() -> (r: AudioObjectType)
        ensures
            r.is_named(36, "ALS"@),
    {
        AudioObjectType(36)
    }

    /// SLS
    pub fn SLS() -> (r: AudioObjectType)
        ensures
            r.is_named(37, "SLS"@),
    {
        AudioObjectType(37)
    }

    /// SLS non-core
    pub fn SLS_NON_CORE() -> (r: AudioObjectType)
        ensures
            r.is_named(38, "SLS_NON_CORE"@),
    {
        AudioObjectType(38)
    }

    /// ER AAC ELD
    pub fn ER_AAC_ELD() -> (r: AudioObjectType)
        ensures
            r.is_named(39, "ER_AAC_ELD"@),
    {
        AudioObjectType(39)
    }

    /// SMR Simple
    pub fn SMR_SIMPLE() -> (r: AudioObjectType)
        ensures
            r.is_named(40, "SMR_SIMPLE"@),
    {
        AudioObjectType(40)
    }

    /// SMR Main
    pub fn SMR_MAIN() -> (r: AudioObjectType)
        ensures
            r.is_named(41, "SMR_MAIN"@),
    {
        AudioObjectType(41)
    }

    /// Unified Speech and Audio Coding
    pub fn USAC() -> (r: AudioObjectType)
        ensures
            r.is_named(42, "USAC"@),
    {
        AudioObjectType(42)
    }

    /// Spatial Audio Object Coding
    pub fn SAOC() -> (r: AudioObjectType)
        ensures
            r.is_named(43, "SAOC"@),
    {
        AudioObjectType(43)
    }

    /// Low Delay MPEG Surround
    pub fn LD_MPEG_SURROUND() -> (r: AudioObjectType)
        ensures
            r.is_named(44, "LD_MPEG_SURROUND"@),
    {
        AudioObjectType(44)
    }

    /// Spatial Audio Object Coding Dialogue Enhancement
    pub fn SAOC_DE() -> (r: AudioObjectType)
        ensures
            r.is_named(45, "SAOC_DE"@),
    {
        AudioObjectType(45)
    }

    /// Audio synchronization tool
    pub fn AUDIO_SYNC() -> (r: AudioObjectType)
        ensures
            r.is_named(46, "AUDIO_SYNC"@),
    {
        AudioObjectType(46)
    }
}

} // verus!
