//! What holds of the conversions between bytes and audio object types, whatever the byte and
//! whatever the object type.

use crate::names::name_of;
use crate::object_type::{is_valid_code, AudioObjectType, AudioObjectTypeError};
use vstd::prelude::*;

verus! {

/// The conversion from a byte has three outcomes and no other: the object type, the error for
/// the escape value, and the error for a byte that is too large, which holds that byte.
pub proof fn lemma_conversion_outcomes(b: u8)
    ensures
        match AudioObjectType::spec_try_from(b) {
            Ok(t) => t@ == b,
            Err(AudioObjectTypeError::EscapeValue) => true,
            Err(AudioObjectTypeError::TooLarge(held)) => held == b,
        },
{
    AudioObjectType::lemma_with_code(b);
}

/// The conversion from a byte fails with `EscapeValue` exactly on 31, fails with `TooLarge` of
/// the byte exactly on 96 and above, and succeeds exactly on the bytes that are left: 0 to 30
/// and 32 to 95.
pub proof fn lemma_conversion_partition(b: u8)
    ensures
        AudioObjectType::spec_try_from(b) == Err::<AudioObjectType, AudioObjectTypeError>(
            AudioObjectTypeError::EscapeValue,
        ) <==> b == 31,
        AudioObjectType::spec_try_from(b) == Err::<AudioObjectType, AudioObjectTypeError>(
            AudioObjectTypeError::TooLarge(b),
        ) <==> b >= 96,
        AudioObjectType::spec_try_from(b) is Ok <==> (b <= 30 || 32 <= b <= 95),
        AudioObjectType::spec_try_from(b) is Ok <==> is_valid_code(b),
{
}

/// A byte that converts to an object type is the code of that object type: converting there
/// and back gives the byte again.
pub proof fn lemma_byte_round_trip(b: u8)
    requires
        AudioObjectType::spec_try_from(b) is Ok,
    ensures
        AudioObjectType::spec_try_from(b).unwrap()@ == b,
{
    AudioObjectType::lemma_with_code(b);
}

/// The code of an object type converts to that object type: converting to a byte and back
/// gives the object type again.
pub proof fn lemma_object_type_round_trip(t: AudioObjectType)
    requires
        t.wf(),
    ensures
        AudioObjectType::spec_try_from(t@) == Ok::<AudioObjectType, AudioObjectTypeError>(t),
{
    t.lemma_view_with_code();
}

/// Two object types are equal exactly when their codes are.
pub proof fn lemma_equal_by_code(a: AudioObjectType, b: AudioObjectType)
    ensures
        a == b <==> a@ == b@,
{
    a.lemma_view_with_code();
    b.lemma_view_with_code();
}

/// The standard names valid codes only: the escape value has no name, and neither has a byte
/// that is too large.
pub proof fn lemma_named_codes_are_valid(code: u8)
    requires
        name_of(code) is Some,
    ensures
        is_valid_code(code),
{
}

} // verus!
