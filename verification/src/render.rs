//! The text form of an audio object type code, for diagnostics and logs.
//!
//! A code is rendered as its name in the standard followed by the code in decimal between round
//! brackets, such as `AAC_LC(2)`. A code without a name is rendered under the label `RESERVED`.

use crate::names::{lookup_name, name_of};
use crate::object_type::AudioObjectType;
use vstd::prelude::*;

verus! {

/// The character that stands for the decimal digit `d`.
pub open spec fn digit_char(d: nat) -> char
    recommends
        d < 10,
{
    if d == 0 {
        '0'
    } else if d == 1 {
        '1'
    } else if d == 2 {
        '2'
    } else if d == 3 {
        '3'
    } else if d == 4 {
        '4'
    } else if d == 5 {
        '5'
    } else if d == 6 {
        '6'
    } else if d == 7 {
        '7'
    } else if d == 8 {
        '8'
    } else {
        '9'
    }
}

/// The decimal numeral of `n`: its digits from the most significant to the least, with no
/// leading zero.
pub open spec fn decimal(n: nat) -> Seq<char>
    decreases n,
{
    if n < 10 {
        seq![digit_char(n)]
    } else {
        decimal(n / 10).push(digit_char(n % 10))
    }
}

/// The label that a code is rendered under: its name in the standard, or `RESERVED` where it
/// has none.
pub open spec fn label_of(code: u8) -> Seq<char> {
    match name_of(code) {
        Some(name) => name,
        None => "RESERVED"@,
    }
}

/// The text form of `code`: its label, then the code in decimal between round brackets.
pub open spec fn rendering(code: u8) -> Seq<char> {
    label_of(code) + "("@ + decimal(code as nat) + ")"@
}

/// The one-character string for the decimal digit `d`.
fn digit_str(d: u8) -> (r: &'static str)
    requires
        d < 10,
    ensures
        r@ == seq![digit_char(d as nat)],
{
    proof {
        reveal_strlit("0");
        reveal_strlit("1");
        reveal_strlit("2");
        reveal_strlit("3");
        reveal_strlit("4");
        reveal_strlit("5");
        reveal_strlit("6");
        reveal_strlit("7");
        reveal_strlit("8");
        reveal_strlit("9");
    }
    match d {
        0 => "0",
        1 => "1",
        2 => "2",
        3 => "3",
        4 => "4",
        5 => "5",
        6 => "6",
        7 => "7",
        8 => "8",
        _ => "9",
    }
}

/// Appends the decimal numeral of `n` to `text`.
pub fn push_decimal(text: &mut String, n: u8)
    ensures
        final(text)@ == old(text)@ + decimal(n as nat),
    decreases n,
{
    if n >= 10 {
        push_decimal(text, n / 10);
    }
    text.append(digit_str(n % 10));
}

/// Renders `code` as text.
pub fn render_code(code: u8) -> (r: String)
    ensures
        r@ == rendering(code),
{
    let label: &'static str = match lookup_name(code) {
        Some(name) => name,
        None => "RESERVED",
    };
    let mut text = String::from_str(label);
    text.append("(");
    push_decimal(&mut text, code);
    text.append(")");
    text
}

/// `core::fmt::Formatter`, the sink that std hands to a `Debug` implementation. It is carried
/// through to `write_text` and nothing is stated of what it holds.
#[verifier::external_type_specification]
#[verifier::external_body]
pub struct ExFormatter<'a>(core::fmt::Formatter<'a>);

/// `core::fmt::Error`, with which a formatter reports that it could not take the text. It is
/// handed back to the caller as it came.
#[verifier::external_type_specification]
#[verifier::external_body]
pub struct ExFmtError(core::fmt::Error);

/// Calls `core::fmt::Formatter::write_str`, which hands `text` to the formatter's sink. Whether
/// the sink takes the text is for the sink to say, so nothing is claimed of the result.
#[verifier::external_body]
fn write_text(f: &mut core::fmt::Formatter<'_>, text: &str) -> (r: Result<(), core::fmt::Error>) {
    f.write_str(text)
}

impl core::fmt::Debug for AudioObjectType {
    /// Writes the text form of this object type, the one that `debug_string` returns.
    fn fmt(&self, f: &mut core::fmt::Formatter<'_>) -> (r: Result<(), core::fmt::Error>) {
        let text = self.debug_string();
        write_text(f, text.as_str())
    }
}

} // verus!
