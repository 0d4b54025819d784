//! Bluetooth UUIDs in their short and long forms.

use crate::bindings::uuid_parse;
use crate::bindings::uuid_parsed;
use crate::decoders::all_hex;
use crate::error::ErrorKind;
use crate::text::chars_of;
use crate::text::hex_digit;
use crate::text::hex_digit_value;
use vstd::prelude::*;

verus! {

/// Whether the text is a short UUID: four hexadecimal digits.
pub open spec fn is_short_uuid(input: Seq<char>) -> bool {
    input.len() == 4 && all_hex(input)
}

/// The long form of a UUID text: a short UUID set into the Bluetooth
/// base UUID, `0000XXXX-0000-1000-8000-00805f9b34fb`; any other text as
/// it is.
pub open spec fn long_form(input: Seq<char>) -> Seq<char> {
    if is_short_uuid(input) {
        "0000"@ + input + "-0000-1000-8000-00805f9b34fb"@
    } else {
        input
    }
}

/// Writes a UUID text in its long form.
pub fn expand_uuid(input: &str) -> (r: String)
    ensures
        r@ == long_form(input@),
{
    let chars = chars_of(input);
    let mut short = chars.len() == 4;
    let mut i: usize = 0;
    while short && i < chars.len()
        invariant
            i <= chars.len(),
            chars@ == input@,
            short ==> chars.len() == 4,
            short ==> forall|k: int| 0 <= k < i ==> hex_digit_value(#[trigger] chars@[k]) is Some,
            !short ==> !is_short_uuid(input@),
        decreases chars.len() - i, short as int,
    {
        if hex_digit(chars[i]).is_none() {
            assert(hex_digit_value(input@[i as int]) is None);
            short = false;
        } else {
            i += 1;
        }
    }
    if short {
        String::from_str("0000").concat(input).concat("-0000-1000-8000-00805f9b34fb")
    } else {
        String::from_str(input)
    }
}

/// The value of a UUID given what its long form parses to: `InvalidUuid`
/// where it does not parse.
pub open spec fn uuid_outcome(parsed: Option<u128>) -> Result<u128, ErrorKind> {
    match parsed {
        Some(value) => Ok(value),
        None => Err(ErrorKind::InvalidUuid),
    }
}

/// Reads a UUID in its short or long form and returns its 128-bit
/// value, most significant byte first.
pub fn normalize_uuid(input: &str) -> (r: Result<u128, ErrorKind>)
    ensures
        r == uuid_outcome(uuid_parsed(long_form(input@))),
{
    let long = expand_uuid(input);
    match uuid_parse(long.as_str()) {
        Ok(value) => Ok(value),
        Err(_) => Err(ErrorKind::InvalidUuid),
    }
}

} // verus!
