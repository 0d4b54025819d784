//! The calls this crate makes into other crates, each with the contract
//! that the rest of the crate relies on. Nothing here is proved: every
//! contract restates what the called function documents.

use crate::text::text_of;
use base64::Engine;
use byteorder::ByteOrder;
use vstd::prelude::*;
use vstd::utf8::decode_utf8;
use vstd::utf8::valid_utf8;

verus! {

/// `base64::DecodeError`: why a text is no base-64. Only handed on.
#[verifier::external_type_specification]
#[verifier::external_body]
pub struct ExBase64DecodeError(base64::DecodeError);

/// `uuid::Error`: why a text is no UUID. Only handed on.
#[verifier::external_type_specification]
#[verifier::external_body]
pub struct ExUuidError(uuid::Error);

/// `serde_json::Error`: why a text is no JSON. Only handed on.
#[verifier::external_type_specification]
#[verifier::external_body]
pub struct ExJsonError(serde_json::Error);

/// `std::string::FromUtf8Error`: why bytes are no UTF-8. Only handed on.
#[verifier::external_type_specification]
#[verifier::external_body]
pub struct ExFromUtf8Error(std::string::FromUtf8Error);

/// The bytes that `text` stands for in padded base-64 with the standard
/// alphabet; `None` where `text` is no such encoding.
pub uninterp spec fn base64_decoded(text: Seq<char>) -> Option<Seq<u8>>;

/// `Engine::decode` of base64's `STANDARD` engine. The contract only names
/// the outcome: the same text always decodes to the same bytes or fails.
#[verifier::external_body]
pub(crate) fn base64_decode(text: &str) -> (r: Result<Vec<u8>, base64::DecodeError>)
    ensures
        r matches Ok(bytes) ==> base64_decoded(text@) == Some(bytes@),
        r is Err ==> base64_decoded(text@) is None,
{
    base64::engine::general_purpose::STANDARD.decode(text)
}

/// The padded base-64 text of `data` in the standard alphabet.
pub uninterp spec fn base64_encoded(data: Seq<u8>) -> Seq<char>;

/// `Engine::encode` of base64's `STANDARD` engine. It panics when the
/// encoded length does not fit in `usize`; the precondition keeps away
/// from that. The contract only names the outcome.
#[verifier::external_body]
pub(crate) fn base64_encode(data: &[u8]) -> (r: String)
    requires
        data@.len() / 3 * 4 + 4 <= usize::MAX,
    ensures
        r@ == base64_encoded(data@),
{
    base64::engine::general_purpose::STANDARD.encode(data)
}

/// The lowercase hexadecimal digit for a value below 16.
pub open spec fn hex_char(n: int) -> char {
    if 0 <= n < 10 {
        ((0x30 + n) as u8) as char
    } else {
        ((0x61 + n - 10) as u8) as char
    }
}

/// Two lowercase hexadecimal digits for every byte, high nibble first.
pub open spec fn hex_text(data: Seq<u8>) -> Seq<char> {
    Seq::new(
        2 * data.len(),
        |i: int|
            if i % 2 == 0 {
                hex_char(data[i / 2] as int / 16)
            } else {
                hex_char(data[i / 2] as int % 16)
            },
    )
}

/// `hex::encode`: each byte becomes its two lowercase hexadecimal digits.
#[verifier::external_body]
pub(crate) fn hex_encode(data: &[u8]) -> (r: String)
    ensures
        r@ == hex_text(data@),
{
    hex::encode(data)
}

/// The signed 16-bit number whose little-endian bytes are `low`, `high`.
pub open spec fn le_i16(low: u8, high: u8) -> int {
    let unsigned = low as int + 256 * (high as int);
    if unsigned >= 32768 {
        unsigned - 65536
    } else {
        unsigned
    }
}

/// `LittleEndian::read_i16` of byteorder: the first two bytes of `buf`,
/// read as a little-endian signed number. It panics on fewer than two
/// bytes.
#[verifier::external_body]
pub(crate) fn read_i16_le(buf: &[u8]) -> (r: i16)
    requires
        buf@.len() >= 2,
    ensures
        r as int == le_i16(buf@[0], buf@[1]),
{
    byteorder::LittleEndian::read_i16(buf)
}

/// The 128-bit value of the UUID written in `text`, most significant byte
/// first; `None` where `text` is not a UUID in a form that the uuid crate
/// reads.
pub uninterp spec fn uuid_parsed(text: Seq<char>) -> Option<u128>;

/// `Uuid::parse_str`, with the result turned into its 128-bit value by
/// `Uuid::as_u128`. The contract only names the outcome.
#[verifier::external_body]
pub(crate) fn uuid_parse(text: &str) -> (r: Result<u128, uuid::Error>)
    ensures
        r matches Ok(value) ==> uuid_parsed(text@) == Some(value),
        r is Err ==> uuid_parsed(text@) is None,
{
    match uuid::Uuid::parse_str(text) {
        Ok(id) => Ok(id.as_u128()),
        Err(e) => Err(e),
    }
}

/// Whether `text` is a JSON document.
pub uninterp spec fn json_valid(text: Seq<char>) -> bool;

/// The string that the JSON object written in `text` holds under `key`;
/// `None` where `text` is no JSON object, lacks the key, or holds
/// something other than a string there.
pub uninterp spec fn json_string_member(text: Seq<char>, key: Seq<char>) -> Option<Seq<char>>;

/// The number that the JSON object written in `text` holds under `key`;
/// `None` where `text` is no JSON object, lacks the key, or holds
/// something other than a non-negative integer below 2^64 there.
pub uninterp spec fn json_u64_member(text: Seq<char>, key: Seq<char>) -> Option<u64>;

/// `serde_json::from_str` into a `Value`, then `Value::get` and
/// `Value::as_str`. It fails exactly when the text does not parse. The
/// contract only names the member found.
#[verifier::external_body]
pub(crate) fn json_string(text: &str, key: &str) -> (r: Result<Option<String>, serde_json::Error>)
    ensures
        r is Ok <==> json_valid(text@),
        r matches Ok(member) ==> text_of(member) == json_string_member(text@, key@),
{
    let value: serde_json::Value = serde_json::from_str(text)?;
    match value.get(key) {
        Some(member) => Ok(member.as_str().map(str::to_string)),
        None => Ok(None),
    }
}

/// `serde_json::from_str` into a `Value`, then `Value::get` and
/// `Value::as_u64`. It fails exactly when the text does not parse. The
/// contract only names the member found.
#[verifier::external_body]
pub(crate) fn json_u64(text: &str, key: &str) -> (r: Result<Option<u64>, serde_json::Error>)
    ensures
        r is Ok <==> json_valid(text@),
        r matches Ok(member) ==> member == json_u64_member(text@, key@),
{
    let value: serde_json::Value = serde_json::from_str(text)?;
    match value.get(key) {
        Some(member) => Ok(member.as_u64()),
        None => Ok(None),
    }
}

/// `text` with every character mapped to lower case by the Unicode rules.
pub uninterp spec fn lowercased(text: Seq<char>) -> Seq<char>;

/// `str::to_lowercase`. The contract only names the outcome.
#[verifier::external_body]
pub(crate) fn to_lowercase(text: &str) -> (r: String)
    ensures
        r@ == lowercased(text@),
{
    text.to_lowercase()
}

/// `text` with every character mapped to upper case by the Unicode rules.
pub uninterp spec fn uppercased(text: Seq<char>) -> Seq<char>;

/// `str::to_uppercase`. The contract only names the outcome.
#[verifier::external_body]
pub(crate) fn to_uppercase(text: &str) -> (r: String)
    ensures
        r@ == uppercased(text@),
{
    text.to_uppercase()
}

/// `String::from_utf8`: succeeds exactly on well-formed UTF-8 and then
/// holds the characters that the bytes encode.
#[verifier::external_body]
pub(crate) fn string_from_utf8(bytes: Vec<u8>) -> (r: Result<String, std::string::FromUtf8Error>)
    ensures
        r is Ok <==> valid_utf8(bytes@),
        r matches Ok(s) ==> s@ == decode_utf8(bytes@),
{
    String::from_utf8(bytes)
}

} // verus!
