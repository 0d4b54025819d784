//! The auxiliary decoders: body-part assignment, magnetometer quality,
//! settings, tracker information and link quality.

use crate::bindings::base64_decode;
use crate::bindings::base64_decoded;
use crate::bindings::json_string;
use crate::bindings::json_string_member;
use crate::bindings::json_valid;
use crate::error::ErrorKind;
use crate::model::ConnectionData;
use crate::model::InfoData;
use crate::model::InfoDataView;
use crate::model::MagStatus;
use crate::model::SettingsData;
use crate::text::chars_of;
use crate::text::hex_digit;
use crate::text::hex_digit_value;
use crate::text::nibble_at;
use crate::text::read_nibble;
use crate::text::same_text;
use crate::text::slice_text;
use crate::text::text_of;
use vstd::prelude::*;

verus! {

/// The body part that a tracker with the given one-digit identifier is
/// mounted on.
pub open spec fn label_of_digit(c: char) -> Option<Seq<char>> {
    if c == '0' {
        Some("DONGLE"@)
    } else if c == '1' {
        Some("chest"@)
    } else if c == '2' {
        Some("leftKnee"@)
    } else if c == '3' {
        Some("leftAnkle"@)
    } else if c == '4' {
        Some("rightKnee"@)
    } else if c == '5' {
        Some("rightAnkle"@)
    } else if c == '6' {
        Some("hip"@)
    } else if c == '7' {
        Some("leftElbow"@)
    } else if c == '8' {
        Some("rightElbow"@)
    } else if c == '9' {
        Some("leftWrist"@)
    } else if c == 'a' {
        Some("rightWrist"@)
    } else if c == 'b' {
        Some("head"@)
    } else if c == 'c' {
        Some("leftFoot"@)
    } else if c == 'd' {
        Some("rightFoot"@)
    } else {
        None
    }
}

/// The body-part label for an identifier: defined for the fourteen
/// one-character identifiers `0` to `9` and `a` to `d`.
pub open spec fn assignment_label(id: Seq<char>) -> Option<Seq<char>> {
    if id.len() == 1 {
        label_of_digit(id[0])
    } else {
        None
    }
}

/// Looks one identifier character up in the body-part table.
pub fn assignment_of_digit(c: char) -> (r: Option<&'static str>)
    ensures
        slice_text(r) == label_of_digit(c),
{
    if c == '0' {
        Some("DONGLE")
    } else if c == '1' {
        Some("chest")
    } else if c == '2' {
        Some("leftKnee")
    } else if c == '3' {
        Some("leftAnkle")
    } else if c == '4' {
        Some("rightKnee")
    } else if c == '5' {
        Some("rightAnkle")
    } else if c == '6' {
        Some("hip")
    } else if c == '7' {
        Some("leftElbow")
    } else if c == '8' {
        Some("rightElbow")
    } else if c == '9' {
        Some("leftWrist")
    } else if c == 'a' {
        Some("rightWrist")
    } else if c == 'b' {
        Some("head")
    } else if c == 'c' {
        Some("leftFoot")
    } else if c == 'd' {
        Some("rightFoot")
    } else {
        None
    }
}

/// Looks an identifier up in the body-part table.
pub fn get_assignment_by_id(id: &str) -> (r: Option<&'static str>)
    ensures
        slice_text(r) == assignment_label(id@),
{
    let chars = chars_of(id);
    if chars.len() == 1 {
        assignment_of_digit(chars[0])
    } else {
        None
    }
}

/// The quality that a magnetometer status byte stands for.
pub open spec fn mag_status_of(code: u8) -> MagStatus {
    if code == 3 {
        MagStatus::Great
    } else if code == 2 {
        MagStatus::Okay
    } else if code == 1 {
        MagStatus::Bad
    } else if code == 0 {
        MagStatus::VeryBad
    } else {
        MagStatus::Unknown
    }
}

/// What a magnetometer payload decodes to: the quality named by its
/// first byte, and `InvalidPacket` for a payload without bytes.
pub open spec fn mag_outcome(payload: Seq<u8>) -> Result<MagStatus, ErrorKind> {
    if payload.len() == 0 {
        Err(ErrorKind::InvalidPacket)
    } else {
        Ok(mag_status_of(payload[0]))
    }
}

/// Reads the magnetometer quality from a decoded payload.
pub fn mag_status_from_payload(payload: &[u8]) -> (r: Result<MagStatus, ErrorKind>)
    ensures
        r == mag_outcome(payload@),
{
    if payload.len() == 0 {
        return Err(ErrorKind::InvalidPacket);
    }
    let code = payload[0];
    Ok(
        if code == 3 {
            MagStatus::Great
        } else if code == 2 {
            MagStatus::Okay
        } else if code == 1 {
            MagStatus::Bad
        } else if code == 0 {
            MagStatus::VeryBad
        } else {
            MagStatus::Unknown
        },
    )
}

/// What a base-64 magnetometer notification decodes to, given what the
/// text decodes to.
pub open spec fn mag_data_outcome(decoded: Option<Seq<u8>>) -> Result<MagStatus, ErrorKind> {
    match decoded {
        Some(payload) => mag_outcome(payload),
        None => Err(ErrorKind::DecodeFailed),
    }
}

/// Decodes a magnetometer notification: base-64 text whose first byte
/// names the quality. Text that is not base-64 gives `DecodeFailed`, an
/// empty payload `InvalidPacket`.
pub fn process_mag_data(data: &str) -> (r: Result<MagStatus, ErrorKind>)
    ensures
        r == mag_data_outcome(base64_decoded(data@)),
{
    match base64_decode(data) {
        Ok(payload) => mag_status_from_payload(payload.as_slice()),
        Err(_) => Err(ErrorKind::DecodeFailed),
    }
}

impl MagStatus {
    /// The name of the quality in notifications.
    pub fn label(&self) -> (r: &'static str)
        ensures
            r@ == self.label_text(),
    {
        match self {
            MagStatus::Great => "GREAT",
            MagStatus::Okay => "OKAY",
            MagStatus::Bad => "BAD",
            MagStatus::VeryBad => "VERY_BAD",
            MagStatus::Unknown => "UNKNOWN",
        }
    }

    pub open spec fn label_text(&self) -> Seq<char> {
        match self {
            MagStatus::Great => "GREAT"@,
            MagStatus::Okay => "OKAY"@,
            MagStatus::Bad => "BAD"@,
            MagStatus::VeryBad => "VERY_BAD"@,
            MagStatus::Unknown => "UNKNOWN"@,
        }
    }
}

/// The settings that an `o` frame's payload holds: the frame rate at
/// position 5, the sensor mode at 6, the correction bits at 10 (bit 0
/// accelerometer, bit 1 gyroscope, bit 2 magnetometer) and the ankle
/// switch at 13.
pub open spec fn settings_of(payload: Seq<char>) -> SettingsData {
    let correction = nibble_at(payload, 10);
    SettingsData {
        sensor_mode: if nibble_at(payload, 6) == 0 { 2u8 } else { 1u8 },
        fps_mode: if nibble_at(payload, 5) == 0 { 50u8 } else { 100u8 },
        correct_accel: correction % 2 == 1,
        correct_gyro: (correction / 2) % 2 == 1,
        correct_mag: (correction / 4) % 2 == 1,
        ankle_enabled: nibble_at(payload, 13) != 0,
    }
}

/// Decodes the payload of an `o` frame. A position that the payload does
/// not reach, or that holds no hexadecimal digit, counts as 0.
pub fn process_settings_data(data: &str) -> (r: SettingsData)
    ensures
        r == settings_of(data@),
{
    let chars = chars_of(data);
    let sensor_mode = read_nibble(&chars, 6);
    let fps_mode = read_nibble(&chars, 5);
    let correction = read_nibble(&chars, 10);
    let ankle = read_nibble(&chars, 13);
    SettingsData {
        sensor_mode: if sensor_mode == 0 { 2 } else { 1 },
        fps_mode: if fps_mode == 0 { 50 } else { 100 },
        correct_accel: correction % 2 == 1,
        correct_gyro: (correction / 2) % 2 == 1,
        correct_mag: (correction / 4) % 2 == 1,
        ankle_enabled: ankle != 0,
    }
}

/// The names of the sensors that correct the orientation automatically,
/// in the order accelerometer, gyroscope, magnetometer.
pub open spec fn correction_names(settings: SettingsData) -> Seq<Seq<char>> {
    let accel = if settings.correct_accel {
        seq!["accel"@]
    } else {
        Seq::empty()
    };
    let gyro = if settings.correct_gyro {
        accel.push("gyro"@)
    } else {
        accel
    };
    if settings.correct_mag {
        gyro.push("mag"@)
    } else {
        gyro
    }
}

impl SettingsData {
    /// The names of the sensors that correct the orientation
    /// automatically.
    pub fn sensor_auto_correction(&self) -> (r: Vec<&'static str>)
        ensures
            r@.map_values(|s: &'static str| s@) == correction_names(*self),
    {
        let mut names: Vec<&'static str> = Vec::new();
        if self.correct_accel {
            names.push("accel");
        }
        if self.correct_gyro {
            names.push("gyro");
        }
        if self.correct_mag {
            names.push("mag");
        }
        assert(names@.map_values(|s: &'static str| s@) =~= correction_names(*self));
        names
    }
}

/// The text of an optional member, empty where there is none.
pub open spec fn text_or_empty(member: Option<Seq<char>>) -> Seq<char> {
    match member {
        Some(t) => t,
        None => Seq::empty(),
    }
}

/// The information record made of the five members of an `i` frame.
pub open spec fn info_of(
    model: Option<Seq<char>>,
    version: Option<Seq<char>>,
    serial: Option<Seq<char>>,
    communication: Option<Seq<char>>,
    communication_type: Option<Seq<char>>,
) -> InfoDataView {
    InfoDataView {
        version: text_or_empty(version),
        model: text_or_empty(model),
        serial: text_or_empty(serial),
        communication,
        communication_type,
    }
}

fn or_empty(member: Option<String>) -> (r: String)
    ensures
        r@ == text_or_empty(text_of(member)),
{
    match member {
        Some(t) => t,
        None => String::new(),
    }
}

/// Builds the information record from the members found in an `i`
/// frame: a missing model, version or serial number reads as empty text.
pub fn info_from_members(
    model: Option<String>,
    version: Option<String>,
    serial: Option<String>,
    communication: Option<String>,
    communication_type: Option<String>,
) -> (r: InfoData)
    ensures
        r@ == info_of(
            text_of(model),
            text_of(version),
            text_of(serial),
            text_of(communication),
            text_of(communication_type),
        ),
{
    InfoData {
        version: or_empty(version),
        model: or_empty(model),
        serial: or_empty(serial),
        communication,
        communication_type,
    }
}

/// The information record that the JSON text of an `i` frame holds, by
/// the members `model`, `version`, `serial no`, `comm` and `comm_next`.
pub open spec fn info_in(text: Seq<char>) -> InfoDataView {
    info_of(
        json_string_member(text, "model"@),
        json_string_member(text, "version"@),
        json_string_member(text, "serial no"@),
        json_string_member(text, "comm"@),
        json_string_member(text, "comm_next"@),
    )
}

/// Decodes the payload of an `i` frame: a JSON object. Text that is not
/// JSON gives `DecodeFailed`.
pub fn process_info_data(data: &str) -> (r: Result<InfoData, ErrorKind>)
    ensures
        r is Ok <==> json_valid(data@),
        r matches Err(e) ==> e == ErrorKind::DecodeFailed,
        r matches Ok(info) ==> info@ == info_in(data@),
{
    let model = match json_string(data, "model") {
        Ok(m) => m,
        Err(_) => {
            return Err(ErrorKind::DecodeFailed);
        },
    };
    let version = match json_string(data, "version") {
        Ok(m) => m,
        Err(_) => {
            return Err(ErrorKind::DecodeFailed);
        },
    };
    let serial = match json_string(data, "serial no") {
        Ok(m) => m,
        Err(_) => {
            return Err(ErrorKind::DecodeFailed);
        },
    };
    let communication = match json_string(data, "comm") {
        Ok(m) => m,
        Err(_) => {
            return Err(ErrorKind::DecodeFailed);
        },
    };
    let communication_type = match json_string(data, "comm_next") {
        Ok(m) => m,
        Err(_) => {
            return Err(ErrorKind::DecodeFailed);
        },
    };
    Ok(info_from_members(model, version, serial, communication, communication_type))
}

/// The payload of an `a` frame that reports a lost link.
pub open spec fn no_link_text() -> Seq<char> {
    "7f7f7f7f7f7f"@
}

/// Whether every character of `s` is a hexadecimal digit.
pub open spec fn all_hex(s: Seq<char>) -> bool {
    forall|i: int| 0 <= i < s.len() ==> hex_digit_value(#[trigger] s[i]) is Some
}

/// The signed reading of the two hexadecimal digits at `at`.
pub open spec fn signed_byte_at(s: Seq<char>, at: int) -> int {
    let unsigned = 16 * nibble_at(s, at) + nibble_at(s, at + 1);
    if unsigned >= 128 {
        unsigned - 256
    } else {
        unsigned
    }
}

/// What the payload of an `a` frame decodes to.
///
/// The lost-link text gives a record without readings. Any other payload
/// must be twelve hexadecimal digits: another length is an
/// `InvalidPacket`, another character a `DecodeFailed`. The first two
/// digits are the dongle's signed reading, the next two the tracker's.
pub open spec fn connection_outcome(payload: Seq<char>) -> Result<ConnectionData, ErrorKind> {
    if payload == no_link_text() {
        Ok(ConnectionData { dongle_rssi: None, tracker_rssi: None })
    } else if payload.len() != 12 {
        Err(ErrorKind::InvalidPacket)
    } else if !all_hex(payload) {
        Err(ErrorKind::DecodeFailed)
    } else {
        Ok(
            ConnectionData {
                dongle_rssi: Some(signed_byte_at(payload, 0) as i8),
                tracker_rssi: Some(signed_byte_at(payload, 2) as i8),
            },
        )
    }
}

fn signed_byte(chars: &Vec<char>, at: usize) -> (r: i8)
    requires
        at + 1 < chars.len(),
    ensures
        r as int == signed_byte_at(chars@, at as int),
{
    let high = read_nibble(chars, at);
    let low = read_nibble(chars, at + 1);
    let unsigned: i16 = 16 * (high as i16) + (low as i16);
    if unsigned >= 128 {
        (unsigned - 256) as i8
    } else {
        unsigned as i8
    }
}

/// Decodes the payload of an `a` frame.
pub fn process_connection_data(data: &str) -> (r: Result<ConnectionData, ErrorKind>)
    ensures
        r == connection_outcome(data@),
{
    if same_text(data, "7f7f7f7f7f7f") {
        return Ok(ConnectionData { dongle_rssi: None, tracker_rssi: None });
    }
    let chars = chars_of(data);
    if chars.len() != 12 {
        return Err(ErrorKind::InvalidPacket);
    }
    let mut i: usize = 0;
    while i < 12
        invariant
            i <= 12,
            chars.len() == 12,
            chars@ == data@,
            data@ != no_link_text(),
            forall|k: int| 0 <= k < i ==> hex_digit_value(#[trigger] chars@[k]) is Some,
        decreases 12 - i,
    {
        if hex_digit(chars[i]).is_none() {
            assert(hex_digit_value(data@[i as int]) is None);
            return Err(ErrorKind::DecodeFailed);
        }
        i += 1;
    }
    Ok(
        ConnectionData {
            dongle_rssi: Some(signed_byte(&chars, 0)),
            tracker_rssi: Some(signed_byte(&chars, 2)),
        },
    )
}

} // verus!
