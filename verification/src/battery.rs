//! Battery reports.
//!
//! Over Bluetooth the level, the voltage and the charge status arrive in
//! separate notifications; a ledger keeps, per tracker, what was seen
//! until a report can be made of it. Over serial one JSON object carries
//! all three.

use crate::bindings::base64_decode;
use crate::bindings::base64_decoded;
use crate::bindings::hex_encode;
use crate::bindings::hex_text;
use crate::bindings::json_string;
use crate::bindings::json_string_member;
use crate::bindings::json_u64;
use crate::bindings::json_u64_member;
use crate::bindings::json_valid;
use crate::bindings::le_i16;
use crate::bindings::lowercased;
use crate::bindings::read_i16_le;
use crate::bindings::to_lowercase;
use crate::error::ErrorKind;
use crate::model::BatteryData;
use crate::model::ChargeStatus;
use crate::tables::ledger_get;
use crate::tables::ledger_insert;
use crate::tables::ledger_new;
use crate::tables::ledger_table;
use crate::text::chars_of;
use crate::text::hex_digit;
use crate::text::hex_digit_value;
use crate::text::same_text;
use crate::text::slice_text;
use vstd::prelude::*;
use vstd::slice::slice_subrange;

verus! {

/// What the ledger remembers of one tracker: the level in percent, the
/// voltage in millivolts and the charge code, each until it is reported.
pub type LedgerEntry = (Option<u8>, Option<u16>, Option<u8>);

/// The three battery characteristics.
#[derive(Debug, Clone, Copy, PartialEq, Eq, Structural)]
pub enum BatteryReading {
    Level,
    Voltage,
    Charge,
}

/// The per-tracker memory of battery notifications.
pub struct BatteryLedger {
    table: dashmap::DashMap<String, LedgerEntry>,
}

/// The entry of a tracker that has reported nothing yet.
pub open spec fn blank_entry() -> LedgerEntry {
    (None, None, None)
}

/// What a ledger holds for `name`.
pub open spec fn entry_of(ledger: Map<Seq<char>, LedgerEntry>, name: Seq<char>) -> LedgerEntry {
    if ledger.contains_key(name) {
        ledger[name]
    } else {
        blank_entry()
    }
}

/// The battery characteristic that a name stands for.
pub open spec fn battery_reading_named(name: Seq<char>) -> Option<BatteryReading> {
    if name == "BatteryLevel"@ {
        Some(BatteryReading::Level)
    } else if name == "BatteryVoltage"@ {
        Some(BatteryReading::Voltage)
    } else if name == "ChargeStatus"@ {
        Some(BatteryReading::Charge)
    } else {
        None
    }
}

/// The number that a text of hexadecimal digits writes, most significant
/// digit first; `None` where another character occurs.
pub open spec fn hex_number(s: Seq<char>) -> Option<nat>
    decreases s.len(),
{
    if s.len() == 0 {
        Some(0)
    } else {
        match (hex_number(s.drop_last()), hex_digit_value(s.last())) {
            (Some(v), Some(d)) => Some(16 * v + d as nat),
            _ => None,
        }
    }
}

/// The byte that a non-empty text of hexadecimal digits writes; `None`
/// for the empty text, for another character, and for a number above 255.
pub open spec fn hex_byte(s: Seq<char>) -> Option<u8> {
    if s.len() == 0 {
        None
    } else {
        match hex_number(s) {
            Some(v) => if v < 256 {
                Some(v as u8)
            } else {
                None
            },
            None => None,
        }
    }
}

/// Reads a byte written in hexadecimal digits.
pub fn parse_hex_byte(text: &str) -> (r: Option<u8>)
    ensures
        r == hex_byte(text@),
{
    let chars = chars_of(text);
    if chars.len() == 0 {
        return None;
    }
    let mut value: u16 = 0;
    let mut i: usize = 0;
    assert(chars@.take(0) =~= Seq::<char>::empty());
    while i < chars.len()
        invariant
            i <= chars.len(),
            chars@ == text@,
            value <= 256,
            hex_number(chars@.take(i as int)) is Some,
            value < 256 ==> hex_number(chars@.take(i as int)) == Some(value as nat),
            value == 256 ==> hex_number(chars@.take(i as int))->0 >= 256,
        decreases chars.len() - i,
    {
        proof {
            let next = chars@.take(i + 1);
            assert(next.drop_last() =~= chars@.take(i as int));
            assert(next.last() == chars@[i as int]);
        }
        match hex_digit(chars[i]) {
            Some(d) => {
                if value >= 16 {
                    value = 256;
                } else {
                    value = 16 * value + d as u16;
                }
            },
            None => {
                proof {
                    lemma_hex_number_prefix(chars@, i + 1);
                }
                return None;
            },
        }
        i += 1;
    }
    assert(chars@.take(i as int) =~= chars@);
    if value < 256 {
        Some(value as u8)
    } else {
        None
    }
}

/// A text has no hexadecimal value once one of its prefixes has none.
proof fn lemma_hex_number_prefix(s: Seq<char>, n: int)
    requires
        0 <= n <= s.len(),
        hex_number(s.take(n)) is None,
    ensures
        hex_number(s) is None,
    decreases s.len() - n,
{
    if n < s.len() {
        let next = s.take(n + 1);
        assert(next.drop_last() =~= s.take(n));
        lemma_hex_number_prefix(s, n + 1);
    } else {
        assert(s.take(n) =~= s);
    }
}

/// The level that a `BatteryLevel` payload reports: the payload read as
/// one big-endian number, which has to fit in a byte.
pub open spec fn level_of(payload: Seq<u8>) -> Option<u8> {
    hex_byte(hex_text(payload))
}

/// The voltage that a `BatteryVoltage` payload reports: its first two
/// bytes as a little-endian signed number, with a negative one read as 0.
pub open spec fn voltage_of(payload: Seq<u8>) -> Option<u16> {
    if payload.len() < 2 {
        None
    } else if le_i16(payload[0], payload[1]) < 0 {
        Some(0u16)
    } else {
        Some(le_i16(payload[0], payload[1]) as u16)
    }
}

/// The charge status that a code stands for.
pub open spec fn status_of_code(code: u8) -> Option<ChargeStatus> {
    if code == 0 {
        Some(ChargeStatus::Discharging)
    } else if code == 1 {
        Some(ChargeStatus::Charging)
    } else if code == 2 {
        Some(ChargeStatus::Charged)
    } else {
        None
    }
}

/// The code that the ledger keeps for a `ChargeStatus` byte: the byte
/// itself where it names a status, nothing otherwise.
pub open spec fn kept_code(code: u8) -> Option<u8> {
    if code <= 2 {
        Some(code)
    } else {
        None
    }
}

/// What is reported once a reading has been entered.
///
/// With both level and voltage known, they are reported together and
/// forgotten. Otherwise a charge status that has just changed is reported
/// alone. Otherwise nothing is.
pub open spec fn settle(entry: LedgerEntry, charge_changed: bool) -> (
    LedgerEntry,
    Option<BatteryData>,
) {
    if entry.0 is Some && entry.1 is Some {
        (
            (None, None, entry.2),
            Some(BatteryData { remaining: entry.0, voltage: entry.1, status: None }),
        )
    } else if charge_changed && entry.2 is Some {
        (
            entry,
            Some(
                BatteryData { remaining: None, voltage: None, status: status_of_code(entry.2->0) },
            ),
        )
    } else {
        (entry, None)
    }
}

/// The entry and the report after one decoded Bluetooth reading.
///
/// A payload that holds no such reading (no level that fits a byte, fewer
/// than two bytes of voltage, no status byte) is an `InvalidPacket` and
/// leaves the entry as it was.
pub open spec fn ble_battery_step(entry: LedgerEntry, reading: BatteryReading, payload: Seq<u8>) -> (
    LedgerEntry,
    Result<Option<BatteryData>, ErrorKind>,
) {
    match reading {
        BatteryReading::Level => match level_of(payload) {
            Some(level) => {
                let settled = settle((Some(level), entry.1, entry.2), false);
                (settled.0, Ok(settled.1))
            },
            None => (entry, Err(ErrorKind::InvalidPacket)),
        },
        BatteryReading::Voltage => match voltage_of(payload) {
            Some(voltage) => {
                let settled = settle((entry.0, Some(voltage), entry.2), false);
                (settled.0, Ok(settled.1))
            },
            None => (entry, Err(ErrorKind::InvalidPacket)),
        },
        BatteryReading::Charge => if payload.len() == 0 {
            (entry, Err(ErrorKind::InvalidPacket))
        } else {
            let code = kept_code(payload[0]);
            let settled = settle((entry.0, entry.1, code), entry.2 != code);
            (settled.0, Ok(settled.1))
        },
    }
}

fn settle_entry(entry: LedgerEntry, charge_changed: bool) -> (r: (LedgerEntry, Option<BatteryData>))
    ensures
        r == settle(entry, charge_changed),
{
    if entry.0.is_some() && entry.1.is_some() {
        (
            (None, None, entry.2),
            Some(BatteryData { remaining: entry.0, voltage: entry.1, status: None }),
        )
    } else if charge_changed && entry.2.is_some() {
        let code = entry.2.unwrap();
        let status = if code == 0 {
            Some(ChargeStatus::Discharging)
        } else if code == 1 {
            Some(ChargeStatus::Charging)
        } else if code == 2 {
            Some(ChargeStatus::Charged)
        } else {
            None
        };
        (entry, Some(BatteryData { remaining: None, voltage: None, status }))
    } else {
        (entry, None)
    }
}

/// Enters one decoded Bluetooth reading into an entry and says what is
/// to be reported.
pub fn apply_battery_reading(entry: LedgerEntry, reading: BatteryReading, payload: &[u8]) -> (r: (
    LedgerEntry,
    Result<Option<BatteryData>, ErrorKind>,
))
    ensures
        r == ble_battery_step(entry, reading, payload@),
{
    match reading {
        BatteryReading::Level => {
            let digits = hex_encode(payload);
            match parse_hex_byte(digits.as_str()) {
                Some(level) => {
                    let settled = settle_entry((Some(level), entry.1, entry.2), false);
                    (settled.0, Ok(settled.1))
                },
                None => (entry, Err(ErrorKind::InvalidPacket)),
            }
        },
        BatteryReading::Voltage => {
            if payload.len() < 2 {
                (entry, Err(ErrorKind::InvalidPacket))
            } else {
                let signed = read_i16_le(slice_subrange(payload, 0, 2));
                let voltage: u16 = if signed < 0 {
                    0
                } else {
                    signed as u16
                };
                let settled = settle_entry((entry.0, Some(voltage), entry.2), false);
                (settled.0, Ok(settled.1))
            }
        },
        BatteryReading::Charge => {
            if payload.len() == 0 {
                (entry, Err(ErrorKind::InvalidPacket))
            } else {
                let code = if payload[0] <= 2 {
                    Some(payload[0])
                } else {
                    None
                };
                let changed = entry.2 != code;
                let settled = settle_entry((entry.0, entry.1, code), changed);
                (settled.0, Ok(settled.1))
            }
        },
    }
}

/// Tells which battery characteristic a name stands for.
pub fn battery_reading_of(name: &str) -> (r: Option<BatteryReading>)
    ensures
        r == battery_reading_named(name@),
{
    if same_text(name, "BatteryLevel") {
        Some(BatteryReading::Level)
    } else if same_text(name, "BatteryVoltage") {
        Some(BatteryReading::Voltage)
    } else if same_text(name, "ChargeStatus") {
        Some(BatteryReading::Charge)
    } else {
        None
    }
}

/// The entry and the report after one Bluetooth notification, given what
/// its base-64 text decodes to. Text that is not base-64 is a
/// `DecodeFailed`, a name that is no battery characteristic an
/// `UnknownCharacteristic`; both leave the entry as it was.
pub open spec fn ble_battery_outcome(
    entry: LedgerEntry,
    characteristic: Seq<char>,
    decoded: Option<Seq<u8>>,
) -> (LedgerEntry, Result<Option<BatteryData>, ErrorKind>) {
    match decoded {
        None => (entry, Err(ErrorKind::DecodeFailed)),
        Some(payload) => match battery_reading_named(characteristic) {
            None => (entry, Err(ErrorKind::UnknownCharacteristic)),
            Some(reading) => ble_battery_step(entry, reading, payload),
        },
    }
}

/// The charge status that a lower-case name stands for.
pub open spec fn charge_status_named(name: Seq<char>) -> Option<ChargeStatus> {
    if name == "discharging"@ {
        Some(ChargeStatus::Discharging)
    } else if name == "charging"@ {
        Some(ChargeStatus::Charging)
    } else if name == "charged"@ {
        Some(ChargeStatus::Charged)
    } else {
        None
    }
}

/// Tells which charge status a lower-case name stands for.
pub fn charge_status_from_name(name: &str) -> (r: Option<ChargeStatus>)
    ensures
        r == charge_status_named(name@),
{
    if same_text(name, "discharging") {
        Some(ChargeStatus::Discharging)
    } else if same_text(name, "charging") {
        Some(ChargeStatus::Charging)
    } else if same_text(name, "charged") {
        Some(ChargeStatus::Charged)
    } else {
        None
    }
}

/// The low eight bits of a JSON number, where there is one.
pub open spec fn low_byte(member: Option<u64>) -> Option<u8> {
    match member {
        Some(v) => Some((v % 256) as u8),
        None => None,
    }
}

/// The low sixteen bits of a JSON number, where there is one.
pub open spec fn low_word(member: Option<u64>) -> Option<u16> {
    match member {
        Some(v) => Some((v % 65536) as u16),
        None => None,
    }
}

/// The report made of the members of a serial battery object. Without a
/// known charge status there is none: `UnknownStatus`.
pub open spec fn serial_battery(
    remaining: Option<u64>,
    voltage: Option<u64>,
    status: Option<ChargeStatus>,
) -> Result<BatteryData, ErrorKind> {
    match status {
        Some(s) => Ok(
            BatteryData {
                remaining: low_byte(remaining),
                voltage: low_word(voltage),
                status: Some(s),
            },
        ),
        None => Err(ErrorKind::UnknownStatus),
    }
}

/// Makes the report of a serial battery object from its members.
pub fn battery_report(remaining: Option<u64>, voltage: Option<u64>, status: Option<ChargeStatus>) -> (r:
    Result<BatteryData, ErrorKind>)
    ensures
        r == serial_battery(remaining, voltage, status),
{
    match status {
        Some(s) => {
            let remaining = match remaining {
                Some(v) => Some((v % 256) as u8),
                None => None,
            };
            let voltage = match voltage {
                Some(v) => Some((v % 65536) as u16),
                None => None,
            };
            Ok(BatteryData { remaining, voltage, status: Some(s) })
        },
        None => Err(ErrorKind::UnknownStatus),
    }
}

/// The charge status that a `charge status` member stands for: its name,
/// compared without regard to case.
pub open spec fn charge_status_in(member: Option<Seq<char>>) -> Option<ChargeStatus> {
    match member {
        Some(name) => charge_status_named(lowercased(name)),
        None => None,
    }
}

/// What the JSON text of a `v` frame reports, by the members
/// `battery remaining`, `battery voltage` and `charge status`. Text that
/// is not JSON is a `DecodeFailed`.
pub open spec fn serial_battery_in(text: Seq<char>) -> Result<Option<BatteryData>, ErrorKind> {
    if !json_valid(text) {
        Err(ErrorKind::DecodeFailed)
    } else {
        match serial_battery(
            json_u64_member(text, "battery remaining"@),
            json_u64_member(text, "battery voltage"@),
            charge_status_in(json_string_member(text, "charge status"@)),
        ) {
            Ok(report) => Ok(Some(report)),
            Err(e) => Err(e),
        }
    }
}

/// Decodes the JSON text of a `v` frame.
pub fn serial_battery_data(data: &str) -> (r: Result<Option<BatteryData>, ErrorKind>)
    ensures
        r == serial_battery_in(data@),
{
    let remaining = match json_u64(data, "battery remaining") {
        Ok(m) => m,
        Err(_) => {
            return Err(ErrorKind::DecodeFailed);
        },
    };
    let voltage = match json_u64(data, "battery voltage") {
        Ok(m) => m,
        Err(_) => {
            return Err(ErrorKind::DecodeFailed);
        },
    };
    let name = match json_string(data, "charge status") {
        Ok(m) => m,
        Err(_) => {
            return Err(ErrorKind::DecodeFailed);
        },
    };
    let status = match name {
        Some(text) => {
            let lower = to_lowercase(text.as_str());
            charge_status_from_name(lower.as_str())
        },
        None => None,
    };
    match battery_report(remaining, voltage, status) {
        Ok(report) => Ok(Some(report)),
        Err(e) => Err(e),
    }
}

impl BatteryLedger {
    /// What the ledger holds, by tracker name.
    pub closed spec fn view(&self) -> Map<Seq<char>, LedgerEntry> {
        ledger_table(self.table)
    }

    /// A ledger that remembers nothing.
    pub fn new() -> (r: Self)
        ensures
            r@ == Map::<Seq<char>, LedgerEntry>::empty(),
    {
        BatteryLedger { table: ledger_new() }
    }

    /// What the ledger remembers of `name`.
    pub fn entry(&self, name: &str) -> (r: LedgerEntry)
        ensures
            r == entry_of(self@, name@),
    {
        match ledger_get(&self.table, name) {
            Some(entry) => entry,
            None => (None, None, None),
        }
    }
}

/// The ledger and the report after `process_battery_data`.
///
/// Without a tracker name or without data nothing happens. With a
/// characteristic, the notification is entered under the tracker's name,
/// which is in the ledger from then on. Without one, the data is the JSON
/// text of a `v` frame and the ledger stays out of it.
pub open spec fn battery_outcome(
    ledger: Map<Seq<char>, LedgerEntry>,
    data: Seq<char>,
    tracker_name: Seq<char>,
    characteristic: Option<Seq<char>>,
) -> (Map<Seq<char>, LedgerEntry>, Result<Option<BatteryData>, ErrorKind>) {
    if tracker_name.len() == 0 || data.len() == 0 {
        (ledger, Ok(None))
    } else {
        match characteristic {
            Some(name) => {
                let step = ble_battery_outcome(
                    entry_of(ledger, tracker_name),
                    name,
                    base64_decoded(data),
                );
                (ledger.insert(tracker_name, step.0), step.1)
            },
            None => (ledger, serial_battery_in(data)),
        }
    }
}

/// Decodes one battery record of the tracker `tracker_name`: a Bluetooth
/// notification of the named characteristic, in base-64, or, without a
/// characteristic, the JSON text of a serial `v` frame.
pub fn process_battery_data(
    ledger: &mut BatteryLedger,
    data: &str,
    tracker_name: &str,
    characteristic: Option<&str>,
) -> (r: Result<Option<BatteryData>, ErrorKind>)
    ensures
        final(ledger)@ == battery_outcome(
            old(ledger)@,
            data@,
            tracker_name@,
            slice_text(characteristic),
        ).0,
        r == battery_outcome(
            old(ledger)@,
            data@,
            tracker_name@,
            slice_text(characteristic),
        ).1,
{
    if tracker_name.unicode_len() == 0 || data.unicode_len() == 0 {
        return Ok(None);
    }
    match characteristic {
        Some(name) => {
            let entry = ledger.entry(tracker_name);
            let step = match base64_decode(data) {
                Err(_) => (entry, Err(ErrorKind::DecodeFailed)),
                Ok(payload) => match battery_reading_of(name) {
                    None => (entry, Err(ErrorKind::UnknownCharacteristic)),
                    Some(reading) => apply_battery_reading(entry, reading, payload.as_slice()),
                },
            };
            ledger_insert(&mut ledger.table, String::from_str(tracker_name), step.0);
            step.1
        },
        None => serial_battery_data(data),
    }
}

/// The number that the bytes write, most significant byte first.
pub open spec fn big_endian(payload: Seq<u8>) -> nat
    decreases payload.len(),
{
    if payload.len() == 0 {
        0
    } else {
        256 * big_endian(payload.drop_last()) + payload.last() as nat
    }
}

/// A hexadecimal digit reads as the value it was written for.
pub proof fn lemma_hex_char_value(n: int)
    requires
        0 <= n < 16,
    ensures
        hex_digit_value(crate::bindings::hex_char(n)) == Some(n as u8),
{
}

/// The hexadecimal text of bytes writes their big-endian number.
pub proof fn lemma_hex_text_number(payload: Seq<u8>)
    ensures
        hex_number(hex_text(payload)) == Some(big_endian(payload)),
    decreases payload.len(),
{
    let digits = hex_text(payload);
    if payload.len() == 0 {
        assert(digits =~= Seq::<char>::empty());
    } else {
        let earlier = payload.drop_last();
        let last = payload.last();
        lemma_hex_text_number(earlier);
        let high = crate::bindings::hex_char(last as int / 16);
        let low = crate::bindings::hex_char(last as int % 16);
        lemma_hex_char_value(last as int / 16);
        lemma_hex_char_value(last as int % 16);
        assert(digits =~= hex_text(earlier).push(high).push(low));
        assert(digits.drop_last() =~= hex_text(earlier).push(high));
        assert(digits.drop_last().drop_last() =~= hex_text(earlier));
        assert(digits.last() == low);
        assert(digits.drop_last().last() == high);
        let value = big_endian(earlier);
        assert(hex_number(digits.drop_last()) == Some(16 * value + (last as nat) / 16));
        assert(hex_number(digits) == Some(
            16 * (16 * value + (last as nat) / 16) + (last as nat) % 16,
        ));
        assert(16 * (16 * value + (last as nat) / 16) + (last as nat) % 16 == 256 * value
            + last as nat);
    }
}

/// The level of a `BatteryLevel` payload is the payload's big-endian
/// number, where there is a payload and the number fits in a byte.
pub proof fn lemma_level_is_big_endian(payload: Seq<u8>)
    ensures
        level_of(payload) == if payload.len() > 0 && big_endian(payload) < 256 {
            Some(big_endian(payload) as u8)
        } else {
            None::<u8>
        },
{
    lemma_hex_text_number(payload);
    assert(hex_text(payload).len() == 2 * payload.len());
}

} // verus!
