//! The per-model interpreters.
//!
//! An interpreter turns one raw transport record, a Bluetooth
//! notification or a serial line, into a [`Report`]. The three models
//! share one pipeline and differ in what their frames carry: trackers of
//! the Wireless and X2 models append an ankle reading to the IMU frame
//! and have a third button, Wired ones do not.

use crate::battery::battery_outcome;
use crate::battery::battery_reading_named;
use crate::battery::process_battery_data;
use crate::battery::BatteryLedger;
use crate::battery::LedgerEntry;
use crate::bindings::base64_decode;
use crate::bindings::base64_decoded;
use crate::bindings::base64_encode;
use crate::bindings::base64_encoded;
use crate::bindings::json_valid;
use crate::bindings::lowercased;
use crate::bindings::to_lowercase;
use crate::buttons::button_outcome;
use crate::buttons::process_button_data;
use crate::buttons::ButtonMap;
use crate::buttons::ButtonMapView;
use crate::decoders::connection_outcome;
use crate::decoders::info_in;
use crate::decoders::mag_data_outcome;
use crate::decoders::process_connection_data;
use crate::decoders::process_info_data;
use crate::decoders::process_mag_data;
use crate::decoders::process_settings_data;
use crate::decoders::settings_of;
use crate::effects::connect_count;
use crate::effects::quiet;
use crate::effects::refusal;
use crate::effects::single;
use crate::effects::Effect;
use crate::effects::EffectView;
use crate::effects::Report;
use crate::effects::ReportView;
use crate::emulator::add_tracker;
use crate::emulator::remove_tracker;
use crate::emulator::setup_for;
use crate::emulator::TrackerRegistry;
use crate::error::ErrorKind;
use crate::imu::decode_imu;
use crate::imu::decoded_acceleration;
use crate::imu::decoded_rotation;
use crate::model::BatteryData;
use crate::model::ConnectionData;
use crate::model::ConnectionMode;
use crate::model::MagStatus;
use crate::model::TrackerModel;
use crate::text::chars_of;
use crate::text::find_char;
use crate::text::first_index_of;
use crate::text::lemma_first_index_of;
use crate::text::same_text;
use crate::text::slice_text;
use vstd::prelude::*;

verus! {

/// Everything that the interpreters remember between frames.
pub struct BridgeState {
    pub registry: TrackerRegistry,
    pub ledger: BatteryLedger,
    pub buttons: ButtonMap,
}

/// The mathematical content of a [`BridgeState`].
pub struct BridgeView {
    /// The emulated trackers by name: `false` while claimed, `true` once
    /// live.
    pub slots: Map<Seq<char>, bool>,
    /// Whether status watchers may run.
    pub watching: bool,
    pub ledger: Map<Seq<char>, LedgerEntry>,
    pub buttons: ButtonMapView,
}

impl View for BridgeState {
    type V = BridgeView;

    open spec fn view(&self) -> BridgeView {
        BridgeView {
            slots: self.registry@,
            watching: self.registry.watching(),
            ledger: self.ledger@,
            buttons: self.buttons@,
        }
    }
}

impl BridgeState {
    /// The state of a bridge that has seen nothing.
    pub fn new() -> (r: Self)
        ensures
            r@.slots == Map::<Seq<char>, bool>::empty(),
            !r@.watching,
            r@.ledger == Map::<Seq<char>, LedgerEntry>::empty(),
            r@.buttons == ButtonMap::initial(),
    {
        BridgeState {
            registry: TrackerRegistry::new(),
            ledger: BatteryLedger::new(),
            buttons: ButtonMap::new(),
        }
    }
}

/// The seed of every emulated tracker's hardware address.
pub open spec fn mac_seed() -> [u8; 6] {
    [0u8, 0u8, 0u8, 0u8, 0u8, 1u8]
}

/// Whether frames of the model carry an ankle reading.
pub open spec fn has_ankle(model: TrackerModel) -> bool {
    model != TrackerModel::Wired
}

/// Whether the model has a third button.
pub open spec fn has_tertiary(model: TrackerModel) -> bool {
    model != TrackerModel::Wired
}

/// Whether a base-64 text ends in two padding characters.
pub open spec fn ends_with_double_pad(encoded: Seq<char>) -> bool {
    encoded.len() >= 2 && encoded[encoded.len() - 1] == '=' && encoded[encoded.len() - 2] == '='
}

/// The last two bytes as a little-endian unsigned number.
pub open spec fn trailing_word(data: Seq<u8>) -> u16 {
    (data[data.len() - 2] as int + 256 * (data[data.len() - 1] as int)) as u16
}

/// The ankle reading of an IMU frame: its last two bytes, unless the
/// frame's base-64 text ends in two padding characters. (A tracker
/// without ankle sensor sends frames of such a length.)
pub open spec fn ankle_of(data: Seq<u8>, encoded: Seq<char>) -> Option<u16> {
    if data.len() >= 2 && !ends_with_double_pad(encoded) {
        Some(trailing_word(data))
    } else {
        None
    }
}

/// The magnetometer quality embedded in a serial IMU frame: a property
/// of the fifth character from the end of the frame's base-64 text.
pub open spec fn embedded_mag_status(encoded: Seq<char>) -> MagStatus {
    if encoded.len() < 5 {
        MagStatus::Unknown
    } else {
        let c = encoded[encoded.len() - 5];
        if c == 'A' {
            MagStatus::VeryBad
        } else if c == 'B' {
            MagStatus::Bad
        } else if c == 'C' {
            MagStatus::Okay
        } else if c == 'D' {
            MagStatus::Great
        } else {
            MagStatus::Unknown
        }
    }
}

/// Reads the ankle value off an IMU frame, given the frame's base-64
/// text.
pub fn ankle_from_frame(data: &[u8], encoded: &str) -> (r: Option<u16>)
    ensures
        r == ankle_of(data@, encoded@),
{
    let n = data.len();
    if n < 2 {
        return None;
    }
    let chars = chars_of(encoded);
    let m = chars.len();
    if m >= 2 && chars[m - 1] == '=' && chars[m - 2] == '=' {
        None
    } else {
        Some(data[n - 2] as u16 + 256 * (data[n - 1] as u16))
    }
}

/// Reads the magnetometer quality off the base-64 text of a serial IMU
/// frame.
pub fn mag_status_from_encoded(encoded: &str) -> (r: MagStatus)
    ensures
        r == embedded_mag_status(encoded@),
{
    let chars = chars_of(encoded);
    let m = chars.len();
    if m < 5 {
        return MagStatus::Unknown;
    }
    let c = chars[m - 5];
    if c == 'A' {
        MagStatus::VeryBad
    } else if c == 'B' {
        MagStatus::Bad
    } else if c == 'C' {
        MagStatus::Okay
    } else if c == 'D' {
        MagStatus::Great
    } else {
        MagStatus::Unknown
    }
}

/// Whether the length of a frame's base-64 text fits the machine: four
/// characters for every three bytes begun.
pub open spec fn encodable(data: Seq<u8>) -> bool {
    data.len() / 3 * 4 + 4 <= usize::MAX
}

/// Whether an IMU frame for `name` can be decoded: there is a name, the
/// frame has its 14 bytes, and its base-64 text fits the machine.
pub open spec fn frame_ok(name: Seq<char>, data: Seq<u8>) -> bool {
    name.len() > 0 && 14 <= data.len() && encodable(data)
}

/// What a decoded IMU frame adds to the effects before it: the `imu`
/// event, for a serial frame the `mag` event, then the rotation and the
/// acceleration for the emulated tracker.
pub open spec fn imu_effects(
    head: Seq<EffectView>,
    model: TrackerModel,
    mode: ConnectionMode,
    data: Seq<u8>,
) -> Seq<EffectView> {
    let encoded = base64_encoded(data);
    let rotation = decoded_rotation(data);
    let acceleration = decoded_acceleration(data);
    let ankle = if has_ankle(model) {
        ankle_of(data, encoded)
    } else {
        None
    };
    let event = head.push(EffectView::Imu { rotation, acceleration, ankle });
    let noted = if mode == ConnectionMode::Serial {
        event.push(EffectView::Mag(embedded_mag_status(encoded)))
    } else {
        event
    };
    noted.push(EffectView::SendRotation(rotation)).push(EffectView::SendAcceleration(acceleration))
}

/// The state and the report after an IMU frame.
///
/// * Without a name the frame is an `InvalidPacket`.
/// * While the name's tracker is being created the frame is skipped.
/// * A name that is not registered is claimed; the report begins with
///   the tracker's creation and the `connect` event, which tells the
///   body part `assignment`.
/// * The frame is then decoded. If it has fewer than 14 bytes, or so
///   many that the length of its base-64 text does not fit the machine,
///   the report ends there with `InvalidPacket`.
pub open spec fn imu_outcome(
    state: BridgeView,
    model: TrackerModel,
    mode: ConnectionMode,
    name: Seq<char>,
    assignment: Seq<char>,
    data: Seq<u8>,
) -> (BridgeView, ReportView) {
    if name.len() == 0 {
        (state, refusal(model, ErrorKind::InvalidPacket))
    } else if state.slots.contains_key(name) && !state.slots[name] {
        (state, quiet(model))
    } else {
        let fresh = !state.slots.contains_key(name);
        let after = if fresh {
            BridgeView { slots: state.slots.insert(name, false), ..state }
        } else {
            state
        };
        let head = if fresh {
            Seq::<EffectView>::empty().push(
                EffectView::AddTracker(setup_for(mac_seed(), state.watching)),
            ).push(EffectView::Connect { assignment })
        } else {
            Seq::<EffectView>::empty()
        };
        if frame_ok(name, data) {
            (
                after,
                ReportView { model, effects: imu_effects(head, model, mode, data), error: None },
            )
        } else {
            (after, ReportView { model, effects: head, error: Some(ErrorKind::InvalidPacket) })
        }
    }
}

fn is_wired(model: TrackerModel) -> (r: bool)
    ensures
        r == (model == TrackerModel::Wired),
{
    match model {
        TrackerModel::Wired => true,
        _ => false,
    }
}

fn is_serial(mode: ConnectionMode) -> (r: bool)
    ensures
        r == (mode == ConnectionMode::Serial),
{
    match mode {
        ConnectionMode::Serial => true,
        ConnectionMode::Bluetooth => false,
    }
}

/// Interprets the IMU frame `data` of the tracker `tracker_name`, which
/// is mounted on the body part `assignment`.
pub fn process_imu(
    state: &mut BridgeState,
    model: TrackerModel,
    tracker_name: &str,
    assignment: &str,
    mode: ConnectionMode,
    data: &[u8],
) -> (r: Report)
    ensures
        final(state)@ == imu_outcome(old(state)@, model, mode, tracker_name@, assignment@, data@).0,
        r@ == imu_outcome(old(state)@, model, mode, tracker_name@, assignment@, data@).1,
{
    if tracker_name.unicode_len() == 0 {
        return Report::refusal(model, ErrorKind::InvalidPacket);
    }
    let mut report = Report::quiet(model);
    match state.registry.slot(tracker_name) {
        Some(false) => {
            return report;
        },
        Some(true) => {},
        None => {
            if let Ok(setup) = add_tracker(&mut state.registry, tracker_name, [0, 0, 0, 0, 0, 1]) {
                assert(setup.mac_seed == mac_seed());
                report.push(Effect::AddTracker(setup));
                report.push(Effect::Connect { assignment: String::from_str(assignment) });
            }
        },
    }
    if data.len() / 3 > (usize::MAX - 4) / 4 {
        report.error = Some(ErrorKind::InvalidPacket);
        return report;
    }
    let imu = match decode_imu(data, tracker_name) {
        Ok(imu) => imu,
        Err(e) => {
            report.error = Some(e);
            return report;
        },
    };
    let encoded = base64_encode(data);
    let ankle = if is_wired(model) {
        None
    } else {
        ankle_from_frame(data, encoded.as_str())
    };
    report.push(Effect::Imu { rotation: imu.rotation, acceleration: imu.acceleration, ankle });
    if is_serial(mode) {
        report.push(Effect::Mag(mag_status_from_encoded(encoded.as_str())));
    }
    report.push(Effect::SendRotation(imu.rotation));
    report.push(Effect::SendAcceleration(imu.acceleration));
    report
}

/// The report of a magnetometer notification: the `mag` event, or the
/// decoder's error.
pub open spec fn mag_report(model: TrackerModel, data: Seq<char>) -> ReportView {
    match mag_data_outcome(base64_decoded(data)) {
        Ok(status) => single(model, EffectView::Mag(status)),
        Err(e) => refusal(model, e),
    }
}

/// Interprets a magnetometer notification.
pub fn process_mag(model: TrackerModel, data: &str) -> (r: Report)
    ensures
        r@ == mag_report(model, data@),
{
    match process_mag_data(data) {
        Ok(status) => Report::single(model, Effect::Mag(status)),
        Err(e) => Report::refusal(model, e),
    }
}

/// The level that is sent on when a report has none.
pub open spec fn level_or_zero(level: Option<u8>) -> u8 {
    match level {
        Some(v) => v,
        None => 0,
    }
}

/// The voltage that is sent on when a report has none.
pub open spec fn voltage_or_zero(voltage: Option<u16>) -> u16 {
    match voltage {
        Some(v) => v,
        None => 0,
    }
}

/// The report of a battery record: nothing while the ledger waits for
/// more, else the `battery` event and the state for the emulated
/// tracker, or the decoder's error.
pub open spec fn battery_report_of(model: TrackerModel, decoded: Result<Option<BatteryData>, ErrorKind>) -> ReportView {
    match decoded {
        Ok(Some(data)) => ReportView {
            model,
            effects: Seq::<EffectView>::empty().push(EffectView::Battery(data)).push(
                EffectView::SendBattery {
                    percent: level_or_zero(data.remaining),
                    millivolts: voltage_or_zero(data.voltage),
                },
            ),
            error: None,
        },
        Ok(None) => quiet(model),
        Err(e) => refusal(model, e),
    }
}

/// The state and the report after a battery record.
pub open spec fn battery_step(
    state: BridgeView,
    model: TrackerModel,
    name: Seq<char>,
    data: Seq<char>,
    characteristic: Option<Seq<char>>,
) -> (BridgeView, ReportView) {
    let decoded = battery_outcome(state.ledger, data, name, characteristic);
    (BridgeView { ledger: decoded.0, ..state }, battery_report_of(model, decoded.1))
}

/// Interprets a battery record of the tracker `tracker_name`.
pub fn process_battery(
    state: &mut BridgeState,
    model: TrackerModel,
    tracker_name: &str,
    data: &str,
    characteristic: Option<&str>,
) -> (r: Report)
    ensures
        final(state)@ == battery_step(
            old(state)@,
            model,
            tracker_name@,
            data@,
            slice_text(characteristic),
        ).0,
        r@ == battery_step(
            old(state)@,
            model,
            tracker_name@,
            data@,
            slice_text(characteristic),
        ).1,
{
    match process_battery_data(&mut state.ledger, data, tracker_name, characteristic) {
        Ok(Some(data)) => {
            let mut report = Report::quiet(model);
            report.push(Effect::Battery(data));
            report.push(
                Effect::SendBattery {
                    percent: match data.remaining {
                        Some(v) => v,
                        None => 0,
                    },
                    millivolts: match data.voltage {
                        Some(v) => v,
                        None => 0,
                    },
                },
            );
            report
        },
        Ok(None) => Report::quiet(model),
        Err(e) => Report::refusal(model, e),
    }
}

/// The state and the report after a button record.
pub open spec fn button_step(
    state: BridgeView,
    model: TrackerModel,
    data: Seq<char>,
    characteristic: Option<Seq<char>>,
    now: u64,
) -> (BridgeView, ReportView) {
    let decoded = button_outcome(state.buttons, data, characteristic, now);
    (
        BridgeView { buttons: decoded.0, ..state },
        match decoded.1 {
            Ok(Some(role)) => single(model, EffectView::Button(role)),
            Ok(None) => quiet(model),
            Err(e) => refusal(model, e),
        },
    )
}

/// Interprets a button record received at the time `now`.
pub fn process_button(
    state: &mut BridgeState,
    model: TrackerModel,
    data: &str,
    characteristic: Option<&str>,
    now: u64,
) -> (r: Report)
    ensures
        final(state)@ == button_step(
            old(state)@,
            model,
            data@,
            slice_text(characteristic),
            now,
        ).0,
        r@ == button_step(
            old(state)@,
            model,
            data@,
            slice_text(characteristic),
            now,
        ).1,
{
    match process_button_data(&mut state.buttons, data, characteristic, now) {
        Ok(Some(role)) => Report::single(model, Effect::Button(role)),
        Ok(None) => Report::quiet(model),
        Err(e) => Report::refusal(model, e),
    }
}

/// Interprets the payload of an `o` frame: the `settings` event.
pub fn process_settings(model: TrackerModel, data: &str) -> (r: Report)
    ensures
        r@ == single(model, EffectView::Settings(settings_of(data@))),
{
    Report::single(model, Effect::Settings(process_settings_data(data)))
}

/// The report of an `i` frame: the `info` event, or `DecodeFailed`
/// where the payload is not JSON.
pub open spec fn info_report(model: TrackerModel, data: Seq<char>) -> ReportView {
    if json_valid(data) {
        single(model, EffectView::Info(info_in(data)))
    } else {
        refusal(model, ErrorKind::DecodeFailed)
    }
}

/// Interprets the payload of an `i` frame.
pub fn process_info(model: TrackerModel, data: &str) -> (r: Report)
    ensures
        r@ == info_report(model, data@),
{
    match process_info_data(data) {
        Ok(info) => Report::single(model, Effect::Info(info)),
        Err(e) => Report::refusal(model, e),
    }
}

/// Whether a link record says that the dongle has lost the tracker.
pub open spec fn link_lost(link: ConnectionData) -> bool {
    link.dongle_rssi is None || link.tracker_rssi is None
}

/// The state and the report after the payload of an `a` frame.
///
/// A lost link takes a registered tracker out of the registry: its
/// emulated tracker is shut down, if there is one already, and the
/// `disconnect` event follows. Any other record is handed on as the
/// `connection` event.
pub open spec fn connection_step(
    state: BridgeView,
    model: TrackerModel,
    name: Seq<char>,
    data: Seq<char>,
) -> (BridgeView, ReportView) {
    match connection_outcome(data) {
        Err(e) => (state, refusal(model, e)),
        Ok(link) => if link_lost(link) && state.slots.contains_key(name) {
            (
                BridgeView { slots: state.slots.remove(name), ..state },
                ReportView {
                    model,
                    effects: if state.slots[name] {
                        Seq::<EffectView>::empty().push(EffectView::ShutDownTracker).push(
                            EffectView::Disconnect,
                        )
                    } else {
                        Seq::<EffectView>::empty().push(EffectView::Disconnect)
                    },
                    error: None,
                },
            )
        } else {
            (state, single(model, EffectView::Connection(link)))
        },
    }
}

/// Interprets the payload of an `a` frame of the tracker `tracker_name`.
pub fn process_connection(
    state: &mut BridgeState,
    model: TrackerModel,
    tracker_name: &str,
    data: &str,
) -> (r: Report)
    ensures
        final(state)@ == connection_step(old(state)@, model, tracker_name@, data@).0,
        r@ == connection_step(old(state)@, model, tracker_name@, data@).1,
{
    let link = match process_connection_data(data) {
        Ok(link) => link,
        Err(e) => {
            return Report::refusal(model, e);
        },
    };
    if link.dongle_rssi.is_none() || link.tracker_rssi.is_none() {
        if let Ok(live) = remove_tracker(&mut state.registry, tracker_name) {
            let mut report = Report::quiet(model);
            if live {
                report.push(Effect::ShutDownTracker);
            }
            report.push(Effect::Disconnect);
            return report;
        }
        assert(state.registry@ =~= old(state).registry@);
    }
    Report::single(model, Effect::Connection(link))
}

/// The kinds of serial frame.
#[derive(Debug, Clone, Copy, PartialEq, Eq, Structural)]
pub enum FrameKind {
    /// `x`: an IMU frame in base-64.
    Imu,
    /// `v`: a battery object.
    Battery,
    /// `r`: button states, and the tracker's assignment.
    Button,
    /// `o`: settings.
    Settings,
    /// `i`: information.
    Info,
    /// `a`: link quality.
    Link,
}

/// The kind of frame that an identifier in lower case selects, by its
/// first character.
pub open spec fn frame_kind(identifier: Seq<char>) -> Option<FrameKind> {
    if identifier.len() == 0 {
        None
    } else if identifier[0] == 'x' {
        Some(FrameKind::Imu)
    } else if identifier[0] == 'v' {
        Some(FrameKind::Battery)
    } else if identifier[0] == 'r' {
        Some(FrameKind::Button)
    } else if identifier[0] == 'o' {
        Some(FrameKind::Settings)
    } else if identifier[0] == 'i' {
        Some(FrameKind::Info)
    } else if identifier[0] == 'a' {
        Some(FrameKind::Link)
    } else {
        None
    }
}

/// Tells which kind of frame an identifier in lower case selects;
/// `UnknownIdentifier` where it selects none.
pub fn frame_kind_of(identifier: &str) -> (r: Result<FrameKind, ErrorKind>)
    ensures
        r is Ok <==> frame_kind(identifier@) is Some,
        r matches Ok(kind) ==> frame_kind(identifier@) == Some(kind),
        r matches Err(e) ==> e == ErrorKind::UnknownIdentifier,
{
    if identifier.unicode_len() == 0 {
        return Err(ErrorKind::UnknownIdentifier);
    }
    let c = identifier.get_char(0);
    if c == 'x' {
        Ok(FrameKind::Imu)
    } else if c == 'v' {
        Ok(FrameKind::Battery)
    } else if c == 'r' {
        Ok(FrameKind::Button)
    } else if c == 'o' {
        Ok(FrameKind::Settings)
    } else if c == 'i' {
        Ok(FrameKind::Info)
    } else if c == 'a' {
        Ok(FrameKind::Link)
    } else {
        Err(ErrorKind::UnknownIdentifier)
    }
}

/// The identifier of a serial line: what stands before the first colon.
/// A line without colon has none.
pub open spec fn line_identifier(line: Seq<char>) -> Seq<char> {
    match first_index_of(line, ':') {
        Some(at) => line.subrange(0, at),
        None => Seq::empty(),
    }
}

/// The payload of a serial line: what stands behind the first colon.
/// A line without colon has none.
pub open spec fn line_payload(line: Seq<char>) -> Seq<char> {
    match first_index_of(line, ':') {
        Some(at) => line.subrange(at + 1, line.len() as int),
        None => Seq::empty(),
    }
}

/// Splits a serial line at its first colon into identifier and payload.
pub fn split_line<'a>(line: &'a str) -> (r: (&'a str, &'a str))
    ensures
        r.0@ == line_identifier(line@),
        r.1@ == line_payload(line@),
{
    let chars = chars_of(line);
    proof {
        lemma_first_index_of(line@, ':');
    }
    match find_char(&chars, ':') {
        Some(at) => (line.substring_char(0, at), line.substring_char(at + 1, chars.len())),
        None => {
            let nothing = line.substring_char(0, 0);
            assert(nothing@ =~= Seq::<char>::empty());
            (nothing, nothing)
        },
    }
}

/// The state and the report that an interpreter of `model` makes of a
/// Bluetooth notification.
///
/// The payload must be base-64, whatever the characteristic: otherwise
/// the notification is refused with `DecodeFailed`. Then `Sensor` is an
/// IMU frame, `MainButton`, `SubButton` and, on models with a third
/// button, `TertiaryButton` are presses, the three battery
/// characteristics go to the ledger, and `Magnetometer` is a quality.
/// Any other characteristic is accepted and ignored.
pub open spec fn ble_outcome(
    state: BridgeView,
    model: TrackerModel,
    device_id: Seq<char>,
    assignment: Seq<char>,
    char_name: Seq<char>,
    data: Seq<char>,
) -> (BridgeView, ReportView) {
    match base64_decoded(data) {
        None => (state, refusal(model, ErrorKind::DecodeFailed)),
        Some(payload) => if char_name == "Sensor"@ {
            imu_outcome(state, model, ConnectionMode::Bluetooth, device_id, assignment, payload)
        } else if char_name == "MainButton"@ || char_name == "SubButton"@ || (has_tertiary(model)
            && char_name == "TertiaryButton"@) {
            button_step(state, model, data, Some(char_name), 0)
        } else if battery_reading_named(char_name) is Some {
            battery_step(state, model, device_id, data, Some(char_name))
        } else if char_name == "Magnetometer"@ {
            (state, mag_report(model, data))
        } else {
            (state, quiet(model))
        },
    }
}

/// Interprets a Bluetooth notification: the characteristic `char_name`
/// of the device `device_id`, which is mounted on the body part
/// `assignment`, has sent `data`, in base-64.
pub fn interpret_ble(
    state: &mut BridgeState,
    model: TrackerModel,
    device_id: &str,
    assignment: &str,
    char_name: &str,
    data: &str,
) -> (r: Report)
    ensures
        final(state)@ == ble_outcome(
            old(state)@,
            model,
            device_id@,
            assignment@,
            char_name@,
            data@,
        ).0,
        r@ == ble_outcome(old(state)@, model, device_id@, assignment@, char_name@, data@).1,
{
    let payload = match base64_decode(data) {
        Ok(payload) => payload,
        Err(_) => {
            return Report::refusal(model, ErrorKind::DecodeFailed);
        },
    };
    if same_text(char_name, "Sensor") {
        process_imu(
            state,
            model,
            device_id,
            assignment,
            ConnectionMode::Bluetooth,
            payload.as_slice(),
        )
    } else if same_text(char_name, "MainButton") || same_text(char_name, "SubButton") || (!is_wired(
        model,
    ) && same_text(char_name, "TertiaryButton")) {
        process_button(state, model, data, Some(char_name), 0)
    } else if same_text(char_name, "BatteryLevel") || same_text(char_name, "BatteryVoltage")
        || same_text(char_name, "ChargeStatus") {
        process_battery(state, model, device_id, data, Some(char_name))
    } else if same_text(char_name, "Magnetometer") {
        process_mag(model, data)
    } else {
        Report::quiet(model)
    }
}

/// The state and the report that an interpreter of `model` makes of a
/// serial line received at the time `now`.
///
/// A line for a tracker without name is ignored. The line is split at
/// its first colon; the first character of the identifier, without
/// regard to case, selects the kind of frame. An identifier that selects
/// none is ignored.
pub open spec fn serial_outcome(
    state: BridgeView,
    model: TrackerModel,
    tracker_name: Seq<char>,
    assignment: Seq<char>,
    line: Seq<char>,
    now: u64,
) -> (BridgeView, ReportView) {
    let payload = line_payload(line);
    if tracker_name.len() == 0 {
        (state, quiet(model))
    } else {
        match frame_kind(lowercased(line_identifier(line))) {
            Some(FrameKind::Imu) => match base64_decoded(payload) {
                Some(frame) => imu_outcome(
                    state,
                    model,
                    ConnectionMode::Serial,
                    tracker_name,
                    assignment,
                    frame,
                ),
                None => (state, refusal(model, ErrorKind::DecodeFailed)),
            },
            Some(FrameKind::Battery) => battery_step(state, model, tracker_name, payload, None),
            Some(FrameKind::Button) => button_step(state, model, payload, None, now),
            Some(FrameKind::Settings) => (
                state,
                single(model, EffectView::Settings(settings_of(payload))),
            ),
            Some(FrameKind::Info) => (state, info_report(model, payload)),
            Some(FrameKind::Link) => connection_step(state, model, tracker_name, payload),
            None => (state, quiet(model)),
        }
    }
}

/// Interprets a serial line of the tracker `tracker_name`, which is
/// mounted on the body part `assignment`, received at the time `now`.
pub fn interpret_serial(
    state: &mut BridgeState,
    model: TrackerModel,
    tracker_name: &str,
    assignment: &str,
    line: &str,
    now: u64,
) -> (r: Report)
    ensures
        final(state)@ == serial_outcome(
            old(state)@,
            model,
            tracker_name@,
            assignment@,
            line@,
            now,
        ).0,
        r@ == serial_outcome(old(state)@, model, tracker_name@, assignment@, line@, now).1,
{
    if tracker_name.unicode_len() == 0 {
        return Report::quiet(model);
    }
    let (identifier, payload) = split_line(line);
    let lower = to_lowercase(identifier);
    match frame_kind_of(lower.as_str()) {
        Ok(FrameKind::Imu) => match base64_decode(payload) {
            Ok(frame) => process_imu(
                state,
                model,
                tracker_name,
                assignment,
                ConnectionMode::Serial,
                frame.as_slice(),
            ),
            Err(_) => Report::refusal(model, ErrorKind::DecodeFailed),
        },
        Ok(FrameKind::Battery) => process_battery(state, model, tracker_name, payload, None),
        Ok(FrameKind::Button) => process_button(state, model, payload, None, now),
        Ok(FrameKind::Settings) => process_settings(model, payload),
        Ok(FrameKind::Info) => process_info(model, payload),
        Ok(FrameKind::Link) => process_connection(state, model, tracker_name, payload),
        Err(_) => Report::quiet(model),
    }
}

/// The interpreter of HaritoraX 2 trackers.
#[derive(Debug, Clone, Copy, PartialEq, Eq, Structural)]
pub struct HaritoraX2;

/// The interpreter of HaritoraX Wired trackers (1.0, 1.1 and 1.1b).
#[derive(Debug, Clone, Copy, PartialEq, Eq, Structural)]
pub struct HaritoraXWired;

/// The interpreter of HaritoraX Wireless trackers.
#[derive(Debug, Clone, Copy, PartialEq, Eq, Structural)]
pub struct HaritoraXWireless;

impl HaritoraX2 {
    /// Interprets a Bluetooth notification.
    pub fn parse_ble(
        &self,
        state: &mut BridgeState,
        device_id: &str,
        device_assignment: &str,
        char_name: &str,
        data: &str,
    ) -> (r: Report)
        ensures
            final(state)@ == ble_outcome(
                old(state)@,
                TrackerModel::X2,
                device_id@,
                device_assignment@,
                char_name@,
                data@,
            ).0,
            r@ == ble_outcome(
                old(state)@,
                TrackerModel::X2,
                device_id@,
                device_assignment@,
                char_name@,
                data@,
            ).1,
    {
        interpret_ble(state, TrackerModel::X2, device_id, device_assignment, char_name, data)
    }

    /// Interprets a serial line received at the time `now`.
    pub fn parse_serial(
        &self,
        state: &mut BridgeState,
        device_id: &str,
        device_assignment: &str,
        data: &str,
        now: u64,
    ) -> (r: Report)
        ensures
            final(state)@ == serial_outcome(
                old(state)@,
                TrackerModel::X2,
                device_id@,
                device_assignment@,
                data@,
                now,
            ).0,
            r@ == serial_outcome(
                old(state)@,
                TrackerModel::X2,
                device_id@,
                device_assignment@,
                data@,
                now,
            ).1,
    {
        interpret_serial(state, TrackerModel::X2, device_id, device_assignment, data, now)
    }
}

impl HaritoraXWired {
    /// Interprets a Bluetooth notification.
    pub fn parse_ble(
        &self,
        state: &mut BridgeState,
        device_id: &str,
        device_assignment: &str,
        char_name: &str,
        data: &str,
    ) -> (r: Report)
        ensures
            final(state)@ == ble_outcome(
                old(state)@,
                TrackerModel::Wired,
                device_id@,
                device_assignment@,
                char_name@,
                data@,
            ).0,
            r@ == ble_outcome(
                old(state)@,
                TrackerModel::Wired,
                device_id@,
                device_assignment@,
                char_name@,
                data@,
            ).1,
    {
        interpret_ble(state, TrackerModel::Wired, device_id, device_assignment, char_name, data)
    }

    /// Interprets a serial line received at the time `now`.
    pub fn parse_serial(
        &self,
        state: &mut BridgeState,
        device_id: &str,
        device_assignment: &str,
        data: &str,
        now: u64,
    ) -> (r: Report)
        ensures
            final(state)@ == serial_outcome(
                old(state)@,
                TrackerModel::Wired,
                device_id@,
                device_assignment@,
                data@,
                now,
            ).0,
            r@ == serial_outcome(
                old(state)@,
                TrackerModel::Wired,
                device_id@,
                device_assignment@,
                data@,
                now,
            ).1,
    {
        interpret_serial(state, TrackerModel::Wired, device_id, device_assignment, data, now)
    }
}

impl HaritoraXWireless {
    /// Interprets a Bluetooth notification.
    pub fn parse_ble(
        &self,
        state: &mut BridgeState,
        device_id: &str,
        device_assignment: &str,
        char_name: &str,
        data: &str,
    ) -> (r: Report)
        ensures
            final(state)@ == ble_outcome(
                old(state)@,
                TrackerModel::Wireless,
                device_id@,
                device_assignment@,
                char_name@,
                data@,
            ).0,
            r@ == ble_outcome(
                old(state)@,
                TrackerModel::Wireless,
                device_id@,
                device_assignment@,
                char_name@,
                data@,
            ).1,
    {
        interpret_ble(state, TrackerModel::Wireless, device_id, device_assignment, char_name, data)
    }

    /// Interprets a serial line received at the time `now`.
    pub fn parse_serial(
        &self,
        state: &mut BridgeState,
        device_id: &str,
        device_assignment: &str,
        data: &str,
        now: u64,
    ) -> (r: Report)
        ensures
            final(state)@ == serial_outcome(
                old(state)@,
                TrackerModel::Wireless,
                device_id@,
                device_assignment@,
                data@,
                now,
            ).0,
            r@ == serial_outcome(
                old(state)@,
                TrackerModel::Wireless,
                device_id@,
                device_assignment@,
                data@,
                now,
            ).1,
    {
        interpret_serial(state, TrackerModel::Wireless, device_id, device_assignment, data, now)
    }
}

/// What happens to a tracker's name while its frames arrive.
pub enum ImuStep {
    /// An IMU frame for the name is interpreted.
    Frame(Seq<u8>),
    /// The caller reports that the name's tracker has been initialized.
    Initialized,
}

/// The state after a run of steps for `name`, and the number of
/// `connect` events that the reports of the run ask for.
pub open spec fn after_steps(
    state: BridgeView,
    model: TrackerModel,
    mode: ConnectionMode,
    name: Seq<char>,
    assignment: Seq<char>,
    steps: Seq<ImuStep>,
) -> (BridgeView, nat)
    decreases steps.len(),
{
    if steps.len() == 0 {
        (state, 0)
    } else {
        let before = after_steps(state, model, mode, name, assignment, steps.drop_last());
        match steps.last() {
            ImuStep::Frame(data) => {
                let outcome = imu_outcome(before.0, model, mode, name, assignment, data);
                (outcome.0, before.1 + connect_count(outcome.1.effects))
            },
            ImuStep::Initialized => (
                BridgeView { slots: before.0.slots.insert(name, true), ..before.0 },
                before.1,
            ),
        }
    }
}

/// Adding an effect adds one `connect` event if it is one, and none
/// otherwise.
pub proof fn lemma_connect_count_push(effects: Seq<EffectView>, effect: EffectView)
    ensures
        connect_count(effects.push(effect)) == connect_count(effects) + if effect is Connect {
            1nat
        } else {
            0nat
        },
{
    assert(effects.push(effect).drop_last() =~= effects);
}

/// The report of an IMU frame asks for the `connect` event once if the
/// name was not registered, and not at all if it was. Afterwards the
/// name is registered.
pub proof fn lemma_imu_connects(
    state: BridgeView,
    model: TrackerModel,
    mode: ConnectionMode,
    name: Seq<char>,
    assignment: Seq<char>,
    data: Seq<u8>,
)
    requires
        name.len() > 0,
    ensures
        connect_count(imu_outcome(state, model, mode, name, assignment, data).1.effects)
            == if state.slots.contains_key(name) {
            0nat
        } else {
            1nat
        },
        imu_outcome(state, model, mode, name, assignment, data).0.slots.contains_key(name),
{
    let nothing = Seq::<EffectView>::empty();
    let create = EffectView::AddTracker(setup_for(mac_seed(), state.watching));
    lemma_connect_count_push(nothing, create);
    lemma_connect_count_push(nothing.push(create), EffectView::Connect { assignment });
    if !(state.slots.contains_key(name) && !state.slots[name]) {
        let head = if state.slots.contains_key(name) {
            nothing
        } else {
            nothing.push(create).push(EffectView::Connect { assignment })
        };
        if frame_ok(name, data) {
            let encoded = base64_encoded(data);
            let rotation = decoded_rotation(data);
            let acceleration = decoded_acceleration(data);
            let ankle = if has_ankle(model) {
                ankle_of(data, encoded)
            } else {
                None
            };
            let imu = EffectView::Imu { rotation, acceleration, ankle };
            let event = head.push(imu);
            lemma_connect_count_push(head, imu);
            let mag = EffectView::Mag(embedded_mag_status(encoded));
            lemma_connect_count_push(event, mag);
            let noted = if mode == ConnectionMode::Serial {
                event.push(mag)
            } else {
                event
            };
            lemma_connect_count_push(noted, EffectView::SendRotation(rotation));
            lemma_connect_count_push(
                noted.push(EffectView::SendRotation(rotation)),
                EffectView::SendAcceleration(acceleration),
            );
        }
    }
}

/// However many IMU frames arrive for a new name, and whenever its
/// tracker is reported as initialized in between, the name is registered
/// once and exactly one `connect` event is asked for.
pub proof fn lemma_one_connect(
    state: BridgeView,
    model: TrackerModel,
    mode: ConnectionMode,
    name: Seq<char>,
    assignment: Seq<char>,
    steps: Seq<ImuStep>,
)
    requires
        name.len() > 0,
        !state.slots.contains_key(name),
        steps.len() > 0,
        steps[0] is Frame,
    ensures
        after_steps(state, model, mode, name, assignment, steps).1 == 1,
        after_steps(state, model, mode, name, assignment, steps).0.slots.contains_key(name),
    decreases steps.len(),
{
    let earlier = steps.drop_last();
    let before = after_steps(state, model, mode, name, assignment, earlier);
    if steps.len() == 1 {
        assert(earlier.len() == 0);
    } else {
        assert(earlier[0] == steps[0]);
        lemma_one_connect(state, model, mode, name, assignment, earlier);
    }
    match steps.last() {
        ImuStep::Frame(data) => {
            lemma_imu_connects(before.0, model, mode, name, assignment, data);
        },
        ImuStep::Initialized => {},
    }
}

/// A lost link and the frame after it: the link record takes the
/// tracker out of the registry, shutting it down if it was live, and
/// asks for the `disconnect` event. The next IMU frame for the name
/// claims it anew and asks, in this order, for the tracker's creation,
/// the `connect` event and the `imu` event, and is accepted.
pub proof fn lemma_link_loss_recreates(
    state: BridgeView,
    model: TrackerModel,
    mode: ConnectionMode,
    name: Seq<char>,
    assignment: Seq<char>,
    link: Seq<char>,
    data: Seq<u8>,
)
    requires
        state.slots.contains_key(name),
        connection_outcome(link) matches Ok(record) && link_lost(record),
        frame_ok(name, data),
    ensures
        ({
            let lost = connection_step(state, model, name, link);
            let again = imu_outcome(lost.0, model, mode, name, assignment, data);
            &&& !lost.0.slots.contains_key(name)
            &&& lost.1.error is None
            &&& lost.1.effects.last() == EffectView::Disconnect
            &&& state.slots[name] ==> lost.1.effects.first() == EffectView::ShutDownTracker
            &&& again.0.slots == lost.0.slots.insert(name, false)
            &&& again.1.error is None
            &&& again.1.effects == imu_effects(
                seq![
                    EffectView::AddTracker(setup_for(mac_seed(), state.watching)),
                    EffectView::Connect { assignment },
                ],
                model,
                mode,
                data,
            )
            &&& again.1.effects.len() >= 5
            &&& again.1.effects[0] is AddTracker
            &&& again.1.effects[1] == (EffectView::Connect { assignment })
            &&& again.1.effects[2] is Imu
        }),
{
    let lost = connection_step(state, model, name, link);
    let head = Seq::<EffectView>::empty().push(
        EffectView::AddTracker(setup_for(mac_seed(), state.watching)),
    ).push(EffectView::Connect { assignment });
    assert(head =~= seq![
        EffectView::AddTracker(setup_for(mac_seed(), state.watching)),
        EffectView::Connect { assignment },
    ]);
}

} // verus!
