//! The GATT surface of a HaritoraX tracker: its services and
//! characteristics.

use crate::text::slice_text;
use crate::search::first_where;
use crate::search::lemma_first_where_is;
use crate::text::contains;
use crate::text::has_substring;
use crate::text::same_text;
use vstd::prelude::*;

verus! {

/// The Sensor characteristic, `00dbf1c6-90aa-11ed-a1eb-0242ac120002`.
pub const SENSOR_CHARACTERISTIC: u128 = 0x00dbf1c6_90aa_11ed_a1eb_0242ac120002;

/// The main button's characteristic,
/// `00dbf450-90aa-11ed-a1eb-0242ac120002`.
pub const MAIN_BUTTON_CHARACTERISTIC: u128 = 0x00dbf450_90aa_11ed_a1eb_0242ac120002;

/// The sub button's characteristic,
/// `00dbf586-90aa-11ed-a1eb-0242ac120002`.
pub const SUB_BUTTON_CHARACTERISTIC: u128 = 0x00dbf586_90aa_11ed_a1eb_0242ac120002;

/// The UUID of the characteristic that holds a tracker's body part.
pub const BODY_PART_UUID: &'static str = "ef84c301-90a9-11ed-a1eb-0242ac120002";

/// One characteristic of a tracker.
#[derive(Debug, Clone, Copy, PartialEq, Eq)]
pub struct Characteristic {
    /// The UUID, in its short form where it has one.
    pub uuid: &'static str,
    pub name: &'static str,
    /// Whether the bridge subscribes to its notifications.
    pub subscribable: bool,
}

/// The mathematical content of a [`Characteristic`].
pub struct CharacteristicView {
    pub uuid: Seq<char>,
    pub name: Seq<char>,
    pub subscribable: bool,
}

impl View for Characteristic {
    type V = CharacteristicView;

    open spec fn view(&self) -> CharacteristicView {
        CharacteristicView { uuid: self.uuid@, name: self.name@, subscribable: self.subscribable }
    }
}

/// The content of a list of characteristics.
pub open spec fn characteristic_views(list: Seq<Characteristic>) -> Seq<CharacteristicView> {
    list.map_values(|c: Characteristic| c@)
}

/// A row of the table of characteristics.
pub open spec fn entry(uuid: Seq<char>, name: Seq<char>, subscribable: bool) -> CharacteristicView {
    CharacteristicView { uuid, name, subscribable }
}

/// The characteristics of a tracker.
pub open spec fn characteristic_table() -> Seq<CharacteristicView> {
    seq![
        entry("2a19"@, "BatteryLevel"@, true),
        entry("2a25"@, "SerialNumber"@, false),
        entry("2a29"@, "Manufacturer"@, false),
        entry("2a27"@, "HardwareRevision"@, false),
        entry("2a26"@, "FirmwareRevision"@, false),
        entry("2a28"@, "SoftwareRevision"@, false),
        entry("2a24"@, "ModelNumber"@, false),
        entry("00dbf1c6-90aa-11ed-a1eb-0242ac120002"@, "Sensor"@, true),
        entry("00dbf07c-90aa-11ed-a1eb-0242ac120002"@, "NumberOfImu"@, false),
        entry("00dbf306-90aa-11ed-a1eb-0242ac120002"@, "Magnetometer"@, true),
        entry("00dbf450-90aa-11ed-a1eb-0242ac120002"@, "MainButton"@, true),
        entry("00dbf586-90aa-11ed-a1eb-0242ac120002"@, "SubButton"@, true),
        entry("00dbf6a8-90aa-11ed-a1eb-0242ac120002"@, "TertiaryButton"@, true),
        entry("ef844202-90a9-11ed-a1eb-0242ac120002"@, "FpsSetting"@, false),
        entry("ef8443f6-90a9-11ed-a1eb-0242ac120002"@, "TofSetting"@, false),
        entry("ef8445c2-90a9-11ed-a1eb-0242ac120002"@, "SensorModeSetting"@, false),
        entry("ef84c300-90a9-11ed-a1eb-0242ac120002"@, "WirelessModeSetting"@, false),
        entry("ef84c305-90a9-11ed-a1eb-0242ac120002"@, "AutoCalibrationSetting"@, false),
        entry("ef844766-90a9-11ed-a1eb-0242ac120002"@, "SensorDataControl"@, false),
        entry("ef843b54-90a9-11ed-a1eb-0242ac120002"@, "BatteryVoltage"@, true),
        entry("ef843cb2-90a9-11ed-a1eb-0242ac120002"@, "ChargeStatus"@, true),
        entry("ef84c301-90a9-11ed-a1eb-0242ac120002"@, "BodyPartAssignment"@, false),
        entry("8ec90003-f315-4f60-9fb8-838830daea50"@, "DFUControl"@, false),
        entry("0c900914-a85e-11ed-afa1-0242ac120002"@, "CommandMode"@, false),
        entry("0c900c84-a85e-11ed-afa1-0242ac120002"@, "Command"@, false),
        entry("0c900df6-a85e-11ed-afa1-0242ac120002"@, "Response"@, false),
    ]
}

/// The services of a tracker, each with its name.
pub open spec fn service_table() -> Seq<(Seq<char>, Seq<char>)> {
    seq![
        ("1800"@, "Generic Access"@),
        ("1801"@, "Generic Attribute"@),
        ("180a"@, "Device Information"@),
        ("180f"@, "Battery Service"@),
        ("fe59"@, "DFU Service"@),
        ("00dbec3a-90aa-11ed-a1eb-0242ac120002"@, "Tracker Service"@),
        ("ef84369a-90a9-11ed-a1eb-0242ac120002"@, "Setting Service"@),
    ]
}

/// The content of a list of pairs of string slices.
pub open spec fn pair_views(list: Seq<(&'static str, &'static str)>) -> Seq<(Seq<char>, Seq<char>)> {
    list.map_values(|p: (&'static str, &'static str)| (p.0@, p.1@))
}

/// The subscribable ones among the characteristics, in their order.
pub open spec fn subscribable_among(list: Seq<CharacteristicView>) -> Seq<CharacteristicView>
    decreases list.len(),
{
    if list.len() == 0 {
        Seq::empty()
    } else {
        let before = subscribable_among(list.drop_last());
        if list.last().subscribable {
            before.push(list.last())
        } else {
            before
        }
    }
}

/// The characteristics of a tracker.
pub fn characteristics() -> (r: Vec<Characteristic>)
    ensures
        characteristic_views(r@) == characteristic_table(),
{
    let mut table: Vec<Characteristic> = Vec::new();
    table.push(Characteristic { uuid: "2a19", name: "BatteryLevel", subscribable: true });
    table.push(Characteristic { uuid: "2a25", name: "SerialNumber", subscribable: false });
    table.push(Characteristic { uuid: "2a29", name: "Manufacturer", subscribable: false });
    table.push(Characteristic { uuid: "2a27", name: "HardwareRevision", subscribable: false });
    table.push(Characteristic { uuid: "2a26", name: "FirmwareRevision", subscribable: false });
    table.push(Characteristic { uuid: "2a28", name: "SoftwareRevision", subscribable: false });
    table.push(Characteristic { uuid: "2a24", name: "ModelNumber", subscribable: false });
    table.push(Characteristic { uuid: "00dbf1c6-90aa-11ed-a1eb-0242ac120002", name: "Sensor", subscribable: true });
    table.push(Characteristic { uuid: "00dbf07c-90aa-11ed-a1eb-0242ac120002", name: "NumberOfImu", subscribable: false });
    table.push(Characteristic { uuid: "00dbf306-90aa-11ed-a1eb-0242ac120002", name: "Magnetometer", subscribable: true });
    table.push(Characteristic { uuid: "00dbf450-90aa-11ed-a1eb-0242ac120002", name: "MainButton", subscribable: true });
    table.push(Characteristic { uuid: "00dbf586-90aa-11ed-a1eb-0242ac120002", name: "SubButton", subscribable: true });
    table.push(Characteristic { uuid: "00dbf6a8-90aa-11ed-a1eb-0242ac120002", name: "TertiaryButton", subscribable: true });
    table.push(Characteristic { uuid: "ef844202-90a9-11ed-a1eb-0242ac120002", name: "FpsSetting", subscribable: false });
    table.push(Characteristic { uuid: "ef8443f6-90a9-11ed-a1eb-0242ac120002", name: "TofSetting", subscribable: false });
    table.push(Characteristic { uuid: "ef8445c2-90a9-11ed-a1eb-0242ac120002", name: "SensorModeSetting", subscribable: false });
    table.push(Characteristic { uuid: "ef84c300-90a9-11ed-a1eb-0242ac120002", name: "WirelessModeSetting", subscribable: false });
    table.push(Characteristic { uuid: "ef84c305-90a9-11ed-a1eb-0242ac120002", name: "AutoCalibrationSetting", subscribable: false });
    table.push(Characteristic { uuid: "ef844766-90a9-11ed-a1eb-0242ac120002", name: "SensorDataControl", subscribable: false });
    table.push(Characteristic { uuid: "ef843b54-90a9-11ed-a1eb-0242ac120002", name: "BatteryVoltage", subscribable: true });
    table.push(Characteristic { uuid: "ef843cb2-90a9-11ed-a1eb-0242ac120002", name: "ChargeStatus", subscribable: true });
    table.push(Characteristic { uuid: "ef84c301-90a9-11ed-a1eb-0242ac120002", name: "BodyPartAssignment", subscribable: false });
    table.push(Characteristic { uuid: "8ec90003-f315-4f60-9fb8-838830daea50", name: "DFUControl", subscribable: false });
    table.push(Characteristic { uuid: "0c900914-a85e-11ed-afa1-0242ac120002", name: "CommandMode", subscribable: false });
    table.push(Characteristic { uuid: "0c900c84-a85e-11ed-afa1-0242ac120002", name: "Command", subscribable: false });
    table.push(Characteristic { uuid: "0c900df6-a85e-11ed-afa1-0242ac120002", name: "Response", subscribable: false });
    assert(characteristic_views(table@) =~= characteristic_table());
    table
}

/// The services of a tracker, each with its name.
pub fn services() -> (r: Vec<(&'static str, &'static str)>)
    ensures
        pair_views(r@) == service_table(),
{
    let mut table: Vec<(&'static str, &'static str)> = Vec::new();
    table.push(("1800", "Generic Access"));
    table.push(("1801", "Generic Attribute"));
    table.push(("180a", "Device Information"));
    table.push(("180f", "Battery Service"));
    table.push(("fe59", "DFU Service"));
    table.push(("00dbec3a-90aa-11ed-a1eb-0242ac120002", "Tracker Service"));
    table.push(("ef84369a-90a9-11ed-a1eb-0242ac120002", "Setting Service"));
    assert(pair_views(table@) =~= service_table());
    table
}

/// The characteristics that the bridge subscribes to once a tracker is
/// connected.
pub fn subscribable_characteristics() -> (r: Vec<Characteristic>)
    ensures
        characteristic_views(r@) == subscribable_among(characteristic_table()),
{
    let table = characteristics();
    let ghost all = characteristic_views(table@);
    let mut chosen: Vec<Characteristic> = Vec::new();
    assert(all.take(0) =~= Seq::<CharacteristicView>::empty());
    assert(characteristic_views(chosen@) =~= Seq::<CharacteristicView>::empty());
    let mut i: usize = 0;
    while i < table.len()
        invariant
            i <= table.len(),
            all == characteristic_views(table@),
            characteristic_views(chosen@) == subscribable_among(all.take(i as int)),
        decreases table.len() - i,
    {
        proof {
            assert(all.take(i + 1).drop_last() =~= all.take(i as int));
            assert(all.take(i + 1).last() == table@[i as int]@);
        }
        if table[i].subscribable {
            let ghost before = characteristic_views(chosen@);
            chosen.push(table[i]);
            assert(characteristic_views(chosen@) =~= before.push(table@[i as int]@));
        }
        i += 1;
    }
    assert(all.take(i as int) =~= all);
    chosen
}

/// The name of the characteristic with the given UUID: that of the
/// first row of the table with it.
pub open spec fn characteristic_named(uuid: Seq<char>) -> Option<Seq<char>> {
    match first_where(characteristic_table(), |c: CharacteristicView| c.uuid == uuid) {
        Some(at) => Some(characteristic_table()[at].name),
        None => None,
    }
}

/// Tells the name of the characteristic with the given UUID.
pub fn characteristic_name(uuid: &str) -> (r: Option<&'static str>)
    ensures
        slice_text(r) == characteristic_named(uuid@),
{
    let table = characteristics();
    let ghost same = |c: CharacteristicView| c.uuid == uuid@;
    let mut at: usize = 0;
    while at < table.len()
        invariant
            at <= table.len(),
            characteristic_views(table@) == characteristic_table(),
            forall|k: int| 0 <= k < at ==> !same(#[trigger] characteristic_views(table@)[k]),
            same == (|c: CharacteristicView| c.uuid == uuid@),
        ensures
            at < table.len() ==> same(characteristic_views(table@)[at as int]),
        decreases table.len() - at,
    {
        if same_text(table[at].uuid, uuid) {
            break;
        }
        at += 1;
    }
    proof {
        lemma_first_where_is(characteristic_views(table@), same, at as int);
    }
    if at < table.len() {
        assert(characteristic_views(table@)[at as int] == table@[at as int]@);
        Some(table[at].name)
    } else {
        None
    }
}

/// The name of the service with the given UUID: that of the first row
/// of the table with it.
pub open spec fn service_named(uuid: Seq<char>) -> Option<Seq<char>> {
    match first_where(service_table(), |s: (Seq<char>, Seq<char>)| s.0 == uuid) {
        Some(at) => Some(service_table()[at].1),
        None => None,
    }
}

/// Tells the name of the service with the given UUID.
pub fn service_name(uuid: &str) -> (r: Option<&'static str>)
    ensures
        slice_text(r) == service_named(uuid@),
{
    let table = services();
    let ghost same = |s: (Seq<char>, Seq<char>)| s.0 == uuid@;
    let mut at: usize = 0;
    while at < table.len()
        invariant
            at <= table.len(),
            pair_views(table@) == service_table(),
            forall|k: int| 0 <= k < at ==> !same(#[trigger] pair_views(table@)[k]),
            same == (|s: (Seq<char>, Seq<char>)| s.0 == uuid@),
        ensures
            at < table.len() ==> same(pair_views(table@)[at as int]),
        decreases table.len() - at,
    {
        if same_text(table[at].0, uuid) {
            break;
        }
        at += 1;
    }
    proof {
        lemma_first_where_is(pair_views(table@), same, at as int);
    }
    if at < table.len() {
        assert(pair_views(table@)[at as int] == (table@[at as int].0@, table@[at as int].1@));
        Some(table[at].1)
    } else {
        None
    }
}

/// Whether a device offers what the bridge cannot do without: the
/// Tracker Service and the Setting Service, and the characteristics of
/// the sensor, the main button and the sub button.
pub open spec fn offers_required(services: Seq<u128>, characteristics: Seq<u128>) -> bool {
    &&& services.contains(crate::ble::TRACKER_SERVICE)
    &&& services.contains(crate::ble::SETTING_SERVICE)
    &&& characteristics.contains(SENSOR_CHARACTERISTIC)
    &&& characteristics.contains(MAIN_BUTTON_CHARACTERISTIC)
    &&& characteristics.contains(SUB_BUTTON_CHARACTERISTIC)
}

fn has_value(list: &Vec<u128>, value: u128) -> (r: bool)
    ensures
        r == list@.contains(value),
{
    let mut i: usize = 0;
    while i < list.len()
        invariant
            i <= list.len(),
            forall|k: int| 0 <= k < i ==> list@[k] != value,
        decreases list.len() - i,
    {
        if list[i] == value {
            return true;
        }
        i += 1;
    }
    false
}

/// Tells whether a device with the given services and characteristics,
/// each by the 128-bit value of its UUID, can be used as a tracker.
pub fn supports_tracker_protocol(services: &Vec<u128>, characteristics: &Vec<u128>) -> (r: bool)
    ensures
        r == offers_required(services@, characteristics@),
{
    has_value(services, crate::ble::TRACKER_SERVICE) && has_value(
        services,
        crate::ble::SETTING_SERVICE,
    ) && has_value(characteristics, SENSOR_CHARACTERISTIC) && has_value(
        characteristics,
        MAIN_BUTTON_CHARACTERISTIC,
    ) && has_value(characteristics, SUB_BUTTON_CHARACTERISTIC)
}

/// Tells whether a device's name is that of a HaritoraX tracker: it
/// holds `Haritora`.
pub fn is_haritora_name(name: &str) -> (r: bool)
    ensures
        r == has_substring(name@, "Haritora"@),
{
    contains(name, "Haritora")
}

} // verus!
