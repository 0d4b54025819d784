//! The common telemetry model that every transport is normalized into.

use crate::text::text_of;
use vstd::prelude::*;

verus! {

/// The hardware generations the bridge understands.
#[derive(Debug, Clone, Copy, PartialEq, Eq, Hash, Structural)]
pub enum TrackerModel {
    X2,
    Wireless,
    Wired,
}

/// The transport a telemetry record arrived on.
#[derive(Debug, Clone, Copy, PartialEq, Eq, Hash, Structural)]
pub enum ConnectionMode {
    Bluetooth,
    Serial,
}

/// Magnetometer calibration quality as the tracker reports it.
#[derive(Debug, Clone, Copy, PartialEq, Eq, Hash, Structural)]
pub enum MagStatus {
    Great,
    Okay,
    Bad,
    VeryBad,
    Unknown,
}

/// What the battery is doing.
#[derive(Debug, Clone, Copy, PartialEq, Eq, Hash, Structural)]
pub enum ChargeStatus {
    Discharging,
    Charging,
    Charged,
    Unknown,
}

/// The physical buttons of a tracker.
#[derive(Debug, Clone, Copy, PartialEq, Eq, Hash, Structural)]
pub enum ButtonRole {
    Main,
    Sub,
    Tertiary,
}

/// One battery report. A field is `None` when the report does not carry it.
#[derive(Debug, Clone, Copy, PartialEq, Eq, Structural)]
pub struct BatteryData {
    /// Remaining charge in percent.
    pub remaining: Option<u8>,
    /// Cell voltage in millivolts.
    pub voltage: Option<u16>,
    pub status: Option<ChargeStatus>,
}

/// What a tracker says about itself.
#[derive(Debug, PartialEq, Eq)]
pub struct InfoData {
    pub version: String,
    pub model: String,
    pub serial: String,
    pub communication: Option<String>,
    pub communication_type: Option<String>,
}

/// The mathematical content of an [`InfoData`].
pub struct InfoDataView {
    pub version: Seq<char>,
    pub model: Seq<char>,
    pub serial: Seq<char>,
    pub communication: Option<Seq<char>>,
    pub communication_type: Option<Seq<char>>,
}

impl View for InfoData {
    type V = InfoDataView;

    open spec fn view(&self) -> InfoDataView {
        InfoDataView {
            version: self.version@,
            model: self.model@,
            serial: self.serial@,
            communication: text_of(self.communication),
            communication_type: text_of(self.communication_type),
        }
    }
}

impl Clone for InfoData {
    fn clone(&self) -> (r: Self)
        ensures
            r@ == self@,
    {
        InfoData {
            version: self.version.clone(),
            model: self.model.clone(),
            serial: self.serial.clone(),
            communication: self.communication.clone(),
            communication_type: self.communication_type.clone(),
        }
    }
}

/// The tracker settings carried by an `o` frame.
#[derive(Debug, Clone, Copy, PartialEq, Eq, Structural)]
pub struct SettingsData {
    /// 1 or 2.
    pub sensor_mode: u8,
    /// Frames per second: 50 or 100.
    pub fps_mode: u8,
    /// Automatic correction by the accelerometer.
    pub correct_accel: bool,
    /// Automatic correction by the gyroscope.
    pub correct_gyro: bool,
    /// Automatic correction by the magnetometer.
    pub correct_mag: bool,
    pub ankle_enabled: bool,
}

/// Link quality between dongle and tracker. Both fields are `None` when
/// the dongle has lost the tracker.
#[derive(Debug, Clone, Copy, PartialEq, Eq, Structural)]
pub struct ConnectionData {
    pub dongle_rssi: Option<i8>,
    pub tracker_rssi: Option<i8>,
}

impl TrackerModel {
    /// The tag under which the model travels in events: `X2`, `Wireless` or `Wired`.
    pub fn tag(&self) -> (r: &'static str)
        ensures
            r@ == self.tag_text(),
    {
        match self {
            TrackerModel::X2 => "X2",
            TrackerModel::Wireless => "Wireless",
            TrackerModel::Wired => "Wired",
        }
    }

    pub open spec fn tag_text(&self) -> Seq<char> {
        match self {
            TrackerModel::X2 => "X2"@,
            TrackerModel::Wireless => "Wireless"@,
            TrackerModel::Wired => "Wired"@,
        }
    }
}

impl ConnectionMode {
    /// The tag under which the mode travels in events: `bluetooth` or `serial`.
    pub fn tag(&self) -> (r: &'static str)
        ensures
            r@ == self.tag_text(),
    {
        match self {
            ConnectionMode::Bluetooth => "bluetooth",
            ConnectionMode::Serial => "serial",
        }
    }

    pub open spec fn tag_text(&self) -> Seq<char> {
        match self {
            ConnectionMode::Bluetooth => "bluetooth"@,
            ConnectionMode::Serial => "serial"@,
        }
    }
}

} // verus!
