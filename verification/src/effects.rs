//! What an interpreter asks of its caller.
//!
//! An interpreter touches neither the user interface nor the network. It
//! answers every frame with a [`Report`]: the effects to carry out, in
//! order, and the error to hand on once they are done. An event effect
//! is emitted to the user interface together with the tracker's name, the
//! connection mode and the report's model; a send effect goes to the
//! emulated tracker of that name.

use crate::emulator::TrackerSetup;
use crate::error::ErrorKind;
use crate::imu::Acceleration;
use crate::imu::Rotation;
use crate::model::BatteryData;
use crate::model::ButtonRole;
use crate::model::ConnectionData;
use crate::model::InfoData;
use crate::model::InfoDataView;
use crate::model::MagStatus;
use crate::model::SettingsData;
use crate::model::TrackerModel;
use crate::text::slice_text;
use vstd::prelude::*;

verus! {

/// One thing to do for a frame.
#[derive(Debug, PartialEq, Eq)]
pub enum Effect {
    /// Create and initialize the emulated tracker and give it its sensor.
    /// The registry is told how it went: that the tracker is
    /// initialized, or that its creation failed, in which case the
    /// remaining effects are dropped.
    AddTracker(TrackerSetup),
    /// Shut the emulated tracker down.
    ShutDownTracker,
    /// The event `connect`, which carries the body part that the tracker
    /// is mounted on.
    Connect { assignment: String },
    /// The event `disconnect`.
    Disconnect,
    /// The event `imu`.
    Imu { rotation: Rotation, acceleration: Acceleration, ankle: Option<u16> },
    /// The event `mag`.
    Mag(MagStatus),
    /// The event `battery`.
    Battery(BatteryData),
    /// The event `button`.
    Button(ButtonRole),
    /// The event `settings`.
    Settings(SettingsData),
    /// The event `info`.
    Info(InfoData),
    /// The event `connection`.
    Connection(ConnectionData),
    /// Send the rotation, normalized, as the sensor's reading.
    SendRotation(Rotation),
    /// Send the acceleration as the sensor's reading.
    SendAcceleration(Acceleration),
    /// Send the battery state: the level in percent and the voltage in
    /// millivolts.
    SendBattery { percent: u8, millivolts: u16 },
}

/// The mathematical content of an [`Effect`].
pub enum EffectView {
    AddTracker(TrackerSetup),
    ShutDownTracker,
    Connect { assignment: Seq<char> },
    Disconnect,
    Imu { rotation: Rotation, acceleration: Acceleration, ankle: Option<u16> },
    Mag(MagStatus),
    Battery(BatteryData),
    Button(ButtonRole),
    Settings(SettingsData),
    Info(InfoDataView),
    Connection(ConnectionData),
    SendRotation(Rotation),
    SendAcceleration(Acceleration),
    SendBattery { percent: u8, millivolts: u16 },
}

impl View for Effect {
    type V = EffectView;

    open spec fn view(&self) -> EffectView {
        match *self {
            Effect::AddTracker(setup) => EffectView::AddTracker(setup),
            Effect::ShutDownTracker => EffectView::ShutDownTracker,
            Effect::Connect { assignment } => EffectView::Connect { assignment: assignment@ },
            Effect::Disconnect => EffectView::Disconnect,
            Effect::Imu { rotation, acceleration, ankle } => EffectView::Imu {
                rotation,
                acceleration,
                ankle,
            },
            Effect::Mag(status) => EffectView::Mag(status),
            Effect::Battery(data) => EffectView::Battery(data),
            Effect::Button(role) => EffectView::Button(role),
            Effect::Settings(data) => EffectView::Settings(data),
            Effect::Info(data) => EffectView::Info(data@),
            Effect::Connection(data) => EffectView::Connection(data),
            Effect::SendRotation(rotation) => EffectView::SendRotation(rotation),
            Effect::SendAcceleration(acceleration) => EffectView::SendAcceleration(acceleration),
            Effect::SendBattery { percent, millivolts } => EffectView::SendBattery {
                percent,
                millivolts,
            },
        }
    }
}

impl EffectView {
    /// The name of the event that the effect emits; none for an effect
    /// on the emulated tracker.
    pub open spec fn event_name(self) -> Option<Seq<char>> {
        match self {
            EffectView::Connect { .. } => Some("connect"@),
            EffectView::Disconnect => Some("disconnect"@),
            EffectView::Imu { .. } => Some("imu"@),
            EffectView::Mag(_) => Some("mag"@),
            EffectView::Battery(_) => Some("battery"@),
            EffectView::Button(_) => Some("button"@),
            EffectView::Settings(_) => Some("settings"@),
            EffectView::Info(_) => Some("info"@),
            EffectView::Connection(_) => Some("connection"@),
            _ => None,
        }
    }
}

impl Effect {
    /// The name of the event that the effect emits; none for an effect
    /// on the emulated tracker.
    pub fn event_name(&self) -> (r: Option<&'static str>)
        ensures
            slice_text(r) == self@.event_name(),
    {
        match self {
            Effect::Connect { .. } => Some("connect"),
            Effect::Disconnect => Some("disconnect"),
            Effect::Imu { .. } => Some("imu"),
            Effect::Mag(_) => Some("mag"),
            Effect::Battery(_) => Some("battery"),
            Effect::Button(_) => Some("button"),
            Effect::Settings(_) => Some("settings"),
            Effect::Info(_) => Some("info"),
            Effect::Connection(_) => Some("connection"),
            _ => None,
        }
    }
}

/// The content of a list of effects.
pub open spec fn effect_views(effects: Seq<Effect>) -> Seq<EffectView> {
    effects.map_values(|e: Effect| e@)
}

/// What one interpreter made of one frame.
#[derive(Debug, PartialEq, Eq)]
pub struct Report {
    /// The interpreter's model, which tags every event.
    pub model: TrackerModel,
    /// What to do, in order.
    pub effects: Vec<Effect>,
    /// The error to report after the effects, if the frame was refused.
    pub error: Option<ErrorKind>,
}

/// The mathematical content of a [`Report`].
pub struct ReportView {
    pub model: TrackerModel,
    pub effects: Seq<EffectView>,
    pub error: Option<ErrorKind>,
}

impl View for Report {
    type V = ReportView;

    open spec fn view(&self) -> ReportView {
        ReportView { model: self.model, effects: effect_views(self.effects@), error: self.error }
    }
}

/// The report that asks for nothing.
pub open spec fn quiet(model: TrackerModel) -> ReportView {
    ReportView { model, effects: Seq::empty(), error: None }
}

/// The report that asks for nothing but to hand an error on.
pub open spec fn refusal(model: TrackerModel, error: ErrorKind) -> ReportView {
    ReportView { model, effects: Seq::empty(), error: Some(error) }
}

/// The report that asks for one effect.
pub open spec fn single(model: TrackerModel, effect: EffectView) -> ReportView {
    ReportView { model, effects: seq![effect], error: None }
}

impl Report {
    /// The report that asks for nothing.
    pub fn quiet(model: TrackerModel) -> (r: Self)
        ensures
            r@ == quiet(model),
    {
        let r = Report { model, effects: Vec::new(), error: None };
        assert(effect_views(r.effects@) =~= Seq::empty());
        r
    }

    /// The report that asks for nothing but to hand an error on.
    pub fn refusal(model: TrackerModel, error: ErrorKind) -> (r: Self)
        ensures
            r@ == refusal(model, error),
    {
        let r = Report { model, effects: Vec::new(), error: Some(error) };
        assert(effect_views(r.effects@) =~= Seq::empty());
        r
    }

    /// The report that asks for one effect.
    pub fn single(model: TrackerModel, effect: Effect) -> (r: Self)
        ensures
            r@ == single(model, effect@),
    {
        let mut r = Report::quiet(model);
        r.push(effect);
        assert(r@.effects =~= seq![effect@]);
        r
    }

    /// Adds an effect at the end.
    pub fn push(&mut self, effect: Effect)
        ensures
            final(self)@ == (ReportView { effects: old(self)@.effects.push(effect@), ..old(self)@ }),
    {
        self.effects.push(effect);
        assert(effect_views(self.effects@) =~= effect_views(old(self).effects@).push(effect@));
    }

    /// Whether the frame was accepted.
    pub fn accepted(&self) -> (r: bool)
        ensures
            r == self@.error is None,
    {
        self.error.is_none()
    }
}

/// How many of the effects are `connect` events.
pub open spec fn connect_count(effects: Seq<EffectView>) -> nat
    decreases effects.len(),
{
    if effects.len() == 0 {
        0
    } else {
        connect_count(effects.drop_last()) + if effects.last() is Connect {
            1nat
        } else {
            0nat
        }
    }
}

} // verus!
