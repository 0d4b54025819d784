//! Bridge core for HaritoraX-family motion trackers.
//!
//! The crate holds the decision logic of a bridge between HaritoraX
//! trackers (Wired, Wireless and X2) and a SlimeVR server:
//!
//! * [`imu`]: the 14-byte fixed-point IMU frame and the removal of
//!   gravity from it;
//! * [`decoders`], [`battery`], [`buttons`]: the auxiliary telemetry;
//! * [`interpreters`], [`dispatch`], [`effects`]: what a model's
//!   interpreter makes of a Bluetooth notification or a serial line, and
//!   which interpreter gets it;
//! * [`ble`], [`gatt`], [`serial`]: the state machines behind the two
//!   transports;
//! * [`emulator`]: the registry of emulated SlimeVR trackers;
//! * [`host`], [`util`]: the commands of the host program.
//!
//! Nothing here touches a device, the network or the clock. A caller owns
//! the state values, hands every record to the function that decides on
//! it, carries out what the returned plan asks for, and reports back how
//! it went. Values that the trackers send in fixed point stay in fixed
//! point; turning them into floating point is the caller's last step.
//!
//! The functions are verified with Verus against the contracts they
//! state. What is taken on trust are the calls into other crates, which
//! stand in [`bindings`] and [`tables`].

pub mod battery;
pub mod bindings;
pub mod ble;
pub mod buttons;
pub mod decoders;
pub mod dispatch;
pub mod effects;
pub mod emulator;
pub mod error;
pub mod gatt;
pub mod host;
pub mod imu;
pub mod interpreters;
pub mod model;
pub mod search;
pub mod serial;
pub mod tables;
pub mod text;
pub mod util;
