//! The error kinds shared by every component.

use vstd::prelude::*;

verus! {

/// Why an operation was rejected.
#[derive(Debug, Clone, Copy, PartialEq, Eq, Hash, Structural)]
pub enum ErrorKind {
    /// No Bluetooth adapter is present.
    NoAdapter,
    /// A scan was requested while another one is running.
    ScanAlreadyRunning,
    /// A characteristic or service identifier is not a UUID.
    InvalidUuid,
    /// The Bluetooth stack could not be reached.
    HandlerUnavailable,
    /// Connecting to a device failed.
    ConnectFailed,
    /// Subscribing to a characteristic failed.
    SubscribeFailed,
    /// Writing to a device failed.
    WriteFailed,
    /// Reading from a device failed.
    ReadFailed,
    /// A frame or payload is too short, too long or has no addressee.
    InvalidPacket,
    /// A payload is not valid base-64, hexadecimal or JSON text.
    DecodeFailed,
    /// An identifier that selects nothing: of a serial line, no kind of
    /// frame; of a command, no connection mode.
    UnknownIdentifier,
    /// A characteristic name that the decoder does not handle.
    UnknownCharacteristic,
    /// A charge status outside the known ones.
    UnknownStatus,
    /// No active interpreter accepted the frame, or a name is no
    /// model's.
    NoInterpreter,
    /// The name is already registered.
    AlreadyExists,
    /// What was asked for is not there: a tracker, a port, a dongle, or
    /// anything to connect to.
    NotFound,
    /// The emulated tracker could not be driven.
    EmulatorFailed,
}

} // verus!
