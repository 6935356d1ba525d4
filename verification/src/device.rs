//! The device side of a flash attempt: how the connection is set up and which
//! chips are accepted.

use vstd::prelude::*;
use crate::text::{decimal, decimal_text};

verus! {

/// The chip families that can be flashed.
#[derive(Debug, Clone, Copy, PartialEq, Eq, Structural)]
pub enum ChipFamily {
    Esp32,
}

/// What is done to the chip before the connection is made.
#[derive(Debug, Clone, Copy, PartialEq, Eq, Structural)]
pub enum ResetBefore {
    /// Reset into the bootloader through the control lines.
    DefaultReset,
    /// Leave the chip as it is.
    NoReset,
    /// Leave the chip as it is and skip the synchronisation.
    NoResetNoSync,
    /// Reset through the chip's own USB peripheral.
    UsbReset,
}

/// What is done to the chip once the operation is over.
#[derive(Debug, Clone, Copy, PartialEq, Eq, Structural)]
pub enum ResetAfter {
    /// Reset the chip so that it starts the new firmware.
    HardReset,
    /// Leave the chip in the bootloader.
    NoReset,
    /// Leave the chip in the bootloader without the stub.
    NoResetNoStub,
}

/// The baud rate of every transfer.
pub const BAUD_RATE: u32 = 921_600;

/// The lowest chip revision that is flashed unless the caller asks for more,
/// as `major * 100 + minor`: every revision.
pub const MINIMUM_REVISION: u16 = 0;

/// The chip to flash and how to reach it.
#[derive(Debug, PartialEq, Eq)]
pub struct DeviceTarget {
    /// The serial port the device is attached to.
    pub port: String,
    /// The chip family expected on that port.
    pub chip: ChipFamily,
    /// The baud rate of the transfer.
    pub baud: u32,
    pub before: ResetBefore,
    pub after: ResetAfter,
    /// Whether the flasher stub is uploaded to speed the transfer up.
    pub use_stub: bool,
    /// Whether the user is asked to confirm the port.
    pub confirm_port: bool,
    /// Whether a connection is forced where the device answers unexpectedly.
    pub force: bool,
    /// The lowest revision accepted, as `major * 100 + minor`.
    pub minimum_revision: u16,
}

/// The one way in which a device is reached: an ESP32 at 921600 baud, reset
/// into the bootloader before and hard-reset after, with the stub, without
/// asking the user and without forcing anything.
pub open spec fn is_standard_target(target: DeviceTarget, port: Seq<char>, minimum_revision: u16) -> bool {
    &&& target.port@ == port
    &&& target.chip == ChipFamily::Esp32
    &&& target.baud == BAUD_RATE
    &&& target.before == ResetBefore::DefaultReset
    &&& target.after == ResetAfter::HardReset
    &&& target.use_stub
    &&& !target.confirm_port
    &&& !target.force
    &&& target.minimum_revision == minimum_revision
}

/// The connection parameters for the device on `port`, which must be of
/// revision `minimum_revision` at least.
pub fn standard_target(port: &str, minimum_revision: u16) -> (target: DeviceTarget)
    ensures
        is_standard_target(target, port@, minimum_revision),
{
    DeviceTarget {
        port: String::from_str(port),
        chip: ChipFamily::Esp32,
        baud: BAUD_RATE,
        before: ResetBefore::DefaultReset,
        after: ResetAfter::HardReset,
        use_stub: true,
        confirm_port: false,
        force: false,
        minimum_revision,
    }
}

/// The hardware revision that a chip reports.
#[derive(Debug, Clone, Copy, PartialEq, Eq, Structural)]
pub struct ChipRevision {
    pub major: u32,
    pub minor: u32,
}

impl ChipRevision {
    /// The revision as one number, `major * 100 + minor`.
    pub open spec fn number(self) -> int {
        self.major * 100 + self.minor
    }

    /// Whether a chip of this revision may be flashed where `minimum` (as
    /// `major * 100 + minor`) is the lowest revision accepted.
    pub fn meets(&self, minimum: u16) -> (r: bool)
        ensures
            r == (self.number() >= minimum),
    {
        let number: u64 = (self.major as u64) * 100 + (self.minor as u64);
        number >= minimum as u64
    }
}

/// Why no session with the device came about.
#[derive(Debug, PartialEq, Eq)]
pub enum ConnectionError {
    /// The port could not be opened or the device did not answer; the text
    /// says which.
    Unavailable(String),
    /// The device answered, and its revision is below the minimum.
    Incompatible { minimum: u16, found: ChipRevision },
}

/// The message for a device below the minimum revision.
pub open spec fn incompatible_message(minimum: u16, found: ChipRevision) -> Seq<char> {
    "Minimum supported revision is "@ + decimal_text((minimum / 100) as nat) + "."@ + decimal_text(
        (minimum % 100) as nat,
    ) + ", connected device's revision is "@ + decimal_text(found.major as nat) + "."@ + decimal_text(
        found.minor as nat,
    )
}

/// The message of a connection error.
pub open spec fn connection_error_message(error: ConnectionError) -> Seq<char> {
    match error {
        ConnectionError::Unavailable(reason) => reason@,
        ConnectionError::Incompatible { minimum, found } => incompatible_message(minimum, found),
    }
}

impl ConnectionError {
    /// The message of this error.
    pub fn message(&self) -> (text: String)
        ensures
            text@ == connection_error_message(*self),
    {
        match self {
            ConnectionError::Unavailable(reason) => reason.clone(),
            ConnectionError::Incompatible { minimum, found } => {
                let mut text: String = String::from_str("Minimum supported revision is ");
                text.append(decimal((*minimum / 100) as u32).as_str());
                text.append(".");
                text.append(decimal((*minimum % 100) as u32).as_str());
                text.append(", connected device's revision is ");
                text.append(decimal(found.major).as_str());
                text.append(".");
                text.append(decimal(found.minor).as_str());
                text
            },
        }
    }
}

/// Decides whether the session with a device that reports `found` may go on.
pub fn check_revision(found: ChipRevision, minimum: u16) -> (r: Result<(), ConnectionError>)
    ensures
        found.number() >= minimum ==> r is Ok,
        found.number() < minimum ==> r == Err::<(), ConnectionError>(
            ConnectionError::Incompatible { minimum, found },
        ),
{
    if found.meets(minimum) {
        Ok(())
    } else {
        Err(ConnectionError::Incompatible { minimum, found })
    }
}

} // verus!
