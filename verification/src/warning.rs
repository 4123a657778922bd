//! What goes to the operator's error stream when a reading falls back to a
//! placeholder or a line is held back.

use vstd::prelude::*;
use vstd::string::*;
use crate::text::{append_decimal, decimal};

verus! {

/// A failure that costs one field or one tick, never the process.
#[derive(Clone, Copy, Debug, PartialEq, Eq, Structural)]
pub enum Warning {
    /// The battery's charging status could not be read.
    ChargingStatusMissing,
    /// The battery's capacity could not be read.
    BatteryMissing,
    /// The mixer tool could not be run.
    MixerMissing,
    /// The mixer tool ran, but what it printed is not a volume.
    VolumeUnreadable,
    /// The line's encoding holds a NUL byte, first at `position`.
    NulInLine { position: usize },
}

impl Warning {
    /// The message for the error stream.
    pub open spec fn text(self) -> Seq<char> {
        match self {
            Warning::ChargingStatusMissing => "Could not find charging status"@,
            Warning::BatteryMissing => "Could not find battery"@,
            Warning::MixerMissing => "could not find audio device. have you installed amixer?"@,
            Warning::VolumeUnreadable => "could not read the volume from the mixer's output"@,
            Warning::NulInLine { position } => "nul byte found in provided data at position: "@
                + decimal(position as nat),
        }
    }

    /// The message for the error stream.
    pub fn message(&self) -> (message: String)
        ensures
            message@ == self.text(),
    {
        match *self {
            Warning::ChargingStatusMissing => String::from_str("Could not find charging status"),
            Warning::BatteryMissing => String::from_str("Could not find battery"),
            Warning::MixerMissing => String::from_str(
                "could not find audio device. have you installed amixer?",
            ),
            Warning::VolumeUnreadable => String::from_str(
                "could not read the volume from the mixer's output",
            ),
            Warning::NulInLine { position } => {
                let mut message = String::from_str(
                    "nul byte found in provided data at position: ",
                );
                append_decimal(&mut message, position as u64);
                message
            },
        }
    }
}

} // verus!
