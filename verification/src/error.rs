//! Error taxonomy of the switch controller.
//!
//! Every failure carries enough data for a user-presentable message;
//! [`SwitchError::message`] renders one. Sequencing errors (`NotConnected`,
//! `AlreadyConnected`) are raised before any bus traffic; the others classify
//! what a single bus transaction came back with.

use vstd::prelude::*;

verus! {

/// Everything that can go wrong in the controller.
#[derive(Debug, Clone, PartialEq, Eq)]
pub enum SwitchError {
    /// An operation needing a live session was called while disconnected.
    NotConnected,
    /// `connect` was called while a session was already live.
    AlreadyConnected,
    /// The serial port could not be opened or configured.
    Transport { detail: String },
    /// The bus transaction failed: I/O error, malformed frame, or a Modbus
    /// exception response. The description names the attempted operation.
    Protocol { description: String },
    /// The deadline elapsed before the bus transaction completed. Embeds the
    /// attempted operation's description and a wall-clock timestamp.
    Timeout { description: String, timestamp: String },
    /// The register readback held a byte outside the known state mapping.
    Decode { raw: u8 },
    /// The session was torn down twice.
    SessionClosed,
}

impl SwitchError {
    /// The user-presentable message for this error.
    pub open spec fn spec_message(&self) -> Seq<char> {
        match self {
            SwitchError::NotConnected => "the switch is not connected"@,
            SwitchError::AlreadyConnected => "the switch is already connected"@,
            SwitchError::Transport { detail } => "cannot open the serial port: "@ + detail@,
            SwitchError::Protocol { description } => description@,
            SwitchError::Timeout { description, timestamp } => (
                description@ + ": the bus transaction timed out at "@ + timestamp@
            ),
            SwitchError::Decode { raw: _ } => "cannot decode the switch state readback"@,
            SwitchError::SessionClosed => "the session is already closed"@,
        }
    }

    /// Renders the descriptive message of this error.
    pub fn message(&self) -> (r: String)
        ensures
            r@ == self.spec_message(),
    {
        match self {
            SwitchError::NotConnected => String::from_str("the switch is not connected"),
            SwitchError::AlreadyConnected => String::from_str("the switch is already connected"),
            SwitchError::Transport { detail } => {
                let mut out = String::from_str("cannot open the serial port: ");
                out.append(detail.as_str());
                out
            },
            SwitchError::Protocol { description } => description.clone(),
            SwitchError::Timeout { description, timestamp } => {
                let mut out = description.clone();
                out.append(": the bus transaction timed out at ");
                out.append(timestamp.as_str());
                out
            },
            SwitchError::Decode { raw: _ } => {
                String::from_str("cannot decode the switch state readback")
            },
            SwitchError::SessionClosed => String::from_str("the session is already closed"),
        }
    }
}

} // verus!
