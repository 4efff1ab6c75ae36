//! The boundary to the radio: requests that the caller performs on a device
//! and the replies that it hands back.
use vstd::prelude::*;
use vstd::string::*;
use crate::bluetooth::protocol::{Commands, ProtocolError};

verus! {

/// A failure of the radio link, or a use of a session that the link forbids.
#[derive(Clone, Copy, Debug, PartialEq, Eq, Structural)]
pub enum TransportError {
    /// The radio reported that the request failed.
    Link,
    /// The operation needs a connected session.
    NotConnected,
    /// Another operation of the session still waits for its reply.
    Busy,
}

/// What can go wrong in the device subsystem.
#[derive(Clone, Copy, Debug, PartialEq, Eq, Structural)]
pub enum Error {
    Transport(TransportError),
    Protocol(ProtocolError),
    /// The radio hardware is not switched on.
    NotActive,
}

impl TransportError {
    /// The text that tells the user of this error.
    pub open spec fn text(self) -> Seq<char> {
        match self {
            TransportError::Link => "Bluetooth link failure"@,
            TransportError::NotConnected => "Not connected"@,
            TransportError::Busy => "Another operation is in progress"@,
        }
    }

    /// The text that tells the user of this error.
    pub fn message(&self) -> (text: String)
        ensures
            text@ == self.text(),
    {
        match self {
            TransportError::Link => String::from_str("Bluetooth link failure"),
            TransportError::NotConnected => String::from_str("Not connected"),
            TransportError::Busy => String::from_str("Another operation is in progress"),
        }
    }
}

impl Error {
    /// The text that tells the user of this error.
    pub open spec fn text(self) -> Seq<char> {
        match self {
            Error::Transport(e) => e.text(),
            Error::Protocol(e) => e.text(),
            Error::NotActive => "Bluetooth not activated"@,
        }
    }

    /// The text that tells the user of this error.
    pub fn message(&self) -> (text: String)
        ensures
            text@ == self.text(),
    {
        match self {
            Error::Transport(e) => e.message(),
            Error::Protocol(e) => e.message(),
            Error::NotActive => String::from_str("Bluetooth not activated"),
        }
    }
}

/// One piece of work on the link to a device.
#[derive(Clone, Copy, Debug, PartialEq, Eq, Structural)]
pub enum Request {
    /// Open the radio-level connection.
    Connect,
    /// Discover the services and characteristics of the connected device.
    DiscoverServices,
    /// Close the radio-level connection.
    Disconnect,
    /// Subscribe to the notifications of a characteristic.
    Subscribe { characteristic: u128 },
    /// Write the frame of `command` to a characteristic and wait for the
    /// acknowledgement.
    Write { characteristic: u128, command: Commands },
    /// Read the value of a characteristic.
    Read { characteristic: u128 },
}

/// What came of a request.
#[derive(Debug, PartialEq, Eq)]
pub enum Reply {
    /// The request was carried out and brought no data.
    Done,
    /// The request was carried out and brought these bytes.
    Data(Vec<u8>),
    /// The radio reported a failure.
    Failed,
}

impl Reply {
    /// Whether the request was carried out.
    pub open spec fn succeeded(self) -> bool {
        !(self is Failed)
    }

    /// The bytes that the reply brought; none where it brought no data.
    pub open spec fn payload(self) -> Seq<u8> {
        match self {
            Reply::Data(bytes) => bytes@,
            _ => Seq::empty(),
        }
    }
}

/// What the caller does next: perform a request on the device `handle` and
/// hand the reply back, or take the result of the finished operation.
#[derive(Clone, Copy, Debug, PartialEq, Eq)]
pub enum Step {
    Perform { handle: u64, request: Request },
    Finished(Result<(), Error>),
}

impl Step {
    /// The step that ends an operation with a failure of the link.
    pub open spec fn link_failure() -> Step {
        Step::Finished(Err(Error::Transport(TransportError::Link)))
    }

    /// The step that refuses an operation because another is in flight.
    pub open spec fn busy() -> Step {
        Step::Finished(Err(Error::Transport(TransportError::Busy)))
    }

    /// The step that ends an operation well.
    pub open spec fn done() -> Step {
        Step::Finished(Ok(()))
    }
}

} // verus!
