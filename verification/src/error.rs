//! The failures that the library reports to its caller.

use vstd::prelude::*;
use crate::client_status::ClientStatus;

verus! {

/// Every way in which an operation of this library can fail.
#[derive(Debug, PartialEq, Eq)]
pub enum Error {
    /// The server did not accept one of the callback entry points.
    CallbackRegistrationError,
    /// The server refused to activate the client.
    ClientActivationError,
    /// The server could not confirm that the client's callbacks have stopped.
    ClientDeactivationError,
    /// The server refused to open a session; the status says why.
    ClientError(ClientStatus),
    /// The wrapper holds no active client any more.
    ClientIsNoLongerAlive,
    /// The server refused to take the port away.
    PortDisconnectionError,
    /// The server refused to register the port of this name.
    PortRegistrationError(String),
    /// The server refused to change the number of frames in a cycle.
    SetBufferSizeError,
    /// The server could not give the times of the current cycle.
    TimeError,
}

} // verus!
