//! The error kinds reported by this library.

use vstd::prelude::*;

verus! {

/// What went wrong in an operation of the client.
#[derive(Clone, Copy, Debug, PartialEq, Eq, Structural)]
pub enum IpcError {
    /// No candidate endpoint accepted a connection.
    EndpointUnreachable,
    /// The operation needs a live, ready connection and there is none.
    NotConnected,
    /// The underlying transport failed in the middle of an operation.
    Io,
    /// A JSON payload could not be produced or parsed.
    Serialization,
}

impl IpcError {
    /// A short description of the error, for messages.
    pub fn message(&self) -> (text: &'static str)
        ensures
            text@ == match *self {
                IpcError::EndpointUnreachable => "couldn't connect to the Discord IPC socket"@,
                IpcError::NotConnected => "not connected to the Discord IPC socket"@,
                IpcError::Io => "I/O error on the Discord IPC socket"@,
                IpcError::Serialization => "malformed JSON payload"@,
            },
    {
        match self {
            IpcError::EndpointUnreachable => "couldn't connect to the Discord IPC socket",
            IpcError::NotConnected => "not connected to the Discord IPC socket",
            IpcError::Io => "I/O error on the Discord IPC socket",
            IpcError::Serialization => "malformed JSON payload",
        }
    }
}

} // verus!
