//! What can go wrong in a socket's transport.

use vstd::prelude::*;

verus! {

/// An error of the transport: reading or writing failed, or the peer
/// broke the protocol.
#[derive(Debug, Clone, Copy, PartialEq, Eq)]
pub enum WebSocketError {
    IOError,
    WSError,
}

impl WebSocketError {
    /// The name of the error.
    pub fn describe(&self) -> (text: String)
        ensures
            text@ == match *self {
                WebSocketError::IOError => "IOError"@,
                WebSocketError::WSError => "WSError"@,
            },
    {
        match self {
            WebSocketError::IOError => "IOError".to_owned(),
            WebSocketError::WSError => "WSError".to_owned(),
        }
    }
}

} // verus!
