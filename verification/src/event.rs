//! What the transport reports back to the role that asked something of it.

use vstd::prelude::*;
use crate::endpoint::Endpoint;

verus! {

/// The outcome of the one operation a role has in flight.
#[derive(Debug, PartialEq, Eq)]
pub enum Event {
    /// The socket was bound.
    Bound,
    /// The socket could not be bound.
    BindFailed,
    /// The socket's peer was set.
    Connected,
    /// The socket's peer could not be set.
    ConnectFailed,
    /// A send returned, having taken `bytes` bytes.
    Sent { bytes: usize },
    /// A send returned an error.
    SendFailed,
    /// A datagram arrived from `source`.
    Datagram { source: Endpoint, payload: Vec<u8> },
    /// A receive returned an error.
    ReceiveFailed,
    /// The wait for a datagram ran out.
    TimedOut,
}

} // verus!
