use vstd::prelude::*;

verus! {

/// The operation whose time bound ran out.
#[derive(Clone, Copy, PartialEq, Eq, Structural, Debug)]
pub enum TimedOperation {
    Connect,
    Receive,
}

/// Every way an operation on a connection can fail.
pub enum WsError {
    /// No live connection: never connected, or already closed.
    NotConnected,
    /// The transport or the opening handshake failed.
    Connection(String),
    /// Connecting or receiving exceeded its bound, in milliseconds.
    Timeout(TimedOperation, u64),
    /// A queued command could not be handed to the actor.
    SendFailed(String),
    /// The transport reported a read error.
    ReceiveFailed(String),
    /// The inbound queue is exhausted: the actor has exited.
    ConnectionClosed,
    /// A Close frame was the next inbound item.
    ConnectionClosedByPeer,
    /// A frame of a kind the caller-facing API does not expose.
    UnsupportedMessage,
}

} // verus!
