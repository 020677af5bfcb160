use vstd::prelude::*;

use crate::error::WsError;
use crate::frame::{Frame, Inbound, Payload};

verus! {

/// How a received item is consumed: by a one-shot `recv`, or by iteration,
/// where the end of the connection ends the sequence instead of failing.
#[derive(Clone, Copy, PartialEq, Eq, Structural, Debug)]
pub enum RecvMode {
    Single,
    Iteration,
}

/// What a successful receive hands to the caller.
pub enum Delivery {
    /// A text or binary message.
    Payload(Payload),
    /// A Ping or Pong frame: no caller-visible value.
    Empty,
    /// End of the sequence (iteration only).
    End,
}

/// The caller-visible outcome of decoding one inbound item.
pub open spec fn delivery_of(mode: RecvMode, item: Inbound) -> Result<Delivery, WsError> {
    match item {
        Inbound::Frame(Frame::Text(s)) => Ok(Delivery::Payload(Payload::Text(s))),
        Inbound::Frame(Frame::Binary(b)) => Ok(Delivery::Payload(Payload::Binary(b))),
        Inbound::Frame(Frame::Ping(_)) => Ok(Delivery::Empty),
        Inbound::Frame(Frame::Pong(_)) => Ok(Delivery::Empty),
        Inbound::Frame(Frame::Close(_)) => match mode {
            RecvMode::Single => Err(WsError::ConnectionClosedByPeer),
            RecvMode::Iteration => Ok(Delivery::End),
        },
        Inbound::Frame(Frame::Raw) => Err(WsError::UnsupportedMessage),
        Inbound::TransportError(e) => Err(WsError::ReceiveFailed(e)),
    }
}

/// The outcome of a receive that found the inbound queue exhausted.
pub open spec fn exhausted_outcome(mode: RecvMode) -> Result<Delivery, WsError> {
    match mode {
        RecvMode::Single => Err(WsError::ConnectionClosed),
        RecvMode::Iteration => Ok(Delivery::End),
    }
}

/// Decodes one inbound item into what the caller sees.
pub fn decode(mode: RecvMode, item: Inbound) -> (r: Result<Delivery, WsError>)
    ensures
        r == delivery_of(mode, item),
{
    match item {
        Inbound::Frame(Frame::Text(s)) => Ok(Delivery::Payload(Payload::Text(s))),
        Inbound::Frame(Frame::Binary(b)) => Ok(Delivery::Payload(Payload::Binary(b))),
        Inbound::Frame(Frame::Ping(_)) => Ok(Delivery::Empty),
        Inbound::Frame(Frame::Pong(_)) => Ok(Delivery::Empty),
        Inbound::Frame(Frame::Close(_)) => match mode {
            RecvMode::Single => Err(WsError::ConnectionClosedByPeer),
            RecvMode::Iteration => Ok(Delivery::End),
        },
        Inbound::Frame(Frame::Raw) => Err(WsError::UnsupportedMessage),
        Inbound::TransportError(e) => Err(WsError::ReceiveFailed(e)),
    }
}

/// The outcome of a receive that found the inbound queue exhausted.
pub fn exhausted(mode: RecvMode) -> (r: Result<Delivery, WsError>)
    ensures
        r == exhausted_outcome(mode),
{
    match mode {
        RecvMode::Single => Err(WsError::ConnectionClosed),
        RecvMode::Iteration => Ok(Delivery::End),
    }
}

} // verus!
