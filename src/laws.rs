use vstd::prelude::*;

use crate::actor::{actor_transition, ActorAction, ActorEvent, ActorPhase};
use crate::connection::{closed_state, initial_state, recv_completion, ConnectionView, WaitOutcome};
use crate::decode::{delivery_of, Delivery, RecvMode};
use crate::error::WsError;
use crate::frame::{command_of, frame_written, CloseFrame, Frame, Inbound, Payload};

verus! {

/// A text or binary payload survives a peer echo unchanged in body and kind:
/// the actor writes the command that `send` enqueues as a frame of the same
/// kind, and a receive that gets that frame back yields the same payload, by
/// `recv` and by iteration alike.
pub proof fn lemma_echo_round_trip(p: Payload, v: ConnectionView, mode: RecvMode)
    requires
        !(mode == RecvMode::Iteration && v.iteration_ended),
    ensures
        actor_transition(ActorPhase::Running, ActorEvent::Command(command_of(p)))
            == (ActorPhase::Running, ActorAction::Write(frame_written(command_of(p)))),
        delivery_of(mode, Inbound::Frame(frame_written(command_of(p))))
            == Ok::<Delivery, WsError>(Delivery::Payload(p)),
        recv_completion(v, mode, WaitOutcome::Arrived(Inbound::Frame(frame_written(command_of(p))))).1
            == Ok::<Delivery, WsError>(Delivery::Payload(p)),
{
}

/// After a Close frame is received, `recv` fails with
/// `ConnectionClosedByPeer` and the handle reports the frame's code and reason;
/// a later Close frame does not replace them.
pub proof fn lemma_close_frame_recorded(v: ConnectionView, f: CloseFrame)
    ensures
        ({
            let (v1, r) = recv_completion(v, RecvMode::Single, WaitOutcome::Arrived(Inbound::Frame(Frame::Close(Some(f)))));
            &&& r == Err::<Delivery, WsError>(WsError::ConnectionClosedByPeer)
            &&& v.close_code is None ==> v1.close_code == Some(f.code) && v1.close_reason == Some(f.reason@)
            &&& v.close_code is Some ==> v1.close_code == v.close_code && v1.close_reason == v.close_reason
        }),
{
}

/// Iteration ends, without an error, at a Close frame or when the inbound
/// queue is exhausted, and once ended it stays ended whatever comes next.
pub proof fn lemma_iteration_end_is_final(v: ConnectionView, c: Option<CloseFrame>, w: WaitOutcome)
    ensures
        recv_completion(v, RecvMode::Iteration, WaitOutcome::Arrived(Inbound::Frame(Frame::Close(c)))).1
            == Ok::<Delivery, WsError>(Delivery::End),
        recv_completion(v, RecvMode::Iteration, WaitOutcome::Arrived(Inbound::Frame(Frame::Close(c)))).0.iteration_ended,
        recv_completion(v, RecvMode::Iteration, WaitOutcome::Drained).1 == Ok::<Delivery, WsError>(Delivery::End),
        recv_completion(v, RecvMode::Iteration, WaitOutcome::Drained).0.iteration_ended,
        v.iteration_ended ==> recv_completion(v, RecvMode::Iteration, w) == (v, Ok::<Delivery, WsError>(Delivery::End)),
{
}

/// A handle that was never connected, and any handle after `close`, holds no
/// live connection, so `send`, `recv`, `ping` and `pong` on it fail with
/// `NotConnected`; closing again changes nothing.
pub proof fn lemma_not_connected_before_connect_or_after_close(
    url: Seq<char>,
    connect_timeout_ms: Option<u64>,
    receive_timeout_ms: Option<u64>,
    v: ConnectionView,
)
    ensures
        !initial_state(url, connect_timeout_ms, receive_timeout_ms).connected,
        !closed_state(v).connected,
        closed_state(closed_state(v)) == closed_state(v),
        closed_state(initial_state(url, connect_timeout_ms, receive_timeout_ms))
            == initial_state(url, connect_timeout_ms, receive_timeout_ms),
{
}

} // verus!
