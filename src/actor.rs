use vstd::prelude::*;

use crate::frame::{frame_written, is_drain_end, Command, Frame, Inbound};

verus! {

/// The connection actor's phase.
#[derive(Clone, Copy, PartialEq, Eq, Structural, Debug)]
pub enum ActorPhase {
    /// Serving commands and forwarding inbound frames.
    Running,
    /// A close was requested: reading only to see the peer's Close frame.
    Draining,
    /// The loop is over; the stream is released.
    Stopped,
}

/// What the actor observed: whichever of its two sources became ready.
pub enum ActorEvent {
    /// A command was taken from the command queue.
    Command(Command),
    /// Every command sender is gone.
    CommandsClosed,
    /// The transport yielded a frame or a read error.
    Received(Inbound),
    /// The transport has no more frames.
    StreamEnded,
    /// Forwarding to the inbound queue failed: its consumer is gone.
    ForwardRefused,
}

/// What the actor does next.
pub enum ActorAction {
    /// Write one frame; `Frame::Close` writes the close handshake.
    Write(Frame),
    /// Hand the item to the inbound queue.
    Forward(Inbound),
    /// Hand the item to the inbound queue, then flush and close the sink.
    ForwardAndShutdown(Inbound),
    /// Drop the item.
    Discard,
    /// Flush and close the sink; the loop ends.
    Shutdown,
}

/// Whether an action closes the sink.
pub open spec fn closes_sink(a: ActorAction) -> bool {
    match a {
        ActorAction::ForwardAndShutdown(_) => true,
        ActorAction::Shutdown => true,
        _ => false,
    }
}

/// The actor's transition: next phase and action for a phase and an event.
pub open spec fn actor_transition(phase: ActorPhase, event: ActorEvent) -> (ActorPhase, ActorAction) {
    match phase {
        ActorPhase::Running => match event {
            ActorEvent::Command(Command::Close) => (ActorPhase::Draining, ActorAction::Write(Frame::Close(None))),
            ActorEvent::Command(c) => (ActorPhase::Running, ActorAction::Write(frame_written(c))),
            ActorEvent::CommandsClosed => (ActorPhase::Stopped, ActorAction::Shutdown),
            ActorEvent::Received(Inbound::TransportError(e)) => (
                ActorPhase::Stopped,
                ActorAction::ForwardAndShutdown(Inbound::TransportError(e)),
            ),
            ActorEvent::Received(item) => (ActorPhase::Running, ActorAction::Forward(item)),
            ActorEvent::StreamEnded => (ActorPhase::Stopped, ActorAction::Shutdown),
            ActorEvent::ForwardRefused => (ActorPhase::Stopped, ActorAction::Shutdown),
        },
        ActorPhase::Draining => match event {
            ActorEvent::Received(item) => if is_drain_end(item) {
                (ActorPhase::Stopped, ActorAction::Shutdown)
            } else {
                (ActorPhase::Draining, ActorAction::Discard)
            },
            ActorEvent::StreamEnded => (ActorPhase::Stopped, ActorAction::Shutdown),
            _ => (ActorPhase::Draining, ActorAction::Discard),
        },
        ActorPhase::Stopped => (ActorPhase::Stopped, ActorAction::Discard),
    }
}

/// Decides the actor's next phase and action.
pub fn actor_step(phase: ActorPhase, event: ActorEvent) -> (r: (ActorPhase, ActorAction))
    ensures
        r == actor_transition(phase, event),
{
    match phase {
        ActorPhase::Running => match event {
            ActorEvent::Command(c) => match c {
                Command::Close => (ActorPhase::Draining, ActorAction::Write(Frame::Close(None))),
                _ => (ActorPhase::Running, ActorAction::Write(c.into_frame())),
            },
            ActorEvent::CommandsClosed => (ActorPhase::Stopped, ActorAction::Shutdown),
            ActorEvent::Received(item) => match item {
                Inbound::TransportError(e) => (
                    ActorPhase::Stopped,
                    ActorAction::ForwardAndShutdown(Inbound::TransportError(e)),
                ),
                _ => (ActorPhase::Running, ActorAction::Forward(item)),
            },
            ActorEvent::StreamEnded => (ActorPhase::Stopped, ActorAction::Shutdown),
            ActorEvent::ForwardRefused => (ActorPhase::Stopped, ActorAction::Shutdown),
        },
        ActorPhase::Draining => match event {
            ActorEvent::Received(item) => if item.ends_drain() {
                (ActorPhase::Stopped, ActorAction::Shutdown)
            } else {
                (ActorPhase::Draining, ActorAction::Discard)
            },
            ActorEvent::StreamEnded => (ActorPhase::Stopped, ActorAction::Shutdown),
            _ => (ActorPhase::Draining, ActorAction::Discard),
        },
        ActorPhase::Stopped => (ActorPhase::Stopped, ActorAction::Discard),
    }
}

/// Every path out of the actor's loop closes the sink: whenever a transition
/// leaves a live phase for `Stopped`, its action flushes and closes the sink.
pub proof fn lemma_every_exit_closes_sink(phase: ActorPhase, event: ActorEvent)
    requires
        phase != ActorPhase::Stopped,
        actor_transition(phase, event).0 == ActorPhase::Stopped,
    ensures
        closes_sink(actor_transition(phase, event).1),
{
}

/// Once stopped, the actor stays stopped and does nothing more.
pub proof fn lemma_stopped_is_final(event: ActorEvent)
    ensures
        actor_transition(ActorPhase::Stopped, event) == (ActorPhase::Stopped, ActorAction::Discard),
{
}

/// A close request is the only way into the drain phase, and the drain phase
/// ends exactly on a Close frame, a read error or the end of the stream.
pub proof fn lemma_drain_entry_and_exit(phase: ActorPhase, event: ActorEvent)
    ensures
        phase == ActorPhase::Running && actor_transition(phase, event).0 == ActorPhase::Draining
            <==> phase == ActorPhase::Running && event == ActorEvent::Command(Command::Close),
        phase == ActorPhase::Draining ==> (actor_transition(phase, event).0 == ActorPhase::Stopped
            <==> (event is StreamEnded || (event is Received && is_drain_end(event->Received_0)))),
{
}

} // verus!
