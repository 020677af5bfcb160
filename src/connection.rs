use std::sync::Arc;
use tokio::sync::mpsc::{Receiver, Sender};

use vstd::prelude::*;

use crate::address::{parse_socket_address, socket_address_of};
use crate::decode::{decode, delivery_of, exhausted, exhausted_outcome, Delivery, RecvMode};
use crate::error::{TimedOperation, WsError};
use crate::frame::{close_after, command_of, CloseRecord, Command, Inbound, Payload};
use crate::queue::{
    bounded_channel, new_async_mutex, try_dequeue, try_enqueue, try_lock_now, DequeueAttempt,
    EnqueueAttempt, SharedReceiver,
};

verus! {

/// Connect bound used when none is given, in milliseconds.
pub const DEFAULT_CONNECT_TIMEOUT_MS: u64 = 10000;

/// Receive bound used when none is given, in milliseconds.
pub const DEFAULT_RECEIVE_TIMEOUT_MS: u64 = 10000;

/// Slots in each of a connection's two queues.
pub const QUEUE_CAPACITY: usize = 64;

/// The abstract state of a connection handle.
pub struct ConnectionView {
    pub url: Seq<char>,
    /// Both queues are present: a live connection.
    pub connected: bool,
    pub connect_timeout_ms: u64,
    pub receive_timeout_ms: u64,
    pub local_addr: Option<Seq<char>>,
    pub remote_addr: Option<Seq<char>>,
    pub subprotocol: Option<Seq<char>>,
    pub close_code: Option<u16>,
    pub close_reason: Option<Seq<char>>,
    /// Iteration over this connection has signalled its end.
    pub iteration_ended: bool,
}

pub open spec fn text_of(s: Option<String>) -> Option<Seq<char>> {
    match s {
        Some(t) => Some(t@),
        None => None,
    }
}

/// How a background receive wait ended.
pub enum WaitOutcome {
    /// An item arrived within the bound.
    Arrived(Inbound),
    /// The inbound queue is exhausted: the actor has exited.
    Drained,
    /// The receive bound ran out first.
    TimedOut,
}

/// How an attempt to establish the transport ended.
pub enum ConnectOutcome {
    /// The handshake completed; addresses and subprotocol when obtainable.
    Established {
        local_addr: Option<String>,
        remote_addr: Option<String>,
        subprotocol: Option<String>,
    },
    /// The transport or handshake failed, with its description.
    Failed(String),
    /// The connect bound ran out.
    TimedOut,
}

/// How an enqueue of a command was started.
pub enum Enqueued {
    /// The command is queued; the operation is complete (fast path).
    Immediate,
    /// The queue is full: the command must be handed over by a wait for a
    /// free slot (backpressure).
    Backpressure(Command),
}

/// How a receive was started.
pub enum RecvStart {
    /// The outcome is known now (fast path).
    Ready(Result<Delivery, WsError>),
    /// Nothing is queued, or another waiter holds the queue: wait in the
    /// background and finish with `complete_recv`.
    Pending,
}

/// The connection actor's ends of the two queues.
pub struct ActorEnds {
    pub commands: Receiver<Command>,
    pub inbound: Sender<Inbound>,
}

/// What `close` took out of the handle, for the shutdown steps that follow:
/// a Close command on `commands`, then a bounded drain of `inbound`.
pub struct Teardown {
    pub commands: Option<Sender<Command>>,
    pub inbound: Option<SharedReceiver<Inbound>>,
}

/// The path an enqueue takes for each outcome of the non-blocking attempt.
pub open spec fn enqueue_result(a: EnqueueAttempt<Command>) -> Result<Enqueued, WsError> {
    match a {
        EnqueueAttempt::Accepted => Ok(Enqueued::Immediate),
        EnqueueAttempt::Full(c) => Ok(Enqueued::Backpressure(c)),
        EnqueueAttempt::Closed(_) => Err(WsError::NotConnected),
    }
}

/// The possible outcomes of an enqueue on a live connection: queued, handed
/// back for backpressure as a command that meets `expected`, or refused
/// because the actor is gone.
pub open spec fn enqueue_outcomes(r: Result<Enqueued, WsError>, expected: spec_fn(Command) -> bool) -> bool {
    match r {
        Ok(Enqueued::Immediate) => true,
        Ok(Enqueued::Backpressure(c)) => expected(c),
        Err(e) => e == WsError::NotConnected,
    }
}

/// Records a Close frame's code and reason; the first one observed governs.
pub open spec fn absorb_close(v: ConnectionView, item: Inbound) -> ConnectionView {
    let (code, reason) = close_after(v.close_code, v.close_reason, item);
    ConnectionView { close_code: code, close_reason: reason, ..v }
}

/// The state after a receive finishes with `w`, and what the caller gets.
pub open spec fn recv_completion(v: ConnectionView, mode: RecvMode, w: WaitOutcome) -> (
    ConnectionView,
    Result<Delivery, WsError>,
) {
    if mode == RecvMode::Iteration && v.iteration_ended {
        (v, Ok(Delivery::End))
    } else {
        match w {
            WaitOutcome::Arrived(item) => {
                let r = delivery_of(mode, item);
                let v1 = absorb_close(v, item);
                (ConnectionView { iteration_ended: v1.iteration_ended || r == Ok::<Delivery, WsError>(Delivery::End), ..v1 }, r)
            },
            WaitOutcome::Drained => (
                ConnectionView { iteration_ended: v.iteration_ended || mode == RecvMode::Iteration, ..v },
                exhausted_outcome(mode),
            ),
            WaitOutcome::TimedOut => (
                v,
                Err(WsError::Timeout(TimedOperation::Receive, v.receive_timeout_ms)),
            ),
        }
    }
}

/// The state after the transport was established.
pub open spec fn established(
    v: ConnectionView,
    local_addr: Option<String>,
    remote_addr: Option<String>,
    subprotocol: Option<String>,
) -> ConnectionView {
    ConnectionView {
        connected: true,
        local_addr: if local_addr is Some { text_of(local_addr) } else { v.local_addr },
        remote_addr: if remote_addr is Some { text_of(remote_addr) } else { v.remote_addr },
        subprotocol: text_of(subprotocol),
        iteration_ended: false,
        ..v
    }
}

/// The state of a handle that was never connected.
pub open spec fn initial_state(
    url: Seq<char>,
    connect_timeout_ms: Option<u64>,
    receive_timeout_ms: Option<u64>,
) -> ConnectionView {
    ConnectionView {
        url,
        connected: false,
        connect_timeout_ms: match connect_timeout_ms {
            Some(t) => t,
            None => DEFAULT_CONNECT_TIMEOUT_MS,
        },
        receive_timeout_ms: match receive_timeout_ms {
            Some(t) => t,
            None => DEFAULT_RECEIVE_TIMEOUT_MS,
        },
        local_addr: None,
        remote_addr: None,
        subprotocol: None,
        close_code: None,
        close_reason: None,
        iteration_ended: false,
    }
}

/// The state after `close`.
pub open spec fn closed_state(v: ConnectionView) -> ConnectionView {
    ConnectionView { connected: false, ..v }
}

/// A caller-facing connection handle. While connected it holds the sending
/// end of the command queue and the receiving end of the inbound queue; the
/// actor holds the other two ends.
pub struct AsyncClientConnection {
    url: String,
    commands: Option<Sender<Command>>,
    inbound: Option<SharedReceiver<Inbound>>,
    live: bool,
    connect_timeout_ms: u64,
    receive_timeout_ms: u64,
    local_addr: Option<String>,
    remote_addr: Option<String>,
    subprotocol: Option<String>,
    close: CloseRecord,
    iteration_ended: bool,
}

impl View for AsyncClientConnection {
    type V = ConnectionView;

    closed spec fn view(&self) -> ConnectionView {
        ConnectionView {
            url: self.url@,
            connected: self.live,
            connect_timeout_ms: self.connect_timeout_ms,
            receive_timeout_ms: self.receive_timeout_ms,
            local_addr: text_of(self.local_addr),
            remote_addr: text_of(self.remote_addr),
            subprotocol: text_of(self.subprotocol),
            close_code: self.close.code_view(),
            close_reason: self.close.reason_view(),
            iteration_ended: self.iteration_ended,
        }
    }
}

impl AsyncClientConnection {
    /// Both queue ends are present exactly while the liveness flag is set, and
    /// the close code and reason are recorded together.
    pub closed spec fn wf(&self) -> bool {
        &&& self.commands is Some == self.live
        &&& self.inbound is Some == self.live
        &&& self.close.wf()
    }

    /// A handle for `url` that is not connected yet.
    pub fn new(url: String, connect_timeout_ms: Option<u64>, receive_timeout_ms: Option<u64>) -> (r: Self)
        ensures
            r.wf(),
            r@ == initial_state(url@, connect_timeout_ms, receive_timeout_ms),
    {
        AsyncClientConnection {
            url,
            commands: None,
            inbound: None,
            live: false,
            connect_timeout_ms: match connect_timeout_ms {
                Some(t) => t,
                None => DEFAULT_CONNECT_TIMEOUT_MS,
            },
            receive_timeout_ms: match receive_timeout_ms {
                Some(t) => t,
                None => DEFAULT_RECEIVE_TIMEOUT_MS,
            },
            local_addr: None,
            remote_addr: None,
            subprotocol: None,
            close: CloseRecord::new(),
            iteration_ended: false,
        }
    }

    /// Finishes a connect attempt. On success it creates a fresh pair of
    /// bounded queues, keeps the handle's ends, marks the handle live and
    /// returns the actor's ends; otherwise it reports why and changes nothing.
    pub fn finish_connect(&mut self, outcome: ConnectOutcome) -> (r: Result<ActorEnds, WsError>)
        requires
            old(self).wf(),
            !old(self)@.connected,
        ensures
            final(self).wf(),
            match outcome {
                ConnectOutcome::Established { local_addr, remote_addr, subprotocol } => {
                    &&& r is Ok
                    &&& final(self)@ == established(old(self)@, local_addr, remote_addr, subprotocol)
                },
                ConnectOutcome::Failed(d) => {
                    &&& r == Err::<ActorEnds, WsError>(WsError::Connection(d))
                    &&& final(self)@ == old(self)@
                },
                ConnectOutcome::TimedOut => {
                    &&& r == Err::<ActorEnds, WsError>(
                        WsError::Timeout(TimedOperation::Connect, old(self)@.connect_timeout_ms),
                    )
                    &&& final(self)@ == old(self)@
                },
            },
    {
        match outcome {
            ConnectOutcome::Established { local_addr, remote_addr, subprotocol } => {
                if local_addr.is_some() {
                    self.local_addr = local_addr;
                }
                if remote_addr.is_some() {
                    self.remote_addr = remote_addr;
                }
                self.subprotocol = subprotocol;
                let (cmd_tx, cmd_rx) = bounded_channel::<Command>(QUEUE_CAPACITY);
                let (msg_tx, msg_rx) = bounded_channel::<Inbound>(QUEUE_CAPACITY);
                self.commands = Some(cmd_tx);
                self.inbound = Some(Arc::new(new_async_mutex(msg_rx)));
                self.live = true;
                self.iteration_ended = false;
                Ok(ActorEnds { commands: cmd_rx, inbound: msg_tx })
            },
            ConnectOutcome::Failed(d) => Err(WsError::Connection(d)),
            ConnectOutcome::TimedOut => Err(WsError::Timeout(TimedOperation::Connect, self.connect_timeout_ms)),
        }
    }

    /// Starts sending a text or binary message.
    pub fn send(&self, payload: Payload) -> (r: Result<Enqueued, WsError>)
        requires
            self.wf(),
        ensures
            !self@.connected ==> r == Err::<Enqueued, WsError>(WsError::NotConnected),
            self@.connected ==> enqueue_outcomes(r, (|c: Command| c == command_of(payload))),
    {
        self.offer(Command::from_payload(payload))
    }

    /// Starts sending a Ping frame; no data means an empty body.
    pub fn ping(&self, data: Option<Vec<u8>>) -> (r: Result<Enqueued, WsError>)
        requires
            self.wf(),
        ensures
            !self@.connected ==> r == Err::<Enqueued, WsError>(WsError::NotConnected),
            self@.connected ==> enqueue_outcomes(r, (|c: Command| c is Ping && c->Ping_0@ == body_of(data))),
    {
        let body = match data {
            Some(d) => d,
            None => Vec::new(),
        };
        self.offer(Command::Ping(body))
    }

    /// Starts sending a Pong frame; no data means an empty body.
    pub fn pong(&self, data: Option<Vec<u8>>) -> (r: Result<Enqueued, WsError>)
        requires
            self.wf(),
        ensures
            !self@.connected ==> r == Err::<Enqueued, WsError>(WsError::NotConnected),
            self@.connected ==> enqueue_outcomes(r, (|c: Command| c is Pong && c->Pong_0@ == body_of(data))),
    {
        let body = match data {
            Some(d) => d,
            None => Vec::new(),
        };
        self.offer(Command::Pong(body))
    }

    fn offer(&self, c: Command) -> (r: Result<Enqueued, WsError>)
        requires
            self.wf(),
        ensures
            !self@.connected ==> r == Err::<Enqueued, WsError>(WsError::NotConnected),
            self@.connected ==> enqueue_outcomes(r, (|d: Command| d == c)),
    {
        match &self.commands {
            None => Err(WsError::NotConnected),
            Some(tx) => enqueue_path(try_enqueue(tx, c)),
        }
    }

    /// Starts a receive: takes an item if one is queued and the queue is not
    /// held by another waiter, without ever waiting.
    pub fn poll_recv(&mut self, mode: RecvMode) -> (r: Result<RecvStart, WsError>)
        requires
            old(self).wf(),
        ensures
            final(self).wf(),
            !old(self)@.connected ==> r == Err::<RecvStart, WsError>(WsError::NotConnected)
                && final(self)@ == old(self)@,
            old(self)@.connected ==> match r {
                Ok(RecvStart::Pending) => final(self)@ == old(self)@,
                Ok(RecvStart::Ready(x)) => exists|w: WaitOutcome|
                    !(w is TimedOut) && #[trigger] recv_completion(old(self)@, mode, w) == (final(self)@, x),
                Err(_) => false,
            },
    {
        if self.inbound.is_none() {
            return Err(WsError::NotConnected);
        }
        if mode == RecvMode::Iteration && self.iteration_ended {
            let ghost w = WaitOutcome::Drained;
            assert(recv_completion(self@, mode, w) == (self@, Ok::<Delivery, WsError>(Delivery::End)));
            return Ok(RecvStart::Ready(Ok(Delivery::End)));
        }
        let attempt = match &self.inbound {
            Some(q) => match try_lock_now(&**q) {
                Some(mut guard) => try_dequeue(&mut guard),
                None => DequeueAttempt::Empty,
            },
            None => DequeueAttempt::Empty,
        };
        match attempt {
            DequeueAttempt::Item(item) => {
                let x = self.complete_recv(mode, WaitOutcome::Arrived(item));
                Ok(RecvStart::Ready(x))
            },
            DequeueAttempt::Empty => Ok(RecvStart::Pending),
            DequeueAttempt::Disconnected => {
                let x = self.complete_recv(mode, WaitOutcome::Drained);
                Ok(RecvStart::Ready(x))
            },
        }
    }

    /// Finishes a receive with the outcome of the wait.
    pub fn complete_recv(&mut self, mode: RecvMode, wait: WaitOutcome) -> (r: Result<Delivery, WsError>)
        requires
            old(self).wf(),
        ensures
            final(self).wf(),
            (final(self)@, r) == recv_completion(old(self)@, mode, wait),
    {
        if mode == RecvMode::Iteration && self.iteration_ended {
            return Ok(Delivery::End);
        }
        match wait {
            WaitOutcome::Arrived(item) => {
                self.close.absorb(&item);
                let r = decode(mode, item);
                if let Ok(Delivery::End) = &r {
                    self.iteration_ended = true;
                }
                r
            },
            WaitOutcome::Drained => {
                if mode == RecvMode::Iteration {
                    self.iteration_ended = true;
                }
                exhausted(mode)
            },
            WaitOutcome::TimedOut => Err(WsError::Timeout(TimedOperation::Receive, self.receive_timeout_ms)),
        }
    }

    /// Whether the handle holds a live connection.
    pub fn open(&self) -> (r: bool)
        ensures
            r == self@.connected,
    {
        self.live
    }

    /// Whether the handle holds no live connection.
    pub fn closed(&self) -> (r: bool)
        ensures
            r == !self@.connected,
    {
        !self.live
    }

    /// The target address.
    pub fn url(&self) -> (r: &str)
        ensures
            r@ == self@.url,
    {
        self.url.as_str()
    }

    pub fn connect_timeout_ms(&self) -> (r: u64)
        ensures
            r == self@.connect_timeout_ms,
    {
        self.connect_timeout_ms
    }

    pub fn receive_timeout_ms(&self) -> (r: u64)
        ensures
            r == self@.receive_timeout_ms,
    {
        self.receive_timeout_ms
    }

    /// The local socket address as host and port, when it was recorded and
    /// reads as `host:port`.
    pub fn local_address(&self) -> (r: Option<(String, u16)>)
        ensures
            match self@.local_addr {
                None => r is None,
                Some(a) => match r {
                    Some((host, port)) => socket_address_of(a) == Some((host@, port)),
                    None => socket_address_of(a) is None,
                },
            },
    {
        match &self.local_addr {
            Some(a) => parse_socket_address(a.as_str()),
            None => None,
        }
    }

    /// The remote socket address as host and port, when it was recorded and
    /// reads as `host:port`.
    pub fn remote_address(&self) -> (r: Option<(String, u16)>)
        ensures
            match self@.remote_addr {
                None => r is None,
                Some(a) => match r {
                    Some((host, port)) => socket_address_of(a) == Some((host@, port)),
                    None => socket_address_of(a) is None,
                },
            },
    {
        match &self.remote_addr {
            Some(a) => parse_socket_address(a.as_str()),
            None => None,
        }
    }

    /// The negotiated subprotocol, if any.
    pub fn subprotocol(&self) -> (r: Option<String>)
        ensures
            text_of(r) == self@.subprotocol,
    {
        self.subprotocol.clone()
    }

    /// The code of the first Close frame received, if any.
    pub fn close_code(&self) -> (r: Option<u16>)
        ensures
            r == self@.close_code,
    {
        self.close.code()
    }

    /// The reason of the first Close frame received, if any.
    pub fn close_reason(&self) -> (r: Option<String>)
        ensures
            text_of(r) == self@.close_reason,
    {
        self.close.reason()
    }

    /// The sending end of the command queue, for a wait under backpressure.
    pub fn command_sender(&self) -> (r: Option<&Sender<Command>>)
        requires
            self.wf(),
        ensures
            r is Some == self@.connected,
    {
        self.commands.as_ref()
    }

    /// The receiving end of the inbound queue, for a background receive wait.
    pub fn inbound_queue(&self) -> (r: Option<&SharedReceiver<Inbound>>)
        requires
            self.wf(),
        ensures
            r is Some == self@.connected,
    {
        self.inbound.as_ref()
    }

    /// Takes both queue ends out of the handle and marks it not live. It never
    /// fails, and on a handle that is not connected it only hands back nothing.
    pub fn close(&mut self) -> (r: Teardown)
        requires
            old(self).wf(),
        ensures
            final(self).wf(),
            final(self)@ == closed_state(old(self)@),
            r.commands is Some == old(self)@.connected,
            r.inbound is Some == old(self)@.connected,
    {
        let commands = self.commands.take();
        let inbound = self.inbound.take();
        self.live = false;
        Teardown { commands, inbound }
    }
}

/// The body of a Ping or Pong: the data given, or empty.
pub open spec fn body_of(data: Option<Vec<u8>>) -> Seq<u8> {
    match data {
        Some(d) => d@,
        None => Seq::empty(),
    }
}

/// Finishes an enqueue that waited under backpressure: success when the actor
/// took the command, a send failure when it stopped first.
pub fn finish_enqueue(delivered: bool) -> (r: Result<(), WsError>)
    ensures
        r is Ok == delivered,
        !delivered ==> r->Err_0 is SendFailed,
{
    if delivered {
        Ok(())
    } else {
        Err(WsError::SendFailed(String::from_str("the connection actor stopped before taking the command")))
    }
}

/// Chooses the path of an enqueue from the outcome of the non-blocking attempt:
/// the fast path when the command was queued, backpressure when the queue was
/// full, and `NotConnected` when the actor is gone.
pub fn enqueue_path(a: EnqueueAttempt<Command>) -> (r: Result<Enqueued, WsError>)
    ensures
        r == enqueue_result(a),
{
    match a {
        EnqueueAttempt::Accepted => Ok(Enqueued::Immediate),
        EnqueueAttempt::Full(c) => Ok(Enqueued::Backpressure(c)),
        EnqueueAttempt::Closed(_) => Err(WsError::NotConnected),
    }
}

} // verus!
