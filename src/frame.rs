use vstd::prelude::*;

verus! {

/// The code and reason carried by a Close frame.
pub struct CloseFrame {
    pub code: u16,
    pub reason: String,
}

/// One decoded protocol frame, as read from or written to the transport.
pub enum Frame {
    Text(String),
    Binary(Vec<u8>),
    Ping(Vec<u8>),
    Pong(Vec<u8>),
    Close(Option<CloseFrame>),
    /// A raw frame of a kind the caller-facing API does not expose.
    Raw,
}

/// What the connection actor forwards to receivers: a frame, or the
/// description of a transport read error.
pub enum Inbound {
    Frame(Frame),
    TransportError(String),
}

/// A caller-visible message body.
pub enum Payload {
    Text(String),
    Binary(Vec<u8>),
}

/// An instruction from the handle to the connection actor.
pub enum Command {
    Text(String),
    Binary(Vec<u8>),
    Ping(Vec<u8>),
    Pong(Vec<u8>),
    Close,
}

/// The command that sending a payload enqueues.
pub open spec fn command_of(p: Payload) -> Command {
    match p {
        Payload::Text(s) => Command::Text(s),
        Payload::Binary(b) => Command::Binary(b),
    }
}

/// The frame the actor writes to the transport for a command.
pub open spec fn frame_written(c: Command) -> Frame {
    match c {
        Command::Text(s) => Frame::Text(s),
        Command::Binary(b) => Frame::Binary(b),
        Command::Ping(d) => Frame::Ping(d),
        Command::Pong(d) => Frame::Pong(d),
        Command::Close => Frame::Close(None),
    }
}

/// Whether an inbound item ends a drain phase: a Close frame or an error.
pub open spec fn is_drain_end(item: Inbound) -> bool {
    match item {
        Inbound::Frame(Frame::Close(_)) => true,
        Inbound::TransportError(_) => true,
        _ => false,
    }
}

/// The recorded close code and reason after seeing `item`: the first Close
/// frame that carries them is recorded, and nothing replaces it.
pub open spec fn close_after(code: Option<u16>, reason: Option<Seq<char>>, item: Inbound) -> (Option<u16>, Option<Seq<char>>) {
    match item {
        Inbound::Frame(Frame::Close(Some(f))) => if code is None {
            (Some(f.code), Some(f.reason@))
        } else {
            (code, reason)
        },
        _ => (code, reason),
    }
}

/// The code and reason of the first Close frame received on a connection.
pub struct CloseRecord {
    code: Option<u16>,
    reason: Option<String>,
}

impl CloseRecord {
    pub closed spec fn code_view(&self) -> Option<u16> {
        self.code
    }

    pub closed spec fn reason_view(&self) -> Option<Seq<char>> {
        match self.reason {
            Some(r) => Some(r@),
            None => None,
        }
    }

    /// Code and reason are recorded together.
    pub closed spec fn wf(&self) -> bool {
        self.code is Some == self.reason is Some
    }

    /// Nothing recorded yet.
    pub fn new() -> (r: Self)
        ensures
            r.wf(),
            r.code_view() is None,
            r.reason_view() is None,
    {
        CloseRecord { code: None, reason: None }
    }

    /// Records the code and reason of `item` if it is the first Close frame
    /// that carries them.
    pub fn absorb(&mut self, item: &Inbound)
        requires
            old(self).wf(),
        ensures
            final(self).wf(),
            (final(self).code_view(), final(self).reason_view())
                == close_after(old(self).code_view(), old(self).reason_view(), *item),
    {
        if let Inbound::Frame(Frame::Close(Some(f))) = item {
            if self.code.is_none() {
                self.code = Some(f.code);
                self.reason = Some(f.reason.clone());
            }
        }
    }

    pub fn code(&self) -> (r: Option<u16>)
        ensures
            r == self.code_view(),
    {
        self.code
    }

    pub fn reason(&self) -> (r: Option<String>)
        ensures
            r is Some == self.reason_view() is Some,
            r is Some ==> r->Some_0@ == self.reason_view()->Some_0,
    {
        self.reason.clone()
    }
}

impl Command {
    /// Classifies a payload into the command that carries it.
    pub fn from_payload(p: Payload) -> (r: Command)
        ensures
            r == command_of(p),
    {
        match p {
            Payload::Text(s) => Command::Text(s),
            Payload::Binary(b) => Command::Binary(b),
        }
    }

    /// The frame to write for this command; `Close` starts the close handshake.
    pub fn into_frame(self) -> (r: Frame)
        ensures
            r == frame_written(self),
    {
        match self {
            Command::Text(s) => Frame::Text(s),
            Command::Binary(b) => Frame::Binary(b),
            Command::Ping(d) => Frame::Ping(d),
            Command::Pong(d) => Frame::Pong(d),
            Command::Close => Frame::Close(None),
        }
    }
}

impl Inbound {
    /// Whether this item ends a drain phase (a Close frame or a read error);
    /// every other item is discarded while draining.
    pub fn ends_drain(&self) -> (r: bool)
        ensures
            r == is_drain_end(*self),
    {
        match self {
            Inbound::Frame(Frame::Close(_)) => true,
            Inbound::TransportError(_) => true,
            _ => false,
        }
    }
}

} // verus!
