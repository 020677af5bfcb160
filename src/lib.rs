//! Client-side WebSocket connection management: the command and frame model,
//! frame decoding, the connection actor's decision rules, the connection
//! handle's state machine and the one-shot completions used to hand results
//! back to a foreign event loop.

pub mod actor;
pub mod address;
pub mod completion;
pub mod connection;
pub mod decode;
pub mod error;
pub mod frame;
pub mod laws;
pub mod queue;

pub use actor::{actor_step, ActorAction, ActorEvent, ActorPhase};
pub use address::parse_socket_address;
pub use completion::{Completion, ReadyOutcome};
pub use connection::{
    enqueue_path, finish_enqueue, ActorEnds, AsyncClientConnection, ConnectOutcome, ConnectionView, Enqueued,
    RecvStart, Teardown, WaitOutcome, DEFAULT_CONNECT_TIMEOUT_MS, DEFAULT_RECEIVE_TIMEOUT_MS,
    QUEUE_CAPACITY,
};
pub use decode::{decode, exhausted, Delivery, RecvMode};
pub use error::{TimedOperation, WsError};
pub use frame::{CloseFrame, CloseRecord, Command, Frame, Inbound, Payload};
pub use queue::{DequeueAttempt, EnqueueAttempt, SharedReceiver};
