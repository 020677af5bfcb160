use std::sync::Arc;
use tokio::sync::mpsc::{Receiver, Sender};
use tokio::sync::{Mutex, MutexGuard};

use vstd::prelude::*;

verus! {

#[verifier::external_type_specification]
#[verifier::external_body]
#[verifier::reject_recursive_types(T)]
pub struct ExSender<T>(Sender<T>);

#[verifier::external_type_specification]
#[verifier::external_body]
#[verifier::reject_recursive_types(T)]
pub struct ExReceiver<T>(Receiver<T>);

#[verifier::external_type_specification]
#[verifier::external_body]
#[verifier::reject_recursive_types(T)]
pub struct ExMutex<T: ?Sized>(Mutex<T>);

#[verifier::external_type_specification]
#[verifier::external_body]
#[verifier::reject_recursive_types(T)]
pub struct ExMutexGuard<'a, T: ?Sized>(MutexGuard<'a, T>);

/// A bounded FIFO queue's receiving end, behind an async lock so that only one
/// waiter drains it at a time.
pub type SharedReceiver<T> = Arc<Mutex<Receiver<T>>>;

/// The outcome of a non-blocking enqueue.
pub enum EnqueueAttempt<T> {
    /// The item is in the queue.
    Accepted,
    /// The queue has no free slot; the item comes back.
    Full(T),
    /// The receiving side is gone; the item comes back.
    Closed(T),
}

/// The outcome of a non-blocking dequeue.
pub enum DequeueAttempt<T> {
    Item(T),
    /// Nothing is queued, but senders remain.
    Empty,
    /// Nothing is queued and every sender is gone.
    Disconnected,
}

/// Relies on tokio's `mpsc::channel`: a FIFO queue bounded to `capacity`
/// slots. It panics on a capacity of 0 or above `Semaphore::MAX_PERMITS`
/// (`usize::MAX >> 3`, no less than `0x1fff_ffff` on any target).
#[verifier::external_body]
pub(crate) fn bounded_channel<T>(capacity: usize) -> (Sender<T>, Receiver<T>)
    requires
        0 < capacity <= 0x1fff_ffff,
{
    tokio::sync::mpsc::channel(capacity)
}

/// Relies on tokio's `Sender::try_send`: it either queues the item or hands
/// the same item back inside `TrySendError::Full` or `TrySendError::Closed`.
#[verifier::external_body]
pub(crate) fn try_enqueue<T>(tx: &Sender<T>, item: T) -> (r: EnqueueAttempt<T>)
    ensures
        r is Full ==> r->Full_0 == item,
        r is Closed ==> r->Closed_0 == item,
{
    match tx.try_send(item) {
        Ok(()) => EnqueueAttempt::Accepted,
        Err(tokio::sync::mpsc::error::TrySendError::Full(x)) => EnqueueAttempt::Full(x),
        Err(tokio::sync::mpsc::error::TrySendError::Closed(x)) => EnqueueAttempt::Closed(x),
    }
}

/// Relies on tokio's `Mutex::new`: an unlocked async mutex holding `value`.
#[verifier::external_body]
pub(crate) fn new_async_mutex<T>(value: T) -> Mutex<T> {
    Mutex::new(value)
}

/// Relies on tokio's `Mutex::try_lock`: the guard if the lock is free at this
/// instant, else nothing; it never waits.
#[verifier::external_body]
pub(crate) fn try_lock_now<'a, T>(m: &'a Mutex<T>) -> Option<MutexGuard<'a, T>> {
    m.try_lock().ok()
}

/// Relies on tokio's `Receiver::try_recv`: the oldest queued item, or why
/// there is none; it never waits.
#[verifier::external_body]
pub(crate) fn try_dequeue<'a, T>(rx: &mut MutexGuard<'a, Receiver<T>>) -> DequeueAttempt<T> {
    match rx.try_recv() {
        Ok(x) => DequeueAttempt::Item(x),
        Err(tokio::sync::mpsc::error::TryRecvError::Empty) => DequeueAttempt::Empty,
        Err(tokio::sync::mpsc::error::TryRecvError::Disconnected) => DequeueAttempt::Disconnected,
    }
}

} // verus!
