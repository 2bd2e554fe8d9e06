use vstd::prelude::*;

use tokio::sync::mpsc::error::TrySendError;
use tokio::sync::mpsc::{Receiver, Sender};

use crate::message::RelayMessage;

verus! {

#[verifier::external_type_specification]
#[verifier::external_body]
#[verifier::reject_recursive_types(T)]
pub struct ExSender<T>(Sender<T>);

#[verifier::external_type_specification]
#[verifier::external_body]
#[verifier::reject_recursive_types(T)]
pub struct ExReceiver<T>(Receiver<T>);

/// The queue's capacity unless configured otherwise.
pub const DEFAULT_CAPACITY: usize = 100;

/// The largest capacity the queue accepts (tokio's semaphore limit,
/// `usize::MAX >> 3`).
pub const MAX_CAPACITY: usize = usize::MAX >> 3;

/// Relies on tokio::sync::mpsc::channel: a bounded queue of `capacity`
/// slots. It panics when `capacity` is 0 or above the semaphore's limit.
#[verifier::external_body]
fn bounded_channel(capacity: usize) -> (Sender<RelayMessage>, Receiver<RelayMessage>)
    requires
        0 < capacity <= MAX_CAPACITY,
{
    tokio::sync::mpsc::channel(capacity)
}

/// Creates the relay queue: its sending half goes to the listeners, its
/// receiving half to the dispatcher's loop. `None` where the capacity is 0
/// or beyond [`MAX_CAPACITY`].
pub fn relay_channel(capacity: usize) -> (r: Option<(Sender<RelayMessage>, Receiver<RelayMessage>)>)
    ensures
        r is Some <==> 0 < capacity <= MAX_CAPACITY,
{
    if capacity == 0 || capacity > MAX_CAPACITY {
        None
    } else {
        Some(bounded_channel(capacity))
    }
}

/// Why the queue refused a message.
#[derive(PartialEq, Eq, Structural, Clone, Copy, Debug)]
pub enum SendFailure {
    /// Every slot is taken.
    Full,
    /// The receiving half is gone.
    Closed,
}

/// Relies on tokio's Sender::try_send: it never waits, and a message it
/// refuses is handed back, unchanged, with the reason.
#[verifier::external_body]
fn try_enqueue(tx: &Sender<RelayMessage>, msg: RelayMessage) -> (r: Result<
    (),
    (SendFailure, RelayMessage),
>)
    ensures
        r matches Err((_, m)) ==> m == msg,
{
    match tx.try_send(msg) {
        Ok(()) => Ok(()),
        Err(TrySendError::Full(m)) => Err((SendFailure::Full, m)),
        Err(TrySendError::Closed(m)) => Err((SendFailure::Closed, m)),
    }
}

/// The outcome of forwarding one inbound message.
pub enum Forwarded {
    /// The message is in the queue.
    Queued,
    /// The queue refused the message; it is handed back for reporting and
    /// will not be delivered.
    Dropped { reason: SendFailure, message: RelayMessage },
}

/// The outcome that a result of the queue's send amounts to: queued on
/// success, and otherwise dropped, with the reason and the message handed back.
pub fn forwarded(sent: Result<(), (SendFailure, RelayMessage)>) -> (r: Forwarded)
    ensures
        sent is Ok <==> r is Queued,
        sent matches Err((reason, m)) ==> {
            &&& r matches Forwarded::Dropped { reason: why, message }
            &&& why == reason
            &&& message == m
        },
{
    match sent {
        Ok(()) => Forwarded::Queued,
        Err((reason, message)) => Forwarded::Dropped { reason, message },
    }
}

/// The client-side listener: it forwards every message its session sees to
/// the relay queue, without filtering and without ever waiting.
pub struct ClientListener {
    tx: Sender<RelayMessage>,
}

impl ClientListener {
    pub fn new(tx: Sender<RelayMessage>) -> (r: ClientListener)
        ensures
            r.sender() == tx,
    {
        ClientListener { tx }
    }

    pub closed spec fn sender(&self) -> Sender<RelayMessage> {
        self.tx
    }

    /// Builds the relay message for an inbound message and queues it. Where
    /// the queue refuses it, the message comes back whole, so that it can
    /// be reported: it is not retried.
    pub fn on_message(&self, source_channel_id: u64, text: String) -> (r: Forwarded)
        ensures
            r matches Forwarded::Dropped { message, .. } ==> {
                &&& message.source_channel_id == source_channel_id
                &&& message.text == text
            },
    {
        let msg = RelayMessage::new(source_channel_id, text);
        forwarded(try_enqueue(&self.tx, msg))
    }
}

} // verus!
