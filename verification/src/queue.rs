//! The queue in which events wait for their delivery: a bounded channel of the `async-channel`
//! crate.
use vstd::prelude::*;

use crate::domain::transaction::TransactionEvent;

verus! {

/// The sending side of a queue of the `async-channel` crate.
#[verifier::external_type_specification]
#[verifier::external_body]
#[verifier::reject_recursive_types(T)]
pub struct ExSender<T>(async_channel::Sender<T>);

/// The receiving side of a queue of the `async-channel` crate.
#[verifier::external_type_specification]
#[verifier::external_body]
#[verifier::reject_recursive_types(T)]
pub struct ExReceiver<T>(async_channel::Receiver<T>);

/// How many events a queue was made for. What it holds at a given moment depends on the worker
/// too, so it has no name.
pub uninterp spec fn queue_capacity(sender: async_channel::Sender<TransactionEvent>) -> nat;

/// Which queue a sender puts events into.
pub uninterp spec fn sender_queue(sender: async_channel::Sender<TransactionEvent>) -> int;

/// Which queue a receiver takes events from.
pub uninterp spec fn receiver_queue(receiver: async_channel::Receiver<TransactionEvent>) -> int;

/// Tells that an event was put into a queue. Only putting one there makes it.
pub struct Receipt {
    event: Ghost<TransactionEvent>,
    queue: Ghost<int>,
}

/// The event, and the queue that it was put into or offered to.
pub struct ReceiptView {
    pub event: TransactionEvent,
    pub queue: int,
}

impl View for Receipt {
    type V = ReceiptView;

    closed spec fn view(&self) -> ReceiptView {
        ReceiptView { event: self.event@, queue: self.queue@ }
    }
}

/// Holds an event that was offered to a queue and that the queue did not take. Only offering one
/// makes it.
pub struct Refusal {
    event: TransactionEvent,
    queue: Ghost<int>,
}

impl View for Refusal {
    type V = ReceiptView;

    closed spec fn view(&self) -> ReceiptView {
        ReceiptView { event: self.event, queue: self.queue@ }
    }
}

impl Refusal {
    /// The event that the queue did not take.
    pub fn into_event(self) -> (r: TransactionEvent)
        ensures
            r == self@.event,
    {
        self.event
    }
}

/// Whether a queue of this size can be addressed, where each of its slots takes up to 1024 bytes.
pub open spec fn addressable(capacity: usize) -> bool {
    capacity <= usize::MAX / 1024
}

/// `async_channel::bounded`: the two sides of a queue for so many events. It panics where that is none, or more
/// than can be addressed.
#[verifier::external_body]
pub(crate) fn channel_bounded(capacity: usize) -> (r: (
    async_channel::Sender<TransactionEvent>,
    async_channel::Receiver<TransactionEvent>,
))
    requires
        0 < capacity,
        addressable(capacity),
    ensures
        queue_capacity(r.0) == capacity,
        receiver_queue(r.1) == sender_queue(r.0),
{
    async_channel::bounded(capacity)
}

/// `async_channel::Sender::try_send`: puts the event into the sender's queue, or hands it back
/// where the queue is full or nobody receives from it any more. Which of these it is depends on
/// the other side.
#[verifier::external_body]
pub(crate) fn sender_try_send(
    sender: &async_channel::Sender<TransactionEvent>,
    event: TransactionEvent,
) -> (r: Result<Receipt, Refusal>)
    ensures
        r matches Ok(receipt) ==> receipt@ == (ReceiptView { event, queue: sender_queue(*sender) }),
        r matches Err(refusal) ==> refusal@ == (ReceiptView {
            event,
            queue: sender_queue(*sender),
        }),
{
    let ghost offered = event;
    match sender.try_send(event) {
        Ok(_) => Ok(Receipt { event: Ghost(offered), queue: Ghost(sender_queue(*sender)) }),
        Err(e) => Err(
            Refusal { event: e.into_inner(), queue: Ghost(sender_queue(*sender)) },
        ),
    }
}

/// `async_channel::Sender::len`: how many events wait, which is never more than the queue was
/// made for. How many of these it is depends on the other side.
#[verifier::external_body]
pub(crate) fn sender_len(sender: &async_channel::Sender<TransactionEvent>) -> (r: usize)
    ensures
        r <= queue_capacity(*sender),
{
    sender.len()
}

/// `async_channel::Sender::is_full`: whether as many events wait as the queue was made for. That
/// depends on the other side, so nothing is said of the result.
#[verifier::external_body]
pub(crate) fn sender_is_full(sender: &async_channel::Sender<TransactionEvent>) -> (r: bool) {
    sender.is_full()
}

/// The `Clone` of `async_channel::Sender`: another sending side of the same queue.
#[verifier::external_body]
pub(crate) fn sender_clone(sender: &async_channel::Sender<TransactionEvent>) -> (r: async_channel::Sender<
    TransactionEvent,
>)
    ensures
        queue_capacity(r) == queue_capacity(*sender),
        sender_queue(r) == sender_queue(*sender),
{
    sender.clone()
}

} // verus!
