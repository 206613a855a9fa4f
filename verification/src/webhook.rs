//! Telling a webhook endpoint of events.
//!
//! Events wait in a queue of fixed size. A worker takes one after the other and tries to deliver
//! it until the endpoint accepts it or the retries are used up.
use vstd::arithmetic::power2::{lemma2_to64, lemma_pow2_strictly_increases, lemma_pow2_unfold, pow2};
use vstd::prelude::*;

use crate::config::WebhookConfig;
use crate::domain::transaction::TransactionEvent;
use crate::ids::{id_text, uuid_text};
use crate::queue::{
    addressable, channel_bounded, queue_capacity, receiver_queue, sender_clone, sender_is_full,
    sender_len, sender_queue, sender_try_send, Receipt, Refusal,
};

verus! {

/// Puts events into the queue.
pub struct WebhookDispatcher {
    sender: async_channel::Sender<TransactionEvent>,
    config: WebhookConfig,
}

/// What came of an event.
pub enum Dispatch {
    /// Webhooks are switched off, and the event is dropped.
    Disabled,
    /// The event was put into the queue.
    Queued(Receipt),
    /// The event was offered to the queue, which did not take it.
    Refused(Refusal),
}

/// How a dispatcher is set up, and the queue that it puts events into.
pub struct DispatcherView {
    pub config: WebhookConfig,
    pub queue: int,
}

impl View for WebhookDispatcher {
    type V = DispatcherView;

    closed spec fn view(&self) -> DispatcherView {
        DispatcherView { config: self.config, queue: sender_queue(self.sender) }
    }
}

impl WebhookDispatcher {
    /// What every dispatcher keeps to: its queue is as large as configured.
    #[verifier::type_invariant]
    pub closed spec fn valid(self) -> bool {
        queue_capacity(self.sender) == self.config.queue_size
    }

    /// How many events can wait in the queue at most.
    pub closed spec fn capacity(&self) -> nat {
        queue_capacity(self.sender)
    }

    /// A dispatcher with its queue, and the other side of the queue for the worker. Where
    /// webhooks are switched off there is no worker.
    pub fn new(config: WebhookConfig) -> (r: (
        Self,
        Option<async_channel::Receiver<TransactionEvent>>,
    ))
        requires
            0 < config.queue_size,
            addressable(config.queue_size),
        ensures
            r.0@.config == config,
            r.0.capacity() == config.queue_size,
            r.1 is Some <==> config.enabled,
            r.1 matches Some(receiver) ==> receiver_queue(receiver) == r.0@.queue,
    {
        let (sender, receiver) = channel_bounded(config.queue_size);
        let dispatcher = Self { sender, config: config.clone() };
        if config.enabled {
            (dispatcher, Some(receiver))
        } else {
            (dispatcher, None)
        }
    }

    /// Puts an event into the queue, without waiting.
    pub fn dispatch(&self, event: TransactionEvent) -> (r: Dispatch)
        ensures
            r is Disabled <==> !self@.config.enabled,
            r matches Dispatch::Queued(receipt) ==> receipt@.event == event && receipt@.queue
                == self@.queue,
            r matches Dispatch::Refused(refusal) ==> refusal@.event == event && refusal@.queue
                == self@.queue,
    {
        if !self.config.enabled {
            return Dispatch::Disabled;
        }
        Self::dispatched(sender_try_send(&self.sender, event))
    }

    /// What came of an event that was offered to the queue.
    pub fn dispatched(sent: Result<Receipt, Refusal>) -> (r: Dispatch)
        ensures
            r == match sent {
                Ok(receipt) => Dispatch::Queued(receipt),
                Err(refusal) => Dispatch::Refused(refusal),
            },
    {
        match sent {
            Ok(receipt) => Dispatch::Queued(receipt),
            Err(refusal) => Dispatch::Refused(refusal),
        }
    }

    /// How many events wait for their delivery. The worker may change that at any time; it is
    /// never more than the queue was made for.
    pub fn queue_len(&self) -> (r: usize)
        ensures
            r <= self@.config.queue_size,
            r <= self.capacity(),
    {
        proof {
            use_type_invariant(self);
        }
        sender_len(&self.sender)
    }

    /// Whether the queue is full. The worker may change that at any time.
    pub fn is_full(&self) -> bool {
        sender_is_full(&self.sender)
    }
}

impl Clone for WebhookDispatcher {
    fn clone(&self) -> (r: Self)
        ensures
            r@ == self@,
            r.capacity() == self.capacity(),
    {
        proof {
            use_type_invariant(self);
        }
        Self { sender: sender_clone(&self.sender), config: self.config.clone() }
    }
}

/// What a dispatcher says of its queue is so of the queue that it puts events into: which one it
/// is, and how many events can wait there.
proof fn law_the_queue_is_the_senders(dispatcher: WebhookDispatcher)
    ensures
        dispatcher@.queue == sender_queue(dispatcher.sender),
        dispatcher@.config == dispatcher.config,
        dispatcher.capacity() == queue_capacity(dispatcher.sender),
{
}

/// The first wait between two tries, in milliseconds.
pub const FIRST_DELAY_MS: u64 = 100;

/// The longest wait between two tries, in milliseconds.
pub const LONGEST_DELAY_MS: u64 = 30_000;

/// The wait after so many tries have failed before: it starts at 100 milliseconds and doubles
/// from try to try, up to 30 seconds.
pub open spec fn backoff(failed_before: nat) -> nat {
    if 100 * pow2(failed_before) < 30_000 {
        100 * pow2(failed_before)
    } else {
        30_000
    }
}

/// A delivery under way.
#[derive(Debug)]
pub struct Delivery {
    retries: u32,
    delay_ms: u64,
}

/// What to do after a try.
#[derive(Debug)]
pub enum DeliveryStep {
    /// The endpoint has accepted the event.
    Delivered,
    /// The retries are used up, and the event is dropped.
    GaveUp,
    /// Wait so many milliseconds, then try again.
    Retry(u64, Delivery),
}

impl View for Delivery {
    type V = nat;

    /// How many tries have failed.
    closed spec fn view(&self) -> nat {
        self.retries as nat
    }
}

/// A try to deliver an event: where the event goes, and under which headers.
#[derive(Debug)]
pub struct DeliveryRequest {
    pub endpoint: String,
    pub headers: Vec<(&'static str, String)>,
}

/// The headers under which an event is delivered.
pub open spec fn delivery_headers(
    headers: Seq<(&'static str, String)>,
    event: TransactionEvent,
) -> bool {
    &&& headers.len() == 4
    &&& headers[0].0@ == "Content-Type"@ && headers[0].1@ == "application/json"@
    &&& headers[1].0@ == "X-Event-Type"@ && headers[1].1@ == event.event_type.name()
    &&& headers[2].0@ == "X-Transaction-Id"@ && headers[2].1@ == uuid_text(event.transaction_id)
    &&& headers[3].0@ == "X-Idempotency-Key"@ && headers[3].1@ == event.idempotency_key@
}

impl WebhookDispatcher {
    /// Where the worker delivers to. Without an endpoint it has nothing to do.
    pub fn endpoint(config: &WebhookConfig) -> (r: Option<String>)
        ensures
            r == config.endpoint_url,
    {
        let r = config.endpoint_url.clone();
        assert(r == config.endpoint_url);
        r
    }

    /// The request by which the worker tries to deliver an event.
    pub fn request(endpoint: &str, event: &TransactionEvent) -> (r: DeliveryRequest)
        ensures
            r.endpoint@ == endpoint@,
            delivery_headers(r.headers@, *event),
    {
        let mut headers: Vec<(&'static str, String)> = Vec::new();
        headers.push(("Content-Type", "application/json".to_owned()));
        headers.push(("X-Event-Type", event.event_type.as_str().to_owned()));
        headers.push(("X-Transaction-Id", id_text(event.transaction_id)));
        headers.push(("X-Idempotency-Key", event.idempotency_key.clone()));
        DeliveryRequest { endpoint: endpoint.to_owned(), headers }
    }
}

impl Delivery {
    /// What every delivery keeps to: the wait follows from the number of tries that failed.
    #[verifier::type_invariant]
    pub closed spec fn valid(self) -> bool {
        &&& self.retries < u32::MAX
        &&& self.delay_ms == backoff(self.retries as nat)
    }

    /// A delivery that has not been tried yet.
    pub fn new() -> (r: Self)
        ensures
            r@ == 0,
    {
        proof {
            lemma2_to64();
        }
        Delivery { retries: 0, delay_ms: FIRST_DELAY_MS }
    }

    /// What to do after a try, given whether the endpoint has accepted the event.
    pub fn tried(self, accepted: bool, max_retries: u32) -> (r: DeliveryStep)
        ensures
            match r {
                DeliveryStep::Delivered => accepted,
                DeliveryStep::GaveUp => !accepted && self@ + 1 >= max_retries,
                DeliveryStep::Retry(delay_ms, next) => {
                    &&& !accepted
                    &&& self@ + 1 < max_retries
                    &&& delay_ms == backoff(self@)
                    &&& next@ == self@ + 1
                },
            },
    {
        proof {
            use_type_invariant(&self);
        }
        if accepted {
            return DeliveryStep::Delivered;
        }
        let retries: u32 = self.retries + 1;
        if retries >= max_retries {
            return DeliveryStep::GaveUp;
        }
        let doubled: u64 = self.delay_ms * 2;
        let delay_ms: u64 = if doubled < LONGEST_DELAY_MS {
            doubled
        } else {
            LONGEST_DELAY_MS
        };
        proof {
            lemma_backoff_doubles(self.retries as nat);
        }
        DeliveryStep::Retry(self.delay_ms, Delivery { retries, delay_ms })
    }
}

proof fn lemma_backoff_doubles(n: nat)
    ensures
        backoff(n + 1) == if 2 * backoff(n) < 30_000 {
            2 * backoff(n)
        } else {
            30_000
        },
{
    lemma_pow2_unfold(n + 1);
}

/// How often an event is tried, where no try succeeds and so many have failed before.
pub open spec fn tries_left(failed_before: nat, max_retries: nat) -> nat
    decreases max_retries - failed_before,
{
    if failed_before + 1 >= max_retries {
        1
    } else {
        1 + tries_left(failed_before + 1, max_retries)
    }
}

proof fn lemma_tries_left(failed_before: nat, max_retries: nat)
    requires
        failed_before < max_retries || failed_before == 0,
    ensures
        tries_left(failed_before, max_retries) == if failed_before + 1 >= max_retries {
            1
        } else {
            max_retries - failed_before
        },
    decreases max_retries - failed_before,
{
    if failed_before + 1 < max_retries {
        lemma_tries_left(failed_before + 1, max_retries);
    }
}

/// An event that the endpoint never accepts is tried as often as configured, and at least once.
pub proof fn law_tries_are_bounded(max_retries: nat)
    ensures
        tries_left(0, max_retries) == if max_retries == 0 {
            1
        } else {
            max_retries
        },
{
    lemma_tries_left(0, max_retries);
}

/// The waits start at 100 milliseconds, each is twice the one before until that would be more
/// than 30 seconds, and none is longer than that.
pub proof fn law_backoff_doubles_up_to_the_limit(failed_before: nat)
    ensures
        backoff(0) == 100,
        100 <= backoff(failed_before) <= 30_000,
        backoff(failed_before) <= backoff(failed_before + 1),
        backoff(failed_before + 1) == if 2 * backoff(failed_before) < 30_000 {
            2 * backoff(failed_before)
        } else {
            30_000
        },
{
    lemma2_to64();
    lemma_backoff_doubles(failed_before);
    if failed_before > 0 {
        lemma_pow2_strictly_increases(0, failed_before);
    }
}

} // verus!
