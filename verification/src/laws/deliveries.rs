//! Telling a webhook endpoint of events: when an event is tried again, and what is sent.
use vstd::prelude::*;

use crate::config::WebhookConfig;
use crate::domain::transaction::TransactionEvent;
use crate::ids::{law_id_text_parses_back, uuid_value};
use crate::queue::{receiver_queue, Refusal};
use crate::webhook::{Delivery, DeliveryRequest, DeliveryStep, Dispatch, WebhookDispatcher};

verus! {

/// An event that was accepted is not tried again, however often it was tried before. One that was
/// not is given up once as many tries have failed as are allowed, and is tried again before.
pub proof fn law_when_an_event_is_tried_again(
    delivery: Delivery,
    accepted: bool,
    max_retries: u32,
    step: DeliveryStep,
)
    requires
        call_ensures(Delivery::tried, (delivery, accepted, max_retries), step),
    ensures
        step is Delivered <==> accepted,
        step is GaveUp <==> !accepted && delivery@ + 1 >= max_retries,
        step matches DeliveryStep::Retry(_, next) ==> next@ == delivery@ + 1,
        step is Retry <==> !accepted && delivery@ + 1 < max_retries,
{
}

/// The first wait is 100 milliseconds.
pub proof fn law_the_first_wait(
    delivery: Delivery,
    max_retries: u32,
    delay_ms: u64,
    next: Delivery,
)
    requires
        call_ensures(Delivery::new, (), delivery),
        call_ensures(
            Delivery::tried,
            (delivery, false, max_retries),
            DeliveryStep::Retry(delay_ms, next),
        ),
    ensures
        delivery@ == 0,
        delay_ms == 100,
        next@ == 1,
{
    vstd::arithmetic::power2::lemma2_to64();
}

/// Each wait is twice the one before it, until that would be more than 30 seconds; from then on it
/// is 30 seconds.
pub proof fn law_waits_double_up_to_the_longest(
    delivery: Delivery,
    max_retries: u32,
    other_max: u32,
    delay_ms: u64,
    next: Delivery,
    next_delay_ms: u64,
    after: Delivery,
)
    requires
        call_ensures(
            Delivery::tried,
            (delivery, false, max_retries),
            DeliveryStep::Retry(delay_ms, next),
        ),
        call_ensures(
            Delivery::tried,
            (next, false, other_max),
            DeliveryStep::Retry(next_delay_ms, after),
        ),
    ensures
        next_delay_ms == if 2 * delay_ms < 30_000 {
            2 * delay_ms
        } else {
            30_000
        },
        100 <= delay_ms <= 30_000,
        delay_ms <= next_delay_ms,
{
    crate::webhook::law_backoff_doubles_up_to_the_limit(delivery@);
}

/// An event is sent to the endpoint that is configured, as JSON, under headers that name its type,
/// its transaction and its idempotency key.
pub proof fn law_what_is_sent(
    config: WebhookConfig,
    endpoint: Option<String>,
    url: &str,
    event: TransactionEvent,
    request: DeliveryRequest,
    name: &'static str,
)
    requires
        call_ensures(WebhookDispatcher::endpoint, (&config,), endpoint),
        endpoint matches Some(e) && url@ == e@,
        call_ensures(WebhookDispatcher::request, (url, &event), request),
        call_ensures(
            crate::domain::transaction::TransactionEventType::as_str,
            (&event.event_type,),
            name,
        ),
    ensures
        config.endpoint_url matches Some(e) && request.endpoint@ == e@,
        request.headers.len() == 4,
        has_header(request.headers@, "Content-Type"@, "application/json"@),
        has_header(request.headers@, "X-Event-Type"@, name@),
        has_header(request.headers@, "X-Idempotency-Key"@, event.idempotency_key@),
        exists|id: Seq<char>| #[trigger]
            has_header(request.headers@, "X-Transaction-Id"@, id) && uuid_value(id) == Some(
                event.transaction_id,
            ),
{
    law_id_text_parses_back(event.transaction_id);
    let h = request.headers@;
    assert(h[0].0@ == "Content-Type"@ && h[1].0@ == "X-Event-Type"@);
    assert(h[3].0@ == "X-Idempotency-Key"@);
    assert(has_header(h, "X-Transaction-Id"@, h[2].1@));
}

/// Whether a header with this name and this value is among those that are sent.
pub open spec fn has_header(
    headers: Seq<(&'static str, String)>,
    name: Seq<char>,
    value: Seq<char>,
) -> bool {
    exists|i: int|
        0 <= i < headers.len() && (#[trigger] headers[i]).0@ == name && headers[i].1@ == value
}

/// A worker is told where to deliver to exactly where an endpoint is configured.
pub proof fn law_the_endpoint_is_the_configured_one(
    config: WebhookConfig,
    endpoint: Option<String>,
)
    requires
        call_ensures(WebhookDispatcher::endpoint, (&config,), endpoint),
    ensures
        endpoint is Some <==> config.endpoint_url is Some,
        endpoint matches Some(e) ==> (config.endpoint_url matches Some(url) && e@ == url@),
{
}

/// Where webhooks are switched on, an event is offered to the queue that the worker takes events
/// from, and is either in it or handed back as it was. Where they are switched off, there is no
/// worker and no event is offered.
pub proof fn law_events_reach_the_worker_or_come_back(
    config: WebhookConfig,
    made: (WebhookDispatcher, Option<async_channel::Receiver<TransactionEvent>>),
    event: TransactionEvent,
    r: Dispatch,
    back: TransactionEvent,
)
    requires
        call_ensures(WebhookDispatcher::new, (config,), made),
        call_ensures(WebhookDispatcher::dispatch, (&made.0, event), r),
        r matches Dispatch::Refused(refusal) ==> call_ensures(
            Refusal::into_event,
            (refusal,),
            back,
        ),
    ensures
        config.enabled <==> made.1 is Some,
        config.enabled <==> !(r is Disabled),
        r matches Dispatch::Queued(receipt) ==> receipt@.event == event && (
        made.1 matches Some(receiver) && receipt@.queue == receiver_queue(receiver)),
        r is Refused ==> back == event,
{
}

/// The queue has room for as many events as configured, and never more wait.
pub proof fn law_the_queue_is_as_large_as_configured(
    config: WebhookConfig,
    made: (WebhookDispatcher, Option<async_channel::Receiver<TransactionEvent>>),
    copy: WebhookDispatcher,
    len: usize,
)
    requires
        call_ensures(WebhookDispatcher::new, (config,), made),
        call_ensures(<WebhookDispatcher as Clone>::clone, (&made.0,), copy),
        call_ensures(WebhookDispatcher::queue_len, (&copy,), len),
    ensures
        made.0@.config == config,
        made.0.capacity() == config.queue_size,
        copy.capacity() == config.queue_size,
        len <= config.queue_size,
{
}

/// A copy of a dispatcher puts events into the same queue.
pub proof fn law_copies_share_the_queue(
    dispatcher: WebhookDispatcher,
    copy: WebhookDispatcher,
    event: TransactionEvent,
    a: Dispatch,
    b: Dispatch,
)
    requires
        call_ensures(<WebhookDispatcher as Clone>::clone, (&dispatcher,), copy),
        call_ensures(WebhookDispatcher::dispatch, (&dispatcher, event), a),
        call_ensures(WebhookDispatcher::dispatch, (&copy, event), b),
    ensures
        a is Disabled <==> b is Disabled,
        a matches Dispatch::Queued(x) ==> (b matches Dispatch::Queued(y) ==> x@ == y@),
{
}

} // verus!
