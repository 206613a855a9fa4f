use velox_ledger::clock::DateTime;
use velox_ledger::config::WebhookConfig;
use velox_ledger::domain::{TransactionEvent, TransactionEventType};
use velox_ledger::ids::id_text;
use velox_ledger::webhook::{Delivery, DeliveryStep, Dispatch, WebhookDispatcher};

fn config(enabled: bool, queue_size: usize) -> WebhookConfig {
    WebhookConfig {
        enabled,
        endpoint_url: Some("http://localhost/hook".to_string()),
        queue_size,
        timeout_secs: 5,
        max_retries: 3,
    }
}

fn event(transaction_id: u128) -> TransactionEvent {
    TransactionEvent {
        event_type: TransactionEventType::TransactionCommitted,
        transaction_id,
        idempotency_key: "k".to_string(),
        timestamp: DateTime { seconds: 0, nanos: 0 },
        payload: "{}".to_string(),
    }
}

#[test]
fn events_wait_in_order() {
    let (dispatcher, receiver) = WebhookDispatcher::new(config(true, 2));
    let receiver = receiver.unwrap();
    assert_eq!(dispatcher.queue_len(), 0);
    assert!(matches!(dispatcher.dispatch(event(1)), Dispatch::Queued(_)));
    assert!(!dispatcher.is_full());
    assert!(matches!(dispatcher.dispatch(event(2)), Dispatch::Queued(_)));
    assert_eq!(dispatcher.queue_len(), 2);
    assert!(dispatcher.is_full());
    assert_eq!(receiver.try_recv().unwrap().transaction_id, 1);
    assert_eq!(receiver.try_recv().unwrap().transaction_id, 2);
}

#[test]
fn a_full_queue_refuses() {
    let (dispatcher, _receiver) = WebhookDispatcher::new(config(true, 1));
    assert!(matches!(dispatcher.dispatch(event(1)), Dispatch::Queued(_)));
    match dispatcher.dispatch(event(2)) {
        Dispatch::Refused(refusal) => assert_eq!(refusal.into_event().transaction_id, 2),
        _ => panic!("taken"),
    }
    assert_eq!(dispatcher.queue_len(), 1);
}

#[test]
fn a_queue_without_receiver_refuses() {
    let (dispatcher, receiver) = WebhookDispatcher::new(config(true, 1));
    assert!(receiver.is_some());
    drop(receiver);
    assert!(matches!(dispatcher.dispatch(event(1)), Dispatch::Refused(_)));
}

#[test]
fn nothing_is_queued_where_webhooks_are_off() {
    let (dispatcher, receiver) = WebhookDispatcher::new(config(false, 1));
    assert!(receiver.is_none());
    assert!(matches!(dispatcher.dispatch(event(1)), Dispatch::Disabled));
    assert_eq!(dispatcher.queue_len(), 0);
}

#[test]
fn clones_share_the_queue() {
    let (dispatcher, _receiver) = WebhookDispatcher::new(config(true, 2));
    let other = dispatcher.clone();
    assert!(matches!(other.dispatch(event(1)), Dispatch::Queued(_)));
    assert_eq!(dispatcher.queue_len(), 1);
}

#[test]
fn the_request_of_a_delivery() {
    let request = WebhookDispatcher::request("http://localhost/hook", &event(7));
    assert_eq!(request.endpoint, "http://localhost/hook");
    assert_eq!(
        request.headers,
        vec![
            ("Content-Type", "application/json".to_string()),
            ("X-Event-Type", "transaction.committed".to_string()),
            ("X-Transaction-Id", id_text(7)),
            ("X-Idempotency-Key", "k".to_string()),
        ]
    );
}

#[test]
fn the_endpoint() {
    assert_eq!(
        WebhookDispatcher::endpoint(&config(true, 1)),
        Some("http://localhost/hook".to_string())
    );
    let none = WebhookConfig { endpoint_url: None, ..config(true, 1) };
    assert_eq!(WebhookDispatcher::endpoint(&none), None);
}

fn failing(max_retries: u32) -> (usize, Vec<u64>) {
    let mut tries = 0;
    let mut waits = Vec::new();
    let mut delivery = Delivery::new();
    loop {
        tries += 1;
        match delivery.tried(false, max_retries) {
            DeliveryStep::Retry(wait, next) => {
                waits.push(wait);
                delivery = next;
            }
            DeliveryStep::GaveUp => return (tries, waits),
            DeliveryStep::Delivered => panic!("delivered"),
        }
    }
}

#[test]
fn tries_are_bounded() {
    assert_eq!(failing(0), (1, vec![]));
    assert_eq!(failing(1), (1, vec![]));
    assert_eq!(failing(3), (3, vec![100, 200]));
}

#[test]
fn waits_double_up_to_half_a_minute() {
    let (tries, waits) = failing(12);
    assert_eq!(tries, 12);
    assert_eq!(
        waits,
        vec![100, 200, 400, 800, 1600, 3200, 6400, 12800, 25600, 30000, 30000]
    );
}

#[test]
fn a_delivery_that_is_accepted_ends() {
    assert!(matches!(Delivery::new().tried(true, 3), DeliveryStep::Delivered));
    assert!(matches!(Delivery::new().tried(true, 0), DeliveryStep::Delivered));
    match Delivery::new().tried(false, 3) {
        DeliveryStep::Retry(100, next) => {
            assert!(matches!(next.tried(true, 3), DeliveryStep::Delivered));
        }
        other => panic!("{:?}", other),
    }
}
