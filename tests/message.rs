use nats_bridge::message::{
    has_distinct_names, is_valid_header_name, AsyncNatsHeaderIterator, AsyncNatsMessage, AsyncNatsMessageStatus,
    HeaderEntry,
};
use nats_bridge::named_receiver::DeliveryQueue;
use nats_bridge::subscription::{SubscriptionAction, SubscriptionCore, SubscriptionEvent};

fn plain(subject: &str, payload: &[u8]) -> AsyncNatsMessage {
    AsyncNatsMessage::new(subject.to_string(), None, payload.to_vec(), None, None, None, 0)
}

fn with_headers() -> AsyncNatsMessage {
    let headers = vec![
        HeaderEntry { name: "Nats-Msg-Id".to_string(), values: vec!["42".to_string()] },
        HeaderEntry {
            name: "X-Trace".to_string(),
            values: vec!["a".to_string(), "b".to_string(), "c".to_string()],
        },
    ];
    AsyncNatsMessage::new(
        "svc.reply".to_string(),
        Some("_INBOX.1".to_string()),
        b"body".to_vec(),
        Some(headers),
        Some(503),
        Some("No Responders".to_string()),
        77,
    )
}

#[test]
fn views_are_byte_identical_to_the_input() {
    let payload: Vec<u8> = vec![0, 159, 146, 150, 255, 10];
    let m = plain("bin.data", &payload);
    assert_eq!(m.topic().as_bytes(), b"bin.data");
    assert_eq!(m.data(), &payload);
    // a second look shows the same bytes
    assert_eq!(m.data(), &payload);
    assert_eq!(m.reply_to(), None);
    assert!(!m.has_headers());
    assert_eq!(m.status(), 0);
    assert_eq!(m.description(), None);
}

// The message that a subscription on "orders.created" receives after
// "hello" is published there reaches the host unchanged.
#[test]
fn orders_created_message_reaches_the_host_unchanged() {
    let mut core = SubscriptionCore::new();
    let mut queue: DeliveryQueue<AsyncNatsMessage> = DeliveryQueue::new(8);
    let arrived = plain("orders.created", b"hello");
    assert_eq!(core.on_event(SubscriptionEvent::MessageReady), SubscriptionAction::Deliver);
    assert!(queue.offer(arrived));
    let popped = queue.try_recv().expect("a message");
    assert_eq!(popped.topic(), "orders.created");
    assert_eq!(popped.data(), &b"hello".to_vec());
}

#[test]
fn optional_fields_are_reported() {
    let m = with_headers();
    assert_eq!(m.reply_to().map(|s| s.as_str()), Some("_INBOX.1"));
    assert_eq!(m.status(), 503);
    assert_eq!(m.description().map(|s| s.as_str()), Some("No Responders"));
    assert_eq!(m.length(), 77);
    assert!(m.has_headers());
    assert_eq!(m.header_count(), 2);
}

#[test]
fn header_lookup_finds_the_named_header() {
    let m = with_headers();
    assert_eq!(m.find_header("X-Trace"), Some(1));
    assert_eq!(m.find_header("Nats-Msg-Id"), Some(0));
    assert_eq!(m.find_header("x-trace"), None);
    assert_eq!(m.find_header("Missing"), None);
}

#[test]
fn header_lookup_refuses_invalid_names() {
    let m = with_headers();
    assert_eq!(m.find_header("X-Trace:"), None);
    assert_eq!(m.find_header("X Trace"), None);
    assert_eq!(m.find_header(""), None);
    assert!(is_valid_header_name("X-Trace"));
    assert!(!is_valid_header_name("bad:name"));
    assert!(!is_valid_header_name("tab\tname"));
    assert!(!is_valid_header_name("\u{7f}"));
    assert!(is_valid_header_name(""));
}

#[test]
fn header_lookup_without_headers_is_none() {
    let m = plain("a", b"");
    assert_eq!(m.find_header("X-Trace"), None);
    assert_eq!(m.header_count(), 0);
}

#[test]
fn cursor_walks_every_header() {
    let m = with_headers();
    let mut it = AsyncNatsHeaderIterator::over_all();
    assert_eq!(it.current(), None);
    let mut names = Vec::new();
    while it.advance(&m) {
        names.push(it.key(&m).clone());
    }
    assert_eq!(names, vec!["Nats-Msg-Id".to_string(), "X-Trace".to_string()]);
    assert_eq!(it.current(), None);
    assert!(!it.advance(&m));
}

#[test]
fn cursor_on_one_header_gives_its_values() {
    let m = with_headers();
    let i = m.find_header("X-Trace").unwrap();
    let mut it = AsyncNatsHeaderIterator::on_one(i, m.header_count());
    assert_eq!(it.key(&m), "X-Trace");
    assert_eq!(it.value_count(&m), 3);
    assert_eq!(it.value_at(&m, 0), "a");
    assert_eq!(it.value_at(&m, 2), "c");
    assert!(!it.advance(&m));
}

#[test]
fn status_codes() {
    assert_eq!(AsyncNatsMessageStatus::AsyncNatsMessageStatus_None.code(), 0);
    assert_eq!(AsyncNatsMessageStatus::AsyncNatsMessageStatus_IdleHeartbeat.code(), 100);
    assert_eq!(AsyncNatsMessageStatus::AsyncNatsMessageStatus_Ok.code(), 200);
    assert_eq!(AsyncNatsMessageStatus::AsyncNatsMessageStatus_NotFound.code(), 404);
    assert_eq!(AsyncNatsMessageStatus::AsyncNatsMessageStatus_Timeout.code(), 408);
    assert_eq!(AsyncNatsMessageStatus::AsyncNatsMessageStatus_NoResponders.code(), 503);
    assert_eq!(AsyncNatsMessageStatus::AsyncNatsMessageStatus_RequestTerminated.code(), 409);
    assert_eq!(
        AsyncNatsMessageStatus::from_code(503),
        Some(AsyncNatsMessageStatus::AsyncNatsMessageStatus_NoResponders)
    );
    assert_eq!(AsyncNatsMessageStatus::from_code(0), Some(AsyncNatsMessageStatus::AsyncNatsMessageStatus_None));
    assert_eq!(AsyncNatsMessageStatus::from_code(418), None);
}

#[test]
fn repeated_header_names_are_detected() {
    let repeated = vec![
        HeaderEntry { name: "Key".to_string(), values: vec!["one".to_string()] },
        HeaderEntry { name: "Other".to_string(), values: vec![] },
        HeaderEntry { name: "Key".to_string(), values: vec!["two".to_string()] },
    ];
    assert!(!has_distinct_names(&repeated));
    let distinct = vec![
        HeaderEntry { name: "Key".to_string(), values: vec![] },
        HeaderEntry { name: "key".to_string(), values: vec![] },
    ];
    assert!(has_distinct_names(&distinct));
    assert!(has_distinct_names(&Vec::new()));
}

#[test]
fn header_with_no_values() {
    let headers = vec![HeaderEntry { name: "Empty".to_string(), values: vec![] }];
    let m = AsyncNatsMessage::new("t".to_string(), None, vec![], Some(headers), None, None, 0);
    let i = m.find_header("Empty").unwrap();
    let it = AsyncNatsHeaderIterator::on_one(i, m.header_count());
    assert_eq!(it.value_count(&m), 0);
}
