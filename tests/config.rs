use nats_bridge::api::LossyConvert;
use nats_bridge::connection::AsyncNatsConnetionParams;
use nats_bridge::request::AsyncNatsRequest;
use nats_bridge::runtime::AsyncNatsTokioRuntimeConfig;

#[test]
fn runtime_config_defaults() {
    let c = AsyncNatsTokioRuntimeConfig::with_parallelism(Some(8));
    assert_eq!(c.thread_name(), "tokio_runtime");
    assert_eq!(c.thread_count(), 8);
    assert_eq!(AsyncNatsTokioRuntimeConfig::with_parallelism(None).thread_count(), 1);
    assert_eq!(AsyncNatsTokioRuntimeConfig::with_parallelism(Some(0)).thread_count(), 1);
}

#[test]
fn runtime_config_setters() {
    let mut c = AsyncNatsTokioRuntimeConfig::with_parallelism(Some(2));
    c.set_thread_name("workers".to_string());
    c.set_thread_count(5);
    assert_eq!(c.thread_name(), "workers");
    assert_eq!(c.thread_count(), 5);
}

#[test]
fn connect_params_keep_addresses_in_order() {
    let mut p = AsyncNatsConnetionParams::new();
    assert!(p.addrs().is_empty());
    assert!(p.add_addr("demo.nats.io"));
    assert!(p.add_addr("nats://localhost:4223"));
    assert_eq!(p.addrs().len(), 2);
    assert_eq!(p.addrs()[0].host(), "demo.nats.io");
    assert_eq!(p.addrs()[0].port(), 4222);
    assert_eq!(p.addrs()[1].port(), 4223);
    assert_eq!(p.addrs()[1].host(), "localhost");
    assert!(p.name().is_none());
    p.set_name("bridge".to_string());
    assert_eq!(p.name().map(|s| s.as_str()), Some("bridge"));
    let _options = p.connect_options();
}

#[test]
fn connect_params_refuse_a_bad_address() {
    let mut p = AsyncNatsConnetionParams::new();
    assert!(!p.add_addr("http://example.com"));
    assert!(!p.add_addr("nats://[::1"));
    assert_eq!(p.addrs().len(), 0);
}

#[test]
fn request_build_takes_the_options_out() {
    let mut r = AsyncNatsRequest::new();
    r.set_inbox("_INBOX.custom".to_string());
    r.set_timeout(200);
    r.set_payload(b"ping".to_vec());
    let _first = r.build();
    let _second = r.build();
}

#[test]
fn lossy_convert_replaces_invalid_utf8() {
    assert_eq!(b"orders.created".to_vec().lossy_convert(), "orders.created");
    assert_eq!(vec![b'a', 0xff, b'b'].lossy_convert(), "a\u{fffd}b");
    assert_eq!(Vec::<u8>::new().lossy_convert(), "");
}
