use callbacks::create;
use callbacks::BridgeAdapter;
use callbacks::ReleaseCall;

#[derive(Debug, PartialEq, Eq)]
enum Observed {
    Success(usize, String, String),
    Error(usize, String),
    Release(usize),
}

#[test]
fn explicit_release_twice_fires_once() {
    let mut h = create(1, 2, 3, 7);
    let first = h.invoke_release();
    let second = h.invoke_release();
    assert_eq!(first, Some(ReleaseCall { target: 3, context: 7 }));
    assert_eq!(second, None);
}

#[test]
fn adapter_destruction_alone_fires_release_once() {
    let a = BridgeAdapter::new(create(1, 2, 3, 9));
    let fired = a.destroy();
    assert_eq!(fired, Some(ReleaseCall { target: 3, context: 9 }));
}

#[test]
fn handle_destruction_alone_fires_release_once() {
    let h = create(4, 5, 6, 10);
    assert_eq!(h.destroy(), Some(ReleaseCall { target: 6, context: 10 }));
}

#[test]
fn release_then_destruction_fires_once_in_total() {
    let mut a = BridgeAdapter::new(create(1, 2, 3, 5));
    let first = a.invoke_release();
    let second = a.destroy();
    assert_eq!(first, Some(ReleaseCall { target: 3, context: 5 }));
    assert_eq!(second, None);
}

#[test]
fn adapter_release_twice_then_destruction_fires_once() {
    let mut a = BridgeAdapter::new(create(1, 2, 3, 6));
    assert!(a.invoke_release().is_some());
    assert_eq!(a.invoke_release(), None);
    assert_eq!(a.destroy(), None);
}

#[test]
fn success_forwards_payloads_and_context_in_order() {
    let mut h = create(11, 22, 33, 44);
    let c = h.invoke_success("foo".to_string(), "bar".to_string());
    assert_eq!(c.target, 11);
    assert_eq!(c.context, 44);
    assert_eq!(c.payload_a, "foo");
    assert_eq!(c.payload_b, "bar");
}

#[test]
fn error_forwards_payload_and_context() {
    let mut h = create(11, 22, 33, 44);
    let e = h.invoke_error("boom".to_string());
    assert_eq!(e.target, 22);
    assert_eq!(e.context, 44);
    assert_eq!(e.payload, "boom");
}

#[test]
fn adapter_forwards_like_the_handle() {
    let mut a = BridgeAdapter::new(create(11, 22, 33, 44));
    let c = a.invoke_success("foo".to_string(), "bar".to_string());
    assert_eq!((c.target, c.context), (11, 44));
    assert_eq!(c.payload_a, "foo");
    assert_eq!(c.payload_b, "bar");
    let e = a.invoke_error("boom".to_string());
    assert_eq!((e.target, e.context), (22, 44));
    assert_eq!(e.payload, "boom");
}

#[test]
fn success_may_repeat_while_live() {
    let mut h = create(1, 2, 3, 4);
    let first = h.invoke_success("x".to_string(), "y".to_string());
    let second = h.invoke_success("x".to_string(), "y".to_string());
    assert_eq!(first, second);
}

#[test]
fn empty_payloads_pass_through_unchanged() {
    let mut h = create(1, 2, 3, 4);
    let c = h.invoke_success(String::new(), String::new());
    assert_eq!(c.payload_a, "");
    assert_eq!(c.payload_b, "");
    let e = h.invoke_error(String::new());
    assert_eq!(e.payload, "");
}

#[test]
fn handles_from_same_addresses_are_independent() {
    let mut h1 = create(1, 2, 3, 8);
    let mut h2 = create(1, 2, 3, 8);
    assert_eq!(h1.invoke_release(), Some(ReleaseCall { target: 3, context: 8 }));
    // the other handle's released state is untouched: its own release still fires
    assert_eq!(h2.invoke_release(), Some(ReleaseCall { target: 3, context: 8 }));
    assert_eq!(h1.invoke_release(), None);
    assert_eq!(h2.invoke_release(), None);
}

#[test]
fn scenario_success_error_destroy_in_order() {
    let mut a = BridgeAdapter::new(create(0x51, 0x52, 0x53, 42));
    let mut log: Vec<Observed> = Vec::new();

    let c = a.invoke_success("a".to_string(), "b".to_string());
    assert_eq!(c.target, 0x51);
    log.push(Observed::Success(c.context, c.payload_a, c.payload_b));

    let e = a.invoke_error("c".to_string());
    assert_eq!(e.target, 0x52);
    log.push(Observed::Error(e.context, e.payload));

    if let Some(r) = a.destroy() {
        assert_eq!(r.target, 0x53);
        log.push(Observed::Release(r.context));
    }

    let expected = vec![
        Observed::Success(42, "a".to_string(), "b".to_string()),
        Observed::Error(42, "c".to_string()),
        Observed::Release(42),
    ];
    assert_eq!(log, expected);
}
