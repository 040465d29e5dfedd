use nanonet::LifecycleState;
use nanonet::NanoNet;
use nanonet::NanoNetError;

fn ready_bridge(addr: &str, port: u16) -> NanoNet {
    let pending = NanoNet::new(addr, port).unwrap();
    pending.complete(0).unwrap()
}

#[test]
fn ordered_delivery_scenario() {
    // Construct, simulate three trampoline calls from one thread, and let the
    // dispatch loop hand the events to a handler that appends to a log.
    let mut net = ready_bridge("127.0.0.1", 9000);
    net.notify(1, b"a");
    net.notify(2, b"bb");
    net.notify(3, b"ccc");
    let mut log: Vec<Vec<u8>> = Vec::new();
    while let Some(event) = net.next_event() {
        log.push(event.data);
    }
    assert_eq!(log, vec![b"a".to_vec(), b"bb".to_vec(), b"ccc".to_vec()]);
}

#[test]
fn delivery_keeps_tokens_in_order() {
    let mut net = ready_bridge("127.0.0.1", 9000);
    net.notify(10, b"x");
    net.notify(20, b"y");
    let first = net.next_event().unwrap();
    let second = net.next_event().unwrap();
    assert_eq!(first.handle.token(), 10);
    assert_eq!(second.handle.token(), 20);
    assert!(net.next_event().is_none());
}

#[test]
fn address_with_embedded_terminator_is_rejected() {
    // No foreign initialization can happen: without a request value there is
    // nothing to hand to the foreign call.
    let result = NanoNet::new("127.0\u{0}.1", 9000);
    assert!(matches!(result, Err(NanoNetError::AddressEncodingError)));
}

#[test]
fn failed_initialization_surfaces_the_status() {
    let pending = NanoNet::new("127.0.0.1", 9000).unwrap();
    let result = pending.complete(5);
    match result {
        Err(NanoNetError::InitializationError(code)) => assert_eq!(code, 5),
        _ => panic!("expected an initialization error carrying status 5"),
    }
}

#[test]
fn notify_after_shutdown_is_a_silent_drop() {
    let mut net = ready_bridge("127.0.0.1", 9000);
    net.run();
    net.shutdown();
    net.notify(1, b"late");
    net.notify(2, b"later");
    assert_eq!(net.pending_len(), 0);
    assert_eq!(net.dropped_notifications(), 2);
    assert!(net.next_event().is_none());
}

#[test]
fn copy_isolation_from_the_caller_buffer() {
    // Mutate and free the original buffer right after the trampoline returns;
    // the handler must still see the original bytes.
    let mut net = ready_bridge("127.0.0.1", 9000);
    let mut buffer = vec![1u8, 2, 3];
    net.notify(7, &buffer);
    buffer[0] = 99;
    buffer.clear();
    drop(buffer);
    let event = net.next_event().unwrap();
    assert_eq!(event.data, vec![1u8, 2, 3]);
    assert_eq!(event.handle.token(), 7);
}

#[test]
fn lifecycle_follows_ready_running_shutdown() {
    let mut net = ready_bridge("localhost", 80);
    assert_eq!(net.state(), LifecycleState::Ready);
    assert!(net.producer_registered());
    net.run();
    assert_eq!(net.state(), LifecycleState::Running);
    net.run();
    assert_eq!(net.state(), LifecycleState::Running);
    net.shutdown();
    assert_eq!(net.state(), LifecycleState::Shutdown);
    assert!(!net.producer_registered());
}

#[test]
fn pending_events_survive_shutdown() {
    let mut net = ready_bridge("127.0.0.1", 9000);
    net.notify(1, b"early");
    net.notify(2, b"still early");
    net.run();
    net.shutdown();
    let first = net.next_event().unwrap();
    assert_eq!(first.data, b"early".to_vec());
    let second = net.next_event().unwrap();
    assert_eq!(second.data, b"still early".to_vec());
    assert!(net.next_event().is_none());
}

#[test]
fn empty_payload_is_delivered() {
    let mut net = ready_bridge("127.0.0.1", 9000);
    net.notify(4, b"");
    let event = net.next_event().unwrap();
    assert_eq!(event.handle.token(), 4);
    assert!(event.data.is_empty());
}

#[test]
fn fresh_bridge_has_nothing_pending_or_dropped() {
    let mut net = ready_bridge("127.0.0.1", 9000);
    assert_eq!(net.pending_len(), 0);
    assert_eq!(net.dropped_notifications(), 0);
    assert!(net.next_event().is_none());
}
