use nanonet::address::encode_address;
use nanonet::ClientHandle;
use nanonet::Event;
use nanonet::EventQueue;
use nanonet::NanoNetError;
use nanonet::RegistrationSlot;

#[test]
fn encode_address_appends_the_terminator() {
    assert_eq!(encode_address("a"), Ok(vec![97u8, 0]));
    assert_eq!(encode_address("127.0.0.1"), Ok(b"127.0.0.1\0".to_vec()));
}

#[test]
fn encode_address_accepts_the_empty_address() {
    assert_eq!(encode_address(""), Ok(vec![0u8]));
}

#[test]
fn encode_address_rejects_an_embedded_terminator() {
    assert_eq!(encode_address("a\u{0}b"), Err(NanoNetError::AddressEncodingError));
    assert_eq!(encode_address("\u{0}"), Err(NanoNetError::AddressEncodingError));
}

#[test]
fn client_handle_returns_its_token() {
    let handle = ClientHandle::new(42);
    assert_eq!(handle.token(), 42);
    assert_eq!(ClientHandle::new(0).token(), 0);
}

#[test]
fn event_queue_is_first_in_first_out() {
    let mut queue = EventQueue::new();
    assert_eq!(queue.len(), 0);
    assert!(queue.recv().is_none());
    queue.send(Event { handle: ClientHandle::new(1), data: vec![1] });
    queue.send(Event { handle: ClientHandle::new(2), data: vec![2] });
    assert_eq!(queue.len(), 2);
    assert_eq!(queue.recv().unwrap().data, vec![1]);
    assert_eq!(queue.recv().unwrap().data, vec![2]);
    assert!(queue.recv().is_none());
}

#[test]
fn slot_starts_empty_and_counts_drops() {
    let mut slot = RegistrationSlot::new();
    assert!(!slot.registered());
    assert_eq!(slot.dropped(), 0);
    slot.record_dropped();
    slot.record_dropped();
    assert_eq!(slot.dropped(), 2);
    slot.register();
    assert!(slot.registered());
    slot.clear();
    assert!(!slot.registered());
    assert_eq!(slot.dropped(), 2);
}

#[test]
fn error_messages_name_the_cause() {
    assert_eq!(
        NanoNetError::AddressEncodingError.message(),
        "address contains an embedded terminator"
    );
    assert_eq!(
        NanoNetError::InitializationError(5).message(),
        "Failed to initialize C server core with error code: 5"
    );
    assert_eq!(
        NanoNetError::InitializationError(0).message(),
        "Failed to initialize C server core with error code: 0"
    );
    assert_eq!(
        NanoNetError::InitializationError(-12).message(),
        "Failed to initialize C server core with error code: -12"
    );
    assert_eq!(
        NanoNetError::InitializationError(i32::MIN).message(),
        "Failed to initialize C server core with error code: -2147483648"
    );
    assert_eq!(
        NanoNetError::InitializationError(i32::MAX).message(),
        "Failed to initialize C server core with error code: 2147483647"
    );
}
