use ucar_core::hello::{payload_state, HelloMessage, PayloadState};

#[test]
fn message_without_payload_is_missing() {
    assert_eq!(payload_state(None), PayloadState::Missing);
}

#[test]
fn payload_of_no_bytes_is_empty() {
    let bytes: Vec<u8> = Vec::new();
    assert_eq!(payload_state(Some(&bytes)), PayloadState::Empty);
}

#[test]
fn payload_with_bytes_is_present() {
    assert_eq!(payload_state(Some(&[0u8])), PayloadState::Present);
    assert_eq!(payload_state(Some(b"{\"counter\":1}")), PayloadState::Present);
}

#[test]
fn hello_message_holds_its_fields() {
    let hello = HelloMessage {
        message: "Hello World from ucar_pub! Message #3".to_string(),
        timestamp: 1_700_000_000,
        counter: 3,
    };
    assert_eq!(hello.clone(), hello);
    assert_eq!(hello.counter, 3);
    assert_eq!(hello.timestamp, 1_700_000_000);
    assert_eq!(hello.message, "Hello World from ucar_pub! Message #3");
}
