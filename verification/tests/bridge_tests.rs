use btmanager::{decode_device_found, decode_error, Event, FfiErrorCode};

#[test]
fn null_name_decodes_to_empty_string() {
    let event = decode_device_found(0x1234, None, false, false, -70, 0);
    match event {
        Event::DeviceObserved(d) => {
            assert_eq!(d.address, 0x1234);
            assert_eq!(d.name, "");
            assert!(!d.connected);
            assert!(!d.authenticated);
            assert_eq!(d.rssi, -70);
            assert_eq!(d.cod, 0);
        }
        _ => panic!("expected a device observation"),
    }
}

#[test]
fn named_payload_keeps_every_field() {
    let event = decode_device_found(
        0xAABBCC,
        Some(String::from("Speaker")),
        true,
        true,
        -42,
        0x0020_0000,
    );
    match event {
        Event::DeviceObserved(d) => {
            assert_eq!(d.address, 0xAABBCC);
            assert_eq!(d.name, "Speaker");
            assert!(d.connected);
            assert!(d.authenticated);
            assert_eq!(d.rssi, -42);
            assert_eq!(d.cod, 0x0020_0000);
        }
        _ => panic!("expected a device observation"),
    }
}

#[test]
fn success_on_error_path_emits_no_event() {
    let (text, event) = decode_error(FfiErrorCode::Success, None);
    assert_eq!(text, "Error code: Success");
    assert!(event.is_none());
}

#[test]
fn error_without_message_formats_the_code_alone() {
    let (text, event) = decode_error(FfiErrorCode::OperationFailed, None);
    assert_eq!(text, "Error code: OperationFailed");
    match event {
        Some(Event::Error(m)) => assert_eq!(m, "Error code: OperationFailed"),
        _ => panic!("expected an error event"),
    }
}

#[test]
fn error_with_message_formats_code_and_message() {
    let (text, event) = decode_error(
        FfiErrorCode::ConnectionFailed,
        Some(String::from("link lost")),
    );
    assert_eq!(text, "Error ConnectionFailed: link lost");
    match event {
        Some(Event::Error(m)) => assert_eq!(m, "Error ConnectionFailed: link lost"),
        _ => panic!("expected an error event"),
    }
}
