use btmanager::{
    apply_events, decode_device_found, AppError, DeviceDirectory, EventQueue, FfiErrorCode,
    SessionController,
};

#[test]
fn discovery_then_connect_reaches_a_connected_snapshot() {
    let mut session = SessionController::new();
    let mut queue = EventQueue::new();
    let mut directory = DeviceDirectory::new();

    // initialize() succeeds.
    assert!(session.initialize_result(FfiErrorCode::Success, String::new()).is_ok());

    // start_scan() succeeds and yields ScanStarted.
    assert!(session.start_scan_result(FfiErrorCode::Success, String::new(), &mut queue).is_ok());

    // A device-found callback arrives for 0xAABBCC, "Speaker", not connected.
    queue.emit(decode_device_found(
        0xAABBCC,
        Some(String::from("Speaker")),
        false,
        false,
        -55,
        0x0020_0000,
    ));

    let anomalies = apply_events(&mut directory, &mut session, queue.drain());
    assert!(anomalies.is_empty());
    assert!(session.is_scanning());

    let snapshot = directory.snapshot();
    assert_eq!(snapshot.len(), 1);
    assert_eq!(snapshot[0].address, 0xAABBCC);
    assert_eq!(snapshot[0].name, "Speaker");
    assert!(!snapshot[0].connected);

    // connect(0xAABBCC) succeeds; the synthesized Connected event lands.
    assert!(
        session.connect_result(0xAABBCC, FfiErrorCode::Success, String::new(), &mut queue).is_ok()
    );
    let anomalies = apply_events(&mut directory, &mut session, queue.drain());
    assert!(anomalies.is_empty());

    let snapshot = directory.snapshot();
    assert_eq!(snapshot.len(), 1);
    assert_eq!(snapshot[0].address, 0xAABBCC);
    assert_eq!(snapshot[0].name, "Speaker");
    assert!(snapshot[0].connected);
}

#[test]
fn failed_connect_returns_the_distinguished_error_and_keeps_the_record_disconnected() {
    let mut session = SessionController::new();
    let mut queue = EventQueue::new();
    let mut directory = DeviceDirectory::new();

    assert!(session.start_scan_result(FfiErrorCode::Success, String::new(), &mut queue).is_ok());
    queue.emit(decode_device_found(
        0x99,
        Some(String::from("Earbuds")),
        false,
        false,
        -60,
        0,
    ));
    let anomalies = apply_events(&mut directory, &mut session, queue.drain());
    assert!(anomalies.is_empty());

    // The native core refuses the connection.
    let outcome = session.connect_result(
        0x99,
        FfiErrorCode::ConnectionFailed,
        String::from("pairing rejected"),
        &mut queue,
    );
    match outcome {
        Err(AppError::ConnectionFailed(m)) => assert_eq!(m, "pairing rejected"),
        _ => panic!("expected the distinguished connection failure"),
    }

    // No event was synthesized, so the record stays disconnected.
    let anomalies = apply_events(&mut directory, &mut session, queue.drain());
    assert!(anomalies.is_empty());
    let record = directory.get(0x99).unwrap();
    assert!(!record.connected);
}

#[test]
fn connect_twice_on_a_connected_known_address_changes_nothing() {
    let mut session = SessionController::new();
    let mut queue = EventQueue::new();
    let mut directory = DeviceDirectory::new();

    queue.emit(decode_device_found(
        0x77,
        Some(String::from("Headset")),
        false,
        true,
        -48,
        0x0020_0000,
    ));
    assert!(
        session.connect_result(0x77, FfiErrorCode::Success, String::new(), &mut queue).is_ok()
    );
    let anomalies = apply_events(&mut directory, &mut session, queue.drain());
    assert!(anomalies.is_empty());
    let before = directory.snapshot();
    assert!(before[0].connected);

    // Second connect on the already-connected, already-known address.
    assert!(
        session.connect_result(0x77, FfiErrorCode::Success, String::new(), &mut queue).is_ok()
    );
    let anomalies = apply_events(&mut directory, &mut session, queue.drain());
    assert!(anomalies.is_empty());

    let after = directory.snapshot();
    assert_eq!(after.len(), before.len());
    assert_eq!(after[0].address, before[0].address);
    assert_eq!(after[0].name, before[0].name);
    assert_eq!(after[0].connected, before[0].connected);
    assert_eq!(after[0].authenticated, before[0].authenticated);
    assert_eq!(after[0].rssi, before[0].rssi);
    assert_eq!(after[0].cod, before[0].cod);
}

#[test]
fn anomalous_link_events_in_a_batch_are_reported_not_fatal() {
    let mut session = SessionController::new();
    let mut queue = EventQueue::new();
    let mut directory = DeviceDirectory::new();

    queue.emit(btmanager::Event::Connected(0xBAD));
    queue.emit(decode_device_found(0x1, Some(String::from("Real")), false, false, -60, 0));
    queue.emit(btmanager::Event::Connected(0x1));

    let anomalies = apply_events(&mut directory, &mut session, queue.drain());
    assert_eq!(anomalies.len(), 1);
    assert!(matches!(anomalies[0], AppError::AnomalousEvent(0xBAD)));
    assert_eq!(directory.len(), 1);
    assert!(directory.get(0x1).unwrap().connected);
    assert!(directory.get(0xBAD).is_none());
}

#[test]
fn late_observations_after_stop_scan_are_still_applied() {
    let mut session = SessionController::new();
    let mut queue = EventQueue::new();
    let mut directory = DeviceDirectory::new();

    assert!(session.start_scan_result(FfiErrorCode::Success, String::new(), &mut queue).is_ok());
    assert!(session.stop_scan_result(FfiErrorCode::Success, String::new(), &mut queue).is_ok());
    // A callback the native layer had already dispatched lands late.
    queue.emit(decode_device_found(0x5, Some(String::from("Late")), false, false, -72, 0));

    let anomalies = apply_events(&mut directory, &mut session, queue.drain());
    assert!(anomalies.is_empty());
    assert!(!session.is_scanning());
    assert_eq!(directory.len(), 1);
    assert_eq!(directory.get(0x5).unwrap().name, "Late");
}
