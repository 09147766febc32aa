use btmanager::{AppError, BluetoothDevice, DeviceDirectory, Event, EventQueue};

fn device(address: u64, name: &str, connected: bool, rssi: i32) -> BluetoothDevice {
    BluetoothDevice {
        address,
        name: String::from(name),
        connected,
        authenticated: false,
        rssi,
        cod: 0,
    }
}

#[test]
fn observations_for_one_address_keep_one_record_with_last_fields() {
    let mut dir = DeviceDirectory::new();
    assert!(dir.apply(Event::DeviceObserved(device(7, "first", false, -80))).is_ok());
    assert!(dir.apply(Event::DeviceObserved(device(7, "second", false, -60))).is_ok());
    assert!(dir.apply(Event::DeviceObserved(device(7, "third", true, -40))).is_ok());
    assert_eq!(dir.len(), 1);
    let snap = dir.snapshot();
    assert_eq!(snap.len(), 1);
    assert_eq!(snap[0].address, 7);
    assert_eq!(snap[0].name, "third");
    assert!(snap[0].connected);
    assert_eq!(snap[0].rssi, -40);
}

#[test]
fn distinct_addresses_keep_distinct_records() {
    let mut dir = DeviceDirectory::new();
    assert!(dir.apply(Event::DeviceObserved(device(1, "one", false, -50))).is_ok());
    assert!(dir.apply(Event::DeviceObserved(device(2, "two", false, -55))).is_ok());
    assert!(dir.apply(Event::DeviceObserved(device(1, "one again", false, -45))).is_ok());
    assert_eq!(dir.len(), 2);
    assert_eq!(dir.get(1).unwrap().name, "one again");
    assert_eq!(dir.get(2).unwrap().name, "two");
}

#[test]
fn connect_updates_the_flag_in_place() {
    let mut dir = DeviceDirectory::new();
    assert!(dir.apply(Event::DeviceObserved(device(9, "headset", false, -60))).is_ok());
    assert!(dir.apply(Event::Connected(9)).is_ok());
    let record = dir.get(9).unwrap();
    assert!(record.connected);
    assert_eq!(record.name, "headset");
    assert_eq!(record.rssi, -60);
    assert!(dir.apply(Event::Disconnected(9)).is_ok());
    assert!(!dir.get(9).unwrap().connected);
}

#[test]
fn reapplying_connect_leaves_the_record_unchanged() {
    let mut dir = DeviceDirectory::new();
    assert!(dir.apply(Event::DeviceObserved(device(5, "keyboard", false, -58))).is_ok());
    assert!(dir.apply(Event::Connected(5)).is_ok());
    let before = dir.snapshot();
    assert!(dir.apply(Event::Connected(5)).is_ok());
    let after = dir.snapshot();
    assert_eq!(before.len(), after.len());
    assert_eq!(before[0].address, after[0].address);
    assert_eq!(before[0].name, after[0].name);
    assert_eq!(before[0].connected, after[0].connected);
    assert_eq!(before[0].authenticated, after[0].authenticated);
    assert_eq!(before[0].rssi, after[0].rssi);
    assert_eq!(before[0].cod, after[0].cod);
}

#[test]
fn connect_for_unknown_address_is_reported_and_skipped() {
    let mut dir = DeviceDirectory::new();
    let outcome = dir.apply(Event::Connected(0xDEAD));
    match outcome {
        Err(AppError::AnomalousEvent(address)) => assert_eq!(address, 0xDEAD),
        _ => panic!("expected the anomaly to be reported"),
    }
    assert_eq!(dir.len(), 0);
    assert!(dir.get(0xDEAD).is_none());
}

#[test]
fn disconnect_for_unknown_address_is_reported_and_skipped() {
    let mut dir = DeviceDirectory::new();
    let outcome = dir.apply(Event::Disconnected(3));
    assert!(matches!(outcome, Err(AppError::AnomalousEvent(3))));
    assert_eq!(dir.len(), 0);
}

#[test]
fn scan_and_error_events_leave_the_directory_alone() {
    let mut dir = DeviceDirectory::new();
    assert!(dir.apply(Event::DeviceObserved(device(4, "mouse", false, -66))).is_ok());
    assert!(dir.apply(Event::ScanStarted).is_ok());
    assert!(dir.apply(Event::ScanStopped).is_ok());
    assert!(dir.apply(Event::Error(String::from("late diagnostic"))).is_ok());
    assert_eq!(dir.len(), 1);
    assert_eq!(dir.get(4).unwrap().name, "mouse");
}

#[test]
fn channel_preserves_emission_order_per_address() {
    let mut queue = EventQueue::new();
    queue.emit(Event::DeviceObserved(device(11, "ears", false, -70)));
    queue.emit(Event::Connected(11));
    let events = queue.drain();
    assert_eq!(events.len(), 2);
    assert!(queue.is_empty());

    let mut dir = DeviceDirectory::new();
    let mut seen_connected = Vec::new();
    for event in events {
        let _ = dir.apply(event);
        seen_connected.push(dir.get(11).map(|d| d.connected));
    }
    // The observation's effect (known, disconnected) is visible strictly
    // before the connect's effect.
    assert_eq!(seen_connected, vec![Some(false), Some(true)]);
}
