use pixoo_status::device::{device_line, device_listing, select_device, DeviceRecord};
use pixoo_status::error::BridgeError;

fn record(id: &str, name: &str, ip: &str) -> DeviceRecord {
    DeviceRecord {
        device_id: id.to_string(),
        device_name: name.to_string(),
        device_private_ip: ip.to_string(),
    }
}

#[test]
fn selects_first_device_without_requested_id() {
    let devices = vec![record("A", "Pixoo-A", "10.0.0.5")];
    let selected = select_device(&devices, None).unwrap();
    assert_eq!(selected.device_id, "A");
    assert_eq!(selected.device_name, "Pixoo-A");
    assert_eq!(selected.device_private_ip, "10.0.0.5");
}

#[test]
fn selects_first_of_many_without_requested_id() {
    let devices = vec![
        record("A", "Pixoo-A", "10.0.0.5"),
        record("B", "Pixoo-B", "10.0.0.6"),
    ];
    let selected = select_device(&devices, None).unwrap();
    assert_eq!(selected.device_id, "A");
}

#[test]
fn empty_discovery_fails_selection() {
    let devices: Vec<DeviceRecord> = Vec::new();
    let outcome = select_device(&devices, None);
    assert!(matches!(outcome, Err(BridgeError::NoDevices)));
}

#[test]
fn selects_requested_device_by_id() {
    let devices = vec![
        record("A", "Pixoo-A", "10.0.0.5"),
        record("B", "Pixoo-B", "10.0.0.6"),
    ];
    let selected = select_device(&devices, Some("B")).unwrap();
    assert_eq!(selected.device_id, "B");
    assert_eq!(selected.device_private_ip, "10.0.0.6");
}

#[test]
fn requested_id_absent_fails_selection() {
    let devices = vec![
        record("A", "Pixoo-A", "10.0.0.5"),
        record("B", "Pixoo-B", "10.0.0.6"),
    ];
    let outcome = select_device(&devices, Some("C"));
    match outcome {
        Err(BridgeError::DeviceNotFound { device_id }) => assert_eq!(device_id, "C"),
        _ => panic!("expected DeviceNotFound"),
    }
}

#[test]
fn requested_id_absent_fails_on_empty_list_too() {
    let devices: Vec<DeviceRecord> = Vec::new();
    let outcome = select_device(&devices, Some("A"));
    assert!(matches!(
        outcome,
        Err(BridgeError::DeviceNotFound { device_id }) if device_id == "A"
    ));
}

#[test]
fn duplicate_requested_id_selects_first_occurrence() {
    let devices = vec![
        record("A", "Pixoo-A", "10.0.0.5"),
        record("B", "Pixoo-B-first", "10.0.0.6"),
        record("B", "Pixoo-B-second", "10.0.0.7"),
    ];
    let selected = select_device(&devices, Some("B")).unwrap();
    assert_eq!(selected.device_name, "Pixoo-B-first");
}

#[test]
fn device_line_formats_one_record() {
    let line = device_line(&record("A", "Pixoo-A", "10.0.0.5"));
    assert_eq!(line, "Device ID: A | Device Name: Pixoo-A | Device IP: 10.0.0.5");
}

#[test]
fn device_listing_lists_every_device() {
    let devices = vec![
        record("A", "Pixoo-A", "10.0.0.5"),
        record("B", "Pixoo-B", "10.0.0.6"),
    ];
    let lines = device_listing(&devices);
    assert_eq!(lines.len(), 2);
    assert_eq!(lines[0], "Device ID: A | Device Name: Pixoo-A | Device IP: 10.0.0.5");
    assert_eq!(lines[1], "Device ID: B | Device Name: Pixoo-B | Device IP: 10.0.0.6");
}

#[test]
fn device_listing_reports_empty_discovery() {
    let devices: Vec<DeviceRecord> = Vec::new();
    let lines = device_listing(&devices);
    assert_eq!(lines, vec!["No devices found.".to_string()]);
}
