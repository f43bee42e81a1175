use devbridge::device::{classify, devices_from_serials, find_device, Device, DeviceState};

fn serials(list: &[&str]) -> Vec<String> {
    list.iter().map(|s| s.to_string()).collect()
}

#[test]
fn list_with_no_devices_is_empty() {
    let devices = devices_from_serials(Vec::new());
    assert_eq!(devices.len(), 0);
}

#[test]
fn classify_plain_serial_as_device() {
    assert!(classify("ABC123") == DeviceState::Device);
}

#[test]
fn classify_prefixed_serial_as_recovery() {
    assert!(classify("BOOT-ABC123") == DeviceState::Recovery);
}

#[test]
fn classify_prefix_must_lead() {
    assert!(classify("XBOOT-ABC123") == DeviceState::Device);
    assert!(classify("boot-abc") == DeviceState::Device);
    assert!(classify("BOOT") == DeviceState::Device);
}

#[test]
fn devices_keep_serials_and_states() {
    let devices = devices_from_serials(serials(&["ABC123", "BOOT-XYZ"]));
    assert_eq!(devices.len(), 2);
    assert_eq!(devices[0].identifier, "ABC123");
    assert!(devices[0].state == DeviceState::Device);
    assert_eq!(devices[1].identifier, "BOOT-XYZ");
    assert!(devices[1].state == DeviceState::Recovery);
}

#[test]
fn identifiers_equal_iff_serials_equal() {
    let devices = devices_from_serials(serials(&["S1", "S2", "S1"]));
    assert_eq!(devices[0].identifier, devices[2].identifier);
    assert_ne!(devices[0].identifier, devices[1].identifier);
}

#[test]
fn find_returns_first_match() {
    let devices = devices_from_serials(serials(&["A", "B", "A"]));
    let found = find_device(devices, "B").expect("device B is attached");
    assert_eq!(found.identifier, "B");
}

#[test]
fn find_absent_device_returns_none() {
    let devices = devices_from_serials(serials(&["A", "B"]));
    assert!(find_device(devices, "C").is_none());
}

#[test]
fn device_equality_is_by_value() {
    let a = Device {
        identifier: "ABC".to_string(),
        state: DeviceState::Device,
    };
    let b = Device {
        identifier: "ABC".to_string(),
        state: DeviceState::Device,
    };
    let c = Device {
        identifier: "ABC".to_string(),
        state: DeviceState::Recovery,
    };
    assert!(a == b);
    assert!(a != c);
}
