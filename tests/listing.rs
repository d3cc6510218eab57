use hid_devices::{get_hid_devices, list_devices, records_from, to_record};
use hid_devices::{Descriptor, DeviceInfo, EnumerationError, Field};

fn descriptor(
    path: Option<&str>,
    vendor_id: u16,
    product_id: u16,
    product: Option<&str>,
    manufacturer: Option<&str>,
) -> Descriptor {
    Descriptor {
        path: path.map(String::from),
        vendor_id,
        product_id,
        product: product.map(String::from),
        manufacturer: manufacturer.map(String::from),
    }
}

fn mouse() -> Descriptor {
    descriptor(Some("/dev/hidraw0"), 0x046D, 0xC52B, Some("Test Mouse"), Some("Logitech"))
}

fn same_record(a: &DeviceInfo, b: &DeviceInfo) -> bool {
    a.product_name == b.product_name
        && a.path == b.path
        && a.vendor_id == b.vendor_id
        && a.product_id == b.product_id
        && a.vendor_name == b.vendor_name
}

#[test]
fn field_fidelity() {
    let r = to_record(&mouse()).unwrap();
    assert_eq!(r.product_name, "Test Mouse");
    assert_eq!(r.vendor_id, 0x046D);
    assert_eq!(r.product_id, 0xC52B);
    assert_eq!(r.vendor_name, "Logitech");
    assert_eq!(r.path, "/dev/hidraw0");
    assert!(!r.path.is_empty());
}

#[test]
fn missing_manufacturer_gives_empty_vendor_name() {
    let d = descriptor(Some("/dev/hidraw3"), 0x1234, 0x5678, Some("Pad"), None);
    let r = to_record(&d).unwrap();
    assert_eq!(r.vendor_name, "");
    assert_eq!(r.product_name, "Pad");
}

#[test]
fn missing_product_is_a_field_error() {
    let d = descriptor(Some("/dev/hidraw3"), 1, 2, None, Some("Acme"));
    assert!(matches!(to_record(&d), Err(Field::ProductName)));
}

#[test]
fn missing_path_is_a_field_error() {
    let d = descriptor(None, 1, 2, Some("Pad"), Some("Acme"));
    assert!(matches!(to_record(&d), Err(Field::Path)));
}

#[test]
fn product_is_checked_before_path() {
    let d = descriptor(None, 1, 2, None, None);
    assert!(matches!(to_record(&d), Err(Field::ProductName)));
}

#[test]
fn empty_snapshot_lists_nothing() {
    let v = list_devices(Ok(Vec::new())).unwrap();
    assert!(v.is_empty());
    assert!(records_from(&Vec::new()).unwrap().is_empty());
}

#[test]
fn two_devices_one_without_manufacturer() {
    let ds = vec![mouse(), descriptor(Some("/dev/hidraw1"), 0x045E, 0x0750, Some("Keyboard"), None)];
    let v = list_devices(Ok(ds)).unwrap();
    assert_eq!(v.len(), 2);
    assert_eq!(v[0].vendor_id, 0x046D);
    assert_eq!(v[0].product_id, 0xC52B);
    assert_eq!(v[0].vendor_name, "Logitech");
    assert_eq!(v[1].vendor_id, 0x045E);
    assert_eq!(v[1].product_id, 0x0750);
    assert_eq!(v[1].vendor_name, "");
    assert_eq!(v[1].product_name, "Keyboard");
    assert_eq!(v[1].path, "/dev/hidraw1");
}

#[test]
fn subsystem_failure_carries_its_message() {
    let e = list_devices(Err(String::from("no backend"))).unwrap_err();
    assert!(matches!(&e, EnumerationError::SubsystemUnavailable(m) if m == "no backend"));
    assert!(e.message().contains("no backend"));
    assert_eq!(e.message(), "HID API error: no backend");
}

#[test]
fn one_device_without_product_fails_the_whole_listing() {
    let ds = vec![mouse(), descriptor(Some("/dev/hidraw1"), 3, 4, None, Some("Acme")), mouse()];
    let e = records_from(&ds).unwrap_err();
    assert!(matches!(e, EnumerationError::FieldExtractionFailure { index: 1, field: Field::ProductName }));
    assert_eq!(e.message(), "HID device has no product name");
}

#[test]
fn first_failing_device_is_reported() {
    let ds = vec![
        mouse(),
        descriptor(None, 3, 4, Some("Pad"), None),
        descriptor(Some("/dev/hidraw2"), 5, 6, None, None),
    ];
    let e = records_from(&ds).unwrap_err();
    assert!(matches!(e, EnumerationError::FieldExtractionFailure { index: 1, field: Field::Path }));
    assert_eq!(e.message(), "HID device path is not valid text");
}

#[test]
fn same_snapshot_gives_same_records() {
    let ds = vec![mouse(), descriptor(Some("/dev/hidraw1"), 7, 8, Some("Stick"), None)];
    let a = records_from(&ds).unwrap();
    let b = records_from(&ds).unwrap();
    assert_eq!(a.len(), b.len());
    for i in 0..a.len() {
        assert!(same_record(&a[i], &b[i]));
    }
}

#[test]
fn host_listing_twice_gives_the_same_shape() {
    match (get_hid_devices(), get_hid_devices()) {
        (Ok(a), Ok(b)) => assert_eq!(a.len(), b.len()),
        (Err(e), _) | (_, Err(e)) => assert!(!e.message().is_empty()),
    }
}
