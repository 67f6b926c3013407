use nusb::device::{find_device, select_usb_scope, DeviceId, DeviceIdCounter, UsbScope};
use nusb::enumeration::{device_info, WebusbDevice};
use nusb::hotplug::WebusbHotplugWatch;

fn device(vendor_id: u16, product_id: u16, serial: Option<&str>) -> WebusbDevice {
    WebusbDevice {
        vendor_id,
        product_id,
        usb_version_major: 2,
        usb_version_minor: 0,
        device_class: 0,
        device_subclass: 0,
        device_protocol: 0,
        manufacturer_name: None,
        product_name: None,
        serial_number: serial.map(|s| s.to_string()),
        configurations: vec![],
    }
}

#[test]
fn fresh_ids_count_up_from_one() {
    let mut counter = DeviceIdCounter::new();
    let a = DeviceId::from_device(&mut counter, None);
    let b = DeviceId::from_device(&mut counter, None);
    assert_ne!(a, b);
    let again = DeviceId::from_device(&mut counter, Some(1));
    assert_eq!(again, a);
    let c = DeviceId::from_device(&mut counter, None);
    assert_ne!(c, a);
    assert_ne!(c, b);
    assert_eq!(DeviceId::from_device(&mut counter, Some(3)), c);
}

#[test]
fn stored_id_is_kept_and_counter_untouched() {
    let mut counter = DeviceIdCounter::new();
    let stored = DeviceId::from_device(&mut counter, Some(42));
    assert_eq!(stored, DeviceId::from_device(&mut DeviceIdCounter::new(), Some(42)));
    let fresh = DeviceId::from_device(&mut counter, None);
    assert_eq!(fresh, DeviceId::from_device(&mut DeviceIdCounter::new(), Some(1)));
}

#[test]
fn find_device_matches_vendor_product_and_serial() {
    let devices = vec![
        device(1, 2, Some("A")),
        device(1, 2, Some("B")),
        device(1, 2, None),
        device(1, 2, Some("B")),
    ];
    assert_eq!(find_device(&devices, &device_info(&device(1, 2, Some("B")))), Some(1));
    assert_eq!(find_device(&devices, &device_info(&device(1, 2, None))), Some(2));
    assert_eq!(find_device(&devices, &device_info(&device(1, 3, None))), None);
    assert_eq!(find_device(&devices, &device_info(&device(1, 2, Some("C")))), None);
    assert_eq!(find_device(&vec![], &device_info(&device(1, 2, None))), None);
}

#[test]
fn usb_scope_prefers_window() {
    assert_eq!(select_usb_scope(true, true), Some(UsbScope::Window));
    assert_eq!(select_usb_scope(true, false), Some(UsbScope::Window));
    assert_eq!(select_usb_scope(false, true), Some(UsbScope::Worker));
    assert_eq!(select_usb_scope(false, false), None);
}

#[test]
fn hotplug_watch_never_reports() {
    let mut watch = WebusbHotplugWatch::new().unwrap();
    assert!(watch.poll_next().is_none());
    assert!(watch.poll_next().is_none());
}

#[test]
fn second_lookup_with_stored_id_keeps_id_and_counter() {
    let mut counter = DeviceIdCounter::new();
    let first = DeviceId::from_device(&mut counter, None);
    let after_first = counter.last();
    let second = DeviceId::from_device(&mut counter, Some(after_first));
    assert_eq!(first, second);
    assert_eq!(counter.last(), after_first);
}
