use nusb::enumeration::{
    device_info, list_buses, list_devices, WebusbAlternate, WebusbDevice, WebusbInterface,
};

fn alternate(class: u8, name: Option<&str>) -> WebusbAlternate {
    WebusbAlternate {
        interface_class: class,
        interface_subclass: class + 1,
        interface_protocol: class + 2,
        interface_name: name.map(|s| s.to_string()),
    }
}

fn sample_device() -> WebusbDevice {
    WebusbDevice {
        vendor_id: 0x1234,
        product_id: 0x5678,
        usb_version_major: 2,
        usb_version_minor: 0x10,
        device_class: 0xef,
        device_subclass: 2,
        device_protocol: 1,
        manufacturer_name: Some("Maker".to_string()),
        product_name: Some("Gadget".to_string()),
        serial_number: None,
        configurations: vec![
            vec![
                WebusbInterface {
                    interface_number: 0,
                    alternates: vec![alternate(3, Some("first")), alternate(9, None)],
                },
                WebusbInterface {
                    interface_number: 1,
                    alternates: vec![alternate(10, None)],
                },
            ],
            vec![WebusbInterface {
                interface_number: 0,
                alternates: vec![alternate(20, Some("second"))],
            }],
        ],
    }
}

#[test]
fn device_info_fields() {
    let info = device_info(&sample_device());
    assert_eq!(info.bus_id, "webusb");
    assert_eq!(info.device_address, 0);
    assert_eq!(info.vendor_id, 0x1234);
    assert_eq!(info.product_id, 0x5678);
    assert_eq!(info.device_version, 0x0210);
    assert_eq!(info.class, 0xef);
    assert_eq!(info.subclass, 2);
    assert_eq!(info.protocol, 1);
    assert_eq!(info.speed, None);
    assert_eq!(info.manufacturer_string.as_deref(), Some("Maker"));
    assert_eq!(info.product_string.as_deref(), Some("Gadget"));
    assert_eq!(info.serial_number, None);
    assert!(info.port_chain.is_empty());
    assert_eq!(info.max_packet_size_0, 255);
}

#[test]
fn interfaces_take_first_alternate_of_each_configuration() {
    let info = device_info(&sample_device());
    let got: Vec<(u8, u8, u8, u8, Option<String>)> = info
        .interfaces
        .iter()
        .map(|i| {
            (
                i.interface_number,
                i.class,
                i.subclass,
                i.protocol,
                i.interface_string.clone(),
            )
        })
        .collect();
    assert_eq!(
        got,
        vec![
            (0, 3, 4, 5, Some("first".to_string())),
            (1, 10, 11, 12, None),
            (0, 20, 21, 22, Some("second".to_string())),
        ]
    );
}

#[test]
fn list_devices_keeps_order() {
    let mut other = sample_device();
    other.vendor_id = 0x1;
    other.configurations = vec![];
    let infos = list_devices(&vec![sample_device(), other]);
    assert_eq!(infos.len(), 2);
    assert_eq!(infos[0].vendor_id, 0x1234);
    assert_eq!(infos[1].vendor_id, 0x1);
    assert!(infos[1].interfaces.is_empty());
}

#[test]
fn list_devices_of_nothing() {
    assert!(list_devices(&vec![]).is_empty());
}

#[test]
fn no_buses() {
    assert!(list_buses().unwrap().is_empty());
}
