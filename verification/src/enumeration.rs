//! Device and bus records built from what the WebUSB API reports.
use vstd::prelude::*;

verus! {

/// Declares `std::io::Error`, the error type of the enumeration and hotplug
/// entry points; the library only carries it through.
#[verifier::external_type_specification]
#[verifier::external_body]
pub struct ExIoError(std::io::Error);

/// Signalling speed of a USB device.
#[derive(Debug, Clone, Copy, PartialEq, Eq, Structural)]
pub enum Speed {
    /// 1.5 Mbit/s.
    Low,
    /// 12 Mbit/s.
    Full,
    /// 480 Mbit/s.
    High,
    /// 5 Gbit/s.
    Super,
    /// 10 Gbit/s.
    SuperPlus,
}

/// Summary of an interface of a device.
#[derive(Debug, Clone)]
pub struct InterfaceInfo {
    /// `bInterfaceNumber`.
    pub interface_number: u8,
    /// `bInterfaceClass`.
    pub class: u8,
    /// `bInterfaceSubClass`.
    pub subclass: u8,
    /// `bInterfaceProtocol`.
    pub protocol: u8,
    /// The interface string, where the device has one.
    pub interface_string: Option<String>,
}

/// Summary of a connected device.
#[derive(Debug, Clone)]
pub struct DeviceInfo {
    /// Identifier of the bus the device is on.
    pub bus_id: String,
    /// Address of the device on its bus.
    pub device_address: u8,
    /// `idVendor`.
    pub vendor_id: u16,
    /// `idProduct`.
    pub product_id: u16,
    /// `bcdDevice`.
    pub device_version: u16,
    /// `bDeviceClass`.
    pub class: u8,
    /// `bDeviceSubClass`.
    pub subclass: u8,
    /// `bDeviceProtocol`.
    pub protocol: u8,
    /// Signalling speed, where known.
    pub speed: Option<Speed>,
    /// Manufacturer string, where the device has one.
    pub manufacturer_string: Option<String>,
    /// Product string, where the device has one.
    pub product_string: Option<String>,
    /// Serial number string, where the device has one.
    pub serial_number: Option<String>,
    /// The interfaces of all configurations of the device.
    pub interfaces: Vec<InterfaceInfo>,
    /// Hub ports from the root hub to the device.
    pub port_chain: Vec<u8>,
    /// `bMaxPacketSize0`.
    pub max_packet_size_0: u8,
}

/// Summary of a USB bus.
#[derive(Debug, Clone)]
pub struct BusInfo {
    /// Identifier of the bus.
    pub bus_id: String,
}

/// An alternate setting of an interface, as a WebUSB `USBAlternateInterface`
/// reports it.
#[derive(Debug, Clone)]
pub struct WebusbAlternate {
    /// `interfaceClass`.
    pub interface_class: u8,
    /// `interfaceSubclass`.
    pub interface_subclass: u8,
    /// `interfaceProtocol`.
    pub interface_protocol: u8,
    /// `interfaceName`.
    pub interface_name: Option<String>,
}

/// An interface of a configuration, as a WebUSB `USBInterface` reports it.
#[derive(Debug, Clone)]
pub struct WebusbInterface {
    /// `interfaceNumber`.
    pub interface_number: u8,
    /// `alternates`, in the order the API lists them.
    pub alternates: Vec<WebusbAlternate>,
}

/// A device, as a WebUSB `USBDevice` reports it.
#[derive(Debug, Clone)]
pub struct WebusbDevice {
    /// `vendorId`.
    pub vendor_id: u16,
    /// `productId`.
    pub product_id: u16,
    /// `usbVersionMajor`.
    pub usb_version_major: u8,
    /// `usbVersionMinor`.
    pub usb_version_minor: u8,
    /// `deviceClass`.
    pub device_class: u8,
    /// `deviceSubclass`.
    pub device_subclass: u8,
    /// `deviceProtocol`.
    pub device_protocol: u8,
    /// `manufacturerName`.
    pub manufacturer_name: Option<String>,
    /// `productName`.
    pub product_name: Option<String>,
    /// `serialNumber`.
    pub serial_number: Option<String>,
    /// The interfaces of each of `configurations`, in order.
    pub configurations: Vec<Vec<WebusbInterface>>,
}

/// Identifier of the single bus that WebUSB devices are reported on.
pub open spec fn webusb_bus_id() -> Seq<char> {
    seq!['w', 'e', 'b', 'u', 's', 'b']
}

/// Every interface of the device has at least one alternate setting.
pub open spec fn has_alternates(d: WebusbDevice) -> bool {
    forall|c: int, i: int|
        0 <= c < d.configurations@.len() && 0 <= i < d.configurations@[c]@.len()
            ==> #[trigger] d.configurations@[c]@[i].alternates@.len() > 0
}

/// The summary of an interface: its number, and the class, subclass,
/// protocol and name of its first alternate setting.
pub open spec fn spec_interface_info(i: WebusbInterface) -> InterfaceInfo {
    InterfaceInfo {
        interface_number: i.interface_number,
        class: i.alternates@[0].interface_class,
        subclass: i.alternates@[0].interface_subclass,
        protocol: i.alternates@[0].interface_protocol,
        interface_string: i.alternates@[0].interface_name,
    }
}

/// The summaries of the interfaces of all the given configurations, one
/// configuration after the other.
pub open spec fn spec_interfaces(configurations: Seq<Vec<WebusbInterface>>) -> Seq<InterfaceInfo>
    decreases configurations.len(),
{
    if configurations.len() == 0 {
        Seq::empty()
    } else {
        spec_interfaces(configurations.drop_last()) + configurations.last()@.map_values(
            |i: WebusbInterface| spec_interface_info(i),
        )
    }
}

/// Number of interfaces over all the given configurations.
pub open spec fn interface_count(configurations: Seq<Vec<WebusbInterface>>) -> nat
    decreases configurations.len(),
{
    if configurations.len() == 0 {
        0
    } else {
        interface_count(configurations.drop_last()) + configurations.last()@.len()
    }
}

/// The interface count starts at zero and grows by the number of interfaces
/// of each configuration added.
pub proof fn interface_count_adds_up(configurations: Seq<Vec<WebusbInterface>>, next: Vec<WebusbInterface>)
    ensures
        interface_count(Seq::<Vec<WebusbInterface>>::empty()) == 0,
        interface_count(configurations.push(next)) == interface_count(configurations) + next@.len(),
{
    assert(configurations.push(next).drop_last() =~= configurations);
}

/// The interfaces of the configurations before `c` come first, so those of
/// configuration `c` fit inside the total.
proof fn interface_count_prefix(configurations: Seq<Vec<WebusbInterface>>, c: int)
    requires
        0 <= c < configurations.len(),
    ensures
        interface_count(configurations.take(c)) + configurations[c]@.len() <= interface_count(
            configurations,
        ),
    decreases configurations.len(),
{
    let n = configurations.len() - 1;
    if c == n {
        assert(configurations.take(c) =~= configurations.drop_last());
    } else {
        interface_count_prefix(configurations.drop_last(), c);
        assert(configurations.drop_last().take(c) =~= configurations.take(c));
    }
}

/// Enumeration lists every interface of every configuration, one
/// configuration after the other: there are as many summaries as interfaces,
/// and interface `i` of configuration `c` comes after those of the earlier
/// configurations, with its number and the class, subclass, protocol and
/// name of its first alternate setting.
pub proof fn interfaces_list_every_interface(configurations: Seq<Vec<WebusbInterface>>)
    ensures
        spec_interfaces(configurations).len() == interface_count(configurations),
        forall|c: int, i: int|
            0 <= c < configurations.len() && 0 <= i < configurations[c]@.len() ==> {
                let info = #[trigger] spec_interfaces(configurations)[interface_count(
                    configurations.take(c),
                ) + i];
                let interface = configurations[c]@[i];
                &&& info.interface_number == interface.interface_number
                &&& info.class == interface.alternates@[0].interface_class
                &&& info.subclass == interface.alternates@[0].interface_subclass
                &&& info.protocol == interface.alternates@[0].interface_protocol
                &&& info.interface_string == interface.alternates@[0].interface_name
            },
    decreases configurations.len(),
{
    if configurations.len() > 0 {
        let init = configurations.drop_last();
        let n = configurations.len() - 1;
        interfaces_list_every_interface(init);
        assert forall|c: int, i: int|
            0 <= c < configurations.len() && 0 <= i < configurations[c]@.len() implies {
                let info = #[trigger] spec_interfaces(configurations)[interface_count(
                    configurations.take(c),
                ) + i];
                let interface = configurations[c]@[i];
                &&& info.interface_number == interface.interface_number
                &&& info.class == interface.alternates@[0].interface_class
                &&& info.subclass == interface.alternates@[0].interface_subclass
                &&& info.protocol == interface.alternates@[0].interface_protocol
                &&& info.interface_string == interface.alternates@[0].interface_name
            } by {
            if c == n {
                assert(configurations.take(c) =~= init);
            } else {
                assert(init.take(c) =~= configurations.take(c));
                assert(init[c] == configurations[c]);
                interface_count_prefix(init, c);
                let _ = spec_interfaces(init)[interface_count(init.take(c)) + i];
            }
        }
    }
}

/// `bcdDevice` from the USB version that WebUSB reports: the major version in
/// the high byte, or-ed with the minor version.
pub open spec fn device_version(major: u8, minor: u8) -> u16 {
    ((major as u16) << 8u16) | (minor as u16)
}

/// `info` is the summary that enumeration gives of `d`.
pub open spec fn describes(info: DeviceInfo, d: WebusbDevice) -> bool {
    &&& info.bus_id@ == webusb_bus_id()
    &&& info.device_address == 0
    &&& info.vendor_id == d.vendor_id
    &&& info.product_id == d.product_id
    &&& info.device_version == device_version(d.usb_version_major, d.usb_version_minor)
    &&& info.class == d.device_class
    &&& info.subclass == d.device_subclass
    &&& info.protocol == d.device_protocol
    &&& info.speed == None::<Speed>
    &&& info.manufacturer_string == d.manufacturer_name
    &&& info.product_string == d.product_name
    &&& info.serial_number == d.serial_number
    &&& info.interfaces@ == spec_interfaces(d.configurations@)
    &&& info.port_chain@ == Seq::<u8>::empty()
    &&& info.max_packet_size_0 == 255
}

/// The major and minor version come back out of `bcdDevice`.
pub proof fn device_version_splits(major: u8, minor: u8)
    ensures
        device_version(major, minor) == major * 256 + minor,
        device_version(major, minor) / 256 == major,
        device_version(major, minor) % 256 == minor,
{
    assert(((major as u16) << 8u16) | (minor as u16) == (major as u16) * 256 + (minor as u16)
        && (((major as u16) << 8u16) | (minor as u16)) / 256 == major
        && (((major as u16) << 8u16) | (minor as u16)) % 256 == minor) by (bit_vector);
}

fn clone_optional_string(s: &Option<String>) -> (r: Option<String>)
    ensures
        r == *s,
{
    match s {
        Some(s) => Some(s.clone()),
        None => None,
    }
}

fn interface_info(i: &WebusbInterface) -> (r: InterfaceInfo)
    requires
        i.alternates@.len() > 0,
    ensures
        r == spec_interface_info(*i),
{
    let alternate = &i.alternates[0];
    InterfaceInfo {
        interface_number: i.interface_number,
        class: alternate.interface_class,
        subclass: alternate.interface_subclass,
        protocol: alternate.interface_protocol,
        interface_string: clone_optional_string(&alternate.interface_name),
    }
}

fn interfaces(configurations: &Vec<Vec<WebusbInterface>>) -> (r: Vec<InterfaceInfo>)
    requires
        forall|c: int, i: int|
            0 <= c < configurations@.len() && 0 <= i < configurations@[c]@.len()
                ==> #[trigger] configurations@[c]@[i].alternates@.len() > 0,
    ensures
        r@ == spec_interfaces(configurations@),
{
    let mut r: Vec<InterfaceInfo> = Vec::new();
    let mut c: usize = 0;
    while c < configurations.len()
        invariant
            c <= configurations@.len(),
            forall|c: int, i: int|
                0 <= c < configurations@.len() && 0 <= i < configurations@[c]@.len()
                    ==> #[trigger] configurations@[c]@[i].alternates@.len() > 0,
            r@ == spec_interfaces(configurations@.take(c as int)),
        decreases configurations@.len() - c,
    {
        let config = &configurations[c];
        let ghost before = r@;
        let mut i: usize = 0;
        while i < config.len()
            invariant
                c < configurations@.len(),
                *config == configurations@[c as int],
                i <= config@.len(),
                forall|i: int|
                    0 <= i < config@.len() ==> #[trigger] config@[i].alternates@.len() > 0,
                r@ == before + config@.take(i as int).map_values(
                    |i: WebusbInterface| spec_interface_info(i),
                ),
            decreases config@.len() - i,
        {
            assert(config@[i as int].alternates@.len() > 0);
            let info = interface_info(&config[i]);
            r.push(info);
            assert(config@.take(i + 1).map_values(|i: WebusbInterface| spec_interface_info(i))
                =~= config@.take(i as int).map_values(
                |i: WebusbInterface| spec_interface_info(i),
            ).push(spec_interface_info(config@[i as int])));
            i = i + 1;
        }
        assert(config@.take(i as int) =~= config@);
        assert(configurations@.take(c + 1).drop_last() =~= configurations@.take(c as int));
        c = c + 1;
    }
    assert(configurations@.take(c as int) =~= configurations@);
    r
}

/// The summary of a device that the WebUSB API reports. Every interface must
/// have an alternate setting.
pub fn device_info(d: &WebusbDevice) -> (r: DeviceInfo)
    requires
        has_alternates(*d),
    ensures
        describes(r, *d),
        r.interfaces@.len() == interface_count(d.configurations@),
        forall|c: int, i: int|
            0 <= c < d.configurations@.len() && 0 <= i < d.configurations@[c]@.len() ==> {
                let info = #[trigger] r.interfaces@[interface_count(d.configurations@.take(c)) + i];
                let interface = d.configurations@[c]@[i];
                &&& info.interface_number == interface.interface_number
                &&& info.class == interface.alternates@[0].interface_class
                &&& info.subclass == interface.alternates@[0].interface_subclass
                &&& info.protocol == interface.alternates@[0].interface_protocol
                &&& info.interface_string == interface.alternates@[0].interface_name
            },
{
    proof {
        interfaces_list_every_interface(d.configurations@);
    }
    let bus_id = "webusb".to_string();
    proof {
        broadcast use vstd::string::to_string_from_display_ensures_for_str;

        reveal_strlit("webusb");
        assert(bus_id@ =~= webusb_bus_id());
    }
    DeviceInfo {
        bus_id,
        device_address: 0,
        vendor_id: d.vendor_id,
        product_id: d.product_id,
        device_version: ((d.usb_version_major as u16) << 8u16) | (d.usb_version_minor as u16),
        class: d.device_class,
        subclass: d.device_subclass,
        protocol: d.device_protocol,
        speed: None,
        manufacturer_string: clone_optional_string(&d.manufacturer_name),
        product_string: clone_optional_string(&d.product_name),
        serial_number: clone_optional_string(&d.serial_number),
        interfaces: interfaces(&d.configurations),
        port_chain: Vec::new(),
        max_packet_size_0: 255,
    }
}

/// The summaries of the devices that the WebUSB API reports, in the same
/// order.
pub fn list_devices(devices: &Vec<WebusbDevice>) -> (r: Vec<DeviceInfo>)
    requires
        forall|k: int| 0 <= k < devices@.len() ==> has_alternates(#[trigger] devices@[k]),
    ensures
        r@.len() == devices@.len(),
        forall|k: int| 0 <= k < devices@.len() ==> describes(#[trigger] r@[k], devices@[k]),
{
    let mut r: Vec<DeviceInfo> = Vec::new();
    let mut k: usize = 0;
    while k < devices.len()
        invariant
            k <= devices@.len(),
            forall|k: int| 0 <= k < devices@.len() ==> has_alternates(#[trigger] devices@[k]),
            r@.len() == k,
            forall|j: int| 0 <= j < k ==> describes(#[trigger] r@[j], devices@[j]),
        decreases devices@.len() - k,
    {
        assert(has_alternates(devices@[k as int]));
        r.push(device_info(&devices[k]));
        k = k + 1;
    }
    r
}

/// WebUSB reports no buses: the list is always empty.
pub fn list_buses() -> (r: Result<Vec<BusInfo>, std::io::Error>)
    ensures
        r matches Ok(buses) && buses@.len() == 0,
{
    Ok(Vec::new())
}

} // verus!
