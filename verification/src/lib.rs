//! The platform-independent logic of the WebUSB and IOKit back ends of a USB
//! host library: transfer status mapping and transfer bookkeeping,
//! descriptor requests and their validation, device enumeration records,
//! device identifiers and the hotplug watch.

pub mod transfer;
pub mod iokit;
pub mod descriptors;
pub mod enumeration;
pub mod device;
pub mod hotplug;

pub use device::DeviceId;
pub use enumeration::{list_buses, list_devices, BusInfo, DeviceInfo, InterfaceInfo, Speed};
pub use hotplug::{HotplugEvent, WebusbHotplugWatch};
pub use transfer::{TransferData, TransferError};
