//! Hotplug notifications, which WebUSB does not deliver through this watch.
use vstd::prelude::*;

use crate::device::DeviceId;
use crate::enumeration::DeviceInfo;

verus! {

/// A change in the set of connected devices.
pub enum HotplugEvent {
    /// A device was connected.
    Connected(DeviceInfo),
    /// The device with this identifier was disconnected.
    Disconnected(DeviceId),
}

/// Watch for hotplug events on WebUSB. It never reports one.
pub struct WebusbHotplugWatch {}

impl WebusbHotplugWatch {
    /// Creates the watch; this always succeeds.
    pub fn new() -> (r: Result<Self, std::io::Error>)
        ensures
            r is Ok,
    {
        Ok(WebusbHotplugWatch {  })
    }

    /// Polls for the next event: there is never one ready, so the result is
    /// always `None` (pending).
    pub fn poll_next(&mut self) -> (r: Option<HotplugEvent>)
        ensures
            r is None,
    {
        None
    }
}

} // verus!
