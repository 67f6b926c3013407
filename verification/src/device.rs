//! Device identifiers, the choice of the device that an enumeration record
//! refers to, and the choice of the global scope that provides WebUSB.
use vstd::prelude::*;

use crate::enumeration::{DeviceInfo, WebusbDevice};

verus! {

/// Opaque identifier of a device, stable for as long as the device's WebUSB
/// object lives.
#[derive(Debug, Copy, Clone, PartialEq, Eq, Hash, Structural)]
pub struct DeviceId {
    pub(crate) id: usize,
}

/// Source of fresh device identifiers: the last identifier handed out, zero
/// before the first.
pub struct DeviceIdCounter {
    last: usize,
}

impl View for DeviceIdCounter {
    type V = nat;

    closed spec fn view(&self) -> nat {
        self.last as nat
    }
}

impl DeviceIdCounter {
    /// A counter that has handed out no identifier yet.
    pub fn new() -> (r: Self)
        ensures
            r@ == 0,
    {
        DeviceIdCounter { last: 0 }
    }

    /// The last identifier handed out, zero before the first.
    pub fn last(&self) -> (r: usize)
        ensures
            r == self@,
    {
        self.last
    }
}

impl DeviceId {
    /// The numeric value of the identifier.
    pub closed spec fn value(self) -> nat {
        self.id as nat
    }

    /// The identifier of a device: the one stored on its WebUSB object where
    /// there is one, else the next fresh identifier, which the caller then
    /// stores on the object.
    pub fn from_device(counter: &mut DeviceIdCounter, stored_id: Option<usize>) -> (r: DeviceId)
        requires
            stored_id is None ==> old(counter)@ < usize::MAX,
        ensures
            stored_id matches Some(id) ==> r.value() == id && final(counter)@ == old(counter)@,
            stored_id is None ==> final(counter)@ == old(counter)@ + 1 && r.value()
                == final(counter)@,
            (final(counter)@, r.value()) == device_id_step(old(counter)@, stored_value(stored_id)),
    {
        match stored_id {
            Some(id) => DeviceId { id },
            None => {
                counter.last = counter.last + 1;
                DeviceId { id: counter.last }
            },
        }
    }
}

/// A stored identifier as a number.
pub open spec fn stored_value(stored_id: Option<usize>) -> Option<nat> {
    match stored_id {
        Some(id) => Some(id as nat),
        None => None,
    }
}

/// One identifier lookup: from the counter and the identifier stored on the
/// device (if any), the counter afterwards and the identifier of the device.
pub open spec fn device_id_step(counter: nat, stored: Option<nat>) -> (nat, nat) {
    match stored {
        Some(id) => (counter, id),
        None => (counter + 1, counter + 1),
    }
}

/// A device's identifier never changes once assigned: a second lookup, given
/// the identifier that the first one stored on the device, returns the same
/// identifier and leaves the counter as the first lookup left it.
pub proof fn device_id_is_stable(counter: nat, stored: Option<nat>)
    ensures
        device_id_step(device_id_step(counter, stored).0, Some(device_id_step(counter, stored).1))
            == device_id_step(counter, stored),
{
}

/// A fresh identifier is larger than every identifier handed out before it
/// from the same counter, so no two devices get the same fresh identifier,
/// and none gets zero.
pub proof fn fresh_device_ids_are_new(before: nat, after: nat, earlier_id: nat)
    requires
        after == before + 1,
        earlier_id <= before,
    ensures
        after != earlier_id,
        after > 0,
{
}

/// `d` is the device that the enumeration record `info` describes: vendor,
/// product and serial number agree.
pub open spec fn device_matches(d: WebusbDevice, info: DeviceInfo) -> bool {
    &&& d.vendor_id == info.vendor_id
    &&& d.product_id == info.product_id
    &&& match (d.serial_number, info.serial_number) {
        (Some(a), Some(b)) => a@ == b@,
        (None, None) => true,
        _ => false,
    }
}

/// A device matches an enumeration record exactly when its vendor ID, its
/// product ID and its serial number all agree with the record's.
pub proof fn device_matches_compares_ids_and_serial(d: WebusbDevice, info: DeviceInfo)
    ensures
        device_matches(d, info) <==> (d.vendor_id == info.vendor_id && d.product_id
            == info.product_id && (match (d.serial_number, info.serial_number) {
                (Some(a), Some(b)) => a@ == b@,
                (None, None) => true,
                _ => false,
            })),
        d.vendor_id != info.vendor_id ==> !device_matches(d, info),
        d.product_id != info.product_id ==> !device_matches(d, info),
{
}

fn same_serial(a: &Option<String>, b: &Option<String>) -> (r: bool)
    ensures
        r == match (*a, *b) {
            (Some(a), Some(b)) => a@ == b@,
            (None, None) => true,
            _ => false,
        },
{
    match (a, b) {
        (Some(a), Some(b)) => a.eq(b),
        (None, None) => true,
        _ => false,
    }
}

/// The index of the first of `devices` that `info` describes, or `None` when
/// none is.
pub fn find_device(devices: &Vec<WebusbDevice>, info: &DeviceInfo) -> (r: Option<usize>)
    ensures
        r matches Some(k) ==> k < devices@.len() && device_matches(devices@[k as int], *info)
            && forall|j: int| 0 <= j < k ==> !device_matches(#[trigger] devices@[j], *info),
        r is None ==> forall|j: int|
            0 <= j < devices@.len() ==> !device_matches(#[trigger] devices@[j], *info),
        r matches Some(k) ==> devices@[k as int].vendor_id == info.vendor_id
            && devices@[k as int].product_id == info.product_id && (match (
            devices@[k as int].serial_number,
            info.serial_number,
        ) {
            (Some(a), Some(b)) => a@ == b@,
            (None, None) => true,
            _ => false,
        }),
        forall|j: int|
            0 <= j < devices@.len() && (devices@[j].vendor_id != info.vendor_id
                || devices@[j].product_id != info.product_id) ==> r != Some(j as usize),
{
    let mut k: usize = 0;
    while k < devices.len()
        invariant
            k <= devices@.len(),
            forall|j: int| 0 <= j < k ==> !device_matches(#[trigger] devices@[j], *info),
        decreases devices@.len() - k,
    {
        let d = &devices[k];
        if d.vendor_id == info.vendor_id && d.product_id == info.product_id && same_serial(
            &d.serial_number,
            &info.serial_number,
        ) {
            return Some(k);
        }
        k = k + 1;
    }
    None
}

/// Global scope through which the WebUSB API is reached.
#[derive(Debug, Clone, Copy, PartialEq, Eq, Structural)]
pub enum UsbScope {
    /// `window.navigator.usb`.
    Window,
    /// `self.navigator.usb` in a worker.
    Worker,
}

/// Where WebUSB is taken from: the window where there is one, else the
/// worker scope, else nowhere (WebUSB is not available).
pub fn select_usb_scope(has_window: bool, has_worker: bool) -> (r: Option<UsbScope>)
    ensures
        has_window ==> r == Some(UsbScope::Window),
        !has_window && has_worker ==> r == Some(UsbScope::Worker),
        !has_window && !has_worker ==> r is None,
{
    if has_window {
        Some(UsbScope::Window)
    } else if has_worker {
        Some(UsbScope::Worker)
    } else {
        None
    }
}

} // verus!
