//! Transfer status codes of the macOS IOKit back end.
//!
//! The codes are those of IOKit's `IOReturn.h` (`sys_iokit | sub_iokit_common |
//! code`, read as a signed 32-bit `IOReturn`).
use vstd::prelude::*;

use crate::transfer::TransferError;

verus! {

/// `kIOReturnSuccess`: the operation succeeded.
pub const K_IO_RETURN_SUCCESS: i32 = 0i32;

/// `kIOReturnNoDevice` (`0xe00002c0`): no such device.
pub const K_IO_RETURN_NO_DEVICE: i32 = -536870208i32;

/// `kIOReturnUnderrun` (`0xe00002e7`): the device sent less data than requested.
pub const K_IO_RETURN_UNDERRUN: i32 = -536870169i32;

/// `kIOReturnAborted` (`0xe00002eb`): the operation was aborted.
pub const K_IO_RETURN_ABORTED: i32 = -536870165i32;

/// Maps the `IOReturn` status of a finished IOKit transfer to the library's
/// transfer result. A short transfer (underrun) counts as success.
pub fn status_to_transfer_result(status: i32) -> (r: Result<(), TransferError>)
    ensures
        r == Ok::<(), TransferError>(()) <==> (status == K_IO_RETURN_SUCCESS || status
            == K_IO_RETURN_UNDERRUN),
        r == Err::<(), TransferError>(TransferError::Disconnected) <==> status
            == K_IO_RETURN_NO_DEVICE,
        r == Err::<(), TransferError>(TransferError::Cancelled) <==> status
            == K_IO_RETURN_ABORTED,
        r == Err::<(), TransferError>(TransferError::Unknown) <==> !(status == K_IO_RETURN_SUCCESS
            || status == K_IO_RETURN_UNDERRUN || status == K_IO_RETURN_NO_DEVICE || status
            == K_IO_RETURN_ABORTED),
{
    if status == K_IO_RETURN_SUCCESS || status == K_IO_RETURN_UNDERRUN {
        Ok(())
    } else if status == K_IO_RETURN_NO_DEVICE {
        Err(TransferError::Disconnected)
    } else if status == K_IO_RETURN_ABORTED {
        Err(TransferError::Cancelled)
    } else {
        Err(TransferError::Unknown)
    }
}

} // verus!
