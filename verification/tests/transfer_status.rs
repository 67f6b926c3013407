use nusb::iokit::{
    status_to_transfer_result, K_IO_RETURN_ABORTED, K_IO_RETURN_NO_DEVICE, K_IO_RETURN_SUCCESS,
    K_IO_RETURN_UNDERRUN,
};
use nusb::transfer::{web_to_nusb_status, TransferError, UsbTransferStatus};

#[test]
fn iokit_success_and_underrun_are_ok() {
    assert_eq!(status_to_transfer_result(K_IO_RETURN_SUCCESS), Ok(()));
    assert_eq!(status_to_transfer_result(K_IO_RETURN_UNDERRUN), Ok(()));
}

#[test]
fn iokit_codes_have_their_documented_values() {
    assert_eq!(K_IO_RETURN_SUCCESS, 0);
    assert_eq!(K_IO_RETURN_NO_DEVICE as u32, 0xe00002c0);
    assert_eq!(K_IO_RETURN_UNDERRUN as u32, 0xe00002e7);
    assert_eq!(K_IO_RETURN_ABORTED as u32, 0xe00002eb);
}

#[test]
fn iokit_no_device_is_disconnected() {
    assert_eq!(
        status_to_transfer_result(K_IO_RETURN_NO_DEVICE),
        Err(TransferError::Disconnected)
    );
}

#[test]
fn iokit_aborted_is_cancelled() {
    assert_eq!(
        status_to_transfer_result(K_IO_RETURN_ABORTED),
        Err(TransferError::Cancelled)
    );
}

#[test]
fn iokit_other_codes_are_unknown() {
    // kIOReturnError
    assert_eq!(
        status_to_transfer_result(0xe00002bc_u32 as i32),
        Err(TransferError::Unknown)
    );
    assert_eq!(status_to_transfer_result(1), Err(TransferError::Unknown));
    assert_eq!(status_to_transfer_result(-1), Err(TransferError::Unknown));
}

#[test]
fn web_status_mapping() {
    assert_eq!(web_to_nusb_status(UsbTransferStatus::Completed), Ok(()));
    assert_eq!(
        web_to_nusb_status(UsbTransferStatus::Stall),
        Err(TransferError::Stall)
    );
    assert_eq!(
        web_to_nusb_status(UsbTransferStatus::Babble),
        Err(TransferError::Unknown)
    );
}
