use usbfs::Error;
use usbfs::UsbfsCtrlTransfer;
use usbfs::UsbfsCtrlTransferFfi;
use usbfs::MAX_CTRL_DATA;
use usbfs::NULL_ADDRESS;

#[test]
fn test_usbfs_ctrl_transfer() {
    let mut null_xfer = UsbfsCtrlTransfer::new();

    let exp_request_type = 1;
    let exp_request = 2;
    let exp_value = 3;
    let exp_index = 4;
    let exp_timeout = 5;
    let exp_data = [42u8];

    let exp_xfer = UsbfsCtrlTransfer::new()
        .with_request_type(exp_request_type)
        .with_request(exp_request)
        .with_value(exp_value)
        .with_index(exp_index)
        .with_timeout(exp_timeout)
        .with_data(exp_data.to_vec());

    assert_eq!(null_xfer.request_type(), 0);
    assert_eq!(null_xfer.request(), 0);
    assert_eq!(null_xfer.value(), 0);
    assert_eq!(null_xfer.index(), 0);
    assert_eq!(null_xfer.length(), 0);
    assert_eq!(null_xfer.timeout(), 0);
    assert_eq!(null_xfer.data(), &[]);

    null_xfer.set_request_type(exp_request_type);
    assert_eq!(null_xfer.request_type(), exp_request_type);

    null_xfer.set_request(exp_request);
    assert_eq!(null_xfer.request(), exp_request);

    null_xfer.set_value(exp_value);
    assert_eq!(null_xfer.value(), exp_value);

    null_xfer.set_index(exp_index);
    assert_eq!(null_xfer.index(), exp_index);

    null_xfer.set_timeout(exp_timeout);
    assert_eq!(null_xfer.timeout(), exp_timeout);

    null_xfer.set_data(exp_data.to_vec());
    assert_eq!(exp_xfer.data(), exp_data.as_ref());
    assert_eq!(exp_xfer.length(), exp_data.len() as u16);

    assert_eq!(exp_xfer.request_type(), exp_request_type);
    assert_eq!(exp_xfer.request(), exp_request);
    assert_eq!(exp_xfer.value(), exp_value);
    assert_eq!(exp_xfer.index(), exp_index);
    assert_eq!(exp_xfer.length(), exp_data.len() as u16);
    assert_eq!(exp_xfer.timeout(), exp_timeout);
    assert_eq!(exp_xfer.data(), exp_data.as_ref());

    // Check that the max data length is enforced
    assert_eq!(
        UsbfsCtrlTransfer::new()
            .with_data(vec![0u8; MAX_CTRL_DATA + 1])
            .data(),
        [0u8; MAX_CTRL_DATA].as_ref()
    );
    assert_eq!(
        UsbfsCtrlTransfer::new()
            .with_data(vec![0u8; MAX_CTRL_DATA + 1])
            .length(),
        MAX_CTRL_DATA as u16
    );
}

#[test]
fn ctrl_transfer_of_70000_bytes_keeps_65535() {
    let payload: Vec<u8> = (0..70_000u32).map(|i| (i % 251) as u8).collect();
    let xfer = UsbfsCtrlTransfer::new().with_data(payload.clone());
    assert_eq!(xfer.data().len(), 65535);
    assert_eq!(xfer.length(), 65535);
    assert_eq!(xfer.data(), &payload[..65535]);
}

#[test]
fn ctrl_transfer_of_exactly_65535_bytes_is_kept_whole() {
    let payload = vec![7u8; MAX_CTRL_DATA];
    let xfer = UsbfsCtrlTransfer::new().with_data(payload.clone());
    assert_eq!(xfer.data(), payload.as_slice());
    assert_eq!(xfer.length(), u16::MAX);
}

#[test]
fn ctrl_transfer_set_data_replaces_data_and_length() {
    let mut xfer = UsbfsCtrlTransfer::new()
        .with_request(9)
        .with_data(vec![1, 2, 3]);
    assert_eq!(xfer.length(), 3);
    xfer.set_data(vec![4]);
    assert_eq!(xfer.data(), &[4]);
    assert_eq!(xfer.length(), 1);
    assert_eq!(xfer.request(), 9);
    xfer.set_data(Vec::new());
    assert_eq!(xfer.length(), 0);
    assert_eq!(xfer.data(), &[]);
}

#[test]
fn ctrl_transfer_equality_and_clone() {
    let xfer = UsbfsCtrlTransfer::new()
        .with_request_type(0x80)
        .with_request(6)
        .with_value(0x0100)
        .with_index(1)
        .with_timeout(250)
        .with_data(vec![1, 2, 3]);
    let same = xfer.clone();
    assert_eq!(xfer, same);
    assert_ne!(xfer, same.clone().with_data(vec![1, 2, 4]));
    assert_ne!(xfer, same.clone().with_data(vec![1, 2]));
    assert_ne!(xfer, same.clone().with_request_type(0));
    assert_ne!(xfer, same.clone().with_request(7));
    assert_ne!(xfer, same.clone().with_value(0));
    assert_ne!(xfer, same.clone().with_index(0));
    assert_ne!(xfer, same.clone().with_timeout(0));
    assert_eq!(UsbfsCtrlTransfer::default(), UsbfsCtrlTransfer::new());
}

#[test]
fn ctrl_transfer_marshals_get_configuration() {
    let mut control = UsbfsCtrlTransfer::new()
        // ENDPOINT_IN
        .with_request_type(0x80)
        // USB_GET_CONFIGURATION
        .with_request(0x08)
        .with_timeout(1000)
        .with_data(vec![0u8]);
    let before = control.clone();

    let wire = UsbfsCtrlTransferFfi::from(&mut control);
    assert_eq!(wire.bm_request_type, 0x80);
    assert_eq!(wire.b_request, 0x08);
    assert_eq!(wire.w_value, 0);
    assert_eq!(wire.w_index, 0);
    assert_eq!(wire.w_length, 1);
    assert_eq!(wire.timeout, 1000);
    assert_ne!(wire.data, NULL_ADDRESS);
    let data_address = wire.data;
    // the record is gone: the transfer can be looked at again
    assert_eq!(data_address, control.data().as_ptr() as usize);
    assert_eq!(control.data().len(), 1);

    // an invocation that fails reports the error and leaves the transfer as it was
    let failed: usbfs::Result<()> = usbfs::ioctl_result(Err(nix::errno::Errno::EBADF));
    assert_eq!(
        failed,
        Err(Error::Ioctl(String::from("EBADF: Bad file number")))
    );
    assert_eq!(control, before);
}

#[test]
fn ctrl_transfer_marshals_an_empty_transfer_with_an_address() {
    let mut control = UsbfsCtrlTransfer::new();
    let wire = UsbfsCtrlTransferFfi::from(&mut control);
    assert_eq!(wire.w_length, 0);
    assert_ne!(wire.data, NULL_ADDRESS);
    assert_eq!(wire.timeout, 0);
    assert_eq!(control, UsbfsCtrlTransfer::new());
}

#[test]
fn ctrl_transfer_ffi_new_is_all_zero() {
    let wire = UsbfsCtrlTransferFfi::new();
    assert_eq!(wire.bm_request_type, 0);
    assert_eq!(wire.b_request, 0);
    assert_eq!(wire.w_value, 0);
    assert_eq!(wire.w_index, 0);
    assert_eq!(wire.w_length, 0);
    assert_eq!(wire.timeout, 0);
    assert_eq!(wire.data, NULL_ADDRESS);
    assert_eq!(wire, UsbfsCtrlTransferFfi::default());
}

#[test]
fn ctrl_transfer_comes_back_from_its_wire_record() {
    let mut control = UsbfsCtrlTransfer::new()
        .with_request_type(0xc0)
        .with_request(1)
        .with_value(2)
        .with_index(3)
        .with_timeout(4)
        .with_data(vec![9, 8, 7]);
    let expected = control.clone();
    let wire = UsbfsCtrlTransferFfi::from(&mut control);
    let back = UsbfsCtrlTransfer::from_ffi(&wire, &[9, 8, 7]);
    assert_eq!(back, expected);

    // more bytes than the record declares: the declared ones are kept
    let back = UsbfsCtrlTransfer::from_ffi(&wire, &[9, 8, 7, 6, 5]);
    assert_eq!(back.data(), &[9, 8, 7]);
    assert_eq!(back.length(), 3);

    // fewer bytes than the record declares: all of them are kept
    let back = UsbfsCtrlTransfer::from_ffi(&wire, &[9]);
    assert_eq!(back.data(), &[9]);
    assert_eq!(back.length(), 1);

    // no data address: no data
    let mut null_wire = UsbfsCtrlTransferFfi::new();
    null_wire.w_length = 3;
    null_wire.timeout = 4;
    let back = UsbfsCtrlTransfer::from_ffi(&null_wire, &[1, 2, 3]);
    assert_eq!(back.data(), &[]);
    assert_eq!(back.length(), 0);
    assert_eq!(back.timeout(), 4);
}
