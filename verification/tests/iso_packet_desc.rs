use usbfs::UsbfsIsoPacketDesc;

#[test]
fn test_usbfs_iso_packet_desc() {
    let exp_length = 1;
    let exp_actual_length = 1;
    let exp_status = 2;

    let exp_desc = UsbfsIsoPacketDesc::new()
        .with_length(exp_length)
        .with_actual_length(exp_actual_length)
        .with_status(exp_status);

    let mut null_desc = UsbfsIsoPacketDesc::new();

    assert_eq!(exp_desc.length(), exp_length);
    assert_eq!(exp_desc.actual_length(), exp_actual_length);
    assert_eq!(exp_desc.status(), exp_status);

    assert_eq!(null_desc.length(), 0);
    assert_eq!(null_desc.actual_length(), 0);
    assert_eq!(null_desc.status(), 0);

    null_desc.set_length(exp_length);
    assert_eq!(null_desc.length(), exp_length);

    null_desc.set_actual_length(exp_actual_length);
    assert_eq!(null_desc.actual_length(), exp_actual_length);

    null_desc.set_status(exp_status);
    assert_eq!(null_desc.status(), exp_status);

    assert_eq!(null_desc, exp_desc);
}

#[test]
fn iso_packet_desc_actual_length_is_clamped_to_length() {
    let mut desc = UsbfsIsoPacketDesc::new().with_length(8);
    desc.set_actual_length(9);
    assert_eq!(desc.actual_length(), 8);
    desc.set_actual_length(3);
    assert_eq!(desc.actual_length(), 3);
    desc.set_actual_length(u32::MAX);
    assert_eq!(desc.actual_length(), 8);
    desc.set_actual_length(8);
    assert_eq!(desc.actual_length(), 8);

    let desc = UsbfsIsoPacketDesc::new().with_actual_length(1);
    assert_eq!(desc.actual_length(), 0);
    assert_eq!(desc.length(), 0);
}

#[test]
fn iso_packet_desc_set_length_keeps_actual_length() {
    let mut desc = UsbfsIsoPacketDesc::new()
        .with_length(8)
        .with_actual_length(6)
        .with_status(1);
    desc.set_length(4);
    assert_eq!(desc.length(), 4);
    assert_eq!(desc.actual_length(), 6);
    assert_eq!(desc.status(), 1);
}

#[test]
fn iso_packet_desc_text() {
    let desc = UsbfsIsoPacketDesc::new()
        .with_length(10)
        .with_actual_length(7)
        .with_status(2);
    assert_eq!(
        desc.to_string(),
        "{\"length\": 10, \"actual_length\": 7, \"status\": 2}"
    );
    let mut text = String::from("x");
    desc.write_to(&mut text);
    assert_eq!(text, "x{\"length\": 10, \"actual_length\": 7, \"status\": 2}");
    assert_eq!(UsbfsIsoPacketDesc::default(), UsbfsIsoPacketDesc::new());
}

#[test]
fn iso_packet_desc_is_three_words_in_the_order_of_the_kernel() {
    let desc = UsbfsIsoPacketDesc::new()
        .with_length(10)
        .with_actual_length(7)
        .with_status(2);
    assert_eq!(desc.as_words(), &[10, 7, 2]);
    assert_eq!(UsbfsIsoPacketDesc::new().as_words(), &[0, 0, 0]);
    assert_eq!(std::mem::size_of::<UsbfsIsoPacketDesc>(), 12);
    assert_eq!(std::mem::align_of::<UsbfsIsoPacketDesc>(), 4);
    assert_eq!(
        desc.as_words().as_ptr() as usize,
        std::ptr::from_ref(&desc) as usize
    );
}

#[test]
fn iso_packet_desc_equality() {
    let desc = UsbfsIsoPacketDesc::new()
        .with_length(10)
        .with_actual_length(7)
        .with_status(2);
    assert_eq!(desc, desc);
    assert_ne!(desc, desc.with_length(11));
    assert_ne!(desc, desc.with_actual_length(6));
    assert_ne!(desc, desc.with_status(3));
}
