use usbfs::UsbfsSetInterface;

#[test]
fn test_usbfs_set_interface() {
    let exp_interface = 1;
    let exp_altsetting = 2;
    let exp_iface = UsbfsSetInterface::create(exp_interface, exp_altsetting);
    let mut null_iface = UsbfsSetInterface::new();

    assert_eq!(exp_iface.interface(), exp_interface);
    assert_eq!(exp_iface.altsetting(), exp_altsetting);

    assert_eq!(null_iface.interface(), 0);
    assert_eq!(null_iface.altsetting(), 0);

    null_iface.set_interface(exp_interface);
    assert_eq!(null_iface.interface(), exp_interface);

    null_iface.set_altsetting(exp_altsetting);
    assert_eq!(null_iface.altsetting(), exp_altsetting);

    assert_eq!(
        UsbfsSetInterface::new()
            .with_interface(exp_interface)
            .with_altsetting(exp_altsetting),
        exp_iface
    );
}

#[test]
fn set_interface_through_the_mutable_reference() {
    let mut iface = UsbfsSetInterface::create(1, 2);
    assert_eq!(*iface.interface_mut(), 1);
    *iface.interface_mut() = 5;
    assert_eq!(iface, UsbfsSetInterface::create(5, 2));
}

#[test]
fn set_interface_text() {
    assert_eq!(
        UsbfsSetInterface::create(1, 2).to_string(),
        "{\"interface\": 1, \"altsetting\": 2}"
    );
    assert_eq!(UsbfsSetInterface::default(), UsbfsSetInterface::new());
}
