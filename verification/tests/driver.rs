use usbfs::DriverName;
use usbfs::UsbfsGetDriver;
use usbfs::USBFS_MAX_DRIVER_NAME;
use usbfs::USBFS_MAX_DRIVER_NAME_FFI;

#[test]
fn driver_name_from_300_bytes_keeps_255() {
    let long = "d".repeat(300);
    let name = DriverName::from(long.as_str());
    assert_eq!(name.as_str().len(), 255);
    assert_eq!(name.as_str(), &long[..255]);
    assert_eq!(name.len(), 255);
    assert_eq!(name.as_bytes()[255], 0);
    assert_eq!(name.as_bytes()[254], b'd');
}

#[test]
fn driver_name_of_exactly_255_and_256_bytes() {
    let exact = "e".repeat(USBFS_MAX_DRIVER_NAME);
    let name = DriverName::from(exact.as_str());
    assert_eq!(name.as_str(), exact);
    assert_eq!(name.as_bytes()[USBFS_MAX_DRIVER_NAME], 0);

    let over = "e".repeat(USBFS_MAX_DRIVER_NAME_FFI);
    let name = DriverName::from(over.as_str());
    assert_eq!(name.as_str(), exact);
    assert_eq!(name.as_bytes()[USBFS_MAX_DRIVER_NAME], 0);
}

#[test]
fn driver_name_new_is_all_zero_and_decodes_empty() {
    let name = DriverName::new();
    assert_eq!(name.as_bytes(), &[0u8; 256]);
    assert_eq!(name.as_str(), "");
    assert_eq!(name.len(), 0);
    assert_eq!(DriverName::default(), name);
    assert_eq!(name.to_string(), "\"\"");
}

#[test]
fn driver_name_from_string_replaces_and_zero_fills() {
    let mut name = DriverName::from("a-long-driver-name");
    name.from_string("usb");
    assert_eq!(name.as_str(), "usb");
    assert_eq!(&name.as_bytes()[..3], b"usb");
    assert!(name.as_bytes()[3..].iter().all(|b| *b == 0));
    assert_eq!(name, DriverName::from("usb"));
    assert_ne!(name, DriverName::from("usc"));
    assert_eq!(name.to_string(), "\"usb\"");
}

#[test]
fn driver_name_stops_at_the_first_zero_byte() {
    let name = DriverName::from_bytes(b"ab\0cd");
    assert_eq!(name.as_str(), "ab");
    assert_eq!(name.len(), 2);
    assert_eq!(&name.as_bytes()[..6], b"ab\0cd\0");
}

#[test]
fn driver_name_invalid_utf8_decodes_to_empty() {
    let name = DriverName::from_bytes(&[b'a', 0xff, b'b']);
    assert_eq!(name.as_str(), "");
    assert_eq!(name.len(), 3);

    // a two-byte character cut in the middle by the limit
    let mut long = "x".repeat(254);
    long.push('é');
    assert_eq!(long.len(), 256);
    let name = DriverName::from(long.as_str());
    assert_eq!(name.len(), 255);
    assert_eq!(name.as_str(), "");
}

#[test]
fn driver_name_keeps_multibyte_text() {
    let name = DriverName::from("driver-é-日本");
    assert_eq!(name.as_str(), "driver-é-日本");
    assert_eq!(name.len(), "driver-é-日本".len());
}

#[test]
fn get_driver_accessors() {
    let mut null_driver = UsbfsGetDriver::new();
    assert_eq!(null_driver.interface(), 0);
    assert_eq!(null_driver.driver(), "");
    assert_eq!(UsbfsGetDriver::default(), null_driver);

    null_driver.set_interface(3);
    null_driver.set_driver("usbfs");
    assert_eq!(null_driver.interface(), 3);
    assert_eq!(null_driver.driver(), "usbfs");

    let exp_driver = UsbfsGetDriver::create(3, "usbfs");
    assert_eq!(null_driver, exp_driver);
    assert_eq!(
        UsbfsGetDriver::new().with_interface(3).with_driver("usbfs"),
        exp_driver
    );
    assert_ne!(exp_driver, exp_driver.with_interface(4));
    assert_ne!(exp_driver, exp_driver.with_driver("usbf"));
    assert_eq!(
        exp_driver.to_string(),
        "{\"interface\": 3, \"driver\": \"usbfs\"}"
    );
}

#[test]
fn get_driver_takes_the_name_the_kernel_wrote() {
    let mut get_driver = UsbfsGetDriver::new().with_interface(1);
    let mut raw = [0u8; 256];
    raw[..6].copy_from_slice(b"usbhid");
    get_driver.set_driver_name(DriverName::from_bytes(&raw));
    assert_eq!(get_driver.driver(), "usbhid");
    assert_eq!(get_driver.interface(), 1);
    assert_eq!(get_driver.driver_name().as_bytes(), &raw);
}

#[test]
fn get_driver_truncates_long_names() {
    let long = "n".repeat(300);
    let get_driver = UsbfsGetDriver::create(0, long.as_str());
    assert_eq!(get_driver.driver().len(), 255);
    assert_eq!(get_driver.driver_name().as_bytes()[255], 0);
}

#[test]
fn get_driver_from_the_fields_of_its_record() {
    let get_driver = UsbfsGetDriver::from_raw(4, DriverName::from("usbfs"));
    assert_eq!(get_driver, UsbfsGetDriver::create(4, "usbfs"));
    assert_eq!(
        UsbfsGetDriver::from_raw(0, DriverName::new()),
        UsbfsGetDriver::new()
    );
}
