use usbfs::DriverName;
use usbfs::UsbfsDisconnectClaim;
use usbfs::UsbfsDisconnectClaimFlag;
use usbfs::CLAIM_FLAG_EXCEPT_DRIVER;
use usbfs::CLAIM_FLAG_IF_DRIVER;
use usbfs::CLAIM_FLAG_NONE;
use usbfs::USBFS_MAX_DRIVER_NAME;

#[test]
fn test_usbfs_disconnect_claim_flag() {
    assert_eq!(CLAIM_FLAG_NONE, UsbfsDisconnectClaimFlag::Empty.inner());
    assert_eq!(
        CLAIM_FLAG_IF_DRIVER,
        UsbfsDisconnectClaimFlag::IfDriver.inner()
    );
    assert_eq!(
        CLAIM_FLAG_EXCEPT_DRIVER,
        UsbfsDisconnectClaimFlag::ExceptDriver.inner()
    );

    assert_eq!(
        UsbfsDisconnectClaimFlag::from(CLAIM_FLAG_NONE),
        UsbfsDisconnectClaimFlag::Empty
    );
    assert_eq!(
        UsbfsDisconnectClaimFlag::from(CLAIM_FLAG_IF_DRIVER),
        UsbfsDisconnectClaimFlag::IfDriver
    );
    assert_eq!(
        UsbfsDisconnectClaimFlag::from(CLAIM_FLAG_EXCEPT_DRIVER),
        UsbfsDisconnectClaimFlag::ExceptDriver
    );
}

#[test]
fn test_usbfs_disconnect_claim() {
    let mut null_claim = UsbfsDisconnectClaim::new();

    let exp_interface = 1;
    let exp_flag = UsbfsDisconnectClaimFlag::ExceptDriver;
    let exp_driver = "test_driver";

    let exp_claim = UsbfsDisconnectClaim::create(exp_interface, exp_flag, exp_driver);

    assert_eq!(null_claim.interface(), 0);
    assert_eq!(null_claim.flags(), UsbfsDisconnectClaimFlag::new());
    assert_eq!(null_claim.driver(), "");

    null_claim.set_interface(exp_interface);
    assert_eq!(null_claim.interface(), exp_interface);

    null_claim.set_flags(exp_flag);
    assert_eq!(null_claim.flags(), exp_flag);

    null_claim.set_driver(exp_driver);
    assert_eq!(null_claim.driver(), exp_driver);

    assert_eq!(exp_claim.interface(), exp_interface);
    assert_eq!(exp_claim.flags(), exp_flag);
    assert_eq!(exp_claim.driver(), exp_driver);

    assert_eq!(
        UsbfsDisconnectClaim::new()
            .with_interface(exp_interface)
            .interface(),
        exp_interface
    );
    assert_eq!(
        UsbfsDisconnectClaim::new().with_flags(exp_flag).flags(),
        exp_flag
    );
    assert_eq!(
        UsbfsDisconnectClaim::new().with_driver(exp_driver).driver(),
        exp_driver
    );

    let over_max_driver = "a".repeat(USBFS_MAX_DRIVER_NAME + 2);
    let max_claim = UsbfsDisconnectClaim::new().with_driver(over_max_driver.as_str());

    assert_eq!(
        max_claim.driver(),
        &over_max_driver[..USBFS_MAX_DRIVER_NAME]
    );
    assert_eq!(max_claim.driver().len(), USBFS_MAX_DRIVER_NAME);
}

#[test]
fn disconnect_claim_flag_round_trip_over_all_variants() {
    let all = [
        UsbfsDisconnectClaimFlag::Empty,
        UsbfsDisconnectClaimFlag::IfDriver,
        UsbfsDisconnectClaimFlag::ExceptDriver,
    ];
    for flag in all {
        assert_eq!(UsbfsDisconnectClaimFlag::create(flag.inner()), flag);
        assert_eq!(UsbfsDisconnectClaimFlag::from(u8::from(flag)), flag);
        assert_eq!(u8::from(&flag), flag.into_inner());
    }
    assert_eq!(
        UsbfsDisconnectClaimFlag::create(3),
        UsbfsDisconnectClaimFlag::Empty
    );
    assert_eq!(
        UsbfsDisconnectClaimFlag::create(255),
        UsbfsDisconnectClaimFlag::Empty
    );
    assert_eq!(
        UsbfsDisconnectClaimFlag::default(),
        UsbfsDisconnectClaimFlag::IfDriver
    );
}

#[test]
fn disconnect_claim_flag_labels() {
    assert_eq!(<&str>::from(&UsbfsDisconnectClaimFlag::Empty), "no driver");
    assert_eq!(
        <&str>::from(&UsbfsDisconnectClaimFlag::IfDriver),
        "IF driver"
    );
    assert_eq!(
        <&str>::from(&UsbfsDisconnectClaimFlag::ExceptDriver),
        "except driver"
    );
    assert_eq!(
        UsbfsDisconnectClaimFlag::ExceptDriver.to_string(),
        "\"except driver\""
    );
}

#[test]
fn disconnect_claim_equality_and_text() {
    let a = UsbfsDisconnectClaim::create(1, UsbfsDisconnectClaimFlag::ExceptDriver, "usbhid");
    let b = UsbfsDisconnectClaim::new()
        .with_interface(1)
        .with_flags(UsbfsDisconnectClaimFlag::ExceptDriver)
        .with_driver("usbhid");
    assert_eq!(a, b);
    assert_ne!(a, b.with_driver("usbhie"));
    assert_ne!(a, b.with_interface(2));
    assert_ne!(a, b.with_flags(UsbfsDisconnectClaimFlag::IfDriver));
    assert_eq!(UsbfsDisconnectClaim::default(), UsbfsDisconnectClaim::new());
    assert_eq!(
        a.to_string(),
        "{\"interface\": 1, \"flags\": \"except driver\", \"driver\": \"usbhid\"}"
    );
    assert_eq!(a.driver_name().as_str(), "usbhid");
}

#[test]
fn disconnect_claim_from_the_fields_of_its_record() {
    let claim =
        UsbfsDisconnectClaim::from_raw(3, CLAIM_FLAG_EXCEPT_DRIVER, DriverName::from("usbhid"));
    assert_eq!(
        claim,
        UsbfsDisconnectClaim::create(3, UsbfsDisconnectClaimFlag::ExceptDriver, "usbhid")
    );
    let claim = UsbfsDisconnectClaim::from_raw(0, CLAIM_FLAG_IF_DRIVER, DriverName::new());
    assert_eq!(claim, UsbfsDisconnectClaim::new());
    let claim = UsbfsDisconnectClaim::from_raw(1, 9, DriverName::from("x"));
    assert_eq!(claim.flags(), UsbfsDisconnectClaimFlag::Empty);
    assert_eq!(claim.interface(), 1);
    assert_eq!(claim.driver(), "x");
}
