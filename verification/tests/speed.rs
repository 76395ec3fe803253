use usbfs::UsbfsSpeed;
use usbfs::SPEED_FULL;
use usbfs::SPEED_HIGH;
use usbfs::SPEED_LOW;
use usbfs::SPEED_SUPER;
use usbfs::SPEED_SUPER_PLUS;
use usbfs::SPEED_UNKNOWN;
use usbfs::SPEED_WIRELESS;

#[test]
fn test_usbfs_speed() {
    assert_eq!(SPEED_UNKNOWN, UsbfsSpeed::Unknown.inner());
    assert_eq!(SPEED_LOW, UsbfsSpeed::Low.inner());
    assert_eq!(SPEED_FULL, UsbfsSpeed::Full.inner());
    assert_eq!(SPEED_HIGH, UsbfsSpeed::High.inner());
    assert_eq!(SPEED_WIRELESS, UsbfsSpeed::Wireless.inner());
    assert_eq!(SPEED_SUPER, UsbfsSpeed::Super.inner());
    assert_eq!(SPEED_SUPER_PLUS, UsbfsSpeed::SuperPlus.inner());

    assert_eq!(UsbfsSpeed::from(SPEED_UNKNOWN), UsbfsSpeed::Unknown);
    assert_eq!(UsbfsSpeed::from(SPEED_LOW), UsbfsSpeed::Low);
    assert_eq!(UsbfsSpeed::from(SPEED_FULL), UsbfsSpeed::Full);
    assert_eq!(UsbfsSpeed::from(SPEED_HIGH), UsbfsSpeed::High);
    assert_eq!(UsbfsSpeed::from(SPEED_WIRELESS), UsbfsSpeed::Wireless);
    assert_eq!(UsbfsSpeed::from(SPEED_SUPER), UsbfsSpeed::Super);
    assert_eq!(UsbfsSpeed::from(SPEED_SUPER_PLUS), UsbfsSpeed::SuperPlus);
}

#[test]
fn speed_round_trip_over_all_variants() {
    let all = [
        UsbfsSpeed::Unknown,
        UsbfsSpeed::Low,
        UsbfsSpeed::Full,
        UsbfsSpeed::High,
        UsbfsSpeed::Wireless,
        UsbfsSpeed::Super,
        UsbfsSpeed::SuperPlus,
    ];
    for speed in all {
        assert_eq!(UsbfsSpeed::create(speed.inner()), speed);
        assert_eq!(UsbfsSpeed::from(u32::from(speed)), speed);
        assert_eq!(u32::from(&speed), speed.into_inner());
    }
    for raw in 0..=6u32 {
        assert_eq!(UsbfsSpeed::create(raw).inner(), raw);
    }
}

#[test]
fn speed_unrecognized_raw_values_are_unknown() {
    assert_eq!(UsbfsSpeed::create(7), UsbfsSpeed::Unknown);
    assert_eq!(UsbfsSpeed::create(u32::MAX), UsbfsSpeed::Unknown);
}

#[test]
fn speed_new_and_default() {
    assert_eq!(UsbfsSpeed::new(), UsbfsSpeed::Unknown);
    assert_eq!(UsbfsSpeed::default(), UsbfsSpeed::Unknown);
}

#[test]
fn speed_labels() {
    assert_eq!(<&str>::from(&UsbfsSpeed::Unknown), "unknown");
    assert_eq!(<&str>::from(&UsbfsSpeed::Low), "low");
    assert_eq!(<&str>::from(UsbfsSpeed::Full), "full");
    assert_eq!(<&str>::from(UsbfsSpeed::High), "high");
    assert_eq!(<&str>::from(UsbfsSpeed::Wireless), "wireless");
    assert_eq!(<&str>::from(UsbfsSpeed::Super), "super");
    assert_eq!(<&str>::from(UsbfsSpeed::SuperPlus), "super plus");
    assert_eq!(UsbfsSpeed::SuperPlus.to_string(), "\"super plus\"");
}
