use usbfs::text::push_byte_list;
use usbfs::text::push_signed;
use usbfs::text::push_unsigned;

fn unsigned(n: u64) -> String {
    let mut text = String::new();
    push_unsigned(&mut text, n);
    text
}

fn signed(v: i64) -> String {
    let mut text = String::new();
    push_signed(&mut text, v);
    text
}

#[test]
fn decimal_text_of_unsigned_numbers() {
    assert_eq!(unsigned(0), "0");
    assert_eq!(unsigned(7), "7");
    assert_eq!(unsigned(10), "10");
    assert_eq!(unsigned(1234567890), "1234567890");
    assert_eq!(unsigned(u64::MAX), "18446744073709551615");
    for n in [9u64, 99, 100, 101, 4096, 65535, 1_000_000] {
        assert_eq!(unsigned(n), format!("{n}"));
    }
}

#[test]
fn decimal_text_of_signed_numbers() {
    assert_eq!(signed(0), "0");
    assert_eq!(signed(-1), "-1");
    assert_eq!(signed(42), "42");
    assert_eq!(signed(-2147483648), "-2147483648");
    assert_eq!(signed(i64::MIN), "-9223372036854775808");
    assert_eq!(signed(i64::MAX), "9223372036854775807");
}

#[test]
fn decimal_text_is_appended() {
    let mut text = String::from("n=");
    push_unsigned(&mut text, 15);
    push_signed(&mut text, -3);
    assert_eq!(text, "n=15-3");
}

#[test]
fn byte_lists_are_joined_with_comma_and_space() {
    let mut text = String::from("[");
    push_byte_list(&mut text, &[]);
    assert_eq!(text, "[");
    push_byte_list(&mut text, &[0]);
    assert_eq!(text, "[0");
    let mut text = String::new();
    push_byte_list(&mut text, &[1, 22, 255]);
    assert_eq!(text, "1, 22, 255");
}
