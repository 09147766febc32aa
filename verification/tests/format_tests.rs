use btmanager::address_hex;

#[test]
fn zero_renders_as_one_digit() {
    assert_eq!(address_hex(0), "0");
}

#[test]
fn single_digits_render_without_padding() {
    assert_eq!(address_hex(9), "9");
    assert_eq!(address_hex(0xA), "A");
    assert_eq!(address_hex(0xF), "F");
}

#[test]
fn multi_digit_addresses_render_uppercase_most_significant_first() {
    assert_eq!(address_hex(0x10), "10");
    assert_eq!(address_hex(0xAABBCC), "AABBCC");
    assert_eq!(address_hex(0xDEADBEEF), "DEADBEEF");
    assert_eq!(address_hex(u64::MAX), "FFFFFFFFFFFFFFFF");
}
