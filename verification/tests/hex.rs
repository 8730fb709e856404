use symbolapi::hex::format_address;

#[test]
fn zero_is_a_single_digit() {
    assert_eq!(format_address(0), "0x0");
}

#[test]
fn single_digits_are_lowercase() {
    assert_eq!(format_address(9), "0x9");
    assert_eq!(format_address(10), "0xa");
    assert_eq!(format_address(15), "0xf");
}

#[test]
fn no_leading_zeros() {
    assert_eq!(format_address(16), "0x10");
    assert_eq!(format_address(255), "0xff");
    assert_eq!(format_address(256), "0x100");
    assert_eq!(format_address(0x0abc), "0xabc");
}

#[test]
fn deadbeef() {
    assert_eq!(format_address(0xdeadbeef), "0xdeadbeef");
}

#[test]
fn largest_address() {
    assert_eq!(format_address(u64::MAX), "0xffffffffffffffff");
}

#[test]
fn agrees_with_the_standard_formatter() {
    let samples: Vec<u64> = vec![0, 1, 15, 16, 17, 4095, 4096, 65802, 11723767, 1 << 32, 1 << 63, u64::MAX - 1];
    for address in samples {
        assert_eq!(format_address(address), format!("0x{:x}", address));
    }
}

#[test]
fn distinct_addresses_have_distinct_texts() {
    assert_ne!(format_address(0x10), format_address(0x1));
    assert_ne!(format_address(0xa), format_address(0x10));
}
