use device_monitor::address::Address;

#[test]
fn new_packs_octets_most_significant_first() {
    let a = Address::new([0x01, 0x02, 0x03, 0x04, 0x05, 0x06]);
    assert_eq!(a.bits, 0x0102_0304_0506);
}

#[test]
fn new_of_zero_octets_is_zero() {
    assert_eq!(Address::new([0; 6]).bits, 0);
}

#[test]
fn new_of_highest_octets_fills_48_bits() {
    assert_eq!(Address::new([0xff; 6]).bits, 0xffff_ffff_ffff);
}

#[test]
fn octets_unpacks_most_significant_first() {
    let a = Address { bits: 0xa1b2_c3d4_e5f6 };
    assert_eq!(a.octets(), [0xa1, 0xb2, 0xc3, 0xd4, 0xe5, 0xf6]);
}

#[test]
fn octets_of_new_are_the_octets_given() {
    let octets = [0x00, 0x1a, 0x7d, 0xda, 0x71, 0x13];
    assert_eq!(Address::new(octets).octets(), octets);
}

#[test]
fn new_of_octets_is_the_address_given() {
    let a = Address { bits: 0x0000_1234_5678_9abc };
    assert_eq!(Address::new(a.octets()), a);
}

#[test]
fn octets_drop_what_lies_above_48_bits() {
    let a = Address { bits: 0xffff_0000_0000_0001 };
    assert_eq!(a.octets(), [0, 0, 0, 0, 0, 1]);
}

#[test]
fn addresses_differ_where_one_octet_differs() {
    let a = Address::new([1, 2, 3, 4, 5, 6]);
    let b = Address::new([1, 2, 3, 4, 5, 7]);
    let c = Address::new([2, 2, 3, 4, 5, 6]);
    assert_ne!(a, b);
    assert_ne!(a, c);
    assert_eq!(a, Address::new([1, 2, 3, 4, 5, 6]));
}

#[test]
fn parse_reads_colon_hexadecimal_notation() {
    assert_eq!(
        Address::parse("00:1A:7D:DA:71:13"),
        Some(Address::new([0x00, 0x1a, 0x7d, 0xda, 0x71, 0x13]))
    );
}

#[test]
fn parse_reads_lower_case_digits() {
    assert_eq!(
        Address::parse("aa:bb:cc:dd:ee:ff"),
        Some(Address { bits: 0xaabb_ccdd_eeff })
    );
}

#[test]
fn parse_refuses_what_is_no_address() {
    assert_eq!(Address::parse(""), None);
    assert_eq!(Address::parse("device-monitor"), None);
    assert_eq!(Address::parse("00:1A:7D:DA:71"), None);
    assert_eq!(Address::parse("00:1A:7D:DA:71:13:00"), None);
    assert_eq!(Address::parse("00:1A:7D:DA:71:GG"), None);
    assert_eq!(Address::parse("00:1A:7D:DA:71:100"), None);
}

#[test]
fn parse_gives_the_octets_in_the_order_written() {
    let a = Address::parse("01:02:03:04:05:06").unwrap();
    assert_eq!(a.octets(), [1, 2, 3, 4, 5, 6]);
}
