use keypoint_central::address::ble_addr;

#[test]
fn address_is_low_46_bits_under_two_set_bits() {
    assert_eq!(
        ble_addr(0x1122_3344, 0xffff_5566),
        [0x44, 0x33, 0x22, 0x11, 0x66, 0xd5]
    );
}

#[test]
fn address_of_blank_chip() {
    assert_eq!(ble_addr(0, 0), [0, 0, 0, 0, 0, 0xc0]);
}

#[test]
fn address_of_erased_words() {
    assert_eq!(ble_addr(u32::MAX, u32::MAX), [0xff; 6]);
}

#[test]
fn address_agrees_with_the_64_bit_identifier() {
    let (low, high) = (0x89ab_cdefu32, 0x0123_4567u32);
    let id = (u64::from(high) << 32 | u64::from(low)) | 0x0000_c000_0000_0000;
    assert_eq!(ble_addr(low, high)[..], id.to_le_bytes()[..6]);
}

#[test]
fn address_ignores_the_top_bits_and_no_others() {
    let base = ble_addr(7, 0x1234);
    assert_eq!(base, ble_addr(7, 0x1234 | 0xffff_c000));
    for bit in 0..32 {
        assert_ne!(base, ble_addr(7 ^ (1 << bit), 0x1234));
    }
    for bit in 0..14 {
        assert_ne!(base, ble_addr(7, 0x1234 ^ (1 << bit)));
    }
    for bit in 14..32 {
        assert_eq!(base, ble_addr(7, 0x1234 ^ (1 << bit)));
    }
}
