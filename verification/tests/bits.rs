use caravel_hal::bits::{
    count_ones_u32, low_ones_u32, reverse_bits_u8, u16_from_be_bytes, u32_from_le_bytes,
    u32_to_le_bytes,
};

#[test]
fn reverse_bits_matches_std() {
    for x in 0..=255u8 {
        assert_eq!(reverse_bits_u8(x), x.reverse_bits());
        assert_eq!(reverse_bits_u8(reverse_bits_u8(x)), x);
    }
}

#[test]
fn count_ones_matches_std() {
    for x in [0u32, 1, 2, 3, 0xFF, 0x8000_0000, 0xFFFF_FFFF, 0x3FF_FFFF, 0x1234_5678] {
        assert_eq!(count_ones_u32(x), x.count_ones());
    }
}

#[test]
fn low_ones_is_thermometer_code() {
    assert_eq!(low_ones_u32(0), 0);
    assert_eq!(low_ones_u32(1), 1);
    assert_eq!(low_ones_u32(26), 0x3FF_FFFF);
    assert_eq!(low_ones_u32(31), 0x7FFF_FFFF);
}

#[test]
fn byte_order_conversions_match_std() {
    for x in [0u32, 1, 0x1234_5678, 0xFFFF_FFFF, 0x3FF_FFFF] {
        assert_eq!(u32_to_le_bytes(x), x.to_le_bytes());
        assert_eq!(u32_from_le_bytes(x.to_le_bytes()), x);
    }
    assert_eq!(u16_from_be_bytes([0x04, 0x56]), 0x0456);
}
