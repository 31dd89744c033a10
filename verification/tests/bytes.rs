use mu_pi::bytes::{bytes_all_equal, read_u128, read_u16, read_u24, read_u32, read_u64, sum_bytes, sum_words};

const BYTES: [u8; 20] = [
    0x01, 0x23, 0x45, 0x67, 0x89, 0xAB, 0xCD, 0xEF, 0x10, 0x32, 0x54, 0x76, 0x98, 0xBA, 0xDC, 0xFE, 0xFF, 0x00, 0x80,
    0x7F,
];

#[test]
fn fields_are_read_least_significant_byte_first() {
    assert_eq!(read_u16(&BYTES, 0), 0x2301);
    assert_eq!(read_u16(&BYTES, 1), 0x4523);
    assert_eq!(read_u16(&BYTES, 18), 0x7F80);
    assert_eq!(read_u24(&BYTES, 0), 0x452301);
    assert_eq!(read_u24(&BYTES, 17), 0x7F8000);
    assert_eq!(read_u32(&BYTES, 0), 0x67452301);
    assert_eq!(read_u32(&BYTES, 3), 0xCDAB8967);
    assert_eq!(read_u64(&BYTES, 0), 0xEFCDAB8967452301);
    assert_eq!(read_u64(&BYTES, 12), 0x7F8000FFFEDCBA98);
    assert_eq!(read_u128(&BYTES, 0), 0xFEDCBA9876543210EFCDAB8967452301);
    assert_eq!(read_u128(&BYTES, 4), 0x7F8000FFFEDCBA9876543210EFCDAB89);
}

#[test]
fn fields_agree_with_the_standard_library() {
    for offset in 0..4 {
        let mut field = [0u8; 16];
        field.copy_from_slice(&BYTES[offset..offset + 16]);
        assert_eq!(read_u128(&BYTES, offset), u128::from_le_bytes(field));
        let mut field = [0u8; 8];
        field.copy_from_slice(&BYTES[offset..offset + 8]);
        assert_eq!(read_u64(&BYTES, offset), u64::from_le_bytes(field));
        let mut field = [0u8; 4];
        field.copy_from_slice(&BYTES[offset..offset + 4]);
        assert_eq!(read_u32(&BYTES, offset), u32::from_le_bytes(field));
    }
    assert_eq!(read_u64(&[0xFF; 8], 0), u64::MAX);
    assert_eq!(read_u32(&[0xFF; 4], 0), u32::MAX);
    assert_eq!(read_u24(&[0xFF; 3], 0), 0xFF_FFFF);
    assert_eq!(read_u16(&[0xFF; 2], 0), u16::MAX);
}

#[test]
fn byte_sums_wrap_at_256() {
    assert_eq!(sum_bytes(&BYTES, 0, 0), 0);
    assert_eq!(sum_bytes(&BYTES, 0, 1), 0x01);
    assert_eq!(sum_bytes(&BYTES, 0, 4), 0xD0);
    assert_eq!(sum_bytes(&BYTES, 4, 4), 0xF0);
    assert_eq!(sum_bytes(&BYTES, 0, 8), 0xC0);
    assert_eq!(sum_bytes(&[0xFF, 0x01], 0, 2), 0);
    assert_eq!(sum_bytes(&[0x80; 7], 1, 5), 0x80);
    let expected = BYTES.iter().fold(0u8, |acc, byte| acc.wrapping_add(*byte));
    assert_eq!(sum_bytes(&BYTES, 0, 20), expected);
}

#[test]
fn word_sums_wrap_at_65536() {
    assert_eq!(sum_words(&BYTES, 0, 0), 0);
    assert_eq!(sum_words(&BYTES, 0, 1), 0x2301);
    assert_eq!(sum_words(&BYTES, 0, 2), 0x8A46);
    assert_eq!(sum_words(&BYTES, 2, 2), 0x12CE);
    assert_eq!(sum_words(&[0xFF, 0xFF, 0x01, 0x00], 0, 2), 0);
    assert_eq!(sum_words(&[0x00, 0x80, 0x00, 0x80, 0x01, 0x00], 0, 3), 1);
}

#[test]
fn ranges_of_equal_bytes_are_told() {
    assert!(bytes_all_equal(&[7, 7, 7, 7], 0, 4, 7));
    assert!(!bytes_all_equal(&[7, 7, 7, 8], 0, 4, 7));
    assert!(bytes_all_equal(&[7, 7, 7, 8], 0, 3, 7));
    assert!(!bytes_all_equal(&[8, 7, 7, 7], 0, 4, 7));
    assert!(bytes_all_equal(&[8, 7, 7, 7], 1, 3, 7));
    assert!(bytes_all_equal(&[8, 7, 7, 7], 2, 0, 9));
    assert!(bytes_all_equal(&[], 0, 0, 0));
}
