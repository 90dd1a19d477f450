use rv_format::bits::{Bits, B1, B12, B2, B32, B64, B7, B8};

#[test]
fn a_value_knows_its_width() {
    assert_eq!(B1(1).size(), 1);
    assert_eq!(B2(1).size(), 2);
    assert_eq!(B7(1).size(), 7);
    assert_eq!(B8(1).size(), 8);
    assert_eq!(B12(1).size(), 12);
    assert_eq!(B32(1).size(), 32);
    assert_eq!(B64(1).size(), 64);
}

#[test]
fn a_value_hands_out_its_word() {
    assert_eq!(B1(1).to_u64(), 1);
    assert_eq!(B12(0xabc).to_u64(), 0xabc);
    assert_eq!(B64(u64::MAX).to_u64(), u64::MAX);
    assert_eq!(B7(0x55).0, 0x55);
}

#[test]
fn a_value_is_shown_in_binary_as_wide_as_its_type() {
    assert_eq!(B1(0).format(), "0b0");
    assert_eq!(B1(1).format(), "0b1");
    assert_eq!(B2(1).format(), "0b01");
    assert_eq!(B7(5).format(), "0b0000101");
    assert_eq!(B8(0xa5).format(), "0b10100101");
    assert_eq!(B12(1).format(), "0b000000000001");
    assert_eq!(B64(u64::MAX).format(), format!("0b{}", "1".repeat(64)));
    assert_eq!(B64(0).format(), format!("0b{}", "0".repeat(64)));
}

#[test]
fn a_word_wider_than_the_type_is_shown_whole() {
    assert_eq!(B2(0xf).format(), "0b1111");
    assert_eq!(B1(2).format(), "0b10");
}
