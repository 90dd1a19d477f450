use rv_format::bit::{get_bit, get_bits, BitField, Word};

#[test]
fn bit_bitfield_size() {
    let s = BitField::<4, 7>::size();
    assert_eq!(s, 4);
}

#[test]
fn bit_bitfield_from_u64() {
    let v = 0x4756_u64;
    let b: BitField<2, 5> = BitField::from(v);
    assert_eq!(b.value(), 5);
}

#[test]
fn bit_get_bit_u8() {
    assert_eq!(1, get_bit(0b0000_0010_u8, 1));
    assert_eq!(0, get_bit(0b1111_1011_u8, 2));
}

#[test]
fn bit_get_bit_u16() {
    assert_eq!(1, get_bit(0x4000_u16, 14));
    assert_eq!(0, get_bit(0xfdff_u16, 9));
}

#[test]
fn bit_get_bits_u16() {
    assert_eq!(3, get_bits(0b000_1100_u8, 2, 3));
    assert_eq!(0xf, get_bits(0b011_1100_u8, 2, 5));
}

#[test]
fn get_bits_of_every_width_of_word() {
    assert_eq!(0xab, get_bits(0x12ab_34cd_u32, 16, 23));
    assert_eq!(0x12ab_34cd, get_bits(0x12ab_34cd_u32, 0, 31));
    assert_eq!(0x5, get_bits(0x4756_u64, 2, 5));
    assert_eq!(u64::MAX, get_bits(u64::MAX, 0, 63));
    assert_eq!(0x7fff_ffff_ffff_ffff, get_bits(u64::MAX, 1, 63));
    assert_eq!(0xff, get_bits(0xff_u8, 0, 7));
    assert_eq!(0x8000, get_bits(0x8000_u16, 0, 15));
}

#[test]
fn get_bit_of_the_ends_of_a_word() {
    assert_eq!(1, get_bit(1_u64 << 63, 63));
    assert_eq!(0, get_bit(1_u64 << 63, 62));
    assert_eq!(1, get_bit(1_u64, 0));
    assert_eq!(1, get_bit(0x80_u8, 7));
    assert_eq!(1, get_bit(0x8000_0000_u32, 31));
}

#[test]
fn a_pattern_placed_in_a_span_is_read_back() {
    for start in 0..64usize {
        for end in start..64usize {
            let width = end - start + 1;
            let mask = if width == 64 { u64::MAX } else { (1u64 << width) - 1 };
            let pattern = 0xa5a5_5a5a_c3c3_3c3c_u64 & mask;
            assert_eq!(get_bits(pattern << start, start, end), pattern);
        }
    }
}

#[test]
fn a_span_of_one_bit_is_that_bit() {
    for value in [0u64, 1, 0x4756, 0x8000_0000_0000_0001, u64::MAX, 0xdead_beef_0bad_f00d] {
        for index in 0..64usize {
            assert_eq!(get_bits(value, index, index), get_bit(value, index));
        }
    }
    for index in 0..8usize {
        assert_eq!(get_bits(0xa5_u8, index, index), get_bit(0xa5_u8, index));
    }
}

#[test]
fn plain_field_keeps_the_bits_of_its_span() {
    let whole: BitField<0, 63> = BitField::new(u64::MAX);
    assert_eq!(whole.value(), u64::MAX);
    let top: BitField<62, 63> = BitField::new(0x8000_0000_0014_1101);
    assert_eq!(top.value(), 2);
    let single: BitField<12, 12> = BitField::new(0x1000);
    assert_eq!(single.value(), 1);
    assert_eq!(BitField::<0, 63>::size(), 64);
    assert_eq!(BitField::<9, 9>::size(), 1);
}

#[test]
fn plain_field_is_shown_in_binary_as_wide_as_the_field() {
    let field: BitField<4, 7> = BitField::new(0x50);
    assert_eq!(field.format(), "0b0101");
    let single: BitField<3, 3> = BitField::new(0);
    assert_eq!(single.format(), "0b0");
}

#[test]
fn plain_field_takes_a_new_value() {
    let mut field: BitField<4, 7> = BitField::new(0x50);
    field.set_value(0xf);
    assert_eq!(field.value(), 0xf);
    field.set_value(0);
    assert_eq!(field.value(), 0);
}

#[test]
fn shifts_of_a_word_drop_what_leaves_it() {
    assert_eq!(0xffu8.shift_left(4), 0xf0);
    assert_eq!(0xffu8.shift_right(4), 0x0f);
    assert_eq!(0x8001u16.shift_left(1), 0x0002);
    assert_eq!(0x8001u16.shift_right(15), 1);
    assert_eq!(0xdead_beefu32.shift_left(16), 0xbeef_0000);
    assert_eq!(0xdead_beefu32.shift_right(16), 0xdead);
    assert_eq!(u64::MAX.shift_left(63), 1 << 63);
    assert_eq!(u64::MAX.shift_right(63), 1);
    assert_eq!(0x1234u64.shift_left(0), 0x1234);
    assert_eq!(<u8 as Word>::last_bit(), 7);
    assert_eq!(<u16 as Word>::last_bit(), 15);
    assert_eq!(<u32 as Word>::last_bit(), 31);
    assert_eq!(<u64 as Word>::last_bit(), 63);
}
