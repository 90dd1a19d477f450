use rv_format::bitfield::{
    get_bit, get_bits, shift_left, Arch, Atp, Bin, BitField, BitFieldType, Bool, Dec, ExcCode,
    Hex, PmpXCfg, Ppn, Priv, RSh, Reserved, Tvec,
};

#[test]
fn bitfield_bitfield_size() {
    let s = BitField::<Bin, 4, 7>::size();
    assert_eq!(s, 4);
}

#[test]
fn bitfield_bitfield_from_u64() {
    let v = 0x4756_u64;
    let b: BitField<Bin, 2, 5> = BitField::from(v);
    assert_eq!(b.value(), 5);
}

#[test]
fn bitfield_format_bin() {
    let b = BitField::<Bin, 0, 5>::new(0x5);
    let s = b.format();
    assert_eq!(s, "0b000101");
}

#[test]
fn bitfield_get_bit_u8() {
    assert_eq!(1, get_bit(0b0000_0010_u8, 1));
    assert_eq!(0, get_bit(0b1111_1011_u8, 2));
}

#[test]
fn bitfield_get_bit_u16() {
    assert_eq!(1, get_bit(0x4000_u16, 14));
    assert_eq!(0, get_bit(0xfdff_u16, 9));
}

#[test]
fn bitfield_get_bits_u16() {
    assert_eq!(3, get_bits(0b000_1100_u8, 2, 3));
    assert_eq!(0xf, get_bits(0b011_1100_u8, 2, 5));
}

#[test]
fn field_holds_what_direct_extraction_gives() {
    for value in [0u64, 0x4756, 0x8000_0000_0014_1101, u64::MAX, 0x0123_4567_89ab_cdef] {
        assert_eq!(BitField::<Hex, 2, 5>::new(value).value(), get_bits(value, 2, 5));
        assert_eq!(BitField::<Hex, 0, 63>::new(value).value(), get_bits(value, 0, 63));
        assert_eq!(BitField::<Hex, 62, 63>::new(value).value(), get_bits(value, 62, 63));
        assert_eq!(BitField::<Hex, 63, 63>::new(value).value(), get_bit(value, 63));
        assert_eq!(BitField::<Hex, 0, 0>::new(value).value(), get_bit(value, 0));
    }
}

#[test]
fn field_takes_a_new_value() {
    let mut field = BitField::<Dec, 7, 11>::new(0);
    field.set_value(31);
    assert_eq!(field.value(), 31);
    assert_eq!(field.format(), "31");
}

#[test]
fn binary_is_padded_to_the_width() {
    assert_eq!(Bin::decode(0x5, 6), "0b000101");
    assert_eq!(Bin::decode(0, 1), "0b0");
    assert_eq!(Bin::decode(1, 1), "0b1");
    assert_eq!(Bin::decode(0, 4), "0b0000");
    assert_eq!(Bin::decode(u64::MAX, 64), format!("0b{}", "1".repeat(64)));
}

#[test]
fn binary_wider_than_the_field_is_shown_whole() {
    assert_eq!(Bin::decode(0b10110, 2), "0b10110");
    assert_eq!(Bin::decode(1, 0), "0b1");
}

#[test]
fn hexadecimal_is_lower_case_without_padding() {
    assert_eq!(Hex::decode(0, 64), "0x0");
    assert_eq!(Hex::decode(0xABCDEF, 24), "0xabcdef");
    assert_eq!(Hex::decode(u64::MAX, 64), "0xffffffffffffffff");
    assert_eq!(Hex::decode(0x10, 8), "0x10");
}

#[test]
fn decimal_is_plain() {
    assert_eq!(Dec::decode(0, 5), "0");
    assert_eq!(Dec::decode(31, 5), "31");
    assert_eq!(Dec::decode(u64::MAX, 64), "18446744073709551615");
    assert_eq!(Dec::decode(1000, 12), "1000");
}

#[test]
fn boolean_warns_beyond_one() {
    assert_eq!(Bool::decode(0, 1), "false");
    assert_eq!(Bool::decode(1, 1), "true");
    assert_eq!(
        Bool::decode(2, 2),
        "\x1b[33mCould not represent 0b10 as boolean\x1b[0m"
    );
}

#[test]
fn architecture_names_three_widths() {
    assert_eq!(Arch::decode(1, 2), "RV32");
    assert_eq!(Arch::decode(2, 2), "RV64");
    assert_eq!(Arch::decode(3, 2), "RV128");
    assert_eq!(Arch::decode(0, 2), "\x1b[33mInvalid architecture (0b0)\x1b[0m");
    assert_eq!(Arch::decode(4, 3), "\x1b[33mInvalid architecture (0b100)\x1b[0m");
}

#[test]
fn privilege_two_is_reserved() {
    assert_eq!(Priv::decode(0, 2), "User");
    assert_eq!(Priv::decode(1, 2), "Supervisor");
    assert_eq!(Priv::decode(3, 2), "Machine");
    assert_eq!(Priv::decode(2, 2), "\x1b[33mInvalid privilege (0b10)\x1b[0m");
}

#[test]
fn address_translation_mode_boundaries() {
    assert_eq!(Atp::decode(0x0, 4), "Bare");
    assert_eq!(Atp::decode(0x1, 4), "Sv32");
    assert_eq!(Atp::decode(0x8, 4), "Sv39");
    assert_eq!(Atp::decode(0x9, 4), "Sv48");
    assert_eq!(Atp::decode(0xa, 4), "Sv57");
    let warning = Atp::decode(0x3, 4);
    assert!(warning.contains("0b11"));
    assert_eq!(
        warning,
        "\x1b[33mInvalid address translation mode (0b11)\x1b[0m"
    );
    assert_eq!(
        Atp::decode(0xb, 4),
        "\x1b[33mInvalid address translation mode (0b1011)\x1b[0m"
    );
}

#[test]
fn trap_vector_mode_names_two_modes() {
    assert_eq!(Tvec::decode(0, 2), "Direct");
    assert_eq!(Tvec::decode(1, 2), "Vectored");
    assert_eq!(Tvec::decode(2, 2), "\x1b[33mInvalid (0b10)\x1b[0m");
    assert_eq!(Tvec::decode(3, 2), "\x1b[33mInvalid (0b11)\x1b[0m");
}

#[test]
fn exception_code_boundaries() {
    assert_eq!(ExcCode::decode((1 << 63) | 11, 64), "Machine external interrupt");
    assert_eq!(ExcCode::decode(12, 64), "Instruction page fault");
    let warning = ExcCode::decode(99, 64);
    assert!(warning.contains("99"));
    assert_eq!(warning, "\x1b[33mUnknown exception code (99)\x1b[0m");
}

#[test]
fn exception_code_tells_interrupts_from_exceptions() {
    assert_eq!(ExcCode::decode((1 << 63) | 1, 64), "Supervisor software interrupt");
    assert_eq!(ExcCode::decode(1, 64), "Instruction access fault");
    assert_eq!(
        ExcCode::decode((1 << 63) | 12, 64),
        "Supervisor guest external interrrupt"
    );
    assert_eq!(ExcCode::decode(0, 64), "Instruction address misaligned");
    assert_eq!(ExcCode::decode(23, 64), "Store/AMO guest-page fault");
    assert_eq!(
        ExcCode::decode(1 << 63, 64),
        "\x1b[33mUnknown exception code (0)\x1b[0m"
    );
    assert_eq!(
        ExcCode::decode(14, 64),
        "\x1b[33mUnknown exception code (14)\x1b[0m"
    );
    assert_eq!(
        ExcCode::decode(u64::MAX, 64),
        "\x1b[33mUnknown exception code (9223372036854775807)\x1b[0m"
    );
}

#[test]
fn every_named_cause_is_found() {
    let interrupts = [
        (1, "Supervisor software interrupt"),
        (2, "Virtual supervisor software interrupt"),
        (3, "Machine software interrupt"),
        (5, "Supervisor timer interrupt"),
        (6, "Virtual supervisor timer interrupt"),
        (7, "Machine timer interrupt"),
        (9, "Supervisor external interrupt"),
        (10, "Virtual supervisor external interrupt"),
        (11, "Machine external interrupt"),
        (12, "Supervisor guest external interrrupt"),
    ];
    for (code, name) in interrupts {
        assert_eq!(ExcCode::decode((1u64 << 63) | code, 64), name);
    }
    let exceptions = [
        (0, "Instruction address misaligned"),
        (1, "Instruction access fault"),
        (2, "Illegal instruction"),
        (3, "Breakpoint"),
        (4, "Load address misaligned"),
        (5, "Load access fault"),
        (6, "Store/AMO address misaligned"),
        (7, "Store/AMO access fault"),
        (8, "Environment call from U-mode"),
        (9, "Environment call from HS-mode"),
        (10, "Environment call from VS-mode"),
        (11, "Environment call from M-mode"),
        (12, "Instruction page fault"),
        (13, "Load page fault"),
        (15, "Store/AMO page fault"),
        (20, "Instruction guest-page fault"),
        (21, "Load guest-page fault"),
        (22, "Virtual instruction"),
        (23, "Store/AMO guest-page fault"),
    ];
    for (code, name) in exceptions {
        assert_eq!(ExcCode::decode(code, 64), name);
    }
    for code in [0u64, 4, 8, 13, 16, 63] {
        assert_eq!(
            ExcCode::decode((1u64 << 63) | code, 64),
            format!("\x1b[33mUnknown exception code ({})\x1b[0m", code)
        );
    }
    for code in [14u64, 16, 17, 18, 19, 24, 64] {
        assert_eq!(
            ExcCode::decode(code, 64),
            format!("\x1b[33mUnknown exception code ({})\x1b[0m", code)
        );
    }
}

#[test]
fn physical_page_number_is_split_by_scheme() {
    assert_eq!(Ppn::<32>::decode(0x2abcde, 22), "0xaaf 0xde -> 0x2abcde000");
    assert_eq!(
        Ppn::<39>::decode(0x123456789ab, 44),
        "0x48d159 0x1c4 0x1ab -> 0x123456789ab000"
    );
    assert_eq!(
        Ppn::<48>::decode(0x123456789ab, 44),
        "0x2468 0x159 0x1c4 0x1ab -> 0x123456789ab000"
    );
    assert_eq!(
        Ppn::<57>::decode(0x123456789ab, 44),
        "0x12 0x68 0x159 0x1c4 0x1ab -> 0x123456789ab000"
    );
}

#[test]
fn physical_page_number_beyond_its_bits_loses_the_top() {
    assert_eq!(
        Ppn::<39>::decode(u64::MAX, 44),
        "0x3ffffff 0x1ff 0x1ff -> 0xfffffffffffff000"
    );
    assert_eq!(Ppn::<32>::decode(0, 22), "0x0 0x0 -> 0x0");
}

#[test]
fn shifted_value_is_shown_stored_and_meant() {
    assert_eq!(RSh::<2, Hex>::decode(0x1234, 54), "0x1234 -> 0x48d0");
    assert_eq!(RSh::<12, Hex>::decode(1, 1), "0x1 -> 0x1000");
    assert_eq!(RSh::<0, Dec>::decode(7, 3), "7 -> 7");
    assert_eq!(RSh::<3, Bin>::decode(0b101, 3), "0b101 -> 0b101000");
    assert_eq!(RSh::<1, RSh<1, Dec>>::decode(3, 2), "3 -> 6 -> 6 -> 12");
}

#[test]
fn shift_drops_what_leaves_the_word() {
    assert_eq!(shift_left(1, 63), 1 << 63);
    assert_eq!(shift_left(3, 63), 1 << 63);
    assert_eq!(shift_left(u64::MAX, 64), 0);
    assert_eq!(shift_left(u64::MAX, 200), 0);
    assert_eq!(shift_left(0x1234, 0), 0x1234);
    assert_eq!(RSh::<64, Hex>::decode(0xff, 8), "0xff -> 0x0");
    assert_eq!(RSh::<60, Hex>::decode(0xff, 8), "0xff -> 0xf000000000000000");
}

#[test]
fn reserved_field_is_marked_where_it_differs() {
    assert_eq!(Reserved::<0, Hex>::decode(0, 10), "0x0");
    assert_eq!(
        Reserved::<0, Hex>::decode(1, 10),
        "\x1b[33m0x1 (reserved, expected 0x0)\x1b[0m"
    );
    assert_eq!(Reserved::<0, Bin>::decode(0, 1), "0b0");
    assert_eq!(
        Reserved::<0, Bin>::decode(1, 1),
        "\x1b[33m0b1 (reserved, expected 0b0)\x1b[0m"
    );
    assert_eq!(Reserved::<3, Dec>::decode(3, 2), "3");
    assert_eq!(
        Reserved::<3, Dec>::decode(2, 2),
        "\x1b[33m2 (reserved, expected 3)\x1b[0m"
    );
}

#[test]
fn protection_configuration_names_its_parts() {
    assert_eq!(PmpXCfg::decode(0x00, 8), "L=0 A=OFF X=0 W=0 R=0");
    assert_eq!(PmpXCfg::decode(0x9f, 8), "L=1 A=NAPOT X=1 W=1 R=1");
    assert_eq!(PmpXCfg::decode(0x0d, 8), "L=0 A=TOR X=1 W=0 R=1");
    assert_eq!(PmpXCfg::decode(0x13, 8), "L=0 A=NA4 X=0 W=1 R=1");
    assert_eq!(PmpXCfg::decode(0x60, 8), "L=0 A=OFF X=0 W=0 R=0");
}

#[test]
fn field_is_shown_by_its_rule() {
    assert_eq!(BitField::<Arch, 62, 63>::new(0x8000_0000_0014_1101).format(), "RV64");
    assert_eq!(BitField::<Hex, 12, 55>::new(0x00ab_cdef_1234_5678).format(), "0xabcdef12345");
    assert_eq!(BitField::<Bin, 8, 9>::new(0x100).format(), "0b01");
    assert_eq!(BitField::<Bool, 63, 63>::new(1 << 63).format(), "true");
    assert_eq!(
        BitField::<RSh<2, Hex>, 0, 53>::new(0x0040_0000_0000_1234).format(),
        "0x1234 -> 0x48d0"
    );
}

fn samples() -> Vec<u64> {
    let mut values = vec![0, 1, 2, 0xff, 0x100, u64::MAX, 1 << 63, (1 << 63) - 1];
    let mut state: u64 = 0x9e37_79b9_7f4a_7c15;
    for _ in 0..200 {
        state = state.wrapping_mul(6364136223846793005).wrapping_add(1442695040888963407);
        values.push(state);
        values.push(state >> (state % 64));
    }
    values
}

#[test]
fn number_rules_agree_with_the_formatting_of_the_standard_library() {
    for value in samples() {
        assert_eq!(Hex::decode(value, 64), format!("0x{:x}", value));
        assert_eq!(Dec::decode(value, 64), format!("{}", value));
        assert_eq!(Bin::decode(value, 64), format!("0b{:064b}", value));
        assert_eq!(Bin::decode(value, 7), format!("0b{:07b}", value));
        assert_eq!(Bin::decode(value, 0), format!("0b{:b}", value));
    }
}

#[test]
fn extraction_agrees_with_shift_and_mask() {
    for value in samples() {
        for (start, end) in [(0, 0), (0, 63), (63, 63), (2, 5), (12, 55), (60, 63), (1, 62)] {
            let width = end - start + 1;
            let mask = if width == 64 { u64::MAX } else { (1u64 << width) - 1 };
            assert_eq!(get_bits(value, start, end), (value >> start) & mask);
        }
        for index in [0, 1, 31, 32, 62, 63] {
            assert_eq!(get_bit(value, index), (value >> index) & 1);
        }
    }
}
