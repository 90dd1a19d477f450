use rv_format::bitfield::BitFieldType;
use rv_format::format::Csr;
use rv_format::inst::instructions::format_instr;
use rv_format::inst::{entry, Entry, InstLayout, InstrError, Opcode, OpcodeType, RTypeInst};

fn report(name: &str, value: u64) -> String {
    rv_format::inst::format(name, value).unwrap()
}

#[test]
fn register_register_instruction_report() {
    // add x3, x1, x2
    assert_eq!(
        report("r_inst", 0x002081b3),
        "rtypeinst\n---------\nopcode: 0b0110011\nrd: 3\nfunc3: 0b000\nrs1: 1\nrs2: 2\n\
         func7: 0b0000000\n"
    );
    assert_eq!(report("inst_r", 0x002081b3), report("r_inst", 0x002081b3));
}

#[test]
fn branch_instruction_report_places_the_immediate() {
    assert_eq!(
        report("b_inst", 0xfe208ee3),
        "btypeinst\n---------\nopcode: 0b1100011\nimm11: 0x1 -> 0x800\nimm1_4: 0xe\n\
         func3: 0b000\nrs1: 1\nrs2: 2\nimm5_10: 0x3f -> 0x7e0\nimm12: 0x1 -> 0x1000\n"
    );
}

#[test]
fn each_format_goes_by_two_names() {
    let names = [
        ("r_inst", "inst_r", InstLayout::RTypeInst, "rtypeinst"),
        ("i_inst", "inst_i", InstLayout::ITypeInst, "itypeinst"),
        ("s_inst", "inst_s", InstLayout::STypeInst, "stypeinst"),
        ("b_inst", "inst_b", InstLayout::BTypeInst, "btypeinst"),
        ("u_inst", "inst_u", InstLayout::UTypeInst, "utypeinst"),
        ("j_inst", "inst_j", InstLayout::JTypeInst, "jtypeinst"),
    ];
    for (first, second, layout, title) in names {
        assert_eq!(entry(first), Entry::Layout(layout));
        assert_eq!(entry(second), Entry::Layout(layout));
        assert_eq!(report(first, 0x12345678), report(second, 0x12345678));
        assert!(report(first, 0).starts_with(&format!("{}\n{}\n", title, "-".repeat(9))));
    }
    assert_eq!(entry("opcode"), Entry::Layout(InstLayout::Opcode));
    assert_eq!(entry("OPCODE"), Entry::Layout(InstLayout::Opcode));
    assert_eq!(entry("R_Inst"), Entry::Layout(InstLayout::RTypeInst));
}

#[test]
fn upper_immediate_and_jump_reports() {
    assert_eq!(
        report("u_inst", 0x12345037),
        "utypeinst\n---------\nopcode: 0b0110111\nrd: 0\nimm: 0x12345 -> 0x12345000\n"
    );
    assert_eq!(
        report("j_inst", 0xffffffff),
        "jtypeinst\n---------\nopcode: 0b1111111\nrd: 31\nimm12_19: 0xff -> 0xff000\n\
         imm11: 0x1 -> 0x800\nimm1_10: 0x3ff -> 0x7fe\nimm20: 0x1 -> 0x100000\n"
    );
    assert_eq!(
        report("i_inst", 0xfff00093),
        "itypeinst\n---------\nopcode: 0b0010011\nrd: 1\nfunc3: 0b000\nrs1: 0\nimm: 0xfff\n"
    );
    assert_eq!(
        report("s_inst", 0xfe112e23),
        "stypeinst\n---------\nopcode: 0b0100011\nimm0_4: 0x1c\nfunc3: 0b010\nrs1: 2\n\
         rs2: 1\nimm5_11: 0x7f -> 0xfe0\n"
    );
}

#[test]
fn whole_instructions_have_no_layout() {
    for name in ["ins", "inst", "instr", "INSTR"] {
        assert_eq!(entry(name), Entry::Instruction);
        assert_eq!(
            rv_format::inst::format(name, 0x13),
            Err(InstrError::UnknownInstruction(0x13))
        );
    }
    assert_eq!(format_instr(0x13), Err(InstrError::UnknownInstruction(0x13)));
    assert_eq!(format_instr(0), Err(InstrError::UnknownInstruction(0)));
}

#[test]
fn what_is_no_format_is_refused_with_its_name() {
    for name in ["", "misa", "rinst", "inst_x", "op code"] {
        assert_eq!(entry(name), Entry::Unknown);
        assert_eq!(
            rv_format::inst::format(name, 0),
            Err(InstrError::NoInstructionFormat(name.to_string()))
        );
    }
}

#[test]
fn instruction_messages() {
    assert_eq!(
        InstrError::UnknownInstruction(0x13).message(),
        "0x0000000000000013 is not a known instruction"
    );
    assert_eq!(
        InstrError::UnknownInstruction(u64::MAX).message(),
        "0xffffffffffffffff is not a known instruction"
    );
    assert_eq!(InstrError::UnknownOpcode(0x7).message(), "0x07 is not a known opcode");
    assert_eq!(InstrError::UnknownOpcode(0x123).message(), "0x123 is not a known opcode");
    assert_eq!(
        InstrError::NoInstructionFormat("x_inst".to_string()).message(),
        "\"x_inst\" is not a recognized as an instruction format"
    );
}

#[test]
fn opcodes_of_the_base_map() {
    let map = [
        (0b00_000_11, OpcodeType::Load, "LOAD"),
        (0b00_001_11, OpcodeType::LoadFp, "LOAD-FP"),
        (0b00_010_11, OpcodeType::Custom0, "custom-0"),
        (0b00_011_11, OpcodeType::MiscMem, "MISC-MEM"),
        (0b00_100_11, OpcodeType::OpImm, "OP-IMM"),
        (0b00_101_11, OpcodeType::Auipc, "AUIPC"),
        (0b00_110_11, OpcodeType::OpImm32, "OP-IMM-32"),
        (0b01_000_11, OpcodeType::Store, "STORE"),
        (0b01_001_11, OpcodeType::StoreFp, "STORE-FP"),
        (0b01_010_11, OpcodeType::Custom1, "custom-1"),
        (0b01_011_11, OpcodeType::Amo, "AMO"),
        (0b01_100_11, OpcodeType::Op, "OP"),
        (0b01_101_11, OpcodeType::Lui, "LUI"),
        (0b01_110_11, OpcodeType::Op32, "OP-32"),
        (0b10_000_11, OpcodeType::MAdd, "MADD"),
        (0b10_001_11, OpcodeType::MSub, "MSUB"),
        (0b10_010_11, OpcodeType::NMSub, "NMSUB"),
        (0b10_011_11, OpcodeType::NMAdd, "NMADD"),
        (0b10_100_11, OpcodeType::OpFp, "OP-FP"),
        (0b10_101_11, OpcodeType::Reserved0, "reserved"),
        (0b10_110_11, OpcodeType::Custom2, "custom-2"),
        (0b11_000_11, OpcodeType::Branch, "BRANCH"),
        (0b11_001_11, OpcodeType::Jalr, "JALR"),
        (0b11_010_11, OpcodeType::Reserved1, "reserved"),
        (0b11_011_11, OpcodeType::Jal, "JAL"),
        (0b11_100_11, OpcodeType::System, "SYSTEM"),
        (0b11_101_11, OpcodeType::Reserved2, "reserved"),
        (0b11_110_11, OpcodeType::Custom3, "custom-3"),
    ];
    for (code, opcode, name) in map {
        assert_eq!(OpcodeType::try_from(code), Ok(opcode));
        assert_eq!(opcode.name(), name);
        assert_eq!(OpcodeType::decode(code, 7), name);
    }
    let known: Vec<u64> = map.iter().map(|entry| entry.0).collect();
    for code in 0..256u64 {
        if !known.contains(&code) {
            assert_eq!(OpcodeType::try_from(code), Err(InstrError::UnknownOpcode(code)));
        }
    }
}

#[test]
fn invalid_opcode_is_a_warning() {
    assert_eq!(OpcodeType::decode(0, 7), "\x1b[33mInvalid base opcode (0x00)\x1b[0m");
    assert_eq!(OpcodeType::decode(0x7f, 7), "\x1b[33mInvalid base opcode (0x7f)\x1b[0m");
    assert_eq!(OpcodeType::decode(0x1f, 7), "\x1b[33mInvalid base opcode (0x1f)\x1b[0m");
    assert_eq!(OpcodeType::decode(0x1234, 7), "\x1b[33mInvalid base opcode (0x1234)\x1b[0m");
}

#[test]
fn opcode_report_reads_the_lowest_seven_bits() {
    assert_eq!(report("opcode", 0x002081b3), "opcode\n------\nopcode: OP\n");
    assert_eq!(report("opcode", 0xffffff83), "opcode\n------\nopcode: LOAD\n");
    assert_eq!(
        report("opcode", 0x2),
        "opcode\n------\nopcode: \x1b[33mInvalid base opcode (0x02)\x1b[0m\n"
    );
    assert_eq!(Opcode::new(0x6f).render(), "opcode\n------\nopcode: JAL\n");
    assert_eq!(Opcode::new(0x6f).opcode.value(), 0x6f);
    assert_eq!(RTypeInst::new(0x002081b3).rd.value(), 3);
    assert_eq!(RTypeInst::name(), "rtypeinst");
}
