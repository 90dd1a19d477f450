use rv_format::csr::CsrError;
use rv_format::inst::InstrError;
use rv_format::vmem::VmemError;
use rv_format::{decode, DecodeError};

#[test]
fn instruction_formats_are_tried_first() {
    assert_eq!(
        decode("r_inst", 0x002081b3),
        Ok(rv_format::inst::format("r_inst", 0x002081b3).unwrap())
    );
    assert_eq!(
        decode("opcode", 0x33).unwrap(),
        "opcode\n------\nopcode: OP\n"
    );
}

#[test]
fn registers_are_tried_second() {
    assert_eq!(
        decode("misa", 0x8000000000141101),
        Ok(rv_format::csr::format("misa", 0x8000000000141101).unwrap())
    );
    assert_eq!(
        decode("0x305", 0x80001235).unwrap(),
        "mtvec\n-----\nbase: 0x2000048d\nmode: Vectored\n"
    );
}

#[test]
fn translation_words_are_tried_last() {
    assert_eq!(
        decode("pte_sv39", 0x8000_0000_2000_04cf),
        Ok(rv_format::vmem::format("pte_sv39", 0x8000_0000_2000_04cf).unwrap())
    );
    assert_eq!(
        decode("SV32_VADDR", 0xffc0_1abc).unwrap(),
        "vaddr32\n-------\npage_offset: 0xabc\nvpn0: 0x1 -> 0x4\nvpn1: 0x3ff -> 0xffc\n"
    );
}

#[test]
fn a_whole_instruction_fails_without_a_second_try() {
    for name in ["ins", "inst", "instr"] {
        assert_eq!(
            decode(name, 0x13),
            Err(DecodeError::Instruction(InstrError::UnknownInstruction(0x13)))
        );
    }
}

#[test]
fn what_nothing_knows_fails_with_both_reasons() {
    assert_eq!(
        decode("notareg", 0),
        Err(DecodeError::NoFormat {
            csr: CsrError::UnknownIdentifier("notareg".to_string()),
            vmem: VmemError::Unknown("notareg".to_string()),
        })
    );
    assert_eq!(
        decode("cycle", 0),
        Err(DecodeError::NoFormat {
            csr: CsrError::UnimplementedIdentifier("cycle".to_string()),
            vmem: VmemError::Unknown("cycle".to_string()),
        })
    );
    assert_eq!(
        decode("", 0),
        Err(DecodeError::NoFormat {
            csr: CsrError::UnknownIdentifier("".to_string()),
            vmem: VmemError::Unknown("".to_string()),
        })
    );
}
