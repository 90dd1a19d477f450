//! Layouts of the base instruction formats.
use crate::bitfield::{Bin, BitField, Dec, Hex, RSh};
use crate::format::{heading, line, push_line, start_report, Csr};
use vstd::prelude::*;

verus! {

/// Register-register instruction
pub struct RTypeInst {
    pub opcode: BitField<Bin, 0, 6>,
    pub rd: BitField<Dec, 7, 11>,
    pub func3: BitField<Bin, 12, 14>,
    pub rs1: BitField<Dec, 15, 19>,
    pub rs2: BitField<Dec, 20, 24>,
    pub func7: BitField<Bin, 25, 31>,
}

impl Csr for RTypeInst {
    open spec fn title() -> Seq<char> {
        "rtypeinst"@
    }

    open spec fn decoded(value: u64) -> Self {
        RTypeInst {
            opcode: BitField::decoded(value),
            rd: BitField::decoded(value),
            func3: BitField::decoded(value),
            rs1: BitField::decoded(value),
            rs2: BitField::decoded(value),
            func7: BitField::decoded(value),
        }
    }

    open spec fn report(&self) -> Seq<char> {
        heading(Self::title())
            + line("opcode"@, self.opcode.text())
            + line("rd"@, self.rd.text())
            + line("func3"@, self.func3.text())
            + line("rs1"@, self.rs1.text())
            + line("rs2"@, self.rs2.text())
            + line("func7"@, self.func7.text())
    }

    fn new(value: u64) -> (csr: Self) {
        RTypeInst {
            opcode: BitField::new(value),
            rd: BitField::new(value),
            func3: BitField::new(value),
            rs1: BitField::new(value),
            rs2: BitField::new(value),
            func7: BitField::new(value),
        }
    }

    fn name() -> (name: String) {
        String::from_str("rtypeinst")
    }

    fn render(&self) -> (text: String) {
        let mut text = start_report("rtypeinst");
        push_line(&mut text, "opcode", &self.opcode);
        push_line(&mut text, "rd", &self.rd);
        push_line(&mut text, "func3", &self.func3);
        push_line(&mut text, "rs1", &self.rs1);
        push_line(&mut text, "rs2", &self.rs2);
        push_line(&mut text, "func7", &self.func7);
        text
    }
}

/// Register-immediate instruction
pub struct ITypeInst {
    pub opcode: BitField<Bin, 0, 6>,
    pub rd: BitField<Dec, 7, 11>,
    pub func3: BitField<Bin, 12, 14>,
    pub rs1: BitField<Dec, 15, 19>,
    pub imm: BitField<Hex, 20, 31>,
}

impl Csr for ITypeInst {
    open spec fn title() -> Seq<char> {
        "itypeinst"@
    }

    open spec fn decoded(value: u64) -> Self {
        ITypeInst {
            opcode: BitField::decoded(value),
            rd: BitField::decoded(value),
            func3: BitField::decoded(value),
            rs1: BitField::decoded(value),
            imm: BitField::decoded(value),
        }
    }

    open spec fn report(&self) -> Seq<char> {
        heading(Self::title())
            + line("opcode"@, self.opcode.text())
            + line("rd"@, self.rd.text())
            + line("func3"@, self.func3.text())
            + line("rs1"@, self.rs1.text())
            + line("imm"@, self.imm.text())
    }

    fn new(value: u64) -> (csr: Self) {
        ITypeInst {
            opcode: BitField::new(value),
            rd: BitField::new(value),
            func3: BitField::new(value),
            rs1: BitField::new(value),
            imm: BitField::new(value),
        }
    }

    fn name() -> (name: String) {
        String::from_str("itypeinst")
    }

    fn render(&self) -> (text: String) {
        let mut text = start_report("itypeinst");
        push_line(&mut text, "opcode", &self.opcode);
        push_line(&mut text, "rd", &self.rd);
        push_line(&mut text, "func3", &self.func3);
        push_line(&mut text, "rs1", &self.rs1);
        push_line(&mut text, "imm", &self.imm);
        text
    }
}

/// Store instruction
///
/// The immediate is scattered over two fields; the upper one is also shown
/// at its place in the immediate.
pub struct STypeInst {
    pub opcode: BitField<Bin, 0, 6>,
    pub imm0_4: BitField<Hex, 7, 11>,
    pub func3: BitField<Bin, 12, 14>,
    pub rs1: BitField<Dec, 15, 19>,
    pub rs2: BitField<Dec, 20, 24>,
    pub imm5_11: BitField<RSh<5, Hex>, 25, 31>,
}

impl Csr for STypeInst {
    open spec fn title() -> Seq<char> {
        "stypeinst"@
    }

    open spec fn decoded(value: u64) -> Self {
        STypeInst {
            opcode: BitField::decoded(value),
            imm0_4: BitField::decoded(value),
            func3: BitField::decoded(value),
            rs1: BitField::decoded(value),
            rs2: BitField::decoded(value),
            imm5_11: BitField::decoded(value),
        }
    }

    open spec fn report(&self) -> Seq<char> {
        heading(Self::title())
            + line("opcode"@, self.opcode.text())
            + line("imm0_4"@, self.imm0_4.text())
            + line("func3"@, self.func3.text())
            + line("rs1"@, self.rs1.text())
            + line("rs2"@, self.rs2.text())
            + line("imm5_11"@, self.imm5_11.text())
    }

    fn new(value: u64) -> (csr: Self) {
        STypeInst {
            opcode: BitField::new(value),
            imm0_4: BitField::new(value),
            func3: BitField::new(value),
            rs1: BitField::new(value),
            rs2: BitField::new(value),
            imm5_11: BitField::new(value),
        }
    }

    fn name() -> (name: String) {
        String::from_str("stypeinst")
    }

    fn render(&self) -> (text: String) {
        let mut text = start_report("stypeinst");
        push_line(&mut text, "opcode", &self.opcode);
        push_line(&mut text, "imm0_4", &self.imm0_4);
        push_line(&mut text, "func3", &self.func3);
        push_line(&mut text, "rs1", &self.rs1);
        push_line(&mut text, "rs2", &self.rs2);
        push_line(&mut text, "imm5_11", &self.imm5_11);
        text
    }
}

/// Conditional branch instruction
///
/// The immediate is scattered over four fields; each shifted one is also
/// shown at its place in the immediate.
pub struct BTypeInst {
    pub opcode: BitField<Bin, 0, 6>,
    pub imm11: BitField<RSh<11, Hex>, 7, 7>,
    pub imm1_4: BitField<Hex, 8, 11>,
    pub func3: BitField<Bin, 12, 14>,
    pub rs1: BitField<Dec, 15, 19>,
    pub rs2: BitField<Dec, 20, 24>,
    pub imm5_10: BitField<RSh<5, Hex>, 25, 30>,
    pub imm12: BitField<RSh<12, Hex>, 31, 31>,
}

impl Csr for BTypeInst {
    open spec fn title() -> Seq<char> {
        "btypeinst"@
    }

    open spec fn decoded(value: u64) -> Self {
        BTypeInst {
            opcode: BitField::decoded(value),
            imm11: BitField::decoded(value),
            imm1_4: BitField::decoded(value),
            func3: BitField::decoded(value),
            rs1: BitField::decoded(value),
            rs2: BitField::decoded(value),
            imm5_10: BitField::decoded(value),
            imm12: BitField::decoded(value),
        }
    }

    open spec fn report(&self) -> Seq<char> {
        heading(Self::title())
            + line("opcode"@, self.opcode.text())
            + line("imm11"@, self.imm11.text())
            + line("imm1_4"@, self.imm1_4.text())
            + line("func3"@, self.func3.text())
            + line("rs1"@, self.rs1.text())
            + line("rs2"@, self.rs2.text())
            + line("imm5_10"@, self.imm5_10.text())
            + line("imm12"@, self.imm12.text())
    }

    fn new(value: u64) -> (csr: Self) {
        BTypeInst {
            opcode: BitField::new(value),
            imm11: BitField::new(value),
            imm1_4: BitField::new(value),
            func3: BitField::new(value),
            rs1: BitField::new(value),
            rs2: BitField::new(value),
            imm5_10: BitField::new(value),
            imm12: BitField::new(value),
        }
    }

    fn name() -> (name: String) {
        String::from_str("btypeinst")
    }

    fn render(&self) -> (text: String) {
        let mut text = start_report("btypeinst");
        push_line(&mut text, "opcode", &self.opcode);
        push_line(&mut text, "imm11", &self.imm11);
        push_line(&mut text, "imm1_4", &self.imm1_4);
        push_line(&mut text, "func3", &self.func3);
        push_line(&mut text, "rs1", &self.rs1);
        push_line(&mut text, "rs2", &self.rs2);
        push_line(&mut text, "imm5_10", &self.imm5_10);
        push_line(&mut text, "imm12", &self.imm12);
        text
    }
}

/// Upper-immediate instruction
pub struct UTypeInst {
    pub opcode: BitField<Bin, 0, 6>,
    pub rd: BitField<Dec, 7, 11>,
    pub imm: BitField<RSh<12, Hex>, 12, 31>,
}

impl Csr for UTypeInst {
    open spec fn title() -> Seq<char> {
        "utypeinst"@
    }

    open spec fn decoded(value: u64) -> Self {
        UTypeInst {
            opcode: BitField::decoded(value),
            rd: BitField::decoded(value),
            imm: BitField::decoded(value),
        }
    }

    open spec fn report(&self) -> Seq<char> {
        heading(Self::title())
            + line("opcode"@, self.opcode.text())
            + line("rd"@, self.rd.text())
            + line("imm"@, self.imm.text())
    }

    fn new(value: u64) -> (csr: Self) {
        UTypeInst {
            opcode: BitField::new(value),
            rd: BitField::new(value),
            imm: BitField::new(value),
        }
    }

    fn name() -> (name: String) {
        String::from_str("utypeinst")
    }

    fn render(&self) -> (text: String) {
        let mut text = start_report("utypeinst");
        push_line(&mut text, "opcode", &self.opcode);
        push_line(&mut text, "rd", &self.rd);
        push_line(&mut text, "imm", &self.imm);
        text
    }
}

/// Unconditional jump instruction
///
/// The immediate is scattered over four fields, each also shown at its
/// place in the immediate.
pub struct JTypeInst {
    pub opcode: BitField<Bin, 0, 6>,
    pub rd: BitField<Dec, 7, 11>,
    pub imm12_19: BitField<RSh<12, Hex>, 12, 19>,
    pub imm11: BitField<RSh<11, Hex>, 20, 20>,
    pub imm1_10: BitField<RSh<1, Hex>, 21, 30>,
    pub imm20: BitField<RSh<20, Hex>, 31, 31>,
}

impl Csr for JTypeInst {
    open spec fn title() -> Seq<char> {
        "jtypeinst"@
    }

    open spec fn decoded(value: u64) -> Self {
        JTypeInst {
            opcode: BitField::decoded(value),
            rd: BitField::decoded(value),
            imm12_19: BitField::decoded(value),
            imm11: BitField::decoded(value),
            imm1_10: BitField::decoded(value),
            imm20: BitField::decoded(value),
        }
    }

    open spec fn report(&self) -> Seq<char> {
        heading(Self::title())
            + line("opcode"@, self.opcode.text())
            + line("rd"@, self.rd.text())
            + line("imm12_19"@, self.imm12_19.text())
            + line("imm11"@, self.imm11.text())
            + line("imm1_10"@, self.imm1_10.text())
            + line("imm20"@, self.imm20.text())
    }

    fn new(value: u64) -> (csr: Self) {
        JTypeInst {
            opcode: BitField::new(value),
            rd: BitField::new(value),
            imm12_19: BitField::new(value),
            imm11: BitField::new(value),
            imm1_10: BitField::new(value),
            imm20: BitField::new(value),
        }
    }

    fn name() -> (name: String) {
        String::from_str("jtypeinst")
    }

    fn render(&self) -> (text: String) {
        let mut text = start_report("jtypeinst");
        push_line(&mut text, "opcode", &self.opcode);
        push_line(&mut text, "rd", &self.rd);
        push_line(&mut text, "imm12_19", &self.imm12_19);
        push_line(&mut text, "imm11", &self.imm11);
        push_line(&mut text, "imm1_10", &self.imm1_10);
        push_line(&mut text, "imm20", &self.imm20);
        text
    }
}

} // verus!
