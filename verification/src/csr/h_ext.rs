//! Plain layouts of the registers of the hypervisor extension.
//!
//! The two delegation registers are reported on a single line, without a
//! heading.
use super::base::dec_arch;
use crate::bit::BitField;
use crate::bitfield::{Arch, BitFieldType};
use crate::format::{heading, line, push_text_line, start_report, Csr};
use vstd::prelude::*;

verus! {

/// Hypervisor Status Register
pub struct Hstatus {
    pub vsbe: BitField<5, 5>,
    pub gva: BitField<6, 6>,
    pub spv: BitField<7, 7>,
    pub spvp: BitField<8, 8>,
    pub hu: BitField<9, 9>,
    pub vgein: BitField<12, 17>,
    pub vtvm: BitField<20, 20>,
    pub vtw: BitField<21, 21>,
    pub vtsr: BitField<22, 22>,
    pub vsxl: BitField<32, 33>,
}

impl Csr for Hstatus {
    open spec fn title() -> Seq<char> {
        "hstatus"@
    }

    open spec fn decoded(value: u64) -> Self {
        Hstatus {
            vsbe: BitField::decoded(value),
            gva: BitField::decoded(value),
            spv: BitField::decoded(value),
            spvp: BitField::decoded(value),
            hu: BitField::decoded(value),
            vgein: BitField::decoded(value),
            vtvm: BitField::decoded(value),
            vtw: BitField::decoded(value),
            vtsr: BitField::decoded(value),
            vsxl: BitField::decoded(value),
        }
    }

    open spec fn report(&self) -> Seq<char> {
        "\n"@ + heading(Self::title())
            + line("VSBE"@, self.vsbe.text())
            + line("GVA"@, self.gva.text())
            + line("SPV"@, self.spv.text())
            + line("SPVP"@, self.spvp.text())
            + line("HU"@, self.hu.text())
            + line("VGEIN"@, self.vgein.text())
            + line("VTVM"@, self.vtvm.text())
            + line("VTW"@, self.vtw.text())
            + line("VTSR"@, self.vtsr.text())
            + line("VSXL"@, Arch::text(self.vsxl@, 0))
    }

    fn new(value: u64) -> (csr: Self) {
        Hstatus {
            vsbe: BitField::new(value),
            gva: BitField::new(value),
            spv: BitField::new(value),
            spvp: BitField::new(value),
            hu: BitField::new(value),
            vgein: BitField::new(value),
            vtvm: BitField::new(value),
            vtw: BitField::new(value),
            vtsr: BitField::new(value),
            vsxl: BitField::new(value),
        }
    }

    fn name() -> (name: String) {
        String::from_str("hstatus")
    }

    fn render(&self) -> (text: String) {
        let mut text = String::from_str("\n");
        text.append(start_report("hstatus").as_str());
        push_text_line(&mut text, "VSBE", self.vsbe.format().as_str());
        push_text_line(&mut text, "GVA", self.gva.format().as_str());
        push_text_line(&mut text, "SPV", self.spv.format().as_str());
        push_text_line(&mut text, "SPVP", self.spvp.format().as_str());
        push_text_line(&mut text, "HU", self.hu.format().as_str());
        push_text_line(&mut text, "VGEIN", self.vgein.format().as_str());
        push_text_line(&mut text, "VTVM", self.vtvm.format().as_str());
        push_text_line(&mut text, "VTW", self.vtw.format().as_str());
        push_text_line(&mut text, "VTSR", self.vtsr.format().as_str());
        push_text_line(&mut text, "VSXL", dec_arch(self.vsxl.value()).as_str());
        text
    }
}

/// Hypervisor Exception Delegation Register, reported on a single line
pub struct Hedeleg(pub BitField<0, 63>);

impl Csr for Hedeleg {
    open spec fn title() -> Seq<char> {
        "hedeleg"@
    }

    open spec fn decoded(value: u64) -> Self {
        Hedeleg(BitField::decoded(value))
    }

    open spec fn report(&self) -> Seq<char> {
        line("hedeleg"@, self.0.text())
    }

    fn new(value: u64) -> (csr: Self) {
        Hedeleg(BitField::new(value))
    }

    fn name() -> (name: String) {
        String::from_str("hedeleg")
    }

    fn render(&self) -> (text: String) {
        let mut text = String::new();
        push_text_line(&mut text, "hedeleg", self.0.format().as_str());
        assert(text@ =~= self.report());
        text
    }
}

/// Hypervisor Interrupt Delegation Register, reported on a single line
pub struct Hideleg(pub BitField<0, 63>);

impl Csr for Hideleg {
    open spec fn title() -> Seq<char> {
        "hideleg"@
    }

    open spec fn decoded(value: u64) -> Self {
        Hideleg(BitField::decoded(value))
    }

    open spec fn report(&self) -> Seq<char> {
        line("hideleg"@, self.0.text())
    }

    fn new(value: u64) -> (csr: Self) {
        Hideleg(BitField::new(value))
    }

    fn name() -> (name: String) {
        String::from_str("hideleg")
    }

    fn render(&self) -> (text: String) {
        let mut text = String::new();
        push_text_line(&mut text, "hideleg", self.0.format().as_str());
        assert(text@ =~= self.report());
        text
    }
}

} // verus!
