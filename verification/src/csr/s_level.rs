//! Layouts of the supervisor-level control and status registers.
use crate::bitfield::{Arch, Atp, Bin, BitField, Bool, ExcCode, Hex, Priv, Tvec};
use crate::format::{heading, line, push_line, start_report, Csr};
use vstd::prelude::*;

verus! {

/// Supervisor Status Register
pub struct Sstatus {
    pub sie: BitField<Bin, 1, 1>,
    pub spie: BitField<Bin, 5, 5>,
    pub ube: BitField<Bin, 6, 6>,
    pub spp: BitField<Priv, 8, 8>,
    pub vs: BitField<Bin, 9, 10>,
    pub fs: BitField<Bin, 13, 14>,
    pub xs: BitField<Bin, 15, 16>,
    pub sum: BitField<Bin, 18, 18>,
    pub mxr: BitField<Bin, 19, 19>,
    pub uxl: BitField<Arch, 32, 33>,
    pub sd: BitField<Bin, 63, 63>,
}

impl Csr for Sstatus {
    open spec fn title() -> Seq<char> {
        "sstatus"@
    }

    open spec fn decoded(value: u64) -> Self {
        Sstatus {
            sie: BitField::decoded(value),
            spie: BitField::decoded(value),
            ube: BitField::decoded(value),
            spp: BitField::decoded(value),
            vs: BitField::decoded(value),
            fs: BitField::decoded(value),
            xs: BitField::decoded(value),
            sum: BitField::decoded(value),
            mxr: BitField::decoded(value),
            uxl: BitField::decoded(value),
            sd: BitField::decoded(value),
        }
    }

    open spec fn report(&self) -> Seq<char> {
        heading(Self::title())
            + line("sie"@, self.sie.text())
            + line("spie"@, self.spie.text())
            + line("ube"@, self.ube.text())
            + line("spp"@, self.spp.text())
            + line("vs"@, self.vs.text())
            + line("fs"@, self.fs.text())
            + line("xs"@, self.xs.text())
            + line("sum"@, self.sum.text())
            + line("mxr"@, self.mxr.text())
            + line("uxl"@, self.uxl.text())
            + line("sd"@, self.sd.text())
    }

    fn new(value: u64) -> (csr: Self) {
        Sstatus {
            sie: BitField::new(value),
            spie: BitField::new(value),
            ube: BitField::new(value),
            spp: BitField::new(value),
            vs: BitField::new(value),
            fs: BitField::new(value),
            xs: BitField::new(value),
            sum: BitField::new(value),
            mxr: BitField::new(value),
            uxl: BitField::new(value),
            sd: BitField::new(value),
        }
    }

    fn name() -> (name: String) {
        String::from_str("sstatus")
    }

    fn render(&self) -> (text: String) {
        let mut text = start_report("sstatus");
        push_line(&mut text, "sie", &self.sie);
        push_line(&mut text, "spie", &self.spie);
        push_line(&mut text, "ube", &self.ube);
        push_line(&mut text, "spp", &self.spp);
        push_line(&mut text, "vs", &self.vs);
        push_line(&mut text, "fs", &self.fs);
        push_line(&mut text, "xs", &self.xs);
        push_line(&mut text, "sum", &self.sum);
        push_line(&mut text, "mxr", &self.mxr);
        push_line(&mut text, "uxl", &self.uxl);
        push_line(&mut text, "sd", &self.sd);
        text
    }
}

/// Supervisor Interrupt Enable Register
pub struct Sie {
    pub supervisor_sw_interrupt: BitField<Bin, 1, 1>,
    pub supervisor_timer_interrupt: BitField<Bin, 5, 5>,
    pub supervisor_external_interrupt: BitField<Bin, 9, 9>,
}

impl Csr for Sie {
    open spec fn title() -> Seq<char> {
        "sie"@
    }

    open spec fn decoded(value: u64) -> Self {
        Sie {
            supervisor_sw_interrupt: BitField::decoded(value),
            supervisor_timer_interrupt: BitField::decoded(value),
            supervisor_external_interrupt: BitField::decoded(value),
        }
    }

    open spec fn report(&self) -> Seq<char> {
        heading(Self::title())
            + line("supervisor_sw_interrupt"@, self.supervisor_sw_interrupt.text())
            + line("supervisor_timer_interrupt"@, self.supervisor_timer_interrupt.text())
            + line("supervisor_external_interrupt"@, self.supervisor_external_interrupt.text())
    }

    fn new(value: u64) -> (csr: Self) {
        Sie {
            supervisor_sw_interrupt: BitField::new(value),
            supervisor_timer_interrupt: BitField::new(value),
            supervisor_external_interrupt: BitField::new(value),
        }
    }

    fn name() -> (name: String) {
        String::from_str("sie")
    }

    fn render(&self) -> (text: String) {
        let mut text = start_report("sie");
        push_line(&mut text, "supervisor_sw_interrupt", &self.supervisor_sw_interrupt);
        push_line(&mut text, "supervisor_timer_interrupt", &self.supervisor_timer_interrupt);
        push_line(&mut text, "supervisor_external_interrupt", &self.supervisor_external_interrupt);
        text
    }
}

/// Supervisor Interrupt Pending Register
pub struct Sip {
    pub supervisor_sw_interrupt: BitField<Bin, 1, 1>,
    pub supervisor_timer_interrupt: BitField<Bin, 5, 5>,
    pub supervisor_external_interrupt: BitField<Bin, 9, 9>,
}

impl Csr for Sip {
    open spec fn title() -> Seq<char> {
        "sip"@
    }

    open spec fn decoded(value: u64) -> Self {
        Sip {
            supervisor_sw_interrupt: BitField::decoded(value),
            supervisor_timer_interrupt: BitField::decoded(value),
            supervisor_external_interrupt: BitField::decoded(value),
        }
    }

    open spec fn report(&self) -> Seq<char> {
        heading(Self::title())
            + line("supervisor_sw_interrupt"@, self.supervisor_sw_interrupt.text())
            + line("supervisor_timer_interrupt"@, self.supervisor_timer_interrupt.text())
            + line("supervisor_external_interrupt"@, self.supervisor_external_interrupt.text())
    }

    fn new(value: u64) -> (csr: Self) {
        Sip {
            supervisor_sw_interrupt: BitField::new(value),
            supervisor_timer_interrupt: BitField::new(value),
            supervisor_external_interrupt: BitField::new(value),
        }
    }

    fn name() -> (name: String) {
        String::from_str("sip")
    }

    fn render(&self) -> (text: String) {
        let mut text = start_report("sip");
        push_line(&mut text, "supervisor_sw_interrupt", &self.supervisor_sw_interrupt);
        push_line(&mut text, "supervisor_timer_interrupt", &self.supervisor_timer_interrupt);
        push_line(&mut text, "supervisor_external_interrupt", &self.supervisor_external_interrupt);
        text
    }
}

/// Supervisor Environment Configuration Register
pub struct Senvcfg {
    pub fiom: BitField<Bin, 0, 0>,
    pub cbie: BitField<Bin, 4, 5>,
    pub cbcfe: BitField<Bin, 7, 7>,
}

impl Csr for Senvcfg {
    open spec fn title() -> Seq<char> {
        "senvcfg"@
    }

    open spec fn decoded(value: u64) -> Self {
        Senvcfg {
            fiom: BitField::decoded(value),
            cbie: BitField::decoded(value),
            cbcfe: BitField::decoded(value),
        }
    }

    open spec fn report(&self) -> Seq<char> {
        heading(Self::title())
            + line("fiom"@, self.fiom.text())
            + line("cbie"@, self.cbie.text())
            + line("cbcfe"@, self.cbcfe.text())
    }

    fn new(value: u64) -> (csr: Self) {
        Senvcfg {
            fiom: BitField::new(value),
            cbie: BitField::new(value),
            cbcfe: BitField::new(value),
        }
    }

    fn name() -> (name: String) {
        String::from_str("senvcfg")
    }

    fn render(&self) -> (text: String) {
        let mut text = start_report("senvcfg");
        push_line(&mut text, "fiom", &self.fiom);
        push_line(&mut text, "cbie", &self.cbie);
        push_line(&mut text, "cbcfe", &self.cbcfe);
        text
    }
}

/// Supervisor Trap Value Register
pub struct Stval {
    pub stval: BitField<Hex, 0, 63>,
}

impl Csr for Stval {
    open spec fn title() -> Seq<char> {
        "stval"@
    }

    open spec fn decoded(value: u64) -> Self {
        Stval { stval: BitField::decoded(value) }
    }

    open spec fn report(&self) -> Seq<char> {
        heading(Self::title())
            + line("stval"@, self.stval.text())
    }

    fn new(value: u64) -> (csr: Self) {
        Stval { stval: BitField::new(value) }
    }

    fn name() -> (name: String) {
        String::from_str("stval")
    }

    fn render(&self) -> (text: String) {
        let mut text = start_report("stval");
        push_line(&mut text, "stval", &self.stval);
        text
    }
}

/// Supervisor Address Translation and Protection Register
pub struct Satp {
    pub mode: BitField<Atp, 60, 63>,
    pub asid: BitField<Hex, 44, 59>,
    pub ppn: BitField<Hex, 0, 43>,
}

impl Csr for Satp {
    open spec fn title() -> Seq<char> {
        "satp"@
    }

    open spec fn decoded(value: u64) -> Self {
        Satp {
            mode: BitField::decoded(value),
            asid: BitField::decoded(value),
            ppn: BitField::decoded(value),
        }
    }

    open spec fn report(&self) -> Seq<char> {
        heading(Self::title())
            + line("mode"@, self.mode.text())
            + line("asid"@, self.asid.text())
            + line("ppn"@, self.ppn.text())
    }

    fn new(value: u64) -> (csr: Self) {
        Satp {
            mode: BitField::new(value),
            asid: BitField::new(value),
            ppn: BitField::new(value),
        }
    }

    fn name() -> (name: String) {
        String::from_str("satp")
    }

    fn render(&self) -> (text: String) {
        let mut text = start_report("satp");
        push_line(&mut text, "mode", &self.mode);
        push_line(&mut text, "asid", &self.asid);
        push_line(&mut text, "ppn", &self.ppn);
        text
    }
}

/// Supervisor Trap Vector Base Address Register
pub struct Stvec {
    pub base: BitField<Hex, 2, 63>,
    pub mode: BitField<Tvec, 0, 1>,
}

impl Csr for Stvec {
    open spec fn title() -> Seq<char> {
        "stvec"@
    }

    open spec fn decoded(value: u64) -> Self {
        Stvec {
            base: BitField::decoded(value),
            mode: BitField::decoded(value),
        }
    }

    open spec fn report(&self) -> Seq<char> {
        heading(Self::title())
            + line("base"@, self.base.text())
            + line("mode"@, self.mode.text())
    }

    fn new(value: u64) -> (csr: Self) {
        Stvec {
            base: BitField::new(value),
            mode: BitField::new(value),
        }
    }

    fn name() -> (name: String) {
        String::from_str("stvec")
    }

    fn render(&self) -> (text: String) {
        let mut text = start_report("stvec");
        push_line(&mut text, "base", &self.base);
        push_line(&mut text, "mode", &self.mode);
        text
    }
}

/// Supervisor Scratch Register
pub struct Sscratch {
    pub sscratch: BitField<Hex, 0, 63>,
}

impl Csr for Sscratch {
    open spec fn title() -> Seq<char> {
        "sscratch"@
    }

    open spec fn decoded(value: u64) -> Self {
        Sscratch { sscratch: BitField::decoded(value) }
    }

    open spec fn report(&self) -> Seq<char> {
        heading(Self::title())
            + line("sscratch"@, self.sscratch.text())
    }

    fn new(value: u64) -> (csr: Self) {
        Sscratch { sscratch: BitField::new(value) }
    }

    fn name() -> (name: String) {
        String::from_str("sscratch")
    }

    fn render(&self) -> (text: String) {
        let mut text = start_report("sscratch");
        push_line(&mut text, "sscratch", &self.sscratch);
        text
    }
}

/// Supervisor Exception Program Counter
pub struct Sepc {
    pub sepc: BitField<Hex, 0, 63>,
}

impl Csr for Sepc {
    open spec fn title() -> Seq<char> {
        "sepc"@
    }

    open spec fn decoded(value: u64) -> Self {
        Sepc { sepc: BitField::decoded(value) }
    }

    open spec fn report(&self) -> Seq<char> {
        heading(Self::title())
            + line("sepc"@, self.sepc.text())
    }

    fn new(value: u64) -> (csr: Self) {
        Sepc { sepc: BitField::new(value) }
    }

    fn name() -> (name: String) {
        String::from_str("sepc")
    }

    fn render(&self) -> (text: String) {
        let mut text = start_report("sepc");
        push_line(&mut text, "sepc", &self.sepc);
        text
    }
}

/// Supervisor Trap Cause Register
///
/// The cause is named from the whole register: `code` spans the interrupt
/// flag as well as the code below it, because the names of interrupts and of
/// exceptions differ for one code.
pub struct Scause {
    pub interrupt: BitField<Bool, 63, 63>,
    pub code: BitField<ExcCode, 0, 63>,
}

impl Csr for Scause {
    open spec fn title() -> Seq<char> {
        "scause"@
    }

    open spec fn decoded(value: u64) -> Self {
        Scause {
            interrupt: BitField::decoded(value),
            code: BitField::decoded(value),
        }
    }

    open spec fn report(&self) -> Seq<char> {
        heading(Self::title())
            + line("interrupt"@, self.interrupt.text())
            + line("code"@, self.code.text())
    }

    fn new(value: u64) -> (csr: Self) {
        Scause {
            interrupt: BitField::new(value),
            code: BitField::new(value),
        }
    }

    fn name() -> (name: String) {
        String::from_str("scause")
    }

    fn render(&self) -> (text: String) {
        let mut text = start_report("scause");
        push_line(&mut text, "interrupt", &self.interrupt);
        push_line(&mut text, "code", &self.code);
        text
    }
}

/// Supervisor Counter-Enable Register
pub struct Scounteren {
    pub hpm31: BitField<Bin, 31, 31>,
    pub hpm30: BitField<Bin, 30, 30>,
    pub hpm29: BitField<Bin, 29, 29>,
    pub hpm28: BitField<Bin, 28, 28>,
    pub hpm27: BitField<Bin, 27, 27>,
    pub hpm26: BitField<Bin, 26, 26>,
    pub hpm25: BitField<Bin, 25, 25>,
    pub hpm24: BitField<Bin, 24, 24>,
    pub hpm23: BitField<Bin, 23, 23>,
    pub hpm22: BitField<Bin, 22, 22>,
    pub hpm21: BitField<Bin, 21, 21>,
    pub hpm20: BitField<Bin, 20, 20>,
    pub hpm19: BitField<Bin, 19, 19>,
    pub hpm18: BitField<Bin, 18, 18>,
    pub hpm17: BitField<Bin, 17, 17>,
    pub hpm16: BitField<Bin, 16, 16>,
    pub hpm15: BitField<Bin, 15, 15>,
    pub hpm14: BitField<Bin, 14, 14>,
    pub hpm13: BitField<Bin, 13, 13>,
    pub hpm12: BitField<Bin, 12, 12>,
    pub hpm11: BitField<Bin, 11, 11>,
    pub hpm10: BitField<Bin, 10, 10>,
    pub hpm9: BitField<Bin, 9, 9>,
    pub hpm8: BitField<Bin, 8, 8>,
    pub hpm7: BitField<Bin, 7, 7>,
    pub hpm6: BitField<Bin, 6, 6>,
    pub hpm5: BitField<Bin, 5, 5>,
    pub hpm4: BitField<Bin, 4, 4>,
    pub hpm3: BitField<Bin, 3, 3>,
    pub ir: BitField<Bin, 2, 2>,
    pub tm: BitField<Bin, 1, 1>,
    pub cy: BitField<Bin, 0, 0>,
}

impl Csr for Scounteren {
    open spec fn title() -> Seq<char> {
        "scounteren"@
    }

    open spec fn decoded(value: u64) -> Self {
        Scounteren {
            hpm31: BitField::decoded(value),
            hpm30: BitField::decoded(value),
            hpm29: BitField::decoded(value),
            hpm28: BitField::decoded(value),
            hpm27: BitField::decoded(value),
            hpm26: BitField::decoded(value),
            hpm25: BitField::decoded(value),
            hpm24: BitField::decoded(value),
            hpm23: BitField::decoded(value),
            hpm22: BitField::decoded(value),
            hpm21: BitField::decoded(value),
            hpm20: BitField::decoded(value),
            hpm19: BitField::decoded(value),
            hpm18: BitField::decoded(value),
            hpm17: BitField::decoded(value),
            hpm16: BitField::decoded(value),
            hpm15: BitField::decoded(value),
            hpm14: BitField::decoded(value),
            hpm13: BitField::decoded(value),
            hpm12: BitField::decoded(value),
            hpm11: BitField::decoded(value),
            hpm10: BitField::decoded(value),
            hpm9: BitField::decoded(value),
            hpm8: BitField::decoded(value),
            hpm7: BitField::decoded(value),
            hpm6: BitField::decoded(value),
            hpm5: BitField::decoded(value),
            hpm4: BitField::decoded(value),
            hpm3: BitField::decoded(value),
            ir: BitField::decoded(value),
            tm: BitField::decoded(value),
            cy: BitField::decoded(value),
        }
    }

    open spec fn report(&self) -> Seq<char> {
        heading(Self::title())
            + line("hpm31"@, self.hpm31.text())
            + line("hpm30"@, self.hpm30.text())
            + line("hpm29"@, self.hpm29.text())
            + line("hpm28"@, self.hpm28.text())
            + line("hpm27"@, self.hpm27.text())
            + line("hpm26"@, self.hpm26.text())
            + line("hpm25"@, self.hpm25.text())
            + line("hpm24"@, self.hpm24.text())
            + line("hpm23"@, self.hpm23.text())
            + line("hpm22"@, self.hpm22.text())
            + line("hpm21"@, self.hpm21.text())
            + line("hpm20"@, self.hpm20.text())
            + line("hpm19"@, self.hpm19.text())
            + line("hpm18"@, self.hpm18.text())
            + line("hpm17"@, self.hpm17.text())
            + line("hpm16"@, self.hpm16.text())
            + line("hpm15"@, self.hpm15.text())
            + line("hpm14"@, self.hpm14.text())
            + line("hpm13"@, self.hpm13.text())
            + line("hpm12"@, self.hpm12.text())
            + line("hpm11"@, self.hpm11.text())
            + line("hpm10"@, self.hpm10.text())
            + line("hpm9"@, self.hpm9.text())
            + line("hpm8"@, self.hpm8.text())
            + line("hpm7"@, self.hpm7.text())
            + line("hpm6"@, self.hpm6.text())
            + line("hpm5"@, self.hpm5.text())
            + line("hpm4"@, self.hpm4.text())
            + line("hpm3"@, self.hpm3.text())
            + line("ir"@, self.ir.text())
            + line("tm"@, self.tm.text())
            + line("cy"@, self.cy.text())
    }

    fn new(value: u64) -> (csr: Self) {
        Scounteren {
            hpm31: BitField::new(value),
            hpm30: BitField::new(value),
            hpm29: BitField::new(value),
            hpm28: BitField::new(value),
            hpm27: BitField::new(value),
            hpm26: BitField::new(value),
            hpm25: BitField::new(value),
            hpm24: BitField::new(value),
            hpm23: BitField::new(value),
            hpm22: BitField::new(value),
            hpm21: BitField::new(value),
            hpm20: BitField::new(value),
            hpm19: BitField::new(value),
            hpm18: BitField::new(value),
            hpm17: BitField::new(value),
            hpm16: BitField::new(value),
            hpm15: BitField::new(value),
            hpm14: BitField::new(value),
            hpm13: BitField::new(value),
            hpm12: BitField::new(value),
            hpm11: BitField::new(value),
            hpm10: BitField::new(value),
            hpm9: BitField::new(value),
            hpm8: BitField::new(value),
            hpm7: BitField::new(value),
            hpm6: BitField::new(value),
            hpm5: BitField::new(value),
            hpm4: BitField::new(value),
            hpm3: BitField::new(value),
            ir: BitField::new(value),
            tm: BitField::new(value),
            cy: BitField::new(value),
        }
    }

    fn name() -> (name: String) {
        String::from_str("scounteren")
    }

    fn render(&self) -> (text: String) {
        let mut text = start_report("scounteren");
        push_line(&mut text, "hpm31", &self.hpm31);
        push_line(&mut text, "hpm30", &self.hpm30);
        push_line(&mut text, "hpm29", &self.hpm29);
        push_line(&mut text, "hpm28", &self.hpm28);
        push_line(&mut text, "hpm27", &self.hpm27);
        push_line(&mut text, "hpm26", &self.hpm26);
        push_line(&mut text, "hpm25", &self.hpm25);
        push_line(&mut text, "hpm24", &self.hpm24);
        push_line(&mut text, "hpm23", &self.hpm23);
        push_line(&mut text, "hpm22", &self.hpm22);
        push_line(&mut text, "hpm21", &self.hpm21);
        push_line(&mut text, "hpm20", &self.hpm20);
        push_line(&mut text, "hpm19", &self.hpm19);
        push_line(&mut text, "hpm18", &self.hpm18);
        push_line(&mut text, "hpm17", &self.hpm17);
        push_line(&mut text, "hpm16", &self.hpm16);
        push_line(&mut text, "hpm15", &self.hpm15);
        push_line(&mut text, "hpm14", &self.hpm14);
        push_line(&mut text, "hpm13", &self.hpm13);
        push_line(&mut text, "hpm12", &self.hpm12);
        push_line(&mut text, "hpm11", &self.hpm11);
        push_line(&mut text, "hpm10", &self.hpm10);
        push_line(&mut text, "hpm9", &self.hpm9);
        push_line(&mut text, "hpm8", &self.hpm8);
        push_line(&mut text, "hpm7", &self.hpm7);
        push_line(&mut text, "hpm6", &self.hpm6);
        push_line(&mut text, "hpm5", &self.hpm5);
        push_line(&mut text, "hpm4", &self.hpm4);
        push_line(&mut text, "hpm3", &self.hpm3);
        push_line(&mut text, "ir", &self.ir);
        push_line(&mut text, "tm", &self.tm);
        push_line(&mut text, "cy", &self.cy);
        text
    }
}

} // verus!
