//! Layouts of the control and status registers that the hypervisor
//! extension adds to supervisor mode.
use crate::bitfield::{Arch, Atp, Bin, BitField, Hex, Reserved};
use crate::format::{heading, line, push_line, start_report, Csr};
use vstd::prelude::*;

verus! {

/// Hypervisor Status Register
pub struct Hstatus {
    pub vsbe: BitField<Bin, 5, 5>,
    pub gva: BitField<Bin, 6, 6>,
    pub spv: BitField<Bin, 7, 7>,
    pub spvp: BitField<Bin, 8, 8>,
    pub hu: BitField<Bin, 9, 9>,
    pub vgein: BitField<Bin, 12, 17>,
    pub vtvm: BitField<Bin, 20, 20>,
    pub vtw: BitField<Bin, 21, 21>,
    pub vtsr: BitField<Bin, 22, 22>,
    pub vsxl: BitField<Arch, 32, 33>,
}

impl Csr for Hstatus {
    open spec fn title() -> Seq<char> {
        "hstatus"@
    }

    open spec fn decoded(value: u64) -> Self {
        Hstatus {
            vsbe: BitField::decoded(value),
            gva: BitField::decoded(value),
            spv: BitField::decoded(value),
            spvp: BitField::decoded(value),
            hu: BitField::decoded(value),
            vgein: BitField::decoded(value),
            vtvm: BitField::decoded(value),
            vtw: BitField::decoded(value),
            vtsr: BitField::decoded(value),
            vsxl: BitField::decoded(value),
        }
    }

    open spec fn report(&self) -> Seq<char> {
        heading(Self::title())
            + line("vsbe"@, self.vsbe.text())
            + line("gva"@, self.gva.text())
            + line("spv"@, self.spv.text())
            + line("spvp"@, self.spvp.text())
            + line("hu"@, self.hu.text())
            + line("vgein"@, self.vgein.text())
            + line("vtvm"@, self.vtvm.text())
            + line("vtw"@, self.vtw.text())
            + line("vtsr"@, self.vtsr.text())
            + line("vsxl"@, self.vsxl.text())
    }

    fn new(value: u64) -> (csr: Self) {
        Hstatus {
            vsbe: BitField::new(value),
            gva: BitField::new(value),
            spv: BitField::new(value),
            spvp: BitField::new(value),
            hu: BitField::new(value),
            vgein: BitField::new(value),
            vtvm: BitField::new(value),
            vtw: BitField::new(value),
            vtsr: BitField::new(value),
            vsxl: BitField::new(value),
        }
    }

    fn name() -> (name: String) {
        String::from_str("hstatus")
    }

    fn render(&self) -> (text: String) {
        let mut text = start_report("hstatus");
        push_line(&mut text, "vsbe", &self.vsbe);
        push_line(&mut text, "gva", &self.gva);
        push_line(&mut text, "spv", &self.spv);
        push_line(&mut text, "spvp", &self.spvp);
        push_line(&mut text, "hu", &self.hu);
        push_line(&mut text, "vgein", &self.vgein);
        push_line(&mut text, "vtvm", &self.vtvm);
        push_line(&mut text, "vtw", &self.vtw);
        push_line(&mut text, "vtsr", &self.vtsr);
        push_line(&mut text, "vsxl", &self.vsxl);
        text
    }
}

/// Hypervisor Exception Delegation Register
pub struct Hedeleg {
    pub misaligned_fetch: BitField<Bin, 0x0, 0x0>,
    pub fetch_access: BitField<Bin, 0x1, 0x1>,
    pub illegal_instruction: BitField<Bin, 0x2, 0x2>,
    pub breakpoint: BitField<Bin, 0x3, 0x3>,
    pub misaligned_load: BitField<Bin, 0x4, 0x4>,
    pub load_access: BitField<Bin, 0x5, 0x5>,
    pub misaligned_store: BitField<Bin, 0x6, 0x6>,
    pub store_access: BitField<Bin, 0x7, 0x7>,
    pub user_ecall: BitField<Bin, 0x8, 0x8>,
    pub supervisor_ecall: BitField<Bin, 0x9, 0x9>,
    pub virtual_supervisor_ecall: BitField<Bin, 0xa, 0xa>,
    pub machine_ecall: BitField<Bin, 0xb, 0xb>,
    pub fetch_page_fault: BitField<Bin, 0xc, 0xc>,
    pub load_page_fault: BitField<Bin, 0xd, 0xd>,
    pub store_page_fault: BitField<Bin, 0xf, 0xf>,
    pub fetch_guest_page_fault: BitField<Bin, 0x14, 0x14>,
    pub load_guest_page_fault: BitField<Bin, 0x15, 0x15>,
    pub virtual_instruction: BitField<Bin, 0x16, 0x16>,
    pub store_guest_page_fault: BitField<Bin, 0x17, 0x17>,
}

impl Csr for Hedeleg {
    open spec fn title() -> Seq<char> {
        "hedeleg"@
    }

    open spec fn decoded(value: u64) -> Self {
        Hedeleg {
            misaligned_fetch: BitField::decoded(value),
            fetch_access: BitField::decoded(value),
            illegal_instruction: BitField::decoded(value),
            breakpoint: BitField::decoded(value),
            misaligned_load: BitField::decoded(value),
            load_access: BitField::decoded(value),
            misaligned_store: BitField::decoded(value),
            store_access: BitField::decoded(value),
            user_ecall: BitField::decoded(value),
            supervisor_ecall: BitField::decoded(value),
            virtual_supervisor_ecall: BitField::decoded(value),
            machine_ecall: BitField::decoded(value),
            fetch_page_fault: BitField::decoded(value),
            load_page_fault: BitField::decoded(value),
            store_page_fault: BitField::decoded(value),
            fetch_guest_page_fault: BitField::decoded(value),
            load_guest_page_fault: BitField::decoded(value),
            virtual_instruction: BitField::decoded(value),
            store_guest_page_fault: BitField::decoded(value),
        }
    }

    open spec fn report(&self) -> Seq<char> {
        heading(Self::title())
            + line("misaligned_fetch"@, self.misaligned_fetch.text())
            + line("fetch_access"@, self.fetch_access.text())
            + line("illegal_instruction"@, self.illegal_instruction.text())
            + line("breakpoint"@, self.breakpoint.text())
            + line("misaligned_load"@, self.misaligned_load.text())
            + line("load_access"@, self.load_access.text())
            + line("misaligned_store"@, self.misaligned_store.text())
            + line("store_access"@, self.store_access.text())
            + line("user_ecall"@, self.user_ecall.text())
            + line("supervisor_ecall"@, self.supervisor_ecall.text())
            + line("virtual_supervisor_ecall"@, self.virtual_supervisor_ecall.text())
            + line("machine_ecall"@, self.machine_ecall.text())
            + line("fetch_page_fault"@, self.fetch_page_fault.text())
            + line("load_page_fault"@, self.load_page_fault.text())
            + line("store_page_fault"@, self.store_page_fault.text())
            + line("fetch_guest_page_fault"@, self.fetch_guest_page_fault.text())
            + line("load_guest_page_fault"@, self.load_guest_page_fault.text())
            + line("virtual_instruction"@, self.virtual_instruction.text())
            + line("store_guest_page_fault"@, self.store_guest_page_fault.text())
    }

    fn new(value: u64) -> (csr: Self) {
        Hedeleg {
            misaligned_fetch: BitField::new(value),
            fetch_access: BitField::new(value),
            illegal_instruction: BitField::new(value),
            breakpoint: BitField::new(value),
            misaligned_load: BitField::new(value),
            load_access: BitField::new(value),
            misaligned_store: BitField::new(value),
            store_access: BitField::new(value),
            user_ecall: BitField::new(value),
            supervisor_ecall: BitField::new(value),
            virtual_supervisor_ecall: BitField::new(value),
            machine_ecall: BitField::new(value),
            fetch_page_fault: BitField::new(value),
            load_page_fault: BitField::new(value),
            store_page_fault: BitField::new(value),
            fetch_guest_page_fault: BitField::new(value),
            load_guest_page_fault: BitField::new(value),
            virtual_instruction: BitField::new(value),
            store_guest_page_fault: BitField::new(value),
        }
    }

    fn name() -> (name: String) {
        String::from_str("hedeleg")
    }

    fn render(&self) -> (text: String) {
        let mut text = start_report("hedeleg");
        push_line(&mut text, "misaligned_fetch", &self.misaligned_fetch);
        push_line(&mut text, "fetch_access", &self.fetch_access);
        push_line(&mut text, "illegal_instruction", &self.illegal_instruction);
        push_line(&mut text, "breakpoint", &self.breakpoint);
        push_line(&mut text, "misaligned_load", &self.misaligned_load);
        push_line(&mut text, "load_access", &self.load_access);
        push_line(&mut text, "misaligned_store", &self.misaligned_store);
        push_line(&mut text, "store_access", &self.store_access);
        push_line(&mut text, "user_ecall", &self.user_ecall);
        push_line(&mut text, "supervisor_ecall", &self.supervisor_ecall);
        push_line(&mut text, "virtual_supervisor_ecall", &self.virtual_supervisor_ecall);
        push_line(&mut text, "machine_ecall", &self.machine_ecall);
        push_line(&mut text, "fetch_page_fault", &self.fetch_page_fault);
        push_line(&mut text, "load_page_fault", &self.load_page_fault);
        push_line(&mut text, "store_page_fault", &self.store_page_fault);
        push_line(&mut text, "fetch_guest_page_fault", &self.fetch_guest_page_fault);
        push_line(&mut text, "load_guest_page_fault", &self.load_guest_page_fault);
        push_line(&mut text, "virtual_instruction", &self.virtual_instruction);
        push_line(&mut text, "store_guest_page_fault", &self.store_guest_page_fault);
        text
    }
}

/// Hypervisor Interrupt Delegation Register
pub struct Hideleg {
    pub supervisor_sw_interrupt: BitField<Reserved<0, Bin>, 1, 1>,
    pub virtual_supervisor_sw_interrupt: BitField<Bin, 2, 2>,
    pub machine_sw_interrupt: BitField<Bin, 3, 3>,
    pub supervisor_timer_interrupt: BitField<Reserved<0, Bin>, 5, 5>,
    pub virtual_supervisor_timer_interrupt: BitField<Bin, 6, 6>,
    pub machine_timer_interrupt: BitField<Bin, 7, 7>,
    pub supervisor_external_interrupt: BitField<Reserved<0, Bin>, 9, 9>,
    pub virtual_supervisor_external_interrupt: BitField<Bin, 10, 10>,
    pub machine_external_interrupt: BitField<Bin, 11, 11>,
    pub supervisor_guest_external_interrupt: BitField<Reserved<0, Bin>, 12, 12>,
    pub custom: BitField<Hex, 16, 63>,
}

impl Csr for Hideleg {
    open spec fn title() -> Seq<char> {
        "hideleg"@
    }

    open spec fn decoded(value: u64) -> Self {
        Hideleg {
            supervisor_sw_interrupt: BitField::decoded(value),
            virtual_supervisor_sw_interrupt: BitField::decoded(value),
            machine_sw_interrupt: BitField::decoded(value),
            supervisor_timer_interrupt: BitField::decoded(value),
            virtual_supervisor_timer_interrupt: BitField::decoded(value),
            machine_timer_interrupt: BitField::decoded(value),
            supervisor_external_interrupt: BitField::decoded(value),
            virtual_supervisor_external_interrupt: BitField::decoded(value),
            machine_external_interrupt: BitField::decoded(value),
            supervisor_guest_external_interrupt: BitField::decoded(value),
            custom: BitField::decoded(value),
        }
    }

    open spec fn report(&self) -> Seq<char> {
        heading(Self::title())
            + line("supervisor_sw_interrupt"@, self.supervisor_sw_interrupt.text())
            + line("virtual_supervisor_sw_interrupt"@, self.virtual_supervisor_sw_interrupt.text())
            + line("machine_sw_interrupt"@, self.machine_sw_interrupt.text())
            + line("supervisor_timer_interrupt"@, self.supervisor_timer_interrupt.text())
            + line("virtual_supervisor_timer_interrupt"@, self.virtual_supervisor_timer_interrupt.text())
            + line("machine_timer_interrupt"@, self.machine_timer_interrupt.text())
            + line("supervisor_external_interrupt"@, self.supervisor_external_interrupt.text())
            + line("virtual_supervisor_external_interrupt"@, self.virtual_supervisor_external_interrupt.text())
            + line("machine_external_interrupt"@, self.machine_external_interrupt.text())
            + line("supervisor_guest_external_interrupt"@, self.supervisor_guest_external_interrupt.text())
            + line("custom"@, self.custom.text())
    }

    fn new(value: u64) -> (csr: Self) {
        Hideleg {
            supervisor_sw_interrupt: BitField::new(value),
            virtual_supervisor_sw_interrupt: BitField::new(value),
            machine_sw_interrupt: BitField::new(value),
            supervisor_timer_interrupt: BitField::new(value),
            virtual_supervisor_timer_interrupt: BitField::new(value),
            machine_timer_interrupt: BitField::new(value),
            supervisor_external_interrupt: BitField::new(value),
            virtual_supervisor_external_interrupt: BitField::new(value),
            machine_external_interrupt: BitField::new(value),
            supervisor_guest_external_interrupt: BitField::new(value),
            custom: BitField::new(value),
        }
    }

    fn name() -> (name: String) {
        String::from_str("hideleg")
    }

    fn render(&self) -> (text: String) {
        let mut text = start_report("hideleg");
        push_line(&mut text, "supervisor_sw_interrupt", &self.supervisor_sw_interrupt);
        push_line(&mut text, "virtual_supervisor_sw_interrupt", &self.virtual_supervisor_sw_interrupt);
        push_line(&mut text, "machine_sw_interrupt", &self.machine_sw_interrupt);
        push_line(&mut text, "supervisor_timer_interrupt", &self.supervisor_timer_interrupt);
        push_line(&mut text, "virtual_supervisor_timer_interrupt", &self.virtual_supervisor_timer_interrupt);
        push_line(&mut text, "machine_timer_interrupt", &self.machine_timer_interrupt);
        push_line(&mut text, "supervisor_external_interrupt", &self.supervisor_external_interrupt);
        push_line(&mut text, "virtual_supervisor_external_interrupt", &self.virtual_supervisor_external_interrupt);
        push_line(&mut text, "machine_external_interrupt", &self.machine_external_interrupt);
        push_line(&mut text, "supervisor_guest_external_interrupt", &self.supervisor_guest_external_interrupt);
        push_line(&mut text, "custom", &self.custom);
        text
    }
}

/// Hypervisor Counter Enable Register
pub struct Hcounteren {
    pub hpm31: BitField<Bin, 31, 31>,
    pub hpm30: BitField<Bin, 30, 30>,
    pub hpm29: BitField<Bin, 29, 29>,
    pub hpm28: BitField<Bin, 28, 28>,
    pub hpm27: BitField<Bin, 27, 27>,
    pub hpm26: BitField<Bin, 26, 26>,
    pub hpm25: BitField<Bin, 25, 25>,
    pub hpm24: BitField<Bin, 24, 24>,
    pub hpm23: BitField<Bin, 23, 23>,
    pub hpm22: BitField<Bin, 22, 22>,
    pub hpm21: BitField<Bin, 21, 21>,
    pub hpm20: BitField<Bin, 20, 20>,
    pub hpm19: BitField<Bin, 19, 19>,
    pub hpm18: BitField<Bin, 18, 18>,
    pub hpm17: BitField<Bin, 17, 17>,
    pub hpm16: BitField<Bin, 16, 16>,
    pub hpm15: BitField<Bin, 15, 15>,
    pub hpm14: BitField<Bin, 14, 14>,
    pub hpm13: BitField<Bin, 13, 13>,
    pub hpm12: BitField<Bin, 12, 12>,
    pub hpm11: BitField<Bin, 11, 11>,
    pub hpm10: BitField<Bin, 10, 10>,
    pub hpm9: BitField<Bin, 9, 9>,
    pub hpm8: BitField<Bin, 8, 8>,
    pub hpm7: BitField<Bin, 7, 7>,
    pub hpm6: BitField<Bin, 6, 6>,
    pub hpm5: BitField<Bin, 5, 5>,
    pub hpm4: BitField<Bin, 4, 4>,
    pub hpm3: BitField<Bin, 3, 3>,
    pub ir: BitField<Bin, 2, 2>,
    pub tm: BitField<Bin, 1, 1>,
    pub cy: BitField<Bin, 0, 0>,
}

impl Csr for Hcounteren {
    open spec fn title() -> Seq<char> {
        "hcounteren"@
    }

    open spec fn decoded(value: u64) -> Self {
        Hcounteren {
            hpm31: BitField::decoded(value),
            hpm30: BitField::decoded(value),
            hpm29: BitField::decoded(value),
            hpm28: BitField::decoded(value),
            hpm27: BitField::decoded(value),
            hpm26: BitField::decoded(value),
            hpm25: BitField::decoded(value),
            hpm24: BitField::decoded(value),
            hpm23: BitField::decoded(value),
            hpm22: BitField::decoded(value),
            hpm21: BitField::decoded(value),
            hpm20: BitField::decoded(value),
            hpm19: BitField::decoded(value),
            hpm18: BitField::decoded(value),
            hpm17: BitField::decoded(value),
            hpm16: BitField::decoded(value),
            hpm15: BitField::decoded(value),
            hpm14: BitField::decoded(value),
            hpm13: BitField::decoded(value),
            hpm12: BitField::decoded(value),
            hpm11: BitField::decoded(value),
            hpm10: BitField::decoded(value),
            hpm9: BitField::decoded(value),
            hpm8: BitField::decoded(value),
            hpm7: BitField::decoded(value),
            hpm6: BitField::decoded(value),
            hpm5: BitField::decoded(value),
            hpm4: BitField::decoded(value),
            hpm3: BitField::decoded(value),
            ir: BitField::decoded(value),
            tm: BitField::decoded(value),
            cy: BitField::decoded(value),
        }
    }

    open spec fn report(&self) -> Seq<char> {
        heading(Self::title())
            + line("hpm31"@, self.hpm31.text())
            + line("hpm30"@, self.hpm30.text())
            + line("hpm29"@, self.hpm29.text())
            + line("hpm28"@, self.hpm28.text())
            + line("hpm27"@, self.hpm27.text())
            + line("hpm26"@, self.hpm26.text())
            + line("hpm25"@, self.hpm25.text())
            + line("hpm24"@, self.hpm24.text())
            + line("hpm23"@, self.hpm23.text())
            + line("hpm22"@, self.hpm22.text())
            + line("hpm21"@, self.hpm21.text())
            + line("hpm20"@, self.hpm20.text())
            + line("hpm19"@, self.hpm19.text())
            + line("hpm18"@, self.hpm18.text())
            + line("hpm17"@, self.hpm17.text())
            + line("hpm16"@, self.hpm16.text())
            + line("hpm15"@, self.hpm15.text())
            + line("hpm14"@, self.hpm14.text())
            + line("hpm13"@, self.hpm13.text())
            + line("hpm12"@, self.hpm12.text())
            + line("hpm11"@, self.hpm11.text())
            + line("hpm10"@, self.hpm10.text())
            + line("hpm9"@, self.hpm9.text())
            + line("hpm8"@, self.hpm8.text())
            + line("hpm7"@, self.hpm7.text())
            + line("hpm6"@, self.hpm6.text())
            + line("hpm5"@, self.hpm5.text())
            + line("hpm4"@, self.hpm4.text())
            + line("hpm3"@, self.hpm3.text())
            + line("ir"@, self.ir.text())
            + line("tm"@, self.tm.text())
            + line("cy"@, self.cy.text())
    }

    fn new(value: u64) -> (csr: Self) {
        Hcounteren {
            hpm31: BitField::new(value),
            hpm30: BitField::new(value),
            hpm29: BitField::new(value),
            hpm28: BitField::new(value),
            hpm27: BitField::new(value),
            hpm26: BitField::new(value),
            hpm25: BitField::new(value),
            hpm24: BitField::new(value),
            hpm23: BitField::new(value),
            hpm22: BitField::new(value),
            hpm21: BitField::new(value),
            hpm20: BitField::new(value),
            hpm19: BitField::new(value),
            hpm18: BitField::new(value),
            hpm17: BitField::new(value),
            hpm16: BitField::new(value),
            hpm15: BitField::new(value),
            hpm14: BitField::new(value),
            hpm13: BitField::new(value),
            hpm12: BitField::new(value),
            hpm11: BitField::new(value),
            hpm10: BitField::new(value),
            hpm9: BitField::new(value),
            hpm8: BitField::new(value),
            hpm7: BitField::new(value),
            hpm6: BitField::new(value),
            hpm5: BitField::new(value),
            hpm4: BitField::new(value),
            hpm3: BitField::new(value),
            ir: BitField::new(value),
            tm: BitField::new(value),
            cy: BitField::new(value),
        }
    }

    fn name() -> (name: String) {
        String::from_str("hcounteren")
    }

    fn render(&self) -> (text: String) {
        let mut text = start_report("hcounteren");
        push_line(&mut text, "hpm31", &self.hpm31);
        push_line(&mut text, "hpm30", &self.hpm30);
        push_line(&mut text, "hpm29", &self.hpm29);
        push_line(&mut text, "hpm28", &self.hpm28);
        push_line(&mut text, "hpm27", &self.hpm27);
        push_line(&mut text, "hpm26", &self.hpm26);
        push_line(&mut text, "hpm25", &self.hpm25);
        push_line(&mut text, "hpm24", &self.hpm24);
        push_line(&mut text, "hpm23", &self.hpm23);
        push_line(&mut text, "hpm22", &self.hpm22);
        push_line(&mut text, "hpm21", &self.hpm21);
        push_line(&mut text, "hpm20", &self.hpm20);
        push_line(&mut text, "hpm19", &self.hpm19);
        push_line(&mut text, "hpm18", &self.hpm18);
        push_line(&mut text, "hpm17", &self.hpm17);
        push_line(&mut text, "hpm16", &self.hpm16);
        push_line(&mut text, "hpm15", &self.hpm15);
        push_line(&mut text, "hpm14", &self.hpm14);
        push_line(&mut text, "hpm13", &self.hpm13);
        push_line(&mut text, "hpm12", &self.hpm12);
        push_line(&mut text, "hpm11", &self.hpm11);
        push_line(&mut text, "hpm10", &self.hpm10);
        push_line(&mut text, "hpm9", &self.hpm9);
        push_line(&mut text, "hpm8", &self.hpm8);
        push_line(&mut text, "hpm7", &self.hpm7);
        push_line(&mut text, "hpm6", &self.hpm6);
        push_line(&mut text, "hpm5", &self.hpm5);
        push_line(&mut text, "hpm4", &self.hpm4);
        push_line(&mut text, "hpm3", &self.hpm3);
        push_line(&mut text, "ir", &self.ir);
        push_line(&mut text, "tm", &self.tm);
        push_line(&mut text, "cy", &self.cy);
        text
    }
}

/// Hypervisor Trap Value Register
pub struct Htval {
    pub val: BitField<Hex, 0, 63>,
}

impl Csr for Htval {
    open spec fn title() -> Seq<char> {
        "htval"@
    }

    open spec fn decoded(value: u64) -> Self {
        Htval { val: BitField::decoded(value) }
    }

    open spec fn report(&self) -> Seq<char> {
        heading(Self::title())
            + line("val"@, self.val.text())
    }

    fn new(value: u64) -> (csr: Self) {
        Htval { val: BitField::new(value) }
    }

    fn name() -> (name: String) {
        String::from_str("htval")
    }

    fn render(&self) -> (text: String) {
        let mut text = start_report("htval");
        push_line(&mut text, "val", &self.val);
        text
    }
}

/// Hypervisor Trap Instruction Register
pub struct Htinst {
    pub inst: BitField<Hex, 0, 63>,
}

impl Csr for Htinst {
    open spec fn title() -> Seq<char> {
        "htinst"@
    }

    open spec fn decoded(value: u64) -> Self {
        Htinst { inst: BitField::decoded(value) }
    }

    open spec fn report(&self) -> Seq<char> {
        heading(Self::title())
            + line("inst"@, self.inst.text())
    }

    fn new(value: u64) -> (csr: Self) {
        Htinst { inst: BitField::new(value) }
    }

    fn name() -> (name: String) {
        String::from_str("htinst")
    }

    fn render(&self) -> (text: String) {
        let mut text = start_report("htinst");
        push_line(&mut text, "inst", &self.inst);
        text
    }
}

/// Hypervisor Environment Configuration Register
pub struct Henvcfg {
    pub stce: BitField<Bin, 63, 63>,
    pub pbmte: BitField<Bin, 62, 62>,
    pub cbze: BitField<Bin, 7, 7>,
    pub cbcfe: BitField<Bin, 6, 6>,
    pub cbie: BitField<Bin, 4, 5>,
    pub fiom: BitField<Bin, 0, 0>,
}

impl Csr for Henvcfg {
    open spec fn title() -> Seq<char> {
        "henvcfg"@
    }

    open spec fn decoded(value: u64) -> Self {
        Henvcfg {
            stce: BitField::decoded(value),
            pbmte: BitField::decoded(value),
            cbze: BitField::decoded(value),
            cbcfe: BitField::decoded(value),
            cbie: BitField::decoded(value),
            fiom: BitField::decoded(value),
        }
    }

    open spec fn report(&self) -> Seq<char> {
        heading(Self::title())
            + line("stce"@, self.stce.text())
            + line("pbmte"@, self.pbmte.text())
            + line("cbze"@, self.cbze.text())
            + line("cbcfe"@, self.cbcfe.text())
            + line("cbie"@, self.cbie.text())
            + line("fiom"@, self.fiom.text())
    }

    fn new(value: u64) -> (csr: Self) {
        Henvcfg {
            stce: BitField::new(value),
            pbmte: BitField::new(value),
            cbze: BitField::new(value),
            cbcfe: BitField::new(value),
            cbie: BitField::new(value),
            fiom: BitField::new(value),
        }
    }

    fn name() -> (name: String) {
        String::from_str("henvcfg")
    }

    fn render(&self) -> (text: String) {
        let mut text = start_report("henvcfg");
        push_line(&mut text, "stce", &self.stce);
        push_line(&mut text, "pbmte", &self.pbmte);
        push_line(&mut text, "cbze", &self.cbze);
        push_line(&mut text, "cbcfe", &self.cbcfe);
        push_line(&mut text, "cbie", &self.cbie);
        push_line(&mut text, "fiom", &self.fiom);
        text
    }
}

/// Hypervisor Guest Address Translation & Protection Register
pub struct Hgatp {
    pub mode: BitField<Atp, 60, 63>,
    pub vmid: BitField<Hex, 44, 57>,
    pub ppn: BitField<Hex, 0, 43>,
}

impl Csr for Hgatp {
    open spec fn title() -> Seq<char> {
        "hgatp"@
    }

    open spec fn decoded(value: u64) -> Self {
        Hgatp {
            mode: BitField::decoded(value),
            vmid: BitField::decoded(value),
            ppn: BitField::decoded(value),
        }
    }

    open spec fn report(&self) -> Seq<char> {
        heading(Self::title())
            + line("mode"@, self.mode.text())
            + line("vmid"@, self.vmid.text())
            + line("ppn"@, self.ppn.text())
    }

    fn new(value: u64) -> (csr: Self) {
        Hgatp {
            mode: BitField::new(value),
            vmid: BitField::new(value),
            ppn: BitField::new(value),
        }
    }

    fn name() -> (name: String) {
        String::from_str("hgatp")
    }

    fn render(&self) -> (text: String) {
        let mut text = start_report("hgatp");
        push_line(&mut text, "mode", &self.mode);
        push_line(&mut text, "vmid", &self.vmid);
        push_line(&mut text, "ppn", &self.ppn);
        text
    }
}

} // verus!
