//! Layouts of the physical memory protection registers.
use crate::bitfield::{BitField, Hex, PmpXCfg, Reserved, RSh};
use crate::format::{heading, line, push_line, start_report, Csr};
use vstd::prelude::*;

verus! {

/// Physical memory protection address register
pub struct PmpAddr {
    pub reserved: BitField<Reserved<0, Hex>, 54, 63>,
    pub address: BitField<RSh<2, Hex>, 0, 53>,
}

impl Csr for PmpAddr {
    open spec fn title() -> Seq<char> {
        "pmpaddr"@
    }

    open spec fn decoded(value: u64) -> Self {
        PmpAddr {
            reserved: BitField::decoded(value),
            address: BitField::decoded(value),
        }
    }

    open spec fn report(&self) -> Seq<char> {
        heading(Self::title())
            + line("reserved"@, self.reserved.text())
            + line("address"@, self.address.text())
    }

    fn new(value: u64) -> (csr: Self) {
        PmpAddr {
            reserved: BitField::new(value),
            address: BitField::new(value),
        }
    }

    fn name() -> (name: String) {
        String::from_str("pmpaddr")
    }

    fn render(&self) -> (text: String) {
        let mut text = start_report("pmpaddr");
        push_line(&mut text, "reserved", &self.reserved);
        push_line(&mut text, "address", &self.address);
        text
    }
}

/// Physical memory protection configuration register
pub struct PmpCfg {
    pub pmp0cfg: BitField<PmpXCfg, 0, 7>,
    pub pmp1cfg: BitField<PmpXCfg, 8, 15>,
    pub pmp2cfg: BitField<PmpXCfg, 16, 23>,
    pub pmp3cfg: BitField<PmpXCfg, 24, 31>,
    pub pmp4cfg: BitField<PmpXCfg, 32, 39>,
    pub pmp5cfg: BitField<PmpXCfg, 40, 47>,
    pub pmp6cfg: BitField<PmpXCfg, 48, 55>,
    pub pmp7cfg: BitField<PmpXCfg, 56, 63>,
}

impl Csr for PmpCfg {
    open spec fn title() -> Seq<char> {
        "pmpcfg"@
    }

    open spec fn decoded(value: u64) -> Self {
        PmpCfg {
            pmp0cfg: BitField::decoded(value),
            pmp1cfg: BitField::decoded(value),
            pmp2cfg: BitField::decoded(value),
            pmp3cfg: BitField::decoded(value),
            pmp4cfg: BitField::decoded(value),
            pmp5cfg: BitField::decoded(value),
            pmp6cfg: BitField::decoded(value),
            pmp7cfg: BitField::decoded(value),
        }
    }

    open spec fn report(&self) -> Seq<char> {
        heading(Self::title())
            + line("pmp0cfg"@, self.pmp0cfg.text())
            + line("pmp1cfg"@, self.pmp1cfg.text())
            + line("pmp2cfg"@, self.pmp2cfg.text())
            + line("pmp3cfg"@, self.pmp3cfg.text())
            + line("pmp4cfg"@, self.pmp4cfg.text())
            + line("pmp5cfg"@, self.pmp5cfg.text())
            + line("pmp6cfg"@, self.pmp6cfg.text())
            + line("pmp7cfg"@, self.pmp7cfg.text())
    }

    fn new(value: u64) -> (csr: Self) {
        PmpCfg {
            pmp0cfg: BitField::new(value),
            pmp1cfg: BitField::new(value),
            pmp2cfg: BitField::new(value),
            pmp3cfg: BitField::new(value),
            pmp4cfg: BitField::new(value),
            pmp5cfg: BitField::new(value),
            pmp6cfg: BitField::new(value),
            pmp7cfg: BitField::new(value),
        }
    }

    fn name() -> (name: String) {
        String::from_str("pmpcfg")
    }

    fn render(&self) -> (text: String) {
        let mut text = start_report("pmpcfg");
        push_line(&mut text, "pmp0cfg", &self.pmp0cfg);
        push_line(&mut text, "pmp1cfg", &self.pmp1cfg);
        push_line(&mut text, "pmp2cfg", &self.pmp2cfg);
        push_line(&mut text, "pmp3cfg", &self.pmp3cfg);
        push_line(&mut text, "pmp4cfg", &self.pmp4cfg);
        push_line(&mut text, "pmp5cfg", &self.pmp5cfg);
        push_line(&mut text, "pmp6cfg", &self.pmp6cfg);
        push_line(&mut text, "pmp7cfg", &self.pmp7cfg);
        text
    }
}

} // verus!
