//! Layouts of physical addresses.
use crate::bitfield::{BitField, Hex, Ppn};
use crate::format::{heading, line, push_line, start_report, Csr};
use vstd::prelude::*;

verus! {

/// Sv32 Physical Address
pub struct PAddr32 {
    pub page_offset: BitField<Hex, 0, 11>,
    pub ppn: BitField<Ppn<32>, 12, 33>,
}

impl Csr for PAddr32 {
    open spec fn title() -> Seq<char> {
        "paddr32"@
    }

    open spec fn decoded(value: u64) -> Self {
        PAddr32 {
            page_offset: BitField::decoded(value),
            ppn: BitField::decoded(value),
        }
    }

    open spec fn report(&self) -> Seq<char> {
        heading(Self::title())
            + line("page_offset"@, self.page_offset.text())
            + line("ppn"@, self.ppn.text())
    }

    fn new(value: u64) -> (csr: Self) {
        PAddr32 {
            page_offset: BitField::new(value),
            ppn: BitField::new(value),
        }
    }

    fn name() -> (name: String) {
        String::from_str("paddr32")
    }

    fn render(&self) -> (text: String) {
        let mut text = start_report("paddr32");
        push_line(&mut text, "page_offset", &self.page_offset);
        push_line(&mut text, "ppn", &self.ppn);
        text
    }
}

/// Sv39 Physical Address
pub struct PAddr39 {
    pub page_offset: BitField<Hex, 0, 11>,
    pub ppn: BitField<Ppn<39>, 12, 55>,
}

impl Csr for PAddr39 {
    open spec fn title() -> Seq<char> {
        "paddr39"@
    }

    open spec fn decoded(value: u64) -> Self {
        PAddr39 {
            page_offset: BitField::decoded(value),
            ppn: BitField::decoded(value),
        }
    }

    open spec fn report(&self) -> Seq<char> {
        heading(Self::title())
            + line("page_offset"@, self.page_offset.text())
            + line("ppn"@, self.ppn.text())
    }

    fn new(value: u64) -> (csr: Self) {
        PAddr39 {
            page_offset: BitField::new(value),
            ppn: BitField::new(value),
        }
    }

    fn name() -> (name: String) {
        String::from_str("paddr39")
    }

    fn render(&self) -> (text: String) {
        let mut text = start_report("paddr39");
        push_line(&mut text, "page_offset", &self.page_offset);
        push_line(&mut text, "ppn", &self.ppn);
        text
    }
}

/// Sv48 Physical Address
pub struct PAddr48 {
    pub page_offset: BitField<Hex, 0, 11>,
    pub ppn: BitField<Ppn<48>, 12, 55>,
}

impl Csr for PAddr48 {
    open spec fn title() -> Seq<char> {
        "paddr48"@
    }

    open spec fn decoded(value: u64) -> Self {
        PAddr48 {
            page_offset: BitField::decoded(value),
            ppn: BitField::decoded(value),
        }
    }

    open spec fn report(&self) -> Seq<char> {
        heading(Self::title())
            + line("page_offset"@, self.page_offset.text())
            + line("ppn"@, self.ppn.text())
    }

    fn new(value: u64) -> (csr: Self) {
        PAddr48 {
            page_offset: BitField::new(value),
            ppn: BitField::new(value),
        }
    }

    fn name() -> (name: String) {
        String::from_str("paddr48")
    }

    fn render(&self) -> (text: String) {
        let mut text = start_report("paddr48");
        push_line(&mut text, "page_offset", &self.page_offset);
        push_line(&mut text, "ppn", &self.ppn);
        text
    }
}

/// Sv57 Physical Address
pub struct PAddr57 {
    pub page_offset: BitField<Hex, 0, 11>,
    pub ppn: BitField<Ppn<57>, 12, 55>,
}

impl Csr for PAddr57 {
    open spec fn title() -> Seq<char> {
        "paddr57"@
    }

    open spec fn decoded(value: u64) -> Self {
        PAddr57 {
            page_offset: BitField::decoded(value),
            ppn: BitField::decoded(value),
        }
    }

    open spec fn report(&self) -> Seq<char> {
        heading(Self::title())
            + line("page_offset"@, self.page_offset.text())
            + line("ppn"@, self.ppn.text())
    }

    fn new(value: u64) -> (csr: Self) {
        PAddr57 {
            page_offset: BitField::new(value),
            ppn: BitField::new(value),
        }
    }

    fn name() -> (name: String) {
        String::from_str("paddr57")
    }

    fn render(&self) -> (text: String) {
        let mut text = start_report("paddr57");
        push_line(&mut text, "page_offset", &self.page_offset);
        push_line(&mut text, "ppn", &self.ppn);
        text
    }
}

} // verus!
