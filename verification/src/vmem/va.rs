//! Layouts of virtual addresses.
//!
//! Each virtual page number is shown as it is stored and as the offset of
//! its entry within a page table: the number times the size of an entry.
use crate::bitfield::{BitField, Hex, RSh};
use crate::format::{heading, line, push_line, start_report, Csr};
use vstd::prelude::*;

verus! {

/// Sv32 Virtual Address
pub struct VAddr32 {
    pub page_offset: BitField<Hex, 0, 11>,
    pub vpn0: BitField<RSh<2, Hex>, 12, 21>,
    pub vpn1: BitField<RSh<2, Hex>, 22, 31>,
}

impl Csr for VAddr32 {
    open spec fn title() -> Seq<char> {
        "vaddr32"@
    }

    open spec fn decoded(value: u64) -> Self {
        VAddr32 {
            page_offset: BitField::decoded(value),
            vpn0: BitField::decoded(value),
            vpn1: BitField::decoded(value),
        }
    }

    open spec fn report(&self) -> Seq<char> {
        heading(Self::title())
            + line("page_offset"@, self.page_offset.text())
            + line("vpn0"@, self.vpn0.text())
            + line("vpn1"@, self.vpn1.text())
    }

    fn new(value: u64) -> (csr: Self) {
        VAddr32 {
            page_offset: BitField::new(value),
            vpn0: BitField::new(value),
            vpn1: BitField::new(value),
        }
    }

    fn name() -> (name: String) {
        String::from_str("vaddr32")
    }

    fn render(&self) -> (text: String) {
        let mut text = start_report("vaddr32");
        push_line(&mut text, "page_offset", &self.page_offset);
        push_line(&mut text, "vpn0", &self.vpn0);
        push_line(&mut text, "vpn1", &self.vpn1);
        text
    }
}

/// Sv39 Virtual Address
pub struct VAddr39 {
    pub page_offset: BitField<Hex, 0, 11>,
    pub vpn0: BitField<RSh<3, Hex>, 12, 20>,
    pub vpn1: BitField<RSh<3, Hex>, 21, 29>,
    pub vpn2: BitField<RSh<3, Hex>, 30, 38>,
}

impl Csr for VAddr39 {
    open spec fn title() -> Seq<char> {
        "vaddr39"@
    }

    open spec fn decoded(value: u64) -> Self {
        VAddr39 {
            page_offset: BitField::decoded(value),
            vpn0: BitField::decoded(value),
            vpn1: BitField::decoded(value),
            vpn2: BitField::decoded(value),
        }
    }

    open spec fn report(&self) -> Seq<char> {
        heading(Self::title())
            + line("page_offset"@, self.page_offset.text())
            + line("vpn0"@, self.vpn0.text())
            + line("vpn1"@, self.vpn1.text())
            + line("vpn2"@, self.vpn2.text())
    }

    fn new(value: u64) -> (csr: Self) {
        VAddr39 {
            page_offset: BitField::new(value),
            vpn0: BitField::new(value),
            vpn1: BitField::new(value),
            vpn2: BitField::new(value),
        }
    }

    fn name() -> (name: String) {
        String::from_str("vaddr39")
    }

    fn render(&self) -> (text: String) {
        let mut text = start_report("vaddr39");
        push_line(&mut text, "page_offset", &self.page_offset);
        push_line(&mut text, "vpn0", &self.vpn0);
        push_line(&mut text, "vpn1", &self.vpn1);
        push_line(&mut text, "vpn2", &self.vpn2);
        text
    }
}

/// Sv48 Virtual Address
pub struct VAddr48 {
    pub page_offset: BitField<Hex, 0, 11>,
    pub vpn0: BitField<RSh<3, Hex>, 12, 20>,
    pub vpn1: BitField<RSh<3, Hex>, 21, 29>,
    pub vpn2: BitField<RSh<3, Hex>, 30, 38>,
    pub vpn3: BitField<RSh<3, Hex>, 39, 47>,
}

impl Csr for VAddr48 {
    open spec fn title() -> Seq<char> {
        "vaddr48"@
    }

    open spec fn decoded(value: u64) -> Self {
        VAddr48 {
            page_offset: BitField::decoded(value),
            vpn0: BitField::decoded(value),
            vpn1: BitField::decoded(value),
            vpn2: BitField::decoded(value),
            vpn3: BitField::decoded(value),
        }
    }

    open spec fn report(&self) -> Seq<char> {
        heading(Self::title())
            + line("page_offset"@, self.page_offset.text())
            + line("vpn0"@, self.vpn0.text())
            + line("vpn1"@, self.vpn1.text())
            + line("vpn2"@, self.vpn2.text())
            + line("vpn3"@, self.vpn3.text())
    }

    fn new(value: u64) -> (csr: Self) {
        VAddr48 {
            page_offset: BitField::new(value),
            vpn0: BitField::new(value),
            vpn1: BitField::new(value),
            vpn2: BitField::new(value),
            vpn3: BitField::new(value),
        }
    }

    fn name() -> (name: String) {
        String::from_str("vaddr48")
    }

    fn render(&self) -> (text: String) {
        let mut text = start_report("vaddr48");
        push_line(&mut text, "page_offset", &self.page_offset);
        push_line(&mut text, "vpn0", &self.vpn0);
        push_line(&mut text, "vpn1", &self.vpn1);
        push_line(&mut text, "vpn2", &self.vpn2);
        push_line(&mut text, "vpn3", &self.vpn3);
        text
    }
}

/// Sv57 Virtual Address
pub struct VAddr57 {
    pub page_offset: BitField<Hex, 0, 11>,
    pub vpn0: BitField<RSh<3, Hex>, 12, 20>,
    pub vpn1: BitField<RSh<3, Hex>, 21, 29>,
    pub vpn2: BitField<RSh<3, Hex>, 30, 38>,
    pub vpn3: BitField<RSh<3, Hex>, 39, 47>,
    pub vpn4: BitField<RSh<3, Hex>, 48, 56>,
}

impl Csr for VAddr57 {
    open spec fn title() -> Seq<char> {
        "vaddr57"@
    }

    open spec fn decoded(value: u64) -> Self {
        VAddr57 {
            page_offset: BitField::decoded(value),
            vpn0: BitField::decoded(value),
            vpn1: BitField::decoded(value),
            vpn2: BitField::decoded(value),
            vpn3: BitField::decoded(value),
            vpn4: BitField::decoded(value),
        }
    }

    open spec fn report(&self) -> Seq<char> {
        heading(Self::title())
            + line("page_offset"@, self.page_offset.text())
            + line("vpn0"@, self.vpn0.text())
            + line("vpn1"@, self.vpn1.text())
            + line("vpn2"@, self.vpn2.text())
            + line("vpn3"@, self.vpn3.text())
            + line("vpn4"@, self.vpn4.text())
    }

    fn new(value: u64) -> (csr: Self) {
        VAddr57 {
            page_offset: BitField::new(value),
            vpn0: BitField::new(value),
            vpn1: BitField::new(value),
            vpn2: BitField::new(value),
            vpn3: BitField::new(value),
            vpn4: BitField::new(value),
        }
    }

    fn name() -> (name: String) {
        String::from_str("vaddr57")
    }

    fn render(&self) -> (text: String) {
        let mut text = start_report("vaddr57");
        push_line(&mut text, "page_offset", &self.page_offset);
        push_line(&mut text, "vpn0", &self.vpn0);
        push_line(&mut text, "vpn1", &self.vpn1);
        push_line(&mut text, "vpn2", &self.vpn2);
        push_line(&mut text, "vpn3", &self.vpn3);
        push_line(&mut text, "vpn4", &self.vpn4);
        text
    }
}

} // verus!
