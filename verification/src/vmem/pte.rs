//! Layouts of page table entries.
use crate::bitfield::{Bin, BitField, Ppn};
use crate::format::{heading, line, push_line, start_report, Csr};
use vstd::prelude::*;

verus! {

/// Sv32 Page Table Entry
pub struct Pte32 {
    pub valid: BitField<Bin, 0, 0>,
    pub read: BitField<Bin, 1, 1>,
    pub write: BitField<Bin, 2, 2>,
    pub execute: BitField<Bin, 3, 3>,
    pub user: BitField<Bin, 4, 4>,
    pub global: BitField<Bin, 5, 5>,
    pub accessed: BitField<Bin, 6, 6>,
    pub dirty: BitField<Bin, 7, 7>,
    pub rsw: BitField<Bin, 8, 9>,
    pub ppn: BitField<Ppn<32>, 10, 31>,
}

impl Csr for Pte32 {
    open spec fn title() -> Seq<char> {
        "pte32"@
    }

    open spec fn decoded(value: u64) -> Self {
        Pte32 {
            valid: BitField::decoded(value),
            read: BitField::decoded(value),
            write: BitField::decoded(value),
            execute: BitField::decoded(value),
            user: BitField::decoded(value),
            global: BitField::decoded(value),
            accessed: BitField::decoded(value),
            dirty: BitField::decoded(value),
            rsw: BitField::decoded(value),
            ppn: BitField::decoded(value),
        }
    }

    open spec fn report(&self) -> Seq<char> {
        heading(Self::title())
            + line("valid"@, self.valid.text())
            + line("read"@, self.read.text())
            + line("write"@, self.write.text())
            + line("exec"@, self.execute.text())
            + line("user"@, self.user.text())
            + line("global"@, self.global.text())
            + line("accessed"@, self.accessed.text())
            + line("dirty"@, self.dirty.text())
            + line("rsw"@, self.rsw.text())
            + line("ppn"@, self.ppn.text())
    }

    fn new(value: u64) -> (csr: Self) {
        Pte32 {
            valid: BitField::new(value),
            read: BitField::new(value),
            write: BitField::new(value),
            execute: BitField::new(value),
            user: BitField::new(value),
            global: BitField::new(value),
            accessed: BitField::new(value),
            dirty: BitField::new(value),
            rsw: BitField::new(value),
            ppn: BitField::new(value),
        }
    }

    fn name() -> (name: String) {
        String::from_str("pte32")
    }

    fn render(&self) -> (text: String) {
        let mut text = start_report("pte32");
        push_line(&mut text, "valid", &self.valid);
        push_line(&mut text, "read", &self.read);
        push_line(&mut text, "write", &self.write);
        push_line(&mut text, "exec", &self.execute);
        push_line(&mut text, "user", &self.user);
        push_line(&mut text, "global", &self.global);
        push_line(&mut text, "accessed", &self.accessed);
        push_line(&mut text, "dirty", &self.dirty);
        push_line(&mut text, "rsw", &self.rsw);
        push_line(&mut text, "ppn", &self.ppn);
        text
    }
}

/// Sv39 Page Table Entry
pub struct Pte39 {
    pub valid: BitField<Bin, 0, 0>,
    pub read: BitField<Bin, 1, 1>,
    pub write: BitField<Bin, 2, 2>,
    pub execute: BitField<Bin, 3, 3>,
    pub user: BitField<Bin, 4, 4>,
    pub global: BitField<Bin, 5, 5>,
    pub accessed: BitField<Bin, 6, 6>,
    pub dirty: BitField<Bin, 7, 7>,
    pub rsw: BitField<Bin, 8, 9>,
    pub ppn: BitField<Ppn<39>, 10, 53>,
    pub pbmt: BitField<Bin, 61, 62>,
    pub n: BitField<Bin, 63, 63>,
}

impl Csr for Pte39 {
    open spec fn title() -> Seq<char> {
        "pte39"@
    }

    open spec fn decoded(value: u64) -> Self {
        Pte39 {
            valid: BitField::decoded(value),
            read: BitField::decoded(value),
            write: BitField::decoded(value),
            execute: BitField::decoded(value),
            user: BitField::decoded(value),
            global: BitField::decoded(value),
            accessed: BitField::decoded(value),
            dirty: BitField::decoded(value),
            rsw: BitField::decoded(value),
            ppn: BitField::decoded(value),
            pbmt: BitField::decoded(value),
            n: BitField::decoded(value),
        }
    }

    open spec fn report(&self) -> Seq<char> {
        heading(Self::title())
            + line("valid"@, self.valid.text())
            + line("read"@, self.read.text())
            + line("write"@, self.write.text())
            + line("exec"@, self.execute.text())
            + line("user"@, self.user.text())
            + line("global"@, self.global.text())
            + line("accessed"@, self.accessed.text())
            + line("dirty"@, self.dirty.text())
            + line("rsw"@, self.rsw.text())
            + line("ppn"@, self.ppn.text())
            + line("pbmt"@, self.pbmt.text())
            + line("n"@, self.n.text())
    }

    fn new(value: u64) -> (csr: Self) {
        Pte39 {
            valid: BitField::new(value),
            read: BitField::new(value),
            write: BitField::new(value),
            execute: BitField::new(value),
            user: BitField::new(value),
            global: BitField::new(value),
            accessed: BitField::new(value),
            dirty: BitField::new(value),
            rsw: BitField::new(value),
            ppn: BitField::new(value),
            pbmt: BitField::new(value),
            n: BitField::new(value),
        }
    }

    fn name() -> (name: String) {
        String::from_str("pte39")
    }

    fn render(&self) -> (text: String) {
        let mut text = start_report("pte39");
        push_line(&mut text, "valid", &self.valid);
        push_line(&mut text, "read", &self.read);
        push_line(&mut text, "write", &self.write);
        push_line(&mut text, "exec", &self.execute);
        push_line(&mut text, "user", &self.user);
        push_line(&mut text, "global", &self.global);
        push_line(&mut text, "accessed", &self.accessed);
        push_line(&mut text, "dirty", &self.dirty);
        push_line(&mut text, "rsw", &self.rsw);
        push_line(&mut text, "ppn", &self.ppn);
        push_line(&mut text, "pbmt", &self.pbmt);
        push_line(&mut text, "n", &self.n);
        text
    }
}

/// Sv48 Page Table Entry
pub struct Pte48 {
    pub valid: BitField<Bin, 0, 0>,
    pub read: BitField<Bin, 1, 1>,
    pub write: BitField<Bin, 2, 2>,
    pub execute: BitField<Bin, 3, 3>,
    pub user: BitField<Bin, 4, 4>,
    pub global: BitField<Bin, 5, 5>,
    pub accessed: BitField<Bin, 6, 6>,
    pub dirty: BitField<Bin, 7, 7>,
    pub rsw: BitField<Bin, 8, 9>,
    pub ppn: BitField<Ppn<48>, 10, 53>,
    pub pbmt: BitField<Bin, 61, 62>,
    pub n: BitField<Bin, 63, 63>,
}

impl Csr for Pte48 {
    open spec fn title() -> Seq<char> {
        "pte48"@
    }

    open spec fn decoded(value: u64) -> Self {
        Pte48 {
            valid: BitField::decoded(value),
            read: BitField::decoded(value),
            write: BitField::decoded(value),
            execute: BitField::decoded(value),
            user: BitField::decoded(value),
            global: BitField::decoded(value),
            accessed: BitField::decoded(value),
            dirty: BitField::decoded(value),
            rsw: BitField::decoded(value),
            ppn: BitField::decoded(value),
            pbmt: BitField::decoded(value),
            n: BitField::decoded(value),
        }
    }

    open spec fn report(&self) -> Seq<char> {
        heading(Self::title())
            + line("valid"@, self.valid.text())
            + line("read"@, self.read.text())
            + line("write"@, self.write.text())
            + line("exec"@, self.execute.text())
            + line("user"@, self.user.text())
            + line("global"@, self.global.text())
            + line("accessed"@, self.accessed.text())
            + line("dirty"@, self.dirty.text())
            + line("rsw"@, self.rsw.text())
            + line("ppn"@, self.ppn.text())
            + line("pbmt"@, self.pbmt.text())
            + line("n"@, self.n.text())
    }

    fn new(value: u64) -> (csr: Self) {
        Pte48 {
            valid: BitField::new(value),
            read: BitField::new(value),
            write: BitField::new(value),
            execute: BitField::new(value),
            user: BitField::new(value),
            global: BitField::new(value),
            accessed: BitField::new(value),
            dirty: BitField::new(value),
            rsw: BitField::new(value),
            ppn: BitField::new(value),
            pbmt: BitField::new(value),
            n: BitField::new(value),
        }
    }

    fn name() -> (name: String) {
        String::from_str("pte48")
    }

    fn render(&self) -> (text: String) {
        let mut text = start_report("pte48");
        push_line(&mut text, "valid", &self.valid);
        push_line(&mut text, "read", &self.read);
        push_line(&mut text, "write", &self.write);
        push_line(&mut text, "exec", &self.execute);
        push_line(&mut text, "user", &self.user);
        push_line(&mut text, "global", &self.global);
        push_line(&mut text, "accessed", &self.accessed);
        push_line(&mut text, "dirty", &self.dirty);
        push_line(&mut text, "rsw", &self.rsw);
        push_line(&mut text, "ppn", &self.ppn);
        push_line(&mut text, "pbmt", &self.pbmt);
        push_line(&mut text, "n", &self.n);
        text
    }
}

/// Sv57 Page Table Entry
pub struct Pte57 {
    pub valid: BitField<Bin, 0, 0>,
    pub read: BitField<Bin, 1, 1>,
    pub write: BitField<Bin, 2, 2>,
    pub execute: BitField<Bin, 3, 3>,
    pub user: BitField<Bin, 4, 4>,
    pub global: BitField<Bin, 5, 5>,
    pub accessed: BitField<Bin, 6, 6>,
    pub dirty: BitField<Bin, 7, 7>,
    pub rsw: BitField<Bin, 8, 9>,
    pub ppn: BitField<Ppn<57>, 10, 53>,
    pub pbmt: BitField<Bin, 61, 62>,
    pub n: BitField<Bin, 63, 63>,
}

impl Csr for Pte57 {
    open spec fn title() -> Seq<char> {
        "pte57"@
    }

    open spec fn decoded(value: u64) -> Self {
        Pte57 {
            valid: BitField::decoded(value),
            read: BitField::decoded(value),
            write: BitField::decoded(value),
            execute: BitField::decoded(value),
            user: BitField::decoded(value),
            global: BitField::decoded(value),
            accessed: BitField::decoded(value),
            dirty: BitField::decoded(value),
            rsw: BitField::decoded(value),
            ppn: BitField::decoded(value),
            pbmt: BitField::decoded(value),
            n: BitField::decoded(value),
        }
    }

    open spec fn report(&self) -> Seq<char> {
        heading(Self::title())
            + line("valid"@, self.valid.text())
            + line("read"@, self.read.text())
            + line("write"@, self.write.text())
            + line("exec"@, self.execute.text())
            + line("user"@, self.user.text())
            + line("global"@, self.global.text())
            + line("accessed"@, self.accessed.text())
            + line("dirty"@, self.dirty.text())
            + line("rsw"@, self.rsw.text())
            + line("ppn"@, self.ppn.text())
            + line("pbmt"@, self.pbmt.text())
            + line("n"@, self.n.text())
    }

    fn new(value: u64) -> (csr: Self) {
        Pte57 {
            valid: BitField::new(value),
            read: BitField::new(value),
            write: BitField::new(value),
            execute: BitField::new(value),
            user: BitField::new(value),
            global: BitField::new(value),
            accessed: BitField::new(value),
            dirty: BitField::new(value),
            rsw: BitField::new(value),
            ppn: BitField::new(value),
            pbmt: BitField::new(value),
            n: BitField::new(value),
        }
    }

    fn name() -> (name: String) {
        String::from_str("pte57")
    }

    fn render(&self) -> (text: String) {
        let mut text = start_report("pte57");
        push_line(&mut text, "valid", &self.valid);
        push_line(&mut text, "read", &self.read);
        push_line(&mut text, "write", &self.write);
        push_line(&mut text, "exec", &self.execute);
        push_line(&mut text, "user", &self.user);
        push_line(&mut text, "global", &self.global);
        push_line(&mut text, "accessed", &self.accessed);
        push_line(&mut text, "dirty", &self.dirty);
        push_line(&mut text, "rsw", &self.rsw);
        push_line(&mut text, "ppn", &self.ppn);
        push_line(&mut text, "pbmt", &self.pbmt);
        push_line(&mut text, "n", &self.n);
        text
    }
}

} // verus!
