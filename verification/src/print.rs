//! The plain reports by name, and the colours of a terminal.
//!
//! [`print_csr`] knows the registers of [`crate::csr::base`] and
//! [`crate::csr::h_ext`] by their names, whatever their case, and hands back
//! the text to print.
use crate::csr::base::{Marchid, Mhartid, Mimpid, Misa, Mstatus, Mvendorid};
use crate::csr::h_ext::{Hedeleg, Hideleg, Hstatus};
use crate::format::Csr;
use crate::text::{lower, lower_chars_of, spells};
use vstd::prelude::*;

verus! {

/// Why no report could be made for a name. Both kinds carry the name as it
/// was given.
#[derive(Debug, PartialEq, Eq)]
pub enum PrintError {
    /// The name is no name of a register that this module knows.
    UnkownCsr(String),
    /// The name is that of a register for which no layout has been written.
    UnimplementedCsr(String),
}

/// The registers that [`print_csr`] reports on.
#[derive(Debug, Clone, Copy, PartialEq, Eq)]
pub enum PlainLayout {
    Misa,
    Mvendorid,
    Marchid,
    Mimpid,
    Mhartid,
    Mstatus,
    Hstatus,
    Hedeleg,
    Hideleg,
}

impl PlainLayout {
    /// The report on the raw word `value` under this layout.
    pub open spec fn report(self, value: u64) -> Seq<char> {
        match self {
            PlainLayout::Misa => Misa::decoded(value).report(),
            PlainLayout::Mvendorid => Mvendorid::decoded(value).report(),
            PlainLayout::Marchid => Marchid::decoded(value).report(),
            PlainLayout::Mimpid => Mimpid::decoded(value).report(),
            PlainLayout::Mhartid => Mhartid::decoded(value).report(),
            PlainLayout::Mstatus => Mstatus::decoded(value).report(),
            PlainLayout::Hstatus => Hstatus::decoded(value).report(),
            PlainLayout::Hedeleg => Hedeleg::decoded(value).report(),
            PlainLayout::Hideleg => Hideleg::decoded(value).report(),
        }
    }

    /// Cuts `value` into the fields of this layout and writes the report.
    pub fn render(self, value: u64) -> (text: String)
        ensures
            text@ == self.report(value),
    {
        match self {
            PlainLayout::Misa => Misa::new(value).render(),
            PlainLayout::Mvendorid => Mvendorid::new(value).render(),
            PlainLayout::Marchid => Marchid::new(value).render(),
            PlainLayout::Mimpid => Mimpid::new(value).render(),
            PlainLayout::Mhartid => Mhartid::new(value).render(),
            PlainLayout::Mstatus => Mstatus::new(value).render(),
            PlainLayout::Hstatus => Hstatus::new(value).render(),
            PlainLayout::Hedeleg => Hedeleg::new(value).render(),
            PlainLayout::Hideleg => Hideleg::new(value).render(),
        }
    }
}

/// What a lower-case name stands for.
#[derive(Debug, Clone, Copy, PartialEq, Eq)]
pub enum Entry {
    /// A register with a layout.
    Layout(PlainLayout),
    /// A register for which no layout has been written.
    Unimplemented,
    /// Nothing.
    Unknown,
}

/// Whether `name` is the lower-case name of a register without a layout.
pub open spec fn is_unimplemented(name: Seq<char>) -> bool {
    // Unprivileged floating-point
    ||| name == "fflags"@
    ||| name == "frm"@
    ||| name == "fcsr"@
    // Unprivileged counters and timers
    ||| name == "cycle"@
    ||| name == "time"@
    ||| name == "instret"@
    ||| name == "hmpcounter"@
    // Supervisor trap setup
    ||| name == "sstatus"@
    ||| name == "sie"@
    ||| name == "stvec"@
    ||| name == "scounteren"@
    // Supervisor configuration
    ||| name == "senvcfg"@
    // Supervisor trap handling
    ||| name == "sscratch"@
    ||| name == "sepc"@
    ||| name == "scause"@
    ||| name == "stval"@
    ||| name == "sip"@
}

/// What the lower-case name `name` stands for.
pub open spec fn entry_named(name: Seq<char>) -> Entry {
    if is_unimplemented(name) {
        Entry::Unimplemented
    } else if name == "misa"@ {
        Entry::Layout(PlainLayout::Misa)
    } else if name == "mvendorid"@ {
        Entry::Layout(PlainLayout::Mvendorid)
    } else if name == "marchid"@ {
        Entry::Layout(PlainLayout::Marchid)
    } else if name == "mimpid"@ {
        Entry::Layout(PlainLayout::Mimpid)
    } else if name == "mhartid"@ {
        Entry::Layout(PlainLayout::Mhartid)
    } else if name == "mstatus"@ {
        Entry::Layout(PlainLayout::Mstatus)
    } else if name == "hstatus"@ {
        Entry::Layout(PlainLayout::Hstatus)
    } else if name == "hedeleg"@ {
        Entry::Layout(PlainLayout::Hedeleg)
    } else if name == "hideleg"@ {
        Entry::Layout(PlainLayout::Hideleg)
    } else {
        Entry::Unknown
    }
}

/// Whether the characters `name` spell a register without a layout.
fn names_unimplemented(name: &Vec<char>) -> (unimplemented: bool)
    ensures
        unimplemented == is_unimplemented(name@),
{
    // Unprivileged floating-point
    spells(name, "fflags") || spells(name, "frm") || spells(name, "fcsr")
    // Unprivileged counters and timers
     || spells(name, "cycle") || spells(name, "time") || spells(name, "instret") || spells(
        name,
        "hmpcounter",
    )
    // Supervisor trap setup
     || spells(name, "sstatus") || spells(name, "sie") || spells(name, "stvec") || spells(
        name,
        "scounteren",
    )
    // Supervisor configuration
     || spells(name, "senvcfg")
    // Supervisor trap handling
     || spells(name, "sscratch") || spells(name, "sepc") || spells(name, "scause") || spells(
        name,
        "stval",
    ) || spells(name, "sip")
}

/// What this module holds for the name `name`, whatever its case.
pub fn entry(name: &str) -> (entry: Entry)
    ensures
        entry == entry_named(lower(name@)),
{
    let name = lower_chars_of(name);
    if names_unimplemented(&name) {
        Entry::Unimplemented
    } else if spells(&name, "misa") {
        Entry::Layout(PlainLayout::Misa)
    } else if spells(&name, "mvendorid") {
        Entry::Layout(PlainLayout::Mvendorid)
    } else if spells(&name, "marchid") {
        Entry::Layout(PlainLayout::Marchid)
    } else if spells(&name, "mimpid") {
        Entry::Layout(PlainLayout::Mimpid)
    } else if spells(&name, "mhartid") {
        Entry::Layout(PlainLayout::Mhartid)
    } else if spells(&name, "mstatus") {
        Entry::Layout(PlainLayout::Mstatus)
    } else if spells(&name, "hstatus") {
        Entry::Layout(PlainLayout::Hstatus)
    } else if spells(&name, "hedeleg") {
        Entry::Layout(PlainLayout::Hedeleg)
    } else if spells(&name, "hideleg") {
        Entry::Layout(PlainLayout::Hideleg)
    } else {
        Entry::Unknown
    }
}

/// The text to print for the raw word `value` as the register `name`.
///
/// Fails with [`PrintError::UnimplementedCsr`] where `name` is that of a
/// register without a layout, and with [`PrintError::UnkownCsr`] where it is
/// no name that this module knows.
pub fn print_csr(name: &str, value: u64) -> (printed: Result<String, PrintError>)
    ensures
        match entry_named(lower(name@)) {
            Entry::Layout(layout) => printed matches Ok(text) && text@ == layout.report(value),
            Entry::Unimplemented => printed matches Err(PrintError::UnimplementedCsr(given))
                && given@ == name@,
            Entry::Unknown => printed matches Err(PrintError::UnkownCsr(given)) && given@
                == name@,
        },
{
    match entry(name) {
        Entry::Layout(layout) => Ok(layout.render(value)),
        Entry::Unimplemented => Err(PrintError::UnimplementedCsr(String::from_str(name))),
        Entry::Unknown => Err(PrintError::UnkownCsr(String::from_str(name))),
    }
}

/// A colour or weight of text on a terminal.
#[derive(Debug, Clone, Copy, PartialEq, Eq)]
pub enum TColor {
    /// Red
    R,
    /// Blue
    B,
    /// Green
    G,
    /// Strong
    S,
    /// Normal
    N,
    /// Red-strong
    RS,
    /// Blue-strong
    BS,
    /// Green-strong
    GS,
}

impl TColor {
    /// The escape sequence that switches a terminal to this colour.
    pub open spec fn sequence(&self) -> Seq<char> {
        match self {
            TColor::R => "\x1b[31m"@,
            TColor::B => "\x1b[36m"@,
            TColor::G => "\x1b[32m"@,
            TColor::S => "\x1b[1m"@,
            TColor::N => "\x1b[0m"@,
            TColor::RS => "\x1b[31m\x1b[1m"@,
            TColor::BS => "\x1b[36m\x1b[1m"@,
            TColor::GS => "\x1b[32m\x1b[1m"@,
        }
    }

    /// Writes the escape sequence that switches a terminal to this colour.
    pub fn code(&self) -> (code: String)
        ensures
            code@ == self.sequence(),
    {
        let color_str = match self {
            TColor::R => "\x1b[31m",
            TColor::B => "\x1b[36m",
            TColor::G => "\x1b[32m",
            TColor::S => "\x1b[1m",
            TColor::N => "\x1b[0m",
            TColor::RS => "\x1b[31m\x1b[1m",
            TColor::BS => "\x1b[36m\x1b[1m",
            TColor::GS => "\x1b[32m\x1b[1m",
        };
        String::from_str(color_str)
    }
}

} // verus!
