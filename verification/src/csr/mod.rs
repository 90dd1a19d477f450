//! Control and status registers: their layouts and the registry that finds
//! the layout for a name or an address.
//!
//! An identifier is looked up as a name first, without regard to case. If it
//! is no name, it is read as an address: hexadecimal after `0x`, binary after
//! `0b`, and decimal otherwise; one `+` may stand before the digits. An
//! identifier that leads to no address of the catalogue is unknown; one that
//! leads to a register of the catalogue for which no layout has been written
//! is unimplemented.
pub mod base;
pub mod h_ext;
pub mod h_level;
pub mod m_level;
pub mod pmp;
pub mod s_level;
pub mod vmem;

use crate::encoding::{
    address_of_name, csr_address_map, family_address, lemma_family_member_found, CSR_CYCLE,
    CSR_FCSR, CSR_FFLAGS, CSR_FRM, CSR_HCOUNTEREN, CSR_HEDELEG, CSR_HENVCFG, CSR_HGATP, CSR_HGEIE,
    CSR_HGEIP, CSR_HIDELEG, CSR_HIE, CSR_HIP, CSR_HPMCOUNTER3, CSR_HPMCOUNTER31, CSR_HSTATUS,
    CSR_HTIMEDELTA, CSR_HTINST, CSR_HTVAL, CSR_HVIP, CSR_INSTRET, CSR_MARCHID, CSR_MCAUSE,
    CSR_MCOUNTEREN, CSR_MEDELEG, CSR_MENVCFG, CSR_MEPC, CSR_MHARTID, CSR_MIDELEG, CSR_MIE,
    CSR_MIMPID, CSR_MIP, CSR_MISA, CSR_MSCRATCH, CSR_MSECCFG, CSR_MSTATUS, CSR_MTINST, CSR_MTVAL,
    CSR_MTVAL2, CSR_MTVEC, CSR_MVENDORID, CSR_PMPADDR0, CSR_PMPADDR63, CSR_PMPCFG0, CSR_PMPCFG15,
    CSR_SATP, CSR_SCAUSE, CSR_SCOUNTEREN, CSR_SENVCFG, CSR_SEPC, CSR_SIE, CSR_SIP, CSR_SSCRATCH,
    CSR_SSTATUS, CSR_STVAL, CSR_STVEC, CSR_TIME, CSR_VSATP, CSR_VSCAUSE, CSR_VSEPC, CSR_VSIE,
    CSR_VSIP, CSR_VSSCRATCH, CSR_VSSTATUS, CSR_VSTVAL, CSR_VSTVEC,
};
use crate::format::Csr;
use crate::text::{
    begins_with, chars_of, decimal, digit_value, lemma_digits_spell_number, lower, lower_char,
    lower_chars_of, parse_unsigned, read_unsigned, starts_with,
};
pub use h_level::{Hcounteren, Hedeleg, Henvcfg, Hgatp, Hideleg, Hstatus, Htinst, Htval};
pub use m_level::{
    Marchid, Medeleg, Mhartid, Mideleg, Mie, Mimpid, Minterrupts, Mip, Misa, Mstatus, Mtval,
    Mtval2, Mtvec, Mvendorid,
};
pub use pmp::{PmpAddr, PmpCfg};
pub use s_level::{
    Satp, Scause, Scounteren, Senvcfg, Sepc, Sie, Sip, Sscratch, Sstatus, Stval, Stvec,
};
use vstd::prelude::*;

verus! {

/// The address of a control and status register.
pub type Addr = u16;

/// Why no report could be made for an identifier. Both kinds carry the
/// identifier as it was given.
#[derive(Debug, PartialEq, Eq)]
pub enum CsrError {
    /// The identifier is no name of the catalogue and no address of it.
    UnknownIdentifier(String),
    /// The identifier leads to a register of the catalogue for which no
    /// layout has been written.
    UnimplementedIdentifier(String),
}

impl CsrError {
    /// The identifier that the error is about.
    pub open spec fn identifier(&self) -> Seq<char> {
        match self {
            CsrError::UnknownIdentifier(id) => id@,
            CsrError::UnimplementedIdentifier(id) => id@,
        }
    }

    /// The message for the user.
    pub open spec fn message_text(&self) -> Seq<char> {
        match self {
            CsrError::UnknownIdentifier(id) => "\""@ + id@
                + "\" is not a name or an address of a supported CSR"@,
            CsrError::UnimplementedIdentifier(id) => "\""@ + id@
                + "\" is a CSR whose format is not implemented yet"@,
        }
    }

    /// Writes the message for the user.
    pub fn message(&self) -> (text: String)
        ensures
            text@ == self.message_text(),
    {
        let mut text = String::from_str("\"");
        match self {
            CsrError::UnknownIdentifier(id) => {
                text.append(id.as_str());
                text.append("\" is not a name or an address of a supported CSR");
            },
            CsrError::UnimplementedIdentifier(id) => {
                text.append(id.as_str());
                text.append("\" is a CSR whose format is not implemented yet");
            },
        }
        text
    }
}

/// The layouts that the registry hands out.
#[derive(Debug, Clone, Copy, PartialEq, Eq)]
pub enum CsrLayout {
    Sstatus,
    Sie,
    Stvec,
    Scounteren,
    Senvcfg,
    Sscratch,
    Sepc,
    Scause,
    Sip,
    Satp,
    Hstatus,
    Hedeleg,
    Hideleg,
    Hcounteren,
    Henvcfg,
    Hgatp,
    Mvendorid,
    Marchid,
    Mimpid,
    Mhartid,
    Mstatus,
    Misa,
    Medeleg,
    Minterrupts,
    Mtvec,
    Mtval,
    Mtval2,
    PmpAddr,
    PmpCfg,
}

impl CsrLayout {
    /// The report on the raw word `value` under this layout.
    pub open spec fn report(self, value: u64) -> Seq<char> {
        match self {
            CsrLayout::Sstatus => Sstatus::decoded(value).report(),
            CsrLayout::Sie => Sie::decoded(value).report(),
            CsrLayout::Stvec => Stvec::decoded(value).report(),
            CsrLayout::Scounteren => Scounteren::decoded(value).report(),
            CsrLayout::Senvcfg => Senvcfg::decoded(value).report(),
            CsrLayout::Sscratch => Sscratch::decoded(value).report(),
            CsrLayout::Sepc => Sepc::decoded(value).report(),
            CsrLayout::Scause => Scause::decoded(value).report(),
            CsrLayout::Sip => Sip::decoded(value).report(),
            CsrLayout::Satp => Satp::decoded(value).report(),
            CsrLayout::Hstatus => Hstatus::decoded(value).report(),
            CsrLayout::Hedeleg => Hedeleg::decoded(value).report(),
            CsrLayout::Hideleg => Hideleg::decoded(value).report(),
            CsrLayout::Hcounteren => Hcounteren::decoded(value).report(),
            CsrLayout::Henvcfg => Henvcfg::decoded(value).report(),
            CsrLayout::Hgatp => Hgatp::decoded(value).report(),
            CsrLayout::Mvendorid => Mvendorid::decoded(value).report(),
            CsrLayout::Marchid => Marchid::decoded(value).report(),
            CsrLayout::Mimpid => Mimpid::decoded(value).report(),
            CsrLayout::Mhartid => Mhartid::decoded(value).report(),
            CsrLayout::Mstatus => Mstatus::decoded(value).report(),
            CsrLayout::Misa => Misa::decoded(value).report(),
            CsrLayout::Medeleg => Medeleg::decoded(value).report(),
            CsrLayout::Minterrupts => Minterrupts::decoded(value).report(),
            CsrLayout::Mtvec => Mtvec::decoded(value).report(),
            CsrLayout::Mtval => Mtval::decoded(value).report(),
            CsrLayout::Mtval2 => Mtval2::decoded(value).report(),
            CsrLayout::PmpAddr => PmpAddr::decoded(value).report(),
            CsrLayout::PmpCfg => PmpCfg::decoded(value).report(),
        }
    }

    /// Cuts `value` into the fields of this layout and writes the report.
    pub fn render(self, value: u64) -> (text: String)
        ensures
            text@ == self.report(value),
    {
        match self {
            CsrLayout::Sstatus => Sstatus::new(value).render(),
            CsrLayout::Sie => Sie::new(value).render(),
            CsrLayout::Stvec => Stvec::new(value).render(),
            CsrLayout::Scounteren => Scounteren::new(value).render(),
            CsrLayout::Senvcfg => Senvcfg::new(value).render(),
            CsrLayout::Sscratch => Sscratch::new(value).render(),
            CsrLayout::Sepc => Sepc::new(value).render(),
            CsrLayout::Scause => Scause::new(value).render(),
            CsrLayout::Sip => Sip::new(value).render(),
            CsrLayout::Satp => Satp::new(value).render(),
            CsrLayout::Hstatus => Hstatus::new(value).render(),
            CsrLayout::Hedeleg => Hedeleg::new(value).render(),
            CsrLayout::Hideleg => Hideleg::new(value).render(),
            CsrLayout::Hcounteren => Hcounteren::new(value).render(),
            CsrLayout::Henvcfg => Henvcfg::new(value).render(),
            CsrLayout::Hgatp => Hgatp::new(value).render(),
            CsrLayout::Mvendorid => Mvendorid::new(value).render(),
            CsrLayout::Marchid => Marchid::new(value).render(),
            CsrLayout::Mimpid => Mimpid::new(value).render(),
            CsrLayout::Mhartid => Mhartid::new(value).render(),
            CsrLayout::Mstatus => Mstatus::new(value).render(),
            CsrLayout::Misa => Misa::new(value).render(),
            CsrLayout::Medeleg => Medeleg::new(value).render(),
            CsrLayout::Minterrupts => Minterrupts::new(value).render(),
            CsrLayout::Mtvec => Mtvec::new(value).render(),
            CsrLayout::Mtval => Mtval::new(value).render(),
            CsrLayout::Mtval2 => Mtval2::new(value).render(),
            CsrLayout::PmpAddr => PmpAddr::new(value).render(),
            CsrLayout::PmpCfg => PmpCfg::new(value).render(),
        }
    }
}

/// What the registry holds for an address.
#[derive(Debug, Clone, Copy, PartialEq, Eq)]
pub enum Entry {
    /// A register with a layout.
    Layout(CsrLayout),
    /// A register of the catalogue for which no layout has been written.
    Unimplemented,
    /// No register of the catalogue.
    Unknown,
}

/// The entry of the registry for `address`.
pub open spec fn entry_at(address: Addr) -> Entry {
    if address == CSR_FFLAGS {
        Entry::Unimplemented
    } else if address == CSR_FRM {
        Entry::Unimplemented
    } else if address == CSR_FCSR {
        Entry::Unimplemented
    } else if address == CSR_CYCLE {
        Entry::Unimplemented
    } else if address == CSR_TIME {
        Entry::Unimplemented
    } else if address == CSR_INSTRET {
        Entry::Unimplemented
    } else if CSR_HPMCOUNTER3 <= address <= CSR_HPMCOUNTER31 {
        Entry::Unimplemented
    } else if address == CSR_SSTATUS {
        Entry::Layout(CsrLayout::Sstatus)
    } else if address == CSR_SIE {
        Entry::Layout(CsrLayout::Sie)
    } else if address == CSR_STVEC {
        Entry::Layout(CsrLayout::Stvec)
    } else if address == CSR_SCOUNTEREN {
        Entry::Layout(CsrLayout::Scounteren)
    } else if address == CSR_SENVCFG {
        Entry::Layout(CsrLayout::Senvcfg)
    } else if address == CSR_SSCRATCH {
        Entry::Layout(CsrLayout::Sscratch)
    } else if address == CSR_SEPC {
        Entry::Layout(CsrLayout::Sepc)
    } else if address == CSR_SCAUSE {
        Entry::Layout(CsrLayout::Scause)
    } else if address == CSR_STVAL {
        Entry::Layout(CsrLayout::Mtval)
    } else if address == CSR_SIP {
        Entry::Layout(CsrLayout::Sip)
    } else if address == CSR_SATP {
        Entry::Layout(CsrLayout::Satp)
    } else if address == CSR_HSTATUS {
        Entry::Layout(CsrLayout::Hstatus)
    } else if address == CSR_HEDELEG {
        Entry::Layout(CsrLayout::Hedeleg)
    } else if address == CSR_HIDELEG {
        Entry::Layout(CsrLayout::Hideleg)
    } else if address == CSR_HIE {
        Entry::Unimplemented
    } else if address == CSR_HCOUNTEREN {
        Entry::Layout(CsrLayout::Hcounteren)
    } else if address == CSR_HGEIE {
        Entry::Unimplemented
    } else if address == CSR_HTVAL {
        Entry::Unimplemented
    } else if address == CSR_HIP {
        Entry::Unimplemented
    } else if address == CSR_HVIP {
        Entry::Unimplemented
    } else if address == CSR_HTINST {
        Entry::Unimplemented
    } else if address == CSR_HGEIP {
        Entry::Unimplemented
    } else if address == CSR_HENVCFG {
        Entry::Layout(CsrLayout::Henvcfg)
    } else if address == CSR_HGATP {
        Entry::Layout(CsrLayout::Hgatp)
    } else if address == CSR_HTIMEDELTA {
        Entry::Unimplemented
    } else if address == CSR_VSSTATUS {
        Entry::Layout(CsrLayout::Sstatus)
    } else if address == CSR_VSIE {
        Entry::Unimplemented
    } else if address == CSR_VSTVEC {
        Entry::Layout(CsrLayout::Stvec)
    } else if address == CSR_VSSCRATCH {
        Entry::Layout(CsrLayout::Sscratch)
    } else if address == CSR_VSEPC {
        Entry::Layout(CsrLayout::Sepc)
    } else if address == CSR_VSCAUSE {
        Entry::Layout(CsrLayout::Scause)
    } else if address == CSR_VSTVAL {
        Entry::Unimplemented
    } else if address == CSR_VSIP {
        Entry::Unimplemented
    } else if address == CSR_VSATP {
        Entry::Layout(CsrLayout::Satp)
    } else if address == CSR_MVENDORID {
        Entry::Layout(CsrLayout::Mvendorid)
    } else if address == CSR_MARCHID {
        Entry::Layout(CsrLayout::Marchid)
    } else if address == CSR_MIMPID {
        Entry::Layout(CsrLayout::Mimpid)
    } else if address == CSR_MHARTID {
        Entry::Layout(CsrLayout::Mhartid)
    } else if address == CSR_MSTATUS {
        Entry::Layout(CsrLayout::Mstatus)
    } else if address == CSR_MISA {
        Entry::Layout(CsrLayout::Misa)
    } else if address == CSR_MEDELEG {
        Entry::Layout(CsrLayout::Medeleg)
    } else if address == CSR_MIDELEG {
        Entry::Layout(CsrLayout::Minterrupts)
    } else if address == CSR_MIE {
        Entry::Layout(CsrLayout::Minterrupts)
    } else if address == CSR_MTVEC {
        Entry::Layout(CsrLayout::Mtvec)
    } else if address == CSR_MCOUNTEREN {
        Entry::Unimplemented
    } else if address == CSR_MSCRATCH {
        Entry::Unimplemented
    } else if address == CSR_MEPC {
        Entry::Unimplemented
    } else if address == CSR_MCAUSE {
        Entry::Unimplemented
    } else if address == CSR_MTVAL {
        Entry::Layout(CsrLayout::Mtval)
    } else if address == CSR_MIP {
        Entry::Layout(CsrLayout::Minterrupts)
    } else if address == CSR_MTINST {
        Entry::Unimplemented
    } else if address == CSR_MTVAL2 {
        Entry::Layout(CsrLayout::Mtval2)
    } else if address == CSR_MENVCFG {
        Entry::Unimplemented
    } else if address == CSR_MSECCFG {
        Entry::Unimplemented
    } else if CSR_PMPADDR0 <= address <= CSR_PMPADDR63 {
        Entry::Layout(CsrLayout::PmpAddr)
    } else if CSR_PMPCFG0 <= address <= CSR_PMPCFG15 {
        Entry::Layout(CsrLayout::PmpCfg)
    } else {
        Entry::Unknown
    }
}

/// Looks `address` up in the registry.
pub fn entry(address: Addr) -> (entry: Entry)
    ensures
        entry == entry_at(address),
{
    // Floating-point control and status
    if address == CSR_FFLAGS {
        return Entry::Unimplemented;
    }
    if address == CSR_FRM {
        return Entry::Unimplemented;
    }
    if address == CSR_FCSR {
        return Entry::Unimplemented;
    }
    // Counters and timers
    if address == CSR_CYCLE {
        return Entry::Unimplemented;
    }
    if address == CSR_TIME {
        return Entry::Unimplemented;
    }
    if address == CSR_INSTRET {
        return Entry::Unimplemented;
    }
    if CSR_HPMCOUNTER3 <= address && address <= CSR_HPMCOUNTER31 {
        return Entry::Unimplemented;
    }
    // Supervisor trap setup
    if address == CSR_SSTATUS {
        return Entry::Layout(CsrLayout::Sstatus);
    }
    if address == CSR_SIE {
        return Entry::Layout(CsrLayout::Sie);
    }
    if address == CSR_STVEC {
        return Entry::Layout(CsrLayout::Stvec);
    }
    if address == CSR_SCOUNTEREN {
        return Entry::Layout(CsrLayout::Scounteren);
    }
    // Supervisor configuration
    if address == CSR_SENVCFG {
        return Entry::Layout(CsrLayout::Senvcfg);
    }
    // Supervisor trap handling
    if address == CSR_SSCRATCH {
        return Entry::Layout(CsrLayout::Sscratch);
    }
    if address == CSR_SEPC {
        return Entry::Layout(CsrLayout::Sepc);
    }
    if address == CSR_SCAUSE {
        return Entry::Layout(CsrLayout::Scause);
    }
    if address == CSR_STVAL {
        return Entry::Layout(CsrLayout::Mtval);
    }
    if address == CSR_SIP {
        return Entry::Layout(CsrLayout::Sip);
    }
    // Supervisor protection and translation
    if address == CSR_SATP {
        return Entry::Layout(CsrLayout::Satp);
    }
    // Hypervisor trap setup
    if address == CSR_HSTATUS {
        return Entry::Layout(CsrLayout::Hstatus);
    }
    if address == CSR_HEDELEG {
        return Entry::Layout(CsrLayout::Hedeleg);
    }
    if address == CSR_HIDELEG {
        return Entry::Layout(CsrLayout::Hideleg);
    }
    if address == CSR_HIE {
        return Entry::Unimplemented;
    }
    if address == CSR_HCOUNTEREN {
        return Entry::Layout(CsrLayout::Hcounteren);
    }
    if address == CSR_HGEIE {
        return Entry::Unimplemented;
    }
    // Hypervisor trap handling
    if address == CSR_HTVAL {
        return Entry::Unimplemented;
    }
    if address == CSR_HIP {
        return Entry::Unimplemented;
    }
    if address == CSR_HVIP {
        return Entry::Unimplemented;
    }
    if address == CSR_HTINST {
        return Entry::Unimplemented;
    }
    if address == CSR_HGEIP {
        return Entry::Unimplemented;
    }
    // Hypervisor configuration
    if address == CSR_HENVCFG {
        return Entry::Layout(CsrLayout::Henvcfg);
    }
    // Hypervisor protection and translation
    if address == CSR_HGATP {
        return Entry::Layout(CsrLayout::Hgatp);
    }
    // Hypervisor counter and timer virtualization
    if address == CSR_HTIMEDELTA {
        return Entry::Unimplemented;
    }
    // Virtual supervisor registers
    if address == CSR_VSSTATUS {
        return Entry::Layout(CsrLayout::Sstatus);
    }
    if address == CSR_VSIE {
        return Entry::Unimplemented;
    }
    if address == CSR_VSTVEC {
        return Entry::Layout(CsrLayout::Stvec);
    }
    if address == CSR_VSSCRATCH {
        return Entry::Layout(CsrLayout::Sscratch);
    }
    if address == CSR_VSEPC {
        return Entry::Layout(CsrLayout::Sepc);
    }
    if address == CSR_VSCAUSE {
        return Entry::Layout(CsrLayout::Scause);
    }
    if address == CSR_VSTVAL {
        return Entry::Unimplemented;
    }
    if address == CSR_VSIP {
        return Entry::Unimplemented;
    }
    if address == CSR_VSATP {
        return Entry::Layout(CsrLayout::Satp);
    }
    // Machine information
    if address == CSR_MVENDORID {
        return Entry::Layout(CsrLayout::Mvendorid);
    }
    if address == CSR_MARCHID {
        return Entry::Layout(CsrLayout::Marchid);
    }
    if address == CSR_MIMPID {
        return Entry::Layout(CsrLayout::Mimpid);
    }
    if address == CSR_MHARTID {
        return Entry::Layout(CsrLayout::Mhartid);
    }
    // Machine trap setup
    if address == CSR_MSTATUS {
        return Entry::Layout(CsrLayout::Mstatus);
    }
    if address == CSR_MISA {
        return Entry::Layout(CsrLayout::Misa);
    }
    if address == CSR_MEDELEG {
        return Entry::Layout(CsrLayout::Medeleg);
    }
    if address == CSR_MIDELEG {
        return Entry::Layout(CsrLayout::Minterrupts);
    }
    if address == CSR_MIE {
        return Entry::Layout(CsrLayout::Minterrupts);
    }
    if address == CSR_MTVEC {
        return Entry::Layout(CsrLayout::Mtvec);
    }
    if address == CSR_MCOUNTEREN {
        return Entry::Unimplemented;
    }
    // Machine trap handling
    if address == CSR_MSCRATCH {
        return Entry::Unimplemented;
    }
    if address == CSR_MEPC {
        return Entry::Unimplemented;
    }
    if address == CSR_MCAUSE {
        return Entry::Unimplemented;
    }
    if address == CSR_MTVAL {
        return Entry::Layout(CsrLayout::Mtval);
    }
    if address == CSR_MIP {
        return Entry::Layout(CsrLayout::Minterrupts);
    }
    if address == CSR_MTINST {
        return Entry::Unimplemented;
    }
    if address == CSR_MTVAL2 {
        return Entry::Layout(CsrLayout::Mtval2);
    }
    // Machine configuration
    if address == CSR_MENVCFG {
        return Entry::Unimplemented;
    }
    if address == CSR_MSECCFG {
        return Entry::Unimplemented;
    }
    // Physical memory protection
    if CSR_PMPADDR0 <= address && address <= CSR_PMPADDR63 {
        return Entry::Layout(CsrLayout::PmpAddr);
    }
    if CSR_PMPCFG0 <= address && address <= CSR_PMPCFG15 {
        return Entry::Layout(CsrLayout::PmpCfg);
    }
    Entry::Unknown
}

/// The address that `id` spells as a number: hexadecimal after `0x`, binary
/// after `0b`, decimal otherwise, and at most `0xffff`.
pub open spec fn numeric_address(id: Seq<char>) -> Option<nat> {
    if starts_with(id, "0x"@) {
        parse_unsigned(id.skip(2), 16, 0xffff)
    } else if starts_with(id, "0b"@) {
        parse_unsigned(id.skip(2), 2, 0xffff)
    } else {
        parse_unsigned(id, 10, 0xffff)
    }
}

/// The address that `id` leads to: that of the register it names, without
/// regard to case, or else the address that it spells as a number.
pub open spec fn address_of(id: Seq<char>) -> Option<Addr> {
    match address_of_name(lower(id)) {
        Some(address) => Some(address),
        None => match numeric_address(id) {
            Some(address) => Some(address as Addr),
            None => None,
        },
    }
}

/// What the registry holds for the identifier `id`.
pub open spec fn resolution(id: Seq<char>) -> Entry {
    match address_of(id) {
        Some(address) => entry_at(address),
        None => Entry::Unknown,
    }
}

/// Reads `csr_str` as a number, as [`numeric_address`] says.
fn read_address(csr_str: &str) -> (address: Option<Addr>)
    ensures
        match address {
            Some(address) => numeric_address(csr_str@) == Some(address as nat),
            None => numeric_address(csr_str@) is None,
        },
{
    proof {
        reveal_strlit("0x");
        reveal_strlit("0b");
    }
    let chars = chars_of(csr_str);
    let number = if begins_with(&chars, "0x") {
        read_unsigned(&chars, 2, 16, 0xffff)
    } else if begins_with(&chars, "0b") {
        read_unsigned(&chars, 2, 2, 0xffff)
    } else {
        assert(chars@.skip(0) =~= chars@);
        read_unsigned(&chars, 0, 10, 0xffff)
    };
    match number {
        Some(number) => Some(number as Addr),
        None => None,
    }
}

/// The address that the name or number `csr_str` leads to.
///
/// Fails with [`CsrError::UnknownIdentifier`] where it is neither a name of
/// the catalogue nor a number of at most `0xffff`.
pub fn addr(csr_str: &str) -> (address: Result<Addr, CsrError>)
    ensures
        match address_of(csr_str@) {
            Some(found) => address == Ok::<Addr, CsrError>(found),
            None => address matches Err(CsrError::UnknownIdentifier(id)) && id@ == csr_str@,
        },
{
    let name = lower_string(csr_str);
    match csr_address_map(name.as_str()) {
        Some(address) => Ok(address),
        None => match read_address(csr_str) {
            Some(address) => Ok(address),
            None => Err(CsrError::UnknownIdentifier(String::from_str(csr_str))),
        },
    }
}

/// `s` in lower case.
fn lower_string(s: &str) -> (low: String)
    ensures
        low@ == lower(s@),
{
    let chars = lower_chars_of(s);
    let mut low = String::new();
    let mut i: usize = 0;
    while i < chars.len()
        invariant
            i <= chars.len(),
            low@ == chars@.take(i as int),
        decreases chars.len() - i,
    {
        low.push(chars[i]);
        assert(chars@.take(i + 1) =~= chars@.take(i as int).push(chars@[i as int]));
        i = i + 1;
    }
    assert(chars@.take(i as int) =~= chars@);
    low
}

/// Finds the layout for the name or address `csr_str`.
///
/// Fails with [`CsrError::UnimplementedIdentifier`] where `csr_str` leads to
/// a register without a layout, and with [`CsrError::UnknownIdentifier`]
/// where it leads to no register.
pub fn resolve(csr_str: &str) -> (layout: Result<CsrLayout, CsrError>)
    ensures
        match resolution(csr_str@) {
            Entry::Layout(found) => layout == Ok::<CsrLayout, CsrError>(found),
            Entry::Unimplemented => layout matches Err(CsrError::UnimplementedIdentifier(id))
                && id@ == csr_str@,
            Entry::Unknown => layout matches Err(CsrError::UnknownIdentifier(id)) && id@
                == csr_str@,
        },
{
    match addr(csr_str) {
        Ok(address) => match entry(address) {
            Entry::Layout(layout) => Ok(layout),
            Entry::Unimplemented => Err(
                CsrError::UnimplementedIdentifier(String::from_str(csr_str)),
            ),
            Entry::Unknown => Err(CsrError::UnknownIdentifier(String::from_str(csr_str))),
        },
        Err(e) => Err(e),
    }
}

/// The report on the raw word `value` as the register that the name or
/// address `csr_str` leads to.
///
/// Fails as [`resolve`] does.
pub fn format(csr_str: &str, value: u64) -> (report: Result<String, CsrError>)
    ensures
        match resolution(csr_str@) {
            Entry::Layout(layout) => report matches Ok(text) && text@ == layout.report(value),
            Entry::Unimplemented => report matches Err(CsrError::UnimplementedIdentifier(id))
                && id@ == csr_str@,
            Entry::Unknown => report matches Err(CsrError::UnknownIdentifier(id)) && id@
                == csr_str@,
        },
{
    match resolve(csr_str) {
        Ok(layout) => Ok(layout.render(value)),
        Err(e) => Err(e),
    }
}

/// Every address of the block of physical memory protection address
/// registers has the one layout of these registers.
pub proof fn lemma_pmp_address_block(address: Addr)
    requires
        CSR_PMPADDR0 <= address <= CSR_PMPADDR63,
    ensures
        entry_at(address) == Entry::Layout(CsrLayout::PmpAddr),
{
}

/// Every address of the block of physical memory protection configuration
/// registers has the one layout of these registers.
pub proof fn lemma_pmp_configuration_block(address: Addr)
    requires
        CSR_PMPCFG0 <= address <= CSR_PMPCFG15,
    ensures
        entry_at(address) == Entry::Layout(CsrLayout::PmpCfg),
{
}

/// Each physical memory protection address register is found under its
/// name, `pmpaddr` followed by its index, and has the one layout of these
/// registers.
pub proof fn lemma_pmp_address_names(index: nat)
    requires
        index <= 63,
    ensures
        address_of("pmpaddr"@ + decimal(index)) == Some((CSR_PMPADDR0 + index) as Addr),
        resolution("pmpaddr"@ + decimal(index)) == Entry::Layout(CsrLayout::PmpAddr),
{
    reveal_strlit("pmpaddr");
    reveal_strlit("hpmcounter");
    reveal_strlit("pmpcfg");
    let prefix = "pmpaddr"@;
    let name = prefix + decimal(index);
    lemma_digits_spell_number(index, 10);
    assert forall|i: int| 0 <= i < name.len() implies lower_char(#[trigger] name[i])
        == name[i] by {
        if i >= prefix.len() {
            assert(name[i] == decimal(index)[i - prefix.len()]);
            assert(digit_value(decimal(index)[i - prefix.len()], 10) is Some);
        }
    }
    assert(lower(name) =~= name);
    assert(family_address(name, "hpmcounter"@, 3, 31, 0xc00) is None) by {
        if starts_with(name, "hpmcounter"@) {
            assert(name.take(10)[0] == name[0]);
        }
    }
    assert(family_address(name, "pmpcfg"@, 0, 15, CSR_PMPCFG0) is None) by {
        if starts_with(name, "pmpcfg"@) {
            assert(name.take(6)[3] == name[3]);
        }
    }
    lemma_family_member_found(prefix, index, 0, 63, CSR_PMPADDR0);
}

} // verus!
