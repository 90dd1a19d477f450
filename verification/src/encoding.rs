//! The catalogue of control and status registers: the address of each
//! register and the name by which it goes.
//!
//! Three families of registers share one layout each and differ by an index
//! that ends their name: the hardware performance counters `hpmcounter3` to
//! `hpmcounter31`, the physical memory protection configuration registers
//! `pmpcfg0` to `pmpcfg15`, and the physical memory protection address
//! registers `pmpaddr0` to `pmpaddr63`. The addresses of a family follow one
//! another in the order of the index.
use crate::text::{
    begins_with, decimal, lemma_digits_read_back, parse_index, read_index, spells, starts_with,
};
use vstd::prelude::*;

verus! {

// Floating-point control and status
pub const CSR_FFLAGS: u16 = 0x001;
pub const CSR_FRM: u16 = 0x002;
pub const CSR_FCSR: u16 = 0x003;

// Counters and timers
pub const CSR_CYCLE: u16 = 0xc00;
pub const CSR_TIME: u16 = 0xc01;
pub const CSR_INSTRET: u16 = 0xc02;

// Supervisor trap setup, configuration and trap handling
pub const CSR_SSTATUS: u16 = 0x100;
pub const CSR_SIE: u16 = 0x104;
pub const CSR_STVEC: u16 = 0x105;
pub const CSR_SCOUNTEREN: u16 = 0x106;
pub const CSR_SENVCFG: u16 = 0x10a;
pub const CSR_SSCRATCH: u16 = 0x140;
pub const CSR_SEPC: u16 = 0x141;
pub const CSR_SCAUSE: u16 = 0x142;
pub const CSR_STVAL: u16 = 0x143;
pub const CSR_SIP: u16 = 0x144;
pub const CSR_SATP: u16 = 0x180;

// Virtual supervisor registers
pub const CSR_VSSTATUS: u16 = 0x200;
pub const CSR_VSIE: u16 = 0x204;
pub const CSR_VSTVEC: u16 = 0x205;
pub const CSR_VSSCRATCH: u16 = 0x240;
pub const CSR_VSEPC: u16 = 0x241;
pub const CSR_VSCAUSE: u16 = 0x242;
pub const CSR_VSTVAL: u16 = 0x243;
pub const CSR_VSIP: u16 = 0x244;
pub const CSR_VSATP: u16 = 0x280;

// Hypervisor registers
pub const CSR_HSTATUS: u16 = 0x600;
pub const CSR_HEDELEG: u16 = 0x602;
pub const CSR_HIDELEG: u16 = 0x603;
pub const CSR_HIE: u16 = 0x604;
pub const CSR_HTIMEDELTA: u16 = 0x605;
pub const CSR_HCOUNTEREN: u16 = 0x606;
pub const CSR_HGEIE: u16 = 0x607;
pub const CSR_HENVCFG: u16 = 0x60a;
pub const CSR_HTVAL: u16 = 0x643;
pub const CSR_HIP: u16 = 0x644;
pub const CSR_HVIP: u16 = 0x645;
pub const CSR_HTINST: u16 = 0x64a;
pub const CSR_HGATP: u16 = 0x680;
pub const CSR_HGEIP: u16 = 0xe12;

// Machine trap setup, configuration and trap handling
pub const CSR_MSTATUS: u16 = 0x300;
pub const CSR_MISA: u16 = 0x301;
pub const CSR_MEDELEG: u16 = 0x302;
pub const CSR_MIDELEG: u16 = 0x303;
pub const CSR_MIE: u16 = 0x304;
pub const CSR_MTVEC: u16 = 0x305;
pub const CSR_MCOUNTEREN: u16 = 0x306;
pub const CSR_MENVCFG: u16 = 0x30a;
pub const CSR_MSCRATCH: u16 = 0x340;
pub const CSR_MEPC: u16 = 0x341;
pub const CSR_MCAUSE: u16 = 0x342;
pub const CSR_MTVAL: u16 = 0x343;
pub const CSR_MIP: u16 = 0x344;
pub const CSR_MTINST: u16 = 0x34a;
pub const CSR_MTVAL2: u16 = 0x34b;
pub const CSR_MSECCFG: u16 = 0x747;

// Machine information
pub const CSR_MVENDORID: u16 = 0xf11;
pub const CSR_MARCHID: u16 = 0xf12;
pub const CSR_MIMPID: u16 = 0xf13;
pub const CSR_MHARTID: u16 = 0xf14;

// Hardware performance counters
pub const CSR_HPMCOUNTER3: u16 = 0xc03;
pub const CSR_HPMCOUNTER31: u16 = 0xc1f;

// Physical memory protection
pub const CSR_PMPCFG0: u16 = 0x3a0;
pub const CSR_PMPCFG15: u16 = 0x3af;
pub const CSR_PMPADDR0: u16 = 0x3b0;
pub const CSR_PMPADDR63: u16 = 0x3ef;

/// The address of the member of a family that `name` names: `name` is
/// `prefix` followed by an index from `first` to `last`, and the member with
/// index 0 would stand at `base`.
pub open spec fn family_address(
    name: Seq<char>,
    prefix: Seq<char>,
    first: nat,
    last: nat,
    base: u16,
) -> Option<u16> {
    if starts_with(name, prefix) {
        match parse_index(name.skip(prefix.len() as int), last) {
            Some(index) => if first <= index {
                Some((base + index) as u16)
            } else {
                None
            },
            None => None,
        }
    } else {
        None
    }
}

/// Every member of a family is found under its name: the prefix of the
/// family followed by the index of the member in base ten.
pub proof fn lemma_family_member_found(
    prefix: Seq<char>,
    index: nat,
    first: nat,
    last: nat,
    base: u16,
)
    requires
        first <= index <= last,
        base + last <= u16::MAX,
    ensures
        family_address(prefix + decimal(index), prefix, first, last, base) == Some(
            (base + index) as u16,
        ),
{
    let name = prefix + decimal(index);
    assert(name.take(prefix.len() as int) =~= prefix);
    assert(name.skip(prefix.len() as int) =~= decimal(index));
    lemma_digits_read_back(index, 10, last);
}

/// The address of the register that goes by the lower-case name `name`, if
/// the catalogue holds one.
pub open spec fn address_of_name(name: Seq<char>) -> Option<u16> {
    if family_address(name, "hpmcounter"@, 3, 31, 0xc00) is Some {
        family_address(name, "hpmcounter"@, 3, 31, 0xc00)
    } else if family_address(name, "pmpcfg"@, 0, 15, CSR_PMPCFG0) is Some {
        family_address(name, "pmpcfg"@, 0, 15, CSR_PMPCFG0)
    } else if family_address(name, "pmpaddr"@, 0, 63, CSR_PMPADDR0) is Some {
        family_address(name, "pmpaddr"@, 0, 63, CSR_PMPADDR0)
    } else {
        single_address(name)
    }
}

/// The address of the register outside the families that goes by the
/// lower-case name `name`.
pub open spec fn single_address(name: Seq<char>) -> Option<u16> {
    if name == "fflags"@ {
        Some(CSR_FFLAGS)
    } else if name == "frm"@ {
        Some(CSR_FRM)
    } else if name == "fcsr"@ {
        Some(CSR_FCSR)
    } else if name == "cycle"@ {
        Some(CSR_CYCLE)
    } else if name == "time"@ {
        Some(CSR_TIME)
    } else if name == "instret"@ {
        Some(CSR_INSTRET)
    } else if name == "sstatus"@ {
        Some(CSR_SSTATUS)
    } else if name == "sie"@ {
        Some(CSR_SIE)
    } else if name == "stvec"@ {
        Some(CSR_STVEC)
    } else if name == "scounteren"@ {
        Some(CSR_SCOUNTEREN)
    } else if name == "senvcfg"@ {
        Some(CSR_SENVCFG)
    } else if name == "sscratch"@ {
        Some(CSR_SSCRATCH)
    } else if name == "sepc"@ {
        Some(CSR_SEPC)
    } else if name == "scause"@ {
        Some(CSR_SCAUSE)
    } else if name == "stval"@ {
        Some(CSR_STVAL)
    } else if name == "sip"@ {
        Some(CSR_SIP)
    } else if name == "satp"@ {
        Some(CSR_SATP)
    } else if name == "vsstatus"@ {
        Some(CSR_VSSTATUS)
    } else if name == "vsie"@ {
        Some(CSR_VSIE)
    } else if name == "vstvec"@ {
        Some(CSR_VSTVEC)
    } else if name == "vsscratch"@ {
        Some(CSR_VSSCRATCH)
    } else if name == "vsepc"@ {
        Some(CSR_VSEPC)
    } else if name == "vscause"@ {
        Some(CSR_VSCAUSE)
    } else if name == "vstval"@ {
        Some(CSR_VSTVAL)
    } else if name == "vsip"@ {
        Some(CSR_VSIP)
    } else if name == "vsatp"@ {
        Some(CSR_VSATP)
    } else if name == "hstatus"@ {
        Some(CSR_HSTATUS)
    } else if name == "hedeleg"@ {
        Some(CSR_HEDELEG)
    } else if name == "hideleg"@ {
        Some(CSR_HIDELEG)
    } else if name == "hie"@ {
        Some(CSR_HIE)
    } else if name == "htimedelta"@ {
        Some(CSR_HTIMEDELTA)
    } else if name == "hcounteren"@ {
        Some(CSR_HCOUNTEREN)
    } else if name == "hgeie"@ {
        Some(CSR_HGEIE)
    } else if name == "henvcfg"@ {
        Some(CSR_HENVCFG)
    } else if name == "htval"@ {
        Some(CSR_HTVAL)
    } else if name == "hip"@ {
        Some(CSR_HIP)
    } else if name == "hvip"@ {
        Some(CSR_HVIP)
    } else if name == "htinst"@ {
        Some(CSR_HTINST)
    } else if name == "hgatp"@ {
        Some(CSR_HGATP)
    } else if name == "hgeip"@ {
        Some(CSR_HGEIP)
    } else if name == "mstatus"@ {
        Some(CSR_MSTATUS)
    } else if name == "misa"@ {
        Some(CSR_MISA)
    } else if name == "medeleg"@ {
        Some(CSR_MEDELEG)
    } else if name == "mideleg"@ {
        Some(CSR_MIDELEG)
    } else if name == "mie"@ {
        Some(CSR_MIE)
    } else if name == "mtvec"@ {
        Some(CSR_MTVEC)
    } else if name == "mcounteren"@ {
        Some(CSR_MCOUNTEREN)
    } else if name == "menvcfg"@ {
        Some(CSR_MENVCFG)
    } else if name == "mscratch"@ {
        Some(CSR_MSCRATCH)
    } else if name == "mepc"@ {
        Some(CSR_MEPC)
    } else if name == "mcause"@ {
        Some(CSR_MCAUSE)
    } else if name == "mtval"@ {
        Some(CSR_MTVAL)
    } else if name == "mip"@ {
        Some(CSR_MIP)
    } else if name == "mtinst"@ {
        Some(CSR_MTINST)
    } else if name == "mtval2"@ {
        Some(CSR_MTVAL2)
    } else if name == "mseccfg"@ {
        Some(CSR_MSECCFG)
    } else if name == "mvendorid"@ {
        Some(CSR_MVENDORID)
    } else if name == "marchid"@ {
        Some(CSR_MARCHID)
    } else if name == "mimpid"@ {
        Some(CSR_MIMPID)
    } else if name == "mhartid"@ {
        Some(CSR_MHARTID)
    } else {
        None
    }
}

/// Computes [`family_address`] for the characters `name`.
fn family_member(name: &Vec<char>, prefix: &str, first: u64, last: u64, base: u16) -> (address:
    Option<u16>)
    requires
        base + last <= u16::MAX,
    ensures
        address == family_address(name@, prefix@, first as nat, last as nat, base),
{
    if begins_with(name, prefix) {
        let from = prefix.unicode_len();
        match read_index(name, from, last) {
            Some(index) => if first <= index {
                Some(base + index as u16)
            } else {
                None
            },
            None => None,
        }
    } else {
        None
    }
}

/// Computes [`single_address`] for the characters `name`.
fn single_register(name: &Vec<char>) -> (address: Option<u16>)
    ensures
        address == single_address(name@),
{
    if spells(name, "fflags") {
        Some(CSR_FFLAGS)
    } else if spells(name, "frm") {
        Some(CSR_FRM)
    } else if spells(name, "fcsr") {
        Some(CSR_FCSR)
    } else if spells(name, "cycle") {
        Some(CSR_CYCLE)
    } else if spells(name, "time") {
        Some(CSR_TIME)
    } else if spells(name, "instret") {
        Some(CSR_INSTRET)
    } else if spells(name, "sstatus") {
        Some(CSR_SSTATUS)
    } else if spells(name, "sie") {
        Some(CSR_SIE)
    } else if spells(name, "stvec") {
        Some(CSR_STVEC)
    } else if spells(name, "scounteren") {
        Some(CSR_SCOUNTEREN)
    } else if spells(name, "senvcfg") {
        Some(CSR_SENVCFG)
    } else if spells(name, "sscratch") {
        Some(CSR_SSCRATCH)
    } else if spells(name, "sepc") {
        Some(CSR_SEPC)
    } else if spells(name, "scause") {
        Some(CSR_SCAUSE)
    } else if spells(name, "stval") {
        Some(CSR_STVAL)
    } else if spells(name, "sip") {
        Some(CSR_SIP)
    } else if spells(name, "satp") {
        Some(CSR_SATP)
    } else if spells(name, "vsstatus") {
        Some(CSR_VSSTATUS)
    } else if spells(name, "vsie") {
        Some(CSR_VSIE)
    } else if spells(name, "vstvec") {
        Some(CSR_VSTVEC)
    } else if spells(name, "vsscratch") {
        Some(CSR_VSSCRATCH)
    } else if spells(name, "vsepc") {
        Some(CSR_VSEPC)
    } else if spells(name, "vscause") {
        Some(CSR_VSCAUSE)
    } else if spells(name, "vstval") {
        Some(CSR_VSTVAL)
    } else if spells(name, "vsip") {
        Some(CSR_VSIP)
    } else if spells(name, "vsatp") {
        Some(CSR_VSATP)
    } else if spells(name, "hstatus") {
        Some(CSR_HSTATUS)
    } else if spells(name, "hedeleg") {
        Some(CSR_HEDELEG)
    } else if spells(name, "hideleg") {
        Some(CSR_HIDELEG)
    } else if spells(name, "hie") {
        Some(CSR_HIE)
    } else if spells(name, "htimedelta") {
        Some(CSR_HTIMEDELTA)
    } else if spells(name, "hcounteren") {
        Some(CSR_HCOUNTEREN)
    } else if spells(name, "hgeie") {
        Some(CSR_HGEIE)
    } else if spells(name, "henvcfg") {
        Some(CSR_HENVCFG)
    } else if spells(name, "htval") {
        Some(CSR_HTVAL)
    } else if spells(name, "hip") {
        Some(CSR_HIP)
    } else if spells(name, "hvip") {
        Some(CSR_HVIP)
    } else if spells(name, "htinst") {
        Some(CSR_HTINST)
    } else if spells(name, "hgatp") {
        Some(CSR_HGATP)
    } else if spells(name, "hgeip") {
        Some(CSR_HGEIP)
    } else if spells(name, "mstatus") {
        Some(CSR_MSTATUS)
    } else if spells(name, "misa") {
        Some(CSR_MISA)
    } else if spells(name, "medeleg") {
        Some(CSR_MEDELEG)
    } else if spells(name, "mideleg") {
        Some(CSR_MIDELEG)
    } else if spells(name, "mie") {
        Some(CSR_MIE)
    } else if spells(name, "mtvec") {
        Some(CSR_MTVEC)
    } else if spells(name, "mcounteren") {
        Some(CSR_MCOUNTEREN)
    } else if spells(name, "menvcfg") {
        Some(CSR_MENVCFG)
    } else if spells(name, "mscratch") {
        Some(CSR_MSCRATCH)
    } else if spells(name, "mepc") {
        Some(CSR_MEPC)
    } else if spells(name, "mcause") {
        Some(CSR_MCAUSE)
    } else if spells(name, "mtval") {
        Some(CSR_MTVAL)
    } else if spells(name, "mip") {
        Some(CSR_MIP)
    } else if spells(name, "mtinst") {
        Some(CSR_MTINST)
    } else if spells(name, "mtval2") {
        Some(CSR_MTVAL2)
    } else if spells(name, "mseccfg") {
        Some(CSR_MSECCFG)
    } else if spells(name, "mvendorid") {
        Some(CSR_MVENDORID)
    } else if spells(name, "marchid") {
        Some(CSR_MARCHID)
    } else if spells(name, "mimpid") {
        Some(CSR_MIMPID)
    } else if spells(name, "mhartid") {
        Some(CSR_MHARTID)
    } else {
        None
    }
}

/// The address of the register that goes by `name`, in lower case, if the
/// catalogue holds one.
pub fn csr_address_map(name: &str) -> (address: Option<u16>)
    ensures
        address == address_of_name(name@),
{
    let chars = crate::text::chars_of(name);
    let counter = family_member(&chars, "hpmcounter", 3, 31, 0xc00);
    if counter.is_some() {
        return counter;
    }
    let config = family_member(&chars, "pmpcfg", 0, 15, CSR_PMPCFG0);
    if config.is_some() {
        return config;
    }
    let address = family_member(&chars, "pmpaddr", 0, 63, CSR_PMPADDR0);
    if address.is_some() {
        return address;
    }
    single_register(&chars)
}

} // verus!
