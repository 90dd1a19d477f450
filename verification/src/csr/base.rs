//! Plain layouts of the machine-level registers of the base ISA.
//!
//! These layouts label their fields in capitals and hold plain bit fields: a
//! field is shown in binary unless its line of the report asks for another
//! form. Three identification registers are reported on a single line,
//! without a heading, and some reports begin with an empty line.
use crate::bit::BitField;
use crate::bitfield::{shift_left, shifted_left, Arch, Atp, BitFieldType, Hex, Priv, Tvec};
use crate::format::{heading, line, push_text_line, start_report, Csr};
use crate::text::hex;
use vstd::prelude::*;

verus! {

/// Machine ISA Register
pub struct Misa {
    pub a: BitField<0, 0>,
    pub b: BitField<1, 1>,
    pub c: BitField<2, 2>,
    pub d: BitField<3, 3>,
    pub e: BitField<4, 4>,
    pub f: BitField<5, 5>,
    pub g: BitField<6, 6>,
    pub h: BitField<7, 7>,
    pub i: BitField<8, 8>,
    pub j: BitField<9, 9>,
    pub k: BitField<10, 10>,
    pub l: BitField<11, 11>,
    pub m: BitField<12, 12>,
    pub n: BitField<13, 13>,
    pub o: BitField<14, 14>,
    pub p: BitField<15, 15>,
    pub q: BitField<16, 16>,
    pub r: BitField<17, 17>,
    pub s: BitField<18, 18>,
    pub t: BitField<19, 19>,
    pub u: BitField<20, 20>,
    pub v: BitField<21, 21>,
    pub w: BitField<22, 22>,
    pub x: BitField<23, 23>,
    pub y: BitField<24, 24>,
    pub z: BitField<25, 25>,
    pub mxl: BitField<62, 63>,
}

impl Csr for Misa {
    open spec fn title() -> Seq<char> {
        "misa"@
    }

    open spec fn decoded(value: u64) -> Self {
        Misa {
            a: BitField::decoded(value),
            b: BitField::decoded(value),
            c: BitField::decoded(value),
            d: BitField::decoded(value),
            e: BitField::decoded(value),
            f: BitField::decoded(value),
            g: BitField::decoded(value),
            h: BitField::decoded(value),
            i: BitField::decoded(value),
            j: BitField::decoded(value),
            k: BitField::decoded(value),
            l: BitField::decoded(value),
            m: BitField::decoded(value),
            n: BitField::decoded(value),
            o: BitField::decoded(value),
            p: BitField::decoded(value),
            q: BitField::decoded(value),
            r: BitField::decoded(value),
            s: BitField::decoded(value),
            t: BitField::decoded(value),
            u: BitField::decoded(value),
            v: BitField::decoded(value),
            w: BitField::decoded(value),
            x: BitField::decoded(value),
            y: BitField::decoded(value),
            z: BitField::decoded(value),
            mxl: BitField::decoded(value),
        }
    }

    open spec fn report(&self) -> Seq<char> {
        heading(Self::title())
            + line("A"@, self.a.text())
            + line("B"@, self.b.text())
            + line("C"@, self.c.text())
            + line("D"@, self.d.text())
            + line("E"@, self.e.text())
            + line("F"@, self.f.text())
            + line("G"@, self.g.text())
            + line("H"@, self.h.text())
            + line("I"@, self.i.text())
            + line("J"@, self.j.text())
            + line("K"@, self.k.text())
            + line("L"@, self.l.text())
            + line("M"@, self.m.text())
            + line("N"@, self.n.text())
            + line("O"@, self.o.text())
            + line("P"@, self.p.text())
            + line("Q"@, self.q.text())
            + line("R"@, self.r.text())
            + line("S"@, self.s.text())
            + line("T"@, self.t.text())
            + line("U"@, self.u.text())
            + line("V"@, self.v.text())
            + line("W"@, self.w.text())
            + line("X"@, self.x.text())
            + line("Y"@, self.y.text())
            + line("Z"@, self.z.text())
            + line("MXL"@, Arch::text(self.mxl@, 0))
    }

    fn new(value: u64) -> (csr: Self) {
        Misa {
            a: BitField::new(value),
            b: BitField::new(value),
            c: BitField::new(value),
            d: BitField::new(value),
            e: BitField::new(value),
            f: BitField::new(value),
            g: BitField::new(value),
            h: BitField::new(value),
            i: BitField::new(value),
            j: BitField::new(value),
            k: BitField::new(value),
            l: BitField::new(value),
            m: BitField::new(value),
            n: BitField::new(value),
            o: BitField::new(value),
            p: BitField::new(value),
            q: BitField::new(value),
            r: BitField::new(value),
            s: BitField::new(value),
            t: BitField::new(value),
            u: BitField::new(value),
            v: BitField::new(value),
            w: BitField::new(value),
            x: BitField::new(value),
            y: BitField::new(value),
            z: BitField::new(value),
            mxl: BitField::new(value),
        }
    }

    fn name() -> (name: String) {
        String::from_str("misa")
    }

    fn render(&self) -> (text: String) {
        let mut text = start_report("misa");
        push_text_line(&mut text, "A", self.a.format().as_str());
        push_text_line(&mut text, "B", self.b.format().as_str());
        push_text_line(&mut text, "C", self.c.format().as_str());
        push_text_line(&mut text, "D", self.d.format().as_str());
        push_text_line(&mut text, "E", self.e.format().as_str());
        push_text_line(&mut text, "F", self.f.format().as_str());
        push_text_line(&mut text, "G", self.g.format().as_str());
        push_text_line(&mut text, "H", self.h.format().as_str());
        push_text_line(&mut text, "I", self.i.format().as_str());
        push_text_line(&mut text, "J", self.j.format().as_str());
        push_text_line(&mut text, "K", self.k.format().as_str());
        push_text_line(&mut text, "L", self.l.format().as_str());
        push_text_line(&mut text, "M", self.m.format().as_str());
        push_text_line(&mut text, "N", self.n.format().as_str());
        push_text_line(&mut text, "O", self.o.format().as_str());
        push_text_line(&mut text, "P", self.p.format().as_str());
        push_text_line(&mut text, "Q", self.q.format().as_str());
        push_text_line(&mut text, "R", self.r.format().as_str());
        push_text_line(&mut text, "S", self.s.format().as_str());
        push_text_line(&mut text, "T", self.t.format().as_str());
        push_text_line(&mut text, "U", self.u.format().as_str());
        push_text_line(&mut text, "V", self.v.format().as_str());
        push_text_line(&mut text, "W", self.w.format().as_str());
        push_text_line(&mut text, "X", self.x.format().as_str());
        push_text_line(&mut text, "Y", self.y.format().as_str());
        push_text_line(&mut text, "Z", self.z.format().as_str());
        push_text_line(&mut text, "MXL", dec_arch(self.mxl.value()).as_str());
        text
    }
}

/// Machine Vendor ID Register
pub struct Mvendorid {
    pub offset: BitField<0, 6>,
    pub bank: BitField<7, 31>,
}

impl Csr for Mvendorid {
    open spec fn title() -> Seq<char> {
        "mvendorid"@
    }

    open spec fn decoded(value: u64) -> Self {
        Mvendorid {
            offset: BitField::decoded(value),
            bank: BitField::decoded(value),
        }
    }

    open spec fn report(&self) -> Seq<char> {
        heading(Self::title())
            + line("offset"@, hex(self.offset@ as nat))
            + line("bank"@, hex(self.bank@ as nat))
    }

    fn new(value: u64) -> (csr: Self) {
        Mvendorid {
            offset: BitField::new(value),
            bank: BitField::new(value),
        }
    }

    fn name() -> (name: String) {
        String::from_str("mvendorid")
    }

    fn render(&self) -> (text: String) {
        let mut text = start_report("mvendorid");
        push_text_line(&mut text, "offset", Hex::decode(self.offset.value(), 0).as_str());
        push_text_line(&mut text, "bank", Hex::decode(self.bank.value(), 0).as_str());
        text
    }
}

/// Machine Architecture ID Register, reported on a single line
pub struct Marchid {
    pub id: BitField<0, 63>,
}

impl Csr for Marchid {
    open spec fn title() -> Seq<char> {
        "marchid"@
    }

    open spec fn decoded(value: u64) -> Self {
        Marchid { id: BitField::decoded(value) }
    }

    open spec fn report(&self) -> Seq<char> {
        line("Architecture ID"@, hex(self.id@ as nat))
    }

    fn new(value: u64) -> (csr: Self) {
        Marchid { id: BitField::new(value) }
    }

    fn name() -> (name: String) {
        String::from_str("marchid")
    }

    fn render(&self) -> (text: String) {
        let mut text = String::new();
        push_text_line(&mut text, "Architecture ID", Hex::decode(self.id.value(), 0).as_str());
        assert(text@ =~= self.report());
        text
    }
}

/// Machine Implementation ID Register, reported on a single line
pub struct Mimpid {
    pub id: BitField<0, 63>,
}

impl Csr for Mimpid {
    open spec fn title() -> Seq<char> {
        "mimpid"@
    }

    open spec fn decoded(value: u64) -> Self {
        Mimpid { id: BitField::decoded(value) }
    }

    open spec fn report(&self) -> Seq<char> {
        line("Implementation ID"@, hex(self.id@ as nat))
    }

    fn new(value: u64) -> (csr: Self) {
        Mimpid { id: BitField::new(value) }
    }

    fn name() -> (name: String) {
        String::from_str("mimpid")
    }

    fn render(&self) -> (text: String) {
        let mut text = String::new();
        push_text_line(&mut text, "Implementation ID", Hex::decode(self.id.value(), 0).as_str());
        assert(text@ =~= self.report());
        text
    }
}

/// Hart ID Register, reported on a single line after an empty one
pub struct Mhartid {
    pub id: BitField<0, 63>,
}

impl Csr for Mhartid {
    open spec fn title() -> Seq<char> {
        "mhartid"@
    }

    open spec fn decoded(value: u64) -> Self {
        Mhartid { id: BitField::decoded(value) }
    }

    open spec fn report(&self) -> Seq<char> {
        "\n"@
            + line("Hart ID"@, hex(self.id@ as nat))
    }

    fn new(value: u64) -> (csr: Self) {
        Mhartid { id: BitField::new(value) }
    }

    fn name() -> (name: String) {
        String::from_str("mhartid")
    }

    fn render(&self) -> (text: String) {
        let mut text = String::from_str("\n");
        push_text_line(&mut text, "Hart ID", Hex::decode(self.id.value(), 0).as_str());
        text
    }
}

/// Machine Status Register
pub struct Mstatus {
    pub sie: BitField<1, 1>,
    pub mie: BitField<3, 3>,
    pub spie: BitField<5, 5>,
    pub ube: BitField<6, 6>,
    pub mpie: BitField<7, 7>,
    pub spp: BitField<8, 8>,
    pub vs: BitField<9, 10>,
    pub mpp: BitField<11, 12>,
    pub fs: BitField<13, 14>,
    pub xs: BitField<15, 16>,
    pub mprv: BitField<17, 17>,
    pub sum: BitField<18, 18>,
    pub mxr: BitField<19, 19>,
    pub tvm: BitField<20, 20>,
    pub tw: BitField<21, 21>,
    pub tsr: BitField<22, 22>,
    pub uxl: BitField<32, 33>,
    pub sxl: BitField<34, 35>,
    pub sbe: BitField<36, 36>,
    pub mbe: BitField<37, 37>,
    pub gva: BitField<38, 38>,
    pub mpv: BitField<39, 39>,
    pub sd: BitField<63, 63>,
}

impl Csr for Mstatus {
    open spec fn title() -> Seq<char> {
        "mstatus"@
    }

    open spec fn decoded(value: u64) -> Self {
        Mstatus {
            sie: BitField::decoded(value),
            mie: BitField::decoded(value),
            spie: BitField::decoded(value),
            ube: BitField::decoded(value),
            mpie: BitField::decoded(value),
            spp: BitField::decoded(value),
            vs: BitField::decoded(value),
            mpp: BitField::decoded(value),
            fs: BitField::decoded(value),
            xs: BitField::decoded(value),
            mprv: BitField::decoded(value),
            sum: BitField::decoded(value),
            mxr: BitField::decoded(value),
            tvm: BitField::decoded(value),
            tw: BitField::decoded(value),
            tsr: BitField::decoded(value),
            uxl: BitField::decoded(value),
            sxl: BitField::decoded(value),
            sbe: BitField::decoded(value),
            mbe: BitField::decoded(value),
            gva: BitField::decoded(value),
            mpv: BitField::decoded(value),
            sd: BitField::decoded(value),
        }
    }

    open spec fn report(&self) -> Seq<char> {
        heading(Self::title())
            + line("SIE"@, self.sie.text())
            + line("MIE"@, self.mie.text())
            + line("SPIE"@, self.spie.text())
            + line("UBE"@, self.ube.text())
            + line("MPIE"@, self.mpie.text())
            + line("SPP"@, Priv::text(self.spp@, 0))
            + line("VS"@, self.vs.text())
            + line("MPP"@, Priv::text(self.mpp@, 0))
            + line("FS"@, self.fs.text())
            + line("XS"@, self.xs.text())
            + line("MPRV"@, self.mprv.text())
            + line("SUM"@, self.sum.text())
            + line("MXR"@, self.mxr.text())
            + line("TVM"@, self.tvm.text())
            + line("TW"@, self.tw.text())
            + line("TSR"@, self.tsr.text())
            + line("UXL"@, Arch::text(self.uxl@, 0))
            + line("SXL"@, Arch::text(self.sxl@, 0))
            + line("SBE"@, self.sbe.text())
            + line("MBE"@, self.mbe.text())
            + line("GVA"@, self.gva.text())
            + line("MPV"@, self.mpv.text())
            + line("SD"@, self.sd.text())
    }

    fn new(value: u64) -> (csr: Self) {
        Mstatus {
            sie: BitField::new(value),
            mie: BitField::new(value),
            spie: BitField::new(value),
            ube: BitField::new(value),
            mpie: BitField::new(value),
            spp: BitField::new(value),
            vs: BitField::new(value),
            mpp: BitField::new(value),
            fs: BitField::new(value),
            xs: BitField::new(value),
            mprv: BitField::new(value),
            sum: BitField::new(value),
            mxr: BitField::new(value),
            tvm: BitField::new(value),
            tw: BitField::new(value),
            tsr: BitField::new(value),
            uxl: BitField::new(value),
            sxl: BitField::new(value),
            sbe: BitField::new(value),
            mbe: BitField::new(value),
            gva: BitField::new(value),
            mpv: BitField::new(value),
            sd: BitField::new(value),
        }
    }

    fn name() -> (name: String) {
        String::from_str("mstatus")
    }

    fn render(&self) -> (text: String) {
        let mut text = start_report("mstatus");
        push_text_line(&mut text, "SIE", self.sie.format().as_str());
        push_text_line(&mut text, "MIE", self.mie.format().as_str());
        push_text_line(&mut text, "SPIE", self.spie.format().as_str());
        push_text_line(&mut text, "UBE", self.ube.format().as_str());
        push_text_line(&mut text, "MPIE", self.mpie.format().as_str());
        push_text_line(&mut text, "SPP", dec_priv(self.spp.value()).as_str());
        push_text_line(&mut text, "VS", self.vs.format().as_str());
        push_text_line(&mut text, "MPP", dec_priv(self.mpp.value()).as_str());
        push_text_line(&mut text, "FS", self.fs.format().as_str());
        push_text_line(&mut text, "XS", self.xs.format().as_str());
        push_text_line(&mut text, "MPRV", self.mprv.format().as_str());
        push_text_line(&mut text, "SUM", self.sum.format().as_str());
        push_text_line(&mut text, "MXR", self.mxr.format().as_str());
        push_text_line(&mut text, "TVM", self.tvm.format().as_str());
        push_text_line(&mut text, "TW", self.tw.format().as_str());
        push_text_line(&mut text, "TSR", self.tsr.format().as_str());
        push_text_line(&mut text, "UXL", dec_arch(self.uxl.value()).as_str());
        push_text_line(&mut text, "SXL", dec_arch(self.sxl.value()).as_str());
        push_text_line(&mut text, "SBE", self.sbe.format().as_str());
        push_text_line(&mut text, "MBE", self.mbe.format().as_str());
        push_text_line(&mut text, "GVA", self.gva.format().as_str());
        push_text_line(&mut text, "MPV", self.mpv.format().as_str());
        push_text_line(&mut text, "SD", self.sd.format().as_str());
        text
    }
}

/// Supervisor Address Translation and Protection Register
pub struct Satp {
    pub mode: BitField<60, 63>,
    pub asid: BitField<44, 59>,
    pub ppn: BitField<0, 43>,
}

impl Csr for Satp {
    open spec fn title() -> Seq<char> {
        "satp"@
    }

    open spec fn decoded(value: u64) -> Self {
        Satp {
            mode: BitField::decoded(value),
            asid: BitField::decoded(value),
            ppn: BitField::decoded(value),
        }
    }

    open spec fn report(&self) -> Seq<char> {
        "\n"@ + heading(Self::title())
            + line("MODE"@, Atp::text(self.mode@, 0))
            + line("ASID"@, hex(self.asid@ as nat))
            + line("PPN"@, hex(self.ppn@ as nat))
    }

    fn new(value: u64) -> (csr: Self) {
        Satp {
            mode: BitField::new(value),
            asid: BitField::new(value),
            ppn: BitField::new(value),
        }
    }

    fn name() -> (name: String) {
        String::from_str("satp")
    }

    fn render(&self) -> (text: String) {
        let mut text = String::from_str("\n");
        text.append(start_report("satp").as_str());
        push_text_line(&mut text, "MODE", dec_at_mode(self.mode.value()).as_str());
        push_text_line(&mut text, "ASID", Hex::decode(self.asid.value(), 0).as_str());
        push_text_line(&mut text, "PPN", Hex::decode(self.ppn.value(), 0).as_str());
        text
    }
}

/// Machine Trap-Vector Base-Address Register
///
/// The base address is stored without its two lowest bits, which are zero,
/// and is reported with them.
pub struct Mtvec {
    pub base: BitField<2, 63>,
    pub mode: BitField<0, 1>,
}

impl Csr for Mtvec {
    open spec fn title() -> Seq<char> {
        "mtvec"@
    }

    open spec fn decoded(value: u64) -> Self {
        Mtvec {
            base: BitField::decoded(value),
            mode: BitField::decoded(value),
        }
    }

    open spec fn report(&self) -> Seq<char> {
        "\n"@ + heading(Self::title())
            + line("BASE"@, hex(shifted_left(self.base@, 2) as nat))
            + line("MODE"@, Tvec::text(self.mode@, 0))
    }

    fn new(value: u64) -> (csr: Self) {
        Mtvec {
            base: BitField::new(value),
            mode: BitField::new(value),
        }
    }

    fn name() -> (name: String) {
        String::from_str("mtvec")
    }

    fn render(&self) -> (text: String) {
        let mut text = String::from_str("\n");
        text.append(start_report("mtvec").as_str());
        push_text_line(&mut text, "BASE", Hex::decode(shift_left(self.base.value(), 2), 0).as_str());
        push_text_line(&mut text, "MODE", dec_xtvec_mode(self.mode.value()).as_str());
        text
    }
}

/// Shows a base integer width: `RV32`, `RV64` or `RV128`.
pub fn dec_arch(architecture: u64) -> (shown: String)
    ensures
        shown@ == Arch::text(architecture, 0),
{
    Arch::decode(architecture, 0)
}

/// Shows a privilege level: `User`, `Supervisor` or `Machine`.
pub fn dec_priv(privilege: u64) -> (shown: String)
    ensures
        shown@ == Priv::text(privilege, 0),
{
    Priv::decode(privilege, 0)
}

/// Shows an address translation mode: `Bare`, `Sv32`, `Sv39`, `Sv48` or
/// `Sv57`.
pub fn dec_at_mode(mode: u64) -> (shown: String)
    ensures
        shown@ == Atp::text(mode, 0),
{
    Atp::decode(mode, 0)
}

/// Shows a trap vector mode: `Direct` or `Vectored`.
pub fn dec_xtvec_mode(mode: u64) -> (shown: String)
    ensures
        shown@ == Tvec::text(mode, 0),
{
    Tvec::decode(mode, 0)
}

} // verus!
