//! Layouts of the machine-level control and status registers.
use crate::bitfield::{Arch, Bin, BitField, Hex, Priv, RSh, Tvec};
use crate::format::{heading, line, push_line, start_report, Csr};
use vstd::prelude::*;

verus! {

/// Machine ISA Register
pub struct Misa {
    pub a: BitField<Bin, 0, 0>,
    pub b: BitField<Bin, 1, 1>,
    pub c: BitField<Bin, 2, 2>,
    pub d: BitField<Bin, 3, 3>,
    pub e: BitField<Bin, 4, 4>,
    pub f: BitField<Bin, 5, 5>,
    pub g: BitField<Bin, 6, 6>,
    pub h: BitField<Bin, 7, 7>,
    pub i: BitField<Bin, 8, 8>,
    pub j: BitField<Bin, 9, 9>,
    pub k: BitField<Bin, 10, 10>,
    pub l: BitField<Bin, 11, 11>,
    pub m: BitField<Bin, 12, 12>,
    pub n: BitField<Bin, 13, 13>,
    pub o: BitField<Bin, 14, 14>,
    pub p: BitField<Bin, 15, 15>,
    pub q: BitField<Bin, 16, 16>,
    pub r: BitField<Bin, 17, 17>,
    pub s: BitField<Bin, 18, 18>,
    pub t: BitField<Bin, 19, 19>,
    pub u: BitField<Bin, 20, 20>,
    pub v: BitField<Bin, 21, 21>,
    pub w: BitField<Bin, 22, 22>,
    pub x: BitField<Bin, 23, 23>,
    pub y: BitField<Bin, 24, 24>,
    pub z: BitField<Bin, 25, 25>,
    pub mxl: BitField<Arch, 62, 63>,
}

impl Csr for Misa {
    open spec fn title() -> Seq<char> {
        "misa"@
    }

    open spec fn decoded(value: u64) -> Self {
        Misa {
            a: BitField::decoded(value),
            b: BitField::decoded(value),
            c: BitField::decoded(value),
            d: BitField::decoded(value),
            e: BitField::decoded(value),
            f: BitField::decoded(value),
            g: BitField::decoded(value),
            h: BitField::decoded(value),
            i: BitField::decoded(value),
            j: BitField::decoded(value),
            k: BitField::decoded(value),
            l: BitField::decoded(value),
            m: BitField::decoded(value),
            n: BitField::decoded(value),
            o: BitField::decoded(value),
            p: BitField::decoded(value),
            q: BitField::decoded(value),
            r: BitField::decoded(value),
            s: BitField::decoded(value),
            t: BitField::decoded(value),
            u: BitField::decoded(value),
            v: BitField::decoded(value),
            w: BitField::decoded(value),
            x: BitField::decoded(value),
            y: BitField::decoded(value),
            z: BitField::decoded(value),
            mxl: BitField::decoded(value),
        }
    }

    open spec fn report(&self) -> Seq<char> {
        heading(Self::title())
            + line("a"@, self.a.text())
            + line("b"@, self.b.text())
            + line("c"@, self.c.text())
            + line("d"@, self.d.text())
            + line("e"@, self.e.text())
            + line("f"@, self.f.text())
            + line("g"@, self.g.text())
            + line("h"@, self.h.text())
            + line("i"@, self.i.text())
            + line("j"@, self.j.text())
            + line("k"@, self.k.text())
            + line("l"@, self.l.text())
            + line("m"@, self.m.text())
            + line("n"@, self.n.text())
            + line("o"@, self.o.text())
            + line("p"@, self.p.text())
            + line("q"@, self.q.text())
            + line("r"@, self.r.text())
            + line("s"@, self.s.text())
            + line("t"@, self.t.text())
            + line("u"@, self.u.text())
            + line("v"@, self.v.text())
            + line("w"@, self.w.text())
            + line("x"@, self.x.text())
            + line("y"@, self.y.text())
            + line("z"@, self.z.text())
            + line("mxl"@, self.mxl.text())
    }

    fn new(value: u64) -> (csr: Self) {
        Misa {
            a: BitField::new(value),
            b: BitField::new(value),
            c: BitField::new(value),
            d: BitField::new(value),
            e: BitField::new(value),
            f: BitField::new(value),
            g: BitField::new(value),
            h: BitField::new(value),
            i: BitField::new(value),
            j: BitField::new(value),
            k: BitField::new(value),
            l: BitField::new(value),
            m: BitField::new(value),
            n: BitField::new(value),
            o: BitField::new(value),
            p: BitField::new(value),
            q: BitField::new(value),
            r: BitField::new(value),
            s: BitField::new(value),
            t: BitField::new(value),
            u: BitField::new(value),
            v: BitField::new(value),
            w: BitField::new(value),
            x: BitField::new(value),
            y: BitField::new(value),
            z: BitField::new(value),
            mxl: BitField::new(value),
        }
    }

    fn name() -> (name: String) {
        String::from_str("misa")
    }

    fn render(&self) -> (text: String) {
        let mut text = start_report("misa");
        push_line(&mut text, "a", &self.a);
        push_line(&mut text, "b", &self.b);
        push_line(&mut text, "c", &self.c);
        push_line(&mut text, "d", &self.d);
        push_line(&mut text, "e", &self.e);
        push_line(&mut text, "f", &self.f);
        push_line(&mut text, "g", &self.g);
        push_line(&mut text, "h", &self.h);
        push_line(&mut text, "i", &self.i);
        push_line(&mut text, "j", &self.j);
        push_line(&mut text, "k", &self.k);
        push_line(&mut text, "l", &self.l);
        push_line(&mut text, "m", &self.m);
        push_line(&mut text, "n", &self.n);
        push_line(&mut text, "o", &self.o);
        push_line(&mut text, "p", &self.p);
        push_line(&mut text, "q", &self.q);
        push_line(&mut text, "r", &self.r);
        push_line(&mut text, "s", &self.s);
        push_line(&mut text, "t", &self.t);
        push_line(&mut text, "u", &self.u);
        push_line(&mut text, "v", &self.v);
        push_line(&mut text, "w", &self.w);
        push_line(&mut text, "x", &self.x);
        push_line(&mut text, "y", &self.y);
        push_line(&mut text, "z", &self.z);
        push_line(&mut text, "mxl", &self.mxl);
        text
    }
}

/// Machine Vendor ID Register
pub struct Mvendorid {
    pub offset: BitField<Hex, 0, 6>,
    pub bank: BitField<Hex, 7, 31>,
}

impl Csr for Mvendorid {
    open spec fn title() -> Seq<char> {
        "mvendorid"@
    }

    open spec fn decoded(value: u64) -> Self {
        Mvendorid {
            offset: BitField::decoded(value),
            bank: BitField::decoded(value),
        }
    }

    open spec fn report(&self) -> Seq<char> {
        heading(Self::title())
            + line("offset"@, self.offset.text())
            + line("bank"@, self.bank.text())
    }

    fn new(value: u64) -> (csr: Self) {
        Mvendorid {
            offset: BitField::new(value),
            bank: BitField::new(value),
        }
    }

    fn name() -> (name: String) {
        String::from_str("mvendorid")
    }

    fn render(&self) -> (text: String) {
        let mut text = start_report("mvendorid");
        push_line(&mut text, "offset", &self.offset);
        push_line(&mut text, "bank", &self.bank);
        text
    }
}

/// Machine Architecture ID Register
pub struct Marchid {
    pub id: BitField<Hex, 0, 63>,
}

impl Csr for Marchid {
    open spec fn title() -> Seq<char> {
        "marchid"@
    }

    open spec fn decoded(value: u64) -> Self {
        Marchid { id: BitField::decoded(value) }
    }

    open spec fn report(&self) -> Seq<char> {
        heading(Self::title())
            + line("id"@, self.id.text())
    }

    fn new(value: u64) -> (csr: Self) {
        Marchid { id: BitField::new(value) }
    }

    fn name() -> (name: String) {
        String::from_str("marchid")
    }

    fn render(&self) -> (text: String) {
        let mut text = start_report("marchid");
        push_line(&mut text, "id", &self.id);
        text
    }
}

/// Machine Implementation ID Register
pub struct Mimpid {
    pub id: BitField<Hex, 0, 63>,
}

impl Csr for Mimpid {
    open spec fn title() -> Seq<char> {
        "mimpid"@
    }

    open spec fn decoded(value: u64) -> Self {
        Mimpid { id: BitField::decoded(value) }
    }

    open spec fn report(&self) -> Seq<char> {
        heading(Self::title())
            + line("id"@, self.id.text())
    }

    fn new(value: u64) -> (csr: Self) {
        Mimpid { id: BitField::new(value) }
    }

    fn name() -> (name: String) {
        String::from_str("mimpid")
    }

    fn render(&self) -> (text: String) {
        let mut text = start_report("mimpid");
        push_line(&mut text, "id", &self.id);
        text
    }
}

/// Hart ID Register
pub struct Mhartid {
    pub id: BitField<Hex, 0, 63>,
}

impl Csr for Mhartid {
    open spec fn title() -> Seq<char> {
        "mhartid"@
    }

    open spec fn decoded(value: u64) -> Self {
        Mhartid { id: BitField::decoded(value) }
    }

    open spec fn report(&self) -> Seq<char> {
        heading(Self::title())
            + line("id"@, self.id.text())
    }

    fn new(value: u64) -> (csr: Self) {
        Mhartid { id: BitField::new(value) }
    }

    fn name() -> (name: String) {
        String::from_str("mhartid")
    }

    fn render(&self) -> (text: String) {
        let mut text = start_report("mhartid");
        push_line(&mut text, "id", &self.id);
        text
    }
}

/// Machine Status Register
pub struct Mstatus {
    pub sie: BitField<Bin, 1, 1>,
    pub mie: BitField<Bin, 3, 3>,
    pub spie: BitField<Bin, 5, 5>,
    pub ube: BitField<Bin, 6, 6>,
    pub mpie: BitField<Bin, 7, 7>,
    pub spp: BitField<Priv, 8, 8>,
    pub vs: BitField<Bin, 9, 10>,
    pub mpp: BitField<Priv, 11, 12>,
    pub fs: BitField<Bin, 13, 14>,
    pub xs: BitField<Bin, 15, 16>,
    pub mprv: BitField<Bin, 17, 17>,
    pub sum: BitField<Bin, 18, 18>,
    pub mxr: BitField<Bin, 19, 19>,
    pub tvm: BitField<Bin, 20, 20>,
    pub tw: BitField<Bin, 21, 21>,
    pub tsr: BitField<Bin, 22, 22>,
    pub uxl: BitField<Arch, 32, 33>,
    pub sxl: BitField<Arch, 34, 35>,
    pub sbe: BitField<Bin, 36, 36>,
    pub mbe: BitField<Bin, 37, 37>,
    pub gva: BitField<Bin, 38, 38>,
    pub mpv: BitField<Bin, 39, 39>,
    pub sd: BitField<Bin, 63, 63>,
}

impl Csr for Mstatus {
    open spec fn title() -> Seq<char> {
        "mstatus"@
    }

    open spec fn decoded(value: u64) -> Self {
        Mstatus {
            sie: BitField::decoded(value),
            mie: BitField::decoded(value),
            spie: BitField::decoded(value),
            ube: BitField::decoded(value),
            mpie: BitField::decoded(value),
            spp: BitField::decoded(value),
            vs: BitField::decoded(value),
            mpp: BitField::decoded(value),
            fs: BitField::decoded(value),
            xs: BitField::decoded(value),
            mprv: BitField::decoded(value),
            sum: BitField::decoded(value),
            mxr: BitField::decoded(value),
            tvm: BitField::decoded(value),
            tw: BitField::decoded(value),
            tsr: BitField::decoded(value),
            uxl: BitField::decoded(value),
            sxl: BitField::decoded(value),
            sbe: BitField::decoded(value),
            mbe: BitField::decoded(value),
            gva: BitField::decoded(value),
            mpv: BitField::decoded(value),
            sd: BitField::decoded(value),
        }
    }

    open spec fn report(&self) -> Seq<char> {
        heading(Self::title())
            + line("sie"@, self.sie.text())
            + line("mie"@, self.mie.text())
            + line("spie"@, self.spie.text())
            + line("ube"@, self.ube.text())
            + line("mpie"@, self.mpie.text())
            + line("spp"@, self.spp.text())
            + line("vs"@, self.vs.text())
            + line("mpp"@, self.mpp.text())
            + line("fs"@, self.fs.text())
            + line("xs"@, self.xs.text())
            + line("mprv"@, self.mprv.text())
            + line("sum"@, self.sum.text())
            + line("mxr"@, self.mxr.text())
            + line("tvm"@, self.tvm.text())
            + line("tw"@, self.tw.text())
            + line("tsr"@, self.tsr.text())
            + line("uxl"@, self.uxl.text())
            + line("sxl"@, self.sxl.text())
            + line("sbe"@, self.sbe.text())
            + line("mbe"@, self.mbe.text())
            + line("gva"@, self.gva.text())
            + line("mpv"@, self.mpv.text())
            + line("sd"@, self.sd.text())
    }

    fn new(value: u64) -> (csr: Self) {
        Mstatus {
            sie: BitField::new(value),
            mie: BitField::new(value),
            spie: BitField::new(value),
            ube: BitField::new(value),
            mpie: BitField::new(value),
            spp: BitField::new(value),
            vs: BitField::new(value),
            mpp: BitField::new(value),
            fs: BitField::new(value),
            xs: BitField::new(value),
            mprv: BitField::new(value),
            sum: BitField::new(value),
            mxr: BitField::new(value),
            tvm: BitField::new(value),
            tw: BitField::new(value),
            tsr: BitField::new(value),
            uxl: BitField::new(value),
            sxl: BitField::new(value),
            sbe: BitField::new(value),
            mbe: BitField::new(value),
            gva: BitField::new(value),
            mpv: BitField::new(value),
            sd: BitField::new(value),
        }
    }

    fn name() -> (name: String) {
        String::from_str("mstatus")
    }

    fn render(&self) -> (text: String) {
        let mut text = start_report("mstatus");
        push_line(&mut text, "sie", &self.sie);
        push_line(&mut text, "mie", &self.mie);
        push_line(&mut text, "spie", &self.spie);
        push_line(&mut text, "ube", &self.ube);
        push_line(&mut text, "mpie", &self.mpie);
        push_line(&mut text, "spp", &self.spp);
        push_line(&mut text, "vs", &self.vs);
        push_line(&mut text, "mpp", &self.mpp);
        push_line(&mut text, "fs", &self.fs);
        push_line(&mut text, "xs", &self.xs);
        push_line(&mut text, "mprv", &self.mprv);
        push_line(&mut text, "sum", &self.sum);
        push_line(&mut text, "mxr", &self.mxr);
        push_line(&mut text, "tvm", &self.tvm);
        push_line(&mut text, "tw", &self.tw);
        push_line(&mut text, "tsr", &self.tsr);
        push_line(&mut text, "uxl", &self.uxl);
        push_line(&mut text, "sxl", &self.sxl);
        push_line(&mut text, "sbe", &self.sbe);
        push_line(&mut text, "mbe", &self.mbe);
        push_line(&mut text, "gva", &self.gva);
        push_line(&mut text, "mpv", &self.mpv);
        push_line(&mut text, "sd", &self.sd);
        text
    }
}

/// Machine Trap-Vector Base-Address Register
pub struct Mtvec {
    pub base: BitField<Hex, 2, 63>,
    pub mode: BitField<Tvec, 0, 1>,
}

impl Csr for Mtvec {
    open spec fn title() -> Seq<char> {
        "mtvec"@
    }

    open spec fn decoded(value: u64) -> Self {
        Mtvec {
            base: BitField::decoded(value),
            mode: BitField::decoded(value),
        }
    }

    open spec fn report(&self) -> Seq<char> {
        heading(Self::title())
            + line("base"@, self.base.text())
            + line("mode"@, self.mode.text())
    }

    fn new(value: u64) -> (csr: Self) {
        Mtvec {
            base: BitField::new(value),
            mode: BitField::new(value),
        }
    }

    fn name() -> (name: String) {
        String::from_str("mtvec")
    }

    fn render(&self) -> (text: String) {
        let mut text = start_report("mtvec");
        push_line(&mut text, "base", &self.base);
        push_line(&mut text, "mode", &self.mode);
        text
    }
}

/// Machine Exception Delegation Register
pub struct Medeleg {
    pub misaligned_fetch: BitField<Bin, 0x0, 0x0>,
    pub fetch_access: BitField<Bin, 0x1, 0x1>,
    pub illegal_instruction: BitField<Bin, 0x2, 0x2>,
    pub breakpoint: BitField<Bin, 0x3, 0x3>,
    pub misaligned_load: BitField<Bin, 0x4, 0x4>,
    pub load_access: BitField<Bin, 0x5, 0x5>,
    pub misaligned_store: BitField<Bin, 0x6, 0x6>,
    pub store_access: BitField<Bin, 0x7, 0x7>,
    pub user_ecall: BitField<Bin, 0x8, 0x8>,
    pub supervisor_ecall: BitField<Bin, 0x9, 0x9>,
    pub virtual_supervisor_ecall: BitField<Bin, 0xa, 0xa>,
    pub machine_ecall: BitField<Bin, 0xb, 0xb>,
    pub fetch_page_fault: BitField<Bin, 0xc, 0xc>,
    pub load_page_fault: BitField<Bin, 0xd, 0xd>,
    pub store_page_fault: BitField<Bin, 0xf, 0xf>,
    pub fetch_guest_page_fault: BitField<Bin, 0x14, 0x14>,
    pub load_guest_page_fault: BitField<Bin, 0x15, 0x15>,
    pub virtual_instruction: BitField<Bin, 0x16, 0x16>,
    pub store_guest_page_fault: BitField<Bin, 0x17, 0x17>,
}

impl Csr for Medeleg {
    open spec fn title() -> Seq<char> {
        "medeleg"@
    }

    open spec fn decoded(value: u64) -> Self {
        Medeleg {
            misaligned_fetch: BitField::decoded(value),
            fetch_access: BitField::decoded(value),
            illegal_instruction: BitField::decoded(value),
            breakpoint: BitField::decoded(value),
            misaligned_load: BitField::decoded(value),
            load_access: BitField::decoded(value),
            misaligned_store: BitField::decoded(value),
            store_access: BitField::decoded(value),
            user_ecall: BitField::decoded(value),
            supervisor_ecall: BitField::decoded(value),
            virtual_supervisor_ecall: BitField::decoded(value),
            machine_ecall: BitField::decoded(value),
            fetch_page_fault: BitField::decoded(value),
            load_page_fault: BitField::decoded(value),
            store_page_fault: BitField::decoded(value),
            fetch_guest_page_fault: BitField::decoded(value),
            load_guest_page_fault: BitField::decoded(value),
            virtual_instruction: BitField::decoded(value),
            store_guest_page_fault: BitField::decoded(value),
        }
    }

    open spec fn report(&self) -> Seq<char> {
        heading(Self::title())
            + line("misaligned_fetch"@, self.misaligned_fetch.text())
            + line("fetch_access"@, self.fetch_access.text())
            + line("illegal_instruction"@, self.illegal_instruction.text())
            + line("breakpoint"@, self.breakpoint.text())
            + line("misaligned_load"@, self.misaligned_load.text())
            + line("load_access"@, self.load_access.text())
            + line("misaligned_store"@, self.misaligned_store.text())
            + line("store_access"@, self.store_access.text())
            + line("user_ecall"@, self.user_ecall.text())
            + line("supervisor_ecall"@, self.supervisor_ecall.text())
            + line("virtual_supervisor_ecall"@, self.virtual_supervisor_ecall.text())
            + line("machine_ecall"@, self.machine_ecall.text())
            + line("fetch_page_fault"@, self.fetch_page_fault.text())
            + line("load_page_fault"@, self.load_page_fault.text())
            + line("store_page_fault"@, self.store_page_fault.text())
            + line("fetch_guest_page_fault"@, self.fetch_guest_page_fault.text())
            + line("load_guest_page_fault"@, self.load_guest_page_fault.text())
            + line("virtual_instruction"@, self.virtual_instruction.text())
            + line("store_guest_page_fault"@, self.store_guest_page_fault.text())
    }

    fn new(value: u64) -> (csr: Self) {
        Medeleg {
            misaligned_fetch: BitField::new(value),
            fetch_access: BitField::new(value),
            illegal_instruction: BitField::new(value),
            breakpoint: BitField::new(value),
            misaligned_load: BitField::new(value),
            load_access: BitField::new(value),
            misaligned_store: BitField::new(value),
            store_access: BitField::new(value),
            user_ecall: BitField::new(value),
            supervisor_ecall: BitField::new(value),
            virtual_supervisor_ecall: BitField::new(value),
            machine_ecall: BitField::new(value),
            fetch_page_fault: BitField::new(value),
            load_page_fault: BitField::new(value),
            store_page_fault: BitField::new(value),
            fetch_guest_page_fault: BitField::new(value),
            load_guest_page_fault: BitField::new(value),
            virtual_instruction: BitField::new(value),
            store_guest_page_fault: BitField::new(value),
        }
    }

    fn name() -> (name: String) {
        String::from_str("medeleg")
    }

    fn render(&self) -> (text: String) {
        let mut text = start_report("medeleg");
        push_line(&mut text, "misaligned_fetch", &self.misaligned_fetch);
        push_line(&mut text, "fetch_access", &self.fetch_access);
        push_line(&mut text, "illegal_instruction", &self.illegal_instruction);
        push_line(&mut text, "breakpoint", &self.breakpoint);
        push_line(&mut text, "misaligned_load", &self.misaligned_load);
        push_line(&mut text, "load_access", &self.load_access);
        push_line(&mut text, "misaligned_store", &self.misaligned_store);
        push_line(&mut text, "store_access", &self.store_access);
        push_line(&mut text, "user_ecall", &self.user_ecall);
        push_line(&mut text, "supervisor_ecall", &self.supervisor_ecall);
        push_line(&mut text, "virtual_supervisor_ecall", &self.virtual_supervisor_ecall);
        push_line(&mut text, "machine_ecall", &self.machine_ecall);
        push_line(&mut text, "fetch_page_fault", &self.fetch_page_fault);
        push_line(&mut text, "load_page_fault", &self.load_page_fault);
        push_line(&mut text, "store_page_fault", &self.store_page_fault);
        push_line(&mut text, "fetch_guest_page_fault", &self.fetch_guest_page_fault);
        push_line(&mut text, "load_guest_page_fault", &self.load_guest_page_fault);
        push_line(&mut text, "virtual_instruction", &self.virtual_instruction);
        push_line(&mut text, "store_guest_page_fault", &self.store_guest_page_fault);
        text
    }
}

/// Machine Trap Value Register
pub struct Mtval {
    pub tval: BitField<Hex, 0, 63>,
}

impl Csr for Mtval {
    open spec fn title() -> Seq<char> {
        "mtval"@
    }

    open spec fn decoded(value: u64) -> Self {
        Mtval { tval: BitField::decoded(value) }
    }

    open spec fn report(&self) -> Seq<char> {
        heading(Self::title())
            + line("tval"@, self.tval.text())
    }

    fn new(value: u64) -> (csr: Self) {
        Mtval { tval: BitField::new(value) }
    }

    fn name() -> (name: String) {
        String::from_str("mtval")
    }

    fn render(&self) -> (text: String) {
        let mut text = start_report("mtval");
        push_line(&mut text, "tval", &self.tval);
        text
    }
}

/// Machine Second Trap Value Register
pub struct Mtval2 {
    pub tval: BitField<RSh<2, Hex>, 0, 63>,
}

impl Csr for Mtval2 {
    open spec fn title() -> Seq<char> {
        "mtval2"@
    }

    open spec fn decoded(value: u64) -> Self {
        Mtval2 { tval: BitField::decoded(value) }
    }

    open spec fn report(&self) -> Seq<char> {
        heading(Self::title())
            + line("tval"@, self.tval.text())
    }

    fn new(value: u64) -> (csr: Self) {
        Mtval2 { tval: BitField::new(value) }
    }

    fn name() -> (name: String) {
        String::from_str("mtval2")
    }

    fn render(&self) -> (text: String) {
        let mut text = start_report("mtval2");
        push_line(&mut text, "tval", &self.tval);
        text
    }
}

/// Machine Interrupt Bitmap: the layout that the interrupt delegation,
/// enable and pending registers share
pub struct Minterrupts {
    pub s_software_i: BitField<Bin, 1, 1>,
    pub vs_software_i: BitField<Bin, 2, 2>,
    pub m_software_i: BitField<Bin, 3, 3>,
    pub s_timer_i: BitField<Bin, 5, 5>,
    pub vs_timer_i: BitField<Bin, 6, 6>,
    pub m_timer_i: BitField<Bin, 7, 7>,
    pub s_external_i: BitField<Bin, 9, 9>,
    pub vs_external_i: BitField<Bin, 10, 10>,
    pub m_external_i: BitField<Bin, 11, 11>,
    pub sg_external_i: BitField<Bin, 12, 12>,
    pub custom_i: BitField<Hex, 16, 63>,
}

impl Csr for Minterrupts {
    open spec fn title() -> Seq<char> {
        "minterrupts"@
    }

    open spec fn decoded(value: u64) -> Self {
        Minterrupts {
            s_software_i: BitField::decoded(value),
            vs_software_i: BitField::decoded(value),
            m_software_i: BitField::decoded(value),
            s_timer_i: BitField::decoded(value),
            vs_timer_i: BitField::decoded(value),
            m_timer_i: BitField::decoded(value),
            s_external_i: BitField::decoded(value),
            vs_external_i: BitField::decoded(value),
            m_external_i: BitField::decoded(value),
            sg_external_i: BitField::decoded(value),
            custom_i: BitField::decoded(value),
        }
    }

    open spec fn report(&self) -> Seq<char> {
        heading(Self::title())
            + line("s_software_i"@, self.s_software_i.text())
            + line("vs_software_i"@, self.vs_software_i.text())
            + line("m_software_i"@, self.m_software_i.text())
            + line("s_timer_i"@, self.s_timer_i.text())
            + line("vs_timer_i"@, self.vs_timer_i.text())
            + line("m_timer_i"@, self.m_timer_i.text())
            + line("s_external_i"@, self.s_external_i.text())
            + line("vs_external_i"@, self.vs_external_i.text())
            + line("m_external_i"@, self.m_external_i.text())
            + line("sg_external_i"@, self.sg_external_i.text())
            + line("custom_i"@, self.custom_i.text())
    }

    fn new(value: u64) -> (csr: Self) {
        Minterrupts {
            s_software_i: BitField::new(value),
            vs_software_i: BitField::new(value),
            m_software_i: BitField::new(value),
            s_timer_i: BitField::new(value),
            vs_timer_i: BitField::new(value),
            m_timer_i: BitField::new(value),
            s_external_i: BitField::new(value),
            vs_external_i: BitField::new(value),
            m_external_i: BitField::new(value),
            sg_external_i: BitField::new(value),
            custom_i: BitField::new(value),
        }
    }

    fn name() -> (name: String) {
        String::from_str("minterrupts")
    }

    fn render(&self) -> (text: String) {
        let mut text = start_report("minterrupts");
        push_line(&mut text, "s_software_i", &self.s_software_i);
        push_line(&mut text, "vs_software_i", &self.vs_software_i);
        push_line(&mut text, "m_software_i", &self.m_software_i);
        push_line(&mut text, "s_timer_i", &self.s_timer_i);
        push_line(&mut text, "vs_timer_i", &self.vs_timer_i);
        push_line(&mut text, "m_timer_i", &self.m_timer_i);
        push_line(&mut text, "s_external_i", &self.s_external_i);
        push_line(&mut text, "vs_external_i", &self.vs_external_i);
        push_line(&mut text, "m_external_i", &self.m_external_i);
        push_line(&mut text, "sg_external_i", &self.sg_external_i);
        push_line(&mut text, "custom_i", &self.custom_i);
        text
    }
}

/// Machine Interrupt Delegation Register
pub type Mideleg = Minterrupts;

/// Machine Interrupt Enable Register
pub type Mie = Minterrupts;

/// Machine Interrupt Pending Register
pub type Mip = Minterrupts;

} // verus!
