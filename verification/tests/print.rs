use rv_format::csr::base::{
    dec_arch, dec_at_mode, dec_priv, dec_xtvec_mode, Marchid, Mhartid, Mimpid, Misa, Mstatus,
    Mtvec, Mvendorid, Satp,
};
use rv_format::csr::h_ext::{Hedeleg, Hideleg, Hstatus};
use rv_format::format::Csr;
use rv_format::print::{entry, print_csr, Entry, PlainLayout, PrintError, TColor};

#[test]
fn plain_misa_report_ends_with_the_base_width() {
    let text = print_csr("misa", 0x8000000000141101).unwrap();
    let lines: Vec<&str> = text.lines().collect();
    assert_eq!(lines.len(), 29);
    assert_eq!(lines[0], "misa");
    assert_eq!(lines[1], "----");
    assert_eq!(lines[2], "A: 0b1");
    assert_eq!(lines[3], "B: 0b0");
    assert_eq!(lines[10], "I: 0b1");
    assert_eq!(lines[27], "Z: 0b0");
    assert_eq!(lines[28], "MXL: RV64");
    assert_eq!(text, Misa::new(0x8000000000141101).render());
}

#[test]
fn identification_registers_take_a_single_line() {
    assert_eq!(print_csr("marchid", 0x1234).unwrap(), "Architecture ID: 0x1234\n");
    assert_eq!(print_csr("mimpid", 0xabc).unwrap(), "Implementation ID: 0xabc\n");
    assert_eq!(print_csr("mhartid", 3).unwrap(), "\nHart ID: 0x3\n");
    assert_eq!(Marchid::new(u64::MAX).render(), "Architecture ID: 0xffffffffffffffff\n");
    assert_eq!(Mimpid::new(0).render(), "Implementation ID: 0x0\n");
    assert_eq!(Mhartid::new(0).render(), "\nHart ID: 0x0\n");
    assert_eq!(Marchid::name(), "marchid");
}

#[test]
fn vendor_report() {
    assert_eq!(
        print_csr("mvendorid", 0x0000_0489).unwrap(),
        "mvendorid\n---------\noffset: 0x9\nbank: 0x9\n"
    );
    assert_eq!(Mvendorid::new(0x0000_0489).offset.value(), 9);
    assert_eq!(Mvendorid::new(0x0000_0489).bank.value(), 9);
}

#[test]
fn plain_status_report_names_privileges_and_widths() {
    let text = print_csr("mstatus", 0x0000_000a_0000_1900).unwrap();
    let lines: Vec<&str> = text.lines().collect();
    assert_eq!(lines.len(), 25);
    assert_eq!(lines[0], "mstatus");
    assert_eq!(lines[1], "-------");
    assert_eq!(lines[2], "SIE: 0b0");
    assert_eq!(lines[7], "SPP: Supervisor");
    assert_eq!(lines[8], "VS: 0b00");
    assert_eq!(lines[9], "MPP: Machine");
    assert_eq!(lines[18], "UXL: RV64");
    assert_eq!(lines[19], "SXL: RV64");
    assert_eq!(lines[24], "SD: 0b0");
    assert_eq!(text, Mstatus::new(0x0000_000a_0000_1900).render());
}

#[test]
fn plain_translation_and_vector_reports_start_with_an_empty_line() {
    assert_eq!(
        Satp::new(0x8000_1234_0005_6789).render(),
        "\nsatp\n----\nMODE: Sv39\nASID: 0x1\nPPN: 0x23400056789\n"
    );
    assert_eq!(
        Mtvec::new(0x80001235).render(),
        "\nmtvec\n-----\nBASE: 0x80001234\nMODE: Vectored\n"
    );
    assert_eq!(
        Mtvec::new(u64::MAX).render(),
        "\nmtvec\n-----\nBASE: 0xfffffffffffffffc\nMODE: \x1b[33mInvalid (0b11)\x1b[0m\n"
    );
}

#[test]
fn hypervisor_reports() {
    assert_eq!(
        print_csr("hstatus", 0x0000_0002_0020_00a0).unwrap(),
        "\nhstatus\n-------\nVSBE: 0b1\nGVA: 0b0\nSPV: 0b1\nSPVP: 0b0\nHU: 0b0\n\
         VGEIN: 0b000000\nVTVM: 0b0\nVTW: 0b1\nVTSR: 0b0\nVSXL: RV64\n"
    );
    assert_eq!(
        print_csr("hedeleg", 5).unwrap(),
        format!("hedeleg: 0b{}101\n", "0".repeat(61))
    );
    assert_eq!(
        print_csr("hideleg", u64::MAX).unwrap(),
        format!("hideleg: 0b{}\n", "1".repeat(64))
    );
    assert_eq!(Hstatus::new(0x0000_0002_0020_00a0).vsxl.value(), 2);
    assert_eq!(Hedeleg::new(5).0.value(), 5);
    assert_eq!(Hideleg::new(5).render(), format!("hideleg: 0b{}101\n", "0".repeat(61)));
}

#[test]
fn names_without_a_layout_are_told_from_unknown_ones() {
    for name in ["fflags", "frm", "fcsr", "cycle", "time", "instret", "hmpcounter", "sstatus",
        "sie", "stvec", "scounteren", "senvcfg", "sscratch", "sepc", "scause", "stval", "sip",
        "SIP"]
    {
        assert_eq!(entry(name), Entry::Unimplemented);
        assert_eq!(
            print_csr(name, 0),
            Err(PrintError::UnimplementedCsr(name.to_string()))
        );
    }
    for name in ["", "notareg", "mtvec", "satp", "0x301", "hpmcounter"] {
        assert_eq!(entry(name), Entry::Unknown);
        assert_eq!(print_csr(name, 0), Err(PrintError::UnkownCsr(name.to_string())));
    }
}

#[test]
fn every_plain_layout_is_found_by_its_name() {
    let names = [
        ("misa", PlainLayout::Misa),
        ("mvendorid", PlainLayout::Mvendorid),
        ("marchid", PlainLayout::Marchid),
        ("mimpid", PlainLayout::Mimpid),
        ("mhartid", PlainLayout::Mhartid),
        ("mstatus", PlainLayout::Mstatus),
        ("hstatus", PlainLayout::Hstatus),
        ("hedeleg", PlainLayout::Hedeleg),
        ("hideleg", PlainLayout::Hideleg),
    ];
    for (name, layout) in names {
        assert_eq!(entry(name), Entry::Layout(layout));
        assert_eq!(entry(&name.to_uppercase()), Entry::Layout(layout));
        assert_eq!(print_csr(name, 0x1234_5678), Ok(layout.render(0x1234_5678)));
    }
}

#[test]
fn helper_decoders() {
    assert_eq!(dec_arch(1), "RV32");
    assert_eq!(dec_arch(2), "RV64");
    assert_eq!(dec_arch(3), "RV128");
    assert_eq!(dec_arch(0), "\x1b[33mInvalid architecture (0b0)\x1b[0m");
    assert_eq!(dec_priv(0), "User");
    assert_eq!(dec_priv(1), "Supervisor");
    assert_eq!(dec_priv(3), "Machine");
    assert_eq!(dec_priv(2), "\x1b[33mInvalid privilege (0b10)\x1b[0m");
    assert_eq!(dec_at_mode(0), "Bare");
    assert_eq!(dec_at_mode(1), "Sv32");
    assert_eq!(dec_at_mode(8), "Sv39");
    assert_eq!(dec_at_mode(9), "Sv48");
    assert_eq!(dec_at_mode(10), "Sv57");
    assert_eq!(
        dec_at_mode(3),
        "\x1b[33mInvalid address translation mode (0b11)\x1b[0m"
    );
    assert_eq!(dec_xtvec_mode(0), "Direct");
    assert_eq!(dec_xtvec_mode(1), "Vectored");
    assert_eq!(dec_xtvec_mode(2), "\x1b[33mInvalid (0b10)\x1b[0m");
}

#[test]
fn terminal_colours() {
    assert_eq!(TColor::R.code(), "\x1b[31m");
    assert_eq!(TColor::B.code(), "\x1b[36m");
    assert_eq!(TColor::G.code(), "\x1b[32m");
    assert_eq!(TColor::S.code(), "\x1b[1m");
    assert_eq!(TColor::N.code(), "\x1b[0m");
    assert_eq!(TColor::RS.code(), "\x1b[31m\x1b[1m");
    assert_eq!(TColor::BS.code(), "\x1b[36m\x1b[1m");
    assert_eq!(TColor::GS.code(), "\x1b[32m\x1b[1m");
}
