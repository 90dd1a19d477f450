use rv_format::csr::{addr, entry, resolve, CsrError, CsrLayout, Entry};
use rv_format::format::Csr;

fn report(identifier: &str, value: u64) -> String {
    rv_format::csr::format(identifier, value).unwrap()
}

#[test]
fn misa_report_ends_with_extension_z_and_base_width() {
    let text = report("misa", 0x8000000000141101);
    let lines: Vec<&str> = text.lines().collect();
    assert_eq!(lines.len(), 29);
    assert_eq!(lines[0], "misa");
    assert_eq!(lines[1], "----");
    assert_eq!(lines[27], "z: 0b0");
    assert_eq!(lines[28], "mxl: RV64");
}

#[test]
fn misa_report_lists_the_extensions_in_order() {
    let expected = "misa\n----\na: 0b1\nb: 0b0\nc: 0b0\nd: 0b0\ne: 0b0\nf: 0b0\ng: 0b0\n\
                    h: 0b0\ni: 0b1\nj: 0b0\nk: 0b0\nl: 0b0\nm: 0b1\nn: 0b0\no: 0b0\np: 0b0\n\
                    q: 0b0\nr: 0b0\ns: 0b1\nt: 0b0\nu: 0b1\nv: 0b0\nw: 0b0\nx: 0b0\ny: 0b0\n\
                    z: 0b0\nmxl: RV64\n";
    assert_eq!(report("misa", 0x8000000000141101), expected);
}

#[test]
fn unknown_identifier_is_reported_with_its_text() {
    assert_eq!(
        rv_format::csr::format("notareg", 0),
        Err(CsrError::UnknownIdentifier("notareg".to_string()))
    );
    assert_eq!(
        resolve("notareg"),
        Err(CsrError::UnknownIdentifier("notareg".to_string()))
    );
    assert_eq!(
        addr("notareg"),
        Err(CsrError::UnknownIdentifier("notareg".to_string()))
    );
}

#[test]
fn every_pmp_address_register_has_one_layout() {
    for address in 0x3b0..=0x3efu16 {
        assert_eq!(entry(address), Entry::Layout(CsrLayout::PmpAddr));
        assert_eq!(resolve(&format!("{}", address)), Ok(CsrLayout::PmpAddr));
        assert_eq!(resolve(&format!("0x{:x}", address)), Ok(CsrLayout::PmpAddr));
        assert_eq!(
            rv_format::csr::format(&format!("0b{:b}", address), 0x0040_0000_0000_1234),
            rv_format::csr::format("pmpaddr0", 0x0040_0000_0000_1234)
        );
    }
    assert_eq!(entry(0x3af), Entry::Layout(CsrLayout::PmpCfg));
    assert_eq!(entry(0x3f0), Entry::Unknown);
}

#[test]
fn every_pmp_address_register_goes_by_its_name() {
    for index in 0..64u16 {
        let name = format!("pmpaddr{}", index);
        assert_eq!(addr(&name), Ok(0x3b0 + index));
        assert_eq!(resolve(&name), Ok(CsrLayout::PmpAddr));
    }
    for index in 0..16u16 {
        let name = format!("pmpcfg{}", index);
        assert_eq!(addr(&name), Ok(0x3a0 + index));
        assert_eq!(resolve(&name), Ok(CsrLayout::PmpCfg));
    }
    for name in ["pmpaddr64", "pmpaddr", "pmpaddr01", "pmpaddr+1", "pmpaddr1x", "pmpcfg16"] {
        assert_eq!(
            resolve(name),
            Err(CsrError::UnknownIdentifier(name.to_string()))
        );
    }
}

#[test]
fn pmp_address_report() {
    assert_eq!(
        report("0x3b7", 0x0040_0000_0000_1234),
        "pmpaddr\n-------\n\
         reserved: \x1b[33m0x1 (reserved, expected 0x0)\x1b[0m\n\
         address: 0x1234 -> 0x48d0\n"
    );
    assert_eq!(
        report("pmpaddr63", 0x1234),
        "pmpaddr\n-------\nreserved: 0x0\naddress: 0x1234 -> 0x48d0\n"
    );
}

#[test]
fn pmp_configuration_report() {
    assert_eq!(
        report("pmpcfg0", 0x9f00_0000_0000_130d),
        "pmpcfg\n------\n\
         pmp0cfg: L=0 A=TOR X=1 W=0 R=1\n\
         pmp1cfg: L=0 A=NA4 X=0 W=1 R=1\n\
         pmp2cfg: L=0 A=OFF X=0 W=0 R=0\n\
         pmp3cfg: L=0 A=OFF X=0 W=0 R=0\n\
         pmp4cfg: L=0 A=OFF X=0 W=0 R=0\n\
         pmp5cfg: L=0 A=OFF X=0 W=0 R=0\n\
         pmp6cfg: L=0 A=OFF X=0 W=0 R=0\n\
         pmp7cfg: L=1 A=NAPOT X=1 W=1 R=1\n"
    );
}

#[test]
fn unimplemented_register_is_told_from_unknown_one() {
    for identifier in ["cycle", "0xc00", "3072", "hpmcounter3", "hpmcounter31", "mcause",
        "fflags", "0x1", "mseccfg", "vsie"]
    {
        assert_eq!(
            rv_format::csr::format(identifier, 0),
            Err(CsrError::UnimplementedIdentifier(identifier.to_string()))
        );
    }
    for identifier in ["hpmcounter2", "hpmcounter32", "0x0", "0xfff", "4096", "65535"] {
        assert_eq!(
            rv_format::csr::format(identifier, 0),
            Err(CsrError::UnknownIdentifier(identifier.to_string()))
        );
    }
}

#[test]
fn names_are_found_whatever_their_case() {
    assert_eq!(resolve("MISA"), Ok(CsrLayout::Misa));
    assert_eq!(resolve("Mstatus"), Ok(CsrLayout::Mstatus));
    assert_eq!(resolve("PmpAddr12"), Ok(CsrLayout::PmpAddr));
    assert_eq!(
        resolve("CYCLE"),
        Err(CsrError::UnimplementedIdentifier("CYCLE".to_string()))
    );
    assert_eq!(report("MISA", 5), report("misa", 5));
}

#[test]
fn addresses_are_read_in_three_radices() {
    assert_eq!(addr("0x301"), Ok(0x301));
    assert_eq!(addr("0X301"), Err(CsrError::UnknownIdentifier("0X301".to_string())));
    assert_eq!(addr("0b1100000001"), Ok(0x301));
    assert_eq!(addr("769"), Ok(0x301));
    assert_eq!(addr("0x0301"), Ok(0x301));
    assert_eq!(addr("0xABC"), Ok(0xabc));
    assert_eq!(addr("0xabc"), Ok(0xabc));
    assert_eq!(addr("+769"), Ok(0x301));
    assert_eq!(addr("0x+301"), Ok(0x301));
    assert_eq!(addr("0"), Ok(0));
    assert_eq!(addr("65535"), Ok(0xffff));
    assert_eq!(addr("0xffff"), Ok(0xffff));
    assert_eq!(addr("0b1111111111111111"), Ok(0xffff));
    assert_eq!(addr("misa"), Ok(0x301));
    assert_eq!(resolve("0x301"), Ok(CsrLayout::Misa));
    assert_eq!(resolve("0b1100000001"), Ok(CsrLayout::Misa));
    assert_eq!(resolve("769"), Ok(CsrLayout::Misa));
}

#[test]
fn what_is_no_number_is_unknown() {
    for identifier in ["", "0x", "0b", "0xg", "0b2", "12a", "65536", "0x10000",
        "0b10000000000000000", "-1", "++1", "+", "0x 1", " 769", "7_69", "99999999999999999999"]
    {
        assert_eq!(
            addr(identifier),
            Err(CsrError::UnknownIdentifier(identifier.to_string()))
        );
        assert_eq!(
            rv_format::csr::format(identifier, 0),
            Err(CsrError::UnknownIdentifier(identifier.to_string()))
        );
    }
}

#[test]
fn messages_carry_the_identifier() {
    assert_eq!(
        CsrError::UnknownIdentifier("notareg".to_string()).message(),
        "\"notareg\" is not a name or an address of a supported CSR"
    );
    assert_eq!(
        CsrError::UnimplementedIdentifier("cycle".to_string()).message(),
        "\"cycle\" is a CSR whose format is not implemented yet"
    );
}

#[test]
fn trap_vector_report() {
    assert_eq!(
        report("mtvec", 0x80001235),
        "mtvec\n-----\nbase: 0x2000048d\nmode: Vectored\n"
    );
    assert_eq!(
        report("stvec", 0x80001234),
        "stvec\n-----\nbase: 0x2000048d\nmode: Direct\n"
    );
    assert_eq!(report("vstvec", 0x80001234), report("stvec", 0x80001234));
}

#[test]
fn translation_register_report() {
    assert_eq!(
        report("satp", 0x8000_1234_0005_6789),
        "satp\n----\nmode: Sv39\nasid: 0x1\nppn: 0x23400056789\n"
    );
    assert_eq!(
        report("hgatp", 0x9000_1000_0000_0001),
        "hgatp\n-----\nmode: Sv48\nvmid: 0x1\nppn: 0x1\n"
    );
    assert_eq!(
        report("satp", 0x3000_0000_0000_0000),
        "satp\n----\nmode: \x1b[33mInvalid address translation mode (0b11)\x1b[0m\n\
         asid: 0x0\nppn: 0x0\n"
    );
}

#[test]
fn trap_cause_report_names_the_cause_from_the_whole_register() {
    assert_eq!(
        report("scause", (1 << 63) | 11),
        "scause\n------\ninterrupt: true\ncode: Machine external interrupt\n"
    );
    assert_eq!(
        report("vscause", 12),
        "scause\n------\ninterrupt: false\ncode: Instruction page fault\n"
    );
    assert_eq!(
        report("scause", 99),
        "scause\n------\ninterrupt: false\ncode: \x1b[33mUnknown exception code (99)\x1b[0m\n"
    );
}

#[test]
fn a_warning_in_one_field_leaves_the_others() {
    let text = report("mstatus", 0x1000);
    let lines: Vec<&str> = text.lines().collect();
    assert_eq!(lines.len(), 25);
    assert_eq!(lines[0], "mstatus");
    assert_eq!(lines[1], "-------");
    assert_eq!(lines[2], "sie: 0b0");
    assert_eq!(lines[7], "spp: User");
    assert_eq!(lines[8], "vs: 0b00");
    assert_eq!(lines[9], "mpp: \x1b[33mInvalid privilege (0b10)\x1b[0m");
    assert_eq!(lines[10], "fs: 0b00");
    assert_eq!(lines[18], "uxl: \x1b[33mInvalid architecture (0b0)\x1b[0m");
    assert_eq!(lines[24], "sd: 0b0");
}

#[test]
fn supervisor_trap_value_is_reported_as_the_machine_one() {
    assert_eq!(resolve("stval"), Ok(CsrLayout::Mtval));
    assert_eq!(report("stval", 0xdead), "mtval\n-----\ntval: 0xdead\n");
    assert_eq!(report("mtval2", 0x10), "mtval2\n------\ntval: 0x10 -> 0x40\n");
}

#[test]
fn interrupt_registers_share_one_layout() {
    for identifier in ["mideleg", "mie", "mip"] {
        assert_eq!(resolve(identifier), Ok(CsrLayout::Minterrupts));
    }
    assert_eq!(
        report("mip", 0xffff_0000_0000_0aaa),
        "minterrupts\n-----------\n\
         s_software_i: 0b1\nvs_software_i: 0b0\nm_software_i: 0b1\n\
         s_timer_i: 0b1\nvs_timer_i: 0b0\nm_timer_i: 0b1\n\
         s_external_i: 0b1\nvs_external_i: 0b0\nm_external_i: 0b1\n\
         sg_external_i: 0b0\ncustom_i: 0xffff00000000\n"
    );
}

#[test]
fn hypervisor_delegation_marks_reserved_bits() {
    let text = report("hideleg", 0x2);
    let lines: Vec<&str> = text.lines().collect();
    assert_eq!(lines[0], "hideleg");
    assert_eq!(
        lines[2],
        "supervisor_sw_interrupt: \x1b[33m0b1 (reserved, expected 0b0)\x1b[0m"
    );
    assert_eq!(lines[3], "virtual_supervisor_sw_interrupt: 0b0");
    assert_eq!(lines[5], "supervisor_timer_interrupt: 0b0");
    assert_eq!(lines.len(), 13);
}

#[test]
fn every_layout_of_the_registry_reports_under_its_own_name() {
    let named = [
        ("sstatus", "sstatus"), ("sie", "sie"), ("stvec", "stvec"), ("scounteren", "scounteren"),
        ("senvcfg", "senvcfg"), ("sscratch", "sscratch"), ("sepc", "sepc"), ("scause", "scause"),
        ("sip", "sip"), ("satp", "satp"), ("hstatus", "hstatus"), ("hedeleg", "hedeleg"),
        ("hideleg", "hideleg"), ("hcounteren", "hcounteren"), ("henvcfg", "henvcfg"),
        ("hgatp", "hgatp"), ("vsstatus", "sstatus"), ("vsscratch", "sscratch"),
        ("vsepc", "sepc"), ("vsatp", "satp"), ("mvendorid", "mvendorid"),
        ("marchid", "marchid"), ("mimpid", "mimpid"), ("mhartid", "mhartid"),
        ("mstatus", "mstatus"), ("misa", "misa"), ("medeleg", "medeleg"),
        ("mtvec", "mtvec"), ("mtval", "mtval"), ("mtval2", "mtval2"),
    ];
    for (identifier, title) in named {
        let text = report(identifier, 0);
        let lines: Vec<&str> = text.lines().collect();
        assert_eq!(lines[0], title);
        assert_eq!(lines[1], "-".repeat(title.len()));
        assert!(lines.len() > 2);
        assert!(text.ends_with('\n'));
    }
}

#[test]
fn rendering_twice_gives_one_text() {
    let misa = rv_format::csr::Misa::new(0x8000000000141101);
    assert_eq!(misa.render(), misa.render());
    let scause = rv_format::csr::Scause::new(u64::MAX);
    assert_eq!(scause.render(), scause.render());
    assert_eq!(
        CsrLayout::Mstatus.render(0x1234_5678_9abc_def0),
        CsrLayout::Mstatus.render(0x1234_5678_9abc_def0)
    );
}

#[test]
fn layout_knows_its_name() {
    assert_eq!(rv_format::csr::Misa::name(), "misa");
    assert_eq!(rv_format::csr::PmpAddr::name(), "pmpaddr");
    assert_eq!(rv_format::csr::Mip::name(), "minterrupts");
}

#[test]
fn fields_of_a_layout_hold_their_bits() {
    let misa = rv_format::csr::Misa::new(0x8000000000141101);
    assert_eq!(misa.a.value(), 1);
    assert_eq!(misa.b.value(), 0);
    assert_eq!(misa.i.value(), 1);
    assert_eq!(misa.m.value(), 1);
    assert_eq!(misa.s.value(), 1);
    assert_eq!(misa.u.value(), 1);
    assert_eq!(misa.mxl.value(), 2);
    let satp = rv_format::csr::Satp::new(0x8000_1234_0005_6789);
    assert_eq!(satp.mode.value(), 8);
    assert_eq!(satp.asid.value(), 1);
    assert_eq!(satp.ppn.value(), 0x23400056789);
}
