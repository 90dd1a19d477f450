use rv_format::format::Csr;
use rv_format::vmem::{resolve, PAddr39, Pte39, VAddr39, VmemError, VmemLayout};

fn report(name: &str, value: u64) -> String {
    rv_format::vmem::format(name, value).unwrap()
}

#[test]
fn each_layout_goes_by_two_names() {
    let names = [
        ("pte_sv32", "sv32_pte", VmemLayout::Pte32),
        ("pte_sv39", "sv39_pte", VmemLayout::Pte39),
        ("pte_sv48", "sv48_pte", VmemLayout::Pte48),
        ("pte_sv57", "sv57_pte", VmemLayout::Pte57),
        ("vaddr_sv32", "sv32_vaddr", VmemLayout::VAddr32),
        ("vaddr_sv39", "sv39_vaddr", VmemLayout::VAddr39),
        ("vaddr_sv48", "sv48_vaddr", VmemLayout::VAddr48),
        ("vaddr_sv57", "sv57_vaddr", VmemLayout::VAddr57),
        ("paddr_sv32", "sv32_paddr", VmemLayout::PAddr32),
        ("paddr_sv39", "sv39_paddr", VmemLayout::PAddr39),
        ("paddr_sv48", "sv48_paddr", VmemLayout::PAddr48),
        ("paddr_sv57", "sv57_paddr", VmemLayout::PAddr57),
    ];
    for (first, second, layout) in names {
        assert_eq!(resolve(first), Ok(layout));
        assert_eq!(resolve(second), Ok(layout));
        assert_eq!(resolve(&first.to_uppercase()), Ok(layout));
        assert_eq!(
            report(first, 0x0123_4567_89ab_cdef),
            layout.render(0x0123_4567_89ab_cdef)
        );
    }
}

#[test]
fn what_is_no_layout_is_refused_with_its_name() {
    for name in ["", "misa", "pte", "pte_sv64", "sv39", "pte-sv39"] {
        assert_eq!(resolve(name), Err(VmemError::Unknown(name.to_string())));
        assert_eq!(
            rv_format::vmem::format(name, 0),
            Err(VmemError::Unknown(name.to_string()))
        );
    }
    assert_eq!(
        VmemError::Unknown("pte".to_string()).message(),
        "\"pte\" is not a name of a supported virtual memory related format"
    );
}

#[test]
fn physical_address_report() {
    assert_eq!(
        report("paddr_sv39", 0x00ab_cdef_1234_5678),
        "paddr39\n-------\npage_offset: 0x678\n\
         ppn: 0x2af37bc 0x91 0x145 -> 0xabcdef12345000\n"
    );
    assert_eq!(
        report("paddr_sv32", 0x3_ffff_ffff),
        "paddr32\n-------\npage_offset: 0xfff\nppn: 0xfff 0x3ff -> 0x3fffff000\n"
    );
    assert_eq!(PAddr39::new(0x00ab_cdef_1234_5678).ppn.value(), 0xabcdef12345);
}

#[test]
fn virtual_address_report() {
    assert_eq!(
        report("vaddr_sv39", 0x0000_003f_c0a0_1234),
        "vaddr39\n-------\npage_offset: 0x234\nvpn0: 0x1 -> 0x8\nvpn1: 0x5 -> 0x28\n\
         vpn2: 0xff -> 0x7f8\n"
    );
    assert_eq!(
        report("sv32_vaddr", 0xffc0_1abc),
        "vaddr32\n-------\npage_offset: 0xabc\nvpn0: 0x1 -> 0x4\nvpn1: 0x3ff -> 0xffc\n"
    );
    assert_eq!(VAddr39::name(), "vaddr39");
}

#[test]
fn page_table_entry_report() {
    assert_eq!(
        report("pte_sv39", 0x8000_0000_2000_04cf),
        "pte39\n-----\nvalid: 0b1\nread: 0b1\nwrite: 0b1\nexec: 0b1\nuser: 0b0\n\
         global: 0b0\naccessed: 0b1\ndirty: 0b1\nrsw: 0b00\n\
         ppn: 0x2 0x0 0x1 -> 0x80001000\npbmt: 0b00\nn: 0b1\n"
    );
    let entry = Pte39::new(0x8000_0000_2000_04cf);
    assert_eq!(entry.execute.value(), 1);
    assert_eq!(entry.ppn.value(), 0x80001);
    assert_eq!(entry.render(), report("sv39_pte", 0x8000_0000_2000_04cf));
    assert_eq!(
        report("pte_sv32", 0x2000_0401),
        "pte32\n-----\nvalid: 0b1\nread: 0b0\nwrite: 0b0\nexec: 0b0\nuser: 0b0\n\
         global: 0b0\naccessed: 0b0\ndirty: 0b0\nrsw: 0b00\nppn: 0x200 0x1 -> 0x80001000\n"
    );
}

#[test]
fn translation_words_are_also_found_next_to_the_registers() {
    let direct = rv_format::vmem::VAddr48::new(0x0000_7fff_ffff_f123).render();
    let beside = rv_format::csr::vmem::VAddr48::new(0x0000_7fff_ffff_f123).render();
    assert_eq!(direct, beside);
    assert_eq!(
        direct,
        "vaddr48\n-------\npage_offset: 0x123\nvpn0: 0x1ff -> 0xff8\nvpn1: 0x1ff -> 0xff8\n\
         vpn2: 0x1ff -> 0xff8\nvpn3: 0xff -> 0x7f8\n"
    );
}
