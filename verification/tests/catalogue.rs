use rv_format::encoding::{
    csr_address_map, CSR_CYCLE, CSR_HPMCOUNTER3, CSR_HPMCOUNTER31, CSR_MISA, CSR_MSTATUS,
    CSR_PMPADDR0, CSR_PMPADDR63, CSR_PMPCFG0, CSR_PMPCFG15, CSR_SATP, CSR_SSTATUS,
};

#[test]
fn names_lead_to_their_addresses() {
    assert_eq!(csr_address_map("misa"), Some(CSR_MISA));
    assert_eq!(csr_address_map("misa"), Some(0x301));
    assert_eq!(csr_address_map("mstatus"), Some(CSR_MSTATUS));
    assert_eq!(csr_address_map("sstatus"), Some(CSR_SSTATUS));
    assert_eq!(csr_address_map("satp"), Some(CSR_SATP));
    assert_eq!(csr_address_map("satp"), Some(0x180));
    assert_eq!(csr_address_map("cycle"), Some(CSR_CYCLE));
    assert_eq!(csr_address_map("mhartid"), Some(0xf14));
    assert_eq!(csr_address_map("hgeip"), Some(0xe12));
    assert_eq!(csr_address_map("mseccfg"), Some(0x747));
    assert_eq!(csr_address_map("fcsr"), Some(0x003));
}

#[test]
fn the_catalogue_is_in_lower_case() {
    assert_eq!(csr_address_map("MISA"), None);
    assert_eq!(csr_address_map("Misa"), None);
    assert_eq!(csr_address_map(""), None);
    assert_eq!(csr_address_map("misa "), None);
    assert_eq!(csr_address_map("0x301"), None);
}

#[test]
fn families_are_indexed() {
    assert_eq!(csr_address_map("hpmcounter3"), Some(CSR_HPMCOUNTER3));
    assert_eq!(csr_address_map("hpmcounter17"), Some(0xc11));
    assert_eq!(csr_address_map("hpmcounter31"), Some(CSR_HPMCOUNTER31));
    assert_eq!(csr_address_map("hpmcounter2"), None);
    assert_eq!(csr_address_map("hpmcounter32"), None);
    assert_eq!(csr_address_map("hpmcounter"), None);
    assert_eq!(csr_address_map("pmpcfg0"), Some(CSR_PMPCFG0));
    assert_eq!(csr_address_map("pmpcfg15"), Some(CSR_PMPCFG15));
    assert_eq!(csr_address_map("pmpcfg16"), None);
    assert_eq!(csr_address_map("pmpaddr0"), Some(CSR_PMPADDR0));
    assert_eq!(csr_address_map("pmpaddr9"), Some(0x3b9));
    assert_eq!(csr_address_map("pmpaddr10"), Some(0x3ba));
    assert_eq!(csr_address_map("pmpaddr63"), Some(CSR_PMPADDR63));
    assert_eq!(csr_address_map("pmpaddr64"), None);
    assert_eq!(csr_address_map("pmpaddr00"), None);
    assert_eq!(csr_address_map("pmpaddr007"), None);
    assert_eq!(csr_address_map("pmpaddr+7"), None);
    assert_eq!(csr_address_map("pmpaddr7 "), None);
    assert_eq!(csr_address_map("pmpaddr99999999999999999999"), None);
}
