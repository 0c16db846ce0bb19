use rdbg::{REGISTER_COUNT, RegisterFormat, RegisterInfo, RegisterType, register_table};

#[test]
fn table_holds_every_descriptor() {
    let table = register_table();
    assert_eq!(table.len(), REGISTER_COUNT);
    assert_eq!(table.len(), 125);
}

#[test]
fn lookup_full_general_purpose_register() {
    let info = RegisterInfo::register_info_by_name("rax").unwrap();
    assert_eq!(info.name, "rax");
    assert_eq!(info.dwarf_id, 0);
    assert_eq!(info.size, 8);
    assert_eq!(info.offset, 80);
    assert_eq!(info.reg_type, RegisterType::GeneralPurpose);
    assert_eq!(info.format, RegisterFormat::UInt);
}

#[test]
fn lookup_sub_register_shares_parent_offset() {
    let info = RegisterInfo::register_info_by_name("eax").unwrap();
    assert_eq!(info.dwarf_id, -1);
    assert_eq!(info.size, 4);
    assert_eq!(info.offset, 80);
    assert_eq!(info.reg_type, RegisterType::SubRegister);

    let info = RegisterInfo::register_info_by_name("r15b").unwrap();
    assert_eq!(info.size, 1);
    assert_eq!(info.offset, 0);
}

#[test]
fn lookup_floating_point_registers() {
    let info = RegisterInfo::register_info_by_name("fsw").unwrap();
    assert_eq!(info.dwarf_id, 66);
    assert_eq!(info.size, 2);
    assert_eq!(info.offset, 226);
    assert_eq!(info.reg_type, RegisterType::FloatingPoint);

    let info = RegisterInfo::register_info_by_name("st3").unwrap();
    assert_eq!(info.dwarf_id, 36);
    assert_eq!(info.size, 16);
    assert_eq!(info.offset, 304);
    assert_eq!(info.format, RegisterFormat::LongDouble);

    let info = RegisterInfo::register_info_by_name("xmm15").unwrap();
    assert_eq!(info.dwarf_id, 32);
    assert_eq!(info.size, 16);
    assert_eq!(info.offset, 624);
    assert_eq!(info.format, RegisterFormat::Vector);
}

#[test]
fn lookup_debug_register() {
    let info = RegisterInfo::register_info_by_name("dr5").unwrap();
    assert_eq!(info.dwarf_id, -1);
    assert_eq!(info.size, 8);
    assert_eq!(info.offset, 888);
    assert_eq!(info.reg_type, RegisterType::Debug);
}

#[test]
fn lookup_unknown_name_yields_nothing() {
    assert!(RegisterInfo::register_info_by_name("nonesuch").is_none());
    assert!(RegisterInfo::register_info_by_name("").is_none());
}

#[test]
fn lookup_by_dwarf_number() {
    let info = RegisterInfo::register_info_by_dwarf(0).unwrap();
    assert_eq!(info.name, "rax");

    let info = RegisterInfo::register_info_by_dwarf(16).unwrap();
    assert_eq!(info.name, "rip");
    assert_eq!(info.offset, 128);

    let info = RegisterInfo::register_info_by_dwarf(64).unwrap();
    assert_eq!(info.name, "mxcsr");
}

#[test]
fn lookup_by_dwarf_returns_first_match() {
    // Many sub-registers carry no DWARF number; the first table entry
    // without one is the syscall-identifier register.
    let info = RegisterInfo::register_info_by_dwarf(-1).unwrap();
    assert_eq!(info.name, "orig_rax");
    assert_eq!(info.offset, 120);
}

#[test]
fn lookup_by_unassigned_dwarf_yields_nothing() {
    assert!(RegisterInfo::register_info_by_dwarf(99).is_none());
    assert!(RegisterInfo::register_info_by_dwarf(-2).is_none());
}
