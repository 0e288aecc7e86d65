use rusty_boy::stack::{check_stack_sizes, name_width, StackError};

fn u16le(v: &mut Vec<u8>, x: u16) {
    v.extend_from_slice(&x.to_le_bytes());
}

fn u32le(v: &mut Vec<u8>, x: u32) {
    v.extend_from_slice(&x.to_le_bytes());
}

/// A 32-bit ELF file with a symbol table and a `.stack_sizes` section.
fn make_elf(symbols: &[(&str, u32)], records: &[u8]) -> Vec<u8> {
    let shstrtab = b"\0.shstrtab\0.strtab\0.symtab\0.stack_sizes\0".to_vec();
    let mut strtab = vec![0u8];
    let mut symtab = vec![0u8; 16];
    for (name, value) in symbols {
        let offset = strtab.len() as u32;
        strtab.extend_from_slice(name.as_bytes());
        strtab.push(0);
        u32le(&mut symtab, offset);
        u32le(&mut symtab, *value);
        u32le(&mut symtab, 4);
        symtab.push(0x12);
        symtab.push(0);
        u16le(&mut symtab, 1);
    }
    let mut data = vec![0u8; 52];
    let shstrtab_off = data.len();
    data.extend_from_slice(&shstrtab);
    let strtab_off = data.len();
    data.extend_from_slice(&strtab);
    while data.len() % 4 != 0 {
        data.push(0);
    }
    let symtab_off = data.len();
    data.extend_from_slice(&symtab);
    let records_off = data.len();
    data.extend_from_slice(records);
    while data.len() % 4 != 0 {
        data.push(0);
    }
    let shoff = data.len();
    let sections: [(u32, u32, usize, usize, u32, u32); 5] = [
        (0, 0, 0, 0, 0, 0),
        (1, 3, shstrtab_off, shstrtab.len(), 0, 0),
        (11, 3, strtab_off, strtab.len(), 0, 0),
        (19, 2, symtab_off, symtab.len(), 2, 16),
        (27, 1, records_off, records.len(), 0, 0),
    ];
    for (name, kind, offset, size, link, entsize) in sections {
        u32le(&mut data, name);
        u32le(&mut data, kind);
        u32le(&mut data, 0);
        u32le(&mut data, 0);
        u32le(&mut data, offset as u32);
        u32le(&mut data, size as u32);
        u32le(&mut data, link);
        u32le(&mut data, if kind == 2 { 1 } else { 0 });
        u32le(&mut data, if kind == 2 { 4 } else { 1 });
        u32le(&mut data, entsize);
    }
    let mut header = vec![0x7f, b'E', b'L', b'F', 1, 1, 1, 0, 0, 0, 0, 0, 0, 0, 0, 0];
    u16le(&mut header, 2);
    u16le(&mut header, 0x28);
    u32le(&mut header, 1);
    u32le(&mut header, 0);
    u32le(&mut header, 0);
    u32le(&mut header, shoff as u32);
    u32le(&mut header, 0x0500_0000);
    u16le(&mut header, 52);
    u16le(&mut header, 32);
    u16le(&mut header, 0);
    u16le(&mut header, 40);
    u16le(&mut header, 5);
    u16le(&mut header, 1);
    data[..52].copy_from_slice(&header);
    data
}

#[test]
fn stack_report() {
    let mut records = Vec::new();
    u32le(&mut records, 0x1000);
    records.push(0x10);
    u32le(&mut records, 0x2000);
    records.extend_from_slice(&[0x80, 0x01]);
    u32le(&mut records, 0x3000);
    records.push(0x05);
    u32le(&mut records, 0x4000);
    records.push(0x10);
    let elf = make_elf(
        &[("$d", 0x1000), ("main", 0x1000), ("helper", 0x2001), ("other", 0x4000)],
        &records,
    );
    let sizes = check_stack_sizes(&elf).unwrap().unwrap();
    assert_eq!(
        sizes,
        vec![
            ("helper".to_string(), 128),
            ("main".to_string(), 16),
            ("other".to_string(), 16),
            ("??".to_string(), 5),
        ]
    );
    assert_eq!(name_width(&sizes, 10), 6);
    assert_eq!(name_width(&sizes, 1), 6);
    assert_eq!(name_width(&sizes, 0), 0);
}

#[test]
fn stack_report_demangles() {
    let mut records = Vec::new();
    u32le(&mut records, 0x100);
    records.push(0x20);
    let elf = make_elf(&[("_ZN4core3fmt5write17h0123456789abcdefE", 0x100)], &records);
    let sizes = check_stack_sizes(&elf).unwrap().unwrap();
    assert_eq!(sizes, vec![("core::fmt::write::h0123456789abcdef".to_string(), 32)]);
}

#[test]
fn stack_report_errors() {
    assert_eq!(check_stack_sizes(b"not an elf file at all").err(), Some(StackError::InvalidElf));
    // A cut record is refused
    let elf = make_elf(&[("main", 0x1000)], &[0x00, 0x10]);
    assert_eq!(check_stack_sizes(&elf).unwrap(), None);
}
