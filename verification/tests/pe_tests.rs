//! PE locator behaviour: header parsing under both policies and the
//! RVA-to-file-offset map.

use cli_toolkit::cursor::ByteStream;
use cli_toolkit::error::Error;
use cli_toolkit::pe::{resolve_rva, CliHeader, DosHeader, PeHeader, SectionHeader};

fn push_u16(v: &mut Vec<u8>, x: u16) {
    v.extend_from_slice(&x.to_le_bytes());
}

fn push_u32(v: &mut Vec<u8>, x: u32) {
    v.extend_from_slice(&x.to_le_bytes());
}

fn push_u64(v: &mut Vec<u8>, x: u64) {
    v.extend_from_slice(&x.to_le_bytes());
}

fn section(va: u32, vsize: u32, raw_size: u32, raw_ptr: u32) -> SectionHeader {
    SectionHeader {
        name: 0,
        virtual_size: vsize,
        virtual_address: va,
        size_of_raw_data: raw_size,
        pointer_to_raw_data: raw_ptr,
        pointer_to_relocations: 0,
        pointer_to_line_numbers: 0,
        number_of_relocations: 0,
        number_of_line_numbers: 0,
        characteristics: 0,
    }
}

// RVA resolution over a section with va=0x2000, raw_size=0x400,
// raw_pointer=0x200: the first and last covered RVAs map linearly, the
// one past the end fails.
#[test]
fn rva_to_offset_mapping() {
    let sections = vec![section(0x2000, 0x1000, 0x400, 0x200)];
    assert_eq!(resolve_rva(0x2000, &sections), Ok(0x200));
    assert_eq!(resolve_rva(0x23FF, &sections), Ok(0x5FF));
    assert_eq!(resolve_rva(0x2400, &sections), Err(Error::OffsetOutOfBounds(0x2400)));
    assert_eq!(resolve_rva(0x1FFF, &sections), Err(Error::OffsetOutOfBounds(0x1FFF)));
}

#[test]
fn rva_resolution_takes_the_first_matching_section() {
    let sections = vec![
        section(0x1000, 0x1000, 0x1000, 0x400),
        section(0x1800, 0x1000, 0x1000, 0x3000),
    ];
    // 0x1900 lies in both; the first section wins.
    assert_eq!(resolve_rva(0x1900, &sections), Ok(0x400 + 0x900));
}

fn pe_file_header_bytes(machine: u16, sig: u32) -> Vec<u8> {
    let mut v = Vec::new();
    push_u32(&mut v, sig);
    push_u16(&mut v, machine);
    push_u16(&mut v, 1); // sections
    push_u32(&mut v, 0); // timestamp
    push_u32(&mut v, 0); // symbol table
    push_u32(&mut v, 0); // symbol count
    push_u16(&mut v, 224);
    push_u16(&mut v, 0x0102);
    v
}

// A wrong PE signature is InvalidData at the signature's offset, under
// either policy.
#[test]
fn pe_signature_is_always_checked() {
    let bytes = pe_file_header_bytes(0x14C, 0x00010550);
    let mut c = ByteStream::new(&bytes);
    assert_eq!(
        PeHeader::parse(&mut c, false),
        Err(Error::InvalidData(0, Some("PE signature")))
    );
}

#[test]
fn pe_header_parses_fields() {
    let bytes = pe_file_header_bytes(0x8664, 0x4550);
    let mut c = ByteStream::new(&bytes);
    let h = PeHeader::parse(&mut c, true).unwrap();
    assert_eq!(h.machine, 0x8664);
    assert_eq!(h.number_of_sections, 1);
    assert_eq!(h.optional_header_size, 224);
    assert_eq!(h.characteristics, 0x0102);
}

#[test]
fn pe_header_strict_rejects_odd_machine() {
    let bytes = pe_file_header_bytes(0x1234, 0x4550);
    let mut c = ByteStream::new(&bytes);
    assert_eq!(
        PeHeader::parse(&mut c, true),
        Err(Error::InvalidData(4, Some("machine")))
    );
    // the lenient policy reads it as-is
    let mut c2 = ByteStream::new(&bytes);
    assert_eq!(PeHeader::parse(&mut c2, false).unwrap().machine, 0x1234);
}

#[test]
fn pe_header_truncated() {
    let bytes = pe_file_header_bytes(0x14C, 0x4550);
    let short = &bytes[..10];
    let mut c = ByteStream::new(short);
    assert_eq!(PeHeader::parse(&mut c, false), Err(Error::UnexpectedEndOfStream(10)));
}

fn cli_header_bytes(flags: u32) -> Vec<u8> {
    let mut v = Vec::new();
    push_u32(&mut v, 72);
    push_u16(&mut v, 2);
    push_u16(&mut v, 5);
    push_u32(&mut v, 0x2048); // metadata rva
    push_u32(&mut v, 0x100); // metadata size
    push_u32(&mut v, flags);
    push_u32(&mut v, 0); // entry point
    push_u32(&mut v, 0);
    push_u32(&mut v, 0); // resources
    push_u64(&mut v, 0); // strong name
    push_u64(&mut v, 0); // code manager
    push_u64(&mut v, 0); // vtable fixups
    push_u64(&mut v, 0); // export jumps
    push_u64(&mut v, 0); // managed native header
    v
}

#[test]
fn cli_header_fields_and_strict_flag_check() {
    let bytes = cli_header_bytes(0x1);
    let mut c = ByteStream::new(&bytes);
    let h = CliHeader::parse(&mut c, true).unwrap();
    assert_eq!(h.size, 72);
    assert_eq!(h.major_runtime_version, 2);
    assert_eq!(h.minor_runtime_version, 5);
    assert_eq!(h.metadata.rva, 0x2048);
    assert_eq!(h.metadata.size, 0x100);
    assert_eq!(h.flags, 1);

    // without the IL-only bit, the strict policy refuses it
    let bad = cli_header_bytes(0x0);
    let mut c2 = ByteStream::new(&bad);
    assert_eq!(
        CliHeader::parse(&mut c2, true),
        Err(Error::InvalidData(16, Some("runtime flags")))
    );
    let mut c3 = ByteStream::new(&bad);
    assert_eq!(CliHeader::parse(&mut c3, false).unwrap().flags, 0);
}

#[test]
fn dos_header_reads_lfanew() {
    let mut bytes = vec![0u8; 128];
    bytes[0x3C] = 0x80;
    let mut c = ByteStream::new(&bytes);
    let d = DosHeader::parse(&mut c).unwrap();
    assert_eq!(d.lfanew(), 0x80);
    assert_eq!(c.position(), 128);
    let short = vec![0u8; 64];
    let mut c2 = ByteStream::new(&short);
    assert_eq!(DosHeader::parse(&mut c2), Err(Error::UnexpectedEndOfStream(64)));
}

#[test]
fn data_directories_parse_and_strict_zeros() {
    let mut v = Vec::new();
    for i in 0..16u32 {
        // only import (1), relocation (5), IAT (12) and CLI (14) are used
        if i == 1 || i == 5 || i == 12 || i == 14 {
            push_u32(&mut v, 0x1000 * i);
            push_u32(&mut v, 0x10);
        } else {
            push_u32(&mut v, 0);
            push_u32(&mut v, 0);
        }
    }
    let mut c = ByteStream::new(&v);
    let d = cli_toolkit::pe::DataDirectories::parse(&mut c, true).unwrap();
    assert_eq!(d.import_table.rva, 0x1000);
    assert_eq!(d.cli_header.rva, 0xE000);
    assert_eq!(d.export_table.rva, 0);

    // a nonzero reserved slot fails the strict policy at its offset
    let mut bad = v.clone();
    bad[16] = 1; // resource table rva
    let mut c2 = ByteStream::new(&bad);
    assert_eq!(
        cli_toolkit::pe::DataDirectories::parse(&mut c2, true),
        Err(Error::InvalidData(16, Some("resource table")))
    );
    let mut c3 = ByteStream::new(&bad);
    assert!(cli_toolkit::pe::DataDirectories::parse(&mut c3, false).is_ok());
}

#[test]
fn import_table_parse() {
    let mut v = Vec::new();
    push_u32(&mut v, 0x5000);
    push_u32(&mut v, 0);
    push_u32(&mut v, 0);
    push_u32(&mut v, 0x5100);
    push_u32(&mut v, 0x5200);
    v.extend_from_slice(&[0u8; 20]);
    let mut c = ByteStream::new(&v);
    let t = cli_toolkit::pe::ImportTable::parse(&mut c, true).unwrap();
    assert_eq!(t.import_lookup_table_rva, 0x5000);
    assert_eq!(t.name, 0x5100);
    assert_eq!(t.import_address_table_rva, 0x5200);
    assert_eq!(c.position(), 40);

    let mut bad = v.clone();
    bad[4] = 7; // timestamp
    let mut c2 = ByteStream::new(&bad);
    assert_eq!(
        cli_toolkit::pe::ImportTable::parse(&mut c2, true),
        Err(Error::InvalidData(4, Some("timestamp")))
    );
}
