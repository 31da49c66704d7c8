//! End-to-end decoding of hand-built PE32 images carrying CLI metadata.

use cli_toolkit::assembly::Type;
use cli_toolkit::error::Error;
use cli_toolkit::kinds::{HeapKind, TableKind};
use cli_toolkit::reader::{read_assembly, Assembly};

fn push_u16(v: &mut Vec<u8>, x: u16) {
    v.extend_from_slice(&x.to_le_bytes());
}

fn push_u32(v: &mut Vec<u8>, x: u32) {
    v.extend_from_slice(&x.to_le_bytes());
}

fn push_u64(v: &mut Vec<u8>, x: u64) {
    v.extend_from_slice(&x.to_le_bytes());
}

fn tables_stream(tables: &[(TableKind, u32, Vec<u8>)]) -> Vec<u8> {
    let mut v = Vec::new();
    push_u32(&mut v, 0);
    v.push(2);
    v.push(0);
    v.push(0); // heap_sizes: all narrow
    v.push(1);
    let mut valid: u64 = 0;
    for (kind, _, _) in tables {
        valid |= 1u64 << kind.id();
    }
    push_u64(&mut v, valid);
    push_u64(&mut v, 0);
    for (_, count, _) in tables {
        push_u32(&mut v, *count);
    }
    for (_, _, body) in tables {
        v.extend_from_slice(body);
    }
    v
}

/// The metadata root: version "v4", then `#~`, `#Strings` and `#Blob`.
fn metadata(tables: Vec<u8>, strings: &[u8], blob: &[u8]) -> Vec<u8> {
    let names: [&[u8]; 3] = [b"#~", b"#Strings", b"#Blob"];
    let sizes = [tables.len(), strings.len(), blob.len()];
    // root prelude: 16 header bytes + 4 version bytes + 4 flags/count
    let mut headers_len = 0usize;
    for n in names {
        headers_len += 8 + ((n.len() + 1 + 3) / 4) * 4;
    }
    let mut offsets = [0usize; 3];
    let mut at = 24 + headers_len;
    for i in 0..3 {
        offsets[i] = at;
        at += sizes[i];
    }
    let mut v = Vec::new();
    push_u32(&mut v, 0x424A5342);
    push_u16(&mut v, 1);
    push_u16(&mut v, 1);
    push_u32(&mut v, 0);
    push_u32(&mut v, 4); // declared version length
    v.extend_from_slice(b"v4\0\0");
    push_u16(&mut v, 0);
    push_u16(&mut v, 3);
    for i in 0..3 {
        push_u32(&mut v, offsets[i] as u32);
        push_u32(&mut v, sizes[i] as u32);
        v.extend_from_slice(names[i]);
        v.push(0);
        while v.len() % 4 != 0 {
            v.push(0);
        }
    }
    v.extend_from_slice(&tables);
    v.extend_from_slice(strings);
    v.extend_from_slice(blob);
    v
}

/// A strict-clean PE32 image with one section mapping RVA 0x2000 to file
/// offset 0x200; the CLI header sits at its start, the metadata root
/// right after it.
fn build_image(metadata_bytes: &[u8]) -> Vec<u8> {
    let mut v = vec![0u8; 0x40];
    v[0x3C] = 0x40; // lfanew
    // PE signature and file header
    push_u32(&mut v, 0x4550);
    push_u16(&mut v, 0x14C);
    push_u16(&mut v, 1); // one section
    push_u32(&mut v, 0);
    push_u32(&mut v, 0);
    push_u32(&mut v, 0);
    push_u16(&mut v, 224);
    push_u16(&mut v, 0x0102);
    // optional header, PE32
    push_u16(&mut v, 0x10B);
    v.push(6);
    v.push(0);
    push_u32(&mut v, 0x200); // code size
    push_u32(&mut v, 0x200);
    push_u32(&mut v, 0);
    push_u32(&mut v, 0); // entry point
    push_u32(&mut v, 0x2000);
    push_u32(&mut v, 0x2000); // base of data
    push_u32(&mut v, 0x400000); // image base
    push_u32(&mut v, 0x1000); // section alignment
    push_u32(&mut v, 0x200); // file alignment
    push_u16(&mut v, 4);
    push_u16(&mut v, 0);
    push_u16(&mut v, 0);
    push_u16(&mut v, 0);
    push_u16(&mut v, 4);
    push_u16(&mut v, 0);
    push_u32(&mut v, 0);
    push_u32(&mut v, 0x3000); // image size
    push_u32(&mut v, 0x200); // header size
    push_u32(&mut v, 0);
    push_u16(&mut v, 0x3); // subsystem
    push_u16(&mut v, 0);
    push_u32(&mut v, 0x100000); // stack reserve
    push_u32(&mut v, 0x1000); // stack commit
    push_u32(&mut v, 0x100000); // heap reserve
    push_u32(&mut v, 0x1000); // heap commit
    push_u32(&mut v, 0);
    push_u32(&mut v, 0x10);
    for i in 0..16 {
        if i == 14 {
            push_u32(&mut v, 0x2000); // CLI header RVA
            push_u32(&mut v, 72);
        } else {
            push_u32(&mut v, 0);
            push_u32(&mut v, 0);
        }
    }
    // section table: one section
    push_u64(&mut v, 0x747865742E); // ".text"
    push_u32(&mut v, 0x1000);
    push_u32(&mut v, 0x2000); // va
    push_u32(&mut v, 0x400); // raw size
    push_u32(&mut v, 0x200); // raw pointer
    push_u32(&mut v, 0);
    push_u32(&mut v, 0);
    push_u16(&mut v, 0);
    push_u16(&mut v, 0);
    push_u32(&mut v, 0x60000020);
    while v.len() < 0x200 {
        v.push(0);
    }
    // CLI header at file 0x200 == RVA 0x2000
    push_u32(&mut v, 72);
    push_u16(&mut v, 2);
    push_u16(&mut v, 5);
    push_u32(&mut v, 0x2048); // metadata RVA
    push_u32(&mut v, metadata_bytes.len() as u32);
    push_u32(&mut v, 1); // IL_ONLY
    push_u32(&mut v, 0);
    push_u32(&mut v, 0);
    push_u32(&mut v, 0);
    push_u64(&mut v, 0);
    push_u64(&mut v, 0);
    push_u64(&mut v, 0);
    push_u64(&mut v, 0);
    push_u64(&mut v, 0);
    assert_eq!(v.len(), 0x248);
    v.extend_from_slice(metadata_bytes);
    v
}

/// A minimal image: Module and Assembly tables only, named "M1",
/// version 1.0.0.0.
fn m1_image() -> Vec<u8> {
    let strings = b"\0M1\0";
    let blob = b"\0";
    let mut module_row = Vec::new();
    push_u16(&mut module_row, 0);
    push_u16(&mut module_row, 1); // name "M1"
    push_u16(&mut module_row, 0);
    push_u16(&mut module_row, 0);
    push_u16(&mut module_row, 0);
    let mut assembly_row = Vec::new();
    push_u32(&mut assembly_row, 0x8004);
    push_u16(&mut assembly_row, 1);
    push_u16(&mut assembly_row, 0);
    push_u16(&mut assembly_row, 0);
    push_u16(&mut assembly_row, 0);
    push_u32(&mut assembly_row, 0);
    push_u16(&mut assembly_row, 0); // public key
    push_u16(&mut assembly_row, 1); // name "M1"
    push_u16(&mut assembly_row, 0); // culture
    let ts = tables_stream(&[
        (TableKind::Module, 1, module_row),
        (TableKind::Assembly, 1, assembly_row),
    ]);
    build_image(&metadata(ts, strings, blob))
}

#[test]
fn minimal_image_decodes() {
    let img = m1_image();
    let a = read_assembly(&img, true).unwrap();
    assert_eq!(a.name.name, "M1");
    assert_eq!(a.name.culture, "");
    assert_eq!(a.name.version.major, 1);
    assert_eq!(a.name.version.minor, 0);
    assert_eq!(a.name.version.build, 0);
    assert_eq!(a.name.version.revision, 0);
    assert_eq!(a.name.public_key.len(), 0);
    assert!(a.types.is_empty());
    assert!(a.dependencies.is_empty());
}

#[test]
fn raw_facade_exposes_headers_and_heaps() {
    let img = m1_image();
    let a = Assembly::open(&img, true).unwrap();
    assert_eq!(a.pe_header().machine, 0x14C);
    assert_eq!(a.pe_header().number_of_sections, 1);
    assert_eq!(a.pe_optional_header().standard_fields.magic, 0x10B);
    assert_eq!(a.sections().len(), 1);
    assert_eq!(a.sections()[0].virtual_address, 0x2000);
    assert_eq!(a.cli_header().metadata.rva, 0x2048);
    assert_eq!(a.metadata_header().version, "v4");
    let strings = a.get_heap(HeapKind::Strings).unwrap().unwrap();
    assert_eq!(strings, b"\0M1\0");
    assert_eq!(a.get_heap(HeapKind::Guid).unwrap(), None);
}

#[test]
fn bad_pe_signature_is_invalid_data_at_lfanew() {
    let mut img = m1_image();
    img[0x42] = 0x01; // signature becomes 50 45 01 00
    let e = match Assembly::open(&img, true) {
        Err(e) => e,
        Ok(_) => panic!("a bad signature must be rejected"),
    };
    assert_eq!(e, Error::InvalidData(0x40, Some("PE signature")));
}

#[test]
fn truncated_image_reports_end_of_stream() {
    let img = m1_image();
    // cut inside the CLI header: the read fails with the truncated
    // length as the offset
    let cut = 0x240;
    let r = read_assembly(&img[..cut], true);
    assert_eq!(r.unwrap_err(), Error::UnexpectedEndOfStream(cut));
}

/// A two-type image: `<Module>`, `Ns.Foo : System.Object` and
/// `Ns.Bar : System.ValueType`, with an `mscorlib` reference.
fn m2_image() -> Vec<u8> {
    let strings = b"\0<Module>\0Foo\0Ns\0Bar\0Object\0System\0ValueType\0M2\0mscorlib\0";
    let blob = b"\0";
    let mut module_row = Vec::new();
    push_u16(&mut module_row, 0);
    push_u16(&mut module_row, 45); // "M2"
    push_u16(&mut module_row, 0);
    push_u16(&mut module_row, 0);
    push_u16(&mut module_row, 0);
    // TypeRef rows: resolution scope = AssemblyRef row 1, coded (1 << 2) | 2
    let mut typeref_rows = Vec::new();
    for name_idx in [21u16, 35u16] {
        push_u16(&mut typeref_rows, (1 << 2) | 2);
        push_u16(&mut typeref_rows, name_idx); // "Object" / "ValueType"
        push_u16(&mut typeref_rows, 28); // "System"
    }
    // TypeDef rows
    let mut typedef_rows = Vec::new();
    // <Module>: no base
    push_u32(&mut typedef_rows, 0);
    push_u16(&mut typedef_rows, 1); // "<Module>"
    push_u16(&mut typedef_rows, 0);
    push_u16(&mut typedef_rows, 0); // null base
    push_u16(&mut typedef_rows, 1);
    push_u16(&mut typedef_rows, 1);
    // Foo : TypeRef 1 (System.Object), public sealed
    push_u32(&mut typedef_rows, 0x101);
    push_u16(&mut typedef_rows, 10); // "Foo"
    push_u16(&mut typedef_rows, 14); // "Ns"
    push_u16(&mut typedef_rows, (1 << 2) | 1);
    push_u16(&mut typedef_rows, 1);
    push_u16(&mut typedef_rows, 1);
    // Bar : TypeRef 2 (System.ValueType)
    push_u32(&mut typedef_rows, 0x109);
    push_u16(&mut typedef_rows, 17); // "Bar"
    push_u16(&mut typedef_rows, 14); // "Ns"
    push_u16(&mut typedef_rows, (2 << 2) | 1);
    push_u16(&mut typedef_rows, 1);
    push_u16(&mut typedef_rows, 1);
    let mut assembly_row = Vec::new();
    push_u32(&mut assembly_row, 0x8004);
    push_u16(&mut assembly_row, 1);
    push_u16(&mut assembly_row, 2);
    push_u16(&mut assembly_row, 3);
    push_u16(&mut assembly_row, 4);
    push_u32(&mut assembly_row, 0);
    push_u16(&mut assembly_row, 0);
    push_u16(&mut assembly_row, 45); // "M2"
    push_u16(&mut assembly_row, 0);
    let mut assemblyref_row = Vec::new();
    push_u16(&mut assemblyref_row, 4);
    push_u16(&mut assemblyref_row, 0);
    push_u16(&mut assemblyref_row, 0);
    push_u16(&mut assemblyref_row, 0);
    push_u32(&mut assemblyref_row, 0);
    push_u16(&mut assemblyref_row, 0); // public key
    push_u16(&mut assemblyref_row, 48); // "mscorlib"
    push_u16(&mut assemblyref_row, 0); // culture
    push_u16(&mut assemblyref_row, 0); // hash value
    let ts = tables_stream(&[
        (TableKind::Module, 1, module_row),
        (TableKind::TypeRef, 2, typeref_rows),
        (TableKind::TypeDef, 3, typedef_rows),
        (TableKind::Assembly, 1, assembly_row),
        (TableKind::AssemblyRef, 1, assemblyref_row),
    ]);
    build_image(&metadata(ts, strings, blob))
}

#[test]
fn two_type_image_decodes_and_classifies() {
    let img = m2_image();
    let a = read_assembly(&img, true).unwrap();
    assert_eq!(a.name.name, "M2");
    assert_eq!(a.name.version.major, 1);
    assert_eq!(a.name.version.revision, 4);
    assert_eq!(a.types.len(), 3);
    match &a.types[0] {
        Type::CustomUnknown(d) => {
            assert_eq!(d.name, "<Module>");
            assert!(d.base.is_null());
        },
        other => panic!("expected CustomUnknown, got {:?}", other),
    }
    match &a.types[1] {
        Type::Class(d) => {
            assert_eq!(d.name, "Foo");
            assert_eq!(d.namespace, "Ns");
            // the base decodes to TypeRef row 1
            assert_eq!(d.base.0, 0x01000001);
            assert_eq!(d.token.0, 0x02000002);
        },
        other => panic!("expected Class, got {:?}", other),
    }
    match &a.types[2] {
        Type::Struct(d) => {
            assert_eq!(d.name, "Bar");
            assert_eq!(d.base.0, 0x01000002);
        },
        other => panic!("expected Struct, got {:?}", other),
    }
    // the referenced assembly
    assert_eq!(a.dependencies.len(), 1);
    assert_eq!(a.dependencies[0].name, "mscorlib");
    assert_eq!(a.dependencies[0].version.major, 4);
    // type references carry their resolution-scope tokens and names
    assert_eq!(a.type_refs.len(), 2);
    assert_eq!(a.type_refs[0].0 .0, 0x23000001);
    assert_eq!(a.type_refs[0].1, "System");
    assert_eq!(a.type_refs[0].2, "Object");
}

#[test]
fn find_and_get_type() {
    let img = m2_image();
    let a = read_assembly(&img, true).unwrap();
    let foo = a.find_type("Foo", "Ns").unwrap();
    assert!(foo.matches_name("Foo", "Ns"));
    assert!(!foo.matches_name("Foo", ""));
    assert!(a.find_type("Baz", "Ns").is_none());
    let by_token = a.get_type(cli_toolkit::indices::MetadataToken(0x02000003)).unwrap();
    assert!(by_token.matches_name("Bar", "Ns"));
    assert!(a.get_type(cli_toolkit::indices::MetadataToken(0x02000004)).is_none());
    assert!(a.get_type(cli_toolkit::indices::MetadataToken(0)).is_none());
}

// Every type in the fixtures owns no fields or methods: each range is
// empty because its start equals its end.
#[test]
fn ownership_ranges_cover_the_member_tables() {
    let img = m2_image();
    let a = read_assembly(&img, true).unwrap();
    for t in &a.types {
        let d = t.data().unwrap();
        assert_eq!(d.field_range, (1, 1));
        assert_eq!(d.method_range, (1, 1));
    }
}

#[test]
fn image_without_assembly_table_reports_it_missing() {
    let strings = b"\0M1\0";
    let blob = b"\0";
    let mut module_row = Vec::new();
    push_u16(&mut module_row, 0);
    push_u16(&mut module_row, 1);
    push_u16(&mut module_row, 0);
    push_u16(&mut module_row, 0);
    push_u16(&mut module_row, 0);
    let ts = tables_stream(&[(TableKind::Module, 1, module_row)]);
    let img = build_image(&metadata(ts, strings, blob));
    assert_eq!(
        read_assembly(&img, true).unwrap_err(),
        Error::MissingTable(TableKind::Assembly)
    );
}

#[test]
fn image_without_blob_heap_reports_it_missing() {
    // a metadata root naming only #~ and #Strings
    let ts = tables_stream(&[]);
    let sizes = [ts.len(), 4];
    let names: [&[u8]; 2] = [b"#~", b"#Strings"];
    let mut headers_len = 0usize;
    for n in names {
        headers_len += 8 + ((n.len() + 1 + 3) / 4) * 4;
    }
    let mut v = Vec::new();
    push_u32(&mut v, 0x424A5342);
    push_u16(&mut v, 1);
    push_u16(&mut v, 1);
    push_u32(&mut v, 0);
    push_u32(&mut v, 4);
    v.extend_from_slice(b"v4\0\0");
    push_u16(&mut v, 0);
    push_u16(&mut v, 2);
    let mut at = 24 + headers_len;
    for i in 0..2 {
        push_u32(&mut v, at as u32);
        push_u32(&mut v, sizes[i] as u32);
        v.extend_from_slice(names[i]);
        v.push(0);
        while v.len() % 4 != 0 {
            v.push(0);
        }
        at += sizes[i];
    }
    v.extend_from_slice(&ts);
    v.extend_from_slice(b"\0M1\0");
    let img = build_image(&v);
    assert_eq!(
        read_assembly(&img, true).unwrap_err(),
        Error::MissingHeap(HeapKind::Blob)
    );
}
