//! Tables-stream behaviour: header fields, row counts, dynamic row
//! widths, row decoding and unsupported kinds.

use cli_toolkit::error::Error;
use cli_toolkit::indices::{CodedIndex, TableIndex};
use cli_toolkit::kinds::{CodedIndexKind, IndexSize, TableKind};
use cli_toolkit::rows;
use cli_toolkit::rows::{element_type_of_code, hash_algorithm_of_code, AssemblyHashAlgorithm, ElementType};
use cli_toolkit::tables::TableHeap;

fn push_u32(v: &mut Vec<u8>, x: u32) {
    v.extend_from_slice(&x.to_le_bytes());
}

fn push_u64(v: &mut Vec<u8>, x: u64) {
    v.extend_from_slice(&x.to_le_bytes());
}

fn tables_stream(heap_sizes: u8, tables: &[(TableKind, u32, Vec<u8>)]) -> Vec<u8> {
    let mut v = Vec::new();
    push_u32(&mut v, 0); // reserved
    v.push(2); // major
    v.push(0); // minor
    v.push(heap_sizes);
    v.push(1); // reserved
    let mut valid: u64 = 0;
    for (kind, _, _) in tables {
        valid |= 1u64 << kind.id();
    }
    push_u64(&mut v, valid);
    push_u64(&mut v, 0); // sorted
    for (_, count, _) in tables {
        push_u32(&mut v, *count);
    }
    for (_, _, body) in tables {
        v.extend_from_slice(body);
    }
    v
}

#[test]
fn header_fields_and_counts() {
    let module_row: Vec<u8> = vec![0, 0, 1, 0, 0, 0, 0, 0, 0, 0];
    let s = tables_stream(0, &[(TableKind::Module, 1, module_row)]);
    let th = TableHeap::new(&s).unwrap();
    assert_eq!(th.major_version(), 2);
    assert_eq!(th.minor_version(), 0);
    assert_eq!(th.heap_sizes(), 0);
    assert_eq!(th.valid(), 1);
    assert_eq!(th.sorted(), 0);
    assert_eq!(th.table_count(), 1);
    assert!(th.has_table(TableKind::Module));
    assert!(!th.has_table(TableKind::TypeDef));
    assert_eq!(th.row_count(TableKind::Module), 1);
    assert_eq!(th.row_count(TableKind::TypeDef), 0);
    assert_eq!(th.idx_size(TableKind::Module), IndexSize::Slim);
}

#[test]
fn truncated_stream_is_refused() {
    let s = tables_stream(0, &[]);
    assert!(TableHeap::new(&s[..12]).is_err());
    let module_row: Vec<u8> = vec![0; 10];
    let full = tables_stream(0, &[(TableKind::Module, 1, module_row)]);
    // cut into the table body
    assert_eq!(
        TableHeap::new(&full[..full.len() - 1]).unwrap_err(),
        Error::UnexpectedEndOfStream(full.len() - 1)
    );
}

#[test]
fn module_row_decodes() {
    // generation 7, name 0x0102, three GUID indices 1, 2, 3
    let module_row: Vec<u8> = vec![7, 0, 0x02, 0x01, 1, 0, 2, 0, 3, 0];
    let s = tables_stream(0, &[(TableKind::Module, 1, module_row)]);
    let th = TableHeap::new(&s).unwrap();
    let view = th.get_table(TableKind::Module).unwrap().unwrap();
    assert_eq!(view.len(), 1);
    assert_eq!(view.row_size(), 10);
    let vals = view.get(TableIndex(1)).unwrap();
    let row = rows::Module::from_values(&vals).unwrap();
    assert_eq!(row.generation(), 7);
    assert_eq!(row.name().0, 0x0102);
    assert_eq!(row.module_version_id().0, 1);
    assert_eq!(row.enc_id().0, 2);
    assert_eq!(row.enc_base_id().0, 3);
    // row 0 and row 2 are out of bounds
    assert_eq!(view.get(TableIndex(0)).unwrap_err(), Error::OffsetOutOfBounds(0));
    assert_eq!(view.get(TableIndex(2)).unwrap_err(), Error::OffsetOutOfBounds(2));
}

// Wide heap indices: with heap_sizes = 0b111 every string, GUID and blob
// index is 4 bytes, so a TypeDef row is 4 + 4 + 4 + 2 + 2 + 2 bytes.
#[test]
fn wide_heap_indices_widen_rows() {
    let typedef_row: Vec<u8> = vec![0; 18];
    let s = tables_stream(0b0000_0111, &[(TableKind::TypeDef, 1, typedef_row)]);
    let th = TableHeap::new(&s).unwrap();
    let view = th.get_table(TableKind::TypeDef).unwrap().unwrap();
    assert_eq!(view.row_size(), 4 + 4 + 4 + 2 + 2 + 2);

    // with narrow heaps the same row is 4 + 2 + 2 + 2 + 2 + 2 bytes
    let narrow_row: Vec<u8> = vec![0; 14];
    let s2 = tables_stream(0, &[(TableKind::TypeDef, 1, narrow_row)]);
    let th2 = TableHeap::new(&s2).unwrap();
    let view2 = th2.get_table(TableKind::TypeDef).unwrap().unwrap();
    assert_eq!(view2.row_size(), 4 + 2 + 2 + 2 + 2 + 2);
}

#[test]
fn absent_table_is_none_and_debug_tables_are_unsupported() {
    let s = tables_stream(0, &[]);
    let th = TableHeap::new(&s).unwrap();
    assert!(th.get_table(TableKind::Assembly).unwrap().is_none());
    // an absent table is None even for a kind without a schema
    assert!(th.get_table(TableKind::Document).unwrap().is_none());
    // a present debug table has no schema and is unsupported
    let s2 = tables_stream(0, &[(TableKind::Document, 0, Vec::new())]);
    let th2 = TableHeap::new(&s2).unwrap();
    assert_eq!(
        th2.get_table(TableKind::Document).unwrap_err(),
        Error::Unsupported(TableKind::Document)
    );
}

#[test]
fn tables_lie_back_to_back_in_id_order() {
    // Module (10 bytes) then TypeSpec (2 bytes, one blob index)
    let module_row: Vec<u8> = vec![0; 10];
    let spec_row: Vec<u8> = vec![0x2A, 0x00];
    let s = tables_stream(
        0,
        &[(TableKind::Module, 1, module_row), (TableKind::TypeSpec, 1, spec_row)],
    );
    let th = TableHeap::new(&s).unwrap();
    let view = th.get_table(TableKind::TypeSpec).unwrap().unwrap();
    let vals = view.get(TableIndex(1)).unwrap();
    assert_eq!(vals, vec![0x2A]);
}

#[test]
fn coded_index_size_follows_row_counts() {
    // 0x4000 TypeDef rows force TypeDefOrRef (2 tag bits) to 4 bytes.
    let body: Vec<u8> = vec![0; 16 * 0x4000];
    let s = tables_stream(0, &[(TableKind::TypeDef, 0x4000, body)]);
    let th = TableHeap::new(&s).unwrap();
    assert_eq!(
        CodedIndex::get_size(CodedIndexKind::TypeDefOrRef, &th),
        IndexSize::Fat
    );
    assert_eq!(
        CodedIndex::get_size(CodedIndexKind::HasCustomAttribute, &th),
        IndexSize::Fat
    );
    assert_eq!(
        CodedIndex::get_size(CodedIndexKind::HasConstant, &th),
        IndexSize::Slim
    );
}

#[test]
fn element_type_codes_round_trip() {
    assert_eq!(element_type_of_code(0x08), Some(ElementType::I4));
    assert_eq!(ElementType::I4.code(), 0x08);
    assert_eq!(element_type_of_code(0x0E), Some(ElementType::Text));
    assert_eq!(element_type_of_code(0x22), None);
    for code in 0u8..=0xFF {
        if let Some(e) = element_type_of_code(code) {
            assert_eq!(e.code(), code);
        }
    }
}

#[test]
fn assembly_hash_algorithm_codes() {
    assert_eq!(hash_algorithm_of_code(0), Some(AssemblyHashAlgorithm::Unspecified));
    assert_eq!(hash_algorithm_of_code(0x8003), Some(AssemblyHashAlgorithm::Md5));
    assert_eq!(hash_algorithm_of_code(0x8004), Some(AssemblyHashAlgorithm::Sha1));
    assert_eq!(hash_algorithm_of_code(0x8005), None);
}

#[test]
fn rows_enumerates_every_row() {
    // two Module rows with distinct generations
    let mut body = Vec::new();
    for g in [5u16, 9u16] {
        push_u16_local(&mut body, g);
        push_u16_local(&mut body, 0);
        push_u16_local(&mut body, 0);
        push_u16_local(&mut body, 0);
        push_u16_local(&mut body, 0);
    }
    let s = tables_stream(0, &[(TableKind::Module, 2, body)]);
    let th = TableHeap::new(&s).unwrap();
    let view = th.get_table(TableKind::Module).unwrap().unwrap();
    let all = view.rows();
    assert_eq!(all.len(), 2);
    assert_eq!(all[0][0], 5);
    assert_eq!(all[1][0], 9);
}

fn push_u16_local(v: &mut Vec<u8>, x: u16) {
    v.extend_from_slice(&x.to_le_bytes());
}
