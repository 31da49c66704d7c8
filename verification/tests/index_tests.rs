//! Index rules: token composition, coded decode/encode, and the width
//! rules for simple and coded indices.

use cli_toolkit::indices::{
    coded_index_size_from_counts, coded_token_kind_of_tag, simple_index_size_from_counts,
    token_kind_of_tag, CodedIndex, MetadataToken, TableIndex,
};
use cli_toolkit::kinds::{CodedIndexKind, IndexSize, MetadataTokenKind, TableKind};

fn all_coded_kinds() -> Vec<CodedIndexKind> {
    vec![
        CodedIndexKind::TypeDefOrRef,
        CodedIndexKind::HasConstant,
        CodedIndexKind::HasCustomAttribute,
        CodedIndexKind::HasFieldMarshal,
        CodedIndexKind::HasDeclSecurity,
        CodedIndexKind::MemberRefParent,
        CodedIndexKind::HasSemantics,
        CodedIndexKind::MethodDefOrRef,
        CodedIndexKind::MemberForwarded,
        CodedIndexKind::Implementation,
        CodedIndexKind::CustomAttributeType,
        CodedIndexKind::ResolutionScope,
        CodedIndexKind::TypeOrMethodDef,
        CodedIndexKind::HasCustomDebugInformation,
    ]
}

#[test]
fn token_composition() {
    let t = MetadataToken::new(1, MetadataTokenKind::Method);
    assert_eq!(t.0, 0x06000001);
    assert!(!t.is_null());
    assert_eq!(t.index(), 1);
    assert_eq!(t.token_kind(), Some(MetadataTokenKind::Method));
    let null = MetadataToken::new(0, MetadataTokenKind::TypeDef);
    assert!(null.is_null());
    assert_eq!(null.0, 0);
    assert_eq!(token_kind_of_tag(0x02), Some(MetadataTokenKind::TypeDef));
    assert_eq!(token_kind_of_tag(0x03), None);
}

// Coded-index width: for each kind, a set table with one row less than
// 2^(16-bits) keeps the slim width, reaching it forces the fat width.
#[test]
fn coded_index_width_boundaries() {
    for k in all_coded_kinds() {
        let limit = k.row_limit();
        let tables = k.set_tables();
        let probe = tables[0];
        let mut counts: Vec<u32> = vec![0; 64];
        counts[probe.id() as usize] = limit - 1;
        assert_eq!(
            coded_index_size_from_counts(k, &counts),
            IndexSize::Slim,
            "one below the limit must stay slim"
        );
        counts[probe.id() as usize] = limit;
        assert_eq!(
            coded_index_size_from_counts(k, &counts),
            IndexSize::Fat,
            "reaching the limit must widen"
        );
    }
}

#[test]
fn coded_index_width_ignores_tables_outside_the_set() {
    // A huge table outside TypeDefOrRef's set must not widen it.
    let mut counts: Vec<u32> = vec![0; 64];
    counts[TableKind::MethodDef.id() as usize] = 0x10000;
    assert_eq!(
        coded_index_size_from_counts(CodedIndexKind::TypeDefOrRef, &counts),
        IndexSize::Slim
    );
}

// Simple-index width: 65535 rows keep 2 bytes, 65536 force 4.
#[test]
fn simple_index_width_boundaries() {
    let mut counts: Vec<u32> = vec![0; 64];
    counts[TableKind::TypeDef.id() as usize] = 65535;
    assert_eq!(
        simple_index_size_from_counts(TableKind::TypeDef, &counts),
        IndexSize::Slim
    );
    counts[TableKind::TypeDef.id() as usize] = 65536;
    assert_eq!(
        simple_index_size_from_counts(TableKind::TypeDef, &counts),
        IndexSize::Fat
    );
}

// Coded decode of encode gives back the table and row, for every kind,
// every table of its set, and boundary rows.
#[test]
fn coded_decode_encode_inverse() {
    for k in all_coded_kinds() {
        for tag in 0u32..32u32 {
            if let Some(tk) = coded_token_kind_of_tag(k, tag) {
                for row in [1usize, 0xFFFFFF] {
                    let enc = CodedIndex::encode(row, tk, k)
                        .expect("encoding a set member must succeed");
                    let tok = enc.decode(k).expect("decoding an encoded index must succeed");
                    assert_eq!(tok.token_kind(), Some(tk));
                    assert_eq!(tok.index(), row);
                }
            }
        }
    }
}

#[test]
fn coded_encode_rejects_foreign_kinds() {
    assert_eq!(
        CodedIndex::encode(1, MetadataTokenKind::Assembly, CodedIndexKind::TypeDefOrRef),
        None
    );
    // index 0 encodes as the null coded index whatever the kind
    assert_eq!(
        CodedIndex::encode(0, MetadataTokenKind::Assembly, CodedIndexKind::TypeDefOrRef),
        Some(CodedIndex(0))
    );
}

// A CustomAttributeType coded index with tag 2 and row 1 names MethodDef
// row 1: token 0x06000001.
#[test]
fn custom_attribute_type_edge() {
    let v = CodedIndex((1 << 3) | 2);
    let tok = v.decode(CodedIndexKind::CustomAttributeType).unwrap();
    assert_eq!(tok.0, 0x06000001);
    // tags 0 and 1 are unassigned for this kind
    assert_eq!(CodedIndex(1 << 3).decode(CodedIndexKind::CustomAttributeType), None);
    assert_eq!(CodedIndex((1 << 3) | 1).decode(CodedIndexKind::CustomAttributeType), None);
}

#[test]
fn decode_out_of_range_tag_fails() {
    // TypeDefOrRef has tags 0..=2; tag 3 is unassigned.
    assert_eq!(CodedIndex((5 << 2) | 3).decode(CodedIndexKind::TypeDefOrRef), None);
}

#[test]
fn table_index_ordering() {
    assert!(TableIndex(1) < TableIndex(2));
    assert_eq!(TableIndex(7), TableIndex(7));
}
