//! The decoded assembly layer: ownership ranges, classification and
//! name matching on hand-built values.

use cli_toolkit::assembly::{
    classify_types, owned_range, str_eq, AssemblyVersion, Type, TypeData, TypeShape,
};
use cli_toolkit::indices::MetadataToken;

// Each type's owned range runs from its own start to the next type's;
// the last range ends right after the member table's last row; a range
// is empty exactly when its two ends are equal.
#[test]
fn owned_ranges_follow_the_next_row() {
    let starts: Vec<u32> = vec![1, 3, 3, 5];
    assert_eq!(owned_range(&starts, 0, 6), (1, 3));
    assert_eq!(owned_range(&starts, 1, 6), (3, 3)); // empty
    assert_eq!(owned_range(&starts, 2, 6), (3, 5));
    assert_eq!(owned_range(&starts, 3, 6), (5, 7)); // up to the table's end
}

// A next-row start past the member table is clamped to one past its
// last row.
#[test]
fn owned_ranges_are_clamped_to_the_member_table() {
    let starts: Vec<u32> = vec![1, 9];
    assert_eq!(owned_range(&starts, 0, 6), (1, 7));
    assert_eq!(owned_range(&starts, 1, 6), (9, 7));
}

fn data(name: &str, namespace: &str, flags: u32, base: u32, token: u32) -> TypeData {
    TypeData {
        name: name.to_string(),
        namespace: namespace.to_string(),
        flags,
        base: MetadataToken(base),
        token: MetadataToken(token),
        field_range: (1, 1),
        method_range: (1, 1),
    }
}

#[test]
fn classification_by_type_ref_base() {
    let refs = vec![
        (MetadataToken(0x23000001), "System".to_string(), "Object".to_string()),
        (MetadataToken(0x23000001), "System".to_string(), "ValueType".to_string()),
        (MetadataToken(0x23000001), "System".to_string(), "Enum".to_string()),
    ];
    let defs = vec![
        data("A", "N", 0, 0x01000001, 0x02000001),
        data("B", "N", 0, 0x01000002, 0x02000002),
        data("C", "N", 0, 0x01000003, 0x02000003),
        data("I", "N", 0x20, 0, 0x02000004),
        data("D", "N", 0, 0x02000001, 0x02000005), // base is A, in-image
    ];
    let types = classify_types(defs, &refs);
    assert!(matches!(types[0], Type::Class(_)));
    assert!(matches!(types[1], Type::Struct(_)));
    assert!(matches!(types[2], Type::Enum(_)));
    assert!(matches!(types[3], Type::Interface(_)));
    assert!(matches!(types[4], Type::Class(_)));
}

#[test]
fn classification_handles_base_cycles_without_diverging() {
    // two types whose bases point at each other never resolve
    let refs = Vec::new();
    let defs = vec![
        data("A", "", 0, 0x02000002, 0x02000001),
        data("B", "", 0, 0x02000001, 0x02000002),
    ];
    let types = classify_types(defs, &refs);
    assert!(matches!(types[0], Type::CustomUnknown(_)));
    assert!(matches!(types[1], Type::CustomUnknown(_)));
}

#[test]
fn system_object_itself_is_a_class() {
    let refs = Vec::new();
    let defs = vec![data("Object", "System", 0x102001, 0, 0x02000001)];
    let types = classify_types(defs, &refs);
    assert!(matches!(types[0], Type::Class(_)));
}

#[test]
fn matches_name_compares_both_parts() {
    let t = Type::Class(data("Foo", "Ns", 0, 0, 0x02000001));
    assert!(t.matches_name("Foo", "Ns"));
    assert!(!t.matches_name("Foo", ""));
    assert!(!t.matches_name("Bar", "Ns"));
    let n = Type::NotLoaded(MetadataToken(5));
    assert!(!n.matches_name("Foo", "Ns"));
}

#[test]
fn string_equality_is_by_characters() {
    assert!(str_eq("abc", "abc"));
    assert!(!str_eq("abc", "abd"));
    assert!(!str_eq("abc", "ab"));
    assert!(str_eq("", ""));
}

#[test]
fn version_equality() {
    let v = AssemblyVersion { major: 1, minor: 2, build: 3, revision: 4 };
    assert_eq!(v, AssemblyVersion { major: 1, minor: 2, build: 3, revision: 4 });
}

#[test]
fn shapes_are_plain_values() {
    assert_eq!(TypeShape::ShapeClass, TypeShape::ShapeClass);
    assert_ne!(TypeShape::ShapeClass, TypeShape::ShapeStruct);
}
