//! The `#~` tables stream: its header, the dynamic width of every stored
//! field, the layout of the table bodies, and a uniform row decoder driven
//! by one schema per table kind.

use vstd::prelude::*;
use vstd::slice::slice_subrange;
use crate::cursor::{le_u16_at, le_u32_at, le_u64_at, ByteStream};
use crate::error::Error;
use crate::indices::{
    coded_index_is_fat, coded_index_size_from_counts, simple_index_is_fat,
    simple_index_size_from_counts, CodedIndex, TableIndex,
};
use crate::kinds::{
    index_size_bytes, spec_table_kind_of_id, table_kind_id, table_kind_of_id, CodedIndexKind,
    IndexSize, TableKind,
};

verus! {

/// One field of a table row: a fixed-width primitive, a heap index, a
/// simple table index, or a coded index.
#[derive(Debug, Copy, Clone, PartialEq, Eq, Structural)]
pub enum FieldType {
    /// A one-byte primitive.
    U8Field,
    /// A two-byte primitive.
    U16Field,
    /// A four-byte primitive.
    U32Field,
    /// An index into the `#Strings` heap.
    StrField,
    /// An index into the `#GUID` heap.
    GuidField,
    /// An index into the `#Blob` heap.
    BlobField,
    /// A 1-based row number into the named table.
    TableField(TableKind),
    /// A coded index of the named kind.
    CodedField(CodedIndexKind),
}

/// What fixes every stored width of an image's tables: the `heap_sizes`
/// flag byte and the dense row-count array keyed by table id.
#[derive(Debug)]
pub struct TableSizing {
    /// The `heap_sizes` byte: bit 0 widens string indices to 4 bytes,
    /// bit 1 GUID indices, bit 2 blob indices.
    pub heap_sizes: u8,
    /// The row count of each table id in `0..64`; 0 where the table is
    /// absent.
    pub counts: Vec<u32>,
}

/// The stored width of `#Strings` indices under a `heap_sizes` byte.
pub open spec fn spec_str_index_size(heap_sizes: u8) -> IndexSize {
    if heap_sizes as int % 2 == 1 {
        IndexSize::Fat
    } else {
        IndexSize::Slim
    }
}

/// The stored width of `#GUID` indices under a `heap_sizes` byte.
pub open spec fn spec_guid_index_size(heap_sizes: u8) -> IndexSize {
    if (heap_sizes as int / 2) % 2 == 1 {
        IndexSize::Fat
    } else {
        IndexSize::Slim
    }
}

/// The stored width of `#Blob` indices under a `heap_sizes` byte.
pub open spec fn spec_blob_index_size(heap_sizes: u8) -> IndexSize {
    if (heap_sizes as int / 4) % 2 == 1 {
        IndexSize::Fat
    } else {
        IndexSize::Slim
    }
}

impl TableSizing {
    /// Well-formedness: one row count per possible table id.
    pub open spec fn wf(self) -> bool {
        self.counts@.len() == 64
    }

    /// The stored width of `#Strings` indices.
    pub fn str_index_size(&self) -> (r: IndexSize)
        ensures
            r == spec_str_index_size(self.heap_sizes),
    {
        if self.heap_sizes % 2 == 1 {
            IndexSize::Fat
        } else {
            IndexSize::Slim
        }
    }

    /// The stored width of `#GUID` indices.
    pub fn guid_index_size(&self) -> (r: IndexSize)
        ensures
            r == spec_guid_index_size(self.heap_sizes),
    {
        if (self.heap_sizes / 2) % 2 == 1 {
            IndexSize::Fat
        } else {
            IndexSize::Slim
        }
    }

    /// The stored width of `#Blob` indices.
    pub fn blob_index_size(&self) -> (r: IndexSize)
        ensures
            r == spec_blob_index_size(self.heap_sizes),
    {
        if (self.heap_sizes / 4) % 2 == 1 {
            IndexSize::Fat
        } else {
            IndexSize::Slim
        }
    }

    /// The stored width of a simple index into `kind`: 2 bytes for at most
    /// `0xFFFF` rows, else 4.
    pub fn simple_index_size(&self, kind: TableKind) -> (r: IndexSize)
        requires
            self.wf(),
        ensures
            (r == IndexSize::Fat) <==> simple_index_is_fat(kind, self.counts@),
            (r == IndexSize::Slim) <==> !simple_index_is_fat(kind, self.counts@),
    {
        simple_index_size_from_counts(kind, &self.counts)
    }

    /// The stored width of a coded index of kind `k`: 4 bytes when some
    /// table of the kind's set reaches `2 ^ (16 - bits(k))` rows, else 2.
    pub fn coded_index_size(&self, k: CodedIndexKind) -> (r: IndexSize)
        requires
            self.wf(),
        ensures
            (r == IndexSize::Fat) <==> coded_index_is_fat(k, self.counts@),
            (r == IndexSize::Slim) <==> !coded_index_is_fat(k, self.counts@),
    {
        coded_index_size_from_counts(k, &self.counts)
    }

    /// The row count of `kind`: the stored count where present, 0 where
    /// absent.
    pub fn row_count(&self, kind: TableKind) -> (r: u32)
        requires
            self.wf(),
        ensures
            r == self.counts@[table_kind_id(kind) as int],
    {
        self.counts[kind.id() as usize]
    }
}

/// The stored index width a field of the given type uses, where it is an
/// index field, under a `heap_sizes` byte and a dense row-count array.
pub open spec fn spec_field_index_size(ft: FieldType, hs: u8, counts: Seq<u32>) -> IndexSize {
    match ft {
        FieldType::U8Field => IndexSize::Slim,
        FieldType::U16Field => IndexSize::Slim,
        FieldType::U32Field => IndexSize::Fat,
        FieldType::StrField => spec_str_index_size(hs),
        FieldType::GuidField => spec_guid_index_size(hs),
        FieldType::BlobField => spec_blob_index_size(hs),
        FieldType::TableField(t) => if simple_index_is_fat(t, counts) {
            IndexSize::Fat
        } else {
            IndexSize::Slim
        },
        FieldType::CodedField(k) => if coded_index_is_fat(k, counts) {
            IndexSize::Fat
        } else {
            IndexSize::Slim
        },
    }
}

/// The stored width in bytes of a field of the given type.
pub open spec fn spec_field_size(ft: FieldType, hs: u8, counts: Seq<u32>) -> int {
    match ft {
        FieldType::U8Field => 1,
        FieldType::U16Field => 2,
        FieldType::U32Field => 4,
        _ => index_size_bytes(spec_field_index_size(ft, hs, counts)),
    }
}

/// The stored width in bytes of a field of the given type: 1, 2 or 4.
pub fn field_size(ft: FieldType, sz: &TableSizing) -> (r: usize)
    requires
        sz.wf(),
    ensures
        r == spec_field_size(ft, sz.heap_sizes, sz.counts@),
        1 <= r <= 4,
{
    match ft {
        FieldType::U8Field => 1,
        FieldType::U16Field => 2,
        FieldType::U32Field => 4,
        FieldType::StrField => sz.str_index_size().bytes(),
        FieldType::GuidField => sz.guid_index_size().bytes(),
        FieldType::BlobField => sz.blob_index_size().bytes(),
        FieldType::TableField(t) => sz.simple_index_size(t).bytes(),
        FieldType::CodedField(k) => sz.coded_index_size(k).bytes(),
    }
}

/// The field sequence of each table kind the decoder has a schema for.
/// The debug tables are enumerable but carry no schema here.
pub open spec fn spec_table_schema(kind: TableKind) -> Option<Seq<FieldType>> {
    match kind {
        TableKind::Module => Some(seq![
            FieldType::U16Field,
            FieldType::StrField,
            FieldType::GuidField,
            FieldType::GuidField,
            FieldType::GuidField,
        ]),
        TableKind::TypeRef => Some(seq![
            FieldType::CodedField(CodedIndexKind::ResolutionScope),
            FieldType::StrField,
            FieldType::StrField,
        ]),
        TableKind::TypeDef => Some(seq![
            FieldType::U32Field,
            FieldType::StrField,
            FieldType::StrField,
            FieldType::CodedField(CodedIndexKind::TypeDefOrRef),
            FieldType::TableField(TableKind::Field),
            FieldType::TableField(TableKind::MethodDef),
        ]),
        TableKind::FieldPtr => Some(seq![FieldType::TableField(TableKind::Field)]),
        TableKind::Field => Some(seq![
            FieldType::U16Field,
            FieldType::StrField,
            FieldType::BlobField,
        ]),
        TableKind::MethodPtr => Some(seq![FieldType::TableField(TableKind::MethodDef)]),
        TableKind::MethodDef => Some(seq![
            FieldType::U32Field,
            FieldType::U16Field,
            FieldType::U16Field,
            FieldType::StrField,
            FieldType::BlobField,
            FieldType::TableField(TableKind::Param),
        ]),
        TableKind::ParamPtr => Some(seq![FieldType::TableField(TableKind::Param)]),
        TableKind::Param => Some(seq![
            FieldType::U16Field,
            FieldType::U16Field,
            FieldType::StrField,
        ]),
        TableKind::InterfaceImpl => Some(seq![
            FieldType::TableField(TableKind::TypeDef),
            FieldType::CodedField(CodedIndexKind::TypeDefOrRef),
        ]),
        TableKind::MemberRef => Some(seq![
            FieldType::CodedField(CodedIndexKind::MemberRefParent),
            FieldType::StrField,
            FieldType::BlobField,
        ]),
        TableKind::Constant => Some(seq![
            FieldType::U8Field,
            FieldType::U8Field,
            FieldType::CodedField(CodedIndexKind::HasConstant),
            FieldType::BlobField,
        ]),
        TableKind::CustomAttribute => Some(seq![
            FieldType::CodedField(CodedIndexKind::HasCustomAttribute),
            FieldType::CodedField(CodedIndexKind::CustomAttributeType),
            FieldType::BlobField,
        ]),
        TableKind::FieldMarshal => Some(seq![
            FieldType::CodedField(CodedIndexKind::HasFieldMarshal),
            FieldType::BlobField,
        ]),
        TableKind::DeclSecurity => Some(seq![
            FieldType::U16Field,
            FieldType::CodedField(CodedIndexKind::HasDeclSecurity),
            FieldType::BlobField,
        ]),
        TableKind::ClassLayout => Some(seq![
            FieldType::U16Field,
            FieldType::U32Field,
            FieldType::TableField(TableKind::TypeDef),
        ]),
        TableKind::FieldLayout => Some(seq![
            FieldType::U32Field,
            FieldType::TableField(TableKind::Field),
        ]),
        TableKind::StandAloneSig => Some(seq![FieldType::BlobField]),
        TableKind::EventMap => Some(seq![
            FieldType::TableField(TableKind::TypeDef),
            FieldType::TableField(TableKind::Event),
        ]),
        TableKind::EventPtr => Some(seq![FieldType::TableField(TableKind::Event)]),
        TableKind::Event => Some(seq![
            FieldType::U16Field,
            FieldType::StrField,
            FieldType::CodedField(CodedIndexKind::TypeDefOrRef),
        ]),
        TableKind::PropertyMap => Some(seq![
            FieldType::TableField(TableKind::TypeDef),
            FieldType::TableField(TableKind::Property),
        ]),
        TableKind::PropertyPtr => Some(seq![FieldType::TableField(TableKind::Property)]),
        TableKind::Property => Some(seq![
            FieldType::U16Field,
            FieldType::StrField,
            FieldType::BlobField,
        ]),
        TableKind::MethodSemantics => Some(seq![
            FieldType::U16Field,
            FieldType::TableField(TableKind::MethodDef),
            FieldType::CodedField(CodedIndexKind::HasSemantics),
        ]),
        TableKind::MethodImpl => Some(seq![
            FieldType::TableField(TableKind::TypeDef),
            FieldType::CodedField(CodedIndexKind::MethodDefOrRef),
            FieldType::CodedField(CodedIndexKind::MethodDefOrRef),
        ]),
        TableKind::ModuleRef => Some(seq![FieldType::StrField]),
        TableKind::TypeSpec => Some(seq![FieldType::BlobField]),
        TableKind::ImplMap => Some(seq![
            FieldType::U16Field,
            FieldType::CodedField(CodedIndexKind::MemberForwarded),
            FieldType::StrField,
            FieldType::TableField(TableKind::ModuleRef),
        ]),
        TableKind::FieldRVA => Some(seq![
            FieldType::U32Field,
            FieldType::TableField(TableKind::Field),
        ]),
        TableKind::EncLog => Some(seq![FieldType::U32Field, FieldType::U32Field]),
        TableKind::EncMap => Some(seq![FieldType::U32Field]),
        TableKind::Assembly => Some(seq![
            FieldType::U32Field,
            FieldType::U16Field,
            FieldType::U16Field,
            FieldType::U16Field,
            FieldType::U16Field,
            FieldType::U32Field,
            FieldType::BlobField,
            FieldType::StrField,
            FieldType::StrField,
        ]),
        TableKind::AssemblyProcessor => Some(seq![FieldType::U32Field]),
        TableKind::AssemblyOS => Some(seq![
            FieldType::U32Field,
            FieldType::U32Field,
            FieldType::U32Field,
        ]),
        TableKind::AssemblyRef => Some(seq![
            FieldType::U16Field,
            FieldType::U16Field,
            FieldType::U16Field,
            FieldType::U16Field,
            FieldType::U32Field,
            FieldType::BlobField,
            FieldType::StrField,
            FieldType::StrField,
            FieldType::BlobField,
        ]),
        TableKind::AssemblyRefProcessor => Some(seq![
            FieldType::U32Field,
            FieldType::TableField(TableKind::AssemblyRef),
        ]),
        TableKind::AssemblyRefOS => Some(seq![
            FieldType::U32Field,
            FieldType::U32Field,
            FieldType::U32Field,
            FieldType::TableField(TableKind::AssemblyRef),
        ]),
        TableKind::File => Some(seq![
            FieldType::U32Field,
            FieldType::StrField,
            FieldType::BlobField,
        ]),
        TableKind::ExportedType => Some(seq![
            FieldType::U32Field,
            FieldType::U32Field,
            FieldType::StrField,
            FieldType::StrField,
            FieldType::CodedField(CodedIndexKind::Implementation),
        ]),
        TableKind::ManifestResource => Some(seq![
            FieldType::U32Field,
            FieldType::U32Field,
            FieldType::StrField,
            FieldType::CodedField(CodedIndexKind::Implementation),
        ]),
        TableKind::NestedClass => Some(seq![
            FieldType::TableField(TableKind::TypeDef),
            FieldType::TableField(TableKind::TypeDef),
        ]),
        TableKind::GenericParam => Some(seq![
            FieldType::U16Field,
            FieldType::U16Field,
            FieldType::CodedField(CodedIndexKind::TypeOrMethodDef),
            FieldType::StrField,
        ]),
        TableKind::MethodSpec => Some(seq![
            FieldType::CodedField(CodedIndexKind::MethodDefOrRef),
            FieldType::BlobField,
        ]),
        TableKind::GenericParamConstraint => Some(seq![
            FieldType::TableField(TableKind::GenericParam),
            FieldType::CodedField(CodedIndexKind::TypeDefOrRef),
        ]),
        _ => None,
    }
}

/// The field sequence of `kind`, or `None` where the decoder has no schema.
pub fn table_schema(kind: TableKind) -> (r: Option<Vec<FieldType>>)
    ensures
        r is Some <==> spec_table_schema(kind) is Some,
        r matches Some(v) ==> (Some(v@) == spec_table_schema(kind) && 1 <= v@.len() <= 16),
{
    let r: Option<Vec<FieldType>> = match kind {
        TableKind::Module => Some(vec![
            FieldType::U16Field,
            FieldType::StrField,
            FieldType::GuidField,
            FieldType::GuidField,
            FieldType::GuidField,
        ]),
        TableKind::TypeRef => Some(vec![
            FieldType::CodedField(CodedIndexKind::ResolutionScope),
            FieldType::StrField,
            FieldType::StrField,
        ]),
        TableKind::TypeDef => Some(vec![
            FieldType::U32Field,
            FieldType::StrField,
            FieldType::StrField,
            FieldType::CodedField(CodedIndexKind::TypeDefOrRef),
            FieldType::TableField(TableKind::Field),
            FieldType::TableField(TableKind::MethodDef),
        ]),
        TableKind::FieldPtr => Some(vec![FieldType::TableField(TableKind::Field)]),
        TableKind::Field => Some(vec![
            FieldType::U16Field,
            FieldType::StrField,
            FieldType::BlobField,
        ]),
        TableKind::MethodPtr => Some(vec![FieldType::TableField(TableKind::MethodDef)]),
        TableKind::MethodDef => Some(vec![
            FieldType::U32Field,
            FieldType::U16Field,
            FieldType::U16Field,
            FieldType::StrField,
            FieldType::BlobField,
            FieldType::TableField(TableKind::Param),
        ]),
        TableKind::ParamPtr => Some(vec![FieldType::TableField(TableKind::Param)]),
        TableKind::Param => Some(vec![
            FieldType::U16Field,
            FieldType::U16Field,
            FieldType::StrField,
        ]),
        TableKind::InterfaceImpl => Some(vec![
            FieldType::TableField(TableKind::TypeDef),
            FieldType::CodedField(CodedIndexKind::TypeDefOrRef),
        ]),
        TableKind::MemberRef => Some(vec![
            FieldType::CodedField(CodedIndexKind::MemberRefParent),
            FieldType::StrField,
            FieldType::BlobField,
        ]),
        TableKind::Constant => Some(vec![
            FieldType::U8Field,
            FieldType::U8Field,
            FieldType::CodedField(CodedIndexKind::HasConstant),
            FieldType::BlobField,
        ]),
        TableKind::CustomAttribute => Some(vec![
            FieldType::CodedField(CodedIndexKind::HasCustomAttribute),
            FieldType::CodedField(CodedIndexKind::CustomAttributeType),
            FieldType::BlobField,
        ]),
        TableKind::FieldMarshal => Some(vec![
            FieldType::CodedField(CodedIndexKind::HasFieldMarshal),
            FieldType::BlobField,
        ]),
        TableKind::DeclSecurity => Some(vec![
            FieldType::U16Field,
            FieldType::CodedField(CodedIndexKind::HasDeclSecurity),
            FieldType::BlobField,
        ]),
        TableKind::ClassLayout => Some(vec![
            FieldType::U16Field,
            FieldType::U32Field,
            FieldType::TableField(TableKind::TypeDef),
        ]),
        TableKind::FieldLayout => Some(vec![
            FieldType::U32Field,
            FieldType::TableField(TableKind::Field),
        ]),
        TableKind::StandAloneSig => Some(vec![FieldType::BlobField]),
        TableKind::EventMap => Some(vec![
            FieldType::TableField(TableKind::TypeDef),
            FieldType::TableField(TableKind::Event),
        ]),
        TableKind::EventPtr => Some(vec![FieldType::TableField(TableKind::Event)]),
        TableKind::Event => Some(vec![
            FieldType::U16Field,
            FieldType::StrField,
            FieldType::CodedField(CodedIndexKind::TypeDefOrRef),
        ]),
        TableKind::PropertyMap => Some(vec![
            FieldType::TableField(TableKind::TypeDef),
            FieldType::TableField(TableKind::Property),
        ]),
        TableKind::PropertyPtr => Some(vec![FieldType::TableField(TableKind::Property)]),
        TableKind::Property => Some(vec![
            FieldType::U16Field,
            FieldType::StrField,
            FieldType::BlobField,
        ]),
        TableKind::MethodSemantics => Some(vec![
            FieldType::U16Field,
            FieldType::TableField(TableKind::MethodDef),
            FieldType::CodedField(CodedIndexKind::HasSemantics),
        ]),
        TableKind::MethodImpl => Some(vec![
            FieldType::TableField(TableKind::TypeDef),
            FieldType::CodedField(CodedIndexKind::MethodDefOrRef),
            FieldType::CodedField(CodedIndexKind::MethodDefOrRef),
        ]),
        TableKind::ModuleRef => Some(vec![FieldType::StrField]),
        TableKind::TypeSpec => Some(vec![FieldType::BlobField]),
        TableKind::ImplMap => Some(vec![
            FieldType::U16Field,
            FieldType::CodedField(CodedIndexKind::MemberForwarded),
            FieldType::StrField,
            FieldType::TableField(TableKind::ModuleRef),
        ]),
        TableKind::FieldRVA => Some(vec![
            FieldType::U32Field,
            FieldType::TableField(TableKind::Field),
        ]),
        TableKind::EncLog => Some(vec![FieldType::U32Field, FieldType::U32Field]),
        TableKind::EncMap => Some(vec![FieldType::U32Field]),
        TableKind::Assembly => Some(vec![
            FieldType::U32Field,
            FieldType::U16Field,
            FieldType::U16Field,
            FieldType::U16Field,
            FieldType::U16Field,
            FieldType::U32Field,
            FieldType::BlobField,
            FieldType::StrField,
            FieldType::StrField,
        ]),
        TableKind::AssemblyProcessor => Some(vec![FieldType::U32Field]),
        TableKind::AssemblyOS => Some(vec![
            FieldType::U32Field,
            FieldType::U32Field,
            FieldType::U32Field,
        ]),
        TableKind::AssemblyRef => Some(vec![
            FieldType::U16Field,
            FieldType::U16Field,
            FieldType::U16Field,
            FieldType::U16Field,
            FieldType::U32Field,
            FieldType::BlobField,
            FieldType::StrField,
            FieldType::StrField,
            FieldType::BlobField,
        ]),
        TableKind::AssemblyRefProcessor => Some(vec![
            FieldType::U32Field,
            FieldType::TableField(TableKind::AssemblyRef),
        ]),
        TableKind::AssemblyRefOS => Some(vec![
            FieldType::U32Field,
            FieldType::U32Field,
            FieldType::U32Field,
            FieldType::TableField(TableKind::AssemblyRef),
        ]),
        TableKind::File => Some(vec![
            FieldType::U32Field,
            FieldType::StrField,
            FieldType::BlobField,
        ]),
        TableKind::ExportedType => Some(vec![
            FieldType::U32Field,
            FieldType::U32Field,
            FieldType::StrField,
            FieldType::StrField,
            FieldType::CodedField(CodedIndexKind::Implementation),
        ]),
        TableKind::ManifestResource => Some(vec![
            FieldType::U32Field,
            FieldType::U32Field,
            FieldType::StrField,
            FieldType::CodedField(CodedIndexKind::Implementation),
        ]),
        TableKind::NestedClass => Some(vec![
            FieldType::TableField(TableKind::TypeDef),
            FieldType::TableField(TableKind::TypeDef),
        ]),
        TableKind::GenericParam => Some(vec![
            FieldType::U16Field,
            FieldType::U16Field,
            FieldType::CodedField(CodedIndexKind::TypeOrMethodDef),
            FieldType::StrField,
        ]),
        TableKind::MethodSpec => Some(vec![
            FieldType::CodedField(CodedIndexKind::MethodDefOrRef),
            FieldType::BlobField,
        ]),
        TableKind::GenericParamConstraint => Some(vec![
            FieldType::TableField(TableKind::GenericParam),
            FieldType::CodedField(CodedIndexKind::TypeDefOrRef),
        ]),
        _ => None,
    };
    proof {
        match &r {
            Some(v) => {
                assert(Some(v@) =~= spec_table_schema(kind));
            },
            None => {},
        }
    }
    r
}

/// The width in bytes of one row with the given field sequence.
pub open spec fn spec_row_size(schema: Seq<FieldType>, hs: u8, counts: Seq<u32>) -> int
    decreases schema.len(),
{
    if schema.len() == 0 {
        0
    } else {
        spec_row_size(schema.drop_last(), hs, counts) + spec_field_size(schema.last(), hs, counts)
    }
}

/// The width of a row prefix grows by exactly one field's width per field.
pub proof fn lemma_row_size_take(schema: Seq<FieldType>, hs: u8, counts: Seq<u32>, i: int)
    requires
        0 <= i < schema.len(),
    ensures
        spec_row_size(schema.take(i + 1), hs, counts) == spec_row_size(schema.take(i), hs, counts)
            + spec_field_size(schema[i], hs, counts),
{
    assert(schema.take(i + 1).drop_last() =~= schema.take(i));
    assert(schema.take(i + 1).last() == schema[i]);
}

/// Row widths are nonnegative, and each prefix of a schema is at most as
/// wide as the whole.
pub proof fn lemma_row_size_bounds(schema: Seq<FieldType>, hs: u8, counts: Seq<u32>, i: int)
    requires
        0 <= i <= schema.len(),
    ensures
        0 <= spec_row_size(schema.take(i), hs, counts) <= spec_row_size(schema, hs, counts),
        schema.len() > 0 ==> spec_row_size(schema, hs, counts) >= 1,
    decreases schema.len() - i,
{
    if i == schema.len() {
        assert(schema.take(i) =~= schema);
        lemma_row_size_nonneg(schema, hs, counts);
        if schema.len() > 0 {
            lemma_row_size_nonneg(schema.drop_last(), hs, counts);
        }
    } else {
        lemma_row_size_take(schema, hs, counts, i);
        lemma_row_size_bounds(schema, hs, counts, i + 1);
        lemma_row_size_nonneg(schema.take(i), hs, counts);
    }
}

/// Row widths are nonnegative.
pub proof fn lemma_row_size_nonneg(schema: Seq<FieldType>, hs: u8, counts: Seq<u32>)
    ensures
        spec_row_size(schema, hs, counts) >= 0,
    decreases schema.len(),
{
    if schema.len() > 0 {
        lemma_row_size_nonneg(schema.drop_last(), hs, counts);
    }
}

/// The width in bytes of one row with the given field sequence.
pub fn row_size_of_schema(schema: &Vec<FieldType>, sz: &TableSizing) -> (r: usize)
    requires
        sz.wf(),
        schema@.len() <= 16,
    ensures
        r == spec_row_size(schema@, sz.heap_sizes, sz.counts@),
        r <= 64,
{
    let mut total: usize = 0;
    let mut i: usize = 0;
    proof {
        assert(schema@.take(0) =~= Seq::<FieldType>::empty());
    }
    while i < schema.len()
        invariant
            sz.wf(),
            schema@.len() <= 16,
            0 <= i <= schema@.len(),
            total == spec_row_size(schema@.take(i as int), sz.heap_sizes, sz.counts@),
            total <= 4 * i,
        decreases schema@.len() - i,
    {
        let w = field_size(schema[i], sz);
        proof {
            lemma_row_size_take(schema@, sz.heap_sizes, sz.counts@, i as int);
        }
        total = total + w;
        i = i + 1;
    }
    proof {
        assert(schema@.take(schema@.len() as int) =~= schema@);
    }
    total
}

/// The value of a field of the given type stored at `pos` in `s`, as a
/// 32-bit value (narrower fields zero-extend).
pub open spec fn spec_field_value(s: Seq<u8>, pos: int, ft: FieldType, hs: u8, counts: Seq<u32>) -> u32 {
    if spec_field_size(ft, hs, counts) == 1 {
        s[pos] as u32
    } else if spec_field_size(ft, hs, counts) == 2 {
        le_u16_at(s, pos) as u32
    } else {
        le_u32_at(s, pos) as u32
    }
}

/// The field values of one row with the given field sequence, stored at
/// `start` in `s`.
pub open spec fn spec_row_values(
    s: Seq<u8>,
    start: int,
    schema: Seq<FieldType>,
    hs: u8,
    counts: Seq<u32>,
) -> Seq<u32>
    decreases schema.len(),
{
    if schema.len() == 0 {
        Seq::empty()
    } else {
        spec_row_values(s, start, schema.drop_last(), hs, counts).push(
            spec_field_value(
                s,
                start + spec_row_size(schema.drop_last(), hs, counts),
                schema.last(),
                hs,
                counts,
            ),
        )
    }
}

/// A row's value sequence has one entry per schema field.
pub proof fn lemma_row_values_len(
    s: Seq<u8>,
    start: int,
    schema: Seq<FieldType>,
    hs: u8,
    counts: Seq<u32>,
)
    ensures
        spec_row_values(s, start, schema, hs, counts).len() == schema.len(),
    decreases schema.len(),
{
    if schema.len() > 0 {
        lemma_row_values_len(s, start, schema.drop_last(), hs, counts);
    }
}

/// Reads one field of the given type, zero-extending it to 32 bits.
pub fn read_field(c: &mut ByteStream, ft: FieldType, sz: &TableSizing) -> (r: Result<u32, Error>)
    requires
        old(c).wf(),
        sz.wf(),
    ensures
        final(c).wf(),
        final(c).buf() == old(c).buf(),
        old(c).pos() + spec_field_size(ft, sz.heap_sizes, sz.counts@) <= old(c).buf().len() ==> (
        r matches Ok(v) && v == spec_field_value(
            old(c).buf(),
            old(c).pos(),
            ft,
            sz.heap_sizes,
            sz.counts@,
        ) && final(c).pos() == old(c).pos() + spec_field_size(ft, sz.heap_sizes, sz.counts@)),
        old(c).pos() + spec_field_size(ft, sz.heap_sizes, sz.counts@) > old(c).buf().len() ==> (r
            == Err::<u32, Error>(Error::UnexpectedEndOfStream(old(c).buf().len() as usize))
            && final(c).pos() == old(c).pos()),
{
    match ft {
        FieldType::U8Field => match c.read_u8() {
            Ok(v) => Ok(v as u32),
            Err(e) => Err(e),
        },
        FieldType::U16Field => match c.read_u16() {
            Ok(v) => Ok(v as u32),
            Err(e) => Err(e),
        },
        FieldType::U32Field => c.read_u32(),
        FieldType::StrField => c.read_index_value(sz.str_index_size()),
        FieldType::GuidField => c.read_index_value(sz.guid_index_size()),
        FieldType::BlobField => c.read_index_value(sz.blob_index_size()),
        FieldType::TableField(t) => c.read_index_value(sz.simple_index_size(t)),
        FieldType::CodedField(k) => c.read_index_value(sz.coded_index_size(k)),
    }
}

/// Decodes one row: reads each schema field in order. Succeeds exactly
/// when a whole row lies before the buffer's end; on failure the position
/// is unchanged.
pub fn parse_row_values(c: &mut ByteStream, schema: &Vec<FieldType>, sz: &TableSizing) -> (r:
    Result<Vec<u32>, Error>)
    requires
        old(c).wf(),
        sz.wf(),
        schema@.len() <= 16,
    ensures
        final(c).wf(),
        final(c).buf() == old(c).buf(),
        old(c).pos() + spec_row_size(schema@, sz.heap_sizes, sz.counts@) <= old(c).buf().len()
            ==> (r matches Ok(v) && v@ == spec_row_values(
            old(c).buf(),
            old(c).pos(),
            schema@,
            sz.heap_sizes,
            sz.counts@,
        ) && final(c).pos() == old(c).pos() + spec_row_size(schema@, sz.heap_sizes, sz.counts@)),
        old(c).pos() + spec_row_size(schema@, sz.heap_sizes, sz.counts@) > old(c).buf().len()
            ==> (r == Err::<Vec<u32>, Error>(
            Error::UnexpectedEndOfStream(old(c).buf().len() as usize),
        ) && final(c).pos() == old(c).pos()),
{
    let row_width = row_size_of_schema(schema, sz);
    if row_width > c.remaining() {
        return Err(Error::UnexpectedEndOfStream(c.bytes().len()));
    }
    let ghost start = c.pos();
    let mut values: Vec<u32> = Vec::new();
    let mut i: usize = 0;
    proof {
        assert(schema@.take(0) =~= Seq::<FieldType>::empty());
        assert(values@ =~= spec_row_values(c.buf(), start, schema@.take(0), sz.heap_sizes, sz.counts@));
    }
    while i < schema.len()
        invariant
            c.wf(),
            sz.wf(),
            schema@.len() <= 16,
            0 <= i <= schema@.len(),
            c.buf() == old(c).buf(),
            start == old(c).pos(),
            start + spec_row_size(schema@, sz.heap_sizes, sz.counts@) <= c.buf().len(),
            c.pos() == start + spec_row_size(schema@.take(i as int), sz.heap_sizes, sz.counts@),
            values@ == spec_row_values(c.buf(), start, schema@.take(i as int), sz.heap_sizes, sz.counts@),
        decreases schema@.len() - i,
    {
        proof {
            lemma_row_size_take(schema@, sz.heap_sizes, sz.counts@, i as int);
            lemma_row_size_bounds(schema@, sz.heap_sizes, sz.counts@, i as int + 1);
            lemma_row_size_bounds(schema@, sz.heap_sizes, sz.counts@, i as int);
        }
        let v = match read_field(c, schema[i], sz) {
            Ok(v) => v,
            Err(e) => {
                proof {
                    assert(false);
                }
                return Err(e);
            },
        };
        values.push(v);
        proof {
            assert(schema@.take(i + 1).drop_last() =~= schema@.take(i as int));
            assert(values@ =~= spec_row_values(
                c.buf(),
                start,
                schema@.take(i + 1),
                sz.heap_sizes,
                sz.counts@,
            ));
        }
        i = i + 1;
    }
    proof {
        assert(schema@.take(schema@.len() as int) =~= schema@);
    }
    Ok(values)
}


/// Whether bit `id` of a 64-bit mask is set.
pub open spec fn bit_set(mask: u64, id: int) -> bool
    recommends
        0 <= id < 64,
{
    (mask >> (id as u64)) & 1 == 1
}

/// How many bits among `0..id` of a 64-bit mask are set.
pub open spec fn spec_bit_rank(mask: u64, id: int) -> int
    decreases id,
{
    if id <= 0 {
        0
    } else {
        spec_bit_rank(mask, id - 1) + if bit_set(mask, id - 1) {
            1int
        } else {
            0int
        }
    }
}

/// A bit rank lies between 0 and the position, and counting more bits
/// never counts fewer; a set bit strictly raises the count.
pub proof fn lemma_bit_rank_bounds(mask: u64, i: int, j: int)
    requires
        0 <= i <= j,
    ensures
        0 <= spec_bit_rank(mask, i) <= i,
        spec_bit_rank(mask, i) <= spec_bit_rank(mask, j) <= spec_bit_rank(mask, i) + (j - i),
        i < j && bit_set(mask, i) ==> spec_bit_rank(mask, i) + 1 <= spec_bit_rank(mask, j),
    decreases i + j,
{
    if i > 0 {
        lemma_bit_rank_bounds(mask, i - 1, i - 1);
    }
    if i < j {
        lemma_bit_rank_bounds(mask, i, j - 1);
    }
}

/// The row count of table `id`: read from the row-count vector where the
/// valid bit is set, 0 otherwise.
pub open spec fn spec_table_row_count(s: Seq<u8>, valid: u64, id: int) -> u32 {
    if bit_set(valid, id) {
        le_u32_at(s, 24 + 4 * spec_bit_rank(valid, id)) as u32
    } else {
        0u32
    }
}

/// The dense row-count array of a tables stream, keyed by table id.
pub open spec fn spec_counts_of(s: Seq<u8>, valid: u64) -> Seq<u32> {
    Seq::new(64, |id: int| spec_table_row_count(s, valid, id))
}

/// Where the table bodies start: right after the header and the row-count
/// vector.
pub open spec fn spec_bodies_start(valid: u64) -> int {
    24 + 4 * spec_bit_rank(valid, 64)
}

/// The offset within the tables stream at which table `id`'s body starts:
/// the bodies of all present tables with lower ids, concatenated in
/// ascending id order, precede it. `None` when a present lower table has
/// no schema, which makes every later body unlocatable.
pub open spec fn spec_layout_pos(s: Seq<u8>, id: int) -> Option<int>
    decreases id,
{
    let valid = le_u64_at(s, 8) as u64;
    if id <= 0 {
        Some(spec_bodies_start(valid))
    } else {
        match spec_layout_pos(s, id - 1) {
            None => None,
            Some(p) => {
                if !bit_set(valid, id - 1) {
                    Some(p)
                } else {
                    match spec_table_kind_of_id((id - 1) as u8) {
                        None => None,
                        Some(k) => match spec_table_schema(k) {
                            None => None,
                            Some(sch) => Some(
                                p + spec_table_row_count(s, valid, id - 1) * spec_row_size(
                                    sch,
                                    s[6],
                                    spec_counts_of(s, valid),
                                ),
                            ),
                        },
                    }
                }
            },
        }
    }
}

/// Whether a tables stream is well-formed enough to open: the 24-byte
/// header and the row-count vector lie within it, and every locatable
/// table body ends within it.
pub open spec fn spec_tables_stream_ok(s: Seq<u8>) -> bool {
    let valid = le_u64_at(s, 8) as u64;
    &&& s.len() >= 24
    &&& spec_bodies_start(valid) <= s.len()
    &&& forall|id: int|
        0 <= id < 64 && (#[trigger] spec_layout_pos(s, id + 1)) is Some ==> spec_layout_pos(
            s,
            id + 1,
        )->Some_0 <= s.len()
}

/// The parsed `#~` tables stream: its header fields, the dense row counts,
/// and the offset of every locatable table body.
#[derive(Debug)]
pub struct TableHeap<'a> {
    bytes: &'a [u8],
    major_version_field: u8,
    minor_version_field: u8,
    valid_mask: u64,
    sorted_mask: u64,
    sizing: TableSizing,
    offsets: Vec<usize>,
    locatable: Vec<bool>,
    blocker: Option<TableKind>,
}

impl<'a> TableHeap<'a> {
    /// The stream's bytes.
    pub closed spec fn src(self) -> Seq<u8> {
        self.bytes@
    }

    /// The 64-bit valid mask.
    pub closed spec fn spec_valid(self) -> u64 {
        self.valid_mask
    }

    /// The 64-bit sorted mask.
    pub closed spec fn spec_sorted(self) -> u64 {
        self.sorted_mask
    }

    /// The `heap_sizes` flag byte.
    pub closed spec fn spec_heap_sizes(self) -> u8 {
        self.sizing.heap_sizes
    }

    /// The dense row-count array, keyed by table id.
    pub closed spec fn spec_counts(self) -> Seq<u32> {
        self.sizing.counts@
    }

    /// The sizing record every width computation goes through.
    pub closed spec fn spec_sizing(self) -> TableSizing {
        self.sizing
    }

    /// Well-formedness: every stored field agrees with the stream's bytes,
    /// and every locatable table's body lies within them.
    pub closed spec fn wf(self) -> bool {
        &&& self.sizing.wf()
        &&& self.offsets@.len() == 64
        &&& self.locatable@.len() == 64
        &&& self.src().len() >= 24
        &&& self.major_version_field == self.src()[4]
        &&& self.minor_version_field == self.src()[5]
        &&& self.sizing.heap_sizes == self.src()[6]
        &&& self.valid_mask == le_u64_at(self.src(), 8) as u64
        &&& self.sorted_mask == le_u64_at(self.src(), 16) as u64
        &&& self.sizing.counts@ == spec_counts_of(self.src(), self.valid_mask)
        &&& spec_bodies_start(self.valid_mask) <= self.src().len()
        &&& forall|id: int|
            0 <= id < 64 ==> ((#[trigger] self.locatable@[id]) <==> (bit_set(self.valid_mask, id)
                && spec_layout_pos(self.src(), id + 1) is Some))
        &&& forall|id: int|
            0 <= id < 64 && #[trigger] self.locatable@[id] ==> (Some(self.offsets@[id] as int)
                == spec_layout_pos(self.src(), id) && spec_layout_pos(self.src(), id + 1)->Some_0
                <= self.src().len())
    }

    /// Opens a tables stream: reads the header, the row-count vector, and
    /// computes each table body's offset. Succeeds exactly when the header,
    /// the counts and every locatable body lie within the stream.
    pub fn new(bytes: &'a [u8]) -> (r: Result<TableHeap<'a>, Error>)
        ensures
            r is Ok <==> spec_tables_stream_ok(bytes@),
            r matches Ok(h) ==> {
                &&& h.wf()
                &&& h.src() == bytes@
                &&& h.spec_valid() == le_u64_at(bytes@, 8) as u64
                &&& h.spec_sorted() == le_u64_at(bytes@, 16) as u64
                &&& h.spec_heap_sizes() == bytes@[6]
                &&& h.spec_counts() == spec_counts_of(bytes@, le_u64_at(bytes@, 8) as u64)
            },
            r matches Err(e) ==> e == Error::UnexpectedEndOfStream(bytes@.len() as usize),
    {
        let len = bytes.len();
        let mut c = ByteStream::new(bytes);
        if c.skip(4).is_err() {
            return Err(Error::UnexpectedEndOfStream(len));
        }
        let major = match c.read_u8() {
            Ok(v) => v,
            Err(_) => { return Err(Error::UnexpectedEndOfStream(len)); },
        };
        let minor = match c.read_u8() {
            Ok(v) => v,
            Err(_) => { return Err(Error::UnexpectedEndOfStream(len)); },
        };
        let heap_sizes = match c.read_u8() {
            Ok(v) => v,
            Err(_) => { return Err(Error::UnexpectedEndOfStream(len)); },
        };
        if c.skip(1).is_err() {
            return Err(Error::UnexpectedEndOfStream(len));
        }
        let valid = match c.read_u64() {
            Ok(v) => v,
            Err(_) => { return Err(Error::UnexpectedEndOfStream(len)); },
        };
        let sorted = match c.read_u64() {
            Ok(v) => v,
            Err(_) => { return Err(Error::UnexpectedEndOfStream(len)); },
        };
        proof {
            assert(!spec_tables_stream_ok(bytes@) ==> bytes@.len() < 24 || spec_bodies_start(
                le_u64_at(bytes@, 8) as u64,
            ) > bytes@.len() || exists|id: int|
                0 <= id < 64 && (#[trigger] spec_layout_pos(bytes@, id + 1)) is Some
                    && spec_layout_pos(bytes@, id + 1)->Some_0 > bytes@.len());
        }

        // The row-count vector: one little-endian u32 per set valid bit,
        // in ascending table-id order.
        let mut counts: Vec<u32> = Vec::new();
        let mut id: usize = 0;
        while id < 64
            invariant
                c.wf(),
                c.buf() == bytes@,
                len == bytes@.len(),
                valid == le_u64_at(bytes@, 8) as u64,
                0 <= id <= 64,
                counts@.len() == id,
                c.pos() == 24 + 4 * spec_bit_rank(valid, id as int),
                forall|j: int|
                    0 <= j < id ==> counts@[j] == spec_table_row_count(bytes@, valid, j),
            decreases 64 - id,
        {
            proof {
                lemma_bit_rank_bounds(valid, id as int, 64);
            }
            if (valid >> (id as u64)) & 1 == 1 {
                let v = match c.read_u32() {
                    Ok(v) => v,
                    Err(_) => {
                        proof {
                            lemma_bit_rank_bounds(valid, id as int + 1, 64);
                        }
                        return Err(Error::UnexpectedEndOfStream(len));
                    },
                };
                counts.push(v);
            } else {
                counts.push(0);
            }
            id = id + 1;
        }
        let sizing = TableSizing { heap_sizes, counts };
        proof {
            assert(sizing.counts@ =~= spec_counts_of(bytes@, valid));
        }

        // Table bodies lie back to back after the row-count vector, in
        // ascending table-id order; a present table without a schema makes
        // everything after it unlocatable.
        let mut offsets: Vec<usize> = Vec::new();
        let mut locatable: Vec<bool> = Vec::new();
        let mut blocker: Option<TableKind> = None;
        let mut blocked = false;
        let mut pos: usize = c.position();
        proof {
            assert(spec_bodies_start(valid) <= bytes@.len());
        }
        let mut id2: usize = 0;
        while id2 < 64
            invariant
                sizing.wf(),
                sizing.heap_sizes == bytes@[6],
                len == bytes@.len(),
                bytes@.len() >= 24,
                valid == le_u64_at(bytes@, 8) as u64,
                sizing.counts@ == spec_counts_of(bytes@, valid),
                0 <= id2 <= 64,
                offsets@.len() == id2,
                locatable@.len() == id2,
                !blocked ==> Some(pos as int) == spec_layout_pos(bytes@, id2 as int),
                !blocked ==> pos <= len,
                blocked <==> spec_layout_pos(bytes@, id2 as int) is None,
                forall|j: int|
                    0 <= j <= id2 && (#[trigger] spec_layout_pos(bytes@, j)) is Some
                        ==> spec_layout_pos(bytes@, j)->Some_0 <= len,
                forall|j: int|
                    0 <= j < id2 ==> ((#[trigger] locatable@[j]) <==> (bit_set(valid, j)
                        && spec_layout_pos(bytes@, j + 1) is Some)),
                forall|j: int|
                    0 <= j < id2 && #[trigger] locatable@[j] ==> (Some(offsets@[j] as int)
                        == spec_layout_pos(bytes@, j) && spec_layout_pos(bytes@, j + 1)->Some_0
                        <= len),
            decreases 64 - id2,
        {
            let present = (valid >> (id2 as u64)) & 1 == 1;
            if !present || blocked {
                offsets.push(0);
                locatable.push(false);
            } else {
                match table_kind_of_id(id2 as u8) {
                    None => {
                        blocked = true;
                        offsets.push(0);
                        locatable.push(false);
                    },
                    Some(kind) => {
                        match table_schema(kind) {
                            None => {
                                blocked = true;
                                blocker = Some(kind);
                                offsets.push(0);
                                locatable.push(false);
                            },
                            Some(schema) => {
                                let w = row_size_of_schema(&schema, &sizing);
                                let cnt = sizing.counts[id2] as usize;
                                proof {
                                    assert(spec_counts_of(bytes@, valid)[id2 as int]
                                        == spec_table_row_count(bytes@, valid, id2 as int));
                                    assert(spec_layout_pos(bytes@, id2 as int + 1) == Some(
                                        pos + cnt * w,
                                    ));
                                }
                                let body = match cnt.checked_mul(w) {
                                    Some(b) => b,
                                    None => {
                                        proof {
                                            assert(spec_layout_pos(bytes@, id2 as int + 1)->Some_0
                                                > len);
                                        }
                                        return Err(Error::UnexpectedEndOfStream(len));
                                    },
                                };
                                let end = match pos.checked_add(body) {
                                    Some(e) => e,
                                    None => {
                                        proof {
                                            assert(spec_layout_pos(bytes@, id2 as int + 1)->Some_0
                                                > len);
                                        }
                                        return Err(Error::UnexpectedEndOfStream(len));
                                    },
                                };
                                if end > len {
                                    proof {
                                        assert(spec_layout_pos(bytes@, id2 as int + 1)->Some_0
                                            > len);
                                    }
                                    return Err(Error::UnexpectedEndOfStream(len));
                                }
                                offsets.push(pos);
                                locatable.push(true);
                                pos = end;
                            },
                        }
                    },
                }
            }
            id2 = id2 + 1;
        }
        Ok(TableHeap {
            bytes,
            major_version_field: major,
            minor_version_field: minor,
            valid_mask: valid,
            sorted_mask: sorted,
            sizing,
            offsets,
            locatable,
            blocker,
        })
    }

    /// The stream's major version byte.
    pub fn major_version(&self) -> (r: u8)
        requires
            self.wf(),
        ensures
            r == self.src()[4],
    {
        self.major_version_field
    }

    /// The stream's minor version byte.
    pub fn minor_version(&self) -> (r: u8)
        requires
            self.wf(),
        ensures
            r == self.src()[5],
    {
        self.minor_version_field
    }

    /// The `heap_sizes` flag byte.
    pub fn heap_sizes(&self) -> (r: u8)
        requires
            self.wf(),
        ensures
            r == self.spec_heap_sizes(),
    {
        self.sizing.heap_sizes
    }

    /// The 64-bit valid mask: which tables the image holds.
    pub fn valid(&self) -> (r: u64)
        ensures
            r == self.spec_valid(),
    {
        self.valid_mask
    }

    /// The 64-bit sorted mask.
    pub fn sorted(&self) -> (r: u64)
        ensures
            r == self.spec_sorted(),
    {
        self.sorted_mask
    }

    /// The sizing record: the `heap_sizes` byte and the dense row counts.
    pub fn sizing(&self) -> (r: &TableSizing)
        requires
            self.wf(),
        ensures
            *r == self.spec_sizing(),
            r.wf(),
            r.heap_sizes == self.spec_heap_sizes(),
            r.counts@ == self.spec_counts(),
    {
        &self.sizing
    }

    /// Whether the image holds the named table: a bit test on the valid
    /// mask.
    pub fn has_table(&self, kind: TableKind) -> (r: bool)
        requires
            self.wf(),
        ensures
            r == bit_set(self.spec_valid(), table_kind_id(kind) as int),
    {
        (self.valid_mask >> (kind.id() as u64)) & 1 == 1
    }

    /// How many tables the image holds: the number of set valid bits.
    pub fn table_count(&self) -> (r: usize)
        requires
            self.wf(),
        ensures
            r == spec_bit_rank(self.spec_valid(), 64),
    {
        let mut n: usize = 0;
        let mut id: usize = 0;
        while id < 64
            invariant
                0 <= id <= 64,
                n == spec_bit_rank(self.spec_valid(), id as int),
            decreases 64 - id,
        {
            proof {
                lemma_bit_rank_bounds(self.spec_valid(), id as int, 64);
            }
            if (self.valid_mask >> (id as u64)) & 1 == 1 {
                n = n + 1;
            }
            id = id + 1;
        }
        n
    }

    /// The row count of the named table; 0 where it is absent.
    pub fn row_count(&self, kind: TableKind) -> (r: usize)
        requires
            self.wf(),
        ensures
            r == self.spec_counts()[table_kind_id(kind) as int],
    {
        self.sizing.counts[kind.id() as usize] as usize
    }

    /// The width in bytes of one row of the named table under this
    /// stream's heap widths and row counts, or `Unsupported` where the
    /// decoder has no schema for the kind.
    pub fn row_size(&self, kind: TableKind) -> (r: Result<usize, Error>)
        requires
            self.wf(),
        ensures
            spec_table_schema(kind) is None ==> r == Err::<usize, Error>(Error::Unsupported(kind)),
            spec_table_schema(kind) matches Some(sch) ==> (r matches Ok(w) && w == spec_row_size(
                sch,
                self.spec_heap_sizes(),
                self.spec_counts(),
            )),
    {
        match table_schema(kind) {
            None => Err(Error::Unsupported(kind)),
            Some(schema) => Ok(row_size_of_schema(&schema, &self.sizing)),
        }
    }

    /// The stored width of a simple index into the named table.
    pub fn idx_size(&self, kind: TableKind) -> (r: IndexSize)
        requires
            self.wf(),
        ensures
            (r == IndexSize::Fat) <==> simple_index_is_fat(kind, self.spec_counts()),
    {
        self.sizing.simple_index_size(kind)
    }

    /// A borrowed view of the named table, decoding rows on demand:
    /// `Ok(None)` where the image does not hold it, `Unsupported` where
    /// it is present but the decoder has no schema for it, or an earlier
    /// present table without a schema hides its offset.
    pub fn get_table(&self, kind: TableKind) -> (r: Result<Option<TableView<'_>>, Error>)
        requires
            self.wf(),
        ensures
            ({
                let id = table_kind_id(kind) as int;
                &&& !bit_set(self.spec_valid(), id) ==> (r matches Ok(v) && v is None)
                &&& bit_set(self.spec_valid(), id) && spec_table_schema(kind) is None ==> r
                    == Err::<Option<TableView>, Error>(Error::Unsupported(kind))
                &&& spec_table_schema(kind) is Some && bit_set(self.spec_valid(), id)
                    && spec_layout_pos(self.src(), id + 1) is Some ==> (r matches Ok(v)
                    && v matches Some(view) && view.wf() && view.spec_kind() == kind
                    && view.spec_row_count() == self.spec_counts()[id]
                    && view.spec_heap_sizes() == self.spec_heap_sizes() && view.spec_counts()
                    == self.spec_counts() && view.src() == self.src().subrange(
                    spec_layout_pos(self.src(), id)->Some_0,
                    spec_layout_pos(self.src(), id + 1)->Some_0,
                ))
                &&& spec_table_schema(kind) is Some && bit_set(self.spec_valid(), id)
                    && spec_layout_pos(self.src(), id + 1) is None ==> (r matches Err(e)
                    && e matches Error::Unsupported(_))
            }),
    {
        let id = kind.id();
        if !self.has_table(kind) {
            return Ok(None);
        }
        let schema = match table_schema(kind) {
            None => {
                return Err(Error::Unsupported(kind));
            },
            Some(s) => s,
        };
        proof {
            crate::kinds::lemma_table_kind_id_inverse();
        }
        if !self.locatable[id as usize] {
            let b = match self.blocker {
                Some(k) => k,
                None => kind,
            };
            return Err(Error::Unsupported(b));
        }
        let offset = self.offsets[id as usize];
        let w = row_size_of_schema(&schema, &self.sizing);
        let cnt = self.sizing.counts[id as usize] as usize;
        let len = self.bytes.len();
        proof {
            assert(self.spec_counts()[id as int] == spec_table_row_count(
                self.src(),
                self.spec_valid(),
                id as int,
            ));
            assert(spec_layout_pos(self.src(), id as int + 1) == Some(offset + cnt * w));
            lemma_row_size_bounds(schema@, self.spec_heap_sizes(), self.spec_counts(), 0);
        }
        let body = cnt * w;
        let s = slice_subrange(self.bytes, offset, offset + body);
        Ok(Some(TableView {
            bytes: s,
            kind,
            row_count: cnt,
            row_size: w,
            schema,
            sizing: &self.sizing,
        }))
    }
}

/// A borrowed view of one table: its body slice and everything needed to
/// decode a row.
#[derive(Debug)]
pub struct TableView<'a> {
    bytes: &'a [u8],
    kind: TableKind,
    row_count: usize,
    row_size: usize,
    schema: Vec<FieldType>,
    sizing: &'a TableSizing,
}

impl<'a> TableView<'a> {
    /// The table body's bytes.
    pub closed spec fn src(self) -> Seq<u8> {
        self.bytes@
    }

    /// The table's kind.
    pub closed spec fn spec_kind(self) -> TableKind {
        self.kind
    }

    /// The table's row count.
    pub closed spec fn spec_row_count(self) -> int {
        self.row_count as int
    }

    /// The `heap_sizes` byte the row decode uses.
    pub closed spec fn spec_heap_sizes(self) -> u8 {
        self.sizing.heap_sizes
    }

    /// The dense row-count array the row decode uses.
    pub closed spec fn spec_counts(self) -> Seq<u32> {
        self.sizing.counts@
    }

    /// The width of one row of this table.
    pub open spec fn spec_row_size(self) -> int {
        spec_row_size(
            spec_table_schema(self.spec_kind())->Some_0,
            self.spec_heap_sizes(),
            self.spec_counts(),
        )
    }

    /// Well-formedness: the schema is the kind's, the row width follows
    /// from it, and the body holds exactly `row_count` rows.
    pub closed spec fn wf(self) -> bool {
        &&& self.sizing.wf()
        &&& spec_table_schema(self.kind) == Some(self.schema@)
        &&& self.schema@.len() <= 16
        &&& self.row_size == self.spec_row_size()
        &&& self.row_size >= 1
        &&& self.row_count <= u32::MAX
        &&& self.bytes@.len() == self.row_count * self.row_size
    }

    /// The number of rows: the body holds exactly this many rows of
    /// [`TableView::row_size`] bytes each.
    pub fn len(&self) -> (r: usize)
        requires
            self.wf(),
        ensures
            r == self.spec_row_count(),
            r * self.spec_row_size() == self.src().len(),
    {
        self.row_count
    }

    /// The width in bytes of one row.
    pub fn row_size(&self) -> (r: usize)
        requires
            self.wf(),
        ensures
            r == self.spec_row_size(),
    {
        self.row_size
    }

    /// The table's kind.
    pub fn kind(&self) -> (r: TableKind)
        ensures
            r == self.spec_kind(),
    {
        self.kind
    }

    /// Decodes every row in order into its field values.
    pub fn rows(&self) -> (r: Vec<Vec<u32>>)
        requires
            self.wf(),
        ensures
            r@.len() == self.spec_row_count(),
            forall|i: int|
                0 <= i < r@.len() ==> (#[trigger] r@[i])@ == spec_row_values(
                    self.src(),
                    i * self.spec_row_size(),
                    spec_table_schema(self.spec_kind())->Some_0,
                    self.spec_heap_sizes(),
                    self.spec_counts(),
                ),
    {
        let n = self.row_count;
        let blen = self.bytes.len();
        let mut out: Vec<Vec<u32>> = Vec::new();
        let mut i: usize = 0;
        while i < n
            invariant
                self.wf(),
                blen == self.src().len(),
                n == self.spec_row_count(),
                n == self.row_count,
                0 <= i <= n,
                out@.len() == i,
                forall|j: int|
                    0 <= j < i ==> (#[trigger] out@[j])@ == spec_row_values(
                        self.src(),
                        j * self.spec_row_size(),
                        spec_table_schema(self.spec_kind())->Some_0,
                        self.spec_heap_sizes(),
                        self.spec_counts(),
                    ),
            decreases n - i,
        {
            proof {
                assert(i + 1 <= u32::MAX);
            }
            let vals = match self.get(TableIndex((i + 1) as u32)) {
                Ok(v) => v,
                Err(_) => {
                    proof {
                        assert(false);
                    }
                    return out;
                },
            };
            out.push(vals);
            i = i + 1;
        }
        out
    }

    /// Decodes the row with the given 1-based number into its field
    /// values; row numbers 0 and past the row count are out of bounds.
    pub fn get(&self, index: TableIndex) -> (r: Result<Vec<u32>, Error>)
        requires
            self.wf(),
        ensures
            1 <= index.0 <= self.spec_row_count() ==> (r matches Ok(vals) && vals@
                == spec_row_values(
                self.src(),
                (index.0 - 1) * self.spec_row_size(),
                spec_table_schema(self.spec_kind())->Some_0,
                self.spec_heap_sizes(),
                self.spec_counts(),
            )),
            !(1 <= index.0 <= self.spec_row_count()) ==> r == Err::<Vec<u32>, Error>(
                Error::OffsetOutOfBounds(index.0 as usize),
            ),
    {
        let row = index.0 as usize;
        if row == 0 || row > self.row_count {
            return Err(Error::OffsetOutOfBounds(index.0 as usize));
        }
        let blen = self.bytes.len();
        proof {
            assert((row - 1) * self.spec_row_size() + self.spec_row_size() <= self.row_count
                * self.spec_row_size()) by (nonlinear_arith)
                requires
                    1 <= row <= self.row_count,
                    self.spec_row_size() >= 1,
            ;
            assert((row - 1) * self.spec_row_size() >= 0) by (nonlinear_arith)
                requires
                    1 <= row,
                    self.spec_row_size() >= 1,
            ;
        }
        let start = (row - 1) * self.row_size;
        let mut c = ByteStream::new(self.bytes);
        match c.seek(start) {
            Ok(_) => {},
            Err(_) => {
                proof {
                    assert(false);
                }
                return Err(Error::OffsetOutOfBounds(index.0 as usize));
            },
        }
        match parse_row_values(&mut c, &self.schema, self.sizing) {
            Ok(vals) => Ok(vals),
            Err(e) => {
                proof {
                    assert(false);
                }
                Err(e)
            },
        }
    }
}


impl CodedIndex {
    /// The stored width of a coded index of the given kind under the
    /// image's row counts: 4 bytes when some table of the kind's set
    /// reaches `2 ^ (16 - bits(kind))` rows, else 2.
    pub fn get_size(kind: CodedIndexKind, tables_heap: &TableHeap) -> (r: IndexSize)
        requires
            tables_heap.wf(),
        ensures
            (r == IndexSize::Fat) <==> coded_index_is_fat(kind, tables_heap.spec_counts()),
            (r == IndexSize::Slim) <==> !coded_index_is_fat(kind, tables_heap.spec_counts()),
    {
        coded_index_size_from_counts(kind, &tables_heap.sizing.counts)
    }
}


/// Layout positions up to the last schema-bearing id are always defined:
/// every table id below the debug range has a schema, so no body there
/// can be hidden by an unknown kind.
pub proof fn lemma_layout_defined_low(s: Seq<u8>, id: int)
    requires
        0 <= id <= 0x2D,
    ensures
        spec_layout_pos(s, id) is Some,
    decreases id,
{
    if id > 0 {
        lemma_layout_defined_low(s, id - 1);
        assert(spec_table_kind_of_id((id - 1) as u8) is Some && spec_table_schema(
            spec_table_kind_of_id((id - 1) as u8)->Some_0,
        ) is Some) by {
            crate::kinds::lemma_table_kind_id_inverse();
        }
    }
}

} // verus!
