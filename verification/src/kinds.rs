//! The closed enumerations of the metadata format: table kinds, heap kinds,
//! token kinds, coded-index kinds and the two stored index widths.

use vstd::prelude::*;

verus! {

/// The metadata table kinds, in the canonical ECMA-335 numbering
/// (see [`table_kind_id`] for the id of each kind).
#[derive(Debug, Copy, Clone, PartialEq, Eq, Structural)]
pub enum TableKind {
    Module,
    TypeRef,
    TypeDef,
    FieldPtr,
    Field,
    MethodPtr,
    MethodDef,
    ParamPtr,
    Param,
    InterfaceImpl,
    MemberRef,
    Constant,
    CustomAttribute,
    FieldMarshal,
    DeclSecurity,
    ClassLayout,
    FieldLayout,
    StandAloneSig,
    EventMap,
    EventPtr,
    Event,
    PropertyMap,
    PropertyPtr,
    Property,
    MethodSemantics,
    MethodImpl,
    ModuleRef,
    TypeSpec,
    ImplMap,
    FieldRVA,
    EncLog,
    EncMap,
    Assembly,
    AssemblyProcessor,
    AssemblyOS,
    AssemblyRef,
    AssemblyRefProcessor,
    AssemblyRefOS,
    File,
    ExportedType,
    ManifestResource,
    NestedClass,
    GenericParam,
    MethodSpec,
    GenericParamConstraint,
    Document,
    MethodDebugInformation,
    LocalScope,
    LocalVariable,
    LocalConstant,
    ImportScope,
    StateMachineMethod,
    CustomDebugInformation,
}

/// The table id of a kind: its bit position in the valid mask of the
/// tables stream, per the ECMA-335 canonical assignment.
pub open spec fn table_kind_id(k: TableKind) -> u8 {
    match k {
        TableKind::Module => 0x00,
        TableKind::TypeRef => 0x01,
        TableKind::TypeDef => 0x02,
        TableKind::FieldPtr => 0x03,
        TableKind::Field => 0x04,
        TableKind::MethodPtr => 0x05,
        TableKind::MethodDef => 0x06,
        TableKind::ParamPtr => 0x07,
        TableKind::Param => 0x08,
        TableKind::InterfaceImpl => 0x09,
        TableKind::MemberRef => 0x0a,
        TableKind::Constant => 0x0b,
        TableKind::CustomAttribute => 0x0c,
        TableKind::FieldMarshal => 0x0d,
        TableKind::DeclSecurity => 0x0e,
        TableKind::ClassLayout => 0x0f,
        TableKind::FieldLayout => 0x10,
        TableKind::StandAloneSig => 0x11,
        TableKind::EventMap => 0x12,
        TableKind::EventPtr => 0x13,
        TableKind::Event => 0x14,
        TableKind::PropertyMap => 0x15,
        TableKind::PropertyPtr => 0x16,
        TableKind::Property => 0x17,
        TableKind::MethodSemantics => 0x18,
        TableKind::MethodImpl => 0x19,
        TableKind::ModuleRef => 0x1a,
        TableKind::TypeSpec => 0x1b,
        TableKind::ImplMap => 0x1c,
        TableKind::FieldRVA => 0x1d,
        TableKind::EncLog => 0x1e,
        TableKind::EncMap => 0x1f,
        TableKind::Assembly => 0x20,
        TableKind::AssemblyProcessor => 0x21,
        TableKind::AssemblyOS => 0x22,
        TableKind::AssemblyRef => 0x23,
        TableKind::AssemblyRefProcessor => 0x24,
        TableKind::AssemblyRefOS => 0x25,
        TableKind::File => 0x26,
        TableKind::ExportedType => 0x27,
        TableKind::ManifestResource => 0x28,
        TableKind::NestedClass => 0x29,
        TableKind::GenericParam => 0x2a,
        TableKind::MethodSpec => 0x2b,
        TableKind::GenericParamConstraint => 0x2c,
        TableKind::Document => 0x30,
        TableKind::MethodDebugInformation => 0x31,
        TableKind::LocalScope => 0x32,
        TableKind::LocalVariable => 0x33,
        TableKind::LocalConstant => 0x34,
        TableKind::ImportScope => 0x35,
        TableKind::StateMachineMethod => 0x36,
        TableKind::CustomDebugInformation => 0x37,
    }
}

/// The kind whose table id is `id`, if any id in `0..64` is so assigned.
pub open spec fn spec_table_kind_of_id(id: u8) -> Option<TableKind> {
    match id {
        0x00u8 => Some(TableKind::Module),
        0x01u8 => Some(TableKind::TypeRef),
        0x02u8 => Some(TableKind::TypeDef),
        0x03u8 => Some(TableKind::FieldPtr),
        0x04u8 => Some(TableKind::Field),
        0x05u8 => Some(TableKind::MethodPtr),
        0x06u8 => Some(TableKind::MethodDef),
        0x07u8 => Some(TableKind::ParamPtr),
        0x08u8 => Some(TableKind::Param),
        0x09u8 => Some(TableKind::InterfaceImpl),
        0x0au8 => Some(TableKind::MemberRef),
        0x0bu8 => Some(TableKind::Constant),
        0x0cu8 => Some(TableKind::CustomAttribute),
        0x0du8 => Some(TableKind::FieldMarshal),
        0x0eu8 => Some(TableKind::DeclSecurity),
        0x0fu8 => Some(TableKind::ClassLayout),
        0x10u8 => Some(TableKind::FieldLayout),
        0x11u8 => Some(TableKind::StandAloneSig),
        0x12u8 => Some(TableKind::EventMap),
        0x13u8 => Some(TableKind::EventPtr),
        0x14u8 => Some(TableKind::Event),
        0x15u8 => Some(TableKind::PropertyMap),
        0x16u8 => Some(TableKind::PropertyPtr),
        0x17u8 => Some(TableKind::Property),
        0x18u8 => Some(TableKind::MethodSemantics),
        0x19u8 => Some(TableKind::MethodImpl),
        0x1au8 => Some(TableKind::ModuleRef),
        0x1bu8 => Some(TableKind::TypeSpec),
        0x1cu8 => Some(TableKind::ImplMap),
        0x1du8 => Some(TableKind::FieldRVA),
        0x1eu8 => Some(TableKind::EncLog),
        0x1fu8 => Some(TableKind::EncMap),
        0x20u8 => Some(TableKind::Assembly),
        0x21u8 => Some(TableKind::AssemblyProcessor),
        0x22u8 => Some(TableKind::AssemblyOS),
        0x23u8 => Some(TableKind::AssemblyRef),
        0x24u8 => Some(TableKind::AssemblyRefProcessor),
        0x25u8 => Some(TableKind::AssemblyRefOS),
        0x26u8 => Some(TableKind::File),
        0x27u8 => Some(TableKind::ExportedType),
        0x28u8 => Some(TableKind::ManifestResource),
        0x29u8 => Some(TableKind::NestedClass),
        0x2au8 => Some(TableKind::GenericParam),
        0x2bu8 => Some(TableKind::MethodSpec),
        0x2cu8 => Some(TableKind::GenericParamConstraint),
        0x30u8 => Some(TableKind::Document),
        0x31u8 => Some(TableKind::MethodDebugInformation),
        0x32u8 => Some(TableKind::LocalScope),
        0x33u8 => Some(TableKind::LocalVariable),
        0x34u8 => Some(TableKind::LocalConstant),
        0x35u8 => Some(TableKind::ImportScope),
        0x36u8 => Some(TableKind::StateMachineMethod),
        0x37u8 => Some(TableKind::CustomDebugInformation),
        _ => None,
    }
}

impl TableKind {
    /// The table id of this kind (its bit position in the valid mask).
    pub fn id(self) -> (r: u8)
        ensures
            r == table_kind_id(self),
    {
        match self {
            TableKind::Module => 0x00,
            TableKind::TypeRef => 0x01,
            TableKind::TypeDef => 0x02,
            TableKind::FieldPtr => 0x03,
            TableKind::Field => 0x04,
            TableKind::MethodPtr => 0x05,
            TableKind::MethodDef => 0x06,
            TableKind::ParamPtr => 0x07,
            TableKind::Param => 0x08,
            TableKind::InterfaceImpl => 0x09,
            TableKind::MemberRef => 0x0a,
            TableKind::Constant => 0x0b,
            TableKind::CustomAttribute => 0x0c,
            TableKind::FieldMarshal => 0x0d,
            TableKind::DeclSecurity => 0x0e,
            TableKind::ClassLayout => 0x0f,
            TableKind::FieldLayout => 0x10,
            TableKind::StandAloneSig => 0x11,
            TableKind::EventMap => 0x12,
            TableKind::EventPtr => 0x13,
            TableKind::Event => 0x14,
            TableKind::PropertyMap => 0x15,
            TableKind::PropertyPtr => 0x16,
            TableKind::Property => 0x17,
            TableKind::MethodSemantics => 0x18,
            TableKind::MethodImpl => 0x19,
            TableKind::ModuleRef => 0x1a,
            TableKind::TypeSpec => 0x1b,
            TableKind::ImplMap => 0x1c,
            TableKind::FieldRVA => 0x1d,
            TableKind::EncLog => 0x1e,
            TableKind::EncMap => 0x1f,
            TableKind::Assembly => 0x20,
            TableKind::AssemblyProcessor => 0x21,
            TableKind::AssemblyOS => 0x22,
            TableKind::AssemblyRef => 0x23,
            TableKind::AssemblyRefProcessor => 0x24,
            TableKind::AssemblyRefOS => 0x25,
            TableKind::File => 0x26,
            TableKind::ExportedType => 0x27,
            TableKind::ManifestResource => 0x28,
            TableKind::NestedClass => 0x29,
            TableKind::GenericParam => 0x2a,
            TableKind::MethodSpec => 0x2b,
            TableKind::GenericParamConstraint => 0x2c,
            TableKind::Document => 0x30,
            TableKind::MethodDebugInformation => 0x31,
            TableKind::LocalScope => 0x32,
            TableKind::LocalVariable => 0x33,
            TableKind::LocalConstant => 0x34,
            TableKind::ImportScope => 0x35,
            TableKind::StateMachineMethod => 0x36,
            TableKind::CustomDebugInformation => 0x37,
        }
    }
}

/// The kind whose table id is `id`, or `None` for an unassigned id.
pub fn table_kind_of_id(id: u8) -> (r: Option<TableKind>)
    ensures
        r == spec_table_kind_of_id(id),
{
    match id {
        0x00u8 => Some(TableKind::Module),
        0x01u8 => Some(TableKind::TypeRef),
        0x02u8 => Some(TableKind::TypeDef),
        0x03u8 => Some(TableKind::FieldPtr),
        0x04u8 => Some(TableKind::Field),
        0x05u8 => Some(TableKind::MethodPtr),
        0x06u8 => Some(TableKind::MethodDef),
        0x07u8 => Some(TableKind::ParamPtr),
        0x08u8 => Some(TableKind::Param),
        0x09u8 => Some(TableKind::InterfaceImpl),
        0x0au8 => Some(TableKind::MemberRef),
        0x0bu8 => Some(TableKind::Constant),
        0x0cu8 => Some(TableKind::CustomAttribute),
        0x0du8 => Some(TableKind::FieldMarshal),
        0x0eu8 => Some(TableKind::DeclSecurity),
        0x0fu8 => Some(TableKind::ClassLayout),
        0x10u8 => Some(TableKind::FieldLayout),
        0x11u8 => Some(TableKind::StandAloneSig),
        0x12u8 => Some(TableKind::EventMap),
        0x13u8 => Some(TableKind::EventPtr),
        0x14u8 => Some(TableKind::Event),
        0x15u8 => Some(TableKind::PropertyMap),
        0x16u8 => Some(TableKind::PropertyPtr),
        0x17u8 => Some(TableKind::Property),
        0x18u8 => Some(TableKind::MethodSemantics),
        0x19u8 => Some(TableKind::MethodImpl),
        0x1au8 => Some(TableKind::ModuleRef),
        0x1bu8 => Some(TableKind::TypeSpec),
        0x1cu8 => Some(TableKind::ImplMap),
        0x1du8 => Some(TableKind::FieldRVA),
        0x1eu8 => Some(TableKind::EncLog),
        0x1fu8 => Some(TableKind::EncMap),
        0x20u8 => Some(TableKind::Assembly),
        0x21u8 => Some(TableKind::AssemblyProcessor),
        0x22u8 => Some(TableKind::AssemblyOS),
        0x23u8 => Some(TableKind::AssemblyRef),
        0x24u8 => Some(TableKind::AssemblyRefProcessor),
        0x25u8 => Some(TableKind::AssemblyRefOS),
        0x26u8 => Some(TableKind::File),
        0x27u8 => Some(TableKind::ExportedType),
        0x28u8 => Some(TableKind::ManifestResource),
        0x29u8 => Some(TableKind::NestedClass),
        0x2au8 => Some(TableKind::GenericParam),
        0x2bu8 => Some(TableKind::MethodSpec),
        0x2cu8 => Some(TableKind::GenericParamConstraint),
        0x30u8 => Some(TableKind::Document),
        0x31u8 => Some(TableKind::MethodDebugInformation),
        0x32u8 => Some(TableKind::LocalScope),
        0x33u8 => Some(TableKind::LocalVariable),
        0x34u8 => Some(TableKind::LocalConstant),
        0x35u8 => Some(TableKind::ImportScope),
        0x36u8 => Some(TableKind::StateMachineMethod),
        0x37u8 => Some(TableKind::CustomDebugInformation),
        _ => None,
    }
}

/// The two mappings between kinds and table ids are mutually inverse.
pub proof fn lemma_table_kind_id_inverse()
    ensures
        forall|k: TableKind| spec_table_kind_of_id(#[trigger] table_kind_id(k)) == Some(k),
        forall|id: u8, k: TableKind|
            spec_table_kind_of_id(id) == Some(k) ==> table_kind_id(k) == id,
{
}

/// The five named streams of the metadata root.
#[derive(Debug, Copy, Clone, PartialEq, Eq, Structural)]
pub enum HeapKind {
    /// `#Strings`: concatenated NUL-terminated UTF-8 strings.
    Strings,
    /// `#US`: length-prefixed user strings.
    UserStrings,
    /// `#Blob`: length-prefixed byte sequences.
    Blob,
    /// `#GUID`: packed 16-byte GUIDs.
    Guid,
    /// `#~`: the tables stream.
    Tables,
}

/// The stream name of a heap kind, as a byte sequence.
pub open spec fn heap_kind_name(k: HeapKind) -> Seq<u8> {
    match k {
        HeapKind::Strings => seq![0x23u8, 0x53u8, 0x74u8, 0x72u8, 0x69u8, 0x6eu8, 0x67u8, 0x73u8],
        HeapKind::UserStrings => seq![0x23u8, 0x55u8, 0x53u8],
        HeapKind::Blob => seq![0x23u8, 0x42u8, 0x6cu8, 0x6fu8, 0x62u8],
        HeapKind::Guid => seq![0x23u8, 0x47u8, 0x55u8, 0x49u8, 0x44u8],
        HeapKind::Tables => seq![0x23u8, 0x7eu8],
    }
}

impl HeapKind {
    /// The stream name of this heap kind (`"#Strings"`, `"#US"`, `"#Blob"`,
    /// `"#GUID"` or `"#~"`) as bytes.
    pub fn name_bytes(self) -> (r: Vec<u8>)
        ensures
            r@ == heap_kind_name(self),
    {
        let r: Vec<u8> = match self {
            HeapKind::Strings => vec![0x23u8, 0x53u8, 0x74u8, 0x72u8, 0x69u8, 0x6eu8, 0x67u8, 0x73u8],
            HeapKind::UserStrings => vec![0x23u8, 0x55u8, 0x53u8],
            HeapKind::Blob => vec![0x23u8, 0x42u8, 0x6cu8, 0x6fu8, 0x62u8],
            HeapKind::Guid => vec![0x23u8, 0x47u8, 0x55u8, 0x49u8, 0x44u8],
            HeapKind::Tables => vec![0x23u8, 0x7eu8],
        };
        proof {
            assert(r@ =~= heap_kind_name(self));
        }
        r
    }
}

/// The kinds of metadata tokens: the table a token refers to, plus the
/// pseudo-kind for user-string tokens.
#[derive(Debug, Copy, Clone, PartialEq, Eq, Structural)]
pub enum MetadataTokenKind {
    Module,
    TypeRef,
    TypeDef,
    Field,
    Method,
    Param,
    InterfaceImpl,
    MemberRef,
    CustomAttribute,
    Permission,
    Signature,
    Event,
    Property,
    ModuleRef,
    TypeSpec,
    Assembly,
    AssemblyRef,
    File,
    ExportedType,
    ManifestResource,
    GenericParam,
    MethodSpec,
    GenericParamConstraint,
    Document,
    MethodDebugInformation,
    LocalScope,
    LocalVariable,
    LocalConstant,
    ImportScope,
    StateMachineMethod,
    CustomDebugInformation,
    String,
}

/// The tag byte of a token kind: the high byte of every token of that kind.
pub open spec fn token_kind_tag(k: MetadataTokenKind) -> u8 {
    match k {
        MetadataTokenKind::Module => 0x00,
        MetadataTokenKind::TypeRef => 0x01,
        MetadataTokenKind::TypeDef => 0x02,
        MetadataTokenKind::Field => 0x04,
        MetadataTokenKind::Method => 0x06,
        MetadataTokenKind::Param => 0x08,
        MetadataTokenKind::InterfaceImpl => 0x09,
        MetadataTokenKind::MemberRef => 0x0a,
        MetadataTokenKind::CustomAttribute => 0x0c,
        MetadataTokenKind::Permission => 0x0e,
        MetadataTokenKind::Signature => 0x11,
        MetadataTokenKind::Event => 0x14,
        MetadataTokenKind::Property => 0x17,
        MetadataTokenKind::ModuleRef => 0x1a,
        MetadataTokenKind::TypeSpec => 0x1b,
        MetadataTokenKind::Assembly => 0x20,
        MetadataTokenKind::AssemblyRef => 0x23,
        MetadataTokenKind::File => 0x26,
        MetadataTokenKind::ExportedType => 0x27,
        MetadataTokenKind::ManifestResource => 0x28,
        MetadataTokenKind::GenericParam => 0x2a,
        MetadataTokenKind::MethodSpec => 0x2b,
        MetadataTokenKind::GenericParamConstraint => 0x2c,
        MetadataTokenKind::Document => 0x30,
        MetadataTokenKind::MethodDebugInformation => 0x31,
        MetadataTokenKind::LocalScope => 0x32,
        MetadataTokenKind::LocalVariable => 0x33,
        MetadataTokenKind::LocalConstant => 0x34,
        MetadataTokenKind::ImportScope => 0x35,
        MetadataTokenKind::StateMachineMethod => 0x36,
        MetadataTokenKind::CustomDebugInformation => 0x37,
        MetadataTokenKind::String => 0x70,
    }
}

impl MetadataTokenKind {
    /// The tag byte of this token kind.
    pub fn tag(self) -> (r: u8)
        ensures
            r == token_kind_tag(self),
    {
        match self {
            MetadataTokenKind::Module => 0x00,
            MetadataTokenKind::TypeRef => 0x01,
            MetadataTokenKind::TypeDef => 0x02,
            MetadataTokenKind::Field => 0x04,
            MetadataTokenKind::Method => 0x06,
            MetadataTokenKind::Param => 0x08,
            MetadataTokenKind::InterfaceImpl => 0x09,
            MetadataTokenKind::MemberRef => 0x0a,
            MetadataTokenKind::CustomAttribute => 0x0c,
            MetadataTokenKind::Permission => 0x0e,
            MetadataTokenKind::Signature => 0x11,
            MetadataTokenKind::Event => 0x14,
            MetadataTokenKind::Property => 0x17,
            MetadataTokenKind::ModuleRef => 0x1a,
            MetadataTokenKind::TypeSpec => 0x1b,
            MetadataTokenKind::Assembly => 0x20,
            MetadataTokenKind::AssemblyRef => 0x23,
            MetadataTokenKind::File => 0x26,
            MetadataTokenKind::ExportedType => 0x27,
            MetadataTokenKind::ManifestResource => 0x28,
            MetadataTokenKind::GenericParam => 0x2a,
            MetadataTokenKind::MethodSpec => 0x2b,
            MetadataTokenKind::GenericParamConstraint => 0x2c,
            MetadataTokenKind::Document => 0x30,
            MetadataTokenKind::MethodDebugInformation => 0x31,
            MetadataTokenKind::LocalScope => 0x32,
            MetadataTokenKind::LocalVariable => 0x33,
            MetadataTokenKind::LocalConstant => 0x34,
            MetadataTokenKind::ImportScope => 0x35,
            MetadataTokenKind::StateMachineMethod => 0x36,
            MetadataTokenKind::CustomDebugInformation => 0x37,
            MetadataTokenKind::String => 0x70,
        }
    }
}

/// The kinds of coded indices: fields that pack a table tag with a row number.
#[derive(Debug, Copy, Clone, PartialEq, Eq, Structural)]
pub enum CodedIndexKind {
    TypeDefOrRef,
    HasConstant,
    HasCustomAttribute,
    HasFieldMarshal,
    HasDeclSecurity,
    MemberRefParent,
    HasSemantics,
    MethodDefOrRef,
    MemberForwarded,
    Implementation,
    CustomAttributeType,
    ResolutionScope,
    TypeOrMethodDef,
    HasCustomDebugInformation,
}

/// The width in bytes of a stored index: 2 (slim) or 4 (fat).
#[derive(Debug, Copy, Clone, PartialEq, Eq, Structural)]
pub enum IndexSize {
    Slim,
    Fat,
}

/// The number of bytes a stored index of the given size occupies.
pub open spec fn index_size_bytes(s: IndexSize) -> int {
    match s {
        IndexSize::Slim => 2,
        IndexSize::Fat => 4,
    }
}

impl IndexSize {
    /// The number of bytes an index of this size occupies: 2 or 4.
    pub fn bytes(self) -> (r: usize)
        ensures
            r == index_size_bytes(self),
    {
        match self {
            IndexSize::Slim => 2,
            IndexSize::Fat => 4,
        }
    }
}

} // verus!
