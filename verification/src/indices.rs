//! Index kinds decoded from table rows: heap indices, simple table indices,
//! coded indices and metadata tokens, together with the width rules that the
//! tables stream fixes for them.

use vstd::prelude::*;
use crate::cursor::{le_u16_at, le_u32_at, ByteStream};
use crate::error::Error;
use crate::kinds::{
    index_size_bytes, table_kind_id, token_kind_tag, CodedIndexKind, IndexSize, MetadataTokenKind,
    TableKind,
};

verus! {

/// A 1-based row number into one specified table; 0 means "none".
#[derive(Debug, Copy, Clone, PartialEq, Eq, PartialOrd, Ord, Hash, Structural)]
pub struct TableIndex(pub u32);

/// A byte offset into a heap; 0 means "absent" for string/blob/GUID
/// references.
#[derive(Debug, Copy, Clone, PartialEq, Eq, Hash, Structural)]
pub struct HeapIndex(pub u32);

/// A raw coded-index value: low tag bits naming a table of the kind's set,
/// upper bits holding the 1-based row number.
#[derive(Debug, Copy, Clone, PartialEq, Eq, Hash, Structural)]
pub struct CodedIndex(pub u32);

/// A 32-bit composite reference: high byte = table tag, low 3 bytes =
/// 1-based row number. Zero is null.
#[derive(Debug, Copy, Clone, PartialEq, Eq, Hash, Structural)]
pub struct MetadataToken(pub u32);

/// The token value composed of a kind's tag byte and a row number; a zero
/// row gives the null token.
pub open spec fn spec_token_value(kind: MetadataTokenKind, index: u32) -> u32
    recommends
        index < 0x1000000,
{
    if index == 0 {
        0u32
    } else {
        (token_kind_tag(kind) * 0x1000000 + index) as u32
    }
}

/// The token kind whose tag byte is `tag`, if that tag is assigned.
pub open spec fn spec_token_kind_of_tag(tag: u8) -> Option<MetadataTokenKind> {
    match tag {
        0x00u8 => Some(MetadataTokenKind::Module),
        0x01u8 => Some(MetadataTokenKind::TypeRef),
        0x02u8 => Some(MetadataTokenKind::TypeDef),
        0x04u8 => Some(MetadataTokenKind::Field),
        0x06u8 => Some(MetadataTokenKind::Method),
        0x08u8 => Some(MetadataTokenKind::Param),
        0x09u8 => Some(MetadataTokenKind::InterfaceImpl),
        0x0au8 => Some(MetadataTokenKind::MemberRef),
        0x0cu8 => Some(MetadataTokenKind::CustomAttribute),
        0x0eu8 => Some(MetadataTokenKind::Permission),
        0x11u8 => Some(MetadataTokenKind::Signature),
        0x14u8 => Some(MetadataTokenKind::Event),
        0x17u8 => Some(MetadataTokenKind::Property),
        0x1au8 => Some(MetadataTokenKind::ModuleRef),
        0x1bu8 => Some(MetadataTokenKind::TypeSpec),
        0x20u8 => Some(MetadataTokenKind::Assembly),
        0x23u8 => Some(MetadataTokenKind::AssemblyRef),
        0x26u8 => Some(MetadataTokenKind::File),
        0x27u8 => Some(MetadataTokenKind::ExportedType),
        0x28u8 => Some(MetadataTokenKind::ManifestResource),
        0x2au8 => Some(MetadataTokenKind::GenericParam),
        0x2bu8 => Some(MetadataTokenKind::MethodSpec),
        0x2cu8 => Some(MetadataTokenKind::GenericParamConstraint),
        0x30u8 => Some(MetadataTokenKind::Document),
        0x31u8 => Some(MetadataTokenKind::MethodDebugInformation),
        0x32u8 => Some(MetadataTokenKind::LocalScope),
        0x33u8 => Some(MetadataTokenKind::LocalVariable),
        0x34u8 => Some(MetadataTokenKind::LocalConstant),
        0x35u8 => Some(MetadataTokenKind::ImportScope),
        0x36u8 => Some(MetadataTokenKind::StateMachineMethod),
        0x37u8 => Some(MetadataTokenKind::CustomDebugInformation),
        0x70u8 => Some(MetadataTokenKind::String),
        _ => None,
    }
}

impl MetadataToken {
    /// The token for row `index` of the table that `kind` names; a zero
    /// `index` gives the null token.
    pub fn new(index: u32, kind: MetadataTokenKind) -> (r: MetadataToken)
        requires
            index < 0x1000000,
        ensures
            r.0 == spec_token_value(kind, index),
    {
        if index == 0 {
            MetadataToken(0)
        } else {
            MetadataToken((kind.tag() as u32) * 0x1000000 + index)
        }
    }

    /// Whether this is the null token.
    pub fn is_null(&self) -> (r: bool)
        ensures
            r == (self.0 == 0),
    {
        self.0 == 0
    }

    /// The 1-based row number: the low 3 bytes.
    pub fn index(&self) -> (r: usize)
        ensures
            r == self.0 as int % 0x1000000,
    {
        (self.0 % 0x1000000) as usize
    }

    /// The kind named by the high byte, or `None` for an unassigned tag.
    pub fn token_kind(&self) -> (r: Option<MetadataTokenKind>)
        ensures
            r == spec_token_kind_of_tag((self.0 / 0x1000000) as u8),
    {
        token_kind_of_tag((self.0 / 0x1000000) as u8)
    }
}

/// The token kind whose tag byte is `tag`, or `None` for an unassigned tag.
pub fn token_kind_of_tag(tag: u8) -> (r: Option<MetadataTokenKind>)
    ensures
        r == spec_token_kind_of_tag(tag),
{
    match tag {
        0x00u8 => Some(MetadataTokenKind::Module),
        0x01u8 => Some(MetadataTokenKind::TypeRef),
        0x02u8 => Some(MetadataTokenKind::TypeDef),
        0x04u8 => Some(MetadataTokenKind::Field),
        0x06u8 => Some(MetadataTokenKind::Method),
        0x08u8 => Some(MetadataTokenKind::Param),
        0x09u8 => Some(MetadataTokenKind::InterfaceImpl),
        0x0au8 => Some(MetadataTokenKind::MemberRef),
        0x0cu8 => Some(MetadataTokenKind::CustomAttribute),
        0x0eu8 => Some(MetadataTokenKind::Permission),
        0x11u8 => Some(MetadataTokenKind::Signature),
        0x14u8 => Some(MetadataTokenKind::Event),
        0x17u8 => Some(MetadataTokenKind::Property),
        0x1au8 => Some(MetadataTokenKind::ModuleRef),
        0x1bu8 => Some(MetadataTokenKind::TypeSpec),
        0x20u8 => Some(MetadataTokenKind::Assembly),
        0x23u8 => Some(MetadataTokenKind::AssemblyRef),
        0x26u8 => Some(MetadataTokenKind::File),
        0x27u8 => Some(MetadataTokenKind::ExportedType),
        0x28u8 => Some(MetadataTokenKind::ManifestResource),
        0x2au8 => Some(MetadataTokenKind::GenericParam),
        0x2bu8 => Some(MetadataTokenKind::MethodSpec),
        0x2cu8 => Some(MetadataTokenKind::GenericParamConstraint),
        0x30u8 => Some(MetadataTokenKind::Document),
        0x31u8 => Some(MetadataTokenKind::MethodDebugInformation),
        0x32u8 => Some(MetadataTokenKind::LocalScope),
        0x33u8 => Some(MetadataTokenKind::LocalVariable),
        0x34u8 => Some(MetadataTokenKind::LocalConstant),
        0x35u8 => Some(MetadataTokenKind::ImportScope),
        0x36u8 => Some(MetadataTokenKind::StateMachineMethod),
        0x37u8 => Some(MetadataTokenKind::CustomDebugInformation),
        0x70u8 => Some(MetadataTokenKind::String),
        _ => None,
    }
}

/// How many tag bits a coded-index kind packs into its low end.
pub open spec fn coded_index_bits(k: CodedIndexKind) -> int {
    match k {
        CodedIndexKind::TypeDefOrRef => 2,
        CodedIndexKind::HasConstant => 2,
        CodedIndexKind::HasCustomAttribute => 5,
        CodedIndexKind::HasFieldMarshal => 1,
        CodedIndexKind::HasDeclSecurity => 2,
        CodedIndexKind::MemberRefParent => 3,
        CodedIndexKind::HasSemantics => 1,
        CodedIndexKind::MethodDefOrRef => 1,
        CodedIndexKind::MemberForwarded => 1,
        CodedIndexKind::Implementation => 2,
        CodedIndexKind::CustomAttributeType => 3,
        CodedIndexKind::ResolutionScope => 2,
        CodedIndexKind::TypeOrMethodDef => 1,
        CodedIndexKind::HasCustomDebugInformation => 5,
    }
}

/// `2 ^ coded_index_bits(k)`: what the stored value is divided by to strip
/// the tag.
pub open spec fn coded_index_divisor(k: CodedIndexKind) -> u32 {
    match k {
        CodedIndexKind::TypeDefOrRef => 4,
        CodedIndexKind::HasConstant => 4,
        CodedIndexKind::HasCustomAttribute => 32,
        CodedIndexKind::HasFieldMarshal => 2,
        CodedIndexKind::HasDeclSecurity => 4,
        CodedIndexKind::MemberRefParent => 8,
        CodedIndexKind::HasSemantics => 2,
        CodedIndexKind::MethodDefOrRef => 2,
        CodedIndexKind::MemberForwarded => 2,
        CodedIndexKind::Implementation => 4,
        CodedIndexKind::CustomAttributeType => 8,
        CodedIndexKind::ResolutionScope => 4,
        CodedIndexKind::TypeOrMethodDef => 2,
        CodedIndexKind::HasCustomDebugInformation => 32,
    }
}

/// `2 ^ (16 - coded_index_bits(k))`: the least maximum row count that
/// forces a coded index of kind `k` to be stored in 4 bytes.
pub open spec fn coded_row_limit(k: CodedIndexKind) -> u32 {
    match k {
        CodedIndexKind::TypeDefOrRef => 0x4000,
        CodedIndexKind::HasConstant => 0x4000,
        CodedIndexKind::HasCustomAttribute => 0x800,
        CodedIndexKind::HasFieldMarshal => 0x8000,
        CodedIndexKind::HasDeclSecurity => 0x4000,
        CodedIndexKind::MemberRefParent => 0x2000,
        CodedIndexKind::HasSemantics => 0x8000,
        CodedIndexKind::MethodDefOrRef => 0x8000,
        CodedIndexKind::MemberForwarded => 0x8000,
        CodedIndexKind::Implementation => 0x4000,
        CodedIndexKind::CustomAttributeType => 0x2000,
        CodedIndexKind::ResolutionScope => 0x4000,
        CodedIndexKind::TypeOrMethodDef => 0x8000,
        CodedIndexKind::HasCustomDebugInformation => 0x800,
    }
}

/// The set of tables a coded index of kind `k` can name, in tag order.
/// For `CustomAttributeType` only tags 2 and 3 are assigned; the set here
/// lists the tables that take part in its width rule.
pub open spec fn coded_index_set(k: CodedIndexKind) -> Seq<TableKind> {
    match k {
        CodedIndexKind::TypeDefOrRef => seq![
            TableKind::TypeDef,
            TableKind::TypeRef,
            TableKind::TypeSpec,
        ],
        CodedIndexKind::HasConstant => seq![
            TableKind::Field,
            TableKind::Param,
            TableKind::Property,
        ],
        CodedIndexKind::HasCustomAttribute => seq![
            TableKind::MethodDef,
            TableKind::Field,
            TableKind::TypeRef,
            TableKind::TypeDef,
            TableKind::Param,
            TableKind::InterfaceImpl,
            TableKind::MemberRef,
            TableKind::Module,
            TableKind::DeclSecurity,
            TableKind::Property,
            TableKind::Event,
            TableKind::StandAloneSig,
            TableKind::ModuleRef,
            TableKind::TypeSpec,
            TableKind::Assembly,
            TableKind::AssemblyRef,
            TableKind::File,
            TableKind::ExportedType,
            TableKind::ManifestResource,
            TableKind::GenericParam,
            TableKind::GenericParamConstraint,
            TableKind::MethodSpec,
        ],
        CodedIndexKind::HasFieldMarshal => seq![TableKind::Field, TableKind::Param],
        CodedIndexKind::HasDeclSecurity => seq![
            TableKind::TypeDef,
            TableKind::MethodDef,
            TableKind::Assembly,
        ],
        CodedIndexKind::MemberRefParent => seq![
            TableKind::TypeDef,
            TableKind::TypeRef,
            TableKind::ModuleRef,
            TableKind::MethodDef,
            TableKind::TypeSpec,
        ],
        CodedIndexKind::HasSemantics => seq![TableKind::Event, TableKind::Property],
        CodedIndexKind::MethodDefOrRef => seq![TableKind::MethodDef, TableKind::MemberRef],
        CodedIndexKind::MemberForwarded => seq![TableKind::Field, TableKind::MethodDef],
        CodedIndexKind::Implementation => seq![
            TableKind::File,
            TableKind::AssemblyRef,
            TableKind::ExportedType,
        ],
        CodedIndexKind::CustomAttributeType => seq![TableKind::MethodDef, TableKind::MemberRef],
        CodedIndexKind::ResolutionScope => seq![
            TableKind::Module,
            TableKind::ModuleRef,
            TableKind::AssemblyRef,
            TableKind::TypeRef,
        ],
        CodedIndexKind::TypeOrMethodDef => seq![TableKind::TypeDef, TableKind::MethodDef],
        CodedIndexKind::HasCustomDebugInformation => seq![
            TableKind::MethodDef,
            TableKind::Field,
            TableKind::TypeRef,
            TableKind::TypeDef,
            TableKind::Param,
            TableKind::InterfaceImpl,
            TableKind::MemberRef,
            TableKind::Module,
            TableKind::DeclSecurity,
            TableKind::Property,
            TableKind::Event,
            TableKind::StandAloneSig,
            TableKind::ModuleRef,
            TableKind::TypeSpec,
            TableKind::Assembly,
            TableKind::AssemblyRef,
            TableKind::File,
            TableKind::ExportedType,
            TableKind::ManifestResource,
            TableKind::GenericParam,
            TableKind::GenericParamConstraint,
            TableKind::MethodSpec,
            TableKind::Document,
            TableKind::LocalScope,
            TableKind::LocalVariable,
            TableKind::LocalConstant,
            TableKind::ImportScope,
        ],
    }
}

/// The token kind a tag value names within a coded-index kind's set, if
/// that tag is assigned.
pub open spec fn coded_token_of_tag(k: CodedIndexKind, tag: int) -> Option<MetadataTokenKind> {
    match k {
        CodedIndexKind::TypeDefOrRef => {
            if tag == 0 { Some(MetadataTokenKind::TypeDef) }
            else if tag == 1 { Some(MetadataTokenKind::TypeRef) }
            else if tag == 2 { Some(MetadataTokenKind::TypeSpec) }
            else { None }
        },
        CodedIndexKind::HasConstant => {
            if tag == 0 { Some(MetadataTokenKind::Field) }
            else if tag == 1 { Some(MetadataTokenKind::Param) }
            else if tag == 2 { Some(MetadataTokenKind::Property) }
            else { None }
        },
        CodedIndexKind::HasCustomAttribute => {
            if tag == 0 { Some(MetadataTokenKind::Method) }
            else if tag == 1 { Some(MetadataTokenKind::Field) }
            else if tag == 2 { Some(MetadataTokenKind::TypeRef) }
            else if tag == 3 { Some(MetadataTokenKind::TypeDef) }
            else if tag == 4 { Some(MetadataTokenKind::Param) }
            else if tag == 5 { Some(MetadataTokenKind::InterfaceImpl) }
            else if tag == 6 { Some(MetadataTokenKind::MemberRef) }
            else if tag == 7 { Some(MetadataTokenKind::Module) }
            else if tag == 8 { Some(MetadataTokenKind::Permission) }
            else if tag == 9 { Some(MetadataTokenKind::Property) }
            else if tag == 10 { Some(MetadataTokenKind::Event) }
            else if tag == 11 { Some(MetadataTokenKind::Signature) }
            else if tag == 12 { Some(MetadataTokenKind::ModuleRef) }
            else if tag == 13 { Some(MetadataTokenKind::TypeSpec) }
            else if tag == 14 { Some(MetadataTokenKind::Assembly) }
            else if tag == 15 { Some(MetadataTokenKind::AssemblyRef) }
            else if tag == 16 { Some(MetadataTokenKind::File) }
            else if tag == 17 { Some(MetadataTokenKind::ExportedType) }
            else if tag == 18 { Some(MetadataTokenKind::ManifestResource) }
            else if tag == 19 { Some(MetadataTokenKind::GenericParam) }
            else if tag == 20 { Some(MetadataTokenKind::GenericParamConstraint) }
            else if tag == 21 { Some(MetadataTokenKind::MethodSpec) }
            else { None }
        },
        CodedIndexKind::HasFieldMarshal => {
            if tag == 0 { Some(MetadataTokenKind::Field) }
            else if tag == 1 { Some(MetadataTokenKind::Param) }
            else { None }
        },
        CodedIndexKind::HasDeclSecurity => {
            if tag == 0 { Some(MetadataTokenKind::TypeDef) }
            else if tag == 1 { Some(MetadataTokenKind::Method) }
            else if tag == 2 { Some(MetadataTokenKind::Assembly) }
            else { None }
        },
        CodedIndexKind::MemberRefParent => {
            if tag == 0 { Some(MetadataTokenKind::TypeDef) }
            else if tag == 1 { Some(MetadataTokenKind::TypeRef) }
            else if tag == 2 { Some(MetadataTokenKind::ModuleRef) }
            else if tag == 3 { Some(MetadataTokenKind::Method) }
            else if tag == 4 { Some(MetadataTokenKind::TypeSpec) }
            else { None }
        },
        CodedIndexKind::HasSemantics => {
            if tag == 0 { Some(MetadataTokenKind::Event) }
            else if tag == 1 { Some(MetadataTokenKind::Property) }
            else { None }
        },
        CodedIndexKind::MethodDefOrRef => {
            if tag == 0 { Some(MetadataTokenKind::Method) }
            else if tag == 1 { Some(MetadataTokenKind::MemberRef) }
            else { None }
        },
        CodedIndexKind::MemberForwarded => {
            if tag == 0 { Some(MetadataTokenKind::Field) }
            else if tag == 1 { Some(MetadataTokenKind::Method) }
            else { None }
        },
        CodedIndexKind::Implementation => {
            if tag == 0 { Some(MetadataTokenKind::File) }
            else if tag == 1 { Some(MetadataTokenKind::AssemblyRef) }
            else if tag == 2 { Some(MetadataTokenKind::ExportedType) }
            else { None }
        },
        CodedIndexKind::CustomAttributeType => {
            if tag == 2 { Some(MetadataTokenKind::Method) }
            else if tag == 3 { Some(MetadataTokenKind::MemberRef) }
            else { None }
        },
        CodedIndexKind::ResolutionScope => {
            if tag == 0 { Some(MetadataTokenKind::Module) }
            else if tag == 1 { Some(MetadataTokenKind::ModuleRef) }
            else if tag == 2 { Some(MetadataTokenKind::AssemblyRef) }
            else if tag == 3 { Some(MetadataTokenKind::TypeRef) }
            else { None }
        },
        CodedIndexKind::TypeOrMethodDef => {
            if tag == 0 { Some(MetadataTokenKind::TypeDef) }
            else if tag == 1 { Some(MetadataTokenKind::Method) }
            else { None }
        },
        CodedIndexKind::HasCustomDebugInformation => {
            if tag == 0 { Some(MetadataTokenKind::Method) }
            else if tag == 1 { Some(MetadataTokenKind::Field) }
            else if tag == 2 { Some(MetadataTokenKind::TypeRef) }
            else if tag == 3 { Some(MetadataTokenKind::TypeDef) }
            else if tag == 4 { Some(MetadataTokenKind::Param) }
            else if tag == 5 { Some(MetadataTokenKind::InterfaceImpl) }
            else if tag == 6 { Some(MetadataTokenKind::MemberRef) }
            else if tag == 7 { Some(MetadataTokenKind::Module) }
            else if tag == 8 { Some(MetadataTokenKind::Permission) }
            else if tag == 9 { Some(MetadataTokenKind::Property) }
            else if tag == 10 { Some(MetadataTokenKind::Event) }
            else if tag == 11 { Some(MetadataTokenKind::Signature) }
            else if tag == 12 { Some(MetadataTokenKind::ModuleRef) }
            else if tag == 13 { Some(MetadataTokenKind::TypeSpec) }
            else if tag == 14 { Some(MetadataTokenKind::Assembly) }
            else if tag == 15 { Some(MetadataTokenKind::AssemblyRef) }
            else if tag == 16 { Some(MetadataTokenKind::File) }
            else if tag == 17 { Some(MetadataTokenKind::ExportedType) }
            else if tag == 18 { Some(MetadataTokenKind::ManifestResource) }
            else if tag == 19 { Some(MetadataTokenKind::GenericParam) }
            else if tag == 20 { Some(MetadataTokenKind::GenericParamConstraint) }
            else if tag == 21 { Some(MetadataTokenKind::MethodSpec) }
            else if tag == 22 { Some(MetadataTokenKind::Document) }
            else if tag == 23 { Some(MetadataTokenKind::LocalScope) }
            else if tag == 24 { Some(MetadataTokenKind::LocalVariable) }
            else if tag == 25 { Some(MetadataTokenKind::LocalConstant) }
            else if tag == 26 { Some(MetadataTokenKind::ImportScope) }
            else { None }
        },
    }
}

/// The tag a token kind is stored under within a coded-index kind, if the
/// kind takes part in that set.
pub open spec fn coded_tag_of_token(k: CodedIndexKind, t: MetadataTokenKind) -> Option<int> {
    match k {
        CodedIndexKind::TypeDefOrRef => match t {
            MetadataTokenKind::TypeDef => Some(0int),
            MetadataTokenKind::TypeRef => Some(1int),
            MetadataTokenKind::TypeSpec => Some(2int),
            _ => None,
        },
        CodedIndexKind::HasConstant => match t {
            MetadataTokenKind::Field => Some(0int),
            MetadataTokenKind::Param => Some(1int),
            MetadataTokenKind::Property => Some(2int),
            _ => None,
        },
        CodedIndexKind::HasCustomAttribute => match t {
            MetadataTokenKind::Method => Some(0int),
            MetadataTokenKind::Field => Some(1int),
            MetadataTokenKind::TypeRef => Some(2int),
            MetadataTokenKind::TypeDef => Some(3int),
            MetadataTokenKind::Param => Some(4int),
            MetadataTokenKind::InterfaceImpl => Some(5int),
            MetadataTokenKind::MemberRef => Some(6int),
            MetadataTokenKind::Module => Some(7int),
            MetadataTokenKind::Permission => Some(8int),
            MetadataTokenKind::Property => Some(9int),
            MetadataTokenKind::Event => Some(10int),
            MetadataTokenKind::Signature => Some(11int),
            MetadataTokenKind::ModuleRef => Some(12int),
            MetadataTokenKind::TypeSpec => Some(13int),
            MetadataTokenKind::Assembly => Some(14int),
            MetadataTokenKind::AssemblyRef => Some(15int),
            MetadataTokenKind::File => Some(16int),
            MetadataTokenKind::ExportedType => Some(17int),
            MetadataTokenKind::ManifestResource => Some(18int),
            MetadataTokenKind::GenericParam => Some(19int),
            MetadataTokenKind::GenericParamConstraint => Some(20int),
            MetadataTokenKind::MethodSpec => Some(21int),
            _ => None,
        },
        CodedIndexKind::HasFieldMarshal => match t {
            MetadataTokenKind::Field => Some(0int),
            MetadataTokenKind::Param => Some(1int),
            _ => None,
        },
        CodedIndexKind::HasDeclSecurity => match t {
            MetadataTokenKind::TypeDef => Some(0int),
            MetadataTokenKind::Method => Some(1int),
            MetadataTokenKind::Assembly => Some(2int),
            _ => None,
        },
        CodedIndexKind::MemberRefParent => match t {
            MetadataTokenKind::TypeDef => Some(0int),
            MetadataTokenKind::TypeRef => Some(1int),
            MetadataTokenKind::ModuleRef => Some(2int),
            MetadataTokenKind::Method => Some(3int),
            MetadataTokenKind::TypeSpec => Some(4int),
            _ => None,
        },
        CodedIndexKind::HasSemantics => match t {
            MetadataTokenKind::Event => Some(0int),
            MetadataTokenKind::Property => Some(1int),
            _ => None,
        },
        CodedIndexKind::MethodDefOrRef => match t {
            MetadataTokenKind::Method => Some(0int),
            MetadataTokenKind::MemberRef => Some(1int),
            _ => None,
        },
        CodedIndexKind::MemberForwarded => match t {
            MetadataTokenKind::Field => Some(0int),
            MetadataTokenKind::Method => Some(1int),
            _ => None,
        },
        CodedIndexKind::Implementation => match t {
            MetadataTokenKind::File => Some(0int),
            MetadataTokenKind::AssemblyRef => Some(1int),
            MetadataTokenKind::ExportedType => Some(2int),
            _ => None,
        },
        CodedIndexKind::CustomAttributeType => match t {
            MetadataTokenKind::Method => Some(2int),
            MetadataTokenKind::MemberRef => Some(3int),
            _ => None,
        },
        CodedIndexKind::ResolutionScope => match t {
            MetadataTokenKind::Module => Some(0int),
            MetadataTokenKind::ModuleRef => Some(1int),
            MetadataTokenKind::AssemblyRef => Some(2int),
            MetadataTokenKind::TypeRef => Some(3int),
            _ => None,
        },
        CodedIndexKind::TypeOrMethodDef => match t {
            MetadataTokenKind::TypeDef => Some(0int),
            MetadataTokenKind::Method => Some(1int),
            _ => None,
        },
        CodedIndexKind::HasCustomDebugInformation => match t {
            MetadataTokenKind::Method => Some(0int),
            MetadataTokenKind::Field => Some(1int),
            MetadataTokenKind::TypeRef => Some(2int),
            MetadataTokenKind::TypeDef => Some(3int),
            MetadataTokenKind::Param => Some(4int),
            MetadataTokenKind::InterfaceImpl => Some(5int),
            MetadataTokenKind::MemberRef => Some(6int),
            MetadataTokenKind::Module => Some(7int),
            MetadataTokenKind::Permission => Some(8int),
            MetadataTokenKind::Property => Some(9int),
            MetadataTokenKind::Event => Some(10int),
            MetadataTokenKind::Signature => Some(11int),
            MetadataTokenKind::ModuleRef => Some(12int),
            MetadataTokenKind::TypeSpec => Some(13int),
            MetadataTokenKind::Assembly => Some(14int),
            MetadataTokenKind::AssemblyRef => Some(15int),
            MetadataTokenKind::File => Some(16int),
            MetadataTokenKind::ExportedType => Some(17int),
            MetadataTokenKind::ManifestResource => Some(18int),
            MetadataTokenKind::GenericParam => Some(19int),
            MetadataTokenKind::GenericParamConstraint => Some(20int),
            MetadataTokenKind::MethodSpec => Some(21int),
            MetadataTokenKind::Document => Some(22int),
            MetadataTokenKind::LocalScope => Some(23int),
            MetadataTokenKind::LocalVariable => Some(24int),
            MetadataTokenKind::LocalConstant => Some(25int),
            MetadataTokenKind::ImportScope => Some(26int),
            _ => None,
        },
    }
}

/// What decoding the raw value `v` as a coded index of kind `k` yields:
/// the named token kind and the 1-based row number, or `None` when the tag
/// is unassigned or the row does not fit a token's 3 row bytes.
pub open spec fn spec_coded_decode(k: CodedIndexKind, v: u32) -> Option<(MetadataTokenKind, u32)> {
    let tag = v % coded_index_divisor(k);
    let row = v / coded_index_divisor(k);
    match coded_token_of_tag(k, tag as int) {
        Some(t) => if row < 0x1000000 {
            Some((t, row))
        } else {
            None
        },
        None => None,
    }
}

/// What encoding row `index` of the table that `t` names as a coded index
/// of kind `k` yields, or `None` when `t` is not in the kind's set or the
/// packed value does not fit 32 bits. A zero `index` encodes as zero.
pub open spec fn spec_coded_encode(k: CodedIndexKind, t: MetadataTokenKind, index: int) -> Option<
    u32,
> {
    if index == 0 {
        Some(0u32)
    } else {
        match coded_tag_of_token(k, t) {
            Some(tag) => if index * coded_index_divisor(k) + tag <= u32::MAX {
                Some((index * coded_index_divisor(k) + tag) as u32)
            } else {
                None
            },
            None => None,
        }
    }
}

/// Decoding an encoded coded index gives back the token kind and row that
/// went in, for every coded-index kind, every token kind of its set, and
/// every row a token can carry.
pub proof fn lemma_coded_round_trip(k: CodedIndexKind, t: MetadataTokenKind, row: u32)
    requires
        1 <= row <= 0xFFFFFF,
        coded_tag_of_token(k, t) is Some,
    ensures
        spec_coded_encode(k, t, row as int) matches Some(v) && spec_coded_decode(k, v) == Some(
            (t, row),
        ),
{
    match k {
        CodedIndexKind::TypeDefOrRef => {},
        CodedIndexKind::HasConstant => {},
        CodedIndexKind::HasCustomAttribute => {},
        CodedIndexKind::HasFieldMarshal => {},
        CodedIndexKind::HasDeclSecurity => {},
        CodedIndexKind::MemberRefParent => {},
        CodedIndexKind::HasSemantics => {},
        CodedIndexKind::MethodDefOrRef => {},
        CodedIndexKind::MemberForwarded => {},
        CodedIndexKind::Implementation => {},
        CodedIndexKind::CustomAttributeType => {},
        CodedIndexKind::ResolutionScope => {},
        CodedIndexKind::TypeOrMethodDef => {},
        CodedIndexKind::HasCustomDebugInformation => {},
    }
}

impl CodedIndexKind {
    /// How many tag bits this kind packs into a stored value's low end.
    pub fn bits(self) -> (r: u32)
        ensures
            r == coded_index_bits(self),
    {
        match self {
            CodedIndexKind::TypeDefOrRef => 2,
            CodedIndexKind::HasConstant => 2,
            CodedIndexKind::HasCustomAttribute => 5,
            CodedIndexKind::HasFieldMarshal => 1,
            CodedIndexKind::HasDeclSecurity => 2,
            CodedIndexKind::MemberRefParent => 3,
            CodedIndexKind::HasSemantics => 1,
            CodedIndexKind::MethodDefOrRef => 1,
            CodedIndexKind::MemberForwarded => 1,
            CodedIndexKind::Implementation => 2,
            CodedIndexKind::CustomAttributeType => 3,
            CodedIndexKind::ResolutionScope => 2,
            CodedIndexKind::TypeOrMethodDef => 1,
            CodedIndexKind::HasCustomDebugInformation => 5,
        }
    }

    /// `2 ^ bits`: the divisor that strips the tag from a stored value.
    pub fn divisor(self) -> (r: u32)
        ensures
            r == coded_index_divisor(self),
            r >= 2,
    {
        match self {
            CodedIndexKind::TypeDefOrRef => 4,
            CodedIndexKind::HasConstant => 4,
            CodedIndexKind::HasCustomAttribute => 32,
            CodedIndexKind::HasFieldMarshal => 2,
            CodedIndexKind::HasDeclSecurity => 4,
            CodedIndexKind::MemberRefParent => 8,
            CodedIndexKind::HasSemantics => 2,
            CodedIndexKind::MethodDefOrRef => 2,
            CodedIndexKind::MemberForwarded => 2,
            CodedIndexKind::Implementation => 4,
            CodedIndexKind::CustomAttributeType => 8,
            CodedIndexKind::ResolutionScope => 4,
            CodedIndexKind::TypeOrMethodDef => 2,
            CodedIndexKind::HasCustomDebugInformation => 32,
        }
    }

    /// The least maximum row count among this kind's set that forces a
    /// 4-byte stored index.
    pub fn row_limit(self) -> (r: u32)
        ensures
            r == coded_row_limit(self),
    {
        match self {
            CodedIndexKind::TypeDefOrRef => 0x4000,
            CodedIndexKind::HasConstant => 0x4000,
            CodedIndexKind::HasCustomAttribute => 0x800,
            CodedIndexKind::HasFieldMarshal => 0x8000,
            CodedIndexKind::HasDeclSecurity => 0x4000,
            CodedIndexKind::MemberRefParent => 0x2000,
            CodedIndexKind::HasSemantics => 0x8000,
            CodedIndexKind::MethodDefOrRef => 0x8000,
            CodedIndexKind::MemberForwarded => 0x8000,
            CodedIndexKind::Implementation => 0x4000,
            CodedIndexKind::CustomAttributeType => 0x2000,
            CodedIndexKind::ResolutionScope => 0x4000,
            CodedIndexKind::TypeOrMethodDef => 0x8000,
            CodedIndexKind::HasCustomDebugInformation => 0x800,
        }
    }

    /// The tables of this kind's set, in tag order.
    pub fn set_tables(self) -> (r: Vec<TableKind>)
        ensures
            r@ == coded_index_set(self),
    {
        let r: Vec<TableKind> = match self {
            CodedIndexKind::TypeDefOrRef => vec![
                TableKind::TypeDef,
                TableKind::TypeRef,
                TableKind::TypeSpec,
            ],
            CodedIndexKind::HasConstant => vec![
                TableKind::Field,
                TableKind::Param,
                TableKind::Property,
            ],
            CodedIndexKind::HasCustomAttribute => vec![
                TableKind::MethodDef,
                TableKind::Field,
                TableKind::TypeRef,
                TableKind::TypeDef,
                TableKind::Param,
                TableKind::InterfaceImpl,
                TableKind::MemberRef,
                TableKind::Module,
                TableKind::DeclSecurity,
                TableKind::Property,
                TableKind::Event,
                TableKind::StandAloneSig,
                TableKind::ModuleRef,
                TableKind::TypeSpec,
                TableKind::Assembly,
                TableKind::AssemblyRef,
                TableKind::File,
                TableKind::ExportedType,
                TableKind::ManifestResource,
                TableKind::GenericParam,
                TableKind::GenericParamConstraint,
                TableKind::MethodSpec,
            ],
            CodedIndexKind::HasFieldMarshal => vec![TableKind::Field, TableKind::Param],
            CodedIndexKind::HasDeclSecurity => vec![
                TableKind::TypeDef,
                TableKind::MethodDef,
                TableKind::Assembly,
            ],
            CodedIndexKind::MemberRefParent => vec![
                TableKind::TypeDef,
                TableKind::TypeRef,
                TableKind::ModuleRef,
                TableKind::MethodDef,
                TableKind::TypeSpec,
            ],
            CodedIndexKind::HasSemantics => vec![TableKind::Event, TableKind::Property],
            CodedIndexKind::MethodDefOrRef => vec![TableKind::MethodDef, TableKind::MemberRef],
            CodedIndexKind::MemberForwarded => vec![TableKind::Field, TableKind::MethodDef],
            CodedIndexKind::Implementation => vec![
                TableKind::File,
                TableKind::AssemblyRef,
                TableKind::ExportedType,
            ],
            CodedIndexKind::CustomAttributeType => vec![TableKind::MethodDef, TableKind::MemberRef],
            CodedIndexKind::ResolutionScope => vec![
                TableKind::Module,
                TableKind::ModuleRef,
                TableKind::AssemblyRef,
                TableKind::TypeRef,
            ],
            CodedIndexKind::TypeOrMethodDef => vec![TableKind::TypeDef, TableKind::MethodDef],
            CodedIndexKind::HasCustomDebugInformation => vec![
                TableKind::MethodDef,
                TableKind::Field,
                TableKind::TypeRef,
                TableKind::TypeDef,
                TableKind::Param,
                TableKind::InterfaceImpl,
                TableKind::MemberRef,
                TableKind::Module,
                TableKind::DeclSecurity,
                TableKind::Property,
                TableKind::Event,
                TableKind::StandAloneSig,
                TableKind::ModuleRef,
                TableKind::TypeSpec,
                TableKind::Assembly,
                TableKind::AssemblyRef,
                TableKind::File,
                TableKind::ExportedType,
                TableKind::ManifestResource,
                TableKind::GenericParam,
                TableKind::GenericParamConstraint,
                TableKind::MethodSpec,
                TableKind::Document,
                TableKind::LocalScope,
                TableKind::LocalVariable,
                TableKind::LocalConstant,
                TableKind::ImportScope,
            ],
        };
        proof {
            assert(r@ =~= coded_index_set(self));
        }
        r
    }
}

/// The token kind a tag value names within kind `k`, or `None` for an
/// unassigned tag.
pub fn coded_token_kind_of_tag(k: CodedIndexKind, tag: u32) -> (r: Option<MetadataTokenKind>)
    ensures
        r == coded_token_of_tag(k, tag as int),
{
    match k {
        CodedIndexKind::TypeDefOrRef => {
            if tag == 0 { Some(MetadataTokenKind::TypeDef) }
            else if tag == 1 { Some(MetadataTokenKind::TypeRef) }
            else if tag == 2 { Some(MetadataTokenKind::TypeSpec) }
            else { None }
        },
        CodedIndexKind::HasConstant => {
            if tag == 0 { Some(MetadataTokenKind::Field) }
            else if tag == 1 { Some(MetadataTokenKind::Param) }
            else if tag == 2 { Some(MetadataTokenKind::Property) }
            else { None }
        },
        CodedIndexKind::HasCustomAttribute => {
            if tag == 0 { Some(MetadataTokenKind::Method) }
            else if tag == 1 { Some(MetadataTokenKind::Field) }
            else if tag == 2 { Some(MetadataTokenKind::TypeRef) }
            else if tag == 3 { Some(MetadataTokenKind::TypeDef) }
            else if tag == 4 { Some(MetadataTokenKind::Param) }
            else if tag == 5 { Some(MetadataTokenKind::InterfaceImpl) }
            else if tag == 6 { Some(MetadataTokenKind::MemberRef) }
            else if tag == 7 { Some(MetadataTokenKind::Module) }
            else if tag == 8 { Some(MetadataTokenKind::Permission) }
            else if tag == 9 { Some(MetadataTokenKind::Property) }
            else if tag == 10 { Some(MetadataTokenKind::Event) }
            else if tag == 11 { Some(MetadataTokenKind::Signature) }
            else if tag == 12 { Some(MetadataTokenKind::ModuleRef) }
            else if tag == 13 { Some(MetadataTokenKind::TypeSpec) }
            else if tag == 14 { Some(MetadataTokenKind::Assembly) }
            else if tag == 15 { Some(MetadataTokenKind::AssemblyRef) }
            else if tag == 16 { Some(MetadataTokenKind::File) }
            else if tag == 17 { Some(MetadataTokenKind::ExportedType) }
            else if tag == 18 { Some(MetadataTokenKind::ManifestResource) }
            else if tag == 19 { Some(MetadataTokenKind::GenericParam) }
            else if tag == 20 { Some(MetadataTokenKind::GenericParamConstraint) }
            else if tag == 21 { Some(MetadataTokenKind::MethodSpec) }
            else { None }
        },
        CodedIndexKind::HasFieldMarshal => {
            if tag == 0 { Some(MetadataTokenKind::Field) }
            else if tag == 1 { Some(MetadataTokenKind::Param) }
            else { None }
        },
        CodedIndexKind::HasDeclSecurity => {
            if tag == 0 { Some(MetadataTokenKind::TypeDef) }
            else if tag == 1 { Some(MetadataTokenKind::Method) }
            else if tag == 2 { Some(MetadataTokenKind::Assembly) }
            else { None }
        },
        CodedIndexKind::MemberRefParent => {
            if tag == 0 { Some(MetadataTokenKind::TypeDef) }
            else if tag == 1 { Some(MetadataTokenKind::TypeRef) }
            else if tag == 2 { Some(MetadataTokenKind::ModuleRef) }
            else if tag == 3 { Some(MetadataTokenKind::Method) }
            else if tag == 4 { Some(MetadataTokenKind::TypeSpec) }
            else { None }
        },
        CodedIndexKind::HasSemantics => {
            if tag == 0 { Some(MetadataTokenKind::Event) }
            else if tag == 1 { Some(MetadataTokenKind::Property) }
            else { None }
        },
        CodedIndexKind::MethodDefOrRef => {
            if tag == 0 { Some(MetadataTokenKind::Method) }
            else if tag == 1 { Some(MetadataTokenKind::MemberRef) }
            else { None }
        },
        CodedIndexKind::MemberForwarded => {
            if tag == 0 { Some(MetadataTokenKind::Field) }
            else if tag == 1 { Some(MetadataTokenKind::Method) }
            else { None }
        },
        CodedIndexKind::Implementation => {
            if tag == 0 { Some(MetadataTokenKind::File) }
            else if tag == 1 { Some(MetadataTokenKind::AssemblyRef) }
            else if tag == 2 { Some(MetadataTokenKind::ExportedType) }
            else { None }
        },
        CodedIndexKind::CustomAttributeType => {
            if tag == 2 { Some(MetadataTokenKind::Method) }
            else if tag == 3 { Some(MetadataTokenKind::MemberRef) }
            else { None }
        },
        CodedIndexKind::ResolutionScope => {
            if tag == 0 { Some(MetadataTokenKind::Module) }
            else if tag == 1 { Some(MetadataTokenKind::ModuleRef) }
            else if tag == 2 { Some(MetadataTokenKind::AssemblyRef) }
            else if tag == 3 { Some(MetadataTokenKind::TypeRef) }
            else { None }
        },
        CodedIndexKind::TypeOrMethodDef => {
            if tag == 0 { Some(MetadataTokenKind::TypeDef) }
            else if tag == 1 { Some(MetadataTokenKind::Method) }
            else { None }
        },
        CodedIndexKind::HasCustomDebugInformation => {
            if tag == 0 { Some(MetadataTokenKind::Method) }
            else if tag == 1 { Some(MetadataTokenKind::Field) }
            else if tag == 2 { Some(MetadataTokenKind::TypeRef) }
            else if tag == 3 { Some(MetadataTokenKind::TypeDef) }
            else if tag == 4 { Some(MetadataTokenKind::Param) }
            else if tag == 5 { Some(MetadataTokenKind::InterfaceImpl) }
            else if tag == 6 { Some(MetadataTokenKind::MemberRef) }
            else if tag == 7 { Some(MetadataTokenKind::Module) }
            else if tag == 8 { Some(MetadataTokenKind::Permission) }
            else if tag == 9 { Some(MetadataTokenKind::Property) }
            else if tag == 10 { Some(MetadataTokenKind::Event) }
            else if tag == 11 { Some(MetadataTokenKind::Signature) }
            else if tag == 12 { Some(MetadataTokenKind::ModuleRef) }
            else if tag == 13 { Some(MetadataTokenKind::TypeSpec) }
            else if tag == 14 { Some(MetadataTokenKind::Assembly) }
            else if tag == 15 { Some(MetadataTokenKind::AssemblyRef) }
            else if tag == 16 { Some(MetadataTokenKind::File) }
            else if tag == 17 { Some(MetadataTokenKind::ExportedType) }
            else if tag == 18 { Some(MetadataTokenKind::ManifestResource) }
            else if tag == 19 { Some(MetadataTokenKind::GenericParam) }
            else if tag == 20 { Some(MetadataTokenKind::GenericParamConstraint) }
            else if tag == 21 { Some(MetadataTokenKind::MethodSpec) }
            else if tag == 22 { Some(MetadataTokenKind::Document) }
            else if tag == 23 { Some(MetadataTokenKind::LocalScope) }
            else if tag == 24 { Some(MetadataTokenKind::LocalVariable) }
            else if tag == 25 { Some(MetadataTokenKind::LocalConstant) }
            else if tag == 26 { Some(MetadataTokenKind::ImportScope) }
            else { None }
        },
    }
}

/// The tag a token kind is stored under within kind `k`, or `None` when it
/// is not in the set.
pub fn coded_tag_of_token_kind(k: CodedIndexKind, t: MetadataTokenKind) -> (r: Option<u32>)
    ensures
        r matches Some(tag) ==> coded_tag_of_token(k, t) == Some(tag as int),
        r is None ==> coded_tag_of_token(k, t) is None,
{
    match k {
        CodedIndexKind::TypeDefOrRef => match t {
            MetadataTokenKind::TypeDef => Some(0u32),
            MetadataTokenKind::TypeRef => Some(1u32),
            MetadataTokenKind::TypeSpec => Some(2u32),
            _ => None,
        },
        CodedIndexKind::HasConstant => match t {
            MetadataTokenKind::Field => Some(0u32),
            MetadataTokenKind::Param => Some(1u32),
            MetadataTokenKind::Property => Some(2u32),
            _ => None,
        },
        CodedIndexKind::HasCustomAttribute => match t {
            MetadataTokenKind::Method => Some(0u32),
            MetadataTokenKind::Field => Some(1u32),
            MetadataTokenKind::TypeRef => Some(2u32),
            MetadataTokenKind::TypeDef => Some(3u32),
            MetadataTokenKind::Param => Some(4u32),
            MetadataTokenKind::InterfaceImpl => Some(5u32),
            MetadataTokenKind::MemberRef => Some(6u32),
            MetadataTokenKind::Module => Some(7u32),
            MetadataTokenKind::Permission => Some(8u32),
            MetadataTokenKind::Property => Some(9u32),
            MetadataTokenKind::Event => Some(10u32),
            MetadataTokenKind::Signature => Some(11u32),
            MetadataTokenKind::ModuleRef => Some(12u32),
            MetadataTokenKind::TypeSpec => Some(13u32),
            MetadataTokenKind::Assembly => Some(14u32),
            MetadataTokenKind::AssemblyRef => Some(15u32),
            MetadataTokenKind::File => Some(16u32),
            MetadataTokenKind::ExportedType => Some(17u32),
            MetadataTokenKind::ManifestResource => Some(18u32),
            MetadataTokenKind::GenericParam => Some(19u32),
            MetadataTokenKind::GenericParamConstraint => Some(20u32),
            MetadataTokenKind::MethodSpec => Some(21u32),
            _ => None,
        },
        CodedIndexKind::HasFieldMarshal => match t {
            MetadataTokenKind::Field => Some(0u32),
            MetadataTokenKind::Param => Some(1u32),
            _ => None,
        },
        CodedIndexKind::HasDeclSecurity => match t {
            MetadataTokenKind::TypeDef => Some(0u32),
            MetadataTokenKind::Method => Some(1u32),
            MetadataTokenKind::Assembly => Some(2u32),
            _ => None,
        },
        CodedIndexKind::MemberRefParent => match t {
            MetadataTokenKind::TypeDef => Some(0u32),
            MetadataTokenKind::TypeRef => Some(1u32),
            MetadataTokenKind::ModuleRef => Some(2u32),
            MetadataTokenKind::Method => Some(3u32),
            MetadataTokenKind::TypeSpec => Some(4u32),
            _ => None,
        },
        CodedIndexKind::HasSemantics => match t {
            MetadataTokenKind::Event => Some(0u32),
            MetadataTokenKind::Property => Some(1u32),
            _ => None,
        },
        CodedIndexKind::MethodDefOrRef => match t {
            MetadataTokenKind::Method => Some(0u32),
            MetadataTokenKind::MemberRef => Some(1u32),
            _ => None,
        },
        CodedIndexKind::MemberForwarded => match t {
            MetadataTokenKind::Field => Some(0u32),
            MetadataTokenKind::Method => Some(1u32),
            _ => None,
        },
        CodedIndexKind::Implementation => match t {
            MetadataTokenKind::File => Some(0u32),
            MetadataTokenKind::AssemblyRef => Some(1u32),
            MetadataTokenKind::ExportedType => Some(2u32),
            _ => None,
        },
        CodedIndexKind::CustomAttributeType => match t {
            MetadataTokenKind::Method => Some(2u32),
            MetadataTokenKind::MemberRef => Some(3u32),
            _ => None,
        },
        CodedIndexKind::ResolutionScope => match t {
            MetadataTokenKind::Module => Some(0u32),
            MetadataTokenKind::ModuleRef => Some(1u32),
            MetadataTokenKind::AssemblyRef => Some(2u32),
            MetadataTokenKind::TypeRef => Some(3u32),
            _ => None,
        },
        CodedIndexKind::TypeOrMethodDef => match t {
            MetadataTokenKind::TypeDef => Some(0u32),
            MetadataTokenKind::Method => Some(1u32),
            _ => None,
        },
        CodedIndexKind::HasCustomDebugInformation => match t {
            MetadataTokenKind::Method => Some(0u32),
            MetadataTokenKind::Field => Some(1u32),
            MetadataTokenKind::TypeRef => Some(2u32),
            MetadataTokenKind::TypeDef => Some(3u32),
            MetadataTokenKind::Param => Some(4u32),
            MetadataTokenKind::InterfaceImpl => Some(5u32),
            MetadataTokenKind::MemberRef => Some(6u32),
            MetadataTokenKind::Module => Some(7u32),
            MetadataTokenKind::Permission => Some(8u32),
            MetadataTokenKind::Property => Some(9u32),
            MetadataTokenKind::Event => Some(10u32),
            MetadataTokenKind::Signature => Some(11u32),
            MetadataTokenKind::ModuleRef => Some(12u32),
            MetadataTokenKind::TypeSpec => Some(13u32),
            MetadataTokenKind::Assembly => Some(14u32),
            MetadataTokenKind::AssemblyRef => Some(15u32),
            MetadataTokenKind::File => Some(16u32),
            MetadataTokenKind::ExportedType => Some(17u32),
            MetadataTokenKind::ManifestResource => Some(18u32),
            MetadataTokenKind::GenericParam => Some(19u32),
            MetadataTokenKind::GenericParamConstraint => Some(20u32),
            MetadataTokenKind::MethodSpec => Some(21u32),
            MetadataTokenKind::Document => Some(22u32),
            MetadataTokenKind::LocalScope => Some(23u32),
            MetadataTokenKind::LocalVariable => Some(24u32),
            MetadataTokenKind::LocalConstant => Some(25u32),
            MetadataTokenKind::ImportScope => Some(26u32),
            _ => None,
        },
    }
}

impl CodedIndex {
    /// Splits this value into its tag and row and produces the token
    /// `(table_tag << 24) | row`; `None` when the tag is unassigned for
    /// `kind` or the row does not fit a token.
    pub fn decode(&self, kind: CodedIndexKind) -> (r: Option<MetadataToken>)
        ensures
            spec_coded_decode(kind, self.0) matches Some(p) ==> (r matches Some(tok) && tok.0
                == spec_token_value(p.0, p.1)),
            spec_coded_decode(kind, self.0) is None ==> r is None,
    {
        let div = kind.divisor();
        let tag = self.0 % div;
        let row = self.0 / div;
        match coded_token_kind_of_tag(kind, tag) {
            Some(t) => {
                if row < 0x1000000 {
                    Some(MetadataToken::new(row, t))
                } else {
                    None
                }
            },
            None => None,
        }
    }

    /// Packs row `index` of the table that `token_kind` names into a coded
    /// index of kind `kind`; `None` when that kind of token cannot be coded
    /// there or the packed value does not fit 32 bits. A zero `index`
    /// encodes as zero.
    pub fn encode(index: usize, token_kind: MetadataTokenKind, kind: CodedIndexKind) -> (r: Option<
        CodedIndex,
    >)
        ensures
            spec_coded_encode(kind, token_kind, index as int) matches Some(v) ==> r == Some(
                CodedIndex(v),
            ),
            spec_coded_encode(kind, token_kind, index as int) is None ==> r is None,
    {
        if index == 0 {
            return Some(CodedIndex(0));
        }
        let div = kind.divisor();
        let tag = match coded_tag_of_token_kind(kind, token_kind) {
            Some(t) => t,
            None => {
                return None;
            },
        };
        if index as u64 > u32::MAX as u64 {
            proof {
                assert(index * coded_index_divisor(kind) + coded_tag_of_token(
                    kind,
                    token_kind,
                )->Some_0 > u32::MAX) by (nonlinear_arith)
                    requires
                        index as int > u32::MAX,
                        coded_index_divisor(kind) >= 2,
                        coded_tag_of_token(kind, token_kind)->Some_0 >= 0,
                ;
            }
            return None;
        }
        let idx32 = index as u32;
        match idx32.checked_mul(div) {
            Some(m) => match m.checked_add(tag) {
                Some(v) => Some(CodedIndex(v)),
                None => None,
            },
            None => {
                proof {
                    assert(index * coded_index_divisor(kind) + coded_tag_of_token(
                        kind,
                        token_kind,
                    )->Some_0 > u32::MAX) by (nonlinear_arith)
                        requires
                            index as int * coded_index_divisor(kind) > u32::MAX,
                            index as int == idx32 as int,
                            coded_tag_of_token(kind, token_kind)->Some_0 >= 0,
                    ;
                }
                None
            },
        }
    }
}

/// Whether tables of the given row counts force a coded index of kind `k`
/// into 4 bytes: some table of the kind's set reaches the kind's row limit.
/// `counts` is the dense row-count array keyed by table id.
pub open spec fn coded_index_is_fat(k: CodedIndexKind, counts: Seq<u32>) -> bool {
    exists|i: int|
        0 <= i < coded_index_set(k).len() && counts[table_kind_id(coded_index_set(k)[i]) as int]
            >= coded_row_limit(k)
}

/// The stored width of a coded index of kind `k` under the given dense
/// row-count array: 4 bytes when some table of the set reaches the kind's
/// row limit `2 ^ (16 - bits(k))`, else 2.
pub fn coded_index_size_from_counts(k: CodedIndexKind, counts: &Vec<u32>) -> (r: IndexSize)
    requires
        counts@.len() == 64,
    ensures
        (r == IndexSize::Fat) <==> coded_index_is_fat(k, counts@),
        (r == IndexSize::Slim) <==> !coded_index_is_fat(k, counts@),
{
    let tables = k.set_tables();
    let limit = k.row_limit();
    let mut fat = false;
    let mut i: usize = 0;
    while i < tables.len()
        invariant
            counts@.len() == 64,
            tables@ == coded_index_set(k),
            limit == coded_row_limit(k),
            0 <= i <= tables@.len(),
            fat <==> exists|j: int|
                0 <= j < i && counts@[table_kind_id(tables@[j]) as int] >= limit,
        decreases tables@.len() - i,
    {
        let id = tables[i].id();
        if counts[id as usize] >= limit {
            fat = true;
        }
        i = i + 1;
    }
    if fat {
        IndexSize::Fat
    } else {
        IndexSize::Slim
    }
}

/// Whether a table's row count forces a simple index into it to 4 bytes.
pub open spec fn simple_index_is_fat(kind: TableKind, counts: Seq<u32>) -> bool {
    counts[table_kind_id(kind) as int] > 0xFFFF
}

/// The stored width of a simple index into `kind` under the given dense
/// row-count array: 2 bytes when the table has at most `0xFFFF` rows,
/// else 4.
pub fn simple_index_size_from_counts(kind: TableKind, counts: &Vec<u32>) -> (r: IndexSize)
    requires
        counts@.len() == 64,
    ensures
        (r == IndexSize::Fat) <==> simple_index_is_fat(kind, counts@),
        (r == IndexSize::Slim) <==> !simple_index_is_fat(kind, counts@),
{
    if counts[kind.id() as usize] > 0xFFFF {
        IndexSize::Fat
    } else {
        IndexSize::Slim
    }
}

/// The little-endian index value of width `size` stored at `i` in `s`.
pub open spec fn le_index_at(s: Seq<u8>, i: int, size: IndexSize) -> int {
    match size {
        IndexSize::Slim => le_u16_at(s, i),
        IndexSize::Fat => le_u32_at(s, i),
    }
}

impl<'a> ByteStream<'a> {
    /// Reads a stored index of the given width, zero-extending a slim one.
    pub fn read_index_value(&mut self, size: IndexSize) -> (r: Result<u32, Error>)
        requires
            old(self).wf(),
        ensures
            final(self).wf(),
            final(self).buf() == old(self).buf(),
            old(self).pos() + index_size_bytes(size) <= old(self).buf().len() ==> (r matches Ok(v)
                && v == le_index_at(old(self).buf(), old(self).pos(), size)
                && final(self).pos() == old(self).pos() + index_size_bytes(size)),
            old(self).pos() + index_size_bytes(size) > old(self).buf().len() ==> (r == Err::<
                u32,
                Error,
            >(Error::UnexpectedEndOfStream(old(self).buf().len() as usize)) && final(self).pos()
                == old(self).pos()),
    {
        match size {
            IndexSize::Slim => match self.read_u16() {
                Ok(v) => Ok(v as u32),
                Err(e) => Err(e),
            },
            IndexSize::Fat => self.read_u32(),
        }
    }

    /// Reads a simple table index of the given width.
    pub fn read_table_index(&mut self, size: IndexSize) -> (r: Result<TableIndex, Error>)
        requires
            old(self).wf(),
        ensures
            final(self).wf(),
            final(self).buf() == old(self).buf(),
            old(self).pos() + index_size_bytes(size) <= old(self).buf().len() ==> (r matches Ok(v)
                && v.0 == le_index_at(old(self).buf(), old(self).pos(), size)
                && final(self).pos() == old(self).pos() + index_size_bytes(size)),
            old(self).pos() + index_size_bytes(size) > old(self).buf().len() ==> (r == Err::<
                TableIndex,
                Error,
            >(Error::UnexpectedEndOfStream(old(self).buf().len() as usize)) && final(self).pos()
                == old(self).pos()),
    {
        match self.read_index_value(size) {
            Ok(v) => Ok(TableIndex(v)),
            Err(e) => Err(e),
        }
    }

    /// Reads a heap index of the given width.
    pub fn read_heap_index(&mut self, size: IndexSize) -> (r: Result<HeapIndex, Error>)
        requires
            old(self).wf(),
        ensures
            final(self).wf(),
            final(self).buf() == old(self).buf(),
            old(self).pos() + index_size_bytes(size) <= old(self).buf().len() ==> (r matches Ok(v)
                && v.0 == le_index_at(old(self).buf(), old(self).pos(), size)
                && final(self).pos() == old(self).pos() + index_size_bytes(size)),
            old(self).pos() + index_size_bytes(size) > old(self).buf().len() ==> (r == Err::<
                HeapIndex,
                Error,
            >(Error::UnexpectedEndOfStream(old(self).buf().len() as usize)) && final(self).pos()
                == old(self).pos()),
    {
        match self.read_index_value(size) {
            Ok(v) => Ok(HeapIndex(v)),
            Err(e) => Err(e),
        }
    }

    /// Reads a coded index of the given width.
    pub fn read_coded_index(&mut self, size: IndexSize) -> (r: Result<CodedIndex, Error>)
        requires
            old(self).wf(),
        ensures
            final(self).wf(),
            final(self).buf() == old(self).buf(),
            old(self).pos() + index_size_bytes(size) <= old(self).buf().len() ==> (r matches Ok(v)
                && v.0 == le_index_at(old(self).buf(), old(self).pos(), size)
                && final(self).pos() == old(self).pos() + index_size_bytes(size)),
            old(self).pos() + index_size_bytes(size) > old(self).buf().len() ==> (r == Err::<
                CodedIndex,
                Error,
            >(Error::UnexpectedEndOfStream(old(self).buf().len() as usize)) && final(self).pos()
                == old(self).pos()),
    {
        match self.read_index_value(size) {
            Ok(v) => Ok(CodedIndex(v)),
            Err(e) => Err(e),
        }
    }
}

} // verus!
