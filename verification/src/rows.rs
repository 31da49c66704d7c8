//! Typed rows: one struct per decoded table kind, each built from the
//! field values that the uniform row decoder yields for its schema.

use vstd::prelude::*;
use crate::indices::{CodedIndex, HeapIndex, TableIndex};

verus! {

/// A decoded row of the module identity table.
#[derive(Debug, Copy, Clone, PartialEq, Eq, Structural)]
pub struct Module {
    pub generation: u16,
    pub name: HeapIndex,
    pub module_version_id: HeapIndex,
    pub enc_id: HeapIndex,
    pub enc_base_id: HeapIndex,
}

impl Module {
    /// Builds a row from the field values of the `Module` schema;
    /// `None` when the value count does not match it.
    pub fn from_values(vals: &Vec<u32>) -> (r: Option<Module>)
        ensures
            vals@.len() == 5 ==> (r matches Some(m) && m.generation == vals@[0] as u16
                && m.name == HeapIndex(vals@[1])
                && m.module_version_id == HeapIndex(vals@[2])
                && m.enc_id == HeapIndex(vals@[3])
                && m.enc_base_id == HeapIndex(vals@[4])),
            vals@.len() != 5 ==> r is None,
    {
        if vals.len() != 5 {
            return None;
        }
        Some(Module {
            generation: vals[0] as u16,
            name: HeapIndex(vals[1]),
            module_version_id: HeapIndex(vals[2]),
            enc_id: HeapIndex(vals[3]),
            enc_base_id: HeapIndex(vals[4]),
        })
    }

    /// The `generation` field of the row.
    pub fn generation(&self) -> (r: u16)
        ensures
            r == self.generation,
    {
        self.generation
    }

    /// The `name` field of the row.
    pub fn name(&self) -> (r: HeapIndex)
        ensures
            r == self.name,
    {
        self.name
    }

    /// The `module_version_id` field of the row.
    pub fn module_version_id(&self) -> (r: HeapIndex)
        ensures
            r == self.module_version_id,
    {
        self.module_version_id
    }

    /// The `enc_id` field of the row.
    pub fn enc_id(&self) -> (r: HeapIndex)
        ensures
            r == self.enc_id,
    {
        self.enc_id
    }

    /// The `enc_base_id` field of the row.
    pub fn enc_base_id(&self) -> (r: HeapIndex)
        ensures
            r == self.enc_base_id,
    {
        self.enc_base_id
    }
}

/// A decoded row of the type-reference table.
#[derive(Debug, Copy, Clone, PartialEq, Eq, Structural)]
pub struct TypeRef {
    pub resolution_scope: CodedIndex,
    pub name: HeapIndex,
    pub namespace: HeapIndex,
}

impl TypeRef {
    /// Builds a row from the field values of the `TypeRef` schema;
    /// `None` when the value count does not match it.
    pub fn from_values(vals: &Vec<u32>) -> (r: Option<TypeRef>)
        ensures
            vals@.len() == 3 ==> (r matches Some(m) && m.resolution_scope == CodedIndex(vals@[0])
                && m.name == HeapIndex(vals@[1])
                && m.namespace == HeapIndex(vals@[2])),
            vals@.len() != 3 ==> r is None,
    {
        if vals.len() != 3 {
            return None;
        }
        Some(TypeRef {
            resolution_scope: CodedIndex(vals[0]),
            name: HeapIndex(vals[1]),
            namespace: HeapIndex(vals[2]),
        })
    }

    /// The `resolution_scope` field of the row.
    pub fn resolution_scope(&self) -> (r: CodedIndex)
        ensures
            r == self.resolution_scope,
    {
        self.resolution_scope
    }

    /// The `name` field of the row.
    pub fn name(&self) -> (r: HeapIndex)
        ensures
            r == self.name,
    {
        self.name
    }

    /// The `namespace` field of the row.
    pub fn namespace(&self) -> (r: HeapIndex)
        ensures
            r == self.namespace,
    {
        self.namespace
    }
}

/// A decoded row of the type-definition table.
#[derive(Debug, Copy, Clone, PartialEq, Eq, Structural)]
pub struct TypeDef {
    pub flags: u32,
    pub name: HeapIndex,
    pub namespace: HeapIndex,
    pub base_type: CodedIndex,
    pub fields: TableIndex,
    pub methods: TableIndex,
}

impl TypeDef {
    /// Builds a row from the field values of the `TypeDef` schema;
    /// `None` when the value count does not match it.
    pub fn from_values(vals: &Vec<u32>) -> (r: Option<TypeDef>)
        ensures
            vals@.len() == 6 ==> (r matches Some(m) && m.flags == vals@[0]
                && m.name == HeapIndex(vals@[1])
                && m.namespace == HeapIndex(vals@[2])
                && m.base_type == CodedIndex(vals@[3])
                && m.fields == TableIndex(vals@[4])
                && m.methods == TableIndex(vals@[5])),
            vals@.len() != 6 ==> r is None,
    {
        if vals.len() != 6 {
            return None;
        }
        Some(TypeDef {
            flags: vals[0],
            name: HeapIndex(vals[1]),
            namespace: HeapIndex(vals[2]),
            base_type: CodedIndex(vals[3]),
            fields: TableIndex(vals[4]),
            methods: TableIndex(vals[5]),
        })
    }

    /// The `flags` field of the row.
    pub fn flags(&self) -> (r: u32)
        ensures
            r == self.flags,
    {
        self.flags
    }

    /// The `name` field of the row.
    pub fn name(&self) -> (r: HeapIndex)
        ensures
            r == self.name,
    {
        self.name
    }

    /// The `namespace` field of the row.
    pub fn namespace(&self) -> (r: HeapIndex)
        ensures
            r == self.namespace,
    {
        self.namespace
    }

    /// The `base_type` field of the row.
    pub fn base_type(&self) -> (r: CodedIndex)
        ensures
            r == self.base_type,
    {
        self.base_type
    }

    /// The `fields` field of the row.
    pub fn fields(&self) -> (r: TableIndex)
        ensures
            r == self.fields,
    {
        self.fields
    }

    /// The `methods` field of the row.
    pub fn methods(&self) -> (r: TableIndex)
        ensures
            r == self.methods,
    {
        self.methods
    }
}

/// A decoded row of the field-definition table.
#[derive(Debug, Copy, Clone, PartialEq, Eq, Structural)]
pub struct Field {
    pub flags: u16,
    pub name: HeapIndex,
    pub signature: HeapIndex,
}

impl Field {
    /// Builds a row from the field values of the `Field` schema;
    /// `None` when the value count does not match it.
    pub fn from_values(vals: &Vec<u32>) -> (r: Option<Field>)
        ensures
            vals@.len() == 3 ==> (r matches Some(m) && m.flags == vals@[0] as u16
                && m.name == HeapIndex(vals@[1])
                && m.signature == HeapIndex(vals@[2])),
            vals@.len() != 3 ==> r is None,
    {
        if vals.len() != 3 {
            return None;
        }
        Some(Field {
            flags: vals[0] as u16,
            name: HeapIndex(vals[1]),
            signature: HeapIndex(vals[2]),
        })
    }

    /// The `flags` field of the row.
    pub fn flags(&self) -> (r: u16)
        ensures
            r == self.flags,
    {
        self.flags
    }

    /// The `name` field of the row.
    pub fn name(&self) -> (r: HeapIndex)
        ensures
            r == self.name,
    {
        self.name
    }

    /// The `signature` field of the row.
    pub fn signature(&self) -> (r: HeapIndex)
        ensures
            r == self.signature,
    {
        self.signature
    }
}

/// A decoded row of the method-definition table.
#[derive(Debug, Copy, Clone, PartialEq, Eq, Structural)]
pub struct MethodDef {
    pub rva: u32,
    pub impl_flags: u16,
    pub flags: u16,
    pub name: HeapIndex,
    pub signature: HeapIndex,
    pub params: TableIndex,
}

impl MethodDef {
    /// Builds a row from the field values of the `MethodDef` schema;
    /// `None` when the value count does not match it.
    pub fn from_values(vals: &Vec<u32>) -> (r: Option<MethodDef>)
        ensures
            vals@.len() == 6 ==> (r matches Some(m) && m.rva == vals@[0]
                && m.impl_flags == vals@[1] as u16
                && m.flags == vals@[2] as u16
                && m.name == HeapIndex(vals@[3])
                && m.signature == HeapIndex(vals@[4])
                && m.params == TableIndex(vals@[5])),
            vals@.len() != 6 ==> r is None,
    {
        if vals.len() != 6 {
            return None;
        }
        Some(MethodDef {
            rva: vals[0],
            impl_flags: vals[1] as u16,
            flags: vals[2] as u16,
            name: HeapIndex(vals[3]),
            signature: HeapIndex(vals[4]),
            params: TableIndex(vals[5]),
        })
    }

    /// The `rva` field of the row.
    pub fn rva(&self) -> (r: u32)
        ensures
            r == self.rva,
    {
        self.rva
    }

    /// The `impl_flags` field of the row.
    pub fn impl_flags(&self) -> (r: u16)
        ensures
            r == self.impl_flags,
    {
        self.impl_flags
    }

    /// The `flags` field of the row.
    pub fn flags(&self) -> (r: u16)
        ensures
            r == self.flags,
    {
        self.flags
    }

    /// The `name` field of the row.
    pub fn name(&self) -> (r: HeapIndex)
        ensures
            r == self.name,
    {
        self.name
    }

    /// The `signature` field of the row.
    pub fn signature(&self) -> (r: HeapIndex)
        ensures
            r == self.signature,
    {
        self.signature
    }

    /// The `params` field of the row.
    pub fn params(&self) -> (r: TableIndex)
        ensures
            r == self.params,
    {
        self.params
    }
}

/// A decoded row of the parameter table.
#[derive(Debug, Copy, Clone, PartialEq, Eq, Structural)]
pub struct Param {
    pub flags: u16,
    pub sequence: u16,
    pub name: HeapIndex,
}

impl Param {
    /// Builds a row from the field values of the `Param` schema;
    /// `None` when the value count does not match it.
    pub fn from_values(vals: &Vec<u32>) -> (r: Option<Param>)
        ensures
            vals@.len() == 3 ==> (r matches Some(m) && m.flags == vals@[0] as u16
                && m.sequence == vals@[1] as u16
                && m.name == HeapIndex(vals@[2])),
            vals@.len() != 3 ==> r is None,
    {
        if vals.len() != 3 {
            return None;
        }
        Some(Param {
            flags: vals[0] as u16,
            sequence: vals[1] as u16,
            name: HeapIndex(vals[2]),
        })
    }

    /// The `flags` field of the row.
    pub fn flags(&self) -> (r: u16)
        ensures
            r == self.flags,
    {
        self.flags
    }

    /// The `sequence` field of the row.
    pub fn sequence(&self) -> (r: u16)
        ensures
            r == self.sequence,
    {
        self.sequence
    }

    /// The `name` field of the row.
    pub fn name(&self) -> (r: HeapIndex)
        ensures
            r == self.name,
    {
        self.name
    }
}

/// A decoded row of the interface-implementation table.
#[derive(Debug, Copy, Clone, PartialEq, Eq, Structural)]
pub struct InterfaceImpl {
    pub class: TableIndex,
    pub interface: CodedIndex,
}

impl InterfaceImpl {
    /// Builds a row from the field values of the `InterfaceImpl` schema;
    /// `None` when the value count does not match it.
    pub fn from_values(vals: &Vec<u32>) -> (r: Option<InterfaceImpl>)
        ensures
            vals@.len() == 2 ==> (r matches Some(m) && m.class == TableIndex(vals@[0])
                && m.interface == CodedIndex(vals@[1])),
            vals@.len() != 2 ==> r is None,
    {
        if vals.len() != 2 {
            return None;
        }
        Some(InterfaceImpl {
            class: TableIndex(vals[0]),
            interface: CodedIndex(vals[1]),
        })
    }

    /// The `class` field of the row.
    pub fn class(&self) -> (r: TableIndex)
        ensures
            r == self.class,
    {
        self.class
    }

    /// The `interface` field of the row.
    pub fn interface(&self) -> (r: CodedIndex)
        ensures
            r == self.interface,
    {
        self.interface
    }
}

/// A decoded row of the member-reference table.
#[derive(Debug, Copy, Clone, PartialEq, Eq, Structural)]
pub struct MemberRef {
    pub parent: CodedIndex,
    pub name: HeapIndex,
    pub signature: HeapIndex,
}

impl MemberRef {
    /// Builds a row from the field values of the `MemberRef` schema;
    /// `None` when the value count does not match it.
    pub fn from_values(vals: &Vec<u32>) -> (r: Option<MemberRef>)
        ensures
            vals@.len() == 3 ==> (r matches Some(m) && m.parent == CodedIndex(vals@[0])
                && m.name == HeapIndex(vals@[1])
                && m.signature == HeapIndex(vals@[2])),
            vals@.len() != 3 ==> r is None,
    {
        if vals.len() != 3 {
            return None;
        }
        Some(MemberRef {
            parent: CodedIndex(vals[0]),
            name: HeapIndex(vals[1]),
            signature: HeapIndex(vals[2]),
        })
    }

    /// The `parent` field of the row.
    pub fn parent(&self) -> (r: CodedIndex)
        ensures
            r == self.parent,
    {
        self.parent
    }

    /// The `name` field of the row.
    pub fn name(&self) -> (r: HeapIndex)
        ensures
            r == self.name,
    {
        self.name
    }

    /// The `signature` field of the row.
    pub fn signature(&self) -> (r: HeapIndex)
        ensures
            r == self.signature,
    {
        self.signature
    }
}

/// A decoded row of the constant table.
#[derive(Debug, Copy, Clone, PartialEq, Eq, Structural)]
pub struct Constant {
    pub type_: u8,
    pub padding: u8,
    pub parent: CodedIndex,
    pub value: HeapIndex,
}

impl Constant {
    /// Builds a row from the field values of the `Constant` schema;
    /// `None` when the value count does not match it.
    pub fn from_values(vals: &Vec<u32>) -> (r: Option<Constant>)
        ensures
            vals@.len() == 4 ==> (r matches Some(m) && m.type_ == vals@[0] as u8
                && m.padding == vals@[1] as u8
                && m.parent == CodedIndex(vals@[2])
                && m.value == HeapIndex(vals@[3])),
            vals@.len() != 4 ==> r is None,
    {
        if vals.len() != 4 {
            return None;
        }
        Some(Constant {
            type_: vals[0] as u8,
            padding: vals[1] as u8,
            parent: CodedIndex(vals[2]),
            value: HeapIndex(vals[3]),
        })
    }

    /// The `type_` field of the row.
    pub fn type_(&self) -> (r: u8)
        ensures
            r == self.type_,
    {
        self.type_
    }

    /// The `padding` field of the row.
    pub fn padding(&self) -> (r: u8)
        ensures
            r == self.padding,
    {
        self.padding
    }

    /// The `parent` field of the row.
    pub fn parent(&self) -> (r: CodedIndex)
        ensures
            r == self.parent,
    {
        self.parent
    }

    /// The `value` field of the row.
    pub fn value(&self) -> (r: HeapIndex)
        ensures
            r == self.value,
    {
        self.value
    }
}

/// A decoded row of the custom-attribute table.
#[derive(Debug, Copy, Clone, PartialEq, Eq, Structural)]
pub struct CustomAttribute {
    pub parent: CodedIndex,
    pub type_: CodedIndex,
    pub value: HeapIndex,
}

impl CustomAttribute {
    /// Builds a row from the field values of the `CustomAttribute` schema;
    /// `None` when the value count does not match it.
    pub fn from_values(vals: &Vec<u32>) -> (r: Option<CustomAttribute>)
        ensures
            vals@.len() == 3 ==> (r matches Some(m) && m.parent == CodedIndex(vals@[0])
                && m.type_ == CodedIndex(vals@[1])
                && m.value == HeapIndex(vals@[2])),
            vals@.len() != 3 ==> r is None,
    {
        if vals.len() != 3 {
            return None;
        }
        Some(CustomAttribute {
            parent: CodedIndex(vals[0]),
            type_: CodedIndex(vals[1]),
            value: HeapIndex(vals[2]),
        })
    }

    /// The `parent` field of the row.
    pub fn parent(&self) -> (r: CodedIndex)
        ensures
            r == self.parent,
    {
        self.parent
    }

    /// The `type_` field of the row.
    pub fn type_(&self) -> (r: CodedIndex)
        ensures
            r == self.type_,
    {
        self.type_
    }

    /// The `value` field of the row.
    pub fn value(&self) -> (r: HeapIndex)
        ensures
            r == self.value,
    {
        self.value
    }
}

/// A decoded row of the field-marshal table.
#[derive(Debug, Copy, Clone, PartialEq, Eq, Structural)]
pub struct FieldMarshal {
    pub parent: CodedIndex,
    pub native_type: HeapIndex,
}

impl FieldMarshal {
    /// Builds a row from the field values of the `FieldMarshal` schema;
    /// `None` when the value count does not match it.
    pub fn from_values(vals: &Vec<u32>) -> (r: Option<FieldMarshal>)
        ensures
            vals@.len() == 2 ==> (r matches Some(m) && m.parent == CodedIndex(vals@[0])
                && m.native_type == HeapIndex(vals@[1])),
            vals@.len() != 2 ==> r is None,
    {
        if vals.len() != 2 {
            return None;
        }
        Some(FieldMarshal {
            parent: CodedIndex(vals[0]),
            native_type: HeapIndex(vals[1]),
        })
    }

    /// The `parent` field of the row.
    pub fn parent(&self) -> (r: CodedIndex)
        ensures
            r == self.parent,
    {
        self.parent
    }

    /// The `native_type` field of the row.
    pub fn native_type(&self) -> (r: HeapIndex)
        ensures
            r == self.native_type,
    {
        self.native_type
    }
}

/// A decoded row of the declarative-security table.
#[derive(Debug, Copy, Clone, PartialEq, Eq, Structural)]
pub struct DeclSecurity {
    pub action: u16,
    pub parent: CodedIndex,
    pub permission_set: HeapIndex,
}

impl DeclSecurity {
    /// Builds a row from the field values of the `DeclSecurity` schema;
    /// `None` when the value count does not match it.
    pub fn from_values(vals: &Vec<u32>) -> (r: Option<DeclSecurity>)
        ensures
            vals@.len() == 3 ==> (r matches Some(m) && m.action == vals@[0] as u16
                && m.parent == CodedIndex(vals@[1])
                && m.permission_set == HeapIndex(vals@[2])),
            vals@.len() != 3 ==> r is None,
    {
        if vals.len() != 3 {
            return None;
        }
        Some(DeclSecurity {
            action: vals[0] as u16,
            parent: CodedIndex(vals[1]),
            permission_set: HeapIndex(vals[2]),
        })
    }

    /// The `action` field of the row.
    pub fn action(&self) -> (r: u16)
        ensures
            r == self.action,
    {
        self.action
    }

    /// The `parent` field of the row.
    pub fn parent(&self) -> (r: CodedIndex)
        ensures
            r == self.parent,
    {
        self.parent
    }

    /// The `permission_set` field of the row.
    pub fn permission_set(&self) -> (r: HeapIndex)
        ensures
            r == self.permission_set,
    {
        self.permission_set
    }
}

/// A decoded row of the class-layout table.
#[derive(Debug, Copy, Clone, PartialEq, Eq, Structural)]
pub struct ClassLayout {
    pub packing_size: u16,
    pub class_size: u32,
    pub parent: TableIndex,
}

impl ClassLayout {
    /// Builds a row from the field values of the `ClassLayout` schema;
    /// `None` when the value count does not match it.
    pub fn from_values(vals: &Vec<u32>) -> (r: Option<ClassLayout>)
        ensures
            vals@.len() == 3 ==> (r matches Some(m) && m.packing_size == vals@[0] as u16
                && m.class_size == vals@[1]
                && m.parent == TableIndex(vals@[2])),
            vals@.len() != 3 ==> r is None,
    {
        if vals.len() != 3 {
            return None;
        }
        Some(ClassLayout {
            packing_size: vals[0] as u16,
            class_size: vals[1],
            parent: TableIndex(vals[2]),
        })
    }

    /// The `packing_size` field of the row.
    pub fn packing_size(&self) -> (r: u16)
        ensures
            r == self.packing_size,
    {
        self.packing_size
    }

    /// The `class_size` field of the row.
    pub fn class_size(&self) -> (r: u32)
        ensures
            r == self.class_size,
    {
        self.class_size
    }

    /// The `parent` field of the row.
    pub fn parent(&self) -> (r: TableIndex)
        ensures
            r == self.parent,
    {
        self.parent
    }
}

/// A decoded row of the field-layout table.
#[derive(Debug, Copy, Clone, PartialEq, Eq, Structural)]
pub struct FieldLayout {
    pub offset: u32,
    pub field: TableIndex,
}

impl FieldLayout {
    /// Builds a row from the field values of the `FieldLayout` schema;
    /// `None` when the value count does not match it.
    pub fn from_values(vals: &Vec<u32>) -> (r: Option<FieldLayout>)
        ensures
            vals@.len() == 2 ==> (r matches Some(m) && m.offset == vals@[0]
                && m.field == TableIndex(vals@[1])),
            vals@.len() != 2 ==> r is None,
    {
        if vals.len() != 2 {
            return None;
        }
        Some(FieldLayout {
            offset: vals[0],
            field: TableIndex(vals[1]),
        })
    }

    /// The `offset` field of the row.
    pub fn offset(&self) -> (r: u32)
        ensures
            r == self.offset,
    {
        self.offset
    }

    /// The `field` field of the row.
    pub fn field(&self) -> (r: TableIndex)
        ensures
            r == self.field,
    {
        self.field
    }
}

/// A decoded row of the stand-alone-signature table.
#[derive(Debug, Copy, Clone, PartialEq, Eq, Structural)]
pub struct StandAloneSig {
    pub signature: HeapIndex,
}

impl StandAloneSig {
    /// Builds a row from the field values of the `StandAloneSig` schema;
    /// `None` when the value count does not match it.
    pub fn from_values(vals: &Vec<u32>) -> (r: Option<StandAloneSig>)
        ensures
            vals@.len() == 1 ==> (r matches Some(m) && m.signature == HeapIndex(vals@[0])),
            vals@.len() != 1 ==> r is None,
    {
        if vals.len() != 1 {
            return None;
        }
        Some(StandAloneSig {
            signature: HeapIndex(vals[0]),
        })
    }

    /// The `signature` field of the row.
    pub fn signature(&self) -> (r: HeapIndex)
        ensures
            r == self.signature,
    {
        self.signature
    }
}

/// A decoded row of the event-map table.
#[derive(Debug, Copy, Clone, PartialEq, Eq, Structural)]
pub struct EventMap {
    pub parent: TableIndex,
    pub event_list: TableIndex,
}

impl EventMap {
    /// Builds a row from the field values of the `EventMap` schema;
    /// `None` when the value count does not match it.
    pub fn from_values(vals: &Vec<u32>) -> (r: Option<EventMap>)
        ensures
            vals@.len() == 2 ==> (r matches Some(m) && m.parent == TableIndex(vals@[0])
                && m.event_list == TableIndex(vals@[1])),
            vals@.len() != 2 ==> r is None,
    {
        if vals.len() != 2 {
            return None;
        }
        Some(EventMap {
            parent: TableIndex(vals[0]),
            event_list: TableIndex(vals[1]),
        })
    }

    /// The `parent` field of the row.
    pub fn parent(&self) -> (r: TableIndex)
        ensures
            r == self.parent,
    {
        self.parent
    }

    /// The `event_list` field of the row.
    pub fn event_list(&self) -> (r: TableIndex)
        ensures
            r == self.event_list,
    {
        self.event_list
    }
}

/// A decoded row of the event table.
#[derive(Debug, Copy, Clone, PartialEq, Eq, Structural)]
pub struct Event {
    pub flags: u16,
    pub name: HeapIndex,
    pub type_: CodedIndex,
}

impl Event {
    /// Builds a row from the field values of the `Event` schema;
    /// `None` when the value count does not match it.
    pub fn from_values(vals: &Vec<u32>) -> (r: Option<Event>)
        ensures
            vals@.len() == 3 ==> (r matches Some(m) && m.flags == vals@[0] as u16
                && m.name == HeapIndex(vals@[1])
                && m.type_ == CodedIndex(vals@[2])),
            vals@.len() != 3 ==> r is None,
    {
        if vals.len() != 3 {
            return None;
        }
        Some(Event {
            flags: vals[0] as u16,
            name: HeapIndex(vals[1]),
            type_: CodedIndex(vals[2]),
        })
    }

    /// The `flags` field of the row.
    pub fn flags(&self) -> (r: u16)
        ensures
            r == self.flags,
    {
        self.flags
    }

    /// The `name` field of the row.
    pub fn name(&self) -> (r: HeapIndex)
        ensures
            r == self.name,
    {
        self.name
    }

    /// The `type_` field of the row.
    pub fn type_(&self) -> (r: CodedIndex)
        ensures
            r == self.type_,
    {
        self.type_
    }
}

/// A decoded row of the property-map table.
#[derive(Debug, Copy, Clone, PartialEq, Eq, Structural)]
pub struct PropertyMap {
    pub parent: TableIndex,
    pub property_list: TableIndex,
}

impl PropertyMap {
    /// Builds a row from the field values of the `PropertyMap` schema;
    /// `None` when the value count does not match it.
    pub fn from_values(vals: &Vec<u32>) -> (r: Option<PropertyMap>)
        ensures
            vals@.len() == 2 ==> (r matches Some(m) && m.parent == TableIndex(vals@[0])
                && m.property_list == TableIndex(vals@[1])),
            vals@.len() != 2 ==> r is None,
    {
        if vals.len() != 2 {
            return None;
        }
        Some(PropertyMap {
            parent: TableIndex(vals[0]),
            property_list: TableIndex(vals[1]),
        })
    }

    /// The `parent` field of the row.
    pub fn parent(&self) -> (r: TableIndex)
        ensures
            r == self.parent,
    {
        self.parent
    }

    /// The `property_list` field of the row.
    pub fn property_list(&self) -> (r: TableIndex)
        ensures
            r == self.property_list,
    {
        self.property_list
    }
}

/// A decoded row of the property table.
#[derive(Debug, Copy, Clone, PartialEq, Eq, Structural)]
pub struct Property {
    pub flags: u16,
    pub name: HeapIndex,
    pub signature: HeapIndex,
}

impl Property {
    /// Builds a row from the field values of the `Property` schema;
    /// `None` when the value count does not match it.
    pub fn from_values(vals: &Vec<u32>) -> (r: Option<Property>)
        ensures
            vals@.len() == 3 ==> (r matches Some(m) && m.flags == vals@[0] as u16
                && m.name == HeapIndex(vals@[1])
                && m.signature == HeapIndex(vals@[2])),
            vals@.len() != 3 ==> r is None,
    {
        if vals.len() != 3 {
            return None;
        }
        Some(Property {
            flags: vals[0] as u16,
            name: HeapIndex(vals[1]),
            signature: HeapIndex(vals[2]),
        })
    }

    /// The `flags` field of the row.
    pub fn flags(&self) -> (r: u16)
        ensures
            r == self.flags,
    {
        self.flags
    }

    /// The `name` field of the row.
    pub fn name(&self) -> (r: HeapIndex)
        ensures
            r == self.name,
    {
        self.name
    }

    /// The `signature` field of the row.
    pub fn signature(&self) -> (r: HeapIndex)
        ensures
            r == self.signature,
    {
        self.signature
    }
}

/// A decoded row of the method-semantics table.
#[derive(Debug, Copy, Clone, PartialEq, Eq, Structural)]
pub struct MethodSemantics {
    pub semantics: u16,
    pub method: TableIndex,
    pub association: CodedIndex,
}

impl MethodSemantics {
    /// Builds a row from the field values of the `MethodSemantics` schema;
    /// `None` when the value count does not match it.
    pub fn from_values(vals: &Vec<u32>) -> (r: Option<MethodSemantics>)
        ensures
            vals@.len() == 3 ==> (r matches Some(m) && m.semantics == vals@[0] as u16
                && m.method == TableIndex(vals@[1])
                && m.association == CodedIndex(vals@[2])),
            vals@.len() != 3 ==> r is None,
    {
        if vals.len() != 3 {
            return None;
        }
        Some(MethodSemantics {
            semantics: vals[0] as u16,
            method: TableIndex(vals[1]),
            association: CodedIndex(vals[2]),
        })
    }

    /// The `semantics` field of the row.
    pub fn semantics(&self) -> (r: u16)
        ensures
            r == self.semantics,
    {
        self.semantics
    }

    /// The `method` field of the row.
    pub fn method(&self) -> (r: TableIndex)
        ensures
            r == self.method,
    {
        self.method
    }

    /// The `association` field of the row.
    pub fn association(&self) -> (r: CodedIndex)
        ensures
            r == self.association,
    {
        self.association
    }
}

/// A decoded row of the method-implementation table.
#[derive(Debug, Copy, Clone, PartialEq, Eq, Structural)]
pub struct MethodImpl {
    pub class: TableIndex,
    pub body: CodedIndex,
    pub declaration: CodedIndex,
}

impl MethodImpl {
    /// Builds a row from the field values of the `MethodImpl` schema;
    /// `None` when the value count does not match it.
    pub fn from_values(vals: &Vec<u32>) -> (r: Option<MethodImpl>)
        ensures
            vals@.len() == 3 ==> (r matches Some(m) && m.class == TableIndex(vals@[0])
                && m.body == CodedIndex(vals@[1])
                && m.declaration == CodedIndex(vals@[2])),
            vals@.len() != 3 ==> r is None,
    {
        if vals.len() != 3 {
            return None;
        }
        Some(MethodImpl {
            class: TableIndex(vals[0]),
            body: CodedIndex(vals[1]),
            declaration: CodedIndex(vals[2]),
        })
    }

    /// The `class` field of the row.
    pub fn class(&self) -> (r: TableIndex)
        ensures
            r == self.class,
    {
        self.class
    }

    /// The `body` field of the row.
    pub fn body(&self) -> (r: CodedIndex)
        ensures
            r == self.body,
    {
        self.body
    }

    /// The `declaration` field of the row.
    pub fn declaration(&self) -> (r: CodedIndex)
        ensures
            r == self.declaration,
    {
        self.declaration
    }
}

/// A decoded row of the module-reference table.
#[derive(Debug, Copy, Clone, PartialEq, Eq, Structural)]
pub struct ModuleRef {
    pub name: HeapIndex,
}

impl ModuleRef {
    /// Builds a row from the field values of the `ModuleRef` schema;
    /// `None` when the value count does not match it.
    pub fn from_values(vals: &Vec<u32>) -> (r: Option<ModuleRef>)
        ensures
            vals@.len() == 1 ==> (r matches Some(m) && m.name == HeapIndex(vals@[0])),
            vals@.len() != 1 ==> r is None,
    {
        if vals.len() != 1 {
            return None;
        }
        Some(ModuleRef {
            name: HeapIndex(vals[0]),
        })
    }

    /// The `name` field of the row.
    pub fn name(&self) -> (r: HeapIndex)
        ensures
            r == self.name,
    {
        self.name
    }
}

/// A decoded row of the type-specification table.
#[derive(Debug, Copy, Clone, PartialEq, Eq, Structural)]
pub struct TypeSpec {
    pub signature: HeapIndex,
}

impl TypeSpec {
    /// Builds a row from the field values of the `TypeSpec` schema;
    /// `None` when the value count does not match it.
    pub fn from_values(vals: &Vec<u32>) -> (r: Option<TypeSpec>)
        ensures
            vals@.len() == 1 ==> (r matches Some(m) && m.signature == HeapIndex(vals@[0])),
            vals@.len() != 1 ==> r is None,
    {
        if vals.len() != 1 {
            return None;
        }
        Some(TypeSpec {
            signature: HeapIndex(vals[0]),
        })
    }

    /// The `signature` field of the row.
    pub fn signature(&self) -> (r: HeapIndex)
        ensures
            r == self.signature,
    {
        self.signature
    }
}

/// A decoded row of the implementation-map table.
#[derive(Debug, Copy, Clone, PartialEq, Eq, Structural)]
pub struct ImplMap {
    pub mapping_flags: u16,
    pub member_forwarded: CodedIndex,
    pub import_name: HeapIndex,
    pub import_scope: TableIndex,
}

impl ImplMap {
    /// Builds a row from the field values of the `ImplMap` schema;
    /// `None` when the value count does not match it.
    pub fn from_values(vals: &Vec<u32>) -> (r: Option<ImplMap>)
        ensures
            vals@.len() == 4 ==> (r matches Some(m) && m.mapping_flags == vals@[0] as u16
                && m.member_forwarded == CodedIndex(vals@[1])
                && m.import_name == HeapIndex(vals@[2])
                && m.import_scope == TableIndex(vals@[3])),
            vals@.len() != 4 ==> r is None,
    {
        if vals.len() != 4 {
            return None;
        }
        Some(ImplMap {
            mapping_flags: vals[0] as u16,
            member_forwarded: CodedIndex(vals[1]),
            import_name: HeapIndex(vals[2]),
            import_scope: TableIndex(vals[3]),
        })
    }

    /// The `mapping_flags` field of the row.
    pub fn mapping_flags(&self) -> (r: u16)
        ensures
            r == self.mapping_flags,
    {
        self.mapping_flags
    }

    /// The `member_forwarded` field of the row.
    pub fn member_forwarded(&self) -> (r: CodedIndex)
        ensures
            r == self.member_forwarded,
    {
        self.member_forwarded
    }

    /// The `import_name` field of the row.
    pub fn import_name(&self) -> (r: HeapIndex)
        ensures
            r == self.import_name,
    {
        self.import_name
    }

    /// The `import_scope` field of the row.
    pub fn import_scope(&self) -> (r: TableIndex)
        ensures
            r == self.import_scope,
    {
        self.import_scope
    }
}

/// A decoded row of the field-RVA table.
#[derive(Debug, Copy, Clone, PartialEq, Eq, Structural)]
pub struct FieldRVA {
    pub rva: u32,
    pub field: TableIndex,
}

impl FieldRVA {
    /// Builds a row from the field values of the `FieldRVA` schema;
    /// `None` when the value count does not match it.
    pub fn from_values(vals: &Vec<u32>) -> (r: Option<FieldRVA>)
        ensures
            vals@.len() == 2 ==> (r matches Some(m) && m.rva == vals@[0]
                && m.field == TableIndex(vals@[1])),
            vals@.len() != 2 ==> r is None,
    {
        if vals.len() != 2 {
            return None;
        }
        Some(FieldRVA {
            rva: vals[0],
            field: TableIndex(vals[1]),
        })
    }

    /// The `rva` field of the row.
    pub fn rva(&self) -> (r: u32)
        ensures
            r == self.rva,
    {
        self.rva
    }

    /// The `field` field of the row.
    pub fn field(&self) -> (r: TableIndex)
        ensures
            r == self.field,
    {
        self.field
    }
}

/// A decoded row of the assembly-identity table.
#[derive(Debug, Copy, Clone, PartialEq, Eq, Structural)]
pub struct Assembly {
    pub hash_algorithm: u32,
    pub major_version: u16,
    pub minor_version: u16,
    pub build_number: u16,
    pub revision_number: u16,
    pub flags: u32,
    pub public_key: HeapIndex,
    pub name: HeapIndex,
    pub culture: HeapIndex,
}

impl Assembly {
    /// Builds a row from the field values of the `Assembly` schema;
    /// `None` when the value count does not match it.
    pub fn from_values(vals: &Vec<u32>) -> (r: Option<Assembly>)
        ensures
            vals@.len() == 9 ==> (r matches Some(m) && m.hash_algorithm == vals@[0]
                && m.major_version == vals@[1] as u16
                && m.minor_version == vals@[2] as u16
                && m.build_number == vals@[3] as u16
                && m.revision_number == vals@[4] as u16
                && m.flags == vals@[5]
                && m.public_key == HeapIndex(vals@[6])
                && m.name == HeapIndex(vals@[7])
                && m.culture == HeapIndex(vals@[8])),
            vals@.len() != 9 ==> r is None,
    {
        if vals.len() != 9 {
            return None;
        }
        Some(Assembly {
            hash_algorithm: vals[0],
            major_version: vals[1] as u16,
            minor_version: vals[2] as u16,
            build_number: vals[3] as u16,
            revision_number: vals[4] as u16,
            flags: vals[5],
            public_key: HeapIndex(vals[6]),
            name: HeapIndex(vals[7]),
            culture: HeapIndex(vals[8]),
        })
    }

    /// The `hash_algorithm` field of the row.
    pub fn hash_algorithm(&self) -> (r: u32)
        ensures
            r == self.hash_algorithm,
    {
        self.hash_algorithm
    }

    /// The `major_version` field of the row.
    pub fn major_version(&self) -> (r: u16)
        ensures
            r == self.major_version,
    {
        self.major_version
    }

    /// The `minor_version` field of the row.
    pub fn minor_version(&self) -> (r: u16)
        ensures
            r == self.minor_version,
    {
        self.minor_version
    }

    /// The `build_number` field of the row.
    pub fn build_number(&self) -> (r: u16)
        ensures
            r == self.build_number,
    {
        self.build_number
    }

    /// The `revision_number` field of the row.
    pub fn revision_number(&self) -> (r: u16)
        ensures
            r == self.revision_number,
    {
        self.revision_number
    }

    /// The `flags` field of the row.
    pub fn flags(&self) -> (r: u32)
        ensures
            r == self.flags,
    {
        self.flags
    }

    /// The `public_key` field of the row.
    pub fn public_key(&self) -> (r: HeapIndex)
        ensures
            r == self.public_key,
    {
        self.public_key
    }

    /// The `name` field of the row.
    pub fn name(&self) -> (r: HeapIndex)
        ensures
            r == self.name,
    {
        self.name
    }

    /// The `culture` field of the row.
    pub fn culture(&self) -> (r: HeapIndex)
        ensures
            r == self.culture,
    {
        self.culture
    }
}

/// A decoded row of the assembly-reference table.
#[derive(Debug, Copy, Clone, PartialEq, Eq, Structural)]
pub struct AssemblyRef {
    pub major_version: u16,
    pub minor_version: u16,
    pub build_number: u16,
    pub revision_number: u16,
    pub flags: u32,
    pub public_key: HeapIndex,
    pub name: HeapIndex,
    pub culture: HeapIndex,
    pub hash_value: HeapIndex,
}

impl AssemblyRef {
    /// Builds a row from the field values of the `AssemblyRef` schema;
    /// `None` when the value count does not match it.
    pub fn from_values(vals: &Vec<u32>) -> (r: Option<AssemblyRef>)
        ensures
            vals@.len() == 9 ==> (r matches Some(m) && m.major_version == vals@[0] as u16
                && m.minor_version == vals@[1] as u16
                && m.build_number == vals@[2] as u16
                && m.revision_number == vals@[3] as u16
                && m.flags == vals@[4]
                && m.public_key == HeapIndex(vals@[5])
                && m.name == HeapIndex(vals@[6])
                && m.culture == HeapIndex(vals@[7])
                && m.hash_value == HeapIndex(vals@[8])),
            vals@.len() != 9 ==> r is None,
    {
        if vals.len() != 9 {
            return None;
        }
        Some(AssemblyRef {
            major_version: vals[0] as u16,
            minor_version: vals[1] as u16,
            build_number: vals[2] as u16,
            revision_number: vals[3] as u16,
            flags: vals[4],
            public_key: HeapIndex(vals[5]),
            name: HeapIndex(vals[6]),
            culture: HeapIndex(vals[7]),
            hash_value: HeapIndex(vals[8]),
        })
    }

    /// The `major_version` field of the row.
    pub fn major_version(&self) -> (r: u16)
        ensures
            r == self.major_version,
    {
        self.major_version
    }

    /// The `minor_version` field of the row.
    pub fn minor_version(&self) -> (r: u16)
        ensures
            r == self.minor_version,
    {
        self.minor_version
    }

    /// The `build_number` field of the row.
    pub fn build_number(&self) -> (r: u16)
        ensures
            r == self.build_number,
    {
        self.build_number
    }

    /// The `revision_number` field of the row.
    pub fn revision_number(&self) -> (r: u16)
        ensures
            r == self.revision_number,
    {
        self.revision_number
    }

    /// The `flags` field of the row.
    pub fn flags(&self) -> (r: u32)
        ensures
            r == self.flags,
    {
        self.flags
    }

    /// The `public_key` field of the row.
    pub fn public_key(&self) -> (r: HeapIndex)
        ensures
            r == self.public_key,
    {
        self.public_key
    }

    /// The `name` field of the row.
    pub fn name(&self) -> (r: HeapIndex)
        ensures
            r == self.name,
    {
        self.name
    }

    /// The `culture` field of the row.
    pub fn culture(&self) -> (r: HeapIndex)
        ensures
            r == self.culture,
    {
        self.culture
    }

    /// The `hash_value` field of the row.
    pub fn hash_value(&self) -> (r: HeapIndex)
        ensures
            r == self.hash_value,
    {
        self.hash_value
    }
}

/// The hash algorithms an assembly row can name.
#[derive(Debug, Copy, Clone, PartialEq, Eq, Structural)]
pub enum AssemblyHashAlgorithm {
    /// No hash algorithm (stored as 0).
    Unspecified,
    /// MD5 (stored as 0x8003).
    Md5,
    /// SHA-1 (stored as 0x8004).
    Sha1,
}

/// The stored code of each assembly hash algorithm.
pub open spec fn spec_hash_algorithm_code(a: AssemblyHashAlgorithm) -> u32 {
    match a {
        AssemblyHashAlgorithm::Unspecified => 0,
        AssemblyHashAlgorithm::Md5 => 0x8003,
        AssemblyHashAlgorithm::Sha1 => 0x8004,
    }
}

/// The hash algorithm a stored code names, if any.
pub open spec fn spec_hash_algorithm_of_code(code: u32) -> Option<AssemblyHashAlgorithm> {
    if code == 0 {
        Some(AssemblyHashAlgorithm::Unspecified)
    } else if code == 0x8003 {
        Some(AssemblyHashAlgorithm::Md5)
    } else if code == 0x8004 {
        Some(AssemblyHashAlgorithm::Sha1)
    } else {
        None
    }
}

impl AssemblyHashAlgorithm {
    /// The stored code of this hash algorithm.
    pub fn code(self) -> (r: u32)
        ensures
            r == spec_hash_algorithm_code(self),
    {
        match self {
            AssemblyHashAlgorithm::Unspecified => 0,
            AssemblyHashAlgorithm::Md5 => 0x8003,
            AssemblyHashAlgorithm::Sha1 => 0x8004,
        }
    }
}

/// The hash algorithm a stored code names, or `None` for any other code.
pub fn hash_algorithm_of_code(code: u32) -> (r: Option<AssemblyHashAlgorithm>)
    ensures
        r == spec_hash_algorithm_of_code(code),
{
    if code == 0 {
        Some(AssemblyHashAlgorithm::Unspecified)
    } else if code == 0x8003 {
        Some(AssemblyHashAlgorithm::Md5)
    } else if code == 0x8004 {
        Some(AssemblyHashAlgorithm::Sha1)
    } else {
        None
    }
}


/// The element types a constant row can carry, per the metadata
/// signature encoding.
#[derive(Debug, Copy, Clone, PartialEq, Eq, Structural)]
pub enum ElementType {
    End,
    Void,
    Boolean,
    Char,
    I1,
    U1,
    I2,
    U2,
    I4,
    U4,
    I8,
    U8,
    R4,
    R8,
    Text,
    Ptr,
    ByRef,
    ValueType,
    Class,
    Var,
    Array,
    GenericInst,
    TypedByRef,
    IPtr,
    UPtr,
    FnPtr,
    Object,
    SzArray,
    MVar,
    CModReqd,
    CModOpt,
    Internal,
    Modifier,
    Sentinel,
    Pinned,
    TypeTag,
}

/// The stored code of each element type.
pub open spec fn spec_element_type_code(e: ElementType) -> u8 {
    match e {
        ElementType::End => 0x00,
        ElementType::Void => 0x01,
        ElementType::Boolean => 0x02,
        ElementType::Char => 0x03,
        ElementType::I1 => 0x04,
        ElementType::U1 => 0x05,
        ElementType::I2 => 0x06,
        ElementType::U2 => 0x07,
        ElementType::I4 => 0x08,
        ElementType::U4 => 0x09,
        ElementType::I8 => 0x0A,
        ElementType::U8 => 0x0B,
        ElementType::R4 => 0x0C,
        ElementType::R8 => 0x0D,
        ElementType::Text => 0x0E,
        ElementType::Ptr => 0x0F,
        ElementType::ByRef => 0x10,
        ElementType::ValueType => 0x11,
        ElementType::Class => 0x12,
        ElementType::Var => 0x13,
        ElementType::Array => 0x14,
        ElementType::GenericInst => 0x15,
        ElementType::TypedByRef => 0x16,
        ElementType::IPtr => 0x17,
        ElementType::UPtr => 0x18,
        ElementType::FnPtr => 0x1B,
        ElementType::Object => 0x1C,
        ElementType::SzArray => 0x1D,
        ElementType::MVar => 0x1E,
        ElementType::CModReqd => 0x1F,
        ElementType::CModOpt => 0x20,
        ElementType::Internal => 0x21,
        ElementType::Modifier => 0x40,
        ElementType::Sentinel => 0x41,
        ElementType::Pinned => 0x45,
        ElementType::TypeTag => 0x50,
    }
}

/// The element type a stored code names, if any.
pub open spec fn spec_element_type_of_code(code: u8) -> Option<ElementType> {
    match code {
        0x00u8 => Some(ElementType::End),
        0x01u8 => Some(ElementType::Void),
        0x02u8 => Some(ElementType::Boolean),
        0x03u8 => Some(ElementType::Char),
        0x04u8 => Some(ElementType::I1),
        0x05u8 => Some(ElementType::U1),
        0x06u8 => Some(ElementType::I2),
        0x07u8 => Some(ElementType::U2),
        0x08u8 => Some(ElementType::I4),
        0x09u8 => Some(ElementType::U4),
        0x0Au8 => Some(ElementType::I8),
        0x0Bu8 => Some(ElementType::U8),
        0x0Cu8 => Some(ElementType::R4),
        0x0Du8 => Some(ElementType::R8),
        0x0Eu8 => Some(ElementType::Text),
        0x0Fu8 => Some(ElementType::Ptr),
        0x10u8 => Some(ElementType::ByRef),
        0x11u8 => Some(ElementType::ValueType),
        0x12u8 => Some(ElementType::Class),
        0x13u8 => Some(ElementType::Var),
        0x14u8 => Some(ElementType::Array),
        0x15u8 => Some(ElementType::GenericInst),
        0x16u8 => Some(ElementType::TypedByRef),
        0x17u8 => Some(ElementType::IPtr),
        0x18u8 => Some(ElementType::UPtr),
        0x1Bu8 => Some(ElementType::FnPtr),
        0x1Cu8 => Some(ElementType::Object),
        0x1Du8 => Some(ElementType::SzArray),
        0x1Eu8 => Some(ElementType::MVar),
        0x1Fu8 => Some(ElementType::CModReqd),
        0x20u8 => Some(ElementType::CModOpt),
        0x21u8 => Some(ElementType::Internal),
        0x40u8 => Some(ElementType::Modifier),
        0x41u8 => Some(ElementType::Sentinel),
        0x45u8 => Some(ElementType::Pinned),
        0x50u8 => Some(ElementType::TypeTag),
        _ => None,
    }
}

/// The element type a stored code names, or `None` for any other code.
pub fn element_type_of_code(code: u8) -> (r: Option<ElementType>)
    ensures
        r == spec_element_type_of_code(code),
{
    match code {
        0x00u8 => Some(ElementType::End),
        0x01u8 => Some(ElementType::Void),
        0x02u8 => Some(ElementType::Boolean),
        0x03u8 => Some(ElementType::Char),
        0x04u8 => Some(ElementType::I1),
        0x05u8 => Some(ElementType::U1),
        0x06u8 => Some(ElementType::I2),
        0x07u8 => Some(ElementType::U2),
        0x08u8 => Some(ElementType::I4),
        0x09u8 => Some(ElementType::U4),
        0x0Au8 => Some(ElementType::I8),
        0x0Bu8 => Some(ElementType::U8),
        0x0Cu8 => Some(ElementType::R4),
        0x0Du8 => Some(ElementType::R8),
        0x0Eu8 => Some(ElementType::Text),
        0x0Fu8 => Some(ElementType::Ptr),
        0x10u8 => Some(ElementType::ByRef),
        0x11u8 => Some(ElementType::ValueType),
        0x12u8 => Some(ElementType::Class),
        0x13u8 => Some(ElementType::Var),
        0x14u8 => Some(ElementType::Array),
        0x15u8 => Some(ElementType::GenericInst),
        0x16u8 => Some(ElementType::TypedByRef),
        0x17u8 => Some(ElementType::IPtr),
        0x18u8 => Some(ElementType::UPtr),
        0x1Bu8 => Some(ElementType::FnPtr),
        0x1Cu8 => Some(ElementType::Object),
        0x1Du8 => Some(ElementType::SzArray),
        0x1Eu8 => Some(ElementType::MVar),
        0x1Fu8 => Some(ElementType::CModReqd),
        0x20u8 => Some(ElementType::CModOpt),
        0x21u8 => Some(ElementType::Internal),
        0x40u8 => Some(ElementType::Modifier),
        0x41u8 => Some(ElementType::Sentinel),
        0x45u8 => Some(ElementType::Pinned),
        0x50u8 => Some(ElementType::TypeTag),
        _ => None,
    }
}

impl ElementType {
    /// The stored code of this element type.
    pub fn code(self) -> (r: u8)
        ensures
            r == spec_element_type_code(self),
    {
        match self {
            ElementType::End => 0x00,
            ElementType::Void => 0x01,
            ElementType::Boolean => 0x02,
            ElementType::Char => 0x03,
            ElementType::I1 => 0x04,
            ElementType::U1 => 0x05,
            ElementType::I2 => 0x06,
            ElementType::U2 => 0x07,
            ElementType::I4 => 0x08,
            ElementType::U4 => 0x09,
            ElementType::I8 => 0x0A,
            ElementType::U8 => 0x0B,
            ElementType::R4 => 0x0C,
            ElementType::R8 => 0x0D,
            ElementType::Text => 0x0E,
            ElementType::Ptr => 0x0F,
            ElementType::ByRef => 0x10,
            ElementType::ValueType => 0x11,
            ElementType::Class => 0x12,
            ElementType::Var => 0x13,
            ElementType::Array => 0x14,
            ElementType::GenericInst => 0x15,
            ElementType::TypedByRef => 0x16,
            ElementType::IPtr => 0x17,
            ElementType::UPtr => 0x18,
            ElementType::FnPtr => 0x1B,
            ElementType::Object => 0x1C,
            ElementType::SzArray => 0x1D,
            ElementType::MVar => 0x1E,
            ElementType::CModReqd => 0x1F,
            ElementType::CModOpt => 0x20,
            ElementType::Internal => 0x21,
            ElementType::Modifier => 0x40,
            ElementType::Sentinel => 0x41,
            ElementType::Pinned => 0x45,
            ElementType::TypeTag => 0x50,
        }
    }
}

impl Constant {
    /// The element type of this constant's value, or `None` for a code
    /// outside the encoding.
    pub fn element_type(&self) -> (r: Option<ElementType>)
        ensures
            r == spec_element_type_of_code(self.type_),
    {
        element_type_of_code(self.type_)
    }
}

} // verus!
