//! The decoded assembly surface: identity, references, and classified
//! type definitions, as plain owned values.

use vstd::prelude::*;
use vstd::utf8::encode_utf8_decode_utf8;
use vstd::string::StringSliceAdditionalSpecFns;
use crate::indices::MetadataToken;
use crate::streams::bytes_eq;

verus! {

/// The `INTERFACE` bit of a type definition's flags.
pub const TYPE_FLAGS_INTERFACE: u32 = 0x00000020;

/// A four-part assembly version.
#[derive(Debug, Copy, Clone, PartialEq, Eq, Hash, Structural)]
pub struct AssemblyVersion {
    pub major: u16,
    pub minor: u16,
    pub build: u16,
    pub revision: u16,
}

/// An assembly's identity: simple name, culture, version, flags and
/// public key.
#[derive(Debug)]
pub struct AssemblyName {
    pub name: String,
    pub culture: String,
    pub version: AssemblyVersion,
    pub flags: u32,
    pub public_key: Vec<u8>,
}

impl AssemblyName {
    /// The assembly's simple name.
    pub fn name(&self) -> (r: &String)
        ensures
            r@ == self.name@,
    {
        &self.name
    }

    /// The assembly's public key blob.
    pub fn public_key(&self) -> (r: &Vec<u8>)
        ensures
            r@ == self.public_key@,
    {
        &self.public_key
    }

    /// The assembly's version.
    pub fn version(&self) -> (r: AssemblyVersion)
        ensures
            r == self.version,
    {
        self.version
    }
}

/// One referenced assembly, decoded from an `AssemblyRef` row.
#[derive(Debug)]
pub struct AssemblyRefInfo {
    pub name: String,
    pub culture: String,
    pub version: AssemblyVersion,
    pub flags: u32,
    pub public_key: Vec<u8>,
    pub hash_value: Vec<u8>,
}

/// The decoded surface of one type definition: names, flags, base token,
/// own token, and the 1-based row ranges of its owned fields and methods.
#[derive(Debug)]
pub struct TypeData {
    pub name: String,
    pub namespace: String,
    pub flags: u32,
    pub base: MetadataToken,
    pub token: MetadataToken,
    /// Owned `Field` rows: `[start, end)`, 1-based.
    pub field_range: (u32, u32),
    /// Owned `MethodDef` rows: `[start, end)`, 1-based.
    pub method_range: (u32, u32),
}

/// A classified type definition.
#[derive(Debug)]
pub enum Type {
    Enum(TypeData),
    Class(TypeData),
    Struct(TypeData),
    Interface(TypeData),
    Uninitialized(TypeData),
    CustomUnknown(TypeData),
    NotLoaded(MetadataToken),
}

/// The name and namespace a type answers to, where it has one.
pub open spec fn spec_type_name(t: Type) -> Option<(Seq<char>, Seq<char>)> {
    match t {
        Type::Enum(d) => Some((d.name@, d.namespace@)),
        Type::Class(d) => Some((d.name@, d.namespace@)),
        Type::Struct(d) => Some((d.name@, d.namespace@)),
        Type::Interface(d) => Some((d.name@, d.namespace@)),
        Type::CustomUnknown(d) => Some((d.name@, d.namespace@)),
        Type::Uninitialized(_) => None,
        Type::NotLoaded(_) => None,
    }
}

impl Type {
    /// Whether this type answers to the given name and namespace.
    pub fn matches_name(&self, name: &str, namespace: &str) -> (r: bool)
        ensures
            r == (spec_type_name(*self) == Some((name@, namespace@))),
    {
        match self {
            Type::Enum(d) => str_eq(d.name.as_str(), name) && str_eq(
                d.namespace.as_str(),
                namespace,
            ),
            Type::Class(d) => str_eq(d.name.as_str(), name) && str_eq(
                d.namespace.as_str(),
                namespace,
            ),
            Type::Struct(d) => str_eq(d.name.as_str(), name) && str_eq(
                d.namespace.as_str(),
                namespace,
            ),
            Type::Interface(d) => str_eq(d.name.as_str(), name) && str_eq(
                d.namespace.as_str(),
                namespace,
            ),
            Type::CustomUnknown(d) => str_eq(d.name.as_str(), name) && str_eq(
                d.namespace.as_str(),
                namespace,
            ),
            Type::Uninitialized(_) => false,
            Type::NotLoaded(_) => false,
        }
    }

    /// The decoded surface behind this type, where it carries one.
    pub fn data(&self) -> (r: Option<&TypeData>)
        ensures
            ({
                match *self {
                    Type::Enum(d) => r matches Some(x) && *x == d,
                    Type::Class(d) => r matches Some(x) && *x == d,
                    Type::Struct(d) => r matches Some(x) && *x == d,
                    Type::Interface(d) => r matches Some(x) && *x == d,
                    Type::CustomUnknown(d) => r matches Some(x) && *x == d,
                    Type::Uninitialized(d) => r matches Some(x) && *x == d,
                    Type::NotLoaded(_) => r is None,
                }
            }),
    {
        match self {
            Type::Enum(d) => Some(d),
            Type::Class(d) => Some(d),
            Type::Struct(d) => Some(d),
            Type::Interface(d) => Some(d),
            Type::CustomUnknown(d) => Some(d),
            Type::Uninitialized(d) => Some(d),
            Type::NotLoaded(_) => None,
        }
    }
}

/// Whether two strings hold the same characters.
pub fn str_eq(a: &str, b: &str) -> (r: bool)
    ensures
        r == (a@ == b@),
{
    let r = bytes_eq(a.as_bytes(), b.as_bytes());
    proof {
        encode_utf8_decode_utf8(a@);
        encode_utf8_decode_utf8(b@);
    }
    r
}

/// How a type definition classifies.
#[derive(Debug, Copy, Clone, PartialEq, Eq, Structural)]
pub enum TypeShape {
    ShapeClass,
    ShapeStruct,
    ShapeEnum,
    ShapeInterface,
    ShapeUnknown,
}

/// How the type at `i` classifies, following base tokens through at most
/// `fuel` type definitions: the interface flag wins; a null base is a
/// class only for `System.Object` itself; a `TypeRef` base classifies by
/// its name (`System.ValueType` gives a struct, `System.Enum` an
/// enumeration, anything else a class); a `TypeDef` base classifies by
/// the base's own classification.
pub open spec fn spec_classify(
    defs: Seq<TypeData>,
    refs: Seq<(MetadataToken, String, String)>,
    i: int,
    fuel: nat,
) -> TypeShape
    decreases fuel,
{
    if i < 0 || i >= defs.len() {
        TypeShape::ShapeUnknown
    } else {
        let d = defs[i];
        if d.flags & TYPE_FLAGS_INTERFACE != 0 {
            TypeShape::ShapeInterface
        } else if d.base.0 == 0 {
            if d.name@ == "Object"@ && d.namespace@ == "System"@ && d.flags == 0x102001 {
                TypeShape::ShapeClass
            } else {
                TypeShape::ShapeUnknown
            }
        } else {
            let tag = d.base.0 / 0x1000000;
            let row = d.base.0 % 0x1000000;
            if tag == 0x01 {
                if 1 <= row <= refs.len() {
                    let rn = refs[row - 1];
                    if rn.1@ == "System"@ && rn.2@ == "ValueType"@ {
                        TypeShape::ShapeStruct
                    } else if rn.1@ == "System"@ && rn.2@ == "Enum"@ {
                        TypeShape::ShapeEnum
                    } else {
                        TypeShape::ShapeClass
                    }
                } else {
                    TypeShape::ShapeUnknown
                }
            } else if tag == 0x02 {
                if fuel == 0 || !(1 <= row <= defs.len()) {
                    TypeShape::ShapeUnknown
                } else {
                    let b = defs[row - 1];
                    match spec_classify(defs, refs, row - 1, (fuel - 1) as nat) {
                        TypeShape::ShapeClass => if b.namespace@ == "System"@ && b.name@
                            == "ValueType"@ && b.flags == 0x102081 {
                            TypeShape::ShapeStruct
                        } else {
                            TypeShape::ShapeClass
                        },
                        TypeShape::ShapeStruct => if b.namespace@ == "System"@ && b.name@
                            == "Enum"@ && b.flags == 0x102081 {
                            TypeShape::ShapeEnum
                        } else {
                            TypeShape::ShapeUnknown
                        },
                        _ => TypeShape::ShapeUnknown,
                    }
                }
            } else {
                TypeShape::ShapeUnknown
            }
        }
    }
}

/// How the type at `i` classifies, following base tokens through at most
/// `fuel` type definitions.
pub fn classify_type(
    defs: &Vec<TypeData>,
    refs: &Vec<(MetadataToken, String, String)>,
    i: usize,
    fuel: usize,
) -> (r: TypeShape)
    ensures
        r == spec_classify(defs@, refs@, i as int, fuel as nat),
    decreases fuel,
{
    if i >= defs.len() {
        return TypeShape::ShapeUnknown;
    }
    let d = &defs[i];
    if d.flags & TYPE_FLAGS_INTERFACE != 0 {
        return TypeShape::ShapeInterface;
    }
    if d.base.0 == 0 {
        if str_eq(d.name.as_str(), "Object") && str_eq(d.namespace.as_str(), "System")
            && d.flags == 0x102001 {
            return TypeShape::ShapeClass;
        }
        return TypeShape::ShapeUnknown;
    }
    let tag = d.base.0 / 0x1000000;
    let row = (d.base.0 % 0x1000000) as usize;
    if tag == 0x01 {
        if 1 <= row && row <= refs.len() {
            let rn = &refs[row - 1];
            if str_eq(rn.1.as_str(), "System") && str_eq(rn.2.as_str(), "ValueType") {
                TypeShape::ShapeStruct
            } else if str_eq(rn.1.as_str(), "System") && str_eq(rn.2.as_str(), "Enum") {
                TypeShape::ShapeEnum
            } else {
                TypeShape::ShapeClass
            }
        } else {
            TypeShape::ShapeUnknown
        }
    } else if tag == 0x02 {
        if fuel == 0 || row == 0 || row > defs.len() {
            TypeShape::ShapeUnknown
        } else {
            let b = &defs[row - 1];
            match classify_type(defs, refs, row - 1, fuel - 1) {
                TypeShape::ShapeClass => {
                    if str_eq(b.namespace.as_str(), "System") && str_eq(
                        b.name.as_str(),
                        "ValueType",
                    ) && b.flags == 0x102081 {
                        TypeShape::ShapeStruct
                    } else {
                        TypeShape::ShapeClass
                    }
                },
                TypeShape::ShapeStruct => {
                    if str_eq(b.namespace.as_str(), "System") && str_eq(b.name.as_str(), "Enum")
                        && b.flags == 0x102081 {
                        TypeShape::ShapeEnum
                    } else {
                        TypeShape::ShapeUnknown
                    }
                },
                _ => TypeShape::ShapeUnknown,
            }
        }
    } else {
        TypeShape::ShapeUnknown
    }
}

/// The type a shape and its decoded surface make.
pub open spec fn spec_wrap_shape(sh: TypeShape, d: TypeData) -> Type {
    match sh {
        TypeShape::ShapeClass => Type::Class(d),
        TypeShape::ShapeStruct => Type::Struct(d),
        TypeShape::ShapeEnum => Type::Enum(d),
        TypeShape::ShapeInterface => Type::Interface(d),
        TypeShape::ShapeUnknown => Type::CustomUnknown(d),
    }
}

/// Classifies every type definition, wrapping each decoded surface in
/// the type its base chain makes of it.
pub fn classify_types(defs: Vec<TypeData>, refs: &Vec<(MetadataToken, String, String)>) -> (r: Vec<
    Type,
>)
    ensures
        r@.len() == defs@.len(),
        forall|i: int|
            0 <= i < defs@.len() ==> r@[i] == spec_wrap_shape(
                spec_classify(defs@, refs@, i, defs@.len() as nat),
                defs@[i],
            ),
{
    let n = defs.len();
    let ghost ds = defs@;
    let mut shapes: Vec<TypeShape> = Vec::new();
    let mut i: usize = 0;
    while i < n
        invariant
            n == defs@.len(),
            0 <= i <= n,
            shapes@.len() == i,
            forall|j: int|
                0 <= j < i ==> shapes@[j] == spec_classify(defs@, refs@, j, defs@.len() as nat),
        decreases n - i,
    {
        let sh = classify_type(&defs, refs, i, n);
        shapes.push(sh);
        i = i + 1;
    }
    let mut rest = defs;
    let mut out: Vec<Type> = Vec::new();
    let mut k: usize = 0;
    while k < n
        invariant
            n == ds.len(),
            0 <= k <= n,
            rest@ == ds.subrange(k as int, n as int),
            out@.len() == k,
            shapes@.len() == n,
            forall|j: int|
                0 <= j < n ==> shapes@[j] == spec_classify(ds, refs@, j, ds.len() as nat),
            forall|j: int|
                0 <= j < k ==> out@[j] == spec_wrap_shape(
                    spec_classify(ds, refs@, j, ds.len() as nat),
                    ds[j],
                ),
        decreases n - k,
    {
        let d = rest.remove(0);
        proof {
            assert(rest@ =~= ds.subrange(k as int + 1, n as int));
        }
        let sh = shapes[k];
        let t = match sh {
            TypeShape::ShapeClass => Type::Class(d),
            TypeShape::ShapeStruct => Type::Struct(d),
            TypeShape::ShapeEnum => Type::Enum(d),
            TypeShape::ShapeInterface => Type::Interface(d),
            TypeShape::ShapeUnknown => Type::CustomUnknown(d),
        };
        out.push(t);
        k = k + 1;
    }
    out
}

/// Where a member range ends: at the next row's start, clamped so that
/// it never passes one past the member table's last row.
pub open spec fn spec_owned_end(next: u32, member_count: u32) -> u32 {
    if next > member_count + 1 {
        (member_count + 1) as u32
    } else {
        next
    }
}

/// The 1-based row range of the members a type definition owns: it
/// starts at the row's own list index and ends at the next row's (or
/// right after the member table's last row for the last type), clamped
/// to the member table's length. The range is empty exactly when its
/// two ends are equal.
pub fn owned_range(starts: &Vec<u32>, i: usize, member_count: u32) -> (r: (u32, u32))
    requires
        i < starts@.len(),
        member_count < 0xFFFFFFFF,
    ensures
        r.0 == starts@[i as int],
        i + 1 < starts@.len() ==> r.1 == spec_owned_end(starts@[i as int + 1], member_count),
        i + 1 == starts@.len() ==> r.1 == member_count + 1,
        r.1 <= member_count + 1,
{
    let start = starts[i];
    let end_raw = if starts.len() - i > 1 {
        starts[i + 1]
    } else {
        member_count + 1
    };
    let end = if end_raw > member_count + 1 {
        member_count + 1
    } else {
        end_raw
    };
    (start, end)
}

/// The decoded assembly: identity, classified types, references, and the
/// type references with their resolution-scope tokens and names.
#[derive(Debug)]
pub struct Assembly {
    pub name: AssemblyName,
    pub types: Vec<Type>,
    pub dependencies: Vec<AssemblyRefInfo>,
    pub type_refs: Vec<(MetadataToken, String, String)>,
}

/// The first type (from `i` on) answering to the name, if any.
pub open spec fn spec_find_type(
    types: Seq<Type>,
    name: Seq<char>,
    namespace: Seq<char>,
    i: int,
) -> Option<int>
    decreases types.len() - i,
{
    if i < 0 || i >= types.len() {
        None
    } else if spec_type_name(types[i]) == Some((name, namespace)) {
        Some(i)
    } else {
        spec_find_type(types, name, namespace, i + 1)
    }
}

impl Assembly {
    /// The assembly's identity.
    pub fn name(&self) -> (r: &AssemblyName)
        ensures
            r == &self.name,
    {
        &self.name
    }

    /// The first of this assembly's own types answering to the given
    /// name and namespace, if any.
    pub fn find_type(&self, name: &str, namespace: &str) -> (r: Option<&Type>)
        ensures
            spec_find_type(self.types@, name@, namespace@, 0) matches Some(i) ==> (
            r matches Some(t) && *t == self.types@[i]),
            spec_find_type(self.types@, name@, namespace@, 0) is None ==> r is None,
    {
        let n = self.types.len();
        let mut i: usize = 0;
        while i < n
            invariant
                n == self.types@.len(),
                0 <= i <= n,
                spec_find_type(self.types@, name@, namespace@, 0) == spec_find_type(
                    self.types@,
                    name@,
                    namespace@,
                    i as int,
                ),
            decreases n - i,
        {
            if self.types[i].matches_name(name, namespace) {
                return Some(&self.types[i]);
            }
            i = i + 1;
        }
        None
    }

    /// The type a `TypeDef` token names among this assembly's own types;
    /// `None` for null tokens, other token kinds, and out-of-range rows.
    pub fn get_type(&self, token: MetadataToken) -> (r: Option<&Type>)
        ensures
            ({
                let tag = token.0 / 0x1000000;
                let row = token.0 % 0x1000000;
                &&& (tag == 0x02 && 1 <= row <= self.types@.len()) ==> (r matches Some(t) && *t
                    == self.types@[row - 1])
                &&& !(tag == 0x02 && 1 <= row <= self.types@.len()) ==> r is None
            }),
    {
        let tag = token.0 / 0x1000000;
        let row = (token.0 % 0x1000000) as usize;
        if tag == 0x02 && 1 <= row && row <= self.types.len() {
            Some(&self.types[row - 1])
        } else {
            None
        }
    }
}

} // verus!
