//! Language-agnostic intermediate representation of type definitions.
//!
//! The IR is the terminal artifact of the transform stage: fully resolved,
//! immutable, and handed read-only to every generator and analyzer. Each exec
//! type has a ghost view (the `...V` types) over which contracts are stated.

use vstd::prelude::*;

verus! {

/// A type definition: a struct or an enum.
#[derive(Debug, PartialEq)]
pub enum TypeDefinition {
    /// Struct definition.
    Struct(StructDefinition),
    /// Enum definition.
    Enum(EnumDefinition),
}

/// A struct type definition.
#[derive(Debug, PartialEq)]
pub struct StructDefinition {
    /// Struct name.
    pub name: String,
    /// Fields, in declaration order.
    pub fields: Vec<FieldDefinition>,
    /// Metadata extracted from the source attributes.
    pub metadata: Metadata,
}

/// An enum type definition.
#[derive(Debug, PartialEq)]
pub struct EnumDefinition {
    /// Enum name.
    pub name: String,
    /// Variants, in declaration order.
    pub variants: Vec<EnumVariantDefinition>,
    /// Metadata extracted from the source attributes.
    pub metadata: Metadata,
}

/// An enum variant definition: unit, tuple or struct shaped.
#[derive(Debug, PartialEq)]
pub enum EnumVariantDefinition {
    /// Unit variant with no payload.
    Unit { name: String },
    /// Tuple variant with an ordered list of unnamed types.
    Tuple { name: String, types: Vec<TypeInfo> },
    /// Struct variant with named fields.
    Struct { name: String, fields: Vec<FieldDefinition> },
}

/// A field in a type definition.
#[derive(Debug, PartialEq)]
pub struct FieldDefinition {
    /// Field name.
    pub name: String,
    /// Fully resolved type information.
    pub type_info: TypeInfo,
    /// Whether this field is optional.
    pub optional: bool,
}

/// The closed type-information vocabulary of the IR.
#[derive(Debug, PartialEq)]
pub enum TypeInfo {
    /// A canonical primitive type name.
    Primitive(String),
    /// A reference to a type defined elsewhere in the same IR list.
    UserDefined(String),
    /// An array of an inner type.
    Array(Box<TypeInfo>),
    /// An optional value of an inner type.
    Option(Box<TypeInfo>),
}

/// Metadata about a type definition.
#[derive(Debug, PartialEq)]
pub struct Metadata {
    /// Whether the type is marked for the target on-chain domain.
    pub solana: bool,
    /// The verbatim list of attribute names found on the declaration.
    pub attributes: Vec<String>,
}

impl Clone for TypeInfo {
    /// A deep copy equal to the original.
    fn clone(&self) -> (r: Self)
        ensures
            r == *self,
        decreases *self,
    {
        match self {
            TypeInfo::Primitive(name) => TypeInfo::Primitive(name.clone()),
            TypeInfo::UserDefined(name) => TypeInfo::UserDefined(name.clone()),
            TypeInfo::Array(inner) => TypeInfo::Array(Box::new((**inner).clone())),
            TypeInfo::Option(inner) => TypeInfo::Option(Box::new((**inner).clone())),
        }
    }
}

impl Default for Metadata {
    /// Metadata with the domain flag clear and no attributes.
    fn default() -> (r: Metadata)
        ensures
            r.solana == false,
            r.attributes@.len() == 0,
    {
        Metadata { solana: false, attributes: Vec::new() }
    }
}


fn clone_string_vec(v: &Vec<String>) -> (r: Vec<String>)
    ensures
        r@.map_values(|s: String| s@) == v@.map_values(|s: String| s@),
{
    let mut out: Vec<String> = Vec::new();
    let mut i: usize = 0;
    while i < v.len()
        invariant
            i <= v.len(),
            out@.len() == i,
            forall|j: int| 0 <= j < i ==> out@[j]@ == v@[j]@,
        decreases v.len() - i,
    {
        out.push(v[i].clone());
        i = i + 1;
    }
    assert(out@.map_values(|s: String| s@) =~= v@.map_values(|s: String| s@));
    out
}

impl Clone for Metadata {
    /// A copy with the same view.
    fn clone(&self) -> (r: Self)
        ensures
            r@ == self@,
    {
        let r = Metadata { solana: self.solana, attributes: clone_string_vec(&self.attributes) };
        assert(r@ =~= self@);
        r
    }
}

impl Clone for FieldDefinition {
    /// A copy with the same view.
    fn clone(&self) -> (r: Self)
        ensures
            r@ == self@,
    {
        FieldDefinition {
            name: self.name.clone(),
            type_info: self.type_info.clone(),
            optional: self.optional,
        }
    }
}

fn clone_field_vec(v: &Vec<FieldDefinition>) -> (r: Vec<FieldDefinition>)
    ensures
        r@.map_values(|f: FieldDefinition| f@) == v@.map_values(|f: FieldDefinition| f@),
{
    let mut out: Vec<FieldDefinition> = Vec::new();
    let mut i: usize = 0;
    while i < v.len()
        invariant
            i <= v.len(),
            out@.len() == i,
            forall|j: int| 0 <= j < i ==> out@[j]@ == v@[j]@,
        decreases v.len() - i,
    {
        out.push(v[i].clone());
        i = i + 1;
    }
    assert(out@.map_values(|f: FieldDefinition| f@) =~= v@.map_values(|f: FieldDefinition| f@));
    out
}

fn clone_type_vec(v: &Vec<TypeInfo>) -> (r: Vec<TypeInfo>)
    ensures
        r@.map_values(|t: TypeInfo| t@) == v@.map_values(|t: TypeInfo| t@),
{
    let mut out: Vec<TypeInfo> = Vec::new();
    let mut i: usize = 0;
    while i < v.len()
        invariant
            i <= v.len(),
            out@.len() == i,
            forall|j: int| 0 <= j < i ==> out@[j]@ == v@[j]@,
        decreases v.len() - i,
    {
        out.push(v[i].clone());
        i = i + 1;
    }
    assert(out@.map_values(|t: TypeInfo| t@) =~= v@.map_values(|t: TypeInfo| t@));
    out
}

impl Clone for EnumVariantDefinition {
    /// A copy with the same view.
    fn clone(&self) -> (r: Self)
        ensures
            r@ == self@,
    {
        match self {
            EnumVariantDefinition::Unit { name } => EnumVariantDefinition::Unit {
                name: name.clone(),
            },
            EnumVariantDefinition::Tuple { name, types } => {
                let r = EnumVariantDefinition::Tuple {
                    name: name.clone(),
                    types: clone_type_vec(types),
                };
                assert(r@ =~= self@);
                r
            },
            EnumVariantDefinition::Struct { name, fields } => {
                let r = EnumVariantDefinition::Struct {
                    name: name.clone(),
                    fields: clone_field_vec(fields),
                };
                assert(r@ =~= self@);
                r
            },
        }
    }
}

fn clone_variant_vec(v: &Vec<EnumVariantDefinition>) -> (r: Vec<EnumVariantDefinition>)
    ensures
        r@.map_values(|x: EnumVariantDefinition| x@) == v@.map_values(
            |x: EnumVariantDefinition| x@,
        ),
{
    let mut out: Vec<EnumVariantDefinition> = Vec::new();
    let mut i: usize = 0;
    while i < v.len()
        invariant
            i <= v.len(),
            out@.len() == i,
            forall|j: int| 0 <= j < i ==> out@[j]@ == v@[j]@,
        decreases v.len() - i,
    {
        out.push(v[i].clone());
        i = i + 1;
    }
    assert(out@.map_values(|x: EnumVariantDefinition| x@) =~= v@.map_values(
        |x: EnumVariantDefinition| x@,
    ));
    out
}

impl Clone for StructDefinition {
    /// A copy with the same view.
    fn clone(&self) -> (r: Self)
        ensures
            r@ == self@,
    {
        let r = StructDefinition {
            name: self.name.clone(),
            fields: clone_field_vec(&self.fields),
            metadata: self.metadata.clone(),
        };
        assert(r@ =~= self@);
        r
    }
}

impl Clone for EnumDefinition {
    /// A copy with the same view.
    fn clone(&self) -> (r: Self)
        ensures
            r@ == self@,
    {
        let r = EnumDefinition {
            name: self.name.clone(),
            variants: clone_variant_vec(&self.variants),
            metadata: self.metadata.clone(),
        };
        assert(r@ =~= self@);
        r
    }
}

impl Clone for TypeDefinition {
    /// A copy with the same view.
    fn clone(&self) -> (r: Self)
        ensures
            r@ == self@,
    {
        match self {
            TypeDefinition::Struct(s) => TypeDefinition::Struct(s.clone()),
            TypeDefinition::Enum(e) => TypeDefinition::Enum(e.clone()),
        }
    }
}

/// Ghost view of type information.
pub enum TypeInfoV {
    Primitive(Seq<char>),
    UserDefined(Seq<char>),
    Array(Box<TypeInfoV>),
    Option(Box<TypeInfoV>),
}

/// Ghost view of a field definition.
pub struct FieldDefinitionV {
    pub name: Seq<char>,
    pub type_info: TypeInfoV,
    pub optional: bool,
}

/// Ghost view of an enum variant definition.
pub enum EnumVariantDefinitionV {
    Unit { name: Seq<char> },
    Tuple { name: Seq<char>, types: Seq<TypeInfoV> },
    Struct { name: Seq<char>, fields: Seq<FieldDefinitionV> },
}

/// Ghost view of metadata.
pub struct MetadataV {
    pub solana: bool,
    pub attributes: Seq<Seq<char>>,
}

/// Ghost view of a struct definition.
pub struct StructDefinitionV {
    pub name: Seq<char>,
    pub fields: Seq<FieldDefinitionV>,
    pub metadata: MetadataV,
}

/// Ghost view of an enum definition.
pub struct EnumDefinitionV {
    pub name: Seq<char>,
    pub variants: Seq<EnumVariantDefinitionV>,
    pub metadata: MetadataV,
}

/// Ghost view of a type definition.
pub enum TypeDefinitionV {
    Struct(StructDefinitionV),
    Enum(EnumDefinitionV),
}

pub open spec fn view_type_info(t: TypeInfo) -> TypeInfoV
    decreases t,
{
    match t {
        TypeInfo::Primitive(name) => TypeInfoV::Primitive(name@),
        TypeInfo::UserDefined(name) => TypeInfoV::UserDefined(name@),
        TypeInfo::Array(inner) => TypeInfoV::Array(Box::new(view_type_info(*inner))),
        TypeInfo::Option(inner) => TypeInfoV::Option(Box::new(view_type_info(*inner))),
    }
}

impl View for TypeInfo {
    type V = TypeInfoV;

    open spec fn view(&self) -> TypeInfoV {
        view_type_info(*self)
    }
}

impl View for FieldDefinition {
    type V = FieldDefinitionV;

    open spec fn view(&self) -> FieldDefinitionV {
        FieldDefinitionV {
            name: self.name@,
            type_info: self.type_info@,
            optional: self.optional,
        }
    }
}

impl View for EnumVariantDefinition {
    type V = EnumVariantDefinitionV;

    open spec fn view(&self) -> EnumVariantDefinitionV {
        match *self {
            EnumVariantDefinition::Unit { ref name } => EnumVariantDefinitionV::Unit {
                name: name@,
            },
            EnumVariantDefinition::Tuple { ref name, ref types } => EnumVariantDefinitionV::Tuple {
                name: name@,
                types: types@.map_values(|t: TypeInfo| t@),
            },
            EnumVariantDefinition::Struct { ref name, ref fields } => EnumVariantDefinitionV::Struct {
                name: name@,
                fields: fields@.map_values(|f: FieldDefinition| f@),
            },
        }
    }
}

impl View for Metadata {
    type V = MetadataV;

    open spec fn view(&self) -> MetadataV {
        MetadataV {
            solana: self.solana,
            attributes: self.attributes@.map_values(|a: String| a@),
        }
    }
}

impl View for StructDefinition {
    type V = StructDefinitionV;

    open spec fn view(&self) -> StructDefinitionV {
        StructDefinitionV {
            name: self.name@,
            fields: self.fields@.map_values(|f: FieldDefinition| f@),
            metadata: self.metadata@,
        }
    }
}

impl View for EnumDefinition {
    type V = EnumDefinitionV;

    open spec fn view(&self) -> EnumDefinitionV {
        EnumDefinitionV {
            name: self.name@,
            variants: self.variants@.map_values(|v: EnumVariantDefinition| v@),
            metadata: self.metadata@,
        }
    }
}

impl View for TypeDefinition {
    type V = TypeDefinitionV;

    open spec fn view(&self) -> TypeDefinitionV {
        match *self {
            TypeDefinition::Struct(ref s) => TypeDefinitionV::Struct(s@),
            TypeDefinition::Enum(ref e) => TypeDefinitionV::Enum(e@),
        }
    }
}

impl TypeDefinitionV {
    /// The definition's name.
    pub open spec fn spec_name(self) -> Seq<char> {
        match self {
            TypeDefinitionV::Struct(s) => s.name,
            TypeDefinitionV::Enum(e) => e.name,
        }
    }

    /// The definition's metadata.
    pub open spec fn spec_metadata(self) -> MetadataV {
        match self {
            TypeDefinitionV::Struct(s) => s.metadata,
            TypeDefinitionV::Enum(e) => e.metadata,
        }
    }
}

impl TypeDefinition {
    /// The name of this type definition.
    pub fn name(&self) -> (r: &str)
        ensures
            r@ == self@.spec_name(),
    {
        match self {
            TypeDefinition::Struct(s) => s.name.as_str(),
            TypeDefinition::Enum(e) => e.name.as_str(),
        }
    }

    /// The metadata of this type definition.
    pub fn metadata(&self) -> (r: &Metadata)
        ensures
            r@ == self@.spec_metadata(),
    {
        match self {
            TypeDefinition::Struct(s) => &s.metadata,
            TypeDefinition::Enum(e) => &e.metadata,
        }
    }

    /// Whether this definition is marked for the target on-chain domain.
    pub fn is_solana(&self) -> (r: bool)
        ensures
            r == self@.spec_metadata().solana,
    {
        self.metadata().solana
    }
}

impl EnumVariantDefinitionV {
    /// The variant's name.
    pub open spec fn spec_name(self) -> Seq<char> {
        match self {
            EnumVariantDefinitionV::Unit { name } => name,
            EnumVariantDefinitionV::Tuple { name, .. } => name,
            EnumVariantDefinitionV::Struct { name, .. } => name,
        }
    }
}

impl EnumVariantDefinition {
    /// The variant's name.
    pub fn name(&self) -> (r: &str)
        ensures
            r@ == self@.spec_name(),
    {
        match self {
            EnumVariantDefinition::Unit { name } => name.as_str(),
            EnumVariantDefinition::Tuple { name, .. } => name.as_str(),
            EnumVariantDefinition::Struct { name, .. } => name.as_str(),
        }
    }
}

impl EnumDefinition {
    /// Whether every variant is a unit variant.
    pub fn is_unit_only(&self) -> (r: bool)
        ensures
            r == forall|i: int|
                0 <= i < self@.variants.len() ==> self@.variants[i] is Unit,
    {
        let mut i: usize = 0;
        while i < self.variants.len()
            invariant
                i <= self.variants.len(),
                self@.variants.len() == self.variants@.len(),
                forall|j: int| 0 <= j < i ==> self@.variants[j] is Unit,
            decreases self.variants.len() - i,
        {
            match self.variants[i] {
                EnumVariantDefinition::Unit { .. } => {},
                _ => {
                    assert(!(self@.variants[i as int] is Unit));
                    return false;
                },
            }
            i = i + 1;
        }
        true
    }

    /// Whether some variant is a struct variant.
    pub fn has_struct_variants(&self) -> (r: bool)
        ensures
            r == exists|i: int|
                0 <= i < self@.variants.len() && self@.variants[i] is Struct,
    {
        let mut i: usize = 0;
        while i < self.variants.len()
            invariant
                i <= self.variants.len(),
                self@.variants.len() == self.variants@.len(),
                forall|j: int| 0 <= j < i ==> !(self@.variants[j] is Struct),
            decreases self.variants.len() - i,
        {
            match self.variants[i] {
                EnumVariantDefinition::Struct { .. } => {
                    assert(self@.variants[i as int] is Struct);
                    return true;
                },
                _ => {},
            }
            i = i + 1;
        }
        false
    }

    /// Whether some variant is a tuple variant.
    pub fn has_tuple_variants(&self) -> (r: bool)
        ensures
            r == exists|i: int|
                0 <= i < self@.variants.len() && self@.variants[i] is Tuple,
    {
        let mut i: usize = 0;
        while i < self.variants.len()
            invariant
                i <= self.variants.len(),
                self@.variants.len() == self.variants@.len(),
                forall|j: int| 0 <= j < i ==> !(self@.variants[j] is Tuple),
            decreases self.variants.len() - i,
        {
            match self.variants[i] {
                EnumVariantDefinition::Tuple { .. } => {
                    assert(self@.variants[i as int] is Tuple);
                    return true;
                },
                _ => {},
            }
            i = i + 1;
        }
        false
    }
}

/// The view of a whole IR list.
pub open spec fn view_defs(defs: Seq<TypeDefinition>) -> Seq<TypeDefinitionV> {
    defs.map_values(|d: TypeDefinition| d@)
}

/// The set of names declared by an IR list.
pub open spec fn declared_names(defs: Seq<TypeDefinitionV>) -> Set<Seq<char>> {
    Set::new(|n: Seq<char>| exists|i: int| 0 <= i < defs.len() && defs[i].spec_name() == n)
}

/// Whether every user-defined reference reachable inside one type-info names a
/// declared type.
pub open spec fn type_info_resolved(t: TypeInfoV, names: Set<Seq<char>>) -> bool
    decreases t,
{
    match t {
        TypeInfoV::Primitive(_) => true,
        TypeInfoV::UserDefined(n) => names.contains(n),
        TypeInfoV::Array(inner) => type_info_resolved(*inner, names),
        TypeInfoV::Option(inner) => type_info_resolved(*inner, names),
    }
}

/// Whether every user-defined reference in a variant resolves.
pub open spec fn variant_resolved(v: EnumVariantDefinitionV, names: Set<Seq<char>>) -> bool {
    match v {
        EnumVariantDefinitionV::Unit { .. } => true,
        EnumVariantDefinitionV::Tuple { types, .. } => forall|i: int|
            0 <= i < types.len() ==> type_info_resolved(#[trigger] types[i], names),
        EnumVariantDefinitionV::Struct { fields, .. } => forall|i: int|
            0 <= i < fields.len() ==> type_info_resolved(#[trigger] fields[i].type_info, names),
    }
}

/// Whether every user-defined reference in a definition resolves.
pub open spec fn def_resolved(d: TypeDefinitionV, names: Set<Seq<char>>) -> bool {
    match d {
        TypeDefinitionV::Struct(s) => forall|i: int|
            0 <= i < s.fields.len() ==> type_info_resolved(#[trigger] s.fields[i].type_info, names),
        TypeDefinitionV::Enum(e) => forall|i: int|
            0 <= i < e.variants.len() ==> variant_resolved(#[trigger] e.variants[i], names),
    }
}

/// The central IR invariant: every user-defined type-info reachable from any
/// field or variant of any definition, through any depth of array or optional
/// nesting, names a type declared in the same list.
pub open spec fn ir_resolved(defs: Seq<TypeDefinitionV>) -> bool {
    forall|i: int|
        0 <= i < defs.len() ==> def_resolved(#[trigger] defs[i], declared_names(defs))
}

} // verus!
