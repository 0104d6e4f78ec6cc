//! Abstract syntax tree for schema declaration files.
//!
//! The AST is a direct structural representation of the parsed declaration
//! source, before transformation into the IR. Each exec type has a ghost view
//! (the `...V` types) over which all contracts are stated.

use vstd::prelude::*;

verus! {

/// A complete declaration file: an ordered sequence of items.
#[derive(Debug, Clone, PartialEq)]
pub struct LumosFile {
    /// All items (structs and enums) in this file, in declaration order.
    pub items: Vec<Item>,
}

/// A top-level item: a struct or an enum declaration.
#[derive(Debug, Clone, PartialEq)]
pub enum Item {
    /// Struct declaration.
    Struct(StructDef),
    /// Enum declaration.
    Enum(EnumDef),
}

/// A struct declaration.
#[derive(Debug, Clone, PartialEq)]
pub struct StructDef {
    /// Struct name.
    pub name: String,
    /// Attributes applied to the struct.
    pub attributes: Vec<Attribute>,
    /// Fields, in declaration order.
    pub fields: Vec<FieldDef>,
}

/// An enum declaration.
#[derive(Debug, Clone, PartialEq)]
pub struct EnumDef {
    /// Enum name.
    pub name: String,
    /// Attributes applied to the enum.
    pub attributes: Vec<Attribute>,
    /// Variants, in declaration order.
    pub variants: Vec<EnumVariant>,
}

/// An enum variant: unit, tuple or struct shaped.
#[derive(Debug, Clone, PartialEq)]
pub enum EnumVariant {
    /// Unit variant with no payload.
    Unit { name: String },
    /// Tuple variant with an ordered list of unnamed type references.
    Tuple { name: String, types: Vec<TypeSpec> },
    /// Struct variant with named fields.
    Struct { name: String, fields: Vec<FieldDef> },
}

/// A field in a struct or in a struct-shaped enum variant.
#[derive(Debug, Clone, PartialEq)]
pub struct FieldDef {
    /// Field name.
    pub name: String,
    /// The field's type reference.
    pub type_spec: TypeSpec,
    /// Whether the source wrapped this field's type in the optional marker.
    pub optional: bool,
    /// Attributes applied to this field.
    pub attributes: Vec<Attribute>,
}

/// A type reference as written in the source.
#[derive(Debug, PartialEq)]
pub enum TypeSpec {
    /// A bare name the parser took for a primitive; the transform reclassifies
    /// unknown names as user-defined references.
    Primitive(String),
    /// Bracketed array of an inner type reference.
    Array(Box<TypeSpec>),
    /// A name known to refer to a user-defined type.
    UserDefined(String),
}

/// An attribute: a name with an optional scalar value.
#[derive(Debug, Clone, PartialEq)]
pub struct Attribute {
    /// Attribute name.
    pub name: String,
    /// Value given in parentheses, if any.
    pub value: Option<AttributeValue>,
}

/// A scalar attribute value.
#[derive(Debug, Clone, PartialEq)]
pub enum AttributeValue {
    /// Quoted string or fallback raw token text.
    String(String),
    /// Unsigned integer value.
    Integer(u64),
    /// Boolean value.
    Bool(bool),
}

/// Ghost view of a type reference.
pub enum TypeSpecV {
    Primitive(Seq<char>),
    Array(Box<TypeSpecV>),
    UserDefined(Seq<char>),
}

/// Ghost view of an attribute value.
pub enum AttributeValueV {
    String(Seq<char>),
    Integer(u64),
    Bool(bool),
}

/// Ghost view of an attribute.
pub struct AttributeV {
    pub name: Seq<char>,
    pub value: Option<AttributeValueV>,
}

/// Ghost view of a field.
pub struct FieldDefV {
    pub name: Seq<char>,
    pub type_spec: TypeSpecV,
    pub optional: bool,
    pub attributes: Seq<AttributeV>,
}

/// Ghost view of an enum variant.
pub enum EnumVariantV {
    Unit { name: Seq<char> },
    Tuple { name: Seq<char>, types: Seq<TypeSpecV> },
    Struct { name: Seq<char>, fields: Seq<FieldDefV> },
}

/// Ghost view of a struct declaration.
pub struct StructDefV {
    pub name: Seq<char>,
    pub attributes: Seq<AttributeV>,
    pub fields: Seq<FieldDefV>,
}

/// Ghost view of an enum declaration.
pub struct EnumDefV {
    pub name: Seq<char>,
    pub attributes: Seq<AttributeV>,
    pub variants: Seq<EnumVariantV>,
}

/// Ghost view of an item.
pub enum ItemV {
    Struct(StructDefV),
    Enum(EnumDefV),
}

/// Ghost view of a file.
pub struct LumosFileV {
    pub items: Seq<ItemV>,
}

impl Clone for TypeSpec {
    /// A deep copy equal to the original.
    fn clone(&self) -> (r: Self)
        ensures
            r == *self,
        decreases *self,
    {
        match self {
            TypeSpec::Primitive(name) => TypeSpec::Primitive(name.clone()),
            TypeSpec::Array(inner) => TypeSpec::Array(Box::new((**inner).clone())),
            TypeSpec::UserDefined(name) => TypeSpec::UserDefined(name.clone()),
        }
    }
}

pub open spec fn view_type_spec(t: TypeSpec) -> TypeSpecV
    decreases t,
{
    match t {
        TypeSpec::Primitive(name) => TypeSpecV::Primitive(name@),
        TypeSpec::Array(inner) => TypeSpecV::Array(Box::new(view_type_spec(*inner))),
        TypeSpec::UserDefined(name) => TypeSpecV::UserDefined(name@),
    }
}

impl View for TypeSpec {
    type V = TypeSpecV;

    open spec fn view(&self) -> TypeSpecV {
        view_type_spec(*self)
    }
}

impl View for AttributeValue {
    type V = AttributeValueV;

    open spec fn view(&self) -> AttributeValueV {
        match *self {
            AttributeValue::String(ref s) => AttributeValueV::String(s@),
            AttributeValue::Integer(n) => AttributeValueV::Integer(n),
            AttributeValue::Bool(b) => AttributeValueV::Bool(b),
        }
    }
}

impl View for Attribute {
    type V = AttributeV;

    open spec fn view(&self) -> AttributeV {
        AttributeV {
            name: self.name@,
            value: match self.value {
                Some(ref v) => Some(v@),
                None => None,
            },
        }
    }
}

impl View for FieldDef {
    type V = FieldDefV;

    open spec fn view(&self) -> FieldDefV {
        FieldDefV {
            name: self.name@,
            type_spec: self.type_spec@,
            optional: self.optional,
            attributes: self.attributes@.map_values(|a: Attribute| a@),
        }
    }
}

impl View for EnumVariant {
    type V = EnumVariantV;

    open spec fn view(&self) -> EnumVariantV {
        match *self {
            EnumVariant::Unit { ref name } => EnumVariantV::Unit { name: name@ },
            EnumVariant::Tuple { ref name, ref types } => EnumVariantV::Tuple {
                name: name@,
                types: types@.map_values(|t: TypeSpec| t@),
            },
            EnumVariant::Struct { ref name, ref fields } => EnumVariantV::Struct {
                name: name@,
                fields: fields@.map_values(|f: FieldDef| f@),
            },
        }
    }
}

impl View for StructDef {
    type V = StructDefV;

    open spec fn view(&self) -> StructDefV {
        StructDefV {
            name: self.name@,
            attributes: self.attributes@.map_values(|a: Attribute| a@),
            fields: self.fields@.map_values(|f: FieldDef| f@),
        }
    }
}

impl View for EnumDef {
    type V = EnumDefV;

    open spec fn view(&self) -> EnumDefV {
        EnumDefV {
            name: self.name@,
            attributes: self.attributes@.map_values(|a: Attribute| a@),
            variants: self.variants@.map_values(|v: EnumVariant| v@),
        }
    }
}

impl View for Item {
    type V = ItemV;

    open spec fn view(&self) -> ItemV {
        match *self {
            Item::Struct(ref s) => ItemV::Struct(s@),
            Item::Enum(ref e) => ItemV::Enum(e@),
        }
    }
}

impl View for LumosFile {
    type V = LumosFileV;

    open spec fn view(&self) -> LumosFileV {
        LumosFileV { items: self.items@.map_values(|i: Item| i@) }
    }
}

/// Whether an attribute list holds an attribute of the given name.
pub open spec fn spec_has_attribute(attrs: Seq<AttributeV>, name: Seq<char>) -> bool {
    exists|i: int| 0 <= i < attrs.len() && attrs[i].name == name
}

/// The index of the first attribute of the given name, if any.
pub open spec fn first_attribute_index(attrs: Seq<AttributeV>, name: Seq<char>) -> int
    decreases attrs.len(),
{
    if attrs.len() == 0 {
        0
    } else if attrs[0].name == name {
        0
    } else {
        1 + first_attribute_index(attrs.skip(1), name)
    }
}

fn find_attribute<'a>(attrs: &'a Vec<Attribute>, name: &str) -> (r: Option<&'a Attribute>)
    ensures
        match r {
            Some(a) => {
                &&& spec_has_attribute(attrs@.map_values(|x: Attribute| x@), name@)
                &&& a@ == attrs@.map_values(|x: Attribute| x@)[first_attribute_index(
                    attrs@.map_values(|x: Attribute| x@),
                    name@,
                )]
            },
            None => !spec_has_attribute(attrs@.map_values(|x: Attribute| x@), name@),
        },
{
    let ghost av = attrs@.map_values(|x: Attribute| x@);
    let mut i: usize = 0;
    while i < attrs.len()
        invariant
            i <= attrs.len(),
            av == attrs@.map_values(|x: Attribute| x@),
            av.len() == attrs@.len(),
            forall|j: int| 0 <= j < i ==> av[j].name != name@,
        decreases attrs.len() - i,
    {
        if crate::strutil::str_eq(attrs[i].name.as_str(), name) {
            proof {
                lemma_first_attribute_index(av, name@, i as int);
            }
            return Some(&attrs[i]);
        }
        i = i + 1;
    }
    None
}

proof fn lemma_first_attribute_index(attrs: Seq<AttributeV>, name: Seq<char>, i: int)
    requires
        0 <= i < attrs.len(),
        attrs[i].name == name,
        forall|j: int| 0 <= j < i ==> attrs[j].name != name,
    ensures
        first_attribute_index(attrs, name) == i,
    decreases attrs.len(),
{
    if i > 0 {
        lemma_first_attribute_index(attrs.skip(1), name, i - 1);
    }
}

impl StructDef {
    /// Whether the struct carries an attribute of the given name.
    pub fn has_attribute(&self, name: &str) -> (r: bool)
        ensures
            r == spec_has_attribute(self@.attributes, name@),
    {
        match find_attribute(&self.attributes, name) {
            Some(_) => true,
            None => false,
        }
    }

    /// The first attribute of the given name, if any.
    pub fn get_attribute(&self, name: &str) -> (r: Option<&Attribute>)
        ensures
            match r {
                Some(a) => spec_has_attribute(self@.attributes, name@) && a@
                    == self@.attributes[first_attribute_index(self@.attributes, name@)],
                None => !spec_has_attribute(self@.attributes, name@),
            },
    {
        find_attribute(&self.attributes, name)
    }
}

impl EnumDef {
    /// Whether the enum carries an attribute of the given name.
    pub fn has_attribute(&self, name: &str) -> (r: bool)
        ensures
            r == spec_has_attribute(self@.attributes, name@),
    {
        match find_attribute(&self.attributes, name) {
            Some(_) => true,
            None => false,
        }
    }

    /// The first attribute of the given name, if any.
    pub fn get_attribute(&self, name: &str) -> (r: Option<&Attribute>)
        ensures
            match r {
                Some(a) => spec_has_attribute(self@.attributes, name@) && a@
                    == self@.attributes[first_attribute_index(self@.attributes, name@)],
                None => !spec_has_attribute(self@.attributes, name@),
            },
    {
        find_attribute(&self.attributes, name)
    }

    /// Whether every variant is a unit variant.
    pub fn is_unit_only(&self) -> (r: bool)
        ensures
            r == forall|i: int|
                0 <= i < self@.variants.len() ==> self@.variants[i] is Unit,
    {
        let mut i: usize = 0;
        while i < self.variants.len()
            invariant
                i <= self.variants.len(),
                self@.variants.len() == self.variants@.len(),
                forall|j: int| 0 <= j < i ==> self@.variants[j] is Unit,
            decreases self.variants.len() - i,
        {
            match self.variants[i] {
                EnumVariant::Unit { .. } => {},
                _ => {
                    assert(!(self@.variants[i as int] is Unit));
                    return false;
                },
            }
            i = i + 1;
        }
        true
    }

    /// Whether some variant is a struct variant.
    pub fn has_struct_variants(&self) -> (r: bool)
        ensures
            r == exists|i: int|
                0 <= i < self@.variants.len() && self@.variants[i] is Struct,
    {
        let mut i: usize = 0;
        while i < self.variants.len()
            invariant
                i <= self.variants.len(),
                self@.variants.len() == self.variants@.len(),
                forall|j: int| 0 <= j < i ==> !(self@.variants[j] is Struct),
            decreases self.variants.len() - i,
        {
            match self.variants[i] {
                EnumVariant::Struct { .. } => {
                    assert(self@.variants[i as int] is Struct);
                    return true;
                },
                _ => {},
            }
            i = i + 1;
        }
        false
    }
}

impl EnumVariantV {
    /// The variant's name.
    pub open spec fn spec_name(self) -> Seq<char> {
        match self {
            EnumVariantV::Unit { name } => name,
            EnumVariantV::Tuple { name, .. } => name,
            EnumVariantV::Struct { name, .. } => name,
        }
    }
}

impl EnumVariant {
    /// The variant's name.
    pub fn name(&self) -> (r: &str)
        ensures
            r@ == self@.spec_name(),
    {
        match self {
            EnumVariant::Unit { name } => name.as_str(),
            EnumVariant::Tuple { name, .. } => name.as_str(),
            EnumVariant::Struct { name, .. } => name.as_str(),
        }
    }
}

impl FieldDef {
    /// Whether the field carries an attribute of the given name.
    pub fn has_attribute(&self, name: &str) -> (r: bool)
        ensures
            r == spec_has_attribute(self@.attributes, name@),
    {
        match find_attribute(&self.attributes, name) {
            Some(_) => true,
            None => false,
        }
    }

    /// The first attribute of the given name, if any.
    pub fn get_attribute(&self, name: &str) -> (r: Option<&Attribute>)
        ensures
            match r {
                Some(a) => spec_has_attribute(self@.attributes, name@) && a@
                    == self@.attributes[first_attribute_index(self@.attributes, name@)],
                None => !spec_has_attribute(self@.attributes, name@),
            },
    {
        find_attribute(&self.attributes, name)
    }

    /// The integer value of the first `max` attribute, if that attribute is
    /// present and carries an integer.
    pub fn max_length(&self) -> (r: Option<u64>)
        ensures
            r == spec_max_length(self@.attributes),
    {
        match self.get_attribute("max") {
            Some(attr) => match attr.value {
                Some(AttributeValue::Integer(n)) => Some(n),
                _ => None,
            },
            None => None,
        }
    }
}

/// The integer payload of the first `max` attribute, if any.
pub open spec fn spec_max_length(attrs: Seq<AttributeV>) -> Option<u64> {
    if spec_has_attribute(attrs, "max"@) {
        match attrs[first_attribute_index(attrs, "max"@)].value {
            Some(AttributeValueV::Integer(n)) => Some(n),
            _ => None,
        }
    } else {
        None
    }
}

/// The source rendering of a type reference: bare names stand alone, an array
/// is its inner type in brackets.
pub open spec fn spec_type_spec_string(t: TypeSpecV) -> Seq<char>
    decreases t,
{
    match t {
        TypeSpecV::Primitive(name) => name,
        TypeSpecV::Array(inner) => "["@ + spec_type_spec_string(*inner) + "]"@,
        TypeSpecV::UserDefined(name) => name,
    }
}

impl TypeSpec {
    /// Whether this is an array type.
    pub fn is_array(&self) -> (r: bool)
        ensures
            r == (self@ is Array),
    {
        match self {
            TypeSpec::Array(_) => true,
            _ => false,
        }
    }

    /// The inner type if this is an array.
    pub fn array_inner(&self) -> (r: Option<&TypeSpec>)
        ensures
            match r {
                Some(inner) => self@ is Array && inner@ == *self@.arrow_Array_0(),
                None => !(self@ is Array),
            },
    {
        match self {
            TypeSpec::Array(inner) => Some(inner),
            _ => None,
        }
    }

    /// The source rendering of this type reference.
    pub fn as_string(&self) -> (r: String)
        ensures
            r@ == spec_type_spec_string(self@),
        decreases *self,
    {
        match self {
            TypeSpec::Primitive(name) => name.clone(),
            TypeSpec::Array(inner) => {
                let mut s = String::from_str("[");
                let inner_s = inner.as_string();
                s.append(inner_s.as_str());
                s.append("]");
                assert(s@ =~= spec_type_spec_string(self@));
                s
            },
            TypeSpec::UserDefined(name) => name.clone(),
        }
    }
}

} // verus!
