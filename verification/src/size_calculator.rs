//! Account size calculator: computes the exact byte size of type definitions
//! under the shared serialization layout.
//!
//! The layout table here is the authoritative one: every primitive has a
//! fixed byte width, an array is a 4-byte count prefix followed by its
//! elements, an optional value is a 1-byte presence discriminant followed by
//! the value when present, an enum is a 4-byte variant discriminant followed
//! by the widest variant payload, and a struct marked `account` reserves an
//! 8-byte discriminator ahead of its fields.
//!
//! Reference chains are expanded with a depth budget equal to the number of
//! declarations, which covers every acyclic chain; a deeper (hence cyclic)
//! chain is reported as a variable size of unknown minimum.

use vstd::prelude::*;
use crate::ir::{
    EnumDefinition, EnumDefinitionV, EnumVariantDefinition, EnumVariantDefinitionV,
    FieldDefinitionV, StructDefinition, StructDefinitionV, TypeDefinition, TypeDefinitionV,
    TypeInfo, TypeInfoV, view_defs,
};
use crate::strutil::{dec_string, push_char, spec_dec, str_eq};

verus! {

/// Result of size calculation for one type definition.
#[derive(Debug, Clone, PartialEq)]
pub struct AccountSize {
    /// Type name.
    pub name: String,
    /// Total size in bytes.
    pub total_bytes: SizeInfo,
    /// Breakdown of size by field.
    pub field_breakdown: Vec<FieldSize>,
    /// Whether this definition carries the `account` attribute.
    pub is_account: bool,
    /// Warnings about the size.
    pub warnings: Vec<String>,
}

/// A size that is either fixed or variable with a known minimum.
#[derive(Debug, Clone, PartialEq)]
pub enum SizeInfo {
    /// Fixed size in bytes.
    Fixed(usize),
    /// Variable size with its minimum byte count and the reason.
    Variable { min: usize, reason: String },
}

/// Size of a single field.
#[derive(Debug, Clone, PartialEq)]
pub struct FieldSize {
    /// Field name.
    pub name: String,
    /// Field size.
    pub size: SizeInfo,
    /// Description of the field's type.
    pub description: String,
}

/// Ghost view of a size.
pub enum SizeInfoV {
    Fixed(nat),
    Variable { min: nat, reason: Seq<char> },
}

/// Ghost view of a field size entry.
pub struct FieldSizeV {
    pub name: Seq<char>,
    pub size: SizeInfoV,
    pub description: Seq<char>,
}

/// Ghost view of an account size result.
pub struct AccountSizeV {
    pub name: Seq<char>,
    pub total_bytes: SizeInfoV,
    pub field_breakdown: Seq<FieldSizeV>,
    pub is_account: bool,
    pub warnings: Seq<Seq<char>>,
}

impl View for SizeInfo {
    type V = SizeInfoV;

    open spec fn view(&self) -> SizeInfoV {
        match *self {
            SizeInfo::Fixed(n) => SizeInfoV::Fixed(n as nat),
            SizeInfo::Variable { min, ref reason } => SizeInfoV::Variable {
                min: min as nat,
                reason: reason@,
            },
        }
    }
}

impl View for FieldSize {
    type V = FieldSizeV;

    open spec fn view(&self) -> FieldSizeV {
        FieldSizeV { name: self.name@, size: self.size@, description: self.description@ }
    }
}

impl View for AccountSize {
    type V = AccountSizeV;

    open spec fn view(&self) -> AccountSizeV {
        AccountSizeV {
            name: self.name@,
            total_bytes: self.total_bytes@,
            field_breakdown: self.field_breakdown@.map_values(|f: FieldSize| f@),
            is_account: self.is_account,
            warnings: self.warnings@.map_values(|w: String| w@),
        }
    }
}

impl SizeInfoV {
    /// The minimum byte count of a size.
    pub open spec fn spec_min(self) -> nat {
        match self {
            SizeInfoV::Fixed(n) => n,
            SizeInfoV::Variable { min, .. } => min,
        }
    }
}

impl SizeInfo {
    /// The minimum size in bytes.
    pub fn min_bytes(&self) -> (r: usize)
        ensures
            r as nat == self@.spec_min(),
    {
        match self {
            SizeInfo::Fixed(bytes) => *bytes,
            SizeInfo::Variable { min, .. } => *min,
        }
    }

    /// Whether this is a fixed size.
    pub fn is_fixed(&self) -> (r: bool)
        ensures
            r == (self@ is Fixed),
    {
        match self {
            SizeInfo::Fixed(_) => true,
            SizeInfo::Variable { .. } => false,
        }
    }
}

/// Addition saturating at the machine word, under which all byte totals are
/// accumulated.
pub open spec fn sat_add(a: nat, b: nat) -> nat {
    if a + b > usize::MAX {
        usize::MAX as nat
    } else {
        a + b
    }
}

fn sat_add_exec(a: usize, b: usize) -> (r: usize)
    ensures
        r as nat == sat_add(a as nat, b as nat),
{
    if a > usize::MAX - b {
        usize::MAX
    } else {
        a + b
    }
}

/// The authoritative fixed-width table for primitive names: single bytes for
/// the 1-byte integers and booleans, little-endian multi-byte integers and
/// floats by width, 32-byte keys, 64-byte signatures, and a 4-byte length
/// prefix as the minimum of the variable-width text type.
pub open spec fn spec_primitive_size(name: Seq<char>) -> SizeInfoV {
    if name == "u8"@ || name == "i8"@ || name == "bool"@ {
        SizeInfoV::Fixed(1)
    } else if name == "u16"@ || name == "i16"@ {
        SizeInfoV::Fixed(2)
    } else if name == "u32"@ || name == "i32"@ || name == "f32"@ {
        SizeInfoV::Fixed(4)
    } else if name == "u64"@ || name == "i64"@ || name == "f64"@ {
        SizeInfoV::Fixed(8)
    } else if name == "u128"@ || name == "i128"@ {
        SizeInfoV::Fixed(16)
    } else if name == "Pubkey"@ || name == "PublicKey"@ {
        SizeInfoV::Fixed(32)
    } else if name == "Signature"@ {
        SizeInfoV::Fixed(64)
    } else if name == "String"@ {
        SizeInfoV::Variable { min: 4, reason: "String length prefix + UTF-8 bytes"@ }
    } else {
        SizeInfoV::Variable {
            min: 0,
            reason: "Unknown primitive type '"@ + name + "'"@,
        }
    }
}

/// The display description of a type.
pub open spec fn spec_describe(t: TypeInfoV) -> Seq<char>
    decreases t,
{
    match t {
        TypeInfoV::Primitive(name) => if name == "Pubkey"@ || name == "PublicKey"@ {
            "PublicKey (32 bytes)"@
        } else if name == "Signature"@ {
            "Signature (64 bytes)"@
        } else if name == "String"@ {
            "String (variable)"@
        } else {
            name
        },
        TypeInfoV::UserDefined(name) => name,
        TypeInfoV::Array(inner) => "Vec<"@ + spec_describe(*inner) + ">"@,
        TypeInfoV::Option(inner) => "Option<"@ + spec_describe(*inner) + ">"@,
    }
}

/// The first definition of the given name, if any.
pub open spec fn spec_find_def(defs: Seq<TypeDefinitionV>, name: Seq<char>) -> Option<
    TypeDefinitionV,
>
    decreases defs.len(),
{
    if defs.len() == 0 {
        None
    } else if defs[0].spec_name() == name {
        Some(defs[0])
    } else {
        spec_find_def(defs.skip(1), name)
    }
}

/// Structural nesting depth of a type-info chain.
pub open spec fn ti_height(t: TypeInfoV) -> nat
    decreases t,
{
    match t {
        TypeInfoV::Primitive(_) => 0,
        TypeInfoV::UserDefined(_) => 0,
        TypeInfoV::Array(inner) => 1 + ti_height(*inner),
        TypeInfoV::Option(inner) => 1 + ti_height(*inner),
    }
}

/// The size of one type under the layout table, with a depth budget for
/// expanding user-defined references.
pub open spec fn spec_type_size(defs: Seq<TypeDefinitionV>, fuel: nat, t: TypeInfoV) -> SizeInfoV
    decreases fuel, 0int, ti_height(t),
{
    match t {
        TypeInfoV::Primitive(name) => spec_primitive_size(name),
        TypeInfoV::UserDefined(name) => if fuel == 0 {
            SizeInfoV::Variable { min: 0, reason: "Recursive type '"@ + name + "'"@ }
        } else {
            match spec_find_def(defs, name) {
                Some(TypeDefinitionV::Struct(s)) => spec_struct_total(defs, (fuel - 1) as nat, s),
                Some(TypeDefinitionV::Enum(e)) => spec_enum_total(defs, (fuel - 1) as nat, e),
                None => SizeInfoV::Variable {
                    min: 0,
                    reason: "Unknown type '"@ + name + "'"@,
                },
            }
        },
        TypeInfoV::Array(inner) => SizeInfoV::Variable {
            min: 4,
            reason: "Vec length prefix + elements ("@ + spec_describe(*inner) + ")"@,
        },
        TypeInfoV::Option(inner) => match spec_type_size(defs, fuel, *inner) {
            SizeInfoV::Fixed(b) => SizeInfoV::Fixed(sat_add(1, b)),
            SizeInfoV::Variable { min, reason } => SizeInfoV::Variable {
                min: sat_add(1, min),
                reason,
            },
        },
    }
}

/// Walk of a struct's fields: the summed minimum, whether every field is
/// fixed, and the joined reasons (`field: reason`, comma separated) of the
/// variable ones.
pub open spec fn spec_fields_size(
    defs: Seq<TypeDefinitionV>,
    fuel: nat,
    fields: Seq<FieldDefinitionV>,
) -> (nat, bool, Seq<char>)
    decreases fuel, 1int, fields.len(),
{
    if fields.len() == 0 {
        (0, true, Seq::<char>::empty())
    } else {
        let head = spec_type_size(defs, fuel, fields[0].type_info);
        let rest = spec_fields_size(defs, fuel, fields.skip(1));
        match head {
            SizeInfoV::Fixed(b) => (sat_add(b, rest.0), rest.1, rest.2),
            SizeInfoV::Variable { min, reason } => {
                let part = fields[0].name + ": "@ + reason;
                let joined = if rest.2.len() == 0 {
                    part
                } else {
                    part + ", "@ + rest.2
                };
                (sat_add(min, rest.0), false, joined)
            },
        }
    }
}

/// The summed fixed sizes of one variant's payload components; variable
/// components contribute nothing, as only fixed widths enter the widest-
/// variant computation.
pub open spec fn spec_tuple_fixed_size(
    defs: Seq<TypeDefinitionV>,
    fuel: nat,
    types: Seq<TypeInfoV>,
) -> nat
    decreases fuel, 1int, types.len(),
{
    if types.len() == 0 {
        0
    } else {
        let rest = spec_tuple_fixed_size(defs, fuel, types.skip(1));
        match spec_type_size(defs, fuel, types[0]) {
            SizeInfoV::Fixed(b) => sat_add(b, rest),
            SizeInfoV::Variable { .. } => rest,
        }
    }
}

/// The summed fixed sizes of a struct variant's fields.
pub open spec fn spec_variant_fields_fixed_size(
    defs: Seq<TypeDefinitionV>,
    fuel: nat,
    fields: Seq<FieldDefinitionV>,
) -> nat
    decreases fuel, 1int, fields.len(),
{
    if fields.len() == 0 {
        0
    } else {
        let rest = spec_variant_fields_fixed_size(defs, fuel, fields.skip(1));
        match spec_type_size(defs, fuel, fields[0].type_info) {
            SizeInfoV::Fixed(b) => sat_add(b, rest),
            SizeInfoV::Variable { .. } => rest,
        }
    }
}

/// The payload size of one variant.
pub open spec fn spec_variant_size(
    defs: Seq<TypeDefinitionV>,
    fuel: nat,
    v: EnumVariantDefinitionV,
) -> nat
    decreases fuel, 2int, 0int,
{
    match v {
        EnumVariantDefinitionV::Unit { .. } => 0,
        EnumVariantDefinitionV::Tuple { types, .. } => spec_tuple_fixed_size(defs, fuel, types),
        EnumVariantDefinitionV::Struct { fields, .. } => spec_variant_fields_fixed_size(
            defs,
            fuel,
            fields,
        ),
    }
}

/// The widest variant payload.
pub open spec fn spec_variants_max(
    defs: Seq<TypeDefinitionV>,
    fuel: nat,
    variants: Seq<EnumVariantDefinitionV>,
) -> nat
    decreases fuel, 3int, variants.len(),
{
    if variants.len() == 0 {
        0
    } else {
        let head = spec_variant_size(defs, fuel, variants[0]);
        let rest = spec_variants_max(defs, fuel, variants.skip(1));
        if head > rest {
            head
        } else {
            rest
        }
    }
}

/// Whether metadata carries the `account` attribute.
pub open spec fn spec_is_account(attrs: Seq<Seq<char>>) -> bool {
    attrs.contains("account"@)
}

/// The total size of a struct: an 8-byte discriminator when it is an
/// account, then its fields in order.
pub open spec fn spec_struct_total(
    defs: Seq<TypeDefinitionV>,
    fuel: nat,
    s: StructDefinitionV,
) -> SizeInfoV
    decreases fuel, 4int, 0int,
{
    let base: nat = if spec_is_account(s.metadata.attributes) {
        8
    } else {
        0
    };
    let walk = spec_fields_size(defs, fuel, s.fields);
    if walk.1 {
        SizeInfoV::Fixed(sat_add(base, walk.0))
    } else {
        SizeInfoV::Variable { min: sat_add(base, walk.0), reason: walk.2 }
    }
}

/// The total size of an enum: the 4-byte discriminant plus its widest
/// variant payload; always reported fixed.
pub open spec fn spec_enum_total(
    defs: Seq<TypeDefinitionV>,
    fuel: nat,
    e: EnumDefinitionV,
) -> SizeInfoV
    decreases fuel, 4int, 0int,
{
    SizeInfoV::Fixed(sat_add(4, spec_variants_max(defs, fuel, e.variants)))
}

/// Two-decimal fixed-point rendering of a value already scaled by one
/// hundred.
pub open spec fn spec_fixed2(scaled: nat) -> Seq<char> {
    let frac = scaled % 100;
    spec_dec(scaled / 100) + "."@ + (if frac < 10 {
        "0"@ + spec_dec(frac)
    } else {
        spec_dec(frac)
    })
}

fn fixed2(scaled: u64) -> (r: String)
    ensures
        r@ == spec_fixed2(scaled as nat),
{
    proof {
        reveal_strlit(".");
        reveal_strlit("0");
    }
    let mut s = dec_string(scaled / 100);
    push_char(&mut s, '.');
    let frac = scaled % 100;
    if frac < 10 {
        push_char(&mut s, '0');
    }
    let f = dec_string(frac);
    s.append(f.as_str());
    assert(s@ =~= spec_fixed2(scaled as nat));
    s
}

/// The size limit that triggers the hard warning: ten binary megabytes.
pub open spec fn spec_max_account_size() -> nat {
    10 * 1024 * 1024
}

/// The warnings for a struct of the given total minimum size.
pub open spec fn spec_struct_warnings(total: nat) -> Seq<Seq<char>> {
    if total > spec_max_account_size() {
        seq![
            "Account exceeds Solana's 10MB limit ("@ + spec_fixed2(total * 100 / (1024 * 1024))
                + " MB). Consider splitting into multiple accounts."@,
        ]
    } else if total > 1024 * 1024 {
        seq!["Large account size ("@ + spec_fixed2(total * 100 / 1024) + " KB). Consider optimization."@]
    } else {
        Seq::empty()
    }
}

/// The warnings for an enum of the given total size.
pub open spec fn spec_enum_warnings(total: nat) -> Seq<Seq<char>> {
    if total > spec_max_account_size() {
        seq![
            "Enum exceeds Solana's 10MB limit ("@ + spec_fixed2(total * 100 / (1024 * 1024))
                + " MB)"@,
        ]
    } else {
        Seq::empty()
    }
}


/// One breakdown entry: a field's name, its size under the table, and its
/// description.
pub open spec fn spec_field_entry(
    defs: Seq<TypeDefinitionV>,
    fuel: nat,
    f: FieldDefinitionV,
) -> FieldSizeV {
    FieldSizeV {
        name: f.name,
        size: spec_type_size(defs, fuel, f.type_info),
        description: spec_describe(f.type_info),
    }
}

/// The per-field breakdown entries from the given index on.
pub open spec fn spec_field_entries(
    defs: Seq<TypeDefinitionV>,
    fuel: nat,
    fields: Seq<FieldDefinitionV>,
    i: int,
) -> Seq<FieldSizeV>
    decreases fields.len() - i,
{
    if i < 0 || i >= fields.len() {
        Seq::empty()
    } else {
        seq![spec_field_entry(defs, fuel, fields[i])] + spec_field_entries(defs, fuel, fields, i + 1)
    }
}

/// A struct's breakdown: the 8-byte discriminator entry first when it is an
/// account, then one entry per field in declaration order.
pub open spec fn spec_struct_breakdown(
    defs: Seq<TypeDefinitionV>,
    fuel: nat,
    s: StructDefinitionV,
) -> Seq<FieldSizeV> {
    (if spec_is_account(s.metadata.attributes) {
        seq![
            FieldSizeV {
                name: "discriminator"@,
                size: SizeInfoV::Fixed(8),
                description: "Anchor account discriminator"@,
            },
        ]
    } else {
        Seq::empty()
    }) + spec_field_entries(defs, fuel, s.fields, 0)
}

/// The breakdown entries of a tuple variant's slots from the given index on,
/// labelled by position.
pub open spec fn spec_tuple_entries(
    defs: Seq<TypeDefinitionV>,
    fuel: nat,
    vname: Seq<char>,
    types: Seq<TypeInfoV>,
    j: int,
) -> Seq<FieldSizeV>
    decreases types.len() - j,
{
    if j < 0 || j >= types.len() {
        Seq::empty()
    } else {
        seq![
            FieldSizeV {
                name: "  - "@ + vname + "."@ + crate::strutil::spec_dec(j as nat),
                size: spec_type_size(defs, fuel, types[j]),
                description: spec_describe(types[j]),
            },
        ] + spec_tuple_entries(defs, fuel, vname, types, j + 1)
    }
}

/// The breakdown entries of a struct variant's fields from the given index
/// on, labelled by field name.
pub open spec fn spec_variant_field_entries(
    defs: Seq<TypeDefinitionV>,
    fuel: nat,
    vname: Seq<char>,
    fields: Seq<FieldDefinitionV>,
    j: int,
) -> Seq<FieldSizeV>
    decreases fields.len() - j,
{
    if j < 0 || j >= fields.len() {
        Seq::empty()
    } else {
        seq![
            FieldSizeV {
                name: "  - "@ + vname + "."@ + fields[j].name,
                size: spec_type_size(defs, fuel, fields[j].type_info),
                description: spec_describe(fields[j].type_info),
            },
        ] + spec_variant_field_entries(defs, fuel, vname, fields, j + 1)
    }
}

/// One variant's breakdown entries.
pub open spec fn spec_variant_entries(
    defs: Seq<TypeDefinitionV>,
    fuel: nat,
    v: EnumVariantDefinitionV,
) -> Seq<FieldSizeV> {
    match v {
        EnumVariantDefinitionV::Unit { name } => seq![
            FieldSizeV {
                name: "  - "@ + name,
                size: SizeInfoV::Fixed(0),
                description: "Unit variant (no data)"@,
            },
        ],
        EnumVariantDefinitionV::Tuple { name, types } => spec_tuple_entries(
            defs,
            fuel,
            name,
            types,
            0,
        ),
        EnumVariantDefinitionV::Struct { name, fields } => spec_variant_field_entries(
            defs,
            fuel,
            name,
            fields,
            0,
        ),
    }
}

/// The variant breakdown entries from the given index on.
pub open spec fn spec_variants_entries(
    defs: Seq<TypeDefinitionV>,
    fuel: nat,
    variants: Seq<EnumVariantDefinitionV>,
    i: int,
) -> Seq<FieldSizeV>
    decreases variants.len() - i,
{
    if i < 0 || i >= variants.len() {
        Seq::empty()
    } else {
        spec_variant_entries(defs, fuel, variants[i]) + spec_variants_entries(
            defs,
            fuel,
            variants,
            i + 1,
        )
    }
}

/// An enum's breakdown: the 4-byte discriminant entry first, then every
/// variant's entries in declaration order.
pub open spec fn spec_enum_breakdown(
    defs: Seq<TypeDefinitionV>,
    fuel: nat,
    e: EnumDefinitionV,
) -> Seq<FieldSizeV> {
    seq![
        FieldSizeV {
            name: "discriminant"@,
            size: SizeInfoV::Fixed(4),
            description: "Enum variant discriminant"@,
        },
    ] + spec_variants_entries(defs, fuel, e.variants, 0)
}

proof fn lemma_breakdown_map_push(prev: Seq<FieldSize>, x: FieldSize)
    ensures
        prev.push(x).map_values(|f: FieldSize| f@) == prev.map_values(|f: FieldSize| f@).push(x@),
{
    assert(prev.push(x).map_values(|f: FieldSize| f@) =~= prev.map_values(
        |f: FieldSize| f@,
    ).push(x@));
}

proof fn lemma_field_entries_len(
    defs: Seq<TypeDefinitionV>,
    fuel: nat,
    fields: Seq<FieldDefinitionV>,
    i: int,
)
    requires
        0 <= i <= fields.len(),
    ensures
        spec_field_entries(defs, fuel, fields, i).len() == fields.len() - i,
    decreases fields.len() - i,
{
    if i < fields.len() {
        lemma_field_entries_len(defs, fuel, fields, i + 1);
    }
}

/// Size calculator over an immutable list of type definitions.
pub struct SizeCalculator<'a> {
    /// All type definitions, for resolving user-defined references.
    pub type_defs: &'a Vec<TypeDefinition>,
}

pub(crate) fn find_def<'x>(defs: &'x Vec<TypeDefinition>, name: &str) -> (r: Option<&'x TypeDefinition>)
    ensures
        match r {
            Some(d) => spec_find_def(view_defs(defs@), name@) == Some(d@),
            None => spec_find_def(view_defs(defs@), name@) is None,
        },
{
    let ghost dv = view_defs(defs@);
    assert(dv.skip(0) =~= dv);
    let mut i: usize = 0;
    while i < defs.len()
        invariant
            i <= defs.len(),
            dv == view_defs(defs@),
            dv.len() == defs@.len(),
            spec_find_def(dv, name@) == spec_find_def(dv.skip(i as int), name@),
        decreases defs.len() - i,
    {
        let found = match &defs[i] {
            TypeDefinition::Struct(s) => str_eq(s.name.as_str(), name),
            TypeDefinition::Enum(e) => str_eq(e.name.as_str(), name),
        };
        assert(dv.skip(i as int)[0] == dv[i as int]);
        if found {
            assert(dv[i as int].spec_name() == name@);
            return Some(&defs[i]);
        }
        assert(dv.skip(i as int).skip(1) =~= dv.skip(i + 1));
        i = i + 1;
    }
    assert(dv.skip(i as int).len() == 0);
    None
}

fn describe_type_info(t: &TypeInfo) -> (r: String)
    ensures
        r@ == spec_describe(t@),
    decreases *t,
{
    match t {
        TypeInfo::Primitive(name) => {
            if str_eq(name.as_str(), "Pubkey") || str_eq(name.as_str(), "PublicKey") {
                String::from_str("PublicKey (32 bytes)")
            } else if str_eq(name.as_str(), "Signature") {
                String::from_str("Signature (64 bytes)")
            } else if str_eq(name.as_str(), "String") {
                String::from_str("String (variable)")
            } else {
                name.clone()
            }
        },
        TypeInfo::UserDefined(name) => name.clone(),
        TypeInfo::Array(inner) => {
            let mut s = String::from_str("Vec<");
            let d = describe_type_info(inner);
            s.append(d.as_str());
            s.append(">");
            assert(s@ =~= spec_describe(t@));
            s
        },
        TypeInfo::Option(inner) => {
            let mut s = String::from_str("Option<");
            let d = describe_type_info(inner);
            s.append(d.as_str());
            s.append(">");
            assert(s@ =~= spec_describe(t@));
            s
        },
    }
}

fn primitive_size(name: &str) -> (r: SizeInfo)
    ensures
        r@ == spec_primitive_size(name@),
{
    if str_eq(name, "u8") || str_eq(name, "i8") || str_eq(name, "bool") {
        SizeInfo::Fixed(1)
    } else if str_eq(name, "u16") || str_eq(name, "i16") {
        SizeInfo::Fixed(2)
    } else if str_eq(name, "u32") || str_eq(name, "i32") || str_eq(name, "f32") {
        SizeInfo::Fixed(4)
    } else if str_eq(name, "u64") || str_eq(name, "i64") || str_eq(name, "f64") {
        SizeInfo::Fixed(8)
    } else if str_eq(name, "u128") || str_eq(name, "i128") {
        SizeInfo::Fixed(16)
    } else if str_eq(name, "Pubkey") || str_eq(name, "PublicKey") {
        SizeInfo::Fixed(32)
    } else if str_eq(name, "Signature") {
        SizeInfo::Fixed(64)
    } else if str_eq(name, "String") {
        SizeInfo::Variable {
            min: 4,
            reason: String::from_str("String length prefix + UTF-8 bytes"),
        }
    } else {
        let mut reason = String::from_str("Unknown primitive type '");
        reason.append(name);
        reason.append("'");
        assert(reason@ =~= "Unknown primitive type '"@ + name@ + "'"@);
        SizeInfo::Variable { min: 0, reason }
    }
}

fn type_size(defs: &Vec<TypeDefinition>, fuel: usize, t: &TypeInfo) -> (r: SizeInfo)
    ensures
        r@ == spec_type_size(view_defs(defs@), fuel as nat, t@),
    decreases fuel, 0int, ti_height(t@),
{
    match t {
        TypeInfo::Primitive(name) => primitive_size(name.as_str()),
        TypeInfo::UserDefined(name) => {
            if fuel == 0 {
                let mut reason = String::from_str("Recursive type '");
                reason.append(name.as_str());
                reason.append("'");
                assert(reason@ =~= "Recursive type '"@ + name@ + "'"@);
                SizeInfo::Variable { min: 0, reason }
            } else {
                match find_def(defs, name.as_str()) {
                    Some(TypeDefinition::Struct(s)) => struct_total(defs, fuel - 1, s),
                    Some(TypeDefinition::Enum(e)) => enum_total(defs, fuel - 1, e),
                    None => {
                        let mut reason = String::from_str("Unknown type '");
                        reason.append(name.as_str());
                        reason.append("'");
                        assert(reason@ =~= "Unknown type '"@ + name@ + "'"@);
                        SizeInfo::Variable { min: 0, reason }
                    },
                }
            }
        },
        TypeInfo::Array(inner) => {
            let mut reason = String::from_str("Vec length prefix + elements (");
            let d = describe_type_info(inner);
            reason.append(d.as_str());
            reason.append(")");
            assert(reason@ =~= "Vec length prefix + elements ("@ + spec_describe(inner@) + ")"@);
            SizeInfo::Variable { min: 4, reason }
        },
        TypeInfo::Option(inner) => {
            match type_size(defs, fuel, inner) {
                SizeInfo::Fixed(b) => SizeInfo::Fixed(sat_add_exec(1, b)),
                SizeInfo::Variable { min, reason } => SizeInfo::Variable {
                    min: sat_add_exec(1, min),
                    reason,
                },
            }
        },
    }
}

fn fields_size(defs: &Vec<TypeDefinition>, fuel: usize, fields: &Vec<crate::ir::FieldDefinition>, i: usize) -> (r: (
    usize,
    bool,
    String,
))
    requires
        i <= fields@.len(),
    ensures
        ({
            let s = spec_fields_size(
                view_defs(defs@),
                fuel as nat,
                fields@.map_values(|f: crate::ir::FieldDefinition| f@).skip(i as int),
            );
            r.0 as nat == s.0 && r.1 == s.1 && r.2@ == s.2
        }),
    decreases fuel, 1int, fields@.len() - i,
{
    let ghost fv = fields@.map_values(|f: crate::ir::FieldDefinition| f@);
    if i == fields.len() {
        return (0, true, String::new());
    }
    let head = type_size(defs, fuel, &fields[i].type_info);
    let rest = fields_size(defs, fuel, fields, i + 1);
    assert(fv.skip(i as int)[0] == fv[i as int]);
    assert(fv.skip(i as int).skip(1) =~= fv.skip(i + 1));
    match head {
        SizeInfo::Fixed(b) => (sat_add_exec(b, rest.0), rest.1, rest.2),
        SizeInfo::Variable { min, reason } => {
            let mut part = fields[i].name.clone();
            part.append(": ");
            part.append(reason.as_str());
            assert(part@ =~= fv[i as int].name + ": "@ + reason@);
            if rest.2.unicode_len() == 0 {
                assert(rest.2@ =~= Seq::<char>::empty());
                (sat_add_exec(min, rest.0), false, part)
            } else {
                part.append(", ");
                part.append(rest.2.as_str());
                assert(part@ =~= (fv[i as int].name + ": "@ + reason@) + ", "@ + rest.2@);
                (sat_add_exec(min, rest.0), false, part)
            }
        },
    }
}

fn tuple_fixed_size(defs: &Vec<TypeDefinition>, fuel: usize, types: &Vec<TypeInfo>, i: usize) -> (r: usize)
    requires
        i <= types@.len(),
    ensures
        r as nat == spec_tuple_fixed_size(
            view_defs(defs@),
            fuel as nat,
            types@.map_values(|t: TypeInfo| t@).skip(i as int),
        ),
    decreases fuel, 1int, types@.len() - i,
{
    let ghost tv = types@.map_values(|t: TypeInfo| t@);
    if i == types.len() {
        return 0;
    }
    let head = type_size(defs, fuel, &types[i]);
    let rest = tuple_fixed_size(defs, fuel, types, i + 1);
    assert(tv.skip(i as int)[0] == tv[i as int]);
    assert(tv.skip(i as int).skip(1) =~= tv.skip(i + 1));
    match head {
        SizeInfo::Fixed(b) => sat_add_exec(b, rest),
        SizeInfo::Variable { .. } => rest,
    }
}

fn variant_fields_fixed_size(
    defs: &Vec<TypeDefinition>,
    fuel: usize,
    fields: &Vec<crate::ir::FieldDefinition>,
    i: usize,
) -> (r: usize)
    requires
        i <= fields@.len(),
    ensures
        r as nat == spec_variant_fields_fixed_size(
            view_defs(defs@),
            fuel as nat,
            fields@.map_values(|f: crate::ir::FieldDefinition| f@).skip(i as int),
        ),
    decreases fuel, 1int, fields@.len() - i,
{
    let ghost fv = fields@.map_values(|f: crate::ir::FieldDefinition| f@);
    if i == fields.len() {
        return 0;
    }
    let head = type_size(defs, fuel, &fields[i].type_info);
    let rest = variant_fields_fixed_size(defs, fuel, fields, i + 1);
    assert(fv.skip(i as int)[0] == fv[i as int]);
    assert(fv.skip(i as int).skip(1) =~= fv.skip(i + 1));
    match head {
        SizeInfo::Fixed(b) => sat_add_exec(b, rest),
        SizeInfo::Variable { .. } => rest,
    }
}

fn variants_max(
    defs: &Vec<TypeDefinition>,
    fuel: usize,
    variants: &Vec<EnumVariantDefinition>,
    i: usize,
) -> (r: usize)
    requires
        i <= variants@.len(),
    ensures
        r as nat == spec_variants_max(
            view_defs(defs@),
            fuel as nat,
            variants@.map_values(|v: EnumVariantDefinition| v@).skip(i as int),
        ),
    decreases fuel, 3int, variants@.len() - i,
{
    let ghost vv = variants@.map_values(|v: EnumVariantDefinition| v@);
    if i == variants.len() {
        return 0;
    }
    let v = &variants[i];
    assert(v@ == vv[i as int]);
    let head = match v {
        EnumVariantDefinition::Unit { .. } => 0,
        EnumVariantDefinition::Tuple { types, .. } => {
            let r = tuple_fixed_size(defs, fuel, types, 0);
            assert(types@.map_values(|t: TypeInfo| t@).skip(0) =~= types@.map_values(
                |t: TypeInfo| t@,
            ));
            r
        },
        EnumVariantDefinition::Struct { fields, .. } => {
            let r = variant_fields_fixed_size(defs, fuel, fields, 0);
            assert(fields@.map_values(|f: crate::ir::FieldDefinition| f@).skip(0)
                =~= fields@.map_values(|f: crate::ir::FieldDefinition| f@));
            r
        },
    };
    assert(head as nat == spec_variant_size(view_defs(defs@), fuel as nat, vv[i as int]));
    let rest = variants_max(defs, fuel, variants, i + 1);
    assert(vv.skip(i as int)[0] == vv[i as int]);
    assert(vv.skip(i as int).skip(1) =~= vv.skip(i + 1));
    if head > rest {
        head
    } else {
        rest
    }
}

pub(crate) fn metadata_is_account_exec(m: &crate::ir::Metadata) -> (r: bool)
    ensures
        r == spec_is_account(m@.attributes),
{
    let ghost av = m.attributes@.map_values(|a: String| a@);
    let mut i: usize = 0;
    while i < m.attributes.len()
        invariant
            i <= m.attributes.len(),
            av == m.attributes@.map_values(|a: String| a@),
            av.len() == m.attributes@.len(),
            forall|j: int| 0 <= j < i ==> av[j] != "account"@,
        decreases m.attributes.len() - i,
    {
        if str_eq(m.attributes[i].as_str(), "account") {
            assert(av[i as int] == "account"@);
            assert(av.contains("account"@));
            return true;
        }
        i = i + 1;
    }
    assert(!av.contains("account"@));
    false
}

fn struct_total(defs: &Vec<TypeDefinition>, fuel: usize, s: &StructDefinition) -> (r: SizeInfo)
    ensures
        r@ == spec_struct_total(view_defs(defs@), fuel as nat, s@),
    decreases fuel, 4int, 0int,
{
    let base: usize = if metadata_is_account_exec(&s.metadata) {
        8
    } else {
        0
    };
    let walk = fields_size(defs, fuel, &s.fields, 0);
    assert(s.fields@.map_values(|f: crate::ir::FieldDefinition| f@).skip(0) =~= s.fields@
        .map_values(|f: crate::ir::FieldDefinition| f@));
    if walk.1 {
        SizeInfo::Fixed(sat_add_exec(base, walk.0))
    } else {
        SizeInfo::Variable { min: sat_add_exec(base, walk.0), reason: walk.2 }
    }
}

fn enum_total(defs: &Vec<TypeDefinition>, fuel: usize, e: &EnumDefinition) -> (r: SizeInfo)
    ensures
        r@ == spec_enum_total(view_defs(defs@), fuel as nat, e@),
    decreases fuel, 4int, 0int,
{
    let m = variants_max(defs, fuel, &e.variants, 0);
    assert(e.variants@.map_values(|v: EnumVariantDefinition| v@).skip(0) =~= e.variants@
        .map_values(|v: EnumVariantDefinition| v@));
    SizeInfo::Fixed(sat_add_exec(4, m))
}

fn struct_warnings(total: usize) -> (r: Vec<String>)
    ensures
        r@.map_values(|w: String| w@) == spec_struct_warnings(total as nat),
{
    let mut warnings: Vec<String> = Vec::new();
    if total > 10 * 1024 * 1024 {
        let mut w = String::from_str("Account exceeds Solana's 10MB limit (");
        let scaled = (total as u128) * 100 / (1024 * 1024);
        assert(scaled <= u64::MAX) by (nonlinear_arith)
            requires scaled == (total as u128) * 100 / (1024int * 1024);
        let mb = fixed2(scaled as u64);
        w.append(mb.as_str());
        w.append(" MB). Consider splitting into multiple accounts.");
        assert(w@ =~= spec_struct_warnings(total as nat)[0]);
        warnings.push(w);
        assert(warnings@.map_values(|x: String| x@) =~= spec_struct_warnings(total as nat));
    } else if total > 1024 * 1024 {
        let mut w = String::from_str("Large account size (");
        let scaled = (total as u128) * 100 / 1024;
        assert(scaled <= u64::MAX) by (nonlinear_arith)
            requires scaled == (total as u128) * 100 / 1024int;
        let kb = fixed2(scaled as u64);
        w.append(kb.as_str());
        w.append(" KB). Consider optimization.");
        assert(w@ =~= spec_struct_warnings(total as nat)[0]);
        warnings.push(w);
        assert(warnings@.map_values(|x: String| x@) =~= spec_struct_warnings(total as nat));
    } else {
        assert(warnings@.map_values(|x: String| x@) =~= spec_struct_warnings(total as nat));
    }
    warnings
}

fn enum_warnings(total: usize) -> (r: Vec<String>)
    ensures
        r@.map_values(|w: String| w@) == spec_enum_warnings(total as nat),
{
    let mut warnings: Vec<String> = Vec::new();
    if total > 10 * 1024 * 1024 {
        let mut w = String::from_str("Enum exceeds Solana's 10MB limit (");
        let scaled = (total as u128) * 100 / (1024 * 1024);
        assert(scaled <= u64::MAX) by (nonlinear_arith)
            requires scaled == (total as u128) * 100 / (1024int * 1024);
        let mb = fixed2(scaled as u64);
        w.append(mb.as_str());
        w.append(" MB)");
        assert(w@ =~= spec_enum_warnings(total as nat)[0]);
        warnings.push(w);
        assert(warnings@.map_values(|x: String| x@) =~= spec_enum_warnings(total as nat));
    } else {
        assert(warnings@.map_values(|x: String| x@) =~= spec_enum_warnings(total as nat));
    }
    warnings
}

impl<'a> SizeCalculator<'a> {
    /// Create a new size calculator over the given definitions.
    pub fn new(type_defs: &'a Vec<TypeDefinition>) -> (r: Self)
        ensures
            r.type_defs@ == type_defs@,
    {
        SizeCalculator { type_defs }
    }

    /// The size of one type under the layout table, expanding user-defined
    /// references up to the declaration count.
    pub fn calculate_type_size(&self, type_info: &TypeInfo) -> (r: SizeInfo)
        ensures
            r@ == spec_type_size(
                view_defs(self.type_defs@),
                self.type_defs@.len() as nat,
                type_info@,
            ),
    {
        type_size(self.type_defs, self.type_defs.len(), type_info)
    }

    /// The size of one primitive name under the authoritative table.
    pub fn calculate_primitive_size(&self, name: &str) -> (r: SizeInfo)
        ensures
            r@ == spec_primitive_size(name@),
    {
        primitive_size(name)
    }

    /// The display description of a type.
    pub fn describe_type(&self, type_info: &TypeInfo) -> (r: String)
        ensures
            r@ == spec_describe(type_info@),
    {
        describe_type_info(type_info)
    }

    /// Size report for one struct: total bytes, per-field breakdown and
    /// warnings.
    pub fn calculate_struct_size(&self, struct_def: &StructDefinition) -> (r: AccountSize)
        ensures
            r@.name == struct_def@.name,
            r@.is_account == spec_is_account(struct_def@.metadata.attributes),
            r@.total_bytes == spec_struct_total(
                view_defs(self.type_defs@),
                self.type_defs@.len() as nat,
                struct_def@,
            ),
            r@.warnings == spec_struct_warnings(r@.total_bytes.spec_min()),
            r@.field_breakdown == spec_struct_breakdown(
                view_defs(self.type_defs@),
                self.type_defs@.len() as nat,
                struct_def@,
            ),
            r@.field_breakdown.len() == struct_def@.fields.len() + (
            if r@.is_account {
                1int
            } else {
                0int
            }),
    {
        let ghost dv = view_defs(self.type_defs@);
        let ghost nfuel = self.type_defs@.len() as nat;
        let ghost sv = struct_def@;
        let defs = self.type_defs;
        let fuel = defs.len();
        let is_account = metadata_is_account_exec(&struct_def.metadata);
        let mut field_breakdown: Vec<FieldSize> = Vec::new();
        if is_account {
            field_breakdown.push(
                FieldSize {
                    name: String::from_str("discriminator"),
                    size: SizeInfo::Fixed(8),
                    description: String::from_str("Anchor account discriminator"),
                },
            );
        }
        assert(field_breakdown@.map_values(|f: FieldSize| f@) + spec_field_entries(
            dv,
            nfuel,
            sv.fields,
            0,
        ) =~= spec_struct_breakdown(dv, nfuel, sv));
        let mut i: usize = 0;
        while i < struct_def.fields.len()
            invariant
                i <= struct_def.fields.len(),
                dv == view_defs(self.type_defs@),
                nfuel == self.type_defs@.len() as nat,
                sv == struct_def@,
                fuel == self.type_defs@.len(),
                defs == self.type_defs,
                sv.fields.len() == struct_def.fields@.len(),
                field_breakdown@.map_values(|f: FieldSize| f@) + spec_field_entries(
                    dv,
                    nfuel,
                    sv.fields,
                    i as int,
                ) == spec_struct_breakdown(dv, nfuel, sv),
            decreases struct_def.fields.len() - i,
        {
            let ghost before = field_breakdown@.map_values(|f: FieldSize| f@);
            let size = type_size(defs, fuel, &struct_def.fields[i].type_info);
            let description = describe_type_info(&struct_def.fields[i].type_info);
            let ghost prev_vec = field_breakdown@;
            field_breakdown.push(
                FieldSize { name: struct_def.fields[i].name.clone(), size, description },
            );
            proof {
                lemma_breakdown_map_push(prev_vec, field_breakdown@.last());
                assert(struct_def.fields@[i as int]@ == sv.fields[i as int]);
                assert(field_breakdown@.last()@ == spec_field_entry(
                    dv,
                    nfuel,
                    sv.fields[i as int],
                ));
                assert(before + spec_field_entries(dv, nfuel, sv.fields, i as int)
                    =~= field_breakdown@.map_values(|f: FieldSize| f@) + spec_field_entries(
                    dv,
                    nfuel,
                    sv.fields,
                    i + 1,
                ));
            }
            i = i + 1;
        }
        assert(field_breakdown@.map_values(|f: FieldSize| f@) =~= spec_struct_breakdown(
            dv,
            nfuel,
            sv,
        ));
        proof {
            lemma_field_entries_len(dv, nfuel, sv.fields, 0);
        }
        let total_bytes = struct_total(defs, fuel, struct_def);
        let total_min = total_bytes.min_bytes();
        let warnings = struct_warnings(total_min);
        AccountSize {
            name: struct_def.name.clone(),
            total_bytes,
            field_breakdown,
            is_account,
            warnings,
        }
    }

    /// Size report for one enum: the discriminant plus its widest variant.
    pub fn calculate_enum_size(&self, enum_def: &EnumDefinition) -> (r: AccountSize)
        ensures
            r@.name == enum_def@.name,
            r@.is_account == false,
            r@.total_bytes == spec_enum_total(
                view_defs(self.type_defs@),
                self.type_defs@.len() as nat,
                enum_def@,
            ),
            r@.warnings == spec_enum_warnings(r@.total_bytes.spec_min()),
            r@.field_breakdown == spec_enum_breakdown(
                view_defs(self.type_defs@),
                self.type_defs@.len() as nat,
                enum_def@,
            ),
            r@.field_breakdown.len() >= 1,
            r@.field_breakdown[0].size == SizeInfoV::Fixed(4),
    {
        let ghost dv = view_defs(self.type_defs@);
        let ghost nfuel = self.type_defs@.len() as nat;
        let ghost ev = enum_def@;
        let defs = self.type_defs;
        let fuel = defs.len();
        let mut field_breakdown: Vec<FieldSize> = Vec::new();
        field_breakdown.push(
            FieldSize {
                name: String::from_str("discriminant"),
                size: SizeInfo::Fixed(4),
                description: String::from_str("Enum variant discriminant"),
            },
        );
        assert(field_breakdown@.map_values(|f: FieldSize| f@) + spec_variants_entries(
            dv,
            nfuel,
            ev.variants,
            0,
        ) =~= spec_enum_breakdown(dv, nfuel, ev));
        let mut i: usize = 0;
        while i < enum_def.variants.len()
            invariant
                i <= enum_def.variants.len(),
                dv == view_defs(self.type_defs@),
                nfuel == self.type_defs@.len() as nat,
                ev == enum_def@,
                fuel == self.type_defs@.len(),
                defs == self.type_defs,
                ev.variants.len() == enum_def.variants@.len(),
                field_breakdown@.map_values(|f: FieldSize| f@) + spec_variants_entries(
                    dv,
                    nfuel,
                    ev.variants,
                    i as int,
                ) == spec_enum_breakdown(dv, nfuel, ev),
            decreases enum_def.variants.len() - i,
        {
            let ghost entered = field_breakdown@.map_values(|f: FieldSize| f@);
            let v = &enum_def.variants[i];
            assert(v@ == ev.variants[i as int]);
            match v {
                EnumVariantDefinition::Unit { name } => {
                    let mut label = String::from_str("  - ");
                    label.append(name.as_str());
                    assert(label@ =~= "  - "@ + name@);
                    let ghost prev_vec = field_breakdown@;
                    field_breakdown.push(
                        FieldSize {
                            name: label,
                            size: SizeInfo::Fixed(0),
                            description: String::from_str("Unit variant (no data)"),
                        },
                    );
                    proof {
                        lemma_breakdown_map_push(prev_vec, field_breakdown@.last());
                        assert(entered + spec_variants_entries(dv, nfuel, ev.variants, i as int)
                            =~= field_breakdown@.map_values(|f: FieldSize| f@)
                            + spec_variants_entries(dv, nfuel, ev.variants, i + 1));
                    }
                },
                EnumVariantDefinition::Tuple { name, types } => {
                    let ghost vname = name@;
                    let ghost tvs = types@.map_values(|t: TypeInfo| t@);
                    let mut j: usize = 0;
                    while j < types.len()
                        invariant
                            j <= types.len(),
                            dv == view_defs(self.type_defs@),
                            nfuel == self.type_defs@.len() as nat,
                            fuel == self.type_defs@.len(),
                            defs == self.type_defs,
                            vname == name@,
                            tvs == types@.map_values(|t: TypeInfo| t@),
                            tvs.len() == types@.len(),
                            field_breakdown@.map_values(|f: FieldSize| f@) + spec_tuple_entries(
                                dv,
                                nfuel,
                                vname,
                                tvs,
                                j as int,
                            ) == entered + spec_tuple_entries(dv, nfuel, vname, tvs, 0),
                        decreases types.len() - j,
                    {
                        let ghost before = field_breakdown@.map_values(|f: FieldSize| f@);
                        let size = type_size(defs, fuel, &types[j]);
                        let mut label = String::from_str("  - ");
                        label.append(name.as_str());
                        label.append(".");
                        let jd = dec_string(j as u64);
                        label.append(jd.as_str());
                        assert(label@ =~= "  - "@ + vname + "."@ + crate::strutil::spec_dec(
                            j as nat,
                        ));
                        let ghost prev_vec = field_breakdown@;
                        field_breakdown.push(
                            FieldSize {
                                name: label,
                                size,
                                description: describe_type_info(&types[j]),
                            },
                        );
                        proof {
                            lemma_breakdown_map_push(prev_vec, field_breakdown@.last());
                            assert(types@[j as int]@ == tvs[j as int]);
                            assert(before + spec_tuple_entries(dv, nfuel, vname, tvs, j as int)
                                =~= field_breakdown@.map_values(|f: FieldSize| f@)
                                + spec_tuple_entries(dv, nfuel, vname, tvs, j + 1));
                        }
                        j = j + 1;
                    }
                    assert(spec_tuple_entries(dv, nfuel, vname, tvs, tvs.len() as int)
                        =~= Seq::<FieldSizeV>::empty());
                    assert(field_breakdown@.map_values(|f: FieldSize| f@) =~= entered
                        + spec_tuple_entries(dv, nfuel, vname, tvs, 0));
                },
                EnumVariantDefinition::Struct { name, fields } => {
                    let ghost vname = name@;
                    let ghost fvs = fields@.map_values(|f: crate::ir::FieldDefinition| f@);
                    let mut j: usize = 0;
                    while j < fields.len()
                        invariant
                            j <= fields.len(),
                            dv == view_defs(self.type_defs@),
                            nfuel == self.type_defs@.len() as nat,
                            fuel == self.type_defs@.len(),
                            defs == self.type_defs,
                            vname == name@,
                            fvs == fields@.map_values(|f: crate::ir::FieldDefinition| f@),
                            fvs.len() == fields@.len(),
                            field_breakdown@.map_values(|f: FieldSize| f@)
                                + spec_variant_field_entries(dv, nfuel, vname, fvs, j as int)
                                == entered + spec_variant_field_entries(dv, nfuel, vname, fvs, 0),
                        decreases fields.len() - j,
                    {
                        let ghost before = field_breakdown@.map_values(|f: FieldSize| f@);
                        let size = type_size(defs, fuel, &fields[j].type_info);
                        let mut label = String::from_str("  - ");
                        label.append(name.as_str());
                        label.append(".");
                        label.append(fields[j].name.as_str());
                        assert(label@ =~= "  - "@ + vname + "."@ + fvs[j as int].name);
                        let ghost prev_vec = field_breakdown@;
                        field_breakdown.push(
                            FieldSize {
                                name: label,
                                size,
                                description: describe_type_info(&fields[j].type_info),
                            },
                        );
                        proof {
                            lemma_breakdown_map_push(prev_vec, field_breakdown@.last());
                            assert(fields@[j as int]@ == fvs[j as int]);
                            assert(before + spec_variant_field_entries(
                                dv,
                                nfuel,
                                vname,
                                fvs,
                                j as int,
                            ) =~= field_breakdown@.map_values(|f: FieldSize| f@)
                                + spec_variant_field_entries(dv, nfuel, vname, fvs, j + 1));
                        }
                        j = j + 1;
                    }
                    assert(spec_variant_field_entries(dv, nfuel, vname, fvs, fvs.len() as int)
                        =~= Seq::<FieldSizeV>::empty());
                    assert(field_breakdown@.map_values(|f: FieldSize| f@) =~= entered
                        + spec_variant_field_entries(dv, nfuel, vname, fvs, 0));
                },
            }
            assert(entered + spec_variants_entries(dv, nfuel, ev.variants, i as int)
                =~= field_breakdown@.map_values(|f: FieldSize| f@) + spec_variants_entries(
                dv,
                nfuel,
                ev.variants,
                i + 1,
            ));
            i = i + 1;
        }
        assert(field_breakdown@.map_values(|f: FieldSize| f@) =~= spec_enum_breakdown(
            dv,
            nfuel,
            ev,
        ));
        let total_bytes = enum_total(defs, fuel, enum_def);
        let total_min = total_bytes.min_bytes();
        let warnings = enum_warnings(total_min);
        AccountSize {
            name: enum_def.name.clone(),
            total_bytes,
            field_breakdown,
            is_account: false,
            warnings,
        }
    }

    /// Size reports for every definition, in declaration order.
    pub fn calculate_all(&self) -> (r: Vec<AccountSize>)
        ensures
            r@.len() == self.type_defs@.len(),
            forall|i: int|
                0 <= i < r@.len() ==> (#[trigger] r@[i])@.name == view_defs(
                    self.type_defs@,
                )[i].spec_name(),
            forall|i: int|
                0 <= i < r@.len() ==> (#[trigger] r@[i])@.total_bytes == (
                match view_defs(self.type_defs@)[i] {
                    TypeDefinitionV::Struct(s) => spec_struct_total(
                        view_defs(self.type_defs@),
                        self.type_defs@.len() as nat,
                        s,
                    ),
                    TypeDefinitionV::Enum(e) => spec_enum_total(
                        view_defs(self.type_defs@),
                        self.type_defs@.len() as nat,
                        e,
                    ),
                }),
            forall|i: int|
                0 <= i < r@.len() ==> (#[trigger] r@[i])@.is_account == (
                match view_defs(self.type_defs@)[i] {
                    TypeDefinitionV::Struct(s) => spec_is_account(s.metadata.attributes),
                    TypeDefinitionV::Enum(_) => false,
                }),
            forall|i: int|
                0 <= i < r@.len() ==> (#[trigger] r@[i])@.warnings == (
                match view_defs(self.type_defs@)[i] {
                    TypeDefinitionV::Struct(_) => spec_struct_warnings(
                        r@[i]@.total_bytes.spec_min(),
                    ),
                    TypeDefinitionV::Enum(_) => spec_enum_warnings(r@[i]@.total_bytes.spec_min()),
                }),
            forall|i: int|
                0 <= i < r@.len() ==> (#[trigger] r@[i])@.field_breakdown == (
                match view_defs(self.type_defs@)[i] {
                    TypeDefinitionV::Struct(s) => spec_struct_breakdown(
                        view_defs(self.type_defs@),
                        self.type_defs@.len() as nat,
                        s,
                    ),
                    TypeDefinitionV::Enum(e) => spec_enum_breakdown(
                        view_defs(self.type_defs@),
                        self.type_defs@.len() as nat,
                        e,
                    ),
                }),
    {
        let ghost dv = view_defs(self.type_defs@);
        let mut out: Vec<AccountSize> = Vec::new();
        let mut i: usize = 0;
        while i < self.type_defs.len()
            invariant
                i <= self.type_defs@.len(),
                out@.len() == i,
                dv == view_defs(self.type_defs@),
                dv.len() == self.type_defs@.len(),
                forall|j: int| 0 <= j < i ==> (#[trigger] out@[j])@.name == dv[j].spec_name(),
                forall|j: int|
                    0 <= j < i ==> (#[trigger] out@[j])@.total_bytes == (match dv[j] {
                        TypeDefinitionV::Struct(s) => spec_struct_total(
                            dv,
                            self.type_defs@.len() as nat,
                            s,
                        ),
                        TypeDefinitionV::Enum(e) => spec_enum_total(
                            dv,
                            self.type_defs@.len() as nat,
                            e,
                        ),
                    }),
                forall|j: int|
                    0 <= j < i ==> (#[trigger] out@[j])@.is_account == (match dv[j] {
                        TypeDefinitionV::Struct(s) => spec_is_account(s.metadata.attributes),
                        TypeDefinitionV::Enum(_) => false,
                    }),
                forall|j: int|
                    0 <= j < i ==> (#[trigger] out@[j])@.warnings == (match dv[j] {
                        TypeDefinitionV::Struct(_) => spec_struct_warnings(
                            out@[j]@.total_bytes.spec_min(),
                        ),
                        TypeDefinitionV::Enum(_) => spec_enum_warnings(
                            out@[j]@.total_bytes.spec_min(),
                        ),
                    }),
                forall|j: int|
                    0 <= j < i ==> (#[trigger] out@[j])@.field_breakdown == (match dv[j] {
                        TypeDefinitionV::Struct(s) => spec_struct_breakdown(
                            dv,
                            self.type_defs@.len() as nat,
                            s,
                        ),
                        TypeDefinitionV::Enum(e) => spec_enum_breakdown(
                            dv,
                            self.type_defs@.len() as nat,
                            e,
                        ),
                    }),
            decreases self.type_defs.len() - i,
        {
            let d = &self.type_defs[i];
            assert(d@ == dv[i as int]);
            match d {
                TypeDefinition::Struct(s) => {
                    out.push(self.calculate_struct_size(s));
                },
                TypeDefinition::Enum(e) => {
                    out.push(self.calculate_enum_size(e));
                },
            }
            i = i + 1;
        }
        out
    }
}

} // verus!
