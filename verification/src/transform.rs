//! AST to IR transformation: per-node normalization followed by whole-graph
//! reference validation.
//!
//! Normalization collapses primitive-name aliases to their canonical spelling
//! and extracts metadata. Validation collects the set of all declared type
//! names first and then walks every field and variant, so forward and self
//! references are legal; it stops at the first unresolved reference.

use vstd::prelude::*;
use crate::ast::{
    Attribute, AttributeV, EnumDef, EnumDefV, EnumVariant, EnumVariantV, FieldDef, FieldDefV,
    Item, ItemV, LumosFile, LumosFileV, StructDef, StructDefV, TypeSpec, TypeSpecV,
    spec_has_attribute,
};
use crate::error::LumosError;
use crate::ir::{
    EnumDefinition, EnumDefinitionV, EnumVariantDefinition, EnumVariantDefinitionV,
    FieldDefinition, FieldDefinitionV, Metadata, MetadataV, StructDefinition, StructDefinitionV,
    TypeDefinition, TypeDefinitionV, TypeInfo, TypeInfoV, declared_names, def_resolved,
    ir_resolved, type_info_resolved, variant_resolved, view_defs,
};
use crate::strutil::{dec_string, spec_dec, str_eq};

verus! {

/// Whether a name belongs to the closed set of recognized primitive type
/// names, canonical spellings and aliases together.
pub open spec fn spec_is_primitive(name: Seq<char>) -> bool {
    ||| name == "u8"@
    ||| name == "u16"@
    ||| name == "u32"@
    ||| name == "u64"@
    ||| name == "u128"@
    ||| name == "i8"@
    ||| name == "i16"@
    ||| name == "i32"@
    ||| name == "i64"@
    ||| name == "i128"@
    ||| name == "f32"@
    ||| name == "f64"@
    ||| name == "bool"@
    ||| name == "String"@
    ||| name == "PublicKey"@
    ||| name == "Signature"@
    ||| name == "Keypair"@
    ||| name == "number"@
    ||| name == "string"@
    ||| name == "boolean"@
}

/// The canonical spelling of a primitive name: each of the three aliases maps
/// to one fixed canonical name, every other name is unchanged.
pub open spec fn spec_map_alias(name: Seq<char>) -> Seq<char> {
    if name == "number"@ {
        "u64"@
    } else if name == "string"@ {
        "String"@
    } else if name == "boolean"@ {
        "bool"@
    } else {
        name
    }
}

/// Normalization of one type reference, before any optional wrapping: a
/// recognized primitive name collapses to its canonical spelling, an unknown
/// bare name is provisionally a user-defined reference, and arrays normalize
/// structurally.
pub open spec fn spec_transform_base(t: TypeSpecV) -> TypeInfoV
    decreases t,
{
    match t {
        TypeSpecV::Primitive(name) => if spec_is_primitive(name) {
            TypeInfoV::Primitive(spec_map_alias(name))
        } else {
            TypeInfoV::UserDefined(name)
        },
        TypeSpecV::Array(inner) => TypeInfoV::Array(Box::new(spec_transform_base(*inner))),
        TypeSpecV::UserDefined(name) => TypeInfoV::UserDefined(name),
    }
}

/// Normalization of one type reference; wraps the result in an optional layer
/// when the field carried the optional marker.
pub open spec fn spec_transform_type(t: TypeSpecV, optional: bool) -> TypeInfoV {
    if optional {
        TypeInfoV::Option(Box::new(spec_transform_base(t)))
    } else {
        spec_transform_base(t)
    }
}

/// Normalization of one field.
pub open spec fn spec_transform_field(f: FieldDefV) -> FieldDefinitionV {
    FieldDefinitionV {
        name: f.name,
        type_info: spec_transform_type(f.type_spec, f.optional),
        optional: f.optional,
    }
}

/// Normalization of one enum variant.
pub open spec fn spec_transform_variant(v: EnumVariantV) -> EnumVariantDefinitionV {
    match v {
        EnumVariantV::Unit { name } => EnumVariantDefinitionV::Unit { name },
        EnumVariantV::Tuple { name, types } => EnumVariantDefinitionV::Tuple {
            name,
            types: types.map_values(|t: TypeSpecV| spec_transform_type(t, false)),
        },
        EnumVariantV::Struct { name, fields } => EnumVariantDefinitionV::Struct {
            name,
            fields: fields.map_values(|f: FieldDefV| spec_transform_field(f)),
        },
    }
}

/// The metadata extracted from an attribute list: the domain flag is set when
/// the `solana` attribute is present, and every attribute's bare name is kept.
pub open spec fn spec_metadata(attrs: Seq<AttributeV>) -> MetadataV {
    MetadataV {
        solana: spec_has_attribute(attrs, "solana"@),
        attributes: attrs.map_values(|a: AttributeV| a.name),
    }
}

/// Normalization of one struct declaration.
pub open spec fn spec_transform_struct(s: StructDefV) -> StructDefinitionV {
    StructDefinitionV {
        name: s.name,
        fields: s.fields.map_values(|f: FieldDefV| spec_transform_field(f)),
        metadata: spec_metadata(s.attributes),
    }
}

/// Normalization of one enum declaration.
pub open spec fn spec_transform_enum(e: EnumDefV) -> EnumDefinitionV {
    EnumDefinitionV {
        name: e.name,
        variants: e.variants.map_values(|v: EnumVariantV| spec_transform_variant(v)),
        metadata: spec_metadata(e.attributes),
    }
}

/// Normalization of one item.
pub open spec fn spec_transform_item(i: ItemV) -> TypeDefinitionV {
    match i {
        ItemV::Struct(s) => TypeDefinitionV::Struct(spec_transform_struct(s)),
        ItemV::Enum(e) => TypeDefinitionV::Enum(spec_transform_enum(e)),
    }
}

/// Normalization of a whole file, in declaration order.
pub open spec fn spec_transform_file(f: LumosFileV) -> Seq<TypeDefinitionV> {
    f.items.map_values(|i: ItemV| spec_transform_item(i))
}

/// The set a sequence of names spans.
pub open spec fn names_set(names: Seq<Seq<char>>) -> Set<Seq<char>> {
    Set::new(|n: Seq<char>| names.contains(n))
}

/// The declared names of an IR list, in order.
pub open spec fn names_seq(defs: Seq<TypeDefinitionV>) -> Seq<Seq<char>> {
    defs.map_values(|d: TypeDefinitionV| d.spec_name())
}

/// The unresolved user-defined name at the leaf of a type-info chain, if any:
/// array and optional layers are unwrapped, a primitive leaf is always valid.
pub open spec fn unresolved_leaf(t: TypeInfoV, names: Set<Seq<char>>) -> Option<Seq<char>>
    decreases t,
{
    match t {
        TypeInfoV::Primitive(_) => None,
        TypeInfoV::UserDefined(n) => if names.contains(n) {
            None
        } else {
            Some(n)
        },
        TypeInfoV::Array(inner) => unresolved_leaf(*inner, names),
        TypeInfoV::Option(inner) => unresolved_leaf(*inner, names),
    }
}

/// The validation failure, as the pair of the offending type name and the
/// dotted location path.
pub type ValidationFailure = Option<(Seq<char>, Seq<char>)>;

/// The dotted location of a field under its context; a context with an empty
/// field name stands alone.
pub open spec fn spec_dotted_loc(ctx: Seq<char>, name: Seq<char>) -> Seq<char> {
    if name.len() == 0 {
        ctx
    } else {
        ctx + "."@ + name
    }
}

/// First failure among a struct's (or struct variant's) fields, walked in
/// order; the location is `ctx.fieldName`.
pub open spec fn first_error_fields(
    ctx: Seq<char>,
    fields: Seq<FieldDefinitionV>,
    names: Set<Seq<char>>,
) -> ValidationFailure
    decreases fields.len(),
{
    if fields.len() == 0 {
        None
    } else {
        match unresolved_leaf(fields[0].type_info, names) {
            Some(ty) => Some((ty, spec_dotted_loc(ctx, fields[0].name))),
            None => first_error_fields(ctx, fields.skip(1), names),
        }
    }
}

/// First failure among a tuple variant's slots; the location is
/// `EnumName.VariantName[index]`.
pub open spec fn first_error_tuple(
    ename: Seq<char>,
    vname: Seq<char>,
    types: Seq<TypeInfoV>,
    names: Set<Seq<char>>,
    idx: nat,
) -> ValidationFailure
    decreases types.len(),
{
    if types.len() == 0 {
        None
    } else {
        match unresolved_leaf(types[0], names) {
            Some(ty) => Some(
                (ty, ename + "."@ + vname + "["@ + spec_dec(idx) + "]"@),
            ),
            None => first_error_tuple(ename, vname, types.skip(1), names, idx + 1),
        }
    }
}

/// First failure inside one enum variant.
pub open spec fn first_error_variant(
    ename: Seq<char>,
    v: EnumVariantDefinitionV,
    names: Set<Seq<char>>,
) -> ValidationFailure {
    match v {
        EnumVariantDefinitionV::Unit { .. } => None,
        EnumVariantDefinitionV::Tuple { name, types } => first_error_tuple(
            ename,
            name,
            types,
            names,
            0,
        ),
        EnumVariantDefinitionV::Struct { name, fields } => first_error_fields(
            ename + "."@ + name,
            fields,
            names,
        ),
    }
}

/// First failure among an enum's variants, walked in order.
pub open spec fn first_error_variants(
    ename: Seq<char>,
    variants: Seq<EnumVariantDefinitionV>,
    names: Set<Seq<char>>,
) -> ValidationFailure
    decreases variants.len(),
{
    if variants.len() == 0 {
        None
    } else {
        match first_error_variant(ename, variants[0], names) {
            Some(e) => Some(e),
            None => first_error_variants(ename, variants.skip(1), names),
        }
    }
}

/// First failure inside one definition.
pub open spec fn first_error_def(d: TypeDefinitionV, names: Set<Seq<char>>) -> ValidationFailure {
    match d {
        TypeDefinitionV::Struct(s) => first_error_fields(s.name, s.fields, names),
        TypeDefinitionV::Enum(e) => first_error_variants(e.name, e.variants, names),
    }
}

/// First failure among a list of definitions, walked in order.
pub open spec fn first_error_defs(
    defs: Seq<TypeDefinitionV>,
    names: Set<Seq<char>>,
) -> ValidationFailure
    decreases defs.len(),
{
    if defs.len() == 0 {
        None
    } else {
        match first_error_def(defs[0], names) {
            Some(e) => Some(e),
            None => first_error_defs(defs.skip(1), names),
        }
    }
}

/// The first validation failure of an IR list, against the set of all names
/// declared in that same list.
pub open spec fn first_validation_error(defs: Seq<TypeDefinitionV>) -> ValidationFailure {
    first_error_defs(defs, declared_names(defs))
}

/// The message reported for an unresolved reference.
pub open spec fn spec_undef_message(ty: Seq<char>, location: Seq<char>) -> Seq<char> {
    "Undefined type '"@ + ty + "' referenced in '"@ + location + "'"@
}

// A failed validation walk finds no error exactly when every reference
// resolves; these lemmas connect the first-error walk to the `ir_resolved`
// invariant.
proof fn lemma_unresolved_leaf_none(t: TypeInfoV, names: Set<Seq<char>>)
    ensures
        unresolved_leaf(t, names) is None <==> type_info_resolved(t, names),
    decreases t,
{
    match t {
        TypeInfoV::Array(inner) => lemma_unresolved_leaf_none(*inner, names),
        TypeInfoV::Option(inner) => lemma_unresolved_leaf_none(*inner, names),
        _ => {},
    }
}

proof fn lemma_fields_none(ctx: Seq<char>, fields: Seq<FieldDefinitionV>, names: Set<Seq<char>>)
    requires
        first_error_fields(ctx, fields, names) is None,
    ensures
        forall|i: int|
            0 <= i < fields.len() ==> type_info_resolved(#[trigger] fields[i].type_info, names),
    decreases fields.len(),
{
    if fields.len() > 0 {
        lemma_unresolved_leaf_none(fields[0].type_info, names);
        lemma_fields_none(ctx, fields.skip(1), names);
        assert forall|i: int| 0 <= i < fields.len() implies type_info_resolved(
            #[trigger] fields[i].type_info,
            names,
        ) by {
            if i > 0 {
                assert(fields.skip(1)[i - 1] == fields[i]);
            }
        }
    }
}

proof fn lemma_tuple_none(
    ename: Seq<char>,
    vname: Seq<char>,
    types: Seq<TypeInfoV>,
    names: Set<Seq<char>>,
    idx: nat,
)
    requires
        first_error_tuple(ename, vname, types, names, idx) is None,
    ensures
        forall|i: int| 0 <= i < types.len() ==> type_info_resolved(#[trigger] types[i], names),
    decreases types.len(),
{
    if types.len() > 0 {
        lemma_unresolved_leaf_none(types[0], names);
        lemma_tuple_none(ename, vname, types.skip(1), names, idx + 1);
        assert forall|i: int| 0 <= i < types.len() implies type_info_resolved(
            #[trigger] types[i],
            names,
        ) by {
            if i > 0 {
                assert(types.skip(1)[i - 1] == types[i]);
            }
        }
    }
}

proof fn lemma_variants_none(
    ename: Seq<char>,
    variants: Seq<EnumVariantDefinitionV>,
    names: Set<Seq<char>>,
)
    requires
        first_error_variants(ename, variants, names) is None,
    ensures
        forall|i: int| 0 <= i < variants.len() ==> variant_resolved(#[trigger] variants[i], names),
    decreases variants.len(),
{
    if variants.len() > 0 {
        match variants[0] {
            EnumVariantDefinitionV::Unit { .. } => {},
            EnumVariantDefinitionV::Tuple { name, types } => {
                lemma_tuple_none(ename, name, types, names, 0);
            },
            EnumVariantDefinitionV::Struct { name, fields } => {
                lemma_fields_none(ename + "."@ + name, fields, names);
            },
        }
        assert(variant_resolved(variants[0], names));
        lemma_variants_none(ename, variants.skip(1), names);
        assert forall|i: int| 0 <= i < variants.len() implies variant_resolved(
            #[trigger] variants[i],
            names,
        ) by {
            if i > 0 {
                assert(variants.skip(1)[i - 1] == variants[i]);
            }
        }
    }
}

proof fn lemma_defs_none(defs: Seq<TypeDefinitionV>, names: Set<Seq<char>>)
    requires
        first_error_defs(defs, names) is None,
    ensures
        forall|i: int| 0 <= i < defs.len() ==> def_resolved(#[trigger] defs[i], names),
    decreases defs.len(),
{
    if defs.len() > 0 {
        match defs[0] {
            TypeDefinitionV::Struct(s) => {
                lemma_fields_none(s.name, s.fields, names);
            },
            TypeDefinitionV::Enum(e) => {
                lemma_variants_none(e.name, e.variants, names);
            },
        }
        assert(def_resolved(defs[0], names));
        lemma_defs_none(defs.skip(1), names);
        assert forall|i: int| 0 <= i < defs.len() implies def_resolved(
            #[trigger] defs[i],
            names,
        ) by {
            if i > 0 {
                assert(defs.skip(1)[i - 1] == defs[i]);
            }
        }
    }
}

/// Validation soundness: an IR list whose validation walk finds no failure
/// satisfies the central IR invariant — every reachable user-defined
/// reference names a declared type.
pub proof fn lemma_validation_soundness(defs: Seq<TypeDefinitionV>)
    requires
        first_validation_error(defs) is None,
    ensures
        ir_resolved(defs),
{
    lemma_defs_none(defs, declared_names(defs));
}

proof fn lemma_map_push<T, V>(prev: Seq<T>, x: T, f: spec_fn(T) -> V)
    ensures
        prev.push(x).map_values(f) == prev.map_values(f).push(f(x)),
{
    assert(prev.push(x).map_values(f) =~= prev.map_values(f).push(f(x)));
}

proof fn lemma_remove_front<T, V>(
    prev: Seq<T>,
    cur: Seq<T>,
    f: spec_fn(T) -> V,
    whole: Seq<V>,
    k: int,
)
    requires
        0 <= k,
        prev.len() > 0,
        cur == prev.remove(0),
        prev.map_values(f) == whole.skip(k),
        k + prev.len() == whole.len(),
    ensures
        f(prev[0]) == whole[k],
        cur.map_values(f) == whole.skip(k + 1),
{
    assert(prev.map_values(f)[0] == f(prev[0]));
    assert(whole.skip(k)[0] == whole[k]);
    assert forall|j: int| 0 <= j < cur.len() implies cur.map_values(f)[j] == whole.skip(k + 1)[j] by {
        assert(cur[j] == prev[j + 1]);
        assert(prev.map_values(f)[j + 1] == whole.skip(k)[j + 1]);
        assert(whole.skip(k)[j + 1] == whole[k + j + 1]);
        assert(whole.skip(k + 1)[j] == whole[k + 1 + j]);
    }
    assert(cur.map_values(f) =~= whole.skip(k + 1));
}

/// Whether a type name is a recognized primitive (canonical or alias).
pub fn is_valid_primitive_type(name: &str) -> (r: bool)
    ensures
        r == spec_is_primitive(name@),
{
    str_eq(name, "u8") || str_eq(name, "u16") || str_eq(name, "u32") || str_eq(name, "u64")
        || str_eq(name, "u128") || str_eq(name, "i8") || str_eq(name, "i16") || str_eq(
        name,
        "i32",
    ) || str_eq(name, "i64") || str_eq(name, "i128") || str_eq(name, "f32") || str_eq(name, "f64")
        || str_eq(name, "bool") || str_eq(name, "String") || str_eq(name, "PublicKey") || str_eq(
        name,
        "Signature",
    ) || str_eq(name, "Keypair") || str_eq(name, "number") || str_eq(name, "string") || str_eq(
        name,
        "boolean",
    )
}

/// The canonical spelling of a primitive name.
pub fn map_type_alias(name: &str) -> (r: String)
    ensures
        r@ == spec_map_alias(name@),
{
    if str_eq(name, "number") {
        String::from_str("u64")
    } else if str_eq(name, "string") {
        String::from_str("String")
    } else if str_eq(name, "boolean") {
        String::from_str("bool")
    } else {
        name.to_owned()
    }
}

/// Alias canonicalization is idempotent: normalizing an already-canonical
/// name is a no-op, and each of the three aliases maps to exactly one fixed
/// canonical name.
pub proof fn lemma_alias_canonicalization_idempotent(name: Seq<char>)
    ensures
        spec_map_alias(spec_map_alias(name)) == spec_map_alias(name),
        spec_map_alias("number"@) == "u64"@,
        spec_map_alias("string"@) == "String"@,
        spec_map_alias("boolean"@) == "bool"@,
{
    reveal_strlit("number");
    reveal_strlit("string");
    reveal_strlit("boolean");
    reveal_strlit("u64");
    reveal_strlit("String");
    reveal_strlit("bool");
    assert("u64"@.len() == 3);
    assert("String"@.len() == 6);
    assert("bool"@.len() == 4);
    assert("number"@.len() == 6);
    assert("string"@.len() == 6);
    assert("boolean"@.len() == 7);
    assert("String"@[0] != "number"@[0]);
    assert("String"@[0] != "string"@[0]);
}

/// Normalizes one type reference, wrapping it in an optional layer when the
/// field carried the optional marker.
pub fn transform_type(type_spec: TypeSpec, optional: bool) -> (r: TypeInfo)
    ensures
        r@ == spec_transform_type(type_spec@, optional),
    decreases type_spec,
{
    let ghost tv = type_spec@;
    let base = match type_spec {
        TypeSpec::Primitive(name) => {
            if is_valid_primitive_type(name.as_str()) {
                TypeInfo::Primitive(map_type_alias(name.as_str()))
            } else {
                TypeInfo::UserDefined(name)
            }
        },
        TypeSpec::Array(inner) => TypeInfo::Array(Box::new(transform_type(*inner, false))),
        TypeSpec::UserDefined(name) => TypeInfo::UserDefined(name),
    };
    assert(base@ == spec_transform_base(tv));
    if optional {
        let r = TypeInfo::Option(Box::new(base));
        assert(r@ == TypeInfoV::Option(Box::new(spec_transform_base(tv))));
        r
    } else {
        base
    }
}

/// Normalizes one field.
pub fn transform_field(field: FieldDef) -> (r: FieldDefinition)
    ensures
        r@ == spec_transform_field(field@),
{
    let optional = field.optional;
    FieldDefinition {
        name: field.name,
        type_info: transform_type(field.type_spec, optional),
        optional,
    }
}

/// Normalizes one enum variant.
pub fn transform_enum_variant(variant: EnumVariant) -> (r: EnumVariantDefinition)
    ensures
        r@ == spec_transform_variant(variant@),
{
    match variant {
        EnumVariant::Unit { name } => EnumVariantDefinition::Unit { name },
        EnumVariant::Tuple { name, types } => {
            let ghost tv = types@.map_values(|t: TypeSpec| t@);
            let mut transformed: Vec<TypeInfo> = Vec::new();
            let mut rest = types;
            while rest.len() > 0
                invariant
                    transformed@.len() + rest@.len() == tv.len(),
                    rest@.map_values(|t: TypeSpec| t@) =~= tv.skip(transformed@.len() as int),
                    transformed@.map_values(|t: TypeInfo| t@) =~= tv.take(
                        transformed@.len() as int,
                    ).map_values(|t: TypeSpecV| spec_transform_type(t, false)),
                decreases rest.len(),
            {
                let ghost k = transformed@.len() as int;
                let ghost prev = rest@;
                let ghost prev_out = transformed@;
                let t = rest.remove(0);
                proof {
                    lemma_remove_front(prev, rest@, |x: TypeSpec| x@, tv, k);
                }
                assert(t@ == tv[k]);
                transformed.push(transform_type(t, false));
                proof {
                    lemma_map_push(prev_out, transformed@.last(), |x: TypeInfo| x@);
                    assert(tv.take(k + 1) =~= tv.take(k).push(tv[k]));
                    lemma_map_push(tv.take(k), tv[k], |x: TypeSpecV| spec_transform_type(x, false));
                }
            }
            assert(tv.take(tv.len() as int) =~= tv);
            EnumVariantDefinition::Tuple { name, types: transformed }
        },
        EnumVariant::Struct { name, fields } => {
            let transformed = transform_fields(fields);
            EnumVariantDefinition::Struct { name, fields: transformed }
        },
    }
}

fn transform_fields(fields: Vec<FieldDef>) -> (r: Vec<FieldDefinition>)
    ensures
        r@.map_values(|f: FieldDefinition| f@) == fields@.map_values(|f: FieldDef| f@).map_values(
            |f: FieldDefV| spec_transform_field(f),
        ),
{
    let ghost fv = fields@.map_values(|f: FieldDef| f@);
    let mut out: Vec<FieldDefinition> = Vec::new();
    let mut rest = fields;
    while rest.len() > 0
        invariant
            out@.len() + rest@.len() == fv.len(),
            rest@.map_values(|f: FieldDef| f@) =~= fv.skip(out@.len() as int),
            out@.map_values(|f: FieldDefinition| f@) =~= fv.take(out@.len() as int).map_values(
                |f: FieldDefV| spec_transform_field(f),
            ),
        decreases rest.len(),
    {
        let ghost k = out@.len() as int;
        let ghost prev = rest@;
        let ghost prev_out = out@;
        let f = rest.remove(0);
        proof {
            lemma_remove_front(prev, rest@, |x: FieldDef| x@, fv, k);
        }
        assert(f@ == fv[k]);
        out.push(transform_field(f));
        proof {
            lemma_map_push(prev_out, out@.last(), |x: FieldDefinition| x@);
            assert(fv.take(k + 1) =~= fv.take(k).push(fv[k]));
            lemma_map_push(fv.take(k), fv[k], |x: FieldDefV| spec_transform_field(x));
        }
    }
    assert(fv.take(fv.len() as int) =~= fv);
    out
}

fn attribute_names(attrs: &Vec<Attribute>) -> (r: Vec<String>)
    ensures
        r@.map_values(|s: String| s@) == attrs@.map_values(|a: Attribute| a@).map_values(
            |a: AttributeV| a.name,
        ),
{
    let ghost av = attrs@.map_values(|a: Attribute| a@);
    let mut out: Vec<String> = Vec::new();
    let mut i: usize = 0;
    while i < attrs.len()
        invariant
            i <= attrs.len(),
            av == attrs@.map_values(|a: Attribute| a@),
            av.len() == attrs@.len(),
            out@.map_values(|s: String| s@) =~= av.take(i as int).map_values(
                |a: AttributeV| a.name,
            ),
        decreases attrs.len() - i,
    {
        let ghost prev_out = out@;
        out.push(attrs[i].name.clone());
        proof {
            lemma_map_push(prev_out, out@.last(), |x: String| x@);
            assert(av.take(i + 1) =~= av.take(i as int).push(av[i as int]));
            lemma_map_push(av.take(i as int), av[i as int], |x: AttributeV| x.name);
            assert(out@.last()@ == av[i as int].name);
        }
        i = i + 1;
    }
    assert(av.take(attrs@.len() as int) =~= av);
    out
}

/// Extracts metadata from a struct's attributes.
pub fn extract_struct_metadata(struct_def: &StructDef) -> (r: Metadata)
    ensures
        r@ == spec_metadata(struct_def@.attributes),
{
    Metadata {
        solana: struct_def.has_attribute("solana"),
        attributes: attribute_names(&struct_def.attributes),
    }
}

/// Extracts metadata from an enum's attributes.
pub fn extract_enum_metadata(enum_def: &EnumDef) -> (r: Metadata)
    ensures
        r@ == spec_metadata(enum_def@.attributes),
{
    Metadata {
        solana: enum_def.has_attribute("solana"),
        attributes: attribute_names(&enum_def.attributes),
    }
}

/// Normalizes one struct declaration.
pub fn transform_struct(struct_def: StructDef) -> (r: StructDefinition)
    ensures
        r@ == spec_transform_struct(struct_def@),
{
    let metadata = extract_struct_metadata(&struct_def);
    StructDefinition {
        name: struct_def.name,
        fields: transform_fields(struct_def.fields),
        metadata,
    }
}

/// Normalizes one enum declaration.
pub fn transform_enum(enum_def: EnumDef) -> (r: EnumDefinition)
    ensures
        r@ == spec_transform_enum(enum_def@),
{
    let metadata = extract_enum_metadata(&enum_def);
    let ghost vv = enum_def.variants@.map_values(|v: EnumVariant| v@);
    let mut variants: Vec<EnumVariantDefinition> = Vec::new();
    let mut rest = enum_def.variants;
    while rest.len() > 0
        invariant
            variants@.len() + rest@.len() == vv.len(),
            rest@.map_values(|v: EnumVariant| v@) =~= vv.skip(variants@.len() as int),
            variants@.map_values(|v: EnumVariantDefinition| v@) =~= vv.take(
                variants@.len() as int,
            ).map_values(|v: EnumVariantV| spec_transform_variant(v)),
        decreases rest.len(),
    {
        let ghost k = variants@.len() as int;
        let ghost prev = rest@;
        let ghost prev_out = variants@;
        let v = rest.remove(0);
        proof {
            lemma_remove_front(prev, rest@, |x: EnumVariant| x@, vv, k);
        }
        assert(v@ == vv[k]);
        variants.push(transform_enum_variant(v));
        proof {
            lemma_map_push(prev_out, variants@.last(), |x: EnumVariantDefinition| x@);
            assert(vv.take(k + 1) =~= vv.take(k).push(vv[k]));
            lemma_map_push(vv.take(k), vv[k], |x: EnumVariantV| spec_transform_variant(x));
        }
    }
    assert(vv.take(vv.len() as int) =~= vv);
    EnumDefinition { name: enum_def.name, variants, metadata }
}

fn collect_names(defs: &Vec<TypeDefinition>) -> (r: Vec<String>)
    ensures
        r@.map_values(|s: String| s@) == names_seq(view_defs(defs@)),
{
    let ghost dv = view_defs(defs@);
    let mut out: Vec<String> = Vec::new();
    let mut i: usize = 0;
    while i < defs.len()
        invariant
            i <= defs.len(),
            dv == view_defs(defs@),
            dv.len() == defs@.len(),
            out@.map_values(|s: String| s@) =~= names_seq(dv.take(i as int)),
        decreases defs.len() - i,
    {
        let name = match &defs[i] {
            TypeDefinition::Struct(s) => s.name.clone(),
            TypeDefinition::Enum(e) => e.name.clone(),
        };
        assert(name@ == dv[i as int].spec_name());
        out.push(name);
        assert(names_seq(dv.take(i + 1)) =~= names_seq(dv.take(i as int)).push(
            dv[i as int].spec_name(),
        ));
        i = i + 1;
    }
    assert(dv.take(defs@.len() as int) =~= dv);
    out
}

fn contains_name(names: &Vec<String>, n: &str) -> (r: bool)
    ensures
        r == names_set(names@.map_values(|s: String| s@)).contains(n@),
{
    let ghost nv = names@.map_values(|s: String| s@);
    let mut i: usize = 0;
    while i < names.len()
        invariant
            i <= names.len(),
            nv == names@.map_values(|s: String| s@),
            nv.len() == names@.len(),
            forall|j: int| 0 <= j < i ==> nv[j] != n@,
        decreases names.len() - i,
    {
        if str_eq(names[i].as_str(), n) {
            assert(nv[i as int] == n@);
            assert(nv.contains(n@));
            return true;
        }
        i = i + 1;
    }
    assert(!nv.contains(n@));
    false
}

fn undef_error(ty: &str, location: &str) -> (r: LumosError)
    ensures
        r matches LumosError::TypeValidation(msg, loc) && msg@ == spec_undef_message(
            ty@,
            location@,
        ) && loc is None,
{
    let mut msg = String::from_str("Undefined type '");
    msg.append(ty);
    msg.append("' referenced in '");
    msg.append(location);
    msg.append("'");
    assert(msg@ =~= spec_undef_message(ty@, location@));
    LumosError::TypeValidation(msg, None)
}

fn dotted(a: &str, b: &str) -> (r: String)
    ensures
        r@ == a@ + "."@ + b@,
{
    let mut s = a.to_owned();
    s.append(".");
    s.append(b);
    assert(s@ =~= a@ + "."@ + b@);
    s
}

/// Recursively validates one type-info against the declared names; on an
/// unresolved leaf, reports it under the dotted location built from the
/// parent context and the field name (the context alone when the field name
/// is empty).
pub fn validate_type_info(
    type_info: &TypeInfo,
    defined_types: &Vec<String>,
    parent_context: &str,
    field_name: &str,
) -> (r: Result<(), LumosError>)
    ensures
        match unresolved_leaf(type_info@, names_set(defined_types@.map_values(|s: String| s@))) {
            None => r is Ok,
            Some(ty) => r matches Err(e) && e matches LumosError::TypeValidation(msg, loc)
                && loc is None && msg@ == spec_undef_message(
                ty,
                spec_dotted_loc(parent_context@, field_name@),
            ),
        },
    decreases *type_info,
{
    match type_info {
        TypeInfo::Primitive(_) => Ok(()),
        TypeInfo::UserDefined(tname) => {
            if contains_name(defined_types, tname.as_str()) {
                Ok(())
            } else {
                if field_name.unicode_len() == 0 {
                    Err(undef_error(tname.as_str(), parent_context))
                } else {
                    let location = dotted(parent_context, field_name);
                    Err(undef_error(tname.as_str(), location.as_str()))
                }
            }
        },
        TypeInfo::Array(inner) => validate_type_info(inner, defined_types, parent_context, field_name),
        TypeInfo::Option(inner) => validate_type_info(
            inner,
            defined_types,
            parent_context,
            field_name,
        ),
    }
}

fn validate_fields(
    ctx: &str,
    fields: &Vec<FieldDefinition>,
    names: &Vec<String>,
    i: usize,
) -> (r: Result<(), LumosError>)
    requires
        i <= fields@.len(),
    ensures
        match first_error_fields(
            ctx@,
            fields@.map_values(|f: FieldDefinition| f@).skip(i as int),
            names_set(names@.map_values(|s: String| s@)),
        ) {
            None => r is Ok,
            Some((ty, location)) => r matches Err(e) && e matches LumosError::TypeValidation(
                msg,
                loc,
            ) && loc is None && msg@ == spec_undef_message(ty, location),
        },
    decreases fields@.len() - i,
{
    let ghost fv = fields@.map_values(|f: FieldDefinition| f@);
    if i == fields.len() {
        return Ok(());
    }
    let field = &fields[i];
    match validate_type_info(&field.type_info, names, ctx, field.name.as_str()) {
        Err(e) => {
            assert(fv.skip(i as int)[0] == fv[i as int]);
            Err(e)
        },
        Ok(()) => {
            let r = validate_fields(ctx, fields, names, i + 1);
            assert(fv.skip(i as int)[0] == fv[i as int]);
            assert(fv.skip(i as int).skip(1) =~= fv.skip(i + 1));
            r
        },
    }
}

fn validate_tuple(
    ename: &str,
    vname: &str,
    types: &Vec<TypeInfo>,
    names: &Vec<String>,
    i: usize,
) -> (r: Result<(), LumosError>)
    requires
        i <= types@.len(),
    ensures
        match first_error_tuple(
            ename@,
            vname@,
            types@.map_values(|t: TypeInfo| t@).skip(i as int),
            names_set(names@.map_values(|s: String| s@)),
            i as nat,
        ) {
            None => r is Ok,
            Some((ty, location)) => r matches Err(e) && e matches LumosError::TypeValidation(
                msg,
                loc,
            ) && loc is None && msg@ == spec_undef_message(ty, location),
        },
    decreases types@.len() - i,
{
    let ghost tv = types@.map_values(|t: TypeInfo| t@);
    if i == types.len() {
        return Ok(());
    }
    // location: EnumName.VariantName[index]
    let mut context = dotted(ename, vname);
    context.append("[");
    let idx = dec_string(i as u64);
    context.append(idx.as_str());
    context.append("]");
    assert(context@ =~= ename@ + "."@ + vname@ + "["@ + spec_dec(i as nat) + "]"@);
    match validate_type_info(&types[i], names, context.as_str(), "") {
        Err(e) => {
            assert(tv.skip(i as int)[0] == tv[i as int]);
            proof {
                reveal_strlit("");
                assert(""@.len() == 0);
            }
            Err(e)
        },
        Ok(()) => {
            let r = validate_tuple(ename, vname, types, names, i + 1);
            assert(tv.skip(i as int)[0] == tv[i as int]);
            assert(tv.skip(i as int).skip(1) =~= tv.skip(i + 1));
            r
        },
    }
}

fn validate_variants(
    ename: &str,
    variants: &Vec<EnumVariantDefinition>,
    names: &Vec<String>,
    i: usize,
) -> (r: Result<(), LumosError>)
    requires
        i <= variants@.len(),
    ensures
        match first_error_variants(
            ename@,
            variants@.map_values(|v: EnumVariantDefinition| v@).skip(i as int),
            names_set(names@.map_values(|s: String| s@)),
        ) {
            None => r is Ok,
            Some((ty, location)) => r matches Err(e) && e matches LumosError::TypeValidation(
                msg,
                loc,
            ) && loc is None && msg@ == spec_undef_message(ty, location),
        },
    decreases variants@.len() - i,
{
    let ghost vv = variants@.map_values(|v: EnumVariantDefinition| v@);
    if i == variants.len() {
        return Ok(());
    }
    let ghost nset = names_set(names@.map_values(|s: String| s@));
    let v = &variants[i];
    assert(v@ == vv[i as int]);
    let step = match v {
        EnumVariantDefinition::Unit { .. } => {
            assert(first_error_variant(ename@, vv[i as int], nset) is None);
            Ok(())
        },
        EnumVariantDefinition::Tuple { name, types } => {
            assert(vv[i as int] == EnumVariantDefinitionV::Tuple {
                name: name@,
                types: types@.map_values(|t: TypeInfo| t@),
            });
            let r = validate_tuple(ename, name.as_str(), types, names, 0);
            assert(types@.map_values(|t: TypeInfo| t@).skip(0) =~= types@.map_values(
                |t: TypeInfo| t@,
            ));
            r
        },
        EnumVariantDefinition::Struct { name, fields } => {
            assert(vv[i as int] == EnumVariantDefinitionV::Struct {
                name: name@,
                fields: fields@.map_values(|f: FieldDefinition| f@),
            });
            let ctx = dotted(ename, name.as_str());
            let r = validate_fields(ctx.as_str(), fields, names, 0);
            assert(fields@.map_values(|f: FieldDefinition| f@).skip(0) =~= fields@.map_values(
                |f: FieldDefinition| f@,
            ));
            r
        },
    };
    assert(vv.skip(i as int)[0] == vv[i as int]);
    assert(match first_error_variant(ename@, vv[i as int], nset) {
        None => step is Ok,
        Some((ty, location)) => step matches Err(e) && e matches LumosError::TypeValidation(
            msg,
            loc,
        ) && loc is None && msg@ == spec_undef_message(ty, location),
    });
    match step {
        Err(e) => Err(e),
        Ok(()) => {
            let r = validate_variants(ename, variants, names, i + 1);
            assert(vv.skip(i as int).skip(1) =~= vv.skip(i + 1));
            r
        },
    }
}

fn validate_defs(
    defs: &Vec<TypeDefinition>,
    names: &Vec<String>,
    i: usize,
) -> (r: Result<(), LumosError>)
    requires
        i <= defs@.len(),
    ensures
        match first_error_defs(
            view_defs(defs@).skip(i as int),
            names_set(names@.map_values(|s: String| s@)),
        ) {
            None => r is Ok,
            Some((ty, location)) => r matches Err(e) && e matches LumosError::TypeValidation(
                msg,
                loc,
            ) && loc is None && msg@ == spec_undef_message(ty, location),
        },
    decreases defs@.len() - i,
{
    let ghost dv = view_defs(defs@);
    if i == defs.len() {
        return Ok(());
    }
    let ghost nset = names_set(names@.map_values(|s: String| s@));
    let d = &defs[i];
    assert(d@ == dv[i as int]);
    let step = match d {
        TypeDefinition::Struct(s) => {
            assert(dv[i as int] == TypeDefinitionV::Struct(s@));
            let r = validate_fields(s.name.as_str(), &s.fields, names, 0);
            assert(s.fields@.map_values(|f: FieldDefinition| f@).skip(0) =~= s.fields@.map_values(
                |f: FieldDefinition| f@,
            ));
            r
        },
        TypeDefinition::Enum(e) => {
            assert(dv[i as int] == TypeDefinitionV::Enum(e@));
            let r = validate_variants(e.name.as_str(), &e.variants, names, 0);
            assert(e.variants@.map_values(|v: EnumVariantDefinition| v@).skip(0)
                =~= e.variants@.map_values(|v: EnumVariantDefinition| v@));
            r
        },
    };
    assert(dv.skip(i as int)[0] == dv[i as int]);
    assert(match first_error_def(dv[i as int], nset) {
        None => step is Ok,
        Some((ty, location)) => step matches Err(e) && e matches LumosError::TypeValidation(
            msg,
            loc,
        ) && loc is None && msg@ == spec_undef_message(ty, location),
    });
    match step {
        Err(e) => Err(e),
        Ok(()) => {
            let r = validate_defs(defs, names, i + 1);
            assert(dv.skip(i as int).skip(1) =~= dv.skip(i + 1));
            r
        },
    }
}

proof fn lemma_names_set_is_declared(defs: Seq<TypeDefinitionV>)
    ensures
        names_set(names_seq(defs)) == declared_names(defs),
{
    assert forall|n: Seq<char>| names_set(names_seq(defs)).contains(n)
        <==> declared_names(defs).contains(n) by {
        if names_seq(defs).contains(n) {
            let i = choose|i: int| 0 <= i < names_seq(defs).len() && names_seq(defs)[i] == n;
            assert(defs[i].spec_name() == n);
        }
        if declared_names(defs).contains(n) {
            let i = choose|i: int| 0 <= i < defs.len() && defs[i].spec_name() == n;
            assert(names_seq(defs)[i] == n);
        }
    }
    assert(names_set(names_seq(defs)) =~= declared_names(defs));
}

/// Validates that every user-defined type reference in the list resolves to a
/// type defined in that same list; reports the first failure with the
/// offending type name and its dotted location.
pub fn validate_user_defined_types(type_defs: &Vec<TypeDefinition>) -> (r: Result<
    (),
    LumosError,
>)
    ensures
        match first_validation_error(view_defs(type_defs@)) {
            None => r is Ok,
            Some((ty, location)) => r matches Err(e) && e matches LumosError::TypeValidation(
                msg,
                loc,
            ) && loc is None && msg@ == spec_undef_message(ty, location),
        },
        r is Ok ==> ir_resolved(view_defs(type_defs@)),
{
    let names = collect_names(type_defs);
    proof {
        lemma_names_set_is_declared(view_defs(type_defs@));
    }
    let r = validate_defs(type_defs, &names, 0);
    assert(view_defs(type_defs@).skip(0) =~= view_defs(type_defs@));
    proof {
        if r is Ok {
            lemma_validation_soundness(view_defs(type_defs@));
        }
    }
    r
}

/// Transforms a parsed file into the ordered IR list, or fails on the first
/// unresolved user-defined type reference.
///
/// On success the result is exactly the normalization of the input, in
/// declaration order, and satisfies the central IR invariant (`ir_resolved`):
/// no IR holding an unresolved reference can come out of this entry point.
pub fn transform_to_ir(file: LumosFile) -> (r: Result<Vec<TypeDefinition>, LumosError>)
    ensures
        match first_validation_error(spec_transform_file(file@)) {
            None => r matches Ok(defs) && view_defs(defs@) == spec_transform_file(file@),
            Some((ty, location)) => r matches Err(e) && e matches LumosError::TypeValidation(
                msg,
                loc,
            ) && loc is None && msg@ == spec_undef_message(ty, location),
        },
        r matches Ok(defs) ==> ir_resolved(view_defs(defs@)),
{
    let ghost iv = file.items@.map_values(|i: Item| i@);
    let mut type_defs: Vec<TypeDefinition> = Vec::new();
    let mut rest = file.items;
    while rest.len() > 0
        invariant
            type_defs@.len() + rest@.len() == iv.len(),
            rest@.map_values(|it: Item| it@) =~= iv.skip(type_defs@.len() as int),
            view_defs(type_defs@) =~= iv.take(type_defs@.len() as int).map_values(
                |it: ItemV| spec_transform_item(it),
            ),
        decreases rest.len(),
    {
        let ghost k = type_defs@.len() as int;
        let ghost prev = rest@;
        let ghost prev_out = type_defs@;
        let item = rest.remove(0);
        proof {
            lemma_remove_front(prev, rest@, |x: Item| x@, iv, k);
        }
        assert(item@ == iv[k]);
        match item {
            Item::Struct(struct_def) => {
                type_defs.push(TypeDefinition::Struct(transform_struct(struct_def)));
            },
            Item::Enum(enum_def) => {
                type_defs.push(TypeDefinition::Enum(transform_enum(enum_def)));
            },
        }
        proof {
            lemma_map_push(prev_out, type_defs@.last(), |x: TypeDefinition| x@);
            assert(iv.take(k + 1) =~= iv.take(k).push(iv[k]));
            lemma_map_push(iv.take(k), iv[k], |x: ItemV| spec_transform_item(x));
        }
    }
    assert(iv.take(iv.len() as int) =~= iv);
    assert(view_defs(type_defs@) =~= spec_transform_file(file@));
    match validate_user_defined_types(&type_defs) {
        Ok(()) => Ok(type_defs),
        Err(e) => Err(e),
    }
}

} // verus!
