//! Cross-component laws: statements that relate the stages of the pipeline
//! to one another, proved once and for all inputs.

use vstd::prelude::*;
use crate::ast::LumosFileV;
use crate::corpus_generator::{spec_max_fields, spec_max_prim, spec_max_value, spec_min_prim};
use crate::generators::rust::spec_rust_module;
use crate::generators::typescript::spec_ts_module;
use crate::ir::{FieldDefinitionV, TypeDefinitionV, TypeInfoV};
use crate::size_calculator::{
    sat_add, spec_fields_size, spec_find_def, spec_is_account, spec_primitive_size,
    spec_struct_total, spec_type_size, ti_height, SizeInfoV,
};
use crate::transform::spec_transform_file;

verus! {

/// Compilation is deterministic from the AST on: the IR and both rendered
/// modules are mathematical functions of the syntax tree, so equal trees
/// give byte-identical IR and output. Every exec stage carries a contract
/// that pins its result to these functions, so two runs of the pipeline can
/// only differ where their syntax trees differ.
pub proof fn lemma_compilation_deterministic(ast1: LumosFileV, ast2: LumosFileV)
    requires
        ast1 == ast2,
    ensures
        spec_transform_file(ast1) == spec_transform_file(ast2),
        spec_rust_module(spec_transform_file(ast1)) == spec_rust_module(spec_transform_file(ast2)),
        spec_ts_module(spec_transform_file(ast1)) == spec_ts_module(spec_transform_file(ast2)),
{
}

/// The length cap under which all byte totals are accumulated.
pub open spec fn cap_len(n: nat) -> nat {
    if n > usize::MAX {
        usize::MAX as nat
    } else {
        n
    }
}

/// Every primitive's minimal encoding is exactly as long as the minimum byte
/// count the layout table reports for it — for the fixed-width primitives,
/// for the variable-width text type (whose minimum is its bare length
/// prefix), and for an unrecognized name (no bytes, minimum zero).
pub proof fn lemma_primitive_layout_agreement(name: Seq<char>)
    ensures
        spec_min_prim(name).len() == spec_primitive_size(name).spec_min(),
{
    reveal_strlit("u8");
    reveal_strlit("u16");
    reveal_strlit("u32");
    reveal_strlit("u64");
    reveal_strlit("u128");
    reveal_strlit("i8");
    reveal_strlit("i16");
    reveal_strlit("i32");
    reveal_strlit("i64");
    reveal_strlit("i128");
    reveal_strlit("f32");
    reveal_strlit("f64");
    reveal_strlit("bool");
    reveal_strlit("String");
    reveal_strlit("Pubkey");
    reveal_strlit("PublicKey");
    reveal_strlit("Signature");
}


proof fn lemma_neq_at(a: Seq<char>, b: Seq<char>, i: int)
    requires
        0 <= i < a.len(),
        0 <= i < b.len(),
        a[i] != b[i],
    ensures
        a != b,
{
}

/// The fragment of the type vocabulary whose layout is exactly fixed: the
/// fixed-width primitives, optionals of fixed types, and non-account structs
/// of fixed fields within the expansion budget. Arrays and text are variable,
/// enum references encode one variant rather than the widest, and a nested
/// account struct's discriminator enters the table but not a nested
/// encoding, so those stay outside the fragment.
pub open spec fn fixed_layout(defs: Seq<TypeDefinitionV>, fuel: nat, t: TypeInfoV) -> bool
    decreases fuel, 0int, ti_height(t),
{
    match t {
        TypeInfoV::Primitive(name) => {
            ||| name == "u8"@
            ||| name == "u16"@
            ||| name == "u32"@
            ||| name == "u64"@
            ||| name == "u128"@
            ||| name == "i8"@
            ||| name == "i16"@
            ||| name == "i32"@
            ||| name == "i64"@
            ||| name == "i128"@
            ||| name == "f32"@
            ||| name == "f64"@
            ||| name == "bool"@
            ||| name == "Pubkey"@
            ||| name == "PublicKey"@
            ||| name == "Signature"@
        },
        TypeInfoV::UserDefined(name) => fuel > 0 && (match spec_find_def(defs, name) {
            Some(TypeDefinitionV::Struct(s)) => !spec_is_account(s.metadata.attributes)
                && fields_fixed_layout(defs, (fuel - 1) as nat, s.fields),
            _ => false,
        }),
        TypeInfoV::Array(_) => false,
        TypeInfoV::Option(inner) => fixed_layout(defs, fuel, *inner),
    }
}

/// Whether every field of a list lies in the fixed-layout fragment.
pub open spec fn fields_fixed_layout(
    defs: Seq<TypeDefinitionV>,
    fuel: nat,
    fields: Seq<FieldDefinitionV>,
) -> bool
    decreases fuel, 1int, fields.len(),
{
    if fields.len() == 0 {
        true
    } else {
        fixed_layout(defs, fuel, fields[0].type_info) && fields_fixed_layout(
            defs,
            fuel,
            fields.skip(1),
        )
    }
}

/// Layout agreement on the fixed fragment: for every type whose layout the
/// table declares exact, the byte size computed by walking the table equals
/// the length of a fully-present encoded instance, independent of any
/// generator. The table, not a generator, is authoritative for both.
pub proof fn lemma_layout_agreement(defs: Seq<TypeDefinitionV>, fuel: nat, t: TypeInfoV)
    requires
        fixed_layout(defs, fuel, t),
    ensures
        spec_type_size(defs, fuel, t) == SizeInfoV::Fixed(
            cap_len(spec_max_value(defs, fuel, t).len()),
        ),
    decreases fuel, 0int, ti_height(t),
{
    match t {
        TypeInfoV::Primitive(name) => {
            reveal_strlit("u8");
            reveal_strlit("u16");
            reveal_strlit("u32");
            reveal_strlit("u64");
            reveal_strlit("u128");
            reveal_strlit("i8");
            reveal_strlit("i16");
            reveal_strlit("i32");
            reveal_strlit("i64");
            reveal_strlit("i128");
            reveal_strlit("f32");
            reveal_strlit("f64");
            reveal_strlit("bool");
            reveal_strlit("String");
            reveal_strlit("Pubkey");
            reveal_strlit("PublicKey");
            reveal_strlit("Signature");
            lemma_neq_at("u16"@, "i16"@, 0);
            lemma_neq_at("u16"@, "u32"@, 1);
            lemma_neq_at("u16"@, "i32"@, 0);
            lemma_neq_at("u16"@, "u64"@, 1);
            lemma_neq_at("u16"@, "i64"@, 0);
            lemma_neq_at("u16"@, "f32"@, 0);
            lemma_neq_at("u16"@, "f64"@, 0);
            lemma_neq_at("i16"@, "u32"@, 0);
            lemma_neq_at("i16"@, "i32"@, 1);
            lemma_neq_at("i16"@, "u64"@, 0);
            lemma_neq_at("i16"@, "i64"@, 1);
            lemma_neq_at("i16"@, "f32"@, 0);
            lemma_neq_at("i16"@, "f64"@, 0);
            lemma_neq_at("u32"@, "i32"@, 0);
            lemma_neq_at("u32"@, "u64"@, 1);
            lemma_neq_at("u32"@, "i64"@, 0);
            lemma_neq_at("u32"@, "f32"@, 0);
            lemma_neq_at("u32"@, "f64"@, 0);
            lemma_neq_at("i32"@, "u64"@, 0);
            lemma_neq_at("i32"@, "i64"@, 1);
            lemma_neq_at("i32"@, "f32"@, 0);
            lemma_neq_at("i32"@, "f64"@, 0);
            lemma_neq_at("u64"@, "i64"@, 0);
            lemma_neq_at("u64"@, "f32"@, 0);
            lemma_neq_at("u64"@, "f64"@, 0);
            lemma_neq_at("i64"@, "f32"@, 0);
            lemma_neq_at("i64"@, "f64"@, 0);
            lemma_neq_at("f32"@, "f64"@, 1);
            lemma_neq_at("u8"@, "i8"@, 0);
            lemma_neq_at("bool"@, "u128"@, 0);
            lemma_neq_at("bool"@, "i128"@, 0);
            lemma_neq_at("u128"@, "i128"@, 0);
            lemma_neq_at("Pubkey"@, "String"@, 0);
            lemma_neq_at("PublicKey"@, "Signature"@, 0);
            assert(spec_max_prim(name).len() == spec_primitive_size(name).spec_min());
            assert(spec_primitive_size(name) is Fixed);
            assert(spec_max_prim(name).len() <= 64);
        },
        TypeInfoV::UserDefined(name) => {
            match spec_find_def(defs, name) {
                Some(TypeDefinitionV::Struct(s)) => {
                    lemma_fields_layout_agreement(defs, (fuel - 1) as nat, s.fields);
                    assert(spec_type_size(defs, fuel, t) == spec_struct_total(
                        defs,
                        (fuel - 1) as nat,
                        s,
                    ));
                },
                _ => {
                    assert(false);
                },
            }
        },
        TypeInfoV::Array(_) => {
            assert(false);
        },
        TypeInfoV::Option(inner) => {
            lemma_layout_agreement(defs, fuel, *inner);
            assert(spec_max_value(defs, fuel, t) =~= seq![1u8] + spec_max_value(
                defs,
                fuel,
                *inner,
            ));
        },
    }
}

proof fn lemma_fields_layout_agreement(
    defs: Seq<TypeDefinitionV>,
    fuel: nat,
    fields: Seq<FieldDefinitionV>,
)
    requires
        fields_fixed_layout(defs, fuel, fields),
    ensures
        spec_fields_size(defs, fuel, fields).0 == cap_len(spec_max_fields(defs, fuel, fields).len()),
        spec_fields_size(defs, fuel, fields).1 == true,
    decreases fuel, 1int, fields.len(),
{
    if fields.len() > 0 {
        lemma_layout_agreement(defs, fuel, fields[0].type_info);
        lemma_fields_layout_agreement(defs, fuel, fields.skip(1));
        let head_len = spec_max_value(defs, fuel, fields[0].type_info).len();
        let rest_len = spec_max_fields(defs, fuel, fields.skip(1)).len();
        assert(spec_max_fields(defs, fuel, fields).len() == head_len + rest_len);
        assert(sat_add(cap_len(head_len), cap_len(rest_len)) == cap_len(head_len + rest_len));
    }
}

} // verus!
