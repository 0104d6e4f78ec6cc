//! The structurally-typed web backend: renders the IR as a module of
//! interface and union-type declarations plus one serialization-schema
//! constant per definition, following the shared layout table.
//!
//! The output is a pure function of the IR: given the same definitions the
//! rendered text is identical byte for byte. The key-type import is emitted
//! only when a key actually appears in the IR, and the schema-library import
//! only when there is something to describe.

use vstd::prelude::*;
use crate::generators::rust::defs_use_pubkey;
use crate::ir::{
    EnumDefinitionV, EnumVariantDefinition, EnumVariantDefinitionV, FieldDefinition,
    FieldDefinitionV, StructDefinitionV, TypeDefinition, TypeDefinitionV, TypeInfo, TypeInfoV,
    view_defs,
};
use crate::strutil::str_eq;

verus! {

/// The interface rendering of one type under this backend: integers up to 8
/// bytes and floats are numbers, 16-byte integers are big integers, text is a
/// string, the key type keeps its class, a signature is a byte array, arrays
/// take the element-list suffix and an optional widens with `undefined`.
pub open spec fn ts_type(t: TypeInfoV) -> Seq<char>
    decreases t,
{
    match t {
        TypeInfoV::Primitive(name) => if name == "u8"@ || name == "u16"@ || name == "u32"@ || name
            == "u64"@ || name == "i8"@ || name == "i16"@ || name == "i32"@ || name == "i64"@ || name
            == "f32"@ || name == "f64"@ {
            "number"@
        } else if name == "u128"@ || name == "i128"@ {
            "bigint"@
        } else if name == "bool"@ {
            "boolean"@
        } else if name == "String"@ {
            "string"@
        } else if name == "PublicKey"@ || name == "Pubkey"@ {
            "PublicKey"@
        } else if name == "Signature"@ {
            "Uint8Array"@
        } else {
            name
        },
        TypeInfoV::UserDefined(name) => name,
        TypeInfoV::Array(inner) => (match *inner {
            TypeInfoV::Option(_) => "("@ + ts_type(*inner) + ")[]"@,
            _ => ts_type(*inner) + "[]"@,
        }),
        TypeInfoV::Option(inner) => ts_type(*inner) + " | undefined"@,
    }
}

/// The schema expression of one type: the schema-library combinator for a
/// primitive, the named schema constant for a user-defined reference, and
/// the vector and option combinators for containers.
pub open spec fn borsh_expr(t: TypeInfoV) -> Seq<char>
    decreases t,
{
    match t {
        TypeInfoV::Primitive(name) => if name == "String"@ {
            "borsh.string"@
        } else if name == "bool"@ {
            "borsh.bool"@
        } else if name == "PublicKey"@ || name == "Pubkey"@ {
            "borsh.publicKey"@
        } else if name == "Signature"@ {
            "borsh.array(borsh.u8, 64)"@
        } else {
            "borsh."@ + name
        },
        TypeInfoV::UserDefined(name) => name + "Schema"@,
        TypeInfoV::Array(inner) => "borsh.vec("@ + borsh_expr(*inner) + ")"@,
        TypeInfoV::Option(inner) => "borsh.option("@ + borsh_expr(*inner) + ")"@,
    }
}

/// The schema entry of one named field.
pub open spec fn borsh_entry(t: TypeInfoV, name: Seq<char>) -> Seq<char> {
    match t {
        TypeInfoV::UserDefined(n) => n + "Schema.replicate('"@ + name + "')"@,
        _ => borsh_expr(t) + "('"@ + name + "')"@,
    }
}

/// The import block of a rendered module.
pub open spec fn ts_imports(defs: Seq<TypeDefinitionV>) -> Seq<char> {
    (if defs_use_pubkey(defs, 0) {
        "import { PublicKey } from '@solana/web3.js';\n"@
    } else {
        Seq::empty()
    }) + (if defs.len() > 0 {
        "import * as borsh from '@coral-xyz/borsh';\n"@
    } else {
        Seq::empty()
    }) + "\n"@
}

/// One rendered interface field line; an optional field takes the optional
/// marker.
pub open spec fn ts_field_line(f: FieldDefinitionV) -> Seq<char> {
    "  "@ + f.name + (if f.type_info is Option {
        "?"@
    } else {
        Seq::empty()
    }) + ": "@ + ts_type(f.type_info) + ";\n"@
}

/// The rendered interface field lines from the given index on.
pub open spec fn ts_fields_text(fields: Seq<FieldDefinitionV>, i: int) -> Seq<char>
    decreases fields.len() - i,
{
    if i < 0 || i >= fields.len() {
        Seq::empty()
    } else {
        ts_field_line(fields[i]) + ts_fields_text(fields, i + 1)
    }
}

/// One rendered interface declaration.
pub open spec fn ts_interface(s: StructDefinitionV) -> Seq<char> {
    "export interface "@ + s.name + " {\n"@ + ts_fields_text(s.fields, 0) + "}\n"@
}

/// The schema entries of a field list, one per line.
pub open spec fn ts_schema_fields(fields: Seq<FieldDefinitionV>, i: int) -> Seq<char>
    decreases fields.len() - i,
{
    if i < 0 || i >= fields.len() {
        Seq::empty()
    } else {
        "  "@ + borsh_entry(fields[i].type_info, fields[i].name) + ",\n"@ + ts_schema_fields(
            fields,
            i + 1,
        )
    }
}

/// One rendered struct schema constant.
pub open spec fn ts_struct_schema(s: StructDefinitionV) -> Seq<char> {
    "export const "@ + s.name + "Schema = borsh.struct([\n"@ + ts_schema_fields(s.fields, 0)
        + "]);\n"@
}

/// The tuple slot types of a variant, joined by commas.
pub open spec fn ts_tuple_join(types: Seq<TypeInfoV>, i: int) -> Seq<char>
    decreases types.len() - i,
{
    if i < 0 || i >= types.len() {
        Seq::empty()
    } else if i + 1 < types.len() {
        ts_type(types[i]) + ", "@ + ts_tuple_join(types, i + 1)
    } else {
        ts_type(types[i])
    }
}

/// The named fields of a struct variant, joined by commas.
pub open spec fn ts_variant_fields_join(fields: Seq<FieldDefinitionV>, i: int) -> Seq<char>
    decreases fields.len() - i,
{
    if i < 0 || i >= fields.len() {
        Seq::empty()
    } else if i + 1 < fields.len() {
        fields[i].name + ": "@ + ts_type(fields[i].type_info) + ", "@ + ts_variant_fields_join(
            fields,
            i + 1,
        )
    } else {
        fields[i].name + ": "@ + ts_type(fields[i].type_info)
    }
}

/// One arm of a rendered union type.
pub open spec fn ts_variant_arm(v: EnumVariantDefinitionV) -> Seq<char> {
    match v {
        EnumVariantDefinitionV::Unit { name } => "{ kind: '"@ + name + "' }"@,
        EnumVariantDefinitionV::Tuple { name, types } => "{ kind: '"@ + name + "', values: ["@
            + ts_tuple_join(types, 0) + "] }"@,
        EnumVariantDefinitionV::Struct { name, fields } => "{ kind: '"@ + name + "', "@
            + ts_variant_fields_join(fields, 0) + " }"@,
    }
}

/// The rendered union arms from the given index on, joined by pipes.
pub open spec fn ts_variants_text(variants: Seq<EnumVariantDefinitionV>, i: int) -> Seq<char>
    decreases variants.len() - i,
{
    if i < 0 || i >= variants.len() {
        Seq::empty()
    } else if i + 1 < variants.len() {
        ts_variant_arm(variants[i]) + " | "@ + ts_variants_text(variants, i + 1)
    } else {
        ts_variant_arm(variants[i])
    }
}

/// One rendered union type declaration; an enum without variants renders as
/// the empty union.
pub open spec fn ts_enum_type(e: EnumDefinitionV) -> Seq<char> {
    if e.variants.len() == 0 {
        "export type "@ + e.name + " = never;\n"@
    } else {
        "export type "@ + e.name + " = "@ + ts_variants_text(e.variants, 0) + ";\n"@
    }
}

/// The schema entries of one variant's payload.
pub open spec fn ts_variant_schema(v: EnumVariantDefinitionV) -> Seq<char> {
    match v {
        EnumVariantDefinitionV::Unit { name } => "  borsh.struct([], '"@ + name + "'),\n"@,
        EnumVariantDefinitionV::Tuple { name, types } => "  borsh.struct(["@ + ts_tuple_schema(
            types,
            0,
        ) + "], '"@ + name + "'),\n"@,
        EnumVariantDefinitionV::Struct { name, fields } => "  borsh.struct(["@
            + ts_variant_fields_schema(fields, 0) + "], '"@ + name + "'),\n"@,
    }
}

/// The schema entries of a tuple variant's slots, named by position.
pub open spec fn ts_tuple_schema(types: Seq<TypeInfoV>, i: int) -> Seq<char>
    decreases types.len() - i,
{
    if i < 0 || i >= types.len() {
        Seq::empty()
    } else {
        borsh_entry(types[i], "_"@ + crate::strutil::spec_dec(i as nat)) + ", "@ + ts_tuple_schema(
            types,
            i + 1,
        )
    }
}

/// The schema entries of a struct variant's fields.
pub open spec fn ts_variant_fields_schema(fields: Seq<FieldDefinitionV>, i: int) -> Seq<char>
    decreases fields.len() - i,
{
    if i < 0 || i >= fields.len() {
        Seq::empty()
    } else {
        borsh_entry(fields[i].type_info, fields[i].name) + ", "@ + ts_variant_fields_schema(
            fields,
            i + 1,
        )
    }
}

/// The rendered variant schemas from the given index on.
pub open spec fn ts_variant_schemas(variants: Seq<EnumVariantDefinitionV>, i: int) -> Seq<char>
    decreases variants.len() - i,
{
    if i < 0 || i >= variants.len() {
        Seq::empty()
    } else {
        ts_variant_schema(variants[i]) + ts_variant_schemas(variants, i + 1)
    }
}

/// One rendered enum schema constant.
pub open spec fn ts_enum_schema(e: EnumDefinitionV) -> Seq<char> {
    "export const "@ + e.name + "Schema = borsh.rustEnum([\n"@ + ts_variant_schemas(e.variants, 0)
        + "]);\n"@
}

/// One rendered declaration with its schema constant.
pub open spec fn ts_decl(d: TypeDefinitionV) -> Seq<char> {
    match d {
        TypeDefinitionV::Struct(s) => ts_interface(s) + "\n"@ + ts_struct_schema(s),
        TypeDefinitionV::Enum(e) => ts_enum_type(e) + "\n"@ + ts_enum_schema(e),
    }
}

/// The rendered declarations from the given index on, one blank line after
/// each.
pub open spec fn ts_decls_text(defs: Seq<TypeDefinitionV>, i: int) -> Seq<char>
    decreases defs.len() - i,
{
    if i < 0 || i >= defs.len() {
        Seq::empty()
    } else {
        ts_decl(defs[i]) + "\n"@ + ts_decls_text(defs, i + 1)
    }
}

/// The whole rendered module.
pub open spec fn spec_ts_module(defs: Seq<TypeDefinitionV>) -> Seq<char> {
    ts_imports(defs) + ts_decls_text(defs, 0)
}

fn type_text(t: &TypeInfo) -> (r: String)
    ensures
        r@ == ts_type(t@),
    decreases *t,
{
    match t {
        TypeInfo::Primitive(name) => {
            let n = name.as_str();
            if str_eq(n, "u8") || str_eq(n, "u16") || str_eq(n, "u32") || str_eq(n, "u64")
                || str_eq(n, "i8") || str_eq(n, "i16") || str_eq(n, "i32") || str_eq(n, "i64")
                || str_eq(n, "f32") || str_eq(n, "f64") {
                String::from_str("number")
            } else if str_eq(n, "u128") || str_eq(n, "i128") {
                String::from_str("bigint")
            } else if str_eq(n, "bool") {
                String::from_str("boolean")
            } else if str_eq(n, "String") {
                String::from_str("string")
            } else if str_eq(n, "PublicKey") || str_eq(n, "Pubkey") {
                String::from_str("PublicKey")
            } else if str_eq(n, "Signature") {
                String::from_str("Uint8Array")
            } else {
                name.clone()
            }
        },
        TypeInfo::UserDefined(name) => name.clone(),
        TypeInfo::Array(inner) => {
            let mut s = String::new();
            let is_opt = match &**inner {
                TypeInfo::Option(_) => true,
                _ => false,
            };
            if is_opt {
                s.append("(");
            }
            let it = type_text(inner);
            s.append(it.as_str());
            if is_opt {
                s.append(")[]");
            } else {
                s.append("[]");
            }
            assert(s@ =~= ts_type(t@));
            s
        },
        TypeInfo::Option(inner) => {
            let mut s = type_text(inner);
            s.append(" | undefined");
            assert(s@ =~= ts_type(t@));
            s
        },
    }
}

fn expr_text(t: &TypeInfo) -> (r: String)
    ensures
        r@ == borsh_expr(t@),
    decreases *t,
{
    match t {
        TypeInfo::Primitive(name) => {
            let n = name.as_str();
            if str_eq(n, "String") {
                String::from_str("borsh.string")
            } else if str_eq(n, "bool") {
                String::from_str("borsh.bool")
            } else if str_eq(n, "PublicKey") || str_eq(n, "Pubkey") {
                String::from_str("borsh.publicKey")
            } else if str_eq(n, "Signature") {
                String::from_str("borsh.array(borsh.u8, 64)")
            } else {
                let mut s = String::from_str("borsh.");
                s.append(n);
                assert(s@ =~= "borsh."@ + name@);
                s
            }
        },
        TypeInfo::UserDefined(name) => {
            let mut s = name.clone();
            s.append("Schema");
            assert(s@ =~= name@ + "Schema"@);
            s
        },
        TypeInfo::Array(inner) => {
            let mut s = String::from_str("borsh.vec(");
            let it = expr_text(inner);
            s.append(it.as_str());
            s.append(")");
            assert(s@ =~= borsh_expr(t@));
            s
        },
        TypeInfo::Option(inner) => {
            let mut s = String::from_str("borsh.option(");
            let it = expr_text(inner);
            s.append(it.as_str());
            s.append(")");
            assert(s@ =~= borsh_expr(t@));
            s
        },
    }
}

fn entry_text(t: &TypeInfo, name: &str) -> (r: String)
    ensures
        r@ == borsh_entry(t@, name@),
{
    match t {
        TypeInfo::UserDefined(n) => {
            let mut s = n.clone();
            s.append("Schema.replicate('");
            s.append(name);
            s.append("')");
            assert(s@ =~= borsh_entry(t@, name@));
            s
        },
        _ => {
            let mut s = expr_text(t);
            s.append("('");
            s.append(name);
            s.append("')");
            assert(s@ =~= borsh_entry(t@, name@));
            s
        },
    }
}

fn imports_text(defs: &Vec<TypeDefinition>) -> (r: String)
    ensures
        r@ == ts_imports(view_defs(defs@)),
{
    let mut s = String::new();
    if crate::generators::rust::defs_have_pubkey(defs, 0) {
        s.append("import { PublicKey } from '@solana/web3.js';\n");
    }
    if defs.len() > 0 {
        s.append("import * as borsh from '@coral-xyz/borsh';\n");
    }
    s.append("\n");
    assert(s@ =~= ts_imports(view_defs(defs@)));
    s
}

fn fields_text(fields: &Vec<FieldDefinition>, out: &mut String)
    ensures
        final(out)@ == old(out)@ + ts_fields_text(fields@.map_values(|f: FieldDefinition| f@), 0),
{
    let ghost fv = fields@.map_values(|f: FieldDefinition| f@);
    let mut i: usize = 0;
    while i < fields.len()
        invariant
            i <= fields.len(),
            fv == fields@.map_values(|f: FieldDefinition| f@),
            fv.len() == fields@.len(),
            out@ + ts_fields_text(fv, i as int) == old(out)@ + ts_fields_text(fv, 0),
        decreases fields.len() - i,
    {
        let ghost before = out@;
        out.append("  ");
        out.append(fields[i].name.as_str());
        let is_opt = match &fields[i].type_info {
            TypeInfo::Option(_) => true,
            _ => false,
        };
        if is_opt {
            out.append("?");
        }
        out.append(": ");
        let ty = type_text(&fields[i].type_info);
        out.append(ty.as_str());
        out.append(";\n");
        assert(out@ =~= before + ts_field_line(fv[i as int]));
        assert(before + ts_fields_text(fv, i as int) =~= out@ + ts_fields_text(fv, i + 1));
        i = i + 1;
    }
    assert(out@ =~= old(out)@ + ts_fields_text(fv, 0));
}

fn schema_fields_text(fields: &Vec<FieldDefinition>, out: &mut String)
    ensures
        final(out)@ == old(out)@ + ts_schema_fields(fields@.map_values(|f: FieldDefinition| f@), 0),
{
    let ghost fv = fields@.map_values(|f: FieldDefinition| f@);
    let mut i: usize = 0;
    while i < fields.len()
        invariant
            i <= fields.len(),
            fv == fields@.map_values(|f: FieldDefinition| f@),
            fv.len() == fields@.len(),
            out@ + ts_schema_fields(fv, i as int) == old(out)@ + ts_schema_fields(fv, 0),
        decreases fields.len() - i,
    {
        let ghost before = out@;
        out.append("  ");
        let entry = entry_text(&fields[i].type_info, fields[i].name.as_str());
        out.append(entry.as_str());
        out.append(",\n");
        assert(out@ =~= before + ("  "@ + borsh_entry(fv[i as int].type_info, fv[i as int].name)
            + ",\n"@));
        assert(before + ts_schema_fields(fv, i as int) =~= out@ + ts_schema_fields(fv, i + 1));
        i = i + 1;
    }
    assert(out@ =~= old(out)@ + ts_schema_fields(fv, 0));
}

fn tuple_join_text(types: &Vec<TypeInfo>, out: &mut String)
    ensures
        final(out)@ == old(out)@ + ts_tuple_join(types@.map_values(|t: TypeInfo| t@), 0),
{
    let ghost tv = types@.map_values(|t: TypeInfo| t@);
    let mut i: usize = 0;
    while i < types.len()
        invariant
            i <= types.len(),
            tv == types@.map_values(|t: TypeInfo| t@),
            tv.len() == types@.len(),
            out@ + ts_tuple_join(tv, i as int) == old(out)@ + ts_tuple_join(tv, 0),
        decreases types.len() - i,
    {
        let ghost before = out@;
        let ty = type_text(&types[i]);
        out.append(ty.as_str());
        if i + 1 < types.len() {
            out.append(", ");
            assert(out@ =~= before + (ts_type(tv[i as int]) + ", "@));
        }
        assert(before + ts_tuple_join(tv, i as int) =~= out@ + ts_tuple_join(tv, i + 1));
        i = i + 1;
    }
    assert(out@ =~= old(out)@ + ts_tuple_join(tv, 0));
}

fn variant_fields_join_text(fields: &Vec<FieldDefinition>, out: &mut String)
    ensures
        final(out)@ == old(out)@ + ts_variant_fields_join(
            fields@.map_values(|f: FieldDefinition| f@),
            0,
        ),
{
    let ghost fv = fields@.map_values(|f: FieldDefinition| f@);
    let mut i: usize = 0;
    while i < fields.len()
        invariant
            i <= fields.len(),
            fv == fields@.map_values(|f: FieldDefinition| f@),
            fv.len() == fields@.len(),
            out@ + ts_variant_fields_join(fv, i as int) == old(out)@ + ts_variant_fields_join(
                fv,
                0,
            ),
        decreases fields.len() - i,
    {
        let ghost before = out@;
        out.append(fields[i].name.as_str());
        out.append(": ");
        let ty = type_text(&fields[i].type_info);
        out.append(ty.as_str());
        if i + 1 < fields.len() {
            out.append(", ");
            assert(out@ =~= before + (fv[i as int].name + ": "@ + ts_type(fv[i as int].type_info)
                + ", "@));
        } else {
            assert(out@ =~= before + (fv[i as int].name + ": "@ + ts_type(
                fv[i as int].type_info,
            )));
        }
        assert(before + ts_variant_fields_join(fv, i as int) =~= out@ + ts_variant_fields_join(
            fv,
            i + 1,
        ));
        i = i + 1;
    }
    assert(out@ =~= old(out)@ + ts_variant_fields_join(fv, 0));
}

fn variants_text(variants: &Vec<EnumVariantDefinition>, out: &mut String)
    ensures
        final(out)@ == old(out)@ + ts_variants_text(
            variants@.map_values(|v: EnumVariantDefinition| v@),
            0,
        ),
{
    let ghost vv = variants@.map_values(|v: EnumVariantDefinition| v@);
    let mut i: usize = 0;
    while i < variants.len()
        invariant
            i <= variants.len(),
            vv == variants@.map_values(|v: EnumVariantDefinition| v@),
            vv.len() == variants@.len(),
            out@ + ts_variants_text(vv, i as int) == old(out)@ + ts_variants_text(vv, 0),
        decreases variants.len() - i,
    {
        let ghost before = out@;
        let v = &variants[i];
        assert(v@ == vv[i as int]);
        match v {
            EnumVariantDefinition::Unit { name } => {
                out.append("{ kind: '");
                out.append(name.as_str());
                out.append("' }");
            },
            EnumVariantDefinition::Tuple { name, types } => {
                out.append("{ kind: '");
                out.append(name.as_str());
                out.append("', values: [");
                tuple_join_text(types, out);
                out.append("] }");
            },
            EnumVariantDefinition::Struct { name, fields } => {
                out.append("{ kind: '");
                out.append(name.as_str());
                out.append("', ");
                variant_fields_join_text(fields, out);
                out.append(" }");
            },
        }
        assert(out@ =~= before + ts_variant_arm(vv[i as int]));
        if i + 1 < variants.len() {
            out.append(" | ");
            assert(out@ =~= before + (ts_variant_arm(vv[i as int]) + " | "@));
        }
        assert(before + ts_variants_text(vv, i as int) =~= out@ + ts_variants_text(vv, i + 1));
        i = i + 1;
    }
    assert(out@ =~= old(out)@ + ts_variants_text(vv, 0));
}

fn variant_schemas_text(variants: &Vec<EnumVariantDefinition>, out: &mut String)
    ensures
        final(out)@ == old(out)@ + ts_variant_schemas(
            variants@.map_values(|v: EnumVariantDefinition| v@),
            0,
        ),
{
    let ghost vv = variants@.map_values(|v: EnumVariantDefinition| v@);
    let mut i: usize = 0;
    while i < variants.len()
        invariant
            i <= variants.len(),
            vv == variants@.map_values(|v: EnumVariantDefinition| v@),
            vv.len() == variants@.len(),
            out@ + ts_variant_schemas(vv, i as int) == old(out)@ + ts_variant_schemas(vv, 0),
        decreases variants.len() - i,
    {
        let ghost before = out@;
        let v = &variants[i];
        assert(v@ == vv[i as int]);
        match v {
            EnumVariantDefinition::Unit { name } => {
                out.append("  borsh.struct([], '");
                out.append(name.as_str());
                out.append("'),\n");
            },
            EnumVariantDefinition::Tuple { name, types } => {
                out.append("  borsh.struct([");
                tuple_schema_text(types, out);
                out.append("], '");
                out.append(name.as_str());
                out.append("'),\n");
            },
            EnumVariantDefinition::Struct { name, fields } => {
                out.append("  borsh.struct([");
                variant_fields_schema_text(fields, out);
                out.append("], '");
                out.append(name.as_str());
                out.append("'),\n");
            },
        }
        assert(out@ =~= before + ts_variant_schema(vv[i as int]));
        assert(before + ts_variant_schemas(vv, i as int) =~= out@ + ts_variant_schemas(vv, i + 1));
        i = i + 1;
    }
    assert(out@ =~= old(out)@ + ts_variant_schemas(vv, 0));
}

fn tuple_schema_text(types: &Vec<TypeInfo>, out: &mut String)
    ensures
        final(out)@ == old(out)@ + ts_tuple_schema(types@.map_values(|t: TypeInfo| t@), 0),
{
    let ghost tv = types@.map_values(|t: TypeInfo| t@);
    let mut i: usize = 0;
    while i < types.len()
        invariant
            i <= types.len(),
            tv == types@.map_values(|t: TypeInfo| t@),
            tv.len() == types@.len(),
            out@ + ts_tuple_schema(tv, i as int) == old(out)@ + ts_tuple_schema(tv, 0),
        decreases types.len() - i,
    {
        let ghost before = out@;
        let mut slot = String::from_str("_");
        let digits = crate::strutil::dec_string(i as u64);
        slot.append(digits.as_str());
        assert(slot@ =~= "_"@ + crate::strutil::spec_dec(i as nat));
        let entry = entry_text(&types[i], slot.as_str());
        out.append(entry.as_str());
        out.append(", ");
        assert(out@ =~= before + (borsh_entry(tv[i as int], "_"@ + crate::strutil::spec_dec(
            i as nat,
        )) + ", "@));
        assert(before + ts_tuple_schema(tv, i as int) =~= out@ + ts_tuple_schema(tv, i + 1));
        i = i + 1;
    }
    assert(out@ =~= old(out)@ + ts_tuple_schema(tv, 0));
}

fn variant_fields_schema_text(fields: &Vec<FieldDefinition>, out: &mut String)
    ensures
        final(out)@ == old(out)@ + ts_variant_fields_schema(
            fields@.map_values(|f: FieldDefinition| f@),
            0,
        ),
{
    let ghost fv = fields@.map_values(|f: FieldDefinition| f@);
    let mut i: usize = 0;
    while i < fields.len()
        invariant
            i <= fields.len(),
            fv == fields@.map_values(|f: FieldDefinition| f@),
            fv.len() == fields@.len(),
            out@ + ts_variant_fields_schema(fv, i as int) == old(out)@ + ts_variant_fields_schema(
                fv,
                0,
            ),
        decreases fields.len() - i,
    {
        let ghost before = out@;
        let entry = entry_text(&fields[i].type_info, fields[i].name.as_str());
        out.append(entry.as_str());
        out.append(", ");
        assert(out@ =~= before + (borsh_entry(fv[i as int].type_info, fv[i as int].name) + ", "@));
        assert(before + ts_variant_fields_schema(fv, i as int) =~= out@ + ts_variant_fields_schema(
            fv,
            i + 1,
        ));
        i = i + 1;
    }
    assert(out@ =~= old(out)@ + ts_variant_fields_schema(fv, 0));
}

fn decl_text(d: &TypeDefinition, out: &mut String)
    ensures
        final(out)@ == old(out)@ + ts_decl(d@),
{
    match d {
        TypeDefinition::Struct(s) => {
            out.append("export interface ");
            out.append(s.name.as_str());
            out.append(" {\n");
            fields_text(&s.fields, out);
            out.append("}\n");
            out.append("\n");
            out.append("export const ");
            out.append(s.name.as_str());
            out.append("Schema = borsh.struct([\n");
            schema_fields_text(&s.fields, out);
            out.append("]);\n");
            assert(out@ =~= old(out)@ + ts_decl(d@));
        },
        TypeDefinition::Enum(e) => {
            if e.variants.len() == 0 {
                out.append("export type ");
                out.append(e.name.as_str());
                out.append(" = never;\n");
            } else {
                out.append("export type ");
                out.append(e.name.as_str());
                out.append(" = ");
                variants_text(&e.variants, out);
                out.append(";\n");
            }
            out.append("\n");
            out.append("export const ");
            out.append(e.name.as_str());
            out.append("Schema = borsh.rustEnum([\n");
            variant_schemas_text(&e.variants, out);
            out.append("]);\n");
            assert(out@ =~= old(out)@ + ts_decl(d@));
        },
    }
}

/// Renders one complete module for the whole IR list: imports, then one
/// declaration with its schema constant per definition, in declaration
/// order. The output is a function of the IR alone.
pub fn generate_module(type_defs: &Vec<TypeDefinition>) -> (r: String)
    ensures
        r@ == spec_ts_module(view_defs(type_defs@)),
{
    let ghost dv = view_defs(type_defs@);
    let mut out = imports_text(type_defs);
    let ghost header = out@;
    let mut i: usize = 0;
    while i < type_defs.len()
        invariant
            i <= type_defs.len(),
            dv == view_defs(type_defs@),
            dv.len() == type_defs@.len(),
            out@ + ts_decls_text(dv, i as int) == header + ts_decls_text(dv, 0),
        decreases type_defs.len() - i,
    {
        let ghost before = out@;
        assert(type_defs@[i as int]@ == dv[i as int]);
        decl_text(&type_defs[i], &mut out);
        out.append("\n");
        assert(out@ =~= before + (ts_decl(dv[i as int]) + "\n"@));
        assert(before + ts_decls_text(dv, i as int) =~= out@ + ts_decls_text(dv, i + 1));
        i = i + 1;
    }
    assert(out@ =~= header + ts_decls_text(dv, 0));
    out
}

/// Renders one definition as a standalone module of its own: the imports it
/// needs, then its declaration and schema constant.
pub fn generate(type_def: &TypeDefinition) -> (r: String)
    ensures
        r@ == spec_ts_module(seq![type_def@]),
{
    let mut single: Vec<TypeDefinition> = Vec::new();
    single.push(type_def.clone());
    assert(view_defs(single@) =~= seq![type_def@]);
    generate_module(&single)
}

} // verus!
