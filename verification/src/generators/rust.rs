//! The structured-language backend: renders the IR as a module of struct and
//! enum declarations whose serialization derives follow the shared layout
//! table.
//!
//! The output is a pure function of the IR: given the same definitions the
//! rendered text is identical byte for byte. Imports are tracked from what
//! actually appears in the IR: the on-chain framework prelude only when an
//! account struct is present, the serialization derives only when a
//! definition needs them, and the key type import only when a key appears
//! outside an account module.

use vstd::prelude::*;
use crate::ir::{
    EnumDefinitionV, EnumVariantDefinition, EnumVariantDefinitionV, FieldDefinition,
    FieldDefinitionV, StructDefinitionV, TypeDefinition, TypeDefinitionV, TypeInfo, TypeInfoV,
    view_defs,
};
use crate::size_calculator::spec_is_account;
use crate::strutil::str_eq;

verus! {

/// The declaration rendering of one type under this backend: integers,
/// floats, booleans and text keep their canonical names, the key type maps
/// to the framework's 32-byte key, the signature type to a 64-byte array,
/// arrays to growable vectors and optionals to the standard optional.
pub open spec fn rust_type(t: TypeInfoV) -> Seq<char>
    decreases t,
{
    match t {
        TypeInfoV::Primitive(name) => if name == "PublicKey"@ || name == "Pubkey"@ {
            "Pubkey"@
        } else if name == "Signature"@ {
            "[u8; 64]"@
        } else {
            name
        },
        TypeInfoV::UserDefined(name) => name,
        TypeInfoV::Array(inner) => "Vec<"@ + rust_type(*inner) + ">"@,
        TypeInfoV::Option(inner) => "Option<"@ + rust_type(*inner) + ">"@,
    }
}

/// Whether a key type appears anywhere inside one type.
pub open spec fn type_uses_pubkey(t: TypeInfoV) -> bool
    decreases t,
{
    match t {
        TypeInfoV::Primitive(name) => name == "PublicKey"@ || name == "Pubkey"@,
        TypeInfoV::UserDefined(_) => false,
        TypeInfoV::Array(inner) => type_uses_pubkey(*inner),
        TypeInfoV::Option(inner) => type_uses_pubkey(*inner),
    }
}

/// Whether a key type appears in a field list from the given index on.
pub open spec fn fields_use_pubkey(fields: Seq<FieldDefinitionV>, i: int) -> bool
    decreases fields.len() - i,
{
    if i < 0 || i >= fields.len() {
        false
    } else {
        type_uses_pubkey(fields[i].type_info) || fields_use_pubkey(fields, i + 1)
    }
}

/// Whether a key type appears in a tuple slot list from the given index on.
pub open spec fn types_use_pubkey(types: Seq<TypeInfoV>, i: int) -> bool
    decreases types.len() - i,
{
    if i < 0 || i >= types.len() {
        false
    } else {
        type_uses_pubkey(types[i]) || types_use_pubkey(types, i + 1)
    }
}

/// Whether a key type appears in a variant list from the given index on.
pub open spec fn variants_use_pubkey(variants: Seq<EnumVariantDefinitionV>, i: int) -> bool
    decreases variants.len() - i,
{
    if i < 0 || i >= variants.len() {
        false
    } else {
        (match variants[i] {
            EnumVariantDefinitionV::Unit { .. } => false,
            EnumVariantDefinitionV::Tuple { types, .. } => types_use_pubkey(types, 0),
            EnumVariantDefinitionV::Struct { fields, .. } => fields_use_pubkey(fields, 0),
        }) || variants_use_pubkey(variants, i + 1)
    }
}

/// Whether a key type appears in one definition.
pub open spec fn def_uses_pubkey(d: TypeDefinitionV) -> bool {
    match d {
        TypeDefinitionV::Struct(s) => fields_use_pubkey(s.fields, 0),
        TypeDefinitionV::Enum(e) => variants_use_pubkey(e.variants, 0),
    }
}

/// Whether a key type appears in the definitions from the given index on.
pub open spec fn defs_use_pubkey(defs: Seq<TypeDefinitionV>, i: int) -> bool
    decreases defs.len() - i,
{
    if i < 0 || i >= defs.len() {
        false
    } else {
        def_uses_pubkey(defs[i]) || defs_use_pubkey(defs, i + 1)
    }
}

/// Whether a definition is an account struct.
pub open spec fn def_is_account(d: TypeDefinitionV) -> bool {
    match d {
        TypeDefinitionV::Struct(s) => spec_is_account(s.metadata.attributes),
        TypeDefinitionV::Enum(_) => false,
    }
}

/// Whether an account struct appears from the given index on.
pub open spec fn defs_use_account(defs: Seq<TypeDefinitionV>, i: int) -> bool
    decreases defs.len() - i,
{
    if i < 0 || i >= defs.len() {
        false
    } else {
        def_is_account(defs[i]) || defs_use_account(defs, i + 1)
    }
}

/// Whether a definition needs the serialization derives (everything but an
/// account struct, whose framework attribute provides them).
pub open spec fn defs_use_borsh(defs: Seq<TypeDefinitionV>, i: int) -> bool
    decreases defs.len() - i,
{
    if i < 0 || i >= defs.len() {
        false
    } else {
        !def_is_account(defs[i]) || defs_use_borsh(defs, i + 1)
    }
}

/// The import block of a rendered module.
pub open spec fn rust_imports(defs: Seq<TypeDefinitionV>) -> Seq<char> {
    (if defs_use_account(defs, 0) {
        "use anchor_lang::prelude::*;\n"@
    } else {
        Seq::empty()
    }) + (if defs_use_borsh(defs, 0) {
        "use borsh::{BorshSerialize, BorshDeserialize};\n"@
    } else {
        Seq::empty()
    }) + (if defs_use_pubkey(defs, 0) && !defs_use_account(defs, 0) {
        "use solana_program::pubkey::Pubkey;\n"@
    } else {
        Seq::empty()
    }) + "\n"@
}

/// One rendered struct field line.
pub open spec fn rust_field_line(f: FieldDefinitionV) -> Seq<char> {
    "    pub "@ + f.name + ": "@ + rust_type(f.type_info) + ",\n"@
}

/// The rendered field lines from the given index on.
pub open spec fn rust_fields_text(fields: Seq<FieldDefinitionV>, i: int) -> Seq<char>
    decreases fields.len() - i,
{
    if i < 0 || i >= fields.len() {
        Seq::empty()
    } else {
        rust_field_line(fields[i]) + rust_fields_text(fields, i + 1)
    }
}

/// The derive line of a non-account definition.
pub open spec fn rust_derive_line() -> Seq<char> {
    "#[derive(BorshSerialize, BorshDeserialize, Debug, Clone)]\n"@
}

/// One rendered struct declaration.
pub open spec fn rust_struct_decl(s: StructDefinitionV) -> Seq<char> {
    (if spec_is_account(s.metadata.attributes) {
        "#[account]\n"@
    } else {
        rust_derive_line()
    }) + "pub struct "@ + s.name + " {\n"@ + rust_fields_text(s.fields, 0) + "}\n"@
}

/// Tuple slot types joined by commas.
pub open spec fn rust_types_join(types: Seq<TypeInfoV>, i: int) -> Seq<char>
    decreases types.len() - i,
{
    if i < 0 || i >= types.len() {
        Seq::empty()
    } else if i + 1 < types.len() {
        rust_type(types[i]) + ", "@ + rust_types_join(types, i + 1)
    } else {
        rust_type(types[i])
    }
}

/// Struct variant fields joined by commas.
pub open spec fn rust_variant_fields_join(fields: Seq<FieldDefinitionV>, i: int) -> Seq<char>
    decreases fields.len() - i,
{
    if i < 0 || i >= fields.len() {
        Seq::empty()
    } else if i + 1 < fields.len() {
        fields[i].name + ": "@ + rust_type(fields[i].type_info) + ", "@ + rust_variant_fields_join(
            fields,
            i + 1,
        )
    } else {
        fields[i].name + ": "@ + rust_type(fields[i].type_info)
    }
}

/// One rendered enum variant line.
pub open spec fn rust_variant_line(v: EnumVariantDefinitionV) -> Seq<char> {
    match v {
        EnumVariantDefinitionV::Unit { name } => "    "@ + name + ",\n"@,
        EnumVariantDefinitionV::Tuple { name, types } => "    "@ + name + "("@ + rust_types_join(
            types,
            0,
        ) + "),\n"@,
        EnumVariantDefinitionV::Struct { name, fields } => "    "@ + name + " { "@
            + rust_variant_fields_join(fields, 0) + " },\n"@,
    }
}

/// The rendered variant lines from the given index on.
pub open spec fn rust_variants_text(variants: Seq<EnumVariantDefinitionV>, i: int) -> Seq<char>
    decreases variants.len() - i,
{
    if i < 0 || i >= variants.len() {
        Seq::empty()
    } else {
        rust_variant_line(variants[i]) + rust_variants_text(variants, i + 1)
    }
}

/// One rendered enum declaration.
pub open spec fn rust_enum_decl(e: EnumDefinitionV) -> Seq<char> {
    rust_derive_line() + "pub enum "@ + e.name + " {\n"@ + rust_variants_text(e.variants, 0)
        + "}\n"@
}

/// One rendered declaration.
pub open spec fn rust_decl(d: TypeDefinitionV) -> Seq<char> {
    match d {
        TypeDefinitionV::Struct(s) => rust_struct_decl(s),
        TypeDefinitionV::Enum(e) => rust_enum_decl(e),
    }
}

/// The rendered declarations from the given index on, one blank line after
/// each.
pub open spec fn rust_decls_text(defs: Seq<TypeDefinitionV>, i: int) -> Seq<char>
    decreases defs.len() - i,
{
    if i < 0 || i >= defs.len() {
        Seq::empty()
    } else {
        rust_decl(defs[i]) + "\n"@ + rust_decls_text(defs, i + 1)
    }
}

/// The whole rendered module.
pub open spec fn spec_rust_module(defs: Seq<TypeDefinitionV>) -> Seq<char> {
    rust_imports(defs) + rust_decls_text(defs, 0)
}

fn type_text(t: &TypeInfo) -> (r: String)
    ensures
        r@ == rust_type(t@),
    decreases *t,
{
    match t {
        TypeInfo::Primitive(name) => {
            if str_eq(name.as_str(), "PublicKey") || str_eq(name.as_str(), "Pubkey") {
                String::from_str("Pubkey")
            } else if str_eq(name.as_str(), "Signature") {
                String::from_str("[u8; 64]")
            } else {
                name.clone()
            }
        },
        TypeInfo::UserDefined(name) => name.clone(),
        TypeInfo::Array(inner) => {
            let mut s = String::from_str("Vec<");
            let it = type_text(inner);
            s.append(it.as_str());
            s.append(">");
            assert(s@ =~= rust_type(t@));
            s
        },
        TypeInfo::Option(inner) => {
            let mut s = String::from_str("Option<");
            let it = type_text(inner);
            s.append(it.as_str());
            s.append(">");
            assert(s@ =~= rust_type(t@));
            s
        },
    }
}

fn type_has_pubkey(t: &TypeInfo) -> (r: bool)
    ensures
        r == type_uses_pubkey(t@),
    decreases *t,
{
    match t {
        TypeInfo::Primitive(name) => str_eq(name.as_str(), "PublicKey") || str_eq(
            name.as_str(),
            "Pubkey",
        ),
        TypeInfo::UserDefined(_) => false,
        TypeInfo::Array(inner) => type_has_pubkey(inner),
        TypeInfo::Option(inner) => type_has_pubkey(inner),
    }
}

fn fields_have_pubkey(fields: &Vec<FieldDefinition>, i: usize) -> (r: bool)
    requires
        i <= fields@.len(),
    ensures
        r == fields_use_pubkey(fields@.map_values(|f: FieldDefinition| f@), i as int),
    decreases fields@.len() - i,
{
    if i == fields.len() {
        return false;
    }
    if type_has_pubkey(&fields[i].type_info) {
        return true;
    }
    fields_have_pubkey(fields, i + 1)
}

fn types_have_pubkey(types: &Vec<TypeInfo>, i: usize) -> (r: bool)
    requires
        i <= types@.len(),
    ensures
        r == types_use_pubkey(types@.map_values(|t: TypeInfo| t@), i as int),
    decreases types@.len() - i,
{
    if i == types.len() {
        return false;
    }
    if type_has_pubkey(&types[i]) {
        return true;
    }
    types_have_pubkey(types, i + 1)
}

fn variants_have_pubkey(variants: &Vec<EnumVariantDefinition>, i: usize) -> (r: bool)
    requires
        i <= variants@.len(),
    ensures
        r == variants_use_pubkey(variants@.map_values(|v: EnumVariantDefinition| v@), i as int),
    decreases variants@.len() - i,
{
    if i == variants.len() {
        return false;
    }
    let here = match &variants[i] {
        EnumVariantDefinition::Unit { .. } => false,
        EnumVariantDefinition::Tuple { types, .. } => types_have_pubkey(types, 0),
        EnumVariantDefinition::Struct { fields, .. } => fields_have_pubkey(fields, 0),
    };
    assert(variants@.map_values(|v: EnumVariantDefinition| v@)[i as int] == variants@[i as int]@);
    if here {
        return true;
    }
    variants_have_pubkey(variants, i + 1)
}

fn def_has_pubkey(d: &TypeDefinition) -> (r: bool)
    ensures
        r == def_uses_pubkey(d@),
{
    match d {
        TypeDefinition::Struct(s) => fields_have_pubkey(&s.fields, 0),
        TypeDefinition::Enum(e) => variants_have_pubkey(&e.variants, 0),
    }
}

pub(crate) fn defs_have_pubkey(defs: &Vec<TypeDefinition>, i: usize) -> (r: bool)
    requires
        i <= defs@.len(),
    ensures
        r == defs_use_pubkey(view_defs(defs@), i as int),
    decreases defs@.len() - i,
{
    if i == defs.len() {
        return false;
    }
    assert(view_defs(defs@)[i as int] == defs@[i as int]@);
    if def_has_pubkey(&defs[i]) {
        return true;
    }
    defs_have_pubkey(defs, i + 1)
}

fn def_is_account_exec(d: &TypeDefinition) -> (r: bool)
    ensures
        r == def_is_account(d@),
{
    match d {
        TypeDefinition::Struct(s) => crate::size_calculator::metadata_is_account_exec(&s.metadata),
        TypeDefinition::Enum(_) => false,
    }
}

fn defs_have_account(defs: &Vec<TypeDefinition>, i: usize) -> (r: bool)
    requires
        i <= defs@.len(),
    ensures
        r == defs_use_account(view_defs(defs@), i as int),
    decreases defs@.len() - i,
{
    if i == defs.len() {
        return false;
    }
    assert(view_defs(defs@)[i as int] == defs@[i as int]@);
    if def_is_account_exec(&defs[i]) {
        return true;
    }
    defs_have_account(defs, i + 1)
}

fn defs_have_borsh(defs: &Vec<TypeDefinition>, i: usize) -> (r: bool)
    requires
        i <= defs@.len(),
    ensures
        r == defs_use_borsh(view_defs(defs@), i as int),
    decreases defs@.len() - i,
{
    if i == defs.len() {
        return false;
    }
    assert(view_defs(defs@)[i as int] == defs@[i as int]@);
    if !def_is_account_exec(&defs[i]) {
        return true;
    }
    defs_have_borsh(defs, i + 1)
}

fn imports_text(defs: &Vec<TypeDefinition>) -> (r: String)
    ensures
        r@ == rust_imports(view_defs(defs@)),
{
    let mut s = String::new();
    let account = defs_have_account(defs, 0);
    if account {
        s.append("use anchor_lang::prelude::*;\n");
    }
    if defs_have_borsh(defs, 0) {
        s.append("use borsh::{BorshSerialize, BorshDeserialize};\n");
    }
    if defs_have_pubkey(defs, 0) && !account {
        s.append("use solana_program::pubkey::Pubkey;\n");
    }
    s.append("\n");
    assert(s@ =~= rust_imports(view_defs(defs@)));
    s
}

fn fields_text(fields: &Vec<FieldDefinition>, out: &mut String)
    ensures
        final(out)@ == old(out)@ + rust_fields_text(fields@.map_values(|f: FieldDefinition| f@), 0),
{
    let ghost fv = fields@.map_values(|f: FieldDefinition| f@);
    let mut i: usize = 0;
    while i < fields.len()
        invariant
            i <= fields.len(),
            fv == fields@.map_values(|f: FieldDefinition| f@),
            fv.len() == fields@.len(),
            out@ + rust_fields_text(fv, i as int) == old(out)@ + rust_fields_text(fv, 0),
        decreases fields.len() - i,
    {
        let ghost before = out@;
        out.append("    pub ");
        out.append(fields[i].name.as_str());
        out.append(": ");
        let ty = type_text(&fields[i].type_info);
        out.append(ty.as_str());
        out.append(",\n");
        assert(out@ =~= before + rust_field_line(fv[i as int]));
        assert(before + rust_fields_text(fv, i as int) =~= out@ + rust_fields_text(fv, i + 1));
        i = i + 1;
    }
    assert(out@ =~= old(out)@ + rust_fields_text(fv, 0));
}

fn types_join(types: &Vec<TypeInfo>, out: &mut String)
    ensures
        final(out)@ == old(out)@ + rust_types_join(types@.map_values(|t: TypeInfo| t@), 0),
{
    let ghost tv = types@.map_values(|t: TypeInfo| t@);
    let mut i: usize = 0;
    while i < types.len()
        invariant
            i <= types.len(),
            tv == types@.map_values(|t: TypeInfo| t@),
            tv.len() == types@.len(),
            out@ + rust_types_join(tv, i as int) == old(out)@ + rust_types_join(tv, 0),
        decreases types.len() - i,
    {
        let ghost before = out@;
        let ty = type_text(&types[i]);
        out.append(ty.as_str());
        if i + 1 < types.len() {
            out.append(", ");
            assert(out@ =~= before + (rust_type(tv[i as int]) + ", "@));
        }
        assert(before + rust_types_join(tv, i as int) =~= out@ + rust_types_join(tv, i + 1));
        i = i + 1;
    }
    assert(out@ =~= old(out)@ + rust_types_join(tv, 0));
}

fn variant_fields_join(fields: &Vec<FieldDefinition>, out: &mut String)
    ensures
        final(out)@ == old(out)@ + rust_variant_fields_join(
            fields@.map_values(|f: FieldDefinition| f@),
            0,
        ),
{
    let ghost fv = fields@.map_values(|f: FieldDefinition| f@);
    let mut i: usize = 0;
    while i < fields.len()
        invariant
            i <= fields.len(),
            fv == fields@.map_values(|f: FieldDefinition| f@),
            fv.len() == fields@.len(),
            out@ + rust_variant_fields_join(fv, i as int) == old(out)@ + rust_variant_fields_join(
                fv,
                0,
            ),
        decreases fields.len() - i,
    {
        let ghost before = out@;
        out.append(fields[i].name.as_str());
        out.append(": ");
        let ty = type_text(&fields[i].type_info);
        out.append(ty.as_str());
        if i + 1 < fields.len() {
            out.append(", ");
            assert(out@ =~= before + (fv[i as int].name + ": "@ + rust_type(fv[i as int].type_info)
                + ", "@));
        } else {
            assert(out@ =~= before + (fv[i as int].name + ": "@ + rust_type(
                fv[i as int].type_info,
            )));
        }
        assert(before + rust_variant_fields_join(fv, i as int) =~= out@ + rust_variant_fields_join(
            fv,
            i + 1,
        ));
        i = i + 1;
    }
    assert(out@ =~= old(out)@ + rust_variant_fields_join(fv, 0));
}

fn variants_text(variants: &Vec<EnumVariantDefinition>, out: &mut String)
    ensures
        final(out)@ == old(out)@ + rust_variants_text(
            variants@.map_values(|v: EnumVariantDefinition| v@),
            0,
        ),
{
    let ghost vv = variants@.map_values(|v: EnumVariantDefinition| v@);
    let mut i: usize = 0;
    while i < variants.len()
        invariant
            i <= variants.len(),
            vv == variants@.map_values(|v: EnumVariantDefinition| v@),
            vv.len() == variants@.len(),
            out@ + rust_variants_text(vv, i as int) == old(out)@ + rust_variants_text(vv, 0),
        decreases variants.len() - i,
    {
        let ghost before = out@;
        let v = &variants[i];
        assert(v@ == vv[i as int]);
        match v {
            EnumVariantDefinition::Unit { name } => {
                out.append("    ");
                out.append(name.as_str());
                out.append(",\n");
            },
            EnumVariantDefinition::Tuple { name, types } => {
                out.append("    ");
                out.append(name.as_str());
                out.append("(");
                types_join(types, out);
                out.append("),\n");
            },
            EnumVariantDefinition::Struct { name, fields } => {
                out.append("    ");
                out.append(name.as_str());
                out.append(" { ");
                variant_fields_join(fields, out);
                out.append(" },\n");
            },
        }
        assert(out@ =~= before + rust_variant_line(vv[i as int]));
        assert(before + rust_variants_text(vv, i as int) =~= out@ + rust_variants_text(vv, i + 1));
        i = i + 1;
    }
    assert(out@ =~= old(out)@ + rust_variants_text(vv, 0));
}

fn decl_text(d: &TypeDefinition, out: &mut String)
    ensures
        final(out)@ == old(out)@ + rust_decl(d@),
{
    match d {
        TypeDefinition::Struct(s) => {
            if crate::size_calculator::metadata_is_account_exec(&s.metadata) {
                out.append("#[account]\n");
            } else {
                out.append("#[derive(BorshSerialize, BorshDeserialize, Debug, Clone)]\n");
            }
            out.append("pub struct ");
            out.append(s.name.as_str());
            out.append(" {\n");
            fields_text(&s.fields, out);
            out.append("}\n");
            assert(out@ =~= old(out)@ + rust_decl(d@));
        },
        TypeDefinition::Enum(e) => {
            out.append("#[derive(BorshSerialize, BorshDeserialize, Debug, Clone)]\n");
            out.append("pub enum ");
            out.append(e.name.as_str());
            out.append(" {\n");
            variants_text(&e.variants, out);
            out.append("}\n");
            assert(out@ =~= old(out)@ + rust_decl(d@));
        },
    }
}

/// Renders one complete module for the whole IR list: imports, then one
/// declaration per definition in declaration order. The output is a function
/// of the IR alone.
pub fn generate_module(type_defs: &Vec<TypeDefinition>) -> (r: String)
    ensures
        r@ == spec_rust_module(view_defs(type_defs@)),
{
    let ghost dv = view_defs(type_defs@);
    let mut out = imports_text(type_defs);
    let ghost header = out@;
    let mut i: usize = 0;
    while i < type_defs.len()
        invariant
            i <= type_defs.len(),
            dv == view_defs(type_defs@),
            dv.len() == type_defs@.len(),
            out@ + rust_decls_text(dv, i as int) == header + rust_decls_text(dv, 0),
        decreases type_defs.len() - i,
    {
        let ghost before = out@;
        assert(type_defs@[i as int]@ == dv[i as int]);
        decl_text(&type_defs[i], &mut out);
        out.append("\n");
        assert(out@ =~= before + (rust_decl(dv[i as int]) + "\n"@));
        assert(before + rust_decls_text(dv, i as int) =~= out@ + rust_decls_text(dv, i + 1));
        i = i + 1;
    }
    assert(out@ =~= header + rust_decls_text(dv, 0));
    out
}

/// Renders one definition as a standalone module of its own: the imports it
/// needs, then its declaration.
pub fn generate(type_def: &TypeDefinition) -> (r: String)
    ensures
        r@ == spec_rust_module(seq![type_def@]),
{
    let mut single: Vec<TypeDefinition> = Vec::new();
    single.push(type_def.clone());
    assert(view_defs(single@) =~= seq![type_def@]);
    generate_module(&single)
}

} // verus!
