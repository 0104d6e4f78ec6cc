//! Fuzz target generator: renders one fuzz harness per type definition,
//! testing round-trip serialization, size limits and discriminator presence
//! under the shared layout.
//!
//! Every rendered text is a pure function of the IR and the inputs.

use vstd::prelude::*;
use crate::ir::{
    EnumDefinition, FieldDefinitionV, StructDefinition, TypeDefinition, TypeDefinitionV, TypeInfo,
    TypeInfoV, view_defs,
};
use crate::security_analyzer::{is_arithmetic_name_exec, spec_is_arithmetic_name};
use crate::size_calculator::spec_is_account;
use crate::strutil::{lower_char, push_char, str_eq};
use crate::transform::{names_seq, names_set};

verus! {

/// A generated fuzz target.
#[derive(Debug, Clone, PartialEq)]
pub struct FuzzTarget {
    /// Target name, `fuzz_` plus the snake-case type name.
    pub name: String,
    /// The type being fuzzed.
    pub type_ident: String,
    /// The rendered harness source.
    pub code: String,
    /// Whether the type supports an equality check in the round trip.
    pub needs_partial_eq: bool,
}

/// Ghost view of a fuzz target.
pub struct FuzzTargetV {
    pub name: Seq<char>,
    pub type_ident: Seq<char>,
    pub code: Seq<char>,
    pub needs_partial_eq: bool,
}

impl View for FuzzTarget {
    type V = FuzzTargetV;

    open spec fn view(&self) -> FuzzTargetV {
        FuzzTargetV {
            name: self.name@,
            type_ident: self.type_ident@,
            code: self.code@,
            needs_partial_eq: self.needs_partial_eq,
        }
    }
}

/// Whether one character is an ASCII capital.
pub open spec fn is_upper(c: char) -> bool {
    'A' <= c && c <= 'Z'
}

/// Whether one character is an ASCII small letter.
pub open spec fn is_lower(c: char) -> bool {
    'a' <= c && c <= 'z'
}

/// Acronym-aware snake casing from one position on: an underscore goes
/// before a capital only where the neighboring characters show a word
/// boundary, so runs of capitals stay together.
pub open spec fn snake_acr_from(s: Seq<char>, i: int) -> Seq<char>
    decreases s.len() - i when 0 <= i <= s.len()
{
    if i >= s.len() {
        Seq::empty()
    } else {
        let c = s[i];
        if is_upper(c) {
            (if i > 0 && ((i + 1 < s.len() && is_lower(s[i + 1])) || is_lower(s[i - 1])) {
                seq!['_', lower_char(c)]
            } else {
                seq![lower_char(c)]
            }) + snake_acr_from(s, i + 1)
        } else {
            seq![c] + snake_acr_from(s, i + 1)
        }
    }
}

/// Acronym-aware snake casing of a whole name.
pub open spec fn spec_snake_acr(s: Seq<char>) -> Seq<char> {
    snake_acr_from(s, 0)
}

/// Converts a name to snake case, keeping runs of capitals (acronyms)
/// together.
pub fn to_snake_case(s: &str) -> (r: String)
    ensures
        r@ == spec_snake_acr(s@),
{
    let len = s.unicode_len();
    let mut out = String::new();
    let mut i: usize = 0;
    while i < len
        invariant
            i <= len,
            len == s@.len(),
            spec_snake_acr(s@) == out@ + snake_acr_from(s@, i as int),
        decreases len - i,
    {
        let c = s.get_char(i);
        if 'A' <= c && c <= 'Z' {
            let boundary = i > 0 && ((i + 1 < len && {
                let d = s.get_char(i + 1);
                'a' <= d && d <= 'z'
            }) || {
                let e = s.get_char(i - 1);
                'a' <= e && e <= 'z'
            });
            if boundary {
                push_char(&mut out, '_');
            }
            push_char(&mut out, (((c as u8) + 32) as char));
        } else {
            push_char(&mut out, c);
        }
        i = i + 1;
    }
    out
}

/// Whether every field supports a structural equality check: no float
/// primitive among the top-level field types.
pub open spec fn spec_needs_partial_eq(fields: Seq<FieldDefinitionV>) -> bool {
    forall|i: int|
        0 <= i < fields.len() ==> match (#[trigger] fields[i]).type_info {
            TypeInfoV::Primitive(n) => n != "f32"@ && n != "f64"@,
            _ => true,
        }
}

/// The names of the arithmetic-prone fields, in declaration order.
pub open spec fn spec_arith_fields(fields: Seq<FieldDefinitionV>, i: int) -> Seq<Seq<char>>
    decreases fields.len() - i,
{
    if i < 0 || i >= fields.len() {
        Seq::empty()
    } else {
        (if spec_is_arithmetic_name(fields[i].name) {
            seq![fields[i].name]
        } else {
            Seq::empty()
        }) + spec_arith_fields(fields, i + 1)
    }
}

/// The common harness header.
pub open spec fn fuzz_header() -> Seq<char> {
    "#![no_main]\nuse libfuzzer_sys::fuzz_target;\nuse borsh::{BorshSerialize, BorshDeserialize};\n\n"@
}

/// The bounds-check lines for the arithmetic fields.
pub open spec fn spec_arith_lines(names: Seq<Seq<char>>, i: int) -> Seq<char>
    decreases names.len() - i,
{
    if i < 0 || i >= names.len() {
        Seq::empty()
    } else {
        "        // Check "@ + names[i] + " is within reasonable bounds\n        let _ = instance."@
            + names[i] + ";\n"@ + spec_arith_lines(names, i + 1)
    }
}

/// The rendered harness of a struct target.
pub open spec fn spec_struct_code(
    tname: Seq<char>,
    is_account: bool,
    needs_eq: bool,
    arith: Seq<Seq<char>>,
) -> Seq<char> {
    fuzz_header() + (if is_account {
        "use anchor_lang::prelude::*;\n"@
    } else {
        Seq::empty()
    }) + "use generated::"@ + tname + ";\n\n"@ + "fuzz_target!(|data: &[u8]| {\n"@
        + "    if let Ok(instance) = "@ + tname + "::try_from_slice(data) {\n"@
        + "        // Round-trip: serialize, deserialize, compare\n"@
        + "        let serialized = instance.try_to_vec().expect(\"serialization should succeed\");\n"@
        + "        let deserialized = "@ + tname + "::try_from_slice(&serialized)\n"@
        + "            .expect(\"round-trip deserialization should succeed\");\n\n"@ + (
    if needs_eq {
        "        assert_eq!(instance, deserialized, \"round-trip should preserve data\");\n\n"@
    } else {
        Seq::empty()
    }) + "        assert!(serialized.len() <= 10_485_760, \"serialized size must not exceed 10MB\");\n\n"@
        + spec_arith_lines(arith, 0) + (if is_account {
        "        assert!(serialized.len() >= 8, \"account data should include discriminator\");\n"@
    } else {
        Seq::empty()
    }) + "    }\n});\n"@
}

/// The rendered harness of an enum target.
pub open spec fn spec_enum_code(tname: Seq<char>) -> Seq<char> {
    fuzz_header() + "use generated::"@ + tname + ";\n\n"@ + "fuzz_target!(|data: &[u8]| {\n"@
        + "    if let Ok(instance) = "@ + tname + "::try_from_slice(data) {\n"@
        + "        // Round-trip: serialize, deserialize, compare\n"@
        + "        let serialized = instance.try_to_vec().expect(\"serialization should succeed\");\n"@
        + "        let deserialized = "@ + tname + "::try_from_slice(&serialized)\n"@
        + "            .expect(\"round-trip deserialization should succeed\");\n\n"@
        + "        // The first bytes carry the enum discriminant\n"@
        + "        assert!(!serialized.is_empty(), \"enum serialization should not be empty\");\n"@
        + "    }\n});\n"@
}

/// The fuzz-target name of a type.
pub open spec fn spec_target_name(tname: Seq<char>) -> Seq<char> {
    "fuzz_"@ + spec_snake_acr(tname)
}

/// The rendered manifest of the fuzz crate.
pub open spec fn spec_cargo_toml(crate_name: Seq<char>) -> Seq<char> {
    "[package]\nname = \""@ + crate_name
        + "-fuzz\"\nversion = \"0.0.0\"\nedition = \"2021\"\npublish = false\n\n"@
        + "[package.metadata]\ncargo-fuzz = true\n\n"@
        + "[dependencies]\nlibfuzzer-sys = \"0.4\"\nborsh = { version = \"1.5\", features = [\"derive\"] }\nanchor-lang = \"0.30\"\ngenerated = { path = \"..\" }\n"@
}

/// The rendered fuzz-directory guide.
pub open spec fn spec_readme() -> Seq<char> {
    "# Fuzz Testing\n\nGenerated fuzz targets for the generated code.\n\n"@
        + "## Running\n\n```bash\ncargo fuzz list\ncargo fuzz run target_name\n```\n\n"@
        + "## What is tested\n\n- Round-trip integrity: serialize, deserialize, compare\n- Size limits: data fits within the 10MB account limit\n- Discriminator presence for account types\n- Bounds of arithmetic-prone fields\n\n"@
        + "## Corpus\n\nSeed inputs live in the corpus directory; crash artifacts are saved beside them when failures occur.\n"@
}

/// Fuzz target generator over an immutable list of type definitions.
pub struct FuzzGenerator<'a> {
    /// All type definitions.
    pub type_defs: &'a Vec<TypeDefinition>,
}

impl<'a> FuzzGenerator<'a> {
    /// Create a new fuzz generator over the given definitions.
    pub fn new(type_defs: &'a Vec<TypeDefinition>) -> (r: Self)
        ensures
            r.type_defs@ == type_defs@,
    {
        FuzzGenerator { type_defs }
    }

    /// Whether a struct supports the equality check in its round trip: no
    /// float primitive among its field types.
    pub fn needs_partial_eq_derive(&self, struct_def: &StructDefinition) -> (r: bool)
        ensures
            r == spec_needs_partial_eq(struct_def@.fields),
    {
        let ghost fv = struct_def.fields@.map_values(|f: crate::ir::FieldDefinition| f@);
        let mut i: usize = 0;
        while i < struct_def.fields.len()
            invariant
                i <= struct_def.fields.len(),
                fv == struct_def.fields@.map_values(|f: crate::ir::FieldDefinition| f@),
                fv.len() == struct_def.fields@.len(),
                forall|j: int|
                    0 <= j < i ==> match (#[trigger] fv[j]).type_info {
                        TypeInfoV::Primitive(n) => n != "f32"@ && n != "f64"@,
                        _ => true,
                    },
            decreases struct_def.fields.len() - i,
        {
            let f = &struct_def.fields[i];
            assert(f@ == fv[i as int]);
            match &f.type_info {
                TypeInfo::Primitive(n) => {
                    if str_eq(n.as_str(), "f32") || str_eq(n.as_str(), "f64") {
                        return false;
                    }
                },
                _ => {},
            }
            i = i + 1;
        }
        true
    }

    /// The names of the arithmetic-prone fields, in declaration order.
    pub fn collect_arithmetic_fields(&self, struct_def: &StructDefinition) -> (r: Vec<String>)
        ensures
            r@.map_values(|s: String| s@) == spec_arith_fields(
                struct_def@.fields,
                0,
            ),
    {
        let ghost fv = struct_def.fields@.map_values(|f: crate::ir::FieldDefinition| f@);
        let mut out: Vec<String> = Vec::new();
        let mut i: usize = 0;
        while i < struct_def.fields.len()
            invariant
                i <= struct_def.fields.len(),
                fv == struct_def.fields@.map_values(|f: crate::ir::FieldDefinition| f@),
                fv.len() == struct_def.fields@.len(),
                out@.map_values(|s: String| s@) + spec_arith_fields(fv, i as int)
                    == spec_arith_fields(fv, 0),
            decreases struct_def.fields.len() - i,
        {
            let ghost before = out@.map_values(|s: String| s@);
            let f = &struct_def.fields[i];
            assert(f@ == fv[i as int]);
            if is_arithmetic_name_exec(f.name.as_str()) {
                let ghost prev = out@;
                out.push(f.name.clone());
                assert(out@.map_values(|s: String| s@) =~= prev.map_values(|s: String| s@).push(
                    fv[i as int].name,
                ));
            }
            assert(before + spec_arith_fields(fv, i as int) =~= out@.map_values(|s: String| s@)
                + spec_arith_fields(fv, i + 1));
            i = i + 1;
        }
        assert(out@.map_values(|s: String| s@) =~= spec_arith_fields(fv, 0));
        out
    }

    /// The fuzz harness of one struct.
    pub fn generate_struct_target(&self, struct_def: &StructDefinition) -> (r: FuzzTarget)
        ensures
            r@.name == spec_target_name(struct_def@.name),
            r@.type_ident == struct_def@.name,
            r@.needs_partial_eq == spec_needs_partial_eq(struct_def@.fields),
            r@.code == spec_struct_code(
                struct_def@.name,
                spec_is_account(struct_def@.metadata.attributes),
                spec_needs_partial_eq(struct_def@.fields),
                spec_arith_fields(struct_def@.fields, 0),
            ),
    {
        let tname = struct_def.name.as_str();
        let is_account = crate::size_calculator::metadata_is_account_exec(&struct_def.metadata);
        let needs_partial_eq = self.needs_partial_eq_derive(struct_def);
        let arithmetic_fields = self.collect_arithmetic_fields(struct_def);
        let ghost arith = arithmetic_fields@.map_values(|s: String| s@);

        let mut code = String::from_str(
            "#![no_main]\nuse libfuzzer_sys::fuzz_target;\nuse borsh::{BorshSerialize, BorshDeserialize};\n\n",
        );
        if is_account {
            code.append("use anchor_lang::prelude::*;\n");
        }
        code.append("use generated::");
        code.append(tname);
        code.append(";\n\n");
        code.append("fuzz_target!(|data: &[u8]| {\n");
        code.append("    if let Ok(instance) = ");
        code.append(tname);
        code.append("::try_from_slice(data) {\n");
        code.append("        // Round-trip: serialize, deserialize, compare\n");
        code.append(
            "        let serialized = instance.try_to_vec().expect(\"serialization should succeed\");\n",
        );
        code.append("        let deserialized = ");
        code.append(tname);
        code.append("::try_from_slice(&serialized)\n");
        code.append("            .expect(\"round-trip deserialization should succeed\");\n\n");
        if needs_partial_eq {
            code.append(
                "        assert_eq!(instance, deserialized, \"round-trip should preserve data\");\n\n",
            );
        }
        code.append(
            "        assert!(serialized.len() <= 10_485_760, \"serialized size must not exceed 10MB\");\n\n",
        );
        let ghost mid = code@;
        let mut i: usize = 0;
        while i < arithmetic_fields.len()
            invariant
                i <= arithmetic_fields.len(),
                arith == arithmetic_fields@.map_values(|s: String| s@),
                arith.len() == arithmetic_fields@.len(),
                code@ + spec_arith_lines(arith, i as int) == mid + spec_arith_lines(arith, 0),
            decreases arithmetic_fields.len() - i,
        {
            let ghost before = code@;
            code.append("        // Check ");
            code.append(arithmetic_fields[i].as_str());
            code.append(" is within reasonable bounds\n        let _ = instance.");
            code.append(arithmetic_fields[i].as_str());
            code.append(";\n");
            assert(code@ =~= before + ("        // Check "@ + arith[i as int]
                + " is within reasonable bounds\n        let _ = instance."@ + arith[i as int]
                + ";\n"@));
            assert(before + spec_arith_lines(arith, i as int) =~= code@ + spec_arith_lines(
                arith,
                i + 1,
            ));
            i = i + 1;
        }
        if is_account {
            code.append(
                "        assert!(serialized.len() >= 8, \"account data should include discriminator\");\n",
            );
        }
        code.append("    }\n});\n");
        assert(code@ =~= spec_struct_code(
            struct_def@.name,
            spec_is_account(struct_def@.metadata.attributes),
            spec_needs_partial_eq(struct_def@.fields),
            arith,
        ));

        let mut name = String::from_str("fuzz_");
        let snake = to_snake_case(tname);
        name.append(snake.as_str());
        assert(name@ =~= spec_target_name(struct_def@.name));
        FuzzTarget { name, type_ident: struct_def.name.clone(), code, needs_partial_eq }
    }

    /// The fuzz harness of one enum.
    pub fn generate_enum_target(&self, enum_def: &EnumDefinition) -> (r: FuzzTarget)
        ensures
            r@.name == spec_target_name(enum_def@.name),
            r@.type_ident == enum_def@.name,
            r@.needs_partial_eq == true,
            r@.code == spec_enum_code(enum_def@.name),
    {
        let tname = enum_def.name.as_str();
        let mut code = String::from_str(
            "#![no_main]\nuse libfuzzer_sys::fuzz_target;\nuse borsh::{BorshSerialize, BorshDeserialize};\n\n",
        );
        code.append("use generated::");
        code.append(tname);
        code.append(";\n\n");
        code.append("fuzz_target!(|data: &[u8]| {\n");
        code.append("    if let Ok(instance) = ");
        code.append(tname);
        code.append("::try_from_slice(data) {\n");
        code.append("        // Round-trip: serialize, deserialize, compare\n");
        code.append(
            "        let serialized = instance.try_to_vec().expect(\"serialization should succeed\");\n",
        );
        code.append("        let deserialized = ");
        code.append(tname);
        code.append("::try_from_slice(&serialized)\n");
        code.append("            .expect(\"round-trip deserialization should succeed\");\n\n");
        code.append("        // The first bytes carry the enum discriminant\n");
        code.append(
            "        assert!(!serialized.is_empty(), \"enum serialization should not be empty\");\n",
        );
        code.append("    }\n});\n");
        assert(code@ =~= spec_enum_code(enum_def@.name));

        let mut name = String::from_str("fuzz_");
        let snake = to_snake_case(tname);
        name.append(snake.as_str());
        assert(name@ =~= spec_target_name(enum_def@.name));
        FuzzTarget { name, type_ident: enum_def.name.clone(), code, needs_partial_eq: true }
    }

    /// One fuzz harness per definition, in declaration order.
    pub fn generate_all(&self) -> (r: Vec<FuzzTarget>)
        ensures
            r@.len() == self.type_defs@.len(),
            forall|i: int|
                0 <= i < r@.len() ==> (#[trigger] r@[i])@.name == spec_target_name(
                    view_defs(self.type_defs@)[i].spec_name(),
                ) && r@[i]@.type_ident == view_defs(self.type_defs@)[i].spec_name(),
            forall|i: int|
                0 <= i < r@.len() ==> (#[trigger] r@[i])@.needs_partial_eq == (
                match view_defs(self.type_defs@)[i] {
                    TypeDefinitionV::Struct(s) => spec_needs_partial_eq(s.fields),
                    TypeDefinitionV::Enum(_) => true,
                }),
            forall|i: int|
                0 <= i < r@.len() ==> (#[trigger] r@[i])@.code == (
                match view_defs(self.type_defs@)[i] {
                    TypeDefinitionV::Struct(s) => spec_struct_code(
                        s.name,
                        spec_is_account(s.metadata.attributes),
                        spec_needs_partial_eq(s.fields),
                        spec_arith_fields(s.fields, 0),
                    ),
                    TypeDefinitionV::Enum(e) => spec_enum_code(e.name),
                }),
    {
        let ghost dv = view_defs(self.type_defs@);
        let mut targets: Vec<FuzzTarget> = Vec::new();
        let mut i: usize = 0;
        while i < self.type_defs.len()
            invariant
                i <= self.type_defs@.len(),
                dv == view_defs(self.type_defs@),
                dv.len() == self.type_defs@.len(),
                targets@.len() == i,
                forall|j: int|
                    0 <= j < i ==> (#[trigger] targets@[j])@.name == spec_target_name(
                        dv[j].spec_name(),
                    ) && targets@[j]@.type_ident == dv[j].spec_name(),
                forall|j: int|
                    0 <= j < i ==> (#[trigger] targets@[j])@.needs_partial_eq == (match dv[j] {
                        TypeDefinitionV::Struct(s) => spec_needs_partial_eq(s.fields),
                        TypeDefinitionV::Enum(_) => true,
                    }),
                forall|j: int|
                    0 <= j < i ==> (#[trigger] targets@[j])@.code == (match dv[j] {
                        TypeDefinitionV::Struct(s) => spec_struct_code(
                            s.name,
                            spec_is_account(s.metadata.attributes),
                            spec_needs_partial_eq(s.fields),
                            spec_arith_fields(s.fields, 0),
                        ),
                        TypeDefinitionV::Enum(e) => spec_enum_code(e.name),
                    }),
            decreases self.type_defs.len() - i,
        {
            let d = &self.type_defs[i];
            assert(d@ == dv[i as int]);
            match d {
                TypeDefinition::Struct(s) => {
                    targets.push(self.generate_struct_target(s));
                },
                TypeDefinition::Enum(e) => {
                    targets.push(self.generate_enum_target(e));
                },
            }
            i = i + 1;
        }
        targets
    }

    /// The manifest of the fuzz crate for a project of the given name.
    pub fn generate_cargo_toml(&self, crate_name: &str) -> (r: String)
        ensures
            r@ == spec_cargo_toml(crate_name@),
    {
        let mut s = String::from_str("[package]\nname = \"");
        s.append(crate_name);
        s.append("-fuzz\"\nversion = \"0.0.0\"\nedition = \"2021\"\npublish = false\n\n");
        s.append("[package.metadata]\ncargo-fuzz = true\n\n");
        s.append(
            "[dependencies]\nlibfuzzer-sys = \"0.4\"\nborsh = { version = \"1.5\", features = [\"derive\"] }\nanchor-lang = \"0.30\"\ngenerated = { path = \"..\" }\n",
        );
        assert(s@ =~= spec_cargo_toml(crate_name@));
        s
    }

    /// The guide for the fuzz directory.
    pub fn generate_readme(&self) -> (r: String)
        ensures
            r@ == spec_readme(),
    {
        let mut s = String::from_str("# Fuzz Testing\n\nGenerated fuzz targets for the generated code.\n\n");
        s.append("## Running\n\n```bash\ncargo fuzz list\ncargo fuzz run target_name\n```\n\n");
        s.append(
            "## What is tested\n\n- Round-trip integrity: serialize, deserialize, compare\n- Size limits: data fits within the 10MB account limit\n- Discriminator presence for account types\n- Bounds of arithmetic-prone fields\n\n",
        );
        s.append(
            "## Corpus\n\nSeed inputs live in the corpus directory; crash artifacts are saved beside them when failures occur.\n",
        );
        assert(s@ =~= spec_readme());
        s
    }

    /// The names of every definition, in declaration order.
    pub fn get_type_names(&self) -> (r: Vec<String>)
        ensures
            r@.map_values(|s: String| s@) == names_seq(view_defs(self.type_defs@)),
    {
        let ghost dv = view_defs(self.type_defs@);
        let mut out: Vec<String> = Vec::new();
        let mut i: usize = 0;
        while i < self.type_defs.len()
            invariant
                i <= self.type_defs@.len(),
                dv == view_defs(self.type_defs@),
                dv.len() == self.type_defs@.len(),
                out@.len() == i,
                forall|j: int| 0 <= j < i ==> (#[trigger] out@[j])@ == dv[j].spec_name(),
            decreases self.type_defs.len() - i,
        {
            let name = match &self.type_defs[i] {
                TypeDefinition::Struct(s) => s.name.clone(),
                TypeDefinition::Enum(e) => e.name.clone(),
            };
            assert(name@ == dv[i as int].spec_name());
            out.push(name);
            i = i + 1;
        }
        assert(out@.map_values(|s: String| s@) =~= names_seq(dv));
        out
    }

    /// Whether a definition of the given name exists.
    pub fn type_exists(&self, tname: &str) -> (r: bool)
        ensures
            r == names_set(names_seq(view_defs(self.type_defs@))).contains(tname@),
    {
        let ghost dv = view_defs(self.type_defs@);
        let mut i: usize = 0;
        while i < self.type_defs.len()
            invariant
                i <= self.type_defs@.len(),
                dv == view_defs(self.type_defs@),
                dv.len() == self.type_defs@.len(),
                forall|j: int| 0 <= j < i ==> dv[j].spec_name() != tname@,
            decreases self.type_defs.len() - i,
        {
            let found = match &self.type_defs[i] {
                TypeDefinition::Struct(s) => str_eq(s.name.as_str(), tname),
                TypeDefinition::Enum(e) => str_eq(e.name.as_str(), tname),
            };
            assert(self.type_defs@[i as int]@ == dv[i as int]);
            if found {
                assert(names_seq(dv)[i as int] == tname@);
                assert(names_seq(dv).contains(tname@));
                return true;
            }
            i = i + 1;
        }
        assert(forall|j: int| 0 <= j < names_seq(dv).len() ==> names_seq(dv)[j] != tname@);
        assert(!names_seq(dv).contains(tname@));
        false
    }
}

} // verus!
