//! Security analyzer: static heuristics over the IR that flag common
//! on-chain vulnerability patterns before code generation.
//!
//! The analyzer is a pure function of the IR and the strictness flag; its
//! findings come out ordered by severity, most severe first, with the
//! per-struct discovery order kept within each severity.

use vstd::prelude::*;
use crate::ir::{
    FieldDefinitionV, StructDefinition, StructDefinitionV, TypeDefinition, TypeDefinitionV,
    TypeInfo, TypeInfoV, view_defs,
};
use crate::size_calculator::spec_is_account;
use crate::strutil::{
    has_substring, spec_ends_with, spec_lower, spec_starts_with, contains_sub, str_ends_with,
    str_eq, str_starts_with, to_ascii_lowercase,
};

verus! {

/// Severity level of a security finding, least severe first.
#[derive(Debug, Clone, PartialEq, Eq, PartialOrd, Ord)]
pub enum Severity {
    /// Informational finding: a best-practice recommendation.
    Info,
    /// Warning: a potential issue that should be reviewed.
    Warning,
    /// Critical: a vulnerability that must be fixed.
    Critical,
}

/// The kind of vulnerability detected.
#[derive(Debug, Clone, PartialEq, Eq)]
pub enum VulnerabilityType {
    /// Missing signer check for an authority field.
    MissingSigner,
    /// Integer overflow or underflow risk.
    IntegerOverflow,
    /// Missing owner validation.
    MissingOwnerValidation,
    /// Account may be uninitialized.
    UninitializedAccount,
    /// Re-initialization vulnerability.
    ReInitialization,
    /// Unchecked account data.
    UncheckedAccountData,
    /// No discriminator: not an account struct.
    NoDiscriminator,
    /// Arithmetic-prone fields without checked math.
    UncheckedArithmetic,
}

/// A security finding from analysis.
#[derive(Debug, Clone, PartialEq)]
pub struct SecurityFinding {
    /// Severity level.
    pub severity: Severity,
    /// Kind of vulnerability.
    pub vulnerability: VulnerabilityType,
    /// Location of the finding.
    pub location: Location,
    /// Human-readable message.
    pub message: String,
    /// Suggested fix.
    pub suggestion: String,
}

/// Location of a finding in the schema.
#[derive(Debug, Clone, PartialEq)]
pub struct Location {
    /// Type name.
    pub type_ident: String,
    /// Field name, if the finding is about one field.
    pub field_name: Option<String>,
}

/// Ghost view of a finding.
pub struct SecurityFindingV {
    pub severity: Severity,
    pub vulnerability: VulnerabilityType,
    pub type_ident: Seq<char>,
    pub field_name: Option<Seq<char>>,
    pub message: Seq<char>,
    pub suggestion: Seq<char>,
}

impl View for SecurityFinding {
    type V = SecurityFindingV;

    open spec fn view(&self) -> SecurityFindingV {
        SecurityFindingV {
            severity: self.severity,
            vulnerability: self.vulnerability,
            type_ident: self.location.type_ident@,
            field_name: match self.location.field_name {
                Some(ref f) => Some(f@),
                None => None,
            },
            message: self.message@,
            suggestion: self.suggestion@,
        }
    }
}

/// Whether a field name names an authority: one of the authority keywords
/// stands alone, as a prefix or suffix around an underscore, or between
/// underscores, case-insensitively.
pub open spec fn spec_is_authority(name: Seq<char>) -> bool {
    let lower = spec_lower(name);
    ||| spec_kw(lower, "authority"@, "authority_"@, "_authority"@, "_authority_"@)
    ||| spec_kw(lower, "admin"@, "admin_"@, "_admin"@, "_admin_"@)
    ||| spec_kw(lower, "owner"@, "owner_"@, "_owner"@, "_owner_"@)
    ||| spec_kw(lower, "signer"@, "signer_"@, "_signer"@, "_signer_"@)
    ||| spec_kw(lower, "payer"@, "payer_"@, "_payer"@, "_payer_"@)
    ||| spec_kw(lower, "creator"@, "creator_"@, "_creator"@, "_creator_"@)
    ||| spec_kw(lower, "minter"@, "minter_"@, "_minter"@, "_minter_"@)
    ||| spec_kw(lower, "updater"@, "updater_"@, "_updater"@, "_updater_"@)
}

/// One keyword's match rule: exact, prefix, suffix, or in the middle.
pub open spec fn spec_kw(
    lower: Seq<char>,
    exact: Seq<char>,
    pre: Seq<char>,
    suf: Seq<char>,
    mid: Seq<char>,
) -> bool {
    ||| lower == exact
    ||| spec_starts_with(lower, pre)
    ||| spec_ends_with(lower, suf)
    ||| has_substring(lower, mid)
}

fn kw_match(lower: &str, exact: &str, pre: &str, suf: &str, mid: &str) -> (r: bool)
    ensures
        r == spec_kw(lower@, exact@, pre@, suf@, mid@),
{
    str_eq(lower, exact) || str_starts_with(lower, pre) || str_ends_with(lower, suf)
        || contains_sub(lower, mid)
}

/// Whether a field name suggests it takes part in arithmetic: one of the
/// arithmetic keywords occurs in it, case-insensitively.
pub open spec fn spec_is_arithmetic_name(name: Seq<char>) -> bool {
    let lower = spec_lower(name);
    ||| has_substring(lower, "balance"@)
    ||| has_substring(lower, "amount"@)
    ||| has_substring(lower, "supply"@)
    ||| has_substring(lower, "total"@)
    ||| has_substring(lower, "count"@)
    ||| has_substring(lower, "price"@)
    ||| has_substring(lower, "value"@)
    ||| has_substring(lower, "reward"@)
    ||| has_substring(lower, "stake"@)
    ||| has_substring(lower, "fee"@)
    ||| has_substring(lower, "lamport"@)
}

/// Whether a type is one of the integer primitives that arithmetic findings
/// apply to.
pub open spec fn spec_is_numeric(t: TypeInfoV) -> bool {
    match t {
        TypeInfoV::Primitive(n) => n == "u64"@ || n == "u128"@ || n == "i64"@ || n == "i128"@ || n
            == "u32"@ || n == "i32"@ || n == "u16"@ || n == "i16"@,
        _ => false,
    }
}

/// Whether a type is a large integer primitive.
pub open spec fn spec_is_large_integer(t: TypeInfoV) -> bool {
    match t {
        TypeInfoV::Primitive(n) => n == "u64"@ || n == "u128"@ || n == "i64"@ || n == "i128"@,
        _ => false,
    }
}

/// Whether a type is the key primitive.
pub open spec fn spec_is_key_type(t: TypeInfoV) -> bool {
    match t {
        TypeInfoV::Primitive(n) => n == "PublicKey"@ || n == "Pubkey"@,
        _ => false,
    }
}

/// Whether a struct carries an initialization flag: a boolean field whose
/// lowered name mentions initialization.
pub open spec fn spec_has_init_flag(fields: Seq<FieldDefinitionV>) -> bool {
    exists|i: int|
        0 <= i < fields.len() && (has_substring(spec_lower(#[trigger] fields[i].name), "initialized"@)
            || has_substring(spec_lower(fields[i].name), "init"@)) && (match fields[i].type_info {
            TypeInfoV::Primitive(n) => n == "bool"@,
            _ => false,
        })
}

/// Whether a field name names an authority.
pub(crate) fn is_authority_name(field_name: &str) -> (r: bool)
    ensures
        r == spec_is_authority(field_name@),
{
    let lower = to_ascii_lowercase(field_name);
    let l = lower.as_str();
    kw_match(l, "authority", "authority_", "_authority", "_authority_") || kw_match(
        l,
        "admin",
        "admin_",
        "_admin",
        "_admin_",
    ) || kw_match(l, "owner", "owner_", "_owner", "_owner_") || kw_match(
        l,
        "signer",
        "signer_",
        "_signer",
        "_signer_",
    ) || kw_match(l, "payer", "payer_", "_payer", "_payer_") || kw_match(
        l,
        "creator",
        "creator_",
        "_creator",
        "_creator_",
    ) || kw_match(l, "minter", "minter_", "_minter", "_minter_") || kw_match(
        l,
        "updater",
        "updater_",
        "_updater",
        "_updater_",
    )
}

/// Whether an arithmetic keyword occurs in a field name.
pub(crate) fn is_arithmetic_name_exec(field_name: &str) -> (r: bool)
    ensures
        r == spec_is_arithmetic_name(field_name@),
{
    let lower = to_ascii_lowercase(field_name);
    let l = lower.as_str();
    contains_sub(l, "balance") || contains_sub(l, "amount") || contains_sub(l, "supply")
        || contains_sub(l, "total") || contains_sub(l, "count") || contains_sub(l, "price")
        || contains_sub(l, "value") || contains_sub(l, "reward") || contains_sub(l, "stake")
        || contains_sub(l, "fee") || contains_sub(l, "lamport")
}

/// Whether a type is one of the integer primitives.
pub(crate) fn is_numeric_exec(type_info: &TypeInfo) -> (r: bool)
    ensures
        r == spec_is_numeric(type_info@),
{
    match type_info {
        TypeInfo::Primitive(n) => {
            let s = n.as_str();
            str_eq(s, "u64") || str_eq(s, "u128") || str_eq(s, "i64") || str_eq(s, "i128")
                || str_eq(s, "u32") || str_eq(s, "i32") || str_eq(s, "u16") || str_eq(s, "i16")
        },
        _ => false,
    }
}

/// The findings one field contributes, in discovery order: the authority
/// check, the strict-mode owner check, the arithmetic check, and the
/// strict-mode large-integer note.
pub open spec fn spec_field_findings(
    sname: Seq<char>,
    f: FieldDefinitionV,
    strict: bool,
) -> Seq<SecurityFindingV> {
    (if spec_is_authority(f.name) {
        seq![
            SecurityFindingV {
                severity: Severity::Critical,
                vulnerability: VulnerabilityType::MissingSigner,
                type_ident: sname,
                field_name: Some(f.name),
                message: "Field '"@ + f.name
                    + "' appears to be an authority but lacks explicit signer validation"@,
                suggestion:
                    "Ensure this field requires signer validation in your program: use a signer account type or add a manual signer check."@,
            },
        ]
    } else {
        Seq::empty()
    }) + (if strict && f.name == "owner"@ && spec_is_key_type(f.type_info) {
        seq![
            SecurityFindingV {
                severity: Severity::Warning,
                vulnerability: VulnerabilityType::MissingOwnerValidation,
                type_ident: sname,
                field_name: Some(f.name),
                message: "Owner field requires validation to prevent unauthorized access"@,
                suggestion:
                    "Validate that the transaction signer matches the owner field before state mutations"@,
            },
        ]
    } else {
        Seq::empty()
    }) + (if spec_is_arithmetic_name(f.name) && spec_is_numeric(f.type_info) {
        seq![
            SecurityFindingV {
                severity: Severity::Warning,
                vulnerability: VulnerabilityType::UncheckedArithmetic,
                type_ident: sname,
                field_name: Some(f.name),
                message: "Field '"@ + f.name + "' is arithmetic-prone and may overflow/underflow"@,
                suggestion:
                    "Use checked arithmetic operations (checked_add, checked_sub, checked_mul) to prevent integer overflow/underflow vulnerabilities"@,
            },
        ]
    } else {
        Seq::empty()
    }) + (if strict && spec_is_large_integer(f.type_info) {
        seq![
            SecurityFindingV {
                severity: Severity::Info,
                vulnerability: VulnerabilityType::IntegerOverflow,
                type_ident: sname,
                field_name: Some(f.name),
                message: "Large integer field '"@ + f.name + "' - consider overflow protection"@,
                suggestion:
                    "Ensure arithmetic operations on this field use checked math or saturating operations"@,
            },
        ]
    } else {
        Seq::empty()
    })
}

/// The field findings from the given index on.
pub open spec fn spec_fields_findings(
    sname: Seq<char>,
    fields: Seq<FieldDefinitionV>,
    strict: bool,
    i: int,
) -> Seq<SecurityFindingV>
    decreases fields.len() - i,
{
    if i < 0 || i >= fields.len() {
        Seq::empty()
    } else {
        spec_field_findings(sname, fields[i], strict) + spec_fields_findings(
            sname,
            fields,
            strict,
            i + 1,
        )
    }
}

/// The findings of one struct: the missing-discriminator warning, each
/// field's findings in order, then the strict-mode re-initialization
/// warning.
pub open spec fn spec_struct_findings(s: StructDefinitionV, strict: bool) -> Seq<
    SecurityFindingV,
> {
    (if s.metadata.solana && !spec_is_account(s.metadata.attributes) {
        seq![
            SecurityFindingV {
                severity: Severity::Warning,
                vulnerability: VulnerabilityType::NoDiscriminator,
                type_ident: s.name,
                field_name: None,
                message: "Struct '"@ + s.name
                    + "' is marked #[solana] but not #[account] - missing discriminator protection"@,
                suggestion:
                    "Add #[account] attribute to enable discriminator protection against type confusion attacks"@,
            },
        ]
    } else {
        Seq::empty()
    }) + spec_fields_findings(s.name, s.fields, strict, 0) + (
    if strict && spec_is_account(s.metadata.attributes) && !spec_has_init_flag(s.fields) {
        seq![
            SecurityFindingV {
                severity: Severity::Warning,
                vulnerability: VulnerabilityType::ReInitialization,
                type_ident: s.name,
                field_name: None,
                message:
                    "Account lacks explicit initialization flag - vulnerable to re-initialization attacks"@,
                suggestion:
                    "Add an 'is_initialized' boolean field or an init constraint to prevent re-initialization"@,
            },
        ]
    } else {
        Seq::empty()
    })
}

/// The unsorted findings of the definitions from the given index on; enums
/// contribute none.
pub open spec fn spec_all_findings(defs: Seq<TypeDefinitionV>, strict: bool, i: int) -> Seq<
    SecurityFindingV,
>
    decreases defs.len() - i,
{
    if i < 0 || i >= defs.len() {
        Seq::empty()
    } else {
        (match defs[i] {
            TypeDefinitionV::Struct(s) => spec_struct_findings(s, strict),
            TypeDefinitionV::Enum(_) => Seq::empty(),
        }) + spec_all_findings(defs, strict, i + 1)
    }
}

/// The findings of one severity, in discovery order.
pub open spec fn spec_findings_of(fs: Seq<SecurityFindingV>, sev: Severity) -> Seq<
    SecurityFindingV,
>
    decreases fs.len(),
{
    if fs.len() == 0 {
        Seq::empty()
    } else {
        (if fs[0].severity == sev {
            seq![fs[0]]
        } else {
            Seq::empty()
        }) + spec_findings_of(fs.skip(1), sev)
    }
}

/// All findings ordered by severity, most severe first, stable within one
/// severity.
pub open spec fn spec_analyze(defs: Seq<TypeDefinitionV>, strict: bool) -> Seq<SecurityFindingV> {
    let all = spec_all_findings(defs, strict, 0);
    spec_findings_of(all, Severity::Critical) + spec_findings_of(all, Severity::Warning)
        + spec_findings_of(all, Severity::Info)
}

/// Security analyzer over an immutable list of type definitions.
pub struct SecurityAnalyzer<'a> {
    /// All type definitions.
    pub type_defs: &'a Vec<TypeDefinition>,
    /// Whether strict mode (more aggressive warnings) is on.
    pub strict_mode: bool,
}

fn finding(
    severity: Severity,
    vulnerability: VulnerabilityType,
    type_ident: &str,
    field_name: Option<&str>,
    message: String,
    suggestion: &str,
) -> (r: SecurityFinding)
    ensures
        r@ == (SecurityFindingV {
            severity,
            vulnerability,
            type_ident: type_ident@,
            field_name: match field_name {
                Some(f) => Some(f@),
                None => None,
            },
            message: message@,
            suggestion: suggestion@,
        }),
{
    SecurityFinding {
        severity,
        vulnerability,
        location: Location {
            type_ident: type_ident.to_owned(),
            field_name: match field_name {
                Some(f) => Some(f.to_owned()),
                None => None,
            },
        },
        message,
        suggestion: suggestion.to_owned(),
    }
}

fn quoted_message(pre: &str, name: &str, post: &str) -> (r: String)
    ensures
        r@ == pre@ + name@ + post@,
{
    let mut s = pre.to_owned();
    s.append(name);
    s.append(post);
    assert(s@ =~= pre@ + name@ + post@);
    s
}

impl<'a> SecurityAnalyzer<'a> {
    /// Create a new analyzer in permissive mode.
    pub fn new(type_defs: &'a Vec<TypeDefinition>) -> (r: Self)
        ensures
            r.type_defs@ == type_defs@,
            r.strict_mode == false,
    {
        SecurityAnalyzer { type_defs, strict_mode: false }
    }

    /// The same analyzer with strict mode (more aggressive warnings) on.
    pub fn with_strict_mode(self) -> (r: Self)
        ensures
            r.type_defs@ == self.type_defs@,
            r.strict_mode == true,
    {
        SecurityAnalyzer { type_defs: self.type_defs, strict_mode: true }
    }

    /// Whether a field name names an authority.
    pub fn is_authority_field(&self, field_name: &str) -> (r: bool)
        ensures
            r == spec_is_authority(field_name@),
    {
        is_authority_name(field_name)
    }

    /// Whether a field takes part in arithmetic: an arithmetic keyword in its
    /// name and an integer type.
    pub fn is_arithmetic_field(&self, field_name: &str, type_info: &TypeInfo) -> (r: bool)
        ensures
            r == (spec_is_arithmetic_name(field_name@) && spec_is_numeric(type_info@)),
    {
        is_arithmetic_name_exec(field_name) && is_numeric_exec(type_info)
    }

    /// Whether a type is a large integer.
    pub fn is_large_integer(&self, type_info: &TypeInfo) -> (r: bool)
        ensures
            r == spec_is_large_integer(type_info@),
    {
        match type_info {
            TypeInfo::Primitive(n) => {
                let s = n.as_str();
                str_eq(s, "u64") || str_eq(s, "u128") || str_eq(s, "i64") || str_eq(s, "i128")
            },
            _ => false,
        }
    }

    /// Whether a struct carries an initialization flag.
    pub fn has_initialized_flag(&self, struct_def: &StructDefinition) -> (r: bool)
        ensures
            r == spec_has_init_flag(struct_def@.fields),
    {
        let ghost fv = struct_def.fields@.map_values(
            |f: crate::ir::FieldDefinition| f@,
        );
        let mut i: usize = 0;
        while i < struct_def.fields.len()
            invariant
                i <= struct_def.fields.len(),
                fv == struct_def.fields@.map_values(|f: crate::ir::FieldDefinition| f@),
                fv.len() == struct_def.fields@.len(),
                forall|j: int|
                    0 <= j < i ==> !((has_substring(
                        spec_lower(#[trigger] fv[j].name),
                        "initialized"@,
                    ) || has_substring(spec_lower(fv[j].name), "init"@)) && (match fv[j].type_info {
                        TypeInfoV::Primitive(n) => n == "bool"@,
                        _ => false,
                    })),
            decreases struct_def.fields.len() - i,
        {
            let f = &struct_def.fields[i];
            assert(f@ == fv[i as int]);
            let lower = to_ascii_lowercase(f.name.as_str());
            let named = contains_sub(lower.as_str(), "initialized") || contains_sub(
                lower.as_str(),
                "init",
            );
            let is_bool = match &f.type_info {
                TypeInfo::Primitive(n) => str_eq(n.as_str(), "bool"),
                _ => false,
            };
            if named && is_bool {
                proof {
                    assert((has_substring(spec_lower(fv[i as int].name), "initialized"@)
                        || has_substring(spec_lower(fv[i as int].name), "init"@)) && (
                    match fv[i as int].type_info {
                        TypeInfoV::Primitive(n) => n == "bool"@,
                        _ => false,
                    }));
                    assert(spec_has_init_flag(fv));
                }
                return true;
            }
            i = i + 1;
        }
        false
    }

    fn field_findings(
        &self,
        sname: &str,
        f: &crate::ir::FieldDefinition,
        out: &mut Vec<SecurityFinding>,
    )
        ensures
            final(out)@.map_values(|x: SecurityFinding| x@) == old(out)@.map_values(
                |x: SecurityFinding| x@,
            ) + spec_field_findings(sname@, f@, self.strict_mode),
    {
        let strict = self.strict_mode;
        if self.is_authority_field(f.name.as_str()) {
            let message = quoted_message(
                "Field '",
                f.name.as_str(),
                "' appears to be an authority but lacks explicit signer validation",
            );
            out.push(
                finding(
                    Severity::Critical,
                    VulnerabilityType::MissingSigner,
                    sname,
                    Some(f.name.as_str()),
                    message,
                    "Ensure this field requires signer validation in your program: use a signer account type or add a manual signer check.",
                ),
            );
        }
        if strict && str_eq(f.name.as_str(), "owner") && self.is_key_type(&f.type_info) {
            out.push(
                finding(
                    Severity::Warning,
                    VulnerabilityType::MissingOwnerValidation,
                    sname,
                    Some(f.name.as_str()),
                    String::from_str(
                        "Owner field requires validation to prevent unauthorized access",
                    ),
                    "Validate that the transaction signer matches the owner field before state mutations",
                ),
            );
        }
        if self.is_arithmetic_field(f.name.as_str(), &f.type_info) {
            let message = quoted_message(
                "Field '",
                f.name.as_str(),
                "' is arithmetic-prone and may overflow/underflow",
            );
            out.push(
                finding(
                    Severity::Warning,
                    VulnerabilityType::UncheckedArithmetic,
                    sname,
                    Some(f.name.as_str()),
                    message,
                    "Use checked arithmetic operations (checked_add, checked_sub, checked_mul) to prevent integer overflow/underflow vulnerabilities",
                ),
            );
        }
        if strict && self.is_large_integer(&f.type_info) {
            let message = quoted_message(
                "Large integer field '",
                f.name.as_str(),
                "' - consider overflow protection",
            );
            out.push(
                finding(
                    Severity::Info,
                    VulnerabilityType::IntegerOverflow,
                    sname,
                    Some(f.name.as_str()),
                    message,
                    "Ensure arithmetic operations on this field use checked math or saturating operations",
                ),
            );
        }
        assert(out@.map_values(|x: SecurityFinding| x@) =~= old(out)@.map_values(
            |x: SecurityFinding| x@,
        ) + spec_field_findings(sname@, f@, self.strict_mode));
    }

    fn is_key_type(&self, type_info: &TypeInfo) -> (r: bool)
        ensures
            r == spec_is_key_type(type_info@),
    {
        match type_info {
            TypeInfo::Primitive(n) => str_eq(n.as_str(), "PublicKey") || str_eq(
                n.as_str(),
                "Pubkey",
            ),
            _ => false,
        }
    }

    /// The findings of one struct, in discovery order.
    pub fn analyze_struct(&self, struct_def: &StructDefinition) -> (r: Vec<SecurityFinding>)
        ensures
            r@.map_values(|x: SecurityFinding| x@) == spec_struct_findings(
                struct_def@,
                self.strict_mode,
            ),
    {
        let strict = self.strict_mode;
        let mut findings: Vec<SecurityFinding> = Vec::new();
        let is_account = crate::size_calculator::metadata_is_account_exec(&struct_def.metadata);
        if struct_def.metadata.solana && !is_account {
            let message = quoted_message(
                "Struct '",
                struct_def.name.as_str(),
                "' is marked #[solana] but not #[account] - missing discriminator protection",
            );
            findings.push(
                finding(
                    Severity::Warning,
                    VulnerabilityType::NoDiscriminator,
                    struct_def.name.as_str(),
                    None,
                    message,
                    "Add #[account] attribute to enable discriminator protection against type confusion attacks",
                ),
            );
        }
        let ghost header = findings@.map_values(|x: SecurityFinding| x@);
        let ghost fv = struct_def.fields@.map_values(|f: crate::ir::FieldDefinition| f@);
        let mut i: usize = 0;
        while i < struct_def.fields.len()
            invariant
                i <= struct_def.fields.len(),
                fv == struct_def.fields@.map_values(|f: crate::ir::FieldDefinition| f@),
                fv.len() == struct_def.fields@.len(),
                findings@.map_values(|x: SecurityFinding| x@) + spec_fields_findings(
                    struct_def@.name,
                    fv,
                    self.strict_mode,
                    i as int,
                ) == header + spec_fields_findings(struct_def@.name, fv, self.strict_mode, 0),
                self.strict_mode == strict,
            decreases struct_def.fields.len() - i,
        {
            let ghost before = findings@.map_values(|x: SecurityFinding| x@);
            let f = &struct_def.fields[i];
            assert(f@ == fv[i as int]);
            self.field_findings(struct_def.name.as_str(), f, &mut findings);
            assert(before + spec_fields_findings(struct_def@.name, fv, self.strict_mode, i as int)
                =~= findings@.map_values(|x: SecurityFinding| x@) + spec_fields_findings(
                struct_def@.name,
                fv,
                self.strict_mode,
                i + 1,
            ));
            i = i + 1;
        }
        if strict && is_account && !self.has_initialized_flag(struct_def) {
            findings.push(
                finding(
                    Severity::Warning,
                    VulnerabilityType::ReInitialization,
                    struct_def.name.as_str(),
                    None,
                    String::from_str(
                        "Account lacks explicit initialization flag - vulnerable to re-initialization attacks",
                    ),
                    "Add an 'is_initialized' boolean field or an init constraint to prevent re-initialization",
                ),
            );
        }
        assert(findings@.map_values(|x: SecurityFinding| x@) =~= spec_struct_findings(
            struct_def@,
            self.strict_mode,
        ));
        findings
    }

    /// All findings over the whole IR list, ordered by severity, most severe
    /// first, stable within one severity.
    #[verifier::rlimit(50)]
    pub fn analyze(&self) -> (r: Vec<SecurityFinding>)
        ensures
            r@.map_values(|x: SecurityFinding| x@) == spec_analyze(
                view_defs(self.type_defs@),
                self.strict_mode,
            ),
    {
        let ghost dv = view_defs(self.type_defs@);
        let mut all: Vec<SecurityFinding> = Vec::new();
        let mut i: usize = 0;
        while i < self.type_defs.len()
            invariant
                i <= self.type_defs@.len(),
                dv == view_defs(self.type_defs@),
                dv.len() == self.type_defs@.len(),
                all@.map_values(|x: SecurityFinding| x@) + spec_all_findings(
                    dv,
                    self.strict_mode,
                    i as int,
                ) == spec_all_findings(dv, self.strict_mode, 0),
            decreases self.type_defs.len() - i,
        {
            let ghost before = all@.map_values(|x: SecurityFinding| x@);
            let d = &self.type_defs[i];
            assert(d@ == dv[i as int]);
            match d {
                TypeDefinition::Struct(s) => {
                    let batch = self.analyze_struct(s);
                    let ghost batch_v = batch@;
                    let ghost prior = all@;
                    let mut rest = batch;
                    while rest.len() > 0
                        invariant
                            all@.len() >= prior.len(),
                            all@ =~= prior + batch_v.take(all@.len() - prior.len()),
                            rest@ =~= batch_v.skip(all@.len() - prior.len()),
                            all@.len() - prior.len() + rest@.len() == batch_v.len(),
                        decreases rest.len(),
                    {
                        let ghost k = all@.len() - prior.len();
                        let e = rest.remove(0);
                        assert(e == batch_v[k]);
                        all.push(e);
                        assert(batch_v.take(k + 1) =~= batch_v.take(k).push(batch_v[k]));
                        assert(rest@ =~= batch_v.skip(k + 1));
                    }
                    assert(batch_v.take(batch_v.len() as int) =~= batch_v);
                    assert(all@ =~= prior + batch_v);
                    proof {
                        lemma_findings_map_concat(prior, batch_v);
                    }
                    assert(all@.map_values(|x: SecurityFinding| x@) =~= before
                        + batch_v.map_values(|x: SecurityFinding| x@));
                },
                TypeDefinition::Enum(_) => {},
            }
            assert(before + spec_all_findings(dv, self.strict_mode, i as int) =~= all@.map_values(
                |x: SecurityFinding| x@,
            ) + spec_all_findings(dv, self.strict_mode, i + 1));
            i = i + 1;
        }
        assert(all@.map_values(|x: SecurityFinding| x@) =~= spec_all_findings(
            dv,
            self.strict_mode,
            0,
        ));
        // stable severity buckets: most severe first
        let ghost unsorted = all@.map_values(|x: SecurityFinding| x@);
        let mut sorted: Vec<SecurityFinding> = Vec::new();
        push_of_severity(&all, Severity::Critical, &mut sorted);
        push_of_severity(&all, Severity::Warning, &mut sorted);
        push_of_severity(&all, Severity::Info, &mut sorted);
        assert(sorted@.map_values(|x: SecurityFinding| x@) =~= spec_analyze(
            dv,
            self.strict_mode,
        ));
        sorted
    }
}

proof fn lemma_findings_map_push(prev: Seq<SecurityFinding>, x: SecurityFinding)
    ensures
        prev.push(x).map_values(|f: SecurityFinding| f@) == prev.map_values(
            |f: SecurityFinding| f@,
        ).push(x@),
{
    assert(prev.push(x).map_values(|f: SecurityFinding| f@) =~= prev.map_values(
        |f: SecurityFinding| f@,
    ).push(x@));
}

proof fn lemma_findings_map_concat(a: Seq<SecurityFinding>, b: Seq<SecurityFinding>)
    ensures
        (a + b).map_values(|f: SecurityFinding| f@) == a.map_values(|f: SecurityFinding| f@)
            + b.map_values(|f: SecurityFinding| f@),
{
    assert((a + b).map_values(|f: SecurityFinding| f@) =~= a.map_values(|f: SecurityFinding| f@)
        + b.map_values(|f: SecurityFinding| f@));
}

fn push_of_severity(all: &Vec<SecurityFinding>, sev: Severity, out: &mut Vec<SecurityFinding>)
    ensures
        final(out)@.map_values(|x: SecurityFinding| x@) == old(out)@.map_values(|x: SecurityFinding| x@)
            + spec_findings_of(all@.map_values(|x: SecurityFinding| x@), sev),
{
    let ghost av = all@.map_values(|x: SecurityFinding| x@);
    let ghost start = out@.map_values(|x: SecurityFinding| x@);
    assert(av.skip(0) =~= av);
    let mut i: usize = 0;
    while i < all.len()
        invariant
            i <= all.len(),
            av == all@.map_values(|x: SecurityFinding| x@),
            av.len() == all@.len(),
            out@.map_values(|x: SecurityFinding| x@) + spec_findings_of(av.skip(i as int), sev)
                == start + spec_findings_of(av, sev),
        decreases all.len() - i,
    {
        let ghost before = out@.map_values(|x: SecurityFinding| x@);
        assert(av.skip(i as int)[0] == av[i as int]);
        let matches_sev = severity_eq(&all[i].severity, &sev);
        if matches_sev {
            let ghost prev = out@;
            out.push(all[i].clone_finding());
            proof {
                lemma_findings_map_push(prev, out@.last());
            }
        }
        assert(av.skip(i as int).skip(1) =~= av.skip(i + 1));
        assert(before + spec_findings_of(av.skip(i as int), sev) =~= out@.map_values(
            |x: SecurityFinding| x@,
        ) + spec_findings_of(av.skip(i + 1), sev));
        i = i + 1;
    }
    assert(av.skip(all@.len() as int).len() == 0);
    assert(out@.map_values(|x: SecurityFinding| x@) =~= start + spec_findings_of(av, sev));
}

fn severity_eq(a: &Severity, b: &Severity) -> (r: bool)
    ensures
        r == (a == b),
{
    match (a, b) {
        (Severity::Info, Severity::Info) => true,
        (Severity::Warning, Severity::Warning) => true,
        (Severity::Critical, Severity::Critical) => true,
        _ => false,
    }
}

fn severity_copy(a: &Severity) -> (r: Severity)
    ensures
        r == *a,
{
    match a {
        Severity::Info => Severity::Info,
        Severity::Warning => Severity::Warning,
        Severity::Critical => Severity::Critical,
    }
}

fn vulnerability_copy(a: &VulnerabilityType) -> (r: VulnerabilityType)
    ensures
        r == *a,
{
    match a {
        VulnerabilityType::MissingSigner => VulnerabilityType::MissingSigner,
        VulnerabilityType::IntegerOverflow => VulnerabilityType::IntegerOverflow,
        VulnerabilityType::MissingOwnerValidation => VulnerabilityType::MissingOwnerValidation,
        VulnerabilityType::UninitializedAccount => VulnerabilityType::UninitializedAccount,
        VulnerabilityType::ReInitialization => VulnerabilityType::ReInitialization,
        VulnerabilityType::UncheckedAccountData => VulnerabilityType::UncheckedAccountData,
        VulnerabilityType::NoDiscriminator => VulnerabilityType::NoDiscriminator,
        VulnerabilityType::UncheckedArithmetic => VulnerabilityType::UncheckedArithmetic,
    }
}

impl SecurityFinding {
    fn clone_finding(&self) -> (r: Self)
        ensures
            r@ == self@,
    {
        SecurityFinding {
            severity: severity_copy(&self.severity),
            vulnerability: vulnerability_copy(&self.vulnerability),
            location: Location {
                type_ident: self.location.type_ident.clone(),
                field_name: match &self.location.field_name {
                    Some(f) => Some(f.clone()),
                    None => None,
                },
            },
            message: self.message.clone(),
            suggestion: self.suggestion.clone(),
        }
    }
}

impl Severity {
    /// The display name of a severity.
    pub fn as_str(&self) -> (r: &str)
        ensures
            r@ == (match *self {
                Severity::Info => "INFO"@,
                Severity::Warning => "WARNING"@,
                Severity::Critical => "CRITICAL"@,
            }),
    {
        match self {
            Severity::Info => "INFO",
            Severity::Warning => "WARNING",
            Severity::Critical => "CRITICAL",
        }
    }

    /// A one-character marker for a severity, for plain-text listings.
    pub fn emoji(&self) -> (r: &str)
        ensures
            r@ == (match *self {
                Severity::Info => "i"@,
                Severity::Warning => "!"@,
                Severity::Critical => "X"@,
            }),
    {
        match self {
            Severity::Info => "i",
            Severity::Warning => "!",
            Severity::Critical => "X",
        }
    }
}

impl VulnerabilityType {
    /// The display name of a vulnerability kind.
    pub fn as_str(&self) -> (r: &str)
        ensures
            r@ == (match *self {
                VulnerabilityType::MissingSigner => "Missing Signer Check"@,
                VulnerabilityType::IntegerOverflow => "Integer Overflow Risk"@,
                VulnerabilityType::MissingOwnerValidation => "Missing Owner Validation"@,
                VulnerabilityType::UninitializedAccount => "Uninitialized Account"@,
                VulnerabilityType::ReInitialization => "Re-initialization Risk"@,
                VulnerabilityType::UncheckedAccountData => "Unchecked Account Data"@,
                VulnerabilityType::NoDiscriminator => "No Discriminator"@,
                VulnerabilityType::UncheckedArithmetic => "Unchecked Arithmetic"@,
            }),
    {
        match self {
            VulnerabilityType::MissingSigner => "Missing Signer Check",
            VulnerabilityType::IntegerOverflow => "Integer Overflow Risk",
            VulnerabilityType::MissingOwnerValidation => "Missing Owner Validation",
            VulnerabilityType::UninitializedAccount => "Uninitialized Account",
            VulnerabilityType::ReInitialization => "Re-initialization Risk",
            VulnerabilityType::UncheckedAccountData => "Unchecked Account Data",
            VulnerabilityType::NoDiscriminator => "No Discriminator",
            VulnerabilityType::UncheckedArithmetic => "Unchecked Arithmetic",
        }
    }
}

} // verus!
