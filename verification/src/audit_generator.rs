//! Security audit checklist generator: derives a manual-review checklist
//! from the IR.
//!
//! The checklist is a pure function of the IR; it comes out ordered by
//! priority, most urgent first, with the per-struct discovery order kept
//! within one priority.

use vstd::prelude::*;
use crate::ir::{
    FieldDefinitionV, StructDefinition, StructDefinitionV, TypeDefinition, TypeDefinitionV,
    TypeInfo, view_defs,
};
use crate::security_analyzer::{
    is_arithmetic_name_exec, is_authority_name, is_numeric_exec, spec_is_arithmetic_name,
    spec_is_authority, spec_is_key_type, spec_is_numeric,
};
use crate::size_calculator::spec_is_account;
use crate::strutil::str_eq;

verus! {

/// A single checklist item.
#[derive(Debug, Clone, PartialEq)]
pub struct ChecklistItem {
    /// Category of the check.
    pub category: CheckCategory,
    /// Priority level.
    pub priority: Priority,
    /// The checklist item text.
    pub item: String,
    /// Which type or field this applies to.
    pub context: String,
    /// Detailed explanation.
    pub explanation: String,
}

/// Category of a security check.
#[derive(Debug, Clone, PartialEq, Eq, Hash)]
pub enum CheckCategory {
    AccountValidation,
    SignerChecks,
    ArithmeticSafety,
    AccessControl,
    StateTransition,
    DataValidation,
    RentExemption,
    Initialization,
}

/// Priority level of a checklist item, most urgent first.
#[derive(Debug, Clone, PartialEq, Eq, PartialOrd, Ord)]
pub enum Priority {
    Critical,
    High,
    Medium,
    Low,
}

/// Ghost view of a checklist item.
pub struct ChecklistItemV {
    pub category: CheckCategory,
    pub priority: Priority,
    pub item: Seq<char>,
    pub context: Seq<char>,
    pub explanation: Seq<char>,
}

impl View for ChecklistItem {
    type V = ChecklistItemV;

    open spec fn view(&self) -> ChecklistItemV {
        ChecklistItemV {
            category: self.category,
            priority: self.priority,
            item: self.item@,
            context: self.context@,
            explanation: self.explanation@,
        }
    }
}

/// A checklist item made of constant texts.
pub open spec fn fixed_item(
    category: CheckCategory,
    priority: Priority,
    item: Seq<char>,
    context: Seq<char>,
    explanation: Seq<char>,
) -> ChecklistItemV {
    ChecklistItemV { category, priority, item, context, explanation }
}

/// The account-validation items of an account struct.
pub open spec fn spec_account_items(sname: Seq<char>) -> Seq<ChecklistItemV> {
    seq![
        fixed_item(
            CheckCategory::AccountValidation,
            Priority::Critical,
            "Verify account ownership (program owns the account)"@,
            sname,
            "Ensure the account is owned by the program to prevent attacks where an attacker passes an account owned by a different program."@,
        ),
        fixed_item(
            CheckCategory::AccountValidation,
            Priority::Critical,
            "Validate account discriminator"@,
            sname,
            "The 8-byte discriminator prevents type confusion attacks. Verify it's checked on deserialization."@,
        ),
        fixed_item(
            CheckCategory::Initialization,
            Priority::High,
            "Check account is initialized before use"@,
            sname,
            "Verify the account has been properly initialized and is not in an uninitialized state."@,
        ),
        fixed_item(
            CheckCategory::RentExemption,
            Priority::Medium,
            "Verify account has sufficient lamports for rent exemption"@,
            sname,
            "Ensure the account has enough lamports to remain rent-exempt and won't be garbage collected."@,
        ),
    ]
}

/// The dotted context of a field: `Type::field`.
pub open spec fn spec_field_context(sname: Seq<char>, fname: Seq<char>) -> Seq<char> {
    sname + "::"@ + fname
}

/// The items one field contributes, in discovery order: the signer pair for
/// an authority name, the arithmetic pair for an arithmetic integer, the
/// owner check, the key-validation check, the array pair, and the optional
/// check.
pub open spec fn spec_field_items(sname: Seq<char>, f: FieldDefinitionV) -> Seq<ChecklistItemV> {
    let ctx = spec_field_context(sname, f.name);
    (if spec_is_authority(f.name) {
        seq![
            fixed_item(
                CheckCategory::SignerChecks,
                Priority::Critical,
                "Verify '"@ + f.name + "' field requires signer"@,
                ctx,
                "Authority fields must validate that the transaction is signed by the corresponding private key."@,
            ),
            fixed_item(
                CheckCategory::AccessControl,
                Priority::Critical,
                "Ensure only '"@ + f.name + "' can perform privileged operations"@,
                ctx,
                "Implement proper access control checks to prevent unauthorized users from executing privileged functions."@,
            ),
        ]
    } else {
        Seq::empty()
    }) + (if spec_is_arithmetic_name(f.name) && spec_is_numeric(f.type_info) {
        seq![
            fixed_item(
                CheckCategory::ArithmeticSafety,
                Priority::High,
                "Verify '"@ + f.name + "' uses checked arithmetic operations"@,
                ctx,
                "Use checked_add, checked_sub, checked_mul to prevent integer overflow/underflow vulnerabilities that could lead to loss of funds."@,
            ),
            fixed_item(
                CheckCategory::DataValidation,
                Priority::Medium,
                "Validate '"@ + f.name + "' bounds and constraints"@,
                ctx,
                "Ensure the value is within acceptable ranges and meets business logic constraints."@,
            ),
        ]
    } else {
        Seq::empty()
    }) + (if f.name == "owner"@ {
        seq![
            fixed_item(
                CheckCategory::AccessControl,
                Priority::Critical,
                "Validate owner matches transaction signer for mutations"@,
                ctx,
                "Before modifying account state, verify that the signer is the owner or has proper authorization."@,
            ),
        ]
    } else {
        Seq::empty()
    }) + (if spec_is_key_type(f.type_info) {
        seq![
            fixed_item(
                CheckCategory::DataValidation,
                Priority::Medium,
                "Verify '"@ + f.name + "' is not system program or default pubkey"@,
                ctx,
                "Ensure PublicKey fields are not set to default values (all zeros) or system program addresses unless intentional."@,
            ),
        ]
    } else {
        Seq::empty()
    }) + (if f.type_info is Array {
        seq![
            fixed_item(
                CheckCategory::DataValidation,
                Priority::High,
                "Validate '"@ + f.name + "' length before iteration"@,
                ctx,
                "Check vector/array length to prevent excessive compute usage or out-of-bounds access."@,
            ),
            fixed_item(
                CheckCategory::ArithmeticSafety,
                Priority::Medium,
                "Ensure '"@ + f.name + "' max size doesn't exceed account limits"@,
                ctx,
                "Verify that the maximum possible size of this vector won't cause the account to exceed the 10MB account limit."@,
            ),
        ]
    } else {
        Seq::empty()
    }) + (if f.type_info is Option {
        seq![
            fixed_item(
                CheckCategory::DataValidation,
                Priority::Medium,
                "Handle None case for optional '"@ + f.name + "' field"@,
                ctx,
                "Ensure program logic properly handles the case when this optional field is None."@,
            ),
        ]
    } else {
        Seq::empty()
    })
}

/// The field items from the given index on.
pub open spec fn spec_fields_items(
    sname: Seq<char>,
    fields: Seq<FieldDefinitionV>,
    i: int,
) -> Seq<ChecklistItemV>
    decreases fields.len() - i,
{
    if i < 0 || i >= fields.len() {
        Seq::empty()
    } else {
        spec_field_items(sname, fields[i]) + spec_fields_items(sname, fields, i + 1)
    }
}

/// The state-transition items of an account struct.
pub open spec fn spec_state_items(sname: Seq<char>) -> Seq<ChecklistItemV> {
    seq![
        fixed_item(
            CheckCategory::StateTransition,
            Priority::High,
            "Verify state transitions are valid and atomic"@,
            sname,
            "Ensure state changes follow expected patterns and can't leave the account in an inconsistent state."@,
        ),
        fixed_item(
            CheckCategory::StateTransition,
            Priority::Medium,
            "Check for reentrancy vulnerabilities"@,
            sname,
            "If the program makes cross-program invocations, ensure it can't be re-entered in an unsafe state."@,
        ),
    ]
}

/// The items of one struct: the account checks, each field's items in order,
/// then the state-transition checks.
pub open spec fn spec_struct_items(s: StructDefinitionV) -> Seq<ChecklistItemV> {
    (if spec_is_account(s.metadata.attributes) {
        spec_account_items(s.name)
    } else {
        Seq::empty()
    }) + spec_fields_items(s.name, s.fields, 0) + (if spec_is_account(s.metadata.attributes) {
        spec_state_items(s.name)
    } else {
        Seq::empty()
    })
}

/// The unsorted items of the definitions from the given index on; enums
/// contribute none.
pub open spec fn spec_all_items(defs: Seq<TypeDefinitionV>, i: int) -> Seq<ChecklistItemV>
    decreases defs.len() - i,
{
    if i < 0 || i >= defs.len() {
        Seq::empty()
    } else {
        (match defs[i] {
            TypeDefinitionV::Struct(s) => spec_struct_items(s),
            TypeDefinitionV::Enum(_) => Seq::empty(),
        }) + spec_all_items(defs, i + 1)
    }
}

/// The items of one priority, in discovery order.
pub open spec fn spec_items_of(items: Seq<ChecklistItemV>, p: Priority) -> Seq<ChecklistItemV>
    decreases items.len(),
{
    if items.len() == 0 {
        Seq::empty()
    } else {
        (if items[0].priority == p {
            seq![items[0]]
        } else {
            Seq::empty()
        }) + spec_items_of(items.skip(1), p)
    }
}

/// All items ordered by priority, most urgent first, stable within one
/// priority.
pub open spec fn spec_generate(defs: Seq<TypeDefinitionV>) -> Seq<ChecklistItemV> {
    let all = spec_all_items(defs, 0);
    spec_items_of(all, Priority::Critical) + spec_items_of(all, Priority::High) + spec_items_of(
        all,
        Priority::Medium,
    ) + spec_items_of(all, Priority::Low)
}

/// Audit checklist generator over an immutable list of type definitions.
pub struct AuditGenerator<'a> {
    /// All type definitions.
    pub type_defs: &'a Vec<TypeDefinition>,
}

fn category_copy(a: &CheckCategory) -> (r: CheckCategory)
    ensures
        r == *a,
{
    match a {
        CheckCategory::AccountValidation => CheckCategory::AccountValidation,
        CheckCategory::SignerChecks => CheckCategory::SignerChecks,
        CheckCategory::ArithmeticSafety => CheckCategory::ArithmeticSafety,
        CheckCategory::AccessControl => CheckCategory::AccessControl,
        CheckCategory::StateTransition => CheckCategory::StateTransition,
        CheckCategory::DataValidation => CheckCategory::DataValidation,
        CheckCategory::RentExemption => CheckCategory::RentExemption,
        CheckCategory::Initialization => CheckCategory::Initialization,
    }
}

fn priority_copy(a: &Priority) -> (r: Priority)
    ensures
        r == *a,
{
    match a {
        Priority::Critical => Priority::Critical,
        Priority::High => Priority::High,
        Priority::Medium => Priority::Medium,
        Priority::Low => Priority::Low,
    }
}

fn priority_eq(a: &Priority, b: &Priority) -> (r: bool)
    ensures
        r == (a == b),
{
    match (a, b) {
        (Priority::Critical, Priority::Critical) => true,
        (Priority::High, Priority::High) => true,
        (Priority::Medium, Priority::Medium) => true,
        (Priority::Low, Priority::Low) => true,
        _ => false,
    }
}

fn fixed(
    category: CheckCategory,
    priority: Priority,
    item: &str,
    context: &str,
    explanation: &str,
) -> (r: ChecklistItem)
    ensures
        r@ == fixed_item(category, priority, item@, context@, explanation@),
{
    ChecklistItem {
        category,
        priority,
        item: item.to_owned(),
        context: context.to_owned(),
        explanation: explanation.to_owned(),
    }
}

fn quoted(pre: &str, name: &str, post: &str) -> (r: String)
    ensures
        r@ == pre@ + name@ + post@,
{
    let mut s = pre.to_owned();
    s.append(name);
    s.append(post);
    assert(s@ =~= pre@ + name@ + post@);
    s
}

fn named_item(
    category: CheckCategory,
    priority: Priority,
    item: String,
    context: &str,
    explanation: &str,
) -> (r: ChecklistItem)
    ensures
        r@ == fixed_item(category, priority, item@, context@, explanation@),
{
    ChecklistItem {
        category,
        priority,
        item,
        context: context.to_owned(),
        explanation: explanation.to_owned(),
    }
}

impl ChecklistItem {
    fn clone_item(&self) -> (r: Self)
        ensures
            r@ == self@,
    {
        ChecklistItem {
            category: category_copy(&self.category),
            priority: priority_copy(&self.priority),
            item: self.item.clone(),
            context: self.context.clone(),
            explanation: self.explanation.clone(),
        }
    }
}

impl<'a> AuditGenerator<'a> {
    /// Create a new audit generator over the given definitions.
    pub fn new(type_defs: &'a Vec<TypeDefinition>) -> (r: Self)
        ensures
            r.type_defs@ == type_defs@,
    {
        AuditGenerator { type_defs }
    }

    /// Whether a field name names an authority.
    pub fn is_authority_field(&self, field_name: &str) -> (r: bool)
        ensures
            r == spec_is_authority(field_name@),
    {
        is_authority_name(field_name)
    }

    /// Whether a field takes part in arithmetic: an arithmetic keyword in its
    /// name and an integer type.
    pub fn is_arithmetic_field(&self, field_name: &str, type_info: &TypeInfo) -> (r: bool)
        ensures
            r == (spec_is_arithmetic_name(field_name@) && spec_is_numeric(type_info@)),
    {
        is_arithmetic_name_exec(field_name) && is_numeric_exec(type_info)
    }

    fn field_items(&self, sname: &str, f: &crate::ir::FieldDefinition, out: &mut Vec<ChecklistItem>)
        ensures
            final(out)@.map_values(|x: ChecklistItem| x@) == old(out)@.map_values(|x: ChecklistItem| x@)
                + spec_field_items(sname@, f@),
    {
        let ctx = quoted(sname, "::", f.name.as_str());
        assert(ctx@ =~= spec_field_context(sname@, f@.name));
        let c = ctx.as_str();
        if is_authority_name(f.name.as_str()) {
            out.push(
                named_item(
                    CheckCategory::SignerChecks,
                    Priority::Critical,
                    quoted("Verify '", f.name.as_str(), "' field requires signer"),
                    c,
                    "Authority fields must validate that the transaction is signed by the corresponding private key.",
                ),
            );
            out.push(
                named_item(
                    CheckCategory::AccessControl,
                    Priority::Critical,
                    quoted("Ensure only '", f.name.as_str(), "' can perform privileged operations"),
                    c,
                    "Implement proper access control checks to prevent unauthorized users from executing privileged functions.",
                ),
            );
        }
        if is_arithmetic_name_exec(f.name.as_str()) && is_numeric_exec(&f.type_info) {
            out.push(
                named_item(
                    CheckCategory::ArithmeticSafety,
                    Priority::High,
                    quoted("Verify '", f.name.as_str(), "' uses checked arithmetic operations"),
                    c,
                    "Use checked_add, checked_sub, checked_mul to prevent integer overflow/underflow vulnerabilities that could lead to loss of funds.",
                ),
            );
            out.push(
                named_item(
                    CheckCategory::DataValidation,
                    Priority::Medium,
                    quoted("Validate '", f.name.as_str(), "' bounds and constraints"),
                    c,
                    "Ensure the value is within acceptable ranges and meets business logic constraints.",
                ),
            );
        }
        if str_eq(f.name.as_str(), "owner") {
            out.push(
                fixed(
                    CheckCategory::AccessControl,
                    Priority::Critical,
                    "Validate owner matches transaction signer for mutations",
                    c,
                    "Before modifying account state, verify that the signer is the owner or has proper authorization.",
                ),
            );
        }
        let is_key = match &f.type_info {
            TypeInfo::Primitive(n) => str_eq(n.as_str(), "PublicKey") || str_eq(
                n.as_str(),
                "Pubkey",
            ),
            _ => false,
        };
        if is_key {
            out.push(
                named_item(
                    CheckCategory::DataValidation,
                    Priority::Medium,
                    quoted("Verify '", f.name.as_str(), "' is not system program or default pubkey"),
                    c,
                    "Ensure PublicKey fields are not set to default values (all zeros) or system program addresses unless intentional.",
                ),
            );
        }
        let is_array = match &f.type_info {
            TypeInfo::Array(_) => true,
            _ => false,
        };
        if is_array {
            out.push(
                named_item(
                    CheckCategory::DataValidation,
                    Priority::High,
                    quoted("Validate '", f.name.as_str(), "' length before iteration"),
                    c,
                    "Check vector/array length to prevent excessive compute usage or out-of-bounds access.",
                ),
            );
            out.push(
                named_item(
                    CheckCategory::ArithmeticSafety,
                    Priority::Medium,
                    quoted("Ensure '", f.name.as_str(), "' max size doesn't exceed account limits"),
                    c,
                    "Verify that the maximum possible size of this vector won't cause the account to exceed the 10MB account limit.",
                ),
            );
        }
        let is_opt = match &f.type_info {
            TypeInfo::Option(_) => true,
            _ => false,
        };
        if is_opt {
            out.push(
                named_item(
                    CheckCategory::DataValidation,
                    Priority::Medium,
                    quoted("Handle None case for optional '", f.name.as_str(), "' field"),
                    c,
                    "Ensure program logic properly handles the case when this optional field is None.",
                ),
            );
        }
        assert(out@.map_values(|x: ChecklistItem| x@) =~= old(out)@.map_values(
            |x: ChecklistItem| x@,
        ) + spec_field_items(sname@, f@));
    }

    /// The checklist items of one struct, in discovery order.
    pub fn generate_struct_checks(&self, struct_def: &StructDefinition) -> (r: Vec<ChecklistItem>)
        ensures
            r@.map_values(|x: ChecklistItem| x@) == spec_struct_items(struct_def@),
    {
        let mut items: Vec<ChecklistItem> = Vec::new();
        let is_account = crate::size_calculator::metadata_is_account_exec(&struct_def.metadata);
        let sname = struct_def.name.as_str();
        if is_account {
            items.push(
                fixed(
                    CheckCategory::AccountValidation,
                    Priority::Critical,
                    "Verify account ownership (program owns the account)",
                    sname,
                    "Ensure the account is owned by the program to prevent attacks where an attacker passes an account owned by a different program.",
                ),
            );
            items.push(
                fixed(
                    CheckCategory::AccountValidation,
                    Priority::Critical,
                    "Validate account discriminator",
                    sname,
                    "The 8-byte discriminator prevents type confusion attacks. Verify it's checked on deserialization.",
                ),
            );
            items.push(
                fixed(
                    CheckCategory::Initialization,
                    Priority::High,
                    "Check account is initialized before use",
                    sname,
                    "Verify the account has been properly initialized and is not in an uninitialized state.",
                ),
            );
            items.push(
                fixed(
                    CheckCategory::RentExemption,
                    Priority::Medium,
                    "Verify account has sufficient lamports for rent exemption",
                    sname,
                    "Ensure the account has enough lamports to remain rent-exempt and won't be garbage collected.",
                ),
            );
        }
        let ghost header = items@.map_values(|x: ChecklistItem| x@);
        assert(header =~= if spec_is_account(struct_def@.metadata.attributes) {
            spec_account_items(struct_def@.name)
        } else {
            Seq::<ChecklistItemV>::empty()
        });
        let ghost fv = struct_def.fields@.map_values(|f: crate::ir::FieldDefinition| f@);
        let mut i: usize = 0;
        while i < struct_def.fields.len()
            invariant
                i <= struct_def.fields.len(),
                fv == struct_def.fields@.map_values(|f: crate::ir::FieldDefinition| f@),
                fv.len() == struct_def.fields@.len(),
                items@.map_values(|x: ChecklistItem| x@) + spec_fields_items(
                    struct_def@.name,
                    fv,
                    i as int,
                ) == header + spec_fields_items(struct_def@.name, fv, 0),
            decreases struct_def.fields.len() - i,
        {
            let ghost before = items@.map_values(|x: ChecklistItem| x@);
            let f = &struct_def.fields[i];
            assert(f@ == fv[i as int]);
            self.field_items(struct_def.name.as_str(), f, &mut items);
            assert(before + spec_fields_items(struct_def@.name, fv, i as int) =~= items@
                .map_values(|x: ChecklistItem| x@) + spec_fields_items(
                struct_def@.name,
                fv,
                i + 1,
            ));
            i = i + 1;
        }
        if is_account {
            items.push(
                fixed(
                    CheckCategory::StateTransition,
                    Priority::High,
                    "Verify state transitions are valid and atomic",
                    sname,
                    "Ensure state changes follow expected patterns and can't leave the account in an inconsistent state.",
                ),
            );
            items.push(
                fixed(
                    CheckCategory::StateTransition,
                    Priority::Medium,
                    "Check for reentrancy vulnerabilities",
                    sname,
                    "If the program makes cross-program invocations, ensure it can't be re-entered in an unsafe state.",
                ),
            );
        }
        assert(items@.map_values(|x: ChecklistItem| x@) =~= spec_struct_items(struct_def@));
        items
    }

    /// The complete checklist over the whole IR list, ordered by priority,
    /// most urgent first, stable within one priority.
    #[verifier::rlimit(50)]
    pub fn generate(&self) -> (r: Vec<ChecklistItem>)
        ensures
            r@.map_values(|x: ChecklistItem| x@) == spec_generate(view_defs(self.type_defs@)),
    {
        let ghost dv = view_defs(self.type_defs@);
        let mut all: Vec<ChecklistItem> = Vec::new();
        let mut i: usize = 0;
        while i < self.type_defs.len()
            invariant
                i <= self.type_defs@.len(),
                dv == view_defs(self.type_defs@),
                dv.len() == self.type_defs@.len(),
                all@.map_values(|x: ChecklistItem| x@) + spec_all_items(dv, i as int)
                    == spec_all_items(dv, 0),
            decreases self.type_defs.len() - i,
        {
            let ghost before = all@.map_values(|x: ChecklistItem| x@);
            let d = &self.type_defs[i];
            assert(d@ == dv[i as int]);
            match d {
                TypeDefinition::Struct(s) => {
                    let batch = self.generate_struct_checks(s);
                    let ghost batch_v = batch@;
                    let ghost prior = all@;
                    let mut rest = batch;
                    while rest.len() > 0
                        invariant
                            all@.len() >= prior.len(),
                            all@ =~= prior + batch_v.take(all@.len() - prior.len()),
                            rest@ =~= batch_v.skip(all@.len() - prior.len()),
                            all@.len() - prior.len() + rest@.len() == batch_v.len(),
                        decreases rest.len(),
                    {
                        let ghost k = all@.len() - prior.len();
                        let e = rest.remove(0);
                        assert(e == batch_v[k]);
                        all.push(e);
                        assert(batch_v.take(k + 1) =~= batch_v.take(k).push(batch_v[k]));
                        assert(rest@ =~= batch_v.skip(k + 1));
                    }
                    assert(batch_v.take(batch_v.len() as int) =~= batch_v);
                    assert(all@ =~= prior + batch_v);
                    proof {
                        lemma_items_map_concat(prior, batch_v);
                    }
                    assert(all@.map_values(|x: ChecklistItem| x@) =~= before + batch_v.map_values(
                        |x: ChecklistItem| x@,
                    ));
                },
                TypeDefinition::Enum(_) => {},
            }
            assert(before + spec_all_items(dv, i as int) =~= all@.map_values(|x: ChecklistItem| x@)
                + spec_all_items(dv, i + 1));
            i = i + 1;
        }
        assert(all@.map_values(|x: ChecklistItem| x@) =~= spec_all_items(dv, 0));
        // stable priority buckets: most urgent first
        let mut sorted: Vec<ChecklistItem> = Vec::new();
        push_of_priority(&all, Priority::Critical, &mut sorted);
        push_of_priority(&all, Priority::High, &mut sorted);
        push_of_priority(&all, Priority::Medium, &mut sorted);
        push_of_priority(&all, Priority::Low, &mut sorted);
        assert(sorted@.map_values(|x: ChecklistItem| x@) =~= spec_generate(dv));
        sorted
    }
}

proof fn lemma_items_map_push(prev: Seq<ChecklistItem>, x: ChecklistItem)
    ensures
        prev.push(x).map_values(|f: ChecklistItem| f@) == prev.map_values(
            |f: ChecklistItem| f@,
        ).push(x@),
{
    assert(prev.push(x).map_values(|f: ChecklistItem| f@) =~= prev.map_values(
        |f: ChecklistItem| f@,
    ).push(x@));
}

proof fn lemma_items_map_concat(a: Seq<ChecklistItem>, b: Seq<ChecklistItem>)
    ensures
        (a + b).map_values(|f: ChecklistItem| f@) == a.map_values(|f: ChecklistItem| f@)
            + b.map_values(|f: ChecklistItem| f@),
{
    assert((a + b).map_values(|f: ChecklistItem| f@) =~= a.map_values(|f: ChecklistItem| f@)
        + b.map_values(|f: ChecklistItem| f@));
}

fn push_of_priority(all: &Vec<ChecklistItem>, p: Priority, out: &mut Vec<ChecklistItem>)
    ensures
        final(out)@.map_values(|x: ChecklistItem| x@) == old(out)@.map_values(|x: ChecklistItem| x@)
            + spec_items_of(all@.map_values(|x: ChecklistItem| x@), p),
{
    let ghost av = all@.map_values(|x: ChecklistItem| x@);
    let ghost start = out@.map_values(|x: ChecklistItem| x@);
    assert(av.skip(0) =~= av);
    let mut i: usize = 0;
    while i < all.len()
        invariant
            i <= all.len(),
            av == all@.map_values(|x: ChecklistItem| x@),
            av.len() == all@.len(),
            out@.map_values(|x: ChecklistItem| x@) + spec_items_of(av.skip(i as int), p) == start
                + spec_items_of(av, p),
        decreases all.len() - i,
    {
        let ghost before = out@.map_values(|x: ChecklistItem| x@);
        assert(av.skip(i as int)[0] == av[i as int]);
        if priority_eq(&all[i].priority, &p) {
            let ghost prev = out@;
            out.push(all[i].clone_item());
            proof {
                lemma_items_map_push(prev, out@.last());
            }
        }
        assert(av.skip(i as int).skip(1) =~= av.skip(i + 1));
        assert(before + spec_items_of(av.skip(i as int), p) =~= out@.map_values(
            |x: ChecklistItem| x@,
        ) + spec_items_of(av.skip(i + 1), p));
        i = i + 1;
    }
    assert(av.skip(all@.len() as int).len() == 0);
    assert(out@.map_values(|x: ChecklistItem| x@) =~= start + spec_items_of(av, p));
}

impl CheckCategory {
    /// The display name of a category.
    pub fn as_str(&self) -> (r: &str)
        ensures
            r@ == (match *self {
                CheckCategory::AccountValidation => "Account Validation"@,
                CheckCategory::SignerChecks => "Signer Checks"@,
                CheckCategory::ArithmeticSafety => "Arithmetic Safety"@,
                CheckCategory::AccessControl => "Access Control"@,
                CheckCategory::StateTransition => "State Transition"@,
                CheckCategory::DataValidation => "Data Validation"@,
                CheckCategory::RentExemption => "Rent Exemption"@,
                CheckCategory::Initialization => "Initialization"@,
            }),
    {
        match self {
            CheckCategory::AccountValidation => "Account Validation",
            CheckCategory::SignerChecks => "Signer Checks",
            CheckCategory::ArithmeticSafety => "Arithmetic Safety",
            CheckCategory::AccessControl => "Access Control",
            CheckCategory::StateTransition => "State Transition",
            CheckCategory::DataValidation => "Data Validation",
            CheckCategory::RentExemption => "Rent Exemption",
            CheckCategory::Initialization => "Initialization",
        }
    }

    /// A one-character marker for a category, for plain-text listings.
    pub fn emoji(&self) -> (r: &str)
        ensures
            r@ == (match *self {
                CheckCategory::AccountValidation => "K"@,
                CheckCategory::SignerChecks => "S"@,
                CheckCategory::ArithmeticSafety => "A"@,
                CheckCategory::AccessControl => "C"@,
                CheckCategory::StateTransition => "T"@,
                CheckCategory::DataValidation => "D"@,
                CheckCategory::RentExemption => "R"@,
                CheckCategory::Initialization => "I"@,
            }),
    {
        match self {
            CheckCategory::AccountValidation => "K",
            CheckCategory::SignerChecks => "S",
            CheckCategory::ArithmeticSafety => "A",
            CheckCategory::AccessControl => "C",
            CheckCategory::StateTransition => "T",
            CheckCategory::DataValidation => "D",
            CheckCategory::RentExemption => "R",
            CheckCategory::Initialization => "I",
        }
    }
}

impl Priority {
    /// The display name of a priority.
    pub fn as_str(&self) -> (r: &str)
        ensures
            r@ == (match *self {
                Priority::Critical => "CRITICAL"@,
                Priority::High => "HIGH"@,
                Priority::Medium => "MEDIUM"@,
                Priority::Low => "LOW"@,
            }),
    {
        match self {
            Priority::Critical => "CRITICAL",
            Priority::High => "HIGH",
            Priority::Medium => "MEDIUM",
            Priority::Low => "LOW",
        }
    }
}

} // verus!
