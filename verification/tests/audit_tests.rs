//! Tests for the audit checklist generator.

use lumos_core::audit_generator::{AuditGenerator, CheckCategory, Priority};
use lumos_core::ir::{FieldDefinition, Metadata, StructDefinition, TypeDefinition, TypeInfo};

#[test]
fn test_generates_account_validation_checks() {
    let type_defs = vec![TypeDefinition::Struct(StructDefinition {
        name: "PlayerAccount".to_string(),
        fields: vec![],
        metadata: Metadata {
            solana: true,
            attributes: vec!["account".to_string()],
        },
    })];

    let generator = AuditGenerator::new(&type_defs);
    let checklist = generator.generate();

    assert!(checklist.iter().any(|item| matches!(
        item.category,
        CheckCategory::AccountValidation
    ) && item.item.contains("ownership")));
}

#[test]
fn test_generates_signer_checks_for_authority() {
    let type_defs = vec![TypeDefinition::Struct(StructDefinition {
        name: "Config".to_string(),
        fields: vec![FieldDefinition {
            name: "authority".to_string(),
            type_info: TypeInfo::Primitive("PublicKey".to_string()),
            optional: false,
        }],
        metadata: Metadata {
            solana: true,
            attributes: vec!["account".to_string()],
        },
    })];

    let generator = AuditGenerator::new(&type_defs);
    let checklist = generator.generate();

    assert!(checklist.iter().any(|item| matches!(
        item.category,
        CheckCategory::SignerChecks
    ) && matches!(item.priority, Priority::Critical)));
}

#[test]
fn test_generates_arithmetic_checks() {
    let type_defs = vec![TypeDefinition::Struct(StructDefinition {
        name: "Vault".to_string(),
        fields: vec![FieldDefinition {
            name: "balance".to_string(),
            type_info: TypeInfo::Primitive("u64".to_string()),
            optional: false,
        }],
        metadata: Metadata::default(),
    })];

    let generator = AuditGenerator::new(&type_defs);
    let checklist = generator.generate();

    assert!(checklist.iter().any(|item| matches!(
        item.category,
        CheckCategory::ArithmeticSafety
    ) && item.item.contains("checked arithmetic")));
}

#[test]
fn test_sorted_by_priority() {
    let type_defs = vec![TypeDefinition::Struct(StructDefinition {
        name: "TokenAccount".to_string(),
        fields: vec![
            FieldDefinition {
                name: "authority".to_string(),
                type_info: TypeInfo::Primitive("PublicKey".to_string()),
                optional: false,
            },
            FieldDefinition {
                name: "balance".to_string(),
                type_info: TypeInfo::Primitive("u64".to_string()),
                optional: false,
            },
        ],
        metadata: Metadata {
            solana: true,
            attributes: vec!["account".to_string()],
        },
    })];

    let generator = AuditGenerator::new(&type_defs);
    let checklist = generator.generate();

    // Verify sorted by priority
    for i in 1..checklist.len() {
        assert!(checklist[i - 1].priority <= checklist[i].priority);
    }
}

#[test]
fn test_array_and_option_fields_get_data_checks() {
    let type_defs = vec![TypeDefinition::Struct(StructDefinition {
        name: "Bag".to_string(),
        fields: vec![
            FieldDefinition {
                name: "items".to_string(),
                type_info: TypeInfo::Array(Box::new(TypeInfo::Primitive("u8".to_string()))),
                optional: false,
            },
            FieldDefinition {
                name: "label".to_string(),
                type_info: TypeInfo::Option(Box::new(TypeInfo::Primitive("String".to_string()))),
                optional: true,
            },
        ],
        metadata: Metadata::default(),
    })];

    let generator = AuditGenerator::new(&type_defs);
    let checklist = generator.generate();

    assert!(checklist
        .iter()
        .any(|item| item.item.contains("'items' length before iteration")));
    assert!(checklist
        .iter()
        .any(|item| item.item.contains("Handle None case for optional 'label'")));
    assert!(checklist
        .iter()
        .any(|item| item.context == "Bag::items"));
}
