//! Tests for the security analyzer heuristics.

use lumos_core::ir::{FieldDefinition, Metadata, StructDefinition, TypeDefinition, TypeInfo};
use lumos_core::security_analyzer::{SecurityAnalyzer, Severity, VulnerabilityType};

#[test]
fn test_detects_missing_signer() {
    let type_defs = vec![TypeDefinition::Struct(StructDefinition {
        name: "UpdateInstruction".to_string(),
        fields: vec![FieldDefinition {
            name: "authority".to_string(),
            type_info: TypeInfo::Primitive("PublicKey".to_string()),
            optional: false,
        }],
        metadata: Metadata::default(),
    })];

    let analyzer = SecurityAnalyzer::new(&type_defs);
    let findings = analyzer.analyze();

    assert!(findings.iter().any(|f| matches!(
        f.vulnerability,
        VulnerabilityType::MissingSigner
    ) && matches!(f.severity, Severity::Critical)));
}

#[test]
fn test_detects_unchecked_arithmetic() {
    let type_defs = vec![TypeDefinition::Struct(StructDefinition {
        name: "TokenAccount".to_string(),
        fields: vec![FieldDefinition {
            name: "balance".to_string(),
            type_info: TypeInfo::Primitive("u64".to_string()),
            optional: false,
        }],
        metadata: Metadata::default(),
    })];

    let analyzer = SecurityAnalyzer::new(&type_defs);
    let findings = analyzer.analyze();

    assert!(findings
        .iter()
        .any(|f| matches!(f.vulnerability, VulnerabilityType::UncheckedArithmetic)));
}

#[test]
fn test_detects_no_discriminator() {
    let type_defs = vec![TypeDefinition::Struct(StructDefinition {
        name: "GameAccount".to_string(),
        fields: vec![],
        metadata: Metadata {
            solana: true,
            attributes: vec![], // Missing #[account]
        },
    })];

    let analyzer = SecurityAnalyzer::new(&type_defs);
    let findings = analyzer.analyze();

    assert!(findings
        .iter()
        .any(|f| matches!(f.vulnerability, VulnerabilityType::NoDiscriminator)));
}

#[test]
fn test_strict_mode_more_warnings() {
    let type_defs = vec![TypeDefinition::Struct(StructDefinition {
        name: "Account".to_string(),
        fields: vec![FieldDefinition {
            name: "owner".to_string(),
            type_info: TypeInfo::Primitive("PublicKey".to_string()),
            optional: false,
        }],
        metadata: Metadata {
            solana: true,
            attributes: vec!["account".to_string()],
        },
    })];

    // Normal mode
    let analyzer = SecurityAnalyzer::new(&type_defs);
    let normal_findings = analyzer.analyze();

    // Strict mode
    let analyzer_strict = SecurityAnalyzer::new(&type_defs).with_strict_mode();
    let strict_findings = analyzer_strict.analyze();

    assert!(strict_findings.len() >= normal_findings.len());
}

#[test]
fn test_no_false_positives_on_safe_struct() {
    let type_defs = vec![TypeDefinition::Struct(StructDefinition {
        name: "SafeData".to_string(),
        fields: vec![
            FieldDefinition {
                name: "id".to_string(),
                type_info: TypeInfo::Primitive("u32".to_string()),
                optional: false,
            },
            FieldDefinition {
                name: "name".to_string(),
                type_info: TypeInfo::Primitive("String".to_string()),
                optional: false,
            },
        ],
        metadata: Metadata {
            solana: true,
            attributes: vec!["account".to_string()],
        },
    })];

    let analyzer = SecurityAnalyzer::new(&type_defs);
    let findings = analyzer.analyze();

    // Should have no critical findings
    assert!(!findings
        .iter()
        .any(|f| matches!(f.severity, Severity::Critical)));
}

#[test]
fn test_findings_come_most_severe_first() {
    let type_defs = vec![TypeDefinition::Struct(StructDefinition {
        name: "Vault".to_string(),
        fields: vec![
            FieldDefinition {
                name: "balance".to_string(),
                type_info: TypeInfo::Primitive("u64".to_string()),
                optional: false,
            },
            FieldDefinition {
                name: "authority".to_string(),
                type_info: TypeInfo::Primitive("PublicKey".to_string()),
                optional: false,
            },
        ],
        metadata: Metadata::default(),
    })];

    let analyzer = SecurityAnalyzer::new(&type_defs);
    let findings = analyzer.analyze();

    for i in 1..findings.len() {
        assert!(findings[i - 1].severity >= findings[i].severity);
    }
    assert!(matches!(findings[0].severity, Severity::Critical));
}

#[test]
fn test_authority_keyword_matching() {
    let type_defs = vec![];
    let analyzer = SecurityAnalyzer::new(&type_defs);

    assert!(analyzer.is_authority_field("authority"));
    assert!(analyzer.is_authority_field("pool_owner"));
    assert!(analyzer.is_authority_field("admin_key"));
    assert!(analyzer.is_authority_field("multi_owner_account"));
    assert!(analyzer.is_authority_field("Authority"));
    assert!(!analyzer.is_authority_field("ownership_notes"));
    assert!(!analyzer.is_authority_field("balance"));
}
