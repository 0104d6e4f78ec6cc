//! Tests for the account size calculator.

use lumos_core::ir::{FieldDefinition, Metadata, StructDefinition, TypeDefinition, TypeInfo};
use lumos_core::size_calculator::SizeCalculator;

#[test]
fn test_primitive_sizes() {
    let type_defs = vec![];
    let calc = SizeCalculator::new(&type_defs);

    assert_eq!(calc.calculate_primitive_size("u8").min_bytes(), 1);
    assert_eq!(calc.calculate_primitive_size("u16").min_bytes(), 2);
    assert_eq!(calc.calculate_primitive_size("u32").min_bytes(), 4);
    assert_eq!(calc.calculate_primitive_size("u64").min_bytes(), 8);
    assert_eq!(calc.calculate_primitive_size("u128").min_bytes(), 16);
    assert_eq!(calc.calculate_primitive_size("PublicKey").min_bytes(), 32);
    assert_eq!(calc.calculate_primitive_size("Signature").min_bytes(), 64);
}

#[test]
fn test_simple_struct_size() {
    let type_defs = vec![TypeDefinition::Struct(StructDefinition {
        name: "Player".to_string(),
        fields: vec![
            FieldDefinition {
                name: "wallet".to_string(),
                type_info: TypeInfo::Primitive("PublicKey".to_string()),
                optional: false,
            },
            FieldDefinition {
                name: "score".to_string(),
                type_info: TypeInfo::Primitive("u64".to_string()),
                optional: false,
            },
        ],
        metadata: Metadata::default(),
    })];

    let calc = SizeCalculator::new(&type_defs);
    let sizes = calc.calculate_all();

    assert_eq!(sizes.len(), 1);
    assert_eq!(sizes[0].name, "Player");
    assert_eq!(sizes[0].total_bytes.min_bytes(), 32 + 8); // PublicKey + u64
}

#[test]
fn test_account_with_discriminator() {
    let type_defs = vec![TypeDefinition::Struct(StructDefinition {
        name: "GameAccount".to_string(),
        fields: vec![FieldDefinition {
            name: "score".to_string(),
            type_info: TypeInfo::Primitive("u64".to_string()),
            optional: false,
        }],
        metadata: Metadata {
            solana: true,
            attributes: vec!["account".to_string()],
        },
    })];

    let calc = SizeCalculator::new(&type_defs);
    let sizes = calc.calculate_all();

    assert_eq!(sizes.len(), 1);
    assert_eq!(sizes[0].total_bytes.min_bytes(), 8 + 8); // discriminator + u64
    assert!(sizes[0].is_account);
}

#[test]
fn test_option_size() {
    let type_defs = vec![TypeDefinition::Struct(StructDefinition {
        name: "Optional".to_string(),
        fields: vec![FieldDefinition {
            name: "maybe_value".to_string(),
            type_info: TypeInfo::Option(Box::new(TypeInfo::Primitive("u64".to_string()))),
            optional: true,
        }],
        metadata: Metadata::default(),
    })];

    let calc = SizeCalculator::new(&type_defs);
    let sizes = calc.calculate_all();

    assert_eq!(sizes.len(), 1);
    assert_eq!(sizes[0].total_bytes.min_bytes(), 1 + 8); // discriminant + u64
}

#[test]
fn test_string_is_variable_with_prefix_minimum() {
    let type_defs = vec![TypeDefinition::Struct(StructDefinition {
        name: "Named".to_string(),
        fields: vec![FieldDefinition {
            name: "name".to_string(),
            type_info: TypeInfo::Primitive("String".to_string()),
            optional: false,
        }],
        metadata: Metadata::default(),
    })];

    let calc = SizeCalculator::new(&type_defs);
    let sizes = calc.calculate_all();

    assert!(!sizes[0].total_bytes.is_fixed());
    assert_eq!(sizes[0].total_bytes.min_bytes(), 4); // length prefix alone
}

#[test]
fn test_user_defined_reference_size() {
    let type_defs = vec![
        TypeDefinition::Struct(StructDefinition {
            name: "Inner".to_string(),
            fields: vec![FieldDefinition {
                name: "value".to_string(),
                type_info: TypeInfo::Primitive("u32".to_string()),
                optional: false,
            }],
            metadata: Metadata::default(),
        }),
        TypeDefinition::Struct(StructDefinition {
            name: "Outer".to_string(),
            fields: vec![FieldDefinition {
                name: "inner".to_string(),
                type_info: TypeInfo::UserDefined("Inner".to_string()),
                optional: false,
            }],
            metadata: Metadata::default(),
        }),
    ];

    let calc = SizeCalculator::new(&type_defs);
    let sizes = calc.calculate_all();

    assert_eq!(sizes[1].name, "Outer");
    assert_eq!(sizes[1].total_bytes.min_bytes(), 4);
    assert!(sizes[1].total_bytes.is_fixed());
}

#[test]
fn test_cyclic_reference_reports_variable_size() {
    // two structs that contain each other can never have a finite layout;
    // the calculator reports a variable size instead of diverging
    let type_defs = vec![
        TypeDefinition::Struct(StructDefinition {
            name: "A".to_string(),
            fields: vec![FieldDefinition {
                name: "b".to_string(),
                type_info: TypeInfo::UserDefined("B".to_string()),
                optional: false,
            }],
            metadata: Metadata::default(),
        }),
        TypeDefinition::Struct(StructDefinition {
            name: "B".to_string(),
            fields: vec![FieldDefinition {
                name: "a".to_string(),
                type_info: TypeInfo::UserDefined("A".to_string()),
                optional: false,
            }],
            metadata: Metadata::default(),
        }),
    ];

    let calc = SizeCalculator::new(&type_defs);
    let sizes = calc.calculate_all();

    assert_eq!(sizes.len(), 2);
    assert!(!sizes[0].total_bytes.is_fixed());
}

#[test]
fn test_describe_type() {
    let type_defs = vec![];
    let calc = SizeCalculator::new(&type_defs);

    assert_eq!(
        calc.describe_type(&TypeInfo::Primitive("PublicKey".to_string())),
        "PublicKey (32 bytes)"
    );
    assert_eq!(
        calc.describe_type(&TypeInfo::Array(Box::new(TypeInfo::Primitive(
            "u8".to_string()
        )))),
        "Vec<u8>"
    );
    assert_eq!(
        calc.describe_type(&TypeInfo::Option(Box::new(TypeInfo::Primitive(
            "String".to_string()
        )))),
        "Option<String (variable)>"
    );
}
