//! Tests for the two code generators, including hand-built IR that never
//! passes through the parser.

use lumos_core::generators::{rust, typescript};
use lumos_core::ir::{
    EnumDefinition, EnumVariantDefinition, FieldDefinition, Metadata, StructDefinition,
    TypeDefinition, TypeInfo,
};

#[test]
fn test_empty_struct_generation() {
    let empty_struct = StructDefinition {
        name: "Empty".to_string(),
        fields: vec![],
        metadata: Metadata::default(),
    };

    let type_defs = vec![TypeDefinition::Struct(empty_struct)];

    // Should handle empty structs gracefully
    let rust_code = rust::generate_module(&type_defs);
    let ts_code = typescript::generate_module(&type_defs);

    assert!(rust_code.contains("struct Empty"));
    assert!(ts_code.contains("interface Empty"));
}

#[test]
fn test_enum_with_no_variants() {
    // An edge case: the parser rejects an enum without variants, but the
    // generators must still render hand-built IR without panicking.
    let empty_enum = EnumDefinition {
        name: "EmptyEnum".to_string(),
        variants: vec![],
        metadata: Metadata::default(),
    };

    let type_defs = vec![TypeDefinition::Enum(empty_enum)];

    let rust_code = rust::generate_module(&type_defs);
    let ts_code = typescript::generate_module(&type_defs);

    assert!(rust_code.contains("enum EmptyEnum"));
    assert!(ts_code.contains("type EmptyEnum"));
}

#[test]
fn test_deeply_nested_types_generation() {
    // deeply nested optional-array-optional chains must render without issue
    let nested_field = FieldDefinition {
        name: "nested".to_string(),
        type_info: TypeInfo::Option(Box::new(TypeInfo::Array(Box::new(TypeInfo::Option(
            Box::new(TypeInfo::Primitive("u64".to_string())),
        ))))),
        optional: true,
    };

    let struct_def = StructDefinition {
        name: "Nested".to_string(),
        fields: vec![nested_field],
        metadata: Metadata::default(),
    };

    let type_defs = vec![TypeDefinition::Struct(struct_def)];

    let rust_code = rust::generate_module(&type_defs);
    let ts_code = typescript::generate_module(&type_defs);

    assert!(!rust_code.is_empty());
    assert!(!ts_code.is_empty());
    assert!(rust_code.contains("Option<Vec<Option<u64>>>"));
    assert!(ts_code.contains("borsh.option(borsh.vec(borsh.option(borsh.u64)))('nested')"));
}

#[test]
fn test_mixed_enum_variants() {
    // an enum with all three variant shapes
    let mixed_enum = EnumDefinition {
        name: "MixedEnum".to_string(),
        variants: vec![
            EnumVariantDefinition::Unit {
                name: "Empty".to_string(),
            },
            EnumVariantDefinition::Tuple {
                name: "WithData".to_string(),
                types: vec![TypeInfo::Primitive("u64".to_string())],
            },
            EnumVariantDefinition::Struct {
                name: "WithFields".to_string(),
                fields: vec![FieldDefinition {
                    name: "value".to_string(),
                    type_info: TypeInfo::Primitive("String".to_string()),
                    optional: false,
                }],
            },
        ],
        metadata: Metadata::default(),
    };

    let type_defs = vec![TypeDefinition::Enum(mixed_enum)];

    let rust_code = rust::generate_module(&type_defs);
    let ts_code = typescript::generate_module(&type_defs);

    // Should generate all variant shapes
    assert!(rust_code.contains("Empty"));
    assert!(rust_code.contains("WithData"));
    assert!(rust_code.contains("WithFields"));

    assert!(ts_code.contains("kind: 'Empty'"));
    assert!(ts_code.contains("kind: 'WithData'"));
    assert!(ts_code.contains("kind: 'WithFields'"));
}

#[test]
fn test_account_struct_rust_rendering() {
    let type_defs = vec![TypeDefinition::Struct(StructDefinition {
        name: "PlayerAccount".to_string(),
        fields: vec![
            FieldDefinition {
                name: "wallet".to_string(),
                type_info: TypeInfo::Primitive("PublicKey".to_string()),
                optional: false,
            },
            FieldDefinition {
                name: "level".to_string(),
                type_info: TypeInfo::Primitive("u16".to_string()),
                optional: false,
            },
        ],
        metadata: Metadata {
            solana: true,
            attributes: vec!["solana".to_string(), "account".to_string()],
        },
    })];

    let rust_code = rust::generate_module(&type_defs);
    assert!(rust_code.contains("use anchor_lang::prelude::*;"));
    assert!(rust_code.contains("#[account]"));
    assert!(rust_code.contains("pub struct PlayerAccount"));
    assert!(rust_code.contains("pub wallet: Pubkey"));
    assert!(rust_code.contains("pub level: u16"));

    let ts_code = typescript::generate_module(&type_defs);
    assert!(ts_code.contains("import { PublicKey } from '@solana/web3.js';"));
    assert!(ts_code.contains("import * as borsh from '@coral-xyz/borsh';"));
    assert!(ts_code.contains("export interface PlayerAccount"));
    assert!(ts_code.contains("wallet: PublicKey;"));
    assert!(ts_code.contains("export const PlayerAccountSchema = borsh.struct(["));
    assert!(ts_code.contains("borsh.publicKey('wallet')"));
    assert!(ts_code.contains("borsh.u16('level')"));
}

#[test]
fn test_type_compatibility_across_backends() {
    // both backends must map every primitive and container through the one
    // shared layout table
    let fields = vec![
        ("tiny", "u8"),
        ("small", "u16"),
        ("medium", "u32"),
        ("large", "u64"),
        ("huge", "u128"),
        ("signed", "i64"),
        ("flag", "bool"),
        ("text", "String"),
        ("key", "PublicKey"),
    ];
    let type_defs = vec![TypeDefinition::Struct(StructDefinition {
        name: "DataTypes".to_string(),
        fields: fields
            .iter()
            .map(|(n, t)| FieldDefinition {
                name: n.to_string(),
                type_info: TypeInfo::Primitive(t.to_string()),
                optional: false,
            })
            .chain([
                FieldDefinition {
                    name: "items".to_string(),
                    type_info: TypeInfo::Array(Box::new(TypeInfo::Primitive("u32".to_string()))),
                    optional: false,
                },
                FieldDefinition {
                    name: "maybe".to_string(),
                    type_info: TypeInfo::Option(Box::new(TypeInfo::Primitive(
                        "String".to_string(),
                    ))),
                    optional: true,
                },
            ])
            .collect(),
        metadata: Metadata {
            solana: true,
            attributes: vec!["solana".to_string()],
        },
    })];

    let rust_code = rust::generate_module(&type_defs);
    assert!(rust_code.contains("pub tiny: u8"));
    assert!(rust_code.contains("pub small: u16"));
    assert!(rust_code.contains("pub medium: u32"));
    assert!(rust_code.contains("pub large: u64"));
    assert!(rust_code.contains("pub huge: u128"));
    assert!(rust_code.contains("pub signed: i64"));
    assert!(rust_code.contains("pub flag: bool"));
    assert!(rust_code.contains("pub text: String"));
    assert!(rust_code.contains("pub key: Pubkey"));
    assert!(rust_code.contains("pub items: Vec<u32>"));
    assert!(rust_code.contains("pub maybe: Option<String>"));

    let ts_code = typescript::generate_module(&type_defs);
    assert!(ts_code.contains("tiny: number"));
    assert!(ts_code.contains("small: number"));
    assert!(ts_code.contains("large: number"));
    assert!(ts_code.contains("huge: bigint"));
    assert!(ts_code.contains("flag: boolean"));
    assert!(ts_code.contains("text: string"));
    assert!(ts_code.contains("key: PublicKey"));
    assert!(ts_code.contains("items: number[]"));
    assert!(ts_code.contains("maybe?: string | undefined"));

    assert!(ts_code.contains("borsh.u8('tiny')"));
    assert!(ts_code.contains("borsh.u16('small')"));
    assert!(ts_code.contains("borsh.u32('medium')"));
    assert!(ts_code.contains("borsh.u64('large')"));
    assert!(ts_code.contains("borsh.u128('huge')"));
    assert!(ts_code.contains("borsh.i64('signed')"));
    assert!(ts_code.contains("borsh.bool('flag')"));
    assert!(ts_code.contains("borsh.string('text')"));
    assert!(ts_code.contains("borsh.publicKey('key')"));
    assert!(ts_code.contains("borsh.vec(borsh.u32)('items')"));
    assert!(ts_code.contains("borsh.option(borsh.string)('maybe')"));
}

#[test]
fn test_single_definition_module() {
    let def = TypeDefinition::Struct(StructDefinition {
        name: "Solo".to_string(),
        fields: vec![FieldDefinition {
            name: "id".to_string(),
            type_info: TypeInfo::Primitive("u64".to_string()),
            optional: false,
        }],
        metadata: Metadata::default(),
    });

    let rust_code = rust::generate(&def);
    assert!(rust_code.contains("pub struct Solo"));
    assert!(rust_code.contains("use borsh::{BorshSerialize, BorshDeserialize};"));

    let ts_code = typescript::generate(&def);
    assert!(ts_code.contains("export interface Solo"));
    assert!(ts_code.contains("export const SoloSchema"));
}
