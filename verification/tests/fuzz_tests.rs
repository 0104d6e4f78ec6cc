//! Tests for the fuzz target generator.

use lumos_core::fuzz_generator::{to_snake_case, FuzzGenerator};
use lumos_core::ir::{EnumDefinition, FieldDefinition, Metadata, StructDefinition, TypeDefinition, TypeInfo};

#[test]
fn test_generates_struct_fuzz_target() {
    let type_defs = vec![TypeDefinition::Struct(StructDefinition {
        name: "PlayerAccount".to_string(),
        fields: vec![
            FieldDefinition {
                name: "wallet".to_string(),
                type_info: TypeInfo::Primitive("PublicKey".to_string()),
                optional: false,
            },
            FieldDefinition {
                name: "balance".to_string(),
                type_info: TypeInfo::Primitive("u64".to_string()),
                optional: false,
            },
        ],
        metadata: Metadata {
            solana: true,
            attributes: vec!["account".to_string()],
        },
    })];

    let generator = FuzzGenerator::new(&type_defs);
    let targets = generator.generate_all();

    assert_eq!(targets.len(), 1);
    assert_eq!(targets[0].name, "fuzz_player_account");
    assert_eq!(targets[0].type_ident, "PlayerAccount");
    assert!(targets[0].code.contains("fuzz_target!"));
    assert!(targets[0].code.contains("try_from_slice"));
    assert!(targets[0].code.contains("Round-trip"));
}

#[test]
fn test_generates_enum_fuzz_target() {
    let type_defs = vec![TypeDefinition::Enum(EnumDefinition {
        name: "GameState".to_string(),
        variants: vec![],
        metadata: Metadata::default(),
    })];

    let generator = FuzzGenerator::new(&type_defs);
    let targets = generator.generate_all();

    assert_eq!(targets.len(), 1);
    assert_eq!(targets[0].name, "fuzz_game_state");
    assert!(targets[0].code.contains("discriminant"));
}

#[test]
fn test_to_snake_case() {
    assert_eq!(to_snake_case("PlayerAccount"), "player_account");
    assert_eq!(to_snake_case("NFTMetadata"), "nft_metadata"); // keeps acronyms together
    assert_eq!(to_snake_case("SimpleType"), "simple_type");
    assert_eq!(to_snake_case("NFT"), "nft"); // pure acronym
    assert_eq!(to_snake_case("HTTPServer"), "http_server"); // acronym + word
}

#[test]
fn test_generates_cargo_toml() {
    let type_defs = vec![];
    let generator = FuzzGenerator::new(&type_defs);
    let cargo_toml = generator.generate_cargo_toml("my-project");

    assert!(cargo_toml.contains("name = \"my-project-fuzz\""));
    assert!(cargo_toml.contains("libfuzzer-sys"));
    assert!(cargo_toml.contains("borsh"));
}

#[test]
fn test_get_type_names() {
    let type_defs = vec![
        TypeDefinition::Struct(StructDefinition {
            name: "Account1".to_string(),
            fields: vec![],
            metadata: Metadata::default(),
        }),
        TypeDefinition::Enum(EnumDefinition {
            name: "State1".to_string(),
            variants: vec![],
            metadata: Metadata::default(),
        }),
    ];

    let generator = FuzzGenerator::new(&type_defs);
    let names = generator.get_type_names();

    assert_eq!(names, vec!["Account1", "State1"]);
}

#[test]
fn test_type_exists() {
    let type_defs = vec![TypeDefinition::Struct(StructDefinition {
        name: "PlayerAccount".to_string(),
        fields: vec![],
        metadata: Metadata::default(),
    })];

    let generator = FuzzGenerator::new(&type_defs);

    assert!(generator.type_exists("PlayerAccount"));
    assert!(!generator.type_exists("NonExistent"));
}

#[test]
fn test_float_fields_disable_equality_check() {
    let type_defs = vec![TypeDefinition::Struct(StructDefinition {
        name: "Rates".to_string(),
        fields: vec![FieldDefinition {
            name: "ratio".to_string(),
            type_info: TypeInfo::Primitive("f64".to_string()),
            optional: false,
        }],
        metadata: Metadata::default(),
    })];

    let generator = FuzzGenerator::new(&type_defs);
    let targets = generator.generate_all();

    assert!(!targets[0].needs_partial_eq);
    assert!(!targets[0].code.contains("assert_eq!(instance, deserialized"));
}

#[test]
fn test_generates_readme() {
    let type_defs = vec![];
    let generator = FuzzGenerator::new(&type_defs);
    let readme = generator.generate_readme();

    assert!(readme.contains("Fuzz Testing"));
    assert!(readme.contains("Round-trip integrity"));
}
