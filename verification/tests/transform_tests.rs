//! Tests for the AST-to-IR transform: normalization, metadata extraction and
//! whole-graph reference validation.

use lumos_core::error::LumosError;
use lumos_core::ir::{EnumVariantDefinition, TypeDefinition, TypeInfo};
use lumos_core::parser::parse_lumos_file;
use lumos_core::transform::{map_type_alias, transform_to_ir};

#[test]
fn test_transform_simple_struct() {
    let input = r#"
        struct User {
            id: u64,
            name: String,
        }
    "#;

    let ast = parse_lumos_file(input).unwrap();
    let ir = transform_to_ir(ast).unwrap();

    assert_eq!(ir.len(), 1);
    match &ir[0] {
        TypeDefinition::Struct(s) => {
            assert_eq!(s.name, "User");
            assert_eq!(s.fields.len(), 2);
        }
        _ => panic!("Expected struct type definition"),
    }
}

#[test]
fn test_transform_with_type_aliases() {
    let input = r#"
        struct Product {
            price: number,
            name: string,
            available: boolean,
        }
    "#;

    let ast = parse_lumos_file(input).unwrap();
    let ir = transform_to_ir(ast).unwrap();

    match &ir[0] {
        TypeDefinition::Struct(s) => {
            let fields = &s.fields;
            assert!(matches!(fields[0].type_info, TypeInfo::Primitive(ref t) if t == "u64"));
            assert!(matches!(fields[1].type_info, TypeInfo::Primitive(ref t) if t == "String"));
            assert!(matches!(fields[2].type_info, TypeInfo::Primitive(ref t) if t == "bool"));
        }
        _ => panic!("Expected struct type definition"),
    }
}

#[test]
fn test_transform_optional_field() {
    let input = r#"
        struct User {
            email: Option<String>,
        }
    "#;

    let ast = parse_lumos_file(input).unwrap();
    let ir = transform_to_ir(ast).unwrap();

    match &ir[0] {
        TypeDefinition::Struct(s) => {
            let field = &s.fields[0];
            assert!(field.optional);
            assert!(matches!(field.type_info, TypeInfo::Option(_)));
        }
        _ => panic!("Expected struct type definition"),
    }
}

#[test]
fn test_transform_array_type() {
    let input = r#"
        struct Team {
            members: [u64],
        }
    "#;

    let ast = parse_lumos_file(input).unwrap();
    let ir = transform_to_ir(ast).unwrap();

    match &ir[0] {
        TypeDefinition::Struct(s) => {
            let field = &s.fields[0];
            assert!(matches!(field.type_info, TypeInfo::Array(_)));
        }
        _ => panic!("Expected struct type definition"),
    }
}

#[test]
fn test_transform_solana_metadata() {
    let input = r#"
        #[solana]
        #[account]
        struct UserAccount {
            wallet: PublicKey,
        }
    "#;

    let ast = parse_lumos_file(input).unwrap();
    let ir = transform_to_ir(ast).unwrap();

    match &ir[0] {
        TypeDefinition::Struct(s) => {
            assert!(s.metadata.solana);
            assert!(s.metadata.attributes.contains(&"account".to_string()));
        }
        _ => panic!("Expected struct type definition"),
    }
}

#[test]
fn test_transform_unit_enum() {
    let input = r#"
        #[solana]
        enum GameState {
            Inactive,
            Active,
            Paused,
            Finished,
        }
    "#;

    let ast = parse_lumos_file(input).unwrap();
    let ir = transform_to_ir(ast).unwrap();

    assert_eq!(ir.len(), 1);
    match &ir[0] {
        TypeDefinition::Enum(e) => {
            assert_eq!(e.name, "GameState");
            assert_eq!(e.variants.len(), 4);
            assert!(e.metadata.solana);
            assert!(e.is_unit_only());

            assert_eq!(e.variants[0].name(), "Inactive");
            assert_eq!(e.variants[1].name(), "Active");
            assert_eq!(e.variants[2].name(), "Paused");
            assert_eq!(e.variants[3].name(), "Finished");
        }
        _ => panic!("Expected enum type definition"),
    }
}

#[test]
fn test_transform_tuple_enum() {
    let input = r#"
        enum GameEvent {
            PlayerJoined(PublicKey),
            ScoreUpdated(PublicKey, u64),
        }
    "#;

    let ast = parse_lumos_file(input).unwrap();
    let ir = transform_to_ir(ast).unwrap();

    assert_eq!(ir.len(), 1);
    match &ir[0] {
        TypeDefinition::Enum(e) => {
            assert_eq!(e.name, "GameEvent");
            assert_eq!(e.variants.len(), 2);
            assert!(e.has_tuple_variants());

            match &e.variants[0] {
                EnumVariantDefinition::Tuple { name, types } => {
                    assert_eq!(name, "PlayerJoined");
                    assert_eq!(types.len(), 1);
                }
                _ => panic!("Expected tuple variant"),
            }

            match &e.variants[1] {
                EnumVariantDefinition::Tuple { name, types } => {
                    assert_eq!(name, "ScoreUpdated");
                    assert_eq!(types.len(), 2);
                }
                _ => panic!("Expected tuple variant"),
            }
        }
        _ => panic!("Expected enum type definition"),
    }
}

#[test]
fn test_transform_struct_enum() {
    let input = r#"
        enum GameInstruction {
            Initialize {
                authority: PublicKey,
                max_players: u8,
            },
            Terminate,
        }
    "#;

    let ast = parse_lumos_file(input).unwrap();
    let ir = transform_to_ir(ast).unwrap();

    assert_eq!(ir.len(), 1);
    match &ir[0] {
        TypeDefinition::Enum(e) => {
            assert_eq!(e.name, "GameInstruction");
            assert_eq!(e.variants.len(), 2);
            assert!(e.has_struct_variants());

            match &e.variants[0] {
                EnumVariantDefinition::Struct { name, fields } => {
                    assert_eq!(name, "Initialize");
                    assert_eq!(fields.len(), 2);
                    assert_eq!(fields[0].name, "authority");
                    assert_eq!(fields[1].name, "max_players");
                }
                _ => panic!("Expected struct variant"),
            }

            match &e.variants[1] {
                EnumVariantDefinition::Unit { name } => {
                    assert_eq!(name, "Terminate");
                }
                _ => panic!("Expected unit variant"),
            }
        }
        _ => panic!("Expected enum type definition"),
    }
}

#[test]
fn test_validate_undefined_type_in_struct() {
    let input = r#"
        struct Player {
            inventory: UndefinedType,
        }
    "#;

    let ast = parse_lumos_file(input).unwrap();
    let result = transform_to_ir(ast);

    assert!(result.is_err());
    let err = result.unwrap_err();
    assert!(matches!(err, LumosError::TypeValidation(_, _)));
    assert!(err.message().contains("Undefined type 'UndefinedType'"));
    assert!(err.message().contains("Player.inventory"));
}

#[test]
fn test_validate_undefined_type_in_array() {
    let input = r#"
        struct Inventory {
            items: [MissingItem],
        }
    "#;

    let ast = parse_lumos_file(input).unwrap();
    let result = transform_to_ir(ast);

    assert!(result.is_err());
    let err = result.unwrap_err();
    assert!(err.message().contains("Undefined type 'MissingItem'"));
}

#[test]
fn test_validate_undefined_type_in_option() {
    let input = r#"
        struct User {
            profile: Option<NonexistentProfile>,
        }
    "#;

    let ast = parse_lumos_file(input).unwrap();
    let result = transform_to_ir(ast);

    assert!(result.is_err());
    let err = result.unwrap_err();
    assert!(err.message().contains("Undefined type 'NonexistentProfile'"));
}

#[test]
fn test_validate_undefined_type_in_enum_tuple_variant() {
    let input = r#"
        enum GameEvent {
            PlayerJoined(UndefinedPlayer),
        }
    "#;

    let ast = parse_lumos_file(input).unwrap();
    let result = transform_to_ir(ast);

    assert!(result.is_err());
    let err = result.unwrap_err();
    assert!(err.message().contains("Undefined type 'UndefinedPlayer'"));
}

#[test]
fn test_validate_undefined_type_in_enum_struct_variant() {
    let input = r#"
        enum Instruction {
            Initialize {
                config: MissingConfig,
            },
        }
    "#;

    let ast = parse_lumos_file(input).unwrap();
    let result = transform_to_ir(ast);

    assert!(result.is_err());
    let err = result.unwrap_err();
    assert!(err.message().contains("Undefined type 'MissingConfig'"));
}

#[test]
fn test_validate_valid_user_defined_types() {
    let input = r#"
        struct Item {
            id: u64,
            name: String,
        }

        struct Inventory {
            items: [Item],
            selected: Option<Item>,
        }

        enum GameState {
            Playing {
                inventory: Inventory,
            },
            GameOver,
        }
    "#;

    let ast = parse_lumos_file(input).unwrap();
    let result = transform_to_ir(ast);

    // Should succeed - all user-defined types are valid
    assert!(result.is_ok());
    let ir = result.unwrap();
    assert_eq!(ir.len(), 3);
}

#[test]
fn test_validate_nested_user_defined_types() {
    let input = r#"
        struct Inner {
            value: u64,
        }

        struct Middle {
            inner: Inner,
        }

        struct Outer {
            middle: [Middle],
        }
    "#;

    let ast = parse_lumos_file(input).unwrap();
    let result = transform_to_ir(ast);

    // Should succeed - nested references are valid
    assert!(result.is_ok());
}

#[test]
fn test_validate_primitive_types_always_valid() {
    let input = r#"
        struct AllPrimitives {
            a: u8,
            b: u16,
            c: u32,
            d: u64,
            e: u128,
            f: i8,
            g: i16,
            h: i32,
            i: i64,
            j: i128,
            k: bool,
            l: String,
            m: PublicKey,
            n: Signature,
        }
    "#;

    let ast = parse_lumos_file(input).unwrap();
    let result = transform_to_ir(ast);

    // Should succeed - all primitive types
    assert!(result.is_ok());
}

#[test]
fn test_undefined_type_in_field() {
    let input = r#"
        struct Player {
            inventory: UndefinedInventory,
        }
    "#;

    let ast = parse_lumos_file(input).unwrap();
    let result = transform_to_ir(ast);

    assert!(result.is_err());
    let err_msg = result.unwrap_err().message();
    assert!(err_msg.contains("UndefinedInventory"));
}

#[test]
fn test_undefined_type_in_enum_tuple() {
    let input = r#"
        enum GameEvent {
            PlayerJoined(NonexistentPlayer),
        }
    "#;

    let ast = parse_lumos_file(input).unwrap();
    let result = transform_to_ir(ast);

    assert!(result.is_err());
    let err_msg = result.unwrap_err().message();
    assert!(err_msg.contains("NonexistentPlayer"));
}

#[test]
fn test_undefined_type_in_enum_struct() {
    let input = r#"
        enum Instruction {
            Initialize {
                config: MissingConfig,
            },
        }
    "#;

    let ast = parse_lumos_file(input).unwrap();
    let result = transform_to_ir(ast);

    assert!(result.is_err());
    let err_msg = result.unwrap_err().message();
    assert!(err_msg.contains("MissingConfig"));
}

#[test]
fn test_undefined_type_in_nested_array() {
    let input = r#"
        struct Container {
            items: [UndefinedItem],
        }
    "#;

    let ast = parse_lumos_file(input).unwrap();
    let result = transform_to_ir(ast);

    assert!(result.is_err());
    let err_msg = result.unwrap_err().message();
    assert!(err_msg.contains("UndefinedItem"));
}

#[test]
fn test_undefined_type_in_option() {
    let input = r#"
        struct Player {
            profile: Option<MissingProfile>,
        }
    "#;

    let ast = parse_lumos_file(input).unwrap();
    let result = transform_to_ir(ast);

    assert!(result.is_err());
    let err_msg = result.unwrap_err().message();
    assert!(err_msg.contains("MissingProfile"));
}

#[test]
fn test_deeply_nested_undefined_type() {
    let input = r#"
        struct Container {
            data: Option<[UndefinedType]>,
        }
    "#;

    let ast = parse_lumos_file(input).unwrap();
    let result = transform_to_ir(ast);

    assert!(result.is_err());
    let err_msg = result.unwrap_err().message();
    assert!(err_msg.contains("UndefinedType"));
}

#[test]
fn test_multiple_undefined_types() {
    let input = r#"
        struct Player {
            inventory: Inventory,
            stats: Stats,
        }
    "#;

    let ast = parse_lumos_file(input).unwrap();
    let result = transform_to_ir(ast);

    // Should fail on first undefined type
    assert!(result.is_err());
}

#[test]
fn test_circular_reference_detection() {
    let input = r#"
        struct Node {
            next: Option<Node>,
        }
    "#;

    let ast = parse_lumos_file(input).unwrap();
    let result = transform_to_ir(ast);

    // Self-reference is legal: the declared-name set is collected before any
    // validation walk begins.
    let _ = result;
}

#[test]
fn test_alias_canonicalization_is_idempotent() {
    assert_eq!(map_type_alias("number"), "u64");
    assert_eq!(map_type_alias("string"), "String");
    assert_eq!(map_type_alias("boolean"), "bool");
    // already-canonical names are untouched
    assert_eq!(map_type_alias("u64"), "u64");
    assert_eq!(map_type_alias("String"), "String");
    assert_eq!(map_type_alias("bool"), "bool");
    // normalizing a normalized name changes nothing
    assert_eq!(map_type_alias(&map_type_alias("number")), "u64");
    assert_eq!(map_type_alias(&map_type_alias("boolean")), "bool");
}
