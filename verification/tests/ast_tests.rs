//! Tests for the AST data structures and their accessors.

use lumos_core::ast::{Attribute, AttributeValue, EnumDef, EnumVariant, FieldDef, Item, StructDef, TypeSpec};

#[test]
fn test_struct_has_attribute() {
    let struct_def = StructDef {
        name: "User".to_string(),
        attributes: vec![
            Attribute {
                name: "solana".to_string(),
                value: None,
            },
            Attribute {
                name: "account".to_string(),
                value: None,
            },
        ],
        fields: vec![],
    };

    assert!(struct_def.has_attribute("solana"));
    assert!(struct_def.has_attribute("account"));
    assert!(!struct_def.has_attribute("key"));
}

#[test]
fn test_field_max_length() {
    let field = FieldDef {
        name: "username".to_string(),
        type_spec: TypeSpec::Primitive("string".to_string()),
        optional: false,
        attributes: vec![Attribute {
            name: "max".to_string(),
            value: Some(AttributeValue::Integer(32)),
        }],
    };

    assert_eq!(field.max_length(), Some(32));
}

#[test]
fn test_type_spec_to_string() {
    let type_u64 = TypeSpec::Primitive("u64".to_string());
    assert_eq!(type_u64.as_string(), "u64");

    let type_array = TypeSpec::Array(Box::new(TypeSpec::Primitive("PublicKey".to_string())));
    assert_eq!(type_array.as_string(), "[PublicKey]");
}

#[test]
fn test_enum_has_attribute() {
    let enum_def = EnumDef {
        name: "GameState".to_string(),
        attributes: vec![Attribute {
            name: "solana".to_string(),
            value: None,
        }],
        variants: vec![],
    };

    assert!(enum_def.has_attribute("solana"));
    assert!(!enum_def.has_attribute("account"));
}

#[test]
fn test_enum_is_unit_only() {
    let unit_enum = EnumDef {
        name: "GameState".to_string(),
        attributes: vec![],
        variants: vec![
            EnumVariant::Unit {
                name: "Active".to_string(),
            },
            EnumVariant::Unit {
                name: "Inactive".to_string(),
            },
        ],
    };

    assert!(unit_enum.is_unit_only());

    let mixed_enum = EnumDef {
        name: "GameEvent".to_string(),
        attributes: vec![],
        variants: vec![
            EnumVariant::Unit {
                name: "Start".to_string(),
            },
            EnumVariant::Tuple {
                name: "PlayerJoined".to_string(),
                types: vec![TypeSpec::Primitive("PublicKey".to_string())],
            },
        ],
    };

    assert!(!mixed_enum.is_unit_only());
}

#[test]
fn test_enum_variant_name() {
    let unit = EnumVariant::Unit {
        name: "Active".to_string(),
    };
    assert_eq!(unit.name(), "Active");

    let tuple = EnumVariant::Tuple {
        name: "PlayerJoined".to_string(),
        types: vec![],
    };
    assert_eq!(tuple.name(), "PlayerJoined");

    let struct_variant = EnumVariant::Struct {
        name: "Initialize".to_string(),
        fields: vec![],
    };
    assert_eq!(struct_variant.name(), "Initialize");
}

#[test]
fn test_item_enum() {
    let enum_def = EnumDef {
        name: "Status".to_string(),
        attributes: vec![],
        variants: vec![],
    };

    let item = Item::Enum(enum_def.clone());
    match item {
        Item::Enum(e) => assert_eq!(e.name, "Status"),
        _ => panic!("Expected enum item"),
    }
}
