//! Tests for the declaration parser: accepted syntax, error paths and edge
//! cases.

use lumos_core::ast::{AttributeValue, Item};
use lumos_core::parser::{parse_attribute_value, parse_lumos_file};
use lumos_core::transform::transform_to_ir;

#[test]
fn test_parse_simple_struct() {
    let input = r#"
        struct User {
            id: u64,
            name: String,
        }
    "#;

    let result = parse_lumos_file(input);
    assert!(result.is_ok());

    let file = result.unwrap();
    assert_eq!(file.items.len(), 1);

    match &file.items[0] {
        Item::Struct(struct_def) => {
            assert_eq!(struct_def.name, "User");
            assert_eq!(struct_def.fields.len(), 2);
            assert_eq!(struct_def.fields[0].name, "id");
            assert_eq!(struct_def.fields[1].name, "name");
        }
        _ => panic!("Expected struct item"),
    }
}

#[test]
fn test_parse_with_attributes() {
    let input = r#"
        #[solana]
        #[account]
        struct UserAccount {
            #[key]
            wallet: PublicKey,

            #[max(32)]
            username: String,
        }
    "#;

    let result = parse_lumos_file(input);
    assert!(result.is_ok());

    let file = result.unwrap();
    match &file.items[0] {
        Item::Struct(struct_def) => {
            assert!(struct_def.has_attribute("solana"));
            assert!(struct_def.has_attribute("account"));
            assert_eq!(struct_def.fields[0].name, "wallet");
            assert!(struct_def.fields[0].has_attribute("key"));
        }
        _ => panic!("Expected struct item"),
    }
}

#[test]
fn test_parse_optional_type() {
    let input = r#"
        struct User {
            email: Option<String>,
        }
    "#;

    let result = parse_lumos_file(input);
    assert!(result.is_ok());

    let file = result.unwrap();
    match &file.items[0] {
        Item::Struct(struct_def) => {
            let field = &struct_def.fields[0];
            assert!(field.optional);
        }
        _ => panic!("Expected struct item"),
    }
}

#[test]
fn test_parse_array_type() {
    let input = r#"
        struct Team {
            members: [u64],
        }
    "#;

    let result = parse_lumos_file(input);
    assert!(result.is_ok());

    let file = result.unwrap();
    match &file.items[0] {
        Item::Struct(struct_def) => {
            let field = &struct_def.fields[0];
            assert!(field.type_spec.is_array());
        }
        _ => panic!("Expected struct item"),
    }
}

#[test]
fn test_unclosed_brace() {
    let input = r#"
        struct Player {
            name: String,
    "#;

    let result = parse_lumos_file(input);
    assert!(result.is_err(), "Should fail on unclosed brace");
}

#[test]
fn test_invalid_identifier_starting_with_number() {
    let input = r#"
        struct 123Invalid {
            field: u64,
        }
    "#;

    let result = parse_lumos_file(input);
    assert!(
        result.is_err(),
        "Should fail on identifier starting with number"
    );
}

#[test]
fn test_missing_type_annotation() {
    let input = r#"
        struct Player {
            name
        }
    "#;

    let result = parse_lumos_file(input);
    assert!(result.is_err(), "Should fail on missing type annotation");
}

#[test]
fn test_invalid_attribute_syntax() {
    let input = r#"
        #[solana
        struct Player {
            name: String,
        }
    "#;

    let result = parse_lumos_file(input);
    assert!(result.is_err(), "Should fail on malformed attribute");
}

#[test]
fn test_missing_struct_keyword() {
    let input = r#"
        Player {
            name: String,
        }
    "#;

    let result = parse_lumos_file(input);
    assert!(result.is_err(), "Should fail on missing struct keyword");
}

#[test]
fn test_empty_struct_body() {
    let input = r#"
        struct Player {}
    "#;

    // This should actually succeed - empty structs are valid
    let result = parse_lumos_file(input);
    assert!(result.is_ok(), "Empty structs should be valid");
}

#[test]
fn test_invalid_field_separator() {
    let input = r#"
        struct Player {
            name: String;
            level: u16;
        }
    "#;

    let result = parse_lumos_file(input);
    // Semicolons instead of commas - should fail
    assert!(result.is_err(), "Should fail on invalid field separator");
}

#[test]
fn test_unclosed_bracket_in_array() {
    let input = r#"
        struct Inventory {
            items: [u64,
        }
    "#;

    let result = parse_lumos_file(input);
    assert!(result.is_err(), "Should fail on unclosed bracket");
}

#[test]
fn test_invalid_enum_variant_syntax() {
    let input = r#"
        enum GameState {
            Active,
            Paused
            Finished,
        }
    "#;

    let result = parse_lumos_file(input);
    assert!(result.is_err(), "Should fail on missing comma");
}

#[test]
fn test_reserved_rust_keyword_as_field_name() {
    let input = r#"
        struct Player {
            type: u64,
        }
    "#;

    // This might actually parse but could cause issues in generation
    let result = parse_lumos_file(input);
    let _ = result;
}

#[test]
fn test_nested_option_option() {
    let input = r#"
        struct Player {
            data: Option<Option<u64>>,
        }
    "#;

    let result = parse_lumos_file(input);
    assert!(result.is_ok(), "Parser should accept nested Option");
}

#[test]
fn test_invalid_type_in_array() {
    let input = r#"
        struct Inventory {
            items: [InvalidType],
        }
    "#;

    let ast = parse_lumos_file(input);
    assert!(ast.is_ok(), "Parser accepts unknown types");

    // But transform should catch it
    let result = transform_to_ir(ast.unwrap());
    assert!(result.is_err(), "Transform should catch undefined type");
}

#[test]
fn test_extremely_long_identifier() {
    let long_name = "A".repeat(1000);
    let input = format!(
        r#"
        struct {} {{
            field: u64,
        }}
    "#,
        long_name
    );

    // Should handle long identifiers
    let result = parse_lumos_file(&input);
    let _ = result;
}

#[test]
fn test_extremely_nested_types() {
    let input = r#"
        struct Nested {
            data: Option<Option<Option<Option<u64>>>>,
        }
    "#;

    let ast = parse_lumos_file(input).unwrap();
    let result = transform_to_ir(ast);

    // Should handle deep nesting
    assert!(result.is_ok());
}

#[test]
fn test_whitespace_variations() {
    let inputs = vec![
        "struct Player{name:String,}",                 // No spaces
        "struct    Player   {  name  :  String  ,  }", // Extra spaces
        "struct\nPlayer\n{\nname:\nString,\n}",        // Newlines
    ];

    for input in inputs {
        let result = parse_lumos_file(input);
        assert!(result.is_ok(), "Should handle whitespace variations");
    }
}

#[test]
fn test_trailing_comma_in_struct() {
    let input = r#"
        struct Player {
            name: String,
            level: u16,
        }
    "#;

    let result = parse_lumos_file(input);
    assert!(result.is_ok(), "Trailing commas should be allowed");
}

#[test]
fn test_no_trailing_comma_in_struct() {
    let input = r#"
        struct Player {
            name: String,
            level: u16
        }
    "#;

    let result = parse_lumos_file(input);
    assert!(result.is_ok(), "No trailing comma should be allowed");
}

#[test]
fn test_comments_are_skipped() {
    let input = r#"
        // a leading line comment
        struct Player {
            /* the display name */
            name: String,
        }
    "#;

    let result = parse_lumos_file(input);
    assert!(result.is_ok(), "Comments should be skipped");
}

#[test]
fn test_non_schema_items_are_ignored() {
    let input = r#"
        fn helper() { let x = 1; }

        struct Player {
            name: String,
        }
    "#;

    let file = parse_lumos_file(input).unwrap();
    assert_eq!(file.items.len(), 1);
}

#[test]
fn test_empty_file_is_an_error() {
    let result = parse_lumos_file("");
    assert!(result.is_err(), "A file without declarations is an error");
}

#[test]
fn test_enum_without_variants_is_an_error() {
    let input = r#"
        enum Empty {}
    "#;

    let result = parse_lumos_file(input);
    assert!(result.is_err(), "An enum must declare at least one variant");
}

#[test]
fn test_unicode_in_identifiers() {
    let input = "struct Player { na\u{ef}ve: u64, }";

    // identifier rules here are ASCII; the parse may fail, but must not panic
    let result = parse_lumos_file(input);
    let _ = result;
}

#[test]
fn test_attribute_value_reading() {
    assert_eq!(parse_attribute_value("100"), AttributeValue::Integer(100));
    assert_eq!(parse_attribute_value(" 42 "), AttributeValue::Integer(42));
    assert_eq!(parse_attribute_value("true"), AttributeValue::Bool(true));
    assert_eq!(parse_attribute_value("false"), AttributeValue::Bool(false));
    assert_eq!(
        parse_attribute_value("\"hi\""),
        AttributeValue::String("hi".to_string())
    );
    assert_eq!(
        parse_attribute_value("banana"),
        AttributeValue::String("banana".to_string())
    );
    // an overlong number falls back to the raw text
    assert_eq!(
        parse_attribute_value("123456789012345678901234"),
        AttributeValue::String("123456789012345678901234".to_string())
    );
}
