//! End-to-end tests of the whole pipeline and the documented scenarios.

use lumos_core::corpus_generator::CorpusGenerator;
use lumos_core::error::{LumosError, SourceLocation};
use lumos_core::ir::{TypeDefinition, TypeInfo};
use lumos_core::parser::parse_lumos_file;
use lumos_core::size_calculator::SizeCalculator;
use lumos_core::transform::transform_to_ir;
use lumos_core::{generate_code, validate_schema};

#[test]
fn it_works() {
    assert_eq!(2 + 2, 4);
}

// source with two fields parses to one struct item and transforms to one
// struct definition with canonical primitive fields
#[test]
fn scenario_simple_struct_to_ir() {
    let source = r#"
        struct User {
            id: u64,
            name: String,
        }
    "#;

    let ast = parse_lumos_file(source).unwrap();
    assert_eq!(ast.items.len(), 1);
    match &ast.items[0] {
        lumos_core::ast::Item::Struct(s) => assert_eq!(s.fields.len(), 2),
        _ => panic!("Expected struct item"),
    }

    let ir = transform_to_ir(ast).unwrap();
    assert_eq!(ir.len(), 1);
    match &ir[0] {
        TypeDefinition::Struct(s) => {
            assert_eq!(s.name, "User");
            assert_eq!(s.fields[0].name, "id");
            assert!(matches!(s.fields[0].type_info, TypeInfo::Primitive(ref t) if t == "u64"));
            assert_eq!(s.fields[1].name, "name");
            assert!(matches!(s.fields[1].type_info, TypeInfo::Primitive(ref t) if t == "String"));
        }
        _ => panic!("Expected struct definition"),
    }
}

// a reference to a type that is never declared fails with the offending name
// and the dotted location
#[test]
fn scenario_missing_reference_is_reported() {
    let source = r#"
        struct P {
            inventory: Missing,
        }
    "#;

    let ast = parse_lumos_file(source).unwrap();
    let err = transform_to_ir(ast).unwrap_err();
    let msg = err.message();
    assert!(msg.contains("Missing"));
    assert!(msg.contains("P.inventory"));
}

// a self-referential optional field is legal: the declared-name set is built
// before the validation walk
#[test]
fn scenario_self_reference_through_optional() {
    let source = r#"
        struct Node {
            next: Option<Node>,
        }
    "#;

    let ast = parse_lumos_file(source).unwrap();
    let result = transform_to_ir(ast);
    assert!(result.is_ok());
}

// an array field has minimum layout size 4 (the count prefix); a
// single-element instance of a byte array takes 5 bytes
#[test]
fn scenario_array_layout() {
    let source = r#"
        struct S {
            items: [u8],
        }
    "#;

    let ast = parse_lumos_file(source).unwrap();
    let ir = transform_to_ir(ast).unwrap();

    let calc = SizeCalculator::new(&ir);
    let sizes = calc.calculate_all();
    assert_eq!(sizes[0].total_bytes.min_bytes(), 4);
    assert!(!sizes[0].total_bytes.is_fixed());

    let corpus = CorpusGenerator::new(&ir);
    let files = corpus.generate_all();
    let single = files
        .iter()
        .find(|c| c.name.contains("single_elem_vec"))
        .unwrap();
    assert_eq!(single.data.len(), 5);
    assert_eq!(single.data, vec![1, 0, 0, 0, 0]);
}

// a unit variant encodes as the 4 discriminant bytes alone; a one-field
// 4-byte tuple variant encodes as 4 + 4 = 8 bytes
#[test]
fn scenario_enum_variant_encoding() {
    let source = r#"
        enum E {
            A,
            B(u32),
        }
    "#;

    let ast = parse_lumos_file(source).unwrap();
    let ir = transform_to_ir(ast).unwrap();

    let corpus = CorpusGenerator::new(&ir);
    let files = corpus.generate_all();
    assert_eq!(files.len(), 2);
    assert_eq!(files[0].data, vec![0, 0, 0, 0]);
    assert_eq!(files[1].data.len(), 8);
    assert_eq!(&files[1].data[0..4], &[1, 0, 0, 0]);

    // the table agrees: 4 discriminant bytes plus the widest variant
    let calc = SizeCalculator::new(&ir);
    let sizes = calc.calculate_all();
    assert_eq!(sizes[0].total_bytes.min_bytes(), 8);
}

// an empty struct renders in both backends without error, with a
// recognizable empty declaration
#[test]
fn scenario_empty_struct_renders_in_both_backends() {
    let source = r#"
        struct Empty {}
    "#;

    let out = generate_code(source).unwrap();
    assert!(out.rust.contains("pub struct Empty"));
    assert!(out.rust.contains("{\n}"));
    assert!(out.typescript.contains("export interface Empty"));
    assert!(out.typescript.contains("export const EmptySchema"));
}

// compiling the same source twice yields byte-identical output both times
#[test]
fn round_trip_determinism() {
    let source = r#"
        #[solana]
        #[account]
        struct TestAccount {
            owner: PublicKey,
            amount: u64,
            active: bool,
        }

        enum GameState {
            Active,
            Paused,
        }
    "#;

    let first = generate_code(source).unwrap();
    let second = generate_code(source).unwrap();
    assert_eq!(first.rust, second.rust);
    assert_eq!(first.typescript, second.typescript);

    let ir1 = transform_to_ir(parse_lumos_file(source).unwrap()).unwrap();
    let ir2 = transform_to_ir(parse_lumos_file(source).unwrap()).unwrap();
    assert_eq!(ir1, ir2);
}

#[test]
fn test_validate_schema_valid() {
    let source = r#"
        #[solana]
        struct Account {
            owner: PublicKey,
        }
    "#;

    let result = validate_schema(source);
    assert!(result.is_ok());
}

#[test]
fn test_validate_schema_invalid() {
    let source = r#"
        #[solana]
        struct Account {
            owner: InvalidType,
        }
    "#;

    let result = validate_schema(source);
    assert!(result.is_err());
}

#[test]
fn test_generate_code_simple_struct() {
    let source = r#"
        #[solana]
        #[account]
        struct PlayerAccount {
            wallet: PublicKey,
            level: u16,
        }
    "#;

    let result = generate_code(source);
    assert!(result.is_ok());

    let code = result.unwrap();
    assert!(code.rust.contains("pub struct PlayerAccount"));
    assert!(code.rust.contains("#[account]"));
    assert!(code.typescript.contains("interface PlayerAccount"));
    assert!(code.typescript.contains("borsh.publicKey"));
}

#[test]
fn test_generate_code_enum() {
    let source = r#"
        #[solana]
        enum GameState {
            Active,
            Paused,
            Finished,
        }
    "#;

    let result = generate_code(source);
    assert!(result.is_ok());

    let code = result.unwrap();
    assert!(code.rust.contains("pub enum GameState"));
    assert!(code.typescript.contains("type GameState"));
    assert!(code.typescript.contains("kind:"));
}

#[test]
fn test_error_messages() {
    // each error variant renders its documented message shape
    let parse_err = generate_code("struct {").unwrap_err();
    assert!(matches!(parse_err, LumosError::SchemaParse(_, _)));
    assert!(parse_err.message().contains("Failed to parse .lumos file"));

    let gen_err = LumosError::CodeGen("backend unavailable".to_string());
    assert_eq!(
        gen_err.message(),
        "Code generation error: backend unavailable"
    );

    let validation = LumosError::TypeValidation(
        "Undefined type 'X' referenced in 'Y.z'".to_string(),
        Some(SourceLocation::new(3, 7)),
    );
    assert_eq!(
        validation.message(),
        "Undefined type 'X' referenced in 'Y.z' (at 3:7)"
    );
}

#[test]
fn test_source_location_format() {
    let loc = SourceLocation::new(12, 40);
    assert_eq!(loc.format(), "12:40");
    assert_eq!(loc.line, 12);
    assert_eq!(loc.column, 40);
}

// both spellings of optionality collapse into one optional layer
#[test]
fn test_nested_optional_markers_collapse() {
    let source = r#"
        struct P {
            data: Option<Option<u64>>,
        }
    "#;

    let ir = transform_to_ir(parse_lumos_file(source).unwrap()).unwrap();
    match &ir[0] {
        TypeDefinition::Struct(s) => {
            assert!(s.fields[0].optional);
            match &s.fields[0].type_info {
                TypeInfo::Option(inner) => {
                    assert!(matches!(**inner, TypeInfo::Primitive(ref t) if t == "u64"));
                }
                _ => panic!("Expected a single optional layer"),
            }
        }
        _ => panic!("Expected struct definition"),
    }
}

#[test]
fn test_e2e_type_compatibility() {
    // both backends must agree on every primitive through the shared table
    let lumos_code = r#"
        #[solana]
        struct DataTypes {
            tiny: u8,
            small: u16,
            medium: u32,
            large: u64,
            huge: u128,
            signed: i64,
            float: f32,
            flag: bool,
            text: String,
            key: PublicKey,
            items: [u32],
            maybe: Option<String>,
        }
    "#;

    let ast = parse_lumos_file(lumos_code).expect("Failed to parse");
    let ir = transform_to_ir(ast).expect("Failed to transform");

    let rust_code = lumos_core::generators::rust::generate(&ir[0]);
    let ts_code = lumos_core::generators::typescript::generate(&ir[0]);

    assert!(rust_code.contains("pub tiny: u8"));
    assert!(rust_code.contains("pub small: u16"));
    assert!(rust_code.contains("pub medium: u32"));
    assert!(rust_code.contains("pub large: u64"));
    assert!(rust_code.contains("pub huge: u128"));
    assert!(rust_code.contains("pub signed: i64"));
    assert!(rust_code.contains("pub float: f32"));
    assert!(rust_code.contains("pub flag: bool"));
    assert!(rust_code.contains("pub text: String"));
    assert!(rust_code.contains("pub key: Pubkey"));
    assert!(rust_code.contains("pub items: Vec<u32>"));
    assert!(rust_code.contains("pub maybe: Option<String>"));

    assert!(ts_code.contains("tiny: number"));
    assert!(ts_code.contains("small: number"));
    assert!(ts_code.contains("medium: number"));
    assert!(ts_code.contains("large: number"));
    assert!(ts_code.contains("huge: bigint"));
    assert!(ts_code.contains("signed: number"));
    assert!(ts_code.contains("float: number"));
    assert!(ts_code.contains("flag: boolean"));
    assert!(ts_code.contains("text: string"));
    assert!(ts_code.contains("key: PublicKey"));
    assert!(ts_code.contains("items: number[]"));
    assert!(ts_code.contains("maybe?: string | undefined"));

    assert!(ts_code.contains("borsh.u8('tiny')"));
    assert!(ts_code.contains("borsh.u16('small')"));
    assert!(ts_code.contains("borsh.u32('medium')"));
    assert!(ts_code.contains("borsh.u64('large')"));
    assert!(ts_code.contains("borsh.u128('huge')"));
    assert!(ts_code.contains("borsh.i64('signed')"));
    assert!(ts_code.contains("borsh.f32('float')"));
    assert!(ts_code.contains("borsh.bool('flag')"));
    assert!(ts_code.contains("borsh.string('text')"));
    assert!(ts_code.contains("borsh.publicKey('key')"));
    assert!(ts_code.contains("borsh.vec(borsh.u32)('items')"));
    assert!(ts_code.contains("borsh.option(borsh.string)('maybe')"));
}
