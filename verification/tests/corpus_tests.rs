//! Tests for the corpus generator: exact serialized bytes under the shared
//! layout.

use lumos_core::corpus_generator::CorpusGenerator;
use lumos_core::ir::{
    EnumDefinition, EnumVariantDefinition, FieldDefinition, Metadata, StructDefinition,
    TypeDefinition, TypeInfo,
};

#[test]
fn test_generates_minimal_struct_corpus() {
    let type_defs = vec![TypeDefinition::Struct(StructDefinition {
        name: "SimpleStruct".to_string(),
        fields: vec![FieldDefinition {
            name: "value".to_string(),
            type_info: TypeInfo::Primitive("u32".to_string()),
            optional: false,
        }],
        metadata: Metadata::default(),
    })];

    let generator = CorpusGenerator::new(&type_defs);
    let corpus = generator.generate_all();

    assert!(!corpus.is_empty());
    let minimal = corpus.iter().find(|c| c.name.contains("minimal")).unwrap();

    // u32 minimal value: 4 bytes of zeros
    assert_eq!(minimal.data, vec![0, 0, 0, 0]);
}

#[test]
fn test_generates_account_discriminator() {
    let type_defs = vec![TypeDefinition::Struct(StructDefinition {
        name: "AccountStruct".to_string(),
        fields: vec![FieldDefinition {
            name: "value".to_string(),
            type_info: TypeInfo::Primitive("u8".to_string()),
            optional: false,
        }],
        metadata: Metadata {
            solana: true,
            attributes: vec!["account".to_string()],
        },
    })];

    let generator = CorpusGenerator::new(&type_defs);
    let corpus = generator.generate_all();

    let minimal = corpus.iter().find(|c| c.name.contains("minimal")).unwrap();

    // Should have 8-byte discriminator + 1 byte for u8 field
    assert_eq!(minimal.data.len(), 9);
    assert_eq!(&minimal.data[0..8], &[0u8; 8]); // discriminator
}

#[test]
fn test_generates_optional_corpus() {
    let type_defs = vec![TypeDefinition::Struct(StructDefinition {
        name: "OptionalStruct".to_string(),
        fields: vec![FieldDefinition {
            name: "maybe_value".to_string(),
            type_info: TypeInfo::Option(Box::new(TypeInfo::Primitive("u32".to_string()))),
            optional: true,
        }],
        metadata: Metadata::default(),
    })];

    let generator = CorpusGenerator::new(&type_defs);
    let corpus = generator.generate_all();

    let none_case = corpus
        .iter()
        .find(|c| c.name.contains("optional_none"))
        .unwrap();
    let some_case = corpus
        .iter()
        .find(|c| c.name.contains("optional_some"))
        .unwrap();

    // None: just 0u8
    assert_eq!(none_case.data, vec![0]);

    // Some: 1u8 + 4 bytes for u32
    assert_eq!(some_case.data.len(), 5);
    assert_eq!(some_case.data[0], 1);
}

#[test]
fn test_generates_vec_corpus() {
    let type_defs = vec![TypeDefinition::Struct(StructDefinition {
        name: "VecStruct".to_string(),
        fields: vec![FieldDefinition {
            name: "items".to_string(),
            type_info: TypeInfo::Array(Box::new(TypeInfo::Primitive("u8".to_string()))),
            optional: false,
        }],
        metadata: Metadata::default(),
    })];

    let generator = CorpusGenerator::new(&type_defs);
    let corpus = generator.generate_all();

    let empty_vec = corpus.iter().find(|c| c.name.contains("empty_vec")).unwrap();
    let single_elem = corpus
        .iter()
        .find(|c| c.name.contains("single_elem_vec"))
        .unwrap();

    // Empty vec: length 0 (4-byte little-endian count)
    assert_eq!(empty_vec.data, vec![0, 0, 0, 0]);

    // Single elem: length 1 + 1 byte for u8
    assert_eq!(single_elem.data, vec![1, 0, 0, 0, 0]);
}

#[test]
fn test_generates_enum_corpus() {
    let type_defs = vec![TypeDefinition::Enum(EnumDefinition {
        name: "SimpleEnum".to_string(),
        variants: vec![
            EnumVariantDefinition::Unit {
                name: "Variant1".to_string(),
            },
            EnumVariantDefinition::Tuple {
                name: "Variant2".to_string(),
                types: vec![TypeInfo::Primitive("u32".to_string())],
            },
        ],
        metadata: Metadata::default(),
    })];

    let generator = CorpusGenerator::new(&type_defs);
    let corpus = generator.generate_all();

    assert_eq!(corpus.len(), 2); // One per variant

    // Variant1: discriminant 0 (4-byte little-endian)
    assert_eq!(corpus[0].data, vec![0, 0, 0, 0]);

    // Variant2: discriminant 1 + u32 value
    assert_eq!(corpus[1].data.len(), 8);
    assert_eq!(&corpus[1].data[0..4], &[1, 0, 0, 0]); // discriminant
}

#[test]
fn test_maximal_primitive_values() {
    let type_defs = vec![];
    let generator = CorpusGenerator::new(&type_defs);

    assert_eq!(generator.serialize_maximal_primitive("u8"), vec![255]);
    assert_eq!(generator.serialize_maximal_primitive("i8"), vec![127]);
    assert_eq!(generator.serialize_maximal_primitive("bool"), vec![1]);
    assert_eq!(
        generator.serialize_maximal_primitive("u32"),
        vec![255, 255, 255, 255]
    );
    // the largest finite 8-byte float, little endian
    assert_eq!(
        generator.serialize_maximal_primitive("f64"),
        vec![255, 255, 255, 255, 255, 255, 239, 127]
    );
    // text: 100-character run with its length prefix
    let text = generator.serialize_maximal_primitive("String");
    assert_eq!(&text[0..4], &[100, 0, 0, 0]);
    assert_eq!(text.len(), 104);
    assert!(text[4..].iter().all(|&b| b == 65));
}

#[test]
fn test_minimal_string_is_length_prefix_only() {
    let type_defs = vec![];
    let generator = CorpusGenerator::new(&type_defs);
    assert_eq!(
        generator.serialize_minimal_primitive("String"),
        vec![0, 0, 0, 0]
    );
}
