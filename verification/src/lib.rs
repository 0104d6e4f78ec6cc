//! Schema compiler core: a declaration language for data structures is parsed
//! into an AST, transformed and validated into a language-agnostic IR, and
//! rendered by two deterministic code generators that share one primitive
//! layout table, so both outputs agree on the exact binary serialization
//! layout.
//!
//! The pipeline is strictly linear and single-pass: source text to AST, AST
//! to IR, and then each generator independently over the same immutable IR.
//! Every stage is a pure, in-memory computation over owned data; the core is
//! stateless between invocations, with no caching and no I/O.

pub mod ast;
pub mod audit_generator;
pub mod corpus_generator;
pub mod error;
pub mod fuzz_generator;
pub mod generators;
pub mod ir;
pub mod laws;
pub mod parser;
pub mod schema;
pub mod security_analyzer;
pub mod size_calculator;
pub mod strutil;
pub mod transform;

use vstd::prelude::*;
use crate::error::LumosError;
use crate::generators::rust::spec_rust_module;
use crate::generators::typescript::spec_ts_module;
use crate::ir::view_defs;
use crate::parser::spec_parse;
use crate::transform::{first_validation_error, spec_transform_file, spec_undef_message};

verus! {

/// The two rendered output modules of one compilation.
#[derive(Debug, Clone, PartialEq)]
pub struct GeneratedCode {
    /// The structured-language module.
    pub rust: String,
    /// The structurally-typed web module.
    pub typescript: String,
}

/// The whole pipeline's verdict on one source text: what `generate_code` and
/// `validate_schema` owe for it. An input whose parse does not exist fails
/// with a parse error; one whose parse holds an unresolved reference fails
/// with exactly the validation message of the first failure; any other input
/// succeeds, and the success case is given by `ok`.
pub open spec fn pipeline_verdict<T>(
    source: Seq<char>,
    r: Result<T, LumosError>,
    ok: spec_fn(T) -> bool,
) -> bool {
    match spec_parse(source) {
        None => r matches Err(e) && e is SchemaParse,
        Some(f) => match first_validation_error(spec_transform_file(f)) {
            Some((ty, location)) => r matches Err(e) && e matches LumosError::TypeValidation(
                msg,
                loc,
            ) && loc is None && msg@ == spec_undef_message(ty, location),
            None => r matches Ok(g) && ok(g),
        },
    }
}

/// Runs the whole pipeline on declaration source text: parse, transform and
/// validate, then render both outputs from the same immutable IR.
///
/// Success is owed exactly when the source parses and every reference
/// resolves, and then both modules are byte for byte the renderings of the
/// IR this source transforms to; otherwise the result is the parse error or
/// the first validation failure.
pub fn generate_code(source: &str) -> (r: Result<GeneratedCode, LumosError>)
    ensures
        pipeline_verdict(
            source@,
            r,
            |g: GeneratedCode|
                {
                    &&& g.rust@ == spec_rust_module(spec_transform_file(spec_parse(source@)->0))
                    &&& g.typescript@ == spec_ts_module(
                        spec_transform_file(spec_parse(source@)->0),
                    )
                },
        ),
{
    let file = match parser::parse_lumos_file(source) {
        Ok(f) => f,
        Err(e) => {
            return Err(e);
        },
    };
    let ghost fv = file@;
    let type_defs = match transform::transform_to_ir(file) {
        Ok(defs) => defs,
        Err(e) => {
            return Err(e);
        },
    };
    assert(view_defs(type_defs@) == spec_transform_file(fv));
    let rust = generators::rust::generate_module(&type_defs);
    let typescript = generators::typescript::generate_module(&type_defs);
    Ok(GeneratedCode { rust, typescript })
}

/// Validates declaration source text without rendering: parses it and runs
/// the transform's whole-graph reference validation. It succeeds exactly
/// when the source parses and every reference resolves, and otherwise
/// surfaces the parse error or the first validation failure.
pub fn validate_schema(source: &str) -> (r: Result<(), LumosError>)
    ensures
        pipeline_verdict(source@, r, |u: ()| true),
{
    let file = match parser::parse_lumos_file(source) {
        Ok(f) => f,
        Err(e) => {
            return Err(e);
        },
    };
    match transform::transform_to_ir(file) {
        Ok(_) => Ok(()),
        Err(e) => Err(e),
    }
}

} // verus!
