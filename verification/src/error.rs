//! Error types for the schema compiler core.

use vstd::prelude::*;
use crate::strutil::{dec_string, spec_dec};

verus! {

/// Source location information for error reporting.
#[derive(Debug, Clone, PartialEq)]
pub struct SourceLocation {
    /// Line number (1-indexed).
    pub line: usize,
    /// Column number (1-indexed).
    pub column: usize,
}

impl SourceLocation {
    /// Create a new source location.
    pub fn new(line: usize, column: usize) -> (r: Self)
        ensures
            r.line == line,
            r.column == column,
    {
        SourceLocation { line, column }
    }

    /// Format the location as `line:column`.
    pub fn format(&self) -> (r: String)
        ensures
            r@ == spec_location(self.line as nat, self.column as nat),
    {
        let mut s = dec_string(self.line as u64);
        s.append(":");
        let col = dec_string(self.column as u64);
        s.append(col.as_str());
        assert(s@ =~= spec_location(self.line as nat, self.column as nat));
        s
    }
}

/// The `line:column` rendering of a source location.
pub open spec fn spec_location(line: nat, column: nat) -> Seq<char> {
    spec_dec(line) + ":"@ + spec_dec(column)
}

/// Errors of the compilation pipeline. Every failure aborts the pipeline for
/// its input; there is no recoverable tier.
#[derive(Debug, Clone, PartialEq)]
pub enum LumosError {
    /// Malformed source text, with an optional source location.
    SchemaParse(String, Option<SourceLocation>),
    /// Code generation error.
    CodeGen(String),
    /// A user-defined type reference that never resolves, with an optional
    /// source location.
    TypeValidation(String, Option<SourceLocation>),
}

/// The human-readable rendering of an error.
pub open spec fn spec_error_message(e: LumosError) -> Seq<char> {
    match e {
        LumosError::SchemaParse(msg, loc) => match loc {
            Some(l) => msg@ + " at line "@ + spec_dec(l.line as nat) + ", column "@ + spec_dec(
                l.column as nat,
            ),
            None => msg@,
        },
        LumosError::CodeGen(msg) => "Code generation error: "@ + msg@,
        LumosError::TypeValidation(msg, loc) => match loc {
            Some(l) => msg@ + " (at "@ + spec_location(l.line as nat, l.column as nat) + ")"@,
            None => msg@,
        },
    }
}

impl LumosError {
    /// The human-readable message for this error.
    pub fn message(&self) -> (r: String)
        ensures
            r@ == spec_error_message(*self),
    {
        match self {
            LumosError::SchemaParse(msg, loc) => match loc {
                Some(l) => {
                    let mut s = msg.clone();
                    s.append(" at line ");
                    let line = dec_string(l.line as u64);
                    s.append(line.as_str());
                    s.append(", column ");
                    let col = dec_string(l.column as u64);
                    s.append(col.as_str());
                    assert(s@ =~= spec_error_message(*self));
                    s
                },
                None => msg.clone(),
            },
            LumosError::CodeGen(msg) => {
                let mut s = String::from_str("Code generation error: ");
                s.append(msg.as_str());
                assert(s@ =~= spec_error_message(*self));
                s
            },
            LumosError::TypeValidation(msg, loc) => match loc {
                Some(l) => {
                    let mut s = msg.clone();
                    s.append(" (at ");
                    let f = l.format();
                    s.append(f.as_str());
                    s.append(")");
                    assert(s@ =~= spec_error_message(*self));
                    s
                },
                None => msg.clone(),
            },
        }
    }
}

} // verus!
