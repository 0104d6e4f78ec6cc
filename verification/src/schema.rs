//! The legacy flat schema form: one named type as a plain record list.
//!
//! Reading this form from its on-disk format happens outside the library;
//! the types here are the plain values handed over after that read.

use vstd::prelude::*;

verus! {

/// A legacy schema definition.
#[derive(Debug, Clone, PartialEq)]
pub struct Schema {
    /// Schema name.
    pub name: String,
    /// Whether this is a type of the target on-chain domain.
    pub solana: bool,
    /// Fields in this schema.
    pub fields: Vec<Field>,
}

/// A field in a legacy schema.
#[derive(Debug, Clone, PartialEq)]
pub struct Field {
    /// Field name.
    pub name: String,
    /// Field type name.
    pub type_ident: String,
    /// Whether this field is optional.
    pub optional: bool,
}

} // verus!
