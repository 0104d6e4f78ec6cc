//! The two code generators. Each consumes the full IR list and renders one
//! complete output module, deterministically: type declarations plus a
//! serialization-schema description, both derived from the one authoritative
//! layout table, so the two outputs stay layout-compatible.

pub mod rust;

pub mod typescript;
