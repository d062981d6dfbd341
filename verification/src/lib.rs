//! Build-time binding synthesizer for protocol scalar types.
//!
//! Given a declarative configuration attached to a value-type declaration,
//! this library computes the full set of interface bindings a request
//! execution engine needs to treat that type as a scalar: output conversion,
//! input parsing, raw-token parsing, textual rendering and reflection
//! metadata.  A structurally similar synthesizer builds per-operation
//! dispatch tables and bidirectional conversions for the tagged-union value
//! wrapper the engine uses for heterogeneous scalar storage.
//!
//! The configuration mini-language, the merging of configuration fragments,
//! strategy selection, the structural generic-dependency analysis and the
//! shape of every synthesized binding are all stated in contracts and
//! verified.  Reading the host language's syntax tree and rendering the
//! synthesized bindings back into source text are conversions kept outside
//! this crate.

pub mod aliases;
pub mod decl;
pub mod depend;
pub mod dispatch;
pub mod entry;
pub mod errors;
pub mod fragment;
pub mod urls;
pub mod wrapper;
pub mod scalar;
pub mod span;
pub mod strategy;
pub mod text;
pub mod types;
