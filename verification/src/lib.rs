//! Compile-time generator of runtime-type-information implementations.
//!
//! Given the structural declaration of a data type — its shape (named-field
//! struct, tuple-like struct, or enumeration), its fields with their
//! visibility, declared types and attached attributes — the generator
//! classifies the shape, translates visibilities, extracts per-field hints
//! and ignore flags from the recognized attribute namespace, computes field
//! offsets through a checked layout facility, and emits the source text of a
//! trait implementation that reconstructs this metadata as a runtime value
//! tree.

pub mod model;
pub mod visibility;
pub mod text;
pub mod attrs;
pub mod layout;
pub mod extract;
pub mod emit;
