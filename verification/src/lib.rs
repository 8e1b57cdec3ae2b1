//! Namespace-aware annotation emitter for XML-schema code generation.
//!
//! A schema compilation unit carries an optional target namespace and a
//! sequence of type declarations.  For every generated struct, tuple-struct,
//! enum, field and enum case, the emitter decides what serialization
//! directive text must be attached to it, encoding the XML
//! namespace-qualification rules: a qualified name splits at its first
//! separator, elements fall back to the target namespace's prefix,
//! attributes stay unqualified.

pub mod generator;
pub mod laws;
pub mod model;
pub mod qname;
pub mod yaserde_generator;
