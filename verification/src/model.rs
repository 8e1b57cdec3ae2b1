//! The schema model: the parsed representation of one schema compilation
//! unit, produced upstream and borrowed read-only by the emitter.

use vstd::prelude::*;

verus! {

/// A namespace binding.  One without a `name` is a default namespace:
/// it binds no prefix.
#[derive(Debug)]
pub struct Namespace {
    pub name: Option<String>,
    pub uri: String,
}

/// One schema compilation unit: an optional target namespace and its type
/// declarations, in source order.
#[derive(Debug)]
pub struct RsFile {
    pub target_ns: Option<Namespace>,
    pub types: Vec<RsEntity>,
}

/// A type declaration of the schema unit.
#[derive(Debug)]
pub enum RsEntity {
    TupleStruct(TupleStruct),
    Struct(Struct),
    Enum(Enum),
}

/// A generated type with a single unnamed value slot; it carries no
/// field-level structure relevant to annotation.
#[derive(Debug)]
pub struct TupleStruct {
    pub name: String,
}

/// A generated record type with named fields.
#[derive(Debug)]
pub struct Struct {
    pub name: String,
    pub fields: Vec<StructField>,
}

/// One field of a generated record type.  The `name` may be qualified,
/// of the form `"prefix:local"`.
#[derive(Debug)]
pub struct StructField {
    pub name: String,
    pub source: StructFieldSource,
}

/// The structural classification of a field, assigned upstream and treated
/// as ground truth: exactly one applies.
#[derive(Debug, Clone, Copy, PartialEq, Eq, Structural)]
pub enum StructFieldSource {
    Attribute,
    Element,
    Choice,
    Other,
}

/// A generated enumeration type.
#[derive(Debug)]
pub struct Enum {
    pub name: String,
    pub cases: Vec<EnumCase>,
}

/// One case of a generated enumeration type.
#[derive(Debug)]
pub struct EnumCase {
    pub name: String,
}

} // verus!
