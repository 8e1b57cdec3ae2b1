//! The annotation contract: given a construct of the schema model, produce
//! the serialization directive text to attach to its generated declaration.
//!
//! The contract decouples what the schema says from what directive syntax a
//! particular serialization back-end needs.  Each back-end fixes, through
//! the spec functions, the exact text of every operation; the executable
//! operations are then pure functions of the captured namespace and their
//! argument, so repeated calls on identical input yield identical text.

use vstd::prelude::*;

use crate::model::{Enum, EnumCase, Namespace, Struct, StructField, TupleStruct};

verus! {

pub trait Generator {
    /// The target namespace this generator captured at construction.
    spec fn captured_ns(&self) -> Option<Namespace>;

    /// What `tuple_struct_macro` returns.
    spec fn tuple_struct_text(&self, ts: &TupleStruct) -> Seq<char>;

    /// What `struct_macro` returns.
    spec fn struct_text(&self, st: &Struct) -> Seq<char>;

    /// What `enum_macro` returns.
    spec fn enum_text(&self, en: &Enum) -> Seq<char>;

    /// What `struct_field_macro` returns.
    spec fn field_text(&self, sf: &StructField) -> Seq<char>;

    /// What `enum_case_macro` returns.
    spec fn enum_case_text(&self, ec: &EnumCase) -> Seq<char>;

    /// The namespace captured at construction.
    fn target_ns(&self) -> (r: &Option<Namespace>)
        ensures
            *r == self.captured_ns(),
    ;

    /// The directive text for a tuple-struct declaration.
    fn tuple_struct_macro(&self, ts: &TupleStruct) -> (r: String)
        ensures
            r@ == self.tuple_struct_text(ts),
    ;

    /// The directive text for a struct declaration.
    fn struct_macro(&self, st: &Struct) -> (r: String)
        ensures
            r@ == self.struct_text(st),
    ;

    /// The directive text for an enum declaration.
    fn enum_macro(&self, en: &Enum) -> (r: String)
        ensures
            r@ == self.enum_text(en),
    ;

    /// The directive text for one struct field.
    fn struct_field_macro(&self, sf: &StructField) -> (r: String)
        ensures
            r@ == self.field_text(sf),
    ;

    /// The directive text for one enum case.
    fn enum_case_macro(&self, ec: &EnumCase) -> (r: String)
        ensures
            r@ == self.enum_case_text(ec),
    ;
}

} // verus!
