//! The yaserde back-end of the annotation contract.
//!
//! Every operation's exact output is fixed by a spec function over the
//! captured target namespace and the construct's fields; the executable
//! functions are proved to return precisely that text.

use vstd::prelude::*;

use crate::generator::Generator;
use crate::model::{Enum, EnumCase, Namespace, RsFile, Struct, StructField, StructFieldSource,
    TupleStruct};
use crate::qname::{QName, parse_qname, qname_local, qname_prefix};

verus! {

/// The namespace behind an optional borrow, as an owned value.
pub open spec fn spec_opt_ns(ns: Option<&Namespace>) -> Option<Namespace> {
    match ns {
        Some(n) => Some(*n),
        None => None,
    }
}

/// The prefix a target namespace binds: its name, when it is configured
/// and is not a default namespace.
pub open spec fn spec_ns_prefix(ns: Option<Namespace>) -> Option<Seq<char>> {
    match ns {
        Some(n) => match n.name {
            Some(p) => Some(p@),
            None => None,
        },
        None => None,
    }
}

/// The directive text for an attribute field.  Attributes default to
/// unqualified: only an explicit prefix in the name itself is rendered.
pub open spec fn spec_attribute_annotation(name: Seq<char>) -> Seq<char> {
    match qname_prefix(name) {
        Some(prefix) => "    #[yaserde(attribute, prefix = \""@ + prefix + "\" rename = \""@
            + qname_local(name) + "\")]\n"@,
        None => "    #[yaserde(attribute, rename = \""@ + qname_local(name) + "\")]\n"@,
    }
}

/// The prefix an element field resolves to: an explicit prefix in the name
/// wins; otherwise the target namespace's prefix, if one is configured.
pub open spec fn spec_element_prefix(name: Seq<char>, ns: Option<Namespace>) -> Option<Seq<char>> {
    match qname_prefix(name) {
        Some(prefix) => Some(prefix),
        None => spec_ns_prefix(ns),
    }
}

/// A bare rename directive, shared by enum cases and unprefixed elements.
pub open spec fn spec_rename_annotation(name: Seq<char>) -> Seq<char> {
    "    #[yaserde(rename = \""@ + name + "\")]\n"@
}

/// The directive text for an element field.
pub open spec fn spec_element_annotation(name: Seq<char>, ns: Option<Namespace>) -> Seq<char> {
    match spec_element_prefix(name, ns) {
        Some(prefix) => "    #[yaserde(prefix = \""@ + prefix + "\", rename = \""@
            + qname_local(name) + "\")]\n"@,
        None => spec_rename_annotation(qname_local(name)),
    }
}

/// The directive text for a tuple-struct declaration: fixed boilerplate,
/// identical whatever the namespace.
pub open spec fn spec_tuple_struct_annotation() -> Seq<char> {
    "#[derive(Default, PartialEq, Debug, UtilsTupleSerDe)]\n"@
}

/// The directive text for an enum declaration: fixed boilerplate,
/// independent of the namespace.
pub open spec fn spec_enum_annotation() -> Seq<char> {
    "#[derive(PartialEq, Debug, YaSerialize, YaDeserialize)]"@
}

/// The directive text for a struct declaration: fixed boilerplate followed
/// by one of three namespace clauses, chosen in priority order.
pub open spec fn spec_struct_annotation(ns: Option<Namespace>) -> Seq<char> {
    let derives = "#[derive(Default, PartialEq, Debug, YaSerialize, YaDeserialize)]\n"@;
    match ns {
        Some(tn) => match tn.name {
            Some(prefix) => derives + "#[yaserde(prefix = \""@ + prefix@ + "\", namespace = \""@
                + prefix@ + ": "@ + tn.uri@ + "\")]\n"@,
            None => derives + "#[yaserde(namespace = \""@ + tn.uri@ + "\")]\n"@,
        },
        None => derives + "#[yaserde()]\n"@,
    }
}

/// The directive text for a struct field, by its classification.
pub open spec fn spec_field_annotation(sf: StructField, ns: Option<Namespace>) -> Seq<char> {
    match sf.source {
        StructFieldSource::Choice => "    #[yaserde(flatten)]\n"@,
        StructFieldSource::Attribute => spec_attribute_annotation(sf.name@),
        StructFieldSource::Element => spec_element_annotation(sf.name@, ns),
        StructFieldSource::Other => Seq::<char>::empty(),
    }
}

/// The directive text for an attribute field: an explicit prefix in the
/// name is rendered, and the local name becomes the rename; the target
/// namespace plays no part.
pub fn yaserde_for_attribute(name: &str) -> (r: String)
    ensures
        r@ == spec_attribute_annotation(name@),
{
    match parse_qname(name) {
        QName::Qualified { prefix, local } => {
            let mut r = "    #[yaserde(attribute, prefix = \"".to_owned();
            r.append(prefix.as_str());
            r.append("\" rename = \"");
            r.append(local.as_str());
            r.append("\")]\n");
            proof {
                assert(r@ =~= spec_attribute_annotation(name@));
            }
            r
        },
        QName::Unqualified { local } => {
            let mut r = "    #[yaserde(attribute, rename = \"".to_owned();
            r.append(local.as_str());
            r.append("\")]\n");
            proof {
                assert(r@ =~= spec_attribute_annotation(name@));
            }
            r
        },
    }
}

/// A prefixed element directive, from an already resolved prefix and local
/// name.
fn prefixed_element_text(prefix: &str, local: &str) -> (r: String)
    ensures
        r@ == "    #[yaserde(prefix = \""@ + prefix@ + "\", rename = \""@ + local@ + "\")]\n"@,
{
    let mut r = "    #[yaserde(prefix = \"".to_owned();
    r.append(prefix);
    r.append("\", rename = \"");
    r.append(local);
    r.append("\")]\n");
    proof {
        assert(r@ =~= "    #[yaserde(prefix = \""@ + prefix@ + "\", rename = \""@ + local@
            + "\")]\n"@);
    }
    r
}

/// The directive text for an element field: an explicit prefix in the name
/// wins; an unqualified name falls back to the target namespace's prefix,
/// if one is configured.
pub fn yaserde_for_element(name: &str, target_namespace: Option<&Namespace>) -> (r: String)
    ensures
        r@ == spec_element_annotation(name@, spec_opt_ns(target_namespace)),
{
    match parse_qname(name) {
        QName::Qualified { prefix, local } => prefixed_element_text(
            prefix.as_str(),
            local.as_str(),
        ),
        QName::Unqualified { local } => match target_namespace {
            Some(ns) => match &ns.name {
                Some(p) => prefixed_element_text(p.as_str(), local.as_str()),
                None => yaserde_rename_macro(local.as_str()),
            },
            None => yaserde_rename_macro(local.as_str()),
        },
    }
}

/// A rename directive carrying the given name unchanged.
pub fn yaserde_rename_macro(name: &str) -> (r: String)
    ensures
        r@ == spec_rename_annotation(name@),
{
    let mut r = "    #[yaserde(rename = \"".to_owned();
    r.append(name);
    r.append("\")]\n");
    proof {
        assert(r@ =~= spec_rename_annotation(name@));
    }
    r
}

/// The fixed flatten directive: the field is transparent in the emitted
/// document structure.
pub fn yaserde_for_flatten_element() -> (r: String)
    ensures
        r@ == "    #[yaserde(flatten)]\n"@,
{
    "    #[yaserde(flatten)]\n".to_owned()
}

/// The yaserde realization of the annotation contract, holding the target
/// namespace captured at construction.
pub struct YaserdeGenerator {
    pub target_ns: Option<Namespace>,
}

impl YaserdeGenerator {
    /// Captures the schema unit's target namespace.
    pub fn new(schema: &RsFile) -> (r: Self)
        ensures
            r.target_ns == schema.target_ns,
    {
        let target_ns = match &schema.target_ns {
            Some(ns) => {
                let name = match &ns.name {
                    Some(p) => Some(p.clone()),
                    None => None,
                };
                Some(Namespace { name, uri: ns.uri.clone() })
            },
            None => None,
        };
        YaserdeGenerator { target_ns }
    }
}

impl Generator for YaserdeGenerator {
    open spec fn captured_ns(&self) -> Option<Namespace> {
        self.target_ns
    }

    open spec fn tuple_struct_text(&self, ts: &TupleStruct) -> Seq<char> {
        spec_tuple_struct_annotation()
    }

    open spec fn struct_text(&self, st: &Struct) -> Seq<char> {
        spec_struct_annotation(self.target_ns)
    }

    open spec fn enum_text(&self, en: &Enum) -> Seq<char> {
        spec_enum_annotation()
    }

    open spec fn field_text(&self, sf: &StructField) -> Seq<char> {
        spec_field_annotation(*sf, self.target_ns)
    }

    open spec fn enum_case_text(&self, ec: &EnumCase) -> Seq<char> {
        spec_rename_annotation(ec.name@)
    }

    fn target_ns(&self) -> (r: &Option<Namespace>) {
        &self.target_ns
    }

    fn tuple_struct_macro(&self, _ts: &TupleStruct) -> (r: String) {
        "#[derive(Default, PartialEq, Debug, UtilsTupleSerDe)]\n".to_owned()
    }

    fn struct_macro(&self, _st: &Struct) -> (r: String) {
        let derives = "#[derive(Default, PartialEq, Debug, YaSerialize, YaDeserialize)]\n";
        match &self.target_ns {
            Some(tn) => match &tn.name {
                Some(prefix) => {
                    let mut r = derives.to_owned();
                    r.append("#[yaserde(prefix = \"");
                    r.append(prefix.as_str());
                    r.append("\", namespace = \"");
                    r.append(prefix.as_str());
                    r.append(": ");
                    r.append(tn.uri.as_str());
                    r.append("\")]\n");
                    proof {
                        assert(r@ =~= spec_struct_annotation(self.target_ns));
                    }
                    r
                },
                None => {
                    let mut r = derives.to_owned();
                    r.append("#[yaserde(namespace = \"");
                    r.append(tn.uri.as_str());
                    r.append("\")]\n");
                    proof {
                        assert(r@ =~= spec_struct_annotation(self.target_ns));
                    }
                    r
                },
            },
            None => {
                let mut r = derives.to_owned();
                r.append("#[yaserde()]\n");
                proof {
                    assert(r@ =~= spec_struct_annotation(self.target_ns));
                }
                r
            },
        }
    }

    fn enum_macro(&self, _en: &Enum) -> (r: String) {
        "#[derive(PartialEq, Debug, YaSerialize, YaDeserialize)]".to_owned()
    }

    fn struct_field_macro(&self, sf: &StructField) -> (r: String) {
        match sf.source {
            StructFieldSource::Choice => yaserde_for_flatten_element(),
            StructFieldSource::Attribute => yaserde_for_attribute(sf.name.as_str()),
            StructFieldSource::Element => yaserde_for_element(
                sf.name.as_str(),
                self.target_ns.as_ref(),
            ),
            StructFieldSource::Other => String::new(),
        }
    }

    fn enum_case_macro(&self, ec: &EnumCase) -> (r: String) {
        yaserde_rename_macro(ec.name.as_str())
    }
}

} // verus!
