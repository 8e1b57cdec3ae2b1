//! The qualification rules the emitter is built around, stated and proved
//! once over the spec functions that the operations' contracts use.

use vstd::prelude::*;

use crate::generator::Generator;
use crate::model::{Enum, EnumCase, Namespace, Struct, StructField, TupleStruct};
use crate::qname::{has_sep, qname_local, qname_prefix, sep_at};
use crate::yaserde_generator::{spec_attribute_annotation, spec_element_annotation,
    spec_rename_annotation, spec_struct_annotation, YaserdeGenerator};

verus! {

/// `needle` occurs somewhere inside `hay`.
pub open spec fn contains_text(hay: Seq<char>, needle: Seq<char>) -> bool {
    exists|i: int| 0 <= i && i + needle.len() <= hay.len() && #[trigger] hay.subrange(
        i,
        i + needle.len(),
    ) == needle
}

/// With no target namespace configured, the struct annotation is the fixed
/// boilerplate followed by the bare empty-namespace marker: it names no
/// uri and no prefix.
pub proof fn lemma_struct_annotation_without_namespace()
    ensures
        spec_struct_annotation(None) == "#[derive(Default, PartialEq, Debug, YaSerialize, YaDeserialize)]\n"@
            + "#[yaserde()]\n"@,
{
}

/// With a named target namespace, the struct annotation carries the prefix
/// and the uri together in one clause: the `"prefix: uri"` binding.
pub proof fn lemma_struct_annotation_binds_prefix_to_uri(ns: Namespace)
    requires
        ns.name is Some,
    ensures
        contains_text(spec_struct_annotation(Some(ns)), ns.name->0@ + ": "@ + ns.uri@),
{
    let p = ns.name->0@;
    let head = "#[derive(Default, PartialEq, Debug, YaSerialize, YaDeserialize)]\n"@
        + "#[yaserde(prefix = \""@ + p + "\", namespace = \""@;
    let clause = p + ": "@ + ns.uri@;
    let text = spec_struct_annotation(Some(ns));
    assert(text =~= head + clause + "\")]\n"@);
    let i = head.len() as int;
    assert(text.subrange(i, i + clause.len() as int) =~= clause);
}

/// A qualified name splits at its first separator only: the prefix is
/// everything before it, the local name everything after it, kept verbatim
/// even when it holds further separators.
pub proof fn lemma_qualified_name_splits_once(name: Seq<char>, i: int)
    requires
        sep_at(name, i),
    ensures
        spec_attribute_annotation(name) == "    #[yaserde(attribute, prefix = \""@ + name.subrange(
            0,
            i,
        ) + "\" rename = \""@ + name.subrange(i + 1, name.len() as int) + "\")]\n"@,
{
    crate::qname::lemma_split_at_first_sep(name, i);
}

/// An attribute field whose name has no separator resolves to no prefix:
/// the attribute annotation never consults the target namespace, so this
/// holds whatever namespace is configured.
pub proof fn lemma_attribute_stays_unqualified(name: Seq<char>)
    requires
        !has_sep(name),
    ensures
        spec_attribute_annotation(name) == "    #[yaserde(attribute, rename = \""@ + name
            + "\")]\n"@,
{
}

/// An element field whose name has no separator inherits the target
/// namespace's prefix when one is configured and named.
pub proof fn lemma_element_inherits_namespace_prefix(name: Seq<char>, ns: Namespace)
    requires
        !has_sep(name),
        ns.name is Some,
    ensures
        spec_element_annotation(name, Some(ns)) == "    #[yaserde(prefix = \""@ + ns.name->0@
            + "\", rename = \""@ + name + "\")]\n"@,
{
}

/// An element field whose name has no separator stays unprefixed when the
/// target namespace is absent or is a default namespace.
pub proof fn lemma_element_without_prefix(name: Seq<char>, ns: Option<Namespace>)
    requires
        !has_sep(name),
        ns is Some ==> ns->0.name is None,
    ensures
        spec_element_annotation(name, ns) == spec_rename_annotation(name),
{
}

/// Every operation of the annotation contract is a pure function of the
/// captured namespace and its argument: each executable operation's
/// contract pins its result to one of the spec texts below, so two calls
/// on identical input — and any two emitters over the same target
/// namespace — yield byte-identical text.
pub proof fn lemma_emitter_pure(
    a: &YaserdeGenerator,
    b: &YaserdeGenerator,
    ts: &TupleStruct,
    st: &Struct,
    en: &Enum,
    sf: &StructField,
    ec: &EnumCase,
)
    requires
        a.target_ns == b.target_ns,
    ensures
        a.tuple_struct_text(ts) == b.tuple_struct_text(ts),
        a.struct_text(st) == b.struct_text(st),
        a.enum_text(en) == b.enum_text(en),
        a.field_text(sf) == b.field_text(sf),
        a.enum_case_text(ec) == b.enum_case_text(ec),
{
}

} // verus!
