use xsd_parser::generator::Generator;
use xsd_parser::model::{Enum, EnumCase, Namespace, RsFile, Struct, StructField, StructFieldSource,
    TupleStruct};
use xsd_parser::qname::{parse_qname, QName};
use xsd_parser::yaserde_generator::{yaserde_for_attribute, yaserde_for_element,
    yaserde_for_flatten_element, yaserde_rename_macro, YaserdeGenerator};

fn named_ns(name: &str, uri: &str) -> Namespace {
    Namespace { name: Some(name.to_string()), uri: uri.to_string() }
}

fn default_ns(uri: &str) -> Namespace {
    Namespace { name: None, uri: uri.to_string() }
}

fn schema(target_ns: Option<Namespace>) -> RsFile {
    RsFile { target_ns, types: Vec::new() }
}

fn field(name: &str, source: StructFieldSource) -> StructField {
    StructField { name: name.to_string(), source }
}

#[test]
fn test_yaserde_for_element() {
    let ns = Some(named_ns("tt", "http://www.w3.org"));
    assert_eq!(
        yaserde_for_element("xop:Include", ns.as_ref()),
        "    #[yaserde(prefix = \"xop\", rename = \"Include\")]\n"
    );
}

#[test]
fn test_yaserde_rename_macro() {
    assert_eq!(
        yaserde_rename_macro("NTP"),
        "    #[yaserde(rename = \"NTP\")]\n"
    )
}

#[test]
fn attribute_with_explicit_prefix() {
    assert_eq!(
        yaserde_for_attribute("tt:Include"),
        "    #[yaserde(attribute, prefix = \"tt\" rename = \"Include\")]\n"
    );
}

#[test]
fn attribute_without_prefix() {
    assert_eq!(
        yaserde_for_attribute("Include"),
        "    #[yaserde(attribute, rename = \"Include\")]\n"
    );
}

#[test]
fn attribute_ignores_target_namespace() {
    let gen = YaserdeGenerator::new(&schema(Some(named_ns("xop", "http://example"))));
    assert_eq!(
        gen.struct_field_macro(&field("Include", StructFieldSource::Attribute)),
        "    #[yaserde(attribute, rename = \"Include\")]\n"
    );
}

#[test]
fn element_inherits_namespace_prefix() {
    let ns = Some(named_ns("xop", "http://example"));
    assert_eq!(
        yaserde_for_element("Include", ns.as_ref()),
        "    #[yaserde(prefix = \"xop\", rename = \"Include\")]\n"
    );
}

#[test]
fn element_without_namespace() {
    assert_eq!(
        yaserde_for_element("Include", None),
        "    #[yaserde(rename = \"Include\")]\n"
    );
}

#[test]
fn element_with_default_namespace() {
    let ns = Some(default_ns("urn:x"));
    assert_eq!(
        yaserde_for_element("Include", ns.as_ref()),
        "    #[yaserde(rename = \"Include\")]\n"
    );
}

#[test]
fn qualified_name_splits_at_first_separator_only() {
    match parse_qname("a:b:c") {
        QName::Qualified { prefix, local } => {
            assert_eq!(prefix, "a");
            assert_eq!(local, "b:c");
        }
        QName::Unqualified { .. } => panic!("expected a qualified name"),
    }
    assert_eq!(
        yaserde_for_attribute("a:b:c"),
        "    #[yaserde(attribute, prefix = \"a\" rename = \"b:c\")]\n"
    );
}

#[test]
fn unqualified_name_is_kept_whole() {
    match parse_qname("Include") {
        QName::Unqualified { local } => assert_eq!(local, "Include"),
        QName::Qualified { .. } => panic!("expected an unqualified name"),
    }
}

#[test]
fn empty_prefix_and_empty_local_are_kept_verbatim() {
    assert_eq!(
        yaserde_for_attribute(":x"),
        "    #[yaserde(attribute, prefix = \"\" rename = \"x\")]\n"
    );
    assert_eq!(
        yaserde_for_attribute("x:"),
        "    #[yaserde(attribute, prefix = \"x\" rename = \"\")]\n"
    );
}

#[test]
fn flatten_directive_is_fixed() {
    assert_eq!(yaserde_for_flatten_element(), "    #[yaserde(flatten)]\n");
    let gen = YaserdeGenerator::new(&schema(None));
    assert_eq!(
        gen.struct_field_macro(&field("transport", StructFieldSource::Choice)),
        "    #[yaserde(flatten)]\n"
    );
}

#[test]
fn other_field_gets_no_directive() {
    let gen = YaserdeGenerator::new(&schema(Some(named_ns("xop", "http://example"))));
    assert_eq!(gen.struct_field_macro(&field("body", StructFieldSource::Other)), "");
}

#[test]
fn struct_without_namespace() {
    let gen = YaserdeGenerator::new(&schema(None));
    let st = Struct { name: "Foo".to_string(), fields: Vec::new() };
    assert_eq!(
        gen.struct_macro(&st),
        "#[derive(Default, PartialEq, Debug, YaSerialize, YaDeserialize)]\n#[yaserde()]\n"
    );
}

#[test]
fn struct_with_named_namespace() {
    let gen = YaserdeGenerator::new(&schema(Some(named_ns("xop", "http://example"))));
    let st = Struct { name: "Foo".to_string(), fields: Vec::new() };
    let out = gen.struct_macro(&st);
    assert_eq!(
        out,
        "#[derive(Default, PartialEq, Debug, YaSerialize, YaDeserialize)]\n\
         #[yaserde(prefix = \"xop\", namespace = \"xop: http://example\")]\n"
    );
    assert!(out.contains("xop: http://example"));
}

#[test]
fn struct_with_default_namespace() {
    let gen = YaserdeGenerator::new(&schema(Some(default_ns("urn:x"))));
    let st = Struct { name: "Bar".to_string(), fields: Vec::new() };
    let out = gen.struct_macro(&st);
    assert_eq!(
        out,
        "#[derive(Default, PartialEq, Debug, YaSerialize, YaDeserialize)]\n\
         #[yaserde(namespace = \"urn:x\")]\n"
    );
    assert!(!out.contains("prefix"));
}

#[test]
fn tuple_struct_directive_is_fixed() {
    let with_ns = YaserdeGenerator::new(&schema(Some(named_ns("xop", "http://example"))));
    let without_ns = YaserdeGenerator::new(&schema(None));
    let ts = TupleStruct { name: "Seconds".to_string() };
    assert_eq!(
        with_ns.tuple_struct_macro(&ts),
        "#[derive(Default, PartialEq, Debug, UtilsTupleSerDe)]\n"
    );
    assert_eq!(with_ns.tuple_struct_macro(&ts), without_ns.tuple_struct_macro(&ts));
}

#[test]
fn enum_directive_is_fixed() {
    let with_ns = YaserdeGenerator::new(&schema(Some(named_ns("xop", "http://example"))));
    let without_ns = YaserdeGenerator::new(&schema(None));
    let en = Enum { name: "Protocol".to_string(), cases: Vec::new() };
    assert_eq!(
        with_ns.enum_macro(&en),
        "#[derive(PartialEq, Debug, YaSerialize, YaDeserialize)]"
    );
    assert_eq!(with_ns.enum_macro(&en), without_ns.enum_macro(&en));
}

#[test]
fn enum_case_directive_embeds_the_name_verbatim() {
    let gen = YaserdeGenerator::new(&schema(Some(named_ns("xop", "http://example"))));
    let ec = EnumCase { name: "NTP".to_string() };
    assert_eq!(gen.enum_case_macro(&ec), "    #[yaserde(rename = \"NTP\")]\n");
}

#[test]
fn generator_captures_the_target_namespace() {
    let gen = YaserdeGenerator::new(&schema(Some(named_ns("tt", "http://www.w3.org"))));
    let captured = gen.target_ns().as_ref().expect("a namespace was captured");
    assert_eq!(captured.name.as_deref(), Some("tt"));
    assert_eq!(captured.uri, "http://www.w3.org");

    let bare = YaserdeGenerator::new(&schema(None));
    assert!(bare.target_ns().is_none());
}

#[test]
fn every_operation_is_idempotent() {
    let gen = YaserdeGenerator::new(&schema(Some(named_ns("xop", "http://example"))));
    let ts = TupleStruct { name: "Seconds".to_string() };
    let st = Struct { name: "Foo".to_string(), fields: Vec::new() };
    let en = Enum { name: "Protocol".to_string(), cases: Vec::new() };
    let sf = field("xop:Include", StructFieldSource::Element);
    let ec = EnumCase { name: "NTP".to_string() };
    assert_eq!(gen.tuple_struct_macro(&ts), gen.tuple_struct_macro(&ts));
    assert_eq!(gen.struct_macro(&st), gen.struct_macro(&st));
    assert_eq!(gen.enum_macro(&en), gen.enum_macro(&en));
    assert_eq!(gen.struct_field_macro(&sf), gen.struct_field_macro(&sf));
    assert_eq!(gen.enum_case_macro(&ec), gen.enum_case_macro(&ec));
    assert_eq!(
        yaserde_for_attribute("tt:Include"),
        yaserde_for_attribute("tt:Include")
    );
}

#[test]
fn scenario_file_without_namespace() {
    let file = RsFile {
        target_ns: None,
        types: vec![xsd_parser::model::RsEntity::Struct(Struct {
            name: "Foo".to_string(),
            fields: vec![field("id", StructFieldSource::Attribute)],
        })],
    };
    let gen = YaserdeGenerator::new(&file);
    match &file.types[0] {
        xsd_parser::model::RsEntity::Struct(st) => {
            assert_eq!(
                gen.struct_macro(st),
                "#[derive(Default, PartialEq, Debug, YaSerialize, YaDeserialize)]\n#[yaserde()]\n"
            );
            assert_eq!(
                gen.struct_field_macro(&st.fields[0]),
                "    #[yaserde(attribute, rename = \"id\")]\n"
            );
        }
        _ => panic!("expected a struct declaration"),
    }
}

#[test]
fn scenario_file_with_default_namespace() {
    let file = RsFile {
        target_ns: Some(default_ns("urn:x")),
        types: vec![xsd_parser::model::RsEntity::Struct(Struct {
            name: "Bar".to_string(),
            fields: Vec::new(),
        })],
    };
    let gen = YaserdeGenerator::new(&file);
    match &file.types[0] {
        xsd_parser::model::RsEntity::Struct(st) => {
            let out = gen.struct_macro(st);
            assert!(out.contains("urn:x"));
            assert!(!out.contains("prefix"));
        }
        _ => panic!("expected a struct declaration"),
    }
}
