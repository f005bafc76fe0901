use proc_macro2::TokenStream;
use proc_macro2::TokenTree;
use std::str::FromStr;
use xml_schema_derive::model::Cardinality;
use xml_schema_derive::model::GeneratedField;
use xml_schema_derive::model::GeneratedTypeDecl;
use xml_schema_derive::model::Namespace;
use xml_schema_derive::model::Placement;
use xml_schema_derive::model::Primitive;
use xml_schema_derive::model::Role;
use xml_schema_derive::model::TypeRef;
use xml_schema_derive::render::primitive_name;
use xml_schema_derive::render::quote_string;
use xml_schema_derive::render::render_docs;
use xml_schema_derive::render::render_fields;
use xml_schema_derive::render::render_namespace;
use xml_schema_derive::render::render_placed;
use xml_schema_derive::render::render_schema;

fn field(ident: &str, kind: TypeRef, cardinality: Cardinality, role: Role) -> GeneratedField {
    GeneratedField {
        ident: ident.to_string(),
        kind,
        cardinality,
        role,
        rename: None,
        prefix: None,
    }
}

fn decl(name: &str, placement: Placement, fields: Vec<GeneratedField>) -> GeneratedTypeDecl {
    GeneratedTypeDecl {
        name: name.to_string(),
        fields,
        docs: vec![],
        namespace: None,
        placement,
    }
}

const DERIVES: &str = "#[derive(Clone, Debug, Default, PartialEq, yaserde_derive::YaDeserialize, yaserde_derive::YaSerialize)]\n";

#[test]
fn string_literals_escape_what_must_be_escaped() {
    assert_eq!(quote_string(""), "\"\"");
    assert_eq!(quote_string("plain"), "\"plain\"");
    assert_eq!(quote_string("say \"hi\""), "\"say \\\"hi\\\"\"");
    assert_eq!(quote_string("a\\b"), "\"a\\\\b\"");
    assert_eq!(quote_string("a\nb\rc\td\0e"), "\"a\\nb\\rc\\td\\0e\"");
    assert_eq!(quote_string("é ü 'x'"), "\"é ü 'x'\"");
}

#[test]
fn string_literals_read_back_as_the_string() {
    for text in [
        "",
        "plain",
        "say \"hi\"",
        "back\\slash",
        "line\nbreak\r\n",
        "tab\t nul\0",
        "é 日本語 {braces} 'quote'",
        "\\\"",
    ] {
        let stream = TokenStream::from_str(&quote_string(text)).unwrap();
        let trees: Vec<TokenTree> = stream.into_iter().collect();
        assert_eq!(trees.len(), 1);
        match &trees[0] {
            TokenTree::Literal(literal) => {
                assert_eq!(
                    literal.to_string(),
                    proc_macro2::Literal::string(text).to_string()
                );
            }
            _ => panic!("not a literal"),
        }
    }
}

#[test]
fn primitives_have_their_names() {
    assert_eq!(primitive_name(Primitive::Bool), "bool");
    assert_eq!(primitive_name(Primitive::I8), "i8");
    assert_eq!(primitive_name(Primitive::U8), "u8");
    assert_eq!(primitive_name(Primitive::I16), "i16");
    assert_eq!(primitive_name(Primitive::U16), "u16");
    assert_eq!(primitive_name(Primitive::I32), "i32");
    assert_eq!(primitive_name(Primitive::U32), "u32");
    assert_eq!(primitive_name(Primitive::I64), "i64");
    assert_eq!(primitive_name(Primitive::U64), "u64");
    assert_eq!(primitive_name(Primitive::Double), "f64");
    assert_eq!(primitive_name(Primitive::Str), "String");
    assert_eq!(TypeRef::External("A".to_string()).name(), "A");
    assert_eq!(TypeRef::Declared("B".to_string()).name(), "B");
    assert_eq!(TypeRef::Primitive(Primitive::Str).name(), "String");
}

#[test]
fn cardinality_wraps_the_type() {
    let kind = || TypeRef::External("Page".to_string());
    assert_eq!(
        field("a", kind(), Cardinality::Required, Role::Element).render_type(Placement::Types),
        "Page"
    );
    assert_eq!(
        field("a", kind(), Cardinality::Optional, Role::Element).render_type(Placement::Types),
        "Option<Page>"
    );
    assert_eq!(
        field("a", kind(), Cardinality::List, Role::Element).render_type(Placement::Types),
        "Vec<Page>"
    );
    assert_eq!(
        field("a", kind(), Cardinality::List, Role::Element).render_type(Placement::Root),
        "Vec<Page>"
    );
}

#[test]
fn content_beside_the_shared_namespace_is_written_under_it() {
    let text = field(
        "content",
        TypeRef::Primitive(Primitive::Str),
        Cardinality::Required,
        Role::Text,
    );
    assert!(text.is_shared(Placement::Root));
    assert!(!text.is_shared(Placement::Types));
    assert_eq!(text.render_type(Placement::Root), "types::String");
    assert_eq!(text.render_type(Placement::Types), "String");
    let flat = field(
        "content",
        TypeRef::External("Book".to_string()),
        Cardinality::Optional,
        Role::Flatten,
    );
    assert_eq!(flat.render_type(Placement::Root), "Option<types::Book>");
    let attribute = field(
        "lang",
        TypeRef::Primitive(Primitive::Str),
        Cardinality::Required,
        Role::Attribute,
    );
    assert!(!attribute.is_shared(Placement::Root));
    let element = field(
        "title",
        TypeRef::Primitive(Primitive::Str),
        Cardinality::Required,
        Role::Element,
    );
    assert!(!element.is_shared(Placement::Root));
}

#[test]
fn directive_lists_role_then_rename_then_prefix() {
    let mut f = field(
        "first_name",
        TypeRef::Primitive(Primitive::Str),
        Cardinality::Required,
        Role::Element,
    );
    assert_eq!(f.render_directive(), "");
    assert_eq!(f.render(Placement::Types), "    pub first_name: String,\n");
    f.prefix = Some("bk".to_string());
    assert_eq!(f.render_directive(), "prefix = \"bk\"");
    f.rename = Some("FirstName".to_string());
    assert_eq!(f.render_directive(), "rename = \"FirstName\", prefix = \"bk\"");
    assert_eq!(
        f.render(Placement::Types),
        "    #[yaserde(rename = \"FirstName\", prefix = \"bk\")]\n    pub first_name: String,\n"
    );
    f.role = Role::Attribute;
    f.prefix = None;
    assert_eq!(f.render_directive(), "attribute, rename = \"FirstName\"");
    f.rename = None;
    assert_eq!(f.render_directive(), "attribute");
    f.role = Role::Text;
    assert_eq!(f.render_directive(), "text");
    f.role = Role::Flatten;
    assert_eq!(f.render_directive(), "flatten");
}

#[test]
fn fields_are_written_in_order() {
    let fields = vec![
        field(
            "b",
            TypeRef::Primitive(Primitive::I32),
            Cardinality::Required,
            Role::Attribute,
        ),
        field(
            "a",
            TypeRef::Primitive(Primitive::Double),
            Cardinality::List,
            Role::Attribute,
        ),
    ];
    assert_eq!(
        render_fields(&fields, Placement::Types),
        "    #[yaserde(attribute)]\n    pub b: i32,\n    #[yaserde(attribute)]\n    pub a: Vec<f64> ,\n"
    );
    assert_eq!(render_fields(&vec![], Placement::Types), "");
}

#[test]
fn documentation_and_namespace_lines() {
    assert_eq!(render_docs(&vec![]), "");
    assert_eq!(
        render_docs(&vec!["one".to_string(), "two \"2\"".to_string()]),
        "#[doc = \"one\"]\n#[doc = \"two \\\"2\\\"\"]\n"
    );
    assert_eq!(render_namespace(&None), "");
    assert_eq!(
        render_namespace(&Some(Namespace {
            prefix: "bk".to_string(),
            uri: "http://example.com".to_string(),
        })),
        "#[yaserde(prefix = \"bk\", namespace = \"bk: http://example.com\")]\n"
    );
}

#[test]
fn declaration_is_written_whole() {
    let d = GeneratedTypeDecl {
        name: "Book".to_string(),
        fields: vec![field(
            "title",
            TypeRef::Primitive(Primitive::Str),
            Cardinality::Required,
            Role::Element,
        )],
        docs: vec!["A book.".to_string()],
        namespace: Some(Namespace {
            prefix: "bk".to_string(),
            uri: "urn:books".to_string(),
        }),
        placement: Placement::Types,
    };
    let expected = format!(
        "#[doc = \"A book.\"]\n{DERIVES}#[yaserde(prefix = \"bk\", namespace = \"bk: urn:books\")]\npub struct Book {{\n    pub title: String,\n}}\n"
    );
    assert_eq!(d.render(), expected);
    assert!(TokenStream::from_str(&d.render()).is_ok());
}

#[test]
fn schema_text_puts_shared_declarations_in_the_module() {
    let decls = vec![
        decl("Root1", Placement::Root, vec![]),
        decl("Shared1", Placement::Types, vec![]),
        decl("Root2", Placement::Root, vec![]),
        decl("Shared2", Placement::Types, vec![]),
    ];
    let shared = format!("{DERIVES}pub struct Shared1 {{\n}}\n{DERIVES}pub struct Shared2 {{\n}}\n");
    let root = format!("{DERIVES}pub struct Root1 {{\n}}\n{DERIVES}pub struct Root2 {{\n}}\n");
    assert_eq!(render_placed(&decls, Placement::Types), shared);
    assert_eq!(render_placed(&decls, Placement::Root), root);
    assert_eq!(
        render_schema(&decls),
        format!("pub mod types {{\n{shared}}}\n{root}")
    );
    assert_eq!(render_schema(&vec![]), "pub mod types {\n}\n");
}
