use proc_macro2::TokenStream;
use std::str::FromStr;
use xml_schema_derive::attribute::Attribute;
use xml_schema_derive::attribute::Required;
use xml_schema_derive::context::NameContext;
use xml_schema_derive::context::XsdContext;
use xml_schema_derive::element::Element;
use xml_schema_derive::extension::Extension;
use xml_schema_derive::model::Cardinality;
use xml_schema_derive::model::CompileError;
use xml_schema_derive::model::GeneratedField;
use xml_schema_derive::model::Placement;
use xml_schema_derive::model::Primitive;
use xml_schema_derive::model::Role;
use xml_schema_derive::model::TypeRef;
use xml_schema_derive::render::render_fields;
use xml_schema_derive::sequence::Sequence;
use xml_schema_derive::simple_type::SimpleType;

fn tokens(text: &str) -> String {
    TokenStream::from_str(text).unwrap().to_string()
}

fn context() -> XsdContext {
    XsdContext::new(Some("xs".to_string()))
}

fn content(kind: TypeRef, role: Role) -> GeneratedField {
    GeneratedField {
        ident: "content".to_string(),
        kind,
        cardinality: Cardinality::Required,
        role,
        rename: None,
        prefix: None,
    }
}

fn attribute(ident: &str, kind: TypeRef, cardinality: Cardinality) -> GeneratedField {
    GeneratedField {
        ident: ident.to_string(),
        kind,
        cardinality,
        role: Role::Attribute,
        rename: None,
        prefix: None,
    }
}

#[test]
fn extension() {
    let st = Extension {
        base: "xs:string".to_string(),
        attributes: vec![],
        sequences: vec![],
    };

    let context = context();

    let implementation = st.implement(&context).unwrap();

    let expected = vec![content(TypeRef::Primitive(Primitive::Str), Role::Text)];

    assert_eq!(implementation, expected);

    let expected = TokenStream::from_str(
        r#"
        #[yaserde(text)]
        pub content: String,
      "#,
    )
    .unwrap();

    assert_eq!(
        tokens(&render_fields(&implementation, Placement::Types)),
        expected.to_string()
    );
}

#[test]
fn extension_with_attributes() {
    let st = Extension {
        base: "xs:string".to_string(),
        attributes: vec![
            Attribute {
                name: Some("attribute_1".to_string()),
                kind: Some("xs:string".to_string()),
                reference: None,
                required: Required::Required,
                simple_type: None,
            },
            Attribute {
                name: Some("attribute_2".to_string()),
                kind: Some("xs:boolean".to_string()),
                reference: None,
                required: Required::Optional,
                simple_type: None,
            },
        ],
        sequences: vec![],
    };

    let context = context();

    let implementation = st.implement(&context).unwrap();

    let expected = vec![
        content(TypeRef::Primitive(Primitive::Str), Role::Text),
        attribute(
            "attribute_1",
            TypeRef::Primitive(Primitive::Str),
            Cardinality::Required,
        ),
        attribute(
            "attribute_2",
            TypeRef::Primitive(Primitive::Bool),
            Cardinality::Optional,
        ),
    ];

    assert_eq!(implementation, expected);

    let expected = TokenStream::from_str(
        r#"
        #[yaserde(text)]
        pub content: String,
        #[yaserde(attribute)]
        pub attribute_1: String,
        #[yaserde(attribute)]
        pub attribute_2: Option<bool> ,
      "#,
    )
    .unwrap();

    assert_eq!(
        tokens(&render_fields(&implementation, Placement::Types)),
        expected.to_string()
    );
}

#[test]
fn extension_of_number_is_flattened() {
    let st = Extension {
        base: "xs:int".to_string(),
        ..Default::default()
    };
    assert_eq!(
        st.implement(&context()).unwrap(),
        vec![content(TypeRef::Primitive(Primitive::I32), Role::Flatten)]
    );
}

#[test]
fn extension_of_external_type_is_flattened() {
    let st = Extension {
        base: "books:base-type".to_string(),
        ..Default::default()
    };
    assert_eq!(
        st.implement(&context()).unwrap(),
        vec![content(
            TypeRef::External("BaseType".to_string()),
            Role::Flatten
        )]
    );
    assert_eq!(
        st.get_field_implementation(&context()),
        content(TypeRef::External("BaseType".to_string()), Role::Flatten)
    );
}

#[test]
fn embedded_base_of_string_is_still_flattened() {
    let st = Extension {
        base: "xs:string".to_string(),
        ..Default::default()
    };
    assert_eq!(
        st.get_field_implementation(&context()),
        content(TypeRef::Primitive(Primitive::Str), Role::Flatten)
    );
}

#[test]
fn embedded_extension_puts_base_then_sequences_then_attributes() {
    let st = Extension {
        base: "books:base".to_string(),
        attributes: vec![Attribute {
            name: Some("lang".to_string()),
            kind: Some("xs:string".to_string()),
            ..Default::default()
        }],
        sequences: vec![
            Sequence {
                elements: vec![Element {
                    name: "first".to_string(),
                    kind: Some("xs:int".to_string()),
                    ..Default::default()
                }],
            },
            Sequence {
                elements: vec![Element {
                    name: "second".to_string(),
                    kind: Some("xs:long".to_string()),
                    ..Default::default()
                }],
            },
        ],
    };
    let fields = st
        .get_embedded_implementation(&context(), &None, &NameContext::new())
        .unwrap();
    let idents: Vec<&str> = fields.iter().map(|f| f.ident.as_str()).collect();
    assert_eq!(idents, vec!["content", "first", "second", "lang"]);
    assert_eq!(fields[0].role, Role::Flatten);
    assert_eq!(fields[0].kind, TypeRef::External("Base".to_string()));
    assert_eq!(fields[1].kind, TypeRef::Primitive(Primitive::I32));
    assert_eq!(fields[2].kind, TypeRef::Primitive(Primitive::I64));
    assert_eq!(fields[3].role, Role::Attribute);
    assert_eq!(fields[3].cardinality, Cardinality::Optional);
}

#[test]
fn first_failing_sequence_decides_the_error() {
    let orphan = |name: &str| Element {
        name: name.to_string(),
        ..Default::default()
    };
    let st = Extension {
        base: "books:base".to_string(),
        attributes: vec![Attribute {
            name: Some("bad".to_string()),
            simple_type: Some(SimpleType::default()),
            ..Default::default()
        }],
        sequences: vec![
            Sequence { elements: vec![] },
            Sequence {
                elements: vec![orphan("one"), orphan("two")],
            },
            Sequence {
                elements: vec![orphan("three")],
            },
        ],
    };
    assert_eq!(
        st.get_embedded_implementation(&context(), &None, &NameContext::new()),
        Err(CompileError::UnresolvedElementType("one".to_string()))
    );
    assert_eq!(
        st.implement(&context()),
        Err(CompileError::UnresolvedSimpleTypeStructure(
            "bad".to_string()
        ))
    );
}
