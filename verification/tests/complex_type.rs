use xml_schema_derive::annotation::Annotation;
use xml_schema_derive::attribute::Attribute;
use xml_schema_derive::complex_content::ComplexContent;
use xml_schema_derive::complex_type::ComplexType;
use xml_schema_derive::complex_type::ContentKind;
use xml_schema_derive::context::NameContext;
use xml_schema_derive::context::XsdContext;
use xml_schema_derive::element::Element;
use xml_schema_derive::extension::Extension;
use xml_schema_derive::model::Cardinality;
use xml_schema_derive::model::CompileError;
use xml_schema_derive::model::GeneratedField;
use xml_schema_derive::model::GeneratedTypeDecl;
use xml_schema_derive::model::Placement;
use xml_schema_derive::model::Primitive;
use xml_schema_derive::model::Role;
use xml_schema_derive::model::TypeRef;
use xml_schema_derive::sequence::Sequence;
use xml_schema_derive::simple_content::SimpleContent;
use xml_schema_derive::simple_type::Restriction;
use xml_schema_derive::simple_type::SimpleType;

fn context() -> XsdContext {
    XsdContext::new(Some("xs".to_string()))
}

fn typed(name: &str, kind: &str) -> Element {
    Element {
        name: name.to_string(),
        kind: Some(kind.to_string()),
        ..Default::default()
    }
}

fn holding(name: &str, elements: Vec<Element>) -> Element {
    Element {
        name: name.to_string(),
        complex_type: Some(ComplexType {
            sequence: Some(Sequence { elements }),
            ..Default::default()
        }),
        ..Default::default()
    }
}

fn named(name: &str) -> Attribute {
    Attribute {
        name: Some(name.to_string()),
        kind: Some("xs:string".to_string()),
        ..Default::default()
    }
}

fn extension_of(base: &str) -> Extension {
    Extension {
        base: base.to_string(),
        ..Default::default()
    }
}

fn idents(fields: &[GeneratedField]) -> Vec<&str> {
    fields.iter().map(|f| f.ident.as_str()).collect()
}

fn names(decls: &[GeneratedTypeDecl]) -> Vec<&str> {
    decls.iter().map(|d| d.name.as_str()).collect()
}

#[test]
fn sequence_with_one_format_element() {
    let complex_type = ComplexType {
        name: "book".to_string(),
        sequence: Some(Sequence {
            elements: vec![typed("format", "xs:string")],
        }),
        ..Default::default()
    };
    let fields = complex_type
        .get_field_implementation(&context(), &None, &NameContext::new())
        .unwrap();
    assert_eq!(
        fields,
        vec![GeneratedField {
            ident: "format".to_string(),
            kind: TypeRef::Primitive(Primitive::Str),
            cardinality: Cardinality::Required,
            role: Role::Element,
            rename: Some("format".to_string()),
            prefix: None,
        }]
    );
}

#[test]
fn sequence_keeps_document_order() {
    let sequence = Sequence {
        elements: vec![
            typed("zulu", "xs:string"),
            typed("", "xs:string"),
            typed("alpha", "xs:int"),
            typed("mike", "books:mike"),
        ],
    };
    let fields = sequence
        .get_field_implementation(&context(), &None, &NameContext::new())
        .unwrap();
    assert_eq!(idents(&fields), vec!["zulu", "alpha", "mike"]);
    let again = sequence
        .implement(&None, &context(), &NameContext::new())
        .unwrap();
    assert_eq!(fields, again);
}

#[test]
fn first_failing_element_decides_the_error() {
    let orphan = |name: &str| Element {
        name: name.to_string(),
        ..Default::default()
    };
    let sequence = Sequence {
        elements: vec![
            typed("fine", "xs:string"),
            orphan(""),
            orphan("first"),
            orphan("second"),
        ],
    };
    assert_eq!(
        sequence.get_field_implementation(&context(), &None, &NameContext::new()),
        Err(CompileError::UnresolvedElementType("first".to_string()))
    );
}

#[test]
fn content_model_is_picked_in_order() {
    let all = ComplexType {
        sequence: Some(Sequence::default()),
        simple_content: Some(SimpleContent::default()),
        complex_content: Some(ComplexContent::default()),
        ..Default::default()
    };
    assert_eq!(all.content_kind(), ContentKind::Sequence);
    let two = ComplexType {
        simple_content: Some(SimpleContent::default()),
        complex_content: Some(ComplexContent::default()),
        ..Default::default()
    };
    assert_eq!(two.content_kind(), ContentKind::SimpleContent);
    let one = ComplexType {
        complex_content: Some(ComplexContent::default()),
        ..Default::default()
    };
    assert_eq!(one.content_kind(), ContentKind::ComplexContent);
    assert_eq!(ComplexType::default().content_kind(), ContentKind::Empty);
}

#[test]
fn attributes_follow_the_content_model() {
    let complex_type = ComplexType {
        name: "book".to_string(),
        attributes: vec![named("isbn")],
        sequence: Some(Sequence {
            elements: vec![typed("title", "xs:string")],
        }),
        ..Default::default()
    };
    let fields = complex_type
        .get_field_implementation(&context(), &None, &NameContext::new())
        .unwrap();
    assert_eq!(idents(&fields), vec!["title", "isbn"]);
    assert_eq!(fields[1].role, Role::Attribute);
}

#[test]
fn empty_complex_type_has_attribute_fields_only() {
    let bare = ComplexType {
        name: "empty".to_string(),
        ..Default::default()
    };
    let decls = bare
        .implement(
            &None,
            &None,
            &context(),
            &NameContext::new(),
            Placement::Types,
        )
        .unwrap();
    assert_eq!(
        decls,
        vec![GeneratedTypeDecl {
            name: "Empty".to_string(),
            fields: vec![],
            docs: vec![],
            namespace: None,
            placement: Placement::Types,
        }]
    );
    let with_attribute = ComplexType {
        name: "empty".to_string(),
        attributes: vec![named("id")],
        ..Default::default()
    };
    let fields = with_attribute
        .get_field_implementation(&context(), &None, &NameContext::new())
        .unwrap();
    assert_eq!(idents(&fields), vec!["id"]);
}

#[test]
fn simple_content_gives_content_then_attributes() {
    let complex_type = ComplexType {
        name: "title".to_string(),
        attributes: vec![named("own")],
        simple_content: Some(SimpleContent {
            extension: Extension {
                base: "xs:string".to_string(),
                attributes: vec![named("lang")],
                sequences: vec![],
            },
        }),
        ..Default::default()
    };
    let fields = complex_type
        .get_field_implementation(&context(), &None, &NameContext::new())
        .unwrap();
    assert_eq!(idents(&fields), vec!["content", "lang", "own"]);
    assert_eq!(fields[0].role, Role::Text);
}

#[test]
fn complex_content_embeds_its_base() {
    let complex_type = ComplexType {
        name: "novel".to_string(),
        attributes: vec![named("own")],
        complex_content: Some(ComplexContent {
            extension: Extension {
                base: "books:book".to_string(),
                attributes: vec![named("genre")],
                sequences: vec![Sequence {
                    elements: vec![typed("plot", "xs:string")],
                }],
            },
        }),
        ..Default::default()
    };
    let decls = complex_type
        .implement(
            &None,
            &None,
            &context(),
            &NameContext::new(),
            Placement::Types,
        )
        .unwrap();
    assert_eq!(decls.len(), 1);
    assert_eq!(decls[0].name, "Novel");
    assert_eq!(
        idents(&decls[0].fields),
        vec!["content", "plot", "genre", "own"]
    );
    assert_eq!(decls[0].fields[0].role, Role::Flatten);
    assert_eq!(
        decls[0].fields[0].kind,
        TypeRef::External("Book".to_string())
    );
}

#[test]
fn documentation_is_carried_in_order() {
    let complex_type = ComplexType {
        name: "book".to_string(),
        annotation: Some(Annotation {
            id: None,
            attributes: vec![],
            documentation: vec!["first".to_string(), "second".to_string()],
        }),
        ..Default::default()
    };
    let decls = complex_type
        .implement(
            &None,
            &None,
            &context(),
            &NameContext::new(),
            Placement::Types,
        )
        .unwrap();
    assert_eq!(
        decls[0].docs,
        vec!["first".to_string(), "second".to_string()]
    );
}

#[test]
fn nested_anonymous_types_are_hoisted_in_document_order() {
    let complex_type = ComplexType {
        name: "Book".to_string(),
        sequence: Some(Sequence {
            elements: vec![
                holding(
                    "paper",
                    vec![holding("format", vec![typed("width", "xs:int")])],
                ),
                typed("title", "xs:string"),
                holding(
                    "screen",
                    vec![holding("format", vec![typed("dpi", "xs:int")])],
                ),
            ],
        }),
        ..Default::default()
    };
    let decls = complex_type
        .implement(
            &None,
            &None,
            &context(),
            &NameContext::new(),
            Placement::Types,
        )
        .unwrap();
    assert_eq!(
        names(&decls),
        vec![
            "Book",
            "Bookpaper",
            "Bookpaperformat",
            "Bookscreen",
            "Bookscreenformat"
        ]
    );
    assert_eq!(idents(&decls[0].fields), vec!["paper", "title", "screen"]);
    assert_eq!(
        decls[0].fields[0].kind,
        TypeRef::Declared("Bookpaper".to_string())
    );
    assert_eq!(
        decls[1].fields[0].kind,
        TypeRef::Declared("Bookpaperformat".to_string())
    );
    assert_eq!(
        decls[3].fields[0].kind,
        TypeRef::Declared("Bookscreenformat".to_string())
    );
    assert_eq!(idents(&decls[2].fields), vec!["width"]);
    assert_eq!(idents(&decls[4].fields), vec!["dpi"]);
    for d in &decls {
        assert_eq!(d.placement, Placement::Types);
    }
}

#[test]
fn every_declared_reference_names_a_hoisted_declaration() {
    let complex_type = ComplexType {
        name: "library".to_string(),
        sequence: Some(Sequence {
            elements: vec![
                holding("shelf", vec![holding("book", vec![holding("page", vec![])])]),
                holding("desk", vec![]),
            ],
        }),
        ..Default::default()
    };
    let decls = complex_type
        .implement(
            &None,
            &None,
            &context(),
            &NameContext::new(),
            Placement::Types,
        )
        .unwrap();
    let declared: Vec<&str> = names(&decls);
    let mut seen = 0;
    for d in &decls {
        for f in &d.fields {
            if let TypeRef::Declared(name) = &f.kind {
                assert!(declared.contains(&name.as_str()));
                seen += 1;
            }
        }
    }
    assert_eq!(seen, 4);
    assert_eq!(decls.len(), 5);
}

#[test]
fn element_wrapping_a_primitive_is_text_and_not_hoisted() {
    let wrapped = Element {
        name: "title".to_string(),
        complex_type: Some(ComplexType {
            simple_content: Some(SimpleContent {
                extension: Extension {
                    base: "xs:int".to_string(),
                    attributes: vec![named("lang")],
                    sequences: vec![],
                },
            }),
            ..Default::default()
        }),
        ..Default::default()
    };
    assert!(!wrapped.is_hoisted(&context()));
    let complex_type = ComplexType {
        name: "book".to_string(),
        sequence: Some(Sequence {
            elements: vec![wrapped],
        }),
        ..Default::default()
    };
    let decls = complex_type
        .implement(
            &None,
            &None,
            &context(),
            &NameContext::new(),
            Placement::Types,
        )
        .unwrap();
    assert_eq!(names(&decls), vec!["Book"]);
    assert_eq!(
        decls[0].fields[0].kind,
        TypeRef::Primitive(Primitive::Str)
    );
}

#[test]
fn element_wrapping_an_external_type_is_hoisted() {
    let wrapped = Element {
        name: "title".to_string(),
        complex_type: Some(ComplexType {
            simple_content: Some(SimpleContent {
                extension: extension_of("books:rich-text"),
            }),
            ..Default::default()
        }),
        ..Default::default()
    };
    assert!(wrapped.is_hoisted(&context()));
    let complex_type = ComplexType {
        name: "book".to_string(),
        sequence: Some(Sequence {
            elements: vec![wrapped],
        }),
        ..Default::default()
    };
    let decls = complex_type
        .implement(
            &None,
            &None,
            &context(),
            &NameContext::new(),
            Placement::Types,
        )
        .unwrap();
    assert_eq!(names(&decls), vec!["Book", "Booktitle"]);
    assert_eq!(
        decls[0].fields[0].kind,
        TypeRef::Declared("Booktitle".to_string())
    );
    assert_eq!(
        decls[1].fields,
        vec![GeneratedField {
            ident: "content".to_string(),
            kind: TypeRef::External("RichText".to_string()),
            cardinality: Cardinality::Required,
            role: Role::Flatten,
            rename: None,
            prefix: None,
        }]
    );
}

#[test]
fn integrated_type_is_string_or_the_hoisted_name() {
    let names = NameContext::new().extend("Book");
    let text = ComplexType {
        simple_content: Some(SimpleContent {
            extension: extension_of("xs:decimal"),
        }),
        ..Default::default()
    };
    assert!(text.is_text_content(&context()));
    assert_eq!(
        text.get_integrated_implementation("price", &context(), &names),
        TypeRef::Primitive(Primitive::Str)
    );
    let empty = ComplexType::default();
    assert!(!empty.is_text_content(&context()));
    assert_eq!(
        empty.get_integrated_implementation("price", &context(), &names),
        TypeRef::Declared("Bookprice".to_string())
    );
    let both = ComplexType {
        sequence: Some(Sequence::default()),
        simple_content: Some(SimpleContent {
            extension: extension_of("xs:decimal"),
        }),
        ..Default::default()
    };
    assert!(!both.is_text_content(&context()));
}

#[test]
fn elements_added_by_an_extension_are_hoisted_too() {
    let complex_type = ComplexType {
        name: "novel".to_string(),
        complex_content: Some(ComplexContent {
            extension: Extension {
                base: "books:book".to_string(),
                attributes: vec![],
                sequences: vec![
                    Sequence {
                        elements: vec![holding("plot", vec![typed("twist", "xs:string")])],
                    },
                    Sequence {
                        elements: vec![holding("cast", vec![])],
                    },
                ],
            },
        }),
        ..Default::default()
    };
    let decls = complex_type
        .implement(
            &None,
            &None,
            &context(),
            &NameContext::new(),
            Placement::Types,
        )
        .unwrap();
    assert_eq!(names(&decls), vec!["Novel", "Novelplot", "Novelcast"]);
    assert_eq!(idents(&decls[0].fields), vec!["content", "plot", "cast"]);
}

#[test]
fn error_below_a_hoisted_element_aborts() {
    let complex_type = ComplexType {
        name: "book".to_string(),
        sequence: Some(Sequence {
            elements: vec![holding(
                "format",
                vec![Element {
                    name: "deep".to_string(),
                    simple_type: Some(SimpleType {
                        name: String::new(),
                        restriction: None,
                    }),
                    ..Default::default()
                }],
            )],
        }),
        ..Default::default()
    };
    assert_eq!(
        complex_type.implement(
            &None,
            &None,
            &context(),
            &NameContext::new(),
            Placement::Types
        ),
        Err(CompileError::UnresolvedSimpleTypeStructure(
            "deep".to_string()
        ))
    );
}

#[test]
fn top_level_simple_type_wraps_its_base() {
    let simple_type = SimpleType {
        name: "isbn-code".to_string(),
        restriction: Some(Restriction {
            base: "xs:unsignedLong".to_string(),
        }),
    };
    assert_eq!(
        simple_type.implement(&None, &context(), &NameContext::new(), Placement::Types),
        Ok(GeneratedTypeDecl {
            name: "IsbnCode".to_string(),
            fields: vec![GeneratedField {
                ident: "content".to_string(),
                kind: TypeRef::Primitive(Primitive::U64),
                cardinality: Cardinality::Required,
                role: Role::Flatten,
                rename: None,
                prefix: None,
            }],
            docs: vec![],
            namespace: None,
            placement: Placement::Types,
        })
    );
    let loose = SimpleType {
        name: "loose".to_string(),
        restriction: None,
    };
    assert_eq!(
        loose.implement(&None, &context(), &NameContext::new(), Placement::Types),
        Err(CompileError::UnresolvedSimpleTypeStructure(
            "loose".to_string()
        ))
    );
}
