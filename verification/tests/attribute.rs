use xml_schema_derive::attribute::implement_attributes;
use xml_schema_derive::attribute::Attribute;
use xml_schema_derive::attribute::Required;
use xml_schema_derive::context::XsdContext;
use xml_schema_derive::model::Cardinality;
use xml_schema_derive::model::CompileError;
use xml_schema_derive::model::GeneratedField;
use xml_schema_derive::model::Primitive;
use xml_schema_derive::model::Role;
use xml_schema_derive::model::TypeRef;
use xml_schema_derive::simple_type::Restriction;
use xml_schema_derive::simple_type::SimpleType;

fn context() -> XsdContext {
    XsdContext::new(Some("xs".to_string()))
}

#[test]
fn required_attribute_lang() {
    let attribute = Attribute {
        name: Some("lang".to_string()),
        kind: Some("xs:string".to_string()),
        reference: None,
        required: Required::Required,
        simple_type: None,
    };
    assert_eq!(
        attribute.implement(&context()),
        Ok(Some(GeneratedField {
            ident: "lang".to_string(),
            kind: TypeRef::Primitive(Primitive::Str),
            cardinality: Cardinality::Required,
            role: Role::Attribute,
            rename: None,
            prefix: None,
        }))
    );
}

#[test]
fn attribute_is_optional_by_default() {
    let attribute = Attribute {
        name: Some("count".to_string()),
        kind: Some("xs:unsignedInt".to_string()),
        ..Default::default()
    };
    let field = attribute.implement(&context()).unwrap().unwrap();
    assert_eq!(field.cardinality, Cardinality::Optional);
    assert_eq!(field.kind, TypeRef::Primitive(Primitive::U32));
}

#[test]
fn attribute_records_wire_name_when_identifier_differs() {
    let attribute = Attribute {
        name: Some("pageCount".to_string()),
        kind: Some("xs:int".to_string()),
        ..Default::default()
    };
    let field = attribute.implement(&context()).unwrap().unwrap();
    assert_eq!(field.ident, "page_count");
    assert_eq!(field.rename, Some("pageCount".to_string()));
}

#[test]
fn attribute_called_type_is_named_kind() {
    let attribute = Attribute {
        name: Some("type".to_string()),
        kind: Some("xs:string".to_string()),
        ..Default::default()
    };
    let field = attribute.implement(&context()).unwrap().unwrap();
    assert_eq!(field.ident, "kind");
    assert_eq!(field.rename, Some("type".to_string()));
}

#[test]
fn attribute_without_name_gives_no_field() {
    let unnamed = Attribute {
        reference: Some("xml:lang".to_string()),
        ..Default::default()
    };
    assert_eq!(unnamed.implement(&context()), Ok(None));
    let empty = Attribute {
        name: Some(String::new()),
        simple_type: Some(SimpleType::default()),
        ..Default::default()
    };
    assert_eq!(empty.implement(&context()), Ok(None));
}

#[test]
fn attribute_type_comes_from_reference_then_simple_type_then_string() {
    let by_reference = Attribute {
        name: Some("a".to_string()),
        reference: Some("books:code".to_string()),
        ..Default::default()
    };
    assert_eq!(
        by_reference.get_type_implementation(&context()),
        Ok(TypeRef::External("Code".to_string()))
    );
    let by_simple_type = Attribute {
        name: Some("a".to_string()),
        simple_type: Some(SimpleType {
            name: String::new(),
            restriction: Some(Restriction {
                base: "xs:long".to_string(),
            }),
        }),
        ..Default::default()
    };
    assert_eq!(
        by_simple_type.get_type_implementation(&context()),
        Ok(TypeRef::Primitive(Primitive::I64))
    );
    let untyped = Attribute {
        name: Some("a".to_string()),
        ..Default::default()
    };
    assert_eq!(
        untyped.get_type_implementation(&context()),
        Ok(TypeRef::Primitive(Primitive::Str))
    );
    let both = Attribute {
        name: Some("a".to_string()),
        kind: Some("xs:int".to_string()),
        reference: Some("books:code".to_string()),
        ..Default::default()
    };
    assert_eq!(
        both.get_type_implementation(&context()),
        Ok(TypeRef::Primitive(Primitive::I32))
    );
}

#[test]
fn attribute_with_unclassified_simple_type_fails() {
    let attribute = Attribute {
        name: Some("code".to_string()),
        simple_type: Some(SimpleType::default()),
        ..Default::default()
    };
    assert_eq!(
        attribute.implement(&context()),
        Err(CompileError::UnresolvedSimpleTypeStructure(
            "code".to_string()
        ))
    );
    let named = Attribute {
        name: Some("code".to_string()),
        simple_type: Some(SimpleType {
            name: "code-type".to_string(),
            restriction: None,
        }),
        ..Default::default()
    };
    assert_eq!(
        named.implement(&context()),
        Err(CompileError::UnresolvedSimpleTypeStructure(
            "code-type".to_string()
        ))
    );
}

#[test]
fn attributes_keep_their_order_and_skip_unnamed_ones() {
    let named = |name: &str| Attribute {
        name: Some(name.to_string()),
        kind: Some("xs:string".to_string()),
        ..Default::default()
    };
    let attributes = vec![named("b"), Attribute::default(), named("a"), named("c")];
    let fields = implement_attributes(&attributes, &context()).unwrap();
    let idents: Vec<&str> = fields.iter().map(|f| f.ident.as_str()).collect();
    assert_eq!(idents, vec!["b", "a", "c"]);
}

#[test]
fn first_failing_attribute_decides_the_error() {
    let bad = |name: &str| Attribute {
        name: Some(name.to_string()),
        simple_type: Some(SimpleType::default()),
        ..Default::default()
    };
    let attributes = vec![Attribute::default(), bad("first"), bad("second")];
    assert_eq!(
        implement_attributes(&attributes, &context()),
        Err(CompileError::UnresolvedSimpleTypeStructure(
            "first".to_string()
        ))
    );
}
